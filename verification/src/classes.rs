//! The classes that were held: per subject, the dates of the classes, and
//! apart from them the extra classes.

use crate::absents::Absents;
use crate::datelog::dates_in;
use crate::datelog::texts;
use crate::datelog::DateLog;
use crate::text::decimal;
use crate::text::push_decimal;
use crate::timetable::Subject;
use crate::timetable::SUBJECT_COUNT;
use vstd::prelude::*;

verus! {

/// The error type of the standard library's input and output. No function
/// of the library makes one.
#[verifier::external_type_specification]
#[verifier::external_body]
pub struct ExIoError(std::io::Error);

/// What follows the date of a class that was missed.
pub const ABSENT_MARK: &'static str =
    " (absent \u{f0}\u{178}\u{192}\u{e2}\u{20ac}\u{e2}\u{2122}\u{201a}\u{ef}\u{b8})";

/// The classes that were held, regular and extra.
#[derive(Debug)]
pub struct Classes {
    pub classes: DateLog,
    pub extras: DateLog,
}

/// The number of classes of one subject, as it is written to the table of
/// counts.
#[derive(Debug)]
pub struct ClassEntry {
    pub subject: Subject,
    pub classes: u32,
}

/// The line of the listing for one date: two tabs, the date, the mark of an
/// absence where the date is among `missed`, a line break.
pub open spec fn class_line(date: Seq<char>, missed: Seq<Seq<char>>) -> Seq<char> {
    "\t\t"@ + date + (if missed.contains(date) {
        ABSENT_MARK@
    } else {
        Seq::empty()
    }) + "\n"@
}

/// The listing of one subject: its name, a line for each date and an empty
/// line; nothing for a subject without an entry. A date is marked where
/// `missed` holds it for the same subject.
pub open spec fn subject_block(
    log: Map<Subject, Seq<Seq<char>>>,
    missed: Map<Subject, Seq<Seq<char>>>,
    subject: Subject,
) -> Seq<char> {
    if log.contains_key(subject) {
        subject.spec_name() + log[subject].flat_map(
            |date: Seq<char>| class_line(date, dates_in(missed, subject)),
        ) + "\n"@
    } else {
        Seq::empty()
    }
}

/// The listings of all subjects of a log, in declaration order.
pub open spec fn section(
    log: Map<Subject, Seq<Seq<char>>>,
    missed: Map<Subject, Seq<Seq<char>>>,
) -> Seq<char> {
    Subject::all().flat_map(|subject: Subject| subject_block(log, missed, subject))
}

/// Appends the listing of `subject` in `log` to `out`.
fn push_subject_block(out: &mut String, log: &DateLog, missed: &DateLog, subject: Subject)
    ensures
        final(out)@ == old(out)@ + subject_block(log@, missed@, subject),
{
    match log.get(subject) {
        Some(dates) => {
            out.append(subject.name());
            let ghost named = out@;
            let ghost line = |date: Seq<char>| class_line(date, dates_in(missed@, subject));
            let mut i: usize = 0;
            while i < dates.len()
                invariant
                    i <= dates.len(),
                    line == |date: Seq<char>| class_line(date, dates_in(missed@, subject)),
                    out@ == named + texts(dates@).take(i as int).flat_map(line),
                decreases dates.len() - i,
            {
                out.append("\t\t");
                out.append(dates[i].as_str());
                if missed.contains(subject, &dates[i]) {
                    out.append(ABSENT_MARK);
                }
                out.append("\n");
                proof {
                    texts(dates@).lemma_flat_map_take_append(line, i as int);
                }
                i += 1;
            }
            out.append("\n");
            assert(texts(dates@).take(i as int) =~= texts(dates@));
        },
        None => {},
    }
    assert(out@ =~= old(out)@ + subject_block(log@, missed@, subject));
}

/// Appends the listings of all subjects of `log` to `out`.
fn push_section(out: &mut String, log: &DateLog, missed: &DateLog)
    ensures
        final(out)@ == old(out)@ + section(log@, missed@),
{
    let ghost block = |subject: Subject| subject_block(log@, missed@, subject);
    let mut code: u8 = 0;
    while code < SUBJECT_COUNT
        invariant
            code <= SUBJECT_COUNT,
            block == |subject: Subject| subject_block(log@, missed@, subject),
            out@ == old(out)@ + Subject::all().take(code as int).flat_map(block),
        decreases SUBJECT_COUNT - code,
    {
        push_subject_block(out, log, missed, Subject::nth(code));
        proof {
            Subject::all().lemma_flat_map_take_append(block, code as int);
        }
        code += 1;
    }
    assert(Subject::all().take(code as int) =~= Subject::all());
}

/// The line of the table of counts for one subject: its name, two tabs, the
/// number of its dates, a line break; nothing for a subject without an entry.
pub open spec fn count_line(log: Map<Subject, Seq<Seq<char>>>, subject: Subject) -> Seq<char> {
    if log.contains_key(subject) {
        subject.spec_name() + "\t\t"@ + decimal(log[subject].len()) + "\n"@
    } else {
        Seq::empty()
    }
}

/// The lines of the table of counts for all subjects of a log, in declaration
/// order.
pub open spec fn count_lines(log: Map<Subject, Seq<Seq<char>>>) -> Seq<char> {
    Subject::all().flat_map(|subject: Subject| count_line(log, subject))
}

/// Appends the lines of the table of counts of `log` to `out`.
fn push_count_lines(out: &mut String, log: &DateLog)
    ensures
        final(out)@ == old(out)@ + count_lines(log@),
{
    let ghost line = |subject: Subject| count_line(log@, subject);
    let mut code: u8 = 0;
    while code < SUBJECT_COUNT
        invariant
            code <= SUBJECT_COUNT,
            line == |subject: Subject| count_line(log@, subject),
            out@ == old(out)@ + Subject::all().take(code as int).flat_map(line),
        decreases SUBJECT_COUNT - code,
    {
        let ghost before = out@;
        let subject = Subject::nth(code);
        match log.get(subject) {
            Some(dates) => {
                out.append(subject.name());
                out.append("\t\t");
                push_decimal(out, dates.len() as u64);
                out.append("\n");
            },
            None => {},
        }
        proof {
            assert(out@ =~= before + line(subject));
            Subject::all().lemma_flat_map_take_append(line, code as int);
        }
        code += 1;
    }
    assert(Subject::all().take(code as int) =~= Subject::all());
}

/// The number of dates as it fits the table of counts: its lowest 32 bits.
pub open spec fn count_of(dates: Seq<Seq<char>>) -> u32 {
    dates.len() as u32
}

/// The entry of the table of counts for `subject`, if it has one in `log`.
pub open spec fn entry_of(log: Map<Subject, Seq<Seq<char>>>, subject: Subject) -> Option<
    ClassEntry,
> {
    if log.contains_key(subject) {
        Some(ClassEntry { subject, classes: count_of(log[subject]) })
    } else {
        None
    }
}

/// The entries of the table of counts for a log, in declaration order of the
/// subjects.
pub open spec fn entries_of(log: Map<Subject, Seq<Seq<char>>>) -> Seq<ClassEntry> {
    Subject::all().filter_map(|subject: Subject| entry_of(log, subject))
}

/// Appends the entries of the table of counts for `log` to `out`.
fn push_entries(out: &mut Vec<ClassEntry>, log: &DateLog)
    ensures
        final(out)@ == old(out)@ + entries_of(log@),
{
    let ghost entry = |subject: Subject| entry_of(log@, subject);
    let mut code: u8 = 0;
    while code < SUBJECT_COUNT
        invariant
            code <= SUBJECT_COUNT,
            entry == |subject: Subject| entry_of(log@, subject),
            out@ == old(out)@ + Subject::all().take(code as int).filter_map(entry),
        decreases SUBJECT_COUNT - code,
    {
        let subject = Subject::nth(code);
        match log.get(subject) {
            Some(dates) => {
                let classes: u32 = #[verifier::truncate]
                (dates.len() as u32);
                out.push(ClassEntry { subject, classes });
            },
            None => {},
        }
        proof {
            Subject::all().lemma_filter_map_take_succ(entry, code as int);
            assert(out@ =~= old(out)@ + Subject::all().take(code + 1).filter_map(entry));
        }
        code += 1;
    }
    assert(Subject::all().take(code as int) =~= Subject::all());
}

/// Whether `subject` is the one with the most dates in `log`: it has a date,
/// no subject has more dates, and none that is declared before it has as
/// many.
pub open spec fn is_most_marked(log: Map<Subject, Seq<Seq<char>>>, subject: Subject) -> bool {
    &&& dates_in(log, subject).len() > 0
    &&& forall|other: Subject|
        #[trigger] dates_in(log, other).len() <= dates_in(log, subject).len()
    &&& forall|other: Subject|
        other.spec_code() < subject.spec_code() ==> #[trigger] dates_in(log, other).len()
            < dates_in(log, subject).len()
}

/// Whether no subject has a date in `log`.
pub open spec fn is_unmarked(log: Map<Subject, Seq<Seq<char>>>) -> bool {
    forall|subject: Subject| #[trigger] dates_in(log, subject).len() == 0
}

/// At most one subject has the most dates.
pub proof fn lemma_most_marked_unique(log: Map<Subject, Seq<Seq<char>>>, a: Subject, b: Subject)
    requires
        is_most_marked(log, a),
        is_most_marked(log, b),
    ensures
        a == b,
{
    if a.spec_code() < b.spec_code() {
        assert(dates_in(log, a).len() < dates_in(log, b).len());
        assert(dates_in(log, b).len() <= dates_in(log, a).len());
    } else if b.spec_code() < a.spec_code() {
        assert(dates_in(log, b).len() < dates_in(log, a).len());
        assert(dates_in(log, a).len() <= dates_in(log, b).len());
    } else {
        Subject::lemma_code_injective(a, b);
    }
}

/// Where no subject has a date, none has the most dates.
pub proof fn lemma_unmarked_has_no_most_marked(log: Map<Subject, Seq<Seq<char>>>, subject: Subject)
    requires
        is_unmarked(log),
    ensures
        !is_most_marked(log, subject),
{
    assert(dates_in(log, subject).len() == 0);
}

impl Classes {
    /// A record without classes.
    pub fn new() -> (classes: Classes)
        ensures
            classes.classes@ == Map::<Subject, Seq<Seq<char>>>::empty(),
            classes.extras@ == Map::<Subject, Seq<Seq<char>>>::empty(),
    {
        Classes { classes: DateLog::new(), extras: DateLog::new() }
    }

    /// The listing of all classes: a heading and the regular classes of each
    /// subject, then a heading and the extra classes. A regular class is
    /// marked where `absents` holds its date among the regular absences of
    /// the subject, an extra class where it holds it among the extra ones.
    pub open spec fn spec_text(&self, absents: &Absents) -> Seq<char> {
        "\nSubject\t\tClasses\n"@ + section(self.classes@, absents.absents@)
            + "\nExtra Classes\n"@ + section(self.extras@, absents.extras@)
    }

    /// The listing of all classes, as it is shown to the user.
    pub fn to_string(&self, absents: &Absents) -> (text: String)
        ensures
            text@ == self.spec_text(absents),
    {
        let mut text = String::new();
        text.append("\nSubject\t\tClasses\n");
        push_section(&mut text, &self.classes, &absents.absents);
        text.append("\nExtra Classes\n");
        push_section(&mut text, &self.extras, &absents.extras);
        assert(text@ =~= self.spec_text(absents));
        text
    }

    /// The table of counts: a line for each subject with regular classes,
    /// then a heading and a line for each subject with extra classes.
    pub open spec fn spec_counts_text(&self) -> Seq<char> {
        count_lines(self.classes@) + "\nExtra Classes\n"@ + count_lines(self.extras@)
    }

    /// The table of counts, as it is shown to the user.
    pub fn counts_to_string(&self) -> (text: String)
        ensures
            text@ == self.spec_counts_text(),
    {
        let mut text = String::new();
        push_count_lines(&mut text, &self.classes);
        text.append("\nExtra Classes\n");
        push_count_lines(&mut text, &self.extras);
        assert(text@ =~= self.spec_counts_text());
        text
    }

    /// The entries of the table of counts as it is stored: those of the
    /// regular classes, then those of the extra classes.
    pub fn counts(&self) -> (entries: Vec<ClassEntry>)
        ensures
            entries@ == entries_of(self.classes@) + entries_of(self.extras@),
    {
        let mut entries: Vec<ClassEntry> = Vec::new();
        push_entries(&mut entries, &self.classes);
        push_entries(&mut entries, &self.extras);
        entries
    }

    /// The latest date of the subject with the most regular classes, or the
    /// empty text where no class was marked. Among subjects with equally many
    /// classes the one declared first counts.
    pub fn last_marked_date(&self) -> (date: Result<String, std::io::Error>)
        ensures
            date matches Ok(text) && {
                ||| exists|subject: Subject|
                    is_most_marked(self.classes@, subject) && text@ == self.classes@[subject].last()
                ||| is_unmarked(self.classes@) && text@ == Seq::<char>::empty()
            },
    {
        let mut last_day = String::new();
        let mut max_dates: usize = 0;
        let ghost mut best: Option<Subject> = None;
        let ghost log = self.classes@;
        let mut code: u8 = 0;
        while code < SUBJECT_COUNT
            invariant
                code <= SUBJECT_COUNT,
                log == self.classes@,
                forall|other: Subject|
                    other.spec_code() < code ==> #[trigger] dates_in(log, other).len() <= max_dates,
                match best {
                    Some(subject) => {
                        &&& subject.spec_code() < code
                        &&& max_dates > 0
                        &&& dates_in(log, subject).len() == max_dates
                        &&& last_day@ == log[subject].last()
                        &&& forall|other: Subject|
                            other.spec_code() < subject.spec_code() ==> #[trigger] dates_in(
                                log,
                                other,
                            ).len() < max_dates
                    },
                    None => max_dates == 0 && last_day@ == Seq::<char>::empty(),
                },
            decreases SUBJECT_COUNT - code,
        {
            let subject = Subject::nth(code);
            match self.classes.get(subject) {
                Some(dates) => {
                    if dates.len() > max_dates {
                        max_dates = dates.len();
                        last_day = dates[dates.len() - 1].clone();
                        proof {
                            best = Some(subject);
                        }
                    }
                },
                None => {},
            }
            proof {
                assert forall|other: Subject| other.spec_code() < code + 1 implies (
                #[trigger] dates_in(log, other).len()) <= max_dates by {
                    if other.spec_code() == code {
                        Subject::lemma_code_injective(other, subject);
                    }
                }
            }
            code += 1;
        }
        proof {
            match best {
                Some(subject) => {
                    assert(is_most_marked(log, subject));
                },
                None => {
                    assert(is_unmarked(log));
                },
            }
        }
        Ok(last_day)
    }
}

} // verus!
