//! The classes that were missed: per subject, the dates of the absences, and
//! apart from them the absences from extra classes.

use crate::datelog::texts;
use crate::datelog::DateLog;
use crate::text::decimal;
use crate::text::push_decimal;
use crate::timetable::Subject;
use crate::timetable::SUBJECT_COUNT;
use vstd::prelude::*;

verus! {

/// The absences from the regular classes and from the extra classes.
#[derive(Debug)]
pub struct Absents {
    pub absents: DateLog,
    pub extras: DateLog,
}

/// The line of the listing for one date: two tabs, the date, a line break.
pub open spec fn date_line(date: Seq<char>) -> Seq<char> {
    "\t\t"@ + date + "\n"@
}

/// The listing of one subject: its name, a line for each date, the total and
/// an empty line; nothing for a subject without an entry.
pub open spec fn subject_block(log: Map<Subject, Seq<Seq<char>>>, subject: Subject) -> Seq<char> {
    if log.contains_key(subject) {
        subject.spec_name() + log[subject].flat_map(|date: Seq<char>| date_line(date)) + "Total "@
            + decimal(log[subject].len()) + " absents\n"@ + "\n"@
    } else {
        Seq::empty()
    }
}

/// The listings of all subjects of a log, in declaration order.
pub open spec fn section(log: Map<Subject, Seq<Seq<char>>>) -> Seq<char> {
    Subject::all().flat_map(|subject: Subject| subject_block(log, subject))
}

/// Appends a line for each date of `dates` to `out`.
fn push_date_lines(out: &mut String, dates: &Vec<String>)
    ensures
        final(out)@ == old(out)@ + texts(dates@).flat_map(|date: Seq<char>| date_line(date)),
{
    let ghost line = |date: Seq<char>| date_line(date);
    let mut i: usize = 0;
    while i < dates.len()
        invariant
            i <= dates.len(),
            line == |date: Seq<char>| date_line(date),
            out@ == old(out)@ + texts(dates@).take(i as int).flat_map(line),
        decreases dates.len() - i,
    {
        out.append("\t\t");
        out.append(dates[i].as_str());
        out.append("\n");
        proof {
            texts(dates@).lemma_flat_map_take_append(line, i as int);
        }
        i += 1;
    }
    assert(texts(dates@).take(i as int) =~= texts(dates@));
}

/// Appends the listing of `subject` in `log` to `out`.
fn push_subject_block(out: &mut String, log: &DateLog, subject: Subject)
    ensures
        final(out)@ == old(out)@ + subject_block(log@, subject),
{
    match log.get(subject) {
        Some(dates) => {
            out.append(subject.name());
            push_date_lines(out, dates);
            out.append("Total ");
            push_decimal(out, dates.len() as u64);
            out.append(" absents\n");
            out.append("\n");
        },
        None => {},
    }
    assert(out@ =~= old(out)@ + subject_block(log@, subject));
}

/// Appends the listings of all subjects of `log` to `out`.
fn push_section(out: &mut String, log: &DateLog)
    ensures
        final(out)@ == old(out)@ + section(log@),
{
    let ghost block = |subject: Subject| subject_block(log@, subject);
    let mut code: u8 = 0;
    while code < SUBJECT_COUNT
        invariant
            code <= SUBJECT_COUNT,
            block == |subject: Subject| subject_block(log@, subject),
            out@ == old(out)@ + Subject::all().take(code as int).flat_map(block),
        decreases SUBJECT_COUNT - code,
    {
        push_subject_block(out, log, Subject::nth(code));
        proof {
            Subject::all().lemma_flat_map_take_append(block, code as int);
        }
        code += 1;
    }
    assert(Subject::all().take(code as int) =~= Subject::all());
}

impl Absents {
    /// A record without absences.
    pub fn new() -> (absents: Absents)
        ensures
            absents.absents@ == Map::<Subject, Seq<Seq<char>>>::empty(),
            absents.extras@ == Map::<Subject, Seq<Seq<char>>>::empty(),
    {
        Absents { absents: DateLog::new(), extras: DateLog::new() }
    }

    /// The listing of all absences: a heading and the regular absences of
    /// each subject, then a heading and those from extra classes.
    pub open spec fn spec_text(&self) -> Seq<char> {
        "\nSubject\t\tAbsents\n"@ + section(self.absents@) + "\nExtra Absents\n"@ + section(
            self.extras@,
        )
    }

    /// The listing of all absences, as it is shown to the user.
    pub fn to_string(&self) -> (text: String)
        ensures
            text@ == self.spec_text(),
    {
        let mut text = String::new();
        text.append("\nSubject\t\tAbsents\n");
        push_section(&mut text, &self.absents);
        text.append("\nExtra Absents\n");
        push_section(&mut text, &self.extras);
        assert(text@ =~= self.spec_text());
        text
    }
}

} // verus!
