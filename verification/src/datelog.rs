//! A log of dates per subject: for each subject that has an entry, the dates
//! recorded for it, oldest first.

use crate::timetable::Subject;
use std::collections::HashMap;
use vstd::prelude::*;

verus! {

/// The text of each date of a list, in order.
pub open spec fn texts(dates: Seq<String>) -> Seq<Seq<char>> {
    dates.map_values(|date: String| date@)
}

/// Appending a date to a list appends its text to the texts of the list.
pub proof fn lemma_texts_push(dates: Seq<String>, date: String)
    ensures
        texts(dates.push(date)) == texts(dates).push(date@),
{
    assert(texts(dates.push(date)) =~= texts(dates).push(date@));
}

/// The dates recorded for `subject` in `log`; none where it has no entry.
pub open spec fn dates_in(log: Map<Subject, Seq<Seq<char>>>, subject: Subject) -> Seq<Seq<char>> {
    if log.contains_key(subject) {
        log[subject]
    } else {
        Seq::empty()
    }
}

/// No other subject has the code of `subject`.
proof fn lemma_codes_differ(subject: Subject)
    ensures
        forall|other: Subject|
            other != subject ==> #[trigger] other.spec_code() != subject.spec_code(),
{
    assert forall|other: Subject| other != subject implies #[trigger] other.spec_code()
        != subject.spec_code() by {
        if other.spec_code() == subject.spec_code() {
            Subject::lemma_code_injective(other, subject);
        }
    }
}

/// The dates recorded for each subject, keyed by the subject's code.
#[derive(Debug)]
pub struct DateLog {
    entries: HashMap<u8, Vec<String>>,
}

impl View for DateLog {
    type V = Map<Subject, Seq<Seq<char>>>;

    closed spec fn view(&self) -> Map<Subject, Seq<Seq<char>>> {
        Map::new(
            |subject: Subject| self.entries@.contains_key(subject.spec_code()),
            |subject: Subject| texts(self.entries@[subject.spec_code()]@),
        )
    }
}

impl DateLog {
    /// The dates recorded for `subject`; none where it has no entry.
    pub open spec fn dates_of(&self, subject: Subject) -> Seq<Seq<char>> {
        dates_in(self@, subject)
    }

    /// A log without entries.
    pub fn new() -> (log: DateLog)
        ensures
            log@ == Map::<Subject, Seq<Seq<char>>>::empty(),
    {
        let log = DateLog { entries: HashMap::new() };
        assert(log@ =~= Map::<Subject, Seq<Seq<char>>>::empty());
        log
    }

    /// The dates recorded for `subject`, if it has an entry.
    pub fn get(&self, subject: Subject) -> (dates: Option<&Vec<String>>)
        ensures
            match dates {
                Some(list) => self@.contains_key(subject) && self@[subject] == texts(list@),
                None => !self@.contains_key(subject),
            },
    {
        let code: u8 = subject.code();
        self.entries.get(&code)
    }

    /// Gives `subject` the entry `dates`, in place of the entry it had, if
    /// any.
    pub fn insert(&mut self, subject: Subject, dates: Vec<String>)
        ensures
            final(self)@ == old(self)@.insert(subject, texts(dates@)),
    {
        let code: u8 = subject.code();
        self.entries.insert(code, dates);
        proof {
            lemma_codes_differ(subject);
            assert(self@ =~= old(self)@.insert(subject, texts(dates@)));
        }
    }

    /// Whether `date` is among the dates recorded for `subject`.
    pub fn contains(&self, subject: Subject, date: &String) -> (found: bool)
        ensures
            found == self.dates_of(subject).contains(date@),
    {
        match self.get(subject) {
            Some(dates) => {
                let mut i: usize = 0;
                while i < dates.len()
                    invariant
                        i <= dates.len(),
                        self@.contains_key(subject),
                        self@[subject] == texts(dates@),
                        forall|j: int| 0 <= j < i ==> texts(dates@)[j] != date@,
                    decreases dates.len() - i,
                {
                    if dates[i] == *date {
                        assert(texts(dates@)[i as int] == date@);
                        return true;
                    }
                    i += 1;
                }
                false
            },
            None => false,
        }
    }

    /// Appends `date` to the dates of `subject`, giving it an entry if it had
    /// none.
    pub fn record(&mut self, subject: Subject, date: String)
        ensures
            final(self)@ == old(self)@.insert(subject, old(self).dates_of(subject).push(date@)),
    {
        let code: u8 = subject.code();
        let dates = self.entries.entry(code).or_insert(Vec::new());
        let ghost held = dates@;
        dates.push(date);
        proof {
            lemma_texts_push(held, date);
            lemma_codes_differ(subject);
            assert(texts(held) =~= old(self).dates_of(subject));
            assert(self@ =~= old(self)@.insert(
                subject,
                old(self).dates_of(subject).push(date@),
            ));
        }
    }
}

} // verus!
