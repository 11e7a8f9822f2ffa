//! The running count of classes attended, subject by subject, as it is kept
//! in a flat table.

use crate::text::decimal;
use crate::text::push_decimal;
use crate::timetable::Subject;
use vstd::prelude::*;

verus! {

/// One row of the table: a subject and the number of its classes attended.
#[derive(Debug, Clone, Copy)]
pub struct AttendanceEntry {
    pub subject: Subject,
    pub classes: u32,
}

/// The rows of the table, each beside its subject, in the order of the table.
#[derive(Debug)]
pub struct Attendance {
    pub subjects: Vec<(Subject, AttendanceEntry)>,
}

/// Whether `c` is a blank of ASCII: a space, a tab, a line feed, a form feed
/// or a carriage return.
pub open spec fn is_ascii_blank(c: char) -> bool {
    c == ' ' || c == '\t' || c == '\n' || c == '\x0C' || c == '\r'
}

/// Whether `text` holds nothing but blanks of ASCII.
pub open spec fn is_blank_text(text: Seq<char>) -> bool {
    forall|i: int| 0 <= i < text.len() ==> is_ascii_blank(#[trigger] text[i])
}

/// The line of the listing for one row: the subject beside it, two tabs, the
/// count, a line break.
pub open spec fn row_line(row: (Subject, AttendanceEntry)) -> Seq<char> {
    row.0.spec_name() + "\t\t"@ + decimal(row.1.classes as nat) + "\n"@
}

impl Attendance {
    /// Whether the text of a table holds no row and no heading at all.
    pub fn is_blank(text: &str) -> (blank: bool)
        ensures
            blank == is_blank_text(text@),
    {
        for c in it: text.chars()
            invariant
                it.seq() == text@,
                forall|j: int| 0 <= j < it.index() ==> is_ascii_blank(#[trigger] text@[j]),
        {
            if !(c == ' ' || c == '\t' || c == '\n' || c == '\x0C' || c == '\r') {
                return false;
            }
        }
        true
    }

    /// The table with the given rows, each put beside its subject.
    pub fn new(entries: Vec<AttendanceEntry>) -> (attendance: Attendance)
        ensures
            attendance.subjects@ == entries@.map_values(
                |entry: AttendanceEntry| (entry.subject, entry),
            ),
    {
        let mut subjects: Vec<(Subject, AttendanceEntry)> = Vec::new();
        let mut i: usize = 0;
        while i < entries.len()
            invariant
                i <= entries.len(),
                subjects@ == entries@.take(i as int).map_values(
                    |entry: AttendanceEntry| (entry.subject, entry),
                ),
            decreases entries.len() - i,
        {
            let entry = entries[i];
            subjects.push((entry.subject, entry));
            assert(subjects@ =~= entries@.take(i + 1).map_values(
                |entry: AttendanceEntry| (entry.subject, entry),
            ));
            i += 1;
        }
        assert(entries@.take(i as int) =~= entries@);
        Attendance { subjects }
    }

    /// The listing of the table: a heading and a line for each row.
    pub open spec fn spec_text(&self) -> Seq<char> {
        "\nSubject\t\tClasses\n"@ + self.subjects@.flat_map(
            |row: (Subject, AttendanceEntry)| row_line(row),
        )
    }

    /// The listing of the table, as it is shown to the user.
    pub fn to_string(&self) -> (text: String)
        ensures
            text@ == self.spec_text(),
    {
        let ghost line = |row: (Subject, AttendanceEntry)| row_line(row);
        let mut text = String::new();
        text.append("\nSubject\t\tClasses\n");
        let mut i: usize = 0;
        while i < self.subjects.len()
            invariant
                i <= self.subjects.len(),
                line == |row: (Subject, AttendanceEntry)| row_line(row),
                text@ == "\nSubject\t\tClasses\n"@ + self.subjects@.take(i as int).flat_map(line),
            decreases self.subjects.len() - i,
        {
            let ghost before = text@;
            let row = &self.subjects[i];
            text.append(row.0.name());
            text.append("\t\t");
            push_decimal(&mut text, row.1.classes as u64);
            text.append("\n");
            proof {
                assert(text@ =~= before + line(*row));
                self.subjects@.lemma_flat_map_take_append(line, i as int);
            }
            i += 1;
        }
        assert(self.subjects@.take(i as int) =~= self.subjects@);
        text
    }
}

} // verus!
