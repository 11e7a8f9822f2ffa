//! Marking the classes held, or missed, on one day.

use crate::absents::Absents;
use crate::classes::Classes;
use crate::date::Date;
use crate::date::FULL_PATTERN;
use crate::datelog::dates_in;
use crate::datelog::DateLog;
use crate::timetable::Subject;
use vstd::prelude::*;

verus! {

/// The log after `label` is appended to the dates of each of `subjects`, one
/// after the other; a subject without an entry gets one.
pub open spec fn marked(
    log: Map<Subject, Seq<Seq<char>>>,
    subjects: Seq<Subject>,
    label: Seq<char>,
) -> Map<Subject, Seq<Seq<char>>>
    decreases subjects.len(),
{
    if subjects.len() == 0 {
        log
    } else {
        let earlier = marked(log, subjects.drop_last(), label);
        earlier.insert(subjects.last(), dates_in(earlier, subjects.last()).push(label))
    }
}

/// How often `subject` occurs in `subjects`.
pub open spec fn occurrences(subjects: Seq<Subject>, subject: Subject) -> nat {
    subjects.filter(|other: Subject| other == subject).len()
}

/// Marking gives each subject as many more dates as it occurs in the list,
/// each of them the label, behind the dates it had; and a subject has an
/// entry afterwards if it had one or is in the list.
pub proof fn lemma_marked(
    log: Map<Subject, Seq<Seq<char>>>,
    subjects: Seq<Subject>,
    label: Seq<char>,
    subject: Subject,
)
    ensures
        dates_in(marked(log, subjects, label), subject) == dates_in(log, subject) + Seq::new(
            occurrences(subjects, subject),
            |i: int| label,
        ),
        marked(log, subjects, label).contains_key(subject) <==> log.contains_key(subject)
            || subjects.contains(subject),
    decreases subjects.len(),
{
    reveal(Seq::filter);
    let same = |other: Subject| other == subject;
    if subjects.len() == 0 {
        assert(dates_in(log, subject) =~= dates_in(log, subject) + Seq::new(
            occurrences(subjects, subject),
            |i: int| label,
        ));
    } else {
        lemma_marked(log, subjects.drop_last(), label, subject);
        let before: nat = occurrences(subjects.drop_last(), subject);
        if subjects.last() == subject {
            assert(subjects.filter(same) == subjects.drop_last().filter(same).push(subject));
            assert(dates_in(marked(log, subjects, label), subject) =~= dates_in(log, subject)
                + Seq::new(before + 1, |i: int| label));
        } else {
            assert(subjects.filter(same) == subjects.drop_last().filter(same));
        }
        assert(subjects.contains(subject) <==> subjects.drop_last().contains(subject)
            || subjects.last() == subject) by {
            if subjects.contains(subject) {
                let i: int = choose|i: int| 0 <= i < subjects.len() && subjects[i] == subject;
                if i < subjects.len() - 1 {
                    assert(subjects.drop_last()[i] == subject);
                }
            }
            if subjects.drop_last().contains(subject) {
                let i: int = choose|i: int|
                    0 <= i < subjects.drop_last().len() && subjects.drop_last()[i] == subject;
                assert(subjects[i] == subject);
            }
            if subjects.last() == subject {
                assert(subjects[subjects.len() - 1] == subject);
            }
        }
    }
}

/// Appends `label` to the dates of each of `subjects` in `log`.
fn mark_all(log: &mut DateLog, subjects: &Vec<Subject>, label: &String)
    ensures
        final(log)@ == marked(old(log)@, subjects@, label@),
{
    let mut i: usize = 0;
    while i < subjects.len()
        invariant
            i <= subjects.len(),
            log@ == marked(old(log)@, subjects@.take(i as int), label@),
        decreases subjects.len() - i,
    {
        log.record(subjects[i], label.clone());
        proof {
            assert(subjects@.take(i + 1).drop_last() =~= subjects@.take(i as int));
        }
        i += 1;
    }
    assert(subjects@.take(i as int) =~= subjects@);
}

/// Marks a class held on `date` for each of `subjects`: the text of the date
/// is appended to the regular classes of the subject.
pub fn mark_classes(subjects: &Vec<Subject>, classes: &mut Classes, date: Date)
    ensures
        final(classes).classes@ == marked(
            old(classes).classes@,
            subjects@,
            date.spec_text(FULL_PATTERN@),
        ),
        final(classes).extras@ == old(classes).extras@,
{
    let label = date.label();
    mark_all(&mut classes.classes, subjects, &label);
}

/// Marks a class missed on `on` for each of `subjects`: the text of the date
/// is appended to the regular absences of the subject.
pub fn mark_absents(subjects: &Vec<Subject>, absents: &mut Absents, on: Date)
    ensures
        final(absents).absents@ == marked(
            old(absents).absents@,
            subjects@,
            on.spec_text(FULL_PATTERN@),
        ),
        final(absents).extras@ == old(absents).extras@,
{
    let label = on.label();
    mark_all(&mut absents.absents, subjects, &label);
}

} // verus!
