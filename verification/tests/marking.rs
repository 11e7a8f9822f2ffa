use class_counter::absents::Absents;
use class_counter::classes::Classes;
use class_counter::date::Date;
use class_counter::marking::{mark_absents, mark_classes};
use class_counter::timetable::Subject;

#[test]
fn mark_classes_appends_the_label_of_the_date() {
    let mut classes = Classes::new();
    let date = Date::from_ymd(2024, 1, 5).unwrap();
    mark_classes(&vec![Subject::OS, Subject::DAA], &mut classes, date);
    assert_eq!(classes.classes.get(Subject::OS), Some(&vec!["05 Jan 2024, Fri".to_string()]));
    assert_eq!(classes.classes.get(Subject::DAA), Some(&vec!["05 Jan 2024, Fri".to_string()]));
    assert_eq!(classes.classes.get(Subject::NM), None);
}

#[test]
fn mark_classes_leaves_the_extras_alone() {
    let mut classes = Classes::new();
    classes.extras.record(Subject::OS, "01 Jan 2024, Mon".to_string());
    mark_classes(&vec![Subject::OS], &mut classes, Date::from_ymd(2024, 1, 5).unwrap());
    assert_eq!(classes.extras.get(Subject::OS), Some(&vec!["01 Jan 2024, Mon".to_string()]));
    assert_eq!(classes.extras.get(Subject::DAA), None);
}

#[test]
fn mark_classes_on_several_days_keeps_the_order() {
    let mut classes = Classes::new();
    mark_classes(&vec![Subject::SE], &mut classes, Date::from_ymd(2024, 1, 8).unwrap());
    mark_classes(&vec![Subject::SE, Subject::SC], &mut classes, Date::from_ymd(2024, 1, 5).unwrap());
    assert_eq!(
        classes.classes.get(Subject::SE),
        Some(&vec!["08 Jan 2024, Mon".to_string(), "05 Jan 2024, Fri".to_string()])
    );
    assert_eq!(classes.classes.get(Subject::SC), Some(&vec!["05 Jan 2024, Fri".to_string()]));
}

#[test]
fn mark_classes_counts_a_subject_listed_twice_twice() {
    let mut classes = Classes::new();
    mark_classes(
        &vec![Subject::DMW, Subject::DMWLAB, Subject::DMW],
        &mut classes,
        Date::from_ymd(2024, 2, 29).unwrap(),
    );
    assert_eq!(
        classes.classes.get(Subject::DMW),
        Some(&vec!["29 Feb 2024, Thu".to_string(), "29 Feb 2024, Thu".to_string()])
    );
    assert_eq!(classes.classes.get(Subject::DMWLAB), Some(&vec!["29 Feb 2024, Thu".to_string()]));
}

#[test]
fn mark_classes_with_no_subjects_changes_nothing() {
    let mut classes = Classes::new();
    classes.classes.record(Subject::NM, "01 Jan 2024, Mon".to_string());
    mark_classes(&vec![], &mut classes, Date::from_ymd(2024, 1, 5).unwrap());
    assert_eq!(classes.classes.get(Subject::NM), Some(&vec!["01 Jan 2024, Mon".to_string()]));
    assert_eq!(classes.classes.get(Subject::OS), None);
}

#[test]
fn mark_absents_appends_the_label_of_the_date() {
    let mut absents = Absents::new();
    absents.absents.record(Subject::FLAT, "01 Jan 2024, Mon".to_string());
    mark_absents(&vec![Subject::FLAT, Subject::SP], &mut absents, Date::from_ymd(2023, 12, 31).unwrap());
    assert_eq!(
        absents.absents.get(Subject::FLAT),
        Some(&vec!["01 Jan 2024, Mon".to_string(), "31 Dec 2023, Sun".to_string()])
    );
    assert_eq!(absents.absents.get(Subject::SP), Some(&vec!["31 Dec 2023, Sun".to_string()]));
}

#[test]
fn mark_absents_leaves_the_extras_alone() {
    let mut absents = Absents::new();
    absents.extras.record(Subject::SP, "01 Jan 2024, Mon".to_string());
    mark_absents(&vec![Subject::SP], &mut absents, Date::from_ymd(2024, 1, 5).unwrap());
    assert_eq!(absents.extras.get(Subject::SP), Some(&vec!["01 Jan 2024, Mon".to_string()]));
    assert_eq!(absents.absents.get(Subject::SP), Some(&vec!["05 Jan 2024, Fri".to_string()]));
}

#[test]
fn mark_classes_adds_one_date_for_each_occurrence() {
    let mut classes = Classes::new();
    classes.classes.insert(Subject::OT, vec!["01 Jan 2024, Mon".to_string()]);
    let subjects = vec![Subject::OT, Subject::SP, Subject::OT, Subject::OT];
    mark_classes(&subjects, &mut classes, Date::from_ymd(2024, 3, 1).unwrap());
    assert_eq!(
        classes.classes.get(Subject::OT),
        Some(&vec![
            "01 Jan 2024, Mon".to_string(),
            "01 Mar 2024, Fri".to_string(),
            "01 Mar 2024, Fri".to_string(),
            "01 Mar 2024, Fri".to_string(),
        ])
    );
    assert_eq!(classes.classes.get(Subject::SP), Some(&vec!["01 Mar 2024, Fri".to_string()]));
    assert_eq!(classes.classes.get(Subject::SE), None);
}
