use class_counter::datelog::DateLog;
use class_counter::timetable::Subject;

#[test]
fn new_log_has_no_entries() {
    let log = DateLog::new();
    assert_eq!(log.get(Subject::NM), None);
    assert_eq!(log.get(Subject::SC), None);
    assert!(!log.contains(Subject::NM, &"05 Jan 2024, Fri".to_string()));
}

#[test]
fn record_creates_an_entry() {
    let mut log = DateLog::new();
    log.record(Subject::OS, "05 Jan 2024, Fri".to_string());
    assert_eq!(log.get(Subject::OS), Some(&vec!["05 Jan 2024, Fri".to_string()]));
    assert_eq!(log.get(Subject::NM), None);
}

#[test]
fn record_appends_in_order() {
    let mut log = DateLog::new();
    log.record(Subject::OS, "05 Jan 2024, Fri".to_string());
    log.record(Subject::DAA, "05 Jan 2024, Fri".to_string());
    log.record(Subject::OS, "08 Jan 2024, Mon".to_string());
    log.record(Subject::OS, "05 Jan 2024, Fri".to_string());
    assert_eq!(
        log.get(Subject::OS),
        Some(&vec![
            "05 Jan 2024, Fri".to_string(),
            "08 Jan 2024, Mon".to_string(),
            "05 Jan 2024, Fri".to_string(),
        ])
    );
    assert_eq!(log.get(Subject::DAA), Some(&vec!["05 Jan 2024, Fri".to_string()]));
}

#[test]
fn insert_replaces_an_entry() {
    let mut log = DateLog::new();
    log.record(Subject::SE, "01 Feb 2024, Thu".to_string());
    log.insert(Subject::SE, vec!["02 Feb 2024, Fri".to_string(), "05 Feb 2024, Mon".to_string()]);
    assert_eq!(
        log.get(Subject::SE),
        Some(&vec!["02 Feb 2024, Fri".to_string(), "05 Feb 2024, Mon".to_string()])
    );
}

#[test]
fn insert_of_an_empty_list_keeps_an_entry() {
    let mut log = DateLog::new();
    log.insert(Subject::SP, vec![]);
    assert_eq!(log.get(Subject::SP), Some(&vec![]));
    assert_eq!(log.get(Subject::OT), None);
}

#[test]
fn entries_of_different_subjects_do_not_mix() {
    let mut log = DateLog::new();
    log.insert(Subject::DMW, vec!["a".to_string()]);
    log.insert(Subject::DMWLAB, vec!["b".to_string()]);
    log.record(Subject::DMW, "c".to_string());
    assert_eq!(log.get(Subject::DMW), Some(&vec!["a".to_string(), "c".to_string()]));
    assert_eq!(log.get(Subject::DMWLAB), Some(&vec!["b".to_string()]));
}

#[test]
fn contains_finds_recorded_dates_only() {
    let mut log = DateLog::new();
    log.record(Subject::FLAT, "05 Jan 2024, Fri".to_string());
    log.record(Subject::FLAT, "08 Jan 2024, Mon".to_string());
    assert!(log.contains(Subject::FLAT, &"05 Jan 2024, Fri".to_string()));
    assert!(log.contains(Subject::FLAT, &"08 Jan 2024, Mon".to_string()));
    assert!(!log.contains(Subject::FLAT, &"09 Jan 2024, Tue".to_string()));
    assert!(!log.contains(Subject::SC, &"05 Jan 2024, Fri".to_string()));
}
