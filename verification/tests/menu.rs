use class_counter::date::Date;
use class_counter::menu::{chosen_action, menu_options, Action, MENU_LEN};

fn options_of_a_friday() -> Vec<String> {
    menu_options(&Date::from_ymd(2024, 1, 5).unwrap())
}

#[test]
fn menu_has_eight_entries() {
    let options = options_of_a_friday();
    assert_eq!(MENU_LEN, 8);
    assert_eq!(
        options,
        vec![
            "1. Mark today's classes (Fri 05 Jan 2024)".to_string(),
            "2. Mark day's classes (Select Date)".to_string(),
            "3. Mark Absents (Select Date)".to_string(),
            "4. Check Class Counts".to_string(),
            "5. Check Classes".to_string(),
            "6. Check Absents".to_string(),
            "7. Save".to_string(),
            "8. Exit".to_string(),
        ]
    );
}

#[test]
fn menu_names_the_day_in_its_first_entry() {
    let options = menu_options(&Date::from_ymd(2023, 12, 31).unwrap());
    assert_eq!(options[0], "1. Mark today's classes (Sun 31 Dec 2023)");
    assert_eq!(options[7], "8. Exit");
}

#[test]
fn action_from_index_follows_the_menu() {
    assert_eq!(Action::from_index(0), Some(Action::MarkToday));
    assert_eq!(Action::from_index(1), Some(Action::MarkDay));
    assert_eq!(Action::from_index(2), Some(Action::MarkAbsents));
    assert_eq!(Action::from_index(3), Some(Action::ShowCounts));
    assert_eq!(Action::from_index(4), Some(Action::ShowClasses));
    assert_eq!(Action::from_index(5), Some(Action::ShowAbsents));
    assert_eq!(Action::from_index(6), Some(Action::Save));
    assert_eq!(Action::from_index(7), Some(Action::Exit));
    assert_eq!(Action::from_index(8), None);
    assert_eq!(Action::from_index(usize::MAX), None);
}

#[test]
fn each_entry_stands_for_its_action() {
    let options = options_of_a_friday();
    let actions = [
        Action::MarkToday,
        Action::MarkDay,
        Action::MarkAbsents,
        Action::ShowCounts,
        Action::ShowClasses,
        Action::ShowAbsents,
        Action::Save,
        Action::Exit,
    ];
    for (option, action) in options.iter().zip(actions.iter()) {
        assert_eq!(chosen_action(&options, option), Some(*action));
    }
}

#[test]
fn an_answer_that_is_no_entry_stands_for_nothing() {
    let options = options_of_a_friday();
    assert_eq!(chosen_action(&options, &"9. Sleep".to_string()), None);
    assert_eq!(chosen_action(&options, &"".to_string()), None);
    assert_eq!(chosen_action(&options, &"7. save".to_string()), None);
    assert_eq!(
        chosen_action(&options, &"1. Mark today's classes (Sat 06 Jan 2024)".to_string()),
        None
    );
}

#[test]
fn the_first_of_equal_entries_counts() {
    let options = vec!["a".to_string(), "b".to_string(), "a".to_string(), "b".to_string()];
    assert_eq!(chosen_action(&options, &"a".to_string()), Some(Action::MarkToday));
    assert_eq!(chosen_action(&options, &"b".to_string()), Some(Action::MarkDay));
    assert_eq!(chosen_action(&options, &"c".to_string()), None);
}

#[test]
fn entries_past_the_last_action_stand_for_nothing() {
    let mut options = options_of_a_friday();
    options.push("9. Sleep".to_string());
    assert_eq!(chosen_action(&options, &"9. Sleep".to_string()), None);
    assert_eq!(chosen_action(&options, &"8. Exit".to_string()), Some(Action::Exit));
}

#[test]
fn no_entries_no_action() {
    assert_eq!(chosen_action(&vec![], &"8. Exit".to_string()), None);
}

#[test]
fn menu_entries_are_pairwise_distinct() {
    let options = options_of_a_friday();
    for i in 0..options.len() {
        for j in 0..options.len() {
            assert_eq!(options[i] == options[j], i == j);
        }
    }
}
