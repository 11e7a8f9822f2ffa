//! The menu of the tracker: its entries, and which action an answer stands
//! for.

use crate::date::Date;
use crate::date::SHORT_PATTERN;
use crate::date::WEEKDAY_PATTERN;
use vstd::prelude::*;

verus! {

/// What the user can ask for, in the order of the menu.
#[derive(Debug, Clone, Copy, PartialEq, Eq, Structural)]
pub enum Action {
    MarkToday,
    MarkDay,
    MarkAbsents,
    ShowCounts,
    ShowClasses,
    ShowAbsents,
    Save,
    Exit,
}

/// How many entries the menu has.
pub const MENU_LEN: usize = 8;

impl Action {
    /// The position of the action in the menu, from 0.
    pub open spec fn spec_index(self) -> int {
        match self {
            Action::MarkToday => 0,
            Action::MarkDay => 1,
            Action::MarkAbsents => 2,
            Action::ShowCounts => 3,
            Action::ShowClasses => 4,
            Action::ShowAbsents => 5,
            Action::Save => 6,
            Action::Exit => 7,
        }
    }

    /// The action at position `index` of the menu, if there is one.
    pub fn from_index(index: usize) -> (action: Option<Action>)
        ensures
            action is Some <==> index < MENU_LEN,
            action matches Some(a) ==> a.spec_index() == index,
    {
        match index {
            0 => Some(Action::MarkToday),
            1 => Some(Action::MarkDay),
            2 => Some(Action::MarkAbsents),
            3 => Some(Action::ShowCounts),
            4 => Some(Action::ShowClasses),
            5 => Some(Action::ShowAbsents),
            6 => Some(Action::Save),
            7 => Some(Action::Exit),
            _ => None,
        }
    }
}

/// The entry of the menu that marks the classes of `today`: it names the
/// weekday and the date.
pub open spec fn today_entry(today: Date) -> Seq<char> {
    "1. Mark today's classes ("@ + today.spec_text(WEEKDAY_PATTERN@) + " "@ + today.spec_text(
        SHORT_PATTERN@,
    ) + ")"@
}

/// The entries of the menu on the day `today`.
pub open spec fn spec_menu_options(today: Date) -> Seq<Seq<char>> {
    seq![
        today_entry(today),
        "2. Mark day's classes (Select Date)"@,
        "3. Mark Absents (Select Date)"@,
        "4. Check Class Counts"@,
        "5. Check Classes"@,
        "6. Check Absents"@,
        "7. Save"@,
        "8. Exit"@,
    ]
}

/// No two entries of the menu are the same text, so that an answer stands
/// for one action.
pub proof fn lemma_menu_entries_differ(today: Date, i: int, j: int)
    requires
        0 <= i < j < MENU_LEN,
    ensures
        spec_menu_options(today)[i] != spec_menu_options(today)[j],
{
    reveal_strlit("1. Mark today's classes (");
    reveal_strlit("2. Mark day's classes (Select Date)");
    reveal_strlit("3. Mark Absents (Select Date)");
    reveal_strlit("4. Check Class Counts");
    reveal_strlit("5. Check Classes");
    reveal_strlit("6. Check Absents");
    reveal_strlit("7. Save");
    reveal_strlit("8. Exit");
    let options = spec_menu_options(today);
    assert(options[0][0] == '1');
    assert(options[1][0] == '2');
    assert(options[2][0] == '3');
    assert(options[3][0] == '4');
    assert(options[4][0] == '5');
    assert(options[5][0] == '6');
    assert(options[6][0] == '7');
    assert(options[7][0] == '8');
}

/// The entries of the menu on the day `today`, in the order of the actions.
pub fn menu_options(today: &Date) -> (options: Vec<String>)
    ensures
        options.deep_view() == spec_menu_options(*today),
{
    let mut first = String::from_str("1. Mark today's classes (");
    first.append(today.weekday_name().as_str());
    first.append(" ");
    first.append(today.short_label().as_str());
    first.append(")");
    let mut options: Vec<String> = Vec::new();
    options.push(first);
    options.push(String::from_str("2. Mark day's classes (Select Date)"));
    options.push(String::from_str("3. Mark Absents (Select Date)"));
    options.push(String::from_str("4. Check Class Counts"));
    options.push(String::from_str("5. Check Classes"));
    options.push(String::from_str("6. Check Absents"));
    options.push(String::from_str("7. Save"));
    options.push(String::from_str("8. Exit"));
    assert(options.deep_view() =~= spec_menu_options(*today));
    options
}

/// The action that `choice` stands for: that of the first entry of
/// `options` that equals it, among as many entries as there are actions.
pub fn chosen_action(options: &Vec<String>, choice: &String) -> (action: Option<Action>)
    ensures
        match action {
            Some(a) => {
                &&& a.spec_index() < options.len()
                &&& options[a.spec_index()]@ == choice@
                &&& forall|j: int| 0 <= j < a.spec_index() ==> options[j]@ != choice@
            },
            None => forall|j: int| 0 <= j < options.len() && j < MENU_LEN ==> options[j]@ != choice@,
        },
{
    let mut i: usize = 0;
    while i < options.len() && i < MENU_LEN
        invariant
            forall|j: int| 0 <= j < i ==> options[j]@ != choice@,
        decreases options.len() - i,
    {
        if options[i] == *choice {
            return Action::from_index(i);
        }
        i += 1;
    }
    None
}

} // verus!
