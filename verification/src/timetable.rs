//! The subjects of a term and the weekly timetable that assigns them to days.

use chrono::Weekday;
use vstd::prelude::*;

verus! {

/// The days of the week. Verus reads the seven days from the definition of
/// the type in `chrono`; nothing is assumed of it.
#[verifier::external_type_specification]
pub struct ExWeekday(Weekday);

/// A course or lab of the term.
#[derive(Debug, Clone, Copy, PartialEq, Eq, Hash, Structural)]
pub enum Subject {
    NM,
    DBMS,
    DAA,
    OS,
    UHV,
    NSSPT,
    DBMSLAB,
    NMLAB,
    SHELL,
    DCCN,
    BITW,
    DCCNLAB,
    SP,
    OT,
    SE,
    SELAB,
    FLAT,
    DMW,
    DMWLAB,
    SC,
}

/// How many subjects there are.
pub const SUBJECT_COUNT: u8 = 20;

impl Subject {
    /// The position of the subject in the declaration order, from 0.
    pub open spec fn spec_code(self) -> u8 {
        match self {
            Subject::NM => 0,
            Subject::DBMS => 1,
            Subject::DAA => 2,
            Subject::OS => 3,
            Subject::UHV => 4,
            Subject::NSSPT => 5,
            Subject::DBMSLAB => 6,
            Subject::NMLAB => 7,
            Subject::SHELL => 8,
            Subject::DCCN => 9,
            Subject::BITW => 10,
            Subject::DCCNLAB => 11,
            Subject::SP => 12,
            Subject::OT => 13,
            Subject::SE => 14,
            Subject::SELAB => 15,
            Subject::FLAT => 16,
            Subject::DMW => 17,
            Subject::DMWLAB => 18,
            Subject::SC => 19,
        }
    }

    /// Every subject, in declaration order.
    pub open spec fn all() -> Seq<Subject> {
        seq![
            Subject::NM,
            Subject::DBMS,
            Subject::DAA,
            Subject::OS,
            Subject::UHV,
            Subject::NSSPT,
            Subject::DBMSLAB,
            Subject::NMLAB,
            Subject::SHELL,
            Subject::DCCN,
            Subject::BITW,
            Subject::DCCNLAB,
            Subject::SP,
            Subject::OT,
            Subject::SE,
            Subject::SELAB,
            Subject::FLAT,
            Subject::DMW,
            Subject::DMWLAB,
            Subject::SC,
        ]
    }

    /// The subject at position `code` of the declaration order.
    pub open spec fn spec_from_code(code: int) -> Option<Subject> {
        if 0 <= code < SUBJECT_COUNT {
            Some(Subject::all()[code])
        } else {
            None
        }
    }

    /// The upper-case name under which the subject is shown and stored.
    pub open spec fn spec_name(self) -> Seq<char> {
        match self {
            Subject::NM => "NM"@,
            Subject::DBMS => "DBMS"@,
            Subject::DAA => "DAA"@,
            Subject::OS => "OS"@,
            Subject::UHV => "UHV"@,
            Subject::NSSPT => "NSSPT"@,
            Subject::DBMSLAB => "DBMSLAB"@,
            Subject::NMLAB => "NMLAB"@,
            Subject::SHELL => "SHELL"@,
            Subject::DCCN => "DCCN"@,
            Subject::BITW => "BITW"@,
            Subject::DCCNLAB => "DCCNLAB"@,
            Subject::SP => "SP"@,
            Subject::OT => "OT"@,
            Subject::SE => "SE"@,
            Subject::SELAB => "SELAB"@,
            Subject::FLAT => "FLAT"@,
            Subject::DMW => "DMW"@,
            Subject::DMWLAB => "DMWLAB"@,
            Subject::SC => "SC"@,
        }
    }

    /// The position of the subject in the declaration order, from 0.
    pub fn code(self) -> (code: u8)
        ensures
            code == self.spec_code(),
            code < SUBJECT_COUNT,
            Subject::spec_from_code(code as int) == Some(self),
    {
        match self {
            Subject::NM => 0,
            Subject::DBMS => 1,
            Subject::DAA => 2,
            Subject::OS => 3,
            Subject::UHV => 4,
            Subject::NSSPT => 5,
            Subject::DBMSLAB => 6,
            Subject::NMLAB => 7,
            Subject::SHELL => 8,
            Subject::DCCN => 9,
            Subject::BITW => 10,
            Subject::DCCNLAB => 11,
            Subject::SP => 12,
            Subject::OT => 13,
            Subject::SE => 14,
            Subject::SELAB => 15,
            Subject::FLAT => 16,
            Subject::DMW => 17,
            Subject::DMWLAB => 18,
            Subject::SC => 19,
        }
    }

    /// The subject at position `code`, if there is one.
    pub fn from_code(code: u8) -> (subject: Option<Subject>)
        ensures
            subject == Subject::spec_from_code(code as int),
            subject is Some <==> code < SUBJECT_COUNT,
            subject matches Some(s) ==> s.spec_code() == code,
    {
        match code {
            0 => Some(Subject::NM),
            1 => Some(Subject::DBMS),
            2 => Some(Subject::DAA),
            3 => Some(Subject::OS),
            4 => Some(Subject::UHV),
            5 => Some(Subject::NSSPT),
            6 => Some(Subject::DBMSLAB),
            7 => Some(Subject::NMLAB),
            8 => Some(Subject::SHELL),
            9 => Some(Subject::DCCN),
            10 => Some(Subject::BITW),
            11 => Some(Subject::DCCNLAB),
            12 => Some(Subject::SP),
            13 => Some(Subject::OT),
            14 => Some(Subject::SE),
            15 => Some(Subject::SELAB),
            16 => Some(Subject::FLAT),
            17 => Some(Subject::DMW),
            18 => Some(Subject::DMWLAB),
            19 => Some(Subject::SC),
            _ => None,
        }
    }

    /// The subject at position `code`.
    pub(crate) fn nth(code: u8) -> (subject: Subject)
        requires
            code < SUBJECT_COUNT,
        ensures
            subject == Subject::all()[code as int],
            subject.spec_code() == code,
    {
        match Subject::from_code(code) {
            Some(subject) => subject,
            None => vstd::pervasive::unreached(),
        }
    }

    /// Two subjects with the same code are the same subject.
    pub proof fn lemma_code_injective(a: Subject, b: Subject)
        requires
            a.spec_code() == b.spec_code(),
        ensures
            a == b,
    {
        assert(Subject::spec_from_code(a.spec_code() as int) == Some(a));
        assert(Subject::spec_from_code(b.spec_code() as int) == Some(b));
    }

    /// Two subjects with the same name are the same subject.
    pub proof fn lemma_name_injective(a: Subject, b: Subject)
        requires
            a.spec_name() == b.spec_name(),
        ensures
            a == b,
    {
        reveal_strlit("NM");
        reveal_strlit("DBMS");
        reveal_strlit("DAA");
        reveal_strlit("OS");
        reveal_strlit("UHV");
        reveal_strlit("NSSPT");
        reveal_strlit("DBMSLAB");
        reveal_strlit("NMLAB");
        reveal_strlit("SHELL");
        reveal_strlit("DCCN");
        reveal_strlit("BITW");
        reveal_strlit("DCCNLAB");
        reveal_strlit("SP");
        reveal_strlit("OT");
        reveal_strlit("SE");
        reveal_strlit("SELAB");
        reveal_strlit("FLAT");
        reveal_strlit("DMW");
        reveal_strlit("DMWLAB");
        reveal_strlit("SC");
        // The length of a name and its second letter tell it from all the others.
        assert("NM"@.len() == 2 && "NM"@[1] == 'M');
        assert("DBMS"@.len() == 4 && "DBMS"@[1] == 'B');
        assert("DAA"@.len() == 3 && "DAA"@[1] == 'A');
        assert("OS"@.len() == 2 && "OS"@[1] == 'S');
        assert("UHV"@.len() == 3 && "UHV"@[1] == 'H');
        assert("NSSPT"@.len() == 5 && "NSSPT"@[1] == 'S');
        assert("DBMSLAB"@.len() == 7 && "DBMSLAB"@[1] == 'B');
        assert("NMLAB"@.len() == 5 && "NMLAB"@[1] == 'M');
        assert("SHELL"@.len() == 5 && "SHELL"@[1] == 'H');
        assert("DCCN"@.len() == 4 && "DCCN"@[1] == 'C');
        assert("BITW"@.len() == 4 && "BITW"@[1] == 'I');
        assert("DCCNLAB"@.len() == 7 && "DCCNLAB"@[1] == 'C');
        assert("SP"@.len() == 2 && "SP"@[1] == 'P');
        assert("OT"@.len() == 2 && "OT"@[1] == 'T');
        assert("SE"@.len() == 2 && "SE"@[1] == 'E');
        assert("SELAB"@.len() == 5 && "SELAB"@[1] == 'E');
        assert("FLAT"@.len() == 4 && "FLAT"@[1] == 'L');
        assert("DMW"@.len() == 3 && "DMW"@[1] == 'M');
        assert("DMWLAB"@.len() == 6 && "DMWLAB"@[1] == 'M');
        assert("SC"@.len() == 2 && "SC"@[1] == 'C');
    }

    /// The upper-case name of the subject.
    pub fn name(self) -> (name: &'static str)
        ensures
            name@ == self.spec_name(),
    {
        match self {
            Subject::NM => "NM",
            Subject::DBMS => "DBMS",
            Subject::DAA => "DAA",
            Subject::OS => "OS",
            Subject::UHV => "UHV",
            Subject::NSSPT => "NSSPT",
            Subject::DBMSLAB => "DBMSLAB",
            Subject::NMLAB => "NMLAB",
            Subject::SHELL => "SHELL",
            Subject::DCCN => "DCCN",
            Subject::BITW => "BITW",
            Subject::DCCNLAB => "DCCNLAB",
            Subject::SP => "SP",
            Subject::OT => "OT",
            Subject::SE => "SE",
            Subject::SELAB => "SELAB",
            Subject::FLAT => "FLAT",
            Subject::DMW => "DMW",
            Subject::DMWLAB => "DMWLAB",
            Subject::SC => "SC",
        }
    }

    /// The name of the subject as an owned string.
    pub fn to_string(&self) -> (text: String)
        ensures
            text@ == self.spec_name(),
    {
        String::from_str(self.name())
    }
}

/// Whether classes are held on `weekday`: on every day but Saturday and
/// Sunday.
pub open spec fn is_working_day(weekday: Weekday) -> bool {
    weekday != Weekday::Sat && weekday != Weekday::Sun
}

/// The subjects taught on each working day of the week.
#[derive(Debug)]
pub struct TimeTable {
    mon: Vec<Subject>,
    tue: Vec<Subject>,
    wed: Vec<Subject>,
    thu: Vec<Subject>,
    fri: Vec<Subject>,
}

impl View for TimeTable {
    type V = Map<Weekday, Seq<Subject>>;

    /// The subjects of each working day, in the order of the day's classes.
    closed spec fn view(&self) -> Map<Weekday, Seq<Subject>> {
        Map::new(
            |weekday: Weekday| is_working_day(weekday),
            |weekday: Weekday|
                match weekday {
                    Weekday::Mon => self.mon@,
                    Weekday::Tue => self.tue@,
                    Weekday::Wed => self.wed@,
                    Weekday::Thu => self.thu@,
                    _ => self.fri@,
                },
        )
    }
}

impl TimeTable {
    /// A timetable has subjects for the working days and for no other day.
    pub proof fn lemma_working_days(&self)
        ensures
            forall|weekday: Weekday| #[trigger] self@.contains_key(weekday) <==> is_working_day(weekday),
    {
    }

    /// The timetable with the given subjects from Monday to Friday.
    pub fn new(
        mon: Vec<Subject>,
        tue: Vec<Subject>,
        wed: Vec<Subject>,
        thu: Vec<Subject>,
        fri: Vec<Subject>,
    ) -> (table: TimeTable)
        ensures
            table@ == Map::<Weekday, Seq<Subject>>::empty().insert(Weekday::Mon, mon@).insert(
                Weekday::Tue,
                tue@,
            ).insert(Weekday::Wed, wed@).insert(Weekday::Thu, thu@).insert(Weekday::Fri, fri@),
    {
        let table = TimeTable { mon, tue, wed, thu, fri };
        assert(table@ =~= Map::<Weekday, Seq<Subject>>::empty().insert(Weekday::Mon, mon@).insert(
            Weekday::Tue,
            tue@,
        ).insert(Weekday::Wed, wed@).insert(Weekday::Thu, thu@).insert(Weekday::Fri, fri@));
        table
    }

    /// The subjects scheduled on `weekday`; nothing is scheduled at weekends.
    pub fn subjects_on(&self, weekday: Weekday) -> (subjects: Option<&Vec<Subject>>)
        ensures
            subjects is Some <==> is_working_day(weekday),
            subjects matches Some(list) ==> self@.contains_key(weekday) && self@[weekday] == list@,
    {
        match weekday {
            Weekday::Mon => Some(&self.mon),
            Weekday::Tue => Some(&self.tue),
            Weekday::Wed => Some(&self.wed),
            Weekday::Thu => Some(&self.thu),
            Weekday::Fri => Some(&self.fri),
            _ => None,
        }
    }
}

} // verus!
