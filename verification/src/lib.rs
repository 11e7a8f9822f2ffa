//! A personal class-attendance tracker: a weekly timetable, per-subject logs
//! of the dates on which classes were held or missed, and the counts derived
//! from them.

pub mod absents;
pub mod attendance;
pub mod classes;
pub mod date;
pub mod datelog;
pub mod marking;
pub mod menu;
pub mod text;
pub mod timetable;
