//! The calendar date of a run, and the name of the export file that it gives.

use chrono::Datelike;
use vstd::prelude::*;
use vstd::string::*;

use crate::text::{push_signed_decimal, push_two_digits, signed_decimal, two_digits};

verus! {

/// A day of the calendar.
#[derive(Clone, Copy, Debug, PartialEq, Eq, Structural)]
pub struct CalendarDate {
    /// The day of the month, counted from 1.
    pub day: u32,
    /// The month of the year, counted from 1.
    pub month: u32,
    /// The year; years before the year 1 are zero and below.
    pub year: i32,
}

impl CalendarDate {
    /// The day and the month are in the range of a calendar: no day beyond the
    /// 31st, no month beyond the 12th.
    pub open spec fn in_calendar(self) -> bool {
        1 <= self.day <= 31 && 1 <= self.month <= 12
    }
}

/// What every export file's name starts with.
pub const EXPORT_PREFIX: &'static str = "dd-unqueried-metrics-";

/// What every export file's name ends in.
pub const EXPORT_SUFFIX: &'static str = ".csv";

/// The name of the export file of a run on `date`: the prefix, the day and the
/// month with two digits each, the year, with hyphens between them, and the
/// suffix.
pub open spec fn export_file_name(date: CalendarDate) -> Seq<char> {
    EXPORT_PREFIX@ + two_digits(date.day as nat) + seq!['-'] + two_digits(date.month as nat)
        + seq!['-'] + signed_decimal(date.year as int) + EXPORT_SUFFIX@
}

/// Names the export file of a run on `date`.
pub fn export_path(date: CalendarDate) -> (r: String)
    ensures
        r@ == export_file_name(date),
{
    proof {
        reveal_strlit("-");
    }
    let mut name = String::from_str(EXPORT_PREFIX);
    push_two_digits(&mut name, date.day as u64);
    name.append("-");
    push_two_digits(&mut name, date.month as u64);
    name.append("-");
    push_signed_decimal(&mut name, date.year);
    name.append(EXPORT_SUFFIX);
    assert(name@ =~= export_file_name(date));
    name
}

/// Reads the clock: the date of today in the time zone of the machine. This is
/// `chrono::Local::now`, of which `date_naive` keeps the date; `chrono`
/// documents the day of the month as a number from 1 to 31 and the month as a
/// number from 1 to 12. On a machine whose clock stands before the year 1970
/// `chrono` gives up and the call does not come back.
#[verifier::external_body]
pub(crate) fn local_date() -> (r: CalendarDate)
    ensures
        r.in_calendar(),
{
    let date = chrono::Local::now().date_naive();
    CalendarDate { day: date.day(), month: date.month(), year: date.year() }
}

} // verus!
