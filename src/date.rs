use vstd::prelude::*;
use vstd::string::*;
use chrono::Datelike;
use crate::text::{decimal, push_decimal, push_signed_decimal, signed_decimal};

verus! {

/// A calendar date, as the portal receives it for a stamp.
#[derive(Debug, Clone, Copy, PartialEq, Eq, Structural)]
pub struct WorkDate {
    pub year: i32,
    pub month: u32,
    pub day: u32,
}

impl WorkDate {
    /// Month and day lie in their calendar ranges.
    pub open spec fn wf(&self) -> bool {
        1 <= self.month <= 12 && 1 <= self.day <= 31
    }

    /// A date from its year, month and day.
    pub fn new(year: i32, month: u32, day: u32) -> (r: WorkDate)
        requires
            1 <= month <= 12,
            1 <= day <= 31,
        ensures
            r == (WorkDate { year, month, day }),
            r.wf(),
    {
        WorkDate { year, month, day }
    }

    /// The date of today in the machine's local time zone.
    pub fn today() -> (r: WorkDate)
        ensures
            r.wf(),
    {
        let (year, month, day) = local_today();
        WorkDate { year, month, day }
    }
}

/// Relies on chrono's `Local::now` and `Datelike`: today's calendar date in
/// the local time zone, whose month lies in 1..=12 and day in 1..=31.
#[verifier::external_body]
fn local_today() -> (r: (i32, u32, u32))
    ensures
        1 <= r.1 <= 12,
        1 <= r.2 <= 31,
{
    let today = chrono::Local::now().date_naive();
    (today.year(), today.month(), today.day())
}

/// `Y-M-D` with no zero padding, the form the portal expects.
pub open spec fn date_text(d: WorkDate) -> Seq<char> {
    signed_decimal(d.year as int) + seq!['-'] + decimal(d.month as nat) + seq!['-'] + decimal(
        d.day as nat,
    )
}

/// Renders a date as `Y-M-D` without zero padding (`2024-3-7`).
pub fn work_date_string(date: &WorkDate) -> (r: String)
    ensures
        r@ == date_text(*date),
{
    proof {
        reveal_strlit("-");
    }
    let mut s = String::new();
    push_signed_decimal(&mut s, date.year);
    s.append("-");
    push_decimal(&mut s, date.month);
    s.append("-");
    push_decimal(&mut s, date.day);
    assert(s@ =~= date_text(*date));
    s
}

} // verus!
