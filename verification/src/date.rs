//! Calendar dates attached to a person's record.

use vstd::prelude::*;
use vstd::string::StringExecFns;
use crate::text::{decimal, push_decimal};

verus! {

/// A calendar date, kept as three plain numbers for display.
///
/// No calendar validity is enforced: the value is shown, never computed with.
#[derive(Debug, Clone, Copy, PartialEq, Eq, Structural)]
pub struct GDate {
    pub day: u32,
    pub month: u32,
    pub year: u32,
}

impl GDate {
    /// Builds a date from its three components, unchanged.
    pub fn new(day: u32, month: u32, year: u32) -> (date: Self)
        ensures
            date.day == day,
            date.month == month,
            date.year == year,
    {
        GDate { day, month, year }
    }

    /// The date as it is shown: day, month and year as decimal numerals with
    /// a slash between them.
    pub open spec fn shown(self) -> Seq<char> {
        decimal(self.day as nat) + "/"@ + decimal(self.month as nat) + "/"@ + decimal(
            self.year as nat,
        )
    }

    /// The text under which the date is displayed, such as `24/12/1999`.
    pub fn display_date(&self) -> (text: String)
        ensures
            text@ == self.shown(),
    {
        let mut out = String::new();
        push_decimal(&mut out, self.day as u64);
        out.append("/");
        push_decimal(&mut out, self.month as u64);
        out.append("/");
        push_decimal(&mut out, self.year as u64);
        out
    }
}

} // verus!
