//! Calendar dates as plain values, rendered in the protocol's
//! `YYYY-MM-DD` form.

use vstd::prelude::*;

use crate::num::append_dec_padded;
use crate::num::spec_dec_padded;

verus! {

/// A calendar date.
#[derive(Debug, PartialEq, Eq, Clone, Copy)]
pub struct Date {
    pub year: u16,
    pub month: u8,
    pub day: u8,
}

/// The `YYYY-MM-DD` rendering of a date.
pub open spec fn spec_date_chars(d: Date) -> Seq<char> {
    spec_dec_padded(d.year as nat, 4) + seq!['-'] + spec_dec_padded(d.month as nat, 2)
        + seq!['-'] + spec_dec_padded(d.day as nat, 2)
}

impl Date {
    /// The date of that year, month and day.
    pub fn from_ymd(year: u16, month: u8, day: u8) -> (r: Date)
        requires
            1 <= month <= 12,
            1 <= day <= 31,
        ensures
            r.year == year,
            r.month == month,
            r.day == day,
    {
        Date { year, month, day }
    }

    /// This date in the protocol's `YYYY-MM-DD` form.
    pub fn text(&self) -> (r: String)
        ensures
            r@ == spec_date_chars(*self),
    {
        proof {
            reveal_strlit("-");
        }
        let mut out = String::new();
        append_dec_padded(&mut out, self.year as u64, 4);
        out.append("-");
        append_dec_padded(&mut out, self.month as u64, 2);
        out.append("-");
        append_dec_padded(&mut out, self.day as u64, 2);
        proof {
            assert(out@ =~= spec_date_chars(*self));
        }
        out
    }
}

} // verus!
