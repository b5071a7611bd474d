use crate::text::{push_padded, zero_padded};
use chrono::Datelike;
use vstd::prelude::*;
use vstd::string::StringExecFns;

verus! {

/// A calendar date.
#[derive(Debug, Clone, Copy, PartialEq, Eq, Structural)]
pub struct Date {
    pub year: i32,
    pub month: u32,
    pub day: u32,
}

impl Date {
    /// Whether month and day lie in the ranges of the calendar.
    pub open spec fn in_calendar(self) -> bool {
        1 <= self.month <= 12 && 1 <= self.day <= 31
    }

    /// The date as `yyyy-mm-dd`: the year with at least four digits, month
    /// and day with at least two, each padded with zeros; a year before the
    /// year 0 has a minus sign in front.
    pub open spec fn text(self) -> Seq<char> {
        let year = if self.year < 0 {
            seq!['-'] + zero_padded((-self.year) as nat, 4)
        } else {
            zero_padded(self.year as nat, 4)
        };
        year + seq!['-'] + zero_padded(self.month as nat, 2) + seq!['-'] + zero_padded(
            self.day as nat,
            2,
        )
    }

    /// Writes the date as `yyyy-mm-dd`, zero-padded.
    pub fn to_text(&self) -> (r: String)
        ensures
            r@ == self.text(),
    {
        proof {
            reveal_strlit("-");
            assert("-"@ =~= seq!['-']);
        }
        let wide: i64 = self.year as i64;
        let mut out = String::new();
        if wide < 0 {
            out.append("-");
            push_padded(&mut out, (0 - wide) as u32, 4);
        } else {
            push_padded(&mut out, wide as u32, 4);
        }
        out.append("-");
        push_padded(&mut out, self.month, 2);
        out.append("-");
        push_padded(&mut out, self.day, 2);
        assert(out@ =~= self.text());
        out
    }
}

/// Reads the clock: the calendar date in UTC at the moment of the call, from
/// `chrono::Utc::now` and the `year`, `month` and `day` of `chrono::Datelike`.
/// Nothing is claimed of which date comes back, only that chrono counts
/// months from 1 to 12 and days of the month from 1 to 31. `Utc::now`
/// panics where the system clock stands before 1970.
#[verifier::external_body]
pub(crate) fn today() -> (r: Date)
    ensures
        r.in_calendar(),
{
    let now = chrono::Utc::now();
    Date { year: now.year(), month: now.month(), day: now.day() }
}

} // verus!
