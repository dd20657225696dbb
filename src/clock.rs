use vstd::prelude::*;
use crate::text::{pad, padded};

verus! {

/// A local wall-clock reading, field by field: month 1..=12, day 1..=31,
/// hour 0..=23, minute and second 0..=59. `nanosecond` runs past 999,999,999
/// only during a leap second. Rendering takes any values and pads each field.
#[derive(Clone, Copy, Debug, PartialEq, Eq, Structural)]
pub struct LocalTime {
    pub year: i32,
    pub month: u32,
    pub day: u32,
    pub hour: u32,
    pub minute: u32,
    pub second: u32,
    pub nanosecond: u32,
}

/// The year as four zero-padded digits, signed outside 0..=9999.
pub open spec fn year_text(y: int) -> Seq<char> {
    if 0 <= y && y <= 9999 {
        pad(y as nat, 4)
    } else if y > 9999 {
        seq!['+'] + pad(y as nat, 4)
    } else {
        seq!['-'] + pad((-y) as nat, 4)
    }
}

impl LocalTime {
    /// The second shown on the clock face: 60 during a leap second.
    pub open spec fn shown_second(&self) -> nat {
        (self.second + self.nanosecond / 1_000_000_000) as nat
    }

    /// Milliseconds into the second.
    pub open spec fn millis(&self) -> nat {
        ((self.nanosecond / 1_000_000) % 1000) as nat
    }

    /// `YYYY-MM-DD HH:MM:SS.mmm`.
    pub open spec fn stamp_spec(&self) -> Seq<char> {
        year_text(self.year as int) + seq!['-'] + pad(self.month as nat, 2) + seq!['-']
            + pad(self.day as nat, 2) + seq![' '] + pad(self.hour as nat, 2) + seq![':']
            + pad(self.minute as nat, 2) + seq![':'] + pad(self.shown_second(), 2) + seq!['.']
            + pad(self.millis(), 3)
    }

    /// Renders the reading as `YYYY-MM-DD HH:MM:SS.mmm`.
    pub fn stamp(&self) -> (r: String)
        ensures
            r@ == self.stamp_spec(),
    {
        proof {
            reveal_strlit("-");
            reveal_strlit("+");
            reveal_strlit(" ");
            reveal_strlit(":");
            reveal_strlit(".");
        }
        let mut s = String::new();
        if self.year >= 0 && self.year <= 9999 {
            s.append(padded(self.year as u64, 4).as_str());
        } else if self.year > 9999 {
            s.append("+");
            s.append(padded(self.year as u64, 4).as_str());
        } else {
            s.append("-");
            let magnitude: i64 = -(self.year as i64);
            s.append(padded(magnitude as u64, 4).as_str());
        }
        assert(s@ == year_text(self.year as int));
        s.append("-");
        s.append(padded(self.month as u64, 2).as_str());
        s.append("-");
        s.append(padded(self.day as u64, 2).as_str());
        s.append(" ");
        s.append(padded(self.hour as u64, 2).as_str());
        s.append(":");
        s.append(padded(self.minute as u64, 2).as_str());
        s.append(":");
        let sec: u64 = self.second as u64 + (self.nanosecond / 1_000_000_000) as u64;
        s.append(padded(sec, 2).as_str());
        s.append(".");
        let ms: u32 = (self.nanosecond / 1_000_000) % 1000;
        s.append(padded(ms as u64, 3).as_str());
        s
    }
}

} // verus!
