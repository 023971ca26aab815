use vstd::prelude::*;
use vstd::string::*;
use crate::text::{decimal, push_decimal};

verus! {

pub const SECONDS_PER_DAY: i64 = 86400;
pub const SECONDS_PER_HOUR: i64 = 3600;
pub const SECONDS_PER_MINUTE: i64 = 60;

/// Quotient rounded toward zero, as integer `/` does in Rust (`b > 0`).
pub open spec fn quot(a: int, b: int) -> int {
    if a >= 0 { a / b } else { -((-a) / b) }
}

/// Remainder that goes with `quot`: it has the sign of `a`.
pub open spec fn rem(a: int, b: int) -> int {
    a - b * quot(a, b)
}

/// Elapsed time split into whole days, then whole hours of the rest, then
/// whole minutes of what remains; seconds are dropped.
#[derive(Debug, Clone, Copy, PartialEq, Eq, Structural)]
pub struct TimeAgo {
    pub days: u32,
    pub hours: u32,
    pub minutes: u32,
}

/// Days of an elapsed number of seconds.
pub open spec fn days_of(delta: int) -> int {
    quot(delta, SECONDS_PER_DAY as int)
}

/// Hours of an elapsed number of seconds, after the whole days.
pub open spec fn hours_of(delta: int) -> int {
    quot(rem(delta, SECONDS_PER_DAY as int), SECONDS_PER_HOUR as int)
}

/// Minutes of an elapsed number of seconds, after the whole days and hours.
pub open spec fn minutes_of(delta: int) -> int {
    quot(rem(rem(delta, SECONDS_PER_DAY as int), SECONDS_PER_HOUR as int), SECONDS_PER_MINUTE as int)
}

impl TimeAgo {
    /// The split of `delta` seconds. A negative delta (a commit dated in the
    /// future) yields the bit pattern of the negative parts, as `as u32` does.
    pub open spec fn spec_from_seconds(delta: int) -> TimeAgo {
        TimeAgo {
            days: days_of(delta) as u32,
            hours: hours_of(delta) as u32,
            minutes: minutes_of(delta) as u32,
        }
    }

    /// Splits an elapsed number of seconds into days, hours and minutes.
    pub fn from_seconds(delta: i64) -> (r: TimeAgo)
        ensures
            r == TimeAgo::spec_from_seconds(delta as int),
    {
        let days: i64 = delta / SECONDS_PER_DAY;
        let rest: i64 = delta % SECONDS_PER_DAY;
        let hours: i64 = rest / SECONDS_PER_HOUR;
        let minutes: i64 = (rest % SECONDS_PER_HOUR) / SECONDS_PER_MINUTE;
        assert(days == days_of(delta as int));
        assert(rest == rem(delta as int, SECONDS_PER_DAY as int));
        TimeAgo {
            days: #[verifier::truncate] (days as u32),
            hours: #[verifier::truncate] (hours as u32),
            minutes: #[verifier::truncate] (minutes as u32),
        }
    }
}

impl TimeAgo {
    /// The human form: the largest nonzero unit among days and hours, else minutes.
    pub open spec fn spec_to_string(self) -> Seq<char> {
        if self.days > 0 {
            decimal(self.days as nat) + " days"@
        } else if self.hours > 0 {
            decimal(self.hours as nat) + " hours"@
        } else {
            decimal(self.minutes as nat) + " minutes"@
        }
    }

    /// Renders the elapsed time as `"<n> days"`, `"<n> hours"` or `"<n> minutes"`.
    pub fn to_string(&self) -> (r: String)
        ensures
            r@ == self.spec_to_string(),
    {
        let mut s = String::new();
        if self.days > 0 {
            push_decimal(&mut s, self.days as u64);
            s.append(" days");
        } else if self.hours > 0 {
            push_decimal(&mut s, self.hours as u64);
            s.append(" hours");
        } else {
            push_decimal(&mut s, self.minutes as u64);
            s.append(" minutes");
        }
        assert(s@ =~= self.spec_to_string());
        s
    }
}

} // verus!
