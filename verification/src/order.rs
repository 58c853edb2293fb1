//! The order of date and time values: by year, then month, day, hour, minute
//! and second. For moments of the calendar this is the order of time.

use core::cmp::Ordering;
use vstd::prelude::*;
use vstd::std_specs::cmp::PartialOrdSpecImpl;
use crate::datetime::RTCDateTime;

verus! {

impl RTCDateTime {
    /// Whether `self` comes strictly before `other`: at the first field in
    /// which they differ, taken from the year down, `self` is smaller.
    pub open spec fn precedes(self, other: RTCDateTime) -> bool {
        ||| self.year < other.year
        ||| self.year == other.year && self.month < other.month
        ||| self.year == other.year && self.month == other.month && self.day < other.day
        ||| self.year == other.year && self.month == other.month && self.day == other.day
            && self.hour < other.hour
        ||| self.year == other.year && self.month == other.month && self.day == other.day
            && self.hour == other.hour && self.minute < other.minute
        ||| self.year == other.year && self.month == other.month && self.day == other.day
            && self.hour == other.hour && self.minute == other.minute && self.second
            < other.second
    }
}

impl RTCDateTime {
    /// Tell whether `self` comes strictly before `other`; `<` tells the same.
    pub fn is_before(&self, other: &RTCDateTime) -> (before: bool)
        ensures
            before == self.precedes(*other),
    {
        *self < *other
    }
}

impl PartialOrdSpecImpl for RTCDateTime {
    open spec fn obeys_partial_cmp_spec() -> bool {
        true
    }

    open spec fn partial_cmp_spec(&self, other: &RTCDateTime) -> Option<Ordering> {
        if self.precedes(*other) {
            Some(Ordering::Less)
        } else if other.precedes(*self) {
            Some(Ordering::Greater)
        } else {
            Some(Ordering::Equal)
        }
    }
}

impl PartialOrd for RTCDateTime {
    /// Compare the fields one by one, from the year down.
    fn partial_cmp(&self, other: &RTCDateTime) -> (order: Option<Ordering>) {
        if self.year != other.year {
            if self.year < other.year {
                Some(Ordering::Less)
            } else {
                Some(Ordering::Greater)
            }
        } else if self.month != other.month {
            if self.month < other.month {
                Some(Ordering::Less)
            } else {
                Some(Ordering::Greater)
            }
        } else if self.day != other.day {
            if self.day < other.day {
                Some(Ordering::Less)
            } else {
                Some(Ordering::Greater)
            }
        } else if self.hour != other.hour {
            if self.hour < other.hour {
                Some(Ordering::Less)
            } else {
                Some(Ordering::Greater)
            }
        } else if self.minute != other.minute {
            if self.minute < other.minute {
                Some(Ordering::Less)
            } else {
                Some(Ordering::Greater)
            }
        } else if self.second != other.second {
            if self.second < other.second {
                Some(Ordering::Less)
            } else {
                Some(Ordering::Greater)
            }
        } else {
            Some(Ordering::Equal)
        }
    }
}

/// Of two values exactly one holds: the first precedes the second, they are
/// equal, or the second precedes the first.
pub proof fn order_is_total(a: RTCDateTime, b: RTCDateTime)
    ensures
        a.precedes(b) || a == b || b.precedes(a),
        !(a.precedes(b) && a == b),
        !(a.precedes(b) && b.precedes(a)),
        !(a == b && b.precedes(a)),
{
}

/// What precedes a value that precedes a third, precedes the third.
pub proof fn order_is_transitive(a: RTCDateTime, b: RTCDateTime, c: RTCDateTime)
    requires
        a.precedes(b),
        b.precedes(c),
    ensures
        a.precedes(c),
{
}

} // verus!
