//! Timestamps: nanoseconds since the Unix epoch. A zero value means
//! "not set".

use vstd::prelude::*;

verus! {

/// A point in time with nanosecond resolution; zero stands for an unset
/// timestamp.
#[derive(Clone, Copy, Debug, PartialEq, Eq, Structural, Hash)]
pub struct Timestamp {
    pub nanos: u64,
}

impl Timestamp {
    pub open spec fn spec_is_set(self) -> bool {
        self.nanos != 0
    }

    pub fn none() -> (r: Timestamp)
        ensures
            r.nanos == 0,
            !r.spec_is_set(),
    {
        Timestamp { nanos: 0 }
    }

    pub fn from_nanoseconds(nanos: u64) -> (r: Timestamp)
        ensures
            r.nanos == nanos,
    {
        Timestamp { nanos }
    }

    pub fn nanoseconds(&self) -> (r: u64)
        ensures
            r == self.nanos,
    {
        self.nanos
    }

    pub fn is_set(&self) -> (r: bool)
        ensures
            r == self.spec_is_set(),
    {
        self.nanos != 0
    }

    /// Whether `self` is strictly after `other`.
    pub fn after(&self, other: &Timestamp) -> (r: bool)
        ensures
            r == (self.nanos > other.nanos),
    {
        self.nanos > other.nanos
    }
}

} // verus!
