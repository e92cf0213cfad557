//! Block heights: a `(revision_number, revision_height)` pair ordered
//! lexicographically. A height whose `revision_height` is zero is invalid.

use vstd::prelude::*;

use crate::errors::ClientError;

verus! {

/// A chain height, split into the revision (incremented on hard forks) and
/// the block height within that revision.
#[derive(Clone, Copy, Debug, PartialEq, Eq, Structural, Hash)]
pub struct Height {
    pub revision_number: u64,
    pub revision_height: u64,
}

impl Height {
    /// A height is well formed when its `revision_height` is positive.
    pub open spec fn well_formed(self) -> bool {
        self.revision_height > 0
    }

    /// Lexicographic order on `(revision_number, revision_height)`.
    pub open spec fn spec_lt(self, rhs: Height) -> bool {
        self.revision_number < rhs.revision_number
            || (self.revision_number == rhs.revision_number
                && self.revision_height < rhs.revision_height)
    }

    pub open spec fn spec_le(self, rhs: Height) -> bool {
        self.spec_lt(rhs) || self == rhs
    }

    pub fn new(revision_number: u64, revision_height: u64) -> (r: Result<Height, ClientError>)
        ensures
            revision_height > 0 ==> r == Ok::<Height, ClientError>(Height {
                revision_number,
                revision_height,
            }),
            revision_height == 0 ==> r == Err::<Height, ClientError>(ClientError::InvalidHeight),
            r matches Ok(h) ==> h.well_formed(),
    {
        if revision_height == 0 {
            Err(ClientError::InvalidHeight)
        } else {
            Ok(Height { revision_number, revision_height })
        }
    }

    pub fn revision_number(&self) -> (r: u64)
        ensures
            r == self.revision_number,
    {
        self.revision_number
    }

    pub fn revision_height(&self) -> (r: u64)
        ensures
            r == self.revision_height,
    {
        self.revision_height
    }

    /// Bumps `revision_height` by one; the revision number is kept.
    pub fn increment(&self) -> (r: Result<Height, ClientError>)
        ensures
            self.revision_height < u64::MAX ==> r == Ok::<Height, ClientError>(Height {
                revision_number: self.revision_number,
                revision_height: (self.revision_height + 1) as u64,
            }),
            self.revision_height == u64::MAX ==> r == Err::<Height, ClientError>(
                ClientError::InvalidHeight,
            ),
    {
        if self.revision_height == u64::MAX {
            Err(ClientError::InvalidHeight)
        } else {
            Ok(Height {
                revision_number: self.revision_number,
                revision_height: self.revision_height + 1,
            })
        }
    }

    /// Subtracts `n` from `revision_height`; fails on underflow, that is
    /// whenever the result would not be a well-formed height.
    pub fn sub(&self, n: u64) -> (r: Result<Height, ClientError>)
        ensures
            self.revision_height > n ==> r == Ok::<Height, ClientError>(Height {
                revision_number: self.revision_number,
                revision_height: (self.revision_height - n) as u64,
            }),
            self.revision_height <= n ==> r == Err::<Height, ClientError>(
                ClientError::InvalidHeight,
            ),
    {
        if self.revision_height > n {
            Ok(Height {
                revision_number: self.revision_number,
                revision_height: self.revision_height - n,
            })
        } else {
            Err(ClientError::InvalidHeight)
        }
    }

    /// Strict lexicographic comparison.
    pub fn lt(&self, rhs: &Height) -> (r: bool)
        ensures
            r == self.spec_lt(*rhs),
    {
        self.revision_number < rhs.revision_number
            || (self.revision_number == rhs.revision_number
                && self.revision_height < rhs.revision_height)
    }

    pub fn le(&self, rhs: &Height) -> (r: bool)
        ensures
            r == self.spec_le(*rhs),
    {
        self.revision_number < rhs.revision_number
            || (self.revision_number == rhs.revision_number
                && self.revision_height <= rhs.revision_height)
    }
}

} // verus!
