//! A repeat count for timing loops, with conversions to and from the
//! common numeric widths.

use vstd::prelude::*;

verus! {

/// The repeat count that is enough for most measurements.
pub const DEFAULT_TIMES: u64 = 100000;

/// How many times a timed operation is repeated.
#[derive(Clone, Copy, Debug, Hash, PartialEq, Eq, Structural)]
pub struct Times(pub u64);

impl Times {
    /// The raw repeat count.
    pub fn as_u64(self) -> (r: u64)
        ensures
            r == self.0,
    {
        self.0
    }

    /// The repeat count as a `usize`, truncated if it does not fit.
    pub fn as_usize(self) -> (r: usize)
        ensures
            r == self.0 as usize,
    {
        #[verifier::truncate] (self.0 as usize)
    }

    /// The repeat count as a `u32`, truncated if it does not fit.
    pub fn as_u32(self) -> (r: u32)
        ensures
            r == self.0 as u32,
    {
        #[verifier::truncate] (self.0 as u32)
    }

    /// The repeat count as an `i32`, truncated if it does not fit.
    pub fn as_i32(self) -> (r: i32)
        ensures
            r == self.0 as i32,
    {
        #[verifier::truncate] (self.0 as i32)
    }
}

impl Default for Times {
    /// The default repeat count, [`DEFAULT_TIMES`].
    fn default() -> (r: Self)
        ensures
            r.0 == DEFAULT_TIMES,
    {
        Times(DEFAULT_TIMES)
    }
}

impl From<u64> for Times {
    fn from(times: u64) -> Times {
        Times(times)
    }
}

impl vstd::std_specs::convert::FromSpecImpl<u64> for Times {
    open spec fn obeys_from_spec() -> bool {
        true
    }

    open spec fn from_spec(times: u64) -> Times {
        Times(times)
    }
}

impl From<u32> for Times {
    fn from(times: u32) -> Times {
        Times(times as u64)
    }
}

impl vstd::std_specs::convert::FromSpecImpl<u32> for Times {
    open spec fn obeys_from_spec() -> bool {
        true
    }

    open spec fn from_spec(times: u32) -> Times {
        Times(times as u64)
    }
}

impl From<usize> for Times {
    fn from(times: usize) -> Times {
        Times(times as u64)
    }
}

impl vstd::std_specs::convert::FromSpecImpl<usize> for Times {
    open spec fn obeys_from_spec() -> bool {
        true
    }

    open spec fn from_spec(times: usize) -> Times {
        Times(times as u64)
    }
}

impl From<i32> for Times {
    fn from(times: i32) -> Times {
        Times(#[verifier::truncate] (times as u64))
    }
}

impl vstd::std_specs::convert::FromSpecImpl<i32> for Times {
    open spec fn obeys_from_spec() -> bool {
        true
    }

    open spec fn from_spec(times: i32) -> Times {
        Times(times as u64)
    }
}

} // verus!
