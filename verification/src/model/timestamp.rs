//! Points in time.

use vstd::prelude::*;

verus! {

/// A point in time in UTC, as microseconds since the Unix epoch.
#[derive(Debug, PartialEq, Eq, Hash, Clone, Copy, Structural)]
pub struct Timestamp(pub i64);

} // verus!
