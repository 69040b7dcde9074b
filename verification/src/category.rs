//! Logical quota categories for admission control.
//!
//! Every request consumes one service-specific category together with the
//! wildcard category, so a process-wide ceiling can be enforced alongside the
//! per-service ones.

use vstd::prelude::*;

verus! {

/// The number of distinct categories, the wildcard included.
pub const CATEGORY_COUNT: usize = 6;

/// Identifies which logical quota bucket a request consumes.
#[derive(Clone, Copy, Debug, PartialEq, Eq, Structural)]
pub enum ApiCategory {
    /// The wildcard bucket every request consumes.
    All,
    Directions,
    Elevation,
    Geocoding,
    Roads,
    TimeZone,
}

impl ApiCategory {
    /// The index of this category's bucket in per-category tables.
    pub open spec fn spec_index(self) -> int {
        match self {
            ApiCategory::All => 0,
            ApiCategory::Directions => 1,
            ApiCategory::Elevation => 2,
            ApiCategory::Geocoding => 3,
            ApiCategory::Roads => 4,
            ApiCategory::TimeZone => 5,
        }
    }

    /// The index of this category's bucket in per-category tables.
    pub fn index(self) -> (i: usize)
        ensures
            i == self.spec_index(),
            i < CATEGORY_COUNT,
    {
        match self {
            ApiCategory::All => 0,
            ApiCategory::Directions => 1,
            ApiCategory::Elevation => 2,
            ApiCategory::Geocoding => 3,
            ApiCategory::Roads => 4,
            ApiCategory::TimeZone => 5,
        }
    }
}

/// The categories one request in `primary` consumes: its own bucket and the
/// wildcard bucket.
pub fn request_categories(primary: ApiCategory) -> (v: Vec<ApiCategory>)
    ensures
        v@ == seq![ApiCategory::All, primary],
{
    let mut v: Vec<ApiCategory> = Vec::new();
    v.push(ApiCategory::All);
    v.push(primary);
    proof {
        assert(v@ =~= seq![ApiCategory::All, primary]);
    }
    v
}

} // verus!
