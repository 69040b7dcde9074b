//! The forward-geocoding request surface the engine executes.

use vstd::prelude::*;
use crate::bounds::Bounds;

verus! {

/// A forward-geocoding request: a street address to look up, an optional
/// viewport to bias results toward, and the query string once built.
pub struct ForwardRequest {
    /// The address to geocode.
    pub address: Option<String>,
    /// The bounding box of the viewport within which to bias geocode results
    /// more prominently.  It only influences, not restricts, the results.
    pub bounds: Option<Bounds>,
    /// The built query string, `None` until query-building completes.
    pub query: Option<String>,
}

impl ForwardRequest {
    /// A fresh request with nothing set.
    pub fn new() -> (r: Self)
        ensures
            r.address is None,
            r.bounds is None,
            r.query is None,
    {
        ForwardRequest { address: None, bounds: None, query: None }
    }

    /// Specifies a bounding box for biasing results: geocode results within
    /// the viewport are preferred, though more relevant results outside it
    /// may still be returned.
    pub fn with_bounds(self, bounds: Bounds) -> (r: Self)
        ensures
            r.bounds == Some(bounds),
            r.address == self.address,
            r.query == self.query,
    {
        ForwardRequest { bounds: Some(bounds), ..self }
    }
}

} // verus!
