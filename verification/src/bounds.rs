//! Geographic coordinates and bounding boxes.
//!
//! Coordinates are kept in microdegrees, so every latitude and longitude is
//! an exact integer and the validity ranges are exact bounds.

use vstd::prelude::*;

verus! {

/// Ninety degrees in microdegrees: the latitude bound.
pub const LAT_LIMIT_UDEG: i64 = 90_000_000;

/// One hundred eighty degrees in microdegrees: the longitude bound.
pub const LNG_LIMIT_UDEG: i64 = 180_000_000;

/// One geographic coordinate, in microdegrees.
#[derive(Clone, Copy, Debug, PartialEq, Eq, Structural)]
pub struct LatLng {
    /// Latitude in microdegrees, positive north.
    pub lat_udeg: i64,
    /// Longitude in microdegrees, positive east.
    pub lng_udeg: i64,
}

impl LatLng {
    /// A coordinate is valid when it lies on the globe.
    pub open spec fn wf(self) -> bool {
        &&& -LAT_LIMIT_UDEG <= self.lat_udeg <= LAT_LIMIT_UDEG
        &&& -LNG_LIMIT_UDEG <= self.lng_udeg <= LNG_LIMIT_UDEG
    }

    /// Builds a coordinate, rejecting values off the globe.
    pub fn new(lat_udeg: i64, lng_udeg: i64) -> (r: Option<LatLng>)
        ensures
            r is Some <==> (LatLng { lat_udeg, lng_udeg }).wf(),
            r is Some ==> r == Some(LatLng { lat_udeg, lng_udeg }),
    {
        if -LAT_LIMIT_UDEG <= lat_udeg && lat_udeg <= LAT_LIMIT_UDEG && -LNG_LIMIT_UDEG <= lng_udeg
            && lng_udeg <= LNG_LIMIT_UDEG {
            Some(LatLng { lat_udeg, lng_udeg })
        } else {
            None
        }
    }
}

/// A bounding box over a geographic area: the southwest and northeast
/// corners of a viewport.
#[derive(Clone, Copy, Debug, PartialEq, Eq, Structural)]
pub struct Bounds {
    /// South-west or bottom-left corner of the bounding box.
    pub southwest: LatLng,
    /// North-east or top-right corner of the bounding box.
    pub northeast: LatLng,
}

impl Bounds {
    /// A bounding box is valid when both corners are valid coordinates.
    pub open spec fn wf(self) -> bool {
        self.southwest.wf() && self.northeast.wf()
    }

    /// Builds a bounding box from two valid corners.
    pub fn new(southwest: LatLng, northeast: LatLng) -> (r: Bounds)
        requires
            southwest.wf(),
            northeast.wf(),
        ensures
            r == (Bounds { southwest, northeast }),
            r.wf(),
    {
        Bounds { southwest, northeast }
    }
}

} // verus!
