//! The typed body of a time-zone lookup response.

use vstd::prelude::*;
use crate::status::Status;

verus! {

/// The decoded body of a time-zone response.
///
/// The local time of the queried location is the sum of the queried
/// timestamp and the `dst_offset` and `raw_offset` fields.
pub struct Response {
    /// The offset for daylight-savings time in seconds; zero when the time
    /// zone is not in daylight savings at the queried time.
    pub dst_offset: Option<i16>,
    /// More detailed information about the reasons behind the given status,
    /// if other than `Okay`.
    pub error_message: Option<String>,
    /// The offset from UTC in seconds for the given location, daylight
    /// savings not included.
    pub raw_offset: Option<i16>,
    /// The status of the response.
    pub status: Status,
    /// The identifier of the time zone, such as a region/city pair.
    pub time_zone_id: Option<String>,
    /// The long-form, possibly localized, name of the time zone.
    pub time_zone_name: Option<String>,
}

impl Response {
    /// Whether the service fulfilled the request.
    pub fn is_success(&self) -> (b: bool)
        ensures
            b == (self.status == Status::Okay),
    {
        self.status == Status::Okay
    }

    /// The local time at the queried location: the queried timestamp plus
    /// both offsets.  `None` when either offset is missing from the
    /// response or the sum leaves the representable range.
    pub fn local_time(&self, timestamp: i64) -> (r: Option<i64>)
        ensures
            match (self.dst_offset, self.raw_offset) {
                (Some(d), Some(w)) => {
                    let sum = timestamp + d + w;
                    if i64::MIN <= sum <= i64::MAX {
                        r == Some(sum as i64)
                    } else {
                        r is None
                    }
                },
                _ => r is None,
            },
    {
        match (self.dst_offset, self.raw_offset) {
            (Some(d), Some(w)) => {
                let offset: i64 = d as i64 + w as i64;
                timestamp.checked_add(offset)
            },
            _ => None,
        }
    }
}

} // verus!
