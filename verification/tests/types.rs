//! The request and response data types around the engine.

use maps_engine::bounds::{Bounds, LatLng};
use maps_engine::category::ApiCategory;
use maps_engine::error::Error;
use maps_engine::executor::Request;
use maps_engine::geocoding::ForwardRequest;
use maps_engine::status::{parse_status, wire_of_status, Status};
use maps_engine::time_zone::Response;

#[test]
fn with_bounds_sets_only_the_bounds() {
    let sw = LatLng::new(51_503_111, -129_150).unwrap();
    let ne = LatLng::new(51_503_440, -126_003).unwrap();
    let bounds = Bounds::new(sw, ne);
    let request = ForwardRequest::new().with_bounds(bounds);
    assert_eq!(request.bounds, Some(bounds));
    assert!(request.address.is_none());
    assert!(request.query.is_none());
}

#[test]
fn latlng_rejects_coordinates_off_the_globe() {
    assert!(LatLng::new(90_000_000, 180_000_000).is_some());
    assert!(LatLng::new(-90_000_000, -180_000_000).is_some());
    assert!(LatLng::new(90_000_001, 0).is_none());
    assert!(LatLng::new(0, -180_000_001).is_none());
}

#[test]
fn request_builder_carries_query_and_category() {
    let req = Request::new(ApiCategory::TimeZone);
    assert!(!req.ready());
    let req = req.with_query("location=0,0".to_string());
    assert!(req.ready());
    assert_eq!(req.category, ApiCategory::TimeZone);
    let cats = req.categories();
    assert_eq!(cats, vec![ApiCategory::All, ApiCategory::TimeZone]);
}

#[test]
fn status_round_trips_through_its_wire_form() {
    for status in [
        Status::Okay,
        Status::InvalidRequest,
        Status::OverDailyLimit,
        Status::OverQueryLimit,
        Status::RequestDenied,
        Status::UnknownError,
    ] {
        let wire = wire_of_status(status).to_string();
        assert_eq!(parse_status(&wire), Some(status));
    }
    assert_eq!(parse_status(&"Ok".to_string()), None);
    assert_eq!(parse_status(&"".to_string()), None);
}

fn time_zone_response(dst: Option<i16>, raw: Option<i16>, status: Status) -> Response {
    Response {
        dst_offset: dst,
        error_message: None,
        raw_offset: raw,
        status,
        time_zone_id: Some("America/Los_Angeles".to_string()),
        time_zone_name: Some("Pacific Daylight Time".to_string()),
    }
}

#[test]
fn local_time_sums_timestamp_and_both_offsets() {
    let r = time_zone_response(Some(3600), Some(-28800), Status::Okay);
    assert!(r.is_success());
    assert_eq!(r.local_time(1_000_000), Some(1_000_000 + 3600 - 28800));
}

#[test]
fn local_time_is_none_without_both_offsets() {
    let r = time_zone_response(None, Some(-28800), Status::UnknownError);
    assert!(!r.is_success());
    assert_eq!(r.local_time(1_000_000), None);
    let r = time_zone_response(Some(0), None, Status::Okay);
    assert_eq!(r.local_time(1_000_000), None);
}

#[test]
fn local_time_refuses_to_overflow() {
    let r = time_zone_response(Some(1), Some(1), Status::Okay);
    assert_eq!(r.local_time(i64::MAX), None);
    assert_eq!(r.local_time(i64::MAX - 2), Some(i64::MAX));
}

#[test]
fn every_error_kind_describes_itself() {
    let errors = vec![
        Error::QueryNotBuilt,
        Error::Transport("x".to_string()),
        Error::HttpUnsuccessful(404),
        Error::Schema,
        Error::Service(Status::RequestDenied, Some("denied".to_string())),
        Error::Exhausted(Box::new(Error::HttpUnsuccessful(500))),
    ];
    let mut seen = Vec::new();
    for e in &errors {
        let m = e.message();
        assert!(!m.is_empty());
        assert!(!seen.contains(&m));
        seen.push(m);
    }
}
