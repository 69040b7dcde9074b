//! A client-side request execution engine for a family of remote geospatial
//! web services.
//!
//! Every service request funnels through the same machinery: an admission
//! gate that enforces per-category rate limits, a pure response classifier
//! that separates transient faults from permanent ones, and a retry state
//! machine that drives repeated attempts under exponential backoff.  The
//! engine itself performs no I/O: a driver performs each network attempt and
//! feeds the observed outcome back into the machine.

pub mod admission;
pub mod backoff;
pub mod bounds;
pub mod category;
pub mod classify;
pub mod error;
pub mod executor;
pub mod geocoding;
pub mod retry;
pub mod status;
pub mod time_zone;
pub mod wire;
