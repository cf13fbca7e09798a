//! Telemetry records flowing upward out of the gateway.  Sending them is
//! I/O and happens outside the library.

use vstd::prelude::*;

verus! {

/// A summary of one handled request, ready to be reported.
#[derive(Debug, Clone)]
pub struct TelemetryData {
    pub request_summary: String,
    pub response_summary: String,
    pub error_info: Option<String>,
}

} // verus!
