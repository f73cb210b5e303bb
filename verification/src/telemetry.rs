//! What the telemetry layer is set up with, and how setting it up fails.
use vstd::prelude::*;

use crate::outside::render_handle;
use crate::text::concat;

verus! {

pub struct TelemetryConfig {
    pub service_name: String,
    pub log_level: String,
    pub otlp_endpoint: Option<String>,
    /// The metrics server's bind address.
    pub prometheus_bind: String,
}

#[derive(Debug)]
pub enum TelemetryError {
    Tracing(String),
    Metrics(String),
}

/// The metrics in the Prometheus text format, read through the handle of the
/// installed recorder; empty while no recorder is installed.
pub fn render_metrics(handle: Option<&metrics_exporter_prometheus::PrometheusHandle>) -> (r: String)
    ensures
        handle is None ==> r@ == Seq::<char>::empty(),
{
    match handle {
        Some(h) => render_handle(h),
        None => String::new(),
    }
}

impl TelemetryError {
    /// The error as it is shown.
    pub open spec fn message(&self) -> Seq<char> {
        match self {
            TelemetryError::Tracing(m) => "failed to initialize tracing: "@ + m@,
            TelemetryError::Metrics(m) => "failed to initialize metrics: "@ + m@,
        }
    }

    pub fn to_string(&self) -> (s: String)
        ensures
            s@ == self.message(),
    {
        match self {
            TelemetryError::Tracing(m) => concat("failed to initialize tracing: ", m.as_str()),
            TelemetryError::Metrics(m) => concat("failed to initialize metrics: ", m.as_str()),
        }
    }
}

} // verus!
