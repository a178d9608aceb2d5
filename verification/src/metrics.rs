//! Counters, gauges and latency histograms exported to Prometheus.
//!
//! Each function hands one update (a metric's name, its labels and a value) to the
//! process-wide `metrics` recorder and returns that update; its contract states the
//! update exactly. What the recorder does with it is not visible to the verifier.

use vstd::prelude::*;
use std::time::{Duration, Instant};

verus! {

#[verifier::external_type_specification]
#[verifier::external_body]
pub struct ExInstant(Instant);

/// The target and module path under which this module's metrics are registered.
pub const METRICS_TARGET: &'static str = "sinan_backend::metrics";

/// One addition to a counter: the counter's name, its labels and the amount added.
pub struct CounterUpdate {
    pub name: &'static str,
    pub labels: Vec<(&'static str, &'static str)>,
    pub amount: u64,
}

/// One setting of a gauge: the gauge's name and the value it is set to.
pub struct GaugeUpdate {
    pub name: &'static str,
    pub value: usize,
}

/// One sample of a histogram: the histogram's name, its labels and the duration recorded.
pub struct HistogramUpdate {
    pub name: &'static str,
    pub labels: Vec<(&'static str, &'static str)>,
    pub duration: Duration,
}

/// Hands `update` to the current `metrics` recorder: registers the counter under its
/// name and labels (`metrics::with_recorder`, `Key::from_parts`,
/// `Recorder::register_counter`) and adds the amount (`Counter::increment`). Returns
/// `update` itself; what the process-wide recorder does with it is not stated.
#[verifier::external_body]
fn record_counter(update: CounterUpdate) -> (recorded: CounterUpdate)
    ensures
        recorded == update,
{
    let key = metrics::Key::from_parts(update.name, &update.labels);
    let metadata = metrics::Metadata::new(METRICS_TARGET, metrics::Level::INFO, Some(METRICS_TARGET));
    metrics::with_recorder(|recorder| recorder.register_counter(&key, &metadata)).increment(update.amount);
    update
}

/// Hands `update` to the current `metrics` recorder: registers the gauge under its name
/// (`Recorder::register_gauge`) and sets it (`Gauge::set`). The value goes through
/// `metrics::IntoF64` as a whole number of seconds, which converts to the same
/// floating-point number as the count itself. Returns `update` itself; what the
/// process-wide recorder does with it is not stated.
#[verifier::external_body]
fn record_gauge(update: GaugeUpdate) -> (recorded: GaugeUpdate)
    ensures
        recorded == update,
{
    let key = metrics::Key::from_name(update.name);
    let metadata = metrics::Metadata::new(METRICS_TARGET, metrics::Level::INFO, Some(METRICS_TARGET));
    metrics::with_recorder(|recorder| recorder.register_gauge(&key, &metadata)).set(Duration::from_secs(update.value as u64));
    update
}

/// Hands `update` to the current `metrics` recorder: registers the histogram under its
/// name and labels (`Recorder::register_histogram`) and records the duration in seconds
/// (`Histogram::record`). Returns `update` itself; what the process-wide recorder does
/// with it is not stated.
#[verifier::external_body]
fn record_sample(update: HistogramUpdate) -> (recorded: HistogramUpdate)
    ensures
        recorded == update,
{
    let key = metrics::Key::from_parts(update.name, &update.labels);
    let metadata = metrics::Metadata::new(METRICS_TARGET, metrics::Level::INFO, Some(METRICS_TARGET));
    metrics::with_recorder(|recorder| recorder.register_histogram(&key, &metadata)).record(update.duration);
    update
}

/// Reads the monotonic clock (`Instant::now`). Time is not stated.
#[verifier::external_body]
fn now() -> Instant {
    Instant::now()
}

/// The time passed since `start` (`Instant::elapsed`). Time is not stated.
#[verifier::external_body]
fn elapsed_since(start: &Instant) -> Duration {
    start.elapsed()
}

/// `update` adds one to the unlabelled counter `name`.
pub open spec fn is_single_count(update: CounterUpdate, name: Seq<char>) -> bool {
    &&& update.name@ == name
    &&& update.labels@ == Seq::<(&'static str, &'static str)>::empty()
    &&& update.amount == 1
}

/// `update` records `duration` in the unlabelled histogram `name`.
pub open spec fn is_plain_sample(update: HistogramUpdate, name: Seq<char>, duration: Duration) -> bool {
    &&& update.name@ == name
    &&& update.labels@ == Seq::<(&'static str, &'static str)>::empty()
    &&& update.duration == duration
}

/// `update` counts one HTTP request with `method` to `endpoint` answered with `status`.
pub open spec fn is_http_request_count(
    update: CounterUpdate,
    method: &'static str,
    endpoint: &'static str,
    status: &'static str,
) -> bool {
    &&& update.name@ == "http_requests_total"@
    &&& update.labels@ == seq![("method", method), ("endpoint", endpoint), ("status", status)]
    &&& update.amount == 1
}

/// `update` records `duration` as the latency of an HTTP request with `method` to
/// `endpoint`.
pub open spec fn is_http_latency_sample(
    update: HistogramUpdate,
    method: &'static str,
    endpoint: &'static str,
    duration: Duration,
) -> bool {
    &&& update.name@ == "http_request_latency_seconds"@
    &&& update.labels@ == seq![("method", method), ("endpoint", endpoint)]
    &&& update.duration == duration
}

/// What each kind of update hands to the recorder: a single count adds exactly one to
/// the named counter with no labels; a plain sample records the given duration in the
/// named histogram with no labels; an HTTP request count adds one to
/// `http_requests_total` labelled method, endpoint, status; an HTTP latency sample
/// records the duration in `http_request_latency_seconds` labelled method, endpoint.
pub proof fn lemma_updates_hand_over(
    count: CounterUpdate,
    sample: HistogramUpdate,
    name: Seq<char>,
    method: &'static str,
    endpoint: &'static str,
    status: &'static str,
    duration: Duration,
)
    ensures
        is_single_count(count, name) ==> count.name@ == name && count.labels@.len() == 0
            && count.amount == 1,
        is_plain_sample(sample, name, duration) ==> sample.name@ == name && sample.labels@.len() == 0
            && sample.duration == duration,
        is_http_request_count(count, method, endpoint, status) ==> count.name@
            == "http_requests_total"@ && count.amount == 1 && count.labels@.len() == 3
            && count.labels@[0] == ("method", method) && count.labels@[1] == ("endpoint", endpoint)
            && count.labels@[2] == ("status", status),
        is_http_latency_sample(sample, method, endpoint, duration) ==> sample.name@
            == "http_request_latency_seconds"@ && sample.duration == duration && sample.labels@.len() == 2
            && sample.labels@[0] == ("method", method) && sample.labels@[1] == ("endpoint", endpoint),
{
}

fn single_count(name: &'static str) -> (update: CounterUpdate)
    ensures
        is_single_count(update, name@),
{
    CounterUpdate { name, labels: Vec::new(), amount: 1 }
}

fn plain_sample(name: &'static str, duration: Duration) -> (update: HistogramUpdate)
    ensures
        is_plain_sample(update, name@, duration),
{
    HistogramUpdate { name, labels: Vec::new(), duration }
}

/// Counts a sensor packet received: adds one to `dtu_sensor_data_received_total` and returns that update.
pub fn inc_dtu_received() -> (recorded: CounterUpdate)
    ensures
        is_single_count(recorded, "dtu_sensor_data_received_total"@),
{
    record_counter(single_count("dtu_sensor_data_received_total"))
}

/// Counts a sensor packet that passed validation: adds one to `dtu_sensor_data_valid_total` and returns that update.
pub fn inc_dtu_valid() -> (recorded: CounterUpdate)
    ensures
        is_single_count(recorded, "dtu_sensor_data_valid_total"@),
{
    record_counter(single_count("dtu_sensor_data_valid_total"))
}

/// Counts a sensor packet that failed validation: adds one to `dtu_sensor_data_invalid_total` and returns that update.
pub fn inc_dtu_invalid() -> (recorded: CounterUpdate)
    ensures
        is_single_count(recorded, "dtu_sensor_data_invalid_total"@),
{
    record_counter(single_count("dtu_sensor_data_invalid_total"))
}

/// Counts a pointing simulation run: adds one to `simulation_run_total` and returns that update.
pub fn inc_simulation_run() -> (recorded: CounterUpdate)
    ensures
        is_single_count(recorded, "simulation_run_total"@),
{
    record_counter(single_count("simulation_run_total"))
}

/// Counts a geomagnetic field calculation: adds one to `geomagnetic_calculation_total` and returns that update.
pub fn inc_geomagnetic_calc() -> (recorded: CounterUpdate)
    ensures
        is_single_count(recorded, "geomagnetic_calculation_total"@),
{
    record_counter(single_count("geomagnetic_calculation_total"))
}

/// Counts an alert generated: adds one to `alerts_generated_total` and returns that update.
pub fn inc_alert_generated() -> (recorded: CounterUpdate)
    ensures
        is_single_count(recorded, "alerts_generated_total"@),
{
    record_counter(single_count("alerts_generated_total"))
}

/// Counts an alert delivered to the broker: adds one to `alerts_mqtt_published_total` and returns that update.
pub fn inc_alert_mqtt_published() -> (recorded: CounterUpdate)
    ensures
        is_single_count(recorded, "alerts_mqtt_published_total"@),
{
    record_counter(single_count("alerts_mqtt_published_total"))
}

/// Counts an alert the broker did not accept: adds one to `alerts_mqtt_failed_total` and returns that update.
pub fn inc_alert_mqtt_failed() -> (recorded: CounterUpdate)
    ensures
        is_single_count(recorded, "alerts_mqtt_failed_total"@),
{
    record_counter(single_count("alerts_mqtt_failed_total"))
}

/// Counts a database insert: adds one to `clickhouse_insert_total` and returns that update.
pub fn inc_clickhouse_insert() -> (recorded: CounterUpdate)
    ensures
        is_single_count(recorded, "clickhouse_insert_total"@),
{
    record_counter(single_count("clickhouse_insert_total"))
}

/// Counts a failed database insert: adds one to `clickhouse_insert_failed_total` and returns that update.
pub fn inc_clickhouse_insert_failed() -> (recorded: CounterUpdate)
    ensures
        is_single_count(recorded, "clickhouse_insert_failed_total"@),
{
    record_counter(single_count("clickhouse_insert_failed_total"))
}

/// The labels of an HTTP request counter: method, endpoint and status, in that order.
pub fn http_request_labels(method: &'static str, endpoint: &'static str, status: &'static str) -> (labels: Vec<(&'static str, &'static str)>)
    ensures
        labels@ == seq![("method", method), ("endpoint", endpoint), ("status", status)],
{
    let mut labels: Vec<(&'static str, &'static str)> = Vec::new();
    labels.push(("method", method));
    labels.push(("endpoint", endpoint));
    labels.push(("status", status));
    labels
}

/// The labels of an HTTP latency histogram: method and endpoint, in that order.
pub fn http_latency_labels(method: &'static str, endpoint: &'static str) -> (labels: Vec<(&'static str, &'static str)>)
    ensures
        labels@ == seq![("method", method), ("endpoint", endpoint)],
{
    let mut labels: Vec<(&'static str, &'static str)> = Vec::new();
    labels.push(("method", method));
    labels.push(("endpoint", endpoint));
    labels
}

/// Counts an HTTP request: adds one to `http_requests_total` labelled by method,
/// endpoint and status, and returns that update.
pub fn inc_http_request(method: &'static str, endpoint: &'static str, status: &'static str) -> (recorded: CounterUpdate)
    ensures
        is_http_request_count(recorded, method, endpoint, status),
{
    record_counter(CounterUpdate {
        name: "http_requests_total",
        labels: http_request_labels(method, endpoint, status),
        amount: 1,
    })
}

/// Sets `dtu_connected_devices` to the number of connected devices and returns that
/// update.
pub fn set_connected_devices(count: usize) -> (recorded: GaugeUpdate)
    ensures
        recorded.name@ == "dtu_connected_devices"@,
        recorded.value == count,
{
    record_gauge(GaugeUpdate { name: "dtu_connected_devices", value: count })
}

/// Sets `alerts_active` to the number of active alerts and returns that update.
pub fn set_active_alerts(count: usize) -> (recorded: GaugeUpdate)
    ensures
        recorded.name@ == "alerts_active"@,
        recorded.value == count,
{
    record_gauge(GaugeUpdate { name: "alerts_active", value: count })
}

/// Records the processing time of a sensor packet in `dtu_processing_latency_seconds`
/// and returns that update.
pub fn record_dtu_latency(duration: Duration) -> (recorded: HistogramUpdate)
    ensures
        is_plain_sample(recorded, "dtu_processing_latency_seconds"@, duration),
{
    record_sample(plain_sample("dtu_processing_latency_seconds", duration))
}

/// Records the duration of a simulation in `simulation_latency_seconds` and returns that
/// update.
pub fn record_simulation_latency(duration: Duration) -> (recorded: HistogramUpdate)
    ensures
        is_plain_sample(recorded, "simulation_latency_seconds"@, duration),
{
    record_sample(plain_sample("simulation_latency_seconds", duration))
}

/// Records the duration of a geomagnetic calculation in
/// `geomagnetic_calculation_latency_seconds` and returns that update.
pub fn record_geomagnetic_calc_latency(duration: Duration) -> (recorded: HistogramUpdate)
    ensures
        is_plain_sample(recorded, "geomagnetic_calculation_latency_seconds"@, duration),
{
    record_sample(plain_sample("geomagnetic_calculation_latency_seconds", duration))
}

/// Records the duration of an HTTP request in `http_request_latency_seconds`, labelled by
/// method and endpoint, and returns that update.
pub fn record_http_latency(method: &'static str, endpoint: &'static str, duration: Duration) -> (recorded: HistogramUpdate)
    ensures
        is_http_latency_sample(recorded, method, endpoint, duration),
{
    record_sample(HistogramUpdate {
        name: "http_request_latency_seconds",
        labels: http_latency_labels(method, endpoint),
        duration,
    })
}

/// Measures one HTTP request from its start until `finish`.
pub struct HttpRequestTimer {
    start: Instant,
    method: &'static str,
    endpoint: &'static str,
}

impl HttpRequestTimer {
    pub closed spec fn method_label(self) -> &'static str {
        self.method
    }

    pub closed spec fn endpoint_label(self) -> &'static str {
        self.endpoint
    }

    /// Starts timing a request to `endpoint` with `method`.
    pub fn new(method: &'static str, endpoint: &'static str) -> (timer: HttpRequestTimer)
        ensures
            timer.method_label() == method,
            timer.endpoint_label() == endpoint,
    {
        HttpRequestTimer { start: now(), method, endpoint }
    }

    /// Ends the request with `status`: records its latency, then counts it, and returns
    /// both updates. The latency itself is read from the clock and is not stated.
    pub fn finish(self, status: &'static str) -> (recorded: (HistogramUpdate, CounterUpdate))
        ensures
            is_http_latency_sample(recorded.0, self.method_label(), self.endpoint_label(), recorded.0.duration),
            is_http_request_count(recorded.1, self.method_label(), self.endpoint_label(), status),
    {
        let duration = elapsed_since(&self.start);
        let latency = record_http_latency(self.method, self.endpoint, duration);
        let count = inc_http_request(self.method, self.endpoint, status);
        (latency, count)
    }
}

} // verus!
