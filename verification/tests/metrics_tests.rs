use std::collections::HashMap;
use std::sync::atomic::{AtomicU64, Ordering};
use std::sync::{Arc, Mutex};
use std::time::Duration;

use metrics::{Counter, CounterFn, Gauge, GaugeFn, Histogram, HistogramFn, Key, KeyName, Metadata, Recorder, SharedString, Unit};
use sinan_backend::metrics::{
    http_latency_labels, http_request_labels, inc_alert_generated, inc_alert_mqtt_failed,
    inc_alert_mqtt_published, inc_clickhouse_insert, inc_clickhouse_insert_failed, inc_dtu_invalid,
    inc_dtu_received, inc_dtu_valid, inc_geomagnetic_calc, inc_http_request, inc_simulation_run,
    record_dtu_latency, record_geomagnetic_calc_latency, record_http_latency,
    record_simulation_latency, set_active_alerts, set_connected_devices, CounterUpdate,
    HttpRequestTimer,
};

#[derive(Default)]
struct Cell {
    total: AtomicU64,
    samples: Mutex<Vec<f64>>,
}

impl CounterFn for Cell {
    fn increment(&self, value: u64) {
        self.total.fetch_add(value, Ordering::SeqCst);
    }
    fn absolute(&self, value: u64) {
        self.total.store(value, Ordering::SeqCst);
    }
}

impl GaugeFn for Cell {
    fn increment(&self, _value: f64) {}
    fn decrement(&self, _value: f64) {}
    fn set(&self, value: f64) {
        self.samples.lock().unwrap().push(value);
    }
}

impl HistogramFn for Cell {
    fn record(&self, value: f64) {
        self.samples.lock().unwrap().push(value);
    }
}

#[derive(Default)]
struct TestRecorder {
    cells: Mutex<HashMap<String, Arc<Cell>>>,
}

impl TestRecorder {
    fn cell(&self, key: &Key) -> Arc<Cell> {
        let mut name = key.name().to_string();
        for label in key.labels() {
            name.push_str(&format!("|{}={}", label.key(), label.value()));
        }
        self.cells.lock().unwrap().entry(name).or_default().clone()
    }
    fn lookup(&self, name: &str) -> Option<Arc<Cell>> {
        self.cells.lock().unwrap().get(name).cloned()
    }
}

impl Recorder for TestRecorder {
    fn describe_counter(&self, _: KeyName, _: Option<Unit>, _: SharedString) {}
    fn describe_gauge(&self, _: KeyName, _: Option<Unit>, _: SharedString) {}
    fn describe_histogram(&self, _: KeyName, _: Option<Unit>, _: SharedString) {}
    fn register_counter(&self, key: &Key, _: &Metadata<'_>) -> Counter {
        Counter::from_arc(self.cell(key))
    }
    fn register_gauge(&self, key: &Key, _: &Metadata<'_>) -> Gauge {
        Gauge::from_arc(self.cell(key))
    }
    fn register_histogram(&self, key: &Key, _: &Metadata<'_>) -> Histogram {
        Histogram::from_arc(self.cell(key))
    }
}

#[test]
fn counters_gauges_and_histograms_reach_the_recorder() {
    let recorder = TestRecorder::default();
    metrics::with_local_recorder(&recorder, || {
        inc_dtu_received();
        inc_dtu_received();
        inc_http_request("GET", "/health", "200");
        set_active_alerts(7);
        record_dtu_latency(Duration::from_millis(250));
    });
    assert_eq!(recorder.lookup("dtu_sensor_data_received_total").unwrap().total.load(Ordering::SeqCst), 2);
    let http = recorder.lookup("http_requests_total|method=GET|endpoint=/health|status=200").unwrap();
    assert_eq!(http.total.load(Ordering::SeqCst), 1);
    assert_eq!(*recorder.lookup("alerts_active").unwrap().samples.lock().unwrap(), vec![7.0]);
    assert_eq!(*recorder.lookup("dtu_processing_latency_seconds").unwrap().samples.lock().unwrap(), vec![0.25]);
}

#[test]
fn request_timer_records_latency_then_count() {
    let recorder = TestRecorder::default();
    metrics::with_local_recorder(&recorder, || {
        let timer = HttpRequestTimer::new("POST", "/api/v1/sensor");
        timer.finish("200");
    });
    let latency = recorder.lookup("http_request_latency_seconds|method=POST|endpoint=/api/v1/sensor").unwrap();
    assert_eq!(latency.samples.lock().unwrap().len(), 1);
    assert!(latency.samples.lock().unwrap()[0] >= 0.0);
    let count = recorder.lookup("http_requests_total|method=POST|endpoint=/api/v1/sensor|status=200").unwrap();
    assert_eq!(count.total.load(Ordering::SeqCst), 1);
    assert_eq!(http_request_labels("GET", "/x", "500"), vec![("method", "GET"), ("endpoint", "/x"), ("status", "500")]);
    assert_eq!(http_latency_labels("GET", "/x"), vec![("method", "GET"), ("endpoint", "/x")]);
}

#[test]
fn each_counter_goes_to_its_own_name() {
    let recorder = TestRecorder::default();
    let cases: Vec<(fn() -> CounterUpdate, &str)> = vec![
        (inc_dtu_received, "dtu_sensor_data_received_total"),
        (inc_dtu_valid, "dtu_sensor_data_valid_total"),
        (inc_dtu_invalid, "dtu_sensor_data_invalid_total"),
        (inc_simulation_run, "simulation_run_total"),
        (inc_geomagnetic_calc, "geomagnetic_calculation_total"),
        (inc_alert_generated, "alerts_generated_total"),
        (inc_alert_mqtt_published, "alerts_mqtt_published_total"),
        (inc_alert_mqtt_failed, "alerts_mqtt_failed_total"),
        (inc_clickhouse_insert, "clickhouse_insert_total"),
        (inc_clickhouse_insert_failed, "clickhouse_insert_failed_total"),
    ];
    for (count, name) in cases {
        let update = metrics::with_local_recorder(&recorder, count);
        assert_eq!(update.name, name);
        assert!(update.labels.is_empty());
        assert_eq!(update.amount, 1);
        assert_eq!(recorder.lookup(name).unwrap().total.load(Ordering::SeqCst), 1);
    }
}

#[test]
fn gauges_and_histograms_report_their_updates() {
    let recorder = TestRecorder::default();
    metrics::with_local_recorder(&recorder, || {
        let devices = set_connected_devices(3);
        assert_eq!((devices.name, devices.value), ("dtu_connected_devices", 3));
        let alerts = set_active_alerts(0);
        assert_eq!((alerts.name, alerts.value), ("alerts_active", 0));
        let sim = record_simulation_latency(Duration::from_millis(500));
        assert_eq!(sim.name, "simulation_latency_seconds");
        assert_eq!(sim.duration, Duration::from_millis(500));
        let geo = record_geomagnetic_calc_latency(Duration::from_secs(2));
        assert_eq!(geo.name, "geomagnetic_calculation_latency_seconds");
        assert!(geo.labels.is_empty());
        let http = record_http_latency("GET", "/api/v1/devices", Duration::from_millis(10));
        assert_eq!(http.name, "http_request_latency_seconds");
        assert_eq!(http.labels, vec![("method", "GET"), ("endpoint", "/api/v1/devices")]);
        let count = inc_http_request("DELETE", "/x", "404");
        assert_eq!(count.name, "http_requests_total");
        assert_eq!(count.labels, vec![("method", "DELETE"), ("endpoint", "/x"), ("status", "404")]);
        let (latency, request) = HttpRequestTimer::new("GET", "/health").finish("200");
        assert_eq!(latency.name, "http_request_latency_seconds");
        assert_eq!(request.labels, vec![("method", "GET"), ("endpoint", "/health"), ("status", "200")]);
    });
    assert_eq!(*recorder.lookup("dtu_connected_devices").unwrap().samples.lock().unwrap(), vec![3.0]);
    assert_eq!(*recorder.lookup("geomagnetic_calculation_latency_seconds").unwrap().samples.lock().unwrap(), vec![2.0]);
}
