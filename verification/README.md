# sinan_backend

Backend of a simulation system for ancient Chinese magnetic direction finders
(the sinan spoon, the floating fish, the dry compass) compared with a modern MEMS
compass: it collects sensor readings, reconstructs the historical geomagnetic field,
simulates pointing accuracy, raises deviation alerts over MQTT and stores everything
in ClickHouse.

## Layout

- `src/` — the verified library (Verus):
  - `models.rs` — device and interference catalogues, device selection for comparisons;
  - `decimal.rs` — std-compatible parsing of unsigned integers and decimal formatting;
  - `ids.rs` — hyphenated UUID text;
  - `config.rs` — environment defaults, port parsing, database and broker connection settings;
  - `queries.rs` — the text of every database query;
  - `messaging.rs` — broker topics and the choice of alerts to deliver again;
  - `http.rs` — request parameters (defaults, time bounds, the sensor-data query) and the
    HTTP status of each failure kind;
  - `timestamps.rs` — RFC 3339 time bounds normalised to UTC;
  - `alerting.rs` — the alert level and the store → publish → mark-published steps of an
    alert;
  - `compute_pool.rs` — pool sizing, worker names and the submitted/completed/in-flight ledger;
  - `device_cache.rs` — the latest reading of each device;
  - `metrics.rs` — the Prometheus counters, gauges and latency histograms: each function
    returns the update (name, labels, value) it handed to the recorder.
- `app/` — the service around it: the HTTP server, actors, database and broker clients,
  and the floating-point geomagnetic and micromagnetic models.
- `tests/` — tests of the library.

## HTTP API notes

The interactive simulation (`POST /api/v1/simulation/interactive`) calls the
micromagnetic simulator directly. There is no drag-force endpoint and no VR wrapper
around the simulator: the simulator has no drag-force computation to serve them.
