//! The text of the database queries that the service issues.
//!
//! Identifiers and timestamps are placed between single quotes exactly as given.

use vstd::prelude::*;
use crate::decimal::{push_decimal, decimal_text};
use crate::ids::{uuid_text, spec_uuid_text};

verus! {

/// The columns of a sensor reading, in table order.
pub const SENSOR_COLUMNS: &'static str = "id, device_id, timestamp, magnetic_moment_x, magnetic_moment_y, magnetic_moment_z, magnetic_moment_magnitude, remanence, pointing_deviation, environment_temp, location_lat, location_lon, is_alert";

/// The columns of an alert event, in table order.
pub const ALERT_COLUMNS: &'static str = "id, timestamp, device_id, alert_type, alert_level, pointing_deviation, threshold, sensor_data_id, is_acknowledged, message, mqtt_topic, mqtt_published";

/// The columns of a pointing simulation result, in table order.
pub const SIMULATION_COLUMNS: &'static str = "id, timestamp, device_id, simulation_id, target_year, location_lat, location_lon, expected_azimuth, simulated_azimuth, pointing_accuracy, magnetic_moment_magnitude, remanence, temperature, friction_coefficient, demagnetization_factor, anisotropy_constant, model_parameters";

/// Lists the registered, active devices.
pub const ALL_DEVICES_QUERY: &'static str = "SELECT DISTINCT device_id, device_name FROM sinan_devices WHERE is_active = true";

/// Counts the stored sensor readings.
pub const SENSOR_COUNT_QUERY: &'static str = "SELECT count() FROM sinan_sensor_data";

/// Counts the stored alerts.
pub const ALERT_COUNT_QUERY: &'static str = "SELECT count() FROM alert_events";

/// Counts the alerts not yet acknowledged.
pub const ACTIVE_ALERT_COUNT_QUERY: &'static str = "SELECT count() FROM alert_events WHERE is_acknowledged = false";

/// Averages the pointing deviation over the last hour.
pub const RECENT_DEVIATION_QUERY: &'static str = "SELECT avg(pointing_deviation) FROM sinan_sensor_data WHERE timestamp >= now() - INTERVAL 1 HOUR";

/// `text` begins with `head`.
pub open spec fn starts_with(text: Seq<char>, head: Seq<char>) -> bool {
    head.len() <= text.len() && text.subrange(0, head.len() as int) == head
}

/// `text` ends with `tail`.
pub open spec fn ends_with(text: Seq<char>, tail: Seq<char>) -> bool {
    tail.len() <= text.len() && text.subrange(text.len() - tail.len(), text.len() as int) == tail
}

/// `part` occurs somewhere in `text`.
pub open spec fn contains_text(text: Seq<char>, part: Seq<char>) -> bool {
    exists|i: int|
        0 <= i && i + part.len() <= text.len() && #[trigger] text.subrange(i, i + part.len()) == part
}

/// The length of the clause `prefix`, value, closing quote when a value is given; zero
/// otherwise.
pub open spec fn clause_len(prefix: Seq<char>, value: Option<Seq<char>>) -> nat {
    match value {
        Some(v) => prefix.len() + v.len() + 1,
        None => 0,
    }
}

proof fn lemma_split(head: Seq<char>, part: Seq<char>, rest: Seq<char>)
    ensures
        starts_with(head + part + rest, head),
        ends_with(head + part, part),
        contains_text(head + part + rest, part),
{
    let t = head + part + rest;
    assert(t.subrange(0, head.len() as int) =~= head);
    assert((head + part).subrange(head.len() as int, (head + part).len() as int) =~= part);
    assert(t.subrange(head.len() as int, (head.len() + part.len()) as int) =~= part);
}

proof fn lemma_parts(head: Seq<char>, a: Seq<char>, b: Seq<char>, c: Seq<char>, page: Seq<char>)
    ensures
        starts_with(head + a + b + c + page, head),
        ends_with(head + a + b + c + page, page),
        contains_text(head + a + b + c + page, a),
        contains_text(head + a + b + c + page, b),
        contains_text(head + a + b + c + page, c),
{
    let t = head + a + b + c + page;
    assert(t =~= head + a + (b + c + page));
    lemma_split(head, a, b + c + page);
    assert(t =~= (head + a) + b + (c + page));
    lemma_split(head + a, b, c + page);
    lemma_split(head + a + b, c, page);
    lemma_split(head + a + b + c, page, Seq::empty());
    assert(t + Seq::<char>::empty() =~= t);
    assert(t =~= head + (a + b + c + page) + Seq::<char>::empty());
    lemma_split(head, a + b + c + page, Seq::empty());
}

proof fn lemma_clause_len(prefix: Seq<char>, value: Option<Seq<char>>)
    ensures
        quoted_clause(prefix, value).len() == clause_len(prefix, value),
{
    reveal_strlit("'");
}

/// `prefix`, the value and a closing quote when a value is given; nothing otherwise.
pub open spec fn quoted_clause(prefix: Seq<char>, value: Option<Seq<char>>) -> Seq<char> {
    match value {
        Some(v) => prefix + v + "'"@,
        None => Seq::empty(),
    }
}

fn push_quoted_clause(query: &mut String, prefix: &str, value: Option<&str>)
    ensures
        final(query)@ == old(query)@ + quoted_clause(prefix@, value.deep_view()),
{
    match value {
        Some(v) => {
            query.append(prefix);
            query.append(v);
            query.append("'");
        },
        None => {
            assert(old(query)@ + Seq::<char>::empty() =~= old(query)@);
        },
    }
}

pub open spec fn spec_sensor_data_query(
    device_id: Option<Seq<char>>,
    start_time: Option<Seq<char>>,
    end_time: Option<Seq<char>>,
    limit: nat,
    offset: nat,
) -> Seq<char> {
    "SELECT "@ + SENSOR_COLUMNS@ + " FROM sinan_sensor_data WHERE 1=1"@
        + quoted_clause(" AND device_id = '"@, device_id)
        + quoted_clause(" AND timestamp >= '"@, start_time)
        + quoted_clause(" AND timestamp <= '"@, end_time)
        + " ORDER BY timestamp DESC LIMIT "@ + decimal_text(limit) + " OFFSET "@ + decimal_text(offset)
}

/// Selects sensor readings, newest first, optionally of one device and within a time
/// range (RFC 3339 bounds), one page of `limit` rows after `offset` rows.
pub fn sensor_data_query(
    device_id: Option<&str>,
    start_time: Option<&str>,
    end_time: Option<&str>,
    limit: usize,
    offset: usize,
) -> (query: String)
    ensures
        query@ == spec_sensor_data_query(
            device_id.deep_view(),
            start_time.deep_view(),
            end_time.deep_view(),
            limit as nat,
            offset as nat,
        ),
{
    let mut query = String::from_str("SELECT ");
    query.append(SENSOR_COLUMNS);
    query.append(" FROM sinan_sensor_data WHERE 1=1");
    push_quoted_clause(&mut query, " AND device_id = '", device_id);
    push_quoted_clause(&mut query, " AND timestamp >= '", start_time);
    push_quoted_clause(&mut query, " AND timestamp <= '", end_time);
    query.append(" ORDER BY timestamp DESC LIMIT ");
    push_decimal(&mut query, limit as u64);
    query.append(" OFFSET ");
    push_decimal(&mut query, offset as u64);
    query
}

pub open spec fn spec_latest_sensor_data_query(device_id: Option<Seq<char>>) -> Seq<char> {
    "SELECT "@ + SENSOR_COLUMNS@ + " FROM sinan_sensor_data "@ + match device_id {
        Some(d) => "WHERE device_id = '"@ + d + "' "@,
        None => Seq::empty(),
    } + "ORDER BY timestamp DESC LIMIT 100"@
}

/// Selects the hundred newest sensor readings, optionally of one device.
pub fn latest_sensor_data_query(device_id: Option<&str>) -> (query: String)
    ensures
        query@ == spec_latest_sensor_data_query(device_id.deep_view()),
{
    let mut query = String::from_str("SELECT ");
    query.append(SENSOR_COLUMNS);
    query.append(" FROM sinan_sensor_data ");
    match device_id {
        Some(d) => {
            query.append("WHERE device_id = '");
            query.append(d);
            query.append("' ");
        },
        None => {},
    }
    query.append("ORDER BY timestamp DESC LIMIT 100");
    query
}

pub open spec fn spec_active_alerts_query(limit: nat) -> Seq<char> {
    "SELECT "@ + ALERT_COLUMNS@
        + " FROM alert_events WHERE is_acknowledged = false ORDER BY timestamp DESC LIMIT "@
        + decimal_text(limit)
}

/// Selects the newest `limit` alerts not yet acknowledged.
pub fn active_alerts_query(limit: usize) -> (query: String)
    ensures
        query@ == spec_active_alerts_query(limit as nat),
{
    let mut query = String::from_str("SELECT ");
    query.append(ALERT_COLUMNS);
    query.append(" FROM alert_events WHERE is_acknowledged = false ORDER BY timestamp DESC LIMIT ");
    push_decimal(&mut query, limit as u64);
    query
}

/// Marks the alert whose UUID has the big-endian value `alert_id` as acknowledged.
pub fn acknowledge_alert_query(alert_id: u128) -> (query: String)
    ensures
        query@ == "ALTER TABLE alert_events UPDATE is_acknowledged = true WHERE id = '"@
            + spec_uuid_text(alert_id as nat) + "'"@,
{
    let mut query = String::from_str("ALTER TABLE alert_events UPDATE is_acknowledged = true WHERE id = '");
    query.append(uuid_text(alert_id).as_str());
    query.append("'");
    query
}

/// Marks the alert whose UUID has the big-endian value `alert_id` as delivered to the
/// message broker.
pub fn mark_alert_published_query(alert_id: u128) -> (query: String)
    ensures
        query@ == "ALTER TABLE alert_events UPDATE mqtt_published = true WHERE id = '"@
            + spec_uuid_text(alert_id as nat) + "'"@,
{
    let mut query = String::from_str("ALTER TABLE alert_events UPDATE mqtt_published = true WHERE id = '");
    query.append(uuid_text(alert_id).as_str());
    query.append("'");
    query
}

pub open spec fn spec_simulation_results_query(
    device_id: Option<Seq<char>>,
    simulation_id: Option<Seq<char>>,
    limit: nat,
) -> Seq<char> {
    "SELECT "@ + SIMULATION_COLUMNS@ + " FROM pointing_simulation_results WHERE 1=1"@
        + quoted_clause(" AND device_id = '"@, device_id)
        + quoted_clause(" AND simulation_id = '"@, simulation_id)
        + " ORDER BY timestamp DESC LIMIT "@ + decimal_text(limit)
}

/// Selects the newest `limit` simulation results, optionally of one device and one run.
pub fn simulation_results_query(device_id: Option<&str>, simulation_id: Option<&str>, limit: usize) -> (query: String)
    ensures
        query@ == spec_simulation_results_query(
            device_id.deep_view(),
            simulation_id.deep_view(),
            limit as nat,
        ),
{
    let mut query = String::from_str("SELECT ");
    query.append(SIMULATION_COLUMNS);
    query.append(" FROM pointing_simulation_results WHERE 1=1");
    push_quoted_clause(&mut query, " AND device_id = '", device_id);
    push_quoted_clause(&mut query, " AND simulation_id = '", simulation_id);
    query.append(" ORDER BY timestamp DESC LIMIT ");
    push_decimal(&mut query, limit as u64);
    query
}

/// Selects the newest sensor reading of one device.
pub fn device_status_query(device_id: &str) -> (query: String)
    ensures
        query@ == "SELECT "@ + SENSOR_COLUMNS@ + " FROM sinan_sensor_data WHERE device_id = '"@
            + device_id@ + "' ORDER BY timestamp DESC LIMIT 1"@,
{
    let mut query = String::from_str("SELECT ");
    query.append(SENSOR_COLUMNS);
    query.append(" FROM sinan_sensor_data WHERE device_id = '");
    query.append(device_id);
    query.append("' ORDER BY timestamp DESC LIMIT 1");
    query
}

/// The sensor-data query selects from the sensor table, holds the clause of every
/// filter that is given, whatever the other filters are, holds no other text than those
/// clauses between the selection and the page, and ends with the page: the limit, then
/// the offset.
pub proof fn lemma_sensor_data_query_filters(
    device_id: Option<Seq<char>>,
    start_time: Option<Seq<char>>,
    end_time: Option<Seq<char>>,
    limit: nat,
    offset: nat,
)
    ensures
        starts_with(
            spec_sensor_data_query(device_id, start_time, end_time, limit, offset),
            "SELECT "@ + SENSOR_COLUMNS@ + " FROM sinan_sensor_data WHERE 1=1"@,
        ),
        ends_with(
            spec_sensor_data_query(device_id, start_time, end_time, limit, offset),
            " ORDER BY timestamp DESC LIMIT "@ + decimal_text(limit) + " OFFSET "@ + decimal_text(offset),
        ),
        device_id matches Some(d) ==> contains_text(
            spec_sensor_data_query(device_id, start_time, end_time, limit, offset),
            " AND device_id = '"@ + d + "'"@,
        ),
        start_time matches Some(t) ==> contains_text(
            spec_sensor_data_query(device_id, start_time, end_time, limit, offset),
            " AND timestamp >= '"@ + t + "'"@,
        ),
        end_time matches Some(t) ==> contains_text(
            spec_sensor_data_query(device_id, start_time, end_time, limit, offset),
            " AND timestamp <= '"@ + t + "'"@,
        ),
        spec_sensor_data_query(device_id, start_time, end_time, limit, offset).len() == (
        "SELECT "@ + SENSOR_COLUMNS@ + " FROM sinan_sensor_data WHERE 1=1"@).len() + clause_len(
            " AND device_id = '"@,
            device_id,
        ) + clause_len(" AND timestamp >= '"@, start_time) + clause_len(
            " AND timestamp <= '"@,
            end_time,
        ) + (" ORDER BY timestamp DESC LIMIT "@ + decimal_text(limit) + " OFFSET "@ + decimal_text(
            offset,
        )).len(),
{
    let head = "SELECT "@ + SENSOR_COLUMNS@ + " FROM sinan_sensor_data WHERE 1=1"@;
    let dc = quoted_clause(" AND device_id = '"@, device_id);
    let sc = quoted_clause(" AND timestamp >= '"@, start_time);
    let ec = quoted_clause(" AND timestamp <= '"@, end_time);
    let page = " ORDER BY timestamp DESC LIMIT "@ + decimal_text(limit) + " OFFSET "@ + decimal_text(offset);
    assert(spec_sensor_data_query(device_id, start_time, end_time, limit, offset) =~= head + dc + sc + ec + page);
    lemma_parts(head, dc, sc, ec, page);
    lemma_clause_len(" AND device_id = '"@, device_id);
    lemma_clause_len(" AND timestamp >= '"@, start_time);
    lemma_clause_len(" AND timestamp <= '"@, end_time);
}

/// The simulation-results query selects from the results table, holds the clause of
/// every filter that is given, whatever the other filter is, holds no other text than
/// those clauses between the selection and the limit, and ends with the limit.
pub proof fn lemma_simulation_results_query_filters(
    device_id: Option<Seq<char>>,
    simulation_id: Option<Seq<char>>,
    limit: nat,
)
    ensures
        starts_with(
            spec_simulation_results_query(device_id, simulation_id, limit),
            "SELECT "@ + SIMULATION_COLUMNS@ + " FROM pointing_simulation_results WHERE 1=1"@,
        ),
        ends_with(
            spec_simulation_results_query(device_id, simulation_id, limit),
            " ORDER BY timestamp DESC LIMIT "@ + decimal_text(limit),
        ),
        device_id matches Some(d) ==> contains_text(
            spec_simulation_results_query(device_id, simulation_id, limit),
            " AND device_id = '"@ + d + "'"@,
        ),
        simulation_id matches Some(r) ==> contains_text(
            spec_simulation_results_query(device_id, simulation_id, limit),
            " AND simulation_id = '"@ + r + "'"@,
        ),
        spec_simulation_results_query(device_id, simulation_id, limit).len() == (
        "SELECT "@ + SIMULATION_COLUMNS@ + " FROM pointing_simulation_results WHERE 1=1"@).len()
            + clause_len(" AND device_id = '"@, device_id) + clause_len(
            " AND simulation_id = '"@,
            simulation_id,
        ) + (" ORDER BY timestamp DESC LIMIT "@ + decimal_text(limit)).len(),
{
    let head = "SELECT "@ + SIMULATION_COLUMNS@ + " FROM pointing_simulation_results WHERE 1=1"@;
    let dc = quoted_clause(" AND device_id = '"@, device_id);
    let rc = quoted_clause(" AND simulation_id = '"@, simulation_id);
    let page = " ORDER BY timestamp DESC LIMIT "@ + decimal_text(limit);
    assert(spec_simulation_results_query(device_id, simulation_id, limit) =~= head + dc + rc
        + Seq::<char>::empty() + page);
    lemma_parts(head, dc, rc, Seq::empty(), page);
    lemma_clause_len(" AND device_id = '"@, device_id);
    lemma_clause_len(" AND simulation_id = '"@, simulation_id);
}

/// The latest-readings query selects from the sensor table, restricts it to the device
/// when one is given and to nothing otherwise, and ends with the hundred-row limit.
pub proof fn lemma_latest_sensor_data_query_device(device_id: Option<Seq<char>>)
    ensures
        starts_with(
            spec_latest_sensor_data_query(device_id),
            "SELECT "@ + SENSOR_COLUMNS@ + " FROM sinan_sensor_data "@,
        ),
        ends_with(spec_latest_sensor_data_query(device_id), "ORDER BY timestamp DESC LIMIT 100"@),
        device_id matches Some(d) ==> contains_text(
            spec_latest_sensor_data_query(device_id),
            "WHERE device_id = '"@ + d + "' "@,
        ),
        device_id is None ==> spec_latest_sensor_data_query(device_id) == "SELECT "@
            + SENSOR_COLUMNS@ + " FROM sinan_sensor_data "@ + "ORDER BY timestamp DESC LIMIT 100"@,
{
    let head = "SELECT "@ + SENSOR_COLUMNS@ + " FROM sinan_sensor_data "@;
    let dc = match device_id {
        Some(d) => "WHERE device_id = '"@ + d + "' "@,
        None => Seq::<char>::empty(),
    };
    let page = "ORDER BY timestamp DESC LIMIT 100"@;
    let q = spec_latest_sensor_data_query(device_id);
    assert(q =~= head + dc + page);
    assert(q =~= head + (dc + page) + Seq::<char>::empty());
    lemma_split(head, dc + page, Seq::empty());
    lemma_split(head + dc, page, Seq::empty());
    lemma_split(head, dc, page);
    if device_id is None {
        assert(q =~= head + page);
    }
}

/// The active-alerts query selects the unacknowledged alerts, newest first, and ends
/// with the decimal text of the limit it was given: two different limits give two
/// different queries.
pub proof fn lemma_active_alerts_query_limit(limit: nat, other: nat)
    ensures
        starts_with(
            spec_active_alerts_query(limit),
            "SELECT "@ + ALERT_COLUMNS@ + " FROM alert_events WHERE is_acknowledged = false"@,
        ),
        ends_with(
            spec_active_alerts_query(limit),
            " ORDER BY timestamp DESC LIMIT "@ + decimal_text(limit),
        ),
        spec_active_alerts_query(limit) == spec_active_alerts_query(other) ==> limit == other,
{
    reveal_strlit(" FROM alert_events WHERE is_acknowledged = false ORDER BY timestamp DESC LIMIT ");
    reveal_strlit(" FROM alert_events WHERE is_acknowledged = false");
    reveal_strlit(" ORDER BY timestamp DESC LIMIT ");
    let head = "SELECT "@ + ALERT_COLUMNS@ + " FROM alert_events WHERE is_acknowledged = false"@;
    let mid = " ORDER BY timestamp DESC LIMIT "@;
    let q = spec_active_alerts_query(limit);
    let fixed = "SELECT "@ + ALERT_COLUMNS@
        + " FROM alert_events WHERE is_acknowledged = false ORDER BY timestamp DESC LIMIT "@;
    assert(fixed =~= head + mid);
    assert(q =~= head + (mid + decimal_text(limit)) + Seq::<char>::empty());
    lemma_split(head, mid + decimal_text(limit), Seq::empty());
    lemma_split(head + mid, decimal_text(limit), Seq::empty());
    assert(q =~= fixed + decimal_text(limit));
    if q == spec_active_alerts_query(other) {
        let r = spec_active_alerts_query(other);
        assert(r =~= fixed + decimal_text(other));
        assert(decimal_text(limit) =~= q.subrange(fixed.len() as int, q.len() as int));
        assert(decimal_text(other) =~= r.subrange(fixed.len() as int, r.len() as int));
        crate::decimal::lemma_decimal_round_trip(limit, limit + other);
        crate::decimal::lemma_decimal_round_trip(other, limit + other);
    }
}

} // verus!
