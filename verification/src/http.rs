//! Request-parameter handling and the HTTP status of each kind of failure.

use vstd::prelude::*;
use crate::decimal::{parse_usize, spec_parse_unsigned, decimal_text, decimal_value, unsigned_digits, all_decimal_digits, lemma_decimal_round_trip, lemma_parse_accepts_exactly};
use crate::queries::{sensor_data_query, spec_sensor_data_query};
use crate::timestamps::{utc_time_bound, spec_time_bound};

verus! {

/// Rows returned by the sensor-data query when no limit is given.
pub const DEFAULT_SENSOR_LIMIT: usize = 100;

/// Rows skipped by the sensor-data query when no offset is given.
pub const DEFAULT_SENSOR_OFFSET: usize = 0;

/// Rows returned by the simulation-results query when no limit is given.
pub const DEFAULT_SIMULATION_LIMIT: usize = 100;

/// Alerts returned by the active-alerts query when no limit is given.
pub const DEFAULT_ALERT_LIMIT: usize = 50;

/// The value of a numeric query parameter: the parameter read as a `usize`, or the
/// default when it is absent or is not such a number.
pub open spec fn spec_count_param(value: Option<Seq<char>>, default: nat) -> nat {
    match value {
        Some(text) => match spec_parse_unsigned(text, usize::MAX as nat) {
            Ok(v) => v,
            Err(_) => default,
        },
        None => default,
    }
}

/// An absent parameter gives the default; a parameter that is a run of decimal digits
/// (after an optional `+`) within `usize` gives the number they write, so the decimal
/// text of a count gives that count; any other parameter gives the default.
pub proof fn lemma_count_param_reads_the_number(text: Seq<char>, n: nat, default: nat)
    ensures
        spec_count_param(None, default) == default,
        n <= usize::MAX ==> spec_count_param(Some(decimal_text(n)), default) == n,
        (unsigned_digits(text).len() > 0 && all_decimal_digits(unsigned_digits(text))
            && decimal_value(unsigned_digits(text)) <= usize::MAX) ==> spec_count_param(
            Some(text),
            default,
        ) == decimal_value(unsigned_digits(text)),
        !(unsigned_digits(text).len() > 0 && all_decimal_digits(unsigned_digits(text))
            && decimal_value(unsigned_digits(text)) <= usize::MAX) ==> spec_count_param(
            Some(text),
            default,
        ) == default,
{
    if n <= usize::MAX {
        lemma_decimal_round_trip(n, usize::MAX as nat);
    }
    lemma_parse_accepts_exactly(text, usize::MAX as nat);
}

/// Reads a numeric query parameter, falling back to `default`.
pub fn count_param(value: Option<&str>, default: usize) -> (count: usize)
    ensures
        count as nat == spec_count_param(value.deep_view(), default as nat),
{
    match value {
        Some(text) => match parse_usize(text) {
            Ok(v) => v,
            Err(_) => default,
        },
        None => default,
    }
}

/// The query of a sensor-data request, from the request's raw parameters: the device,
/// the time bounds read as UTC instants (a bound that is not RFC 3339 text is dropped),
/// and the limit and offset read as counts with their defaults.
pub fn sensor_data_request_query(
    device_id: Option<&str>,
    start_time: Option<&str>,
    end_time: Option<&str>,
    limit: Option<&str>,
    offset: Option<&str>,
) -> (query: String)
    ensures
        query@ == spec_sensor_data_query(
            device_id.deep_view(),
            spec_time_bound(start_time.deep_view()),
            spec_time_bound(end_time.deep_view()),
            spec_count_param(limit.deep_view(), DEFAULT_SENSOR_LIMIT as nat),
            spec_count_param(offset.deep_view(), DEFAULT_SENSOR_OFFSET as nat),
        ),
{
    let start = utc_time_bound(start_time);
    let end = utc_time_bound(end_time);
    let limit = count_param(limit, DEFAULT_SENSOR_LIMIT);
    let offset = count_param(offset, DEFAULT_SENSOR_OFFSET);
    let start_text: Option<&str> = match &start {
        Some(s) => Some(s.as_str()),
        None => None,
    };
    let end_text: Option<&str> = match &end {
        Some(s) => Some(s.as_str()),
        None => None,
    };
    sensor_data_query(device_id, start_text, end_text, limit, offset)
}

/// The kinds of failure that a request can end in.
#[derive(Clone, Copy, Debug, PartialEq, Eq, Structural)]
pub enum ErrorKind {
    Database,
    Mqtt,
    Serialization,
    Io,
    Config,
    InvalidParameter,
    Simulation,
    Geomagnetic,
    Http,
    NotFound,
    Internal,
}

/// The HTTP status answered for a failure: 400 for an invalid parameter, 404 for a
/// missing resource, 500 for everything else.
pub open spec fn spec_status_code(kind: ErrorKind) -> u16 {
    match kind {
        ErrorKind::InvalidParameter => 400,
        ErrorKind::NotFound => 404,
        _ => 500,
    }
}

/// The HTTP status answered for a failure of the given kind.
pub fn status_code(kind: ErrorKind) -> (status: u16)
    ensures
        status == spec_status_code(kind),
{
    match kind {
        ErrorKind::InvalidParameter => 400,
        ErrorKind::NotFound => 404,
        _ => 500,
    }
}

/// A failure is reported as a client error exactly when the request held an invalid
/// parameter or asked for a missing resource; every other failure is a server error.
pub proof fn lemma_client_errors_are_the_caller_s(kind: ErrorKind)
    ensures
        (400 <= spec_status_code(kind) < 500) <==> (kind == ErrorKind::InvalidParameter || kind
            == ErrorKind::NotFound),
        spec_status_code(kind) >= 500 <==> !(kind == ErrorKind::InvalidParameter || kind
            == ErrorKind::NotFound),
{
}

} // verus!
