use sinan_backend::http::sensor_data_request_query;
use sinan_backend::queries::sensor_data_query;
use sinan_backend::timestamps::utc_time_bound;

fn chrono_utc(text: &str) -> Option<String> {
    chrono::DateTime::parse_from_rfc3339(text)
        .ok()
        .map(|t| t.with_timezone(&chrono::Utc).to_rfc3339())
}

#[test]
fn time_bounds_are_normalised_to_utc() {
    assert_eq!(utc_time_bound(Some("2024-03-01T08:00:00+08:00")), Some("2024-03-01T00:00:00+00:00".to_string()));
    assert_eq!(utc_time_bound(Some("2024-03-01T00:00:00Z")), Some("2024-03-01T00:00:00+00:00".to_string()));
    assert_eq!(utc_time_bound(Some("yesterday")), None);
    assert_eq!(utc_time_bound(None), None);
    for t in ["1996-12-19T16:39:57-08:00", "2024-02-29T23:59:59.5+01:00", "2024-13-01T00:00:00Z", ""] {
        assert_eq!(utc_time_bound(Some(t)), chrono_utc(t));
    }
}

#[test]
fn sensor_request_builds_the_query_from_raw_parameters() {
    assert_eq!(
        sensor_data_request_query(Some("HAN-001"), Some("2024-03-01T08:00:00+08:00"), Some("bad"), Some("20"), Some("x")),
        sensor_data_query(Some("HAN-001"), Some("2024-03-01T00:00:00+00:00"), None, 20, 0)
    );
    assert_eq!(
        sensor_data_request_query(None, None, None, None, None),
        sensor_data_query(None, None, None, 100, 0)
    );
}
