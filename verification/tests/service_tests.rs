use sinan_backend::http::{count_param, status_code, ErrorKind, DEFAULT_ALERT_LIMIT, DEFAULT_SENSOR_LIMIT};
use sinan_backend::messaging::{
    alert_topic, alerts_to_republish, can_publish, delivered_count, status_topic, subtopic, PublishOutcome,
    POINTING_DEVIATION_ALERT,
};

#[test]
fn alert_topics_use_the_lowercase_alert_type() {
    assert_eq!(alert_topic("sinan/alerts", POINTING_DEVIATION_ALERT), "sinan/alerts/pointing_deviation");
    assert_eq!(alert_topic("t", "ÀB"), "t/àb");
    assert_eq!(subtopic("a", "b"), "a/b");
    assert_eq!(status_topic("sinan/alerts", "HAN-001"), "sinan/alerts/status/HAN-001");
    assert!(can_publish(true, true));
    assert!(!can_publish(true, false));
    assert!(!can_publish(false, true));
}

#[test]
fn count_parameters_fall_back_on_bad_text() {
    assert_eq!(count_param(None, DEFAULT_SENSOR_LIMIT), 100);
    assert_eq!(count_param(Some("25"), DEFAULT_SENSOR_LIMIT), 25);
    assert_eq!(count_param(Some("+25"), DEFAULT_SENSOR_LIMIT), 25);
    assert_eq!(count_param(Some("-1"), DEFAULT_ALERT_LIMIT), 50);
    assert_eq!(count_param(Some("ten"), DEFAULT_ALERT_LIMIT), 50);
    assert_eq!(count_param(Some(""), 0), 0);
    assert_eq!(count_param(Some("99999999999999999999999"), 3), 3);
}

#[test]
fn failures_map_to_http_statuses() {
    assert_eq!(status_code(ErrorKind::InvalidParameter), 400);
    assert_eq!(status_code(ErrorKind::NotFound), 404);
    for k in [
        ErrorKind::Database,
        ErrorKind::Mqtt,
        ErrorKind::Serialization,
        ErrorKind::Io,
        ErrorKind::Config,
        ErrorKind::Simulation,
        ErrorKind::Geomagnetic,
        ErrorKind::Http,
        ErrorKind::Internal,
    ] {
        assert_eq!(status_code(k), 500);
    }
}

#[test]
fn only_undelivered_alerts_are_sent_again() {
    assert_eq!(alerts_to_republish(&vec![true, false, false, true, false]), vec![1, 2, 4]);
    assert_eq!(alerts_to_republish(&vec![]), Vec::<usize>::new());
    assert_eq!(alerts_to_republish(&vec![true, true]), Vec::<usize>::new());
    let outcomes = vec![
        PublishOutcome::Delivered,
        PublishOutcome::Failed,
        PublishOutcome::Skipped,
        PublishOutcome::Delivered,
    ];
    assert_eq!(delivered_count(&outcomes), 2);
    assert_eq!(delivered_count(&vec![]), 0);
}
