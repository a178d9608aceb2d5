use sinan_backend::queries::{
    acknowledge_alert_query, active_alerts_query, device_status_query, latest_sensor_data_query,
    mark_alert_published_query, sensor_data_query, simulation_results_query, SENSOR_COLUMNS,
};

const SENSOR_COLS: &str = "id, device_id, timestamp, magnetic_moment_x, magnetic_moment_y, magnetic_moment_z, magnetic_moment_magnitude, remanence, pointing_deviation, environment_temp, location_lat, location_lon, is_alert";

#[test]
fn sensor_data_query_text() {
    assert_eq!(SENSOR_COLUMNS, SENSOR_COLS);
    assert_eq!(
        sensor_data_query(None, None, None, 100, 0),
        format!("SELECT {} FROM sinan_sensor_data WHERE 1=1 ORDER BY timestamp DESC LIMIT 100 OFFSET 0", SENSOR_COLS)
    );
    assert_eq!(
        sensor_data_query(Some("HAN-001"), Some("2024-01-01T00:00:00+00:00"), Some("2024-01-02T00:00:00+00:00"), 20, 40),
        format!(
            "SELECT {} FROM sinan_sensor_data WHERE 1=1 AND device_id = 'HAN-001' AND timestamp >= '2024-01-01T00:00:00+00:00' AND timestamp <= '2024-01-02T00:00:00+00:00' ORDER BY timestamp DESC LIMIT 20 OFFSET 40",
            SENSOR_COLS
        )
    );
}

#[test]
fn latest_and_status_query_text() {
    assert_eq!(
        latest_sensor_data_query(None),
        format!("SELECT {} FROM sinan_sensor_data ORDER BY timestamp DESC LIMIT 100", SENSOR_COLS)
    );
    assert_eq!(
        latest_sensor_data_query(Some("D1")),
        format!("SELECT {} FROM sinan_sensor_data WHERE device_id = 'D1' ORDER BY timestamp DESC LIMIT 100", SENSOR_COLS)
    );
    assert_eq!(
        device_status_query("D1"),
        format!("SELECT {} FROM sinan_sensor_data WHERE device_id = 'D1' ORDER BY timestamp DESC LIMIT 1", SENSOR_COLS)
    );
}

#[test]
fn alert_query_text() {
    assert_eq!(
        active_alerts_query(50),
        "SELECT id, timestamp, device_id, alert_type, alert_level, pointing_deviation, threshold, sensor_data_id, is_acknowledged, message, mqtt_topic, mqtt_published FROM alert_events WHERE is_acknowledged = false ORDER BY timestamp DESC LIMIT 50"
    );
    let id = uuid::Uuid::parse_str("67e55044-10b1-426f-9247-bb680e5fe0c8").unwrap();
    assert_eq!(
        acknowledge_alert_query(id.as_u128()),
        "ALTER TABLE alert_events UPDATE is_acknowledged = true WHERE id = '67e55044-10b1-426f-9247-bb680e5fe0c8'"
    );
    assert_eq!(
        mark_alert_published_query(id.as_u128()),
        "ALTER TABLE alert_events UPDATE mqtt_published = true WHERE id = '67e55044-10b1-426f-9247-bb680e5fe0c8'"
    );
}

#[test]
fn simulation_results_query_text() {
    let cols = "id, timestamp, device_id, simulation_id, target_year, location_lat, location_lon, expected_azimuth, simulated_azimuth, pointing_accuracy, magnetic_moment_magnitude, remanence, temperature, friction_coefficient, demagnetization_factor, anisotropy_constant, model_parameters";
    assert_eq!(
        simulation_results_query(Some("D1"), Some("S9"), 7),
        format!("SELECT {} FROM pointing_simulation_results WHERE 1=1 AND device_id = 'D1' AND simulation_id = 'S9' ORDER BY timestamp DESC LIMIT 7", cols)
    );
    assert_eq!(
        simulation_results_query(None, Some("S9"), 100),
        format!("SELECT {} FROM pointing_simulation_results WHERE 1=1 AND simulation_id = 'S9' ORDER BY timestamp DESC LIMIT 100", cols)
    );
}
