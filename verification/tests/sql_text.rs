use spindle_backend::api::{
    alerts_query, latest_query, sensor_data_query, spindle_list_query, vibration_analysis_query,
    yarn_quality_query,
};
use spindle_backend::ch_writer::{
    alert_insert_sql, query_url, sensor_data_insert_sql, urlencoding,
    vibration_analysis_insert_sql, yarn_quality_insert_sql,
};
use spindle_backend::sql::{escape_single_quotes, insert_statement, join_with_commas, quote};

#[test]
fn urlencoding_replaces_space_quote_and_newline() {
    assert_eq!(
        urlencoding("SELECT * FROM t WHERE a = 'x'\nLIMIT 1"),
        "SELECT+*+FROM+t+WHERE+a+=+%27x%27%0ALIMIT+1"
    );
}

#[test]
fn urlencoding_keeps_other_characters() {
    assert_eq!(urlencoding(""), "");
    assert_eq!(urlencoding("a+b%27,é"), "a+b%27,é");
}

#[test]
fn urlencoding_output_has_no_reserved_characters() {
    let out = urlencoding("it's a\ntest ' \n ");
    assert!(!out.contains(' '));
    assert!(!out.contains('\''));
    assert!(!out.contains('\n'));
    assert_eq!(out, "it%27s+a%0Atest+%27+%0A+");
}

#[test]
fn query_url_joins_base_and_encoded_statement() {
    assert_eq!(
        query_url("http://localhost:8123", "SELECT 1 FORMAT JSON"),
        "http://localhost:8123/?query=SELECT+1+FORMAT+JSON"
    );
}

#[test]
fn sensor_data_query_without_spindle_uses_default_limit() {
    assert_eq!(
        sensor_data_query(None, None),
        "SELECT * FROM spindle_system.spindle_sensor_data ORDER BY timestamp DESC LIMIT 100 FORMAT JSON"
    );
}

#[test]
fn sensor_data_query_with_spindle_and_limit() {
    assert_eq!(
        sensor_data_query(Some("S-07"), Some("20")),
        "SELECT * FROM spindle_system.spindle_sensor_data WHERE spindle_id = 'S-07' ORDER BY timestamp DESC LIMIT 20 FORMAT JSON"
    );
}

#[test]
fn empty_spindle_id_means_no_filter() {
    assert_eq!(
        vibration_analysis_query(Some(""), Some("5")),
        "SELECT * FROM spindle_system.vibration_analysis ORDER BY timestamp DESC LIMIT 5 FORMAT JSON"
    );
}

#[test]
fn yarn_quality_query_with_spindle() {
    assert_eq!(
        yarn_quality_query(Some("A1"), None),
        "SELECT * FROM spindle_system.yarn_quality WHERE spindle_id = 'A1' ORDER BY timestamp DESC LIMIT 100 FORMAT JSON"
    );
}

#[test]
fn alerts_query_ignores_spindles() {
    assert_eq!(
        alerts_query(Some("7")),
        "SELECT * FROM spindle_system.alerts ORDER BY timestamp DESC LIMIT 7 FORMAT JSON"
    );
    assert_eq!(
        alerts_query(None),
        "SELECT * FROM spindle_system.alerts ORDER BY timestamp DESC LIMIT 100 FORMAT JSON"
    );
}

#[test]
fn spindle_list_query_text() {
    assert_eq!(
        spindle_list_query(),
        "SELECT DISTINCT spindle_id FROM spindle_system.spindle_sensor_data ORDER BY spindle_id FORMAT JSON"
    );
}

#[test]
fn latest_query_text() {
    assert_eq!(
        latest_query("S1"),
        "SELECT s.*, v.*, y.* FROM spindle_system.spindle_sensor_data s LEFT JOIN spindle_system.vibration_analysis v ON s.spindle_id = v.spindle_id AND s.timestamp = v.timestamp LEFT JOIN spindle_system.yarn_quality y ON s.spindle_id = y.spindle_id AND s.timestamp = y.timestamp WHERE s.spindle_id = 'S1' ORDER BY s.timestamp DESC LIMIT 1 FORMAT JSON"
    );
}

#[test]
fn quote_and_join() {
    assert_eq!(quote("ab"), "'ab'");
    assert_eq!(quote(""), "''");
    assert_eq!(join_with_commas(&vec![]), "");
    assert_eq!(join_with_commas(&vec!["1".to_string()]), "1");
    assert_eq!(
        join_with_commas(&vec!["1".to_string(), "'x'".to_string(), "2.5".to_string()]),
        "1, 'x', 2.5"
    );
}

#[test]
fn insert_statement_layout() {
    assert_eq!(
        insert_statement("db.t", "a, b", &vec!["'x'".to_string(), "3".to_string()]),
        "INSERT INTO db.t (a, b) VALUES ('x', 3)"
    );
}

#[test]
fn escape_single_quotes_adds_backslashes() {
    assert_eq!(escape_single_quotes("it's 'hot'"), "it\\'s \\'hot\\'");
    assert_eq!(escape_single_quotes("plain"), "plain");
    assert_eq!(escape_single_quotes(""), "");
}

#[test]
fn escaped_message_unescapes_to_itself() {
    let message = "a'b\\c''";
    let escaped = escape_single_quotes(message);
    assert_eq!(escaped.replace("\\'", "'"), message);
}

#[test]
fn sensor_data_insert_matches_template() {
    assert_eq!(
        sensor_data_insert_sql("2024-01-01T00:00:00+00:00", "S1", "12000", "0.35", "45.5", "820"),
        "INSERT INTO spindle_system.spindle_sensor_data (timestamp, spindle_id, rpm, vibration_amplitude, temperature, twist_per_meter) VALUES ('2024-01-01T00:00:00+00:00', 'S1', 12000, 0.35, 45.5, 820)"
    );
}

#[test]
fn vibration_analysis_insert_matches_template() {
    assert_eq!(
        vibration_analysis_insert_sql(
            "T", "S2", "1", "2", "3", "4", "5", "6", "7", "8", "9", "10", "11", "12"
        ),
        "INSERT INTO spindle_system.vibration_analysis (timestamp, spindle_id, critical_rpm, unbalance_response, oil_film_stiffness_x, oil_film_stiffness_y, oil_film_damping_x, oil_film_damping_y, whirl_ratio, eccentricity_ratio, vibration_x, vibration_y, total_displacement, phase_angle) VALUES ('T', 'S2', 1, 2, 3, 4, 5, 6, 7, 8, 9, 10, 11, 12)"
    );
}

#[test]
fn yarn_quality_insert_matches_template() {
    assert_eq!(
        yarn_quality_insert_sql("T", "S3", "94.2", "14.1", "0.025", "0.5"),
        "INSERT INTO spindle_system.yarn_quality (timestamp, spindle_id, predicted_uniformity, predicted_strength, twist_variance, vibration_impact_factor) VALUES ('T', 'S3', 94.2, 14.1, 0.025, 0.5)"
    );
}

#[test]
fn alert_insert_escapes_only_the_message() {
    assert_eq!(
        alert_insert_sql("T", "S'4", "temperature_high", "critical", "it's 85°C", "85", "80"),
        "INSERT INTO spindle_system.alerts (timestamp, spindle_id, alert_type, severity, message, value, threshold) VALUES ('T', 'S'4', 'temperature_high', 'critical', 'it\\'s 85°C', 85, 80)"
    );
}

#[test]
fn request_url_of_a_multiline_statement_is_safe() {
    let url = query_url("http://ch:8123", "INSERT INTO t VALUES ('a b',\n'c')");
    assert_eq!(url, "http://ch:8123/?query=INSERT+INTO+t+VALUES+(%27a+b%27,%0A%27c%27)");
    assert!(!url.contains(' ') && !url.contains('\'') && !url.contains('\n'));
}
