use arch_stats::config::{local_db_settings, loopback_db_settings, recorder_db_settings};
use arch_stats::reading::{
    assemble_reading, new_track_id, parse_track_id, read_sensor_data,
};

#[test]
fn parses_hyphenated_id() {
    assert_eq!(
        parse_track_id("4c19ead8-9b49-4876-978c-f22b5ec5edbf"),
        Some(0x4c19ead8_9b49_4876_978c_f22b5ec5edbf)
    );
    assert_eq!(parse_track_id("not a uuid"), None);
}

#[test]
fn track_id_file_is_trimmed() {
    assert_eq!(
        parse_track_id("  4c19ead8-9b49-4876-978c-f22b5ec5edbf\n"),
        Some(0x4c19ead8_9b49_4876_978c_f22b5ec5edbf)
    );
    assert_eq!(parse_track_id("\n"), None);
}

#[test]
fn track_id_text_is_hyphenated_lowercase() {
    let (id, text) = new_track_id();
    let digits = format!("{:032x}", id);
    let expected = format!(
        "{}-{}-{}-{}-{}",
        &digits[0..8],
        &digits[8..12],
        &digits[12..16],
        &digits[16..20],
        &digits[20..32]
    );
    assert_eq!(text, expected);
    assert_eq!(text.len(), 36);
}

#[test]
fn new_track_id_is_random_version_four() {
    let (a, text) = new_track_id();
    let (b, _) = new_track_id();
    assert_ne!(a, b);
    assert_eq!((a >> 76) & 0xf, 4);
    assert_eq!((a >> 62) & 0x3, 2);
    assert_eq!(parse_track_id(&text), Some(a));
}

#[test]
fn sensor_reading_needs_every_measurement() {
    assert!(read_sensor_data(None, Some(2), Some(3), 4, true).is_none());
    let e = read_sensor_data(Some(10.0f32.to_bits()), Some(20.0f32.to_bits()), Some(30.0f32.to_bits()), 0, true)
        .unwrap();
    assert_eq!(e.id, None);
    assert_eq!(f32::from_bits(e.x_coordinate), 10.0);
    assert_eq!(f32::from_bits(e.y_coordinate), 20.0);
    assert_eq!(f32::from_bits(e.pull_length), 30.0);
    assert!(e.arrow_landing_time.is_some());
    assert_eq!((e.arrow_id >> 76) & 0xf, 4);
    assert!(e.arrow_engage_time.unwrap() > 0);
}

#[test]
fn arrow_in_flight_has_no_landing_time() {
    let e = read_sensor_data(Some(1), Some(2), Some(3), 4, false).unwrap();
    assert_eq!(e.arrow_landing_time, None);
    assert!(e.arrow_disengage_time.is_some());
}

#[test]
fn written_track_id_reads_back() {
    let (id, text) = new_track_id();
    assert_eq!(parse_track_id(&text), Some(id));
    assert_eq!(parse_track_id(&format!("{}\n", text)), Some(id));
}

#[test]
fn assembly_keeps_absent_landing() {
    let e = assemble_reading(Some(9), Some(1), Some(2), None, Some(3), Some(4), Some(5), 6).unwrap();
    assert_eq!(e.arrow_landing_time, None);
    assert_eq!((e.arrow_id, e.x_coordinate, e.y_coordinate, e.pull_length, e.distance), (9, 3, 4, 5, 6));
    assert!(assemble_reading(Some(9), None, Some(2), None, Some(3), Some(4), Some(5), 6).is_none());
}

#[test]
fn local_settings_text() {
    assert_eq!(local_db_settings("archer", false), "host=/var/run/postgresql");
    assert_eq!(
        local_db_settings("archer", true),
        "host=/var/run/postgresql dbname=archer user=archer"
    );
}

#[test]
fn recorder_settings_text() {
    assert_eq!(
        recorder_db_settings(Some("db"), Some("5432"), Some("u"), Some("pw")),
        "postgres://u:pw@db:5432/u"
    );
    assert_eq!(
        recorder_db_settings(Some("db"), None, Some("u"), Some("pw")),
        "host=/var/run/postgresql"
    );
}

#[test]
fn loopback_settings_text() {
    assert_eq!(
        loopback_db_settings("u", "pw", "shots"),
        "host=localhost user=u password=pw dbname=shots"
    );
}
