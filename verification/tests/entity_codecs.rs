//! Entity wire codecs: exact bodies, round trips, absent optional fields,
//! and rejected shapes.
use lemonaid::Decimal;
use lemonaid::Groundstation;
use lemonaid::GroundstationCreateRequest;
use lemonaid::HorizonAccess;
use lemonaid::Json;
use lemonaid::RFCapture;
use lemonaid::RFCaptureData;
use lemonaid::RFDetection;
use lemonaid::RFPowerSpectralDensity;
use lemonaid::Task;
use lemonaid::TaskStatus;
use lemonaid::Telescope;
use lemonaid::TrackingParameters;
use lemonaid::UserPreferences;
use lemonaid::write_json;

fn dec(text: &str) -> Decimal {
    Decimal::new(text.to_string())
}

fn sample_create_request() -> GroundstationCreateRequest {
    GroundstationCreateRequest {
        name: "Test GS".to_string(),
        latitude: dec("37.7749"),
        longitude: dec("-122.4194"),
        altitude: dec("10.0"),
    }
}

#[test]
fn groundstation_create_request_exact_body() {
    let body = write_json(&sample_create_request().to_json());
    assert_eq!(
        body,
        "{\"name\":\"Test GS\",\"latitude\":37.7749,\"longitude\":-122.4194,\"altitude\":10.0}"
    );
}

#[test]
fn groundstation_round_trip() {
    let gs = Groundstation {
        id: "gs-1".to_string(),
        name: "Test GS".to_string(),
        latitude: dec("37.7749"),
        longitude: dec("-122.4194"),
        altitude: dec("10.0"),
        user_id: "u-1".to_string(),
        created_at: "2024-01-01T00:00:00Z".to_string(),
        updated_at: "2024-01-02T00:00:00Z".to_string(),
    };
    let back = Groundstation::from_json(&gs.to_json()).expect("round trip must decode");
    assert_eq!(back, gs);
}

#[test]
fn groundstation_missing_required_field_fails() {
    // No "userId" member at all.
    let j = Json::Obj(vec![
        ("id".to_string(), Json::Str("gs-1".to_string())),
        ("name".to_string(), Json::Str("GS".to_string())),
        ("latitude".to_string(), Json::Num("1".to_string())),
        ("longitude".to_string(), Json::Num("2".to_string())),
        ("altitude".to_string(), Json::Num("3".to_string())),
        ("creationEpoch".to_string(), Json::Str("t0".to_string())),
        ("updateEpoch".to_string(), Json::Str("t1".to_string())),
    ]);
    assert!(Groundstation::from_json(&j).is_none());
}

#[test]
fn groundstation_wrong_type_fails() {
    // Latitude as a string is not a number on the wire.
    let j = Json::Obj(vec![
        ("id".to_string(), Json::Str("gs-1".to_string())),
        ("name".to_string(), Json::Str("GS".to_string())),
        ("latitude".to_string(), Json::Str("37.7749".to_string())),
        ("longitude".to_string(), Json::Num("2".to_string())),
        ("altitude".to_string(), Json::Num("3".to_string())),
        ("userId".to_string(), Json::Str("u".to_string())),
        ("creationEpoch".to_string(), Json::Str("t0".to_string())),
        ("updateEpoch".to_string(), Json::Str("t1".to_string())),
    ]);
    assert!(Groundstation::from_json(&j).is_none());
}

#[test]
fn decoding_ignores_unknown_fields_and_order() {
    let j = Json::Obj(vec![
        ("updateEpoch".to_string(), Json::Str("t1".to_string())),
        ("somethingNew".to_string(), Json::Bool(true)),
        ("userId".to_string(), Json::Str("u".to_string())),
        ("name".to_string(), Json::Str("GS".to_string())),
        ("latitude".to_string(), Json::Num("1".to_string())),
        ("longitude".to_string(), Json::Num("2".to_string())),
        ("altitude".to_string(), Json::Num("3".to_string())),
        ("id".to_string(), Json::Str("gs-1".to_string())),
        ("creationEpoch".to_string(), Json::Str("t0".to_string())),
    ]);
    let gs = Groundstation::from_json(&j).expect("order and extras must not matter");
    assert_eq!(gs.id, "gs-1");
    assert_eq!(gs.latitude.text, "1");
}

fn minimal_task_fields() -> Vec<(String, Json)> {
    vec![
        ("id".to_string(), Json::Str("t-1".to_string())),
        ("type".to_string(), Json::Str("observation".to_string())),
        ("status".to_string(), Json::Str("Pending".to_string())),
        ("creationEpoch".to_string(), Json::Str("t0".to_string())),
        ("updateEpoch".to_string(), Json::Str("t1".to_string())),
        ("taskStart".to_string(), Json::Str("t2".to_string())),
        ("taskStop".to_string(), Json::Str("t3".to_string())),
        ("satelliteId".to_string(), Json::Str("sat-1".to_string())),
        ("telescopeId".to_string(), Json::Str("tel-1".to_string())),
        ("groundStationId".to_string(), Json::Str("gs-1".to_string())),
        ("priority".to_string(), Json::Num("5".to_string())),
    ]
}

#[test]
fn task_decodes_with_all_optionals_absent() {
    let j = Json::Obj(minimal_task_fields());
    let t = Task::from_json(&j).expect("absent optional fields must not fail decoding");
    assert!(matches!(t.status, TaskStatus::Pending));
    assert_eq!(t.priority, 5);
    assert_eq!(t.user_id, None);
    assert_eq!(t.username, None);
    assert_eq!(t.satellite_name, None);
    assert_eq!(t.telescope_name, None);
    assert_eq!(t.ground_station_name, None);
    assert_eq!(t.scheduled_start, None);
    assert_eq!(t.scheduled_stop, None);
    assert_eq!(t.range_km, None);
    assert_eq!(t.range_rate_km_s, None);
    assert_eq!(t.right_ascension, None);
    assert_eq!(t.right_ascension_rate, None);
    assert_eq!(t.declination, None);
    assert_eq!(t.declination_rate, None);
}

#[test]
fn task_optional_null_reads_as_absent() {
    let mut fs = minimal_task_fields();
    fs.push(("rangeKm".to_string(), Json::Null));
    fs.push(("username".to_string(), Json::Null));
    let t = Task::from_json(&Json::Obj(fs)).expect("null optionals must decode");
    assert_eq!(t.range_km, None);
    assert_eq!(t.username, None);
}

#[test]
fn task_present_optional_reads_as_present() {
    let mut fs = minimal_task_fields();
    fs.push(("rangeKm".to_string(), Json::Num("123.5".to_string())));
    let t = Task::from_json(&Json::Obj(fs)).expect("present optional must decode");
    assert_eq!(t.range_km, Some(dec("123.5")));
}

#[test]
fn task_bad_status_token_fails() {
    let mut fs = minimal_task_fields();
    fs[2] = ("status".to_string(), Json::Str("pending".to_string()));
    assert!(Task::from_json(&Json::Obj(fs)).is_none());
}

#[test]
fn task_round_trip_with_optionals() {
    let t = Task {
        id: "t-1".to_string(),
        task_type: "observation".to_string(),
        status: TaskStatus::Scheduled,
        created_at: "t0".to_string(),
        updated_at: "t1".to_string(),
        task_start: "t2".to_string(),
        task_stop: "t3".to_string(),
        user_id: Some("u-9".to_string()),
        username: None,
        satellite_id: "sat-1".to_string(),
        satellite_name: Some("ISS".to_string()),
        telescope_id: "tel-1".to_string(),
        telescope_name: None,
        ground_station_id: "gs-1".to_string(),
        ground_station_name: None,
        priority: -3,
        scheduled_start: Some("t4".to_string()),
        scheduled_stop: None,
        range_km: Some(dec("417.23")),
        range_rate_km_s: None,
        right_ascension: Some(dec("-0.5")),
        right_ascension_rate: None,
        declination: None,
        declination_rate: None,
    };
    let back = Task::from_json(&t.to_json()).expect("round trip must decode");
    assert_eq!(back, t);
}

#[test]
fn telescope_round_trip() {
    let t = Telescope {
        id: "tel-1".to_string(),
        name: "Scope".to_string(),
        groundstation_id: None,
        user_id: "u-1".to_string(),
        satellite_id: Some("sat-2".to_string()),
        created_at: "t0".to_string(),
        last_connected_at: None,
        angular_noise_arcsec: dec("1.5"),
        field_of_view_deg: dec("2.0"),
        limiting_magnitude: dec("16"),
        min_elevation_deg: dec("10"),
        max_slew_rate_deg_per_sec: dec("4"),
        home_azimuth_deg: dec("0"),
        home_elevation_deg: dec("90"),
        automated_scheduling: true,
    };
    let back = Telescope::from_json(&t.to_json()).expect("round trip must decode");
    assert_eq!(back, t);
    // Absent optionals encode as explicit nulls, as the wire contract writes.
    let text = write_json(&t.to_json());
    assert!(text.contains("\"groundStationId\":null"));
    assert!(text.contains("\"automatedScheduling\":true"));
}

#[test]
fn horizon_access_nested_round_trip() {
    let tp = |az: &str| TrackingParameters {
        time: "t0".to_string(),
        azimuth_deg: dec(az),
        elevation_deg: dec("45"),
        azimuth_rate_deg_s: None,
        elevation_rate_deg_s: None,
        range_km: Some(dec("800")),
        range_rate_km_s: None,
    };
    let h = HorizonAccess {
        satellite_id: "sat-1".to_string(),
        satellite_name: None,
        groundstation_id: "gs-1".to_string(),
        groundstation_name: Some("GS".to_string()),
        start: tp("10"),
        end: tp("250.5"),
        duration_minutes: dec("12.25"),
    };
    let back = HorizonAccess::from_json(&h.to_json()).expect("round trip must decode");
    assert_eq!(back, h);
    assert_eq!(back.start.range_km, Some(dec("800")));
    assert_eq!(back.end.azimuth_deg, dec("250.5"));
}

#[test]
fn user_preferences_empty_object_decodes_all_absent() {
    let p = UserPreferences::from_json(&Json::Obj(vec![])).expect("empty object must decode");
    assert_eq!(p.default_timezone, None);
    assert_eq!(p.default_units, None);
    assert_eq!(p.notifications_enabled, None);
    assert_eq!(p.email_notifications, None);
}

fn sample_capture_data() -> RFCaptureData {
    RFCaptureData {
        detections: vec![
            RFDetection {
                center_frequency_hz: 437_500_000,
                bandwidth_hz: 25_000,
                strength_dbm: dec("-97.5"),
                snr_db: dec("12.5"),
            },
            RFDetection {
                center_frequency_hz: 145_800_000,
                bandwidth_hz: 12_500,
                strength_dbm: dec("-101"),
                snr_db: dec("6"),
            },
        ],
        power_spectral_density: RFPowerSpectralDensity {
            frequency_hz: vec![437_000_000, 437_100_000, 437_200_000],
            power_dbm_per_hz: vec![dec("-120.5"), dec("-118"), dec("-121.75")],
        },
    }
}

#[test]
fn rf_capture_round_trip() {
    let c = RFCapture {
        id: "cap-1".to_string(),
        antenna_id: "ant-1".to_string(),
        user_id: "u-1".to_string(),
        capture_start: "t0".to_string(),
        capture_end: "t1".to_string(),
        data: sample_capture_data(),
        detection_count: 2,
        task_id: None,
        created_at: "t2".to_string(),
    };
    let back = RFCapture::from_json(&c.to_json()).expect("round trip must decode");
    assert_eq!(back, c);
    assert_eq!(back.data.detections.len(), 2);
    assert_eq!(back.data.power_spectral_density.frequency_hz, vec![
        437_000_000,
        437_100_000,
        437_200_000,
    ]);
}

#[test]
fn rf_capture_rejects_bad_detection() {
    let mut c = sample_capture_data();
    let j = RFCaptureData {
        detections: c.detections.drain(..).collect(),
        power_spectral_density: c.power_spectral_density,
    }
    .to_json();
    // Corrupt the first detection's frequency into a string.
    let text = write_json(&j).replace("437500000", "\"437500000\"");
    let v: serde_json::Value = serde_json::from_str(&text).unwrap();
    assert!(v["detections"][0]["centerFrequencyHz"].is_string());
    // The library's own decoder sees the corrupted shape through its Json model.
    let bad = RFCaptureData::from_json(&Json::Obj(vec![
        ("detections".to_string(), Json::Arr(vec![Json::Obj(vec![
            ("centerFrequencyHz".to_string(), Json::Str("437500000".to_string())),
            ("bandwidthHz".to_string(), Json::Num("25000".to_string())),
            ("strengthDbm".to_string(), Json::Num("-97.5".to_string())),
            ("snrDb".to_string(), Json::Num("12.5".to_string())),
        ])])),
        ("powerSpectralDensity".to_string(), Json::Obj(vec![
            ("frequencyHz".to_string(), Json::Arr(vec![])),
            ("powerDbmPerHz".to_string(), Json::Arr(vec![])),
        ])),
    ]));
    assert!(bad.is_none());
}

#[test]
fn integer_fields_keep_full_range() {
    let d = RFDetection {
        center_frequency_hz: i64::MAX,
        bandwidth_hz: i64::MIN,
        strength_dbm: dec("0"),
        snr_db: dec("0"),
    };
    let text = write_json(&d.to_json());
    assert!(text.contains("9223372036854775807"));
    assert!(text.contains("-9223372036854775808"));
    let back = RFDetection::from_json(&d.to_json()).expect("extreme integers must round-trip");
    assert_eq!(back, d);
}
