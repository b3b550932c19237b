//! Codecs of the compound records: matrices, nested lists, and the
//! larger catalog entities.
use lemonaid::CreatePersonalAccessTokenRequest;
use lemonaid::Decimal;
use lemonaid::Elset;
use lemonaid::ImageData;
use lemonaid::Json;
use lemonaid::ODResult;
use lemonaid::PersonalAccessToken;
use lemonaid::PersonalAccessTokenListResponse;
use lemonaid::Satellite;
use lemonaid::SatelliteOverview;
use lemonaid::WeatherCondition;
use lemonaid::write_json;

fn dec(text: &str) -> Decimal {
    Decimal::new(text.to_string())
}

#[test]
fn image_data_matrix_round_trip() {
    let d = ImageData {
        upload_id: "up-1".to_string(),
        width: 2,
        height: 2,
        data: vec![vec![dec("0.5"), dec("1.5")], vec![dec("-2"), dec("3e4")]],
        min_value: dec("-2"),
        max_value: dec("30000"),
    };
    let j = d.to_json();
    assert_eq!(
        write_json(&j),
        "{\"uploadId\":\"up-1\",\"width\":2,\"height\":2,\"data\":[[0.5,1.5],[-2,3e4]],\"minValue\":-2,\"maxValue\":30000}"
    );
    let back = ImageData::from_json(&j).expect("matrix must round-trip");
    assert_eq!(back, d);
}

#[test]
fn od_result_round_trip_with_covariance() {
    let r = ODResult {
        epoch: "t0".to_string(),
        semi_major_axis_km: dec("6786.2"),
        eccentricity: dec("0.0003"),
        inclination_deg: dec("51.64"),
        raan_deg: dec("120.0"),
        argument_of_perigee_deg: dec("45"),
        mean_anomaly_deg: dec("10"),
        position_eci_km: vec![dec("1"), dec("2"), dec("3")],
        velocity_eci_km_s: vec![dec("4"), dec("5"), dec("6")],
        rms_residual_arcsec: Some(dec("0.8")),
        covariance: Some(vec![vec![dec("1"), dec("0")], vec![dec("0"), dec("1")]]),
    };
    let back = ODResult::from_json(&r.to_json()).expect("solved orbit must round-trip");
    assert_eq!(back, r);
}

#[test]
fn od_result_rejects_short_state_vector() {
    let r = ODResult {
        epoch: "t0".to_string(),
        semi_major_axis_km: dec("7000"),
        eccentricity: dec("0"),
        inclination_deg: dec("0"),
        raan_deg: dec("0"),
        argument_of_perigee_deg: dec("0"),
        mean_anomaly_deg: dec("0"),
        position_eci_km: vec![dec("1"), dec("2"), dec("3")],
        velocity_eci_km_s: vec![dec("4"), dec("5"), dec("6")],
        rms_residual_arcsec: None,
        covariance: None,
    };
    // Rewrite the position into a two-component vector.
    let j = r.to_json();
    let text = write_json(&j).replace("\"positionEciKm\":[1,2,3]", "\"positionEciKm\":[1,2]");
    assert!(text.contains("[1,2]"));
    let short = Json::Obj(match r.to_json() {
        Json::Obj(mut fields) => {
            fields[7].1 = Json::Arr(vec![Json::Num("1".to_string()), Json::Num("2".to_string())]);
            fields
        },
        _ => unreachable!(),
    });
    assert!(ODResult::from_json(&short).is_none());
}

fn token(id: &str) -> PersonalAccessToken {
    PersonalAccessToken {
        id: id.to_string(),
        name: "ci".to_string(),
        user_id: None,
        scopes: Some(vec!["read".to_string(), "write".to_string()]),
        expires_at: None,
        created: None,
        created_at: Some("t0".to_string()),
        last_used_at: None,
    }
}

#[test]
fn token_list_round_trip() {
    let list = PersonalAccessTokenListResponse { tokens: vec![token("a"), token("b")] };
    let back = PersonalAccessTokenListResponse::from_json(&list.to_json())
        .expect("token list must round-trip");
    assert_eq!(back, list);
    assert_eq!(back.tokens[1].id, "b");
}

#[test]
fn create_token_request_scopes_are_optional() {
    let req = CreatePersonalAccessTokenRequest {
        name: "ci".to_string(),
        scopes: None,
        expires_in_days: Some(30),
    };
    let text = write_json(&req.to_json());
    assert_eq!(text, "{\"name\":\"ci\",\"scopes\":null,\"expiresInDays\":30}");
    let back = CreatePersonalAccessTokenRequest::from_json(&req.to_json()).unwrap();
    assert_eq!(back, req);
}

#[test]
fn elset_round_trip() {
    let e = Elset {
        id: "e-1".to_string(),
        satellite_id: "sat-1".to_string(),
        satellite_name: None,
        user_id: None,
        user_group_id: None,
        user_group_name: None,
        username: None,
        user_tier: None,
        review_status: None,
        epoch: "t0".to_string(),
        elset_type: Some("gp".to_string()),
        mean_motion: dec("15.5"),
        eccentricity: dec("0.0001"),
        inclination: dec("51.6"),
        raan: dec("247.46"),
        argument_of_perigee: dec("130.5"),
        mean_anomaly: dec("325.0"),
        bstar: Some(dec("0.000021")),
        mean_motion_dot: None,
        mean_motion_dot_dot: None,
        ballistic_coefficient: None,
        srp_coefficient: None,
        rms: None,
        tle: Some(vec!["line1".to_string(), "line2".to_string()]),
        semi_major_axis: None,
        norad_id: Some(25544),
        element_set_no: Some(999),
        rev_at_epoch: Some(12345),
        period_minutes: None,
        apogee_km: None,
        perigee_km: None,
        source: Some("catalog".to_string()),
        is_xp: Some(false),
        rejected: None,
        created_at: None,
    };
    let back = Elset::from_json(&e.to_json()).expect("element set must round-trip");
    assert_eq!(back, e);
    let text = write_json(&e.to_json());
    assert!(text.contains("\"bStar\":0.000021"));
    assert!(text.contains("\"tle\":[\"line1\",\"line2\"]"));
}

#[test]
fn satellite_decode_with_sparse_fields() {
    let j = Json::Obj(vec![
        ("id".to_string(), Json::Str("sat-1".to_string())),
        ("name".to_string(), Json::Str("ISS (ZARYA)".to_string())),
        ("noradCatId".to_string(), Json::Num("25544".to_string())),
        ("inclinationDeg".to_string(), Json::Num("51.64".to_string())),
    ]);
    let s = Satellite::from_json(&j).expect("sparse satellite must decode");
    assert_eq!(s.id, "sat-1");
    assert_eq!(s.norad_id, Some(25544));
    assert_eq!(s.inclination_deg, Some(dec("51.64")));
    assert_eq!(s.launch_date, None);
    assert_eq!(s.country_code, None);
}

#[test]
fn overview_counts_default_to_zero_when_absent() {
    let j = Json::Obj(vec![(
        "activeSatelliteCount".to_string(),
        Json::Num("12000".to_string()),
    )]);
    let o = SatelliteOverview::from_json(&j).expect("defaulted counts must decode");
    assert_eq!(o.active_satellite_count, 12000);
    assert_eq!(o.decayed_satellite_count, 0);
    assert_eq!(o.antenna_count, 0);
    assert_eq!(o.telescope_count, 0);
    // A null count is not a defaulted count: the field was present and bad.
    let bad = Json::Obj(vec![("antennaCount".to_string(), Json::Null)]);
    assert!(SatelliteOverview::from_json(&bad).is_none());
}

#[test]
fn weather_condition_all_optional() {
    let c = WeatherCondition::from_json(&Json::Obj(vec![])).expect("empty condition decodes");
    assert_eq!(c.id, None);
    assert_eq!(c.main, None);
    let c2 = WeatherCondition::from_json(&Json::Obj(vec![
        ("id".to_string(), Json::Num("800".to_string())),
        ("main".to_string(), Json::Str("Clear".to_string())),
    ]))
    .unwrap();
    assert_eq!(c2.id, Some(800));
    assert_eq!(c2.main, Some("Clear".to_string()));
}
