//! Query-string rendering: absent fields contribute nothing, required
//! fields always appear, values are percent-encoded.
use lemonaid::Decimal;
use lemonaid::ImageDataRequest;
use lemonaid::ImageListQuery;
use lemonaid::ManeuverListQuery;
use lemonaid::ObservationQuery;
use lemonaid::SatelliteListQuery;
use lemonaid::WeatherQuery;
use lemonaid::render_query;

fn dec(text: &str) -> Decimal {
    Decimal::new(text.to_string())
}

fn empty_satellite_query() -> SatelliteListQuery {
    SatelliteListQuery {
        ids: None,
        search: None,
        country: None,
        object_type: None,
        include_decayed: None,
        sort_by: None,
        sort_order: None,
        offset: None,
        limit: None,
    }
}

#[test]
fn all_absent_satellite_query_renders_empty() {
    let q = empty_satellite_query();
    assert_eq!(render_query(&q.to_query_params()), "");
}

#[test]
fn all_absent_image_query_renders_empty() {
    let q = ImageListQuery { offset: None, limit: None, status: None };
    assert_eq!(render_query(&q.to_query_params()), "");
}

#[test]
fn all_absent_image_data_request_renders_empty() {
    let q = ImageDataRequest { binning: None, contrast: None };
    assert_eq!(render_query(&q.to_query_params()), "");
}

#[test]
fn all_absent_maneuver_query_renders_empty() {
    let q = ManeuverListQuery {
        satellite_id: None,
        status: None,
        start: None,
        end: None,
        offset: None,
        limit: None,
    };
    assert_eq!(render_query(&q.to_query_params()), "");
}

#[test]
fn all_absent_observation_query_renders_empty() {
    let q = ObservationQuery {
        satellite_id: None,
        telescope_id: None,
        start: None,
        end: None,
        offset: None,
        limit: None,
    };
    assert_eq!(render_query(&q.to_query_params()), "");
}

#[test]
fn present_fields_render_in_field_order() {
    let mut q = empty_satellite_query();
    q.search = Some("ISS".to_string());
    q.include_decayed = Some(false);
    q.limit = Some(5);
    assert_eq!(render_query(&q.to_query_params()), "?search=ISS&includeDecayed=false&limit=5");
}

#[test]
fn repeated_ids_render_one_parameter_each() {
    let mut q = empty_satellite_query();
    q.ids = Some(vec!["a".to_string(), "b".to_string(), "c".to_string()]);
    assert_eq!(render_query(&q.to_query_params()), "?ids=a&ids=b&ids=c");
}

#[test]
fn negative_and_extreme_offsets_render_exactly() {
    let q = ImageListQuery { offset: Some(i64::MIN), limit: Some(i64::MAX), status: None };
    assert_eq!(
        render_query(&q.to_query_params()),
        "?offset=-9223372036854775808&limit=9223372036854775807"
    );
}

#[test]
fn weather_requires_its_coordinates() {
    let q = WeatherQuery { latitude: dec("37.7749"), longitude: dec("-122.4194"), units: None };
    assert_eq!(render_query(&q.to_query_params()), "?lat=37.7749&lon=-122.4194");
    let q2 = WeatherQuery {
        latitude: dec("37.7749"),
        longitude: dec("-122.4194"),
        units: Some("metric".to_string()),
    };
    assert_eq!(render_query(&q2.to_query_params()), "?lat=37.7749&lon=-122.4194&units=metric");
}

#[test]
fn query_values_are_percent_encoded() {
    let mut q = empty_satellite_query();
    q.search = Some("a b&c=d%e?f".to_string());
    assert_eq!(render_query(&q.to_query_params()), "?search=a%20b%26c%3Dd%25e%3Ff");
}

#[test]
fn unreserved_characters_pass_through() {
    let mut q = empty_satellite_query();
    q.search = Some("AZaz09-_.~".to_string());
    assert_eq!(render_query(&q.to_query_params()), "?search=AZaz09-_.~");
}
