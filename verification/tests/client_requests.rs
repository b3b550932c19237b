//! The request each client operation describes: method, exact URL, the
//! bearer header, and the body framing.
use lemonaid::CitraClient;
use lemonaid::Decimal;
use lemonaid::Groundstation;
use lemonaid::GroundstationCreateRequest;
use lemonaid::Json;
use lemonaid::Method;
use lemonaid::TaskStatus;
use lemonaid::TaskUpdateRequest;
use lemonaid::first_of;
use lemonaid::groundstations_from_list_response;
use lemonaid::write_json;

fn dec(text: &str) -> Decimal {
    Decimal::new(text.to_string())
}

fn client() -> CitraClient {
    CitraClient::new("test-api-key", false)
}

#[test]
fn base_url_follows_environment() {
    let prod = CitraClient::new("k", false);
    let dev = CitraClient::new("k", true);
    assert_eq!(prod.get_telescope_request("t1").url, "https://api.citra.space/telescopes/t1");
    assert_eq!(dev.get_telescope_request("t1").url, "https://dev.api.citra.space/telescopes/t1");
}

#[test]
fn every_request_carries_the_bearer_header() {
    let c = client();
    let r = c.list_telescopes_request();
    assert_eq!(r.auth, "Bearer test-api-key");
    assert!(matches!(r.method, Method::Get));
    assert!(r.body.is_none());
}

#[test]
fn get_and_list_urls_are_exact() {
    let c = CitraClient::new("k", true);
    assert_eq!(c.list_telescopes_request().url, "https://dev.api.citra.space/telescopes");
    assert_eq!(
        c.get_groundstation_request("g9").url,
        "https://dev.api.citra.space/ground-stations/g9"
    );
    assert_eq!(c.list_groundstations_request().url, "https://dev.api.citra.space/ground-stations");
    assert_eq!(c.list_antennas_request().url, "https://dev.api.citra.space/antennas");
    assert_eq!(c.get_antenna_request("a1").url, "https://dev.api.citra.space/antennas/a1");
    assert_eq!(
        c.list_tasks_for_telescope_request("t1").url,
        "https://dev.api.citra.space/telescopes/t1/tasks"
    );
    assert_eq!(
        c.list_tasks_for_antenna_request("a1").url,
        "https://dev.api.citra.space/antennas/a1/tasks"
    );
    assert_eq!(
        c.get_rf_capture_request("c1").url,
        "https://dev.api.citra.space/rf-captures/c1"
    );
    assert_eq!(
        c.list_rf_captures_for_antenna_request("a1").url,
        "https://dev.api.citra.space/antennas/a1/rf-captures"
    );
    assert_eq!(
        c.list_rf_captures_for_task_request("t1").url,
        "https://dev.api.citra.space/tasks/t1/rf-captures"
    );
    assert_eq!(
        c.solve_access_for_groundstation_request(&access_request()).url,
        "https://dev.api.citra.space/access/window/satellites_to_ground_station"
    );
}

fn access_request() -> lemonaid::SatelliteAccessToGroundstationRequest {
    lemonaid::SatelliteAccessToGroundstationRequest {
        groundstation_id: "gs-1".to_string(),
        start: "t0".to_string(),
        end: "t1".to_string(),
        min_elevation_deg: dec("10"),
        min_duration_minutes: dec("1.5"),
        min_frequency_mhz: None,
        max_frequency_mhz: None,
    }
}

#[test]
fn status_filter_renders_one_parameter_per_status_in_order() {
    let c = CitraClient::new("k", true);
    let r = c.get_telescope_tasks_by_status_request(
        "tel-1",
        &vec![TaskStatus::Pending, TaskStatus::Failed, TaskStatus::Scheduled],
    );
    assert_eq!(
        r.url,
        "https://dev.api.citra.space/telescopes/tel-1/tasks?statuses=Pending&statuses=Failed&statuses=Scheduled"
    );
    let one = c.get_antenna_tasks_by_status_request("ant-1", &vec![TaskStatus::Pending]);
    assert_eq!(one.url, "https://dev.api.citra.space/antennas/ant-1/tasks?statuses=Pending");
}

#[test]
fn empty_status_filter_renders_no_query_string() {
    let c = CitraClient::new("k", true);
    let r = c.get_telescope_tasks_by_status_request("tel-1", &vec![]);
    assert_eq!(r.url, "https://dev.api.citra.space/telescopes/tel-1/tasks");
}

#[test]
fn create_groundstation_wraps_body_in_single_element_array() {
    let c = client();
    let r = c.create_groundstation_request(&GroundstationCreateRequest {
        name: "Test GS".to_string(),
        latitude: dec("37.7749"),
        longitude: dec("-122.4194"),
        altitude: dec("10.0"),
    });
    assert!(matches!(r.method, Method::Post));
    assert_eq!(r.url, "https://api.citra.space/ground-stations");
    let body = write_json(&r.body.expect("create sends a body"));
    assert_eq!(
        body,
        "[{\"name\":\"Test GS\",\"latitude\":37.7749,\"longitude\":-122.4194,\"altitude\":10.0}]"
    );
}

#[test]
fn delete_sends_single_element_array_of_ids() {
    let c = client();
    let r = c.delete_telescope_request("tel-7");
    assert!(matches!(r.method, Method::Delete));
    assert_eq!(r.url, "https://api.citra.space/telescopes");
    assert_eq!(write_json(&r.body.expect("delete sends a body")), "[\"tel-7\"]");
}

#[test]
fn update_task_addresses_the_tasks_own_id() {
    let c = CitraClient::new("k", true);
    let r = c.update_task_request(&TaskUpdateRequest {
        id: "task-3".to_string(),
        status: TaskStatus::Canceled,
        priority: Some(7),
        scheduled_start: None,
        scheduled_stop: None,
    });
    assert!(matches!(r.method, Method::Put));
    assert_eq!(r.url, "https://dev.api.citra.space/tasks/task-3");
    let body = write_json(&r.body.expect("update sends a body"));
    assert_eq!(
        body,
        "{\"id\":\"task-3\",\"status\":\"Canceled\",\"priority\":7,\"scheduledStart\":null,\"scheduledStop\":null}"
    );
}

fn groundstation_json(id: &str, name: &str) -> Json {
    Json::Obj(vec![
        ("id".to_string(), Json::Str(id.to_string())),
        ("name".to_string(), Json::Str(name.to_string())),
        ("latitude".to_string(), Json::Num("37.7749".to_string())),
        ("longitude".to_string(), Json::Num("-122.4194".to_string())),
        ("altitude".to_string(), Json::Num("10.0".to_string())),
        ("userId".to_string(), Json::Str("u-1".to_string())),
        ("creationEpoch".to_string(), Json::Str("t0".to_string())),
        ("updateEpoch".to_string(), Json::Str("t0".to_string())),
    ])
}

#[test]
fn batch_of_one_response_unwraps_to_the_single_element() {
    // A create responds with a one-element array; the shim hands back
    // exactly that element.
    let reply = Json::Arr(vec![groundstation_json("gs-42", "Test GS")]);
    let list = lemonaid::entities::groundstation::groundstations_from_json(&reply)
        .expect("the reply decodes");
    assert_eq!(list.len(), 1);
    let gs = first_of(list);
    assert_eq!(gs.id, "gs-42");
    assert_eq!(gs.name, "Test GS");
}

#[test]
fn groundstation_create_scenario_round_trip() {
    // Create with fixed values, then read the server's echo back: the
    // fields survive unchanged and the id arrives non-empty.
    let c = client();
    let req = GroundstationCreateRequest {
        name: "Test GS".to_string(),
        latitude: dec("37.7749"),
        longitude: dec("-122.4194"),
        altitude: dec("10.0"),
    };
    let out = c.create_groundstation_request(&req);
    assert!(write_json(&out.body.unwrap()).contains("\"name\":\"Test GS\""));
    let created = Groundstation::from_json(&groundstation_json("gs-42", "Test GS")).unwrap();
    assert!(!created.id.is_empty());
    assert_eq!(created.name, req.name);
    assert_eq!(created.latitude, req.latitude);
    assert_eq!(created.longitude, req.longitude);
    assert_eq!(created.altitude, req.altitude);
    // A follow-up get by the returned id addresses that very resource.
    let get = c.get_groundstation_request(&created.id);
    assert_eq!(get.url, "https://api.citra.space/ground-stations/gs-42");
    let fetched = Groundstation::from_json(&groundstation_json("gs-42", "Test GS")).unwrap();
    assert_eq!(fetched.id, created.id);
}

#[test]
fn groundstation_list_response_unnests() {
    let reply = Json::Obj(vec![(
        "groundStations".to_string(),
        Json::Arr(vec![groundstation_json("g1", "A"), groundstation_json("g2", "B")]),
    )]);
    let list = groundstations_from_list_response(&reply).expect("nested list decodes");
    assert_eq!(list.len(), 2);
    assert_eq!(list[0].id, "g1");
    assert_eq!(list[1].id, "g2");
    let bad = Json::Obj(vec![]);
    assert!(groundstations_from_list_response(&bad).is_none());
}

#[test]
fn first_of_returns_the_head() {
    let v = vec![10u64, 20, 30];
    assert_eq!(first_of(v), 10);
}
