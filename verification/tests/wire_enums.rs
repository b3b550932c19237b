//! Each enumeration's wire casing, exactly, and its round trip.
use lemonaid::AlertType;
use lemonaid::CollectionRequestType;
use lemonaid::SensorFrame;
use lemonaid::TargetType;
use lemonaid::TaskStatus;

#[test]
fn task_status_wire_casing() {
    assert_eq!(TaskStatus::Pending.wire_name(), "Pending");
    assert_eq!(TaskStatus::Canceled.wire_name(), "Canceled");
    assert_eq!(TaskStatus::Scheduled.wire_name(), "Scheduled");
    assert_eq!(TaskStatus::Succeeded.wire_name(), "Succeeded");
    assert_eq!(TaskStatus::Failed.wire_name(), "Failed");
}

#[test]
fn task_status_round_trip() {
    let all = vec![
        TaskStatus::Pending,
        TaskStatus::Canceled,
        TaskStatus::Scheduled,
        TaskStatus::Succeeded,
        TaskStatus::Failed,
    ];
    for v in all {
        let wire = v.wire_name();
        assert_eq!(TaskStatus::from_wire(&wire), Some(v));
    }
}

#[test]
fn task_status_rejects_other_casings() {
    assert_eq!(TaskStatus::from_wire("PENDING"), None);
    assert_eq!(TaskStatus::from_wire("pending"), None);
    assert_eq!(TaskStatus::from_wire(""), None);
    assert_eq!(TaskStatus::from_wire("Pendin"), None);
}

#[test]
fn sensor_frame_wire_casing() {
    assert_eq!(SensorFrame::TEME.wire_name(), "TEME");
    assert_eq!(SensorFrame::J2000.wire_name(), "J2000");
    assert_eq!(SensorFrame::from_wire("TEME"), Some(SensorFrame::TEME));
    assert_eq!(SensorFrame::from_wire("J2000"), Some(SensorFrame::J2000));
    assert_eq!(SensorFrame::from_wire("teme"), None);
}

#[test]
fn alert_type_wire_is_lowercase() {
    assert_eq!(AlertType::Maneuver.wire_name(), "maneuver");
    assert_eq!(AlertType::CloseApproach.wire_name(), "closeapproach");
    assert_eq!(AlertType::Decay.wire_name(), "decay");
    assert_eq!(AlertType::Launch.wire_name(), "launch");
    assert_eq!(AlertType::Observation.wire_name(), "observation");
    assert_eq!(AlertType::from_wire("closeapproach"), Some(AlertType::CloseApproach));
    assert_eq!(AlertType::from_wire("CloseApproach"), None);
}

#[test]
fn target_type_wire_is_lowercase() {
    assert_eq!(TargetType::Satellite.wire_name(), "satellite");
    assert_eq!(TargetType::SatelliteGroup.wire_name(), "satellitegroup");
    assert_eq!(TargetType::from_wire("satellitegroup"), Some(TargetType::SatelliteGroup));
    assert_eq!(TargetType::from_wire("Satellite"), None);
}

#[test]
fn collection_request_type_wire_is_upper() {
    assert_eq!(CollectionRequestType::Track.wire_name(), "TRACK");
    assert_eq!(CollectionRequestType::Tdoa.wire_name(), "TDOA");
    assert_eq!(CollectionRequestType::from_wire("TRACK"), Some(CollectionRequestType::Track));
    assert_eq!(CollectionRequestType::from_wire("TDOA"), Some(CollectionRequestType::Tdoa));
    assert_eq!(CollectionRequestType::from_wire("Track"), None);
    assert_eq!(CollectionRequestType::from_wire("track"), None);
}
