//! Access-window solving: when a satellite is reachable from a sensor.
use vstd::prelude::*;
use vstd::string::StringExecFns;

use crate::json::Decimal;
use crate::json::Json;
use crate::json::field_keys;
use crate::json::get_dec;
use crate::json::get_json;
use crate::json::get_opt_dec;
use crate::json::get_opt_str;
use crate::json::get_str;
use crate::json::lemma_obj_get_found;
use crate::json::obj_get;
use crate::json::obj_view;
use crate::json::opt_dec_to_json;
use crate::json::opt_str_to_json;
use crate::json::opt_vec_view;
use crate::json::push_field;
use crate::json::sget_dec;
use crate::json::sget_opt_dec;
use crate::json::sget_opt_str;
use crate::json::sget_str;

verus! {

/// The reference frame of a sensor pointing.
#[derive(Clone, Copy, PartialEq, Eq, Structural, Debug)]
pub enum SensorFrame {
    TEME,
    J2000,
}

/// The exact wire casing of each value.
pub open spec fn sensor_frame_wire(v: SensorFrame) -> Seq<char> {
    match v {
        SensorFrame::TEME => "TEME"@,
        SensorFrame::J2000 => "J2000"@,
    }
}

/// The value a wire token names, if any.
pub open spec fn sensor_frame_from_wire(s: Seq<char>) -> Option<SensorFrame> {
    if s == "TEME"@ {
        Some(SensorFrame::TEME)
    } else if s == "J2000"@ {
        Some(SensorFrame::J2000)
    } else {
        None
    }
}

impl SensorFrame {
    /// The exact wire casing of this value.
    pub fn wire_name(&self) -> (r: String)
        ensures
            r@ == sensor_frame_wire(*self),
    {
        match self {
            SensorFrame::TEME => String::from_str("TEME"),
            SensorFrame::J2000 => String::from_str("J2000"),
        }
    }

    /// Parses the exact wire casing; `None` for any other text.
    pub fn from_wire(s: &str) -> (r: Option<SensorFrame>)
        ensures
            r == sensor_frame_from_wire(s@),
    {
        let t = s.to_owned();
        if t == String::from_str("TEME") {
            Some(SensorFrame::TEME)
        } else if t == String::from_str("J2000") {
            Some(SensorFrame::J2000)
        } else {
            None
        }
    }
}

/// Encoding then decoding any value of this enumeration returns the same
/// value.
pub proof fn lemma_sensor_frame_roundtrip(v: SensorFrame)
    ensures
        sensor_frame_from_wire(sensor_frame_wire(v)) == Some(v),
{
    reveal_strlit("TEME");
    reveal_strlit("J2000");
    assert("TEME"@.len() == 4);
    assert("J2000"@.len() == 5);
}

/// A request to solve satellite access windows over a ground station.
#[derive(Clone, Debug, PartialEq)]
pub struct SatelliteAccessToGroundstationRequest {
    pub groundstation_id: String,
    pub start: String,
    pub end: String,
    pub min_elevation_deg: Decimal,
    pub min_duration_minutes: Decimal,
    pub min_frequency_mhz: Option<Decimal>,
    pub max_frequency_mhz: Option<Decimal>,
}

/// The wire keys of this record, in the order the client writes them.
pub open spec fn satellite_access_to_groundstation_request_keys() -> Seq<Seq<char>> {
    seq!["groundStationId"@, "start"@, "end"@, "minElevation"@, "minDuration"@, "minFrequencyMhz"@, "maxFrequencyMhz"@]
}

/// Decodes from an object's fields.
pub open spec fn satellite_access_to_groundstation_request_from_fields(fs: Seq<(Seq<char>, Json)>) -> Option<SatelliteAccessToGroundstationRequest> {
    if {
        &&& sget_str(fs, "groundStationId"@) is Some
        &&& sget_str(fs, "start"@) is Some
        &&& sget_str(fs, "end"@) is Some
        &&& sget_dec(fs, "minElevation"@) is Some
        &&& sget_dec(fs, "minDuration"@) is Some
        &&& sget_opt_dec(fs, "minFrequencyMhz"@) is Some
        &&& sget_opt_dec(fs, "maxFrequencyMhz"@) is Some
    } {
        Some(
            SatelliteAccessToGroundstationRequest {
                groundstation_id: sget_str(fs, "groundStationId"@).unwrap(),
                start: sget_str(fs, "start"@).unwrap(),
                end: sget_str(fs, "end"@).unwrap(),
                min_elevation_deg: sget_dec(fs, "minElevation"@).unwrap(),
                min_duration_minutes: sget_dec(fs, "minDuration"@).unwrap(),
                min_frequency_mhz: sget_opt_dec(fs, "minFrequencyMhz"@).unwrap(),
                max_frequency_mhz: sget_opt_dec(fs, "maxFrequencyMhz"@).unwrap(),
            },
        )
    } else {
        None
    }
}

/// Decodes from a JSON value.
pub open spec fn satellite_access_to_groundstation_request_from_json(j: Json) -> Option<SatelliteAccessToGroundstationRequest> {
    match j {
        Json::Obj(fields) => satellite_access_to_groundstation_request_from_fields(obj_view(fields@)),
        _ => None,
    }
}

impl SatelliteAccessToGroundstationRequest {
    /// Encodes to the wire object: exactly the keys of `satellite_access_to_groundstation_request_keys`, in
    /// order; decoding the result yields this value back.
    pub fn to_json(&self) -> (j: Json)
        ensures
            (j matches Json::Obj(fields) && field_keys(fields@) == satellite_access_to_groundstation_request_keys()),
            satellite_access_to_groundstation_request_from_json(j) == Some(*self),
    {
        let mut fields: Vec<(String, Json)> = Vec::new();
        push_field(&mut fields, "groundStationId", Json::Str(self.groundstation_id.clone()));
        push_field(&mut fields, "start", Json::Str(self.start.clone()));
        push_field(&mut fields, "end", Json::Str(self.end.clone()));
        push_field(&mut fields, "minElevation", Json::Num(self.min_elevation_deg.text.clone()));
        push_field(&mut fields, "minDuration", Json::Num(self.min_duration_minutes.text.clone()));
        push_field(&mut fields, "minFrequencyMhz", opt_dec_to_json(&self.min_frequency_mhz));
        push_field(&mut fields, "maxFrequencyMhz", opt_dec_to_json(&self.max_frequency_mhz));
        proof {
            reveal_strlit("groundStationId");
            reveal_strlit("start");
            reveal_strlit("end");
            reveal_strlit("minElevation");
            reveal_strlit("minDuration");
            reveal_strlit("minFrequencyMhz");
            reveal_strlit("maxFrequencyMhz");
            assert("groundStationId"@.len() == 15);
            assert("start"@.len() == 5);
            assert("end"@.len() == 3);
            assert("minElevation"@.len() == 12);
            assert("minDuration"@.len() == 11);
            assert("minFrequencyMhz"@.len() == 15);
            assert("maxFrequencyMhz"@.len() == 15);
            assert("groundStationId"@[0] == 'g');
            assert("minFrequencyMhz"@[0] == 'm');
            assert("maxFrequencyMhz"@[0] == 'm');
            assert("minFrequencyMhz"@[1] == 'i');
            assert("maxFrequencyMhz"@[1] == 'a');
            assert(field_keys(fields@) =~= satellite_access_to_groundstation_request_keys());
            let fs = obj_view(fields@);
            assert(fs.len() == 7);
            assert(fs[0].0 == "groundStationId"@);
            assert(fs[1].0 == "start"@);
            assert(fs[2].0 == "end"@);
            assert(fs[3].0 == "minElevation"@);
            assert(fs[4].0 == "minDuration"@);
            assert(fs[5].0 == "minFrequencyMhz"@);
            assert(fs[6].0 == "maxFrequencyMhz"@);
            lemma_obj_get_found(fs, "groundStationId"@, 0);
            lemma_obj_get_found(fs, "start"@, 1);
            lemma_obj_get_found(fs, "end"@, 2);
            lemma_obj_get_found(fs, "minElevation"@, 3);
            lemma_obj_get_found(fs, "minDuration"@, 4);
            lemma_obj_get_found(fs, "minFrequencyMhz"@, 5);
            lemma_obj_get_found(fs, "maxFrequencyMhz"@, 6);
            assert(sget_str(fs, "groundStationId"@) == Some(self.groundstation_id));
            assert(sget_str(fs, "start"@) == Some(self.start));
            assert(sget_str(fs, "end"@) == Some(self.end));
            assert(sget_dec(fs, "minElevation"@) == Some(self.min_elevation_deg));
            assert(sget_dec(fs, "minDuration"@) == Some(self.min_duration_minutes));
            assert(sget_opt_dec(fs, "minFrequencyMhz"@) == Some(self.min_frequency_mhz));
            assert(sget_opt_dec(fs, "maxFrequencyMhz"@) == Some(self.max_frequency_mhz));
            assert(satellite_access_to_groundstation_request_from_fields(fs) == Some(*self));
        }
        Json::Obj(fields)
    }

    /// Decodes from a JSON value; `None` on any shape mismatch.
    pub fn from_json(j: &Json) -> (r: Option<SatelliteAccessToGroundstationRequest>)
        ensures
            r == satellite_access_to_groundstation_request_from_json(*j),
    {
        match j {
            Json::Obj(fields) => {
                let groundstation_id = match get_str(fields, "groundStationId") {
                    Some(v) => v,
                    None => {
                        return None;
                    },
                };
                let start = match get_str(fields, "start") {
                    Some(v) => v,
                    None => {
                        return None;
                    },
                };
                let end = match get_str(fields, "end") {
                    Some(v) => v,
                    None => {
                        return None;
                    },
                };
                let min_elevation_deg = match get_dec(fields, "minElevation") {
                    Some(v) => v,
                    None => {
                        return None;
                    },
                };
                let min_duration_minutes = match get_dec(fields, "minDuration") {
                    Some(v) => v,
                    None => {
                        return None;
                    },
                };
                let min_frequency_mhz = match get_opt_dec(fields, "minFrequencyMhz") {
                    Some(v) => v,
                    None => {
                        return None;
                    },
                };
                let max_frequency_mhz = match get_opt_dec(fields, "maxFrequencyMhz") {
                    Some(v) => v,
                    None => {
                        return None;
                    },
                };
                Some(
                    SatelliteAccessToGroundstationRequest {
                        groundstation_id, start, end, min_elevation_deg, min_duration_minutes,
                        min_frequency_mhz, max_frequency_mhz,
                    },
                )
            },
            _ => None,
        }
    }
}

/// A pointing solution at one instant of an access window.
#[derive(Clone, Debug, PartialEq)]
pub struct TrackingParameters {
    pub time: String,
    pub azimuth_deg: Decimal,
    pub elevation_deg: Decimal,
    pub azimuth_rate_deg_s: Option<Decimal>,
    pub elevation_rate_deg_s: Option<Decimal>,
    pub range_km: Option<Decimal>,
    pub range_rate_km_s: Option<Decimal>,
}

/// The wire keys of this record, in the order the client writes them.
pub open spec fn tracking_parameters_keys() -> Seq<Seq<char>> {
    seq!["epoch"@, "azimuth"@, "elevation"@, "azimuthRate"@, "elevationRate"@, "range"@, "rangeRate"@]
}

/// Decodes from an object's fields.
pub open spec fn tracking_parameters_from_fields(fs: Seq<(Seq<char>, Json)>) -> Option<TrackingParameters> {
    if {
        &&& sget_str(fs, "epoch"@) is Some
        &&& sget_dec(fs, "azimuth"@) is Some
        &&& sget_dec(fs, "elevation"@) is Some
        &&& sget_opt_dec(fs, "azimuthRate"@) is Some
        &&& sget_opt_dec(fs, "elevationRate"@) is Some
        &&& sget_opt_dec(fs, "range"@) is Some
        &&& sget_opt_dec(fs, "rangeRate"@) is Some
    } {
        Some(
            TrackingParameters {
                time: sget_str(fs, "epoch"@).unwrap(),
                azimuth_deg: sget_dec(fs, "azimuth"@).unwrap(),
                elevation_deg: sget_dec(fs, "elevation"@).unwrap(),
                azimuth_rate_deg_s: sget_opt_dec(fs, "azimuthRate"@).unwrap(),
                elevation_rate_deg_s: sget_opt_dec(fs, "elevationRate"@).unwrap(),
                range_km: sget_opt_dec(fs, "range"@).unwrap(),
                range_rate_km_s: sget_opt_dec(fs, "rangeRate"@).unwrap(),
            },
        )
    } else {
        None
    }
}

/// Decodes from a JSON value.
pub open spec fn tracking_parameters_from_json(j: Json) -> Option<TrackingParameters> {
    match j {
        Json::Obj(fields) => tracking_parameters_from_fields(obj_view(fields@)),
        _ => None,
    }
}

impl TrackingParameters {
    /// Encodes to the wire object: exactly the keys of `tracking_parameters_keys`, in
    /// order; decoding the result yields this value back.
    pub fn to_json(&self) -> (j: Json)
        ensures
            (j matches Json::Obj(fields) && field_keys(fields@) == tracking_parameters_keys()),
            tracking_parameters_from_json(j) == Some(*self),
    {
        let mut fields: Vec<(String, Json)> = Vec::new();
        push_field(&mut fields, "epoch", Json::Str(self.time.clone()));
        push_field(&mut fields, "azimuth", Json::Num(self.azimuth_deg.text.clone()));
        push_field(&mut fields, "elevation", Json::Num(self.elevation_deg.text.clone()));
        push_field(&mut fields, "azimuthRate", opt_dec_to_json(&self.azimuth_rate_deg_s));
        push_field(&mut fields, "elevationRate", opt_dec_to_json(&self.elevation_rate_deg_s));
        push_field(&mut fields, "range", opt_dec_to_json(&self.range_km));
        push_field(&mut fields, "rangeRate", opt_dec_to_json(&self.range_rate_km_s));
        proof {
            reveal_strlit("epoch");
            reveal_strlit("azimuth");
            reveal_strlit("elevation");
            reveal_strlit("azimuthRate");
            reveal_strlit("elevationRate");
            reveal_strlit("range");
            reveal_strlit("rangeRate");
            assert("epoch"@.len() == 5);
            assert("azimuth"@.len() == 7);
            assert("elevation"@.len() == 9);
            assert("azimuthRate"@.len() == 11);
            assert("elevationRate"@.len() == 13);
            assert("range"@.len() == 5);
            assert("rangeRate"@.len() == 9);
            assert("epoch"@[0] == 'e');
            assert("range"@[0] == 'r');
            assert("elevation"@[0] == 'e');
            assert("rangeRate"@[0] == 'r');
            assert(field_keys(fields@) =~= tracking_parameters_keys());
            let fs = obj_view(fields@);
            assert(fs.len() == 7);
            assert(fs[0].0 == "epoch"@);
            assert(fs[1].0 == "azimuth"@);
            assert(fs[2].0 == "elevation"@);
            assert(fs[3].0 == "azimuthRate"@);
            assert(fs[4].0 == "elevationRate"@);
            assert(fs[5].0 == "range"@);
            assert(fs[6].0 == "rangeRate"@);
            lemma_obj_get_found(fs, "epoch"@, 0);
            lemma_obj_get_found(fs, "azimuth"@, 1);
            lemma_obj_get_found(fs, "elevation"@, 2);
            lemma_obj_get_found(fs, "azimuthRate"@, 3);
            lemma_obj_get_found(fs, "elevationRate"@, 4);
            lemma_obj_get_found(fs, "range"@, 5);
            lemma_obj_get_found(fs, "rangeRate"@, 6);
            assert(sget_str(fs, "epoch"@) == Some(self.time));
            assert(sget_dec(fs, "azimuth"@) == Some(self.azimuth_deg));
            assert(sget_dec(fs, "elevation"@) == Some(self.elevation_deg));
            assert(sget_opt_dec(fs, "azimuthRate"@) == Some(self.azimuth_rate_deg_s));
            assert(sget_opt_dec(fs, "elevationRate"@) == Some(self.elevation_rate_deg_s));
            assert(sget_opt_dec(fs, "range"@) == Some(self.range_km));
            assert(sget_opt_dec(fs, "rangeRate"@) == Some(self.range_rate_km_s));
            assert(tracking_parameters_from_fields(fs) == Some(*self));
        }
        Json::Obj(fields)
    }

    /// Decodes from a JSON value; `None` on any shape mismatch.
    pub fn from_json(j: &Json) -> (r: Option<TrackingParameters>)
        ensures
            r == tracking_parameters_from_json(*j),
    {
        match j {
            Json::Obj(fields) => {
                let time = match get_str(fields, "epoch") {
                    Some(v) => v,
                    None => {
                        return None;
                    },
                };
                let azimuth_deg = match get_dec(fields, "azimuth") {
                    Some(v) => v,
                    None => {
                        return None;
                    },
                };
                let elevation_deg = match get_dec(fields, "elevation") {
                    Some(v) => v,
                    None => {
                        return None;
                    },
                };
                let azimuth_rate_deg_s = match get_opt_dec(fields, "azimuthRate") {
                    Some(v) => v,
                    None => {
                        return None;
                    },
                };
                let elevation_rate_deg_s = match get_opt_dec(fields, "elevationRate") {
                    Some(v) => v,
                    None => {
                        return None;
                    },
                };
                let range_km = match get_opt_dec(fields, "range") {
                    Some(v) => v,
                    None => {
                        return None;
                    },
                };
                let range_rate_km_s = match get_opt_dec(fields, "rangeRate") {
                    Some(v) => v,
                    None => {
                        return None;
                    },
                };
                Some(
                    TrackingParameters {
                        time, azimuth_deg, elevation_deg, azimuth_rate_deg_s,
                        elevation_rate_deg_s, range_km, range_rate_km_s,
                    },
                )
            },
            _ => None,
        }
    }
}

/// One access window of a satellite over a ground station.
#[derive(Clone, Debug, PartialEq)]
pub struct HorizonAccess {
    pub satellite_id: String,
    pub satellite_name: Option<String>,
    pub groundstation_id: String,
    pub groundstation_name: Option<String>,
    pub start: TrackingParameters,
    pub end: TrackingParameters,
    pub duration_minutes: Decimal,
}

/// The wire keys of this record, in the order the client writes them.
pub open spec fn horizon_access_keys() -> Seq<Seq<char>> {
    seq!["satelliteId"@, "satelliteName"@, "groundStationId"@, "groundStationName"@, "start"@, "end"@, "duration"@]
}

/// Decodes from an object's fields.
pub open spec fn horizon_access_from_fields(fs: Seq<(Seq<char>, Json)>) -> Option<HorizonAccess> {
    if {
        &&& sget_str(fs, "satelliteId"@) is Some
        &&& sget_opt_str(fs, "satelliteName"@) is Some
        &&& sget_str(fs, "groundStationId"@) is Some
        &&& sget_opt_str(fs, "groundStationName"@) is Some
        &&& obj_get(fs, "start"@) is Some
        &&& tracking_parameters_from_json(obj_get(fs, "start"@).unwrap()) is Some
        &&& obj_get(fs, "end"@) is Some
        &&& tracking_parameters_from_json(obj_get(fs, "end"@).unwrap()) is Some
        &&& sget_dec(fs, "duration"@) is Some
    } {
        Some(
            HorizonAccess {
                satellite_id: sget_str(fs, "satelliteId"@).unwrap(),
                satellite_name: sget_opt_str(fs, "satelliteName"@).unwrap(),
                groundstation_id: sget_str(fs, "groundStationId"@).unwrap(),
                groundstation_name: sget_opt_str(fs, "groundStationName"@).unwrap(),
                start: tracking_parameters_from_json(obj_get(fs, "start"@).unwrap()).unwrap(),
                end: tracking_parameters_from_json(obj_get(fs, "end"@).unwrap()).unwrap(),
                duration_minutes: sget_dec(fs, "duration"@).unwrap(),
            },
        )
    } else {
        None
    }
}

/// Decodes from a JSON value.
pub open spec fn horizon_access_from_json(j: Json) -> Option<HorizonAccess> {
    match j {
        Json::Obj(fields) => horizon_access_from_fields(obj_view(fields@)),
        _ => None,
    }
}

impl HorizonAccess {
    /// Encodes to the wire object: exactly the keys of `horizon_access_keys`, in
    /// order; decoding the result yields this value back.
    pub fn to_json(&self) -> (j: Json)
        ensures
            (j matches Json::Obj(fields) && field_keys(fields@) == horizon_access_keys()),
            horizon_access_from_json(j) == Some(*self),
    {
        let mut fields: Vec<(String, Json)> = Vec::new();
        push_field(&mut fields, "satelliteId", Json::Str(self.satellite_id.clone()));
        push_field(&mut fields, "satelliteName", opt_str_to_json(&self.satellite_name));
        push_field(&mut fields, "groundStationId", Json::Str(self.groundstation_id.clone()));
        push_field(&mut fields, "groundStationName", opt_str_to_json(&self.groundstation_name));
        push_field(&mut fields, "start", self.start.to_json());
        push_field(&mut fields, "end", self.end.to_json());
        push_field(&mut fields, "duration", Json::Num(self.duration_minutes.text.clone()));
        proof {
            reveal_strlit("satelliteId");
            reveal_strlit("satelliteName");
            reveal_strlit("groundStationId");
            reveal_strlit("groundStationName");
            reveal_strlit("start");
            reveal_strlit("end");
            reveal_strlit("duration");
            assert("satelliteId"@.len() == 11);
            assert("satelliteName"@.len() == 13);
            assert("groundStationId"@.len() == 15);
            assert("groundStationName"@.len() == 17);
            assert("start"@.len() == 5);
            assert("end"@.len() == 3);
            assert("duration"@.len() == 8);
            assert(field_keys(fields@) =~= horizon_access_keys());
            let fs = obj_view(fields@);
            assert(fs.len() == 7);
            assert(fs[0].0 == "satelliteId"@);
            assert(fs[1].0 == "satelliteName"@);
            assert(fs[2].0 == "groundStationId"@);
            assert(fs[3].0 == "groundStationName"@);
            assert(fs[4].0 == "start"@);
            assert(fs[5].0 == "end"@);
            assert(fs[6].0 == "duration"@);
            lemma_obj_get_found(fs, "satelliteId"@, 0);
            lemma_obj_get_found(fs, "satelliteName"@, 1);
            lemma_obj_get_found(fs, "groundStationId"@, 2);
            lemma_obj_get_found(fs, "groundStationName"@, 3);
            lemma_obj_get_found(fs, "start"@, 4);
            lemma_obj_get_found(fs, "end"@, 5);
            lemma_obj_get_found(fs, "duration"@, 6);
            assert(sget_str(fs, "satelliteId"@) == Some(self.satellite_id));
            assert(sget_opt_str(fs, "satelliteName"@) == Some(self.satellite_name));
            assert(sget_str(fs, "groundStationId"@) == Some(self.groundstation_id));
            assert(sget_opt_str(fs, "groundStationName"@) == Some(self.groundstation_name));
            assert(tracking_parameters_from_json(obj_get(fs, "start"@).unwrap()) == Some(self.start));
            assert(tracking_parameters_from_json(obj_get(fs, "end"@).unwrap()) == Some(self.end));
            assert(sget_dec(fs, "duration"@) == Some(self.duration_minutes));
            assert(horizon_access_from_fields(fs) == Some(*self));
        }
        Json::Obj(fields)
    }

    /// Decodes from a JSON value; `None` on any shape mismatch.
    pub fn from_json(j: &Json) -> (r: Option<HorizonAccess>)
        ensures
            r == horizon_access_from_json(*j),
    {
        match j {
            Json::Obj(fields) => {
                let satellite_id = match get_str(fields, "satelliteId") {
                    Some(v) => v,
                    None => {
                        return None;
                    },
                };
                let satellite_name = match get_opt_str(fields, "satelliteName") {
                    Some(v) => v,
                    None => {
                        return None;
                    },
                };
                let groundstation_id = match get_str(fields, "groundStationId") {
                    Some(v) => v,
                    None => {
                        return None;
                    },
                };
                let groundstation_name = match get_opt_str(fields, "groundStationName") {
                    Some(v) => v,
                    None => {
                        return None;
                    },
                };
                let start = match get_json(fields, "start") {
                    Some(v) => match TrackingParameters::from_json(v) {
                        Some(v) => v,
                        None => {
                            return None;
                        },
                    },
                    None => {
                        return None;
                    },
                };
                let end = match get_json(fields, "end") {
                    Some(v) => match TrackingParameters::from_json(v) {
                        Some(v) => v,
                        None => {
                            return None;
                        },
                    },
                    None => {
                        return None;
                    },
                };
                let duration_minutes = match get_dec(fields, "duration") {
                    Some(v) => v,
                    None => {
                        return None;
                    },
                };
                Some(
                    HorizonAccess {
                        satellite_id, satellite_name, groundstation_id, groundstation_name,
                        start, end, duration_minutes,
                    },
                )
            },
            _ => None,
        }
    }
}

/// Decodes each element of a JSON array.
pub open spec fn horizon_accesses_from_arr(items: Seq<Json>) -> Option<Seq<HorizonAccess>>
    decreases items.len(),
{
    if items.len() == 0 {
        Some(Seq::empty())
    } else {
        match horizon_accesses_from_arr(items.drop_last()) {
            Some(init) => match horizon_access_from_json(items.last()) {
                Some(x) => Some(init + seq![x]),
                None => None,
            },
            None => None,
        }
    }
}

/// Decodes a JSON array of these records.
pub open spec fn horizon_access_vec_from_json(j: Json) -> Option<Seq<HorizonAccess>> {
    match j {
        Json::Arr(items) => horizon_accesses_from_arr(items@),
        _ => None,
    }
}

proof fn lemma_horizon_accesses_from_arr_fails(items: Seq<Json>, i: int)
    requires
        0 <= i < items.len(),
        horizon_access_from_json(items[i]) is None,
    ensures
        horizon_accesses_from_arr(items) is None,
    decreases items.len(),
{
    if items.len() > 0 {
        if i < items.len() - 1 {
            assert(items.drop_last()[i] == items[i]);
            lemma_horizon_accesses_from_arr_fails(items.drop_last(), i);
        }
    }
}

/// Decodes a JSON array of these records; `None` on any mismatch.
#[verifier::loop_isolation(false)]
pub fn horizon_accesses_from_json(j: &Json) -> (r: Option<Vec<HorizonAccess>>)
    ensures
        opt_vec_view(r) == horizon_access_vec_from_json(*j),
{
    match j {
        Json::Arr(items) => {
            let mut out: Vec<HorizonAccess> = Vec::new();
            let mut i: usize = 0;
            while i < items.len()
                invariant
                    i <= items@.len(),
                    horizon_accesses_from_arr(items@.take(i as int)) == Some(out@),
                decreases items@.len() - i,
            {
                match HorizonAccess::from_json(&items[i]) {
                    Some(x) => {
                        out.push(x);
                    },
                    None => {
                        proof {
                            lemma_horizon_accesses_from_arr_fails(items@, i as int);
                        }
                        return None;
                    },
                }
                proof {
                    let t = items@.take(i + 1);
                    assert(t.drop_last() =~= items@.take(i as int));
                    assert(t.last() == items@[i as int]);
                }
                i += 1;
            }
            proof {
                assert(items@.take(items@.len() as int) =~= items@);
            }
            Some(out)
        },
        _ => None,
    }
}

/// A request for the satellites inside a field of view.
#[derive(Clone, Debug, PartialEq)]
pub struct FOVAccessRequest {
    pub time: String,
    pub right_ascension_deg: Decimal,
    pub declination_deg: Decimal,
    pub field_of_view_deg: Decimal,
    pub sensor_latitude_deg: Decimal,
    pub sensor_longitude_deg: Decimal,
    pub sensor_altitude_km: Decimal,
    pub sensor_frame: SensorFrame,
}

/// The wire keys of this record, in the order the client writes them.
pub open spec fn fov_access_request_keys() -> Seq<Seq<char>> {
    seq!["epoch"@, "rightAscension"@, "declination"@, "fieldOfView"@, "sensorLatitude"@, "sensorLongitude"@, "sensorAltitude"@, "sensorFrame"@]
}

/// Decodes from an object's fields.
pub open spec fn fov_access_request_from_fields(fs: Seq<(Seq<char>, Json)>) -> Option<FOVAccessRequest> {
    if {
        &&& sget_str(fs, "epoch"@) is Some
        &&& sget_dec(fs, "rightAscension"@) is Some
        &&& sget_dec(fs, "declination"@) is Some
        &&& sget_dec(fs, "fieldOfView"@) is Some
        &&& sget_dec(fs, "sensorLatitude"@) is Some
        &&& sget_dec(fs, "sensorLongitude"@) is Some
        &&& sget_dec(fs, "sensorAltitude"@) is Some
        &&& sget_str(fs, "sensorFrame"@) is Some
        &&& sensor_frame_from_wire(sget_str(fs, "sensorFrame"@).unwrap()@) is Some
    } {
        Some(
            FOVAccessRequest {
                time: sget_str(fs, "epoch"@).unwrap(),
                right_ascension_deg: sget_dec(fs, "rightAscension"@).unwrap(),
                declination_deg: sget_dec(fs, "declination"@).unwrap(),
                field_of_view_deg: sget_dec(fs, "fieldOfView"@).unwrap(),
                sensor_latitude_deg: sget_dec(fs, "sensorLatitude"@).unwrap(),
                sensor_longitude_deg: sget_dec(fs, "sensorLongitude"@).unwrap(),
                sensor_altitude_km: sget_dec(fs, "sensorAltitude"@).unwrap(),
                sensor_frame: sensor_frame_from_wire(sget_str(fs, "sensorFrame"@).unwrap()@).unwrap(),
            },
        )
    } else {
        None
    }
}

/// Decodes from a JSON value.
pub open spec fn fov_access_request_from_json(j: Json) -> Option<FOVAccessRequest> {
    match j {
        Json::Obj(fields) => fov_access_request_from_fields(obj_view(fields@)),
        _ => None,
    }
}

impl FOVAccessRequest {
    /// Encodes to the wire object: exactly the keys of `fov_access_request_keys`, in
    /// order; decoding the result yields this value back.
    pub fn to_json(&self) -> (j: Json)
        ensures
            (j matches Json::Obj(fields) && field_keys(fields@) == fov_access_request_keys()),
            fov_access_request_from_json(j) == Some(*self),
    {
        let mut fields: Vec<(String, Json)> = Vec::new();
        push_field(&mut fields, "epoch", Json::Str(self.time.clone()));
        push_field(&mut fields, "rightAscension", Json::Num(self.right_ascension_deg.text.clone()));
        push_field(&mut fields, "declination", Json::Num(self.declination_deg.text.clone()));
        push_field(&mut fields, "fieldOfView", Json::Num(self.field_of_view_deg.text.clone()));
        push_field(&mut fields, "sensorLatitude", Json::Num(self.sensor_latitude_deg.text.clone()));
        push_field(&mut fields, "sensorLongitude", Json::Num(self.sensor_longitude_deg.text.clone()));
        push_field(&mut fields, "sensorAltitude", Json::Num(self.sensor_altitude_km.text.clone()));
        push_field(&mut fields, "sensorFrame", Json::Str(self.sensor_frame.wire_name()));
        proof {
            reveal_strlit("epoch");
            reveal_strlit("rightAscension");
            reveal_strlit("declination");
            reveal_strlit("fieldOfView");
            reveal_strlit("sensorLatitude");
            reveal_strlit("sensorLongitude");
            reveal_strlit("sensorAltitude");
            reveal_strlit("sensorFrame");
            assert("epoch"@.len() == 5);
            assert("rightAscension"@.len() == 14);
            assert("declination"@.len() == 11);
            assert("fieldOfView"@.len() == 11);
            assert("sensorLatitude"@.len() == 14);
            assert("sensorLongitude"@.len() == 15);
            assert("sensorAltitude"@.len() == 14);
            assert("sensorFrame"@.len() == 11);
            assert("rightAscension"@[0] == 'r');
            assert("sensorLatitude"@[0] == 's');
            assert("sensorAltitude"@[0] == 's');
            assert("sensorLatitude"@[6] == 'L');
            assert("sensorAltitude"@[6] == 'A');
            assert("declination"@[0] == 'd');
            assert("fieldOfView"@[0] == 'f');
            assert("sensorFrame"@[0] == 's');
            assert(field_keys(fields@) =~= fov_access_request_keys());
            let fs = obj_view(fields@);
            assert(fs.len() == 8);
            assert(fs[0].0 == "epoch"@);
            assert(fs[1].0 == "rightAscension"@);
            assert(fs[2].0 == "declination"@);
            assert(fs[3].0 == "fieldOfView"@);
            assert(fs[4].0 == "sensorLatitude"@);
            assert(fs[5].0 == "sensorLongitude"@);
            assert(fs[6].0 == "sensorAltitude"@);
            assert(fs[7].0 == "sensorFrame"@);
            lemma_obj_get_found(fs, "epoch"@, 0);
            lemma_obj_get_found(fs, "rightAscension"@, 1);
            lemma_obj_get_found(fs, "declination"@, 2);
            lemma_obj_get_found(fs, "fieldOfView"@, 3);
            lemma_obj_get_found(fs, "sensorLatitude"@, 4);
            lemma_obj_get_found(fs, "sensorLongitude"@, 5);
            lemma_obj_get_found(fs, "sensorAltitude"@, 6);
            lemma_obj_get_found(fs, "sensorFrame"@, 7);
            lemma_sensor_frame_roundtrip(self.sensor_frame);
            assert(sget_str(fs, "epoch"@) == Some(self.time));
            assert(sget_dec(fs, "rightAscension"@) == Some(self.right_ascension_deg));
            assert(sget_dec(fs, "declination"@) == Some(self.declination_deg));
            assert(sget_dec(fs, "fieldOfView"@) == Some(self.field_of_view_deg));
            assert(sget_dec(fs, "sensorLatitude"@) == Some(self.sensor_latitude_deg));
            assert(sget_dec(fs, "sensorLongitude"@) == Some(self.sensor_longitude_deg));
            assert(sget_dec(fs, "sensorAltitude"@) == Some(self.sensor_altitude_km));
            assert(sensor_frame_from_wire(sget_str(fs, "sensorFrame"@).unwrap()@) == Some(self.sensor_frame));
            assert(fov_access_request_from_fields(fs) == Some(*self));
        }
        Json::Obj(fields)
    }

    /// Decodes from a JSON value; `None` on any shape mismatch.
    pub fn from_json(j: &Json) -> (r: Option<FOVAccessRequest>)
        ensures
            r == fov_access_request_from_json(*j),
    {
        match j {
            Json::Obj(fields) => {
                let time = match get_str(fields, "epoch") {
                    Some(v) => v,
                    None => {
                        return None;
                    },
                };
                let right_ascension_deg = match get_dec(fields, "rightAscension") {
                    Some(v) => v,
                    None => {
                        return None;
                    },
                };
                let declination_deg = match get_dec(fields, "declination") {
                    Some(v) => v,
                    None => {
                        return None;
                    },
                };
                let field_of_view_deg = match get_dec(fields, "fieldOfView") {
                    Some(v) => v,
                    None => {
                        return None;
                    },
                };
                let sensor_latitude_deg = match get_dec(fields, "sensorLatitude") {
                    Some(v) => v,
                    None => {
                        return None;
                    },
                };
                let sensor_longitude_deg = match get_dec(fields, "sensorLongitude") {
                    Some(v) => v,
                    None => {
                        return None;
                    },
                };
                let sensor_altitude_km = match get_dec(fields, "sensorAltitude") {
                    Some(v) => v,
                    None => {
                        return None;
                    },
                };
                let sensor_frame = match get_str(fields, "sensorFrame") {
                    Some(s) => match SensorFrame::from_wire(s.as_str()) {
                        Some(v) => v,
                        None => {
                            return None;
                        },
                    },
                    None => {
                        return None;
                    },
                };
                Some(
                    FOVAccessRequest {
                        time, right_ascension_deg, declination_deg, field_of_view_deg,
                        sensor_latitude_deg, sensor_longitude_deg, sensor_altitude_km,
                        sensor_frame,
                    },
                )
            },
            _ => None,
        }
    }
}

/// One satellite found inside a field of view.
#[derive(Clone, Debug, PartialEq)]
pub struct FOVAccessResponse {
    pub satellite_id: String,
    pub satellite_name: Option<String>,
    pub right_ascension_deg: Decimal,
    pub declination_deg: Decimal,
}

/// The wire keys of this record, in the order the client writes them.
pub open spec fn fov_access_response_keys() -> Seq<Seq<char>> {
    seq!["satelliteId"@, "name"@, "rightAscension"@, "declination"@]
}

/// Decodes from an object's fields.
pub open spec fn fov_access_response_from_fields(fs: Seq<(Seq<char>, Json)>) -> Option<FOVAccessResponse> {
    if {
        &&& sget_str(fs, "satelliteId"@) is Some
        &&& sget_opt_str(fs, "name"@) is Some
        &&& sget_dec(fs, "rightAscension"@) is Some
        &&& sget_dec(fs, "declination"@) is Some
    } {
        Some(
            FOVAccessResponse {
                satellite_id: sget_str(fs, "satelliteId"@).unwrap(),
                satellite_name: sget_opt_str(fs, "name"@).unwrap(),
                right_ascension_deg: sget_dec(fs, "rightAscension"@).unwrap(),
                declination_deg: sget_dec(fs, "declination"@).unwrap(),
            },
        )
    } else {
        None
    }
}

/// Decodes from a JSON value.
pub open spec fn fov_access_response_from_json(j: Json) -> Option<FOVAccessResponse> {
    match j {
        Json::Obj(fields) => fov_access_response_from_fields(obj_view(fields@)),
        _ => None,
    }
}

impl FOVAccessResponse {
    /// Encodes to the wire object: exactly the keys of `fov_access_response_keys`, in
    /// order; decoding the result yields this value back.
    pub fn to_json(&self) -> (j: Json)
        ensures
            (j matches Json::Obj(fields) && field_keys(fields@) == fov_access_response_keys()),
            fov_access_response_from_json(j) == Some(*self),
    {
        let mut fields: Vec<(String, Json)> = Vec::new();
        push_field(&mut fields, "satelliteId", Json::Str(self.satellite_id.clone()));
        push_field(&mut fields, "name", opt_str_to_json(&self.satellite_name));
        push_field(&mut fields, "rightAscension", Json::Num(self.right_ascension_deg.text.clone()));
        push_field(&mut fields, "declination", Json::Num(self.declination_deg.text.clone()));
        proof {
            reveal_strlit("satelliteId");
            reveal_strlit("name");
            reveal_strlit("rightAscension");
            reveal_strlit("declination");
            assert("satelliteId"@.len() == 11);
            assert("name"@.len() == 4);
            assert("rightAscension"@.len() == 14);
            assert("declination"@.len() == 11);
            assert("satelliteId"@[0] == 's');
            assert("declination"@[0] == 'd');
            assert(field_keys(fields@) =~= fov_access_response_keys());
            let fs = obj_view(fields@);
            assert(fs.len() == 4);
            assert(fs[0].0 == "satelliteId"@);
            assert(fs[1].0 == "name"@);
            assert(fs[2].0 == "rightAscension"@);
            assert(fs[3].0 == "declination"@);
            lemma_obj_get_found(fs, "satelliteId"@, 0);
            lemma_obj_get_found(fs, "name"@, 1);
            lemma_obj_get_found(fs, "rightAscension"@, 2);
            lemma_obj_get_found(fs, "declination"@, 3);
            assert(sget_str(fs, "satelliteId"@) == Some(self.satellite_id));
            assert(sget_opt_str(fs, "name"@) == Some(self.satellite_name));
            assert(sget_dec(fs, "rightAscension"@) == Some(self.right_ascension_deg));
            assert(sget_dec(fs, "declination"@) == Some(self.declination_deg));
            assert(fov_access_response_from_fields(fs) == Some(*self));
        }
        Json::Obj(fields)
    }

    /// Decodes from a JSON value; `None` on any shape mismatch.
    pub fn from_json(j: &Json) -> (r: Option<FOVAccessResponse>)
        ensures
            r == fov_access_response_from_json(*j),
    {
        match j {
            Json::Obj(fields) => {
                let satellite_id = match get_str(fields, "satelliteId") {
                    Some(v) => v,
                    None => {
                        return None;
                    },
                };
                let satellite_name = match get_opt_str(fields, "name") {
                    Some(v) => v,
                    None => {
                        return None;
                    },
                };
                let right_ascension_deg = match get_dec(fields, "rightAscension") {
                    Some(v) => v,
                    None => {
                        return None;
                    },
                };
                let declination_deg = match get_dec(fields, "declination") {
                    Some(v) => v,
                    None => {
                        return None;
                    },
                };
                Some(
                    FOVAccessResponse {
                        satellite_id, satellite_name, right_ascension_deg, declination_deg,
                    },
                )
            },
            _ => None,
        }
    }
}

/// Decodes each element of a JSON array.
pub open spec fn fov_access_responses_from_arr(items: Seq<Json>) -> Option<Seq<FOVAccessResponse>>
    decreases items.len(),
{
    if items.len() == 0 {
        Some(Seq::empty())
    } else {
        match fov_access_responses_from_arr(items.drop_last()) {
            Some(init) => match fov_access_response_from_json(items.last()) {
                Some(x) => Some(init + seq![x]),
                None => None,
            },
            None => None,
        }
    }
}

/// Decodes a JSON array of these records.
pub open spec fn fov_access_response_vec_from_json(j: Json) -> Option<Seq<FOVAccessResponse>> {
    match j {
        Json::Arr(items) => fov_access_responses_from_arr(items@),
        _ => None,
    }
}

proof fn lemma_fov_access_responses_from_arr_fails(items: Seq<Json>, i: int)
    requires
        0 <= i < items.len(),
        fov_access_response_from_json(items[i]) is None,
    ensures
        fov_access_responses_from_arr(items) is None,
    decreases items.len(),
{
    if items.len() > 0 {
        if i < items.len() - 1 {
            assert(items.drop_last()[i] == items[i]);
            lemma_fov_access_responses_from_arr_fails(items.drop_last(), i);
        }
    }
}

/// Decodes a JSON array of these records; `None` on any mismatch.
#[verifier::loop_isolation(false)]
pub fn fov_access_responses_from_json(j: &Json) -> (r: Option<Vec<FOVAccessResponse>>)
    ensures
        opt_vec_view(r) == fov_access_response_vec_from_json(*j),
{
    match j {
        Json::Arr(items) => {
            let mut out: Vec<FOVAccessResponse> = Vec::new();
            let mut i: usize = 0;
            while i < items.len()
                invariant
                    i <= items@.len(),
                    fov_access_responses_from_arr(items@.take(i as int)) == Some(out@),
                decreases items@.len() - i,
            {
                match FOVAccessResponse::from_json(&items[i]) {
                    Some(x) => {
                        out.push(x);
                    },
                    None => {
                        proof {
                            lemma_fov_access_responses_from_arr_fails(items@, i as int);
                        }
                        return None;
                    },
                }
                proof {
                    let t = items@.take(i + 1);
                    assert(t.drop_last() =~= items@.take(i as int));
                    assert(t.last() == items@[i as int]);
                }
                i += 1;
            }
            proof {
                assert(items@.take(items@.len() as int) =~= items@);
            }
            Some(out)
        },
        _ => None,
    }
}
} // verus!
