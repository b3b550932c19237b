//! Optical observations of satellites.
use vstd::prelude::*;
use vstd::string::StringExecFns;

use crate::json::Decimal;
use crate::json::Json;
use crate::json::field_keys;
use crate::json::get_dec;
use crate::json::get_i64;
use crate::json::get_opt_dec;
use crate::json::get_opt_i64;
use crate::json::get_opt_str;
use crate::json::get_str;
use crate::json::i64_to_json;
use crate::json::lemma_obj_get_found;
use crate::json::obj_get;
use crate::json::obj_view;
use crate::json::opt_dec_to_json;
use crate::json::opt_i64_to_json;
use crate::json::opt_str_to_json;
use crate::json::opt_vec_view;
use crate::json::push_field;
use crate::json::sget_dec;
use crate::json::sget_i64;
use crate::json::sget_opt_dec;
use crate::json::sget_opt_i64;
use crate::json::sget_opt_str;
use crate::json::sget_str;

verus! {

/// One optical observation of a satellite.
#[derive(Clone, Debug, PartialEq)]
pub struct OpticalObservation {
    pub id: Option<String>,
    pub satellite_id: String,
    pub epoch: String,
    pub right_ascension_deg: Decimal,
    pub declination_deg: Decimal,
    pub right_ascension_rate: Option<Decimal>,
    pub declination_rate: Option<Decimal>,
    pub magnitude: Option<Decimal>,
    pub sensor_latitude_deg: Decimal,
    pub sensor_longitude_deg: Decimal,
    pub sensor_altitude_km: Decimal,
    pub telescope_id: Option<String>,
    pub upload_id: Option<String>,
    pub user_id: Option<String>,
    pub created_at: Option<String>,
}

/// The wire keys of this record, in the order the client writes them.
pub open spec fn optical_observation_keys() -> Seq<Seq<char>> {
    seq!["id"@, "satelliteId"@, "epoch"@, "rightAscensionDeg"@, "declinationDeg"@, "rightAscensionRate"@, "declinationRate"@, "magnitude"@, "sensorLatitudeDeg"@, "sensorLongitudeDeg"@, "sensorAltitudeKm"@, "telescopeId"@, "uploadId"@, "userId"@, "creationEpoch"@]
}

/// Decodes from an object's fields.
pub open spec fn optical_observation_from_fields(fs: Seq<(Seq<char>, Json)>) -> Option<OpticalObservation> {
    if {
        &&& sget_opt_str(fs, "id"@) is Some
        &&& sget_str(fs, "satelliteId"@) is Some
        &&& sget_str(fs, "epoch"@) is Some
        &&& sget_dec(fs, "rightAscensionDeg"@) is Some
        &&& sget_dec(fs, "declinationDeg"@) is Some
        &&& sget_opt_dec(fs, "rightAscensionRate"@) is Some
        &&& sget_opt_dec(fs, "declinationRate"@) is Some
        &&& sget_opt_dec(fs, "magnitude"@) is Some
        &&& sget_dec(fs, "sensorLatitudeDeg"@) is Some
        &&& sget_dec(fs, "sensorLongitudeDeg"@) is Some
        &&& sget_dec(fs, "sensorAltitudeKm"@) is Some
        &&& sget_opt_str(fs, "telescopeId"@) is Some
        &&& sget_opt_str(fs, "uploadId"@) is Some
        &&& sget_opt_str(fs, "userId"@) is Some
        &&& sget_opt_str(fs, "creationEpoch"@) is Some
    } {
        Some(
            OpticalObservation {
                id: sget_opt_str(fs, "id"@).unwrap(),
                satellite_id: sget_str(fs, "satelliteId"@).unwrap(),
                epoch: sget_str(fs, "epoch"@).unwrap(),
                right_ascension_deg: sget_dec(fs, "rightAscensionDeg"@).unwrap(),
                declination_deg: sget_dec(fs, "declinationDeg"@).unwrap(),
                right_ascension_rate: sget_opt_dec(fs, "rightAscensionRate"@).unwrap(),
                declination_rate: sget_opt_dec(fs, "declinationRate"@).unwrap(),
                magnitude: sget_opt_dec(fs, "magnitude"@).unwrap(),
                sensor_latitude_deg: sget_dec(fs, "sensorLatitudeDeg"@).unwrap(),
                sensor_longitude_deg: sget_dec(fs, "sensorLongitudeDeg"@).unwrap(),
                sensor_altitude_km: sget_dec(fs, "sensorAltitudeKm"@).unwrap(),
                telescope_id: sget_opt_str(fs, "telescopeId"@).unwrap(),
                upload_id: sget_opt_str(fs, "uploadId"@).unwrap(),
                user_id: sget_opt_str(fs, "userId"@).unwrap(),
                created_at: sget_opt_str(fs, "creationEpoch"@).unwrap(),
            },
        )
    } else {
        None
    }
}

/// Decodes from a JSON value.
pub open spec fn optical_observation_from_json(j: Json) -> Option<OpticalObservation> {
    match j {
        Json::Obj(fields) => optical_observation_from_fields(obj_view(fields@)),
        _ => None,
    }
}

impl OpticalObservation {
    /// Encodes to the wire object: exactly the keys of `optical_observation_keys`, in
    /// order; decoding the result yields this value back.
    pub fn to_json(&self) -> (j: Json)
        ensures
            (j matches Json::Obj(fields) && field_keys(fields@) == optical_observation_keys()),
            optical_observation_from_json(j) == Some(*self),
    {
        let mut fields: Vec<(String, Json)> = Vec::new();
        push_field(&mut fields, "id", opt_str_to_json(&self.id));
        push_field(&mut fields, "satelliteId", Json::Str(self.satellite_id.clone()));
        push_field(&mut fields, "epoch", Json::Str(self.epoch.clone()));
        push_field(&mut fields, "rightAscensionDeg", Json::Num(self.right_ascension_deg.text.clone()));
        push_field(&mut fields, "declinationDeg", Json::Num(self.declination_deg.text.clone()));
        push_field(&mut fields, "rightAscensionRate", opt_dec_to_json(&self.right_ascension_rate));
        push_field(&mut fields, "declinationRate", opt_dec_to_json(&self.declination_rate));
        push_field(&mut fields, "magnitude", opt_dec_to_json(&self.magnitude));
        push_field(&mut fields, "sensorLatitudeDeg", Json::Num(self.sensor_latitude_deg.text.clone()));
        push_field(&mut fields, "sensorLongitudeDeg", Json::Num(self.sensor_longitude_deg.text.clone()));
        push_field(&mut fields, "sensorAltitudeKm", Json::Num(self.sensor_altitude_km.text.clone()));
        push_field(&mut fields, "telescopeId", opt_str_to_json(&self.telescope_id));
        push_field(&mut fields, "uploadId", opt_str_to_json(&self.upload_id));
        push_field(&mut fields, "userId", opt_str_to_json(&self.user_id));
        push_field(&mut fields, "creationEpoch", opt_str_to_json(&self.created_at));
        proof {
            reveal_strlit("id");
            reveal_strlit("satelliteId");
            reveal_strlit("epoch");
            reveal_strlit("rightAscensionDeg");
            reveal_strlit("declinationDeg");
            reveal_strlit("rightAscensionRate");
            reveal_strlit("declinationRate");
            reveal_strlit("magnitude");
            reveal_strlit("sensorLatitudeDeg");
            reveal_strlit("sensorLongitudeDeg");
            reveal_strlit("sensorAltitudeKm");
            reveal_strlit("telescopeId");
            reveal_strlit("uploadId");
            reveal_strlit("userId");
            reveal_strlit("creationEpoch");
            assert("id"@.len() == 2);
            assert("satelliteId"@.len() == 11);
            assert("epoch"@.len() == 5);
            assert("rightAscensionDeg"@.len() == 17);
            assert("declinationDeg"@.len() == 14);
            assert("rightAscensionRate"@.len() == 18);
            assert("declinationRate"@.len() == 15);
            assert("magnitude"@.len() == 9);
            assert("sensorLatitudeDeg"@.len() == 17);
            assert("sensorLongitudeDeg"@.len() == 18);
            assert("sensorAltitudeKm"@.len() == 16);
            assert("telescopeId"@.len() == 11);
            assert("uploadId"@.len() == 8);
            assert("userId"@.len() == 6);
            assert("creationEpoch"@.len() == 13);
            assert("satelliteId"@[0] == 's');
            assert("telescopeId"@[0] == 't');
            assert("rightAscensionDeg"@[0] == 'r');
            assert("sensorLatitudeDeg"@[0] == 's');
            assert("rightAscensionRate"@[0] == 'r');
            assert("sensorLongitudeDeg"@[0] == 's');
            assert(field_keys(fields@) =~= optical_observation_keys());
            let fs = obj_view(fields@);
            assert(fs.len() == 15);
            assert(fs[0].0 == "id"@);
            assert(fs[1].0 == "satelliteId"@);
            assert(fs[2].0 == "epoch"@);
            assert(fs[3].0 == "rightAscensionDeg"@);
            assert(fs[4].0 == "declinationDeg"@);
            assert(fs[5].0 == "rightAscensionRate"@);
            assert(fs[6].0 == "declinationRate"@);
            assert(fs[7].0 == "magnitude"@);
            assert(fs[8].0 == "sensorLatitudeDeg"@);
            assert(fs[9].0 == "sensorLongitudeDeg"@);
            assert(fs[10].0 == "sensorAltitudeKm"@);
            assert(fs[11].0 == "telescopeId"@);
            assert(fs[12].0 == "uploadId"@);
            assert(fs[13].0 == "userId"@);
            assert(fs[14].0 == "creationEpoch"@);
            lemma_obj_get_found(fs, "id"@, 0);
            lemma_obj_get_found(fs, "satelliteId"@, 1);
            lemma_obj_get_found(fs, "epoch"@, 2);
            lemma_obj_get_found(fs, "rightAscensionDeg"@, 3);
            lemma_obj_get_found(fs, "declinationDeg"@, 4);
            lemma_obj_get_found(fs, "rightAscensionRate"@, 5);
            lemma_obj_get_found(fs, "declinationRate"@, 6);
            lemma_obj_get_found(fs, "magnitude"@, 7);
            lemma_obj_get_found(fs, "sensorLatitudeDeg"@, 8);
            lemma_obj_get_found(fs, "sensorLongitudeDeg"@, 9);
            lemma_obj_get_found(fs, "sensorAltitudeKm"@, 10);
            lemma_obj_get_found(fs, "telescopeId"@, 11);
            lemma_obj_get_found(fs, "uploadId"@, 12);
            lemma_obj_get_found(fs, "userId"@, 13);
            lemma_obj_get_found(fs, "creationEpoch"@, 14);
            assert(sget_opt_str(fs, "id"@) == Some(self.id));
            assert(sget_str(fs, "satelliteId"@) == Some(self.satellite_id));
            assert(sget_str(fs, "epoch"@) == Some(self.epoch));
            assert(sget_dec(fs, "rightAscensionDeg"@) == Some(self.right_ascension_deg));
            assert(sget_dec(fs, "declinationDeg"@) == Some(self.declination_deg));
            assert(sget_opt_dec(fs, "rightAscensionRate"@) == Some(self.right_ascension_rate));
            assert(sget_opt_dec(fs, "declinationRate"@) == Some(self.declination_rate));
            assert(sget_opt_dec(fs, "magnitude"@) == Some(self.magnitude));
            assert(sget_dec(fs, "sensorLatitudeDeg"@) == Some(self.sensor_latitude_deg));
            assert(sget_dec(fs, "sensorLongitudeDeg"@) == Some(self.sensor_longitude_deg));
            assert(sget_dec(fs, "sensorAltitudeKm"@) == Some(self.sensor_altitude_km));
            assert(sget_opt_str(fs, "telescopeId"@) == Some(self.telescope_id));
            assert(sget_opt_str(fs, "uploadId"@) == Some(self.upload_id));
            assert(sget_opt_str(fs, "userId"@) == Some(self.user_id));
            assert(sget_opt_str(fs, "creationEpoch"@) == Some(self.created_at));
            assert(optical_observation_from_fields(fs) == Some(*self));
        }
        Json::Obj(fields)
    }

    /// Decodes from a JSON value; `None` on any shape mismatch.
    pub fn from_json(j: &Json) -> (r: Option<OpticalObservation>)
        ensures
            r == optical_observation_from_json(*j),
    {
        match j {
            Json::Obj(fields) => {
                let id = match get_opt_str(fields, "id") {
                    Some(v) => v,
                    None => {
                        return None;
                    },
                };
                let satellite_id = match get_str(fields, "satelliteId") {
                    Some(v) => v,
                    None => {
                        return None;
                    },
                };
                let epoch = match get_str(fields, "epoch") {
                    Some(v) => v,
                    None => {
                        return None;
                    },
                };
                let right_ascension_deg = match get_dec(fields, "rightAscensionDeg") {
                    Some(v) => v,
                    None => {
                        return None;
                    },
                };
                let declination_deg = match get_dec(fields, "declinationDeg") {
                    Some(v) => v,
                    None => {
                        return None;
                    },
                };
                let right_ascension_rate = match get_opt_dec(fields, "rightAscensionRate") {
                    Some(v) => v,
                    None => {
                        return None;
                    },
                };
                let declination_rate = match get_opt_dec(fields, "declinationRate") {
                    Some(v) => v,
                    None => {
                        return None;
                    },
                };
                let magnitude = match get_opt_dec(fields, "magnitude") {
                    Some(v) => v,
                    None => {
                        return None;
                    },
                };
                let sensor_latitude_deg = match get_dec(fields, "sensorLatitudeDeg") {
                    Some(v) => v,
                    None => {
                        return None;
                    },
                };
                let sensor_longitude_deg = match get_dec(fields, "sensorLongitudeDeg") {
                    Some(v) => v,
                    None => {
                        return None;
                    },
                };
                let sensor_altitude_km = match get_dec(fields, "sensorAltitudeKm") {
                    Some(v) => v,
                    None => {
                        return None;
                    },
                };
                let telescope_id = match get_opt_str(fields, "telescopeId") {
                    Some(v) => v,
                    None => {
                        return None;
                    },
                };
                let upload_id = match get_opt_str(fields, "uploadId") {
                    Some(v) => v,
                    None => {
                        return None;
                    },
                };
                let user_id = match get_opt_str(fields, "userId") {
                    Some(v) => v,
                    None => {
                        return None;
                    },
                };
                let created_at = match get_opt_str(fields, "creationEpoch") {
                    Some(v) => v,
                    None => {
                        return None;
                    },
                };
                Some(
                    OpticalObservation {
                        id, satellite_id, epoch, right_ascension_deg, declination_deg,
                        right_ascension_rate, declination_rate, magnitude, sensor_latitude_deg,
                        sensor_longitude_deg, sensor_altitude_km, telescope_id, upload_id,
                        user_id, created_at,
                    },
                )
            },
            _ => None,
        }
    }
}

/// The caller-settable fields of a new optical observation.
#[derive(Clone, Debug, PartialEq)]
pub struct CreateOpticalObservationRequest {
    pub satellite_id: String,
    pub epoch: String,
    pub right_ascension_deg: Decimal,
    pub declination_deg: Decimal,
    pub right_ascension_rate: Option<Decimal>,
    pub declination_rate: Option<Decimal>,
    pub magnitude: Option<Decimal>,
    pub sensor_latitude_deg: Decimal,
    pub sensor_longitude_deg: Decimal,
    pub sensor_altitude_km: Decimal,
    pub telescope_id: Option<String>,
}

/// The wire keys of this record, in the order the client writes them.
pub open spec fn create_optical_observation_request_keys() -> Seq<Seq<char>> {
    seq!["satelliteId"@, "epoch"@, "rightAscensionDeg"@, "declinationDeg"@, "rightAscensionRate"@, "declinationRate"@, "magnitude"@, "sensorLatitudeDeg"@, "sensorLongitudeDeg"@, "sensorAltitudeKm"@, "telescopeId"@]
}

/// Decodes from an object's fields.
pub open spec fn create_optical_observation_request_from_fields(fs: Seq<(Seq<char>, Json)>) -> Option<CreateOpticalObservationRequest> {
    if {
        &&& sget_str(fs, "satelliteId"@) is Some
        &&& sget_str(fs, "epoch"@) is Some
        &&& sget_dec(fs, "rightAscensionDeg"@) is Some
        &&& sget_dec(fs, "declinationDeg"@) is Some
        &&& sget_opt_dec(fs, "rightAscensionRate"@) is Some
        &&& sget_opt_dec(fs, "declinationRate"@) is Some
        &&& sget_opt_dec(fs, "magnitude"@) is Some
        &&& sget_dec(fs, "sensorLatitudeDeg"@) is Some
        &&& sget_dec(fs, "sensorLongitudeDeg"@) is Some
        &&& sget_dec(fs, "sensorAltitudeKm"@) is Some
        &&& sget_opt_str(fs, "telescopeId"@) is Some
    } {
        Some(
            CreateOpticalObservationRequest {
                satellite_id: sget_str(fs, "satelliteId"@).unwrap(),
                epoch: sget_str(fs, "epoch"@).unwrap(),
                right_ascension_deg: sget_dec(fs, "rightAscensionDeg"@).unwrap(),
                declination_deg: sget_dec(fs, "declinationDeg"@).unwrap(),
                right_ascension_rate: sget_opt_dec(fs, "rightAscensionRate"@).unwrap(),
                declination_rate: sget_opt_dec(fs, "declinationRate"@).unwrap(),
                magnitude: sget_opt_dec(fs, "magnitude"@).unwrap(),
                sensor_latitude_deg: sget_dec(fs, "sensorLatitudeDeg"@).unwrap(),
                sensor_longitude_deg: sget_dec(fs, "sensorLongitudeDeg"@).unwrap(),
                sensor_altitude_km: sget_dec(fs, "sensorAltitudeKm"@).unwrap(),
                telescope_id: sget_opt_str(fs, "telescopeId"@).unwrap(),
            },
        )
    } else {
        None
    }
}

/// Decodes from a JSON value.
pub open spec fn create_optical_observation_request_from_json(j: Json) -> Option<CreateOpticalObservationRequest> {
    match j {
        Json::Obj(fields) => create_optical_observation_request_from_fields(obj_view(fields@)),
        _ => None,
    }
}

impl CreateOpticalObservationRequest {
    /// Encodes to the wire object: exactly the keys of `create_optical_observation_request_keys`, in
    /// order; decoding the result yields this value back.
    pub fn to_json(&self) -> (j: Json)
        ensures
            (j matches Json::Obj(fields) && field_keys(fields@) == create_optical_observation_request_keys()),
            create_optical_observation_request_from_json(j) == Some(*self),
    {
        let mut fields: Vec<(String, Json)> = Vec::new();
        push_field(&mut fields, "satelliteId", Json::Str(self.satellite_id.clone()));
        push_field(&mut fields, "epoch", Json::Str(self.epoch.clone()));
        push_field(&mut fields, "rightAscensionDeg", Json::Num(self.right_ascension_deg.text.clone()));
        push_field(&mut fields, "declinationDeg", Json::Num(self.declination_deg.text.clone()));
        push_field(&mut fields, "rightAscensionRate", opt_dec_to_json(&self.right_ascension_rate));
        push_field(&mut fields, "declinationRate", opt_dec_to_json(&self.declination_rate));
        push_field(&mut fields, "magnitude", opt_dec_to_json(&self.magnitude));
        push_field(&mut fields, "sensorLatitudeDeg", Json::Num(self.sensor_latitude_deg.text.clone()));
        push_field(&mut fields, "sensorLongitudeDeg", Json::Num(self.sensor_longitude_deg.text.clone()));
        push_field(&mut fields, "sensorAltitudeKm", Json::Num(self.sensor_altitude_km.text.clone()));
        push_field(&mut fields, "telescopeId", opt_str_to_json(&self.telescope_id));
        proof {
            reveal_strlit("satelliteId");
            reveal_strlit("epoch");
            reveal_strlit("rightAscensionDeg");
            reveal_strlit("declinationDeg");
            reveal_strlit("rightAscensionRate");
            reveal_strlit("declinationRate");
            reveal_strlit("magnitude");
            reveal_strlit("sensorLatitudeDeg");
            reveal_strlit("sensorLongitudeDeg");
            reveal_strlit("sensorAltitudeKm");
            reveal_strlit("telescopeId");
            assert("satelliteId"@.len() == 11);
            assert("epoch"@.len() == 5);
            assert("rightAscensionDeg"@.len() == 17);
            assert("declinationDeg"@.len() == 14);
            assert("rightAscensionRate"@.len() == 18);
            assert("declinationRate"@.len() == 15);
            assert("magnitude"@.len() == 9);
            assert("sensorLatitudeDeg"@.len() == 17);
            assert("sensorLongitudeDeg"@.len() == 18);
            assert("sensorAltitudeKm"@.len() == 16);
            assert("telescopeId"@.len() == 11);
            assert("satelliteId"@[0] == 's');
            assert("telescopeId"@[0] == 't');
            assert("rightAscensionDeg"@[0] == 'r');
            assert("sensorLatitudeDeg"@[0] == 's');
            assert("rightAscensionRate"@[0] == 'r');
            assert("sensorLongitudeDeg"@[0] == 's');
            assert(field_keys(fields@) =~= create_optical_observation_request_keys());
            let fs = obj_view(fields@);
            assert(fs.len() == 11);
            assert(fs[0].0 == "satelliteId"@);
            assert(fs[1].0 == "epoch"@);
            assert(fs[2].0 == "rightAscensionDeg"@);
            assert(fs[3].0 == "declinationDeg"@);
            assert(fs[4].0 == "rightAscensionRate"@);
            assert(fs[5].0 == "declinationRate"@);
            assert(fs[6].0 == "magnitude"@);
            assert(fs[7].0 == "sensorLatitudeDeg"@);
            assert(fs[8].0 == "sensorLongitudeDeg"@);
            assert(fs[9].0 == "sensorAltitudeKm"@);
            assert(fs[10].0 == "telescopeId"@);
            lemma_obj_get_found(fs, "satelliteId"@, 0);
            lemma_obj_get_found(fs, "epoch"@, 1);
            lemma_obj_get_found(fs, "rightAscensionDeg"@, 2);
            lemma_obj_get_found(fs, "declinationDeg"@, 3);
            lemma_obj_get_found(fs, "rightAscensionRate"@, 4);
            lemma_obj_get_found(fs, "declinationRate"@, 5);
            lemma_obj_get_found(fs, "magnitude"@, 6);
            lemma_obj_get_found(fs, "sensorLatitudeDeg"@, 7);
            lemma_obj_get_found(fs, "sensorLongitudeDeg"@, 8);
            lemma_obj_get_found(fs, "sensorAltitudeKm"@, 9);
            lemma_obj_get_found(fs, "telescopeId"@, 10);
            assert(sget_str(fs, "satelliteId"@) == Some(self.satellite_id));
            assert(sget_str(fs, "epoch"@) == Some(self.epoch));
            assert(sget_dec(fs, "rightAscensionDeg"@) == Some(self.right_ascension_deg));
            assert(sget_dec(fs, "declinationDeg"@) == Some(self.declination_deg));
            assert(sget_opt_dec(fs, "rightAscensionRate"@) == Some(self.right_ascension_rate));
            assert(sget_opt_dec(fs, "declinationRate"@) == Some(self.declination_rate));
            assert(sget_opt_dec(fs, "magnitude"@) == Some(self.magnitude));
            assert(sget_dec(fs, "sensorLatitudeDeg"@) == Some(self.sensor_latitude_deg));
            assert(sget_dec(fs, "sensorLongitudeDeg"@) == Some(self.sensor_longitude_deg));
            assert(sget_dec(fs, "sensorAltitudeKm"@) == Some(self.sensor_altitude_km));
            assert(sget_opt_str(fs, "telescopeId"@) == Some(self.telescope_id));
            assert(create_optical_observation_request_from_fields(fs) == Some(*self));
        }
        Json::Obj(fields)
    }

    /// Decodes from a JSON value; `None` on any shape mismatch.
    pub fn from_json(j: &Json) -> (r: Option<CreateOpticalObservationRequest>)
        ensures
            r == create_optical_observation_request_from_json(*j),
    {
        match j {
            Json::Obj(fields) => {
                let satellite_id = match get_str(fields, "satelliteId") {
                    Some(v) => v,
                    None => {
                        return None;
                    },
                };
                let epoch = match get_str(fields, "epoch") {
                    Some(v) => v,
                    None => {
                        return None;
                    },
                };
                let right_ascension_deg = match get_dec(fields, "rightAscensionDeg") {
                    Some(v) => v,
                    None => {
                        return None;
                    },
                };
                let declination_deg = match get_dec(fields, "declinationDeg") {
                    Some(v) => v,
                    None => {
                        return None;
                    },
                };
                let right_ascension_rate = match get_opt_dec(fields, "rightAscensionRate") {
                    Some(v) => v,
                    None => {
                        return None;
                    },
                };
                let declination_rate = match get_opt_dec(fields, "declinationRate") {
                    Some(v) => v,
                    None => {
                        return None;
                    },
                };
                let magnitude = match get_opt_dec(fields, "magnitude") {
                    Some(v) => v,
                    None => {
                        return None;
                    },
                };
                let sensor_latitude_deg = match get_dec(fields, "sensorLatitudeDeg") {
                    Some(v) => v,
                    None => {
                        return None;
                    },
                };
                let sensor_longitude_deg = match get_dec(fields, "sensorLongitudeDeg") {
                    Some(v) => v,
                    None => {
                        return None;
                    },
                };
                let sensor_altitude_km = match get_dec(fields, "sensorAltitudeKm") {
                    Some(v) => v,
                    None => {
                        return None;
                    },
                };
                let telescope_id = match get_opt_str(fields, "telescopeId") {
                    Some(v) => v,
                    None => {
                        return None;
                    },
                };
                Some(
                    CreateOpticalObservationRequest {
                        satellite_id, epoch, right_ascension_deg, declination_deg,
                        right_ascension_rate, declination_rate, magnitude, sensor_latitude_deg,
                        sensor_longitude_deg, sensor_altitude_km, telescope_id,
                    },
                )
            },
            _ => None,
        }
    }
}

/// How many observations arrived in one hour.
#[derive(Clone, Debug, PartialEq)]
pub struct ObservationCount {
    pub hour: String,
    pub count: i64,
}

/// The wire keys of this record, in the order the client writes them.
pub open spec fn observation_count_keys() -> Seq<Seq<char>> {
    seq!["hour"@, "count"@]
}

/// Decodes from an object's fields.
pub open spec fn observation_count_from_fields(fs: Seq<(Seq<char>, Json)>) -> Option<ObservationCount> {
    if {
        &&& sget_str(fs, "hour"@) is Some
        &&& sget_i64(fs, "count"@) is Some
    } {
        Some(
            ObservationCount {
                hour: sget_str(fs, "hour"@).unwrap(),
                count: sget_i64(fs, "count"@).unwrap(),
            },
        )
    } else {
        None
    }
}

/// Decodes from a JSON value.
pub open spec fn observation_count_from_json(j: Json) -> Option<ObservationCount> {
    match j {
        Json::Obj(fields) => observation_count_from_fields(obj_view(fields@)),
        _ => None,
    }
}

impl ObservationCount {
    /// Encodes to the wire object: exactly the keys of `observation_count_keys`, in
    /// order; decoding the result yields this value back.
    pub fn to_json(&self) -> (j: Json)
        ensures
            (j matches Json::Obj(fields) && field_keys(fields@) == observation_count_keys()),
            observation_count_from_json(j) == Some(*self),
    {
        let mut fields: Vec<(String, Json)> = Vec::new();
        push_field(&mut fields, "hour", Json::Str(self.hour.clone()));
        push_field(&mut fields, "count", i64_to_json(self.count));
        proof {
            reveal_strlit("hour");
            reveal_strlit("count");
            assert("hour"@.len() == 4);
            assert("count"@.len() == 5);
            assert(field_keys(fields@) =~= observation_count_keys());
            let fs = obj_view(fields@);
            assert(fs.len() == 2);
            assert(fs[0].0 == "hour"@);
            assert(fs[1].0 == "count"@);
            lemma_obj_get_found(fs, "hour"@, 0);
            lemma_obj_get_found(fs, "count"@, 1);
            crate::num::lemma_parse_dec_i64(self.count);
            assert(sget_str(fs, "hour"@) == Some(self.hour));
            assert(sget_i64(fs, "count"@) == Some(self.count));
            assert(observation_count_from_fields(fs) == Some(*self));
        }
        Json::Obj(fields)
    }

    /// Decodes from a JSON value; `None` on any shape mismatch.
    pub fn from_json(j: &Json) -> (r: Option<ObservationCount>)
        ensures
            r == observation_count_from_json(*j),
    {
        match j {
            Json::Obj(fields) => {
                let hour = match get_str(fields, "hour") {
                    Some(v) => v,
                    None => {
                        return None;
                    },
                };
                let count = match get_i64(fields, "count") {
                    Some(v) => v,
                    None => {
                        return None;
                    },
                };
                Some(
                    ObservationCount {
                        hour, count,
                    },
                )
            },
            _ => None,
        }
    }
}

/// Decodes each element of a JSON array.
pub open spec fn observation_counts_from_arr(items: Seq<Json>) -> Option<Seq<ObservationCount>>
    decreases items.len(),
{
    if items.len() == 0 {
        Some(Seq::empty())
    } else {
        match observation_counts_from_arr(items.drop_last()) {
            Some(init) => match observation_count_from_json(items.last()) {
                Some(x) => Some(init + seq![x]),
                None => None,
            },
            None => None,
        }
    }
}

/// Decodes a JSON array of these records.
pub open spec fn observation_count_vec_from_json(j: Json) -> Option<Seq<ObservationCount>> {
    match j {
        Json::Arr(items) => observation_counts_from_arr(items@),
        _ => None,
    }
}

proof fn lemma_observation_counts_from_arr_fails(items: Seq<Json>, i: int)
    requires
        0 <= i < items.len(),
        observation_count_from_json(items[i]) is None,
    ensures
        observation_counts_from_arr(items) is None,
    decreases items.len(),
{
    if items.len() > 0 {
        if i < items.len() - 1 {
            assert(items.drop_last()[i] == items[i]);
            lemma_observation_counts_from_arr_fails(items.drop_last(), i);
        }
    }
}

/// Decodes a JSON array of these records; `None` on any mismatch.
#[verifier::loop_isolation(false)]
pub fn observation_counts_from_json(j: &Json) -> (r: Option<Vec<ObservationCount>>)
    ensures
        opt_vec_view(r) == observation_count_vec_from_json(*j),
{
    match j {
        Json::Arr(items) => {
            let mut out: Vec<ObservationCount> = Vec::new();
            let mut i: usize = 0;
            while i < items.len()
                invariant
                    i <= items@.len(),
                    observation_counts_from_arr(items@.take(i as int)) == Some(out@),
                decreases items@.len() - i,
            {
                match ObservationCount::from_json(&items[i]) {
                    Some(x) => {
                        out.push(x);
                    },
                    None => {
                        proof {
                            lemma_observation_counts_from_arr_fails(items@, i as int);
                        }
                        return None;
                    },
                }
                proof {
                    let t = items@.take(i + 1);
                    assert(t.drop_last() =~= items@.take(i as int));
                    assert(t.last() == items@[i as int]);
                }
                i += 1;
            }
            proof {
                assert(items@.take(items@.len() as int) =~= items@);
            }
            Some(out)
        },
        _ => None,
    }
}

/// Optional filters when listing observations.
#[derive(Clone, Debug, PartialEq)]
pub struct ObservationQuery {
    pub satellite_id: Option<String>,
    pub telescope_id: Option<String>,
    pub start: Option<String>,
    pub end: Option<String>,
    pub offset: Option<i64>,
    pub limit: Option<i64>,
}

/// The wire keys of this record, in the order the client writes them.
pub open spec fn observation_query_keys() -> Seq<Seq<char>> {
    seq!["satelliteId"@, "telescopeId"@, "start"@, "end"@, "offset"@, "limit"@]
}

/// Decodes from an object's fields.
pub open spec fn observation_query_from_fields(fs: Seq<(Seq<char>, Json)>) -> Option<ObservationQuery> {
    if {
        &&& sget_opt_str(fs, "satelliteId"@) is Some
        &&& sget_opt_str(fs, "telescopeId"@) is Some
        &&& sget_opt_str(fs, "start"@) is Some
        &&& sget_opt_str(fs, "end"@) is Some
        &&& sget_opt_i64(fs, "offset"@) is Some
        &&& sget_opt_i64(fs, "limit"@) is Some
    } {
        Some(
            ObservationQuery {
                satellite_id: sget_opt_str(fs, "satelliteId"@).unwrap(),
                telescope_id: sget_opt_str(fs, "telescopeId"@).unwrap(),
                start: sget_opt_str(fs, "start"@).unwrap(),
                end: sget_opt_str(fs, "end"@).unwrap(),
                offset: sget_opt_i64(fs, "offset"@).unwrap(),
                limit: sget_opt_i64(fs, "limit"@).unwrap(),
            },
        )
    } else {
        None
    }
}

/// Decodes from a JSON value.
pub open spec fn observation_query_from_json(j: Json) -> Option<ObservationQuery> {
    match j {
        Json::Obj(fields) => observation_query_from_fields(obj_view(fields@)),
        _ => None,
    }
}

impl ObservationQuery {
    /// Encodes to the wire object: exactly the keys of `observation_query_keys`, in
    /// order; decoding the result yields this value back.
    pub fn to_json(&self) -> (j: Json)
        ensures
            (j matches Json::Obj(fields) && field_keys(fields@) == observation_query_keys()),
            observation_query_from_json(j) == Some(*self),
    {
        let mut fields: Vec<(String, Json)> = Vec::new();
        push_field(&mut fields, "satelliteId", opt_str_to_json(&self.satellite_id));
        push_field(&mut fields, "telescopeId", opt_str_to_json(&self.telescope_id));
        push_field(&mut fields, "start", opt_str_to_json(&self.start));
        push_field(&mut fields, "end", opt_str_to_json(&self.end));
        push_field(&mut fields, "offset", opt_i64_to_json(&self.offset));
        push_field(&mut fields, "limit", opt_i64_to_json(&self.limit));
        proof {
            reveal_strlit("satelliteId");
            reveal_strlit("telescopeId");
            reveal_strlit("start");
            reveal_strlit("end");
            reveal_strlit("offset");
            reveal_strlit("limit");
            assert("satelliteId"@.len() == 11);
            assert("telescopeId"@.len() == 11);
            assert("start"@.len() == 5);
            assert("end"@.len() == 3);
            assert("offset"@.len() == 6);
            assert("limit"@.len() == 5);
            assert("satelliteId"@[0] == 's');
            assert("telescopeId"@[0] == 't');
            assert("start"@[0] == 's');
            assert("limit"@[0] == 'l');
            assert(field_keys(fields@) =~= observation_query_keys());
            let fs = obj_view(fields@);
            assert(fs.len() == 6);
            assert(fs[0].0 == "satelliteId"@);
            assert(fs[1].0 == "telescopeId"@);
            assert(fs[2].0 == "start"@);
            assert(fs[3].0 == "end"@);
            assert(fs[4].0 == "offset"@);
            assert(fs[5].0 == "limit"@);
            lemma_obj_get_found(fs, "satelliteId"@, 0);
            lemma_obj_get_found(fs, "telescopeId"@, 1);
            lemma_obj_get_found(fs, "start"@, 2);
            lemma_obj_get_found(fs, "end"@, 3);
            lemma_obj_get_found(fs, "offset"@, 4);
            lemma_obj_get_found(fs, "limit"@, 5);
            if let Some(n) = self.offset {
                crate::num::lemma_parse_dec_i64(n);
            }
            if let Some(n) = self.limit {
                crate::num::lemma_parse_dec_i64(n);
            }
            assert(sget_opt_str(fs, "satelliteId"@) == Some(self.satellite_id));
            assert(sget_opt_str(fs, "telescopeId"@) == Some(self.telescope_id));
            assert(sget_opt_str(fs, "start"@) == Some(self.start));
            assert(sget_opt_str(fs, "end"@) == Some(self.end));
            assert(sget_opt_i64(fs, "offset"@) == Some(self.offset));
            assert(sget_opt_i64(fs, "limit"@) == Some(self.limit));
            assert(observation_query_from_fields(fs) == Some(*self));
        }
        Json::Obj(fields)
    }

    /// Decodes from a JSON value; `None` on any shape mismatch.
    pub fn from_json(j: &Json) -> (r: Option<ObservationQuery>)
        ensures
            r == observation_query_from_json(*j),
    {
        match j {
            Json::Obj(fields) => {
                let satellite_id = match get_opt_str(fields, "satelliteId") {
                    Some(v) => v,
                    None => {
                        return None;
                    },
                };
                let telescope_id = match get_opt_str(fields, "telescopeId") {
                    Some(v) => v,
                    None => {
                        return None;
                    },
                };
                let start = match get_opt_str(fields, "start") {
                    Some(v) => v,
                    None => {
                        return None;
                    },
                };
                let end = match get_opt_str(fields, "end") {
                    Some(v) => v,
                    None => {
                        return None;
                    },
                };
                let offset = match get_opt_i64(fields, "offset") {
                    Some(v) => v,
                    None => {
                        return None;
                    },
                };
                let limit = match get_opt_i64(fields, "limit") {
                    Some(v) => v,
                    None => {
                        return None;
                    },
                };
                Some(
                    ObservationQuery {
                        satellite_id, telescope_id, start, end, offset, limit,
                    },
                )
            },
            _ => None,
        }
    }
}
} // verus!
