//! Orbit determination from angles-only observations.
use vstd::prelude::*;
use vstd::string::StringExecFns;

use crate::json::Decimal;
use crate::json::Json;
use crate::json::field_keys;
use crate::json::opt_dec_to_json;
use crate::json::decs_to_json;
use crate::json::sget_dec_vec;
use crate::json::get_dec_vec;
use crate::json::sget_opt_dec;
use crate::json::get_opt_dec;
use crate::json::dec_rows_of_items;
use crate::json::dec_rows_to_json;
use crate::json::dec_rows_ok;
use crate::json::dec_rows_decode_to;
use crate::json::get_dec;
use crate::json::get_json;
use crate::json::get_opt_str;
use crate::json::get_str;
use crate::json::lemma_obj_get_found;
use crate::json::obj_get;
use crate::json::obj_view;
use crate::json::opt_str_to_json;
use crate::json::opt_vec_view;
use crate::json::push_field;
use crate::json::sget_dec;
use crate::json::sget_opt_str;
use crate::json::sget_str;

verus! {

/// One angles-only observation handed to orbit determination.
#[derive(Clone, Debug, PartialEq)]
pub struct ODObservation {
    pub epoch: String,
    pub right_ascension_deg: Decimal,
    pub declination_deg: Decimal,
    pub sensor_latitude_deg: Decimal,
    pub sensor_longitude_deg: Decimal,
    pub sensor_altitude_km: Decimal,
}

/// The wire keys of this record, in the order the client writes them.
pub open spec fn od_observation_keys() -> Seq<Seq<char>> {
    seq!["epoch"@, "rightAscensionDeg"@, "declinationDeg"@, "sensorLatitudeDeg"@, "sensorLongitudeDeg"@, "sensorAltitudeKm"@]
}

/// Decodes from an object's fields.
pub open spec fn od_observation_from_fields(fs: Seq<(Seq<char>, Json)>) -> Option<ODObservation> {
    if {
        &&& sget_str(fs, "epoch"@) is Some
        &&& sget_dec(fs, "rightAscensionDeg"@) is Some
        &&& sget_dec(fs, "declinationDeg"@) is Some
        &&& sget_dec(fs, "sensorLatitudeDeg"@) is Some
        &&& sget_dec(fs, "sensorLongitudeDeg"@) is Some
        &&& sget_dec(fs, "sensorAltitudeKm"@) is Some
    } {
        Some(
            ODObservation {
                epoch: sget_str(fs, "epoch"@).unwrap(),
                right_ascension_deg: sget_dec(fs, "rightAscensionDeg"@).unwrap(),
                declination_deg: sget_dec(fs, "declinationDeg"@).unwrap(),
                sensor_latitude_deg: sget_dec(fs, "sensorLatitudeDeg"@).unwrap(),
                sensor_longitude_deg: sget_dec(fs, "sensorLongitudeDeg"@).unwrap(),
                sensor_altitude_km: sget_dec(fs, "sensorAltitudeKm"@).unwrap(),
            },
        )
    } else {
        None
    }
}

/// Decodes from a JSON value.
pub open spec fn od_observation_from_json(j: Json) -> Option<ODObservation> {
    match j {
        Json::Obj(fields) => od_observation_from_fields(obj_view(fields@)),
        _ => None,
    }
}

impl ODObservation {
    /// Encodes to the wire object: exactly the keys of `od_observation_keys`, in
    /// order; decoding the result yields this value back.
    pub fn to_json(&self) -> (j: Json)
        ensures
            (j matches Json::Obj(fields) && field_keys(fields@) == od_observation_keys()),
            od_observation_from_json(j) == Some(*self),
    {
        let mut fields: Vec<(String, Json)> = Vec::new();
        push_field(&mut fields, "epoch", Json::Str(self.epoch.clone()));
        push_field(&mut fields, "rightAscensionDeg", Json::Num(self.right_ascension_deg.text.clone()));
        push_field(&mut fields, "declinationDeg", Json::Num(self.declination_deg.text.clone()));
        push_field(&mut fields, "sensorLatitudeDeg", Json::Num(self.sensor_latitude_deg.text.clone()));
        push_field(&mut fields, "sensorLongitudeDeg", Json::Num(self.sensor_longitude_deg.text.clone()));
        push_field(&mut fields, "sensorAltitudeKm", Json::Num(self.sensor_altitude_km.text.clone()));
        proof {
            reveal_strlit("epoch");
            reveal_strlit("rightAscensionDeg");
            reveal_strlit("declinationDeg");
            reveal_strlit("sensorLatitudeDeg");
            reveal_strlit("sensorLongitudeDeg");
            reveal_strlit("sensorAltitudeKm");
            assert("epoch"@.len() == 5);
            assert("rightAscensionDeg"@.len() == 17);
            assert("declinationDeg"@.len() == 14);
            assert("sensorLatitudeDeg"@.len() == 17);
            assert("sensorLongitudeDeg"@.len() == 18);
            assert("sensorAltitudeKm"@.len() == 16);
            assert("rightAscensionDeg"@[0] == 'r');
            assert("sensorLatitudeDeg"@[0] == 's');
            assert(field_keys(fields@) =~= od_observation_keys());
            let fs = obj_view(fields@);
            assert(fs.len() == 6);
            assert(fs[0].0 == "epoch"@);
            assert(fs[1].0 == "rightAscensionDeg"@);
            assert(fs[2].0 == "declinationDeg"@);
            assert(fs[3].0 == "sensorLatitudeDeg"@);
            assert(fs[4].0 == "sensorLongitudeDeg"@);
            assert(fs[5].0 == "sensorAltitudeKm"@);
            lemma_obj_get_found(fs, "epoch"@, 0);
            lemma_obj_get_found(fs, "rightAscensionDeg"@, 1);
            lemma_obj_get_found(fs, "declinationDeg"@, 2);
            lemma_obj_get_found(fs, "sensorLatitudeDeg"@, 3);
            lemma_obj_get_found(fs, "sensorLongitudeDeg"@, 4);
            lemma_obj_get_found(fs, "sensorAltitudeKm"@, 5);
            assert(sget_str(fs, "epoch"@) == Some(self.epoch));
            assert(sget_dec(fs, "rightAscensionDeg"@) == Some(self.right_ascension_deg));
            assert(sget_dec(fs, "declinationDeg"@) == Some(self.declination_deg));
            assert(sget_dec(fs, "sensorLatitudeDeg"@) == Some(self.sensor_latitude_deg));
            assert(sget_dec(fs, "sensorLongitudeDeg"@) == Some(self.sensor_longitude_deg));
            assert(sget_dec(fs, "sensorAltitudeKm"@) == Some(self.sensor_altitude_km));
            assert(od_observation_from_fields(fs) == Some(*self));
        }
        Json::Obj(fields)
    }

    /// Decodes from a JSON value; `None` on any shape mismatch.
    pub fn from_json(j: &Json) -> (r: Option<ODObservation>)
        ensures
            r == od_observation_from_json(*j),
    {
        match j {
            Json::Obj(fields) => {
                let epoch = match get_str(fields, "epoch") {
                    Some(v) => v,
                    None => {
                        return None;
                    },
                };
                let right_ascension_deg = match get_dec(fields, "rightAscensionDeg") {
                    Some(v) => v,
                    None => {
                        return None;
                    },
                };
                let declination_deg = match get_dec(fields, "declinationDeg") {
                    Some(v) => v,
                    None => {
                        return None;
                    },
                };
                let sensor_latitude_deg = match get_dec(fields, "sensorLatitudeDeg") {
                    Some(v) => v,
                    None => {
                        return None;
                    },
                };
                let sensor_longitude_deg = match get_dec(fields, "sensorLongitudeDeg") {
                    Some(v) => v,
                    None => {
                        return None;
                    },
                };
                let sensor_altitude_km = match get_dec(fields, "sensorAltitudeKm") {
                    Some(v) => v,
                    None => {
                        return None;
                    },
                };
                Some(
                    ODObservation {
                        epoch, right_ascension_deg, declination_deg, sensor_latitude_deg,
                        sensor_longitude_deg, sensor_altitude_km,
                    },
                )
            },
            _ => None,
        }
    }
}

/// Decodes each element of a JSON array.
pub open spec fn od_observations_from_arr(items: Seq<Json>) -> Option<Seq<ODObservation>>
    decreases items.len(),
{
    if items.len() == 0 {
        Some(Seq::empty())
    } else {
        match od_observations_from_arr(items.drop_last()) {
            Some(init) => match od_observation_from_json(items.last()) {
                Some(x) => Some(init + seq![x]),
                None => None,
            },
            None => None,
        }
    }
}

/// Decodes a JSON array of these records.
pub open spec fn od_observation_vec_from_json(j: Json) -> Option<Seq<ODObservation>> {
    match j {
        Json::Arr(items) => od_observations_from_arr(items@),
        _ => None,
    }
}

proof fn lemma_od_observations_from_arr_fails(items: Seq<Json>, i: int)
    requires
        0 <= i < items.len(),
        od_observation_from_json(items[i]) is None,
    ensures
        od_observations_from_arr(items) is None,
    decreases items.len(),
{
    if items.len() > 0 {
        if i < items.len() - 1 {
            assert(items.drop_last()[i] == items[i]);
            lemma_od_observations_from_arr_fails(items.drop_last(), i);
        }
    }
}

/// Decodes a JSON array of these records; `None` on any mismatch.
#[verifier::loop_isolation(false)]
pub fn od_observations_from_json(j: &Json) -> (r: Option<Vec<ODObservation>>)
    ensures
        opt_vec_view(r) == od_observation_vec_from_json(*j),
{
    match j {
        Json::Arr(items) => {
            let mut out: Vec<ODObservation> = Vec::new();
            let mut i: usize = 0;
            while i < items.len()
                invariant
                    i <= items@.len(),
                    od_observations_from_arr(items@.take(i as int)) == Some(out@),
                decreases items@.len() - i,
            {
                match ODObservation::from_json(&items[i]) {
                    Some(x) => {
                        out.push(x);
                    },
                    None => {
                        proof {
                            lemma_od_observations_from_arr_fails(items@, i as int);
                        }
                        return None;
                    },
                }
                proof {
                    let t = items@.take(i + 1);
                    assert(t.drop_last() =~= items@.take(i as int));
                    assert(t.last() == items@[i as int]);
                }
                i += 1;
            }
            proof {
                assert(items@.take(items@.len() as int) =~= items@);
            }
            Some(out)
        },
        _ => None,
    }
}

/// Builds the JSON array of these records; decoding it yields the same
/// records back.
pub fn od_observations_to_json(v: &Vec<ODObservation>) -> (j: Json)
    ensures
        (j matches Json::Arr(items) && od_observations_from_arr(items@) == Some(v@) && items@.len() == v@.len()),
{
    let mut items: Vec<Json> = Vec::new();
    let mut i: usize = 0;
    while i < v.len()
        invariant
            i <= v@.len(),
            items@.len() == i,
            od_observations_from_arr(items@) == Some(v@.take(i as int)),
        decreases v@.len() - i,
    {
        let ghost prev = items@;
        items.push(v[i].to_json());
        proof {
            assert(items@.drop_last() =~= prev);
            assert(v@.take(i + 1) =~= v@.take(i as int) + seq![v@[i as int]]);
        }
        i += 1;
    }
    proof {
        assert(v@.take(v@.len() as int) =~= v@);
    }
    Json::Arr(items)
}

/// A request to solve an orbit from observations.
#[derive(Clone, Debug, PartialEq)]
pub struct ODRequest {
    pub satellite_id: Option<String>,
    pub observations: Vec<ODObservation>,
}

/// The wire keys of this record, in the order the client writes them.
pub open spec fn od_request_keys() -> Seq<Seq<char>> {
    seq!["satelliteId"@, "observations"@]
}

/// The fields decode into exactly this value.
pub open spec fn od_request_decodes_fields(fs: Seq<(Seq<char>, Json)>, x: ODRequest) -> bool {
    &&& sget_opt_str(fs, "satelliteId"@) == Some(x.satellite_id)
    &&& (match obj_get(fs, "observations"@) {
        Some(Json::Arr(items)) => od_observations_from_arr(items@) == Some(x.observations@),
        _ => false,
    })
}

/// Every field is present with a decodable shape.
pub open spec fn od_request_shape_ok(fs: Seq<(Seq<char>, Json)>) -> bool {
    &&& sget_opt_str(fs, "satelliteId"@) is Some
    &&& (match obj_get(fs, "observations"@) {
        Some(Json::Arr(items)) => od_observations_from_arr(items@) is Some,
        _ => false,
    })
}

/// The JSON value decodes into exactly this value.
pub open spec fn od_request_decodes_to(j: Json, x: ODRequest) -> bool {
    match j {
        Json::Obj(fields) => od_request_decodes_fields(obj_view(fields@), x),
        _ => false,
    }
}

/// The JSON value has the shape this record decodes from.
pub open spec fn od_request_json_ok(j: Json) -> bool {
    match j {
        Json::Obj(fields) => od_request_shape_ok(obj_view(fields@)),
        _ => false,
    }
}

impl ODRequest {
    /// Encodes to the wire object: exactly the keys of `od_request_keys`, in
    /// order; decoding the result yields this value back.
    pub fn to_json(&self) -> (j: Json)
        ensures
            (j matches Json::Obj(fields) && field_keys(fields@) == od_request_keys()),
            od_request_decodes_to(j, *self),
    {
        let mut fields: Vec<(String, Json)> = Vec::new();
        push_field(&mut fields, "satelliteId", opt_str_to_json(&self.satellite_id));
        push_field(&mut fields, "observations", od_observations_to_json(&self.observations));
        proof {
            reveal_strlit("satelliteId");
            reveal_strlit("observations");
            assert("satelliteId"@.len() == 11);
            assert("observations"@.len() == 12);
            assert(field_keys(fields@) =~= od_request_keys());
            let fs = obj_view(fields@);
            assert(fs.len() == 2);
            assert(fs[0].0 == "satelliteId"@);
            assert(fs[1].0 == "observations"@);
            lemma_obj_get_found(fs, "satelliteId"@, 0);
            lemma_obj_get_found(fs, "observations"@, 1);
            assert(sget_opt_str(fs, "satelliteId"@) == Some(self.satellite_id));
            assert((match obj_get(fs, "observations"@) {
        Some(Json::Arr(items)) => od_observations_from_arr(items@) == Some(self.observations@),
        _ => false,
    }));
            assert(od_request_decodes_fields(fs, *self));
        }
        Json::Obj(fields)
    }

    /// Decodes from a JSON value; `None` on any shape mismatch.
    pub fn from_json(j: &Json) -> (r: Option<ODRequest>)
        ensures
            (match r {
                Some(x) => od_request_decodes_to(*j, x),
                None => !od_request_json_ok(*j),
            }),
    {
        match j {
            Json::Obj(fields) => {
                let satellite_id = match get_opt_str(fields, "satelliteId") {
                    Some(v) => v,
                    None => {
                        return None;
                    },
                };
                let observations = match get_json(fields, "observations") {
                    Some(v) => match od_observations_from_json(v) {
                        Some(v) => v,
                        None => {
                            return None;
                        },
                    },
                    None => {
                        return None;
                    },
                };
                Some(
                    ODRequest {
                        satellite_id, observations,
                    },
                )
            },
            _ => None,
        }
    }
}

/// A solved orbit: elements at the solution epoch, the state vector, and
/// the optional covariance of the fit. The state vectors hold exactly
/// three components.
#[derive(Clone, Debug, PartialEq)]
pub struct ODResult {
    pub epoch: String,
    pub semi_major_axis_km: Decimal,
    pub eccentricity: Decimal,
    pub inclination_deg: Decimal,
    pub raan_deg: Decimal,
    pub argument_of_perigee_deg: Decimal,
    pub mean_anomaly_deg: Decimal,
    pub position_eci_km: Vec<Decimal>,
    pub velocity_eci_km_s: Vec<Decimal>,
    pub rms_residual_arcsec: Option<Decimal>,
    pub covariance: Option<Vec<Vec<Decimal>>>,
}

/// The wire keys of this record, in the order the client writes them.
pub open spec fn od_result_keys() -> Seq<Seq<char>> {
    seq![
        "epoch"@,
        "semiMajorAxisKm"@,
        "eccentricity"@,
        "inclinationDeg"@,
        "raanDeg"@,
        "argumentOfPerigeeDeg"@,
        "meanAnomalyDeg"@,
        "positionEciKm"@,
        "velocityEciKmS"@,
        "rmsResidualArcsec"@,
        "covariance"@,
    ]
}

/// The fields decode into exactly this value.
pub open spec fn od_result_decodes_fields(fs: Seq<(Seq<char>, Json)>, x: ODResult) -> bool {
    &&& sget_str(fs, "epoch"@) == Some(x.epoch)
    &&& sget_dec(fs, "semiMajorAxisKm"@) == Some(x.semi_major_axis_km)
    &&& sget_dec(fs, "eccentricity"@) == Some(x.eccentricity)
    &&& sget_dec(fs, "inclinationDeg"@) == Some(x.inclination_deg)
    &&& sget_dec(fs, "raanDeg"@) == Some(x.raan_deg)
    &&& sget_dec(fs, "argumentOfPerigeeDeg"@) == Some(x.argument_of_perigee_deg)
    &&& sget_dec(fs, "meanAnomalyDeg"@) == Some(x.mean_anomaly_deg)
    &&& sget_dec_vec(fs, "positionEciKm"@) == Some(x.position_eci_km@)
    &&& x.position_eci_km@.len() == 3
    &&& sget_dec_vec(fs, "velocityEciKmS"@) == Some(x.velocity_eci_km_s@)
    &&& x.velocity_eci_km_s@.len() == 3
    &&& sget_opt_dec(fs, "rmsResidualArcsec"@) == Some(x.rms_residual_arcsec)
    &&& (match obj_get(fs, "covariance"@) {
        None => x.covariance is None,
        Some(v) => match v {
            Json::Null => x.covariance is None,
            Json::Arr(items) => x.covariance is Some && dec_rows_decode_to(
                items@,
                x.covariance.unwrap()@,
            ),
            _ => false,
        },
    })
}

/// Every field is present with a decodable shape, the state vectors with
/// exactly three components.
pub open spec fn od_result_shape_ok(fs: Seq<(Seq<char>, Json)>) -> bool {
    &&& sget_str(fs, "epoch"@) is Some
    &&& sget_dec(fs, "semiMajorAxisKm"@) is Some
    &&& sget_dec(fs, "eccentricity"@) is Some
    &&& sget_dec(fs, "inclinationDeg"@) is Some
    &&& sget_dec(fs, "raanDeg"@) is Some
    &&& sget_dec(fs, "argumentOfPerigeeDeg"@) is Some
    &&& sget_dec(fs, "meanAnomalyDeg"@) is Some
    &&& sget_dec_vec(fs, "positionEciKm"@) is Some
    &&& sget_dec_vec(fs, "positionEciKm"@).unwrap().len() == 3
    &&& sget_dec_vec(fs, "velocityEciKmS"@) is Some
    &&& sget_dec_vec(fs, "velocityEciKmS"@).unwrap().len() == 3
    &&& sget_opt_dec(fs, "rmsResidualArcsec"@) is Some
    &&& (match obj_get(fs, "covariance"@) {
        None => true,
        Some(v) => match v {
            Json::Null => true,
            Json::Arr(items) => dec_rows_ok(items@),
            _ => false,
        },
    })
}

/// The JSON value decodes into exactly this value.
pub open spec fn od_result_decodes_to(j: Json, x: ODResult) -> bool {
    match j {
        Json::Obj(fields) => od_result_decodes_fields(obj_view(fields@), x),
        _ => false,
    }
}

/// The JSON value has the shape this record decodes from.
pub open spec fn od_result_json_ok(j: Json) -> bool {
    match j {
        Json::Obj(fields) => od_result_shape_ok(obj_view(fields@)),
        _ => false,
    }
}

impl ODResult {
    /// Encodes to the wire object: exactly the keys of `od_result_keys`, in
    /// order; decoding the result yields this value back. The state
    /// vectors must hold their three components.
    pub fn to_json(&self) -> (j: Json)
        requires
            self.position_eci_km@.len() == 3,
            self.velocity_eci_km_s@.len() == 3,
        ensures
            (j matches Json::Obj(fields) && field_keys(fields@) == od_result_keys()),
            od_result_decodes_to(j, *self),
    {
        let mut fields: Vec<(String, Json)> = Vec::new();
        push_field(&mut fields, "epoch", Json::Str(self.epoch.clone()));
        push_field(&mut fields, "semiMajorAxisKm", Json::Num(self.semi_major_axis_km.text.clone()));
        push_field(&mut fields, "eccentricity", Json::Num(self.eccentricity.text.clone()));
        push_field(&mut fields, "inclinationDeg", Json::Num(self.inclination_deg.text.clone()));
        push_field(&mut fields, "raanDeg", Json::Num(self.raan_deg.text.clone()));
        push_field(
            &mut fields,
            "argumentOfPerigeeDeg",
            Json::Num(self.argument_of_perigee_deg.text.clone()),
        );
        push_field(&mut fields, "meanAnomalyDeg", Json::Num(self.mean_anomaly_deg.text.clone()));
        push_field(&mut fields, "positionEciKm", decs_to_json(&self.position_eci_km));
        push_field(&mut fields, "velocityEciKmS", decs_to_json(&self.velocity_eci_km_s));
        push_field(&mut fields, "rmsResidualArcsec", opt_dec_to_json(&self.rms_residual_arcsec));
        let cov = match &self.covariance {
            Some(rows) => dec_rows_to_json(rows),
            None => Json::Null,
        };
        push_field(&mut fields, "covariance", cov);
        proof {
            reveal_strlit("epoch");
            reveal_strlit("semiMajorAxisKm");
            reveal_strlit("eccentricity");
            reveal_strlit("inclinationDeg");
            reveal_strlit("raanDeg");
            reveal_strlit("argumentOfPerigeeDeg");
            reveal_strlit("meanAnomalyDeg");
            reveal_strlit("positionEciKm");
            reveal_strlit("velocityEciKmS");
            reveal_strlit("rmsResidualArcsec");
            reveal_strlit("covariance");
            assert("epoch"@.len() == 5);
            assert("semiMajorAxisKm"@.len() == 15);
            assert("eccentricity"@.len() == 12);
            assert("inclinationDeg"@.len() == 14);
            assert("raanDeg"@.len() == 7);
            assert("argumentOfPerigeeDeg"@.len() == 20);
            assert("meanAnomalyDeg"@.len() == 14);
            assert("positionEciKm"@.len() == 13);
            assert("velocityEciKmS"@.len() == 14);
            assert("rmsResidualArcsec"@.len() == 17);
            assert("covariance"@.len() == 10);
            assert("inclinationDeg"@[0] == 'i');
            assert("meanAnomalyDeg"@[0] == 'm');
            assert("velocityEciKmS"@[0] == 'v');
            assert(field_keys(fields@) =~= od_result_keys());
            let fs = obj_view(fields@);
            assert(fs.len() == 11);
            assert(fs[0].0 == "epoch"@);
            assert(fs[1].0 == "semiMajorAxisKm"@);
            assert(fs[2].0 == "eccentricity"@);
            assert(fs[3].0 == "inclinationDeg"@);
            assert(fs[4].0 == "raanDeg"@);
            assert(fs[5].0 == "argumentOfPerigeeDeg"@);
            assert(fs[6].0 == "meanAnomalyDeg"@);
            assert(fs[7].0 == "positionEciKm"@);
            assert(fs[8].0 == "velocityEciKmS"@);
            assert(fs[9].0 == "rmsResidualArcsec"@);
            assert(fs[10].0 == "covariance"@);
            lemma_obj_get_found(fs, "epoch"@, 0);
            lemma_obj_get_found(fs, "semiMajorAxisKm"@, 1);
            lemma_obj_get_found(fs, "eccentricity"@, 2);
            lemma_obj_get_found(fs, "inclinationDeg"@, 3);
            lemma_obj_get_found(fs, "raanDeg"@, 4);
            lemma_obj_get_found(fs, "argumentOfPerigeeDeg"@, 5);
            lemma_obj_get_found(fs, "meanAnomalyDeg"@, 6);
            lemma_obj_get_found(fs, "positionEciKm"@, 7);
            lemma_obj_get_found(fs, "velocityEciKmS"@, 8);
            lemma_obj_get_found(fs, "rmsResidualArcsec"@, 9);
            lemma_obj_get_found(fs, "covariance"@, 10);
            assert(od_result_decodes_fields(fs, *self));
        }
        Json::Obj(fields)
    }

    /// Decodes from a JSON value; `None` on any shape mismatch.
    pub fn from_json(j: &Json) -> (r: Option<ODResult>)
        ensures
            (match r {
                Some(x) => od_result_decodes_to(*j, x),
                None => !od_result_json_ok(*j),
            }),
    {
        match j {
            Json::Obj(fields) => {
                let epoch = match get_str(fields, "epoch") {
                    Some(v) => v,
                    None => {
                        return None;
                    },
                };
                let semi_major_axis_km = match get_dec(fields, "semiMajorAxisKm") {
                    Some(v) => v,
                    None => {
                        return None;
                    },
                };
                let eccentricity = match get_dec(fields, "eccentricity") {
                    Some(v) => v,
                    None => {
                        return None;
                    },
                };
                let inclination_deg = match get_dec(fields, "inclinationDeg") {
                    Some(v) => v,
                    None => {
                        return None;
                    },
                };
                let raan_deg = match get_dec(fields, "raanDeg") {
                    Some(v) => v,
                    None => {
                        return None;
                    },
                };
                let argument_of_perigee_deg = match get_dec(fields, "argumentOfPerigeeDeg") {
                    Some(v) => v,
                    None => {
                        return None;
                    },
                };
                let mean_anomaly_deg = match get_dec(fields, "meanAnomalyDeg") {
                    Some(v) => v,
                    None => {
                        return None;
                    },
                };
                let position_eci_km = match get_dec_vec(fields, "positionEciKm") {
                    Some(v) => v,
                    None => {
                        return None;
                    },
                };
                if position_eci_km.len() != 3 {
                    return None;
                }
                let velocity_eci_km_s = match get_dec_vec(fields, "velocityEciKmS") {
                    Some(v) => v,
                    None => {
                        return None;
                    },
                };
                if velocity_eci_km_s.len() != 3 {
                    return None;
                }
                let rms_residual_arcsec = match get_opt_dec(fields, "rmsResidualArcsec") {
                    Some(v) => v,
                    None => {
                        return None;
                    },
                };
                let covariance = match get_json(fields, "covariance") {
                    Some(v) => match v {
                        Json::Null => None,
                        Json::Arr(items) => match dec_rows_of_items(items) {
                            Some(rows) => Some(rows),
                            None => {
                                return None;
                            },
                        },
                        _ => {
                            return None;
                        },
                    },
                    None => None,
                };
                Some(
                    ODResult {
                        epoch,
                        semi_major_axis_km,
                        eccentricity,
                        inclination_deg,
                        raan_deg,
                        argument_of_perigee_deg,
                        mean_anomaly_deg,
                        position_eci_km,
                        velocity_eci_km_s,
                        rms_residual_arcsec,
                        covariance,
                    },
                )
            },
            _ => None,
        }
    }
}

} // verus!
