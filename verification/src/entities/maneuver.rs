//! Maneuvers: detected or planned orbit changes.
use vstd::prelude::*;
use vstd::string::StringExecFns;

use crate::json::Decimal;
use crate::json::Json;
use crate::json::field_keys;
use crate::json::get_opt_dec;
use crate::json::get_opt_i64;
use crate::json::get_opt_str;
use crate::json::get_str;
use crate::json::i64_to_json;
use crate::json::lemma_obj_get_found;
use crate::json::obj_get;
use crate::json::obj_view;
use crate::json::opt_dec_to_json;
use crate::json::opt_i64_to_json;
use crate::json::opt_str_to_json;
use crate::json::opt_vec_view;
use crate::json::push_field;
use crate::json::sget_opt_dec;
use crate::json::sget_opt_i64;
use crate::json::sget_opt_str;
use crate::json::sget_str;

verus! {

/// A detected or planned maneuver of a satellite.
#[derive(Clone, Debug, PartialEq)]
pub struct Maneuver {
    pub id: String,
    pub satellite_id: String,
    pub satellite_name: Option<String>,
    pub status: Option<String>,
    pub epoch: Option<String>,
    pub magnitude: Option<Decimal>,
    pub radial_magnitude: Option<Decimal>,
    pub in_track_magnitude: Option<Decimal>,
    pub cross_track_magnitude: Option<Decimal>,
    pub created_at: Option<String>,
    pub updated_at: Option<String>,
}

/// The wire keys of this record, in the order the client writes them.
pub open spec fn maneuver_keys() -> Seq<Seq<char>> {
    seq!["id"@, "satelliteId"@, "satelliteName"@, "status"@, "epoch"@, "magnitude"@, "radialMagnitude"@, "inTrackMagnitude"@, "crossTrackMagnitude"@, "creationEpoch"@, "updateEpoch"@]
}

/// Decodes from an object's fields.
pub open spec fn maneuver_from_fields(fs: Seq<(Seq<char>, Json)>) -> Option<Maneuver> {
    if {
        &&& sget_str(fs, "id"@) is Some
        &&& sget_str(fs, "satelliteId"@) is Some
        &&& sget_opt_str(fs, "satelliteName"@) is Some
        &&& sget_opt_str(fs, "status"@) is Some
        &&& sget_opt_str(fs, "epoch"@) is Some
        &&& sget_opt_dec(fs, "magnitude"@) is Some
        &&& sget_opt_dec(fs, "radialMagnitude"@) is Some
        &&& sget_opt_dec(fs, "inTrackMagnitude"@) is Some
        &&& sget_opt_dec(fs, "crossTrackMagnitude"@) is Some
        &&& sget_opt_str(fs, "creationEpoch"@) is Some
        &&& sget_opt_str(fs, "updateEpoch"@) is Some
    } {
        Some(
            Maneuver {
                id: sget_str(fs, "id"@).unwrap(),
                satellite_id: sget_str(fs, "satelliteId"@).unwrap(),
                satellite_name: sget_opt_str(fs, "satelliteName"@).unwrap(),
                status: sget_opt_str(fs, "status"@).unwrap(),
                epoch: sget_opt_str(fs, "epoch"@).unwrap(),
                magnitude: sget_opt_dec(fs, "magnitude"@).unwrap(),
                radial_magnitude: sget_opt_dec(fs, "radialMagnitude"@).unwrap(),
                in_track_magnitude: sget_opt_dec(fs, "inTrackMagnitude"@).unwrap(),
                cross_track_magnitude: sget_opt_dec(fs, "crossTrackMagnitude"@).unwrap(),
                created_at: sget_opt_str(fs, "creationEpoch"@).unwrap(),
                updated_at: sget_opt_str(fs, "updateEpoch"@).unwrap(),
            },
        )
    } else {
        None
    }
}

/// Decodes from a JSON value.
pub open spec fn maneuver_from_json(j: Json) -> Option<Maneuver> {
    match j {
        Json::Obj(fields) => maneuver_from_fields(obj_view(fields@)),
        _ => None,
    }
}

impl Maneuver {
    /// Encodes to the wire object: exactly the keys of `maneuver_keys`, in
    /// order; decoding the result yields this value back.
    pub fn to_json(&self) -> (j: Json)
        ensures
            (j matches Json::Obj(fields) && field_keys(fields@) == maneuver_keys()),
            maneuver_from_json(j) == Some(*self),
    {
        let mut fields: Vec<(String, Json)> = Vec::new();
        push_field(&mut fields, "id", Json::Str(self.id.clone()));
        push_field(&mut fields, "satelliteId", Json::Str(self.satellite_id.clone()));
        push_field(&mut fields, "satelliteName", opt_str_to_json(&self.satellite_name));
        push_field(&mut fields, "status", opt_str_to_json(&self.status));
        push_field(&mut fields, "epoch", opt_str_to_json(&self.epoch));
        push_field(&mut fields, "magnitude", opt_dec_to_json(&self.magnitude));
        push_field(&mut fields, "radialMagnitude", opt_dec_to_json(&self.radial_magnitude));
        push_field(&mut fields, "inTrackMagnitude", opt_dec_to_json(&self.in_track_magnitude));
        push_field(&mut fields, "crossTrackMagnitude", opt_dec_to_json(&self.cross_track_magnitude));
        push_field(&mut fields, "creationEpoch", opt_str_to_json(&self.created_at));
        push_field(&mut fields, "updateEpoch", opt_str_to_json(&self.updated_at));
        proof {
            reveal_strlit("id");
            reveal_strlit("satelliteId");
            reveal_strlit("satelliteName");
            reveal_strlit("status");
            reveal_strlit("epoch");
            reveal_strlit("magnitude");
            reveal_strlit("radialMagnitude");
            reveal_strlit("inTrackMagnitude");
            reveal_strlit("crossTrackMagnitude");
            reveal_strlit("creationEpoch");
            reveal_strlit("updateEpoch");
            assert("id"@.len() == 2);
            assert("satelliteId"@.len() == 11);
            assert("satelliteName"@.len() == 13);
            assert("status"@.len() == 6);
            assert("epoch"@.len() == 5);
            assert("magnitude"@.len() == 9);
            assert("radialMagnitude"@.len() == 15);
            assert("inTrackMagnitude"@.len() == 16);
            assert("crossTrackMagnitude"@.len() == 19);
            assert("creationEpoch"@.len() == 13);
            assert("updateEpoch"@.len() == 11);
            assert("satelliteId"@[0] == 's');
            assert("updateEpoch"@[0] == 'u');
            assert("satelliteName"@[0] == 's');
            assert("creationEpoch"@[0] == 'c');
            assert(field_keys(fields@) =~= maneuver_keys());
            let fs = obj_view(fields@);
            assert(fs.len() == 11);
            assert(fs[0].0 == "id"@);
            assert(fs[1].0 == "satelliteId"@);
            assert(fs[2].0 == "satelliteName"@);
            assert(fs[3].0 == "status"@);
            assert(fs[4].0 == "epoch"@);
            assert(fs[5].0 == "magnitude"@);
            assert(fs[6].0 == "radialMagnitude"@);
            assert(fs[7].0 == "inTrackMagnitude"@);
            assert(fs[8].0 == "crossTrackMagnitude"@);
            assert(fs[9].0 == "creationEpoch"@);
            assert(fs[10].0 == "updateEpoch"@);
            lemma_obj_get_found(fs, "id"@, 0);
            lemma_obj_get_found(fs, "satelliteId"@, 1);
            lemma_obj_get_found(fs, "satelliteName"@, 2);
            lemma_obj_get_found(fs, "status"@, 3);
            lemma_obj_get_found(fs, "epoch"@, 4);
            lemma_obj_get_found(fs, "magnitude"@, 5);
            lemma_obj_get_found(fs, "radialMagnitude"@, 6);
            lemma_obj_get_found(fs, "inTrackMagnitude"@, 7);
            lemma_obj_get_found(fs, "crossTrackMagnitude"@, 8);
            lemma_obj_get_found(fs, "creationEpoch"@, 9);
            lemma_obj_get_found(fs, "updateEpoch"@, 10);
            assert(sget_str(fs, "id"@) == Some(self.id));
            assert(sget_str(fs, "satelliteId"@) == Some(self.satellite_id));
            assert(sget_opt_str(fs, "satelliteName"@) == Some(self.satellite_name));
            assert(sget_opt_str(fs, "status"@) == Some(self.status));
            assert(sget_opt_str(fs, "epoch"@) == Some(self.epoch));
            assert(sget_opt_dec(fs, "magnitude"@) == Some(self.magnitude));
            assert(sget_opt_dec(fs, "radialMagnitude"@) == Some(self.radial_magnitude));
            assert(sget_opt_dec(fs, "inTrackMagnitude"@) == Some(self.in_track_magnitude));
            assert(sget_opt_dec(fs, "crossTrackMagnitude"@) == Some(self.cross_track_magnitude));
            assert(sget_opt_str(fs, "creationEpoch"@) == Some(self.created_at));
            assert(sget_opt_str(fs, "updateEpoch"@) == Some(self.updated_at));
            assert(maneuver_from_fields(fs) == Some(*self));
        }
        Json::Obj(fields)
    }

    /// Decodes from a JSON value; `None` on any shape mismatch.
    pub fn from_json(j: &Json) -> (r: Option<Maneuver>)
        ensures
            r == maneuver_from_json(*j),
    {
        match j {
            Json::Obj(fields) => {
                let id = match get_str(fields, "id") {
                    Some(v) => v,
                    None => {
                        return None;
                    },
                };
                let satellite_id = match get_str(fields, "satelliteId") {
                    Some(v) => v,
                    None => {
                        return None;
                    },
                };
                let satellite_name = match get_opt_str(fields, "satelliteName") {
                    Some(v) => v,
                    None => {
                        return None;
                    },
                };
                let status = match get_opt_str(fields, "status") {
                    Some(v) => v,
                    None => {
                        return None;
                    },
                };
                let epoch = match get_opt_str(fields, "epoch") {
                    Some(v) => v,
                    None => {
                        return None;
                    },
                };
                let magnitude = match get_opt_dec(fields, "magnitude") {
                    Some(v) => v,
                    None => {
                        return None;
                    },
                };
                let radial_magnitude = match get_opt_dec(fields, "radialMagnitude") {
                    Some(v) => v,
                    None => {
                        return None;
                    },
                };
                let in_track_magnitude = match get_opt_dec(fields, "inTrackMagnitude") {
                    Some(v) => v,
                    None => {
                        return None;
                    },
                };
                let cross_track_magnitude = match get_opt_dec(fields, "crossTrackMagnitude") {
                    Some(v) => v,
                    None => {
                        return None;
                    },
                };
                let created_at = match get_opt_str(fields, "creationEpoch") {
                    Some(v) => v,
                    None => {
                        return None;
                    },
                };
                let updated_at = match get_opt_str(fields, "updateEpoch") {
                    Some(v) => v,
                    None => {
                        return None;
                    },
                };
                Some(
                    Maneuver {
                        id, satellite_id, satellite_name, status, epoch, magnitude,
                        radial_magnitude, in_track_magnitude, cross_track_magnitude, created_at,
                        updated_at,
                    },
                )
            },
            _ => None,
        }
    }
}

/// Decodes each element of a JSON array.
pub open spec fn maneuvers_from_arr(items: Seq<Json>) -> Option<Seq<Maneuver>>
    decreases items.len(),
{
    if items.len() == 0 {
        Some(Seq::empty())
    } else {
        match maneuvers_from_arr(items.drop_last()) {
            Some(init) => match maneuver_from_json(items.last()) {
                Some(x) => Some(init + seq![x]),
                None => None,
            },
            None => None,
        }
    }
}

/// Decodes a JSON array of these records.
pub open spec fn maneuver_vec_from_json(j: Json) -> Option<Seq<Maneuver>> {
    match j {
        Json::Arr(items) => maneuvers_from_arr(items@),
        _ => None,
    }
}

proof fn lemma_maneuvers_from_arr_fails(items: Seq<Json>, i: int)
    requires
        0 <= i < items.len(),
        maneuver_from_json(items[i]) is None,
    ensures
        maneuvers_from_arr(items) is None,
    decreases items.len(),
{
    if items.len() > 0 {
        if i < items.len() - 1 {
            assert(items.drop_last()[i] == items[i]);
            lemma_maneuvers_from_arr_fails(items.drop_last(), i);
        }
    }
}

/// Decodes a JSON array of these records; `None` on any mismatch.
#[verifier::loop_isolation(false)]
pub fn maneuvers_from_json(j: &Json) -> (r: Option<Vec<Maneuver>>)
    ensures
        opt_vec_view(r) == maneuver_vec_from_json(*j),
{
    match j {
        Json::Arr(items) => {
            let mut out: Vec<Maneuver> = Vec::new();
            let mut i: usize = 0;
            while i < items.len()
                invariant
                    i <= items@.len(),
                    maneuvers_from_arr(items@.take(i as int)) == Some(out@),
                decreases items@.len() - i,
            {
                match Maneuver::from_json(&items[i]) {
                    Some(x) => {
                        out.push(x);
                    },
                    None => {
                        proof {
                            lemma_maneuvers_from_arr_fails(items@, i as int);
                        }
                        return None;
                    },
                }
                proof {
                    let t = items@.take(i + 1);
                    assert(t.drop_last() =~= items@.take(i as int));
                    assert(t.last() == items@[i as int]);
                }
                i += 1;
            }
            proof {
                assert(items@.take(items@.len() as int) =~= items@);
            }
            Some(out)
        },
        _ => None,
    }
}

/// The caller-settable fields of a new maneuver record.
#[derive(Clone, Debug, PartialEq)]
pub struct CreateManeuverRequest {
    pub satellite_id: String,
    pub epoch: String,
    pub magnitude: Option<Decimal>,
    pub radial_magnitude: Option<Decimal>,
    pub in_track_magnitude: Option<Decimal>,
    pub cross_track_magnitude: Option<Decimal>,
}

/// The wire keys of this record, in the order the client writes them.
pub open spec fn create_maneuver_request_keys() -> Seq<Seq<char>> {
    seq!["satelliteId"@, "epoch"@, "magnitude"@, "radialMagnitude"@, "inTrackMagnitude"@, "crossTrackMagnitude"@]
}

/// Decodes from an object's fields.
pub open spec fn create_maneuver_request_from_fields(fs: Seq<(Seq<char>, Json)>) -> Option<CreateManeuverRequest> {
    if {
        &&& sget_str(fs, "satelliteId"@) is Some
        &&& sget_str(fs, "epoch"@) is Some
        &&& sget_opt_dec(fs, "magnitude"@) is Some
        &&& sget_opt_dec(fs, "radialMagnitude"@) is Some
        &&& sget_opt_dec(fs, "inTrackMagnitude"@) is Some
        &&& sget_opt_dec(fs, "crossTrackMagnitude"@) is Some
    } {
        Some(
            CreateManeuverRequest {
                satellite_id: sget_str(fs, "satelliteId"@).unwrap(),
                epoch: sget_str(fs, "epoch"@).unwrap(),
                magnitude: sget_opt_dec(fs, "magnitude"@).unwrap(),
                radial_magnitude: sget_opt_dec(fs, "radialMagnitude"@).unwrap(),
                in_track_magnitude: sget_opt_dec(fs, "inTrackMagnitude"@).unwrap(),
                cross_track_magnitude: sget_opt_dec(fs, "crossTrackMagnitude"@).unwrap(),
            },
        )
    } else {
        None
    }
}

/// Decodes from a JSON value.
pub open spec fn create_maneuver_request_from_json(j: Json) -> Option<CreateManeuverRequest> {
    match j {
        Json::Obj(fields) => create_maneuver_request_from_fields(obj_view(fields@)),
        _ => None,
    }
}

impl CreateManeuverRequest {
    /// Encodes to the wire object: exactly the keys of `create_maneuver_request_keys`, in
    /// order; decoding the result yields this value back.
    pub fn to_json(&self) -> (j: Json)
        ensures
            (j matches Json::Obj(fields) && field_keys(fields@) == create_maneuver_request_keys()),
            create_maneuver_request_from_json(j) == Some(*self),
    {
        let mut fields: Vec<(String, Json)> = Vec::new();
        push_field(&mut fields, "satelliteId", Json::Str(self.satellite_id.clone()));
        push_field(&mut fields, "epoch", Json::Str(self.epoch.clone()));
        push_field(&mut fields, "magnitude", opt_dec_to_json(&self.magnitude));
        push_field(&mut fields, "radialMagnitude", opt_dec_to_json(&self.radial_magnitude));
        push_field(&mut fields, "inTrackMagnitude", opt_dec_to_json(&self.in_track_magnitude));
        push_field(&mut fields, "crossTrackMagnitude", opt_dec_to_json(&self.cross_track_magnitude));
        proof {
            reveal_strlit("satelliteId");
            reveal_strlit("epoch");
            reveal_strlit("magnitude");
            reveal_strlit("radialMagnitude");
            reveal_strlit("inTrackMagnitude");
            reveal_strlit("crossTrackMagnitude");
            assert("satelliteId"@.len() == 11);
            assert("epoch"@.len() == 5);
            assert("magnitude"@.len() == 9);
            assert("radialMagnitude"@.len() == 15);
            assert("inTrackMagnitude"@.len() == 16);
            assert("crossTrackMagnitude"@.len() == 19);
            assert(field_keys(fields@) =~= create_maneuver_request_keys());
            let fs = obj_view(fields@);
            assert(fs.len() == 6);
            assert(fs[0].0 == "satelliteId"@);
            assert(fs[1].0 == "epoch"@);
            assert(fs[2].0 == "magnitude"@);
            assert(fs[3].0 == "radialMagnitude"@);
            assert(fs[4].0 == "inTrackMagnitude"@);
            assert(fs[5].0 == "crossTrackMagnitude"@);
            lemma_obj_get_found(fs, "satelliteId"@, 0);
            lemma_obj_get_found(fs, "epoch"@, 1);
            lemma_obj_get_found(fs, "magnitude"@, 2);
            lemma_obj_get_found(fs, "radialMagnitude"@, 3);
            lemma_obj_get_found(fs, "inTrackMagnitude"@, 4);
            lemma_obj_get_found(fs, "crossTrackMagnitude"@, 5);
            assert(sget_str(fs, "satelliteId"@) == Some(self.satellite_id));
            assert(sget_str(fs, "epoch"@) == Some(self.epoch));
            assert(sget_opt_dec(fs, "magnitude"@) == Some(self.magnitude));
            assert(sget_opt_dec(fs, "radialMagnitude"@) == Some(self.radial_magnitude));
            assert(sget_opt_dec(fs, "inTrackMagnitude"@) == Some(self.in_track_magnitude));
            assert(sget_opt_dec(fs, "crossTrackMagnitude"@) == Some(self.cross_track_magnitude));
            assert(create_maneuver_request_from_fields(fs) == Some(*self));
        }
        Json::Obj(fields)
    }

    /// Decodes from a JSON value; `None` on any shape mismatch.
    pub fn from_json(j: &Json) -> (r: Option<CreateManeuverRequest>)
        ensures
            r == create_maneuver_request_from_json(*j),
    {
        match j {
            Json::Obj(fields) => {
                let satellite_id = match get_str(fields, "satelliteId") {
                    Some(v) => v,
                    None => {
                        return None;
                    },
                };
                let epoch = match get_str(fields, "epoch") {
                    Some(v) => v,
                    None => {
                        return None;
                    },
                };
                let magnitude = match get_opt_dec(fields, "magnitude") {
                    Some(v) => v,
                    None => {
                        return None;
                    },
                };
                let radial_magnitude = match get_opt_dec(fields, "radialMagnitude") {
                    Some(v) => v,
                    None => {
                        return None;
                    },
                };
                let in_track_magnitude = match get_opt_dec(fields, "inTrackMagnitude") {
                    Some(v) => v,
                    None => {
                        return None;
                    },
                };
                let cross_track_magnitude = match get_opt_dec(fields, "crossTrackMagnitude") {
                    Some(v) => v,
                    None => {
                        return None;
                    },
                };
                Some(
                    CreateManeuverRequest {
                        satellite_id, epoch, magnitude, radial_magnitude, in_track_magnitude,
                        cross_track_magnitude,
                    },
                )
            },
            _ => None,
        }
    }
}

/// The caller-settable fields of a maneuver update.
#[derive(Clone, Debug, PartialEq)]
pub struct UpdateManeuverRequest {
    pub status: Option<String>,
    pub epoch: Option<String>,
    pub magnitude: Option<Decimal>,
    pub radial_magnitude: Option<Decimal>,
    pub in_track_magnitude: Option<Decimal>,
    pub cross_track_magnitude: Option<Decimal>,
}

/// The wire keys of this record, in the order the client writes them.
pub open spec fn update_maneuver_request_keys() -> Seq<Seq<char>> {
    seq!["status"@, "epoch"@, "magnitude"@, "radialMagnitude"@, "inTrackMagnitude"@, "crossTrackMagnitude"@]
}

/// Decodes from an object's fields.
pub open spec fn update_maneuver_request_from_fields(fs: Seq<(Seq<char>, Json)>) -> Option<UpdateManeuverRequest> {
    if {
        &&& sget_opt_str(fs, "status"@) is Some
        &&& sget_opt_str(fs, "epoch"@) is Some
        &&& sget_opt_dec(fs, "magnitude"@) is Some
        &&& sget_opt_dec(fs, "radialMagnitude"@) is Some
        &&& sget_opt_dec(fs, "inTrackMagnitude"@) is Some
        &&& sget_opt_dec(fs, "crossTrackMagnitude"@) is Some
    } {
        Some(
            UpdateManeuverRequest {
                status: sget_opt_str(fs, "status"@).unwrap(),
                epoch: sget_opt_str(fs, "epoch"@).unwrap(),
                magnitude: sget_opt_dec(fs, "magnitude"@).unwrap(),
                radial_magnitude: sget_opt_dec(fs, "radialMagnitude"@).unwrap(),
                in_track_magnitude: sget_opt_dec(fs, "inTrackMagnitude"@).unwrap(),
                cross_track_magnitude: sget_opt_dec(fs, "crossTrackMagnitude"@).unwrap(),
            },
        )
    } else {
        None
    }
}

/// Decodes from a JSON value.
pub open spec fn update_maneuver_request_from_json(j: Json) -> Option<UpdateManeuverRequest> {
    match j {
        Json::Obj(fields) => update_maneuver_request_from_fields(obj_view(fields@)),
        _ => None,
    }
}

impl UpdateManeuverRequest {
    /// Encodes to the wire object: exactly the keys of `update_maneuver_request_keys`, in
    /// order; decoding the result yields this value back.
    pub fn to_json(&self) -> (j: Json)
        ensures
            (j matches Json::Obj(fields) && field_keys(fields@) == update_maneuver_request_keys()),
            update_maneuver_request_from_json(j) == Some(*self),
    {
        let mut fields: Vec<(String, Json)> = Vec::new();
        push_field(&mut fields, "status", opt_str_to_json(&self.status));
        push_field(&mut fields, "epoch", opt_str_to_json(&self.epoch));
        push_field(&mut fields, "magnitude", opt_dec_to_json(&self.magnitude));
        push_field(&mut fields, "radialMagnitude", opt_dec_to_json(&self.radial_magnitude));
        push_field(&mut fields, "inTrackMagnitude", opt_dec_to_json(&self.in_track_magnitude));
        push_field(&mut fields, "crossTrackMagnitude", opt_dec_to_json(&self.cross_track_magnitude));
        proof {
            reveal_strlit("status");
            reveal_strlit("epoch");
            reveal_strlit("magnitude");
            reveal_strlit("radialMagnitude");
            reveal_strlit("inTrackMagnitude");
            reveal_strlit("crossTrackMagnitude");
            assert("status"@.len() == 6);
            assert("epoch"@.len() == 5);
            assert("magnitude"@.len() == 9);
            assert("radialMagnitude"@.len() == 15);
            assert("inTrackMagnitude"@.len() == 16);
            assert("crossTrackMagnitude"@.len() == 19);
            assert(field_keys(fields@) =~= update_maneuver_request_keys());
            let fs = obj_view(fields@);
            assert(fs.len() == 6);
            assert(fs[0].0 == "status"@);
            assert(fs[1].0 == "epoch"@);
            assert(fs[2].0 == "magnitude"@);
            assert(fs[3].0 == "radialMagnitude"@);
            assert(fs[4].0 == "inTrackMagnitude"@);
            assert(fs[5].0 == "crossTrackMagnitude"@);
            lemma_obj_get_found(fs, "status"@, 0);
            lemma_obj_get_found(fs, "epoch"@, 1);
            lemma_obj_get_found(fs, "magnitude"@, 2);
            lemma_obj_get_found(fs, "radialMagnitude"@, 3);
            lemma_obj_get_found(fs, "inTrackMagnitude"@, 4);
            lemma_obj_get_found(fs, "crossTrackMagnitude"@, 5);
            assert(sget_opt_str(fs, "status"@) == Some(self.status));
            assert(sget_opt_str(fs, "epoch"@) == Some(self.epoch));
            assert(sget_opt_dec(fs, "magnitude"@) == Some(self.magnitude));
            assert(sget_opt_dec(fs, "radialMagnitude"@) == Some(self.radial_magnitude));
            assert(sget_opt_dec(fs, "inTrackMagnitude"@) == Some(self.in_track_magnitude));
            assert(sget_opt_dec(fs, "crossTrackMagnitude"@) == Some(self.cross_track_magnitude));
            assert(update_maneuver_request_from_fields(fs) == Some(*self));
        }
        Json::Obj(fields)
    }

    /// Decodes from a JSON value; `None` on any shape mismatch.
    pub fn from_json(j: &Json) -> (r: Option<UpdateManeuverRequest>)
        ensures
            r == update_maneuver_request_from_json(*j),
    {
        match j {
            Json::Obj(fields) => {
                let status = match get_opt_str(fields, "status") {
                    Some(v) => v,
                    None => {
                        return None;
                    },
                };
                let epoch = match get_opt_str(fields, "epoch") {
                    Some(v) => v,
                    None => {
                        return None;
                    },
                };
                let magnitude = match get_opt_dec(fields, "magnitude") {
                    Some(v) => v,
                    None => {
                        return None;
                    },
                };
                let radial_magnitude = match get_opt_dec(fields, "radialMagnitude") {
                    Some(v) => v,
                    None => {
                        return None;
                    },
                };
                let in_track_magnitude = match get_opt_dec(fields, "inTrackMagnitude") {
                    Some(v) => v,
                    None => {
                        return None;
                    },
                };
                let cross_track_magnitude = match get_opt_dec(fields, "crossTrackMagnitude") {
                    Some(v) => v,
                    None => {
                        return None;
                    },
                };
                Some(
                    UpdateManeuverRequest {
                        status, epoch, magnitude, radial_magnitude, in_track_magnitude,
                        cross_track_magnitude,
                    },
                )
            },
            _ => None,
        }
    }
}

/// Optional filters when listing maneuvers.
#[derive(Clone, Debug, PartialEq)]
pub struct ManeuverListQuery {
    pub satellite_id: Option<String>,
    pub status: Option<String>,
    pub start: Option<String>,
    pub end: Option<String>,
    pub offset: Option<i64>,
    pub limit: Option<i64>,
}

/// The wire keys of this record, in the order the client writes them.
pub open spec fn maneuver_list_query_keys() -> Seq<Seq<char>> {
    seq!["satelliteId"@, "status"@, "start"@, "end"@, "offset"@, "limit"@]
}

/// Decodes from an object's fields.
pub open spec fn maneuver_list_query_from_fields(fs: Seq<(Seq<char>, Json)>) -> Option<ManeuverListQuery> {
    if {
        &&& sget_opt_str(fs, "satelliteId"@) is Some
        &&& sget_opt_str(fs, "status"@) is Some
        &&& sget_opt_str(fs, "start"@) is Some
        &&& sget_opt_str(fs, "end"@) is Some
        &&& sget_opt_i64(fs, "offset"@) is Some
        &&& sget_opt_i64(fs, "limit"@) is Some
    } {
        Some(
            ManeuverListQuery {
                satellite_id: sget_opt_str(fs, "satelliteId"@).unwrap(),
                status: sget_opt_str(fs, "status"@).unwrap(),
                start: sget_opt_str(fs, "start"@).unwrap(),
                end: sget_opt_str(fs, "end"@).unwrap(),
                offset: sget_opt_i64(fs, "offset"@).unwrap(),
                limit: sget_opt_i64(fs, "limit"@).unwrap(),
            },
        )
    } else {
        None
    }
}

/// Decodes from a JSON value.
pub open spec fn maneuver_list_query_from_json(j: Json) -> Option<ManeuverListQuery> {
    match j {
        Json::Obj(fields) => maneuver_list_query_from_fields(obj_view(fields@)),
        _ => None,
    }
}

impl ManeuverListQuery {
    /// Encodes to the wire object: exactly the keys of `maneuver_list_query_keys`, in
    /// order; decoding the result yields this value back.
    pub fn to_json(&self) -> (j: Json)
        ensures
            (j matches Json::Obj(fields) && field_keys(fields@) == maneuver_list_query_keys()),
            maneuver_list_query_from_json(j) == Some(*self),
    {
        let mut fields: Vec<(String, Json)> = Vec::new();
        push_field(&mut fields, "satelliteId", opt_str_to_json(&self.satellite_id));
        push_field(&mut fields, "status", opt_str_to_json(&self.status));
        push_field(&mut fields, "start", opt_str_to_json(&self.start));
        push_field(&mut fields, "end", opt_str_to_json(&self.end));
        push_field(&mut fields, "offset", opt_i64_to_json(&self.offset));
        push_field(&mut fields, "limit", opt_i64_to_json(&self.limit));
        proof {
            reveal_strlit("satelliteId");
            reveal_strlit("status");
            reveal_strlit("start");
            reveal_strlit("end");
            reveal_strlit("offset");
            reveal_strlit("limit");
            assert("satelliteId"@.len() == 11);
            assert("status"@.len() == 6);
            assert("start"@.len() == 5);
            assert("end"@.len() == 3);
            assert("offset"@.len() == 6);
            assert("limit"@.len() == 5);
            assert("status"@[0] == 's');
            assert("offset"@[0] == 'o');
            assert("start"@[0] == 's');
            assert("limit"@[0] == 'l');
            assert(field_keys(fields@) =~= maneuver_list_query_keys());
            let fs = obj_view(fields@);
            assert(fs.len() == 6);
            assert(fs[0].0 == "satelliteId"@);
            assert(fs[1].0 == "status"@);
            assert(fs[2].0 == "start"@);
            assert(fs[3].0 == "end"@);
            assert(fs[4].0 == "offset"@);
            assert(fs[5].0 == "limit"@);
            lemma_obj_get_found(fs, "satelliteId"@, 0);
            lemma_obj_get_found(fs, "status"@, 1);
            lemma_obj_get_found(fs, "start"@, 2);
            lemma_obj_get_found(fs, "end"@, 3);
            lemma_obj_get_found(fs, "offset"@, 4);
            lemma_obj_get_found(fs, "limit"@, 5);
            if let Some(n) = self.offset {
                crate::num::lemma_parse_dec_i64(n);
            }
            if let Some(n) = self.limit {
                crate::num::lemma_parse_dec_i64(n);
            }
            assert(sget_opt_str(fs, "satelliteId"@) == Some(self.satellite_id));
            assert(sget_opt_str(fs, "status"@) == Some(self.status));
            assert(sget_opt_str(fs, "start"@) == Some(self.start));
            assert(sget_opt_str(fs, "end"@) == Some(self.end));
            assert(sget_opt_i64(fs, "offset"@) == Some(self.offset));
            assert(sget_opt_i64(fs, "limit"@) == Some(self.limit));
            assert(maneuver_list_query_from_fields(fs) == Some(*self));
        }
        Json::Obj(fields)
    }

    /// Decodes from a JSON value; `None` on any shape mismatch.
    pub fn from_json(j: &Json) -> (r: Option<ManeuverListQuery>)
        ensures
            r == maneuver_list_query_from_json(*j),
    {
        match j {
            Json::Obj(fields) => {
                let satellite_id = match get_opt_str(fields, "satelliteId") {
                    Some(v) => v,
                    None => {
                        return None;
                    },
                };
                let status = match get_opt_str(fields, "status") {
                    Some(v) => v,
                    None => {
                        return None;
                    },
                };
                let start = match get_opt_str(fields, "start") {
                    Some(v) => v,
                    None => {
                        return None;
                    },
                };
                let end = match get_opt_str(fields, "end") {
                    Some(v) => v,
                    None => {
                        return None;
                    },
                };
                let offset = match get_opt_i64(fields, "offset") {
                    Some(v) => v,
                    None => {
                        return None;
                    },
                };
                let limit = match get_opt_i64(fields, "limit") {
                    Some(v) => v,
                    None => {
                        return None;
                    },
                };
                Some(
                    ManeuverListQuery {
                        satellite_id, status, start, end, offset, limit,
                    },
                )
            },
            _ => None,
        }
    }
}
} // verus!
