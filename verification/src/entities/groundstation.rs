//! Ground stations: fixed terrestrial sites hosting telescopes and antennas.
use vstd::prelude::*;
use vstd::string::StringExecFns;

use crate::json::Decimal;
use crate::json::Json;
use crate::json::field_keys;
use crate::json::get_dec;
use crate::json::get_str;
use crate::json::lemma_obj_get_found;
use crate::json::obj_get;
use crate::json::obj_view;
use crate::json::opt_vec_view;
use crate::json::push_field;
use crate::json::sget_dec;
use crate::json::sget_str;

verus! {

/// A ground station as the service returns it. Coordinates are decimal degrees; the altitude is in meters.
#[derive(Clone, Debug, PartialEq)]
pub struct Groundstation {
    pub id: String,
    pub name: String,
    pub latitude: Decimal,
    pub longitude: Decimal,
    pub altitude: Decimal,
    pub user_id: String,
    pub created_at: String,
    pub updated_at: String,
}

/// The wire keys of this record, in the order the client writes them.
pub open spec fn groundstation_keys() -> Seq<Seq<char>> {
    seq!["id"@, "name"@, "latitude"@, "longitude"@, "altitude"@, "userId"@, "creationEpoch"@, "updateEpoch"@]
}

/// Decodes from an object's fields.
pub open spec fn groundstation_from_fields(fs: Seq<(Seq<char>, Json)>) -> Option<Groundstation> {
    if {
        &&& sget_str(fs, "id"@) is Some
        &&& sget_str(fs, "name"@) is Some
        &&& sget_dec(fs, "latitude"@) is Some
        &&& sget_dec(fs, "longitude"@) is Some
        &&& sget_dec(fs, "altitude"@) is Some
        &&& sget_str(fs, "userId"@) is Some
        &&& sget_str(fs, "creationEpoch"@) is Some
        &&& sget_str(fs, "updateEpoch"@) is Some
    } {
        Some(
            Groundstation {
                id: sget_str(fs, "id"@).unwrap(),
                name: sget_str(fs, "name"@).unwrap(),
                latitude: sget_dec(fs, "latitude"@).unwrap(),
                longitude: sget_dec(fs, "longitude"@).unwrap(),
                altitude: sget_dec(fs, "altitude"@).unwrap(),
                user_id: sget_str(fs, "userId"@).unwrap(),
                created_at: sget_str(fs, "creationEpoch"@).unwrap(),
                updated_at: sget_str(fs, "updateEpoch"@).unwrap(),
            },
        )
    } else {
        None
    }
}

/// Decodes from a JSON value.
pub open spec fn groundstation_from_json(j: Json) -> Option<Groundstation> {
    match j {
        Json::Obj(fields) => groundstation_from_fields(obj_view(fields@)),
        _ => None,
    }
}

impl Groundstation {
    /// Encodes to the wire object: exactly the keys of `groundstation_keys`, in
    /// order; decoding the result yields this value back.
    pub fn to_json(&self) -> (j: Json)
        ensures
            (j matches Json::Obj(fields) && field_keys(fields@) == groundstation_keys()),
            groundstation_from_json(j) == Some(*self),
    {
        let mut fields: Vec<(String, Json)> = Vec::new();
        push_field(&mut fields, "id", Json::Str(self.id.clone()));
        push_field(&mut fields, "name", Json::Str(self.name.clone()));
        push_field(&mut fields, "latitude", Json::Num(self.latitude.text.clone()));
        push_field(&mut fields, "longitude", Json::Num(self.longitude.text.clone()));
        push_field(&mut fields, "altitude", Json::Num(self.altitude.text.clone()));
        push_field(&mut fields, "userId", Json::Str(self.user_id.clone()));
        push_field(&mut fields, "creationEpoch", Json::Str(self.created_at.clone()));
        push_field(&mut fields, "updateEpoch", Json::Str(self.updated_at.clone()));
        proof {
            reveal_strlit("id");
            reveal_strlit("name");
            reveal_strlit("latitude");
            reveal_strlit("longitude");
            reveal_strlit("altitude");
            reveal_strlit("userId");
            reveal_strlit("creationEpoch");
            reveal_strlit("updateEpoch");
            assert("id"@.len() == 2);
            assert("name"@.len() == 4);
            assert("latitude"@.len() == 8);
            assert("longitude"@.len() == 9);
            assert("altitude"@.len() == 8);
            assert("userId"@.len() == 6);
            assert("creationEpoch"@.len() == 13);
            assert("updateEpoch"@.len() == 11);
            assert("latitude"@[0] == 'l');
            assert("altitude"@[0] == 'a');
            assert(field_keys(fields@) =~= groundstation_keys());
            let fs = obj_view(fields@);
            assert(fs.len() == 8);
            assert(fs[0].0 == "id"@);
            assert(fs[1].0 == "name"@);
            assert(fs[2].0 == "latitude"@);
            assert(fs[3].0 == "longitude"@);
            assert(fs[4].0 == "altitude"@);
            assert(fs[5].0 == "userId"@);
            assert(fs[6].0 == "creationEpoch"@);
            assert(fs[7].0 == "updateEpoch"@);
            lemma_obj_get_found(fs, "id"@, 0);
            lemma_obj_get_found(fs, "name"@, 1);
            lemma_obj_get_found(fs, "latitude"@, 2);
            lemma_obj_get_found(fs, "longitude"@, 3);
            lemma_obj_get_found(fs, "altitude"@, 4);
            lemma_obj_get_found(fs, "userId"@, 5);
            lemma_obj_get_found(fs, "creationEpoch"@, 6);
            lemma_obj_get_found(fs, "updateEpoch"@, 7);
            assert(sget_str(fs, "id"@) == Some(self.id));
            assert(sget_str(fs, "name"@) == Some(self.name));
            assert(sget_dec(fs, "latitude"@) == Some(self.latitude));
            assert(sget_dec(fs, "longitude"@) == Some(self.longitude));
            assert(sget_dec(fs, "altitude"@) == Some(self.altitude));
            assert(sget_str(fs, "userId"@) == Some(self.user_id));
            assert(sget_str(fs, "creationEpoch"@) == Some(self.created_at));
            assert(sget_str(fs, "updateEpoch"@) == Some(self.updated_at));
            assert(groundstation_from_fields(fs) == Some(*self));
        }
        Json::Obj(fields)
    }

    /// Decodes from a JSON value; `None` on any shape mismatch.
    pub fn from_json(j: &Json) -> (r: Option<Groundstation>)
        ensures
            r == groundstation_from_json(*j),
    {
        match j {
            Json::Obj(fields) => {
                let id = match get_str(fields, "id") {
                    Some(v) => v,
                    None => {
                        return None;
                    },
                };
                let name = match get_str(fields, "name") {
                    Some(v) => v,
                    None => {
                        return None;
                    },
                };
                let latitude = match get_dec(fields, "latitude") {
                    Some(v) => v,
                    None => {
                        return None;
                    },
                };
                let longitude = match get_dec(fields, "longitude") {
                    Some(v) => v,
                    None => {
                        return None;
                    },
                };
                let altitude = match get_dec(fields, "altitude") {
                    Some(v) => v,
                    None => {
                        return None;
                    },
                };
                let user_id = match get_str(fields, "userId") {
                    Some(v) => v,
                    None => {
                        return None;
                    },
                };
                let created_at = match get_str(fields, "creationEpoch") {
                    Some(v) => v,
                    None => {
                        return None;
                    },
                };
                let updated_at = match get_str(fields, "updateEpoch") {
                    Some(v) => v,
                    None => {
                        return None;
                    },
                };
                Some(
                    Groundstation {
                        id, name, latitude, longitude, altitude, user_id, created_at,
                        updated_at,
                    },
                )
            },
            _ => None,
        }
    }
}

/// Decodes each element of a JSON array.
pub open spec fn groundstations_from_arr(items: Seq<Json>) -> Option<Seq<Groundstation>>
    decreases items.len(),
{
    if items.len() == 0 {
        Some(Seq::empty())
    } else {
        match groundstations_from_arr(items.drop_last()) {
            Some(init) => match groundstation_from_json(items.last()) {
                Some(x) => Some(init + seq![x]),
                None => None,
            },
            None => None,
        }
    }
}

/// Decodes a JSON array of these records.
pub open spec fn groundstation_vec_from_json(j: Json) -> Option<Seq<Groundstation>> {
    match j {
        Json::Arr(items) => groundstations_from_arr(items@),
        _ => None,
    }
}

proof fn lemma_groundstations_from_arr_fails(items: Seq<Json>, i: int)
    requires
        0 <= i < items.len(),
        groundstation_from_json(items[i]) is None,
    ensures
        groundstations_from_arr(items) is None,
    decreases items.len(),
{
    if items.len() > 0 {
        if i < items.len() - 1 {
            assert(items.drop_last()[i] == items[i]);
            lemma_groundstations_from_arr_fails(items.drop_last(), i);
        }
    }
}

/// Decodes a JSON array of these records; `None` on any mismatch.
#[verifier::loop_isolation(false)]
pub fn groundstations_from_json(j: &Json) -> (r: Option<Vec<Groundstation>>)
    ensures
        opt_vec_view(r) == groundstation_vec_from_json(*j),
{
    match j {
        Json::Arr(items) => {
            let mut out: Vec<Groundstation> = Vec::new();
            let mut i: usize = 0;
            while i < items.len()
                invariant
                    i <= items@.len(),
                    groundstations_from_arr(items@.take(i as int)) == Some(out@),
                decreases items@.len() - i,
            {
                match Groundstation::from_json(&items[i]) {
                    Some(x) => {
                        out.push(x);
                    },
                    None => {
                        proof {
                            lemma_groundstations_from_arr_fails(items@, i as int);
                        }
                        return None;
                    },
                }
                proof {
                    let t = items@.take(i + 1);
                    assert(t.drop_last() =~= items@.take(i as int));
                    assert(t.last() == items@[i as int]);
                }
                i += 1;
            }
            proof {
                assert(items@.take(items@.len() as int) =~= items@);
            }
            Some(out)
        },
        _ => None,
    }
}

/// The caller-settable fields of a new or updated ground station.
#[derive(Clone, Debug, PartialEq)]
pub struct GroundstationCreateRequest {
    pub name: String,
    pub latitude: Decimal,
    pub longitude: Decimal,
    pub altitude: Decimal,
}

/// The wire keys of this record, in the order the client writes them.
pub open spec fn groundstation_create_request_keys() -> Seq<Seq<char>> {
    seq!["name"@, "latitude"@, "longitude"@, "altitude"@]
}

/// Decodes from an object's fields.
pub open spec fn groundstation_create_request_from_fields(fs: Seq<(Seq<char>, Json)>) -> Option<GroundstationCreateRequest> {
    if {
        &&& sget_str(fs, "name"@) is Some
        &&& sget_dec(fs, "latitude"@) is Some
        &&& sget_dec(fs, "longitude"@) is Some
        &&& sget_dec(fs, "altitude"@) is Some
    } {
        Some(
            GroundstationCreateRequest {
                name: sget_str(fs, "name"@).unwrap(),
                latitude: sget_dec(fs, "latitude"@).unwrap(),
                longitude: sget_dec(fs, "longitude"@).unwrap(),
                altitude: sget_dec(fs, "altitude"@).unwrap(),
            },
        )
    } else {
        None
    }
}

/// Decodes from a JSON value.
pub open spec fn groundstation_create_request_from_json(j: Json) -> Option<GroundstationCreateRequest> {
    match j {
        Json::Obj(fields) => groundstation_create_request_from_fields(obj_view(fields@)),
        _ => None,
    }
}

impl GroundstationCreateRequest {
    /// Encodes to the wire object: exactly the keys of `groundstation_create_request_keys`, in
    /// order; decoding the result yields this value back.
    pub fn to_json(&self) -> (j: Json)
        ensures
            (j matches Json::Obj(fields) && field_keys(fields@) == groundstation_create_request_keys()),
            groundstation_create_request_from_json(j) == Some(*self),
    {
        let mut fields: Vec<(String, Json)> = Vec::new();
        push_field(&mut fields, "name", Json::Str(self.name.clone()));
        push_field(&mut fields, "latitude", Json::Num(self.latitude.text.clone()));
        push_field(&mut fields, "longitude", Json::Num(self.longitude.text.clone()));
        push_field(&mut fields, "altitude", Json::Num(self.altitude.text.clone()));
        proof {
            reveal_strlit("name");
            reveal_strlit("latitude");
            reveal_strlit("longitude");
            reveal_strlit("altitude");
            assert("name"@.len() == 4);
            assert("latitude"@.len() == 8);
            assert("longitude"@.len() == 9);
            assert("altitude"@.len() == 8);
            assert("latitude"@[0] == 'l');
            assert("altitude"@[0] == 'a');
            assert(field_keys(fields@) =~= groundstation_create_request_keys());
            let fs = obj_view(fields@);
            assert(fs.len() == 4);
            assert(fs[0].0 == "name"@);
            assert(fs[1].0 == "latitude"@);
            assert(fs[2].0 == "longitude"@);
            assert(fs[3].0 == "altitude"@);
            lemma_obj_get_found(fs, "name"@, 0);
            lemma_obj_get_found(fs, "latitude"@, 1);
            lemma_obj_get_found(fs, "longitude"@, 2);
            lemma_obj_get_found(fs, "altitude"@, 3);
            assert(sget_str(fs, "name"@) == Some(self.name));
            assert(sget_dec(fs, "latitude"@) == Some(self.latitude));
            assert(sget_dec(fs, "longitude"@) == Some(self.longitude));
            assert(sget_dec(fs, "altitude"@) == Some(self.altitude));
            assert(groundstation_create_request_from_fields(fs) == Some(*self));
        }
        Json::Obj(fields)
    }

    /// Decodes from a JSON value; `None` on any shape mismatch.
    pub fn from_json(j: &Json) -> (r: Option<GroundstationCreateRequest>)
        ensures
            r == groundstation_create_request_from_json(*j),
    {
        match j {
            Json::Obj(fields) => {
                let name = match get_str(fields, "name") {
                    Some(v) => v,
                    None => {
                        return None;
                    },
                };
                let latitude = match get_dec(fields, "latitude") {
                    Some(v) => v,
                    None => {
                        return None;
                    },
                };
                let longitude = match get_dec(fields, "longitude") {
                    Some(v) => v,
                    None => {
                        return None;
                    },
                };
                let altitude = match get_dec(fields, "altitude") {
                    Some(v) => v,
                    None => {
                        return None;
                    },
                };
                Some(
                    GroundstationCreateRequest {
                        name, latitude, longitude, altitude,
                    },
                )
            },
            _ => None,
        }
    }
}
} // verus!
