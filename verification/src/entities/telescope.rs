//! Telescopes: optical sensors attached to ground stations.
use vstd::prelude::*;
use vstd::string::StringExecFns;

use crate::json::Decimal;
use crate::json::Json;
use crate::json::field_keys;
use crate::json::get_bool;
use crate::json::get_dec;
use crate::json::get_opt_str;
use crate::json::get_str;
use crate::json::lemma_obj_get_found;
use crate::json::obj_get;
use crate::json::obj_view;
use crate::json::opt_str_to_json;
use crate::json::opt_vec_view;
use crate::json::push_field;
use crate::json::sget_bool;
use crate::json::sget_dec;
use crate::json::sget_opt_str;
use crate::json::sget_str;

verus! {

/// A telescope as the service returns it. Angles are in degrees.
#[derive(Clone, Debug, PartialEq)]
pub struct Telescope {
    pub id: String,
    pub name: String,
    pub groundstation_id: Option<String>,
    pub user_id: String,
    pub satellite_id: Option<String>,
    pub created_at: String,
    pub last_connected_at: Option<String>,
    pub angular_noise_arcsec: Decimal,
    pub field_of_view_deg: Decimal,
    pub limiting_magnitude: Decimal,
    pub min_elevation_deg: Decimal,
    pub max_slew_rate_deg_per_sec: Decimal,
    pub home_azimuth_deg: Decimal,
    pub home_elevation_deg: Decimal,
    pub automated_scheduling: bool,
}

/// The wire keys of this record, in the order the client writes them.
pub open spec fn telescope_keys() -> Seq<Seq<char>> {
    seq!["id"@, "name"@, "groundStationId"@, "userId"@, "satelliteId"@, "creationEpoch"@, "lastConnectionEpoch"@, "angularNoise"@, "fieldOfView"@, "maxMagnitude"@, "minElevation"@, "maxSlewRate"@, "homeAzimuth"@, "homeElevation"@, "automatedScheduling"@]
}

/// Decodes from an object's fields.
pub open spec fn telescope_from_fields(fs: Seq<(Seq<char>, Json)>) -> Option<Telescope> {
    if {
        &&& sget_str(fs, "id"@) is Some
        &&& sget_str(fs, "name"@) is Some
        &&& sget_opt_str(fs, "groundStationId"@) is Some
        &&& sget_str(fs, "userId"@) is Some
        &&& sget_opt_str(fs, "satelliteId"@) is Some
        &&& sget_str(fs, "creationEpoch"@) is Some
        &&& sget_opt_str(fs, "lastConnectionEpoch"@) is Some
        &&& sget_dec(fs, "angularNoise"@) is Some
        &&& sget_dec(fs, "fieldOfView"@) is Some
        &&& sget_dec(fs, "maxMagnitude"@) is Some
        &&& sget_dec(fs, "minElevation"@) is Some
        &&& sget_dec(fs, "maxSlewRate"@) is Some
        &&& sget_dec(fs, "homeAzimuth"@) is Some
        &&& sget_dec(fs, "homeElevation"@) is Some
        &&& sget_bool(fs, "automatedScheduling"@) is Some
    } {
        Some(
            Telescope {
                id: sget_str(fs, "id"@).unwrap(),
                name: sget_str(fs, "name"@).unwrap(),
                groundstation_id: sget_opt_str(fs, "groundStationId"@).unwrap(),
                user_id: sget_str(fs, "userId"@).unwrap(),
                satellite_id: sget_opt_str(fs, "satelliteId"@).unwrap(),
                created_at: sget_str(fs, "creationEpoch"@).unwrap(),
                last_connected_at: sget_opt_str(fs, "lastConnectionEpoch"@).unwrap(),
                angular_noise_arcsec: sget_dec(fs, "angularNoise"@).unwrap(),
                field_of_view_deg: sget_dec(fs, "fieldOfView"@).unwrap(),
                limiting_magnitude: sget_dec(fs, "maxMagnitude"@).unwrap(),
                min_elevation_deg: sget_dec(fs, "minElevation"@).unwrap(),
                max_slew_rate_deg_per_sec: sget_dec(fs, "maxSlewRate"@).unwrap(),
                home_azimuth_deg: sget_dec(fs, "homeAzimuth"@).unwrap(),
                home_elevation_deg: sget_dec(fs, "homeElevation"@).unwrap(),
                automated_scheduling: sget_bool(fs, "automatedScheduling"@).unwrap(),
            },
        )
    } else {
        None
    }
}

/// Decodes from a JSON value.
pub open spec fn telescope_from_json(j: Json) -> Option<Telescope> {
    match j {
        Json::Obj(fields) => telescope_from_fields(obj_view(fields@)),
        _ => None,
    }
}

impl Telescope {
    /// Encodes to the wire object: exactly the keys of `telescope_keys`, in
    /// order; decoding the result yields this value back.
    pub fn to_json(&self) -> (j: Json)
        ensures
            (j matches Json::Obj(fields) && field_keys(fields@) == telescope_keys()),
            telescope_from_json(j) == Some(*self),
    {
        let mut fields: Vec<(String, Json)> = Vec::new();
        push_field(&mut fields, "id", Json::Str(self.id.clone()));
        push_field(&mut fields, "name", Json::Str(self.name.clone()));
        push_field(&mut fields, "groundStationId", opt_str_to_json(&self.groundstation_id));
        push_field(&mut fields, "userId", Json::Str(self.user_id.clone()));
        push_field(&mut fields, "satelliteId", opt_str_to_json(&self.satellite_id));
        push_field(&mut fields, "creationEpoch", Json::Str(self.created_at.clone()));
        push_field(&mut fields, "lastConnectionEpoch", opt_str_to_json(&self.last_connected_at));
        push_field(&mut fields, "angularNoise", Json::Num(self.angular_noise_arcsec.text.clone()));
        push_field(&mut fields, "fieldOfView", Json::Num(self.field_of_view_deg.text.clone()));
        push_field(&mut fields, "maxMagnitude", Json::Num(self.limiting_magnitude.text.clone()));
        push_field(&mut fields, "minElevation", Json::Num(self.min_elevation_deg.text.clone()));
        push_field(&mut fields, "maxSlewRate", Json::Num(self.max_slew_rate_deg_per_sec.text.clone()));
        push_field(&mut fields, "homeAzimuth", Json::Num(self.home_azimuth_deg.text.clone()));
        push_field(&mut fields, "homeElevation", Json::Num(self.home_elevation_deg.text.clone()));
        push_field(&mut fields, "automatedScheduling", Json::Bool(self.automated_scheduling));
        proof {
            reveal_strlit("id");
            reveal_strlit("name");
            reveal_strlit("groundStationId");
            reveal_strlit("userId");
            reveal_strlit("satelliteId");
            reveal_strlit("creationEpoch");
            reveal_strlit("lastConnectionEpoch");
            reveal_strlit("angularNoise");
            reveal_strlit("fieldOfView");
            reveal_strlit("maxMagnitude");
            reveal_strlit("minElevation");
            reveal_strlit("maxSlewRate");
            reveal_strlit("homeAzimuth");
            reveal_strlit("homeElevation");
            reveal_strlit("automatedScheduling");
            assert("id"@.len() == 2);
            assert("name"@.len() == 4);
            assert("groundStationId"@.len() == 15);
            assert("userId"@.len() == 6);
            assert("satelliteId"@.len() == 11);
            assert("creationEpoch"@.len() == 13);
            assert("lastConnectionEpoch"@.len() == 19);
            assert("angularNoise"@.len() == 12);
            assert("fieldOfView"@.len() == 11);
            assert("maxMagnitude"@.len() == 12);
            assert("minElevation"@.len() == 12);
            assert("maxSlewRate"@.len() == 11);
            assert("homeAzimuth"@.len() == 11);
            assert("homeElevation"@.len() == 13);
            assert("automatedScheduling"@.len() == 19);
            assert("satelliteId"@[0] == 's');
            assert("fieldOfView"@[0] == 'f');
            assert("maxSlewRate"@[0] == 'm');
            assert("homeAzimuth"@[0] == 'h');
            assert("creationEpoch"@[0] == 'c');
            assert("homeElevation"@[0] == 'h');
            assert("lastConnectionEpoch"@[0] == 'l');
            assert("automatedScheduling"@[0] == 'a');
            assert("angularNoise"@[0] == 'a');
            assert("maxMagnitude"@[0] == 'm');
            assert("minElevation"@[0] == 'm');
            assert("maxMagnitude"@[1] == 'a');
            assert("minElevation"@[1] == 'i');
            assert(field_keys(fields@) =~= telescope_keys());
            let fs = obj_view(fields@);
            assert(fs.len() == 15);
            assert(fs[0].0 == "id"@);
            assert(fs[1].0 == "name"@);
            assert(fs[2].0 == "groundStationId"@);
            assert(fs[3].0 == "userId"@);
            assert(fs[4].0 == "satelliteId"@);
            assert(fs[5].0 == "creationEpoch"@);
            assert(fs[6].0 == "lastConnectionEpoch"@);
            assert(fs[7].0 == "angularNoise"@);
            assert(fs[8].0 == "fieldOfView"@);
            assert(fs[9].0 == "maxMagnitude"@);
            assert(fs[10].0 == "minElevation"@);
            assert(fs[11].0 == "maxSlewRate"@);
            assert(fs[12].0 == "homeAzimuth"@);
            assert(fs[13].0 == "homeElevation"@);
            assert(fs[14].0 == "automatedScheduling"@);
            lemma_obj_get_found(fs, "id"@, 0);
            lemma_obj_get_found(fs, "name"@, 1);
            lemma_obj_get_found(fs, "groundStationId"@, 2);
            lemma_obj_get_found(fs, "userId"@, 3);
            lemma_obj_get_found(fs, "satelliteId"@, 4);
            lemma_obj_get_found(fs, "creationEpoch"@, 5);
            lemma_obj_get_found(fs, "lastConnectionEpoch"@, 6);
            lemma_obj_get_found(fs, "angularNoise"@, 7);
            lemma_obj_get_found(fs, "fieldOfView"@, 8);
            lemma_obj_get_found(fs, "maxMagnitude"@, 9);
            lemma_obj_get_found(fs, "minElevation"@, 10);
            lemma_obj_get_found(fs, "maxSlewRate"@, 11);
            lemma_obj_get_found(fs, "homeAzimuth"@, 12);
            lemma_obj_get_found(fs, "homeElevation"@, 13);
            lemma_obj_get_found(fs, "automatedScheduling"@, 14);
            assert(sget_str(fs, "id"@) == Some(self.id));
            assert(sget_str(fs, "name"@) == Some(self.name));
            assert(sget_opt_str(fs, "groundStationId"@) == Some(self.groundstation_id));
            assert(sget_str(fs, "userId"@) == Some(self.user_id));
            assert(sget_opt_str(fs, "satelliteId"@) == Some(self.satellite_id));
            assert(sget_str(fs, "creationEpoch"@) == Some(self.created_at));
            assert(sget_opt_str(fs, "lastConnectionEpoch"@) == Some(self.last_connected_at));
            assert(sget_dec(fs, "angularNoise"@) == Some(self.angular_noise_arcsec));
            assert(sget_dec(fs, "fieldOfView"@) == Some(self.field_of_view_deg));
            assert(sget_dec(fs, "maxMagnitude"@) == Some(self.limiting_magnitude));
            assert(sget_dec(fs, "minElevation"@) == Some(self.min_elevation_deg));
            assert(sget_dec(fs, "maxSlewRate"@) == Some(self.max_slew_rate_deg_per_sec));
            assert(sget_dec(fs, "homeAzimuth"@) == Some(self.home_azimuth_deg));
            assert(sget_dec(fs, "homeElevation"@) == Some(self.home_elevation_deg));
            assert(sget_bool(fs, "automatedScheduling"@) == Some(self.automated_scheduling));
            assert(telescope_from_fields(fs) == Some(*self));
        }
        Json::Obj(fields)
    }

    /// Decodes from a JSON value; `None` on any shape mismatch.
    pub fn from_json(j: &Json) -> (r: Option<Telescope>)
        ensures
            r == telescope_from_json(*j),
    {
        match j {
            Json::Obj(fields) => {
                let id = match get_str(fields, "id") {
                    Some(v) => v,
                    None => {
                        return None;
                    },
                };
                let name = match get_str(fields, "name") {
                    Some(v) => v,
                    None => {
                        return None;
                    },
                };
                let groundstation_id = match get_opt_str(fields, "groundStationId") {
                    Some(v) => v,
                    None => {
                        return None;
                    },
                };
                let user_id = match get_str(fields, "userId") {
                    Some(v) => v,
                    None => {
                        return None;
                    },
                };
                let satellite_id = match get_opt_str(fields, "satelliteId") {
                    Some(v) => v,
                    None => {
                        return None;
                    },
                };
                let created_at = match get_str(fields, "creationEpoch") {
                    Some(v) => v,
                    None => {
                        return None;
                    },
                };
                let last_connected_at = match get_opt_str(fields, "lastConnectionEpoch") {
                    Some(v) => v,
                    None => {
                        return None;
                    },
                };
                let angular_noise_arcsec = match get_dec(fields, "angularNoise") {
                    Some(v) => v,
                    None => {
                        return None;
                    },
                };
                let field_of_view_deg = match get_dec(fields, "fieldOfView") {
                    Some(v) => v,
                    None => {
                        return None;
                    },
                };
                let limiting_magnitude = match get_dec(fields, "maxMagnitude") {
                    Some(v) => v,
                    None => {
                        return None;
                    },
                };
                let min_elevation_deg = match get_dec(fields, "minElevation") {
                    Some(v) => v,
                    None => {
                        return None;
                    },
                };
                let max_slew_rate_deg_per_sec = match get_dec(fields, "maxSlewRate") {
                    Some(v) => v,
                    None => {
                        return None;
                    },
                };
                let home_azimuth_deg = match get_dec(fields, "homeAzimuth") {
                    Some(v) => v,
                    None => {
                        return None;
                    },
                };
                let home_elevation_deg = match get_dec(fields, "homeElevation") {
                    Some(v) => v,
                    None => {
                        return None;
                    },
                };
                let automated_scheduling = match get_bool(fields, "automatedScheduling") {
                    Some(v) => v,
                    None => {
                        return None;
                    },
                };
                Some(
                    Telescope {
                        id, name, groundstation_id, user_id, satellite_id, created_at,
                        last_connected_at, angular_noise_arcsec, field_of_view_deg,
                        limiting_magnitude, min_elevation_deg, max_slew_rate_deg_per_sec,
                        home_azimuth_deg, home_elevation_deg, automated_scheduling,
                    },
                )
            },
            _ => None,
        }
    }
}

/// Decodes each element of a JSON array.
pub open spec fn telescopes_from_arr(items: Seq<Json>) -> Option<Seq<Telescope>>
    decreases items.len(),
{
    if items.len() == 0 {
        Some(Seq::empty())
    } else {
        match telescopes_from_arr(items.drop_last()) {
            Some(init) => match telescope_from_json(items.last()) {
                Some(x) => Some(init + seq![x]),
                None => None,
            },
            None => None,
        }
    }
}

/// Decodes a JSON array of these records.
pub open spec fn telescope_vec_from_json(j: Json) -> Option<Seq<Telescope>> {
    match j {
        Json::Arr(items) => telescopes_from_arr(items@),
        _ => None,
    }
}

proof fn lemma_telescopes_from_arr_fails(items: Seq<Json>, i: int)
    requires
        0 <= i < items.len(),
        telescope_from_json(items[i]) is None,
    ensures
        telescopes_from_arr(items) is None,
    decreases items.len(),
{
    if items.len() > 0 {
        if i < items.len() - 1 {
            assert(items.drop_last()[i] == items[i]);
            lemma_telescopes_from_arr_fails(items.drop_last(), i);
        }
    }
}

/// Decodes a JSON array of these records; `None` on any mismatch.
#[verifier::loop_isolation(false)]
pub fn telescopes_from_json(j: &Json) -> (r: Option<Vec<Telescope>>)
    ensures
        opt_vec_view(r) == telescope_vec_from_json(*j),
{
    match j {
        Json::Arr(items) => {
            let mut out: Vec<Telescope> = Vec::new();
            let mut i: usize = 0;
            while i < items.len()
                invariant
                    i <= items@.len(),
                    telescopes_from_arr(items@.take(i as int)) == Some(out@),
                decreases items@.len() - i,
            {
                match Telescope::from_json(&items[i]) {
                    Some(x) => {
                        out.push(x);
                    },
                    None => {
                        proof {
                            lemma_telescopes_from_arr_fails(items@, i as int);
                        }
                        return None;
                    },
                }
                proof {
                    let t = items@.take(i + 1);
                    assert(t.drop_last() =~= items@.take(i as int));
                    assert(t.last() == items@[i as int]);
                }
                i += 1;
            }
            proof {
                assert(items@.take(items@.len() as int) =~= items@);
            }
            Some(out)
        },
        _ => None,
    }
}
} // verus!
