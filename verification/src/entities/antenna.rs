//! Antennas: radio-frequency sensors attached to ground stations.
use vstd::prelude::*;
use vstd::string::StringExecFns;

use crate::json::Decimal;
use crate::json::Json;
use crate::json::field_keys;
use crate::json::get_dec;
use crate::json::get_opt_str;
use crate::json::get_str;
use crate::json::lemma_obj_get_found;
use crate::json::obj_get;
use crate::json::obj_view;
use crate::json::opt_str_to_json;
use crate::json::opt_vec_view;
use crate::json::push_field;
use crate::json::sget_dec;
use crate::json::sget_opt_str;
use crate::json::sget_str;

verus! {

/// An antenna as the service returns it. Frequencies are in hertz.
#[derive(Clone, Debug, PartialEq)]
pub struct Antenna {
    pub id: String,
    pub user_id: String,
    pub user_group_id: Option<String>,
    pub groundstation_id: Option<String>,
    pub satellite_id: Option<String>,
    pub created_at: String,
    pub last_connected_at: Option<String>,
    pub name: String,
    pub min_frequency_hz: Decimal,
    pub max_frequency_hz: Decimal,
    pub min_elevation_deg: Decimal,
    pub max_slew_rate_deg_per_sec: Decimal,
    pub home_azimuth_deg: Decimal,
    pub home_elevation_deg: Decimal,
    pub half_power_beam_width_deg: Decimal,
}

/// The wire keys of this record, in the order the client writes them.
pub open spec fn antenna_keys() -> Seq<Seq<char>> {
    seq!["id"@, "userId"@, "userGroupId"@, "groundStationId"@, "satelliteId"@, "creationEpoch"@, "lastConnectionEpoch"@, "name"@, "minFrequency"@, "maxFrequency"@, "minElevation"@, "maxSlewRate"@, "homeAzimuth"@, "homeElevation"@, "halfPowerBeamWidth"@]
}

/// Decodes from an object's fields.
pub open spec fn antenna_from_fields(fs: Seq<(Seq<char>, Json)>) -> Option<Antenna> {
    if {
        &&& sget_str(fs, "id"@) is Some
        &&& sget_str(fs, "userId"@) is Some
        &&& sget_opt_str(fs, "userGroupId"@) is Some
        &&& sget_opt_str(fs, "groundStationId"@) is Some
        &&& sget_opt_str(fs, "satelliteId"@) is Some
        &&& sget_str(fs, "creationEpoch"@) is Some
        &&& sget_opt_str(fs, "lastConnectionEpoch"@) is Some
        &&& sget_str(fs, "name"@) is Some
        &&& sget_dec(fs, "minFrequency"@) is Some
        &&& sget_dec(fs, "maxFrequency"@) is Some
        &&& sget_dec(fs, "minElevation"@) is Some
        &&& sget_dec(fs, "maxSlewRate"@) is Some
        &&& sget_dec(fs, "homeAzimuth"@) is Some
        &&& sget_dec(fs, "homeElevation"@) is Some
        &&& sget_dec(fs, "halfPowerBeamWidth"@) is Some
    } {
        Some(
            Antenna {
                id: sget_str(fs, "id"@).unwrap(),
                user_id: sget_str(fs, "userId"@).unwrap(),
                user_group_id: sget_opt_str(fs, "userGroupId"@).unwrap(),
                groundstation_id: sget_opt_str(fs, "groundStationId"@).unwrap(),
                satellite_id: sget_opt_str(fs, "satelliteId"@).unwrap(),
                created_at: sget_str(fs, "creationEpoch"@).unwrap(),
                last_connected_at: sget_opt_str(fs, "lastConnectionEpoch"@).unwrap(),
                name: sget_str(fs, "name"@).unwrap(),
                min_frequency_hz: sget_dec(fs, "minFrequency"@).unwrap(),
                max_frequency_hz: sget_dec(fs, "maxFrequency"@).unwrap(),
                min_elevation_deg: sget_dec(fs, "minElevation"@).unwrap(),
                max_slew_rate_deg_per_sec: sget_dec(fs, "maxSlewRate"@).unwrap(),
                home_azimuth_deg: sget_dec(fs, "homeAzimuth"@).unwrap(),
                home_elevation_deg: sget_dec(fs, "homeElevation"@).unwrap(),
                half_power_beam_width_deg: sget_dec(fs, "halfPowerBeamWidth"@).unwrap(),
            },
        )
    } else {
        None
    }
}

/// Decodes from a JSON value.
pub open spec fn antenna_from_json(j: Json) -> Option<Antenna> {
    match j {
        Json::Obj(fields) => antenna_from_fields(obj_view(fields@)),
        _ => None,
    }
}

impl Antenna {
    /// Encodes to the wire object: exactly the keys of `antenna_keys`, in
    /// order; decoding the result yields this value back.
    pub fn to_json(&self) -> (j: Json)
        ensures
            (j matches Json::Obj(fields) && field_keys(fields@) == antenna_keys()),
            antenna_from_json(j) == Some(*self),
    {
        let mut fields: Vec<(String, Json)> = Vec::new();
        push_field(&mut fields, "id", Json::Str(self.id.clone()));
        push_field(&mut fields, "userId", Json::Str(self.user_id.clone()));
        push_field(&mut fields, "userGroupId", opt_str_to_json(&self.user_group_id));
        push_field(&mut fields, "groundStationId", opt_str_to_json(&self.groundstation_id));
        push_field(&mut fields, "satelliteId", opt_str_to_json(&self.satellite_id));
        push_field(&mut fields, "creationEpoch", Json::Str(self.created_at.clone()));
        push_field(&mut fields, "lastConnectionEpoch", opt_str_to_json(&self.last_connected_at));
        push_field(&mut fields, "name", Json::Str(self.name.clone()));
        push_field(&mut fields, "minFrequency", Json::Num(self.min_frequency_hz.text.clone()));
        push_field(&mut fields, "maxFrequency", Json::Num(self.max_frequency_hz.text.clone()));
        push_field(&mut fields, "minElevation", Json::Num(self.min_elevation_deg.text.clone()));
        push_field(&mut fields, "maxSlewRate", Json::Num(self.max_slew_rate_deg_per_sec.text.clone()));
        push_field(&mut fields, "homeAzimuth", Json::Num(self.home_azimuth_deg.text.clone()));
        push_field(&mut fields, "homeElevation", Json::Num(self.home_elevation_deg.text.clone()));
        push_field(&mut fields, "halfPowerBeamWidth", Json::Num(self.half_power_beam_width_deg.text.clone()));
        proof {
            reveal_strlit("id");
            reveal_strlit("userId");
            reveal_strlit("userGroupId");
            reveal_strlit("groundStationId");
            reveal_strlit("satelliteId");
            reveal_strlit("creationEpoch");
            reveal_strlit("lastConnectionEpoch");
            reveal_strlit("name");
            reveal_strlit("minFrequency");
            reveal_strlit("maxFrequency");
            reveal_strlit("minElevation");
            reveal_strlit("maxSlewRate");
            reveal_strlit("homeAzimuth");
            reveal_strlit("homeElevation");
            reveal_strlit("halfPowerBeamWidth");
            assert("id"@.len() == 2);
            assert("userId"@.len() == 6);
            assert("userGroupId"@.len() == 11);
            assert("groundStationId"@.len() == 15);
            assert("satelliteId"@.len() == 11);
            assert("creationEpoch"@.len() == 13);
            assert("lastConnectionEpoch"@.len() == 19);
            assert("name"@.len() == 4);
            assert("minFrequency"@.len() == 12);
            assert("maxFrequency"@.len() == 12);
            assert("minElevation"@.len() == 12);
            assert("maxSlewRate"@.len() == 11);
            assert("homeAzimuth"@.len() == 11);
            assert("homeElevation"@.len() == 13);
            assert("halfPowerBeamWidth"@.len() == 18);
            assert("userGroupId"@[0] == 'u');
            assert("satelliteId"@[0] == 's');
            assert("maxSlewRate"@[0] == 'm');
            assert("homeAzimuth"@[0] == 'h');
            assert("creationEpoch"@[0] == 'c');
            assert("homeElevation"@[0] == 'h');
            assert("minFrequency"@[1] == 'i');
            assert("maxFrequency"@[1] == 'a');
            assert("minFrequency"@[3] == 'F');
            assert("minElevation"@[3] == 'E');
            assert("minElevation"@[1] == 'i');
            assert(field_keys(fields@) =~= antenna_keys());
            let fs = obj_view(fields@);
            assert(fs.len() == 15);
            assert(fs[0].0 == "id"@);
            assert(fs[1].0 == "userId"@);
            assert(fs[2].0 == "userGroupId"@);
            assert(fs[3].0 == "groundStationId"@);
            assert(fs[4].0 == "satelliteId"@);
            assert(fs[5].0 == "creationEpoch"@);
            assert(fs[6].0 == "lastConnectionEpoch"@);
            assert(fs[7].0 == "name"@);
            assert(fs[8].0 == "minFrequency"@);
            assert(fs[9].0 == "maxFrequency"@);
            assert(fs[10].0 == "minElevation"@);
            assert(fs[11].0 == "maxSlewRate"@);
            assert(fs[12].0 == "homeAzimuth"@);
            assert(fs[13].0 == "homeElevation"@);
            assert(fs[14].0 == "halfPowerBeamWidth"@);
            lemma_obj_get_found(fs, "id"@, 0);
            lemma_obj_get_found(fs, "userId"@, 1);
            lemma_obj_get_found(fs, "userGroupId"@, 2);
            lemma_obj_get_found(fs, "groundStationId"@, 3);
            lemma_obj_get_found(fs, "satelliteId"@, 4);
            lemma_obj_get_found(fs, "creationEpoch"@, 5);
            lemma_obj_get_found(fs, "lastConnectionEpoch"@, 6);
            lemma_obj_get_found(fs, "name"@, 7);
            lemma_obj_get_found(fs, "minFrequency"@, 8);
            lemma_obj_get_found(fs, "maxFrequency"@, 9);
            lemma_obj_get_found(fs, "minElevation"@, 10);
            lemma_obj_get_found(fs, "maxSlewRate"@, 11);
            lemma_obj_get_found(fs, "homeAzimuth"@, 12);
            lemma_obj_get_found(fs, "homeElevation"@, 13);
            lemma_obj_get_found(fs, "halfPowerBeamWidth"@, 14);
            assert(sget_str(fs, "id"@) == Some(self.id));
            assert(sget_str(fs, "userId"@) == Some(self.user_id));
            assert(sget_opt_str(fs, "userGroupId"@) == Some(self.user_group_id));
            assert(sget_opt_str(fs, "groundStationId"@) == Some(self.groundstation_id));
            assert(sget_opt_str(fs, "satelliteId"@) == Some(self.satellite_id));
            assert(sget_str(fs, "creationEpoch"@) == Some(self.created_at));
            assert(sget_opt_str(fs, "lastConnectionEpoch"@) == Some(self.last_connected_at));
            assert(sget_str(fs, "name"@) == Some(self.name));
            assert(sget_dec(fs, "minFrequency"@) == Some(self.min_frequency_hz));
            assert(sget_dec(fs, "maxFrequency"@) == Some(self.max_frequency_hz));
            assert(sget_dec(fs, "minElevation"@) == Some(self.min_elevation_deg));
            assert(sget_dec(fs, "maxSlewRate"@) == Some(self.max_slew_rate_deg_per_sec));
            assert(sget_dec(fs, "homeAzimuth"@) == Some(self.home_azimuth_deg));
            assert(sget_dec(fs, "homeElevation"@) == Some(self.home_elevation_deg));
            assert(sget_dec(fs, "halfPowerBeamWidth"@) == Some(self.half_power_beam_width_deg));
            assert(antenna_from_fields(fs) == Some(*self));
        }
        Json::Obj(fields)
    }

    /// Decodes from a JSON value; `None` on any shape mismatch.
    pub fn from_json(j: &Json) -> (r: Option<Antenna>)
        ensures
            r == antenna_from_json(*j),
    {
        match j {
            Json::Obj(fields) => {
                let id = match get_str(fields, "id") {
                    Some(v) => v,
                    None => {
                        return None;
                    },
                };
                let user_id = match get_str(fields, "userId") {
                    Some(v) => v,
                    None => {
                        return None;
                    },
                };
                let user_group_id = match get_opt_str(fields, "userGroupId") {
                    Some(v) => v,
                    None => {
                        return None;
                    },
                };
                let groundstation_id = match get_opt_str(fields, "groundStationId") {
                    Some(v) => v,
                    None => {
                        return None;
                    },
                };
                let satellite_id = match get_opt_str(fields, "satelliteId") {
                    Some(v) => v,
                    None => {
                        return None;
                    },
                };
                let created_at = match get_str(fields, "creationEpoch") {
                    Some(v) => v,
                    None => {
                        return None;
                    },
                };
                let last_connected_at = match get_opt_str(fields, "lastConnectionEpoch") {
                    Some(v) => v,
                    None => {
                        return None;
                    },
                };
                let name = match get_str(fields, "name") {
                    Some(v) => v,
                    None => {
                        return None;
                    },
                };
                let min_frequency_hz = match get_dec(fields, "minFrequency") {
                    Some(v) => v,
                    None => {
                        return None;
                    },
                };
                let max_frequency_hz = match get_dec(fields, "maxFrequency") {
                    Some(v) => v,
                    None => {
                        return None;
                    },
                };
                let min_elevation_deg = match get_dec(fields, "minElevation") {
                    Some(v) => v,
                    None => {
                        return None;
                    },
                };
                let max_slew_rate_deg_per_sec = match get_dec(fields, "maxSlewRate") {
                    Some(v) => v,
                    None => {
                        return None;
                    },
                };
                let home_azimuth_deg = match get_dec(fields, "homeAzimuth") {
                    Some(v) => v,
                    None => {
                        return None;
                    },
                };
                let home_elevation_deg = match get_dec(fields, "homeElevation") {
                    Some(v) => v,
                    None => {
                        return None;
                    },
                };
                let half_power_beam_width_deg = match get_dec(fields, "halfPowerBeamWidth") {
                    Some(v) => v,
                    None => {
                        return None;
                    },
                };
                Some(
                    Antenna {
                        id, user_id, user_group_id, groundstation_id, satellite_id, created_at,
                        last_connected_at, name, min_frequency_hz, max_frequency_hz,
                        min_elevation_deg, max_slew_rate_deg_per_sec, home_azimuth_deg,
                        home_elevation_deg, half_power_beam_width_deg,
                    },
                )
            },
            _ => None,
        }
    }
}

/// Decodes each element of a JSON array.
pub open spec fn antennas_from_arr(items: Seq<Json>) -> Option<Seq<Antenna>>
    decreases items.len(),
{
    if items.len() == 0 {
        Some(Seq::empty())
    } else {
        match antennas_from_arr(items.drop_last()) {
            Some(init) => match antenna_from_json(items.last()) {
                Some(x) => Some(init + seq![x]),
                None => None,
            },
            None => None,
        }
    }
}

/// Decodes a JSON array of these records.
pub open spec fn antenna_vec_from_json(j: Json) -> Option<Seq<Antenna>> {
    match j {
        Json::Arr(items) => antennas_from_arr(items@),
        _ => None,
    }
}

proof fn lemma_antennas_from_arr_fails(items: Seq<Json>, i: int)
    requires
        0 <= i < items.len(),
        antenna_from_json(items[i]) is None,
    ensures
        antennas_from_arr(items) is None,
    decreases items.len(),
{
    if items.len() > 0 {
        if i < items.len() - 1 {
            assert(items.drop_last()[i] == items[i]);
            lemma_antennas_from_arr_fails(items.drop_last(), i);
        }
    }
}

/// Decodes a JSON array of these records; `None` on any mismatch.
#[verifier::loop_isolation(false)]
pub fn antennas_from_json(j: &Json) -> (r: Option<Vec<Antenna>>)
    ensures
        opt_vec_view(r) == antenna_vec_from_json(*j),
{
    match j {
        Json::Arr(items) => {
            let mut out: Vec<Antenna> = Vec::new();
            let mut i: usize = 0;
            while i < items.len()
                invariant
                    i <= items@.len(),
                    antennas_from_arr(items@.take(i as int)) == Some(out@),
                decreases items@.len() - i,
            {
                match Antenna::from_json(&items[i]) {
                    Some(x) => {
                        out.push(x);
                    },
                    None => {
                        proof {
                            lemma_antennas_from_arr_fails(items@, i as int);
                        }
                        return None;
                    },
                }
                proof {
                    let t = items@.take(i + 1);
                    assert(t.drop_last() =~= items@.take(i as int));
                    assert(t.last() == items@[i as int]);
                }
                i += 1;
            }
            proof {
                assert(items@.take(items@.len() as int) =~= items@);
            }
            Some(out)
        },
        _ => None,
    }
}
} // verus!
