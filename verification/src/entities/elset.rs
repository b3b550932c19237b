//! Element sets: orbital elements per satellite and epoch.
use vstd::prelude::*;
use vstd::string::StringExecFns;

use crate::json::Decimal;
use crate::json::Json;
use crate::json::field_keys;
use crate::json::get_dec;
use crate::json::get_i64;
use crate::json::get_opt_bool;
use crate::json::get_opt_dec;
use crate::json::get_opt_i32;
use crate::json::get_opt_i64;
use crate::json::get_opt_str;
use crate::json::get_opt_str_vec;
use crate::json::get_str;
use crate::json::i32_to_json;
use crate::json::i64_to_json;
use crate::json::lemma_obj_get_found;
use crate::json::obj_get;
use crate::json::obj_view;
use crate::json::opt_bool_to_json;
use crate::json::opt_dec_to_json;
use crate::json::opt_i32_to_json;
use crate::json::opt_i64_to_json;
use crate::json::opt_str_to_json;
use crate::json::opt_strs_to_json;
use crate::json::opt_vec_view;
use crate::json::push_field;
use crate::json::sget_dec;
use crate::json::sget_i64;
use crate::json::sget_opt_bool;
use crate::json::sget_opt_dec;
use crate::json::sget_opt_i32;
use crate::json::sget_opt_i64;
use crate::json::sget_opt_str;
use crate::json::sget_opt_str_vec;
use crate::json::sget_str;
use crate::json::strs_to_json;

verus! {

/// A set of orbital elements for a satellite at an epoch.
#[derive(Clone, Debug, PartialEq)]
pub struct Elset {
    pub id: String,
    pub satellite_id: String,
    pub satellite_name: Option<String>,
    pub user_id: Option<String>,
    pub user_group_id: Option<String>,
    pub user_group_name: Option<String>,
    pub username: Option<String>,
    pub user_tier: Option<String>,
    pub review_status: Option<String>,
    pub epoch: String,
    pub elset_type: Option<String>,
    pub mean_motion: Decimal,
    pub eccentricity: Decimal,
    pub inclination: Decimal,
    pub raan: Decimal,
    pub argument_of_perigee: Decimal,
    pub mean_anomaly: Decimal,
    pub bstar: Option<Decimal>,
    pub mean_motion_dot: Option<Decimal>,
    pub mean_motion_dot_dot: Option<Decimal>,
    pub ballistic_coefficient: Option<Decimal>,
    pub srp_coefficient: Option<Decimal>,
    pub rms: Option<Decimal>,
    pub tle: Option<Vec<String>>,
    pub semi_major_axis: Option<Decimal>,
    pub norad_id: Option<i64>,
    pub element_set_no: Option<i32>,
    pub rev_at_epoch: Option<i32>,
    pub period_minutes: Option<Decimal>,
    pub apogee_km: Option<Decimal>,
    pub perigee_km: Option<Decimal>,
    pub source: Option<String>,
    pub is_xp: Option<bool>,
    pub rejected: Option<bool>,
    pub created_at: Option<String>,
}

/// The wire keys of this record, in the order the client writes them.
pub open spec fn elset_keys() -> Seq<Seq<char>> {
    seq!["id"@, "satelliteId"@, "satelliteName"@, "userId"@, "userGroupId"@, "userGroupName"@, "username"@, "userTier"@, "reviewStatus"@, "epoch"@, "type"@, "meanMotion"@, "eccentricity"@, "inclination"@, "raan"@, "argumentOfPerigee"@, "meanAnomaly"@, "bStar"@, "meanMotionDot"@, "meanMotionDotDot"@, "ballisticCoefficient"@, "srpCoefficient"@, "rms"@, "tle"@, "semiMajorAxis"@, "noradId"@, "elementSetNo"@, "revAtEpoch"@, "periodMinutes"@, "apogeeKm"@, "perigeeKm"@, "source"@, "isXp"@, "rejected"@, "creationEpoch"@]
}

/// The fields decode into exactly this value.
pub open spec fn elset_decodes_fields(fs: Seq<(Seq<char>, Json)>, x: Elset) -> bool {
    &&& sget_str(fs, "id"@) == Some(x.id)
    &&& sget_str(fs, "satelliteId"@) == Some(x.satellite_id)
    &&& sget_opt_str(fs, "satelliteName"@) == Some(x.satellite_name)
    &&& sget_opt_str(fs, "userId"@) == Some(x.user_id)
    &&& sget_opt_str(fs, "userGroupId"@) == Some(x.user_group_id)
    &&& sget_opt_str(fs, "userGroupName"@) == Some(x.user_group_name)
    &&& sget_opt_str(fs, "username"@) == Some(x.username)
    &&& sget_opt_str(fs, "userTier"@) == Some(x.user_tier)
    &&& sget_opt_str(fs, "reviewStatus"@) == Some(x.review_status)
    &&& sget_str(fs, "epoch"@) == Some(x.epoch)
    &&& sget_opt_str(fs, "type"@) == Some(x.elset_type)
    &&& sget_dec(fs, "meanMotion"@) == Some(x.mean_motion)
    &&& sget_dec(fs, "eccentricity"@) == Some(x.eccentricity)
    &&& sget_dec(fs, "inclination"@) == Some(x.inclination)
    &&& sget_dec(fs, "raan"@) == Some(x.raan)
    &&& sget_dec(fs, "argumentOfPerigee"@) == Some(x.argument_of_perigee)
    &&& sget_dec(fs, "meanAnomaly"@) == Some(x.mean_anomaly)
    &&& sget_opt_dec(fs, "bStar"@) == Some(x.bstar)
    &&& sget_opt_dec(fs, "meanMotionDot"@) == Some(x.mean_motion_dot)
    &&& sget_opt_dec(fs, "meanMotionDotDot"@) == Some(x.mean_motion_dot_dot)
    &&& sget_opt_dec(fs, "ballisticCoefficient"@) == Some(x.ballistic_coefficient)
    &&& sget_opt_dec(fs, "srpCoefficient"@) == Some(x.srp_coefficient)
    &&& sget_opt_dec(fs, "rms"@) == Some(x.rms)
    &&& sget_opt_str_vec(fs, "tle"@) == Some(opt_vec_view(x.tle))
    &&& sget_opt_dec(fs, "semiMajorAxis"@) == Some(x.semi_major_axis)
    &&& sget_opt_i64(fs, "noradId"@) == Some(x.norad_id)
    &&& sget_opt_i32(fs, "elementSetNo"@) == Some(x.element_set_no)
    &&& sget_opt_i32(fs, "revAtEpoch"@) == Some(x.rev_at_epoch)
    &&& sget_opt_dec(fs, "periodMinutes"@) == Some(x.period_minutes)
    &&& sget_opt_dec(fs, "apogeeKm"@) == Some(x.apogee_km)
    &&& sget_opt_dec(fs, "perigeeKm"@) == Some(x.perigee_km)
    &&& sget_opt_str(fs, "source"@) == Some(x.source)
    &&& sget_opt_bool(fs, "isXp"@) == Some(x.is_xp)
    &&& sget_opt_bool(fs, "rejected"@) == Some(x.rejected)
    &&& sget_opt_str(fs, "creationEpoch"@) == Some(x.created_at)
}

/// Every field is present with a decodable shape.
pub open spec fn elset_shape_ok(fs: Seq<(Seq<char>, Json)>) -> bool {
    &&& sget_str(fs, "id"@) is Some
    &&& sget_str(fs, "satelliteId"@) is Some
    &&& sget_opt_str(fs, "satelliteName"@) is Some
    &&& sget_opt_str(fs, "userId"@) is Some
    &&& sget_opt_str(fs, "userGroupId"@) is Some
    &&& sget_opt_str(fs, "userGroupName"@) is Some
    &&& sget_opt_str(fs, "username"@) is Some
    &&& sget_opt_str(fs, "userTier"@) is Some
    &&& sget_opt_str(fs, "reviewStatus"@) is Some
    &&& sget_str(fs, "epoch"@) is Some
    &&& sget_opt_str(fs, "type"@) is Some
    &&& sget_dec(fs, "meanMotion"@) is Some
    &&& sget_dec(fs, "eccentricity"@) is Some
    &&& sget_dec(fs, "inclination"@) is Some
    &&& sget_dec(fs, "raan"@) is Some
    &&& sget_dec(fs, "argumentOfPerigee"@) is Some
    &&& sget_dec(fs, "meanAnomaly"@) is Some
    &&& sget_opt_dec(fs, "bStar"@) is Some
    &&& sget_opt_dec(fs, "meanMotionDot"@) is Some
    &&& sget_opt_dec(fs, "meanMotionDotDot"@) is Some
    &&& sget_opt_dec(fs, "ballisticCoefficient"@) is Some
    &&& sget_opt_dec(fs, "srpCoefficient"@) is Some
    &&& sget_opt_dec(fs, "rms"@) is Some
    &&& sget_opt_str_vec(fs, "tle"@) is Some
    &&& sget_opt_dec(fs, "semiMajorAxis"@) is Some
    &&& sget_opt_i64(fs, "noradId"@) is Some
    &&& sget_opt_i32(fs, "elementSetNo"@) is Some
    &&& sget_opt_i32(fs, "revAtEpoch"@) is Some
    &&& sget_opt_dec(fs, "periodMinutes"@) is Some
    &&& sget_opt_dec(fs, "apogeeKm"@) is Some
    &&& sget_opt_dec(fs, "perigeeKm"@) is Some
    &&& sget_opt_str(fs, "source"@) is Some
    &&& sget_opt_bool(fs, "isXp"@) is Some
    &&& sget_opt_bool(fs, "rejected"@) is Some
    &&& sget_opt_str(fs, "creationEpoch"@) is Some
}

/// The JSON value decodes into exactly this value.
pub open spec fn elset_decodes_to(j: Json, x: Elset) -> bool {
    match j {
        Json::Obj(fields) => elset_decodes_fields(obj_view(fields@), x),
        _ => false,
    }
}

/// The JSON value has the shape this record decodes from.
pub open spec fn elset_json_ok(j: Json) -> bool {
    match j {
        Json::Obj(fields) => elset_shape_ok(obj_view(fields@)),
        _ => false,
    }
}

impl Elset {
    /// Encodes to the wire object: exactly the keys of `elset_keys`, in
    /// order; decoding the result yields this value back.
    #[verifier::rlimit(100)]
    pub fn to_json(&self) -> (j: Json)
        ensures
            (j matches Json::Obj(fields) && field_keys(fields@) == elset_keys()),
            elset_decodes_to(j, *self),
    {
        let mut fields: Vec<(String, Json)> = Vec::new();
        push_field(&mut fields, "id", Json::Str(self.id.clone()));
        push_field(&mut fields, "satelliteId", Json::Str(self.satellite_id.clone()));
        push_field(&mut fields, "satelliteName", opt_str_to_json(&self.satellite_name));
        push_field(&mut fields, "userId", opt_str_to_json(&self.user_id));
        push_field(&mut fields, "userGroupId", opt_str_to_json(&self.user_group_id));
        push_field(&mut fields, "userGroupName", opt_str_to_json(&self.user_group_name));
        push_field(&mut fields, "username", opt_str_to_json(&self.username));
        push_field(&mut fields, "userTier", opt_str_to_json(&self.user_tier));
        push_field(&mut fields, "reviewStatus", opt_str_to_json(&self.review_status));
        push_field(&mut fields, "epoch", Json::Str(self.epoch.clone()));
        push_field(&mut fields, "type", opt_str_to_json(&self.elset_type));
        push_field(&mut fields, "meanMotion", Json::Num(self.mean_motion.text.clone()));
        push_field(&mut fields, "eccentricity", Json::Num(self.eccentricity.text.clone()));
        push_field(&mut fields, "inclination", Json::Num(self.inclination.text.clone()));
        push_field(&mut fields, "raan", Json::Num(self.raan.text.clone()));
        push_field(&mut fields, "argumentOfPerigee", Json::Num(self.argument_of_perigee.text.clone()));
        push_field(&mut fields, "meanAnomaly", Json::Num(self.mean_anomaly.text.clone()));
        push_field(&mut fields, "bStar", opt_dec_to_json(&self.bstar));
        push_field(&mut fields, "meanMotionDot", opt_dec_to_json(&self.mean_motion_dot));
        push_field(&mut fields, "meanMotionDotDot", opt_dec_to_json(&self.mean_motion_dot_dot));
        push_field(&mut fields, "ballisticCoefficient", opt_dec_to_json(&self.ballistic_coefficient));
        push_field(&mut fields, "srpCoefficient", opt_dec_to_json(&self.srp_coefficient));
        push_field(&mut fields, "rms", opt_dec_to_json(&self.rms));
        push_field(&mut fields, "tle", opt_strs_to_json(&self.tle));
        push_field(&mut fields, "semiMajorAxis", opt_dec_to_json(&self.semi_major_axis));
        push_field(&mut fields, "noradId", opt_i64_to_json(&self.norad_id));
        push_field(&mut fields, "elementSetNo", opt_i32_to_json(&self.element_set_no));
        push_field(&mut fields, "revAtEpoch", opt_i32_to_json(&self.rev_at_epoch));
        push_field(&mut fields, "periodMinutes", opt_dec_to_json(&self.period_minutes));
        push_field(&mut fields, "apogeeKm", opt_dec_to_json(&self.apogee_km));
        push_field(&mut fields, "perigeeKm", opt_dec_to_json(&self.perigee_km));
        push_field(&mut fields, "source", opt_str_to_json(&self.source));
        push_field(&mut fields, "isXp", opt_bool_to_json(&self.is_xp));
        push_field(&mut fields, "rejected", opt_bool_to_json(&self.rejected));
        push_field(&mut fields, "creationEpoch", opt_str_to_json(&self.created_at));
        proof {
            reveal_strlit("id");
            reveal_strlit("satelliteId");
            reveal_strlit("satelliteName");
            reveal_strlit("userId");
            reveal_strlit("userGroupId");
            reveal_strlit("userGroupName");
            reveal_strlit("username");
            reveal_strlit("userTier");
            reveal_strlit("reviewStatus");
            reveal_strlit("epoch");
            reveal_strlit("type");
            reveal_strlit("meanMotion");
            reveal_strlit("eccentricity");
            reveal_strlit("inclination");
            reveal_strlit("raan");
            reveal_strlit("argumentOfPerigee");
            reveal_strlit("meanAnomaly");
            reveal_strlit("bStar");
            reveal_strlit("meanMotionDot");
            reveal_strlit("meanMotionDotDot");
            reveal_strlit("ballisticCoefficient");
            reveal_strlit("srpCoefficient");
            reveal_strlit("rms");
            reveal_strlit("tle");
            reveal_strlit("semiMajorAxis");
            reveal_strlit("noradId");
            reveal_strlit("elementSetNo");
            reveal_strlit("revAtEpoch");
            reveal_strlit("periodMinutes");
            reveal_strlit("apogeeKm");
            reveal_strlit("perigeeKm");
            reveal_strlit("source");
            reveal_strlit("isXp");
            reveal_strlit("rejected");
            reveal_strlit("creationEpoch");
            assert("id"@.len() == 2);
            assert("satelliteId"@.len() == 11);
            assert("satelliteName"@.len() == 13);
            assert("userId"@.len() == 6);
            assert("userGroupId"@.len() == 11);
            assert("userGroupName"@.len() == 13);
            assert("username"@.len() == 8);
            assert("userTier"@.len() == 8);
            assert("reviewStatus"@.len() == 12);
            assert("epoch"@.len() == 5);
            assert("type"@.len() == 4);
            assert("meanMotion"@.len() == 10);
            assert("eccentricity"@.len() == 12);
            assert("inclination"@.len() == 11);
            assert("raan"@.len() == 4);
            assert("argumentOfPerigee"@.len() == 17);
            assert("meanAnomaly"@.len() == 11);
            assert("bStar"@.len() == 5);
            assert("meanMotionDot"@.len() == 13);
            assert("meanMotionDotDot"@.len() == 16);
            assert("ballisticCoefficient"@.len() == 20);
            assert("srpCoefficient"@.len() == 14);
            assert("rms"@.len() == 3);
            assert("tle"@.len() == 3);
            assert("semiMajorAxis"@.len() == 13);
            assert("noradId"@.len() == 7);
            assert("elementSetNo"@.len() == 12);
            assert("revAtEpoch"@.len() == 10);
            assert("periodMinutes"@.len() == 13);
            assert("apogeeKm"@.len() == 8);
            assert("perigeeKm"@.len() == 9);
            assert("source"@.len() == 6);
            assert("isXp"@.len() == 4);
            assert("rejected"@.len() == 8);
            assert("creationEpoch"@.len() == 13);
            assert("satelliteId"@[0] == 's');
            assert("userGroupId"@[0] == 'u');
            assert("inclination"@[0] == 'i');
            assert("meanAnomaly"@[0] == 'm');
            assert("satelliteName"@[0] == 's');
            assert("userGroupName"@[0] == 'u');
            assert("meanMotionDot"@[0] == 'm');
            assert("satelliteName"@[1] == 'a');
            assert("semiMajorAxis"@[1] == 'e');
            assert("periodMinutes"@[0] == 'p');
            assert("creationEpoch"@[0] == 'c');
            assert("semiMajorAxis"@[0] == 's');
            assert("userId"@[0] == 'u');
            assert("source"@[0] == 's');
            assert("username"@[4] == 'n');
            assert("userTier"@[4] == 'T');
            assert("username"@[0] == 'u');
            assert("apogeeKm"@[0] == 'a');
            assert("rejected"@[0] == 'r');
            assert("userTier"@[0] == 'u');
            assert("reviewStatus"@[0] == 'r');
            assert("eccentricity"@[0] == 'e');
            assert("elementSetNo"@[0] == 'e');
            assert("eccentricity"@[1] == 'c');
            assert("elementSetNo"@[1] == 'l');
            assert("epoch"@[0] == 'e');
            assert("bStar"@[0] == 'b');
            assert("type"@[0] == 't');
            assert("raan"@[0] == 'r');
            assert("isXp"@[0] == 'i');
            assert("meanMotion"@[0] == 'm');
            assert("revAtEpoch"@[0] == 'r');
            assert("rms"@[0] == 'r');
            assert("tle"@[0] == 't');
            assert(field_keys(fields@) =~= elset_keys());
            let fs = obj_view(fields@);
            assert(fs.len() == 35);
            assert(fs[0].0 == "id"@);
            assert(fs[1].0 == "satelliteId"@);
            assert(fs[2].0 == "satelliteName"@);
            assert(fs[3].0 == "userId"@);
            assert(fs[4].0 == "userGroupId"@);
            assert(fs[5].0 == "userGroupName"@);
            assert(fs[6].0 == "username"@);
            assert(fs[7].0 == "userTier"@);
            assert(fs[8].0 == "reviewStatus"@);
            assert(fs[9].0 == "epoch"@);
            assert(fs[10].0 == "type"@);
            assert(fs[11].0 == "meanMotion"@);
            assert(fs[12].0 == "eccentricity"@);
            assert(fs[13].0 == "inclination"@);
            assert(fs[14].0 == "raan"@);
            assert(fs[15].0 == "argumentOfPerigee"@);
            assert(fs[16].0 == "meanAnomaly"@);
            assert(fs[17].0 == "bStar"@);
            assert(fs[18].0 == "meanMotionDot"@);
            assert(fs[19].0 == "meanMotionDotDot"@);
            assert(fs[20].0 == "ballisticCoefficient"@);
            assert(fs[21].0 == "srpCoefficient"@);
            assert(fs[22].0 == "rms"@);
            assert(fs[23].0 == "tle"@);
            assert(fs[24].0 == "semiMajorAxis"@);
            assert(fs[25].0 == "noradId"@);
            assert(fs[26].0 == "elementSetNo"@);
            assert(fs[27].0 == "revAtEpoch"@);
            assert(fs[28].0 == "periodMinutes"@);
            assert(fs[29].0 == "apogeeKm"@);
            assert(fs[30].0 == "perigeeKm"@);
            assert(fs[31].0 == "source"@);
            assert(fs[32].0 == "isXp"@);
            assert(fs[33].0 == "rejected"@);
            assert(fs[34].0 == "creationEpoch"@);
            lemma_obj_get_found(fs, "id"@, 0);
            lemma_obj_get_found(fs, "satelliteId"@, 1);
            lemma_obj_get_found(fs, "satelliteName"@, 2);
            lemma_obj_get_found(fs, "userId"@, 3);
            lemma_obj_get_found(fs, "userGroupId"@, 4);
            lemma_obj_get_found(fs, "userGroupName"@, 5);
            lemma_obj_get_found(fs, "username"@, 6);
            lemma_obj_get_found(fs, "userTier"@, 7);
            lemma_obj_get_found(fs, "reviewStatus"@, 8);
            lemma_obj_get_found(fs, "epoch"@, 9);
            lemma_obj_get_found(fs, "type"@, 10);
            lemma_obj_get_found(fs, "meanMotion"@, 11);
            lemma_obj_get_found(fs, "eccentricity"@, 12);
            lemma_obj_get_found(fs, "inclination"@, 13);
            lemma_obj_get_found(fs, "raan"@, 14);
            lemma_obj_get_found(fs, "argumentOfPerigee"@, 15);
            lemma_obj_get_found(fs, "meanAnomaly"@, 16);
            lemma_obj_get_found(fs, "bStar"@, 17);
            lemma_obj_get_found(fs, "meanMotionDot"@, 18);
            lemma_obj_get_found(fs, "meanMotionDotDot"@, 19);
            lemma_obj_get_found(fs, "ballisticCoefficient"@, 20);
            lemma_obj_get_found(fs, "srpCoefficient"@, 21);
            lemma_obj_get_found(fs, "rms"@, 22);
            lemma_obj_get_found(fs, "tle"@, 23);
            lemma_obj_get_found(fs, "semiMajorAxis"@, 24);
            lemma_obj_get_found(fs, "noradId"@, 25);
            lemma_obj_get_found(fs, "elementSetNo"@, 26);
            lemma_obj_get_found(fs, "revAtEpoch"@, 27);
            lemma_obj_get_found(fs, "periodMinutes"@, 28);
            lemma_obj_get_found(fs, "apogeeKm"@, 29);
            lemma_obj_get_found(fs, "perigeeKm"@, 30);
            lemma_obj_get_found(fs, "source"@, 31);
            lemma_obj_get_found(fs, "isXp"@, 32);
            lemma_obj_get_found(fs, "rejected"@, 33);
            lemma_obj_get_found(fs, "creationEpoch"@, 34);
            if let Some(n) = self.norad_id {
                crate::num::lemma_parse_dec_i64(n);
            }
            if let Some(n) = self.element_set_no {
                crate::num::lemma_parse_dec_i32(n);
            }
            if let Some(n) = self.rev_at_epoch {
                crate::num::lemma_parse_dec_i32(n);
            }
            assert(sget_str(fs, "id"@) == Some(self.id));
            assert(sget_str(fs, "satelliteId"@) == Some(self.satellite_id));
            assert(sget_opt_str(fs, "satelliteName"@) == Some(self.satellite_name));
            assert(sget_opt_str(fs, "userId"@) == Some(self.user_id));
            assert(sget_opt_str(fs, "userGroupId"@) == Some(self.user_group_id));
            assert(sget_opt_str(fs, "userGroupName"@) == Some(self.user_group_name));
            assert(sget_opt_str(fs, "username"@) == Some(self.username));
            assert(sget_opt_str(fs, "userTier"@) == Some(self.user_tier));
            assert(sget_opt_str(fs, "reviewStatus"@) == Some(self.review_status));
            assert(sget_str(fs, "epoch"@) == Some(self.epoch));
            assert(sget_opt_str(fs, "type"@) == Some(self.elset_type));
            assert(sget_dec(fs, "meanMotion"@) == Some(self.mean_motion));
            assert(sget_dec(fs, "eccentricity"@) == Some(self.eccentricity));
            assert(sget_dec(fs, "inclination"@) == Some(self.inclination));
            assert(sget_dec(fs, "raan"@) == Some(self.raan));
            assert(sget_dec(fs, "argumentOfPerigee"@) == Some(self.argument_of_perigee));
            assert(sget_dec(fs, "meanAnomaly"@) == Some(self.mean_anomaly));
            assert(sget_opt_dec(fs, "bStar"@) == Some(self.bstar));
            assert(sget_opt_dec(fs, "meanMotionDot"@) == Some(self.mean_motion_dot));
            assert(sget_opt_dec(fs, "meanMotionDotDot"@) == Some(self.mean_motion_dot_dot));
            assert(sget_opt_dec(fs, "ballisticCoefficient"@) == Some(self.ballistic_coefficient));
            assert(sget_opt_dec(fs, "srpCoefficient"@) == Some(self.srp_coefficient));
            assert(sget_opt_dec(fs, "rms"@) == Some(self.rms));
            assert(sget_opt_str_vec(fs, "tle"@) == Some(opt_vec_view(self.tle)));
            assert(sget_opt_dec(fs, "semiMajorAxis"@) == Some(self.semi_major_axis));
            assert(sget_opt_i64(fs, "noradId"@) == Some(self.norad_id));
            assert(sget_opt_i32(fs, "elementSetNo"@) == Some(self.element_set_no));
            assert(sget_opt_i32(fs, "revAtEpoch"@) == Some(self.rev_at_epoch));
            assert(sget_opt_dec(fs, "periodMinutes"@) == Some(self.period_minutes));
            assert(sget_opt_dec(fs, "apogeeKm"@) == Some(self.apogee_km));
            assert(sget_opt_dec(fs, "perigeeKm"@) == Some(self.perigee_km));
            assert(sget_opt_str(fs, "source"@) == Some(self.source));
            assert(sget_opt_bool(fs, "isXp"@) == Some(self.is_xp));
            assert(sget_opt_bool(fs, "rejected"@) == Some(self.rejected));
            assert(sget_opt_str(fs, "creationEpoch"@) == Some(self.created_at));
            assert(elset_decodes_fields(fs, *self));
        }
        Json::Obj(fields)
    }

    /// Decodes from a JSON value; `None` on any shape mismatch.
    pub fn from_json(j: &Json) -> (r: Option<Elset>)
        ensures
            (match r {
                Some(x) => elset_decodes_to(*j, x),
                None => !elset_json_ok(*j),
            }),
    {
        match j {
            Json::Obj(fields) => {
                let id = match get_str(fields, "id") {
                    Some(v) => v,
                    None => {
                        return None;
                    },
                };
                let satellite_id = match get_str(fields, "satelliteId") {
                    Some(v) => v,
                    None => {
                        return None;
                    },
                };
                let satellite_name = match get_opt_str(fields, "satelliteName") {
                    Some(v) => v,
                    None => {
                        return None;
                    },
                };
                let user_id = match get_opt_str(fields, "userId") {
                    Some(v) => v,
                    None => {
                        return None;
                    },
                };
                let user_group_id = match get_opt_str(fields, "userGroupId") {
                    Some(v) => v,
                    None => {
                        return None;
                    },
                };
                let user_group_name = match get_opt_str(fields, "userGroupName") {
                    Some(v) => v,
                    None => {
                        return None;
                    },
                };
                let username = match get_opt_str(fields, "username") {
                    Some(v) => v,
                    None => {
                        return None;
                    },
                };
                let user_tier = match get_opt_str(fields, "userTier") {
                    Some(v) => v,
                    None => {
                        return None;
                    },
                };
                let review_status = match get_opt_str(fields, "reviewStatus") {
                    Some(v) => v,
                    None => {
                        return None;
                    },
                };
                let epoch = match get_str(fields, "epoch") {
                    Some(v) => v,
                    None => {
                        return None;
                    },
                };
                let elset_type = match get_opt_str(fields, "type") {
                    Some(v) => v,
                    None => {
                        return None;
                    },
                };
                let mean_motion = match get_dec(fields, "meanMotion") {
                    Some(v) => v,
                    None => {
                        return None;
                    },
                };
                let eccentricity = match get_dec(fields, "eccentricity") {
                    Some(v) => v,
                    None => {
                        return None;
                    },
                };
                let inclination = match get_dec(fields, "inclination") {
                    Some(v) => v,
                    None => {
                        return None;
                    },
                };
                let raan = match get_dec(fields, "raan") {
                    Some(v) => v,
                    None => {
                        return None;
                    },
                };
                let argument_of_perigee = match get_dec(fields, "argumentOfPerigee") {
                    Some(v) => v,
                    None => {
                        return None;
                    },
                };
                let mean_anomaly = match get_dec(fields, "meanAnomaly") {
                    Some(v) => v,
                    None => {
                        return None;
                    },
                };
                let bstar = match get_opt_dec(fields, "bStar") {
                    Some(v) => v,
                    None => {
                        return None;
                    },
                };
                let mean_motion_dot = match get_opt_dec(fields, "meanMotionDot") {
                    Some(v) => v,
                    None => {
                        return None;
                    },
                };
                let mean_motion_dot_dot = match get_opt_dec(fields, "meanMotionDotDot") {
                    Some(v) => v,
                    None => {
                        return None;
                    },
                };
                let ballistic_coefficient = match get_opt_dec(fields, "ballisticCoefficient") {
                    Some(v) => v,
                    None => {
                        return None;
                    },
                };
                let srp_coefficient = match get_opt_dec(fields, "srpCoefficient") {
                    Some(v) => v,
                    None => {
                        return None;
                    },
                };
                let rms = match get_opt_dec(fields, "rms") {
                    Some(v) => v,
                    None => {
                        return None;
                    },
                };
                let tle = match get_opt_str_vec(fields, "tle") {
                    Some(v) => v,
                    None => {
                        return None;
                    },
                };
                let semi_major_axis = match get_opt_dec(fields, "semiMajorAxis") {
                    Some(v) => v,
                    None => {
                        return None;
                    },
                };
                let norad_id = match get_opt_i64(fields, "noradId") {
                    Some(v) => v,
                    None => {
                        return None;
                    },
                };
                let element_set_no = match get_opt_i32(fields, "elementSetNo") {
                    Some(v) => v,
                    None => {
                        return None;
                    },
                };
                let rev_at_epoch = match get_opt_i32(fields, "revAtEpoch") {
                    Some(v) => v,
                    None => {
                        return None;
                    },
                };
                let period_minutes = match get_opt_dec(fields, "periodMinutes") {
                    Some(v) => v,
                    None => {
                        return None;
                    },
                };
                let apogee_km = match get_opt_dec(fields, "apogeeKm") {
                    Some(v) => v,
                    None => {
                        return None;
                    },
                };
                let perigee_km = match get_opt_dec(fields, "perigeeKm") {
                    Some(v) => v,
                    None => {
                        return None;
                    },
                };
                let source = match get_opt_str(fields, "source") {
                    Some(v) => v,
                    None => {
                        return None;
                    },
                };
                let is_xp = match get_opt_bool(fields, "isXp") {
                    Some(v) => v,
                    None => {
                        return None;
                    },
                };
                let rejected = match get_opt_bool(fields, "rejected") {
                    Some(v) => v,
                    None => {
                        return None;
                    },
                };
                let created_at = match get_opt_str(fields, "creationEpoch") {
                    Some(v) => v,
                    None => {
                        return None;
                    },
                };
                Some(
                    Elset {
                        id, satellite_id, satellite_name, user_id, user_group_id,
                        user_group_name, username, user_tier, review_status, epoch, elset_type,
                        mean_motion, eccentricity, inclination, raan, argument_of_perigee,
                        mean_anomaly, bstar, mean_motion_dot, mean_motion_dot_dot,
                        ballistic_coefficient, srp_coefficient, rms, tle, semi_major_axis,
                        norad_id, element_set_no, rev_at_epoch, period_minutes, apogee_km,
                        perigee_km, source, is_xp, rejected, created_at,
                    },
                )
            },
            _ => None,
        }
    }
}

/// The caller-settable fields of a new element set.
#[derive(Clone, Debug, PartialEq)]
pub struct CreateElsetRequest {
    pub satellite_id: String,
    pub epoch: String,
    pub mean_motion: Decimal,
    pub eccentricity: Decimal,
    pub inclination: Decimal,
    pub raan: Decimal,
    pub argument_of_perigee: Decimal,
    pub mean_anomaly: Decimal,
    pub bstar: Option<Decimal>,
    pub mean_motion_dot: Option<Decimal>,
    pub mean_motion_dot_dot: Option<Decimal>,
    pub source: Option<String>,
}

/// The wire keys of this record, in the order the client writes them.
pub open spec fn create_elset_request_keys() -> Seq<Seq<char>> {
    seq!["satelliteId"@, "epoch"@, "meanMotion"@, "eccentricity"@, "inclination"@, "raan"@, "argumentOfPerigee"@, "meanAnomaly"@, "bStar"@, "meanMotionDot"@, "meanMotionDotDot"@, "source"@]
}

/// Decodes from an object's fields.
pub open spec fn create_elset_request_from_fields(fs: Seq<(Seq<char>, Json)>) -> Option<CreateElsetRequest> {
    if {
        &&& sget_str(fs, "satelliteId"@) is Some
        &&& sget_str(fs, "epoch"@) is Some
        &&& sget_dec(fs, "meanMotion"@) is Some
        &&& sget_dec(fs, "eccentricity"@) is Some
        &&& sget_dec(fs, "inclination"@) is Some
        &&& sget_dec(fs, "raan"@) is Some
        &&& sget_dec(fs, "argumentOfPerigee"@) is Some
        &&& sget_dec(fs, "meanAnomaly"@) is Some
        &&& sget_opt_dec(fs, "bStar"@) is Some
        &&& sget_opt_dec(fs, "meanMotionDot"@) is Some
        &&& sget_opt_dec(fs, "meanMotionDotDot"@) is Some
        &&& sget_opt_str(fs, "source"@) is Some
    } {
        Some(
            CreateElsetRequest {
                satellite_id: sget_str(fs, "satelliteId"@).unwrap(),
                epoch: sget_str(fs, "epoch"@).unwrap(),
                mean_motion: sget_dec(fs, "meanMotion"@).unwrap(),
                eccentricity: sget_dec(fs, "eccentricity"@).unwrap(),
                inclination: sget_dec(fs, "inclination"@).unwrap(),
                raan: sget_dec(fs, "raan"@).unwrap(),
                argument_of_perigee: sget_dec(fs, "argumentOfPerigee"@).unwrap(),
                mean_anomaly: sget_dec(fs, "meanAnomaly"@).unwrap(),
                bstar: sget_opt_dec(fs, "bStar"@).unwrap(),
                mean_motion_dot: sget_opt_dec(fs, "meanMotionDot"@).unwrap(),
                mean_motion_dot_dot: sget_opt_dec(fs, "meanMotionDotDot"@).unwrap(),
                source: sget_opt_str(fs, "source"@).unwrap(),
            },
        )
    } else {
        None
    }
}

/// Decodes from a JSON value.
pub open spec fn create_elset_request_from_json(j: Json) -> Option<CreateElsetRequest> {
    match j {
        Json::Obj(fields) => create_elset_request_from_fields(obj_view(fields@)),
        _ => None,
    }
}

impl CreateElsetRequest {
    /// Encodes to the wire object: exactly the keys of `create_elset_request_keys`, in
    /// order; decoding the result yields this value back.
    pub fn to_json(&self) -> (j: Json)
        ensures
            (j matches Json::Obj(fields) && field_keys(fields@) == create_elset_request_keys()),
            create_elset_request_from_json(j) == Some(*self),
    {
        let mut fields: Vec<(String, Json)> = Vec::new();
        push_field(&mut fields, "satelliteId", Json::Str(self.satellite_id.clone()));
        push_field(&mut fields, "epoch", Json::Str(self.epoch.clone()));
        push_field(&mut fields, "meanMotion", Json::Num(self.mean_motion.text.clone()));
        push_field(&mut fields, "eccentricity", Json::Num(self.eccentricity.text.clone()));
        push_field(&mut fields, "inclination", Json::Num(self.inclination.text.clone()));
        push_field(&mut fields, "raan", Json::Num(self.raan.text.clone()));
        push_field(&mut fields, "argumentOfPerigee", Json::Num(self.argument_of_perigee.text.clone()));
        push_field(&mut fields, "meanAnomaly", Json::Num(self.mean_anomaly.text.clone()));
        push_field(&mut fields, "bStar", opt_dec_to_json(&self.bstar));
        push_field(&mut fields, "meanMotionDot", opt_dec_to_json(&self.mean_motion_dot));
        push_field(&mut fields, "meanMotionDotDot", opt_dec_to_json(&self.mean_motion_dot_dot));
        push_field(&mut fields, "source", opt_str_to_json(&self.source));
        proof {
            reveal_strlit("satelliteId");
            reveal_strlit("epoch");
            reveal_strlit("meanMotion");
            reveal_strlit("eccentricity");
            reveal_strlit("inclination");
            reveal_strlit("raan");
            reveal_strlit("argumentOfPerigee");
            reveal_strlit("meanAnomaly");
            reveal_strlit("bStar");
            reveal_strlit("meanMotionDot");
            reveal_strlit("meanMotionDotDot");
            reveal_strlit("source");
            assert("satelliteId"@.len() == 11);
            assert("epoch"@.len() == 5);
            assert("meanMotion"@.len() == 10);
            assert("eccentricity"@.len() == 12);
            assert("inclination"@.len() == 11);
            assert("raan"@.len() == 4);
            assert("argumentOfPerigee"@.len() == 17);
            assert("meanAnomaly"@.len() == 11);
            assert("bStar"@.len() == 5);
            assert("meanMotionDot"@.len() == 13);
            assert("meanMotionDotDot"@.len() == 16);
            assert("source"@.len() == 6);
            assert("satelliteId"@[0] == 's');
            assert("inclination"@[0] == 'i');
            assert("meanAnomaly"@[0] == 'm');
            assert("epoch"@[0] == 'e');
            assert("bStar"@[0] == 'b');
            assert(field_keys(fields@) =~= create_elset_request_keys());
            let fs = obj_view(fields@);
            assert(fs.len() == 12);
            assert(fs[0].0 == "satelliteId"@);
            assert(fs[1].0 == "epoch"@);
            assert(fs[2].0 == "meanMotion"@);
            assert(fs[3].0 == "eccentricity"@);
            assert(fs[4].0 == "inclination"@);
            assert(fs[5].0 == "raan"@);
            assert(fs[6].0 == "argumentOfPerigee"@);
            assert(fs[7].0 == "meanAnomaly"@);
            assert(fs[8].0 == "bStar"@);
            assert(fs[9].0 == "meanMotionDot"@);
            assert(fs[10].0 == "meanMotionDotDot"@);
            assert(fs[11].0 == "source"@);
            lemma_obj_get_found(fs, "satelliteId"@, 0);
            lemma_obj_get_found(fs, "epoch"@, 1);
            lemma_obj_get_found(fs, "meanMotion"@, 2);
            lemma_obj_get_found(fs, "eccentricity"@, 3);
            lemma_obj_get_found(fs, "inclination"@, 4);
            lemma_obj_get_found(fs, "raan"@, 5);
            lemma_obj_get_found(fs, "argumentOfPerigee"@, 6);
            lemma_obj_get_found(fs, "meanAnomaly"@, 7);
            lemma_obj_get_found(fs, "bStar"@, 8);
            lemma_obj_get_found(fs, "meanMotionDot"@, 9);
            lemma_obj_get_found(fs, "meanMotionDotDot"@, 10);
            lemma_obj_get_found(fs, "source"@, 11);
            assert(sget_str(fs, "satelliteId"@) == Some(self.satellite_id));
            assert(sget_str(fs, "epoch"@) == Some(self.epoch));
            assert(sget_dec(fs, "meanMotion"@) == Some(self.mean_motion));
            assert(sget_dec(fs, "eccentricity"@) == Some(self.eccentricity));
            assert(sget_dec(fs, "inclination"@) == Some(self.inclination));
            assert(sget_dec(fs, "raan"@) == Some(self.raan));
            assert(sget_dec(fs, "argumentOfPerigee"@) == Some(self.argument_of_perigee));
            assert(sget_dec(fs, "meanAnomaly"@) == Some(self.mean_anomaly));
            assert(sget_opt_dec(fs, "bStar"@) == Some(self.bstar));
            assert(sget_opt_dec(fs, "meanMotionDot"@) == Some(self.mean_motion_dot));
            assert(sget_opt_dec(fs, "meanMotionDotDot"@) == Some(self.mean_motion_dot_dot));
            assert(sget_opt_str(fs, "source"@) == Some(self.source));
            assert(create_elset_request_from_fields(fs) == Some(*self));
        }
        Json::Obj(fields)
    }

    /// Decodes from a JSON value; `None` on any shape mismatch.
    pub fn from_json(j: &Json) -> (r: Option<CreateElsetRequest>)
        ensures
            r == create_elset_request_from_json(*j),
    {
        match j {
            Json::Obj(fields) => {
                let satellite_id = match get_str(fields, "satelliteId") {
                    Some(v) => v,
                    None => {
                        return None;
                    },
                };
                let epoch = match get_str(fields, "epoch") {
                    Some(v) => v,
                    None => {
                        return None;
                    },
                };
                let mean_motion = match get_dec(fields, "meanMotion") {
                    Some(v) => v,
                    None => {
                        return None;
                    },
                };
                let eccentricity = match get_dec(fields, "eccentricity") {
                    Some(v) => v,
                    None => {
                        return None;
                    },
                };
                let inclination = match get_dec(fields, "inclination") {
                    Some(v) => v,
                    None => {
                        return None;
                    },
                };
                let raan = match get_dec(fields, "raan") {
                    Some(v) => v,
                    None => {
                        return None;
                    },
                };
                let argument_of_perigee = match get_dec(fields, "argumentOfPerigee") {
                    Some(v) => v,
                    None => {
                        return None;
                    },
                };
                let mean_anomaly = match get_dec(fields, "meanAnomaly") {
                    Some(v) => v,
                    None => {
                        return None;
                    },
                };
                let bstar = match get_opt_dec(fields, "bStar") {
                    Some(v) => v,
                    None => {
                        return None;
                    },
                };
                let mean_motion_dot = match get_opt_dec(fields, "meanMotionDot") {
                    Some(v) => v,
                    None => {
                        return None;
                    },
                };
                let mean_motion_dot_dot = match get_opt_dec(fields, "meanMotionDotDot") {
                    Some(v) => v,
                    None => {
                        return None;
                    },
                };
                let source = match get_opt_str(fields, "source") {
                    Some(v) => v,
                    None => {
                        return None;
                    },
                };
                Some(
                    CreateElsetRequest {
                        satellite_id, epoch, mean_motion, eccentricity, inclination, raan,
                        argument_of_perigee, mean_anomaly, bstar, mean_motion_dot,
                        mean_motion_dot_dot, source,
                    },
                )
            },
            _ => None,
        }
    }
}

/// How many element sets arrived in one hour.
#[derive(Clone, Debug, PartialEq)]
pub struct ElsetCount {
    pub hour: String,
    pub count: i64,
}

/// The wire keys of this record, in the order the client writes them.
pub open spec fn elset_count_keys() -> Seq<Seq<char>> {
    seq!["hour"@, "count"@]
}

/// Decodes from an object's fields.
pub open spec fn elset_count_from_fields(fs: Seq<(Seq<char>, Json)>) -> Option<ElsetCount> {
    if {
        &&& sget_str(fs, "hour"@) is Some
        &&& sget_i64(fs, "count"@) is Some
    } {
        Some(
            ElsetCount {
                hour: sget_str(fs, "hour"@).unwrap(),
                count: sget_i64(fs, "count"@).unwrap(),
            },
        )
    } else {
        None
    }
}

/// Decodes from a JSON value.
pub open spec fn elset_count_from_json(j: Json) -> Option<ElsetCount> {
    match j {
        Json::Obj(fields) => elset_count_from_fields(obj_view(fields@)),
        _ => None,
    }
}

impl ElsetCount {
    /// Encodes to the wire object: exactly the keys of `elset_count_keys`, in
    /// order; decoding the result yields this value back.
    pub fn to_json(&self) -> (j: Json)
        ensures
            (j matches Json::Obj(fields) && field_keys(fields@) == elset_count_keys()),
            elset_count_from_json(j) == Some(*self),
    {
        let mut fields: Vec<(String, Json)> = Vec::new();
        push_field(&mut fields, "hour", Json::Str(self.hour.clone()));
        push_field(&mut fields, "count", i64_to_json(self.count));
        proof {
            reveal_strlit("hour");
            reveal_strlit("count");
            assert("hour"@.len() == 4);
            assert("count"@.len() == 5);
            assert(field_keys(fields@) =~= elset_count_keys());
            let fs = obj_view(fields@);
            assert(fs.len() == 2);
            assert(fs[0].0 == "hour"@);
            assert(fs[1].0 == "count"@);
            lemma_obj_get_found(fs, "hour"@, 0);
            lemma_obj_get_found(fs, "count"@, 1);
            crate::num::lemma_parse_dec_i64(self.count);
            assert(sget_str(fs, "hour"@) == Some(self.hour));
            assert(sget_i64(fs, "count"@) == Some(self.count));
            assert(elset_count_from_fields(fs) == Some(*self));
        }
        Json::Obj(fields)
    }

    /// Decodes from a JSON value; `None` on any shape mismatch.
    pub fn from_json(j: &Json) -> (r: Option<ElsetCount>)
        ensures
            r == elset_count_from_json(*j),
    {
        match j {
            Json::Obj(fields) => {
                let hour = match get_str(fields, "hour") {
                    Some(v) => v,
                    None => {
                        return None;
                    },
                };
                let count = match get_i64(fields, "count") {
                    Some(v) => v,
                    None => {
                        return None;
                    },
                };
                Some(
                    ElsetCount {
                        hour, count,
                    },
                )
            },
            _ => None,
        }
    }
}

/// Decodes each element of a JSON array.
pub open spec fn elset_counts_from_arr(items: Seq<Json>) -> Option<Seq<ElsetCount>>
    decreases items.len(),
{
    if items.len() == 0 {
        Some(Seq::empty())
    } else {
        match elset_counts_from_arr(items.drop_last()) {
            Some(init) => match elset_count_from_json(items.last()) {
                Some(x) => Some(init + seq![x]),
                None => None,
            },
            None => None,
        }
    }
}

/// Decodes a JSON array of these records.
pub open spec fn elset_count_vec_from_json(j: Json) -> Option<Seq<ElsetCount>> {
    match j {
        Json::Arr(items) => elset_counts_from_arr(items@),
        _ => None,
    }
}

proof fn lemma_elset_counts_from_arr_fails(items: Seq<Json>, i: int)
    requires
        0 <= i < items.len(),
        elset_count_from_json(items[i]) is None,
    ensures
        elset_counts_from_arr(items) is None,
    decreases items.len(),
{
    if items.len() > 0 {
        if i < items.len() - 1 {
            assert(items.drop_last()[i] == items[i]);
            lemma_elset_counts_from_arr_fails(items.drop_last(), i);
        }
    }
}

/// Decodes a JSON array of these records; `None` on any mismatch.
#[verifier::loop_isolation(false)]
pub fn elset_counts_from_json(j: &Json) -> (r: Option<Vec<ElsetCount>>)
    ensures
        opt_vec_view(r) == elset_count_vec_from_json(*j),
{
    match j {
        Json::Arr(items) => {
            let mut out: Vec<ElsetCount> = Vec::new();
            let mut i: usize = 0;
            while i < items.len()
                invariant
                    i <= items@.len(),
                    elset_counts_from_arr(items@.take(i as int)) == Some(out@),
                decreases items@.len() - i,
            {
                match ElsetCount::from_json(&items[i]) {
                    Some(x) => {
                        out.push(x);
                    },
                    None => {
                        proof {
                            lemma_elset_counts_from_arr_fails(items@, i as int);
                        }
                        return None;
                    },
                }
                proof {
                    let t = items@.take(i + 1);
                    assert(t.drop_last() =~= items@.take(i as int));
                    assert(t.last() == items@[i as int]);
                }
                i += 1;
            }
            proof {
                assert(items@.take(items@.len() as int) =~= items@);
            }
            Some(out)
        },
        _ => None,
    }
}

/// One satellite of the near-geostationary scatter.
#[derive(Clone, Debug, PartialEq)]
pub struct GeoScatterPoint {
    pub satellite_id: String,
    pub satellite_name: Option<String>,
    pub longitude: Decimal,
    pub inclination: Decimal,
    pub eccentricity: Option<Decimal>,
}

/// The wire keys of this record, in the order the client writes them.
pub open spec fn geo_scatter_point_keys() -> Seq<Seq<char>> {
    seq!["satelliteId"@, "satelliteName"@, "longitude"@, "inclination"@, "eccentricity"@]
}

/// Decodes from an object's fields.
pub open spec fn geo_scatter_point_from_fields(fs: Seq<(Seq<char>, Json)>) -> Option<GeoScatterPoint> {
    if {
        &&& sget_str(fs, "satelliteId"@) is Some
        &&& sget_opt_str(fs, "satelliteName"@) is Some
        &&& sget_dec(fs, "longitude"@) is Some
        &&& sget_dec(fs, "inclination"@) is Some
        &&& sget_opt_dec(fs, "eccentricity"@) is Some
    } {
        Some(
            GeoScatterPoint {
                satellite_id: sget_str(fs, "satelliteId"@).unwrap(),
                satellite_name: sget_opt_str(fs, "satelliteName"@).unwrap(),
                longitude: sget_dec(fs, "longitude"@).unwrap(),
                inclination: sget_dec(fs, "inclination"@).unwrap(),
                eccentricity: sget_opt_dec(fs, "eccentricity"@).unwrap(),
            },
        )
    } else {
        None
    }
}

/// Decodes from a JSON value.
pub open spec fn geo_scatter_point_from_json(j: Json) -> Option<GeoScatterPoint> {
    match j {
        Json::Obj(fields) => geo_scatter_point_from_fields(obj_view(fields@)),
        _ => None,
    }
}

impl GeoScatterPoint {
    /// Encodes to the wire object: exactly the keys of `geo_scatter_point_keys`, in
    /// order; decoding the result yields this value back.
    pub fn to_json(&self) -> (j: Json)
        ensures
            (j matches Json::Obj(fields) && field_keys(fields@) == geo_scatter_point_keys()),
            geo_scatter_point_from_json(j) == Some(*self),
    {
        let mut fields: Vec<(String, Json)> = Vec::new();
        push_field(&mut fields, "satelliteId", Json::Str(self.satellite_id.clone()));
        push_field(&mut fields, "satelliteName", opt_str_to_json(&self.satellite_name));
        push_field(&mut fields, "longitude", Json::Num(self.longitude.text.clone()));
        push_field(&mut fields, "inclination", Json::Num(self.inclination.text.clone()));
        push_field(&mut fields, "eccentricity", opt_dec_to_json(&self.eccentricity));
        proof {
            reveal_strlit("satelliteId");
            reveal_strlit("satelliteName");
            reveal_strlit("longitude");
            reveal_strlit("inclination");
            reveal_strlit("eccentricity");
            assert("satelliteId"@.len() == 11);
            assert("satelliteName"@.len() == 13);
            assert("longitude"@.len() == 9);
            assert("inclination"@.len() == 11);
            assert("eccentricity"@.len() == 12);
            assert("satelliteId"@[0] == 's');
            assert("inclination"@[0] == 'i');
            assert(field_keys(fields@) =~= geo_scatter_point_keys());
            let fs = obj_view(fields@);
            assert(fs.len() == 5);
            assert(fs[0].0 == "satelliteId"@);
            assert(fs[1].0 == "satelliteName"@);
            assert(fs[2].0 == "longitude"@);
            assert(fs[3].0 == "inclination"@);
            assert(fs[4].0 == "eccentricity"@);
            lemma_obj_get_found(fs, "satelliteId"@, 0);
            lemma_obj_get_found(fs, "satelliteName"@, 1);
            lemma_obj_get_found(fs, "longitude"@, 2);
            lemma_obj_get_found(fs, "inclination"@, 3);
            lemma_obj_get_found(fs, "eccentricity"@, 4);
            assert(sget_str(fs, "satelliteId"@) == Some(self.satellite_id));
            assert(sget_opt_str(fs, "satelliteName"@) == Some(self.satellite_name));
            assert(sget_dec(fs, "longitude"@) == Some(self.longitude));
            assert(sget_dec(fs, "inclination"@) == Some(self.inclination));
            assert(sget_opt_dec(fs, "eccentricity"@) == Some(self.eccentricity));
            assert(geo_scatter_point_from_fields(fs) == Some(*self));
        }
        Json::Obj(fields)
    }

    /// Decodes from a JSON value; `None` on any shape mismatch.
    pub fn from_json(j: &Json) -> (r: Option<GeoScatterPoint>)
        ensures
            r == geo_scatter_point_from_json(*j),
    {
        match j {
            Json::Obj(fields) => {
                let satellite_id = match get_str(fields, "satelliteId") {
                    Some(v) => v,
                    None => {
                        return None;
                    },
                };
                let satellite_name = match get_opt_str(fields, "satelliteName") {
                    Some(v) => v,
                    None => {
                        return None;
                    },
                };
                let longitude = match get_dec(fields, "longitude") {
                    Some(v) => v,
                    None => {
                        return None;
                    },
                };
                let inclination = match get_dec(fields, "inclination") {
                    Some(v) => v,
                    None => {
                        return None;
                    },
                };
                let eccentricity = match get_opt_dec(fields, "eccentricity") {
                    Some(v) => v,
                    None => {
                        return None;
                    },
                };
                Some(
                    GeoScatterPoint {
                        satellite_id, satellite_name, longitude, inclination, eccentricity,
                    },
                )
            },
            _ => None,
        }
    }
}

/// Decodes each element of a JSON array.
pub open spec fn geo_scatter_points_from_arr(items: Seq<Json>) -> Option<Seq<GeoScatterPoint>>
    decreases items.len(),
{
    if items.len() == 0 {
        Some(Seq::empty())
    } else {
        match geo_scatter_points_from_arr(items.drop_last()) {
            Some(init) => match geo_scatter_point_from_json(items.last()) {
                Some(x) => Some(init + seq![x]),
                None => None,
            },
            None => None,
        }
    }
}

/// Decodes a JSON array of these records.
pub open spec fn geo_scatter_point_vec_from_json(j: Json) -> Option<Seq<GeoScatterPoint>> {
    match j {
        Json::Arr(items) => geo_scatter_points_from_arr(items@),
        _ => None,
    }
}

proof fn lemma_geo_scatter_points_from_arr_fails(items: Seq<Json>, i: int)
    requires
        0 <= i < items.len(),
        geo_scatter_point_from_json(items[i]) is None,
    ensures
        geo_scatter_points_from_arr(items) is None,
    decreases items.len(),
{
    if items.len() > 0 {
        if i < items.len() - 1 {
            assert(items.drop_last()[i] == items[i]);
            lemma_geo_scatter_points_from_arr_fails(items.drop_last(), i);
        }
    }
}

/// Decodes a JSON array of these records; `None` on any mismatch.
#[verifier::loop_isolation(false)]
pub fn geo_scatter_points_from_json(j: &Json) -> (r: Option<Vec<GeoScatterPoint>>)
    ensures
        opt_vec_view(r) == geo_scatter_point_vec_from_json(*j),
{
    match j {
        Json::Arr(items) => {
            let mut out: Vec<GeoScatterPoint> = Vec::new();
            let mut i: usize = 0;
            while i < items.len()
                invariant
                    i <= items@.len(),
                    geo_scatter_points_from_arr(items@.take(i as int)) == Some(out@),
                decreases items@.len() - i,
            {
                match GeoScatterPoint::from_json(&items[i]) {
                    Some(x) => {
                        out.push(x);
                    },
                    None => {
                        proof {
                            lemma_geo_scatter_points_from_arr_fails(items@, i as int);
                        }
                        return None;
                    },
                }
                proof {
                    let t = items@.take(i + 1);
                    assert(t.drop_last() =~= items@.take(i as int));
                    assert(t.last() == items@[i as int]);
                }
                i += 1;
            }
            proof {
                assert(items@.take(items@.len() as int) =~= items@);
            }
            Some(out)
        },
        _ => None,
    }
}

/// One satellite of the low-orbit scatter.
#[derive(Clone, Debug, PartialEq)]
pub struct LeoScatterPoint {
    pub satellite_id: String,
    pub satellite_name: Option<String>,
    pub semi_major_axis: Decimal,
    pub inclination: Decimal,
    pub eccentricity: Decimal,
    pub apogee_km: Option<Decimal>,
    pub perigee_km: Option<Decimal>,
}

/// The wire keys of this record, in the order the client writes them.
pub open spec fn leo_scatter_point_keys() -> Seq<Seq<char>> {
    seq!["satelliteId"@, "satelliteName"@, "semiMajorAxis"@, "inclination"@, "eccentricity"@, "apogeeKm"@, "perigeeKm"@]
}

/// Decodes from an object's fields.
pub open spec fn leo_scatter_point_from_fields(fs: Seq<(Seq<char>, Json)>) -> Option<LeoScatterPoint> {
    if {
        &&& sget_str(fs, "satelliteId"@) is Some
        &&& sget_opt_str(fs, "satelliteName"@) is Some
        &&& sget_dec(fs, "semiMajorAxis"@) is Some
        &&& sget_dec(fs, "inclination"@) is Some
        &&& sget_dec(fs, "eccentricity"@) is Some
        &&& sget_opt_dec(fs, "apogeeKm"@) is Some
        &&& sget_opt_dec(fs, "perigeeKm"@) is Some
    } {
        Some(
            LeoScatterPoint {
                satellite_id: sget_str(fs, "satelliteId"@).unwrap(),
                satellite_name: sget_opt_str(fs, "satelliteName"@).unwrap(),
                semi_major_axis: sget_dec(fs, "semiMajorAxis"@).unwrap(),
                inclination: sget_dec(fs, "inclination"@).unwrap(),
                eccentricity: sget_dec(fs, "eccentricity"@).unwrap(),
                apogee_km: sget_opt_dec(fs, "apogeeKm"@).unwrap(),
                perigee_km: sget_opt_dec(fs, "perigeeKm"@).unwrap(),
            },
        )
    } else {
        None
    }
}

/// Decodes from a JSON value.
pub open spec fn leo_scatter_point_from_json(j: Json) -> Option<LeoScatterPoint> {
    match j {
        Json::Obj(fields) => leo_scatter_point_from_fields(obj_view(fields@)),
        _ => None,
    }
}

impl LeoScatterPoint {
    /// Encodes to the wire object: exactly the keys of `leo_scatter_point_keys`, in
    /// order; decoding the result yields this value back.
    pub fn to_json(&self) -> (j: Json)
        ensures
            (j matches Json::Obj(fields) && field_keys(fields@) == leo_scatter_point_keys()),
            leo_scatter_point_from_json(j) == Some(*self),
    {
        let mut fields: Vec<(String, Json)> = Vec::new();
        push_field(&mut fields, "satelliteId", Json::Str(self.satellite_id.clone()));
        push_field(&mut fields, "satelliteName", opt_str_to_json(&self.satellite_name));
        push_field(&mut fields, "semiMajorAxis", Json::Num(self.semi_major_axis.text.clone()));
        push_field(&mut fields, "inclination", Json::Num(self.inclination.text.clone()));
        push_field(&mut fields, "eccentricity", Json::Num(self.eccentricity.text.clone()));
        push_field(&mut fields, "apogeeKm", opt_dec_to_json(&self.apogee_km));
        push_field(&mut fields, "perigeeKm", opt_dec_to_json(&self.perigee_km));
        proof {
            reveal_strlit("satelliteId");
            reveal_strlit("satelliteName");
            reveal_strlit("semiMajorAxis");
            reveal_strlit("inclination");
            reveal_strlit("eccentricity");
            reveal_strlit("apogeeKm");
            reveal_strlit("perigeeKm");
            assert("satelliteId"@.len() == 11);
            assert("satelliteName"@.len() == 13);
            assert("semiMajorAxis"@.len() == 13);
            assert("inclination"@.len() == 11);
            assert("eccentricity"@.len() == 12);
            assert("apogeeKm"@.len() == 8);
            assert("perigeeKm"@.len() == 9);
            assert("satelliteId"@[0] == 's');
            assert("inclination"@[0] == 'i');
            assert("satelliteName"@[1] == 'a');
            assert("semiMajorAxis"@[1] == 'e');
            assert(field_keys(fields@) =~= leo_scatter_point_keys());
            let fs = obj_view(fields@);
            assert(fs.len() == 7);
            assert(fs[0].0 == "satelliteId"@);
            assert(fs[1].0 == "satelliteName"@);
            assert(fs[2].0 == "semiMajorAxis"@);
            assert(fs[3].0 == "inclination"@);
            assert(fs[4].0 == "eccentricity"@);
            assert(fs[5].0 == "apogeeKm"@);
            assert(fs[6].0 == "perigeeKm"@);
            lemma_obj_get_found(fs, "satelliteId"@, 0);
            lemma_obj_get_found(fs, "satelliteName"@, 1);
            lemma_obj_get_found(fs, "semiMajorAxis"@, 2);
            lemma_obj_get_found(fs, "inclination"@, 3);
            lemma_obj_get_found(fs, "eccentricity"@, 4);
            lemma_obj_get_found(fs, "apogeeKm"@, 5);
            lemma_obj_get_found(fs, "perigeeKm"@, 6);
            assert(sget_str(fs, "satelliteId"@) == Some(self.satellite_id));
            assert(sget_opt_str(fs, "satelliteName"@) == Some(self.satellite_name));
            assert(sget_dec(fs, "semiMajorAxis"@) == Some(self.semi_major_axis));
            assert(sget_dec(fs, "inclination"@) == Some(self.inclination));
            assert(sget_dec(fs, "eccentricity"@) == Some(self.eccentricity));
            assert(sget_opt_dec(fs, "apogeeKm"@) == Some(self.apogee_km));
            assert(sget_opt_dec(fs, "perigeeKm"@) == Some(self.perigee_km));
            assert(leo_scatter_point_from_fields(fs) == Some(*self));
        }
        Json::Obj(fields)
    }

    /// Decodes from a JSON value; `None` on any shape mismatch.
    pub fn from_json(j: &Json) -> (r: Option<LeoScatterPoint>)
        ensures
            r == leo_scatter_point_from_json(*j),
    {
        match j {
            Json::Obj(fields) => {
                let satellite_id = match get_str(fields, "satelliteId") {
                    Some(v) => v,
                    None => {
                        return None;
                    },
                };
                let satellite_name = match get_opt_str(fields, "satelliteName") {
                    Some(v) => v,
                    None => {
                        return None;
                    },
                };
                let semi_major_axis = match get_dec(fields, "semiMajorAxis") {
                    Some(v) => v,
                    None => {
                        return None;
                    },
                };
                let inclination = match get_dec(fields, "inclination") {
                    Some(v) => v,
                    None => {
                        return None;
                    },
                };
                let eccentricity = match get_dec(fields, "eccentricity") {
                    Some(v) => v,
                    None => {
                        return None;
                    },
                };
                let apogee_km = match get_opt_dec(fields, "apogeeKm") {
                    Some(v) => v,
                    None => {
                        return None;
                    },
                };
                let perigee_km = match get_opt_dec(fields, "perigeeKm") {
                    Some(v) => v,
                    None => {
                        return None;
                    },
                };
                Some(
                    LeoScatterPoint {
                        satellite_id, satellite_name, semi_major_axis, inclination,
                        eccentricity, apogee_km, perigee_km,
                    },
                )
            },
            _ => None,
        }
    }
}

/// Decodes each element of a JSON array.
pub open spec fn leo_scatter_points_from_arr(items: Seq<Json>) -> Option<Seq<LeoScatterPoint>>
    decreases items.len(),
{
    if items.len() == 0 {
        Some(Seq::empty())
    } else {
        match leo_scatter_points_from_arr(items.drop_last()) {
            Some(init) => match leo_scatter_point_from_json(items.last()) {
                Some(x) => Some(init + seq![x]),
                None => None,
            },
            None => None,
        }
    }
}

/// Decodes a JSON array of these records.
pub open spec fn leo_scatter_point_vec_from_json(j: Json) -> Option<Seq<LeoScatterPoint>> {
    match j {
        Json::Arr(items) => leo_scatter_points_from_arr(items@),
        _ => None,
    }
}

proof fn lemma_leo_scatter_points_from_arr_fails(items: Seq<Json>, i: int)
    requires
        0 <= i < items.len(),
        leo_scatter_point_from_json(items[i]) is None,
    ensures
        leo_scatter_points_from_arr(items) is None,
    decreases items.len(),
{
    if items.len() > 0 {
        if i < items.len() - 1 {
            assert(items.drop_last()[i] == items[i]);
            lemma_leo_scatter_points_from_arr_fails(items.drop_last(), i);
        }
    }
}

/// Decodes a JSON array of these records; `None` on any mismatch.
#[verifier::loop_isolation(false)]
pub fn leo_scatter_points_from_json(j: &Json) -> (r: Option<Vec<LeoScatterPoint>>)
    ensures
        opt_vec_view(r) == leo_scatter_point_vec_from_json(*j),
{
    match j {
        Json::Arr(items) => {
            let mut out: Vec<LeoScatterPoint> = Vec::new();
            let mut i: usize = 0;
            while i < items.len()
                invariant
                    i <= items@.len(),
                    leo_scatter_points_from_arr(items@.take(i as int)) == Some(out@),
                decreases items@.len() - i,
            {
                match LeoScatterPoint::from_json(&items[i]) {
                    Some(x) => {
                        out.push(x);
                    },
                    None => {
                        proof {
                            lemma_leo_scatter_points_from_arr_fails(items@, i as int);
                        }
                        return None;
                    },
                }
                proof {
                    let t = items@.take(i + 1);
                    assert(t.drop_last() =~= items@.take(i as int));
                    assert(t.last() == items@[i as int]);
                }
                i += 1;
            }
            proof {
                assert(items@.take(items@.len() as int) =~= items@);
            }
            Some(out)
        },
        _ => None,
    }
}

/// Optional filters when listing historic element sets.
#[derive(Clone, Debug, PartialEq)]
pub struct ElsetHistoryQuery {
    pub start: Option<String>,
    pub end: Option<String>,
    pub source: Option<String>,
    pub limit: Option<i64>,
}

/// The wire keys of this record, in the order the client writes them.
pub open spec fn elset_history_query_keys() -> Seq<Seq<char>> {
    seq!["start"@, "end"@, "source"@, "limit"@]
}

/// Decodes from an object's fields.
pub open spec fn elset_history_query_from_fields(fs: Seq<(Seq<char>, Json)>) -> Option<ElsetHistoryQuery> {
    if {
        &&& sget_opt_str(fs, "start"@) is Some
        &&& sget_opt_str(fs, "end"@) is Some
        &&& sget_opt_str(fs, "source"@) is Some
        &&& sget_opt_i64(fs, "limit"@) is Some
    } {
        Some(
            ElsetHistoryQuery {
                start: sget_opt_str(fs, "start"@).unwrap(),
                end: sget_opt_str(fs, "end"@).unwrap(),
                source: sget_opt_str(fs, "source"@).unwrap(),
                limit: sget_opt_i64(fs, "limit"@).unwrap(),
            },
        )
    } else {
        None
    }
}

/// Decodes from a JSON value.
pub open spec fn elset_history_query_from_json(j: Json) -> Option<ElsetHistoryQuery> {
    match j {
        Json::Obj(fields) => elset_history_query_from_fields(obj_view(fields@)),
        _ => None,
    }
}

impl ElsetHistoryQuery {
    /// Encodes to the wire object: exactly the keys of `elset_history_query_keys`, in
    /// order; decoding the result yields this value back.
    pub fn to_json(&self) -> (j: Json)
        ensures
            (j matches Json::Obj(fields) && field_keys(fields@) == elset_history_query_keys()),
            elset_history_query_from_json(j) == Some(*self),
    {
        let mut fields: Vec<(String, Json)> = Vec::new();
        push_field(&mut fields, "start", opt_str_to_json(&self.start));
        push_field(&mut fields, "end", opt_str_to_json(&self.end));
        push_field(&mut fields, "source", opt_str_to_json(&self.source));
        push_field(&mut fields, "limit", opt_i64_to_json(&self.limit));
        proof {
            reveal_strlit("start");
            reveal_strlit("end");
            reveal_strlit("source");
            reveal_strlit("limit");
            assert("start"@.len() == 5);
            assert("end"@.len() == 3);
            assert("source"@.len() == 6);
            assert("limit"@.len() == 5);
            assert("start"@[0] == 's');
            assert("limit"@[0] == 'l');
            assert(field_keys(fields@) =~= elset_history_query_keys());
            let fs = obj_view(fields@);
            assert(fs.len() == 4);
            assert(fs[0].0 == "start"@);
            assert(fs[1].0 == "end"@);
            assert(fs[2].0 == "source"@);
            assert(fs[3].0 == "limit"@);
            lemma_obj_get_found(fs, "start"@, 0);
            lemma_obj_get_found(fs, "end"@, 1);
            lemma_obj_get_found(fs, "source"@, 2);
            lemma_obj_get_found(fs, "limit"@, 3);
            if let Some(n) = self.limit {
                crate::num::lemma_parse_dec_i64(n);
            }
            assert(sget_opt_str(fs, "start"@) == Some(self.start));
            assert(sget_opt_str(fs, "end"@) == Some(self.end));
            assert(sget_opt_str(fs, "source"@) == Some(self.source));
            assert(sget_opt_i64(fs, "limit"@) == Some(self.limit));
            assert(elset_history_query_from_fields(fs) == Some(*self));
        }
        Json::Obj(fields)
    }

    /// Decodes from a JSON value; `None` on any shape mismatch.
    pub fn from_json(j: &Json) -> (r: Option<ElsetHistoryQuery>)
        ensures
            r == elset_history_query_from_json(*j),
    {
        match j {
            Json::Obj(fields) => {
                let start = match get_opt_str(fields, "start") {
                    Some(v) => v,
                    None => {
                        return None;
                    },
                };
                let end = match get_opt_str(fields, "end") {
                    Some(v) => v,
                    None => {
                        return None;
                    },
                };
                let source = match get_opt_str(fields, "source") {
                    Some(v) => v,
                    None => {
                        return None;
                    },
                };
                let limit = match get_opt_i64(fields, "limit") {
                    Some(v) => v,
                    None => {
                        return None;
                    },
                };
                Some(
                    ElsetHistoryQuery {
                        start, end, source, limit,
                    },
                )
            },
            _ => None,
        }
    }
}
} // verus!
