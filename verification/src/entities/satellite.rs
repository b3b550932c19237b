//! Satellites: the catalog, summaries, and listings.
use vstd::prelude::*;
use vstd::string::StringExecFns;

use crate::json::Decimal;
use crate::json::Json;
use crate::json::field_keys;
use crate::json::get_dec;
use crate::json::get_i64_default;
use crate::json::get_json;
use crate::json::get_opt_bool;
use crate::json::get_opt_dec;
use crate::json::get_opt_i64;
use crate::json::get_opt_str;
use crate::json::get_opt_str_vec;
use crate::json::get_str;
use crate::json::i64_to_json;
use crate::json::lemma_obj_get_found;
use crate::json::obj_get;
use crate::json::obj_view;
use crate::json::opt_bool_to_json;
use crate::json::opt_dec_to_json;
use crate::json::opt_i64_to_json;
use crate::json::opt_str_to_json;
use crate::json::opt_strs_to_json;
use crate::json::opt_vec_view;
use crate::json::push_field;
use crate::json::sget_dec;
use crate::json::sget_i64_default;
use crate::json::sget_opt_bool;
use crate::json::sget_opt_dec;
use crate::json::sget_opt_i64;
use crate::json::sget_opt_str;
use crate::json::sget_opt_str_vec;
use crate::json::sget_str;
use crate::json::strs_to_json;

verus! {

/// A cataloged satellite with its descriptive and orbital summary fields.
#[derive(Clone, Debug, PartialEq)]
pub struct Satellite {
    pub id: String,
    pub name: String,
    pub norad_id: Option<i64>,
    pub created_at: Option<String>,
    pub decay_date: Option<String>,
    pub launch_date: Option<String>,
    pub object_type: Option<String>,
    pub origin_type: Option<String>,
    pub maneuver_capability: Option<String>,
    pub optical_cross_section: Option<Decimal>,
    pub radar_cross_section: Option<Decimal>,
    pub alias_count: Option<i64>,
    pub elset_count: Option<i64>,
    pub transmission_count: Option<i64>,
    pub country_code: Option<String>,
    pub country_name: Option<String>,
    pub country_iso: Option<String>,
    pub site: Option<String>,
    pub launch_site_name: Option<String>,
    pub orbit_regime: Option<String>,
    pub orbit_regime_full_name: Option<String>,
    pub altitude_km: Option<Decimal>,
    pub altitude_display: Option<String>,
    pub coverage_type: Option<String>,
    pub coverage_description: Option<String>,
    pub international_designator: Option<String>,
    pub rcs_size: Option<String>,
    pub period_minutes: Option<Decimal>,
    pub inclination_deg: Option<Decimal>,
    pub apogee_km: Option<Decimal>,
    pub perigee_km: Option<Decimal>,
    pub semi_major_axis_km: Option<Decimal>,
    pub eccentricity: Option<Decimal>,
    pub updated_at: Option<String>,
}

/// The wire keys of this record, in the order the client writes them.
pub open spec fn satellite_keys() -> Seq<Seq<char>> {
    seq!["id"@, "name"@, "noradCatId"@, "creationEpoch"@, "decayEpoch"@, "launchDateEpoch"@, "type"@, "originType"@, "maneuverCapability"@, "opticalCrossSection"@, "radarCrossSection"@, "aliasCount"@, "elsetCount"@, "transmissionCount"@, "countryCode"@, "countryName"@, "countryIso"@, "site"@, "launchSiteName"@, "orbitRegime"@, "orbitRegimeFullName"@, "altitudeKm"@, "altitudeDisplay"@, "coverageType"@, "coverageDescription"@, "internationalDesignator"@, "rcsSize"@, "periodMinutes"@, "inclinationDeg"@, "apogeeKm"@, "perigeeKm"@, "semiMajorAxisKm"@, "eccentricity"@, "updateEpoch"@]
}

/// Decodes from an object's fields.
pub open spec fn satellite_from_fields(fs: Seq<(Seq<char>, Json)>) -> Option<Satellite> {
    if {
        &&& sget_str(fs, "id"@) is Some
        &&& sget_str(fs, "name"@) is Some
        &&& sget_opt_i64(fs, "noradCatId"@) is Some
        &&& sget_opt_str(fs, "creationEpoch"@) is Some
        &&& sget_opt_str(fs, "decayEpoch"@) is Some
        &&& sget_opt_str(fs, "launchDateEpoch"@) is Some
        &&& sget_opt_str(fs, "type"@) is Some
        &&& sget_opt_str(fs, "originType"@) is Some
        &&& sget_opt_str(fs, "maneuverCapability"@) is Some
        &&& sget_opt_dec(fs, "opticalCrossSection"@) is Some
        &&& sget_opt_dec(fs, "radarCrossSection"@) is Some
        &&& sget_opt_i64(fs, "aliasCount"@) is Some
        &&& sget_opt_i64(fs, "elsetCount"@) is Some
        &&& sget_opt_i64(fs, "transmissionCount"@) is Some
        &&& sget_opt_str(fs, "countryCode"@) is Some
        &&& sget_opt_str(fs, "countryName"@) is Some
        &&& sget_opt_str(fs, "countryIso"@) is Some
        &&& sget_opt_str(fs, "site"@) is Some
        &&& sget_opt_str(fs, "launchSiteName"@) is Some
        &&& sget_opt_str(fs, "orbitRegime"@) is Some
        &&& sget_opt_str(fs, "orbitRegimeFullName"@) is Some
        &&& sget_opt_dec(fs, "altitudeKm"@) is Some
        &&& sget_opt_str(fs, "altitudeDisplay"@) is Some
        &&& sget_opt_str(fs, "coverageType"@) is Some
        &&& sget_opt_str(fs, "coverageDescription"@) is Some
        &&& sget_opt_str(fs, "internationalDesignator"@) is Some
        &&& sget_opt_str(fs, "rcsSize"@) is Some
        &&& sget_opt_dec(fs, "periodMinutes"@) is Some
        &&& sget_opt_dec(fs, "inclinationDeg"@) is Some
        &&& sget_opt_dec(fs, "apogeeKm"@) is Some
        &&& sget_opt_dec(fs, "perigeeKm"@) is Some
        &&& sget_opt_dec(fs, "semiMajorAxisKm"@) is Some
        &&& sget_opt_dec(fs, "eccentricity"@) is Some
        &&& sget_opt_str(fs, "updateEpoch"@) is Some
    } {
        Some(
            Satellite {
                id: sget_str(fs, "id"@).unwrap(),
                name: sget_str(fs, "name"@).unwrap(),
                norad_id: sget_opt_i64(fs, "noradCatId"@).unwrap(),
                created_at: sget_opt_str(fs, "creationEpoch"@).unwrap(),
                decay_date: sget_opt_str(fs, "decayEpoch"@).unwrap(),
                launch_date: sget_opt_str(fs, "launchDateEpoch"@).unwrap(),
                object_type: sget_opt_str(fs, "type"@).unwrap(),
                origin_type: sget_opt_str(fs, "originType"@).unwrap(),
                maneuver_capability: sget_opt_str(fs, "maneuverCapability"@).unwrap(),
                optical_cross_section: sget_opt_dec(fs, "opticalCrossSection"@).unwrap(),
                radar_cross_section: sget_opt_dec(fs, "radarCrossSection"@).unwrap(),
                alias_count: sget_opt_i64(fs, "aliasCount"@).unwrap(),
                elset_count: sget_opt_i64(fs, "elsetCount"@).unwrap(),
                transmission_count: sget_opt_i64(fs, "transmissionCount"@).unwrap(),
                country_code: sget_opt_str(fs, "countryCode"@).unwrap(),
                country_name: sget_opt_str(fs, "countryName"@).unwrap(),
                country_iso: sget_opt_str(fs, "countryIso"@).unwrap(),
                site: sget_opt_str(fs, "site"@).unwrap(),
                launch_site_name: sget_opt_str(fs, "launchSiteName"@).unwrap(),
                orbit_regime: sget_opt_str(fs, "orbitRegime"@).unwrap(),
                orbit_regime_full_name: sget_opt_str(fs, "orbitRegimeFullName"@).unwrap(),
                altitude_km: sget_opt_dec(fs, "altitudeKm"@).unwrap(),
                altitude_display: sget_opt_str(fs, "altitudeDisplay"@).unwrap(),
                coverage_type: sget_opt_str(fs, "coverageType"@).unwrap(),
                coverage_description: sget_opt_str(fs, "coverageDescription"@).unwrap(),
                international_designator: sget_opt_str(fs, "internationalDesignator"@).unwrap(),
                rcs_size: sget_opt_str(fs, "rcsSize"@).unwrap(),
                period_minutes: sget_opt_dec(fs, "periodMinutes"@).unwrap(),
                inclination_deg: sget_opt_dec(fs, "inclinationDeg"@).unwrap(),
                apogee_km: sget_opt_dec(fs, "apogeeKm"@).unwrap(),
                perigee_km: sget_opt_dec(fs, "perigeeKm"@).unwrap(),
                semi_major_axis_km: sget_opt_dec(fs, "semiMajorAxisKm"@).unwrap(),
                eccentricity: sget_opt_dec(fs, "eccentricity"@).unwrap(),
                updated_at: sget_opt_str(fs, "updateEpoch"@).unwrap(),
            },
        )
    } else {
        None
    }
}

/// Decodes from a JSON value.
pub open spec fn satellite_from_json(j: Json) -> Option<Satellite> {
    match j {
        Json::Obj(fields) => satellite_from_fields(obj_view(fields@)),
        _ => None,
    }
}

impl Satellite {
    /// Encodes to the wire object: exactly the keys of `satellite_keys`, in
    /// order; decoding the result yields this value back.
    #[verifier::rlimit(100)]
    pub fn to_json(&self) -> (j: Json)
        ensures
            (j matches Json::Obj(fields) && field_keys(fields@) == satellite_keys()),
            satellite_from_json(j) == Some(*self),
    {
        let mut fields: Vec<(String, Json)> = Vec::new();
        push_field(&mut fields, "id", Json::Str(self.id.clone()));
        push_field(&mut fields, "name", Json::Str(self.name.clone()));
        push_field(&mut fields, "noradCatId", opt_i64_to_json(&self.norad_id));
        push_field(&mut fields, "creationEpoch", opt_str_to_json(&self.created_at));
        push_field(&mut fields, "decayEpoch", opt_str_to_json(&self.decay_date));
        push_field(&mut fields, "launchDateEpoch", opt_str_to_json(&self.launch_date));
        push_field(&mut fields, "type", opt_str_to_json(&self.object_type));
        push_field(&mut fields, "originType", opt_str_to_json(&self.origin_type));
        push_field(&mut fields, "maneuverCapability", opt_str_to_json(&self.maneuver_capability));
        push_field(&mut fields, "opticalCrossSection", opt_dec_to_json(&self.optical_cross_section));
        push_field(&mut fields, "radarCrossSection", opt_dec_to_json(&self.radar_cross_section));
        push_field(&mut fields, "aliasCount", opt_i64_to_json(&self.alias_count));
        push_field(&mut fields, "elsetCount", opt_i64_to_json(&self.elset_count));
        push_field(&mut fields, "transmissionCount", opt_i64_to_json(&self.transmission_count));
        push_field(&mut fields, "countryCode", opt_str_to_json(&self.country_code));
        push_field(&mut fields, "countryName", opt_str_to_json(&self.country_name));
        push_field(&mut fields, "countryIso", opt_str_to_json(&self.country_iso));
        push_field(&mut fields, "site", opt_str_to_json(&self.site));
        push_field(&mut fields, "launchSiteName", opt_str_to_json(&self.launch_site_name));
        push_field(&mut fields, "orbitRegime", opt_str_to_json(&self.orbit_regime));
        push_field(&mut fields, "orbitRegimeFullName", opt_str_to_json(&self.orbit_regime_full_name));
        push_field(&mut fields, "altitudeKm", opt_dec_to_json(&self.altitude_km));
        push_field(&mut fields, "altitudeDisplay", opt_str_to_json(&self.altitude_display));
        push_field(&mut fields, "coverageType", opt_str_to_json(&self.coverage_type));
        push_field(&mut fields, "coverageDescription", opt_str_to_json(&self.coverage_description));
        push_field(&mut fields, "internationalDesignator", opt_str_to_json(&self.international_designator));
        push_field(&mut fields, "rcsSize", opt_str_to_json(&self.rcs_size));
        push_field(&mut fields, "periodMinutes", opt_dec_to_json(&self.period_minutes));
        push_field(&mut fields, "inclinationDeg", opt_dec_to_json(&self.inclination_deg));
        push_field(&mut fields, "apogeeKm", opt_dec_to_json(&self.apogee_km));
        push_field(&mut fields, "perigeeKm", opt_dec_to_json(&self.perigee_km));
        push_field(&mut fields, "semiMajorAxisKm", opt_dec_to_json(&self.semi_major_axis_km));
        push_field(&mut fields, "eccentricity", opt_dec_to_json(&self.eccentricity));
        push_field(&mut fields, "updateEpoch", opt_str_to_json(&self.updated_at));
        proof {
            reveal_strlit("id");
            reveal_strlit("name");
            reveal_strlit("noradCatId");
            reveal_strlit("creationEpoch");
            reveal_strlit("decayEpoch");
            reveal_strlit("launchDateEpoch");
            reveal_strlit("type");
            reveal_strlit("originType");
            reveal_strlit("maneuverCapability");
            reveal_strlit("opticalCrossSection");
            reveal_strlit("radarCrossSection");
            reveal_strlit("aliasCount");
            reveal_strlit("elsetCount");
            reveal_strlit("transmissionCount");
            reveal_strlit("countryCode");
            reveal_strlit("countryName");
            reveal_strlit("countryIso");
            reveal_strlit("site");
            reveal_strlit("launchSiteName");
            reveal_strlit("orbitRegime");
            reveal_strlit("orbitRegimeFullName");
            reveal_strlit("altitudeKm");
            reveal_strlit("altitudeDisplay");
            reveal_strlit("coverageType");
            reveal_strlit("coverageDescription");
            reveal_strlit("internationalDesignator");
            reveal_strlit("rcsSize");
            reveal_strlit("periodMinutes");
            reveal_strlit("inclinationDeg");
            reveal_strlit("apogeeKm");
            reveal_strlit("perigeeKm");
            reveal_strlit("semiMajorAxisKm");
            reveal_strlit("eccentricity");
            reveal_strlit("updateEpoch");
            assert("id"@.len() == 2);
            assert("name"@.len() == 4);
            assert("noradCatId"@.len() == 10);
            assert("creationEpoch"@.len() == 13);
            assert("decayEpoch"@.len() == 10);
            assert("launchDateEpoch"@.len() == 15);
            assert("type"@.len() == 4);
            assert("originType"@.len() == 10);
            assert("maneuverCapability"@.len() == 18);
            assert("opticalCrossSection"@.len() == 19);
            assert("radarCrossSection"@.len() == 17);
            assert("aliasCount"@.len() == 10);
            assert("elsetCount"@.len() == 10);
            assert("transmissionCount"@.len() == 17);
            assert("countryCode"@.len() == 11);
            assert("countryName"@.len() == 11);
            assert("countryIso"@.len() == 10);
            assert("site"@.len() == 4);
            assert("launchSiteName"@.len() == 14);
            assert("orbitRegime"@.len() == 11);
            assert("orbitRegimeFullName"@.len() == 19);
            assert("altitudeKm"@.len() == 10);
            assert("altitudeDisplay"@.len() == 15);
            assert("coverageType"@.len() == 12);
            assert("coverageDescription"@.len() == 19);
            assert("internationalDesignator"@.len() == 23);
            assert("rcsSize"@.len() == 7);
            assert("periodMinutes"@.len() == 13);
            assert("inclinationDeg"@.len() == 14);
            assert("apogeeKm"@.len() == 8);
            assert("perigeeKm"@.len() == 9);
            assert("semiMajorAxisKm"@.len() == 15);
            assert("eccentricity"@.len() == 12);
            assert("updateEpoch"@.len() == 11);
            assert("name"@[0] == 'n');
            assert("type"@[0] == 't');
            assert("site"@[0] == 's');
            assert("noradCatId"@[0] == 'n');
            assert("decayEpoch"@[0] == 'd');
            assert("originType"@[0] == 'o');
            assert("aliasCount"@[0] == 'a');
            assert("elsetCount"@[0] == 'e');
            assert("countryIso"@[0] == 'c');
            assert("altitudeKm"@[0] == 'a');
            assert("aliasCount"@[2] == 'i');
            assert("altitudeKm"@[2] == 't');
            assert("creationEpoch"@[0] == 'c');
            assert("periodMinutes"@[0] == 'p');
            assert("launchDateEpoch"@[0] == 'l');
            assert("altitudeDisplay"@[0] == 'a');
            assert("semiMajorAxisKm"@[0] == 's');
            assert("opticalCrossSection"@[1] == 'p');
            assert("orbitRegimeFullName"@[1] == 'r');
            assert("opticalCrossSection"@[0] == 'o');
            assert("coverageDescription"@[0] == 'c');
            assert("orbitRegimeFullName"@[0] == 'o');
            assert("radarCrossSection"@[0] == 'r');
            assert("transmissionCount"@[0] == 't');
            assert("countryCode"@[7] == 'C');
            assert("countryName"@[7] == 'N');
            assert("countryCode"@[0] == 'c');
            assert("orbitRegime"@[0] == 'o');
            assert("updateEpoch"@[0] == 'u');
            assert("countryName"@[0] == 'c');
            assert("launchSiteName"@[0] == 'l');
            assert("inclinationDeg"@[0] == 'i');
            assert("coverageType"@[0] == 'c');
            assert("eccentricity"@[0] == 'e');
            assert(field_keys(fields@) =~= satellite_keys());
            let fs = obj_view(fields@);
            assert(fs.len() == 34);
            assert(fs[0].0 == "id"@);
            assert(fs[1].0 == "name"@);
            assert(fs[2].0 == "noradCatId"@);
            assert(fs[3].0 == "creationEpoch"@);
            assert(fs[4].0 == "decayEpoch"@);
            assert(fs[5].0 == "launchDateEpoch"@);
            assert(fs[6].0 == "type"@);
            assert(fs[7].0 == "originType"@);
            assert(fs[8].0 == "maneuverCapability"@);
            assert(fs[9].0 == "opticalCrossSection"@);
            assert(fs[10].0 == "radarCrossSection"@);
            assert(fs[11].0 == "aliasCount"@);
            assert(fs[12].0 == "elsetCount"@);
            assert(fs[13].0 == "transmissionCount"@);
            assert(fs[14].0 == "countryCode"@);
            assert(fs[15].0 == "countryName"@);
            assert(fs[16].0 == "countryIso"@);
            assert(fs[17].0 == "site"@);
            assert(fs[18].0 == "launchSiteName"@);
            assert(fs[19].0 == "orbitRegime"@);
            assert(fs[20].0 == "orbitRegimeFullName"@);
            assert(fs[21].0 == "altitudeKm"@);
            assert(fs[22].0 == "altitudeDisplay"@);
            assert(fs[23].0 == "coverageType"@);
            assert(fs[24].0 == "coverageDescription"@);
            assert(fs[25].0 == "internationalDesignator"@);
            assert(fs[26].0 == "rcsSize"@);
            assert(fs[27].0 == "periodMinutes"@);
            assert(fs[28].0 == "inclinationDeg"@);
            assert(fs[29].0 == "apogeeKm"@);
            assert(fs[30].0 == "perigeeKm"@);
            assert(fs[31].0 == "semiMajorAxisKm"@);
            assert(fs[32].0 == "eccentricity"@);
            assert(fs[33].0 == "updateEpoch"@);
            lemma_obj_get_found(fs, "id"@, 0);
            lemma_obj_get_found(fs, "name"@, 1);
            lemma_obj_get_found(fs, "noradCatId"@, 2);
            lemma_obj_get_found(fs, "creationEpoch"@, 3);
            lemma_obj_get_found(fs, "decayEpoch"@, 4);
            lemma_obj_get_found(fs, "launchDateEpoch"@, 5);
            lemma_obj_get_found(fs, "type"@, 6);
            lemma_obj_get_found(fs, "originType"@, 7);
            lemma_obj_get_found(fs, "maneuverCapability"@, 8);
            lemma_obj_get_found(fs, "opticalCrossSection"@, 9);
            lemma_obj_get_found(fs, "radarCrossSection"@, 10);
            lemma_obj_get_found(fs, "aliasCount"@, 11);
            lemma_obj_get_found(fs, "elsetCount"@, 12);
            lemma_obj_get_found(fs, "transmissionCount"@, 13);
            lemma_obj_get_found(fs, "countryCode"@, 14);
            lemma_obj_get_found(fs, "countryName"@, 15);
            lemma_obj_get_found(fs, "countryIso"@, 16);
            lemma_obj_get_found(fs, "site"@, 17);
            lemma_obj_get_found(fs, "launchSiteName"@, 18);
            lemma_obj_get_found(fs, "orbitRegime"@, 19);
            lemma_obj_get_found(fs, "orbitRegimeFullName"@, 20);
            lemma_obj_get_found(fs, "altitudeKm"@, 21);
            lemma_obj_get_found(fs, "altitudeDisplay"@, 22);
            lemma_obj_get_found(fs, "coverageType"@, 23);
            lemma_obj_get_found(fs, "coverageDescription"@, 24);
            lemma_obj_get_found(fs, "internationalDesignator"@, 25);
            lemma_obj_get_found(fs, "rcsSize"@, 26);
            lemma_obj_get_found(fs, "periodMinutes"@, 27);
            lemma_obj_get_found(fs, "inclinationDeg"@, 28);
            lemma_obj_get_found(fs, "apogeeKm"@, 29);
            lemma_obj_get_found(fs, "perigeeKm"@, 30);
            lemma_obj_get_found(fs, "semiMajorAxisKm"@, 31);
            lemma_obj_get_found(fs, "eccentricity"@, 32);
            lemma_obj_get_found(fs, "updateEpoch"@, 33);
            if let Some(n) = self.norad_id {
                crate::num::lemma_parse_dec_i64(n);
            }
            if let Some(n) = self.alias_count {
                crate::num::lemma_parse_dec_i64(n);
            }
            if let Some(n) = self.elset_count {
                crate::num::lemma_parse_dec_i64(n);
            }
            if let Some(n) = self.transmission_count {
                crate::num::lemma_parse_dec_i64(n);
            }
            assert(sget_str(fs, "id"@) == Some(self.id));
            assert(sget_str(fs, "name"@) == Some(self.name));
            assert(sget_opt_i64(fs, "noradCatId"@) == Some(self.norad_id));
            assert(sget_opt_str(fs, "creationEpoch"@) == Some(self.created_at));
            assert(sget_opt_str(fs, "decayEpoch"@) == Some(self.decay_date));
            assert(sget_opt_str(fs, "launchDateEpoch"@) == Some(self.launch_date));
            assert(sget_opt_str(fs, "type"@) == Some(self.object_type));
            assert(sget_opt_str(fs, "originType"@) == Some(self.origin_type));
            assert(sget_opt_str(fs, "maneuverCapability"@) == Some(self.maneuver_capability));
            assert(sget_opt_dec(fs, "opticalCrossSection"@) == Some(self.optical_cross_section));
            assert(sget_opt_dec(fs, "radarCrossSection"@) == Some(self.radar_cross_section));
            assert(sget_opt_i64(fs, "aliasCount"@) == Some(self.alias_count));
            assert(sget_opt_i64(fs, "elsetCount"@) == Some(self.elset_count));
            assert(sget_opt_i64(fs, "transmissionCount"@) == Some(self.transmission_count));
            assert(sget_opt_str(fs, "countryCode"@) == Some(self.country_code));
            assert(sget_opt_str(fs, "countryName"@) == Some(self.country_name));
            assert(sget_opt_str(fs, "countryIso"@) == Some(self.country_iso));
            assert(sget_opt_str(fs, "site"@) == Some(self.site));
            assert(sget_opt_str(fs, "launchSiteName"@) == Some(self.launch_site_name));
            assert(sget_opt_str(fs, "orbitRegime"@) == Some(self.orbit_regime));
            assert(sget_opt_str(fs, "orbitRegimeFullName"@) == Some(self.orbit_regime_full_name));
            assert(sget_opt_dec(fs, "altitudeKm"@) == Some(self.altitude_km));
            assert(sget_opt_str(fs, "altitudeDisplay"@) == Some(self.altitude_display));
            assert(sget_opt_str(fs, "coverageType"@) == Some(self.coverage_type));
            assert(sget_opt_str(fs, "coverageDescription"@) == Some(self.coverage_description));
            assert(sget_opt_str(fs, "internationalDesignator"@) == Some(self.international_designator));
            assert(sget_opt_str(fs, "rcsSize"@) == Some(self.rcs_size));
            assert(sget_opt_dec(fs, "periodMinutes"@) == Some(self.period_minutes));
            assert(sget_opt_dec(fs, "inclinationDeg"@) == Some(self.inclination_deg));
            assert(sget_opt_dec(fs, "apogeeKm"@) == Some(self.apogee_km));
            assert(sget_opt_dec(fs, "perigeeKm"@) == Some(self.perigee_km));
            assert(sget_opt_dec(fs, "semiMajorAxisKm"@) == Some(self.semi_major_axis_km));
            assert(sget_opt_dec(fs, "eccentricity"@) == Some(self.eccentricity));
            assert(sget_opt_str(fs, "updateEpoch"@) == Some(self.updated_at));
            assert(satellite_from_fields(fs) == Some(*self));
        }
        Json::Obj(fields)
    }

    /// Decodes from a JSON value; `None` on any shape mismatch.
    pub fn from_json(j: &Json) -> (r: Option<Satellite>)
        ensures
            r == satellite_from_json(*j),
    {
        match j {
            Json::Obj(fields) => {
                let id = match get_str(fields, "id") {
                    Some(v) => v,
                    None => {
                        return None;
                    },
                };
                let name = match get_str(fields, "name") {
                    Some(v) => v,
                    None => {
                        return None;
                    },
                };
                let norad_id = match get_opt_i64(fields, "noradCatId") {
                    Some(v) => v,
                    None => {
                        return None;
                    },
                };
                let created_at = match get_opt_str(fields, "creationEpoch") {
                    Some(v) => v,
                    None => {
                        return None;
                    },
                };
                let decay_date = match get_opt_str(fields, "decayEpoch") {
                    Some(v) => v,
                    None => {
                        return None;
                    },
                };
                let launch_date = match get_opt_str(fields, "launchDateEpoch") {
                    Some(v) => v,
                    None => {
                        return None;
                    },
                };
                let object_type = match get_opt_str(fields, "type") {
                    Some(v) => v,
                    None => {
                        return None;
                    },
                };
                let origin_type = match get_opt_str(fields, "originType") {
                    Some(v) => v,
                    None => {
                        return None;
                    },
                };
                let maneuver_capability = match get_opt_str(fields, "maneuverCapability") {
                    Some(v) => v,
                    None => {
                        return None;
                    },
                };
                let optical_cross_section = match get_opt_dec(fields, "opticalCrossSection") {
                    Some(v) => v,
                    None => {
                        return None;
                    },
                };
                let radar_cross_section = match get_opt_dec(fields, "radarCrossSection") {
                    Some(v) => v,
                    None => {
                        return None;
                    },
                };
                let alias_count = match get_opt_i64(fields, "aliasCount") {
                    Some(v) => v,
                    None => {
                        return None;
                    },
                };
                let elset_count = match get_opt_i64(fields, "elsetCount") {
                    Some(v) => v,
                    None => {
                        return None;
                    },
                };
                let transmission_count = match get_opt_i64(fields, "transmissionCount") {
                    Some(v) => v,
                    None => {
                        return None;
                    },
                };
                let country_code = match get_opt_str(fields, "countryCode") {
                    Some(v) => v,
                    None => {
                        return None;
                    },
                };
                let country_name = match get_opt_str(fields, "countryName") {
                    Some(v) => v,
                    None => {
                        return None;
                    },
                };
                let country_iso = match get_opt_str(fields, "countryIso") {
                    Some(v) => v,
                    None => {
                        return None;
                    },
                };
                let site = match get_opt_str(fields, "site") {
                    Some(v) => v,
                    None => {
                        return None;
                    },
                };
                let launch_site_name = match get_opt_str(fields, "launchSiteName") {
                    Some(v) => v,
                    None => {
                        return None;
                    },
                };
                let orbit_regime = match get_opt_str(fields, "orbitRegime") {
                    Some(v) => v,
                    None => {
                        return None;
                    },
                };
                let orbit_regime_full_name = match get_opt_str(fields, "orbitRegimeFullName") {
                    Some(v) => v,
                    None => {
                        return None;
                    },
                };
                let altitude_km = match get_opt_dec(fields, "altitudeKm") {
                    Some(v) => v,
                    None => {
                        return None;
                    },
                };
                let altitude_display = match get_opt_str(fields, "altitudeDisplay") {
                    Some(v) => v,
                    None => {
                        return None;
                    },
                };
                let coverage_type = match get_opt_str(fields, "coverageType") {
                    Some(v) => v,
                    None => {
                        return None;
                    },
                };
                let coverage_description = match get_opt_str(fields, "coverageDescription") {
                    Some(v) => v,
                    None => {
                        return None;
                    },
                };
                let international_designator = match get_opt_str(fields, "internationalDesignator") {
                    Some(v) => v,
                    None => {
                        return None;
                    },
                };
                let rcs_size = match get_opt_str(fields, "rcsSize") {
                    Some(v) => v,
                    None => {
                        return None;
                    },
                };
                let period_minutes = match get_opt_dec(fields, "periodMinutes") {
                    Some(v) => v,
                    None => {
                        return None;
                    },
                };
                let inclination_deg = match get_opt_dec(fields, "inclinationDeg") {
                    Some(v) => v,
                    None => {
                        return None;
                    },
                };
                let apogee_km = match get_opt_dec(fields, "apogeeKm") {
                    Some(v) => v,
                    None => {
                        return None;
                    },
                };
                let perigee_km = match get_opt_dec(fields, "perigeeKm") {
                    Some(v) => v,
                    None => {
                        return None;
                    },
                };
                let semi_major_axis_km = match get_opt_dec(fields, "semiMajorAxisKm") {
                    Some(v) => v,
                    None => {
                        return None;
                    },
                };
                let eccentricity = match get_opt_dec(fields, "eccentricity") {
                    Some(v) => v,
                    None => {
                        return None;
                    },
                };
                let updated_at = match get_opt_str(fields, "updateEpoch") {
                    Some(v) => v,
                    None => {
                        return None;
                    },
                };
                Some(
                    Satellite {
                        id, name, norad_id, created_at, decay_date, launch_date, object_type,
                        origin_type, maneuver_capability, optical_cross_section,
                        radar_cross_section, alias_count, elset_count, transmission_count,
                        country_code, country_name, country_iso, site, launch_site_name,
                        orbit_regime, orbit_regime_full_name, altitude_km, altitude_display,
                        coverage_type, coverage_description, international_designator, rcs_size,
                        period_minutes, inclination_deg, apogee_km, perigee_km,
                        semi_major_axis_km, eccentricity, updated_at,
                    },
                )
            },
            _ => None,
        }
    }
}

/// Decodes each element of a JSON array.
pub open spec fn satellites_from_arr(items: Seq<Json>) -> Option<Seq<Satellite>>
    decreases items.len(),
{
    if items.len() == 0 {
        Some(Seq::empty())
    } else {
        match satellites_from_arr(items.drop_last()) {
            Some(init) => match satellite_from_json(items.last()) {
                Some(x) => Some(init + seq![x]),
                None => None,
            },
            None => None,
        }
    }
}

/// Decodes a JSON array of these records.
pub open spec fn satellite_vec_from_json(j: Json) -> Option<Seq<Satellite>> {
    match j {
        Json::Arr(items) => satellites_from_arr(items@),
        _ => None,
    }
}

proof fn lemma_satellites_from_arr_fails(items: Seq<Json>, i: int)
    requires
        0 <= i < items.len(),
        satellite_from_json(items[i]) is None,
    ensures
        satellites_from_arr(items) is None,
    decreases items.len(),
{
    if items.len() > 0 {
        if i < items.len() - 1 {
            assert(items.drop_last()[i] == items[i]);
            lemma_satellites_from_arr_fails(items.drop_last(), i);
        }
    }
}

/// Decodes a JSON array of these records; `None` on any mismatch.
#[verifier::loop_isolation(false)]
pub fn satellites_from_json(j: &Json) -> (r: Option<Vec<Satellite>>)
    ensures
        opt_vec_view(r) == satellite_vec_from_json(*j),
{
    match j {
        Json::Arr(items) => {
            let mut out: Vec<Satellite> = Vec::new();
            let mut i: usize = 0;
            while i < items.len()
                invariant
                    i <= items@.len(),
                    satellites_from_arr(items@.take(i as int)) == Some(out@),
                decreases items@.len() - i,
            {
                match Satellite::from_json(&items[i]) {
                    Some(x) => {
                        out.push(x);
                    },
                    None => {
                        proof {
                            lemma_satellites_from_arr_fails(items@, i as int);
                        }
                        return None;
                    },
                }
                proof {
                    let t = items@.take(i + 1);
                    assert(t.drop_last() =~= items@.take(i as int));
                    assert(t.last() == items@[i as int]);
                }
                i += 1;
            }
            proof {
                assert(items@.take(items@.len() as int) =~= items@);
            }
            Some(out)
        },
        _ => None,
    }
}

/// Builds the JSON array of these records; decoding it yields the same
/// records back.
pub fn satellites_to_json(v: &Vec<Satellite>) -> (j: Json)
    ensures
        (j matches Json::Arr(items) && satellites_from_arr(items@) == Some(v@) && items@.len() == v@.len()),
{
    let mut items: Vec<Json> = Vec::new();
    let mut i: usize = 0;
    while i < v.len()
        invariant
            i <= v@.len(),
            items@.len() == i,
            satellites_from_arr(items@) == Some(v@.take(i as int)),
        decreases v@.len() - i,
    {
        let ghost prev = items@;
        items.push(v[i].to_json());
        proof {
            assert(items@.drop_last() =~= prev);
            assert(v@.take(i + 1) =~= v@.take(i as int) + seq![v@[i as int]]);
        }
        i += 1;
    }
    proof {
        assert(v@.take(v@.len() as int) =~= v@);
    }
    Json::Arr(items)
}

/// One page of a satellite listing; an absent list reads as empty.
#[derive(Clone, Debug, PartialEq)]
pub struct SatellitePageResponse {
    pub items: Vec<Satellite>,
}

/// The wire keys of this record, in the order the client writes them.
pub open spec fn satellite_page_response_keys() -> Seq<Seq<char>> {
    seq!["items"@]
}

/// The fields decode into exactly this value.
pub open spec fn satellite_page_response_decodes_fields(fs: Seq<(Seq<char>, Json)>, x: SatellitePageResponse) -> bool {
    &&& (match obj_get(fs, "items"@) {
        None => x.items@ =~= Seq::empty(),
        Some(Json::Arr(items)) => satellites_from_arr(items@) == Some(x.items@),
        Some(_) => false,
    })
}

/// Every field is present with a decodable shape.
pub open spec fn satellite_page_response_shape_ok(fs: Seq<(Seq<char>, Json)>) -> bool {
    &&& (match obj_get(fs, "items"@) {
        None => true,
        Some(Json::Arr(items)) => satellites_from_arr(items@) is Some,
        Some(_) => false,
    })
}

/// The JSON value decodes into exactly this value.
pub open spec fn satellite_page_response_decodes_to(j: Json, x: SatellitePageResponse) -> bool {
    match j {
        Json::Obj(fields) => satellite_page_response_decodes_fields(obj_view(fields@), x),
        _ => false,
    }
}

/// The JSON value has the shape this record decodes from.
pub open spec fn satellite_page_response_json_ok(j: Json) -> bool {
    match j {
        Json::Obj(fields) => satellite_page_response_shape_ok(obj_view(fields@)),
        _ => false,
    }
}

impl SatellitePageResponse {
    /// Encodes to the wire object: exactly the keys of `satellite_page_response_keys`, in
    /// order; decoding the result yields this value back.
    pub fn to_json(&self) -> (j: Json)
        ensures
            (j matches Json::Obj(fields) && field_keys(fields@) == satellite_page_response_keys()),
            satellite_page_response_decodes_to(j, *self),
    {
        let mut fields: Vec<(String, Json)> = Vec::new();
        push_field(&mut fields, "items", satellites_to_json(&self.items));
        proof {
            reveal_strlit("items");
            assert("items"@.len() == 5);
            assert(field_keys(fields@) =~= satellite_page_response_keys());
            let fs = obj_view(fields@);
            assert(fs.len() == 1);
            assert(fs[0].0 == "items"@);
            lemma_obj_get_found(fs, "items"@, 0);
            assert((match obj_get(fs, "items"@) {
        None => self.items@ =~= Seq::empty(),
        Some(Json::Arr(items)) => satellites_from_arr(items@) == Some(self.items@),
        Some(_) => false,
    }));
            assert(satellite_page_response_decodes_fields(fs, *self));
        }
        Json::Obj(fields)
    }

    /// Decodes from a JSON value; `None` on any shape mismatch.
    pub fn from_json(j: &Json) -> (r: Option<SatellitePageResponse>)
        ensures
            (match r {
                Some(x) => satellite_page_response_decodes_to(*j, x),
                None => !satellite_page_response_json_ok(*j),
            }),
    {
        match j {
            Json::Obj(fields) => {
                let items = match get_json(fields, "items") {
                    Some(v) => match satellites_from_json(v) {
                        Some(x) => x,
                        None => {
                            return None;
                        },
                    },
                    None => Vec::new(),
                };
                Some(
                    SatellitePageResponse {
                        items,
                    },
                )
            },
            _ => None,
        }
    }
}

/// A paginated satellite listing with its page count.
#[derive(Clone, Debug, PartialEq)]
pub struct SatellitePaginatedResponse {
    pub satellites: Vec<Satellite>,
    pub total_pages: i64,
}

/// The wire keys of this record, in the order the client writes them.
pub open spec fn satellite_paginated_response_keys() -> Seq<Seq<char>> {
    seq!["satellites"@, "totalPages"@]
}

/// The fields decode into exactly this value.
pub open spec fn satellite_paginated_response_decodes_fields(fs: Seq<(Seq<char>, Json)>, x: SatellitePaginatedResponse) -> bool {
    &&& (match obj_get(fs, "satellites"@) {
        None => x.satellites@ =~= Seq::empty(),
        Some(Json::Arr(items)) => satellites_from_arr(items@) == Some(x.satellites@),
        Some(_) => false,
    })
    &&& sget_i64_default(fs, "totalPages"@) == Some(x.total_pages)
}

/// Every field is present with a decodable shape.
pub open spec fn satellite_paginated_response_shape_ok(fs: Seq<(Seq<char>, Json)>) -> bool {
    &&& (match obj_get(fs, "satellites"@) {
        None => true,
        Some(Json::Arr(items)) => satellites_from_arr(items@) is Some,
        Some(_) => false,
    })
    &&& sget_i64_default(fs, "totalPages"@) is Some
}

/// The JSON value decodes into exactly this value.
pub open spec fn satellite_paginated_response_decodes_to(j: Json, x: SatellitePaginatedResponse) -> bool {
    match j {
        Json::Obj(fields) => satellite_paginated_response_decodes_fields(obj_view(fields@), x),
        _ => false,
    }
}

/// The JSON value has the shape this record decodes from.
pub open spec fn satellite_paginated_response_json_ok(j: Json) -> bool {
    match j {
        Json::Obj(fields) => satellite_paginated_response_shape_ok(obj_view(fields@)),
        _ => false,
    }
}

impl SatellitePaginatedResponse {
    /// Encodes to the wire object: exactly the keys of `satellite_paginated_response_keys`, in
    /// order; decoding the result yields this value back.
    pub fn to_json(&self) -> (j: Json)
        ensures
            (j matches Json::Obj(fields) && field_keys(fields@) == satellite_paginated_response_keys()),
            satellite_paginated_response_decodes_to(j, *self),
    {
        let mut fields: Vec<(String, Json)> = Vec::new();
        push_field(&mut fields, "satellites", satellites_to_json(&self.satellites));
        push_field(&mut fields, "totalPages", i64_to_json(self.total_pages));
        proof {
            reveal_strlit("satellites");
            reveal_strlit("totalPages");
            assert("satellites"@.len() == 10);
            assert("totalPages"@.len() == 10);
            assert("satellites"@[0] == 's');
            assert("totalPages"@[0] == 't');
            assert(field_keys(fields@) =~= satellite_paginated_response_keys());
            let fs = obj_view(fields@);
            assert(fs.len() == 2);
            assert(fs[0].0 == "satellites"@);
            assert(fs[1].0 == "totalPages"@);
            lemma_obj_get_found(fs, "satellites"@, 0);
            lemma_obj_get_found(fs, "totalPages"@, 1);
            crate::num::lemma_parse_dec_i64(self.total_pages);
            assert((match obj_get(fs, "satellites"@) {
        None => self.satellites@ =~= Seq::empty(),
        Some(Json::Arr(items)) => satellites_from_arr(items@) == Some(self.satellites@),
        Some(_) => false,
    }));
            assert(sget_i64_default(fs, "totalPages"@) == Some(self.total_pages));
            assert(satellite_paginated_response_decodes_fields(fs, *self));
        }
        Json::Obj(fields)
    }

    /// Decodes from a JSON value; `None` on any shape mismatch.
    pub fn from_json(j: &Json) -> (r: Option<SatellitePaginatedResponse>)
        ensures
            (match r {
                Some(x) => satellite_paginated_response_decodes_to(*j, x),
                None => !satellite_paginated_response_json_ok(*j),
            }),
    {
        match j {
            Json::Obj(fields) => {
                let satellites = match get_json(fields, "satellites") {
                    Some(v) => match satellites_from_json(v) {
                        Some(x) => x,
                        None => {
                            return None;
                        },
                    },
                    None => Vec::new(),
                };
                let total_pages = match get_i64_default(fields, "totalPages") {
                    Some(v) => v,
                    None => {
                        return None;
                    },
                };
                Some(
                    SatellitePaginatedResponse {
                        satellites, total_pages,
                    },
                )
            },
            _ => None,
        }
    }
}

/// Fleet-wide satellite counts; a count absent on the wire reads as zero.
#[derive(Clone, Debug, PartialEq)]
pub struct SatelliteOverview {
    pub active_satellite_count: i64,
    pub decayed_satellite_count: i64,
    pub antenna_count: i64,
    pub telescope_count: i64,
}

/// The wire keys of this record, in the order the client writes them.
pub open spec fn satellite_overview_keys() -> Seq<Seq<char>> {
    seq!["activeSatelliteCount"@, "decayedSatelliteCount"@, "antennaCount"@, "telescopeCount"@]
}

/// Decodes from an object's fields.
pub open spec fn satellite_overview_from_fields(fs: Seq<(Seq<char>, Json)>) -> Option<SatelliteOverview> {
    if {
        &&& sget_i64_default(fs, "activeSatelliteCount"@) is Some
        &&& sget_i64_default(fs, "decayedSatelliteCount"@) is Some
        &&& sget_i64_default(fs, "antennaCount"@) is Some
        &&& sget_i64_default(fs, "telescopeCount"@) is Some
    } {
        Some(
            SatelliteOverview {
                active_satellite_count: sget_i64_default(fs, "activeSatelliteCount"@).unwrap(),
                decayed_satellite_count: sget_i64_default(fs, "decayedSatelliteCount"@).unwrap(),
                antenna_count: sget_i64_default(fs, "antennaCount"@).unwrap(),
                telescope_count: sget_i64_default(fs, "telescopeCount"@).unwrap(),
            },
        )
    } else {
        None
    }
}

/// Decodes from a JSON value.
pub open spec fn satellite_overview_from_json(j: Json) -> Option<SatelliteOverview> {
    match j {
        Json::Obj(fields) => satellite_overview_from_fields(obj_view(fields@)),
        _ => None,
    }
}

impl SatelliteOverview {
    /// Encodes to the wire object: exactly the keys of `satellite_overview_keys`, in
    /// order; decoding the result yields this value back.
    pub fn to_json(&self) -> (j: Json)
        ensures
            (j matches Json::Obj(fields) && field_keys(fields@) == satellite_overview_keys()),
            satellite_overview_from_json(j) == Some(*self),
    {
        let mut fields: Vec<(String, Json)> = Vec::new();
        push_field(&mut fields, "activeSatelliteCount", i64_to_json(self.active_satellite_count));
        push_field(&mut fields, "decayedSatelliteCount", i64_to_json(self.decayed_satellite_count));
        push_field(&mut fields, "antennaCount", i64_to_json(self.antenna_count));
        push_field(&mut fields, "telescopeCount", i64_to_json(self.telescope_count));
        proof {
            reveal_strlit("activeSatelliteCount");
            reveal_strlit("decayedSatelliteCount");
            reveal_strlit("antennaCount");
            reveal_strlit("telescopeCount");
            assert("activeSatelliteCount"@.len() == 20);
            assert("decayedSatelliteCount"@.len() == 21);
            assert("antennaCount"@.len() == 12);
            assert("telescopeCount"@.len() == 14);
            assert(field_keys(fields@) =~= satellite_overview_keys());
            let fs = obj_view(fields@);
            assert(fs.len() == 4);
            assert(fs[0].0 == "activeSatelliteCount"@);
            assert(fs[1].0 == "decayedSatelliteCount"@);
            assert(fs[2].0 == "antennaCount"@);
            assert(fs[3].0 == "telescopeCount"@);
            lemma_obj_get_found(fs, "activeSatelliteCount"@, 0);
            lemma_obj_get_found(fs, "decayedSatelliteCount"@, 1);
            lemma_obj_get_found(fs, "antennaCount"@, 2);
            lemma_obj_get_found(fs, "telescopeCount"@, 3);
            crate::num::lemma_parse_dec_i64(self.active_satellite_count);
            crate::num::lemma_parse_dec_i64(self.decayed_satellite_count);
            crate::num::lemma_parse_dec_i64(self.antenna_count);
            crate::num::lemma_parse_dec_i64(self.telescope_count);
            assert(sget_i64_default(fs, "activeSatelliteCount"@) == Some(self.active_satellite_count));
            assert(sget_i64_default(fs, "decayedSatelliteCount"@) == Some(self.decayed_satellite_count));
            assert(sget_i64_default(fs, "antennaCount"@) == Some(self.antenna_count));
            assert(sget_i64_default(fs, "telescopeCount"@) == Some(self.telescope_count));
            assert(satellite_overview_from_fields(fs) == Some(*self));
        }
        Json::Obj(fields)
    }

    /// Decodes from a JSON value; `None` on any shape mismatch.
    pub fn from_json(j: &Json) -> (r: Option<SatelliteOverview>)
        ensures
            r == satellite_overview_from_json(*j),
    {
        match j {
            Json::Obj(fields) => {
                let active_satellite_count = match get_i64_default(fields, "activeSatelliteCount") {
                    Some(v) => v,
                    None => {
                        return None;
                    },
                };
                let decayed_satellite_count = match get_i64_default(fields, "decayedSatelliteCount") {
                    Some(v) => v,
                    None => {
                        return None;
                    },
                };
                let antenna_count = match get_i64_default(fields, "antennaCount") {
                    Some(v) => v,
                    None => {
                        return None;
                    },
                };
                let telescope_count = match get_i64_default(fields, "telescopeCount") {
                    Some(v) => v,
                    None => {
                        return None;
                    },
                };
                Some(
                    SatelliteOverview {
                        active_satellite_count, decayed_satellite_count, antenna_count,
                        telescope_count,
                    },
                )
            },
            _ => None,
        }
    }
}

/// Optional filters when listing satellites.
#[derive(Clone, Debug, PartialEq)]
pub struct SatelliteListQuery {
    pub ids: Option<Vec<String>>,
    pub search: Option<String>,
    pub country: Option<String>,
    pub object_type: Option<String>,
    pub include_decayed: Option<bool>,
    pub sort_by: Option<String>,
    pub sort_order: Option<String>,
    pub offset: Option<i64>,
    pub limit: Option<i64>,
}

/// The wire keys of this record, in the order the client writes them.
pub open spec fn satellite_list_query_keys() -> Seq<Seq<char>> {
    seq!["ids"@, "search"@, "country"@, "objectType"@, "includeDecayed"@, "sortBy"@, "sortOrder"@, "offset"@, "limit"@]
}

/// The fields decode into exactly this value.
pub open spec fn satellite_list_query_decodes_fields(fs: Seq<(Seq<char>, Json)>, x: SatelliteListQuery) -> bool {
    &&& sget_opt_str_vec(fs, "ids"@) == Some(opt_vec_view(x.ids))
    &&& sget_opt_str(fs, "search"@) == Some(x.search)
    &&& sget_opt_str(fs, "country"@) == Some(x.country)
    &&& sget_opt_str(fs, "objectType"@) == Some(x.object_type)
    &&& sget_opt_bool(fs, "includeDecayed"@) == Some(x.include_decayed)
    &&& sget_opt_str(fs, "sortBy"@) == Some(x.sort_by)
    &&& sget_opt_str(fs, "sortOrder"@) == Some(x.sort_order)
    &&& sget_opt_i64(fs, "offset"@) == Some(x.offset)
    &&& sget_opt_i64(fs, "limit"@) == Some(x.limit)
}

/// Every field is present with a decodable shape.
pub open spec fn satellite_list_query_shape_ok(fs: Seq<(Seq<char>, Json)>) -> bool {
    &&& sget_opt_str_vec(fs, "ids"@) is Some
    &&& sget_opt_str(fs, "search"@) is Some
    &&& sget_opt_str(fs, "country"@) is Some
    &&& sget_opt_str(fs, "objectType"@) is Some
    &&& sget_opt_bool(fs, "includeDecayed"@) is Some
    &&& sget_opt_str(fs, "sortBy"@) is Some
    &&& sget_opt_str(fs, "sortOrder"@) is Some
    &&& sget_opt_i64(fs, "offset"@) is Some
    &&& sget_opt_i64(fs, "limit"@) is Some
}

/// The JSON value decodes into exactly this value.
pub open spec fn satellite_list_query_decodes_to(j: Json, x: SatelliteListQuery) -> bool {
    match j {
        Json::Obj(fields) => satellite_list_query_decodes_fields(obj_view(fields@), x),
        _ => false,
    }
}

/// The JSON value has the shape this record decodes from.
pub open spec fn satellite_list_query_json_ok(j: Json) -> bool {
    match j {
        Json::Obj(fields) => satellite_list_query_shape_ok(obj_view(fields@)),
        _ => false,
    }
}

impl SatelliteListQuery {
    /// Encodes to the wire object: exactly the keys of `satellite_list_query_keys`, in
    /// order; decoding the result yields this value back.
    pub fn to_json(&self) -> (j: Json)
        ensures
            (j matches Json::Obj(fields) && field_keys(fields@) == satellite_list_query_keys()),
            satellite_list_query_decodes_to(j, *self),
    {
        let mut fields: Vec<(String, Json)> = Vec::new();
        push_field(&mut fields, "ids", opt_strs_to_json(&self.ids));
        push_field(&mut fields, "search", opt_str_to_json(&self.search));
        push_field(&mut fields, "country", opt_str_to_json(&self.country));
        push_field(&mut fields, "objectType", opt_str_to_json(&self.object_type));
        push_field(&mut fields, "includeDecayed", opt_bool_to_json(&self.include_decayed));
        push_field(&mut fields, "sortBy", opt_str_to_json(&self.sort_by));
        push_field(&mut fields, "sortOrder", opt_str_to_json(&self.sort_order));
        push_field(&mut fields, "offset", opt_i64_to_json(&self.offset));
        push_field(&mut fields, "limit", opt_i64_to_json(&self.limit));
        proof {
            reveal_strlit("ids");
            reveal_strlit("search");
            reveal_strlit("country");
            reveal_strlit("objectType");
            reveal_strlit("includeDecayed");
            reveal_strlit("sortBy");
            reveal_strlit("sortOrder");
            reveal_strlit("offset");
            reveal_strlit("limit");
            assert("ids"@.len() == 3);
            assert("search"@.len() == 6);
            assert("country"@.len() == 7);
            assert("objectType"@.len() == 10);
            assert("includeDecayed"@.len() == 14);
            assert("sortBy"@.len() == 6);
            assert("sortOrder"@.len() == 9);
            assert("offset"@.len() == 6);
            assert("limit"@.len() == 5);
            assert("search"@[1] == 'e');
            assert("sortBy"@[1] == 'o');
            assert("search"@[0] == 's');
            assert("offset"@[0] == 'o');
            assert("sortBy"@[0] == 's');
            assert(field_keys(fields@) =~= satellite_list_query_keys());
            let fs = obj_view(fields@);
            assert(fs.len() == 9);
            assert(fs[0].0 == "ids"@);
            assert(fs[1].0 == "search"@);
            assert(fs[2].0 == "country"@);
            assert(fs[3].0 == "objectType"@);
            assert(fs[4].0 == "includeDecayed"@);
            assert(fs[5].0 == "sortBy"@);
            assert(fs[6].0 == "sortOrder"@);
            assert(fs[7].0 == "offset"@);
            assert(fs[8].0 == "limit"@);
            lemma_obj_get_found(fs, "ids"@, 0);
            lemma_obj_get_found(fs, "search"@, 1);
            lemma_obj_get_found(fs, "country"@, 2);
            lemma_obj_get_found(fs, "objectType"@, 3);
            lemma_obj_get_found(fs, "includeDecayed"@, 4);
            lemma_obj_get_found(fs, "sortBy"@, 5);
            lemma_obj_get_found(fs, "sortOrder"@, 6);
            lemma_obj_get_found(fs, "offset"@, 7);
            lemma_obj_get_found(fs, "limit"@, 8);
            if let Some(n) = self.offset {
                crate::num::lemma_parse_dec_i64(n);
            }
            if let Some(n) = self.limit {
                crate::num::lemma_parse_dec_i64(n);
            }
            assert(sget_opt_str_vec(fs, "ids"@) == Some(opt_vec_view(self.ids)));
            assert(sget_opt_str(fs, "search"@) == Some(self.search));
            assert(sget_opt_str(fs, "country"@) == Some(self.country));
            assert(sget_opt_str(fs, "objectType"@) == Some(self.object_type));
            assert(sget_opt_bool(fs, "includeDecayed"@) == Some(self.include_decayed));
            assert(sget_opt_str(fs, "sortBy"@) == Some(self.sort_by));
            assert(sget_opt_str(fs, "sortOrder"@) == Some(self.sort_order));
            assert(sget_opt_i64(fs, "offset"@) == Some(self.offset));
            assert(sget_opt_i64(fs, "limit"@) == Some(self.limit));
            assert(satellite_list_query_decodes_fields(fs, *self));
        }
        Json::Obj(fields)
    }

    /// Decodes from a JSON value; `None` on any shape mismatch.
    pub fn from_json(j: &Json) -> (r: Option<SatelliteListQuery>)
        ensures
            (match r {
                Some(x) => satellite_list_query_decodes_to(*j, x),
                None => !satellite_list_query_json_ok(*j),
            }),
    {
        match j {
            Json::Obj(fields) => {
                let ids = match get_opt_str_vec(fields, "ids") {
                    Some(v) => v,
                    None => {
                        return None;
                    },
                };
                let search = match get_opt_str(fields, "search") {
                    Some(v) => v,
                    None => {
                        return None;
                    },
                };
                let country = match get_opt_str(fields, "country") {
                    Some(v) => v,
                    None => {
                        return None;
                    },
                };
                let object_type = match get_opt_str(fields, "objectType") {
                    Some(v) => v,
                    None => {
                        return None;
                    },
                };
                let include_decayed = match get_opt_bool(fields, "includeDecayed") {
                    Some(v) => v,
                    None => {
                        return None;
                    },
                };
                let sort_by = match get_opt_str(fields, "sortBy") {
                    Some(v) => v,
                    None => {
                        return None;
                    },
                };
                let sort_order = match get_opt_str(fields, "sortOrder") {
                    Some(v) => v,
                    None => {
                        return None;
                    },
                };
                let offset = match get_opt_i64(fields, "offset") {
                    Some(v) => v,
                    None => {
                        return None;
                    },
                };
                let limit = match get_opt_i64(fields, "limit") {
                    Some(v) => v,
                    None => {
                        return None;
                    },
                };
                Some(
                    SatelliteListQuery {
                        ids, search, country, object_type, include_decayed, sort_by, sort_order,
                        offset, limit,
                    },
                )
            },
            _ => None,
        }
    }
}

/// How many cataloged satellites one country operates; a count absent on the wire reads as zero.
#[derive(Clone, Debug, PartialEq)]
pub struct CountryCount {
    pub country: Option<String>,
    pub name: Option<String>,
    pub code: Option<String>,
    pub count: i64,
}

/// The wire keys of this record, in the order the client writes them.
pub open spec fn country_count_keys() -> Seq<Seq<char>> {
    seq!["country"@, "name"@, "code"@, "count"@]
}

/// Decodes from an object's fields.
pub open spec fn country_count_from_fields(fs: Seq<(Seq<char>, Json)>) -> Option<CountryCount> {
    if {
        &&& sget_opt_str(fs, "country"@) is Some
        &&& sget_opt_str(fs, "name"@) is Some
        &&& sget_opt_str(fs, "code"@) is Some
        &&& sget_i64_default(fs, "count"@) is Some
    } {
        Some(
            CountryCount {
                country: sget_opt_str(fs, "country"@).unwrap(),
                name: sget_opt_str(fs, "name"@).unwrap(),
                code: sget_opt_str(fs, "code"@).unwrap(),
                count: sget_i64_default(fs, "count"@).unwrap(),
            },
        )
    } else {
        None
    }
}

/// Decodes from a JSON value.
pub open spec fn country_count_from_json(j: Json) -> Option<CountryCount> {
    match j {
        Json::Obj(fields) => country_count_from_fields(obj_view(fields@)),
        _ => None,
    }
}

impl CountryCount {
    /// Encodes to the wire object: exactly the keys of `country_count_keys`, in
    /// order; decoding the result yields this value back.
    pub fn to_json(&self) -> (j: Json)
        ensures
            (j matches Json::Obj(fields) && field_keys(fields@) == country_count_keys()),
            country_count_from_json(j) == Some(*self),
    {
        let mut fields: Vec<(String, Json)> = Vec::new();
        push_field(&mut fields, "country", opt_str_to_json(&self.country));
        push_field(&mut fields, "name", opt_str_to_json(&self.name));
        push_field(&mut fields, "code", opt_str_to_json(&self.code));
        push_field(&mut fields, "count", i64_to_json(self.count));
        proof {
            reveal_strlit("country");
            reveal_strlit("name");
            reveal_strlit("code");
            reveal_strlit("count");
            assert("country"@.len() == 7);
            assert("name"@.len() == 4);
            assert("code"@.len() == 4);
            assert("count"@.len() == 5);
            assert("name"@[0] == 'n');
            assert("code"@[0] == 'c');
            assert(field_keys(fields@) =~= country_count_keys());
            let fs = obj_view(fields@);
            assert(fs.len() == 4);
            assert(fs[0].0 == "country"@);
            assert(fs[1].0 == "name"@);
            assert(fs[2].0 == "code"@);
            assert(fs[3].0 == "count"@);
            lemma_obj_get_found(fs, "country"@, 0);
            lemma_obj_get_found(fs, "name"@, 1);
            lemma_obj_get_found(fs, "code"@, 2);
            lemma_obj_get_found(fs, "count"@, 3);
            crate::num::lemma_parse_dec_i64(self.count);
            assert(sget_opt_str(fs, "country"@) == Some(self.country));
            assert(sget_opt_str(fs, "name"@) == Some(self.name));
            assert(sget_opt_str(fs, "code"@) == Some(self.code));
            assert(sget_i64_default(fs, "count"@) == Some(self.count));
            assert(country_count_from_fields(fs) == Some(*self));
        }
        Json::Obj(fields)
    }

    /// Decodes from a JSON value; `None` on any shape mismatch.
    pub fn from_json(j: &Json) -> (r: Option<CountryCount>)
        ensures
            r == country_count_from_json(*j),
    {
        match j {
            Json::Obj(fields) => {
                let country = match get_opt_str(fields, "country") {
                    Some(v) => v,
                    None => {
                        return None;
                    },
                };
                let name = match get_opt_str(fields, "name") {
                    Some(v) => v,
                    None => {
                        return None;
                    },
                };
                let code = match get_opt_str(fields, "code") {
                    Some(v) => v,
                    None => {
                        return None;
                    },
                };
                let count = match get_i64_default(fields, "count") {
                    Some(v) => v,
                    None => {
                        return None;
                    },
                };
                Some(
                    CountryCount {
                        country, name, code, count,
                    },
                )
            },
            _ => None,
        }
    }
}

/// Decodes each element of a JSON array.
pub open spec fn country_counts_from_arr(items: Seq<Json>) -> Option<Seq<CountryCount>>
    decreases items.len(),
{
    if items.len() == 0 {
        Some(Seq::empty())
    } else {
        match country_counts_from_arr(items.drop_last()) {
            Some(init) => match country_count_from_json(items.last()) {
                Some(x) => Some(init + seq![x]),
                None => None,
            },
            None => None,
        }
    }
}

/// Decodes a JSON array of these records.
pub open spec fn country_count_vec_from_json(j: Json) -> Option<Seq<CountryCount>> {
    match j {
        Json::Arr(items) => country_counts_from_arr(items@),
        _ => None,
    }
}

proof fn lemma_country_counts_from_arr_fails(items: Seq<Json>, i: int)
    requires
        0 <= i < items.len(),
        country_count_from_json(items[i]) is None,
    ensures
        country_counts_from_arr(items) is None,
    decreases items.len(),
{
    if items.len() > 0 {
        if i < items.len() - 1 {
            assert(items.drop_last()[i] == items[i]);
            lemma_country_counts_from_arr_fails(items.drop_last(), i);
        }
    }
}

/// Decodes a JSON array of these records; `None` on any mismatch.
#[verifier::loop_isolation(false)]
pub fn country_counts_from_json(j: &Json) -> (r: Option<Vec<CountryCount>>)
    ensures
        opt_vec_view(r) == country_count_vec_from_json(*j),
{
    match j {
        Json::Arr(items) => {
            let mut out: Vec<CountryCount> = Vec::new();
            let mut i: usize = 0;
            while i < items.len()
                invariant
                    i <= items@.len(),
                    country_counts_from_arr(items@.take(i as int)) == Some(out@),
                decreases items@.len() - i,
            {
                match CountryCount::from_json(&items[i]) {
                    Some(x) => {
                        out.push(x);
                    },
                    None => {
                        proof {
                            lemma_country_counts_from_arr_fails(items@, i as int);
                        }
                        return None;
                    },
                }
                proof {
                    let t = items@.take(i + 1);
                    assert(t.drop_last() =~= items@.take(i as int));
                    assert(t.last() == items@[i as int]);
                }
                i += 1;
            }
            proof {
                assert(items@.take(items@.len() as int) =~= items@);
            }
            Some(out)
        },
        _ => None,
    }
}

/// A predicted close approach between two satellites.
#[derive(Clone, Debug, PartialEq)]
pub struct CloseApproach {
    pub satellite_id: String,
    pub satellite_name: Option<String>,
    pub other_satellite_id: String,
    pub other_satellite_name: Option<String>,
    pub epoch: String,
    pub distance_km: Decimal,
    pub relative_velocity_km_s: Option<Decimal>,
}

/// The wire keys of this record, in the order the client writes them.
pub open spec fn close_approach_keys() -> Seq<Seq<char>> {
    seq!["satelliteId"@, "satelliteName"@, "otherSatelliteId"@, "otherSatelliteName"@, "epoch"@, "distanceKm"@, "relativeVelocityKmS"@]
}

/// Decodes from an object's fields.
pub open spec fn close_approach_from_fields(fs: Seq<(Seq<char>, Json)>) -> Option<CloseApproach> {
    if {
        &&& sget_str(fs, "satelliteId"@) is Some
        &&& sget_opt_str(fs, "satelliteName"@) is Some
        &&& sget_str(fs, "otherSatelliteId"@) is Some
        &&& sget_opt_str(fs, "otherSatelliteName"@) is Some
        &&& sget_str(fs, "epoch"@) is Some
        &&& sget_dec(fs, "distanceKm"@) is Some
        &&& sget_opt_dec(fs, "relativeVelocityKmS"@) is Some
    } {
        Some(
            CloseApproach {
                satellite_id: sget_str(fs, "satelliteId"@).unwrap(),
                satellite_name: sget_opt_str(fs, "satelliteName"@).unwrap(),
                other_satellite_id: sget_str(fs, "otherSatelliteId"@).unwrap(),
                other_satellite_name: sget_opt_str(fs, "otherSatelliteName"@).unwrap(),
                epoch: sget_str(fs, "epoch"@).unwrap(),
                distance_km: sget_dec(fs, "distanceKm"@).unwrap(),
                relative_velocity_km_s: sget_opt_dec(fs, "relativeVelocityKmS"@).unwrap(),
            },
        )
    } else {
        None
    }
}

/// Decodes from a JSON value.
pub open spec fn close_approach_from_json(j: Json) -> Option<CloseApproach> {
    match j {
        Json::Obj(fields) => close_approach_from_fields(obj_view(fields@)),
        _ => None,
    }
}

impl CloseApproach {
    /// Encodes to the wire object: exactly the keys of `close_approach_keys`, in
    /// order; decoding the result yields this value back.
    pub fn to_json(&self) -> (j: Json)
        ensures
            (j matches Json::Obj(fields) && field_keys(fields@) == close_approach_keys()),
            close_approach_from_json(j) == Some(*self),
    {
        let mut fields: Vec<(String, Json)> = Vec::new();
        push_field(&mut fields, "satelliteId", Json::Str(self.satellite_id.clone()));
        push_field(&mut fields, "satelliteName", opt_str_to_json(&self.satellite_name));
        push_field(&mut fields, "otherSatelliteId", Json::Str(self.other_satellite_id.clone()));
        push_field(&mut fields, "otherSatelliteName", opt_str_to_json(&self.other_satellite_name));
        push_field(&mut fields, "epoch", Json::Str(self.epoch.clone()));
        push_field(&mut fields, "distanceKm", Json::Num(self.distance_km.text.clone()));
        push_field(&mut fields, "relativeVelocityKmS", opt_dec_to_json(&self.relative_velocity_km_s));
        proof {
            reveal_strlit("satelliteId");
            reveal_strlit("satelliteName");
            reveal_strlit("otherSatelliteId");
            reveal_strlit("otherSatelliteName");
            reveal_strlit("epoch");
            reveal_strlit("distanceKm");
            reveal_strlit("relativeVelocityKmS");
            assert("satelliteId"@.len() == 11);
            assert("satelliteName"@.len() == 13);
            assert("otherSatelliteId"@.len() == 16);
            assert("otherSatelliteName"@.len() == 18);
            assert("epoch"@.len() == 5);
            assert("distanceKm"@.len() == 10);
            assert("relativeVelocityKmS"@.len() == 19);
            assert(field_keys(fields@) =~= close_approach_keys());
            let fs = obj_view(fields@);
            assert(fs.len() == 7);
            assert(fs[0].0 == "satelliteId"@);
            assert(fs[1].0 == "satelliteName"@);
            assert(fs[2].0 == "otherSatelliteId"@);
            assert(fs[3].0 == "otherSatelliteName"@);
            assert(fs[4].0 == "epoch"@);
            assert(fs[5].0 == "distanceKm"@);
            assert(fs[6].0 == "relativeVelocityKmS"@);
            lemma_obj_get_found(fs, "satelliteId"@, 0);
            lemma_obj_get_found(fs, "satelliteName"@, 1);
            lemma_obj_get_found(fs, "otherSatelliteId"@, 2);
            lemma_obj_get_found(fs, "otherSatelliteName"@, 3);
            lemma_obj_get_found(fs, "epoch"@, 4);
            lemma_obj_get_found(fs, "distanceKm"@, 5);
            lemma_obj_get_found(fs, "relativeVelocityKmS"@, 6);
            assert(sget_str(fs, "satelliteId"@) == Some(self.satellite_id));
            assert(sget_opt_str(fs, "satelliteName"@) == Some(self.satellite_name));
            assert(sget_str(fs, "otherSatelliteId"@) == Some(self.other_satellite_id));
            assert(sget_opt_str(fs, "otherSatelliteName"@) == Some(self.other_satellite_name));
            assert(sget_str(fs, "epoch"@) == Some(self.epoch));
            assert(sget_dec(fs, "distanceKm"@) == Some(self.distance_km));
            assert(sget_opt_dec(fs, "relativeVelocityKmS"@) == Some(self.relative_velocity_km_s));
            assert(close_approach_from_fields(fs) == Some(*self));
        }
        Json::Obj(fields)
    }

    /// Decodes from a JSON value; `None` on any shape mismatch.
    pub fn from_json(j: &Json) -> (r: Option<CloseApproach>)
        ensures
            r == close_approach_from_json(*j),
    {
        match j {
            Json::Obj(fields) => {
                let satellite_id = match get_str(fields, "satelliteId") {
                    Some(v) => v,
                    None => {
                        return None;
                    },
                };
                let satellite_name = match get_opt_str(fields, "satelliteName") {
                    Some(v) => v,
                    None => {
                        return None;
                    },
                };
                let other_satellite_id = match get_str(fields, "otherSatelliteId") {
                    Some(v) => v,
                    None => {
                        return None;
                    },
                };
                let other_satellite_name = match get_opt_str(fields, "otherSatelliteName") {
                    Some(v) => v,
                    None => {
                        return None;
                    },
                };
                let epoch = match get_str(fields, "epoch") {
                    Some(v) => v,
                    None => {
                        return None;
                    },
                };
                let distance_km = match get_dec(fields, "distanceKm") {
                    Some(v) => v,
                    None => {
                        return None;
                    },
                };
                let relative_velocity_km_s = match get_opt_dec(fields, "relativeVelocityKmS") {
                    Some(v) => v,
                    None => {
                        return None;
                    },
                };
                Some(
                    CloseApproach {
                        satellite_id, satellite_name, other_satellite_id, other_satellite_name,
                        epoch, distance_km, relative_velocity_km_s,
                    },
                )
            },
            _ => None,
        }
    }
}

/// Decodes each element of a JSON array.
pub open spec fn close_approaches_from_arr(items: Seq<Json>) -> Option<Seq<CloseApproach>>
    decreases items.len(),
{
    if items.len() == 0 {
        Some(Seq::empty())
    } else {
        match close_approaches_from_arr(items.drop_last()) {
            Some(init) => match close_approach_from_json(items.last()) {
                Some(x) => Some(init + seq![x]),
                None => None,
            },
            None => None,
        }
    }
}

/// Decodes a JSON array of these records.
pub open spec fn close_approach_vec_from_json(j: Json) -> Option<Seq<CloseApproach>> {
    match j {
        Json::Arr(items) => close_approaches_from_arr(items@),
        _ => None,
    }
}

proof fn lemma_close_approaches_from_arr_fails(items: Seq<Json>, i: int)
    requires
        0 <= i < items.len(),
        close_approach_from_json(items[i]) is None,
    ensures
        close_approaches_from_arr(items) is None,
    decreases items.len(),
{
    if items.len() > 0 {
        if i < items.len() - 1 {
            assert(items.drop_last()[i] == items[i]);
            lemma_close_approaches_from_arr_fails(items.drop_last(), i);
        }
    }
}

/// Decodes a JSON array of these records; `None` on any mismatch.
#[verifier::loop_isolation(false)]
pub fn close_approaches_from_json(j: &Json) -> (r: Option<Vec<CloseApproach>>)
    ensures
        opt_vec_view(r) == close_approach_vec_from_json(*j),
{
    match j {
        Json::Arr(items) => {
            let mut out: Vec<CloseApproach> = Vec::new();
            let mut i: usize = 0;
            while i < items.len()
                invariant
                    i <= items@.len(),
                    close_approaches_from_arr(items@.take(i as int)) == Some(out@),
                decreases items@.len() - i,
            {
                match CloseApproach::from_json(&items[i]) {
                    Some(x) => {
                        out.push(x);
                    },
                    None => {
                        proof {
                            lemma_close_approaches_from_arr_fails(items@, i as int);
                        }
                        return None;
                    },
                }
                proof {
                    let t = items@.take(i + 1);
                    assert(t.drop_last() =~= items@.take(i as int));
                    assert(t.last() == items@[i as int]);
                }
                i += 1;
            }
            proof {
                assert(items@.take(items@.len() as int) =~= items@);
            }
            Some(out)
        },
        _ => None,
    }
}

/// The relative motion of one satellite with respect to another.
#[derive(Clone, Debug, PartialEq)]
pub struct RelativeState {
    pub epoch: String,
    pub range_km: Decimal,
    pub range_rate_km_s: Decimal,
    pub in_track_km: Option<Decimal>,
    pub cross_track_km: Option<Decimal>,
    pub radial_km: Option<Decimal>,
}

/// The wire keys of this record, in the order the client writes them.
pub open spec fn relative_state_keys() -> Seq<Seq<char>> {
    seq!["epoch"@, "rangeKm"@, "rangeRateKmS"@, "inTrackKm"@, "crossTrackKm"@, "radialKm"@]
}

/// Decodes from an object's fields.
pub open spec fn relative_state_from_fields(fs: Seq<(Seq<char>, Json)>) -> Option<RelativeState> {
    if {
        &&& sget_str(fs, "epoch"@) is Some
        &&& sget_dec(fs, "rangeKm"@) is Some
        &&& sget_dec(fs, "rangeRateKmS"@) is Some
        &&& sget_opt_dec(fs, "inTrackKm"@) is Some
        &&& sget_opt_dec(fs, "crossTrackKm"@) is Some
        &&& sget_opt_dec(fs, "radialKm"@) is Some
    } {
        Some(
            RelativeState {
                epoch: sget_str(fs, "epoch"@).unwrap(),
                range_km: sget_dec(fs, "rangeKm"@).unwrap(),
                range_rate_km_s: sget_dec(fs, "rangeRateKmS"@).unwrap(),
                in_track_km: sget_opt_dec(fs, "inTrackKm"@).unwrap(),
                cross_track_km: sget_opt_dec(fs, "crossTrackKm"@).unwrap(),
                radial_km: sget_opt_dec(fs, "radialKm"@).unwrap(),
            },
        )
    } else {
        None
    }
}

/// Decodes from a JSON value.
pub open spec fn relative_state_from_json(j: Json) -> Option<RelativeState> {
    match j {
        Json::Obj(fields) => relative_state_from_fields(obj_view(fields@)),
        _ => None,
    }
}

impl RelativeState {
    /// Encodes to the wire object: exactly the keys of `relative_state_keys`, in
    /// order; decoding the result yields this value back.
    pub fn to_json(&self) -> (j: Json)
        ensures
            (j matches Json::Obj(fields) && field_keys(fields@) == relative_state_keys()),
            relative_state_from_json(j) == Some(*self),
    {
        let mut fields: Vec<(String, Json)> = Vec::new();
        push_field(&mut fields, "epoch", Json::Str(self.epoch.clone()));
        push_field(&mut fields, "rangeKm", Json::Num(self.range_km.text.clone()));
        push_field(&mut fields, "rangeRateKmS", Json::Num(self.range_rate_km_s.text.clone()));
        push_field(&mut fields, "inTrackKm", opt_dec_to_json(&self.in_track_km));
        push_field(&mut fields, "crossTrackKm", opt_dec_to_json(&self.cross_track_km));
        push_field(&mut fields, "radialKm", opt_dec_to_json(&self.radial_km));
        proof {
            reveal_strlit("epoch");
            reveal_strlit("rangeKm");
            reveal_strlit("rangeRateKmS");
            reveal_strlit("inTrackKm");
            reveal_strlit("crossTrackKm");
            reveal_strlit("radialKm");
            assert("epoch"@.len() == 5);
            assert("rangeKm"@.len() == 7);
            assert("rangeRateKmS"@.len() == 12);
            assert("inTrackKm"@.len() == 9);
            assert("crossTrackKm"@.len() == 12);
            assert("radialKm"@.len() == 8);
            assert("rangeRateKmS"@[0] == 'r');
            assert("crossTrackKm"@[0] == 'c');
            assert(field_keys(fields@) =~= relative_state_keys());
            let fs = obj_view(fields@);
            assert(fs.len() == 6);
            assert(fs[0].0 == "epoch"@);
            assert(fs[1].0 == "rangeKm"@);
            assert(fs[2].0 == "rangeRateKmS"@);
            assert(fs[3].0 == "inTrackKm"@);
            assert(fs[4].0 == "crossTrackKm"@);
            assert(fs[5].0 == "radialKm"@);
            lemma_obj_get_found(fs, "epoch"@, 0);
            lemma_obj_get_found(fs, "rangeKm"@, 1);
            lemma_obj_get_found(fs, "rangeRateKmS"@, 2);
            lemma_obj_get_found(fs, "inTrackKm"@, 3);
            lemma_obj_get_found(fs, "crossTrackKm"@, 4);
            lemma_obj_get_found(fs, "radialKm"@, 5);
            assert(sget_str(fs, "epoch"@) == Some(self.epoch));
            assert(sget_dec(fs, "rangeKm"@) == Some(self.range_km));
            assert(sget_dec(fs, "rangeRateKmS"@) == Some(self.range_rate_km_s));
            assert(sget_opt_dec(fs, "inTrackKm"@) == Some(self.in_track_km));
            assert(sget_opt_dec(fs, "crossTrackKm"@) == Some(self.cross_track_km));
            assert(sget_opt_dec(fs, "radialKm"@) == Some(self.radial_km));
            assert(relative_state_from_fields(fs) == Some(*self));
        }
        Json::Obj(fields)
    }

    /// Decodes from a JSON value; `None` on any shape mismatch.
    pub fn from_json(j: &Json) -> (r: Option<RelativeState>)
        ensures
            r == relative_state_from_json(*j),
    {
        match j {
            Json::Obj(fields) => {
                let epoch = match get_str(fields, "epoch") {
                    Some(v) => v,
                    None => {
                        return None;
                    },
                };
                let range_km = match get_dec(fields, "rangeKm") {
                    Some(v) => v,
                    None => {
                        return None;
                    },
                };
                let range_rate_km_s = match get_dec(fields, "rangeRateKmS") {
                    Some(v) => v,
                    None => {
                        return None;
                    },
                };
                let in_track_km = match get_opt_dec(fields, "inTrackKm") {
                    Some(v) => v,
                    None => {
                        return None;
                    },
                };
                let cross_track_km = match get_opt_dec(fields, "crossTrackKm") {
                    Some(v) => v,
                    None => {
                        return None;
                    },
                };
                let radial_km = match get_opt_dec(fields, "radialKm") {
                    Some(v) => v,
                    None => {
                        return None;
                    },
                };
                Some(
                    RelativeState {
                        epoch, range_km, range_rate_km_s, in_track_km, cross_track_km,
                        radial_km,
                    },
                )
            },
            _ => None,
        }
    }
}

/// Decodes each element of a JSON array.
pub open spec fn relative_states_from_arr(items: Seq<Json>) -> Option<Seq<RelativeState>>
    decreases items.len(),
{
    if items.len() == 0 {
        Some(Seq::empty())
    } else {
        match relative_states_from_arr(items.drop_last()) {
            Some(init) => match relative_state_from_json(items.last()) {
                Some(x) => Some(init + seq![x]),
                None => None,
            },
            None => None,
        }
    }
}

/// Decodes a JSON array of these records.
pub open spec fn relative_state_vec_from_json(j: Json) -> Option<Seq<RelativeState>> {
    match j {
        Json::Arr(items) => relative_states_from_arr(items@),
        _ => None,
    }
}

proof fn lemma_relative_states_from_arr_fails(items: Seq<Json>, i: int)
    requires
        0 <= i < items.len(),
        relative_state_from_json(items[i]) is None,
    ensures
        relative_states_from_arr(items) is None,
    decreases items.len(),
{
    if items.len() > 0 {
        if i < items.len() - 1 {
            assert(items.drop_last()[i] == items[i]);
            lemma_relative_states_from_arr_fails(items.drop_last(), i);
        }
    }
}

/// Decodes a JSON array of these records; `None` on any mismatch.
#[verifier::loop_isolation(false)]
pub fn relative_states_from_json(j: &Json) -> (r: Option<Vec<RelativeState>>)
    ensures
        opt_vec_view(r) == relative_state_vec_from_json(*j),
{
    match j {
        Json::Arr(items) => {
            let mut out: Vec<RelativeState> = Vec::new();
            let mut i: usize = 0;
            while i < items.len()
                invariant
                    i <= items@.len(),
                    relative_states_from_arr(items@.take(i as int)) == Some(out@),
                decreases items@.len() - i,
            {
                match RelativeState::from_json(&items[i]) {
                    Some(x) => {
                        out.push(x);
                    },
                    None => {
                        proof {
                            lemma_relative_states_from_arr_fails(items@, i as int);
                        }
                        return None;
                    },
                }
                proof {
                    let t = items@.take(i + 1);
                    assert(t.drop_last() =~= items@.take(i as int));
                    assert(t.last() == items@[i as int]);
                }
                i += 1;
            }
            proof {
                assert(items@.take(items@.len() as int) =~= items@);
            }
            Some(out)
        },
        _ => None,
    }
}

/// One point of a satellite ground track.
#[derive(Clone, Debug, PartialEq)]
pub struct GroundTrackPoint {
    pub epoch: String,
    pub latitude_deg: Decimal,
    pub longitude_deg: Decimal,
    pub altitude_km: Decimal,
}

/// The wire keys of this record, in the order the client writes them.
pub open spec fn ground_track_point_keys() -> Seq<Seq<char>> {
    seq!["epoch"@, "latitudeDeg"@, "longitudeDeg"@, "altitudeKm"@]
}

/// Decodes from an object's fields.
pub open spec fn ground_track_point_from_fields(fs: Seq<(Seq<char>, Json)>) -> Option<GroundTrackPoint> {
    if {
        &&& sget_str(fs, "epoch"@) is Some
        &&& sget_dec(fs, "latitudeDeg"@) is Some
        &&& sget_dec(fs, "longitudeDeg"@) is Some
        &&& sget_dec(fs, "altitudeKm"@) is Some
    } {
        Some(
            GroundTrackPoint {
                epoch: sget_str(fs, "epoch"@).unwrap(),
                latitude_deg: sget_dec(fs, "latitudeDeg"@).unwrap(),
                longitude_deg: sget_dec(fs, "longitudeDeg"@).unwrap(),
                altitude_km: sget_dec(fs, "altitudeKm"@).unwrap(),
            },
        )
    } else {
        None
    }
}

/// Decodes from a JSON value.
pub open spec fn ground_track_point_from_json(j: Json) -> Option<GroundTrackPoint> {
    match j {
        Json::Obj(fields) => ground_track_point_from_fields(obj_view(fields@)),
        _ => None,
    }
}

impl GroundTrackPoint {
    /// Encodes to the wire object: exactly the keys of `ground_track_point_keys`, in
    /// order; decoding the result yields this value back.
    pub fn to_json(&self) -> (j: Json)
        ensures
            (j matches Json::Obj(fields) && field_keys(fields@) == ground_track_point_keys()),
            ground_track_point_from_json(j) == Some(*self),
    {
        let mut fields: Vec<(String, Json)> = Vec::new();
        push_field(&mut fields, "epoch", Json::Str(self.epoch.clone()));
        push_field(&mut fields, "latitudeDeg", Json::Num(self.latitude_deg.text.clone()));
        push_field(&mut fields, "longitudeDeg", Json::Num(self.longitude_deg.text.clone()));
        push_field(&mut fields, "altitudeKm", Json::Num(self.altitude_km.text.clone()));
        proof {
            reveal_strlit("epoch");
            reveal_strlit("latitudeDeg");
            reveal_strlit("longitudeDeg");
            reveal_strlit("altitudeKm");
            assert("epoch"@.len() == 5);
            assert("latitudeDeg"@.len() == 11);
            assert("longitudeDeg"@.len() == 12);
            assert("altitudeKm"@.len() == 10);
            assert(field_keys(fields@) =~= ground_track_point_keys());
            let fs = obj_view(fields@);
            assert(fs.len() == 4);
            assert(fs[0].0 == "epoch"@);
            assert(fs[1].0 == "latitudeDeg"@);
            assert(fs[2].0 == "longitudeDeg"@);
            assert(fs[3].0 == "altitudeKm"@);
            lemma_obj_get_found(fs, "epoch"@, 0);
            lemma_obj_get_found(fs, "latitudeDeg"@, 1);
            lemma_obj_get_found(fs, "longitudeDeg"@, 2);
            lemma_obj_get_found(fs, "altitudeKm"@, 3);
            assert(sget_str(fs, "epoch"@) == Some(self.epoch));
            assert(sget_dec(fs, "latitudeDeg"@) == Some(self.latitude_deg));
            assert(sget_dec(fs, "longitudeDeg"@) == Some(self.longitude_deg));
            assert(sget_dec(fs, "altitudeKm"@) == Some(self.altitude_km));
            assert(ground_track_point_from_fields(fs) == Some(*self));
        }
        Json::Obj(fields)
    }

    /// Decodes from a JSON value; `None` on any shape mismatch.
    pub fn from_json(j: &Json) -> (r: Option<GroundTrackPoint>)
        ensures
            r == ground_track_point_from_json(*j),
    {
        match j {
            Json::Obj(fields) => {
                let epoch = match get_str(fields, "epoch") {
                    Some(v) => v,
                    None => {
                        return None;
                    },
                };
                let latitude_deg = match get_dec(fields, "latitudeDeg") {
                    Some(v) => v,
                    None => {
                        return None;
                    },
                };
                let longitude_deg = match get_dec(fields, "longitudeDeg") {
                    Some(v) => v,
                    None => {
                        return None;
                    },
                };
                let altitude_km = match get_dec(fields, "altitudeKm") {
                    Some(v) => v,
                    None => {
                        return None;
                    },
                };
                Some(
                    GroundTrackPoint {
                        epoch, latitude_deg, longitude_deg, altitude_km,
                    },
                )
            },
            _ => None,
        }
    }
}

/// Decodes each element of a JSON array.
pub open spec fn ground_track_points_from_arr(items: Seq<Json>) -> Option<Seq<GroundTrackPoint>>
    decreases items.len(),
{
    if items.len() == 0 {
        Some(Seq::empty())
    } else {
        match ground_track_points_from_arr(items.drop_last()) {
            Some(init) => match ground_track_point_from_json(items.last()) {
                Some(x) => Some(init + seq![x]),
                None => None,
            },
            None => None,
        }
    }
}

/// Decodes a JSON array of these records.
pub open spec fn ground_track_point_vec_from_json(j: Json) -> Option<Seq<GroundTrackPoint>> {
    match j {
        Json::Arr(items) => ground_track_points_from_arr(items@),
        _ => None,
    }
}

proof fn lemma_ground_track_points_from_arr_fails(items: Seq<Json>, i: int)
    requires
        0 <= i < items.len(),
        ground_track_point_from_json(items[i]) is None,
    ensures
        ground_track_points_from_arr(items) is None,
    decreases items.len(),
{
    if items.len() > 0 {
        if i < items.len() - 1 {
            assert(items.drop_last()[i] == items[i]);
            lemma_ground_track_points_from_arr_fails(items.drop_last(), i);
        }
    }
}

/// Decodes a JSON array of these records; `None` on any mismatch.
#[verifier::loop_isolation(false)]
pub fn ground_track_points_from_json(j: &Json) -> (r: Option<Vec<GroundTrackPoint>>)
    ensures
        opt_vec_view(r) == ground_track_point_vec_from_json(*j),
{
    match j {
        Json::Arr(items) => {
            let mut out: Vec<GroundTrackPoint> = Vec::new();
            let mut i: usize = 0;
            while i < items.len()
                invariant
                    i <= items@.len(),
                    ground_track_points_from_arr(items@.take(i as int)) == Some(out@),
                decreases items@.len() - i,
            {
                match GroundTrackPoint::from_json(&items[i]) {
                    Some(x) => {
                        out.push(x);
                    },
                    None => {
                        proof {
                            lemma_ground_track_points_from_arr_fails(items@, i as int);
                        }
                        return None;
                    },
                }
                proof {
                    let t = items@.take(i + 1);
                    assert(t.drop_last() =~= items@.take(i as int));
                    assert(t.last() == items@[i as int]);
                }
                i += 1;
            }
            proof {
                assert(items@.take(items@.len() as int) =~= items@);
            }
            Some(out)
        },
        _ => None,
    }
}

/// The first and last stored observation of a satellite.
#[derive(Clone, Debug, PartialEq)]
pub struct ObservationBounds {
    pub satellite_id: String,
    pub first_observation: Option<String>,
    pub last_observation: Option<String>,
    pub observation_count: Option<i64>,
}

/// The wire keys of this record, in the order the client writes them.
pub open spec fn observation_bounds_keys() -> Seq<Seq<char>> {
    seq!["satelliteId"@, "firstObservation"@, "lastObservation"@, "observationCount"@]
}

/// Decodes from an object's fields.
pub open spec fn observation_bounds_from_fields(fs: Seq<(Seq<char>, Json)>) -> Option<ObservationBounds> {
    if {
        &&& sget_str(fs, "satelliteId"@) is Some
        &&& sget_opt_str(fs, "firstObservation"@) is Some
        &&& sget_opt_str(fs, "lastObservation"@) is Some
        &&& sget_opt_i64(fs, "observationCount"@) is Some
    } {
        Some(
            ObservationBounds {
                satellite_id: sget_str(fs, "satelliteId"@).unwrap(),
                first_observation: sget_opt_str(fs, "firstObservation"@).unwrap(),
                last_observation: sget_opt_str(fs, "lastObservation"@).unwrap(),
                observation_count: sget_opt_i64(fs, "observationCount"@).unwrap(),
            },
        )
    } else {
        None
    }
}

/// Decodes from a JSON value.
pub open spec fn observation_bounds_from_json(j: Json) -> Option<ObservationBounds> {
    match j {
        Json::Obj(fields) => observation_bounds_from_fields(obj_view(fields@)),
        _ => None,
    }
}

impl ObservationBounds {
    /// Encodes to the wire object: exactly the keys of `observation_bounds_keys`, in
    /// order; decoding the result yields this value back.
    pub fn to_json(&self) -> (j: Json)
        ensures
            (j matches Json::Obj(fields) && field_keys(fields@) == observation_bounds_keys()),
            observation_bounds_from_json(j) == Some(*self),
    {
        let mut fields: Vec<(String, Json)> = Vec::new();
        push_field(&mut fields, "satelliteId", Json::Str(self.satellite_id.clone()));
        push_field(&mut fields, "firstObservation", opt_str_to_json(&self.first_observation));
        push_field(&mut fields, "lastObservation", opt_str_to_json(&self.last_observation));
        push_field(&mut fields, "observationCount", opt_i64_to_json(&self.observation_count));
        proof {
            reveal_strlit("satelliteId");
            reveal_strlit("firstObservation");
            reveal_strlit("lastObservation");
            reveal_strlit("observationCount");
            assert("satelliteId"@.len() == 11);
            assert("firstObservation"@.len() == 16);
            assert("lastObservation"@.len() == 15);
            assert("observationCount"@.len() == 16);
            assert("firstObservation"@[0] == 'f');
            assert("observationCount"@[0] == 'o');
            assert(field_keys(fields@) =~= observation_bounds_keys());
            let fs = obj_view(fields@);
            assert(fs.len() == 4);
            assert(fs[0].0 == "satelliteId"@);
            assert(fs[1].0 == "firstObservation"@);
            assert(fs[2].0 == "lastObservation"@);
            assert(fs[3].0 == "observationCount"@);
            lemma_obj_get_found(fs, "satelliteId"@, 0);
            lemma_obj_get_found(fs, "firstObservation"@, 1);
            lemma_obj_get_found(fs, "lastObservation"@, 2);
            lemma_obj_get_found(fs, "observationCount"@, 3);
            if let Some(n) = self.observation_count {
                crate::num::lemma_parse_dec_i64(n);
            }
            assert(sget_str(fs, "satelliteId"@) == Some(self.satellite_id));
            assert(sget_opt_str(fs, "firstObservation"@) == Some(self.first_observation));
            assert(sget_opt_str(fs, "lastObservation"@) == Some(self.last_observation));
            assert(sget_opt_i64(fs, "observationCount"@) == Some(self.observation_count));
            assert(observation_bounds_from_fields(fs) == Some(*self));
        }
        Json::Obj(fields)
    }

    /// Decodes from a JSON value; `None` on any shape mismatch.
    pub fn from_json(j: &Json) -> (r: Option<ObservationBounds>)
        ensures
            r == observation_bounds_from_json(*j),
    {
        match j {
            Json::Obj(fields) => {
                let satellite_id = match get_str(fields, "satelliteId") {
                    Some(v) => v,
                    None => {
                        return None;
                    },
                };
                let first_observation = match get_opt_str(fields, "firstObservation") {
                    Some(v) => v,
                    None => {
                        return None;
                    },
                };
                let last_observation = match get_opt_str(fields, "lastObservation") {
                    Some(v) => v,
                    None => {
                        return None;
                    },
                };
                let observation_count = match get_opt_i64(fields, "observationCount") {
                    Some(v) => v,
                    None => {
                        return None;
                    },
                };
                Some(
                    ObservationBounds {
                        satellite_id, first_observation, last_observation, observation_count,
                    },
                )
            },
            _ => None,
        }
    }
}

/// One observation handed to residual computation.
#[derive(Clone, Debug, PartialEq)]
pub struct ObservationResidual {
    pub epoch: String,
    pub right_ascension_deg: Decimal,
    pub declination_deg: Decimal,
    pub sensor_latitude_deg: Decimal,
    pub sensor_longitude_deg: Decimal,
    pub sensor_altitude_km: Decimal,
}

/// The wire keys of this record, in the order the client writes them.
pub open spec fn observation_residual_keys() -> Seq<Seq<char>> {
    seq!["epoch"@, "rightAscensionDeg"@, "declinationDeg"@, "sensorLatitudeDeg"@, "sensorLongitudeDeg"@, "sensorAltitudeKm"@]
}

/// Decodes from an object's fields.
pub open spec fn observation_residual_from_fields(fs: Seq<(Seq<char>, Json)>) -> Option<ObservationResidual> {
    if {
        &&& sget_str(fs, "epoch"@) is Some
        &&& sget_dec(fs, "rightAscensionDeg"@) is Some
        &&& sget_dec(fs, "declinationDeg"@) is Some
        &&& sget_dec(fs, "sensorLatitudeDeg"@) is Some
        &&& sget_dec(fs, "sensorLongitudeDeg"@) is Some
        &&& sget_dec(fs, "sensorAltitudeKm"@) is Some
    } {
        Some(
            ObservationResidual {
                epoch: sget_str(fs, "epoch"@).unwrap(),
                right_ascension_deg: sget_dec(fs, "rightAscensionDeg"@).unwrap(),
                declination_deg: sget_dec(fs, "declinationDeg"@).unwrap(),
                sensor_latitude_deg: sget_dec(fs, "sensorLatitudeDeg"@).unwrap(),
                sensor_longitude_deg: sget_dec(fs, "sensorLongitudeDeg"@).unwrap(),
                sensor_altitude_km: sget_dec(fs, "sensorAltitudeKm"@).unwrap(),
            },
        )
    } else {
        None
    }
}

/// Decodes from a JSON value.
pub open spec fn observation_residual_from_json(j: Json) -> Option<ObservationResidual> {
    match j {
        Json::Obj(fields) => observation_residual_from_fields(obj_view(fields@)),
        _ => None,
    }
}

impl ObservationResidual {
    /// Encodes to the wire object: exactly the keys of `observation_residual_keys`, in
    /// order; decoding the result yields this value back.
    pub fn to_json(&self) -> (j: Json)
        ensures
            (j matches Json::Obj(fields) && field_keys(fields@) == observation_residual_keys()),
            observation_residual_from_json(j) == Some(*self),
    {
        let mut fields: Vec<(String, Json)> = Vec::new();
        push_field(&mut fields, "epoch", Json::Str(self.epoch.clone()));
        push_field(&mut fields, "rightAscensionDeg", Json::Num(self.right_ascension_deg.text.clone()));
        push_field(&mut fields, "declinationDeg", Json::Num(self.declination_deg.text.clone()));
        push_field(&mut fields, "sensorLatitudeDeg", Json::Num(self.sensor_latitude_deg.text.clone()));
        push_field(&mut fields, "sensorLongitudeDeg", Json::Num(self.sensor_longitude_deg.text.clone()));
        push_field(&mut fields, "sensorAltitudeKm", Json::Num(self.sensor_altitude_km.text.clone()));
        proof {
            reveal_strlit("epoch");
            reveal_strlit("rightAscensionDeg");
            reveal_strlit("declinationDeg");
            reveal_strlit("sensorLatitudeDeg");
            reveal_strlit("sensorLongitudeDeg");
            reveal_strlit("sensorAltitudeKm");
            assert("epoch"@.len() == 5);
            assert("rightAscensionDeg"@.len() == 17);
            assert("declinationDeg"@.len() == 14);
            assert("sensorLatitudeDeg"@.len() == 17);
            assert("sensorLongitudeDeg"@.len() == 18);
            assert("sensorAltitudeKm"@.len() == 16);
            assert("rightAscensionDeg"@[0] == 'r');
            assert("sensorLatitudeDeg"@[0] == 's');
            assert(field_keys(fields@) =~= observation_residual_keys());
            let fs = obj_view(fields@);
            assert(fs.len() == 6);
            assert(fs[0].0 == "epoch"@);
            assert(fs[1].0 == "rightAscensionDeg"@);
            assert(fs[2].0 == "declinationDeg"@);
            assert(fs[3].0 == "sensorLatitudeDeg"@);
            assert(fs[4].0 == "sensorLongitudeDeg"@);
            assert(fs[5].0 == "sensorAltitudeKm"@);
            lemma_obj_get_found(fs, "epoch"@, 0);
            lemma_obj_get_found(fs, "rightAscensionDeg"@, 1);
            lemma_obj_get_found(fs, "declinationDeg"@, 2);
            lemma_obj_get_found(fs, "sensorLatitudeDeg"@, 3);
            lemma_obj_get_found(fs, "sensorLongitudeDeg"@, 4);
            lemma_obj_get_found(fs, "sensorAltitudeKm"@, 5);
            assert(sget_str(fs, "epoch"@) == Some(self.epoch));
            assert(sget_dec(fs, "rightAscensionDeg"@) == Some(self.right_ascension_deg));
            assert(sget_dec(fs, "declinationDeg"@) == Some(self.declination_deg));
            assert(sget_dec(fs, "sensorLatitudeDeg"@) == Some(self.sensor_latitude_deg));
            assert(sget_dec(fs, "sensorLongitudeDeg"@) == Some(self.sensor_longitude_deg));
            assert(sget_dec(fs, "sensorAltitudeKm"@) == Some(self.sensor_altitude_km));
            assert(observation_residual_from_fields(fs) == Some(*self));
        }
        Json::Obj(fields)
    }

    /// Decodes from a JSON value; `None` on any shape mismatch.
    pub fn from_json(j: &Json) -> (r: Option<ObservationResidual>)
        ensures
            r == observation_residual_from_json(*j),
    {
        match j {
            Json::Obj(fields) => {
                let epoch = match get_str(fields, "epoch") {
                    Some(v) => v,
                    None => {
                        return None;
                    },
                };
                let right_ascension_deg = match get_dec(fields, "rightAscensionDeg") {
                    Some(v) => v,
                    None => {
                        return None;
                    },
                };
                let declination_deg = match get_dec(fields, "declinationDeg") {
                    Some(v) => v,
                    None => {
                        return None;
                    },
                };
                let sensor_latitude_deg = match get_dec(fields, "sensorLatitudeDeg") {
                    Some(v) => v,
                    None => {
                        return None;
                    },
                };
                let sensor_longitude_deg = match get_dec(fields, "sensorLongitudeDeg") {
                    Some(v) => v,
                    None => {
                        return None;
                    },
                };
                let sensor_altitude_km = match get_dec(fields, "sensorAltitudeKm") {
                    Some(v) => v,
                    None => {
                        return None;
                    },
                };
                Some(
                    ObservationResidual {
                        epoch, right_ascension_deg, declination_deg, sensor_latitude_deg,
                        sensor_longitude_deg, sensor_altitude_km,
                    },
                )
            },
            _ => None,
        }
    }
}

/// Decodes each element of a JSON array.
pub open spec fn observation_residuals_from_arr(items: Seq<Json>) -> Option<Seq<ObservationResidual>>
    decreases items.len(),
{
    if items.len() == 0 {
        Some(Seq::empty())
    } else {
        match observation_residuals_from_arr(items.drop_last()) {
            Some(init) => match observation_residual_from_json(items.last()) {
                Some(x) => Some(init + seq![x]),
                None => None,
            },
            None => None,
        }
    }
}

/// Decodes a JSON array of these records.
pub open spec fn observation_residual_vec_from_json(j: Json) -> Option<Seq<ObservationResidual>> {
    match j {
        Json::Arr(items) => observation_residuals_from_arr(items@),
        _ => None,
    }
}

proof fn lemma_observation_residuals_from_arr_fails(items: Seq<Json>, i: int)
    requires
        0 <= i < items.len(),
        observation_residual_from_json(items[i]) is None,
    ensures
        observation_residuals_from_arr(items) is None,
    decreases items.len(),
{
    if items.len() > 0 {
        if i < items.len() - 1 {
            assert(items.drop_last()[i] == items[i]);
            lemma_observation_residuals_from_arr_fails(items.drop_last(), i);
        }
    }
}

/// Decodes a JSON array of these records; `None` on any mismatch.
#[verifier::loop_isolation(false)]
pub fn observation_residuals_from_json(j: &Json) -> (r: Option<Vec<ObservationResidual>>)
    ensures
        opt_vec_view(r) == observation_residual_vec_from_json(*j),
{
    match j {
        Json::Arr(items) => {
            let mut out: Vec<ObservationResidual> = Vec::new();
            let mut i: usize = 0;
            while i < items.len()
                invariant
                    i <= items@.len(),
                    observation_residuals_from_arr(items@.take(i as int)) == Some(out@),
                decreases items@.len() - i,
            {
                match ObservationResidual::from_json(&items[i]) {
                    Some(x) => {
                        out.push(x);
                    },
                    None => {
                        proof {
                            lemma_observation_residuals_from_arr_fails(items@, i as int);
                        }
                        return None;
                    },
                }
                proof {
                    let t = items@.take(i + 1);
                    assert(t.drop_last() =~= items@.take(i as int));
                    assert(t.last() == items@[i as int]);
                }
                i += 1;
            }
            proof {
                assert(items@.take(items@.len() as int) =~= items@);
            }
            Some(out)
        },
        _ => None,
    }
}

/// Builds the JSON array of these records; decoding it yields the same
/// records back.
pub fn observation_residuals_to_json(v: &Vec<ObservationResidual>) -> (j: Json)
    ensures
        (j matches Json::Arr(items) && observation_residuals_from_arr(items@) == Some(v@) && items@.len() == v@.len()),
{
    let mut items: Vec<Json> = Vec::new();
    let mut i: usize = 0;
    while i < v.len()
        invariant
            i <= v@.len(),
            items@.len() == i,
            observation_residuals_from_arr(items@) == Some(v@.take(i as int)),
        decreases v@.len() - i,
    {
        let ghost prev = items@;
        items.push(v[i].to_json());
        proof {
            assert(items@.drop_last() =~= prev);
            assert(v@.take(i + 1) =~= v@.take(i as int) + seq![v@[i as int]]);
        }
        i += 1;
    }
    proof {
        assert(v@.take(v@.len() as int) =~= v@);
    }
    Json::Arr(items)
}

/// A request to compute residuals against a fitted orbit.
#[derive(Clone, Debug, PartialEq)]
pub struct ResidualsRequest {
    pub observations: Vec<ObservationResidual>,
}

/// The wire keys of this record, in the order the client writes them.
pub open spec fn residuals_request_keys() -> Seq<Seq<char>> {
    seq!["observations"@]
}

/// The fields decode into exactly this value.
pub open spec fn residuals_request_decodes_fields(fs: Seq<(Seq<char>, Json)>, x: ResidualsRequest) -> bool {
    &&& (match obj_get(fs, "observations"@) {
        Some(Json::Arr(items)) => observation_residuals_from_arr(items@) == Some(x.observations@),
        _ => false,
    })
}

/// Every field is present with a decodable shape.
pub open spec fn residuals_request_shape_ok(fs: Seq<(Seq<char>, Json)>) -> bool {
    &&& (match obj_get(fs, "observations"@) {
        Some(Json::Arr(items)) => observation_residuals_from_arr(items@) is Some,
        _ => false,
    })
}

/// The JSON value decodes into exactly this value.
pub open spec fn residuals_request_decodes_to(j: Json, x: ResidualsRequest) -> bool {
    match j {
        Json::Obj(fields) => residuals_request_decodes_fields(obj_view(fields@), x),
        _ => false,
    }
}

/// The JSON value has the shape this record decodes from.
pub open spec fn residuals_request_json_ok(j: Json) -> bool {
    match j {
        Json::Obj(fields) => residuals_request_shape_ok(obj_view(fields@)),
        _ => false,
    }
}

impl ResidualsRequest {
    /// Encodes to the wire object: exactly the keys of `residuals_request_keys`, in
    /// order; decoding the result yields this value back.
    pub fn to_json(&self) -> (j: Json)
        ensures
            (j matches Json::Obj(fields) && field_keys(fields@) == residuals_request_keys()),
            residuals_request_decodes_to(j, *self),
    {
        let mut fields: Vec<(String, Json)> = Vec::new();
        push_field(&mut fields, "observations", observation_residuals_to_json(&self.observations));
        proof {
            reveal_strlit("observations");
            assert("observations"@.len() == 12);
            assert(field_keys(fields@) =~= residuals_request_keys());
            let fs = obj_view(fields@);
            assert(fs.len() == 1);
            assert(fs[0].0 == "observations"@);
            lemma_obj_get_found(fs, "observations"@, 0);
            assert((match obj_get(fs, "observations"@) {
        Some(Json::Arr(items)) => observation_residuals_from_arr(items@) == Some(self.observations@),
        _ => false,
    }));
            assert(residuals_request_decodes_fields(fs, *self));
        }
        Json::Obj(fields)
    }

    /// Decodes from a JSON value; `None` on any shape mismatch.
    pub fn from_json(j: &Json) -> (r: Option<ResidualsRequest>)
        ensures
            (match r {
                Some(x) => residuals_request_decodes_to(*j, x),
                None => !residuals_request_json_ok(*j),
            }),
    {
        match j {
            Json::Obj(fields) => {
                let observations = match get_json(fields, "observations") {
                    Some(v) => match observation_residuals_from_json(v) {
                        Some(v) => v,
                        None => {
                            return None;
                        },
                    },
                    None => {
                        return None;
                    },
                };
                Some(
                    ResidualsRequest {
                        observations,
                    },
                )
            },
            _ => None,
        }
    }
}

/// The residuals of one observation against a fitted orbit.
#[derive(Clone, Debug, PartialEq)]
pub struct ResidualResult {
    pub epoch: String,
    pub right_ascension_residual_arcsec: Decimal,
    pub declination_residual_arcsec: Decimal,
    pub total_residual_arcsec: Decimal,
}

/// The wire keys of this record, in the order the client writes them.
pub open spec fn residual_result_keys() -> Seq<Seq<char>> {
    seq!["epoch"@, "rightAscensionResidualArcsec"@, "declinationResidualArcsec"@, "totalResidualArcsec"@]
}

/// Decodes from an object's fields.
pub open spec fn residual_result_from_fields(fs: Seq<(Seq<char>, Json)>) -> Option<ResidualResult> {
    if {
        &&& sget_str(fs, "epoch"@) is Some
        &&& sget_dec(fs, "rightAscensionResidualArcsec"@) is Some
        &&& sget_dec(fs, "declinationResidualArcsec"@) is Some
        &&& sget_dec(fs, "totalResidualArcsec"@) is Some
    } {
        Some(
            ResidualResult {
                epoch: sget_str(fs, "epoch"@).unwrap(),
                right_ascension_residual_arcsec: sget_dec(fs, "rightAscensionResidualArcsec"@).unwrap(),
                declination_residual_arcsec: sget_dec(fs, "declinationResidualArcsec"@).unwrap(),
                total_residual_arcsec: sget_dec(fs, "totalResidualArcsec"@).unwrap(),
            },
        )
    } else {
        None
    }
}

/// Decodes from a JSON value.
pub open spec fn residual_result_from_json(j: Json) -> Option<ResidualResult> {
    match j {
        Json::Obj(fields) => residual_result_from_fields(obj_view(fields@)),
        _ => None,
    }
}

impl ResidualResult {
    /// Encodes to the wire object: exactly the keys of `residual_result_keys`, in
    /// order; decoding the result yields this value back.
    pub fn to_json(&self) -> (j: Json)
        ensures
            (j matches Json::Obj(fields) && field_keys(fields@) == residual_result_keys()),
            residual_result_from_json(j) == Some(*self),
    {
        let mut fields: Vec<(String, Json)> = Vec::new();
        push_field(&mut fields, "epoch", Json::Str(self.epoch.clone()));
        push_field(&mut fields, "rightAscensionResidualArcsec", Json::Num(self.right_ascension_residual_arcsec.text.clone()));
        push_field(&mut fields, "declinationResidualArcsec", Json::Num(self.declination_residual_arcsec.text.clone()));
        push_field(&mut fields, "totalResidualArcsec", Json::Num(self.total_residual_arcsec.text.clone()));
        proof {
            reveal_strlit("epoch");
            reveal_strlit("rightAscensionResidualArcsec");
            reveal_strlit("declinationResidualArcsec");
            reveal_strlit("totalResidualArcsec");
            assert("epoch"@.len() == 5);
            assert("rightAscensionResidualArcsec"@.len() == 28);
            assert("declinationResidualArcsec"@.len() == 25);
            assert("totalResidualArcsec"@.len() == 19);
            assert(field_keys(fields@) =~= residual_result_keys());
            let fs = obj_view(fields@);
            assert(fs.len() == 4);
            assert(fs[0].0 == "epoch"@);
            assert(fs[1].0 == "rightAscensionResidualArcsec"@);
            assert(fs[2].0 == "declinationResidualArcsec"@);
            assert(fs[3].0 == "totalResidualArcsec"@);
            lemma_obj_get_found(fs, "epoch"@, 0);
            lemma_obj_get_found(fs, "rightAscensionResidualArcsec"@, 1);
            lemma_obj_get_found(fs, "declinationResidualArcsec"@, 2);
            lemma_obj_get_found(fs, "totalResidualArcsec"@, 3);
            assert(sget_str(fs, "epoch"@) == Some(self.epoch));
            assert(sget_dec(fs, "rightAscensionResidualArcsec"@) == Some(self.right_ascension_residual_arcsec));
            assert(sget_dec(fs, "declinationResidualArcsec"@) == Some(self.declination_residual_arcsec));
            assert(sget_dec(fs, "totalResidualArcsec"@) == Some(self.total_residual_arcsec));
            assert(residual_result_from_fields(fs) == Some(*self));
        }
        Json::Obj(fields)
    }

    /// Decodes from a JSON value; `None` on any shape mismatch.
    pub fn from_json(j: &Json) -> (r: Option<ResidualResult>)
        ensures
            r == residual_result_from_json(*j),
    {
        match j {
            Json::Obj(fields) => {
                let epoch = match get_str(fields, "epoch") {
                    Some(v) => v,
                    None => {
                        return None;
                    },
                };
                let right_ascension_residual_arcsec = match get_dec(fields, "rightAscensionResidualArcsec") {
                    Some(v) => v,
                    None => {
                        return None;
                    },
                };
                let declination_residual_arcsec = match get_dec(fields, "declinationResidualArcsec") {
                    Some(v) => v,
                    None => {
                        return None;
                    },
                };
                let total_residual_arcsec = match get_dec(fields, "totalResidualArcsec") {
                    Some(v) => v,
                    None => {
                        return None;
                    },
                };
                Some(
                    ResidualResult {
                        epoch, right_ascension_residual_arcsec, declination_residual_arcsec,
                        total_residual_arcsec,
                    },
                )
            },
            _ => None,
        }
    }
}

/// Decodes each element of a JSON array.
pub open spec fn residual_results_from_arr(items: Seq<Json>) -> Option<Seq<ResidualResult>>
    decreases items.len(),
{
    if items.len() == 0 {
        Some(Seq::empty())
    } else {
        match residual_results_from_arr(items.drop_last()) {
            Some(init) => match residual_result_from_json(items.last()) {
                Some(x) => Some(init + seq![x]),
                None => None,
            },
            None => None,
        }
    }
}

/// Decodes a JSON array of these records.
pub open spec fn residual_result_vec_from_json(j: Json) -> Option<Seq<ResidualResult>> {
    match j {
        Json::Arr(items) => residual_results_from_arr(items@),
        _ => None,
    }
}

proof fn lemma_residual_results_from_arr_fails(items: Seq<Json>, i: int)
    requires
        0 <= i < items.len(),
        residual_result_from_json(items[i]) is None,
    ensures
        residual_results_from_arr(items) is None,
    decreases items.len(),
{
    if items.len() > 0 {
        if i < items.len() - 1 {
            assert(items.drop_last()[i] == items[i]);
            lemma_residual_results_from_arr_fails(items.drop_last(), i);
        }
    }
}

/// Decodes a JSON array of these records; `None` on any mismatch.
#[verifier::loop_isolation(false)]
pub fn residual_results_from_json(j: &Json) -> (r: Option<Vec<ResidualResult>>)
    ensures
        opt_vec_view(r) == residual_result_vec_from_json(*j),
{
    match j {
        Json::Arr(items) => {
            let mut out: Vec<ResidualResult> = Vec::new();
            let mut i: usize = 0;
            while i < items.len()
                invariant
                    i <= items@.len(),
                    residual_results_from_arr(items@.take(i as int)) == Some(out@),
                decreases items@.len() - i,
            {
                match ResidualResult::from_json(&items[i]) {
                    Some(x) => {
                        out.push(x);
                    },
                    None => {
                        proof {
                            lemma_residual_results_from_arr_fails(items@, i as int);
                        }
                        return None;
                    },
                }
                proof {
                    let t = items@.take(i + 1);
                    assert(t.drop_last() =~= items@.take(i as int));
                    assert(t.last() == items@[i as int]);
                }
                i += 1;
            }
            proof {
                assert(items@.take(items@.len() as int) =~= items@);
            }
            Some(out)
        },
        _ => None,
    }
}

/// Classical orbital elements at an epoch.
#[derive(Clone, Debug, PartialEq)]
pub struct OrbitalElements {
    pub epoch: String,
    pub semi_major_axis_km: Decimal,
    pub eccentricity: Decimal,
    pub inclination_deg: Decimal,
    pub raan_deg: Decimal,
    pub argument_of_perigee_deg: Decimal,
    pub mean_anomaly_deg: Decimal,
    pub period_minutes: Option<Decimal>,
    pub apogee_km: Option<Decimal>,
    pub perigee_km: Option<Decimal>,
}

/// The wire keys of this record, in the order the client writes them.
pub open spec fn orbital_elements_keys() -> Seq<Seq<char>> {
    seq!["epoch"@, "semiMajorAxisKm"@, "eccentricity"@, "inclinationDeg"@, "raanDeg"@, "argumentOfPerigeeDeg"@, "meanAnomalyDeg"@, "periodMinutes"@, "apogeeKm"@, "perigeeKm"@]
}

/// Decodes from an object's fields.
pub open spec fn orbital_elements_from_fields(fs: Seq<(Seq<char>, Json)>) -> Option<OrbitalElements> {
    if {
        &&& sget_str(fs, "epoch"@) is Some
        &&& sget_dec(fs, "semiMajorAxisKm"@) is Some
        &&& sget_dec(fs, "eccentricity"@) is Some
        &&& sget_dec(fs, "inclinationDeg"@) is Some
        &&& sget_dec(fs, "raanDeg"@) is Some
        &&& sget_dec(fs, "argumentOfPerigeeDeg"@) is Some
        &&& sget_dec(fs, "meanAnomalyDeg"@) is Some
        &&& sget_opt_dec(fs, "periodMinutes"@) is Some
        &&& sget_opt_dec(fs, "apogeeKm"@) is Some
        &&& sget_opt_dec(fs, "perigeeKm"@) is Some
    } {
        Some(
            OrbitalElements {
                epoch: sget_str(fs, "epoch"@).unwrap(),
                semi_major_axis_km: sget_dec(fs, "semiMajorAxisKm"@).unwrap(),
                eccentricity: sget_dec(fs, "eccentricity"@).unwrap(),
                inclination_deg: sget_dec(fs, "inclinationDeg"@).unwrap(),
                raan_deg: sget_dec(fs, "raanDeg"@).unwrap(),
                argument_of_perigee_deg: sget_dec(fs, "argumentOfPerigeeDeg"@).unwrap(),
                mean_anomaly_deg: sget_dec(fs, "meanAnomalyDeg"@).unwrap(),
                period_minutes: sget_opt_dec(fs, "periodMinutes"@).unwrap(),
                apogee_km: sget_opt_dec(fs, "apogeeKm"@).unwrap(),
                perigee_km: sget_opt_dec(fs, "perigeeKm"@).unwrap(),
            },
        )
    } else {
        None
    }
}

/// Decodes from a JSON value.
pub open spec fn orbital_elements_from_json(j: Json) -> Option<OrbitalElements> {
    match j {
        Json::Obj(fields) => orbital_elements_from_fields(obj_view(fields@)),
        _ => None,
    }
}

impl OrbitalElements {
    /// Encodes to the wire object: exactly the keys of `orbital_elements_keys`, in
    /// order; decoding the result yields this value back.
    pub fn to_json(&self) -> (j: Json)
        ensures
            (j matches Json::Obj(fields) && field_keys(fields@) == orbital_elements_keys()),
            orbital_elements_from_json(j) == Some(*self),
    {
        let mut fields: Vec<(String, Json)> = Vec::new();
        push_field(&mut fields, "epoch", Json::Str(self.epoch.clone()));
        push_field(&mut fields, "semiMajorAxisKm", Json::Num(self.semi_major_axis_km.text.clone()));
        push_field(&mut fields, "eccentricity", Json::Num(self.eccentricity.text.clone()));
        push_field(&mut fields, "inclinationDeg", Json::Num(self.inclination_deg.text.clone()));
        push_field(&mut fields, "raanDeg", Json::Num(self.raan_deg.text.clone()));
        push_field(&mut fields, "argumentOfPerigeeDeg", Json::Num(self.argument_of_perigee_deg.text.clone()));
        push_field(&mut fields, "meanAnomalyDeg", Json::Num(self.mean_anomaly_deg.text.clone()));
        push_field(&mut fields, "periodMinutes", opt_dec_to_json(&self.period_minutes));
        push_field(&mut fields, "apogeeKm", opt_dec_to_json(&self.apogee_km));
        push_field(&mut fields, "perigeeKm", opt_dec_to_json(&self.perigee_km));
        proof {
            reveal_strlit("epoch");
            reveal_strlit("semiMajorAxisKm");
            reveal_strlit("eccentricity");
            reveal_strlit("inclinationDeg");
            reveal_strlit("raanDeg");
            reveal_strlit("argumentOfPerigeeDeg");
            reveal_strlit("meanAnomalyDeg");
            reveal_strlit("periodMinutes");
            reveal_strlit("apogeeKm");
            reveal_strlit("perigeeKm");
            assert("epoch"@.len() == 5);
            assert("semiMajorAxisKm"@.len() == 15);
            assert("eccentricity"@.len() == 12);
            assert("inclinationDeg"@.len() == 14);
            assert("raanDeg"@.len() == 7);
            assert("argumentOfPerigeeDeg"@.len() == 20);
            assert("meanAnomalyDeg"@.len() == 14);
            assert("periodMinutes"@.len() == 13);
            assert("apogeeKm"@.len() == 8);
            assert("perigeeKm"@.len() == 9);
            assert("inclinationDeg"@[0] == 'i');
            assert("meanAnomalyDeg"@[0] == 'm');
            assert(field_keys(fields@) =~= orbital_elements_keys());
            let fs = obj_view(fields@);
            assert(fs.len() == 10);
            assert(fs[0].0 == "epoch"@);
            assert(fs[1].0 == "semiMajorAxisKm"@);
            assert(fs[2].0 == "eccentricity"@);
            assert(fs[3].0 == "inclinationDeg"@);
            assert(fs[4].0 == "raanDeg"@);
            assert(fs[5].0 == "argumentOfPerigeeDeg"@);
            assert(fs[6].0 == "meanAnomalyDeg"@);
            assert(fs[7].0 == "periodMinutes"@);
            assert(fs[8].0 == "apogeeKm"@);
            assert(fs[9].0 == "perigeeKm"@);
            lemma_obj_get_found(fs, "epoch"@, 0);
            lemma_obj_get_found(fs, "semiMajorAxisKm"@, 1);
            lemma_obj_get_found(fs, "eccentricity"@, 2);
            lemma_obj_get_found(fs, "inclinationDeg"@, 3);
            lemma_obj_get_found(fs, "raanDeg"@, 4);
            lemma_obj_get_found(fs, "argumentOfPerigeeDeg"@, 5);
            lemma_obj_get_found(fs, "meanAnomalyDeg"@, 6);
            lemma_obj_get_found(fs, "periodMinutes"@, 7);
            lemma_obj_get_found(fs, "apogeeKm"@, 8);
            lemma_obj_get_found(fs, "perigeeKm"@, 9);
            assert(sget_str(fs, "epoch"@) == Some(self.epoch));
            assert(sget_dec(fs, "semiMajorAxisKm"@) == Some(self.semi_major_axis_km));
            assert(sget_dec(fs, "eccentricity"@) == Some(self.eccentricity));
            assert(sget_dec(fs, "inclinationDeg"@) == Some(self.inclination_deg));
            assert(sget_dec(fs, "raanDeg"@) == Some(self.raan_deg));
            assert(sget_dec(fs, "argumentOfPerigeeDeg"@) == Some(self.argument_of_perigee_deg));
            assert(sget_dec(fs, "meanAnomalyDeg"@) == Some(self.mean_anomaly_deg));
            assert(sget_opt_dec(fs, "periodMinutes"@) == Some(self.period_minutes));
            assert(sget_opt_dec(fs, "apogeeKm"@) == Some(self.apogee_km));
            assert(sget_opt_dec(fs, "perigeeKm"@) == Some(self.perigee_km));
            assert(orbital_elements_from_fields(fs) == Some(*self));
        }
        Json::Obj(fields)
    }

    /// Decodes from a JSON value; `None` on any shape mismatch.
    pub fn from_json(j: &Json) -> (r: Option<OrbitalElements>)
        ensures
            r == orbital_elements_from_json(*j),
    {
        match j {
            Json::Obj(fields) => {
                let epoch = match get_str(fields, "epoch") {
                    Some(v) => v,
                    None => {
                        return None;
                    },
                };
                let semi_major_axis_km = match get_dec(fields, "semiMajorAxisKm") {
                    Some(v) => v,
                    None => {
                        return None;
                    },
                };
                let eccentricity = match get_dec(fields, "eccentricity") {
                    Some(v) => v,
                    None => {
                        return None;
                    },
                };
                let inclination_deg = match get_dec(fields, "inclinationDeg") {
                    Some(v) => v,
                    None => {
                        return None;
                    },
                };
                let raan_deg = match get_dec(fields, "raanDeg") {
                    Some(v) => v,
                    None => {
                        return None;
                    },
                };
                let argument_of_perigee_deg = match get_dec(fields, "argumentOfPerigeeDeg") {
                    Some(v) => v,
                    None => {
                        return None;
                    },
                };
                let mean_anomaly_deg = match get_dec(fields, "meanAnomalyDeg") {
                    Some(v) => v,
                    None => {
                        return None;
                    },
                };
                let period_minutes = match get_opt_dec(fields, "periodMinutes") {
                    Some(v) => v,
                    None => {
                        return None;
                    },
                };
                let apogee_km = match get_opt_dec(fields, "apogeeKm") {
                    Some(v) => v,
                    None => {
                        return None;
                    },
                };
                let perigee_km = match get_opt_dec(fields, "perigeeKm") {
                    Some(v) => v,
                    None => {
                        return None;
                    },
                };
                Some(
                    OrbitalElements {
                        epoch, semi_major_axis_km, eccentricity, inclination_deg, raan_deg,
                        argument_of_perigee_deg, mean_anomaly_deg, period_minutes, apogee_km,
                        perigee_km,
                    },
                )
            },
            _ => None,
        }
    }
}
} // verus!
