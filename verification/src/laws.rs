//! Library-wide guarantees stated as theorems, over the same spec
//! functions the codecs' own contracts use.
use vstd::prelude::*;

use crate::entities::account::UserPreferences;
use crate::entities::account::user_preferences_from_fields;
use crate::entities::alert_subscription::alert_subscription_from_fields;
use crate::entities::task::task_from_fields;
use crate::entities::telescope::telescope_from_fields;
use crate::json::Json;
use crate::json::obj_get;
use crate::json::sget_dec;
use crate::json::sget_i32;
use crate::json::sget_str;

verus! {

/// An object with no fields at all decodes to preferences with every
/// field absent: a missing optional field reads as absent, never as a
/// fabricated value.
pub proof fn lemma_user_preferences_all_absent()
    ensures
        user_preferences_from_fields(Seq::empty()) == Some(
            UserPreferences {
                default_timezone: None,
                default_units: None,
                notifications_enabled: None,
                email_notifications: None,
            },
        ),
{
}

/// A telescope object that carries its required fields but none of its
/// optional ones decodes successfully, and every optional field reads as
/// absent.
pub proof fn lemma_telescope_absent_optionals(fs: Seq<(Seq<char>, Json)>)
    requires
        sget_str(fs, "id"@) is Some,
        sget_str(fs, "name"@) is Some,
        sget_str(fs, "userId"@) is Some,
        sget_str(fs, "creationEpoch"@) is Some,
        sget_dec(fs, "angularNoise"@) is Some,
        sget_dec(fs, "fieldOfView"@) is Some,
        sget_dec(fs, "maxMagnitude"@) is Some,
        sget_dec(fs, "minElevation"@) is Some,
        sget_dec(fs, "maxSlewRate"@) is Some,
        sget_dec(fs, "homeAzimuth"@) is Some,
        sget_dec(fs, "homeElevation"@) is Some,
        crate::json::sget_bool(fs, "automatedScheduling"@) is Some,
        obj_get(fs, "groundStationId"@) is None,
        obj_get(fs, "satelliteId"@) is None,
        obj_get(fs, "lastConnectionEpoch"@) is None,
    ensures
        telescope_from_fields(fs) is Some,
        telescope_from_fields(fs).unwrap().groundstation_id is None,
        telescope_from_fields(fs).unwrap().satellite_id is None,
        telescope_from_fields(fs).unwrap().last_connected_at is None,
{
}

/// A task object that carries its required fields but none of its optional
/// ones decodes successfully, and every optional field reads as absent.
pub proof fn lemma_task_absent_optionals(fs: Seq<(Seq<char>, Json)>)
    requires
        sget_str(fs, "id"@) is Some,
        sget_str(fs, "type"@) is Some,
        sget_str(fs, "status"@) is Some,
        crate::entities::task::task_status_from_wire(sget_str(fs, "status"@).unwrap()@) is Some,
        sget_str(fs, "creationEpoch"@) is Some,
        sget_str(fs, "updateEpoch"@) is Some,
        sget_str(fs, "taskStart"@) is Some,
        sget_str(fs, "taskStop"@) is Some,
        sget_str(fs, "satelliteId"@) is Some,
        sget_str(fs, "telescopeId"@) is Some,
        sget_str(fs, "groundStationId"@) is Some,
        sget_i32(fs, "priority"@) is Some,
        obj_get(fs, "userId"@) is None,
        obj_get(fs, "username"@) is None,
        obj_get(fs, "satelliteName"@) is None,
        obj_get(fs, "telescopeName"@) is None,
        obj_get(fs, "groundStationName"@) is None,
        obj_get(fs, "scheduledStart"@) is None,
        obj_get(fs, "scheduledStop"@) is None,
        obj_get(fs, "rangeKm"@) is None,
        obj_get(fs, "rangeRateKmS"@) is None,
        obj_get(fs, "rightAscension"@) is None,
        obj_get(fs, "rightAscensionRate"@) is None,
        obj_get(fs, "declination"@) is None,
        obj_get(fs, "declinationRate"@) is None,
    ensures
        task_from_fields(fs) is Some,
        task_from_fields(fs).unwrap().user_id is None,
        task_from_fields(fs).unwrap().username is None,
        task_from_fields(fs).unwrap().satellite_name is None,
        task_from_fields(fs).unwrap().telescope_name is None,
        task_from_fields(fs).unwrap().ground_station_name is None,
        task_from_fields(fs).unwrap().scheduled_start is None,
        task_from_fields(fs).unwrap().scheduled_stop is None,
        task_from_fields(fs).unwrap().range_km is None,
        task_from_fields(fs).unwrap().range_rate_km_s is None,
        task_from_fields(fs).unwrap().right_ascension is None,
        task_from_fields(fs).unwrap().right_ascension_rate is None,
        task_from_fields(fs).unwrap().declination is None,
        task_from_fields(fs).unwrap().declination_rate is None,
{
}

/// An alert subscription whose only present field is its id decodes
/// successfully with every optional field absent.
pub proof fn lemma_alert_subscription_absent_optionals(fs: Seq<(Seq<char>, Json)>)
    requires
        sget_str(fs, "id"@) is Some,
        obj_get(fs, "userId"@) is None,
        obj_get(fs, "alertType"@) is None,
        obj_get(fs, "targetType"@) is None,
        obj_get(fs, "satelliteId"@) is None,
        obj_get(fs, "satelliteGroupId"@) is None,
        obj_get(fs, "enabled"@) is None,
        obj_get(fs, "emailEnabled"@) is None,
        obj_get(fs, "webhookUrl"@) is None,
        obj_get(fs, "thresholdValue"@) is None,
        obj_get(fs, "creationEpoch"@) is None,
        obj_get(fs, "updateEpoch"@) is None,
    ensures
        alert_subscription_from_fields(fs) is Some,
        alert_subscription_from_fields(fs).unwrap().enabled is None,
        alert_subscription_from_fields(fs).unwrap().threshold_value is None,
        alert_subscription_from_fields(fs).unwrap().webhook_url is None,
        alert_subscription_from_fields(fs).unwrap().created_at is None,
{
}

} // verus!
