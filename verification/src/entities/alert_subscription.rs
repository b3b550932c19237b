//! Alert subscriptions: standing requests to be notified of events.
use vstd::prelude::*;
use vstd::string::StringExecFns;

use crate::json::Decimal;
use crate::json::Json;
use crate::json::field_keys;
use crate::json::get_opt_bool;
use crate::json::get_opt_dec;
use crate::json::get_opt_str;
use crate::json::get_str;
use crate::json::lemma_obj_get_found;
use crate::json::obj_get;
use crate::json::obj_view;
use crate::json::opt_bool_to_json;
use crate::json::opt_dec_to_json;
use crate::json::opt_str_to_json;
use crate::json::opt_vec_view;
use crate::json::push_field;
use crate::json::sget_opt_bool;
use crate::json::sget_opt_dec;
use crate::json::sget_opt_str;
use crate::json::sget_str;

verus! {

/// The event class an alert subscription watches.
#[derive(Clone, Copy, PartialEq, Eq, Structural, Debug)]
pub enum AlertType {
    Maneuver,
    CloseApproach,
    Decay,
    Launch,
    Observation,
}

/// The exact wire casing of each value.
pub open spec fn alert_type_wire(v: AlertType) -> Seq<char> {
    match v {
        AlertType::Maneuver => "maneuver"@,
        AlertType::CloseApproach => "closeapproach"@,
        AlertType::Decay => "decay"@,
        AlertType::Launch => "launch"@,
        AlertType::Observation => "observation"@,
    }
}

/// The value a wire token names, if any.
pub open spec fn alert_type_from_wire(s: Seq<char>) -> Option<AlertType> {
    if s == "maneuver"@ {
        Some(AlertType::Maneuver)
    } else if s == "closeapproach"@ {
        Some(AlertType::CloseApproach)
    } else if s == "decay"@ {
        Some(AlertType::Decay)
    } else if s == "launch"@ {
        Some(AlertType::Launch)
    } else if s == "observation"@ {
        Some(AlertType::Observation)
    } else {
        None
    }
}

impl AlertType {
    /// The exact wire casing of this value.
    pub fn wire_name(&self) -> (r: String)
        ensures
            r@ == alert_type_wire(*self),
    {
        match self {
            AlertType::Maneuver => String::from_str("maneuver"),
            AlertType::CloseApproach => String::from_str("closeapproach"),
            AlertType::Decay => String::from_str("decay"),
            AlertType::Launch => String::from_str("launch"),
            AlertType::Observation => String::from_str("observation"),
        }
    }

    /// Parses the exact wire casing; `None` for any other text.
    pub fn from_wire(s: &str) -> (r: Option<AlertType>)
        ensures
            r == alert_type_from_wire(s@),
    {
        let t = s.to_owned();
        if t == String::from_str("maneuver") {
            Some(AlertType::Maneuver)
        } else if t == String::from_str("closeapproach") {
            Some(AlertType::CloseApproach)
        } else if t == String::from_str("decay") {
            Some(AlertType::Decay)
        } else if t == String::from_str("launch") {
            Some(AlertType::Launch)
        } else if t == String::from_str("observation") {
            Some(AlertType::Observation)
        } else {
            None
        }
    }
}

/// Encoding then decoding any value of this enumeration returns the same
/// value.
pub proof fn lemma_alert_type_roundtrip(v: AlertType)
    ensures
        alert_type_from_wire(alert_type_wire(v)) == Some(v),
{
    reveal_strlit("maneuver");
    reveal_strlit("closeapproach");
    reveal_strlit("decay");
    reveal_strlit("launch");
    reveal_strlit("observation");
    assert("maneuver"@.len() == 8);
    assert("closeapproach"@.len() == 13);
    assert("decay"@.len() == 5);
    assert("launch"@.len() == 6);
    assert("observation"@.len() == 11);
}

/// What kind of object an alert subscription targets.
#[derive(Clone, Copy, PartialEq, Eq, Structural, Debug)]
pub enum TargetType {
    Satellite,
    SatelliteGroup,
}

/// The exact wire casing of each value.
pub open spec fn target_type_wire(v: TargetType) -> Seq<char> {
    match v {
        TargetType::Satellite => "satellite"@,
        TargetType::SatelliteGroup => "satellitegroup"@,
    }
}

/// The value a wire token names, if any.
pub open spec fn target_type_from_wire(s: Seq<char>) -> Option<TargetType> {
    if s == "satellite"@ {
        Some(TargetType::Satellite)
    } else if s == "satellitegroup"@ {
        Some(TargetType::SatelliteGroup)
    } else {
        None
    }
}

impl TargetType {
    /// The exact wire casing of this value.
    pub fn wire_name(&self) -> (r: String)
        ensures
            r@ == target_type_wire(*self),
    {
        match self {
            TargetType::Satellite => String::from_str("satellite"),
            TargetType::SatelliteGroup => String::from_str("satellitegroup"),
        }
    }

    /// Parses the exact wire casing; `None` for any other text.
    pub fn from_wire(s: &str) -> (r: Option<TargetType>)
        ensures
            r == target_type_from_wire(s@),
    {
        let t = s.to_owned();
        if t == String::from_str("satellite") {
            Some(TargetType::Satellite)
        } else if t == String::from_str("satellitegroup") {
            Some(TargetType::SatelliteGroup)
        } else {
            None
        }
    }
}

/// Encoding then decoding any value of this enumeration returns the same
/// value.
pub proof fn lemma_target_type_roundtrip(v: TargetType)
    ensures
        target_type_from_wire(target_type_wire(v)) == Some(v),
{
    reveal_strlit("satellite");
    reveal_strlit("satellitegroup");
    assert("satellite"@.len() == 9);
    assert("satellitegroup"@.len() == 14);
}

/// An alert subscription as the service returns it.
#[derive(Clone, Debug, PartialEq)]
pub struct AlertSubscription {
    pub id: String,
    pub user_id: Option<String>,
    pub alert_type: Option<String>,
    pub target_type: Option<String>,
    pub satellite_id: Option<String>,
    pub satellite_group_id: Option<String>,
    pub enabled: Option<bool>,
    pub email_enabled: Option<bool>,
    pub webhook_url: Option<String>,
    pub threshold_value: Option<Decimal>,
    pub created_at: Option<String>,
    pub updated_at: Option<String>,
}

/// The wire keys of this record, in the order the client writes them.
pub open spec fn alert_subscription_keys() -> Seq<Seq<char>> {
    seq!["id"@, "userId"@, "alertType"@, "targetType"@, "satelliteId"@, "satelliteGroupId"@, "enabled"@, "emailEnabled"@, "webhookUrl"@, "thresholdValue"@, "creationEpoch"@, "updateEpoch"@]
}

/// Decodes from an object's fields.
pub open spec fn alert_subscription_from_fields(fs: Seq<(Seq<char>, Json)>) -> Option<AlertSubscription> {
    if {
        &&& sget_str(fs, "id"@) is Some
        &&& sget_opt_str(fs, "userId"@) is Some
        &&& sget_opt_str(fs, "alertType"@) is Some
        &&& sget_opt_str(fs, "targetType"@) is Some
        &&& sget_opt_str(fs, "satelliteId"@) is Some
        &&& sget_opt_str(fs, "satelliteGroupId"@) is Some
        &&& sget_opt_bool(fs, "enabled"@) is Some
        &&& sget_opt_bool(fs, "emailEnabled"@) is Some
        &&& sget_opt_str(fs, "webhookUrl"@) is Some
        &&& sget_opt_dec(fs, "thresholdValue"@) is Some
        &&& sget_opt_str(fs, "creationEpoch"@) is Some
        &&& sget_opt_str(fs, "updateEpoch"@) is Some
    } {
        Some(
            AlertSubscription {
                id: sget_str(fs, "id"@).unwrap(),
                user_id: sget_opt_str(fs, "userId"@).unwrap(),
                alert_type: sget_opt_str(fs, "alertType"@).unwrap(),
                target_type: sget_opt_str(fs, "targetType"@).unwrap(),
                satellite_id: sget_opt_str(fs, "satelliteId"@).unwrap(),
                satellite_group_id: sget_opt_str(fs, "satelliteGroupId"@).unwrap(),
                enabled: sget_opt_bool(fs, "enabled"@).unwrap(),
                email_enabled: sget_opt_bool(fs, "emailEnabled"@).unwrap(),
                webhook_url: sget_opt_str(fs, "webhookUrl"@).unwrap(),
                threshold_value: sget_opt_dec(fs, "thresholdValue"@).unwrap(),
                created_at: sget_opt_str(fs, "creationEpoch"@).unwrap(),
                updated_at: sget_opt_str(fs, "updateEpoch"@).unwrap(),
            },
        )
    } else {
        None
    }
}

/// Decodes from a JSON value.
pub open spec fn alert_subscription_from_json(j: Json) -> Option<AlertSubscription> {
    match j {
        Json::Obj(fields) => alert_subscription_from_fields(obj_view(fields@)),
        _ => None,
    }
}

impl AlertSubscription {
    /// Encodes to the wire object: exactly the keys of `alert_subscription_keys`, in
    /// order; decoding the result yields this value back.
    pub fn to_json(&self) -> (j: Json)
        ensures
            (j matches Json::Obj(fields) && field_keys(fields@) == alert_subscription_keys()),
            alert_subscription_from_json(j) == Some(*self),
    {
        let mut fields: Vec<(String, Json)> = Vec::new();
        push_field(&mut fields, "id", Json::Str(self.id.clone()));
        push_field(&mut fields, "userId", opt_str_to_json(&self.user_id));
        push_field(&mut fields, "alertType", opt_str_to_json(&self.alert_type));
        push_field(&mut fields, "targetType", opt_str_to_json(&self.target_type));
        push_field(&mut fields, "satelliteId", opt_str_to_json(&self.satellite_id));
        push_field(&mut fields, "satelliteGroupId", opt_str_to_json(&self.satellite_group_id));
        push_field(&mut fields, "enabled", opt_bool_to_json(&self.enabled));
        push_field(&mut fields, "emailEnabled", opt_bool_to_json(&self.email_enabled));
        push_field(&mut fields, "webhookUrl", opt_str_to_json(&self.webhook_url));
        push_field(&mut fields, "thresholdValue", opt_dec_to_json(&self.threshold_value));
        push_field(&mut fields, "creationEpoch", opt_str_to_json(&self.created_at));
        push_field(&mut fields, "updateEpoch", opt_str_to_json(&self.updated_at));
        proof {
            reveal_strlit("id");
            reveal_strlit("userId");
            reveal_strlit("alertType");
            reveal_strlit("targetType");
            reveal_strlit("satelliteId");
            reveal_strlit("satelliteGroupId");
            reveal_strlit("enabled");
            reveal_strlit("emailEnabled");
            reveal_strlit("webhookUrl");
            reveal_strlit("thresholdValue");
            reveal_strlit("creationEpoch");
            reveal_strlit("updateEpoch");
            assert("id"@.len() == 2);
            assert("userId"@.len() == 6);
            assert("alertType"@.len() == 9);
            assert("targetType"@.len() == 10);
            assert("satelliteId"@.len() == 11);
            assert("satelliteGroupId"@.len() == 16);
            assert("enabled"@.len() == 7);
            assert("emailEnabled"@.len() == 12);
            assert("webhookUrl"@.len() == 10);
            assert("thresholdValue"@.len() == 14);
            assert("creationEpoch"@.len() == 13);
            assert("updateEpoch"@.len() == 11);
            assert("targetType"@[0] == 't');
            assert("webhookUrl"@[0] == 'w');
            assert("satelliteId"@[0] == 's');
            assert("updateEpoch"@[0] == 'u');
            assert(field_keys(fields@) =~= alert_subscription_keys());
            let fs = obj_view(fields@);
            assert(fs.len() == 12);
            assert(fs[0].0 == "id"@);
            assert(fs[1].0 == "userId"@);
            assert(fs[2].0 == "alertType"@);
            assert(fs[3].0 == "targetType"@);
            assert(fs[4].0 == "satelliteId"@);
            assert(fs[5].0 == "satelliteGroupId"@);
            assert(fs[6].0 == "enabled"@);
            assert(fs[7].0 == "emailEnabled"@);
            assert(fs[8].0 == "webhookUrl"@);
            assert(fs[9].0 == "thresholdValue"@);
            assert(fs[10].0 == "creationEpoch"@);
            assert(fs[11].0 == "updateEpoch"@);
            lemma_obj_get_found(fs, "id"@, 0);
            lemma_obj_get_found(fs, "userId"@, 1);
            lemma_obj_get_found(fs, "alertType"@, 2);
            lemma_obj_get_found(fs, "targetType"@, 3);
            lemma_obj_get_found(fs, "satelliteId"@, 4);
            lemma_obj_get_found(fs, "satelliteGroupId"@, 5);
            lemma_obj_get_found(fs, "enabled"@, 6);
            lemma_obj_get_found(fs, "emailEnabled"@, 7);
            lemma_obj_get_found(fs, "webhookUrl"@, 8);
            lemma_obj_get_found(fs, "thresholdValue"@, 9);
            lemma_obj_get_found(fs, "creationEpoch"@, 10);
            lemma_obj_get_found(fs, "updateEpoch"@, 11);
            assert(sget_str(fs, "id"@) == Some(self.id));
            assert(sget_opt_str(fs, "userId"@) == Some(self.user_id));
            assert(sget_opt_str(fs, "alertType"@) == Some(self.alert_type));
            assert(sget_opt_str(fs, "targetType"@) == Some(self.target_type));
            assert(sget_opt_str(fs, "satelliteId"@) == Some(self.satellite_id));
            assert(sget_opt_str(fs, "satelliteGroupId"@) == Some(self.satellite_group_id));
            assert(sget_opt_bool(fs, "enabled"@) == Some(self.enabled));
            assert(sget_opt_bool(fs, "emailEnabled"@) == Some(self.email_enabled));
            assert(sget_opt_str(fs, "webhookUrl"@) == Some(self.webhook_url));
            assert(sget_opt_dec(fs, "thresholdValue"@) == Some(self.threshold_value));
            assert(sget_opt_str(fs, "creationEpoch"@) == Some(self.created_at));
            assert(sget_opt_str(fs, "updateEpoch"@) == Some(self.updated_at));
            assert(alert_subscription_from_fields(fs) == Some(*self));
        }
        Json::Obj(fields)
    }

    /// Decodes from a JSON value; `None` on any shape mismatch.
    pub fn from_json(j: &Json) -> (r: Option<AlertSubscription>)
        ensures
            r == alert_subscription_from_json(*j),
    {
        match j {
            Json::Obj(fields) => {
                let id = match get_str(fields, "id") {
                    Some(v) => v,
                    None => {
                        return None;
                    },
                };
                let user_id = match get_opt_str(fields, "userId") {
                    Some(v) => v,
                    None => {
                        return None;
                    },
                };
                let alert_type = match get_opt_str(fields, "alertType") {
                    Some(v) => v,
                    None => {
                        return None;
                    },
                };
                let target_type = match get_opt_str(fields, "targetType") {
                    Some(v) => v,
                    None => {
                        return None;
                    },
                };
                let satellite_id = match get_opt_str(fields, "satelliteId") {
                    Some(v) => v,
                    None => {
                        return None;
                    },
                };
                let satellite_group_id = match get_opt_str(fields, "satelliteGroupId") {
                    Some(v) => v,
                    None => {
                        return None;
                    },
                };
                let enabled = match get_opt_bool(fields, "enabled") {
                    Some(v) => v,
                    None => {
                        return None;
                    },
                };
                let email_enabled = match get_opt_bool(fields, "emailEnabled") {
                    Some(v) => v,
                    None => {
                        return None;
                    },
                };
                let webhook_url = match get_opt_str(fields, "webhookUrl") {
                    Some(v) => v,
                    None => {
                        return None;
                    },
                };
                let threshold_value = match get_opt_dec(fields, "thresholdValue") {
                    Some(v) => v,
                    None => {
                        return None;
                    },
                };
                let created_at = match get_opt_str(fields, "creationEpoch") {
                    Some(v) => v,
                    None => {
                        return None;
                    },
                };
                let updated_at = match get_opt_str(fields, "updateEpoch") {
                    Some(v) => v,
                    None => {
                        return None;
                    },
                };
                Some(
                    AlertSubscription {
                        id, user_id, alert_type, target_type, satellite_id, satellite_group_id,
                        enabled, email_enabled, webhook_url, threshold_value, created_at,
                        updated_at,
                    },
                )
            },
            _ => None,
        }
    }
}

/// The caller-settable fields of a new alert subscription.
#[derive(Clone, Debug, PartialEq)]
pub struct CreateAlertSubscriptionRequest {
    pub alert_type: AlertType,
    pub target_type: TargetType,
    pub satellite_id: Option<String>,
    pub satellite_group_id: Option<String>,
    pub enabled: Option<bool>,
    pub email_enabled: Option<bool>,
    pub webhook_url: Option<String>,
    pub threshold_value: Option<Decimal>,
}

/// The wire keys of this record, in the order the client writes them.
pub open spec fn create_alert_subscription_request_keys() -> Seq<Seq<char>> {
    seq!["alertType"@, "targetType"@, "satelliteId"@, "satelliteGroupId"@, "enabled"@, "emailEnabled"@, "webhookUrl"@, "thresholdValue"@]
}

/// Decodes from an object's fields.
pub open spec fn create_alert_subscription_request_from_fields(fs: Seq<(Seq<char>, Json)>) -> Option<CreateAlertSubscriptionRequest> {
    if {
        &&& sget_str(fs, "alertType"@) is Some
        &&& alert_type_from_wire(sget_str(fs, "alertType"@).unwrap()@) is Some
        &&& sget_str(fs, "targetType"@) is Some
        &&& target_type_from_wire(sget_str(fs, "targetType"@).unwrap()@) is Some
        &&& sget_opt_str(fs, "satelliteId"@) is Some
        &&& sget_opt_str(fs, "satelliteGroupId"@) is Some
        &&& sget_opt_bool(fs, "enabled"@) is Some
        &&& sget_opt_bool(fs, "emailEnabled"@) is Some
        &&& sget_opt_str(fs, "webhookUrl"@) is Some
        &&& sget_opt_dec(fs, "thresholdValue"@) is Some
    } {
        Some(
            CreateAlertSubscriptionRequest {
                alert_type: alert_type_from_wire(sget_str(fs, "alertType"@).unwrap()@).unwrap(),
                target_type: target_type_from_wire(sget_str(fs, "targetType"@).unwrap()@).unwrap(),
                satellite_id: sget_opt_str(fs, "satelliteId"@).unwrap(),
                satellite_group_id: sget_opt_str(fs, "satelliteGroupId"@).unwrap(),
                enabled: sget_opt_bool(fs, "enabled"@).unwrap(),
                email_enabled: sget_opt_bool(fs, "emailEnabled"@).unwrap(),
                webhook_url: sget_opt_str(fs, "webhookUrl"@).unwrap(),
                threshold_value: sget_opt_dec(fs, "thresholdValue"@).unwrap(),
            },
        )
    } else {
        None
    }
}

/// Decodes from a JSON value.
pub open spec fn create_alert_subscription_request_from_json(j: Json) -> Option<CreateAlertSubscriptionRequest> {
    match j {
        Json::Obj(fields) => create_alert_subscription_request_from_fields(obj_view(fields@)),
        _ => None,
    }
}

impl CreateAlertSubscriptionRequest {
    /// Encodes to the wire object: exactly the keys of `create_alert_subscription_request_keys`, in
    /// order; decoding the result yields this value back.
    pub fn to_json(&self) -> (j: Json)
        ensures
            (j matches Json::Obj(fields) && field_keys(fields@) == create_alert_subscription_request_keys()),
            create_alert_subscription_request_from_json(j) == Some(*self),
    {
        let mut fields: Vec<(String, Json)> = Vec::new();
        push_field(&mut fields, "alertType", Json::Str(self.alert_type.wire_name()));
        push_field(&mut fields, "targetType", Json::Str(self.target_type.wire_name()));
        push_field(&mut fields, "satelliteId", opt_str_to_json(&self.satellite_id));
        push_field(&mut fields, "satelliteGroupId", opt_str_to_json(&self.satellite_group_id));
        push_field(&mut fields, "enabled", opt_bool_to_json(&self.enabled));
        push_field(&mut fields, "emailEnabled", opt_bool_to_json(&self.email_enabled));
        push_field(&mut fields, "webhookUrl", opt_str_to_json(&self.webhook_url));
        push_field(&mut fields, "thresholdValue", opt_dec_to_json(&self.threshold_value));
        proof {
            reveal_strlit("alertType");
            reveal_strlit("targetType");
            reveal_strlit("satelliteId");
            reveal_strlit("satelliteGroupId");
            reveal_strlit("enabled");
            reveal_strlit("emailEnabled");
            reveal_strlit("webhookUrl");
            reveal_strlit("thresholdValue");
            assert("alertType"@.len() == 9);
            assert("targetType"@.len() == 10);
            assert("satelliteId"@.len() == 11);
            assert("satelliteGroupId"@.len() == 16);
            assert("enabled"@.len() == 7);
            assert("emailEnabled"@.len() == 12);
            assert("webhookUrl"@.len() == 10);
            assert("thresholdValue"@.len() == 14);
            assert("targetType"@[0] == 't');
            assert("webhookUrl"@[0] == 'w');
            assert(field_keys(fields@) =~= create_alert_subscription_request_keys());
            let fs = obj_view(fields@);
            assert(fs.len() == 8);
            assert(fs[0].0 == "alertType"@);
            assert(fs[1].0 == "targetType"@);
            assert(fs[2].0 == "satelliteId"@);
            assert(fs[3].0 == "satelliteGroupId"@);
            assert(fs[4].0 == "enabled"@);
            assert(fs[5].0 == "emailEnabled"@);
            assert(fs[6].0 == "webhookUrl"@);
            assert(fs[7].0 == "thresholdValue"@);
            lemma_obj_get_found(fs, "alertType"@, 0);
            lemma_obj_get_found(fs, "targetType"@, 1);
            lemma_obj_get_found(fs, "satelliteId"@, 2);
            lemma_obj_get_found(fs, "satelliteGroupId"@, 3);
            lemma_obj_get_found(fs, "enabled"@, 4);
            lemma_obj_get_found(fs, "emailEnabled"@, 5);
            lemma_obj_get_found(fs, "webhookUrl"@, 6);
            lemma_obj_get_found(fs, "thresholdValue"@, 7);
            lemma_alert_type_roundtrip(self.alert_type);
            lemma_target_type_roundtrip(self.target_type);
            assert(alert_type_from_wire(sget_str(fs, "alertType"@).unwrap()@) == Some(self.alert_type));
            assert(target_type_from_wire(sget_str(fs, "targetType"@).unwrap()@) == Some(self.target_type));
            assert(sget_opt_str(fs, "satelliteId"@) == Some(self.satellite_id));
            assert(sget_opt_str(fs, "satelliteGroupId"@) == Some(self.satellite_group_id));
            assert(sget_opt_bool(fs, "enabled"@) == Some(self.enabled));
            assert(sget_opt_bool(fs, "emailEnabled"@) == Some(self.email_enabled));
            assert(sget_opt_str(fs, "webhookUrl"@) == Some(self.webhook_url));
            assert(sget_opt_dec(fs, "thresholdValue"@) == Some(self.threshold_value));
            assert(create_alert_subscription_request_from_fields(fs) == Some(*self));
        }
        Json::Obj(fields)
    }

    /// Decodes from a JSON value; `None` on any shape mismatch.
    pub fn from_json(j: &Json) -> (r: Option<CreateAlertSubscriptionRequest>)
        ensures
            r == create_alert_subscription_request_from_json(*j),
    {
        match j {
            Json::Obj(fields) => {
                let alert_type = match get_str(fields, "alertType") {
                    Some(s) => match AlertType::from_wire(s.as_str()) {
                        Some(v) => v,
                        None => {
                            return None;
                        },
                    },
                    None => {
                        return None;
                    },
                };
                let target_type = match get_str(fields, "targetType") {
                    Some(s) => match TargetType::from_wire(s.as_str()) {
                        Some(v) => v,
                        None => {
                            return None;
                        },
                    },
                    None => {
                        return None;
                    },
                };
                let satellite_id = match get_opt_str(fields, "satelliteId") {
                    Some(v) => v,
                    None => {
                        return None;
                    },
                };
                let satellite_group_id = match get_opt_str(fields, "satelliteGroupId") {
                    Some(v) => v,
                    None => {
                        return None;
                    },
                };
                let enabled = match get_opt_bool(fields, "enabled") {
                    Some(v) => v,
                    None => {
                        return None;
                    },
                };
                let email_enabled = match get_opt_bool(fields, "emailEnabled") {
                    Some(v) => v,
                    None => {
                        return None;
                    },
                };
                let webhook_url = match get_opt_str(fields, "webhookUrl") {
                    Some(v) => v,
                    None => {
                        return None;
                    },
                };
                let threshold_value = match get_opt_dec(fields, "thresholdValue") {
                    Some(v) => v,
                    None => {
                        return None;
                    },
                };
                Some(
                    CreateAlertSubscriptionRequest {
                        alert_type, target_type, satellite_id, satellite_group_id, enabled,
                        email_enabled, webhook_url, threshold_value,
                    },
                )
            },
            _ => None,
        }
    }
}

/// The caller-settable fields of an alert-subscription update.
#[derive(Clone, Debug, PartialEq)]
pub struct UpdateAlertSubscriptionRequest {
    pub enabled: Option<bool>,
    pub email_enabled: Option<bool>,
    pub webhook_url: Option<String>,
    pub threshold_value: Option<Decimal>,
}

/// The wire keys of this record, in the order the client writes them.
pub open spec fn update_alert_subscription_request_keys() -> Seq<Seq<char>> {
    seq!["enabled"@, "emailEnabled"@, "webhookUrl"@, "thresholdValue"@]
}

/// Decodes from an object's fields.
pub open spec fn update_alert_subscription_request_from_fields(fs: Seq<(Seq<char>, Json)>) -> Option<UpdateAlertSubscriptionRequest> {
    if {
        &&& sget_opt_bool(fs, "enabled"@) is Some
        &&& sget_opt_bool(fs, "emailEnabled"@) is Some
        &&& sget_opt_str(fs, "webhookUrl"@) is Some
        &&& sget_opt_dec(fs, "thresholdValue"@) is Some
    } {
        Some(
            UpdateAlertSubscriptionRequest {
                enabled: sget_opt_bool(fs, "enabled"@).unwrap(),
                email_enabled: sget_opt_bool(fs, "emailEnabled"@).unwrap(),
                webhook_url: sget_opt_str(fs, "webhookUrl"@).unwrap(),
                threshold_value: sget_opt_dec(fs, "thresholdValue"@).unwrap(),
            },
        )
    } else {
        None
    }
}

/// Decodes from a JSON value.
pub open spec fn update_alert_subscription_request_from_json(j: Json) -> Option<UpdateAlertSubscriptionRequest> {
    match j {
        Json::Obj(fields) => update_alert_subscription_request_from_fields(obj_view(fields@)),
        _ => None,
    }
}

impl UpdateAlertSubscriptionRequest {
    /// Encodes to the wire object: exactly the keys of `update_alert_subscription_request_keys`, in
    /// order; decoding the result yields this value back.
    pub fn to_json(&self) -> (j: Json)
        ensures
            (j matches Json::Obj(fields) && field_keys(fields@) == update_alert_subscription_request_keys()),
            update_alert_subscription_request_from_json(j) == Some(*self),
    {
        let mut fields: Vec<(String, Json)> = Vec::new();
        push_field(&mut fields, "enabled", opt_bool_to_json(&self.enabled));
        push_field(&mut fields, "emailEnabled", opt_bool_to_json(&self.email_enabled));
        push_field(&mut fields, "webhookUrl", opt_str_to_json(&self.webhook_url));
        push_field(&mut fields, "thresholdValue", opt_dec_to_json(&self.threshold_value));
        proof {
            reveal_strlit("enabled");
            reveal_strlit("emailEnabled");
            reveal_strlit("webhookUrl");
            reveal_strlit("thresholdValue");
            assert("enabled"@.len() == 7);
            assert("emailEnabled"@.len() == 12);
            assert("webhookUrl"@.len() == 10);
            assert("thresholdValue"@.len() == 14);
            assert(field_keys(fields@) =~= update_alert_subscription_request_keys());
            let fs = obj_view(fields@);
            assert(fs.len() == 4);
            assert(fs[0].0 == "enabled"@);
            assert(fs[1].0 == "emailEnabled"@);
            assert(fs[2].0 == "webhookUrl"@);
            assert(fs[3].0 == "thresholdValue"@);
            lemma_obj_get_found(fs, "enabled"@, 0);
            lemma_obj_get_found(fs, "emailEnabled"@, 1);
            lemma_obj_get_found(fs, "webhookUrl"@, 2);
            lemma_obj_get_found(fs, "thresholdValue"@, 3);
            assert(sget_opt_bool(fs, "enabled"@) == Some(self.enabled));
            assert(sget_opt_bool(fs, "emailEnabled"@) == Some(self.email_enabled));
            assert(sget_opt_str(fs, "webhookUrl"@) == Some(self.webhook_url));
            assert(sget_opt_dec(fs, "thresholdValue"@) == Some(self.threshold_value));
            assert(update_alert_subscription_request_from_fields(fs) == Some(*self));
        }
        Json::Obj(fields)
    }

    /// Decodes from a JSON value; `None` on any shape mismatch.
    pub fn from_json(j: &Json) -> (r: Option<UpdateAlertSubscriptionRequest>)
        ensures
            r == update_alert_subscription_request_from_json(*j),
    {
        match j {
            Json::Obj(fields) => {
                let enabled = match get_opt_bool(fields, "enabled") {
                    Some(v) => v,
                    None => {
                        return None;
                    },
                };
                let email_enabled = match get_opt_bool(fields, "emailEnabled") {
                    Some(v) => v,
                    None => {
                        return None;
                    },
                };
                let webhook_url = match get_opt_str(fields, "webhookUrl") {
                    Some(v) => v,
                    None => {
                        return None;
                    },
                };
                let threshold_value = match get_opt_dec(fields, "thresholdValue") {
                    Some(v) => v,
                    None => {
                        return None;
                    },
                };
                Some(
                    UpdateAlertSubscriptionRequest {
                        enabled, email_enabled, webhook_url, threshold_value,
                    },
                )
            },
            _ => None,
        }
    }
}
} // verus!
