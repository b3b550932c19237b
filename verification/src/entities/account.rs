//! Accounts: the calling user, preferences, and group membership.
use vstd::prelude::*;
use vstd::string::StringExecFns;

use crate::json::Json;
use crate::json::field_keys;
use crate::json::get_opt_bool;
use crate::json::get_opt_str;
use crate::json::get_str;
use crate::json::lemma_obj_get_found;
use crate::json::obj_get;
use crate::json::obj_view;
use crate::json::opt_bool_to_json;
use crate::json::opt_str_to_json;
use crate::json::opt_vec_view;
use crate::json::push_field;
use crate::json::sget_opt_bool;
use crate::json::sget_opt_str;
use crate::json::sget_str;

verus! {

/// The account record of the calling user.
#[derive(Clone, Debug, PartialEq)]
pub struct UserAccount {
    pub id: String,
    pub email: Option<String>,
    pub username: Option<String>,
    pub display_name: Option<String>,
    pub user_group_id: Option<String>,
    pub role: Option<String>,
    pub tier: Option<String>,
    pub created_at: Option<String>,
    pub last_login_at: Option<String>,
}

/// The wire keys of this record, in the order the client writes them.
pub open spec fn user_account_keys() -> Seq<Seq<char>> {
    seq!["id"@, "email"@, "username"@, "displayName"@, "userGroupId"@, "role"@, "tier"@, "creationEpoch"@, "lastLoginEpoch"@]
}

/// Decodes from an object's fields.
pub open spec fn user_account_from_fields(fs: Seq<(Seq<char>, Json)>) -> Option<UserAccount> {
    if {
        &&& sget_str(fs, "id"@) is Some
        &&& sget_opt_str(fs, "email"@) is Some
        &&& sget_opt_str(fs, "username"@) is Some
        &&& sget_opt_str(fs, "displayName"@) is Some
        &&& sget_opt_str(fs, "userGroupId"@) is Some
        &&& sget_opt_str(fs, "role"@) is Some
        &&& sget_opt_str(fs, "tier"@) is Some
        &&& sget_opt_str(fs, "creationEpoch"@) is Some
        &&& sget_opt_str(fs, "lastLoginEpoch"@) is Some
    } {
        Some(
            UserAccount {
                id: sget_str(fs, "id"@).unwrap(),
                email: sget_opt_str(fs, "email"@).unwrap(),
                username: sget_opt_str(fs, "username"@).unwrap(),
                display_name: sget_opt_str(fs, "displayName"@).unwrap(),
                user_group_id: sget_opt_str(fs, "userGroupId"@).unwrap(),
                role: sget_opt_str(fs, "role"@).unwrap(),
                tier: sget_opt_str(fs, "tier"@).unwrap(),
                created_at: sget_opt_str(fs, "creationEpoch"@).unwrap(),
                last_login_at: sget_opt_str(fs, "lastLoginEpoch"@).unwrap(),
            },
        )
    } else {
        None
    }
}

/// Decodes from a JSON value.
pub open spec fn user_account_from_json(j: Json) -> Option<UserAccount> {
    match j {
        Json::Obj(fields) => user_account_from_fields(obj_view(fields@)),
        _ => None,
    }
}

impl UserAccount {
    /// Encodes to the wire object: exactly the keys of `user_account_keys`, in
    /// order; decoding the result yields this value back.
    pub fn to_json(&self) -> (j: Json)
        ensures
            (j matches Json::Obj(fields) && field_keys(fields@) == user_account_keys()),
            user_account_from_json(j) == Some(*self),
    {
        let mut fields: Vec<(String, Json)> = Vec::new();
        push_field(&mut fields, "id", Json::Str(self.id.clone()));
        push_field(&mut fields, "email", opt_str_to_json(&self.email));
        push_field(&mut fields, "username", opt_str_to_json(&self.username));
        push_field(&mut fields, "displayName", opt_str_to_json(&self.display_name));
        push_field(&mut fields, "userGroupId", opt_str_to_json(&self.user_group_id));
        push_field(&mut fields, "role", opt_str_to_json(&self.role));
        push_field(&mut fields, "tier", opt_str_to_json(&self.tier));
        push_field(&mut fields, "creationEpoch", opt_str_to_json(&self.created_at));
        push_field(&mut fields, "lastLoginEpoch", opt_str_to_json(&self.last_login_at));
        proof {
            reveal_strlit("id");
            reveal_strlit("email");
            reveal_strlit("username");
            reveal_strlit("displayName");
            reveal_strlit("userGroupId");
            reveal_strlit("role");
            reveal_strlit("tier");
            reveal_strlit("creationEpoch");
            reveal_strlit("lastLoginEpoch");
            assert("id"@.len() == 2);
            assert("email"@.len() == 5);
            assert("username"@.len() == 8);
            assert("displayName"@.len() == 11);
            assert("userGroupId"@.len() == 11);
            assert("role"@.len() == 4);
            assert("tier"@.len() == 4);
            assert("creationEpoch"@.len() == 13);
            assert("lastLoginEpoch"@.len() == 14);
            assert("displayName"@[0] == 'd');
            assert("userGroupId"@[0] == 'u');
            assert("role"@[0] == 'r');
            assert("tier"@[0] == 't');
            assert(field_keys(fields@) =~= user_account_keys());
            let fs = obj_view(fields@);
            assert(fs.len() == 9);
            assert(fs[0].0 == "id"@);
            assert(fs[1].0 == "email"@);
            assert(fs[2].0 == "username"@);
            assert(fs[3].0 == "displayName"@);
            assert(fs[4].0 == "userGroupId"@);
            assert(fs[5].0 == "role"@);
            assert(fs[6].0 == "tier"@);
            assert(fs[7].0 == "creationEpoch"@);
            assert(fs[8].0 == "lastLoginEpoch"@);
            lemma_obj_get_found(fs, "id"@, 0);
            lemma_obj_get_found(fs, "email"@, 1);
            lemma_obj_get_found(fs, "username"@, 2);
            lemma_obj_get_found(fs, "displayName"@, 3);
            lemma_obj_get_found(fs, "userGroupId"@, 4);
            lemma_obj_get_found(fs, "role"@, 5);
            lemma_obj_get_found(fs, "tier"@, 6);
            lemma_obj_get_found(fs, "creationEpoch"@, 7);
            lemma_obj_get_found(fs, "lastLoginEpoch"@, 8);
            assert(sget_str(fs, "id"@) == Some(self.id));
            assert(sget_opt_str(fs, "email"@) == Some(self.email));
            assert(sget_opt_str(fs, "username"@) == Some(self.username));
            assert(sget_opt_str(fs, "displayName"@) == Some(self.display_name));
            assert(sget_opt_str(fs, "userGroupId"@) == Some(self.user_group_id));
            assert(sget_opt_str(fs, "role"@) == Some(self.role));
            assert(sget_opt_str(fs, "tier"@) == Some(self.tier));
            assert(sget_opt_str(fs, "creationEpoch"@) == Some(self.created_at));
            assert(sget_opt_str(fs, "lastLoginEpoch"@) == Some(self.last_login_at));
            assert(user_account_from_fields(fs) == Some(*self));
        }
        Json::Obj(fields)
    }

    /// Decodes from a JSON value; `None` on any shape mismatch.
    pub fn from_json(j: &Json) -> (r: Option<UserAccount>)
        ensures
            r == user_account_from_json(*j),
    {
        match j {
            Json::Obj(fields) => {
                let id = match get_str(fields, "id") {
                    Some(v) => v,
                    None => {
                        return None;
                    },
                };
                let email = match get_opt_str(fields, "email") {
                    Some(v) => v,
                    None => {
                        return None;
                    },
                };
                let username = match get_opt_str(fields, "username") {
                    Some(v) => v,
                    None => {
                        return None;
                    },
                };
                let display_name = match get_opt_str(fields, "displayName") {
                    Some(v) => v,
                    None => {
                        return None;
                    },
                };
                let user_group_id = match get_opt_str(fields, "userGroupId") {
                    Some(v) => v,
                    None => {
                        return None;
                    },
                };
                let role = match get_opt_str(fields, "role") {
                    Some(v) => v,
                    None => {
                        return None;
                    },
                };
                let tier = match get_opt_str(fields, "tier") {
                    Some(v) => v,
                    None => {
                        return None;
                    },
                };
                let created_at = match get_opt_str(fields, "creationEpoch") {
                    Some(v) => v,
                    None => {
                        return None;
                    },
                };
                let last_login_at = match get_opt_str(fields, "lastLoginEpoch") {
                    Some(v) => v,
                    None => {
                        return None;
                    },
                };
                Some(
                    UserAccount {
                        id, email, username, display_name, user_group_id, role, tier,
                        created_at, last_login_at,
                    },
                )
            },
            _ => None,
        }
    }
}

/// Display and notification preferences of an account.
#[derive(Clone, Debug, PartialEq)]
pub struct UserPreferences {
    pub default_timezone: Option<String>,
    pub default_units: Option<String>,
    pub notifications_enabled: Option<bool>,
    pub email_notifications: Option<bool>,
}

/// The wire keys of this record, in the order the client writes them.
pub open spec fn user_preferences_keys() -> Seq<Seq<char>> {
    seq!["defaultTimezone"@, "defaultUnits"@, "notificationsEnabled"@, "emailNotifications"@]
}

/// Decodes from an object's fields.
pub open spec fn user_preferences_from_fields(fs: Seq<(Seq<char>, Json)>) -> Option<UserPreferences> {
    if {
        &&& sget_opt_str(fs, "defaultTimezone"@) is Some
        &&& sget_opt_str(fs, "defaultUnits"@) is Some
        &&& sget_opt_bool(fs, "notificationsEnabled"@) is Some
        &&& sget_opt_bool(fs, "emailNotifications"@) is Some
    } {
        Some(
            UserPreferences {
                default_timezone: sget_opt_str(fs, "defaultTimezone"@).unwrap(),
                default_units: sget_opt_str(fs, "defaultUnits"@).unwrap(),
                notifications_enabled: sget_opt_bool(fs, "notificationsEnabled"@).unwrap(),
                email_notifications: sget_opt_bool(fs, "emailNotifications"@).unwrap(),
            },
        )
    } else {
        None
    }
}

/// Decodes from a JSON value.
pub open spec fn user_preferences_from_json(j: Json) -> Option<UserPreferences> {
    match j {
        Json::Obj(fields) => user_preferences_from_fields(obj_view(fields@)),
        _ => None,
    }
}

impl UserPreferences {
    /// Encodes to the wire object: exactly the keys of `user_preferences_keys`, in
    /// order; decoding the result yields this value back.
    pub fn to_json(&self) -> (j: Json)
        ensures
            (j matches Json::Obj(fields) && field_keys(fields@) == user_preferences_keys()),
            user_preferences_from_json(j) == Some(*self),
    {
        let mut fields: Vec<(String, Json)> = Vec::new();
        push_field(&mut fields, "defaultTimezone", opt_str_to_json(&self.default_timezone));
        push_field(&mut fields, "defaultUnits", opt_str_to_json(&self.default_units));
        push_field(&mut fields, "notificationsEnabled", opt_bool_to_json(&self.notifications_enabled));
        push_field(&mut fields, "emailNotifications", opt_bool_to_json(&self.email_notifications));
        proof {
            reveal_strlit("defaultTimezone");
            reveal_strlit("defaultUnits");
            reveal_strlit("notificationsEnabled");
            reveal_strlit("emailNotifications");
            assert("defaultTimezone"@.len() == 15);
            assert("defaultUnits"@.len() == 12);
            assert("notificationsEnabled"@.len() == 20);
            assert("emailNotifications"@.len() == 18);
            assert(field_keys(fields@) =~= user_preferences_keys());
            let fs = obj_view(fields@);
            assert(fs.len() == 4);
            assert(fs[0].0 == "defaultTimezone"@);
            assert(fs[1].0 == "defaultUnits"@);
            assert(fs[2].0 == "notificationsEnabled"@);
            assert(fs[3].0 == "emailNotifications"@);
            lemma_obj_get_found(fs, "defaultTimezone"@, 0);
            lemma_obj_get_found(fs, "defaultUnits"@, 1);
            lemma_obj_get_found(fs, "notificationsEnabled"@, 2);
            lemma_obj_get_found(fs, "emailNotifications"@, 3);
            assert(sget_opt_str(fs, "defaultTimezone"@) == Some(self.default_timezone));
            assert(sget_opt_str(fs, "defaultUnits"@) == Some(self.default_units));
            assert(sget_opt_bool(fs, "notificationsEnabled"@) == Some(self.notifications_enabled));
            assert(sget_opt_bool(fs, "emailNotifications"@) == Some(self.email_notifications));
            assert(user_preferences_from_fields(fs) == Some(*self));
        }
        Json::Obj(fields)
    }

    /// Decodes from a JSON value; `None` on any shape mismatch.
    pub fn from_json(j: &Json) -> (r: Option<UserPreferences>)
        ensures
            r == user_preferences_from_json(*j),
    {
        match j {
            Json::Obj(fields) => {
                let default_timezone = match get_opt_str(fields, "defaultTimezone") {
                    Some(v) => v,
                    None => {
                        return None;
                    },
                };
                let default_units = match get_opt_str(fields, "defaultUnits") {
                    Some(v) => v,
                    None => {
                        return None;
                    },
                };
                let notifications_enabled = match get_opt_bool(fields, "notificationsEnabled") {
                    Some(v) => v,
                    None => {
                        return None;
                    },
                };
                let email_notifications = match get_opt_bool(fields, "emailNotifications") {
                    Some(v) => v,
                    None => {
                        return None;
                    },
                };
                Some(
                    UserPreferences {
                        default_timezone, default_units, notifications_enabled,
                        email_notifications,
                    },
                )
            },
            _ => None,
        }
    }
}

/// The caller-settable preference fields.
#[derive(Clone, Debug, PartialEq)]
pub struct UpdatePreferencesRequest {
    pub default_timezone: Option<String>,
    pub default_units: Option<String>,
    pub notifications_enabled: Option<bool>,
    pub email_notifications: Option<bool>,
}

/// The wire keys of this record, in the order the client writes them.
pub open spec fn update_preferences_request_keys() -> Seq<Seq<char>> {
    seq!["defaultTimezone"@, "defaultUnits"@, "notificationsEnabled"@, "emailNotifications"@]
}

/// Decodes from an object's fields.
pub open spec fn update_preferences_request_from_fields(fs: Seq<(Seq<char>, Json)>) -> Option<UpdatePreferencesRequest> {
    if {
        &&& sget_opt_str(fs, "defaultTimezone"@) is Some
        &&& sget_opt_str(fs, "defaultUnits"@) is Some
        &&& sget_opt_bool(fs, "notificationsEnabled"@) is Some
        &&& sget_opt_bool(fs, "emailNotifications"@) is Some
    } {
        Some(
            UpdatePreferencesRequest {
                default_timezone: sget_opt_str(fs, "defaultTimezone"@).unwrap(),
                default_units: sget_opt_str(fs, "defaultUnits"@).unwrap(),
                notifications_enabled: sget_opt_bool(fs, "notificationsEnabled"@).unwrap(),
                email_notifications: sget_opt_bool(fs, "emailNotifications"@).unwrap(),
            },
        )
    } else {
        None
    }
}

/// Decodes from a JSON value.
pub open spec fn update_preferences_request_from_json(j: Json) -> Option<UpdatePreferencesRequest> {
    match j {
        Json::Obj(fields) => update_preferences_request_from_fields(obj_view(fields@)),
        _ => None,
    }
}

impl UpdatePreferencesRequest {
    /// Encodes to the wire object: exactly the keys of `update_preferences_request_keys`, in
    /// order; decoding the result yields this value back.
    pub fn to_json(&self) -> (j: Json)
        ensures
            (j matches Json::Obj(fields) && field_keys(fields@) == update_preferences_request_keys()),
            update_preferences_request_from_json(j) == Some(*self),
    {
        let mut fields: Vec<(String, Json)> = Vec::new();
        push_field(&mut fields, "defaultTimezone", opt_str_to_json(&self.default_timezone));
        push_field(&mut fields, "defaultUnits", opt_str_to_json(&self.default_units));
        push_field(&mut fields, "notificationsEnabled", opt_bool_to_json(&self.notifications_enabled));
        push_field(&mut fields, "emailNotifications", opt_bool_to_json(&self.email_notifications));
        proof {
            reveal_strlit("defaultTimezone");
            reveal_strlit("defaultUnits");
            reveal_strlit("notificationsEnabled");
            reveal_strlit("emailNotifications");
            assert("defaultTimezone"@.len() == 15);
            assert("defaultUnits"@.len() == 12);
            assert("notificationsEnabled"@.len() == 20);
            assert("emailNotifications"@.len() == 18);
            assert(field_keys(fields@) =~= update_preferences_request_keys());
            let fs = obj_view(fields@);
            assert(fs.len() == 4);
            assert(fs[0].0 == "defaultTimezone"@);
            assert(fs[1].0 == "defaultUnits"@);
            assert(fs[2].0 == "notificationsEnabled"@);
            assert(fs[3].0 == "emailNotifications"@);
            lemma_obj_get_found(fs, "defaultTimezone"@, 0);
            lemma_obj_get_found(fs, "defaultUnits"@, 1);
            lemma_obj_get_found(fs, "notificationsEnabled"@, 2);
            lemma_obj_get_found(fs, "emailNotifications"@, 3);
            assert(sget_opt_str(fs, "defaultTimezone"@) == Some(self.default_timezone));
            assert(sget_opt_str(fs, "defaultUnits"@) == Some(self.default_units));
            assert(sget_opt_bool(fs, "notificationsEnabled"@) == Some(self.notifications_enabled));
            assert(sget_opt_bool(fs, "emailNotifications"@) == Some(self.email_notifications));
            assert(update_preferences_request_from_fields(fs) == Some(*self));
        }
        Json::Obj(fields)
    }

    /// Decodes from a JSON value; `None` on any shape mismatch.
    pub fn from_json(j: &Json) -> (r: Option<UpdatePreferencesRequest>)
        ensures
            r == update_preferences_request_from_json(*j),
    {
        match j {
            Json::Obj(fields) => {
                let default_timezone = match get_opt_str(fields, "defaultTimezone") {
                    Some(v) => v,
                    None => {
                        return None;
                    },
                };
                let default_units = match get_opt_str(fields, "defaultUnits") {
                    Some(v) => v,
                    None => {
                        return None;
                    },
                };
                let notifications_enabled = match get_opt_bool(fields, "notificationsEnabled") {
                    Some(v) => v,
                    None => {
                        return None;
                    },
                };
                let email_notifications = match get_opt_bool(fields, "emailNotifications") {
                    Some(v) => v,
                    None => {
                        return None;
                    },
                };
                Some(
                    UpdatePreferencesRequest {
                        default_timezone, default_units, notifications_enabled,
                        email_notifications,
                    },
                )
            },
            _ => None,
        }
    }
}

/// One member of the account group.
#[derive(Clone, Debug, PartialEq)]
pub struct GroupMember {
    pub id: String,
    pub email: String,
    pub username: Option<String>,
    pub display_name: Option<String>,
    pub role: Option<String>,
    pub joined_at: Option<String>,
}

/// The wire keys of this record, in the order the client writes them.
pub open spec fn group_member_keys() -> Seq<Seq<char>> {
    seq!["id"@, "email"@, "username"@, "displayName"@, "role"@, "joinedEpoch"@]
}

/// Decodes from an object's fields.
pub open spec fn group_member_from_fields(fs: Seq<(Seq<char>, Json)>) -> Option<GroupMember> {
    if {
        &&& sget_str(fs, "id"@) is Some
        &&& sget_str(fs, "email"@) is Some
        &&& sget_opt_str(fs, "username"@) is Some
        &&& sget_opt_str(fs, "displayName"@) is Some
        &&& sget_opt_str(fs, "role"@) is Some
        &&& sget_opt_str(fs, "joinedEpoch"@) is Some
    } {
        Some(
            GroupMember {
                id: sget_str(fs, "id"@).unwrap(),
                email: sget_str(fs, "email"@).unwrap(),
                username: sget_opt_str(fs, "username"@).unwrap(),
                display_name: sget_opt_str(fs, "displayName"@).unwrap(),
                role: sget_opt_str(fs, "role"@).unwrap(),
                joined_at: sget_opt_str(fs, "joinedEpoch"@).unwrap(),
            },
        )
    } else {
        None
    }
}

/// Decodes from a JSON value.
pub open spec fn group_member_from_json(j: Json) -> Option<GroupMember> {
    match j {
        Json::Obj(fields) => group_member_from_fields(obj_view(fields@)),
        _ => None,
    }
}

impl GroupMember {
    /// Encodes to the wire object: exactly the keys of `group_member_keys`, in
    /// order; decoding the result yields this value back.
    pub fn to_json(&self) -> (j: Json)
        ensures
            (j matches Json::Obj(fields) && field_keys(fields@) == group_member_keys()),
            group_member_from_json(j) == Some(*self),
    {
        let mut fields: Vec<(String, Json)> = Vec::new();
        push_field(&mut fields, "id", Json::Str(self.id.clone()));
        push_field(&mut fields, "email", Json::Str(self.email.clone()));
        push_field(&mut fields, "username", opt_str_to_json(&self.username));
        push_field(&mut fields, "displayName", opt_str_to_json(&self.display_name));
        push_field(&mut fields, "role", opt_str_to_json(&self.role));
        push_field(&mut fields, "joinedEpoch", opt_str_to_json(&self.joined_at));
        proof {
            reveal_strlit("id");
            reveal_strlit("email");
            reveal_strlit("username");
            reveal_strlit("displayName");
            reveal_strlit("role");
            reveal_strlit("joinedEpoch");
            assert("id"@.len() == 2);
            assert("email"@.len() == 5);
            assert("username"@.len() == 8);
            assert("displayName"@.len() == 11);
            assert("role"@.len() == 4);
            assert("joinedEpoch"@.len() == 11);
            assert("displayName"@[0] == 'd');
            assert("joinedEpoch"@[0] == 'j');
            assert(field_keys(fields@) =~= group_member_keys());
            let fs = obj_view(fields@);
            assert(fs.len() == 6);
            assert(fs[0].0 == "id"@);
            assert(fs[1].0 == "email"@);
            assert(fs[2].0 == "username"@);
            assert(fs[3].0 == "displayName"@);
            assert(fs[4].0 == "role"@);
            assert(fs[5].0 == "joinedEpoch"@);
            lemma_obj_get_found(fs, "id"@, 0);
            lemma_obj_get_found(fs, "email"@, 1);
            lemma_obj_get_found(fs, "username"@, 2);
            lemma_obj_get_found(fs, "displayName"@, 3);
            lemma_obj_get_found(fs, "role"@, 4);
            lemma_obj_get_found(fs, "joinedEpoch"@, 5);
            assert(sget_str(fs, "id"@) == Some(self.id));
            assert(sget_str(fs, "email"@) == Some(self.email));
            assert(sget_opt_str(fs, "username"@) == Some(self.username));
            assert(sget_opt_str(fs, "displayName"@) == Some(self.display_name));
            assert(sget_opt_str(fs, "role"@) == Some(self.role));
            assert(sget_opt_str(fs, "joinedEpoch"@) == Some(self.joined_at));
            assert(group_member_from_fields(fs) == Some(*self));
        }
        Json::Obj(fields)
    }

    /// Decodes from a JSON value; `None` on any shape mismatch.
    pub fn from_json(j: &Json) -> (r: Option<GroupMember>)
        ensures
            r == group_member_from_json(*j),
    {
        match j {
            Json::Obj(fields) => {
                let id = match get_str(fields, "id") {
                    Some(v) => v,
                    None => {
                        return None;
                    },
                };
                let email = match get_str(fields, "email") {
                    Some(v) => v,
                    None => {
                        return None;
                    },
                };
                let username = match get_opt_str(fields, "username") {
                    Some(v) => v,
                    None => {
                        return None;
                    },
                };
                let display_name = match get_opt_str(fields, "displayName") {
                    Some(v) => v,
                    None => {
                        return None;
                    },
                };
                let role = match get_opt_str(fields, "role") {
                    Some(v) => v,
                    None => {
                        return None;
                    },
                };
                let joined_at = match get_opt_str(fields, "joinedEpoch") {
                    Some(v) => v,
                    None => {
                        return None;
                    },
                };
                Some(
                    GroupMember {
                        id, email, username, display_name, role, joined_at,
                    },
                )
            },
            _ => None,
        }
    }
}

/// A request to add a member to the account group.
#[derive(Clone, Debug, PartialEq)]
pub struct AddGroupMemberRequest {
    pub email: String,
    pub role: Option<String>,
}

/// The wire keys of this record, in the order the client writes them.
pub open spec fn add_group_member_request_keys() -> Seq<Seq<char>> {
    seq!["email"@, "role"@]
}

/// Decodes from an object's fields.
pub open spec fn add_group_member_request_from_fields(fs: Seq<(Seq<char>, Json)>) -> Option<AddGroupMemberRequest> {
    if {
        &&& sget_str(fs, "email"@) is Some
        &&& sget_opt_str(fs, "role"@) is Some
    } {
        Some(
            AddGroupMemberRequest {
                email: sget_str(fs, "email"@).unwrap(),
                role: sget_opt_str(fs, "role"@).unwrap(),
            },
        )
    } else {
        None
    }
}

/// Decodes from a JSON value.
pub open spec fn add_group_member_request_from_json(j: Json) -> Option<AddGroupMemberRequest> {
    match j {
        Json::Obj(fields) => add_group_member_request_from_fields(obj_view(fields@)),
        _ => None,
    }
}

impl AddGroupMemberRequest {
    /// Encodes to the wire object: exactly the keys of `add_group_member_request_keys`, in
    /// order; decoding the result yields this value back.
    pub fn to_json(&self) -> (j: Json)
        ensures
            (j matches Json::Obj(fields) && field_keys(fields@) == add_group_member_request_keys()),
            add_group_member_request_from_json(j) == Some(*self),
    {
        let mut fields: Vec<(String, Json)> = Vec::new();
        push_field(&mut fields, "email", Json::Str(self.email.clone()));
        push_field(&mut fields, "role", opt_str_to_json(&self.role));
        proof {
            reveal_strlit("email");
            reveal_strlit("role");
            assert("email"@.len() == 5);
            assert("role"@.len() == 4);
            assert(field_keys(fields@) =~= add_group_member_request_keys());
            let fs = obj_view(fields@);
            assert(fs.len() == 2);
            assert(fs[0].0 == "email"@);
            assert(fs[1].0 == "role"@);
            lemma_obj_get_found(fs, "email"@, 0);
            lemma_obj_get_found(fs, "role"@, 1);
            assert(sget_str(fs, "email"@) == Some(self.email));
            assert(sget_opt_str(fs, "role"@) == Some(self.role));
            assert(add_group_member_request_from_fields(fs) == Some(*self));
        }
        Json::Obj(fields)
    }

    /// Decodes from a JSON value; `None` on any shape mismatch.
    pub fn from_json(j: &Json) -> (r: Option<AddGroupMemberRequest>)
        ensures
            r == add_group_member_request_from_json(*j),
    {
        match j {
            Json::Obj(fields) => {
                let email = match get_str(fields, "email") {
                    Some(v) => v,
                    None => {
                        return None;
                    },
                };
                let role = match get_opt_str(fields, "role") {
                    Some(v) => v,
                    None => {
                        return None;
                    },
                };
                Some(
                    AddGroupMemberRequest {
                        email, role,
                    },
                )
            },
            _ => None,
        }
    }
}
} // verus!
