//! Satellite groups: caller-curated sets of satellites.
use vstd::prelude::*;
use vstd::string::StringExecFns;

use crate::json::Json;
use crate::json::field_keys;
use crate::json::get_opt_bool;
use crate::json::get_opt_str;
use crate::json::get_opt_str_vec;
use crate::json::get_str;
use crate::json::get_str_vec;
use crate::json::lemma_obj_get_found;
use crate::json::obj_get;
use crate::json::obj_view;
use crate::json::opt_bool_to_json;
use crate::json::opt_str_to_json;
use crate::json::opt_strs_to_json;
use crate::json::opt_vec_view;
use crate::json::push_field;
use crate::json::sget_opt_bool;
use crate::json::sget_opt_str;
use crate::json::sget_opt_str_vec;
use crate::json::sget_str;
use crate::json::sget_str_vec;
use crate::json::strs_to_json;

verus! {

/// A caller-curated set of satellites as the service returns it.
#[derive(Clone, Debug, PartialEq)]
pub struct SatelliteGroup {
    pub id: String,
    pub title: String,
    pub details: Option<String>,
    pub user_id: Option<String>,
    pub user_group_id: Option<String>,
    pub username: Option<String>,
    pub satellite_ids: Option<Vec<String>>,
    pub is_favorited: Option<bool>,
    pub created_at: Option<String>,
    pub updated_at: Option<String>,
}

/// The wire keys of this record, in the order the client writes them.
pub open spec fn satellite_group_keys() -> Seq<Seq<char>> {
    seq!["id"@, "title"@, "details"@, "userId"@, "userGroupId"@, "username"@, "satelliteIds"@, "isFavorited"@, "creationEpoch"@, "updateEpoch"@]
}

/// The fields decode into exactly this value.
pub open spec fn satellite_group_decodes_fields(fs: Seq<(Seq<char>, Json)>, x: SatelliteGroup) -> bool {
    &&& sget_str(fs, "id"@) == Some(x.id)
    &&& sget_str(fs, "title"@) == Some(x.title)
    &&& sget_opt_str(fs, "details"@) == Some(x.details)
    &&& sget_opt_str(fs, "userId"@) == Some(x.user_id)
    &&& sget_opt_str(fs, "userGroupId"@) == Some(x.user_group_id)
    &&& sget_opt_str(fs, "username"@) == Some(x.username)
    &&& sget_opt_str_vec(fs, "satelliteIds"@) == Some(opt_vec_view(x.satellite_ids))
    &&& sget_opt_bool(fs, "isFavorited"@) == Some(x.is_favorited)
    &&& sget_opt_str(fs, "creationEpoch"@) == Some(x.created_at)
    &&& sget_opt_str(fs, "updateEpoch"@) == Some(x.updated_at)
}

/// Every field is present with a decodable shape.
pub open spec fn satellite_group_shape_ok(fs: Seq<(Seq<char>, Json)>) -> bool {
    &&& sget_str(fs, "id"@) is Some
    &&& sget_str(fs, "title"@) is Some
    &&& sget_opt_str(fs, "details"@) is Some
    &&& sget_opt_str(fs, "userId"@) is Some
    &&& sget_opt_str(fs, "userGroupId"@) is Some
    &&& sget_opt_str(fs, "username"@) is Some
    &&& sget_opt_str_vec(fs, "satelliteIds"@) is Some
    &&& sget_opt_bool(fs, "isFavorited"@) is Some
    &&& sget_opt_str(fs, "creationEpoch"@) is Some
    &&& sget_opt_str(fs, "updateEpoch"@) is Some
}

/// The JSON value decodes into exactly this value.
pub open spec fn satellite_group_decodes_to(j: Json, x: SatelliteGroup) -> bool {
    match j {
        Json::Obj(fields) => satellite_group_decodes_fields(obj_view(fields@), x),
        _ => false,
    }
}

/// The JSON value has the shape this record decodes from.
pub open spec fn satellite_group_json_ok(j: Json) -> bool {
    match j {
        Json::Obj(fields) => satellite_group_shape_ok(obj_view(fields@)),
        _ => false,
    }
}

impl SatelliteGroup {
    /// Encodes to the wire object: exactly the keys of `satellite_group_keys`, in
    /// order; decoding the result yields this value back.
    pub fn to_json(&self) -> (j: Json)
        ensures
            (j matches Json::Obj(fields) && field_keys(fields@) == satellite_group_keys()),
            satellite_group_decodes_to(j, *self),
    {
        let mut fields: Vec<(String, Json)> = Vec::new();
        push_field(&mut fields, "id", Json::Str(self.id.clone()));
        push_field(&mut fields, "title", Json::Str(self.title.clone()));
        push_field(&mut fields, "details", opt_str_to_json(&self.details));
        push_field(&mut fields, "userId", opt_str_to_json(&self.user_id));
        push_field(&mut fields, "userGroupId", opt_str_to_json(&self.user_group_id));
        push_field(&mut fields, "username", opt_str_to_json(&self.username));
        push_field(&mut fields, "satelliteIds", opt_strs_to_json(&self.satellite_ids));
        push_field(&mut fields, "isFavorited", opt_bool_to_json(&self.is_favorited));
        push_field(&mut fields, "creationEpoch", opt_str_to_json(&self.created_at));
        push_field(&mut fields, "updateEpoch", opt_str_to_json(&self.updated_at));
        proof {
            reveal_strlit("id");
            reveal_strlit("title");
            reveal_strlit("details");
            reveal_strlit("userId");
            reveal_strlit("userGroupId");
            reveal_strlit("username");
            reveal_strlit("satelliteIds");
            reveal_strlit("isFavorited");
            reveal_strlit("creationEpoch");
            reveal_strlit("updateEpoch");
            assert("id"@.len() == 2);
            assert("title"@.len() == 5);
            assert("details"@.len() == 7);
            assert("userId"@.len() == 6);
            assert("userGroupId"@.len() == 11);
            assert("username"@.len() == 8);
            assert("satelliteIds"@.len() == 12);
            assert("isFavorited"@.len() == 11);
            assert("creationEpoch"@.len() == 13);
            assert("updateEpoch"@.len() == 11);
            assert("userGroupId"@[0] == 'u');
            assert("isFavorited"@[0] == 'i');
            assert("userGroupId"@[1] == 's');
            assert("updateEpoch"@[1] == 'p');
            assert("updateEpoch"@[0] == 'u');
            assert(field_keys(fields@) =~= satellite_group_keys());
            let fs = obj_view(fields@);
            assert(fs.len() == 10);
            assert(fs[0].0 == "id"@);
            assert(fs[1].0 == "title"@);
            assert(fs[2].0 == "details"@);
            assert(fs[3].0 == "userId"@);
            assert(fs[4].0 == "userGroupId"@);
            assert(fs[5].0 == "username"@);
            assert(fs[6].0 == "satelliteIds"@);
            assert(fs[7].0 == "isFavorited"@);
            assert(fs[8].0 == "creationEpoch"@);
            assert(fs[9].0 == "updateEpoch"@);
            lemma_obj_get_found(fs, "id"@, 0);
            lemma_obj_get_found(fs, "title"@, 1);
            lemma_obj_get_found(fs, "details"@, 2);
            lemma_obj_get_found(fs, "userId"@, 3);
            lemma_obj_get_found(fs, "userGroupId"@, 4);
            lemma_obj_get_found(fs, "username"@, 5);
            lemma_obj_get_found(fs, "satelliteIds"@, 6);
            lemma_obj_get_found(fs, "isFavorited"@, 7);
            lemma_obj_get_found(fs, "creationEpoch"@, 8);
            lemma_obj_get_found(fs, "updateEpoch"@, 9);
            assert(sget_str(fs, "id"@) == Some(self.id));
            assert(sget_str(fs, "title"@) == Some(self.title));
            assert(sget_opt_str(fs, "details"@) == Some(self.details));
            assert(sget_opt_str(fs, "userId"@) == Some(self.user_id));
            assert(sget_opt_str(fs, "userGroupId"@) == Some(self.user_group_id));
            assert(sget_opt_str(fs, "username"@) == Some(self.username));
            assert(sget_opt_str_vec(fs, "satelliteIds"@) == Some(opt_vec_view(self.satellite_ids)));
            assert(sget_opt_bool(fs, "isFavorited"@) == Some(self.is_favorited));
            assert(sget_opt_str(fs, "creationEpoch"@) == Some(self.created_at));
            assert(sget_opt_str(fs, "updateEpoch"@) == Some(self.updated_at));
            assert(satellite_group_decodes_fields(fs, *self));
        }
        Json::Obj(fields)
    }

    /// Decodes from a JSON value; `None` on any shape mismatch.
    pub fn from_json(j: &Json) -> (r: Option<SatelliteGroup>)
        ensures
            (match r {
                Some(x) => satellite_group_decodes_to(*j, x),
                None => !satellite_group_json_ok(*j),
            }),
    {
        match j {
            Json::Obj(fields) => {
                let id = match get_str(fields, "id") {
                    Some(v) => v,
                    None => {
                        return None;
                    },
                };
                let title = match get_str(fields, "title") {
                    Some(v) => v,
                    None => {
                        return None;
                    },
                };
                let details = match get_opt_str(fields, "details") {
                    Some(v) => v,
                    None => {
                        return None;
                    },
                };
                let user_id = match get_opt_str(fields, "userId") {
                    Some(v) => v,
                    None => {
                        return None;
                    },
                };
                let user_group_id = match get_opt_str(fields, "userGroupId") {
                    Some(v) => v,
                    None => {
                        return None;
                    },
                };
                let username = match get_opt_str(fields, "username") {
                    Some(v) => v,
                    None => {
                        return None;
                    },
                };
                let satellite_ids = match get_opt_str_vec(fields, "satelliteIds") {
                    Some(v) => v,
                    None => {
                        return None;
                    },
                };
                let is_favorited = match get_opt_bool(fields, "isFavorited") {
                    Some(v) => v,
                    None => {
                        return None;
                    },
                };
                let created_at = match get_opt_str(fields, "creationEpoch") {
                    Some(v) => v,
                    None => {
                        return None;
                    },
                };
                let updated_at = match get_opt_str(fields, "updateEpoch") {
                    Some(v) => v,
                    None => {
                        return None;
                    },
                };
                Some(
                    SatelliteGroup {
                        id, title, details, user_id, user_group_id, username, satellite_ids,
                        is_favorited, created_at, updated_at,
                    },
                )
            },
            _ => None,
        }
    }
}

/// The caller-settable fields of a new satellite group.
#[derive(Clone, Debug, PartialEq)]
pub struct CreateSatelliteGroupRequest {
    pub title: String,
    pub details: Option<String>,
    pub satellite_ids: Vec<String>,
}

/// The wire keys of this record, in the order the client writes them.
pub open spec fn create_satellite_group_request_keys() -> Seq<Seq<char>> {
    seq!["title"@, "details"@, "satelliteIds"@]
}

/// The fields decode into exactly this value.
pub open spec fn create_satellite_group_request_decodes_fields(fs: Seq<(Seq<char>, Json)>, x: CreateSatelliteGroupRequest) -> bool {
    &&& sget_str(fs, "title"@) == Some(x.title)
    &&& sget_opt_str(fs, "details"@) == Some(x.details)
    &&& sget_str_vec(fs, "satelliteIds"@) == Some(x.satellite_ids@)
}

/// Every field is present with a decodable shape.
pub open spec fn create_satellite_group_request_shape_ok(fs: Seq<(Seq<char>, Json)>) -> bool {
    &&& sget_str(fs, "title"@) is Some
    &&& sget_opt_str(fs, "details"@) is Some
    &&& sget_str_vec(fs, "satelliteIds"@) is Some
}

/// The JSON value decodes into exactly this value.
pub open spec fn create_satellite_group_request_decodes_to(j: Json, x: CreateSatelliteGroupRequest) -> bool {
    match j {
        Json::Obj(fields) => create_satellite_group_request_decodes_fields(obj_view(fields@), x),
        _ => false,
    }
}

/// The JSON value has the shape this record decodes from.
pub open spec fn create_satellite_group_request_json_ok(j: Json) -> bool {
    match j {
        Json::Obj(fields) => create_satellite_group_request_shape_ok(obj_view(fields@)),
        _ => false,
    }
}

impl CreateSatelliteGroupRequest {
    /// Encodes to the wire object: exactly the keys of `create_satellite_group_request_keys`, in
    /// order; decoding the result yields this value back.
    pub fn to_json(&self) -> (j: Json)
        ensures
            (j matches Json::Obj(fields) && field_keys(fields@) == create_satellite_group_request_keys()),
            create_satellite_group_request_decodes_to(j, *self),
    {
        let mut fields: Vec<(String, Json)> = Vec::new();
        push_field(&mut fields, "title", Json::Str(self.title.clone()));
        push_field(&mut fields, "details", opt_str_to_json(&self.details));
        push_field(&mut fields, "satelliteIds", strs_to_json(&self.satellite_ids));
        proof {
            reveal_strlit("title");
            reveal_strlit("details");
            reveal_strlit("satelliteIds");
            assert("title"@.len() == 5);
            assert("details"@.len() == 7);
            assert("satelliteIds"@.len() == 12);
            assert(field_keys(fields@) =~= create_satellite_group_request_keys());
            let fs = obj_view(fields@);
            assert(fs.len() == 3);
            assert(fs[0].0 == "title"@);
            assert(fs[1].0 == "details"@);
            assert(fs[2].0 == "satelliteIds"@);
            lemma_obj_get_found(fs, "title"@, 0);
            lemma_obj_get_found(fs, "details"@, 1);
            lemma_obj_get_found(fs, "satelliteIds"@, 2);
            assert(sget_str(fs, "title"@) == Some(self.title));
            assert(sget_opt_str(fs, "details"@) == Some(self.details));
            assert(sget_str_vec(fs, "satelliteIds"@) == Some(self.satellite_ids@));
            assert(create_satellite_group_request_decodes_fields(fs, *self));
        }
        Json::Obj(fields)
    }

    /// Decodes from a JSON value; `None` on any shape mismatch.
    pub fn from_json(j: &Json) -> (r: Option<CreateSatelliteGroupRequest>)
        ensures
            (match r {
                Some(x) => create_satellite_group_request_decodes_to(*j, x),
                None => !create_satellite_group_request_json_ok(*j),
            }),
    {
        match j {
            Json::Obj(fields) => {
                let title = match get_str(fields, "title") {
                    Some(v) => v,
                    None => {
                        return None;
                    },
                };
                let details = match get_opt_str(fields, "details") {
                    Some(v) => v,
                    None => {
                        return None;
                    },
                };
                let satellite_ids = match get_str_vec(fields, "satelliteIds") {
                    Some(v) => v,
                    None => {
                        return None;
                    },
                };
                Some(
                    CreateSatelliteGroupRequest {
                        title, details, satellite_ids,
                    },
                )
            },
            _ => None,
        }
    }
}

/// The caller-settable fields of a satellite-group update.
#[derive(Clone, Debug, PartialEq)]
pub struct UpdateSatelliteGroupRequest {
    pub id: String,
    pub title: Option<String>,
    pub details: Option<String>,
}

/// The wire keys of this record, in the order the client writes them.
pub open spec fn update_satellite_group_request_keys() -> Seq<Seq<char>> {
    seq!["id"@, "title"@, "details"@]
}

/// Decodes from an object's fields.
pub open spec fn update_satellite_group_request_from_fields(fs: Seq<(Seq<char>, Json)>) -> Option<UpdateSatelliteGroupRequest> {
    if {
        &&& sget_str(fs, "id"@) is Some
        &&& sget_opt_str(fs, "title"@) is Some
        &&& sget_opt_str(fs, "details"@) is Some
    } {
        Some(
            UpdateSatelliteGroupRequest {
                id: sget_str(fs, "id"@).unwrap(),
                title: sget_opt_str(fs, "title"@).unwrap(),
                details: sget_opt_str(fs, "details"@).unwrap(),
            },
        )
    } else {
        None
    }
}

/// Decodes from a JSON value.
pub open spec fn update_satellite_group_request_from_json(j: Json) -> Option<UpdateSatelliteGroupRequest> {
    match j {
        Json::Obj(fields) => update_satellite_group_request_from_fields(obj_view(fields@)),
        _ => None,
    }
}

impl UpdateSatelliteGroupRequest {
    /// Encodes to the wire object: exactly the keys of `update_satellite_group_request_keys`, in
    /// order; decoding the result yields this value back.
    pub fn to_json(&self) -> (j: Json)
        ensures
            (j matches Json::Obj(fields) && field_keys(fields@) == update_satellite_group_request_keys()),
            update_satellite_group_request_from_json(j) == Some(*self),
    {
        let mut fields: Vec<(String, Json)> = Vec::new();
        push_field(&mut fields, "id", Json::Str(self.id.clone()));
        push_field(&mut fields, "title", opt_str_to_json(&self.title));
        push_field(&mut fields, "details", opt_str_to_json(&self.details));
        proof {
            reveal_strlit("id");
            reveal_strlit("title");
            reveal_strlit("details");
            assert("id"@.len() == 2);
            assert("title"@.len() == 5);
            assert("details"@.len() == 7);
            assert(field_keys(fields@) =~= update_satellite_group_request_keys());
            let fs = obj_view(fields@);
            assert(fs.len() == 3);
            assert(fs[0].0 == "id"@);
            assert(fs[1].0 == "title"@);
            assert(fs[2].0 == "details"@);
            lemma_obj_get_found(fs, "id"@, 0);
            lemma_obj_get_found(fs, "title"@, 1);
            lemma_obj_get_found(fs, "details"@, 2);
            assert(sget_str(fs, "id"@) == Some(self.id));
            assert(sget_opt_str(fs, "title"@) == Some(self.title));
            assert(sget_opt_str(fs, "details"@) == Some(self.details));
            assert(update_satellite_group_request_from_fields(fs) == Some(*self));
        }
        Json::Obj(fields)
    }

    /// Decodes from a JSON value; `None` on any shape mismatch.
    pub fn from_json(j: &Json) -> (r: Option<UpdateSatelliteGroupRequest>)
        ensures
            r == update_satellite_group_request_from_json(*j),
    {
        match j {
            Json::Obj(fields) => {
                let id = match get_str(fields, "id") {
                    Some(v) => v,
                    None => {
                        return None;
                    },
                };
                let title = match get_opt_str(fields, "title") {
                    Some(v) => v,
                    None => {
                        return None;
                    },
                };
                let details = match get_opt_str(fields, "details") {
                    Some(v) => v,
                    None => {
                        return None;
                    },
                };
                Some(
                    UpdateSatelliteGroupRequest {
                        id, title, details,
                    },
                )
            },
            _ => None,
        }
    }
}

/// The satellites to add to or remove from a group.
#[derive(Clone, Debug, PartialEq)]
pub struct SatelliteGroupMembersRequest {
    pub satellite_ids: Vec<String>,
}

/// The wire keys of this record, in the order the client writes them.
pub open spec fn satellite_group_members_request_keys() -> Seq<Seq<char>> {
    seq!["satelliteIds"@]
}

/// The fields decode into exactly this value.
pub open spec fn satellite_group_members_request_decodes_fields(fs: Seq<(Seq<char>, Json)>, x: SatelliteGroupMembersRequest) -> bool {
    &&& sget_str_vec(fs, "satelliteIds"@) == Some(x.satellite_ids@)
}

/// Every field is present with a decodable shape.
pub open spec fn satellite_group_members_request_shape_ok(fs: Seq<(Seq<char>, Json)>) -> bool {
    &&& sget_str_vec(fs, "satelliteIds"@) is Some
}

/// The JSON value decodes into exactly this value.
pub open spec fn satellite_group_members_request_decodes_to(j: Json, x: SatelliteGroupMembersRequest) -> bool {
    match j {
        Json::Obj(fields) => satellite_group_members_request_decodes_fields(obj_view(fields@), x),
        _ => false,
    }
}

/// The JSON value has the shape this record decodes from.
pub open spec fn satellite_group_members_request_json_ok(j: Json) -> bool {
    match j {
        Json::Obj(fields) => satellite_group_members_request_shape_ok(obj_view(fields@)),
        _ => false,
    }
}

impl SatelliteGroupMembersRequest {
    /// Encodes to the wire object: exactly the keys of `satellite_group_members_request_keys`, in
    /// order; decoding the result yields this value back.
    pub fn to_json(&self) -> (j: Json)
        ensures
            (j matches Json::Obj(fields) && field_keys(fields@) == satellite_group_members_request_keys()),
            satellite_group_members_request_decodes_to(j, *self),
    {
        let mut fields: Vec<(String, Json)> = Vec::new();
        push_field(&mut fields, "satelliteIds", strs_to_json(&self.satellite_ids));
        proof {
            reveal_strlit("satelliteIds");
            assert("satelliteIds"@.len() == 12);
            assert(field_keys(fields@) =~= satellite_group_members_request_keys());
            let fs = obj_view(fields@);
            assert(fs.len() == 1);
            assert(fs[0].0 == "satelliteIds"@);
            lemma_obj_get_found(fs, "satelliteIds"@, 0);
            assert(sget_str_vec(fs, "satelliteIds"@) == Some(self.satellite_ids@));
            assert(satellite_group_members_request_decodes_fields(fs, *self));
        }
        Json::Obj(fields)
    }

    /// Decodes from a JSON value; `None` on any shape mismatch.
    pub fn from_json(j: &Json) -> (r: Option<SatelliteGroupMembersRequest>)
        ensures
            (match r {
                Some(x) => satellite_group_members_request_decodes_to(*j, x),
                None => !satellite_group_members_request_json_ok(*j),
            }),
    {
        match j {
            Json::Obj(fields) => {
                let satellite_ids = match get_str_vec(fields, "satelliteIds") {
                    Some(v) => v,
                    None => {
                        return None;
                    },
                };
                Some(
                    SatelliteGroupMembersRequest {
                        satellite_ids,
                    },
                )
            },
            _ => None,
        }
    }
}
} // verus!
