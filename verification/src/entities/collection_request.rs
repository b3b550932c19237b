//! Collection requests: standing tasking across the fleet.
use vstd::prelude::*;
use vstd::string::StringExecFns;

use crate::json::Json;
use crate::json::field_keys;
use crate::json::get_opt_i32;
use crate::json::get_opt_str;
use crate::json::get_str;
use crate::json::i32_to_json;
use crate::json::lemma_obj_get_found;
use crate::json::obj_get;
use crate::json::obj_view;
use crate::json::opt_i32_to_json;
use crate::json::opt_str_to_json;
use crate::json::opt_vec_view;
use crate::json::push_field;
use crate::json::sget_opt_i32;
use crate::json::sget_opt_str;
use crate::json::sget_str;

verus! {

/// The collection technique requested.
#[derive(Clone, Copy, PartialEq, Eq, Structural, Debug)]
pub enum CollectionRequestType {
    Track,
    Tdoa,
}

/// The exact wire casing of each value.
pub open spec fn collection_request_type_wire(v: CollectionRequestType) -> Seq<char> {
    match v {
        CollectionRequestType::Track => "TRACK"@,
        CollectionRequestType::Tdoa => "TDOA"@,
    }
}

/// The value a wire token names, if any.
pub open spec fn collection_request_type_from_wire(s: Seq<char>) -> Option<CollectionRequestType> {
    if s == "TRACK"@ {
        Some(CollectionRequestType::Track)
    } else if s == "TDOA"@ {
        Some(CollectionRequestType::Tdoa)
    } else {
        None
    }
}

impl CollectionRequestType {
    /// The exact wire casing of this value.
    pub fn wire_name(&self) -> (r: String)
        ensures
            r@ == collection_request_type_wire(*self),
    {
        match self {
            CollectionRequestType::Track => String::from_str("TRACK"),
            CollectionRequestType::Tdoa => String::from_str("TDOA"),
        }
    }

    /// Parses the exact wire casing; `None` for any other text.
    pub fn from_wire(s: &str) -> (r: Option<CollectionRequestType>)
        ensures
            r == collection_request_type_from_wire(s@),
    {
        let t = s.to_owned();
        if t == String::from_str("TRACK") {
            Some(CollectionRequestType::Track)
        } else if t == String::from_str("TDOA") {
            Some(CollectionRequestType::Tdoa)
        } else {
            None
        }
    }
}

/// Encoding then decoding any value of this enumeration returns the same
/// value.
pub proof fn lemma_collection_request_type_roundtrip(v: CollectionRequestType)
    ensures
        collection_request_type_from_wire(collection_request_type_wire(v)) == Some(v),
{
    reveal_strlit("TRACK");
    reveal_strlit("TDOA");
    assert("TRACK"@.len() == 5);
    assert("TDOA"@.len() == 4);
}

/// A collection request as the service returns it.
#[derive(Clone, Debug, PartialEq)]
pub struct CollectionRequest {
    pub id: String,
    pub request_type: CollectionRequestType,
    pub satellite_id: String,
    pub satellite_name: Option<String>,
    pub user_id: String,
    pub status: String,
    pub priority: Option<i32>,
    pub start: String,
    pub end: String,
    pub notes: Option<String>,
    pub created_at: String,
    pub updated_at: Option<String>,
}

/// The wire keys of this record, in the order the client writes them.
pub open spec fn collection_request_keys() -> Seq<Seq<char>> {
    seq!["id"@, "type"@, "satelliteId"@, "satelliteName"@, "userId"@, "status"@, "priority"@, "start"@, "end"@, "notes"@, "creationEpoch"@, "updateEpoch"@]
}

/// Decodes from an object's fields.
pub open spec fn collection_request_from_fields(fs: Seq<(Seq<char>, Json)>) -> Option<CollectionRequest> {
    if {
        &&& sget_str(fs, "id"@) is Some
        &&& sget_str(fs, "type"@) is Some
        &&& collection_request_type_from_wire(sget_str(fs, "type"@).unwrap()@) is Some
        &&& sget_str(fs, "satelliteId"@) is Some
        &&& sget_opt_str(fs, "satelliteName"@) is Some
        &&& sget_str(fs, "userId"@) is Some
        &&& sget_str(fs, "status"@) is Some
        &&& sget_opt_i32(fs, "priority"@) is Some
        &&& sget_str(fs, "start"@) is Some
        &&& sget_str(fs, "end"@) is Some
        &&& sget_opt_str(fs, "notes"@) is Some
        &&& sget_str(fs, "creationEpoch"@) is Some
        &&& sget_opt_str(fs, "updateEpoch"@) is Some
    } {
        Some(
            CollectionRequest {
                id: sget_str(fs, "id"@).unwrap(),
                request_type: collection_request_type_from_wire(sget_str(fs, "type"@).unwrap()@).unwrap(),
                satellite_id: sget_str(fs, "satelliteId"@).unwrap(),
                satellite_name: sget_opt_str(fs, "satelliteName"@).unwrap(),
                user_id: sget_str(fs, "userId"@).unwrap(),
                status: sget_str(fs, "status"@).unwrap(),
                priority: sget_opt_i32(fs, "priority"@).unwrap(),
                start: sget_str(fs, "start"@).unwrap(),
                end: sget_str(fs, "end"@).unwrap(),
                notes: sget_opt_str(fs, "notes"@).unwrap(),
                created_at: sget_str(fs, "creationEpoch"@).unwrap(),
                updated_at: sget_opt_str(fs, "updateEpoch"@).unwrap(),
            },
        )
    } else {
        None
    }
}

/// Decodes from a JSON value.
pub open spec fn collection_request_from_json(j: Json) -> Option<CollectionRequest> {
    match j {
        Json::Obj(fields) => collection_request_from_fields(obj_view(fields@)),
        _ => None,
    }
}

impl CollectionRequest {
    /// Encodes to the wire object: exactly the keys of `collection_request_keys`, in
    /// order; decoding the result yields this value back.
    pub fn to_json(&self) -> (j: Json)
        ensures
            (j matches Json::Obj(fields) && field_keys(fields@) == collection_request_keys()),
            collection_request_from_json(j) == Some(*self),
    {
        let mut fields: Vec<(String, Json)> = Vec::new();
        push_field(&mut fields, "id", Json::Str(self.id.clone()));
        push_field(&mut fields, "type", Json::Str(self.request_type.wire_name()));
        push_field(&mut fields, "satelliteId", Json::Str(self.satellite_id.clone()));
        push_field(&mut fields, "satelliteName", opt_str_to_json(&self.satellite_name));
        push_field(&mut fields, "userId", Json::Str(self.user_id.clone()));
        push_field(&mut fields, "status", Json::Str(self.status.clone()));
        push_field(&mut fields, "priority", opt_i32_to_json(&self.priority));
        push_field(&mut fields, "start", Json::Str(self.start.clone()));
        push_field(&mut fields, "end", Json::Str(self.end.clone()));
        push_field(&mut fields, "notes", opt_str_to_json(&self.notes));
        push_field(&mut fields, "creationEpoch", Json::Str(self.created_at.clone()));
        push_field(&mut fields, "updateEpoch", opt_str_to_json(&self.updated_at));
        proof {
            reveal_strlit("id");
            reveal_strlit("type");
            reveal_strlit("satelliteId");
            reveal_strlit("satelliteName");
            reveal_strlit("userId");
            reveal_strlit("status");
            reveal_strlit("priority");
            reveal_strlit("start");
            reveal_strlit("end");
            reveal_strlit("notes");
            reveal_strlit("creationEpoch");
            reveal_strlit("updateEpoch");
            assert("id"@.len() == 2);
            assert("type"@.len() == 4);
            assert("satelliteId"@.len() == 11);
            assert("satelliteName"@.len() == 13);
            assert("userId"@.len() == 6);
            assert("status"@.len() == 6);
            assert("priority"@.len() == 8);
            assert("start"@.len() == 5);
            assert("end"@.len() == 3);
            assert("notes"@.len() == 5);
            assert("creationEpoch"@.len() == 13);
            assert("updateEpoch"@.len() == 11);
            assert("satelliteId"@[0] == 's');
            assert("updateEpoch"@[0] == 'u');
            assert("satelliteName"@[0] == 's');
            assert("creationEpoch"@[0] == 'c');
            assert("userId"@[0] == 'u');
            assert("status"@[0] == 's');
            assert("start"@[0] == 's');
            assert("notes"@[0] == 'n');
            assert(field_keys(fields@) =~= collection_request_keys());
            let fs = obj_view(fields@);
            assert(fs.len() == 12);
            assert(fs[0].0 == "id"@);
            assert(fs[1].0 == "type"@);
            assert(fs[2].0 == "satelliteId"@);
            assert(fs[3].0 == "satelliteName"@);
            assert(fs[4].0 == "userId"@);
            assert(fs[5].0 == "status"@);
            assert(fs[6].0 == "priority"@);
            assert(fs[7].0 == "start"@);
            assert(fs[8].0 == "end"@);
            assert(fs[9].0 == "notes"@);
            assert(fs[10].0 == "creationEpoch"@);
            assert(fs[11].0 == "updateEpoch"@);
            lemma_obj_get_found(fs, "id"@, 0);
            lemma_obj_get_found(fs, "type"@, 1);
            lemma_obj_get_found(fs, "satelliteId"@, 2);
            lemma_obj_get_found(fs, "satelliteName"@, 3);
            lemma_obj_get_found(fs, "userId"@, 4);
            lemma_obj_get_found(fs, "status"@, 5);
            lemma_obj_get_found(fs, "priority"@, 6);
            lemma_obj_get_found(fs, "start"@, 7);
            lemma_obj_get_found(fs, "end"@, 8);
            lemma_obj_get_found(fs, "notes"@, 9);
            lemma_obj_get_found(fs, "creationEpoch"@, 10);
            lemma_obj_get_found(fs, "updateEpoch"@, 11);
            lemma_collection_request_type_roundtrip(self.request_type);
            if let Some(n) = self.priority {
                crate::num::lemma_parse_dec_i32(n);
            }
            assert(sget_str(fs, "id"@) == Some(self.id));
            assert(collection_request_type_from_wire(sget_str(fs, "type"@).unwrap()@) == Some(self.request_type));
            assert(sget_str(fs, "satelliteId"@) == Some(self.satellite_id));
            assert(sget_opt_str(fs, "satelliteName"@) == Some(self.satellite_name));
            assert(sget_str(fs, "userId"@) == Some(self.user_id));
            assert(sget_str(fs, "status"@) == Some(self.status));
            assert(sget_opt_i32(fs, "priority"@) == Some(self.priority));
            assert(sget_str(fs, "start"@) == Some(self.start));
            assert(sget_str(fs, "end"@) == Some(self.end));
            assert(sget_opt_str(fs, "notes"@) == Some(self.notes));
            assert(sget_str(fs, "creationEpoch"@) == Some(self.created_at));
            assert(sget_opt_str(fs, "updateEpoch"@) == Some(self.updated_at));
            assert(collection_request_from_fields(fs) == Some(*self));
        }
        Json::Obj(fields)
    }

    /// Decodes from a JSON value; `None` on any shape mismatch.
    pub fn from_json(j: &Json) -> (r: Option<CollectionRequest>)
        ensures
            r == collection_request_from_json(*j),
    {
        match j {
            Json::Obj(fields) => {
                let id = match get_str(fields, "id") {
                    Some(v) => v,
                    None => {
                        return None;
                    },
                };
                let request_type = match get_str(fields, "type") {
                    Some(s) => match CollectionRequestType::from_wire(s.as_str()) {
                        Some(v) => v,
                        None => {
                            return None;
                        },
                    },
                    None => {
                        return None;
                    },
                };
                let satellite_id = match get_str(fields, "satelliteId") {
                    Some(v) => v,
                    None => {
                        return None;
                    },
                };
                let satellite_name = match get_opt_str(fields, "satelliteName") {
                    Some(v) => v,
                    None => {
                        return None;
                    },
                };
                let user_id = match get_str(fields, "userId") {
                    Some(v) => v,
                    None => {
                        return None;
                    },
                };
                let status = match get_str(fields, "status") {
                    Some(v) => v,
                    None => {
                        return None;
                    },
                };
                let priority = match get_opt_i32(fields, "priority") {
                    Some(v) => v,
                    None => {
                        return None;
                    },
                };
                let start = match get_str(fields, "start") {
                    Some(v) => v,
                    None => {
                        return None;
                    },
                };
                let end = match get_str(fields, "end") {
                    Some(v) => v,
                    None => {
                        return None;
                    },
                };
                let notes = match get_opt_str(fields, "notes") {
                    Some(v) => v,
                    None => {
                        return None;
                    },
                };
                let created_at = match get_str(fields, "creationEpoch") {
                    Some(v) => v,
                    None => {
                        return None;
                    },
                };
                let updated_at = match get_opt_str(fields, "updateEpoch") {
                    Some(v) => v,
                    None => {
                        return None;
                    },
                };
                Some(
                    CollectionRequest {
                        id, request_type, satellite_id, satellite_name, user_id, status,
                        priority, start, end, notes, created_at, updated_at,
                    },
                )
            },
            _ => None,
        }
    }
}

/// The caller-settable fields of a new collection request.
#[derive(Clone, Debug, PartialEq)]
pub struct CreateCollectionRequestRequest {
    pub request_type: CollectionRequestType,
    pub satellite_id: String,
    pub start: String,
    pub end: String,
    pub priority: Option<i32>,
    pub notes: Option<String>,
}

/// The wire keys of this record, in the order the client writes them.
pub open spec fn create_collection_request_request_keys() -> Seq<Seq<char>> {
    seq!["type"@, "satelliteId"@, "start"@, "end"@, "priority"@, "notes"@]
}

/// Decodes from an object's fields.
pub open spec fn create_collection_request_request_from_fields(fs: Seq<(Seq<char>, Json)>) -> Option<CreateCollectionRequestRequest> {
    if {
        &&& sget_str(fs, "type"@) is Some
        &&& collection_request_type_from_wire(sget_str(fs, "type"@).unwrap()@) is Some
        &&& sget_str(fs, "satelliteId"@) is Some
        &&& sget_str(fs, "start"@) is Some
        &&& sget_str(fs, "end"@) is Some
        &&& sget_opt_i32(fs, "priority"@) is Some
        &&& sget_opt_str(fs, "notes"@) is Some
    } {
        Some(
            CreateCollectionRequestRequest {
                request_type: collection_request_type_from_wire(sget_str(fs, "type"@).unwrap()@).unwrap(),
                satellite_id: sget_str(fs, "satelliteId"@).unwrap(),
                start: sget_str(fs, "start"@).unwrap(),
                end: sget_str(fs, "end"@).unwrap(),
                priority: sget_opt_i32(fs, "priority"@).unwrap(),
                notes: sget_opt_str(fs, "notes"@).unwrap(),
            },
        )
    } else {
        None
    }
}

/// Decodes from a JSON value.
pub open spec fn create_collection_request_request_from_json(j: Json) -> Option<CreateCollectionRequestRequest> {
    match j {
        Json::Obj(fields) => create_collection_request_request_from_fields(obj_view(fields@)),
        _ => None,
    }
}

impl CreateCollectionRequestRequest {
    /// Encodes to the wire object: exactly the keys of `create_collection_request_request_keys`, in
    /// order; decoding the result yields this value back.
    pub fn to_json(&self) -> (j: Json)
        ensures
            (j matches Json::Obj(fields) && field_keys(fields@) == create_collection_request_request_keys()),
            create_collection_request_request_from_json(j) == Some(*self),
    {
        let mut fields: Vec<(String, Json)> = Vec::new();
        push_field(&mut fields, "type", Json::Str(self.request_type.wire_name()));
        push_field(&mut fields, "satelliteId", Json::Str(self.satellite_id.clone()));
        push_field(&mut fields, "start", Json::Str(self.start.clone()));
        push_field(&mut fields, "end", Json::Str(self.end.clone()));
        push_field(&mut fields, "priority", opt_i32_to_json(&self.priority));
        push_field(&mut fields, "notes", opt_str_to_json(&self.notes));
        proof {
            reveal_strlit("type");
            reveal_strlit("satelliteId");
            reveal_strlit("start");
            reveal_strlit("end");
            reveal_strlit("priority");
            reveal_strlit("notes");
            assert("type"@.len() == 4);
            assert("satelliteId"@.len() == 11);
            assert("start"@.len() == 5);
            assert("end"@.len() == 3);
            assert("priority"@.len() == 8);
            assert("notes"@.len() == 5);
            assert("start"@[0] == 's');
            assert("notes"@[0] == 'n');
            assert(field_keys(fields@) =~= create_collection_request_request_keys());
            let fs = obj_view(fields@);
            assert(fs.len() == 6);
            assert(fs[0].0 == "type"@);
            assert(fs[1].0 == "satelliteId"@);
            assert(fs[2].0 == "start"@);
            assert(fs[3].0 == "end"@);
            assert(fs[4].0 == "priority"@);
            assert(fs[5].0 == "notes"@);
            lemma_obj_get_found(fs, "type"@, 0);
            lemma_obj_get_found(fs, "satelliteId"@, 1);
            lemma_obj_get_found(fs, "start"@, 2);
            lemma_obj_get_found(fs, "end"@, 3);
            lemma_obj_get_found(fs, "priority"@, 4);
            lemma_obj_get_found(fs, "notes"@, 5);
            lemma_collection_request_type_roundtrip(self.request_type);
            if let Some(n) = self.priority {
                crate::num::lemma_parse_dec_i32(n);
            }
            assert(collection_request_type_from_wire(sget_str(fs, "type"@).unwrap()@) == Some(self.request_type));
            assert(sget_str(fs, "satelliteId"@) == Some(self.satellite_id));
            assert(sget_str(fs, "start"@) == Some(self.start));
            assert(sget_str(fs, "end"@) == Some(self.end));
            assert(sget_opt_i32(fs, "priority"@) == Some(self.priority));
            assert(sget_opt_str(fs, "notes"@) == Some(self.notes));
            assert(create_collection_request_request_from_fields(fs) == Some(*self));
        }
        Json::Obj(fields)
    }

    /// Decodes from a JSON value; `None` on any shape mismatch.
    pub fn from_json(j: &Json) -> (r: Option<CreateCollectionRequestRequest>)
        ensures
            r == create_collection_request_request_from_json(*j),
    {
        match j {
            Json::Obj(fields) => {
                let request_type = match get_str(fields, "type") {
                    Some(s) => match CollectionRequestType::from_wire(s.as_str()) {
                        Some(v) => v,
                        None => {
                            return None;
                        },
                    },
                    None => {
                        return None;
                    },
                };
                let satellite_id = match get_str(fields, "satelliteId") {
                    Some(v) => v,
                    None => {
                        return None;
                    },
                };
                let start = match get_str(fields, "start") {
                    Some(v) => v,
                    None => {
                        return None;
                    },
                };
                let end = match get_str(fields, "end") {
                    Some(v) => v,
                    None => {
                        return None;
                    },
                };
                let priority = match get_opt_i32(fields, "priority") {
                    Some(v) => v,
                    None => {
                        return None;
                    },
                };
                let notes = match get_opt_str(fields, "notes") {
                    Some(v) => v,
                    None => {
                        return None;
                    },
                };
                Some(
                    CreateCollectionRequestRequest {
                        request_type, satellite_id, start, end, priority, notes,
                    },
                )
            },
            _ => None,
        }
    }
}
} // verus!
