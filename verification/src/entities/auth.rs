//! Personal access tokens for API authentication.
use vstd::prelude::*;
use vstd::string::StringExecFns;

use crate::json::Json;
use crate::json::field_keys;
use crate::json::get_json;
use crate::json::get_opt_i32;
use crate::json::get_opt_str;
use crate::json::get_opt_str_vec;
use crate::json::get_str;
use crate::json::i32_to_json;
use crate::json::lemma_obj_get_found;
use crate::json::obj_get;
use crate::json::obj_view;
use crate::json::opt_i32_to_json;
use crate::json::opt_str_to_json;
use crate::json::opt_strs_to_json;
use crate::json::opt_vec_view;
use crate::json::push_field;
use crate::json::sget_opt_i32;
use crate::json::sget_opt_str;
use crate::json::sget_opt_str_vec;
use crate::json::sget_str;
use crate::json::strs_to_json;

verus! {

/// A personal access token record, without its secret.
#[derive(Clone, Debug, PartialEq)]
pub struct PersonalAccessToken {
    pub id: String,
    pub name: String,
    pub user_id: Option<String>,
    pub scopes: Option<Vec<String>>,
    pub expires_at: Option<String>,
    pub created: Option<String>,
    pub created_at: Option<String>,
    pub last_used_at: Option<String>,
}

/// The wire keys of this record, in the order the client writes them.
pub open spec fn personal_access_token_keys() -> Seq<Seq<char>> {
    seq!["id"@, "name"@, "userId"@, "scopes"@, "expiresAt"@, "created"@, "creationEpoch"@, "lastUsedEpoch"@]
}

/// The fields decode into exactly this value.
pub open spec fn personal_access_token_decodes_fields(fs: Seq<(Seq<char>, Json)>, x: PersonalAccessToken) -> bool {
    &&& sget_str(fs, "id"@) == Some(x.id)
    &&& sget_str(fs, "name"@) == Some(x.name)
    &&& sget_opt_str(fs, "userId"@) == Some(x.user_id)
    &&& sget_opt_str_vec(fs, "scopes"@) == Some(opt_vec_view(x.scopes))
    &&& sget_opt_str(fs, "expiresAt"@) == Some(x.expires_at)
    &&& sget_opt_str(fs, "created"@) == Some(x.created)
    &&& sget_opt_str(fs, "creationEpoch"@) == Some(x.created_at)
    &&& sget_opt_str(fs, "lastUsedEpoch"@) == Some(x.last_used_at)
}

/// Every field is present with a decodable shape.
pub open spec fn personal_access_token_shape_ok(fs: Seq<(Seq<char>, Json)>) -> bool {
    &&& sget_str(fs, "id"@) is Some
    &&& sget_str(fs, "name"@) is Some
    &&& sget_opt_str(fs, "userId"@) is Some
    &&& sget_opt_str_vec(fs, "scopes"@) is Some
    &&& sget_opt_str(fs, "expiresAt"@) is Some
    &&& sget_opt_str(fs, "created"@) is Some
    &&& sget_opt_str(fs, "creationEpoch"@) is Some
    &&& sget_opt_str(fs, "lastUsedEpoch"@) is Some
}

/// The JSON value decodes into exactly this value.
pub open spec fn personal_access_token_decodes_to(j: Json, x: PersonalAccessToken) -> bool {
    match j {
        Json::Obj(fields) => personal_access_token_decodes_fields(obj_view(fields@), x),
        _ => false,
    }
}

/// The JSON value has the shape this record decodes from.
pub open spec fn personal_access_token_json_ok(j: Json) -> bool {
    match j {
        Json::Obj(fields) => personal_access_token_shape_ok(obj_view(fields@)),
        _ => false,
    }
}

impl PersonalAccessToken {
    /// Encodes to the wire object: exactly the keys of `personal_access_token_keys`, in
    /// order; decoding the result yields this value back.
    pub fn to_json(&self) -> (j: Json)
        ensures
            (j matches Json::Obj(fields) && field_keys(fields@) == personal_access_token_keys()),
            personal_access_token_decodes_to(j, *self),
    {
        let mut fields: Vec<(String, Json)> = Vec::new();
        push_field(&mut fields, "id", Json::Str(self.id.clone()));
        push_field(&mut fields, "name", Json::Str(self.name.clone()));
        push_field(&mut fields, "userId", opt_str_to_json(&self.user_id));
        push_field(&mut fields, "scopes", opt_strs_to_json(&self.scopes));
        push_field(&mut fields, "expiresAt", opt_str_to_json(&self.expires_at));
        push_field(&mut fields, "created", opt_str_to_json(&self.created));
        push_field(&mut fields, "creationEpoch", opt_str_to_json(&self.created_at));
        push_field(&mut fields, "lastUsedEpoch", opt_str_to_json(&self.last_used_at));
        proof {
            reveal_strlit("id");
            reveal_strlit("name");
            reveal_strlit("userId");
            reveal_strlit("scopes");
            reveal_strlit("expiresAt");
            reveal_strlit("created");
            reveal_strlit("creationEpoch");
            reveal_strlit("lastUsedEpoch");
            assert("id"@.len() == 2);
            assert("name"@.len() == 4);
            assert("userId"@.len() == 6);
            assert("scopes"@.len() == 6);
            assert("expiresAt"@.len() == 9);
            assert("created"@.len() == 7);
            assert("creationEpoch"@.len() == 13);
            assert("lastUsedEpoch"@.len() == 13);
            assert("userId"@[0] == 'u');
            assert("scopes"@[0] == 's');
            assert("creationEpoch"@[0] == 'c');
            assert("lastUsedEpoch"@[0] == 'l');
            assert(field_keys(fields@) =~= personal_access_token_keys());
            let fs = obj_view(fields@);
            assert(fs.len() == 8);
            assert(fs[0].0 == "id"@);
            assert(fs[1].0 == "name"@);
            assert(fs[2].0 == "userId"@);
            assert(fs[3].0 == "scopes"@);
            assert(fs[4].0 == "expiresAt"@);
            assert(fs[5].0 == "created"@);
            assert(fs[6].0 == "creationEpoch"@);
            assert(fs[7].0 == "lastUsedEpoch"@);
            lemma_obj_get_found(fs, "id"@, 0);
            lemma_obj_get_found(fs, "name"@, 1);
            lemma_obj_get_found(fs, "userId"@, 2);
            lemma_obj_get_found(fs, "scopes"@, 3);
            lemma_obj_get_found(fs, "expiresAt"@, 4);
            lemma_obj_get_found(fs, "created"@, 5);
            lemma_obj_get_found(fs, "creationEpoch"@, 6);
            lemma_obj_get_found(fs, "lastUsedEpoch"@, 7);
            assert(sget_str(fs, "id"@) == Some(self.id));
            assert(sget_str(fs, "name"@) == Some(self.name));
            assert(sget_opt_str(fs, "userId"@) == Some(self.user_id));
            assert(sget_opt_str_vec(fs, "scopes"@) == Some(opt_vec_view(self.scopes)));
            assert(sget_opt_str(fs, "expiresAt"@) == Some(self.expires_at));
            assert(sget_opt_str(fs, "created"@) == Some(self.created));
            assert(sget_opt_str(fs, "creationEpoch"@) == Some(self.created_at));
            assert(sget_opt_str(fs, "lastUsedEpoch"@) == Some(self.last_used_at));
            assert(personal_access_token_decodes_fields(fs, *self));
        }
        Json::Obj(fields)
    }

    /// Decodes from a JSON value; `None` on any shape mismatch.
    pub fn from_json(j: &Json) -> (r: Option<PersonalAccessToken>)
        ensures
            (match r {
                Some(x) => personal_access_token_decodes_to(*j, x),
                None => !personal_access_token_json_ok(*j),
            }),
    {
        match j {
            Json::Obj(fields) => {
                let id = match get_str(fields, "id") {
                    Some(v) => v,
                    None => {
                        return None;
                    },
                };
                let name = match get_str(fields, "name") {
                    Some(v) => v,
                    None => {
                        return None;
                    },
                };
                let user_id = match get_opt_str(fields, "userId") {
                    Some(v) => v,
                    None => {
                        return None;
                    },
                };
                let scopes = match get_opt_str_vec(fields, "scopes") {
                    Some(v) => v,
                    None => {
                        return None;
                    },
                };
                let expires_at = match get_opt_str(fields, "expiresAt") {
                    Some(v) => v,
                    None => {
                        return None;
                    },
                };
                let created = match get_opt_str(fields, "created") {
                    Some(v) => v,
                    None => {
                        return None;
                    },
                };
                let created_at = match get_opt_str(fields, "creationEpoch") {
                    Some(v) => v,
                    None => {
                        return None;
                    },
                };
                let last_used_at = match get_opt_str(fields, "lastUsedEpoch") {
                    Some(v) => v,
                    None => {
                        return None;
                    },
                };
                Some(
                    PersonalAccessToken {
                        id, name, user_id, scopes, expires_at, created, created_at,
                        last_used_at,
                    },
                )
            },
            _ => None,
        }
    }
}

/// The caller-settable fields of a new personal access token.
#[derive(Clone, Debug, PartialEq)]
pub struct CreatePersonalAccessTokenRequest {
    pub name: String,
    pub scopes: Option<Vec<String>>,
    pub expires_in_days: Option<i32>,
}

/// The wire keys of this record, in the order the client writes them.
pub open spec fn create_personal_access_token_request_keys() -> Seq<Seq<char>> {
    seq!["name"@, "scopes"@, "expiresInDays"@]
}

/// The fields decode into exactly this value.
pub open spec fn create_personal_access_token_request_decodes_fields(fs: Seq<(Seq<char>, Json)>, x: CreatePersonalAccessTokenRequest) -> bool {
    &&& sget_str(fs, "name"@) == Some(x.name)
    &&& sget_opt_str_vec(fs, "scopes"@) == Some(opt_vec_view(x.scopes))
    &&& sget_opt_i32(fs, "expiresInDays"@) == Some(x.expires_in_days)
}

/// Every field is present with a decodable shape.
pub open spec fn create_personal_access_token_request_shape_ok(fs: Seq<(Seq<char>, Json)>) -> bool {
    &&& sget_str(fs, "name"@) is Some
    &&& sget_opt_str_vec(fs, "scopes"@) is Some
    &&& sget_opt_i32(fs, "expiresInDays"@) is Some
}

/// The JSON value decodes into exactly this value.
pub open spec fn create_personal_access_token_request_decodes_to(j: Json, x: CreatePersonalAccessTokenRequest) -> bool {
    match j {
        Json::Obj(fields) => create_personal_access_token_request_decodes_fields(obj_view(fields@), x),
        _ => false,
    }
}

/// The JSON value has the shape this record decodes from.
pub open spec fn create_personal_access_token_request_json_ok(j: Json) -> bool {
    match j {
        Json::Obj(fields) => create_personal_access_token_request_shape_ok(obj_view(fields@)),
        _ => false,
    }
}

impl CreatePersonalAccessTokenRequest {
    /// Encodes to the wire object: exactly the keys of `create_personal_access_token_request_keys`, in
    /// order; decoding the result yields this value back.
    pub fn to_json(&self) -> (j: Json)
        ensures
            (j matches Json::Obj(fields) && field_keys(fields@) == create_personal_access_token_request_keys()),
            create_personal_access_token_request_decodes_to(j, *self),
    {
        let mut fields: Vec<(String, Json)> = Vec::new();
        push_field(&mut fields, "name", Json::Str(self.name.clone()));
        push_field(&mut fields, "scopes", opt_strs_to_json(&self.scopes));
        push_field(&mut fields, "expiresInDays", opt_i32_to_json(&self.expires_in_days));
        proof {
            reveal_strlit("name");
            reveal_strlit("scopes");
            reveal_strlit("expiresInDays");
            assert("name"@.len() == 4);
            assert("scopes"@.len() == 6);
            assert("expiresInDays"@.len() == 13);
            assert(field_keys(fields@) =~= create_personal_access_token_request_keys());
            let fs = obj_view(fields@);
            assert(fs.len() == 3);
            assert(fs[0].0 == "name"@);
            assert(fs[1].0 == "scopes"@);
            assert(fs[2].0 == "expiresInDays"@);
            lemma_obj_get_found(fs, "name"@, 0);
            lemma_obj_get_found(fs, "scopes"@, 1);
            lemma_obj_get_found(fs, "expiresInDays"@, 2);
            if let Some(n) = self.expires_in_days {
                crate::num::lemma_parse_dec_i32(n);
            }
            assert(sget_str(fs, "name"@) == Some(self.name));
            assert(sget_opt_str_vec(fs, "scopes"@) == Some(opt_vec_view(self.scopes)));
            assert(sget_opt_i32(fs, "expiresInDays"@) == Some(self.expires_in_days));
            assert(create_personal_access_token_request_decodes_fields(fs, *self));
        }
        Json::Obj(fields)
    }

    /// Decodes from a JSON value; `None` on any shape mismatch.
    pub fn from_json(j: &Json) -> (r: Option<CreatePersonalAccessTokenRequest>)
        ensures
            (match r {
                Some(x) => create_personal_access_token_request_decodes_to(*j, x),
                None => !create_personal_access_token_request_json_ok(*j),
            }),
    {
        match j {
            Json::Obj(fields) => {
                let name = match get_str(fields, "name") {
                    Some(v) => v,
                    None => {
                        return None;
                    },
                };
                let scopes = match get_opt_str_vec(fields, "scopes") {
                    Some(v) => v,
                    None => {
                        return None;
                    },
                };
                let expires_in_days = match get_opt_i32(fields, "expiresInDays") {
                    Some(v) => v,
                    None => {
                        return None;
                    },
                };
                Some(
                    CreatePersonalAccessTokenRequest {
                        name, scopes, expires_in_days,
                    },
                )
            },
            _ => None,
        }
    }
}
/// A freshly created token with its one-time secret.
#[derive(Clone, Debug, PartialEq)]
pub struct CreatePersonalAccessTokenResponse {
    pub token: PersonalAccessToken,
    pub secret: String,
}

/// The wire keys of this record, in the order the client writes them.
pub open spec fn create_personal_access_token_response_keys() -> Seq<Seq<char>> {
    seq!["token"@, "secret"@]
}

/// The fields decode into exactly this value.
pub open spec fn create_personal_access_token_response_decodes_fields(fs: Seq<(Seq<char>, Json)>, x: CreatePersonalAccessTokenResponse) -> bool {
    &&& (match obj_get(fs, "token"@) {
        Some(v) => personal_access_token_decodes_to(v, x.token),
        _ => false,
    })
    &&& sget_str(fs, "secret"@) == Some(x.secret)
}

/// Every field is present with a decodable shape.
pub open spec fn create_personal_access_token_response_shape_ok(fs: Seq<(Seq<char>, Json)>) -> bool {
    &&& (match obj_get(fs, "token"@) {
        Some(v) => personal_access_token_json_ok(v),
        _ => false,
    })
    &&& sget_str(fs, "secret"@) is Some
}

/// The JSON value decodes into exactly this value.
pub open spec fn create_personal_access_token_response_decodes_to(j: Json, x: CreatePersonalAccessTokenResponse) -> bool {
    match j {
        Json::Obj(fields) => create_personal_access_token_response_decodes_fields(obj_view(fields@), x),
        _ => false,
    }
}

/// The JSON value has the shape this record decodes from.
pub open spec fn create_personal_access_token_response_json_ok(j: Json) -> bool {
    match j {
        Json::Obj(fields) => create_personal_access_token_response_shape_ok(obj_view(fields@)),
        _ => false,
    }
}

impl CreatePersonalAccessTokenResponse {
    /// Encodes to the wire object: exactly the keys of `create_personal_access_token_response_keys`, in
    /// order; decoding the result yields this value back.
    pub fn to_json(&self) -> (j: Json)
        ensures
            (j matches Json::Obj(fields) && field_keys(fields@) == create_personal_access_token_response_keys()),
            create_personal_access_token_response_decodes_to(j, *self),
    {
        let mut fields: Vec<(String, Json)> = Vec::new();
        push_field(&mut fields, "token", self.token.to_json());
        push_field(&mut fields, "secret", Json::Str(self.secret.clone()));
        proof {
            reveal_strlit("token");
            reveal_strlit("secret");
            assert("token"@.len() == 5);
            assert("secret"@.len() == 6);
            assert(field_keys(fields@) =~= create_personal_access_token_response_keys());
            let fs = obj_view(fields@);
            assert(fs.len() == 2);
            assert(fs[0].0 == "token"@);
            assert(fs[1].0 == "secret"@);
            lemma_obj_get_found(fs, "token"@, 0);
            lemma_obj_get_found(fs, "secret"@, 1);
            assert((match obj_get(fs, "token"@) {
        Some(v) => personal_access_token_decodes_to(v, self.token),
        _ => false,
    }));
            assert(sget_str(fs, "secret"@) == Some(self.secret));
            assert(create_personal_access_token_response_decodes_fields(fs, *self));
        }
        Json::Obj(fields)
    }

    /// Decodes from a JSON value; `None` on any shape mismatch.
    pub fn from_json(j: &Json) -> (r: Option<CreatePersonalAccessTokenResponse>)
        ensures
            (match r {
                Some(x) => create_personal_access_token_response_decodes_to(*j, x),
                None => !create_personal_access_token_response_json_ok(*j),
            }),
    {
        match j {
            Json::Obj(fields) => {
                let token = match get_json(fields, "token") {
                    Some(v) => match PersonalAccessToken::from_json(v) {
                        Some(v) => v,
                        None => {
                            return None;
                        },
                    },
                    None => {
                        return None;
                    },
                };
                let secret = match get_str(fields, "secret") {
                    Some(v) => v,
                    None => {
                        return None;
                    },
                };
                Some(
                    CreatePersonalAccessTokenResponse {
                        token, secret,
                    },
                )
            },
            _ => None,
        }
    }
}

/// Each array element decodes to the corresponding token.
pub open spec fn personal_access_tokens_decode_to(
    items: Seq<Json>,
    ts: Seq<PersonalAccessToken>,
) -> bool {
    &&& items.len() == ts.len()
    &&& forall|i: int|
        0 <= i < items.len() ==> personal_access_token_decodes_to(#[trigger] items[i], ts[i])
}

/// Every array element has a token's shape.
pub open spec fn personal_access_tokens_ok(items: Seq<Json>) -> bool {
    forall|i: int| 0 <= i < items.len() ==> personal_access_token_json_ok(#[trigger] items[i])
}

/// The token list as the service nests it.
#[derive(Clone, Debug, PartialEq)]
pub struct PersonalAccessTokenListResponse {
    pub tokens: Vec<PersonalAccessToken>,
}

/// The wire keys of this record.
pub open spec fn personal_access_token_list_response_keys() -> Seq<Seq<char>> {
    seq!["tokens"@]
}

/// The fields decode into exactly this value.
pub open spec fn personal_access_token_list_response_decodes_fields(
    fs: Seq<(Seq<char>, Json)>,
    x: PersonalAccessTokenListResponse,
) -> bool {
    match obj_get(fs, "tokens"@) {
        Some(Json::Arr(items)) => personal_access_tokens_decode_to(items@, x.tokens@),
        _ => false,
    }
}

/// The field is present with a decodable shape.
pub open spec fn personal_access_token_list_response_shape_ok(fs: Seq<(Seq<char>, Json)>) -> bool {
    match obj_get(fs, "tokens"@) {
        Some(Json::Arr(items)) => personal_access_tokens_ok(items@),
        _ => false,
    }
}

/// The JSON value decodes into exactly this value.
pub open spec fn personal_access_token_list_response_decodes_to(
    j: Json,
    x: PersonalAccessTokenListResponse,
) -> bool {
    match j {
        Json::Obj(fields) => personal_access_token_list_response_decodes_fields(
            obj_view(fields@),
            x,
        ),
        _ => false,
    }
}

/// The JSON value has the shape this record decodes from.
pub open spec fn personal_access_token_list_response_json_ok(j: Json) -> bool {
    match j {
        Json::Obj(fields) => personal_access_token_list_response_shape_ok(obj_view(fields@)),
        _ => false,
    }
}

impl PersonalAccessTokenListResponse {
    /// Encodes to the wire object; decoding the result yields this value
    /// back.
    pub fn to_json(&self) -> (j: Json)
        ensures
            (j matches Json::Obj(fields) && field_keys(fields@)
                == personal_access_token_list_response_keys()),
            personal_access_token_list_response_decodes_to(j, *self),
    {
        let mut items: Vec<Json> = Vec::new();
        let mut i: usize = 0;
        while i < self.tokens.len()
            invariant
                i <= self.tokens@.len(),
                items@.len() == i,
                personal_access_tokens_decode_to(items@, self.tokens@.take(i as int)),
            decreases self.tokens@.len() - i,
        {
            items.push(self.tokens[i].to_json());
            proof {
                assert(self.tokens@.take(i + 1) =~= self.tokens@.take(i as int) + seq![
                    self.tokens@[i as int],
                ]);
                assert(personal_access_tokens_decode_to(items@, self.tokens@.take(i + 1)));
            }
            i += 1;
        }
        proof {
            assert(self.tokens@.take(self.tokens@.len() as int) =~= self.tokens@);
        }
        let mut fields: Vec<(String, Json)> = Vec::new();
        push_field(&mut fields, "tokens", Json::Arr(items));
        proof {
            reveal_strlit("tokens");
            assert(field_keys(fields@) =~= personal_access_token_list_response_keys());
            let fs = obj_view(fields@);
            assert(fs[0].0 == "tokens"@);
            lemma_obj_get_found(fs, "tokens"@, 0);
        }
        Json::Obj(fields)
    }

    /// Decodes from a JSON value; `None` on any shape mismatch.
    #[verifier::loop_isolation(false)]
    pub fn from_json(j: &Json) -> (r: Option<PersonalAccessTokenListResponse>)
        ensures
            (match r {
                Some(x) => personal_access_token_list_response_decodes_to(*j, x),
                None => !personal_access_token_list_response_json_ok(*j),
            }),
    {
        match j {
            Json::Obj(fields) => {
                match get_json(fields, "tokens") {
                    Some(v) => match v {
                        Json::Arr(items) => {
                            let mut tokens: Vec<PersonalAccessToken> = Vec::new();
                            let mut i: usize = 0;
                            while i < items.len()
                                invariant
                                    i <= items@.len(),
                                    tokens@.len() == i,
                                    personal_access_tokens_decode_to(
                                        items@.take(i as int),
                                        tokens@,
                                    ),
                                decreases items@.len() - i,
                            {
                                match PersonalAccessToken::from_json(&items[i]) {
                                    Some(t) => {
                                        tokens.push(t);
                                    },
                                    None => {
                                        proof {
                                            assert(!personal_access_token_json_ok(
                                                items@[i as int],
                                            ));
                                        }
                                        return None;
                                    },
                                }
                                proof {
                                    assert(items@.take(i + 1) =~= items@.take(i as int) + seq![
                                        items@[i as int],
                                    ]);
                                    assert(personal_access_tokens_decode_to(
                                        items@.take(i + 1),
                                        tokens@,
                                    ));
                                }
                                i += 1;
                            }
                            proof {
                                assert(items@.take(items@.len() as int) =~= items@);
                            }
                            Some(PersonalAccessTokenListResponse { tokens })
                        },
                        _ => None,
                    },
                    None => None,
                }
            },
            _ => None,
        }
    }
}

} // verus!
