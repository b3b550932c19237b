//! Imagery: upload staging, processing status, and listings.
use vstd::prelude::*;
use vstd::string::StringExecFns;

use crate::json::Decimal;
use crate::json::Json;
use crate::json::field_keys;
use crate::json::sget_i32;
use crate::json::get_i32;
use crate::json::sget_dec;
use crate::json::get_dec;
use crate::json::get_json;
use crate::json::dec_rows_of_items;
use crate::json::dec_rows_to_json;
use crate::json::dec_rows_ok;
use crate::json::dec_rows_decode_to;
use crate::json::get_i64;
use crate::json::get_opt_dec;
use crate::json::get_opt_i32;
use crate::json::get_opt_i64;
use crate::json::get_opt_str;
use crate::json::get_str;
use crate::json::i32_to_json;
use crate::json::i64_to_json;
use crate::json::lemma_obj_get_found;
use crate::json::obj_get;
use crate::json::obj_view;
use crate::json::opt_dec_to_json;
use crate::json::opt_i32_to_json;
use crate::json::opt_i64_to_json;
use crate::json::opt_str_to_json;
use crate::json::opt_vec_view;
use crate::json::push_field;
use crate::json::sget_i64;
use crate::json::sget_opt_dec;
use crate::json::sget_opt_i32;
use crate::json::sget_opt_i64;
use crate::json::sget_opt_str;
use crate::json::sget_str;

verus! {

/// A request to stage an image upload.
#[derive(Clone, Debug, PartialEq)]
pub struct ImageUploadRequest {
    pub filename: String,
    pub telescope_id: String,
    pub filesize: i64,
    pub task_id: Option<String>,
    pub field_of_view_deg: Option<Decimal>,
    pub source_limit: Option<i32>,
}

/// The wire keys of this record, in the order the client writes them.
pub open spec fn image_upload_request_keys() -> Seq<Seq<char>> {
    seq!["filename"@, "telescopeId"@, "filesize"@, "taskId"@, "fieldOfViewDeg"@, "sourceLimit"@]
}

/// Decodes from an object's fields.
pub open spec fn image_upload_request_from_fields(fs: Seq<(Seq<char>, Json)>) -> Option<ImageUploadRequest> {
    if {
        &&& sget_str(fs, "filename"@) is Some
        &&& sget_str(fs, "telescopeId"@) is Some
        &&& sget_i64(fs, "filesize"@) is Some
        &&& sget_opt_str(fs, "taskId"@) is Some
        &&& sget_opt_dec(fs, "fieldOfViewDeg"@) is Some
        &&& sget_opt_i32(fs, "sourceLimit"@) is Some
    } {
        Some(
            ImageUploadRequest {
                filename: sget_str(fs, "filename"@).unwrap(),
                telescope_id: sget_str(fs, "telescopeId"@).unwrap(),
                filesize: sget_i64(fs, "filesize"@).unwrap(),
                task_id: sget_opt_str(fs, "taskId"@).unwrap(),
                field_of_view_deg: sget_opt_dec(fs, "fieldOfViewDeg"@).unwrap(),
                source_limit: sget_opt_i32(fs, "sourceLimit"@).unwrap(),
            },
        )
    } else {
        None
    }
}

/// Decodes from a JSON value.
pub open spec fn image_upload_request_from_json(j: Json) -> Option<ImageUploadRequest> {
    match j {
        Json::Obj(fields) => image_upload_request_from_fields(obj_view(fields@)),
        _ => None,
    }
}

impl ImageUploadRequest {
    /// Encodes to the wire object: exactly the keys of `image_upload_request_keys`, in
    /// order; decoding the result yields this value back.
    pub fn to_json(&self) -> (j: Json)
        ensures
            (j matches Json::Obj(fields) && field_keys(fields@) == image_upload_request_keys()),
            image_upload_request_from_json(j) == Some(*self),
    {
        let mut fields: Vec<(String, Json)> = Vec::new();
        push_field(&mut fields, "filename", Json::Str(self.filename.clone()));
        push_field(&mut fields, "telescopeId", Json::Str(self.telescope_id.clone()));
        push_field(&mut fields, "filesize", i64_to_json(self.filesize));
        push_field(&mut fields, "taskId", opt_str_to_json(&self.task_id));
        push_field(&mut fields, "fieldOfViewDeg", opt_dec_to_json(&self.field_of_view_deg));
        push_field(&mut fields, "sourceLimit", opt_i32_to_json(&self.source_limit));
        proof {
            reveal_strlit("filename");
            reveal_strlit("telescopeId");
            reveal_strlit("filesize");
            reveal_strlit("taskId");
            reveal_strlit("fieldOfViewDeg");
            reveal_strlit("sourceLimit");
            assert("filename"@.len() == 8);
            assert("telescopeId"@.len() == 11);
            assert("filesize"@.len() == 8);
            assert("taskId"@.len() == 6);
            assert("fieldOfViewDeg"@.len() == 14);
            assert("sourceLimit"@.len() == 11);
            assert("filename"@[4] == 'n');
            assert("filesize"@[4] == 's');
            assert("telescopeId"@[0] == 't');
            assert("sourceLimit"@[0] == 's');
            assert(field_keys(fields@) =~= image_upload_request_keys());
            let fs = obj_view(fields@);
            assert(fs.len() == 6);
            assert(fs[0].0 == "filename"@);
            assert(fs[1].0 == "telescopeId"@);
            assert(fs[2].0 == "filesize"@);
            assert(fs[3].0 == "taskId"@);
            assert(fs[4].0 == "fieldOfViewDeg"@);
            assert(fs[5].0 == "sourceLimit"@);
            lemma_obj_get_found(fs, "filename"@, 0);
            lemma_obj_get_found(fs, "telescopeId"@, 1);
            lemma_obj_get_found(fs, "filesize"@, 2);
            lemma_obj_get_found(fs, "taskId"@, 3);
            lemma_obj_get_found(fs, "fieldOfViewDeg"@, 4);
            lemma_obj_get_found(fs, "sourceLimit"@, 5);
            crate::num::lemma_parse_dec_i64(self.filesize);
            if let Some(n) = self.source_limit {
                crate::num::lemma_parse_dec_i32(n);
            }
            assert(sget_str(fs, "filename"@) == Some(self.filename));
            assert(sget_str(fs, "telescopeId"@) == Some(self.telescope_id));
            assert(sget_i64(fs, "filesize"@) == Some(self.filesize));
            assert(sget_opt_str(fs, "taskId"@) == Some(self.task_id));
            assert(sget_opt_dec(fs, "fieldOfViewDeg"@) == Some(self.field_of_view_deg));
            assert(sget_opt_i32(fs, "sourceLimit"@) == Some(self.source_limit));
            assert(image_upload_request_from_fields(fs) == Some(*self));
        }
        Json::Obj(fields)
    }

    /// Decodes from a JSON value; `None` on any shape mismatch.
    pub fn from_json(j: &Json) -> (r: Option<ImageUploadRequest>)
        ensures
            r == image_upload_request_from_json(*j),
    {
        match j {
            Json::Obj(fields) => {
                let filename = match get_str(fields, "filename") {
                    Some(v) => v,
                    None => {
                        return None;
                    },
                };
                let telescope_id = match get_str(fields, "telescopeId") {
                    Some(v) => v,
                    None => {
                        return None;
                    },
                };
                let filesize = match get_i64(fields, "filesize") {
                    Some(v) => v,
                    None => {
                        return None;
                    },
                };
                let task_id = match get_opt_str(fields, "taskId") {
                    Some(v) => v,
                    None => {
                        return None;
                    },
                };
                let field_of_view_deg = match get_opt_dec(fields, "fieldOfViewDeg") {
                    Some(v) => v,
                    None => {
                        return None;
                    },
                };
                let source_limit = match get_opt_i32(fields, "sourceLimit") {
                    Some(v) => v,
                    None => {
                        return None;
                    },
                };
                Some(
                    ImageUploadRequest {
                        filename, telescope_id, filesize, task_id, field_of_view_deg,
                        source_limit,
                    },
                )
            },
            _ => None,
        }
    }
}

/// The staged upload the service hands back.
#[derive(Clone, Debug, PartialEq)]
pub struct ImageUploadResponse {
    pub upload_id: String,
    pub presigned_url: String,
    pub expires_at: String,
}

/// The wire keys of this record, in the order the client writes them.
pub open spec fn image_upload_response_keys() -> Seq<Seq<char>> {
    seq!["uploadId"@, "presignedUrl"@, "expiresAt"@]
}

/// Decodes from an object's fields.
pub open spec fn image_upload_response_from_fields(fs: Seq<(Seq<char>, Json)>) -> Option<ImageUploadResponse> {
    if {
        &&& sget_str(fs, "uploadId"@) is Some
        &&& sget_str(fs, "presignedUrl"@) is Some
        &&& sget_str(fs, "expiresAt"@) is Some
    } {
        Some(
            ImageUploadResponse {
                upload_id: sget_str(fs, "uploadId"@).unwrap(),
                presigned_url: sget_str(fs, "presignedUrl"@).unwrap(),
                expires_at: sget_str(fs, "expiresAt"@).unwrap(),
            },
        )
    } else {
        None
    }
}

/// Decodes from a JSON value.
pub open spec fn image_upload_response_from_json(j: Json) -> Option<ImageUploadResponse> {
    match j {
        Json::Obj(fields) => image_upload_response_from_fields(obj_view(fields@)),
        _ => None,
    }
}

impl ImageUploadResponse {
    /// Encodes to the wire object: exactly the keys of `image_upload_response_keys`, in
    /// order; decoding the result yields this value back.
    pub fn to_json(&self) -> (j: Json)
        ensures
            (j matches Json::Obj(fields) && field_keys(fields@) == image_upload_response_keys()),
            image_upload_response_from_json(j) == Some(*self),
    {
        let mut fields: Vec<(String, Json)> = Vec::new();
        push_field(&mut fields, "uploadId", Json::Str(self.upload_id.clone()));
        push_field(&mut fields, "presignedUrl", Json::Str(self.presigned_url.clone()));
        push_field(&mut fields, "expiresAt", Json::Str(self.expires_at.clone()));
        proof {
            reveal_strlit("uploadId");
            reveal_strlit("presignedUrl");
            reveal_strlit("expiresAt");
            assert("uploadId"@.len() == 8);
            assert("presignedUrl"@.len() == 12);
            assert("expiresAt"@.len() == 9);
            assert(field_keys(fields@) =~= image_upload_response_keys());
            let fs = obj_view(fields@);
            assert(fs.len() == 3);
            assert(fs[0].0 == "uploadId"@);
            assert(fs[1].0 == "presignedUrl"@);
            assert(fs[2].0 == "expiresAt"@);
            lemma_obj_get_found(fs, "uploadId"@, 0);
            lemma_obj_get_found(fs, "presignedUrl"@, 1);
            lemma_obj_get_found(fs, "expiresAt"@, 2);
            assert(sget_str(fs, "uploadId"@) == Some(self.upload_id));
            assert(sget_str(fs, "presignedUrl"@) == Some(self.presigned_url));
            assert(sget_str(fs, "expiresAt"@) == Some(self.expires_at));
            assert(image_upload_response_from_fields(fs) == Some(*self));
        }
        Json::Obj(fields)
    }

    /// Decodes from a JSON value; `None` on any shape mismatch.
    pub fn from_json(j: &Json) -> (r: Option<ImageUploadResponse>)
        ensures
            r == image_upload_response_from_json(*j),
    {
        match j {
            Json::Obj(fields) => {
                let upload_id = match get_str(fields, "uploadId") {
                    Some(v) => v,
                    None => {
                        return None;
                    },
                };
                let presigned_url = match get_str(fields, "presignedUrl") {
                    Some(v) => v,
                    None => {
                        return None;
                    },
                };
                let expires_at = match get_str(fields, "expiresAt") {
                    Some(v) => v,
                    None => {
                        return None;
                    },
                };
                Some(
                    ImageUploadResponse {
                        upload_id, presigned_url, expires_at,
                    },
                )
            },
            _ => None,
        }
    }
}

/// The processing state of an uploaded image.
#[derive(Clone, Debug, PartialEq)]
pub struct ImageStatus {
    pub upload_id: String,
    pub filename: String,
    pub telescope_id: String,
    pub telescope_name: Option<String>,
    pub task_id: Option<String>,
    pub user_id: String,
    pub status: String,
    pub processing_stage: Option<String>,
    pub error_message: Option<String>,
    pub source_count: Option<i32>,
    pub satellite_count: Option<i32>,
    pub filesize: i64,
    pub created_at: String,
    pub updated_at: Option<String>,
    pub processed_at: Option<String>,
}

/// The wire keys of this record, in the order the client writes them.
pub open spec fn image_status_keys() -> Seq<Seq<char>> {
    seq!["uploadId"@, "filename"@, "telescopeId"@, "telescopeName"@, "taskId"@, "userId"@, "status"@, "processingStage"@, "errorMessage"@, "sourceCount"@, "satelliteCount"@, "filesize"@, "creationEpoch"@, "updateEpoch"@, "processedEpoch"@]
}

/// Decodes from an object's fields.
pub open spec fn image_status_from_fields(fs: Seq<(Seq<char>, Json)>) -> Option<ImageStatus> {
    if {
        &&& sget_str(fs, "uploadId"@) is Some
        &&& sget_str(fs, "filename"@) is Some
        &&& sget_str(fs, "telescopeId"@) is Some
        &&& sget_opt_str(fs, "telescopeName"@) is Some
        &&& sget_opt_str(fs, "taskId"@) is Some
        &&& sget_str(fs, "userId"@) is Some
        &&& sget_str(fs, "status"@) is Some
        &&& sget_opt_str(fs, "processingStage"@) is Some
        &&& sget_opt_str(fs, "errorMessage"@) is Some
        &&& sget_opt_i32(fs, "sourceCount"@) is Some
        &&& sget_opt_i32(fs, "satelliteCount"@) is Some
        &&& sget_i64(fs, "filesize"@) is Some
        &&& sget_str(fs, "creationEpoch"@) is Some
        &&& sget_opt_str(fs, "updateEpoch"@) is Some
        &&& sget_opt_str(fs, "processedEpoch"@) is Some
    } {
        Some(
            ImageStatus {
                upload_id: sget_str(fs, "uploadId"@).unwrap(),
                filename: sget_str(fs, "filename"@).unwrap(),
                telescope_id: sget_str(fs, "telescopeId"@).unwrap(),
                telescope_name: sget_opt_str(fs, "telescopeName"@).unwrap(),
                task_id: sget_opt_str(fs, "taskId"@).unwrap(),
                user_id: sget_str(fs, "userId"@).unwrap(),
                status: sget_str(fs, "status"@).unwrap(),
                processing_stage: sget_opt_str(fs, "processingStage"@).unwrap(),
                error_message: sget_opt_str(fs, "errorMessage"@).unwrap(),
                source_count: sget_opt_i32(fs, "sourceCount"@).unwrap(),
                satellite_count: sget_opt_i32(fs, "satelliteCount"@).unwrap(),
                filesize: sget_i64(fs, "filesize"@).unwrap(),
                created_at: sget_str(fs, "creationEpoch"@).unwrap(),
                updated_at: sget_opt_str(fs, "updateEpoch"@).unwrap(),
                processed_at: sget_opt_str(fs, "processedEpoch"@).unwrap(),
            },
        )
    } else {
        None
    }
}

/// Decodes from a JSON value.
pub open spec fn image_status_from_json(j: Json) -> Option<ImageStatus> {
    match j {
        Json::Obj(fields) => image_status_from_fields(obj_view(fields@)),
        _ => None,
    }
}

impl ImageStatus {
    /// Encodes to the wire object: exactly the keys of `image_status_keys`, in
    /// order; decoding the result yields this value back.
    pub fn to_json(&self) -> (j: Json)
        ensures
            (j matches Json::Obj(fields) && field_keys(fields@) == image_status_keys()),
            image_status_from_json(j) == Some(*self),
    {
        let mut fields: Vec<(String, Json)> = Vec::new();
        push_field(&mut fields, "uploadId", Json::Str(self.upload_id.clone()));
        push_field(&mut fields, "filename", Json::Str(self.filename.clone()));
        push_field(&mut fields, "telescopeId", Json::Str(self.telescope_id.clone()));
        push_field(&mut fields, "telescopeName", opt_str_to_json(&self.telescope_name));
        push_field(&mut fields, "taskId", opt_str_to_json(&self.task_id));
        push_field(&mut fields, "userId", Json::Str(self.user_id.clone()));
        push_field(&mut fields, "status", Json::Str(self.status.clone()));
        push_field(&mut fields, "processingStage", opt_str_to_json(&self.processing_stage));
        push_field(&mut fields, "errorMessage", opt_str_to_json(&self.error_message));
        push_field(&mut fields, "sourceCount", opt_i32_to_json(&self.source_count));
        push_field(&mut fields, "satelliteCount", opt_i32_to_json(&self.satellite_count));
        push_field(&mut fields, "filesize", i64_to_json(self.filesize));
        push_field(&mut fields, "creationEpoch", Json::Str(self.created_at.clone()));
        push_field(&mut fields, "updateEpoch", opt_str_to_json(&self.updated_at));
        push_field(&mut fields, "processedEpoch", opt_str_to_json(&self.processed_at));
        proof {
            reveal_strlit("uploadId");
            reveal_strlit("filename");
            reveal_strlit("telescopeId");
            reveal_strlit("telescopeName");
            reveal_strlit("taskId");
            reveal_strlit("userId");
            reveal_strlit("status");
            reveal_strlit("processingStage");
            reveal_strlit("errorMessage");
            reveal_strlit("sourceCount");
            reveal_strlit("satelliteCount");
            reveal_strlit("filesize");
            reveal_strlit("creationEpoch");
            reveal_strlit("updateEpoch");
            reveal_strlit("processedEpoch");
            assert("uploadId"@.len() == 8);
            assert("filename"@.len() == 8);
            assert("telescopeId"@.len() == 11);
            assert("telescopeName"@.len() == 13);
            assert("taskId"@.len() == 6);
            assert("userId"@.len() == 6);
            assert("status"@.len() == 6);
            assert("processingStage"@.len() == 15);
            assert("errorMessage"@.len() == 12);
            assert("sourceCount"@.len() == 11);
            assert("satelliteCount"@.len() == 14);
            assert("filesize"@.len() == 8);
            assert("creationEpoch"@.len() == 13);
            assert("updateEpoch"@.len() == 11);
            assert("processedEpoch"@.len() == 14);
            assert("uploadId"@[0] == 'u');
            assert("filename"@[0] == 'f');
            assert("filesize"@[0] == 'f');
            assert("filename"@[4] == 'n');
            assert("filesize"@[4] == 's');
            assert("telescopeId"@[0] == 't');
            assert("sourceCount"@[0] == 's');
            assert("updateEpoch"@[0] == 'u');
            assert("telescopeName"@[0] == 't');
            assert("creationEpoch"@[0] == 'c');
            assert("taskId"@[0] == 't');
            assert("userId"@[0] == 'u');
            assert("status"@[0] == 's');
            assert("satelliteCount"@[0] == 's');
            assert("processedEpoch"@[0] == 'p');
            assert(field_keys(fields@) =~= image_status_keys());
            let fs = obj_view(fields@);
            assert(fs.len() == 15);
            assert(fs[0].0 == "uploadId"@);
            assert(fs[1].0 == "filename"@);
            assert(fs[2].0 == "telescopeId"@);
            assert(fs[3].0 == "telescopeName"@);
            assert(fs[4].0 == "taskId"@);
            assert(fs[5].0 == "userId"@);
            assert(fs[6].0 == "status"@);
            assert(fs[7].0 == "processingStage"@);
            assert(fs[8].0 == "errorMessage"@);
            assert(fs[9].0 == "sourceCount"@);
            assert(fs[10].0 == "satelliteCount"@);
            assert(fs[11].0 == "filesize"@);
            assert(fs[12].0 == "creationEpoch"@);
            assert(fs[13].0 == "updateEpoch"@);
            assert(fs[14].0 == "processedEpoch"@);
            lemma_obj_get_found(fs, "uploadId"@, 0);
            lemma_obj_get_found(fs, "filename"@, 1);
            lemma_obj_get_found(fs, "telescopeId"@, 2);
            lemma_obj_get_found(fs, "telescopeName"@, 3);
            lemma_obj_get_found(fs, "taskId"@, 4);
            lemma_obj_get_found(fs, "userId"@, 5);
            lemma_obj_get_found(fs, "status"@, 6);
            lemma_obj_get_found(fs, "processingStage"@, 7);
            lemma_obj_get_found(fs, "errorMessage"@, 8);
            lemma_obj_get_found(fs, "sourceCount"@, 9);
            lemma_obj_get_found(fs, "satelliteCount"@, 10);
            lemma_obj_get_found(fs, "filesize"@, 11);
            lemma_obj_get_found(fs, "creationEpoch"@, 12);
            lemma_obj_get_found(fs, "updateEpoch"@, 13);
            lemma_obj_get_found(fs, "processedEpoch"@, 14);
            if let Some(n) = self.source_count {
                crate::num::lemma_parse_dec_i32(n);
            }
            if let Some(n) = self.satellite_count {
                crate::num::lemma_parse_dec_i32(n);
            }
            crate::num::lemma_parse_dec_i64(self.filesize);
            assert(sget_str(fs, "uploadId"@) == Some(self.upload_id));
            assert(sget_str(fs, "filename"@) == Some(self.filename));
            assert(sget_str(fs, "telescopeId"@) == Some(self.telescope_id));
            assert(sget_opt_str(fs, "telescopeName"@) == Some(self.telescope_name));
            assert(sget_opt_str(fs, "taskId"@) == Some(self.task_id));
            assert(sget_str(fs, "userId"@) == Some(self.user_id));
            assert(sget_str(fs, "status"@) == Some(self.status));
            assert(sget_opt_str(fs, "processingStage"@) == Some(self.processing_stage));
            assert(sget_opt_str(fs, "errorMessage"@) == Some(self.error_message));
            assert(sget_opt_i32(fs, "sourceCount"@) == Some(self.source_count));
            assert(sget_opt_i32(fs, "satelliteCount"@) == Some(self.satellite_count));
            assert(sget_i64(fs, "filesize"@) == Some(self.filesize));
            assert(sget_str(fs, "creationEpoch"@) == Some(self.created_at));
            assert(sget_opt_str(fs, "updateEpoch"@) == Some(self.updated_at));
            assert(sget_opt_str(fs, "processedEpoch"@) == Some(self.processed_at));
            assert(image_status_from_fields(fs) == Some(*self));
        }
        Json::Obj(fields)
    }

    /// Decodes from a JSON value; `None` on any shape mismatch.
    pub fn from_json(j: &Json) -> (r: Option<ImageStatus>)
        ensures
            r == image_status_from_json(*j),
    {
        match j {
            Json::Obj(fields) => {
                let upload_id = match get_str(fields, "uploadId") {
                    Some(v) => v,
                    None => {
                        return None;
                    },
                };
                let filename = match get_str(fields, "filename") {
                    Some(v) => v,
                    None => {
                        return None;
                    },
                };
                let telescope_id = match get_str(fields, "telescopeId") {
                    Some(v) => v,
                    None => {
                        return None;
                    },
                };
                let telescope_name = match get_opt_str(fields, "telescopeName") {
                    Some(v) => v,
                    None => {
                        return None;
                    },
                };
                let task_id = match get_opt_str(fields, "taskId") {
                    Some(v) => v,
                    None => {
                        return None;
                    },
                };
                let user_id = match get_str(fields, "userId") {
                    Some(v) => v,
                    None => {
                        return None;
                    },
                };
                let status = match get_str(fields, "status") {
                    Some(v) => v,
                    None => {
                        return None;
                    },
                };
                let processing_stage = match get_opt_str(fields, "processingStage") {
                    Some(v) => v,
                    None => {
                        return None;
                    },
                };
                let error_message = match get_opt_str(fields, "errorMessage") {
                    Some(v) => v,
                    None => {
                        return None;
                    },
                };
                let source_count = match get_opt_i32(fields, "sourceCount") {
                    Some(v) => v,
                    None => {
                        return None;
                    },
                };
                let satellite_count = match get_opt_i32(fields, "satelliteCount") {
                    Some(v) => v,
                    None => {
                        return None;
                    },
                };
                let filesize = match get_i64(fields, "filesize") {
                    Some(v) => v,
                    None => {
                        return None;
                    },
                };
                let created_at = match get_str(fields, "creationEpoch") {
                    Some(v) => v,
                    None => {
                        return None;
                    },
                };
                let updated_at = match get_opt_str(fields, "updateEpoch") {
                    Some(v) => v,
                    None => {
                        return None;
                    },
                };
                let processed_at = match get_opt_str(fields, "processedEpoch") {
                    Some(v) => v,
                    None => {
                        return None;
                    },
                };
                Some(
                    ImageStatus {
                        upload_id, filename, telescope_id, telescope_name, task_id, user_id,
                        status, processing_stage, error_message, source_count, satellite_count,
                        filesize, created_at, updated_at, processed_at,
                    },
                )
            },
            _ => None,
        }
    }
}

/// Decodes each element of a JSON array.
pub open spec fn image_statuses_from_arr(items: Seq<Json>) -> Option<Seq<ImageStatus>>
    decreases items.len(),
{
    if items.len() == 0 {
        Some(Seq::empty())
    } else {
        match image_statuses_from_arr(items.drop_last()) {
            Some(init) => match image_status_from_json(items.last()) {
                Some(x) => Some(init + seq![x]),
                None => None,
            },
            None => None,
        }
    }
}

/// Decodes a JSON array of these records.
pub open spec fn image_status_vec_from_json(j: Json) -> Option<Seq<ImageStatus>> {
    match j {
        Json::Arr(items) => image_statuses_from_arr(items@),
        _ => None,
    }
}

proof fn lemma_image_statuses_from_arr_fails(items: Seq<Json>, i: int)
    requires
        0 <= i < items.len(),
        image_status_from_json(items[i]) is None,
    ensures
        image_statuses_from_arr(items) is None,
    decreases items.len(),
{
    if items.len() > 0 {
        if i < items.len() - 1 {
            assert(items.drop_last()[i] == items[i]);
            lemma_image_statuses_from_arr_fails(items.drop_last(), i);
        }
    }
}

/// Decodes a JSON array of these records; `None` on any mismatch.
#[verifier::loop_isolation(false)]
pub fn image_statuses_from_json(j: &Json) -> (r: Option<Vec<ImageStatus>>)
    ensures
        opt_vec_view(r) == image_status_vec_from_json(*j),
{
    match j {
        Json::Arr(items) => {
            let mut out: Vec<ImageStatus> = Vec::new();
            let mut i: usize = 0;
            while i < items.len()
                invariant
                    i <= items@.len(),
                    image_statuses_from_arr(items@.take(i as int)) == Some(out@),
                decreases items@.len() - i,
            {
                match ImageStatus::from_json(&items[i]) {
                    Some(x) => {
                        out.push(x);
                    },
                    None => {
                        proof {
                            lemma_image_statuses_from_arr_fails(items@, i as int);
                        }
                        return None;
                    },
                }
                proof {
                    let t = items@.take(i + 1);
                    assert(t.drop_last() =~= items@.take(i as int));
                    assert(t.last() == items@[i as int]);
                }
                i += 1;
            }
            proof {
                assert(items@.take(items@.len() as int) =~= items@);
            }
            Some(out)
        },
        _ => None,
    }
}

/// Rendering options when fetching image pixel data.
#[derive(Clone, Debug, PartialEq)]
pub struct ImageDataRequest {
    pub binning: Option<i32>,
    pub contrast: Option<String>,
}

/// The wire keys of this record, in the order the client writes them.
pub open spec fn image_data_request_keys() -> Seq<Seq<char>> {
    seq!["binning"@, "contrast"@]
}

/// Decodes from an object's fields.
pub open spec fn image_data_request_from_fields(fs: Seq<(Seq<char>, Json)>) -> Option<ImageDataRequest> {
    if {
        &&& sget_opt_i32(fs, "binning"@) is Some
        &&& sget_opt_str(fs, "contrast"@) is Some
    } {
        Some(
            ImageDataRequest {
                binning: sget_opt_i32(fs, "binning"@).unwrap(),
                contrast: sget_opt_str(fs, "contrast"@).unwrap(),
            },
        )
    } else {
        None
    }
}

/// Decodes from a JSON value.
pub open spec fn image_data_request_from_json(j: Json) -> Option<ImageDataRequest> {
    match j {
        Json::Obj(fields) => image_data_request_from_fields(obj_view(fields@)),
        _ => None,
    }
}

impl ImageDataRequest {
    /// Encodes to the wire object: exactly the keys of `image_data_request_keys`, in
    /// order; decoding the result yields this value back.
    pub fn to_json(&self) -> (j: Json)
        ensures
            (j matches Json::Obj(fields) && field_keys(fields@) == image_data_request_keys()),
            image_data_request_from_json(j) == Some(*self),
    {
        let mut fields: Vec<(String, Json)> = Vec::new();
        push_field(&mut fields, "binning", opt_i32_to_json(&self.binning));
        push_field(&mut fields, "contrast", opt_str_to_json(&self.contrast));
        proof {
            reveal_strlit("binning");
            reveal_strlit("contrast");
            assert("binning"@.len() == 7);
            assert("contrast"@.len() == 8);
            assert(field_keys(fields@) =~= image_data_request_keys());
            let fs = obj_view(fields@);
            assert(fs.len() == 2);
            assert(fs[0].0 == "binning"@);
            assert(fs[1].0 == "contrast"@);
            lemma_obj_get_found(fs, "binning"@, 0);
            lemma_obj_get_found(fs, "contrast"@, 1);
            if let Some(n) = self.binning {
                crate::num::lemma_parse_dec_i32(n);
            }
            assert(sget_opt_i32(fs, "binning"@) == Some(self.binning));
            assert(sget_opt_str(fs, "contrast"@) == Some(self.contrast));
            assert(image_data_request_from_fields(fs) == Some(*self));
        }
        Json::Obj(fields)
    }

    /// Decodes from a JSON value; `None` on any shape mismatch.
    pub fn from_json(j: &Json) -> (r: Option<ImageDataRequest>)
        ensures
            r == image_data_request_from_json(*j),
    {
        match j {
            Json::Obj(fields) => {
                let binning = match get_opt_i32(fields, "binning") {
                    Some(v) => v,
                    None => {
                        return None;
                    },
                };
                let contrast = match get_opt_str(fields, "contrast") {
                    Some(v) => v,
                    None => {
                        return None;
                    },
                };
                Some(
                    ImageDataRequest {
                        binning, contrast,
                    },
                )
            },
            _ => None,
        }
    }
}

/// Optional filters when listing images.
#[derive(Clone, Debug, PartialEq)]
pub struct ImageListQuery {
    pub offset: Option<i64>,
    pub limit: Option<i64>,
    pub status: Option<String>,
}

/// The wire keys of this record, in the order the client writes them.
pub open spec fn image_list_query_keys() -> Seq<Seq<char>> {
    seq!["offset"@, "limit"@, "status"@]
}

/// Decodes from an object's fields.
pub open spec fn image_list_query_from_fields(fs: Seq<(Seq<char>, Json)>) -> Option<ImageListQuery> {
    if {
        &&& sget_opt_i64(fs, "offset"@) is Some
        &&& sget_opt_i64(fs, "limit"@) is Some
        &&& sget_opt_str(fs, "status"@) is Some
    } {
        Some(
            ImageListQuery {
                offset: sget_opt_i64(fs, "offset"@).unwrap(),
                limit: sget_opt_i64(fs, "limit"@).unwrap(),
                status: sget_opt_str(fs, "status"@).unwrap(),
            },
        )
    } else {
        None
    }
}

/// Decodes from a JSON value.
pub open spec fn image_list_query_from_json(j: Json) -> Option<ImageListQuery> {
    match j {
        Json::Obj(fields) => image_list_query_from_fields(obj_view(fields@)),
        _ => None,
    }
}

impl ImageListQuery {
    /// Encodes to the wire object: exactly the keys of `image_list_query_keys`, in
    /// order; decoding the result yields this value back.
    pub fn to_json(&self) -> (j: Json)
        ensures
            (j matches Json::Obj(fields) && field_keys(fields@) == image_list_query_keys()),
            image_list_query_from_json(j) == Some(*self),
    {
        let mut fields: Vec<(String, Json)> = Vec::new();
        push_field(&mut fields, "offset", opt_i64_to_json(&self.offset));
        push_field(&mut fields, "limit", opt_i64_to_json(&self.limit));
        push_field(&mut fields, "status", opt_str_to_json(&self.status));
        proof {
            reveal_strlit("offset");
            reveal_strlit("limit");
            reveal_strlit("status");
            assert("offset"@.len() == 6);
            assert("limit"@.len() == 5);
            assert("status"@.len() == 6);
            assert("offset"@[0] == 'o');
            assert("status"@[0] == 's');
            assert(field_keys(fields@) =~= image_list_query_keys());
            let fs = obj_view(fields@);
            assert(fs.len() == 3);
            assert(fs[0].0 == "offset"@);
            assert(fs[1].0 == "limit"@);
            assert(fs[2].0 == "status"@);
            lemma_obj_get_found(fs, "offset"@, 0);
            lemma_obj_get_found(fs, "limit"@, 1);
            lemma_obj_get_found(fs, "status"@, 2);
            if let Some(n) = self.offset {
                crate::num::lemma_parse_dec_i64(n);
            }
            if let Some(n) = self.limit {
                crate::num::lemma_parse_dec_i64(n);
            }
            assert(sget_opt_i64(fs, "offset"@) == Some(self.offset));
            assert(sget_opt_i64(fs, "limit"@) == Some(self.limit));
            assert(sget_opt_str(fs, "status"@) == Some(self.status));
            assert(image_list_query_from_fields(fs) == Some(*self));
        }
        Json::Obj(fields)
    }

    /// Decodes from a JSON value; `None` on any shape mismatch.
    pub fn from_json(j: &Json) -> (r: Option<ImageListQuery>)
        ensures
            r == image_list_query_from_json(*j),
    {
        match j {
            Json::Obj(fields) => {
                let offset = match get_opt_i64(fields, "offset") {
                    Some(v) => v,
                    None => {
                        return None;
                    },
                };
                let limit = match get_opt_i64(fields, "limit") {
                    Some(v) => v,
                    None => {
                        return None;
                    },
                };
                let status = match get_opt_str(fields, "status") {
                    Some(v) => v,
                    None => {
                        return None;
                    },
                };
                Some(
                    ImageListQuery {
                        offset, limit, status,
                    },
                )
            },
            _ => None,
        }
    }
}

/// Rendered pixel data of an image: rows of decimal samples.
#[derive(Clone, Debug, PartialEq)]
pub struct ImageData {
    pub upload_id: String,
    pub width: i32,
    pub height: i32,
    pub data: Vec<Vec<Decimal>>,
    pub min_value: Decimal,
    pub max_value: Decimal,
}

/// The wire keys of this record, in the order the client writes them.
pub open spec fn image_data_keys() -> Seq<Seq<char>> {
    seq!["uploadId"@, "width"@, "height"@, "data"@, "minValue"@, "maxValue"@]
}

/// The fields decode into exactly this value.
pub open spec fn image_data_decodes_fields(fs: Seq<(Seq<char>, Json)>, x: ImageData) -> bool {
    &&& sget_str(fs, "uploadId"@) == Some(x.upload_id)
    &&& sget_i32(fs, "width"@) == Some(x.width)
    &&& sget_i32(fs, "height"@) == Some(x.height)
    &&& (match obj_get(fs, "data"@) {
        Some(Json::Arr(items)) => dec_rows_decode_to(items@, x.data@),
        _ => false,
    })
    &&& sget_dec(fs, "minValue"@) == Some(x.min_value)
    &&& sget_dec(fs, "maxValue"@) == Some(x.max_value)
}

/// Every field is present with a decodable shape.
pub open spec fn image_data_shape_ok(fs: Seq<(Seq<char>, Json)>) -> bool {
    &&& sget_str(fs, "uploadId"@) is Some
    &&& sget_i32(fs, "width"@) is Some
    &&& sget_i32(fs, "height"@) is Some
    &&& (match obj_get(fs, "data"@) {
        Some(Json::Arr(items)) => dec_rows_ok(items@),
        _ => false,
    })
    &&& sget_dec(fs, "minValue"@) is Some
    &&& sget_dec(fs, "maxValue"@) is Some
}

/// The JSON value decodes into exactly this value.
pub open spec fn image_data_decodes_to(j: Json, x: ImageData) -> bool {
    match j {
        Json::Obj(fields) => image_data_decodes_fields(obj_view(fields@), x),
        _ => false,
    }
}

/// The JSON value has the shape this record decodes from.
pub open spec fn image_data_json_ok(j: Json) -> bool {
    match j {
        Json::Obj(fields) => image_data_shape_ok(obj_view(fields@)),
        _ => false,
    }
}

impl ImageData {
    /// Encodes to the wire object: exactly the keys of `image_data_keys`, in
    /// order; decoding the result yields this value back.
    pub fn to_json(&self) -> (j: Json)
        ensures
            (j matches Json::Obj(fields) && field_keys(fields@) == image_data_keys()),
            image_data_decodes_to(j, *self),
    {
        let mut fields: Vec<(String, Json)> = Vec::new();
        push_field(&mut fields, "uploadId", Json::Str(self.upload_id.clone()));
        push_field(&mut fields, "width", i32_to_json(self.width));
        push_field(&mut fields, "height", i32_to_json(self.height));
        push_field(&mut fields, "data", dec_rows_to_json(&self.data));
        push_field(&mut fields, "minValue", Json::Num(self.min_value.text.clone()));
        push_field(&mut fields, "maxValue", Json::Num(self.max_value.text.clone()));
        proof {
            reveal_strlit("uploadId");
            reveal_strlit("width");
            reveal_strlit("height");
            reveal_strlit("data");
            reveal_strlit("minValue");
            reveal_strlit("maxValue");
            assert("uploadId"@.len() == 8);
            assert("width"@.len() == 5);
            assert("height"@.len() == 6);
            assert("data"@.len() == 4);
            assert("minValue"@.len() == 8);
            assert("maxValue"@.len() == 8);
            assert("uploadId"@[0] == 'u');
            assert("minValue"@[0] == 'm' && "minValue"@[1] == 'i');
            assert("maxValue"@[0] == 'm' && "maxValue"@[1] == 'a');
            assert(field_keys(fields@) =~= image_data_keys());
            let fs = obj_view(fields@);
            assert(fs.len() == 6);
            assert(fs[0].0 == "uploadId"@);
            assert(fs[1].0 == "width"@);
            assert(fs[2].0 == "height"@);
            assert(fs[3].0 == "data"@);
            assert(fs[4].0 == "minValue"@);
            assert(fs[5].0 == "maxValue"@);
            lemma_obj_get_found(fs, "uploadId"@, 0);
            lemma_obj_get_found(fs, "width"@, 1);
            lemma_obj_get_found(fs, "height"@, 2);
            lemma_obj_get_found(fs, "data"@, 3);
            lemma_obj_get_found(fs, "minValue"@, 4);
            lemma_obj_get_found(fs, "maxValue"@, 5);
            crate::num::lemma_parse_dec_i32(self.width);
            crate::num::lemma_parse_dec_i32(self.height);
            assert(image_data_decodes_fields(fs, *self));
        }
        Json::Obj(fields)
    }

    /// Decodes from a JSON value; `None` on any shape mismatch.
    pub fn from_json(j: &Json) -> (r: Option<ImageData>)
        ensures
            (match r {
                Some(x) => image_data_decodes_to(*j, x),
                None => !image_data_json_ok(*j),
            }),
    {
        match j {
            Json::Obj(fields) => {
                let upload_id = match get_str(fields, "uploadId") {
                    Some(v) => v,
                    None => {
                        return None;
                    },
                };
                let width = match get_i32(fields, "width") {
                    Some(v) => v,
                    None => {
                        return None;
                    },
                };
                let height = match get_i32(fields, "height") {
                    Some(v) => v,
                    None => {
                        return None;
                    },
                };
                let data = match get_json(fields, "data") {
                    Some(v) => match v {
                        Json::Arr(items) => match dec_rows_of_items(items) {
                            Some(rows) => rows,
                            None => {
                                return None;
                            },
                        },
                        _ => {
                            return None;
                        },
                    },
                    None => {
                        return None;
                    },
                };
                let min_value = match get_dec(fields, "minValue") {
                    Some(v) => v,
                    None => {
                        return None;
                    },
                };
                let max_value = match get_dec(fields, "maxValue") {
                    Some(v) => v,
                    None => {
                        return None;
                    },
                };
                Some(ImageData { upload_id, width, height, data, min_value, max_value })
            },
            _ => None,
        }
    }
}

} // verus!
