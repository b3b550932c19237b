//! Radio-frequency captures: recorded spectra and detections.
use vstd::prelude::*;
use vstd::string::StringExecFns;

use crate::json::Decimal;
use crate::json::Json;
use crate::json::decs_to_json;
use crate::json::field_keys;
use crate::json::get_dec;
use crate::json::get_dec_vec;
use crate::json::get_i64;
use crate::json::get_i64_vec;
use crate::json::get_json;
use crate::json::get_opt_str;
use crate::json::get_str;
use crate::json::get_usize;
use crate::json::i64_to_json;
use crate::json::i64s_to_json;
use crate::json::lemma_obj_get_found;
use crate::json::obj_get;
use crate::json::obj_view;
use crate::json::opt_str_to_json;
use crate::json::opt_vec_view;
use crate::json::push_field;
use crate::json::sget_dec;
use crate::json::sget_dec_vec;
use crate::json::sget_i64;
use crate::json::sget_i64_vec;
use crate::json::sget_opt_str;
use crate::json::sget_str;
use crate::json::sget_usize;
use crate::json::usize_to_json;

verus! {

/// One signal detected inside a radio-frequency capture.
#[derive(Clone, Debug, PartialEq)]
pub struct RFDetection {
    pub center_frequency_hz: i64,
    pub bandwidth_hz: i64,
    pub strength_dbm: Decimal,
    pub snr_db: Decimal,
}

/// The wire keys of this record, in the order the client writes them.
pub open spec fn rf_detection_keys() -> Seq<Seq<char>> {
    seq!["centerFrequencyHz"@, "bandwidthHz"@, "strengthDbm"@, "snrDb"@]
}

/// Decodes from an object's fields.
pub open spec fn rf_detection_from_fields(fs: Seq<(Seq<char>, Json)>) -> Option<RFDetection> {
    if {
        &&& sget_i64(fs, "centerFrequencyHz"@) is Some
        &&& sget_i64(fs, "bandwidthHz"@) is Some
        &&& sget_dec(fs, "strengthDbm"@) is Some
        &&& sget_dec(fs, "snrDb"@) is Some
    } {
        Some(
            RFDetection {
                center_frequency_hz: sget_i64(fs, "centerFrequencyHz"@).unwrap(),
                bandwidth_hz: sget_i64(fs, "bandwidthHz"@).unwrap(),
                strength_dbm: sget_dec(fs, "strengthDbm"@).unwrap(),
                snr_db: sget_dec(fs, "snrDb"@).unwrap(),
            },
        )
    } else {
        None
    }
}

/// Decodes from a JSON value.
pub open spec fn rf_detection_from_json(j: Json) -> Option<RFDetection> {
    match j {
        Json::Obj(fields) => rf_detection_from_fields(obj_view(fields@)),
        _ => None,
    }
}

impl RFDetection {
    /// Encodes to the wire object: exactly the keys of `rf_detection_keys`, in
    /// order; decoding the result yields this value back.
    pub fn to_json(&self) -> (j: Json)
        ensures
            (j matches Json::Obj(fields) && field_keys(fields@) == rf_detection_keys()),
            rf_detection_from_json(j) == Some(*self),
    {
        let mut fields: Vec<(String, Json)> = Vec::new();
        push_field(&mut fields, "centerFrequencyHz", i64_to_json(self.center_frequency_hz));
        push_field(&mut fields, "bandwidthHz", i64_to_json(self.bandwidth_hz));
        push_field(&mut fields, "strengthDbm", Json::Num(self.strength_dbm.text.clone()));
        push_field(&mut fields, "snrDb", Json::Num(self.snr_db.text.clone()));
        proof {
            reveal_strlit("centerFrequencyHz");
            reveal_strlit("bandwidthHz");
            reveal_strlit("strengthDbm");
            reveal_strlit("snrDb");
            assert("centerFrequencyHz"@.len() == 17);
            assert("bandwidthHz"@.len() == 11);
            assert("strengthDbm"@.len() == 11);
            assert("snrDb"@.len() == 5);
            assert("bandwidthHz"@[0] == 'b');
            assert("strengthDbm"@[0] == 's');
            assert(field_keys(fields@) =~= rf_detection_keys());
            let fs = obj_view(fields@);
            assert(fs.len() == 4);
            assert(fs[0].0 == "centerFrequencyHz"@);
            assert(fs[1].0 == "bandwidthHz"@);
            assert(fs[2].0 == "strengthDbm"@);
            assert(fs[3].0 == "snrDb"@);
            lemma_obj_get_found(fs, "centerFrequencyHz"@, 0);
            lemma_obj_get_found(fs, "bandwidthHz"@, 1);
            lemma_obj_get_found(fs, "strengthDbm"@, 2);
            lemma_obj_get_found(fs, "snrDb"@, 3);
            crate::num::lemma_parse_dec_i64(self.center_frequency_hz);
            crate::num::lemma_parse_dec_i64(self.bandwidth_hz);
            assert(sget_i64(fs, "centerFrequencyHz"@) == Some(self.center_frequency_hz));
            assert(sget_i64(fs, "bandwidthHz"@) == Some(self.bandwidth_hz));
            assert(sget_dec(fs, "strengthDbm"@) == Some(self.strength_dbm));
            assert(sget_dec(fs, "snrDb"@) == Some(self.snr_db));
            assert(rf_detection_from_fields(fs) == Some(*self));
        }
        Json::Obj(fields)
    }

    /// Decodes from a JSON value; `None` on any shape mismatch.
    pub fn from_json(j: &Json) -> (r: Option<RFDetection>)
        ensures
            r == rf_detection_from_json(*j),
    {
        match j {
            Json::Obj(fields) => {
                let center_frequency_hz = match get_i64(fields, "centerFrequencyHz") {
                    Some(v) => v,
                    None => {
                        return None;
                    },
                };
                let bandwidth_hz = match get_i64(fields, "bandwidthHz") {
                    Some(v) => v,
                    None => {
                        return None;
                    },
                };
                let strength_dbm = match get_dec(fields, "strengthDbm") {
                    Some(v) => v,
                    None => {
                        return None;
                    },
                };
                let snr_db = match get_dec(fields, "snrDb") {
                    Some(v) => v,
                    None => {
                        return None;
                    },
                };
                Some(
                    RFDetection {
                        center_frequency_hz, bandwidth_hz, strength_dbm, snr_db,
                    },
                )
            },
            _ => None,
        }
    }
}

/// Decodes each element of a JSON array.
pub open spec fn rf_detections_from_arr(items: Seq<Json>) -> Option<Seq<RFDetection>>
    decreases items.len(),
{
    if items.len() == 0 {
        Some(Seq::empty())
    } else {
        match rf_detections_from_arr(items.drop_last()) {
            Some(init) => match rf_detection_from_json(items.last()) {
                Some(x) => Some(init + seq![x]),
                None => None,
            },
            None => None,
        }
    }
}

/// Decodes a JSON array of these records.
pub open spec fn rf_detection_vec_from_json(j: Json) -> Option<Seq<RFDetection>> {
    match j {
        Json::Arr(items) => rf_detections_from_arr(items@),
        _ => None,
    }
}

proof fn lemma_rf_detections_from_arr_fails(items: Seq<Json>, i: int)
    requires
        0 <= i < items.len(),
        rf_detection_from_json(items[i]) is None,
    ensures
        rf_detections_from_arr(items) is None,
    decreases items.len(),
{
    if items.len() > 0 {
        if i < items.len() - 1 {
            assert(items.drop_last()[i] == items[i]);
            lemma_rf_detections_from_arr_fails(items.drop_last(), i);
        }
    }
}

/// Decodes a JSON array of these records; `None` on any mismatch.
#[verifier::loop_isolation(false)]
pub fn rf_detections_from_json(j: &Json) -> (r: Option<Vec<RFDetection>>)
    ensures
        opt_vec_view(r) == rf_detection_vec_from_json(*j),
{
    match j {
        Json::Arr(items) => {
            let mut out: Vec<RFDetection> = Vec::new();
            let mut i: usize = 0;
            while i < items.len()
                invariant
                    i <= items@.len(),
                    rf_detections_from_arr(items@.take(i as int)) == Some(out@),
                decreases items@.len() - i,
            {
                match RFDetection::from_json(&items[i]) {
                    Some(x) => {
                        out.push(x);
                    },
                    None => {
                        proof {
                            lemma_rf_detections_from_arr_fails(items@, i as int);
                        }
                        return None;
                    },
                }
                proof {
                    let t = items@.take(i + 1);
                    assert(t.drop_last() =~= items@.take(i as int));
                    assert(t.last() == items@[i as int]);
                }
                i += 1;
            }
            proof {
                assert(items@.take(items@.len() as int) =~= items@);
            }
            Some(out)
        },
        _ => None,
    }
}

/// Builds the JSON array of these records; decoding it yields the same
/// records back.
pub fn rf_detections_to_json(v: &Vec<RFDetection>) -> (j: Json)
    ensures
        (j matches Json::Arr(items) && rf_detections_from_arr(items@) == Some(v@) && items@.len() == v@.len()),
{
    let mut items: Vec<Json> = Vec::new();
    let mut i: usize = 0;
    while i < v.len()
        invariant
            i <= v@.len(),
            items@.len() == i,
            rf_detections_from_arr(items@) == Some(v@.take(i as int)),
        decreases v@.len() - i,
    {
        let ghost prev = items@;
        items.push(v[i].to_json());
        proof {
            assert(items@.drop_last() =~= prev);
            assert(v@.take(i + 1) =~= v@.take(i as int) + seq![v@[i as int]]);
        }
        i += 1;
    }
    proof {
        assert(v@.take(v@.len() as int) =~= v@);
    }
    Json::Arr(items)
}

/// The sampled power spectral density of a capture.
#[derive(Clone, Debug, PartialEq)]
pub struct RFPowerSpectralDensity {
    pub frequency_hz: Vec<i64>,
    pub power_dbm_per_hz: Vec<Decimal>,
}

/// The wire keys of this record, in the order the client writes them.
pub open spec fn rf_power_spectral_density_keys() -> Seq<Seq<char>> {
    seq!["frequencyHz"@, "powerDbmPerHz"@]
}

/// The fields decode into exactly this value.
pub open spec fn rf_power_spectral_density_decodes_fields(fs: Seq<(Seq<char>, Json)>, x: RFPowerSpectralDensity) -> bool {
    &&& sget_i64_vec(fs, "frequencyHz"@) == Some(x.frequency_hz@)
    &&& sget_dec_vec(fs, "powerDbmPerHz"@) == Some(x.power_dbm_per_hz@)
}

/// Every field is present with a decodable shape.
pub open spec fn rf_power_spectral_density_shape_ok(fs: Seq<(Seq<char>, Json)>) -> bool {
    &&& sget_i64_vec(fs, "frequencyHz"@) is Some
    &&& sget_dec_vec(fs, "powerDbmPerHz"@) is Some
}

/// The JSON value decodes into exactly this value.
pub open spec fn rf_power_spectral_density_decodes_to(j: Json, x: RFPowerSpectralDensity) -> bool {
    match j {
        Json::Obj(fields) => rf_power_spectral_density_decodes_fields(obj_view(fields@), x),
        _ => false,
    }
}

/// The JSON value has the shape this record decodes from.
pub open spec fn rf_power_spectral_density_json_ok(j: Json) -> bool {
    match j {
        Json::Obj(fields) => rf_power_spectral_density_shape_ok(obj_view(fields@)),
        _ => false,
    }
}

impl RFPowerSpectralDensity {
    /// Encodes to the wire object: exactly the keys of `rf_power_spectral_density_keys`, in
    /// order; decoding the result yields this value back.
    pub fn to_json(&self) -> (j: Json)
        ensures
            (j matches Json::Obj(fields) && field_keys(fields@) == rf_power_spectral_density_keys()),
            rf_power_spectral_density_decodes_to(j, *self),
    {
        let mut fields: Vec<(String, Json)> = Vec::new();
        push_field(&mut fields, "frequencyHz", i64s_to_json(&self.frequency_hz));
        push_field(&mut fields, "powerDbmPerHz", decs_to_json(&self.power_dbm_per_hz));
        proof {
            reveal_strlit("frequencyHz");
            reveal_strlit("powerDbmPerHz");
            assert("frequencyHz"@.len() == 11);
            assert("powerDbmPerHz"@.len() == 13);
            assert(field_keys(fields@) =~= rf_power_spectral_density_keys());
            let fs = obj_view(fields@);
            assert(fs.len() == 2);
            assert(fs[0].0 == "frequencyHz"@);
            assert(fs[1].0 == "powerDbmPerHz"@);
            lemma_obj_get_found(fs, "frequencyHz"@, 0);
            lemma_obj_get_found(fs, "powerDbmPerHz"@, 1);
            assert(sget_i64_vec(fs, "frequencyHz"@) == Some(self.frequency_hz@));
            assert(sget_dec_vec(fs, "powerDbmPerHz"@) == Some(self.power_dbm_per_hz@));
            assert(rf_power_spectral_density_decodes_fields(fs, *self));
        }
        Json::Obj(fields)
    }

    /// Decodes from a JSON value; `None` on any shape mismatch.
    pub fn from_json(j: &Json) -> (r: Option<RFPowerSpectralDensity>)
        ensures
            (match r {
                Some(x) => rf_power_spectral_density_decodes_to(*j, x),
                None => !rf_power_spectral_density_json_ok(*j),
            }),
    {
        match j {
            Json::Obj(fields) => {
                let frequency_hz = match get_i64_vec(fields, "frequencyHz") {
                    Some(v) => v,
                    None => {
                        return None;
                    },
                };
                let power_dbm_per_hz = match get_dec_vec(fields, "powerDbmPerHz") {
                    Some(v) => v,
                    None => {
                        return None;
                    },
                };
                Some(
                    RFPowerSpectralDensity {
                        frequency_hz, power_dbm_per_hz,
                    },
                )
            },
            _ => None,
        }
    }
}

/// The payload of a radio-frequency capture.
#[derive(Clone, Debug, PartialEq)]
pub struct RFCaptureData {
    pub detections: Vec<RFDetection>,
    pub power_spectral_density: RFPowerSpectralDensity,
}

/// The wire keys of this record, in the order the client writes them.
pub open spec fn rf_capture_data_keys() -> Seq<Seq<char>> {
    seq!["detections"@, "powerSpectralDensity"@]
}

/// The fields decode into exactly this value.
pub open spec fn rf_capture_data_decodes_fields(fs: Seq<(Seq<char>, Json)>, x: RFCaptureData) -> bool {
    &&& (match obj_get(fs, "detections"@) {
        Some(Json::Arr(items)) => rf_detections_from_arr(items@) == Some(x.detections@),
        _ => false,
    })
    &&& (match obj_get(fs, "powerSpectralDensity"@) {
        Some(v) => rf_power_spectral_density_decodes_to(v, x.power_spectral_density),
        _ => false,
    })
}

/// Every field is present with a decodable shape.
pub open spec fn rf_capture_data_shape_ok(fs: Seq<(Seq<char>, Json)>) -> bool {
    &&& (match obj_get(fs, "detections"@) {
        Some(Json::Arr(items)) => rf_detections_from_arr(items@) is Some,
        _ => false,
    })
    &&& (match obj_get(fs, "powerSpectralDensity"@) {
        Some(v) => rf_power_spectral_density_json_ok(v),
        _ => false,
    })
}

/// The JSON value decodes into exactly this value.
pub open spec fn rf_capture_data_decodes_to(j: Json, x: RFCaptureData) -> bool {
    match j {
        Json::Obj(fields) => rf_capture_data_decodes_fields(obj_view(fields@), x),
        _ => false,
    }
}

/// The JSON value has the shape this record decodes from.
pub open spec fn rf_capture_data_json_ok(j: Json) -> bool {
    match j {
        Json::Obj(fields) => rf_capture_data_shape_ok(obj_view(fields@)),
        _ => false,
    }
}

impl RFCaptureData {
    /// Encodes to the wire object: exactly the keys of `rf_capture_data_keys`, in
    /// order; decoding the result yields this value back.
    pub fn to_json(&self) -> (j: Json)
        ensures
            (j matches Json::Obj(fields) && field_keys(fields@) == rf_capture_data_keys()),
            rf_capture_data_decodes_to(j, *self),
    {
        let mut fields: Vec<(String, Json)> = Vec::new();
        push_field(&mut fields, "detections", rf_detections_to_json(&self.detections));
        push_field(&mut fields, "powerSpectralDensity", self.power_spectral_density.to_json());
        proof {
            reveal_strlit("detections");
            reveal_strlit("powerSpectralDensity");
            assert("detections"@.len() == 10);
            assert("powerSpectralDensity"@.len() == 20);
            assert(field_keys(fields@) =~= rf_capture_data_keys());
            let fs = obj_view(fields@);
            assert(fs.len() == 2);
            assert(fs[0].0 == "detections"@);
            assert(fs[1].0 == "powerSpectralDensity"@);
            lemma_obj_get_found(fs, "detections"@, 0);
            lemma_obj_get_found(fs, "powerSpectralDensity"@, 1);
            assert((match obj_get(fs, "detections"@) {
        Some(Json::Arr(items)) => rf_detections_from_arr(items@) == Some(self.detections@),
        _ => false,
    }));
            assert((match obj_get(fs, "powerSpectralDensity"@) {
        Some(v) => rf_power_spectral_density_decodes_to(v, self.power_spectral_density),
        _ => false,
    }));
            assert(rf_capture_data_decodes_fields(fs, *self));
        }
        Json::Obj(fields)
    }

    /// Decodes from a JSON value; `None` on any shape mismatch.
    pub fn from_json(j: &Json) -> (r: Option<RFCaptureData>)
        ensures
            (match r {
                Some(x) => rf_capture_data_decodes_to(*j, x),
                None => !rf_capture_data_json_ok(*j),
            }),
    {
        match j {
            Json::Obj(fields) => {
                let detections = match get_json(fields, "detections") {
                    Some(v) => match rf_detections_from_json(v) {
                        Some(v) => v,
                        None => {
                            return None;
                        },
                    },
                    None => {
                        return None;
                    },
                };
                let power_spectral_density = match get_json(fields, "powerSpectralDensity") {
                    Some(v) => match RFPowerSpectralDensity::from_json(v) {
                        Some(v) => v,
                        None => {
                            return None;
                        },
                    },
                    None => {
                        return None;
                    },
                };
                Some(
                    RFCaptureData {
                        detections, power_spectral_density,
                    },
                )
            },
            _ => None,
        }
    }
}

/// The caller-settable fields of a new radio-frequency capture.
#[derive(Clone, Debug, PartialEq)]
pub struct CreateRFCaptureRequest {
    pub antenna_id: String,
    pub capture_start: String,
    pub capture_end: String,
    pub data: RFCaptureData,
    pub task_id: Option<String>,
}

/// The wire keys of this record, in the order the client writes them.
pub open spec fn create_rf_capture_request_keys() -> Seq<Seq<char>> {
    seq!["antennaId"@, "captureStart"@, "captureEnd"@, "data"@, "taskId"@]
}

/// The fields decode into exactly this value.
pub open spec fn create_rf_capture_request_decodes_fields(fs: Seq<(Seq<char>, Json)>, x: CreateRFCaptureRequest) -> bool {
    &&& sget_str(fs, "antennaId"@) == Some(x.antenna_id)
    &&& sget_str(fs, "captureStart"@) == Some(x.capture_start)
    &&& sget_str(fs, "captureEnd"@) == Some(x.capture_end)
    &&& (match obj_get(fs, "data"@) {
        Some(v) => rf_capture_data_decodes_to(v, x.data),
        _ => false,
    })
    &&& sget_opt_str(fs, "taskId"@) == Some(x.task_id)
}

/// Every field is present with a decodable shape.
pub open spec fn create_rf_capture_request_shape_ok(fs: Seq<(Seq<char>, Json)>) -> bool {
    &&& sget_str(fs, "antennaId"@) is Some
    &&& sget_str(fs, "captureStart"@) is Some
    &&& sget_str(fs, "captureEnd"@) is Some
    &&& (match obj_get(fs, "data"@) {
        Some(v) => rf_capture_data_json_ok(v),
        _ => false,
    })
    &&& sget_opt_str(fs, "taskId"@) is Some
}

/// The JSON value decodes into exactly this value.
pub open spec fn create_rf_capture_request_decodes_to(j: Json, x: CreateRFCaptureRequest) -> bool {
    match j {
        Json::Obj(fields) => create_rf_capture_request_decodes_fields(obj_view(fields@), x),
        _ => false,
    }
}

/// The JSON value has the shape this record decodes from.
pub open spec fn create_rf_capture_request_json_ok(j: Json) -> bool {
    match j {
        Json::Obj(fields) => create_rf_capture_request_shape_ok(obj_view(fields@)),
        _ => false,
    }
}

impl CreateRFCaptureRequest {
    /// Encodes to the wire object: exactly the keys of `create_rf_capture_request_keys`, in
    /// order; decoding the result yields this value back.
    pub fn to_json(&self) -> (j: Json)
        ensures
            (j matches Json::Obj(fields) && field_keys(fields@) == create_rf_capture_request_keys()),
            create_rf_capture_request_decodes_to(j, *self),
    {
        let mut fields: Vec<(String, Json)> = Vec::new();
        push_field(&mut fields, "antennaId", Json::Str(self.antenna_id.clone()));
        push_field(&mut fields, "captureStart", Json::Str(self.capture_start.clone()));
        push_field(&mut fields, "captureEnd", Json::Str(self.capture_end.clone()));
        push_field(&mut fields, "data", self.data.to_json());
        push_field(&mut fields, "taskId", opt_str_to_json(&self.task_id));
        proof {
            reveal_strlit("antennaId");
            reveal_strlit("captureStart");
            reveal_strlit("captureEnd");
            reveal_strlit("data");
            reveal_strlit("taskId");
            assert("antennaId"@.len() == 9);
            assert("captureStart"@.len() == 12);
            assert("captureEnd"@.len() == 10);
            assert("data"@.len() == 4);
            assert("taskId"@.len() == 6);
            assert(field_keys(fields@) =~= create_rf_capture_request_keys());
            let fs = obj_view(fields@);
            assert(fs.len() == 5);
            assert(fs[0].0 == "antennaId"@);
            assert(fs[1].0 == "captureStart"@);
            assert(fs[2].0 == "captureEnd"@);
            assert(fs[3].0 == "data"@);
            assert(fs[4].0 == "taskId"@);
            lemma_obj_get_found(fs, "antennaId"@, 0);
            lemma_obj_get_found(fs, "captureStart"@, 1);
            lemma_obj_get_found(fs, "captureEnd"@, 2);
            lemma_obj_get_found(fs, "data"@, 3);
            lemma_obj_get_found(fs, "taskId"@, 4);
            assert(sget_str(fs, "antennaId"@) == Some(self.antenna_id));
            assert(sget_str(fs, "captureStart"@) == Some(self.capture_start));
            assert(sget_str(fs, "captureEnd"@) == Some(self.capture_end));
            assert((match obj_get(fs, "data"@) {
        Some(v) => rf_capture_data_decodes_to(v, self.data),
        _ => false,
    }));
            assert(sget_opt_str(fs, "taskId"@) == Some(self.task_id));
            assert(create_rf_capture_request_decodes_fields(fs, *self));
        }
        Json::Obj(fields)
    }

    /// Decodes from a JSON value; `None` on any shape mismatch.
    pub fn from_json(j: &Json) -> (r: Option<CreateRFCaptureRequest>)
        ensures
            (match r {
                Some(x) => create_rf_capture_request_decodes_to(*j, x),
                None => !create_rf_capture_request_json_ok(*j),
            }),
    {
        match j {
            Json::Obj(fields) => {
                let antenna_id = match get_str(fields, "antennaId") {
                    Some(v) => v,
                    None => {
                        return None;
                    },
                };
                let capture_start = match get_str(fields, "captureStart") {
                    Some(v) => v,
                    None => {
                        return None;
                    },
                };
                let capture_end = match get_str(fields, "captureEnd") {
                    Some(v) => v,
                    None => {
                        return None;
                    },
                };
                let data = match get_json(fields, "data") {
                    Some(v) => match RFCaptureData::from_json(v) {
                        Some(v) => v,
                        None => {
                            return None;
                        },
                    },
                    None => {
                        return None;
                    },
                };
                let task_id = match get_opt_str(fields, "taskId") {
                    Some(v) => v,
                    None => {
                        return None;
                    },
                };
                Some(
                    CreateRFCaptureRequest {
                        antenna_id, capture_start, capture_end, data, task_id,
                    },
                )
            },
            _ => None,
        }
    }
}

/// A stored radio-frequency capture with its payload.
#[derive(Clone, Debug, PartialEq)]
pub struct RFCapture {
    pub id: String,
    pub antenna_id: String,
    pub user_id: String,
    pub capture_start: String,
    pub capture_end: String,
    pub data: RFCaptureData,
    pub detection_count: usize,
    pub task_id: Option<String>,
    pub created_at: String,
}

/// The wire keys of this record, in the order the client writes them.
pub open spec fn rf_capture_keys() -> Seq<Seq<char>> {
    seq!["id"@, "antennaId"@, "userId"@, "captureStart"@, "captureEnd"@, "data"@, "detectionCount"@, "taskId"@, "creationEpoch"@]
}

/// The fields decode into exactly this value.
pub open spec fn rf_capture_decodes_fields(fs: Seq<(Seq<char>, Json)>, x: RFCapture) -> bool {
    &&& sget_str(fs, "id"@) == Some(x.id)
    &&& sget_str(fs, "antennaId"@) == Some(x.antenna_id)
    &&& sget_str(fs, "userId"@) == Some(x.user_id)
    &&& sget_str(fs, "captureStart"@) == Some(x.capture_start)
    &&& sget_str(fs, "captureEnd"@) == Some(x.capture_end)
    &&& (match obj_get(fs, "data"@) {
        Some(v) => rf_capture_data_decodes_to(v, x.data),
        _ => false,
    })
    &&& sget_usize(fs, "detectionCount"@) == Some(x.detection_count)
    &&& sget_opt_str(fs, "taskId"@) == Some(x.task_id)
    &&& sget_str(fs, "creationEpoch"@) == Some(x.created_at)
}

/// Every field is present with a decodable shape.
pub open spec fn rf_capture_shape_ok(fs: Seq<(Seq<char>, Json)>) -> bool {
    &&& sget_str(fs, "id"@) is Some
    &&& sget_str(fs, "antennaId"@) is Some
    &&& sget_str(fs, "userId"@) is Some
    &&& sget_str(fs, "captureStart"@) is Some
    &&& sget_str(fs, "captureEnd"@) is Some
    &&& (match obj_get(fs, "data"@) {
        Some(v) => rf_capture_data_json_ok(v),
        _ => false,
    })
    &&& sget_usize(fs, "detectionCount"@) is Some
    &&& sget_opt_str(fs, "taskId"@) is Some
    &&& sget_str(fs, "creationEpoch"@) is Some
}

/// The JSON value decodes into exactly this value.
pub open spec fn rf_capture_decodes_to(j: Json, x: RFCapture) -> bool {
    match j {
        Json::Obj(fields) => rf_capture_decodes_fields(obj_view(fields@), x),
        _ => false,
    }
}

/// The JSON value has the shape this record decodes from.
pub open spec fn rf_capture_json_ok(j: Json) -> bool {
    match j {
        Json::Obj(fields) => rf_capture_shape_ok(obj_view(fields@)),
        _ => false,
    }
}

impl RFCapture {
    /// Encodes to the wire object: exactly the keys of `rf_capture_keys`, in
    /// order; decoding the result yields this value back.
    pub fn to_json(&self) -> (j: Json)
        ensures
            (j matches Json::Obj(fields) && field_keys(fields@) == rf_capture_keys()),
            rf_capture_decodes_to(j, *self),
    {
        let mut fields: Vec<(String, Json)> = Vec::new();
        push_field(&mut fields, "id", Json::Str(self.id.clone()));
        push_field(&mut fields, "antennaId", Json::Str(self.antenna_id.clone()));
        push_field(&mut fields, "userId", Json::Str(self.user_id.clone()));
        push_field(&mut fields, "captureStart", Json::Str(self.capture_start.clone()));
        push_field(&mut fields, "captureEnd", Json::Str(self.capture_end.clone()));
        push_field(&mut fields, "data", self.data.to_json());
        push_field(&mut fields, "detectionCount", usize_to_json(self.detection_count));
        push_field(&mut fields, "taskId", opt_str_to_json(&self.task_id));
        push_field(&mut fields, "creationEpoch", Json::Str(self.created_at.clone()));
        proof {
            reveal_strlit("id");
            reveal_strlit("antennaId");
            reveal_strlit("userId");
            reveal_strlit("captureStart");
            reveal_strlit("captureEnd");
            reveal_strlit("data");
            reveal_strlit("detectionCount");
            reveal_strlit("taskId");
            reveal_strlit("creationEpoch");
            assert("id"@.len() == 2);
            assert("antennaId"@.len() == 9);
            assert("userId"@.len() == 6);
            assert("captureStart"@.len() == 12);
            assert("captureEnd"@.len() == 10);
            assert("data"@.len() == 4);
            assert("detectionCount"@.len() == 14);
            assert("taskId"@.len() == 6);
            assert("creationEpoch"@.len() == 13);
            assert("userId"@[0] == 'u');
            assert("taskId"@[0] == 't');
            assert(field_keys(fields@) =~= rf_capture_keys());
            let fs = obj_view(fields@);
            assert(fs.len() == 9);
            assert(fs[0].0 == "id"@);
            assert(fs[1].0 == "antennaId"@);
            assert(fs[2].0 == "userId"@);
            assert(fs[3].0 == "captureStart"@);
            assert(fs[4].0 == "captureEnd"@);
            assert(fs[5].0 == "data"@);
            assert(fs[6].0 == "detectionCount"@);
            assert(fs[7].0 == "taskId"@);
            assert(fs[8].0 == "creationEpoch"@);
            lemma_obj_get_found(fs, "id"@, 0);
            lemma_obj_get_found(fs, "antennaId"@, 1);
            lemma_obj_get_found(fs, "userId"@, 2);
            lemma_obj_get_found(fs, "captureStart"@, 3);
            lemma_obj_get_found(fs, "captureEnd"@, 4);
            lemma_obj_get_found(fs, "data"@, 5);
            lemma_obj_get_found(fs, "detectionCount"@, 6);
            lemma_obj_get_found(fs, "taskId"@, 7);
            lemma_obj_get_found(fs, "creationEpoch"@, 8);
            crate::num::lemma_parse_dec_usize(self.detection_count);
            assert(sget_str(fs, "id"@) == Some(self.id));
            assert(sget_str(fs, "antennaId"@) == Some(self.antenna_id));
            assert(sget_str(fs, "userId"@) == Some(self.user_id));
            assert(sget_str(fs, "captureStart"@) == Some(self.capture_start));
            assert(sget_str(fs, "captureEnd"@) == Some(self.capture_end));
            assert((match obj_get(fs, "data"@) {
        Some(v) => rf_capture_data_decodes_to(v, self.data),
        _ => false,
    }));
            assert(sget_usize(fs, "detectionCount"@) == Some(self.detection_count));
            assert(sget_opt_str(fs, "taskId"@) == Some(self.task_id));
            assert(sget_str(fs, "creationEpoch"@) == Some(self.created_at));
            assert(rf_capture_decodes_fields(fs, *self));
        }
        Json::Obj(fields)
    }

    /// Decodes from a JSON value; `None` on any shape mismatch.
    pub fn from_json(j: &Json) -> (r: Option<RFCapture>)
        ensures
            (match r {
                Some(x) => rf_capture_decodes_to(*j, x),
                None => !rf_capture_json_ok(*j),
            }),
    {
        match j {
            Json::Obj(fields) => {
                let id = match get_str(fields, "id") {
                    Some(v) => v,
                    None => {
                        return None;
                    },
                };
                let antenna_id = match get_str(fields, "antennaId") {
                    Some(v) => v,
                    None => {
                        return None;
                    },
                };
                let user_id = match get_str(fields, "userId") {
                    Some(v) => v,
                    None => {
                        return None;
                    },
                };
                let capture_start = match get_str(fields, "captureStart") {
                    Some(v) => v,
                    None => {
                        return None;
                    },
                };
                let capture_end = match get_str(fields, "captureEnd") {
                    Some(v) => v,
                    None => {
                        return None;
                    },
                };
                let data = match get_json(fields, "data") {
                    Some(v) => match RFCaptureData::from_json(v) {
                        Some(v) => v,
                        None => {
                            return None;
                        },
                    },
                    None => {
                        return None;
                    },
                };
                let detection_count = match get_usize(fields, "detectionCount") {
                    Some(v) => v,
                    None => {
                        return None;
                    },
                };
                let task_id = match get_opt_str(fields, "taskId") {
                    Some(v) => v,
                    None => {
                        return None;
                    },
                };
                let created_at = match get_str(fields, "creationEpoch") {
                    Some(v) => v,
                    None => {
                        return None;
                    },
                };
                Some(
                    RFCapture {
                        id, antenna_id, user_id, capture_start, capture_end, data,
                        detection_count, task_id, created_at,
                    },
                )
            },
            _ => None,
        }
    }
}

/// A stored radio-frequency capture without its payload.
#[derive(Clone, Debug, PartialEq)]
pub struct RFCaptureSummary {
    pub id: String,
    pub antenna_id: String,
    pub user_id: String,
    pub capture_start: String,
    pub capture_end: String,
    pub detection_count: usize,
    pub task_id: Option<String>,
    pub created_at: String,
}

/// The wire keys of this record, in the order the client writes them.
pub open spec fn rf_capture_summary_keys() -> Seq<Seq<char>> {
    seq!["id"@, "antennaId"@, "userId"@, "captureStart"@, "captureEnd"@, "detectionCount"@, "taskId"@, "creationEpoch"@]
}

/// Decodes from an object's fields.
pub open spec fn rf_capture_summary_from_fields(fs: Seq<(Seq<char>, Json)>) -> Option<RFCaptureSummary> {
    if {
        &&& sget_str(fs, "id"@) is Some
        &&& sget_str(fs, "antennaId"@) is Some
        &&& sget_str(fs, "userId"@) is Some
        &&& sget_str(fs, "captureStart"@) is Some
        &&& sget_str(fs, "captureEnd"@) is Some
        &&& sget_usize(fs, "detectionCount"@) is Some
        &&& sget_opt_str(fs, "taskId"@) is Some
        &&& sget_str(fs, "creationEpoch"@) is Some
    } {
        Some(
            RFCaptureSummary {
                id: sget_str(fs, "id"@).unwrap(),
                antenna_id: sget_str(fs, "antennaId"@).unwrap(),
                user_id: sget_str(fs, "userId"@).unwrap(),
                capture_start: sget_str(fs, "captureStart"@).unwrap(),
                capture_end: sget_str(fs, "captureEnd"@).unwrap(),
                detection_count: sget_usize(fs, "detectionCount"@).unwrap(),
                task_id: sget_opt_str(fs, "taskId"@).unwrap(),
                created_at: sget_str(fs, "creationEpoch"@).unwrap(),
            },
        )
    } else {
        None
    }
}

/// Decodes from a JSON value.
pub open spec fn rf_capture_summary_from_json(j: Json) -> Option<RFCaptureSummary> {
    match j {
        Json::Obj(fields) => rf_capture_summary_from_fields(obj_view(fields@)),
        _ => None,
    }
}

impl RFCaptureSummary {
    /// Encodes to the wire object: exactly the keys of `rf_capture_summary_keys`, in
    /// order; decoding the result yields this value back.
    pub fn to_json(&self) -> (j: Json)
        ensures
            (j matches Json::Obj(fields) && field_keys(fields@) == rf_capture_summary_keys()),
            rf_capture_summary_from_json(j) == Some(*self),
    {
        let mut fields: Vec<(String, Json)> = Vec::new();
        push_field(&mut fields, "id", Json::Str(self.id.clone()));
        push_field(&mut fields, "antennaId", Json::Str(self.antenna_id.clone()));
        push_field(&mut fields, "userId", Json::Str(self.user_id.clone()));
        push_field(&mut fields, "captureStart", Json::Str(self.capture_start.clone()));
        push_field(&mut fields, "captureEnd", Json::Str(self.capture_end.clone()));
        push_field(&mut fields, "detectionCount", usize_to_json(self.detection_count));
        push_field(&mut fields, "taskId", opt_str_to_json(&self.task_id));
        push_field(&mut fields, "creationEpoch", Json::Str(self.created_at.clone()));
        proof {
            reveal_strlit("id");
            reveal_strlit("antennaId");
            reveal_strlit("userId");
            reveal_strlit("captureStart");
            reveal_strlit("captureEnd");
            reveal_strlit("detectionCount");
            reveal_strlit("taskId");
            reveal_strlit("creationEpoch");
            assert("id"@.len() == 2);
            assert("antennaId"@.len() == 9);
            assert("userId"@.len() == 6);
            assert("captureStart"@.len() == 12);
            assert("captureEnd"@.len() == 10);
            assert("detectionCount"@.len() == 14);
            assert("taskId"@.len() == 6);
            assert("creationEpoch"@.len() == 13);
            assert("userId"@[0] == 'u');
            assert("taskId"@[0] == 't');
            assert(field_keys(fields@) =~= rf_capture_summary_keys());
            let fs = obj_view(fields@);
            assert(fs.len() == 8);
            assert(fs[0].0 == "id"@);
            assert(fs[1].0 == "antennaId"@);
            assert(fs[2].0 == "userId"@);
            assert(fs[3].0 == "captureStart"@);
            assert(fs[4].0 == "captureEnd"@);
            assert(fs[5].0 == "detectionCount"@);
            assert(fs[6].0 == "taskId"@);
            assert(fs[7].0 == "creationEpoch"@);
            lemma_obj_get_found(fs, "id"@, 0);
            lemma_obj_get_found(fs, "antennaId"@, 1);
            lemma_obj_get_found(fs, "userId"@, 2);
            lemma_obj_get_found(fs, "captureStart"@, 3);
            lemma_obj_get_found(fs, "captureEnd"@, 4);
            lemma_obj_get_found(fs, "detectionCount"@, 5);
            lemma_obj_get_found(fs, "taskId"@, 6);
            lemma_obj_get_found(fs, "creationEpoch"@, 7);
            crate::num::lemma_parse_dec_usize(self.detection_count);
            assert(sget_str(fs, "id"@) == Some(self.id));
            assert(sget_str(fs, "antennaId"@) == Some(self.antenna_id));
            assert(sget_str(fs, "userId"@) == Some(self.user_id));
            assert(sget_str(fs, "captureStart"@) == Some(self.capture_start));
            assert(sget_str(fs, "captureEnd"@) == Some(self.capture_end));
            assert(sget_usize(fs, "detectionCount"@) == Some(self.detection_count));
            assert(sget_opt_str(fs, "taskId"@) == Some(self.task_id));
            assert(sget_str(fs, "creationEpoch"@) == Some(self.created_at));
            assert(rf_capture_summary_from_fields(fs) == Some(*self));
        }
        Json::Obj(fields)
    }

    /// Decodes from a JSON value; `None` on any shape mismatch.
    pub fn from_json(j: &Json) -> (r: Option<RFCaptureSummary>)
        ensures
            r == rf_capture_summary_from_json(*j),
    {
        match j {
            Json::Obj(fields) => {
                let id = match get_str(fields, "id") {
                    Some(v) => v,
                    None => {
                        return None;
                    },
                };
                let antenna_id = match get_str(fields, "antennaId") {
                    Some(v) => v,
                    None => {
                        return None;
                    },
                };
                let user_id = match get_str(fields, "userId") {
                    Some(v) => v,
                    None => {
                        return None;
                    },
                };
                let capture_start = match get_str(fields, "captureStart") {
                    Some(v) => v,
                    None => {
                        return None;
                    },
                };
                let capture_end = match get_str(fields, "captureEnd") {
                    Some(v) => v,
                    None => {
                        return None;
                    },
                };
                let detection_count = match get_usize(fields, "detectionCount") {
                    Some(v) => v,
                    None => {
                        return None;
                    },
                };
                let task_id = match get_opt_str(fields, "taskId") {
                    Some(v) => v,
                    None => {
                        return None;
                    },
                };
                let created_at = match get_str(fields, "creationEpoch") {
                    Some(v) => v,
                    None => {
                        return None;
                    },
                };
                Some(
                    RFCaptureSummary {
                        id, antenna_id, user_id, capture_start, capture_end, detection_count,
                        task_id, created_at,
                    },
                )
            },
            _ => None,
        }
    }
}

/// Decodes each element of a JSON array.
pub open spec fn rf_capture_summaries_from_arr(items: Seq<Json>) -> Option<Seq<RFCaptureSummary>>
    decreases items.len(),
{
    if items.len() == 0 {
        Some(Seq::empty())
    } else {
        match rf_capture_summaries_from_arr(items.drop_last()) {
            Some(init) => match rf_capture_summary_from_json(items.last()) {
                Some(x) => Some(init + seq![x]),
                None => None,
            },
            None => None,
        }
    }
}

/// Decodes a JSON array of these records.
pub open spec fn rf_capture_summary_vec_from_json(j: Json) -> Option<Seq<RFCaptureSummary>> {
    match j {
        Json::Arr(items) => rf_capture_summaries_from_arr(items@),
        _ => None,
    }
}

proof fn lemma_rf_capture_summaries_from_arr_fails(items: Seq<Json>, i: int)
    requires
        0 <= i < items.len(),
        rf_capture_summary_from_json(items[i]) is None,
    ensures
        rf_capture_summaries_from_arr(items) is None,
    decreases items.len(),
{
    if items.len() > 0 {
        if i < items.len() - 1 {
            assert(items.drop_last()[i] == items[i]);
            lemma_rf_capture_summaries_from_arr_fails(items.drop_last(), i);
        }
    }
}

/// Decodes a JSON array of these records; `None` on any mismatch.
#[verifier::loop_isolation(false)]
pub fn rf_capture_summaries_from_json(j: &Json) -> (r: Option<Vec<RFCaptureSummary>>)
    ensures
        opt_vec_view(r) == rf_capture_summary_vec_from_json(*j),
{
    match j {
        Json::Arr(items) => {
            let mut out: Vec<RFCaptureSummary> = Vec::new();
            let mut i: usize = 0;
            while i < items.len()
                invariant
                    i <= items@.len(),
                    rf_capture_summaries_from_arr(items@.take(i as int)) == Some(out@),
                decreases items@.len() - i,
            {
                match RFCaptureSummary::from_json(&items[i]) {
                    Some(x) => {
                        out.push(x);
                    },
                    None => {
                        proof {
                            lemma_rf_capture_summaries_from_arr_fails(items@, i as int);
                        }
                        return None;
                    },
                }
                proof {
                    let t = items@.take(i + 1);
                    assert(t.drop_last() =~= items@.take(i as int));
                    assert(t.last() == items@[i as int]);
                }
                i += 1;
            }
            proof {
                assert(items@.take(items@.len() as int) =~= items@);
            }
            Some(out)
        },
        _ => None,
    }
}
} // verus!
