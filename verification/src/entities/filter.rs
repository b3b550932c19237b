//! Optical filters and filter-set expansion.
use vstd::prelude::*;
use vstd::string::StringExecFns;

use crate::json::Decimal;
use crate::json::Json;
use crate::json::field_keys;
use crate::json::get_json;
use crate::json::get_opt_dec;
use crate::json::get_opt_str;
use crate::json::get_str;
use crate::json::get_str_vec;
use crate::json::lemma_obj_get_found;
use crate::json::obj_get;
use crate::json::obj_view;
use crate::json::opt_dec_to_json;
use crate::json::opt_str_to_json;
use crate::json::opt_vec_view;
use crate::json::push_field;
use crate::json::sget_opt_dec;
use crate::json::sget_opt_str;
use crate::json::sget_str;
use crate::json::sget_str_vec;
use crate::json::strs_to_json;

verus! {

/// An optical filter the service knows about. Wavelengths are nanometers.
#[derive(Clone, Debug, PartialEq)]
pub struct Filter {
    pub name: String,
    pub category: Option<String>,
    pub center_wavelength_nm: Option<Decimal>,
    pub bandwidth_nm: Option<Decimal>,
    pub min_wavelength_nm: Option<Decimal>,
    pub max_wavelength_nm: Option<Decimal>,
}

/// The wire keys of this record, in the order the client writes them.
pub open spec fn filter_keys() -> Seq<Seq<char>> {
    seq!["name"@, "category"@, "centerWavelengthNm"@, "bandwidthNm"@, "minWavelengthNm"@, "maxWavelengthNm"@]
}

/// Decodes from an object's fields.
pub open spec fn filter_from_fields(fs: Seq<(Seq<char>, Json)>) -> Option<Filter> {
    if {
        &&& sget_str(fs, "name"@) is Some
        &&& sget_opt_str(fs, "category"@) is Some
        &&& sget_opt_dec(fs, "centerWavelengthNm"@) is Some
        &&& sget_opt_dec(fs, "bandwidthNm"@) is Some
        &&& sget_opt_dec(fs, "minWavelengthNm"@) is Some
        &&& sget_opt_dec(fs, "maxWavelengthNm"@) is Some
    } {
        Some(
            Filter {
                name: sget_str(fs, "name"@).unwrap(),
                category: sget_opt_str(fs, "category"@).unwrap(),
                center_wavelength_nm: sget_opt_dec(fs, "centerWavelengthNm"@).unwrap(),
                bandwidth_nm: sget_opt_dec(fs, "bandwidthNm"@).unwrap(),
                min_wavelength_nm: sget_opt_dec(fs, "minWavelengthNm"@).unwrap(),
                max_wavelength_nm: sget_opt_dec(fs, "maxWavelengthNm"@).unwrap(),
            },
        )
    } else {
        None
    }
}

/// Decodes from a JSON value.
pub open spec fn filter_from_json(j: Json) -> Option<Filter> {
    match j {
        Json::Obj(fields) => filter_from_fields(obj_view(fields@)),
        _ => None,
    }
}

impl Filter {
    /// Encodes to the wire object: exactly the keys of `filter_keys`, in
    /// order; decoding the result yields this value back.
    pub fn to_json(&self) -> (j: Json)
        ensures
            (j matches Json::Obj(fields) && field_keys(fields@) == filter_keys()),
            filter_from_json(j) == Some(*self),
    {
        let mut fields: Vec<(String, Json)> = Vec::new();
        push_field(&mut fields, "name", Json::Str(self.name.clone()));
        push_field(&mut fields, "category", opt_str_to_json(&self.category));
        push_field(&mut fields, "centerWavelengthNm", opt_dec_to_json(&self.center_wavelength_nm));
        push_field(&mut fields, "bandwidthNm", opt_dec_to_json(&self.bandwidth_nm));
        push_field(&mut fields, "minWavelengthNm", opt_dec_to_json(&self.min_wavelength_nm));
        push_field(&mut fields, "maxWavelengthNm", opt_dec_to_json(&self.max_wavelength_nm));
        proof {
            reveal_strlit("name");
            reveal_strlit("category");
            reveal_strlit("centerWavelengthNm");
            reveal_strlit("bandwidthNm");
            reveal_strlit("minWavelengthNm");
            reveal_strlit("maxWavelengthNm");
            assert("name"@.len() == 4);
            assert("category"@.len() == 8);
            assert("centerWavelengthNm"@.len() == 18);
            assert("bandwidthNm"@.len() == 11);
            assert("minWavelengthNm"@.len() == 15);
            assert("maxWavelengthNm"@.len() == 15);
            assert("minWavelengthNm"@[1] == 'i');
            assert("maxWavelengthNm"@[1] == 'a');
            assert(field_keys(fields@) =~= filter_keys());
            let fs = obj_view(fields@);
            assert(fs.len() == 6);
            assert(fs[0].0 == "name"@);
            assert(fs[1].0 == "category"@);
            assert(fs[2].0 == "centerWavelengthNm"@);
            assert(fs[3].0 == "bandwidthNm"@);
            assert(fs[4].0 == "minWavelengthNm"@);
            assert(fs[5].0 == "maxWavelengthNm"@);
            lemma_obj_get_found(fs, "name"@, 0);
            lemma_obj_get_found(fs, "category"@, 1);
            lemma_obj_get_found(fs, "centerWavelengthNm"@, 2);
            lemma_obj_get_found(fs, "bandwidthNm"@, 3);
            lemma_obj_get_found(fs, "minWavelengthNm"@, 4);
            lemma_obj_get_found(fs, "maxWavelengthNm"@, 5);
            assert(sget_str(fs, "name"@) == Some(self.name));
            assert(sget_opt_str(fs, "category"@) == Some(self.category));
            assert(sget_opt_dec(fs, "centerWavelengthNm"@) == Some(self.center_wavelength_nm));
            assert(sget_opt_dec(fs, "bandwidthNm"@) == Some(self.bandwidth_nm));
            assert(sget_opt_dec(fs, "minWavelengthNm"@) == Some(self.min_wavelength_nm));
            assert(sget_opt_dec(fs, "maxWavelengthNm"@) == Some(self.max_wavelength_nm));
            assert(filter_from_fields(fs) == Some(*self));
        }
        Json::Obj(fields)
    }

    /// Decodes from a JSON value; `None` on any shape mismatch.
    pub fn from_json(j: &Json) -> (r: Option<Filter>)
        ensures
            r == filter_from_json(*j),
    {
        match j {
            Json::Obj(fields) => {
                let name = match get_str(fields, "name") {
                    Some(v) => v,
                    None => {
                        return None;
                    },
                };
                let category = match get_opt_str(fields, "category") {
                    Some(v) => v,
                    None => {
                        return None;
                    },
                };
                let center_wavelength_nm = match get_opt_dec(fields, "centerWavelengthNm") {
                    Some(v) => v,
                    None => {
                        return None;
                    },
                };
                let bandwidth_nm = match get_opt_dec(fields, "bandwidthNm") {
                    Some(v) => v,
                    None => {
                        return None;
                    },
                };
                let min_wavelength_nm = match get_opt_dec(fields, "minWavelengthNm") {
                    Some(v) => v,
                    None => {
                        return None;
                    },
                };
                let max_wavelength_nm = match get_opt_dec(fields, "maxWavelengthNm") {
                    Some(v) => v,
                    None => {
                        return None;
                    },
                };
                Some(
                    Filter {
                        name, category, center_wavelength_nm, bandwidth_nm, min_wavelength_nm,
                        max_wavelength_nm,
                    },
                )
            },
            _ => None,
        }
    }
}

/// Decodes each element of a JSON array.
pub open spec fn filters_from_arr(items: Seq<Json>) -> Option<Seq<Filter>>
    decreases items.len(),
{
    if items.len() == 0 {
        Some(Seq::empty())
    } else {
        match filters_from_arr(items.drop_last()) {
            Some(init) => match filter_from_json(items.last()) {
                Some(x) => Some(init + seq![x]),
                None => None,
            },
            None => None,
        }
    }
}

/// Decodes a JSON array of these records.
pub open spec fn filter_vec_from_json(j: Json) -> Option<Seq<Filter>> {
    match j {
        Json::Arr(items) => filters_from_arr(items@),
        _ => None,
    }
}

proof fn lemma_filters_from_arr_fails(items: Seq<Json>, i: int)
    requires
        0 <= i < items.len(),
        filter_from_json(items[i]) is None,
    ensures
        filters_from_arr(items) is None,
    decreases items.len(),
{
    if items.len() > 0 {
        if i < items.len() - 1 {
            assert(items.drop_last()[i] == items[i]);
            lemma_filters_from_arr_fails(items.drop_last(), i);
        }
    }
}

/// Decodes a JSON array of these records; `None` on any mismatch.
#[verifier::loop_isolation(false)]
pub fn filters_from_json(j: &Json) -> (r: Option<Vec<Filter>>)
    ensures
        opt_vec_view(r) == filter_vec_from_json(*j),
{
    match j {
        Json::Arr(items) => {
            let mut out: Vec<Filter> = Vec::new();
            let mut i: usize = 0;
            while i < items.len()
                invariant
                    i <= items@.len(),
                    filters_from_arr(items@.take(i as int)) == Some(out@),
                decreases items@.len() - i,
            {
                match Filter::from_json(&items[i]) {
                    Some(x) => {
                        out.push(x);
                    },
                    None => {
                        proof {
                            lemma_filters_from_arr_fails(items@, i as int);
                        }
                        return None;
                    },
                }
                proof {
                    let t = items@.take(i + 1);
                    assert(t.drop_last() =~= items@.take(i as int));
                    assert(t.last() == items@[i as int]);
                }
                i += 1;
            }
            proof {
                assert(items@.take(items@.len() as int) =~= items@);
            }
            Some(out)
        },
        _ => None,
    }
}

/// Builds the JSON array of these records; decoding it yields the same
/// records back.
pub fn filters_to_json(v: &Vec<Filter>) -> (j: Json)
    ensures
        (j matches Json::Arr(items) && filters_from_arr(items@) == Some(v@) && items@.len() == v@.len()),
{
    let mut items: Vec<Json> = Vec::new();
    let mut i: usize = 0;
    while i < v.len()
        invariant
            i <= v@.len(),
            items@.len() == i,
            filters_from_arr(items@) == Some(v@.take(i as int)),
        decreases v@.len() - i,
    {
        let ghost prev = items@;
        items.push(v[i].to_json());
        proof {
            assert(items@.drop_last() =~= prev);
            assert(v@.take(i + 1) =~= v@.take(i as int) + seq![v@[i as int]]);
        }
        i += 1;
    }
    proof {
        assert(v@.take(v@.len() as int) =~= v@);
    }
    Json::Arr(items)
}

/// A request to expand named filter sets into concrete filters.
#[derive(Clone, Debug, PartialEq)]
pub struct FilterExpandRequest {
    pub filter_names: Vec<String>,
}

/// The wire keys of this record, in the order the client writes them.
pub open spec fn filter_expand_request_keys() -> Seq<Seq<char>> {
    seq!["filterNames"@]
}

/// The fields decode into exactly this value.
pub open spec fn filter_expand_request_decodes_fields(fs: Seq<(Seq<char>, Json)>, x: FilterExpandRequest) -> bool {
    &&& sget_str_vec(fs, "filterNames"@) == Some(x.filter_names@)
}

/// Every field is present with a decodable shape.
pub open spec fn filter_expand_request_shape_ok(fs: Seq<(Seq<char>, Json)>) -> bool {
    &&& sget_str_vec(fs, "filterNames"@) is Some
}

/// The JSON value decodes into exactly this value.
pub open spec fn filter_expand_request_decodes_to(j: Json, x: FilterExpandRequest) -> bool {
    match j {
        Json::Obj(fields) => filter_expand_request_decodes_fields(obj_view(fields@), x),
        _ => false,
    }
}

/// The JSON value has the shape this record decodes from.
pub open spec fn filter_expand_request_json_ok(j: Json) -> bool {
    match j {
        Json::Obj(fields) => filter_expand_request_shape_ok(obj_view(fields@)),
        _ => false,
    }
}

impl FilterExpandRequest {
    /// Encodes to the wire object: exactly the keys of `filter_expand_request_keys`, in
    /// order; decoding the result yields this value back.
    pub fn to_json(&self) -> (j: Json)
        ensures
            (j matches Json::Obj(fields) && field_keys(fields@) == filter_expand_request_keys()),
            filter_expand_request_decodes_to(j, *self),
    {
        let mut fields: Vec<(String, Json)> = Vec::new();
        push_field(&mut fields, "filterNames", strs_to_json(&self.filter_names));
        proof {
            reveal_strlit("filterNames");
            assert("filterNames"@.len() == 11);
            assert(field_keys(fields@) =~= filter_expand_request_keys());
            let fs = obj_view(fields@);
            assert(fs.len() == 1);
            assert(fs[0].0 == "filterNames"@);
            lemma_obj_get_found(fs, "filterNames"@, 0);
            assert(sget_str_vec(fs, "filterNames"@) == Some(self.filter_names@));
            assert(filter_expand_request_decodes_fields(fs, *self));
        }
        Json::Obj(fields)
    }

    /// Decodes from a JSON value; `None` on any shape mismatch.
    pub fn from_json(j: &Json) -> (r: Option<FilterExpandRequest>)
        ensures
            (match r {
                Some(x) => filter_expand_request_decodes_to(*j, x),
                None => !filter_expand_request_json_ok(*j),
            }),
    {
        match j {
            Json::Obj(fields) => {
                let filter_names = match get_str_vec(fields, "filterNames") {
                    Some(v) => v,
                    None => {
                        return None;
                    },
                };
                Some(
                    FilterExpandRequest {
                        filter_names,
                    },
                )
            },
            _ => None,
        }
    }
}

/// The concrete filters of an expanded filter set.
#[derive(Clone, Debug, PartialEq)]
pub struct FilterExpandResponse {
    pub filters: Vec<Filter>,
}

/// The wire keys of this record, in the order the client writes them.
pub open spec fn filter_expand_response_keys() -> Seq<Seq<char>> {
    seq!["filters"@]
}

/// The fields decode into exactly this value.
pub open spec fn filter_expand_response_decodes_fields(fs: Seq<(Seq<char>, Json)>, x: FilterExpandResponse) -> bool {
    &&& (match obj_get(fs, "filters"@) {
        Some(Json::Arr(items)) => filters_from_arr(items@) == Some(x.filters@),
        _ => false,
    })
}

/// Every field is present with a decodable shape.
pub open spec fn filter_expand_response_shape_ok(fs: Seq<(Seq<char>, Json)>) -> bool {
    &&& (match obj_get(fs, "filters"@) {
        Some(Json::Arr(items)) => filters_from_arr(items@) is Some,
        _ => false,
    })
}

/// The JSON value decodes into exactly this value.
pub open spec fn filter_expand_response_decodes_to(j: Json, x: FilterExpandResponse) -> bool {
    match j {
        Json::Obj(fields) => filter_expand_response_decodes_fields(obj_view(fields@), x),
        _ => false,
    }
}

/// The JSON value has the shape this record decodes from.
pub open spec fn filter_expand_response_json_ok(j: Json) -> bool {
    match j {
        Json::Obj(fields) => filter_expand_response_shape_ok(obj_view(fields@)),
        _ => false,
    }
}

impl FilterExpandResponse {
    /// Encodes to the wire object: exactly the keys of `filter_expand_response_keys`, in
    /// order; decoding the result yields this value back.
    pub fn to_json(&self) -> (j: Json)
        ensures
            (j matches Json::Obj(fields) && field_keys(fields@) == filter_expand_response_keys()),
            filter_expand_response_decodes_to(j, *self),
    {
        let mut fields: Vec<(String, Json)> = Vec::new();
        push_field(&mut fields, "filters", filters_to_json(&self.filters));
        proof {
            reveal_strlit("filters");
            assert("filters"@.len() == 7);
            assert(field_keys(fields@) =~= filter_expand_response_keys());
            let fs = obj_view(fields@);
            assert(fs.len() == 1);
            assert(fs[0].0 == "filters"@);
            lemma_obj_get_found(fs, "filters"@, 0);
            assert((match obj_get(fs, "filters"@) {
        Some(Json::Arr(items)) => filters_from_arr(items@) == Some(self.filters@),
        _ => false,
    }));
            assert(filter_expand_response_decodes_fields(fs, *self));
        }
        Json::Obj(fields)
    }

    /// Decodes from a JSON value; `None` on any shape mismatch.
    pub fn from_json(j: &Json) -> (r: Option<FilterExpandResponse>)
        ensures
            (match r {
                Some(x) => filter_expand_response_decodes_to(*j, x),
                None => !filter_expand_response_json_ok(*j),
            }),
    {
        match j {
            Json::Obj(fields) => {
                let filters = match get_json(fields, "filters") {
                    Some(v) => match filters_from_json(v) {
                        Some(v) => v,
                        None => {
                            return None;
                        },
                    },
                    None => {
                        return None;
                    },
                };
                Some(
                    FilterExpandResponse {
                        filters,
                    },
                )
            },
            _ => None,
        }
    }
}
} // verus!
