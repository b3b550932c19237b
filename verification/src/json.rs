//! A JSON document model: the wire shape of every request and response body.
//!
//! Numbers are carried as their decimal source text, so a value read off the
//! wire is reproduced bit-exactly when written back.
use vstd::prelude::*;
use vstd::string::StringExecFns;
use vstd::string::StrSliceExecFns;

verus! {

/// A JSON value. Object fields keep their order; a number holds its decimal
/// text unparsed.
pub enum Json {
    Null,
    Bool(bool),
    Num(String),
    Str(String),
    Arr(Vec<Json>),
    Obj(Vec<(String, Json)>),
}

/// A decimal number kept as its wire text, so that fractional values pass
/// through the client without any rounding. The text is written into JSON
/// verbatim; a well-formed value holds a valid JSON number token.
#[derive(Clone, Debug, PartialEq)]
pub struct Decimal {
    pub text: String,
}

impl Decimal {
    /// Wraps the decimal text of a number, e.g. `"37.7749"`.
    pub fn new(text: String) -> (d: Decimal)
        ensures
            d.text == text,
    {
        Decimal { text }
    }
}

// ---------------------------------------------------------------------------
// Serialized text
// ---------------------------------------------------------------------------
/// The escaped form of one string character inside a JSON string literal.
pub open spec fn escape_char(c: char) -> Seq<char> {
    if c == '"' {
        seq!['\\', '"']
    } else if c == '\\' {
        seq!['\\', '\\']
    } else {
        seq![c]
    }
}

/// The escaped form of a whole string body.
pub open spec fn escape_str(s: Seq<char>) -> Seq<char>
    decreases s.len(),
{
    if s.len() == 0 {
        Seq::empty()
    } else {
        escape_str(s.drop_last()) + escape_char(s.last())
    }
}

/// The serialized text of a JSON value.
pub open spec fn json_text(j: Json) -> Seq<char>
    decreases j,
{
    match j {
        Json::Null => "null"@,
        Json::Bool(b) => if b {
            "true"@
        } else {
            "false"@
        },
        Json::Num(t) => t@,
        Json::Str(s) => seq!['"'] + escape_str(s@) + seq!['"'],
        Json::Arr(items) => seq!['['] + arr_text(items@) + seq![']'],
        Json::Obj(fields) => seq!['{'] + obj_text(fields@) + seq!['}'],
    }
}

/// The comma-separated serialized elements of a JSON array.
pub open spec fn arr_text(items: Seq<Json>) -> Seq<char>
    decreases items,
{
    if items.len() == 0 {
        Seq::empty()
    } else if items.len() == 1 {
        json_text(items[0])
    } else {
        arr_text(items.drop_last()) + seq![','] + json_text(items.last())
    }
}

/// The comma-separated serialized members of a JSON object.
pub open spec fn obj_text(fields: Seq<(String, Json)>) -> Seq<char>
    decreases fields,
{
    if fields.len() == 0 {
        Seq::empty()
    } else if fields.len() == 1 {
        member_text(fields[0])
    } else {
        obj_text(fields.drop_last()) + seq![','] + member_text(fields.last())
    }
}

/// One `"key":value` member of a JSON object.
pub open spec fn member_text(field: (String, Json)) -> Seq<char>
    decreases field,
{
    seq!['"'] + escape_str(field.0@) + seq!['"', ':'] + json_text(field.1)
}

// ---------------------------------------------------------------------------
// Object views and lookup
// ---------------------------------------------------------------------------
/// The key names of an object's fields, in order.
pub open spec fn field_keys(fields: Seq<(String, Json)>) -> Seq<Seq<char>> {
    fields.map_values(|kv: (String, Json)| kv.0@)
}

/// An object's fields with the keys taken to their character sequences.
pub open spec fn obj_view(fields: Seq<(String, Json)>) -> Seq<(Seq<char>, Json)> {
    fields.map_values(|kv: (String, Json)| (kv.0@, kv.1))
}

/// The value under `key`: the first field with that name, as a JSON decoder
/// reads an object.
pub open spec fn obj_get(fs: Seq<(Seq<char>, Json)>, key: Seq<char>) -> Option<Json>
    decreases fs.len(),
{
    if fs.len() == 0 {
        None
    } else if fs[0].0 == key {
        Some(fs[0].1)
    } else {
        obj_get(fs.drop_first(), key)
    }
}

pub proof fn lemma_obj_get_found(fs: Seq<(Seq<char>, Json)>, key: Seq<char>, i: int)
    requires
        0 <= i < fs.len(),
        fs[i].0 == key,
        forall|m: int| 0 <= m < i ==> fs[m].0 != key,
    ensures
        obj_get(fs, key) == Some(fs[i].1),
    decreases i,
{
    if i > 0 {
        lemma_obj_get_found(fs.drop_first(), key, i - 1);
    }
}

pub proof fn lemma_obj_get_missing(fs: Seq<(Seq<char>, Json)>, key: Seq<char>)
    requires
        forall|m: int| 0 <= m < fs.len() ==> fs[m].0 != key,
    ensures
        obj_get(fs, key) is None,
    decreases fs.len(),
{
    if fs.len() > 0 {
        lemma_obj_get_missing(fs.drop_first(), key);
    }
}

/// The index of the first field named `key`, the one `obj_get` reads.
fn find_key(fields: &Vec<(String, Json)>, key: &str) -> (r: Option<usize>)
    ensures
        match r {
            Some(i) => i < fields@.len() && fields@[i as int].0@ == key@ && obj_get(
                obj_view(fields@),
                key@,
            ) == Some(fields@[i as int].1),
            None => obj_get(obj_view(fields@), key@) is None,
        },
{
    let needle = String::from_str(key);
    let mut i: usize = 0;
    while i < fields.len()
        invariant
            i <= fields@.len(),
            needle@ == key@,
            forall|m: int| 0 <= m < i ==> fields@[m].0@ != key@,
        decreases fields@.len() - i,
    {
        if fields[i].0 == needle {
            proof {
                lemma_obj_get_found(obj_view(fields@), key@, i as int);
            }
            return Some(i);
        }
        i += 1;
    }
    proof {
        lemma_obj_get_missing(obj_view(fields@), key@);
    }
    None
}

/// Reads the raw JSON value of a field.
pub fn get_json<'a>(fields: &'a Vec<(String, Json)>, key: &str) -> (r: Option<&'a Json>)
    ensures
        match r {
            Some(j) => obj_get(obj_view(fields@), key@) == Some(*j),
            None => obj_get(obj_view(fields@), key@) is None,
        },
{
    match find_key(fields, key) {
        Some(i) => Some(&fields[i].1),
        None => None,
    }
}

// ---------------------------------------------------------------------------
// Typed field reads
// ---------------------------------------------------------------------------
/// A required string field: present and a JSON string.
pub open spec fn sget_str(fs: Seq<(Seq<char>, Json)>, key: Seq<char>) -> Option<String> {
    match obj_get(fs, key) {
        Some(Json::Str(s)) => Some(s),
        _ => None,
    }
}

/// An optional string field: absent and `null` both read as `None`.
pub open spec fn sget_opt_str(fs: Seq<(Seq<char>, Json)>, key: Seq<char>) -> Option<
    Option<String>,
> {
    match obj_get(fs, key) {
        None => Some(None),
        Some(Json::Null) => Some(None),
        Some(Json::Str(s)) => Some(Some(s)),
        Some(_) => None,
    }
}

/// A required number field, kept as decimal text.
pub open spec fn sget_dec(fs: Seq<(Seq<char>, Json)>, key: Seq<char>) -> Option<Decimal> {
    match obj_get(fs, key) {
        Some(Json::Num(t)) => Some(Decimal { text: t }),
        _ => None,
    }
}

/// An optional number field, kept as decimal text.
pub open spec fn sget_opt_dec(fs: Seq<(Seq<char>, Json)>, key: Seq<char>) -> Option<
    Option<Decimal>,
> {
    match obj_get(fs, key) {
        None => Some(None),
        Some(Json::Null) => Some(None),
        Some(Json::Num(t)) => Some(Some(Decimal { text: t })),
        Some(_) => None,
    }
}

/// A required boolean field.
pub open spec fn sget_bool(fs: Seq<(Seq<char>, Json)>, key: Seq<char>) -> Option<bool> {
    match obj_get(fs, key) {
        Some(Json::Bool(b)) => Some(b),
        _ => None,
    }
}

/// An optional boolean field.
pub open spec fn sget_opt_bool(fs: Seq<(Seq<char>, Json)>, key: Seq<char>) -> Option<
    Option<bool>,
> {
    match obj_get(fs, key) {
        None => Some(None),
        Some(Json::Null) => Some(None),
        Some(Json::Bool(b)) => Some(Some(b)),
        Some(_) => None,
    }
}

/// Reads a required string field.
pub fn get_str(fields: &Vec<(String, Json)>, key: &str) -> (r: Option<String>)
    ensures
        r == sget_str(obj_view(fields@), key@),
{
    match find_key(fields, key) {
        Some(i) => match &fields[i].1 {
            Json::Str(s) => Some(s.clone()),
            _ => None,
        },
        None => None,
    }
}

/// Reads an optional string field.
pub fn get_opt_str(fields: &Vec<(String, Json)>, key: &str) -> (r: Option<Option<String>>)
    ensures
        r == sget_opt_str(obj_view(fields@), key@),
{
    match find_key(fields, key) {
        Some(i) => match &fields[i].1 {
            Json::Str(s) => Some(Some(s.clone())),
            Json::Null => Some(None),
            _ => None,
        },
        None => Some(None),
    }
}

/// Reads a required number field as decimal text.
pub fn get_dec(fields: &Vec<(String, Json)>, key: &str) -> (r: Option<Decimal>)
    ensures
        r == sget_dec(obj_view(fields@), key@),
{
    match find_key(fields, key) {
        Some(i) => match &fields[i].1 {
            Json::Num(t) => Some(Decimal { text: t.clone() }),
            _ => None,
        },
        None => None,
    }
}

/// Reads an optional number field as decimal text.
pub fn get_opt_dec(fields: &Vec<(String, Json)>, key: &str) -> (r: Option<Option<Decimal>>)
    ensures
        r == sget_opt_dec(obj_view(fields@), key@),
{
    match find_key(fields, key) {
        Some(i) => match &fields[i].1 {
            Json::Num(t) => Some(Some(Decimal { text: t.clone() })),
            Json::Null => Some(None),
            _ => None,
        },
        None => Some(None),
    }
}

/// Reads a required boolean field.
pub fn get_bool(fields: &Vec<(String, Json)>, key: &str) -> (r: Option<bool>)
    ensures
        r == sget_bool(obj_view(fields@), key@),
{
    match find_key(fields, key) {
        Some(i) => match &fields[i].1 {
            Json::Bool(b) => Some(*b),
            _ => None,
        },
        None => None,
    }
}

/// Reads an optional boolean field.
pub fn get_opt_bool(fields: &Vec<(String, Json)>, key: &str) -> (r: Option<Option<bool>>)
    ensures
        r == sget_opt_bool(obj_view(fields@), key@),
{
    match find_key(fields, key) {
        Some(i) => match &fields[i].1 {
            Json::Bool(b) => Some(Some(*b)),
            Json::Null => Some(None),
            _ => None,
        },
        None => Some(None),
    }
}

/// A required integer field: a number token in canonical `i64` form.
pub open spec fn sget_i64(fs: Seq<(Seq<char>, Json)>, key: Seq<char>) -> Option<i64> {
    match obj_get(fs, key) {
        Some(Json::Num(t)) => crate::num::parse_i64(t@),
        _ => None,
    }
}

/// An optional integer field.
pub open spec fn sget_opt_i64(fs: Seq<(Seq<char>, Json)>, key: Seq<char>) -> Option<
    Option<i64>,
> {
    match obj_get(fs, key) {
        None => Some(None),
        Some(Json::Null) => Some(None),
        Some(Json::Num(t)) => match crate::num::parse_i64(t@) {
            Some(n) => Some(Some(n)),
            None => None,
        },
        Some(_) => None,
    }
}

/// A required integer field narrowed to `i32`.
pub open spec fn sget_i32(fs: Seq<(Seq<char>, Json)>, key: Seq<char>) -> Option<i32> {
    match obj_get(fs, key) {
        Some(Json::Num(t)) => crate::num::parse_i32(t@),
        _ => None,
    }
}

/// An optional integer field narrowed to `i32`.
pub open spec fn sget_opt_i32(fs: Seq<(Seq<char>, Json)>, key: Seq<char>) -> Option<
    Option<i32>,
> {
    match obj_get(fs, key) {
        None => Some(None),
        Some(Json::Null) => Some(None),
        Some(Json::Num(t)) => match crate::num::parse_i32(t@) {
            Some(n) => Some(Some(n)),
            None => None,
        },
        Some(_) => None,
    }
}

/// An integer field that falls back to zero when absent, as a wire field
/// marked with a serializer default does.
pub open spec fn sget_i64_default(fs: Seq<(Seq<char>, Json)>, key: Seq<char>) -> Option<i64> {
    match obj_get(fs, key) {
        None => Some(0),
        Some(Json::Num(t)) => crate::num::parse_i64(t@),
        Some(_) => None,
    }
}

/// Reads an integer field that falls back to zero when absent.
pub fn get_i64_default(fields: &Vec<(String, Json)>, key: &str) -> (r: Option<i64>)
    ensures
        r == sget_i64_default(obj_view(fields@), key@),
{
    match find_key(fields, key) {
        Some(i) => match &fields[i].1 {
            Json::Num(t) => crate::num::i64_from_dec(t.as_str()),
            _ => None,
        },
        None => Some(0),
    }
}

/// A required non-negative count field.
pub open spec fn sget_usize(fs: Seq<(Seq<char>, Json)>, key: Seq<char>) -> Option<usize> {
    match obj_get(fs, key) {
        Some(Json::Num(t)) => crate::num::parse_usize(t@),
        _ => None,
    }
}

/// Reads a required integer field.
pub fn get_i64(fields: &Vec<(String, Json)>, key: &str) -> (r: Option<i64>)
    ensures
        r == sget_i64(obj_view(fields@), key@),
{
    match find_key(fields, key) {
        Some(i) => match &fields[i].1 {
            Json::Num(t) => crate::num::i64_from_dec(t.as_str()),
            _ => None,
        },
        None => None,
    }
}

/// Reads an optional integer field.
pub fn get_opt_i64(fields: &Vec<(String, Json)>, key: &str) -> (r: Option<Option<i64>>)
    ensures
        r == sget_opt_i64(obj_view(fields@), key@),
{
    match find_key(fields, key) {
        Some(i) => match &fields[i].1 {
            Json::Num(t) => match crate::num::i64_from_dec(t.as_str()) {
                Some(n) => Some(Some(n)),
                None => None,
            },
            Json::Null => Some(None),
            _ => None,
        },
        None => Some(None),
    }
}

/// Reads a required integer field narrowed to `i32`.
pub fn get_i32(fields: &Vec<(String, Json)>, key: &str) -> (r: Option<i32>)
    ensures
        r == sget_i32(obj_view(fields@), key@),
{
    match find_key(fields, key) {
        Some(i) => match &fields[i].1 {
            Json::Num(t) => crate::num::i32_from_dec(t.as_str()),
            _ => None,
        },
        None => None,
    }
}

/// Reads an optional integer field narrowed to `i32`.
pub fn get_opt_i32(fields: &Vec<(String, Json)>, key: &str) -> (r: Option<Option<i32>>)
    ensures
        r == sget_opt_i32(obj_view(fields@), key@),
{
    match find_key(fields, key) {
        Some(i) => match &fields[i].1 {
            Json::Num(t) => match crate::num::i32_from_dec(t.as_str()) {
                Some(n) => Some(Some(n)),
                None => None,
            },
            Json::Null => Some(None),
            _ => None,
        },
        None => Some(None),
    }
}

/// Reads a required non-negative count field.
pub fn get_usize(fields: &Vec<(String, Json)>, key: &str) -> (r: Option<usize>)
    ensures
        r == sget_usize(obj_view(fields@), key@),
{
    match find_key(fields, key) {
        Some(i) => match &fields[i].1 {
            Json::Num(t) => crate::num::usize_from_dec(t.as_str()),
            _ => None,
        },
        None => None,
    }
}

// ---------------------------------------------------------------------------
// Arrays of scalars
// ---------------------------------------------------------------------------
/// The JSON array elements standing for a sequence of strings.
pub open spec fn str_arr(ss: Seq<String>) -> Seq<Json> {
    ss.map_values(|s: String| Json::Str(s))
}

/// The strings of a JSON array, if every element is a string.
pub open spec fn json_strs(items: Seq<Json>) -> Option<Seq<String>>
    decreases items.len(),
{
    if items.len() == 0 {
        Some(Seq::empty())
    } else {
        match json_strs(items.drop_last()) {
            Some(init) => match items.last() {
                Json::Str(s) => Some(init + seq![s]),
                _ => None,
            },
            None => None,
        }
    }
}

/// A required array-of-strings field.
pub open spec fn sget_str_vec(fs: Seq<(Seq<char>, Json)>, key: Seq<char>) -> Option<
    Seq<String>,
> {
    match obj_get(fs, key) {
        Some(Json::Arr(items)) => json_strs(items@),
        _ => None,
    }
}

/// An optional array-of-strings field.
pub open spec fn sget_opt_str_vec(fs: Seq<(Seq<char>, Json)>, key: Seq<char>) -> Option<
    Option<Seq<String>>,
> {
    match obj_get(fs, key) {
        None => Some(None),
        Some(Json::Null) => Some(None),
        Some(Json::Arr(items)) => match json_strs(items@) {
            Some(ss) => Some(Some(ss)),
            None => None,
        },
        Some(_) => None,
    }
}

/// The integers of a JSON array, if every element is a canonical integer
/// token.
pub open spec fn json_i64s(items: Seq<Json>) -> Option<Seq<i64>>
    decreases items.len(),
{
    if items.len() == 0 {
        Some(Seq::empty())
    } else {
        match json_i64s(items.drop_last()) {
            Some(init) => match items.last() {
                Json::Num(t) => match crate::num::parse_i64(t@) {
                    Some(n) => Some(init + seq![n]),
                    None => None,
                },
                _ => None,
            },
            None => None,
        }
    }
}

/// The decimal texts of a JSON array, if every element is a number.
pub open spec fn json_decs(items: Seq<Json>) -> Option<Seq<Decimal>>
    decreases items.len(),
{
    if items.len() == 0 {
        Some(Seq::empty())
    } else {
        match json_decs(items.drop_last()) {
            Some(init) => match items.last() {
                Json::Num(t) => Some(init + seq![Decimal { text: t }]),
                _ => None,
            },
            None => None,
        }
    }
}

/// A required array-of-integers field.
pub open spec fn sget_i64_vec(fs: Seq<(Seq<char>, Json)>, key: Seq<char>) -> Option<Seq<i64>> {
    match obj_get(fs, key) {
        Some(Json::Arr(items)) => json_i64s(items@),
        _ => None,
    }
}

/// A required array-of-numbers field, kept as decimal texts.
pub open spec fn sget_dec_vec(fs: Seq<(Seq<char>, Json)>, key: Seq<char>) -> Option<
    Seq<Decimal>,
> {
    match obj_get(fs, key) {
        Some(Json::Arr(items)) => json_decs(items@),
        _ => None,
    }
}

/// Each outer element is an array of number tokens decoding to the
/// corresponding row.
pub open spec fn dec_rows_decode_to(items: Seq<Json>, rows: Seq<Vec<Decimal>>) -> bool {
    &&& items.len() == rows.len()
    &&& forall|i: int|
        0 <= i < items.len() ==> (match #[trigger] items[i] {
            Json::Arr(cells) => json_decs(cells@) == Some(rows[i]@),
            _ => false,
        })
}

/// Every outer element is an array of numbers.
pub open spec fn dec_rows_ok(items: Seq<Json>) -> bool {
    forall|i: int|
        0 <= i < items.len() ==> (match #[trigger] items[i] {
            Json::Arr(cells) => json_decs(cells@) is Some,
            _ => false,
        })
}

/// Builds the JSON array-of-arrays standing for rows of decimals.
pub fn dec_rows_to_json(v: &Vec<Vec<Decimal>>) -> (j: Json)
    ensures
        (j matches Json::Arr(items) && dec_rows_decode_to(items@, v@)),
{
    let mut items: Vec<Json> = Vec::new();
    let mut i: usize = 0;
    while i < v.len()
        invariant
            i <= v@.len(),
            items@.len() == i,
            dec_rows_decode_to(items@, v@.take(i as int)),
        decreases v@.len() - i,
    {
        items.push(decs_to_json(&v[i]));
        proof {
            assert(v@.take(i + 1) =~= v@.take(i as int) + seq![v@[i as int]]);
            assert(dec_rows_decode_to(items@, v@.take(i + 1)));
        }
        i += 1;
    }
    proof {
        assert(v@.take(v@.len() as int) =~= v@);
    }
    Json::Arr(items)
}

/// Reads rows of decimals out of a JSON array-of-arrays.
pub fn dec_rows_of_items(items: &Vec<Json>) -> (r: Option<Vec<Vec<Decimal>>>)
    ensures
        (match r {
            Some(rows) => dec_rows_decode_to(items@, rows@),
            None => !dec_rows_ok(items@),
        }),
{
    let mut rows: Vec<Vec<Decimal>> = Vec::new();
    let mut i: usize = 0;
    while i < items.len()
        invariant
            i <= items@.len(),
            rows@.len() == i,
            dec_rows_decode_to(items@.take(i as int), rows@),
        decreases items@.len() - i,
    {
        match &items[i] {
            Json::Arr(cells) => match decs_of_items(cells) {
                Some(row) => {
                    rows.push(row);
                },
                None => {
                    return None;
                },
            },
            _ => {
                return None;
            },
        }
        proof {
            let t = items@.take(i + 1);
            assert(t =~= items@.take(i as int) + seq![items@[i as int]]);
            assert(forall|m: int|
                0 <= m < t.len() ==> t[m] == items@[m] && (m < i ==> items@.take(i as int)[m]
                    == items@[m]));
            assert(dec_rows_decode_to(t, rows@));
        }
        i += 1;
    }
    proof {
        assert(items@.take(items@.len() as int) =~= items@);
    }
    Some(rows)
}

/// The sequence view of an optional vector.
pub open spec fn opt_vec_view<T>(v: Option<Vec<T>>) -> Option<Seq<T>> {
    match v {
        Some(v) => Some(v@),
        None => None,
    }
}

fn strs_of_items(items: &Vec<Json>) -> (r: Option<Vec<String>>)
    ensures
        opt_vec_view(r) == json_strs(items@),
{
    let mut out: Vec<String> = Vec::new();
    let mut i: usize = 0;
    while i < items.len()
        invariant
            i <= items@.len(),
            json_strs(items@.take(i as int)) == Some(out@),
        decreases items@.len() - i,
    {
        match &items[i] {
            Json::Str(s) => {
                out.push(s.clone());
            },
            _ => {
                proof {
                    lemma_json_strs_extend_fails(items@, i as int);
                }
                return None;
            },
        }
        proof {
            let t = items@.take(i + 1);
            assert(t.drop_last() =~= items@.take(i as int));
            assert(t.last() == items@[i as int]);
        }
        i += 1;
    }
    proof {
        assert(items@.take(items@.len() as int) =~= items@);
    }
    Some(out)
}

proof fn lemma_json_strs_extend_fails(items: Seq<Json>, i: int)
    requires
        0 <= i < items.len(),
        !(items[i] matches Json::Str(_)),
    ensures
        json_strs(items) is None,
    decreases items.len(),
{
    if items.len() > 0 {
        if i < items.len() - 1 {
            assert(items.drop_last()[i] == items[i]);
            lemma_json_strs_extend_fails(items.drop_last(), i);
        }
    }
}

/// Reads a required array-of-strings field.
pub fn get_str_vec(fields: &Vec<(String, Json)>, key: &str) -> (r: Option<Vec<String>>)
    ensures
        opt_vec_view(r) == sget_str_vec(obj_view(fields@), key@),
{
    match find_key(fields, key) {
        Some(i) => match &fields[i].1 {
            Json::Arr(items) => strs_of_items(items),
            _ => None,
        },
        None => None,
    }
}

proof fn lemma_json_i64s_fails(items: Seq<Json>, i: int)
    requires
        0 <= i < items.len(),
        match items[i] {
            Json::Num(t) => crate::num::parse_i64(t@) is None,
            _ => true,
        },
    ensures
        json_i64s(items) is None,
    decreases items.len(),
{
    if items.len() > 0 {
        if i < items.len() - 1 {
            assert(items.drop_last()[i] == items[i]);
            lemma_json_i64s_fails(items.drop_last(), i);
        }
    }
}

proof fn lemma_json_decs_fails(items: Seq<Json>, i: int)
    requires
        0 <= i < items.len(),
        !(items[i] matches Json::Num(_)),
    ensures
        json_decs(items) is None,
    decreases items.len(),
{
    if items.len() > 0 {
        if i < items.len() - 1 {
            assert(items.drop_last()[i] == items[i]);
            lemma_json_decs_fails(items.drop_last(), i);
        }
    }
}

fn i64s_of_items(items: &Vec<Json>) -> (r: Option<Vec<i64>>)
    ensures
        opt_vec_view(r) == json_i64s(items@),
{
    let mut out: Vec<i64> = Vec::new();
    let mut i: usize = 0;
    while i < items.len()
        invariant
            i <= items@.len(),
            json_i64s(items@.take(i as int)) == Some(out@),
        decreases items@.len() - i,
    {
        match &items[i] {
            Json::Num(t) => match crate::num::i64_from_dec(t.as_str()) {
                Some(n) => {
                    out.push(n);
                },
                None => {
                    proof {
                        lemma_json_i64s_fails(items@, i as int);
                    }
                    return None;
                },
            },
            _ => {
                proof {
                    lemma_json_i64s_fails(items@, i as int);
                }
                return None;
            },
        }
        proof {
            let t = items@.take(i + 1);
            assert(t.drop_last() =~= items@.take(i as int));
            assert(t.last() == items@[i as int]);
        }
        i += 1;
    }
    proof {
        assert(items@.take(items@.len() as int) =~= items@);
    }
    Some(out)
}

fn decs_of_items(items: &Vec<Json>) -> (r: Option<Vec<Decimal>>)
    ensures
        opt_vec_view(r) == json_decs(items@),
{
    let mut out: Vec<Decimal> = Vec::new();
    let mut i: usize = 0;
    while i < items.len()
        invariant
            i <= items@.len(),
            json_decs(items@.take(i as int)) == Some(out@),
        decreases items@.len() - i,
    {
        match &items[i] {
            Json::Num(t) => {
                out.push(Decimal { text: t.clone() });
            },
            _ => {
                proof {
                    lemma_json_decs_fails(items@, i as int);
                }
                return None;
            },
        }
        proof {
            let t = items@.take(i + 1);
            assert(t.drop_last() =~= items@.take(i as int));
            assert(t.last() == items@[i as int]);
        }
        i += 1;
    }
    proof {
        assert(items@.take(items@.len() as int) =~= items@);
    }
    Some(out)
}

/// Reads a required array-of-integers field.
pub fn get_i64_vec(fields: &Vec<(String, Json)>, key: &str) -> (r: Option<Vec<i64>>)
    ensures
        opt_vec_view(r) == sget_i64_vec(obj_view(fields@), key@),
{
    match find_key(fields, key) {
        Some(i) => match &fields[i].1 {
            Json::Arr(items) => i64s_of_items(items),
            _ => None,
        },
        None => None,
    }
}

/// Reads a required array-of-numbers field as decimal texts.
pub fn get_dec_vec(fields: &Vec<(String, Json)>, key: &str) -> (r: Option<Vec<Decimal>>)
    ensures
        opt_vec_view(r) == sget_dec_vec(obj_view(fields@), key@),
{
    match find_key(fields, key) {
        Some(i) => match &fields[i].1 {
            Json::Arr(items) => decs_of_items(items),
            _ => None,
        },
        None => None,
    }
}

/// Builds the JSON array standing for a vector of strings.
pub fn strs_to_json(v: &Vec<String>) -> (j: Json)
    ensures
        (j matches Json::Arr(items) && items@ == str_arr(v@)),
        (j matches Json::Arr(items) && json_strs(items@) == Some(v@)),
{
    let mut items: Vec<Json> = Vec::new();
    let mut i: usize = 0;
    while i < v.len()
        invariant
            i <= v@.len(),
            items@ == str_arr(v@.take(i as int)),
            json_strs(items@) == Some(v@.take(i as int)),
        decreases v@.len() - i,
    {
        let ghost prev = items@;
        items.push(Json::Str(v[i].clone()));
        proof {
            assert(items@ =~= str_arr(v@.take(i + 1)));
            assert(items@.drop_last() =~= prev);
            assert(v@.take(i + 1) =~= v@.take(i as int) + seq![v@[i as int]]);
        }
        i += 1;
    }
    proof {
        assert(v@.take(v@.len() as int) =~= v@);
        assert(items@ =~= str_arr(v@));
    }
    Json::Arr(items)
}

/// An optional array-of-strings: `null` when absent.
pub fn opt_strs_to_json(v: &Option<Vec<String>>) -> (j: Json)
    ensures
        (match *v {
            Some(vv) => j matches Json::Arr(items) && json_strs(items@) == Some(vv@),
            None => j == Json::Null,
        }),
{
    match v {
        Some(vv) => strs_to_json(vv),
        None => Json::Null,
    }
}

/// Reads an optional array-of-strings field.
pub fn get_opt_str_vec(fields: &Vec<(String, Json)>, key: &str) -> (r: Option<
    Option<Vec<String>>,
>)
    ensures
        (match r {
            Some(v) => sget_opt_str_vec(obj_view(fields@), key@) == Some(opt_vec_view(v)),
            None => sget_opt_str_vec(obj_view(fields@), key@) is None,
        }),
{
    match find_key(fields, key) {
        Some(i) => match &fields[i].1 {
            Json::Arr(items) => match strs_of_items(items) {
                Some(v) => Some(Some(v)),
                None => None,
            },
            Json::Null => Some(None),
            _ => None,
        },
        None => Some(None),
    }
}

/// The JSON array elements standing for a sequence of decimals.
pub open spec fn dec_arr(ds: Seq<Decimal>) -> Seq<Json> {
    ds.map_values(|d: Decimal| Json::Num(d.text))
}

/// Builds the JSON array standing for a vector of decimals.
pub fn decs_to_json(v: &Vec<Decimal>) -> (j: Json)
    ensures
        (j matches Json::Arr(items) && items@ == dec_arr(v@)),
        (j matches Json::Arr(items) && json_decs(items@) == Some(v@)),
{
    let mut items: Vec<Json> = Vec::new();
    let mut i: usize = 0;
    while i < v.len()
        invariant
            i <= v@.len(),
            items@ == dec_arr(v@.take(i as int)),
            json_decs(items@) == Some(v@.take(i as int)),
        decreases v@.len() - i,
    {
        let ghost prev = items@;
        items.push(Json::Num(v[i].text.clone()));
        proof {
            assert(items@ =~= dec_arr(v@.take(i + 1)));
            assert(items@.drop_last() =~= prev);
            assert(v@.take(i + 1) =~= v@.take(i as int) + seq![v@[i as int]]);
            assert(Decimal { text: v@[i as int].text } == v@[i as int]);
        }
        i += 1;
    }
    proof {
        assert(v@.take(v@.len() as int) =~= v@);
    }
    Json::Arr(items)
}

/// Builds the JSON array standing for a vector of integers, in canonical
/// decimal tokens.
pub fn i64s_to_json(v: &Vec<i64>) -> (j: Json)
    ensures
        (j matches Json::Arr(items) && json_i64s(items@) == Some(v@) && items@.len()
            == v@.len()),
{
    let mut items: Vec<Json> = Vec::new();
    let mut i: usize = 0;
    while i < v.len()
        invariant
            i <= v@.len(),
            items@.len() == i,
            json_i64s(items@) == Some(v@.take(i as int)),
        decreases v@.len() - i,
    {
        let tok = crate::num::i64_to_dec(v[i]);
        let ghost prev = items@;
        items.push(Json::Num(tok));
        proof {
            crate::num::lemma_parse_dec_i64(v@[i as int]);
            assert(items@.drop_last() =~= prev);
            assert(v@.take(i + 1) =~= v@.take(i as int) + seq![v@[i as int]]);
        }
        i += 1;
    }
    proof {
        assert(v@.take(v@.len() as int) =~= v@);
    }
    Json::Arr(items)
}

/// The JSON value of an optional string: `null` when absent, as the wire
/// contract writes absent optional fields.
pub open spec fn opt_str_json(v: Option<String>) -> Json {
    match v {
        Some(s) => Json::Str(s),
        None => Json::Null,
    }
}

/// Builds the JSON value of an optional string field.
pub fn opt_str_to_json(v: &Option<String>) -> (j: Json)
    ensures
        j == opt_str_json(*v),
{
    match v {
        Some(s) => Json::Str(s.clone()),
        None => Json::Null,
    }
}

/// The JSON value of an optional number: `null` when absent.
pub open spec fn opt_dec_json(v: Option<Decimal>) -> Json {
    match v {
        Some(d) => Json::Num(d.text),
        None => Json::Null,
    }
}

/// Builds the JSON value of an optional number field.
pub fn opt_dec_to_json(v: &Option<Decimal>) -> (j: Json)
    ensures
        j == opt_dec_json(*v),
{
    match v {
        Some(d) => Json::Num(d.text.clone()),
        None => Json::Null,
    }
}

/// The JSON value of an optional boolean: `null` when absent.
pub open spec fn opt_bool_json(v: Option<bool>) -> Json {
    match v {
        Some(b) => Json::Bool(b),
        None => Json::Null,
    }
}

/// Builds the JSON value of an optional boolean field.
pub fn opt_bool_to_json(v: &Option<bool>) -> (j: Json)
    ensures
        j == opt_bool_json(*v),
{
    match v {
        Some(b) => Json::Bool(*b),
        None => Json::Null,
    }
}

/// Builds the JSON number token of an `i64`.
pub fn i64_to_json(n: i64) -> (j: Json)
    ensures
        (j matches Json::Num(t) && t@ == crate::num::dec_int(n as int)),
{
    Json::Num(crate::num::i64_to_dec(n))
}

/// Builds the JSON number token of an optional `i64`: `null` when absent.
pub fn opt_i64_to_json(v: &Option<i64>) -> (j: Json)
    ensures
        (match *v {
            Some(n) => j matches Json::Num(t) && t@ == crate::num::dec_int(n as int),
            None => j == Json::Null,
        }),
{
    match v {
        Some(n) => Json::Num(crate::num::i64_to_dec(*n)),
        None => Json::Null,
    }
}

/// Builds the JSON number token of an `i32`.
pub fn i32_to_json(n: i32) -> (j: Json)
    ensures
        (j matches Json::Num(t) && t@ == crate::num::dec_int(n as int)),
{
    Json::Num(crate::num::i64_to_dec(n as i64))
}

/// Builds the JSON number token of an optional `i32`: `null` when absent.
pub fn opt_i32_to_json(v: &Option<i32>) -> (j: Json)
    ensures
        (match *v {
            Some(n) => j matches Json::Num(t) && t@ == crate::num::dec_int(n as int),
            None => j == Json::Null,
        }),
{
    match v {
        Some(n) => Json::Num(crate::num::i64_to_dec(*n as i64)),
        None => Json::Null,
    }
}

/// Builds the JSON number token of a `usize` count.
pub fn usize_to_json(n: usize) -> (j: Json)
    ensures
        (j matches Json::Num(t) && t@ == crate::num::dec_digits(n as nat)),
{
    Json::Num(crate::num::u64_to_dec(n as u64))
}

// ---------------------------------------------------------------------------
// Building objects
// ---------------------------------------------------------------------------
/// Appends one field to an object under construction.
pub fn push_field(fields: &mut Vec<(String, Json)>, key: &str, v: Json)
    ensures
        obj_view(final(fields)@) == obj_view(old(fields)@) + seq![(key@, v)],
        field_keys(final(fields)@) == field_keys(old(fields)@) + seq![key@],
{
    let ks = String::from_str(key);
    fields.push((ks, v));
    proof {
        assert(obj_view(fields@) =~= obj_view(old(fields)@) + seq![(key@, v)]);
        assert(field_keys(fields@) =~= field_keys(old(fields)@) + seq![key@]);
    }
}

// ---------------------------------------------------------------------------
// Writer
// ---------------------------------------------------------------------------
/// Appends one character to a string.
///
/// Relies on std's `String::push`: appends exactly the given character.
#[verifier::external_body]
pub(crate) fn push_char(out: &mut String, c: char)
    ensures
        final(out)@ == old(out)@ + seq![c],
{
    out.push(c);
}

/// Appends the escaped body of a JSON string literal.
fn append_escaped(out: &mut String, s: &str)
    ensures
        final(out)@ == old(out)@ + escape_str(s@),
{
    let n = s.unicode_len();
    let mut i: usize = 0;
    while i < n
        invariant
            n == s@.len(),
            i <= n,
            out@ == old(out)@ + escape_str(s@.take(i as int)),
        decreases n - i,
    {
        let c = s.get_char(i);
        if c == '"' {
            push_char(out, '\\');
            push_char(out, '"');
        } else if c == '\\' {
            push_char(out, '\\');
            push_char(out, '\\');
        } else {
            push_char(out, c);
        }
        proof {
            let t = s@.take(i + 1);
            assert(t.drop_last() =~= s@.take(i as int));
            assert(t.last() == s@[i as int]);
        }
        i += 1;
    }
    proof {
        assert(s@.take(n as int) =~= s@);
    }
}

/// Appends the serialized text of a JSON value.
#[verifier::loop_isolation(false)]
fn append_json(out: &mut String, j: &Json)
    ensures
        final(out)@ == old(out)@ + json_text(*j),
    decreases *j,
{
    match j {
        Json::Null => out.append("null"),
        Json::Bool(b) => {
            if *b {
                out.append("true");
            } else {
                out.append("false");
            }
        },
        Json::Num(t) => out.append(t.as_str()),
        Json::Str(s) => {
            push_char(out, '"');
            append_escaped(out, s.as_str());
            push_char(out, '"');
        },
        Json::Arr(items) => {
            push_char(out, '[');
            let mut i: usize = 0;
            while i < items.len()
                invariant
                    i <= items@.len(),
                    out@ == old(out)@ + seq!['['] + arr_text(items@.take(i as int)),
                decreases items@.len() - i,
            {
                if i > 0 {
                    push_char(out, ',');
                }
                append_json(out, &items[i]);
                proof {
                    let t = items@.take(i + 1);
                    assert(t.drop_last() =~= items@.take(i as int));
                    assert(t.last() == items@[i as int]);
                    assert(out@ =~= old(out)@ + seq!['['] + arr_text(t));
                }
                i += 1;
            }
            proof {
                assert(items@.take(items@.len() as int) =~= items@);
            }
            push_char(out, ']');
        },
        Json::Obj(fields) => {
            push_char(out, '{');
            let mut i: usize = 0;
            while i < fields.len()
                invariant
                    i <= fields@.len(),
                    out@ == old(out)@ + seq!['{'] + obj_text(fields@.take(i as int)),
                decreases fields@.len() - i,
            {
                if i > 0 {
                    push_char(out, ',');
                }
                push_char(out, '"');
                append_escaped(out, fields[i].0.as_str());
                push_char(out, '"');
                push_char(out, ':');
                append_json(out, &fields[i].1);
                proof {
                    let t = fields@.take(i + 1);
                    assert(t.drop_last() =~= fields@.take(i as int));
                    assert(t.last() == fields@[i as int]);
                    assert(member_text(fields@[i as int]) =~= seq!['"'] + escape_str(
                        fields@[i as int].0@,
                    ) + seq!['"'] + seq![':'] + json_text(fields@[i as int].1));
                    assert(out@ =~= old(out)@ + seq!['{'] + obj_text(t));
                }
                i += 1;
            }
            proof {
                assert(fields@.take(fields@.len() as int) =~= fields@);
            }
            push_char(out, '}');
        },
    }
}

/// Serializes a JSON value to its wire text.
pub fn write_json(j: &Json) -> (s: String)
    ensures
        s@ == json_text(*j),
{
    let mut out = String::new();
    append_json(&mut out, j);
    out
}

} // verus!
