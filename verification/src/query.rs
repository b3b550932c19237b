//! URL query strings: parameter lists rendered as `?k=v&k=v`, with values
//! percent-encoded. An absent optional field contributes no parameter.
use vstd::prelude::*;
use vstd::string::StringExecFns;
use vstd::string::StrSliceExecFns;

use crate::entities::image::ImageDataRequest;
use crate::entities::image::ImageListQuery;
use crate::entities::maneuver::ManeuverListQuery;
use crate::entities::observation::ObservationQuery;
use crate::entities::satellite::SatelliteListQuery;
use crate::entities::weather::WeatherQuery;
use crate::json::Decimal;
use crate::json::push_char;
use crate::num::dec_int;

verus! {

// ---------------------------------------------------------------------------
// Percent-encoding
// ---------------------------------------------------------------------------
/// A character that passes into a query value unchanged.
pub open spec fn is_unreserved(c: char) -> bool {
    ||| 'a' <= c && c <= 'z'
    ||| 'A' <= c && c <= 'Z'
    ||| '0' <= c && c <= '9'
    ||| c == '-'
    ||| c == '_'
    ||| c == '.'
    ||| c == '~'
}

pub open spec fn hex_digit(d: nat) -> char {
    if d == 0 {
        '0'
    } else if d == 1 {
        '1'
    } else if d == 2 {
        '2'
    } else if d == 3 {
        '3'
    } else if d == 4 {
        '4'
    } else if d == 5 {
        '5'
    } else if d == 6 {
        '6'
    } else if d == 7 {
        '7'
    } else if d == 8 {
        '8'
    } else if d == 9 {
        '9'
    } else if d == 10 {
        'A'
    } else if d == 11 {
        'B'
    } else if d == 12 {
        'C'
    } else if d == 13 {
        'D'
    } else if d == 14 {
        'E'
    } else {
        'F'
    }
}

/// The encoded form of one query-value character: unreserved characters pass
/// through, other ASCII becomes `%XX`, and characters beyond ASCII pass
/// through for the transport to carry as UTF-8.
pub open spec fn pct_char(c: char) -> Seq<char> {
    if is_unreserved(c) {
        seq![c]
    } else if (c as nat) < 128 {
        seq!['%', hex_digit((c as nat) / 16), hex_digit((c as nat) % 16)]
    } else {
        seq![c]
    }
}

/// The encoded form of a whole query value.
pub open spec fn pct_encode(s: Seq<char>) -> Seq<char>
    decreases s.len(),
{
    if s.len() == 0 {
        Seq::empty()
    } else {
        pct_encode(s.drop_last()) + pct_char(s.last())
    }
}

fn hex_digit_exec(d: u32) -> (c: char)
    requires
        d < 16,
    ensures
        c == hex_digit(d as nat),
{
    if d == 0 {
        '0'
    } else if d == 1 {
        '1'
    } else if d == 2 {
        '2'
    } else if d == 3 {
        '3'
    } else if d == 4 {
        '4'
    } else if d == 5 {
        '5'
    } else if d == 6 {
        '6'
    } else if d == 7 {
        '7'
    } else if d == 8 {
        '8'
    } else if d == 9 {
        '9'
    } else if d == 10 {
        'A'
    } else if d == 11 {
        'B'
    } else if d == 12 {
        'C'
    } else if d == 13 {
        'D'
    } else if d == 14 {
        'E'
    } else {
        'F'
    }
}

fn is_unreserved_exec(c: char) -> (r: bool)
    ensures
        r == is_unreserved(c),
{
    ('a' <= c && c <= 'z') || ('A' <= c && c <= 'Z') || ('0' <= c && c <= '9') || c == '-' || c
        == '_' || c == '.' || c == '~'
}

/// Appends the percent-encoded form of a query value.
fn append_pct(out: &mut String, s: &str)
    ensures
        final(out)@ == old(out)@ + pct_encode(s@),
{
    let n = s.unicode_len();
    let mut i: usize = 0;
    while i < n
        invariant
            n == s@.len(),
            i <= n,
            out@ == old(out)@ + pct_encode(s@.take(i as int)),
        decreases n - i,
    {
        let c = s.get_char(i);
        if is_unreserved_exec(c) {
            push_char(out, c);
        } else {
            let code = c as u32;
            if code < 128 {
                push_char(out, '%');
                push_char(out, hex_digit_exec(code / 16));
                push_char(out, hex_digit_exec(code % 16));
            } else {
                push_char(out, c);
            }
        }
        proof {
            let t = s@.take(i + 1);
            assert(t.drop_last() =~= s@.take(i as int));
            assert(t.last() == s@[i as int]);
            assert(out@ =~= old(out)@ + pct_encode(t));
        }
        i += 1;
    }
    proof {
        assert(s@.take(n as int) =~= s@);
    }
}

// ---------------------------------------------------------------------------
// Parameter lists and rendering
// ---------------------------------------------------------------------------
/// The character-level view of a parameter list.
pub open spec fn params_view(ps: Seq<(String, String)>) -> Seq<(Seq<char>, Seq<char>)> {
    ps.map_values(|p: (String, String)| (p.0@, p.1@))
}

/// One `key=value` pair; the key is a fixed token and goes out verbatim.
pub open spec fn pair_text(p: (Seq<char>, Seq<char>)) -> Seq<char> {
    p.0 + seq!['='] + pct_encode(p.1)
}

/// The `&`-joined pairs of a query.
pub open spec fn query_pairs(ps: Seq<(Seq<char>, Seq<char>)>) -> Seq<char>
    decreases ps.len(),
{
    if ps.len() == 0 {
        Seq::empty()
    } else if ps.len() == 1 {
        pair_text(ps[0])
    } else {
        query_pairs(ps.drop_last()) + seq!['&'] + pair_text(ps.last())
    }
}

/// The rendered query string: empty for an empty parameter list, else `?`
/// followed by the pairs.
pub open spec fn query_string(ps: Seq<(Seq<char>, Seq<char>)>) -> Seq<char> {
    if ps.len() == 0 {
        Seq::empty()
    } else {
        seq!['?'] + query_pairs(ps)
    }
}

/// Renders a parameter list; an empty list renders as the empty string.
#[verifier::loop_isolation(false)]
pub fn render_query(ps: &Vec<(String, String)>) -> (s: String)
    ensures
        s@ == query_string(params_view(ps@)),
{
    let mut out = String::new();
    if ps.len() == 0 {
        return out;
    }
    push_char(&mut out, '?');
    let mut i: usize = 0;
    while i < ps.len()
        invariant
            i <= ps@.len(),
            ps@.len() > 0,
            out@ == seq!['?'] + query_pairs(params_view(ps@).take(i as int)),
        decreases ps@.len() - i,
    {
        if i > 0 {
            push_char(&mut out, '&');
        }
        out.append(ps[i].0.as_str());
        push_char(&mut out, '=');
        append_pct(&mut out, ps[i].1.as_str());
        proof {
            let v = params_view(ps@);
            let t = v.take(i + 1);
            assert(t.drop_last() =~= v.take(i as int));
            assert(t.last() == v[i as int]);
            assert(out@ =~= seq!['?'] + query_pairs(t));
        }
        i += 1;
    }
    proof {
        assert(params_view(ps@).take(ps@.len() as int) =~= params_view(ps@));
    }
    out
}

// ---------------------------------------------------------------------------
// Building parameter lists
// ---------------------------------------------------------------------------
/// The parameters contributed by an optional text field.
pub open spec fn opt_str_param(key: Seq<char>, v: Option<String>) -> Seq<(Seq<char>, Seq<char>)> {
    match v {
        Some(s) => seq![(key, s@)],
        None => Seq::empty(),
    }
}

/// The parameters contributed by an optional integer field.
pub open spec fn opt_i64_param(key: Seq<char>, v: Option<i64>) -> Seq<(Seq<char>, Seq<char>)> {
    match v {
        Some(n) => seq![(key, dec_int(n as int))],
        None => Seq::empty(),
    }
}

/// The parameters contributed by an optional integer field.
pub open spec fn opt_i32_param(key: Seq<char>, v: Option<i32>) -> Seq<(Seq<char>, Seq<char>)> {
    match v {
        Some(n) => seq![(key, dec_int(n as int))],
        None => Seq::empty(),
    }
}

/// The parameters contributed by an optional boolean field.
pub open spec fn opt_bool_param(key: Seq<char>, v: Option<bool>) -> Seq<(Seq<char>, Seq<char>)> {
    match v {
        Some(b) => seq![(key, if b { "true"@ } else { "false"@ })],
        None => Seq::empty(),
    }
}

/// One repeated parameter per element, in order.
pub open spec fn repeated_params(key: Seq<char>, vs: Seq<String>) -> Seq<(Seq<char>, Seq<char>)> {
    vs.map_values(|s: String| (key, s@))
}

/// The parameters contributed by an optional list field: one parameter per
/// element when present, none when absent.
pub open spec fn opt_repeated_params(key: Seq<char>, v: Option<Vec<String>>) -> Seq<
    (Seq<char>, Seq<char>),
> {
    match v {
        Some(vs) => repeated_params(key, vs@),
        None => Seq::empty(),
    }
}

/// Appends one required parameter.
pub fn push_param(ps: &mut Vec<(String, String)>, key: &str, v: String)
    ensures
        params_view(final(ps)@) == params_view(old(ps)@) + seq![(key@, v@)],
{
    let ks = String::from_str(key);
    let ghost gv = v@;
    ps.push((ks, v));
    proof {
        assert(params_view(ps@) =~= params_view(old(ps)@) + seq![(key@, gv)]);
    }
}

/// Appends a parameter when the optional text field is present.
pub fn push_opt_str_param(ps: &mut Vec<(String, String)>, key: &str, v: &Option<String>)
    ensures
        params_view(final(ps)@) == params_view(old(ps)@) + opt_str_param(key@, *v),
{
    match v {
        Some(s) => push_param(ps, key, s.clone()),
        None => (),
    }
}

/// Appends a parameter when the optional integer field is present.
pub fn push_opt_i64_param(ps: &mut Vec<(String, String)>, key: &str, v: &Option<i64>)
    ensures
        params_view(final(ps)@) == params_view(old(ps)@) + opt_i64_param(key@, *v),
{
    match v {
        Some(n) => push_param(ps, key, crate::num::i64_to_dec(*n)),
        None => (),
    }
}

/// Appends a parameter when the optional integer field is present.
pub fn push_opt_i32_param(ps: &mut Vec<(String, String)>, key: &str, v: &Option<i32>)
    ensures
        params_view(final(ps)@) == params_view(old(ps)@) + opt_i32_param(key@, *v),
{
    match v {
        Some(n) => push_param(ps, key, crate::num::i64_to_dec(*n as i64)),
        None => (),
    }
}

/// Appends a parameter when the optional boolean field is present.
pub fn push_opt_bool_param(ps: &mut Vec<(String, String)>, key: &str, v: &Option<bool>)
    ensures
        params_view(final(ps)@) == params_view(old(ps)@) + opt_bool_param(key@, *v),
{
    match v {
        Some(b) => {
            let t = if *b {
                String::from_str("true")
            } else {
                String::from_str("false")
            };
            push_param(ps, key, t);
        },
        None => (),
    }
}

/// Appends one parameter per element of a list, in the list's order.
pub fn push_repeated_params(ps: &mut Vec<(String, String)>, key: &str, vs: &Vec<String>)
    ensures
        params_view(final(ps)@) == params_view(old(ps)@) + repeated_params(key@, vs@),
{
    let mut i: usize = 0;
    while i < vs.len()
        invariant
            i <= vs@.len(),
            params_view(ps@) == params_view(old(ps)@) + repeated_params(key@, vs@.take(i as int)),
        decreases vs@.len() - i,
    {
        push_param(ps, key, vs[i].clone());
        proof {
            assert(repeated_params(key@, vs@.take(i + 1)) =~= repeated_params(
                key@,
                vs@.take(i as int),
            ) + seq![(key@, vs@[i as int]@)]);
            assert(params_view(ps@) =~= params_view(old(ps)@) + repeated_params(
                key@,
                vs@.take(i + 1),
            ));
        }
        i += 1;
    }
    proof {
        assert(vs@.take(vs@.len() as int) =~= vs@);
    }
}

/// Appends one parameter per element when the optional list is present.
pub fn push_opt_repeated_params(
    ps: &mut Vec<(String, String)>,
    key: &str,
    v: &Option<Vec<String>>,
)
    ensures
        params_view(final(ps)@) == params_view(old(ps)@) + opt_repeated_params(key@, *v),
{
    match v {
        Some(vs) => push_repeated_params(ps, key, vs),
        None => (),
    }
}

/// Appends one required decimal parameter.
pub fn push_dec_param(ps: &mut Vec<(String, String)>, key: &str, v: &Decimal)
    ensures
        params_view(final(ps)@) == params_view(old(ps)@) + seq![(key@, v.text@)],
{
    push_param(ps, key, v.text.clone());
}

// ---------------------------------------------------------------------------
// Query parameters of the list-filter records
// ---------------------------------------------------------------------------
/// The query parameters of a satellite listing: one parameter per present
/// field, `ids` repeated per element, in field order.
pub open spec fn satellite_list_query_params(q: SatelliteListQuery) -> Seq<
    (Seq<char>, Seq<char>),
> {
    opt_repeated_params("ids"@, q.ids) + opt_str_param("search"@, q.search) + opt_str_param(
        "country"@,
        q.country,
    ) + opt_str_param("objectType"@, q.object_type) + opt_bool_param(
        "includeDecayed"@,
        q.include_decayed,
    ) + opt_str_param("sortBy"@, q.sort_by) + opt_str_param("sortOrder"@, q.sort_order)
        + opt_i64_param("offset"@, q.offset) + opt_i64_param("limit"@, q.limit)
}

impl SatelliteListQuery {
    /// Renders the present filter fields, and only those, as parameters.
    pub fn to_query_params(&self) -> (r: Vec<(String, String)>)
        ensures
            params_view(r@) == satellite_list_query_params(*self),
    {
        let mut ps: Vec<(String, String)> = Vec::new();
        push_opt_repeated_params(&mut ps, "ids", &self.ids);
        push_opt_str_param(&mut ps, "search", &self.search);
        push_opt_str_param(&mut ps, "country", &self.country);
        push_opt_str_param(&mut ps, "objectType", &self.object_type);
        push_opt_bool_param(&mut ps, "includeDecayed", &self.include_decayed);
        push_opt_str_param(&mut ps, "sortBy", &self.sort_by);
        push_opt_str_param(&mut ps, "sortOrder", &self.sort_order);
        push_opt_i64_param(&mut ps, "offset", &self.offset);
        push_opt_i64_param(&mut ps, "limit", &self.limit);
        proof {
            assert(params_view(ps@) =~= satellite_list_query_params(*self));
        }
        ps
    }
}

/// A satellite listing with every filter absent yields no parameters, so its
/// query string is empty.
pub proof fn lemma_satellite_list_query_all_absent(q: SatelliteListQuery)
    requires
        q.ids is None,
        q.search is None,
        q.country is None,
        q.object_type is None,
        q.include_decayed is None,
        q.sort_by is None,
        q.sort_order is None,
        q.offset is None,
        q.limit is None,
    ensures
        satellite_list_query_params(q) == Seq::<(Seq<char>, Seq<char>)>::empty(),
        query_string(satellite_list_query_params(q)) == Seq::<char>::empty(),
{
    assert(satellite_list_query_params(q) =~= Seq::<(Seq<char>, Seq<char>)>::empty());
}

/// The query parameters of an image listing.
pub open spec fn image_list_query_params(q: ImageListQuery) -> Seq<(Seq<char>, Seq<char>)> {
    opt_i64_param("offset"@, q.offset) + opt_i64_param("limit"@, q.limit) + opt_str_param(
        "status"@,
        q.status,
    )
}

impl ImageListQuery {
    /// Renders the present filter fields, and only those, as parameters.
    pub fn to_query_params(&self) -> (r: Vec<(String, String)>)
        ensures
            params_view(r@) == image_list_query_params(*self),
    {
        let mut ps: Vec<(String, String)> = Vec::new();
        push_opt_i64_param(&mut ps, "offset", &self.offset);
        push_opt_i64_param(&mut ps, "limit", &self.limit);
        push_opt_str_param(&mut ps, "status", &self.status);
        proof {
            assert(params_view(ps@) =~= image_list_query_params(*self));
        }
        ps
    }
}

/// An image listing with every filter absent yields no parameters.
pub proof fn lemma_image_list_query_all_absent(q: ImageListQuery)
    requires
        q.offset is None,
        q.limit is None,
        q.status is None,
    ensures
        image_list_query_params(q) == Seq::<(Seq<char>, Seq<char>)>::empty(),
        query_string(image_list_query_params(q)) == Seq::<char>::empty(),
{
    assert(image_list_query_params(q) =~= Seq::<(Seq<char>, Seq<char>)>::empty());
}

/// The query parameters of an image-data fetch.
pub open spec fn image_data_request_params(q: ImageDataRequest) -> Seq<(Seq<char>, Seq<char>)> {
    opt_i32_param("binning"@, q.binning) + opt_str_param("contrast"@, q.contrast)
}

impl ImageDataRequest {
    /// Renders the present option fields, and only those, as parameters.
    pub fn to_query_params(&self) -> (r: Vec<(String, String)>)
        ensures
            params_view(r@) == image_data_request_params(*self),
    {
        let mut ps: Vec<(String, String)> = Vec::new();
        push_opt_i32_param(&mut ps, "binning", &self.binning);
        push_opt_str_param(&mut ps, "contrast", &self.contrast);
        proof {
            assert(params_view(ps@) =~= image_data_request_params(*self));
        }
        ps
    }
}

/// An image-data fetch with every option absent yields no parameters.
pub proof fn lemma_image_data_request_all_absent(q: ImageDataRequest)
    requires
        q.binning is None,
        q.contrast is None,
    ensures
        image_data_request_params(q) == Seq::<(Seq<char>, Seq<char>)>::empty(),
        query_string(image_data_request_params(q)) == Seq::<char>::empty(),
{
    assert(image_data_request_params(q) =~= Seq::<(Seq<char>, Seq<char>)>::empty());
}

/// The query parameters of a maneuver listing.
pub open spec fn maneuver_list_query_params(q: ManeuverListQuery) -> Seq<(Seq<char>, Seq<char>)> {
    opt_str_param("satelliteId"@, q.satellite_id) + opt_str_param("status"@, q.status)
        + opt_str_param("start"@, q.start) + opt_str_param("end"@, q.end) + opt_i64_param(
        "offset"@,
        q.offset,
    ) + opt_i64_param("limit"@, q.limit)
}

impl ManeuverListQuery {
    /// Renders the present filter fields, and only those, as parameters.
    pub fn to_query_params(&self) -> (r: Vec<(String, String)>)
        ensures
            params_view(r@) == maneuver_list_query_params(*self),
    {
        let mut ps: Vec<(String, String)> = Vec::new();
        push_opt_str_param(&mut ps, "satelliteId", &self.satellite_id);
        push_opt_str_param(&mut ps, "status", &self.status);
        push_opt_str_param(&mut ps, "start", &self.start);
        push_opt_str_param(&mut ps, "end", &self.end);
        push_opt_i64_param(&mut ps, "offset", &self.offset);
        push_opt_i64_param(&mut ps, "limit", &self.limit);
        proof {
            assert(params_view(ps@) =~= maneuver_list_query_params(*self));
        }
        ps
    }
}

/// A maneuver listing with every filter absent yields no parameters.
pub proof fn lemma_maneuver_list_query_all_absent(q: ManeuverListQuery)
    requires
        q.satellite_id is None,
        q.status is None,
        q.start is None,
        q.end is None,
        q.offset is None,
        q.limit is None,
    ensures
        maneuver_list_query_params(q) == Seq::<(Seq<char>, Seq<char>)>::empty(),
        query_string(maneuver_list_query_params(q)) == Seq::<char>::empty(),
{
    assert(maneuver_list_query_params(q) =~= Seq::<(Seq<char>, Seq<char>)>::empty());
}

/// The query parameters of an observation listing.
pub open spec fn observation_query_params(q: ObservationQuery) -> Seq<(Seq<char>, Seq<char>)> {
    opt_str_param("satelliteId"@, q.satellite_id) + opt_str_param("telescopeId"@, q.telescope_id)
        + opt_str_param("start"@, q.start) + opt_str_param("end"@, q.end) + opt_i64_param(
        "offset"@,
        q.offset,
    ) + opt_i64_param("limit"@, q.limit)
}

impl ObservationQuery {
    /// Renders the present filter fields, and only those, as parameters.
    pub fn to_query_params(&self) -> (r: Vec<(String, String)>)
        ensures
            params_view(r@) == observation_query_params(*self),
    {
        let mut ps: Vec<(String, String)> = Vec::new();
        push_opt_str_param(&mut ps, "satelliteId", &self.satellite_id);
        push_opt_str_param(&mut ps, "telescopeId", &self.telescope_id);
        push_opt_str_param(&mut ps, "start", &self.start);
        push_opt_str_param(&mut ps, "end", &self.end);
        push_opt_i64_param(&mut ps, "offset", &self.offset);
        push_opt_i64_param(&mut ps, "limit", &self.limit);
        proof {
            assert(params_view(ps@) =~= observation_query_params(*self));
        }
        ps
    }
}

/// An observation listing with every filter absent yields no parameters.
pub proof fn lemma_observation_query_all_absent(q: ObservationQuery)
    requires
        q.satellite_id is None,
        q.telescope_id is None,
        q.start is None,
        q.end is None,
        q.offset is None,
        q.limit is None,
    ensures
        observation_query_params(q) == Seq::<(Seq<char>, Seq<char>)>::empty(),
        query_string(observation_query_params(q)) == Seq::<char>::empty(),
{
    assert(observation_query_params(q) =~= Seq::<(Seq<char>, Seq<char>)>::empty());
}

/// The query parameters of a weather fetch: the coordinates always, the unit
/// system when present.
pub open spec fn weather_query_params(q: WeatherQuery) -> Seq<(Seq<char>, Seq<char>)> {
    seq![("lat"@, q.latitude.text@), ("lon"@, q.longitude.text@)] + opt_str_param(
        "units"@,
        q.units,
    )
}

impl WeatherQuery {
    /// Renders the required coordinates and the present option fields.
    pub fn to_query_params(&self) -> (r: Vec<(String, String)>)
        ensures
            params_view(r@) == weather_query_params(*self),
    {
        let mut ps: Vec<(String, String)> = Vec::new();
        push_dec_param(&mut ps, "lat", &self.latitude);
        push_dec_param(&mut ps, "lon", &self.longitude);
        push_opt_str_param(&mut ps, "units", &self.units);
        proof {
            assert(params_view(ps@) =~= weather_query_params(*self));
        }
        ps
    }
}

/// A weather fetch always carries exactly its required coordinates when the
/// unit system is absent: the mandatory parameters survive an all-absent
/// query.
pub proof fn lemma_weather_query_mandatory(q: WeatherQuery)
    requires
        q.units is None,
    ensures
        weather_query_params(q) == seq![
            ("lat"@, q.latitude.text@),
            ("lon"@, q.longitude.text@),
        ],
{
    assert(weather_query_params(q) =~= seq![
        ("lat"@, q.latitude.text@),
        ("lon"@, q.longitude.text@),
    ]);
}

} // verus!
