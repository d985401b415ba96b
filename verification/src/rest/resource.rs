//! The decisions of the standard REST operations.
//!
//! Each operation (find, all, create, update, delete, count) is a request
//! followed by a check of the response. This module computes everything that
//! goes into the request — the path, the query parameters and the body — and
//! everything that is read out of the response: whether it failed and with
//! which [`ResourceError`], and the count of a count request.
use vstd::prelude::*;

use crate::clients::{HttpError, HttpMethod, HttpResponse, HttpResponseError};
use crate::json::{bool_text, json_get, json_text, number_text, JsonMember, JsonNumber, JsonValue};
use crate::rest::errors::{error_for_response, opt_str, opt_text, ResourceError};
use crate::rest::params::{insert_entry, keys_distinct, lemma_insert_lookup, lookup, StringMap};
use crate::rest::path::{
    build_path, get_path, has_candidate, interpolate, is_selected, names, views, PathView,
    operation_name, ResourceOperation, ResourcePath,
};
use crate::text::{decimal, join, push_char, push_decimal};

verus! {

/// The Unicode lowercase mapping of a text, as `str::to_lowercase` computes it.
pub uninterp spec fn unicode_lowercase(s: Seq<char>) -> Seq<char>;

/// ASCII letters lowered, every other character kept.
pub open spec fn ascii_lowercase(s: Seq<char>) -> Seq<char> {
    s.map_values(|c: char| if 'A' <= c && c <= 'Z' { ((c as u32) + 32) as char } else { c })
}

/// All characters are ASCII.
pub open spec fn is_ascii_text(s: Seq<char>) -> bool {
    forall|i: int| 0 <= i < s.len() ==> (s[i] as u32) < 128
}

/// Calls `str::to_lowercase`. Its result is named `unicode_lowercase`; on
/// ASCII text it lowers the letters A-Z and keeps every other character, as
/// the standard library documents for ASCII input.
#[verifier::external_body]
fn to_lowercase(s: &str) -> (r: String)
    ensures
        r@ == unicode_lowercase(s@),
        is_ascii_text(s@) ==> r@ == ascii_lowercase(s@),
{
    s.to_lowercase()
}

/// The key that wraps a single resource in request and response bodies:
/// the resource name in lowercase.
pub fn resource_key(name: &str) -> (key: String)
    ensures
        key@ == unicode_lowercase(name@),
        is_ascii_text(name@) ==> key@ == ascii_lowercase(name@),
{
    to_lowercase(name)
}

/// A path behind an optional prefix: `prefix/path`, or `path` alone.
pub open spec fn full_path(prefix: Option<Seq<char>>, path: Seq<char>) -> Seq<char> {
    match prefix {
        Some(p) => p + seq!['/'] + path,
        None => path,
    }
}

/// Builds the full path including any prefix.
pub fn build_full_path(prefix: Option<&str>, path: &str) -> (r: String)
    ensures
        r@ == full_path(opt_str(prefix), path@),
{
    match prefix {
        Some(p) => {
            let mut s = String::new();
            s.append(p);
            push_char(&mut s, '/');
            s.append(path);
            s
        },
        None => path.to_string(),
    }
}

/// The texts of the string and number elements of `items`; other elements
/// are dropped.
pub open spec fn scalar_texts(items: Seq<JsonValue>) -> Seq<Seq<char>>
    decreases items.len(),
{
    if items.len() == 0 {
        Seq::empty()
    } else {
        scalar_texts(items.drop_last()) + match items.last() {
            JsonValue::String(s) => seq![s@],
            JsonValue::Number(n) => seq![number_text(n)],
            _ => Seq::empty(),
        }
    }
}

/// The query value of a parameter: nulls and arrays without strings or
/// numbers are left out, arrays become their strings and numbers joined with
/// commas, objects become their JSON text.
pub open spec fn query_value(v: JsonValue) -> Option<Seq<char>> {
    match v {
        JsonValue::Null => None,
        JsonValue::Bool(b) => Some(bool_text(b)),
        JsonValue::Number(n) => Some(number_text(n)),
        JsonValue::String(s) => Some(s@),
        JsonValue::Array(items) => if scalar_texts(items@).len() > 0 {
            Some(join(scalar_texts(items@), seq![',']))
        } else {
            None
        },
        JsonValue::Object(_) => Some(json_text(v)),
    }
}

/// The query value of a parameter when only strings, numbers and booleans
/// are kept.
pub open spec fn scalar_query_value(v: JsonValue) -> Option<Seq<char>> {
    match v {
        JsonValue::Bool(b) => Some(bool_text(b)),
        JsonValue::Number(n) => Some(number_text(n)),
        JsonValue::String(s) => Some(s@),
        _ => None,
    }
}

/// The query entries of the members of a parameter object, inserted in order.
pub open spec fn query_entries(members: Seq<JsonMember>, scalars_only: bool) -> Seq<
    (Seq<char>, Seq<char>),
>
    decreases members.len(),
{
    if members.len() == 0 {
        Seq::empty()
    } else {
        let rest = query_entries(members.drop_last(), scalars_only);
        let value = if scalars_only {
            scalar_query_value(members.last().value)
        } else {
            query_value(members.last().value)
        };
        match value {
            Some(t) => insert_entry(rest, members.last().key@, t),
            None => rest,
        }
    }
}

/// The query parameters of a parameter object; anything but an object has none.
pub open spec fn query_of(params: JsonValue, scalars_only: bool) -> Seq<(Seq<char>, Seq<char>)> {
    match params {
        JsonValue::Object(members) => query_entries(members@, scalars_only),
        _ => Seq::empty(),
    }
}

fn push_number_text(n: &JsonNumber) -> (s: String)
    ensures
        s@ == number_text(*n),
{
    let mut s = String::new();
    crate::json::push_number(&mut s, n);
    s
}

fn bool_string(b: bool) -> (s: String)
    ensures
        s@ == bool_text(b),
{
    if b {
        proof {
            reveal_strlit("true");
        }
        "true".to_string()
    } else {
        proof {
            reveal_strlit("false");
        }
        "false".to_string()
    }
}

fn scalar_strings(items: &Vec<JsonValue>) -> (r: Vec<String>)
    ensures
        r@.map_values(|x: String| x@) == scalar_texts(items@),
{
    let mut r: Vec<String> = Vec::new();
    let mut i: usize = 0;
    while i < items.len()
        invariant
            i <= items@.len(),
            r@.map_values(|x: String| x@) == scalar_texts(items@.take(i as int)),
        decreases items.len() - i,
    {
        match &items[i] {
            JsonValue::String(s) => {
                r.push(s.clone());
            },
            JsonValue::Number(n) => {
                r.push(push_number_text(n));
            },
            _ => {},
        }
        i = i + 1;
        assert(items@.take(i as int).drop_last() == items@.take(i - 1));
        assert(r@.map_values(|x: String| x@) == scalar_texts(items@.take(i as int)));
    }
    assert(items@.take(items@.len() as int) == items@);
    r
}

fn value_text(v: &JsonValue, scalars_only: bool) -> (r: Option<String>)
    ensures
        opt_text(r) == (if scalars_only {
            scalar_query_value(*v)
        } else {
            query_value(*v)
        }),
{
    match v {
        JsonValue::Null => None,
        JsonValue::Bool(b) => Some(bool_string(*b)),
        JsonValue::Number(n) => Some(push_number_text(n)),
        JsonValue::String(s) => Some(s.clone()),
        JsonValue::Array(items) => {
            if scalars_only {
                None
            } else {
                let vals = scalar_strings(items);
                if vals.len() > 0 {
                    proof {
                        reveal_strlit(",");
                    }
                    assert(","@ == seq![',']);
                    let joined = crate::text::join_text(&vals, ",");
                    assert(joined@ == join(scalar_texts(items@), seq![',']));
                    Some(joined)
                } else {
                    None
                }
            }
        },
        JsonValue::Object(_) => {
            if scalars_only {
                None
            } else {
                Some(v.to_json_string())
            }
        },
    }
}

fn query_from(params: &JsonValue, scalars_only: bool) -> (q: StringMap)
    ensures
        q@ == query_of(*params, scalars_only),
{
    let mut q = StringMap::new();
    match params {
        JsonValue::Object(members) => {
            let mut i: usize = 0;
            while i < members.len()
                invariant
                    i <= members@.len(),
                    q@ == query_entries(members@.take(i as int), scalars_only),
                decreases members.len() - i,
            {
                let m = &members[i];
                match value_text(&m.value, scalars_only) {
                    Some(t) => q.insert(m.key.as_str(), t.as_str()),
                    None => {},
                }
                i = i + 1;
                assert(members@.take(i as int).drop_last() == members@.take(i - 1));
            }
            assert(members@.take(members@.len() as int) == members@);
        },
        _ => {},
    }
    q
}

/// Serializes a params object to query parameters: nulls are skipped,
/// strings, numbers and booleans become their text, arrays become their
/// string and number elements joined with commas (when there are any), and
/// nested objects become their JSON text.
pub fn serialize_to_query(params: &JsonValue) -> (q: StringMap)
    ensures
        q@ == query_of(*params, false),
{
    query_from(params, false)
}

/// The query value of a member: any value, or only scalars.
pub open spec fn member_query_value(m: JsonMember, scalars_only: bool) -> Option<Seq<char>> {
    if scalars_only {
        scalar_query_value(m.value)
    } else {
        query_value(m.value)
    }
}

/// Which keys a params object's query has and what they hold: a key is
/// present exactly when some member with that name has a query value (a
/// string, number, boolean, object, or array with a string or number; never
/// a null), and it holds the value of the last such member.
proof fn lemma_query_entries(members: Seq<JsonMember>, scalars_only: bool, k: Seq<char>)
    ensures
        lookup(query_entries(members, scalars_only), k) is Some <==> exists|i: int|
            0 <= i < members.len() && (#[trigger] members[i]).key@ == k && member_query_value(
                members[i],
                scalars_only,
            ) is Some,
        lookup(query_entries(members, scalars_only), k) matches Some(t) ==> exists|i: int|
            0 <= i < members.len() && (#[trigger] members[i]).key@ == k && member_query_value(
                members[i],
                scalars_only,
            ) == Some(t) && forall|j: int|
                i < j < members.len() && (#[trigger] members[j]).key@ == k ==> member_query_value(
                    members[j],
                    scalars_only,
                ) is None,
    decreases members.len(),
{
    if members.len() > 0 {
        let init = members.drop_last();
        let last = members.last();
        let n = members.len() - 1;
        lemma_query_entries(init, scalars_only, k);
        let q = query_entries(init, scalars_only);
        assert(forall|i: int| 0 <= i < init.len() ==> init[i] == members[i]);
        assert(members[n] == last);
        match member_query_value(last, scalars_only) {
            Some(t) => {
                lemma_insert_lookup(q, last.key@, t, k);
                if last.key@ == k {
                    assert(members[n].key@ == k);
                } else {
                    if lookup(q, k) is Some {
                        let i = choose|i: int|
                            0 <= i < init.len() && (#[trigger] init[i]).key@ == k && member_query_value(
                                init[i],
                                scalars_only,
                            ) == lookup(q, k) && forall|j: int|
                                i < j < init.len() && (#[trigger] init[j]).key@ == k ==> member_query_value(
                                    init[j],
                                    scalars_only,
                                ) is None;
                        assert(members[i] == init[i]);
                        assert forall|j: int|
                            i < j < members.len() && (#[trigger] members[j]).key@ == k implies member_query_value(
                                members[j],
                                scalars_only,
                            ) is None by {
                            assert(j < init.len());
                            assert(members[j] == init[j]);
                        }
                    }
                    if exists|i: int|
                        0 <= i < members.len() && (#[trigger] members[i]).key@ == k && member_query_value(
                            members[i],
                            scalars_only,
                        ) is Some {
                        let i = choose|i: int|
                            0 <= i < members.len() && (#[trigger] members[i]).key@ == k && member_query_value(
                                members[i],
                                scalars_only,
                            ) is Some;
                        assert(i < n);
                        assert(init[i] == members[i]);
                    }
                }
            },
            None => {
                if lookup(q, k) is Some {
                    let i = choose|i: int|
                        0 <= i < init.len() && (#[trigger] init[i]).key@ == k && member_query_value(
                            init[i],
                            scalars_only,
                        ) == lookup(q, k) && forall|j: int|
                            i < j < init.len() && (#[trigger] init[j]).key@ == k ==> member_query_value(
                                init[j],
                                scalars_only,
                            ) is None;
                    assert(members[i] == init[i]);
                    assert forall|j: int|
                        i < j < members.len() && (#[trigger] members[j]).key@ == k implies member_query_value(
                            members[j],
                            scalars_only,
                        ) is None by {
                        if j < n {
                            assert(members[j] == init[j]);
                        }
                    }
                }
                if exists|i: int|
                    0 <= i < members.len() && (#[trigger] members[i]).key@ == k && member_query_value(
                        members[i],
                        scalars_only,
                    ) is Some {
                    let i = choose|i: int|
                        0 <= i < members.len() && (#[trigger] members[i]).key@ == k && member_query_value(
                            members[i],
                            scalars_only,
                        ) is Some;
                    assert(i < n);
                    assert(init[i] == members[i]);
                }
            },
        }
    }
}

/// `serialize_to_query` keeps exactly the keys that have a value: for a
/// params object, key `k` is in the query exactly when some member named `k`
/// has a query value (nulls never have one), and it holds the value of the
/// last such member; anything but an object gives no query parameters.
pub proof fn lemma_query_keys(params: JsonValue, scalars_only: bool, k: Seq<char>)
    ensures
        !(params is Object) ==> query_of(params, scalars_only).len() == 0,
        params matches JsonValue::Object(members) ==> {
            &&& (lookup(query_of(params, scalars_only), k) is Some <==> exists|i: int|
                0 <= i < members@.len() && (#[trigger] members@[i]).key@ == k && member_query_value(
                    members@[i],
                    scalars_only,
                ) is Some)
            &&& (lookup(query_of(params, scalars_only), k) matches Some(t) ==> exists|i: int|
                0 <= i < members@.len() && (#[trigger] members@[i]).key@ == k && member_query_value(
                    members@[i],
                    scalars_only,
                ) == Some(t) && forall|j: int|
                    i < j < members@.len() && (#[trigger] members@[j]).key@ == k ==> member_query_value(
                        members@[j],
                        scalars_only,
                    ) is None)
        },
{
    match params {
        JsonValue::Object(members) => lemma_query_entries(members@, scalars_only, k),
        _ => {},
    }
}

/// Every member of a params object that is a boolean, a string or a number
/// is in the query under its name, unless a later member has the same name:
/// `true` and `false` as the text `true` and `false`, a string as itself, a
/// number as its JSON text; a nested object (outside scalar-only queries) as
/// its JSON text. A name whose members are all null is left out.
pub proof fn lemma_query_member(params: JsonValue, scalars_only: bool, i: int)
    requires
        params is Object,
        0 <= i < params->Object_0@.len(),
        forall|j: int|
            i < j < params->Object_0@.len() ==> (#[trigger] params->Object_0@[j]).key@
                != params->Object_0@[i].key@,
    ensures
        ({
            let ms = params->Object_0@;
            let k = ms[i].key@;
            let q = lookup(query_of(params, scalars_only), k);
            &&& (ms[i].value matches JsonValue::Bool(b) ==> q == Some(
                if b {
                    seq!['t', 'r', 'u', 'e']
                } else {
                    seq!['f', 'a', 'l', 's', 'e']
                },
            ))
            &&& (ms[i].value matches JsonValue::String(s) ==> q == Some(s@))
            &&& (ms[i].value matches JsonValue::Number(n) ==> q == Some(number_text(n)))
            &&& (!scalars_only && ms[i].value is Object ==> q == Some(json_text(ms[i].value)))
            &&& ((forall|j: int| 0 <= j < ms.len() && (#[trigger] ms[j]).key@ == k ==> ms[j].value is Null) ==> q
                is None)
        }),
{
    let ms = params->Object_0@;
    let k = ms[i].key@;
    lemma_query_entries(ms, scalars_only, k);
    let q = lookup(query_entries(ms, scalars_only), k);
    if member_query_value(ms[i], scalars_only) is Some {
        assert(q is Some);
        let t = q->0;
        let j = choose|j: int|
            0 <= j < ms.len() && (#[trigger] ms[j]).key@ == k && member_query_value(ms[j], scalars_only) == Some(
                t,
            ) && forall|l: int|
                j < l < ms.len() && (#[trigger] ms[l]).key@ == k ==> member_query_value(ms[l], scalars_only) is None;
        if j < i {
            assert(ms[i].key@ == k);
        } else if j > i {
            assert(ms[j].key@ != k);
        }
        assert(j == i);
    }
    if forall|j: int| 0 <= j < ms.len() && (#[trigger] ms[j]).key@ == k ==> ms[j].value is Null {
        if q is Some {
            let j = choose|j: int|
                0 <= j < ms.len() && (#[trigger] ms[j]).key@ == k && member_query_value(ms[j], scalars_only) is Some;
            assert(ms[j].value is Null);
        }
    }
}

/// The count that a response reports is its first `count` member when that
/// is a non-negative integer, zero included; otherwise there is none.
pub proof fn lemma_reported_count(body: JsonValue)
    ensures
        json_get(body, seq!['c', 'o', 'u', 'n', 't']) matches Some(JsonValue::Number(JsonNumber::PosInt(n)))
            ==> reported_count(body) == Some(n),
        !(json_get(body, seq!['c', 'o', 'u', 'n', 't']) matches Some(JsonValue::Number(JsonNumber::PosInt(_))))
            ==> reported_count(body) is None,
{
    assert(count_key() =~= seq!['c', 'o', 'u', 'n', 't']);
}

/// The query of an optional params object: none when there are no params
/// or when they give no query parameter.
pub open spec fn optional_query(params: Option<&JsonValue>, scalars_only: bool) -> Option<
    Seq<(Seq<char>, Seq<char>)>,
> {
    match params {
        Some(p) => if query_of(*p, scalars_only).len() > 0 {
            Some(query_of(*p, scalars_only))
        } else {
            None
        },
        None => None,
    }
}

/// The view of an optional query.
pub open spec fn opt_query(q: Option<StringMap>) -> Option<Seq<(Seq<char>, Seq<char>)>> {
    match q {
        Some(m) => Some(m@),
        None => None,
    }
}

/// The query parameters of optional params, left out when empty.
pub fn query_for(params: Option<&JsonValue>, scalars_only: bool) -> (q: Option<StringMap>)
    ensures
        opt_query(q) == optional_query(params, scalars_only),
{
    match params {
        Some(p) => {
            let m = query_from(p, scalars_only);
            if m.is_empty() {
                None
            } else {
                Some(m)
            }
        },
        None => None,
    }
}

/// `name` is a key of `ids`.
pub open spec fn key_names(ids: Seq<(Seq<char>, Seq<char>)>) -> Seq<Seq<char>> {
    ids.map_values(|e: (Seq<char>, Seq<char>)| e.0)
}

/// The outcome of resolving and interpolating a path: the selected path's
/// template filled with the IDs, or `PathResolutionFailed` when no path for
/// the operation has all its IDs among the keys of `ids`.
pub open spec fn resolved_path(
    paths: Seq<PathView>,
    operation: ResourceOperation,
    ids: Seq<(Seq<char>, Seq<char>)>,
    resource: &'static str,
    operation_name: &'static str,
    r: Result<String, ResourceError>,
) -> bool {
    if !has_candidate(paths, operation, key_names(ids), paths.len() as int) {
        r == Err::<String, ResourceError>(
            ResourceError::PathResolutionFailed { resource, operation: operation_name },
        )
    } else {
        r is Ok && exists|k: int|
            is_selected(paths, operation, key_names(ids), k, paths.len() as int) && r->Ok_0@
                == interpolate(paths[k].3, ids)
    }
}

/// Selects the path for `operation` given the IDs in `ids` and fills its
/// template with them.
pub fn resolve_path(
    paths: &[ResourcePath],
    operation: ResourceOperation,
    ids: &StringMap,
    resource: &'static str,
    operation_name: &'static str,
) -> (r: Result<String, ResourceError>)
    ensures
        resolved_path(views(paths@), operation, ids@, resource, operation_name, r),
{
    let available = ids.keys();
    assert(names(available@) == key_names(ids@));
    match get_path(paths, operation, available.as_slice()) {
        Some(p) => Ok(build_path(p.template, ids)),
        None => Err(ResourceError::PathResolutionFailed { resource, operation: operation_name }),
    }
}

/// A request to send: method, path, optional query parameters and body.
#[derive(Debug, PartialEq, Eq)]
pub struct RestRequest {
    /// The HTTP method.
    pub method: HttpMethod,
    /// The path, relative to the API root.
    pub path: String,
    /// The query parameters, if any.
    pub query: Option<StringMap>,
    /// The JSON body, if any.
    pub body: Option<JsonValue>,
}

/// The outcome of checking a response: success for a 2xx status, otherwise
/// the error that the status and body stand for.
pub open spec fn checked_response(
    response: HttpResponse,
    resource: &'static str,
    id: Option<Seq<char>>,
    r: Result<(), ResourceError>,
) -> bool {
    if 200 <= response.code <= 299 {
        r is Ok
    } else {
        r is Err && error_for_response(
            response.code,
            response.body,
            resource,
            id,
            opt_text(response.request_id),
            r->Err_0,
        )
    }
}

/// Checking a response succeeds exactly for a 2xx status; any other status
/// is an error.
pub proof fn lemma_check_status(
    response: HttpResponse,
    resource: &'static str,
    id: Option<Seq<char>>,
    r: Result<(), ResourceError>,
)
    requires
        checked_response(response, resource, id, r),
    ensures
        r is Ok <==> 200 <= response.code && response.code < 300,
{
}

/// Checks the status of a response: `Ok` for a 2xx status, otherwise the
/// error that the status and body stand for.
pub fn check_response(response: &HttpResponse, resource: &'static str, id: Option<&str>) -> (r:
    Result<(), ResourceError>)
    ensures
        checked_response(*response, resource, opt_str(id), r),
{
    if response.is_ok() {
        Ok(())
    } else {
        let rid = match &response.request_id {
            Some(s) => Some(s.as_str()),
            None => None,
        };
        Err(ResourceError::from_http_response(response.code, &response.body, resource, id, rid))
    }
}

/// The characters `count`.
pub open spec fn count_key() -> Seq<char> {
    seq!['c', 'o', 'u', 'n', 't']
}

/// The text of the error for a count response without a count.
pub open spec fn missing_count_text() -> Seq<char> {
    seq![
        'M',
        'i',
        's',
        's',
        'i',
        'n',
        'g',
        ' ',
        '\'',
        'c',
        'o',
        'u',
        'n',
        't',
        '\'',
        ' ',
        'i',
        'n',
        ' ',
        'r',
        'e',
        's',
        'p',
        'o',
        'n',
        's',
        'e',
    ]
}

/// The count that a count response body reports: its `count` member when
/// that is a non-negative integer.
pub open spec fn reported_count(body: JsonValue) -> Option<u64> {
    match json_get(body, count_key()) {
        Some(JsonValue::Number(JsonNumber::PosInt(n))) => Some(n),
        _ => None,
    }
}

/// Extracts the count from a successful count response; a body without a
/// non-negative integer `count` is an `Http` error with the response's code
/// and request ID.
pub fn count_from_response(response: &HttpResponse) -> (r: Result<u64, ResourceError>)
    ensures
        match reported_count(response.body) {
            Some(n) => r == Ok::<u64, ResourceError>(n),
            None => r matches Err(ResourceError::Http(HttpError::Response(e))) && e.code
                == response.code && e.message@ == missing_count_text() && opt_text(
                e.error_reference,
            ) == opt_text(response.request_id),
        },
{
    proof {
        reveal_strlit("count");
    }
    assert("count"@ == count_key());
    let found = response.body.get("count");
    let n = match found {
        Some(v) => v.as_u64(),
        None => None,
    };
    match n {
        Some(c) => Ok(c),
        None => {
            proof {
                reveal_strlit("Missing 'count' in response");
            }
            let message = "Missing 'count' in response".to_string();
            let error_reference = match &response.request_id {
                Some(s) => Some(s.clone()),
                None => None,
            };
            Err(
                ResourceError::Http(
                    HttpError::Response(
                        HttpResponseError { code: response.code, message, error_reference },
                    ),
                ),
            )
        },
    }
}

/// The view of a request's query.
pub open spec fn request_query(r: RestRequest) -> Option<Seq<(Seq<char>, Seq<char>)>> {
    opt_query(r.query)
}

/// The outcome of planning a request for `op` with the IDs `ids`: the
/// request with the given method, query and body whose path is the selected
/// path's template filled with the IDs (behind the prefix), or
/// `PathResolutionFailed` naming the operation when no path has all its IDs.
pub open spec fn planned(
    paths: Seq<PathView>,
    prefix: Option<Seq<char>>,
    resource: &'static str,
    op: ResourceOperation,
    op_name: Seq<char>,
    ids: Seq<(Seq<char>, Seq<char>)>,
    method: HttpMethod,
    query: Option<Seq<(Seq<char>, Seq<char>)>>,
    r: Result<RestRequest, ResourceError>,
) -> bool {
    if !has_candidate(paths, op, key_names(ids), paths.len() as int) {
        r matches Err(ResourceError::PathResolutionFailed { resource: rr, operation: o }) && rr
            == resource && o@ == op_name
    } else {
        &&& r is Ok
        &&& r->Ok_0.method == method
        &&& request_query(r->Ok_0) == query
        &&& exists|k: int|
            is_selected(paths, op, key_names(ids), k, paths.len() as int) && r->Ok_0.path@
                == full_path(prefix, interpolate(paths[k].3, ids))
    }
}

/// Plans a request: selects the path for `op` among `paths` given the IDs,
/// fills in its template, puts it behind the prefix, and attaches the
/// method, query and body.
pub fn plan_request(
    paths: &[ResourcePath],
    prefix: Option<&str>,
    resource: &'static str,
    op: ResourceOperation,
    op_name: &'static str,
    ids: &StringMap,
    method: HttpMethod,
    query: Option<StringMap>,
    body: Option<JsonValue>,
) -> (r: Result<RestRequest, ResourceError>)
    ensures
        planned(views(paths@), opt_str(prefix), resource, op, op_name@, ids@, method, opt_query(query), r),
        r matches Ok(req) ==> req.body == body,
{
    match resolve_path(paths, op, ids, resource, op_name) {
        Ok(url) => {
            let path = build_full_path(prefix, url.as_str());
            Ok(RestRequest { method, path, query, body })
        },
        Err(e) => Err(e),
    }
}

/// The characters `id`.
pub open spec fn id_key() -> Seq<char> {
    seq!['i', 'd']
}

/// The IDs map with only `id` set.
pub open spec fn single_id(id: Seq<char>) -> Seq<(Seq<char>, Seq<char>)> {
    insert_entry(Seq::empty(), id_key(), id)
}

fn id_map(id: &str) -> (m: StringMap)
    ensures
        m@ == single_id(id@),
{
    let mut m = StringMap::new();
    proof {
        reveal_strlit("id");
    }
    assert("id"@ == id_key());
    m.insert("id", id);
    m
}

/// The IDs of a resource under its parents: the parents' IDs, then `id`.
pub open spec fn ids_with_id(parent_ids: Seq<(Seq<char>, Seq<char>)>, id: Seq<char>) -> Seq<
    (Seq<char>, Seq<char>),
> {
    insert_entry(parent_ids, id_key(), id)
}

fn with_id(parent_ids: &StringMap, id: &str) -> (m: StringMap)
    ensures
        m@ == ids_with_id(parent_ids@, id@),
{
    let mut m = parent_ids.clone();
    proof {
        reveal_strlit("id");
    }
    assert("id"@ == id_key());
    m.insert("id", id);
    m
}

/// The parent IDs of a resource with one optional parent: `name` with the
/// parent's ID when it is set, otherwise none.
pub open spec fn parent_entries(name: Seq<char>, parent: Option<u64>) -> Seq<(Seq<char>, Seq<char>)> {
    match parent {
        Some(v) => insert_entry(Seq::empty(), name, decimal(v as nat)),
        None => Seq::empty(),
    }
}

/// The parent IDs of a resource with one optional parent.
pub fn parent_id_map(name: &str, parent: Option<u64>) -> (m: StringMap)
    ensures
        m@ == parent_entries(name@, parent),
{
    let mut m = StringMap::new();
    match parent {
        Some(v) => m.insert_u64(name, v),
        None => {},
    }
    m
}

/// The request that finds one resource by ID: GET on the `Find` path, with
/// the query of the optional params.
pub fn find_request(
    paths: &[ResourcePath],
    prefix: Option<&str>,
    resource: &'static str,
    id: &str,
    params: Option<&JsonValue>,
) -> (r: Result<RestRequest, ResourceError>)
    ensures
        planned(
            views(paths@),
            opt_str(prefix),
            resource,
            ResourceOperation::Find,
            operation_name(ResourceOperation::Find),
            single_id(id@),
            HttpMethod::Get,
            optional_query(params, false),
            r,
        ),
        r matches Ok(req) ==> req.body is None,
{
    let ids = id_map(id);
    let op = ResourceOperation::Find;
    plan_request(paths, prefix, resource, op, op.as_str(), &ids, HttpMethod::Get, query_for(params, false), None)
}

/// The request that lists resources: GET on the `All` path that needs no
/// IDs, with the query of the optional params.
pub fn all_request(
    paths: &[ResourcePath],
    prefix: Option<&str>,
    resource: &'static str,
    params: Option<&JsonValue>,
) -> (r: Result<RestRequest, ResourceError>)
    ensures
        planned(
            views(paths@),
            opt_str(prefix),
            resource,
            ResourceOperation::All,
            operation_name(ResourceOperation::All),
            Seq::empty(),
            HttpMethod::Get,
            optional_query(params, false),
            r,
        ),
        r matches Ok(req) ==> req.body is None,
{
    let ids = StringMap::new();
    let op = ResourceOperation::All;
    plan_request(paths, prefix, resource, op, op.as_str(), &ids, HttpMethod::Get, query_for(params, false), None)
}

/// The request that lists the resources under a parent: GET on the `All`
/// path that needs the parent ID, with the query of the optional params.
pub fn all_with_parent_request(
    paths: &[ResourcePath],
    prefix: Option<&str>,
    resource: &'static str,
    parent_id_name: &str,
    parent_id: &str,
    params: Option<&JsonValue>,
) -> (r: Result<RestRequest, ResourceError>)
    ensures
        planned(
            views(paths@),
            opt_str(prefix),
            resource,
            ResourceOperation::All,
            operation_name(ResourceOperation::All),
            insert_entry(Seq::empty(), parent_id_name@, parent_id@),
            HttpMethod::Get,
            optional_query(params, false),
            r,
        ),
        r matches Ok(req) ==> req.body is None,
{
    let mut ids = StringMap::new();
    ids.insert(parent_id_name, parent_id);
    let op = ResourceOperation::All;
    plan_request(paths, prefix, resource, op, op.as_str(), &ids, HttpMethod::Get, query_for(params, false), None)
}

/// `body` is `{"key": value}`.
pub open spec fn is_wrapped(body: JsonValue, key: Seq<char>, value: JsonValue) -> bool {
    &&& body is Object
    &&& body->Object_0@.len() == 1
    &&& body->Object_0@[0].key@ == key
    &&& body->Object_0@[0].value == value
}

/// The request that saves a resource: without an ID, POST on the `Create`
/// path selected with the parent IDs (such as `blog_id` of an article);
/// with one, PUT on the `Update` path selected with the parent IDs and the
/// ID. The body wraps the resource's JSON under the lowercase resource name.
pub fn save_request(
    paths: &[ResourcePath],
    prefix: Option<&str>,
    resource: &'static str,
    id: Option<&str>,
    parent_ids: &StringMap,
    resource_json: JsonValue,
) -> (r: Result<RestRequest, ResourceError>)
    ensures
        match id {
            None => planned(
                views(paths@),
                opt_str(prefix),
                resource,
                ResourceOperation::Create,
                operation_name(ResourceOperation::Create),
                parent_ids@,
                HttpMethod::Post,
                None,
                r,
            ),
            Some(i) => planned(
                views(paths@),
                opt_str(prefix),
                resource,
                ResourceOperation::Update,
                operation_name(ResourceOperation::Update),
                ids_with_id(parent_ids@, i@),
                HttpMethod::Put,
                None,
                r,
            ),
        },
        r matches Ok(req) ==> req.body is Some && is_wrapped(
            req.body->0,
            unicode_lowercase(resource@),
            resource_json,
        ),
{
    let key = resource_key(resource);
    let body = wrapped_body(key.as_str(), resource_json);
    match id {
        None => {
            let op = ResourceOperation::Create;
            plan_request(paths, prefix, resource, op, op.as_str(), parent_ids, HttpMethod::Post, None, Some(body))
        },
        Some(i) => {
            let ids = with_id(parent_ids, i);
            let op = ResourceOperation::Update;
            plan_request(paths, prefix, resource, op, op.as_str(), &ids, HttpMethod::Put, None, Some(body))
        },
    }
}

/// The request that saves only changed fields: PUT on the `Update` path
/// selected with the parent IDs and the resource's ID, the body wrapping the
/// changed fields under the lowercase resource name. A resource without an
/// ID cannot be updated.
pub fn save_partial_request(
    paths: &[ResourcePath],
    prefix: Option<&str>,
    resource: &'static str,
    id: Option<&str>,
    parent_ids: &StringMap,
    changed_fields: JsonValue,
) -> (r: Result<RestRequest, ResourceError>)
    ensures
        match id {
            None => r matches Err(ResourceError::PathResolutionFailed { resource: rr, operation: o })
                && rr == resource && o@ == operation_name(ResourceOperation::Update),
            Some(i) => planned(
                views(paths@),
                opt_str(prefix),
                resource,
                ResourceOperation::Update,
                operation_name(ResourceOperation::Update),
                ids_with_id(parent_ids@, i@),
                HttpMethod::Put,
                None,
                r,
            ),
        },
        r matches Ok(req) ==> req.body is Some && is_wrapped(
            req.body->0,
            unicode_lowercase(resource@),
            changed_fields,
        ),
{
    let op = ResourceOperation::Update;
    match id {
        None => Err(ResourceError::PathResolutionFailed { resource, operation: op.as_str() }),
        Some(i) => {
            let key = resource_key(resource);
            let body = wrapped_body(key.as_str(), changed_fields);
            let ids = with_id(parent_ids, i);
            plan_request(paths, prefix, resource, op, op.as_str(), &ids, HttpMethod::Put, None, Some(body))
        },
    }
}

/// The request that deletes a resource: DELETE on the `Delete` path
/// selected with the parent IDs and the resource's ID. A resource without an
/// ID cannot be deleted.
pub fn delete_request(
    paths: &[ResourcePath],
    prefix: Option<&str>,
    resource: &'static str,
    id: Option<&str>,
    parent_ids: &StringMap,
) -> (r: Result<RestRequest, ResourceError>)
    ensures
        match id {
            None => r matches Err(ResourceError::PathResolutionFailed { resource: rr, operation: o })
                && rr == resource && o@ == operation_name(ResourceOperation::Delete),
            Some(i) => planned(
                views(paths@),
                opt_str(prefix),
                resource,
                ResourceOperation::Delete,
                operation_name(ResourceOperation::Delete),
                ids_with_id(parent_ids@, i@),
                HttpMethod::Delete,
                None,
                r,
            ),
        },
        r matches Ok(req) ==> req.body is None,
{
    let op = ResourceOperation::Delete;
    match id {
        None => Err(ResourceError::PathResolutionFailed { resource, operation: op.as_str() }),
        Some(i) => {
            let ids = with_id(parent_ids, i);
            plan_request(paths, prefix, resource, op, op.as_str(), &ids, HttpMethod::Delete, None, None)
        },
    }
}

/// The request that counts resources: GET on the `Count` path that needs no
/// IDs, with the query of the optional params.
pub fn count_request(
    paths: &[ResourcePath],
    prefix: Option<&str>,
    resource: &'static str,
    params: Option<&JsonValue>,
) -> (r: Result<RestRequest, ResourceError>)
    ensures
        planned(
            views(paths@),
            opt_str(prefix),
            resource,
            ResourceOperation::Count,
            operation_name(ResourceOperation::Count),
            Seq::empty(),
            HttpMethod::Get,
            optional_query(params, false),
            r,
        ),
        r matches Ok(req) ==> req.body is None,
{
    let ids = StringMap::new();
    let op = ResourceOperation::Count;
    plan_request(paths, prefix, resource, op, op.as_str(), &ids, HttpMethod::Get, query_for(params, false), None)
}

/// The request that counts the resources under a parent: GET on the `Count`
/// path that needs the parent ID, keeping only the string, number and
/// boolean params in the query.
pub fn count_with_parent_request(
    paths: &[ResourcePath],
    resource: &'static str,
    parent_id_name: &str,
    parent_id: &str,
    params: Option<&JsonValue>,
) -> (r: Result<RestRequest, ResourceError>)
    ensures
        planned(
            views(paths@),
            None,
            resource,
            ResourceOperation::Count,
            operation_name(ResourceOperation::Count),
            insert_entry(Seq::empty(), parent_id_name@, parent_id@),
            HttpMethod::Get,
            optional_query(params, true),
            r,
        ),
        r matches Ok(req) ==> req.body is None,
{
    let mut ids = StringMap::new();
    ids.insert(parent_id_name, parent_id);
    let op = ResourceOperation::Count;
    plan_request(paths, None, resource, op, op.as_str(), &ids, HttpMethod::Get, query_for(params, true), None)
}

/// `r` is the `PathResolutionFailed` error for `resource` and `op`.
pub open spec fn unresolved<T>(r: Result<T, ResourceError>, resource: Seq<char>, op: Seq<char>) -> bool {
    r matches Err(ResourceError::PathResolutionFailed { resource: rr, operation: o }) && rr@ == resource
        && o@ == op
}

/// `r` is a request with this method, path and query.
pub open spec fn sends(
    r: Result<RestRequest, ResourceError>,
    method: HttpMethod,
    path: Seq<char>,
    query: Option<Seq<(Seq<char>, Seq<char>)>>,
) -> bool {
    &&& r is Ok
    &&& r->Ok_0.method == method
    &&& r->Ok_0.path@ == path
    &&& request_query(r->Ok_0) == query
}

/// `b` is the body `{}`.
pub open spec fn is_empty_object(b: Option<JsonValue>) -> bool {
    b matches Some(JsonValue::Object(ms)) && ms@.len() == 0
}

/// `head`, the decimal text of `id`, then `tail`.
pub fn id_path(head: &str, id: u64, tail: &str) -> (s: String)
    ensures
        s@ == head@ + decimal(id as nat) + tail@,
{
    let mut s = String::new();
    s.append(head);
    push_decimal(&mut s, id);
    s.append(tail);
    s
}

/// A request with the given parts.
pub fn request(method: HttpMethod, path: String, query: Option<StringMap>, body: Option<JsonValue>) -> (r:
    RestRequest)
    ensures
        r.method == method,
        r.path == path,
        r.query == query,
        r.body == body,
{
    RestRequest { method, path, query, body }
}

/// Plans a POST to `head`, the decimal ID, then `tail`, with `body`; an
/// absent ID is a `PathResolutionFailed` error for `resource` and `operation`.
pub fn action_request(
    id: Option<u64>,
    resource: &'static str,
    operation: &'static str,
    head: &str,
    tail: &str,
    body: JsonValue,
) -> (r: Result<RestRequest, ResourceError>)
    ensures
        match id {
            None => unresolved(r, resource@, operation@),
            Some(i) => sends(r, HttpMethod::Post, head@ + decimal(i as nat) + tail@, None)
                && r->Ok_0.body == Some(body),
        },
{
    match id {
        None => Err(ResourceError::PathResolutionFailed { resource, operation }),
        Some(i) => {
            let path = id_path(head, i, tail);
            Ok(RestRequest { method: HttpMethod::Post, path, query: None, body: Some(body) })
        },
    }
}

/// `v` is an object whose member names are `keys`, in order.
pub open spec fn has_keys(v: JsonValue, keys: Seq<Seq<char>>) -> bool {
    &&& v is Object
    &&& v->Object_0@.len() == keys.len()
    &&& forall|i: int| 0 <= i < keys.len() ==> (#[trigger] v->Object_0@[i]).key@ == keys[i]
}

/// The value of member `i` of an object.
pub open spec fn member_value(v: JsonValue, i: int) -> JsonValue {
    v->Object_0@[i].value
}

/// `seq![key]` when `present`, otherwise nothing.
pub open spec fn key_if(present: bool, key: Seq<char>) -> Seq<Seq<char>> {
    if present {
        seq![key]
    } else {
        Seq::empty()
    }
}

/// `body` is `{"wrapper": {"message": message}}` when there is a message,
/// and `{}` otherwise.
pub open spec fn is_message_body(body: JsonValue, wrapper: Seq<char>, message: Option<Seq<char>>) -> bool {
    match message {
        None => has_keys(body, Seq::empty()),
        Some(m) => {
            &&& has_keys(body, seq![wrapper])
            &&& has_keys(member_value(body, 0), seq!["message"@])
            &&& member_value(member_value(body, 0), 0) matches JsonValue::String(t) && t@ == m
        },
    }
}

/// The body `{"wrapper": {"message": message}}`, or `{}` without a message.
pub fn message_body(wrapper: &str, message: Option<&str>) -> (b: JsonValue)
    ensures
        is_message_body(b, wrapper@, opt_str(message)),
{
    let mut body = JsonValue::empty_object();
    match message {
        Some(m) => {
            let mut inner = JsonValue::empty_object();
            inner.push_member("message", JsonValue::text(m));
            body.push_member(wrapper, inner);
        },
        None => {},
    }
    body
}

/// The text of the error for a response without an expected member:
/// `Missing '<key>' in response`.
pub open spec fn missing_member_text(key: Seq<char>) -> Seq<char> {
    seq!['M', 'i', 's', 's', 'i', 'n', 'g', ' ', '\''] + key + seq![
        '\'',
        ' ',
        'i',
        'n',
        ' ',
        'r',
        'e',
        's',
        'p',
        'o',
        'n',
        's',
        'e',
    ]
}

/// The member `key` of a successful response's body; when it is missing,
/// an `Http` error with the response's code and request ID.
pub fn response_member<'a>(response: &'a HttpResponse, key: &str) -> (r: Result<
    &'a JsonValue,
    ResourceError,
>)
    ensures
        match json_get(response.body, key@) {
            Some(v) => r is Ok && *r->Ok_0 == v,
            None => r matches Err(ResourceError::Http(HttpError::Response(e))) && e.code
                == response.code && e.message@ == missing_member_text(key@) && opt_text(
                e.error_reference,
            ) == opt_text(response.request_id),
        },
{
    match response.body.get(key) {
        Some(v) => Ok(v),
        None => {
            let mut message = String::new();
            message.append("Missing '");
            message.append(key);
            message.append("' in response");
            proof {
                reveal_strlit("Missing '");
                reveal_strlit("' in response");
            }
            let error_reference = match &response.request_id {
                Some(s) => Some(s.clone()),
                None => None,
            };
            Err(
                ResourceError::Http(
                    HttpError::Response(
                        HttpResponseError { code: response.code, message, error_reference },
                    ),
                ),
            )
        },
    }
}

/// A request body that wraps `value` under `key`: `{"key": value}`.
pub fn wrapped_body(key: &str, value: JsonValue) -> (body: JsonValue)
    ensures
        body is Object,
        body->Object_0@.len() == 1,
        body->Object_0@[0].key@ == key@,
        body->Object_0@[0].value == value,
{
    let mut members = Vec::new();
    members.push(JsonMember { key: key.to_string(), value });
    JsonValue::Object(members)
}

} // verus!
