//! Resource-level errors and the mapping from HTTP error responses to them.
//!
//! - **404** becomes [`ResourceError::NotFound`];
//! - **422** becomes [`ResourceError::ValidationFailed`], with the field
//!   messages read from the response body;
//! - any other status becomes [`ResourceError::Http`].
use vstd::prelude::*;

use crate::clients::{http_error_text, rest_error_text, HttpError, HttpResponseError, RestError};
use crate::json::{json_get, json_text, JsonMember, JsonValue};
use crate::rest::params::{insert_entry, lemma_insert_lookup, lookup, texts, FieldErrors};
use crate::text::push_char;

verus! {

/// Error type for REST resource operations.
#[derive(Debug, Clone, PartialEq, Eq)]
pub enum ResourceError {
    /// The resource was not found (HTTP 404).
    NotFound {
        /// The type name of the resource (e.g., "Product", "Order").
        resource: &'static str,
        /// The ID that was requested.
        id: String,
    },
    /// Validation failed for the resource (HTTP 422).
    ValidationFailed {
        /// Field names with their error messages.
        errors: FieldErrors,
        /// The request ID for debugging (from the X-Request-Id header).
        request_id: Option<String>,
    },
    /// No valid path matches the provided IDs and operation.
    PathResolutionFailed {
        /// The type name of the resource.
        resource: &'static str,
        /// The operation being attempted (e.g., "find", "all", "delete").
        operation: &'static str,
    },
    /// An HTTP-level error occurred.
    Http(HttpError),
    /// A REST-level error occurred.
    Rest(RestError),
}

/// The characters `errors`.
pub open spec fn errors_key() -> Seq<char> {
    seq!['e', 'r', 'r', 'o', 'r', 's']
}

/// The characters `base`: the field that holds messages about the resource
/// as a whole.
pub open spec fn base_key() -> Seq<char> {
    seq!['b', 'a', 's', 'e']
}

/// The string elements of `items`, in order; other elements are dropped.
pub open spec fn string_items(items: Seq<JsonValue>) -> Seq<Seq<char>>
    decreases items.len(),
{
    if items.len() == 0 {
        Seq::empty()
    } else {
        string_items(items.drop_last()) + match items.last() {
            JsonValue::String(s) => seq![s@],
            _ => Seq::empty(),
        }
    }
}

/// The messages of one field: the strings of an array, a single string, or
/// the JSON text of anything else.
pub open spec fn field_messages(v: JsonValue) -> Seq<Seq<char>> {
    match v {
        JsonValue::Array(items) => string_items(items@),
        JsonValue::String(s) => seq![s@],
        _ => seq![json_text(v)],
    }
}

/// The field errors of the members of an `errors` object, inserted in order.
pub open spec fn member_errors(members: Seq<JsonMember>) -> Seq<(Seq<char>, Seq<Seq<char>>)>
    decreases members.len(),
{
    if members.len() == 0 {
        Seq::empty()
    } else {
        insert_entry(
            member_errors(members.drop_last()),
            members.last().key@,
            field_messages(members.last().value),
        )
    }
}

/// The field errors that a validation response body reports under its
/// `errors` member: an object maps fields to messages, an array of strings
/// becomes the `base` field (when it holds any string), and a single string
/// becomes the one message of `base`.
pub open spec fn validation_errors(body: JsonValue) -> Seq<(Seq<char>, Seq<Seq<char>>)> {
    match json_get(body, errors_key()) {
        Some(JsonValue::Object(members)) => member_errors(members@),
        Some(JsonValue::Array(items)) => if string_items(items@).len() > 0 {
            seq![(base_key(), string_items(items@))]
        } else {
            Seq::empty()
        },
        Some(JsonValue::String(s)) => seq![(base_key(), seq![s@])],
        _ => Seq::empty(),
    }
}

/// An array whose elements are all strings gives those strings, in order.
proof fn lemma_all_strings(items: Seq<JsonValue>)
    requires
        forall|j: int| 0 <= j < items.len() ==> (#[trigger] items[j]) is String,
    ensures
        string_items(items).len() == items.len(),
        forall|j: int| 0 <= j < items.len() ==> string_items(items)[j] == (#[trigger] items[j])->String_0@,
    decreases items.len(),
{
    if items.len() > 0 {
        let init = items.drop_last();
        assert forall|j: int| 0 <= j < init.len() implies (#[trigger] init[j]) is String by {
            assert(init[j] == items[j]);
        }
        lemma_all_strings(init);
        assert(items[items.len() - 1] is String);
        assert forall|j: int| 0 <= j < items.len() implies string_items(items)[j] == (
        #[trigger] items[j])->String_0@ by {
            if j < init.len() {
                assert(init[j] == items[j]);
            }
        }
    }
}

/// The field errors of an `errors` object hold, for each field, the
/// messages of its last member.
proof fn lemma_member_errors(members: Seq<JsonMember>, i: int)
    requires
        0 <= i < members.len(),
        forall|j: int| i < j < members.len() ==> (#[trigger] members[j]).key@ != members[i].key@,
    ensures
        lookup(member_errors(members), members[i].key@) == Some(field_messages(members[i].value)),
    decreases members.len(),
{
    let n = members.len() - 1;
    let init = members.drop_last();
    let k = members[i].key@;
    lemma_insert_lookup(member_errors(init), members[n].key@, field_messages(members[n].value), k);
    if i < n {
        assert(members[n].key@ != k);
        assert forall|j: int| i < j < init.len() implies (#[trigger] init[j]).key@ != init[i].key@ by {
            assert(init[j] == members[j]);
        }
        assert(init[i] == members[i]);
        lemma_member_errors(init, i);
    }
}

/// What a validation response reports, field by field: when its `errors`
/// member is an object, each field has the messages of its (last) member,
/// which for an array of strings are those strings, in order, and for a
/// string that one string; when `errors` is a non-empty array of strings,
/// they are the messages of the single field `base`; when it is a string, it
/// is the one message of `base`.
pub proof fn lemma_validation_errors(body: JsonValue, i: int)
    ensures
        json_get(body, seq!['e', 'r', 'r', 'o', 'r', 's']) matches Some(JsonValue::Object(ms)) ==> (0 <= i
            < ms@.len() && (forall|j: int| i < j < ms@.len() ==> (#[trigger] ms@[j]).key@ != ms@[i].key@) ==> {
            let msgs = lookup(validation_errors(body), ms@[i].key@);
            &&& msgs is Some
            &&& (ms@[i].value matches JsonValue::String(s) ==> msgs == Some(seq![s@]))
            &&& (ms@[i].value matches JsonValue::Array(items) ==> ((forall|j: int|
                0 <= j < items@.len() ==> (#[trigger] items@[j]) is String) ==> msgs->0.len() == items@.len()
                && forall|j: int| 0 <= j < items@.len() ==> msgs->0[j] == (#[trigger] items@[j])->String_0@))
        }),
        json_get(body, seq!['e', 'r', 'r', 'o', 'r', 's']) matches Some(JsonValue::Array(items)) ==> (items@.len()
            > 0 && (forall|j: int| 0 <= j < items@.len() ==> (#[trigger] items@[j]) is String) ==> {
            let es = validation_errors(body);
            &&& es.len() == 1
            &&& es[0].0 == seq!['b', 'a', 's', 'e']
            &&& es[0].1.len() == items@.len()
            &&& forall|j: int| 0 <= j < items@.len() ==> es[0].1[j] == (#[trigger] items@[j])->String_0@
        }),
        json_get(body, seq!['e', 'r', 'r', 'o', 'r', 's']) matches Some(JsonValue::String(s))
            ==> validation_errors(body) == seq![(seq!['b', 'a', 's', 'e'], seq![s@])],
{
    assert(errors_key() =~= seq!['e', 'r', 'r', 'o', 'r', 's']);
    match json_get(body, errors_key()) {
        Some(JsonValue::Object(ms)) => {
            if 0 <= i < ms@.len() && (forall|j: int| i < j < ms@.len() ==> (#[trigger] ms@[j]).key@ != ms@[i].key@) {
                lemma_member_errors(ms@, i);
                if let JsonValue::Array(items) = ms@[i].value {
                    if forall|j: int| 0 <= j < items@.len() ==> (#[trigger] items@[j]) is String {
                        lemma_all_strings(items@);
                    }
                }
            }
        },
        Some(JsonValue::Array(items)) => {
            if items@.len() > 0 && (forall|j: int| 0 <= j < items@.len() ==> (#[trigger] items@[j]) is String) {
                lemma_all_strings(items@);
                assert(string_items(items@)[0] == items@[0]->String_0@);
            }
        },
        _ => {},
    }
}

/// The string elements of `items`.
fn collect_strings(items: &Vec<JsonValue>) -> (r: Vec<String>)
    ensures
        texts(r@) == string_items(items@),
{
    let mut r: Vec<String> = Vec::new();
    let mut i: usize = 0;
    while i < items.len()
        invariant
            i <= items@.len(),
            texts(r@) == string_items(items@.take(i as int)),
        decreases items.len() - i,
    {
        let ghost before = r@;
        match &items[i] {
            JsonValue::String(s) => {
                r.push(s.clone());
            },
            _ => {},
        }
        i = i + 1;
        assert(items@.take(i as int).drop_last() == items@.take(i - 1));
        assert(texts(r@) == string_items(items@.take(i as int)));
    }
    assert(items@.take(items@.len() as int) == items@);
    r
}

/// The messages of one field.
fn messages_of(v: &JsonValue) -> (r: Vec<String>)
    ensures
        texts(r@) == field_messages(*v),
{
    match v {
        JsonValue::Array(items) => collect_strings(items),
        JsonValue::String(s) => {
            let mut r = Vec::new();
            r.push(s.clone());
            assert(texts(r@) == seq![s@]);
            r
        },
        _ => {
            let mut r = Vec::new();
            r.push(v.to_json_string());
            assert(texts(r@) == seq![json_text(*v)]);
            r
        },
    }
}

/// Parses the field errors that a validation response body reports.
pub fn parse_validation_errors(body: &JsonValue) -> (r: FieldErrors)
    ensures
        r@ == validation_errors(*body),
{
    let mut result = FieldErrors::new();
    proof {
        reveal_strlit("errors");
        reveal_strlit("base");
    }
    let found = body.get("errors");
    assert("errors"@ == errors_key());
    match found {
        Some(JsonValue::Object(members)) => {
            assert(json_get(*body, errors_key()) == Some(JsonValue::Object(*members)));
            let mut i: usize = 0;
            while i < members.len()
                invariant
                    i <= members@.len(),
                    result@ == member_errors(members@.take(i as int)),
                decreases members.len() - i,
            {
                let m = &members[i];
                result.insert(m.key.clone(), messages_of(&m.value));
                i = i + 1;
                assert(members@.take(i as int).drop_last() == members@.take(i - 1));
            }
            assert(members@.take(members@.len() as int) == members@);
        },
        Some(JsonValue::Array(items)) => {
            let msgs = collect_strings(items);
            if msgs.len() > 0 {
                let base = "base".to_string();
                assert(base@ == base_key());
                result.insert(base, msgs);
            }
            assert(json_get(*body, errors_key()) == Some(JsonValue::Array(*items)));
        },
        Some(JsonValue::String(s)) => {
            let mut msgs = Vec::new();
            msgs.push(s.clone());
            assert(texts(msgs@) == seq![s@]);
            let base = "base".to_string();
            assert(base@ == base_key());
            result.insert(base, msgs);
            assert(result@ == seq![(base_key(), seq![s@])]);
        },
        _ => {},
    }
    result
}

/// The error that an HTTP error response stands for: `NotFound` for 404
/// (with the requested ID, or `unknown`), `ValidationFailed` for 422 (with
/// the body's field errors), `Http` with the body's JSON text otherwise.
pub open spec fn error_for_response(
    code: u16,
    body: JsonValue,
    resource: &'static str,
    id: Option<Seq<char>>,
    request_id: Option<Seq<char>>,
    e: ResourceError,
) -> bool {
    if code == 404 {
        &&& e matches ResourceError::NotFound { resource: r, id: i }
        &&& r == resource
        &&& i@ == (match id {
            Some(t) => t,
            None => seq!['u', 'n', 'k', 'n', 'o', 'w', 'n'],
        })
    } else if code == 422 {
        &&& e matches ResourceError::ValidationFailed { errors, request_id: rid }
        &&& errors@ == validation_errors(body)
        &&& opt_text(rid) == request_id
    } else {
        &&& e matches ResourceError::Http(HttpError::Response(r))
        &&& r.code == code
        &&& r.message@ == json_text(body)
        &&& opt_text(r.error_reference) == request_id
    }
}

/// The request ID that an error carries: that of a validation failure or
/// of an HTTP error; the other errors carry none.
pub open spec fn error_request_id(e: ResourceError) -> Option<Seq<char>> {
    match e {
        ResourceError::ValidationFailed { request_id, .. } => opt_text(request_id),
        ResourceError::Http(HttpError::Response(r)) => opt_text(r.error_reference),
        ResourceError::Http(HttpError::MaxRetries(m)) => opt_text(m.error_reference),
        _ => None,
    }
}

/// The error made from an error response keeps the response's request ID,
/// except for a 404, whose `NotFound` error carries none.
pub proof fn lemma_response_error_keeps_request_id(
    code: u16,
    body: JsonValue,
    resource: &'static str,
    id: Option<Seq<char>>,
    request_id: Option<Seq<char>>,
    e: ResourceError,
)
    requires
        error_for_response(code, body, resource, id, request_id, e),
    ensures
        code == 404 ==> error_request_id(e) is None,
        code != 404 ==> error_request_id(e) == request_id,
{
}

/// What an error response becomes, by status: `NotFound` exactly for 404,
/// `ValidationFailed` exactly for 422 (with the body's field errors and the
/// request ID), and for every other status an `Http` error that carries that
/// status, the body's compact JSON text and the request ID.
pub proof fn lemma_response_error_by_status(
    code: u16,
    body: JsonValue,
    resource: &'static str,
    id: Option<Seq<char>>,
    request_id: Option<Seq<char>>,
    e: ResourceError,
)
    requires
        error_for_response(code, body, resource, id, request_id, e),
    ensures
        e is NotFound <==> code == 404,
        e is ValidationFailed <==> code == 422,
        code == 422 ==> (e matches ResourceError::ValidationFailed { errors, request_id: rid } && errors@
            == validation_errors(body) && opt_text(rid) == request_id),
        code != 404 && code != 422 ==> (e matches ResourceError::Http(HttpError::Response(r)) && r.code == code
            && r.message@ == json_text(body) && opt_text(r.error_reference) == request_id),
{
}

/// The text of an optional string.
pub open spec fn opt_text(s: Option<String>) -> Option<Seq<char>> {
    match s {
        Some(t) => Some(t@),
        None => None,
    }
}

/// The text of an optional string slice.
pub open spec fn opt_str(s: Option<&str>) -> Option<Seq<char>> {
    match s {
        Some(t) => Some(t@),
        None => None,
    }
}

fn owned(s: Option<&str>) -> (r: Option<String>)
    ensures
        opt_text(r) == opt_str(s),
{
    match s {
        Some(t) => Some(t.to_string()),
        None => None,
    }
}

/// The opening characters of a not-found message's ID part.
pub open spec fn not_found_text(resource: Seq<char>, id: Seq<char>) -> Seq<char> {
    resource + seq![' ', 'w', 'i', 't', 'h', ' ', 'i', 'd', ' '] + id + seq![
        ' ',
        'n',
        'o',
        't',
        ' ',
        'f',
        'o',
        'u',
        'n',
        'd',
    ]
}

/// How a character is written inside a quoted debug string.
pub open spec fn debug_escape_char(c: char) -> Seq<char> {
    if c == '"' {
        seq!['\\', '"']
    } else if c == '\\' {
        seq!['\\', '\\']
    } else if c == '\n' {
        seq!['\\', 'n']
    } else if c == '\r' {
        seq!['\\', 'r']
    } else if c == '\t' {
        seq!['\\', 't']
    } else {
        seq![c]
    }
}

/// The escaped characters of `s`.
pub open spec fn debug_escaped(s: Seq<char>) -> Seq<char>
    decreases s.len(),
{
    if s.len() == 0 {
        Seq::empty()
    } else {
        debug_escaped(s.drop_last()) + debug_escape_char(s.last())
    }
}

/// `s` in double quotes, escaped.
pub open spec fn debug_quoted(s: Seq<char>) -> Seq<char> {
    seq!['"'] + debug_escaped(s) + seq!['"']
}

/// The quoted messages separated by `, `.
pub open spec fn debug_items(msgs: Seq<Seq<char>>) -> Seq<char>
    decreases msgs.len(),
{
    if msgs.len() == 0 {
        Seq::empty()
    } else if msgs.len() == 1 {
        debug_quoted(msgs[0])
    } else {
        debug_items(msgs.drop_last()) + seq![',', ' '] + debug_quoted(msgs.last())
    }
}

/// One field with its messages: `"field": ["m1", "m2"]`.
pub open spec fn debug_entry(e: (Seq<char>, Seq<Seq<char>>)) -> Seq<char> {
    debug_quoted(e.0) + seq![':', ' ', '['] + debug_items(e.1) + seq![']']
}

/// The fields separated by `, `.
pub open spec fn debug_entries(es: Seq<(Seq<char>, Seq<Seq<char>>)>) -> Seq<char>
    decreases es.len(),
{
    if es.len() == 0 {
        Seq::empty()
    } else if es.len() == 1 {
        debug_entry(es[0])
    } else {
        debug_entries(es.drop_last()) + seq![',', ' '] + debug_entry(es.last())
    }
}

/// All field errors in braces.
pub open spec fn debug_field_errors(es: Seq<(Seq<char>, Seq<Seq<char>>)>) -> Seq<char> {
    seq!['{'] + debug_entries(es) + seq!['}']
}

/// The human-readable text of a resource error.
pub open spec fn error_text(e: ResourceError) -> Seq<char> {
    match e {
        ResourceError::NotFound { resource, id } => not_found_text(resource@, id@),
        ResourceError::ValidationFailed { errors, .. } => seq![
            'V',
            'a',
            'l',
            'i',
            'd',
            'a',
            't',
            'i',
            'o',
            'n',
            ' ',
            'f',
            'a',
            'i',
            'l',
            'e',
            'd',
            ':',
            ' ',
        ] + debug_field_errors(errors@),
        ResourceError::PathResolutionFailed { resource, operation } => seq![
            'C',
            'a',
            'n',
            'n',
            'o',
            't',
            ' ',
            'r',
            'e',
            's',
            'o',
            'l',
            'v',
            'e',
            ' ',
            'p',
            'a',
            't',
            'h',
            ' ',
            'f',
            'o',
            'r',
            ' ',
        ] + resource@ + seq![':', ':'] + operation@ + seq![
            ' ',
            'w',
            'i',
            't',
            'h',
            ' ',
            'p',
            'r',
            'o',
            'v',
            'i',
            'd',
            'e',
            'd',
            ' ',
            'I',
            'D',
            's',
        ],
        ResourceError::Http(h) => http_error_text(h),
        ResourceError::Rest(r) => rest_error_text(r),
    }
}

fn push_debug_quoted(out: &mut String, s: &str)
    ensures
        final(out)@ == old(out)@ + debug_quoted(s@),
{
    let v = crate::text::chars_of(s);
    let ghost start = out@;
    push_char(out, '"');
    let mut i: usize = 0;
    while i < v.len()
        invariant
            v@ == s@,
            i <= v@.len(),
            out@ == start + seq!['"'] + debug_escaped(v@.take(i as int)),
        decreases v.len() - i,
    {
        let c = v[i];
        let ghost before = out@;
        if c == '"' {
            push_char(out, '\\');
            push_char(out, '"');
        } else if c == '\\' {
            push_char(out, '\\');
            push_char(out, '\\');
        } else if c == '\n' {
            push_char(out, '\\');
            push_char(out, 'n');
        } else if c == '\r' {
            push_char(out, '\\');
            push_char(out, 'r');
        } else if c == '\t' {
            push_char(out, '\\');
            push_char(out, 't');
        } else {
            push_char(out, c);
        }
        assert(out@ == before + debug_escape_char(c));
        i = i + 1;
        assert(v@.take(i as int).drop_last() == v@.take(i - 1));
    }
    assert(v@.take(v@.len() as int) == v@);
    push_char(out, '"');
}

fn push_debug_field_errors(out: &mut String, errors: &FieldErrors)
    ensures
        final(out)@ == old(out)@ + debug_field_errors(errors@),
{
    let ghost start = out@;
    push_char(out, '{');
    let mut i: usize = 0;
    while i < errors.len()
        invariant
            i <= errors@.len(),
            out@ == start + seq!['{'] + debug_entries(errors@.take(i as int)),
        decreases errors@.len() - i,
    {
        let ghost before = out@;
        if i != 0 {
            out.append(", ");
            proof {
                reveal_strlit(", ");
            }
        }
        let ghost sep = out@;
        let (field, msgs) = errors.entry(i);
        push_debug_quoted(out, field);
        out.append(": [");
        proof {
            reveal_strlit(": [");
        }
        let ghost mid = out@;
        let mut j: usize = 0;
        while j < msgs.len()
            invariant
                j <= msgs@.len(),
                out@ == mid + debug_items(texts(msgs@).take(j as int)),
            decreases msgs@.len() - j,
        {
            if j != 0 {
                out.append(", ");
                proof {
                    reveal_strlit(", ");
                }
            }
            let ghost b2 = out@;
            push_debug_quoted(out, msgs[j].as_str());
            j = j + 1;
            assert(texts(msgs@).take(j as int).drop_last() == texts(msgs@).take(j - 1));
            if j == 1 {
                assert(texts(msgs@).take(1)[0] == msgs@[0]@);
            }
        }
        assert(texts(msgs@).take(msgs@.len() as int) == texts(msgs@));
        push_char(out, ']');
        assert(out@ == sep + debug_entry(errors@[i as int]));
        i = i + 1;
        assert(errors@.take(i as int).drop_last() == errors@.take(i - 1));
        if i == 1 {
            assert(errors@.take(1)[0] == errors@[0]);
        }
    }
    assert(errors@.take(errors@.len() as int) == errors@);
    push_char(out, '}');
}

impl ResourceError {
    /// Creates a `ResourceError` from an HTTP error response: 404 becomes
    /// `NotFound`, 422 becomes `ValidationFailed` with the field errors of
    /// the body, and any other status becomes `Http`.
    pub fn from_http_response(
        code: u16,
        body: &JsonValue,
        resource: &'static str,
        id: Option<&str>,
        request_id: Option<&str>,
    ) -> (e: ResourceError)
        ensures
            error_for_response(code, *body, resource, opt_str(id), opt_str(request_id), e),
    {
        if code == 404 {
            let id_text = match id {
                Some(t) => t.to_string(),
                None => {
                    proof {
                        reveal_strlit("unknown");
                    }
                    let u = "unknown".to_string();
                    assert(u@ == seq!['u', 'n', 'k', 'n', 'o', 'w', 'n']);
                    u
                },
            };
            ResourceError::NotFound { resource, id: id_text }
        } else if code == 422 {
            let errors = parse_validation_errors(body);
            ResourceError::ValidationFailed { errors, request_id: owned(request_id) }
        } else {
            let message = body.to_json_string();
            ResourceError::Http(
                HttpError::Response(
                    HttpResponseError { code, message, error_reference: owned(request_id) },
                ),
            )
        }
    }

    /// Returns the request ID if available.
    pub fn request_id(&self) -> (r: Option<&str>)
        ensures
            opt_str(r) == error_request_id(*self),
    {
        match self {
            ResourceError::ValidationFailed { request_id, .. } => match request_id {
                Some(s) => Some(s.as_str()),
                None => None,
            },
            ResourceError::Http(HttpError::Response(e)) => match &e.error_reference {
                Some(s) => Some(s.as_str()),
                None => None,
            },
            ResourceError::Http(HttpError::MaxRetries(e)) => match &e.error_reference {
                Some(s) => Some(s.as_str()),
                None => None,
            },
            _ => None,
        }
    }

    /// A human-readable description of the error.
    pub fn message(&self) -> (s: String)
        ensures
            s@ == error_text(*self),
    {
        match self {
            ResourceError::NotFound { resource, id } => {
                let mut s = String::new();
                s.append(resource);
                s.append(" with id ");
                s.append(id.as_str());
                s.append(" not found");
                proof {
                    reveal_strlit(" with id ");
                    reveal_strlit(" not found");
                }
                s
            },
            ResourceError::ValidationFailed { errors, .. } => {
                let mut s = String::new();
                s.append("Validation failed: ");
                proof {
                    reveal_strlit("Validation failed: ");
                }
                push_debug_field_errors(&mut s, errors);
                s
            },
            ResourceError::PathResolutionFailed { resource, operation } => {
                let mut s = String::new();
                s.append("Cannot resolve path for ");
                s.append(resource);
                s.append("::");
                s.append(operation);
                s.append(" with provided IDs");
                proof {
                    reveal_strlit("Cannot resolve path for ");
                    reveal_strlit("::");
                    reveal_strlit(" with provided IDs");
                }
                s
            },
            ResourceError::Http(h) => h.message(),
            ResourceError::Rest(r) => r.message(),
        }
    }
}

impl From<HttpError> for ResourceError {
    fn from(e: HttpError) -> (r: ResourceError) {
        ResourceError::Http(e)
    }
}

impl vstd::std_specs::convert::FromSpecImpl<HttpError> for ResourceError {
    open spec fn obeys_from_spec() -> bool {
        true
    }

    open spec fn from_spec(e: HttpError) -> ResourceError {
        ResourceError::Http(e)
    }
}

impl From<RestError> for ResourceError {
    fn from(e: RestError) -> (r: ResourceError) {
        ResourceError::Rest(e)
    }
}

impl vstd::std_specs::convert::FromSpecImpl<RestError> for ResourceError {
    open spec fn obeys_from_spec() -> bool {
        true
    }

    open spec fn from_spec(e: RestError) -> ResourceError {
        ResourceError::Rest(e)
    }
}

} // verus!
