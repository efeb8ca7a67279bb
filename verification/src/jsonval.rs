use vstd::prelude::*;
use crate::types::{CallParams, CallParamsView, Request, RequestId, RequestIdView, RequestView};

verus! {

/// The mathematical shape of one JSON document, as far as the dispatcher
/// reads it: scalars, strings, arrays and objects, with a number kept as an
/// integer when it is one an `i64` can hold and left unread otherwise.
pub ghost enum JsonData {
    Null,
    Bool(bool),
    /// A number representable as an `i64`.
    Int(int),
    /// Any other number.
    OtherNum,
    Str(Seq<char>),
    Arr(Seq<JsonData>),
    /// The members of an object, keyed by member name.
    Obj(Map<Seq<char>, JsonData>),
}

/// What a parsed JSON value holds.
pub uninterp spec fn jmodel(v: serde_json::Value) -> JsonData;

/// What parsing a text yields: the document of a well-formed JSON text,
/// nothing for any other text.
pub uninterp spec fn jdoc_of(s: Seq<char>) -> Option<JsonData>;

/// Relies on serde_json's `Value`: the parsed form of one JSON document,
/// carried opaquely between the wrappers below and read only through them.
#[verifier::external_type_specification]
#[verifier::external_body]
pub struct ExJsonValue(serde_json::Value);

/// Relies on `serde_json::from_str::<serde_json::Value>`: parses one JSON
/// text, returning the document exactly when the text is well-formed JSON.
#[verifier::external_body]
fn json_parse(s: &str) -> (r: Option<serde_json::Value>)
    ensures
        r is Some <==> jdoc_of(s@) is Some,
        r matches Some(v) ==> jdoc_of(s@) == Some(jmodel(v)),
{
    serde_json::from_str(s).ok()
}

/// Relies on `serde_json::Value::get`: member lookup by key on an object,
/// returning nothing when the value is not an object or lacks the key.
#[verifier::external_body]
fn json_get<'a>(v: &'a serde_json::Value, key: &str) -> (r: Option<&'a serde_json::Value>)
    ensures
        (match jmodel(*v) {
            JsonData::Obj(m) => {
                if m.contains_key(key@) {
                    r matches Some(u) && jmodel(*u) == m[key@]
                } else {
                    r is None
                }
            },
            _ => r is None,
        }),
{
    v.get(key)
}

/// Relies on `serde_json::Value::as_str`: the contained characters exactly
/// when the value is a JSON string.
#[verifier::external_body]
fn json_as_str(v: &serde_json::Value) -> (r: Option<String>)
    ensures
        (match jmodel(*v) {
            JsonData::Str(t) => r matches Some(s) && s@ == t,
            _ => r is None,
        }),
{
    match v.as_str() {
        Some(s) => Some(s.to_owned()),
        None => None,
    }
}

/// Relies on `serde_json::Value::as_i64`: the contained integer exactly when
/// the value is a JSON number representable as an `i64`.
#[verifier::external_body]
fn json_as_i64(v: &serde_json::Value) -> (r: Option<i64>)
    ensures
        (match jmodel(*v) {
            JsonData::Int(n) => r matches Some(m) && m as int == n,
            _ => r is None,
        }),
{
    v.as_i64()
}

/// Relies on `serde_json::Value::as_bool`: the contained boolean exactly
/// when the value is a JSON boolean.
#[verifier::external_body]
fn json_as_bool(v: &serde_json::Value) -> (r: Option<bool>)
    ensures
        (match jmodel(*v) {
            JsonData::Bool(b) => r matches Some(c) && c == b,
            _ => r is None,
        }),
{
    v.as_bool()
}

/// Relies on `serde_json::Value::is_null`: whether the value is JSON null.
#[verifier::external_body]
fn json_is_null(v: &serde_json::Value) -> (r: bool)
    ensures
        r == (jmodel(*v) is Null),
{
    v.is_null()
}

/// The `id` member as a request id: a scalar keeps its JSON type; any other
/// shape disqualifies the frame.
pub open spec fn spec_id_of(d: JsonData) -> Option<RequestIdView> {
    match d {
        JsonData::Int(n) => Some(RequestIdView::Num(n)),
        JsonData::Str(s) => Some(RequestIdView::Str(s)),
        JsonData::Bool(b) => Some(RequestIdView::Bool(b)),
        JsonData::Null => Some(RequestIdView::Null),
        _ => None,
    }
}

/// The `name` member of a `tools/call` params object, when the params value
/// is an object and the member a string.
pub open spec fn spec_param_name(p: JsonData) -> Option<Seq<char>> {
    match p {
        JsonData::Obj(pm) => if pm.contains_key("name"@) {
            match pm["name"@] {
                JsonData::Str(s) => Some(s),
                _ => None,
            }
        } else {
            None
        },
        _ => None,
    }
}

/// The `params` member, reduced to what `tools/call` reads: present or
/// absent, and its `name` member when that is a string.
pub open spec fn spec_params_of(m: Map<Seq<char>, JsonData>) -> Option<CallParamsView> {
    if m.contains_key("params"@) {
        Some(CallParamsView { name: spec_param_name(m["params"@]) })
    } else {
        None
    }
}

/// Which documents are request frames, and the request each carries: an
/// object whose `jsonrpc` and `method` members are strings and whose `id`
/// member is a scalar. Any other document is no frame.
pub open spec fn spec_request_of(d: JsonData) -> Option<RequestView> {
    match d {
        JsonData::Obj(m) => {
            if !(m.contains_key("jsonrpc"@) && m["jsonrpc"@] is Str) {
                None
            } else if !(m.contains_key("method"@) && m["method"@] is Str) {
                None
            } else if !m.contains_key("id"@) {
                None
            } else {
                match spec_id_of(m["id"@]) {
                    None => None,
                    Some(id) => Some(
                        RequestView { id, method: m["method"@]->Str_0, params: spec_params_of(m) },
                    ),
                }
            }
        },
        _ => None,
    }
}

/// The request one input line carries, if any: the line must be well-formed
/// JSON and its document a request frame.
pub open spec fn spec_line_request(s: Seq<char>) -> Option<RequestView> {
    match jdoc_of(s) {
        None => None,
        Some(d) => spec_request_of(d),
    }
}

/// Reads the request envelope out of a parsed JSON document.
fn request_of_value(v: &serde_json::Value) -> (r: Option<Request>)
    ensures
        (match spec_request_of(jmodel(*v)) {
            None => r is None,
            Some(rq) => r matches Some(req) && req@ == rq,
        }),
{
    match json_get(v, "jsonrpc") {
        Some(jv) => {
            if json_as_str(jv).is_none() {
                return None;
            }
        },
        None => {
            return None;
        },
    }
    let method = match json_get(v, "method") {
        Some(mv) => match json_as_str(mv) {
            Some(s) => s,
            None => {
                return None;
            },
        },
        None => {
            return None;
        },
    };
    let id = match json_get(v, "id") {
        Some(idv) => match json_as_i64(idv) {
            Some(n) => RequestId::Num(n),
            None => match json_as_str(idv) {
                Some(s) => RequestId::Str(s),
                None => match json_as_bool(idv) {
                    Some(b) => RequestId::Bool(b),
                    None => {
                        if json_is_null(idv) {
                            RequestId::Null
                        } else {
                            return None;
                        }
                    },
                },
            },
        },
        None => {
            return None;
        },
    };
    let params = match json_get(v, "params") {
        Some(pv) => Some(
            CallParams {
                name: match json_get(pv, "name") {
                    Some(nv) => json_as_str(nv),
                    None => None,
                },
            },
        ),
        None => None,
    };
    Some(Request { id, method, params })
}

/// Decodes one input line as a request frame; a line that is not well-formed
/// JSON, or whose document is not a request envelope, yields nothing.
pub fn parse_request(line: &str) -> (r: Option<Request>)
    ensures
        (match spec_line_request(line@) {
            None => r is None,
            Some(rq) => r matches Some(req) && req@ == rq,
        }),
{
    match json_parse(line) {
        Some(v) => request_of_value(&v),
        None => None,
    }
}

} // verus!
