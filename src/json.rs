use vstd::prelude::*;
use vstd::utf8::encode_utf8;

use crate::text::str_eq;

verus! {

/// A structured document: the parts of a JSON value that normalisation reads.
/// A number is kept as its value when it is a non-negative integer that fits
/// in `u64`; members of an object keep the order they are handed over in.
#[derive(Debug)]
pub enum Json {
    Null,
    Bool(bool),
    Number(Option<u64>),
    Str(String),
    Array(Vec<Json>),
    Object(Vec<(String, Json)>),
}

#[verifier::external_type_specification]
#[verifier::external_body]
pub struct ExValue(serde_json::Value);

/// The document that a byte string reads as, or `None` when it is not one
/// JSON document.
pub uninterp spec fn json_doc(b: Seq<u8>) -> Option<Json>;

/// The key/value pairs of a form-encoded body, in order, or `None` when the
/// body cannot be read as a form.
pub uninterp spec fn form_pairs(b: Seq<u8>) -> Option<Seq<(Seq<char>, Seq<char>)>>;

/// Moves a serde_json value into the library's document type, one variant
/// for each variant.
#[verifier::external_body]
fn json_from_value(v: serde_json::Value) -> Json {
    match v {
        serde_json::Value::Null => Json::Null,
        serde_json::Value::Bool(b) => Json::Bool(b),
        serde_json::Value::Number(n) => Json::Number(n.as_u64()),
        serde_json::Value::String(s) => Json::Str(s),
        serde_json::Value::Array(a) => Json::Array(a.into_iter().map(json_from_value).collect()),
        serde_json::Value::Object(m) => Json::Object(
            m.into_iter().map(|(k, x)| (k, json_from_value(x))).collect(),
        ),
    }
}

/// Relies on serde_json::from_slice into a `Value`: the document read depends
/// on the bytes alone.
#[verifier::external_body]
fn json_from_slice(b: &[u8]) -> (r: Option<Json>)
    ensures
        r == json_doc(b@),
{
    serde_json::from_slice::<serde_json::Value>(b).ok().map(json_from_value)
}

/// Relies on serde_urlencoded::from_bytes read into a list of string pairs.
#[verifier::external_body]
fn form_from_bytes(b: &[u8]) -> (r: Option<Vec<(String, String)>>)
    ensures
        match r {
            Some(v) => form_pairs(b@) == Some(v@.map_values(|p: (String, String)| (p.0@, p.1@))),
            None => form_pairs(b@) is None,
        },
{
    serde_urlencoded::from_bytes::<Vec<(String, String)>>(b).ok()
}

/// Value under `key` among an object's members; the last one when a key
/// repeats.
pub open spec fn lookup(fields: Seq<(String, Json)>, key: Seq<char>) -> Option<Json>
    decreases fields.len(),
{
    if fields.len() == 0 {
        None
    } else if fields.last().0@ == key {
        Some(fields.last().1)
    } else {
        lookup(fields.drop_last(), key)
    }
}

/// Member `key` of a document; `None` when it is missing or the document is
/// not an object.
pub open spec fn member_of(doc: Json, key: Seq<char>) -> Option<Json> {
    match doc {
        Json::Object(fields) => lookup(fields@, key),
        _ => None,
    }
}

/// Member `key` of a document.
pub fn member<'a>(v: &'a Json, key: &str) -> (r: Option<&'a Json>)
    ensures
        match r {
            Some(x) => member_of(*v, key@) == Some(*x),
            None => member_of(*v, key@) is None,
        },
{
    match v {
        Json::Object(fields) => {
            let mut n = fields.len();
            assert(fields@.subrange(0, n as int) =~= fields@);
            while n > 0
                invariant
                    *v == Json::Object(*fields),
                    n <= fields@.len(),
                    lookup(fields@.subrange(0, n as int), key@) == lookup(fields@, key@),
                decreases n,
            {
                assert(fields@.subrange(0, n as int).last() == fields@[n - 1]);
                if str_eq(fields[n - 1].0.as_str(), key) {
                    assert(fields@[n - 1].0@ == key@);
                    assert(lookup(fields@.subrange(0, n as int), key@) == Some(fields@[n - 1].1));
                    return Some(&fields[n - 1].1);
                }
                assert(fields@.subrange(0, n as int).drop_last() =~= fields@.subrange(0, n - 1));
                n = n - 1;
            }
            None
        },
        _ => None,
    }
}

/// Why a request body could not be read.
#[derive(Debug, Clone, Copy, PartialEq, Eq)]
pub enum ParseError {
    /// Neither JSON nor a form body.
    InvalidForm,
    /// A form body without a `payload` field.
    MissingPayload,
    /// A `payload` field that is not JSON.
    InvalidPayload,
}

/// Value of the last `payload` pair of a form.
pub open spec fn form_payload(pairs: Seq<(Seq<char>, Seq<char>)>) -> Option<Seq<char>>
    decreases pairs.len(),
{
    if pairs.len() == 0 {
        None
    } else if pairs.last().0 == "payload"@ {
        Some(pairs.last().1)
    } else {
        form_payload(pairs.drop_last())
    }
}

/// The document a body holds: the body read as JSON, else the JSON text in
/// the `payload` field of a form body.
pub open spec fn body_document(b: Seq<u8>) -> Result<Json, ParseError> {
    match json_doc(b) {
        Some(d) => Ok(d),
        None => match form_pairs(b) {
            None => Err(ParseError::InvalidForm),
            Some(pairs) => match form_payload(pairs) {
                None => Err(ParseError::MissingPayload),
                Some(t) => match json_doc(encode_utf8(t)) {
                    Some(d) => Ok(d),
                    None => Err(ParseError::InvalidPayload),
                },
            },
        },
    }
}

/// Index of the last pair keyed `payload`.
fn find_payload(pairs: &Vec<(String, String)>) -> (r: Option<usize>)
    ensures
        match r {
            Some(i) => i < pairs@.len() && form_payload(
                pairs@.map_values(|p: (String, String)| (p.0@, p.1@)),
            ) == Some(pairs@[i as int].1@),
            None => form_payload(pairs@.map_values(|p: (String, String)| (p.0@, p.1@))) is None,
        },
{
    let ghost view = pairs@.map_values(|p: (String, String)| (p.0@, p.1@));
    let mut n = pairs.len();
    assert(view.subrange(0, n as int) =~= view);
    while n > 0
        invariant
            n <= pairs@.len(),
            view == pairs@.map_values(|p: (String, String)| (p.0@, p.1@)),
            form_payload(view.subrange(0, n as int)) == form_payload(view),
        decreases n,
    {
        let key = pairs[n - 1].0.as_str();
        assert(view.subrange(0, n as int).last() == view[n - 1]);
        if str_eq(key, "payload") {
            return Some(n - 1);
        }
        assert(view.subrange(0, n as int).drop_last() =~= view.subrange(0, n - 1));
        n = n - 1;
    }
    None
}

/// Reads a request body as a structured document: directly as JSON, or else
/// as a form whose `payload` field holds JSON.
pub fn parse_request_body(body: &[u8]) -> (r: Result<Json, ParseError>)
    ensures
        r == body_document(body@),
{
    if let Some(v) = json_from_slice(body) {
        return Ok(v);
    }
    let pairs = match form_from_bytes(body) {
        Some(p) => p,
        None => return Err(ParseError::InvalidForm),
    };
    let i = match find_payload(&pairs) {
        Some(i) => i,
        None => return Err(ParseError::MissingPayload),
    };
    match json_from_slice(pairs[i].1.as_str().as_bytes()) {
        Some(v) => Ok(v),
        None => Err(ParseError::InvalidPayload),
    }
}

/// A form body whose `payload` field holds a document, and which is not JSON
/// itself, gives the same document as that field's text read directly.
pub proof fn lemma_form_payload_same_document(body: Seq<u8>, text: Seq<char>)
    requires
        json_doc(body) is None,
        form_pairs(body) matches Some(pairs) && form_payload(pairs) == Some(text),
        json_doc(encode_utf8(text)) is Some,
    ensures
        body_document(body) == body_document(encode_utf8(text)),
{
}

} // verus!
