//! The content negotiator: from a declared content type and a raw body to
//! the text to embed.
//!
//! When the declared content type is exactly the JSON media type, the body
//! is read as a JSON object and the text is its `text` string field; a body
//! that is not such an object, or whose `text` field is not a string, yields
//! the empty text, which the pipeline then rejects for emptiness.  Under any
//! other (or no) declared content type the whole body is the text, verbatim.

use vstd::prelude::*;
use vstd::string::StringSliceAdditionalSpecFns;

verus! {

/// The text that reading `body` as a JSON object yields: its `text` string
/// field, or the empty byte string when `body` is not a JSON object with a
/// string field of that name.
pub uninterp spec fn json_text_of(body: Seq<u8>) -> Seq<u8>;

/// Relies on `serde_json::from_slice`, `serde_json::Value::get` and
/// `serde_json::Value::as_str`: the `text` string field of a JSON object
/// body, or empty when the body is not a JSON object carrying one.  The
/// result depends on the body bytes alone; an empty body is not valid JSON,
/// so it yields the empty text.
#[verifier::external_body]
fn json_text_field(body: &Vec<u8>) -> (r: Vec<u8>)
    ensures
        r@ == json_text_of(body@),
        body@.len() == 0 ==> r@.len() == 0,
{
    match serde_json::from_slice::<serde_json::Value>(body.as_slice()) {
        Ok(v) => match v.get("text") {
            Some(t) => match t.as_str() {
                Some(s) => s.to_owned().into_bytes(),
                None => Vec::new(),
            },
            None => Vec::new(),
        },
        Err(_) => Vec::new(),
    }
}

/// The JSON media type, the one content type whose bodies are read as a JSON
/// envelope rather than verbatim.
pub open spec fn json_media_type() -> Seq<u8> {
    "application/json".spec_bytes()
}

/// The text a request with the given declared content type and body asks to
/// embed.
pub open spec fn negotiated(content_type: Option<Seq<u8>>, body: Seq<u8>) -> Seq<u8> {
    if content_type == Option::Some(json_media_type()) {
        json_text_of(body)
    } else {
        body
    }
}

/// Extracts the text to embed from one request body.
///
/// An empty body yields empty text under every content type, so emptiness of
/// the result covers both an absent input and an unreadable JSON envelope.
pub fn negotiate(content_type: Option<&Vec<u8>>, body: &Vec<u8>) -> (t: Vec<u8>)
    ensures
        t@ == negotiated(
            match content_type {
                Option::Some(c) => Option::Some(c@),
                Option::None => Option::None,
            },
            body@,
        ),
        body@.len() == 0 ==> t@.len() == 0,
{
    let is_json = match content_type {
        Option::Some(c) => crate::bytestr::bytes_eq(c.as_slice(), "application/json".as_bytes()),
        Option::None => false,
    };
    if is_json {
        json_text_field(body)
    } else {
        vstd::slice::slice_to_vec(body.as_slice())
    }
}

} // verus!
