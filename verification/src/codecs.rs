//! Trusted boundary to the outside codec crates: base64 decoding, UTF-8
//! decoding, percent decoding, and JSON lookups through serde_json. Each
//! call's result is a function of its arguments alone, and is given a name
//! here that the library's contracts build on.

use vstd::prelude::*;

verus! {

/// What `base64::decode` returns on a given input: the decoded bytes, or
/// `None` where the input is not valid standard base64.
pub uninterp spec fn base64_decoded(s: Seq<char>) -> Option<Seq<u8>>;

/// Relies on `base64::decode` (standard alphabet with padding): the result
/// is a function of the input characters alone.
#[verifier::external_body]
pub(crate) fn b64_decode(s: &str) -> (r: Option<Vec<u8>>)
    ensures
        match r {
            Some(v) => base64_decoded(s@) == Some(v@),
            None => base64_decoded(s@) is None,
        },
{
    base64::decode(s).ok()
}

/// What `String::from_utf8` returns: the characters decoded from the bytes,
/// or `None` where the bytes are not valid UTF-8.
pub uninterp spec fn utf8_decoded(b: Seq<u8>) -> Option<Seq<char>>;

/// Relies on `String::from_utf8`: the result is a function of the bytes alone.
#[verifier::external_body]
pub(crate) fn utf8_to_string(b: Vec<u8>) -> (r: Option<String>)
    ensures
        match r {
            Some(s) => utf8_decoded(b@) == Some(s@),
            None => utf8_decoded(b@) is None,
        },
{
    String::from_utf8(b).ok()
}

/// What `urlencoding::decode` yields on a given input, a decoding failure
/// (percent escapes that are not UTF-8) taken as the empty string.
pub uninterp spec fn percent_decoded(s: Seq<char>) -> Seq<char>;

/// Relies on `urlencoding::decode`: the result is a function of the input
/// alone, and an input without `%` is returned unchanged.
#[verifier::external_body]
pub(crate) fn percent_decode(s: &str) -> (r: String)
    ensures
        r@ == percent_decoded(s@),
        !s@.contains('%') ==> r@ == s@,
{
    match urlencoding::decode(s) {
        Ok(c) => c.into_owned(),
        Err(_) => String::new(),
    }
}

/// Whether a string parses as a JSON document under serde_json.
pub uninterp spec fn json_parse_ok(s: Seq<char>) -> bool;

/// Relies on `serde_json::from_str::<Value>`: success is a function of the
/// input text alone.
#[verifier::external_body]
pub(crate) fn json_parses(s: &str) -> (r: bool)
    ensures
        r == json_parse_ok(s@),
{
    serde_json::from_str::<serde_json::Value>(s).is_ok()
}

/// The display name of a JSON document: field `ps`, else field `name`, read
/// as a string. `None` where the document does not parse, neither field is
/// present, or the first present one is not a string.
pub uninterp spec fn json_display_name(s: Seq<char>) -> Option<Seq<char>>;

/// Relies on `serde_json::from_str::<Value>`, `Value::get` and
/// `Value::as_str`: all deterministic in the document text alone.
#[verifier::external_body]
pub(crate) fn json_get_display_name(s: &str) -> (r: Option<String>)
    ensures
        match r {
            Some(v) => json_display_name(s@) == Some(v@),
            None => json_display_name(s@) is None,
        },
{
    let doc: serde_json::Value = serde_json::from_str(s).ok()?;
    let field = match doc.get("ps") {
        Some(v) => v,
        None => doc.get("name")?,
    };
    Some(field.as_str()?.to_string())
}

/// The string value of a top-level field of a JSON document: `None` where
/// the document does not parse, the field is absent, or it is not a string.
pub uninterp spec fn json_str_field(s: Seq<char>, key: Seq<char>) -> Option<Seq<char>>;

/// Relies on `serde_json::from_str::<Value>`, `Value::get` and
/// `Value::as_str`: all deterministic in the document text and key alone.
#[verifier::external_body]
pub(crate) fn json_get_str(s: &str, key: &str) -> (r: Option<String>)
    ensures
        match r {
            Some(v) => json_str_field(s@, key@) == Some(v@),
            None => json_str_field(s@, key@) is None,
        },
{
    let doc: serde_json::Value = serde_json::from_str(s).ok()?;
    Some(doc.get(key)?.as_str()?.to_string())
}

/// The unsigned integer value of a top-level field of a JSON document:
/// `None` where the document does not parse, the field is absent, or it is
/// not representable as a u64.
pub uninterp spec fn json_u64_field(s: Seq<char>, key: Seq<char>) -> Option<u64>;

/// Relies on `serde_json::from_str::<Value>`, `Value::get` and
/// `Value::as_u64`: all deterministic in the document text and key alone.
#[verifier::external_body]
pub(crate) fn json_get_u64(s: &str, key: &str) -> (r: Option<u64>)
    ensures
        r == json_u64_field(s@, key@),
{
    let doc: serde_json::Value = serde_json::from_str(s).ok()?;
    doc.get(key)?.as_u64()
}

/// The string at `outbounds[0].settings.vnext[0].address` of a JSON
/// document: `None` where the document does not parse or any step of the
/// path is absent or of the wrong shape.
pub uninterp spec fn json_vnext_address(s: Seq<char>) -> Option<Seq<char>>;

/// Relies on `serde_json::from_str::<Value>`, `Value::get`,
/// `Value::as_array` and `Value::as_str`: the path is fixed, the result
/// deterministic in the document text alone.
#[verifier::external_body]
pub(crate) fn json_get_vnext_address(s: &str) -> (r: Option<String>)
    ensures
        match r {
            Some(v) => json_vnext_address(s@) == Some(v@),
            None => json_vnext_address(s@) is None,
        },
{
    let doc: serde_json::Value = serde_json::from_str(s).ok()?;
    let outbound = doc.get("outbounds")?.as_array()?.first()?;
    let vnext = outbound.get("settings")?.get("vnext")?.as_array()?.first()?;
    Some(vnext.get("address")?.as_str()?.to_string())
}

/// Relies on `String::push`: appends one character.
#[verifier::external_body]
pub(crate) fn push_char(s: &mut String, c: char)
    ensures
        final(s)@ == old(s)@.push(c),
{
    s.push(c)
}

} // verus!
