//! The display extractor: a `(name, server)` pair for UI listing, derived
//! from any input string and never failing. Inputs matching no supported
//! shape, and links whose body lacks its `@` split, degrade to the fallback
//! pair `("Custom Config", "Unknown")`.

use vstd::prelude::*;
use vstd::string::*;
use crate::codecs::{b64_decode, base64_decoded, json_display_name, json_get_display_name,
    json_get_str, json_get_vnext_address, json_parse_ok, json_parses, json_str_field,
    json_vnext_address, percent_decode, percent_decoded, utf8_decoded, utf8_to_string};
use crate::model::{classify, classify_spec, opt_str_view, LinkModel, ProxyLink};
use crate::strutil::{before_first, before_first_spec, split_at_first, split_at_first_spec};

verus! {

pub open spec fn or_default(x: Option<Seq<char>>, d: Seq<char>) -> Seq<char> {
    match x {
        Some(v) => v,
        None => d,
    }
}

/// The fallback pair for inputs matching no recognized shape.
pub open spec fn custom_pair() -> (Seq<char>, Seq<char>) {
    ("Custom Config"@, "Unknown"@)
}

/// The server host of a `cred@host[:port]` body: the part after the first
/// `@`, cut at the first `:`; `None` when there is no `@`.
pub open spec fn host_of_body(body: Seq<char>) -> Option<Seq<char>> {
    match split_at_first_spec(body, '@') {
        Some(p) => Some(before_first_spec(p.1, ':')),
        None => None,
    }
}

/// Display pair of a URI-style link: the percent-decoded fragment (or the
/// encoding's default name), and the host; the whole pair falls back when
/// the body has no `@`.
pub open spec fn uri_display_spec(
    main: Seq<char>,
    frag: Option<Seq<char>>,
    default_name: Seq<char>,
) -> (Seq<char>, Seq<char>) {
    match host_of_body(main) {
        Some(h) => (
            match frag {
                Some(f) => percent_decoded(f),
                None => default_name,
            },
            h,
        ),
        None => custom_pair(),
    }
}

/// Display pair of a JSON document input: name from `ps`, else `name`, else
/// a literal; server from the fixed outbound path, else a literal. A
/// document that does not parse keeps both defaults.
pub open spec fn json_display_spec(doc: Seq<char>) -> (Seq<char>, Seq<char>) {
    if json_parse_ok(doc) {
        (
            or_default(json_display_name(doc), "JSON Config"@),
            or_default(json_vnext_address(doc), "Unknown"@),
        )
    } else {
        ("JSON Config"@, "Unknown"@)
    }
}

/// Display pair of a vmess payload: any decode or parse failure falls back
/// to the fallback pair.
pub open spec fn vmess_display_spec(payload: Seq<char>) -> (Seq<char>, Seq<char>) {
    match base64_decoded(payload) {
        Some(b) => match utf8_decoded(b) {
            Some(doc) => if json_parse_ok(doc) {
                (
                    or_default(json_str_field(doc, "ps"@), "VMess Config"@),
                    or_default(json_str_field(doc, "add"@), "Unknown"@),
                )
            } else {
                custom_pair()
            },
            None => custom_pair(),
        },
        None => custom_pair(),
    }
}

/// What `extract_display` returns, for every input.
pub open spec fn display_spec(input: Seq<char>) -> (Seq<char>, Seq<char>) {
    match classify_spec(input) {
        None => custom_pair(),
        Some(l) => match l {
            LinkModel::Json { raw } => json_display_spec(raw),
            LinkModel::Shadowsocks { body, fragment } => uri_display_spec(
                body,
                fragment,
                "Shadowsocks Config"@,
            ),
            LinkModel::Vless { body, fragment } => uri_display_spec(
                before_first_spec(body, '?'),
                fragment,
                "VLESS Config"@,
            ),
            LinkModel::Vmess { payload } => vmess_display_spec(payload),
            LinkModel::Trojan { body, fragment } => uri_display_spec(
                before_first_spec(body, '?'),
                fragment,
                "Trojan Config"@,
            ),
        },
    }
}

fn custom_pair_exec() -> (r: (String, String))
    ensures
        (r.0@, r.1@) == custom_pair(),
{
    (String::from_str("Custom Config"), String::from_str("Unknown"))
}

fn uri_display_exec(main: &str, frag: &Option<String>, default_name: &str) -> (r: (String, String))
    ensures
        (r.0@, r.1@) == uri_display_spec(main@, opt_str_view(*frag), default_name@),
{
    match split_at_first(main, '@') {
        Some(p) => {
            let host = before_first(p.1, ':');
            let name = match frag {
                Some(f) => percent_decode(f.as_str()),
                None => String::from_str(default_name),
            };
            (name, String::from_str(host))
        },
        None => custom_pair_exec(),
    }
}

fn json_display_exec(doc: &str) -> (r: (String, String))
    ensures
        (r.0@, r.1@) == json_display_spec(doc@),
{
    if json_parses(doc) {
        let name = match json_get_display_name(doc) {
            Some(v) => v,
            None => String::from_str("JSON Config"),
        };
        let server = match json_get_vnext_address(doc) {
            Some(v) => v,
            None => String::from_str("Unknown"),
        };
        (name, server)
    } else {
        (String::from_str("JSON Config"), String::from_str("Unknown"))
    }
}

fn vmess_display_exec(payload: &str) -> (r: (String, String))
    ensures
        (r.0@, r.1@) == vmess_display_spec(payload@),
{
    match b64_decode(payload) {
        Some(bytes) => match utf8_to_string(bytes) {
            Some(doc) => {
                if json_parses(doc.as_str()) {
                    let name = match json_get_str(doc.as_str(), "ps") {
                        Some(v) => v,
                        None => String::from_str("VMess Config"),
                    };
                    let server = match json_get_str(doc.as_str(), "add") {
                        Some(v) => v,
                        None => String::from_str("Unknown"),
                    };
                    (name, server)
                } else {
                    custom_pair_exec()
                }
            },
            None => custom_pair_exec(),
        },
        None => custom_pair_exec(),
    }
}

/// Derive the `(name, server)` display pair for an input string. Total:
/// every input, however malformed, yields a pair.
pub fn extract_display(input: &str) -> (r: (String, String))
    ensures
        (r.0@, r.1@) == display_spec(input@),
{
    match classify(input) {
        None => custom_pair_exec(),
        Some(link) => match link {
            ProxyLink::Json { raw } => json_display_exec(raw.as_str()),
            ProxyLink::Shadowsocks { body, fragment } => uri_display_exec(
                body.as_str(),
                &fragment,
                "Shadowsocks Config",
            ),
            ProxyLink::Vless { body, fragment } => {
                let main = before_first(body.as_str(), '?');
                uri_display_exec(main, &fragment, "VLESS Config")
            },
            ProxyLink::Vmess { payload } => vmess_display_exec(payload.as_str()),
            ProxyLink::Trojan { body, fragment } => {
                let main = before_first(body.as_str(), '?');
                uri_display_exec(main, &fragment, "Trojan Config")
            },
        },
    }
}

} // verus!
