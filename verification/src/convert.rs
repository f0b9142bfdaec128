//! The config converter: from any supported input encoding to the
//! normalized runtime configuration document, or the single unsupported-
//! format error. A document input passes through verbatim; a trojan link
//! has no conversion; every other structural mismatch, and every local
//! decode failure, falls through to the error.

use vstd::prelude::*;
use vstd::string::*;
use crate::codecs::{b64_decode, base64_decoded, json_get_str, json_get_u64, json_parse_ok,
    json_parses, json_str_field, json_u64_field, utf8_decoded, utf8_to_string};
use crate::digits::{parse_port, port_or_default};
use crate::display::or_default;
use crate::jsonout::{build_ss_config, build_vless_config, build_vmess_config, ss_config_spec,
    vless_config_spec, vmess_config_spec};
use crate::model::{classify, classify_spec, LinkModel, ProxyLink};
use crate::strutil::{find_first, first_ix, lemma_first_ix, split_at_first, split_at_first_spec,
    str_equal};
use crate::ConvertError;

verus! {

/// The key/value of one `&`-separated query pair, `None` unless the pair
/// holds exactly one `=`.
pub open spec fn pair_kv(pair: Seq<char>) -> Option<(Seq<char>, Seq<char>)> {
    match split_at_first_spec(pair, '=') {
        Some(p) => if first_ix(p.1, '=') < p.1.len() {
            None
        } else {
            Some(p)
        },
        None => None,
    }
}

pub open spec fn pair_update_spec(pair: Seq<char>, key: Seq<char>, cur: Seq<char>) -> Seq<char> {
    match pair_kv(pair) {
        Some(kv) => if kv.0 == key {
            kv.1
        } else {
            cur
        },
        None => cur,
    }
}

/// The value of `key` in a query string of `&`-separated pairs, starting
/// from `cur`; malformed pairs are ignored, a later occurrence wins.
pub open spec fn query_value(q: Seq<char>, key: Seq<char>, cur: Seq<char>) -> Seq<char>
    decreases q.len(),
    via query_value_dec
{
    match split_at_first_spec(q, '&') {
        None => pair_update_spec(q, key, cur),
        Some(p) => query_value(p.1, key, pair_update_spec(p.0, key, cur)),
    }
}

#[via_fn]
proof fn query_value_dec(q: Seq<char>, key: Seq<char>, cur: Seq<char>) {
    lemma_first_ix(q, '&');
}

/// The credential text of an `ss://` body: the part before the `@`,
/// base64-decoded and read as UTF-8, any failure acting as empty.
pub open spec fn ss_cred_spec(b64cred: Seq<char>) -> Seq<char> {
    match base64_decoded(b64cred) {
        Some(b) => match utf8_decoded(b) {
            Some(t) => t,
            None => Seq::empty(),
        },
        None => Seq::empty(),
    }
}

/// What conversion of an `ss://` body yields: the credential before the
/// `@` is base64-decoded UTF-8 `method:password` (a failed decode acting
/// as empty), the rest splits into server and port.
pub open spec fn ss_convert_spec(body: Seq<char>) -> Option<Seq<char>> {
    match split_at_first_spec(body, '@') {
        None => None,
        Some(p) => {
            let mp = ss_cred_spec(p.0);
            match split_at_first_spec(mp, ':') {
                None => None,
                Some(cred) => match split_at_first_spec(p.1, ':') {
                    None => None,
                    Some(sp) => Some(
                        ss_config_spec(sp.0, port_or_default(sp.1), cred.0, cred.1),
                    ),
                },
            }
        },
    }
}

/// What conversion of a `vless://` body yields: UUID before the `@`,
/// server and port after it, and the `flow`, `security` and `sni` query
/// parameters with their defaults.
pub open spec fn vless_convert_spec(body: Seq<char>) -> Option<Seq<char>> {
    let qs = split_at_first_spec(body, '?');
    let main = match qs {
        Some(q) => q.0,
        None => body,
    };
    match split_at_first_spec(main, '@') {
        None => None,
        Some(p) => match split_at_first_spec(p.1, ':') {
            None => None,
            Some(sp) => {
                let flow = match qs {
                    Some(q) => query_value(q.1, "flow"@, "xtls-rprx-vision"@),
                    None => "xtls-rprx-vision"@,
                };
                let security = match qs {
                    Some(q) => query_value(q.1, "security"@, "reality"@),
                    None => "reality"@,
                };
                let sni = match qs {
                    Some(q) => query_value(q.1, "sni"@, "tesla.com"@),
                    None => "tesla.com"@,
                };
                Some(
                    vless_config_spec(sp.0, port_or_default(sp.1), p.0, flow, security, sni),
                )
            },
        },
    }
}

/// What conversion of a `vmess://` payload yields: the base64 payload is
/// UTF-8 JSON; fields default to empty address and id, port 443 (taken
/// modulo 2^16), network `tcp` and no TLS.
pub open spec fn vmess_convert_spec(payload: Seq<char>) -> Option<Seq<char>> {
    match base64_decoded(payload) {
        None => None,
        Some(b) => match utf8_decoded(b) {
            None => None,
            Some(doc) => if json_parse_ok(doc) {
                let address = or_default(json_str_field(doc, "add"@), Seq::empty());
                let port64 = match json_u64_field(doc, "port"@) {
                    Some(p) => p,
                    None => 443,
                };
                let id = or_default(json_str_field(doc, "id"@), Seq::empty());
                let net = or_default(json_str_field(doc, "net"@), "tcp"@);
                let tls = or_default(json_str_field(doc, "tls"@), Seq::empty());
                let security = if tls == "tls"@ {
                    "tls"@
                } else {
                    "none"@
                };
                Some(vmess_config_spec(address, (port64 % 65536) as u16, id, net, security))
            } else {
                None
            },
        },
    }
}

/// What `convert_to_runtime_config` yields: `None` stands for the
/// unsupported-format error.
pub open spec fn convert_spec(input: Seq<char>) -> Option<Seq<char>> {
    match classify_spec(input) {
        None => None,
        Some(l) => match l {
            LinkModel::Json { raw } => Some(raw),
            LinkModel::Shadowsocks { body, .. } => ss_convert_spec(body),
            LinkModel::Vless { body, .. } => vless_convert_spec(body),
            LinkModel::Vmess { payload } => vmess_convert_spec(payload),
            LinkModel::Trojan { .. } => None,
        },
    }
}

fn pair_update(pair: &str, key: &str, cur: String) -> (r: String)
    ensures
        r@ == pair_update_spec(pair@, key@, cur@),
{
    match split_at_first(pair, '=') {
        Some(p) => {
            match find_first(p.1, '=') {
                Some(_) => cur,
                None => {
                    if str_equal(p.0, key) {
                        String::from_str(p.1)
                    } else {
                        cur
                    }
                },
            }
        },
        None => cur,
    }
}

fn query_lookup(q: &str, key: &str, default_value: &str) -> (r: String)
    ensures
        r@ == query_value(q@, key@, default_value@),
{
    let mut cur = String::from_str(default_value);
    let mut rest = q;
    loop
        invariant
            query_value(q@, key@, default_value@) == query_value(rest@, key@, cur@),
        decreases rest@.len(),
    {
        match split_at_first(rest, '&') {
            Some(p) => {
                proof {
                    lemma_first_ix(rest@, '&');
                }
                cur = pair_update(p.0, key, cur);
                rest = p.1;
            },
            None => {
                return pair_update(rest, key, cur);
            },
        }
    }
}

fn ss_convert(body: &str) -> (r: Option<String>)
    ensures
        match r {
            Some(s) => ss_convert_spec(body@) == Some(s@),
            None => ss_convert_spec(body@) is None,
        },
{
    match split_at_first(body, '@') {
        None => None,
        Some(p) => {
            let mp: String = match b64_decode(p.0) {
                Some(bytes) => match utf8_to_string(bytes) {
                    Some(t) => t,
                    None => String::new(),
                },
                None => String::new(),
            };
            match split_at_first(mp.as_str(), ':') {
                None => None,
                Some(cred) => match split_at_first(p.1, ':') {
                    None => None,
                    Some(sp) => {
                        let port = parse_port(sp.1);
                        Some(build_ss_config(sp.0, port, cred.0, cred.1))
                    },
                },
            }
        },
    }
}

fn vless_convert(body: &str) -> (r: Option<String>)
    ensures
        match r {
            Some(s) => vless_convert_spec(body@) == Some(s@),
            None => vless_convert_spec(body@) is None,
        },
{
    let qsplit = split_at_first(body, '?');
    let main: &str = match qsplit {
        Some(p) => p.0,
        None => body,
    };
    match split_at_first(main, '@') {
        None => None,
        Some(p) => match split_at_first(p.1, ':') {
            None => None,
            Some(sp) => {
                let flow: String = match qsplit {
                    Some(q) => query_lookup(q.1, "flow", "xtls-rprx-vision"),
                    None => String::from_str("xtls-rprx-vision"),
                };
                let security: String = match qsplit {
                    Some(q) => query_lookup(q.1, "security", "reality"),
                    None => String::from_str("reality"),
                };
                let sni: String = match qsplit {
                    Some(q) => query_lookup(q.1, "sni", "tesla.com"),
                    None => String::from_str("tesla.com"),
                };
                let port = parse_port(sp.1);
                Some(
                    build_vless_config(
                        sp.0,
                        port,
                        p.0,
                        flow.as_str(),
                        security.as_str(),
                        sni.as_str(),
                    ),
                )
            },
        },
    }
}

fn vmess_convert(payload: &str) -> (r: Option<String>)
    ensures
        match r {
            Some(s) => vmess_convert_spec(payload@) == Some(s@),
            None => vmess_convert_spec(payload@) is None,
        },
{
    match b64_decode(payload) {
        None => None,
        Some(bytes) => match utf8_to_string(bytes) {
            None => None,
            Some(doc) => {
                if json_parses(doc.as_str()) {
                    let address = match json_get_str(doc.as_str(), "add") {
                        Some(v) => v,
                        None => String::new(),
                    };
                    let port64: u64 = match json_get_u64(doc.as_str(), "port") {
                        Some(p) => p,
                        None => 443,
                    };
                    let port: u16 = (port64 % 65536) as u16;
                    let id = match json_get_str(doc.as_str(), "id") {
                        Some(v) => v,
                        None => String::new(),
                    };
                    let net = match json_get_str(doc.as_str(), "net") {
                        Some(v) => v,
                        None => String::from_str("tcp"),
                    };
                    let tls = match json_get_str(doc.as_str(), "tls") {
                        Some(v) => v,
                        None => String::new(),
                    };
                    let security: &str = if str_equal(tls.as_str(), "tls") {
                        "tls"
                    } else {
                        "none"
                    };
                    Some(
                        build_vmess_config(address.as_str(), port, id.as_str(), net.as_str(), security),
                    )
                } else {
                    None
                }
            },
        },
    }
}

/// Convert an input string into the runtime configuration document, or
/// fail: `Err` exactly where no branch yields a document.
pub fn convert_to_runtime_config(input: &str) -> (r: Result<String, ConvertError>)
    ensures
        match r {
            Ok(s) => convert_spec(input@) == Some(s@),
            Err(e) => convert_spec(input@) is None && e == ConvertError::UnsupportedFormat,
        },
{
    match classify(input) {
        None => Err(ConvertError::UnsupportedFormat),
        Some(link) => match link {
            ProxyLink::Json { raw } => Ok(raw),
            ProxyLink::Shadowsocks { body, .. } => match ss_convert(body.as_str()) {
                Some(s) => Ok(s),
                None => Err(ConvertError::UnsupportedFormat),
            },
            ProxyLink::Vless { body, .. } => match vless_convert(body.as_str()) {
                Some(s) => Ok(s),
                None => Err(ConvertError::UnsupportedFormat),
            },
            ProxyLink::Vmess { payload } => match vmess_convert(payload.as_str()) {
                Some(s) => Ok(s),
                None => Err(ConvertError::UnsupportedFormat),
            },
            ProxyLink::Trojan { .. } => Err(ConvertError::UnsupportedFormat),
        },
    }
}

} // verus!
