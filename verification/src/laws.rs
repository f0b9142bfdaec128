//! The library's general laws, each stated and proved over the
//! specification functions that the public contracts use.

use vstd::prelude::*;
use crate::codecs::json_parse_ok;
use crate::convert::{convert_spec, ss_convert_spec, vless_convert_spec, vmess_convert_spec};
use crate::display::{custom_pair, display_spec};
use crate::jsonout::{lemma_ss_config_shape, lemma_vless_config_shape, lemma_vmess_config_shape};
use crate::model::{classify_spec, classify_trimmed, LinkModel};
use crate::strutil::{lemma_trim_idempotent, lemma_trim_noop, split_at_first_spec, trim_spec};

verus! {

/// An input whose trimmed form begins with `{` but does not parse as JSON
/// still yields a display pair: exactly the two defaults.
pub proof fn lemma_unparsed_json_display(input: Seq<char>)
    requires
        trim_spec(input).len() > 0,
        trim_spec(input)[0] == '{',
        !json_parse_ok(trim_spec(input)),
    ensures
        display_spec(input) == ("JSON Config"@, "Unknown"@),
{
}

/// An input matching no supported shape yields the fallback display pair
/// and no runtime config.
pub proof fn lemma_unrecognized_fallback(input: Seq<char>)
    requires
        classify_spec(input) is None,
    ensures
        display_spec(input) == custom_pair(),
        convert_spec(input) is None,
{
}

/// A trojan link is displayed but never converted.
pub proof fn lemma_trojan_no_convert(input: Seq<char>)
    requires
        classify_spec(input) matches Some(LinkModel::Trojan { .. }),
    ensures
        convert_spec(input) is None,
{
}

/// A document input (the trimmed input begins with `{`) passes through
/// conversion verbatim, trimmed and nothing more.
pub proof fn lemma_document_passthrough(input: Seq<char>)
    requires
        trim_spec(input).len() > 0,
        trim_spec(input)[0] == '{',
    ensures
        convert_spec(input) == Some(trim_spec(input)),
{
}

proof fn lemma_ss_convert_shape(body: Seq<char>)
    requires
        ss_convert_spec(body) is Some,
    ensures
        ss_convert_spec(body)->0.len() > 0,
        ss_convert_spec(body)->0[0] == '{',
        ss_convert_spec(body)->0.last() == '}',
{
    match split_at_first_spec(body, '@') {
        None => {},
        Some(p) => {
            match split_at_first_spec(crate::convert::ss_cred_spec(p.0), ':') {
                None => {},
                Some(cred) => match split_at_first_spec(p.1, ':') {
                    None => {},
                    Some(sp) => {
                        lemma_ss_config_shape(
                            sp.0,
                            crate::digits::port_or_default(sp.1),
                            cred.0,
                            cred.1,
                        );
                    },
                },
            }
        },
    }
}

proof fn lemma_vless_convert_shape(body: Seq<char>)
    requires
        vless_convert_spec(body) is Some,
    ensures
        vless_convert_spec(body)->0.len() > 0,
        vless_convert_spec(body)->0[0] == '{',
        vless_convert_spec(body)->0.last() == '}',
{
    let qs = split_at_first_spec(body, '?');
    let main = match qs {
        Some(q) => q.0,
        None => body,
    };
    match split_at_first_spec(main, '@') {
        None => {},
        Some(p) => match split_at_first_spec(p.1, ':') {
            None => {},
            Some(sp) => {
                let flow = match qs {
                    Some(q) => crate::convert::query_value(q.1, "flow"@, "xtls-rprx-vision"@),
                    None => "xtls-rprx-vision"@,
                };
                let security = match qs {
                    Some(q) => crate::convert::query_value(q.1, "security"@, "reality"@),
                    None => "reality"@,
                };
                let sni = match qs {
                    Some(q) => crate::convert::query_value(q.1, "sni"@, "tesla.com"@),
                    None => "tesla.com"@,
                };
                lemma_vless_config_shape(
                    sp.0,
                    crate::digits::port_or_default(sp.1),
                    p.0,
                    flow,
                    security,
                    sni,
                );
            },
        },
    }
}

proof fn lemma_vmess_convert_shape(payload: Seq<char>)
    requires
        vmess_convert_spec(payload) is Some,
    ensures
        vmess_convert_spec(payload)->0.len() > 0,
        vmess_convert_spec(payload)->0[0] == '{',
        vmess_convert_spec(payload)->0.last() == '}',
{
    match crate::codecs::base64_decoded(payload) {
        None => {},
        Some(b) => match crate::codecs::utf8_decoded(b) {
            None => {},
            Some(doc) => {
                if json_parse_ok(doc) {
                    let address = crate::display::or_default(
                        crate::codecs::json_str_field(doc, "add"@),
                        Seq::empty(),
                    );
                    let port64 = match crate::codecs::json_u64_field(doc, "port"@) {
                        Some(p) => p,
                        None => 443,
                    };
                    let id = crate::display::or_default(
                        crate::codecs::json_str_field(doc, "id"@),
                        Seq::empty(),
                    );
                    let net = crate::display::or_default(
                        crate::codecs::json_str_field(doc, "net"@),
                        "tcp"@,
                    );
                    let tls = crate::display::or_default(
                        crate::codecs::json_str_field(doc, "tls"@),
                        Seq::empty(),
                    );
                    let security = if tls == "tls"@ {
                        "tls"@
                    } else {
                        "none"@
                    };
                    lemma_vmess_config_shape(address, (port64 % 65536) as u16, id, net, security);
                }
            },
        },
    }
}

/// Conversion is idempotent: a document that conversion produced converts
/// back to itself, unchanged.
pub proof fn lemma_convert_idempotent(input: Seq<char>, doc: Seq<char>)
    requires
        convert_spec(input) == Some(doc),
    ensures
        convert_spec(doc) == Some(doc),
{
    match classify_spec(input) {
        None => {},
        Some(l) => match l {
            LinkModel::Json { .. } => {
                lemma_trim_idempotent(input);
            },
            LinkModel::Shadowsocks { body, .. } => {
                lemma_ss_convert_shape(body);
            },
            LinkModel::Vless { body, .. } => {
                lemma_vless_convert_shape(body);
            },
            LinkModel::Vmess { payload } => {
                lemma_vmess_convert_shape(payload);
            },
            LinkModel::Trojan { .. } => {},
        },
    }
    assert(doc.len() > 0 && doc[0] == '{');
    if classify_spec(input) matches Some(LinkModel::Json { .. }) {
        assert(trim_spec(doc) == doc);
    } else {
        lemma_trim_noop(doc);
    }
    assert(classify_trimmed(doc) == Some(LinkModel::Json { raw: doc }));
}

} // verus!
