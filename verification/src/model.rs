//! The link model: classification of a trimmed input string into one of the
//! five supported encodings, by prefix alone and in a fixed precedence order.

use vstd::prelude::*;
use vstd::string::*;
use crate::strutil::{split_at_last, split_at_last_spec, starts_with, starts_with_spec, trim_spec,
    trim_str};

verus! {

/// A classified input, one variant per supported encoding.
pub enum ProxyLink {
    /// A raw JSON document: the trimmed input began with `{`.
    Json { raw: String },
    /// An `ss://` link. `body` is the part after the scheme and before the
    /// last `#`; `fragment` the percent-encoded display name after it.
    Shadowsocks { body: String, fragment: Option<String> },
    /// A `vless://` link, split like `Shadowsocks`.
    Vless { body: String, fragment: Option<String> },
    /// A `vmess://` link: the whole remainder after the scheme is one
    /// base64 payload.
    Vmess { payload: String },
    /// A `trojan://` link, split like `Shadowsocks`.
    Trojan { body: String, fragment: Option<String> },
}

/// The mathematical shape of a classified link.
pub enum LinkModel {
    Json { raw: Seq<char> },
    Shadowsocks { body: Seq<char>, fragment: Option<Seq<char>> },
    Vless { body: Seq<char>, fragment: Option<Seq<char>> },
    Vmess { payload: Seq<char> },
    Trojan { body: Seq<char>, fragment: Option<Seq<char>> },
}

pub open spec fn opt_str_view(o: Option<String>) -> Option<Seq<char>> {
    match o {
        Some(s) => Some(s@),
        None => None,
    }
}

impl View for ProxyLink {
    type V = LinkModel;

    open spec fn view(&self) -> LinkModel {
        match self {
            ProxyLink::Json { raw } => LinkModel::Json { raw: raw@ },
            ProxyLink::Shadowsocks { body, fragment } => LinkModel::Shadowsocks {
                body: body@,
                fragment: opt_str_view(*fragment),
            },
            ProxyLink::Vless { body, fragment } => LinkModel::Vless {
                body: body@,
                fragment: opt_str_view(*fragment),
            },
            ProxyLink::Vmess { payload } => LinkModel::Vmess { payload: payload@ },
            ProxyLink::Trojan { body, fragment } => LinkModel::Trojan {
                body: body@,
                fragment: opt_str_view(*fragment),
            },
        }
    }
}

/// Split a scheme remainder at its last `#` into body and optional fragment.
pub open spec fn body_frag_spec(rest: Seq<char>) -> (Seq<char>, Option<Seq<char>>) {
    match split_at_last_spec(rest, '#') {
        Some(p) => (p.0, Some(p.1)),
        None => (rest, None),
    }
}

/// Classification of an already-trimmed input, in the fixed precedence
/// order: `{` document, then the `ss`, `vless`, `vmess`, `trojan` schemes.
pub open spec fn classify_trimmed(s: Seq<char>) -> Option<LinkModel> {
    if s.len() > 0 && s[0] == '{' {
        Some(LinkModel::Json { raw: s })
    } else if starts_with_spec(s, "ss://"@) {
        let bf = body_frag_spec(s.subrange(5, s.len() as int));
        Some(LinkModel::Shadowsocks { body: bf.0, fragment: bf.1 })
    } else if starts_with_spec(s, "vless://"@) {
        let bf = body_frag_spec(s.subrange(8, s.len() as int));
        Some(LinkModel::Vless { body: bf.0, fragment: bf.1 })
    } else if starts_with_spec(s, "vmess://"@) {
        Some(LinkModel::Vmess { payload: s.subrange(8, s.len() as int) })
    } else if starts_with_spec(s, "trojan://"@) {
        let bf = body_frag_spec(s.subrange(9, s.len() as int));
        Some(LinkModel::Trojan { body: bf.0, fragment: bf.1 })
    } else {
        None
    }
}

/// Classification of a raw input: whitespace at the boundaries is stripped
/// first.
pub open spec fn classify_spec(input: Seq<char>) -> Option<LinkModel> {
    classify_trimmed(trim_spec(input))
}

fn body_and_fragment(rest: &str) -> (r: (String, Option<String>))
    ensures
        ({
            let bf = body_frag_spec(rest@);
            r.0@ == bf.0 && opt_str_view(r.1) == bf.1
        }),
{
    match split_at_last(rest, '#') {
        Some(p) => (String::from_str(p.0), Some(String::from_str(p.1))),
        None => (String::from_str(rest), None),
    }
}

/// Classify a raw input string, or reject it as no supported encoding.
pub fn classify(input: &str) -> (r: Option<ProxyLink>)
    ensures
        match r {
            Some(l) => classify_spec(input@) == Some(l@),
            None => classify_spec(input@) is None,
        },
{
    let t = trim_str(input);
    let n: usize = t.unicode_len();
    proof {
        reveal_strlit("ss://");
        reveal_strlit("vless://");
        reveal_strlit("vmess://");
        reveal_strlit("trojan://");
    }
    if n > 0 && t.get_char(0) == '{' {
        return Some(ProxyLink::Json { raw: String::from_str(t) });
    }
    if starts_with(t, "ss://") {
        let rest = t.substring_char(5, n);
        let bf = body_and_fragment(rest);
        return Some(ProxyLink::Shadowsocks { body: bf.0, fragment: bf.1 });
    }
    if starts_with(t, "vless://") {
        let rest = t.substring_char(8, n);
        let bf = body_and_fragment(rest);
        return Some(ProxyLink::Vless { body: bf.0, fragment: bf.1 });
    }
    if starts_with(t, "vmess://") {
        let rest = t.substring_char(8, n);
        return Some(ProxyLink::Vmess { payload: String::from_str(rest) });
    }
    if starts_with(t, "trojan://") {
        let rest = t.substring_char(9, n);
        let bf = body_and_fragment(rest);
        return Some(ProxyLink::Trojan { body: bf.0, fragment: bf.1 });
    }
    None
}

} // verus!
