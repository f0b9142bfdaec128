//! The runtime configuration document as JSON text: string escaping, and
//! one builder per outbound protocol. Every document holds the fixed
//! inbound (a local SOCKS listener on port 1080 with no authentication)
//! and exactly one outbound. Object keys are written in sorted order.

use vstd::prelude::*;
use vstd::string::*;
use crate::codecs::push_char;
use crate::digits::{dec_spec, u64_to_string};

verus! {

pub open spec fn hex_digit_char(n: int) -> char {
    if n == 0 {
        '0'
    } else if n == 1 {
        '1'
    } else if n == 2 {
        '2'
    } else if n == 3 {
        '3'
    } else if n == 4 {
        '4'
    } else if n == 5 {
        '5'
    } else if n == 6 {
        '6'
    } else if n == 7 {
        '7'
    } else if n == 8 {
        '8'
    } else if n == 9 {
        '9'
    } else if n == 10 {
        'a'
    } else if n == 11 {
        'b'
    } else if n == 12 {
        'c'
    } else if n == 13 {
        'd'
    } else if n == 14 {
        'e'
    } else {
        'f'
    }
}

/// How one character is written inside a JSON string: quote and backslash
/// get a backslash escape, control characters their short escape or a
/// `\u00..` escape, everything else stands as itself.
pub open spec fn escape_char(c: char) -> Seq<char> {
    if c == '"' {
        seq!['\\', '"']
    } else if c == '\\' {
        seq!['\\', '\\']
    } else if c == '\u{8}' {
        seq!['\\', 'b']
    } else if c == '\t' {
        seq!['\\', 't']
    } else if c == '\n' {
        seq!['\\', 'n']
    } else if c == '\u{c}' {
        seq!['\\', 'f']
    } else if c == '\r' {
        seq!['\\', 'r']
    } else if (c as u32) < 32 {
        seq!['\\', 'u', '0', '0', hex_digit_char((c as u32 / 16) as int), hex_digit_char(
            (c as u32 % 16) as int,
        )]
    } else {
        seq![c]
    }
}

/// A string written inside JSON quotes, character by character.
pub open spec fn escape_spec(s: Seq<char>) -> Seq<char>
    decreases s.len(),
{
    if s.len() == 0 {
        Seq::empty()
    } else {
        escape_char(s[0]) + escape_spec(s.drop_first())
    }
}

proof fn lemma_escape_snoc(s: Seq<char>, c: char)
    ensures
        escape_spec(s.push(c)) == escape_spec(s) + escape_char(c),
    decreases s.len(),
{
    if s.len() == 0 {
        assert(s.push(c)[0] == c);
        assert(s.push(c).drop_first() =~= Seq::<char>::empty());
        assert(escape_spec(s) + escape_char(c) =~= escape_char(c));
        assert(escape_char(c) + Seq::<char>::empty() =~= escape_char(c));
        assert(escape_spec(s.push(c)) == escape_char(c) + escape_spec(s.push(c).drop_first()));
        assert(escape_spec(s.push(c)) == escape_spec(s) + escape_char(c));
    } else {
        assert(s.push(c)[0] == s[0]);
        assert(s.push(c).drop_first() =~= s.drop_first().push(c));
        lemma_escape_snoc(s.drop_first(), c);
        assert(escape_char(s[0]) + (escape_spec(s.drop_first()) + escape_char(c)) =~= (escape_char(
            s[0],
        ) + escape_spec(s.drop_first())) + escape_char(c));
    }
}

fn hex_char(d: u32) -> (r: char)
    requires
        d < 16,
    ensures
        r == hex_digit_char(d as int),
{
    if d == 0 {
        '0'
    } else if d == 1 {
        '1'
    } else if d == 2 {
        '2'
    } else if d == 3 {
        '3'
    } else if d == 4 {
        '4'
    } else if d == 5 {
        '5'
    } else if d == 6 {
        '6'
    } else if d == 7 {
        '7'
    } else if d == 8 {
        '8'
    } else if d == 9 {
        '9'
    } else if d == 10 {
        'a'
    } else if d == 11 {
        'b'
    } else if d == 12 {
        'c'
    } else if d == 13 {
        'd'
    } else if d == 14 {
        'e'
    } else {
        'f'
    }
}

fn append_escaped_char(out: &mut String, c: char)
    ensures
        final(out)@ == old(out)@ + escape_char(c),
{
    let cv = c as u32;
    if c == '"' {
        push_char(out, '\\');
        push_char(out, '"');
        proof {
            assert(old(out)@.push('\\').push('"') =~= old(out)@ + escape_char(c));
        }
    } else if c == '\\' {
        push_char(out, '\\');
        push_char(out, '\\');
        proof {
            assert(old(out)@.push('\\').push('\\') =~= old(out)@ + escape_char(c));
        }
    } else if c == '\u{8}' {
        push_char(out, '\\');
        push_char(out, 'b');
        proof {
            assert(old(out)@.push('\\').push('b') =~= old(out)@ + escape_char(c));
        }
    } else if c == '\t' {
        push_char(out, '\\');
        push_char(out, 't');
        proof {
            assert(old(out)@.push('\\').push('t') =~= old(out)@ + escape_char(c));
        }
    } else if c == '\n' {
        push_char(out, '\\');
        push_char(out, 'n');
        proof {
            assert(old(out)@.push('\\').push('n') =~= old(out)@ + escape_char(c));
        }
    } else if c == '\u{c}' {
        push_char(out, '\\');
        push_char(out, 'f');
        proof {
            assert(old(out)@.push('\\').push('f') =~= old(out)@ + escape_char(c));
        }
    } else if c == '\r' {
        push_char(out, '\\');
        push_char(out, 'r');
        proof {
            assert(old(out)@.push('\\').push('r') =~= old(out)@ + escape_char(c));
        }
    } else if cv < 32 {
        push_char(out, '\\');
        push_char(out, 'u');
        push_char(out, '0');
        push_char(out, '0');
        push_char(out, hex_char(cv / 16));
        push_char(out, hex_char(cv % 16));
        proof {
            assert(old(out)@.push('\\').push('u').push('0').push('0').push(
                hex_digit_char((cv / 16) as int),
            ).push(hex_digit_char((cv % 16) as int)) =~= old(out)@ + escape_char(c));
        }
    } else {
        push_char(out, c);
        proof {
            assert(old(out)@.push(c) =~= old(out)@ + escape_char(c));
        }
    }
}

/// Escape a string for inclusion inside JSON quotes.
pub fn escape_json(s: &str) -> (r: String)
    ensures
        r@ == escape_spec(s@),
{
    let n: usize = s.unicode_len();
    let mut out = String::new();
    let mut i: usize = 0;
    while i < n
        invariant
            n == s@.len(),
            0 <= i <= n,
            out@ == escape_spec(s@.subrange(0, i as int)),
        decreases n - i,
    {
        let c = s.get_char(i);
        append_escaped_char(&mut out, c);
        proof {
            assert(s@.subrange(0, i as int).push(s@[i as int]) =~= s@.subrange(0, i + 1 as int));
            lemma_escape_snoc(s@.subrange(0, i as int), s@[i as int]);
        }
        i = i + 1;
    }
    proof {
        assert(s@.subrange(0, n as int) =~= s@);
    }
    out
}

/// The document for a shadowsocks outbound.
pub open spec fn ss_config_spec(
    server: Seq<char>,
    port: u16,
    method: Seq<char>,
    password: Seq<char>,
) -> Seq<char> {
    "{\"inbounds\":[{\"port\":1080,\"protocol\":\"socks\",\"settings\":{\"auth\":\"noauth\"}}],\"outbounds\":[{\"protocol\":\"shadowsocks\",\"settings\":{\"servers\":[{\"address\":\""@
        + escape_spec(server) + "\",\"method\":\""@ + escape_spec(method) + "\",\"password\":\""@
        + escape_spec(password) + "\",\"port\":"@ + dec_spec(port as nat) + "}]}}]}"@
}

/// The document for a vless outbound.
pub open spec fn vless_config_spec(
    server: Seq<char>,
    port: u16,
    uuid: Seq<char>,
    flow: Seq<char>,
    security: Seq<char>,
    sni: Seq<char>,
) -> Seq<char> {
    "{\"inbounds\":[{\"port\":1080,\"protocol\":\"socks\",\"settings\":{\"auth\":\"noauth\"}}],\"outbounds\":[{\"protocol\":\"vless\",\"settings\":{\"vnext\":[{\"address\":\""@
        + escape_spec(server) + "\",\"port\":"@ + dec_spec(port as nat)
        + ",\"users\":[{\"encryption\":\"none\",\"flow\":\""@ + escape_spec(flow) + "\",\"id\":\""@
        + escape_spec(uuid) + "\"}]}]},\"streamSettings\":{\"network\":\"tcp\",\"security\":\""@
        + escape_spec(security) + "\",\"tlsSettings\":{\"serverName\":\""@ + escape_spec(sni)
        + "\"}}}]}"@
}

/// The document for a vmess outbound.
pub open spec fn vmess_config_spec(
    address: Seq<char>,
    port: u16,
    id: Seq<char>,
    net: Seq<char>,
    security: Seq<char>,
) -> Seq<char> {
    "{\"inbounds\":[{\"port\":1080,\"protocol\":\"socks\",\"settings\":{\"auth\":\"noauth\"}}],\"outbounds\":[{\"protocol\":\"vmess\",\"settings\":{\"vnext\":[{\"address\":\""@
        + escape_spec(address) + "\",\"port\":"@ + dec_spec(port as nat)
        + ",\"users\":[{\"alterId\":0,\"id\":\""@ + escape_spec(id)
        + "\"}]}]},\"streamSettings\":{\"network\":\""@ + escape_spec(net) + "\",\"security\":\""@
        + escape_spec(security) + "\"}}]}"@
}

pub fn build_ss_config(server: &str, port: u16, method: &str, password: &str) -> (r: String)
    ensures
        r@ == ss_config_spec(server@, port, method@, password@),
{
    let mut out = String::from_str(
        "{\"inbounds\":[{\"port\":1080,\"protocol\":\"socks\",\"settings\":{\"auth\":\"noauth\"}}],\"outbounds\":[{\"protocol\":\"shadowsocks\",\"settings\":{\"servers\":[{\"address\":\"",
    );
    let e_server = escape_json(server);
    out.append(e_server.as_str());
    out.append("\",\"method\":\"");
    let e_method = escape_json(method);
    out.append(e_method.as_str());
    out.append("\",\"password\":\"");
    let e_password = escape_json(password);
    out.append(e_password.as_str());
    out.append("\",\"port\":");
    let p = u64_to_string(port as u64);
    out.append(p.as_str());
    out.append("}]}}]}");
    out
}

pub fn build_vless_config(
    server: &str,
    port: u16,
    uuid: &str,
    flow: &str,
    security: &str,
    sni: &str,
) -> (r: String)
    ensures
        r@ == vless_config_spec(server@, port, uuid@, flow@, security@, sni@),
{
    let mut out = String::from_str(
        "{\"inbounds\":[{\"port\":1080,\"protocol\":\"socks\",\"settings\":{\"auth\":\"noauth\"}}],\"outbounds\":[{\"protocol\":\"vless\",\"settings\":{\"vnext\":[{\"address\":\"",
    );
    let e_server = escape_json(server);
    out.append(e_server.as_str());
    out.append("\",\"port\":");
    let p = u64_to_string(port as u64);
    out.append(p.as_str());
    out.append(",\"users\":[{\"encryption\":\"none\",\"flow\":\"");
    let e_flow = escape_json(flow);
    out.append(e_flow.as_str());
    out.append("\",\"id\":\"");
    let e_uuid = escape_json(uuid);
    out.append(e_uuid.as_str());
    out.append("\"}]}]},\"streamSettings\":{\"network\":\"tcp\",\"security\":\"");
    let e_security = escape_json(security);
    out.append(e_security.as_str());
    out.append("\",\"tlsSettings\":{\"serverName\":\"");
    let e_sni = escape_json(sni);
    out.append(e_sni.as_str());
    out.append("\"}}}]}");
    out
}

pub fn build_vmess_config(
    address: &str,
    port: u16,
    id: &str,
    net: &str,
    security: &str,
) -> (r: String)
    ensures
        r@ == vmess_config_spec(address@, port, id@, net@, security@),
{
    let mut out = String::from_str(
        "{\"inbounds\":[{\"port\":1080,\"protocol\":\"socks\",\"settings\":{\"auth\":\"noauth\"}}],\"outbounds\":[{\"protocol\":\"vmess\",\"settings\":{\"vnext\":[{\"address\":\"",
    );
    let e_address = escape_json(address);
    out.append(e_address.as_str());
    out.append("\",\"port\":");
    let p = u64_to_string(port as u64);
    out.append(p.as_str());
    out.append(",\"users\":[{\"alterId\":0,\"id\":\"");
    let e_id = escape_json(id);
    out.append(e_id.as_str());
    out.append("\"}]}]},\"streamSettings\":{\"network\":\"");
    let e_net = escape_json(net);
    out.append(e_net.as_str());
    out.append("\",\"security\":\"");
    let e_security = escape_json(security);
    out.append(e_security.as_str());
    out.append("\"}}]}");
    out
}

/// Every built document begins with `{` and ends with `}`.
pub proof fn lemma_ss_config_shape(
    server: Seq<char>,
    port: u16,
    method: Seq<char>,
    password: Seq<char>,
)
    ensures
        ss_config_spec(server, port, method, password).len() > 0,
        ss_config_spec(server, port, method, password)[0] == '{',
        ss_config_spec(server, port, method, password).last() == '}',
{
    reveal_strlit(
        "{\"inbounds\":[{\"port\":1080,\"protocol\":\"socks\",\"settings\":{\"auth\":\"noauth\"}}],\"outbounds\":[{\"protocol\":\"shadowsocks\",\"settings\":{\"servers\":[{\"address\":\"",
    );
    reveal_strlit("}]}}]}");
}

pub proof fn lemma_vless_config_shape(
    server: Seq<char>,
    port: u16,
    uuid: Seq<char>,
    flow: Seq<char>,
    security: Seq<char>,
    sni: Seq<char>,
)
    ensures
        vless_config_spec(server, port, uuid, flow, security, sni).len() > 0,
        vless_config_spec(server, port, uuid, flow, security, sni)[0] == '{',
        vless_config_spec(server, port, uuid, flow, security, sni).last() == '}',
{
    reveal_strlit(
        "{\"inbounds\":[{\"port\":1080,\"protocol\":\"socks\",\"settings\":{\"auth\":\"noauth\"}}],\"outbounds\":[{\"protocol\":\"vless\",\"settings\":{\"vnext\":[{\"address\":\"",
    );
    reveal_strlit("\"}}}]}");
}

pub proof fn lemma_vmess_config_shape(
    address: Seq<char>,
    port: u16,
    id: Seq<char>,
    net: Seq<char>,
    security: Seq<char>,
)
    ensures
        vmess_config_spec(address, port, id, net, security).len() > 0,
        vmess_config_spec(address, port, id, net, security)[0] == '{',
        vmess_config_spec(address, port, id, net, security).last() == '}',
{
    reveal_strlit(
        "{\"inbounds\":[{\"port\":1080,\"protocol\":\"socks\",\"settings\":{\"auth\":\"noauth\"}}],\"outbounds\":[{\"protocol\":\"vmess\",\"settings\":{\"vnext\":[{\"address\":\"",
    );
    reveal_strlit("\"}}]}");
}

} // verus!
