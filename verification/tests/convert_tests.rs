use v2link::convert::convert_to_runtime_config;
use v2link::display::extract_display;
use v2link::ConvertError;

const SS_LINK: &str = "ss://YWVzLTI1Ni1nY206cGFzcw==@example.com:8443#MyNode";

#[test]
fn ss_convert_exact_document() {
    let doc = convert_to_runtime_config(SS_LINK).unwrap();
    let expected = "{\"inbounds\":[{\"port\":1080,\"protocol\":\"socks\",\"settings\":{\"auth\":\"noauth\"}}],\"outbounds\":[{\"protocol\":\"shadowsocks\",\"settings\":{\"servers\":[{\"address\":\"example.com\",\"method\":\"aes-256-gcm\",\"password\":\"pass\",\"port\":8443}]}}]}";
    assert_eq!(doc, expected);
}

#[test]
fn ss_convert_fields() {
    let doc = convert_to_runtime_config(SS_LINK).unwrap();
    let v: serde_json::Value = serde_json::from_str(&doc).unwrap();
    let outbound = &v["outbounds"][0];
    assert_eq!(outbound["protocol"].as_str().unwrap(), "shadowsocks");
    let server = &outbound["settings"]["servers"][0];
    assert_eq!(server["address"].as_str().unwrap(), "example.com");
    assert_eq!(server["port"].as_u64().unwrap(), 8443);
    assert_eq!(server["method"].as_str().unwrap(), "aes-256-gcm");
    assert_eq!(server["password"].as_str().unwrap(), "pass");
    let inbound = &v["inbounds"][0];
    assert_eq!(inbound["port"].as_u64().unwrap(), 1080);
    assert_eq!(inbound["protocol"].as_str().unwrap(), "socks");
    assert_eq!(inbound["settings"]["auth"].as_str().unwrap(), "noauth");
}

#[test]
fn vless_convert_fields() {
    let doc = convert_to_runtime_config(
        "vless://11111111-1111-1111-1111-111111111111@host:443?flow=xtls-rprx-vision&sni=example.org#Node1",
    )
    .unwrap();
    let v: serde_json::Value = serde_json::from_str(&doc).unwrap();
    let outbound = &v["outbounds"][0];
    assert_eq!(outbound["protocol"].as_str().unwrap(), "vless");
    let stream = &outbound["streamSettings"];
    assert_eq!(stream["tlsSettings"]["serverName"].as_str().unwrap(), "example.org");
    assert_eq!(stream["security"].as_str().unwrap(), "reality");
    assert_eq!(stream["network"].as_str().unwrap(), "tcp");
    let user = &outbound["settings"]["vnext"][0]["users"][0];
    assert_eq!(user["id"].as_str().unwrap(), "11111111-1111-1111-1111-111111111111");
    assert_eq!(user["flow"].as_str().unwrap(), "xtls-rprx-vision");
    assert_eq!(user["encryption"].as_str().unwrap(), "none");
    assert_eq!(outbound["settings"]["vnext"][0]["port"].as_u64().unwrap(), 443);
}

#[test]
fn vmess_convert_fields() {
    let payload = base64::encode("{\"add\":\"h\",\"port\":80,\"id\":\"u\",\"net\":\"ws\",\"tls\":\"tls\"}");
    let link = format!("vmess://{}", payload);
    let doc = convert_to_runtime_config(&link).unwrap();
    let v: serde_json::Value = serde_json::from_str(&doc).unwrap();
    let outbound = &v["outbounds"][0];
    assert_eq!(outbound["protocol"].as_str().unwrap(), "vmess");
    let vnext = &outbound["settings"]["vnext"][0];
    assert_eq!(vnext["address"].as_str().unwrap(), "h");
    assert_eq!(vnext["port"].as_u64().unwrap(), 80);
    assert_eq!(vnext["users"][0]["id"].as_str().unwrap(), "u");
    assert_eq!(vnext["users"][0]["alterId"].as_u64().unwrap(), 0);
    assert_eq!(outbound["streamSettings"]["network"].as_str().unwrap(), "ws");
    assert_eq!(outbound["streamSettings"]["security"].as_str().unwrap(), "tls");
}

#[test]
fn vmess_convert_defaults() {
    let payload = base64::encode("{}");
    let link = format!("vmess://{}", payload);
    let doc = convert_to_runtime_config(&link).unwrap();
    let v: serde_json::Value = serde_json::from_str(&doc).unwrap();
    let outbound = &v["outbounds"][0];
    let vnext = &outbound["settings"]["vnext"][0];
    assert_eq!(vnext["address"].as_str().unwrap(), "");
    assert_eq!(vnext["port"].as_u64().unwrap(), 443);
    assert_eq!(vnext["users"][0]["id"].as_str().unwrap(), "");
    assert_eq!(outbound["streamSettings"]["network"].as_str().unwrap(), "tcp");
    assert_eq!(outbound["streamSettings"]["security"].as_str().unwrap(), "none");
}

#[test]
fn vmess_port_wraps_modulo() {
    let payload = base64::encode("{\"add\":\"h\",\"port\":65616}");
    let link = format!("vmess://{}", payload);
    let doc = convert_to_runtime_config(&link).unwrap();
    let v: serde_json::Value = serde_json::from_str(&doc).unwrap();
    assert_eq!(v["outbounds"][0]["settings"]["vnext"][0]["port"].as_u64().unwrap(), 80);
}

#[test]
fn unknown_convert_fails() {
    let r = convert_to_runtime_config("not-a-known-scheme");
    assert!(matches!(r, Err(ConvertError::UnsupportedFormat)));
    assert_eq!(ConvertError::UnsupportedFormat.message(), "Unsupported config format");
}

#[test]
fn trojan_convert_fails() {
    let r = convert_to_runtime_config("trojan://pw@srv.example:443#Troj");
    assert!(matches!(r, Err(ConvertError::UnsupportedFormat)));
}

#[test]
fn json_passes_through() {
    let doc = "{\"outbounds\":[{\"protocol\":\"freedom\"}]}";
    assert_eq!(convert_to_runtime_config(doc).unwrap(), doc);
}

#[test]
fn json_passthrough_trims() {
    let doc = "  {\"a\":1} \n";
    assert_eq!(convert_to_runtime_config(doc).unwrap(), "{\"a\":1}");
}

#[test]
fn convert_is_idempotent() {
    let once = convert_to_runtime_config(SS_LINK).unwrap();
    let twice = convert_to_runtime_config(&once).unwrap();
    assert_eq!(once, twice);

    let payload = base64::encode("{\"add\":\"h\",\"port\":80,\"id\":\"u\"}");
    let link = format!("vmess://{}", payload);
    let once = convert_to_runtime_config(&link).unwrap();
    let twice = convert_to_runtime_config(&once).unwrap();
    assert_eq!(once, twice);
}

#[test]
fn converted_document_loses_link_shape() {
    // Conversion is one-directional: the produced document no longer holds
    // the fragment name, so its own display falls back to the JSON defaults.
    let doc = convert_to_runtime_config(
        "vless://11111111-1111-1111-1111-111111111111@host:443?flow=xtls-rprx-vision#Node1",
    )
    .unwrap();
    let (name, server) = extract_display(&doc);
    assert_eq!(name, "JSON Config");
    assert_eq!(server, "host");
}

#[test]
fn ss_password_keeps_colons() {
    let cred = base64::encode("aes-256-gcm:pa:ss");
    let link = format!("ss://{}@example.com:8443", cred);
    let doc = convert_to_runtime_config(&link).unwrap();
    let v: serde_json::Value = serde_json::from_str(&doc).unwrap();
    let server = &v["outbounds"][0]["settings"]["servers"][0];
    assert_eq!(server["method"].as_str().unwrap(), "aes-256-gcm");
    assert_eq!(server["password"].as_str().unwrap(), "pa:ss");
}

#[test]
fn ss_unparsable_port_defaults() {
    let cred = base64::encode("aes-256-gcm:pass");
    let link = format!("ss://{}@example.com:abc", cred);
    let doc = convert_to_runtime_config(&link).unwrap();
    let v: serde_json::Value = serde_json::from_str(&doc).unwrap();
    assert_eq!(v["outbounds"][0]["settings"]["servers"][0]["port"].as_u64().unwrap(), 443);
}

#[test]
fn ss_missing_port_fails() {
    let cred = base64::encode("aes-256-gcm:pass");
    let link = format!("ss://{}@example.com", cred);
    assert!(convert_to_runtime_config(&link).is_err());
}

#[test]
fn ss_missing_at_fails() {
    assert!(convert_to_runtime_config("ss://nobodyhome").is_err());
}

#[test]
fn ss_bad_base64_fails() {
    assert!(convert_to_runtime_config("ss://!!!@example.com:8443").is_err());
}

#[test]
fn ss_credential_without_colon_fails() {
    let cred = base64::encode("aes-256-gcm-no-password");
    let link = format!("ss://{}@example.com:8443", cred);
    assert!(convert_to_runtime_config(&link).is_err());
}

#[test]
fn vless_missing_at_fails() {
    assert!(convert_to_runtime_config("vless://onlyhost:443").is_err());
}

#[test]
fn vless_query_later_value_wins() {
    let doc = convert_to_runtime_config("vless://u@h:443?sni=a.com&sni=b.com").unwrap();
    let v: serde_json::Value = serde_json::from_str(&doc).unwrap();
    let stream = &v["outbounds"][0]["streamSettings"];
    assert_eq!(stream["tlsSettings"]["serverName"].as_str().unwrap(), "b.com");
}

#[test]
fn vless_malformed_pairs_ignored() {
    let doc = convert_to_runtime_config("vless://u@h:443?x&sni=c.com&flow&a=b=c").unwrap();
    let v: serde_json::Value = serde_json::from_str(&doc).unwrap();
    let stream = &v["outbounds"][0]["streamSettings"];
    assert_eq!(stream["tlsSettings"]["serverName"].as_str().unwrap(), "c.com");
    let user = &v["outbounds"][0]["settings"]["vnext"][0]["users"][0];
    assert_eq!(user["flow"].as_str().unwrap(), "xtls-rprx-vision");
}

#[test]
fn escaped_password_survives_serialization() {
    let cred = base64::encode("aes-256-gcm:pa\"ss\\word");
    let link = format!("ss://{}@example.com:8443", cred);
    let doc = convert_to_runtime_config(&link).unwrap();
    let v: serde_json::Value = serde_json::from_str(&doc).unwrap();
    let server = &v["outbounds"][0]["settings"]["servers"][0];
    assert_eq!(server["password"].as_str().unwrap(), "pa\"ss\\word");
}

#[test]
fn empty_input_fails() {
    assert!(convert_to_runtime_config("").is_err());
}
