use v2link::display::extract_display;

#[test]
fn ss_display_with_fragment() {
    // base64 payload is "aes-256-gcm:pass"
    let (name, server) = extract_display("ss://YWVzLTI1Ni1nY206cGFzcw==@example.com:8443#MyNode");
    assert_eq!(name, "MyNode");
    assert_eq!(server, "example.com");
}

#[test]
fn ss_display_without_fragment() {
    let (name, server) = extract_display("ss://YWVzLTI1Ni1nY206cGFzcw==@example.com:8443");
    assert_eq!(name, "Shadowsocks Config");
    assert_eq!(server, "example.com");
}

#[test]
fn ss_display_percent_encoded_fragment() {
    let (name, server) =
        extract_display("ss://YWVzLTI1Ni1nY206cGFzcw==@example.com:8443#My%20Node");
    assert_eq!(name, "My Node");
    assert_eq!(server, "example.com");
}

#[test]
fn ss_display_missing_at_falls_back() {
    let (name, server) = extract_display("ss://nobodyhome#Named");
    assert_eq!(name, "Custom Config");
    assert_eq!(server, "Unknown");
}

#[test]
fn vless_display() {
    let (name, server) = extract_display(
        "vless://11111111-1111-1111-1111-111111111111@host:443?flow=xtls-rprx-vision&sni=example.org#Node1",
    );
    assert_eq!(name, "Node1");
    assert_eq!(server, "host");
}

#[test]
fn vless_display_default_name() {
    let (name, server) = extract_display("vless://u@h:443");
    assert_eq!(name, "VLESS Config");
    assert_eq!(server, "h");
}

#[test]
fn trojan_display() {
    let (name, server) = extract_display("trojan://pw@srv.example:443?security=tls#Troj");
    assert_eq!(name, "Troj");
    assert_eq!(server, "srv.example");
}

#[test]
fn vmess_display_with_name() {
    let payload = base64::encode("{\"ps\":\"VM\",\"add\":\"vm.example\"}");
    let link = format!("vmess://{}", payload);
    let (name, server) = extract_display(&link);
    assert_eq!(name, "VM");
    assert_eq!(server, "vm.example");
}

#[test]
fn vmess_display_defaults() {
    let payload = base64::encode("{\"add\":\"h\"}");
    let link = format!("vmess://{}", payload);
    let (name, server) = extract_display(&link);
    assert_eq!(name, "VMess Config");
    assert_eq!(server, "h");
}

#[test]
fn vmess_display_bad_base64_falls_back() {
    let (name, server) = extract_display("vmess://!!!not-base64!!!");
    assert_eq!(name, "Custom Config");
    assert_eq!(server, "Unknown");
}

#[test]
fn vmess_display_unparsed_payload_falls_back() {
    let payload = base64::encode("this is not json");
    let link = format!("vmess://{}", payload);
    let (name, server) = extract_display(&link);
    assert_eq!(name, "Custom Config");
    assert_eq!(server, "Unknown");
}

#[test]
fn json_display_full_path() {
    let doc = "{\"ps\":\"Mine\",\"outbounds\":[{\"settings\":{\"vnext\":[{\"address\":\"j.example\"}]}}]}";
    let (name, server) = extract_display(doc);
    assert_eq!(name, "Mine");
    assert_eq!(server, "j.example");
}

#[test]
fn json_display_name_field() {
    let (name, server) = extract_display("{\"name\":\"Second\"}");
    assert_eq!(name, "Second");
    assert_eq!(server, "Unknown");
}

#[test]
fn json_display_unparsed_keeps_defaults() {
    let (name, server) = extract_display("{oops, not json");
    assert_eq!(name, "JSON Config");
    assert_eq!(server, "Unknown");
}

#[test]
fn unknown_display_falls_back() {
    let (name, server) = extract_display("not-a-known-scheme");
    assert_eq!(name, "Custom Config");
    assert_eq!(server, "Unknown");
}

#[test]
fn empty_display_falls_back() {
    let (name, server) = extract_display("");
    assert_eq!(name, "Custom Config");
    assert_eq!(server, "Unknown");
}

#[test]
fn display_trims_whitespace() {
    let (name, server) =
        extract_display("  ss://YWVzLTI1Ni1nY206cGFzcw==@example.com:8443#MyNode \n");
    assert_eq!(name, "MyNode");
    assert_eq!(server, "example.com");
}

#[test]
fn display_splits_fragment_at_last_hash() {
    let (name, server) = extract_display("ss://YWVzLTI1Ni1nY206cGFzcw==@example.com:8443#a#b");
    assert_eq!(name, "b");
    assert_eq!(server, "example.com");
}

#[test]
fn fragment_decode_failure_gives_empty_name() {
    // %FF is not valid UTF-8 after percent decoding
    let (name, server) = extract_display("ss://YWVzLTI1Ni1nY206cGFzcw==@example.com:8443#%FF");
    assert_eq!(name, "");
    assert_eq!(server, "example.com");
}

#[test]
fn json_display_non_string_ps_shadows_name() {
    // a present but non-string `ps` wins over `name` and falls to the default
    let (name, server) = extract_display("{\"ps\":5,\"name\":\"X\"}");
    assert_eq!(name, "JSON Config");
    assert_eq!(server, "Unknown");
}
