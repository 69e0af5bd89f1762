use mihomo_tui::error::AppError;
use mihomo_tui::runtime::subscription::{
    decode_base64, default_true, generate_id, id_from_hash, parse_subscription, parse_uri_list,
    parse_yaml_proxies, SubscriptionManager, SubscriptionStore, Timestamp,
};

#[test]
fn generate_id_deterministic() {
    let id1 = generate_id("https://example.com/sub");
    let id2 = generate_id("https://example.com/sub");
    assert_eq!(id1, id2);
}

#[test]
fn generate_id_different_urls() {
    let id1 = generate_id("https://example.com/a");
    let id2 = generate_id("https://example.com/b");
    assert_ne!(id1, id2);
}

#[test]
fn parse_yaml_proxies_basic() {
    let yaml = r#"
proxies:
  - name: "node-1"
    type: ss
    server: 1.2.3.4
    port: 443
    cipher: aes-256-gcm
    password: "test"
  - name: "node-2"
    type: vmess
    server: 5.6.7.8
    port: 8080
    uuid: abcd
    alterId: 0
    cipher: auto
"#;
    let nodes = parse_subscription(yaml).unwrap();
    assert_eq!(nodes.len(), 2);
    assert_eq!(nodes[0].name, "node-1");
    assert_eq!(nodes[0].proxy_type, "ss");
    assert_eq!(nodes[0].server, "1.2.3.4");
    assert_eq!(nodes[0].port, 443);
    assert_eq!(nodes[1].name, "node-2");
}

#[test]
fn decode_base64_basic() {
    let encoded = "SGVsbG8gV29ybGQ=";
    let decoded = decode_base64(encoded).unwrap();
    assert_eq!(decoded, "Hello World");
}

#[test]
fn decode_base64_no_padding() {
    let encoded = "SGVsbG8gV29ybGQ";
    let decoded = decode_base64(encoded).unwrap();
    assert_eq!(decoded, "Hello World");
}

#[test]
fn decode_base64_ignores_whitespace() {
    assert_eq!(decode_base64("SGVs bG8g\nV29y bGQ=").unwrap(), "Hello World");
}

#[test]
fn decode_base64_rejects_invalid_utf8() {
    assert_eq!(
        decode_base64("/w==").unwrap_err(),
        AppError::Other("base64 result is not valid UTF-8".to_owned())
    );
}

#[test]
fn id_is_sixteen_hex_digits() {
    assert_eq!(id_from_hash(0), "0000000000000000");
    assert_eq!(id_from_hash(0xabc), "0000000000000abc");
    assert_eq!(id_from_hash(u64::MAX), "ffffffffffffffff");
    let id = generate_id("https://example.com/sub");
    assert_eq!(id.len(), 16);
    assert!(id.chars().all(|c| c.is_ascii_hexdigit() && !c.is_ascii_uppercase()));
}

#[test]
fn yaml_defaults_and_port_truncation() {
    let nodes = parse_yaml_proxies("proxies:\n  - port: 65537\n  - name: x\n    port: -1\n").unwrap();
    assert_eq!(nodes.len(), 2);
    assert_eq!(nodes[0].name, "unknown");
    assert_eq!(nodes[0].proxy_type, "unknown");
    assert_eq!(nodes[0].server, "");
    assert_eq!(nodes[0].port, 1);
    assert_eq!(nodes[1].port, 0);
    assert!(nodes[0].raw.contains("port: 65537"));
}

#[test]
fn yaml_errors() {
    assert_eq!(
        parse_yaml_proxies("rules: []").unwrap_err(),
        AppError::Other("no 'proxies' key found in YAML".to_owned())
    );
    assert_eq!(
        parse_yaml_proxies("a: [").unwrap_err(),
        AppError::Other("YAML parse failed".to_owned())
    );
}

#[test]
fn uri_list_lines() {
    let nodes = parse_uri_list("ss://abc\r\n  vmess://def  \n\nhttp://skip\ntrojan://t\nvless://v").unwrap();
    let kinds: Vec<&str> = nodes.iter().map(|n| n.proxy_type.as_str()).collect();
    assert_eq!(kinds, vec!["ss", "vmess", "trojan", "vless"]);
    assert_eq!(nodes[0].name, "ss-node");
    assert_eq!(nodes[0].raw, "ss://abc");
    assert_eq!(nodes[1].raw, "vmess://def");
    assert_eq!(nodes[1].port, 0);
}

#[test]
fn base64_uri_subscription() {
    // "ss://a\nvless://b"
    let nodes = parse_subscription("c3M6Ly9hCnZsZXNzOi8vYg==").unwrap();
    assert_eq!(nodes.len(), 2);
    assert_eq!(nodes[1].raw, "vless://b");
}

#[test]
fn unparseable_subscription() {
    assert!(parse_subscription("   ").unwrap().is_empty());
    assert_eq!(
        parse_subscription(" /w== ").unwrap_err(),
        AppError::Other("unable to parse subscription: not valid YAML or base64-encoded content".to_owned())
    );
}

#[test]
fn manager_crud() {
    assert!(default_true());
    let mut m = SubscriptionManager::new("/tmp/subs.yaml", SubscriptionStore::new());
    let id = m.add("one".to_owned(), "https://a".to_owned(), Some(60)).unwrap();
    assert_eq!(id, generate_id("https://a"));
    assert_eq!(
        m.add("dup".to_owned(), "https://a".to_owned(), None).unwrap_err(),
        AppError::Other("subscription with this URL already exists".to_owned())
    );
    let s = m.get(&id).unwrap();
    assert_eq!(s.name, "one");
    assert!(s.enabled);
    assert!(s.last_update.is_none());

    m.update(&id, Some("renamed".to_owned()), None, Some(None)).unwrap();
    assert_eq!(m.get(&id).unwrap().name, "renamed");
    assert_eq!(m.get(&id).unwrap().interval, None);

    m.set_enabled(&id, false).unwrap();
    assert!(m.enabled_ids().is_empty());
    m.set_enabled(&id, true).unwrap();
    assert_eq!(m.enabled_ids(), vec![id.clone()]);

    m.mark_updated(&id, Timestamp { secs: 10, nanos: 5 }).unwrap();
    assert_eq!(m.get(&id).unwrap().last_update, Some(Timestamp { secs: 10, nanos: 5 }));
    assert_eq!(m.fetch_url(&id).unwrap(), "https://a");

    m.remove(&id).unwrap();
    assert!(m.get(&id).is_none());
    assert_eq!(
        m.remove(&id).unwrap_err(),
        AppError::Other(format!("subscription not found: {id}"))
    );
    assert_eq!(m.set_enabled("nope", true).unwrap_err(), AppError::Other("subscription not found".to_owned()));
    assert_eq!(m.list().len(), 0);
}

#[test]
fn base64_round_trip_examples() {
    // "héllo ✓" in standard base64, with and without padding and with whitespace.
    assert_eq!(decode_base64("aMOpbGxvIOKckw==").unwrap(), "héllo ✓");
    assert_eq!(decode_base64("aMOp bGxv\nIOKckw").unwrap(), "héllo ✓");
    assert_eq!(decode_base64("YQ==").unwrap(), "a");
    assert_eq!(decode_base64("YWI=").unwrap(), "ab");
    assert_eq!(decode_base64("YWJj").unwrap(), "abc");
}
