use mihomo_tui::api::client::{log_stream_path, ws_url, MihomoClient};

#[test]
fn ws_url_forms() {
    assert_eq!(ws_url("http://127.0.0.1:9090/", "/traffic", ""), "ws://127.0.0.1:9090/traffic");
    assert_eq!(ws_url("https://h:1", "/logs", "s3"), "wss://h:1/logs?token=s3");
    let path = log_stream_path(Some("info"));
    assert_eq!(ws_url("http://h:9090", &path, "abc"), "ws://h:9090/logs?level=info&token=abc");
    assert_eq!(ws_url("http://h:9090", &path, ""), "ws://h:9090/logs?level=info");
}

#[test]
fn client_paths_are_encoded() {
    let c = MihomoClient::new("http://127.0.0.1:9090//", "tok");
    assert_eq!(c.url("/proxies"), "http://127.0.0.1:9090/proxies");
    assert_eq!(c.bearer(), Some("tok"));
    assert_eq!(MihomoClient::new("http://x", "").bearer(), None);
    assert_eq!(MihomoClient::proxy_path("🇭🇰 HK 01"), "/proxies/%F0%9F%87%AD%F0%9F%87%B0%20HK%2001");
    assert_eq!(MihomoClient::proxy_delay_path("a/b"), "/proxies/a%2Fb/delay");
    assert_eq!(MihomoClient::connection_path("x y"), "/connections/x y");
    assert_eq!(MihomoClient::rule_provider_path("geo-ip_v.1~"), "/providers/rules/geo-ip_v.1~");
    assert_eq!(c.ws_base_url(), "ws://127.0.0.1:9090");
    assert_eq!(MihomoClient::api_error_message("404 Not Found", "nope"), "API error (HTTP 404 Not Found): nope");
    assert_eq!(log_stream_path(Some("info")), "/logs?level=info");
    assert_eq!(log_stream_path(None), "/logs");
}
