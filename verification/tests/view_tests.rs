use mihomo_tui::api::types::{
    ClashMode, ConfigResponse, ConnectionItem, ConnectionMetadata, DnsConfig, LogEntry, ProxyItem, ProxyProviderItem,
    ProxyType, RuleItem, RuleProviderItem, TunConfig,
};
use mihomo_tui::app::App;
use mihomo_tui::config::AppConfig;
use mihomo_tui::input::Rect;
use mihomo_tui::runtime::kernel::{KernelManager, Platform};
use mihomo_tui::view::components::{centered_popup, search_bar_text};
use mihomo_tui::view::config_summary;
use mihomo_tui::view::connections::connection_headers;
use mihomo_tui::view::providers::ProviderTab;
use mihomo_tui::view::proxies::NodeClass;
use mihomo_tui::view::theme::{latency_class, level_class, LatencyClass, LevelClass};
use mihomo_tui::view::visible_window;
use mihomo_tui::panel::{ConnectionInfo, ExternalResource, ListenerPorts, ProxyGroup, ProxyNode as PanelNode, ResourceKind, TrafficStats};
use mihomo_tui::view::overview::{
    connection_details, connection_line, group_line, panel_level_class, port_display, ports_lines, proxy_lines,
    resource_details, resource_line, status_class, traffic_lines, PanelLevelClass, StatusClass,
};

fn fresh_app() -> App {
    let cfg = AppConfig::default_in("/c", "/m");
    App::new(cfg, KernelManager::new("/k", Platform::current("linux", "x86_64")))
}

fn conn_item(host: &str, meta_host: &str, ip: &str, port: &str) -> ConnectionItem {
    ConnectionItem {
        id: "1".into(),
        metadata: ConnectionMetadata {
            network: "tcp".into(),
            conn_type: "HTTP".into(),
            source_ip: String::new(),
            destination_ip: ip.into(),
            source_port: String::new(),
            destination_port: port.into(),
            host: meta_host.into(),
            dns_mode: String::new(),
            process: None,
            process_path: None,
            uid: None,
        },
        upload: 2048,
        download: 1024,
        start: "2024-01-01T00:00:00Z".into(),
        chains: vec!["Proxy".into(), "HK".into()],
        rule: "MATCH".into(),
        rule_payload: String::new(),
        conn_type: "HTTP".into(),
        host: host.into(),
        process: None,
        process_path: None,
        dl_speed: 0,
        ul_speed: 0,
    }
}

fn running_config() -> ConfigResponse {
    ConfigResponse {
        port: 7891,
        socks_port: 7892,
        mixed_port: 0,
        redir_port: 0,
        tproxy_port: 0,
        mitm_port: None,
        allow_lan: true,
        bind_address: String::new(),
        log_level: "info".into(),
        ipv6: false,
        mode: ClashMode::Global,
        unified_delay: false,
        tun: TunConfig::default(),
        sniffer: None,
        dns: None,
        geo_x_url: None,
        external_controller: "127.0.0.1:9090".into(),
        external_ui: None,
        secret: String::new(),
        interface_name: None,
    }
}

fn rule(t: &str, payload: &str, proxy: &str, size: Option<i64>) -> RuleItem {
    RuleItem { rule_type: t.into(), payload: payload.into(), proxy: proxy.into(), size }
}

fn log(level: &str, payload: &str) -> LogEntry {
    LogEntry { log_type: level.into(), payload: payload.into() }
}

#[test]
fn latency_classes() {
    assert_eq!(latency_class(0), LatencyClass::Untested);
    assert_eq!(latency_class(1), LatencyClass::Fast);
    assert_eq!(latency_class(199), LatencyClass::Fast);
    assert_eq!(latency_class(200), LatencyClass::Medium);
    assert_eq!(latency_class(499), LatencyClass::Medium);
    assert_eq!(latency_class(500), LatencyClass::Slow);
}

#[test]
fn level_classes_ignore_case() {
    assert_eq!(level_class("DEBUG"), LevelClass::Debug);
    assert_eq!(level_class("info"), LevelClass::Info);
    assert_eq!(level_class("Warning"), LevelClass::Warning);
    assert_eq!(level_class("error"), LevelClass::Error);
    assert_eq!(level_class("trace"), LevelClass::Other);
}

#[test]
fn scroll_window_stays_on_the_last_page() {
    assert_eq!(visible_window(10, 4, 0), (0, 4));
    assert_eq!(visible_window(10, 4, 8), (6, 10));
    assert_eq!(visible_window(3, 4, 2), (0, 3));
    assert_eq!(visible_window(0, 4, 2), (0, 0));
}

#[test]
fn connection_headers_mark_the_sorted_column() {
    let h = connection_headers(0, false);
    assert_eq!(h[0], "\u{25b2}Host");
    assert_eq!(h[1], "Net");
    let h = connection_headers(42, true);
    assert_eq!(h[7], "\u{25bc}Time");
    assert_eq!(h[0], "Host");
}

#[test]
fn connections_table_rows() {
    let mut a = fresh_app();
    a.connections.connections = vec![
        conn_item("", "example.com", "1.2.3.4", "443"),
        conn_item("", "", "1.2.3.4", "80"),
        conn_item("direct.host", "ignored", "1.2.3.4", "80"),
    ];
    a.connections.download_total = 1024;
    a.connections.selected = 1;
    let t = a.connections_table();
    assert_eq!(t.title, "  Connections (3) \u{2193}1.00 KB \u{2191}0 B  ");
    assert_eq!(t.rows.len(), 3);
    assert_eq!(t.rows[0].host, format!("{:<20}", "example.com:443"));
    assert_eq!(t.rows[1].host, format!("{:<20}", "1.2.3.4:80"));
    assert_eq!(t.rows[2].host, format!("{:<20}", "direct.host"));
    assert_eq!(t.rows[0].chain, format!("{:<10}", "Proxy\u{2192}HK"));
    assert_eq!(t.rows[0].rule, format!("{:<12}", "MATCH"));
    assert_eq!(t.rows[0].download, "1.00 KB");
    assert_eq!(t.rows[0].upload, "2.00 KB");
    assert_eq!(t.rows[0].time, "2024-01-");
    assert!(!t.rows[0].selected);
    assert!(t.rows[1].selected);
}

#[test]
fn rules_table_filters_and_scrolls() {
    let mut a = fresh_app();
    a.rules.rules = vec![
        rule("DOMAIN", "google.com", "Proxy", Some(1024)),
        rule("IP-CIDR", "10.0.0.0/8", "DIRECT", None),
        rule("DOMAIN-SUFFIX", "cn", "DIRECT", None),
    ];
    a.search.query = "direct".into();
    let t = a.rules_table(10);
    assert_eq!(t.title, " Rules (2) ");
    assert_eq!(t.rows.len(), 2);
    assert_eq!(t.rows[0].rule_type, format!("{:<16}", "IP-CIDR"));
    assert_eq!(t.rows[0].size, "\u{2014}");
    a.search.query = String::new();
    a.rules.scroll_offset = 5;
    a.rules.selected = 2;
    let t = a.rules_table(2);
    assert_eq!(t.title, " Rules (3) ");
    assert_eq!(t.rows.len(), 2);
    assert_eq!(t.rows[0].payload, pad30("10.0.0.0/8"));
    assert!(t.rows[1].selected);
    a.rules.scroll_offset = 0;
    let t = a.rules_table(2);
    assert_eq!(t.rows[0].size, "1.00 KB");
}

fn pad30(s: &str) -> String {
    format!("{s:<30}")
}

#[test]
fn log_view_filters_by_level_and_search() {
    let mut a = fresh_app();
    a.logs.buffer = vec![
        log("debug", "dbg line"),
        log("info", "connected"),
        log("warning", "slow dns"),
        log("error", "dns failed"),
    ];
    a.logs.level_filter = "warning".into();
    a.logs.auto_scroll = true;
    let v = a.log_view(10);
    assert_eq!(v.title, "  Logs [warning] (4) autoscroll:ON  ");
    assert_eq!(v.lines.len(), 2);
    assert_eq!(v.lines[0].level, "WARNING ");
    assert_eq!(v.lines[1].level, "  ERROR ");
    assert_eq!(v.lines[1].class, LevelClass::Error);
    let v = a.log_view(1);
    assert_eq!(v.lines.len(), 1);
    assert_eq!(v.lines[0].payload, "dns failed");
    a.logs.level_filter = "debug".into();
    a.search.query = "DNS".into();
    a.logs.auto_scroll = false;
    let v = a.log_view(10);
    assert_eq!(v.title, "  Logs [debug] (4) autoscroll:OFF  ");
    assert_eq!(v.lines.len(), 2);
    a.search.query = String::new();
    assert_eq!(a.log_view(10).lines.len(), 4);
    a.search.query = "DNS".into();
    a.logs.level_filter = "silent".into();
    assert_eq!(a.log_view(10).lines.len(), 0);
    a.logs.level_filter = "error".into();
    a.search.query = String::new();
    assert_eq!(a.log_view(10).lines.len(), 1);
    a.logs.level_filter = "info".into();
    assert_eq!(a.log_view(10).lines.len(), 3);
}

#[test]
fn proxy_group_and_node_lists() {
    let mut a = fresh_app();
    assert_eq!(a.group_list(20).notice.as_deref(), Some("No proxy groups found"));
    assert_eq!(a.node_list(30).notice.as_deref(), Some("No group selected"));
    a.proxy.groups = vec!["GLOBAL".into(), "Empty".into()];
    a.proxy.group_members = vec![("GLOBAL".into(), vec!["HK-01".into(), "JP-01".into(), "hk-02".into()])];
    a.proxy.group_now = vec![("GLOBAL".into(), "JP-01".into())];
    a.proxy.delays = vec![("HK-01".into(), 120), ("JP-01".into(), 350)];
    a.proxy.selected_node = 0;
    let g = a.group_list(24);
    assert!(g.notice.is_none());
    assert_eq!(g.lines[0].text, format!("{:<24}", "\u{25cf} GLOBAL \u{2192} JP-01"));
    assert!(g.lines[0].selected);
    assert_eq!(g.lines[1].text, format!("{:<24}", "\u{25cf} Empty"));
    let l = a.node_list(30);
    assert!(l.notice.is_none());
    assert_eq!(l.title, " GLOBAL (3) ");
    assert_eq!(l.lines.len(), 3);
    assert_eq!(l.lines[0].text, format!("{:<30}", format!("  {:18} {:>8}", "HK-01", "120ms")));
    assert_eq!(l.lines[0].class, NodeClass::Selected);
    assert_eq!(l.lines[1].text, format!("{:<30}", format!("\u{25cf} {:18} {:>8}", "JP-01", "350ms")));
    assert_eq!(l.lines[1].class, NodeClass::Current);
    assert_eq!(l.lines[2].text, format!("{:<30}", format!("  {:18} {:>8}", "hk-02", "timeout")));
    assert_eq!(l.lines[2].class, NodeClass::Latency(LatencyClass::Untested));
    a.search.query = "hk".into();
    let l = a.node_list(30);
    assert_eq!(l.title, " GLOBAL (2) ");
    a.proxy.selected_group = 1;
    assert_eq!(a.node_list(30).notice.as_deref(), Some("No members"));
}

fn proxy_provider(name: &str, alive: &[bool]) -> (String, ProxyProviderItem) {
    (
        name.to_owned(),
        ProxyProviderItem {
            name: name.into(),
            provider_type: "Proxy".into(),
            proxies: alive
                .iter()
                .map(|&al| ProxyItem {
                    name: "n".into(),
                    proxy_type: ProxyType::default(),
                    all: None,
                    now: None,
                    history: vec![],
                    udp: false,
                    xudp: false,
                    tfo: false,
                    mp: false,
                    smux: false,
                    provider: None,
                    alive: al,
                    extra: None,
                })
                .collect(),
            vehicle_type: "HTTP".into(),
            sub_info: None,
            subscription_info: None,
            updated: "today".into(),
            expected_status: None,
        },
    )
}

#[test]
fn provider_list_is_ordered_by_name() {
    let mut a = fresh_app();
    let l = a.provider_list(80);
    assert_eq!(l.tab, ProviderTab::Proxy);
    assert_eq!(l.notice.as_deref(), Some("No proxy providers found"));
    a.providers.proxy_providers = vec![proxy_provider("zeta", &[true, false]), proxy_provider("alpha", &[true])];
    let l = a.provider_list(90);
    assert_eq!(l.order, vec![1, 0]);
    assert_eq!(
        l.lines[0].text,
        format!("{:<90}", " \u{25b8} alpha                type=HTTP       nodes=1    alive=1    updated=today")
    );
    assert!(l.lines[0].selected);
    assert_eq!(
        l.lines[1].text,
        format!("{:<90}", "   zeta                 type=HTTP       nodes=2    alive=1    updated=today")
    );
    a.providers.active_tab = 1;
    a.providers.rule_providers = vec![(
        "geo".into(),
        RuleProviderItem {
            name: "geo".into(),
            provider_type: "Rule".into(),
            behavior: "domain".into(),
            rule_count: 42,
            vehicle_type: "HTTP".into(),
            updated: "now".into(),
        },
    )];
    let l = a.provider_list(100);
    assert_eq!(l.tab, ProviderTab::Rule);
    assert_eq!(
        l.lines[0].text,
        format!(
            "{:<100}",
            " \u{25b8} geo                  behavior=domain   count=42    type=HTTP       updated=now"
        )
    );
}

#[test]
fn provider_tab_of_index() {
    assert_eq!(ProviderTab::from_active_tab(0), ProviderTab::Proxy);
    assert_eq!(ProviderTab::from_active_tab(3), ProviderTab::Rule);
    assert_eq!(ProviderTab::default(), ProviderTab::Proxy);
}

#[test]
fn kernel_panel() {
    let mut a = fresh_app();
    let k = a.kernel_info();
    assert_eq!(k.active_version, "Not installed");
    assert_eq!(k.status, "Ready");
    assert_eq!(a.version_list(10).notice.as_deref(), Some("No versions available"));
    a.kernel.current_version = "v1.18.0".into();
    a.kernel.downloading = true;
    a.kernel.available_versions = vec!["v1.19.0".into(), "v1.18.0".into()];
    a.kernel.selected = 0;
    let k = a.kernel_info();
    assert_eq!(k.active_version, "v1.18.0");
    assert_eq!(k.status, "Downloading\u{2026}");
    let l = a.version_list(12);
    assert_eq!(l.lines[0].text, "   v1.19.0  ");
    assert!(l.lines[0].selected && !l.lines[0].active);
    assert_eq!(l.lines[1].text, " \u{25cf} v1.18.0  ");
    assert!(l.lines[1].active);
}

#[test]
fn search_bar_states() {
    assert_eq!(search_bar_text("", false), "Press / to search\u{2026}");
    assert_eq!(search_bar_text("", true), "/\u{258e}");
    assert_eq!(search_bar_text("hk", true), "/hk\u{258e}");
    assert_eq!(search_bar_text("hk", false), "/hk");
}

#[test]
fn popups_are_centred() {
    let area = Rect { x: 0, y: 0, width: 100, height: 40 };
    assert_eq!(centered_popup(area, 50, 5), Rect { x: 25, y: 17, width: 50, height: 5 });
    let small = Rect { x: 2, y: 1, width: 20, height: 6 };
    assert_eq!(centered_popup(small, 54, 18), Rect { x: 4, y: 3, width: 16, height: 2 });
}

#[test]
fn dashboard_and_config_figures() {
    let mut a = fresh_app();
    let d = a.dashboard_stats();
    assert_eq!(d.mode, "\u{2014}");
    assert_eq!(d.memory, "\u{2014}");
    assert_eq!(d.upload_title, "Upload 0 B/s");
    a.cfg.config = Some(running_config());
    a.memory_inuse = 1024;
    let d = a.dashboard_stats();
    assert_eq!(d.mode, "Global");
    assert_eq!(d.mixed_port, "7891");
    assert_eq!(d.allow_lan, "Yes");
    assert_eq!(d.memory, "1.00 KB");
    let mut c = running_config();
    c.dns = Some(DnsConfig {
        enable: true,
        listen: "0.0.0.0:53".into(),
        enhanced_mode: "fake-ip".into(),
        nameserver: vec!["1.1.1.1".into(), "8.8.8.8".into()],
        fallback: vec![],
    });
    let s = config_summary(&c);
    assert_eq!(s.mode, "Global");
    assert_eq!(s.socks_port, "7892");
    assert_eq!(s.tun_stack, "\u{2014}");
    let dns = s.dns.unwrap();
    assert_eq!(dns.enable, "Yes");
    assert_eq!(dns.first_nameserver, "1.1.1.1");
    assert_eq!(dns.more_nameservers, vec!["8.8.8.8".to_owned()]);
}

fn panel_group() -> ProxyGroup {
    ProxyGroup {
        name: "GLOBAL".into(),
        selected: 1,
        proxies: vec![
            PanelNode { name: "HK".into(), delay_ms: Some(42), alive: true },
            PanelNode { name: "DIRECT".into(), delay_ms: None, alive: false },
        ],
    }
}

#[test]
fn overview_group_and_proxy_lines() {
    let g = panel_group();
    assert_eq!(group_line(&g, true), "> GLOBAL -> DIRECT");
    let empty = ProxyGroup { name: "E".into(), selected: 0, proxies: vec![] };
    assert_eq!(group_line(&empty, false), "  E -> none");
    let lines = proxy_lines(&g);
    assert_eq!(lines.len(), 2);
    assert_eq!(lines[0].marker, "  ");
    assert_eq!(lines[0].delay, "42 ms");
    assert_eq!(lines[0].state, "up");
    assert_eq!(lines[1].marker, "> ");
    assert_eq!(lines[1].delay, "direct");
    assert_eq!(lines[1].state, "down");
    assert!(lines[1].selected && !lines[1].alive);
}

#[test]
fn overview_resources_and_connections() {
    let r = ExternalResource {
        name: "sub".into(),
        url: "https://example.com/sub.yaml".into(),
        kind: ResourceKind::RuleProvider,
        updated_at: None,
    };
    assert_eq!(resource_line(&r, false), "  rule  sub");
    let d = resource_details(&r);
    assert_eq!(d[0], "Name: sub");
    assert_eq!(d[1], "Kind: rule-provider");
    assert_eq!(d[2], "Updated: unknown");
    assert_eq!(d[3], "Source: https://example.com/sub.yaml");
    let c = ConnectionInfo {
        id: "c1".into(),
        host: "example.com".into(),
        rule: "MATCH".into(),
        chain: "Proxy -> HK".into(),
        upload: 500,
        download: 2048,
    };
    assert_eq!(connection_line(&c, true), "> example.com 2.0 KB/s");
    let d = connection_details(&c);
    assert_eq!(d[0], "ID: c1");
    assert_eq!(d[3], "Chain: Proxy -> HK");
    assert_eq!(d[4], "Upload: 500 B/s");
    assert_eq!(d[5], "Download: 2.0 KB/s");
}

#[test]
fn overview_cards_and_classes() {
    assert_eq!(port_display(0), "disabled");
    assert_eq!(port_display(7890), "7890");
    let t = TrafficStats { upload_bps: 0, download_bps: 3 * 1024 * 1024, memory_mb: 64, active_connections: 3 };
    let l = traffic_lines(&t);
    assert_eq!(l[0], "Down  3.0 MB/s");
    assert_eq!(l[1], "Up    0 B/s");
    assert_eq!(l[2], "Conn  3");
    assert_eq!(l[3], "Mem   64 MB");
    let p = ListenerPorts { mixed: 7890, socks: 7891, http: 7892, redir: None, tproxy: None, external_controller: 9090 };
    let l = ports_lines(&p);
    assert_eq!(l[0], "mixed               7890");
    assert_eq!(l[3], "external-controller 9090");
    assert_eq!(status_class("Running"), StatusClass::Running);
    assert_eq!(status_class("Stopped"), StatusClass::Stopped);
    assert_eq!(status_class("Missing"), StatusClass::Other);
    assert_eq!(panel_level_class("warn"), PanelLevelClass::Warn);
    assert_eq!(panel_level_class("error"), PanelLevelClass::Error);
    assert_eq!(panel_level_class("info"), PanelLevelClass::Other);
}
