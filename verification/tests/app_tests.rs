use mihomo_tui::api::types::{
    ClashMode, ConfigResponse, ConnectionItem, ConnectionMetadata, ConnectionsResponse, LogEntry,
    ProxiesResponse, ProxyHistoryEntry, ProxyItem, ProxyType, RuleItem, RulesResponse, TunConfig,
};
use mihomo_tui::app::{App, AppMode, RefreshPlan};
use mihomo_tui::config::AppConfig;
use mihomo_tui::input::{tab_hit_test, KeyAction, KeyEffect, KeyInput, MouseInput, Rect, TickCounter};
use mihomo_tui::runtime::kernel::{KernelManager, Platform};

fn app() -> App {
    let cfg = AppConfig::default_in("/c", "/m");
    App::new(cfg, KernelManager::new("/k", Platform::current("linux", "x86_64")))
}

fn proxy(name: &str, all: Option<Vec<&str>>, now: Option<&str>, delays: &[u64]) -> (String, ProxyItem) {
    (
        name.to_owned(),
        ProxyItem {
            name: name.to_owned(),
            proxy_type: ProxyType::default(),
            all: all.map(|v| v.into_iter().map(String::from).collect()),
            now: now.map(String::from),
            history: delays.iter().map(|&d| ProxyHistoryEntry { time: String::new(), delay: d }).collect(),
            udp: false,
            xudp: false,
            tfo: false,
            mp: false,
            smux: false,
            provider: None,
            alive: true,
            extra: None,
        },
    )
}

fn connection(id: &str) -> ConnectionItem {
    ConnectionItem {
        id: id.to_owned(),
        metadata: ConnectionMetadata {
            network: "tcp".into(),
            conn_type: "HTTP".into(),
            source_ip: String::new(),
            destination_ip: String::new(),
            source_port: String::new(),
            destination_port: String::new(),
            host: "example.com".into(),
            dns_mode: String::new(),
            process: None,
            process_path: None,
            uid: None,
        },
        upload: 0,
        download: 0,
        start: String::new(),
        chains: vec![],
        rule: String::new(),
        rule_payload: String::new(),
        conn_type: "HTTP".into(),
        host: String::new(),
        process: None,
        process_path: None,
        dl_speed: 0,
        ul_speed: 0,
    }
}

fn config_response(mode: ClashMode) -> ConfigResponse {
    ConfigResponse {
        port: 0,
        socks_port: 0,
        mixed_port: 7890,
        redir_port: 0,
        tproxy_port: 0,
        mitm_port: None,
        allow_lan: false,
        bind_address: String::new(),
        log_level: "info".into(),
        ipv6: false,
        mode,
        unified_delay: false,
        tun: TunConfig::default(),
        sniffer: None,
        dns: None,
        geo_x_url: None,
        external_controller: String::new(),
        external_ui: None,
        secret: String::new(),
        interface_name: None,
    }
}

#[test]
fn tabs_cycle_both_ways() {
    for i in 0..8 {
        let m = AppMode::from_index(i);
        assert_eq!(m.as_index(), i);
        assert_eq!(m.next().prev(), m);
        assert_eq!(m.prev().next(), m);
    }
    assert_eq!(AppMode::from_index(99), AppMode::Dashboard);
    let mut m = AppMode::Kernel;
    for _ in 0..8 {
        m = m.next();
    }
    assert_eq!(m, AppMode::Kernel);
    assert_eq!(AppMode::Kernel.next(), AppMode::Dashboard);
}

#[test]
fn traffic_history_is_bounded() {
    let mut a = app();
    for i in 0..200u64 {
        a.push_traffic(i, i * 2);
    }
    assert_eq!(a.traffic_up_history.len(), 120);
    assert_eq!(*a.traffic_up_history.first().unwrap(), 80);
    assert_eq!(*a.traffic_down_history.last().unwrap(), 398);
}

#[test]
fn log_ring_buffer() {
    let mut a = app();
    a.logs.capacity = 3;
    for i in 0..5 {
        a.push_log(LogEntry { log_type: "info".into(), payload: format!("{i}") });
    }
    let payloads: Vec<&str> = a.logs.buffer.iter().map(|e| e.payload.as_str()).collect();
    assert_eq!(payloads, vec!["2", "3", "4"]);
}

#[test]
fn proxies_are_sorted_and_grouped() {
    let mut a = app();
    a.proxy.selected_group = 9;
    a.proxy.selected_node = 9;
    a.apply_proxies(ProxiesResponse {
        proxies: vec![
            proxy("b-node", None, None, &[120]),
            proxy("GLOBAL", Some(vec!["a-node", "b-node"]), Some("b-node"), &[]),
            proxy("a-node", None, None, &[10, 55]),
            proxy("Auto", Some(vec!["a-node"]), None, &[]),
        ],
    });
    assert_eq!(a.proxy.groups, vec!["Auto", "GLOBAL"]);
    assert_eq!(a.proxy.selected_group, 1);
    assert_eq!(a.proxy.selected_node, 1);
    assert_eq!(a.current_node_name(), Some("b-node".to_owned()));
    assert_eq!(a.proxy.group_now, vec![("GLOBAL".to_owned(), "b-node".to_owned())]);
    assert_eq!(a.proxy.delays, vec![("a-node".to_owned(), 55), ("b-node".to_owned(), 120)]);

    a.mode = AppMode::Proxies;
    a.move_down();
    assert_eq!(a.proxy.selected_node, 1);
    a.move_up();
    a.move_up();
    assert_eq!(a.proxy.selected_node, 0);
    a.prev_proxy_group();
    assert_eq!(a.proxy.selected_group, 0);
    let (group, node) = a.proxy_switch_target().unwrap();
    assert_eq!((group.as_str(), node.as_str()), ("Auto", "a-node"));
    a.proxy_switched(group, node);
    assert_eq!(a.status_message, "Switched proxy");
    a.latency_measured("a-node".into(), Ok(42));
    assert_eq!(a.status_message, "a-node: 42ms");
    a.latency_measured("a-node".into(), Err("timeout".into()));
    assert_eq!(a.status_message, "a-node: timeout/error (timeout)");
    assert_eq!(a.proxy.delays[0], ("a-node".to_owned(), 0));
    a.latency_test_started(2);
    assert_eq!(a.status_message, "Testing 2 nodes…");
    a.latency_test_finished(2);
    assert_eq!(a.status_message, "2 nodes tested");
}

#[test]
fn connections_and_rules() {
    let mut a = app();
    a.connections.selected = 5;
    a.apply_connections(ConnectionsResponse {
        download_total: 7,
        upload_total: 3,
        connections: Some(vec![connection("c1"), connection("c2")]),
        memory: 0,
    });
    assert_eq!(a.connections.selected, 1);
    assert_eq!(a.selected_connection_id(), Some("c2".to_owned()));
    a.connection_closed();
    assert_eq!(a.connections.connections.len(), 1);
    assert_eq!(a.connections.selected, 0);
    assert_eq!(a.status_message, "Connection closed");
    a.all_connections_closed();
    assert!(a.connections.connections.is_empty());
    a.apply_rules(RulesResponse {
        rules: vec![RuleItem { rule_type: "MATCH".into(), payload: String::new(), proxy: "DIRECT".into(), size: None }],
    });
    a.mode = AppMode::Rules;
    a.move_down();
    assert_eq!(a.rules.selected, 0);
}

#[test]
fn mode_cycling() {
    let mut a = app();
    assert_eq!(a.next_clash_mode(), ClashMode::Rule);
    a.apply_config(config_response(ClashMode::Global));
    assert_eq!(a.next_clash_mode(), ClashMode::Direct);
    let patch = App::mode_patch(ClashMode::Direct);
    assert_eq!(patch.mode, Some(ClashMode::Direct));
    a.mode_changed(ClashMode::Direct);
    assert_eq!(a.status_message, "Mode: Direct");
    assert_eq!(a.cfg.config.as_ref().unwrap().mode, ClashMode::Direct);
    assert_eq!(a.status_bar_data().mode, "DIRECT");
}

#[test]
fn mode_cycling_without_a_loaded_config() {
    let mut a = app();
    let mode = a.next_clash_mode();
    assert_eq!(mode, ClashMode::Rule);
    a.mode_changed(mode);
    assert_eq!(a.status_message, "Mode: Rule");
    assert!(a.cfg.config.is_none());
}

#[test]
fn keys_drive_the_state() {
    let mut a = app();
    assert_eq!(a.handle_key(KeyInput::Tab, true), KeyEffect::NextTab);
    assert_eq!(a.mode, AppMode::Proxies);
    assert_eq!(a.handle_key(KeyInput::Char('t'), true), KeyEffect::Run(KeyAction::TestCurrentLatency));
    assert_eq!(a.handle_key(KeyInput::Char('4'), true), KeyEffect::SwitchTab(4));
    assert_eq!(a.mode, AppMode::Logs);
    assert_eq!(a.handle_key(KeyInput::Char('1'), true), KeyEffect::SetLogLevel(1));
    assert_eq!(a.logs.level_filter, "debug");
    assert_eq!(a.handle_key(KeyInput::Enter, true), KeyEffect::ToggleAutoScroll);
    assert!(!a.logs.auto_scroll);
    assert_eq!(a.handle_key(KeyInput::Char('/'), true), KeyEffect::StartSearch);
    a.handle_key(KeyInput::Char('a'), true);
    a.handle_key(KeyInput::Char('b'), true);
    a.handle_key(KeyInput::Backspace, true);
    assert_eq!(a.search.query, "a");
    a.handle_key(KeyInput::Esc, true);
    assert!(!a.search.active);
    assert_eq!(a.handle_key(KeyInput::Char('?'), true), KeyEffect::OpenHelp);
    assert_eq!(a.handle_key(KeyInput::Char('q'), true), KeyEffect::Nothing);
    assert!(a.running);
    assert_eq!(a.handle_key(KeyInput::Esc, true), KeyEffect::CloseHelp);
    assert_eq!(a.handle_key(KeyInput::Char('q'), false), KeyEffect::Nothing);
    assert_eq!(a.handle_key(KeyInput::Char('Q'), true), KeyEffect::Quit);
    assert!(!a.running);
}

#[test]
fn providers_tab_toggles() {
    let mut a = app();
    a.switch_tab(7);
    assert_eq!(a.mode, AppMode::Providers);
    assert_eq!(a.handle_key(KeyInput::Tab, true), KeyEffect::ToggleProviderTab);
    assert_eq!(a.providers.active_tab, 1);
    assert_eq!(a.refresh_plan(), RefreshPlan::Providers);
    assert_eq!(a.selected_provider(), None);
    a.provider_updated(true, "geo");
    assert_eq!(a.status_message, "Rule provider 'geo' updated");
}

#[test]
fn mouse_clicks_on_tabs() {
    let bar = Rect { x: 0, y: 0, width: 80, height: 1 };
    assert_eq!(tab_hit_test(bar, 0), Some(0));
    assert_eq!(tab_hit_test(bar, 10), Some(0));
    assert_eq!(tab_hit_test(bar, 11), Some(1));
    assert_eq!(tab_hit_test(bar, 72), Some(7));
    assert_eq!(tab_hit_test(bar, 73), None);
    assert_eq!(tab_hit_test(Rect { height: 0, ..bar }, 3), None);
    let mut a = app();
    a.handle_mouse(MouseInput::LeftDown { column: 25, row: 0 });
    assert_eq!(a.mode, AppMode::Connections);
}

#[test]
fn ticks_refresh_every_thirty() {
    let mut t = TickCounter::new();
    let due: Vec<u64> = (1..=90).filter(|_| t.tick()).collect();
    assert_eq!(due.len(), 3);
    assert_eq!(t.count, 90);
}

#[test]
fn kernel_flow() {
    let mut a = app();
    assert!(a.download_target().is_err());
    a.apply_kernel_info(vec![], vec!["v1".to_owned()], Some("v1".to_owned()));
    assert_eq!(a.kernel.current_version, "v1");
    assert!(a.kernel_switch_target().is_err());
}

#[test]
fn status_bar_defaults() {
    let a = app();
    let d = a.status_bar_data();
    assert_eq!(d.mode, "—");
    assert_eq!(d.upload, "0 B/s");
    assert_eq!(d.version, "—");
}
