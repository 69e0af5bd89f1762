use mihomo_tui::panel::{log_from_message, LogMessageFields, MessageField};
use mihomo_tui::panel::{
    into_connections, into_groups, parse_port, with_scheme, DelayHistory, PanelConfig, PanelConnection,
    PanelConnectionMetadata, PanelProxy, PanelSnapshot,
};
use mihomo_tui::panel::{snapshot_from_reads, ExternalResource, PanelConnections, ResourceKind};
use mihomo_tui::error::AppError;
use mihomo_tui::runtime::MihomoMode;
use mihomo_tui::runtime::subscription::Timestamp;

#[test]
fn ports_from_addresses() {
    assert_eq!(parse_port("127.0.0.1:9090"), Some(9090));
    assert_eq!(parse_port("[::1]:+80"), Some(80));
    assert_eq!(parse_port("host:65536"), None);
    assert_eq!(parse_port("host:"), None);
    assert_eq!(parse_port("9090"), None);
    let cfg = PanelConfig {
        mode: None,
        port: Some(7891),
        socks_port: None,
        mixed_port: Some(7890),
        redir_port: None,
        tproxy_port: Some(7895),
        external_controller: Some("0.0.0.0:9090".to_owned()),
    };
    let p = cfg.ports();
    assert_eq!((p.mixed, p.socks, p.http, p.tproxy, p.external_controller), (7890, 0, 7891, Some(7895), 9090));
}

#[test]
fn groups_from_proxies() {
    let groups = into_groups(vec![
        ("DIRECT".to_owned(), PanelProxy { now: None, all: vec![], history: vec![] }),
        (
            "GLOBAL".to_owned(),
            PanelProxy {
                now: Some("b".to_owned()),
                all: vec!["a".to_owned(), "b".to_owned()],
                history: vec![DelayHistory { delay: Some(5), mean_delay: None }, DelayHistory { delay: None, mean_delay: Some(9) }],
            },
        ),
    ]);
    assert_eq!(groups.len(), 1);
    assert_eq!(groups[0].selected, 1);
    assert_eq!(groups[0].proxies[0].delay_ms, Some(9));
    assert!(groups[0].proxies[1].alive);
}

#[test]
fn connections_for_the_panel() {
    let conns = into_connections(vec![PanelConnection {
        id: "1".into(),
        metadata: Some(PanelConnectionMetadata { host: None, destination_ip: Some("1.1.1.1".into()) }),
        chains: vec!["PROXY".into(), "HK".into()],
        rule: None,
        upload: 1,
        download: 2,
    }]);
    assert_eq!(conns[0].host, "1.1.1.1");
    assert_eq!(conns[0].rule, "unknown");
    assert_eq!(conns[0].chain, "PROXY -> HK");
}

#[test]
fn empty_snapshot_and_scheme() {
    let s = PanelSnapshot::empty(Timestamp { secs: 1, nanos: 0 });
    assert_eq!(s.logs.len(), 1);
    assert_eq!(s.logs[0].message, "mihomo-tui workspace initialized");
    assert_eq!(with_scheme("127.0.0.1:9090"), "http://127.0.0.1:9090");
    assert_eq!(with_scheme("https://h"), "https://h");
}

#[test]
fn log_messages_from_the_stream() {
    let t = Timestamp { secs: 5, nanos: 0 };
    let plain = log_from_message("not json", None, t);
    assert_eq!(plain.level, "info");
    assert_eq!(plain.message, "not json");
    assert_eq!(plain.time, t);
    let fields = LogMessageFields {
        log_type: MessageField::Text("warning".into()),
        level: MessageField::Text("error".into()),
        payload: MessageField::Missing,
        message: MessageField::Text("disk full".into()),
    };
    let e = log_from_message("{..}", Some(fields), t);
    assert_eq!(e.level, "warning");
    assert_eq!(e.message, "disk full");
    let odd = LogMessageFields {
        log_type: MessageField::Other,
        level: MessageField::Text("error".into()),
        payload: MessageField::Other,
        message: MessageField::Text("ignored".into()),
    };
    let e = log_from_message("raw text", Some(odd), t);
    assert_eq!(e.level, "info");
    assert_eq!(e.message, "raw text");
}

fn plain_config(mode: Option<MihomoMode>) -> PanelConfig {
    PanelConfig {
        mode,
        port: None,
        socks_port: None,
        mixed_port: Some(7890),
        redir_port: None,
        tproxy_port: None,
        external_controller: None,
    }
}

fn no_connections() -> Result<PanelConnections, String> {
    Ok(PanelConnections { upload_total: 3, download_total: 4, connections: vec![] })
}

#[test]
fn snapshot_from_the_reads() {
    let now = Timestamp { secs: 10, nanos: 0 };
    let res = ExternalResource { name: "p".into(), url: String::new(), kind: ResourceKind::ProxyProvider, updated_at: None };
    let (s, mode, ver) = snapshot_from_reads(
        Ok(plain_config(None)),
        Ok(vec![]),
        Ok(vec![res]),
        Err("down".into()),
        no_connections(),
        Err("down".into()),
        Ok(4096),
        Err("down".into()),
        "http://h:9090",
        now,
    )
    .unwrap();
    assert_eq!(mode, MihomoMode::Rule);
    assert_eq!(ver, "unknown");
    assert_eq!(s.resources.len(), 1);
    assert_eq!(s.traffic.memory_mb, 4);
    assert_eq!(s.traffic.upload_bps, 3);
    assert_eq!(s.ports.mixed, 7890);
    assert_eq!(s.logs.len(), 1);
    assert_eq!(s.logs[0].message, "connected to http://h:9090");
    let (_, mode, ver) = snapshot_from_reads(
        Ok(plain_config(Some(MihomoMode::Global))),
        Ok(vec![]),
        Ok(vec![]),
        Ok(vec![]),
        no_connections(),
        Ok("v1.19.0".into()),
        Err("down".into()),
        Ok(vec![]),
        "http://h:9090",
        now,
    )
    .unwrap();
    assert_eq!((mode, ver.as_str()), (MihomoMode::Global, "v1.19.0"));
    let e = snapshot_from_reads(
        Ok(plain_config(None)),
        Err("timeout".into()),
        Ok(vec![]),
        Ok(vec![]),
        Err("refused".into()),
        Ok("v".into()),
        Ok(0),
        Ok(vec![]),
        "http://h:9090",
        now,
    )
    .unwrap_err();
    assert_eq!(e, AppError::Other("load mihomo /proxies: timeout".into()));
}
