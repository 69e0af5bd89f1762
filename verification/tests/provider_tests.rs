use mihomo_tui::api::types::{ProviderSubInfo, ProxyItem, ProxyProviderItem, ProxyType, RuleProviderItem};
use mihomo_tui::runtime::provider::{
    proxy_provider_statuses, proxy_update_error, rule_provider_statuses, BulkUpdateResult,
};
use mihomo_tui::error::AppError;

fn node(alive: bool) -> ProxyItem {
    ProxyItem {
        name: "n".into(),
        proxy_type: ProxyType::default(),
        all: None,
        now: None,
        history: vec![],
        udp: false,
        xudp: false,
        tfo: false,
        mp: false,
        smux: false,
        provider: None,
        alive,
        extra: None,
    }
}

fn provider(key: &str, name: &str, alive: &[bool], info: Option<ProviderSubInfo>) -> (String, ProxyProviderItem) {
    (
        key.to_owned(),
        ProxyProviderItem {
            name: name.into(),
            provider_type: "Proxy".into(),
            proxies: alive.iter().map(|&a| node(a)).collect(),
            vehicle_type: "HTTP".into(),
            sub_info: None,
            subscription_info: info,
            updated: "t".into(),
            expected_status: None,
        },
    )
}

#[test]
fn proxy_provider_statuses_are_ordered_by_name() {
    let info = ProviderSubInfo { upload: 10, download: 20, total: 100, expire: Some(5) };
    let list = vec![
        provider("k1", "zeta", &[true, false, true], Some(info)),
        provider("k2", "alpha", &[], None),
        provider("k3", "zeta", &[false], None),
    ];
    let s = proxy_provider_statuses(list);
    let names: Vec<&str> = s.iter().map(|x| x.name.as_str()).collect();
    assert_eq!(names, vec!["alpha", "zeta", "zeta"]);
    // Equal names keep their order: the first "zeta" has three nodes.
    assert_eq!(s[1].total_count, 3);
    assert_eq!(s[1].alive_count, 2);
    assert_eq!(s[2].total_count, 1);
    assert_eq!(s[2].alive_count, 0);
    let usage = s[1].subscription_info.unwrap();
    assert_eq!(usage.used, 30);
    assert_eq!(usage.remaining, 70);
    assert_eq!(usage.expire, Some(5));
    assert!(s[0].subscription_info.is_none());
}

#[test]
fn rule_provider_statuses_are_ordered_by_name() {
    let item = |name: &str, count: i64| RuleProviderItem {
        name: name.into(),
        provider_type: "Rule".into(),
        behavior: "domain".into(),
        rule_count: count,
        vehicle_type: "HTTP".into(),
        updated: "t".into(),
    };
    let s = rule_provider_statuses(vec![("a".into(), item("geo", 1)), ("b".into(), item("ads", 2))]);
    assert_eq!(s[0].name, "ads");
    assert_eq!(s[0].rule_count, 2);
    assert_eq!(s[1].name, "geo");
    assert_eq!(s[1].behavior, "domain");
}

#[test]
fn bulk_update_records_outcomes() {
    let mut r = BulkUpdateResult::new();
    r.record("a".into(), Ok(()));
    r.record("b".into(), Err("boom".into()));
    r.record("b".into(), Err("again".into()));
    assert_eq!(r.updated, vec!["a".to_owned()]);
    assert_eq!(r.failed, vec![("b".to_owned(), "again".to_owned())]);
    let l = BulkUpdateResult::listing_failed();
    assert_eq!(l.failed, vec![("(all)".to_owned(), "failed to list providers".to_owned())]);
    assert_eq!(proxy_update_error("x"), AppError::Other("failed to update proxy provider: x".into()));
}
