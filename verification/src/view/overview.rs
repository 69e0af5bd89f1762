//! The text of the overview workspace built on the panel models: group,
//! proxy, resource and connection lines with their details, listener
//! ports, traffic figures, and the colour classes of core status and log
//! levels.

use vstd::prelude::*;
use crate::panel::{ConnectionInfo, ExternalResource, ListenerPorts, ProxyGroup, ResourceKind, TrafficStats};
use crate::text::{concat, decimal, decimal_string, owned, str_eq};
use crate::utils::format::{format_rate, format_rate_spec};

verus! {

/// The marker in front of a line: `> ` for the selected one.
pub open spec fn marker(selected: bool) -> Seq<char> {
    if selected { "> "@ } else { "  "@ }
}

fn marker_text(selected: bool) -> (r: &'static str)
    ensures
        r@ == marker(selected),
{
    if selected { "> " } else { "  " }
}

/// The name of the selected node of a group, or `none`.
pub open spec fn current_proxy(group: ProxyGroup) -> Seq<char> {
    if group.selected < group.proxies@.len() { group.proxies@[group.selected as int].name@ } else { "none"@ }
}

/// The line of a proxy group: marker, name, ` -> ` and the node in use.
pub fn group_line(group: &ProxyGroup, selected: bool) -> (r: String)
    ensures
        r@ == marker(selected) + group.name@ + " -> "@ + current_proxy(*group),
{
    let current = if group.selected < group.proxies.len() {
        owned(group.proxies[group.selected].name.as_str())
    } else {
        owned("none")
    };
    let a = concat(marker_text(selected), group.name.as_str());
    let b = concat(a.as_str(), " -> ");
    concat(b.as_str(), current.as_str())
}

/// The parts of a node's line.
#[derive(Debug)]
pub struct ProxyLine {
    pub marker: String,
    pub name: String,
    /// `N ms`, or `direct` when no delay is known.
    pub delay: String,
    /// `up` or `down`.
    pub state: String,
    pub selected: bool,
    pub alive: bool,
}

/// What a node's delay shows.
pub open spec fn delay_label(delay_ms: Option<u16>) -> Seq<char> {
    match delay_ms {
        Some(d) => decimal(d as nat) + " ms"@,
        None => "direct"@,
    }
}

/// The lines of a group's nodes, the selected node marked.
pub fn proxy_lines(group: &ProxyGroup) -> (r: Vec<ProxyLine>)
    ensures
        r@.len() == group.proxies@.len(),
        forall|i: int| 0 <= i < r@.len() ==> {
            let p = group.proxies@[i];
            let sel = i == group.selected;
            &&& (#[trigger] r@[i]).marker@ == marker(sel)
            &&& r@[i].name@ == p.name@
            &&& r@[i].delay@ == delay_label(p.delay_ms)
            &&& r@[i].state@ == (if p.alive { "up"@ } else { "down"@ })
            &&& r@[i].selected == sel
            &&& r@[i].alive == p.alive
        },
{
    let n = group.proxies.len();
    let mut out: Vec<ProxyLine> = Vec::new();
    let mut i: usize = 0;
    while i < n
        invariant
            n == group.proxies@.len(),
            i <= n,
            out@.len() == i,
            forall|j: int| 0 <= j < i ==> {
                let p = group.proxies@[j];
                let sel = j == group.selected;
                &&& (#[trigger] out@[j]).marker@ == marker(sel)
                &&& out@[j].name@ == p.name@
                &&& out@[j].delay@ == delay_label(p.delay_ms)
                &&& out@[j].state@ == (if p.alive { "up"@ } else { "down"@ })
                &&& out@[j].selected == sel
                &&& out@[j].alive == p.alive
            },
        decreases n - i,
    {
        let p = &group.proxies[i];
        let sel = i == group.selected;
        let delay = match p.delay_ms {
            Some(d) => concat(decimal_string(d as u64).as_str(), " ms"),
            None => owned("direct"),
        };
        out.push(ProxyLine {
            marker: owned(marker_text(sel)),
            name: owned(p.name.as_str()),
            delay,
            state: if p.alive { owned("up") } else { owned("down") },
            selected: sel,
            alive: p.alive,
        });
        i = i + 1;
    }
    out
}

/// The short kind label of a resource.
pub open spec fn kind_label(kind: ResourceKind) -> Seq<char> {
    match kind {
        ResourceKind::ProxyProvider => "proxy"@,
        ResourceKind::RuleProvider => "rule "@,
    }
}

/// The long kind name of a resource.
pub open spec fn kind_name(kind: ResourceKind) -> Seq<char> {
    match kind {
        ResourceKind::ProxyProvider => "proxy-provider"@,
        ResourceKind::RuleProvider => "rule-provider"@,
    }
}

/// The line of a resource: marker, kind label and name.
pub fn resource_line(resource: &ExternalResource, selected: bool) -> (r: String)
    ensures
        r@ == marker(selected) + kind_label(resource.kind) + " "@ + resource.name@,
{
    let kind = match resource.kind {
        ResourceKind::ProxyProvider => "proxy",
        ResourceKind::RuleProvider => "rule ",
    };
    let a = concat(marker_text(selected), kind);
    let b = concat(a.as_str(), " ");
    concat(b.as_str(), resource.name.as_str())
}

/// The details of a resource: name, kind, last update (or `unknown`),
/// source, and how to refresh it.
pub fn resource_details(resource: &ExternalResource) -> (r: Vec<String>)
    ensures
        r@.len() == 5,
        r@[0]@ == "Name: "@ + resource.name@,
        r@[1]@ == "Kind: "@ + kind_name(resource.kind),
        r@[2]@ == "Updated: "@ + (match resource.updated_at {
            Some(u) => u@,
            None => "unknown"@,
        }),
        r@[3]@ == "Source: "@ + resource.url@,
        r@[4]@ == "Press Enter to refresh this provider through mihomo."@,
{
    let kind = match resource.kind {
        ResourceKind::ProxyProvider => "proxy-provider",
        ResourceKind::RuleProvider => "rule-provider",
    };
    let updated = match &resource.updated_at {
        Some(u) => owned(u.as_str()),
        None => owned("unknown"),
    };
    let mut r: Vec<String> = Vec::new();
    r.push(concat("Name: ", resource.name.as_str()));
    r.push(concat("Kind: ", kind));
    r.push(concat("Updated: ", updated.as_str()));
    r.push(concat("Source: ", resource.url.as_str()));
    r.push(owned("Press Enter to refresh this provider through mihomo."));
    r
}

/// The line of a connection: marker, host and download rate.
pub fn connection_line(connection: &ConnectionInfo, selected: bool) -> (r: String)
    ensures
        r@ == marker(selected) + connection.host@ + " "@ + format_rate_spec(connection.download as nat),
{
    let a = concat(marker_text(selected), connection.host.as_str());
    let b = concat(a.as_str(), " ");
    concat(b.as_str(), format_rate(connection.download).as_str())
}

/// The details of a connection: id, host, rule, chain, upload and
/// download rates.
pub fn connection_details(connection: &ConnectionInfo) -> (r: Vec<String>)
    ensures
        r@.len() == 6,
        r@[0]@ == "ID: "@ + connection.id@,
        r@[1]@ == "Host: "@ + connection.host@,
        r@[2]@ == "Rule: "@ + connection.rule@,
        r@[3]@ == "Chain: "@ + connection.chain@,
        r@[4]@ == "Upload: "@ + format_rate_spec(connection.upload as nat),
        r@[5]@ == "Download: "@ + format_rate_spec(connection.download as nat),
{
    let mut r: Vec<String> = Vec::new();
    r.push(concat("ID: ", connection.id.as_str()));
    r.push(concat("Host: ", connection.host.as_str()));
    r.push(concat("Rule: ", connection.rule.as_str()));
    r.push(concat("Chain: ", connection.chain.as_str()));
    r.push(concat("Upload: ", format_rate(connection.upload).as_str()));
    r.push(concat("Download: ", format_rate(connection.download).as_str()));
    r
}

/// What a listener port shows: `disabled` for 0, else the number.
pub open spec fn port_text(value: u16) -> Seq<char> {
    if value == 0 { "disabled"@ } else { decimal(value as nat) }
}

/// What a listener port shows.
pub fn port_display(value: u16) -> (r: String)
    ensures
        r@ == port_text(value),
{
    if value == 0 { owned("disabled") } else { decimal_string(value as u64) }
}

/// The lines of the traffic card.
pub fn traffic_lines(traffic: &TrafficStats) -> (r: Vec<String>)
    ensures
        r@.len() == 4,
        r@[0]@ == "Down  "@ + format_rate_spec(traffic.download_bps as nat),
        r@[1]@ == "Up    "@ + format_rate_spec(traffic.upload_bps as nat),
        r@[2]@ == "Conn  "@ + decimal(traffic.active_connections as nat),
        r@[3]@ == "Mem   "@ + decimal(traffic.memory_mb as nat) + " MB"@,
{
    let mut r: Vec<String> = Vec::new();
    r.push(concat("Down  ", format_rate(traffic.download_bps).as_str()));
    r.push(concat("Up    ", format_rate(traffic.upload_bps).as_str()));
    r.push(concat("Conn  ", decimal_string(traffic.active_connections as u64).as_str()));
    let mem = concat("Mem   ", decimal_string(traffic.memory_mb).as_str());
    r.push(concat(mem.as_str(), " MB"));
    r
}

/// The lines of the ports card.
pub fn ports_lines(ports: &ListenerPorts) -> (r: Vec<String>)
    ensures
        r@.len() == 4,
        r@[0]@ == "mixed               "@ + decimal(ports.mixed as nat),
        r@[1]@ == "socks               "@ + decimal(ports.socks as nat),
        r@[2]@ == "http                "@ + decimal(ports.http as nat),
        r@[3]@ == "external-controller "@ + decimal(ports.external_controller as nat),
{
    let mut r: Vec<String> = Vec::new();
    r.push(concat("mixed               ", decimal_string(ports.mixed as u64).as_str()));
    r.push(concat("socks               ", decimal_string(ports.socks as u64).as_str()));
    r.push(concat("http                ", decimal_string(ports.http as u64).as_str()));
    r.push(concat("external-controller ", decimal_string(ports.external_controller as u64).as_str()));
    r
}

/// How a core status is coloured.
#[derive(Debug, Clone, Copy, PartialEq, Eq, Structural)]
pub enum StatusClass {
    Running,
    Stopped,
    Other,
}

/// The colour class of a core status text.
pub fn status_class(status: &str) -> (c: StatusClass)
    ensures
        c == (if status@ == "Running"@ {
            StatusClass::Running
        } else if status@ == "Stopped"@ {
            StatusClass::Stopped
        } else {
            StatusClass::Other
        }),
{
    if str_eq(status, "Running") {
        StatusClass::Running
    } else if str_eq(status, "Stopped") {
        StatusClass::Stopped
    } else {
        StatusClass::Other
    }
}

/// How a panel log level is coloured.
#[derive(Debug, Clone, Copy, PartialEq, Eq, Structural)]
pub enum PanelLevelClass {
    Warn,
    Error,
    Other,
}

/// The colour class of a panel log level (compared as written).
pub fn panel_level_class(level: &str) -> (c: PanelLevelClass)
    ensures
        c == (if level@ == "warn"@ {
            PanelLevelClass::Warn
        } else if level@ == "error"@ {
            PanelLevelClass::Error
        } else {
            PanelLevelClass::Other
        }),
{
    if str_eq(level, "warn") {
        PanelLevelClass::Warn
    } else if str_eq(level, "error") {
        PanelLevelClass::Error
    } else {
        PanelLevelClass::Other
    }
}

} // verus!
