//! What each panel shows, as text: the figures of the dashboard and config
//! panels, the rows of the connection, rule, log, proxy, provider and
//! kernel lists, with their filtering and scrolling. Drawing them is done
//! by the caller.

pub mod theme;
pub mod connections;
pub mod rules;
pub mod logs;
pub mod proxies;
pub mod providers;
pub mod kernel;
pub mod components;
pub mod overview;

use vstd::prelude::*;
use crate::api::types::ConfigResponse;
use crate::app::{views, App};
use crate::text::{concat, decimal, decimal_string, owned, str_is_empty};
use crate::utils::format::{bytes_to_human, bytes_to_human_spec, format_speed, format_speed_spec};

verus! {

/// The dash shown for a missing value.
pub open spec fn dash() -> Seq<char> {
    "\u{2014}"@
}

/// `Yes` or `No`.
pub open spec fn yes_no(b: bool) -> Seq<char> {
    if b { "Yes"@ } else { "No"@ }
}

fn yes_no_string(b: bool) -> (r: String)
    ensures
        r@ == yes_no(b),
{
    if b { owned("Yes") } else { owned("No") }
}

// ── Scrolling ────────────────────────────────────────────────────────────────

/// `a - b`, or 0 when `b` is larger.
pub open spec fn sat_sub(a: nat, b: nat) -> nat {
    if a >= b { (a - b) as nat } else { 0 }
}

/// Where a scrolled list of `total` lines shown `height` at a time starts:
/// at the scroll offset, but no later than where the last page starts.
pub open spec fn window_start(total: nat, height: nat, offset: nat) -> nat {
    if offset < sat_sub(total, height) { offset } else { sat_sub(total, height) }
}

/// Where the shown lines end: `height` lines after the start, or at the end.
pub open spec fn window_end(start: nat, height: nat, total: nat) -> nat {
    if start + height < total { start + height } else { total }
}

/// The shown part of a scrolled list: its start and end.
pub fn visible_window(total: usize, height: usize, offset: usize) -> (r: (usize, usize))
    ensures
        r.0 == window_start(total as nat, height as nat, offset as nat),
        r.1 == window_end(r.0 as nat, height as nat, total as nat),
        r.0 <= r.1 <= total,
{
    let last_page = if total >= height { total - height } else { 0 };
    let start = if offset < last_page { offset } else { last_page };
    let end = if total - start > height { start + height } else { total };
    (start, end)
}

// ── Dashboard ──────────────────────────────────────────────────────────────

/// The figures of the dashboard.
#[derive(Debug)]
pub struct DashboardStats {
    pub mode: String,
    pub connections: String,
    pub memory: String,
    pub total_up: String,
    pub total_down: String,
    pub version: String,
    pub tun: String,
    pub log_level: String,
    pub mixed_port: String,
    pub allow_lan: String,
    pub upload_title: String,
    pub download_title: String,
}

/// The listening port shown: the mixed port when set, else the HTTP port.
pub open spec fn shown_port(c: ConfigResponse) -> Seq<char> {
    if c.mixed_port > 0 { decimal(c.mixed_port as nat) } else { decimal(c.port as nat) }
}

/// The latest sample of a history, 0 when empty.
pub open spec fn latest(h: Seq<u64>) -> u64 {
    if h.len() == 0 { 0 } else { h.last() }
}

fn latest_exec(h: &Vec<u64>) -> (r: u64)
    ensures
        r == latest(h@),
{
    if h.len() == 0 { 0 } else { h[h.len() - 1] }
}

fn shown_port_string(c: &ConfigResponse) -> (r: String)
    ensures
        r@ == shown_port(*c),
{
    if c.mixed_port > 0 { decimal_string(c.mixed_port as u64) } else { decimal_string(c.port as u64) }
}

impl App {
    /// The dashboard's figures: mode, connection count, memory, traffic
    /// totals and rates, version, TUN state, log level, port and LAN
    /// access, each a dash when not known.
    pub fn dashboard_stats(&self) -> (d: DashboardStats)
        ensures
            d.mode@ == (match self.cfg.config { Some(c) => c.mode.name_text(), None => dash() }),
            d.connections@ == decimal(self.connections.connections@.len()),
            d.memory@ == (if self.memory_inuse > 0 { bytes_to_human_spec(self.memory_inuse as nat) } else { dash() }),
            d.total_up@ == bytes_to_human_spec(self.connections.upload_total as nat),
            d.total_down@ == bytes_to_human_spec(self.connections.download_total as nat),
            d.version@ == (if self.version@.len() == 0 { dash() } else { self.version@ }),
            d.tun@ == (match self.cfg.config { Some(c) => if c.tun.enable { "Active"@ } else { "Inactive"@ }, None => dash() }),
            d.log_level@ == (match self.cfg.config { Some(c) => c.log_level@, None => dash() }),
            d.mixed_port@ == (match self.cfg.config { Some(c) => shown_port(c), None => dash() }),
            d.allow_lan@ == (match self.cfg.config { Some(c) => yes_no(c.allow_lan), None => dash() }),
            d.upload_title@ == "Upload "@ + format_speed_spec(latest(self.traffic_up_history@) as nat),
            d.download_title@ == "Download "@ + format_speed_spec(latest(self.traffic_down_history@) as nat),
    {
        let (mode, tun, log_level, mixed_port, allow_lan) = match &self.cfg.config {
            Some(c) => (
                owned(c.mode.name()),
                if c.tun.enable { owned("Active") } else { owned("Inactive") },
                owned(c.log_level.as_str()),
                shown_port_string(c),
                yes_no_string(c.allow_lan),
            ),
            None => (owned("\u{2014}"), owned("\u{2014}"), owned("\u{2014}"), owned("\u{2014}"), owned("\u{2014}")),
        };
        let memory = if self.memory_inuse > 0 { bytes_to_human(self.memory_inuse) } else { owned("\u{2014}") };
        let version = if str_is_empty(self.version.as_str()) { owned("\u{2014}") } else { owned(self.version.as_str()) };
        let up = latest_exec(&self.traffic_up_history);
        let down = latest_exec(&self.traffic_down_history);
        DashboardStats {
            mode,
            connections: decimal_string(self.connections.connections.len() as u64),
            memory,
            total_up: bytes_to_human(self.connections.upload_total),
            total_down: bytes_to_human(self.connections.download_total),
            version,
            tun,
            log_level,
            mixed_port,
            allow_lan,
            upload_title: concat("Upload ", format_speed(up).as_str()),
            download_title: concat("Download ", format_speed(down).as_str()),
        }
    }
}

// ── Config panel ───────────────────────────────────────────────────────────

/// The DNS figures of the config panel.
#[derive(Debug)]
pub struct DnsSummary {
    pub enable: String,
    pub listen: String,
    pub enhanced_mode: String,
    /// The first nameserver, a dash when there is none.
    pub first_nameserver: String,
    /// The nameservers after the first.
    pub more_nameservers: Vec<String>,
}

/// The figures of the config panel.
#[derive(Debug)]
pub struct ConfigSummary {
    pub mode: String,
    pub mixed_port: String,
    pub socks_port: String,
    pub redir_port: String,
    pub tproxy_port: String,
    pub allow_lan: String,
    pub ipv6: String,
    pub unified_delay: String,
    pub log_level: String,
    pub tun_status: String,
    pub tun_stack: String,
    pub tun_device: String,
    pub tun_auto_route: String,
    pub dns: Option<DnsSummary>,
    pub controller: String,
}

/// An optional text, or a dash.
pub open spec fn or_dash(o: Option<String>) -> Seq<char> {
    match o {
        Some(s) => s@,
        None => dash(),
    }
}

fn or_dash_string(o: &Option<String>) -> (r: String)
    ensures
        r@ == or_dash(*o),
{
    match o {
        Some(s) => owned(s.as_str()),
        None => owned("\u{2014}"),
    }
}

/// The config panel's figures for a running configuration.
pub fn config_summary(c: &ConfigResponse) -> (s: ConfigSummary)
    ensures
        s.mode@ == c.mode.name_text(),
        s.mixed_port@ == shown_port(*c),
        s.socks_port@ == decimal(c.socks_port as nat),
        s.redir_port@ == decimal(c.redir_port as nat),
        s.tproxy_port@ == decimal(c.tproxy_port as nat),
        s.allow_lan@ == yes_no(c.allow_lan),
        s.ipv6@ == yes_no(c.ipv6),
        s.unified_delay@ == yes_no(c.unified_delay),
        s.log_level@ == c.log_level@,
        s.tun_status@ == (if c.tun.enable { "Active"@ } else { "Inactive"@ }),
        s.tun_stack@ == or_dash(c.tun.stack),
        s.tun_device@ == or_dash(c.tun.device),
        s.tun_auto_route@ == yes_no(c.tun.auto_route),
        s.controller@ == c.external_controller@,
        c.dns is None <==> s.dns is None,
        c.dns matches Some(d) ==> (s.dns matches Some(x) && {
            &&& x.enable@ == yes_no(d.enable)
            &&& x.listen@ == d.listen@
            &&& x.enhanced_mode@ == d.enhanced_mode@
            &&& x.first_nameserver@ == (if d.nameserver@.len() == 0 { dash() } else { d.nameserver@[0]@ })
            &&& views(x.more_nameservers@) == (if d.nameserver@.len() <= 1 { Seq::empty() } else { views(d.nameserver@).drop_first() })
        }),
{
    let dns = match &c.dns {
        Some(d) => {
            let n = d.nameserver.len();
            let first = if n == 0 { owned("\u{2014}") } else { owned(d.nameserver[0].as_str()) };
            let mut more: Vec<String> = Vec::new();
            if n > 1 {
                let mut i: usize = 1;
                assert(views(d.nameserver@).subrange(1, 1) =~= Seq::<Seq<char>>::empty());
                while i < n
                    invariant
                        n == d.nameserver@.len(),
                        1 <= i <= n,
                        views(more@) == views(d.nameserver@).subrange(1, i as int),
                    decreases n - i,
                {
                    let ghost mb = more@;
                    more.push(owned(d.nameserver[i].as_str()));
                    assert(views(more@) =~= views(mb).push(d.nameserver@[i as int]@));
                    assert(views(d.nameserver@).subrange(1, i + 1) =~= views(d.nameserver@).subrange(1, i as int).push(d.nameserver@[i as int]@));
                    i = i + 1;
                }
                assert(views(d.nameserver@).subrange(1, n as int) =~= views(d.nameserver@).drop_first());
            } else {
                assert(views(more@) =~= Seq::<Seq<char>>::empty());
            }
            Some(DnsSummary {
                enable: yes_no_string(d.enable),
                listen: owned(d.listen.as_str()),
                enhanced_mode: owned(d.enhanced_mode.as_str()),
                first_nameserver: first,
                more_nameservers: more,
            })
        },
        None => None,
    };
    ConfigSummary {
        mode: owned(c.mode.name()),
        mixed_port: shown_port_string(c),
        socks_port: decimal_string(c.socks_port as u64),
        redir_port: decimal_string(c.redir_port as u64),
        tproxy_port: decimal_string(c.tproxy_port as u64),
        allow_lan: yes_no_string(c.allow_lan),
        ipv6: yes_no_string(c.ipv6),
        unified_delay: yes_no_string(c.unified_delay),
        log_level: owned(c.log_level.as_str()),
        tun_status: if c.tun.enable { owned("Active") } else { owned("Inactive") },
        tun_stack: or_dash_string(&c.tun.stack),
        tun_device: or_dash_string(&c.tun.device),
        tun_auto_route: yes_no_string(c.tun.auto_route),
        dns,
        controller: owned(c.external_controller.as_str()),
    }
}

} // verus!
