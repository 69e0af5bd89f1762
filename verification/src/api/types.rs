//! mihomo API response and request types, as plain data. Field names follow
//! the JSON keys of the mihomo external-controller API; maps from names to
//! items are held as lists of `(name, item)` pairs.

use vstd::prelude::*;
use crate::text::owned;

verus! {

// ── Proxies ────────────────────────────────────────────────────────────────

/// Wrapper for `GET /proxies`.
#[derive(Debug)]
pub struct ProxiesResponse {
    pub proxies: Vec<(String, ProxyItem)>,
}

/// A single proxy node or group.
#[derive(Debug)]
pub struct ProxyItem {
    pub name: String,
    /// The `type` key.
    pub proxy_type: ProxyType,
    pub all: Option<Vec<String>>,
    pub now: Option<String>,
    pub history: Vec<ProxyHistoryEntry>,
    pub udp: bool,
    pub xudp: bool,
    pub tfo: bool,
    pub mp: bool,
    pub smux: bool,
    pub provider: Option<String>,
    pub alive: bool,
    pub extra: Option<ProxyExtra>,
}

/// The kind of a proxy.
#[derive(Debug)]
pub enum ProxyType {
    Shadowsocks,
    Vmess,
    Vless,
    Trojan,
    Hysteria,
    Hysteria2,
    Tuic,
    Wireguard,
    Snell,
    Http,
    Socks5,
    Relay,
    UrlTest,
    Fallback,
    LoadBalance,
    Selector,
    Direct,
    Reject,
    Compatible,
    Pass,
    Dns,
    Group,
    /// Catch-all for any new / unknown types.
    Unknown(String),
}

impl Default for ProxyType {
    fn default() -> (r: Self)
        ensures
            r matches ProxyType::Unknown(s) && s@ == "Unknown"@,
    {
        ProxyType::Unknown(owned("Unknown"))
    }
}

/// A single delay-history sample for a proxy node.
#[derive(Debug)]
pub struct ProxyHistoryEntry {
    pub time: String,
    pub delay: u64,
}

/// Extra metadata attached to proxy items (varies by type).
#[derive(Debug)]
pub struct ProxyExtra {
    pub uploaded: u64,
    pub downloaded: u64,
    pub upload: u64,
    pub download: u64,
    pub total: u64,
}

/// Response for `GET /proxies/:name/delay`.
#[derive(Debug)]
pub struct ProxyDelayResponse {
    pub delay: u64,
}

/// Request body for `PUT /proxies/:name` (switch selector).
#[derive(Debug)]
pub struct SwitchProxyRequest {
    pub name: String,
}

/// Query params for `GET /proxies/:name/delay`.
#[derive(Debug)]
pub struct ProxyDelayQuery {
    pub url: String,
    pub timeout: u64,
}

// ── Connections ────────────────────────────────────────────────────────────

/// Wrapper for `GET /connections`.
#[derive(Debug)]
pub struct ConnectionsResponse {
    pub download_total: u64,
    pub upload_total: u64,
    pub connections: Option<Vec<ConnectionItem>>,
    pub memory: u64,
}

/// A single active connection.
#[derive(Debug)]
pub struct ConnectionItem {
    pub id: String,
    pub metadata: ConnectionMetadata,
    pub upload: u64,
    pub download: u64,
    pub start: String,
    pub chains: Vec<String>,
    pub rule: String,
    pub rule_payload: String,
    /// The `type` key (e.g. "TCP", "UDP").
    pub conn_type: String,
    pub host: String,
    pub process: Option<String>,
    pub process_path: Option<String>,
    pub dl_speed: u64,
    pub ul_speed: u64,
}

/// Connection metadata.
#[derive(Debug)]
pub struct ConnectionMetadata {
    pub network: String,
    /// The `type` key.
    pub conn_type: String,
    pub source_ip: String,
    pub destination_ip: String,
    pub source_port: String,
    pub destination_port: String,
    pub host: String,
    pub dns_mode: String,
    pub process: Option<String>,
    pub process_path: Option<String>,
    pub uid: Option<u32>,
}

// ── Rules ──────────────────────────────────────────────────────────────────

/// Wrapper for `GET /rules`.
#[derive(Debug)]
pub struct RulesResponse {
    pub rules: Vec<RuleItem>,
}

/// A single rule entry.
#[derive(Debug)]
pub struct RuleItem {
    pub rule_type: String,
    pub payload: String,
    pub proxy: String,
    pub size: Option<i64>,
}

// ── Providers ──────────────────────────────────────────────────────────────

/// Wrapper for `GET /providers/proxies`.
#[derive(Debug)]
pub struct ProxyProvidersResponse {
    pub providers: Vec<(String, ProxyProviderItem)>,
}

/// A proxy provider entry.
#[derive(Debug)]
pub struct ProxyProviderItem {
    pub name: String,
    pub provider_type: String,
    pub proxies: Vec<ProxyItem>,
    pub vehicle_type: String,
    pub sub_info: Option<ProviderSubInfo>,
    pub subscription_info: Option<ProviderSubInfo>,
    pub updated: String,
    pub expected_status: Option<String>,
}

/// Subscription info (remaining traffic / expiry).
#[derive(Debug, Clone, Copy)]
pub struct ProviderSubInfo {
    pub upload: u64,
    pub download: u64,
    pub total: u64,
    pub expire: Option<u64>,
}

/// Request body for `PUT /providers/proxies/:name`.
#[derive(Debug)]
pub struct UpdateProxyProviderRequest {
    pub path: Option<String>,
}

/// Wrapper for `GET /providers/rules`.
#[derive(Debug)]
pub struct RuleProvidersResponse {
    pub providers: Vec<(String, RuleProviderItem)>,
}

/// A rule provider entry.
#[derive(Debug)]
pub struct RuleProviderItem {
    pub name: String,
    pub provider_type: String,
    pub behavior: String,
    pub rule_count: i64,
    pub vehicle_type: String,
    pub updated: String,
}

// ── Configs ────────────────────────────────────────────────────────────────

/// Response for `GET /configs`.
#[derive(Debug)]
pub struct ConfigResponse {
    pub port: u16,
    pub socks_port: u16,
    pub mixed_port: u16,
    pub redir_port: u16,
    pub tproxy_port: u16,
    pub mitm_port: Option<u16>,
    pub allow_lan: bool,
    pub bind_address: String,
    pub log_level: String,
    pub ipv6: bool,
    pub mode: ClashMode,
    pub unified_delay: bool,
    pub tun: TunConfig,
    pub sniffer: Option<SnifferConfig>,
    pub dns: Option<DnsConfig>,
    pub geo_x_url: Option<GeoXUrl>,
    pub external_controller: String,
    pub external_ui: Option<String>,
    pub secret: String,
    pub interface_name: Option<String>,
}

/// Clash running mode.
#[derive(Debug, Clone, Copy, PartialEq, Eq, Structural)]
pub enum ClashMode {
    Rule,
    Global,
    Direct,
}

impl Default for ClashMode {
    fn default() -> (r: Self)
        ensures
            r == ClashMode::Rule,
    {
        ClashMode::Rule
    }
}

impl ClashMode {
    /// The mode after this one: `Rule -> Global -> Direct -> Rule`.
    pub open spec fn next_mode(self) -> ClashMode {
        match self {
            ClashMode::Rule => ClashMode::Global,
            ClashMode::Global => ClashMode::Direct,
            ClashMode::Direct => ClashMode::Rule,
        }
    }

    /// The variant's name (its `Debug`).
    pub open spec fn name_text(self) -> Seq<char> {
        match self {
            ClashMode::Rule => "Rule"@,
            ClashMode::Global => "Global"@,
            ClashMode::Direct => "Direct"@,
        }
    }

    /// The variant's name (its `Debug`).
    pub fn name(self) -> (r: &'static str)
        ensures
            r@ == self.name_text(),
    {
        match self {
            ClashMode::Rule => "Rule",
            ClashMode::Global => "Global",
            ClashMode::Direct => "Direct",
        }
    }

    /// The lowercase name used on the wire.
    pub fn wire_name(self) -> (r: &'static str)
        ensures
            r@ == (match self {
                ClashMode::Rule => "rule"@,
                ClashMode::Global => "global"@,
                ClashMode::Direct => "direct"@,
            }),
    {
        match self {
            ClashMode::Rule => "rule",
            ClashMode::Global => "global",
            ClashMode::Direct => "direct",
        }
    }
}

/// TUN configuration.
#[derive(Debug)]
pub struct TunConfig {
    pub enable: bool,
    pub device: Option<String>,
    pub stack: Option<String>,
    pub dns_hijack: Vec<String>,
    pub auto_route: bool,
    pub auto_detect_interface: bool,
}

impl Default for TunConfig {
    fn default() -> (r: Self)
        ensures
            !r.enable && r.device is None && r.stack is None && r.dns_hijack@.len() == 0
                && !r.auto_route && !r.auto_detect_interface,
    {
        TunConfig {
            enable: false,
            device: None,
            stack: None,
            dns_hijack: Vec::new(),
            auto_route: false,
            auto_detect_interface: false,
        }
    }
}

/// Sniffer configuration.
#[derive(Debug)]
pub struct SnifferConfig {
    pub sniffing: bool,
    pub sniff: Vec<(String, bool)>,
}

/// DNS configuration (simplified).
#[derive(Debug)]
pub struct DnsConfig {
    pub enable: bool,
    pub listen: String,
    pub enhanced_mode: String,
    pub nameserver: Vec<String>,
    pub fallback: Vec<String>,
}

/// Custom GeoIP / GeoSite download URLs.
#[derive(Debug)]
pub struct GeoXUrl {
    pub geo_ip: Option<String>,
    pub geo_site: Option<String>,
    pub mmdb: Option<String>,
    pub asn: Option<String>,
}

/// Request body for `PATCH /configs`.
#[derive(Debug)]
pub struct PatchConfigRequest {
    pub mode: Option<ClashMode>,
    pub log_level: Option<String>,
    pub allow_lan: Option<bool>,
    pub ipv6: Option<bool>,
    pub unified_delay: Option<bool>,
    pub tun: Option<TunConfig>,
    pub dns: Option<DnsConfig>,
    pub sniffer: Option<SnifferConfig>,
}

impl Default for PatchConfigRequest {
    fn default() -> (r: Self)
        ensures
            r.mode is None && r.log_level is None && r.allow_lan is None && r.ipv6 is None
                && r.unified_delay is None && r.tun is None && r.dns is None && r.sniffer is None,
    {
        PatchConfigRequest {
            mode: None,
            log_level: None,
            allow_lan: None,
            ipv6: None,
            unified_delay: None,
            tun: None,
            dns: None,
            sniffer: None,
        }
    }
}

/// Request body for `PUT /configs` (reload from path).
#[derive(Debug)]
pub struct ReloadConfigRequest {
    pub path: String,
    pub payload: Option<String>,
}

// ── Version and streams ────────────────────────────────────────────────────

/// Response for `GET /version`.
#[derive(Debug)]
pub struct VersionResponse {
    pub version: String,
    pub meta: Option<bool>,
}

/// Traffic sample pushed on `/traffic`.
#[derive(Debug, Clone, Copy)]
pub struct TrafficData {
    pub up: u64,
    pub down: u64,
}

/// Memory usage sample pushed on `/memory`.
#[derive(Debug, Clone, Copy)]
pub struct MemoryData {
    pub inuse: u64,
    pub oslimit: u64,
}

/// A single log entry pushed on `/logs`.
#[derive(Debug)]
pub struct LogEntry {
    /// The `type` key.
    pub log_type: String,
    pub payload: String,
}

/// Snapshot combining connection list with aggregate bandwidth.
#[derive(Debug)]
pub struct ConnectionsSnapshot {
    pub upload_total: u64,
    pub download_total: u64,
    pub active: Vec<ConnectionItem>,
}

} // verus!
