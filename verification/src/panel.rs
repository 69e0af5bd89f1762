//! Panel models for the overview workspace: listener ports, traffic,
//! proxy groups, external resources, connections and log lines, and how
//! the controller's responses turn into them.

use vstd::prelude::*;
use crate::runtime::subscription::Timestamp;
use crate::runtime::MihomoMode;
use crate::error::{AppError, ErrorView};
use crate::sorting::seq_lt;
use crate::text::{chars_of, concat, owned, push_range, str_starts_with, starts_with};

verus! {

/// The listener ports of the running core.
#[derive(Debug, Clone, Copy, PartialEq, Eq, Structural)]
pub struct ListenerPorts {
    pub mixed: u16,
    pub socks: u16,
    pub http: u16,
    pub redir: Option<u16>,
    pub tproxy: Option<u16>,
    pub external_controller: u16,
}

/// Traffic figures of the running core.
#[derive(Debug, Clone, Copy, PartialEq, Eq, Structural)]
pub struct TrafficStats {
    pub upload_bps: u64,
    pub download_bps: u64,
    pub memory_mb: u64,
    pub active_connections: usize,
}

/// A node of a proxy group.
#[derive(Debug)]
pub struct ProxyNode {
    pub name: String,
    pub delay_ms: Option<u16>,
    pub alive: bool,
}

/// A proxy group with its nodes and the selected one.
#[derive(Debug)]
pub struct ProxyGroup {
    pub name: String,
    pub selected: usize,
    pub proxies: Vec<ProxyNode>,
}

/// A provider of proxies or rules.
#[derive(Debug)]
pub struct ExternalResource {
    pub name: String,
    pub url: String,
    pub kind: ResourceKind,
    pub updated_at: Option<String>,
}

/// Which kind of provider a resource is.
#[derive(Debug, Clone, Copy, PartialEq, Eq, Structural)]
pub enum ResourceKind {
    ProxyProvider,
    RuleProvider,
}

/// An active connection.
#[derive(Debug)]
pub struct ConnectionInfo {
    pub id: String,
    pub host: String,
    pub rule: String,
    pub chain: String,
    pub upload: u64,
    pub download: u64,
}

/// A line of the panel's log.
#[derive(Debug)]
pub struct LogEntry {
    pub level: String,
    pub message: String,
    pub time: Timestamp,
}

/// Everything the panel shows.
#[derive(Debug)]
pub struct PanelSnapshot {
    pub ports: ListenerPorts,
    pub traffic: TrafficStats,
    pub groups: Vec<ProxyGroup>,
    pub resources: Vec<ExternalResource>,
    pub connections: Vec<ConnectionInfo>,
    pub logs: Vec<LogEntry>,
}

/// A log line at a time.
pub fn log(level: &str, message: String, time: Timestamp) -> (e: LogEntry)
    ensures
        e.level@ == level@,
        e.message@ == message@,
        e.time == time,
{
    LogEntry { level: owned(level), message, time }
}

/// A field of a log message read as JSON: absent, a string, or some
/// other value.
#[derive(Debug)]
pub enum MessageField {
    Missing,
    Text(String),
    Other,
}

/// The fields of a log message that parsed as a JSON value.
#[derive(Debug)]
pub struct LogMessageFields {
    pub log_type: MessageField,
    pub level: MessageField,
    pub payload: MessageField,
    pub message: MessageField,
}

/// The first of two fields that is present, as text when it is a string.
pub open spec fn first_present(a: MessageField, b: MessageField) -> Option<Seq<char>> {
    match a {
        MessageField::Text(s) => Some(s@),
        MessageField::Other => None,
        MessageField::Missing => match b {
            MessageField::Text(s) => Some(s@),
            _ => None,
        },
    }
}

fn first_present_text(a: &MessageField, b: &MessageField) -> (r: Option<String>)
    ensures
        (match r {
            Some(s) => Some(s@),
            None => None,
        }) == first_present(*a, *b),
{
    match a {
        MessageField::Text(s) => Some(owned(s.as_str())),
        MessageField::Other => None,
        MessageField::Missing => match b {
            MessageField::Text(s) => Some(owned(s.as_str())),
            _ => None,
        },
    }
}

/// The entry of a message from the log stream. A message that parsed as
/// JSON takes its level from `type`, else `level` (`info` when the field
/// found is not a string or neither is there), and its text from
/// `payload`, else `message` (the raw text likewise); a message that did
/// not parse is an `info` entry of the raw text.
pub fn log_from_message(text: &str, fields: Option<LogMessageFields>, time: Timestamp) -> (e: LogEntry)
    ensures
        e.time == time,
        fields is None ==> e.level@ == "info"@ && e.message@ == text@,
        fields matches Some(f) ==> {
            &&& e.level@ == (match first_present(f.log_type, f.level) {
                Some(l) => l,
                None => "info"@,
            })
            &&& e.message@ == (match first_present(f.payload, f.message) {
                Some(m) => m,
                None => text@,
            })
        },
{
    match fields {
        None => log("info", owned(text), time),
        Some(f) => {
            let level = match first_present_text(&f.log_type, &f.level) {
                Some(l) => l,
                None => owned("info"),
            };
            let message = match first_present_text(&f.payload, &f.message) {
                Some(m) => m,
                None => owned(text),
            };
            LogEntry { level, message, time }
        },
    }
}

impl PanelSnapshot {
    /// The snapshot before anything is loaded: no ports, traffic, groups,
    /// resources or connections, and one log line saying the workspace is
    /// ready.
    pub fn empty(now: Timestamp) -> (s: Self)
        ensures
            s.ports == (ListenerPorts { mixed: 0, socks: 0, http: 0, redir: None, tproxy: None, external_controller: 0 }),
            s.traffic == (TrafficStats { upload_bps: 0, download_bps: 0, memory_mb: 0, active_connections: 0 }),
            s.groups@.len() == 0,
            s.resources@.len() == 0,
            s.connections@.len() == 0,
            s.logs@.len() == 1,
            s.logs@[0].level@ == "info"@,
            s.logs@[0].message@ == "mihomo-tui workspace initialized"@,
            s.logs@[0].time == now,
    {
        let mut logs: Vec<LogEntry> = Vec::new();
        logs.push(log("info", owned("mihomo-tui workspace initialized"), now));
        PanelSnapshot {
            ports: ListenerPorts { mixed: 0, socks: 0, http: 0, redir: None, tproxy: None, external_controller: 0 },
            traffic: TrafficStats { upload_bps: 0, download_bps: 0, memory_mb: 0, active_connections: 0 },
            groups: Vec::new(),
            resources: Vec::new(),
            connections: Vec::new(),
            logs,
        }
    }
}

// ── Ports ──────────────────────────────────────────────────────────────────

/// Whether a character is an ASCII digit.
pub open spec fn is_digit(c: char) -> bool {
    '0' <= c && c <= '9'
}

/// The value of a string of decimal digits.
pub open spec fn digits_value(s: Seq<char>) -> nat
    decreases s.len(),
{
    if s.len() == 0 {
        0
    } else {
        digits_value(s.drop_last()) * 10 + ((s.last() as u32 - 48) as nat)
    }
}

/// `str::parse::<u16>`: an optional `+`, then one or more ASCII digits
/// whose value fits in 16 bits.
pub open spec fn parse_u16_spec(s: Seq<char>) -> Option<u16> {
    let digits = unsigned_digits(s);
    if digits.len() == 0 || !all_digits(digits) {
        None
    } else if digits_value(digits) > 65535 {
        None
    } else {
        Some(digits_value(digits) as u16)
    }
}

/// The text after an optional leading `+`.
pub open spec fn unsigned_digits(s: Seq<char>) -> Seq<char> {
    if s.len() > 0 && s[0] == '+' { s.drop_first() } else { s }
}

/// Every character is an ASCII digit.
pub open spec fn all_digits(s: Seq<char>) -> bool {
    forall|i: int| 0 <= i < s.len() ==> is_digit(#[trigger] s[i])
}

/// The text after the last `:`, if there is one (`rsplit_once(':')`).
pub open spec fn after_last_colon(s: Seq<char>) -> Option<Seq<char>> {
    if exists|i: int| 0 <= i < s.len() && s[i] == ':' {
        let i = choose|i: int| 0 <= i < s.len() && s[i] == ':' && forall|j: int| i < j < s.len() ==> s[j] != ':';
        Some(s.subrange(i + 1, s.len() as int))
    } else {
        None
    }
}

/// The port at the end of a `host:port` address.
pub open spec fn parse_port_spec(value: Seq<char>) -> Option<u16> {
    match after_last_colon(value) {
        Some(p) => parse_u16_spec(p),
        None => None,
    }
}

/// `str::parse::<u16>`.
pub fn parse_u16(s: &[char]) -> (r: Option<u16>)
    ensures
        r == parse_u16_spec(s@),
{
    let n = s.len();
    let start: usize = if n > 0 && s[0] == '+' { 1 } else { 0 };
    let ghost digits = unsigned_digits(s@);
    assert(digits =~= s@.subrange(start as int, n as int));
    if start == n {
        return None;
    }
    let mut value: u32 = 0;
    let mut i: usize = start;
    while i < n
        invariant
            n == s@.len(),
            start <= i <= n,
            digits == s@.subrange(start as int, n as int),
            digits == unsigned_digits(s@),
            forall|j: int| start <= j < i ==> is_digit(#[trigger] s@[j]),
            value == digits_value(s@.subrange(start as int, i as int)),
            value <= 65535,
        decreases n - i,
    {
        let c = s[i];
        if !('0' <= c && c <= '9') {
            proof {
                assert(!is_digit(digits[i - start]));
                assert(!(forall|j: int| 0 <= j < digits.len() ==> is_digit(#[trigger] digits[j])));
                assert(digits.len() > 0);
                assert(parse_u16_spec(s@) is None);
            }
            return None;
        }
        let d = (c as u32) - 48;
        assert(s@.subrange(start as int, i + 1).drop_last() =~= s@.subrange(start as int, i as int));
        if value > 6553 || (value == 6553 && d > 5) {
            proof {
                assert(value * 10 + d > 65535) by (nonlinear_arith)
                    requires
                        value > 6553 || (value == 6553 && d > 5),
                ;
                assert(digits_value(s@.subrange(start as int, i + 1)) > 65535);
                if all_digits(digits) {
                    lemma_digits_value_grows(digits, (i + 1 - start) as nat);
                    assert(digits.take((i + 1 - start) as int) =~= s@.subrange(start as int, i + 1));
                    assert(digits_value(digits) > 65535);
                }
                assert(parse_u16_spec(s@) is None);
            }
            // The remaining characters decide whether this is a number at
            // all; either way it is not a `u16`.
            return None;
        }
        assert(value * 10 + d <= 65535) by (nonlinear_arith)
            requires
                !(value > 6553 || (value == 6553 && d > 5)),
                d <= 9,
        ;
        value = value * 10 + d;
        i = i + 1;
    }
    proof {
        assert(s@.subrange(start as int, n as int) == digits);
        assert forall|j: int| 0 <= j < digits.len() implies is_digit(#[trigger] digits[j]) by {
            assert(digits[j] == s@[start + j]);
        }
    }
    Some(value as u16)
}

/// The value of a digit prefix never exceeds the value of a longer one.
proof fn lemma_digits_value_grows(s: Seq<char>, k: nat)
    requires
        k <= s.len(),
        forall|j: int| 0 <= j < s.len() ==> is_digit(#[trigger] s[j]),
    ensures
        digits_value(s.take(k as int)) <= digits_value(s),
    decreases s.len() - k,
{
    if k < s.len() {
        lemma_digits_value_grows(s, k + 1);
        assert(s.take((k + 1) as int).drop_last() =~= s.take(k as int));
        assert(is_digit(s[k as int]));
    } else {
        assert(s.take(k as int) =~= s);
    }
}

/// The port at the end of a `host:port` address.
pub fn parse_port(value: &str) -> (r: Option<u16>)
    ensures
        r == parse_port_spec(value@),
{
    let c = chars_of(value);
    let n = c.len();
    let mut i: usize = n;
    while i > 0 && c[i - 1] != ':'
        invariant
            n == c@.len(),
            c@ == value@,
            i <= n,
            forall|j: int| i <= j < n ==> value@[j] != ':',
        decreases i,
    {
        i = i - 1;
    }
    if i == 0 {
        return None;
    }
    proof {
        let k = choose|k: int| 0 <= k < value@.len() && value@[k] == ':' && forall|j: int| k < j < value@.len() ==> value@[j] != ':';
        if k < i - 1 {
            assert(value@[i - 1] == ':');
        } else if k > i - 1 {
        }
        assert(k == i - 1);
    }
    let mut rest: Vec<char> = Vec::new();
    push_range(&mut rest, c.as_slice(), i, n);
    parse_u16(rest.as_slice())
}

/// The `/configs` answer as the panel reads it.
#[derive(Debug)]
pub struct PanelConfig {
    pub mode: Option<MihomoMode>,
    pub port: Option<u16>,
    pub socks_port: Option<u16>,
    pub mixed_port: Option<u16>,
    pub redir_port: Option<u16>,
    pub tproxy_port: Option<u16>,
    pub external_controller: Option<String>,
}

/// A number, or 0 when absent.
pub open spec fn or_zero(o: Option<u16>) -> u16 {
    match o {
        Some(v) => v,
        None => 0,
    }
}

impl PanelConfig {
    /// The listener ports: absent ports are 0, the controller's port is the
    /// one at the end of its address.
    pub fn ports(&self) -> (p: ListenerPorts)
        ensures
            p.mixed == or_zero(self.mixed_port),
            p.socks == or_zero(self.socks_port),
            p.http == or_zero(self.port),
            p.redir == self.redir_port,
            p.tproxy == self.tproxy_port,
            p.external_controller == (match self.external_controller {
                Some(a) => or_zero(parse_port_spec(a@)),
                None => 0,
            }),
    {
        let external_controller = match &self.external_controller {
            Some(a) => match parse_port(a.as_str()) {
                Some(v) => v,
                None => 0,
            },
            None => 0,
        };
        ListenerPorts {
            mixed: match self.mixed_port { Some(v) => v, None => 0 },
            socks: match self.socks_port { Some(v) => v, None => 0 },
            http: match self.port { Some(v) => v, None => 0 },
            redir: self.redir_port,
            tproxy: self.tproxy_port,
            external_controller,
        }
    }

    /// The running mode, `Rule` when the answer has none.
    pub fn mode_or_rule(&self) -> (m: MihomoMode)
        ensures
            m == (match self.mode { Some(x) => x, None => MihomoMode::Rule }),
    {
        match self.mode {
            Some(x) => x,
            None => MihomoMode::Rule,
        }
    }
}

/// A delay sample of the panel's proxy answer.
#[derive(Debug, Clone, Copy, PartialEq, Eq, Structural)]
pub struct DelayHistory {
    pub delay: Option<u16>,
    pub mean_delay: Option<u16>,
}

/// A proxy of the panel's `/proxies` answer.
#[derive(Debug)]
pub struct PanelProxy {
    pub now: Option<String>,
    pub all: Vec<String>,
    pub history: Vec<DelayHistory>,
}

/// The delay of a sample: its delay, else its mean delay.
pub open spec fn sample_delay(h: DelayHistory) -> Option<u16> {
    match h.delay {
        Some(d) => Some(d),
        None => h.mean_delay,
    }
}

/// The delay shown for a node: that of the latest sample that has one.
pub open spec fn latest_delay(history: Seq<DelayHistory>) -> Option<u16>
    decreases history.len(),
{
    if history.len() == 0 {
        None
    } else {
        match sample_delay(history.last()) {
            Some(d) => Some(d),
            None => latest_delay(history.drop_last()),
        }
    }
}

/// The delay shown for a node (from its group's history).
pub fn delay_for(name: &str, history: &[DelayHistory]) -> (r: Option<u16>)
    ensures
        r == latest_delay(history@),
{
    let _ = name;
    let mut i: usize = history.len();
    assert(history@.take(i as int) =~= history@);
    while i > 0
        invariant
            i <= history@.len(),
            latest_delay(history@) == latest_delay(history@.take(i as int)),
        decreases i,
    {
        let h = history[i - 1];
        assert(history@.take(i as int).drop_last() =~= history@.take(i - 1));
        assert(history@.take(i as int).last() == h);
        let d = match h.delay {
            Some(d) => Some(d),
            None => h.mean_delay,
        };
        if d.is_some() {
            return d;
        }
        i = i - 1;
    }
    None
}

/// The first position of `n` in `all`.
pub open spec fn find_first(all: Seq<Seq<char>>, n: Seq<char>) -> Option<nat>
    decreases all.len(),
{
    if all.len() == 0 {
        None
    } else {
        match find_first(all.drop_last(), n) {
            Some(i) => Some(i),
            None => if all.last() == n { Some((all.len() - 1) as nat) } else { None },
        }
    }
}

/// The position of the current choice among the members, or 0.
pub open spec fn selected_index(all: Seq<Seq<char>>, now: Option<Seq<char>>) -> nat {
    match now {
        Some(n) => match find_first(all, n) {
            Some(i) => i,
            None => 0,
        },
        None => 0,
    }
}

/// The position of the current choice among the members, or 0.
fn position_of(all: &Vec<String>, now: Option<String>) -> (r: usize)
    ensures
        r == selected_index(crate::app::views(all@), match now { Some(n) => Some(n@), None => None }),
{
    match now {
        None => 0,
        Some(n) => {
            let ghost v = crate::app::views(all@);
            let len = all.len();
            let mut i: usize = 0;
            assert(v.take(0) =~= Seq::<Seq<char>>::empty());
            while i < len
                invariant
                    len == all@.len(),
                    v == crate::app::views(all@),
                    i <= len,
                    find_first(v.take(i as int), n@) is None,
                    now matches Some(x) && x@ == n@,
                decreases len - i,
            {
                assert(v.take(i + 1).drop_last() =~= v.take(i as int));
                assert(v[i as int] == all@[i as int]@);
                if crate::text::str_eq(all[i].as_str(), n.as_str()) {
                    proof {
                        assert(v.take(i + 1).last() == n@);
                        assert(find_first(v.take(i + 1), n@) == Some(i as nat));
                        lemma_find_first_prefix(v, n@, (i + 1) as nat);
                        assert(find_first(v, n@) == Some(i as nat));
                        assert(selected_index(v, Some(n@)) == i);
                    }
                    return i;
                }
                i = i + 1;
            }
            assert(v.take(len as int) =~= v);
            0
        },
    }
}

/// A first position found in a prefix is the first position in the whole.
proof fn lemma_find_first_prefix(all: Seq<Seq<char>>, n: Seq<char>, k: nat)
    requires
        k <= all.len(),
        find_first(all.take(k as int), n) is Some,
    ensures
        find_first(all, n) == find_first(all.take(k as int), n),
    decreases all.len() - k,
{
    if k < all.len() {
        assert(all.take((k + 1) as int).drop_last() =~= all.take(k as int));
        lemma_find_first_prefix(all, n, k + 1);
    } else {
        assert(all.take(k as int) =~= all);
    }
}

/// The group a proxy with members makes: its members as nodes, alive, each
/// with the delay from the group's history, and the current choice
/// selected.
pub open spec fn group_of(name: Seq<char>, p: PanelProxy) -> (Seq<char>, nat, Seq<(Seq<char>, Option<u16>, bool)>) {
    (
        name,
        selected_index(crate::app::views(p.all@), match p.now { Some(n) => Some(n@), None => None }),
        crate::app::views(p.all@).map_values(|m: Seq<char>| (m, latest_delay(p.history@), true)),
    )
}

/// A group as plain values.
pub open spec fn group_view(g: ProxyGroup) -> (Seq<char>, nat, Seq<(Seq<char>, Option<u16>, bool)>) {
    (g.name@, g.selected as nat, g.proxies@.map_values(|n: ProxyNode| (n.name@, n.delay_ms, n.alive)))
}

/// The groups of a proxy list: the proxies with members, in order.
pub open spec fn groups_of(proxies: Seq<(String, PanelProxy)>) -> Seq<(Seq<char>, nat, Seq<(Seq<char>, Option<u16>, bool)>)>
    decreases proxies.len(),
{
    if proxies.len() == 0 {
        seq![]
    } else if proxies.last().1.all@.len() == 0 {
        groups_of(proxies.drop_last())
    } else {
        groups_of(proxies.drop_last()).push(group_of(proxies.last().0@, proxies.last().1))
    }
}

/// Whether the entries are in strictly ascending name order, as the
/// controller's proxy map is read.
pub open spec fn names_ascending<T>(entries: Seq<(String, T)>) -> bool {
    forall|i: int, j: int| 0 <= i < j < entries.len() ==> seq_lt(#[trigger] entries[i].0@, #[trigger] entries[j].0@)
}

/// The groups of the panel's `/proxies` answer, read in name order: the
/// proxies with members, in that order.
pub fn into_groups(proxies: Vec<(String, PanelProxy)>) -> (r: Vec<ProxyGroup>)
    requires
        names_ascending(proxies@),
    ensures
        r@.map_values(|g: ProxyGroup| group_view(g)) == groups_of(proxies@),
{
    let ghost orig = proxies@;
    let n = proxies.len();
    let mut rest = crate::sorting::reversed(proxies);
    let mut out: Vec<ProxyGroup> = Vec::new();
    let mut k: usize = 0;
    assert(orig.skip(0) =~= orig);
    assert(orig.take(0) =~= Seq::<(String, PanelProxy)>::empty());
    assert(out@.map_values(|g: ProxyGroup| group_view(g)) =~= Seq::<(Seq<char>, nat, Seq<(Seq<char>, Option<u16>, bool)>)>::empty());
    while k < n
        invariant
            n == orig.len(),
            k <= n,
            rest@ == orig.skip(k as int).reverse(),
            out@.map_values(|g: ProxyGroup| group_view(g)) == groups_of(orig.take(k as int)),
        decreases n - k,
    {
        let ghost rv = rest@;
        let (name, proxy) = rest.pop().unwrap();
        proof {
            assert(rv.last() == orig[k as int]);
            assert(rest@ =~= orig.skip(k + 1).reverse());
            assert(orig.take(k + 1).drop_last() =~= orig.take(k as int));
            assert(orig.take(k + 1).last() == (name, proxy));
        }
        if proxy.all.len() > 0 {
            let ghost pv = proxy;
            let selected = position_of(&proxy.all, proxy.now);
            let delay = delay_for(name.as_str(), proxy.history.as_slice());
            let mut nodes: Vec<ProxyNode> = Vec::new();
            let m = proxy.all.len();
            let mut j: usize = 0;
            while j < m
                invariant
                    m == proxy.all@.len(),
                    j <= m,
                    delay == latest_delay(proxy.history@),
                    nodes@.map_values(|x: ProxyNode| (x.name@, x.delay_ms, x.alive))
                        == crate::app::views(proxy.all@).take(j as int).map_values(|mm: Seq<char>| (mm, latest_delay(proxy.history@), true)),
                decreases m - j,
            {
                let ghost nb = nodes@;
                let node = ProxyNode { name: owned(proxy.all[j].as_str()), delay_ms: delay, alive: true };
                nodes.push(node);
                proof {
                    assert(nodes@.map_values(|x: ProxyNode| (x.name@, x.delay_ms, x.alive))
                        =~= nb.map_values(|x: ProxyNode| (x.name@, x.delay_ms, x.alive)).push((proxy.all@[j as int]@, delay, true)));
                    assert(crate::app::views(proxy.all@).take(j + 1).map_values(|mm: Seq<char>| (mm, latest_delay(proxy.history@), true))
                        =~= crate::app::views(proxy.all@).take(j as int).map_values(|mm: Seq<char>| (mm, latest_delay(proxy.history@), true)).push(
                        (proxy.all@[j as int]@, latest_delay(proxy.history@), true)));
                }
                j = j + 1;
            }
            assert(crate::app::views(proxy.all@).take(m as int) =~= crate::app::views(proxy.all@));
            let g = ProxyGroup { name, selected, proxies: nodes };
            let ghost ob = out@;
            out.push(g);
            proof {
                assert(group_view(g) == group_of(orig[k as int].0@, orig[k as int].1));
                assert(out@.map_values(|g: ProxyGroup| group_view(g)) =~= ob.map_values(|g: ProxyGroup| group_view(g)).push(group_view(g)));
            }
        }
        k = k + 1;
    }
    assert(orig.take(n as int) =~= orig);
    out
}

/// A provider of the panel's `/providers/...` answers.
#[derive(Debug)]
pub struct PanelProvider {
    pub provider_type: Option<String>,
    pub vehicle_type: Option<String>,
    pub updated_at: Option<String>,
}

/// The text of an optional string, or a default.
pub open spec fn opt_text_or(o: Option<String>, d: Seq<char>) -> Seq<char> {
    match o {
        Some(s) => s@,
        None => d,
    }
}

/// The resource a provider makes: its name, its vehicle type (else its
/// type, else the kind's default), its kind and its update time.
pub open spec fn resource_of(name: Seq<char>, p: PanelProvider, kind: ResourceKind) -> (Seq<char>, Seq<char>, ResourceKind, Option<Seq<char>>) {
    (
        name,
        match p.vehicle_type {
            Some(v) => v@,
            None => opt_text_or(p.provider_type, if kind == ResourceKind::ProxyProvider { "proxy-provider"@ } else { "rule-provider"@ }),
        },
        kind,
        match p.updated_at { Some(u) => Some(u@), None => None },
    )
}

/// A resource as plain values.
pub open spec fn resource_view(r: ExternalResource) -> (Seq<char>, Seq<char>, ResourceKind, Option<Seq<char>>) {
    (r.name@, r.url@, r.kind, match r.updated_at { Some(u) => Some(u@), None => None })
}

/// The resources of a provider list, in order.
pub fn into_resources(providers: Vec<(String, PanelProvider)>, kind: ResourceKind) -> (r: Vec<ExternalResource>)
    ensures
        r@.map_values(|x: ExternalResource| resource_view(x))
            == providers@.map_values(|e: (String, PanelProvider)| resource_of(e.0@, e.1, kind)),
{
    let ghost orig = providers@;
    let n = providers.len();
    let mut rest = crate::sorting::reversed(providers);
    let mut out: Vec<ExternalResource> = Vec::new();
    let mut k: usize = 0;
    assert(orig.skip(0) =~= orig);
    while k < n
        invariant
            n == orig.len(),
            k <= n,
            rest@ == orig.skip(k as int).reverse(),
            out@.map_values(|x: ExternalResource| resource_view(x))
                == orig.take(k as int).map_values(|e: (String, PanelProvider)| resource_of(e.0@, e.1, kind)),
        decreases n - k,
    {
        let ghost rv = rest@;
        let (name, p) = rest.pop().unwrap();
        proof {
            assert(rv.last() == orig[k as int]);
            assert(rest@ =~= orig.skip(k + 1).reverse());
        }
        let ghost pv = p;
        let url = match p.vehicle_type {
            Some(v) => v,
            None => match p.provider_type {
                Some(t) => t,
                None => if kind == ResourceKind::ProxyProvider { owned("proxy-provider") } else { owned("rule-provider") },
            },
        };
        let res = ExternalResource { name, url, kind, updated_at: p.updated_at };
        let ghost ob = out@;
        out.push(res);
        proof {
            assert(resource_view(res) == resource_of(orig[k as int].0@, orig[k as int].1, kind));
            assert(out@.map_values(|x: ExternalResource| resource_view(x)) =~= ob.map_values(|x: ExternalResource| resource_view(x)).push(resource_view(res)));
            assert(orig.take(k + 1).map_values(|e: (String, PanelProvider)| resource_of(e.0@, e.1, kind))
                =~= orig.take(k as int).map_values(|e: (String, PanelProvider)| resource_of(e.0@, e.1, kind)).push(
                resource_of(orig[k as int].0@, orig[k as int].1, kind)));
        }
        k = k + 1;
    }
    assert(orig.take(n as int) =~= orig);
    out
}

/// Connection metadata of the panel's `/connections` answer.
#[derive(Debug)]
pub struct PanelConnectionMetadata {
    pub host: Option<String>,
    pub destination_ip: Option<String>,
}

/// A connection of the panel's `/connections` answer.
#[derive(Debug)]
pub struct PanelConnection {
    pub id: String,
    pub metadata: Option<PanelConnectionMetadata>,
    pub chains: Vec<String>,
    pub rule: Option<String>,
    pub upload: u64,
    pub download: u64,
}

/// The host shown for a connection: its host, else its destination IP,
/// else `unknown`.
pub open spec fn connection_host(m: Option<PanelConnectionMetadata>) -> Seq<char> {
    match m {
        Some(md) => match md.host {
            Some(h) => h@,
            None => opt_text_or(md.destination_ip, "unknown"@),
        },
        None => "unknown"@,
    }
}

/// A connection as the panel shows it.
pub open spec fn connection_of(c: PanelConnection) -> (Seq<char>, Seq<char>, Seq<char>, Seq<char>, u64, u64) {
    (
        c.id@,
        connection_host(c.metadata),
        opt_text_or(c.rule, "unknown"@),
        crate::text::join(crate::app::views(c.chains@), " -> "@),
        c.upload,
        c.download,
    )
}

/// A connection info as plain values.
pub open spec fn connection_view(c: ConnectionInfo) -> (Seq<char>, Seq<char>, Seq<char>, Seq<char>, u64, u64) {
    (c.id@, c.host@, c.rule@, c.chain@, c.upload, c.download)
}

/// The chain joined with ` -> `.
fn join_chain(chains: &Vec<String>) -> (r: String)
    ensures
        r@ == crate::text::join(crate::app::views(chains@), " -> "@),
{
    crate::text::join_strings(chains, " -> ")
}

/// The connections of the panel's `/connections` answer, in order.
pub fn into_connections(conns: Vec<PanelConnection>) -> (r: Vec<ConnectionInfo>)
    ensures
        r@.map_values(|x: ConnectionInfo| connection_view(x)) == conns@.map_values(|c: PanelConnection| connection_of(c)),
{
    let ghost orig = conns@;
    let n = conns.len();
    let mut rest = crate::sorting::reversed(conns);
    let mut out: Vec<ConnectionInfo> = Vec::new();
    let mut k: usize = 0;
    assert(orig.skip(0) =~= orig);
    while k < n
        invariant
            n == orig.len(),
            k <= n,
            rest@ == orig.skip(k as int).reverse(),
            out@.map_values(|x: ConnectionInfo| connection_view(x)) == orig.take(k as int).map_values(|c: PanelConnection| connection_of(c)),
        decreases n - k,
    {
        let ghost rv = rest@;
        let c = rest.pop().unwrap();
        proof {
            assert(rv.last() == orig[k as int]);
            assert(rest@ =~= orig.skip(k + 1).reverse());
        }
        let ghost cv = c;
        let chain = join_chain(&c.chains);
        let host = match c.metadata {
            Some(md) => match md.host {
                Some(h) => h,
                None => match md.destination_ip {
                    Some(d) => d,
                    None => owned("unknown"),
                },
            },
            None => owned("unknown"),
        };
        let rule = match c.rule {
            Some(r) => r,
            None => owned("unknown"),
        };
        let info = ConnectionInfo { id: c.id, host, rule, chain, upload: c.upload, download: c.download };
        let ghost ob = out@;
        out.push(info);
        proof {
            assert(connection_view(info) == connection_of(cv));
            assert(out@.map_values(|x: ConnectionInfo| connection_view(x)) =~= ob.map_values(|x: ConnectionInfo| connection_view(x)).push(connection_view(info)));
            assert(orig.take(k + 1).map_values(|c: PanelConnection| connection_of(c))
                =~= orig.take(k as int).map_values(|c: PanelConnection| connection_of(c)).push(connection_of(orig[k as int])));
        }
        k = k + 1;
    }
    assert(orig.take(n as int) =~= orig);
    out
}

/// The memory in use from the `/memory` answer, which names it `inuse` or
/// `inUse`; 0 when neither is there.
pub fn memory_in_use(inuse: Option<u64>, in_use_camel: Option<u64>) -> (r: u64)
    ensures
        r == (match inuse { Some(v) => v, None => match in_use_camel { Some(v) => v, None => 0 } }),
{
    match inuse {
        Some(v) => v,
        None => match in_use_camel {
            Some(v) => v,
            None => 0,
        },
    }
}

/// The version from the `/version` answer, `unknown` when it has none.
pub fn version_or_unknown(version: Option<String>) -> (r: String)
    ensures
        r@ == opt_text_or(version, "unknown"@),
{
    match version {
        Some(v) => v,
        None => owned("unknown"),
    }
}

/// The value a listener port is patched with: the external controller
/// takes a local address, the other listeners a number.
#[derive(Debug)]
pub enum PortValue {
    Address(String),
    Number(u16),
}

/// The value to patch a listener with.
pub fn port_patch_value(key: &str, port: u16) -> (v: PortValue)
    ensures
        key@ == "external-controller"@ ==> (v matches PortValue::Address(a) && a@ == "127.0.0.1:"@ + crate::text::decimal(port as nat)),
        key@ != "external-controller"@ ==> v == PortValue::Number(port),
{
    if crate::text::str_eq(key, "external-controller") {
        PortValue::Address(concat("127.0.0.1:", crate::text::decimal_string(port as u64).as_str()))
    } else {
        PortValue::Number(port)
    }
}

/// A controller address with a scheme: as given when it starts with
/// `http://` or `https://`, else with `http://` in front.
pub fn with_scheme(input: &str) -> (r: String)
    ensures
        (starts_with(input@, "http://"@) || starts_with(input@, "https://"@)) ==> r@ == input@,
        !(starts_with(input@, "http://"@) || starts_with(input@, "https://"@)) ==> r@ == "http://"@ + input@,
{
    if str_starts_with(input, "http://") || str_starts_with(input, "https://") {
        owned(input)
    } else {
        concat("http://", input)
    }
}

/// Assemble the panel snapshot from the answers: ports from the config,
/// traffic from the connection totals and memory (in MB), groups,
/// resources (proxy providers then rule providers, those that could be
/// listed), connections, and the log lines with a last line naming the
/// controller.
pub fn assemble_snapshot(
    config: &PanelConfig,
    groups: Vec<ProxyGroup>,
    proxy_resources: Option<Vec<ExternalResource>>,
    rule_resources: Option<Vec<ExternalResource>>,
    upload_total: u64,
    download_total: u64,
    connections: Vec<ConnectionInfo>,
    memory: Option<u64>,
    logs: Option<Vec<LogEntry>>,
    base_url: &str,
    now: Timestamp,
) -> (s: PanelSnapshot)
    ensures
        s.ports == config.ports_spec(),
        s.traffic == (TrafficStats {
            upload_bps: upload_total,
            download_bps: download_total,
            memory_mb: (match memory { Some(m) => m, None => 0 }) / 1024,
            active_connections: connections@.len() as usize,
        }),
        s.groups@ == groups@,
        s.resources@ == (match proxy_resources { Some(r) => r@, None => Seq::empty() })
            + (match rule_resources { Some(r) => r@, None => Seq::empty() }),
        s.connections@ == connections@,
        s.logs@.len() == (match logs { Some(l) => l@.len(), None => 0 }) + 1,
        s.logs@.drop_last() == (match logs { Some(l) => l@, None => Seq::empty() }),
        s.logs@.last().level@ == "info"@,
        s.logs@.last().message@ == "connected to "@ + base_url@,
        s.logs@.last().time == now,
{
    let ports = config.ports();
    let mut resources: Vec<ExternalResource> = Vec::new();
    if let Some(mut r) = proxy_resources {
        resources.append(&mut r);
    }
    if let Some(mut r) = rule_resources {
        resources.append(&mut r);
    }
    let mut entries: Vec<LogEntry> = match logs {
        Some(l) => l,
        None => Vec::new(),
    };
    entries.push(log("info", concat("connected to ", base_url), now));
    let active = connections.len();
    let mem = match memory {
        Some(m) => m,
        None => 0,
    };
    PanelSnapshot {
        ports,
        traffic: TrafficStats {
            upload_bps: upload_total,
            download_bps: download_total,
            memory_mb: mem / 1024,
            active_connections: active,
        },
        groups,
        resources,
        connections,
        logs: entries,
    }
}

/// The panel's `/connections` answer: the totals and the open connections.
#[derive(Debug)]
pub struct PanelConnections {
    pub upload_total: u64,
    pub download_total: u64,
    pub connections: Vec<PanelConnection>,
}

/// The items of a read that succeeded, none of one that failed.
pub open spec fn read_items<T>(r: Result<Vec<T>, String>) -> Seq<T> {
    match r {
        Ok(v) => v@,
        Err(_) => Seq::empty(),
    }
}

/// The error of a snapshot whose needed read failed: the read's name and
/// its error.
pub open spec fn load_error(what: Seq<char>, e: Seq<char>) -> ErrorView {
    ErrorView::Other("load mihomo "@ + what + ": "@ + e)
}

/// Whether `s` is the snapshot of these reads (the configs, proxies and
/// connections read having succeeded).
pub open spec fn snapshot_of(
    s: PanelSnapshot,
    c: PanelConfig,
    p: Seq<(String, PanelProxy)>,
    proxy_resources: Result<Vec<ExternalResource>, String>,
    rule_resources: Result<Vec<ExternalResource>, String>,
    k: PanelConnections,
    memory: Result<u64, String>,
    logs: Result<Vec<LogEntry>, String>,
    base_url: Seq<char>,
    now: Timestamp,
) -> bool {
    &&& s.ports == c.ports_spec()
    &&& s.traffic == (TrafficStats {
        upload_bps: k.upload_total,
        download_bps: k.download_total,
        memory_mb: (match memory { Ok(m) => m, Err(_) => 0 }) / 1024,
        active_connections: k.connections@.len() as usize,
    })
    &&& s.groups@.map_values(|g: ProxyGroup| group_view(g)) == groups_of(p)
    &&& s.resources@ == read_items(proxy_resources) + read_items(rule_resources)
    &&& s.connections@.map_values(|x: ConnectionInfo| connection_view(x))
        == k.connections@.map_values(|x: PanelConnection| connection_of(x))
    &&& s.logs@.len() == read_items(logs).len() + 1
    &&& s.logs@.drop_last() == read_items(logs)
    &&& s.logs@.last().level@ == "info"@
    &&& s.logs@.last().message@ == "connected to "@ + base_url
    &&& s.logs@.last().time == now
}

/// The panel snapshot from the results of the eight controller reads:
/// an error when the configs, proxies or connections read failed (in
/// that order); otherwise the snapshot, the running mode (`Rule` when the
/// config names none) and the version (`unknown` when its read failed).
/// Provider lists and logs whose reads failed count as empty, a failed
/// memory read as 0.
pub fn snapshot_from_reads(
    configs: Result<PanelConfig, String>,
    proxies: Result<Vec<(String, PanelProxy)>, String>,
    proxy_resources: Result<Vec<ExternalResource>, String>,
    rule_resources: Result<Vec<ExternalResource>, String>,
    connections: Result<PanelConnections, String>,
    version: Result<String, String>,
    memory: Result<u64, String>,
    logs: Result<Vec<LogEntry>, String>,
    base_url: &str,
    now: Timestamp,
) -> (r: Result<(PanelSnapshot, MihomoMode, String), AppError>)
    requires
        proxies matches Ok(p) ==> names_ascending(p@),
    ensures
        r is Err <==> (configs is Err || proxies is Err || connections is Err),
        configs matches Err(e) ==> (r matches Err(x) && x@ == load_error("/configs"@, e@)),
        configs is Ok ==> (proxies matches Err(e) ==> (r matches Err(x) && x@ == load_error("/proxies"@, e@))),
        configs is Ok && proxies is Ok ==> (connections matches Err(e)
            ==> (r matches Err(x) && x@ == load_error("/connections"@, e@))),
        r matches Ok(t) ==> (configs matches Ok(c) && proxies matches Ok(p) && connections matches Ok(k)
            && t.1 == (match c.mode { Some(m) => m, None => MihomoMode::Rule })
            && t.2@ == (match version { Ok(v) => v@, Err(_) => "unknown"@ })
            && snapshot_of(t.0, c, p@, proxy_resources, rule_resources, k, memory, logs, base_url@, now)),
{
    proof {
        reveal_strlit("load mihomo ");
        reveal_strlit(": ");
        reveal_strlit("/configs");
        reveal_strlit("/proxies");
        reveal_strlit("/connections");
        reveal_strlit("load mihomo /configs: ");
        reveal_strlit("load mihomo /proxies: ");
        reveal_strlit("load mihomo /connections: ");
    }
    let c = match configs {
        Ok(c) => c,
        Err(e) => {
            let m = concat("load mihomo /configs: ", e.as_str());
            assert("load mihomo /configs: "@ =~= "load mihomo "@ + "/configs"@ + ": "@);
            assert(m@ =~= "load mihomo "@ + "/configs"@ + ": "@ + e@);
            return Err(AppError::Other(m));
        },
    };
    let p = match proxies {
        Ok(p) => p,
        Err(e) => {
            let m = concat("load mihomo /proxies: ", e.as_str());
            assert("load mihomo /proxies: "@ =~= "load mihomo "@ + "/proxies"@ + ": "@);
            assert(m@ =~= "load mihomo "@ + "/proxies"@ + ": "@ + e@);
            return Err(AppError::Other(m));
        },
    };
    let k = match connections {
        Ok(k) => k,
        Err(e) => {
            let m = concat("load mihomo /connections: ", e.as_str());
            assert("load mihomo /connections: "@ =~= "load mihomo "@ + "/connections"@ + ": "@);
            assert(m@ =~= "load mihomo "@ + "/connections"@ + ": "@ + e@);
            return Err(AppError::Other(m));
        },
    };
    let ghost cv = c;
    let ghost pv = p@;
    let ghost kv = k;
    let ver = match version {
        Ok(v) => v,
        Err(_) => owned("unknown"),
    };
    let mode = c.mode_or_rule();
    let groups = into_groups(p);
    let conns = into_connections(k.connections);
    proof {
        assert(conns@.map_values(|x: ConnectionInfo| connection_view(x)).len() == conns@.len());
        assert(kv.connections@.map_values(|x: PanelConnection| connection_of(x)).len() == kv.connections@.len());
    }
    let s = assemble_snapshot(
        &c,
        groups,
        match proxy_resources { Ok(v) => Some(v), Err(_) => None },
        match rule_resources { Ok(v) => Some(v), Err(_) => None },
        k.upload_total,
        k.download_total,
        conns,
        match memory { Ok(m) => Some(m), Err(_) => None },
        match logs { Ok(v) => Some(v), Err(_) => None },
        base_url,
        now,
    );
    Ok((s, mode, ver))
}

impl PanelConfig {
    /// The listener ports, as [`PanelConfig::ports`] gives them.
    pub open spec fn ports_spec(&self) -> ListenerPorts {
        ListenerPorts {
            mixed: or_zero(self.mixed_port),
            socks: or_zero(self.socks_port),
            http: or_zero(self.port),
            redir: self.redir_port,
            tproxy: self.tproxy_port,
            external_controller: match self.external_controller {
                Some(a) => or_zero(parse_port_spec(a@)),
                None => 0,
            },
        }
    }
}

/// The delay shown is that of the newest sample that has one, and a
/// sample's delay is its measured delay, its mean delay only when it has no
/// measured one: a new sample with a measured delay shows that delay, one
/// with only a mean delay shows the mean, and one with neither leaves what
/// was shown.
pub proof fn law_newest_measured_delay_shown(history: Seq<DelayHistory>, sample: DelayHistory)
    ensures
        sample.delay matches Some(d) ==> latest_delay(history.push(sample)) == Some(d),
        sample.delay is None ==> (sample.mean_delay matches Some(m) ==> latest_delay(history.push(sample)) == Some(m)),
        sample.delay is None && sample.mean_delay is None ==> latest_delay(history.push(sample)) == latest_delay(history),
        latest_delay(Seq::<DelayHistory>::empty()) is None,
{
    assert(history.push(sample).drop_last() =~= history);
}

} // verus!
