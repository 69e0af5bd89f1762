//! Application state and its transitions: the active tab, selections, data
//! buffers, search, and how API responses and user input change them. The
//! caller performs the requests and hands the responses in.

use vstd::prelude::*;
use crate::api::client::MihomoClient;
use crate::api::types::{
    ClashMode, ConfigResponse, ConnectionItem, ConnectionsResponse, LogEntry, ProxiesResponse,
    ProxyItem, ProxyProvidersResponse, RuleItem, RuleProvidersResponse,
    RulesResponse, VersionResponse, ProxyProviderItem, RuleProviderItem, PatchConfigRequest,
};
use crate::config::AppConfig;
use crate::error::{AppError, ErrorView};
use crate::runtime::kernel::{GithubRelease, KernelManager};
use crate::assoc::{assoc_get, assoc_insert, assoc_insert_spec, assoc_lookup, assoc_view};
use crate::sorting::{sort_by_key, sorted_by_key};
pub use crate::text::views;
use crate::text::{
    chars_of, concat, contains_string, decimal, decimal_string, owned, string_from_chars,
};

verus! {

broadcast use vstd::seq_lib::group_to_multiset_ensures;

// ── AppMode – tab identifiers ──────────────────────────────────────────────

/// Which panel/tab is currently active.
#[derive(Debug, Clone, Copy, PartialEq, Eq, Structural)]
pub enum AppMode {
    Dashboard,
    Proxies,
    Connections,
    Logs,
    Rules,
    Config,
    Providers,
    Kernel,
}

impl Default for AppMode {
    fn default() -> (m: Self)
        ensures
            m == AppMode::Dashboard,
    {
        AppMode::Dashboard
    }
}

/// The number of tabs.
pub const TAB_COUNT: usize = 8;

/// The tab index of a mode.
pub open spec fn index_of(m: AppMode) -> nat {
    match m {
        AppMode::Dashboard => 0,
        AppMode::Proxies => 1,
        AppMode::Connections => 2,
        AppMode::Logs => 3,
        AppMode::Rules => 4,
        AppMode::Config => 5,
        AppMode::Providers => 6,
        AppMode::Kernel => 7,
    }
}

/// The mode at a tab index; indices past the last tab give the dashboard.
pub open spec fn mode_at(i: nat) -> AppMode {
    if i == 0 {
        AppMode::Dashboard
    } else if i == 1 {
        AppMode::Proxies
    } else if i == 2 {
        AppMode::Connections
    } else if i == 3 {
        AppMode::Logs
    } else if i == 4 {
        AppMode::Rules
    } else if i == 5 {
        AppMode::Config
    } else if i == 6 {
        AppMode::Providers
    } else if i == 7 {
        AppMode::Kernel
    } else {
        AppMode::Dashboard
    }
}

impl AppMode {
    /// Convert to an index for the tab bar.
    pub fn as_index(self) -> (i: usize)
        ensures
            i == index_of(self),
            i < TAB_COUNT,
    {
        match self {
            AppMode::Dashboard => 0,
            AppMode::Proxies => 1,
            AppMode::Connections => 2,
            AppMode::Logs => 3,
            AppMode::Rules => 4,
            AppMode::Config => 5,
            AppMode::Providers => 6,
            AppMode::Kernel => 7,
        }
    }

    /// Convert from an index back to a mode (the dashboard past the end).
    pub fn from_index(i: usize) -> (m: Self)
        ensures
            m == mode_at(i as nat),
    {
        match i {
            0 => AppMode::Dashboard,
            1 => AppMode::Proxies,
            2 => AppMode::Connections,
            3 => AppMode::Logs,
            4 => AppMode::Rules,
            5 => AppMode::Config,
            6 => AppMode::Providers,
            7 => AppMode::Kernel,
            _ => AppMode::Dashboard,
        }
    }

    /// Cycle to the next tab.
    pub fn next(self) -> (m: Self)
        ensures
            m == mode_at(((index_of(self) + 1) % 8) as nat),
            m == next_mode(self),
    {
        AppMode::from_index((self.as_index() + 1) % 8)
    }

    /// Cycle to the previous tab.
    pub fn prev(self) -> (m: Self)
        ensures
            m == mode_at(((index_of(self) + 7) % 8) as nat),
            m == prev_mode(self),
    {
        AppMode::from_index((self.as_index() + 7) % 8)
    }
}

/// The tab after `m`, the last one wrapping to the first.
pub open spec fn next_mode(m: AppMode) -> AppMode {
    match m {
        AppMode::Dashboard => AppMode::Proxies,
        AppMode::Proxies => AppMode::Connections,
        AppMode::Connections => AppMode::Logs,
        AppMode::Logs => AppMode::Rules,
        AppMode::Rules => AppMode::Config,
        AppMode::Config => AppMode::Providers,
        AppMode::Providers => AppMode::Kernel,
        AppMode::Kernel => AppMode::Dashboard,
    }
}

/// The tab before `m`, the first one wrapping to the last.
pub open spec fn prev_mode(m: AppMode) -> AppMode {
    match m {
        AppMode::Dashboard => AppMode::Kernel,
        AppMode::Proxies => AppMode::Dashboard,
        AppMode::Connections => AppMode::Proxies,
        AppMode::Logs => AppMode::Connections,
        AppMode::Rules => AppMode::Logs,
        AppMode::Config => AppMode::Rules,
        AppMode::Providers => AppMode::Config,
        AppMode::Kernel => AppMode::Providers,
    }
}

/// A mode's index leads back to the mode, and every index below the tab
/// count is some mode's index.
pub proof fn law_mode_index_roundtrip(m: AppMode, i: nat)
    ensures
        mode_at(index_of(m)) == m,
        index_of(m) < 8,
        i < 8 ==> index_of(mode_at(i)) == i,
{
}

/// `next` and `prev` undo each other, and eight steps of `next` visit
/// every tab and come back to the start.
pub proof fn law_tab_cycle(m: AppMode)
    ensures
        prev_mode(next_mode(m)) == m,
        next_mode(prev_mode(m)) == m,
        next_mode(next_mode(next_mode(next_mode(next_mode(next_mode(next_mode(next_mode(m)))))))) == m,
        index_of(next_mode(m)) == (index_of(m) + 1) % 8,
{
}

// ── Panel states ───────────────────────────────────────────────────────────

/// Proxy panel state.
#[derive(Debug)]
pub struct ProxyState {
    /// Ordered list of group names.
    pub groups: Vec<String>,
    /// Group name to its proxy list.
    pub group_members: Vec<(String, Vec<String>)>,
    /// Group name to its "now" selection.
    pub group_now: Vec<(String, String)>,
    /// Node name to last known delay (ms). 0 = untested.
    pub delays: Vec<(String, u64)>,
    /// Currently selected group index.
    pub selected_group: usize,
    /// Currently selected node index within the active group.
    pub selected_node: usize,
}

impl Default for ProxyState {
    fn default() -> (s: Self)
        ensures
            s.groups@.len() == 0 && s.group_members@.len() == 0 && s.group_now@.len() == 0
                && s.delays@.len() == 0 && s.selected_group == 0 && s.selected_node == 0,
    {
        ProxyState {
            groups: Vec::new(),
            group_members: Vec::new(),
            group_now: Vec::new(),
            delays: Vec::new(),
            selected_group: 0,
            selected_node: 0,
        }
    }
}

/// Connection panel state.
#[derive(Debug)]
pub struct ConnectionState {
    /// Active connections.
    pub connections: Vec<ConnectionItem>,
    /// Total download bytes.
    pub download_total: u64,
    /// Total upload bytes.
    pub upload_total: u64,
    /// Selected row.
    pub selected: usize,
    /// Sort column index.
    pub sort_col: usize,
    /// Sort descending.
    pub sort_desc: bool,
}

impl Default for ConnectionState {
    fn default() -> (s: Self)
        ensures
            s.connections@.len() == 0 && s.download_total == 0 && s.upload_total == 0
                && s.selected == 0 && s.sort_col == 0 && !s.sort_desc,
    {
        ConnectionState {
            connections: Vec::new(),
            download_total: 0,
            upload_total: 0,
            selected: 0,
            sort_col: 0,
            sort_desc: false,
        }
    }
}

/// Log panel state.
#[derive(Debug)]
pub struct LogState {
    /// Ring buffer of log entries.
    pub buffer: Vec<LogEntry>,
    /// Maximum buffer size.
    pub capacity: usize,
    /// Current log level filter.
    pub level_filter: String,
    /// Auto-scroll to bottom.
    pub auto_scroll: bool,
    /// Vertical scroll offset.
    pub scroll_offset: u16,
}

impl Default for LogState {
    fn default() -> (s: Self)
        ensures
            s.buffer@.len() == 0 && s.capacity == 2000 && s.level_filter@ == "info"@ && s.auto_scroll
                && s.scroll_offset == 0,
    {
        LogState {
            buffer: Vec::new(),
            capacity: 2000,
            level_filter: owned("info"),
            auto_scroll: true,
            scroll_offset: 0,
        }
    }
}

/// Rules panel state.
#[derive(Debug)]
pub struct RulesState {
    /// Fetched rules.
    pub rules: Vec<RuleItem>,
    /// Selected row.
    pub selected: usize,
    /// Scroll offset.
    pub scroll_offset: u16,
}

/// Config panel state.
#[derive(Debug)]
pub struct ConfigState {
    /// Current config from the API.
    pub config: Option<ConfigResponse>,
}

/// Provider panel state.
#[derive(Debug)]
pub struct ProviderState {
    /// Proxy providers by name.
    pub proxy_providers: Vec<(String, ProxyProviderItem)>,
    /// Rule providers by name.
    pub rule_providers: Vec<(String, RuleProviderItem)>,
    /// Selected item index.
    pub selected: usize,
    /// Active tab: 0 = proxy providers, 1 = rule providers.
    pub active_tab: usize,
}

/// Kernel panel state.
#[derive(Debug)]
pub struct KernelState {
    /// Current version string.
    pub current_version: String,
    /// Available versions from GitHub.
    pub available_versions: Vec<String>,
    /// Locally installed versions.
    pub installed_versions: Vec<String>,
    /// Full release data for download.
    pub releases: Vec<GithubRelease>,
    /// Selected index.
    pub selected: usize,
    /// Download progress (0..100).
    pub download_progress: u8,
    /// Whether a download is running.
    pub downloading: bool,
}

/// Search bar state (shared across panels).
#[derive(Debug)]
pub struct SearchState {
    /// Whether the search bar is active (receiving input).
    pub active: bool,
    /// Current query string.
    pub query: String,
}

/// Top-level application state.
#[derive(Debug)]
pub struct App {
    pub config: AppConfig,
    pub client: MihomoClient,
    pub kernel_manager: KernelManager,
    pub mode: AppMode,
    pub running: bool,
    pub show_help: bool,
    /// Last known terminal width (updated each render frame).
    pub terminal_width: u16,
    /// Upload speed history for the sparkline.
    pub traffic_up_history: Vec<u64>,
    /// Download speed history for the sparkline.
    pub traffic_down_history: Vec<u64>,
    /// Maximum number of traffic history samples.
    pub traffic_history_capacity: usize,
    pub memory_inuse: u64,
    pub version: String,
    pub proxy: ProxyState,
    pub connections: ConnectionState,
    pub logs: LogState,
    pub rules: RulesState,
    pub cfg: ConfigState,
    pub providers: ProviderState,
    pub kernel: KernelState,
    pub search: SearchState,
    pub status_message: String,
    /// Set when the initial connection to the mihomo API fails.
    pub connection_error: Option<String>,
}

impl App {
    /// What every operation keeps: the buffers stay within their
    /// capacities, the log buffer has room, the provider tab is one of
    /// the two, and no selection is at the largest index.
    pub open spec fn wf(&self) -> bool {
        &&& self.traffic_up_history@.len() <= self.traffic_history_capacity
        &&& self.traffic_down_history@.len() <= self.traffic_history_capacity
        &&& self.logs.buffer@.len() <= self.logs.capacity
        &&& self.logs.capacity > 0
        &&& self.providers.active_tab <= 1
        &&& self.proxy.selected_group < usize::MAX
        &&& self.proxy.selected_node < usize::MAX
        &&& self.connections.selected < usize::MAX
        &&& self.rules.selected < usize::MAX
        &&& self.providers.selected < usize::MAX
        &&& self.kernel.selected < usize::MAX
    }

    /// Create the state for a configuration and a kernel manager.
    pub fn new(config: AppConfig, kernel_manager: KernelManager) -> (app: Self)
        ensures
            app.wf(),
            app.mode == AppMode::Dashboard,
            app.running,
            !app.show_help,
            app.terminal_width == 80,
            app.traffic_up_history@.len() == 0,
            app.traffic_down_history@.len() == 0,
            app.traffic_history_capacity == 120,
            app.logs.capacity == 2000,
            app.logs.level_filter@ == "info"@,
            app.client.base() == crate::text::trim_end_char(config.api_base_url@, '/'),
            app.client.secret_text() == config.api_secret@,
            app.status_message@.len() == 0,
            app.connection_error is None,
            !app.search.active,
            app.search.query@.len() == 0,
    {
        let client = MihomoClient::new(config.api_base_url.as_str(), config.api_secret.as_str());
        App {
            config,
            client,
            kernel_manager,
            mode: AppMode::Dashboard,
            running: true,
            show_help: false,
            terminal_width: 80,
            traffic_up_history: Vec::new(),
            traffic_down_history: Vec::new(),
            traffic_history_capacity: 120,
            memory_inuse: 0,
            version: String::new(),
            proxy: ProxyState::default(),
            connections: ConnectionState::default(),
            logs: LogState::default(),
            rules: RulesState { rules: Vec::new(), selected: 0, scroll_offset: 0 },
            cfg: ConfigState { config: None },
            providers: ProviderState {
                proxy_providers: Vec::new(),
                rule_providers: Vec::new(),
                selected: 0,
                active_tab: 0,
            },
            kernel: KernelState {
                current_version: String::new(),
                available_versions: Vec::new(),
                installed_versions: Vec::new(),
                releases: Vec::new(),
                selected: 0,
                download_progress: 0,
                downloading: false,
            },
            search: SearchState { active: false, query: String::new() },
            status_message: String::new(),
            connection_error: None,
        }
    }

    /// Signal the application to exit.
    pub fn quit(&mut self)
        ensures
            *final(self) == (App { running: false, ..*old(self) }),
    {
        self.running = false;
    }

    /// Switch to the next tab.
    pub fn next_tab(&mut self)
        ensures
            *final(self) == (App { mode: next_mode(old(self).mode), ..*old(self) }),
    {
        self.mode = self.mode.next();
    }

    /// Switch to the previous tab.
    pub fn prev_tab(&mut self)
        ensures
            *final(self) == (App { mode: prev_mode(old(self).mode), ..*old(self) }),
    {
        self.mode = self.mode.prev();
    }

    /// Switch to a tab by its number (1-8); other numbers change nothing.
    pub fn switch_tab(&mut self, n: usize)
        ensures
            1 <= n <= 8 ==> *final(self) == (App { mode: mode_at((n - 1) as nat), ..*old(self) }),
            !(1 <= n <= 8) ==> *final(self) == *old(self),
    {
        if n > 0 && n <= 8 {
            self.mode = AppMode::from_index(n - 1);
        }
    }

    /// Push a traffic sample into the history buffers, dropping the oldest
    /// sample of a buffer that grows past the capacity.
    pub fn push_traffic(&mut self, up: u64, down: u64)
        requires
            old(self).wf(),
        ensures
            final(self).wf(),
            final(self).traffic_up_history@ == bounded_push(old(self).traffic_up_history@, up, old(self).traffic_history_capacity as nat),
            final(self).traffic_down_history@ == bounded_push(old(self).traffic_down_history@, down, old(self).traffic_history_capacity as nat),
            *final(self) == (App {
                traffic_up_history: final(self).traffic_up_history,
                traffic_down_history: final(self).traffic_down_history,
                ..*old(self)
            }),
    {
        self.traffic_up_history.push(up);
        self.traffic_down_history.push(down);
        if self.traffic_up_history.len() > self.traffic_history_capacity {
            self.traffic_up_history.remove(0);
        }
        if self.traffic_down_history.len() > self.traffic_history_capacity {
            self.traffic_down_history.remove(0);
        }
    }

    /// Push a log entry into the ring buffer, dropping the oldest entry of a
    /// full buffer.
    pub fn push_log(&mut self, entry: LogEntry)
        requires
            old(self).wf(),
        ensures
            final(self).wf(),
            final(self).logs.buffer@ == ring_push(old(self).logs.buffer@, entry, old(self).logs.capacity as nat),
            *final(self) == (App { logs: LogState { buffer: final(self).logs.buffer, ..old(self).logs }, ..*old(self) }),
    {
        if self.logs.buffer.len() >= self.logs.capacity {
            self.logs.buffer.remove(0);
        }
        self.logs.buffer.push(entry);
    }

    /// Activate the search bar with an empty query.
    pub fn start_search(&mut self)
        ensures
            final(self).search.active,
            final(self).search.query@.len() == 0,
            *final(self) == (App { search: final(self).search, ..*old(self) }),
    {
        self.search.active = true;
        self.search.query = String::new();
    }

    /// Deactivate the search bar (the query stays).
    pub fn end_search(&mut self)
        ensures
            *final(self) == (App { search: SearchState { active: false, ..old(self).search }, ..*old(self) }),
    {
        self.search.active = false;
    }

    /// Append a character to the search query.
    pub fn search_char(&mut self, c: char)
        ensures
            final(self).search.query@ == old(self).search.query@.push(c),
            final(self).search.active == old(self).search.active,
            *final(self) == (App { search: final(self).search, ..*old(self) }),
    {
        let mut q = chars_of(self.search.query.as_str());
        q.push(c);
        self.search.query = string_from_chars(q.as_slice());
    }

    /// Remove the last character from the search query.
    pub fn search_backspace(&mut self)
        ensures
            final(self).search.query@ == (if old(self).search.query@.len() == 0 {
                old(self).search.query@
            } else {
                old(self).search.query@.drop_last()
            }),
            final(self).search.active == old(self).search.active,
            *final(self) == (App { search: final(self).search, ..*old(self) }),
    {
        let mut q = chars_of(self.search.query.as_str());
        if q.len() > 0 {
            q.pop();
        }
        self.search.query = string_from_chars(q.as_slice());
    }
}

/// The log buffer after an entry: a full buffer first drops its oldest
/// entry.
pub open spec fn ring_push<T>(b: Seq<T>, x: T, cap: nat) -> Seq<T> {
    if b.len() >= cap { b.drop_first().push(x) } else { b.push(x) }
}

/// The log buffer keeps the newest entries: it never grows past its
/// capacity, the new entry comes last, and before it stand all the old
/// entries but, when the buffer was full, the oldest.
pub proof fn law_log_ring_keeps_newest<T>(b: Seq<T>, x: T, cap: nat)
    requires
        0 < cap,
        b.len() <= cap,
    ensures
        ring_push(b, x, cap).len() <= cap,
        ring_push(b, x, cap).last() == x,
        ring_push(b, x, cap).drop_last() == (if b.len() == cap { b.drop_first() } else { b }),
{
    assert(b.drop_first().push(x).drop_last() =~= b.drop_first());
    assert(b.push(x).drop_last() =~= b);
}

/// A history buffer after a sample: the sample is added and, when the
/// buffer then exceeds the capacity, the oldest sample is dropped.
pub open spec fn bounded_push(h: Seq<u64>, x: u64, cap: nat) -> Seq<u64> {
    if h.len() + 1 > cap { h.push(x).drop_first() } else { h.push(x) }
}

/// The history keeps the most recent samples: after a push the last sample
/// is the new one, and the length never exceeds the capacity.
pub proof fn law_history_keeps_recent(h: Seq<u64>, x: u64, cap: nat)
    requires
        h.len() <= cap,
    ensures
        bounded_push(h, x, cap).len() <= cap || cap == 0 && bounded_push(h, x, cap).len() == 0,
        cap > 0 ==> bounded_push(h, x, cap).last() == x,
        bounded_push(h, x, cap).len() == if h.len() + 1 > cap { h.len() } else { h.len() + 1 },
{
}

// ── Navigation ─────────────────────────────────────────────────────────────

/// `min(a + 1, count - 1)` for a non-empty list: one step down, stopping at
/// the last row.
pub open spec fn step_down(a: nat, count: nat) -> nat {
    if a + 1 <= count - 1 { a + 1 } else { (count - 1) as nat }
}

/// One step up, stopping at the first row (`saturating_sub(1)`).
pub open spec fn step_up(a: nat) -> nat {
    if a == 0 { 0 } else { (a - 1) as nat }
}

/// `min(a, count - 1)` for a non-empty list.
pub open spec fn clamp_to(a: nat, count: nat) -> nat {
    if a <= count - 1 { a } else { (count - 1) as nat }
}

impl App {
    /// The name of the selected proxy group, if the selection is on one.
    pub open spec fn selected_group_name(&self) -> Option<Seq<char>> {
        if self.proxy.selected_group < self.proxy.groups@.len() {
            Some(self.proxy.groups@[self.proxy.selected_group as int]@)
        } else {
            None
        }
    }

    /// The members of the selected proxy group.
    pub open spec fn selected_members(&self) -> Option<Seq<Seq<char>>> {
        match self.selected_group_name() {
            Some(g) => match assoc_lookup(assoc_view(self.proxy.group_members@), g) {
                Some(m) => Some(views(m@)),
                None => None,
            },
            None => None,
        }
    }

    /// Number of nodes in the selected proxy group.
    pub open spec fn node_count(&self) -> nat {
        match self.selected_members() {
            Some(m) => m.len(),
            None => 0,
        }
    }

    /// Number of items in the active provider tab.
    pub open spec fn provider_total(&self) -> nat {
        if self.providers.active_tab == 0 {
            self.providers.proxy_providers@.len()
        } else {
            self.providers.rule_providers@.len()
        }
    }

    /// The members of the selected proxy group.
    fn selected_members_exec(&self) -> (r: Option<&Vec<String>>)
        ensures
            r matches Some(m) ==> self.selected_members() == Some(views(m@)),
            r is None <==> self.selected_members() is None,
    {
        if self.proxy.selected_group < self.proxy.groups.len() {
            let g = &self.proxy.groups[self.proxy.selected_group];
            assoc_get(&self.proxy.group_members, g.as_str())
        } else {
            None
        }
    }

    /// Number of nodes in the selected proxy group.
    pub fn current_group_node_count(&self) -> (n: usize)
        ensures
            n == self.node_count(),
    {
        match self.selected_members_exec() {
            Some(m) => m.len(),
            None => 0,
        }
    }

    /// Number of items in the active provider tab.
    pub fn provider_count(&self) -> (n: usize)
        ensures
            n == self.provider_total(),
    {
        if self.providers.active_tab == 0 {
            self.providers.proxy_providers.len()
        } else {
            self.providers.rule_providers.len()
        }
    }

    /// The name of the selected node in the selected proxy group.
    pub fn current_node_name(&self) -> (r: Option<String>)
        ensures
            r matches Some(n) ==> (self.selected_members() matches Some(m) && self.proxy.selected_node < m.len()
                && n@ == m[self.proxy.selected_node as int]),
            r is None <==> !(self.selected_members() matches Some(m) && self.proxy.selected_node < m.len()),
    {
        match self.selected_members_exec() {
            Some(m) => {
                if self.proxy.selected_node < m.len() {
                    Some(owned(m[self.proxy.selected_node].as_str()))
                } else {
                    None
                }
            },
            None => None,
        }
    }

    /// Keep the selected node within the selected group's members.
    pub fn clamp_node_selection(&mut self)
        requires
            old(self).wf(),
        ensures
            final(self).wf(),
            old(self).node_count() > 0 ==> final(self).proxy.selected_node == clamp_to(old(self).proxy.selected_node as nat, old(self).node_count()),
            old(self).node_count() == 0 ==> final(self).proxy.selected_node == old(self).proxy.selected_node,
            *final(self) == (App { proxy: ProxyState { selected_node: final(self).proxy.selected_node, ..old(self).proxy }, ..*old(self) }),
    {
        let count = self.current_group_node_count();
        if count > 0 {
            if self.proxy.selected_node > count - 1 {
                self.proxy.selected_node = count - 1;
            }
        }
    }

    /// Move the selection down in the current panel.
    pub fn move_down(&mut self)
        requires
            old(self).wf(),
        ensures
            final(self).wf(),
            old(self).mode == AppMode::Proxies && old(self).node_count() > 0 ==> *final(self) == (App {
                proxy: ProxyState { selected_node: step_down(old(self).proxy.selected_node as nat, old(self).node_count()) as usize, ..old(self).proxy },
                ..*old(self)
            }),
            old(self).mode == AppMode::Connections && old(self).connections.connections@.len() > 0 ==> *final(self) == (App {
                connections: ConnectionState { selected: step_down(old(self).connections.selected as nat, old(self).connections.connections@.len()) as usize, ..old(self).connections },
                ..*old(self)
            }),
            old(self).mode == AppMode::Rules && old(self).rules.rules@.len() > 0 ==> *final(self) == (App {
                rules: RulesState { selected: step_down(old(self).rules.selected as nat, old(self).rules.rules@.len()) as usize, ..old(self).rules },
                ..*old(self)
            }),
            old(self).mode == AppMode::Providers && old(self).provider_total() > 0 ==> *final(self) == (App {
                providers: ProviderState { selected: step_down(old(self).providers.selected as nat, old(self).provider_total()) as usize, ..old(self).providers },
                ..*old(self)
            }),
            old(self).mode == AppMode::Kernel && old(self).kernel.available_versions@.len() > 0 ==> *final(self) == (App {
                kernel: KernelState { selected: step_down(old(self).kernel.selected as nat, old(self).kernel.available_versions@.len()) as usize, ..old(self).kernel },
                ..*old(self)
            }),
            !(old(self).mode == AppMode::Proxies && old(self).node_count() > 0)
                && !(old(self).mode == AppMode::Connections && old(self).connections.connections@.len() > 0)
                && !(old(self).mode == AppMode::Rules && old(self).rules.rules@.len() > 0)
                && !(old(self).mode == AppMode::Providers && old(self).provider_total() > 0)
                && !(old(self).mode == AppMode::Kernel && old(self).kernel.available_versions@.len() > 0)
                ==> *final(self) == *old(self),
    {
        match self.mode {
            AppMode::Proxies => {
                let count = self.current_group_node_count();
                if count > 0 {
                    let next = self.proxy.selected_node + 1;
                    self.proxy.selected_node = if next < count - 1 { next } else { count - 1 };
                }
            },
            AppMode::Connections => {
                let count = self.connections.connections.len();
                if count > 0 {
                    let next = self.connections.selected + 1;
                    self.connections.selected = if next < count - 1 { next } else { count - 1 };
                }
            },
            AppMode::Rules => {
                let count = self.rules.rules.len();
                if count > 0 {
                    let next = self.rules.selected + 1;
                    self.rules.selected = if next < count - 1 { next } else { count - 1 };
                }
            },
            AppMode::Providers => {
                let count = self.provider_count();
                if count > 0 {
                    let next = self.providers.selected + 1;
                    self.providers.selected = if next < count - 1 { next } else { count - 1 };
                }
            },
            AppMode::Kernel => {
                let count = self.kernel.available_versions.len();
                if count > 0 {
                    let next = self.kernel.selected + 1;
                    self.kernel.selected = if next < count - 1 { next } else { count - 1 };
                }
            },
            _ => {},
        }
    }

    /// Move the selection up in the current panel.
    pub fn move_up(&mut self)
        requires
            old(self).wf(),
        ensures
            final(self).wf(),
            old(self).mode == AppMode::Proxies ==> *final(self) == (App {
                proxy: ProxyState { selected_node: step_up(old(self).proxy.selected_node as nat) as usize, ..old(self).proxy },
                ..*old(self)
            }),
            old(self).mode == AppMode::Connections ==> *final(self) == (App {
                connections: ConnectionState { selected: step_up(old(self).connections.selected as nat) as usize, ..old(self).connections },
                ..*old(self)
            }),
            old(self).mode == AppMode::Rules ==> *final(self) == (App {
                rules: RulesState { selected: step_up(old(self).rules.selected as nat) as usize, ..old(self).rules },
                ..*old(self)
            }),
            old(self).mode == AppMode::Providers ==> *final(self) == (App {
                providers: ProviderState { selected: step_up(old(self).providers.selected as nat) as usize, ..old(self).providers },
                ..*old(self)
            }),
            old(self).mode == AppMode::Kernel ==> *final(self) == (App {
                kernel: KernelState { selected: step_up(old(self).kernel.selected as nat) as usize, ..old(self).kernel },
                ..*old(self)
            }),
            old(self).mode == AppMode::Dashboard || old(self).mode == AppMode::Logs || old(self).mode == AppMode::Config
                ==> *final(self) == *old(self),
    {
        match self.mode {
            AppMode::Proxies => {
                self.proxy.selected_node = if self.proxy.selected_node > 0 { self.proxy.selected_node - 1 } else { 0 };
            },
            AppMode::Connections => {
                self.connections.selected = if self.connections.selected > 0 { self.connections.selected - 1 } else { 0 };
            },
            AppMode::Rules => {
                self.rules.selected = if self.rules.selected > 0 { self.rules.selected - 1 } else { 0 };
            },
            AppMode::Providers => {
                self.providers.selected = if self.providers.selected > 0 { self.providers.selected - 1 } else { 0 };
            },
            AppMode::Kernel => {
                self.kernel.selected = if self.kernel.selected > 0 { self.kernel.selected - 1 } else { 0 };
            },
            _ => {},
        }
    }

    /// Move to the next proxy group, with the first node selected.
    pub fn next_proxy_group(&mut self)
        requires
            old(self).wf(),
        ensures
            final(self).wf(),
            old(self).proxy.groups@.len() > 0 ==> *final(self) == (App {
                proxy: ProxyState {
                    selected_group: step_down(old(self).proxy.selected_group as nat, old(self).proxy.groups@.len()) as usize,
                    selected_node: 0,
                    ..old(self).proxy
                },
                ..*old(self)
            }),
            old(self).proxy.groups@.len() == 0 ==> *final(self) == *old(self),
    {
        let count = self.proxy.groups.len();
        if count > 0 {
            let next = self.proxy.selected_group + 1;
            self.proxy.selected_group = if next < count - 1 { next } else { count - 1 };
            self.proxy.selected_node = 0;
        }
    }

    /// Move to the previous proxy group, with the first node selected.
    pub fn prev_proxy_group(&mut self)
        requires
            old(self).wf(),
        ensures
            final(self).wf(),
            *final(self) == (App {
                proxy: ProxyState {
                    selected_group: step_up(old(self).proxy.selected_group as nat) as usize,
                    selected_node: 0,
                    ..old(self).proxy
                },
                ..*old(self)
            }),
    {
        self.proxy.selected_group = if self.proxy.selected_group > 0 { self.proxy.selected_group - 1 } else { 0 };
        self.proxy.selected_node = 0;
    }

    /// Toggle the provider tab, with the first item selected.
    pub fn toggle_provider_tab(&mut self)
        requires
            old(self).wf(),
        ensures
            final(self).wf(),
            *final(self) == (App {
                providers: ProviderState {
                    active_tab: if old(self).providers.active_tab == 0 { 1 } else { 0 },
                    selected: 0,
                    ..old(self).providers
                },
                ..*old(self)
            }),
    {
        self.providers.active_tab = if self.providers.active_tab == 0 { 1 } else { 0 };
        self.providers.selected = 0;
    }
}

/// Moving down stays on a row of the list, and moving up then down from a
/// row before the last comes back to it.
pub proof fn law_selection_bounds(a: nat, count: nat)
    requires
        count > 0,
    ensures
        step_down(a, count) < count,
        step_up(a) <= a,
        a + 1 < count ==> step_up(step_down(a, count)) == a,
        a < count && a > 0 ==> step_down(step_up(a), count) == a,
{
}

// ── Applying API responses ─────────────────────────────────────────────────

/// What the proxy panel keeps from a list of proxies: the names of the
/// groups in order, each group's members and current choice, and each
/// proxy's last measured delay.
pub struct ProxyTables {
    pub groups: Seq<Seq<char>>,
    pub members: Seq<(Seq<char>, Vec<String>)>,
    pub now: Seq<(Seq<char>, String)>,
    pub delays: Seq<(Seq<char>, u64)>,
}

/// The tables for proxies taken in the given order.
pub open spec fn tables_of(entries: Seq<(String, ProxyItem)>) -> ProxyTables
    decreases entries.len(),
{
    if entries.len() == 0 {
        ProxyTables { groups: seq![], members: seq![], now: seq![], delays: seq![] }
    } else {
        let t = tables_of(entries.drop_last());
        let name = entries.last().0@;
        let item = entries.last().1;
        let t1 = match item.all {
            Some(all) => ProxyTables {
                groups: t.groups.push(name),
                members: assoc_insert_spec(t.members, name, all),
                now: match item.now {
                    Some(n) => assoc_insert_spec(t.now, name, n),
                    None => t.now,
                },
                ..t
            },
            None => t,
        };
        if item.history@.len() > 0 {
            ProxyTables { delays: assoc_insert_spec(t1.delays, name, item.history@.last().delay), ..t1 }
        } else {
            t1
        }
    }
}

/// Whether the proxy panel's lists are the tables.
pub open spec fn holds_tables(p: ProxyState, t: ProxyTables) -> bool {
    &&& views(p.groups@) == t.groups
    &&& assoc_view(p.group_members@) == t.members
    &&& assoc_view(p.group_now@) == t.now
    &&& assoc_view(p.delays@) == t.delays
}

impl App {
    /// Take in the proxies from `GET /proxies`: sorted by name, groups (the
    /// proxies with members) in order with their members and current
    /// choice, and every proxy's last delay; then keep the selections
    /// within the new lists.
    pub fn apply_proxies(&mut self, resp: ProxiesResponse)
        requires
            old(self).wf(),
        ensures
            final(self).wf(),
            exists|sorted: Seq<(String, ProxyItem)>| sorted_by_key(sorted)
                && sorted.to_multiset() == resp.proxies@.to_multiset()
                && holds_tables(final(self).proxy, tables_of(sorted)),
            final(self).proxy.groups@.len() > 0 ==> final(self).proxy.selected_group
                == clamp_to(old(self).proxy.selected_group as nat, final(self).proxy.groups@.len()),
            final(self).proxy.groups@.len() == 0 ==> final(self).proxy.selected_group == old(self).proxy.selected_group,
            final(self).proxy.groups@.len() > 0 && final(self).node_count() > 0 ==> final(self).proxy.selected_node
                == clamp_to(old(self).proxy.selected_node as nat, final(self).node_count()),
            !(final(self).proxy.groups@.len() > 0 && final(self).node_count() > 0) ==> final(self).proxy.selected_node
                == old(self).proxy.selected_node,
            *final(self) == (App { proxy: final(self).proxy, ..*old(self) }),
    {
        let sorted = sort_by_key(resp.proxies);
        let ghost sorted_view = sorted@;
        let n = sorted.len();
        let mut rest = crate::sorting::reversed(sorted);
        let mut groups: Vec<String> = Vec::new();
        let mut members: Vec<(String, Vec<String>)> = Vec::new();
        let mut now: Vec<(String, String)> = Vec::new();
        let mut delays: Vec<(String, u64)> = Vec::new();
        let mut k: usize = 0;
        assert(sorted_view.skip(0) =~= sorted_view);
        assert(sorted_view.take(0) =~= Seq::<(String, ProxyItem)>::empty());
        assert(views(groups@) =~= Seq::<Seq<char>>::empty());
        assert(assoc_view(members@) =~= Seq::<(Seq<char>, Vec<String>)>::empty());
        assert(assoc_view(now@) =~= Seq::<(Seq<char>, String)>::empty());
        assert(assoc_view(delays@) =~= Seq::<(Seq<char>, u64)>::empty());
        while k < n
            invariant
                n == sorted_view.len(),
                k <= n,
                rest@ == sorted_view.skip(k as int).reverse(),
                holds_tables(ProxyState { groups, group_members: members, group_now: now, delays, selected_group: 0, selected_node: 0 },
                    tables_of(sorted_view.take(k as int))),
            decreases n - k,
        {
            let ghost rv = rest@;
            let (name, item) = rest.pop().unwrap();
            proof {
                assert(rv.last() == sorted_view[k as int]);
                assert(rest@ =~= sorted_view.skip(k + 1).reverse());
                assert(sorted_view.take(k + 1).drop_last() =~= sorted_view.take(k as int));
                assert(sorted_view.take(k + 1).last() == (name, item));
            }
            let ghost t = tables_of(sorted_view.take(k as int));
            let ghost hist = item.history@;
            let ghost item_all = item.all;
            let ghost item_now = item.now;
            let last_delay: Option<u64> = if item.history.len() > 0 {
                Some(item.history[item.history.len() - 1].delay)
            } else {
                None
            };
            let ghost t1 = match item_all {
                Some(all) => ProxyTables {
                    groups: t.groups.push(name@),
                    members: assoc_insert_spec(t.members, name@, all),
                    now: match item_now {
                        Some(nw) => assoc_insert_spec(t.now, name@, nw),
                        None => t.now,
                    },
                    ..t
                },
                None => t,
            };
            match item.all {
                Some(all) => {
                    let ghost gb = groups@;
                    groups.push(owned(name.as_str()));
                    assert(views(groups@) =~= views(gb).push(name@));
                    assoc_insert(&mut members, owned(name.as_str()), all);
                    match item.now {
                        Some(nw) => {
                            assoc_insert(&mut now, owned(name.as_str()), nw);
                        },
                        None => {},
                    }
                },
                None => {},
            }
            match last_delay {
                Some(d) => {
                    assoc_insert(&mut delays, name, d);
                },
                None => {},
            }
            proof {
                assert(tables_of(sorted_view.take(k + 1)) == (if hist.len() > 0 {
                    ProxyTables { delays: assoc_insert_spec(t1.delays, name@, hist.last().delay), ..t1 }
                } else {
                    t1
                }));
            }
            k = k + 1;
        }
        assert(sorted_view.take(n as int) =~= sorted_view);
        self.proxy.groups = groups;
        self.proxy.group_members = members;
        self.proxy.group_now = now;
        self.proxy.delays = delays;
        if self.proxy.groups.len() > 0 {
            let last = self.proxy.groups.len() - 1;
            if self.proxy.selected_group > last {
                self.proxy.selected_group = last;
            }
            self.clamp_node_selection();
        }
    }

    /// Take in the connections from `GET /connections`, keeping the
    /// selection within the list.
    pub fn apply_connections(&mut self, resp: ConnectionsResponse)
        requires
            old(self).wf(),
        ensures
            final(self).wf(),
            final(self).connections.download_total == resp.download_total,
            final(self).connections.upload_total == resp.upload_total,
            final(self).connections.connections@ == (match resp.connections {
                Some(c) => c@,
                None => Seq::<ConnectionItem>::empty(),
            }),
            final(self).connections.connections@.len() > 0 ==> final(self).connections.selected
                == clamp_to(old(self).connections.selected as nat, final(self).connections.connections@.len()),
            final(self).connections.connections@.len() == 0 ==> final(self).connections.selected == old(self).connections.selected,
            *final(self) == (App {
                connections: ConnectionState {
                    connections: final(self).connections.connections,
                    download_total: resp.download_total,
                    upload_total: resp.upload_total,
                    selected: final(self).connections.selected,
                    ..old(self).connections
                },
                ..*old(self)
            }),
    {
        self.connections.download_total = resp.download_total;
        self.connections.upload_total = resp.upload_total;
        self.connections.connections = match resp.connections {
            Some(c) => c,
            None => Vec::new(),
        };
        let count = self.connections.connections.len();
        if count > 0 && self.connections.selected > count - 1 {
            self.connections.selected = count - 1;
        }
    }

    /// Take in the rules from `GET /rules`, keeping the selection within
    /// the list.
    pub fn apply_rules(&mut self, resp: RulesResponse)
        requires
            old(self).wf(),
        ensures
            final(self).wf(),
            final(self).rules.rules@ == resp.rules@,
            resp.rules@.len() > 0 ==> final(self).rules.selected == clamp_to(old(self).rules.selected as nat, resp.rules@.len()),
            resp.rules@.len() == 0 ==> final(self).rules.selected == old(self).rules.selected,
            *final(self) == (App {
                rules: RulesState { rules: final(self).rules.rules, selected: final(self).rules.selected, ..old(self).rules },
                ..*old(self)
            }),
    {
        self.rules.rules = resp.rules;
        let count = self.rules.rules.len();
        if count > 0 && self.rules.selected > count - 1 {
            self.rules.selected = count - 1;
        }
    }

    /// Take in the running configuration from `GET /configs`.
    pub fn apply_config(&mut self, resp: ConfigResponse)
        ensures
            *final(self) == (App { cfg: ConfigState { config: Some(resp) }, ..*old(self) }),
    {
        self.cfg.config = Some(resp);
    }

    /// Take in the providers from `GET /providers/proxies` and
    /// `GET /providers/rules`.
    pub fn apply_providers(&mut self, proxy_resp: ProxyProvidersResponse, rule_resp: RuleProvidersResponse)
        ensures
            *final(self) == (App {
                providers: ProviderState {
                    proxy_providers: proxy_resp.providers,
                    rule_providers: rule_resp.providers,
                    ..old(self).providers
                },
                ..*old(self)
            }),
    {
        self.providers.proxy_providers = proxy_resp.providers;
        self.providers.rule_providers = rule_resp.providers;
    }

    /// Take in the version from `GET /version`.
    pub fn apply_version(&mut self, resp: VersionResponse)
        ensures
            *final(self) == (App { version: resp.version, ..*old(self) }),
    {
        self.version = resp.version;
    }

    /// Take in the releases from GitHub, the installed versions and the
    /// active version (empty when none is known).
    pub fn apply_kernel_info(&mut self, releases: Vec<GithubRelease>, installed: Vec<String>, active: Option<String>)
        ensures
            views(final(self).kernel.available_versions@) == releases@.map_values(|r: GithubRelease| r.tag_name@),
            final(self).kernel.releases@ == releases@,
            final(self).kernel.installed_versions@ == installed@,
            final(self).kernel.current_version@ == (match active { Some(a) => a@, None => Seq::<char>::empty() }),
            *final(self) == (App {
                kernel: KernelState {
                    available_versions: final(self).kernel.available_versions,
                    releases: final(self).kernel.releases,
                    installed_versions: installed,
                    current_version: final(self).kernel.current_version,
                    ..old(self).kernel
                },
                ..*old(self)
            }),
    {
        let mut tags: Vec<String> = Vec::new();
        let n = releases.len();
        let mut i: usize = 0;
        while i < n
            invariant
                n == releases@.len(),
                i <= n,
                views(tags@) == releases@.take(i as int).map_values(|r: GithubRelease| r.tag_name@),
            decreases n - i,
        {
            let ghost tb = tags@;
            tags.push(owned(releases[i].tag_name.as_str()));
            assert(views(tags@) =~= views(tb).push(releases@[i as int].tag_name@));
            assert(releases@.take(i + 1).map_values(|r: GithubRelease| r.tag_name@)
                =~= releases@.take(i as int).map_values(|r: GithubRelease| r.tag_name@).push(releases@[i as int].tag_name@));
            i = i + 1;
        }
        assert(releases@.take(n as int) =~= releases@);
        self.kernel.available_versions = tags;
        self.kernel.releases = releases;
        self.kernel.installed_versions = installed;
        self.kernel.current_version = match active {
            Some(a) => a,
            None => String::new(),
        };
    }
}

// ── Actions: what to ask for, and how the answers change the state ────────

/// The data a periodic refresh fetches for a panel.
#[derive(Debug, Clone, Copy, PartialEq, Eq, Structural)]
pub enum RefreshPlan {
    /// Proxies and version (dashboard and proxies panels).
    ProxiesAndVersion,
    Connections,
    Rules,
    Config,
    Providers,
    Kernel,
    /// The logs panel is fed by its stream.
    Nothing,
}

/// The refresh for a panel.
pub open spec fn refresh_plan_of(m: AppMode) -> RefreshPlan {
    match m {
        AppMode::Dashboard | AppMode::Proxies => RefreshPlan::ProxiesAndVersion,
        AppMode::Connections => RefreshPlan::Connections,
        AppMode::Rules => RefreshPlan::Rules,
        AppMode::Config => RefreshPlan::Config,
        AppMode::Providers => RefreshPlan::Providers,
        AppMode::Kernel => RefreshPlan::Kernel,
        AppMode::Logs => RefreshPlan::Nothing,
    }
}

/// The clash mode a cycle switches to: `Rule -> Global -> Direct -> Rule`,
/// and `Rule` when the running mode is not known.
pub open spec fn cycled_mode(current: Option<ClashMode>) -> ClashMode {
    match current {
        Some(ClashMode::Rule) => ClashMode::Global,
        Some(ClashMode::Global) => ClashMode::Direct,
        _ => ClashMode::Rule,
    }
}

impl App {
    /// The data to refresh for the current panel.
    pub fn refresh_plan(&self) -> (r: RefreshPlan)
        ensures
            r == refresh_plan_of(self.mode),
    {
        match self.mode {
            AppMode::Dashboard | AppMode::Proxies => RefreshPlan::ProxiesAndVersion,
            AppMode::Connections => RefreshPlan::Connections,
            AppMode::Rules => RefreshPlan::Rules,
            AppMode::Config => RefreshPlan::Config,
            AppMode::Providers => RefreshPlan::Providers,
            AppMode::Kernel => RefreshPlan::Kernel,
            AppMode::Logs => RefreshPlan::Nothing,
        }
    }

    /// The release to download: the selected one, or an error when the
    /// selection is past the list.
    pub fn download_target(&self) -> (r: Result<usize, AppError>)
        ensures
            r is Ok <==> self.kernel.selected < self.kernel.releases@.len(),
            r matches Ok(i) ==> i == self.kernel.selected,
            r matches Err(e) ==> e@ == ErrorView::Other("no version selected"@),
    {
        if self.kernel.selected >= self.kernel.releases.len() {
            Err(AppError::Other(owned("no version selected")))
        } else {
            Ok(self.kernel.selected)
        }
    }

    /// A download has started.
    pub fn begin_download(&mut self)
        ensures
            *final(self) == (App { kernel: KernelState { downloading: true, ..old(self).kernel }, ..*old(self) }),
    {
        self.kernel.downloading = true;
    }

    /// A download of the selected release has ended: on failure the status
    /// tells why and the error is returned; on success the installed list is
    /// refreshed and the status names the release.
    pub fn finish_download(&mut self, result: Result<(), String>, installed: Vec<String>) -> (r: Result<(), AppError>)
        requires
            old(self).kernel.selected < old(self).kernel.releases@.len(),
        ensures
            !final(self).kernel.downloading,
            final(self).kernel.releases == old(self).kernel.releases,
            final(self).kernel.selected == old(self).kernel.selected,
            result matches Err(e) ==> r matches Err(x) && x@ == ErrorView::Other(e@)
                && final(self).status_message@ == "Download failed: "@ + e@
                && final(self).kernel.installed_versions == old(self).kernel.installed_versions,
            result is Ok ==> r is Ok
                && final(self).status_message@ == "Downloaded "@ + old(self).kernel.releases@[old(self).kernel.selected as int].tag_name@
                && final(self).kernel.installed_versions@ == installed@,
            *final(self) == (App { kernel: final(self).kernel, status_message: final(self).status_message, ..*old(self) }),
            final(self).kernel == (KernelState {
                downloading: false,
                installed_versions: final(self).kernel.installed_versions,
                ..old(self).kernel
            }),
    {
        self.kernel.downloading = false;
        match result {
            Err(e) => {
                self.status_message = concat("Download failed: ", e.as_str());
                Err(AppError::Other(e))
            },
            Ok(()) => {
                self.kernel.installed_versions = installed;
                let tag = &self.kernel.releases[self.kernel.selected].tag_name;
                self.status_message = concat("Downloaded ", tag.as_str());
                Ok(())
            },
        }
    }

    /// The version to switch to: the selected one when it is installed.
    /// When it is not installed the status says so and nothing is to be
    /// done; a selection past the list is an error.
    pub fn kernel_switch_target(&mut self) -> (r: Result<Option<String>, AppError>)
        ensures
            r is Err <==> old(self).kernel.selected >= old(self).kernel.available_versions@.len(),
            r matches Err(e) ==> e@ == ErrorView::Other("no version selected"@) && *final(self) == *old(self),
            r matches Ok(Some(v)) ==> v@ == old(self).kernel.available_versions@[old(self).kernel.selected as int]@
                && (exists|i: int| 0 <= i < old(self).kernel.installed_versions@.len()
                    && (#[trigger] old(self).kernel.installed_versions@[i])@ == v@)
                && *final(self) == *old(self),
            r matches Ok(None) ==> {
                let v = old(self).kernel.available_versions@[old(self).kernel.selected as int]@;
                &&& !(exists|i: int| 0 <= i < old(self).kernel.installed_versions@.len()
                    && (#[trigger] old(self).kernel.installed_versions@[i])@ == v)
                &&& final(self).status_message@ == v + " not installed locally, press 'd' to download first"@
                &&& *final(self) == (App { status_message: final(self).status_message, ..*old(self) })
            },
    {
        if self.kernel.selected >= self.kernel.available_versions.len() {
            return Err(AppError::Other(owned("no version selected")));
        }
        let version = &self.kernel.available_versions[self.kernel.selected];
        if !contains_string(self.kernel.installed_versions.as_slice(), version.as_str()) {
            self.status_message = concat(version.as_str(), " not installed locally, press 'd' to download first");
            return Ok(None);
        }
        Ok(Some(owned(version.as_str())))
    }

    /// The kernel now runs `version`.
    pub fn kernel_switched(&mut self, version: String)
        ensures
            final(self).kernel.current_version@ == version@,
            final(self).status_message@ == "Switched to "@ + version@,
            *final(self) == (App {
                kernel: KernelState { current_version: final(self).kernel.current_version, ..old(self).kernel },
                status_message: final(self).status_message,
                ..*old(self)
            }),
    {
        self.status_message = concat("Switched to ", version.as_str());
        self.kernel.current_version = version;
    }

    /// The group and node to switch to: the selected node of the selected
    /// group.
    pub fn proxy_switch_target(&self) -> (r: Option<(String, String)>)
        ensures
            r matches Some((g, n)) ==> self.selected_group_name() == Some(g@)
                && (self.selected_members() matches Some(m) && self.proxy.selected_node < m.len()
                && n@ == m[self.proxy.selected_node as int]),
            r is None <==> !(self.selected_members() matches Some(m) && self.proxy.selected_node < m.len()),
    {
        match self.current_node_name() {
            Some(node) => {
                let group = owned(self.proxy.groups[self.proxy.selected_group].as_str());
                Some((group, node))
            },
            None => None,
        }
    }

    /// The group now uses the node.
    pub fn proxy_switched(&mut self, group: String, node: String)
        ensures
            assoc_view(final(self).proxy.group_now@) == assoc_insert_spec(assoc_view(old(self).proxy.group_now@), group@, node),
            final(self).status_message@ == "Switched proxy"@,
            *final(self) == (App {
                proxy: ProxyState { group_now: final(self).proxy.group_now, ..old(self).proxy },
                status_message: final(self).status_message,
                ..*old(self)
            }),
    {
        assoc_insert(&mut self.proxy.group_now, group, node);
        self.status_message = owned("Switched proxy");
    }

    /// A delay test of one node ended: its delay is recorded (0 for a
    /// failure) and the status tells the outcome.
    pub fn latency_measured(&mut self, node: String, result: Result<u64, String>)
        ensures
            result matches Ok(d) ==> assoc_view(final(self).proxy.delays@) == assoc_insert_spec(assoc_view(old(self).proxy.delays@), node@, d)
                && final(self).status_message@ == node@ + ": "@ + decimal(d as nat) + "ms"@,
            result matches Err(e) ==> assoc_view(final(self).proxy.delays@) == assoc_insert_spec(assoc_view(old(self).proxy.delays@), node@, 0u64)
                && final(self).status_message@ == node@ + ": timeout/error ("@ + e@ + ")"@,
            *final(self) == (App {
                proxy: ProxyState { delays: final(self).proxy.delays, ..old(self).proxy },
                status_message: final(self).status_message,
                ..*old(self)
            }),
    {
        match result {
            Ok(d) => {
                let a = concat(node.as_str(), ": ");
                let b = concat(a.as_str(), decimal_string(d).as_str());
                self.status_message = concat(b.as_str(), "ms");
                assoc_insert(&mut self.proxy.delays, node, d);
            },
            Err(e) => {
                let a = concat(node.as_str(), ": timeout/error (");
                let b = concat(a.as_str(), e.as_str());
                self.status_message = concat(b.as_str(), ")");
                assoc_insert(&mut self.proxy.delays, node, 0);
            },
        }
    }

    /// The nodes to test: the members of the selected group.
    pub fn latency_test_targets(&self) -> (r: Option<Vec<String>>)
        ensures
            r matches Some(m) ==> self.selected_members() == Some(views(m@)),
            r is None <==> self.selected_members() is None,
    {
        match self.selected_members_exec() {
            Some(m) => {
                let mut out: Vec<String> = Vec::new();
                let n = m.len();
                let mut i: usize = 0;
                while i < n
                    invariant
                        n == m@.len(),
                        i <= n,
                        views(out@) == views(m@).take(i as int),
                    decreases n - i,
                {
                    let ghost ob = out@;
                    out.push(owned(m[i].as_str()));
                    assert(views(out@) =~= views(ob).push(m@[i as int]@));
                    assert(views(m@).take(i + 1) =~= views(m@).take(i as int).push(m@[i as int]@));
                    i = i + 1;
                }
                assert(views(m@).take(n as int) =~= views(m@));
                Some(out)
            },
            None => None,
        }
    }

    /// A test of `count` nodes has started.
    pub fn latency_test_started(&mut self, count: usize)
        ensures
            final(self).status_message@ == "Testing "@ + decimal(count as nat) + " nodes\u{2026}"@,
            *final(self) == (App { status_message: final(self).status_message, ..*old(self) }),
    {
        let a = concat("Testing ", decimal_string(count as u64).as_str());
        self.status_message = concat(a.as_str(), " nodes\u{2026}");
    }

    /// One node of a group test has its delay (0 for a failure).
    pub fn record_delay(&mut self, node: String, delay: Option<u64>)
        ensures
            assoc_view(final(self).proxy.delays@) == assoc_insert_spec(assoc_view(old(self).proxy.delays@), node@,
                match delay { Some(d) => d, None => 0u64 }),
            *final(self) == (App { proxy: ProxyState { delays: final(self).proxy.delays, ..old(self).proxy }, ..*old(self) }),
    {
        let d = match delay {
            Some(d) => d,
            None => 0,
        };
        assoc_insert(&mut self.proxy.delays, node, d);
    }

    /// A test of `count` nodes has ended.
    pub fn latency_test_finished(&mut self, count: usize)
        ensures
            final(self).status_message@ == decimal(count as nat) + " nodes tested"@,
            *final(self) == (App { status_message: final(self).status_message, ..*old(self) }),
    {
        self.status_message = concat(decimal_string(count as u64).as_str(), " nodes tested");
    }

    /// The id of the selected connection.
    pub fn selected_connection_id(&self) -> (r: Option<String>)
        ensures
            r matches Some(id) ==> self.connections.selected < self.connections.connections@.len()
                && id@ == self.connections.connections@[self.connections.selected as int].id@,
            r is None <==> self.connections.selected >= self.connections.connections@.len(),
    {
        if self.connections.selected < self.connections.connections.len() {
            Some(owned(self.connections.connections[self.connections.selected].id.as_str()))
        } else {
            None
        }
    }

    /// The selected connection was closed: it leaves the list and the
    /// selection stays within it.
    pub fn connection_closed(&mut self)
        requires
            old(self).wf(),
            old(self).connections.selected < old(self).connections.connections@.len(),
        ensures
            final(self).wf(),
            final(self).connections.connections@ == old(self).connections.connections@.remove(old(self).connections.selected as int),
            final(self).connections.connections@.len() > 0 ==> final(self).connections.selected
                == clamp_to(old(self).connections.selected as nat, final(self).connections.connections@.len()),
            final(self).connections.connections@.len() == 0 ==> final(self).connections.selected == old(self).connections.selected,
            final(self).status_message@ == "Connection closed"@,
            *final(self) == (App {
                connections: ConnectionState {
                    connections: final(self).connections.connections,
                    selected: final(self).connections.selected,
                    ..old(self).connections
                },
                status_message: final(self).status_message,
                ..*old(self)
            }),
    {
        self.connections.connections.remove(self.connections.selected);
        let count = self.connections.connections.len();
        if count > 0 && self.connections.selected > count - 1 {
            self.connections.selected = count - 1;
        }
        self.status_message = owned("Connection closed");
    }

    /// All connections were closed.
    pub fn all_connections_closed(&mut self)
        requires
            old(self).wf(),
        ensures
            final(self).wf(),
            final(self).connections.connections@.len() == 0,
            final(self).status_message@ == "All connections closed"@,
            *final(self) == (App {
                connections: ConnectionState {
                    connections: final(self).connections.connections,
                    selected: 0,
                    ..old(self).connections
                },
                status_message: final(self).status_message,
                ..*old(self)
            }),
    {
        self.connections.connections = Vec::new();
        self.connections.selected = 0;
        self.status_message = owned("All connections closed");
    }

    /// The clash mode to switch to.
    pub fn next_clash_mode(&self) -> (m: ClashMode)
        ensures
            m == cycled_mode(match self.cfg.config { Some(c) => Some(c.mode), None => None }),
    {
        match &self.cfg.config {
            Some(c) => match c.mode {
                ClashMode::Rule => ClashMode::Global,
                ClashMode::Global => ClashMode::Direct,
                ClashMode::Direct => ClashMode::Rule,
            },
            None => ClashMode::Rule,
        }
    }

    /// The `PATCH /configs` body that sets a mode.
    pub fn mode_patch(mode: ClashMode) -> (p: PatchConfigRequest)
        ensures
            p.mode == Some(mode) && p.log_level is None && p.allow_lan is None && p.ipv6 is None
                && p.unified_delay is None && p.tun is None && p.dns is None && p.sniffer is None,
    {
        PatchConfigRequest { mode: Some(mode), ..Default::default() }
    }

    /// The running mode was changed; the loaded config, when there is one,
    /// takes it, and the status names it.
    pub fn mode_changed(&mut self, mode: ClashMode)
        ensures
            old(self).cfg.config matches Some(c) ==> final(self).cfg.config == Some(ConfigResponse { mode, ..c }),
            old(self).cfg.config is None ==> final(self).cfg.config is None,
            final(self).status_message@ == "Mode: "@ + mode.name_text(),
            *final(self) == (App { cfg: final(self).cfg, status_message: final(self).status_message, ..*old(self) }),
    {
        match &mut self.cfg.config {
            Some(c) => {
                c.mode = mode;
            },
            None => {},
        }
        self.status_message = concat("Mode: ", mode.name());
    }

    /// The configuration was reloaded.
    pub fn config_reloaded(&mut self)
        ensures
            final(self).status_message@ == "Config reloaded"@,
            *final(self) == (App { status_message: final(self).status_message, ..*old(self) }),
    {
        self.status_message = owned("Config reloaded");
    }

    /// The provider to update: the selected one of the active tab, with
    /// whether it is a rule provider.
    pub fn selected_provider(&self) -> (r: Option<(bool, String)>)
        ensures
            self.providers.active_tab == 0 ==> (r matches Some((is_rule, name)) ==> !is_rule
                && self.providers.selected < self.providers.proxy_providers@.len()
                && name@ == self.providers.proxy_providers@[self.providers.selected as int].0@)
                && (r is None <==> self.providers.selected >= self.providers.proxy_providers@.len()),
            self.providers.active_tab != 0 ==> (r matches Some((is_rule, name)) ==> is_rule
                && self.providers.selected < self.providers.rule_providers@.len()
                && name@ == self.providers.rule_providers@[self.providers.selected as int].0@)
                && (r is None <==> self.providers.selected >= self.providers.rule_providers@.len()),
    {
        if self.providers.active_tab == 0 {
            if self.providers.selected < self.providers.proxy_providers.len() {
                Some((false, owned(self.providers.proxy_providers[self.providers.selected].0.as_str())))
            } else {
                None
            }
        } else {
            if self.providers.selected < self.providers.rule_providers.len() {
                Some((true, owned(self.providers.rule_providers[self.providers.selected].0.as_str())))
            } else {
                None
            }
        }
    }

    /// A provider was updated.
    pub fn provider_updated(&mut self, is_rule: bool, name: &str)
        ensures
            !is_rule ==> final(self).status_message@ == "Provider '"@ + name@ + "' updated"@,
            is_rule ==> final(self).status_message@ == "Rule provider '"@ + name@ + "' updated"@,
            *final(self) == (App { status_message: final(self).status_message, ..*old(self) }),
    {
        if is_rule {
            let a = concat("Rule provider '", name);
            self.status_message = concat(a.as_str(), "' updated");
        } else {
            let a = concat("Provider '", name);
            self.status_message = concat(a.as_str(), "' updated");
        }
    }

    /// The names of all providers, proxy providers then rule providers.
    pub fn provider_names(&self) -> (r: (Vec<String>, Vec<String>))
        ensures
            views(r.0@) == self.providers.proxy_providers@.map_values(|e: (String, ProxyProviderItem)| e.0@),
            views(r.1@) == self.providers.rule_providers@.map_values(|e: (String, RuleProviderItem)| e.0@),
    {
        let mut a: Vec<String> = Vec::new();
        let n = self.providers.proxy_providers.len();
        let mut i: usize = 0;
        while i < n
            invariant
                n == self.providers.proxy_providers@.len(),
                i <= n,
                views(a@) == self.providers.proxy_providers@.take(i as int).map_values(|e: (String, ProxyProviderItem)| e.0@),
            decreases n - i,
        {
            let ghost ab = a@;
            a.push(owned(self.providers.proxy_providers[i].0.as_str()));
            assert(views(a@) =~= views(ab).push(self.providers.proxy_providers@[i as int].0@));
            assert(self.providers.proxy_providers@.take(i + 1).map_values(|e: (String, ProxyProviderItem)| e.0@)
                =~= self.providers.proxy_providers@.take(i as int).map_values(|e: (String, ProxyProviderItem)| e.0@).push(
                self.providers.proxy_providers@[i as int].0@));
            i = i + 1;
        }
        assert(self.providers.proxy_providers@.take(n as int) =~= self.providers.proxy_providers@);
        let mut b: Vec<String> = Vec::new();
        let m = self.providers.rule_providers.len();
        let mut j: usize = 0;
        while j < m
            invariant
                m == self.providers.rule_providers@.len(),
                j <= m,
                views(b@) == self.providers.rule_providers@.take(j as int).map_values(|e: (String, RuleProviderItem)| e.0@),
            decreases m - j,
        {
            let ghost bb = b@;
            b.push(owned(self.providers.rule_providers[j].0.as_str()));
            assert(views(b@) =~= views(bb).push(self.providers.rule_providers@[j as int].0@));
            assert(self.providers.rule_providers@.take(j + 1).map_values(|e: (String, RuleProviderItem)| e.0@)
                =~= self.providers.rule_providers@.take(j as int).map_values(|e: (String, RuleProviderItem)| e.0@).push(
                self.providers.rule_providers@[j as int].0@));
            j = j + 1;
        }
        assert(self.providers.rule_providers@.take(m as int) =~= self.providers.rule_providers@);
        (a, b)
    }

    /// Updating all providers has started.
    pub fn providers_update_started(&mut self)
        ensures
            final(self).status_message@ == "Updating all providers\u{2026}"@,
            *final(self) == (App { status_message: final(self).status_message, ..*old(self) }),
    {
        self.status_message = owned("Updating all providers\u{2026}");
    }

    /// Updating all providers has ended.
    pub fn providers_update_finished(&mut self)
        ensures
            final(self).status_message@ == "All providers updated"@,
            *final(self) == (App { status_message: final(self).status_message, ..*old(self) }),
    {
        self.status_message = owned("All providers updated");
    }
}

/// Cycling the clash mode three times from a known mode comes back to it.
pub proof fn law_clash_mode_cycle(m: ClashMode)
    ensures
        cycled_mode(Some(cycled_mode(Some(cycled_mode(Some(m)))))) == m,
        cycled_mode(Some(m)) == m.next_mode(),
{
}

/// Every proxy with a delay history, group or not, has its newest delay
/// recorded under its name (when a name occurs more than once, its last
/// entry counts).
pub proof fn law_every_history_delay_recorded(entries: Seq<(String, ProxyItem)>, i: int)
    requires
        0 <= i < entries.len(),
        entries[i].1.history@.len() > 0,
        forall|j: int| i < j < entries.len() ==> #[trigger] entries[j].0@ != entries[i].0@,
    ensures
        assoc_lookup(tables_of(entries).delays, entries[i].0@) == Some(entries[i].1.history@.last().delay),
    decreases entries.len(),
{
    let n = entries.len();
    let init = entries.drop_last();
    let t = tables_of(init);
    let name = entries.last().0@;
    let item = entries.last().1;
    let key = entries[i].0@;
    let t1 = match item.all {
        Some(all) => ProxyTables {
            groups: t.groups.push(name),
            members: assoc_insert_spec(t.members, name, all),
            now: match item.now {
                Some(x) => assoc_insert_spec(t.now, name, x),
                None => t.now,
            },
            ..t
        },
        None => t,
    };
    assert(t1.delays == t.delays);
    if i == n - 1 {
        crate::assoc::law_assoc_insert_lookup(t1.delays, name, item.history@.last().delay, name);
    } else {
        assert forall|j: int| i < j < init.len() implies #[trigger] init[j].0@ != init[i].0@ by {
            assert(init[j] == entries[j]);
        }
        law_every_history_delay_recorded(init, i);
        assert(init[i] == entries[i]);
        assert(name != key);
        if item.history@.len() > 0 {
            crate::assoc::law_assoc_insert_lookup(t1.delays, name, item.history@.last().delay, key);
        }
    }
}

/// After proxies are applied, the panel shows the newest delay of every
/// proxy with a history, groups included.
pub proof fn law_applied_proxies_keep_every_delay(p: ProxyState, sorted: Seq<(String, ProxyItem)>, i: int)
    requires
        holds_tables(p, tables_of(sorted)),
        0 <= i < sorted.len(),
        sorted[i].1.history@.len() > 0,
        forall|j: int| 0 <= j < sorted.len() && j != i ==> #[trigger] sorted[j].0@ != sorted[i].0@,
    ensures
        assoc_lookup(assoc_view(p.delays@), sorted[i].0@) == Some(sorted[i].1.history@.last().delay),
{
    law_every_history_delay_recorded(sorted, i);
}

} // verus!
