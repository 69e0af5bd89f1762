//! How keyboard, mouse and timer input drive the application: which key
//! does what in which panel, which tab a click lands on, when the periodic
//! refresh is due, and what the status bar shows.

use vstd::prelude::*;
use crate::api::types::ClashMode;
use crate::app::{
    mode_at, next_mode, prev_mode, step_down, step_up, App, AppMode, ConnectionState,
    KernelState, LogState, ProviderState, ProxyState, RulesState, SearchState,
};
use crate::text::{owned, str_is_empty};
use crate::utils::format::{format_bytes, format_bytes_spec};

verus! {

/// A key as the terminal reports it.
#[derive(Debug, Clone, Copy, PartialEq, Eq, Structural)]
pub enum KeyInput {
    Char(char),
    Esc,
    Enter,
    Backspace,
    Tab,
    BackTab,
    Up,
    Down,
    Left,
    Right,
    /// Any other key.
    Other,
}

/// Work a key asks for that needs the API.
#[derive(Debug, Clone, Copy, PartialEq, Eq, Structural)]
pub enum KeyAction {
    SelectProxyNode,
    TestCurrentLatency,
    TestAllLatency,
    CloseSelectedConnection,
    CloseAllConnections,
    CycleMode,
    ReloadConfig,
    UpdateSelectedProvider,
    UpdateAllProviders,
}

/// What a key press does.
#[derive(Debug, Clone, Copy, PartialEq, Eq, Structural)]
pub enum KeyEffect {
    Nothing,
    EndSearch,
    SearchBackspace,
    SearchChar(char),
    CloseHelp,
    Quit,
    OpenHelp,
    ToggleProviderTab,
    NextTab,
    PrevTab,
    /// Set the log level filter (1 = debug … 5 = silent).
    SetLogLevel(u8),
    /// Switch to the tab with this number (1-8).
    SwitchTab(usize),
    MoveDown,
    MoveUp,
    StartSearch,
    ToggleAutoScroll,
    PrevGroup,
    NextGroup,
    /// Work for the caller to do through the API.
    Run(KeyAction),
}

/// The digit value of `'0'..='9'`.
pub open spec fn digit_value(c: char) -> nat {
    (c as u32 - 48) as nat
}

/// The log level filter set by the number keys on the logs panel.
pub open spec fn log_level_text(n: u8) -> Seq<char> {
    if n == 1 {
        "debug"@
    } else if n == 2 {
        "info"@
    } else if n == 3 {
        "warning"@
    } else if n == 4 {
        "error"@
    } else {
        "silent"@
    }
}

/// What a key press does, given whether the search bar takes input, whether
/// the help overlay is shown, and the active panel. Keys that are not
/// presses do nothing.
pub open spec fn key_effect(press: bool, searching: bool, help: bool, mode: AppMode, key: KeyInput) -> KeyEffect {
    if !press {
        KeyEffect::Nothing
    } else if searching {
        match key {
            KeyInput::Esc | KeyInput::Enter => KeyEffect::EndSearch,
            KeyInput::Backspace => KeyEffect::SearchBackspace,
            KeyInput::Char(c) => KeyEffect::SearchChar(c),
            _ => KeyEffect::Nothing,
        }
    } else if help {
        if key == KeyInput::Esc || key == KeyInput::Char('?') { KeyEffect::CloseHelp } else { KeyEffect::Nothing }
    } else {
        match key {
            KeyInput::Char(c) => {
                if c == 'q' || c == 'Q' {
                    KeyEffect::Quit
                } else if c == '?' {
                    KeyEffect::OpenHelp
                } else if '1' <= c && c <= '5' && mode == AppMode::Logs {
                    KeyEffect::SetLogLevel(digit_value(c) as u8)
                } else if '1' <= c && c <= '8' {
                    KeyEffect::SwitchTab(digit_value(c) as usize)
                } else if c == 'j' {
                    KeyEffect::MoveDown
                } else if c == 'k' {
                    KeyEffect::MoveUp
                } else if c == '/' {
                    KeyEffect::StartSearch
                } else if c == 't' && mode == AppMode::Proxies {
                    KeyEffect::Run(KeyAction::TestCurrentLatency)
                } else if c == 'T' && mode == AppMode::Proxies {
                    KeyEffect::Run(KeyAction::TestAllLatency)
                } else if c == 'd' && mode == AppMode::Connections {
                    KeyEffect::Run(KeyAction::CloseSelectedConnection)
                } else if c == 'D' && mode == AppMode::Connections {
                    KeyEffect::Run(KeyAction::CloseAllConnections)
                } else if c == 'M' && mode == AppMode::Config {
                    KeyEffect::Run(KeyAction::CycleMode)
                } else if c == 'r' && mode == AppMode::Config {
                    KeyEffect::Run(KeyAction::ReloadConfig)
                } else if c == 'u' && mode == AppMode::Providers {
                    KeyEffect::Run(KeyAction::UpdateSelectedProvider)
                } else if c == 'U' && mode == AppMode::Providers {
                    KeyEffect::Run(KeyAction::UpdateAllProviders)
                } else if c == 'h' && mode == AppMode::Proxies {
                    KeyEffect::PrevGroup
                } else if c == 'l' && mode == AppMode::Proxies {
                    KeyEffect::NextGroup
                } else {
                    KeyEffect::Nothing
                }
            },
            KeyInput::Tab => if mode == AppMode::Providers { KeyEffect::ToggleProviderTab } else { KeyEffect::NextTab },
            KeyInput::BackTab => KeyEffect::PrevTab,
            KeyInput::Down => KeyEffect::MoveDown,
            KeyInput::Up => KeyEffect::MoveUp,
            KeyInput::Enter => if mode == AppMode::Proxies {
                KeyEffect::Run(KeyAction::SelectProxyNode)
            } else if mode == AppMode::Logs {
                KeyEffect::ToggleAutoScroll
            } else {
                KeyEffect::Nothing
            },
            KeyInput::Left => if mode == AppMode::Proxies { KeyEffect::PrevGroup } else { KeyEffect::Nothing },
            KeyInput::Right => if mode == AppMode::Proxies { KeyEffect::NextGroup } else { KeyEffect::Nothing },
            _ => KeyEffect::Nothing,
        }
    }
}

/// The state after moving the selection down in the current panel.
pub open spec fn moved_down(a: App) -> App {
    if a.mode == AppMode::Proxies && a.node_count() > 0 {
        App { proxy: ProxyState { selected_node: step_down(a.proxy.selected_node as nat, a.node_count()) as usize, ..a.proxy }, ..a }
    } else if a.mode == AppMode::Connections && a.connections.connections@.len() > 0 {
        App { connections: ConnectionState { selected: step_down(a.connections.selected as nat, a.connections.connections@.len()) as usize, ..a.connections }, ..a }
    } else if a.mode == AppMode::Rules && a.rules.rules@.len() > 0 {
        App { rules: RulesState { selected: step_down(a.rules.selected as nat, a.rules.rules@.len()) as usize, ..a.rules }, ..a }
    } else if a.mode == AppMode::Providers && a.provider_total() > 0 {
        App { providers: ProviderState { selected: step_down(a.providers.selected as nat, a.provider_total()) as usize, ..a.providers }, ..a }
    } else if a.mode == AppMode::Kernel && a.kernel.available_versions@.len() > 0 {
        App { kernel: KernelState { selected: step_down(a.kernel.selected as nat, a.kernel.available_versions@.len()) as usize, ..a.kernel }, ..a }
    } else {
        a
    }
}

/// The state after moving the selection up in the current panel.
pub open spec fn moved_up(a: App) -> App {
    if a.mode == AppMode::Proxies {
        App { proxy: ProxyState { selected_node: step_up(a.proxy.selected_node as nat) as usize, ..a.proxy }, ..a }
    } else if a.mode == AppMode::Connections {
        App { connections: ConnectionState { selected: step_up(a.connections.selected as nat) as usize, ..a.connections }, ..a }
    } else if a.mode == AppMode::Rules {
        App { rules: RulesState { selected: step_up(a.rules.selected as nat) as usize, ..a.rules }, ..a }
    } else if a.mode == AppMode::Providers {
        App { providers: ProviderState { selected: step_up(a.providers.selected as nat) as usize, ..a.providers }, ..a }
    } else if a.mode == AppMode::Kernel {
        App { kernel: KernelState { selected: step_up(a.kernel.selected as nat) as usize, ..a.kernel }, ..a }
    } else {
        a
    }
}

/// Which key effects leave the state as it was.
pub open spec fn leaves_state(e: KeyEffect) -> bool {
    e == KeyEffect::Nothing || e is Run
}

/// The effect of a key.
fn key_effect_exec(press: bool, searching: bool, help: bool, mode: AppMode, key: KeyInput) -> (e: KeyEffect)
    ensures
        e == key_effect(press, searching, help, mode, key),
{
    if !press {
        return KeyEffect::Nothing;
    }
    if searching {
        return match key {
            KeyInput::Esc | KeyInput::Enter => KeyEffect::EndSearch,
            KeyInput::Backspace => KeyEffect::SearchBackspace,
            KeyInput::Char(c) => KeyEffect::SearchChar(c),
            _ => KeyEffect::Nothing,
        };
    }
    if help {
        return if key == KeyInput::Esc || key == KeyInput::Char('?') { KeyEffect::CloseHelp } else { KeyEffect::Nothing };
    }
    match key {
        KeyInput::Char(c) => {
            if c == 'q' || c == 'Q' {
                KeyEffect::Quit
            } else if c == '?' {
                KeyEffect::OpenHelp
            } else if '1' <= c && c <= '5' && mode == AppMode::Logs {
                KeyEffect::SetLogLevel(((c as u32) - 48) as u8)
            } else if '1' <= c && c <= '8' {
                KeyEffect::SwitchTab(((c as u32) - 48) as usize)
            } else if c == 'j' {
                KeyEffect::MoveDown
            } else if c == 'k' {
                KeyEffect::MoveUp
            } else if c == '/' {
                KeyEffect::StartSearch
            } else if c == 't' && mode == AppMode::Proxies {
                KeyEffect::Run(KeyAction::TestCurrentLatency)
            } else if c == 'T' && mode == AppMode::Proxies {
                KeyEffect::Run(KeyAction::TestAllLatency)
            } else if c == 'd' && mode == AppMode::Connections {
                KeyEffect::Run(KeyAction::CloseSelectedConnection)
            } else if c == 'D' && mode == AppMode::Connections {
                KeyEffect::Run(KeyAction::CloseAllConnections)
            } else if c == 'M' && mode == AppMode::Config {
                KeyEffect::Run(KeyAction::CycleMode)
            } else if c == 'r' && mode == AppMode::Config {
                KeyEffect::Run(KeyAction::ReloadConfig)
            } else if c == 'u' && mode == AppMode::Providers {
                KeyEffect::Run(KeyAction::UpdateSelectedProvider)
            } else if c == 'U' && mode == AppMode::Providers {
                KeyEffect::Run(KeyAction::UpdateAllProviders)
            } else if c == 'h' && mode == AppMode::Proxies {
                KeyEffect::PrevGroup
            } else if c == 'l' && mode == AppMode::Proxies {
                KeyEffect::NextGroup
            } else {
                KeyEffect::Nothing
            }
        },
        KeyInput::Tab => if mode == AppMode::Providers { KeyEffect::ToggleProviderTab } else { KeyEffect::NextTab },
        KeyInput::BackTab => KeyEffect::PrevTab,
        KeyInput::Down => KeyEffect::MoveDown,
        KeyInput::Up => KeyEffect::MoveUp,
        KeyInput::Enter => if mode == AppMode::Proxies {
            KeyEffect::Run(KeyAction::SelectProxyNode)
        } else if mode == AppMode::Logs {
            KeyEffect::ToggleAutoScroll
        } else {
            KeyEffect::Nothing
        },
        KeyInput::Left => if mode == AppMode::Proxies { KeyEffect::PrevGroup } else { KeyEffect::Nothing },
        KeyInput::Right => if mode == AppMode::Proxies { KeyEffect::NextGroup } else { KeyEffect::Nothing },
        _ => KeyEffect::Nothing,
    }
}

/// The level filter text for a number key.
fn log_level_string(n: u8) -> (r: String)
    ensures
        r@ == log_level_text(n),
{
    if n == 1 {
        owned("debug")
    } else if n == 2 {
        owned("info")
    } else if n == 3 {
        owned("warning")
    } else if n == 4 {
        owned("error")
    } else {
        owned("silent")
    }
}

impl App {
    /// Handle a key: decide what it does, apply the changes to the state,
    /// and return the effect (a `Run` effect is work for the caller).
    pub fn handle_key(&mut self, key: KeyInput, press: bool) -> (e: KeyEffect)
        requires
            old(self).wf(),
        ensures
            final(self).wf(),
            e == key_effect(press, old(self).search.active, old(self).show_help, old(self).mode, key),
            leaves_state(e) ==> *final(self) == *old(self),
            e == KeyEffect::EndSearch ==> *final(self) == (App { search: SearchState { active: false, ..old(self).search }, ..*old(self) }),
            e == KeyEffect::SearchBackspace ==> final(self).search.query@ == (if old(self).search.query@.len() == 0 {
                old(self).search.query@
            } else {
                old(self).search.query@.drop_last()
            }) && final(self).search.active == old(self).search.active
                && *final(self) == (App { search: final(self).search, ..*old(self) }),
            e matches KeyEffect::SearchChar(c) ==> final(self).search.query@ == old(self).search.query@.push(c)
                && final(self).search.active == old(self).search.active
                && *final(self) == (App { search: final(self).search, ..*old(self) }),
            e == KeyEffect::CloseHelp ==> *final(self) == (App { show_help: false, ..*old(self) }),
            e == KeyEffect::Quit ==> *final(self) == (App { running: false, ..*old(self) }),
            e == KeyEffect::OpenHelp ==> *final(self) == (App { show_help: true, ..*old(self) }),
            e == KeyEffect::ToggleProviderTab ==> *final(self) == (App {
                providers: ProviderState {
                    active_tab: if old(self).providers.active_tab == 0 { 1 } else { 0 },
                    selected: 0,
                    ..old(self).providers
                },
                ..*old(self)
            }),
            e == KeyEffect::NextTab ==> *final(self) == (App { mode: next_mode(old(self).mode), ..*old(self) }),
            e == KeyEffect::PrevTab ==> *final(self) == (App { mode: prev_mode(old(self).mode), ..*old(self) }),
            e matches KeyEffect::SetLogLevel(n) ==> final(self).logs.level_filter@ == log_level_text(n)
                && *final(self) == (App { logs: LogState { level_filter: final(self).logs.level_filter, ..old(self).logs }, ..*old(self) }),
            e matches KeyEffect::SwitchTab(n) ==> *final(self) == (App { mode: mode_at((n - 1) as nat), ..*old(self) }),
            e == KeyEffect::MoveDown ==> *final(self) == moved_down(*old(self)),
            e == KeyEffect::MoveUp ==> *final(self) == moved_up(*old(self)),
            e == KeyEffect::StartSearch ==> final(self).search.active && final(self).search.query@.len() == 0
                && *final(self) == (App { search: final(self).search, ..*old(self) }),
            e == KeyEffect::ToggleAutoScroll ==> *final(self) == (App {
                logs: LogState { auto_scroll: !old(self).logs.auto_scroll, ..old(self).logs },
                ..*old(self)
            }),
            e == KeyEffect::PrevGroup ==> *final(self) == (App {
                proxy: ProxyState { selected_group: step_up(old(self).proxy.selected_group as nat) as usize, selected_node: 0, ..old(self).proxy },
                ..*old(self)
            }),
            e == KeyEffect::NextGroup && old(self).proxy.groups@.len() > 0 ==> *final(self) == (App {
                proxy: ProxyState {
                    selected_group: step_down(old(self).proxy.selected_group as nat, old(self).proxy.groups@.len()) as usize,
                    selected_node: 0,
                    ..old(self).proxy
                },
                ..*old(self)
            }),
            e == KeyEffect::NextGroup && old(self).proxy.groups@.len() == 0 ==> *final(self) == *old(self),
    {
        let e = key_effect_exec(press, self.search.active, self.show_help, self.mode, key);
        match e {
            KeyEffect::Nothing => {},
            KeyEffect::EndSearch => self.end_search(),
            KeyEffect::SearchBackspace => self.search_backspace(),
            KeyEffect::SearchChar(c) => self.search_char(c),
            KeyEffect::CloseHelp => {
                self.show_help = false;
            },
            KeyEffect::Quit => self.quit(),
            KeyEffect::OpenHelp => {
                self.show_help = true;
            },
            KeyEffect::ToggleProviderTab => self.toggle_provider_tab(),
            KeyEffect::NextTab => self.next_tab(),
            KeyEffect::PrevTab => self.prev_tab(),
            KeyEffect::SetLogLevel(n) => {
                self.logs.level_filter = log_level_string(n);
            },
            KeyEffect::SwitchTab(n) => self.switch_tab(n),
            KeyEffect::MoveDown => self.move_down(),
            KeyEffect::MoveUp => self.move_up(),
            KeyEffect::StartSearch => self.start_search(),
            KeyEffect::ToggleAutoScroll => {
                self.logs.auto_scroll = !self.logs.auto_scroll;
            },
            KeyEffect::PrevGroup => self.prev_proxy_group(),
            KeyEffect::NextGroup => self.next_proxy_group(),
            KeyEffect::Run(_) => {},
        }
        e
    }
}

// ── Mouse ──────────────────────────────────────────────────────────────────

/// A rectangle of terminal cells.
#[derive(Debug, Clone, Copy, PartialEq, Eq, Structural)]
pub struct Rect {
    pub x: u16,
    pub y: u16,
    pub width: u16,
    pub height: u16,
}

/// The tab names, in tab order.
pub open spec fn tab_name(i: nat) -> Seq<char> {
    if i == 0 {
        "Dashboard"@
    } else if i == 1 {
        "Proxies"@
    } else if i == 2 {
        "Connections"@
    } else if i == 3 {
        "Logs"@
    } else if i == 4 {
        "Rules"@
    } else if i == 5 {
        "Config"@
    } else if i == 6 {
        "Providers"@
    } else {
        "Kernel"@
    }
}

/// The width of a tab label (` {name} `).
pub open spec fn tab_width(i: nat) -> nat {
    if i == 0 {
        11
    } else if i == 1 {
        9
    } else if i == 2 {
        13
    } else if i == 3 {
        6
    } else if i == 4 {
        7
    } else if i == 5 {
        8
    } else if i == 6 {
        11
    } else {
        8
    }
}

/// The column offset of a tab label from the start of the bar.
pub open spec fn tab_start(i: nat) -> nat
    decreases i,
{
    if i == 0 { 0 } else { tab_start((i - 1) as nat) + tab_width((i - 1) as nat) }
}

/// The total width of the tab labels.
pub open spec fn tabs_total_width() -> nat {
    73
}

/// The tab labels, as the tab bar shows them.
pub fn tab_label(i: usize) -> (r: &'static str)
    requires
        i < 8,
    ensures
        r@ == tab_name(i as nat),
{
    if i == 0 {
        "Dashboard"
    } else if i == 1 {
        "Proxies"
    } else if i == 2 {
        "Connections"
    } else if i == 3 {
        "Logs"
    } else if i == 4 {
        "Rules"
    } else if i == 5 {
        "Config"
    } else if i == 6 {
        "Providers"
    } else {
        "Kernel"
    }
}

/// The width of a tab label: its name's length and a space on each side.
fn tab_width_exec(i: usize) -> (w: u16)
    requires
        i < 8,
    ensures
        w == tab_width(i as nat),
{
    let name = tab_label(i);
    proof {
        reveal_strlit("Dashboard");
        reveal_strlit("Proxies");
        reveal_strlit("Connections");
        reveal_strlit("Logs");
        reveal_strlit("Rules");
        reveal_strlit("Config");
        reveal_strlit("Providers");
        reveal_strlit("Kernel");
    }
    let n = crate::text::chars_of(name).len();
    (n + 2) as u16
}

/// Which tab label of a tab bar at `area` holds column `col`.
pub fn tab_hit_test(area: Rect, col: u16) -> (r: Option<usize>)
    requires
        area.x + tabs_total_width() <= u16::MAX,
    ensures
        r matches Some(i) ==> i < 8 && area.height > 0 && area.x + tab_start(i as nat) <= col
            && col < area.x + tab_start(i as nat) + tab_width(i as nat),
        r is None <==> (area.height == 0 || col < area.x || col >= area.x + tabs_total_width()),
{
    if area.height == 0 || col < area.x {
        return None;
    }
    let mut x: u16 = area.x;
    let mut i: usize = 0;
    while i < 8
        invariant
            i <= 8,
            x == area.x + tab_start(i as nat),
            area.x + tabs_total_width() <= u16::MAX,
            area.height > 0,
            col >= area.x + tab_start(i as nat),
        decreases 8 - i,
    {
        assert(tab_start(8) == 73) by {
            reveal_with_fuel(tab_start, 9);
        }
        assert(tab_start(i as nat) + tab_width(i as nat) <= 73) by {
            reveal_with_fuel(tab_start, 9);
        }
        let width = tab_width_exec(i);
        if col >= x && col < x + width {
            return Some(i);
        }
        x = x + width;
        i = i + 1;
    }
    assert(tab_start(8) == 73) by {
        reveal_with_fuel(tab_start, 9);
    }
    None
}

/// A mouse event as the terminal reports it.
#[derive(Debug, Clone, Copy, PartialEq, Eq, Structural)]
pub enum MouseInput {
    /// Left button pressed at a column of the top row or below.
    LeftDown { column: u16, row: u16 },
    ScrollUp,
    ScrollDown,
    /// Any other mouse event.
    Other,
}

impl App {
    /// Handle a mouse event: a click on the tab bar (row 0) switches tabs,
    /// the wheel moves the selection.
    pub fn handle_mouse(&mut self, ev: MouseInput)
        requires
            old(self).wf(),
        ensures
            final(self).wf(),
            ev matches MouseInput::LeftDown { column, row } ==> {
                &&& column < tabs_total_width() ==> exists|i: int| 0 <= i < 8
                    && #[trigger] tab_start(i as nat) <= column < tab_start(i as nat) + tab_width(i as nat)
                    && *final(self) == (App { mode: mode_at(i as nat), ..*old(self) })
                &&& column >= tabs_total_width() ==> *final(self) == *old(self)
            },
            ev == MouseInput::ScrollUp ==> *final(self) == moved_up(*old(self)),
            ev == MouseInput::ScrollDown ==> *final(self) == moved_down(*old(self)),
            ev == MouseInput::Other ==> *final(self) == *old(self),
    {
        match ev {
            MouseInput::LeftDown { column, row } => {
                let bar = Rect { x: 0, y: 0, width: self.terminal_width, height: 1 };
                let _ = row;
                if let Some(idx) = tab_hit_test(bar, column) {
                    self.switch_tab(idx + 1);
                }
            },
            MouseInput::ScrollUp => self.move_up(),
            MouseInput::ScrollDown => self.move_down(),
            MouseInput::Other => {},
        }
    }
}

// ── Timer and stream events ────────────────────────────────────────────────

/// Counts ticks; the current panel is refreshed every thirtieth tick.
#[derive(Debug)]
pub struct TickCounter {
    pub count: u64,
}

/// The number of ticks between periodic refreshes.
pub const REFRESH_INTERVAL: u64 = 30;

impl TickCounter {
    /// A counter at zero.
    pub fn new() -> (t: Self)
        ensures
            t.count == 0,
    {
        TickCounter { count: 0 }
    }

    /// Count a tick; whether the periodic refresh is due.
    pub fn tick(&mut self) -> (due: bool)
        requires
            old(self).count < u64::MAX,
        ensures
            final(self).count == old(self).count + 1,
            due == (final(self).count % REFRESH_INTERVAL == 0),
    {
        self.count = self.count + 1;
        self.count % REFRESH_INTERVAL == 0
    }
}

/// Refreshes come exactly every thirty ticks.
pub proof fn law_refresh_every_thirty(count: int)
    requires
        count >= 0,
    ensures
        ((count + 30) % 30 == 0) == (count % 30 == 0),
        REFRESH_INTERVAL == 30,
{
}

impl App {
    /// A memory sample arrived.
    pub fn on_memory(&mut self, inuse: u64)
        ensures
            *final(self) == (App { memory_inuse: inuse, ..*old(self) }),
    {
        self.memory_inuse = inuse;
    }
}

// ── Status bar ─────────────────────────────────────────────────────────────

/// Data shown on the status bar.
#[derive(Debug)]
pub struct StatusBarData {
    pub mode: String,
    pub upload: String,
    pub download: String,
    pub version: String,
}

/// The mode label of the status bar.
pub open spec fn mode_label(mode: Option<ClashMode>) -> Seq<char> {
    match mode {
        Some(ClashMode::Rule) => "RULE"@,
        Some(ClashMode::Global) => "GLOBAL"@,
        Some(ClashMode::Direct) => "DIRECT"@,
        None => "\u{2014}"@,
    }
}

/// The last sample of a history, or 0 when it is empty.
pub open spec fn last_or_zero(h: Seq<u64>) -> u64 {
    if h.len() == 0 { 0 } else { h.last() }
}

impl App {
    /// What the status bar shows: the running mode, the latest upload and
    /// download rates, and the core's version.
    pub fn status_bar_data(&self) -> (d: StatusBarData)
        ensures
            d.mode@ == mode_label(match self.cfg.config { Some(c) => Some(c.mode), None => None }),
            d.upload@ == format_bytes_spec(last_or_zero(self.traffic_up_history@) as nat),
            d.download@ == format_bytes_spec(last_or_zero(self.traffic_down_history@) as nat),
            d.version@ == (if self.version@.len() == 0 { "\u{2014}"@ } else { self.version@ }),
    {
        let mode = match &self.cfg.config {
            Some(c) => match c.mode {
                ClashMode::Rule => owned("RULE"),
                ClashMode::Global => owned("GLOBAL"),
                ClashMode::Direct => owned("DIRECT"),
            },
            None => owned("\u{2014}"),
        };
        let up = if self.traffic_up_history.len() == 0 {
            0
        } else {
            self.traffic_up_history[self.traffic_up_history.len() - 1]
        };
        let down = if self.traffic_down_history.len() == 0 {
            0
        } else {
            self.traffic_down_history[self.traffic_down_history.len() - 1]
        };
        let version = if str_is_empty(self.version.as_str()) { owned("\u{2014}") } else { owned(self.version.as_str()) };
        StatusBarData { mode, upload: format_bytes(up), download: format_bytes(down), version }
    }
}

} // verus!
