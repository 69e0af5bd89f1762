//! The log view: the buffered entries that pass the level filter and the
//! search, scrolled to a page or following the newest.

use vstd::prelude::*;
use crate::api::types::LogEntry;
use crate::app::App;
use crate::text::{
    concat, contains, decimal, decimal_string, lowercase, owned, pad_left, pad_left_spec, str_contains, str_eq,
    str_is_empty, to_lowercase, to_uppercase, uppercase,
};
use super::theme::{level_class, level_class_of, LevelClass};
use super::{sat_sub, visible_window, window_end, window_start};

verus! {

/// Whether an entry of a level passes the level filter: under `debug`
/// everything; under `info` all but debug; under `warning` all but debug
/// and info; under `error` only errors; under `silent` nothing; any other
/// filter lets everything pass. Levels are compared lowercased.
pub open spec fn level_passes(filter: Seq<char>, level: Seq<char>) -> bool {
    if filter == "debug"@ {
        true
    } else {
        let l = lowercase(level);
        if filter == "info"@ {
            l != "debug"@
        } else if filter == "warning"@ {
            l != "debug"@ && l != "info"@
        } else if filter == "error"@ {
            l == "error"@
        } else if filter == "silent"@ {
            false
        } else {
            true
        }
    }
}

/// Whether an entry is shown: it passes the level filter, and the query
/// is empty or its lowercased payload holds the lowercased query.
pub open spec fn log_matches(e: LogEntry, filter: Seq<char>, query: Seq<char>) -> bool {
    &&& level_passes(filter, e.log_type@)
    &&& (query.len() == 0 || contains(lowercase(e.payload@), lowercase(query)))
}

/// The entries shown, in order.
pub open spec fn filtered_logs(entries: Seq<LogEntry>, filter: Seq<char>, query: Seq<char>) -> Seq<LogEntry> {
    entries.filter(|e: LogEntry| log_matches(e, filter, query))
}

/// Under the `debug` level with no search, every buffered entry is shown,
/// in order.
pub proof fn law_debug_level_shows_all_logs(entries: Seq<LogEntry>)
    ensures
        filtered_logs(entries, "debug"@, Seq::empty()) == entries,
    decreases entries.len(),
{
    reveal(Seq::filter);
    if entries.len() > 0 {
        law_debug_level_shows_all_logs(entries.drop_last());
        assert(entries.drop_last().push(entries.last()) =~= entries);
    }
}

/// Under the `silent` level nothing is shown, whatever the search.
pub proof fn law_silent_level_shows_no_logs(entries: Seq<LogEntry>, query: Seq<char>)
    ensures
        filtered_logs(entries, "silent"@, query).len() == 0,
    decreases entries.len(),
{
    reveal(Seq::filter);
    if entries.len() > 0 {
        law_silent_level_shows_no_logs(entries.drop_last(), query);
        assert(!level_passes("silent"@, entries.last().log_type@)) by {
            reveal_strlit("silent");
            reveal_strlit("debug");
            reveal_strlit("info");
            reveal_strlit("warning");
            reveal_strlit("error");
            assert("silent"@.len() == 6 && "debug"@.len() == 5 && "info"@.len() == 4);
            assert("warning"@.len() == 7 && "error"@.len() == 5);
        }
    }
}

/// Every entry shown passes the level filter and the search.
pub proof fn law_shown_logs_match(entries: Seq<LogEntry>, filter: Seq<char>, query: Seq<char>)
    ensures
        filtered_logs(entries, filter, query).len() <= entries.len(),
        forall|i: int| 0 <= i < filtered_logs(entries, filter, query).len() ==> log_matches(
            #[trigger] filtered_logs(entries, filter, query)[i],
            filter,
            query,
        ),
{
    broadcast use vstd::seq_lib::group_filter_ensures;
    let p = |e: LogEntry| log_matches(e, filter, query);
    assert forall|i: int| 0 <= i < entries.filter(p).len() implies log_matches(#[trigger] entries.filter(p)[i], filter, query) by {
        assert(p(entries.filter(p)[i]));
    }
}

/// Whether an entry of a level passes the level filter.
pub fn passes_level(filter: &str, level: &str) -> (r: bool)
    ensures
        r == level_passes(filter@, level@),
{
    if str_eq(filter, "debug") {
        return true;
    }
    let l = to_lowercase(level);
    if str_eq(filter, "info") {
        !str_eq(l.as_str(), "debug")
    } else if str_eq(filter, "warning") {
        !str_eq(l.as_str(), "debug") && !str_eq(l.as_str(), "info")
    } else if str_eq(filter, "error") {
        str_eq(l.as_str(), "error")
    } else if str_eq(filter, "silent") {
        false
    } else {
        true
    }
}

/// The positions of the entries shown.
fn matching_logs(entries: &Vec<LogEntry>, filter: &str, query: &str) -> (idx: Vec<usize>)
    ensures
        forall|k: int| 0 <= k < idx@.len() ==> (#[trigger] idx@[k]) < entries@.len(),
        idx@.map_values(|k: usize| entries@[k as int]) == filtered_logs(entries@, filter@, query@),
{
    let q = to_lowercase(query);
    let all = str_is_empty(query);
    let n = entries.len();
    let mut idx: Vec<usize> = Vec::new();
    let mut i: usize = 0;
    proof {
        reveal(Seq::filter);
        assert(entries@.take(0) =~= Seq::<LogEntry>::empty());
    }
    while i < n
        invariant
            n == entries@.len(),
            i <= n,
            q@ == lowercase(query@),
            all == (query@.len() == 0),
            forall|k: int| 0 <= k < idx@.len() ==> (#[trigger] idx@[k]) < i,
            idx@.map_values(|k: usize| entries@[k as int]) == filtered_logs(entries@.take(i as int), filter@, query@),
        decreases n - i,
    {
        let e = &entries[i];
        let keep = passes_level(filter, e.log_type.as_str()) && (all || str_contains(
            to_lowercase(e.payload.as_str()).as_str(),
            q.as_str(),
        ));
        let ghost before = idx@;
        proof {
            reveal(Seq::filter);
            assert(entries@.take(i + 1).drop_last() =~= entries@.take(i as int));
            assert(entries@.take(i + 1).last() == entries@[i as int]);
            assert(keep == log_matches(entries@[i as int], filter@, query@));
        }
        if keep {
            idx.push(i);
            assert(idx@.map_values(|k: usize| entries@[k as int]) =~= before.map_values(|k: usize| entries@[k as int]).push(
                entries@[i as int]));
        } else {
            assert(idx@ == before);
        }
        i = i + 1;
    }
    assert(entries@.take(n as int) =~= entries@);
    idx
}

/// One shown log line.
#[derive(Debug)]
pub struct LogLine {
    /// The level, uppercased and right-aligned in 7 columns, then a space.
    pub level: String,
    pub payload: String,
    pub class: LevelClass,
}

/// The text of a log line.
pub struct LogLineView {
    pub level: Seq<char>,
    pub payload: Seq<char>,
    pub class: LevelClass,
}

impl View for LogLine {
    type V = LogLineView;

    open spec fn view(&self) -> LogLineView {
        LogLineView { level: self.level@, payload: self.payload@, class: self.class }
    }
}

/// The line of a log entry.
pub open spec fn log_line_of(e: LogEntry) -> LogLineView {
    LogLineView {
        level: pad_left_spec(uppercase(e.log_type@), 7) + " "@,
        payload: e.payload@,
        class: level_class_of(lowercase(e.log_type@)),
    }
}

/// The line of one log entry.
pub fn log_line(e: &LogEntry) -> (l: LogLine)
    ensures
        l@ == log_line_of(*e),
{
    let up = to_uppercase(e.log_type.as_str());
    let padded = pad_left(up.as_str(), 7);
    LogLine {
        level: concat(padded.as_str(), " "),
        payload: owned(e.payload.as_str()),
        class: level_class(e.log_type.as_str()),
    }
}

/// The log view.
#[derive(Debug)]
pub struct LogView {
    pub title: String,
    pub lines: Vec<LogLine>,
}

/// Where the shown entries start: at the last page when following the
/// newest, else at the scroll offset but no later than the last page.
pub open spec fn log_window_start(total: nat, height: nat, auto_scroll: bool, offset: nat) -> nat {
    if auto_scroll { sat_sub(total, height) } else { window_start(total, height, offset) }
}

/// The title of the log view: the level filter, the number of buffered
/// entries and whether it follows the newest.
pub open spec fn log_title(filter: Seq<char>, count: nat, auto_scroll: bool) -> Seq<char> {
    "  Logs ["@ + filter + "] ("@ + decimal(count) + ") autoscroll:"@ + (if auto_scroll { "ON"@ } else { "OFF"@ })
        + "  "@
}

impl App {
    /// The log view for a page of `height` lines.
    pub fn log_view(&self, height: u16) -> (v: LogView)
        ensures
            v.title@ == log_title(self.logs.level_filter@, self.logs.buffer@.len(), self.logs.auto_scroll),
            ({
                let shown = filtered_logs(self.logs.buffer@, self.logs.level_filter@, self.search.query@);
                let start = log_window_start(shown.len(), height as nat, self.logs.auto_scroll,
                    self.logs.scroll_offset as nat);
                let end = window_end(start, height as nat, shown.len());
                &&& v.lines@.len() == end - start
                &&& forall|k: int| 0 <= k < v.lines@.len() ==> (#[trigger] v.lines@[k])@ == log_line_of(shown[start + k])
            }),
    {
        let entries = &self.logs.buffer;
        let idx = matching_logs(entries, self.logs.level_filter.as_str(), self.search.query.as_str());
        let ghost shown = filtered_logs(entries@, self.logs.level_filter@, self.search.query@);
        assert(idx@.len() == shown.len());
        let total = idx.len();
        let a = concat("  Logs [", self.logs.level_filter.as_str());
        let b = concat(a.as_str(), "] (");
        let c = concat(b.as_str(), decimal_string(entries.len() as u64).as_str());
        let d = concat(c.as_str(), ") autoscroll:");
        let e = concat(d.as_str(), if self.logs.auto_scroll { "ON" } else { "OFF" });
        let title = concat(e.as_str(), "  ");
        let offset = if self.logs.auto_scroll { total } else { self.logs.scroll_offset as usize };
        let (start, end) = visible_window(total, height as usize, offset);
        let mut lines: Vec<LogLine> = Vec::new();
        let mut k: usize = start;
        while k < end
            invariant
                start <= k <= end <= total,
                total == idx@.len(),
                entries == &self.logs.buffer,
                forall|j: int| 0 <= j < idx@.len() ==> (#[trigger] idx@[j]) < entries@.len(),
                idx@.map_values(|j: usize| entries@[j as int]) == shown,
                lines@.len() == k - start,
                forall|j: int| 0 <= j < lines@.len() ==> (#[trigger] lines@[j])@ == log_line_of(shown[start + j]),
            decreases end - k,
        {
            let p = idx[k];
            assert(shown[k as int] == entries@[p as int]);
            lines.push(log_line(&entries[p]));
            k = k + 1;
        }
        LogView { title, lines }
    }
}

} // verus!
