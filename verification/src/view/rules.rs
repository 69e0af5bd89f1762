//! The rules table: the rules that match the search, scrolled to a page.

use vstd::prelude::*;
use crate::api::types::RuleItem;
use crate::app::App;
use crate::text::{concat, contains, decimal, decimal_string, lowercase, owned, str_contains, str_is_empty, to_lowercase};
use crate::utils::format::{bytes_to_human, bytes_to_human_spec, pad_or_truncate, pad_or_truncate_spec};
use super::{dash, visible_window, window_end, window_start};

verus! {

/// Whether a rule is kept by a search: every rule for an empty query,
/// else one whose type, payload or proxy, lowercased, holds the lowercased
/// query.
pub open spec fn rule_matches(r: RuleItem, query: Seq<char>) -> bool {
    ||| query.len() == 0
    ||| contains(lowercase(r.rule_type@), lowercase(query))
    ||| contains(lowercase(r.payload@), lowercase(query))
    ||| contains(lowercase(r.proxy@), lowercase(query))
}

/// The rules kept by a search, in order.
pub open spec fn filtered_rules(rules: Seq<RuleItem>, query: Seq<char>) -> Seq<RuleItem> {
    rules.filter(|r: RuleItem| rule_matches(r, query))
}

/// Searching with an empty query keeps every rule, in order.
pub proof fn law_empty_search_keeps_all_rules(rules: Seq<RuleItem>)
    ensures
        filtered_rules(rules, Seq::empty()) == rules,
    decreases rules.len(),
{
    reveal(Seq::filter);
    if rules.len() > 0 {
        law_empty_search_keeps_all_rules(rules.drop_last());
        assert(rules.drop_last().push(rules.last()) =~= rules);
    }
}

/// Every rule a search keeps matches it, and a search never shows more
/// rules than there are.
pub proof fn law_kept_rules_match(rules: Seq<RuleItem>, query: Seq<char>)
    ensures
        filtered_rules(rules, query).len() <= rules.len(),
        forall|i: int| 0 <= i < filtered_rules(rules, query).len() ==> rule_matches(
            #[trigger] filtered_rules(rules, query)[i],
            query,
        ),
{
    broadcast use vstd::seq_lib::group_filter_ensures;
    let p = |r: RuleItem| rule_matches(r, query);
    assert forall|i: int| 0 <= i < rules.filter(p).len() implies rule_matches(#[trigger] rules.filter(p)[i], query) by {
        assert(p(rules.filter(p)[i]));
    }
}

/// The positions of the rules kept by a search.
fn matching_rules(rules: &Vec<RuleItem>, query: &str) -> (idx: Vec<usize>)
    ensures
        forall|k: int| 0 <= k < idx@.len() ==> (#[trigger] idx@[k]) < rules@.len(),
        idx@.map_values(|k: usize| rules@[k as int]) == filtered_rules(rules@, query@),
{
    let q = to_lowercase(query);
    let all = str_is_empty(query);
    let n = rules.len();
    let mut idx: Vec<usize> = Vec::new();
    let mut i: usize = 0;
    proof {
        reveal(Seq::filter);
        assert(rules@.take(0) =~= Seq::<RuleItem>::empty());
    }
    while i < n
        invariant
            n == rules@.len(),
            i <= n,
            q@ == lowercase(query@),
            all == (query@.len() == 0),
            forall|k: int| 0 <= k < idx@.len() ==> (#[trigger] idx@[k]) < i,
            idx@.map_values(|k: usize| rules@[k as int]) == filtered_rules(rules@.take(i as int), query@),
        decreases n - i,
    {
        let r = &rules[i];
        let keep = all || str_contains(to_lowercase(r.rule_type.as_str()).as_str(), q.as_str())
            || str_contains(to_lowercase(r.payload.as_str()).as_str(), q.as_str())
            || str_contains(to_lowercase(r.proxy.as_str()).as_str(), q.as_str());
        let ghost before = idx@;
        proof {
            reveal(Seq::filter);
            assert(rules@.take(i + 1).drop_last() =~= rules@.take(i as int));
            assert(rules@.take(i + 1).last() == rules@[i as int]);
            assert(keep == rule_matches(rules@[i as int], query@));
        }
        if keep {
            idx.push(i);
            assert(idx@.map_values(|k: usize| rules@[k as int]) =~= before.map_values(|k: usize| rules@[k as int]).push(
                rules@[i as int]));
        } else {
            assert(idx@ == before);
        }
        i = i + 1;
    }
    assert(rules@.take(n as int) =~= rules@);
    idx
}

/// One row of the rules table.
#[derive(Debug)]
pub struct RuleRow {
    pub rule_type: String,
    pub payload: String,
    pub proxy: String,
    pub size: String,
    /// Whether the row is the selected one.
    pub selected: bool,
}

/// The text of a rule row.
pub struct RuleRowView {
    pub rule_type: Seq<char>,
    pub payload: Seq<char>,
    pub proxy: Seq<char>,
    pub size: Seq<char>,
    pub selected: bool,
}

impl View for RuleRow {
    type V = RuleRowView;

    open spec fn view(&self) -> RuleRowView {
        RuleRowView {
            rule_type: self.rule_type@,
            payload: self.payload@,
            proxy: self.proxy@,
            size: self.size@,
            selected: self.selected,
        }
    }
}

/// The size column of a rule: its size in bytes, or a dash.
pub open spec fn rule_size_text(size: Option<i64>) -> Seq<char> {
    match size {
        Some(s) => bytes_to_human_spec((s as u64) as nat),
        None => dash(),
    }
}

/// The row of a rule: type (16 columns), payload (30), proxy (16), size.
pub open spec fn rule_row_of(r: RuleItem, selected: bool) -> RuleRowView {
    RuleRowView {
        rule_type: pad_or_truncate_spec(r.rule_type@, 16),
        payload: pad_or_truncate_spec(r.payload@, 30),
        proxy: pad_or_truncate_spec(r.proxy@, 16),
        size: rule_size_text(r.size),
        selected,
    }
}

/// The row of one rule.
pub fn rule_row(r: &RuleItem, selected: bool) -> (row: RuleRow)
    ensures
        row@ == rule_row_of(*r, selected),
{
    let size = match r.size {
        Some(s) => bytes_to_human(s as u64),
        None => owned("\u{2014}"),
    };
    RuleRow {
        rule_type: pad_or_truncate(r.rule_type.as_str(), 16),
        payload: pad_or_truncate(r.payload.as_str(), 30),
        proxy: pad_or_truncate(r.proxy.as_str(), 16),
        size,
        selected,
    }
}

/// The rules table.
#[derive(Debug)]
pub struct RulesTable {
    pub title: String,
    pub rows: Vec<RuleRow>,
}

/// The header labels of the rules table.
pub fn rule_headers() -> (h: Vec<String>)
    ensures
        h@.len() == 4,
        h@[0]@ == "Type"@,
        h@[1]@ == "Payload"@,
        h@[2]@ == "Proxy"@,
        h@[3]@ == "Size"@,
{
    let mut h: Vec<String> = Vec::new();
    h.push(owned("Type"));
    h.push(owned("Payload"));
    h.push(owned("Proxy"));
    h.push(owned("Size"));
    h
}

impl App {
    /// The rules table for a page of `height` lines: the rules kept by the
    /// search, from the scroll offset (no later than the last page), the
    /// selected one marked; the title counts every kept rule.
    pub fn rules_table(&self, height: u16) -> (t: RulesTable)
        ensures
            ({
                let kept = filtered_rules(self.rules.rules@, self.search.query@);
                let start = window_start(kept.len(), height as nat, self.rules.scroll_offset as nat);
                let end = window_end(start, height as nat, kept.len());
                &&& t.title@ == " Rules ("@ + decimal(kept.len()) + ") "@
                &&& t.rows@.len() == end - start
                &&& forall|k: int| 0 <= k < t.rows@.len() ==> (#[trigger] t.rows@[k])@ == rule_row_of(kept[start + k],
                    start + k == self.rules.selected)
            }),
    {
        let rules = &self.rules.rules;
        let idx = matching_rules(rules, self.search.query.as_str());
        let ghost kept = filtered_rules(rules@, self.search.query@);
        assert(idx@.len() == kept.len());
        let total = idx.len();
        let a = concat(" Rules (", decimal_string(total as u64).as_str());
        let title = concat(a.as_str(), ") ");
        let (start, end) = visible_window(total, height as usize, self.rules.scroll_offset as usize);
        let mut rows: Vec<RuleRow> = Vec::new();
        let mut k: usize = start;
        while k < end
            invariant
                start <= k <= end <= total,
                total == idx@.len(),
                rules == &self.rules.rules,
                forall|j: int| 0 <= j < idx@.len() ==> (#[trigger] idx@[j]) < rules@.len(),
                idx@.map_values(|j: usize| rules@[j as int]) == kept,
                rows@.len() == k - start,
                forall|j: int| 0 <= j < rows@.len() ==> (#[trigger] rows@[j])@ == rule_row_of(kept[start + j],
                    start + j == self.rules.selected),
            decreases end - k,
        {
            let p = idx[k];
            assert(kept[k as int] == rules@[p as int]);
            rows.push(rule_row(&rules[p], k == self.rules.selected));
            k = k + 1;
        }
        RulesTable { title, rows }
    }
}

} // verus!
