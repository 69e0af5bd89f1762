//! The providers panel: the proxy or rule providers, ordered by name, one
//! line each.

use vstd::prelude::*;
use crate::api::types::{ProxyProviderItem, RuleProviderItem};
use crate::app::App;
use crate::runtime::provider::{alive_count, alive_count_of, proxy_provider_names, rule_provider_names};
use crate::sorting::{name_order, orders_by_name};
use crate::text::{concat, decimal, decimal_string, owned, pad_right, pad_right_spec, signed_decimal, signed_decimal_string};
use crate::utils::format::{pad_or_truncate, pad_or_truncate_spec};

verus! {

/// Which providers the panel lists.
#[derive(Debug, Clone, Copy, PartialEq, Eq, Structural)]
pub enum ProviderTab {
    Proxy,
    Rule,
}

impl Default for ProviderTab {
    fn default() -> (t: Self)
        ensures
            t == ProviderTab::Proxy,
    {
        ProviderTab::Proxy
    }
}

impl ProviderTab {
    /// The tab of a tab index: 0 is the proxy providers, any other the
    /// rule providers.
    pub fn from_active_tab(tab: usize) -> (t: Self)
        ensures
            t == (if tab == 0 { ProviderTab::Proxy } else { ProviderTab::Rule }),
    {
        if tab == 0 { ProviderTab::Proxy } else { ProviderTab::Rule }
    }
}

/// The marker in front of a provider's line: `▸` for the selected one.
pub open spec fn marker(selected: bool) -> Seq<char> {
    if selected { "\u{25b8}"@ } else { " "@ }
}

/// The line of a proxy provider, `width` columns wide: name (20 columns),
/// vehicle type (10), node count and alive count (4 each), last update.
pub open spec fn proxy_provider_line(p: ProxyProviderItem, selected: bool, width: nat) -> Seq<char> {
    pad_or_truncate_spec(
        " "@ + marker(selected) + " "@ + pad_right_spec(p.name@, 20) + " type="@ + pad_right_spec(p.vehicle_type@, 10)
            + " nodes="@ + pad_right_spec(decimal(p.proxies@.len()), 4) + " alive="@ + pad_right_spec(
            decimal(alive_count_of(p.proxies@)),
            4,
        ) + " updated="@ + p.updated@,
        width,
    )
}

/// The line of a rule provider, `width` columns wide: name (20 columns),
/// behavior (8), rule count (5), vehicle type (10), last update.
pub open spec fn rule_provider_line(p: RuleProviderItem, selected: bool, width: nat) -> Seq<char> {
    pad_or_truncate_spec(
        " "@ + marker(selected) + " "@ + pad_right_spec(p.name@, 20) + " behavior="@ + pad_right_spec(p.behavior@, 8)
            + " count="@ + pad_right_spec(signed_decimal(p.rule_count as int), 5) + " type="@ + pad_right_spec(
            p.vehicle_type@,
            10,
        ) + " updated="@ + p.updated@,
        width,
    )
}

fn marker_text(selected: bool) -> (r: &'static str)
    ensures
        r@ == marker(selected),
{
    if selected { "\u{25b8}" } else { " " }
}

/// The line of one proxy provider.
pub fn proxy_provider_text(p: &ProxyProviderItem, selected: bool, width: u16) -> (r: String)
    ensures
        r@ == proxy_provider_line(*p, selected, width as nat),
{
    let a = concat(" ", marker_text(selected));
    let b = concat(a.as_str(), " ");
    let c = concat(b.as_str(), pad_right(p.name.as_str(), 20).as_str());
    let d = concat(c.as_str(), " type=");
    let e = concat(d.as_str(), pad_right(p.vehicle_type.as_str(), 10).as_str());
    let f = concat(e.as_str(), " nodes=");
    let g = concat(f.as_str(), pad_right(decimal_string(p.proxies.len() as u64).as_str(), 4).as_str());
    let h = concat(g.as_str(), " alive=");
    let i = concat(h.as_str(), pad_right(decimal_string(alive_count(&p.proxies) as u64).as_str(), 4).as_str());
    let j = concat(i.as_str(), " updated=");
    let label = concat(j.as_str(), p.updated.as_str());
    pad_or_truncate(label.as_str(), width as usize)
}

/// The line of one rule provider.
pub fn rule_provider_text(p: &RuleProviderItem, selected: bool, width: u16) -> (r: String)
    ensures
        r@ == rule_provider_line(*p, selected, width as nat),
{
    let a = concat(" ", marker_text(selected));
    let b = concat(a.as_str(), " ");
    let c = concat(b.as_str(), pad_right(p.name.as_str(), 20).as_str());
    let d = concat(c.as_str(), " behavior=");
    let e = concat(d.as_str(), pad_right(p.behavior.as_str(), 8).as_str());
    let f = concat(e.as_str(), " count=");
    let g = concat(f.as_str(), pad_right(signed_decimal_string(p.rule_count).as_str(), 5).as_str());
    let h = concat(g.as_str(), " type=");
    let i = concat(h.as_str(), pad_right(p.vehicle_type.as_str(), 10).as_str());
    let j = concat(i.as_str(), " updated=");
    let label = concat(j.as_str(), p.updated.as_str());
    pad_or_truncate(label.as_str(), width as usize)
}

/// One line of the provider list.
#[derive(Debug)]
pub struct ProviderLine {
    pub text: String,
    /// Whether the line is the selected one.
    pub selected: bool,
}

/// The provider list: the tab shown, a notice when it has no provider,
/// else one line per provider ordered by name, and for each line the
/// position of its provider in the panel's list.
#[derive(Debug)]
pub struct ProviderList {
    pub tab: ProviderTab,
    pub notice: Option<String>,
    pub lines: Vec<ProviderLine>,
    pub order: Vec<usize>,
}

impl App {
    /// The provider list of the active tab, each line `width` columns
    /// wide; the line at the selected index is marked.
    pub fn provider_list(&self, width: u16) -> (l: ProviderList)
        ensures
            l.tab == (if self.providers.active_tab == 0 { ProviderTab::Proxy } else { ProviderTab::Rule }),
            l.tab == ProviderTab::Proxy ==> {
                let items = self.providers.proxy_providers@;
                &&& (l.notice is Some <==> items.len() == 0)
                &&& (l.notice matches Some(m) ==> m@ == "No proxy providers found"@)
                &&& orders_by_name(l.order@, proxy_provider_names(items))
                &&& l.lines@.len() == items.len()
                &&& forall|i: int| 0 <= i < items.len() ==> {
                    &&& (#[trigger] l.lines@[i]).text@ == proxy_provider_line(items[l.order@[i] as int].1,
                        i == self.providers.selected, width as nat)
                    &&& l.lines@[i].selected == (i == self.providers.selected)
                }
            },
            l.tab == ProviderTab::Rule ==> {
                let items = self.providers.rule_providers@;
                &&& (l.notice is Some <==> items.len() == 0)
                &&& (l.notice matches Some(m) ==> m@ == "No rule providers found"@)
                &&& orders_by_name(l.order@, rule_provider_names(items))
                &&& l.lines@.len() == items.len()
                &&& forall|i: int| 0 <= i < items.len() ==> {
                    &&& (#[trigger] l.lines@[i]).text@ == rule_provider_line(items[l.order@[i] as int].1,
                        i == self.providers.selected, width as nat)
                    &&& l.lines@[i].selected == (i == self.providers.selected)
                }
            },
    {
        let tab = ProviderTab::from_active_tab(self.providers.active_tab);
        let sel = self.providers.selected;
        match tab {
            ProviderTab::Proxy => {
                let items = &self.providers.proxy_providers;
                let n = items.len();
                let mut names: Vec<String> = Vec::new();
                let mut i: usize = 0;
                while i < n
                    invariant
                        n == items@.len(),
                        i <= n,
                        names@.len() == i,
                        forall|k: int| 0 <= k < i ==> (#[trigger] names@[k])@ == items@[k].1.name@,
                    decreases n - i,
                {
                    names.push(owned(items[i].1.name.as_str()));
                    i = i + 1;
                }
                assert(crate::text::views(names@) =~= proxy_provider_names(items@));
                let order = name_order(&names);
                let mut lines: Vec<ProviderLine> = Vec::new();
                let mut k: usize = 0;
                while k < n
                    invariant
                        n == items@.len(),
                        order@.len() == n,
                        forall|i: int| 0 <= i < order@.len() ==> (#[trigger] order@[i]) < n,
                        k <= n,
                        lines@.len() == k,
                        forall|j: int| 0 <= j < k ==> {
                            &&& (#[trigger] lines@[j]).text@ == proxy_provider_line(items@[order@[j] as int].1,
                                j == sel, width as nat)
                            &&& lines@[j].selected == (j == sel)
                        },
                    decreases n - k,
                {
                    let text = proxy_provider_text(&items[order[k]].1, k == sel, width);
                    lines.push(ProviderLine { text, selected: k == sel });
                    k = k + 1;
                }
                let notice = if n == 0 { Some(owned("No proxy providers found")) } else { None };
                ProviderList { tab, notice, lines, order }
            },
            ProviderTab::Rule => {
                let items = &self.providers.rule_providers;
                let n = items.len();
                let mut names: Vec<String> = Vec::new();
                let mut i: usize = 0;
                while i < n
                    invariant
                        n == items@.len(),
                        i <= n,
                        names@.len() == i,
                        forall|k: int| 0 <= k < i ==> (#[trigger] names@[k])@ == items@[k].1.name@,
                    decreases n - i,
                {
                    names.push(owned(items[i].1.name.as_str()));
                    i = i + 1;
                }
                assert(crate::text::views(names@) =~= rule_provider_names(items@));
                let order = name_order(&names);
                let mut lines: Vec<ProviderLine> = Vec::new();
                let mut k: usize = 0;
                while k < n
                    invariant
                        n == items@.len(),
                        order@.len() == n,
                        forall|i: int| 0 <= i < order@.len() ==> (#[trigger] order@[i]) < n,
                        k <= n,
                        lines@.len() == k,
                        forall|j: int| 0 <= j < k ==> {
                            &&& (#[trigger] lines@[j]).text@ == rule_provider_line(items@[order@[j] as int].1,
                                j == sel, width as nat)
                            &&& lines@[j].selected == (j == sel)
                        },
                    decreases n - k,
                {
                    let text = rule_provider_text(&items[order[k]].1, k == sel, width);
                    lines.push(ProviderLine { text, selected: k == sel });
                    k = k + 1;
                }
                let notice = if n == 0 { Some(owned("No rule providers found")) } else { None };
                ProviderList { tab, notice, lines, order }
            },
        }
    }
}

} // verus!
