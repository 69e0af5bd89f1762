//! Provider summaries: the status of each proxy and rule provider, in a
//! stable order by name, and the outcome of updating many providers. The API calls are made
//! by the caller.

use vstd::prelude::*;
use crate::api::types::{ProviderSubInfo, ProxyItem, ProxyProviderItem, RuleProviderItem};
use crate::error::{AppError, ErrorView};
use crate::sorting::{name_order, orders_by_name, sorted_by_key, Keyed};
use crate::text::{concat, owned};

verus! {

broadcast use vstd::seq_lib::group_to_multiset_ensures;

/// Subscription traffic of a provider. The usage percentage is the used
/// bytes over the total.
#[derive(Debug, Clone, Copy)]
pub struct SubscriptionUsage {
    pub upload: u64,
    pub download: u64,
    pub total: u64,
    /// Bytes used: upload plus download.
    pub used: u64,
    /// Remaining bytes.
    pub remaining: u64,
    /// Expiry timestamp if available.
    pub expire: Option<u64>,
}

/// Summary status for a single proxy provider.
#[derive(Debug)]
pub struct ProxyProviderStatus {
    pub name: String,
    pub provider_type: String,
    pub vehicle_type: String,
    pub node_count: usize,
    pub last_updated: String,
    /// Number of alive (healthy) nodes.
    pub alive_count: usize,
    /// Total nodes.
    pub total_count: usize,
    /// Subscription traffic, if available.
    pub subscription_info: Option<SubscriptionUsage>,
}

/// Summary status for a single rule provider.
#[derive(Debug)]
pub struct RuleProviderStatus {
    pub name: String,
    pub provider_type: String,
    pub behavior: String,
    pub vehicle_type: String,
    pub rule_count: i64,
    pub last_updated: String,
}

/// The text of a proxy provider's status.
pub struct ProxyProviderStatusView {
    pub name: Seq<char>,
    pub provider_type: Seq<char>,
    pub vehicle_type: Seq<char>,
    pub node_count: usize,
    pub last_updated: Seq<char>,
    pub alive_count: usize,
    pub total_count: usize,
    pub subscription_info: Option<SubscriptionUsage>,
}

impl View for ProxyProviderStatus {
    type V = ProxyProviderStatusView;

    open spec fn view(&self) -> ProxyProviderStatusView {
        ProxyProviderStatusView {
            name: self.name@,
            provider_type: self.provider_type@,
            vehicle_type: self.vehicle_type@,
            node_count: self.node_count,
            last_updated: self.last_updated@,
            alive_count: self.alive_count,
            total_count: self.total_count,
            subscription_info: self.subscription_info,
        }
    }
}

/// The text of a rule provider's status.
pub struct RuleProviderStatusView {
    pub name: Seq<char>,
    pub provider_type: Seq<char>,
    pub behavior: Seq<char>,
    pub vehicle_type: Seq<char>,
    pub rule_count: i64,
    pub last_updated: Seq<char>,
}

impl View for RuleProviderStatus {
    type V = RuleProviderStatusView;

    open spec fn view(&self) -> RuleProviderStatusView {
        RuleProviderStatusView {
            name: self.name@,
            provider_type: self.provider_type@,
            behavior: self.behavior@,
            vehicle_type: self.vehicle_type@,
            rule_count: self.rule_count,
            last_updated: self.last_updated@,
        }
    }
}

/// The item names of a proxy provider list, in its order.
pub open spec fn proxy_provider_names(s: Seq<(String, ProxyProviderItem)>) -> Seq<Seq<char>> {
    s.map_values(|e: (String, ProxyProviderItem)| e.1.name@)
}

/// The item names of a rule provider list, in its order.
pub open spec fn rule_provider_names(s: Seq<(String, RuleProviderItem)>) -> Seq<Seq<char>> {
    s.map_values(|e: (String, RuleProviderItem)| e.1.name@)
}

/// The status of a rule provider.
pub open spec fn rule_status_of(item: RuleProviderItem) -> RuleProviderStatusView {
    RuleProviderStatusView {
        name: item.name@,
        provider_type: item.provider_type@,
        behavior: item.behavior@,
        vehicle_type: item.vehicle_type@,
        rule_count: item.rule_count,
        last_updated: item.updated@,
    }
}

impl Keyed for ProxyProviderStatus {
    open spec fn key(&self) -> Seq<char> {
        self.name@
    }

    fn key_str(&self) -> (r: &str) {
        self.name.as_str()
    }
}

impl Keyed for RuleProviderStatus {
    open spec fn key(&self) -> Seq<char> {
        self.name@
    }

    fn key_str(&self) -> (r: &str) {
        self.name.as_str()
    }
}

/// The number of alive proxies.
pub open spec fn alive_count_of(proxies: Seq<ProxyItem>) -> nat
    decreases proxies.len(),
{
    if proxies.len() == 0 {
        0
    } else {
        alive_count_of(proxies.drop_last()) + if proxies.last().alive { 1nat } else { 0nat }
    }
}

/// The number of alive proxies.
pub fn alive_count(proxies: &Vec<ProxyItem>) -> (n: usize)
    ensures
        n == alive_count_of(proxies@),
{
    let total = proxies.len();
    let mut n: usize = 0;
    let mut i: usize = 0;
    while i < total
        invariant
            total == proxies@.len(),
            i <= total,
            n == alive_count_of(proxies@.take(i as int)),
            n <= i,
        decreases total - i,
    {
        assert(proxies@.take(i + 1).drop_last() =~= proxies@.take(i as int));
        if proxies[i].alive {
            n = n + 1;
        }
        i = i + 1;
    }
    assert(proxies@.take(total as int) =~= proxies@);
    n
}

/// The usage figures of subscription info: used is upload plus download,
/// remaining is what is left of the total (never below zero).
pub open spec fn usage_spec(info: ProviderSubInfo) -> SubscriptionUsage {
    SubscriptionUsage {
        upload: info.upload,
        download: info.download,
        total: info.total,
        used: (info.upload + info.download) as u64,
        remaining: if info.total >= info.upload + info.download { (info.total - info.upload - info.download) as u64 } else { 0 },
        expire: info.expire,
    }
}

/// The subscription info a provider reports: `subscription_info`, else
/// `sub_info`.
pub open spec fn reported_info(item: ProxyProviderItem) -> Option<ProviderSubInfo> {
    match item.subscription_info {
        Some(i) => Some(i),
        None => item.sub_info,
    }
}

/// Whether a provider's reported traffic fits the byte counters.
pub open spec fn usage_fits(item: ProxyProviderItem) -> bool {
    reported_info(item) matches Some(i) ==> i.upload + i.download <= u64::MAX
}

/// The usage figures of subscription info.
pub fn usage_of(info: ProviderSubInfo) -> (u: SubscriptionUsage)
    requires
        info.upload + info.download <= u64::MAX,
    ensures
        u == usage_spec(info),
{
    let used = info.upload + info.download;
    let remaining = if info.total >= used { info.total - used } else { 0 };
    SubscriptionUsage {
        upload: info.upload,
        download: info.download,
        total: info.total,
        used,
        remaining,
        expire: info.expire,
    }
}

/// The status of a proxy provider: its names and update time, its node
/// count, how many nodes are alive, and its subscription usage.
pub open spec fn proxy_status_of(item: ProxyProviderItem) -> ProxyProviderStatusView {
    ProxyProviderStatusView {
        name: item.name@,
        provider_type: item.provider_type@,
        vehicle_type: item.vehicle_type@,
        node_count: item.proxies@.len() as usize,
        last_updated: item.updated@,
        alive_count: alive_count_of(item.proxies@) as usize,
        total_count: item.proxies@.len() as usize,
        subscription_info: match reported_info(item) {
            Some(i) => Some(usage_spec(i)),
            None => None,
        },
    }
}

/// The status of one proxy provider.
pub fn proxy_provider_status(item: &ProxyProviderItem) -> (s: ProxyProviderStatus)
    requires
        usage_fits(*item),
    ensures
        s@ == proxy_status_of(*item),
{
    let total_count = item.proxies.len();
    let alive_count = alive_count(&item.proxies);
    let info = match item.subscription_info {
        Some(x) => Some(x),
        None => item.sub_info,
    };
    let subscription_info = match info {
        Some(x) => Some(usage_of(x)),
        None => None,
    };
    ProxyProviderStatus {
        name: owned(item.name.as_str()),
        provider_type: owned(item.provider_type.as_str()),
        vehicle_type: owned(item.vehicle_type.as_str()),
        node_count: total_count,
        last_updated: owned(item.updated.as_str()),
        alive_count,
        total_count,
        subscription_info,
    }
}

/// Summarised status of all proxy providers, in a stable order by name.
pub fn proxy_provider_statuses(providers: Vec<(String, ProxyProviderItem)>) -> (r: Vec<ProxyProviderStatus>)
    requires
        forall|i: int| 0 <= i < providers@.len() ==> usage_fits(#[trigger] providers@[i].1),
    ensures
        r@.len() == providers@.len(),
        exists|order: Seq<usize>|
            #![trigger orders_by_name(order, proxy_provider_names(providers@))]
            orders_by_name(order, proxy_provider_names(providers@)) && forall|i: int|
                0 <= i < r@.len() ==> (#[trigger] r@[i])@ == proxy_status_of(providers@[order[i] as int].1),
        sorted_by_key(r@),
{
    let n = providers.len();
    let mut names: Vec<String> = Vec::new();
    let mut i: usize = 0;
    while i < n
        invariant
            n == providers@.len(),
            i <= n,
            names@.len() == i,
            forall|k: int| 0 <= k < i ==> (#[trigger] names@[k])@ == providers@[k].1.name@,
        decreases n - i,
    {
        names.push(owned(providers[i].1.name.as_str()));
        i = i + 1;
    }
    assert(crate::text::views(names@) =~= proxy_provider_names(providers@));
    let order = name_order(&names);
    let mut out: Vec<ProxyProviderStatus> = Vec::new();
    let mut k: usize = 0;
    while k < n
        invariant
            n == providers@.len(),
            forall|i: int| 0 <= i < providers@.len() ==> usage_fits(#[trigger] providers@[i].1),
            order@.len() == n,
            forall|i: int| 0 <= i < order@.len() ==> (#[trigger] order@[i]) < n,
            k <= n,
            out@.len() == k,
            forall|j: int| 0 <= j < k ==> (#[trigger] out@[j])@ == proxy_status_of(providers@[order@[j] as int].1),
        decreases n - k,
    {
        let p = order[k];
        assert(usage_fits(providers@[p as int].1));
        out.push(proxy_provider_status(&providers[p].1));
        k = k + 1;
    }
    proof {
        assert forall|a: int, b: int| 0 <= a < b < out@.len() implies !crate::sorting::seq_lt(
            #[trigger] out@[b].key(),
            #[trigger] out@[a].key(),
        ) by {
            assert(out@[a].key() == names@[order@[a] as int]@);
            assert(out@[b].key() == names@[order@[b] as int]@);
        }
    }
    out
}

/// Summarised status of all rule providers, in a stable order by name.
pub fn rule_provider_statuses(providers: Vec<(String, RuleProviderItem)>) -> (r: Vec<RuleProviderStatus>)
    ensures
        r@.len() == providers@.len(),
        exists|order: Seq<usize>|
            #![trigger orders_by_name(order, rule_provider_names(providers@))]
            orders_by_name(order, rule_provider_names(providers@)) && forall|i: int|
                0 <= i < r@.len() ==> (#[trigger] r@[i])@ == rule_status_of(providers@[order[i] as int].1),
        sorted_by_key(r@),
{
    let n = providers.len();
    let mut names: Vec<String> = Vec::new();
    let mut i: usize = 0;
    while i < n
        invariant
            n == providers@.len(),
            i <= n,
            names@.len() == i,
            forall|k: int| 0 <= k < i ==> (#[trigger] names@[k])@ == providers@[k].1.name@,
        decreases n - i,
    {
        names.push(owned(providers[i].1.name.as_str()));
        i = i + 1;
    }
    assert(crate::text::views(names@) =~= rule_provider_names(providers@));
    let order = name_order(&names);
    let mut out: Vec<RuleProviderStatus> = Vec::new();
    let mut k: usize = 0;
    while k < n
        invariant
            n == providers@.len(),
            order@.len() == n,
            forall|i: int| 0 <= i < order@.len() ==> (#[trigger] order@[i]) < n,
            k <= n,
            out@.len() == k,
            forall|j: int| 0 <= j < k ==> (#[trigger] out@[j])@ == rule_status_of(providers@[order@[j] as int].1),
        decreases n - k,
    {
        let item = &providers[order[k]].1;
        out.push(RuleProviderStatus {
            name: owned(item.name.as_str()),
            provider_type: owned(item.provider_type.as_str()),
            behavior: owned(item.behavior.as_str()),
            vehicle_type: owned(item.vehicle_type.as_str()),
            rule_count: item.rule_count,
            last_updated: owned(item.updated.as_str()),
        });
        k = k + 1;
    }
    proof {
        assert forall|a: int, b: int| 0 <= a < b < out@.len() implies !crate::sorting::seq_lt(
            #[trigger] out@[b].key(),
            #[trigger] out@[a].key(),
        ) by {
            assert(out@[a].key() == names@[order@[a] as int]@);
            assert(out@[b].key() == names@[order@[b] as int]@);
        }
    }
    out
}

/// Aggregate result of updating all providers.
#[derive(Debug)]
pub struct BulkUpdateResult {
    pub updated: Vec<String>,
    /// Provider name to error message.
    pub failed: Vec<(String, String)>,
}

impl BulkUpdateResult {
    /// No updates yet.
    pub fn new() -> (r: Self)
        ensures
            r.updated@.len() == 0 && r.failed@.len() == 0,
    {
        BulkUpdateResult { updated: Vec::new(), failed: Vec::new() }
    }

    /// The result when the providers could not be listed.
    pub fn listing_failed() -> (r: Self)
        ensures
            r.updated@.len() == 0,
            r.failed@.len() == 1,
            r.failed@[0].0@ == "(all)"@,
            r.failed@[0].1@ == "failed to list providers"@,
    {
        let mut failed: Vec<(String, String)> = Vec::new();
        failed.push((owned("(all)"), owned("failed to list providers")));
        BulkUpdateResult { updated: Vec::new(), failed }
    }

    /// Record the outcome of updating one provider.
    pub fn record(&mut self, name: String, outcome: Result<(), String>)
        ensures
            outcome is Ok ==> final(self).updated@ == old(self).updated@.push(name)
                && final(self).failed@ == old(self).failed@,
            outcome matches Err(e) ==> crate::assoc::assoc_view(final(self).failed@)
                == crate::assoc::assoc_insert_spec(crate::assoc::assoc_view(old(self).failed@), name@, e)
                && final(self).updated@ == old(self).updated@,
    {
        match outcome {
            Ok(()) => self.updated.push(name),
            Err(e) => crate::assoc::assoc_insert(&mut self.failed, name, e),
        }
    }
}

/// The message when updating a proxy provider fails.
pub fn proxy_update_error(name: &str) -> (r: AppError)
    ensures
        r@ == ErrorView::Other("failed to update proxy provider: "@ + name@),
{
    AppError::Other(concat("failed to update proxy provider: ", name))
}

/// The message when updating a rule provider fails.
pub fn rule_update_error(name: &str) -> (r: AppError)
    ensures
        r@ == ErrorView::Other("failed to update rule provider: "@ + name@),
{
    AppError::Other(concat("failed to update rule provider: ", name))
}

/// The message when a provider's health check fails.
pub fn healthcheck_error(name: &str) -> (r: AppError)
    ensures
        r@ == ErrorView::Other("failed to health-check proxy provider: "@ + name@),
{
    AppError::Other(concat("failed to health-check proxy provider: ", name))
}

} // verus!
