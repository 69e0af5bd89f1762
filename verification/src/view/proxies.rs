//! The proxies panel: the list of groups, and the nodes of the selected
//! group that match the search with their latency.

use vstd::prelude::*;
use crate::app::App;
use crate::assoc::{assoc_get, assoc_lookup, assoc_view};
use crate::text::{
    concat, contains, decimal, decimal_string, lowercase, owned, pad_left, pad_left_spec, pad_right, pad_right_spec,
    str_contains, str_eq, str_is_empty, to_lowercase,
};
use crate::utils::format::{pad_or_truncate, pad_or_truncate_spec};
use super::theme::{latency_class, latency_class_of, LatencyClass};
use super::sat_sub;

verus! {

/// What follows a group's name: ` → ` and the node it uses, when that is
/// known and not empty.
pub open spec fn now_suffix(now: Option<String>) -> Seq<char> {
    match now {
        Some(n) => if n@.len() > 0 { " \u{2192} "@ + n@ } else { Seq::empty() },
        None => Seq::empty(),
    }
}

/// One line of the group list.
#[derive(Debug)]
pub struct GroupLine {
    pub text: String,
    /// Whether the group is the selected one.
    pub selected: bool,
}

/// The group list: a notice when there is no group, else one line per
/// group.
#[derive(Debug)]
pub struct GroupList {
    pub notice: Option<String>,
    pub lines: Vec<GroupLine>,
}

/// The text of a group's line `width` columns wide: `● `, the name and
/// the node it uses.
pub open spec fn group_line_text(name: Seq<char>, now: Option<String>, width: nat) -> Seq<char> {
    pad_or_truncate_spec("\u{25cf} "@ + name + now_suffix(now), width)
}

/// The suffix of a group's line.
fn now_suffix_text(now: Option<&String>) -> (r: String)
    ensures
        r@ == now_suffix(match now {
            Some(n) => Some(*n),
            None => None,
        }),
{
    match now {
        Some(n) => if str_is_empty(n.as_str()) { String::new() } else { concat(" \u{2192} ", n.as_str()) },
        None => String::new(),
    }
}

/// The node that a group uses, or the empty text.
pub open spec fn current_node(now: Seq<(Seq<char>, String)>, group: Seq<char>) -> Seq<char> {
    match assoc_lookup(now, group) {
        Some(s) => s@,
        None => Seq::empty(),
    }
}

/// Whether a node is kept by the search: every node for an empty query,
/// else one whose lowercased name holds the lowercased query.
pub open spec fn node_matches(name: Seq<char>, query: Seq<char>) -> bool {
    query.len() == 0 || contains(lowercase(name), lowercase(query))
}

/// The nodes of a group kept by a search, in order.
pub open spec fn filtered_nodes(members: Seq<String>, query: Seq<char>) -> Seq<String> {
    members.filter(|m: String| node_matches(m@, query))
}

/// Searching with an empty query keeps every node of the group, in order.
pub proof fn law_empty_search_keeps_all_nodes(members: Seq<String>)
    ensures
        filtered_nodes(members, Seq::empty()) == members,
    decreases members.len(),
{
    reveal(Seq::filter);
    if members.len() > 0 {
        law_empty_search_keeps_all_nodes(members.drop_last());
        assert(members.drop_last().push(members.last()) =~= members);
    }
}

/// What a latency is shown as: `timeout` for 0, else the milliseconds.
pub open spec fn delay_text(delay: u64) -> Seq<char> {
    if delay == 0 { "timeout"@ } else { decimal(delay as nat) + "ms"@ }
}

/// How a node line is coloured.
#[derive(Debug, Clone, Copy, PartialEq, Eq, Structural)]
pub enum NodeClass {
    Selected,
    /// The node the group uses.
    Current,
    Latency(LatencyClass),
}

/// One line of the node list.
#[derive(Debug)]
pub struct NodeLine {
    pub text: String,
    pub class: NodeClass,
}

/// The text and colour of a node line.
pub struct NodeLineView {
    pub text: Seq<char>,
    pub class: NodeClass,
}

impl View for NodeLine {
    type V = NodeLineView;

    open spec fn view(&self) -> NodeLineView {
        NodeLineView { text: self.text@, class: self.class }
    }
}

/// The line of a node `width` columns wide: a `●` for the node in use,
/// the name padded to `width - 12` columns, and the latency right-aligned
/// in 8 columns.
pub open spec fn node_line_of(name: Seq<char>, delay: u64, current: bool, selected: bool, width: nat) -> NodeLineView {
    let label = (if current { "\u{25cf}"@ } else { " "@ }) + " "@ + pad_right_spec(name, sat_sub(width, 12)) + " "@
        + pad_left_spec(delay_text(delay), 8);
    NodeLineView {
        text: pad_or_truncate_spec(label, width),
        class: if selected {
            NodeClass::Selected
        } else if current {
            NodeClass::Current
        } else {
            NodeClass::Latency(latency_class_of(delay))
        },
    }
}

/// The line of one node.
pub fn node_line(name: &str, delay: u64, current: bool, selected: bool, width: u16) -> (l: NodeLine)
    ensures
        l@ == node_line_of(name@, delay, current, selected, width as nat),
{
    let delay_str = if delay == 0 {
        owned("timeout")
    } else {
        concat(decimal_string(delay).as_str(), "ms")
    };
    let name_width: usize = if width >= 12 { (width - 12) as usize } else { 0 };
    let a = concat(if current { "\u{25cf}" } else { " " }, " ");
    let b = concat(a.as_str(), pad_right(name, name_width).as_str());
    let c = concat(b.as_str(), " ");
    let label = concat(c.as_str(), pad_left(delay_str.as_str(), 8).as_str());
    let class = if selected {
        NodeClass::Selected
    } else if current {
        NodeClass::Current
    } else {
        NodeClass::Latency(latency_class(delay))
    };
    NodeLine { text: pad_or_truncate(label.as_str(), width as usize), class }
}

/// The node list: a notice when no group is selected or it has no
/// members, else a title and one line per kept node.
#[derive(Debug)]
pub struct NodeList {
    pub notice: Option<String>,
    pub title: String,
    pub lines: Vec<NodeLine>,
}

/// The positions of the nodes kept by a search.
fn matching_nodes(members: &Vec<String>, query: &str) -> (idx: Vec<usize>)
    ensures
        forall|k: int| 0 <= k < idx@.len() ==> (#[trigger] idx@[k]) < members@.len(),
        idx@.map_values(|k: usize| members@[k as int]) == filtered_nodes(members@, query@),
{
    let q = to_lowercase(query);
    let all = str_is_empty(query);
    let n = members.len();
    let mut idx: Vec<usize> = Vec::new();
    let mut i: usize = 0;
    proof {
        reveal(Seq::filter);
        assert(members@.take(0) =~= Seq::<String>::empty());
    }
    while i < n
        invariant
            n == members@.len(),
            i <= n,
            q@ == lowercase(query@),
            all == (query@.len() == 0),
            forall|k: int| 0 <= k < idx@.len() ==> (#[trigger] idx@[k]) < i,
            idx@.map_values(|k: usize| members@[k as int]) == filtered_nodes(members@.take(i as int), query@),
        decreases n - i,
    {
        let keep = all || str_contains(to_lowercase(members[i].as_str()).as_str(), q.as_str());
        let ghost before = idx@;
        proof {
            reveal(Seq::filter);
            assert(members@.take(i + 1).drop_last() =~= members@.take(i as int));
            assert(members@.take(i + 1).last() == members@[i as int]);
        }
        if keep {
            idx.push(i);
            assert(idx@.map_values(|k: usize| members@[k as int]) =~= before.map_values(|k: usize| members@[k as int]).push(
                members@[i as int]));
        } else {
            assert(idx@ == before);
        }
        i = i + 1;
    }
    assert(members@.take(n as int) =~= members@);
    idx
}

/// The latency recorded for a node, 0 when none is.
pub open spec fn recorded_delay(delays: Seq<(Seq<char>, u64)>, name: Seq<char>) -> u64 {
    match assoc_lookup(delays, name) {
        Some(d) => d,
        None => 0,
    }
}

impl App {
    /// The group list, each line `width` columns wide.
    pub fn group_list(&self, width: u16) -> (g: GroupList)
        ensures
            g.notice is Some <==> self.proxy.groups@.len() == 0,
            g.notice matches Some(m) ==> m@ == "No proxy groups found"@,
            g.notice is None ==> g.lines@.len() == self.proxy.groups@.len(),
            g.notice is None ==> forall|i: int| 0 <= i < g.lines@.len() ==> {
                &&& (#[trigger] g.lines@[i]).text@ == group_line_text(self.proxy.groups@[i]@,
                    assoc_lookup(assoc_view(self.proxy.group_now@), self.proxy.groups@[i]@), width as nat)
                &&& g.lines@[i].selected == (i == self.proxy.selected_group)
            },
    {
        let groups = &self.proxy.groups;
        let n = groups.len();
        if n == 0 {
            return GroupList { notice: Some(owned("No proxy groups found")), lines: Vec::new() };
        }
        let mut lines: Vec<GroupLine> = Vec::new();
        let mut i: usize = 0;
        while i < n
            invariant
                n == groups@.len(),
                groups == &self.proxy.groups,
                i <= n,
                lines@.len() == i,
                forall|j: int| 0 <= j < i ==> {
                    &&& (#[trigger] lines@[j]).text@ == group_line_text(groups@[j]@,
                        assoc_lookup(assoc_view(self.proxy.group_now@), groups@[j]@), width as nat)
                    &&& lines@[j].selected == (j == self.proxy.selected_group)
                },
            decreases n - i,
        {
            let name = groups[i].as_str();
            let now = assoc_get(&self.proxy.group_now, name);
            let suffix = now_suffix_text(now);
            let a = concat("\u{25cf} ", name);
            let label = concat(a.as_str(), suffix.as_str());
            lines.push(GroupLine { text: pad_or_truncate(label.as_str(), width as usize), selected: i == self.proxy.selected_group });
            i = i + 1;
        }
        GroupList { notice: None, lines }
    }

    /// The node list of the selected group, each line `width` columns
    /// wide: the members kept by the search, each with its recorded
    /// latency, the node in use and the selected line marked.
    pub fn node_list(&self, width: u16) -> (l: NodeList)
        ensures
            self.proxy.selected_group >= self.proxy.groups@.len() ==> (l.notice matches Some(m) && m@
                == "No group selected"@),
            ({
                let group = self.proxy.groups@[self.proxy.selected_group as int]@;
                self.proxy.selected_group < self.proxy.groups@.len() ==> match assoc_lookup(
                    assoc_view(self.proxy.group_members@),
                    group,
                ) {
                    None => (l.notice matches Some(m) && m@ == "No members"@),
                    Some(members) => {
                        let kept = filtered_nodes(members@, self.search.query@);
                        let now = current_node(assoc_view(self.proxy.group_now@), group);
                        &&& l.notice is None
                        &&& l.title@ == " "@ + group + " ("@ + decimal(kept.len()) + ") "@
                        &&& l.lines@.len() == kept.len()
                        &&& forall|i: int| 0 <= i < kept.len() ==> (#[trigger] l.lines@[i])@ == node_line_of(
                            kept[i]@,
                            recorded_delay(assoc_view(self.proxy.delays@), kept[i]@),
                            kept[i]@ == now,
                            i == self.proxy.selected_node,
                            width as nat,
                        )
                    },
                }
            }),
    {
        if self.proxy.selected_group >= self.proxy.groups.len() {
            return NodeList { notice: Some(owned("No group selected")), title: String::new(), lines: Vec::new() };
        }
        let group = self.proxy.groups[self.proxy.selected_group].as_str();
        let members = match assoc_get(&self.proxy.group_members, group) {
            Some(m) => m,
            None => {
                return NodeList { notice: Some(owned("No members")), title: String::new(), lines: Vec::new() };
            },
        };
        let idx = matching_nodes(members, self.search.query.as_str());
        let ghost kept = filtered_nodes(members@, self.search.query@);
        assert(idx@.len() == kept.len());
        let total = idx.len();
        let a = concat(" ", group);
        let b = concat(a.as_str(), " (");
        let c = concat(b.as_str(), decimal_string(total as u64).as_str());
        let title = concat(c.as_str(), ") ");
        let now: String = match assoc_get(&self.proxy.group_now, group) {
            Some(s) => owned(s.as_str()),
            None => String::new(),
        };
        let ghost now_v = current_node(assoc_view(self.proxy.group_now@), group@);
        assert(now@ == now_v);
        let mut lines: Vec<NodeLine> = Vec::new();
        let mut k: usize = 0;
        while k < total
            invariant
                k <= total,
                total == idx@.len(),
                forall|j: int| 0 <= j < idx@.len() ==> (#[trigger] idx@[j]) < members@.len(),
                idx@.map_values(|j: usize| members@[j as int]) == kept,
                now@ == now_v,
                lines@.len() == k,
                forall|j: int| 0 <= j < k ==> (#[trigger] lines@[j])@ == node_line_of(
                    kept[j]@,
                    recorded_delay(assoc_view(self.proxy.delays@), kept[j]@),
                    kept[j]@ == now_v,
                    j == self.proxy.selected_node,
                    width as nat,
                ),
            decreases total - k,
        {
            let name = members[idx[k]].as_str();
            assert(kept[k as int] == members@[idx@[k as int] as int]);
            let delay: u64 = match assoc_get(&self.proxy.delays, name) {
                Some(d) => *d,
                None => 0,
            };
            let current = str_eq(name, now.as_str());
            lines.push(node_line(name, delay, current, k == self.proxy.selected_node, width));
            k = k + 1;
        }
        NodeList { notice: None, title, lines }
    }
}

} // verus!
