//! The connections table: its title, its headers with the sort marker, and
//! one row per active connection.

use vstd::prelude::*;
use crate::api::types::ConnectionItem;
use crate::app::App;
use crate::text::{concat, decimal, decimal_string, join, join_strings, owned, str_is_empty, take_chars, views};
use crate::utils::format::{bytes_to_human, bytes_to_human_spec, pad_or_truncate, pad_or_truncate_spec};

verus! {

/// The name of column `i` of the connections table.
pub open spec fn column_header(i: int) -> Seq<char> {
    if i == 0 {
        "Host"@
    } else if i == 1 {
        "Net"@
    } else if i == 2 {
        "Type"@
    } else if i == 3 {
        "Rule"@
    } else if i == 4 {
        "Chain"@
    } else if i == 5 {
        "DL"@
    } else if i == 6 {
        "UL"@
    } else {
        "Time"@
    }
}

/// The number of columns.
pub const COLUMN_COUNT: usize = 8;

fn column_name(i: usize) -> (r: &'static str)
    ensures
        r@ == column_header(i as int),
{
    if i == 0 {
        "Host"
    } else if i == 1 {
        "Net"
    } else if i == 2 {
        "Type"
    } else if i == 3 {
        "Rule"
    } else if i == 4 {
        "Chain"
    } else if i == 5 {
        "DL"
    } else if i == 6 {
        "UL"
    } else {
        "Time"
    }
}

/// The column the table is sorted by: the chosen one, the last when the
/// choice is past the end.
pub open spec fn sort_index(sort_col: nat) -> nat {
    if sort_col < COLUMN_COUNT - 1 { sort_col } else { (COLUMN_COUNT - 1) as nat }
}

/// The label of column `i`: the sorted column carries `▼` when descending
/// and `▲` when ascending in front of its name.
pub open spec fn header_label(i: int, sort_col: nat, desc: bool) -> Seq<char> {
    if i == sort_index(sort_col) {
        (if desc { "\u{25bc}"@ } else { "\u{25b2}"@ }) + column_header(i)
    } else {
        column_header(i)
    }
}

/// The header labels of the connections table.
pub fn connection_headers(sort_col: usize, sort_desc: bool) -> (h: Vec<String>)
    ensures
        h@.len() == COLUMN_COUNT,
        forall|i: int| 0 <= i < COLUMN_COUNT ==> (#[trigger] h@[i])@ == header_label(i, sort_col as nat, sort_desc),
{
    let idx = if sort_col < COLUMN_COUNT - 1 { sort_col } else { COLUMN_COUNT - 1 };
    let mut h: Vec<String> = Vec::new();
    let mut i: usize = 0;
    while i < COLUMN_COUNT
        invariant
            i <= COLUMN_COUNT,
            idx == sort_index(sort_col as nat),
            h@.len() == i,
            forall|j: int| 0 <= j < i ==> (#[trigger] h@[j])@ == header_label(j, sort_col as nat, sort_desc),
        decreases COLUMN_COUNT - i,
    {
        let name = column_name(i);
        let label = if i == idx {
            if sort_desc { concat("\u{25bc}", name) } else { concat("\u{25b2}", name) }
        } else {
            owned(name)
        };
        h.push(label);
        i = i + 1;
    }
    h
}

/// The host a connection is shown under: its host, else the metadata's
/// host, else the destination address, the last two with the destination
/// port after a colon.
pub open spec fn host_text(c: ConnectionItem) -> Seq<char> {
    if c.host@.len() == 0 {
        if c.metadata.host@.len() == 0 {
            c.metadata.destination_ip@ + ":"@ + c.metadata.destination_port@
        } else {
            c.metadata.host@ + ":"@ + c.metadata.destination_port@
        }
    } else {
        c.host@
    }
}

/// The host column of a connection, fitted to 20 columns.
pub fn connection_host(c: &ConnectionItem) -> (r: String)
    ensures
        r@ == pad_or_truncate_spec(host_text(*c), 20),
{
    let host = if str_is_empty(c.host.as_str()) {
        let base = if str_is_empty(c.metadata.host.as_str()) {
            owned(c.metadata.destination_ip.as_str())
        } else {
            owned(c.metadata.host.as_str())
        };
        let with_colon = concat(base.as_str(), ":");
        concat(with_colon.as_str(), c.metadata.destination_port.as_str())
    } else {
        owned(c.host.as_str())
    };
    pad_or_truncate(host.as_str(), 20)
}

/// One row of the connections table.
#[derive(Debug)]
pub struct ConnectionRow {
    pub host: String,
    pub network: String,
    pub conn_type: String,
    pub rule: String,
    pub chain: String,
    pub download: String,
    pub upload: String,
    pub time: String,
    /// Whether the row is the selected one.
    pub selected: bool,
}

/// The text of a connection row.
pub struct ConnectionRowView {
    pub host: Seq<char>,
    pub network: Seq<char>,
    pub conn_type: Seq<char>,
    pub rule: Seq<char>,
    pub chain: Seq<char>,
    pub download: Seq<char>,
    pub upload: Seq<char>,
    pub time: Seq<char>,
    pub selected: bool,
}

impl View for ConnectionRow {
    type V = ConnectionRowView;

    open spec fn view(&self) -> ConnectionRowView {
        ConnectionRowView {
            host: self.host@,
            network: self.network@,
            conn_type: self.conn_type@,
            rule: self.rule@,
            chain: self.chain@,
            download: self.download@,
            upload: self.upload@,
            time: self.time@,
            selected: self.selected,
        }
    }
}

/// The row of a connection: host (20 columns), network, type, rule (12
/// columns), chain joined with `→` (10 columns), traffic down and up, and
/// the first 8 characters of the start time.
pub open spec fn connection_row_of(c: ConnectionItem, selected: bool) -> ConnectionRowView {
    ConnectionRowView {
        host: pad_or_truncate_spec(pad_or_truncate_spec(host_text(c), 20), 20),
        network: c.metadata.network@,
        conn_type: c.conn_type@,
        rule: pad_or_truncate_spec(c.rule@, 12),
        chain: pad_or_truncate_spec(join(views(c.chains@), "\u{2192}"@), 10),
        download: bytes_to_human_spec(c.download as nat),
        upload: bytes_to_human_spec(c.upload as nat),
        time: if c.start@.len() <= 8 { c.start@ } else { c.start@.take(8) },
        selected,
    }
}

/// The row of one connection.
pub fn connection_row(c: &ConnectionItem, selected: bool) -> (r: ConnectionRow)
    ensures
        r@ == connection_row_of(*c, selected),
{
    let host = connection_host(c);
    let chain = join_strings(&c.chains, "\u{2192}");
    ConnectionRow {
        host: pad_or_truncate(host.as_str(), 20),
        network: owned(c.metadata.network.as_str()),
        conn_type: owned(c.conn_type.as_str()),
        rule: pad_or_truncate(c.rule.as_str(), 12),
        chain: pad_or_truncate(chain.as_str(), 10),
        download: bytes_to_human(c.download),
        upload: bytes_to_human(c.upload),
        time: take_chars(c.start.as_str(), 8),
        selected,
    }
}

/// The connections table.
#[derive(Debug)]
pub struct ConnectionsTable {
    pub title: String,
    pub headers: Vec<String>,
    pub rows: Vec<ConnectionRow>,
}

/// The title of the connections table: the count and the traffic totals.
pub open spec fn connections_title(count: nat, download: u64, upload: u64) -> Seq<char> {
    "  Connections ("@ + decimal(count) + ") \u{2193}"@ + bytes_to_human_spec(download as nat) + " \u{2191}"@
        + bytes_to_human_spec(upload as nat) + "  "@
}

impl App {
    /// The connections table: every active connection in order, the
    /// selected one marked.
    pub fn connections_table(&self) -> (t: ConnectionsTable)
        ensures
            t.title@ == connections_title(self.connections.connections@.len(), self.connections.download_total,
                self.connections.upload_total),
            t.headers@.len() == COLUMN_COUNT,
            forall|i: int| 0 <= i < COLUMN_COUNT ==> (#[trigger] t.headers@[i])@ == header_label(i,
                self.connections.sort_col as nat, self.connections.sort_desc),
            t.rows@.len() == self.connections.connections@.len(),
            forall|i: int| 0 <= i < t.rows@.len() ==> (#[trigger] t.rows@[i])@ == connection_row_of(
                self.connections.connections@[i], i == self.connections.selected),
    {
        let conns = &self.connections.connections;
        let n = conns.len();
        let a = concat("  Connections (", decimal_string(n as u64).as_str());
        let b = concat(a.as_str(), ") \u{2193}");
        let c = concat(b.as_str(), bytes_to_human(self.connections.download_total).as_str());
        let d = concat(c.as_str(), " \u{2191}");
        let e = concat(d.as_str(), bytes_to_human(self.connections.upload_total).as_str());
        let title = concat(e.as_str(), "  ");
        let headers = connection_headers(self.connections.sort_col, self.connections.sort_desc);
        let mut rows: Vec<ConnectionRow> = Vec::new();
        let mut i: usize = 0;
        while i < n
            invariant
                n == conns@.len(),
                conns == &self.connections.connections,
                i <= n,
                rows@.len() == i,
                forall|j: int| 0 <= j < i ==> (#[trigger] rows@[j])@ == connection_row_of(conns@[j],
                    j == self.connections.selected),
            decreases n - i,
        {
            rows.push(connection_row(&conns[i], i == self.connections.selected));
            i = i + 1;
        }
        ConnectionsTable { title, headers, rows }
    }
}

} // verus!
