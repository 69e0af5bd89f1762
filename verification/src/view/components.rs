//! The pieces shared by every screen: the search bar's text and where a
//! centred popup goes.

use vstd::prelude::*;
use crate::input::Rect;
use crate::text::{concat, owned, str_is_empty};

verus! {

/// What the search bar shows: a hint when there is no query and no search
/// is under way, else `/` and the query, with a cursor while searching.
pub open spec fn search_bar_spec(query: Seq<char>, active: bool) -> Seq<char> {
    if query.len() == 0 && !active {
        "Press / to search\u{2026}"@
    } else if active {
        "/"@ + query + "\u{258e}"@
    } else {
        "/"@ + query
    }
}

/// What the search bar shows.
pub fn search_bar_text(query: &str, active: bool) -> (r: String)
    ensures
        r@ == search_bar_spec(query@, active),
{
    if str_is_empty(query) && !active {
        owned("Press / to search\u{2026}")
    } else if active {
        let a = concat("/", query);
        concat(a.as_str(), "\u{258e}")
    } else {
        concat("/", query)
    }
}

/// `a - b`, or 0 when `b` is larger.
pub open spec fn sub_or_zero(a: u16, b: u16) -> u16 {
    if a >= b { (a - b) as u16 } else { 0 }
}

/// A box of at most `max_width` by `max_height` cells, kept 2 cells clear
/// of each edge of the area, centred in it.
pub open spec fn centered_spec(area: Rect, max_width: u16, max_height: u16) -> Rect {
    let width = if max_width < sub_or_zero(area.width, 4) { max_width } else { sub_or_zero(area.width, 4) };
    let height = if max_height < sub_or_zero(area.height, 4) { max_height } else { sub_or_zero(area.height, 4) };
    Rect {
        x: (area.x + (area.width - width) / 2) as u16,
        y: (area.y + (area.height - height) / 2) as u16,
        width,
        height,
    }
}

/// Where a centred popup goes: the confirmation popup is at most 50 by 5
/// cells, the help overlay 54 by 18.
pub fn centered_popup(area: Rect, max_width: u16, max_height: u16) -> (r: Rect)
    requires
        area.x + area.width <= u16::MAX,
        area.y + area.height <= u16::MAX,
    ensures
        r == centered_spec(area, max_width, max_height),
        r.x + r.width <= area.x + area.width,
        r.y + r.height <= area.y + area.height,
{
    let wlimit = if area.width >= 4 { area.width - 4 } else { 0 };
    let hlimit = if area.height >= 4 { area.height - 4 } else { 0 };
    let width = if max_width < wlimit { max_width } else { wlimit };
    let height = if max_height < hlimit { max_height } else { hlimit };
    Rect { x: area.x + (area.width - width) / 2, y: area.y + (area.height - height) / 2, width, height }
}

} // verus!
