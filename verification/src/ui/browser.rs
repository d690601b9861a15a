//! The list pane: one row per item, scrolled so that the selection shows.

use vstd::prelude::*;
use crate::jellyfin::MediaItem;
use crate::state::BrowserState;
use crate::style::{Style, plain_style};
use crate::text::{append, chars_of, concat3, decimal2, decimal2_string, owned, repeat_char, repeated, string_of_range};
use crate::theme::{FOLDER_ICON, OTHER_ICON, PLAYABLE_ICON, Theme};
use super::{StyledSpan, span, span_views};

verus! {

/// The first row shown: the selection as near the middle as the list
/// allows.
pub open spec fn offset_for(selected: nat, total: nat, visible: nat) -> nat {
    if visible == 0 || total <= visible {
        0
    } else {
        let half = visible / 2;
        let desired = if selected >= half { (selected - half) as nat } else { 0 };
        let max_offset = (total - visible) as nat;
        if desired < max_offset { desired } else { max_offset }
    }
}

/// Centered-ish offset that always shows the selection.
pub fn compute_offset(selected: usize, total: usize, visible: usize) -> (res: usize)
    ensures
        res == offset_for(selected as nat, total as nat, visible as nat),
{
    if visible == 0 || total <= visible {
        return 0;
    }
    let half = visible / 2;
    let desired = if selected >= half { selected - half } else { 0 };
    let max_offset = total - visible;
    if desired < max_offset { desired } else { max_offset }
}

/// The window of `visible` rows starting at the offset holds the selected
/// row, and stays within the list.
pub proof fn law_offset_shows_selection(selected: nat, total: nat, visible: nat)
    requires
        selected < total,
        visible > 0,
    ensures
        offset_for(selected, total, visible) <= selected < offset_for(selected, total, visible)
            + visible,
        total > visible ==> offset_for(selected, total, visible) + visible <= total,
{
}

/// The icon in front of an item: folder, playable, or other.
pub open spec fn icon(item: MediaItem) -> Seq<char> {
    if item.is_folder {
        ">"@
    } else if item.spec_is_playable() {
        "*"@
    } else {
        "-"@
    }
}

fn icon_for(item: &MediaItem) -> (res: &'static str)
    ensures
        res@ == icon(*item),
{
    if item.is_folder {
        FOLDER_ICON
    } else if item.is_playable() {
        PLAYABLE_ICON
    } else {
        OTHER_ICON
    }
}

/// The label of an item: in a season view, episodes are numbered with two
/// digits; favorites get ` *` and played items ` v`.
pub open spec fn label(item: MediaItem, is_season: bool) -> Seq<char> {
    let base = if is_season && item.index_number is Some {
        decimal2(item.index_number->0 as nat) + " - "@ + item.name@
    } else {
        item.name@
    };
    let fav = if item.user_data.is_favorite { " *"@ } else { seq![] };
    let played = if item.user_data.played { " v"@ } else { seq![] };
    base + fav + played
}

fn format_label(item: &MediaItem, is_season: bool) -> (res: String)
    ensures
        res@ == label(*item, is_season),
{
    let mut out = match item.index_number {
        Some(ep) if is_season => {
            let num = decimal2_string(ep as u64);
            concat3(num.as_str(), " - ", item.name.as_str())
        },
        _ => owned(item.name.as_str()),
    };
    if item.user_data.is_favorite {
        append(&mut out, " *");
    }
    if item.user_data.played {
        append(&mut out, " v");
    }
    proof {
        if !item.user_data.is_favorite {
            assert(out@ =~= out@ + Seq::<char>::empty());
        }
    }
    assert(out@ =~= label(*item, is_season));
    out
}

/// A row's text: icon, space, label, cut or padded with spaces to exactly
/// `width` characters.
pub open spec fn row_text(item: MediaItem, is_season: bool, width: nat) -> Seq<char> {
    let raw = icon(item) + " "@ + label(item, is_season);
    if raw.len() >= width {
        raw.take(width as int)
    } else {
        raw + repeat_char(' ', (width - raw.len()) as nat)
    }
}

fn build_row(item: &MediaItem, is_season: bool, width: usize) -> (res: String)
    ensures
        res@ == row_text(*item, is_season, width as nat),
        res@.len() == width,
{
    let label = format_label(item, is_season);
    let raw = concat3(icon_for(item), " ", label.as_str());
    let v = chars_of(raw.as_str());
    let n = v.len();
    if n >= width {
        let res = string_of_range(v.as_slice(), 0, width);
        assert(v@.subrange(0, width as int) =~= v@.take(width as int));
        res
    } else {
        let mut padded = raw;
        let pad = repeated(' ', width - n);
        append(&mut padded, pad.as_str());
        padded
    }
}

/// The style of a listed item: muted when it can be neither opened nor
/// played, with the selection style on top when it is selected.
pub open spec fn row_style(item: MediaItem, selected: bool, theme: Theme) -> Style {
    let base = if !item.is_folder && !item.spec_is_playable() { theme.muted } else { plain_style() };
    if selected {
        base.spec_patch(theme.selection)
    } else {
        base
    }
}

/// The row drawn at screen row `row` of a pane `width` cells wide: an item,
/// or blanks below the end of the list.
pub open spec fn list_row(state: BrowserState, theme: Theme, width: nat, offset: nat, row: nat) -> (
    Seq<char>,
    Style,
) {
    let idx = offset + row;
    if idx >= state.items@.len() {
        (repeat_char(' ', width), plain_style())
    } else {
        let item = state.items@[idx as int];
        (
            row_text(item, state.spec_is_season_view(), width),
            row_style(item, idx == state.selected, theme),
        )
    }
}

/// All rows of a pane of `width` by `height` cells.
pub open spec fn list_rows(state: BrowserState, theme: Theme, width: nat, height: nat) -> Seq<
    (Seq<char>, Style),
> {
    if width == 0 || height == 0 {
        seq![]
    } else {
        let total = state.items@.len();
        let offset = if total == 0 { 0 } else { offset_for(state.selected as nat, total, height) };
        Seq::new(height, |row: int| list_row(state, theme, width, offset, row as nat))
    }
}

/// The list pane is filled: one row per screen row, each exactly `width`
/// characters, and the selected item is on screen in the selection style.
pub proof fn law_rows_fill_the_pane(state: BrowserState, theme: Theme, width: nat, height: nat)
    requires
        width > 0,
        height > 0,
    ensures
        list_rows(state, theme, width, height).len() == height,
        forall|r: int| 0 <= r < height ==> (#[trigger] list_rows(state, theme, width, height)[r]).0.len() == width,
        state.selected < state.items@.len() ==> exists|r: int| 0 <= r < height && #[trigger] list_rows(state, theme, width, height)[r] == (
            row_text(state.items@[state.selected as int], state.spec_is_season_view(), width),
            row_style(state.items@[state.selected as int], true, theme),
        ),
{
    let rows = list_rows(state, theme, width, height);
    let total = state.items@.len();
    let offset = if total == 0 { 0 } else { offset_for(state.selected as nat, total, height) };
    assert forall|r: int| 0 <= r < height implies (#[trigger] rows[r]).0.len() == width by {
        let idx = offset + r;
        if idx < total {
            let item = state.items@[idx as int];
            assert(row_text(item, state.spec_is_season_view(), width).len() == width);
        }
    }
    if state.selected < total {
        law_offset_shows_selection(state.selected as nat, total, height);
        let r = state.selected - offset;
        assert(rows[r] == list_row(state, theme, width, offset, r as nat));
    }
}

/// The rows of the list pane, top to bottom, each exactly `width` characters.
pub fn visible_rows(state: &BrowserState, theme: &Theme, width: u16, height: u16) -> (res: Vec<StyledSpan>)
    ensures
        span_views(res@) == list_rows(*state, *theme, width as nat, height as nat),
{
    let mut rows: Vec<StyledSpan> = Vec::new();
    if width == 0 || height == 0 {
        assert(span_views(rows@) =~= list_rows(*state, *theme, width as nat, height as nat));
        return rows;
    }
    let visible = height as usize;
    let total = state.items.len();
    let offset = if total == 0 { 0 } else { compute_offset(state.selected, total, visible) };
    proof {
        if total > 0 {
            assert(offset <= total);
        }
    }
    let is_season = state.is_season_view();
    let w = width as usize;
    for row in 0..visible
        invariant
            visible == height as nat,
            w == width as nat,
            total == state.items@.len(),
            offset == (if total == 0 { 0 } else { offset_for(state.selected as nat, total as nat, visible as nat) }),
            is_season == state.spec_is_season_view(),
            span_views(rows@) =~= Seq::new(row as nat, |r: int| list_row(*state, *theme, w as nat, offset as nat, r as nat)),
    {
        let ghost before = span_views(rows@);
        if total == 0 || offset >= total || row >= total - offset {
            rows.push(span(repeated(' ', w), Style::new()));
        } else {
            let idx = offset + row;
            let item = &state.items[idx];
            let text = build_row(item, is_season, w);
            let base = if !item.is_folder && !item.is_playable() { theme.muted } else { Style::new() };
            let style = if idx == state.selected { base.patch(theme.selection) } else { base };
            rows.push(span(text, style));
        }
        assert(span_views(rows@) =~= before.push(list_row(*state, *theme, w as nat, offset as nat, row as nat)));
    }
    rows
}

} // verus!
