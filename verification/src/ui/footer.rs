//! The footer: the status message on the left, key hints on the right.

use vstd::prelude::*;
use crate::style::{Style, plain_style};
use crate::text::{chars_of, owned, repeat_char, repeated};
use crate::theme::{Theme, lemma_truncated_len, truncate, truncated};
use super::{StyledSpan, span, span_views};

verus! {

/// Hints are only shown when at least this many characters of them fit.
pub const MIN_HINT_CHARS: usize = 8;

/// The status and hints as shown in `width` cells: both when they fit with
/// two spaces between; else the hints cut to the room left, when that is
/// at least eight characters; else the status cut to the width alone.
pub open spec fn footer_texts(status: Seq<char>, hints: Seq<char>, width: nat) -> (Seq<char>, Seq<char>) {
    if status.len() + 2 + hints.len() <= width {
        (status, hints)
    } else if status.len() + 2 + 8 <= width {
        (status, truncated(hints, (width - status.len() - 2) as nat))
    } else {
        (truncated(status, width), seq![])
    }
}

/// The footer line: status, the gap that pushes the hints to the right
/// edge, and the hints.
pub open spec fn footer_spans(status: Seq<char>, hints: Seq<char>, width: nat, theme: Theme) -> Seq<(Seq<char>, Style)> {
    if width == 0 {
        seq![]
    } else {
        let (s, h) = footer_texts(status, hints, width);
        let used = s.len() + h.len();
        let gap = if used <= width { (width - used) as nat } else { 0 };
        seq![(s, plain_style()), (repeat_char(' ', gap), plain_style()), (h, theme.hint)]
    }
}

/// The footer for `status` and `hints` in a line `width` cells wide.
pub fn footer_line(status: &str, hints: &str, width: u16, theme: &Theme) -> (res: Vec<StyledSpan>)
    requires
        status@.len() + hints@.len() + 16 <= usize::MAX,
    ensures
        span_views(res@) == footer_spans(status@, hints@, width as nat, *theme),
{
    let mut spans: Vec<StyledSpan> = Vec::new();
    if width == 0 {
        assert(span_views(spans@) =~= footer_spans(status@, hints@, width as nat, *theme));
        return spans;
    }
    let width = width as usize;
    let status_len = chars_of(status).len();
    let hints_len = chars_of(hints).len();
    let padding: usize = 2;
    let (status_final, hints_final) = if status_len + padding + hints_len <= width {
        (owned(status), owned(hints))
    } else if status_len + padding + MIN_HINT_CHARS <= width {
        let available = width - status_len - padding;
        (owned(status), truncate(hints, available))
    } else {
        (truncate(status, width), String::new())
    };
    let used = chars_of(status_final.as_str()).len() + chars_of(hints_final.as_str()).len();
    let gap = if used <= width { width - used } else { 0 };
    spans.push(span(status_final, Style::new()));
    spans.push(span(repeated(' ', gap), Style::new()));
    spans.push(span(hints_final, theme.hint));
    assert(span_views(spans@) =~= footer_spans(status@, hints@, width as nat, *theme));
    spans
}

/// With room for the status and a gap of two, the status is shown whole
/// and the line fills the width exactly.
pub proof fn law_footer_keeps_status(status: Seq<char>, hints: Seq<char>, width: nat)
    requires
        status.len() + 2 <= width,
    ensures
        footer_texts(status, hints, width).0 == status,
        footer_texts(status, hints, width).0.len() + footer_texts(status, hints, width).1.len()
            <= width,
{
    lemma_truncated_len(hints, (width - status.len() - 2) as nat);
    lemma_truncated_len(status, width);
}

} // verus!
