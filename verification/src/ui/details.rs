//! The details pane: title, episode line, metadata, genres and overview of
//! the selected item.

use vstd::prelude::*;
use crate::jellyfin::{MediaItem, format_runtime, runtime_text};
use crate::style::{Style, plain_style};
use crate::text::{append, blank, concat2, concat3, decimal, decimal_string, is_blank, owned};
use crate::theme::Theme;
use super::{StyledSpan, span, span_views};
use super::breadcrumb::{joined_by, join_strings};

verus! {

/// The series line: series name, then season and episode numbers as far as
/// they are known.
pub open spec fn series_line(series: Seq<char>, season: Option<u32>, episode: Option<u32>) -> Seq<char> {
    match (season, episode) {
        (Some(s), Some(e)) => series + " \u{2014} Season "@ + decimal(s as nat) + ", Episode "@
            + decimal(e as nat),
        (None, Some(e)) => series + " \u{2014} Episode "@ + decimal(e as nat),
        _ => series,
    }
}

/// `meta` with `part` added, separated by `  |  ` unless `meta` is empty.
pub open spec fn add_meta(meta: Seq<char>, part: Seq<char>) -> Seq<char> {
    if meta.len() == 0 {
        part
    } else {
        meta + "  |  "@ + part
    }
}

/// The metadata line: official rating, community rating, year, child count
/// and runtime, as far as they are known.
pub open spec fn meta_line(item: MediaItem) -> Seq<char> {
    let m0 = match item.official_rating {
        Some(r) => r@,
        None => seq![],
    };
    let m1 = match item.community_rating {
        Some(c) => add_meta(m0, "\u{2605} "@ + c@),
        None => m0,
    };
    let m2 = match item.production_year {
        Some(y) => add_meta(m1, decimal(y as nat)),
        None => m1,
    };
    let m3 = match item.child_count {
        Some(n) => add_meta(m2, decimal(n as nat) + " items"@),
        None => m2,
    };
    match item.runtime_ticks {
        Some(t) => add_meta(m3, runtime_text(t as nat)),
        None => m3,
    }
}

/// The lines of the details pane, each in one style.
pub open spec fn details_lines(item: Option<MediaItem>, theme: Theme) -> Seq<(Seq<char>, Style)> {
    match item {
        None => seq![
            ("No items found."@, theme.muted),
            (seq![], plain_style()),
            ("Check the Jellyfin credentials and library visibility."@, theme.muted),
        ],
        Some(item) => {
            let title = seq![(item.name@, theme.title)];
            let series = match item.series_name {
                Some(s) => seq![
                    (series_line(s@, item.parent_index_number, item.index_number), theme.muted),
                ],
                None => seq![],
            };
            let meta = meta_line(item);
            let meta_part = if meta.len() > 0 { seq![(meta, plain_style())] } else { seq![] };
            let collection = match item.collection_type {
                Some(c) => seq![(c@, theme.muted)],
                None => seq![],
            };
            let genres = if item.genres@.len() > 0 {
                seq![(joined_by(item.genres@.map_values(|g: String| g@), ", "@), theme.muted)]
            } else {
                seq![]
            };
            let overview = match item.overview {
                Some(o) if !is_blank(o@) => (o@, theme.description),
                _ => ("No overview available."@, theme.muted),
            };
            title + series + seq![(seq![], plain_style())] + meta_part + collection + genres + seq![
                (seq![], plain_style()),
                overview,
            ]
        },
    }
}

fn add_meta_exec(meta: &mut String, part: &str)
    ensures
        final(meta)@ == add_meta(old(meta)@, part@),
{
    if !meta.as_str().is_empty() {
        append(meta, "  |  ");
    }
    append(meta, part);
    proof {
        if old(meta)@.len() == 0 {
            assert(final(meta)@ =~= part@);
        }
    }
}

fn build_meta(item: &MediaItem) -> (res: String)
    ensures
        res@ == meta_line(*item),
{
    let mut meta = String::new();
    if let Some(rating) = &item.official_rating {
        append(&mut meta, rating.as_str());
    }
    assert(meta@ =~= match item.official_rating { Some(r) => r@, None => Seq::<char>::empty() });
    if let Some(score) = &item.community_rating {
        let part = concat2("\u{2605} ", score.as_str());
        add_meta_exec(&mut meta, part.as_str());
    }
    if let Some(yr) = item.production_year {
        let part = decimal_string(yr as u64);
        add_meta_exec(&mut meta, part.as_str());
    }
    if let Some(count) = item.child_count {
        let part = concat2(decimal_string(count as u64).as_str(), " items");
        add_meta_exec(&mut meta, part.as_str());
    }
    if let Some(rt) = item.runtime_ticks {
        let part = format_runtime(rt);
        add_meta_exec(&mut meta, part.as_str());
    }
    meta
}

fn push_line(lines: &mut Vec<StyledSpan>, text: String, style: Style)
    ensures
        span_views(final(lines)@) == span_views(old(lines)@).push((text@, style)),
{
    let ghost before = span_views(lines@);
    lines.push(span(text, style));
    assert(span_views(lines@) =~= before.push((text@, style)));
}

/// The lines of the details pane for the selected item, or a placeholder
/// when nothing is selected.
pub fn details_text(item: Option<&MediaItem>, theme: &Theme) -> (res: Vec<StyledSpan>)
    ensures
        span_views(res@) == details_lines(
            match item {
                Some(i) => Some(*i),
                None => None,
            },
            *theme,
        ),
{
    let mut lines: Vec<StyledSpan> = Vec::new();
    assert(span_views(lines@) =~= Seq::<(Seq<char>, Style)>::empty());
    match item {
        None => {
            push_line(&mut lines, owned("No items found."), theme.muted);
            push_line(&mut lines, String::new(), Style::new());
            push_line(
                &mut lines,
                owned("Check the Jellyfin credentials and library visibility."),
                theme.muted,
            );
            assert(span_views(lines@) =~= details_lines(None, *theme));
            lines
        },
        Some(item) => {
            let ghost spec_lines = details_lines(Some(*item), *theme);
            push_line(&mut lines, owned(item.name.as_str()), theme.title);
            let ghost l1 = span_views(lines@);
            if let Some(series) = &item.series_name {
                let text = match (item.parent_index_number, item.index_number) {
                    (Some(s), Some(e)) => {
                        let mut t = concat3(
                            series.as_str(),
                            " \u{2014} Season ",
                            decimal_string(s as u64).as_str(),
                        );
                        append(&mut t, ", Episode ");
                        append(&mut t, decimal_string(e as u64).as_str());
                        t
                    },
                    (None, Some(e)) => concat3(
                        series.as_str(),
                        " \u{2014} Episode ",
                        decimal_string(e as u64).as_str(),
                    ),
                    _ => owned(series.as_str()),
                };
                push_line(&mut lines, text, theme.muted);
            }
            push_line(&mut lines, String::new(), Style::new());
            let meta = build_meta(item);
            if !meta.as_str().is_empty() {
                push_line(&mut lines, meta, Style::new());
            }
            if let Some(ct) = &item.collection_type {
                push_line(&mut lines, owned(ct.as_str()), theme.muted);
            }
            if item.genres.len() > 0 {
                let g = join_strings(&item.genres, ", ");
                push_line(&mut lines, g, theme.muted);
            }
            push_line(&mut lines, String::new(), Style::new());
            match &item.overview {
                Some(o) if !blank(o.as_str()) => {
                    push_line(&mut lines, owned(o.as_str()), theme.description);
                },
                _ => {
                    push_line(&mut lines, owned("No overview available."), theme.muted);
                },
            }
            assert(span_views(lines@) =~= spec_lines);
            lines
        },
    }
}

} // verus!
