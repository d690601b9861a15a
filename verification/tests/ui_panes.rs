use geltui::config::{Config, GeneralConfig, MpvConfig, ThemeConfig};
use geltui::jellyfin::{MediaItem, UserData};
use geltui::state::{BrowserState, Navigator};
use geltui::style::{Color, Style};
use geltui::theme::Theme;
use geltui::ui::breadcrumb::{breadcrumb_spans, fit_segments, join_with_sep, shorten_to};
use geltui::ui::browser::{compute_offset, visible_rows};
use geltui::ui::details::details_text;
use geltui::ui::footer::footer_line;
use geltui::ui::menu::{centered_rect, help_overlay, menu_overlay, Menu};
use geltui::ui::{layout, Rect, StyledSpan};

fn theme() -> Theme {
    let cfg = Config {
        server_url: "http://s".to_string(),
        api_key: Some("k".to_string()),
        username: None,
        password: None,
        user_id: None,
        general: GeneralConfig::default(),
        mpv: MpvConfig::default(),
        theme: ThemeConfig::default(),
    };
    Theme::from_config(&cfg)
}

fn item(name: &str, kind: &str, folder: bool) -> MediaItem {
    MediaItem {
        id: format!("id-{name}"),
        name: name.to_string(),
        kind: kind.to_string(),
        is_folder: folder,
        overview: None,
        production_year: None,
        runtime_ticks: None,
        child_count: None,
        media_type: None,
        collection_type: None,
        series_id: None,
        series_name: None,
        index_number: None,
        parent_index_number: None,
        community_rating: None,
        official_rating: None,
        genres: Vec::new(),
        user_data: UserData::default(),
    }
}

fn texts(spans: &[StyledSpan]) -> Vec<String> {
    spans.iter().map(|s| s.text.clone()).collect()
}

fn segs(v: &[&str]) -> Vec<String> {
    v.iter().map(|s| s.to_string()).collect()
}

#[test]
fn shorten_to_budgets() {
    assert_eq!(shorten_to("Libraries", 20), "Libraries");
    assert_eq!(shorten_to("Libraries", 6), "Lib...");
    assert_eq!(shorten_to("Libraries", 3), "L..");
    assert_eq!(shorten_to("Libraries", 1), "L");
    assert_eq!(shorten_to("Libraries", 0), "");
}

#[test]
fn fit_segments_unchanged_when_room() {
    let s = segs(&["Libraries", "Shows", "The Expanse"]);
    assert_eq!(fit_segments(&s, 80), s);
    assert_eq!(join_with_sep(&s), "Libraries > Shows > The Expanse");
}

#[test]
fn fit_segments_shortens_longest_first() {
    let s = segs(&["Libraries", "Shows", "The Expanse"]);
    // 9 + 5 + 11 + 6 = 31 characters; 29 fit: the longest loses two.
    assert_eq!(fit_segments(&s, 29), segs(&["Libraries", "Shows", "The Ex..."]));
    // Ties go to the later segment.
    let t = segs(&["abcdef", "ghijkl"]);
    assert_eq!(fit_segments(&t, 14), segs(&["abcdef", "gh..."]));
}

#[test]
fn fit_segments_falls_back_to_left_cut() {
    let s = segs(&["Libraries", "Shows", "The Expanse"]);
    let out = fit_segments(&s, 12);
    assert_eq!(out.len(), 1);
    assert_eq!(out[0].chars().count(), 12);
    assert!(out[0].starts_with("..."));
    assert_eq!(out[0], "...S.. > T..");
    assert_eq!(fit_segments(&segs(&[]), 10), Vec::<String>::new());
    assert_eq!(fit_segments(&segs(&["abcdef"]), 2), segs(&[".."]));
    assert_eq!(fit_segments(&segs(&["Libraries"]), 1), segs(&["."]));
}

#[test]
fn breadcrumb_styles_last_segment() {
    let th = theme();
    let mut nav = Navigator::new(BrowserState::new(None, None, "Libraries".to_string(), vec![]));
    nav.push(BrowserState::new(Some("a".to_string()), Some("Folder".to_string()), "Shows".to_string(), vec![]));
    let spans = breadcrumb_spans(nav.trail(), 40, &th);
    assert_eq!(texts(&spans), vec!["Libraries", " > ", "Shows"]);
    assert_eq!(spans[0].style, Style::new());
    assert_eq!(spans[1].style, th.muted);
    assert_eq!(spans[2].style, th.breadcrumb_current);
    assert!(breadcrumb_spans(nav.trail(), 0, &th).is_empty());
}

#[test]
fn compute_offset_centers_selection() {
    assert_eq!(compute_offset(0, 5, 10), 0);
    assert_eq!(compute_offset(7, 100, 10), 2);
    assert_eq!(compute_offset(3, 100, 10), 0);
    assert_eq!(compute_offset(99, 100, 10), 90);
    assert_eq!(compute_offset(50, 100, 0), 0);
}

#[test]
fn list_rows_pad_and_style() {
    let th = theme();
    let mut ep = item("Pilot", "Episode", false);
    ep.index_number = Some(3);
    ep.user_data.played = true;
    ep.user_data.is_favorite = true;
    let items = vec![item("Season 1", "Season", true), ep, item("Notes", "Book", false)];
    let state = BrowserState::with_selection(None, Some("Season".to_string()), "S".to_string(), items, 1);
    let rows = visible_rows(&state, &th, 20, 4);
    assert_eq!(
        texts(&rows),
        vec!["> Season 1          ", "* 03 - Pilot * v    ", "- Notes             ", "                    "]
    );
    assert_eq!(rows[0].style, Style::new());
    assert_eq!(rows[1].style, Style::new().patch(th.selection));
    assert_eq!(rows[2].style, th.muted);
    let narrow = visible_rows(&state, &th, 5, 1);
    assert_eq!(texts(&narrow), vec!["* 03 "]);
    assert!(visible_rows(&state, &th, 0, 3).is_empty());
}

#[test]
fn details_of_an_episode() {
    let th = theme();
    let mut ep = item("Remember the Cant", "Episode", false);
    ep.series_name = Some("The Expanse".to_string());
    ep.parent_index_number = Some(1);
    ep.index_number = Some(3);
    ep.official_rating = Some("TV-14".to_string());
    ep.community_rating = Some("8.4".to_string());
    ep.production_year = Some(2015);
    ep.runtime_ticks = Some(42 * 60 * 10_000_000);
    ep.genres = vec!["Drama".to_string(), "Sci-Fi".to_string()];
    ep.overview = Some("The Rocinante picks up a distress call.".to_string());
    let lines = details_text(Some(&ep), &th);
    assert_eq!(
        texts(&lines),
        vec![
            "Remember the Cant",
            "The Expanse \u{2014} Season 1, Episode 3",
            "",
            "TV-14  |  \u{2605} 8.4  |  2015  |  42m",
            "Drama, Sci-Fi",
            "",
            "The Rocinante picks up a distress call.",
        ]
    );
    assert_eq!(lines[0].style, th.title);
    assert_eq!(lines[1].style, th.muted);
    assert_eq!(lines[6].style, th.description);
}

#[test]
fn details_placeholders() {
    let th = theme();
    let lines = details_text(None, &th);
    assert_eq!(
        texts(&lines),
        vec!["No items found.", "", "Check the Jellyfin credentials and library visibility."]
    );
    let mut f = item("Shows", "CollectionFolder", true);
    f.child_count = Some(12);
    f.collection_type = Some("tvshows".to_string());
    f.overview = Some("   ".to_string());
    let lines = details_text(Some(&f), &th);
    assert_eq!(texts(&lines), vec!["Shows", "", "12 items", "tvshows", "", "No overview available."]);
    assert_eq!(lines[5].style, th.muted);
}

#[test]
fn footer_fits_status_and_hints() {
    let th = theme();
    let spans = footer_line("Ready.", "q quit", 20, &th);
    assert_eq!(texts(&spans), vec!["Ready.", "        ", "q quit"]);
    assert_eq!(spans[2].style, th.hint);
    let spans = footer_line("Ready.", "Enter open  h back  q quit", 20, &th);
    assert_eq!(texts(&spans), vec!["Ready.", "  ", "Enter ope..."]);
    let spans = footer_line("A very long status message", "q quit", 10, &th);
    assert_eq!(texts(&spans), vec!["A very ...", "", ""]);
    assert!(footer_line("x", "y", 0, &th).is_empty());
}

#[test]
fn menu_wraps_around() {
    let mut m = Menu::new("T".to_string(), segs(&["a", "b", "c"]));
    m.previous();
    assert_eq!(m.selected, 2);
    m.next();
    assert_eq!(m.selected, 0);
    m.next();
    m.next();
    m.next();
    assert_eq!(m.selected, 0);
    let mut empty = Menu::new("E".to_string(), vec![]);
    empty.next();
    empty.previous();
    assert_eq!(empty.selected, 0);
}

#[test]
fn overlays_are_centered() {
    let th = theme();
    let screen = Rect { x: 0, y: 0, width: 80, height: 24 };
    let mut m = Menu::new("Pilot  (Episode)".to_string(), segs(&["Mark watched", "Cancel"]));
    m.next();
    let o = menu_overlay(&m, &th, screen);
    assert_eq!(o.frame, Rect { x: 30, y: 9, width: 20, height: 5 });
    assert_eq!(o.body, Rect { x: 32, y: 10, width: 16, height: 3 });
    assert_eq!(o.lines.len(), 4);
    assert_eq!(o.lines[3][0].text, "> Cancel");
    assert_eq!(o.lines[3][0].style, th.selection);
    assert_eq!(o.lines[2][0].text, "  Mark watched");
    let h = help_overlay(&segs(&["q", "Esc"]), &segs(&["quit", "close menu"]), &th, screen);
    assert_eq!(h.frame, Rect { x: 30, y: 9, width: 20, height: 6 });
    assert_eq!(h.lines[2][0].text, "q    ");
    assert_eq!(h.lines[3][0].text, "Esc  ");
    assert_eq!(h.lines[5][0].text, "Press Esc or ? to close");
    assert_eq!(centered_rect(screen, 100, 100), screen);
}

#[test]
fn layout_splits_screen() {
    let a = layout(Rect { x: 0, y: 0, width: 100, height: 10 });
    assert_eq!(a.breadcrumb, Rect { x: 0, y: 0, width: 100, height: 1 });
    assert_eq!(a.footer, Rect { x: 0, y: 9, width: 100, height: 1 });
    assert_eq!(a.list, Rect { x: 0, y: 2, width: 42, height: 7 });
    assert_eq!(a.details, Rect { x: 44, y: 2, width: 56, height: 7 });
    let _ = Color::Reset;
}

#[test]
fn fit_segments_stops_at_three_characters() {
    let s = segs(&["Libraries", "Shows", "The Expanse"]);
    // 21 cells leave 15 for the segments: 5 each.
    assert_eq!(fit_segments(&s, 21), segs(&["Li...", "Shows", "Th..."]));
    // 15 cells leave 9: every segment at its minimum of 3, its first
    // character kept, which fits.
    let out = fit_segments(&s, 15);
    assert_eq!(out, segs(&["L..", "S..", "T.."]));
    assert_eq!(join_with_sep(&out).chars().count(), 15);
}

#[test]
fn list_fills_pane_and_shows_selection() {
    let th = theme();
    let items: Vec<MediaItem> = (0..9).map(|i| item(&format!("Movie {i}"), "Movie", false)).collect();
    let state = BrowserState::with_selection(None, None, "Films".to_string(), items, 8);
    let rows = visible_rows(&state, &th, 12, 4);
    assert_eq!(rows.len(), 4);
    assert!(rows.iter().all(|r| r.text.chars().count() == 12));
    let selected: Vec<&StyledSpan> = rows.iter().filter(|r| r.style == Style::new().patch(th.selection)).collect();
    assert_eq!(selected.len(), 1);
    assert_eq!(selected[0].text, "* Movie 8   ");
    assert_eq!(rows[3].text, "* Movie 8   ");
}

#[test]
fn layout_keeps_panes_in_order_on_small_screens() {
    for (w, h) in [(1u16, 1u16), (3, 2), (5, 3), (80, 24), (7, 4)] {
        let a = layout(Rect { x: 2, y: 1, width: w, height: h });
        assert!(a.breadcrumb.y + a.breadcrumb.height <= a.list.y);
        assert!(a.list.y + a.list.height <= a.footer.y);
        assert!(a.list.x + a.list.width <= a.details.x);
        assert!(a.footer.y + a.footer.height <= 1 + h);
        assert!(a.details.x + a.details.width <= 2 + w);
    }
}

#[test]
fn overlay_at_the_edge_of_the_coordinates() {
    let th = theme();
    let screen = Rect { x: 65534, y: 65535, width: 1, height: 0 };
    let m = Menu::new("T".to_string(), segs(&["A"]));
    let o = menu_overlay(&m, &th, screen);
    assert_eq!(o.frame, Rect { x: 65534, y: 65535, width: 1, height: 0 });
    assert_eq!(o.body, Rect { x: 65535, y: 65535, width: 0, height: 0 });
}

#[test]
fn layout_rows_and_gutter_are_exact() {
    for (w, h) in [(2u16, 3u16), (10, 5), (25, 12), (200, 60)] {
        let a = layout(Rect { x: 3, y: 4, width: w, height: h });
        assert_eq!(a.breadcrumb, Rect { x: 3, y: 4, width: w, height: 1 });
        assert_eq!(a.footer, Rect { x: 3, y: 4 + h - 1, width: w, height: 1 });
        assert_eq!((a.list.y, a.list.height), (6, h - 3));
        assert_eq!(a.list.x, 3);
        assert_eq!(a.details.x, a.list.x + a.list.width + 2);
        assert_eq!(a.details.x + a.details.width, 3 + w);
    }
}
