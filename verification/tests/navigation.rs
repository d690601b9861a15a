use geltui::jellyfin::{MediaItem, UserData};
use geltui::state::{BrowserState, Navigator};

fn item(name: &str, kind: &str) -> MediaItem {
    MediaItem {
        id: name.to_string(),
        name: name.to_string(),
        kind: kind.to_string(),
        is_folder: false,
        overview: None,
        production_year: None,
        runtime_ticks: None,
        child_count: None,
        media_type: None,
        collection_type: None,
        series_id: None,
        series_name: None,
        index_number: None,
        parent_index_number: None,
        community_rating: None,
        official_rating: None,
        genres: Vec::new(),
        user_data: UserData::default(),
    }
}

fn view(title: &str, n: usize) -> BrowserState {
    let items = (0..n).map(|i| item(&format!("{title}{i}"), "Movie")).collect();
    BrowserState::new(None, None, title.to_string(), items)
}

#[test]
fn selection_is_clamped() {
    let s = BrowserState::with_selection(None, None, "t".to_string(), vec![item("a", "Movie"), item("b", "Movie")], 9);
    assert_eq!(s.selected, 1);
    let s = BrowserState::with_selection(None, None, "t".to_string(), vec![], 9);
    assert_eq!(s.selected, 0);
    assert!(s.selected_item().is_none());
}

#[test]
fn selection_moves_stop_at_ends() {
    let mut s = view("m", 3);
    s.previous();
    assert_eq!(s.selected, 0);
    s.next();
    s.next();
    s.next();
    assert_eq!(s.selected, 2);
    assert_eq!(s.selected_item().unwrap().name, "m2");
    s.previous();
    assert_eq!(s.selected, 1);
    let mut e = view("e", 0);
    e.next();
    e.previous();
    assert_eq!(e.selected, 0);
}

#[test]
fn season_view_and_playable() {
    let s = BrowserState::new(Some("x".to_string()), Some("Season".to_string()), "S1".to_string(), vec![]);
    assert!(s.is_season_view());
    assert!(!view("a", 0).is_season_view());
    let mut other = item("doc", "Book");
    assert!(!other.is_playable());
    other.media_type = Some("Audio".to_string());
    assert!(other.is_playable());
    other.is_folder = true;
    assert!(!other.is_playable());
    assert!(item("e", "MusicVideo").is_playable());
}

#[test]
fn navigator_push_pop_replace() {
    let mut nav = Navigator::new(view("root", 2));
    assert_eq!(nav.depth(), 1);
    assert!(!nav.pop());
    assert_eq!(nav.depth(), 1);
    nav.push(view("child", 1));
    assert_eq!(nav.depth(), 2);
    assert_eq!(nav.current().title, "child");
    nav.current_mut().selected = 0;
    nav.replace_current(view("fresh", 3));
    assert_eq!(nav.depth(), 2);
    assert_eq!(nav.trail()[0].title, "root");
    assert_eq!(nav.current().title, "fresh");
    assert!(nav.pop());
    assert_eq!(nav.current().title, "root");
    assert!(!nav.pop());
}
