use geltui::app::{App, Key, Modal, MouseKind, Outcome, Request};
use geltui::config::{Config, GeneralConfig, MpvConfig, ThemeConfig};
use geltui::jellyfin::{MediaItem, Session, SessionError, UserData};
use geltui::theme::Theme;
use geltui::ui::Rect;

fn item(id: &str, kind: &str, folder: bool) -> MediaItem {
    MediaItem {
        id: id.to_string(),
        name: format!("N{id}"),
        kind: kind.to_string(),
        is_folder: folder,
        overview: None,
        production_year: None,
        runtime_ticks: None,
        child_count: None,
        media_type: None,
        collection_type: None,
        series_id: None,
        series_name: None,
        index_number: None,
        parent_index_number: None,
        community_rating: None,
        official_rating: None,
        genres: Vec::new(),
        user_data: UserData::default(),
    }
}

fn session() -> Session {
    Session::new(
        reqwest::blocking::Client::new(),
        "http://media.local:8096".to_string(),
        "tok".to_string(),
        "user".to_string(),
    )
}

fn url(id: &str) -> String {
    format!("http://media.local:8096/Items/{id}/Download?download=false")
}

fn app_with(items: Vec<MediaItem>, autoplay: bool) -> App {
    let config = Config {
        server_url: "http://media.local:8096".to_string(),
        api_key: Some("tok".to_string()),
        username: None,
        password: None,
        user_id: None,
        general: GeneralConfig { autoplay_next: autoplay, mouse: true },
        mpv: MpvConfig { bin: None, args: vec!["--fs".to_string()], ontop: true },
        theme: ThemeConfig::default(),
    };
    let theme = Theme::from_config(&config);
    App::new(config, session(), theme, items)
}

fn press(app: &mut App, c: char) -> Request {
    app.handle_key(Key::Char(c), false)
}

#[test]
fn playback_url_builds_stream_address() {
    let s = session();
    assert_eq!(s.playback_url("abc").unwrap(), url("abc"));
    assert_eq!(s.auth_token(), "tok");
    let bad = Session::new(reqwest::blocking::Client::new(), "no scheme".to_string(), "t".to_string(), "u".to_string());
    assert_eq!(bad.playback_url("abc"), Err(SessionError::InvalidPlaybackUrl));
}

#[test]
fn starts_at_libraries_and_quits() {
    let mut app = app_with(vec![item("a", "CollectionFolder", true)], false);
    assert_eq!(app.status(), "Connected to Jellyfin. Press Enter to open or play.");
    assert_eq!(app.navigator().current().title, "Libraries");
    assert!(matches!(press(&mut app, 'q'), Request::Quit));
    assert!(matches!(app.handle_key(Key::Char('c'), true), Request::Quit));
}

#[test]
fn keys_move_selection() {
    let mut app = app_with(vec![item("a", "Movie", false), item("b", "Movie", false)], false);
    assert!(matches!(app.handle_key(Key::Down, false), Request::Idle));
    assert_eq!(app.navigator().current().selected, 1);
    press(&mut app, 'j');
    assert_eq!(app.navigator().current().selected, 1);
    press(&mut app, 'k');
    assert_eq!(app.navigator().current().selected, 0);
}

#[test]
fn open_folder_then_back() {
    let mut app = app_with(vec![item("f", "CollectionFolder", true)], false);
    match app.handle_key(Key::Enter, false) {
        Request::FetchChildren { parent_id } => assert_eq!(parent_id, "f"),
        other => panic!("unexpected {other:?}"),
    }
    assert!(matches!(app.resume(Outcome::Items(vec![item("x", "Movie", false)])), Request::Idle));
    assert_eq!(app.status(), "Loaded folder.");
    assert_eq!(app.navigator().depth(), 2);
    assert_eq!(app.navigator().current().title, "Nf");
    assert_eq!(app.navigator().current().parent_id.as_deref(), Some("f"));
    press(&mut app, 'h');
    assert_eq!(app.status(), "Returned to previous view.");
    assert_eq!(app.navigator().depth(), 1);
    press(&mut app, 'h');
    assert_eq!(app.navigator().depth(), 1);
}

#[test]
fn failed_fetch_aborts() {
    let mut app = app_with(vec![item("f", "Folder", true)], false);
    press(&mut app, 'l');
    assert!(matches!(app.resume(Outcome::Failed), Request::Abort));
}

#[test]
fn refuses_items_that_cannot_play() {
    let mut app = app_with(vec![item("b", "Book", false)], false);
    assert!(matches!(app.handle_key(Key::Right, false), Request::Idle));
    assert_eq!(app.status(), "`Nb` is not a playable item.");
    let mut empty = app_with(vec![], false);
    press(&mut empty, 'l');
    assert_eq!(empty.status(), "Nothing selected.");
}

#[test]
fn plays_a_movie() {
    let mut app = app_with(vec![item("m", "Movie", false)], false);
    match app.handle_key(Key::Enter, false) {
        Request::Launch { program, args } => {
            assert_eq!(program, "mpv");
            assert_eq!(
                args,
                vec![
                    "--http-header-fields=X-MediaBrowser-Token: tok".to_string(),
                    "--fs".to_string(),
                    "--ontop".to_string(),
                    url("m"),
                ]
            );
        },
        other => panic!("unexpected {other:?}"),
    }
    assert!(matches!(app.resume(Outcome::Done), Request::Idle));
    assert_eq!(app.status(), "Playing `Nm` in MPV.");
    assert!(app.take_full_redraw());
    assert!(!app.take_full_redraw());
}

#[test]
fn autoplay_queues_rest_of_series() {
    let mut ep = item("e2", "Episode", false);
    ep.series_id = Some("s".to_string());
    let mut app = app_with(vec![ep], false);
    press(&mut app, 'n');
    assert_eq!(app.status(), "Autoplay next episode: on.");
    match press(&mut app, 'l') {
        Request::FetchSeriesEpisodes { series_id } => assert_eq!(series_id, "s"),
        other => panic!("unexpected {other:?}"),
    }
    let eps = vec![item("e1", "Episode", false), item("e2", "Episode", false), item("e3", "Episode", false)];
    match app.resume(Outcome::Items(eps)) {
        Request::Launch { args, .. } => assert_eq!(&args[3..], &[url("e2"), url("e3")]),
        other => panic!("unexpected {other:?}"),
    }
    app.resume(Outcome::Done);
    assert_eq!(app.status(), "Playing `Ne2` in MPV (+1 queued).");
}

#[test]
fn autoplay_falls_back_to_single_episode() {
    let mut ep = item("e2", "Episode", false);
    ep.series_id = Some("s".to_string());
    let mut app = app_with(vec![ep], true);
    press(&mut app, 'l');
    match app.resume(Outcome::Failed) {
        Request::Launch { args, .. } => assert_eq!(&args[3..], &[url("e2")]),
        other => panic!("unexpected {other:?}"),
    }
    app.resume(Outcome::Done);
    assert_eq!(app.status(), "Playing `Ne2` in MPV.");
}

#[test]
fn context_menu_toggles_watched_and_reloads() {
    let mut app = app_with(vec![item("m", "Movie", false)], false);
    press(&mut app, 'm');
    match app.modal() {
        Some(Modal::Context { menu, actions }) => {
            assert_eq!(menu.title, "Nm  (Movie)");
            assert_eq!(
                menu.entries,
                vec!["Mark watched", "Add to favorites", "Autoplay next: off", "Cancel"]
            );
            assert_eq!(actions.len(), 4);
        },
        _ => panic!("no menu"),
    }
    match app.handle_key(Key::Enter, false) {
        Request::SetWatched { item_id, watched } => {
            assert_eq!(item_id, "m");
            assert!(watched);
        },
        other => panic!("unexpected {other:?}"),
    }
    assert!(app.modal().is_none());
    assert!(matches!(app.resume(Outcome::Done), Request::FetchRoot));
    assert_eq!(app.status(), "Marked watched.");
    let mut fresh = item("m", "Movie", false);
    fresh.user_data.played = true;
    app.resume(Outcome::Items(vec![fresh]));
    assert_eq!(app.status(), "Reloaded view.");
    assert!(app.navigator().current().items[0].user_data.played);
}

#[test]
fn context_menu_navigation_and_close() {
    let mut app = app_with(vec![item("s", "Series", true)], false);
    press(&mut app, 'm');
    if let Some(Modal::Context { menu, .. }) = app.modal() {
        assert_eq!(menu.entries[2], "Shuffle episodes");
    }
    app.handle_key(Key::Up, false);
    if let Some(Modal::Context { menu, .. }) = app.modal() {
        assert_eq!(menu.selected, 4);
    }
    app.handle_key(Key::Esc, false);
    assert!(app.modal().is_none());
    press(&mut app, 'm');
    app.handle_key(Key::Down, false);
    match app.handle_key(Key::Enter, false) {
        Request::SetFavorite { item_id, favorite } => {
            assert_eq!(item_id, "s");
            assert!(favorite);
        },
        other => panic!("unexpected {other:?}"),
    }
}

#[test]
fn shuffle_series() {
    let mut app = app_with(vec![item("m", "Movie", false)], false);
    press(&mut app, 's');
    assert_eq!(app.status(), "Select a show (or open one) to shuffle.");
    let mut app = app_with(vec![item("s", "Series", true)], false);
    match press(&mut app, 's') {
        Request::FetchShuffled { series_id, limit } => {
            assert_eq!(series_id, "s");
            assert_eq!(limit, 100);
        },
        other => panic!("unexpected {other:?}"),
    }
    assert!(matches!(app.resume(Outcome::Items(vec![])), Request::Idle));
    assert_eq!(app.status(), "No episodes found to shuffle.");
    press(&mut app, 's');
    let r = app.resume(Outcome::Items(vec![item("e1", "Episode", false), item("e7", "Episode", false)]));
    assert!(matches!(r, Request::Launch { .. }));
    app.resume(Outcome::Done);
    assert_eq!(app.status(), "Shuffling 2 episodes in MPV.");
}

#[test]
fn help_overlay_toggles() {
    let mut app = app_with(vec![], false);
    press(&mut app, '?');
    assert!(matches!(app.modal(), Some(Modal::Help)));
    press(&mut app, 'j');
    assert!(matches!(app.modal(), Some(Modal::Help)));
    press(&mut app, '?');
    assert!(app.modal().is_none());
}

#[test]
fn mouse_selects_and_opens() {
    let mut app = app_with(vec![item("a", "Movie", false), item("b", "Folder", true)], false);
    app.set_list_area(Rect { x: 0, y: 2, width: 40, height: 10 });
    assert!(matches!(app.handle_mouse(MouseKind::LeftDown, 50, 3), Request::Idle));
    assert_eq!(app.navigator().current().selected, 0);
    assert!(matches!(app.handle_mouse(MouseKind::LeftDown, 5, 3), Request::Idle));
    assert_eq!(app.navigator().current().selected, 1);
    assert!(matches!(app.handle_mouse(MouseKind::LeftDown, 5, 3), Request::FetchChildren { .. }));
    app.resume(Outcome::Items(vec![]));
    app.handle_key(Key::Backspace, false);
    app.handle_mouse(MouseKind::ScrollUp, 1, 5);
    assert_eq!(app.navigator().current().selected, 0);
    app.handle_mouse(MouseKind::RightDown, 1, 3);
    assert!(matches!(app.modal(), Some(Modal::Context { .. })));
    assert_eq!(app.navigator().current().selected, 1);
    assert!(matches!(app.handle_mouse(MouseKind::ScrollDown, 1, 3), Request::Idle));
}

#[test]
fn scrolling_moves_like_keys() {
    let items = vec![item("a", "Movie", false), item("b", "Movie", false), item("c", "Movie", false)];
    let mut by_mouse = app_with(items.clone(), false);
    let mut by_keys = app_with(items, false);
    by_mouse.set_list_area(Rect { x: 0, y: 0, width: 20, height: 5 });
    by_mouse.handle_mouse(MouseKind::ScrollDown, 3, 1);
    by_keys.handle_key(Key::Char('j'), false);
    assert_eq!(by_mouse.navigator().current().selected, 1);
    assert_eq!(by_keys.navigator().current().selected, 1);
    by_mouse.handle_mouse(MouseKind::ScrollUp, 3, 1);
    by_keys.handle_key(Key::Up, false);
    assert_eq!(by_mouse.navigator().current().selected, 0);
    assert_eq!(by_keys.navigator().current().selected, 0);
}

#[test]
fn reload_keeps_selection_where_it_still_exists() {
    let mut app = app_with(vec![item("a", "Movie", false), item("b", "Movie", false), item("c", "Movie", false)], false);
    press(&mut app, 'j');
    press(&mut app, 'j');
    assert!(matches!(press(&mut app, 'r'), Request::FetchRoot));
    assert!(app.is_waiting());
    app.resume(Outcome::Items(vec![item("a", "Movie", false), item("b", "Movie", false), item("z", "Movie", false)]));
    assert!(!app.is_waiting());
    assert_eq!(app.navigator().current().selected, 2);
    assert_eq!(app.navigator().current().items[2].id, "z");
    assert_eq!(app.navigator().current().title, "Libraries");
    press(&mut app, 'r');
    app.resume(Outcome::Items(vec![item("a", "Movie", false)]));
    assert_eq!(app.navigator().current().selected, 0);
}

#[test]
fn favorite_toggle_flips_and_reloads() {
    let mut fav = item("m", "Movie", false);
    fav.user_data.is_favorite = true;
    let mut app = app_with(vec![fav], false);
    press(&mut app, 'm');
    app.handle_key(Key::Char('j'), false);
    match app.handle_key(Key::Enter, false) {
        Request::SetFavorite { item_id, favorite } => {
            assert_eq!(item_id, "m");
            assert!(!favorite);
        },
        other => panic!("unexpected {other:?}"),
    }
    assert!(matches!(app.resume(Outcome::Done), Request::FetchRoot));
    assert_eq!(app.status(), "Removed from favorites.");
}

#[test]
fn failed_change_aborts_and_settles() {
    let mut app = app_with(vec![item("m", "Movie", false)], false);
    press(&mut app, 'm');
    app.handle_key(Key::Enter, false);
    assert!(app.is_waiting());
    assert!(matches!(app.resume(Outcome::Failed), Request::Abort));
    assert!(!app.is_waiting());
    assert_eq!(app.status(), "Connected to Jellyfin. Press Enter to open or play.");
}

#[test]
fn autoplay_plays_chosen_episode_alone_when_not_listed() {
    let mut ep = item("e9", "Episode", false);
    ep.series_id = Some("s".to_string());
    let mut app = app_with(vec![ep], true);
    assert!(matches!(press(&mut app, 'l'), Request::FetchSeriesEpisodes { .. }));
    let eps = vec![item("e1", "Episode", false), item("e2", "Episode", false)];
    match app.resume(Outcome::Items(eps)) {
        Request::Launch { args, .. } => assert_eq!(&args[3..], &[url("e9")]),
        other => panic!("unexpected {other:?}"),
    }
    app.resume(Outcome::Done);
    assert_eq!(app.status(), "Playing `Ne9` in MPV.");
}
