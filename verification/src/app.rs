//! The controller: what each key press, mouse click and server answer does
//! to the browser, and which request the front end has to carry out next.
//!
//! The front end feeds terminal events to `handle_key` and `handle_mouse`.
//! Each returns a `Request`. A request that needs the server or the player
//! is carried out by the front end, which hands what came back to `resume`;
//! that returns the next request, and so on until `Idle`, `Quit` or a
//! failure.

use vstd::prelude::*;
use crate::config::Config;
use crate::jellyfin::{MediaItem, Session, download_address, url_with_query_pair};
use crate::state::{BrowserState, BrowserStateView, Navigator, clamp_selection, next_index, opt_view, previous_index, selection_ok};
use crate::text::{append, concat2, concat3, decimal, decimal_string, owned, str_eq};
use crate::theme::Theme;
use crate::ui::Rect;
use crate::ui::browser::{compute_offset, offset_for};
use crate::ui::menu::Menu;

verus! {

// ---------------------------------------------------------------------------
// Events and requests

/// A key of the terminal, as far as the browser tells keys apart.
#[derive(Debug, Clone, Copy, PartialEq, Eq, Structural)]
pub enum Key {
    Char(char),
    Up,
    Down,
    Left,
    Right,
    Enter,
    Backspace,
    Esc,
    Other,
}

/// A mouse event of the terminal.
#[derive(Debug, Clone, Copy, PartialEq, Eq, Structural)]
pub enum MouseKind {
    ScrollDown,
    ScrollUp,
    LeftDown,
    RightDown,
    Other,
}

/// An entry of the context menu.
#[derive(Debug)]
pub enum ContextAction {
    /// Item id and whether it is played now.
    ToggleWatched(String, bool),
    /// Item id and whether it is a favorite now.
    ToggleFavorite(String, bool),
    Shuffle,
    ToggleAutoplay,
    Close,
}

pub enum ActionView {
    ToggleWatched(Seq<char>, bool),
    ToggleFavorite(Seq<char>, bool),
    Shuffle,
    ToggleAutoplay,
    Close,
}

impl View for ContextAction {
    type V = ActionView;

    open spec fn view(&self) -> ActionView {
        match self {
            ContextAction::ToggleWatched(id, p) => ActionView::ToggleWatched(id@, *p),
            ContextAction::ToggleFavorite(id, f) => ActionView::ToggleFavorite(id@, *f),
            ContextAction::Shuffle => ActionView::Shuffle,
            ContextAction::ToggleAutoplay => ActionView::ToggleAutoplay,
            ContextAction::Close => ActionView::Close,
        }
    }
}

/// The overlay on top of the browser.
#[derive(Debug)]
pub enum Modal {
    Help,
    Context { menu: Menu, actions: Vec<ContextAction> },
}

pub enum ModalView {
    Help,
    Context { title: Seq<char>, entries: Seq<Seq<char>>, selected: nat, actions: Seq<ActionView> },
}

impl View for Modal {
    type V = ModalView;

    open spec fn view(&self) -> ModalView {
        match self {
            Modal::Help => ModalView::Help,
            Modal::Context { menu, actions } => ModalView::Context {
                title: menu.title@,
                entries: menu.entries@.map_values(|e: String| e@),
                selected: menu.selected as nat,
                actions: actions@.map_values(|a: ContextAction| a@),
            },
        }
    }
}

/// What the controller waits for while a request is carried out.
#[derive(Debug)]
pub enum Pending {
    Nothing,
    /// The children of a folder that is being opened.
    OpenFolder { id: String, kind: String, name: String },
    /// The fresh listing of the current view.
    Reload,
    /// A watched or favorite change; `message` is shown before reloading.
    Toggled { message: String },
    /// Random episodes to play.
    Shuffle,
    /// The episodes of the series of an episode that is about to play.
    EpisodeQueue { episode_id: String, name: String },
    /// The player starting; `status` is shown once it has.
    Launching { status: String },
}

pub enum PendingView {
    Nothing,
    OpenFolder { id: Seq<char>, kind: Seq<char>, name: Seq<char> },
    Reload,
    Toggled { message: Seq<char> },
    Shuffle,
    EpisodeQueue { episode_id: Seq<char>, name: Seq<char> },
    Launching { status: Seq<char> },
}

impl View for Pending {
    type V = PendingView;

    open spec fn view(&self) -> PendingView {
        match self {
            Pending::Nothing => PendingView::Nothing,
            Pending::OpenFolder { id, kind, name } => PendingView::OpenFolder {
                id: id@,
                kind: kind@,
                name: name@,
            },
            Pending::Reload => PendingView::Reload,
            Pending::Toggled { message } => PendingView::Toggled { message: message@ },
            Pending::Shuffle => PendingView::Shuffle,
            Pending::EpisodeQueue { episode_id, name } => PendingView::EpisodeQueue {
                episode_id: episode_id@,
                name: name@,
            },
            Pending::Launching { status } => PendingView::Launching { status: status@ },
        }
    }
}

/// Why the controller stops.
#[derive(Debug, Clone, Copy, PartialEq, Eq, Structural)]
pub enum AppError {
    /// A playback address did not parse as a URL.
    InvalidPlaybackUrl,
}

/// What the front end has to do next.
#[derive(Debug)]
pub enum Request {
    /// Nothing: wait for the next terminal event.
    Idle,
    /// Leave the browser.
    Quit,
    /// Stop with the error of the request that just failed.
    Abort,
    /// Stop with this error.
    Fail(AppError),
    /// List the user's libraries.
    FetchRoot,
    /// List the children of `parent_id`.
    FetchChildren { parent_id: String },
    /// Draw up to `limit` random episodes of a series.
    FetchShuffled { series_id: String, limit: u32 },
    /// List all episodes of a series, in order.
    FetchSeriesEpisodes { series_id: String },
    /// Mark an item played or unplayed.
    SetWatched { item_id: String, watched: bool },
    /// Mark an item favorite or not.
    SetFavorite { item_id: String, favorite: bool },
    /// Start the player detached, with its output discarded.
    Launch { program: String, args: Vec<String> },
}

pub enum RequestView {
    Idle,
    Quit,
    Abort,
    Fail(AppError),
    FetchRoot,
    FetchChildren(Seq<char>),
    FetchShuffled(Seq<char>, u32),
    FetchSeriesEpisodes(Seq<char>),
    SetWatched(Seq<char>, bool),
    SetFavorite(Seq<char>, bool),
    Launch(Seq<char>, Seq<Seq<char>>),
}

impl View for Request {
    type V = RequestView;

    open spec fn view(&self) -> RequestView {
        match self {
            Request::Idle => RequestView::Idle,
            Request::Quit => RequestView::Quit,
            Request::Abort => RequestView::Abort,
            Request::Fail(e) => RequestView::Fail(*e),
            Request::FetchRoot => RequestView::FetchRoot,
            Request::FetchChildren { parent_id } => RequestView::FetchChildren(parent_id@),
            Request::FetchShuffled { series_id, limit } => RequestView::FetchShuffled(series_id@, *limit),
            Request::FetchSeriesEpisodes { series_id } => RequestView::FetchSeriesEpisodes(series_id@),
            Request::SetWatched { item_id, watched } => RequestView::SetWatched(item_id@, *watched),
            Request::SetFavorite { item_id, favorite } => RequestView::SetFavorite(item_id@, *favorite),
            Request::Launch { program, args } => RequestView::Launch(
                program@,
                args@.map_values(|a: String| a@),
            ),
        }
    }
}

/// What came back from a request.
pub enum Outcome {
    /// The items listed by a fetch.
    Items(Vec<MediaItem>),
    /// A change or a launch went through.
    Done,
    /// The request failed.
    Failed,
}

// ---------------------------------------------------------------------------
// The controller and its model

/// The player settings, as values.
pub struct PlayerView {
    pub bin: Option<Seq<char>>,
    pub args: Seq<Seq<char>>,
    pub ontop: bool,
}

/// The controller as values.
pub struct AppView {
    pub stack: Seq<BrowserStateView>,
    pub status: Seq<char>,
    pub list_area: Rect,
    pub modal: Option<ModalView>,
    pub autoplay_next: bool,
    pub needs_full_redraw: bool,
    pub pending: PendingView,
    pub server_url: Seq<char>,
    pub auth_token: Seq<char>,
    pub player: PlayerView,
    pub theme: Theme,
    pub mouse: bool,
}

/// The browser's controller.
pub struct App {
    config: Config,
    session: Session,
    theme: Theme,
    navigator: Navigator,
    status: String,
    list_area: Rect,
    modal: Option<Modal>,
    autoplay_next: bool,
    /// Set when something outside (the player) may have disturbed the
    /// terminal, so the next frame must be drawn whole.
    needs_full_redraw: bool,
    pending: Pending,
}

impl View for App {
    type V = AppView;

    closed spec fn view(&self) -> AppView {
        AppView {
            stack: self.navigator@.map_values(|b: BrowserState| b@),
            status: self.status@,
            list_area: self.list_area,
            modal: match self.modal {
                Some(m) => Some(m@),
                None => None,
            },
            autoplay_next: self.autoplay_next,
            needs_full_redraw: self.needs_full_redraw,
            pending: self.pending@,
            server_url: self.session.spec_server_url(),
            auth_token: self.session.spec_auth_token(),
            player: PlayerView {
                bin: opt_view(self.config.mpv.bin),
                args: self.config.mpv.args@.map_values(|a: String| a@),
                ontop: self.config.mpv.ontop,
            },
            theme: self.theme,
            mouse: self.config.general.mouse,
        }
    }
}

/// The controller's invariant: a root view below everything, selections
/// on rows, a context menu with one action per entry and its selection on
/// an entry, and a list area inside the `u16` range.
pub open spec fn app_wf(v: AppView) -> bool {
    &&& v.stack.len() >= 1
    &&& forall|i: int| 0 <= i < v.stack.len() ==> selection_ok(#[trigger] v.stack[i].selected, v.stack[i].items.len())
    &&& match v.modal {
        Some(ModalView::Context { entries, selected, actions, .. }) => entries.len() == actions.len()
            && selected < entries.len(),
        _ => true,
    }
    &&& v.list_area.x + v.list_area.width <= u16::MAX
    &&& v.list_area.y + v.list_area.height <= u16::MAX
}

/// The current view.
pub open spec fn cur(v: AppView) -> BrowserStateView {
    v.stack.last()
}

/// `v` with the current view replaced by `b`.
pub open spec fn with_cur(v: AppView, b: BrowserStateView) -> AppView {
    AppView { stack: v.stack.update(v.stack.len() - 1, b), ..v }
}

/// `v` showing status `s`.
pub open spec fn with_status(v: AppView, s: Seq<char>) -> AppView {
    AppView { status: s, ..v }
}

/// `v` waiting for `p`.
pub open spec fn waiting(v: AppView, p: PendingView) -> AppView {
    AppView { pending: p, ..v }
}

/// The selected item of a view.
pub open spec fn selected_of(b: BrowserStateView) -> Option<MediaItem> {
    if b.selected < b.items.len() {
        Some(b.items[b.selected as int])
    } else {
        None
    }
}

/// The playback URL of item `id`.
pub open spec fn playback(v: AppView, id: Seq<char>) -> Option<Seq<char>> {
    url_with_query_pair(download_address(v.server_url, id), "download"@, "false"@)
}

/// The playback URLs of all `items`, or `None` when one does not parse.
pub open spec fn all_playback(v: AppView, items: Seq<MediaItem>) -> Option<Seq<Seq<char>>>
    decreases items.len(),
{
    if items.len() == 0 {
        Some(seq![])
    } else {
        match all_playback(v, items.drop_last()) {
            Some(urls) => match playback(v, items.last().id@) {
                Some(u) => Some(urls.push(u)),
                None => None,
            },
            None => None,
        }
    }
}

/// The player program: the configured one, or `mpv`.
pub open spec fn player_program(v: AppView) -> Seq<char> {
    match v.player.bin {
        Some(b) => b,
        None => "mpv"@,
    }
}

/// The player's arguments: the token header, the configured arguments,
/// `--ontop` if configured, and the playlist.
pub open spec fn player_args(v: AppView, urls: Seq<Seq<char>>) -> Seq<Seq<char>> {
    seq!["--http-header-fields=X-MediaBrowser-Token: "@ + v.auth_token] + v.player.args + (if v.player.ontop {
        seq!["--ontop"@]
    } else {
        seq![]
    }) + urls
}

/// Starts the player on `urls`; `status` is shown once it has started.
pub open spec fn launch(v: AppView, urls: Seq<Seq<char>>, status: Seq<char>) -> (AppView, RequestView) {
    (
        waiting(v, PendingView::Launching { status }),
        RequestView::Launch(player_program(v), player_args(v, urls)),
    )
}

/// The status after starting playback of `name` with `queued` episodes after it.
pub open spec fn playing_status(name: Seq<char>, queued: nat) -> Seq<char> {
    if queued > 0 {
        "Playing `"@ + name + "` in MPV (+"@ + decimal(queued) + " queued)."@
    } else {
        "Playing `"@ + name + "` in MPV."@
    }
}

/// Plays item `id` alone.
pub open spec fn launch_single(v: AppView, id: Seq<char>, name: Seq<char>) -> (AppView, RequestView) {
    match playback(v, id) {
        Some(u) => launch(v, seq![u], playing_status(name, 0)),
        None => (v, RequestView::Fail(AppError::InvalidPlaybackUrl)),
    }
}

/// Opens the selected item: a folder is listed, a playable item is played
/// (with the rest of its series when autoplay is on and it is an episode),
/// anything else is refused.
pub open spec fn open_selected(v: AppView) -> (AppView, RequestView) {
    match selected_of(cur(v)) {
        None => (with_status(v, "Nothing selected."@), RequestView::Idle),
        Some(item) => if item.is_folder {
            (
                waiting(
                    v,
                    PendingView::OpenFolder { id: item.id@, kind: item.kind@, name: item.name@ },
                ),
                RequestView::FetchChildren(item.id@),
            )
        } else if !item.spec_is_playable() {
            (
                with_status(v, "`"@ + item.name@ + "` is not a playable item."@),
                RequestView::Idle,
            )
        } else if v.autoplay_next && item.kind@ == "Episode"@ {
            match item.series_id {
                None => launch_single(v, item.id@, item.name@),
                Some(sid) => (
                    waiting(
                        v,
                        PendingView::EpisodeQueue { episode_id: item.id@, name: item.name@ },
                    ),
                    RequestView::FetchSeriesEpisodes(sid@),
                ),
            }
        } else {
            launch_single(v, item.id@, item.name@)
        },
    }
}

/// Goes back one level, unless at the root.
pub open spec fn go_back(v: AppView) -> AppView {
    if v.stack.len() > 1 {
        with_status(AppView { stack: v.stack.drop_last(), ..v }, "Returned to previous view."@)
    } else {
        v
    }
}

/// Refetches the current listing: the parent's children, or the libraries
/// at the root.
pub open spec fn reload(v: AppView) -> (AppView, RequestView) {
    (
        waiting(v, PendingView::Reload),
        match cur(v).parent_id {
            Some(p) => RequestView::FetchChildren(p),
            None => RequestView::FetchRoot,
        },
    )
}

/// The series to shuffle: the selected series, or the series being browsed.
pub open spec fn shuffle_series(b: BrowserStateView) -> Option<Seq<char>> {
    match selected_of(b) {
        Some(item) if item.kind@ == "Series"@ => Some(item.id@),
        _ => if b.parent_kind == Some("Series"@) {
            b.parent_id
        } else {
            None
        },
    }
}

/// Asks for random episodes of the series at hand.
pub open spec fn shuffle(v: AppView) -> (AppView, RequestView) {
    match shuffle_series(cur(v)) {
        None => (with_status(v, "Select a show (or open one) to shuffle."@), RequestView::Idle),
        Some(sid) => (waiting(v, PendingView::Shuffle), RequestView::FetchShuffled(sid, 100)),
    }
}

/// Flips autoplay and says so.
pub open spec fn toggle_autoplay(v: AppView) -> AppView {
    let on = !v.autoplay_next;
    AppView {
        autoplay_next: on,
        status: "Autoplay next episode: "@ + (if on { "on"@ } else { "off"@ }) + "."@,
        ..v
    }
}

/// The context menu's entries and actions for `item`.
pub open spec fn menu_entries(item: MediaItem, autoplay: bool) -> Seq<Seq<char>> {
    seq![
        if item.user_data.played { "Mark unwatched"@ } else { "Mark watched"@ },
        if item.user_data.is_favorite { "Remove from favorites"@ } else { "Add to favorites"@ },
    ] + (if item.kind@ == "Series"@ { seq!["Shuffle episodes"@] } else { seq![] }) + seq![
        "Autoplay next: "@ + (if autoplay { "on"@ } else { "off"@ }),
        "Cancel"@,
    ]
}

pub open spec fn menu_actions(item: MediaItem) -> Seq<ActionView> {
    seq![
        ActionView::ToggleWatched(item.id@, item.user_data.played),
        ActionView::ToggleFavorite(item.id@, item.user_data.is_favorite),
    ] + (if item.kind@ == "Series"@ { seq![ActionView::Shuffle] } else { seq![] }) + seq![
        ActionView::ToggleAutoplay,
        ActionView::Close,
    ]
}

/// Opens the context menu of the selected item.
pub open spec fn context_menu(v: AppView) -> AppView {
    match selected_of(cur(v)) {
        None => with_status(v, "Nothing selected."@),
        Some(item) => AppView {
            modal: Some(
                ModalView::Context {
                    title: item.name@ + "  ("@ + item.kind@ + ")"@,
                    entries: menu_entries(item, v.autoplay_next),
                    selected: 0,
                    actions: menu_actions(item),
                },
            ),
            ..v
        },
    }
}

/// Carries out a context menu action.
pub open spec fn apply_action(v: AppView, a: ActionView) -> (AppView, RequestView) {
    match a {
        ActionView::ToggleWatched(id, was) => (
            waiting(
                v,
                PendingView::Toggled {
                    message: if was { "Marked unwatched."@ } else { "Marked watched."@ },
                },
            ),
            RequestView::SetWatched(id, !was),
        ),
        ActionView::ToggleFavorite(id, was) => (
            waiting(
                v,
                PendingView::Toggled {
                    message: if was { "Removed from favorites."@ } else { "Added to favorites."@ },
                },
            ),
            RequestView::SetFavorite(id, !was),
        ),
        ActionView::Shuffle => shuffle(v),
        ActionView::ToggleAutoplay => (toggle_autoplay(v), RequestView::Idle),
        ActionView::Close => (v, RequestView::Idle),
    }
}

/// A key while an overlay is open.
pub open spec fn modal_key(v: AppView, key: Key) -> (AppView, RequestView) {
    match v.modal {
        Some(ModalView::Help) => if key == Key::Esc || key == Key::Char('?') || key == Key::Char('q') {
            (AppView { modal: None, ..v }, RequestView::Idle)
        } else {
            (v, RequestView::Idle)
        },
        Some(ModalView::Context { title, entries, selected, actions }) => {
            let n = entries.len();
            if key == Key::Esc || key == Key::Char('m') || key == Key::Char('q') {
                (AppView { modal: None, ..v }, RequestView::Idle)
            } else if key == Key::Down || key == Key::Char('j') {
                (
                    AppView {
                        modal: Some(
                            ModalView::Context {
                                title,
                                entries,
                                selected: if n == 0 { selected } else { ((selected as int + 1) % (n as int)) as nat },
                                actions,
                            },
                        ),
                        ..v
                    },
                    RequestView::Idle,
                )
            } else if key == Key::Up || key == Key::Char('k') {
                (
                    AppView {
                        modal: Some(
                            ModalView::Context {
                                title,
                                entries,
                                selected: if n == 0 { selected } else if selected == 0 { (n - 1) as nat } else { (selected - 1) as nat },
                                actions,
                            },
                        ),
                        ..v
                    },
                    RequestView::Idle,
                )
            } else if key == Key::Enter {
                let closed = AppView { modal: None, ..v };
                if selected < actions.len() {
                    apply_action(closed, actions[selected as int])
                } else {
                    (closed, RequestView::Idle)
                }
            } else {
                (v, RequestView::Idle)
            }
        },
        None => (v, RequestView::Idle),
    }
}

/// A key press. Ctrl-C quits from anywhere.
pub open spec fn key_step(v: AppView, key: Key, ctrl: bool) -> (AppView, RequestView) {
    if ctrl && key == Key::Char('c') {
        (v, RequestView::Quit)
    } else if v.modal is Some {
        modal_key(v, key)
    } else if key == Key::Char('q') {
        (v, RequestView::Quit)
    } else if key == Key::Down || key == Key::Char('j') {
        let b = cur(v);
        (with_cur(v, BrowserStateView { selected: next_index(b.selected, b.items.len()), ..b }), RequestView::Idle)
    } else if key == Key::Up || key == Key::Char('k') {
        let b = cur(v);
        (with_cur(v, BrowserStateView { selected: previous_index(b.selected, b.items.len()), ..b }), RequestView::Idle)
    } else if key == Key::Enter || key == Key::Right || key == Key::Char('l') {
        open_selected(v)
    } else if key == Key::Backspace || key == Key::Left || key == Key::Char('h') {
        (go_back(v), RequestView::Idle)
    } else if key == Key::Char('r') {
        reload(v)
    } else if key == Key::Char('s') {
        shuffle(v)
    } else if key == Key::Char('?') {
        (AppView { modal: Some(ModalView::Help), ..v }, RequestView::Idle)
    } else if key == Key::Char('m') {
        (context_menu(v), RequestView::Idle)
    } else if key == Key::Char('n') {
        (toggle_autoplay(v), RequestView::Idle)
    } else {
        (v, RequestView::Idle)
    }
}

/// The index of the first episode with id `id`.
pub open spec fn find_episode(eps: Seq<MediaItem>, id: Seq<char>) -> Option<nat>
    decreases eps.len(),
{
    if eps.len() == 0 {
        None
    } else if eps[0].id@ == id {
        Some(0)
    } else {
        match find_episode(eps.drop_first(), id) {
            Some(i) => Some(i + 1),
            None => None,
        }
    }
}

/// Plays episode `id` followed by the rest of its series `eps`, from its
/// first occurrence there; the episode alone when it is not in the list.
pub open spec fn queue_launch(v: AppView, id: Seq<char>, name: Seq<char>, eps: Seq<MediaItem>) -> (AppView, RequestView) {
    match find_episode(eps, id) {
        None => launch_single(v, id, name),
        Some(start) => match all_playback(v, eps.skip(start as int)) {
            Some(urls) => launch(v, urls, playing_status(name, (urls.len() - 1) as nat)),
            None => (v, RequestView::Fail(AppError::InvalidPlaybackUrl)),
        },
    }
}

/// Plays the random episodes, if any came back.
pub open spec fn shuffle_launch(v: AppView, eps: Seq<MediaItem>) -> (AppView, RequestView) {
    if eps.len() == 0 {
        (with_status(v, "No episodes found to shuffle."@), RequestView::Idle)
    } else {
        match all_playback(v, eps) {
            Some(urls) => launch(v, urls, "Shuffling "@ + decimal(urls.len()) + " episodes in MPV."@),
            None => (v, RequestView::Fail(AppError::InvalidPlaybackUrl)),
        }
    }
}

/// What an answer to the outstanding request does. A failure stops the
/// browser, except for the episode list of autoplay, whose failure plays
/// the episode alone.
pub open spec fn resume_step(v: AppView, outcome: Outcome) -> (AppView, RequestView) {
    let w = waiting(v, PendingView::Nothing);
    match v.pending {
        PendingView::Nothing => (w, RequestView::Idle),
        PendingView::OpenFolder { id, kind, name } => match outcome {
            Outcome::Items(items) => {
                let opened = BrowserStateView {
                    parent_id: Some(id),
                    parent_kind: Some(kind),
                    title: name,
                    items: items@,
                    selected: 0,
                };
                (
                    with_status(AppView { stack: w.stack.push(opened), ..w }, "Loaded folder."@),
                    RequestView::Idle,
                )
            },
            _ => (w, RequestView::Abort),
        },
        PendingView::Reload => match outcome {
            Outcome::Items(items) => {
                let b = cur(w);
                let fresh = BrowserStateView {
                    items: items@,
                    selected: clamp_selection(b.selected, items@.len()),
                    ..b
                };
                (with_status(with_cur(w, fresh), "Reloaded view."@), RequestView::Idle)
            },
            _ => (w, RequestView::Abort),
        },
        PendingView::Toggled { message } => match outcome {
            Outcome::Done => reload(with_status(w, message)),
            _ => (w, RequestView::Abort),
        },
        PendingView::Shuffle => match outcome {
            Outcome::Items(eps) => shuffle_launch(w, eps@),
            _ => (w, RequestView::Abort),
        },
        PendingView::EpisodeQueue { episode_id, name } => match outcome {
            Outcome::Items(eps) => queue_launch(w, episode_id, name, eps@),
            Outcome::Failed => launch_single(w, episode_id, name),
            Outcome::Done => (w, RequestView::Abort),
        },
        PendingView::Launching { status } => match outcome {
            Outcome::Done => (
                AppView { needs_full_redraw: true, status, ..w },
                RequestView::Idle,
            ),
            _ => (w, RequestView::Abort),
        },
    }
}

/// Whether `(col, row)` lies in `a`.
pub open spec fn in_area(a: Rect, col: u16, row: u16) -> bool {
    a.x <= col < a.x + a.width && a.y <= row < a.y + a.height
}

/// The list row under screen row `row`, counting the rows scrolled away.
pub open spec fn clicked_index(v: AppView, row: u16) -> nat {
    let b = cur(v);
    let total = b.items.len();
    let offset = if total == 0 { 0 } else { offset_for(b.selected, total, v.list_area.height as nat) };
    offset + (row - v.list_area.y) as nat
}

/// A mouse event: scrolling moves the selection, a left click selects (and
/// opens what was already selected), a right click selects and opens the
/// context menu. Only events over the list count, and none while an overlay
/// is open.
pub open spec fn mouse_step(v: AppView, kind: MouseKind, col: u16, row: u16) -> (AppView, RequestView) {
    let b = cur(v);
    if v.modal is Some || !in_area(v.list_area, col, row) {
        (v, RequestView::Idle)
    } else if kind == MouseKind::ScrollDown {
        (with_cur(v, BrowserStateView { selected: next_index(b.selected, b.items.len()), ..b }), RequestView::Idle)
    } else if kind == MouseKind::ScrollUp {
        (with_cur(v, BrowserStateView { selected: previous_index(b.selected, b.items.len()), ..b }), RequestView::Idle)
    } else if kind == MouseKind::LeftDown || kind == MouseKind::RightDown {
        let idx = clicked_index(v, row);
        if idx < b.items.len() {
            let w = with_cur(v, BrowserStateView { selected: idx as nat, ..b });
            if kind == MouseKind::RightDown {
                (context_menu(w), RequestView::Idle)
            } else if b.selected == idx {
                open_selected(w)
            } else {
                (w, RequestView::Idle)
            }
        } else {
            (v, RequestView::Idle)
        }
    } else {
        (v, RequestView::Idle)
    }
}

fn opt_owned(o: &Option<String>) -> (res: Option<String>)
    ensures
        opt_view(res) == opt_view(*o),
{
    match o {
        Some(s) => Some(owned(s.as_str())),
        None => None,
    }
}

/// The views of a list of strings.
pub open spec fn string_views(v: Seq<String>) -> Seq<Seq<char>> {
    v.map_values(|s: String| s@)
}

fn push_string(out: &mut Vec<String>, s: String)
    ensures
        string_views(final(out)@) == string_views(old(out)@).push(s@),
{
    let ghost before = string_views(out@);
    out.push(s);
    assert(string_views(out@) =~= before.push(s@));
}

/// The initial view of the controller.
pub open spec fn initial_stack(root_items: Seq<MediaItem>) -> Seq<BrowserStateView> {
    seq![
        BrowserStateView {
            parent_id: None,
            parent_kind: None,
            title: "Libraries"@,
            items: root_items,
            selected: 0,
        },
    ]
}

impl App {
    /// The controller over the libraries `root_items`, fetched at start-up.
    pub fn new(config: Config, session: Session, theme: Theme, root_items: Vec<MediaItem>) -> (res: App)
        ensures
            res@.stack == initial_stack(root_items@),
            res@.status == "Connected to Jellyfin. Press Enter to open or play."@,
            res@.list_area == (Rect { x: 0, y: 0, width: 0, height: 0 }),
            res@.modal is None,
            res@.autoplay_next == config.general.autoplay_next,
            !res@.needs_full_redraw,
            res@.pending is Nothing,
            res@.server_url == session.spec_server_url(),
            res@.auth_token == session.spec_auth_token(),
            res@.player == (PlayerView {
                bin: opt_view(config.mpv.bin),
                args: string_views(config.mpv.args@),
                ontop: config.mpv.ontop,
            }),
            res@.theme == theme,
            res@.mouse == config.general.mouse,
            app_wf(res@),
    {
        let root = BrowserState::new(None, None, owned("Libraries"), root_items);
        let autoplay_next = config.general.autoplay_next;
        let app = App {
            config,
            session,
            theme,
            navigator: Navigator::new(root),
            status: owned("Connected to Jellyfin. Press Enter to open or play."),
            list_area: Rect { x: 0, y: 0, width: 0, height: 0 },
            modal: None,
            autoplay_next,
            needs_full_redraw: false,
            pending: Pending::Nothing,
        };
        assert(app@.stack =~= initial_stack(root_items@));
        app
    }

    /// The navigation stack.
    pub fn navigator(&self) -> (res: &Navigator)
        ensures
            res@.map_values(|b: BrowserState| b@) == self@.stack,
            res.wf() == (self@.stack.len() >= 1),
    {
        &self.navigator
    }

    /// The styles of the interface.
    pub fn theme(&self) -> (res: &Theme)
        ensures
            *res == self@.theme,
    {
        &self.theme
    }

    /// The status message.
    pub fn status(&self) -> (res: &str)
        ensures
            res@ == self@.status,
    {
        self.status.as_str()
    }

    /// The overlay, if one is open.
    pub fn modal(&self) -> (res: Option<&Modal>)
        ensures
            match res {
                Some(m) => self@.modal == Some(m@),
                None => self@.modal is None,
            },
    {
        match &self.modal {
            Some(m) => Some(m),
            None => None,
        }
    }

    /// The session, for carrying out requests.
    pub fn session(&self) -> (res: &Session)
        ensures
            res.spec_server_url() == self@.server_url,
            res.spec_auth_token() == self@.auth_token,
    {
        &self.session
    }

    /// Whether the mouse is captured.
    pub fn mouse_enabled(&self) -> (res: bool)
        ensures
            res == self@.mouse,
    {
        self.config.general.mouse
    }

    /// Whether autoplay of the next episodes is on.
    pub fn autoplay_next(&self) -> (res: bool)
        ensures
            res == self@.autoplay_next,
    {
        self.autoplay_next
    }

    /// Whether a request is outstanding, so that `resume` is owed an outcome.
    pub fn is_waiting(&self) -> (res: bool)
        ensures
            res == !(self@.pending is Nothing),
    {
        match &self.pending {
            Pending::Nothing => false,
            _ => true,
        }
    }

    /// The screen area of the list pane.
    pub fn list_area(&self) -> (res: Rect)
        ensures
            res == self@.list_area,
    {
        self.list_area
    }

    /// Records where the list pane was drawn, for mouse hits.
    pub fn set_list_area(&mut self, area: Rect)
        requires
            area.x + area.width <= u16::MAX,
            area.y + area.height <= u16::MAX,
            app_wf(old(self)@),
        ensures
            final(self)@ == (AppView { list_area: area, ..old(self)@ }),
            app_wf(final(self)@),
    {
        self.list_area = area;
    }

    /// Whether the next frame must be drawn whole; the flag is cleared.
    pub fn take_full_redraw(&mut self) -> (res: bool)
        requires
            app_wf(old(self)@),
        ensures
            res == old(self)@.needs_full_redraw,
            final(self)@ == (AppView { needs_full_redraw: false, ..old(self)@ }),
            app_wf(final(self)@),
    {
        let r = self.needs_full_redraw;
        self.needs_full_redraw = false;
        r
    }

    fn set_status(&mut self, status: String)
        ensures
            final(self)@ == with_status(old(self)@, status@),
    {
        self.status = status;
    }

    fn toggle_autoplay(&mut self)
        ensures
            final(self)@ == toggle_autoplay(old(self)@),
    {
        self.autoplay_next = !self.autoplay_next;
        let status = concat3(
            "Autoplay next episode: ",
            if self.autoplay_next { "on" } else { "off" },
            ".",
        );
        self.status = status;
    }

    fn go_back(&mut self)
        requires
            app_wf(old(self)@),
        ensures
            final(self)@ == go_back(old(self)@),
            app_wf(final(self)@),
    {
        let ghost before = self.navigator@;
        if self.navigator.pop() {
            self.status = owned("Returned to previous view.");
            assert(self.navigator@.map_values(|b: BrowserState| b@) =~= before.map_values(|b: BrowserState| b@).drop_last());
        }
    }

    /// Moves the current selection down (or up) one row.
    fn move_selection(&mut self, down: bool)
        requires
            app_wf(old(self)@),
        ensures
            final(self)@ == with_cur(
                old(self)@,
                BrowserStateView {
                    selected: if down {
                        next_index(cur(old(self)@).selected, cur(old(self)@).items.len())
                    } else {
                        previous_index(cur(old(self)@).selected, cur(old(self)@).items.len())
                    },
                    ..cur(old(self)@)
                },
            ),
            app_wf(final(self)@),
    {
        let ghost before = self.navigator@;
        let ghost last = before.len() - 1;
        assert(old(self)@.stack[last] == before[last]@);
        assert(selection_ok(old(self)@.stack[last].selected, old(self)@.stack[last].items.len()));
        let current = self.navigator.current_mut();
        assert(current.items@.len() == current.items.len());
        if down {
            current.next();
        } else {
            current.previous();
        }
        proof {
            let b = cur(old(self)@);
            let nb = BrowserStateView {
                selected: if down {
                    next_index(b.selected, b.items.len())
                } else {
                    previous_index(b.selected, b.items.len())
                },
                ..b
            };
            assert(self.navigator@[last]@ == nb);
            assert(self@.stack =~= old(self)@.stack.update(last, nb));
        }
    }

    fn open_context_menu(&mut self)
        requires
            app_wf(old(self)@),
        ensures
            final(self)@ == context_menu(old(self)@),
            app_wf(final(self)@),
    {
        let ghost v = self@;
        let ghost last = self.navigator@.len() - 1;
        assert(v.stack[last] == self.navigator@[last]@);
        let current = self.navigator.current();
        match current.selected_item() {
            None => {
                self.status = owned("Nothing selected.");
            },
            Some(item) => {
                let mut entries: Vec<String> = Vec::new();
                let mut actions: Vec<ContextAction> = Vec::new();
                let ghost ev = string_views(entries@);
                assert(ev =~= Seq::<Seq<char>>::empty());
                assert(actions@.map_values(|a: ContextAction| a@) =~= Seq::<ActionView>::empty());
                let played = item.user_data.played;
                push_string(&mut entries, owned(if played { "Mark unwatched" } else { "Mark watched" }));
                push_action(&mut actions, ContextAction::ToggleWatched(owned(item.id.as_str()), played));
                let fav = item.user_data.is_favorite;
                push_string(
                    &mut entries,
                    owned(if fav { "Remove from favorites" } else { "Add to favorites" }),
                );
                push_action(&mut actions, ContextAction::ToggleFavorite(owned(item.id.as_str()), fav));
                let series = str_eq(item.kind.as_str(), "Series");
                if series {
                    push_string(&mut entries, owned("Shuffle episodes"));
                    push_action(&mut actions, ContextAction::Shuffle);
                }
                push_string(
                    &mut entries,
                    concat2("Autoplay next: ", if self.autoplay_next { "on" } else { "off" }),
                );
                push_action(&mut actions, ContextAction::ToggleAutoplay);
                push_string(&mut entries, owned("Cancel"));
                push_action(&mut actions, ContextAction::Close);
                let mut title = concat3(item.name.as_str(), "  (", item.kind.as_str());
                append(&mut title, ")");
                proof {
                    let it = *item;
                    assert(string_views(entries@) =~= menu_entries(it, v.autoplay_next));
                    assert(actions@.map_values(|a: ContextAction| a@) =~= menu_actions(it));
                }
                self.modal = Some(Modal::Context { menu: Menu::new(title, entries), actions });
            },
        }
    }

    fn reload_current(&mut self) -> (res: Request)
        requires
            app_wf(old(self)@),
        ensures
            (final(self)@, res@) == reload(old(self)@),
            app_wf(final(self)@),
    {
        let ghost last = self.navigator@.len() - 1;
        assert(self@.stack[last] == self.navigator@[last]@);
        let current = self.navigator.current();
        let req = match &current.parent_id {
            Some(p) => Request::FetchChildren { parent_id: owned(p.as_str()) },
            None => Request::FetchRoot,
        };
        self.pending = Pending::Reload;
        req
    }

    fn shuffle_selected(&mut self) -> (res: Request)
        requires
            app_wf(old(self)@),
            old(self)@.pending is Nothing,
        ensures
            (final(self)@, res@) == shuffle(old(self)@),
            app_wf(final(self)@),
    {
        let ghost last = self.navigator@.len() - 1;
        assert(self@.stack[last] == self.navigator@[last]@);
        let current = self.navigator.current();
        let from_item = match current.selected_item() {
            Some(item) => if str_eq(item.kind.as_str(), "Series") {
                Some(owned(item.id.as_str()))
            } else {
                None
            },
            None => None,
        };
        let series_id = match from_item {
            Some(id) => Some(id),
            None => {
                let in_series = match &current.parent_kind {
                    Some(k) => str_eq(k.as_str(), "Series"),
                    None => false,
                };
                if in_series {
                    opt_owned(&current.parent_id)
                } else {
                    None
                }
            },
        };
        match series_id {
            None => {
                self.status = owned("Select a show (or open one) to shuffle.");
                Request::Idle
            },
            Some(series_id) => {
                self.pending = Pending::Shuffle;
                Request::FetchShuffled { series_id, limit: 100 }
            },
        }
    }

    /// The playback URLs of `items[from..]`, or `None` when one does not parse.
    fn playback_urls(&self, items: &Vec<MediaItem>, from: usize) -> (res: Option<Vec<String>>)
        requires
            from <= items@.len(),
        ensures
            match res {
                Some(urls) => all_playback(self@, items@.skip(from as int)) == Some(string_views(urls@)),
                None => all_playback(self@, items@.skip(from as int)) is None,
            },
    {
        let ghost v = self@;
        let ghost rest = items@.skip(from as int);
        let mut urls: Vec<String> = Vec::new();
        let n = items.len();
        assert(rest.take(0) =~= Seq::<MediaItem>::empty());
        assert(string_views(urls@) =~= Seq::<Seq<char>>::empty());
        for i in from..n
            invariant
                from <= n,
                n == items@.len(),
                v == self@,
                rest == items@.skip(from as int),
                all_playback(v, rest.take(i - from)) == Some(string_views(urls@)),
        {
            proof {
                assert(rest.take(i - from + 1).drop_last() =~= rest.take(i - from));
                assert(rest.take(i - from + 1).last() == items@[i as int]);
            }
            match self.session.playback_url(items[i].id.as_str()) {
                Ok(u) => {
                    push_string(&mut urls, u);
                },
                Err(_) => {
                    proof {
                        lemma_all_playback_prefix(v, rest, i - from + 1);
                    }
                    return None;
                },
            }
        }
        assert(rest.take(n - from) =~= rest);
        Some(urls)
    }

    /// Starts the player on `urls`; `status` is shown once it has started.
    fn launch(&mut self, urls: &Vec<String>, status: String) -> (res: Request)
        ensures
            (final(self)@, res@) == launch(old(self)@, string_views(urls@), status@),
    {
        let ghost v = self@;
        let program = match &self.config.mpv.bin {
            Some(b) => owned(b.as_str()),
            None => owned("mpv"),
        };
        let mut args: Vec<String> = Vec::new();
        assert(string_views(args@) =~= Seq::<Seq<char>>::empty());
        push_string(
            &mut args,
            concat2("--http-header-fields=X-MediaBrowser-Token: ", self.session.auth_token()),
        );
        let ghost head = string_views(args@);
        let n = self.config.mpv.args.len();
        for i in 0..n
            invariant
                n == self.config.mpv.args@.len(),
                v == self@,
                string_views(args@) =~= head + string_views(self.config.mpv.args@).take(i as int),
        {
            assert(string_views(self.config.mpv.args@).take(i + 1) =~= string_views(self.config.mpv.args@).take(i as int).push(self.config.mpv.args@[i as int]@));
            push_string(&mut args, owned(self.config.mpv.args[i].as_str()));
        }
        assert(string_views(self.config.mpv.args@).take(n as int) =~= v.player.args);
        let ghost mid = string_views(args@);
        if self.config.mpv.ontop {
            push_string(&mut args, owned("--ontop"));
        }
        let ghost with_flags = string_views(args@);
        let m = urls.len();
        for i in 0..m
            invariant
                m == urls@.len(),
                string_views(args@) =~= with_flags + string_views(urls@).take(i as int),
        {
            assert(string_views(urls@).take(i + 1) =~= string_views(urls@).take(i as int).push(urls@[i as int]@));
            push_string(&mut args, owned(urls[i].as_str()));
        }
        assert(string_views(urls@).take(m as int) =~= string_views(urls@));
        assert(string_views(args@) =~= player_args(v, string_views(urls@)));
        self.pending = Pending::Launching { status };
        Request::Launch { program, args }
    }

    fn launch_single(&mut self, id: &str, name: &str) -> (res: Request)
        ensures
            (final(self)@, res@) == launch_single(old(self)@, id@, name@),
    {
        match self.session.playback_url(id) {
            Ok(u) => {
                let mut urls: Vec<String> = Vec::new();
                push_string(&mut urls, u);
                assert(string_views(urls@) =~= seq![u@]);
                let status = playing_status_string(name, 0);
                self.launch(&urls, status)
            },
            Err(_) => Request::Fail(AppError::InvalidPlaybackUrl),
        }
    }

    fn open_selected(&mut self) -> (res: Request)
        requires
            app_wf(old(self)@),
            old(self)@.pending is Nothing,
        ensures
            (final(self)@, res@) == open_selected(old(self)@),
            app_wf(final(self)@),
    {
        let ghost last = self.navigator@.len() - 1;
        assert(self@.stack[last] == self.navigator@[last]@);
        let current = self.navigator.current();
        let item = match current.selected_item() {
            None => {
                self.status = owned("Nothing selected.");
                return Request::Idle;
            },
            Some(item) => item,
        };
        let id = owned(item.id.as_str());
        let name = owned(item.name.as_str());
        let kind = owned(item.kind.as_str());
        let is_folder = item.is_folder;
        let playable = item.is_playable();
        let series = opt_owned(&item.series_id);
        if is_folder {
            let parent_id = owned(id.as_str());
            self.pending = Pending::OpenFolder { id, kind, name };
            return Request::FetchChildren { parent_id };
        }
        if !playable {
            self.status = concat3("`", name.as_str(), "` is not a playable item.");
            return Request::Idle;
        }
        if self.autoplay_next && str_eq(kind.as_str(), "Episode") {
            match series {
                None => self.launch_single(id.as_str(), name.as_str()),
                Some(series_id) => {
                    self.pending = Pending::EpisodeQueue { episode_id: id, name };
                    Request::FetchSeriesEpisodes { series_id }
                },
            }
        } else {
            self.launch_single(id.as_str(), name.as_str())
        }
    }

    fn apply_context_action(&mut self, action: ContextAction) -> (res: Request)
        requires
            app_wf(old(self)@),
            old(self)@.pending is Nothing,
        ensures
            (final(self)@, res@) == apply_action(old(self)@, action@),
            app_wf(final(self)@),
    {
        match action {
            ContextAction::ToggleWatched(id, was_played) => {
                let message = owned(if was_played { "Marked unwatched." } else { "Marked watched." });
                self.pending = Pending::Toggled { message };
                Request::SetWatched { item_id: id, watched: !was_played }
            },
            ContextAction::ToggleFavorite(id, was_fav) => {
                let message = owned(
                    if was_fav { "Removed from favorites." } else { "Added to favorites." },
                );
                self.pending = Pending::Toggled { message };
                Request::SetFavorite { item_id: id, favorite: !was_fav }
            },
            ContextAction::Shuffle => self.shuffle_selected(),
            ContextAction::ToggleAutoplay => {
                self.toggle_autoplay();
                Request::Idle
            },
            ContextAction::Close => Request::Idle,
        }
    }

    fn handle_modal_key(&mut self, key: Key) -> (res: Request)
        requires
            app_wf(old(self)@),
            old(self)@.pending is Nothing,
            old(self)@.modal is Some,
        ensures
            (final(self)@, res@) == modal_key(old(self)@, key),
            app_wf(final(self)@),
    {
        let is_help = match &self.modal {
            Some(Modal::Help) => true,
            _ => false,
        };
        if is_help {
            if key == Key::Esc || key == Key::Char('?') || key == Key::Char('q') {
                self.modal = None;
            }
            return Request::Idle;
        }
        if key == Key::Esc || key == Key::Char('m') || key == Key::Char('q') {
            self.modal = None;
            return Request::Idle;
        }
        let down = key == Key::Down || key == Key::Char('j');
        let up = key == Key::Up || key == Key::Char('k');
        if down || up {
            let taken = self.modal.take();
            match taken {
                Some(Modal::Context { mut menu, actions }) => {
                    assert(menu.entries@.len() == menu.entries.len());
                    if down {
                        menu.next();
                    } else {
                        menu.previous();
                    }
                    proof {
                        let n = menu.entries@.len() as int;
                        let s = old(self)@.modal->0->Context_selected as int;
                        assert(0 <= (s + 1) % n < n) by (nonlinear_arith)
                            requires
                                n > 0,
                        ;
                    }
                    self.modal = Some(Modal::Context { menu, actions });
                },
                other => {
                    self.modal = other;
                },
            }
            return Request::Idle;
        }
        if key == Key::Enter {
            let taken = self.modal.take();
            match taken {
                Some(Modal::Context { menu, mut actions }) => {
                    if menu.selected < actions.len() {
                        let ghost av = actions@[menu.selected as int]@;
                        assert(av == actions@.map_values(|a: ContextAction| a@)[menu.selected as int]);
                        let action = actions.remove(menu.selected);
                        return self.apply_context_action(action);
                    }
                    return Request::Idle;
                },
                other => {
                    self.modal = other;
                    return Request::Idle;
                },
            }
        }
        Request::Idle
    }

    /// A key press. `ctrl` tells whether Control was held.
    pub fn handle_key(&mut self, key: Key, ctrl: bool) -> (res: Request)
        requires
            app_wf(old(self)@),
            old(self)@.pending is Nothing,
        ensures
            (final(self)@, res@) == key_step(old(self)@, key, ctrl),
            app_wf(final(self)@),
    {
        if ctrl && key == Key::Char('c') {
            return Request::Quit;
        }
        if self.modal.is_some() {
            return self.handle_modal_key(key);
        }
        if key == Key::Char('q') {
            Request::Quit
        } else if key == Key::Down || key == Key::Char('j') {
            self.move_selection(true);
            Request::Idle
        } else if key == Key::Up || key == Key::Char('k') {
            self.move_selection(false);
            Request::Idle
        } else if key == Key::Enter || key == Key::Right || key == Key::Char('l') {
            self.open_selected()
        } else if key == Key::Backspace || key == Key::Left || key == Key::Char('h') {
            self.go_back();
            Request::Idle
        } else if key == Key::Char('r') {
            self.reload_current()
        } else if key == Key::Char('s') {
            self.shuffle_selected()
        } else if key == Key::Char('?') {
            self.modal = Some(Modal::Help);
            Request::Idle
        } else if key == Key::Char('m') {
            self.open_context_menu();
            Request::Idle
        } else if key == Key::Char('n') {
            self.toggle_autoplay();
            Request::Idle
        } else {
            Request::Idle
        }
    }

    /// A mouse event at screen cell `(column, row)`.
    pub fn handle_mouse(&mut self, kind: MouseKind, column: u16, row: u16) -> (res: Request)
        requires
            app_wf(old(self)@),
            old(self)@.pending is Nothing,
        ensures
            (final(self)@, res@) == mouse_step(old(self)@, kind, column, row),
            app_wf(final(self)@),
    {
        if self.modal.is_some() {
            return Request::Idle;
        }
        let a = self.list_area;
        let in_list = column >= a.x && column < a.x + a.width && row >= a.y && row < a.y
            + a.height;
        if !in_list {
            return Request::Idle;
        }
        if kind == MouseKind::ScrollDown {
            self.move_selection(true);
            return Request::Idle;
        }
        if kind == MouseKind::ScrollUp {
            self.move_selection(false);
            return Request::Idle;
        }
        if kind == MouseKind::LeftDown || kind == MouseKind::RightDown {
            let ghost v = self@;
            let ghost last = self.navigator@.len() - 1;
            assert(v.stack[last] == self.navigator@[last]@);
            assert(selection_ok(v.stack[last].selected, v.stack[last].items.len()));
            let current = self.navigator.current();
            let total = current.items.len();
            let offset = if total == 0 {
                0
            } else {
                compute_offset(current.selected, total, a.height as usize)
            };
            proof {
                if total > 0 {
                    crate::ui::browser::law_offset_shows_selection(
                        current.selected as nat,
                        total as nat,
                        if a.height > 0 { a.height as nat } else { 1 },
                    );
                }
            }
            if offset > total {
                return Request::Idle;
            }
            let delta = (row - a.y) as usize;
            if delta >= total - offset {
                return Request::Idle;
            }
            let idx = offset + delta;
            let was_selected = current.selected == idx;
            let ghost before = self.navigator@;
            let cm = self.navigator.current_mut();
            cm.selected = idx;
            proof {
                let b = cur(v);
                let nb = BrowserStateView { selected: idx as nat, ..b };
                assert(self.navigator@[last]@ == nb);
                assert(self@.stack =~= v.stack.update(last, nb));
            }
            if kind == MouseKind::RightDown {
                self.open_context_menu();
                return Request::Idle;
            }
            if was_selected {
                return self.open_selected();
            }
            return Request::Idle;
        }
        Request::Idle
    }

    /// Plays `episode_id` and the rest of its series `eps`.
    fn launch_queue(&mut self, episode_id: &str, name: &str, eps: &Vec<MediaItem>) -> (res: Request)
        ensures
            (final(self)@, res@) == queue_launch(old(self)@, episode_id@, name@, eps@),
    {
        let n = eps.len();
        let mut i: usize = 0;
        while i < n && !str_eq(eps[i].id.as_str(), episode_id)
            invariant
                n == eps@.len(),
                i <= n,
                forall|j: int| 0 <= j < i ==> eps@[j].id@ != episode_id@,
            decreases n - i,
        {
            i = i + 1;
        }
        proof {
            lemma_find_skip(eps@, episode_id@, i as int);
            if i < n {
                assert(eps@.skip(i as int)[0] == eps@[i as int]);
            } else {
                assert(eps@.skip(i as int) =~= Seq::<MediaItem>::empty());
            }
        }
        if i >= n {
            return self.launch_single(episode_id, name);
        }
        let start = i;
        match self.playback_urls(eps, start) {
            Some(urls) => {
                proof {
                    lemma_all_playback_len(self@, eps@.skip(start as int));
                }
                let queued = urls.len() - 1;
                let status = playing_status_string(name, queued);
                self.launch(&urls, status)
            },
            None => Request::Fail(AppError::InvalidPlaybackUrl),
        }
    }

    /// Hands the controller what came back from the outstanding request.
    pub fn resume(&mut self, outcome: Outcome) -> (res: Request)
        requires
            app_wf(old(self)@),
        ensures
            (final(self)@, res@) == resume_step(old(self)@, outcome),
            app_wf(final(self)@),
    {
        let mut pending = Pending::Nothing;
        std::mem::swap(&mut pending, &mut self.pending);
        match pending {
            Pending::Nothing => Request::Idle,
            Pending::OpenFolder { id, kind, name } => match outcome {
                Outcome::Items(items) => {
                    let ghost before = self.navigator@;
                    let state = BrowserState::new(Some(id), Some(kind), name, items);
                    self.navigator.push(state);
                    self.status = owned("Loaded folder.");
                    assert(self.navigator@.map_values(|b: BrowserState| b@) =~= before.map_values(|b: BrowserState| b@).push(state@));
                    Request::Idle
                },
                _ => Request::Abort,
            },
            Pending::Reload => match outcome {
                Outcome::Items(items) => {
                    let ghost before = self.navigator@;
                    let ghost last = before.len() - 1;
                    let current = self.navigator.current();
                    let parent_id = opt_owned(&current.parent_id);
                    let parent_kind = opt_owned(&current.parent_kind);
                    let title = owned(current.title.as_str());
                    let selected = current.selected;
                    let fresh = BrowserState::with_selection(parent_id, parent_kind, title, items, selected);
                    self.navigator.replace_current(fresh);
                    self.status = owned("Reloaded view.");
                    assert(self.navigator@.map_values(|b: BrowserState| b@) =~= before.map_values(|b: BrowserState| b@).update(last, fresh@));
                    Request::Idle
                },
                _ => Request::Abort,
            },
            Pending::Toggled { message } => match outcome {
                Outcome::Done => {
                    self.status = message;
                    self.reload_current()
                },
                _ => Request::Abort,
            },
            Pending::Shuffle => match outcome {
                Outcome::Items(eps) => {
                    if eps.len() == 0 {
                        self.status = owned("No episodes found to shuffle.");
                        return Request::Idle;
                    }
                    assert(eps@.skip(0) =~= eps@);
                    match self.playback_urls(&eps, 0) {
                        Some(urls) => {
                            let count = decimal_string(urls.len() as u64);
                            let status = concat3("Shuffling ", count.as_str(), " episodes in MPV.");
                            self.launch(&urls, status)
                        },
                        None => Request::Fail(AppError::InvalidPlaybackUrl),
                    }
                },
                _ => Request::Abort,
            },
            Pending::EpisodeQueue { episode_id, name } => match outcome {
                Outcome::Items(eps) => self.launch_queue(episode_id.as_str(), name.as_str(), &eps),
                Outcome::Failed => self.launch_single(episode_id.as_str(), name.as_str()),
                Outcome::Done => Request::Abort,
            },
            Pending::Launching { status } => match outcome {
                Outcome::Done => {
                    self.needs_full_redraw = true;
                    self.status = status;
                    Request::Idle
                },
                _ => Request::Abort,
            },
        }
    }
}

fn push_action(out: &mut Vec<ContextAction>, a: ContextAction)
    ensures
        final(out)@.map_values(|x: ContextAction| x@) == old(out)@.map_values(|x: ContextAction| x@).push(a@),
{
    let ghost before = out@.map_values(|x: ContextAction| x@);
    let ghost av = a@;
    out.push(a);
    assert(out@.map_values(|x: ContextAction| x@) =~= before.push(av));
}

fn playing_status_string(name: &str, queued: usize) -> (res: String)
    ensures
        res@ == playing_status(name@, queued as nat),
{
    if queued > 0 {
        let mut s = concat3("Playing `", name, "` in MPV (+");
        append(&mut s, decimal_string(queued as u64).as_str());
        append(&mut s, " queued).");
        s
    } else {
        concat3("Playing `", name, "` in MPV.")
    }
}

proof fn lemma_all_playback_prefix(v: AppView, s: Seq<MediaItem>, k: int)
    requires
        0 <= k <= s.len(),
        all_playback(v, s.take(k)) is None,
    ensures
        all_playback(v, s) is None,
    decreases s.len() - k,
{
    if k < s.len() {
        assert(s.take(k + 1).drop_last() =~= s.take(k));
        lemma_all_playback_prefix(v, s, k + 1);
    } else {
        assert(s.take(k) =~= s);
    }
}

proof fn lemma_all_playback_len(v: AppView, s: Seq<MediaItem>)
    ensures
        all_playback(v, s) matches Some(u) ==> u.len() == s.len(),
    decreases s.len(),
{
    if s.len() > 0 {
        lemma_all_playback_len(v, s.drop_last());
    }
}

proof fn lemma_find_skip(eps: Seq<MediaItem>, id: Seq<char>, i: int)
    requires
        0 <= i <= eps.len(),
        forall|j: int| 0 <= j < i ==> eps[j].id@ != id,
    ensures
        find_episode(eps, id) == match find_episode(eps.skip(i), id) {
            Some(k) => Some(k + i as nat),
            None => None::<nat>,
        },
    decreases i,
{
    if i == 0 {
        assert(eps.skip(0) =~= eps);
        match find_episode(eps, id) {
            Some(k) => {},
            None => {},
        }
    } else {
        assert(eps[0].id@ != id);
        let rest = eps.drop_first();
        assert forall|j: int| 0 <= j < i - 1 implies rest[j].id@ != id by {
            assert(rest[j] == eps[j + 1]);
        }
        lemma_find_skip(rest, id, i - 1);
        assert(rest.skip(i - 1) =~= eps.skip(i));
    }
}

// ---------------------------------------------------------------------------
// Laws

/// `?` opens the help overlay and `?` closes it again, leaving everything
/// as it was.
pub proof fn law_help_toggles(v: AppView)
    requires
        v.modal is None,
    ensures
        key_step(v, Key::Char('?'), false).0.modal == Some(ModalView::Help),
        key_step(key_step(v, Key::Char('?'), false).0, Key::Char('?'), false) == (
            v,
            RequestView::Idle,
        ),
{
}

/// Toggling autoplay twice restores the setting.
pub proof fn law_autoplay_toggle_twice(v: AppView)
    ensures
        toggle_autoplay(toggle_autoplay(v)).autoplay_next == v.autoplay_next,
{
}

/// Opening a folder and going back returns to the trail as it was.
pub proof fn law_open_folder_then_back(v: AppView, items: Vec<MediaItem>)
    requires
        app_wf(v),
        v.modal is None,
        selected_of(cur(v)) matches Some(item) && item.is_folder,
    ensures
        ({
            let (v1, r1) = key_step(v, Key::Enter, false);
            let (v2, r2) = resume_step(v1, Outcome::Items(items));
            &&& r1 == RequestView::FetchChildren(selected_of(cur(v))->0.id@)
            &&& r2 == RequestView::Idle
            &&& v2.stack.len() == v.stack.len() + 1
            &&& go_back(v2).stack == v.stack
        }),
{
    let (v1, r1) = key_step(v, Key::Enter, false);
    let (v2, r2) = resume_step(v1, Outcome::Items(items));
    assert(v2.stack.drop_last() =~= v.stack);
}

/// Going back from the root changes nothing.
pub proof fn law_back_at_root(v: AppView)
    requires
        v.stack.len() == 1,
    ensures
        go_back(v) == v,
{
}

/// Scrolling over the list moves the selection exactly as `j` and `k` do.
pub proof fn law_scroll_moves_like_keys(v: AppView, col: u16, row: u16)
    requires
        v.modal is None,
        in_area(v.list_area, col, row),
    ensures
        mouse_step(v, MouseKind::ScrollDown, col, row) == key_step(v, Key::Char('j'), false),
        mouse_step(v, MouseKind::ScrollUp, col, row) == key_step(v, Key::Char('k'), false),
        key_step(v, Key::Down, false) == key_step(v, Key::Char('j'), false),
        key_step(v, Key::Up, false) == key_step(v, Key::Char('k'), false),
{
}

/// Reloading keeps the current view's title, parent and selection, as long
/// as the selected row still exists in the fresh listing.
pub proof fn law_reload_keeps_selection(v: AppView, items: Vec<MediaItem>)
    requires
        app_wf(v),
        v.pending is Reload,
        cur(v).selected < items@.len(),
    ensures
        ({
            let (v1, r1) = resume_step(v, Outcome::Items(items));
            &&& r1 == RequestView::Idle
            &&& v1.stack.len() == v.stack.len()
            &&& v1.stack.drop_last() == v.stack.drop_last()
            &&& cur(v1) == BrowserStateView { items: items@, ..cur(v) }
            &&& v1.pending is Nothing
        }),
{
    let (v1, r1) = resume_step(v, Outcome::Items(items));
    assert(v1.stack.drop_last() =~= v.stack.drop_last());
}

/// Marking an item watched or unwatched from the context menu asks the
/// server for the opposite of what the item showed, and once that is done,
/// shows what changed and reloads the view.
pub proof fn law_toggle_watched_flips_and_reloads(v: AppView, id: Seq<char>, was: bool)
    requires
        v.pending is Nothing,
    ensures
        ({
            let (v1, r1) = apply_action(v, ActionView::ToggleWatched(id, was));
            let msg = if was { "Marked unwatched."@ } else { "Marked watched."@ };
            &&& r1 == RequestView::SetWatched(id, !was)
            &&& resume_step(v1, Outcome::Done) == reload(with_status(v, msg))
        }),
{
}

/// The same for favorites.
pub proof fn law_toggle_favorite_flips_and_reloads(v: AppView, id: Seq<char>, was: bool)
    requires
        v.pending is Nothing,
    ensures
        ({
            let (v1, r1) = apply_action(v, ActionView::ToggleFavorite(id, was));
            let msg = if was { "Removed from favorites."@ } else { "Added to favorites."@ };
            &&& r1 == RequestView::SetFavorite(id, !was)
            &&& resume_step(v1, Outcome::Done) == reload(with_status(v, msg))
        }),
{
}

/// A failed request stops the browser with its error and changes nothing
/// else, except the episode list of autoplay, whose failure plays the
/// episode alone.
pub proof fn law_failure_aborts(v: AppView)
    requires
        !(v.pending is Nothing),
    ensures
        v.pending matches PendingView::EpisodeQueue { episode_id, name }
            ==> resume_step(v, Outcome::Failed) == launch_single(
                waiting(v, PendingView::Nothing),
                episode_id,
                name,
            ),
        !(v.pending is EpisodeQueue) ==> resume_step(v, Outcome::Failed) == (
            waiting(v, PendingView::Nothing),
            RequestView::Abort,
        ),
{
}

/// Whatever comes back, the controller waits for nothing more unless it
/// asks for something new.
pub proof fn law_resume_settles(v: AppView, outcome: Outcome)
    ensures
        ({
            let (v1, r1) = resume_step(v, outcome);
            (r1 is Idle || r1 is Quit || r1 is Abort || r1 is Fail) ==> v1.pending is Nothing
        }),
{
}

proof fn lemma_all_playback_items(v: AppView, s: Seq<MediaItem>)
    ensures
        all_playback(v, s) matches Some(u) ==> u.len() == s.len() && forall|k: int|
            0 <= k < s.len() ==> Some(#[trigger] u[k]) == playback(v, s[k].id@),
    decreases s.len(),
{
    if s.len() > 0 {
        lemma_all_playback_items(v, s.drop_last());
        if let Some(u) = all_playback(v, s) {
            let init = all_playback(v, s.drop_last())->0;
            assert forall|k: int| 0 <= k < s.len() implies Some(#[trigger] u[k]) == playback(v, s[k].id@) by {
                if k < s.len() - 1 {
                    assert(u[k] == init[k]);
                    assert(s.drop_last()[k] == s[k]);
                }
            }
        }
    }
}

proof fn lemma_find_episode_hit(eps: Seq<MediaItem>, id: Seq<char>)
    ensures
        find_episode(eps, id) matches Some(i) ==> i < eps.len() && eps[i as int].id@ == id,
    decreases eps.len(),
{
    if eps.len() > 0 && eps[0].id@ != id {
        lemma_find_episode_hit(eps.drop_first(), id);
        if let Some(i) = find_episode(eps.drop_first(), id) {
            assert(eps.drop_first()[i as int] == eps[i as int + 1]);
        }
    }
}

/// The number of player arguments in front of the playlist.
pub open spec fn player_prefix_len(v: AppView) -> nat {
    1 + v.player.args.len() + if v.player.ontop { 1nat } else { 0nat }
}

/// Autoplay always starts the player on the chosen episode: the first
/// entry of the playlist is that episode's playback URL, whatever list of
/// the series came back.
pub proof fn law_queue_starts_with_chosen(v: AppView, id: Seq<char>, name: Seq<char>, eps: Seq<MediaItem>)
    ensures
        queue_launch(v, id, name, eps).1 matches RequestView::Launch(p, args) ==> args.len()
            > player_prefix_len(v) && playback(v, id) == Some(args[player_prefix_len(v) as int]),
{
    lemma_find_episode_hit(eps, id);
    match find_episode(eps, id) {
        None => {},
        Some(start) => {
            let q = eps.skip(start as int);
            lemma_all_playback_items(v, q);
            if let Some(urls) = all_playback(v, q) {
                assert(q[0] == eps[start as int]);
                let args = player_args(v, urls);
                assert(args[player_prefix_len(v) as int] == urls[0]);
            }
        },
    }
}

/// With autoplay off, opening a playable item plays that item alone: the
/// request is the player on exactly its own playback URL (or the failure
/// for an address that does not parse), and nothing is fetched first.
pub proof fn law_open_without_autoplay_plays_alone(v: AppView)
    requires
        v.modal is None,
        !v.autoplay_next,
        selected_of(cur(v)) matches Some(item) && !item.is_folder && item.spec_is_playable(),
    ensures
        ({
            let item = selected_of(cur(v))->0;
            let (v1, r) = key_step(v, Key::Enter, false);
            match playback(v, item.id@) {
                Some(u) => r == RequestView::Launch(player_program(v), player_args(v, seq![u]))
                    && v1.pending == (PendingView::Launching {
                    status: "Playing `"@ + item.name@ + "` in MPV."@,
                }),
                None => r == RequestView::Fail(AppError::InvalidPlaybackUrl),
            }
        }),
{
}

/// With autoplay on, opening an episode of a known series first asks for
/// that series' episode list, and nothing else.
pub proof fn law_open_with_autoplay_fetches_series(v: AppView)
    requires
        v.modal is None,
        v.autoplay_next,
        selected_of(cur(v)) matches Some(item) && !item.is_folder && item.kind@ == "Episode"@
            && item.series_id is Some,
    ensures
        ({
            let item = selected_of(cur(v))->0;
            key_step(v, Key::Enter, false).1 == RequestView::FetchSeriesEpisodes(
                item.series_id->0@,
            )
        }),
{
    reveal_strlit("Episode");
}

/// A click on screen row `row` of the list selects the item that the list
/// pane draws on that row: the first row it shows (the offset it is drawn
/// with, the same as `list_rows` uses) plus how far down the pane the row is.
/// A right click on such a row also opens that item's menu.
pub proof fn law_click_selects_drawn_row(v: AppView, kind: MouseKind, col: u16, row: u16)
    requires
        app_wf(v),
        v.modal is None,
        in_area(v.list_area, col, row),
        kind == MouseKind::LeftDown || kind == MouseKind::RightDown,
        ({
            let b = cur(v);
            let total = b.items.len();
            total > 0 && offset_for(b.selected, total, v.list_area.height as nat) + (row - v.list_area.y) < total
        }),
    ensures
        ({
            let b = cur(v);
            let total = b.items.len();
            let idx = offset_for(b.selected, total, v.list_area.height as nat) + (row - v.list_area.y);
            let (v1, r) = mouse_step(v, kind, col, row);
            &&& v1.stack.len() == v.stack.len()
            &&& cur(v1).selected == idx
            &&& cur(v1).items == b.items
            &&& (kind == MouseKind::RightDown ==> v1.modal is Some && r == RequestView::Idle)
        }),
{
    let b = cur(v);
    let total = b.items.len();
    let idx = offset_for(b.selected, total, v.list_area.height as nat) + (row - v.list_area.y);
    assert(clicked_index(v, row) == idx);
    let w = with_cur(v, BrowserStateView { selected: idx as nat, ..b });
    assert(w.stack.len() == v.stack.len());
    assert(cur(w).selected == idx);
    assert(selected_of(cur(w)) is Some);
}

/// The first entry of an item's menu is its watched toggle, labelled by the
/// item's played state, and choosing it asks the server for the opposite of
/// that state, for that item.
pub proof fn law_menu_watched_entry_flips_played(v: AppView)
    requires
        v.modal is None,
        selected_of(cur(v)) is Some,
    ensures
        ({
            let item = selected_of(cur(v))->0;
            let v1 = key_step(v, Key::Char('m'), false).0;
            &&& v1.modal matches Some(ModalView::Context { entries, selected, .. }) && selected == 0
                && entries[0] == (if item.user_data.played { "Mark unwatched"@ } else { "Mark watched"@ })
            &&& key_step(v1, Key::Enter, false).1 == RequestView::SetWatched(
                item.id@,
                !item.user_data.played,
            )
        }),
{
}

/// The second entry is the favorite toggle, and choosing it asks for the
/// opposite of the item's favorite state.
pub proof fn law_menu_favorite_entry_flips_favorite(v: AppView)
    requires
        v.modal is None,
        selected_of(cur(v)) is Some,
    ensures
        ({
            let item = selected_of(cur(v))->0;
            let v1 = key_step(v, Key::Char('m'), false).0;
            let v2 = key_step(v1, Key::Down, false).0;
            &&& v1.modal matches Some(ModalView::Context { entries, .. })
                && entries[1] == (if item.user_data.is_favorite { "Remove from favorites"@ } else { "Add to favorites"@ })
            &&& key_step(v2, Key::Enter, false).1 == RequestView::SetFavorite(
                item.id@,
                !item.user_data.is_favorite,
            )
        }),
{
    let item = selected_of(cur(v))->0;
    let n = menu_entries(item, v.autoplay_next).len();
    assert(n >= 4);
    assert((0int + 1) % (n as int) == 1) by (nonlinear_arith) requires n >= 4;
}

/// Shuffling inside a series: when the view being browsed lists a series'
/// contents and the selected row is not itself a series, `s` asks for up to
/// a hundred random episodes of that series; on a selected series, of the
/// selected one.
pub proof fn law_shuffle_targets_series(v: AppView)
    requires
        v.modal is None,
    ensures
        (selected_of(cur(v)) matches Some(item) && item.kind@ == "Series"@) ==> key_step(
            v,
            Key::Char('s'),
            false,
        ).1 == RequestView::FetchShuffled(selected_of(cur(v))->0.id@, 100),
        (selected_of(cur(v)) matches Some(item) ==> item.kind@ != "Series"@) && cur(v).parent_kind
            == Some("Series"@) && cur(v).parent_id is Some ==> key_step(v, Key::Char('s'), false).1
            == RequestView::FetchShuffled(cur(v).parent_id->0, 100),
{
}

/// Reloading a view with a parent asks for that parent's children; only
/// the root view, which has none, asks for the libraries.
pub proof fn law_reload_fetches_own_listing(v: AppView)
    requires
        v.modal is None,
    ensures
        cur(v).parent_id matches Some(p) ==> key_step(v, Key::Char('r'), false).1
            == RequestView::FetchChildren(p),
        cur(v).parent_id is None ==> key_step(v, Key::Char('r'), false).1 == RequestView::FetchRoot,
        key_step(v, Key::Char('r'), false).0.pending is Reload,
{
}

/// A folder opened from the root and then reloaded is listed again from
/// that folder, not from the libraries.
pub proof fn law_reload_after_open_lists_folder(v: AppView, items: Vec<MediaItem>)
    requires
        app_wf(v),
        v.modal is None,
        selected_of(cur(v)) matches Some(item) && item.is_folder,
    ensures
        ({
            let (v1, _r1) = key_step(v, Key::Enter, false);
            let (v2, _r2) = resume_step(v1, Outcome::Items(items));
            key_step(v2, Key::Char('r'), false).1 == RequestView::FetchChildren(selected_of(cur(v))->0.id@)
        }),
{
}

} // verus!
