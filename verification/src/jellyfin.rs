//! Jellyfin media items and the session that talks to a server.

use vstd::prelude::*;
use crate::config::{Config, filled, is_filled};
use crate::text::{append, blank, concat2, concat3, decimal, decimal_string, is_blank, owned, str_eq};

verus! {

/// Per-user state of a media item.
#[derive(Debug, Clone, Copy, Default)]
pub struct UserData {
    pub played: bool,
    pub is_favorite: bool,
}

/// One entry of a Jellyfin listing: a library, folder, series, season,
/// episode, movie, ...
#[derive(Debug, Clone)]
pub struct MediaItem {
    pub id: String,
    pub name: String,
    /// The Jellyfin item type (`Series`, `Season`, `Episode`, `Movie`, ...).
    pub kind: String,
    pub is_folder: bool,
    pub overview: Option<String>,
    pub production_year: Option<u16>,
    pub runtime_ticks: Option<u64>,
    pub child_count: Option<u32>,
    pub media_type: Option<String>,
    pub collection_type: Option<String>,
    pub series_id: Option<String>,
    pub series_name: Option<String>,
    pub index_number: Option<u32>,
    pub parent_index_number: Option<u32>,
    /// The community rating as it is shown, with one decimal (`8.4`).
    pub community_rating: Option<String>,
    pub official_rating: Option<String>,
    pub genres: Vec<String>,
    pub user_data: UserData,
}

/// Item types that can be handed to the player.
pub open spec fn is_playable_kind(kind: Seq<char>) -> bool {
    ||| kind == "Movie"@
    ||| kind == "Episode"@
    ||| kind == "Video"@
    ||| kind == "Audio"@
    ||| kind == "MusicVideo"@
}

/// Media types that can be handed to the player.
pub open spec fn is_playable_media_type(media_type: Option<String>) -> bool {
    match media_type {
        Some(t) => t@ == "Video"@ || t@ == "Audio"@,
        None => false,
    }
}

impl MediaItem {
    /// A folder never plays; anything else plays when its type or its media
    /// type is one the player handles.
    pub open spec fn spec_is_playable(&self) -> bool {
        !self.is_folder && (is_playable_kind(self.kind@) || is_playable_media_type(
            self.media_type,
        ))
    }

    pub fn is_playable(&self) -> (res: bool)
        ensures
            res == self.spec_is_playable(),
    {
        if self.is_folder {
            return false;
        }
        let k = self.kind.as_str();
        let by_kind = str_eq(k, "Movie") || str_eq(k, "Episode") || str_eq(k, "Video") || str_eq(
            k,
            "Audio",
        ) || str_eq(k, "MusicVideo");
        let by_media = match &self.media_type {
            Some(t) => str_eq(t.as_str(), "Video") || str_eq(t.as_str(), "Audio"),
            None => false,
        };
        by_kind || by_media
    }
}

// ---------------------------------------------------------------------------
// Session

/// The blocking HTTP client of `reqwest`.
#[verifier::external_type_specification]
#[verifier::external_body]
pub struct ExClient(reqwest::blocking::Client);

/// An authenticated connection to one Jellyfin server, for one user.
#[derive(Debug)]
pub struct Session {
    client: reqwest::blocking::Client,
    server_url: String,
    auth_token: String,
    pub user_id: String,
}

/// Why a session operation failed.
#[derive(Debug, Clone, Copy, PartialEq, Eq, Structural)]
pub enum SessionError {
    /// The playback address could not be parsed as a URL.
    InvalidPlaybackUrl,
}

/// The serialization of the URL parsed from `input` with the query pair
/// `key=value` appended (form-urlencoded), or `None` when `input` does not
/// parse (`url::Url::parse_with_params`).
pub uninterp spec fn url_with_query_pair(
    input: Seq<char>,
    key: Seq<char>,
    value: Seq<char>,
) -> Option<Seq<char>>;

/// Calls `reqwest::Url::parse_with_params` with one pair and serializes the result.
#[verifier::external_body]
fn parse_url_with_pair(input: &str, key: &str, value: &str) -> (res: Option<String>)
    ensures
        res matches Some(u) ==> url_with_query_pair(input@, key@, value@) == Some(u@),
        res is None ==> url_with_query_pair(input@, key@, value@) is None,
{
    reqwest::Url::parse_with_params(input, &[(key, value)]).ok().map(|u| u.to_string())
}

/// The address of an item's media stream, before URL parsing.
pub open spec fn download_address(server_url: Seq<char>, item_id: Seq<char>) -> Seq<char> {
    server_url + "/Items/"@ + item_id + "/Download"@
}

impl Session {
    /// A session over `client`, which already sends the authentication headers.
    pub fn new(
        client: reqwest::blocking::Client,
        server_url: String,
        auth_token: String,
        user_id: String,
    ) -> (res: Self)
        ensures
            res.spec_client() == client,
            res.spec_server_url() == server_url@,
            res.spec_auth_token() == auth_token@,
            res.spec_user_id() == user_id@,
    {
        Session { client, server_url, auth_token, user_id }
    }

    /// The client the session was made with.
    pub closed spec fn spec_client(&self) -> reqwest::blocking::Client {
        self.client
    }

    pub closed spec fn spec_server_url(&self) -> Seq<char> {
        self.server_url@
    }

    pub closed spec fn spec_auth_token(&self) -> Seq<char> {
        self.auth_token@
    }

    pub closed spec fn spec_user_id(&self) -> Seq<char> {
        self.user_id@
    }

    /// The id of the signed-in user.
    pub fn user_id(&self) -> (res: &str)
        ensures
            res@ == self.spec_user_id(),
    {
        self.user_id.as_str()
    }

    /// The server's base address, without a trailing slash.
    pub fn server_url(&self) -> (res: &str)
        ensures
            res@ == self.spec_server_url(),
    {
        self.server_url.as_str()
    }

    /// The HTTP client that carries the authentication headers.
    pub fn client(&self) -> (res: &reqwest::blocking::Client)
        ensures
            *res == self.spec_client(),
    {
        &self.client
    }

    /// The access token sent with every request.
    pub fn auth_token(&self) -> (res: &str)
        ensures
            res@ == self.spec_auth_token(),
    {
        self.auth_token.as_str()
    }

    /// The URL that streams item `item_id`: its download address with
    /// `download=false` in the query.
    pub fn playback_url(&self, item_id: &str) -> (res: Result<String, SessionError>)
        ensures
            match res {
                Ok(u) => url_with_query_pair(
                    download_address(self.spec_server_url(), item_id@),
                    "download"@,
                    "false"@,
                ) == Some(u@),
                Err(e) => e == SessionError::InvalidPlaybackUrl && url_with_query_pair(
                    download_address(self.spec_server_url(), item_id@),
                    "download"@,
                    "false"@,
                ) is None,
            },
    {
        let raw = concat3(self.server_url.as_str(), "/Items/", item_id);
        let mut raw = raw;
        append(&mut raw, "/Download");
        match parse_url_with_pair(raw.as_str(), "download", "false") {
            Some(u) => Ok(u),
            None => Err(SessionError::InvalidPlaybackUrl),
        }
    }
}

// ---------------------------------------------------------------------------
// Requests

/// `{server}/Users/{user}{tail}`.
pub open spec fn user_path(server_url: Seq<char>, user_id: Seq<char>, tail: Seq<char>) -> Seq<
    char,
> {
    server_url + "/Users/"@ + user_id + tail
}

fn user_url(server_url: &str, user_id: &str, tail: &str) -> (res: String)
    ensures
        res@ == user_path(server_url@, user_id@, tail@),
{
    let mut s = concat3(server_url, "/Users/", user_id);
    append(&mut s, tail);
    s
}

/// The listing of the user's libraries.
pub fn root_views_url(server_url: &str, user_id: &str) -> (res: String)
    ensures
        res@ == user_path(server_url@, user_id@, "/Views"@),
{
    user_url(server_url, user_id, "/Views")
}

/// The item query of the user.
pub fn items_url(server_url: &str, user_id: &str) -> (res: String)
    ensures
        res@ == user_path(server_url@, user_id@, "/Items"@),
{
    user_url(server_url, user_id, "/Items")
}

/// The played-state of one item.
pub fn played_item_url(server_url: &str, user_id: &str, item_id: &str) -> (res: String)
    ensures
        res@ == user_path(server_url@, user_id@, "/PlayedItems/"@ + item_id@),
{
    let tail = concat2("/PlayedItems/", item_id);
    user_url(server_url, user_id, tail.as_str())
}

/// The favorite-state of one item.
pub fn favorite_item_url(server_url: &str, user_id: &str, item_id: &str) -> (res: String)
    ensures
        res@ == user_path(server_url@, user_id@, "/FavoriteItems/"@ + item_id@),
{
    let tail = concat2("/FavoriteItems/", item_id);
    user_url(server_url, user_id, tail.as_str())
}

/// The current user, as the access token identifies it.
pub fn current_user_url(server_url: &str) -> (res: String)
    ensures
        res@ == server_url@ + "/Users/Me"@,
{
    concat2(server_url, "/Users/Me")
}

/// The password login.
pub fn authenticate_url(server_url: &str) -> (res: String)
    ensures
        res@ == server_url@ + "/Users/AuthenticateByName"@,
{
    concat2(server_url, "/Users/AuthenticateByName")
}

/// All episodes of a series, in broadcast order.
pub fn series_episodes_url(server_url: &str, series_id: &str) -> (res: String)
    ensures
        res@ == server_url@ + "/Shows/"@ + series_id@ + "/Episodes"@,
{
    let mut s = concat3(server_url, "/Shows/", series_id);
    append(&mut s, "/Episodes");
    s
}

/// The views of a list of query pairs.
pub open spec fn pair_views(v: Seq<(String, String)>) -> Seq<(Seq<char>, Seq<char>)> {
    v.map_values(|p: (String, String)| (p.0@, p.1@))
}

fn push_pair(out: &mut Vec<(String, String)>, key: &str, value: &str)
    ensures
        pair_views(final(out)@) == pair_views(old(out)@).push((key@, value@)),
{
    let ghost before = pair_views(out@);
    out.push((owned(key), owned(value)));
    assert(pair_views(out@) =~= before.push((key@, value@)));
}

/// The fields asked for when listing a folder.
pub open spec fn child_fields() -> Seq<char> {
    "Overview,ChildCount,ProductionYear,RunTimeTicks,MediaType,CollectionType,Genres,UserData"@
}

/// The fields asked for when shuffling.
pub open spec fn shuffle_fields() -> Seq<char> {
    "Overview,ProductionYear,RunTimeTicks,MediaType,Genres,UserData"@
}

/// The query that lists the children of `parent_id`, sorted by name.
pub fn children_query(parent_id: &str) -> (res: Vec<(String, String)>)
    ensures
        pair_views(res@) == seq![
            ("ParentId"@, parent_id@),
            ("Recursive"@, "false"@),
            ("SortBy"@, "SortName"@),
            ("SortOrder"@, "Ascending"@),
            ("Fields"@, child_fields()),
        ],
{
    let mut q: Vec<(String, String)> = Vec::new();
    assert(pair_views(q@) =~= Seq::empty());
    push_pair(&mut q, "ParentId", parent_id);
    push_pair(&mut q, "Recursive", "false");
    push_pair(&mut q, "SortBy", "SortName");
    push_pair(&mut q, "SortOrder", "Ascending");
    push_pair(
        &mut q,
        "Fields",
        "Overview,ChildCount,ProductionYear,RunTimeTicks,MediaType,CollectionType,Genres,UserData",
    );
    assert(pair_views(q@) =~= seq![
        ("ParentId"@, parent_id@),
        ("Recursive"@, "false"@),
        ("SortBy"@, "SortName"@),
        ("SortOrder"@, "Ascending"@),
        ("Fields"@, child_fields()),
    ]);
    q
}

/// The query that draws up to `limit` random episodes of `series_id`.
pub fn shuffled_episodes_query(series_id: &str, limit: u32) -> (res: Vec<(String, String)>)
    ensures
        pair_views(res@) == seq![
            ("ParentId"@, series_id@),
            ("Recursive"@, "true"@),
            ("IncludeItemTypes"@, "Episode"@),
            ("SortBy"@, "Random"@),
            ("Limit"@, decimal(limit as nat)),
            ("Fields"@, shuffle_fields()),
        ],
{
    let mut q: Vec<(String, String)> = Vec::new();
    assert(pair_views(q@) =~= Seq::empty());
    push_pair(&mut q, "ParentId", series_id);
    push_pair(&mut q, "Recursive", "true");
    push_pair(&mut q, "IncludeItemTypes", "Episode");
    push_pair(&mut q, "SortBy", "Random");
    let limit_text = decimal_string(limit as u64);
    push_pair(&mut q, "Limit", limit_text.as_str());
    push_pair(&mut q, "Fields", "Overview,ProductionYear,RunTimeTicks,MediaType,Genres,UserData");
    assert(pair_views(q@) =~= seq![
        ("ParentId"@, series_id@),
        ("Recursive"@, "true"@),
        ("IncludeItemTypes"@, "Episode"@),
        ("SortBy"@, "Random"@),
        ("Limit"@, decimal(limit as nat)),
        ("Fields"@, shuffle_fields()),
    ]);
    q
}

/// The query that lists all episodes of a series for `user_id`.
pub fn series_episodes_query(user_id: &str) -> (res: Vec<(String, String)>)
    ensures
        pair_views(res@) == seq![("UserId"@, user_id@), ("Fields"@, shuffle_fields())],
{
    let mut q: Vec<(String, String)> = Vec::new();
    assert(pair_views(q@) =~= Seq::empty());
    push_pair(&mut q, "UserId", user_id);
    push_pair(&mut q, "Fields", "Overview,ProductionYear,RunTimeTicks,MediaType,Genres,UserData");
    assert(pair_views(q@) =~= seq![("UserId"@, user_id@), ("Fields"@, shuffle_fields())]);
    q
}

// ---------------------------------------------------------------------------
// Authentication

/// Why signing in cannot go ahead.
#[derive(Debug, Clone, Copy, PartialEq, Eq, Structural)]
pub enum LoginError {
    /// No usable `username` in the configuration.
    MissingUsername,
    /// No usable `password` in the configuration.
    MissingPassword,
    /// The server answered with an empty access token.
    EmptyAccessToken,
    /// An authentication header was asked for with an empty token.
    EmptyToken,
}

/// The configured API key, when it holds something other than white space.
pub fn configured_token(config: &Config) -> (res: Option<String>)
    ensures
        res matches Some(t) ==> config.api_key matches Some(k) && t@ == k@ && !is_blank(k@),
        res is None <==> !is_filled(config.api_key),
{
    match &config.api_key {
        Some(k) => if blank(k.as_str()) {
            None
        } else {
            Some(owned(k.as_str()))
        },
        None => None,
    }
}

/// The configured user id, when it holds something other than white space.
pub fn configured_user_id(config: &Config) -> (res: Option<String>)
    ensures
        res matches Some(t) ==> config.user_id matches Some(k) && t@ == k@ && !is_blank(k@),
        res is None <==> !is_filled(config.user_id),
{
    match &config.user_id {
        Some(k) => if blank(k.as_str()) {
            None
        } else {
            Some(owned(k.as_str()))
        },
        None => None,
    }
}

/// The username and password for the password login; the username is
/// checked first.
pub fn login_credentials(config: &Config) -> (res: Result<(String, String), LoginError>)
    ensures
        match res {
            Ok((u, p)) => config.username matches Some(cu) && config.password matches Some(cp)
                && u@ == cu@ && p@ == cp@ && !is_blank(cu@) && !is_blank(cp@),
            Err(e) => if !is_filled(config.username) {
                e == LoginError::MissingUsername
            } else {
                e == LoginError::MissingPassword && !is_filled(config.password)
            },
        },
{
    let username = match &config.username {
        Some(u) => if blank(u.as_str()) {
            return Err(LoginError::MissingUsername);
        } else {
            owned(u.as_str())
        },
        None => return Err(LoginError::MissingUsername),
    };
    let password = match &config.password {
        Some(p) => if blank(p.as_str()) {
            return Err(LoginError::MissingPassword);
        } else {
            owned(p.as_str())
        },
        None => return Err(LoginError::MissingPassword),
    };
    Ok((username, password))
}

/// Accepts the access token of a login answer unless it is blank.
pub fn accept_access_token(token: String) -> (res: Result<String, LoginError>)
    ensures
        match res {
            Ok(t) => t == token && !is_blank(token@),
            Err(e) => e == LoginError::EmptyAccessToken && is_blank(token@),
        },
{
    if blank(token.as_str()) {
        Err(LoginError::EmptyAccessToken)
    } else {
        Ok(token)
    }
}

/// The `X-Emby-Authorization` header value that names this client.
pub open spec fn client_header(version: Seq<char>) -> Seq<char> {
    "MediaBrowser Client=\"geltui\", Device=\"geltui\", DeviceId=\"geltui\", Version=\""@ + version
        + "\""@
}

/// The authorization header value: the client description, with the token
/// when there is one. A blank token is refused.
pub fn auth_header(version: &str, token: Option<&str>) -> (res: Result<String, LoginError>)
    ensures
        match token {
            None => res matches Ok(h) && h@ == client_header(version@),
            Some(t) => if is_blank(t@) {
                res == Err::<String, LoginError>(LoginError::EmptyToken)
            } else {
                res matches Ok(h) && h@ == client_header(version@) + ", Token=\""@ + t@ + "\""@
            },
        },
{
    let mut header = concat3(
        "MediaBrowser Client=\"geltui\", Device=\"geltui\", DeviceId=\"geltui\", Version=\"",
        version,
        "\"",
    );
    if let Some(t) = token {
        if blank(t) {
            return Err(LoginError::EmptyToken);
        }
        append(&mut header, ", Token=\"");
        append(&mut header, t);
        append(&mut header, "\"");
    }
    Ok(header)
}

// ---------------------------------------------------------------------------
// Runtime

/// A runtime of `ticks` (100 ns units) as shown: `{h}h {m}m`, or `{m}m`
/// under an hour; seconds are dropped.
pub open spec fn runtime_text(ticks: nat) -> Seq<char> {
    let total_seconds = ticks / 10_000_000;
    let hours = total_seconds / 3600;
    let minutes = (total_seconds % 3600) / 60;
    if hours > 0 {
        decimal(hours) + "h "@ + decimal(minutes) + "m"@
    } else {
        decimal(minutes) + "m"@
    }
}

/// Formats a runtime given in ticks of 100 ns.
pub fn format_runtime(ticks: u64) -> (res: String)
    ensures
        res@ == runtime_text(ticks as nat),
{
    let total_seconds = ticks / 10_000_000;
    let hours = total_seconds / 3600;
    let minutes = (total_seconds % 3600) / 60;
    if hours > 0 {
        let h = decimal_string(hours);
        let m = decimal_string(minutes);
        let mut s = concat3(h.as_str(), "h ", m.as_str());
        append(&mut s, "m");
        s
    } else {
        let m = decimal_string(minutes);
        concat2(m.as_str(), "m")
    }
}

} // verus!
