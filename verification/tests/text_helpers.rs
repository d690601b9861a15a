use geltui::config::{normalize_server_url, Config, ConfigError, GeneralConfig, MpvConfig, ThemeConfig};
use geltui::jellyfin::{
    accept_access_token, auth_header, authenticate_url, children_query, configured_token, configured_user_id,
    current_user_url, favorite_item_url, format_runtime, items_url, login_credentials, played_item_url,
    root_views_url, series_episodes_url, shuffled_episodes_query, LoginError,
};
use geltui::text::{blank, decimal2_string, decimal_string, str_eq, trimmed};

fn config(api_key: Option<&str>, username: Option<&str>, password: Option<&str>) -> Config {
    Config {
        server_url: "http://media.local".to_string(),
        api_key: api_key.map(str::to_string),
        username: username.map(str::to_string),
        password: password.map(str::to_string),
        user_id: None,
        general: GeneralConfig::default(),
        mpv: MpvConfig::default(),
        theme: ThemeConfig::default(),
    }
}

fn pairs(v: Vec<(String, String)>) -> Vec<(&'static str, String)> {
    v.into_iter().map(|(k, val)| (Box::leak(k.into_boxed_str()) as &str, val)).collect()
}

#[test]
fn decimal_formatting() {
    assert_eq!(decimal_string(0), "0");
    assert_eq!(decimal_string(42), "42");
    assert_eq!(decimal_string(u64::MAX), u64::MAX.to_string());
    assert_eq!(decimal2_string(7), "07");
    assert_eq!(decimal2_string(12), "12");
    assert_eq!(decimal2_string(123), "123");
}

#[test]
fn white_space_and_trim() {
    assert!(blank(""));
    assert!(blank(" \t\n\u{3000}"));
    assert!(!blank(" x "));
    assert_eq!(trimmed("\u{a0} a b \n").into_iter().collect::<String>(), "a b");
    assert!(str_eq("abc", "abc"));
    assert!(!str_eq("abc", "abd"));
}

#[test]
fn server_url_loses_trailing_slashes() {
    assert_eq!(normalize_server_url("http://x:8096///"), "http://x:8096");
    assert_eq!(normalize_server_url("http://x:8096"), "http://x:8096");
    assert_eq!(normalize_server_url("///"), "");
}

#[test]
fn validate_needs_server_and_credentials() {
    assert_eq!(config(Some("k"), None, None).validate(), Ok(()));
    assert_eq!(config(None, Some("u"), Some("p")).validate(), Ok(()));
    assert_eq!(config(Some("  "), Some("u"), None).validate(), Err(ConfigError::MissingCredentials));
    assert_eq!(config(None, None, None).validate(), Err(ConfigError::MissingCredentials));
    let mut c = config(Some("k"), None, None);
    c.server_url = String::new();
    assert_eq!(c.validate(), Err(ConfigError::EmptyServerUrl));
}

#[test]
fn login_choices() {
    assert_eq!(configured_token(&config(Some(" key "), None, None)), Some(" key ".to_string()));
    assert_eq!(configured_token(&config(Some(" "), None, None)), None);
    let mut c = config(None, Some("ann"), Some("pw"));
    assert_eq!(login_credentials(&c), Ok(("ann".to_string(), "pw".to_string())));
    c.username = Some("\t".to_string());
    assert_eq!(login_credentials(&c), Err(LoginError::MissingUsername));
    c.username = Some("ann".to_string());
    c.password = None;
    assert_eq!(login_credentials(&c), Err(LoginError::MissingPassword));
    c.user_id = Some("u1".to_string());
    assert_eq!(configured_user_id(&c), Some("u1".to_string()));
    assert_eq!(accept_access_token("tok".to_string()), Ok("tok".to_string()));
    assert_eq!(accept_access_token(" ".to_string()), Err(LoginError::EmptyAccessToken));
}

#[test]
fn auth_header_values() {
    assert_eq!(
        auth_header("1.2.3", None).unwrap(),
        r#"MediaBrowser Client="geltui", Device="geltui", DeviceId="geltui", Version="1.2.3""#
    );
    assert_eq!(
        auth_header("1.2.3", Some("abc")).unwrap(),
        r#"MediaBrowser Client="geltui", Device="geltui", DeviceId="geltui", Version="1.2.3", Token="abc""#
    );
    assert_eq!(auth_header("1.2.3", Some("  ")), Err(LoginError::EmptyToken));
}

#[test]
fn runtime_formatting() {
    assert_eq!(format_runtime(0), "0m");
    assert_eq!(format_runtime(42 * 60 * 10_000_000), "42m");
    assert_eq!(format_runtime(3600 * 10_000_000), "1h 0m");
    assert_eq!(format_runtime(5459 * 10_000_000), "1h 30m");
    assert_eq!(format_runtime(59 * 10_000_000), "0m");
}

#[test]
fn request_addresses() {
    assert_eq!(root_views_url("http://s", "u"), "http://s/Users/u/Views");
    assert_eq!(items_url("http://s", "u"), "http://s/Users/u/Items");
    assert_eq!(played_item_url("http://s", "u", "i"), "http://s/Users/u/PlayedItems/i");
    assert_eq!(favorite_item_url("http://s", "u", "i"), "http://s/Users/u/FavoriteItems/i");
    assert_eq!(current_user_url("http://s"), "http://s/Users/Me");
    assert_eq!(authenticate_url("http://s"), "http://s/Users/AuthenticateByName");
    assert_eq!(series_episodes_url("http://s", "x"), "http://s/Shows/x/Episodes");
}

#[test]
fn request_queries() {
    let q = pairs(children_query("p1"));
    assert_eq!(q[0], ("ParentId", "p1".to_string()));
    assert_eq!(q[1], ("Recursive", "false".to_string()));
    assert_eq!(q[2], ("SortBy", "SortName".to_string()));
    assert_eq!(q[3], ("SortOrder", "Ascending".to_string()));
    assert_eq!(
        q[4],
        (
            "Fields",
            "Overview,ChildCount,ProductionYear,RunTimeTicks,MediaType,CollectionType,Genres,UserData".to_string()
        )
    );
    let q = pairs(shuffled_episodes_query("s1", 100));
    assert_eq!(q.len(), 6);
    assert_eq!(q[1], ("Recursive", "true".to_string()));
    assert_eq!(q[2], ("IncludeItemTypes", "Episode".to_string()));
    assert_eq!(q[3], ("SortBy", "Random".to_string()));
    assert_eq!(q[4], ("Limit", "100".to_string()));
}

#[test]
fn normalizing_twice_changes_nothing() {
    let once = normalize_server_url("https://media.example/jf//");
    assert_eq!(once, "https://media.example/jf");
    assert_eq!(normalize_server_url(&once), once);
    assert!(!once.ends_with('/'));
}
