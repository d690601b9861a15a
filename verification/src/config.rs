//! The configuration file's contents and the checks run on them.

use vstd::prelude::*;
use crate::text::{blank, chars_of, is_blank, string_of_range};

verus! {

/// `[general]`: behavior switches.
#[derive(Debug, Clone, Default)]
pub struct GeneralConfig {
    /// After an episode, queue the rest of its series.
    pub autoplay_next: bool,
    /// Capture the mouse for scrolling and clicking.
    pub mouse: bool,
}

/// `[mpv]`: how the player is started.
#[derive(Debug, Clone, Default)]
pub struct MpvConfig {
    /// The player program; `mpv` when absent.
    pub bin: Option<String>,
    /// Extra arguments handed to the player before the playlist.
    pub args: Vec<String>,
    /// Ask the player to stay on top.
    pub ontop: bool,
}

/// `[theme]`: colors, each a name (`cyan`, `bright red`, ...) or `#rrggbb`.
#[derive(Debug, Clone, Default)]
pub struct ThemeConfig {
    pub accent: Option<String>,
    /// Use reverse video for the selection, so it follows the terminal's colors.
    pub terminal_colors: bool,
    pub selection_bg: Option<String>,
    pub selection_fg: Option<String>,
    pub muted_fg: Option<String>,
    pub title_fg: Option<String>,
    pub hint_fg: Option<String>,
    pub description_fg: Option<String>,
    pub breadcrumb_current_fg: Option<String>,
}

/// The whole configuration file.
#[derive(Debug, Clone)]
pub struct Config {
    pub server_url: String,
    pub api_key: Option<String>,
    pub username: Option<String>,
    pub password: Option<String>,
    pub user_id: Option<String>,
    pub general: GeneralConfig,
    pub mpv: MpvConfig,
    pub theme: ThemeConfig,
}

/// Why a configuration is refused.
#[derive(Debug, Clone, Copy, PartialEq, Eq, Structural)]
pub enum ConfigError {
    /// `server_url` is empty.
    EmptyServerUrl,
    /// Neither an API key nor both a username and a password are set.
    MissingCredentials,
}

/// The field holds something other than white space.
pub open spec fn is_filled(field: Option<String>) -> bool {
    match field {
        Some(v) => !is_blank(v@),
        None => false,
    }
}

/// Whether an optional field holds something other than white space.
pub fn filled(field: &Option<String>) -> (res: bool)
    ensures
        res == is_filled(*field),
{
    match field {
        Some(v) => !blank(v.as_str()),
        None => false,
    }
}

/// `s` without its trailing slashes (`trim_end_matches('/')`).
pub open spec fn without_trailing_slashes(s: Seq<char>) -> Seq<char>
    decreases s.len(),
{
    if s.len() > 0 && s.last() == '/' {
        without_trailing_slashes(s.drop_last())
    } else {
        s
    }
}

/// The normalized address ends in no slash, and normalizing it again
/// changes nothing.
pub proof fn law_normalized_url_is_stable(s: Seq<char>)
    ensures
        without_trailing_slashes(s).len() == 0 || without_trailing_slashes(s).last() != '/',
        without_trailing_slashes(without_trailing_slashes(s)) == without_trailing_slashes(s),
    decreases s.len(),
{
    if s.len() > 0 && s.last() == '/' {
        law_normalized_url_is_stable(s.drop_last());
    }
}

/// The server address with its trailing slashes cut off, so that paths can
/// be appended to it.
pub fn normalize_server_url(url: &str) -> (res: String)
    ensures
        res@ == without_trailing_slashes(url@),
{
    let v = chars_of(url);
    let mut end = v.len();
    assert(v@.subrange(0, end as int) =~= v@);
    while end > 0 && v[end - 1] == '/'
        invariant
            end <= v@.len(),
            without_trailing_slashes(v@) == without_trailing_slashes(v@.subrange(0, end as int)),
        decreases end,
    {
        assert(v@.subrange(0, end as int).drop_last() =~= v@.subrange(0, end - 1));
        end = end - 1;
    }
    string_of_range(v.as_slice(), 0, end)
}

impl Config {
    /// What `validate` answers: the server address must be set, and either
    /// an API key or a username and a password.
    pub open spec fn spec_validate(&self) -> Result<(), ConfigError> {
        if self.server_url@.len() == 0 {
            Err(ConfigError::EmptyServerUrl)
        } else if !is_filled(self.api_key) && !(is_filled(self.username) && is_filled(
            self.password,
        )) {
            Err(ConfigError::MissingCredentials)
        } else {
            Ok(())
        }
    }

    /// Checks that the configuration can be used to connect.
    pub fn validate(&self) -> (res: Result<(), ConfigError>)
        ensures
            res == self.spec_validate(),
    {
        if self.server_url.as_str().is_empty() {
            return Err(ConfigError::EmptyServerUrl);
        }
        let has_api_key = filled(&self.api_key);
        let has_credentials = filled(&self.username) && filled(&self.password);
        if !has_api_key && !has_credentials {
            return Err(ConfigError::MissingCredentials);
        }
        Ok(())
    }
}

} // verus!
