//! Colors and styles of the interface, resolved once from the configuration.

use vstd::prelude::*;
use crate::config::{Config, ThemeConfig};
use crate::style::{Color, Style, plain_style, BOLD, DIM, REVERSED};
use crate::text::{all_ascii, ascii_lower, lemma_ascii_lower_twice, lemma_trim_lower, law_trim_idempotent, chars_of, repeat_char, repeated, string_of_range, trim, trimmed, string_of, concat3, owned, append};

verus! {

// ASCII only, so that every terminal agrees on their width.
pub const FOLDER_ICON: &'static str = ">";
pub const PLAYABLE_ICON: &'static str = "*";
pub const OTHER_ICON: &'static str = "-";
pub const BREADCRUMB_SEP: &'static str = " > ";

// ---------------------------------------------------------------------------
// Color names

/// `str::to_lowercase`: Unicode lowercase mapping, character by character,
/// some characters mapping to several.
pub uninterp spec fn to_lowercase(s: Seq<char>) -> Seq<char>;

/// Calls `str::to_lowercase`. Of its result, beyond the name, only this
/// is claimed: on ASCII text, Unicode's lowercase mapping turns each of
/// `A`-`Z` into `a`-`z`, one character for one, and leaves every other
/// ASCII character as it is.
#[verifier::external_body]
fn lowercase(s: &str) -> (res: String)
    ensures
        res@ == to_lowercase(s@),
        all_ascii(s@) ==> res@ == ascii_lower(s@),
{
    s.to_lowercase()
}

/// The value of `c` as a hexadecimal digit (`char::to_digit(16)`).
pub open spec fn hex_digit(c: char) -> Option<u8> {
    let u = c as u32;
    if 0x30 <= u <= 0x39 {
        Some((u - 0x30) as u8)
    } else if 0x61 <= u <= 0x66 {
        Some((u - 0x61 + 10) as u8)
    } else if 0x41 <= u <= 0x46 {
        Some((u - 0x41 + 10) as u8)
    } else {
        None
    }
}

/// The byte written as the two hex digits `x` and `y`.
pub open spec fn hex_pair(x: char, y: char) -> Option<u8> {
    match (hex_digit(x), hex_digit(y)) {
        (Some(a), Some(b)) => Some((16 * a + b) as u8),
        _ => None,
    }
}

/// The color written `#` followed by `h`: exactly six hex digits, two per
/// channel; anything else names no color.
pub open spec fn hex_color(h: Seq<char>) -> Option<Color> {
    if h.len() != 6 {
        None
    } else {
        match (hex_pair(h[0], h[1]), hex_pair(h[2], h[3]), hex_pair(h[4], h[5])) {
            (Some(r), Some(g), Some(b)) => Some(Color::Rgb(r, g, b)),
            _ => None,
        }
    }
}

/// A base color name, bright or not.
pub open spec fn named_color(name: Seq<char>, bright: bool) -> Option<Color> {
    if name == "black"@ {
        Some(if bright { Color::DarkGray } else { Color::Black })
    } else if name == "red"@ {
        Some(if bright { Color::LightRed } else { Color::Red })
    } else if name == "green"@ {
        Some(if bright { Color::LightGreen } else { Color::Green })
    } else if name == "yellow"@ {
        Some(if bright { Color::LightYellow } else { Color::Yellow })
    } else if name == "blue"@ {
        Some(if bright { Color::LightBlue } else { Color::Blue })
    } else if name == "magenta"@ {
        Some(if bright { Color::LightMagenta } else { Color::Magenta })
    } else if name == "cyan"@ {
        Some(if bright { Color::LightCyan } else { Color::Cyan })
    } else if name == "white"@ {
        Some(if bright { Color::White } else { Color::Gray })
    } else {
        None
    }
}

/// The color that the trimmed, lowercased text `s` names: `#rrggbb`, or a
/// name with an optional `bright ` in front.
pub open spec fn color_from_text(s: Seq<char>) -> Option<Color> {
    if s.len() > 0 && s[0] == '#' {
        hex_color(s.drop_first())
    } else if s.len() >= 7 && s.take(7) == "bright "@ {
        named_color(s.skip(7), true)
    } else {
        named_color(s, false)
    }
}

/// The text that `parse_color` reads: trimmed, then lowercased.
pub open spec fn normalized_color_text(input: Seq<char>) -> Seq<char> {
    to_lowercase(trim(input))
}

/// What `parse_color` answers on `input`.
pub open spec fn spec_parse_color(input: Seq<char>) -> Option<Color> {
    color_from_text(normalized_color_text(input))
}

/// White space around a color setting does not matter: the text is read
/// trimmed.
pub proof fn law_parse_color_ignores_surrounding_space(input: Seq<char>)
    ensures
        spec_parse_color(trim(input)) == spec_parse_color(input),
{
    law_trim_idempotent(input);
}

/// What `parse_color` answers on ASCII text: the color that the trimmed
/// text with its capitals lowered names.
pub open spec fn ascii_parse_color(input: Seq<char>) -> Option<Color> {
    color_from_text(ascii_lower(trim(input)))
}

/// Letter case and surrounding white space do not matter in ASCII color
/// text: it names the same color as its lowercase form and as its trimmed
/// lowercase form.
pub proof fn law_parse_color_ignores_case(input: Seq<char>)
    ensures
        ascii_parse_color(ascii_lower(input)) == ascii_parse_color(input),
        ascii_parse_color(ascii_lower(trim(input))) == ascii_parse_color(input),
{
    let t = trim(input);
    lemma_trim_lower(input);
    lemma_ascii_lower_twice(t);
    law_trim_idempotent(input);
    lemma_trim_lower(t);
}

/// Whether `v[from..]` begins with the characters of `lit`.
fn has_prefix_at(v: &[char], from: usize, lit: &str) -> (res: bool)
    requires
        from <= v@.len(),
    ensures
        res == (v@.len() - from >= lit@.len() && v@.subrange(from as int, from + lit@.len())
            == lit@),
{
    let p = chars_of(lit);
    if v.len() - from < p.len() {
        return false;
    }
    let n = p.len();
    let mut i: usize = 0;
    while i < n
        invariant
            n == p@.len(),
            p@ == lit@,
            i <= n,
            from + n <= v.len(),
            forall|j: int| 0 <= j < i ==> v@[from + j] == p@[j],
        decreases n - i,
    {
        if v[from + i] != p[i] {
            return false;
        }
        i = i + 1;
    }
    assert(v@.subrange(from as int, from + lit@.len()) =~= lit@);
    true
}

/// Whether `v[from..]` is exactly `lit`.
fn rest_is(v: &[char], from: usize, lit: &str) -> (res: bool)
    requires
        from <= v@.len(),
    ensures
        res == (v@.subrange(from as int, v@.len() as int) == lit@),
{
    let p = chars_of(lit);
    if v.len() - from != p.len() {
        return false;
    }
    let b = has_prefix_at(v, from, lit);
    assert(from + lit@.len() == v@.len());
    b
}

fn named_color_at(v: &[char], from: usize, bright: bool) -> (res: Option<Color>)
    requires
        from <= v@.len(),
    ensures
        res == named_color(v@.subrange(from as int, v@.len() as int), bright),
{
    if rest_is(v, from, "black") {
        Some(if bright { Color::DarkGray } else { Color::Black })
    } else if rest_is(v, from, "red") {
        Some(if bright { Color::LightRed } else { Color::Red })
    } else if rest_is(v, from, "green") {
        Some(if bright { Color::LightGreen } else { Color::Green })
    } else if rest_is(v, from, "yellow") {
        Some(if bright { Color::LightYellow } else { Color::Yellow })
    } else if rest_is(v, from, "blue") {
        Some(if bright { Color::LightBlue } else { Color::Blue })
    } else if rest_is(v, from, "magenta") {
        Some(if bright { Color::LightMagenta } else { Color::Magenta })
    } else if rest_is(v, from, "cyan") {
        Some(if bright { Color::LightCyan } else { Color::Cyan })
    } else if rest_is(v, from, "white") {
        Some(if bright { Color::White } else { Color::Gray })
    } else {
        None
    }
}

fn hex_digit_of(c: char) -> (res: Option<u8>)
    ensures
        res == hex_digit(c),
{
    let u = c as u32;
    if 0x30 <= u && u <= 0x39 {
        Some((u - 0x30) as u8)
    } else if 0x61 <= u && u <= 0x66 {
        Some((u - 0x61 + 10) as u8)
    } else if 0x41 <= u && u <= 0x46 {
        Some((u - 0x41 + 10) as u8)
    } else {
        None
    }
}

fn hex_pair_of(x: char, y: char) -> (res: Option<u8>)
    ensures
        res == hex_pair(x, y),
{
    match (hex_digit_of(x), hex_digit_of(y)) {
        (Some(a), Some(b)) => Some(16 * a + b),
        _ => None,
    }
}

/// The color named by `s`, which has been trimmed and lowercased already.
pub fn color_from_normalized(s: &str) -> (res: Option<Color>)
    ensures
        res == color_from_text(s@),
{
    let v = chars_of(s);
    let n = v.len();
    if n > 0 && v[0] == '#' {
        let ghost h = v@.drop_first();
        if n != 7 {
            return None;
        }
        proof {
            assert(h[0] == v@[1] && h[1] == v@[2] && h[2] == v@[3]);
            assert(h[3] == v@[4] && h[4] == v@[5] && h[5] == v@[6]);
        }
        let r = hex_pair_of(v[1], v[2]);
        let g = hex_pair_of(v[3], v[4]);
        let b = hex_pair_of(v[5], v[6]);
        match (r, g, b) {
            (Some(r), Some(g), Some(b)) => Some(Color::Rgb(r, g, b)),
            _ => None,
        }
    } else if has_prefix_at(v.as_slice(), 0, "bright ") {
        proof {
            reveal_strlit("bright ");
            assert(v@.subrange(0, 7) =~= v@.take(7));
            assert(v@.subrange(7, n as int) =~= v@.skip(7));
        }
        named_color_at(v.as_slice(), 7, true)
    } else {
        proof {
            reveal_strlit("bright ");
            assert(v@.subrange(0, n as int) =~= v@);
            if n >= 7 {
                assert(v@.subrange(0, 7) =~= v@.take(7));
            }
        }
        named_color_at(v.as_slice(), 0, false)
    }
}

/// Parses a color setting: an ANSI color name, optionally preceded by
/// `bright `, or `#rrggbb`. Surrounding white space and letter case are
/// ignored. `None` when the text names no color.
pub fn parse_color(input: &str) -> (res: Option<Color>)
    ensures
        res == spec_parse_color(input@),
        all_ascii(input@) ==> res == ascii_parse_color(input@),
{
    let t = trimmed(input);
    let ts = string_of(t.as_slice());
    proof {
        lemma_trim_lower(input@);
    }
    let s = lowercase(ts.as_str());
    color_from_normalized(s.as_str())
}

// ---------------------------------------------------------------------------
// Truncation

/// `s` cut to `max_chars` characters, ending in `...` when it was cut; when
/// no more than three characters fit, only dots remain.
pub open spec fn truncated(s: Seq<char>, max_chars: nat) -> Seq<char> {
    if s.len() <= max_chars {
        s
    } else if max_chars <= 3 {
        repeat_char('.', max_chars)
    } else {
        s.take(max_chars - 3) + "..."@
    }
}

/// A truncated string has `max_chars` characters, or fewer when `s` is shorter.
pub proof fn lemma_truncated_len(s: Seq<char>, max_chars: nat)
    ensures
        truncated(s, max_chars).len() == if s.len() <= max_chars { s.len() } else { max_chars },
{
    reveal_strlit("...");
}

/// Truncates `s` to `max_chars` characters, appending `...` when it is cut.
/// `max_chars == 0` gives the empty string.
pub fn truncate(s: &str, max_chars: usize) -> (res: String)
    ensures
        res@ == truncated(s@, max_chars as nat),
        res@.len() == if s@.len() <= max_chars { s@.len() } else { max_chars as nat },
{
    let v = chars_of(s);
    if v.len() <= max_chars {
        return owned(s);
    }
    if max_chars <= 3 {
        return repeated('.', max_chars);
    }
    let mut out = string_of_range(v.as_slice(), 0, max_chars - 3);
    append(&mut out, "...");
    proof {
        reveal_strlit("...");
        assert(v@.subrange(0, max_chars - 3) =~= v@.take(max_chars - 3));
    }
    out
}

// ---------------------------------------------------------------------------
// The theme

/// The styles of the interface's roles.
#[derive(Debug, Clone, Copy)]
pub struct Theme {
    /// Secondary text: breadcrumb separators, rows that cannot be opened or
    /// played, subtitles, placeholders.
    pub muted: Style,
    /// Item titles, such as the heading of the details pane.
    pub title: Style,
    /// The footer's key hints.
    pub hint: Style,
    /// Body text such as overviews.
    pub description: Style,
    /// The last breadcrumb segment.
    pub breadcrumb_current: Style,
    /// The selected list row.
    pub selection: Style,
}

/// The color a setting names, if it is set and names one.
pub open spec fn resolved(value: Option<String>) -> Option<Color> {
    match value {
        Some(v) => spec_parse_color(v@),
        None => None,
    }
}

/// The style with the modifiers `m` (if any) and foreground `fg` (if any).
pub open spec fn styled_with(m: u16, fg: Option<Color>) -> Style {
    let s = if m != 0 { plain_style().spec_add_modifier(m) } else { plain_style() };
    match fg {
        Some(c) => Style { fg: Some(c), ..s },
        None => s,
    }
}

/// The selection style: reverse video in terminal-colors mode, else the
/// configured background or a dark grey; the configured foreground on top.
pub open spec fn selection_style(t: ThemeConfig) -> Style {
    let base = plain_style().spec_remove_modifier(DIM);
    let s = if t.terminal_colors {
        base.spec_add_modifier(REVERSED)
    } else {
        match resolved(t.selection_bg) {
            Some(bg) => Style { bg: Some(bg), ..base },
            None => Style { bg: Some(Color::Indexed(237)), ..base },
        }
    };
    match resolved(t.selection_fg) {
        Some(fg) => Style { fg: Some(fg), ..s },
        None => s,
    }
}

/// The accent color: the configured one, or cyan.
pub open spec fn accent_color(t: ThemeConfig) -> Color {
    match resolved(t.accent) {
        Some(c) => c,
        None => Color::Cyan,
    }
}

/// The theme that a configuration describes.
pub open spec fn spec_theme(t: ThemeConfig) -> Theme {
    let crumb = match resolved(t.breadcrumb_current_fg) {
        Some(c) => c,
        None => accent_color(t),
    };
    Theme {
        muted: styled_with(DIM, resolved(t.muted_fg)),
        title: styled_with(BOLD, resolved(t.title_fg)),
        hint: styled_with(DIM, resolved(t.hint_fg)),
        description: styled_with(0, resolved(t.description_fg)),
        breadcrumb_current: Style { fg: Some(crumb), ..plain_style() }.spec_add_modifier(BOLD),
        selection: selection_style(t),
    }
}

/// The selection always stands out: reverse video in terminal-colors mode,
/// a background color otherwise, and a selected row is never dimmed,
/// whatever style the row had before the selection was laid on it.
pub proof fn law_selection_stands_out(t: ThemeConfig, row: Style)
    ensures
        t.terminal_colors ==> spec_theme(t).selection.add_modifier & REVERSED == REVERSED,
        !t.terminal_colors ==> spec_theme(t).selection.bg is Some,
        row.spec_patch(spec_theme(t).selection).add_modifier & DIM == 0,
        row.spec_patch(spec_theme(t).selection).sub_modifier & DIM == DIM,
{
    let sel = spec_theme(t).selection;
    let a = sel.add_modifier;
    let b = sel.sub_modifier;
    assert((0u16 & !2u16) == 0u16 && (0u16 | 2u16) == 2u16) by (bit_vector);
    assert((2u16 & !0x40u16) == 2u16 && (0u16 | 0x40u16) == 0x40u16 && (0x40u16 & 0x40u16) == 0x40u16) by (bit_vector);
    assert(a == 0 || a == 0x40);
    assert(b == 2);
    let ra = row.add_modifier;
    let rs = row.sub_modifier;
    assert(((ra & !b) | a) & 2u16 == 0u16) by (bit_vector)
        requires
            a == 0u16 || a == 0x40u16,
            b == 2u16,
    ;
    assert(((rs & !a) | b) & 2u16 == 2u16) by (bit_vector)
        requires
            b == 2u16,
    ;
}

fn resolve_color(value: &Option<String>) -> (res: Option<Color>)
    ensures
        res == resolved(*value),
{
    match value {
        Some(v) => parse_color(v.as_str()),
        None => None,
    }
}

fn style_with(modifier: u16, fg_raw: &Option<String>) -> (res: Style)
    ensures
        res == styled_with(modifier, resolved(*fg_raw)),
{
    let mut style = Style::new();
    if modifier != 0 {
        style = style.add_modifier(modifier);
    }
    if let Some(fg) = resolve_color(fg_raw) {
        style = style.fg(fg);
    }
    style
}

/// The warning printed for a setting that names no color.
pub open spec fn color_warning(field: Seq<char>, value: Option<String>) -> Seq<Seq<char>> {
    match value {
        Some(raw) => if spec_parse_color(raw@) is None {
            seq!["geltui: unrecognized "@ + field + " `"@ + raw@ + "`, using default"@]
        } else {
            seq![]
        },
        None => seq![],
    }
}

/// The warnings for all settings that are read, in the order they are read.
pub open spec fn theme_warnings(t: ThemeConfig) -> Seq<Seq<char>> {
    color_warning("theme.accent"@, t.accent)
        + (if t.terminal_colors { seq![] } else { color_warning("theme.selection_bg"@, t.selection_bg) })
        + color_warning("theme.selection_fg"@, t.selection_fg)
        + color_warning("theme.muted_fg"@, t.muted_fg)
        + color_warning("theme.title_fg"@, t.title_fg)
        + color_warning("theme.hint_fg"@, t.hint_fg)
        + color_warning("theme.description_fg"@, t.description_fg)
        + color_warning("theme.breadcrumb_current_fg"@, t.breadcrumb_current_fg)
}

/// The views of a list of strings.
pub open spec fn string_views(v: Seq<String>) -> Seq<Seq<char>> {
    v.map_values(|s: String| s@)
}

fn push_warning(out: &mut Vec<String>, field: &str, value: &Option<String>)
    ensures
        string_views(final(out)@) == string_views(old(out)@) + color_warning(field@, *value),
{
    let ghost before = string_views(out@);
    match value {
        Some(raw) => {
            if parse_color(raw.as_str()).is_none() {
                let mut msg = concat3("geltui: unrecognized ", field, " `");
                append(&mut msg, raw.as_str());
                append(&mut msg, "`, using default");
                out.push(msg);
                assert(string_views(out@) =~= before + color_warning(field@, *value));
            } else {
                assert(string_views(out@) =~= before + color_warning(field@, *value));
            }
        },
        None => {
            assert(string_views(out@) =~= before + color_warning(field@, *value));
        },
    }
}

impl Theme {
    /// Resolves the theme once, from the `[theme]` settings. A setting that
    /// names no color falls back to the role's default.
    pub fn from_config(config: &Config) -> (res: Theme)
        ensures
            res == spec_theme(config.theme),
    {
        let theme = &config.theme;
        let accent = match resolve_color(&theme.accent) {
            Some(c) => c,
            None => Color::Cyan,
        };
        let mut selection = Style::new().remove_modifier(DIM);
        if theme.terminal_colors {
            selection = selection.add_modifier(REVERSED);
        } else if let Some(bg) = resolve_color(&theme.selection_bg) {
            selection = selection.bg(bg);
        } else {
            selection = selection.bg(Color::Indexed(237));
        }
        if let Some(fg) = resolve_color(&theme.selection_fg) {
            selection = selection.fg(fg);
        }
        let muted = style_with(DIM, &theme.muted_fg);
        let title = style_with(BOLD, &theme.title_fg);
        let hint = style_with(DIM, &theme.hint_fg);
        let description = style_with(0, &theme.description_fg);
        let crumb = match resolve_color(&theme.breadcrumb_current_fg) {
            Some(c) => c,
            None => accent,
        };
        let breadcrumb_current = Style::new().fg(crumb).add_modifier(BOLD);
        Theme { muted, title, hint, description, breadcrumb_current, selection }
    }

    /// The warnings about settings that name no color, in the order the
    /// settings are read.
    pub fn warnings(config: &Config) -> (res: Vec<String>)
        ensures
            string_views(res@) == theme_warnings(config.theme),
    {
        let t = &config.theme;
        let mut out: Vec<String> = Vec::new();
        assert(string_views(out@) =~= Seq::<Seq<char>>::empty());
        push_warning(&mut out, "theme.accent", &t.accent);
        if !t.terminal_colors {
            push_warning(&mut out, "theme.selection_bg", &t.selection_bg);
        }
        push_warning(&mut out, "theme.selection_fg", &t.selection_fg);
        push_warning(&mut out, "theme.muted_fg", &t.muted_fg);
        push_warning(&mut out, "theme.title_fg", &t.title_fg);
        push_warning(&mut out, "theme.hint_fg", &t.hint_fg);
        push_warning(&mut out, "theme.description_fg", &t.description_fg);
        push_warning(&mut out, "theme.breadcrumb_current_fg", &t.breadcrumb_current_fg);
        proof {
            assert(string_views(out@) =~= theme_warnings(config.theme));
        }
        out
    }
}

} // verus!
