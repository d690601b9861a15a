use geltui::config::{Config, GeneralConfig, MpvConfig, ThemeConfig};
use geltui::style::{Color, Style, BOLD, DIM, REVERSED};
use geltui::theme::{color_from_normalized, parse_color, truncate, Theme};

fn config_with(theme: ThemeConfig) -> Config {
    Config {
        server_url: "http://media.local".to_string(),
        api_key: Some("key".to_string()),
        username: None,
        password: None,
        user_id: None,
        general: GeneralConfig::default(),
        mpv: MpvConfig::default(),
        theme,
    }
}

#[test]
fn truncate_keeps_short_text() {
    assert_eq!(truncate("hello", 5), "hello");
    assert_eq!(truncate("hello", 10), "hello");
}

#[test]
fn truncate_appends_ellipsis() {
    assert_eq!(truncate("hello world", 8), "hello...");
    assert_eq!(truncate("héllo wörld", 7), "héll...");
}

#[test]
fn truncate_small_budgets_are_dots() {
    assert_eq!(truncate("hello", 3), "...");
    assert_eq!(truncate("hello", 2), "..");
    assert_eq!(truncate("hello", 0), "");
}

#[test]
fn parse_color_names() {
    assert_eq!(parse_color("red"), Some(Color::Red));
    assert_eq!(parse_color("bright red"), Some(Color::LightRed));
    assert_eq!(parse_color("  Bright Black "), Some(Color::DarkGray));
    assert_eq!(parse_color("white"), Some(Color::Gray));
    assert_eq!(parse_color("bright white"), Some(Color::White));
    assert_eq!(parse_color("CYAN"), Some(Color::Cyan));
    assert_eq!(parse_color("bright"), None);
    assert_eq!(parse_color("bright  red"), None);
    assert_eq!(parse_color("purple"), None);
    assert_eq!(parse_color(""), None);
}

#[test]
fn parse_color_unicode_lowercase_reaches_ascii_names() {
    // KELVIN SIGN lowercases to an ASCII `k`.
    assert_eq!(parse_color("blac\u{212A}"), Some(Color::Black));
}

#[test]
fn parse_color_hex() {
    assert_eq!(parse_color("#5fafff"), Some(Color::Rgb(0x5f, 0xaf, 0xff)));
    assert_eq!(parse_color("#5FAFFF"), Some(Color::Rgb(0x5f, 0xaf, 0xff)));
    assert_eq!(parse_color("#000000"), Some(Color::Rgb(0, 0, 0)));
    assert_eq!(parse_color("#12345"), None);
    assert_eq!(parse_color("#1234567"), None);
    assert_eq!(parse_color("#12345g"), None);
    // Each pair is two hex digits and nothing else.
    assert_eq!(parse_color("#+f+f+f"), None);
    assert_eq!(parse_color("#é1234"), None);
}

#[test]
fn parse_color_multibyte_text_is_no_color() {
    assert_eq!(parse_color("#\u{20ac}\u{20ac}"), None);
    assert_eq!(parse_color("#a\u{e9}123"), None);
    assert_eq!(parse_color("#ab\u{20ac}1"), None);
    assert_eq!(color_from_normalized("#a\u{e9}1234"), None);
    assert_eq!(color_from_normalized("#5fafff"), Some(Color::Rgb(0x5f, 0xaf, 0xff)));
}

#[test]
fn parse_color_ignores_case() {
    for raw in ["  Bright RED ", "bright red", "BRIGHT red"] {
        assert_eq!(parse_color(raw), Some(Color::LightRed));
        assert_eq!(parse_color(raw), parse_color(&raw.trim().to_lowercase()));
    }
    assert_eq!(parse_color("#AbCdEf"), parse_color("#abcdef"));
}

#[test]
fn theme_defaults() {
    let config = config_with(ThemeConfig::default());
    let (theme, warnings) = (Theme::from_config(&config), Theme::warnings(&config));
    assert!(warnings.is_empty());
    let plain = Style::new();
    assert_eq!(theme.muted, plain.add_modifier(DIM));
    assert_eq!(theme.title, plain.add_modifier(BOLD));
    assert_eq!(theme.hint, plain.add_modifier(DIM));
    assert_eq!(theme.description, plain);
    assert_eq!(theme.breadcrumb_current, plain.fg(Color::Cyan).add_modifier(BOLD));
    assert_eq!(theme.selection, plain.remove_modifier(DIM).bg(Color::Indexed(237)));
}

#[test]
fn theme_terminal_colors_and_overrides() {
    let cfg = ThemeConfig {
        accent: Some("magenta".to_string()),
        terminal_colors: true,
        selection_bg: Some("nonsense".to_string()),
        selection_fg: Some("#ff0000".to_string()),
        muted_fg: Some("bright blue".to_string()),
        breadcrumb_current_fg: Some("green".to_string()),
        ..ThemeConfig::default()
    };
    let config = config_with(cfg);
    let (theme, warnings) = (Theme::from_config(&config), Theme::warnings(&config));
    // The selection background is not read in terminal-colors mode.
    assert!(warnings.is_empty());
    let plain = Style::new();
    assert_eq!(
        theme.selection,
        plain.remove_modifier(DIM).add_modifier(REVERSED).fg(Color::Rgb(255, 0, 0))
    );
    assert_eq!(theme.muted, plain.add_modifier(DIM).fg(Color::LightBlue));
    assert_eq!(theme.breadcrumb_current, plain.fg(Color::Green).add_modifier(BOLD));
}

#[test]
fn theme_accent_feeds_breadcrumb_and_warns() {
    let cfg = ThemeConfig {
        accent: Some("not-a-color".to_string()),
        selection_bg: Some("blue".to_string()),
        title_fg: Some("#12".to_string()),
        ..ThemeConfig::default()
    };
    let config = config_with(cfg);
    let (theme, warnings) = (Theme::from_config(&config), Theme::warnings(&config));
    assert_eq!(
        warnings,
        vec![
            "geltui: unrecognized theme.accent `not-a-color`, using default".to_string(),
            "geltui: unrecognized theme.title_fg `#12`, using default".to_string(),
        ]
    );
    assert_eq!(theme.breadcrumb_current.fg, Some(Color::Cyan));
    assert_eq!(theme.selection.bg, Some(Color::Blue));
    assert_eq!(theme.title, Style::new().add_modifier(BOLD));
}

#[test]
fn theme_falls_back_on_multibyte_color_text() {
    let cfg = ThemeConfig {
        accent: Some("#\u{20ac}\u{20ac}".to_string()),
        hint_fg: Some("#a\u{e9}123".to_string()),
        ..ThemeConfig::default()
    };
    let config = config_with(cfg);
    let theme = Theme::from_config(&config);
    assert_eq!(theme.breadcrumb_current.fg, Some(Color::Cyan));
    assert_eq!(theme.hint, Style::new().add_modifier(DIM));
    assert_eq!(
        Theme::warnings(&config),
        vec![
            "geltui: unrecognized theme.accent `#\u{20ac}\u{20ac}`, using default".to_string(),
            "geltui: unrecognized theme.hint_fg `#a\u{e9}123`, using default".to_string(),
        ]
    );
}

#[test]
fn style_patch_keeps_and_overrides() {
    let base = Style::new().fg(Color::Red).add_modifier(DIM);
    let top = Style::new().bg(Color::Blue).remove_modifier(DIM).add_modifier(BOLD);
    let p = base.patch(top);
    assert_eq!(p.fg, Some(Color::Red));
    assert_eq!(p.bg, Some(Color::Blue));
    assert_eq!(p.add_modifier, BOLD);
    assert_eq!(p.sub_modifier, DIM);
    assert_eq!(base.patch(Style::new()), base);
}

#[test]
fn parse_color_ignores_surrounding_space() {
    for raw in ["\t#00ff7f \n", "  bright blue", "magenta\u{3000}", " nope "] {
        assert_eq!(parse_color(raw), parse_color(raw.trim()));
    }
    assert_eq!(parse_color("\t#00ff7f \n"), Some(Color::Rgb(0x00, 0xff, 0x7f)));
}

#[test]
fn selection_stands_out_and_undims() {
    for terminal_colors in [false, true] {
        let th = Theme::from_config(&config_with(ThemeConfig {
            terminal_colors,
            muted_fg: Some("gray".to_string()),
            ..ThemeConfig::default()
        }));
        let selected_muted = th.muted.patch(th.selection);
        assert_eq!(selected_muted.add_modifier & DIM, 0);
        assert_eq!(selected_muted.sub_modifier & DIM, DIM);
        if terminal_colors {
            assert_eq!(th.selection.add_modifier & REVERSED, REVERSED);
        } else {
            assert_eq!(th.selection.bg, Some(Color::Indexed(237)));
        }
    }
}
