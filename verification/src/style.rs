//! Terminal colors and text styles.
//!
//! These mirror the color and style values of the terminal UI toolkit as
//! plain data, so that the rules which pick them can be verified. The UI
//! converts them one for one when it draws.

use vstd::prelude::*;

verus! {

/// A terminal color.
#[derive(Debug, Clone, Copy, PartialEq, Eq, Structural)]
pub enum Color {
    Reset,
    Black,
    Red,
    Green,
    Yellow,
    Blue,
    Magenta,
    Cyan,
    Gray,
    DarkGray,
    LightRed,
    LightGreen,
    LightYellow,
    LightBlue,
    LightMagenta,
    LightCyan,
    White,
    Rgb(u8, u8, u8),
    Indexed(u8),
}

/// Text modifier bits, one per emphasis.
pub const BOLD: u16 = 0x1;
pub const DIM: u16 = 0x2;
pub const ITALIC: u16 = 0x4;
pub const UNDERLINED: u16 = 0x8;
pub const SLOW_BLINK: u16 = 0x10;
pub const RAPID_BLINK: u16 = 0x20;
pub const REVERSED: u16 = 0x40;
pub const HIDDEN: u16 = 0x80;
pub const CROSSED_OUT: u16 = 0x100;

/// A text style: optional colors, modifiers to switch on and modifiers to
/// switch off.
#[derive(Debug, Clone, Copy, PartialEq, Eq, Structural)]
pub struct Style {
    pub fg: Option<Color>,
    pub bg: Option<Color>,
    pub add_modifier: u16,
    pub sub_modifier: u16,
}

/// The style that changes nothing.
pub open spec fn plain_style() -> Style {
    Style { fg: None, bg: None, add_modifier: 0, sub_modifier: 0 }
}

/// `o` if it holds a color, else `fallback`.
pub open spec fn or_color(o: Option<Color>, fallback: Option<Color>) -> Option<Color> {
    match o {
        Some(c) => Some(c),
        None => fallback,
    }
}

impl Style {
    /// The style that changes nothing.
    pub fn new() -> (res: Style)
        ensures
            res == plain_style(),
    {
        Style { fg: None, bg: None, add_modifier: 0, sub_modifier: 0 }
    }

    /// This style with foreground `color`.
    pub fn fg(self, color: Color) -> (res: Style)
        ensures
            res == (Style { fg: Some(color), ..self }),
    {
        Style { fg: Some(color), ..self }
    }

    /// This style with background `color`.
    pub fn bg(self, color: Color) -> (res: Style)
        ensures
            res == (Style { bg: Some(color), ..self }),
    {
        Style { bg: Some(color), ..self }
    }

    pub open spec fn spec_add_modifier(self, m: u16) -> Style {
        Style { sub_modifier: self.sub_modifier & !m, add_modifier: self.add_modifier | m, ..self }
    }

    /// This style with the modifiers `m` switched on.
    pub fn add_modifier(self, m: u16) -> (res: Style)
        ensures
            res == self.spec_add_modifier(m),
    {
        Style { sub_modifier: self.sub_modifier & !m, add_modifier: self.add_modifier | m, ..self }
    }

    pub open spec fn spec_remove_modifier(self, m: u16) -> Style {
        Style { add_modifier: self.add_modifier & !m, sub_modifier: self.sub_modifier | m, ..self }
    }

    /// This style with the modifiers `m` switched off.
    pub fn remove_modifier(self, m: u16) -> (res: Style)
        ensures
            res == self.spec_remove_modifier(m),
    {
        Style { add_modifier: self.add_modifier & !m, sub_modifier: self.sub_modifier | m, ..self }
    }

    /// `other` applied on top of this style.
    pub open spec fn spec_patch(self, other: Style) -> Style {
        Style {
            fg: or_color(other.fg, self.fg),
            bg: or_color(other.bg, self.bg),
            add_modifier: (self.add_modifier & !other.sub_modifier) | other.add_modifier,
            sub_modifier: (self.sub_modifier & !other.add_modifier) | other.sub_modifier,
        }
    }

    /// `other` applied on top of this style: its colors win where it has
    /// them, and its modifiers are switched on or off.
    pub fn patch(self, other: Style) -> (res: Style)
        ensures
            res == self.spec_patch(other),
    {
        let fg = match other.fg {
            Some(c) => Some(c),
            None => self.fg,
        };
        let bg = match other.bg {
            Some(c) => Some(c),
            None => self.bg,
        };
        Style {
            fg,
            bg,
            add_modifier: (self.add_modifier & !other.sub_modifier) | other.add_modifier,
            sub_modifier: (self.sub_modifier & !other.add_modifier) | other.sub_modifier,
        }
    }
}

impl Default for Style {
    fn default() -> (res: Style)
        ensures
            res == plain_style(),
    {
        Style::new()
    }
}

/// Patching with the plain style changes nothing.
pub proof fn law_patch_plain_is_identity(s: Style)
    ensures
        s.spec_patch(plain_style()) == s,
{
    let a = s.add_modifier;
    let b = s.sub_modifier;
    assert((a & !0u16) | 0u16 == a) by (bit_vector);
    assert((b & !0u16) | 0u16 == b) by (bit_vector);
}

/// Patching the plain style with `s` gives `s`.
pub proof fn law_plain_patched_is_other(s: Style)
    ensures
        plain_style().spec_patch(s) == s,
{
    let a = s.add_modifier;
    let b = s.sub_modifier;
    assert((0u16 & !b) | a == a) by (bit_vector);
    assert((0u16 & !a) | b == b) by (bit_vector);
}

} // verus!
