//! Theme colors: the color model the renderer consumes, and the parsing of
//! configured color text — `#rrggbb` hex triplets or a fixed set of
//! case-insensitive color names — with a per-field default.
//!
//! Finding, reading and watching the configuration file is the outside
//! collaborator's concern; it hands the raw text in as a `ThemeConfig`.

use vstd::prelude::*;

verus! {

/// A color as the renderer understands it.
#[derive(Debug, Clone, Copy, PartialEq, Eq, Structural)]
pub enum ThemeColor {
    Reset,
    Black,
    Red,
    Green,
    Yellow,
    Blue,
    Magenta,
    Cyan,
    White,
    DarkGray,
    Rgb(u8, u8, u8),
}

/// The raw theme configuration: each color field as the text that was
/// configured for it.
#[derive(Debug, Clone)]
pub struct ThemeConfig {
    pub fg: String,
    pub primary: String,
    pub secondary: String,
    pub selection_bg: String,
    pub border: String,
    pub border_focus: String,
}

/// The resolved theme.
#[derive(Debug, Clone, Copy, PartialEq, Eq, Structural)]
pub struct Theme {
    pub fg: ThemeColor,
    pub primary: ThemeColor,
    pub secondary: ThemeColor,
    pub selection_bg: ThemeColor,
    pub border: ThemeColor,
    pub border_focus: ThemeColor,
}

/// The built-in default theme, used wherever no configuration parses.
pub open spec fn default_theme() -> Theme {
    Theme {
        fg: ThemeColor::Reset,
        primary: ThemeColor::Blue,
        secondary: ThemeColor::Magenta,
        selection_bg: ThemeColor::DarkGray,
        border: ThemeColor::DarkGray,
        border_focus: ThemeColor::Blue,
    }
}

pub open spec fn is_hex_digit(c: char) -> bool {
    ||| '0' as int <= c as int <= '9' as int
    ||| 'a' as int <= c as int <= 'f' as int
    ||| 'A' as int <= c as int <= 'F' as int
}

pub open spec fn hex_val(c: char) -> int {
    if '0' as int <= c as int <= '9' as int {
        c as int - '0' as int
    } else if 'a' as int <= c as int <= 'f' as int {
        c as int - 'a' as int + 10
    } else if 'A' as int <= c as int <= 'F' as int {
        c as int - 'A' as int + 10
    } else {
        0
    }
}

/// The byte written as the two hex digits at positions i and i + 1.
pub open spec fn hex_byte(s: Seq<char>, i: int) -> int {
    hex_val(s[i]) * 16 + hex_val(s[i + 1])
}

/// What `str::to_lowercase` returns for the given characters: Unicode
/// lowercasing, a function of the characters alone.
pub uninterp spec fn lower_of(s: Seq<char>) -> Seq<char>;

/// Relies on `str::to_lowercase`: the result depends on the characters
/// alone; an empty input stays empty.
#[verifier::external_body]
fn to_lowercase_str(s: &str) -> (r: String)
    ensures
        r@ == lower_of(s@),
        s@.len() == 0 ==> r@.len() == 0,
{
    s.to_lowercase()
}

/// What color text parses to: a `#rrggbb` triplet when it is exactly a
/// hash and six hex digits; else one of the fixed color names, compared
/// against the lowercased text; else nothing. A seven-character hash form
/// with a bad digit parses to nothing, it does not fall back to the names.
pub open spec fn parse_color_spec(s: Seq<char>) -> Option<ThemeColor> {
    if s.len() == 7 && s[0] == '#' {
        if is_hex_digit(s[1]) && is_hex_digit(s[2]) && is_hex_digit(s[3]) && is_hex_digit(s[4])
            && is_hex_digit(s[5]) && is_hex_digit(s[6]) {
            Some(
                ThemeColor::Rgb(
                    hex_byte(s, 1) as u8,
                    hex_byte(s, 3) as u8,
                    hex_byte(s, 5) as u8,
                ),
            )
        } else {
            None
        }
    } else if lower_of(s) == "black"@ {
        Some(ThemeColor::Black)
    } else if lower_of(s) == "red"@ {
        Some(ThemeColor::Red)
    } else if lower_of(s) == "green"@ {
        Some(ThemeColor::Green)
    } else if lower_of(s) == "yellow"@ {
        Some(ThemeColor::Yellow)
    } else if lower_of(s) == "blue"@ {
        Some(ThemeColor::Blue)
    } else if lower_of(s) == "magenta"@ {
        Some(ThemeColor::Magenta)
    } else if lower_of(s) == "cyan"@ {
        Some(ThemeColor::Cyan)
    } else if lower_of(s) == "white"@ {
        Some(ThemeColor::White)
    } else if lower_of(s) == "reset"@ {
        Some(ThemeColor::Reset)
    } else {
        None
    }
}

fn hex_digit_val(c: char) -> (r: Option<u32>)
    ensures
        r is Some <==> is_hex_digit(c),
        r matches Some(v) ==> v as int == hex_val(c),
{
    let u = c as u32;
    if u >= '0' as u32 && u <= '9' as u32 {
        Some(u - '0' as u32)
    } else if u >= 'a' as u32 && u <= 'f' as u32 {
        Some(u - 'a' as u32 + 10)
    } else if u >= 'A' as u32 && u <= 'F' as u32 {
        Some(u - 'A' as u32 + 10)
    } else {
        None
    }
}

fn string_eq(a: &String, b: &str) -> (r: bool)
    ensures
        r == (a@ == b@),
{
    let bs = String::from_str(b);
    *a == bs
}

/// Parse color text, exactly as `parse_color_spec` says.
pub fn parse_color(s: &str) -> (r: Option<ThemeColor>)
    ensures
        r == parse_color_spec(s@),
{
    let n = s.unicode_len();
    if n == 7 && s.get_char(0) == '#' {
        let h1 = hex_digit_val(s.get_char(1));
        let h2 = hex_digit_val(s.get_char(2));
        let h3 = hex_digit_val(s.get_char(3));
        let h4 = hex_digit_val(s.get_char(4));
        let h5 = hex_digit_val(s.get_char(5));
        let h6 = hex_digit_val(s.get_char(6));
        match (h1, h2, h3, h4, h5, h6) {
            (Some(a), Some(b), Some(c), Some(d), Some(e), Some(f)) => Some(
                ThemeColor::Rgb(
                    (a * 16 + b) as u8,
                    (c * 16 + d) as u8,
                    (e * 16 + f) as u8,
                ),
            ),
            _ => None,
        }
    } else {
        let lowered = to_lowercase_str(s);
        if string_eq(&lowered, "black") {
            Some(ThemeColor::Black)
        } else if string_eq(&lowered, "red") {
            Some(ThemeColor::Red)
        } else if string_eq(&lowered, "green") {
            Some(ThemeColor::Green)
        } else if string_eq(&lowered, "yellow") {
            Some(ThemeColor::Yellow)
        } else if string_eq(&lowered, "blue") {
            Some(ThemeColor::Blue)
        } else if string_eq(&lowered, "magenta") {
            Some(ThemeColor::Magenta)
        } else if string_eq(&lowered, "cyan") {
            Some(ThemeColor::Cyan)
        } else if string_eq(&lowered, "white") {
            Some(ThemeColor::White)
        } else if string_eq(&lowered, "reset") {
            Some(ThemeColor::Reset)
        } else {
            None
        }
    }
}

/// A configured color, or the field's default where it does not parse.
pub open spec fn color_or(s: Seq<char>, d: ThemeColor) -> ThemeColor {
    match parse_color_spec(s) {
        Some(c) => c,
        None => d,
    }
}

fn parse_color_or(s: &str, d: ThemeColor) -> (r: ThemeColor)
    ensures
        r == color_or(s@, d),
{
    match parse_color(s) {
        Some(c) => c,
        None => d,
    }
}

impl Theme {
    /// The built-in default theme.
    pub fn new() -> (r: Theme)
        ensures
            r == default_theme(),
    {
        Theme {
            fg: ThemeColor::Reset,
            primary: ThemeColor::Blue,
            secondary: ThemeColor::Magenta,
            selection_bg: ThemeColor::DarkGray,
            border: ThemeColor::DarkGray,
            border_focus: ThemeColor::Blue,
        }
    }

    /// Resolve a raw configuration: each field parses on its own, and each
    /// falls back to its own default.
    pub fn from_config(config: &ThemeConfig) -> (t: Theme)
        ensures
            t.fg == color_or(config.fg@, ThemeColor::Reset),
            t.primary == color_or(config.primary@, ThemeColor::Blue),
            t.secondary == color_or(config.secondary@, ThemeColor::Magenta),
            t.selection_bg == color_or(config.selection_bg@, ThemeColor::DarkGray),
            t.border == color_or(config.border@, ThemeColor::DarkGray),
            t.border_focus == color_or(config.border_focus@, ThemeColor::Blue),
    {
        Theme {
            fg: parse_color_or(config.fg.as_str(), ThemeColor::Reset),
            primary: parse_color_or(config.primary.as_str(), ThemeColor::Blue),
            secondary: parse_color_or(config.secondary.as_str(), ThemeColor::Magenta),
            selection_bg: parse_color_or(config.selection_bg.as_str(), ThemeColor::DarkGray),
            border: parse_color_or(config.border.as_str(), ThemeColor::DarkGray),
            border_focus: parse_color_or(config.border_focus.as_str(), ThemeColor::Blue),
        }
    }
}

} // verus!
