//! The colours of the user interface, read from a TOML document.

use crate::toml_document::{entry, get, parse_document, parsed_document, toml_of, Toml};
use vstd::prelude::*;

verus! {

/// A colour by its red, green and blue parts.
#[derive(Debug, Clone, Copy, PartialEq, Eq, Structural)]
pub struct Rgb {
    pub r: u8,
    pub g: u8,
    pub b: u8,
}

/// The colours of the user interface.
#[derive(Debug, Clone, Copy, PartialEq, Eq, Structural)]
pub struct Theme {
    pub left_top_bg: Rgb,
    pub chat_bg: Rgb,
    pub right_bg: Rgb,
    pub input_bg: Rgb,
    pub status_bg: Rgb,
    pub text_fg: Rgb,
    pub muted_fg: Rgb,
    pub active_fg: Rgb,
}

/// The colours used where no theme is given.
pub open spec fn default_theme() -> Theme {
    Theme {
        left_top_bg: Rgb { r: 44, g: 44, b: 44 },
        chat_bg: Rgb { r: 54, g: 54, b: 54 },
        right_bg: Rgb { r: 48, g: 48, b: 48 },
        input_bg: Rgb { r: 62, g: 62, b: 62 },
        status_bg: Rgb { r: 36, g: 36, b: 36 },
        text_fg: Rgb { r: 225, g: 225, b: 225 },
        muted_fg: Rgb { r: 185, g: 185, b: 185 },
        active_fg: Rgb { r: 255, g: 255, b: 255 },
    }
}

impl Default for Theme {
    /// Shades of grey, with white for what is active.
    fn default() -> (theme: Self)
        ensures
            theme == default_theme(),
    {
        Theme {
            left_top_bg: Rgb { r: 44, g: 44, b: 44 },
            chat_bg: Rgb { r: 54, g: 54, b: 54 },
            right_bg: Rgb { r: 48, g: 48, b: 48 },
            input_bg: Rgb { r: 62, g: 62, b: 62 },
            status_bg: Rgb { r: 36, g: 36, b: 36 },
            text_fg: Rgb { r: 225, g: 225, b: 225 },
            muted_fg: Rgb { r: 185, g: 185, b: 185 },
            active_fg: Rgb { r: 255, g: 255, b: 255 },
        }
    }
}

/// Why a theme text was not accepted.
#[derive(Debug)]
pub enum ThemeError {
    /// The text is not a TOML document.
    Syntax(toml::de::Error),
    /// The text is a TOML document, but a colour is missing from its table
    /// `colors`, or is no table of three integers `r`, `g`, `b` from 0 to 255.
    Shape,
}

/// The colour part that a table states under `key`: an integer from 0 to 255.
pub open spec fn document_part(table: Toml, key: Seq<char>) -> Option<u8> {
    match entry(table, key) {
        Some(Toml::Integer(n)) => if 0 <= n <= 255 {
            Some(n as u8)
        } else {
            None
        },
        _ => None,
    }
}

/// The colour that a table states under `key`: a table with the parts `r`,
/// `g` and `b`.
pub open spec fn document_color(table: Toml, key: Seq<char>) -> Option<Rgb> {
    match entry(table, key) {
        Some(color) => if color is Table {
            match (
                document_part(color, "r"@),
                document_part(color, "g"@),
                document_part(color, "b"@),
            ) {
                (Some(r), Some(g), Some(b)) => Some(Rgb { r, g, b }),
                _ => None,
            }
        } else {
            None
        },
        None => None,
    }
}

/// The theme that the table `colors` states. None where one of its
/// colours is none.
pub open spec fn document_colors(colors: Toml) -> Option<Theme> {
    if document_color(colors, "left_top_bg"@) is Some
        && document_color(colors, "chat_bg"@) is Some
        && document_color(colors, "right_bg"@) is Some
        && document_color(colors, "input_bg"@) is Some
        && document_color(colors, "status_bg"@) is Some
        && document_color(colors, "text_fg"@) is Some
        && document_color(colors, "muted_fg"@) is Some
        && document_color(colors, "active_fg"@) is Some {
        Some(
            Theme {
                left_top_bg: document_color(colors, "left_top_bg"@)->0,
                chat_bg: document_color(colors, "chat_bg"@)->0,
                right_bg: document_color(colors, "right_bg"@)->0,
                input_bg: document_color(colors, "input_bg"@)->0,
                status_bg: document_color(colors, "status_bg"@)->0,
                text_fg: document_color(colors, "text_fg"@)->0,
                muted_fg: document_color(colors, "muted_fg"@)->0,
                active_fg: document_color(colors, "active_fg"@)->0,
            },
        )
    } else {
        None
    }
}

/// The theme that a document states in its table `colors`.
pub open spec fn document_theme(document: Toml) -> Option<Theme> {
    match entry(document, "colors"@) {
        Some(colors) => if colors is Table {
            document_colors(colors)
        } else {
            None
        },
        None => None,
    }
}

/// The theme that a text states. None where the text is no TOML document
/// or the document states none.
pub open spec fn text_theme(text: Seq<char>) -> Option<Theme> {
    match parsed_document(text) {
        Some(document) => document_theme(document),
        None => None,
    }
}

fn read_part(table: &toml::Value, key: &str) -> (part: Option<u8>)
    ensures
        part == document_part(toml_of(*table), key@),
{
    match get(table, key) {
        Some(value) => match value.as_integer() {
            Some(n) => {
                if 0 <= n && n <= 255 {
                    Some(n as u8)
                } else {
                    None
                }
            },
            None => None,
        },
        None => None,
    }
}

fn read_color(table: &toml::Value, key: &str) -> (color: Option<Rgb>)
    ensures
        color == document_color(toml_of(*table), key@),
{
    match get(table, key) {
        Some(color) => {
            if !color.is_table() {
                return None;
            }
            let r = match read_part(color, "r") {
                Some(part) => part,
                None => {
                    return None;
                },
            };
            let g = match read_part(color, "g") {
                Some(part) => part,
                None => {
                    return None;
                },
            };
            let b = match read_part(color, "b") {
                Some(part) => part,
                None => {
                    return None;
                },
            };
            Some(Rgb { r, g, b })
        },
        None => None,
    }
}

fn read_colors(colors: &toml::Value) -> (theme: Option<Theme>)
    ensures
        theme == document_colors(toml_of(*colors)),
{
    let left_top_bg = match read_color(colors, "left_top_bg") {
        Some(color) => color,
        None => {
            return None;
        },
    };
    let chat_bg = match read_color(colors, "chat_bg") {
        Some(color) => color,
        None => {
            return None;
        },
    };
    let right_bg = match read_color(colors, "right_bg") {
        Some(color) => color,
        None => {
            return None;
        },
    };
    let input_bg = match read_color(colors, "input_bg") {
        Some(color) => color,
        None => {
            return None;
        },
    };
    let status_bg = match read_color(colors, "status_bg") {
        Some(color) => color,
        None => {
            return None;
        },
    };
    let text_fg = match read_color(colors, "text_fg") {
        Some(color) => color,
        None => {
            return None;
        },
    };
    let muted_fg = match read_color(colors, "muted_fg") {
        Some(color) => color,
        None => {
            return None;
        },
    };
    let active_fg = match read_color(colors, "active_fg") {
        Some(color) => color,
        None => {
            return None;
        },
    };
    Some(
        Theme {
            left_top_bg,
            chat_bg,
            right_bg,
            input_bg,
            status_bg,
            text_fg,
            muted_fg,
            active_fg,
        },
    )
}

impl Theme {
    /// Reads a theme from a TOML text.
    ///
    /// The text has to be a TOML document with a table `colors` that
    /// states each of the eight colours as a table of the integers `r`,
    /// `g` and `b`, each from 0 to 255. Whatever else the document holds
    /// is passed over.
    pub fn from_toml_str(s: &str) -> (theme: Result<Self, ThemeError>)
        ensures
            match theme {
                Ok(t) => text_theme(s@) == Some(t),
                Err(ThemeError::Syntax(_)) => parsed_document(s@) is None,
                Err(ThemeError::Shape) => parsed_document(s@) is Some && text_theme(s@) is None,
            },
    {
        let document = match parse_document(s) {
            Ok(document) => document,
            Err(error) => {
                return Err(ThemeError::Syntax(error));
            },
        };
        let theme = match get(&document, "colors") {
            Some(colors) => {
                if colors.is_table() {
                    read_colors(colors)
                } else {
                    None
                }
            },
            None => None,
        };
        match theme {
            Some(theme) => Ok(theme),
            None => Err(ThemeError::Shape),
        }
    }

    /// The theme to use after an attempt to read one: the theme that was
    /// read, and the default theme where none was.
    pub fn or_default(read: Result<Self, ThemeError>) -> (theme: Self)
        ensures
            theme == match read {
                Ok(t) => t,
                Err(_) => default_theme(),
            },
    {
        match read {
            Ok(theme) => theme,
            Err(_) => Theme::default(),
        }
    }

    /// The theme of a theme file of which `contents` could be read: the
    /// theme that the contents state, and the default theme where the
    /// file could not be read or states none.
    pub fn load_or_default(contents: Option<&str>) -> (theme: Self)
        ensures
            theme == match contents {
                Some(text) => match text_theme(text@) {
                    Some(t) => t,
                    None => default_theme(),
                },
                None => default_theme(),
            },
    {
        match contents {
            Some(text) => Self::or_default(Self::from_toml_str(text)),
            None => Theme::default(),
        }
    }
}

} // verus!
