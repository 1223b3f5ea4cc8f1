//! Visual style attributes as plain data.
//!
//! A [`Style`] is the resolved appearance of a widget fragment: an optional
//! foreground color, an optional background color, and text modifiers.  The
//! binary maps these one-for-one onto its rendering backend's styles.

use vstd::prelude::*;

use crate::color::Color;

verus! {

/// A text modifier that a style may add.
#[derive(Clone, Copy, Debug, PartialEq, Eq, Structural)]
pub enum Modifier {
    Bold,
    Underlined,
}

/// Resolved style attributes: optional foreground and background colors plus
/// text modifiers.  A field left `None` (or `false`) means "inherit".
#[derive(Clone, Copy, Debug, PartialEq, Eq, Structural)]
pub struct Style {
    pub fg: Option<Color>,
    pub bg: Option<Color>,
    pub bold: bool,
    pub underlined: bool,
}

/// The style that sets nothing: both colors inherited, no modifiers.
pub open spec fn empty_style() -> Style {
    Style { fg: None, bg: None, bold: false, underlined: false }
}

impl Style {
    /// Returns the style with the foreground set to `c`.
    pub fn fg(self, c: Color) -> (r: Style)
        ensures
            r == (Style { fg: Some(c), ..self }),
    {
        Style { fg: Some(c), ..self }
    }

    /// Returns the style with the background set to `c`.
    pub fn bg(self, c: Color) -> (r: Style)
        ensures
            r == (Style { bg: Some(c), ..self }),
    {
        Style { bg: Some(c), ..self }
    }

    /// Returns the style with the given modifier added.
    pub fn add_modifier(self, m: Modifier) -> (r: Style)
        ensures
            m == Modifier::Bold ==> r == (Style { bold: true, ..self }),
            m == Modifier::Underlined ==> r == (Style { underlined: true, ..self }),
    {
        match m {
            Modifier::Bold => Style { bold: true, ..self },
            Modifier::Underlined => Style { underlined: true, ..self },
        }
    }

}

impl Default for Style {
    /// The default style sets nothing.
    fn default() -> (r: Style)
        ensures
            r == empty_style(),
    {
        Style { fg: None, bg: None, bold: false, underlined: false }
    }
}

} // verus!
