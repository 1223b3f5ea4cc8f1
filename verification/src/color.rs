//! Terminal colors as plain data.
//!
//! The library's own closed enumeration of terminal colors; the binary maps
//! these one-for-one onto the colors of its rendering backend.

use vstd::prelude::*;

use crate::patching::{opt_apply, opt_diff};

verus! {

/// A terminal color.  `Reset` stands for the terminal's own default.
#[derive(Clone, Copy, Debug, PartialEq, Eq, Structural)]
pub enum Color {
    Reset,
    Black,
    Red,
    Green,
    Yellow,
    Blue,
    Magenta,
    Cyan,
    Gray,
    DarkGray,
    LightRed,
    LightGreen,
    LightYellow,
    LightBlue,
    LightMagenta,
    LightCyan,
    White,
    Rgb(u8, u8, u8),
    Indexed(u8),
}

/// Diff of one color field.
pub fn diff_color(v: Color, base: Color) -> (r: Option<Color>)
    ensures
        r == opt_diff(v, base),
{
    if v == base {
        None
    } else {
        Some(v)
    }
}

/// Application of one color field.
pub fn apply_color(base: Color, p: Option<Color>) -> (r: Color)
    ensures
        r == opt_apply(base, p),
{
    match p {
        Some(v) => v,
        None => base,
    }
}

} // verus!
