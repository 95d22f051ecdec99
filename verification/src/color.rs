//! Board colors, and their fallback to the 256-color palette on terminals
//! without true color.

use vstd::prelude::*;

verus! {

/// A terminal color as the board renderer uses it.
#[derive(Debug, Clone, Copy, PartialEq, Eq, Structural)]
pub enum TermColor {
    /// A 24-bit color.
    Rgb(u8, u8, u8),
    /// An entry of the 256-color palette.
    Indexed(u8),
    /// Any other named terminal color, by its number.
    Named(u8),
}

/// Palette index of the nearest entry for an RGB color: grays map onto the
/// gray ramp (16 for near-black, 231 for near-white, 232.. in between), other
/// colors onto the 6x6x6 color cube, each channel rounded to a level 0..=5.
pub open spec fn ansi256_of(r: int, g: int, b: int) -> int {
    if r == g && g == b {
        if r < 8 {
            16
        } else if r > 248 {
            231
        } else {
            232 + (r - 8) / 10
        }
    } else {
        16 + 36 * ((r * 5 + 127) / 255) + 6 * ((g * 5 + 127) / 255) + (b * 5 + 127) / 255
    }
}

/// The conversion overflows a byte for the gray (248, 248, 248), whose gray
/// ramp entry would be 256; every other color has an index.
pub open spec fn ansi256_defined(r: int, g: int, b: int) -> bool {
    !(r == g && g == b && r == 248)
}

/// The 6x6x6 cube level (0..=5) of a channel value.
fn cube_level(x: u8) -> (r: u8)
    ensures
        r == (x * 5 + 127) / 255,
        r <= 5,
{
    let v: u16 = x as u16 * 5 + 127;
    assert(v / 255 <= 5) by (nonlinear_arith)
        requires v <= 255 * 5 + 127;
    (v / 255) as u8
}

/// The 256-color palette index nearest to an RGB color.
pub fn nearest_ansi256(r: u8, g: u8, b: u8) -> (idx: u8)
    requires
        ansi256_defined(r as int, g as int, b as int),
    ensures
        idx == ansi256_of(r as int, g as int, b as int),
{
    if r == g && g == b {
        if r < 8 {
            return 16;
        }
        if r > 248 {
            return 231;
        }
        return 232 + (r - 8) / 10;
    }
    let r6 = cube_level(r);
    let g6 = cube_level(g);
    let b6 = cube_level(b);
    16 + 36 * r6 + 6 * g6 + b6
}

/// The color to draw with: unchanged on a true-color terminal, otherwise an
/// RGB color becomes its nearest palette entry.
pub fn adapt_color(has_true_color: bool, color: TermColor) -> (r: TermColor)
    requires
        color matches TermColor::Rgb(red, green, blue) ==> has_true_color || ansi256_defined(
            red as int,
            green as int,
            blue as int,
        ),
    ensures
        r == (if has_true_color {
            color
        } else {
            match color {
                TermColor::Rgb(red, green, blue) => TermColor::Indexed(
                    ansi256_of(red as int, green as int, blue as int) as u8,
                ),
                other => other,
            }
        }),
{
    if has_true_color {
        return color;
    }
    match color {
        TermColor::Rgb(red, green, blue) => TermColor::Indexed(nearest_ansi256(red, green, blue)),
        other => other,
    }
}

/// Light square / piece color used throughout the board renderer.
pub fn white() -> (r: TermColor)
    ensures
        r == TermColor::Rgb(160, 160, 160),
{
    TermColor::Rgb(160, 160, 160)
}

/// Dark square / piece color used throughout the board renderer.
pub fn black() -> (r: TermColor)
    ensures
        r == TermColor::Rgb(128, 95, 69),
{
    TermColor::Rgb(128, 95, 69)
}

/// Light board square color, adapted to the terminal.
pub fn board_white(has_true_color: bool) -> (r: TermColor)
    ensures
        r == (if has_true_color {
            TermColor::Rgb(160, 160, 160)
        } else {
            TermColor::Indexed(ansi256_of(160, 160, 160) as u8)
        }),
{
    adapt_color(has_true_color, white())
}

/// Dark board square color, adapted to the terminal.
pub fn board_black(has_true_color: bool) -> (r: TermColor)
    ensures
        r == (if has_true_color {
            TermColor::Rgb(128, 95, 69)
        } else {
            TermColor::Indexed(ansi256_of(128, 95, 69) as u8)
        }),
{
    adapt_color(has_true_color, black())
}

/// Every palette index the conversion produces is a color-cube or gray-ramp
/// entry, never one of the 16 system colors.
pub proof fn lemma_ansi256_range(r: u8, g: u8, b: u8)
    requires
        ansi256_defined(r as int, g as int, b as int),
    ensures
        16 <= ansi256_of(r as int, g as int, b as int) <= 255,
{
    let (ri, gi, bi) = (r as int, g as int, b as int);
    assert(0 <= (ri * 5 + 127) / 255 <= 5) by (nonlinear_arith) requires 0 <= ri <= 255;
    assert(0 <= (gi * 5 + 127) / 255 <= 5) by (nonlinear_arith) requires 0 <= gi <= 255;
    assert(0 <= (bi * 5 + 127) / 255 <= 5) by (nonlinear_arith) requires 0 <= bi <= 255;
}

} // verus!
