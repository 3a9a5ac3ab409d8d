//! Status-code colorization. The color for a status code is chosen by its
//! class (leading digit); the ANSI escape sequences themselves come from
//! termion, behind trusted wrappers whose contracts state the exact
//! escape text that termion's constants hold.

use vstd::prelude::*;
use vstd::string::StringExecFns;
use crate::numfmt::dec_seq;
use crate::numfmt::u16_to_dec;

verus! {

/// The closed set of semantic colors the renderer uses. `Plain` means no
/// escape sequence is applied at all.
#[derive(Clone, Copy, PartialEq, Eq, Structural, Debug)]
pub enum SemanticColor {
    Green,
    Blue,
    Yellow,
    Red,
    Plain,
}

/// The color for a status code, by its class: 2xx green, 3xx blue,
/// 4xx yellow, 5xx red, anything else uncolored.
pub open spec fn status_color(code: u16) -> SemanticColor {
    let class = code / 100;
    if class == 2 {
        SemanticColor::Green
    } else if class == 3 {
        SemanticColor::Blue
    } else if class == 4 {
        SemanticColor::Yellow
    } else if class == 5 {
        SemanticColor::Red
    } else {
        SemanticColor::Plain
    }
}

/// The ANSI foreground escape sequence for a color; empty for `Plain`.
pub open spec fn fg_seq(c: SemanticColor) -> Seq<char> {
    match c {
        SemanticColor::Green => "\u{1b}[38;5;2m"@,
        SemanticColor::Blue => "\u{1b}[38;5;4m"@,
        SemanticColor::Yellow => "\u{1b}[38;5;3m"@,
        SemanticColor::Red => "\u{1b}[38;5;1m"@,
        SemanticColor::Plain => Seq::<char>::empty(),
    }
}

/// The ANSI escape sequence that resets the foreground color.
pub open spec fn reset_seq() -> Seq<char> {
    "\u{1b}[39m"@
}

/// Relies on termion::color::Green::fg_str, whose value is the constant
/// `csi!("38;5;", "2", "m")`.
#[verifier::external_body]
fn green_fg() -> (r: &'static str)
    ensures
        r@ == fg_seq(SemanticColor::Green),
{
    termion::color::Green.fg_str()
}

/// Relies on termion::color::Blue::fg_str, whose value is the constant
/// `csi!("38;5;", "4", "m")`.
#[verifier::external_body]
fn blue_fg() -> (r: &'static str)
    ensures
        r@ == fg_seq(SemanticColor::Blue),
{
    termion::color::Blue.fg_str()
}

/// Relies on termion::color::Yellow::fg_str, whose value is the constant
/// `csi!("38;5;", "3", "m")`.
#[verifier::external_body]
fn yellow_fg() -> (r: &'static str)
    ensures
        r@ == fg_seq(SemanticColor::Yellow),
{
    termion::color::Yellow.fg_str()
}

/// Relies on termion::color::Red::fg_str, whose value is the constant
/// `csi!("38;5;", "1", "m")`.
#[verifier::external_body]
fn red_fg() -> (r: &'static str)
    ensures
        r@ == fg_seq(SemanticColor::Red),
{
    termion::color::Red.fg_str()
}

/// Relies on termion::color::Reset::fg_str, whose value is the constant
/// `csi!("39m")`.
#[verifier::external_body]
fn reset_fg() -> (r: &'static str)
    ensures
        r@ == reset_seq(),
{
    termion::color::Reset.fg_str()
}

/// The foreground escape for a color as an owned string; empty for `Plain`.
pub fn fg_escape(c: SemanticColor) -> (r: String)
    ensures
        r@ == fg_seq(c),
{
    match c {
        SemanticColor::Green => String::from_str(green_fg()),
        SemanticColor::Blue => String::from_str(blue_fg()),
        SemanticColor::Yellow => String::from_str(yellow_fg()),
        SemanticColor::Red => String::from_str(red_fg()),
        SemanticColor::Plain => {
            let r = String::new();
            proof {
                assert(r@ =~= fg_seq(SemanticColor::Plain));
            }
            r
        },
    }
}

/// The escape that resets the foreground color, as an owned string.
pub fn reset_escape() -> (r: String)
    ensures
        r@ == reset_seq(),
{
    String::from_str(reset_fg())
}

/// A status code rendered in decimal and wrapped in its class color:
/// escape, digits, reset — or the bare digits for an uncolored class.
pub open spec fn colorized_status(code: u16) -> Seq<char> {
    if status_color(code) == SemanticColor::Plain {
        dec_seq(code as nat)
    } else {
        fg_seq(status_color(code)) + dec_seq(code as nat) + reset_seq()
    }
}

/// Renders a status code with its class color.
pub fn colorize_status_code(status_code: u16) -> (r: String)
    ensures
        r@ == colorized_status(status_code),
{
    let class: u16 = status_code / 100;
    let colored: bool = 2 <= class && class <= 5;
    let mut s = fg_escape(status_color_of(status_code));
    let digits = u16_to_dec(status_code);
    s.append(digits.as_str());
    if colored {
        s.append(reset_fg());
    }
    proof {
        assert(s@ =~= colorized_status(status_code));
    }
    s
}

/// The class color of a status code, as executable code.
pub fn status_color_of(code: u16) -> (c: SemanticColor)
    ensures
        c == status_color(code),
{
    let class: u16 = code / 100;
    if class == 2 {
        SemanticColor::Green
    } else if class == 3 {
        SemanticColor::Blue
    } else if class == 4 {
        SemanticColor::Yellow
    } else if class == 5 {
        SemanticColor::Red
    } else {
        SemanticColor::Plain
    }
}

} // verus!
