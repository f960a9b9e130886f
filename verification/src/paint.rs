//! Colored text, through the `colored` crate.
//!
//! `colored` writes a styled string as `ESC [ codes m`, the text (with the
//! style repeated after each reset sequence inside it), and the reset
//! sequence `ESC [ 0 m`.  The codes are the style (`1` for bold), then the
//! background (`40` for black), then the foreground color, joined by `;`.
//! Whether it styles at all it decides from the environment (`NO_COLOR`,
//! `CLICOLOR`, whether stdout is a terminal, its own override); when it does
//! not, it writes the bare text.  That choice is not a function of the
//! arguments, so the contracts below state both outcomes, each exactly.
use vstd::prelude::*;
use colored::Colorize;
use crate::text::decimal;

verus! {

/// A terminal color: the sixteen named colors and a 24-bit one.
#[derive(Clone, Copy, PartialEq, Eq, Structural, Debug)]
pub enum Color {
    Black,
    Red,
    Green,
    Yellow,
    Blue,
    Magenta,
    Cyan,
    White,
    BrightBlack,
    BrightRed,
    BrightGreen,
    BrightYellow,
    BrightBlue,
    BrightMagenta,
    BrightCyan,
    BrightWhite,
    TrueColor { r: u8, g: u8, b: u8 },
}

/// The escape character that starts a terminal control sequence.
pub open spec fn esc() -> char {
    '\u{1b}'
}

/// The sequence that resets all styles: `ESC [ 0 m`.
pub open spec fn reset_seq() -> Seq<char> {
    seq![esc(), '[', '0', 'm']
}

/// The foreground code of a color: `30`–`37`, `90`–`97`, or `38;2;r;g;b`.
pub open spec fn fg_code(c: Color) -> Seq<char> {
    match c {
        Color::Black => seq!['3', '0'],
        Color::Red => seq!['3', '1'],
        Color::Green => seq!['3', '2'],
        Color::Yellow => seq!['3', '3'],
        Color::Blue => seq!['3', '4'],
        Color::Magenta => seq!['3', '5'],
        Color::Cyan => seq!['3', '6'],
        Color::White => seq!['3', '7'],
        Color::BrightBlack => seq!['9', '0'],
        Color::BrightRed => seq!['9', '1'],
        Color::BrightGreen => seq!['9', '2'],
        Color::BrightYellow => seq!['9', '3'],
        Color::BrightBlue => seq!['9', '4'],
        Color::BrightMagenta => seq!['9', '5'],
        Color::BrightCyan => seq!['9', '6'],
        Color::BrightWhite => seq!['9', '7'],
        Color::TrueColor { r, g, b } => seq!['3', '8', ';', '2', ';'] + decimal(r as nat) + seq![';']
            + decimal(g as nat) + seq![';'] + decimal(b as nat),
    }
}

/// Whether `code` is the foreground code of one of the sixteen named colors.
pub open spec fn named_fg_code(code: Seq<char>) -> bool {
    &&& code.len() == 2
    &&& code[0] == '3' || code[0] == '9'
    &&& '0' <= code[1] <= '7'
}

/// How a text is styled: an optional foreground color, bold, and a black
/// background.
pub struct Look {
    pub color: Option<Color>,
    pub bold: bool,
    pub on_black: bool,
}

/// The text in color `c`.
pub open spec fn fg(c: Color) -> Look {
    Look { color: Some(c), bold: false, on_black: false }
}

/// The text in bold and color `c`.
pub open spec fn fg_bold(c: Color) -> Look {
    Look { color: Some(c), bold: true, on_black: false }
}

/// The text in bold and color `c` on a black background.
pub open spec fn fg_bold_on_black(c: Color) -> Look {
    Look { color: Some(c), bold: true, on_black: true }
}

/// The text in bold, with no color.
pub open spec fn bold_only() -> Look {
    Look { color: None, bold: true, on_black: false }
}

/// The style and background codes of a look: `1`, `40`, or `1;40`.
pub open spec fn attr_codes(bold: bool, on_black: bool) -> Seq<char> {
    if bold && on_black {
        seq!['1', ';', '4', '0']
    } else if bold {
        seq!['1']
    } else if on_black {
        seq!['4', '0']
    } else {
        seq![]
    }
}

/// The attribute codes, then the foreground code, joined by `;`.
pub open spec fn joined(attrs: Seq<char>, fg: Seq<char>) -> Seq<char> {
    if attrs.len() == 0 {
        fg
    } else {
        attrs + seq![';'] + fg
    }
}

/// Whether `codes` is what `colored` writes for `look`.  A 24-bit color
/// is written as `38;2;r;g;b`, or, when the terminal does not announce 24-bit
/// support (`COLORTERM`), as the code of one of the named colors.  A look
/// with no color, bold or background is not styled at all.
pub open spec fn look_codes(look: Look, codes: Seq<char>) -> bool {
    let attrs = attr_codes(look.bold, look.on_black);
    match look.color {
        None => attrs.len() > 0 && codes == attrs,
        Some(c) => match c {
            Color::TrueColor { .. } => codes == joined(attrs, fg_code(c)) || (codes.len() >= 2
                && codes == joined(attrs, codes.skip(codes.len() - 2)) && named_fg_code(
                codes.skip(codes.len() - 2),
            )),
            _ => codes == joined(attrs, fg_code(c)),
        },
    }
}

/// The sequence that starts a style: `ESC [ codes m`.
pub open spec fn style_start(codes: Seq<char>) -> Seq<char> {
    seq![esc(), '['] + codes + seq!['m']
}

/// `s` with `start` put after each reset sequence in it, so that the style
/// goes on after a styled piece nested inside.
pub open spec fn escape_resets(s: Seq<char>, start: Seq<char>) -> Seq<char>
    decreases s.len(),
{
    if s.len() == 0 {
        seq![]
    } else if s.len() >= 4 && s.take(4) == reset_seq() {
        reset_seq() + start + escape_resets(s.skip(4), start)
    } else {
        seq![s[0]] + escape_resets(s.drop_first(), start)
    }
}

/// `input` styled with `codes`.
pub open spec fn styled(codes: Seq<char>, input: Seq<char>) -> Seq<char> {
    style_start(codes) + escape_resets(input, style_start(codes)) + reset_seq()
}

/// Whether `out` is what `colored` writes for `input` in `look`: the bare
/// input when it does not style, the input styled with the look's codes
/// when it does.
pub open spec fn painted(out: Seq<char>, input: Seq<char>, look: Look) -> bool {
    out == input || exists|codes: Seq<char>| #[trigger] look_codes(look, codes) && out == styled(codes, input)
}

/// The color that `colored` gives the name `name` (its `FromStr` for `Color`).
pub open spec fn color_of_name(name: Seq<char>) -> Option<Color> {
    if name == seq!['b', 'l', 'a', 'c', 'k'] {
        Some(Color::Black)
    } else if name == seq!['r', 'e', 'd'] {
        Some(Color::Red)
    } else if name == seq!['g', 'r', 'e', 'e', 'n'] {
        Some(Color::Green)
    } else if name == seq!['y', 'e', 'l', 'l', 'o', 'w'] {
        Some(Color::Yellow)
    } else if name == seq!['b', 'l', 'u', 'e'] {
        Some(Color::Blue)
    } else if name == seq!['m', 'a', 'g', 'e', 'n', 't', 'a'] {
        Some(Color::Magenta)
    } else if name == seq!['c', 'y', 'a', 'n'] {
        Some(Color::Cyan)
    } else if name == seq!['w', 'h', 'i', 't', 'e'] {
        Some(Color::White)
    } else if name == seq!['b', 'r', 'i', 'g', 'h', 't', ' ', 'b', 'l', 'a', 'c', 'k'] {
        Some(Color::BrightBlack)
    } else if name == seq!['b', 'r', 'i', 'g', 'h', 't', ' ', 'r', 'e', 'd'] {
        Some(Color::BrightRed)
    } else if name == seq!['b', 'r', 'i', 'g', 'h', 't', ' ', 'g', 'r', 'e', 'e', 'n'] {
        Some(Color::BrightGreen)
    } else if name == seq!['b', 'r', 'i', 'g', 'h', 't', ' ', 'y', 'e', 'l', 'l', 'o', 'w'] {
        Some(Color::BrightYellow)
    } else if name == seq!['b', 'r', 'i', 'g', 'h', 't', ' ', 'b', 'l', 'u', 'e'] {
        Some(Color::BrightBlue)
    } else if name == seq!['b', 'r', 'i', 'g', 'h', 't', ' ', 'm', 'a', 'g', 'e', 'n', 't', 'a'] {
        Some(Color::BrightMagenta)
    } else if name == seq!['b', 'r', 'i', 'g', 'h', 't', ' ', 'c', 'y', 'a', 'n'] {
        Some(Color::BrightCyan)
    } else if name == seq!['b', 'r', 'i', 'g', 'h', 't', ' ', 'w', 'h', 'i', 't', 'e'] {
        Some(Color::BrightWhite)
    } else {
        None
    }
}

/// `text` in the named color `name` (`Colorize::color` with the name, then
/// `Display`).
#[verifier::external_body]
fn style_named(text: &str, name: &str) -> (r: String)
    requires
        color_of_name(name@) is Some,
    ensures
        painted(r@, text@, fg(color_of_name(name@).unwrap())),
{
    text.color(name).to_string()
}

/// `text` in bold and the named color `name` (`Colorize::color`, then
/// `bold`, then `Display`).
#[verifier::external_body]
fn style_named_bold(text: &str, name: &str) -> (r: String)
    requires
        color_of_name(name@) is Some,
    ensures
        painted(r@, text@, fg_bold(color_of_name(name@).unwrap())),
{
    text.color(name).bold().to_string()
}

/// `text` in bold and the named color `name` on black (`Colorize::color`,
/// `bold`, `on_black`, then `Display`).
#[verifier::external_body]
fn style_named_bold_on_black(text: &str, name: &str) -> (r: String)
    requires
        color_of_name(name@) is Some,
    ensures
        painted(r@, text@, fg_bold_on_black(color_of_name(name@).unwrap())),
{
    text.color(name).bold().on_black().to_string()
}

/// `text` in the 24-bit color `(r, g, b)` (`Colorize::truecolor`, then `Display`).
#[verifier::external_body]
fn style_rgb(text: &str, r: u8, g: u8, b: u8) -> (out: String)
    ensures
        painted(out@, text@, fg(Color::TrueColor { r, g, b })),
{
    text.truecolor(r, g, b).to_string()
}

/// `text` in bold and the 24-bit color `(r, g, b)` (`Colorize::truecolor`,
/// then `bold`, then `Display`).
#[verifier::external_body]
fn style_rgb_bold(text: &str, r: u8, g: u8, b: u8) -> (out: String)
    ensures
        painted(out@, text@, fg_bold(Color::TrueColor { r, g, b })),
{
    text.truecolor(r, g, b).bold().to_string()
}

/// `text` in bold and the 24-bit color `(r, g, b)` on black
/// (`Colorize::truecolor`, `bold`, `on_black`, then `Display`).
#[verifier::external_body]
fn style_rgb_bold_on_black(text: &str, r: u8, g: u8, b: u8) -> (out: String)
    ensures
        painted(out@, text@, fg_bold_on_black(Color::TrueColor { r, g, b })),
{
    text.truecolor(r, g, b).bold().on_black().to_string()
}

/// `text` in bold, with no color (`Colorize::bold`, then `Display`).
#[verifier::external_body]
fn style_bold(text: &str) -> (r: String)
    ensures
        painted(r@, text@, bold_only()),
{
    text.bold().to_string()
}

proof fn lemma_names()
    ensures
        color_of_name("black"@) == Some(Color::Black),
        color_of_name("red"@) == Some(Color::Red),
        color_of_name("green"@) == Some(Color::Green),
        color_of_name("yellow"@) == Some(Color::Yellow),
        color_of_name("blue"@) == Some(Color::Blue),
        color_of_name("magenta"@) == Some(Color::Magenta),
        color_of_name("cyan"@) == Some(Color::Cyan),
        color_of_name("white"@) == Some(Color::White),
        color_of_name("bright black"@) == Some(Color::BrightBlack),
        color_of_name("bright red"@) == Some(Color::BrightRed),
        color_of_name("bright green"@) == Some(Color::BrightGreen),
        color_of_name("bright yellow"@) == Some(Color::BrightYellow),
        color_of_name("bright blue"@) == Some(Color::BrightBlue),
        color_of_name("bright magenta"@) == Some(Color::BrightMagenta),
        color_of_name("bright cyan"@) == Some(Color::BrightCyan),
        color_of_name("bright white"@) == Some(Color::BrightWhite),
{
    reveal_strlit("black");
    reveal_strlit("red");
    reveal_strlit("green");
    reveal_strlit("yellow");
    reveal_strlit("blue");
    reveal_strlit("magenta");
    reveal_strlit("cyan");
    reveal_strlit("white");
    reveal_strlit("bright black");
    reveal_strlit("bright red");
    reveal_strlit("bright green");
    reveal_strlit("bright yellow");
    reveal_strlit("bright blue");
    reveal_strlit("bright magenta");
    reveal_strlit("bright cyan");
    reveal_strlit("bright white");
    assert("black"@ =~= seq!['b', 'l', 'a', 'c', 'k']);
    assert("red"@ =~= seq!['r', 'e', 'd']);
    assert("green"@ =~= seq!['g', 'r', 'e', 'e', 'n']);
    assert("yellow"@ =~= seq!['y', 'e', 'l', 'l', 'o', 'w']);
    assert("blue"@ =~= seq!['b', 'l', 'u', 'e']);
    assert("magenta"@ =~= seq!['m', 'a', 'g', 'e', 'n', 't', 'a']);
    assert("cyan"@ =~= seq!['c', 'y', 'a', 'n']);
    assert("white"@ =~= seq!['w', 'h', 'i', 't', 'e']);
    assert("bright black"@ =~= seq!['b', 'r', 'i', 'g', 'h', 't', ' ', 'b', 'l', 'a', 'c', 'k']);
    assert("bright red"@ =~= seq!['b', 'r', 'i', 'g', 'h', 't', ' ', 'r', 'e', 'd']);
    assert("bright green"@ =~= seq!['b', 'r', 'i', 'g', 'h', 't', ' ', 'g', 'r', 'e', 'e', 'n']);
    assert("bright yellow"@ =~= seq!['b', 'r', 'i', 'g', 'h', 't', ' ', 'y', 'e', 'l', 'l', 'o', 'w']);
    assert("bright blue"@ =~= seq!['b', 'r', 'i', 'g', 'h', 't', ' ', 'b', 'l', 'u', 'e']);
    assert("bright magenta"@ =~= seq!['b', 'r', 'i', 'g', 'h', 't', ' ', 'm', 'a', 'g', 'e', 'n', 't', 'a']);
    assert("bright cyan"@ =~= seq!['b', 'r', 'i', 'g', 'h', 't', ' ', 'c', 'y', 'a', 'n']);
    assert("bright white"@ =~= seq!['b', 'r', 'i', 'g', 'h', 't', ' ', 'w', 'h', 'i', 't', 'e']);
}

/// The name under which `colored` knows a named color.
fn color_name(c: Color) -> (r: &'static str)
    requires
        !(c is TrueColor),
    ensures
        color_of_name(r@) == Some(c),
{
    match c {
        Color::Black => {
            proof {
                lemma_names();
            }
            "black"
        },
        Color::Red => {
            proof {
                lemma_names();
            }
            "red"
        },
        Color::Green => {
            proof {
                lemma_names();
            }
            "green"
        },
        Color::Yellow => {
            proof {
                lemma_names();
            }
            "yellow"
        },
        Color::Blue => {
            proof {
                lemma_names();
            }
            "blue"
        },
        Color::Magenta => {
            proof {
                lemma_names();
            }
            "magenta"
        },
        Color::Cyan => {
            proof {
                lemma_names();
            }
            "cyan"
        },
        Color::White => {
            proof {
                lemma_names();
            }
            "white"
        },
        Color::BrightBlack => {
            proof {
                lemma_names();
            }
            "bright black"
        },
        Color::BrightRed => {
            proof {
                lemma_names();
            }
            "bright red"
        },
        Color::BrightGreen => {
            proof {
                lemma_names();
            }
            "bright green"
        },
        Color::BrightYellow => {
            proof {
                lemma_names();
            }
            "bright yellow"
        },
        Color::BrightBlue => {
            proof {
                lemma_names();
            }
            "bright blue"
        },
        Color::BrightMagenta => {
            proof {
                lemma_names();
            }
            "bright magenta"
        },
        Color::BrightCyan => {
            proof {
                lemma_names();
            }
            "bright cyan"
        },
        Color::BrightWhite => {
            proof {
                lemma_names();
            }
            "bright white"
        },
        Color::TrueColor { .. } => "white",
    }
}

/// `text` in the foreground color `color`.
pub fn paint(text: &str, color: Color) -> (r: String)
    ensures
        painted(r@, text@, fg(color)),
{
    match color {
        Color::TrueColor { r, g, b } => style_rgb(text, r, g, b),
        _ => style_named(text, color_name(color)),
    }
}

/// `text` in bold and the foreground color `color`.
pub fn paint_bold(text: &str, color: Color) -> (r: String)
    ensures
        painted(r@, text@, fg_bold(color)),
{
    match color {
        Color::TrueColor { r, g, b } => style_rgb_bold(text, r, g, b),
        _ => style_named_bold(text, color_name(color)),
    }
}

/// `text` in bold and the foreground color `color`, on a black background.
pub fn paint_bold_on_black(text: &str, color: Color) -> (r: String)
    ensures
        painted(r@, text@, fg_bold_on_black(color)),
{
    match color {
        Color::TrueColor { r, g, b } => style_rgb_bold_on_black(text, r, g, b),
        _ => style_named_bold_on_black(text, color_name(color)),
    }
}

/// `text` in bold, with no color.
pub fn embolden(text: &str) -> (r: String)
    ensures
        painted(r@, text@, bold_only()),
{
    style_bold(text)
}

} // verus!
