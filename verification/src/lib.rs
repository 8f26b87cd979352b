//! Coloring and styling for text printed to a terminal.
//!
//! The library builds SGR (Select Graphic Rendition) escape sequences: a
//! `Formatting` value describes a foreground color, a background color and a
//! list of styles, and `apply_to` wraps a piece of text in the escape
//! sequence for that description plus the universal reset sequence.
//!
//! The exact byte sequence produced is pinned down by the spec function
//! [`rendered`], and `apply_to` is verified to return precisely that.
//!
//! The basic use pattern is to create a `Formatting` value, call any
//! combination of `foreground`, `background` and `styles`, then call
//! `apply_to` with your text as an argument.

pub mod digits;
pub mod laws;

use vstd::prelude::*;

verus! {

use vstd::string::StringExecFns;
use crate::digits::{dec_str, digit_char, decimal_u8};

/// Color options to pass to either [`Formatting::foreground`] or
/// [`Formatting::background`].
///
/// All terminals should support the basic 8 colors at least; support for the
/// bright variants, the 256-color palette and RGB varies by terminal.
#[derive(Clone, Copy, Debug)]
pub enum Color {
    Default,
    Black,
    Red,
    Green,
    Yellow,
    Blue,
    Magenta,
    Cyan,
    White,
    BrightBlack,
    BrightRed,
    BrightGreen,
    BrightYellow,
    BrightBlue,
    BrightMagenta,
    BrightCyan,
    BrightWhite,
    Colors256(u8),
    RGB { r: u8, g: u8, b: u8 },
}

/// Style options to pass to [`Formatting::styles`].
///
/// Support varies by terminal.
///
/// **WARNING** `Styles::Reset` resets all preceding styles *and* colors,
/// which you probably don't want.
#[derive(Clone, Copy, Debug)]
pub enum Styles {
    Reset,
    Bold,
    Faint,
    Italic,
    Underline,
    Blink,
    Invert,
    Invisible,
    Strikethrough,
}

/// The numeric SGR code of a style. Code 6 ("rapid blink") is deliberately
/// skipped: it has no standard support.
pub open spec fn style_code(s: Styles) -> nat {
    match s {
        Styles::Reset => 0,
        Styles::Bold => 1,
        Styles::Faint => 2,
        Styles::Italic => 3,
        Styles::Underline => 4,
        Styles::Blink => 5,
        Styles::Invert => 7,
        Styles::Invisible => 8,
        Styles::Strikethrough => 9,
    }
}

/// Whether `c` is one of the 8 base palette colors.
pub open spec fn is_base_color(c: Color) -> bool {
    match c {
        Color::Black | Color::Red | Color::Green | Color::Yellow | Color::Blue
        | Color::Magenta | Color::Cyan | Color::White => true,
        _ => false,
    }
}

/// Whether `c` is one of the 8 bright palette colors.
pub open spec fn is_bright_color(c: Color) -> bool {
    match c {
        Color::BrightBlack | Color::BrightRed | Color::BrightGreen | Color::BrightYellow
        | Color::BrightBlue | Color::BrightMagenta | Color::BrightCyan
        | Color::BrightWhite => true,
        _ => false,
    }
}

/// The offset of a named color: 0–7 for the base colors, 60–67 for the
/// bright variants, in the fixed order black, red, green, yellow, blue,
/// magenta, cyan, white.
pub open spec fn named_offset(c: Color) -> nat {
    match c {
        Color::Black => 0,
        Color::Red => 1,
        Color::Green => 2,
        Color::Yellow => 3,
        Color::Blue => 4,
        Color::Magenta => 5,
        Color::Cyan => 6,
        Color::White => 7,
        Color::BrightBlack => 60,
        Color::BrightRed => 61,
        Color::BrightGreen => 62,
        Color::BrightYellow => 63,
        Color::BrightBlue => 64,
        Color::BrightMagenta => 65,
        Color::BrightCyan => 66,
        Color::BrightWhite => 67,
        _ => 0,
    }
}

/// The SGR parameter text for color `c`, or `None` when `c` is
/// `Color::Default` and contributes no parameter. `tens` is 3 for a
/// foreground color and 4 for a background color: a named color becomes
/// `10 * tens + offset`, a palette index `v` becomes `<tens>8;5;<v>`, and an
/// RGB triple becomes `<tens>8;2;<r>;<g>;<b>`.
pub open spec fn color_param(c: Color, tens: nat) -> Option<Seq<char>> {
    match c {
        Color::Default => None,
        Color::Colors256(v) => Some(
            seq![digit_char(tens), '8', ';', '5', ';'] + dec_str(v as nat),
        ),
        Color::RGB { r, g, b } => Some(
            seq![digit_char(tens), '8', ';', '2', ';'] + dec_str(r as nat) + seq![';']
                + dec_str(g as nat) + seq![';'] + dec_str(b as nat),
        ),
        _ => Some(dec_str(10 * tens + named_offset(c))),
    }
}

/// The SGR parameter text for a style list: the codes in the order given,
/// duplicates preserved, joined by `';'`. An empty list yields the empty
/// text.
pub open spec fn styles_param(l: Seq<Styles>) -> Seq<char>
    decreases l.len(),
{
    if l.len() == 0 {
        Seq::empty()
    } else if l.len() == 1 {
        dec_str(style_code(l[0]))
    } else {
        styles_param(l.drop_last()) + seq![';'] + dec_str(style_code(l.last()))
    }
}

/// Describes desired colors and styles, and renders text with them.
///
/// A `Formatting` starts with no foreground color, no background color and
/// no style list; each setter replaces its field and hands the value back,
/// so calls can be chained. `styles` set to an empty list is distinct from
/// `styles` never set: the former still contributes an (empty) parameter
/// segment and its separator.
#[derive(Debug)]
pub struct Formatting {
    pub fg: Color,
    pub bg: Color,
    pub styles: Option<Vec<Styles>>,
}

/// The parameter text contributed by the foreground color, if any.
pub open spec fn fg_param(f: Formatting) -> Option<Seq<char>> {
    color_param(f.fg, 3)
}

/// The parameter text contributed by the background color, if any.
pub open spec fn bg_param(f: Formatting) -> Option<Seq<char>> {
    color_param(f.bg, 4)
}

/// The parameter text contributed by the style list: absent when `styles`
/// was never set, present (possibly empty) otherwise.
pub open spec fn style_param(f: Formatting) -> Option<Seq<char>> {
    match f.styles {
        None => None,
        Some(l) => Some(styles_param(l@)),
    }
}

/// The present segments in the fixed order foreground, background, styles,
/// with a single `';'` between any two adjacent present segments.
pub open spec fn joined_params(
    a: Option<Seq<char>>,
    b: Option<Seq<char>>,
    c: Option<Seq<char>>,
) -> Seq<char> {
    (match a {
        Some(x) => x + if b is Some || c is Some { seq![';'] } else { Seq::empty() },
        None => Seq::empty(),
    }) + (match b {
        Some(y) => y + if c is Some { seq![';'] } else { Seq::empty() },
        None => Seq::empty(),
    }) + (match c {
        Some(z) => z,
        None => Seq::empty(),
    })
}

/// The full SGR parameter text of a `Formatting`.
pub open spec fn params(f: Formatting) -> Seq<char> {
    joined_params(fg_param(f), bg_param(f), style_param(f))
}

/// What rendering `text` under `f` produces: `ESC [ <params> m <text>`
/// followed by the reset sequence `ESC [ 0 m`. When no segment is present
/// the parameter text is empty and the literal sequence `ESC[m` is kept.
pub open spec fn rendered(f: Formatting, text: Seq<char>) -> Seq<char> {
    seq!['\x1B', '['] + params(f) + seq!['m'] + text + seq!['\x1B', '[', '0', 'm']
}

impl Formatting {
    /// Create a new `Formatting` with no foreground color, no background
    /// color and no style list.
    pub fn new() -> (r: Formatting)
        ensures
            r.fg is Default,
            r.bg is Default,
            r.styles is None,
    {
        Formatting { fg: Color::Default, bg: Color::Default, styles: None }
    }

    /// Set the foreground color to `fg`, replacing any earlier one, and
    /// return the value for chaining.
    pub fn foreground(self, fg: Color) -> (r: Formatting)
        ensures
            r.fg == fg,
            r.bg == self.bg,
            r.styles == self.styles,
    {
        Formatting { fg, ..self }
    }

    /// Set the background color to `bg`, replacing any earlier one, and
    /// return the value for chaining.
    pub fn background(self, bg: Color) -> (r: Formatting)
        ensures
            r.fg == self.fg,
            r.bg == bg,
            r.styles == self.styles,
    {
        Formatting { bg, ..self }
    }

    /// Set the style list to `styles`, replacing any earlier list, and
    /// return the value for chaining. An empty list still counts as "styles
    /// present".
    pub fn styles(self, styles: Vec<Styles>) -> (r: Formatting)
        ensures
            r.fg == self.fg,
            r.bg == self.bg,
            r.styles matches Some(l) && l@ == styles@,
    {
        Formatting { styles: Some(styles), ..self }
    }

    /// Apply the colors and styles to `text`: wrap it in the escape
    /// sequence for this description plus the reset sequence.
    ///
    /// Rendering never fails and reads the `Formatting` without changing
    /// it, so the output is a pure function of the description and the
    /// text: two calls with the same arguments return the same string.
    pub fn apply_to(&self, text: &str) -> (r: String)
        ensures
            r@ == rendered(*self, text@),
    {
        let mut colored = "\x1B[".to_owned();
        let translation = self.translate();
        colored.append(translation.as_str());
        colored.append("m");
        colored.append(text);
        colored.append("\x1B[0m");
        proof {
            reveal_strlit("\x1B[");
            reveal_strlit("m");
            reveal_strlit("\x1B[0m");
            assert(colored@ =~= rendered(*self, text@));
        }
        colored
    }

    /// The full parameter text of this description.
    fn translate(&self) -> (r: String)
        ensures
            r@ == params(*self),
    {
        let fg = self.translate_foreground();
        let bg = self.translate_background();
        let styles = self.translate_styles();

        let mut translation = String::new();
        if let Some(f) = fg {
            translation.append(f.as_str());
            if bg.is_some() || styles.is_some() {
                translation.append(";");
            }
        }
        if let Some(b) = bg {
            translation.append(b.as_str());
            if styles.is_some() {
                translation.append(";");
            }
        }
        if let Some(s) = styles {
            translation.append(s.as_str());
        }
        proof {
            reveal_strlit(";");
            assert(translation@ =~= params(*self));
        }
        translation
    }

    /// The parameter text for one color, or `None` for `Color::Default`.
    fn translate_colors(color: Color, tens_digit: TensDigit) -> (r: Option<String>)
        ensures
            view_of_opt(r) == color_param(color, tens_value(tens_digit)),
    {
        let td: u8 = match tens_digit {
            TensDigit::Fg => 3,
            TensDigit::Bg => 4,
        };
        match color {
            Color::Default => None,
            Color::Colors256(val) => {
                let mut s = decimal_u8(td);
                s.append("8;5;");
                s.append(decimal_u8(val).as_str());
                proof {
                    reveal_strlit("8;5;");
                    assert(s@ =~= color_param(color, tens_value(tens_digit)).unwrap());
                }
                Some(s)
            },
            Color::RGB { r: red, g: green, b: blue } => {
                let mut s = decimal_u8(td);
                s.append("8;2;");
                s.append(decimal_u8(red).as_str());
                s.append(";");
                s.append(decimal_u8(green).as_str());
                s.append(";");
                s.append(decimal_u8(blue).as_str());
                proof {
                    reveal_strlit("8;2;");
                    reveal_strlit(";");
                    assert(s@ =~= color_param(color, tens_value(tens_digit)).unwrap());
                }
                Some(s)
            },
            Color::Black => Some(decimal_u8(10 * td + 0)),
            Color::Red => Some(decimal_u8(10 * td + 1)),
            Color::Green => Some(decimal_u8(10 * td + 2)),
            Color::Yellow => Some(decimal_u8(10 * td + 3)),
            Color::Blue => Some(decimal_u8(10 * td + 4)),
            Color::Magenta => Some(decimal_u8(10 * td + 5)),
            Color::Cyan => Some(decimal_u8(10 * td + 6)),
            Color::White => Some(decimal_u8(10 * td + 7)),
            Color::BrightBlack => Some(decimal_u8(10 * td + 60)),
            Color::BrightRed => Some(decimal_u8(10 * td + 61)),
            Color::BrightGreen => Some(decimal_u8(10 * td + 62)),
            Color::BrightYellow => Some(decimal_u8(10 * td + 63)),
            Color::BrightBlue => Some(decimal_u8(10 * td + 64)),
            Color::BrightMagenta => Some(decimal_u8(10 * td + 65)),
            Color::BrightCyan => Some(decimal_u8(10 * td + 66)),
            Color::BrightWhite => Some(decimal_u8(10 * td + 67)),
        }
    }

    /// The parameter text for the foreground color, if any.
    fn translate_foreground(&self) -> (r: Option<String>)
        ensures
            view_of_opt(r) == fg_param(*self),
    {
        Formatting::translate_colors(self.fg, TensDigit::Fg)
    }

    /// The parameter text for the background color, if any.
    fn translate_background(&self) -> (r: Option<String>)
        ensures
            view_of_opt(r) == bg_param(*self),
    {
        Formatting::translate_colors(self.bg, TensDigit::Bg)
    }

    /// The parameter text for the style list: absent when `styles` was
    /// never set, the joined codes otherwise.
    fn translate_styles(&self) -> (r: Option<String>)
        ensures
            view_of_opt(r) == style_param(*self),
    {
        match &self.styles {
            None => None,
            Some(styles) => {
                let mut joined = String::new();
                let mut i: usize = 0;
                while i < styles.len()
                    invariant
                        i <= styles.len(),
                        joined@ == styles_param(styles@.subrange(0, i as int)),
                    decreases styles.len() - i,
                {
                    if i > 0 {
                        joined.append(";");
                    }
                    let code = style_to_code(styles[i]);
                    joined.append(decimal_u8(code).as_str());
                    proof {
                        reveal_strlit(";");
                        let prefix = styles@.subrange(0, i as int);
                        let next = styles@.subrange(0, i as int + 1);
                        assert(next.drop_last() =~= prefix);
                        assert(next.last() == styles@[i as int]);
                        assert(joined@ =~= styles_param(next));
                    }
                    i = i + 1;
                }
                proof {
                    assert(styles@.subrange(0, styles@.len() as int) =~= styles@);
                }
                Some(joined)
            },
        }
    }
}

/// Whether the parameter of a color goes to the foreground table (tens
/// digit 3) or the background table (tens digit 4).
enum TensDigit {
    Fg,
    Bg,
}

/// The tens digit itself.
spec fn tens_value(t: TensDigit) -> nat {
    match t {
        TensDigit::Fg => 3,
        TensDigit::Bg => 4,
    }
}

/// The view of an optional string.
spec fn view_of_opt(o: Option<String>) -> Option<Seq<char>> {
    match o {
        None => None,
        Some(s) => Some(s@),
    }
}

/// The numeric SGR code of a style, as a byte.
fn style_to_code(s: Styles) -> (r: u8)
    ensures
        r as nat == style_code(s),
{
    match s {
        Styles::Reset => 0,
        Styles::Bold => 1,
        Styles::Faint => 2,
        Styles::Italic => 3,
        Styles::Underline => 4,
        Styles::Blink => 5,
        Styles::Invert => 7,
        Styles::Invisible => 8,
        Styles::Strikethrough => 9,
    }
}

} // verus!
