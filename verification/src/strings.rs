//! Terminal colors and styles, applied to text as ANSI escape sequences.
//!
//! The escape sequences produced here are plain text; the [`crate::util`]
//! module can strip them again, which the file sink relies on.

use vstd::prelude::*;
use vstd::string::*;

use crate::util::close_free;
use crate::util::escape_after;
use crate::util::lemma_close_free_concat;
use crate::util::lemma_strip_escape_parts;
use crate::util::strip_rec;

verus! {

/// Terminal colors for text output.
///
/// The sixteen named variants are the standard and bright ANSI colors;
/// `ID` selects one of the 256 palette colors, and `RGB` a true color.
#[derive(Debug, Clone, Copy, PartialEq, Eq, Structural)]
pub enum Color {
    /// Black (ANSI code 30, background 40)
    Black,
    /// Red (ANSI code 31, background 41)
    Red,
    /// Green (ANSI code 32, background 42)
    Green,
    /// Yellow (ANSI code 33, background 43)
    Yellow,
    /// Blue (ANSI code 34, background 44)
    Blue,
    /// Magenta (ANSI code 35, background 45)
    Magenta,
    /// Cyan (ANSI code 36, background 46)
    Cyan,
    /// White (ANSI code 37, background 47)
    White,
    /// The terminal's default color (ANSI code 39, background 49)
    Default,
    /// Bright black (ANSI code 90, background 100)
    BrightBlack,
    /// Bright red (ANSI code 91, background 101)
    BrightRed,
    /// Bright green (ANSI code 92, background 102)
    BrightGreen,
    /// Bright yellow (ANSI code 93, background 103)
    BrightYellow,
    /// Bright blue (ANSI code 94, background 104)
    BrightBlue,
    /// Bright magenta (ANSI code 95, background 105)
    BrightMagenta,
    /// Bright cyan (ANSI code 96, background 106)
    BrightCyan,
    /// Bright white (ANSI code 97, background 107)
    BrightWhite,
    /// One of the 256 palette colors, by index
    ID(u8),
    /// A true color given by its red, green and blue components
    RGB(u8, u8, u8),
}

/// The decimal digit `d` as a character, for `0 <= d <= 9`.
pub open spec fn digit_spec(d: int) -> char {
    if d == 0 {
        '0'
    } else if d == 1 {
        '1'
    } else if d == 2 {
        '2'
    } else if d == 3 {
        '3'
    } else if d == 4 {
        '4'
    } else if d == 5 {
        '5'
    } else if d == 6 {
        '6'
    } else if d == 7 {
        '7'
    } else if d == 8 {
        '8'
    } else {
        '9'
    }
}

/// The decimal rendering of the non-negative integer `n`, without
/// leading zeros.
pub open spec fn dec_spec(n: int) -> Seq<char>
    decreases n,
{
    if n < 10 {
        seq![digit_spec(n)]
    } else {
        dec_spec(n / 10) + seq![digit_spec(n % 10)]
    }
}

/// The ANSI sequence that resets all colors and styles.
pub open spec fn reset_seq() -> Seq<char> {
    "\x1b[0m"@
}

fn digit_char(d: u8) -> (c: char)
    requires
        d < 10,
    ensures
        c == digit_spec(d as int),
{
    match d {
        0 => '0',
        1 => '1',
        2 => '2',
        3 => '3',
        4 => '4',
        5 => '5',
        6 => '6',
        7 => '7',
        8 => '8',
        _ => '9',
    }
}

/// Relies on `String::push`: appends the given character to the string.
#[verifier::external_body]
pub(crate) fn push_char(s: &mut String, c: char)
    ensures
        final(s)@ == old(s)@ + seq![c],
{
    s.push(c);
}

/// Appends the decimal rendering of `n` to `out`.
fn push_decimal(out: &mut String, n: u8)
    ensures
        final(out)@ == old(out)@ + dec_spec(n as int),
{
    if n >= 100 {
        push_char(out, digit_char(n / 100));
        push_char(out, digit_char((n / 10) % 10));
        push_char(out, digit_char(n % 10));
        proof {
            reveal_with_fuel(dec_spec, 3);
            assert(n as int / 10 / 10 == n as int / 100);
            assert(final(out)@ =~= old(out)@ + dec_spec(n as int));
        }
    } else if n >= 10 {
        push_char(out, digit_char(n / 10));
        push_char(out, digit_char(n % 10));
        proof {
            reveal_with_fuel(dec_spec, 2);
            assert(final(out)@ =~= old(out)@ + dec_spec(n as int));
        }
    } else {
        push_char(out, digit_char(n));
    }
}

impl Color {
    /// The ANSI escape sequence that sets this color as the foreground.
    pub open spec fn fg_seq(self) -> Seq<char> {
        match self {
            Color::Black => "\x1b[30m"@,
            Color::Red => "\x1b[31m"@,
            Color::Green => "\x1b[32m"@,
            Color::Yellow => "\x1b[33m"@,
            Color::Blue => "\x1b[34m"@,
            Color::Magenta => "\x1b[35m"@,
            Color::Cyan => "\x1b[36m"@,
            Color::White => "\x1b[37m"@,
            Color::Default => "\x1b[39m"@,
            Color::BrightBlack => "\x1b[90m"@,
            Color::BrightRed => "\x1b[91m"@,
            Color::BrightGreen => "\x1b[92m"@,
            Color::BrightYellow => "\x1b[93m"@,
            Color::BrightBlue => "\x1b[94m"@,
            Color::BrightMagenta => "\x1b[95m"@,
            Color::BrightCyan => "\x1b[96m"@,
            Color::BrightWhite => "\x1b[97m"@,
            Color::ID(id) => "\x1b[38;5;"@ + dec_spec(id as int) + "m"@,
            Color::RGB(r, g, b) => "\x1b[38;2;"@ + dec_spec(r as int) + ";"@ + dec_spec(g as int)
                + ";"@ + dec_spec(b as int) + "m"@,
        }
    }

    /// The ANSI escape sequence that sets this color as the background.
    pub open spec fn bg_seq(self) -> Seq<char> {
        match self {
            Color::Black => "\x1b[40m"@,
            Color::Red => "\x1b[41m"@,
            Color::Green => "\x1b[42m"@,
            Color::Yellow => "\x1b[43m"@,
            Color::Blue => "\x1b[44m"@,
            Color::Magenta => "\x1b[45m"@,
            Color::Cyan => "\x1b[46m"@,
            Color::White => "\x1b[47m"@,
            Color::Default => "\x1b[49m"@,
            Color::BrightBlack => "\x1b[100m"@,
            Color::BrightRed => "\x1b[101m"@,
            Color::BrightGreen => "\x1b[102m"@,
            Color::BrightYellow => "\x1b[103m"@,
            Color::BrightBlue => "\x1b[104m"@,
            Color::BrightMagenta => "\x1b[105m"@,
            Color::BrightCyan => "\x1b[106m"@,
            Color::BrightWhite => "\x1b[107m"@,
            Color::ID(id) => "\x1b[48;5;"@ + dec_spec(id as int) + "m"@,
            Color::RGB(r, g, b) => "\x1b[48;2;"@ + dec_spec(r as int) + ";"@ + dec_spec(g as int)
                + ";"@ + dec_spec(b as int) + "m"@,
        }
    }

    /// The escape sequence that sets this color as the foreground.
    pub fn ansi_code_foreground(&self) -> (r: String)
        ensures
            r@ == self.fg_seq(),
    {
        match self {
            Color::Black => String::from_str("\x1b[30m"),
            Color::Red => String::from_str("\x1b[31m"),
            Color::Green => String::from_str("\x1b[32m"),
            Color::Yellow => String::from_str("\x1b[33m"),
            Color::Blue => String::from_str("\x1b[34m"),
            Color::Magenta => String::from_str("\x1b[35m"),
            Color::Cyan => String::from_str("\x1b[36m"),
            Color::White => String::from_str("\x1b[37m"),
            Color::Default => String::from_str("\x1b[39m"),
            Color::BrightBlack => String::from_str("\x1b[90m"),
            Color::BrightRed => String::from_str("\x1b[91m"),
            Color::BrightGreen => String::from_str("\x1b[92m"),
            Color::BrightYellow => String::from_str("\x1b[93m"),
            Color::BrightBlue => String::from_str("\x1b[94m"),
            Color::BrightMagenta => String::from_str("\x1b[95m"),
            Color::BrightCyan => String::from_str("\x1b[96m"),
            Color::BrightWhite => String::from_str("\x1b[97m"),
            Color::ID(id) => {
                let mut s = String::from_str("\x1b[38;5;");
                push_decimal(&mut s, *id);
                push_char(&mut s, 'm');
                proof {
                    reveal_strlit("m");
                    assert(s@ =~= self.fg_seq());
                }
                s
            },
            Color::RGB(r, g, b) => {
                let mut s = String::from_str("\x1b[38;2;");
                push_decimal(&mut s, *r);
                push_char(&mut s, ';');
                push_decimal(&mut s, *g);
                push_char(&mut s, ';');
                push_decimal(&mut s, *b);
                push_char(&mut s, 'm');
                proof {
                    reveal_strlit(";");
                    reveal_strlit("m");
                    assert(s@ =~= self.fg_seq());
                }
                s
            },
        }
    }

    /// The escape sequence that sets this color as the background.
    pub fn ansi_code_background(&self) -> (r: String)
        ensures
            r@ == self.bg_seq(),
    {
        match self {
            Color::Black => String::from_str("\x1b[40m"),
            Color::Red => String::from_str("\x1b[41m"),
            Color::Green => String::from_str("\x1b[42m"),
            Color::Yellow => String::from_str("\x1b[43m"),
            Color::Blue => String::from_str("\x1b[44m"),
            Color::Magenta => String::from_str("\x1b[45m"),
            Color::Cyan => String::from_str("\x1b[46m"),
            Color::White => String::from_str("\x1b[47m"),
            Color::Default => String::from_str("\x1b[49m"),
            Color::BrightBlack => String::from_str("\x1b[100m"),
            Color::BrightRed => String::from_str("\x1b[101m"),
            Color::BrightGreen => String::from_str("\x1b[102m"),
            Color::BrightYellow => String::from_str("\x1b[103m"),
            Color::BrightBlue => String::from_str("\x1b[104m"),
            Color::BrightMagenta => String::from_str("\x1b[105m"),
            Color::BrightCyan => String::from_str("\x1b[106m"),
            Color::BrightWhite => String::from_str("\x1b[107m"),
            Color::ID(id) => {
                let mut s = String::from_str("\x1b[48;5;");
                push_decimal(&mut s, *id);
                push_char(&mut s, 'm');
                proof {
                    reveal_strlit("m");
                    assert(s@ =~= self.bg_seq());
                }
                s
            },
            Color::RGB(r, g, b) => {
                let mut s = String::from_str("\x1b[48;2;");
                push_decimal(&mut s, *r);
                push_char(&mut s, ';');
                push_decimal(&mut s, *g);
                push_char(&mut s, ';');
                push_decimal(&mut s, *b);
                push_char(&mut s, 'm');
                proof {
                    reveal_strlit(";");
                    reveal_strlit("m");
                    assert(s@ =~= self.bg_seq());
                }
                s
            },
        }
    }

    /// The escape sequence of the color when used as a foreground color.
    pub fn ansi_code(&self) -> (r: String)
        ensures
            r@ == self.fg_seq(),
    {
        self.ansi_code_foreground()
    }
}

/// Decimal renderings never contain the character that closes an ANSI
/// escape sequence.
pub proof fn lemma_dec_close_free(n: int)
    ensures
        close_free(dec_spec(n)),
    decreases n,
{
    if n < 10 {
        assert(dec_spec(n) =~= seq![digit_spec(n)]);
        assert(digit_spec(n) != 'm');
        assert forall|i: int| 0 <= i < dec_spec(n).len() implies dec_spec(n)[i] != 'm' by {
            assert(dec_spec(n)[i] == digit_spec(n));
        }
    } else {
        lemma_dec_close_free(n / 10);
        assert(digit_spec(n % 10) != 'm');
        assert(close_free(seq![digit_spec(n % 10)]));
        lemma_close_free_concat(dec_spec(n / 10), seq![digit_spec(n % 10)]);
    }
}

/// The palette selector's body, after the escape character: free of the
/// closing character.
proof fn lemma_selector_body_close_free(body: Seq<char>, p: Seq<char>)
    requires
        p.len() == 7,
        body == p.drop_first(),
        p[1] == '[',
        p[2] == '3',
        p[3] == '8',
        p[4] == ';',
        p[5] != 'm',
        p[6] == ';',
    ensures
        close_free(body),
{
    assert forall|i: int| 0 <= i < body.len() implies body[i] != 'm' by {
        assert(body[i] == p[i + 1]);
    }
}

impl Color {
    /// Every foreground color code is one whole ANSI escape sequence:
    /// stripping removes it entirely and leaves the stripper outside an
    /// escape sequence.
    pub proof fn lemma_fg_seq_strips_away(self)
        ensures
            strip_rec(self.fg_seq(), false) == Seq::<char>::empty(),
            escape_after(self.fg_seq(), false) == false,
    {
        reveal_with_fuel(strip_rec, 8);
        reveal_with_fuel(escape_after, 8);
        match self {
            Color::Black => {
                reveal_strlit("\x1b[30m");
                assert(strip_rec("\x1b[30m"@, false) =~= Seq::<char>::empty());
            },
            Color::Red => {
                reveal_strlit("\x1b[31m");
                assert(strip_rec("\x1b[31m"@, false) =~= Seq::<char>::empty());
            },
            Color::Green => {
                reveal_strlit("\x1b[32m");
                assert(strip_rec("\x1b[32m"@, false) =~= Seq::<char>::empty());
            },
            Color::Yellow => {
                reveal_strlit("\x1b[33m");
                assert(strip_rec("\x1b[33m"@, false) =~= Seq::<char>::empty());
            },
            Color::Blue => {
                reveal_strlit("\x1b[34m");
                assert(strip_rec("\x1b[34m"@, false) =~= Seq::<char>::empty());
            },
            Color::Magenta => {
                reveal_strlit("\x1b[35m");
                assert(strip_rec("\x1b[35m"@, false) =~= Seq::<char>::empty());
            },
            Color::Cyan => {
                reveal_strlit("\x1b[36m");
                assert(strip_rec("\x1b[36m"@, false) =~= Seq::<char>::empty());
            },
            Color::White => {
                reveal_strlit("\x1b[37m");
                assert(strip_rec("\x1b[37m"@, false) =~= Seq::<char>::empty());
            },
            Color::Default => {
                reveal_strlit("\x1b[39m");
                assert(strip_rec("\x1b[39m"@, false) =~= Seq::<char>::empty());
            },
            Color::BrightBlack => {
                reveal_strlit("\x1b[90m");
                assert(strip_rec("\x1b[90m"@, false) =~= Seq::<char>::empty());
            },
            Color::BrightRed => {
                reveal_strlit("\x1b[91m");
                assert(strip_rec("\x1b[91m"@, false) =~= Seq::<char>::empty());
            },
            Color::BrightGreen => {
                reveal_strlit("\x1b[92m");
                assert(strip_rec("\x1b[92m"@, false) =~= Seq::<char>::empty());
            },
            Color::BrightYellow => {
                reveal_strlit("\x1b[93m");
                assert(strip_rec("\x1b[93m"@, false) =~= Seq::<char>::empty());
            },
            Color::BrightBlue => {
                reveal_strlit("\x1b[94m");
                assert(strip_rec("\x1b[94m"@, false) =~= Seq::<char>::empty());
            },
            Color::BrightMagenta => {
                reveal_strlit("\x1b[95m");
                assert(strip_rec("\x1b[95m"@, false) =~= Seq::<char>::empty());
            },
            Color::BrightCyan => {
                reveal_strlit("\x1b[96m");
                assert(strip_rec("\x1b[96m"@, false) =~= Seq::<char>::empty());
            },
            Color::BrightWhite => {
                reveal_strlit("\x1b[97m");
                assert(strip_rec("\x1b[97m"@, false) =~= Seq::<char>::empty());
            },
            Color::ID(id) => {
                reveal_strlit("\x1b[38;5;");
                reveal_strlit("m");
                let p = "\x1b[38;5;"@;
                let bodyp = p.drop_first();
                lemma_selector_body_close_free(bodyp, p);
                lemma_dec_close_free(id as int);
                lemma_close_free_concat(bodyp, dec_spec(id as int));
                let body = bodyp + dec_spec(id as int);
                lemma_strip_escape_parts(body);
                assert(self.fg_seq() =~= seq!['\x1b'] + body + seq!['m']);
            },
            Color::RGB(r, g, b) => {
                reveal_strlit("\x1b[38;2;");
                reveal_strlit(";");
                reveal_strlit("m");
                let p = "\x1b[38;2;"@;
                let bodyp = p.drop_first();
                lemma_selector_body_close_free(bodyp, p);
                lemma_dec_close_free(r as int);
                lemma_dec_close_free(g as int);
                lemma_dec_close_free(b as int);
                assert(close_free(";"@)) by {
                    assert(";"@[0] == ';');
                }
                lemma_close_free_concat(bodyp, dec_spec(r as int));
                lemma_close_free_concat(bodyp + dec_spec(r as int), ";"@);
                lemma_close_free_concat(bodyp + dec_spec(r as int) + ";"@, dec_spec(g as int));
                lemma_close_free_concat(
                    bodyp + dec_spec(r as int) + ";"@ + dec_spec(g as int),
                    ";"@,
                );
                lemma_close_free_concat(
                    bodyp + dec_spec(r as int) + ";"@ + dec_spec(g as int) + ";"@,
                    dec_spec(b as int),
                );
                let body = bodyp + dec_spec(r as int) + ";"@ + dec_spec(g as int) + ";"@ + dec_spec(
                    b as int,
                );
                lemma_strip_escape_parts(body);
                assert(self.fg_seq() =~= seq!['\x1b'] + body + seq!['m']);
            },
        }
    }
}

/// The reset sequence is one whole ANSI escape sequence: stripping
/// removes it entirely.
pub proof fn lemma_reset_strips_away()
    ensures
        strip_rec(reset_seq(), false) == Seq::<char>::empty(),
        escape_after(reset_seq(), false) == false,
{
    reveal_strlit("\x1b[0m");
    reveal_with_fuel(strip_rec, 6);
    reveal_with_fuel(escape_after, 6);
    assert(strip_rec("\x1b[0m"@, false) =~= Seq::<char>::empty());
}

/// Wraps `s` between `prefix` and the reset sequence.
fn wrap_reset(prefix: String, s: &str) -> (r: String)
    ensures
        r@ == prefix@ + s@ + reset_seq(),
{
    let mut out = prefix;
    out.append(s);
    out.append("\x1b[0m");
    out
}

/// The ability to color text with ANSI escape codes.
pub trait Colorize {
    /// The characters of the text being colored.
    spec fn text(&self) -> Seq<char>;

    /// The text wrapped in the color's foreground escape sequence
    /// and the reset sequence.
    fn color(&self, color: Color) -> (r: String)
        ensures
            r@ == color.fg_seq() + self.text() + reset_seq(),
    ;

    /// The text wrapped in the color's background escape sequence
    /// and the reset sequence.
    fn background(&self, color: Color) -> (r: String)
        ensures
            r@ == color.bg_seq() + self.text() + reset_seq(),
    ;
}

impl Colorize for str {
    open spec fn text(&self) -> Seq<char> {
        self@
    }

    fn color(&self, color: Color) -> (r: String) {
        wrap_reset(color.ansi_code_foreground(), self)
    }

    fn background(&self, color: Color) -> (r: String) {
        wrap_reset(color.ansi_code_background(), self)
    }
}

impl Colorize for String {
    open spec fn text(&self) -> Seq<char> {
        self@
    }

    fn color(&self, color: Color) -> (r: String) {
        wrap_reset(color.ansi_code_foreground(), self.as_str())
    }

    fn background(&self, color: Color) -> (r: String) {
        wrap_reset(color.ansi_code_background(), self.as_str())
    }
}

/// The ability to style text with ANSI escape codes.
pub trait Style {
    /// The characters of the text being styled.
    spec fn styled_text(&self) -> Seq<char>;

    /// The text in bold.
    fn bold(&self) -> (r: String)
        ensures
            r@ == "\x1b[1m"@ + self.styled_text() + reset_seq(),
    ;

    /// The text with its color dimmed.
    fn dim(&self) -> (r: String)
        ensures
            r@ == "\x1b[2m"@ + self.styled_text() + reset_seq(),
    ;

    /// The text in italics.
    fn italic(&self) -> (r: String)
        ensures
            r@ == "\x1b[3m"@ + self.styled_text() + reset_seq(),
    ;

    /// The text underlined.
    fn underline(&self) -> (r: String)
        ensures
            r@ == "\x1b[4m"@ + self.styled_text() + reset_seq(),
    ;

    /// The text blinking.
    fn blink(&self) -> (r: String)
        ensures
            r@ == "\x1b[5m"@ + self.styled_text() + reset_seq(),
    ;

    /// The text with foreground and background colors swapped.
    fn reverse(&self) -> (r: String)
        ensures
            r@ == "\x1b[7m"@ + self.styled_text() + reset_seq(),
    ;

    /// The text hidden behind the background color.
    fn hidden(&self) -> (r: String)
        ensures
            r@ == "\x1b[8m"@ + self.styled_text() + reset_seq(),
    ;

    /// The text struck through.
    fn striketrough(&self) -> (r: String)
        ensures
            r@ == "\x1b[9m"@ + self.styled_text() + reset_seq(),
    ;
}

impl Style for str {
    open spec fn styled_text(&self) -> Seq<char> {
        self@
    }

    fn bold(&self) -> (r: String) {
        wrap_reset(String::from_str("\x1b[1m"), self)
    }

    fn dim(&self) -> (r: String) {
        wrap_reset(String::from_str("\x1b[2m"), self)
    }

    fn italic(&self) -> (r: String) {
        wrap_reset(String::from_str("\x1b[3m"), self)
    }

    fn underline(&self) -> (r: String) {
        wrap_reset(String::from_str("\x1b[4m"), self)
    }

    fn blink(&self) -> (r: String) {
        wrap_reset(String::from_str("\x1b[5m"), self)
    }

    fn reverse(&self) -> (r: String) {
        wrap_reset(String::from_str("\x1b[7m"), self)
    }

    fn hidden(&self) -> (r: String) {
        wrap_reset(String::from_str("\x1b[8m"), self)
    }

    fn striketrough(&self) -> (r: String) {
        wrap_reset(String::from_str("\x1b[9m"), self)
    }
}

impl Style for String {
    open spec fn styled_text(&self) -> Seq<char> {
        self@
    }

    fn bold(&self) -> (r: String) {
        wrap_reset(String::from_str("\x1b[1m"), self.as_str())
    }

    fn dim(&self) -> (r: String) {
        wrap_reset(String::from_str("\x1b[2m"), self.as_str())
    }

    fn italic(&self) -> (r: String) {
        wrap_reset(String::from_str("\x1b[3m"), self.as_str())
    }

    fn underline(&self) -> (r: String) {
        wrap_reset(String::from_str("\x1b[4m"), self.as_str())
    }

    fn blink(&self) -> (r: String) {
        wrap_reset(String::from_str("\x1b[5m"), self.as_str())
    }

    fn reverse(&self) -> (r: String) {
        wrap_reset(String::from_str("\x1b[7m"), self.as_str())
    }

    fn hidden(&self) -> (r: String) {
        wrap_reset(String::from_str("\x1b[8m"), self.as_str())
    }

    fn striketrough(&self) -> (r: String) {
        wrap_reset(String::from_str("\x1b[9m"), self.as_str())
    }
}

} // verus!
