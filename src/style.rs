use vstd::prelude::*;
use vstd::string::{StrSliceExecFns, StringExecFns};
use ansi_term::Colour as AnsiColour;
use ansi_term::Style as AnsiStyle;

verus! {

#[verifier::external_type_specification]
pub struct ExColour(AnsiColour);

#[verifier::external_type_specification]
pub struct ExAnsiStyle(AnsiStyle);

/// A colour is one specific type of ANSI escape code, and can refer
/// to either the foreground or background colour.
#[derive(Clone, Debug, PartialEq, Eq)]
pub enum Color {
    /// Color #0 (foreground code `30`, background code `40`).
    Black,
    /// Color #1 (foreground code `31`, background code `41`).
    Red,
    /// Color #2 (foreground code `32`, background code `42`).
    Green,
    /// Color #3 (foreground code `33`, background code `43`).
    Yellow,
    /// Color #4 (foreground code `34`, background code `44`).
    Blue,
    /// Color #5 (foreground code `35`, background code `45`).
    Purple,
    /// Color #6 (foreground code `36`, background code `46`).
    Cyan,
    /// Color #7 (foreground code `37`, background code `47`).
    White,
    /// A colour number from 0 to 255, for use in 256-colour terminal environments.
    Fixed(u8),
    /// A 24-bit RGB color.
    RGB(u8, u8, u8),
    /// A named color: one of the eight ANSI names, a web color name, or a hex code
    /// such as `#4682B4`.
    Named(String),
}

/// Terminal output style
#[derive(Clone, Debug, PartialEq, Eq)]
pub struct Style {
    /// The style's foreground colour, if it has one.
    pub foreground: Option<Color>,
    /// The style's background colour, if it has one.
    pub background: Option<Color>,
    /// Whether this style is bold.
    pub bold: bool,
    /// Whether this style is dimmed.
    pub dimmed: bool,
    /// Whether this style is italic.
    pub italic: bool,
    /// Whether this style is underlined.
    pub underline: bool,
    /// Whether this style is blinking.
    pub blink: bool,
    /// Whether this style has reverse colours.
    pub reverse: bool,
    /// Whether this style is hidden.
    pub hidden: bool,
    /// Whether this style is struckthrough.
    pub strikethrough: bool,
}

/// The colour that one of the eight ANSI colour names stands for.
pub open spec fn ansi_named(n: Seq<char>) -> Option<Color> {
    if n == "black"@ {
        Some(Color::Black)
    } else if n == "red"@ {
        Some(Color::Red)
    } else if n == "green"@ {
        Some(Color::Green)
    } else if n == "yellow"@ {
        Some(Color::Yellow)
    } else if n == "blue"@ {
        Some(Color::Blue)
    } else if n == "purple"@ {
        Some(Color::Purple)
    } else if n == "cyan"@ {
        Some(Color::Cyan)
    } else if n == "white"@ {
        Some(Color::White)
    } else {
        None
    }
}

/// The colour of a name that is not one of the eight ANSI names, where tint's
/// colour table gave `found`: the table's colour, else the colour of the name
/// read as a hex code, else none.
pub open spec fn unlisted_color(n: Seq<char>, found: Option<(u8, u8, u8)>) -> Option<Color> {
    match found {
        Some(t) => Some(Color::RGB(t.0, t.1, t.2)),
        None => if valid_hex(n) {
            Some(Color::RGB(hex_rgb(n).0, hex_rgb(n).1, hex_rgb(n).2))
        } else {
            None
        },
    }
}

/// The colour of a name that is not one of the eight ANSI names, given what
/// tint's colour table gave for it.
pub fn resolve_unlisted(n: &str, found: Option<(u8, u8, u8)>) -> (r: Option<Color>)
    ensures
        r == unlisted_color(n@, found),
{
    match found {
        Some((r, g, b)) => Some(Color::RGB(r, g, b)),
        None => {
            if is_hex_code(n) {
                let (r, g, b) = rgb_from_hex(n);
                Some(Color::RGB(r, g, b))
            } else {
                None
            }
        },
    }
}

/// What resolving `c` may give: itself where it is not named; the colour of an
/// ANSI name; else the colour of the name for some answer of tint's table.
pub open spec fn color_resolves_to(c: Color, r: Option<Color>) -> bool {
    match c {
        Color::Named(n) => match ansi_named(n@) {
            Some(a) => r == Some(a),
            None => exists|found: Option<(u8, u8, u8)>| r == unlisted_color(n@, found),
        },
        _ => r == Some(c),
    }
}

/// What resolving an optional colour may give: nothing for nothing.
pub open spec fn option_resolves_to(c: Option<Color>, r: Option<Color>) -> bool {
    match c {
        Some(c) => color_resolves_to(c, r),
        None => r is None,
    }
}

pub open spec fn is_hex_digit(c: char) -> bool {
    ('0' <= c && c <= '9') || ('a' <= c && c <= 'f') || ('A' <= c && c <= 'F')
}

/// Where the six hex digits of a colour code start: after a leading `#`, if any.
pub open spec fn hex_start(s: Seq<char>) -> int {
    if s.len() > 0 && s[0] == '#' {
        1
    } else {
        0
    }
}

/// A hex colour code: an optional `#`, then (at least) six hex digits.
pub open spec fn valid_hex(s: Seq<char>) -> bool {
    &&& s.len() >= hex_start(s) + 6
    &&& forall|i: int| hex_start(s) <= i < hex_start(s) + 6 ==> is_hex_digit(#[trigger] s[i])
}

/// The red, green and blue components that a hex colour code denotes.
pub uninterp spec fn hex_rgb(s: Seq<char>) -> (u8, u8, u8);

/// Relies on `tint::Color::from_hex` and `tint::Color::to_rgb255`: the components
/// that the code's six hex digits give. It reads nothing but its argument.
#[verifier::external_body]
fn rgb_from_hex(hex: &str) -> (r: (u8, u8, u8))
    requires
        valid_hex(hex@),
    ensures
        r == hex_rgb(hex@),
{
    tint::Color::from_hex(hex).to_rgb255()
}

/// Relies on `tint::Color::name` and `tint::Color::to_rgb255`: looks the name up in
/// tint's process-wide colour table, which can be extended at run time, so
/// nothing is promised of the outcome.
#[verifier::external_body]
fn rgb_from_color_table(name: &str) -> (r: Option<(u8, u8, u8)>) {
    match tint::Color::name(name) {
        Some(c) => Some(c.to_rgb255()),
        None => None,
    }
}

/// Relies on `AnsiStyle::paint` and the `Display` of what it returns: the
/// text between the style's escape codes, or the text alone when the style sets
/// nothing (ansi_term writes no prefix and no suffix for a plain style). Else the
/// prefix is `ESC [`, the codes and `m`, and the suffix is the reset `ESC [0m`.
#[verifier::external_body]
fn paint_ansi(style: &AnsiStyle, text: &str) -> (r: String)
    ensures
        r@ == ansi_painted(*style, text@),
        ansi_is_plain(*style) ==> r@ == text@,
        !ansi_is_plain(*style) ==> exists|codes: Seq<char>| r@ == escaped(codes, text@),
{
    style.paint(text).to_string()
}

/// `text` between an escape sequence with the given codes and the reset sequence.
pub open spec fn escaped(codes: Seq<char>, text: Seq<char>) -> Seq<char> {
    seq!['\x1b', '['] + codes + seq!['m'] + text + seq!['\x1b', '[', '0', 'm']
}

/// What `ansi_term` prints for `text` in the given style.
pub uninterp spec fn ansi_painted(style: AnsiStyle, text: Seq<char>) -> Seq<char>;

pub open spec fn ansi_is_plain(s: AnsiStyle) -> bool {
    &&& s.foreground is None
    &&& s.background is None
    &&& !s.is_bold
    &&& !s.is_dimmed
    &&& !s.is_italic
    &&& !s.is_underline
    &&& !s.is_blink
    &&& !s.is_reverse
    &&& !s.is_hidden
    &&& !s.is_strikethrough
}

pub(crate) fn str_equals(a: &String, b: &str) -> (r: bool)
    ensures
        r == (a@ == b@),
{
    let s = String::from_str(b);
    *a == s
}

fn is_hex_code(s: &str) -> (r: bool)
    ensures
        r == valid_hex(s@),
{
    let len = s.unicode_len();
    let start: usize = if len > 0 && s.get_char(0) == '#' {
        1
    } else {
        0
    };
    if len < start + 6 {
        return false;
    }
    let mut i: usize = start;
    while i < start + 6
        invariant
            start == hex_start(s@),
            len == s@.len(),
            start <= i <= start + 6,
            start + 6 <= len,
            forall|j: int| start <= j < i ==> is_hex_digit(#[trigger] s@[j]),
        decreases start + 6 - i,
    {
        let c = s.get_char(i);
        if !(('0' <= c && c <= '9') || ('a' <= c && c <= 'f') || ('A' <= c && c <= 'F')) {
            return false;
        }
        i += 1;
    }
    true
}

impl Default for Color {
    fn default() -> (r: Color)
        ensures
            r == Color::Black,
    {
        Color::Black
    }
}

impl Color {
    /// A colour that stands for itself, with no name left to look up.
    pub open spec fn is_resolved(&self) -> bool {
        !(self is Named)
    }

    /// The ANSI colour of a resolved colour.
    pub open spec fn ansi_spec(&self) -> AnsiColour {
        match self {
            Color::Black => AnsiColour::Black,
            Color::Red => AnsiColour::Red,
            Color::Green => AnsiColour::Green,
            Color::Yellow => AnsiColour::Yellow,
            Color::Blue => AnsiColour::Blue,
            Color::Purple => AnsiColour::Purple,
            Color::Cyan => AnsiColour::Cyan,
            Color::White => AnsiColour::White,
            Color::Fixed(f) => AnsiColour::Fixed(*f),
            Color::RGB(r, g, b) => AnsiColour::RGB(*r, *g, *b),
            Color::Named(_) => AnsiColour::Black,
        }
    }

    /// Resolves a named colour.
    ///
    /// The eight ANSI names take precedence over web colour names, because only
    /// ANSI colours can be dimmed. Other names are looked up in tint's colour
    /// table; a name that is not there is read as a hex code. A name that is
    /// neither gives no colour. A colour that is not named stays as it is.
    pub fn resolve(&self) -> (r: Option<Color>)
        ensures
            color_resolves_to(*self, r),
            r matches Some(c) ==> c.is_resolved(),
    {
        match self {
            Color::Black => Some(Color::Black),
            Color::Red => Some(Color::Red),
            Color::Green => Some(Color::Green),
            Color::Yellow => Some(Color::Yellow),
            Color::Blue => Some(Color::Blue),
            Color::Purple => Some(Color::Purple),
            Color::Cyan => Some(Color::Cyan),
            Color::White => Some(Color::White),
            Color::Fixed(f) => Some(Color::Fixed(*f)),
            Color::RGB(r, g, b) => Some(Color::RGB(*r, *g, *b)),
            Color::Named(n) => {
                if str_equals(n, "black") {
                    Some(Color::Black)
                } else if str_equals(n, "red") {
                    Some(Color::Red)
                } else if str_equals(n, "green") {
                    Some(Color::Green)
                } else if str_equals(n, "yellow") {
                    Some(Color::Yellow)
                } else if str_equals(n, "blue") {
                    Some(Color::Blue)
                } else if str_equals(n, "purple") {
                    Some(Color::Purple)
                } else if str_equals(n, "cyan") {
                    Some(Color::Cyan)
                } else if str_equals(n, "white") {
                    Some(Color::White)
                } else {
                    let found = rgb_from_color_table(n.as_str());
                    resolve_unlisted(n.as_str(), found)
                }
            },
        }
    }

    /// The ANSI colour that a resolved colour stands for.
    pub fn to_ansi_color(&self) -> (r: AnsiColour)
        requires
            self.is_resolved(),
        ensures
            r == self.ansi_spec(),
    {
        match self {
            Color::Black => AnsiColour::Black,
            Color::Red => AnsiColour::Red,
            Color::Green => AnsiColour::Green,
            Color::Yellow => AnsiColour::Yellow,
            Color::Blue => AnsiColour::Blue,
            Color::Purple => AnsiColour::Purple,
            Color::Cyan => AnsiColour::Cyan,
            Color::White => AnsiColour::White,
            Color::Fixed(f) => AnsiColour::Fixed(*f),
            Color::RGB(r, g, b) => AnsiColour::RGB(*r, *g, *b),
            Color::Named(_) => {
                proof {
                    assert(false);
                }
                AnsiColour::Black
            },
        }
    }
}

/// The text as it is printed in a resolved style: unchanged where the style sets
/// nothing that painting uses, else wrapped in the style's escape codes.
pub open spec fn painted(style: Style, text: Seq<char>) -> Seq<char> {
    if style.paints_nothing() {
        text
    } else {
        ansi_painted(style.ansi_spec(), text)
    }
}

impl Default for Style {
    fn default() -> (r: Style)
        ensures
            r == Style::plain(),
    {
        Style {
            foreground: None,
            background: None,
            bold: false,
            dimmed: false,
            italic: false,
            underline: false,
            blink: false,
            reverse: false,
            hidden: false,
            strikethrough: false,
        }
    }
}

impl Style {
    /// The style with no colour and no attribute set.
    pub open spec fn plain() -> Style {
        Style {
            foreground: None,
            background: None,
            bold: false,
            dimmed: false,
            italic: false,
            underline: false,
            blink: false,
            reverse: false,
            hidden: false,
            strikethrough: false,
        }
    }

    /// Painting reads the colours and the bold, dimmed, italic and underline
    /// attributes; this style sets none of them.
    pub open spec fn paints_nothing(&self) -> bool {
        &&& self.foreground is None
        &&& self.background is None
        &&& !self.bold
        &&& !self.dimmed
        &&& !self.italic
        &&& !self.underline
    }

    /// No colour of this style is a name left to look up.
    pub open spec fn is_resolved(&self) -> bool {
        &&& (self.foreground matches Some(c) ==> c.is_resolved())
        &&& (self.background matches Some(c) ==> c.is_resolved())
    }

    /// The `ansi_term` style that painting uses for a resolved style.
    pub open spec fn ansi_spec(&self) -> AnsiStyle {
        AnsiStyle {
            foreground: match self.foreground {
                Some(c) => Some(c.ansi_spec()),
                None => None,
            },
            background: match self.background {
                Some(c) => Some(c.ansi_spec()),
                None => None,
            },
            is_bold: self.bold,
            is_dimmed: self.dimmed,
            is_italic: self.italic,
            is_underline: self.underline,
            is_blink: false,
            is_reverse: false,
            is_hidden: false,
            is_strikethrough: false,
        }
    }

    /// What resolving this style may give: a resolved style with the same
    /// attributes, each colour resolved (see `Color::resolve`) or dropped.
    pub open spec fn resolves_to(&self, r: Style) -> bool {
        &&& r.is_resolved()
        &&& option_resolves_to(self.foreground, r.foreground)
        &&& option_resolves_to(self.background, r.background)
        &&& r.bold == self.bold
        &&& r.dimmed == self.dimmed
        &&& r.italic == self.italic
        &&& r.underline == self.underline
        &&& r.blink == self.blink
        &&& r.reverse == self.reverse
        &&& r.hidden == self.hidden
        &&& r.strikethrough == self.strikethrough
    }

    /// This style with its colours resolved (see `Color::resolve`); a colour that
    /// does not resolve is dropped.
    pub fn resolved(&self) -> (r: Style)
        ensures
            self.resolves_to(r),
            self.is_resolved() ==> r == *self,
            r.bold == self.bold,
            r.dimmed == self.dimmed,
            r.italic == self.italic,
            r.underline == self.underline,
            r.blink == self.blink,
            r.reverse == self.reverse,
            r.hidden == self.hidden,
            r.strikethrough == self.strikethrough,
    {
        let foreground = match &self.foreground {
            Some(c) => c.resolve(),
            None => None,
        };
        let background = match &self.background {
            Some(c) => c.resolve(),
            None => None,
        };
        Style {
            foreground,
            background,
            bold: self.bold,
            dimmed: self.dimmed,
            italic: self.italic,
            underline: self.underline,
            blink: self.blink,
            reverse: self.reverse,
            hidden: self.hidden,
            strikethrough: self.strikethrough,
        }
    }

    /// The `ansi_term` style of a resolved style.
    fn to_ansi(&self) -> (r: AnsiStyle)
        requires
            self.is_resolved(),
        ensures
            r == self.ansi_spec(),
    {
        let foreground = match &self.foreground {
            Some(c) => Some(c.to_ansi_color()),
            None => None,
        };
        let background = match &self.background {
            Some(c) => Some(c.to_ansi_color()),
            None => None,
        };
        AnsiStyle {
            foreground,
            background,
            is_bold: self.bold,
            is_dimmed: self.dimmed,
            is_italic: self.italic,
            is_underline: self.underline,
            is_blink: false,
            is_reverse: false,
            is_hidden: false,
            is_strikethrough: false,
        }
    }

    /// Paints `input` according to this style.
    ///
    /// Named colours are resolved first; the text comes back unchanged where the
    /// style sets nothing that painting uses.
    pub fn paint(&self, input: &str) -> (r: String)
        ensures
            self.is_resolved() ==> r@ == painted(*self, input@),
            self.paints_nothing() ==> r@ == input@,
            self.is_resolved() && !self.paints_nothing() ==> exists|codes: Seq<char>|
                r@ == escaped(codes, input@),
    {
        let style = self.resolved();
        let ansi = style.to_ansi();
        paint_ansi(&ansi, input)
    }
}

} // verus!
