//!
//! Output formatting is configured through the [`PrintConfig`] structure.
//!

use vstd::prelude::*;

use crate::style::{painted, str_equals, Style};

verus! {

/// Configuration option controlling when output styling is used
#[derive(Clone, Copy, Debug, PartialEq, Eq, Structural)]
pub enum StyleWhen {
    /// Never style output
    Never,
    /// Always style output
    Always,
    /// Style output only when printing to a TTY
    Tty,
}

/// Enumeration of output kinds
///
/// Standard output is treated differently because we can query
/// whether it is a TTY or not.
#[derive(Clone, Copy, Debug, PartialEq, Eq, Structural)]
pub enum OutputKind {
    /// The program's standard output
    Stdout,
    /// The actual output is not known
    Unknown,
}

/// Structure controlling the print output formatting
#[derive(Clone, Debug, PartialEq)]
pub struct PrintConfig {
    /// Maximum recursion depth when printing
    ///
    /// The default is `u32::MAX`, i.e. there is in effect no recursion limit.
    pub depth: u32,
    /// Indentation size. The default value is 3.
    pub indent: usize,
    /// Padding size. The default value is 1.
    pub padding: usize,
    /// Control when output is styled.
    pub styled: StyleWhen,
    /// Characters used to print indentation lines or "branches" of the tree
    pub characters: IndentChars,
    /// ANSI style used for printing the indentation lines ("branches")
    pub branch: Style,
    /// ANSI style used for printing the item text ("leaves")
    pub leaf: Style,
}

/// Set of characters use to draw indentation lines (branches)
#[derive(Clone, Debug, PartialEq, Eq)]
pub struct IndentChars {
    /// Character for pointing down and right (`├`).
    pub down_and_right: String,
    /// Character for pointing straight down (`|`).
    pub down: String,
    /// Character for turning from down to right (`└`).
    pub turn_right: String,
    /// Character for pointing right (`─`).
    pub right: String,
    /// Empty character (` `).
    pub empty: String,
}

/// Set of characters use to draw indentation lines (branches)
#[derive(Clone, Copy, Debug, PartialEq, Eq)]
pub struct StaticIndentChars {
    /// Character for pointing down and right (`├`).
    pub down_and_right: &'static str,
    /// Character for pointing straight down (`|`).
    pub down: &'static str,
    /// Character for turning from down to right (`└`).
    pub turn_right: &'static str,
    /// Character for pointing right (`─`).
    pub right: &'static str,
    /// Empty character (` `).
    pub empty: &'static str,
}


/// The views of a set of indentation characters, in the order of its fields:
/// down and right, down, turn right, right, empty.
pub type Glyphs = (Seq<char>, Seq<char>, Seq<char>, Seq<char>, Seq<char>);

impl View for IndentChars {
    type V = Glyphs;

    open spec fn view(&self) -> Glyphs {
        (self.down_and_right@, self.down@, self.turn_right@, self.right@, self.empty@)
    }
}

impl View for StaticIndentChars {
    type V = Glyphs;

    open spec fn view(&self) -> Glyphs {
        (self.down_and_right@, self.down@, self.turn_right@, self.right@, self.empty@)
    }
}

impl StaticIndentChars {
    /// ASCII indentation characters, using a tick (`` ` ``) for turning right.
    ///
    /// These are the characters of the Linux command `tree --charset=ascii`.
    pub open spec fn ascii_tick_spec() -> StaticIndentChars {
        StaticIndentChars { down_and_right: "|", down: "|", turn_right: "`", right: "-", empty: " " }
    }

    /// ASCII indentation characters, using a tick (`` ` ``) for turning right.
    ///
    /// These are the characters of the Linux command `tree --charset=ascii`.
    pub fn ascii_tick() -> (r: StaticIndentChars)
        ensures
            r == StaticIndentChars::ascii_tick_spec(),
    {
        StaticIndentChars { down_and_right: "|", down: "|", turn_right: "`", right: "-", empty: " " }
    }

    /// ASCII indentation characters, using a plus (`+`) for turning right.
    pub open spec fn ascii_plus_spec() -> StaticIndentChars {
        StaticIndentChars { down_and_right: "+", down: "|", turn_right: "+", right: "-", empty: " " }
    }

    /// ASCII indentation characters, using a plus (`+`) for turning right.
    pub fn ascii_plus() -> (r: StaticIndentChars)
        ensures
            r == StaticIndentChars::ascii_plus_spec(),
    {
        StaticIndentChars { down_and_right: "+", down: "|", turn_right: "+", right: "-", empty: " " }
    }

    /// UTF-8 indentation characters, using regular box-drawing characters.
    ///
    /// These are the characters of the Linux command `tree`.
    pub open spec fn utf_spec() -> StaticIndentChars {
        StaticIndentChars { down_and_right: "├", down: "│", turn_right: "└", right: "─", empty: " " }
    }

    /// UTF-8 indentation characters, using regular box-drawing characters.
    ///
    /// These are the characters of the Linux command `tree`.
    pub fn utf() -> (r: StaticIndentChars)
        ensures
            r == StaticIndentChars::utf_spec(),
    {
        StaticIndentChars { down_and_right: "├", down: "│", turn_right: "└", right: "─", empty: " " }
    }

    /// UTF-8 indentation characters, using double box-drawing characters.
    pub open spec fn utf_double_spec() -> StaticIndentChars {
        StaticIndentChars { down_and_right: "╠", down: "║", turn_right: "╚", right: "═", empty: " " }
    }

    /// UTF-8 indentation characters, using double box-drawing characters.
    pub fn utf_double() -> (r: StaticIndentChars)
        ensures
            r == StaticIndentChars::utf_double_spec(),
    {
        StaticIndentChars { down_and_right: "╠", down: "║", turn_right: "╚", right: "═", empty: " " }
    }

    /// UTF-8 indentation characters, using heavy box-drawing characters.
    pub open spec fn utf_bold_spec() -> StaticIndentChars {
        StaticIndentChars { down_and_right: "┣", down: "┃", turn_right: "┗", right: "━", empty: " " }
    }

    /// UTF-8 indentation characters, using heavy box-drawing characters.
    pub fn utf_bold() -> (r: StaticIndentChars)
        ensures
            r == StaticIndentChars::utf_bold_spec(),
    {
        StaticIndentChars { down_and_right: "┣", down: "┃", turn_right: "┗", right: "━", empty: " " }
    }

    /// UTF-8 indentation characters, using dashed box-drawing characters.
    pub open spec fn utf_dashed_spec() -> StaticIndentChars {
        StaticIndentChars { down_and_right: "├", down: "┆", turn_right: "└", right: "╌", empty: " " }
    }

    /// UTF-8 indentation characters, using dashed box-drawing characters.
    pub fn utf_dashed() -> (r: StaticIndentChars)
        ensures
            r == StaticIndentChars::utf_dashed_spec(),
    {
        StaticIndentChars { down_and_right: "├", down: "┆", turn_right: "└", right: "╌", empty: " " }
    }

    /// The set of characters that a name denotes: "utf", "ascii" (or "ascii-tick"),
    /// "ascii-plus", "utf-bold", "utf-dashed" or "utf-double".
    pub open spec fn named(name: Seq<char>) -> Option<StaticIndentChars> {
        if name == "utf"@ {
            Some(StaticIndentChars::utf_spec())
        } else if name == "ascii"@ || name == "ascii-tick"@ {
            Some(StaticIndentChars::ascii_tick_spec())
        } else if name == "ascii-plus"@ {
            Some(StaticIndentChars::ascii_plus_spec())
        } else if name == "utf-bold"@ {
            Some(StaticIndentChars::utf_bold_spec())
        } else if name == "utf-dashed"@ {
            Some(StaticIndentChars::utf_dashed_spec())
        } else if name == "utf-double"@ {
            Some(StaticIndentChars::utf_double_spec())
        } else {
            None
        }
    }
}

/// Relies on `atty::is(Stream::Stdout)`: whether standard output is a terminal,
/// which depends on the process's surroundings, so nothing is promised of it.
#[verifier::external_body]
fn stdout_is_tty() -> (r: bool) {
    atty::is(atty::Stream::Stdout)
}

impl Default for PrintConfig {
    fn default() -> (r: PrintConfig)
        ensures
            r.depth == u32::MAX,
            r.indent == 3,
            r.padding == 1,
            r.styled == StyleWhen::Tty,
            r.characters@ == StaticIndentChars::utf_spec()@,
            r.branch == (Style { dimmed: true, ..Style::plain() }),
            r.leaf == Style::plain(),
    {
        let mut branch = Style::default();
        branch.dimmed = true;
        PrintConfig {
            depth: u32::MAX,
            indent: 3,
            padding: 1,
            characters: IndentChars::from_static(StaticIndentChars::utf()),
            branch,
            leaf: Style::default(),
            styled: StyleWhen::Tty,
        }
    }
}

impl PrintConfig {
    /// Create a default `PrintConfig` for printing to standard output
    ///
    /// The branches are dimmed when the output is styled, which by default
    /// happens only on a terminal.
    pub fn for_stdout() -> (r: PrintConfig)
        ensures
            r.depth == u32::MAX,
            r.indent == 3,
            r.padding == 1,
            r.styled == StyleWhen::Tty,
            r.characters@ == StaticIndentChars::utf_spec()@,
            r.branch == (Style { dimmed: true, ..Style::plain() }),
            r.leaf == Style::plain(),
    {
        PrintConfig::default()
    }

    /// Checks if output to a writer should be styled
    ///
    /// `Always` styles every output and `Never` none; `Tty` styles standard output
    /// when it is a terminal, and nothing else.
    pub fn should_style_output(&self, output_kind: OutputKind) -> (r: bool)
        ensures
            self.styled == StyleWhen::Always ==> r,
            self.styled == StyleWhen::Never ==> !r,
            output_kind == OutputKind::Unknown ==> (r <==> self.styled == StyleWhen::Always),
    {
        match (self.styled, output_kind) {
            (StyleWhen::Always, _) => true,
            (StyleWhen::Tty, OutputKind::Stdout) => stdout_is_tty(),
            _ => false,
        }
    }

    /// Formats `input` according to the branch style
    pub fn paint_branch(&self, input: &str) -> (r: String)
        ensures
            self.branch.is_resolved() ==> r@ == painted(self.branch, input@),
            self.branch.paints_nothing() ==> r@ == input@,
    {
        self.branch.paint(input)
    }

    /// Formats `input` according to the leaf style
    pub fn paint_leaf(&self, input: &str) -> (r: String)
        ensures
            self.leaf.is_resolved() ==> r@ == painted(self.leaf, input@),
            self.leaf.paints_nothing() ==> r@ == input@,
    {
        self.leaf.paint(input)
    }
}

/// The empty character that a set of indentation characters has when none is given.
pub fn get_default_empty_string() -> (r: String)
    ensures
        r@ == " "@,
{
    " ".to_owned()
}

impl IndentChars {
    /// Owned copies of static indentation characters.
    pub fn from_static(s: StaticIndentChars) -> (r: IndentChars)
        ensures
            r@ == s@,
    {
        IndentChars {
            down_and_right: s.down_and_right.to_owned(),
            down: s.down.to_owned(),
            turn_right: s.turn_right.to_owned(),
            right: s.right.to_owned(),
            empty: s.empty.to_owned(),
        }
    }

    /// The set of characters of a given name (see `StaticIndentChars::named`).
    pub fn by_name(s: &str) -> (r: Option<IndentChars>)
        ensures
            match StaticIndentChars::named(s@) {
                Some(c) => r matches Some(x) && x@ == c@,
                None => r is None,
            },
    {
        let name = s.to_owned();
        let found = if str_equals(&name, "utf") {
            Some(StaticIndentChars::utf())
        } else if str_equals(&name, "ascii") || str_equals(&name, "ascii-tick") {
            Some(StaticIndentChars::ascii_tick())
        } else if str_equals(&name, "ascii-plus") {
            Some(StaticIndentChars::ascii_plus())
        } else if str_equals(&name, "utf-bold") {
            Some(StaticIndentChars::utf_bold())
        } else if str_equals(&name, "utf-dashed") {
            Some(StaticIndentChars::utf_dashed())
        } else if str_equals(&name, "utf-double") {
            Some(StaticIndentChars::utf_double())
        } else {
            None
        };
        match found {
            Some(c) => Some(IndentChars::from_static(c)),
            None => None,
        }
    }
}

// Spec code cannot build a `String` of a given view, so `from_spec` is left
// open; `from` states the views of its result instead.
impl vstd::std_specs::convert::FromSpecImpl<StaticIndentChars> for IndentChars {
    open spec fn obeys_from_spec() -> bool {
        false
    }

    open spec fn from_spec(s: StaticIndentChars) -> IndentChars {
        arbitrary()
    }
}

impl From<StaticIndentChars> for IndentChars {
    fn from(s: StaticIndentChars) -> (r: IndentChars)
        ensures
            r@ == s@,
    {
        IndentChars::from_static(s)
    }
}

impl std::str::FromStr for IndentChars {
    type Err = ();

    fn from_str(s: &str) -> (r: Result<Self, Self::Err>)
        ensures
            match StaticIndentChars::named(s@) {
                Some(c) => r matches Ok(x) && x@ == c@,
                None => r is Err,
            },
    {
        match IndentChars::by_name(s) {
            Some(c) => Ok(c),
            None => Err(()),
        }
    }
}

} // verus!
