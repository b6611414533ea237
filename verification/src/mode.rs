//! The mode of an entry: how the entry is tagged in the journal.

use vstd::prelude::*;
use vstd::string::*;

verus! {

/// How an entry is annotated. A context entry carries the local date and
/// time at which it was written; an information entry does not.
#[derive(Clone, Copy, Debug, PartialEq, Eq, Structural)]
pub enum Mode {
    Information,
    Context,
}

impl Mode {
    /// The mode that a typed character selects: `C` or `c` selects context,
    /// every other character selects information.
    pub open spec fn of_char(c: char) -> Mode {
        if c == 'C' || c == 'c' {
            Mode::Context
        } else {
            Mode::Information
        }
    }

    /// The mode that a line of input selects: that of its first character,
    /// and information when the line holds no character at all.
    pub open spec fn of_line(line: Seq<char>) -> Mode {
        if line.len() == 0 {
            Mode::Information
        } else {
            Mode::of_char(line[0])
        }
    }

    /// The bracketed one-letter code that starts every entry of this mode.
    pub open spec fn shorthand_text(self) -> Seq<char> {
        match self {
            Mode::Information => "[I]"@,
            Mode::Context => "[C]"@,
        }
    }

    /// The name of the mode, its selecting letter in brackets.
    pub open spec fn label_text(self) -> Seq<char> {
        match self {
            Mode::Information => "[I]nformation"@,
            Mode::Context => "[C]ontext"@,
        }
    }

    /// The name of the mode as the selection prompt shows it: the mode that
    /// is chosen when nothing else is typed carries a star.
    pub open spec fn starred_text(self) -> Seq<char> {
        match self {
            Mode::Information => self.label_text() + "*"@,
            Mode::Context => self.label_text(),
        }
    }

    /// Selects a mode by one typed character. Total: no character is rejected.
    pub fn from_char(c: char) -> (mode: Mode)
        ensures
            mode == Mode::of_char(c),
    {
        match c {
            'I' | 'i' => Mode::Information,
            'C' | 'c' => Mode::Context,
            _ => Mode::default(),
        }
    }

    /// Selects a mode by a line of input, of which only the first character
    /// counts. An empty line selects the default.
    pub fn from_line(line: &str) -> (mode: Mode)
        ensures
            mode == Mode::of_line(line@),
    {
        if line.is_empty() {
            Mode::default()
        } else {
            Mode::from_char(line.get_char(0))
        }
    }

    /// The bracketed code of the mode, `[I]` or `[C]`.
    pub fn shorthand(&self) -> (text: String)
        ensures
            text@ == self.shorthand_text(),
    {
        match self {
            Mode::Information => String::from_str("[I]"),
            Mode::Context => String::from_str("[C]"),
        }
    }

    /// The name of the mode, `[I]nformation` or `[C]ontext`.
    pub fn label(&self) -> (text: String)
        ensures
            text@ == self.label_text(),
    {
        match self {
            Mode::Information => String::from_str("[I]nformation"),
            Mode::Context => String::from_str("[C]ontext"),
        }
    }

    /// The name of the mode, followed by `*` when it is the default mode.
    pub fn starred(&self) -> (text: String)
        ensures
            text@ == self.starred_text(),
    {
        let mut text = self.label();
        if *self == Mode::default() {
            text.append("*");
        }
        text
    }
}

/// The letter inside the shorthand of a mode selects that mode, and the
/// shorthand is that letter in square brackets.
pub proof fn lemma_shorthand_selects_mode(mode: Mode)
    ensures
        mode.shorthand_text().len() == 3,
        mode.shorthand_text()[0] == '[',
        mode.shorthand_text()[2] == ']',
        Mode::of_char(mode.shorthand_text()[1]) == mode,
{
    reveal_strlit("[I]");
    reveal_strlit("[C]");
}

impl Default for Mode {
    /// The default mode is information.
    fn default() -> (mode: Mode)
        ensures
            mode == Mode::Information,
    {
        Mode::Information
    }
}

} // verus!
