//! The interactive writing session: a machine of two states that is fed one
//! typed line at a time and hands back the entries to append.

use crate::clock::{ClockReading, Moment};
use crate::entry::{
    content_of_line, content_text, entry_text, format_entry, lemma_entry_one_line, stamp_entry,
};
use crate::contents::{appended_all, lemma_append_only};
use crate::mode::Mode;
use crate::text::{begins_with, is_one_line, line_count};
use vstd::prelude::*;
use vstd::string::*;

verus! {

/// The state of a writing session. A session asks for a mode, then for the
/// content, then for a mode again, without end.
#[derive(Debug, PartialEq, Eq)]
pub enum Session {
    /// The next line selects the mode of the next entry. `previous` is the
    /// content of the entry written last, empty before the first one.
    AwaitingMode { previous: String },
    /// The next line is the content of an entry in `mode`.
    AwaitingContent { mode: Mode },
}

/// What a session is in contracts: its state, with text in place of strings.
pub enum SessionState {
    AwaitingMode { previous: Seq<char> },
    AwaitingContent { mode: Mode },
}

impl View for Session {
    type V = SessionState;

    open spec fn view(&self) -> SessionState {
        match self {
            Session::AwaitingMode { previous } => SessionState::AwaitingMode {
                previous: previous@,
            },
            Session::AwaitingContent { mode } => SessionState::AwaitingContent { mode: *mode },
        }
    }
}

/// The question that asks for a mode. It names both modes, the default one
/// starred.
pub open spec fn mode_prompt_text() -> Seq<char> {
    "What do you want to do? "@ + Mode::Context.starred_text() + " "@
        + Mode::Information.starred_text() + ": "@
}

impl SessionState {
    /// The state in which every session starts.
    pub open spec fn initial() -> SessionState {
        SessionState::AwaitingMode { previous: Seq::empty() }
    }

    /// The state after `line` was typed.
    pub open spec fn next(self, line: Seq<char>) -> SessionState {
        match self {
            SessionState::AwaitingMode { .. } => SessionState::AwaitingContent {
                mode: Mode::of_line(line),
            },
            SessionState::AwaitingContent { .. } => SessionState::AwaitingMode {
                previous: content_text(line),
            },
        }
    }

    /// The entry that `line`, typed at the moment `at`, completes, if it
    /// completes one.
    pub open spec fn entry(self, line: Seq<char>, at: Moment) -> Option<Seq<char>> {
        match self {
            SessionState::AwaitingMode { .. } => None,
            SessionState::AwaitingContent { mode } => Some(
                entry_text(mode, content_text(line), at),
            ),
        }
    }

    /// The state after each of `lines` was typed, the first of them first.
    pub open spec fn after(self, lines: Seq<Seq<char>>) -> SessionState
        decreases lines.len(),
    {
        if lines.len() == 0 {
            self
        } else {
            self.after(lines.drop_last()).next(lines.last())
        }
    }

    /// The entries that were completed while `lines` were typed, in the
    /// order in which they were completed. Line `i` was typed at the moment
    /// `clock[i]`.
    pub open spec fn entries(self, lines: Seq<Seq<char>>, clock: Seq<Moment>) -> Seq<Seq<char>>
        decreases lines.len(),
    {
        if lines.len() == 0 {
            Seq::empty()
        } else {
            let earlier = self.entries(lines.drop_last(), clock.drop_last());
            match self.after(lines.drop_last()).entry(lines.last(), clock.last()) {
                Some(entry) => earlier.push(entry),
                None => earlier,
            }
        }
    }

    /// What the terminal shows while the session waits in this state.
    pub open spec fn display(self) -> Seq<char> {
        match self {
            SessionState::AwaitingMode { previous } => previous + "\n"@ + mode_prompt_text(),
            SessionState::AwaitingContent { mode } => mode.shorthand_text() + ": "@,
        }
    }
}

impl Session {
    /// A session at its start: it waits for a mode, and no entry was written
    /// before.
    pub fn new() -> (session: Session)
        ensures
            session@ == SessionState::initial(),
    {
        Session::AwaitingMode { previous: String::new() }
    }

    /// Whether the session is at the start of a round, where the terminal is
    /// cleared before anything is shown.
    pub fn starts_round(&self) -> (starts: bool)
        ensures
            starts == (self@ is AwaitingMode),
    {
        match self {
            Session::AwaitingMode { .. } => true,
            Session::AwaitingContent { .. } => false,
        }
    }

    /// What to show before the next line is read. At the start of a round:
    /// the content written last on a line of its own, then the question for
    /// the mode. After that: the shorthand of the chosen mode, as a prompt for
    /// the content.
    pub fn display(&self) -> (text: String)
        ensures
            text@ == self@.display(),
    {
        match self {
            Session::AwaitingMode { previous } => {
                let mut text = previous.clone();
                text.append("\n");
                text.append("What do you want to do? ");
                text.append(Mode::Context.starred().as_str());
                text.append(" ");
                text.append(Mode::Information.starred().as_str());
                text.append(": ");
                proof {
                    let tail = mode_prompt_text();
                    assert(text@ =~= previous@ + "\n"@ + tail);
                }
                text
            },
            Session::AwaitingContent { mode } => {
                let mut text = mode.shorthand();
                text.append(": ");
                text
            },
        }
    }

    /// Feeds the session one typed line, read while the clock showed `now`.
    /// Returns the state after the line, and the entry to append to the
    /// journal if the line completed one.
    pub fn advance(self, line: &str, now: &ClockReading) -> (step: (Session, Option<String>))
        ensures
            step.0@ == self@.next(line@),
            match step.1 {
                Some(entry) => self@.entry(line@, now@) == Some(entry@),
                None => self@.entry(line@, now@) is None,
            },
    {
        match self {
            Session::AwaitingMode { .. } => {
                (Session::AwaitingContent { mode: Mode::from_line(line) }, None)
            },
            Session::AwaitingContent { mode } => {
                let content = content_of_line(line);
                let entry = format_entry(mode, content.as_str(), now);
                (Session::AwaitingMode { previous: content }, Some(entry))
            },
        }
    }

    /// Feeds the session one typed line, typed now. The clock is read only
    /// when the line completes a context entry.
    ///
    /// Reading the clock aborts the process where the system clock shows a
    /// time before 1970, or one past the last year that a reading can hold.
    /// Use `advance` with a reading of your own where that must not happen.
    pub fn accept(self, line: &str) -> (step: (Session, Option<String>))
        ensures
            step.0@ == self@.next(line@),
            exists|at: Moment|
                at.is_valid() && match step.1 {
                    Some(entry) => #[trigger] self@.entry(line@, at) == Some(entry@),
                    None => self@.entry(line@, at) is None,
                },
    {
        let ghost any = Moment { year: 1, month: 1, day: 1, hour: 0, minute: 0, second: 0 };
        match self {
            Session::AwaitingMode { .. } => {
                assert(any.is_valid() && self@.entry(line@, any) is None);
                (Session::AwaitingContent { mode: Mode::from_line(line) }, None)
            },
            Session::AwaitingContent { mode } => {
                let content = content_of_line(line);
                let entry = stamp_entry(mode, content.as_str());
                proof {
                    let at = if mode == Mode::Context {
                        choose|at: Moment|
                            at.is_valid() && entry@ == #[trigger] entry_text(mode, content@, at)
                    } else {
                        any
                    };
                    assert(at.is_valid() && self@.entry(line@, at) == Some(entry@));
                }
                (Session::AwaitingMode { previous: content }, Some(entry))
            },
        }
    }
}

/// Whether `line` is what a terminal hands over for one typed line: it holds
/// no newline but, at most, the one that ends it.
pub open spec fn is_typed_line(line: Seq<char>) -> bool {
    is_one_line(content_text(line))
}

/// A session works in rounds of two lines. Started where it waits for a mode
/// and fed whole rounds, it waits for a mode again, and it has completed one
/// entry for each round: the first line of the round chose its mode, the
/// second line gave its content and the moment of its timestamp.
pub proof fn lemma_rounds(state: SessionState, lines: Seq<Seq<char>>, clock: Seq<Moment>)
    requires
        state is AwaitingMode,
        lines.len() % 2 == 0,
        clock.len() == lines.len(),
    ensures
        state.after(lines) is AwaitingMode,
        state.entries(lines, clock).len() == lines.len() / 2,
        forall|i: int|
            0 <= i < lines.len() / 2 ==> #[trigger] state.entries(lines, clock)[i] == entry_text(
                Mode::of_line(lines[2 * i]),
                content_text(lines[2 * i + 1]),
                clock[2 * i + 1],
            ),
    decreases lines.len(),
{
    if lines.len() > 0 {
        let one_less = lines.drop_last();
        let two_less = one_less.drop_last();
        let clock_two_less = clock.drop_last().drop_last();
        lemma_rounds(state, two_less, clock_two_less);
        let n = lines.len() / 2;
        assert(state.after(one_less) == state.after(two_less).next(one_less.last()));
        assert(state.entries(one_less, clock.drop_last()) == state.entries(
            two_less,
            clock_two_less,
        ));
        assert forall|i: int| 0 <= i < n implies #[trigger] state.entries(lines, clock)[i]
            == entry_text(
            Mode::of_line(lines[2 * i]),
            content_text(lines[2 * i + 1]),
            clock[2 * i + 1],
        ) by {
            if i < n - 1 {
                assert(two_less[2 * i] == lines[2 * i]);
                assert(two_less[2 * i + 1] == lines[2 * i + 1]);
                assert(clock_two_less[2 * i + 1] == clock[2 * i + 1]);
            }
        }
    }
}

/// The journal under a session only grows, and by one line for each round.
/// When a session that waits for a mode is fed whole rounds of typed lines
/// and each completed entry is appended, the journal holds one line more for
/// each round, and it still begins with what it held after any number of
/// those rounds: with what it held before the first, too.
pub proof fn lemma_session_appends_lines(
    journal: Seq<char>,
    state: SessionState,
    lines: Seq<Seq<char>>,
    clock: Seq<Moment>,
    rounds: int,
)
    requires
        state is AwaitingMode,
        lines.len() % 2 == 0,
        clock.len() == lines.len(),
        forall|i: int| 0 <= i < lines.len() / 2 ==> is_typed_line(#[trigger] lines[2 * i + 1]),
        0 <= rounds <= lines.len() / 2,
    ensures
        line_count(appended_all(journal, state.entries(lines, clock))) == line_count(journal)
            + lines.len() / 2,
        begins_with(
            appended_all(journal, state.entries(lines, clock)),
            appended_all(
                journal,
                state.entries(lines.take(2 * rounds), clock.take(2 * rounds)),
            ),
        ),
        begins_with(appended_all(journal, state.entries(lines, clock)), journal),
{
    let entries = state.entries(lines, clock);
    let first_lines = lines.take(2 * rounds);
    let first_clock = clock.take(2 * rounds);
    let first_entries = state.entries(first_lines, first_clock);
    lemma_rounds(state, lines, clock);
    lemma_rounds(state, first_lines, first_clock);
    assert forall|i: int| 0 <= i < entries.len() implies is_one_line(#[trigger] entries[i]) by {
        assert(is_typed_line(lines[2 * i + 1]));
        lemma_entry_one_line(
            Mode::of_line(lines[2 * i]),
            content_text(lines[2 * i + 1]),
            clock[2 * i + 1],
        );
    }
    assert(first_entries =~= entries.take(rounds)) by {
        assert forall|i: int| 0 <= i < rounds implies first_entries[i] == entries[i] by {
            assert(first_lines[2 * i] == lines[2 * i]);
            assert(first_lines[2 * i + 1] == lines[2 * i + 1]);
            assert(first_clock[2 * i + 1] == clock[2 * i + 1]);
        }
    }
    lemma_append_only(journal, entries, rounds);
    lemma_append_only(journal, entries, 0);
    assert(entries.take(0) =~= Seq::<Seq<char>>::empty());
}

} // verus!
