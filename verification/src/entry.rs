//! The layout of one journal entry.

use crate::clock::{lemma_stamp_one_line, local_now, stamp_text, ClockReading, Moment};
use crate::mode::Mode;
use crate::text::{begins_with, is_one_line};
use vstd::prelude::*;
use vstd::string::*;

verus! {

/// The content that a typed line stands for: the line without the newline
/// that ends it. A line that does not end with a newline, as the last line of
/// an input that stops short, is its own content.
pub open spec fn content_text(line: Seq<char>) -> Seq<char> {
    if line.len() > 0 && line.last() == '\n' {
        line.drop_last()
    } else {
        line
    }
}

/// An entry without a timestamp: the shorthand of the mode, a colon, a
/// space, and the content.
pub open spec fn plain_text(mode: Mode, content: Seq<char>) -> Seq<char> {
    mode.shorthand_text() + ": "@ + content
}

/// The line that enters the journal for `content` written in `mode` at the
/// moment `at`. Only a context entry shows the moment.
pub open spec fn entry_text(mode: Mode, content: Seq<char>, at: Moment) -> Seq<char> {
    match mode {
        Mode::Information => plain_text(mode, content),
        Mode::Context => plain_text(mode, content) + " ["@ + stamp_text(at) + "]"@,
    }
}

/// Every entry begins with the shorthand of its mode, a colon and a space.
pub proof fn lemma_entry_begins_with_shorthand(mode: Mode, content: Seq<char>, at: Moment)
    ensures
        begins_with(entry_text(mode, content, at), mode.shorthand_text() + ": "@),
        begins_with(entry_text(mode, content, at), mode.shorthand_text()),
        mode.shorthand_text() == "[I]"@ || mode.shorthand_text() == "[C]"@,
{
    let head = mode.shorthand_text() + ": "@;
    let line = entry_text(mode, content, at);
    assert(line.subrange(0, head.len() as int) =~= head);
    assert(line.subrange(0, mode.shorthand_text().len() as int) =~= mode.shorthand_text());
}

/// The two layouts of an entry: `[I]: ` and the content; or `[C]: `, the
/// content, a space, and the timestamp in square brackets.
pub proof fn lemma_entry_layout(mode: Mode, content: Seq<char>, at: Moment)
    ensures
        mode == Mode::Information ==> entry_text(mode, content, at) == "[I]: "@ + content,
        mode == Mode::Context ==> entry_text(mode, content, at) == "[C]: "@ + content + " ["@
            + stamp_text(at) + "]"@,
{
    reveal_strlit("[I]");
    reveal_strlit("[C]");
    reveal_strlit(": ");
    reveal_strlit("[I]: ");
    reveal_strlit("[C]: ");
    assert("[I]"@ + ": "@ =~= "[I]: "@);
    assert("[C]"@ + ": "@ =~= "[C]: "@);
}

/// An entry whose content stays on one line stays on one line.
pub proof fn lemma_entry_one_line(mode: Mode, content: Seq<char>, at: Moment)
    requires
        is_one_line(content),
    ensures
        is_one_line(entry_text(mode, content, at)),
{
    reveal_strlit("[I]");
    reveal_strlit("[C]");
    reveal_strlit(": ");
    reveal_strlit(" [");
    reveal_strlit("]");
    lemma_stamp_one_line(at);
    assert(is_one_line(plain_text(mode, content)));
}

/// Takes the content out of a typed line by stripping the newline at its
/// end, if there is one. Nothing else is taken away: no other character, and
/// no second newline.
pub fn content_of_line(line: &str) -> (content: String)
    ensures
        content@ == content_text(line@),
        line@.len() > 0 && line@.last() == '\n' ==> content@.push('\n') == line@,
        !(line@.len() > 0 && line@.last() == '\n') ==> content@ == line@,
{
    let n = line.unicode_len();
    if n > 0 && line.get_char(n - 1) == '\n' {
        String::from_str(line.substring_char(0, n - 1))
    } else {
        String::from_str(line)
    }
}

/// Lays out the entry for `content`, written in `mode` while the clock read
/// `now`.
pub fn format_entry(mode: Mode, content: &str, now: &ClockReading) -> (line: String)
    ensures
        line@ == entry_text(mode, content@, now@),
{
    let mut line = mode.shorthand();
    line.append(": ");
    line.append(content);
    match mode {
        Mode::Information => {},
        Mode::Context => {
            let stamp = now.timestamp();
            line.append(" [");
            line.append(stamp.as_str());
            line.append("]");
        },
    }
    line
}

/// Lays out the entry for `content`, written in `mode` now. The clock is
/// read for a context entry only, so an information entry is the same
/// whenever it is written.
///
/// Reading the clock aborts the process where the system clock shows a time
/// before 1970, or one past the last year that a reading can hold. Use
/// `format_entry` with a reading of your own where that must not happen.
pub fn stamp_entry(mode: Mode, content: &str) -> (line: String)
    ensures
        mode == Mode::Information ==> line@ == plain_text(mode, content@),
        mode == Mode::Context ==> exists|at: Moment|
            at.is_valid() && line@ == #[trigger] entry_text(mode, content@, at),
{
    match mode {
        Mode::Information => {
            let mut line = mode.shorthand();
            line.append(": ");
            line.append(content);
            line
        },
        Mode::Context => {
            let now = local_now();
            format_entry(mode, content, &now)
        },
    }
}

} // verus!
