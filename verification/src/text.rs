//! Plain facts about text: lines, and how a text begins.

use vstd::prelude::*;

verus! {

/// Whether `text` stays on one line: it holds no newline.
pub open spec fn is_one_line(text: Seq<char>) -> bool {
    forall|i: int| 0 <= i < text.len() ==> text[i] != '\n'
}

/// The number of lines that `text` holds: a line ends with a newline.
pub open spec fn line_count(text: Seq<char>) -> nat
    decreases text.len(),
{
    if text.len() == 0 {
        0
    } else if text.last() == '\n' {
        line_count(text.drop_last()) + 1
    } else {
        line_count(text.drop_last())
    }
}

/// Whether `head` is how `text` begins.
pub open spec fn begins_with(text: Seq<char>, head: Seq<char>) -> bool {
    head.len() <= text.len() && text.subrange(0, head.len() as int) == head
}

/// A text has the lines of its parts.
pub proof fn lemma_line_count_concat(a: Seq<char>, b: Seq<char>)
    ensures
        line_count(a + b) == line_count(a) + line_count(b),
    decreases b.len(),
{
    if b.len() == 0 {
        assert(a + b =~= a);
    } else {
        lemma_line_count_concat(a, b.drop_last());
        assert((a + b).drop_last() =~= a + b.drop_last());
        assert((a + b).last() == b.last());
    }
}

/// A text without a newline holds no line.
pub proof fn lemma_one_line_count(text: Seq<char>)
    requires
        is_one_line(text),
    ensures
        line_count(text) == 0,
    decreases text.len(),
{
    if text.len() > 0 {
        lemma_one_line_count(text.drop_last());
    }
}

} // verus!
