//! The journal as text: what appending an entry does to it, and how its
//! contents are shown.

use crate::config::JournalConfiguration;
use crate::text::{
    begins_with, is_one_line, lemma_line_count_concat, lemma_one_line_count, line_count,
};
use vstd::prelude::*;
use vstd::string::*;

verus! {

/// What is written to the journal for `entry`: the entry and the newline
/// that ends its line.
pub open spec fn record_text(entry: Seq<char>) -> Seq<char> {
    entry + "\n"@
}

/// The journal text after `entry` was appended to `journal`: what the
/// journal held, then the record of the entry.
pub open spec fn appended(journal: Seq<char>, entry: Seq<char>) -> Seq<char> {
    journal + record_text(entry)
}

/// The journal text after each of `entries` was appended to `journal`, the
/// first of them first.
pub open spec fn appended_all(journal: Seq<char>, entries: Seq<Seq<char>>) -> Seq<char>
    decreases entries.len(),
{
    if entries.len() == 0 {
        journal
    } else {
        appended(appended_all(journal, entries.drop_last()), entries.last())
    }
}

/// What is shown of a journal: a heading with the label of the journal in
/// square brackets, then the contents, then a newline.
pub open spec fn listing_text(label: Seq<char>, contents: Seq<char>) -> Seq<char> {
    "Contents ["@ + label + "]\n"@ + contents + "\n"@
}

/// The text to write at the end of the journal file for `entry`.
pub fn record(entry: &str) -> (text: String)
    ensures
        text@ == record_text(entry@),
{
    let mut text = String::from_str(entry);
    text.append("\n");
    text
}

/// The text to show for a journal labelled `label` whose file holds
/// `contents`.
pub fn listing(label: &str, contents: &str) -> (text: String)
    ensures
        text@ == listing_text(label@, contents@),
{
    let mut text = String::from_str("Contents [");
    text.append(label);
    text.append("]\n");
    text.append(contents);
    text.append("\n");
    text
}

/// Appending one entry that stays on one line adds exactly one line to the
/// journal, after everything that was there, and changes nothing of it.
pub proof fn lemma_appended(journal: Seq<char>, entry: Seq<char>)
    requires
        is_one_line(entry),
    ensures
        line_count(appended(journal, entry)) == line_count(journal) + 1,
        begins_with(appended(journal, entry), journal),
        appended(journal, entry).subrange(
            journal.len() as int,
            appended(journal, entry).len() as int,
        ) == record_text(entry),
{
    reveal_strlit("\n");
    let tail = record_text(entry);
    lemma_line_count_concat(journal, tail);
    lemma_line_count_concat(entry, "\n"@);
    lemma_one_line_count(entry);
    assert(line_count("\n"@) == 1) by {
        assert("\n"@.drop_last() =~= Seq::<char>::empty());
        assert(line_count("\n"@.drop_last()) == 0);
    }
    assert(appended(journal, entry).subrange(0, journal.len() as int) =~= journal);
    assert(appended(journal, entry).subrange(
        journal.len() as int,
        appended(journal, entry).len() as int,
    ) =~= tail);
}

/// The journal only grows, and by whole lines. After `entries` were appended,
/// each of them on one line, the journal holds one line more for each entry,
/// and it still begins with what it held after any number of them.
pub proof fn lemma_append_only(journal: Seq<char>, entries: Seq<Seq<char>>, k: int)
    requires
        forall|i: int| 0 <= i < entries.len() ==> is_one_line(#[trigger] entries[i]),
        0 <= k <= entries.len(),
    ensures
        line_count(appended_all(journal, entries)) == line_count(journal) + entries.len(),
        begins_with(appended_all(journal, entries), appended_all(journal, entries.take(k))),
    decreases entries.len(),
{
    if entries.len() == 0 {
        assert(entries.take(k) =~= entries);
        assert(appended_all(journal, entries).subrange(0, journal.len() as int) =~= journal);
    } else {
        let shorter = entries.drop_last();
        let before = appended_all(journal, shorter);
        let after = appended_all(journal, entries);
        lemma_appended(before, entries.last());
        if k == entries.len() {
            assert(entries.take(k) =~= entries);
            lemma_append_only(journal, shorter, k - 1);
            assert(after.subrange(0, after.len() as int) =~= after);
        } else {
            lemma_append_only(journal, shorter, k);
            assert(shorter.take(k) =~= entries.take(k));
            let kept = appended_all(journal, entries.take(k));
            assert(after.subrange(0, kept.len() as int) =~= before.subrange(
                0,
                kept.len() as int,
            )) by {
                assert(before =~= after.subrange(0, before.len() as int));
            }
        }
    }
}

impl JournalConfiguration {
    /// The text to show for this journal when its file holds `contents`: the
    /// heading carries the path of the journal.
    pub fn listing(&self, contents: &str) -> (text: String)
        ensures
            text@ == listing_text(self.label_text(), contents@),
    {
        let label = self.label();
        listing(label.as_str(), contents)
    }
}

} // verus!
