//! Where the journal lives.

use std::path::PathBuf;
use vstd::prelude::*;

verus! {

/// A path of the file system. Nothing in this crate looks inside one.
#[verifier::external_type_specification]
#[verifier::external_body]
pub struct ExPathBuf(PathBuf);

/// The path that a piece of text names.
pub uninterp spec fn path_of(text: Seq<char>) -> PathBuf;

/// A path as it is shown to the user: quoted, with what cannot be printed
/// escaped.
pub uninterp spec fn shown_path(path: PathBuf) -> Seq<char>;

/// The name of the journal file when none is chosen: a file of the working
/// directory.
pub open spec fn default_file_name() -> Seq<char> {
    "journal.txt"@
}

/// Makes a path from text with `PathBuf::from`.
///
/// Not proved: that the path depends on the characters of the text alone.
#[verifier::external_body]
fn path_from_text(text: &str) -> (path: PathBuf)
    ensures
        path == path_of(text@),
{
    PathBuf::from(text)
}

/// Shows a path with the `Debug` formatting of `PathBuf`.
///
/// Not proved: that the text depends on the path alone.
#[verifier::external_body]
fn path_label(path: &PathBuf) -> (label: String)
    ensures
        label@ == shown_path(*path),
{
    format!("{:?}", path)
}

/// The configuration of a run: the path of the journal file. Whether a file
/// exists there, or can be written, is not looked at here.
#[derive(Debug, PartialEq, Eq)]
pub struct JournalConfiguration {
    path: PathBuf,
}

impl JournalConfiguration {
    /// The path of the journal file.
    pub closed spec fn spec_path(&self) -> PathBuf {
        self.path
    }

    /// The label under which the journal is shown: its path, quoted.
    pub open spec fn label_text(&self) -> Seq<char> {
        shown_path(self.spec_path())
    }

    /// The configuration for the journal at `p`.
    pub fn from_path(p: PathBuf) -> (config: JournalConfiguration)
        ensures
            config.spec_path() == p,
    {
        JournalConfiguration { path: p }
    }

    /// The configuration for a run: the journal at the path that was given,
    /// or the default journal when none was given.
    pub fn resolve(explicit: Option<PathBuf>) -> (config: JournalConfiguration)
        ensures
            config.spec_path() == match explicit {
                Some(p) => p,
                None => path_of(default_file_name()),
            },
    {
        match explicit {
            Some(p) => JournalConfiguration::from_path(p),
            None => JournalConfiguration::default(),
        }
    }

    /// The path of the journal file.
    pub fn path(&self) -> (path: &PathBuf)
        ensures
            *path == self.spec_path(),
    {
        &self.path
    }

    /// The label under which the journal is shown: its path, quoted.
    pub fn label(&self) -> (label: String)
        ensures
            label@ == self.label_text(),
    {
        path_label(&self.path)
    }
}

impl Default for JournalConfiguration {
    /// The default journal is `journal.txt` in the working directory.
    fn default() -> (config: JournalConfiguration)
        ensures
            config.spec_path() == path_of(default_file_name()),
    {
        JournalConfiguration { path: path_from_text("journal.txt") }
    }
}

} // verus!
