use journal::config::JournalConfiguration;
use std::path::{Path, PathBuf};

#[test]
fn an_explicit_path_is_kept_exactly() {
    for text in ["notes.txt", "/var/log/my journal.md", "./a/../b", "", "journal.txt", "ümlaut/日記"] {
        let p = PathBuf::from(text);
        assert_eq!(JournalConfiguration::from_path(p.clone()).path(), &p);
    }
}

#[test]
fn the_default_path_is_journal_txt() {
    assert_eq!(JournalConfiguration::default().path(), Path::new("journal.txt"));
    assert_eq!(JournalConfiguration::default().path().to_str(), Some("journal.txt"));
    assert!(JournalConfiguration::default().path().is_relative());
}

#[test]
fn resolve_takes_the_override() {
    let p = PathBuf::from("/tmp/elsewhere.txt");
    assert_eq!(JournalConfiguration::resolve(Some(p.clone())).path(), &p);
    assert_eq!(
        JournalConfiguration::resolve(Some(p.clone())),
        JournalConfiguration::from_path(p)
    );
}

#[test]
fn resolve_without_override_is_the_default() {
    assert_eq!(JournalConfiguration::resolve(None).path(), Path::new("journal.txt"));
    assert_eq!(JournalConfiguration::resolve(None), JournalConfiguration::default());
}

#[test]
fn the_label_is_the_quoted_path() {
    assert_eq!(JournalConfiguration::default().label(), "\"journal.txt\"");
    assert_eq!(
        JournalConfiguration::from_path(PathBuf::from("/tmp/my notes.txt")).label(),
        "\"/tmp/my notes.txt\""
    );
    assert_eq!(
        JournalConfiguration::from_path(PathBuf::from("say \"hi\"")).label(),
        "\"say \\\"hi\\\"\""
    );
}
