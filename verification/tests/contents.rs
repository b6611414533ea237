use journal::clock::ClockReading;
use journal::config::JournalConfiguration;
use journal::contents::{listing, record};
use journal::entry::format_entry;
use journal::mode::Mode;
use std::path::PathBuf;

#[test]
fn a_record_is_the_entry_and_a_newline() {
    assert_eq!(record("[I]: hello"), "[I]: hello\n");
    assert_eq!(record(""), "\n");
    assert_eq!(
        record("[C]: left early [2024-03-01 09:15:30]"),
        "[C]: left early [2024-03-01 09:15:30]\n"
    );
}

#[test]
fn a_listing_is_heading_and_contents() {
    assert_eq!(
        listing("\"journal.txt\"", "[I]: hello\n"),
        "Contents [\"journal.txt\"]\n[I]: hello\n\n"
    );
    assert_eq!(listing("x", ""), "Contents [x]\n\n");
    assert_eq!(listing("", "a\nb"), "Contents []\na\nb\n");
}

#[test]
fn a_listing_of_a_configuration_shows_its_path() {
    let config = JournalConfiguration::default();
    assert_eq!(
        config.listing("[I]: hello\n[C]: bye [2024-03-01 09:15:30]\n"),
        "Contents [\"journal.txt\"]\n[I]: hello\n[C]: bye [2024-03-01 09:15:30]\n\n"
    );
    let other = JournalConfiguration::from_path(PathBuf::from("/tmp/n.txt"));
    assert_eq!(other.listing(""), "Contents [\"/tmp/n.txt\"]\n\n");
}

#[test]
fn listing_the_same_contents_twice_gives_the_same_text() {
    let config = JournalConfiguration::default();
    assert_eq!(config.listing("[I]: a\n"), config.listing("[I]: a\n"));
}

#[test]
fn appending_records_adds_one_line_each_and_keeps_what_was_there() {
    let clock = ClockReading::new(2024, 3, 1, 9, 15, 30).unwrap();
    let mut file = String::from("[I]: older\n");
    let mut seen = vec![file.clone()];
    let entries = [
        (Mode::Information, "hello"),
        (Mode::Context, "left early"),
        (Mode::Information, ""),
        (Mode::Context, "back"),
    ];
    for (mode, content) in entries {
        file.push_str(&record(&format_entry(mode, content, &clock)));
        seen.push(file.clone());
    }
    assert_eq!(
        file,
        "[I]: older\n[I]: hello\n[C]: left early [2024-03-01 09:15:30]\n[I]: \n\
         [C]: back [2024-03-01 09:15:30]\n"
    );
    assert_eq!(file.lines().count(), 1 + entries.len());
    for (n, earlier) in seen.iter().enumerate() {
        assert!(file.starts_with(earlier.as_str()));
        assert_eq!(earlier.matches('\n').count(), 1 + n);
    }
}
