use chrono::{Local, NaiveDateTime};
use journal::clock::ClockReading;
use journal::contents::record;
use journal::mode::Mode;
use journal::session::Session;

fn fixed_clock() -> ClockReading {
    ClockReading::new(2024, 3, 1, 9, 15, 30).unwrap()
}

#[test]
fn a_session_starts_awaiting_a_mode_with_nothing_written() {
    let session = Session::new();
    assert_eq!(session, Session::AwaitingMode { previous: String::new() });
    assert!(session.starts_round());
}

#[test]
fn the_first_display_is_an_empty_line_and_the_question() {
    assert_eq!(
        Session::new().display(),
        "\nWhat do you want to do? [C]ontext [I]nformation*: "
    );
}

#[test]
fn the_display_at_the_start_of_a_round_shows_the_last_content() {
    let session = Session::AwaitingMode { previous: String::from("left early") };
    assert_eq!(
        session.display(),
        "left early\nWhat do you want to do? [C]ontext [I]nformation*: "
    );
}

#[test]
fn the_display_for_content_is_the_shorthand() {
    assert_eq!(Session::AwaitingContent { mode: Mode::Information }.display(), "[I]: ");
    assert_eq!(Session::AwaitingContent { mode: Mode::Context }.display(), "[C]: ");
    assert!(!Session::AwaitingContent { mode: Mode::Context }.starts_round());
}

#[test]
fn a_mode_line_completes_no_entry() {
    let (next, entry) = Session::new().advance("c\n", &fixed_clock());
    assert_eq!(next, Session::AwaitingContent { mode: Mode::Context });
    assert_eq!(entry, None);
}

#[test]
fn an_unknown_or_missing_mode_falls_back_to_information() {
    for line in ["\n", "", "x\n", "7\n", " c\n", "?\n"] {
        let (next, entry) = Session::new().advance(line, &fixed_clock());
        assert_eq!(next, Session::AwaitingContent { mode: Mode::Information }, "{:?}", line);
        assert_eq!(entry, None);
    }
}

#[test]
fn a_content_line_completes_an_information_entry() {
    let session = Session::AwaitingContent { mode: Mode::Information };
    let (next, entry) = session.advance("hello\n", &fixed_clock());
    assert_eq!(next, Session::AwaitingMode { previous: String::from("hello") });
    assert_eq!(entry, Some(String::from("[I]: hello")));
}

#[test]
fn a_content_line_completes_a_context_entry() {
    let session = Session::AwaitingContent { mode: Mode::Context };
    let (next, entry) = session.advance("left early\n", &fixed_clock());
    assert_eq!(next, Session::AwaitingMode { previous: String::from("left early") });
    assert_eq!(entry, Some(String::from("[C]: left early [2024-03-01 09:15:30]")));
}

#[test]
fn the_mode_line_of_a_round_does_not_change_what_was_written_before() {
    let session = Session::AwaitingMode { previous: String::from("earlier") };
    let (next, entry) = session.advance("i\n", &fixed_clock());
    assert_eq!(next, Session::AwaitingContent { mode: Mode::Information });
    assert_eq!(entry, None);
}

#[test]
fn rounds_follow_each_other_without_end() {
    let typed = [
        ("i\n", "hello\n", "[I]: hello"),
        ("c\n", "left early\n", "[C]: left early [2024-03-01 09:15:30]"),
        ("\n", "default mode\n", "[I]: default mode"),
        ("C\n", "\n", "[C]:  [2024-03-01 09:15:30]"),
        ("I\n", "no newline", "[I]: no newline"),
    ];
    let mut session = Session::new();
    let mut file = String::new();
    let mut written = 0;
    for (choice, content, expected) in typed {
        assert!(session.starts_round());
        let (next, entry) = session.advance(choice, &fixed_clock());
        assert_eq!(entry, None);
        assert!(!next.starts_round());
        let (next, entry) = next.advance(content, &fixed_clock());
        assert_eq!(entry.as_deref(), Some(expected));
        let before = file.clone();
        file.push_str(&record(&entry.unwrap()));
        written += 1;
        assert!(file.starts_with(&before));
        assert_eq!(file.lines().count(), written);
        session = next;
    }
    assert_eq!(
        file,
        "[I]: hello\n[C]: left early [2024-03-01 09:15:30]\n[I]: default mode\n\
         [C]:  [2024-03-01 09:15:30]\n[I]: no newline\n"
    );
    assert_eq!(session, Session::AwaitingMode { previous: String::from("no newline") });
}

#[test]
fn content_that_ends_the_input_without_a_newline_is_kept_whole() {
    let (next, entry) = Session::new().accept("i\n");
    assert_eq!(entry, None);
    let (next, entry) = next.accept("hello");
    assert_eq!(next, Session::AwaitingMode { previous: String::from("hello") });
    let mut file = String::new();
    file.push_str(&record(&entry.unwrap()));
    assert_eq!(file, "[I]: hello\n");
}

#[test]
fn accept_moves_as_advance_does() {
    let (next, entry) = Session::new().accept("c\n");
    assert_eq!(next, Session::AwaitingContent { mode: Mode::Context });
    assert_eq!(entry, None);
    let (next, entry) = Session::AwaitingContent { mode: Mode::Information }.accept("hello\n");
    assert_eq!(next, Session::AwaitingMode { previous: String::from("hello") });
    assert_eq!(entry, Some(String::from("[I]: hello")));
}

#[test]
fn accept_stamps_a_context_entry_with_the_present_time() {
    let before = Local::now().naive_local();
    let (next, entry) = Session::AwaitingContent { mode: Mode::Context }.accept("now\n");
    let after = Local::now().naive_local();
    assert_eq!(next, Session::AwaitingMode { previous: String::from("now") });
    let line = entry.unwrap();
    let head = "[C]: now [";
    assert!(line.starts_with(head) && line.ends_with(']'), "{}", line);
    let stamp = &line[head.len()..line.len() - 1];
    let at = NaiveDateTime::parse_from_str(stamp, "%Y-%m-%d %H:%M:%S").unwrap();
    assert!((at - before).num_seconds() >= -1);
    assert!((after - at).num_seconds() >= 0);
}
