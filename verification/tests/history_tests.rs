use git_commit_helper::history::format_history;
use git_commit_helper::history::history_placeholder_text;
use git_commit_helper::history::prepare_message;

#[test]
fn empty_history_is_none() {
    let r = format_history(&Vec::new());
    assert!(r.is_none());
}

#[test]
fn placeholder_for_fresh_repository_is_none_text() {
    let r = history_placeholder_text(&None);
    assert_eq!(r, b"None".to_vec());
}

#[test]
fn placeholder_passes_window_through() {
    let r = history_placeholder_text(&Some(b"fix parser".to_vec()));
    assert_eq!(r, b"fix parser".to_vec());
}

#[test]
fn message_is_trimmed_and_quotes_escaped() {
    let r = prepare_message(b"  fix \"bug\" in parser \n");
    assert_eq!(r, b"fix \\\"bug\\\" in parser".to_vec());
}

#[test]
fn window_joins_messages_with_blank_line() {
    let msgs = vec![b"first\n".to_vec(), b" second ".to_vec()];
    let r = format_history(&msgs).expect("two messages give a window");
    assert_eq!(r, b"first\n\nsecond".to_vec());
}

#[test]
fn window_keeps_at_most_three_messages() {
    let msgs = vec![
        b"one".to_vec(),
        b"two".to_vec(),
        b"three".to_vec(),
        b"four".to_vec(),
    ];
    let r = format_history(&msgs).expect("messages give a window");
    assert_eq!(r, b"one\n\ntwo\n\nthree".to_vec());
}
