use git_commit_helper::template::fill_template;
use git_commit_helper::template::replace_bytes;

#[test]
fn replace_single_occurrence() {
    let r = replace_bytes(b"hello NAME!", b"NAME", b"world");
    assert_eq!(r, b"hello world!".to_vec());
}

#[test]
fn replace_every_occurrence() {
    let r = replace_bytes(b"a-a-a", b"a", b"bb");
    assert_eq!(r, b"bb-bb-bb".to_vec());
}

#[test]
fn replace_scans_left_to_right_without_overlap() {
    let r = replace_bytes(b"aaa", b"aa", b"b");
    assert_eq!(r, "aaa".replace("aa", "b").into_bytes());
    assert_eq!(r, b"ba".to_vec());
}

#[test]
fn replace_missing_pattern_keeps_text() {
    let r = replace_bytes(b"untouched", b"zz", b"yy");
    assert_eq!(r, b"untouched".to_vec());
}

#[test]
fn fill_substitutes_both_placeholders() {
    let template = "History:\n{recent_commits}\n\nDiff:\n{diff_context}\n";
    let filled = fill_template(template.as_bytes(), b"fix parser", b"+hello\n");
    let expected = template
        .replace("{recent_commits}", "fix parser")
        .replace("{diff_context}", "+hello\n");
    assert_eq!(filled, expected.into_bytes());
}

#[test]
fn fill_embeds_raw_diff_verbatim() {
    let template = "{recent_commits} / {diff_context}";
    let diff = b"+weird \x01 bytes {not a placeholder}\n";
    let filled = fill_template(template.as_bytes(), b"None", diff);
    let pos = filled
        .windows(diff.len())
        .position(|w| w == diff.as_slice());
    assert!(pos.is_some(), "raw diff must appear verbatim in the prompt");
}

#[test]
fn fill_without_placeholders_keeps_template() {
    let template = b"static prompt text";
    let filled = fill_template(template, b"h", b"d");
    assert_eq!(filled, template.to_vec());
}
