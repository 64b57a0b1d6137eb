use git_commit_helper::summarize::chunk_prompt;
use git_commit_helper::summarize::render_decimal;
use git_commit_helper::summarize::SummaryCollector;

#[test]
fn decimal_rendering_is_exact() {
    assert_eq!(render_decimal(0), b"0".to_vec());
    assert_eq!(render_decimal(7), b"7".to_vec());
    assert_eq!(render_decimal(10), b"10".to_vec());
    assert_eq!(render_decimal(12345), b"12345".to_vec());
    assert_eq!(render_decimal(u64::MAX), u64::MAX.to_string().into_bytes());
}

#[test]
fn window_prompt_matches_expected_wording() {
    let prompt = chunk_prompt(2, b"+line\n");
    let expected = format!(
        "You are a code change summarization assistant. Summarize the main goal and impact of the following code changes in a concise sentence:\n\nPart {} of the diff:\n{}\n\nSummary:",
        2, "+line\n"
    );
    assert_eq!(prompt, expected.into_bytes());
}

#[test]
fn collector_trims_and_keeps_order() {
    let mut c = SummaryCollector::new();
    c.record(&Ok(b"  first summary \n".to_vec()));
    c.record(&Ok(b"second summary".to_vec()));
    assert_eq!(c.count(), 2);
    assert_eq!(c.combined(), b"first summary\nsecond summary".to_vec());
}

#[test]
fn failed_window_is_skipped_not_replaced() {
    let mut c = SummaryCollector::new();
    c.record(&Ok(b"s1".to_vec()));
    c.record(&Err(b"request failed".to_vec()));
    c.record(&Ok(b"s3".to_vec()));
    assert_eq!(c.count(), 2);
    assert_eq!(c.combined(), b"s1\ns3".to_vec());
}

#[test]
fn empty_collector_combines_to_empty() {
    let c = SummaryCollector::new();
    assert_eq!(c.count(), 0);
    assert_eq!(c.combined(), Vec::<u8>::new());
}
