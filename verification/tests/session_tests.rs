use git_commit_helper::session::parse_user_choice;
use git_commit_helper::session::pending_prompt;
use git_commit_helper::session::start_session;
use git_commit_helper::session::step;
use git_commit_helper::session::FlowEvent;
use git_commit_helper::session::Phase;
use git_commit_helper::session::UserChoice;

const DIRECT: &str = "History:\n{recent_commits}\n\nDiff:\n{diff_context}\n";
const CHUNKED: &str = "History:\n{recent_commits}\n\nSummary of changes:\n{diff_context}\n";

fn start(diff: &[u8], chunk_size: usize) -> Phase {
    start_session(
        diff.to_vec(),
        b"None".to_vec(),
        DIRECT.as_bytes().to_vec(),
        CHUNKED.as_bytes().to_vec(),
        chunk_size,
    )
}

#[test]
fn keystrokes_select_choices() {
    assert_eq!(parse_user_choice(b""), UserChoice::Commit);
    assert_eq!(parse_user_choice(b"\n"), UserChoice::Commit);
    assert_eq!(parse_user_choice(b"   "), UserChoice::Commit);
    assert_eq!(parse_user_choice(b"r"), UserChoice::Regenerate);
    assert_eq!(parse_user_choice(b" R \n"), UserChoice::Regenerate);
    assert_eq!(parse_user_choice(b"q"), UserChoice::Abort);
    assert_eq!(parse_user_choice(b"Q"), UserChoice::Abort);
    assert_eq!(parse_user_choice(b"x"), UserChoice::InvalidRetry);
    assert_eq!(parse_user_choice(b"rr"), UserChoice::InvalidRetry);
}

#[test]
fn empty_diff_ends_the_run_at_once() {
    let phase = start(b"", 100);
    assert!(matches!(phase, Phase::NoStagedChanges));
    assert!(pending_prompt(&phase).is_none());
}

#[test]
fn whitespace_only_diff_counts_as_empty() {
    let phase = start(b"  \n\t\r\n", 100);
    assert!(matches!(phase, Phase::NoStagedChanges));
    assert!(pending_prompt(&phase).is_none());
}

#[test]
fn small_diff_commits_accepted_message() {
    // staged diff of 7 bytes against a window of 100: the direct template
    // is chosen, one model call happens, the empty input commits.
    let phase = start(b"+hello\n", 100);
    let prompt = pending_prompt(&phase).expect("a model request must be pending");
    let expected = DIRECT
        .replace("{recent_commits}", "None")
        .replace("{diff_context}", "+hello\n");
    assert_eq!(prompt, expected.into_bytes());

    let phase = step(
        phase,
        FlowEvent::ModelReply {
            outcome: Ok(b"Add hello line".to_vec()),
        },
    );
    assert!(matches!(phase, Phase::Reviewing { .. }));

    let phase = step(
        phase,
        FlowEvent::Decision {
            choice: parse_user_choice(b"\n"),
        },
    );
    match phase {
        Phase::Committing { message } => assert_eq!(message, b"Add hello line".to_vec()),
        _ => panic!("accepted message must move to committing"),
    }
}

#[test]
fn oversized_diff_summarizes_in_window_order_and_skips_failures() {
    // 500,000 bytes against a window of 200,000: three windows, three
    // summary requests in order; the second fails and contributes nothing.
    let diff: Vec<u8> = (0..500_000u32).map(|i| (i % 251) as u8).collect();
    let phase = start(&diff, 200_000);
    assert!(matches!(phase, Phase::Summarizing { .. }));

    let p1 = pending_prompt(&phase).expect("window 1 request pending");
    assert!(starts_with(&p1, b"You are a code change summarization assistant."));
    assert!(contains(&p1, b"Part 1 of the diff:\n"));

    let phase = step(
        phase,
        FlowEvent::ModelReply {
            outcome: Ok(b" s1 ".to_vec()),
        },
    );
    let p2 = pending_prompt(&phase).expect("window 2 request pending");
    assert!(contains(&p2, b"Part 2 of the diff:\n"));

    let phase = step(
        phase,
        FlowEvent::ModelReply {
            outcome: Err(b"timeout".to_vec()),
        },
    );
    let p3 = pending_prompt(&phase).expect("window 3 request pending");
    assert!(contains(&p3, b"Part 3 of the diff:\n"));

    let phase = step(
        phase,
        FlowEvent::ModelReply {
            outcome: Ok(b"s3".to_vec()),
        },
    );
    let prompt = pending_prompt(&phase).expect("final prompt pending");
    let expected = CHUNKED
        .replace("{recent_commits}", "None")
        .replace("{diff_context}", "s1\ns3");
    assert_eq!(prompt, expected.into_bytes());
    // the final prompt embeds only the summaries, never the raw diff
    assert!(!contains(&prompt, &diff[..1000]));
}

#[test]
fn regenerate_twice_commits_third_message() {
    // "r" twice then accept: three model calls, only the third committed.
    let mut phase = start(b"+x\n", 100);
    let mut calls = 0usize;
    let replies: [&[u8]; 3] = [b"first", b"second", b"third"];
    let inputs: [&[u8]; 3] = [b"r", b"r", b""];
    for k in 0..3 {
        assert!(pending_prompt(&phase).is_some(), "a model request must be pending");
        calls += 1;
        phase = step(
            phase,
            FlowEvent::ModelReply {
                outcome: Ok(replies[k].to_vec()),
            },
        );
        assert!(matches!(phase, Phase::Reviewing { .. }));
        phase = step(
            phase,
            FlowEvent::Decision {
                choice: parse_user_choice(inputs[k]),
            },
        );
    }
    assert_eq!(calls, 3);
    match phase {
        Phase::Committing { message } => assert_eq!(message, b"third".to_vec()),
        _ => panic!("the third message must be committed"),
    }
}

#[test]
fn regenerating_keeps_the_same_prompt() {
    let phase = start(b"+x\n", 100);
    let first = pending_prompt(&phase).unwrap();
    let phase = step(
        phase,
        FlowEvent::ModelReply {
            outcome: Ok(b"m1".to_vec()),
        },
    );
    let phase = step(
        phase,
        FlowEvent::Decision {
            choice: UserChoice::Regenerate,
        },
    );
    assert_eq!(pending_prompt(&phase).unwrap(), first);
}

#[test]
fn invalid_input_stays_in_review() {
    let phase = start(b"+x\n", 100);
    let phase = step(
        phase,
        FlowEvent::ModelReply {
            outcome: Ok(b"msg".to_vec()),
        },
    );
    let phase = step(
        phase,
        FlowEvent::Decision {
            choice: parse_user_choice(b"zz"),
        },
    );
    match phase {
        Phase::Reviewing { message, .. } => assert_eq!(message, b"msg".to_vec()),
        _ => panic!("invalid input must stay in review"),
    }
}

#[test]
fn abort_commits_nothing() {
    let phase = start(b"+x\n", 100);
    let phase = step(
        phase,
        FlowEvent::ModelReply {
            outcome: Ok(b"msg".to_vec()),
        },
    );
    let phase = step(
        phase,
        FlowEvent::Decision {
            choice: parse_user_choice(b"q"),
        },
    );
    assert!(matches!(phase, Phase::Aborted));
    assert!(pending_prompt(&phase).is_none());
}

#[test]
fn failed_generation_ends_the_run() {
    let phase = start(b"+x\n", 100);
    let phase = step(
        phase,
        FlowEvent::ModelReply {
            outcome: Err(b"connection refused".to_vec()),
        },
    );
    assert!(matches!(phase, Phase::GenerationFailed));
    assert!(pending_prompt(&phase).is_none());
}

fn starts_with(hay: &[u8], needle: &[u8]) -> bool {
    hay.len() >= needle.len() && &hay[..needle.len()] == needle
}

fn contains(hay: &[u8], needle: &[u8]) -> bool {
    !needle.is_empty() && hay.windows(needle.len()).any(|w| w == needle)
}
