//! The interactive session, as an explicit state machine.
//!
//! One run of the tool is: classify the staged diff, assemble a prompt —
//! directly for a small diff, through per-window summarization for an
//! oversized one — then loop: request a message from the model, show it,
//! and let one keystroke decide between committing, regenerating and
//! aborting. The machine here makes every decision; the unverified shell
//! only carries out the pending request and feeds the outcome back.

use vstd::prelude::*;

use crate::chunking::is_chunking_of;
use crate::chunking::split_into_chunks;
use crate::summarize::SummaryCollector;
use crate::summarize::chunk_prompt;
use crate::summarize::chunk_prompt_spec;
use crate::summarize::summary_sep;
use crate::template::fill_template;
use crate::template::filled;
use crate::text::all_blank;
use crate::text::is_blank;
use crate::text::joined;
use crate::text::lowered;
use crate::text::trimmed;
use crate::text::trim_ascii;
use crate::text::ascii_lowercase;
use crate::text::slice_to_vec;

verus! {

/// What one line of user input selects after a message is shown.
#[derive(Clone, Copy, Debug, PartialEq, Eq)]
pub enum UserChoice {
    /// Empty input: accept the message and commit.
    Commit,
    /// `r`: request another message for the same prompt.
    Regenerate,
    /// `q`: abort without committing.
    Abort,
    /// Anything else: ask again.
    InvalidRetry,
}

/// The choice a raw input line selects: the line is trimmed and
/// lower-cased, then the empty line commits, `r` regenerates, `q` aborts,
/// and everything else asks again.
pub open spec fn choice_of(input: Seq<u8>) -> UserChoice {
    let t = lowered(trimmed(input));
    if t.len() == 0 {
        UserChoice::Commit
    } else if t == seq![114u8] {
        UserChoice::Regenerate
    } else if t == seq![113u8] {
        UserChoice::Abort
    } else {
        UserChoice::InvalidRetry
    }
}

/// Parse one line of user input into the choice it selects.
pub fn parse_user_choice(input: &[u8]) -> (c: UserChoice)
    ensures
        c == choice_of(input@),
{
    let t = trim_ascii(input);
    let l = ascii_lowercase(t.as_slice());
    if l.len() == 0 {
        UserChoice::Commit
    } else if l.len() == 1 && l[0] == 114 {
        proof {
            assert(l@ =~= seq![114u8]);
        }
        UserChoice::Regenerate
    } else if l.len() == 1 && l[0] == 113 {
        proof {
            assert(l@ =~= seq![113u8]);
        }
        UserChoice::Abort
    } else {
        proof {
            if l@ == seq![114u8] {
                assert(l@.len() == 1 && l@[0] == 114);
            }
            if l@ == seq![113u8] {
                assert(l@.len() == 1 && l@[0] == 113);
            }
        }
        UserChoice::InvalidRetry
    }
}

/// Where one run of the tool stands.
pub enum Phase {
    /// The staged diff was blank: nothing to commit, the run is over
    /// before any model request.
    NoStagedChanges,
    /// The diff was oversized; window `next` of `chunks` awaits its
    /// summary request. `template` and `history` are kept for the final
    /// prompt; `collector` holds the summaries gathered so far.
    Summarizing {
        chunks: Vec<Vec<u8>>,
        next: usize,
        collector: SummaryCollector,
        template: Vec<u8>,
        history: Vec<u8>,
    },
    /// A full prompt is assembled and a message request is pending.
    Generating { prompt: Vec<u8> },
    /// A generated message is on display; one keystroke decides.
    Reviewing { prompt: Vec<u8>, message: Vec<u8> },
    /// The message was accepted: hand it to commit construction.
    Committing { message: Vec<u8> },
    /// The user aborted; nothing is committed.
    Aborted,
    /// A message request failed; the failure is reported and the run ends.
    GenerationFailed,
}

/// Internal consistency of a phase: while summarizing, some window is
/// always pending.
pub open spec fn phase_inv(p: &Phase) -> bool {
    match p {
        Phase::Summarizing { chunks, next, .. } => next < chunks@.len(),
        _ => true,
    }
}

/// What the shell feeds back into the machine.
pub enum FlowEvent {
    /// The outcome of the pending model request: the generated text, or
    /// the transport error's description.
    ModelReply { outcome: Result<Vec<u8>, Vec<u8>> },
    /// The user's decision on the displayed message.
    Decision { choice: UserChoice },
}

/// Which event the phase is waiting for. The terminal phases — no staged
/// changes, committing, aborted, failed — accept none.
pub open spec fn expects(p: &Phase, e: &FlowEvent) -> bool {
    match p {
        Phase::Summarizing { .. } => e matches FlowEvent::ModelReply { .. },
        Phase::Generating { .. } => e matches FlowEvent::ModelReply { .. },
        Phase::Reviewing { .. } => e matches FlowEvent::Decision { .. },
        _ => false,
    }
}

/// Start a run from the staged diff.
///
/// A blank diff ends the run at once: no model request and no commit can
/// follow from the resulting phase. A diff within the window size goes
/// straight to a prompt embedding the raw diff; an oversized one is split
/// into windows, all summary requests still ahead.
pub fn start_session(
    diff: Vec<u8>,
    history_text: Vec<u8>,
    direct_template: Vec<u8>,
    chunked_template: Vec<u8>,
    chunk_size: usize,
) -> (r: Phase)
    requires
        chunk_size >= 1,
    ensures
        phase_inv(&r),
        is_blank(diff@) ==> r is NoStagedChanges,
        !is_blank(diff@) && diff@.len() <= chunk_size ==> (r matches Phase::Generating { prompt }
            && prompt@ == filled(direct_template@, history_text@, diff@)),
        !is_blank(diff@) && diff@.len() > chunk_size ==> (r matches Phase::Summarizing {
            chunks,
            next,
            collector,
            template,
            history,
        } && is_chunking_of(chunks@, diff@, chunk_size as int) && next == 0 && collector@
            == Seq::<Seq<u8>>::empty() && template == chunked_template && history == history_text),
{
    if all_blank(diff.as_slice()) {
        return Phase::NoStagedChanges;
    }
    if diff.len() <= chunk_size {
        let prompt = fill_template(
            direct_template.as_slice(),
            history_text.as_slice(),
            diff.as_slice(),
        );
        return Phase::Generating { prompt };
    }
    let chunks = split_into_chunks(diff.as_slice(), chunk_size);
    proof {
        assert(chunks@.len() > 0);
    }
    Phase::Summarizing {
        chunks,
        next: 0,
        collector: SummaryCollector::new(),
        template: chunked_template,
        history: history_text,
    }
}

/// The text of the model request the phase is waiting for, if any: the
/// summary request for the pending window while summarizing, the assembled
/// prompt while generating.
pub fn pending_prompt(p: &Phase) -> (r: Option<Vec<u8>>)
    requires
        phase_inv(p),
    ensures
        (p matches Phase::Summarizing { chunks, next, .. } ==> (r matches Some(q) && q@
            == chunk_prompt_spec((next + 1) as nat, chunks@[next as int]@))),
        (p matches Phase::Generating { prompt } ==> (r matches Some(q) && q@ == prompt@)),
        !(p matches Phase::Summarizing { .. }) && !(p matches Phase::Generating { .. }) ==> r
            is None,
{
    match p {
        Phase::Summarizing { chunks, next, .. } => {
            // binds the pending index below the vector's length, and so
            // below usize::MAX, before the index arithmetic
            let n = chunks.len();
            let chunk = &chunks[*next];
            Some(chunk_prompt((*next as u64) + 1, chunk.as_slice()))
        },
        Phase::Generating { prompt } => {
            let q = slice_to_vec(prompt.as_slice(), 0, prompt.len());
            proof {
                assert(q@ =~= prompt@);
            }
            Some(q)
        },
        _ => None,
    }
}

/// Advance the machine by one event.
///
/// While summarizing, each reply is recorded — a successful summary is
/// trimmed and kept, a failure is skipped — and when the last window is
/// answered the final prompt is assembled from the newline-joined summaries
/// in window order; the raw diff does not enter it. A generated message
/// moves to review; a failed request ends the run. Under review, the empty
/// input accepts the message for committing, `r` re-enters generation with
/// the very same prompt, `q` aborts, and an invalid line stays in review.
pub fn step(p: Phase, e: FlowEvent) -> (r: Phase)
    requires
        phase_inv(&p),
        expects(&p, &e),
    ensures
        phase_inv(&r),
        ({
            match p {
                Phase::Summarizing { chunks, next, collector, template, history } => {
                    let gathered = match e {
                        FlowEvent::ModelReply { outcome } => match outcome {
                            Ok(s) => collector@.push(trimmed(s@)),
                            Err(_) => collector@,
                        },
                        _ => collector@,
                    };
                    if next + 1 < chunks@.len() {
                        r matches Phase::Summarizing {
                            chunks: c2,
                            next: n2,
                            collector: k2,
                            template: t2,
                            history: h2,
                        } && c2 == chunks && n2 == next + 1 && k2@ == gathered && t2 == template
                            && h2 == history
                    } else {
                        r matches Phase::Generating { prompt } && prompt@ == filled(
                            template@,
                            history@,
                            joined(gathered, summary_sep()),
                        )
                    }
                },
                Phase::Generating { prompt } => {
                    match e {
                        FlowEvent::ModelReply { outcome } => match outcome {
                            Ok(m) => r matches Phase::Reviewing { prompt: q2, message } && q2
                                == prompt && message == m,
                            Err(_) => r is GenerationFailed,
                        },
                        _ => true,
                    }
                },
                Phase::Reviewing { prompt, message } => {
                    match e {
                        FlowEvent::Decision { choice } => {
                            match choice {
                                UserChoice::Commit => r matches Phase::Committing { message: m2 }
                                    && m2 == message,
                                UserChoice::Regenerate => r matches Phase::Generating {
                                    prompt: q2,
                                } && q2 == prompt,
                                UserChoice::Abort => r is Aborted,
                                UserChoice::InvalidRetry => r matches Phase::Reviewing {
                                    prompt: q2,
                                    message: m2,
                                } && q2 == prompt && m2 == message,
                            }
                        },
                        _ => true,
                    }
                },
                _ => true,
            }
        }),
{
    match p {
        Phase::Summarizing { chunks, next, collector, template, history } => {
            let mut collector = collector;
            match e {
                FlowEvent::ModelReply { outcome } => {
                    collector.record(&outcome);
                    let n = chunks.len();
                    let n2 = next + 1;
                    if n2 < n {
                        Phase::Summarizing { chunks, next: n2, collector, template, history }
                    } else {
                        let summary = collector.combined();
                        let prompt = fill_template(
                            template.as_slice(),
                            history.as_slice(),
                            summary.as_slice(),
                        );
                        Phase::Generating { prompt }
                    }
                },
                _ => unreached(),
            }
        },
        Phase::Generating { prompt } => {
            match e {
                FlowEvent::ModelReply { outcome } => {
                    match outcome {
                        Ok(m) => Phase::Reviewing { prompt, message: m },
                        Err(_) => Phase::GenerationFailed,
                    }
                },
                _ => unreached(),
            }
        },
        Phase::Reviewing { prompt, message } => {
            match e {
                FlowEvent::Decision { choice } => {
                    match choice {
                        UserChoice::Commit => Phase::Committing { message },
                        UserChoice::Regenerate => Phase::Generating { prompt },
                        UserChoice::Abort => Phase::Aborted,
                        UserChoice::InvalidRetry => Phase::Reviewing { prompt, message },
                    }
                },
                _ => unreached(),
            }
        },
        _ => unreached(),
    }
}

/// Law: a blank staged diff is a terminal condition. The phase it leads to
/// offers no model request, is not a commit, and accepts no further event —
/// the run performs no model call and no commit.
pub proof fn lemma_blank_diff_inert(e: FlowEvent)
    ensures
        !expects(&Phase::NoStagedChanges, &e),
        !(Phase::NoStagedChanges matches Phase::Committing { .. }),
{
}

} // verus!
