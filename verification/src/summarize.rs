//! Chunked summarization of an oversized diff.
//!
//! Each byte window of the diff gets one independent model request, built
//! from a fixed prompt that embeds the window's 1-based index and its bytes.
//! Requests are issued one at a time, in window order; a failed request
//! contributes no summary — it is skipped, not replaced by a placeholder.
//! The final artifact is the newline-joined concatenation of the successful
//! per-window summaries, in window order, and it replaces the raw diff in
//! the prompt sent downstream.

use vstd::prelude::*;

use crate::text::joined;
use crate::text::trimmed;
use crate::text::trim_ascii;
use crate::text::views_of;
use crate::text::join_with;
use crate::text::push_all;

verus! {

/// Decimal digits of `n`, most significant first.
pub open spec fn decimal_digits(n: nat) -> Seq<u8>
    decreases n,
{
    if n < 10 {
        seq![(48 + n) as u8]
    } else {
        decimal_digits(n / 10) + seq![(48 + n % 10) as u8]
    }
}

/// Render `n` in decimal.
pub fn render_decimal(n: u64) -> (r: Vec<u8>)
    ensures
        r@ == decimal_digits(n as nat),
    decreases n,
{
    if n < 10 {
        let v: Vec<u8> = vec![48 + n as u8];
        proof {
            assert(v@ =~= decimal_digits(n as nat));
        }
        v
    } else {
        let mut r = render_decimal(n / 10);
        r.push(48 + (n % 10) as u8);
        proof {
            assert(r@ =~= decimal_digits(n as nat));
        }
        r
    }
}

/// The fixed text before the window index.
pub open spec fn prompt_head() -> Seq<u8> {
    seq![89u8, 111, 117, 32, 97, 114, 101, 32, 97, 32, 99, 111, 100, 101, 32, 99, 104, 97,
        110, 103, 101, 32, 115, 117, 109, 109, 97, 114, 105, 122, 97, 116, 105, 111, 110, 32,
        97, 115, 115, 105, 115, 116, 97, 110, 116, 46, 32, 83, 117, 109, 109, 97, 114, 105,
        122, 101, 32, 116, 104, 101, 32, 109, 97, 105, 110, 32, 103, 111, 97, 108, 32, 97,
        110, 100, 32, 105, 109, 112, 97, 99, 116, 32, 111, 102, 32, 116, 104, 101, 32, 102,
        111, 108, 108, 111, 119, 105, 110, 103, 32, 99, 111, 100, 101, 32, 99, 104, 97, 110,
        103, 101, 115, 32, 105, 110, 32, 97, 32, 99, 111, 110, 99, 105, 115, 101, 32, 115,
        101, 110, 116, 101, 110, 99, 101, 58, 10, 10, 80, 97, 114, 116, 32]
}

/// The fixed text between the window index and the window bytes.
pub open spec fn prompt_mid() -> Seq<u8> {
    seq![32u8, 111, 102, 32, 116, 104, 101, 32, 100, 105, 102, 102, 58, 10]
}

/// The fixed text after the window bytes.
pub open spec fn prompt_tail() -> Seq<u8> {
    seq![10u8, 10, 83, 117, 109, 109, 97, 114, 121, 58]
}

/// The summary request for window number `index1` (1-based) holding `chunk`.
pub open spec fn chunk_prompt_spec(index1: nat, chunk: Seq<u8>) -> Seq<u8> {
    prompt_head() + decimal_digits(index1) + prompt_mid() + chunk + prompt_tail()
}

/// Build the summary request for one window.
pub fn chunk_prompt(index1: u64, chunk: &[u8]) -> (r: Vec<u8>)
    ensures
        r@ == chunk_prompt_spec(index1 as nat, chunk@),
{
    let mut out: Vec<u8> = vec![89u8, 111, 117, 32, 97, 114, 101, 32, 97, 32, 99, 111, 100, 101,
        32, 99, 104, 97, 110, 103, 101, 32, 115, 117, 109, 109, 97, 114, 105, 122, 97, 116, 105,
        111, 110, 32, 97, 115, 115, 105, 115, 116, 97, 110, 116, 46, 32, 83, 117, 109, 109, 97,
        114, 105, 122, 101, 32, 116, 104, 101, 32, 109, 97, 105, 110, 32, 103, 111, 97, 108, 32,
        97, 110, 100, 32, 105, 109, 112, 97, 99, 116, 32, 111, 102, 32, 116, 104, 101, 32, 102,
        111, 108, 108, 111, 119, 105, 110, 103, 32, 99, 111, 100, 101, 32, 99, 104, 97, 110, 103,
        101, 115, 32, 105, 110, 32, 97, 32, 99, 111, 110, 99, 105, 115, 101, 32, 115, 101, 110,
        116, 101, 110, 99, 101, 58, 10, 10, 80, 97, 114, 116, 32];
    proof {
        assert(out@ =~= prompt_head());
    }
    let digits = render_decimal(index1);
    push_all(&mut out, digits.as_slice());
    let mid: Vec<u8> = vec![32u8, 111, 102, 32, 116, 104, 101, 32, 100, 105, 102, 102, 58, 10];
    proof {
        assert(mid@ =~= prompt_mid());
    }
    push_all(&mut out, mid.as_slice());
    push_all(&mut out, chunk);
    let tail: Vec<u8> = vec![10u8, 10, 83, 117, 109, 109, 97, 114, 121, 58];
    proof {
        assert(tail@ =~= prompt_tail());
    }
    push_all(&mut out, tail.as_slice());
    proof {
        assert(out@ =~= chunk_prompt_spec(index1 as nat, chunk@));
    }
    out
}

/// A single line feed: the separator between per-window summaries.
pub open spec fn summary_sep() -> Seq<u8> {
    seq![10u8]
}

/// Collects the successful per-window summaries, in window order.
///
/// A failed window request adds nothing: the final count may be smaller
/// than the window count.
pub struct SummaryCollector {
    summaries: Vec<Vec<u8>>,
}

impl View for SummaryCollector {
    type V = Seq<Seq<u8>>;

    closed spec fn view(&self) -> Seq<Seq<u8>> {
        views_of(self.summaries@)
    }
}

impl SummaryCollector {
    /// An empty collector.
    pub fn new() -> (r: SummaryCollector)
        ensures
            r@ == Seq::<Seq<u8>>::empty(),
    {
        let r = SummaryCollector { summaries: Vec::new() };
        proof {
            assert(r@ =~= Seq::<Seq<u8>>::empty());
        }
        r
    }

    /// How many summaries have been collected.
    pub fn count(&self) -> (n: usize)
        ensures
            n == self@.len(),
    {
        self.summaries.len()
    }

    /// Record the outcome of one window request: a successful reply is
    /// trimmed and kept, a failure is skipped.
    pub fn record(&mut self, outcome: &Result<Vec<u8>, Vec<u8>>)
        ensures
            outcome matches Ok(s) ==> final(self)@ == old(self)@.push(trimmed(s@)),
            outcome matches Err(_) ==> final(self)@ == old(self)@,
    {
        match outcome {
            Ok(s) => {
                let t = trim_ascii(s.as_slice());
                self.summaries.push(t);
                proof {
                    assert(self@ =~= old(self)@.push(trimmed(s@)));
                }
            },
            Err(_) => {},
        }
    }

    /// The combined summary: the collected summaries joined by newlines,
    /// in window order.
    pub fn combined(&self) -> (r: Vec<u8>)
        ensures
            r@ == joined(self@, summary_sep()),
    {
        let sep: Vec<u8> = vec![10u8];
        proof {
            assert(sep@ =~= summary_sep());
        }
        join_with(&self.summaries, sep.as_slice())
    }
}

} // verus!
