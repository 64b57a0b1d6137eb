//! The commit-history window handed to the prompt.
//!
//! The window holds up to three prior commit messages, most recent first.
//! Each message is trimmed and its double quotes are escaped so it can be
//! interpolated into a template safely; the messages are joined by a blank
//! line. An empty window — a fresh repository — is a normal state, not an
//! error, and resolves to a distinguished placeholder text.

use vstd::prelude::*;

use crate::text::joined;
use crate::text::trim_ascii;
use crate::text::trimmed;
use crate::text::push_all;
use crate::text::join_with;
use crate::template::replace_all;

verus! {

/// A double-quote byte.
pub open spec fn quote() -> Seq<u8> {
    seq![34u8]
}

/// A backslash followed by a double quote.
pub open spec fn escaped_quote() -> Seq<u8> {
    seq![92u8, 34]
}

/// Two line feeds: the blank line between history entries.
pub open spec fn entry_sep() -> Seq<u8> {
    seq![10u8, 10]
}

/// The text standing in for an absent history: `None`.
pub open spec fn none_text() -> Seq<u8> {
    seq![78u8, 111, 110, 101]
}

/// One history entry: the message trimmed, with every double quote escaped.
pub open spec fn prepared_message(m: Seq<u8>) -> Seq<u8> {
    replace_all(trimmed(m), quote(), escaped_quote())
}

/// The formatted window over a sequence of raw messages.
pub open spec fn formatted_window(msgs: Seq<Seq<u8>>) -> Seq<u8> {
    joined(msgs.map_values(|m: Seq<u8>| prepared_message(m)), entry_sep())
}

/// How many of the supplied messages enter the window: at most three.
pub open spec fn window_len(n: int) -> int {
    if n < 3 {
        n
    } else {
        3
    }
}

/// Trim one message and escape its double quotes.
pub fn prepare_message(m: &[u8]) -> (r: Vec<u8>)
    ensures
        r@ == prepared_message(m@),
{
    let t = trim_ascii(m);
    let q: Vec<u8> = vec![34u8];
    let eq: Vec<u8> = vec![92u8, 34];
    proof {
        assert(q@ =~= quote());
        assert(eq@ =~= escaped_quote());
    }
    crate::template::replace_bytes(t.as_slice(), q.as_slice(), eq.as_slice())
}

/// Format the history window from raw messages, most recent first.
///
/// Only the first three messages enter the window. Returns `None` exactly
/// when no message was supplied: a repository with no commits yet.
pub fn format_history(messages: &Vec<Vec<u8>>) -> (r: Option<Vec<u8>>)
    ensures
        messages@.len() == 0 <==> r is None,
        r matches Some(text) ==> text@ == formatted_window(
            crate::text::views_of(messages@.take(window_len(messages@.len() as int))),
        ),
{
    if messages.len() == 0 {
        return None;
    }
    let count = if messages.len() < 3 {
        messages.len()
    } else {
        3
    };
    let mut prepared: Vec<Vec<u8>> = Vec::new();
    let mut k: usize = 0;
    while k < count
        invariant
            0 < count <= messages@.len(),
            count == window_len(messages@.len() as int),
            0 <= k <= count,
            crate::text::views_of(prepared@) =~= crate::text::views_of(
                messages@.take(count as int),
            ).take(k as int).map_values(|m: Seq<u8>| prepared_message(m)),
        decreases count - k,
    {
        let p = prepare_message(messages[k].as_slice());
        prepared.push(p);
        proof {
            let w = crate::text::views_of(messages@.take(count as int));
            assert(w.take(k + 1 as int) =~= w.take(k as int).push(messages@[k as int]@));
            assert(w.take(k + 1 as int).map_values(|m: Seq<u8>| prepared_message(m)) =~= w.take(
                k as int,
            ).map_values(|m: Seq<u8>| prepared_message(m)).push(
                prepared_message(messages@[k as int]@),
            ));
            assert(crate::text::views_of(prepared@) =~= w.take(k + 1 as int).map_values(
                |m: Seq<u8>| prepared_message(m),
            ));
        }
        k += 1;
    }
    let sep: Vec<u8> = vec![10u8, 10];
    proof {
        assert(sep@ =~= entry_sep());
        let w = crate::text::views_of(messages@.take(count as int));
        assert(w.take(count as int) =~= w);
    }
    Some(join_with(&prepared, sep.as_slice()))
}

/// The text that stands in the history placeholder: the formatted window,
/// or `None` when the repository has no commits yet.
pub fn history_placeholder_text(history: &Option<Vec<u8>>) -> (r: Vec<u8>)
    ensures
        history matches Some(h) ==> r@ == h@,
        history is None ==> r@ == none_text(),
{
    match history {
        Some(h) => {
            let mut out: Vec<u8> = Vec::new();
            push_all(&mut out, h.as_slice());
            proof {
                assert(out@ =~= h@);
            }
            out
        },
        None => {
            let v: Vec<u8> = vec![78u8, 111, 110, 101];
            proof {
                assert(v@ =~= none_text());
            }
            v
        },
    }
}

} // verus!
