//! Prompt templates and literal placeholder substitution.
//!
//! A template is plain text with two named substitution points: a
//! commit-history placeholder and a diff/summary placeholder. Substitution is
//! literal text replacement — every occurrence of the placeholder, scanned
//! left to right without overlap, is replaced by the supplied text.

use vstd::prelude::*;

use crate::text::push_all;
use crate::text::bytes_eq;

verus! {

/// Every non-overlapping occurrence of `from`, scanned left to right,
/// replaced by `to`. `from` must be nonempty.
pub open spec fn replace_all(s: Seq<u8>, from: Seq<u8>, to: Seq<u8>) -> Seq<u8>
    decreases s.len(),
    when from.len() >= 1
{
    if s.len() < from.len() {
        s
    } else if s.subrange(0, from.len() as int) == from {
        to + replace_all(s.skip(from.len() as int), from, to)
    } else {
        seq![s[0]] + replace_all(s.skip(1), from, to)
    }
}

/// Replace every occurrence of `from` in `s` by `to`.
pub fn replace_bytes(s: &[u8], from: &[u8], to: &[u8]) -> (r: Vec<u8>)
    requires
        from@.len() >= 1,
    ensures
        r@ == replace_all(s@, from@, to@),
{
    let mut out: Vec<u8> = Vec::new();
    let mut i: usize = 0;
    proof {
        assert(s@.skip(0) =~= s@);
        assert(Seq::<u8>::empty() + replace_all(s@, from@, to@) =~= replace_all(s@, from@, to@));
    }
    while i < s.len()
        invariant
            from@.len() >= 1,
            0 <= i <= s@.len(),
            out@ + replace_all(s@.skip(i as int), from@, to@) == replace_all(s@, from@, to@),
        decreases s@.len() - i,
    {
        let ghost rest = s@.skip(i as int);
        if s.len() - i >= from.len() && bytes_eq(&s[i..i + from.len()], from) {
            proof {
                assert(s@.subrange(i as int, i + from@.len()) =~= rest.subrange(
                    0,
                    from@.len() as int,
                ));
                assert(rest.skip(from@.len() as int) =~= s@.skip(i + from@.len()));
            }
            push_all(&mut out, to);
            i += from.len();
        } else {
            proof {
                if rest.len() >= from@.len() {
                    assert(s@.subrange(i as int, i + from@.len()) =~= rest.subrange(
                        0,
                        from@.len() as int,
                    ));
                }
                assert(rest.skip(1) =~= s@.skip(i + 1));
                assert(seq![s@[i as int]] + replace_all(s@.skip(i + 1), from@, to@) == replace_all(
                    rest,
                    from@,
                    to@,
                ));
            }
            let b = s[i];
            out.push(b);
            proof {
                assert(out@ + replace_all(s@.skip(i + 1), from@, to@) =~= (out@.drop_last() + (seq![
                    s@[i as int],
                ] + replace_all(s@.skip(i + 1), from@, to@))));
            }
            i += 1;
        }
    }
    proof {
        assert(s@.skip(s@.len() as int) =~= Seq::<u8>::empty());
        assert(replace_all(Seq::<u8>::empty(), from@, to@) == Seq::<u8>::empty());
        assert(out@ =~= out@ + Seq::<u8>::empty());
    }
    out
}

/// The placeholder that the commit-history text replaces: `{recent_commits}`.
pub open spec fn history_marker() -> Seq<u8> {
    seq![123u8, 114, 101, 99, 101, 110, 116, 95, 99, 111, 109, 109, 105, 116, 115, 125]
}

/// The placeholder that the diff text or the chunk summary replaces:
/// `{diff_context}`.
pub open spec fn diff_marker() -> Seq<u8> {
    seq![123u8, 100, 105, 102, 102, 95, 99, 111, 110, 116, 101, 120, 116, 125]
}

/// The history placeholder, as bytes.
pub fn history_marker_bytes() -> (r: Vec<u8>)
    ensures
        r@ == history_marker(),
{
    let v: Vec<u8> = vec![123u8, 114, 101, 99, 101, 110, 116, 95, 99, 111, 109, 109, 105, 116,
        115, 125];
    proof {
        assert(v@ =~= history_marker());
    }
    v
}

/// The diff placeholder, as bytes.
pub fn diff_marker_bytes() -> (r: Vec<u8>)
    ensures
        r@ == diff_marker(),
{
    let v: Vec<u8> = vec![123u8, 100, 105, 102, 102, 95, 99, 111, 110, 116, 101, 120, 116, 125];
    proof {
        assert(v@ =~= diff_marker());
    }
    v
}

/// The assembled prompt: the template with the history placeholder replaced
/// by the history text, then the diff placeholder replaced by the body (the
/// raw diff on the direct path, the chunk summary on the chunked path).
pub open spec fn filled(template: Seq<u8>, history: Seq<u8>, body: Seq<u8>) -> Seq<u8> {
    replace_all(replace_all(template, history_marker(), history), diff_marker(), body)
}

/// Fill both substitution points of a template.
pub fn fill_template(template: &[u8], history: &[u8], body: &[u8]) -> (r: Vec<u8>)
    ensures
        r@ == filled(template@, history@, body@),
{
    let hm = history_marker_bytes();
    let dm = diff_marker_bytes();
    let step = replace_bytes(template, hm.as_slice(), history);
    replace_bytes(step.as_slice(), dm.as_slice(), body)
}

/// `pat` occurs in `s` starting at offset `k`.
pub open spec fn occurs_at(s: Seq<u8>, pat: Seq<u8>, k: int) -> bool {
    0 <= k && k + pat.len() <= s.len() && s.subrange(k, k + pat.len()) == pat
}

/// `pat` occurs somewhere in `s` as a contiguous run of bytes.
pub open spec fn occurs(s: Seq<u8>, pat: Seq<u8>) -> bool {
    exists|k: int| occurs_at(s, pat, k)
}

proof fn lemma_occurs_at_prepend(prefix: Seq<u8>, s: Seq<u8>, pat: Seq<u8>, k: int)
    requires
        occurs_at(s, pat, k),
    ensures
        occurs_at(prefix + s, pat, prefix.len() + k),
{
    assert((prefix + s).subrange(prefix.len() + k, prefix.len() + k + pat.len()) =~= s.subrange(
        k,
        k + pat.len(),
    ));
}

/// Replacement embeds its replacement text verbatim: wherever the pattern
/// occurs in the source, the replaced text holds `to` as a contiguous run.
pub proof fn lemma_replace_embeds(s: Seq<u8>, from: Seq<u8>, to: Seq<u8>)
    requires
        from.len() >= 1,
        occurs(s, from),
    ensures
        occurs(replace_all(s, from, to), to),
    decreases s.len(),
{
    let k = choose|k: int| occurs_at(s, from, k);
    if s.len() < from.len() {
        assert(false);
    } else if s.subrange(0, from.len() as int) == from {
        let r = replace_all(s, from, to);
        assert(r == to + replace_all(s.skip(from.len() as int), from, to));
        assert(r.subrange(0, to.len() as int) =~= to);
        assert(occurs_at(r, to, 0));
    } else {
        assert(k >= 1) by {
            if k == 0 {
                assert(s.subrange(0, from.len() as int) == from);
            }
        }
        assert(occurs_at(s.skip(1), from, k - 1)) by {
            assert(s.skip(1).subrange(k - 1, k - 1 + from.len()) =~= s.subrange(
                k,
                k + from.len(),
            ));
        }
        lemma_replace_embeds(s.skip(1), from, to);
        let j = choose|j: int| occurs_at(replace_all(s.skip(1), from, to), to, j);
        lemma_occurs_at_prepend(seq![s[0]], replace_all(s.skip(1), from, to), to, j);
    }
}

/// Law: on the direct path the assembled prompt embeds the body verbatim.
/// If the diff placeholder survives the history substitution — as it does in
/// any template whose placeholders appear verbatim and whose history text
/// does not itself form a placeholder — the filled prompt holds the body
/// (the raw diff, on the direct path) as a contiguous run of bytes.
pub proof fn lemma_filled_embeds_body(template: Seq<u8>, history: Seq<u8>, body: Seq<u8>)
    requires
        occurs(replace_all(template, history_marker(), history), diff_marker()),
    ensures
        occurs(filled(template, history, body), body),
{
    lemma_replace_embeds(replace_all(template, history_marker(), history), diff_marker(), body);
}

} // verus!
