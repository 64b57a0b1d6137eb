//! Splitting an oversized diff into bounded byte windows.
//!
//! A chunk is a contiguous byte range of the diff. Windows are cut purely by
//! byte offset — a window may split a line or a multi-byte character — every
//! window but the last holds exactly `chunk_size` bytes, and concatenating
//! the windows in order reproduces the diff exactly.

use vstd::prelude::*;

verus! {

/// Concatenation of the chunks, in order.
pub open spec fn chunks_concat(chunks: Seq<Vec<u8>>) -> Seq<u8>
    decreases chunks.len(),
{
    if chunks.len() == 0 {
        Seq::empty()
    } else {
        chunks[0]@ + chunks_concat(chunks.drop_first())
    }
}

proof fn lemma_chunks_concat_snoc(chunks: Seq<Vec<u8>>, x: Vec<u8>)
    ensures
        chunks_concat(chunks.push(x)) == chunks_concat(chunks) + x@,
    decreases chunks.len(),
{
    if chunks.len() == 0 {
        assert(chunks.push(x)[0] == x);
        assert(chunks.push(x).drop_first() =~= Seq::<Vec<u8>>::empty());
        assert(chunks_concat(Seq::<Vec<u8>>::empty()) == Seq::<u8>::empty());
        assert(chunks_concat(chunks.push(x)) == x@ + Seq::<u8>::empty());
        assert(chunks_concat(chunks.push(x)) =~= chunks_concat(chunks) + x@);
    } else {
        assert(chunks.push(x)[0] == chunks[0]);
        assert(chunks.push(x).drop_first() =~= chunks.drop_first().push(x));
        lemma_chunks_concat_snoc(chunks.drop_first(), x);
        assert(chunks[0]@ + (chunks_concat(chunks.drop_first()) + x@) =~= (chunks[0]@
            + chunks_concat(chunks.drop_first())) + x@);
    }
}

/// What it means for `chunks` to be the windowing of `text` by `size`:
/// every window but the last is exactly `size` bytes, the last is nonempty
/// and at most `size` bytes, and window `i` is the byte range starting at
/// `i * size` of the text.
pub open spec fn is_chunking_of(chunks: Seq<Vec<u8>>, text: Seq<u8>, size: int) -> bool {
    &&& chunks_concat(chunks) == text
    &&& (text.len() == 0 <==> chunks.len() == 0)
    &&& forall|i: int| 0 <= i < chunks.len() - 1 ==> #[trigger] chunks[i]@.len() == size
    &&& chunks.len() > 0 ==> 0 < chunks.last()@.len() <= size
    &&& forall|i: int| 0 <= i < chunks.len() ==> #[trigger] chunks[i]@ == text.subrange(
        i * size,
        if (i + 1) * size < text.len() {
            (i + 1) * size
        } else {
            text.len() as int
        },
    )
}

/// Split the diff into windows of `chunk_size` bytes; the final window may
/// be shorter. Concatenating the result in order reproduces the input
/// exactly, for every input length and every window size of at least one.
pub fn split_into_chunks(diff: &[u8], chunk_size: usize) -> (chunks: Vec<Vec<u8>>)
    requires
        chunk_size >= 1,
    ensures
        is_chunking_of(chunks@, diff@, chunk_size as int),
{
    let ghost cs = chunk_size as int;
    let mut chunks: Vec<Vec<u8>> = Vec::new();
    let mut start: usize = 0;
    proof {
        assert(diff@.subrange(0, 0) =~= Seq::<u8>::empty());
        assert(chunks_concat(chunks@) == Seq::<u8>::empty());
        assert(chunks@.len() * cs == 0) by (nonlinear_arith)
            requires
                chunks@.len() == 0,
        ;
        assert(is_chunking_of(chunks@, diff@.subrange(0, 0), cs));
    }
    while start < diff.len()
        invariant
            chunk_size >= 1,
            cs == chunk_size as int,
            0 <= start <= diff@.len(),
            start == chunks@.len() * cs || start == diff@.len(),
            is_chunking_of(chunks@, diff@.subrange(0, start as int), cs),
        decreases diff@.len() - start,
    {
        let ghost c0 = chunks@;
        let ghost n = chunks@.len() as int;
        proof {
            // `start` is a whole number of full windows: a short final window
            // only arises when `start` has reached the end of the diff.
            if start != n * cs {
                assert(start == diff@.len());
                assert(false);
            }
            assert(n * cs >= 0 && (n > 0 ==> n * cs >= cs)) by (nonlinear_arith)
                requires
                    cs >= 1,
                    n >= 0,
            ;
        }
        let remaining = diff.len() - start;
        let end = if remaining < chunk_size {
            diff.len()
        } else {
            start + chunk_size
        };
        let chunk = crate::text::slice_to_vec(diff, start, end);
        chunks.push(chunk);
        proof {
            let pre = diff@.subrange(0, start as int);
            let now = diff@.subrange(0, end as int);
            lemma_chunks_concat_snoc(c0, chunk);
            assert(pre + diff@.subrange(start as int, end as int) =~= now);
            assert((n + 1) * cs == n * cs + cs) by (nonlinear_arith);
            // every window before the new one is full and sits at its offset
            assert forall|i: int| 0 <= i < n implies #[trigger] chunks@[i]@ == now.subrange(
                i * cs,
                if (i + 1) * cs < now.len() {
                    (i + 1) * cs
                } else {
                    now.len() as int
                },
            ) && chunks@[i]@.len() == cs by {
                assert(chunks@[i] == c0[i]);
                assert(0 <= i * cs && i * cs + cs == (i + 1) * cs && (i + 1) * cs <= n * cs)
                    by (nonlinear_arith)
                    requires
                        0 <= i < n,
                        cs >= 1,
                ;
                let old_hi = if (i + 1) * cs < pre.len() {
                    (i + 1) * cs
                } else {
                    pre.len() as int
                };
                assert(c0[i]@ == pre.subrange(i * cs, old_hi));
                assert(old_hi == (i + 1) * cs);
                assert(pre.subrange(i * cs, (i + 1) * cs) =~= now.subrange(i * cs, (i + 1) * cs));
                assert((i + 1) * cs < now.len());
            }
            // the new window
            assert(chunks@[n]@ == diff@.subrange(start as int, end as int));
            assert(diff@.subrange(start as int, end as int) =~= now.subrange(
                n * cs,
                if (n + 1) * cs < now.len() {
                    (n + 1) * cs
                } else {
                    now.len() as int
                },
            ));
            assert(is_chunking_of(chunks@, now, cs));
        }
        start = end;
    }
    proof {
        assert(diff@.subrange(0, diff@.len() as int) =~= diff@);
    }
    chunks
}

} // verus!
