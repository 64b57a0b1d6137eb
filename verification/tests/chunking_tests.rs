use git_commit_helper::chunking::split_into_chunks;

fn concat(chunks: &[Vec<u8>]) -> Vec<u8> {
    let mut out = Vec::new();
    for c in chunks {
        out.extend_from_slice(c);
    }
    out
}

#[test]
fn empty_diff_yields_no_chunks() {
    let chunks = split_into_chunks(b"", 100);
    assert_eq!(chunks.len(), 0);
}

#[test]
fn small_diff_is_one_chunk() {
    let chunks = split_into_chunks(b"+hello\n", 100);
    assert_eq!(chunks.len(), 1);
    assert_eq!(chunks[0], b"+hello\n".to_vec());
}

#[test]
fn exact_multiple_splits_evenly() {
    let chunks = split_into_chunks(b"abcdef", 3);
    assert_eq!(chunks.len(), 2);
    assert_eq!(chunks[0], b"abc".to_vec());
    assert_eq!(chunks[1], b"def".to_vec());
}

#[test]
fn remainder_goes_to_short_final_chunk() {
    let chunks = split_into_chunks(b"abcdefg", 3);
    assert_eq!(chunks.len(), 3);
    assert_eq!(chunks[0], b"abc".to_vec());
    assert_eq!(chunks[1], b"def".to_vec());
    assert_eq!(chunks[2], b"g".to_vec());
    assert_eq!(concat(&chunks), b"abcdefg".to_vec());
}

#[test]
fn chunk_size_one_splits_every_byte() {
    let chunks = split_into_chunks(b"xyz", 1);
    assert_eq!(chunks.len(), 3);
    assert_eq!(concat(&chunks), b"xyz".to_vec());
}

#[test]
fn oversized_diff_splits_into_three_windows() {
    let diff: Vec<u8> = (0..500_000u32).map(|i| (i % 251) as u8).collect();
    let chunks = split_into_chunks(&diff, 200_000);
    assert_eq!(chunks.len(), 3);
    assert_eq!(chunks[0].len(), 200_000);
    assert_eq!(chunks[1].len(), 200_000);
    assert_eq!(chunks[2].len(), 100_000);
    assert_eq!(concat(&chunks), diff);
}

#[test]
fn concatenation_reproduces_input_exactly() {
    let diff: Vec<u8> = (0..1000u32).map(|i| (i % 7) as u8).collect();
    for size in [1usize, 2, 3, 99, 1000, 5000] {
        let chunks = split_into_chunks(&diff, size);
        assert_eq!(concat(&chunks), diff, "chunk size {size}");
    }
}
