use rust_nuke::batch::{split_into_chunks, FUND_CHUNK_LEN};
use rust_nuke::scheduler::{Distribution, Spend};

fn entry(from: u64) -> Distribution {
    Distribution { from, spends: vec![Spend { to: from + 1, lamports: 2 }] }
}

#[test]
fn chunk_length_matches_the_network_budget() {
    assert_eq!(FUND_CHUNK_LEN, 8192);
}

#[test]
fn a_short_list_is_one_chunk() {
    let v: Vec<Distribution> = (0..5).map(entry).collect();
    let chunks = split_into_chunks(v, FUND_CHUNK_LEN);
    assert_eq!(chunks.len(), 1);
    assert_eq!(chunks[0].len(), 5);
}

#[test]
fn chunks_keep_order_and_fill_all_but_the_last() {
    let v: Vec<Distribution> = (0..10).map(entry).collect();
    let chunks = split_into_chunks(v, 4);
    assert_eq!(chunks.len(), 3);
    assert_eq!(chunks[0].len(), 4);
    assert_eq!(chunks[1].len(), 4);
    assert_eq!(chunks[2].len(), 2);
    let flat: Vec<u64> = chunks.iter().flatten().map(|e| e.from).collect();
    assert_eq!(flat, (0..10).collect::<Vec<u64>>());
}

#[test]
fn an_exact_multiple_leaves_no_partial_chunk() {
    let v: Vec<Distribution> = (0..8).map(entry).collect();
    let chunks = split_into_chunks(v, 4);
    assert_eq!(chunks.len(), 2);
    assert!(chunks.iter().all(|c| c.len() == 4));
}
