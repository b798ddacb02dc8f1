use chain_sync::body::blocks_per_round;
use chain_sync::body::blocks_to_request;
use chain_sync::body::body_walk_start;
use chain_sync::body::body_walk_step;
use chain_sync::body::BlockStatus;
use chain_sync::fast::txhashset_depth;
use chain_sync::fast::txhashset_request;
use chain_sync::fast::walk_reaches_snapshot;
use chain_sync::fast::TxHashSetRequest;
use chain_sync::header::header_sync_wanted;
use chain_sync::types::BlockHash;
use chain_sync::types::BlockHeader;
use chain_sync::types::Difficulty;
use chain_sync::types::PeerInfo;
use chain_sync::types::PeerReading;
use chain_sync::types::Tip;

fn hash_of(height: u64) -> BlockHash {
    let mut bytes = [0u8; 32];
    bytes[..8].copy_from_slice(&height.to_be_bytes());
    BlockHash(bytes)
}

fn header_at(height: u64) -> BlockHeader {
    BlockHeader { hash: hash_of(height), previous: hash_of(height.saturating_sub(1)), height }
}

fn tip_at(height: u64, diff: u64) -> Tip {
    Tip {
        last_block_h: hash_of(height),
        prev_block_h: hash_of(height.saturating_sub(1)),
        height,
        total_difficulty: Difficulty::from_num(diff),
    }
}

fn wanted(height: u64) -> BlockStatus {
    BlockStatus { hash: hash_of(height), stored: false, orphan: false }
}

#[test]
fn body_walk_starts_only_with_more_header_work() {
    assert_eq!(body_walk_start(&tip_at(20, 200), &tip_at(10, 100)), Some(hash_of(20)));
    assert_eq!(body_walk_start(&tip_at(10, 100), &tip_at(10, 100)), None);
    assert_eq!(body_walk_start(&tip_at(10, 90), &tip_at(10, 100)), None);
}

#[test]
fn body_walk_collects_until_the_current_chain() {
    // headers 10..=7 are new, 6 is on the validated chain
    let mut hashes: Vec<BlockHash> = Vec::new();
    let mut next = Some(hash_of(10));
    let mut height: u64 = 10;
    while let Some(h) = next {
        assert_eq!(h, hash_of(height));
        next = body_walk_step(&header_at(height), height <= 6, &mut hashes);
        height -= 1;
    }
    assert_eq!(hashes, vec![hash_of(10), hash_of(9), hash_of(8), hash_of(7)]);
}

#[test]
fn body_walk_step_on_the_current_chain_collects_nothing() {
    let mut hashes = vec![hash_of(3)];
    assert_eq!(body_walk_step(&header_at(2), true, &mut hashes), None);
    assert_eq!(hashes, vec![hash_of(3)]);
    assert_eq!(body_walk_step(&header_at(2), false, &mut hashes), Some(hash_of(1)));
    assert_eq!(hashes, vec![hash_of(3), hash_of(2)]);
}

#[test]
fn blocks_per_round_is_ten_per_peer_up_to_ten_peers() {
    assert_eq!(blocks_per_round(0), 0);
    assert_eq!(blocks_per_round(1), 10);
    assert_eq!(blocks_per_round(5), 50);
    assert_eq!(blocks_per_round(8), 80);
    assert_eq!(blocks_per_round(10), 100);
    assert_eq!(blocks_per_round(11), 100);
    assert_eq!(blocks_per_round(usize::MAX), 100);
}

#[test]
fn blocks_are_requested_in_ascending_height() {
    let walked = vec![wanted(9), wanted(8), wanted(7)];
    assert_eq!(blocks_to_request(&walked, 1), vec![hash_of(7), hash_of(8), hash_of(9)]);
}

#[test]
fn stored_and_orphaned_blocks_are_not_requested() {
    let walked = vec![
        wanted(9),
        BlockStatus { hash: hash_of(8), stored: false, orphan: true },
        wanted(7),
        BlockStatus { hash: hash_of(6), stored: true, orphan: false },
        BlockStatus { hash: hash_of(5), stored: true, orphan: true },
    ];
    assert_eq!(blocks_to_request(&walked, 3), vec![hash_of(7), hash_of(9)]);
}

#[test]
fn requests_are_capped_by_the_peer_count() {
    let walked: Vec<BlockStatus> = (1..=250u64).rev().map(wanted).collect();
    let lowest = |n: u64| -> Vec<BlockHash> { (1..=n).map(hash_of).collect() };
    assert_eq!(blocks_to_request(&walked, 0), Vec::<BlockHash>::new());
    assert_eq!(blocks_to_request(&walked, 1), lowest(10));
    assert_eq!(blocks_to_request(&walked, 5), lowest(50));
    assert_eq!(blocks_to_request(&walked, 10), lowest(100));
    assert_eq!(blocks_to_request(&walked, 64), lowest(100));
}

#[test]
fn the_cap_counts_wanted_blocks_only() {
    // every other block is stored already
    let walked: Vec<BlockStatus> = (1..=40u64)
        .rev()
        .map(|h| BlockStatus { hash: hash_of(h), stored: h % 2 == 0, orphan: false })
        .collect();
    let expected: Vec<BlockHash> = (0..10u64).map(|k| hash_of(2 * k + 1)).collect();
    assert_eq!(blocks_to_request(&walked, 1), expected);
}

#[test]
fn nothing_walked_nothing_requested() {
    assert_eq!(blocks_to_request(&Vec::new(), 8), Vec::<BlockHash>::new());
}

#[test]
fn headers_are_wanted_from_a_peer_with_more_work() {
    let head = tip_at(10, 100);
    let ready = |diff: u64| {
        PeerReading::Ready(PeerInfo { height: 50, total_difficulty: Difficulty::from_num(diff) })
    };
    assert!(header_sync_wanted(&head, ready(101)));
    assert!(!header_sync_wanted(&head, ready(100)));
    assert!(!header_sync_wanted(&head, ready(1)));
    assert!(!header_sync_wanted(&head, PeerReading::Busy));
    assert!(!header_sync_wanted(&head, PeerReading::Absent));
}

#[test]
fn snapshot_depth_keeps_the_margin() {
    assert_eq!(txhashset_depth(500), 480);
    assert_eq!(txhashset_depth(21), 1);
    assert_eq!(txhashset_depth(20), 0);
    assert_eq!(txhashset_depth(0), 0);
    assert_eq!(txhashset_depth(u64::MAX), u64::MAX - 20);
}

#[test]
fn snapshot_lies_horizon_less_twenty_behind() {
    // header head at 1000, so the walk starts at 999
    let walk: Vec<BlockHeader> = (0..=999u64).rev().map(header_at).collect();
    assert_eq!(
        txhashset_request(&walk, 500),
        Some(TxHashSetRequest { height: 519, hash: hash_of(519) })
    );
    assert_eq!(
        txhashset_request(&walk, 20),
        Some(TxHashSetRequest { height: 999, hash: hash_of(999) })
    );
    assert_eq!(
        txhashset_request(&walk, 5),
        Some(TxHashSetRequest { height: 999, hash: hash_of(999) })
    );
    assert_eq!(
        txhashset_request(&walk, 1019),
        Some(TxHashSetRequest { height: 0, hash: hash_of(0) })
    );
}

#[test]
fn snapshot_needs_a_walk_that_reaches_it() {
    let walk: Vec<BlockHeader> = (0..=999u64).rev().map(header_at).collect();
    assert_eq!(txhashset_request(&walk, 1020), None);
    assert_eq!(txhashset_request(&walk, u64::MAX), None);
    assert_eq!(txhashset_request(&Vec::new(), 0), None);
}

#[test]
fn walk_stops_at_the_snapshot() {
    let walk: Vec<BlockHeader> = (900..=999u64).rev().map(header_at).collect();
    assert!(walk_reaches_snapshot(&walk, 0));
    assert!(walk_reaches_snapshot(&walk, 119));
    assert!(!walk_reaches_snapshot(&walk, 120));
    assert!(!walk_reaches_snapshot(&Vec::new(), 0));
    assert!(walk_reaches_snapshot(&walk[..1].to_vec(), 20));
    assert!(!walk_reaches_snapshot(&walk[..1].to_vec(), 21));
}
