use hashledger::block::{concat_fields, generate_hash, Block};
use hashledger::chain::{get_time, Blockchain};
use hashledger::decimal::push_decimal;

const GENESIS_HASH: &str = "EDC1E125922F79FBDFAF09F5603677C12B0D8E6E26B436DE55ED942B7CEA2C45";

fn demo_chain() -> Blockchain {
    let mut c = Blockchain::with_genesis_time(100);
    c.add_block(101, "I'm cool".to_string());
    c.add_block(102, "Next element".to_string());
    c.add_block(103, "Another block".to_string());
    c.add_block(104, "Something else".to_string());
    c
}

#[test]
fn decimal_text_of_integers() {
    let mut s = String::new();
    push_decimal(&mut s, 0);
    assert_eq!(s, "0");
    let mut s = "x".to_string();
    push_decimal(&mut s, 1234567890);
    assert_eq!(s, "x1234567890");
    let mut s = String::new();
    push_decimal(&mut s, u64::MAX);
    assert_eq!(s, "18446744073709551615");
}

#[test]
fn concatenation_has_no_separators() {
    let t = concat_fields(12, 345, &"ab".to_string(), &"CD".to_string());
    assert_eq!(t, "12345abCD");
}

#[test]
fn digest_matches_known_vector() {
    let h = generate_hash(0, 5, "Genesis Block".to_string(), "0".to_string());
    assert_eq!(h, GENESIS_HASH);
    assert_eq!(h.len(), 64);
}

#[test]
fn digest_is_deterministic() {
    let a = generate_hash(7, 99, "payload".to_string(), "ABC".to_string());
    let b = generate_hash(7, 99, "payload".to_string(), "ABC".to_string());
    assert_eq!(a, b);
    let blk = Block::new(7, 99, "payload".to_string(), "ABC".to_string());
    assert_eq!(blk.hash, a);
    assert_eq!(blk.calculate_hash(), a);
    assert_eq!(blk.calculate_hash(), blk.calculate_hash());
}

#[test]
fn digest_changes_with_each_field() {
    let base = generate_hash(1, 2, "x".to_string(), "P".to_string());
    assert_ne!(base, generate_hash(3, 2, "x".to_string(), "P".to_string()));
    assert_ne!(base, generate_hash(1, 4, "x".to_string(), "P".to_string()));
    assert_ne!(base, generate_hash(1, 2, "y".to_string(), "P".to_string()));
    assert_ne!(base, generate_hash(1, 2, "x".to_string(), "Q".to_string()));
}

#[test]
fn separator_free_concatenation_collides() {
    let a = concat_fields(1, 2, &"1".to_string(), &"23".to_string());
    let b = concat_fields(1, 2, &"12".to_string(), &"3".to_string());
    assert_eq!(a, b);
    let ha = generate_hash(1, 2, "1".to_string(), "23".to_string());
    let hb = generate_hash(1, 2, "12".to_string(), "3".to_string());
    assert_eq!(ha, hb);
    assert_eq!(ha, "C492E2A3E4F6CC9C5B3A1AE173333905D4CF6407F1C3B87C50763BBBBADC0DD9");
    assert_eq!(generate_hash(1, 23, "1".to_string(), String::new()), generate_hash(12, 3, "1".to_string(), String::new()));
}

#[test]
fn genesis_shape() {
    let c = Blockchain::with_genesis_time(5);
    assert_eq!(c.chain.len(), 1);
    let g = &c.chain[0];
    assert_eq!(g.index, 0);
    assert_eq!(g.timestamp, 5);
    assert_eq!(g.data, "Genesis Block");
    assert_eq!(g.previous_hash, "0");
    assert_eq!(g.hash, GENESIS_HASH);
    assert!(c.is_valid());
}

#[test]
fn genesis_block_alone() {
    let g = Blockchain::create_genesis_block(5);
    assert_eq!(g.index, 0);
    assert_eq!(g.previous_hash, "0");
    assert_eq!(g.hash, GENESIS_HASH);
}

#[test]
fn new_reads_the_clock() {
    let c = Blockchain::new().expect("clock");
    assert_eq!(c.chain.len(), 1);
    assert_eq!(c.chain[0].index, 0);
    assert_eq!(c.chain[0].previous_hash, "0");
    assert!(c.chain[0].timestamp >= 1_600_000_000);
    assert!(c.is_valid());
    assert!(get_time().is_some());
}

#[test]
fn append_links_to_tail() {
    let mut c = Blockchain::with_genesis_time(5);
    c.add_block(7, "I'm cool".to_string());
    assert_eq!(c.chain.len(), 2);
    let b = &c.chain[1];
    assert_eq!(b.index, 1);
    assert_eq!(b.timestamp, 7);
    assert_eq!(b.data, "I'm cool");
    assert_eq!(b.previous_hash, GENESIS_HASH);
    assert_eq!(b.hash, "DB860A5C512A7A531A2DA7D24B9818304182796BC86905373219FF71FEF31195");
}

#[test]
fn append_monotonicity() {
    let mut c = Blockchain::with_genesis_time(0);
    for n in 1..=20u64 {
        c.add_block(n, format!("item {}", n));
        assert_eq!(c.chain.len() as u64, n + 1);
        assert!(c.is_valid());
    }
    for (i, b) in c.chain.iter().enumerate() {
        assert_eq!(b.index as usize, i);
        if i > 0 {
            assert_eq!(b.previous_hash, c.chain[i - 1].hash);
        }
    }
}

#[test]
fn end_to_end_scenario() {
    let c = demo_chain();
    assert!(c.is_valid());
    assert_eq!(c.chain.len(), 5);
    let payloads = ["Genesis Block", "I'm cool", "Next element", "Another block", "Something else"];
    for i in 0..5 {
        assert_eq!(c.chain[i].index as usize, i);
        assert_eq!(c.chain[i].data, payloads[i]);
        if i > 0 {
            assert_eq!(c.chain[i].previous_hash, c.chain[i - 1].hash);
        }
    }
    let text = c.listing();
    let lines: Vec<&str> = text.lines().collect();
    assert_eq!(lines.len(), 30);
    for i in 0..5 {
        let b = &c.chain[i];
        assert_eq!(lines[6 * i], format!("Index: {}", i));
        assert_eq!(lines[6 * i + 1], format!("Timestamp: {}", 100 + i));
        assert_eq!(lines[6 * i + 2], format!("Data: {}", payloads[i]));
        assert_eq!(lines[6 * i + 3], format!("Previous Hash: {}", b.previous_hash));
        assert_eq!(lines[6 * i + 4], format!("Hash: {}", b.hash));
        assert_eq!(lines[6 * i + 5], "----------------------------------");
    }
    assert!(text.ends_with("----------------------------------\n"));
}

#[test]
fn listing_of_genesis() {
    let c = Blockchain::with_genesis_time(5);
    let expected = format!(
        "Index: 0\nTimestamp: 5\nData: Genesis Block\nPrevious Hash: 0\nHash: {}\n----------------------------------\n",
        GENESIS_HASH
    );
    assert_eq!(c.listing(), expected);
}

#[test]
fn tampered_payload_is_detected() {
    let mut c = demo_chain();
    c.chain[2].data = "Changed".to_string();
    assert!(!c.is_valid());
}

#[test]
fn tampered_timestamp_is_detected() {
    let mut c = demo_chain();
    c.chain[3].timestamp += 1;
    assert!(!c.is_valid());
}

#[test]
fn tampered_index_is_detected() {
    let mut c = demo_chain();
    c.chain[1].index = 9;
    assert!(!c.is_valid());
}

#[test]
fn tampered_previous_hash_is_detected() {
    let mut c = demo_chain();
    c.chain[4].previous_hash = "0".to_string();
    assert!(!c.is_valid());
}

#[test]
fn tampered_hash_is_detected() {
    let mut c = demo_chain();
    c.chain[4].hash = "0".to_string();
    assert!(!c.is_valid());
    let mut c = demo_chain();
    c.chain[2].hash = "0".to_string();
    assert!(!c.is_valid());
}

#[test]
fn genesis_is_not_checked() {
    let mut c = demo_chain();
    c.chain[0].data = "Changed".to_string();
    assert!(c.is_valid());
}

#[test]
fn empty_chain_is_valid() {
    let c = Blockchain { chain: Vec::new() };
    assert!(c.is_valid());
    assert_eq!(c.listing(), "");
}
