use bloomfilter::hash::compute_hash;
use bloomfilter::{split_u128, BloomFilter, DimensionMismatch};

#[test]
fn test_new() {
    let bf = BloomFilter::new(100, 3);

    assert_eq!(bf.capacity(), 100);
    assert_eq!(bf.k(), 3);
    assert_eq!(bf.bitset().len(), 100);
}

#[test]
fn test_insert() {
    let mut bf = BloomFilter::new(32, 3);

    assert_eq!(bf.bitset().to_string(), "00000000000000000000000000000000");

    bf.insert(b"hello");
    assert_eq!(bf.bitset().to_string(), "00100000000000000000010000100000");

    bf.insert(b"world");
    assert_eq!(bf.bitset().to_string(), "00101000001000000000010000100010");
}

#[test]
fn test_contains() {
    let mut bf = BloomFilter::new(128, 3);

    assert!(!bf.contains(b"hello"));
    assert!(!bf.contains(b"world"));

    bf.insert(b"hello");
    assert!(bf.contains(b"hello"));

    bf.insert(b"world");
    assert!(bf.contains(b"world"));

    assert!(!bf.contains(b"foo"));

    bf.clear();
    assert!(!bf.contains(b"hello"));
    assert!(!bf.contains(b"world"));
}

#[test]
fn test_union() {
    let mut bf1 = BloomFilter::new(32, 3);
    bf1.insert(b"hello");
    assert_eq!(bf1.bitset().to_string(), "00100000000000000000010000100000");

    let mut bf2 = BloomFilter::new(32, 3);
    bf2.insert(b"world");

    bf1.union(&bf2).unwrap();

    assert_eq!(bf1.bitset().to_string(), "00101000001000000000010000100010");
}

#[test]
fn small_filter_scenario() {
    let mut bf = BloomFilter::new(32, 3);
    bf.insert(b"hello");
    assert_eq!(bf.bitset().count_ones(..), 3);
    bf.insert(b"world");
    assert!(!bf.contains(b"foo"));
    assert!(bf.contains(b"hello"));
    assert!(bf.contains(b"world"));
}

#[test]
fn new_clamps_dimensions_to_one() {
    let mut bf = BloomFilter::new(0, 0);
    assert_eq!(bf.capacity(), 1);
    assert_eq!(bf.k(), 1);
    assert_eq!(bf.bitset().len(), 1);
    bf.insert(b"anything");
    assert_eq!(bf.bitset().to_string(), "1");
    assert!(bf.contains(b"anything"));
    assert!(bf.contains(b"everything"));
}

#[test]
fn inserted_elements_are_contained() {
    let sizes: [(usize, usize); 4] = [(1, 1), (7, 2), (64, 5), (1000, 9)];
    for (m, k) in sizes {
        let mut bf = BloomFilter::new(m, k);
        let mut items: Vec<Vec<u8>> = Vec::new();
        for n in 0..50u32 {
            let item = format!("item-{}", n).into_bytes();
            bf.insert(&item);
            items.push(item);
            for earlier in &items {
                assert!(bf.contains(earlier));
            }
        }
    }
    let mut bf = BloomFilter::new(16, 4);
    bf.insert(b"");
    assert!(bf.contains(b""));
}

#[test]
fn probes_are_deterministic() {
    let mut a = BloomFilter::new(256, 6);
    let mut b = BloomFilter::new(256, 6);
    a.insert(b"same bytes");
    b.insert(b"same bytes");
    assert_eq!(a.bitset().to_string(), b.bitset().to_string());
    assert_eq!(compute_hash(b"same bytes"), compute_hash(b"same bytes"));
}

#[test]
fn insert_twice_is_insert_once() {
    let mut bf = BloomFilter::new(64, 4);
    bf.insert(b"hello");
    let once = bf.bitset().to_string();
    bf.insert(b"hello");
    assert_eq!(bf.bitset().to_string(), once);
}

#[test]
fn insert_chains() {
    let mut bf = BloomFilter::new(32, 3);
    bf.insert(b"hello").insert(b"world");
    assert_eq!(bf.bitset().to_string(), "00101000001000000000010000100010");
    bf.clear().insert(b"hello");
    assert_eq!(bf.bitset().to_string(), "00100000000000000000010000100000");
}

#[test]
fn clear_resets_every_bit() {
    let mut bf = BloomFilter::new(32, 3);
    bf.insert(b"hello");
    bf.insert(b"world");
    bf.clear();
    assert_eq!(bf.bitset().to_string(), "00000000000000000000000000000000");
    assert_eq!(bf.capacity(), 32);
    assert_eq!(bf.k(), 3);
    assert!(!bf.contains(b"hello"));
    assert!(!bf.contains(b"world"));
}

#[test]
fn union_keeps_members_of_both() {
    let mut a = BloomFilter::new(128, 4);
    let mut b = BloomFilter::new(128, 4);
    a.insert(b"left");
    b.insert(b"right");
    assert_eq!(a.union(&b), Ok(()));
    assert!(a.contains(b"left"));
    assert!(a.contains(b"right"));
    assert!(b.contains(b"right"));
}

#[test]
fn union_rejects_different_capacity() {
    let mut a = BloomFilter::new(32, 3);
    a.insert(b"hello");
    let mut b = BloomFilter::new(64, 3);
    b.insert(b"world");
    assert_eq!(a.union(&b), Err(DimensionMismatch::Capacity { ours: 32, theirs: 64 }));
    assert_eq!(a.bitset().to_string(), "00100000000000000000010000100000");
}

#[test]
fn union_rejects_different_probe_count() {
    let mut a = BloomFilter::new(32, 3);
    a.insert(b"hello");
    let b = BloomFilter::new(32, 4);
    assert_eq!(a.union(&b), Err(DimensionMismatch::Probes { ours: 3, theirs: 4 }));
    assert_eq!(a.bitset().to_string(), "00100000000000000000010000100000");
}

#[test]
fn union_reports_capacity_before_probes() {
    let mut a = BloomFilter::new(10, 2);
    let b = BloomFilter::new(20, 5);
    assert_eq!(a.union(&b), Err(DimensionMismatch::Capacity { ours: 10, theirs: 20 }));
}

#[test]
fn union_is_commutative() {
    let mut a = BloomFilter::new(32, 3);
    a.insert(b"hello");
    let mut b = BloomFilter::new(32, 3);
    b.insert(b"world");
    let mut ab = a.clone();
    ab.union(&b).unwrap();
    let mut ba = b.clone();
    ba.union(&a).unwrap();
    assert_eq!(ab.bitset().to_string(), ba.bitset().to_string());
}

#[test]
fn clone_is_independent() {
    let mut a = BloomFilter::new(32, 3);
    a.insert(b"hello");
    let mut copy = a.clone();
    assert_eq!(copy.capacity(), 32);
    assert_eq!(copy.k(), 3);
    assert_eq!(copy.bitset().to_string(), a.bitset().to_string());
    copy.insert(b"world");
    assert_eq!(a.bitset().to_string(), "00100000000000000000010000100000");
    assert_eq!(copy.bitset().to_string(), "00101000001000000000010000100010");
}

#[test]
fn split_gives_high_then_low() {
    let v: u128 = 0x0123_4567_89ab_cdef_fedc_ba98_7654_3210;
    assert_eq!(split_u128(v), (0x0123_4567_89ab_cdef, 0xfedc_ba98_7654_3210));
    assert_eq!(split_u128(0), (0, 0));
    assert_eq!(split_u128(u128::MAX), (u64::MAX, u64::MAX));
}

#[test]
fn empty_input_hashes_to_zero_first_digest() {
    let h = compute_hash(b"");
    assert_eq!(h[0], 0);
    assert_eq!(h[1], 0);
    assert_ne!((h[2], h[3]), (0, 0));
}

#[test]
fn hashed_probes_follow_the_index_formula() {
    let mut bf = BloomFilter::new(32, 3);
    bf.insert_hashed([1, 0, 5, 7]);
    assert_eq!(bf.bitset().to_string(), "01000001000000010000000000000000");
    assert!(bf.contains_hashed([1, 0, 5, 7]));
    assert!(!bf.contains_hashed([2, 0, 5, 7]));
}

#[test]
fn hashed_mixer_cycles_over_probe_index() {
    let mut bf = BloomFilter::new(1000, 4);
    bf.insert_hashed([0, 0, 1, 100]);
    let ones: Vec<usize> = bf.bitset().ones().collect();
    assert_eq!(ones, vec![0, 3, 100, 200]);
}

#[test]
fn hashed_probe_arithmetic_wraps() {
    let mut bf = BloomFilter::new(10, 3);
    bf.insert_hashed([u64::MAX, 0, 0, 1]);
    assert_eq!(bf.bitset().to_string(), "0100010000");
    assert!(bf.contains_hashed([u64::MAX, 0, 0, 1]));
}
