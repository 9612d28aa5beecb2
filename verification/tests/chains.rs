use ac_trainer::chain::PointerWalk;
use std::collections::HashMap;

/// Drives a walk to its end, answering every read from `memory`.
fn run(mut walk: PointerWalk, memory: &HashMap<usize, usize>) -> (usize, Vec<usize>) {
    let mut reads = Vec::new();
    while let Some(address) = walk.next_read() {
        reads.push(address);
        let value = memory[&address];
        assert!(walk.accepts(value));
        walk.supply(value);
    }
    (walk.current(), reads)
}

fn memory() -> HashMap<usize, usize> {
    let mut m = HashMap::new();
    m.insert(0x1000, 0x2000);
    m.insert(0x2010, 0x3000);
    m.insert(0x1010, 0x4000);
    m.insert(0x4020, 0x5000);
    m
}

#[test]
fn read_then_add_follows_pointers() {
    let walk = PointerWalk::read_then_add(0x1000, vec![0x10, 0x20]);
    // read 0x1000 -> 0x2000, + 0x10 = 0x2010; read -> 0x3000, + 0x20 = 0x3020
    assert_eq!(run(walk, &memory()), (0x3020, vec![0x1000, 0x2010]));
}

#[test]
fn read_then_add_without_offsets_reads_once() {
    let walk = PointerWalk::read_then_add(0x1000, vec![]);
    assert_eq!(run(walk, &memory()), (0x2000, vec![0x1000]));
}

#[test]
fn add_then_read_follows_offsets() {
    let walk = PointerWalk::add_then_read(0x1000, vec![0x10, 0x20]);
    // 0x1000 + 0x10 = 0x1010 -> 0x4000; 0x4000 + 0x20 = 0x4020 -> 0x5000
    assert_eq!(run(walk, &memory()), (0x5000, vec![0x1010, 0x4020]));
}

#[test]
fn add_then_read_without_offsets_reads_nothing() {
    let walk = PointerWalk::add_then_read(0x1234, vec![]);
    assert_eq!(run(walk, &memory()), (0x1234, vec![]));
}

#[test]
fn next_offset_and_start() {
    let mut walk = PointerWalk::add_then_read(0x1000, vec![0x10, 0x20]);
    assert_eq!(walk.start(), 0x1000);
    assert_eq!(walk.next_offset(), Some(0x10));
    walk.supply(0x4000);
    assert_eq!(walk.next_offset(), Some(0x20));
    walk.supply(0x5000);
    assert_eq!(walk.next_offset(), None);
}

#[test]
fn accepts_refuses_overflowing_values() {
    let walk = PointerWalk::read_then_add(0x1000, vec![0x10]);
    assert!(walk.accepts(usize::MAX - 0x10));
    assert!(!walk.accepts(usize::MAX - 0xF));
    let walk = PointerWalk::add_then_read(0x1000, vec![0x10, 0x20]);
    assert!(!walk.accepts(usize::MAX - 0x1F));
    assert!(walk.accepts(usize::MAX - 0x20));
}
