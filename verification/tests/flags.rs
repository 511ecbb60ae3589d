//! Event flag lookup through a fake byte source: bit extraction, tree
//! walking, both location modes, and the traversal bound on a cyclic tree.

use std::collections::HashMap;

use route_tracker::flag_index::ByteSource;
use route_tracker::flag_index::EventFlagReader;
use route_tracker::flag_index::TRAVERSAL_STEP_BOUND;
use route_tracker::flag_index::accept_candidate;
use route_tracker::flag_index::descend_right;
use route_tracker::flag_index::descend_to_candidate;
use route_tracker::flag_index::extract_flag_bit;
use route_tracker::flag_index::resolve_location;

/// An in-memory address space with typed cells.
#[derive(Default)]
struct FakeMem {
    u8s: HashMap<u64, u8>,
    i32s: HashMap<u64, i32>,
    u64s: HashMap<u64, u64>,
}

impl ByteSource for FakeMem {
    fn read_u8(&self, addr: u64) -> Option<u8> {
        self.u8s.get(&addr).copied()
    }

    fn read_i32(&self, addr: u64) -> Option<i32> {
        self.i32s.get(&addr).copied()
    }

    fn read_u64(&self, addr: u64) -> Option<u64> {
        self.u64s.get(&addr).copied()
    }
}

const BASE: u64 = 0x1000;
const MGR: u64 = 0x2000;
const ROOT: u64 = 0x3000;
const TOP: u64 = 0x4000;
const LEAF: u64 = 0x5000;
const HOLDER: u64 = 0x8000;
const DIRECT: u64 = 0x9000;

/// A manager with divisor 1000, entry size 125, and a two-level tree whose
/// single internal node covers group 60.
fn build(loc_mode: i32) -> FakeMem {
    let mut m = FakeMem::default();
    m.u64s.insert(BASE, MGR);
    m.i32s.insert(MGR + 0x1C, 1000); // divisor
    m.i32s.insert(MGR + 0x20, 125); // entry size
    m.u64s.insert(MGR + 0x28, HOLDER); // flag holder base
    m.u64s.insert(MGR + 0x38, ROOT); // nominal root
    m.u64s.insert(ROOT + 0x8, TOP); // the walk starts at the root's parent
    m.u8s.insert(TOP + 0x19, 0); // internal
    m.i32s.insert(TOP + 0x20, 60); // group id
    m.u64s.insert(TOP + 0x0, LEAF); // left
    m.u64s.insert(TOP + 0x10, LEAF); // right
    m.u8s.insert(LEAF + 0x19, 1); // leaf
    m.i32s.insert(TOP + 0x28, loc_mode);
    if loc_mode == 2 {
        m.u64s.insert(TOP + 0x30, DIRECT);
    } else {
        m.i32s.insert(TOP + 0x30, 3); // holder index
    }
    m
}

#[test]
fn big_endian_bit_extraction() {
    // Byte 0b1000_0000: bit index 0 within the byte is its most
    // significant bit; bit index 7 its least.
    assert!(extract_flag_bit(0b1000_0000, 0));
    assert!(!extract_flag_bit(0b1000_0000, 7));
    assert!(!extract_flag_bit(0b0000_0001, 0));
    assert!(extract_flag_bit(0b0000_0001, 7));
    // Positions count within each byte: 8 behaves like 0.
    assert!(extract_flag_bit(0b1000_0000, 8));
}

#[test]
fn lookup_resolves_direct_pointer_mode() {
    let reader = EventFlagReader::new(BASE);
    let mem = build(2);
    // Flag 60100: group 60, bit 100 -> byte 12, in-byte position 4.
    assert_eq!(reader.get_flag_location(&mem, 60100), Some((DIRECT, 100)));
}

#[test]
fn lookup_resolves_holder_index_mode() {
    let reader = EventFlagReader::new(BASE);
    let mem = build(1);
    // Index 3 with 125-byte entries sits at holder + 375.
    assert_eq!(reader.get_flag_location(&mem, 60100), Some((HOLDER + 375, 100)));
}

#[test]
fn read_flag_reads_the_documented_bit() {
    let reader = EventFlagReader::new(BASE);
    let mut mem = build(2);
    // Bit 100 of the group: byte 12, mask 0b0000_1000.
    mem.u8s.insert(DIRECT + 12, 0b0000_1000);
    assert_eq!(reader.read_flag(&mem, 60100), Some(true));
    mem.u8s.insert(DIRECT + 12, 0b1111_0111);
    assert_eq!(reader.read_flag(&mem, 60100), Some(false));
}

#[test]
fn unknown_is_not_false() {
    let reader = EventFlagReader::new(BASE);
    let mem = build(2);
    // The located byte is unreadable: the answer is no answer, not false.
    assert_eq!(reader.read_flag(&mem, 60100), None);
}

#[test]
fn lookup_fails_for_group_left_of_the_tree() {
    let reader = EventFlagReader::new(BASE);
    let mem = build(2);
    // Group 5 is below the found node's group: not found.
    assert_eq!(reader.get_flag_location(&mem, 5100), None);
}

#[test]
fn location_resolution_rules() {
    // Mode 2: the node's pointer itself.
    assert_eq!(resolve_location(2, DIRECT, 0, 125), Some(DIRECT));
    // Mode 1: holder base plus index times entry size.
    assert_eq!(resolve_location(1, 3, HOLDER, 125), Some(HOLDER + 375));
    assert_eq!(resolve_location(1, 0, HOLDER, 125), Some(HOLDER));
    // Any other mode resolves nothing.
    assert_eq!(resolve_location(0, 3, HOLDER, 125), None);
    assert_eq!(resolve_location(3, 3, HOLDER, 125), None);
    // Overflow in the product or the sum resolves nothing.
    assert_eq!(resolve_location(1, u64::MAX, 1, i32::MAX), None);
    assert_eq!(resolve_location(1, 2, u64::MAX, 1), None);
}

#[test]
fn descent_and_acceptance_decisions() {
    assert!(descend_right(59, 60));
    assert!(!descend_right(60, 60));
    assert!(!descend_right(61, 60));
    assert!(accept_candidate(TOP, ROOT, 60, 60));
    assert!(accept_candidate(TOP, ROOT, 59, 60));
    // The sentinel root is never a candidate.
    assert!(!accept_candidate(ROOT, ROOT, 60, 60));
    // A group above the target is not found, not found-but-wrong.
    assert!(!accept_candidate(TOP, ROOT, 61, 60));
}

#[test]
fn walk_counts_steps_within_the_bound() {
    let mem = build(2);
    // One descent from the top node to the leaf.
    assert_eq!(descend_to_candidate(&mem, TOP, ROOT, 60), (Some(TOP), 1));
    // A never-descending start: the candidate stays the given root.
    assert_eq!(descend_to_candidate(&mem, LEAF, ROOT, 60), (Some(ROOT), 0));
    // A cycle runs to the bound and no further.
    let mut cyclic = build(2);
    cyclic.u64s.insert(TOP + 0x0, TOP);
    cyclic.u64s.insert(TOP + 0x10, TOP);
    assert_eq!(
        descend_to_candidate(&cyclic, TOP, ROOT, 60),
        (None, TRAVERSAL_STEP_BOUND)
    );
}

#[test]
fn cyclic_tree_fails_instead_of_hanging() {
    let reader = EventFlagReader::new(BASE);
    let mut mem = build(2);
    // The internal node's children point back to itself: a cycle.
    mem.u64s.insert(TOP + 0x0, TOP);
    mem.u64s.insert(TOP + 0x10, TOP);
    assert_eq!(reader.get_flag_location(&mem, 60100), None);
    assert_eq!(reader.read_flag(&mem, 60100), None);
}

#[test]
fn zero_divisor_fails() {
    let reader = EventFlagReader::new(BASE);
    let mut mem = build(2);
    mem.i32s.insert(MGR + 0x1C, 0);
    assert_eq!(reader.get_flag_location(&mem, 60100), None);
}

#[test]
fn readiness_follows_locatability() {
    let reader = EventFlagReader::new(BASE);
    let mut mem = build(2);
    // Flag 2200: group 2, left of the tree: not ready.
    assert!(!reader.is_ready(&mem));
    // Widen the tree to cover group 2.
    mem.i32s.insert(TOP + 0x20, 2);
    assert!(reader.is_ready(&mem));
}
