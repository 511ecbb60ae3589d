//! Event flag lookup: navigating an externally owned tree of flag groups
//! to the byte and bit that store one boolean flag.
//!
//! The tree lives in an address space this code does not own; every read
//! goes through a [`ByteSource`] and may fail, and the structure may change
//! between calls, so nothing read is cached across lookups. A traversal is
//! cut off at a fixed step bound, so a corrupted or cyclic tree yields a
//! failed lookup, never a hang.

use vstd::prelude::*;

verus! {

/// Raw, possibly failing reads against an external address space. A read
/// may return anything, or nothing, and two reads of one address may
/// disagree; no contract constrains the values.
pub trait ByteSource {
    /// Read one byte at the given address.
    fn read_u8(&self, addr: u64) -> Option<u8>;

    /// Read a little-endian 32-bit signed integer at the given address.
    fn read_i32(&self, addr: u64) -> Option<i32>;

    /// Read a little-endian 64-bit value at the given address.
    fn read_u64(&self, addr: u64) -> Option<u64>;
}

/// Offset of the group divisor in the flag manager structure.
pub const OFF_EVENT_FLAG_DIVISOR: u64 = 0x1C;

/// Offset of the holder entry size in the flag manager structure.
pub const OFF_FLAG_HOLDER_ENTRY_SIZE: u64 = 0x20;

/// Offset of the flag holder base pointer in the flag manager structure.
pub const OFF_FLAG_HOLDER: u64 = 0x28;

/// Offset of the tree's nominal root pointer in the flag manager structure.
pub const OFF_FLAG_GROUP_ROOT_NODE: u64 = 0x38;

/// Offset of the left-child pointer in a tree node.
pub const OFF_NODE_LEFT: u64 = 0x0;

/// Offset of the parent pointer in a tree node.
pub const OFF_NODE_PARENT: u64 = 0x8;

/// Offset of the right-child pointer in a tree node.
pub const OFF_NODE_RIGHT: u64 = 0x10;

/// Offset of the leaf marker in a tree node.
pub const OFF_NODE_IS_LEAF: u64 = 0x19;

/// Offset of the group id in a tree node.
pub const OFF_NODE_GROUP: u64 = 0x20;

/// Offset of the location mode in a tree node.
pub const OFF_NODE_LOCATION_MODE: u64 = 0x28;

/// Offset of the location value in a tree node.
pub const OFF_NODE_LOCATION: u64 = 0x30;

/// Hard ceiling on tree traversal steps; a longer walk is treated as a
/// corrupted or cyclic structure.
pub const TRAVERSAL_STEP_BOUND: u32 = 1000;

/// Truncated (round toward zero) division, as machine signed division has.
pub open spec fn trunc_div(a: int, b: int) -> int {
    let m = abs_int(a) / abs_int(b);
    if (a < 0) != (b < 0) {
        -m
    } else {
        m
    }
}

/// Magnitude of an integer.
pub open spec fn abs_int(a: int) -> int {
    if a < 0 {
        -a
    } else {
        a
    }
}

/// The group holding a flag id: the id divided by the divisor, in the
/// signed truncated arithmetic of the external structure. The one quotient
/// that does not fit a 32-bit result is refused.
pub open spec fn flag_group_spec(flag_id: u32, divisor: i32) -> Option<i32> {
    if divisor == 0 {
        None
    } else {
        let q = trunc_div(flag_id as i32 as int, divisor as int);
        if q > i32::MAX {
            None
        } else {
            Some(q as i32)
        }
    }
}

/// The bit position of a flag id within its group: the remainder of the id
/// by the divisor reinterpreted as unsigned.
pub open spec fn flag_bit_in_group_spec(flag_id: u32, divisor: i32) -> u32 {
    (flag_id as int % (divisor as u32) as int) as u32
}

/// Split a flag id into its group and its bit within the group.
pub fn split_flag_id(flag_id: u32, divisor: i32) -> (r: Option<(i32, u32)>)
    requires
        divisor != 0,
    ensures
        r matches Some(p) ==> flag_group_spec(flag_id, divisor) == Some(p.0) && p.1
            == flag_bit_in_group_spec(flag_id, divisor),
        r is None ==> flag_group_spec(flag_id, divisor) is None,
{
    let a: i32 = flag_id as i32;
    let neg_a = a < 0;
    let neg_b = divisor < 0;
    let mag_a: u32 = if a >= 0 {
        a as u32
    } else {
        (-(a as i64)) as u32
    };
    let mag_b: u32 = if divisor >= 0 {
        divisor as u32
    } else {
        (-(divisor as i64)) as u32
    };
    proof {
        if divisor >= 0 {
            assert(mag_b == divisor as u32);
            assert(mag_b != 0);
        } else {
            assert(mag_b as int == -(divisor as int));
            assert(mag_b != 0);
        }
    }
    let q: u32 = mag_a / mag_b;
    let group: i32 = if neg_a != neg_b {
        if q > 0x8000_0000u32 {
            return None;
        }
        if q == 0x8000_0000u32 {
            i32::MIN
        } else {
            -((q as i64) as i32)
        }
    } else {
        if q > i32::MAX as u32 {
            return None;
        }
        q as i32
    };
    let unsigned_divisor: u32 = divisor as u32;
    proof {
        let d = divisor;
        assert((d as u32) != 0) by (bit_vector)
            requires
                d != 0,
        ;
    }
    let bit: u32 = flag_id % unsigned_divisor;
    proof {
        assert(mag_a == abs_int(a as int));
        assert(mag_b == abs_int(divisor as int));
        assert(q == abs_int(a as int) / abs_int(divisor as int));
    }
    Some((group, bit))
}

/// Whether the bit for a given in-group position is set in a byte, in the
/// big-endian bit order of the external structure: position 0 is the most
/// significant bit of the byte.
pub open spec fn flag_bit_set(byte: u8, bit_in_group: u32) -> bool {
    (byte >> (7 - bit_in_group % 8) as u8) & 1 == 1
}

/// The byte within the group's storage that holds a given bit position.
pub open spec fn flag_byte_index(bit_in_group: u32) -> u32 {
    bit_in_group / 8
}

/// Extract one flag bit from a byte, big-endian within the byte.
pub fn extract_flag_bit(flag_byte: u8, bit_in_group: u32) -> (r: bool)
    ensures
        r == flag_bit_set(flag_byte, bit_in_group),
{
    let bit_num: u8 = (7 - (bit_in_group % 8)) as u8;
    let flag_mask: u8 = 1u8 << bit_num;
    let r = (flag_byte & flag_mask) == flag_mask;
    proof {
        let s = (7 - bit_in_group % 8) as u8;
        assert(((flag_byte & (1u8 << s)) == (1u8 << s)) == (((flag_byte >> s) & 1) == 1))
            by (bit_vector)
            requires
                s < 8,
        ;
    }
    r
}

/// Whether the descent goes right: exactly when the node's stored group
/// id is below the target group.
pub fn descend_right(node_group: i32, target_group: i32) -> (r: bool)
    ensures
        r == (node_group < target_group),
{
    node_group < target_group
}

/// Whether the walk's candidate is accepted: it is not the sentinel root,
/// and its group id does not exceed the target group.
pub fn accept_candidate(found: u64, root: u64, found_group: i32, target_group: i32) -> (r: bool)
    ensures
        r == (found != root && found_group <= target_group),
{
    found != root && found_group <= target_group
}

/// The address of an indexed holder entry: the holder base plus the
/// location times the entry size, in the unsigned 64-bit arithmetic of
/// the external structure; no address when that overflows.
pub open spec fn holder_entry_spec(holder_base: u64, location: u64, entry_size: i32) -> Option<
    u64,
> {
    let off = (location as int) * ((entry_size as u64) as int);
    if off > u64::MAX {
        None
    } else if holder_base + off > u64::MAX {
        None
    } else {
        Some((holder_base + off) as u64)
    }
}

/// Resolve a candidate node's storage address from its location mode: a
/// direct absolute pointer in mode 2, an index into the flag holder's
/// fixed-size entries in mode 1, and nothing in any other mode.
pub fn resolve_location(loc_mode: i32, location: u64, holder_base: u64, entry_size: i32) -> (r:
    Option<u64>)
    ensures
        loc_mode == 2 ==> r == Some(location),
        loc_mode == 1 ==> r == holder_entry_spec(holder_base, location, entry_size),
        loc_mode != 1 && loc_mode != 2 ==> r is None,
{
    if loc_mode == 2 {
        Some(location)
    } else if loc_mode == 1 {
        let entry_w: u64 = entry_size as u64;
        proof {
            assert((location as int) * (entry_w as int) <= (u64::MAX as int) * (
            u64::MAX as int)) by (nonlinear_arith)
                requires
                    0 <= location as int <= u64::MAX as int,
                    0 <= entry_w as int <= u64::MAX as int,
            ;
        }
        let wide: u128 = (location as u128) * (entry_w as u128);
        if wide > u64::MAX as u128 {
            return None;
        }
        let off: u64 = wide as u64;
        if holder_base > u64::MAX - off {
            return None;
        }
        Some(holder_base + off)
    } else {
        None
    }
}

/// Descend the group tree from `start` towards a leaf, deciding each step
/// by `descend_right` and counting the steps: whatever the source
/// presents — a cycle, a corrupted pointer, a failing read — the walk
/// takes at most `TRAVERSAL_STEP_BOUND` steps, and a structure that would
/// need more yields no candidate, never a hang. The candidate handed back
/// is the last non-leaf node visited, or the given root when the walk
/// never descended.
pub fn descend_to_candidate<S: ByteSource>(src: &S, start: u64, root: u64, target_group: i32) -> (r: (
    Option<u64>,
    u32,
))
    requires
        start <= u64::MAX - 0x38,
        root <= u64::MAX - 0x38,
    ensures
        r.1 <= TRAVERSAL_STEP_BOUND,
        r.0 matches Some(f) ==> f <= u64::MAX - 0x38,
{
    let mut current = start;
    let mut is_leaf = match src.read_u8(current + OFF_NODE_IS_LEAF) {
        Some(v) => v != 0,
        None => {
            return (None, 0);
        },
    };
    let mut found = root;
    let mut walk_count: u32 = 0;
    while !is_leaf
        invariant
            walk_count <= TRAVERSAL_STEP_BOUND,
            current <= u64::MAX - 0x38,
            found <= u64::MAX - 0x38,
        decreases TRAVERSAL_STEP_BOUND - walk_count,
    {
        if walk_count == TRAVERSAL_STEP_BOUND {
            // A walk this long means a corrupted or cyclic structure.
            return (None, walk_count);
        }
        walk_count = walk_count + 1;
        let current_group = match src.read_i32(current + OFF_NODE_GROUP) {
            Some(v) => v,
            None => {
                return (None, walk_count);
            },
        };
        let next = if descend_right(current_group, target_group) {
            match src.read_u64(current + OFF_NODE_RIGHT) {
                Some(v) => v,
                None => {
                    return (None, walk_count);
                },
            }
        } else {
            match src.read_u64(current + OFF_NODE_LEFT) {
                Some(v) => v,
                None => {
                    return (None, walk_count);
                },
            }
        };
        if next == 0 || next > u64::MAX - 0x38 {
            return (None, walk_count);
        }
        found = current;
        current = next;
        is_leaf = match src.read_u8(next + OFF_NODE_IS_LEAF) {
            Some(v) => v != 0,
            None => {
                return (None, walk_count);
            },
        };
    }
    (Some(found), walk_count)
}

/// Reader for event flags behind a byte source: the address of the flag
/// manager structure is fixed, everything else is re-read on every call.
pub struct EventFlagReader {
    /// Address of the pointer to the flag manager structure.
    csfd4_virtual_memory_flag: u64,
}

impl EventFlagReader {
    /// The address the reader was created with.
    pub closed spec fn base_addr(self) -> u64 {
        self.csfd4_virtual_memory_flag
    }

    /// Create a reader for a flag manager found at the given address.
    pub fn new(csfd4_virtual_memory_flag: u64) -> (r: Self)
        ensures
            r.base_addr() == csfd4_virtual_memory_flag,
    {
        Self { csfd4_virtual_memory_flag }
    }

    /// Navigate the flag-group tree to the storage location and in-group
    /// bit position of a flag. Any failed read, a zero pointer, a walk past
    /// the step bound, or an ill-placed leaf yields no result, never a
    /// default.
    pub fn get_flag_location<S: ByteSource>(&self, src: &S, flag_id: u32) -> (r: Option<
        (u64, u32),
    >)
        ensures
            r matches Some(p) ==> exists|d: i32|
                d != 0 && #[trigger] flag_group_spec(flag_id, d) is Some && p.1
                    == flag_bit_in_group_spec(flag_id, d),
    {
        let evt_flag_man = match src.read_u64(self.csfd4_virtual_memory_flag) {
            Some(v) => v,
            None => {
                return None;
            },
        };
        if evt_flag_man == 0 || evt_flag_man > u64::MAX - 0x38 {
            return None;
        }
        let divisor = match src.read_i32(evt_flag_man + OFF_EVENT_FLAG_DIVISOR) {
            Some(v) => v,
            None => {
                return None;
            },
        };
        if divisor == 0 {
            return None;
        }
        let entry_size = match src.read_i32(evt_flag_man + OFF_FLAG_HOLDER_ENTRY_SIZE) {
            Some(v) => v,
            None => {
                return None;
            },
        };
        if entry_size == 0 {
            return None;
        }
        let (group_num, bit_num_full) = match split_flag_id(flag_id, divisor) {
            Some(p) => p,
            None => {
                return None;
            },
        };
        let root = match src.read_u64(evt_flag_man + OFF_FLAG_GROUP_ROOT_NODE) {
            Some(v) => v,
            None => {
                return None;
            },
        };
        if root == 0 || root > u64::MAX - 0x38 {
            return None;
        }
        let parent = match src.read_u64(root + OFF_NODE_PARENT) {
            Some(v) => v,
            None => {
                return None;
            },
        };
        if parent > u64::MAX - 0x38 {
            return None;
        }
        let (candidate, _steps) = descend_to_candidate(src, parent, root, group_num);
        let found = match candidate {
            Some(f) => f,
            None => {
                return None;
            },
        };
        let found_group = match src.read_i32(found + OFF_NODE_GROUP) {
            Some(v) => v,
            None => {
                return None;
            },
        };
        if !accept_candidate(found, root, found_group, group_num) {
            return None;
        }
        let loc_mode = match src.read_i32(found + OFF_NODE_LOCATION_MODE) {
            Some(v) => v,
            None => {
                return None;
            },
        };
        let ptr: u64 = if loc_mode == 2 {
            // Direct pointer mode.
            let direct = match src.read_u64(found + OFF_NODE_LOCATION) {
                Some(v) => v,
                None => {
                    return None;
                },
            };
            match resolve_location(loc_mode, direct, 0, entry_size) {
                Some(p) => p,
                None => {
                    return None;
                },
            }
        } else if loc_mode == 1 {
            // Flag holder index mode.
            let flag_holder = match src.read_u64(evt_flag_man + OFF_FLAG_HOLDER) {
                Some(v) => v,
                None => {
                    return None;
                },
            };
            let loc = match src.read_i32(found + OFF_NODE_LOCATION) {
                Some(v) => v,
                None => {
                    return None;
                },
            };
            match resolve_location(loc_mode, loc as u64, flag_holder, entry_size) {
                Some(p) => p,
                None => {
                    return None;
                },
            }
        } else {
            // Unknown location mode; `resolve_location` knows no address
            // for it either.
            return None;
        };
        Some((ptr, bit_num_full))
    }

    /// Read the value of an event flag: the located byte's bit, big-endian
    /// within the byte; no result when the location cannot be resolved or
    /// the byte cannot be read.
    pub fn read_flag<S: ByteSource>(&self, src: &S, flag_id: u32) -> (r: Option<bool>)
        ensures
            r is Some ==> exists|d: i32| d != 0 && #[trigger] flag_group_spec(flag_id, d)
                is Some,
    {
        let (ptr, bit_num_full) = match self.get_flag_location(src, flag_id) {
            Some(p) => p,
            None => {
                return None;
            },
        };
        let byte_num = bit_num_full / 8;
        if ptr > u64::MAX - (byte_num as u64) {
            return None;
        }
        let flag_byte = match src.read_u8(ptr + byte_num as u64) {
            Some(b) => b,
            None => {
                return None;
            },
        };
        Some(extract_flag_bit(flag_byte, bit_num_full))
    }

    /// Whether the flag system is ready: a known always-present flag can be
    /// located.
    pub fn is_ready<S: ByteSource>(&self, src: &S) -> bool {
        self.get_flag_location(src, 2200).is_some()
    }
}

} // verus!
