//! Numbers in memory, the least significant byte first.
use vstd::prelude::*;

verus! {

/// The number that the first `len` bytes of `bytes` stand for.
pub open spec fn le_value(bytes: Seq<u8>, len: nat) -> nat
    decreases len,
{
    if len == 0 {
        0
    } else {
        bytes[0] as nat + 256 * le_value(bytes.skip(1), (len - 1) as nat)
    }
}

/// The number in the two bytes at `at`.
pub fn read_u16(bytes: &[u8], at: usize) -> (value: u16)
    requires
        at + 2 <= bytes.len(),
    ensures
        value == le_value(bytes@.skip(at as int), 2),
{
    proof {
        reveal_with_fuel(le_value, 3);
    }
    bytes[at] as u16 + 256 * bytes[at + 1] as u16
}

/// The number in the four bytes at `at`.
pub fn read_u32(bytes: &[u8], at: usize) -> (value: u32)
    requires
        at + 4 <= bytes.len(),
    ensures
        value == le_value(bytes@.skip(at as int), 4),
{
    proof {
        reveal_with_fuel(le_value, 5);
    }
    bytes[at] as u32 + 256 * (bytes[at + 1] as u32 + 256 * (bytes[at + 2] as u32 + 256 * bytes[at
        + 3] as u32))
}

/// The number in the eight bytes at `at`.
pub fn read_u64(bytes: &[u8], at: usize) -> (value: u64)
    requires
        at + 8 <= bytes.len(),
    ensures
        value == le_value(bytes@.skip(at as int), 8),
{
    proof {
        reveal_with_fuel(le_value, 9);
    }
    let low = read_u32(bytes, at) as u64;
    let high = read_u32(bytes, at + 4) as u64;
    assert(bytes@.skip(at as int).skip(1).skip(1).skip(1).skip(1) =~= bytes@.skip(at + 4));
    low + 0x1_0000_0000 * high
}

} // verus!
