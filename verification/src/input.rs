//! The input of a trustlet, and the module in it.
//!
//! An input begins with a header: the size of a module, the length of the name of a function and
//! the number of its arguments.  The name follows, then the arguments, then the module.
use vstd::prelude::*;

use crate::bytes;
use crate::bytes::{read_u16, read_u32};

verus! {

/// How many bytes the header of an input has.
pub const HEADER_SIZE: usize = 12;

/// The size of the module in an input, 0 where there is none.
pub open spec fn module_size(header: Seq<u8>) -> nat {
    bytes::le_value(header, 4)
}

/// Where in an input the module lies.  Before it come the header, the name of the function, which
/// is padded to a multiple of four, and the arguments, four bytes each.
pub open spec fn module_offset(header: Seq<u8>) -> nat {
    let name_len = bytes::le_value(header.skip(4), 4);
    let argc = bytes::le_value(header.skip(8), 2);
    (12 + name_len + 3) / 4 * 4 + argc * 4
}

/// Rounding up to a multiple of four is done by masking.
proof fn lemma_round_up(value: u64)
    requires
        value <= 0x1_0000_0100,
    ensures
        (value + 3) as u64 & !3u64 == (value + 3) / 4 * 4,
{
    let sum = (value + 3) as u64;
    assert(sum & !3u64 == sum / 4 * 4) by (bit_vector);
}

/// Whether the module of an input, where it has one, begins inside the address space.
pub open spec fn module_in_address_space(input: u64, header: Seq<u8>) -> bool {
    module_size(header) > 0 ==> input + module_offset(header) <= u64::MAX
}

/// Where in memory the module of an input lies, and its size, where `input` is where the input
/// begins.
pub open spec fn module_region(input: u64, header: Seq<u8>) -> Option<(u64, u64)> {
    if module_size(header) > 0 {
        Some(((input + module_offset(header)) as u64, module_size(header) as u64))
    } else {
        None
    }
}

/// Where in an input the module lies, which `header` is said to have.
fn offset_of_module(header: &[u8]) -> (offset: u64)
    requires
        header@.len() >= HEADER_SIZE,
    ensures
        offset == module_offset(header@),
{
    let func_name_len = read_u32(header, 4) as u64;
    let argc = read_u16(header, 8) as u64;
    let offset: u64 = 12 + func_name_len;
    proof {
        lemma_round_up(offset);
    }
    let offset: u64 = (offset + 3) & !3u64;
    offset + argc * 4
}

/// Whether the module of an input, where it has one, begins inside the address space.
pub fn can_find_module(input: u64, header: &[u8]) -> (fits: bool)
    requires
        header@.len() >= HEADER_SIZE,
    ensures
        fits == module_in_address_space(input, header@),
{
    assert(header@.skip(0) =~= header@);
    read_u32(header, 0) == 0 || offset_of_module(header) <= u64::MAX - input
}

/// Finds the module of an input.
pub fn find_module(input: u64, header: &[u8]) -> (region: Option<(u64, u64)>)
    requires
        header@.len() >= HEADER_SIZE,
        module_in_address_space(input, header@),
    ensures
        region == module_region(input, header@),
{
    let wasm_size = read_u32(header, 0) as u64;
    assert(header@.skip(0) =~= header@);
    if wasm_size > 0 {
        Some((input + offset_of_module(header), wasm_size))
    } else {
        None
    }
}

/// The module of an input lies behind the header, the name and all of the arguments, at a multiple
/// of four, and the padding before it is shorter than four bytes.
pub proof fn law_module_lies_behind_the_arguments(header: Seq<u8>)
    ensures
        ({
            let name_len = bytes::le_value(header.skip(4), 4);
            let argc = bytes::le_value(header.skip(8), 2);
            &&& module_offset(header) % 4 == 0
            &&& HEADER_SIZE + name_len + argc * 4 <= module_offset(header)
            &&& module_offset(header) < HEADER_SIZE + name_len + argc * 4 + 4
        }),
{
}

} // verus!
