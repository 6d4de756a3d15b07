//! What pages, flags, mappings and copies of memory are, said without the functions that compute
//! them.
use vstd::prelude::*;

use crate::attestation;
use crate::bytes;
use crate::exception_handling;
use crate::guest_memory;
use crate::mmap;
use crate::mmap::{MmapInfo, RangeWrapper};
use crate::page;
use crate::page::ProcessPageFlags;
use crate::smp;
use crate::smp::{ACPICPUInfo, ApRole};
use crate::stats;

verus! {

/// The page of an address begins at a multiple of 4096, at the address or less than 4096 below it.
pub proof fn law_page_of_an_address(addr: u64)
    ensures
        page::page_start(addr) % 4096 == 0,
        page::page_start(addr) <= addr < page::page_start(addr) + 4096,
        page::page_aligned(addr) <==> page::page_start(addr) == addr,
{
}

/// A top-level entry translates 512 GiB, and there are 512 of them: two addresses have the same
/// entry where they lie in the same 512 GiB of the same 256 TiB.
pub proof fn law_entry_of_an_address(addr: u64)
    ensures
        ({
            let index = page::spec_pgd_index(addr);
            &&& 0 <= index < 512
            &&& index * 0x80_0000_0000 <= addr % 0x1_0000_0000_0000 < (index + 1) * 0x80_0000_0000
        }),
{
}

/// A bit of an entry is set where it is not taken away and is in the set that the entry starts
/// from or is added.
pub proof fn law_bits_of_an_entry(flags: ProcessPageFlags, base: u64, mask: u64)
    ensures
        flags.spec_bits(base) & mask == ((base & mask) | (flags.added & mask)) & !flags.removed,
{
    let a = flags.added;
    let r = flags.removed;
    assert(((base | a) & !r) & mask == ((base & mask) | (a & mask)) & !r) by (bit_vector);
}

/// A counter counts up by one and starts again at 0 after 2^64 - 1.
pub proof fn law_counter_counts_up(count: u64)
    ensures
        stats::counted(count) == (count + 1) % 0x1_0000_0000_0000_0000,
{
}

/// A number in memory has its least significant byte first.
pub proof fn law_least_significant_byte_first(memory: Seq<u8>)
    requires
        memory.len() >= 8,
    ensures
        bytes::le_value(memory, 2) == memory[0] + 0x100 * memory[1],
        bytes::le_value(memory, 4) == memory[0] + 0x100 * memory[1] + 0x1_0000 * memory[2]
            + 0x100_0000 * memory[3],
        bytes::le_value(memory, 8) == memory[0] + 0x100 * memory[1] + 0x1_0000 * memory[2]
            + 0x100_0000 * memory[3] + 0x1_0000_0000 * memory[4] + 0x100_0000_0000 * memory[5]
            + 0x1_0000_0000_0000 * memory[6] + 0x100_0000_0000_0000 * memory[7],
{
    reveal_with_fuel(bytes::le_value, 9);
}

/// The register that says where the descriptor table is was stored as two bytes of the limit, then
/// eight of the base.
pub proof fn law_stored_pointer(memory: Seq<u8>, at: int)
    requires
        0 <= at,
        at + 10 <= memory.len(),
    ensures
        ({
            let (limit, base) = exception_handling::stored_pointer(memory, at);
            &&& limit == memory[at] + 0x100 * memory[at + 1]
            &&& base == memory[at + 2] + 0x100 * memory[at + 3] + 0x1_0000 * memory[at + 4]
                + 0x100_0000 * memory[at + 5] + 0x1_0000_0000 * memory[at + 6] + 0x100_0000_0000
                * memory[at + 7] + 0x1_0000_0000_0000 * memory[at + 8] + 0x100_0000_0000_0000
                * memory[at + 9]
        }),
{
    reveal_with_fuel(bytes::le_value, 3);
    law_least_significant_byte_first(memory.skip(at + 2));
}

/// The file at an address is one whose mapping covers the address, and of all mappings that cover
/// it the one that begins last, and of those the one that ends last.
pub proof fn law_file_at_an_address(
    mappings: Map<RangeWrapper, MmapInfo>,
    addr: usize,
    other: RangeWrapper,
)
    requires
        mmap::find_mapping(mappings, addr) is Some,
        mappings.contains_key(other),
        other.start <= addr < other.end,
    ensures
        exists|range: RangeWrapper| #[trigger]
            mappings.contains_key(range) && range.start <= addr < range.end && mappings[range]
                == mmap::find_mapping(mappings, addr)->0 && (other.start < range.start
                || other.start == range.start && other.end <= range.end),
{
    let range = choose|range: RangeWrapper| mmap::is_last_covering(mappings, addr, range);
    assert(mmap::is_last_covering(mappings, addr, range));
    assert(mmap::covers(other, addr));
    assert(mappings.contains_key(range));
}

/// A mapping is remembered under the range from its address to its end, with the file, the offset,
/// the address and the size; every other range keeps what it has.
pub proof fn law_mapping_is_remembered(
    mappings: Map<RangeWrapper, MmapInfo>,
    addr: usize,
    size: usize,
    fd: i32,
    offset: usize,
)
    requires
        addr + size <= usize::MAX,
    ensures
        mmap::with_mapping(mappings, addr, size, fd, offset) == mappings.insert(
            RangeWrapper { start: addr, end: (addr + size) as usize },
            MmapInfo { fd, offset, addr, size },
        ),
{
}

/// What a trustlet hands over, byte by byte: the guest finds the argument at the start of its
/// page, and the trustlet finds the answer where it had the argument.  No other byte of either
/// page changes.
pub proof fn law_handed_over_byte_by_byte(
    arg: Seq<u8>,
    data: Seq<u8>,
    offset: int,
    size: int,
    index: int,
)
    requires
        arg.len() == 4096,
        data.len() == 4096,
        0 <= offset,
        0 <= size,
        offset + size <= 4096,
        0 <= index < 4096,
    ensures
        ({
            let guest = guest_memory::handed_to_guest(arg, data, offset, size);
            let trustlet = guest_memory::handed_to_trustlet(data, arg, offset, size);
            &&& guest.len() == 4096 && trustlet.len() == 4096
            &&& guest[index] == (if index < size {
                data[offset + index]
            } else {
                arg[index]
            })
            &&& trustlet[index] == (if offset <= index < offset + size {
                arg[index - offset]
            } else {
                data[index]
            })
        }),
{
}

/// The words of a request stand at the start of the page of the guest, in their order, and the
/// rest of the page stays.
pub proof fn law_words_at_the_start(arg: Seq<u64>, words: [u64; 4], index: int)
    requires
        arg.len() == 512,
        0 <= index < 512,
    ensures
        guest_memory::with_words(arg, words).len() == 512,
        guest_memory::with_words(arg, words)[index] == (if index < 4 {
            words@[index]
        } else {
            arg[index]
        }),
{
}

/// A key stands in the first 32 bytes of its page, a 0 follows, and the rest of the page stays.
pub proof fn law_key_at_the_start(target: Seq<u8>, key: Seq<u8>, index: int)
    requires
        target.len() == 4096,
        key.len() == 32,
        0 <= index < 4096,
    ensures
        attestation::with_key(target, key).len() == 4096,
        attestation::with_key(target, key)[index] == (if index < 32 {
            key[index]
        } else if index == 32 {
            0u8
        } else {
            target[index]
        }),
{
}

/// A report stands at the start of its page, byte by byte, and the rest of the page stays.
pub proof fn law_report_at_the_start(target: Seq<u8>, report: Seq<u8>, index: int)
    requires
        target.len() == 4096,
        report.len() <= 4096,
        0 <= index < 4096,
    ensures
        attestation::with_report(target, report).len() == 4096,
        attestation::with_report(target, report)[index] == (if index < report.len() {
            report[index]
        } else {
            target[index]
        }),
{
}

/// A signature follows the whole report, 64 bytes of it.
pub proof fn law_signature_follows_the_report(report: Seq<u8>, signature: [u8; 64])
    ensures
        ({
            let signed = attestation::signed_report(report, signature);
            &&& signed.len() == report.len() + 64
            &&& signed.take(report.len() as int) == report
            &&& signed.skip(report.len() as int) == signature@
        }),
{
    let signed = attestation::signed_report(report, signature);
    assert(signed.take(report.len() as int) =~= report);
    assert(signed.skip(report.len() as int) =~= signature@);
}

/// A program that came in two pages begins in the first and goes on in the second, for as many
/// bytes as it has.
pub proof fn law_program_spans_two_pages(
    first: Seq<u8>,
    second: Seq<u8>,
    size: int,
    index: int,
)
    requires
        first.len() == 4096,
        second.len() == 4096,
        0 <= index < size <= 8192,
    ensures
        ({
            let program = attestation::joined_pages(first, second, size);
            &&& program.len() == size
            &&& program[index] == (if index < 4096 {
                first[index]
            } else {
                second[index - 4096]
            })
        }),
{
}

/// Processors are started in the order in which the firmware names them: one more that can be
/// used, and that is not number 0, comes last, and any other one changes nothing.
pub proof fn law_processors_start_in_order(cpus: Seq<ACPICPUInfo>, cpu: ACPICPUInfo)
    ensures
        smp::secondary_ids(Seq::<ACPICPUInfo>::empty()) == Seq::<u32>::empty(),
        smp::secondary_ids(cpus.push(cpu)) == (if cpu.enabled && cpu.apic_id != 0 {
            smp::secondary_ids(cpus).push(cpu.apic_id)
        } else {
            smp::secondary_ids(cpus)
        }),
{
    reveal(Seq::filter);
    assert(cpus.push(cpu).drop_last() =~= cpus);
    assert(smp::secondary_ids(Seq::<ACPICPUInfo>::empty()) =~= Seq::<u32>::empty());
    assert(smp::secondary_ids(cpus.push(cpu)) =~= if cpu.enabled && cpu.apic_id != 0 {
        smp::secondary_ids(cpus).push(cpu.apic_id)
    } else {
        smp::secondary_ids(cpus)
    });
}

/// Every processor that was started runs threads of trustlets, up to the bound, and number 0 alone
/// serves the guest.
pub proof fn law_processors_run_threads(count: nat, bound: usize, apic_id: u32)
    ensures
        smp::runner_count(count, bound) <= count,
        smp::runner_count(count, bound) <= bound,
        smp::runner_count(count, bound) == count || smp::runner_count(count, bound) == bound,
        smp::role_of(apic_id) == ApRole::RequestHandler <==> apic_id == 0,
        smp::role_of(apic_id) == ApRole::ThreadRunner <==> apic_id != 0,
{
}

} // verus!
