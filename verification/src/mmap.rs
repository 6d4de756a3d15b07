//! The file mappings of a trustlet.
//!
//! Mappings may overlap.  Their ranges are ordered by start and then by end, as in
//! `[1..3] < [2..4] < [2..5] < [3..4]`, and an address belongs to the last range in that order
//! that contains it.
use std::cmp::Ordering;
use vstd::prelude::*;

verus! {

/// A part of a file that is mapped into the memory of a trustlet.
#[derive(Clone, Copy, Debug, PartialEq, Eq, Structural)]
pub struct MmapInfo {
    /// The descriptor of the file.
    pub fd: i32,
    /// Where in the file the mapping begins.
    pub offset: usize,
    /// Where in the memory of the trustlet the mapping begins.
    pub addr: usize,
    /// The size of the mapping.
    pub size: usize,
}

/// The addresses from `start` up to, and without, `end`.
#[derive(Clone, Copy, Debug, PartialEq, Eq, Ord, Structural)]
pub struct RangeWrapper {
    /// The first address.
    pub start: usize,
    /// The address behind the last one.
    pub end: usize,
}

/// Whether a range comes before another one: by its start, then by its end.
pub open spec fn range_before(left: RangeWrapper, right: RangeWrapper) -> bool {
    left.start < right.start || (left.start == right.start && left.end < right.end)
}

/// Whether an address lies in a range.
pub open spec fn covers(range: RangeWrapper, addr: usize) -> bool {
    range.start <= addr < range.end
}

impl vstd::std_specs::cmp::PartialOrdSpecImpl for RangeWrapper {
    open spec fn obeys_partial_cmp_spec() -> bool {
        true
    }

    open spec fn partial_cmp_spec(&self, other: &RangeWrapper) -> Option<Ordering> {
        if range_before(*self, *other) {
            Some(Ordering::Less)
        } else if range_before(*other, *self) {
            Some(Ordering::Greater)
        } else {
            Some(Ordering::Equal)
        }
    }
}

impl PartialOrd for RangeWrapper {
    fn partial_cmp(&self, other: &RangeWrapper) -> (order: Option<Ordering>) {
        if self.start < other.start {
            Some(Ordering::Less)
        } else if self.start > other.start {
            Some(Ordering::Greater)
        } else if self.end < other.end {
            Some(Ordering::Less)
        } else if self.end > other.end {
            Some(Ordering::Greater)
        } else {
            Some(Ordering::Equal)
        }
    }
}

/// The mappings of one trustlet.
#[derive(Debug)]
pub struct MmapManager {
    mappings: Vec<(RangeWrapper, MmapInfo)>,
}

/// Whether `range` is the last of the ranges that contain `addr`.
pub open spec fn is_last_covering(
    mappings: Map<RangeWrapper, MmapInfo>,
    addr: usize,
    range: RangeWrapper,
) -> bool {
    &&& mappings.contains_key(range)
    &&& covers(range, addr)
    &&& forall|other: RangeWrapper|
        mappings.contains_key(other) && #[trigger] covers(other, addr) ==> other == range
            || range_before(other, range)
}

/// The mapping that `addr` belongs to.
pub open spec fn find_mapping(mappings: Map<RangeWrapper, MmapInfo>, addr: usize) -> Option<
    MmapInfo,
> {
    if exists|range: RangeWrapper| is_last_covering(mappings, addr, range) {
        Some(mappings[choose|range: RangeWrapper| is_last_covering(mappings, addr, range)])
    } else {
        None
    }
}

/// The mappings with a mapping of `size` bytes at `addr` added.
pub open spec fn with_mapping(
    mappings: Map<RangeWrapper, MmapInfo>,
    addr: usize,
    size: usize,
    fd: i32,
    offset: usize,
) -> Map<RangeWrapper, MmapInfo> {
    mappings.insert(
        RangeWrapper { start: addr, end: (addr + size) as usize },
        MmapInfo { fd, offset, addr, size },
    )
}

/// Whether the ranges of a sequence of mappings stand in their order, each once.
spec fn in_order(mappings: Seq<(RangeWrapper, MmapInfo)>) -> bool {
    forall|i: int, j: int|
        0 <= i < j < mappings.len() ==> range_before(mappings[i].0, mappings[j].0)
}

/// Whether every mapping of a sequence lies where its range says.
spec fn in_place(mappings: Seq<(RangeWrapper, MmapInfo)>) -> bool {
    forall|i: int| 0 <= i < mappings.len() ==> maps_range(mappings[i].0, mappings[i].1)
}

/// Whether a mapping lies where a range says.
pub open spec fn maps_range(range: RangeWrapper, info: MmapInfo) -> bool {
    range.start == info.addr && range.end == info.addr + info.size
}

/// Whether some mapping of a sequence has this range.
spec fn has_range(mappings: Seq<(RangeWrapper, MmapInfo)>, range: RangeWrapper) -> bool {
    exists|i: int| 0 <= i < mappings.len() && mappings[i].0 == range
}

/// A sequence of mappings as a map.
spec fn as_map(mappings: Seq<(RangeWrapper, MmapInfo)>) -> Map<RangeWrapper, MmapInfo> {
    Map::new(
        |range: RangeWrapper| has_range(mappings, range),
        |range: RangeWrapper|
            mappings[choose|i: int| 0 <= i < mappings.len() && mappings[i].0 == range].1,
    )
}

/// The map holds each mapping of a sequence in order under its range.
proof fn lemma_as_map(mappings: Seq<(RangeWrapper, MmapInfo)>)
    requires
        in_order(mappings),
    ensures
        forall|i: int|
            0 <= i < mappings.len() ==> as_map(mappings).contains_key(#[trigger] mappings[i].0)
                && as_map(mappings)[mappings[i].0] == mappings[i].1,
{
    assert forall|i: int| 0 <= i < mappings.len() implies as_map(mappings).contains_key(
        #[trigger] mappings[i].0,
    ) && as_map(mappings)[mappings[i].0] == mappings[i].1 by {
        let range = mappings[i].0;
        let found = choose|k: int| 0 <= k < mappings.len() && mappings[k].0 == range;
        assert(has_range(mappings, range));
        if found < i {
            assert(range_before(mappings[found].0, mappings[i].0));
        } else if i < found {
            assert(range_before(mappings[i].0, mappings[found].0));
        }
    }
}

impl View for MmapManager {
    type V = Map<RangeWrapper, MmapInfo>;

    closed spec fn view(&self) -> Map<RangeWrapper, MmapInfo> {
        as_map(self.mappings@)
    }
}

impl MmapManager {
    /// The mappings stand in the order of their ranges, each range once.
    #[verifier::type_invariant]
    spec fn ordered(self) -> bool {
        in_order(self.mappings@) && in_place(self.mappings@)
    }

    /// No mapping.
    pub fn new() -> (manager: MmapManager)
        ensures
            manager@ == Map::<RangeWrapper, MmapInfo>::empty(),
    {
        let manager = MmapManager { mappings: Vec::new() };
        assert(manager@ =~= Map::<RangeWrapper, MmapInfo>::empty());
        manager
    }

    /// Adds a mapping of `size` bytes at `addr`.  A mapping of the same range is replaced.
    pub fn add_mapping(&mut self, addr: usize, size: usize, fd: i32, offset: usize)
        requires
            addr + size <= usize::MAX,
        ensures
            final(self)@ == with_mapping(old(self)@, addr, size, fd, offset),
    {
        proof {
            use_type_invariant(&*self);
            lemma_as_map(self.mappings@);
        }
        let range = RangeWrapper { start: addr, end: addr + size };
        let info = MmapInfo { fd, offset, addr, size };
        let mut mappings: Vec<(RangeWrapper, MmapInfo)> = Vec::new();
        core::mem::swap(&mut mappings, &mut self.mappings);
        let ghost before = mappings@;
        let mut at: usize = 0;
        while at < mappings.len() && mappings[at].0 < range
            invariant
                at <= mappings.len(),
                mappings@ == before,
                in_order(before),
                forall|i: int| 0 <= i < at ==> range_before(#[trigger] mappings[i].0, range),
            decreases mappings.len() - at,
        {
            at += 1;
        }
        if at < mappings.len() && mappings[at].0 == range {
            mappings[at] = (range, info);
        } else {
            mappings.insert(at, (range, info));
        }
        proof {
            let after = mappings@;
            if at < before.len() && before[at as int].0 == range {
                assert(after =~= before.update(at as int, (range, info)));
                assert(has_range(before, range));
                assert forall|other: RangeWrapper| has_range(after, other) implies has_range(
                    before,
                    other,
                ) by {
                    let i = choose|i: int| 0 <= i < after.len() && after[i].0 == other;
                    assert(before[i].0 == other);
                }
            } else {
                assert(after =~= before.insert(at as int, (range, info)));
                assert forall|i: int| at <= i < before.len() implies range_before(
                    range,
                    #[trigger] before[i].0,
                ) by {
                    if i > at {
                        assert(range_before(before[at as int].0, before[i].0));
                    }
                }
                assert forall|other: RangeWrapper| has_range(after, other) implies has_range(
                    before,
                    other,
                ) || other == range by {
                    let i = choose|i: int| 0 <= i < after.len() && after[i].0 == other;
                    if i < at {
                        assert(before[i].0 == other);
                    } else if i > at {
                        assert(before[i - 1].0 == other);
                    }
                }
            }
            assert(after[at as int].0 == range);
            assert(in_order(after));
            assert(in_place(after));
            lemma_as_map(after);
            assert forall|other: RangeWrapper| has_range(before, other) implies has_range(
                after,
                other,
            ) && (other != range ==> as_map(after)[other] == as_map(before)[other]) by {
                let i = choose|i: int| 0 <= i < before.len() && before[i].0 == other;
                if i < at || before.len() == after.len() {
                    assert(after[i].0 == other);
                } else {
                    assert(after[i + 1].0 == other);
                }
            }
            assert(as_map(after) =~= as_map(before).insert(range, info));
        }
        self.mappings = mappings;
    }

    /// The mapping that `addr` belongs to: of those that contain it, the last in the order of the
    /// ranges.
    pub fn lookup(&self, addr: usize) -> (found: Option<&MmapInfo>)
        ensures
            find_mapping(self@, addr) == match found {
                Some(info) => Some(*info),
                None => None,
            },
            found matches Some(info) ==> info.addr <= addr < info.addr + info.size
                && self@.contains_pair(
                RangeWrapper { start: info.addr, end: (info.addr + info.size) as usize },
                *info,
            ),
            found matches Some(info) ==> is_last_covering(
                self@,
                addr,
                RangeWrapper { start: info.addr, end: (info.addr + info.size) as usize },
            ),
            found is None <==> forall|range: RangeWrapper|
                self@.contains_key(range) ==> !#[trigger] covers(range, addr),
    {
        proof {
            use_type_invariant(self);
            lemma_as_map(self.mappings@);
        }
        let ghost mappings = self.mappings@;
        let mut left: usize = self.mappings.len();
        while left > 0
            invariant
                left <= self.mappings.len(),
                mappings == self.mappings@,
                in_order(mappings),
                in_place(mappings),
                self@ == as_map(mappings),
                forall|i: int|
                    0 <= i < mappings.len() ==> as_map(mappings).contains_key(
                        #[trigger] mappings[i].0,
                    ) && as_map(mappings)[mappings[i].0] == mappings[i].1,
                forall|i: int| left <= i < mappings.len() ==> !covers(#[trigger] mappings[i].0, addr),
            decreases left,
        {
            left -= 1;
            let range = self.mappings[left].0;
            if range.start <= addr && addr < range.end {
                proof {
                    assert forall|other: RangeWrapper|
                        self@.contains_key(other) && #[trigger] covers(other, addr) implies other
                        == range || range_before(other, range) by {
                        let i = choose|i: int| 0 <= i < mappings.len() && mappings[i].0 == other;
                        assert(covers(mappings[i].0, addr));
                    }
                    assert(is_last_covering(self@, addr, range));
                    lemma_last_covering_unique(self@, addr, range);
                    assert(covers(range, addr));
                }
                return Some(&self.mappings[left].1);
            }
        }
        assert forall|range: RangeWrapper| self@.contains_key(range) implies !#[trigger] covers(
            range,
            addr,
        ) by {
            let i = choose|i: int| 0 <= i < mappings.len() && mappings[i].0 == range;
            assert(!covers(mappings[i].0, addr));
        }
        None
    }
}

impl Clone for MmapManager {
    fn clone(&self) -> (copy: MmapManager)
        ensures
            copy@ == self@,
    {
        proof {
            use_type_invariant(self);
        }
        let mut mappings: Vec<(RangeWrapper, MmapInfo)> = Vec::new();
        let mut i: usize = 0;
        while i < self.mappings.len()
            invariant
                i <= self.mappings.len(),
                mappings@ == self.mappings@.take(i as int),
            decreases self.mappings.len() - i,
        {
            mappings.push((self.mappings[i].0, self.mappings[i].1));
            i += 1;
            assert(mappings@ =~= self.mappings@.take(i as int));
        }
        assert(mappings@ =~= self.mappings@);
        MmapManager { mappings }
    }
}

/// Only one range is the last of those that contain an address.
proof fn lemma_last_covering_unique(
    mappings: Map<RangeWrapper, MmapInfo>,
    addr: usize,
    range: RangeWrapper,
)
    requires
        is_last_covering(mappings, addr, range),
    ensures
        find_mapping(mappings, addr) == Some(mappings[range]),
{
    let chosen = choose|other: RangeWrapper| is_last_covering(mappings, addr, other);
    assert(is_last_covering(mappings, addr, chosen));
    assert(covers(chosen, addr));
    assert(covers(range, addr));
}

/// Inside a mapping that was just added, an address belongs to it, unless another range that
/// contains the address comes later in the order.
pub proof fn law_added_mapping_is_found(
    mappings: Map<RangeWrapper, MmapInfo>,
    addr: usize,
    size: usize,
    fd: i32,
    offset: usize,
    target: usize,
)
    requires
        addr + size <= usize::MAX,
        addr <= target < addr + size,
        forall|other: RangeWrapper|
            mappings.contains_key(other) && #[trigger] covers(other, target) ==> !range_before(
                RangeWrapper { start: addr, end: (addr + size) as usize },
                other,
            ),
    ensures
        find_mapping(with_mapping(mappings, addr, size, fd, offset), target) == Some(
            MmapInfo { fd, offset, addr, size },
        ),
{
    let range = RangeWrapper { start: addr, end: (addr + size) as usize };
    let after = with_mapping(mappings, addr, size, fd, offset);
    assert(is_last_covering(after, target, range));
    lemma_last_covering_unique(after, target, range);
}

/// Adding a mapping changes nothing for the addresses outside of it.
pub proof fn law_other_addresses_keep_their_mapping(
    mappings: Map<RangeWrapper, MmapInfo>,
    addr: usize,
    size: usize,
    fd: i32,
    offset: usize,
    target: usize,
)
    requires
        addr + size <= usize::MAX,
        target < addr || addr + size <= target,
    ensures
        find_mapping(with_mapping(mappings, addr, size, fd, offset), target) == find_mapping(
            mappings,
            target,
        ),
{
    let after = with_mapping(mappings, addr, size, fd, offset);
    assert forall|range: RangeWrapper|
        is_last_covering(after, target, range) == is_last_covering(mappings, target, range) by {
        if is_last_covering(after, target, range) {
            assert(covers(range, target));
        }
        if is_last_covering(mappings, target, range) {
            assert(covers(range, target));
        }
    }
    if exists|range: RangeWrapper| is_last_covering(mappings, target, range) {
        let range = choose|range: RangeWrapper| is_last_covering(mappings, target, range);
        assert(is_last_covering(after, target, range));
        lemma_last_covering_unique(mappings, target, range);
        lemma_last_covering_unique(after, target, range);
        assert(covers(range, target));
    }
}

} // verus!
