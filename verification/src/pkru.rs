//! The protection-key rights of a trustlet.
//!
//! The register has two bits for each of the sixteen keys: access disabled (the lower one) and
//! write disabled.  The domain of a key is open where both are clear.  Apart from key 0, at most
//! one domain is open at a time.
use vstd::prelude::*;

use crate::mpk_memory;
use crate::mpk_memory::PKEY_COUNT;

verus! {

/// The rights that a trustlet starts with: key 0 is open, every other key is closed.
pub const INITIAL_PKRU: u32 = 0x5555_5554;

/// The number is not one of a key that a process can own.
pub const PKRU_INVALID_PKEY: u64 = 7;

/// The domain of another key is open.
pub const PKRU_OTHER_DOMAIN_OPEN: u64 = 8;

/// The two bits of a key.
pub open spec fn rights(pkru: u32, pkey: u32) -> u32 {
    (pkru >> ((pkey * 2) as u32)) & 0x3u32
}

/// Whether the domain of a key is open.
pub open spec fn domain_open(pkru: u32, pkey: u32) -> bool {
    rights(pkru, pkey) == 0
}

/// Whether the domain of some other key than `pkey` and key 0 is open.
pub open spec fn other_domain_open(pkru: u32, pkey: u32) -> bool {
    exists|other: u32|
        mpk_memory::is_user_pkey(other) && other != pkey && #[trigger] domain_open(pkru, other)
}

/// Whether at most one domain is open, key 0 not counted.
pub open spec fn at_most_one_open(pkru: u32) -> bool {
    forall|left: u32, right: u32|
        mpk_memory::is_user_pkey(left) && mpk_memory::is_user_pkey(right)
            && #[trigger] domain_open(pkru, left) && #[trigger] domain_open(pkru, right) ==> left
            == right
}

/// The rights with both bits of a key cleared.
pub open spec fn with_domain_open(pkru: u32, pkey: u32) -> u32 {
    pkru & !(0x3u32 << ((pkey * 2) as u32))
}

/// The rights with access through a key disabled.
pub open spec fn with_domain_closed(pkru: u32, pkey: u32) -> u32 {
    pkru | (0x1u32 << ((pkey * 2) as u32))
}

/// The rights after a trustlet asked to enter a domain, or why it may not.
pub open spec fn enter_domain_result(pkru: u32, pkey: u32) -> Result<u32, u64> {
    if !mpk_memory::is_user_pkey(pkey) {
        Err(PKRU_INVALID_PKEY)
    } else if other_domain_open(pkru, pkey) {
        Err(PKRU_OTHER_DOMAIN_OPEN)
    } else {
        Ok(with_domain_open(pkru, pkey))
    }
}

/// Opens the domain of a key, where no other one is open.
pub fn enter_domain(pkru: u32, pkey: u32) -> (result: Result<u32, u64>)
    ensures
        result == enter_domain_result(pkru, pkey),
{
    if pkey == 0 || pkey > 15 {
        return Err(PKRU_INVALID_PKEY);
    }
    let mut other: u32 = 1;
    while other < PKEY_COUNT
        invariant
            1 <= other <= PKEY_COUNT,
            mpk_memory::is_user_pkey(pkey),
            forall|k: u32| 0 < k < other && k != pkey ==> !#[trigger] domain_open(pkru, k),
        decreases PKEY_COUNT - other,
    {
        if other != pkey && (pkru >> (other * 2)) & 0x3 == 0 {
            assert(domain_open(pkru, other));
            return Err(PKRU_OTHER_DOMAIN_OPEN);
        }
        other += 1;
    }
    Ok(pkru & !(0x3u32 << (pkey * 2)))
}

/// The rights after a trustlet asked to leave a domain, or why it may not.
pub open spec fn exit_domain_result(pkru: u32, pkey: u32) -> Result<u32, u64> {
    if !mpk_memory::is_user_pkey(pkey) {
        Err(PKRU_INVALID_PKEY)
    } else {
        Ok(with_domain_closed(pkru, pkey))
    }
}

/// Closes the domain of a key.
pub fn exit_domain(pkru: u32, pkey: u32) -> (result: Result<u32, u64>)
    ensures
        result == exit_domain_result(pkru, pkey),
{
    if pkey == 0 || pkey > 15 {
        return Err(PKRU_INVALID_PKEY);
    }
    Ok(pkru | (0x1u32 << (pkey * 2)))
}

/// A change of the rights of one key leaves those of every other key as they are.
proof fn lemma_rights_change(pkru: u32, pkey: u32, other: u32)
    requires
        pkey < 16,
        other < 16,
    ensures
        domain_open(with_domain_open(pkru, pkey), pkey),
        !domain_open(with_domain_closed(pkru, pkey), pkey),
        other != pkey ==> rights(with_domain_open(pkru, pkey), other) == rights(pkru, other),
        other != pkey ==> rights(with_domain_closed(pkru, pkey), other) == rights(pkru, other),
{
    let a = (pkey * 2) as u32;
    let b = (other * 2) as u32;
    assert(a <= 30 ==> ((pkru & !(3u32 << a)) >> a) & 3u32 == 0) by (bit_vector);
    assert(a <= 30 ==> ((pkru | (1u32 << a)) >> a) & 3u32 != 0) by (bit_vector);
    assert(a <= 30 && b <= 30 && a % 2 == 0 && b % 2 == 0 && a != b ==> ((pkru & !(3u32 << a))
        >> b) & 3u32 == (pkru >> b) & 3u32) by (bit_vector);
    assert(a <= 30 && b <= 30 && a % 2 == 0 && b % 2 == 0 && a != b ==> ((pkru | (1u32 << a)) >> b)
        & 3u32 == (pkru >> b) & 3u32) by (bit_vector);
}

/// A domain that was entered is open, no other domain but that of key 0 is, and the rights of
/// every other key are what they were.
pub proof fn law_entered_domain_is_the_only_one(pkru: u32, pkey: u32, other: u32)
    requires
        enter_domain_result(pkru, pkey) is Ok,
        other < PKEY_COUNT,
        other != pkey,
    ensures
        ({
            let after = enter_domain_result(pkru, pkey)->Ok_0;
            &&& domain_open(after, pkey)
            &&& other != 0 ==> !domain_open(after, other)
            &&& rights(after, other) == rights(pkru, other)
        }),
{
    lemma_rights_change(pkru, pkey, other);
    if other != 0 {
        assert(mpk_memory::is_user_pkey(other));
        assert(!domain_open(pkru, other));
    }
}

/// A domain that was left is closed, and the rights of every other key are what they were.
pub proof fn law_left_domain_is_closed(pkru: u32, pkey: u32, other: u32)
    requires
        exit_domain_result(pkru, pkey) is Ok,
        other < PKEY_COUNT,
        other != pkey,
    ensures
        ({
            let after = exit_domain_result(pkru, pkey)->Ok_0;
            &&& !domain_open(after, pkey)
            &&& rights(after, other) == rights(pkru, other)
        }),
{
    lemma_rights_change(pkru, pkey, other);
}

/// A trustlet starts with key 0 open and every other domain closed, and neither entering nor
/// leaving a domain ever leaves more than one domain open beside that of key 0.
pub proof fn law_at_most_one_domain_open(pkru: u32, pkey: u32)
    ensures
        domain_open(INITIAL_PKRU, 0),
        !other_domain_open(INITIAL_PKRU, 0),
        at_most_one_open(INITIAL_PKRU),
        enter_domain_result(pkru, pkey) matches Ok(after) ==> at_most_one_open(after),
        at_most_one_open(pkru) ==> (exit_domain_result(pkru, pkey) matches Ok(after)
            ==> at_most_one_open(after)),
{
    assert((0x5555_5554u32 >> 0u32) & 3u32 == 0) by (bit_vector);
    assert forall|other: u32| mpk_memory::is_user_pkey(other) implies !#[trigger] domain_open(
        INITIAL_PKRU,
        other,
    ) by {
        let b = (other * 2) as u32;
        assert(2 <= b <= 30 && b % 2 == 0 ==> (0x5555_5554u32 >> b) & 3u32 != 0) by (bit_vector);
    }
    if mpk_memory::is_user_pkey(pkey) {
        let entered = with_domain_open(pkru, pkey);
        let left = with_domain_closed(pkru, pkey);
        assert forall|other: u32|
            mpk_memory::is_user_pkey(other) && other != pkey implies #[trigger] domain_open(
            entered,
            other,
        ) == domain_open(pkru, other) by {
            lemma_rights_change(pkru, pkey, other);
        }
        assert forall|other: u32|
            mpk_memory::is_user_pkey(other) && other != pkey implies #[trigger] domain_open(
            left,
            other,
        ) == domain_open(pkru, other) by {
            lemma_rights_change(pkru, pkey, other);
        }
        lemma_rights_change(pkru, pkey, pkey);
    }
}

/// Once the only open domain is left, any domain may be entered.
pub proof fn law_exit_lets_another_in(pkru: u32, pkey: u32, next: u32)
    requires
        at_most_one_open(pkru),
        mpk_memory::is_user_pkey(pkey),
        domain_open(pkru, pkey),
        mpk_memory::is_user_pkey(next),
    ensures
        exit_domain_result(pkru, pkey) matches Ok(after) && enter_domain_result(after, next) is Ok,
{
    let after = with_domain_closed(pkru, pkey);
    assert forall|other: u32| mpk_memory::is_user_pkey(other) implies !#[trigger] domain_open(
        after,
        other,
    ) by {
        lemma_rights_change(pkru, pkey, other);
        assert(domain_open(pkru, other) ==> other == pkey);
    }
}

} // verus!
