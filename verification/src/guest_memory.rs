//! What is copied between the memory of a trustlet and that of the guest.
//!
//! The argument of a request to the guest lies within one page of the trustlet, and it is handed
//! over at the start of one page of the guest.
use vstd::prelude::*;

verus! {

/// A page of the guest with `size` bytes of a trustlet's page, from `offset` on, at its start.
pub open spec fn handed_to_guest(
    arg: Seq<u8>,
    data: Seq<u8>,
    offset: int,
    size: int,
) -> Seq<u8> {
    data.subrange(offset, offset + size) + arg.skip(size)
}

/// A page of a trustlet with the first `size` bytes of the guest's page at `offset`.
pub open spec fn handed_to_trustlet(
    data: Seq<u8>,
    arg: Seq<u8>,
    offset: int,
    size: int,
) -> Seq<u8> {
    data.take(offset) + arg.take(size) + data.skip(offset + size)
}

/// Copies an argument of a trustlet to the guest.
pub fn copy_to_guest(data: &[u8; 4096], offset: usize, size: usize, arg: &mut [u8; 4096])
    requires
        offset + size <= 4096,
    ensures
        final(arg)@ == handed_to_guest(old(arg)@, data@, offset as int, size as int),
{
    let mut i: usize = 0;
    while i < size
        invariant
            i <= size,
            offset + size <= 4096,
            arg@.len() == 4096,
            forall|k: int| 0 <= k < i ==> arg@[k] == data@[offset + k],
            forall|k: int| i <= k < 4096 ==> arg@[k] == old(arg)@[k],
        decreases size - i,
    {
        arg[i] = data[offset + i];
        i += 1;
    }
    assert(arg@ =~= handed_to_guest(old(arg)@, data@, offset as int, size as int));
}

/// Copies an answer of the guest to a trustlet.
pub fn copy_from_guest(arg: &[u8; 4096], size: usize, data: &mut [u8; 4096], offset: usize)
    requires
        offset + size <= 4096,
    ensures
        final(data)@ == handed_to_trustlet(old(data)@, arg@, offset as int, size as int),
{
    let mut i: usize = 0;
    while i < size
        invariant
            i <= size,
            offset + size <= 4096,
            data@.len() == 4096,
            forall|k: int| 0 <= k < i ==> data@[offset + k] == arg@[k],
            forall|k: int|
                0 <= k < 4096 && (k < offset || offset + i <= k) ==> data@[k] == old(data)@[k],
        decreases size - i,
    {
        let ghost before = data@;
        data[offset + i] = arg[i];
        assert forall|k: int| 0 <= k < i + 1 implies data@[offset + k] == arg@[k] by {
            if k < i {
                assert(before[offset + k] == arg@[k]);
            }
        }
        i += 1;
    }
    assert forall|k: int| offset <= k < offset + size implies data@[k] == arg@[k - offset] by {
        assert(data@[offset + (k - offset)] == arg@[k - offset]);
    }
    assert(data@ =~= handed_to_trustlet(old(data)@, arg@, offset as int, size as int));
}

/// A page of the guest with the words of a request at its start.
pub open spec fn with_words(arg: Seq<u64>, words: [u64; 4]) -> Seq<u64> {
    words@ + arg.skip(4)
}

/// Writes the words of a request for a page of a file to the start of a page of the guest.
pub fn write_words(arg: &mut [u64; 512], words: &[u64; 4])
    ensures
        final(arg)@ == words@ + old(arg)@.skip(4),
        final(arg)@ == with_words(old(arg)@, *words),
{
    arg[0] = words[0];
    arg[1] = words[1];
    arg[2] = words[2];
    arg[3] = words[3];
    assert(arg@ =~= words@ + old(arg)@.skip(4));
}

/// What the guest leaves as it is comes back unchanged, and neither direction touches any other
/// byte.
pub proof fn law_argument_comes_back(data: Seq<u8>, arg: Seq<u8>, offset: int, size: int, k: int)
    requires
        data.len() == 4096,
        arg.len() == 4096,
        0 <= offset,
        0 <= size,
        offset + size <= 4096,
        0 <= k < 4096,
    ensures
        ({
            let handed = handed_to_guest(arg, data, offset, size);
            &&& handed.len() == 4096
            &&& handed_to_trustlet(data, handed, offset, size) == data
            &&& k >= size ==> handed[k] == arg[k]
            &&& k < offset || offset + size <= k ==> handed_to_trustlet(data, arg, offset, size)[k]
                == data[k]
        }),
{
    let handed = handed_to_guest(arg, data, offset, size);
    assert(handed_to_trustlet(data, handed, offset, size) =~= data);
}

} // verus!
