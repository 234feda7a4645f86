use vstd::prelude::*;

use crate::handle::RawHandle;
use crate::handle::spec_is_null;

verus! {

/// The contents of a freshly allocated zero-initialized buffer of `n` octets.
pub open spec fn zeroed(n: nat) -> Seq<u8> {
    Seq::new(n, |i: int| 0u8)
}

/// The allocator shim: produce a zero-initialized buffer of `length` octets,
/// already in the detached regime so the host may fill it and later hand it
/// back through [`from_boxed_byte_slice_raw`]. Zero length yields the
/// canonical empty handle and touches no allocation.
pub fn new_boxed_byte_slice_buffer_raw(length: usize) -> (h: RawHandle)
    ensures
        h@ == zeroed(length as nat),
{
    let mut bytes: Vec<u8> = Vec::new();
    while bytes.len() < length
        invariant
            bytes@.len() <= length,
            forall|i: int| 0 <= i < bytes@.len() ==> bytes@[i] == 0u8,
        decreases length - bytes@.len(),
    {
        bytes.push(0u8);
    }
    proof {
        assert(bytes@ =~= zeroed(length as nat));
    }
    RawHandle::from_bytes(bytes)
}

/// Release an owned buffer to the host: detach it into a raw handle carrying
/// exactly its octets. An empty buffer collapses to the canonical empty
/// handle and its allocation, if any, is dropped here; otherwise no copy is
/// made and the octets stay where they are, now owned by the handle alone.
pub fn into_boxed_byte_slice_raw(src: Vec<u8>) -> (h: RawHandle)
    ensures
        h@ == src@,
{
    if src.len() == 0 {
        proof {
            assert(src@ =~= Seq::<u8>::empty());
        }
        RawHandle::from_bytes(Vec::new())
    } else {
        RawHandle::from_bytes(src)
    }
}

/// Reclaim a raw handle into the managed regime: the returned buffer owns
/// exactly the handle's octets and frees them when dropped. A zero-length
/// handle yields the empty buffer.
pub fn from_boxed_byte_slice_raw(h: RawHandle) -> (buffer: Vec<u8>)
    ensures
        buffer@ == h@,
{
    h.into_bytes()
}

/// Zero preservation: a buffer allocated zeroed with length `n` and then
/// reclaimed holds exactly `n` octets, each zero. The allocator shim ensures
/// its handle views [`zeroed`]`(n)` and reclaiming returns that view
/// unchanged.
pub proof fn zero_preservation(n: nat)
    ensures
        zeroed(n).len() == n,
        forall|i: int| 0 <= i < n ==> zeroed(n)[i] == 0u8,
{
}

/// Release/reclaim identity: for any owned buffer, releasing it and
/// reclaiming the resulting handle yields a buffer of the same length and
/// contents. `buffer` is the view of the owned input, `handle` the view of
/// the handle release produced, `reclaimed` the view of the buffer reclaim
/// returned; the hypotheses are exactly what the two operations ensure.
pub proof fn release_reclaim_identity(buffer: Seq<u8>, handle: Seq<u8>, reclaimed: Seq<u8>)
    requires
        handle == buffer,
        reclaimed == handle,
    ensures
        reclaimed == buffer,
        reclaimed.len() == buffer.len(),
{
}

/// Empty canonicalization: releasing an empty buffer yields the canonical
/// empty handle `(null, 0)`, reclaiming a zero-length handle yields the empty
/// buffer, and the zero-length allocation is the empty handle.
pub proof fn empty_canonicalization(buffer: Seq<u8>, handle: Seq<u8>)
    requires
        buffer.len() == 0,
        handle == buffer,
    ensures
        spec_is_null(handle),
        handle == Seq::<u8>::empty(),
        spec_is_null(zeroed(0)),
{
    assert(handle =~= Seq::<u8>::empty());
}

} // verus!
