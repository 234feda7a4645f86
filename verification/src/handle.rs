use vstd::prelude::*;

verus! {

/// True of the canonical empty handle, which stands for `(null, 0)`: a handle
/// is null exactly when it refers to no octets.
pub open spec fn spec_is_null(bytes: Seq<u8>) -> bool {
    bytes.len() == 0
}

/// The library's image of the `(pointer, length)` pair that crosses the FFI
/// boundary: a buffer in the *detached* regime.
///
/// A `RawHandle` is the sole reference to the octets it carries; no managed
/// value can free them while the handle is out with the host. Its view is the
/// sequence of octets the host may read and write through the pointer. The
/// canonical empty handle — length zero, nothing to dereference — stands for
/// `(null, 0)`.
pub struct RawHandle {
    bytes: Vec<u8>,
}

impl View for RawHandle {
    type V = Seq<u8>;

    closed spec fn view(&self) -> Seq<u8> {
        self.bytes@
    }
}

impl RawHandle {
    /// Detach an owned byte sequence into a handle. Only release operations
    /// publish handles, so this stays inside the crate.
    pub(crate) fn from_bytes(bytes: Vec<u8>) -> (h: RawHandle)
        ensures
            h@ == bytes@,
    {
        RawHandle { bytes }
    }

    /// Reattach the handle's octets to a managed owner, consuming the handle.
    /// Only reclaim operations do this, so it stays inside the crate.
    pub(crate) fn into_bytes(self) -> (bytes: Vec<u8>)
        ensures
            bytes@ == self@,
    {
        self.bytes
    }

    /// The length the host receives beside the pointer.
    pub fn len(&self) -> (n: usize)
        ensures
            n == self@.len(),
    {
        self.bytes.len()
    }

    /// True when this is the canonical empty handle `(null, 0)`.
    pub fn is_null(&self) -> (r: bool)
        ensures
            r == spec_is_null(self@),
    {
        self.bytes.len() == 0
    }

    /// Read one octet, as the host reads through the published pointer.
    pub fn byte_at(&self, i: usize) -> (b: u8)
        requires
            i < self@.len(),
        ensures
            b == self@[i as int],
    {
        self.bytes[i]
    }

    /// Overwrite one octet, as the host writes through the published pointer
    /// when filling a buffer obtained from the allocator shim.
    pub fn write_at(&mut self, i: usize, b: u8)
        requires
            i < old(self)@.len(),
        ensures
            final(self)@ == old(self)@.update(i as int, b),
    {
        self.bytes.set(i, b);
    }
}

} // verus!
