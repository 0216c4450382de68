//! The trusted boundary to the operating system's virtual-memory facility,
//! reached through `memmap2`. Everything else in the crate is verified
//! against the contracts stated here.

use vstd::prelude::*;
use memmap2::MmapMut;

verus! {

/// The bytes currently held by a mapping: the contents that the mapping's
/// slice view exposes.
pub uninterp spec fn mm_bytes(m: MmapMut) -> Seq<u8>;

/// The start address of a mapping's byte region.
pub uninterp spec fn mm_addr(m: MmapMut) -> usize;

#[verifier::external_type_specification]
#[verifier::external_body]
pub struct ExMmapMut(MmapMut);

/// Relies on `memmap2::MmapMut::map_anon`: a private, anonymous mapping of
/// exactly `len` bytes (`mmap` with `MAP_PRIVATE | MAP_ANON` on POSIX,
/// `VirtualAlloc` with `MEM_RESERVE | MEM_COMMIT` on Windows), which the
/// operating system hands out zero-filled. Allocation failure is fatal by
/// design: when the OS declines the request, the process halts at once
/// instead of returning an error.
#[verifier::external_body]
pub(crate) fn acquire_zeroed(len: usize) -> (m: MmapMut)
    ensures
        mm_bytes(m).len() == len as nat,
        forall|i: int| 0 <= i < len ==> mm_bytes(m)[i] == 0u8,
{
    MmapMut::map_anon(len).expect("PageBlock could not allocate memory!")
}

/// Relies on `memmap2`'s `Deref` to `[u8]` and std's slice indexing: the
/// byte at offset `i` of the mapping's contents.
#[verifier::external_body]
pub(crate) fn read_byte(m: &MmapMut, i: usize) -> (r: u8)
    requires
        i < mm_bytes(*m).len(),
    ensures
        r == mm_bytes(*m)[i as int],
{
    m[i]
}

/// Relies on `memmap2`'s `DerefMut` to `[u8]` and std's slice indexing:
/// stores `v` at offset `i` of the mapping's contents and changes nothing
/// else; writing a byte neither moves nor resizes the mapping.
#[verifier::external_body]
pub(crate) fn write_byte(m: &mut MmapMut, i: usize, v: u8)
    requires
        i < mm_bytes(*old(m)).len(),
    ensures
        mm_bytes(*final(m)) == mm_bytes(*old(m)).update(i as int, v),
        mm_addr(*final(m)) == mm_addr(*old(m)),
{
    m[i] = v;
}

/// Relies on `memmap2`'s `Deref` to `[u8]`: a shared view of the whole
/// mapping, exactly its contents.
#[verifier::external_body]
pub(crate) fn as_byte_slice(m: &MmapMut) -> (r: &[u8])
    ensures
        r@ == mm_bytes(*m),
{
    &m[..]
}

/// Relies on `memmap2`'s `DerefMut` to `[u8]`: a mutable view of the whole
/// mapping. Writes through the view become the mapping's contents; a slice
/// reference can never change the region's length or address.
#[verifier::external_body]
pub(crate) fn as_byte_slice_mut(m: &mut MmapMut) -> (r: &mut [u8])
    ensures
        r@ == mm_bytes(*old(m)),
        final(r)@.len() == mm_bytes(*old(m)).len(),
        mm_bytes(*final(m)) == final(r)@,
        mm_addr(*final(m)) == mm_addr(*old(m)),
{
    &mut m[..]
}

/// Relies on `memmap2`'s `Deref` to `[u8]` and std's `slice::as_ptr`: the
/// start address of the mapping's byte region. The data pointer of a live
/// slice is never null, which std requires of every slice it hands out.
#[verifier::external_body]
pub(crate) fn page_addr(m: &MmapMut) -> (r: usize)
    ensures
        r == mm_addr(*m),
        r != 0,
{
    let region: &[u8] = &m[..];
    region.as_ptr() as usize
}

} // verus!
