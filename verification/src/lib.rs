//! A page-granular memory allocation primitive: acquire exactly one
//! fixed-size page of zero-initialized, read-write memory from the operating
//! system, own it exclusively, and hand it back when the handle goes away.
//!
//! The page is a private anonymous mapping, so acquisition and release make
//! one direct system call each: no general-purpose heap allocation and no
//! locking, which keeps both paths safe to run inside a signal or exception
//! handler. Allocation failure is fatal by design: the process halts rather
//! than returning an error, because callers assume the low-level reservation
//! cannot fail.

use vstd::prelude::*;
use memmap2::MmapMut;

mod os;

verus! {

/// The fixed size, in bytes, of every page this crate hands out: the host's
/// native page granularity.
pub const PAGESIZE: usize = 4096;

/// The view of a freshly acquired page: `PAGESIZE` bytes, all zero.
pub open spec fn zero_page() -> Seq<u8> {
    Seq::new(PAGESIZE as nat, |i: int| 0u8)
}

/// Exclusive ownership of one `PAGESIZE`-byte page of process memory.
///
/// The handle cannot be copied, only moved; releasing happens exactly once,
/// when the handle is dropped (or consumed by [`PageBlock::release`]).
pub struct PageBlock {
    map: MmapMut,
}

impl View for PageBlock {
    type V = Seq<u8>;

    /// The bytes of the owned page.
    closed spec fn view(&self) -> Seq<u8> {
        os::mm_bytes(self.map)
    }
}

impl PageBlock {
    /// The start address of the owned page.
    pub closed spec fn addr_spec(&self) -> usize {
        os::mm_addr(self.map)
    }

    /// A live handle always covers exactly `PAGESIZE` bytes.
    pub open spec fn wf(&self) -> bool {
        self@.len() == PAGESIZE
    }

    /// Acquire one page from the operating system: private (not shared with,
    /// or backed by, any file or other process), read-write, and zero-filled.
    /// If the OS declines the request the process halts at once; no error is
    /// ever returned.
    pub fn new() -> (r: PageBlock)
        ensures
            r.wf(),
            r@ == zero_page(),
    {
        let m = os::acquire_zeroed(PAGESIZE);
        proof {
            assert(os::mm_bytes(m) =~= zero_page());
        }
        PageBlock { map: m }
    }

    /// The byte at offset `i` of the page.
    pub fn read(&self, i: usize) -> (r: u8)
        requires
            self.wf(),
            i < PAGESIZE,
        ensures
            r == self@[i as int],
    {
        os::read_byte(&self.map, i)
    }

    /// Store `v` at offset `i` of the page; no other byte changes, and the
    /// page neither moves nor resizes.
    pub fn write(&mut self, i: usize, v: u8)
        requires
            old(self).wf(),
            i < PAGESIZE,
        ensures
            final(self).wf(),
            final(self)@ == old(self)@.update(i as int, v),
            final(self).addr_spec() == old(self).addr_spec(),
    {
        os::write_byte(&mut self.map, i, v);
    }

    /// An immutable view of the whole page.
    pub fn slice(&self) -> (r: &[u8])
        ensures
            r@ == self@,
    {
        os::as_byte_slice(&self.map)
    }

    /// A mutable view of the whole page. Whatever the caller writes through
    /// the view becomes the page's contents; the view cannot change the
    /// page's length or address.
    pub fn slice_mut(&mut self) -> (r: &mut [u8])
        ensures
            r@ == old(self)@,
            final(self)@ == final(r)@,
            final(self)@.len() == old(self)@.len(),
            final(self).addr_spec() == old(self).addr_spec(),
    {
        os::as_byte_slice_mut(&mut self.map)
    }

    /// The bare start address of the page, for interop with foreign mapping
    /// or fault-handling logic. Never zero: the page is a live mapping.
    pub fn as_ptr(&self) -> (r: usize)
        ensures
            r == self.addr_spec(),
            r != 0,
    {
        os::page_addr(&self.map)
    }

    /// The bare start address of the page, through a handle that is free to
    /// write to it. Never zero, and the same address `as_ptr` reports.
    pub fn as_mut_ptr(&mut self) -> (r: usize)
        ensures
            *final(self) == *old(self),
            r == old(self).addr_spec(),
            r != 0,
    {
        os::page_addr(&self.map)
    }

    /// Hand the page back to the operating system by consuming the handle:
    /// the mapping is removed exactly once, here. Dropping the handle has
    /// the same effect; this method only makes the release point explicit.
    pub fn release(self) {
    }
}

/// Every byte of a freshly acquired page's view is zero, and the view is
/// exactly `PAGESIZE` bytes long.
pub proof fn lemma_fresh_page_all_zero(i: int)
    requires
        0 <= i < PAGESIZE,
    ensures
        zero_page().len() == PAGESIZE,
        zero_page()[i] == 0u8,
{
}

/// Round-trip identity: writing `v` at offset `i` of a page and reading
/// offset `i` back yields exactly `v`, while every other offset and the
/// page's length are unchanged.
pub proof fn lemma_write_read_round_trip(page: Seq<u8>, i: int, v: u8)
    requires
        0 <= i < page.len(),
    ensures
        page.update(i, v)[i] == v,
        page.update(i, v).len() == page.len(),
        forall|j: int| 0 <= j < page.len() && j != i ==> page.update(i, v)[j] == page[j],
{
}

} // verus!
