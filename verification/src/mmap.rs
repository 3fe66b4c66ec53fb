//! The mapping builder and the typestate family of owned mappings.
//!
//! [`MmapOptions`] accumulates configuration and is consumed by one terminal
//! call, which performs exactly one allocation sequence and returns an owned
//! mapping. A mapping is one of [`Mmap`] (readable, possibly executable) or
//! [`MmapMut`] (readable and writable); protection transitions consume the
//! old state and return the new one, so only one live handle per reservation
//! exists at a time. Dropping a mapping releases its reservation.

use vstd::prelude::*;
use core::ops::Range;
use crate::error::Error;
use crate::flags::MmapFlags;
use crate::flags::PageSize;
use crate::flags::UnsafeMmapFlags;
use crate::sys;

verus! {

/// The abstract state of an owned mapping: its base address, the bytes it
/// holds in address order, whether it is currently executable, and whether
/// the writable-and-executable attestation was given when it was mapped.
pub struct MapView {
    /// The base address of the mapping.
    pub addr: usize,
    /// The bytes the mapping holds, in address order.
    pub bytes: Seq<u8>,
    /// Whether the mapping is currently executable.
    pub executable: bool,
    /// Whether the writable-and-executable attestation was given.
    pub jit: bool,
}

/// Represents an immutable memory mapping, optionally executable.
#[derive(Debug)]
pub struct Mmap {
    inner: sys::RoRegion,
    addr: usize,
    size: usize,
    executable: bool,
    jit: bool,
}

/// Represents a mutable memory mapping.
#[derive(Debug)]
pub struct MmapMut {
    inner: sys::RwRegion,
    addr: usize,
    size: usize,
    jit: bool,
}

impl View for Mmap {
    type V = MapView;

    closed spec fn view(&self) -> MapView {
        MapView {
            addr: self.addr,
            bytes: sys::ro_bytes(self.inner),
            executable: self.executable,
            jit: self.jit,
        }
    }
}

impl View for MmapMut {
    type V = MapView;

    closed spec fn view(&self) -> MapView {
        MapView {
            addr: self.addr,
            bytes: sys::rw_bytes(self.inner),
            executable: false,
            jit: self.jit,
        }
    }
}

impl Mmap {
    /// The handle is well formed: its recorded address and size agree with
    /// the platform resource, the address is not null, and the region lies
    /// within the address space. Every constructor establishes this and
    /// every operation preserves it.
    pub closed spec fn well_formed(self) -> bool {
        &&& self.addr == sys::ro_addr(self.inner)
        &&& self.size == sys::ro_bytes(self.inner).len()
        &&& self.addr != 0
        &&& self.addr + self.size <= usize::MAX
    }

    /// What well-formedness gives a caller: the address is not null and
    /// the extent lies within the address space.
    pub proof fn lemma_well_formed(self)
        requires
            self.well_formed(),
        ensures
            self@.addr != 0,
            self@.addr + self@.bytes.len() <= usize::MAX,
    {
    }

    /// The base address of this mapping.
    pub fn as_ptr(&self) -> (r: usize)
        ensures
            r == self@.addr,
    {
        self.addr
    }

    /// The size of this mapping in bytes.
    pub fn size(&self) -> (r: usize)
        requires
            self.well_formed(),
        ensures
            r == self@.bytes.len(),
    {
        self.size
    }

    /// The number of bytes in this mapping; the same as its size.
    pub fn len(&self) -> (r: usize)
        requires
            self.well_formed(),
        ensures
            r == self@.bytes.len(),
    {
        self.size
    }

    /// The base address of this mapping, in the form the mutable-side
    /// callers use; the mapping itself stays immutable.
    pub fn as_mut_ptr(&mut self) -> (r: usize)
        ensures
            *final(self) == *old(self),
            r == old(self)@.addr,
    {
        self.addr
    }

    /// Extracts a slice containing the entire mapping.
    pub fn as_slice(&self) -> (r: &[u8])
        ensures
            r@ == self@.bytes,
    {
        sys::ro_slice(&self.inner)
    }

    /// Locks the physical pages in memory, so that accessing the mapping
    /// causes no page faults.
    pub fn lock(&mut self) -> (r: Result<(), Error>)
        ensures
            *final(self) == *old(self),
            r matches Err(e) ==> e matches Error::Io(_),
    {
        match sys::lock_ro(&self.inner) {
            Ok(()) => Ok(()),
            Err(e) => Err(Error::Io(e)),
        }
    }

    /// Unlocks the physical pages, letting the operating system swap them
    /// out again.
    pub fn unlock(&mut self) -> (r: Result<(), Error>)
        ensures
            *final(self) == *old(self),
            r matches Err(e) ==> e matches Error::Io(_),
    {
        match sys::unlock_ro(&self.inner) {
            Ok(()) => Ok(()),
            Err(e) => Err(Error::Io(e)),
        }
    }

    /// Flushes the byte sub-range `range` of the mapping synchronously.
    ///
    /// A backwards or empty range is a no-op, not an error; a range that
    /// reaches past the end of the mapping is refused. An anonymous
    /// read-only view has no backing to write to, so nothing further is
    /// done.
    pub fn flush(&self, range: Range<usize>) -> (r: Result<(), Error>)
        requires
            self.well_formed(),
        ensures
            range.end <= range.start ==> r == Ok::<(), Error>(()),
            range.start < range.end && range.end > self@.bytes.len() ==> r == Err::<(), Error>(
                Error::Io(sys::EINVAL),
            ),
            range.start < range.end && range.end <= self@.bytes.len() ==> r == Ok::<(), Error>(()),
    {
        if range.end <= range.start {
            return Ok(());
        }
        if range.end > self.size {
            return Err(Error::Io(sys::EINVAL));
        }
        Ok(())
    }

    /// Flushes the byte sub-range `range` of the mapping asynchronously.
    ///
    /// The same range rules as [`Mmap::flush`] apply.
    pub fn flush_async(&self, range: Range<usize>) -> (r: Result<(), Error>)
        requires
            self.well_formed(),
        ensures
            range.end <= range.start ==> r == Ok::<(), Error>(()),
            range.start < range.end && range.end > self@.bytes.len() ==> r == Err::<(), Error>(
                Error::Io(sys::EINVAL),
            ),
            range.start < range.end && range.end <= self@.bytes.len() ==> r == Ok::<(), Error>(()),
    {
        if range.end <= range.start {
            return Ok(());
        }
        if range.end > self.size {
            return Err(Error::Io(sys::EINVAL));
        }
        Ok(())
    }

    /// Flushes the instruction cache for this mapping.
    ///
    /// On this target the data and instruction caches are coherent, so
    /// nothing needs to be done and the call always succeeds.
    pub fn flush_icache(&self) -> (r: Result<(), Error>)
        ensures
            r == Ok::<(), Error>(()),
    {
        Ok(())
    }

    /// Remaps this memory mapping as immutable and not executable.
    ///
    /// The mapping keeps its address, size and contents; only the
    /// protection changes, in place. A mapping that is already
    /// non-executable is returned unchanged without any platform call, so
    /// that path cannot fail. On failure the reservation is released.
    pub fn make_read_only(self) -> (r: Result<Mmap, Error>)
        requires
            self.well_formed(),
        ensures
            !self@.executable ==> r == Ok::<Mmap, Error>(self),
            r matches Ok(m) ==> m.well_formed() && m@.addr == self@.addr && m@.bytes == self@.bytes
                && !m@.executable && m@.jit == self@.jit,
            r matches Err(e) ==> e matches Error::Io(_),
    {
        if !self.executable {
            return Ok(self);
        }
        let Mmap { inner, addr, size, executable: _, jit } = self;
        let rw = match sys::make_mut(inner) {
            Ok(rw) => rw,
            Err(e) => {
                return Err(Error::Io(e));
            },
        };
        match sys::make_read_only(rw) {
            Ok(n) => Ok(Mmap { inner: n, addr, size, executable: false, jit }),
            Err(e) => Err(Error::Io(e)),
        }
    }

    /// Remaps this memory mapping as executable (and immutable).
    ///
    /// The mapping keeps its address, size and contents; only the
    /// protection changes, in place. A mapping that is already executable
    /// is returned unchanged without any platform call, so that path
    /// cannot fail. On this target the data and instruction caches are
    /// coherent, so no separate cache flush is needed before the new code
    /// can run. On failure the reservation is released.
    pub fn make_exec(self) -> (r: Result<Mmap, Error>)
        requires
            self.well_formed(),
        ensures
            self@.executable ==> r == Ok::<Mmap, Error>(self),
            r matches Ok(m) ==> m.well_formed() && m@.addr == self@.addr && m@.bytes == self@.bytes
                && m@.executable && m@.jit == self@.jit,
            r matches Err(e) ==> e matches Error::Io(_),
    {
        if self.executable {
            return Ok(self);
        }
        let Mmap { inner, addr, size, executable: _, jit } = self;
        let rw = match sys::make_mut(inner) {
            Ok(rw) => rw,
            Err(e) => {
                return Err(Error::Io(e));
            },
        };
        match sys::make_exec(rw) {
            Ok(n) => Ok(Mmap { inner: n, addr, size, executable: true, jit }),
            Err(e) => Err(Error::Io(e)),
        }
    }

    /// Remaps this memory mapping as executable without any instruction
    /// cache flush.
    ///
    /// On targets with incoherent data and instruction caches, running code
    /// written through a mapping that was made executable this way may
    /// observe stale bytes; on this target the caches are coherent and the
    /// operation equals [`Mmap::make_exec`].
    pub fn make_exec_no_flush(self) -> (r: Result<Mmap, Error>)
        requires
            self.well_formed(),
        ensures
            self@.executable ==> r == Ok::<Mmap, Error>(self),
            r matches Ok(m) ==> m.well_formed() && m@.addr == self@.addr && m@.bytes == self@.bytes
                && m@.executable && m@.jit == self@.jit,
            r matches Err(e) ==> e matches Error::Io(_),
    {
        self.make_exec()
    }

    /// Remaps this mapping to be mutable (and not executable).
    ///
    /// The mapping keeps its address, size and contents; only the
    /// protection changes, in place. On failure the reservation is
    /// released.
    pub fn make_mut(self) -> (r: Result<MmapMut, Error>)
        requires
            self.well_formed(),
        ensures
            r matches Ok(m) ==> m.well_formed() && m@.addr == self@.addr && m@.bytes == self@.bytes
                && m@.jit == self@.jit,
            r matches Err(e) ==> e matches Error::Io(_),
    {
        let Mmap { inner, addr, size, executable: _, jit } = self;
        match sys::make_mut(inner) {
            Ok(n) => Ok(MmapMut { inner: n, addr, size, jit }),
            Err(e) => Err(Error::Io(e)),
        }
    }

    /// Remaps this mapping to be both mutable and executable.
    ///
    /// A mapping that is writable and executable at the same time defeats
    /// the usual write-xor-execute protection, so this operation demands
    /// that [`UnsafeMmapFlags`] with the `jit` flag were attested when the
    /// mapping was configured; without the attestation it fails with
    /// [`Error::UnsafeFlagNeeded`] and touches nothing. With the
    /// attestation, success keeps the mapping's address, size and contents
    /// and changes only the protection. The platform primitives this
    /// backend can reach offer no writable-and-executable protection, so at
    /// present the attested path reports [`Error::Io`] with the
    /// unsupported-operation code and releases the reservation, rather than
    /// handing out a mapping with weaker protection.
    pub fn make_exec_mut(self) -> (r: Result<MmapMut, Error>)
        ensures
            !self@.jit ==> r == Err::<MmapMut, Error>(
                Error::UnsafeFlagNeeded(UnsafeMmapFlags { map_fixed: false, jit: true }),
            ),
            r matches Ok(m) ==> self@.jit && m.well_formed() && m@.addr == self@.addr
                && m@.bytes == self@.bytes && m@.jit == self@.jit,
            r matches Err(e) ==> (e == Error::UnsafeFlagNeeded(
                UnsafeMmapFlags { map_fixed: false, jit: true },
            ) || e matches Error::Io(_)),
    {
        match check_jit_attested(UnsafeMmapFlags { map_fixed: false, jit: self.jit }) {
            Ok(()) => (),
            Err(e) => {
                return Err(e);
            },
        }
        Err(Error::Io(sys::ENOTSUP))
    }
}

impl MmapMut {
    /// The handle is well formed: its recorded address and size agree with
    /// the platform resource, the address is not null, and the region lies
    /// within the address space. Every constructor establishes this and
    /// every operation preserves it.
    pub closed spec fn well_formed(self) -> bool {
        &&& self.addr == sys::rw_addr(self.inner)
        &&& self.size == sys::rw_bytes(self.inner).len()
        &&& self.addr != 0
        &&& self.addr + self.size <= usize::MAX
    }

    /// What well-formedness gives a caller: the address is not null and
    /// the extent lies within the address space.
    pub proof fn lemma_well_formed(self)
        requires
            self.well_formed(),
        ensures
            self@.addr != 0,
            self@.addr + self@.bytes.len() <= usize::MAX,
    {
    }

    /// The base address of this mapping.
    pub fn as_ptr(&self) -> (r: usize)
        ensures
            r == self@.addr,
    {
        self.addr
    }

    /// The base address of this mapping, for writing through.
    pub fn as_mut_ptr(&mut self) -> (r: usize)
        ensures
            *final(self) == *old(self),
            r == old(self)@.addr,
    {
        self.addr
    }

    /// The size of this mapping in bytes.
    pub fn size(&self) -> (r: usize)
        requires
            self.well_formed(),
        ensures
            r == self@.bytes.len(),
    {
        self.size
    }

    /// The number of bytes in this mapping; the same as its size.
    pub fn len(&self) -> (r: usize)
        requires
            self.well_formed(),
        ensures
            r == self@.bytes.len(),
    {
        self.size
    }

    /// Extracts a slice containing the entire mapping.
    pub fn as_slice(&self) -> (r: &[u8])
        ensures
            r@ == self@.bytes,
    {
        sys::rw_slice(&self.inner)
    }

    /// Extracts a mutable slice containing the entire mapping. Writes
    /// through the slice are exactly the new contents of the mapping.
    pub fn as_mut_slice(&mut self) -> (r: &mut [u8])
        requires
            old(self).well_formed(),
        ensures
            final(self).well_formed(),
            r@ == old(self)@.bytes,
            final(self)@.bytes == final(r)@,
            final(self)@.addr == old(self)@.addr,
            final(self)@.jit == old(self)@.jit,
            final(self)@.bytes.len() == old(self)@.bytes.len(),
    {
        sys::rw_slice_mut(&mut self.inner)
    }

    /// Locks the physical pages in memory, so that accessing the mapping
    /// causes no page faults.
    pub fn lock(&mut self) -> (r: Result<(), Error>)
        ensures
            *final(self) == *old(self),
            r matches Err(e) ==> e matches Error::Io(_),
    {
        match sys::lock_rw(&self.inner) {
            Ok(()) => Ok(()),
            Err(e) => Err(Error::Io(e)),
        }
    }

    /// Unlocks the physical pages, letting the operating system swap them
    /// out again.
    pub fn unlock(&mut self) -> (r: Result<(), Error>)
        ensures
            *final(self) == *old(self),
            r matches Err(e) ==> e matches Error::Io(_),
    {
        match sys::unlock_rw(&self.inner) {
            Ok(()) => Ok(()),
            Err(e) => Err(Error::Io(e)),
        }
    }

    /// Flushes the byte sub-range `range` of the mapping synchronously,
    /// waiting for the flush to complete.
    ///
    /// A backwards or empty range is a no-op, not an error; a range that
    /// reaches past the end of the mapping is refused.
    pub fn flush(&self, range: Range<usize>) -> (r: Result<(), Error>)
        requires
            self.well_formed(),
        ensures
            range.end <= range.start ==> r == Ok::<(), Error>(()),
            range.start < range.end && range.end > self@.bytes.len() ==> r == Err::<(), Error>(
                Error::Io(sys::EINVAL),
            ),
            r matches Err(e) ==> e matches Error::Io(_),
    {
        if range.end <= range.start {
            return Ok(());
        }
        if range.end > self.size {
            return Err(Error::Io(sys::EINVAL));
        }
        match sys::flush_rw(&self.inner, range.start, range.end - range.start) {
            Ok(()) => Ok(()),
            Err(e) => Err(Error::Io(e)),
        }
    }

    /// Flushes the byte sub-range `range` of the mapping asynchronously.
    ///
    /// The same range rules as [`MmapMut::flush`] apply.
    pub fn flush_async(&self, range: Range<usize>) -> (r: Result<(), Error>)
        requires
            self.well_formed(),
        ensures
            range.end <= range.start ==> r == Ok::<(), Error>(()),
            range.start < range.end && range.end > self@.bytes.len() ==> r == Err::<(), Error>(
                Error::Io(sys::EINVAL),
            ),
            r matches Err(e) ==> e matches Error::Io(_),
    {
        if range.end <= range.start {
            return Ok(());
        }
        if range.end > self.size {
            return Err(Error::Io(sys::EINVAL));
        }
        match sys::flush_async_rw(&self.inner, range.start, range.end - range.start) {
            Ok(()) => Ok(()),
            Err(e) => Err(Error::Io(e)),
        }
    }

    /// Flushes the instruction cache for this mapping.
    ///
    /// On this target the data and instruction caches are coherent, so
    /// nothing needs to be done and the call always succeeds.
    pub fn flush_icache(&self) -> (r: Result<(), Error>)
        ensures
            r == Ok::<(), Error>(()),
    {
        Ok(())
    }

    /// Remaps this memory mapping as immutable.
    ///
    /// The mapping keeps its address, size and contents; only the
    /// protection changes, in place, so every byte written before the
    /// transition is preserved in the read-only view. On failure the
    /// reservation is released.
    pub fn make_read_only(self) -> (r: Result<Mmap, Error>)
        requires
            self.well_formed(),
        ensures
            r matches Ok(m) ==> m.well_formed() && m@.addr == self@.addr && m@.bytes == self@.bytes
                && !m@.executable && m@.jit == self@.jit,
            r matches Err(e) ==> e matches Error::Io(_),
    {
        let MmapMut { inner, addr, size, jit } = self;
        match sys::make_read_only(inner) {
            Ok(n) => Ok(Mmap { inner: n, addr, size, executable: false, jit }),
            Err(e) => Err(Error::Io(e)),
        }
    }

    /// Remaps this memory mapping as executable and no longer writable.
    ///
    /// The mapping keeps its address, size and contents; only the
    /// protection changes, in place. On this target the data and
    /// instruction caches are coherent, so no separate cache flush is
    /// needed before the new code can run. On failure the reservation is
    /// released.
    pub fn make_exec(self) -> (r: Result<Mmap, Error>)
        requires
            self.well_formed(),
        ensures
            r matches Ok(m) ==> m.well_formed() && m@.addr == self@.addr && m@.bytes == self@.bytes
                && m@.executable && m@.jit == self@.jit,
            r matches Err(e) ==> e matches Error::Io(_),
    {
        let MmapMut { inner, addr, size, jit } = self;
        match sys::make_exec(inner) {
            Ok(n) => Ok(Mmap { inner: n, addr, size, executable: true, jit }),
            Err(e) => Err(Error::Io(e)),
        }
    }

    /// Remaps this memory mapping as executable without any instruction
    /// cache flush.
    ///
    /// On targets with incoherent data and instruction caches, running code
    /// written through a mapping that was made executable this way may
    /// observe stale bytes; on this target the caches are coherent and the
    /// operation equals [`MmapMut::make_exec`].
    pub fn make_exec_no_flush(self) -> (r: Result<Mmap, Error>)
        requires
            self.well_formed(),
        ensures
            r matches Ok(m) ==> m.well_formed() && m@.addr == self@.addr && m@.bytes == self@.bytes
                && m@.executable && m@.jit == self@.jit,
            r matches Err(e) ==> e matches Error::Io(_),
    {
        self.make_exec()
    }

    /// Remaps this mapping to be both mutable and executable.
    ///
    /// See [`Mmap::make_exec_mut`]: without the attested `jit` flag this
    /// fails with [`Error::UnsafeFlagNeeded`] and touches nothing; success
    /// keeps address, size and contents. The platform primitives this
    /// backend can reach offer no writable-and-executable protection, so at
    /// present the attested path reports [`Error::Io`] with the
    /// unsupported-operation code and releases the reservation.
    pub fn make_exec_mut(self) -> (r: Result<MmapMut, Error>)
        ensures
            !self@.jit ==> r == Err::<MmapMut, Error>(
                Error::UnsafeFlagNeeded(UnsafeMmapFlags { map_fixed: false, jit: true }),
            ),
            r matches Ok(m) ==> self@.jit && m.well_formed() && m@.addr == self@.addr
                && m@.bytes == self@.bytes && m@.jit == self@.jit,
            r matches Err(e) ==> (e == Error::UnsafeFlagNeeded(
                UnsafeMmapFlags { map_fixed: false, jit: true },
            ) || e matches Error::Io(_)),
    {
        match check_jit_attested(UnsafeMmapFlags { map_fixed: false, jit: self.jit }) {
            Ok(()) => (),
            Err(e) => {
                return Err(e);
            },
        }
        Err(Error::Io(sys::ENOTSUP))
    }
}

/// The attestation check shared by every operation that would yield a
/// mapping both writable and executable: such a mapping defeats the usual
/// write-xor-execute protection, so the `jit` flag must have been attested
/// beforehand, and omitting it is a caught configuration error, not
/// undefined behaviour.
pub fn check_jit_attested(flags: UnsafeMmapFlags) -> (r: Result<(), Error>)
    ensures
        flags.jit ==> r == Ok::<(), Error>(()),
        !flags.jit ==> r == Err::<(), Error>(
            Error::UnsafeFlagNeeded(UnsafeMmapFlags { map_fixed: false, jit: true }),
        ),
{
    if !flags.jit {
        return Err(Error::UnsafeFlagNeeded(UnsafeMmapFlags { map_fixed: false, jit: true }));
    }
    Ok(())
}

/// Validates a request to split a mapping of `size` bytes into two
/// independently owned halves at offset `at`, against the page size
/// `page`: a split is allowed exactly at a page-aligned interior offset.
/// The halves cover the region disjointly and in ascending order — the low
/// half holds the first `at` bytes, the high half the remaining
/// `size - at` — and an offset that is not page-aligned, zero, or past the
/// end is refused without touching anything.
pub fn split_plan(size: usize, at: usize, page: usize) -> (r: Result<(usize, usize), Error>)
    requires
        page >= 1,
    ensures
        r matches Ok(h) ==> at % page == 0 && 0 < at < size && h.0 == at && h.1 == size - at,
        r matches Err(e) ==> e == Error::Io(sys::EINVAL) && !(at % page == 0 && 0 < at < size),
{
    if at % page != 0 || at == 0 || at >= size {
        return Err(Error::Io(sys::EINVAL));
    }
    Ok((at, size - at))
}

/// Represents the configuration for a memory mapping to be allocated.
pub struct MmapOptions {
    /// The size of the mapping to be allocated, in bytes.
    pub size: usize,
    /// The address at which the caller would like the mapping placed. This
    /// backend cannot forward placement wishes to the platform call it
    /// reaches: a plain wish is ignored, and a demand through the
    /// fixed-address attestation makes the terminal call fail rather than
    /// map elsewhere.
    pub address: Option<usize>,
    /// The configuration flags for the mapping.
    pub flags: MmapFlags,
    /// The attested unsafe flags for the mapping.
    pub unsafe_flags: UnsafeMmapFlags,
    /// The preferred page size for the mapping, if any.
    pub page_size: Option<PageSize>,
}

impl MmapOptions {
    /// Constructs the builder. The size given is the size of the mapping
    /// to be allocated, in bytes.
    pub fn new(size: usize) -> (r: Result<Self, Error>)
        ensures
            r == Ok::<Self, Error>(
                MmapOptions {
                    size,
                    address: None,
                    flags: MmapFlags::spec_empty(),
                    unsafe_flags: UnsafeMmapFlags { map_fixed: false, jit: false },
                    page_size: None,
                },
            ),
    {
        Ok(
            MmapOptions {
                size,
                address: None,
                flags: MmapFlags::empty(),
                unsafe_flags: UnsafeMmapFlags::empty(),
                page_size: None,
            },
        )
    }

    /// The smallest page size of this platform, in bytes: a power of two
    /// of at least one byte. Allocation sizes must be a multiple of it for
    /// an allocation to succeed. Where the platform query fails or reports
    /// something that is no power of two, the traditional size of small
    /// pages stands in.
    pub fn page_size() -> (r: usize)
        ensures
            r >= 1,
            r & ((r - 1) as usize) == 0,
    {
        proof {
            assert(4096usize & 4095usize == 0) by (bit_vector);
        }
        let v = match sys::sysconf_page_size() {
            Ok(v) => v,
            Err(_) => 4096,
        };
        if v >= 1 && v & (v - 1) == 0 {
            v
        } else {
            4096
        }
    }

    /// The allocation granularity of this platform, in bytes: a power of
    /// two of at least one byte. On this platform it equals the page size.
    pub fn allocation_granularity() -> (r: usize)
        ensures
            r >= 1,
            r & ((r - 1) as usize) == 0,
    {
        Self::page_size()
    }

    /// Records the address at which the caller would like the mapping.
    pub fn with_address(self, address: usize) -> (r: Self)
        ensures
            r == (MmapOptions { address: Some(address), ..self }),
    {
        MmapOptions { address: Some(address), ..self }
    }

    /// Adds the given configuration flags to the builder.
    pub fn with_flags(self, flags: MmapFlags) -> (r: Self)
        ensures
            r == (MmapOptions { flags: MmapFlags::spec_union(self.flags, flags), ..self }),
    {
        let merged = self.flags.union(flags);
        MmapOptions { flags: merged, ..self }
    }

    /// Attests the given unsafe flags. Each gated terminal operation
    /// demands its flag here, so that omitting one is a caught
    /// configuration error.
    pub fn with_unsafe_flags(self, flags: UnsafeMmapFlags) -> (r: Self)
        ensures
            r == (MmapOptions {
                unsafe_flags: UnsafeMmapFlags {
                    map_fixed: self.unsafe_flags.map_fixed || flags.map_fixed,
                    jit: self.unsafe_flags.jit || flags.jit,
                },
                ..self
            }),
    {
        let merged = self.unsafe_flags.union(flags);
        MmapOptions { unsafe_flags: merged, ..self }
    }

    /// Asks for the mapping to be backed by pages of the given size.
    pub fn with_page_size(self, page_size: PageSize) -> (r: Self)
        ensures
            r == (MmapOptions { page_size: Some(page_size), ..self }),
    {
        MmapOptions { page_size: Some(page_size), ..self }
    }

    /// The one allocation sequence shared by the terminal operations:
    /// reserves a fresh anonymous private read-write mapping of the
    /// configured size and applies the configured flags to it.
    fn do_map_rw(self) -> (r: Result<MmapMut, Error>)
        ensures
            r matches Ok(m) ==> m.well_formed() && m@.addr != 0 && m@.bytes == Seq::new(
                self.size as nat,
                |i: int| 0u8,
            ) && m@.jit == self.unsafe_flags.jit,
            self.unsafe_flags.map_fixed ==> r == Err::<MmapMut, Error>(Error::Io(sys::ENOTSUP)),
            self.page_size matches Some(p) && !self.unsafe_flags.map_fixed && p.0 >= 64 ==> r
                == Err::<MmapMut, Error>(Error::Io(sys::EINVAL)),
            r matches Err(e) ==> e matches Error::Io(_),
    {
        if self.unsafe_flags.map_fixed {
            return Err(Error::Io(sys::ENOTSUP));
        }
        let mut o = sys::opts_new();
        sys::opts_len(&mut o, self.size);
        if self.flags.populate {
            sys::opts_populate(&mut o);
        }
        if self.flags.stack {
            sys::opts_stack(&mut o);
        }
        if self.flags.no_reserve {
            sys::opts_no_reserve(&mut o);
        }
        match self.page_size {
            Some(p) => {
                if p.0 >= 64 {
                    return Err(Error::Io(sys::EINVAL));
                }
                sys::opts_huge(&mut o, Some(p.0 as u8));
            },
            None => {
                if self.flags.huge_pages {
                    sys::opts_huge(&mut o, None);
                }
            },
        }
        let m = match sys::opts_map_anon(&o) {
            Ok(m) => m,
            Err(e) => {
                return Err(Error::Io(e));
            },
        };
        if self.flags.locked {
            match sys::lock_rw(&m) {
                Ok(()) => (),
                Err(e) => {
                    return Err(Error::Io(e));
                },
            }
        }
        if self.flags.no_core_dump {
            match sys::advise_no_core_dump(&m) {
                Ok(()) => (),
                Err(e) => {
                    return Err(Error::Io(e));
                },
            }
        }
        if self.flags.transparent_huge_pages {
            match sys::advise_transparent_huge_pages(&m) {
                Ok(()) => (),
                Err(e) => {
                    return Err(Error::Io(e));
                },
            }
        }
        let addr = sys::rw_addr_of(&m);
        let size = sys::rw_len_of(&m);
        Ok(MmapMut { inner: m, addr, size, jit: self.unsafe_flags.jit })
    }

    /// Maps the memory as immutable.
    pub fn map(self) -> (r: Result<Mmap, Error>)
        ensures
            r matches Ok(m) ==> m.well_formed() && m@.addr != 0 && m@.bytes == Seq::new(
                self.size as nat,
                |i: int| 0u8,
            ) && !m@.executable && m@.jit == self.unsafe_flags.jit,
            self.unsafe_flags.map_fixed ==> r == Err::<Mmap, Error>(Error::Io(sys::ENOTSUP)),
            self.page_size matches Some(p) && !self.unsafe_flags.map_fixed && p.0 >= 64 ==> r
                == Err::<Mmap, Error>(Error::Io(sys::EINVAL)),
            r matches Err(e) ==> e matches Error::Io(_),
    {
        match self.do_map_rw() {
            Ok(m) => m.make_read_only(),
            Err(e) => Err(e),
        }
    }

    /// Maps the memory as executable (and immutable).
    pub fn map_exec(self) -> (r: Result<Mmap, Error>)
        ensures
            r matches Ok(m) ==> m.well_formed() && m@.addr != 0 && m@.bytes == Seq::new(
                self.size as nat,
                |i: int| 0u8,
            ) && m@.executable && m@.jit == self.unsafe_flags.jit,
            self.unsafe_flags.map_fixed ==> r == Err::<Mmap, Error>(Error::Io(sys::ENOTSUP)),
            self.page_size matches Some(p) && !self.unsafe_flags.map_fixed && p.0 >= 64 ==> r
                == Err::<Mmap, Error>(Error::Io(sys::EINVAL)),
            r matches Err(e) ==> e matches Error::Io(_),
    {
        match self.do_map_rw() {
            Ok(m) => m.make_exec(),
            Err(e) => Err(e),
        }
    }

    /// Maps the memory as mutable. The fresh pages hold zeroes.
    pub fn map_mut(self) -> (r: Result<MmapMut, Error>)
        ensures
            r matches Ok(m) ==> m.well_formed() && m@.addr != 0 && m@.bytes == Seq::new(
                self.size as nat,
                |i: int| 0u8,
            ) && m@.jit == self.unsafe_flags.jit,
            self.unsafe_flags.map_fixed ==> r == Err::<MmapMut, Error>(Error::Io(sys::ENOTSUP)),
            self.page_size matches Some(p) && !self.unsafe_flags.map_fixed && p.0 >= 64 ==> r
                == Err::<MmapMut, Error>(Error::Io(sys::EINVAL)),
            r matches Err(e) ==> e matches Error::Io(_),
    {
        self.do_map_rw()
    }

    /// Maps the memory as both mutable and executable.
    ///
    /// A mapping that is writable and executable at the same time defeats
    /// the usual write-xor-execute protection, so this terminal demands the
    /// attested `jit` flag; without it the call fails with
    /// [`Error::UnsafeFlagNeeded`] before anything is allocated. With the
    /// attestation, success yields a fresh zero-filled mapping of the
    /// configured size. The platform primitives this backend can reach
    /// offer no writable-and-executable protection, so at present the
    /// attested path reports [`Error::Io`] with the unsupported-operation
    /// code and allocates nothing.
    pub fn map_exec_mut(self) -> (r: Result<MmapMut, Error>)
        ensures
            !self.unsafe_flags.jit ==> r == Err::<MmapMut, Error>(
                Error::UnsafeFlagNeeded(UnsafeMmapFlags { map_fixed: false, jit: true }),
            ),
            r matches Ok(m) ==> self.unsafe_flags.jit && m.well_formed() && m@.addr != 0
                && m@.bytes == Seq::new(self.size as nat, |i: int| 0u8) && m@.jit,
            r matches Err(e) ==> (e == Error::UnsafeFlagNeeded(
                UnsafeMmapFlags { map_fixed: false, jit: true },
            ) || e matches Error::Io(_)),
    {
        match check_jit_attested(self.unsafe_flags) {
            Ok(()) => (),
            Err(e) => {
                return Err(e);
            },
        }
        Err(Error::Io(sys::ENOTSUP))
    }
}

} // verus!
