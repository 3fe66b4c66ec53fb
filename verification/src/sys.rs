//! The trusted boundary to the operating system.
//!
//! Every function here is a thin wrapper around one call into an outside
//! crate, marked `external_body`: its contract is what the rest of the crate
//! relies on, and nothing more is claimed of the outside call than its
//! source and documentation show. The uninterpreted specification functions
//! name what an opaque platform resource holds — its base address and its
//! bytes — so that the verified code can speak of a mapping's state without
//! seeing inside the resource.

use vstd::prelude::*;
use vstd::utf8::encode_utf8;
use vstd::utf8::valid_utf8;

verus! {

/// The error number a Linux kernel reports for an invalid argument.
pub const EINVAL: i32 = 22;

/// The error number a Linux kernel reports for an unsupported operation.
pub const ENOTSUP: i32 = 95;

/// An owned, writable platform mapping: it holds the outside crate's
/// read-write mapping object, whose own declaration this crate cannot
/// state, so the whole struct is opaque and only the named specification
/// functions below speak of what it holds. Dropping it releases the
/// reservation exactly once.
#[verifier::external_body]
#[derive(Debug)]
pub struct RwRegion {
    inner: memmap2::MmapMut,
}

/// An owned, read-only (possibly executable) platform mapping; the
/// read-only counterpart of [`RwRegion`].
#[verifier::external_body]
#[derive(Debug)]
pub struct RoRegion {
    inner: memmap2::Mmap,
}

/// A platform allocation request under construction; it holds the outside
/// crate's builder object.
#[verifier::external_body]
pub struct AllocRequest {
    inner: memmap2::MmapOptions,
}

/// The base address of the reservation behind a writable platform mapping.
pub uninterp spec fn rw_addr(m: RwRegion) -> usize;

/// The bytes a writable platform mapping holds, in address order.
pub uninterp spec fn rw_bytes(m: RwRegion) -> Seq<u8>;

/// The base address of the reservation behind a read-only platform mapping.
pub uninterp spec fn ro_addr(m: RoRegion) -> usize;

/// The bytes a read-only platform mapping holds, in address order.
pub uninterp spec fn ro_bytes(m: RoRegion) -> Seq<u8>;

/// The mapping length configured in a platform allocation request.
pub uninterp spec fn opt_len(o: AllocRequest) -> usize;

/// Relies on memmap2::MmapOptions::new: a fresh request with no length set.
#[verifier::external_body]
pub(crate) fn opts_new() -> (r: AllocRequest)
    ensures
        opt_len(r) == 0,
{
    AllocRequest { inner: memmap2::MmapOptions::new() }
}

/// Relies on memmap2::MmapOptions::len: sets the configured mapping length.
#[verifier::external_body]
pub(crate) fn opts_len(o: &mut AllocRequest, n: usize)
    ensures
        opt_len(*final(o)) == n,
{
    o.inner.len(n);
}

/// Relies on memmap2::MmapOptions::populate: asks for the pages up front.
#[verifier::external_body]
pub(crate) fn opts_populate(o: &mut AllocRequest)
    ensures
        opt_len(*final(o)) == opt_len(*old(o)),
{
    o.inner.populate();
}

/// Relies on memmap2::MmapOptions::stack: asks for a stack-like region.
#[verifier::external_body]
pub(crate) fn opts_stack(o: &mut AllocRequest)
    ensures
        opt_len(*final(o)) == opt_len(*old(o)),
{
    o.inner.stack();
}

/// Relies on memmap2::MmapOptions::no_reserve_swap: asks for no swap
/// reservation.
#[verifier::external_body]
pub(crate) fn opts_no_reserve(o: &mut AllocRequest)
    ensures
        opt_len(*final(o)) == opt_len(*old(o)),
{
    o.inner.no_reserve_swap();
}

/// Relies on memmap2::MmapOptions::huge: asks for huge pages, of
/// `2^page_bits` bytes each when a size is given.
#[verifier::external_body]
pub(crate) fn opts_huge(o: &mut AllocRequest, page_bits: Option<u8>)
    ensures
        opt_len(*final(o)) == opt_len(*old(o)),
{
    o.inner.huge(page_bits);
}

/// Relies on memmap2::MmapOptions::map_anon: reserves a fresh anonymous
/// private read-write mapping of the configured length. Its pages are
/// zero-initialized, its base address is never null, and the region lies
/// within the address space, so base and length together cannot overflow.
#[verifier::external_body]
pub(crate) fn opts_map_anon(o: &AllocRequest) -> (r: Result<RwRegion, i32>)
    ensures
        r matches Ok(m) ==> rw_bytes(m) == Seq::new(opt_len(*o) as nat, |i: int| 0u8)
            && rw_addr(m) != 0 && rw_addr(m) + opt_len(*o) <= usize::MAX,
{
    o.inner.map_anon().map(|m| RwRegion { inner: m }).map_err(|e| e.raw_os_error().unwrap_or(0))
}

/// Relies on memmap2::MmapMut::as_ptr: the base address of the mapping.
#[verifier::external_body]
pub(crate) fn rw_addr_of(m: &RwRegion) -> (r: usize)
    ensures
        r == rw_addr(*m),
{
    m.inner.as_ptr() as usize
}

/// Relies on memmap2::MmapMut::len: the length of the mapping.
#[verifier::external_body]
pub(crate) fn rw_len_of(m: &RwRegion) -> (r: usize)
    ensures
        r == rw_bytes(*m).len(),
{
    m.inner.len()
}

/// Relies on memmap2::Mmap::as_ptr: the base address of the mapping.
#[verifier::external_body]
pub(crate) fn ro_addr_of(m: &RoRegion) -> (r: usize)
    ensures
        r == ro_addr(*m),
{
    m.inner.as_ptr() as usize
}

/// Relies on memmap2::Mmap::len: the length of the mapping.
#[verifier::external_body]
pub(crate) fn ro_len_of(m: &RoRegion) -> (r: usize)
    ensures
        r == ro_bytes(*m).len(),
{
    m.inner.len()
}

/// Relies on memmap2::MmapMut's slice view: the slice is the mapped memory
/// itself, one byte per mapped address.
#[verifier::external_body]
pub(crate) fn rw_slice(m: &RwRegion) -> (r: &[u8])
    ensures
        r@ == rw_bytes(*m),
{
    &m.inner[..]
}

/// Relies on memmap2::MmapMut's mutable slice view: the slice is the mapped
/// memory itself, so writes through it are exactly the new contents of the
/// mapping, whose base address and length do not move.
#[verifier::external_body]
pub(crate) fn rw_slice_mut(m: &mut RwRegion) -> (r: &mut [u8])
    ensures
        r@ == rw_bytes(*old(m)),
        rw_bytes(*final(m)) == final(r)@,
        rw_bytes(*final(m)).len() == rw_bytes(*old(m)).len(),
        rw_addr(*final(m)) == rw_addr(*old(m)),
{
    &mut m.inner[..]
}

/// Relies on memmap2::Mmap's slice view: the slice is the mapped memory
/// itself, one byte per mapped address.
#[verifier::external_body]
pub(crate) fn ro_slice(m: &RoRegion) -> (r: &[u8])
    ensures
        r@ == ro_bytes(*m),
{
    &m.inner[..]
}

/// Relies on memmap2::MmapMut::make_read_only: changes the protection of
/// the region to read-only in place, keeping address, length and contents.
/// On failure the reservation is released by the consumed value's drop.
#[verifier::external_body]
pub(crate) fn make_read_only(m: RwRegion) -> (r: Result<RoRegion, i32>)
    ensures
        r matches Ok(n) ==> ro_addr(n) == rw_addr(m) && ro_bytes(n) == rw_bytes(m),
{
    m.inner.make_read_only().map(|n| RoRegion { inner: n }).map_err(|e| e.raw_os_error().unwrap_or(0))
}

/// Relies on memmap2::MmapMut::make_exec: changes the protection of the
/// region to read-and-execute in place, keeping address, length and
/// contents. On failure the reservation is released by the consumed
/// value's drop.
#[verifier::external_body]
pub(crate) fn make_exec(m: RwRegion) -> (r: Result<RoRegion, i32>)
    ensures
        r matches Ok(n) ==> ro_addr(n) == rw_addr(m) && ro_bytes(n) == rw_bytes(m),
{
    m.inner.make_exec().map(|n| RoRegion { inner: n }).map_err(|e| e.raw_os_error().unwrap_or(0))
}

/// Relies on memmap2::Mmap::make_mut: changes the protection of the region
/// to read-write in place, keeping address, length and contents. On
/// failure the reservation is released by the consumed value's drop.
#[verifier::external_body]
pub(crate) fn make_mut(m: RoRegion) -> (r: Result<RwRegion, i32>)
    ensures
        r matches Ok(n) ==> rw_addr(n) == ro_addr(m) && rw_bytes(n) == ro_bytes(m),
{
    m.inner.make_mut().map(|n| RwRegion { inner: n }).map_err(|e| e.raw_os_error().unwrap_or(0))
}

/// Relies on memmap2::MmapMut::lock: pins the mapping's physical pages.
#[verifier::external_body]
pub(crate) fn lock_rw(m: &RwRegion) -> (r: Result<(), i32>) {
    m.inner.lock().map_err(|e| e.raw_os_error().unwrap_or(0))
}

/// Relies on memmap2::MmapMut::unlock: unpins the mapping's physical pages.
#[verifier::external_body]
pub(crate) fn unlock_rw(m: &RwRegion) -> (r: Result<(), i32>) {
    m.inner.unlock().map_err(|e| e.raw_os_error().unwrap_or(0))
}

/// Relies on memmap2::Mmap::lock: pins the mapping's physical pages.
#[verifier::external_body]
pub(crate) fn lock_ro(m: &RoRegion) -> (r: Result<(), i32>) {
    m.inner.lock().map_err(|e| e.raw_os_error().unwrap_or(0))
}

/// Relies on memmap2::Mmap::unlock: unpins the mapping's physical pages.
#[verifier::external_body]
pub(crate) fn unlock_ro(m: &RoRegion) -> (r: Result<(), i32>) {
    m.inner.unlock().map_err(|e| e.raw_os_error().unwrap_or(0))
}

/// Relies on memmap2::MmapMut::flush_range: synchronously writes the given
/// byte sub-range of the view back to its backing, waiting for completion.
#[verifier::external_body]
pub(crate) fn flush_rw(m: &RwRegion, offset: usize, len: usize) -> (r: Result<(), i32>)
    requires
        offset + len <= rw_bytes(*m).len(),
{
    m.inner.flush_range(offset, len).map_err(|e| e.raw_os_error().unwrap_or(0))
}

/// Relies on memmap2::MmapMut::flush_async_range: starts writing the given
/// byte sub-range of the view back to its backing without waiting.
#[verifier::external_body]
pub(crate) fn flush_async_rw(
    m: &RwRegion,
    offset: usize,
    len: usize,
) -> (r: Result<(), i32>)
    requires
        offset + len <= rw_bytes(*m).len(),
{
    m.inner.flush_async_range(offset, len).map_err(|e| e.raw_os_error().unwrap_or(0))
}

/// Relies on memmap2::MmapMut::advise with madvise's do-not-dump advice:
/// leaves the pages out of core dumps.
#[verifier::external_body]
pub(crate) fn advise_no_core_dump(m: &RwRegion) -> (r: Result<(), i32>) {
    m.inner.advise(memmap2::Advice::DontDump).map_err(|e| e.raw_os_error().unwrap_or(0))
}

/// Relies on memmap2::MmapMut::advise with madvise's huge-page advice:
/// suggests transparent huge pages for the region.
#[verifier::external_body]
pub(crate) fn advise_transparent_huge_pages(m: &RwRegion) -> (r: Result<(), i32>) {
    m.inner.advise(memmap2::Advice::HugePage).map_err(|e| e.raw_os_error().unwrap_or(0))
}

/// Relies on nix::unistd::sysconf for the page-size variable: the reported
/// page size is at least one byte.
#[verifier::external_body]
pub(crate) fn sysconf_page_size() -> (r: Result<usize, i32>)
    ensures
        r matches Ok(v) ==> v >= 1,
{
    match nix::unistd::sysconf(nix::unistd::SysconfVar::PAGE_SIZE) {
        Ok(Some(v)) => Ok(v as usize),
        Ok(None) => Err(0),
        Err(e) => Err(e as i32),
    }
}

/// Relies on nix::fcntl::open and nix::unistd::read: opens the named file
/// read-only and reads it to its end; the descriptor closes when the owned
/// handle drops. The read loop must live inside this one body because the
/// open descriptor cannot cross the trusted boundary, and reopening per
/// chunk would tear the snapshot. What the bytes are depends on the state
/// of the system, so nothing is claimed of them.
#[verifier::external_body]
pub(crate) fn read_file_bytes(path: &[u8]) -> (r: Result<Vec<u8>, i32>) {
    let fd = match nix::fcntl::open(path, nix::fcntl::OFlag::O_RDONLY, nix::sys::stat::Mode::empty()) {
        Ok(fd) => fd,
        Err(e) => return Err(e as i32),
    };
    let mut out: Vec<u8> = Vec::new();
    let mut buf = [0u8; 4096];
    loop {
        match nix::unistd::read(&fd, &mut buf) {
            Ok(0) => return Ok(out),
            Ok(n) => out.extend_from_slice(&buf[..n]),
            Err(e) => return Err(e as i32),
        }
    }
}

/// Relies on String::from_utf8: succeeds exactly on well-formed UTF-8 and
/// then reinterprets the very same bytes as text.
#[verifier::external_body]
pub(crate) fn string_from_bytes(b: Vec<u8>) -> (r: Result<String, ()>)
    ensures
        r matches Ok(s) ==> valid_utf8(b@) && encode_utf8(s@) == b@,
        r is Err ==> !valid_utf8(b@),
{
    String::from_utf8(b).map_err(|_| ())
}

} // verus!
