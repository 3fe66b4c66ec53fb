//! The flag and attribute model: protection bits, builder configuration
//! flags, the attested unsafe flags, share modes and page sizes.

use vstd::prelude::*;

verus! {

/// The protection of a memory area or mapping: any combination of read,
/// write and execute access.
#[derive(Clone, Copy, Debug, PartialEq, Eq, Structural)]
pub struct Protection {
    /// The memory is mapped with read permissions.
    pub read: bool,
    /// The memory is mapped with write permissions.
    pub write: bool,
    /// The memory is mapped with execute permissions.
    pub execute: bool,
}

impl Protection {
    /// No access at all.
    pub fn none() -> (r: Self)
        ensures
            r == (Protection { read: false, write: false, execute: false }),
    {
        Protection { read: false, write: false, execute: false }
    }

    /// Read access only.
    pub fn read() -> (r: Self)
        ensures
            r == (Protection { read: true, write: false, execute: false }),
    {
        Protection { read: true, write: false, execute: false }
    }

    /// Write access only.
    pub fn write() -> (r: Self)
        ensures
            r == (Protection { read: false, write: true, execute: false }),
    {
        Protection { read: false, write: true, execute: false }
    }

    /// Execute access only.
    pub fn execute() -> (r: Self)
        ensures
            r == (Protection { read: false, write: false, execute: true }),
    {
        Protection { read: false, write: false, execute: true }
    }

    /// Read and write access.
    pub fn read_write() -> (r: Self)
        ensures
            r == (Protection { read: true, write: true, execute: false }),
    {
        Protection { read: true, write: true, execute: false }
    }

    /// Read and execute access.
    pub fn read_execute() -> (r: Self)
        ensures
            r == (Protection { read: true, write: false, execute: true }),
    {
        Protection { read: true, write: false, execute: true }
    }

    /// Whether every permission of `other` is also granted by `self`.
    pub fn contains(&self, other: Protection) -> (r: bool)
        ensures
            r == ((other.read ==> self.read) && (other.write ==> self.write) && (other.execute
                ==> self.execute)),
    {
        (!other.read || self.read) && (!other.write || self.write) && (!other.execute
            || self.execute)
    }

    /// The permissions granted by `self` or by `other`.
    pub fn union(&self, other: Protection) -> (r: Protection)
        ensures
            r == (Protection {
                read: self.read || other.read,
                write: self.write || other.write,
                execute: self.execute || other.execute,
            }),
    {
        Protection {
            read: self.read || other.read,
            write: self.write || other.write,
            execute: self.execute || other.execute,
        }
    }
}

/// The share mode of a memory area: how writes through one mapping of the
/// memory relate to other mappings of it.
#[derive(Clone, Copy, Debug, PartialEq, Eq, Structural)]
pub enum ShareMode {
    /// The memory area is mapped as private.
    Private,
    /// The memory area is mapped as copy-on-write.
    CopyOnWrite,
    /// The memory area is mapped as shared.
    Shared,
}

/// The available flags to configure an allocated mapping.
#[derive(Clone, Copy, Debug, PartialEq, Eq, Structural)]
pub struct MmapFlags {
    /// Map the pages copy-on-write: modifications stay private to this
    /// mapping. The flag matters for mappings that share their backing
    /// with others; an anonymous private mapping is its own copy already,
    /// so the anonymous backend records the wish and needs no further
    /// step.
    pub copy_on_write: bool,
    /// Populate the pages up front, so that first access causes no page
    /// fault.
    pub populate: bool,
    /// Do not reserve swap space for this allocation.
    pub no_reserve: bool,
    /// Use huge pages for this allocation.
    pub huge_pages: bool,
    /// The region grows downward like a stack.
    pub stack: bool,
    /// The pages will not be included in a core dump.
    pub no_core_dump: bool,
    /// Lock the physical memory, so that accessing the mapping causes no
    /// page faults.
    pub locked: bool,
    /// Suggest transparent huge pages for this allocation.
    pub transparent_huge_pages: bool,
}

impl MmapFlags {
    /// No flags set.
    pub fn empty() -> (r: Self)
        ensures
            r == MmapFlags::spec_empty(),
    {
        MmapFlags {
            copy_on_write: false,
            populate: false,
            no_reserve: false,
            huge_pages: false,
            stack: false,
            no_core_dump: false,
            locked: false,
            transparent_huge_pages: false,
        }
    }

    /// The flag set with no flag set, as a specification value.
    pub open spec fn spec_empty() -> Self {
        MmapFlags {
            copy_on_write: false,
            populate: false,
            no_reserve: false,
            huge_pages: false,
            stack: false,
            no_core_dump: false,
            locked: false,
            transparent_huge_pages: false,
        }
    }

    /// The flags set in `self` or in `other`.
    pub fn union(&self, other: MmapFlags) -> (r: MmapFlags)
        ensures
            r == MmapFlags::spec_union(*self, other),
    {
        MmapFlags {
            copy_on_write: self.copy_on_write || other.copy_on_write,
            populate: self.populate || other.populate,
            no_reserve: self.no_reserve || other.no_reserve,
            huge_pages: self.huge_pages || other.huge_pages,
            stack: self.stack || other.stack,
            no_core_dump: self.no_core_dump || other.no_core_dump,
            locked: self.locked || other.locked,
            transparent_huge_pages: self.transparent_huge_pages || other.transparent_huge_pages,
        }
    }

    /// The union of two flag sets, as a specification value.
    pub open spec fn spec_union(a: Self, b: Self) -> Self {
        MmapFlags {
            copy_on_write: a.copy_on_write || b.copy_on_write,
            populate: a.populate || b.populate,
            no_reserve: a.no_reserve || b.no_reserve,
            huge_pages: a.huge_pages || b.huge_pages,
            stack: a.stack || b.stack,
            no_core_dump: a.no_core_dump || b.no_core_dump,
            locked: a.locked || b.locked,
            transparent_huge_pages: a.transparent_huge_pages || b.transparent_huge_pages,
        }
    }
}

/// Flags whose misuse is memory-unsafe. A gated terminal operation fails
/// unless the required flag was attested through
/// [`crate::MmapOptions::with_unsafe_flags`] beforehand.
#[derive(Clone, Copy, Debug, PartialEq, Eq, Structural)]
pub struct UnsafeMmapFlags {
    /// Map the memory at exactly the requested address, replacing any pages
    /// already mapped in that range.
    pub map_fixed: bool,
    /// Allow a mapping that is writable and executable at the same time.
    pub jit: bool,
}

impl UnsafeMmapFlags {
    /// No flags set.
    pub fn empty() -> (r: Self)
        ensures
            r == (UnsafeMmapFlags { map_fixed: false, jit: false }),
    {
        UnsafeMmapFlags { map_fixed: false, jit: false }
    }

    /// Only the flag that allows writable-and-executable mappings.
    pub fn jit() -> (r: Self)
        ensures
            r == (UnsafeMmapFlags { map_fixed: false, jit: true }),
    {
        UnsafeMmapFlags { map_fixed: false, jit: true }
    }

    /// Only the flag that demands fixed-address placement.
    pub fn map_fixed() -> (r: Self)
        ensures
            r == (UnsafeMmapFlags { map_fixed: true, jit: false }),
    {
        UnsafeMmapFlags { map_fixed: true, jit: false }
    }

    /// The flags set in `self` or in `other`.
    pub fn union(&self, other: UnsafeMmapFlags) -> (r: UnsafeMmapFlags)
        ensures
            r == (UnsafeMmapFlags {
                map_fixed: self.map_fixed || other.map_fixed,
                jit: self.jit || other.jit,
            }),
    {
        UnsafeMmapFlags {
            map_fixed: self.map_fixed || other.map_fixed,
            jit: self.jit || other.jit,
        }
    }
}

/// A preferred page size for a mapping, in log2 notation: a value of 21
/// stands for 2 MiB pages. Not every size that can be written here is
/// offered by every platform; requesting one the platform does not offer
/// makes the allocation fail.
#[derive(Clone, Copy, Debug, PartialEq, Eq, Structural)]
pub struct PageSize(pub usize);

impl PageSize {
    /// 4 KiB pages.
    pub fn of_4k() -> (r: Self)
        ensures
            r == PageSize(12),
    {
        PageSize(12)
    }

    /// 2 MiB pages.
    pub fn of_2m() -> (r: Self)
        ensures
            r == PageSize(21),
    {
        PageSize(21)
    }

    /// 1 GiB pages.
    pub fn of_1g() -> (r: Self)
        ensures
            r == PageSize(30),
    {
        PageSize(30)
    }

    /// The log2 of the page size in bytes.
    pub fn log2(&self) -> (r: usize)
        ensures
            r == self.0,
    {
        self.0
    }
}

} // verus!
