//! Decoding of platform protection and sharing constants into the crate's
//! protection model.
//!
//! Different kernels report a region's access rights in different shapes:
//! as a small bit set with one bit each for read, write and execute, or as
//! a single page-protection constant drawn from a fixed table, whose
//! copy-on-write variants also imply the share mode. The functions here
//! turn each shape into [`Protection`] and [`ShareMode`] values.

use vstd::prelude::*;
use crate::flags::Protection;
use crate::flags::ShareMode;

verus! {

/// The protection denoted by a bit set with read in the lowest bit, write
/// in the second and execute in the third — the shape kernels with a
/// per-right bit report.
pub fn protection_from_bits(bits: u32) -> (r: Protection)
    ensures
        r == (Protection {
            read: bits & 1 == 1,
            write: bits & 2 == 2,
            execute: bits & 4 == 4,
        }),
{
    Protection { read: bits & 1 == 1, write: bits & 2 == 2, execute: bits & 4 == 4 }
}

/// The share mode of a region reported with a plain shared-or-not flag.
pub fn share_mode_from_shared(shared: bool) -> (r: ShareMode)
    ensures
        r == (if shared {
            ShareMode::Shared
        } else {
            ShareMode::Private
        }),
{
    if shared {
        ShareMode::Shared
    } else {
        ShareMode::Private
    }
}

/// The share mode of a region reported with a copy-on-write flag, on
/// kernels whose region flags distinguish copy-on-write from plain private
/// mappings.
pub fn share_mode_from_cow(copy_on_write: bool) -> (r: ShareMode)
    ensures
        r == (if copy_on_write {
            ShareMode::CopyOnWrite
        } else {
            ShareMode::Private
        }),
{
    if copy_on_write {
        ShareMode::CopyOnWrite
    } else {
        ShareMode::Private
    }
}

/// The protection denoted by a single page-protection constant, on the
/// platform that reports one constant per region rather than a bit per
/// right, decoded through its fixed table: execute-only, execute-read,
/// the two writable-executable variants, read-only, and the two writable
/// variants; any other constant grants nothing.
pub open spec fn spec_protection_from_page_constant(protect: u32) -> Protection {
    if protect == 0x10 {
        Protection { read: false, write: false, execute: true }
    } else if protect == 0x20 {
        Protection { read: true, write: false, execute: true }
    } else if protect == 0x40 || protect == 0x80 {
        Protection { read: true, write: true, execute: true }
    } else if protect == 0x02 {
        Protection { read: true, write: false, execute: false }
    } else if protect == 0x04 || protect == 0x08 {
        Protection { read: true, write: true, execute: false }
    } else {
        Protection { read: false, write: false, execute: false }
    }
}

/// Decodes a single page-protection constant through the fixed table of
/// [`spec_protection_from_page_constant`].
pub fn protection_from_page_constant(protect: u32) -> (r: Protection)
    ensures
        r == spec_protection_from_page_constant(protect),
{
    if protect == 0x10 {
        Protection { read: false, write: false, execute: true }
    } else if protect == 0x20 {
        Protection { read: true, write: false, execute: true }
    } else if protect == 0x40 || protect == 0x80 {
        Protection { read: true, write: true, execute: true }
    } else if protect == 0x02 {
        Protection { read: true, write: false, execute: false }
    } else if protect == 0x04 || protect == 0x08 {
        Protection { read: true, write: true, execute: false }
    } else {
        Protection { read: false, write: false, execute: false }
    }
}

/// Whether a page-protection constant is one of the two copy-on-write
/// variants of the table.
pub open spec fn spec_page_constant_is_cow(protect: u32) -> bool {
    protect == 0x80 || protect == 0x08
}

/// The share mode of a region reported with a page-protection constant: a
/// region of private memory is private, one mapped with a copy-on-write
/// constant is copy-on-write, and anything else is shared.
pub fn share_mode_from_page_constant(private: bool, protect: u32) -> (r: ShareMode)
    ensures
        r == (if private {
            ShareMode::Private
        } else if spec_page_constant_is_cow(protect) {
            ShareMode::CopyOnWrite
        } else {
            ShareMode::Shared
        }),
{
    if private {
        ShareMode::Private
    } else if protect == 0x80 || protect == 0x08 {
        ShareMode::CopyOnWrite
    } else {
        ShareMode::Shared
    }
}

/// The access mask and page-protection constant to request when committing
/// a file view, on the platform whose mapping objects cannot widen access
/// after creation: reading is always requested, and writing and executing
/// are added exactly when a probe of the file handle showed them
/// obtainable, so the view is created with the widest protection the
/// handle allows and narrowed afterwards.
pub open spec fn spec_plan_view_protection(write: bool, execute: bool) -> (u32, u32) {
    if write && execute {
        (0x26, 0x40)
    } else if write {
        (0x06, 0x04)
    } else if execute {
        (0x24, 0x20)
    } else {
        (0x04, 0x02)
    }
}

/// Plans a file view's access mask and page protection exactly as
/// [`spec_plan_view_protection`] says.
pub fn plan_view_protection(write: bool, execute: bool) -> (r: (u32, u32))
    ensures
        r == spec_plan_view_protection(write, execute),
{
    if write && execute {
        (0x26, 0x40)
    } else if write {
        (0x06, 0x04)
    } else if execute {
        (0x24, 0x20)
    } else {
        (0x04, 0x02)
    }
}

} // verus!
