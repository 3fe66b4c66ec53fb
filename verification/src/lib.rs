//! Typed, leak-safe control over process memory mappings, together with
//! enumeration of the live memory regions of a process.
//!
//! The crate has two halves. The mapping half turns a configured
//! [`MmapOptions`] builder into an owned mapping in one of several protection
//! states ([`Mmap`], [`MmapMut`]), whose transitions consume the old state and
//! return the new one. The enumeration half ([`MemoryAreas`]) walks the
//! region table that the kernel exposes for a process and decodes each entry
//! into a [`MemoryArea`] record, with point ([`MemoryAreas::query`]) and range
//! ([`MemoryAreas::query_range`]) queries on top.

mod areas;
mod error;
mod flags;
mod maps;
mod mmap;
mod protmap;
mod sys;
mod vmmap;
mod walk;

pub use areas::AreaView;
pub use areas::MemoryArea;
pub use areas::MemoryAreas;
pub use areas::area_containing;
pub use areas::in_order;
pub use areas::is_ascending;
pub use areas::keep_intersecting;
pub use areas::lemma_spec_find_holds;
pub use areas::lemma_spec_keep_intersects;
pub use areas::lemma_spec_keep_membership;
pub use areas::lemma_spec_keep_ordered;
pub use areas::spec_ascending;
pub use areas::spec_find;
pub use areas::spec_keep;
pub use error::DecodeKind;
pub use error::Error;
pub use flags::MmapFlags;
pub use flags::PageSize;
pub use flags::Protection;
pub use flags::ShareMode;
pub use flags::UnsafeMmapFlags;
pub use maps::parse_line;
pub use maps::parse_maps;
pub use maps::spec_parse_from;
pub use maps::spec_parse_line;
pub use mmap::MapView;
pub use mmap::Mmap;
pub use mmap::MmapMut;
pub use mmap::MmapOptions;
pub use mmap::check_jit_attested;
pub use mmap::split_plan;
pub use protmap::plan_view_protection;
pub use protmap::protection_from_bits;
pub use protmap::protection_from_page_constant;
pub use protmap::share_mode_from_cow;
pub use protmap::share_mode_from_page_constant;
pub use protmap::share_mode_from_shared;
pub use vmmap::decode_entry;
pub use vmmap::decode_records;
pub use vmmap::spec_decode_entry;
pub use vmmap::spec_decode_records;
pub use walk::NO_MORE_REGIONS;
pub use walk::RegionStep;
pub use walk::query_step;
pub use walk::region_step;
