//! Memory-region descriptors and the capability-chain decoder.
//!
//! A region-info reply is a fixed-layout structure that the kernel may extend
//! with a self-describing chain of capability records: each record starts with
//! an eight-byte header carrying a 16-bit identifier and the byte offset of
//! the next header. The decoder walks that chain inside the reply buffer,
//! never reading past it, and stops with `FormatError` if the chain cannot fit
//! in the buffer (which catches cycles and offsets that run out of bounds).

use vstd::prelude::*;

use crate::bytes::{le16_at, le32_at, le64_at, read_le16, read_le32, read_le64};
use crate::errors::VfioError;
use crate::{
    VFIO_REGION_INFO_CAP_MSIX_MAPPABLE, VFIO_REGION_INFO_CAP_NVLINK2_LNKSPD,
    VFIO_REGION_INFO_CAP_NVLINK2_SSATGT, VFIO_REGION_INFO_CAP_SPARSE_MMAP,
    VFIO_REGION_INFO_CAP_TYPE,
};

verus! {

/// One area of a sparse memory mapping.
#[derive(Copy, Clone, Debug, PartialEq, Eq, Structural)]
pub struct VfioRegionSparseMmapArea {
    /// Offset of the mappable area within the region.
    pub offset: u64,
    /// Size of the mappable area.
    pub size: u64,
}

/// List of areas of a region that are safe to memory-map.
#[derive(Clone, Debug, PartialEq)]
pub struct VfioRegionInfoCapSparseMmap {
    /// The mappable areas.
    pub areas: Vec<VfioRegionSparseMmapArea>,
}

/// Identifies a specialized region by type and subtype.
#[derive(Copy, Clone, Debug, PartialEq, Eq, Structural)]
pub struct VfioRegionInfoCapType {
    /// Device type.
    pub type_: u32,
    /// Device subtype.
    pub subtype: u32,
}

/// NVLink SSA TGT information.
#[derive(Copy, Clone, Debug, PartialEq, Eq, Structural)]
pub struct VfioRegionInfoCapNvlink2Ssatgt {
    /// TGT value.
    pub tgt: u64,
}

/// NVLink link-speed information.
#[derive(Copy, Clone, Debug, PartialEq, Eq, Structural)]
pub struct VfioRegionInfoCapNvlink2Lnkspd {
    /// Link speed value.
    pub link_speed: u32,
}

/// A decoded capability record of a region.
#[derive(Clone, Debug, PartialEq)]
pub enum VfioRegionInfoCap {
    /// Sparse memory-mapping areas.
    SparseMmap(VfioRegionInfoCapSparseMmap),
    /// Type and subtype of a specialized region.
    Type(VfioRegionInfoCapType),
    /// The region is mappable even in the presence of an MSI-X region.
    MsixMappable,
    /// NVLink SSA TGT value.
    Nvlink2Ssatgt(VfioRegionInfoCapNvlink2Ssatgt),
    /// NVLink link speed value.
    Nvlink2Lnkspd(VfioRegionInfoCapNvlink2Lnkspd),
}

/// Mathematical model of one capability record.
pub ghost enum CapModel {
    SparseMmap { areas: Seq<VfioRegionSparseMmapArea> },
    Type { type_: u32, subtype: u32 },
    MsixMappable,
    Nvlink2Ssatgt { tgt: u64 },
    Nvlink2Lnkspd { link_speed: u32 },
}

/// The model of a decoded capability record.
pub open spec fn cap_model(c: VfioRegionInfoCap) -> CapModel {
    match c {
        VfioRegionInfoCap::SparseMmap(s) => CapModel::SparseMmap { areas: s.areas@ },
        VfioRegionInfoCap::Type(t) => CapModel::Type { type_: t.type_, subtype: t.subtype },
        VfioRegionInfoCap::MsixMappable => CapModel::MsixMappable,
        VfioRegionInfoCap::Nvlink2Ssatgt(t) => CapModel::Nvlink2Ssatgt { tgt: t.tgt },
        VfioRegionInfoCap::Nvlink2Lnkspd(l) => CapModel::Nvlink2Lnkspd {
            link_speed: l.link_speed,
        },
    }
}

/// The models of a list of capability records.
pub open spec fn caps_model(s: Seq<VfioRegionInfoCap>) -> Seq<CapModel> {
    s.map_values(|c: VfioRegionInfoCap| cap_model(c))
}

/// The sparse-mmap areas stored at a sparse-mmap capability record: `nr`
/// sixteen-byte (offset, size) pairs starting sixteen bytes into the record.
pub open spec fn spec_sparse_areas(b: Seq<u8>, off: int, nr: int) -> Seq<VfioRegionSparseMmapArea> {
    Seq::new(
        nr as nat,
        |k: int| VfioRegionSparseMmapArea {
            offset: le64_at(b, off + 16 + 16 * k),
            size: le64_at(b, off + 16 + 16 * k + 8),
        },
    )
}

/// Decodes the capability record whose header sits at offset `off`.
///
/// `None` means the record claims bytes beyond the buffer; `Some(None)` is a
/// record with an unrecognized identifier, which contributes no entry.
pub open spec fn spec_decode_entry(b: Seq<u8>, off: int) -> Option<Option<CapModel>> {
    let id = le16_at(b, off) as u32;
    if id == VFIO_REGION_INFO_CAP_SPARSE_MMAP {
        if off + 16 <= b.len() {
            let nr = le32_at(b, off + 8) as int;
            if off + 16 + 16 * nr <= b.len() {
                Some(Some(CapModel::SparseMmap { areas: spec_sparse_areas(b, off, nr) }))
            } else {
                None
            }
        } else {
            None
        }
    } else if id == VFIO_REGION_INFO_CAP_TYPE {
        if off + 16 <= b.len() {
            Some(
                Some(
                    CapModel::Type { type_: le32_at(b, off + 8), subtype: le32_at(b, off + 12) },
                ),
            )
        } else {
            None
        }
    } else if id == VFIO_REGION_INFO_CAP_MSIX_MAPPABLE {
        Some(Some(CapModel::MsixMappable))
    } else if id == VFIO_REGION_INFO_CAP_NVLINK2_SSATGT {
        if off + 16 <= b.len() {
            Some(Some(CapModel::Nvlink2Ssatgt { tgt: le64_at(b, off + 8) }))
        } else {
            None
        }
    } else if id == VFIO_REGION_INFO_CAP_NVLINK2_LNKSPD {
        if off + 16 <= b.len() {
            Some(Some(CapModel::Nvlink2Lnkspd { link_speed: le32_at(b, off + 8) }))
        } else {
            None
        }
    } else {
        Some(None)
    }
}

/// How many chain steps the walk may take: one per eight-byte header that
/// fits in the buffer, plus one. A well-formed chain never needs more; a
/// cyclic chain exceeds it.
pub open spec fn walk_budget(b: Seq<u8>) -> nat {
    b.len() / 8 + 1
}

/// The capability chain starting at offset `off`, or `None` if the chain
/// reads out of bounds or does not end within `budget` steps.
///
/// An offset below `base` (the size of the fixed structure the offsets are
/// relative to) terminates the chain; this covers both a zero terminator and
/// any offset pointing back into the fixed header.
pub open spec fn spec_walk(b: Seq<u8>, base: int, off: int, budget: nat) -> Option<Seq<CapModel>>
    decreases budget,
{
    if off < base {
        Some(Seq::empty())
    } else if budget == 0 {
        None
    } else if off + 8 > b.len() {
        None
    } else {
        match spec_decode_entry(b, off) {
            None => None,
            Some(entry) => {
                let next = le32_at(b, off + 4) as int;
                match spec_walk(b, base, next, (budget - 1) as nat) {
                    None => None,
                    Some(rest) => Some(
                        match entry {
                            Some(m) => seq![m] + rest,
                            None => rest,
                        },
                    ),
                }
            },
        }
    }
}

/// The full capability chain of a region-info reply buffer `b` whose
/// first-capability offset is `cap_offset`, relative to a fixed structure of
/// `base` bytes.
pub open spec fn spec_region_caps(b: Seq<u8>, base: int, cap_offset: int) -> Option<Seq<CapModel>> {
    spec_walk(b, base, cap_offset, walk_budget(b))
}

/// The chain walk visits at most `budget` headers, so a decoded chain never
/// holds more entries than eight-byte headers fit in the buffer — and since
/// every unrecognized identifier contributes no entry, usually fewer.
pub proof fn lemma_walk_len_bounded(b: Seq<u8>, base: int, off: int, budget: nat)
    ensures
        match spec_walk(b, base, off, budget) {
            Some(caps) => caps.len() <= budget,
            None => true,
        },
    decreases budget,
{
    if off < base || budget == 0 || off + 8 > b.len() {
    } else {
        match spec_decode_entry(b, off) {
            None => {},
            Some(entry) => {
                let next = le32_at(b, off + 4) as int;
                lemma_walk_len_bounded(b, base, next, (budget - 1) as nat);
            },
        }
    }
}

/// The model of a decoder result, for relating exec results to the spec walk.
pub open spec fn entry_result_model(r: Option<Option<VfioRegionInfoCap>>) -> Option<
    Option<CapModel>,
> {
    match r {
        None => None,
        Some(None) => Some(None),
        Some(Some(c)) => Some(Some(cap_model(c))),
    }
}

/// Decodes the sparse-mmap areas of the record at `off`.
fn decode_sparse_areas(b: &[u8], off: usize, nr: u32) -> (areas: Vec<VfioRegionSparseMmapArea>)
    requires
        off + 16 + 16 * (nr as int) <= b@.len(),
    ensures
        areas@ == spec_sparse_areas(b@, off as int, nr as int),
{
    let blen: usize = b.len();
    let mut areas: Vec<VfioRegionSparseMmapArea> = Vec::new();
    let mut k: u32 = 0;
    while k < nr
        invariant
            k <= nr,
            blen == b@.len(),
            off + 16 + 16 * (nr as int) <= blen as int,
            areas@.len() == k as int,
            forall|j: int|
                0 <= j < k as int ==> areas@[j] == spec_sparse_areas(b@, off as int, nr as int)[j],
        decreases nr - k,
    {
        assert(off + 16 + 16 * (k as int) + 16 <= blen as int);
        let area_off: usize = off + 16 + 16 * (k as usize);
        let area = VfioRegionSparseMmapArea {
            offset: read_le64(b, area_off),
            size: read_le64(b, area_off + 8),
        };
        areas.push(area);
        k = k + 1;
    }
    assert(areas@ =~= spec_sparse_areas(b@, off as int, nr as int));
    areas
}

/// Decodes the capability record whose header sits at `off`, mirroring
/// `spec_decode_entry`.
fn decode_entry(b: &[u8], off: u32) -> (r: Option<Option<VfioRegionInfoCap>>)
    requires
        off + 8 <= b@.len(),
    ensures
        entry_result_model(r) == spec_decode_entry(b@, off as int),
{
    let o: usize = off as usize;
    let len: u64 = b.len() as u64;
    let id: u32 = read_le16(b, o) as u32;
    if id == VFIO_REGION_INFO_CAP_SPARSE_MMAP {
        if off as u64 + 16 <= len {
            let nr: u32 = read_le32(b, o + 8);
            if off as u64 + 16 + 16 * (nr as u64) <= len {
                let areas = decode_sparse_areas(b, o, nr);
                Some(Some(VfioRegionInfoCap::SparseMmap(VfioRegionInfoCapSparseMmap { areas })))
            } else {
                None
            }
        } else {
            None
        }
    } else if id == VFIO_REGION_INFO_CAP_TYPE {
        if off as u64 + 16 <= len {
            Some(
                Some(
                    VfioRegionInfoCap::Type(
                        VfioRegionInfoCapType {
                            type_: read_le32(b, o + 8),
                            subtype: read_le32(b, o + 12),
                        },
                    ),
                ),
            )
        } else {
            None
        }
    } else if id == VFIO_REGION_INFO_CAP_MSIX_MAPPABLE {
        Some(Some(VfioRegionInfoCap::MsixMappable))
    } else if id == VFIO_REGION_INFO_CAP_NVLINK2_SSATGT {
        if off as u64 + 16 <= len {
            Some(
                Some(
                    VfioRegionInfoCap::Nvlink2Ssatgt(
                        VfioRegionInfoCapNvlink2Ssatgt { tgt: read_le64(b, o + 8) },
                    ),
                ),
            )
        } else {
            None
        }
    } else if id == VFIO_REGION_INFO_CAP_NVLINK2_LNKSPD {
        if off as u64 + 16 <= len {
            Some(
                Some(
                    VfioRegionInfoCap::Nvlink2Lnkspd(
                        VfioRegionInfoCapNvlink2Lnkspd { link_speed: read_le32(b, o + 8) },
                    ),
                ),
            )
        } else {
            None
        }
    } else {
        Some(None)
    }
}

/// Walks the capability chain of the reply buffer `b`, starting at
/// `cap_offset`, with record offsets relative to a fixed structure of
/// `base_size` bytes.
///
/// Returns the decoded records in chain order; records with unrecognized
/// identifiers are skipped. Fails with `FormatError` exactly when the chain
/// reads out of bounds or cannot end within the number of headers that fit in
/// the buffer (a cycle).
pub fn parse_region_caps(b: &[u8], base_size: u32, cap_offset: u32) -> (r: Result<
    Vec<VfioRegionInfoCap>,
    VfioError,
>)
    ensures
        match r {
            Ok(caps) => spec_region_caps(b@, base_size as int, cap_offset as int) == Some(
                caps_model(caps@),
            ),
            Err(e) => e == VfioError::FormatError && spec_region_caps(
                b@,
                base_size as int,
                cap_offset as int,
            ) is None,
        },
{
    let ghost budget0: nat = walk_budget(b@);
    let mut caps: Vec<VfioRegionInfoCap> = Vec::new();
    let mut off: u32 = cap_offset;
    let mut budget: usize = b.len() / 8 + 1;
    proof {
        let w = spec_walk(b@, base_size as int, cap_offset as int, budget0);
        if w is Some {
            assert(caps_model(caps@) + w->Some_0 =~= w->Some_0);
        }
    }
    loop
        invariant
            budget0 == walk_budget(b@),
            budget as nat <= budget0,
            (match spec_walk(b@, base_size as int, off as int, budget as nat) {
                Some(rest) => spec_walk(b@, base_size as int, cap_offset as int, budget0) == Some(
                    caps_model(caps@) + rest,
                ),
                None => spec_walk(b@, base_size as int, cap_offset as int, budget0) is None,
            }),
        decreases budget,
    {
        if off < base_size {
            assert(caps_model(caps@) + Seq::<CapModel>::empty() =~= caps_model(caps@));
            return Ok(caps);
        }
        if budget == 0 {
            return Err(VfioError::FormatError);
        }
        if off as u64 + 8 > b.len() as u64 {
            return Err(VfioError::FormatError);
        }
        let entry = decode_entry(b, off);
        match entry {
            None => {
                return Err(VfioError::FormatError);
            },
            Some(opt) => {
                let ghost caps_before = caps@;
                let next: u32 = read_le32(b, off as usize + 4);
                match opt {
                    Some(c) => {
                        proof {
                            assert(caps_model(caps_before.push(c)) =~= caps_model(caps_before)
                                + seq![cap_model(c)]);
                            if spec_walk(b@, base_size as int, next as int, (budget - 1) as nat)
                                is Some {
                                let rest2 = spec_walk(
                                    b@,
                                    base_size as int,
                                    next as int,
                                    (budget - 1) as nat,
                                )->Some_0;
                                assert(caps_model(caps_before) + (seq![cap_model(c)] + rest2)
                                    =~= caps_model(caps_before) + seq![cap_model(c)] + rest2);
                            }
                        }
                        caps.push(c);
                    },
                    None => {},
                }
                off = next;
                budget = budget - 1;
            },
        }
    }
}

/// One addressable memory window of a device, immutable once discovered.
#[derive(Clone, Debug)]
pub struct VfioRegion {
    /// Region flags (readable, writable, mappable, capability data).
    pub flags: u32,
    /// Region size in bytes.
    pub size: u64,
    /// Byte offset of the region within the device's file representation.
    pub offset: u64,
    /// Decoded capability records, in chain order.
    pub caps: Vec<VfioRegionInfoCap>,
}

/// Mathematical model of a region descriptor.
pub ghost struct RegionModel {
    pub flags: u32,
    pub size: u64,
    pub offset: u64,
    pub caps: Seq<CapModel>,
}

impl VfioRegion {
    /// The model of this region.
    pub open spec fn model(self) -> RegionModel {
        RegionModel {
            flags: self.flags,
            size: self.size,
            offset: self.offset,
            caps: caps_model(self.caps@),
        }
    }
}

} // verus!
