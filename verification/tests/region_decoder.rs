//! The capability-chain decoder on hand-built kernel reply buffers.

use vfio_ioctls::errors::VfioError;
use vfio_ioctls::region::{
    parse_region_caps, VfioRegionInfoCap, VfioRegionInfoCapNvlink2Lnkspd,
    VfioRegionInfoCapNvlink2Ssatgt, VfioRegionInfoCapSparseMmap, VfioRegionInfoCapType,
    VfioRegionSparseMmapArea,
};
use vfio_ioctls::device::region_cap_query_len;
use vfio_ioctls::{VFIO_REGION_INFO_FLAG_CAPS, VFIO_REGION_INFO_SIZE};

fn put_u16(buf: &mut [u8], at: usize, v: u16) {
    buf[at..at + 2].copy_from_slice(&v.to_le_bytes());
}

fn put_u32(buf: &mut [u8], at: usize, v: u32) {
    buf[at..at + 4].copy_from_slice(&v.to_le_bytes());
}

fn put_u64(buf: &mut [u8], at: usize, v: u64) {
    buf[at..at + 8].copy_from_slice(&v.to_le_bytes());
}

fn put_header(buf: &mut [u8], at: usize, id: u16, next: u32) {
    put_u16(buf, at, id);
    put_u16(buf, at + 2, 1);
    put_u32(buf, at + 4, next);
}

#[test]
fn empty_chain_when_offset_points_into_fixed_header() {
    let buf = vec![0u8; 64];
    let caps = parse_region_caps(&buf, VFIO_REGION_INFO_SIZE, 0).unwrap();
    assert!(caps.is_empty());
    let caps = parse_region_caps(&buf, VFIO_REGION_INFO_SIZE, 31).unwrap();
    assert!(caps.is_empty());
}

#[test]
fn decodes_a_type_capability() {
    let mut buf = vec![0u8; 48];
    put_header(&mut buf, 32, 2, 0);
    put_u32(&mut buf, 40, 0x1234);
    put_u32(&mut buf, 44, 0x5678);
    let caps = parse_region_caps(&buf, VFIO_REGION_INFO_SIZE, 32).unwrap();
    assert_eq!(
        caps,
        vec![VfioRegionInfoCap::Type(VfioRegionInfoCapType { type_: 0x1234, subtype: 0x5678 })]
    );
}

#[test]
fn decodes_a_sparse_mmap_capability() {
    let mut buf = vec![0u8; 80];
    put_header(&mut buf, 32, 1, 0);
    put_u32(&mut buf, 40, 2); // number of areas
    put_u64(&mut buf, 48, 0x1000);
    put_u64(&mut buf, 56, 0x2000);
    put_u64(&mut buf, 64, 0x3000);
    put_u64(&mut buf, 72, 0x4000);
    let caps = parse_region_caps(&buf, VFIO_REGION_INFO_SIZE, 32).unwrap();
    assert_eq!(
        caps,
        vec![VfioRegionInfoCap::SparseMmap(VfioRegionInfoCapSparseMmap {
            areas: vec![
                VfioRegionSparseMmapArea { offset: 0x1000, size: 0x2000 },
                VfioRegionSparseMmapArea { offset: 0x3000, size: 0x4000 },
            ],
        })]
    );
}

#[test]
fn decodes_nvlink_capabilities_in_chain_order() {
    let mut buf = vec![0u8; 72];
    put_header(&mut buf, 32, 4, 48);
    put_u64(&mut buf, 40, 0xdead_beef_0000_0001);
    put_header(&mut buf, 48, 5, 64);
    put_u32(&mut buf, 56, 25);
    put_header(&mut buf, 64, 3, 0);
    let caps = parse_region_caps(&buf, VFIO_REGION_INFO_SIZE, 32).unwrap();
    assert_eq!(
        caps,
        vec![
            VfioRegionInfoCap::Nvlink2Ssatgt(VfioRegionInfoCapNvlink2Ssatgt {
                tgt: 0xdead_beef_0000_0001,
            }),
            VfioRegionInfoCap::Nvlink2Lnkspd(VfioRegionInfoCapNvlink2Lnkspd { link_speed: 25 }),
            VfioRegionInfoCap::MsixMappable,
        ]
    );
}

#[test]
fn unknown_identifiers_contribute_no_entry() {
    let mut buf = vec![0u8; 64];
    put_header(&mut buf, 32, 77, 48); // unrecognized capability
    put_header(&mut buf, 48, 3, 0); // MSI-X mappable marker
    let caps = parse_region_caps(&buf, VFIO_REGION_INFO_SIZE, 32).unwrap();
    assert_eq!(caps, vec![VfioRegionInfoCap::MsixMappable]);
}

#[test]
fn cyclic_chain_is_a_format_error() {
    let mut buf = vec![0u8; 48];
    put_header(&mut buf, 32, 77, 32); // next points back at itself
    assert_eq!(
        parse_region_caps(&buf, VFIO_REGION_INFO_SIZE, 32),
        Err(VfioError::FormatError)
    );
    let mut buf = vec![0u8; 64];
    put_header(&mut buf, 32, 77, 48); // two headers pointing at each other
    put_header(&mut buf, 48, 77, 32);
    assert_eq!(
        parse_region_caps(&buf, VFIO_REGION_INFO_SIZE, 32),
        Err(VfioError::FormatError)
    );
}

#[test]
fn chain_running_out_of_the_buffer_is_a_format_error() {
    // Header does not fit.
    let buf = vec![0u8; 44];
    assert_eq!(
        parse_region_caps(&buf, VFIO_REGION_INFO_SIZE, 40),
        Err(VfioError::FormatError)
    );
    // Sparse-mmap areas claim more bytes than the buffer holds.
    let mut buf = vec![0u8; 48];
    put_header(&mut buf, 32, 1, 0);
    put_u32(&mut buf, 40, 5); // five areas cannot fit in 48 bytes
    assert_eq!(
        parse_region_caps(&buf, VFIO_REGION_INFO_SIZE, 32),
        Err(VfioError::FormatError)
    );
}

#[test]
fn requeried_buffer_decodes_the_hinted_tail() {
    // A region reply announces capability data: base structure of 64 bytes,
    // hinted total size 96. The follow-up query must carry 96 bytes, and the
    // chain then lives in the remaining 32.
    assert_eq!(region_cap_query_len(VFIO_REGION_INFO_FLAG_CAPS, 96), Some(96));
    assert_eq!(region_cap_query_len(0, 96), None);
    assert_eq!(region_cap_query_len(VFIO_REGION_INFO_FLAG_CAPS, 32), None);

    let mut buf = vec![0u8; 96];
    put_header(&mut buf, 64, 2, 80);
    put_u32(&mut buf, 72, 9);
    put_u32(&mut buf, 76, 4);
    put_header(&mut buf, 80, 3, 0);
    let caps = parse_region_caps(&buf, 64, 64).unwrap();
    assert_eq!(
        caps,
        vec![
            VfioRegionInfoCap::Type(VfioRegionInfoCapType { type_: 9, subtype: 4 }),
            VfioRegionInfoCap::MsixMappable,
        ]
    );
}
