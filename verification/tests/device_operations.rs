//! Device discovery and per-device operations: interrupt requests, region
//! access gating, and the discovery collectors.

use vfio_ioctls::container::VfioGroup;
use vfio_ioctls::device::{
    CapQueryReply, IrqQueryReply, RegionQueryReply, VfioDevice, VfioDeviceInfo,
};
use vfio_ioctls::errors::VfioError;
use vfio_ioctls::irq::VfioIrq;
use vfio_ioctls::region::{VfioRegion, VfioRegionInfoCap};
use vfio_ioctls::{
    VFIO_DEVICE_FLAGS_PCI, VFIO_DEVICE_FLAGS_RESET, VFIO_GROUP_FLAGS_VIABLE,
    VFIO_IRQ_SET_ACTION_TRIGGER, VFIO_IRQ_SET_ACTION_UNMASK, VFIO_IRQ_SET_DATA_EVENTFD,
    VFIO_IRQ_SET_DATA_NONE, VFIO_IRQ_SET_SIZE, VFIO_PCI_MSIX_IRQ_INDEX, VFIO_PCI_MSI_IRQ_INDEX,
    VFIO_REGION_INFO_FLAG_CAPS, VFIO_REGION_INFO_FLAG_READ, VFIO_REGION_INFO_FLAG_WRITE,
    VFIO_REGION_INFO_SIZE,
};

fn sample_device() -> VfioDevice {
    let regions = vec![
        VfioRegion {
            flags: VFIO_REGION_INFO_FLAG_READ | VFIO_REGION_INFO_FLAG_WRITE,
            size: 64,
            offset: 0x1000,
            caps: Vec::new(),
        },
        VfioRegion { flags: VFIO_REGION_INFO_FLAG_READ, size: 128, offset: 0x2000, caps: Vec::new() },
    ];
    let irqs = vec![
        VfioIrq { flags: 0, index: 0, count: 1 },
        VfioIrq { flags: 0, index: 1, count: 4 },
        VfioIrq { flags: 0, index: 2, count: 8 },
    ];
    VfioDevice::new(VFIO_DEVICE_FLAGS_PCI | VFIO_DEVICE_FLAGS_RESET, regions, irqs, 7)
}

#[test]
fn device_info_requires_the_pci_prerequisites() {
    assert!(VfioDeviceInfo::new(0, VFIO_DEVICE_FLAGS_PCI, 9, 5).is_ok());
    assert_eq!(
        VfioDeviceInfo::new(-1, VFIO_DEVICE_FLAGS_PCI, 9, 5).err(),
        Some(VfioError::DeviceInfoError)
    );
    assert_eq!(
        VfioDeviceInfo::new(0, 0, 9, 5).err(),
        Some(VfioError::DeviceInfoError),
        "a non-PCI device is refused"
    );
    assert_eq!(
        VfioDeviceInfo::new(0, VFIO_DEVICE_FLAGS_PCI, 7, 5).err(),
        Some(VfioError::DeviceInfoError),
        "the configuration-space region is mandatory"
    );
    assert_eq!(
        VfioDeviceInfo::new(0, VFIO_DEVICE_FLAGS_PCI, 9, 2).err(),
        Some(VfioError::DeviceInfoError),
        "the MSI-X interrupt index is mandatory"
    );
}

#[test]
fn device_lookup_distinguishes_missing_names() {
    let group = VfioGroup::new(7, 4, 0, VFIO_GROUP_FLAGS_VIABLE).unwrap();
    assert_eq!(
        group.get_device(-1, 0, VFIO_DEVICE_FLAGS_PCI, 9, 5).err(),
        Some(VfioError::PathNotFound)
    );
    assert_eq!(
        group.get_device(5, 0, 0, 9, 5).err(),
        Some(VfioError::DeviceInfoError)
    );
    assert_eq!(
        group.get_device(5, 0, VFIO_DEVICE_FLAGS_PCI, 9, 5),
        Ok(VfioDeviceInfo { flags: VFIO_DEVICE_FLAGS_PCI, num_regions: 9, num_irqs: 5 })
    );
}

#[test]
fn irq_discovery_skips_failing_indices() {
    let info = VfioDeviceInfo { flags: VFIO_DEVICE_FLAGS_PCI, num_regions: 9, num_irqs: 3 };
    let replies = vec![
        IrqQueryReply { ret: 0, flags: 1, count: 1 },
        IrqQueryReply { ret: -1, flags: 0, count: 0 },
        IrqQueryReply { ret: 0, flags: 3, count: 16 },
    ];
    let (irqs, skipped) = info.get_irqs(&replies);
    assert_eq!(
        irqs,
        vec![
            VfioIrq { flags: 1, index: 0, count: 1 },
            VfioIrq { flags: 3, index: 2, count: 16 },
        ]
    );
    assert_eq!(skipped, vec![1]);
}

#[test]
fn region_discovery_skips_failures_and_decodes_capability_chains() {
    let info = VfioDeviceInfo { flags: VFIO_DEVICE_FLAGS_PCI, num_regions: 9, num_irqs: 3 };

    // A follow-up reply whose chain holds one MSI-X mappable marker.
    let mut data = vec![0u8; 40];
    data[32] = 3; // capability identifier
    data[36] = 0; // end of chain

    let replies = vec![
        RegionQueryReply {
            ret: 0,
            flags: VFIO_REGION_INFO_FLAG_READ,
            size: 256,
            offset: 0x1_0000,
            argsz: VFIO_REGION_INFO_SIZE,
            cap: None,
        },
        RegionQueryReply { ret: -1, flags: 0, size: 0, offset: 0, argsz: 0, cap: None },
        RegionQueryReply {
            ret: 0,
            flags: VFIO_REGION_INFO_FLAG_READ | VFIO_REGION_INFO_FLAG_CAPS,
            size: 512,
            offset: 0x2_0000,
            argsz: 40,
            cap: Some(CapQueryReply { ret: 0, cap_offset: 32, data }),
        },
    ];
    let (regions, skipped) = info.get_regions(&replies);
    assert_eq!(skipped, vec![1]);
    assert_eq!(regions.len(), 2);
    assert_eq!(regions[0].flags, VFIO_REGION_INFO_FLAG_READ);
    assert_eq!(regions[0].size, 256);
    assert_eq!(regions[0].offset, 0x1_0000);
    assert!(regions[0].caps.is_empty());
    assert_eq!(regions[1].size, 512);
    assert_eq!(regions[1].caps, vec![VfioRegionInfoCap::MsixMappable]);
}

#[test]
fn region_discovery_skips_a_malformed_chain() {
    let info = VfioDeviceInfo { flags: VFIO_DEVICE_FLAGS_PCI, num_regions: 9, num_irqs: 3 };
    // A chain whose only header points back at itself: a cycle.
    let mut data = vec![0u8; 40];
    data[32] = 99;
    data[36] = 32;
    let replies = vec![RegionQueryReply {
        ret: 0,
        flags: VFIO_REGION_INFO_FLAG_CAPS,
        size: 512,
        offset: 0,
        argsz: 40,
        cap: Some(CapQueryReply { ret: 0, cap_offset: 32, data }),
    }];
    let (regions, skipped) = info.get_regions(&replies);
    assert!(regions.is_empty());
    assert_eq!(skipped, vec![0]);
}

#[test]
fn reset_is_requested_only_with_the_reset_flag() {
    let d = sample_device();
    assert!(d.reset());
    let bare = VfioDevice::new(VFIO_DEVICE_FLAGS_PCI, Vec::new(), Vec::new(), 7);
    assert!(!bare.reset());
}

#[test]
fn irq_lookup_finds_known_indices_only() {
    let d = sample_device();
    assert_eq!(d.get_irq_info(1), Some(&VfioIrq { flags: 0, index: 1, count: 4 }));
    assert_eq!(d.get_irq_info(5), None);
    assert_eq!(d.group_id(), 7);
}

#[test]
fn trigger_request_fires_one_vector() {
    let d = sample_device();
    let req = d.trigger_irq(1, 3).unwrap();
    assert_eq!(req.argsz, VFIO_IRQ_SET_SIZE);
    assert_eq!(req.flags, VFIO_IRQ_SET_DATA_NONE | VFIO_IRQ_SET_ACTION_TRIGGER);
    assert_eq!(req.index, 1);
    assert_eq!(req.start, 3);
    assert_eq!(req.count, 1);
    assert!(req.data.is_empty());
}

#[test]
fn trigger_rejects_unknown_indices_and_out_of_range_vectors() {
    let d = sample_device();
    assert_eq!(d.trigger_irq(9, 0).err(), Some(VfioError::NoSuchIrq));
    // The vector count itself is already out of range, and so is everything
    // above it.
    assert_eq!(d.trigger_irq(1, 4).err(), Some(VfioError::NoSuchIrq));
    assert_eq!(d.trigger_irq(1, u32::MAX).err(), Some(VfioError::NoSuchIrq));
    assert!(d.trigger_irq(1, 3).is_ok());
}

#[test]
fn enable_request_installs_the_handles_little_endian() {
    let d = sample_device();
    let fds = vec![5, 7, 9];
    let req = d.enable_irq(1, &fds).unwrap();
    assert_eq!(req.argsz, VFIO_IRQ_SET_SIZE + 12);
    assert_eq!(req.flags, VFIO_IRQ_SET_DATA_EVENTFD | VFIO_IRQ_SET_ACTION_TRIGGER);
    assert_eq!(req.index, 1);
    assert_eq!(req.start, 0);
    assert_eq!(req.count, 3);
    assert_eq!(req.data, vec![5, 0, 0, 0, 7, 0, 0, 0, 9, 0, 0, 0]);
}

#[test]
fn enable_rejects_more_handles_than_vectors() {
    let d = sample_device();
    let too_many = vec![1, 2, 3, 4, 5];
    assert_eq!(d.enable_irq(1, &too_many).err(), Some(VfioError::NoSuchIrq));
    assert_eq!(d.enable_irq(9, &vec![1]).err(), Some(VfioError::NoSuchIrq));
}

#[test]
fn enable_then_disable_clears_the_whole_index() {
    let d = sample_device();
    let enable = d.enable_irq(1, &vec![5, 7]).unwrap();
    assert_eq!(enable.count, 2);
    let disable = d.disable_irq(1).unwrap();
    // The disable request addresses the index as a whole: no data kind
    // payload, trigger action, vector count zero — which clears every
    // installation the enable made.
    assert_eq!(disable.argsz, VFIO_IRQ_SET_SIZE);
    assert_eq!(disable.flags, VFIO_IRQ_SET_DATA_NONE | VFIO_IRQ_SET_ACTION_TRIGGER);
    assert_eq!(disable.index, 1);
    assert_eq!(disable.start, 0);
    assert_eq!(disable.count, 0);
    assert!(disable.data.is_empty());
    assert_eq!(d.disable_irq(9).err(), Some(VfioError::NoSuchIrq));
}

#[test]
fn irq_set_status_maps_to_the_irq_error() {
    assert!(vfio_ioctls::irq::irq_set_result(0).is_ok());
    assert!(vfio_ioctls::irq::irq_set_result(7).is_ok());
    assert_eq!(
        vfio_ioctls::irq::irq_set_result(-1).err(),
        Some(VfioError::IrqSetFailed)
    );
}

#[test]
fn unmask_request_clears_the_mask_on_vector_zero() {
    let d = sample_device();
    let req = d.unmask_irq(0).unwrap();
    assert_eq!(req.flags, VFIO_IRQ_SET_DATA_NONE | VFIO_IRQ_SET_ACTION_UNMASK);
    assert_eq!(req.index, 0);
    assert_eq!(req.start, 0);
    assert_eq!(req.count, 1);
    assert_eq!(d.unmask_irq(9).err(), Some(VfioError::NoSuchIrq));
}

#[test]
fn msi_and_msix_shortcuts_use_their_fixed_indices() {
    let d = sample_device();
    let req = d.enable_msi(&vec![4]).unwrap();
    assert_eq!(req.index, VFIO_PCI_MSI_IRQ_INDEX);
    let req = d.enable_msix(&vec![4, 5]).unwrap();
    assert_eq!(req.index, VFIO_PCI_MSIX_IRQ_INDEX);
    assert_eq!(d.disable_msi().unwrap().index, VFIO_PCI_MSI_IRQ_INDEX);
    assert_eq!(d.disable_msix().unwrap().index, VFIO_PCI_MSIX_IRQ_INDEX);
}

#[test]
fn max_interrupts_is_the_largest_of_the_three_mechanisms() {
    let d = sample_device();
    assert_eq!(d.max_interrupts(), 8);

    // None of INTX/MSI/MSI-X present: zero, even with other indices around.
    let d = VfioDevice::new(
        VFIO_DEVICE_FLAGS_PCI,
        Vec::new(),
        vec![VfioIrq { flags: 0, index: 3, count: 99 }],
        7,
    );
    assert_eq!(d.max_interrupts(), 0);

    // Only MSI present.
    let d = VfioDevice::new(
        VFIO_DEVICE_FLAGS_PCI,
        Vec::new(),
        vec![VfioIrq { flags: 0, index: 1, count: 4 }],
        7,
    );
    assert_eq!(d.max_interrupts(), 4);
}

#[test]
fn region_getters_fall_back_to_zero_for_missing_indices() {
    let d = sample_device();
    assert_eq!(
        d.get_region_flags(0),
        VFIO_REGION_INFO_FLAG_READ | VFIO_REGION_INFO_FLAG_WRITE
    );
    assert_eq!(d.get_region_size(0), 64);
    assert_eq!(d.get_region_offset(0), 0x1000);
    assert_eq!(d.get_region_flags(5), 0);
    assert_eq!(d.get_region_size(5), 0);
    assert_eq!(d.get_region_offset(5), 0);
    assert!(d.get_region_caps(0).is_empty());
    assert!(d.get_region_caps(5).is_empty());
}

#[test]
fn region_read_is_gated_by_the_region_bounds() {
    let d = sample_device();
    // Within bounds: the position is the region's base plus the offset.
    assert_eq!(d.region_read(0, 16, 8), Some(0x1008));
    // The whole region at once, and the exact end boundary, succeed.
    assert_eq!(d.region_read(0, 64, 0), Some(0x1000));
    assert_eq!(d.region_read(0, 32, 32), Some(0x1020));
    // One byte past the end is a no-op.
    assert_eq!(d.region_read(0, 33, 32), None);
    assert_eq!(d.region_read(0, 65, 0), None);
    // Unknown index is a no-op.
    assert_eq!(d.region_read(9, 1, 0), None);
}

#[test]
fn region_write_also_requires_the_write_flag() {
    let d = sample_device();
    assert_eq!(d.region_write(0, 16, 8), Some(0x1008));
    assert_eq!(d.region_write(0, 32, 32), Some(0x1020));
    assert_eq!(d.region_write(0, 33, 32), None);
    // Region 1 is readable but not writable: every write is a no-op,
    // whatever the buffer, while reads still go through.
    assert_eq!(d.region_write(1, 1, 0), None);
    assert_eq!(d.region_write(1, 0, 0), None);
    assert_eq!(d.region_read(1, 1, 0), Some(0x2000));
    assert_eq!(d.region_write(9, 1, 0), None);
}
