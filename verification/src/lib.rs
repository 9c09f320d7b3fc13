//! Userspace control plane for handing a physical device to an isolated
//! address-translation domain (an IOMMU container, its isolation groups, and
//! the devices inside them).
//!
//! The kernel control transport (the ioctl calls themselves) and the
//! hypervisor-attachment collaborator live outside this crate; every decision
//! made on their replies — validation, rollback ordering, reference-count
//! accounting, capability-chain decoding, request construction and
//! bounds-checked region access — is verified here. Replies enter as plain
//! values; requests leave as plain structs.

use vstd::prelude::*;

pub mod bytes;
pub mod container;
pub mod device;
pub mod errors;
pub mod irq;
pub mod paths;
pub mod region;

verus! {

/// Expected container API version reported by the domain control handle.
pub const VFIO_API_VERSION: u32 = 0;

/// Type-1 IOMMU backend.
pub const VFIO_TYPE1_IOMMU: u32 = 1;

/// Type-1 v2 IOMMU backend, the one this library selects.
pub const VFIO_TYPE1V2_IOMMU: u32 = 3;

/// Group-status flag: every device of the group is bound for isolation.
pub const VFIO_GROUP_FLAGS_VIABLE: u32 = 1;

/// Device flag: the device supports being reset.
pub const VFIO_DEVICE_FLAGS_RESET: u32 = 1;

/// Device flag: the device is a PCI device.
pub const VFIO_DEVICE_FLAGS_PCI: u32 = 2;

/// Region flag: the region supports reads.
pub const VFIO_REGION_INFO_FLAG_READ: u32 = 1;

/// Region flag: the region supports writes.
pub const VFIO_REGION_INFO_FLAG_WRITE: u32 = 2;

/// Region flag: the region supports memory mapping.
pub const VFIO_REGION_INFO_FLAG_MMAP: u32 = 4;

/// Region flag: capability records follow the fixed region-info structure.
pub const VFIO_REGION_INFO_FLAG_CAPS: u32 = 8;

/// Capability identifier: sparse memory-mapping areas.
pub const VFIO_REGION_INFO_CAP_SPARSE_MMAP: u32 = 1;

/// Capability identifier: region type and subtype.
pub const VFIO_REGION_INFO_CAP_TYPE: u32 = 2;

/// Capability identifier: region is mappable alongside an MSI-X region.
pub const VFIO_REGION_INFO_CAP_MSIX_MAPPABLE: u32 = 3;

/// Capability identifier: NVLink SSA TGT value.
pub const VFIO_REGION_INFO_CAP_NVLINK2_SSATGT: u32 = 4;

/// Capability identifier: NVLink link speed.
pub const VFIO_REGION_INFO_CAP_NVLINK2_LNKSPD: u32 = 5;

/// Interrupt-control data kind: no payload.
pub const VFIO_IRQ_SET_DATA_NONE: u32 = 1;

/// Interrupt-control data kind: payload of event-signaling handles.
pub const VFIO_IRQ_SET_DATA_EVENTFD: u32 = 4;

/// Interrupt-control action: unmask vectors.
pub const VFIO_IRQ_SET_ACTION_UNMASK: u32 = 16;

/// Interrupt-control action: configure or fire triggers.
pub const VFIO_IRQ_SET_ACTION_TRIGGER: u32 = 32;

/// Translation-map flag: the device may read through the mapping.
pub const VFIO_DMA_MAP_FLAG_READ: u32 = 1;

/// Translation-map flag: the device may write through the mapping.
pub const VFIO_DMA_MAP_FLAG_WRITE: u32 = 2;

/// Index of the first base-address-register region of a PCI device.
pub const VFIO_PCI_BAR0_REGION_INDEX: u32 = 0;

/// Index of the configuration-space region of a PCI device.
pub const VFIO_PCI_CONFIG_REGION_INDEX: u32 = 7;

/// Interrupt index of the legacy (INTX) mechanism.
pub const VFIO_PCI_INTX_IRQ_INDEX: u32 = 0;

/// Interrupt index of the message-signaled (MSI) mechanism.
pub const VFIO_PCI_MSI_IRQ_INDEX: u32 = 1;

/// Interrupt index of the extended message-signaled (MSI-X) mechanism.
pub const VFIO_PCI_MSIX_IRQ_INDEX: u32 = 2;

/// Byte size of the fixed region-info structure.
pub const VFIO_REGION_INFO_SIZE: u32 = 32;

/// Byte size of the fixed interrupt-control structure, before its payload.
pub const VFIO_IRQ_SET_SIZE: u32 = 20;

/// Byte size of the translation-map request structure.
pub const VFIO_DMA_MAP_SIZE: u32 = 32;

/// Byte size of the translation-unmap request structure.
pub const VFIO_DMA_UNMAP_SIZE: u32 = 24;

} // verus!
