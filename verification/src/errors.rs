//! Error taxonomy of the library.
//!
//! Construction-path failures are surfaced with these typed variants;
//! discovery-path failures are recovered locally (the index is skipped) and
//! teardown-path failures are reported to the caller as actions it may log.

use vstd::prelude::*;

verus! {

/// Every error the library can propagate to a caller.
#[derive(Clone, Copy, Debug, PartialEq, Eq, Structural)]
pub enum VfioError {
    /// The domain, group or device control file could not be opened.
    OpenFailed,
    /// The domain reported an API version other than the expected one.
    VersionMismatch,
    /// The domain does not support the required IOMMU extension.
    ExtensionUnsupported,
    /// The group is not viable: some member device is not bound for isolation.
    ViabilityError,
    /// A device path was malformed.
    InvalidPath,
    /// The device handle lookup failed for the given name.
    PathNotFound,
    /// The device information reply failed a mandatory prerequisite.
    DeviceInfoError,
    /// Binding a group to the domain failed.
    GroupBindFailed,
    /// Selecting the IOMMU backend for the domain failed.
    IommuSetFailed,
    /// The hypervisor-attachment collaborator refused the group.
    AttachFailed,
    /// Installing an IOMMU translation failed.
    MapFailed,
    /// Removing an IOMMU translation failed, or only part of it was removed.
    UnmapFailed,
    /// The interrupt index is unknown, or the vector range is out of bounds.
    NoSuchIrq,
    /// Issuing an interrupt-control request failed.
    IrqSetFailed,
    /// A kernel reply buffer was malformed (a capability chain that runs out
    /// of the buffer or cycles).
    FormatError,
}

impl VfioError {
    /// A short description, for callers that need to render the error.
    pub fn describe(&self) -> &'static str {
        match self {
            VfioError::OpenFailed => "failed to open a control file",
            VfioError::VersionMismatch => "container API version mismatch",
            VfioError::ExtensionUnsupported => "IOMMU extension not supported",
            VfioError::ViabilityError => "group is not viable",
            VfioError::InvalidPath => "malformed device path",
            VfioError::PathNotFound => "device name lookup failed",
            VfioError::DeviceInfoError => "device info missing a prerequisite",
            VfioError::GroupBindFailed => "binding group to the domain failed",
            VfioError::IommuSetFailed => "selecting the IOMMU backend failed",
            VfioError::AttachFailed => "hypervisor attach failed",
            VfioError::MapFailed => "IOMMU map failed",
            VfioError::UnmapFailed => "IOMMU unmap failed or was partial",
            VfioError::NoSuchIrq => "no such interrupt index or vector",
            VfioError::IrqSetFailed => "interrupt-control request failed",
            VfioError::FormatError => "malformed kernel reply buffer",
        }
    }
}

} // verus!
