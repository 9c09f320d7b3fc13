//! Device handles: prerequisite validation, region/interrupt discovery, and
//! the per-device operations (interrupt control, bounds-checked region
//! access, reset).
//!
//! Discovery consumes the kernel's per-index query replies as plain values
//! and tolerates partial failure: a reply with a negative status, or one
//! whose capability chain cannot be decoded, only skips that index, and the
//! skipped indices are returned alongside the collection so callers can see
//! what is missing.

use vstd::prelude::*;

use crate::container::VfioGroup;
use crate::errors::VfioError;
use crate::irq::{
    disable_request, enable_request, encode_fds, find_irq, irq_count_of, trigger_request,
    unmask_request, IrqSetRequest, VfioIrq,
};
use crate::region::{
    cap_model, caps_model, parse_region_caps, spec_region_caps, CapModel, RegionModel, VfioRegion,
    VfioRegionInfoCap, VfioRegionInfoCapSparseMmap, VfioRegionSparseMmapArea,
};
use crate::{
    VFIO_DEVICE_FLAGS_PCI, VFIO_DEVICE_FLAGS_RESET, VFIO_IRQ_SET_SIZE,
    VFIO_PCI_CONFIG_REGION_INDEX, VFIO_PCI_INTX_IRQ_INDEX, VFIO_PCI_MSIX_IRQ_INDEX,
    VFIO_PCI_MSI_IRQ_INDEX, VFIO_REGION_INFO_FLAG_CAPS, VFIO_REGION_INFO_FLAG_WRITE,
    VFIO_REGION_INFO_SIZE,
};

verus! {

/// The static description of an opened device: its capability flags and how
/// many regions and interrupt indices it reports.
#[derive(Copy, Clone, Debug, PartialEq, Eq, Structural)]
pub struct VfioDeviceInfo {
    /// Device capability flags.
    pub flags: u32,
    /// Number of memory regions the device reports.
    pub num_regions: u32,
    /// Number of interrupt indices the device reports.
    pub num_irqs: u32,
}

/// The mandatory prerequisites of a device-info reply: the query succeeded,
/// the device is a PCI device, and it reports at least the configuration
/// region and the MSI-X interrupt index.
pub open spec fn device_info_ok(info_ret: i32, flags: u32, num_regions: u32, num_irqs: u32) -> bool {
    &&& info_ret >= 0
    &&& flags & VFIO_DEVICE_FLAGS_PCI != 0
    &&& num_regions >= VFIO_PCI_CONFIG_REGION_INDEX + 1
    &&& num_irqs >= VFIO_PCI_MSIX_IRQ_INDEX + 1
}

impl VfioDeviceInfo {
    /// Validates a device-info reply against the mandatory prerequisites;
    /// anything less is `DeviceInfoError`.
    pub fn new(info_ret: i32, flags: u32, num_regions: u32, num_irqs: u32) -> (r: Result<
        VfioDeviceInfo,
        VfioError,
    >)
        ensures
            match r {
                Ok(d) => device_info_ok(info_ret, flags, num_regions, num_irqs) && d == (
                VfioDeviceInfo { flags, num_regions, num_irqs }),
                Err(e) => e == VfioError::DeviceInfoError && !device_info_ok(
                    info_ret,
                    flags,
                    num_regions,
                    num_irqs,
                ),
            },
    {
        if info_ret < 0 || flags & VFIO_DEVICE_FLAGS_PCI == 0 || num_regions
            < VFIO_PCI_CONFIG_REGION_INDEX + 1 || num_irqs < VFIO_PCI_MSIX_IRQ_INDEX + 1 {
            Err(VfioError::DeviceInfoError)
        } else {
            Ok(VfioDeviceInfo { flags, num_regions, num_irqs })
        }
    }
}

impl VfioGroup {
    /// Validates the kernel's answer to a device lookup by name: a negative
    /// handle is `PathNotFound`, and the device-info reply must meet the
    /// mandatory prerequisites.
    pub fn get_device(
        &self,
        device_fd: i32,
        info_ret: i32,
        flags: u32,
        num_regions: u32,
        num_irqs: u32,
    ) -> (r: Result<VfioDeviceInfo, VfioError>)
        ensures
            match r {
                Ok(d) => device_fd >= 0 && device_info_ok(info_ret, flags, num_regions, num_irqs)
                    && d == (VfioDeviceInfo { flags, num_regions, num_irqs }),
                Err(e) => (device_fd < 0 && e == VfioError::PathNotFound) || (device_fd >= 0 && e
                    == VfioError::DeviceInfoError && !device_info_ok(
                    info_ret,
                    flags,
                    num_regions,
                    num_irqs,
                )),
            },
    {
        if device_fd < 0 {
            return Err(VfioError::PathNotFound);
        }
        VfioDeviceInfo::new(info_ret, flags, num_regions, num_irqs)
    }
}

/// The kernel's reply to one interrupt-index query: its status, and the
/// reported flags and vector count. The index is the reply's position.
#[derive(Copy, Clone, Debug, PartialEq, Eq, Structural)]
pub struct IrqQueryReply {
    /// Query status; negative means the index could not be described.
    pub ret: i32,
    /// Reported interrupt flags.
    pub flags: u32,
    /// Reported number of vectors.
    pub count: u32,
}

/// The interrupt descriptors built from the replies, one per reply whose
/// query succeeded, each carrying its index.
pub open spec fn spec_irqs(rs: Seq<IrqQueryReply>) -> Seq<VfioIrq>
    decreases rs.len(),
{
    if rs.len() == 0 {
        Seq::empty()
    } else {
        let init = spec_irqs(rs.drop_last());
        if rs.last().ret >= 0 {
            init.push(
                VfioIrq {
                    flags: rs.last().flags,
                    index: (rs.len() - 1) as u32,
                    count: rs.last().count,
                },
            )
        } else {
            init
        }
    }
}

/// Every descriptor built from the replies carries an index below the reply
/// count.
pub proof fn lemma_spec_irqs_index_bound(rs: Seq<IrqQueryReply>)
    requires
        rs.len() <= u32::MAX,
    ensures
        forall|k: int|
            0 <= k < spec_irqs(rs).len() ==> (#[trigger] spec_irqs(rs)[k]).index < rs.len(),
    decreases rs.len(),
{
    if rs.len() > 0 {
        lemma_spec_irqs_index_bound(rs.drop_last());
        let init = spec_irqs(rs.drop_last());
        assert forall|k: int|
            0 <= k < spec_irqs(rs).len() implies (#[trigger] spec_irqs(rs)[k]).index
            < rs.len() by {
            if rs.last().ret >= 0 && k < init.len() {
                assert(spec_irqs(rs)[k] == init[k]);
            }
        }
    }
}

/// The descriptors built from the replies carry strictly increasing indices:
/// discovery yields one descriptor per interrupt index, a true mapping.
pub proof fn lemma_spec_irqs_indices_increasing(rs: Seq<IrqQueryReply>)
    requires
        rs.len() <= u32::MAX,
    ensures
        forall|k1: int, k2: int|
            0 <= k1 < k2 < spec_irqs(rs).len() ==> (#[trigger] spec_irqs(rs)[k1]).index < (
            #[trigger] spec_irqs(rs)[k2]).index,
    decreases rs.len(),
{
    if rs.len() > 0 {
        lemma_spec_irqs_indices_increasing(rs.drop_last());
        lemma_spec_irqs_index_bound(rs.drop_last());
        let init = spec_irqs(rs.drop_last());
        assert forall|k1: int, k2: int|
            0 <= k1 < k2 < spec_irqs(rs).len() implies (#[trigger] spec_irqs(rs)[k1]).index < (
        #[trigger] spec_irqs(rs)[k2]).index by {
            if rs.last().ret >= 0 {
                assert(spec_irqs(rs)[k1] == init[k1]);
                if k2 == init.len() {
                    assert(spec_irqs(rs)[k2].index == rs.len() - 1);
                    assert(init[k1].index < rs.drop_last().len());
                } else {
                    assert(spec_irqs(rs)[k2] == init[k2]);
                }
            }
        }
    }
}

/// The indices whose query failed, in order.
pub open spec fn spec_skipped_irqs(rs: Seq<IrqQueryReply>) -> Seq<u32>
    decreases rs.len(),
{
    if rs.len() == 0 {
        Seq::empty()
    } else {
        let init = spec_skipped_irqs(rs.drop_last());
        if rs.last().ret >= 0 {
            init
        } else {
            init.push((rs.len() - 1) as u32)
        }
    }
}

/// The kernel's follow-up reply to a region query whose first answer
/// announced capability data: the status, the first-capability offset, and
/// the reply buffer sized to the kernel's hinted total length.
#[derive(Clone, Debug, PartialEq)]
pub struct CapQueryReply {
    /// Query status; negative means the follow-up query failed.
    pub ret: i32,
    /// Offset of the first capability header within the buffer.
    pub cap_offset: u32,
    /// The whole reply buffer, fixed structure plus capability bytes.
    pub data: Vec<u8>,
}

/// The kernel's reply to one region query: the status and the fixed fields,
/// plus the follow-up capability reply where the first answer called for one.
/// The region index is the reply's position.
#[derive(Clone, Debug, PartialEq)]
pub struct RegionQueryReply {
    /// Query status; negative means the region could not be described.
    pub ret: i32,
    /// Reported region flags.
    pub flags: u32,
    /// Reported region size in bytes.
    pub size: u64,
    /// Reported offset of the region within the device's file representation.
    pub offset: u64,
    /// The kernel's hinted total reply size.
    pub argsz: u32,
    /// The follow-up capability reply, where one was called for.
    pub cap: Option<CapQueryReply>,
}

/// Whether a region reply announces capability data beyond the fixed
/// structure, so that the query must be reissued with a larger buffer.
pub open spec fn region_needs_caps(flags: u32, argsz: u32) -> bool {
    flags & VFIO_REGION_INFO_FLAG_CAPS != 0 && argsz > VFIO_REGION_INFO_SIZE
}

/// The size of the buffer a follow-up region query must carry: the kernel's
/// hinted total size, if the reply announced capability data at all.
pub fn region_cap_query_len(flags: u32, argsz: u32) -> (r: Option<u32>)
    ensures
        match r {
            Some(n) => region_needs_caps(flags, argsz) && n == argsz,
            None => !region_needs_caps(flags, argsz),
        },
{
    if flags & VFIO_REGION_INFO_FLAG_CAPS != 0 && argsz > VFIO_REGION_INFO_SIZE {
        Some(argsz)
    } else {
        None
    }
}

/// The region described by one reply, or `None` when the reply must be
/// skipped: the query failed, the announced follow-up is missing or failed,
/// or the capability chain is malformed.
pub open spec fn spec_region_of(q: RegionQueryReply) -> Option<RegionModel> {
    if q.ret < 0 {
        None
    } else if !region_needs_caps(q.flags, q.argsz) {
        Some(RegionModel { flags: q.flags, size: q.size, offset: q.offset, caps: Seq::empty() })
    } else {
        match q.cap {
            Option::None => None,
            Option::Some(c) => if c.ret < 0 {
                None
            } else {
                match spec_region_caps(c.data@, VFIO_REGION_INFO_SIZE as int, c.cap_offset as int) {
                    Option::None => None,
                    Option::Some(caps) => Some(
                        RegionModel { flags: q.flags, size: q.size, offset: q.offset, caps },
                    ),
                }
            },
        }
    }
}

/// The regions built from the replies, in index order, skipping the replies
/// that describe no usable region.
pub open spec fn spec_regions(qs: Seq<RegionQueryReply>) -> Seq<RegionModel>
    decreases qs.len(),
{
    if qs.len() == 0 {
        Seq::empty()
    } else {
        let init = spec_regions(qs.drop_last());
        match spec_region_of(qs.last()) {
            Option::Some(m) => init.push(m),
            Option::None => init,
        }
    }
}

/// The region indices that were skipped, in order.
pub open spec fn spec_skipped_regions(qs: Seq<RegionQueryReply>) -> Seq<u32>
    decreases qs.len(),
{
    if qs.len() == 0 {
        Seq::empty()
    } else {
        let init = spec_skipped_regions(qs.drop_last());
        match spec_region_of(qs.last()) {
            Option::Some(m) => init,
            Option::None => init.push((qs.len() - 1) as u32),
        }
    }
}

/// The models of a list of regions.
pub open spec fn regions_model(s: Seq<VfioRegion>) -> Seq<RegionModel> {
    s.map_values(|r: VfioRegion| r.model())
}

impl VfioDeviceInfo {
    /// Builds the interrupt descriptors from the kernel's per-index replies,
    /// index by position. A failed query only skips its index; the second
    /// result lists what was skipped.
    pub fn get_irqs(&self, replies: &Vec<IrqQueryReply>) -> (r: (Vec<VfioIrq>, Vec<u32>))
        requires
            replies@.len() <= u32::MAX,
        ensures
            r.0@ == spec_irqs(replies@),
            r.1@ == spec_skipped_irqs(replies@),
    {
        let mut irqs: Vec<VfioIrq> = Vec::new();
        let mut skipped: Vec<u32> = Vec::new();
        let mut i: usize = 0;
        let n = replies.len();
        proof {
            assert(replies@.subrange(0, 0) =~= Seq::<IrqQueryReply>::empty());
        }
        while i < n
            invariant
                n == replies@.len(),
                n <= u32::MAX,
                i <= n,
                irqs@ == spec_irqs(replies@.subrange(0, i as int)),
                skipped@ == spec_skipped_irqs(replies@.subrange(0, i as int)),
            decreases n - i,
        {
            proof {
                assert(replies@.subrange(0, i + 1).drop_last() =~= replies@.subrange(0, i as int));
                assert(replies@.subrange(0, i + 1).last() == replies@[i as int]);
            }
            let q = replies[i];
            if q.ret >= 0 {
                irqs.push(VfioIrq { flags: q.flags, index: i as u32, count: q.count });
            } else {
                skipped.push(i as u32);
            }
            i = i + 1;
        }
        proof {
            assert(replies@.subrange(0, n as int) =~= replies@);
        }
        (irqs, skipped)
    }

    /// Builds the region descriptors from the kernel's per-index replies,
    /// index by position, decoding each announced capability chain. A failed
    /// query, a missing or failed follow-up, or a malformed chain only skips
    /// its index; the second result lists what was skipped.
    pub fn get_regions(&self, replies: &Vec<RegionQueryReply>) -> (r: (Vec<VfioRegion>, Vec<u32>))
        requires
            replies@.len() <= u32::MAX,
        ensures
            regions_model(r.0@) == spec_regions(replies@),
            r.1@ == spec_skipped_regions(replies@),
    {
        let mut regions: Vec<VfioRegion> = Vec::new();
        let mut skipped: Vec<u32> = Vec::new();
        let mut i: usize = 0;
        let n = replies.len();
        proof {
            assert(replies@.subrange(0, 0) =~= Seq::<RegionQueryReply>::empty());
            assert(regions_model(regions@) =~= spec_regions(replies@.subrange(0, 0)));
        }
        while i < n
            invariant
                n == replies@.len(),
                n <= u32::MAX,
                i <= n,
                regions_model(regions@) == spec_regions(replies@.subrange(0, i as int)),
                skipped@ == spec_skipped_regions(replies@.subrange(0, i as int)),
            decreases n - i,
        {
            proof {
                assert(replies@.subrange(0, i + 1).drop_last() =~= replies@.subrange(0, i as int));
                assert(replies@.subrange(0, i + 1).last() == replies@[i as int]);
            }
            let q = &replies[i];
            let mut built: Option<VfioRegion> = None;
            if q.ret >= 0 {
                if q.flags & VFIO_REGION_INFO_FLAG_CAPS != 0 && q.argsz > VFIO_REGION_INFO_SIZE {
                    match &q.cap {
                        Option::None => {},
                        Option::Some(c) => {
                            if c.ret >= 0 {
                                match parse_region_caps(
                                    c.data.as_slice(),
                                    VFIO_REGION_INFO_SIZE,
                                    c.cap_offset,
                                ) {
                                    Ok(caps) => {
                                        built = Some(
                                            VfioRegion {
                                                flags: q.flags,
                                                size: q.size,
                                                offset: q.offset,
                                                caps,
                                            },
                                        );
                                    },
                                    Err(_) => {},
                                }
                            }
                        },
                    }
                } else {
                    built = Some(
                        VfioRegion {
                            flags: q.flags,
                            size: q.size,
                            offset: q.offset,
                            caps: Vec::new(),
                        },
                    );
                }
            }
            match built {
                Some(reg) => {
                    proof {
                        assert(caps_model(Seq::<VfioRegionInfoCap>::empty()) =~= Seq::<
                            CapModel,
                        >::empty());
                        assert(spec_region_of(replies@[i as int]) == Some(reg.model()));
                        assert(regions_model(regions@.push(reg)) =~= regions_model(regions@).push(
                            reg.model(),
                        ));
                    }
                    regions.push(reg);
                },
                None => {
                    proof {
                        assert(spec_region_of(replies@[i as int]) is None);
                    }
                    skipped.push(i as u32);
                },
            }
            i = i + 1;
        }
        proof {
            assert(replies@.subrange(0, n as int) =~= replies@);
        }
        (regions, skipped)
    }
}

/// The larger of two vector counts.
pub open spec fn max_u32(a: u32, b: u32) -> u32 {
    if a >= b {
        a
    } else {
        b
    }
}

/// Whether a transfer of `len` bytes at region-relative offset `addr` stays
/// inside the region and its absolute position fits the file representation.
pub open spec fn region_io_ok(reg: RegionModel, len: u64, addr: u64) -> bool {
    &&& len <= reg.size
    &&& addr + len <= reg.size
    &&& reg.offset + addr <= u64::MAX
}

/// One opened device: its capability flags, its discovered regions and
/// interrupt descriptors, and the identifier of the group it belongs to. All
/// of it is immutable after construction; the kernel-side device state
/// (reset, interrupt installations) lives behind the control handle the
/// caller holds.
#[derive(Clone, Debug)]
pub struct VfioDevice {
    pub(crate) flags: u32,
    pub(crate) regions: Vec<VfioRegion>,
    pub(crate) irqs: Vec<VfioIrq>,
    pub(crate) group_id: u32,
}

impl VfioDevice {
    /// Device capability flags.
    pub closed spec fn spec_flags(self) -> u32 {
        self.flags
    }

    /// The models of the discovered regions, in index order.
    pub closed spec fn spec_regions(self) -> Seq<RegionModel> {
        regions_model(self.regions@)
    }

    /// The discovered interrupt descriptors.
    pub closed spec fn spec_irqs(self) -> Seq<VfioIrq> {
        self.irqs@
    }

    /// The identifier of the owning group.
    pub closed spec fn spec_group_id(self) -> u32 {
        self.group_id
    }

    /// Composes the device handle from its discovered parts: the validated
    /// device flags, the regions and interrupt descriptors built by
    /// discovery, and the owning group's identifier.
    pub fn new(flags: u32, regions: Vec<VfioRegion>, irqs: Vec<VfioIrq>, group_id: u32) -> (r:
        VfioDevice)
        ensures
            r.spec_flags() == flags,
            r.spec_regions() == regions_model(regions@),
            r.spec_irqs() == irqs@,
            r.spec_group_id() == group_id,
    {
        VfioDevice { flags, regions, irqs, group_id }
    }

    /// The identifier of the owning group, to be released at teardown.
    pub fn group_id(&self) -> (r: u32)
        ensures
            r == self.spec_group_id(),
    {
        self.group_id
    }

    /// Whether a reset request must be issued to the device handle: exactly
    /// when the device reports reset support. When this is false, a reset is
    /// a silent no-op; either way the request's status is only logged.
    pub fn reset(&self) -> (r: bool)
        ensures
            r == (self.spec_flags() & VFIO_DEVICE_FLAGS_RESET != 0),
    {
        self.flags & VFIO_DEVICE_FLAGS_RESET != 0
    }

    /// Looks up the position of the descriptor for `index`.
    fn find_irq_pos(&self, index: u32) -> (r: Option<usize>)
        ensures
            match r {
                Some(i) => i < self.spec_irqs().len() && find_irq(self.spec_irqs(), index) == Some(
                    self.spec_irqs()[i as int],
                ),
                None => find_irq(self.spec_irqs(), index) is None,
            },
    {
        let n = self.irqs.len();
        let mut i: usize = 0;
        proof {
            assert(self.irqs@.subrange(0, n as int) =~= self.irqs@);
        }
        while i < n
            invariant
                n == self.irqs@.len(),
                i <= n,
                find_irq(self.irqs@, index) == find_irq(
                    self.irqs@.subrange(i as int, n as int),
                    index,
                ),
            decreases n - i,
        {
            proof {
                assert(self.irqs@.subrange(i as int, n as int).drop_first() =~= self.irqs@.subrange(
                    i + 1,
                    n as int,
                ));
                assert(self.irqs@.subrange(i as int, n as int)[0] == self.irqs@[i as int]);
            }
            if self.irqs[i].index == index {
                return Some(i);
            }
            i = i + 1;
        }
        proof {
            assert(self.irqs@.subrange(n as int, n as int) =~= Seq::<VfioIrq>::empty());
        }
        None
    }

    /// The descriptor of the given interrupt index, if the device has it.
    pub fn get_irq_info(&self, irq_index: u32) -> (r: Option<&VfioIrq>)
        ensures
            match r {
                Some(irq) => find_irq(self.spec_irqs(), irq_index) == Some(*irq),
                None => find_irq(self.spec_irqs(), irq_index) is None,
            },
    {
        match self.find_irq_pos(irq_index) {
            Some(i) => Some(&self.irqs[i]),
            None => None,
        }
    }

    /// Builds the request that fires vector `vector` of `irq_index` once in
    /// software. Fails with `NoSuchIrq` exactly when the index is unknown or
    /// the vector is not below the index's vector count.
    pub fn trigger_irq(&self, irq_index: u32, vector: u32) -> (r: Result<IrqSetRequest, VfioError>)
        ensures
            ({
                let f = find_irq(self.spec_irqs(), irq_index);
                match r {
                    Ok(req) => f is Some && vector < f->Some_0.count && req.model()
                        == trigger_request(irq_index, vector),
                    Err(e) => e == VfioError::NoSuchIrq && (f is None || vector
                        >= f->Some_0.count),
                }
            }),
    {
        let irq = match self.get_irq_info(irq_index) {
            Some(irq) => irq,
            None => {
                return Err(VfioError::NoSuchIrq);
            },
        };
        if vector >= irq.count {
            return Err(VfioError::NoSuchIrq);
        }
        Ok(
            IrqSetRequest {
                argsz: VFIO_IRQ_SET_SIZE,
                flags: crate::VFIO_IRQ_SET_DATA_NONE | crate::VFIO_IRQ_SET_ACTION_TRIGGER,
                index: irq_index,
                start: vector,
                count: 1,
                data: Vec::new(),
            },
        )
    }

    /// Builds the request that installs `event_fds` (raw event-signaling
    /// handle values) as the delivery targets of vectors
    /// `[0, event_fds.len())` of `irq_index`, overwriting any prior
    /// installation. Fails with `NoSuchIrq` exactly when the index is
    /// unknown, has no vectors, or has fewer vectors than handles supplied.
    pub fn enable_irq(&self, irq_index: u32, event_fds: &Vec<i32>) -> (r: Result<
        IrqSetRequest,
        VfioError,
    >)
        requires
            VFIO_IRQ_SET_SIZE + 4 * event_fds@.len() <= u32::MAX,
        ensures
            ({
                let f = find_irq(self.spec_irqs(), irq_index);
                match r {
                    Ok(req) => f is Some && f->Some_0.count > 0 && event_fds@.len()
                        <= f->Some_0.count && req.model() == enable_request(
                        irq_index,
                        event_fds@,
                    ),
                    Err(e) => e == VfioError::NoSuchIrq && (f is None || f->Some_0.count == 0
                        || event_fds@.len() > f->Some_0.count),
                }
            }),
    {
        let irq = match self.get_irq_info(irq_index) {
            Some(irq) => irq,
            None => {
                return Err(VfioError::NoSuchIrq);
            },
        };
        if irq.count == 0 || (irq.count as usize) < event_fds.len() {
            return Err(VfioError::NoSuchIrq);
        }
        let data = encode_fds(event_fds);
        Ok(
            IrqSetRequest {
                argsz: VFIO_IRQ_SET_SIZE + 4 * (event_fds.len() as u32),
                flags: crate::VFIO_IRQ_SET_DATA_EVENTFD | crate::VFIO_IRQ_SET_ACTION_TRIGGER,
                index: irq_index,
                start: 0,
                count: event_fds.len() as u32,
                data,
            },
        )
    }

    /// Builds the request that clears every vector installation of
    /// `irq_index`. Fails with `NoSuchIrq` exactly when the index is unknown
    /// or has no vectors.
    pub fn disable_irq(&self, irq_index: u32) -> (r: Result<IrqSetRequest, VfioError>)
        ensures
            ({
                let f = find_irq(self.spec_irqs(), irq_index);
                match r {
                    Ok(req) => f is Some && f->Some_0.count > 0 && req.model() == disable_request(
                        irq_index,
                    ),
                    Err(e) => e == VfioError::NoSuchIrq && (f is None || f->Some_0.count == 0),
                }
            }),
    {
        let irq = match self.get_irq_info(irq_index) {
            Some(irq) => irq,
            None => {
                return Err(VfioError::NoSuchIrq);
            },
        };
        if irq.count == 0 {
            return Err(VfioError::NoSuchIrq);
        }
        Ok(
            IrqSetRequest {
                argsz: VFIO_IRQ_SET_SIZE,
                flags: crate::VFIO_IRQ_SET_DATA_NONE | crate::VFIO_IRQ_SET_ACTION_TRIGGER,
                index: irq_index,
                start: 0,
                count: 0,
                data: Vec::new(),
            },
        )
    }

    /// Builds the request that clears the mask on vector 0 of `irq_index`.
    /// Fails with `NoSuchIrq` exactly when the index is unknown or has no
    /// vectors.
    pub fn unmask_irq(&self, irq_index: u32) -> (r: Result<IrqSetRequest, VfioError>)
        ensures
            ({
                let f = find_irq(self.spec_irqs(), irq_index);
                match r {
                    Ok(req) => f is Some && f->Some_0.count > 0 && req.model() == unmask_request(
                        irq_index,
                    ),
                    Err(e) => e == VfioError::NoSuchIrq && (f is None || f->Some_0.count == 0),
                }
            }),
    {
        let irq = match self.get_irq_info(irq_index) {
            Some(irq) => irq,
            None => {
                return Err(VfioError::NoSuchIrq);
            },
        };
        if irq.count == 0 {
            return Err(VfioError::NoSuchIrq);
        }
        Ok(
            IrqSetRequest {
                argsz: VFIO_IRQ_SET_SIZE,
                flags: crate::VFIO_IRQ_SET_DATA_NONE | crate::VFIO_IRQ_SET_ACTION_UNMASK,
                index: irq_index,
                start: 0,
                count: 1,
                data: Vec::new(),
            },
        )
    }

    /// Enables the MSI index: `enable_irq` fixed to it.
    pub fn enable_msi(&self, event_fds: &Vec<i32>) -> (r: Result<IrqSetRequest, VfioError>)
        requires
            VFIO_IRQ_SET_SIZE + 4 * event_fds@.len() <= u32::MAX,
        ensures
            ({
                let f = find_irq(self.spec_irqs(), VFIO_PCI_MSI_IRQ_INDEX);
                match r {
                    Ok(req) => f is Some && f->Some_0.count > 0 && event_fds@.len()
                        <= f->Some_0.count && req.model() == enable_request(
                        VFIO_PCI_MSI_IRQ_INDEX,
                        event_fds@,
                    ),
                    Err(e) => e == VfioError::NoSuchIrq && (f is None || f->Some_0.count == 0
                        || event_fds@.len() > f->Some_0.count),
                }
            }),
    {
        self.enable_irq(VFIO_PCI_MSI_IRQ_INDEX, event_fds)
    }

    /// Disables the MSI index: `disable_irq` fixed to it.
    pub fn disable_msi(&self) -> (r: Result<IrqSetRequest, VfioError>)
        ensures
            ({
                let f = find_irq(self.spec_irqs(), VFIO_PCI_MSI_IRQ_INDEX);
                match r {
                    Ok(req) => f is Some && f->Some_0.count > 0 && req.model() == disable_request(
                        VFIO_PCI_MSI_IRQ_INDEX,
                    ),
                    Err(e) => e == VfioError::NoSuchIrq && (f is None || f->Some_0.count == 0),
                }
            }),
    {
        self.disable_irq(VFIO_PCI_MSI_IRQ_INDEX)
    }

    /// Enables the MSI-X index: `enable_irq` fixed to it.
    pub fn enable_msix(&self, event_fds: &Vec<i32>) -> (r: Result<IrqSetRequest, VfioError>)
        requires
            VFIO_IRQ_SET_SIZE + 4 * event_fds@.len() <= u32::MAX,
        ensures
            ({
                let f = find_irq(self.spec_irqs(), VFIO_PCI_MSIX_IRQ_INDEX);
                match r {
                    Ok(req) => f is Some && f->Some_0.count > 0 && event_fds@.len()
                        <= f->Some_0.count && req.model() == enable_request(
                        VFIO_PCI_MSIX_IRQ_INDEX,
                        event_fds@,
                    ),
                    Err(e) => e == VfioError::NoSuchIrq && (f is None || f->Some_0.count == 0
                        || event_fds@.len() > f->Some_0.count),
                }
            }),
    {
        self.enable_irq(VFIO_PCI_MSIX_IRQ_INDEX, event_fds)
    }

    /// Disables the MSI-X index: `disable_irq` fixed to it.
    pub fn disable_msix(&self) -> (r: Result<IrqSetRequest, VfioError>)
        ensures
            ({
                let f = find_irq(self.spec_irqs(), VFIO_PCI_MSIX_IRQ_INDEX);
                match r {
                    Ok(req) => f is Some && f->Some_0.count > 0 && req.model() == disable_request(
                        VFIO_PCI_MSIX_IRQ_INDEX,
                    ),
                    Err(e) => e == VfioError::NoSuchIrq && (f is None || f->Some_0.count == 0),
                }
            }),
    {
        self.disable_irq(VFIO_PCI_MSIX_IRQ_INDEX)
    }

    /// A region's flags, or zero for an index the device does not have.
    pub fn get_region_flags(&self, index: u32) -> (r: u32)
        ensures
            r == if index < self.spec_regions().len() {
                self.spec_regions()[index as int].flags
            } else {
                0u32
            },
    {
        if (index as usize) < self.regions.len() {
            self.regions[index as usize].flags
        } else {
            0
        }
    }

    /// A region's file offset, or zero for an index the device does not have.
    pub fn get_region_offset(&self, index: u32) -> (r: u64)
        ensures
            r == if index < self.spec_regions().len() {
                self.spec_regions()[index as int].offset
            } else {
                0u64
            },
    {
        if (index as usize) < self.regions.len() {
            self.regions[index as usize].offset
        } else {
            0
        }
    }

    /// A region's size, or zero for an index the device does not have.
    pub fn get_region_size(&self, index: u32) -> (r: u64)
        ensures
            r == if index < self.spec_regions().len() {
                self.spec_regions()[index as int].size
            } else {
                0u64
            },
    {
        if (index as usize) < self.regions.len() {
            self.regions[index as usize].size
        } else {
            0
        }
    }

    /// A region's capability records, or none for an index the device does
    /// not have.
    pub fn get_region_caps(&self, index: u32) -> (r: Vec<VfioRegionInfoCap>)
        ensures
            caps_model(r@) == if index < self.spec_regions().len() {
                self.spec_regions()[index as int].caps
            } else {
                Seq::<CapModel>::empty()
            },
    {
        if (index as usize) < self.regions.len() {
            clone_caps(&self.regions[index as usize].caps)
        } else {
            let r: Vec<VfioRegionInfoCap> = Vec::new();
            proof {
                assert(caps_model(r@) =~= Seq::<CapModel>::empty());
            }
            r
        }
    }

    /// Authorizes one region read: the absolute file position to read `len`
    /// bytes from, or nothing — a read of a missing index or one that runs
    /// past the region's size is a no-op, which the caller may log.
    pub fn region_read(&self, index: u32, len: u64, addr: u64) -> (r: Option<u64>)
        ensures
            match r {
                Some(pos) => index < self.spec_regions().len() && region_io_ok(
                    self.spec_regions()[index as int],
                    len,
                    addr,
                ) && pos == self.spec_regions()[index as int].offset + addr,
                None => !(index < self.spec_regions().len() && region_io_ok(
                    self.spec_regions()[index as int],
                    len,
                    addr,
                )),
            },
    {
        if (index as usize) >= self.regions.len() {
            return None;
        }
        let reg = &self.regions[index as usize];
        if len > reg.size || addr > reg.size - len {
            return None;
        }
        if addr > u64::MAX - reg.offset {
            return None;
        }
        Some(reg.offset + addr)
    }

    /// Authorizes one region write: the absolute file position to write
    /// `len` bytes at, or nothing — a write to a missing index, one that
    /// runs past the region's size, or one to a region whose write flag is
    /// unset is a no-op, which the caller may log.
    pub fn region_write(&self, index: u32, len: u64, addr: u64) -> (r: Option<u64>)
        ensures
            match r {
                Some(pos) => index < self.spec_regions().len() && region_io_ok(
                    self.spec_regions()[index as int],
                    len,
                    addr,
                ) && self.spec_regions()[index as int].flags & VFIO_REGION_INFO_FLAG_WRITE != 0
                    && pos == self.spec_regions()[index as int].offset + addr,
                None => !(index < self.spec_regions().len() && region_io_ok(
                    self.spec_regions()[index as int],
                    len,
                    addr,
                ) && self.spec_regions()[index as int].flags & VFIO_REGION_INFO_FLAG_WRITE != 0),
            },
    {
        if (index as usize) >= self.regions.len() {
            return None;
        }
        let reg = &self.regions[index as usize];
        if len > reg.size || addr > reg.size - len || reg.flags & VFIO_REGION_INFO_FLAG_WRITE == 0 {
            return None;
        }
        if addr > u64::MAX - reg.offset {
            return None;
        }
        Some(reg.offset + addr)
    }

    /// The maximum vector count among the INTX, MSI and MSI-X indices, or
    /// zero when none of the three is present.
    pub fn max_interrupts(&self) -> (r: u32)
        ensures
            r == max_u32(
                max_u32(
                    irq_count_of(self.spec_irqs(), VFIO_PCI_INTX_IRQ_INDEX),
                    irq_count_of(self.spec_irqs(), VFIO_PCI_MSI_IRQ_INDEX),
                ),
                irq_count_of(self.spec_irqs(), VFIO_PCI_MSIX_IRQ_INDEX),
            ),
    {
        let mut max: u32 = 0;
        match self.get_irq_info(VFIO_PCI_INTX_IRQ_INDEX) {
            Some(irq) => {
                if irq.count > max {
                    max = irq.count;
                }
            },
            None => {},
        }
        match self.get_irq_info(VFIO_PCI_MSI_IRQ_INDEX) {
            Some(irq) => {
                if irq.count > max {
                    max = irq.count;
                }
            },
            None => {},
        }
        match self.get_irq_info(VFIO_PCI_MSIX_IRQ_INDEX) {
            Some(irq) => {
                if irq.count > max {
                    max = irq.count;
                }
            },
            None => {},
        }
        max
    }
}

/// Duplicates one capability record, preserving its model.
fn clone_cap(c: &VfioRegionInfoCap) -> (r: VfioRegionInfoCap)
    ensures
        cap_model(r) == cap_model(*c),
{
    match c {
        VfioRegionInfoCap::SparseMmap(s) => {
            let mut areas: Vec<VfioRegionSparseMmapArea> = Vec::new();
            let n = s.areas.len();
            let mut i: usize = 0;
            while i < n
                invariant
                    n == s.areas@.len(),
                    i <= n,
                    areas@ == s.areas@.subrange(0, i as int),
                decreases n - i,
            {
                areas.push(s.areas[i]);
                proof {
                    assert(s.areas@.subrange(0, i + 1) =~= s.areas@.subrange(0, i as int).push(
                        s.areas@[i as int],
                    ));
                }
                i = i + 1;
            }
            proof {
                assert(s.areas@.subrange(0, n as int) =~= s.areas@);
            }
            VfioRegionInfoCap::SparseMmap(VfioRegionInfoCapSparseMmap { areas })
        },
        VfioRegionInfoCap::Type(t) => VfioRegionInfoCap::Type(*t),
        VfioRegionInfoCap::MsixMappable => VfioRegionInfoCap::MsixMappable,
        VfioRegionInfoCap::Nvlink2Ssatgt(t) => VfioRegionInfoCap::Nvlink2Ssatgt(*t),
        VfioRegionInfoCap::Nvlink2Lnkspd(l) => VfioRegionInfoCap::Nvlink2Lnkspd(*l),
    }
}

/// Duplicates a list of capability records, preserving their models.
fn clone_caps(caps: &Vec<VfioRegionInfoCap>) -> (r: Vec<VfioRegionInfoCap>)
    ensures
        caps_model(r@) == caps_model(caps@),
{
    let mut out: Vec<VfioRegionInfoCap> = Vec::new();
    let n = caps.len();
    let mut i: usize = 0;
    while i < n
        invariant
            n == caps@.len(),
            i <= n,
            out@.len() == i as int,
            forall|j: int| 0 <= j < i as int ==> cap_model(#[trigger] out@[j]) == cap_model(
                caps@[j],
            ),
        decreases n - i,
    {
        let c = clone_cap(&caps[i]);
        out.push(c);
        i = i + 1;
    }
    proof {
        assert(caps_model(out@) =~= caps_model(caps@));
    }
    out
}

} // verus!
