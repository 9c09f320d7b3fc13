//! The IOMMU domain: its group map, the resolve/release state machines, and
//! translation-map requests.
//!
//! Resolving and releasing a group interleaves decisions with kernel and
//! hypervisor calls, all under one exclusive lock on the group map. The
//! caller owns the lock and the control handles; this module owns every
//! decision. Each kernel call is one step: the container hands the caller an
//! action carrying a session value, the caller performs the call and hands
//! the raw result back to the next step. The contracts pin down exactly how
//! each step may change the map — in particular that every failing path
//! leaves it untouched, and that the ordering (bind, then backend selection,
//! then hypervisor attach, then map insertion) is the only one possible.

use vstd::prelude::*;

use crate::errors::VfioError;
use crate::{
    VFIO_API_VERSION, VFIO_DMA_MAP_FLAG_READ, VFIO_DMA_MAP_FLAG_WRITE, VFIO_DMA_MAP_SIZE,
    VFIO_DMA_UNMAP_SIZE, VFIO_GROUP_FLAGS_VIABLE, VFIO_TYPE1_IOMMU, VFIO_TYPE1V2_IOMMU,
};

verus! {

/// One kernel isolation group: its numeric identifier and the raw value of
/// its open control handle. The handle itself stays with the caller; the
/// library only records which handle its requests concern.
#[derive(Copy, Clone, Debug, PartialEq, Eq, Structural)]
pub struct VfioGroup {
    /// The kernel's group identifier.
    pub id: u32,
    /// Raw value of the group's open control handle.
    pub fd: i32,
}

impl VfioGroup {
    /// Validates a freshly opened group from its status reply: the status
    /// must carry the viable flag — every member device bound for isolation —
    /// whatever other status bits stand beside it, or the group cannot be
    /// used at all.
    pub fn new(id: u32, fd: i32, status_ret: i32, status_flags: u32) -> (r: Result<
        VfioGroup,
        VfioError,
    >)
        ensures
            match r {
                Ok(g) => status_ret >= 0 && status_flags & VFIO_GROUP_FLAGS_VIABLE != 0 && g.id
                    == id && g.fd == fd,
                Err(e) => e == VfioError::ViabilityError && !(status_ret >= 0 && status_flags
                    & VFIO_GROUP_FLAGS_VIABLE != 0),
            },
    {
        if status_ret < 0 {
            return Err(VfioError::ViabilityError);
        }
        if status_flags & VFIO_GROUP_FLAGS_VIABLE == 0 {
            return Err(VfioError::ViabilityError);
        }
        Ok(VfioGroup { id, fd })
    }

    /// The group's identifier.
    pub fn id(&self) -> (r: u32)
        ensures
            r == self.id,
    {
        self.id
    }
}

/// One group-map entry: the group and how many open devices hold it.
struct GroupEntry {
    group: VfioGroup,
    users: u64,
}

/// One IOMMU domain: the map from group identifier to (group, holder count).
///
/// The caller holds the domain control handle and one exclusive lock around
/// this value; a whole resolve or release sequence runs under that lock.
pub struct VfioContainer {
    groups: Vec<GroupEntry>,
}

impl View for VfioContainer {
    type V = Seq<(u32, VfioGroup, u64)>;

    /// The group map as a sequence of (identifier, group, holder count).
    closed spec fn view(&self) -> Seq<(u32, VfioGroup, u64)> {
        self.groups@.map_values(|e: GroupEntry| (e.group.id, e.group, e.users))
    }
}

/// The group map is well formed: each entry's key is its group's identifier,
/// and no two entries share an identifier.
pub open spec fn gm_wf(s: Seq<(u32, VfioGroup, u64)>) -> bool {
    &&& forall|i: int| 0 <= i < s.len() ==> (#[trigger] s[i]).1.id == s[i].0
    &&& forall|i: int, j: int| 0 <= i < j < s.len() ==> s[i].0 != s[j].0
}

/// Whether the map has an entry for `id`.
pub open spec fn gm_has(s: Seq<(u32, VfioGroup, u64)>, id: u32) -> bool {
    exists|i: int| 0 <= i < s.len() && (#[trigger] s[i]).0 == id
}

/// The position of the entry for `id`.
pub open spec fn gm_index(s: Seq<(u32, VfioGroup, u64)>, id: u32) -> int {
    choose|i: int| 0 <= i < s.len() && (#[trigger] s[i]).0 == id
}

/// The group stored for `id`.
pub open spec fn gm_group(s: Seq<(u32, VfioGroup, u64)>, id: u32) -> VfioGroup {
    s[gm_index(s, id)].1
}

/// How many open devices hold the group of `id`.
pub open spec fn gm_users(s: Seq<(u32, VfioGroup, u64)>, id: u32) -> u64 {
    s[gm_index(s, id)].2
}

/// In a well-formed map, the entry for an identifier is unique.
pub proof fn lemma_gm_entry_unique(s: Seq<(u32, VfioGroup, u64)>, i: int, j: int)
    requires
        gm_wf(s),
        0 <= i < s.len(),
        0 <= j < s.len(),
        s[i].0 == s[j].0,
    ensures
        i == j,
{
}

/// Where a resolve sequence stands.
enum ResolveStage {
    /// The group control file is being opened and its status queried.
    Opening,
    /// The group is being bound to the domain.
    Binding,
    /// The IOMMU backend is being selected (first group only).
    SelectingIommu,
    /// The hypervisor collaborator is attaching the group.
    Attaching,
    /// A failure is being rolled back: the group is being unbound.
    Unbinding(VfioError),
}

/// A resolve sequence in flight. Only `resolve_group` creates one; the
/// caller threads it through the steps and never inspects it.
pub struct ResolveSession {
    id: u32,
    fd: i32,
    stage: ResolveStage,
}

impl ResolveSession {
    /// The identifier being resolved.
    pub closed spec fn spec_id(self) -> u32 {
        self.id
    }

    /// The raw group handle value, once the group is open.
    pub closed spec fn spec_fd(self) -> i32 {
        self.fd
    }

    /// The session awaits the open-and-status reply.
    pub closed spec fn is_opening(self) -> bool {
        self.stage is Opening
    }

    /// The session awaits the bind reply.
    pub closed spec fn is_binding(self) -> bool {
        self.stage is Binding
    }

    /// The session awaits the backend-selection reply.
    pub closed spec fn is_selecting_iommu(self) -> bool {
        self.stage is SelectingIommu
    }

    /// The session awaits the hypervisor-attach reply.
    pub closed spec fn is_attaching(self) -> bool {
        self.stage is Attaching
    }

    /// The session awaits the rollback-unbind reply.
    pub closed spec fn is_unbinding(self) -> bool {
        self.stage is Unbinding
    }

    /// The failure that triggered the rollback.
    pub closed spec fn pending_err(self) -> VfioError {
        match self.stage {
            ResolveStage::Unbinding(e) => e,
            _ => arbitrary(),
        }
    }

    /// The raw group handle value, for the caller to act on.
    pub fn fd(&self) -> (r: i32)
        ensures
            r == self.spec_fd(),
    {
        self.fd
    }

    /// The identifier being resolved, for the caller to act on.
    pub fn id(&self) -> (r: u32)
        ensures
            r == self.spec_id(),
    {
        self.id
    }
}

/// What the caller must do next to finish resolving a group.
pub enum ResolveStep {
    /// The group is resolved; the map holds it and counts the new holder.
    Done(VfioGroup),
    /// The resolution failed; the map is exactly as before the sequence.
    Fail(VfioError),
    /// Open the group control file of `session.id()`, query its status, and
    /// report both to `resolve_opened`.
    OpenGroup(ResolveSession),
    /// Bind the group handle `session.fd()` to the domain and report the
    /// status to `resolve_bound`.
    BindGroup(ResolveSession),
    /// Select the type-1 v2 IOMMU backend for the domain and report the
    /// status to `resolve_iommu_set`.
    SelectIommu(ResolveSession),
    /// Hand the group handle `session.fd()` to the hypervisor collaborator
    /// and report the outcome to `resolve_attached`.
    AttachGroup(ResolveSession),
    /// Roll back: unbind the group handle `session.fd()` from the domain and
    /// report the status to `resolve_unbound`.
    UnbindGroup(ResolveSession),
}

/// What the caller must do next to finish releasing a group.
pub enum ReleaseStep {
    /// Nothing: the group is still held, or there was nothing to release.
    Keep,
    /// Ask the hypervisor collaborator to detach the group handle
    /// `session.fd()` and report the outcome to `release_detached`.
    DetachGroup(ReleaseSession),
    /// Unbind the group handle `session.fd()` from the domain and report the
    /// status to `release_unbound`.
    UnbindGroup(ReleaseSession),
    /// The map entry was removed; the group handle can be closed.
    Removed,
}

/// Where a release sequence stands.
enum ReleaseStage {
    /// The hypervisor collaborator is detaching the group.
    Detaching,
    /// The group is being unbound from the domain.
    Unbinding,
}

/// A release sequence in flight.
pub struct ReleaseSession {
    id: u32,
    fd: i32,
    stage: ReleaseStage,
}

impl ReleaseSession {
    /// The identifier being released.
    pub closed spec fn spec_id(self) -> u32 {
        self.id
    }

    /// The raw group handle value.
    pub closed spec fn spec_fd(self) -> i32 {
        self.fd
    }

    /// The session awaits the hypervisor-detach reply.
    pub closed spec fn is_detaching(self) -> bool {
        self.stage is Detaching
    }

    /// The session awaits the unbind reply.
    pub closed spec fn is_unbinding(self) -> bool {
        self.stage is Unbinding
    }

    /// The raw group handle value, for the caller to act on.
    pub fn fd(&self) -> (r: i32)
        ensures
            r == self.spec_fd(),
    {
        self.fd
    }

    /// The identifier being released, for the caller to act on.
    pub fn id(&self) -> (r: u32)
        ensures
            r == self.spec_id(),
    {
        self.id
    }
}

impl VfioContainer {
    /// Validates the domain's reported API version: it must match the
    /// expected constant exactly.
    pub fn check_api_version(version: i32) -> (r: Result<(), VfioError>)
        ensures
            match r {
                Ok(()) => version >= 0 && version as u32 == VFIO_API_VERSION,
                Err(e) => e == VfioError::VersionMismatch && !(version >= 0 && version as u32
                    == VFIO_API_VERSION),
            },
    {
        if version >= 0 && version as u32 == VFIO_API_VERSION {
            Ok(())
        } else {
            Err(VfioError::VersionMismatch)
        }
    }

    /// Validates an extension-support reply: the requested extension must be
    /// one of the type-1 backends and the domain must report support (1).
    pub fn check_extension(val: u32, status: i32) -> (r: Result<(), VfioError>)
        ensures
            match r {
                Ok(()) => (val == VFIO_TYPE1_IOMMU || val == VFIO_TYPE1V2_IOMMU) && status == 1,
                Err(e) => e == VfioError::ExtensionUnsupported && !((val == VFIO_TYPE1_IOMMU || val
                    == VFIO_TYPE1V2_IOMMU) && status == 1),
            },
    {
        if val != VFIO_TYPE1_IOMMU && val != VFIO_TYPE1V2_IOMMU {
            return Err(VfioError::ExtensionUnsupported);
        }
        if status != 1 {
            return Err(VfioError::ExtensionUnsupported);
        }
        Ok(())
    }

    /// Builds the container around a freshly opened domain handle, from the
    /// domain's API-version reply and its answer to the type-1 v2 extension
    /// query. Succeeds exactly when the version matches and the extension is
    /// supported; the group map starts empty.
    pub fn new(version: i32, extension_status: i32) -> (r: Result<VfioContainer, VfioError>)
        ensures
            match r {
                Ok(c) => c@ == Seq::<(u32, VfioGroup, u64)>::empty() && version >= 0 && version
                    as u32 == VFIO_API_VERSION && extension_status == 1,
                Err(e) => (version >= 0 && version as u32 == VFIO_API_VERSION ==> e
                    == VfioError::ExtensionUnsupported && extension_status != 1) && (!(version >= 0
                    && version as u32 == VFIO_API_VERSION) ==> e == VfioError::VersionMismatch),
            },
    {
        match Self::check_api_version(version) {
            Ok(()) => {},
            Err(e) => {
                return Err(e);
            },
        }
        match Self::check_extension(VFIO_TYPE1V2_IOMMU, extension_status) {
            Ok(()) => {},
            Err(e) => {
                return Err(e);
            },
        }
        let c = VfioContainer { groups: Vec::new() };
        proof {
            assert(c@ =~= Seq::<(u32, VfioGroup, u64)>::empty());
        }
        Ok(c)
    }

    /// Looks up the entry for `id`, returning its position.
    fn find_group(&self, id: u32) -> (r: Option<usize>)
        ensures
            match r {
                Some(i) => i < self@.len() && self@[i as int].0 == id,
                None => !gm_has(self@, id),
            },
    {
        let mut i: usize = 0;
        let n = self.groups.len();
        while i < n
            invariant
                n == self@.len(),
                i <= n,
                forall|j: int| 0 <= j < i as int ==> (#[trigger] self@[j]).0 != id,
        decreases n - i,
        {
            if self.groups[i].group.id == id {
                return Some(i);
            }
            i = i + 1;
        }
        None
    }

    /// How many open devices currently hold the group of `group_id`, zero
    /// when the map does not hold it. Lets the caller test `resolve_group`'s
    /// holder-count bound before resolving.
    pub fn group_users(&self, group_id: u32) -> (r: u64)
        requires
            gm_wf(self@),
        ensures
            r == if gm_has(self@, group_id) {
                gm_users(self@, group_id)
            } else {
                0u64
            },
    {
        match self.find_group(group_id) {
            Some(i) => {
                proof {
                    lemma_gm_entry_unique(self@, i as int, gm_index(self@, group_id));
                }
                self.groups[i].users
            },
            None => 0,
        }
    }

    /// First step of resolving a group under the map lock.
    ///
    /// If the map already holds the identifier, the stored group is returned
    /// at once and its holder count goes up by one — no second group object
    /// is ever created for an identifier. Otherwise the map is untouched and
    /// the caller is asked to open the group's control file.
    pub fn resolve_group(&mut self, group_id: u32) -> (r: ResolveStep)
        requires
            gm_wf(old(self)@),
            gm_has(old(self)@, group_id) ==> gm_users(old(self)@, group_id) < u64::MAX,
        ensures
            gm_wf(final(self)@),
            gm_has(old(self)@, group_id) ==> match r {
                ResolveStep::Done(g) => g == gm_group(old(self)@, group_id) && final(self)@ == old(
                    self,
                )@.update(
                    gm_index(old(self)@, group_id),
                    (group_id, g, (gm_users(old(self)@, group_id) + 1) as u64),
                ),
                _ => false,
            },
            !gm_has(old(self)@, group_id) ==> final(self)@ == old(self)@ && match r {
                ResolveStep::OpenGroup(s) => s.spec_id() == group_id && s.is_opening(),
                _ => false,
            },
    {
        match self.find_group(group_id) {
            Some(i) => {
                proof {
                    lemma_gm_entry_unique(self@, i as int, gm_index(self@, group_id));
                }
                let g = self.groups[i].group;
                let users = self.groups[i].users;
                self.groups[i] = GroupEntry { group: g, users: users + 1 };
                proof {
                    assert(self@ =~= old(self)@.update(
                        gm_index(old(self)@, group_id),
                        (group_id, g, (users + 1) as u64),
                    ));
                }
                ResolveStep::Done(g)
            },
            None => ResolveStep::OpenGroup(
                ResolveSession { id: group_id, fd: 0, stage: ResolveStage::Opening },
            ),
        }
    }

    /// Consumes the open-and-status reply: if the control file could not be
    /// opened the sequence fails with `OpenFailed`; if the group is not
    /// viable it fails with `ViabilityError`; otherwise the caller must bind
    /// the group to the domain. The map is never touched here.
    pub fn resolve_opened(
        &self,
        session: ResolveSession,
        opened: bool,
        fd: i32,
        status_ret: i32,
        status_flags: u32,
    ) -> (r: ResolveStep)
        requires
            session.is_opening(),
        ensures
            match r {
                ResolveStep::Fail(e) => (!opened && e == VfioError::OpenFailed) || (opened && e
                    == VfioError::ViabilityError && !(status_ret >= 0 && status_flags
                    & VFIO_GROUP_FLAGS_VIABLE != 0)),
                ResolveStep::BindGroup(s) => opened && status_ret >= 0 && status_flags
                    & VFIO_GROUP_FLAGS_VIABLE != 0 && s.spec_id() == session.spec_id()
                    && s.spec_fd() == fd && s.is_binding(),
                _ => false,
            },
    {
        if !opened {
            return ResolveStep::Fail(VfioError::OpenFailed);
        }
        match VfioGroup::new(session.id, fd, status_ret, status_flags) {
            Ok(g) => ResolveStep::BindGroup(
                ResolveSession { id: session.id, fd: g.fd, stage: ResolveStage::Binding },
            ),
            Err(e) => ResolveStep::Fail(e),
        }
    }

    /// Consumes the bind status. A negative status fails the sequence with
    /// `GroupBindFailed` and leaves no trace. On success, the caller must
    /// select the IOMMU backend if this would be the domain's first group,
    /// and otherwise go straight to the hypervisor attach: backend selection
    /// happens exactly once, at the first group.
    pub fn resolve_bound(&self, session: ResolveSession, status: i32) -> (r: ResolveStep)
        requires
            session.is_binding(),
        ensures
            match r {
                ResolveStep::Fail(e) => status < 0 && e == VfioError::GroupBindFailed,
                ResolveStep::SelectIommu(s) => status >= 0 && self@.len() == 0 && s.spec_id()
                    == session.spec_id() && s.spec_fd() == session.spec_fd()
                    && s.is_selecting_iommu(),
                ResolveStep::AttachGroup(s) => status >= 0 && self@.len() != 0 && s.spec_id()
                    == session.spec_id() && s.spec_fd() == session.spec_fd() && s.is_attaching(),
                _ => false,
            },
    {
        if status < 0 {
            return ResolveStep::Fail(VfioError::GroupBindFailed);
        }
        if self.groups.len() == 0 {
            ResolveStep::SelectIommu(
                ResolveSession {
                    id: session.id,
                    fd: session.fd,
                    stage: ResolveStage::SelectingIommu,
                },
            )
        } else {
            ResolveStep::AttachGroup(
                ResolveSession { id: session.id, fd: session.fd, stage: ResolveStage::Attaching },
            )
        }
    }

    /// Consumes the backend-selection status. A negative status starts the
    /// rollback — the group must be unbound before the sequence fails with
    /// `IommuSetFailed`. On success, the caller proceeds to the hypervisor
    /// attach.
    pub fn resolve_iommu_set(&self, session: ResolveSession, status: i32) -> (r: ResolveStep)
        requires
            session.is_selecting_iommu(),
        ensures
            match r {
                ResolveStep::UnbindGroup(s) => status < 0 && s.spec_id() == session.spec_id()
                    && s.spec_fd() == session.spec_fd() && s.is_unbinding() && s.pending_err()
                    == VfioError::IommuSetFailed,
                ResolveStep::AttachGroup(s) => status >= 0 && s.spec_id() == session.spec_id()
                    && s.spec_fd() == session.spec_fd() && s.is_attaching(),
                _ => false,
            },
    {
        if status < 0 {
            ResolveStep::UnbindGroup(
                ResolveSession {
                    id: session.id,
                    fd: session.fd,
                    stage: ResolveStage::Unbinding(VfioError::IommuSetFailed),
                },
            )
        } else {
            ResolveStep::AttachGroup(
                ResolveSession { id: session.id, fd: session.fd, stage: ResolveStage::Attaching },
            )
        }
    }

    /// Consumes the hypervisor-attach outcome. On success the group finally
    /// enters the map, with one holder, and the sequence is done. On failure
    /// the rollback starts: the group must be unbound before the sequence
    /// fails with `AttachFailed`.
    pub fn resolve_attached(&mut self, session: ResolveSession, attached: bool) -> (r: ResolveStep)
        requires
            session.is_attaching(),
            gm_wf(old(self)@),
            !gm_has(old(self)@, session.spec_id()),
        ensures
            gm_wf(final(self)@),
            match r {
                ResolveStep::Done(g) => attached && g == (VfioGroup {
                    id: session.spec_id(),
                    fd: session.spec_fd(),
                }) && final(self)@ == old(self)@.push((session.spec_id(), g, 1u64)),
                ResolveStep::UnbindGroup(s) => !attached && final(self)@ == old(self)@
                    && s.spec_id() == session.spec_id() && s.spec_fd() == session.spec_fd()
                    && s.is_unbinding() && s.pending_err() == VfioError::AttachFailed,
                _ => false,
            },
    {
        if attached {
            let g = VfioGroup { id: session.id, fd: session.fd };
            self.groups.push(GroupEntry { group: g, users: 1 });
            proof {
                assert(self@ =~= old(self)@.push((session.spec_id(), g, 1u64)));
            }
            ResolveStep::Done(g)
        } else {
            ResolveStep::UnbindGroup(
                ResolveSession {
                    id: session.id,
                    fd: session.fd,
                    stage: ResolveStage::Unbinding(VfioError::AttachFailed),
                },
            )
        }
    }

    /// Consumes the rollback-unbind status and fails the sequence with the
    /// error that triggered the rollback. The unbind status itself is not
    /// propagated — the rollback already runs on a failure path — but the
    /// caller may log it.
    pub fn resolve_unbound(&self, session: ResolveSession, status: i32) -> (r: ResolveStep)
        requires
            session.is_unbinding(),
        ensures
            match r {
                ResolveStep::Fail(e) => e == session.pending_err(),
                _ => false,
            },
    {
        let _ = status;
        match session.stage {
            ResolveStage::Unbinding(e) => ResolveStep::Fail(e),
            _ => unreached(),
        }
    }

    /// First step of releasing one device's hold on `group`, under the map
    /// lock. The holder count goes down by one; the teardown — hypervisor
    /// detach, then unbind, then removal — starts exactly when the last
    /// holder releases, never earlier. Releasing a group the map does not
    /// hold, or one whose teardown already ran, changes nothing.
    pub fn release_group(&mut self, group: VfioGroup) -> (r: ReleaseStep)
        requires
            gm_wf(old(self)@),
        ensures
            gm_wf(final(self)@),
            !gm_has(old(self)@, group.id) ==> final(self)@ == old(self)@ && r is Keep,
            gm_has(old(self)@, group.id) && gm_users(old(self)@, group.id) == 0 ==> final(self)@
                == old(self)@ && r is Keep,
            gm_has(old(self)@, group.id) && gm_users(old(self)@, group.id) >= 2 ==> final(self)@
                == old(self)@.update(
                gm_index(old(self)@, group.id),
                (
                    group.id,
                    gm_group(old(self)@, group.id),
                    (gm_users(old(self)@, group.id) - 1) as u64,
                ),
            ) && r is Keep,
            gm_has(old(self)@, group.id) && gm_users(old(self)@, group.id) == 1 ==> final(self)@
                == old(self)@.update(
                gm_index(old(self)@, group.id),
                (group.id, gm_group(old(self)@, group.id), 0u64),
            ) && match r {
                ReleaseStep::DetachGroup(s) => s.spec_id() == group.id && s.spec_fd() == gm_group(
                    old(self)@,
                    group.id,
                ).fd && s.is_detaching(),
                _ => false,
            },
    {
        match self.find_group(group.id) {
            None => ReleaseStep::Keep,
            Some(i) => {
                proof {
                    lemma_gm_entry_unique(self@, i as int, gm_index(self@, group.id));
                }
                let g = self.groups[i].group;
                let users = self.groups[i].users;
                if users == 0 {
                    return ReleaseStep::Keep;
                }
                self.groups[i] = GroupEntry { group: g, users: users - 1 };
                proof {
                    assert(self@ =~= old(self)@.update(
                        gm_index(old(self)@, group.id),
                        (group.id, g, (users - 1) as u64),
                    ));
                }
                if users == 1 {
                    ReleaseStep::DetachGroup(
                        ReleaseSession { id: g.id, fd: g.fd, stage: ReleaseStage::Detaching },
                    )
                } else {
                    ReleaseStep::Keep
                }
            },
        }
    }

    /// Consumes the hypervisor-detach outcome. If the detach failed, the
    /// teardown stops and the map entry stays (the caller logs the failure);
    /// otherwise the caller must unbind the group from the domain.
    pub fn release_detached(&self, session: ReleaseSession, detached: bool) -> (r: ReleaseStep)
        requires
            session.is_detaching(),
        ensures
            match r {
                ReleaseStep::Keep => !detached,
                ReleaseStep::UnbindGroup(s) => detached && s.spec_id() == session.spec_id()
                    && s.spec_fd() == session.spec_fd() && s.is_unbinding(),
                _ => false,
            },
    {
        if !detached {
            return ReleaseStep::Keep;
        }
        ReleaseStep::UnbindGroup(
            ReleaseSession { id: session.id, fd: session.fd, stage: ReleaseStage::Unbinding },
        )
    }

    /// Consumes the unbind status and finishes the teardown. The map entry is
    /// removed exactly when the unbind succeeded; on a failed unbind the
    /// entry stays in place, so no kernel state is left dangling behind an
    /// empty map.
    pub fn release_unbound(&mut self, session: ReleaseSession, status: i32) -> (r: ReleaseStep)
        requires
            session.is_unbinding(),
            gm_wf(old(self)@),
        ensures
            gm_wf(final(self)@),
            status < 0 ==> final(self)@ == old(self)@ && r is Keep,
            status >= 0 && !gm_has(old(self)@, session.spec_id()) ==> final(self)@ == old(self)@
                && r is Removed,
            status >= 0 && gm_has(old(self)@, session.spec_id()) ==> final(self)@ == old(
                self,
            )@.remove(gm_index(old(self)@, session.spec_id())) && r is Removed,
    {
        if status < 0 {
            return ReleaseStep::Keep;
        }
        match self.find_group(session.id) {
            None => ReleaseStep::Removed,
            Some(i) => {
                proof {
                    lemma_gm_entry_unique(self@, i as int, gm_index(self@, session.spec_id()));
                }
                self.groups.remove(i);
                proof {
                    assert(self@ =~= old(self)@.remove(gm_index(old(self)@, session.spec_id())));
                }
                ReleaseStep::Removed
            },
        }
    }
}

/// One IOMMU translation-map request, covering a single contiguous range.
#[derive(Copy, Clone, Debug, PartialEq, Eq, Structural)]
pub struct DmaMapRequest {
    /// Byte size of the request structure.
    pub argsz: u32,
    /// Access flags of the translation.
    pub flags: u32,
    /// Host virtual address backing the range.
    pub vaddr: u64,
    /// Device-visible address of the range.
    pub iova: u64,
    /// Byte length of the range.
    pub size: u64,
}

/// One IOMMU translation-unmap request.
#[derive(Copy, Clone, Debug, PartialEq, Eq, Structural)]
pub struct DmaUnmapRequest {
    /// Byte size of the request structure.
    pub argsz: u32,
    /// Flags (always zero here).
    pub flags: u32,
    /// Device-visible address of the range.
    pub iova: u64,
    /// Byte length of the range.
    pub size: u64,
}

/// The translation-map request for one contiguous range.
pub open spec fn dma_map_request(iova: u64, size: u64, user_addr: u64) -> DmaMapRequest {
    DmaMapRequest {
        argsz: VFIO_DMA_MAP_SIZE,
        flags: VFIO_DMA_MAP_FLAG_READ | VFIO_DMA_MAP_FLAG_WRITE,
        vaddr: user_addr,
        iova,
        size,
    }
}

/// The translation-unmap request for one contiguous range.
pub open spec fn dma_unmap_request(iova: u64, size: u64) -> DmaUnmapRequest {
    DmaUnmapRequest { argsz: VFIO_DMA_UNMAP_SIZE, flags: 0, iova, size }
}

/// One contiguous guest memory region, as the guest-memory collaborator
/// reports it: guest address, length, and backing host address.
#[derive(Copy, Clone, Debug, PartialEq, Eq, Structural)]
pub struct GuestRegion {
    /// Guest-physical address of the region.
    pub guest_addr: u64,
    /// Byte length of the region.
    pub len: u64,
    /// Host virtual address backing the region.
    pub host_addr: u64,
}

impl VfioContainer {
    /// Builds the request that installs one IOMMU translation: the device
    /// may then read and write the range through `iova`.
    pub fn vfio_dma_map(&self, iova: u64, size: u64, user_addr: u64) -> (r: DmaMapRequest)
        ensures
            r == dma_map_request(iova, size, user_addr),
    {
        DmaMapRequest {
            argsz: VFIO_DMA_MAP_SIZE,
            flags: VFIO_DMA_MAP_FLAG_READ | VFIO_DMA_MAP_FLAG_WRITE,
            vaddr: user_addr,
            iova,
            size,
        }
    }

    /// Interprets the status of a translation-map call: any non-zero status
    /// is `MapFailed`.
    pub fn vfio_dma_map_result(&self, status: i32) -> (r: Result<(), VfioError>)
        ensures
            match r {
                Ok(()) => status == 0,
                Err(e) => e == VfioError::MapFailed && status != 0,
            },
    {
        if status != 0 {
            Err(VfioError::MapFailed)
        } else {
            Ok(())
        }
    }

    /// Builds the request that removes one IOMMU translation.
    pub fn vfio_dma_unmap(&self, iova: u64, size: u64) -> (r: DmaUnmapRequest)
        ensures
            r == dma_unmap_request(iova, size),
    {
        DmaUnmapRequest { argsz: VFIO_DMA_UNMAP_SIZE, flags: 0, iova, size }
    }

    /// Interprets the reply of a translation-unmap call: the kernel must
    /// report success and echo exactly the requested size back — a partial
    /// unmap is `UnmapFailed`, never silently accepted.
    pub fn vfio_dma_unmap_result(&self, size: u64, status: i32, reported_size: u64) -> (r: Result<
        (),
        VfioError,
    >)
        ensures
            match r {
                Ok(()) => status == 0 && reported_size == size,
                Err(e) => e == VfioError::UnmapFailed && !(status == 0 && reported_size == size),
            },
    {
        if status != 0 || reported_size != size {
            Err(VfioError::UnmapFailed)
        } else {
            Ok(())
        }
    }

    /// Builds the translation-map requests covering every region of the
    /// guest-memory collaborator, one request per region, in order. The
    /// caller issues them in order and stops at the first failure.
    pub fn vfio_map_guest_memory(&self, regions: &Vec<GuestRegion>) -> (r: Vec<DmaMapRequest>)
        ensures
            r@.len() == regions@.len(),
            forall|i: int| 0 <= i < regions@.len() ==> r@[i] == dma_map_request(
                (#[trigger] regions@[i]).guest_addr,
                regions@[i].len,
                regions@[i].host_addr,
            ),
    {
        let mut out: Vec<DmaMapRequest> = Vec::new();
        let mut i: usize = 0;
        let n = regions.len();
        while i < n
            invariant
                n == regions@.len(),
                i <= n,
                out@.len() == i as int,
                forall|j: int| 0 <= j < i as int ==> out@[j] == dma_map_request(
                    (#[trigger] regions@[j]).guest_addr,
                    regions@[j].len,
                    regions@[j].host_addr,
                ),
            decreases n - i,
        {
            let g = regions[i];
            out.push(self.vfio_dma_map(g.guest_addr, g.len, g.host_addr));
            i = i + 1;
        }
        out
    }

    /// Builds the translation-unmap requests covering every region of the
    /// guest-memory collaborator, one request per region, in order.
    pub fn vfio_unmap_guest_memory(&self, regions: &Vec<GuestRegion>) -> (r: Vec<DmaUnmapRequest>)
        ensures
            r@.len() == regions@.len(),
            forall|i: int| 0 <= i < regions@.len() ==> r@[i] == dma_unmap_request(
                (#[trigger] regions@[i]).guest_addr,
                regions@[i].len,
            ),
    {
        let mut out: Vec<DmaUnmapRequest> = Vec::new();
        let mut i: usize = 0;
        let n = regions.len();
        while i < n
            invariant
                n == regions@.len(),
                i <= n,
                out@.len() == i as int,
                forall|j: int| 0 <= j < i as int ==> out@[j] == dma_unmap_request(
                    (#[trigger] regions@[j]).guest_addr,
                    regions@[j].len,
                ),
            decreases n - i,
        {
            let g = regions[i];
            out.push(self.vfio_dma_unmap(g.guest_addr, g.len));
            i = i + 1;
        }
        out
    }
}

} // verus!
