//! The boot sequence: which firmware operation comes next, and what its
//! outcome leads to.
//!
//! The sequence is strictly linear. It acquires the network-boot capability,
//! configures an address, fetches the kernel and then the ramdisk, stages and
//! registers the ramdisk, stages and loads the kernel, attaches the load
//! options and starts the image. The first failure ends the attempt; nothing
//! is retried.
//!
//! A [`BootSequence`] performs no firmware call itself. It names the one
//! operation that is outstanding ([`BootSequence::pending`]) and moves on when
//! it is told the outcome ([`BootSequence::step`]). The driver performs each
//! operation and reports back until the outstanding operation is
//! [`Request::Exit`].

use vstd::prelude::*;
use crate::acquire::{
    addresses_of, extract_addresses, first_candidate, next_candidate, after_enumeration,
    after_failed_acquisition, configuration_needed, start_needed, Acknowledgment, AddressPair,
    Ipv4,
};
use crate::fetch::{after_size_query, after_transfer, size_outcome, Artifact, FetchPolicy};
use crate::record::BootArtifactRecord;
use crate::stage::{
    allocation_is_usable, page_count, pages_needed, usable_allocation, RegionView, StagedRegion,
};
use crate::status::{out_of_resources_code, success_code, success_status, BootError};

verus! {

/// Seconds for which the loader pauses before it leaves after a failure, so
/// that an operator can read the diagnostics.
pub const FAILURE_PAUSE_SECONDS: u64 = 10;

/// The memory classes of the firmware allocator that matter to the loader.
#[derive(Clone, Copy, Debug, PartialEq, Eq)]
pub enum MemoryClass {
    /// Memory of the loader's data: retained until the booted program
    /// reclaims it, and not used by the firmware for its own bookkeeping.
    LoaderData,
    /// Memory of the firmware's boot services: reclaimed at the handoff.
    BootServicesData,
}

/// Whether memory of this class is still intact when the booted kernel
/// consumes it.
pub open spec fn survives_handoff(class: MemoryClass) -> bool {
    class == MemoryClass::LoaderData
}

/// The one firmware operation that is outstanding.
#[derive(Clone, Copy, Debug, PartialEq, Eq)]
pub enum Request {
    /// Enumerate the handles that expose the network-boot capability.
    /// Answered by [`Reply::Located`].
    LocateCapability,
    /// Acquire the handle with this index exclusively. Answered by
    /// [`Reply::Completed`].
    OpenCapability { index: usize },
    /// Ask whether the capability has been started. Answered by
    /// [`Reply::Flag`].
    QueryStarted,
    /// Start the capability. Answered by [`Reply::Completed`].
    StartCapability { use_ipv6: bool },
    /// Ask whether an address-configuration acknowledgment is present.
    /// Answered by [`Reply::Flag`].
    QueryAcknowledged,
    /// Configure an address by broadcast discovery. Answered by
    /// [`Reply::Completed`].
    ConfigureAddress { sort_offers: bool },
    /// Read the last acknowledgment. Answered by [`Reply::Acknowledged`].
    ReadAcknowledgment,
    /// Query the size of the artifact's file on the server. Answered by
    /// [`Reply::Size`].
    QuerySize { artifact: Artifact, server: Ipv4 },
    /// Transfer the artifact's file in one piece into a zeroed buffer of
    /// `len` bytes. Answered by [`Reply::Transferred`].
    Transfer { artifact: Artifact, server: Ipv4, len: usize },
    /// Allocate `pages` pages of the given class at any available physical
    /// location. Answered by [`Reply::Allocated`].
    AllocatePages { pages: usize, class: MemoryClass },
    /// Copy the payload of the artifact's staged region, `len` bytes, to the
    /// region's start at `base`. Answered by [`Reply::Copied`].
    CopyPayload { artifact: Artifact, base: usize, len: usize },
    /// Write the record to the start of the page at `page` and install the
    /// page under the ramdisk identifier. Answered by [`Reply::Completed`].
    InstallRecord { page: usize, record: BootArtifactRecord },
    /// Load an image from the `len` bytes staged at `base`, as a child of the
    /// running image. Answered by [`Reply::Completed`].
    LoadImage { base: usize, len: usize },
    /// Attach the fixed load options to the loaded image. Answered by
    /// [`Reply::Completed`].
    SetLoadOptions,
    /// Transfer control to the loaded image. Answered by
    /// [`Reply::Completed`], if control ever comes back.
    StartImage,
    /// Pause for `pause_seconds` and leave with `status`. Never answered.
    Exit { pause_seconds: u64, status: usize },
}

/// The outcome of a firmware operation. An error carries the status code of
/// the firmware.
#[derive(Debug)]
pub enum Reply {
    /// The number of handles found.
    Located(Result<usize, usize>),
    /// An operation without a result has ended.
    Completed(Result<(), usize>),
    /// The capability's answer to a query of its mode.
    Flag(bool),
    /// The last acknowledgment.
    Acknowledged(Acknowledgment),
    /// The size of the remote file in bytes.
    Size(Result<u64, usize>),
    /// The buffer, populated with the whole file.
    Transferred(Result<Vec<u8>, usize>),
    /// The base address of the allocation.
    Allocated(Result<usize, usize>),
    /// The payload has been copied.
    Copied,
}

/// Where the sequence stands: the operation whose outcome it waits for.
#[derive(Clone, Copy, Debug, PartialEq, Eq)]
pub enum Phase {
    Locating,
    Opening { index: usize, count: usize },
    ProbingStart,
    Starting,
    ProbingAddress,
    Configuring,
    ReadingAcknowledgment,
    Sizing { artifact: Artifact },
    Transferring { artifact: Artifact, len: usize },
    AllocatingRamdisk,
    CopyingRamdisk,
    AllocatingRecord,
    Installing { page: usize },
    AllocatingKernel,
    CopyingKernel,
    Loading,
    SettingOptions,
    StartingImage,
    Finished,
    Failed { error: BootError },
}

/// How far registration and loading have come.
#[derive(Clone, Copy, Debug, PartialEq, Eq)]
pub enum LoaderState {
    Idle,
    RamdiskStaged,
    RamdiskRegistered,
    KernelStaged,
    KernelLoaded,
    OptionsSet,
    Started,
    Failed,
}

/// The state of a boot sequence.
pub struct SequenceView {
    pub policy: FetchPolicy,
    pub phase: Phase,
    /// The index of the handle that was acquired, once one has been.
    pub capability: Option<usize>,
    /// The addresses, once the acknowledgment has been read.
    pub addresses: Option<AddressPair>,
    /// The kernel, from its transfer until it is staged.
    pub kernel: Option<Seq<u8>>,
    /// The ramdisk, from its transfer until it is staged.
    pub ramdisk: Option<Seq<u8>>,
    pub ramdisk_region: Option<RegionView>,
    pub kernel_region: Option<RegionView>,
}

impl SequenceView {
    /// The state in which every sequence begins.
    pub open spec fn initial(policy: FetchPolicy) -> SequenceView {
        SequenceView {
            policy,
            phase: Phase::Locating,
            capability: None,
            addresses: None,
            kernel: None,
            ramdisk: None,
            ramdisk_region: None,
            kernel_region: None,
        }
    }

    /// The invariant of every sequence: staged regions are well formed, and
    /// each phase has the data that its operation works on.
    pub open spec fn wf(self) -> bool {
        &&& self.ramdisk_region matches Some(region) ==> region.wf()
        &&& self.kernel_region matches Some(region) ==> region.wf()
        &&& match self.phase {
            Phase::Sizing { artifact } => self.addresses is Some && (artifact == Artifact::Ramdisk
                ==> self.kernel is Some),
            Phase::Transferring { artifact, len } => self.addresses is Some && (artifact
                == Artifact::Ramdisk ==> self.kernel is Some),
            Phase::AllocatingRamdisk => self.kernel is Some && self.ramdisk is Some,
            Phase::CopyingRamdisk => self.kernel is Some && self.ramdisk_region is Some,
            Phase::AllocatingRecord => self.kernel is Some && self.ramdisk_region is Some,
            Phase::Installing { page } => self.kernel is Some && self.ramdisk_region is Some
                && usable_allocation(page as int, 1),
            Phase::AllocatingKernel => self.kernel is Some && self.ramdisk_region is Some,
            Phase::CopyingKernel => self.ramdisk_region is Some && self.kernel_region is Some,
            Phase::Loading => self.ramdisk_region is Some && self.kernel_region is Some,
            Phase::SettingOptions => self.ramdisk_region is Some && self.kernel_region is Some,
            Phase::StartingImage => self.ramdisk_region is Some && self.kernel_region is Some,
            Phase::Finished => self.ramdisk_region is Some && self.kernel_region is Some,
            _ => true,
        }
    }

    /// The same state, ended by `error`.
    pub open spec fn failed(self, error: BootError) -> SequenceView {
        SequenceView { phase: Phase::Failed { error }, ..self }
    }

    /// The same state in another phase.
    pub open spec fn at(self, phase: Phase) -> SequenceView {
        SequenceView { phase, ..self }
    }

    /// Whether the sequence has ended.
    pub open spec fn ended(self) -> bool {
        self.phase is Finished || self.phase is Failed
    }

    /// How far registration and loading have come.
    pub open spec fn loader_state(self) -> LoaderState {
        match self.phase {
            Phase::AllocatingRecord => LoaderState::RamdiskStaged,
            Phase::Installing { page } => LoaderState::RamdiskStaged,
            Phase::AllocatingKernel => LoaderState::RamdiskRegistered,
            Phase::CopyingKernel => LoaderState::RamdiskRegistered,
            Phase::Loading => LoaderState::KernelStaged,
            Phase::SettingOptions => LoaderState::KernelLoaded,
            Phase::StartingImage => LoaderState::OptionsSet,
            Phase::Finished => LoaderState::Started,
            Phase::Failed { error } => LoaderState::Failed,
            _ => LoaderState::Idle,
        }
    }

    /// The operation that is outstanding in this state.
    pub open spec fn pending(self) -> Request {
        match self.phase {
            Phase::Locating => Request::LocateCapability,
            Phase::Opening { index, count } => Request::OpenCapability { index },
            Phase::ProbingStart => Request::QueryStarted,
            Phase::Starting => Request::StartCapability { use_ipv6: false },
            Phase::ProbingAddress => Request::QueryAcknowledged,
            Phase::Configuring => Request::ConfigureAddress { sort_offers: false },
            Phase::ReadingAcknowledgment => Request::ReadAcknowledgment,
            Phase::Sizing { artifact } => Request::QuerySize {
                artifact,
                server: self.addresses->Some_0.server,
            },
            Phase::Transferring { artifact, len } => Request::Transfer {
                artifact,
                server: self.addresses->Some_0.server,
                len,
            },
            Phase::AllocatingRamdisk => Request::AllocatePages {
                pages: pages_needed(self.ramdisk->Some_0.len() as int) as usize,
                class: MemoryClass::LoaderData,
            },
            Phase::CopyingRamdisk => Request::CopyPayload {
                artifact: Artifact::Ramdisk,
                base: self.ramdisk_region->Some_0.base as usize,
                len: self.ramdisk_region->Some_0.payload.len() as usize,
            },
            Phase::AllocatingRecord => Request::AllocatePages {
                pages: 1,
                class: MemoryClass::LoaderData,
            },
            Phase::Installing { page } => Request::InstallRecord {
                page,
                record: BootArtifactRecord {
                    base: self.ramdisk_region->Some_0.base as usize,
                    size: self.ramdisk_region->Some_0.payload.len() as usize,
                },
            },
            Phase::AllocatingKernel => Request::AllocatePages {
                pages: pages_needed(self.kernel->Some_0.len() as int) as usize,
                class: MemoryClass::LoaderData,
            },
            Phase::CopyingKernel => Request::CopyPayload {
                artifact: Artifact::Kernel,
                base: self.kernel_region->Some_0.base as usize,
                len: self.kernel_region->Some_0.payload.len() as usize,
            },
            Phase::Loading => Request::LoadImage {
                base: self.kernel_region->Some_0.base as usize,
                len: self.kernel_region->Some_0.payload.len() as usize,
            },
            Phase::SettingOptions => Request::SetLoadOptions,
            Phase::StartingImage => Request::StartImage,
            Phase::Finished => Request::Exit { pause_seconds: 0, status: success_code() as usize },
            Phase::Failed { error } => Request::Exit {
                pause_seconds: FAILURE_PAUSE_SECONDS,
                status: error.spec_status_code() as usize,
            },
        }
    }

    /// The state after `reply`. A reply that does not answer the outstanding
    /// operation leaves the state as it is, and so does any reply once the
    /// sequence has ended.
    pub open spec fn advance(self, reply: Reply) -> SequenceView {
        match (self.phase, reply) {
            (Phase::Locating, Reply::Located(located)) => match first_candidate(located) {
                Ok(index) => self.at(Phase::Opening { index, count: located->Ok_0 }),
                Err(error) => self.failed(error),
            },
            (Phase::Opening { index, count }, Reply::Completed(Ok(_))) => SequenceView {
                phase: Phase::ProbingStart,
                capability: Some(index),
                ..self
            },
            (Phase::Opening { index, count }, Reply::Completed(Err(_))) => match next_candidate(
                index,
                count,
            ) {
                Ok(next) => self.at(Phase::Opening { index: next, count }),
                Err(error) => self.failed(error),
            },
            (Phase::ProbingStart, Reply::Flag(started)) => if started {
                self.at(Phase::ProbingAddress)
            } else {
                self.at(Phase::Starting)
            },
            (Phase::Starting, Reply::Completed(Ok(_))) => self.at(Phase::ProbingAddress),
            (Phase::Starting, Reply::Completed(Err(code))) => self.failed(
                BootError::Status { code },
            ),
            (Phase::ProbingAddress, Reply::Flag(acknowledged)) => if acknowledged {
                self.at(Phase::ReadingAcknowledgment)
            } else {
                self.at(Phase::Configuring)
            },
            (Phase::Configuring, Reply::Completed(Ok(_))) => self.at(Phase::ReadingAcknowledgment),
            (Phase::Configuring, Reply::Completed(Err(code))) => self.failed(
                BootError::Status { code },
            ),
            (Phase::ReadingAcknowledgment, Reply::Acknowledged(acknowledgment)) => SequenceView {
                phase: Phase::Sizing { artifact: Artifact::Kernel },
                addresses: Some(addresses_of(acknowledgment)),
                ..self
            },
            (Phase::Sizing { artifact }, Reply::Size(query)) => match size_outcome(
                query,
                self.policy.spec_limit(artifact),
            ) {
                Ok(len) => self.at(Phase::Transferring { artifact, len }),
                Err(error) => self.failed(error),
            },
            (Phase::Transferring { artifact, len }, Reply::Transferred(Ok(data))) => match artifact {
                Artifact::Kernel => SequenceView {
                    phase: Phase::Sizing { artifact: Artifact::Ramdisk },
                    kernel: Some(data@),
                    ..self
                },
                Artifact::Ramdisk => SequenceView {
                    phase: Phase::AllocatingRamdisk,
                    ramdisk: Some(data@),
                    ..self
                },
            },
            (Phase::Transferring { artifact, len }, Reply::Transferred(Err(code))) => self.failed(
                BootError::Transfer { code },
            ),
            (Phase::AllocatingRamdisk, Reply::Allocated(Ok(base))) => {
                let payload = self.ramdisk->Some_0;
                let pages = pages_needed(payload.len() as int);
                if usable_allocation(base as int, pages) {
                    SequenceView {
                        phase: Phase::CopyingRamdisk,
                        ramdisk: None,
                        ramdisk_region: Some(RegionView { base: base as int, pages, payload }),
                        ..self
                    }
                } else {
                    SequenceView {
                        phase: Phase::Failed { error: unusable() },
                        ramdisk: None,
                        ..self
                    }
                }
            },
            (Phase::AllocatingRamdisk, Reply::Allocated(Err(code))) => self.failed(
                BootError::Allocation { code },
            ),
            (Phase::CopyingRamdisk, Reply::Copied) => self.at(Phase::AllocatingRecord),
            (Phase::AllocatingRecord, Reply::Allocated(Ok(page))) => if usable_allocation(
                page as int,
                1,
            ) {
                self.at(Phase::Installing { page })
            } else {
                self.failed(unusable())
            },
            (Phase::AllocatingRecord, Reply::Allocated(Err(code))) => self.failed(
                BootError::Allocation { code },
            ),
            (Phase::Installing { page }, Reply::Completed(Ok(_))) => self.at(
                Phase::AllocatingKernel,
            ),
            (Phase::Installing { page }, Reply::Completed(Err(code))) => self.failed(
                BootError::Status { code },
            ),
            (Phase::AllocatingKernel, Reply::Allocated(Ok(base))) => {
                let payload = self.kernel->Some_0;
                let pages = pages_needed(payload.len() as int);
                if usable_allocation(base as int, pages) {
                    SequenceView {
                        phase: Phase::CopyingKernel,
                        kernel: None,
                        kernel_region: Some(RegionView { base: base as int, pages, payload }),
                        ..self
                    }
                } else {
                    SequenceView {
                        phase: Phase::Failed { error: unusable() },
                        kernel: None,
                        ..self
                    }
                }
            },
            (Phase::AllocatingKernel, Reply::Allocated(Err(code))) => self.failed(
                BootError::Allocation { code },
            ),
            (Phase::CopyingKernel, Reply::Copied) => self.at(Phase::Loading),
            (Phase::Loading, Reply::Completed(Ok(_))) => self.at(Phase::SettingOptions),
            (Phase::Loading, Reply::Completed(Err(code))) => self.failed(BootError::Load { code }),
            (Phase::SettingOptions, Reply::Completed(Ok(_))) => self.at(Phase::StartingImage),
            (Phase::SettingOptions, Reply::Completed(Err(code))) => self.failed(
                BootError::Status { code },
            ),
            (Phase::StartingImage, Reply::Completed(Ok(_))) => self.at(Phase::Finished),
            (Phase::StartingImage, Reply::Completed(Err(code))) => self.failed(
                BootError::Start { code },
            ),
            _ => self,
        }
    }
}

/// The error for an allocation that cannot be used as a region.
pub open spec fn unusable() -> BootError {
    BootError::Allocation { code: out_of_resources_code() as usize }
}

/// A boot attempt in progress.
pub struct BootSequence {
    policy: FetchPolicy,
    phase: Phase,
    capability: Option<usize>,
    addresses: Option<AddressPair>,
    kernel: Option<Vec<u8>>,
    ramdisk: Option<Vec<u8>>,
    ramdisk_region: Option<StagedRegion>,
    kernel_region: Option<StagedRegion>,
}

/// The bytes of a buffer that may be absent.
spec fn buffer_view(buffer: Option<Vec<u8>>) -> Option<Seq<u8>> {
    match buffer {
        Some(bytes) => Some(bytes@),
        None => None,
    }
}

/// The view of a region that may be absent.
spec fn region_view(region: Option<StagedRegion>) -> Option<RegionView> {
    match region {
        Some(staged) => Some(staged@),
        None => None,
    }
}

impl View for BootSequence {
    type V = SequenceView;

    closed spec fn view(&self) -> SequenceView {
        SequenceView {
            policy: self.policy,
            phase: self.phase,
            capability: self.capability,
            addresses: self.addresses,
            kernel: buffer_view(self.kernel),
            ramdisk: buffer_view(self.ramdisk),
            ramdisk_region: region_view(self.ramdisk_region),
            kernel_region: region_view(self.kernel_region),
        }
    }
}

impl BootSequence {
    #[verifier::type_invariant]
    spec fn inv(self) -> bool {
        self@.wf()
    }

    /// A sequence at its beginning, under the given size policy.
    pub fn new(policy: FetchPolicy) -> (sequence: BootSequence)
        ensures
            sequence@ == SequenceView::initial(policy),
            sequence@.wf(),
    {
        BootSequence {
            policy,
            phase: Phase::Locating,
            capability: None,
            addresses: None,
            kernel: None,
            ramdisk: None,
            ramdisk_region: None,
            kernel_region: None,
        }
    }

    /// The phase the sequence is in.
    pub fn phase(&self) -> (phase: Phase)
        ensures
            phase == self@.phase,
    {
        self.phase
    }

    /// How far registration and loading have come.
    pub fn loader_state(&self) -> (state: LoaderState)
        ensures
            state == self@.loader_state(),
    {
        match self.phase {
            Phase::AllocatingRecord => LoaderState::RamdiskStaged,
            Phase::Installing { page } => LoaderState::RamdiskStaged,
            Phase::AllocatingKernel => LoaderState::RamdiskRegistered,
            Phase::CopyingKernel => LoaderState::RamdiskRegistered,
            Phase::Loading => LoaderState::KernelStaged,
            Phase::SettingOptions => LoaderState::KernelLoaded,
            Phase::StartingImage => LoaderState::OptionsSet,
            Phase::Finished => LoaderState::Started,
            Phase::Failed { error } => LoaderState::Failed,
            _ => LoaderState::Idle,
        }
    }

    /// Whether the sequence has ended, and how: `Some(Ok(()))` once the
    /// started image has given control back, `Some(Err(..))` after the first
    /// failure, `None` while an operation is outstanding.
    pub fn outcome(&self) -> (outcome: Option<Result<(), BootError>>)
        ensures
            outcome is Some <==> self@.ended(),
            outcome == Some(Ok::<(), BootError>(())) <==> self@.phase is Finished,
            outcome matches Some(Err(error)) ==> self@.phase == (Phase::Failed { error }),
    {
        match self.phase {
            Phase::Finished => Some(Ok(())),
            Phase::Failed { error } => Some(Err(error)),
            _ => None,
        }
    }

    /// The index, in the enumeration, of the handle that was acquired.
    pub fn capability(&self) -> (capability: Option<usize>)
        ensures
            capability == self@.capability,
    {
        self.capability
    }

    /// The addresses of this attempt, once the acknowledgment has been read.
    pub fn addresses(&self) -> (addresses: Option<AddressPair>)
        ensures
            addresses == self@.addresses,
    {
        self.addresses
    }

    /// The staged region of an artifact, once its allocation has been
    /// accepted.
    pub fn region(&self, artifact: Artifact) -> (region: Option<&StagedRegion>)
        ensures
            region_of(self@, artifact) is Some <==> region is Some,
            region matches Some(staged) ==> region_of(self@, artifact) == Some(staged@)
                && staged@.wf(),
    {
        proof {
            use_type_invariant(self);
        }
        match artifact {
            Artifact::Kernel => self.kernel_region.as_ref(),
            Artifact::Ramdisk => self.ramdisk_region.as_ref(),
        }
    }

    /// The operation that the driver must perform next.
    pub fn pending(&self) -> (request: Request)
        ensures
            request == self@.pending(),
    {
        proof {
            use_type_invariant(self);
        }
        match self.phase {
            Phase::Locating => Request::LocateCapability,
            Phase::Opening { index, count } => Request::OpenCapability { index },
            Phase::ProbingStart => Request::QueryStarted,
            Phase::Starting => Request::StartCapability { use_ipv6: false },
            Phase::ProbingAddress => Request::QueryAcknowledged,
            Phase::Configuring => Request::ConfigureAddress { sort_offers: false },
            Phase::ReadingAcknowledgment => Request::ReadAcknowledgment,
            Phase::Sizing { artifact } => match self.addresses {
                Some(pair) => Request::QuerySize { artifact, server: pair.server },
                None => unreached(),
            },
            Phase::Transferring { artifact, len } => match self.addresses {
                Some(pair) => Request::Transfer { artifact, server: pair.server, len },
                None => unreached(),
            },
            Phase::AllocatingRamdisk => match &self.ramdisk {
                Some(buffer) => Request::AllocatePages {
                    pages: page_count(buffer.len()),
                    class: MemoryClass::LoaderData,
                },
                None => unreached(),
            },
            Phase::CopyingRamdisk => match &self.ramdisk_region {
                Some(region) => Request::CopyPayload {
                    artifact: Artifact::Ramdisk,
                    base: region.base(),
                    len: region.len(),
                },
                None => unreached(),
            },
            Phase::AllocatingRecord => Request::AllocatePages {
                pages: 1,
                class: MemoryClass::LoaderData,
            },
            Phase::Installing { page } => match &self.ramdisk_region {
                Some(region) => Request::InstallRecord {
                    page,
                    record: BootArtifactRecord::describe(region),
                },
                None => unreached(),
            },
            Phase::AllocatingKernel => match &self.kernel {
                Some(buffer) => Request::AllocatePages {
                    pages: page_count(buffer.len()),
                    class: MemoryClass::LoaderData,
                },
                None => unreached(),
            },
            Phase::CopyingKernel => match &self.kernel_region {
                Some(region) => Request::CopyPayload {
                    artifact: Artifact::Kernel,
                    base: region.base(),
                    len: region.len(),
                },
                None => unreached(),
            },
            Phase::Loading => match &self.kernel_region {
                Some(region) => Request::LoadImage { base: region.base(), len: region.len() },
                None => unreached(),
            },
            Phase::SettingOptions => Request::SetLoadOptions,
            Phase::StartingImage => Request::StartImage,
            Phase::Finished => Request::Exit { pause_seconds: 0, status: success_status() },
            Phase::Failed { error } => Request::Exit {
                pause_seconds: FAILURE_PAUSE_SECONDS,
                status: error.status_code(),
            },
        }
    }

    /// Takes the outcome of the outstanding operation and moves on.
    pub fn step(self, reply: Reply) -> (next: BootSequence)
        ensures
            next@ == self@.advance(reply),
            next@.wf(),
    {
        proof {
            use_type_invariant(&self);
        }
        let BootSequence {
            policy,
            phase,
            capability,
            addresses,
            kernel,
            ramdisk,
            ramdisk_region,
            kernel_region,
        } = self;
        let mut capability = capability;
        let mut addresses = addresses;
        let mut kernel = kernel;
        let mut ramdisk = ramdisk;
        let mut ramdisk_region = ramdisk_region;
        let mut kernel_region = kernel_region;
        let after: Phase = match (phase, reply) {
            (Phase::Locating, Reply::Located(located)) => match after_enumeration(located) {
                Ok(index) => match located {
                    Ok(count) => Phase::Opening { index, count },
                    Err(_) => unreached(),
                },
                Err(error) => Phase::Failed { error },
            },
            (Phase::Opening { index, count }, Reply::Completed(Ok(_))) => {
                capability = Some(index);
                Phase::ProbingStart
            },
            (Phase::Opening { index, count }, Reply::Completed(Err(_))) => {
                match after_failed_acquisition(index, count) {
                    Ok(next) => Phase::Opening { index: next, count },
                    Err(error) => Phase::Failed { error },
                }
            },
            (Phase::ProbingStart, Reply::Flag(started)) => if start_needed(started) {
                Phase::Starting
            } else {
                Phase::ProbingAddress
            },
            (Phase::Starting, Reply::Completed(Ok(_))) => Phase::ProbingAddress,
            (Phase::Starting, Reply::Completed(Err(code))) => Phase::Failed {
                error: BootError::Status { code },
            },
            (Phase::ProbingAddress, Reply::Flag(acknowledged)) => if configuration_needed(
                acknowledged,
            ) {
                Phase::Configuring
            } else {
                Phase::ReadingAcknowledgment
            },
            (Phase::Configuring, Reply::Completed(Ok(_))) => Phase::ReadingAcknowledgment,
            (Phase::Configuring, Reply::Completed(Err(code))) => Phase::Failed {
                error: BootError::Status { code },
            },
            (Phase::ReadingAcknowledgment, Reply::Acknowledged(acknowledgment)) => {
                addresses = Some(extract_addresses(&acknowledgment));
                Phase::Sizing { artifact: Artifact::Kernel }
            },
            (Phase::Sizing { artifact }, Reply::Size(query)) => {
                match after_size_query(query, policy.limit(artifact)) {
                    Ok(len) => Phase::Transferring { artifact, len },
                    Err(error) => Phase::Failed { error },
                }
            },
            (Phase::Transferring { artifact, len }, Reply::Transferred(transfer)) => {
                match after_transfer(transfer) {
                    Ok(data) => match artifact {
                        Artifact::Kernel => {
                            kernel = Some(data);
                            Phase::Sizing { artifact: Artifact::Ramdisk }
                        },
                        Artifact::Ramdisk => {
                            ramdisk = Some(data);
                            Phase::AllocatingRamdisk
                        },
                    },
                    Err(error) => Phase::Failed { error },
                }
            },
            (Phase::AllocatingRamdisk, Reply::Allocated(Ok(base))) => match ramdisk.take() {
                Some(buffer) => match StagedRegion::seal(base, buffer) {
                    Ok(region) => {
                        ramdisk_region = Some(region);
                        Phase::CopyingRamdisk
                    },
                    Err(error) => Phase::Failed { error },
                },
                None => unreached(),
            },
            (Phase::AllocatingRamdisk, Reply::Allocated(Err(code))) => Phase::Failed {
                error: BootError::Allocation { code },
            },
            (Phase::CopyingRamdisk, Reply::Copied) => Phase::AllocatingRecord,
            (Phase::AllocatingRecord, Reply::Allocated(Ok(page))) => if allocation_is_usable(
                page,
                1,
            ) {
                Phase::Installing { page }
            } else {
                Phase::Failed { error: BootError::unusable_allocation() }
            },
            (Phase::AllocatingRecord, Reply::Allocated(Err(code))) => Phase::Failed {
                error: BootError::Allocation { code },
            },
            (Phase::Installing { page }, Reply::Completed(Ok(_))) => Phase::AllocatingKernel,
            (Phase::Installing { page }, Reply::Completed(Err(code))) => Phase::Failed {
                error: BootError::Status { code },
            },
            (Phase::AllocatingKernel, Reply::Allocated(Ok(base))) => match kernel.take() {
                Some(buffer) => match StagedRegion::seal(base, buffer) {
                    Ok(region) => {
                        kernel_region = Some(region);
                        Phase::CopyingKernel
                    },
                    Err(error) => Phase::Failed { error },
                },
                None => unreached(),
            },
            (Phase::AllocatingKernel, Reply::Allocated(Err(code))) => Phase::Failed {
                error: BootError::Allocation { code },
            },
            (Phase::CopyingKernel, Reply::Copied) => Phase::Loading,
            (Phase::Loading, Reply::Completed(Ok(_))) => Phase::SettingOptions,
            (Phase::Loading, Reply::Completed(Err(code))) => Phase::Failed {
                error: BootError::Load { code },
            },
            (Phase::SettingOptions, Reply::Completed(Ok(_))) => Phase::StartingImage,
            (Phase::SettingOptions, Reply::Completed(Err(code))) => Phase::Failed {
                error: BootError::Status { code },
            },
            (Phase::StartingImage, Reply::Completed(Ok(_))) => Phase::Finished,
            (Phase::StartingImage, Reply::Completed(Err(code))) => Phase::Failed {
                error: BootError::Start { code },
            },
            (unchanged, _) => unchanged,
        };
        BootSequence {
            policy,
            phase: after,
            capability,
            addresses,
            kernel,
            ramdisk,
            ramdisk_region,
            kernel_region,
        }
    }
}

/// The staged region of an artifact in a state.
pub open spec fn region_of(state: SequenceView, artifact: Artifact) -> Option<RegionView> {
    match artifact {
        Artifact::Kernel => state.kernel_region,
        Artifact::Ramdisk => state.ramdisk_region,
    }
}

} // verus!
