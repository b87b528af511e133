//! What holds of every boot sequence, proved over its transition function.

use vstd::prelude::*;
use crate::fetch::Artifact;
use crate::record::{lemma_record_round_trip, record_bytes, record_of_bytes, BootArtifactRecord};
use crate::sequence::{
    survives_handoff, LoaderState, Phase, Reply, Request, SequenceView, FAILURE_PAUSE_SECONDS,
};
use crate::stage::{page_size, pages_needed};
use crate::status::{aborted_code, BootError};

verus! {

/// A sequence begins well formed, with the enumeration of handles outstanding.
pub proof fn lemma_initial_state(policy: crate::fetch::FetchPolicy)
    ensures
        SequenceView::initial(policy).wf(),
        SequenceView::initial(policy).pending() == Request::LocateCapability,
        !SequenceView::initial(policy).ended(),
{
}

/// Every reply leaves a well-formed sequence well formed.
pub proof fn lemma_step_keeps_invariant(state: SequenceView, reply: Reply)
    requires
        state.wf(),
    ensures
        state.advance(reply).wf(),
{
}

/// A sequence that has ended stays as it is: after the first failure, or after
/// the started image gave control back, no reply leads to another operation.
pub proof fn lemma_ended_is_final(state: SequenceView, reply: Reply)
    requires
        state.ended(),
    ensures
        state.advance(reply) == state,
        state.pending() is Exit,
{
}

/// A failure leads to a pause and to leaving with the status of the error;
/// success leads to leaving at once with the success status. Nothing else
/// leads to leaving.
pub proof fn lemma_exit_reports_outcome(state: SequenceView)
    ensures
        state.phase matches Phase::Failed { error } ==> state.pending() == (Request::Exit {
            pause_seconds: FAILURE_PAUSE_SECONDS,
            status: error.spec_status_code() as usize,
        }),
        state.phase is Finished ==> state.pending() == (Request::Exit {
            pause_seconds: 0,
            status: 0,
        }),
        state.pending() is Exit <==> state.ended(),
{
}

/// A file whose reported size exceeds the cap ends the sequence with
/// `TooLarge`: the next operation is the exit with the status "aborted", and
/// no reply whatever leads to a transfer, or to anything else, afterwards.
pub proof fn lemma_oversize_is_never_transferred(
    state: SequenceView,
    artifact: Artifact,
    reported: u64,
    later: Reply,
)
    requires
        state.phase == (Phase::Sizing { artifact }),
        reported > state.policy.spec_limit(artifact),
    ensures
        ({
            let after = state.advance(Reply::Size(Ok(reported)));
            &&& after.phase == (Phase::Failed { error: BootError::TooLarge })
            &&& after.pending() == (Request::Exit {
                pause_seconds: FAILURE_PAUSE_SECONDS,
                status: aborted_code() as usize,
            })
            &&& after.advance(later) == after
        }),
{
}

/// A transfer is outstanding only after a size query that reported a size
/// within the cap, and then for a buffer of exactly that size.
pub proof fn lemma_transfer_follows_admitted_size(state: SequenceView, reply: Reply)
    requires
        !(state.phase is Transferring),
        state.advance(reply).phase is Transferring,
    ensures
        state.phase is Sizing,
        reply matches Reply::Size(Ok(reported)) && reported <= state.policy.spec_limit(
            state.phase->Sizing_artifact,
        ) && state.advance(reply).phase == (Phase::Transferring {
            artifact: state.phase->Sizing_artifact,
            len: reported as usize,
        }) && reported <= usize::MAX,
{
}

/// With an acknowledgment present the acquisition step issues no
/// address-configuration request: the acknowledgment is read next.
pub proof fn lemma_acknowledged_skips_configuration(state: SequenceView)
    requires
        state.phase is ProbingAddress,
    ensures
        state.advance(Reply::Flag(true)).pending() == Request::ReadAcknowledgment,
        state.advance(Reply::Flag(false)).pending() == (Request::ConfigureAddress {
            sort_offers: false,
        }),
{
}

/// An address-configuration request becomes outstanding in one way only: the
/// capability has just reported that no acknowledgment is present.
pub proof fn lemma_configuration_only_when_unacknowledged(state: SequenceView, reply: Reply)
    requires
        !(state.pending() is ConfigureAddress),
        state.advance(reply).pending() is ConfigureAddress,
    ensures
        state.phase is ProbingAddress,
        reply == Reply::Flag(false),
{
}

/// A started capability is not started again, and one that is not started is
/// started for IPv4.
pub proof fn lemma_start_only_when_stopped(state: SequenceView)
    requires
        state.phase is ProbingStart,
    ensures
        state.advance(Reply::Flag(true)).pending() == Request::QueryAcknowledged,
        state.advance(Reply::Flag(false)).pending() == (Request::StartCapability {
            use_ipv6: false,
        }),
{
}

/// The state after the outstanding acquisition attempts have been answered by
/// `outcomes`, in order, for as long as an attempt is outstanding.
pub open spec fn after_attempts(state: SequenceView, outcomes: Seq<Result<(), usize>>) -> SequenceView
    decreases outcomes.len(),
{
    if outcomes.len() == 0 || !(state.phase is Opening) {
        state
    } else {
        after_attempts(state.advance(Reply::Completed(outcomes[0])), outcomes.skip(1))
    }
}

/// Whether attempt `i` is the first that succeeds.
pub open spec fn first_success(outcomes: Seq<Result<(), usize>>, i: int) -> bool {
    &&& 0 <= i < outcomes.len()
    &&& outcomes[i] is Ok
    &&& forall|j: int| 0 <= j < i ==> outcomes[j] is Err
}

/// Discovery settles on the first handle that can be acquired, and fails with
/// `NotFound` when none can: handles are tried in the order of their
/// enumeration, and a failed attempt only leads to the next.
pub proof fn lemma_discovery_takes_first(
    state: SequenceView,
    index: usize,
    count: usize,
    outcomes: Seq<Result<(), usize>>,
)
    requires
        state.phase == (Phase::Opening { index, count }),
        index < count,
        outcomes.len() == count - index,
    ensures
        (forall|i: int| 0 <= i < outcomes.len() ==> outcomes[i] is Err) ==> after_attempts(
            state,
            outcomes,
        ) == state.failed(BootError::NotFound),
        forall|i: int| #[trigger]
            first_success(outcomes, i) ==> after_attempts(state, outcomes) == (SequenceView {
                phase: Phase::ProbingStart,
                capability: Some((index + i) as usize),
                ..state
            }),
    decreases outcomes.len(),
{
    let next = state.advance(Reply::Completed(outcomes[0]));
    let rest = outcomes.skip(1);
    if outcomes[0] is Ok {
        assert(after_attempts(next, rest) == next);
        assert forall|i: int| #[trigger] first_success(outcomes, i) implies i == 0 by {
            if i > 0 {
                assert(outcomes[0] is Err);
            }
        }
    } else if index + 1 < count {
        lemma_discovery_takes_first(next, (index + 1) as usize, count, rest);
        assert forall|i: int| #[trigger] first_success(outcomes, i) implies after_attempts(
            state,
            outcomes,
        ) == (SequenceView {
            phase: Phase::ProbingStart,
            capability: Some((index + i) as usize),
            ..state
        }) by {
            assert(first_success(rest, i - 1));
        }
        if forall|i: int| 0 <= i < outcomes.len() ==> outcomes[i] is Err {
            assert forall|i: int| 0 <= i < rest.len() implies rest[i] is Err by {
                assert(outcomes[i + 1] is Err);
            }
        }
    } else {
        assert(after_attempts(next, rest) == next);
    }
}

/// An enumeration that finds no handle ends the sequence with `NotFound`.
pub proof fn lemma_no_handle_is_not_found(state: SequenceView)
    requires
        state.phase is Locating,
    ensures
        state.advance(Reply::Located(Ok(0))) == state.failed(BootError::NotFound),
{
}

/// Accepting an allocation stages the buffer unchanged at a page boundary: the
/// region starts at the base the allocator returned, its payload is the
/// buffer, byte for byte, its allocation has room for the payload, and the
/// copy that is asked for next covers exactly the payload.
pub proof fn lemma_staging_keeps_bytes(state: SequenceView, artifact: Artifact, base: usize)
    requires
        state.wf(),
        state.phase == staging_phase(artifact),
        state.advance(Reply::Allocated(Ok(base))).phase == copying_phase(artifact),
    ensures
        ({
            let source = fetched(state, artifact);
            let after = state.advance(Reply::Allocated(Ok(base)));
            let region = crate::sequence::region_of(after, artifact)->Some_0;
            &&& source is Some
            &&& crate::sequence::region_of(after, artifact) is Some
            &&& region.wf()
            &&& region.base == base
            &&& region.base % page_size() == 0
            &&& region.payload == source->Some_0
            &&& region.pages == pages_needed(source->Some_0.len() as int)
            &&& region.payload.len() <= region.allocated_bytes()
            &&& after.pending() == (Request::CopyPayload {
                artifact,
                base,
                len: source->Some_0.len() as usize,
            })
        }),
{
}

/// The phase in which the allocation for an artifact is outstanding.
pub open spec fn staging_phase(artifact: Artifact) -> Phase {
    match artifact {
        Artifact::Kernel => Phase::AllocatingKernel,
        Artifact::Ramdisk => Phase::AllocatingRamdisk,
    }
}

/// The phase in which the copy of an artifact is outstanding.
pub open spec fn copying_phase(artifact: Artifact) -> Phase {
    match artifact {
        Artifact::Kernel => Phase::CopyingKernel,
        Artifact::Ramdisk => Phase::CopyingRamdisk,
    }
}

/// The fetched, not yet staged bytes of an artifact.
pub open spec fn fetched(state: SequenceView, artifact: Artifact) -> Option<Seq<u8>> {
    match artifact {
        Artifact::Kernel => state.kernel,
        Artifact::Ramdisk => state.ramdisk,
    }
}

/// Every staged region of a well-formed sequence starts at a page boundary
/// and is a whole number of pages that holds its payload.
pub proof fn lemma_regions_are_page_aligned(state: SequenceView, artifact: Artifact)
    requires
        state.wf(),
        crate::sequence::region_of(state, artifact) is Some,
    ensures
        ({
            let region = crate::sequence::region_of(state, artifact)->Some_0;
            &&& region.base % page_size() == 0
            &&& region.base > 0
            &&& region.allocated_bytes() == pages_needed(region.payload.len() as int)
                * page_size()
            &&& region.payload.len() <= region.allocated_bytes()
            &&& region.base + region.allocated_bytes() <= usize::MAX
        }),
{
}

/// The record that is installed for the ramdisk reads back, from the bytes
/// written for it, as the base address of the ramdisk's region and the
/// byte length of the ramdisk itself, not of its allocation.
pub proof fn lemma_installed_record_reads_back(state: SequenceView)
    requires
        state.wf(),
        state.phase is Installing,
    ensures
        state.pending() is InstallRecord,
        ({
            let record = state.pending()->InstallRecord_record;
            let region = state.ramdisk_region->Some_0;
            &&& state.pending()->InstallRecord_page == state.phase->Installing_page
            &&& record_of_bytes(record_bytes(record)) == Some(record)
            &&& record.base == region.base
            &&& record.size == region.payload.len()
        }),
{
    lemma_record_round_trip(state.pending()->InstallRecord_record);
}

/// Every allocation is asked for in the memory class that survives the
/// handoff to the booted kernel.
pub proof fn lemma_allocations_survive_handoff(state: SequenceView)
    requires
        state.pending() is AllocatePages,
    ensures
        survives_handoff(state.pending()->AllocatePages_class),
{
}

impl LoaderState {
    /// The place of a state in the order of registration and loading.
    pub open spec fn rank(self) -> int {
        match self {
            LoaderState::Idle => 0,
            LoaderState::RamdiskStaged => 1,
            LoaderState::RamdiskRegistered => 2,
            LoaderState::KernelStaged => 3,
            LoaderState::KernelLoaded => 4,
            LoaderState::OptionsSet => 5,
            LoaderState::Started => 6,
            LoaderState::Failed => 7,
        }
    }
}

/// Registration and loading move strictly in order: a reply keeps the loader
/// state, moves it to the next one, or ends the sequence in failure; a state
/// is never skipped and never gone back to.
pub proof fn lemma_loader_states_in_order(state: SequenceView, reply: Reply)
    ensures
        ({
            let before = state.loader_state();
            let after = state.advance(reply).loader_state();
            ||| after == before
            ||| after.rank() == before.rank() + 1 && !(after is Failed)
            ||| after is Failed
        }),
        state.loader_state() is Failed ==> state.advance(reply).loader_state() is Failed,
{
}

/// The image is started once: the start is outstanding only after the load
/// options were attached, and its outcome ends the sequence.
pub proof fn lemma_image_is_started_once(state: SequenceView, reply: Reply)
    ensures
        state.phase is StartingImage && reply is Completed ==> state.advance(reply).ended(),
        !(state.phase is StartingImage) && state.advance(reply).phase is StartingImage ==> state.phase
            is SettingOptions && reply matches Reply::Completed(Ok(_)),
{
}

} // verus!
