//! The ring lifecycle: a state machine from first negotiation to shutdown.
//!
//! The surrounding process performs the privileged calls, the mappings and
//! the thread management, but every decision — which state follows which
//! event, and what must be done next — is taken here. Mapping failure after
//! a successful negotiation unwinds what was acquired instead of starting
//! the workers; cancellation drains the ring before anything is released.
use vstd::prelude::*;

verus! {

/// Lifecycle states of a ring.
#[derive(Clone, Copy, Debug, PartialEq, Eq, Structural)]
pub enum RingState {
    Uninitialized,
    Negotiated,
    Mapped,
    Running,
    Draining,
    Closed,
}

/// Events the surrounding process reports back.
#[derive(Clone, Copy, Debug, PartialEq, Eq, Structural)]
pub enum RingEvent {
    SetupSucceeded,
    SetupFailed,
    MapSucceeded,
    MapFailed,
    WorkersStarted,
    CancelRequested,
    Drained,
}

/// What the surrounding process must do next.
#[derive(Clone, Copy, Debug, PartialEq, Eq, Structural)]
pub enum RingAction {
    /// Map the three shared regions of the negotiated ring.
    MapRegions,
    /// Start the submission-producer and completion-consumer tasks.
    StartWorkers,
    /// Stop accepting new submissions; keep draining completions.
    StopAccepting,
    /// Unmap every mapped region and release the ring identity.
    ReleaseResources,
    /// Nothing to do.
    Idle,
}

/// The transition table. An event that is meaningless in the current state
/// changes nothing.
pub open spec fn spec_lifecycle_step(s: RingState, e: RingEvent) -> (RingState, RingAction) {
    match (s, e) {
        (RingState::Uninitialized, RingEvent::SetupSucceeded) => (
            RingState::Negotiated,
            RingAction::MapRegions,
        ),
        (RingState::Uninitialized, RingEvent::SetupFailed) => (RingState::Closed, RingAction::Idle),
        (RingState::Negotiated, RingEvent::MapSucceeded) => (
            RingState::Mapped,
            RingAction::StartWorkers,
        ),
        (RingState::Negotiated, RingEvent::MapFailed) => (
            RingState::Closed,
            RingAction::ReleaseResources,
        ),
        (RingState::Mapped, RingEvent::WorkersStarted) => (RingState::Running, RingAction::Idle),
        (RingState::Running, RingEvent::CancelRequested) => (
            RingState::Draining,
            RingAction::StopAccepting,
        ),
        (RingState::Draining, RingEvent::Drained) => (
            RingState::Closed,
            RingAction::ReleaseResources,
        ),
        _ => (s, RingAction::Idle),
    }
}

/// Executes one lifecycle transition, exactly as the table states it.
pub fn lifecycle_step(s: RingState, e: RingEvent) -> (r: (RingState, RingAction))
    ensures
        r == spec_lifecycle_step(s, e),
{
    match (s, e) {
        (RingState::Uninitialized, RingEvent::SetupSucceeded) => (
            RingState::Negotiated,
            RingAction::MapRegions,
        ),
        (RingState::Uninitialized, RingEvent::SetupFailed) => (RingState::Closed, RingAction::Idle),
        (RingState::Negotiated, RingEvent::MapSucceeded) => (
            RingState::Mapped,
            RingAction::StartWorkers,
        ),
        (RingState::Negotiated, RingEvent::MapFailed) => (
            RingState::Closed,
            RingAction::ReleaseResources,
        ),
        (RingState::Mapped, RingEvent::WorkersStarted) => (RingState::Running, RingAction::Idle),
        (RingState::Running, RingEvent::CancelRequested) => (
            RingState::Draining,
            RingAction::StopAccepting,
        ),
        (RingState::Draining, RingEvent::Drained) => (
            RingState::Closed,
            RingAction::ReleaseResources,
        ),
        _ => (s, RingAction::Idle),
    }
}

/// A mapping failure never starts a worker task, and from the negotiated
/// state it closes the ring and releases everything already acquired.
pub proof fn lemma_map_failure_starts_no_workers(s: RingState)
    ensures
        spec_lifecycle_step(s, RingEvent::MapFailed).1 != RingAction::StartWorkers,
        spec_lifecycle_step(RingState::Negotiated, RingEvent::MapFailed) == (
            RingState::Closed,
            RingAction::ReleaseResources,
        ),
{
}

/// The workers are started by exactly one transition: a successful mapping
/// of a freshly negotiated ring.
pub proof fn lemma_workers_start_only_after_mapping(s: RingState, e: RingEvent)
    ensures
        spec_lifecycle_step(s, e).1 == RingAction::StartWorkers ==> s == RingState::Negotiated
            && e == RingEvent::MapSucceeded,
{
}

} // verus!
