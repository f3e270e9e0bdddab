//! The snapshot producer.
//!
//! The producer runs beside the render loop: it computes a dataset, publishes
//! it on the channel, sleeps for the period, and starts over. A computation
//! that fails publishes nothing; the sleep that follows is all the backoff
//! there is. The caller computes, sends and sleeps; the machine here says
//! which of the three comes next, and when to stop.

use crate::fetch::FetchError;
use crate::snapshot::visible;
use vstd::prelude::*;

verus! {

/// The time between two computations, in seconds.
pub const PRODUCER_PERIOD_SECS: u64 = 2;

/// Where the producer stands in its cycle.
#[derive(Clone, Copy, Debug, PartialEq, Eq, Structural)]
pub enum ProducerPhase {
    /// About to compute a dataset.
    Computing,
    /// About to publish the dataset just computed.
    Publishing,
    /// About to sleep until the next cycle.
    Sleeping,
    /// Cancelled, or left without a receiver.
    Stopped,
}

/// What the caller reports back to the producer.
#[derive(Clone, Copy, Debug, PartialEq, Eq, Structural)]
pub enum ProducerEvent {
    /// The computation gave a dataset.
    Computed,
    /// The computation failed.
    ComputeFailed(FetchError),
    /// The dataset is in the channel.
    Published,
    /// The dataset could not be sent: the receiving side is gone.
    ReceiverGone,
    /// The sleep is over.
    Woke,
    /// The program is quitting.
    Cancelled,
}

/// What the caller is to do next for the producer.
#[derive(Clone, Copy, Debug, PartialEq, Eq, Structural)]
pub enum ProducerAction {
    /// Compute a dataset.
    Compute,
    /// Send the dataset, waiting for room in the channel if it is full.
    Publish,
    /// Sleep for this many seconds.
    Sleep(u64),
    /// End the task.
    Stop,
}

/// The phase that follows `phase` on `event`. Cancelling stops the producer
/// wherever it stands; an event that does not answer the action of the phase
/// changes nothing.
pub open spec fn producer_next(phase: ProducerPhase, event: ProducerEvent) -> ProducerPhase {
    match (phase, event) {
        (_, ProducerEvent::Cancelled) => ProducerPhase::Stopped,
        (ProducerPhase::Computing, ProducerEvent::Computed) => ProducerPhase::Publishing,
        (ProducerPhase::Computing, ProducerEvent::ComputeFailed(_)) => ProducerPhase::Sleeping,
        (ProducerPhase::Publishing, ProducerEvent::Published) => ProducerPhase::Sleeping,
        (ProducerPhase::Publishing, ProducerEvent::ReceiverGone) => ProducerPhase::Stopped,
        (ProducerPhase::Sleeping, ProducerEvent::Woke) => ProducerPhase::Computing,
        _ => phase,
    }
}

/// The action a phase of the producer asks for.
pub open spec fn producer_action_of(phase: ProducerPhase) -> ProducerAction {
    match phase {
        ProducerPhase::Computing => ProducerAction::Compute,
        ProducerPhase::Publishing => ProducerAction::Publish,
        ProducerPhase::Sleeping => ProducerAction::Sleep(PRODUCER_PERIOD_SECS),
        ProducerPhase::Stopped => ProducerAction::Stop,
    }
}

/// The event that the outcome of a computation amounts to.
pub open spec fn event_of<D>(outcome: Result<D, FetchError>) -> ProducerEvent {
    match outcome {
        Ok(_) => ProducerEvent::Computed,
        Err(error) => ProducerEvent::ComputeFailed(error),
    }
}

/// What a cycle with this outcome puts on the channel: the dataset, or
/// nothing.
pub open spec fn published_by<D>(outcome: Result<D, FetchError>) -> Seq<D> {
    match outcome {
        Ok(dataset) => seq![dataset],
        Err(_) => Seq::empty(),
    }
}

/// The phase that follows `phase` on `event`.
pub fn producer_advance(phase: ProducerPhase, event: ProducerEvent) -> (next: ProducerPhase)
    ensures
        next == producer_next(phase, event),
{
    match (phase, event) {
        (_, ProducerEvent::Cancelled) => ProducerPhase::Stopped,
        (ProducerPhase::Computing, ProducerEvent::Computed) => ProducerPhase::Publishing,
        (ProducerPhase::Computing, ProducerEvent::ComputeFailed(_)) => ProducerPhase::Sleeping,
        (ProducerPhase::Publishing, ProducerEvent::Published) => ProducerPhase::Sleeping,
        (ProducerPhase::Publishing, ProducerEvent::ReceiverGone) => ProducerPhase::Stopped,
        (ProducerPhase::Sleeping, ProducerEvent::Woke) => ProducerPhase::Computing,
        _ => phase,
    }
}

/// The action a phase of the producer asks for.
pub fn producer_action(phase: ProducerPhase) -> (action: ProducerAction)
    ensures
        action == producer_action_of(phase),
{
    match phase {
        ProducerPhase::Computing => ProducerAction::Compute,
        ProducerPhase::Publishing => ProducerAction::Publish,
        ProducerPhase::Sleeping => ProducerAction::Sleep(PRODUCER_PERIOD_SECS),
        ProducerPhase::Stopped => ProducerAction::Stop,
    }
}

/// Takes in the outcome of a computation. While computing, a dataset is
/// handed back to be published and a failure is skipped: the producer goes to
/// sleep with nothing to publish. In any other phase the outcome is dropped.
pub fn on_computed<D>(phase: ProducerPhase, outcome: Result<D, FetchError>) -> (next: (
    ProducerPhase,
    Option<D>,
))
    ensures
        next.0 == producer_next(phase, event_of(outcome)),
        next.1 == match outcome {
            Ok(dataset) if phase is Computing => Some(dataset),
            _ => None,
        },
{
    match phase {
        ProducerPhase::Computing => match outcome {
            Ok(dataset) => (ProducerPhase::Publishing, Some(dataset)),
            Err(_) => (ProducerPhase::Sleeping, None),
        },
        _ => (phase, None),
    }
}

/// Failure isolation: a cycle whose computation fails puts nothing on the
/// channel, so the dataset that the renderer shows after the cycle is the one
/// it showed before.
pub proof fn lemma_failure_isolation<D>(held: D, pending: Seq<D>, outcome: Result<D, FetchError>)
    requires
        outcome is Err,
    ensures
        published_by(outcome) == Seq::<D>::empty(),
        visible(held, pending + published_by(outcome)) == visible(held, pending),
        producer_next(ProducerPhase::Computing, event_of(outcome)) == ProducerPhase::Sleeping,
{
    assert(pending + Seq::<D>::empty() == pending);
}

/// A cycle whose computation succeeds publishes exactly its dataset, which is
/// what the renderer shows once it has ticked.
pub proof fn lemma_success_becomes_visible<D>(held: D, pending: Seq<D>, dataset: D)
    ensures
        published_by(Ok::<D, FetchError>(dataset)) == seq![dataset],
        visible(held, pending + published_by(Ok::<D, FetchError>(dataset))) == dataset,
{
}

/// No retry storm: the producer starts a computation only after a sleep.
pub proof fn lemma_compute_follows_sleep(phase: ProducerPhase, event: ProducerEvent)
    requires
        !(phase is Computing),
        producer_next(phase, event) is Computing,
    ensures
        phase is Sleeping,
        event is Woke,
{
}

/// A stopped producer stays stopped.
pub proof fn lemma_stopped_stays(event: ProducerEvent)
    ensures
        producer_next(ProducerPhase::Stopped, event) == ProducerPhase::Stopped,
{
}

} // verus!
