//! The bounded hand-off channel between the producer and the renderer.
//!
//! The channel is tokio's bounded `mpsc`. The producer's side waits when the
//! buffer is full; the renderer's side never waits: it takes what is there
//! and moves on.

use crate::snapshot::latest;
use vstd::prelude::*;

verus! {

/// The number of snapshots the channel buffers before the producer has to
/// wait.
pub const CHANNEL_CAPACITY: usize = 8;

/// tokio's `mpsc::Receiver`, the receiving end of the channel. Nothing inside
/// it is visible to the proofs.
#[verifier::external_type_specification]
#[verifier::external_body]
#[verifier::reject_recursive_types(T)]
pub struct ExReceiver<T>(tokio::sync::mpsc::Receiver<T>);

/// tokio's `mpsc::Sender`, the sending end of the channel. Nothing inside it
/// is visible to the proofs.
#[verifier::external_type_specification]
#[verifier::external_body]
#[verifier::reject_recursive_types(T)]
pub struct ExSender<T>(tokio::sync::mpsc::Sender<T>);

/// What one attempt to take a snapshot from the channel brought, without
/// waiting.
pub enum Received<D> {
    /// The oldest waiting snapshot.
    Snapshot(D),
    /// Nothing is waiting, but a producer is still there.
    Empty,
    /// Nothing is waiting and no producer is left.
    Closed,
}

/// Why a drain stopped.
#[derive(Clone, Copy, Debug, PartialEq, Eq, Structural)]
pub enum DrainEnd {
    /// The channel had nothing more to give.
    Empty,
    /// The channel had nothing more to give and its producer is gone.
    Closed,
    /// As many snapshots were taken as the caller allowed.
    Limit,
}

/// What one drain took from the channel.
pub struct DrainReport<D> {
    /// How many snapshots were taken.
    pub taken: usize,
    /// Why the drain stopped.
    pub end: DrainEnd,
    /// The snapshots taken, oldest first.
    pub log: Ghost<Seq<D>>,
}

/// Calls tokio's `mpsc::channel`, which panics on a capacity of zero and on
/// one above an eighth of `usize::MAX`. Nothing is claimed of the two ends.
#[verifier::external_body]
fn bounded_channel<D>(capacity: usize) -> (ends: (
    tokio::sync::mpsc::Sender<D>,
    tokio::sync::mpsc::Receiver<D>,
))
    requires
        0 < capacity <= usize::MAX / 8,
{
    tokio::sync::mpsc::channel(capacity)
}

/// Calls tokio's `Receiver::try_recv` and tells its three outcomes apart.
/// Nothing is claimed of which one comes: that depends on what the sending
/// side has done by now.
#[verifier::external_body]
fn try_take<D>(rx: &mut tokio::sync::mpsc::Receiver<D>) -> (received: Received<D>) {
    match rx.try_recv() {
        Ok(snapshot) => Received::Snapshot(snapshot),
        Err(tokio::sync::mpsc::error::TryRecvError::Empty) => Received::Empty,
        Err(tokio::sync::mpsc::error::TryRecvError::Disconnected) => Received::Closed,
    }
}

/// Whether a channel of this capacity can be opened.
pub open spec fn capacity_ok(capacity: usize) -> bool {
    0 < capacity <= usize::MAX / 8
}

/// Opens a bounded channel that buffers `capacity` snapshots, or returns
/// `None` for a capacity the channel cannot have.
pub fn open_channel<D>(capacity: usize) -> (ends: Option<
    (tokio::sync::mpsc::Sender<D>, tokio::sync::mpsc::Receiver<D>),
>)
    ensures
        ends is Some <==> capacity_ok(capacity),
{
    if 0 < capacity && capacity <= usize::MAX / 8 {
        Some(bounded_channel(capacity))
    } else {
        None
    }
}

/// Why a drain goes no further after this attempt, if it does not.
pub open spec fn end_of<D>(received: Received<D>) -> Option<DrainEnd> {
    match received {
        Received::Snapshot(_) => None,
        Received::Empty => Some(DrainEnd::Empty),
        Received::Closed => Some(DrainEnd::Closed),
    }
}

/// Takes in what one attempt brought: a snapshot replaces the held dataset
/// whole, and the drain goes on; anything else leaves it untouched and ends
/// the drain.
pub fn take_in<D>(held: &mut D, received: Received<D>) -> (end: Option<DrainEnd>)
    ensures
        end == end_of(received),
        *final(held) == match received {
            Received::Snapshot(newer) => newer,
            _ => *old(held),
        },
{
    match received {
        Received::Snapshot(newer) => {
            *held = newer;
            None
        },
        Received::Empty => Some(DrainEnd::Empty),
        Received::Closed => Some(DrainEnd::Closed),
    }
}

/// Takes snapshots from the channel without waiting, at most `limit` of them,
/// and leaves the newest in `held`. When nothing is waiting, `held` stays as
/// it is. A drain that stops at the limit leaves the rest to the next one, so
/// a producer that never pauses cannot keep the caller from drawing.
pub fn drain_latest<D>(
    rx: &mut tokio::sync::mpsc::Receiver<D>,
    held: &mut D,
    limit: usize,
) -> (report: DrainReport<D>)
    ensures
        *final(held) == latest(*old(held), report.log@),
        report.taken == report.log@.len(),
        report.taken <= limit,
        report.end is Limit <==> report.taken == limit,
{
    let mut taken: usize = 0;
    let mut end = DrainEnd::Limit;
    let ghost mut log: Seq<D> = Seq::empty();
    while taken < limit
        invariant_except_break
            end is Limit,
        invariant
            taken == log.len(),
            taken <= limit,
            *held == latest(*old(held), log),
        ensures
            taken == log.len(),
            taken <= limit,
            *held == latest(*old(held), log),
            end is Limit <==> taken == limit,
        decreases limit - taken,
    {
        let received = try_take(rx);
        proof {
            if received is Snapshot {
                log = log.push(received->Snapshot_0);
            }
        }
        match take_in(held, received) {
            None => {
                taken = taken + 1;
            },
            Some(reason) => {
                end = reason;
                break ;
            },
        }
    }
    DrainReport { taken, end, log: Ghost(log) }
}

} // verus!
