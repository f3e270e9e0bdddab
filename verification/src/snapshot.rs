//! What the renderer holds, as a function of what has arrived.
//!
//! The renderer owns exactly one dataset. A tick of the render loop receives a
//! burst of zero or more snapshots, oldest first, and keeps the last of them.

use vstd::prelude::*;

verus! {

/// The dataset held after a tick that received `burst` while holding `held`:
/// the newest snapshot of the burst, or `held` itself when nothing came.
pub open spec fn latest<D>(held: D, burst: Seq<D>) -> D {
    if burst.len() == 0 {
        held
    } else {
        burst.last()
    }
}

/// Everything received in the first `ticks` bursts, in order of arrival.
pub open spec fn received_through<D>(bursts: Seq<Seq<D>>, ticks: nat) -> Seq<D>
    decreases ticks,
{
    if ticks == 0 || ticks > bursts.len() {
        Seq::empty()
    } else {
        received_through(bursts, (ticks - 1) as nat) + bursts[ticks - 1]
    }
}

/// The dataset held after the first `ticks` bursts, starting from `initial`.
pub open spec fn held_after<D>(initial: D, bursts: Seq<Seq<D>>, ticks: nat) -> D
    decreases ticks,
{
    if ticks == 0 || ticks > bursts.len() {
        initial
    } else {
        latest(held_after(initial, bursts, (ticks - 1) as nat), bursts[ticks - 1])
    }
}

/// The dataset the renderer would show if it ticked now: the newest of what
/// is pending, or what it already holds.
pub open spec fn visible<D>(held: D, pending: Seq<D>) -> D {
    latest(held, pending)
}

/// Drain-to-latest: when one or more snapshots are published before a tick,
/// the tick leaves the renderer with the last one published, whatever it held
/// and whatever was still waiting in the channel.
pub proof fn lemma_drain_to_latest<D>(held: D, backlog: Seq<D>, published: Seq<D>)
    requires
        published.len() >= 1,
    ensures
        latest(held, backlog + published) == published.last(),
{
}

/// No update on empty: a tick that receives nothing leaves the held dataset
/// as it was.
pub proof fn lemma_no_update_on_empty<D>(held: D)
    ensures
        latest(held, Seq::<D>::empty()) == held,
{
}

/// Draining tick by tick holds the same dataset as draining everything at
/// once: after any number of ticks the renderer holds the newest snapshot
/// received so far.
pub proof fn lemma_held_is_newest_received<D>(initial: D, bursts: Seq<Seq<D>>, ticks: nat)
    requires
        ticks <= bursts.len(),
    ensures
        held_after(initial, bursts, ticks) == latest(initial, received_through(bursts, ticks)),
    decreases ticks,
{
    if ticks > 0 {
        lemma_held_is_newest_received(initial, bursts, (ticks - 1) as nat);
    }
}

/// What has been received by an earlier tick is a prefix of what has been
/// received by a later one.
pub proof fn lemma_received_grows<D>(bursts: Seq<Seq<D>>, earlier: nat, later: nat)
    requires
        earlier <= later <= bursts.len(),
    ensures
        received_through(bursts, earlier).is_prefix_of(received_through(bursts, later)),
    decreases later,
{
    if earlier < later {
        lemma_received_grows(bursts, earlier, (later - 1) as nat);
    }
}

/// Ordering: snapshots are observed in the order they were published. The
/// channel hands snapshots over in the order they were sent, so the `i`-th
/// snapshot published is the `i`-th received. If the renderer holds the `i`-th
/// after tick `s` and the `j`-th after tick `t`, and `i` comes before `j`,
/// then `s` came before `t`.
pub proof fn lemma_observation_order<D>(
    initial: D,
    bursts: Seq<Seq<D>>,
    s: nat,
    t: nat,
    i: int,
    j: int,
)
    requires
        s <= bursts.len(),
        t <= bursts.len(),
        0 <= i < j,
        received_through(bursts, s).len() == i + 1,
        received_through(bursts, t).len() == j + 1,
    ensures
        held_after(initial, bursts, s) == received_through(bursts, bursts.len())[i],
        held_after(initial, bursts, t) == received_through(bursts, bursts.len())[j],
        s < t,
{
    if t <= s {
        lemma_received_grows(bursts, t, s);
    }
    lemma_held_is_newest_received(initial, bursts, s);
    lemma_held_is_newest_received(initial, bursts, t);
    lemma_received_grows(bursts, s, bursts.len());
    lemma_received_grows(bursts, t, bursts.len());
}

} // verus!
