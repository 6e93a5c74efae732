//! The per-channel event machine, and the law that a channel never has two
//! overlapping in-flight exchanges.
//!
//! Every observable thing that can happen to one channel — inbound bytes, a
//! backend acceptance, a keepalive fire, a presence note, a backend reply, a
//! hard timeout — is an event, and each executable adapter method is pinned
//! to the corresponding spec transition. Folding the transitions over an
//! arbitrary event trace therefore covers every behaviour of the executable
//! code, and the laws proved here hold of all of them.

use vstd::prelude::*;

use crate::adapter::AdapterView;
use crate::adapter::spec_cancel;
use crate::adapter::spec_deliver;
use crate::adapter::spec_feed;
use crate::adapter::spec_fire;
use crate::adapter::spec_note_presence;
use crate::adapter::spec_rescale;
use crate::adapter::spec_start;
use crate::adapter::spec_timeout;

verus! {

/// One observable event on one channel.
pub ghost enum ChannelEvent {
    /// Inbound bytes arrived from the transport interrupt.
    Feed(Seq<u8>),
    /// The backend dispatch slot accepted the parked frame. The slot submits
    /// only for an Idle channel, so the event is a no-op on a busy one.
    Accept { now: int, period: int, deadline: int },
    /// The keepalive timer fired.
    Fire { now: int, presence: bool },
    /// The backend's user-presence activity changed.
    Presence(bool),
    /// The backend delivered a reply.
    Deliver(Seq<u8>),
    /// The hard protocol deadline was checked.
    Timeout(int),
    /// The exchange was cancelled unconditionally (field removed).
    Cancel,
    /// The clock rate changed and the cycle-domain timer was rescaled.
    Rescale { now: int, old_rate: int, new_rate: int },
}

/// The channel's transition relation, one event at a time.
pub open spec fn channel_step(v: AdapterView, e: ChannelEvent) -> AdapterView {
    match e {
        ChannelEvent::Feed(bytes) => spec_feed(v, bytes),
        ChannelEvent::Accept { now, period, deadline } => if !v.in_flight() {
            spec_start(v, now, period, deadline)
        } else {
            v
        },
        ChannelEvent::Fire { now, presence } => spec_fire(v, now, presence),
        ChannelEvent::Presence(waiting) => spec_note_presence(v, waiting),
        ChannelEvent::Deliver(frame) => spec_deliver(v, frame),
        ChannelEvent::Timeout(now) => spec_timeout(v, now),
        ChannelEvent::Cancel => spec_cancel(v),
        ChannelEvent::Rescale { now, old_rate, new_rate } => spec_rescale(v, now, old_rate, new_rate),
    }
}

/// The channel after a whole trace of events.
pub open spec fn run(v: AdapterView, es: Seq<ChannelEvent>) -> AdapterView
    decreases es.len(),
{
    if es.len() == 0 {
        v
    } else {
        run(channel_step(v, es[0]), es.skip(1))
    }
}

/// Number of steps of the trace that open an in-flight window
/// (Idle before the step, in flight after it).
pub open spec fn window_opens(v: AdapterView, es: Seq<ChannelEvent>) -> nat
    decreases es.len(),
{
    if es.len() == 0 {
        0
    } else {
        let v1 = channel_step(v, es[0]);
        (if !v.in_flight() && v1.in_flight() {
            1nat
        } else {
            0nat
        }) + window_opens(v1, es.skip(1))
    }
}

/// Number of steps of the trace that close an in-flight window
/// (in flight before the step, Idle after it).
pub open spec fn window_closes(v: AdapterView, es: Seq<ChannelEvent>) -> nat
    decreases es.len(),
{
    if es.len() == 0 {
        0
    } else {
        let v1 = channel_step(v, es[0]);
        (if v.in_flight() && !v1.in_flight() {
            1nat
        } else {
            0nat
        }) + window_closes(v1, es.skip(1))
    }
}

/// Every event preserves the adapter's structural invariant (the timer is
/// armed, and a hard deadline is live, exactly while an exchange is in
/// flight).
pub proof fn lemma_step_preserves_wf(v: AdapterView, e: ChannelEvent)
    requires
        v.wf(),
    ensures
        channel_step(v, e).wf(),
{
}

/// Bookkeeping balance: along any trace, the number of window openings minus
/// the number of window closings equals the change of the in-flight flag.
pub proof fn lemma_window_balance(v: AdapterView, es: Seq<ChannelEvent>)
    ensures
        window_opens(v, es) as int - window_closes(v, es) as int == (if run(v, es).in_flight() {
            1int
        } else {
            0int
        }) - (if v.in_flight() {
            1int
        } else {
            0int
        }),
    decreases es.len(),
{
    if es.len() > 0 {
        lemma_window_balance(channel_step(v, es[0]), es.skip(1));
    }
}

/// At-most-one-in-flight: starting from an Idle channel, no prefix of any
/// event trace — feeds, accepts, fires, replies, timeouts, in any order —
/// opens a second in-flight window before the first one has closed: the
/// openings never lead the closings by more than one, so two AwaitingBackend
/// windows on one channel can never overlap.
pub proof fn lemma_at_most_one_in_flight(v: AdapterView, es: Seq<ChannelEvent>)
    requires
        !v.in_flight(),
    ensures
        forall|k: int| 0 <= k <= es.len()
            ==> #[trigger] window_opens(v, es.take(k)) <= window_closes(v, es.take(k)) + 1,
{
    assert forall|k: int| 0 <= k <= es.len() implies #[trigger] window_opens(v, es.take(k))
        <= window_closes(v, es.take(k)) + 1 by {
        lemma_window_balance(v, es.take(k));
    }
}

} // verus!
