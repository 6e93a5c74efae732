//! Per-channel transport adapter: buffers partial inbound frames, holds the
//! outbound frame queue, tracks the processing state of the one in-flight
//! exchange, and owns the keepalive timer and hard protocol deadline for
//! that exchange.
//!
//! Every state change of an adapter is pinned by a spec-level transition
//! function (`spec_feed`, `spec_start`, `spec_fire`, `spec_deliver`,
//! `spec_timeout`), so that system-wide laws can be proved once over the
//! abstract transitions and carried by every executable caller.

use vstd::prelude::*;

use crate::Channel;
use crate::ProcessingState;

verus! {

/// Result of feeding inbound bytes to an adapter.
#[derive(Debug)]
pub enum FrameStatus {
    /// More bytes are needed before a frame is complete.
    Incomplete,
    /// A full frame was assembled; its payload is returned.
    Complete(Vec<u8>),
    /// The bytes were rejected; the channel's processing state is unchanged.
    Malformed,
}

/// Reason advertised inside a wait-extension frame.
#[derive(Clone, Copy, Debug, PartialEq, Eq, Structural)]
pub enum ExtensionReason {
    /// The backend is computing.
    Busy,
    /// The backend is blocked on a physical user-presence gesture.
    WaitingForPresence,
}

/// A frame queued for transmission to the host or reader.
#[derive(Debug)]
pub enum OutboundFrame {
    /// A completed backend reply.
    Response(Vec<u8>),
    /// A protocol-level "still working, wait longer" message.
    WaitExtension(ExtensionReason),
}

/// Ghost image of an outbound frame.
pub ghost enum OutFrame {
    Response(Seq<u8>),
    WaitExtension(ExtensionReason),
}

/// Per-channel follow-up timer. `next_fire` and `period` are in the ticks of
/// whatever clock domain drives the channel (milliseconds for the USB
/// channels, microcontroller cycles for the contactless channel).
#[derive(Clone, Copy, Debug)]
pub struct KeepaliveTimer {
    /// Whether a fire is scheduled.
    pub armed: bool,
    /// Absolute instant of the next scheduled fire.
    pub next_fire: u64,
    /// Interval between fires.
    pub period: u64,
}

/// Ghost image of a keepalive timer.
#[verifier::ext_equal]
pub ghost struct TimerView {
    pub armed: bool,
    pub next_fire: int,
    pub period: int,
}

impl View for KeepaliveTimer {
    type V = TimerView;

    open spec fn view(&self) -> TimerView {
        TimerView { armed: self.armed, next_fire: self.next_fire as int, period: self.period as int }
    }
}

/// Ghost image of a transport adapter.
#[verifier::ext_equal]
pub ghost struct AdapterView {
    pub channel: Channel,
    pub state: ProcessingState,
    /// Bytes of the inbound frame under assembly, header included; a frame
    /// that has completed but has not been handed to the backend yet is
    /// parked here in full.
    pub buffered: Seq<u8>,
    pub outbound: Seq<OutFrame>,
    pub timer: TimerView,
    pub deadline: Option<int>,
}

impl AdapterView {
    /// Structural invariant: the timer is armed if and only if an exchange is
    /// in flight, and a live hard deadline accompanies it.
    pub open spec fn wf(self) -> bool {
        &&& (self.timer.armed <==> self.state != ProcessingState::Idle)
        &&& (self.deadline is Some <==> self.state != ProcessingState::Idle)
    }

    /// Whether an exchange is in flight on this channel.
    pub open spec fn in_flight(self) -> bool {
        self.state != ProcessingState::Idle
    }
}

/// The inbound framing discipline: the first buffered byte declares the
/// payload length (1 to 255), and the frame is complete when exactly that
/// many payload bytes follow.
pub open spec fn frame_complete(total: Seq<u8>) -> bool {
    total.len() >= 1 && total[0] != 0 && total.len() == total[0] as int + 1
}

/// Bytes that can no longer become one well-formed frame: a zero length
/// declaration, or more bytes than one frame can hold.
pub open spec fn frame_bad(total: Seq<u8>) -> bool {
    total.len() >= 1 && (total[0] == 0 || total.len() > total[0] as int + 1)
}

/// Payload of a complete frame: everything after the length header.
pub open spec fn frame_payload(total: Seq<u8>) -> Seq<u8> {
    total.skip(1)
}

/// Ghost image of a `FrameStatus`.
pub ghost enum FeedOutcome {
    Incomplete,
    Complete(Seq<u8>),
    Malformed,
}

/// What `feed` reports for the given adapter state and inbound bytes.
pub open spec fn spec_feed_outcome(v: AdapterView, bytes: Seq<u8>) -> FeedOutcome {
    if v.state != ProcessingState::Idle {
        FeedOutcome::Malformed
    } else if frame_complete(v.buffered) {
        if bytes.len() == 0 {
            FeedOutcome::Incomplete
        } else {
            FeedOutcome::Malformed
        }
    } else if frame_bad(v.buffered + bytes) {
        FeedOutcome::Malformed
    } else if frame_complete(v.buffered + bytes) {
        FeedOutcome::Complete(frame_payload(v.buffered + bytes))
    } else {
        FeedOutcome::Incomplete
    }
}

/// How `feed` changes the adapter. Only the inbound buffer ever moves:
/// rejected bytes are dropped (a parked complete frame is kept), a completed
/// frame is parked in the buffer until the poll loop hands it to the backend.
pub open spec fn spec_feed(v: AdapterView, bytes: Seq<u8>) -> AdapterView {
    if v.state != ProcessingState::Idle {
        v
    } else if frame_complete(v.buffered) {
        v
    } else if frame_bad(v.buffered + bytes) {
        AdapterView { buffered: Seq::<u8>::empty(), ..v }
    } else {
        AdapterView { buffered: v.buffered + bytes, ..v }
    }
}

/// How `start_processing` changes the adapter: the exchange enters
/// AwaitingBackend, and in the same atomic step the keepalive timer is armed
/// and the hard protocol deadline recorded.
pub open spec fn spec_start(v: AdapterView, now: int, period: int, deadline: int) -> AdapterView {
    AdapterView {
        state: ProcessingState::AwaitingBackend,
        buffered: Seq::<u8>::empty(),
        timer: TimerView { armed: true, next_fire: now + period, period },
        deadline: Some(deadline),
        ..v
    }
}

/// How a keepalive fire changes the adapter: while an exchange is in flight a
/// wait-extension frame is emitted and the timer re-armed one period ahead;
/// once the channel is back to Idle a stray fire is a harmless no-op.
pub open spec fn spec_fire(v: AdapterView, now: int, presence: bool) -> AdapterView {
    if v.state != ProcessingState::Idle {
        AdapterView {
            outbound: v.outbound.push(OutFrame::WaitExtension(extension_reason(presence))),
            timer: TimerView { armed: true, next_fire: now + v.timer.period, period: v.timer.period },
            ..v
        }
    } else {
        v
    }
}

/// The advertised reason of a wait extension, picked from the user-presence
/// flag at the moment the timer fires.
pub open spec fn extension_reason(presence: bool) -> ExtensionReason {
    if presence {
        ExtensionReason::WaitingForPresence
    } else {
        ExtensionReason::Busy
    }
}

/// How `deliver_response` changes the adapter: a reply to a live exchange is
/// queued outbound and the channel returns to Idle, cancelling the keepalive
/// timer and the deadline in the same step; a reply arriving after the
/// exchange was torn down (hard timeout) is discarded.
pub open spec fn spec_deliver(v: AdapterView, frame: Seq<u8>) -> AdapterView {
    if v.state != ProcessingState::Idle {
        AdapterView {
            state: ProcessingState::Idle,
            outbound: v.outbound.push(OutFrame::Response(frame)),
            timer: TimerView { armed: false, ..v.timer },
            deadline: None,
            ..v
        }
    } else {
        v
    }
}

/// Whether a hard timeout fires at instant `now`.
pub open spec fn spec_timeout_fires(v: AdapterView, now: int) -> bool {
    v.deadline matches Some(d) && now >= d
}

/// How `poll_timeout` changes the adapter: when the deadline has passed, the
/// in-flight exchange is dropped and the channel forced back to Idle, with
/// the keepalive timer cancelled in the same step.
pub open spec fn spec_timeout(v: AdapterView, now: int) -> AdapterView {
    if spec_timeout_fires(v, now) {
        AdapterView {
            state: ProcessingState::Idle,
            timer: TimerView { armed: false, ..v.timer },
            deadline: None,
            ..v
        }
    } else {
        v
    }
}

/// How an unconditional cancellation (contactless field removed mid-exchange)
/// changes the adapter: the in-flight exchange is dropped and the channel
/// forced back to Idle, with the keepalive timer cancelled in the same step.
pub open spec fn spec_cancel(v: AdapterView) -> AdapterView {
    if v.state != ProcessingState::Idle {
        AdapterView {
            state: ProcessingState::Idle,
            timer: TimerView { armed: false, ..v.timer },
            deadline: None,
            ..v
        }
    } else {
        v
    }
}

/// How a clock-rate change rescales the adapter's cycle-domain timer: the
/// remaining time to the next fire and the period are both re-expressed in
/// cycles of the new rate, so the wall-clock schedule is preserved.
pub open spec fn spec_rescale(v: AdapterView, now: int, old_rate: int, new_rate: int) -> AdapterView {
    if v.timer.armed {
        AdapterView {
            timer: TimerView {
                armed: true,
                next_fire: now + crate::power::spec_rebase(v.timer.next_fire - now, old_rate, new_rate),
                period: crate::power::spec_rebase(v.timer.period, old_rate, new_rate),
            },
            ..v
        }
    } else {
        v
    }
}

/// How a user-presence note changes the adapter: while an exchange is in
/// flight the state mirrors whether the backend is blocked on a gesture.
pub open spec fn spec_note_presence(v: AdapterView, waiting: bool) -> AdapterView {
    if v.state != ProcessingState::Idle {
        AdapterView {
            state: if waiting {
                ProcessingState::AwaitingUserPresence
            } else {
                ProcessingState::AwaitingBackend
            },
            ..v
        }
    } else {
        v
    }
}

/// A transport adapter for one channel.
pub struct TransportAdapter {
    channel: Channel,
    state: ProcessingState,
    inbound: Vec<u8>,
    outbound: Vec<OutboundFrame>,
    timer: KeepaliveTimer,
    deadline: Option<u64>,
}

pub open spec fn out_frame_view(f: OutboundFrame) -> OutFrame {
    match f {
        OutboundFrame::Response(v) => OutFrame::Response(v@),
        OutboundFrame::WaitExtension(r) => OutFrame::WaitExtension(r),
    }
}

pub open spec fn outbound_views(q: Seq<OutboundFrame>) -> Seq<OutFrame> {
    q.map_values(|f: OutboundFrame| out_frame_view(f))
}

impl View for TransportAdapter {
    type V = AdapterView;

    closed spec fn view(&self) -> AdapterView {
        AdapterView {
            channel: self.channel,
            state: self.state,
            buffered: self.inbound@,
            outbound: outbound_views(self.outbound@),
            timer: self.timer@,
            deadline: match self.deadline {
                Some(d) => Some(d as int),
                None => None,
            },
        }
    }
}

impl TransportAdapter {
    /// A fresh, idle adapter for the given channel.
    pub fn new(channel: Channel) -> (r: TransportAdapter)
        ensures
            r@ == (AdapterView {
                channel,
                state: ProcessingState::Idle,
                buffered: Seq::<u8>::empty(),
                outbound: Seq::<OutFrame>::empty(),
                timer: TimerView { armed: false, next_fire: 0, period: 0 },
                deadline: None::<int>,
            }),
            r@.wf(),
    {
        let r = TransportAdapter {
            channel,
            state: ProcessingState::Idle,
            inbound: Vec::new(),
            outbound: Vec::new(),
            timer: KeepaliveTimer { armed: false, next_fire: 0, period: 0 },
            deadline: None,
        };
        proof {
            assert(r@.buffered =~= Seq::<u8>::empty());
            assert(r@.outbound =~= Seq::<OutFrame>::empty());
            assert(r@ =~= (AdapterView {
                channel,
                state: ProcessingState::Idle,
                buffered: Seq::<u8>::empty(),
                outbound: Seq::<OutFrame>::empty(),
                timer: TimerView { armed: false, next_fire: 0, period: 0 },
                deadline: None::<int>,
            }));
        }
        r
    }

    /// The channel this adapter serves.
    pub fn channel(&self) -> (c: Channel)
        ensures
            c == self@.channel,
    {
        self.channel
    }

    /// The current processing state.
    pub fn state(&self) -> (s: ProcessingState)
        ensures
            s == self@.state,
    {
        self.state
    }

    /// Number of frames queued outbound.
    pub fn outbound_len(&self) -> (n: usize)
        ensures
            n == self@.outbound.len(),
    {
        self.outbound.len()
    }

    /// Snapshot of the keepalive timer.
    pub fn timer_snapshot(&self) -> (t: KeepaliveTimer)
        ensures
            t@ == self@.timer,
    {
        self.timer
    }

    /// Number of inbound bytes buffered (header included).
    pub fn buffered_len(&self) -> (n: usize)
        ensures
            n == self@.buffered.len(),
    {
        self.inbound.len()
    }

    /// Whether a complete inbound frame is parked, waiting for the backend.
    pub fn has_complete_frame(&self) -> (b: bool)
        ensures
            b == frame_complete(self@.buffered),
    {
        self.inbound.len() >= 1 && self.inbound[0] != 0 && self.inbound.len() == self.inbound[0] as usize + 1
    }

    /// Accept inbound bytes from the transport interrupt. Bytes arriving
    /// while an exchange is in flight are rejected (`Malformed`) rather than
    /// queued: the protocol model allows exactly one in-flight exchange per
    /// channel.
    pub fn feed(&mut self, bytes: &Vec<u8>) -> (r: FrameStatus)
        requires
            old(self)@.buffered.len() + bytes@.len() <= usize::MAX,
        ensures
            final(self)@ == spec_feed(old(self)@, bytes@),
            (match r {
                FrameStatus::Incomplete => spec_feed_outcome(old(self)@, bytes@) is Incomplete,
                FrameStatus::Complete(f) => spec_feed_outcome(old(self)@, bytes@) == FeedOutcome::Complete(f@),
                FrameStatus::Malformed => spec_feed_outcome(old(self)@, bytes@) is Malformed,
            }),
            final(self)@.wf() == old(self)@.wf(),
    {
        let ghost v0 = self@;
        if !matches!(self.state, ProcessingState::Idle) {
            assert(self@ =~= spec_feed(v0, bytes@));
            return FrameStatus::Malformed;
        }
        if self.has_complete_frame() {
            assert(self@ =~= spec_feed(v0, bytes@));
            if bytes.len() == 0 {
                return FrameStatus::Incomplete;
            } else {
                return FrameStatus::Malformed;
            }
        }
        let mut i: usize = 0;
        while i < bytes.len()
            invariant
                i <= bytes@.len(),
                v0.buffered.len() + bytes@.len() <= usize::MAX,
                self@ == (AdapterView { buffered: v0.buffered + bytes@.take(i as int), ..v0 }),
            decreases bytes@.len() - i,
        {
            let b = bytes[i];
            self.inbound.push(b);
            i += 1;
            proof {
                assert(v0.buffered + bytes@.take(i as int)
                    =~= (v0.buffered + bytes@.take(i - 1)).push(bytes@[i - 1]));
                assert(self@ =~= (AdapterView { buffered: v0.buffered + bytes@.take(i as int), ..v0 }));
            }
        }
        proof {
            assert(bytes@.take(bytes@.len() as int) =~= bytes@);
            assert(self@.buffered =~= v0.buffered + bytes@);
        }
        if self.inbound.len() == 0 {
            assert(self@ =~= spec_feed(v0, bytes@));
            return FrameStatus::Incomplete;
        }
        let declared = self.inbound[0] as usize;
        if declared == 0 || self.inbound.len() > declared + 1 {
            self.inbound.clear();
            assert(self@ =~= spec_feed(v0, bytes@));
            return FrameStatus::Malformed;
        }
        if self.inbound.len() < declared + 1 {
            assert(self@ =~= spec_feed(v0, bytes@));
            return FrameStatus::Incomplete;
        }
        // The frame just completed: park it and hand a copy of the payload up.
        let payload = self.copy_payload();
        assert(self@ =~= spec_feed(v0, bytes@));
        FrameStatus::Complete(payload)
    }

    /// Copy of the payload of the parked complete frame.
    fn copy_payload(&self) -> (payload: Vec<u8>)
        requires
            frame_complete(self@.buffered),
        ensures
            payload@ == frame_payload(self@.buffered),
    {
        let mut payload: Vec<u8> = Vec::new();
        let mut i: usize = 1;
        while i < self.inbound.len()
            invariant
                1 <= i <= self@.buffered.len(),
                frame_complete(self@.buffered),
                payload@ =~= self@.buffered.subrange(1, i as int),
            decreases self@.buffered.len() - i,
        {
            let b = self.inbound[i];
            payload.push(b);
            i += 1;
            proof {
                assert(payload@ =~= self@.buffered.subrange(1, i as int));
            }
        }
        proof {
            assert(payload@ =~= frame_payload(self@.buffered));
        }
        payload
    }

    /// Remove and return the parked complete frame's payload, so it can be
    /// handed to the backend dispatch slot.
    pub fn take_frame(&mut self) -> (payload: Vec<u8>)
        requires
            frame_complete(old(self)@.buffered),
        ensures
            payload@ == frame_payload(old(self)@.buffered),
            final(self)@ == (AdapterView { buffered: Seq::<u8>::empty(), ..old(self)@ }),
    {
        let payload = self.copy_payload();
        self.inbound.clear();
        proof {
            assert(self@ =~= (AdapterView { buffered: Seq::<u8>::empty(), ..old(self)@ }));
        }
        payload
    }

    /// Enter AwaitingBackend: the parked frame was accepted by the backend
    /// slot. Arms the keepalive timer and records the hard protocol deadline
    /// in the same atomic step.
    pub fn start_processing(&mut self, now: u64, period: u64, deadline: u64)
        requires
            old(self)@.state is Idle,
            1 <= period,
            now + period <= u64::MAX,
        ensures
            final(self)@ == spec_start(old(self)@, now as int, period as int, deadline as int),
            final(self)@.wf(),
    {
        self.state = ProcessingState::AwaitingBackend;
        self.inbound.clear();
        self.timer = KeepaliveTimer { armed: true, next_fire: now + period, period };
        self.deadline = Some(deadline);
        proof {
            assert(self@ =~= spec_start(old(self)@, now as int, period as int, deadline as int));
        }
    }

    /// One keepalive timer fire at instant `now`. While the exchange is
    /// still in flight, emits one wait-extension frame (its advertised
    /// reason picked from the user-presence flag) and re-arms the timer one
    /// period ahead; after the exchange has ended, a stray fire changes
    /// nothing and emits nothing.
    pub fn keepalive_fire(&mut self, now: u64, presence: bool) -> (emitted: bool)
        requires
            old(self)@.wf(),
            old(self)@.in_flight() ==> now + old(self)@.timer.period <= u64::MAX,
        ensures
            final(self)@ == spec_fire(old(self)@, now as int, presence),
            emitted == old(self)@.in_flight(),
            final(self)@.wf(),
    {
        let ghost v0 = self@;
        if matches!(self.state, ProcessingState::Idle) {
            assert(self@ =~= spec_fire(v0, now as int, presence));
            return false;
        }
        let reason = if presence {
            ExtensionReason::WaitingForPresence
        } else {
            ExtensionReason::Busy
        };
        self.outbound.push(OutboundFrame::WaitExtension(reason));
        self.timer = KeepaliveTimer {
            armed: true,
            next_fire: now + self.timer.period,
            period: self.timer.period,
        };
        proof {
            assert(outbound_views(self.outbound@)
                =~= v0.outbound.push(OutFrame::WaitExtension(extension_reason(presence))));
            assert(self@ =~= spec_fire(v0, now as int, presence));
        }
        true
    }

    /// Write a completed backend reply into the outbound buffer and return
    /// the channel to Idle, cancelling the keepalive timer and the deadline
    /// in the same step. A reply arriving after a hard timeout already tore
    /// the exchange down is discarded, not re-displayed as if fresh.
    pub fn deliver_response(&mut self, frame: Vec<u8>) -> (delivered: bool)
        requires
            old(self)@.wf(),
        ensures
            final(self)@ == spec_deliver(old(self)@, frame@),
            delivered == old(self)@.in_flight(),
            final(self)@.wf(),
    {
        let ghost v0 = self@;
        if matches!(self.state, ProcessingState::Idle) {
            assert(self@ =~= spec_deliver(v0, frame@));
            return false;
        }
        self.state = ProcessingState::Idle;
        self.outbound.push(OutboundFrame::Response(frame));
        self.timer = KeepaliveTimer { armed: false, ..self.timer };
        self.deadline = None;
        proof {
            assert(outbound_views(self.outbound@) =~= v0.outbound.push(OutFrame::Response(frame@)));
            assert(self@ =~= spec_deliver(v0, frame@));
        }
        true
    }

    /// Check the hard protocol deadline. Returns true exactly once per
    /// exceeded deadline, dropping the in-flight exchange and forcing the
    /// channel back to Idle — fatal to the exchange, not to the device.
    pub fn poll_timeout(&mut self, now: u64) -> (fired: bool)
        requires
            old(self)@.wf(),
        ensures
            final(self)@ == spec_timeout(old(self)@, now as int),
            fired == spec_timeout_fires(old(self)@, now as int),
            final(self)@.wf(),
    {
        let ghost v0 = self@;
        let due = match self.deadline {
            Some(d) => now >= d,
            None => false,
        };
        if !due {
            assert(self@ =~= spec_timeout(v0, now as int));
            return false;
        }
        self.state = ProcessingState::Idle;
        self.timer = KeepaliveTimer { armed: false, ..self.timer };
        self.deadline = None;
        proof {
            assert(self@ =~= spec_timeout(v0, now as int));
        }
        true
    }

    /// Drop the in-flight exchange unconditionally and return the channel to
    /// Idle, cancelling the keepalive timer in the same step. Used when the
    /// contactless field is removed mid-exchange.
    pub fn cancel_exchange(&mut self)
        requires
            old(self)@.wf(),
        ensures
            final(self)@ == spec_cancel(old(self)@),
            final(self)@.wf(),
    {
        let ghost v0 = self@;
        if !matches!(self.state, ProcessingState::Idle) {
            self.state = ProcessingState::Idle;
            self.timer = KeepaliveTimer { armed: false, ..self.timer };
            self.deadline = None;
        }
        proof {
            assert(self@ =~= spec_cancel(v0));
        }
    }

    /// Re-express the armed timer in cycles of a new clock rate, preserving
    /// its wall-clock schedule. Must be called whenever the oscillator speed
    /// changes while this timer is armed: a timer left counting in stale
    /// cycle units would fire too early or too late.
    pub fn rescale_timer(&mut self, now: u64, old_rate: u64, new_rate: u64)
        requires
            old(self)@.wf(),
            1 <= old_rate,
            1 <= new_rate,
            old(self)@.timer.armed ==> now <= old(self)@.timer.next_fire,
            old(self)@.timer.armed ==> (old(self)@.timer.next_fire - now) * new_rate as int
                <= u64::MAX as int,
            old(self)@.timer.armed ==> old(self)@.timer.period * new_rate as int <= u64::MAX as int,
            old(self)@.timer.armed ==> now + crate::power::spec_rebase(
                old(self)@.timer.next_fire - now,
                old_rate as int,
                new_rate as int,
            ) <= u64::MAX as int,
        ensures
            final(self)@ == spec_rescale(old(self)@, now as int, old_rate as int, new_rate as int),
            final(self)@.wf(),
    {
        let ghost v0 = self@;
        if self.timer.armed {
            let remaining = self.timer.next_fire - now;
            let new_remaining = crate::power::rebase_cycles(remaining, old_rate, new_rate);
            let new_period = crate::power::rebase_cycles(self.timer.period, old_rate, new_rate);
            self.timer = KeepaliveTimer {
                armed: true,
                next_fire: now + new_remaining,
                period: new_period,
            };
        }
        proof {
            assert(self@ =~= spec_rescale(v0, now as int, old_rate as int, new_rate as int));
        }
    }

    /// Mirror the backend's user-presence activity in the processing state.
    pub fn note_presence(&mut self, waiting: bool)
        requires
            old(self)@.wf(),
        ensures
            final(self)@ == spec_note_presence(old(self)@, waiting),
            final(self)@.wf(),
    {
        let ghost v0 = self@;
        if !matches!(self.state, ProcessingState::Idle) {
            self.state = if waiting {
                ProcessingState::AwaitingUserPresence
            } else {
                ProcessingState::AwaitingBackend
            };
        }
        proof {
            assert(self@ =~= spec_note_presence(v0, waiting));
        }
    }

    /// Remove and return the frame at the head of the outbound queue, for
    /// transmission by the transport interrupt.
    pub fn pop_outbound(&mut self) -> (r: Option<OutboundFrame>)
        ensures
            old(self)@.outbound.len() == 0 ==> r is None && final(self)@ == old(self)@,
            old(self)@.outbound.len() > 0 ==> (r matches Some(f)
                && out_frame_view(f) == old(self)@.outbound[0]
                && final(self)@ == (AdapterView { outbound: old(self)@.outbound.skip(1), ..old(self)@ })),
    {
        if self.outbound.len() == 0 {
            proof {
                assert(self@ =~= old(self)@);
            }
            return None;
        }
        let f = self.outbound.remove(0);
        proof {
            assert(outbound_views(self.outbound@) =~= old(self)@.outbound.skip(1));
            assert(self@ =~= (AdapterView { outbound: old(self)@.outbound.skip(1), ..old(self)@ }));
        }
        Some(f)
    }
}

} // verus!
