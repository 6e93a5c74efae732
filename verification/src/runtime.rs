//! The transport poll loop and the shared backend dispatch slot: the
//! top-level driver that pumps completed frames from each channel into the
//! one shared backend and completed replies back out, and triggers the
//! keepalive scheduler.
//!
//! The backend handle is a single global resource; only the poll loop's
//! dispatch step may invoke it, so at most one request is ever outstanding to
//! the backend across all channels combined. Channels stay independent at
//! the transport level: each owns its buffers, timer and deadline, and a
//! timeout or field loss on one channel never touches another.

use vstd::prelude::*;

use crate::Channel;
use crate::ProcessingState;
use crate::adapter::AdapterView;
use crate::adapter::FrameStatus;
use crate::adapter::KeepaliveTimer;
use crate::adapter::OutboundFrame;
use crate::adapter::TransportAdapter;
use crate::adapter::frame_complete;
use crate::adapter::frame_payload;
use crate::adapter::spec_cancel;
use crate::adapter::spec_deliver;
use crate::adapter::spec_feed;
use crate::adapter::spec_feed_outcome;
use crate::adapter::spec_fire;
use crate::adapter::spec_note_presence;
use crate::adapter::spec_rescale;
use crate::adapter::spec_start;
use crate::adapter::spec_timeout;
use crate::adapter::spec_timeout_fires;
use crate::power::ClockMode;
use crate::power::FieldCoordinator;
use crate::power::FieldState;
use crate::power::spec_clock_target;
use crate::power::spec_cycles_per_ms;

verus! {

/// Latest instant the core accepts as "now", in either clock domain. The
/// headroom above it keeps every `now + period` and `now + timeout`
/// computation inside `u64`.
pub const MAX_INSTANT: u64 = 0x4000_0000_0000_0000;

/// Outcome of handing a frame to the backend dispatch slot.
#[derive(Clone, Copy, Debug, PartialEq, Eq, Structural)]
pub enum SubmitOutcome {
    /// The slot took the request; a completion will follow.
    Accepted,
    /// One request is already outstanding. By the one-in-flight discipline
    /// this never happens to the poll loop; observing it indicates a defect.
    Busy,
}

/// Ghost image of the backend dispatch slot.
#[verifier::ext_equal]
pub ghost struct SlotView {
    /// The request the backend is computing on.
    pub outstanding: Option<(Channel, Seq<u8>)>,
    /// A completion ready to be collected by the poll loop.
    pub reply: Option<(Channel, Seq<u8>)>,
}

/// Whether the slot can take a new request.
pub open spec fn slot_busy(g: SlotView) -> bool {
    g.outstanding is Some || g.reply is Some
}

/// The channel whose exchange currently occupies the slot, if any.
pub open spec fn slot_channel(g: SlotView) -> Option<Channel> {
    match g.outstanding {
        Some((c, _)) => Some(c),
        None => match g.reply {
            Some((c, _)) => Some(c),
            None => None,
        },
    }
}

/// The serialized call slot in front of the backend crypto service. The
/// service itself (key storage, signing, user-presence probing) is an
/// external collaborator; the slot only tracks the one request that may be
/// outstanding to it and the one completion waiting to be collected.
pub struct BackendSlot {
    outstanding: Option<(Channel, Vec<u8>)>,
    reply: Option<(Channel, Vec<u8>)>,
}

impl View for BackendSlot {
    type V = SlotView;

    closed spec fn view(&self) -> SlotView {
        SlotView {
            outstanding: match self.outstanding {
                Some((c, ref f)) => Some((c, f@)),
                None => None,
            },
            reply: match self.reply {
                Some((c, ref f)) => Some((c, f@)),
                None => None,
            },
        }
    }
}

impl BackendSlot {
    /// An empty slot.
    pub fn new() -> (r: BackendSlot)
        ensures
            r@ == (SlotView { outstanding: None::<(Channel, Seq<u8>)>, reply: None::<(Channel, Seq<u8>)> }),
    {
        let r = BackendSlot { outstanding: None, reply: None };
        proof {
            assert(r@ =~= (SlotView {
                outstanding: None::<(Channel, Seq<u8>)>,
                reply: None::<(Channel, Seq<u8>)>,
            }));
        }
        r
    }

    /// Hand a complete frame to the backend. Accepted exactly when no
    /// request is outstanding and no completion is waiting.
    pub fn submit(&mut self, c: Channel, frame: Vec<u8>) -> (r: SubmitOutcome)
        ensures
            slot_busy(old(self)@) ==> r == SubmitOutcome::Busy && final(self)@ == old(self)@,
            !slot_busy(old(self)@) ==> r == SubmitOutcome::Accepted && final(self)@ == (SlotView {
                outstanding: Some((c, frame@)),
                reply: None::<(Channel, Seq<u8>)>,
            }),
    {
        let busy = self.outstanding.is_some() || self.reply.is_some();
        if busy {
            proof {
                assert(self@ =~= old(self)@);
            }
            return SubmitOutcome::Busy;
        }
        self.outstanding = Some((c, frame));
        proof {
            assert(self@ =~= (SlotView {
                outstanding: Some((c, frame@)),
                reply: None::<(Channel, Seq<u8>)>,
            }));
        }
        SubmitOutcome::Accepted
    }

    /// The backend finished computing: turn the outstanding request into a
    /// completion, carrying the reply frame. Called from the backend's own
    /// execution context; a stray call with no request outstanding reports
    /// false and changes nothing.
    pub fn finish(&mut self, frame: Vec<u8>) -> (r: bool)
        ensures
            old(self)@.outstanding matches Some((c, req)) ==> r && final(self)@ == (SlotView {
                outstanding: None::<(Channel, Seq<u8>)>,
                reply: Some((c, frame@)),
            }),
            old(self)@.outstanding is None ==> !r && final(self)@ == old(self)@,
    {
        match self.outstanding.take() {
            Some((c, _req)) => {
                self.reply = Some((c, frame));
                proof {
                    assert(self@ =~= (SlotView {
                        outstanding: None::<(Channel, Seq<u8>)>,
                        reply: Some((c, frame@)),
                    }));
                }
                true
            },
            None => {
                proof {
                    assert(self@ =~= old(self)@);
                }
                false
            },
        }
    }

    /// Collect the completion, if one is waiting.
    pub fn poll_completions(&mut self) -> (r: Option<(Channel, Vec<u8>)>)
        ensures
            old(self)@.reply matches Some((c, f)) ==> (r matches Some((rc, rf)) && rc == c && rf@ == f)
                && final(self)@ == (SlotView { reply: None::<(Channel, Seq<u8>)>, ..old(self)@ }),
            old(self)@.reply is None ==> r is None && final(self)@ == old(self)@,
    {
        let r = self.reply.take();
        proof {
            assert(self@ =~= (SlotView { reply: None::<(Channel, Seq<u8>)>, ..old(self)@ }));
            if old(self)@.reply is None {
                assert(self@ =~= old(self)@);
            }
        }
        r
    }

    /// The channel whose request the backend is computing, if any.
    pub fn outstanding_channel(&self) -> (r: Option<Channel>)
        ensures
            r == (match self@.outstanding {
                Some((c, _)) => Some(c),
                None => None::<Channel>,
            }),
    {
        match &self.outstanding {
            Some((c, _)) => Some(*c),
            None => None,
        }
    }

    /// Whether a request is outstanding or a completion is waiting.
    pub fn is_busy(&self) -> (b: bool)
        ensures
            b == slot_busy(self@),
    {
        self.outstanding.is_some() || self.reply.is_some()
    }
}

/// The process-wide user-presence flag: set for the duration of any blocking
/// physical-presence poll, cleared immediately after. It lets the keepalive
/// scheduler choose between a generic "busy" extension and a "waiting for
/// user presence" one without the backend exposing its internal state.
pub struct UserPresenceStatus {
    waiting: bool,
}

impl UserPresenceStatus {
    /// The flag starts cleared.
    pub fn new() -> (r: UserPresenceStatus)
        ensures
            !r.is_waiting(),
    {
        UserPresenceStatus { waiting: false }
    }

    /// Whether a presence poll is in progress.
    pub closed spec fn is_waiting(&self) -> bool {
        self.waiting
    }

    /// Toggle the flag around a blocking presence poll.
    pub fn set_waiting(&mut self, waiting: bool)
        ensures
            final(self).is_waiting() == waiting,
    {
        self.waiting = waiting;
    }

    /// Read the flag.
    pub fn waiting(&self) -> (b: bool)
        ensures
            b == self.is_waiting(),
    {
        self.waiting
    }
}

/// Ghost image of the whole dispatch core.
#[verifier::ext_equal]
pub ghost struct CoreView {
    pub contact: AdapterView,
    pub contactless: AdapterView,
    pub hid: AdapterView,
    pub slot: SlotView,
    pub presence: bool,
    pub field: FieldState,
    pub clock: ClockMode,
    pub base_period_ms: int,
    pub timeout_ms: int,
}

impl CoreView {
    /// The adapter serving a channel.
    pub open spec fn adapter(self, c: Channel) -> AdapterView {
        match c {
            Channel::ContactSmartcard => self.contact,
            Channel::ContactlessSmartcard => self.contactless,
            Channel::HidAuthenticator => self.hid,
        }
    }

    /// This view with one adapter replaced.
    pub open spec fn with_adapter(self, c: Channel, a: AdapterView) -> CoreView {
        match c {
            Channel::ContactSmartcard => CoreView { contact: a, ..self },
            Channel::ContactlessSmartcard => CoreView { contactless: a, ..self },
            Channel::HidAuthenticator => CoreView { hid: a, ..self },
        }
    }

    /// The keepalive period for a channel, in the ticks of its clock domain:
    /// milliseconds for the USB channels, cycles at the current rate for the
    /// contactless channel.
    pub open spec fn period_of(self, c: Channel) -> int {
        match c {
            Channel::ContactlessSmartcard => self.base_period_ms * spec_cycles_per_ms(self.clock),
            _ => self.base_period_ms,
        }
    }

    /// Structural invariant of the whole core.
    pub open spec fn wf(self) -> bool {
        &&& self.contact.channel == Channel::ContactSmartcard
        &&& self.contactless.channel == Channel::ContactlessSmartcard
        &&& self.hid.channel == Channel::HidAuthenticator
        &&& self.contact.wf()
        &&& self.contactless.wf()
        &&& self.hid.wf()
        &&& !(self.slot.outstanding is Some && self.slot.reply is Some)
        &&& 1 <= self.base_period_ms <= 10_000
        &&& 1 <= self.timeout_ms <= 600_000
        &&& (self.contact.in_flight() ==> slot_channel(self.slot) == Some(Channel::ContactSmartcard))
        &&& (self.contactless.in_flight() ==> slot_channel(self.slot) == Some(
            Channel::ContactlessSmartcard,
        ))
        &&& (self.hid.in_flight() ==> slot_channel(self.slot) == Some(Channel::HidAuthenticator))
        &&& (self.contact.timer.armed ==> self.contact.timer.period == self.base_period_ms)
        &&& (self.hid.timer.armed ==> self.hid.timer.period == self.base_period_ms)
        &&& (self.contactless.timer.armed ==> self.contactless.timer.period == self.base_period_ms
            * spec_cycles_per_ms(self.clock))
    }
}

/// The dispatch core: the three transport adapters, the backend slot, the
/// user-presence flag and the field & power coordinator, wired together by
/// the poll functions below.
pub struct Core {
    contact: TransportAdapter,
    contactless: TransportAdapter,
    hid: TransportAdapter,
    slot: BackendSlot,
    presence: UserPresenceStatus,
    coordinator: FieldCoordinator,
    base_period_ms: u64,
    timeout_ms: u64,
}

impl View for Core {
    type V = CoreView;

    closed spec fn view(&self) -> CoreView {
        CoreView {
            contact: self.contact@,
            contactless: self.contactless@,
            hid: self.hid@,
            slot: self.slot@,
            presence: self.presence.is_waiting(),
            field: self.coordinator.field_state(),
            clock: self.coordinator.clock_mode(),
            base_period_ms: self.base_period_ms as int,
            timeout_ms: self.timeout_ms as int,
        }
    }
}

impl Core {
    /// A fresh core: all channels idle, the slot empty, no field present.
    /// `base_period_ms` is the keepalive base period; `timeout_ms` the hard
    /// protocol deadline granted to each exchange.
    pub fn new(base_period_ms: u64, timeout_ms: u64) -> (r: Core)
        requires
            1 <= base_period_ms <= 10_000,
            1 <= timeout_ms <= 600_000,
        ensures
            r@.wf(),
            r@.base_period_ms == base_period_ms,
            r@.timeout_ms == timeout_ms,
            !r@.contact.in_flight(),
            !r@.contactless.in_flight(),
            !r@.hid.in_flight(),
            !slot_busy(r@.slot),
            !r@.presence,
            r@.field == FieldState::Absent,
            r@.clock == ClockMode::HighThroughput,
            r@.contact.outbound.len() == 0,
            r@.contactless.outbound.len() == 0,
            r@.hid.outbound.len() == 0,
            r@.contact.buffered.len() == 0,
            r@.contactless.buffered.len() == 0,
            r@.hid.buffered.len() == 0,
    {
        Core {
            contact: TransportAdapter::new(Channel::ContactSmartcard),
            contactless: TransportAdapter::new(Channel::ContactlessSmartcard),
            hid: TransportAdapter::new(Channel::HidAuthenticator),
            slot: BackendSlot::new(),
            presence: UserPresenceStatus::new(),
            coordinator: FieldCoordinator::new(),
            base_period_ms,
            timeout_ms,
        }
    }

    /// The processing state of a channel.
    pub fn channel_state(&self, c: Channel) -> (s: ProcessingState)
        ensures
            s == self@.adapter(c).state,
    {
        match c {
            Channel::ContactSmartcard => self.contact.state(),
            Channel::ContactlessSmartcard => self.contactless.state(),
            Channel::HidAuthenticator => self.hid.state(),
        }
    }

    /// Number of frames queued outbound on a channel.
    pub fn outbound_count(&self, c: Channel) -> (n: usize)
        ensures
            n == self@.adapter(c).outbound.len(),
    {
        match c {
            Channel::ContactSmartcard => self.contact.outbound_len(),
            Channel::ContactlessSmartcard => self.contactless.outbound_len(),
            Channel::HidAuthenticator => self.hid.outbound_len(),
        }
    }

    /// Number of inbound bytes buffered on a channel (header included).
    pub fn buffered_count(&self, c: Channel) -> (n: usize)
        ensures
            n == self@.adapter(c).buffered.len(),
    {
        match c {
            Channel::ContactSmartcard => self.contact.buffered_len(),
            Channel::ContactlessSmartcard => self.contactless.buffered_len(),
            Channel::HidAuthenticator => self.hid.buffered_len(),
        }
    }

    /// Snapshot of a channel's keepalive timer.
    pub fn timer_snapshot(&self, c: Channel) -> (t: KeepaliveTimer)
        ensures
            t@ == self@.adapter(c).timer,
    {
        match c {
            Channel::ContactSmartcard => self.contact.timer_snapshot(),
            Channel::ContactlessSmartcard => self.contactless.timer_snapshot(),
            Channel::HidAuthenticator => self.hid.timer_snapshot(),
        }
    }

    /// Whether the backend slot is occupied.
    pub fn backend_busy(&self) -> (b: bool)
        ensures
            b == slot_busy(self@.slot),
    {
        self.slot.is_busy()
    }

    /// The clock mode currently in force.
    pub fn clock_mode(&self) -> (m: ClockMode)
        ensures
            m == self@.clock,
    {
        self.coordinator.clock_mode_now()
    }

    /// The last observed contactless field state.
    pub fn field_state(&self) -> (f: FieldState)
        ensures
            f == self@.field,
    {
        self.coordinator.field_state_now()
    }

    /// Whether a user-presence poll is in progress.
    pub fn presence_waiting(&self) -> (b: bool)
        ensures
            b == self@.presence,
    {
        self.presence.waiting()
    }

    /// Remove and return the frame at the head of a channel's outbound
    /// queue, for transmission by the transport interrupt.
    pub fn pop_outbound(&mut self, c: Channel) -> (r: Option<OutboundFrame>)
        ensures
            old(self)@.adapter(c).outbound.len() == 0 ==> r is None && final(self)@ == old(self)@,
            old(self)@.adapter(c).outbound.len() > 0 ==> (r matches Some(f)
                && crate::adapter::out_frame_view(f) == old(self)@.adapter(c).outbound[0]
                && final(self)@ == old(self)@.with_adapter(
                c,
                (AdapterView { outbound: old(self)@.adapter(c).outbound.skip(1), ..old(self)@.adapter(c) }),
            )),
            final(self)@.wf() == old(self)@.wf(),
    {
        let ghost v0 = self@;
        let r = match c {
            Channel::ContactSmartcard => self.contact.pop_outbound(),
            Channel::ContactlessSmartcard => self.contactless.pop_outbound(),
            Channel::HidAuthenticator => self.hid.pop_outbound(),
        };
        proof {
            if v0.adapter(c).outbound.len() == 0 {
                assert(self@ =~= v0);
            } else {
                assert(self@ =~= v0.with_adapter(
                    c,
                    (AdapterView { outbound: v0.adapter(c).outbound.skip(1), ..v0.adapter(c) }),
                ));
            }
        }
        r
    }
}

/// At most one request is ever outstanding to the backend across all
/// channels combined: the slot serializes every exchange, so no two channels
/// are in flight at once.
pub proof fn lemma_single_backend_exchange(v: CoreView)
    requires
        v.wf(),
    ensures
        !(v.contact.in_flight() && v.contactless.in_flight()),
        !(v.contact.in_flight() && v.hid.in_flight()),
        !(v.contactless.in_flight() && v.hid.in_flight()),
{
}

/// Core-level transition: collect the waiting completion, if any, and
/// deliver it into its channel's adapter.
pub open spec fn spec_collect(v: CoreView) -> CoreView {
    match v.slot.reply {
        Some((c, f)) => (CoreView {
            slot: SlotView { reply: None, ..v.slot },
            ..v
        }).with_adapter(c, spec_deliver(v.adapter(c), f)),
        None => v,
    }
}

/// The channel whose completion `spec_collect` delivers, if any.
pub open spec fn spec_collected(v: CoreView) -> Option<Channel> {
    match v.slot.reply {
        Some((c, _)) => Some(c),
        None => None,
    }
}

/// Whether the dispatch step submits channel `c`'s parked frame to the
/// backend: the channel must be Idle with a complete frame parked, and the
/// slot free — so a submit is only ever issued for an Idle channel, and at
/// most one request is outstanding across all channels combined.
pub open spec fn can_dispatch(v: CoreView, c: Channel) -> bool {
    &&& !v.adapter(c).in_flight()
    &&& frame_complete(v.adapter(c).buffered)
    &&& !slot_busy(v.slot)
}

/// The current instant in the clock domain that drives channel `c`.
pub open spec fn now_of(c: Channel, now_ms: int, now_cycles: int) -> int {
    if c == Channel::ContactlessSmartcard {
        now_cycles
    } else {
        now_ms
    }
}

/// Core-level transition: hand channel `c`'s parked frame to the backend.
/// Entering AwaitingBackend, arming the keepalive timer and recording the
/// hard deadline happen in the same atomic step.
pub open spec fn spec_dispatch(v: CoreView, c: Channel, now_ms: int, now_cycles: int) -> CoreView {
    if can_dispatch(v, c) {
        let payload = frame_payload(v.adapter(c).buffered);
        let started = spec_start(
            v.adapter(c),
            now_of(c, now_ms, now_cycles),
            v.period_of(c),
            now_ms + v.timeout_ms,
        );
        CoreView {
            slot: SlotView { outstanding: Some((c, payload)), reply: None },
            ..v.with_adapter(c, started)
        }
    } else {
        v
    }
}

/// Core-level transition of one whole poll iteration: collect the waiting
/// completion, then dispatch each channel's parked frame in the fixed order
/// contact, contactless, HID.
pub open spec fn spec_poll_dispatchers(v: CoreView, now_ms: int, now_cycles: int) -> CoreView {
    let v1 = spec_collect(v);
    let v2 = spec_dispatch(v1, Channel::ContactSmartcard, now_ms, now_cycles);
    let v3 = spec_dispatch(v2, Channel::ContactlessSmartcard, now_ms, now_cycles);
    spec_dispatch(v3, Channel::HidAuthenticator, now_ms, now_cycles)
}

/// Core-level transition: check channel `c`'s hard protocol deadline.
pub open spec fn spec_core_timeout(v: CoreView, c: Channel, now_ms: int) -> CoreView {
    v.with_adapter(c, spec_timeout(v.adapter(c), now_ms))
}

/// Core-level transition: channel `c`'s keepalive timer fires, advertising
/// the reason picked from the core's user-presence flag.
pub open spec fn spec_core_fire(v: CoreView, c: Channel, now: int) -> CoreView {
    v.with_adapter(c, spec_fire(v.adapter(c), now, v.presence))
}

/// Core-level transition: the user-presence flag changes, and the channel
/// whose request the backend is computing mirrors it in its state.
pub open spec fn spec_set_presence(v: CoreView, waiting: bool) -> CoreView {
    let v1 = CoreView { presence: waiting, ..v };
    match v.slot.outstanding {
        Some((c, _)) => v1.with_adapter(c, spec_note_presence(v.adapter(c), waiting)),
        None => v1,
    }
}

/// Core-level transition: a contactless field change. The coordinator picks
/// the new clock mode; if the mode changed while the contactless keepalive
/// timer was armed, the timer is rescaled to the new cycle rate in the same
/// step (a timer left counting in stale cycle units is a defect); and a
/// removed field tears the contactless exchange down entirely.
pub open spec fn spec_field_event(v: CoreView, new_field: FieldState, millivolts: u32, now_cycles: int) -> CoreView {
    let new_clock = spec_clock_target(new_field, v.contactless.in_flight(), millivolts);
    let v1 = CoreView { field: new_field, clock: new_clock, ..v };
    let v2 = if new_clock != v.clock {
        v1.with_adapter(
            Channel::ContactlessSmartcard,
            spec_rescale(
                v.contactless,
                now_cycles,
                spec_cycles_per_ms(v.clock),
                spec_cycles_per_ms(new_clock),
            ),
        )
    } else {
        v1
    };
    if new_field == FieldState::Absent {
        v2.with_adapter(Channel::ContactlessSmartcard, spec_cancel(v2.contactless))
    } else {
        v2
    }
}

impl Core {
    /// Accept inbound bytes from channel `c`'s transport interrupt.
    pub fn ingest(&mut self, c: Channel, bytes: &Vec<u8>) -> (r: FrameStatus)
        requires
            old(self)@.wf(),
            old(self)@.adapter(c).buffered.len() + bytes@.len() <= usize::MAX,
        ensures
            final(self)@ == old(self)@.with_adapter(c, spec_feed(old(self)@.adapter(c), bytes@)),
            (match r {
                FrameStatus::Incomplete => spec_feed_outcome(old(self)@.adapter(c), bytes@) is Incomplete,
                FrameStatus::Complete(f) => spec_feed_outcome(old(self)@.adapter(c), bytes@)
                    == crate::adapter::FeedOutcome::Complete(f@),
                FrameStatus::Malformed => spec_feed_outcome(old(self)@.adapter(c), bytes@) is Malformed,
            }),
            final(self)@.wf(),
    {
        let ghost v0 = self@;
        let r = match c {
            Channel::ContactSmartcard => self.contact.feed(bytes),
            Channel::ContactlessSmartcard => self.contactless.feed(bytes),
            Channel::HidAuthenticator => self.hid.feed(bytes),
        };
        proof {
            assert(self@ =~= v0.with_adapter(c, spec_feed(v0.adapter(c), bytes@)));
        }
        r
    }

    /// Check channel `c`'s hard protocol deadline at wall-clock instant
    /// `now_ms`. Fires true exactly once per exceeded deadline, dropping the
    /// in-flight exchange; a hard timeout on one channel never alters the
    /// processing state, buffers or timers of another, nor the backend slot.
    pub fn check_timeout(&mut self, c: Channel, now_ms: u64) -> (fired: bool)
        requires
            old(self)@.wf(),
        ensures
            final(self)@ == spec_core_timeout(old(self)@, c, now_ms as int),
            fired == spec_timeout_fires(old(self)@.adapter(c), now_ms as int),
            forall|d: Channel| d != c ==> final(self)@.adapter(d) == old(self)@.adapter(d),
            final(self)@.slot == old(self)@.slot,
            final(self)@.presence == old(self)@.presence,
            final(self)@.wf(),
    {
        let ghost v0 = self@;
        let fired = match c {
            Channel::ContactSmartcard => self.contact.poll_timeout(now_ms),
            Channel::ContactlessSmartcard => self.contactless.poll_timeout(now_ms),
            Channel::HidAuthenticator => self.hid.poll_timeout(now_ms),
        };
        proof {
            assert(self@ =~= spec_core_timeout(v0, c, now_ms as int));
        }
        fired
    }

    /// Toggle the user-presence flag around a blocking presence poll, and
    /// mirror it in the state of the channel the backend is computing for.
    pub fn set_user_presence(&mut self, waiting: bool)
        requires
            old(self)@.wf(),
        ensures
            final(self)@ == spec_set_presence(old(self)@, waiting),
            final(self)@.wf(),
    {
        let ghost v0 = self@;
        self.presence.set_waiting(waiting);
        match self.slot.outstanding_channel() {
            Some(Channel::ContactSmartcard) => self.contact.note_presence(waiting),
            Some(Channel::ContactlessSmartcard) => self.contactless.note_presence(waiting),
            Some(Channel::HidAuthenticator) => self.hid.note_presence(waiting),
            None => (),
        }
        proof {
            assert(self@ =~= spec_set_presence(v0, waiting));
        }
    }

    /// The backend finished computing: record the reply as a completion for
    /// the poll loop to collect. Reports false (and changes nothing) when no
    /// request is outstanding.
    pub fn backend_finish(&mut self, frame: Vec<u8>) -> (accepted: bool)
        requires
            old(self)@.wf(),
        ensures
            old(self)@.slot.outstanding matches Some((c, req)) ==> accepted && final(self)@
                == (CoreView {
                slot: SlotView {
                    outstanding: None::<(Channel, Seq<u8>)>,
                    reply: Some((c, frame@)),
                },
                ..old(self)@
            }),
            old(self)@.slot.outstanding is None ==> !accepted && final(self)@ == old(self)@,
            final(self)@.wf(),
    {
        let ghost v0 = self@;
        let accepted = self.slot.finish(frame);
        proof {
            if v0.slot.outstanding is Some {
                assert(self@ =~= (CoreView {
                    slot: SlotView {
                        outstanding: None::<(Channel, Seq<u8>)>,
                        reply: Some((v0.slot.outstanding->Some_0.0, frame@)),
                    },
                    ..v0
                }));
            } else {
                assert(self@ =~= v0);
            }
        }
        accepted
    }

    /// A contactless field transition (and, with an unchanged field, a
    /// supply-voltage measurement): pick the clock mode, rescale the armed
    /// contactless timer if the mode changed, and on field removal cancel
    /// the contactless exchange — without discarding any other channel's
    /// buffered state.
    pub fn field_event(&mut self, new_field: FieldState, millivolts: u32, now_cycles: u64)
        requires
            old(self)@.wf(),
            now_cycles <= MAX_INSTANT,
            old(self)@.contactless.timer.armed ==> now_cycles <= old(self)@.contactless.timer.next_fire
                && old(self)@.contactless.timer.next_fire - now_cycles
                <= old(self)@.contactless.timer.period,
        ensures
            final(self)@ == spec_field_event(old(self)@, new_field, millivolts, now_cycles as int),
            new_field == FieldState::Absent ==> !final(self)@.contactless.in_flight()
                && !final(self)@.contactless.timer.armed,
            final(self)@.contact == old(self)@.contact,
            final(self)@.hid == old(self)@.hid,
            final(self)@.slot == old(self)@.slot,
            final(self)@.wf(),
    {
        let ghost v0 = self@;
        let active = !matches!(self.contactless.state(), ProcessingState::Idle);
        let (mode_before, mode_after) = self.coordinator.field_event(new_field, active, millivolts);
        if !mode_eq(mode_before, mode_after) {
            let old_rate = crate::power::cycles_per_ms(mode_before);
            let new_rate = crate::power::cycles_per_ms(mode_after);
            proof {
                lemma_period_bounds(v0);
                if v0.contactless.timer.armed {
                    let rem = v0.contactless.timer.next_fire - now_cycles;
                    vstd::arithmetic::mul::lemma_mul_upper_bound(
                        rem,
                        480_000_000,
                        new_rate as int,
                        48_000,
                    );
                    vstd::arithmetic::mul::lemma_mul_upper_bound(
                        v0.contactless.timer.period,
                        480_000_000,
                        new_rate as int,
                        48_000,
                    );
                    vstd::arithmetic::div_mod::lemma_div_is_ordered_by_denominator(
                        rem * new_rate as int,
                        1,
                        old_rate as int,
                    );
                }
            }
            self.contactless.rescale_timer(now_cycles, old_rate, new_rate);
            proof {
                if v0.contactless.timer.armed {
                    lemma_rescale_keeps_period_shape(
                        v0.base_period_ms,
                        spec_cycles_per_ms(v0.clock),
                        spec_cycles_per_ms(self@.clock),
                        v0.contactless.timer.period,
                    );
                }
            }
        }
        if matches!(new_field, FieldState::Absent) {
            self.contactless.cancel_exchange();
        }
        proof {
            assert(self@ =~= spec_field_event(v0, new_field, millivolts, now_cycles as int));
        }
    }
}

/// Whether two clock modes are the same.
fn mode_eq(a: ClockMode, b: ClockMode) -> (r: bool)
    ensures
        r == (a == b),
{
    match (a, b) {
        (ClockMode::LowPower, ClockMode::LowPower) => true,
        (ClockMode::HighThroughput, ClockMode::HighThroughput) => true,
        _ => false,
    }
}

/// Bounds that the core invariant puts on every armed timer period.
proof fn lemma_period_bounds(v: CoreView)
    requires
        v.wf(),
    ensures
        v.contact.timer.armed ==> 1 <= v.contact.timer.period <= 10_000,
        v.hid.timer.armed ==> 1 <= v.hid.timer.period <= 10_000,
        v.contactless.timer.armed ==> 1 <= v.contactless.timer.period <= 480_000_000,
{
    if v.contactless.timer.armed {
        let b = v.base_period_ms;
        let r = spec_cycles_per_ms(v.clock);
        assert(1 <= b * r <= 480_000_000) by (nonlinear_arith)
            requires
                1 <= b <= 10_000,
                12_000 <= r <= 48_000,
        ;
    }
}

/// Rescaling a period of the shape `base * old_rate` by `new_rate /
/// old_rate` yields exactly `base * new_rate`.
proof fn lemma_rescale_keeps_period_shape(base: int, old_rate: int, new_rate: int, period: int)
    requires
        1 <= old_rate,
        0 <= new_rate,
        period == base * old_rate,
    ensures
        crate::power::spec_rebase(period, old_rate, new_rate) == base * new_rate,
{
    assert((base * old_rate) * new_rate == (base * new_rate) * old_rate) by (nonlinear_arith);
    vstd::arithmetic::mul::lemma_mul_is_commutative(base * new_rate, old_rate);
    vstd::arithmetic::div_mod::lemma_div_multiples_vanish(base * new_rate, old_rate);
}


/// One dispatch step for one channel: if the channel is Idle with a complete
/// frame parked and the slot is free, hand the frame to the backend and
/// enter AwaitingBackend (arming the keepalive timer and recording the hard
/// deadline in the same atomic step).
fn dispatch_channel(core: &mut Core, c: Channel, now_ms: u64, now_cycles: u64) -> (submitted: bool)
    requires
        old(core)@.wf(),
        now_ms <= MAX_INSTANT,
        now_cycles <= MAX_INSTANT,
    ensures
        final(core)@ == spec_dispatch(old(core)@, c, now_ms as int, now_cycles as int),
        submitted == can_dispatch(old(core)@, c),
        final(core)@.wf(),
{
    let ghost v0 = core@;
    let idle = matches!(core.channel_state(c), ProcessingState::Idle);
    let parked = match c {
        Channel::ContactSmartcard => core.contact.has_complete_frame(),
        Channel::ContactlessSmartcard => core.contactless.has_complete_frame(),
        Channel::HidAuthenticator => core.hid.has_complete_frame(),
    };
    if !idle || !parked || core.slot.is_busy() {
        proof {
            assert(core@ =~= spec_dispatch(v0, c, now_ms as int, now_cycles as int));
        }
        return false;
    }
    let payload = match c {
        Channel::ContactSmartcard => core.contact.take_frame(),
        Channel::ContactlessSmartcard => core.contactless.take_frame(),
        Channel::HidAuthenticator => core.hid.take_frame(),
    };
    let outcome = core.slot.submit(c, payload);
    assert(outcome == SubmitOutcome::Accepted);
    proof {
        lemma_channel_period_fits(v0, c);
    }
    let period = match c {
        Channel::ContactlessSmartcard => core.base_period_ms * crate::power::cycles_per_ms(
            core.coordinator.clock_mode_now(),
        ),
        _ => core.base_period_ms,
    };
    let now = match c {
        Channel::ContactlessSmartcard => now_cycles,
        _ => now_ms,
    };
    let deadline = now_ms + core.timeout_ms;
    match c {
        Channel::ContactSmartcard => core.contact.start_processing(now, period, deadline),
        Channel::ContactlessSmartcard => core.contactless.start_processing(now, period, deadline),
        Channel::HidAuthenticator => core.hid.start_processing(now, period, deadline),
    }
    proof {
        assert(core@ =~= spec_dispatch(v0, c, now_ms as int, now_cycles as int));
    }
    true
}

/// The keepalive period of channel `c` is at least one tick and small enough
/// that arming and re-arming at any accepted instant cannot overflow.
proof fn lemma_channel_period_fits(v: CoreView, c: Channel)
    requires
        v.wf(),
    ensures
        1 <= v.period_of(c) <= 480_000_000,
{
    if c == Channel::ContactlessSmartcard {
        let b = v.base_period_ms;
        let r = spec_cycles_per_ms(v.clock);
        assert(1 <= b * r <= 480_000_000) by (nonlinear_arith)
            requires
                1 <= b <= 10_000,
                12_000 <= r <= 48_000,
        ;
    }
}

/// The transport poll loop's routing step, invoked once per idle iteration
/// and once per relevant transport interrupt: pull the completed backend
/// reply (if any) back into its channel's adapter, then hand each channel's
/// parked complete frame to the backend dispatch slot. The two returned
/// booleans say whether USB-side and contactless-side activity occurred, so
/// the caller can raise the matching follow-up interrupt.
pub fn poll_dispatchers(core: &mut Core, now_ms: u64, now_cycles: u64) -> (activity: (bool, bool))
    requires
        old(core)@.wf(),
        now_ms <= MAX_INSTANT,
        now_cycles <= MAX_INSTANT,
    ensures
        final(core)@ == spec_poll_dispatchers(old(core)@, now_ms as int, now_cycles as int),
        final(core)@.wf(),
        ({
            let v1 = spec_collect(old(core)@);
            let v2 = spec_dispatch(v1, Channel::ContactSmartcard, now_ms as int, now_cycles as int);
            let v3 = spec_dispatch(v2, Channel::ContactlessSmartcard, now_ms as int, now_cycles as int);
            &&& activity.0 == (spec_collected(old(core)@) == Some(Channel::ContactSmartcard)
                || spec_collected(old(core)@) == Some(Channel::HidAuthenticator)
                || can_dispatch(v1, Channel::ContactSmartcard)
                || can_dispatch(v3, Channel::HidAuthenticator))
            &&& activity.1 == (spec_collected(old(core)@) == Some(Channel::ContactlessSmartcard)
                || can_dispatch(v2, Channel::ContactlessSmartcard))
        }),
{
    let ghost v0 = core@;
    let mut usb_activity = false;
    let mut nfc_activity = false;
    match core.slot.poll_completions() {
        Some((c, frame)) => {
            match c {
                Channel::ContactSmartcard => {
                    core.contact.deliver_response(frame);
                    usb_activity = true;
                },
                Channel::ContactlessSmartcard => {
                    core.contactless.deliver_response(frame);
                    nfc_activity = true;
                },
                Channel::HidAuthenticator => {
                    core.hid.deliver_response(frame);
                    usb_activity = true;
                },
            }
        },
        None => (),
    }
    proof {
        assert(core@ =~= spec_collect(v0));
    }
    let contact_submitted = dispatch_channel(core, Channel::ContactSmartcard, now_ms, now_cycles);
    let nfc_submitted = dispatch_channel(core, Channel::ContactlessSmartcard, now_ms, now_cycles);
    let hid_submitted = dispatch_channel(core, Channel::HidAuthenticator, now_ms, now_cycles);
    (usb_activity || contact_submitted || hid_submitted, nfc_activity || nfc_submitted)
}

/// The USB-side poll step: check the hard protocol deadlines of the two USB
/// channels, then report when each channel's keepalive task should next run
/// (the armed timer's fire instant), so the caller can schedule the
/// `ccid_keepalive` / `ctaphid_keepalive` follow-ups.
pub fn poll_usb(core: &mut Core, now_ms: u64) -> (schedule: (Option<u64>, Option<u64>))
    requires
        old(core)@.wf(),
    ensures
        final(core)@ == spec_core_timeout(
            spec_core_timeout(old(core)@, Channel::ContactSmartcard, now_ms as int),
            Channel::HidAuthenticator,
            now_ms as int,
        ),
        final(core)@.wf(),
        schedule.0 matches Some(t) <==> final(core)@.contact.timer.armed,
        schedule.0 matches Some(t) ==> t == final(core)@.contact.timer.next_fire,
        schedule.1 matches Some(t) <==> final(core)@.hid.timer.armed,
        schedule.1 matches Some(t) ==> t == final(core)@.hid.timer.next_fire,
        final(core)@.contactless == old(core)@.contactless,
        final(core)@.slot == old(core)@.slot,
{
    core.check_timeout(Channel::ContactSmartcard, now_ms);
    core.check_timeout(Channel::HidAuthenticator, now_ms);
    let contact_timer = core.contact.timer_snapshot();
    let hid_timer = core.hid.timer_snapshot();
    (
        if contact_timer.armed {
            Some(contact_timer.next_fire)
        } else {
            None
        },
        if hid_timer.armed {
            Some(hid_timer.next_fire)
        } else {
            None
        },
    )
}

/// The contactless poll step: check the contactless channel's hard deadline
/// and report when its keepalive task should next run (in cycles).
pub fn poll_nfc(core: &mut Core, now_ms: u64) -> (schedule: Option<u64>)
    requires
        old(core)@.wf(),
    ensures
        final(core)@ == spec_core_timeout(old(core)@, Channel::ContactlessSmartcard, now_ms as int),
        final(core)@.wf(),
        schedule matches Some(t) <==> final(core)@.contactless.timer.armed,
        schedule matches Some(t) ==> t == final(core)@.contactless.timer.next_fire,
        final(core)@.contact == old(core)@.contact,
        final(core)@.hid == old(core)@.hid,
        final(core)@.slot == old(core)@.slot,
{
    core.check_timeout(Channel::ContactlessSmartcard, now_ms);
    let timer = core.contactless.timer_snapshot();
    if timer.armed {
        Some(timer.next_fire)
    } else {
        None
    }
}

/// One keepalive fire on one channel: emit a wait-extension frame while the
/// exchange is still pending (advertising "waiting for presence" while a
/// presence poll is blocking, "busy" otherwise) and re-arm the timer; after
/// the exchange has ended, do nothing. Returns the instant at which the
/// re-armed timer should next fire, or None when nothing is pending — the
/// caller schedules the next task run from it, reading the channel handle
/// afresh rather than a captured timer.
fn keepalive_fire_channel(core: &mut Core, c: Channel, now: u64) -> (rearm: Option<u64>)
    requires
        old(core)@.wf(),
        now <= MAX_INSTANT,
    ensures
        final(core)@ == spec_core_fire(old(core)@, c, now as int),
        final(core)@.wf(),
        rearm matches Some(t) <==> old(core)@.adapter(c).in_flight(),
        rearm matches Some(t) ==> t == final(core)@.adapter(c).timer.next_fire,
{
    let ghost v0 = core@;
    proof {
        lemma_period_bounds(v0);
    }
    let presence = core.presence.waiting();
    let emitted = match c {
        Channel::ContactSmartcard => core.contact.keepalive_fire(now, presence),
        Channel::ContactlessSmartcard => core.contactless.keepalive_fire(now, presence),
        Channel::HidAuthenticator => core.hid.keepalive_fire(now, presence),
    };
    proof {
        assert(core@ =~= spec_core_fire(v0, c, now as int));
    }
    if emitted {
        let timer = match c {
            Channel::ContactSmartcard => core.contact.timer_snapshot(),
            Channel::ContactlessSmartcard => core.contactless.timer_snapshot(),
            Channel::HidAuthenticator => core.hid.timer_snapshot(),
        };
        Some(timer.next_fire)
    } else {
        None
    }
}

/// The USB smartcard channel's wait-extension task body, run each time its
/// keepalive timer fires (`now_ms` in milliseconds).
pub fn ccid_keepalive(core: &mut Core, now_ms: u64) -> (rearm: Option<u64>)
    requires
        old(core)@.wf(),
        now_ms <= MAX_INSTANT,
    ensures
        final(core)@ == spec_core_fire(old(core)@, Channel::ContactSmartcard, now_ms as int),
        final(core)@.wf(),
        rearm matches Some(t) <==> old(core)@.contact.in_flight(),
        rearm matches Some(t) ==> t == final(core)@.contact.timer.next_fire,
{
    keepalive_fire_channel(core, Channel::ContactSmartcard, now_ms)
}

/// The HID authenticator channel's keepalive task body, run each time its
/// keepalive timer fires (`now_ms` in milliseconds). The emitted keepalive
/// cites "waiting for presence" exactly while the user-presence flag is set.
pub fn ctaphid_keepalive(core: &mut Core, now_ms: u64) -> (rearm: Option<u64>)
    requires
        old(core)@.wf(),
        now_ms <= MAX_INSTANT,
    ensures
        final(core)@ == spec_core_fire(old(core)@, Channel::HidAuthenticator, now_ms as int),
        final(core)@.wf(),
        rearm matches Some(t) <==> old(core)@.hid.in_flight(),
        rearm matches Some(t) ==> t == final(core)@.hid.timer.next_fire,
{
    keepalive_fire_channel(core, Channel::HidAuthenticator, now_ms)
}

/// The contactless channel's wait-extension task body, run each time its
/// keepalive timer fires (`now_cycles` in microcontroller cycles).
pub fn nfc_keepalive(core: &mut Core, now_cycles: u64) -> (rearm: Option<u64>)
    requires
        old(core)@.wf(),
        now_cycles <= MAX_INSTANT,
    ensures
        final(core)@ == spec_core_fire(old(core)@, Channel::ContactlessSmartcard, now_cycles as int),
        final(core)@.wf(),
        rearm matches Some(t) <==> old(core)@.contactless.in_flight(),
        rearm matches Some(t) ==> t == final(core)@.contactless.timer.next_fire,
{
    keepalive_fire_channel(core, Channel::ContactlessSmartcard, now_cycles)
}

} // verus!
