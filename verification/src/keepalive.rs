//! The keepalive / wait-extension scheduler's laws.
//!
//! The USB smartcard and contactless smartcard protocols require a response —
//! or an explicit "please wait longer" extension — within a bounded window,
//! while a backend crypto operation (especially one waiting on a physical
//! touch) routinely exceeds it. `TransportAdapter::keepalive_fire` emits the
//! periodic extensions; this module proves that a promptly serviced timer
//! emits exactly the right number of them, exactly one period apart, and
//! that the stream stops dead once the exchange has ended.

use vstd::prelude::*;
use vstd::arithmetic::div_mod::lemma_basic_div;
use vstd::arithmetic::div_mod::lemma_div_plus_one;
use vstd::arithmetic::div_mod::lemma_fundamental_div_mod_converse;
use vstd::arithmetic::mul::lemma_mul_is_distributive_add_other_way;

use crate::adapter::AdapterView;
use crate::adapter::OutFrame;
use crate::adapter::extension_reason;
use crate::adapter::spec_fire;

verus! {

/// Number of timer fires that happen strictly before the backend reply:
/// the timer is due at `next` and re-arms `period` ticks ahead after each
/// fire; the reply lands at `reply_at` and is handled before a fire
/// scheduled for the same instant.
pub open spec fn extensions_until_reply(next: int, reply_at: int, period: int) -> nat
    decreases (if next < reply_at { reply_at - next } else { 0 })
        when period >= 1
{
    if next < reply_at {
        1 + extensions_until_reply(next + period, reply_at, period)
    } else {
        0
    }
}

/// The instants at which those fires happen.
pub open spec fn fire_times(next: int, reply_at: int, period: int) -> Seq<int>
    decreases (if next < reply_at { reply_at - next } else { 0 })
        when period >= 1
{
    if next < reply_at {
        seq![next] + fire_times(next + period, reply_at, period)
    } else {
        Seq::<int>::empty()
    }
}

/// Closed form of `extensions_until_reply`: the number of multiples of
/// `period` that fit strictly between the arming instant and the reply.
pub proof fn lemma_extensions_closed_form(next: int, reply_at: int, period: int)
    requires
        period >= 1,
    ensures
        extensions_until_reply(next, reply_at, period) == if next < reply_at {
            (reply_at - next - 1) / period + 1
        } else {
            0
        },
    decreases (if next < reply_at { reply_at - next } else { 0 }),
{
    if next < reply_at {
        lemma_extensions_closed_form(next + period, reply_at, period);
        if next + period < reply_at {
            lemma_div_plus_one(reply_at - next - period - 1, period);
        } else {
            lemma_basic_div(reply_at - next - 1, period);
        }
    }
}

/// The fires are exactly one period apart: the `i`-th fire happens at
/// `next + i * period`.
pub proof fn lemma_fire_times(next: int, reply_at: int, period: int)
    requires
        period >= 1,
    ensures
        fire_times(next, reply_at, period).len() == extensions_until_reply(next, reply_at, period),
        forall|i: int| 0 <= i < fire_times(next, reply_at, period).len()
            ==> #[trigger] fire_times(next, reply_at, period)[i] == next + i * period,
    decreases (if next < reply_at { reply_at - next } else { 0 }),
{
    if next < reply_at {
        lemma_fire_times(next + period, reply_at, period);
        let ts = fire_times(next, reply_at, period);
        let rest = fire_times(next + period, reply_at, period);
        assert forall|i: int| 0 <= i < ts.len() implies #[trigger] ts[i] == next + i * period by {
            if i == 0 {
                assert(ts[0] == next);
            } else {
                assert(ts[i] == rest[i - 1]);
                assert(rest[i - 1] == next + period + (i - 1) * period);
                lemma_mul_is_distributive_add_other_way(period, 1, i - 1);
                assert((1 + (i - 1)) * period == 1 * period + (i - 1) * period);
            }
        }
    }
}

/// A promptly serviced timer: starting from an in-flight adapter, apply
/// `spec_fire` at each scheduled instant until the next fire would land at
/// or after the backend reply at `reply_at`.
pub open spec fn prompt_run(v: AdapterView, reply_at: int, presence: bool) -> AdapterView
    decreases (if v.timer.next_fire < reply_at { reply_at - v.timer.next_fire } else { 0 })
        when v.timer.period >= 1
{
    if v.in_flight() && v.timer.next_fire < reply_at {
        prompt_run(spec_fire(v, v.timer.next_fire, presence), reply_at, presence)
    } else {
        v
    }
}

/// What a prompt run does to the adapter: it appends exactly
/// `extensions_until_reply` wait-extension frames to the outbound queue (and
/// changes nothing else but the timer's next fire), every one of them
/// advertising the reason picked from the user-presence flag.
pub proof fn lemma_prompt_run(v: AdapterView, reply_at: int, presence: bool)
    requires
        v.in_flight(),
        v.timer.armed,
        v.timer.period >= 1,
    ensures
        ({
            let w = prompt_run(v, reply_at, presence);
            let n = extensions_until_reply(v.timer.next_fire, reply_at, v.timer.period) as int;
            &&& w.state == v.state
            &&& w.channel == v.channel
            &&& w.buffered == v.buffered
            &&& w.deadline == v.deadline
            &&& w.timer.period == v.timer.period
            &&& w.timer.armed == v.timer.armed
            &&& w.timer.next_fire == v.timer.next_fire + n * v.timer.period
            &&& w.timer.next_fire >= reply_at
            &&& w.outbound.len() == v.outbound.len() + n
            &&& (forall|i: int| 0 <= i < v.outbound.len() ==> #[trigger] w.outbound[i] == v.outbound[i])
            &&& (forall|i: int| v.outbound.len() <= i < w.outbound.len()
                ==> #[trigger] w.outbound[i] == OutFrame::WaitExtension(extension_reason(presence)))
        }),
    decreases (if v.timer.next_fire < reply_at { reply_at - v.timer.next_fire } else { 0 }),
{
    let p = v.timer.period;
    let w = prompt_run(v, reply_at, presence);
    let n = extensions_until_reply(v.timer.next_fire, reply_at, p) as int;
    vstd::arithmetic::mul::lemma_mul_basics(p);
    if v.timer.next_fire < reply_at {
        let v1 = spec_fire(v, v.timer.next_fire, presence);
        lemma_prompt_run(v1, reply_at, presence);
        let n1 = extensions_until_reply(v1.timer.next_fire, reply_at, p) as int;
        assert(w.timer.next_fire == v1.timer.next_fire + n1 * p);
        lemma_mul_is_distributive_add_other_way(p, 1, n1);
        assert((1 + n1) * p == 1 * p + n1 * p);
        let ext = OutFrame::WaitExtension(extension_reason(presence));
        let w1 = prompt_run(v1, reply_at, presence);
        assert(w == w1);
        assert(v1.outbound == v.outbound.push(ext));
        assert forall|i: int| 0 <= i < v.outbound.len() implies #[trigger] w.outbound[i]
            == v.outbound[i] by {
            assert(w1.outbound[i] == v1.outbound[i]);
            assert(v1.outbound[i] == v.outbound[i]);
        }
        assert forall|i: int| v.outbound.len() <= i < w.outbound.len() implies #[trigger] w.outbound[i]
            == ext by {
            if i == v.outbound.len() {
                assert(w1.outbound[i] == v1.outbound[i]);
                assert(v1.outbound[i] == ext);
            } else {
                assert(v1.outbound.len() <= i < w1.outbound.len());
                assert(w1.outbound[i] == ext);
            }
        }
    }
}

/// Keepalive termination: once the channel is back to Idle, a previously
/// armed timer that fires one tick later is a harmless no-op — no frame is
/// emitted and nothing is re-armed.
pub proof fn lemma_keepalive_termination(v: AdapterView, now: int, presence: bool)
    requires
        !v.in_flight(),
    ensures
        spec_fire(v, now, presence) == v,
{
}

/// Keepalive liveness: a channel that enters AwaitingBackend at time `t`
/// (arming its timer for `t + period`) and is answered by the backend at
/// `t + delta` has emitted, under a promptly serviced timer, one
/// wait-extension frame per full period that elapsed before the reply —
/// `(delta - 1) / period` of them, which is `delta / period` rounded down
/// whenever the reply does not land exactly on a fire instant — and the
/// fires were spaced exactly one period apart.
pub proof fn lemma_keepalive_liveness(v: AdapterView, t: int, delta: int, presence: bool)
    requires
        v.in_flight(),
        v.timer.armed,
        v.timer.period >= 1,
        v.timer.next_fire == t + v.timer.period,
        delta >= 0,
    ensures
        ({
            let p = v.timer.period;
            let w = prompt_run(v, t + delta, presence);
            let n = extensions_until_reply(t + p, t + delta, p) as int;
            &&& w.outbound.len() == v.outbound.len() + n
            &&& (delta >= 1 ==> n == (delta - 1) / p)
            &&& (delta == 0 ==> n == 0)
            &&& (delta % p != 0 ==> n == delta / p)
            &&& (forall|i: int| 0 <= i < v.outbound.len() ==> #[trigger] w.outbound[i] == v.outbound[i])
            &&& (forall|i: int| v.outbound.len() <= i < w.outbound.len()
                ==> #[trigger] w.outbound[i] == OutFrame::WaitExtension(extension_reason(presence)))
            &&& (forall|i: int| 0 <= i < n
                ==> #[trigger] fire_times(t + p, t + delta, p)[i] == t + p + i * p)
        }),
{
    let p = v.timer.period;
    lemma_prompt_run(v, t + delta, presence);
    lemma_extensions_closed_form(t + p, t + delta, p);
    lemma_fire_times(t + p, t + delta, p);
    let n = extensions_until_reply(t + p, t + delta, p) as int;
    if delta >= 1 {
        if t + p < t + delta {
            assert(n == (delta - p - 1) / p + 1);
            lemma_div_plus_one(delta - p - 1, p);
            assert(1 + (delta - p - 1) / p == (delta - 1) / p);
        } else {
            assert(n == 0);
            lemma_basic_div(delta - 1, p);
            assert((delta - 1) / p == 0);
        }
    }
    if delta % p != 0 {
        let q = delta / p;
        let r = delta % p;
        vstd::arithmetic::div_mod::lemma_fundamental_div_mod(delta, p);
        assert(delta == p * q + r);
        assert(0 <= r < p) by {
            vstd::arithmetic::div_mod::lemma_mod_bound(delta, p);
        }
        assert(delta - 1 == q * p + (r - 1));
        lemma_fundamental_div_mod_converse(delta - 1, p, q, r - 1);
        assert((delta - 1) / p == q);
    }
}

} // verus!
