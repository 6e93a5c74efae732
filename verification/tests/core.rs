//! End-to-end behaviour of the dispatch core: framing, the one-in-flight
//! discipline, keepalive emission and termination, hard timeouts, and
//! contactless field handling.

use token_runtime::Channel;
use token_runtime::ProcessingState;
use token_runtime::adapter::ExtensionReason;
use token_runtime::adapter::FrameStatus;
use token_runtime::adapter::OutboundFrame;
use token_runtime::adapter::TransportAdapter;
use token_runtime::power::FieldState;
use token_runtime::runtime::BackendSlot;
use token_runtime::runtime::Core;
use token_runtime::runtime::SubmitOutcome;
use token_runtime::runtime::UserPresenceStatus;
use token_runtime::runtime::ccid_keepalive;
use token_runtime::runtime::ctaphid_keepalive;
use token_runtime::runtime::nfc_keepalive;
use token_runtime::runtime::poll_dispatchers;
use token_runtime::runtime::poll_nfc;
use token_runtime::runtime::poll_usb;

fn frame(payload: &[u8]) -> Vec<u8> {
    let mut f = vec![payload.len() as u8];
    f.extend_from_slice(payload);
    f
}

#[test]
fn feed_assembles_a_split_frame() {
    let mut a = TransportAdapter::new(Channel::HidAuthenticator);
    match a.feed(&vec![3, 0xA1]) {
        FrameStatus::Incomplete => {}
        _ => panic!("expected Incomplete"),
    }
    match a.feed(&vec![0xB2, 0xC3]) {
        FrameStatus::Complete(p) => assert_eq!(p, vec![0xA1, 0xB2, 0xC3]),
        _ => panic!("expected Complete"),
    }
}

#[test]
fn feed_rejects_zero_length_header() {
    let mut a = TransportAdapter::new(Channel::HidAuthenticator);
    match a.feed(&vec![0, 1, 2]) {
        FrameStatus::Malformed => {}
        _ => panic!("expected Malformed"),
    }
    assert_eq!(a.buffered_len(), 0);
}

#[test]
fn feed_rejects_bytes_beyond_one_frame() {
    let mut a = TransportAdapter::new(Channel::HidAuthenticator);
    match a.feed(&vec![2, 1, 2, 3]) {
        FrameStatus::Malformed => {}
        _ => panic!("expected Malformed"),
    }
}

#[test]
fn feed_rejects_bytes_while_frame_parked() {
    let mut a = TransportAdapter::new(Channel::HidAuthenticator);
    match a.feed(&frame(&[1, 2])) {
        FrameStatus::Complete(_) => {}
        _ => panic!("expected Complete"),
    }
    match a.feed(&vec![9]) {
        FrameStatus::Malformed => {}
        _ => panic!("expected Malformed"),
    }
    // The parked frame survives the rejected bytes.
    assert!(a.has_complete_frame());
}

#[test]
fn feed_rejects_bytes_while_exchange_in_flight() {
    let mut core = Core::new(100, 30_000);
    core.ingest(Channel::HidAuthenticator, &frame(&[1]));
    poll_dispatchers(&mut core, 0, 0);
    assert_eq!(
        core.channel_state(Channel::HidAuthenticator),
        ProcessingState::AwaitingBackend
    );
    match core.ingest(Channel::HidAuthenticator, &frame(&[2])) {
        FrameStatus::Malformed => {}
        _ => panic!("a frame arriving while not Idle must be rejected"),
    }
}

#[test]
fn one_in_flight_across_channels() {
    let mut core = Core::new(100, 30_000);
    core.ingest(Channel::HidAuthenticator, &frame(&[1]));
    core.ingest(Channel::ContactSmartcard, &frame(&[2]));
    let (usb, nfc) = poll_dispatchers(&mut core, 0, 0);
    assert!(usb);
    assert!(!nfc);
    // The contact frame was first in dispatch order, so it occupies the slot;
    // the HID frame stays parked until the slot frees up.
    assert_eq!(
        core.channel_state(Channel::ContactSmartcard),
        ProcessingState::AwaitingBackend
    );
    assert_eq!(core.channel_state(Channel::HidAuthenticator), ProcessingState::Idle);
    assert!(core.backend_busy());

    // Finish the contact exchange; the next poll delivers it and submits HID.
    assert!(core.backend_finish(vec![0x90, 0x00]));
    let (usb2, _) = poll_dispatchers(&mut core, 10, 10);
    assert!(usb2);
    assert_eq!(core.channel_state(Channel::ContactSmartcard), ProcessingState::Idle);
    assert_eq!(
        core.channel_state(Channel::HidAuthenticator),
        ProcessingState::AwaitingBackend
    );
    assert_eq!(core.outbound_count(Channel::ContactSmartcard), 1);
}

#[test]
fn hid_keepalive_scenario_900ms_presence() {
    let mut core = Core::new(100, 30_000);
    match core.ingest(Channel::HidAuthenticator, &frame(&[0xA4, 1, 2, 3])) {
        FrameStatus::Complete(p) => assert_eq!(p, vec![0xA4, 1, 2, 3]),
        _ => panic!("expected Complete"),
    }
    let (usb, nfc) = poll_dispatchers(&mut core, 0, 0);
    assert!(usb && !nfc);
    assert_eq!(
        core.channel_state(Channel::HidAuthenticator),
        ProcessingState::AwaitingBackend
    );
    let t = core.timer_snapshot(Channel::HidAuthenticator);
    assert!(t.armed);
    assert_eq!(t.next_fire, 100);
    assert_eq!(t.period, 100);

    // The backend blocks on the user-presence gesture.
    core.set_user_presence(true);
    assert_eq!(
        core.channel_state(Channel::HidAuthenticator),
        ProcessingState::AwaitingUserPresence
    );

    // Eight fires before the reply lands at 900 ms, each re-arming 100 ms on.
    for k in 1..=8u64 {
        let rearm = ctaphid_keepalive(&mut core, k * 100);
        assert_eq!(rearm, Some((k + 1) * 100));
    }
    assert_eq!(core.outbound_count(Channel::HidAuthenticator), 8);

    // The gesture arrives; the backend finishes at 900 ms.
    core.set_user_presence(false);
    assert!(core.backend_finish(vec![0x90, 0x00]));
    let (usb2, _) = poll_dispatchers(&mut core, 900, 900);
    assert!(usb2);
    assert_eq!(core.channel_state(Channel::HidAuthenticator), ProcessingState::Idle);
    assert!(!core.timer_snapshot(Channel::HidAuthenticator).armed);

    // A stray fire one tick later emits nothing.
    assert_eq!(ctaphid_keepalive(&mut core, 1000), None);
    assert_eq!(core.outbound_count(Channel::HidAuthenticator), 9);

    // Exactly eight extensions citing the presence wait, then the response.
    for _ in 0..8 {
        match core.pop_outbound(Channel::HidAuthenticator) {
            Some(OutboundFrame::WaitExtension(reason)) => {
                assert_eq!(reason, ExtensionReason::WaitingForPresence)
            }
            _ => panic!("expected a wait extension"),
        }
    }
    match core.pop_outbound(Channel::HidAuthenticator) {
        Some(OutboundFrame::Response(r)) => assert_eq!(r, vec![0x90, 0x00]),
        _ => panic!("expected the response"),
    }
    assert!(core.pop_outbound(Channel::HidAuthenticator).is_none());
}

#[test]
fn keepalive_count_matches_elapsed_periods() {
    // A reply after 250 ms with a 100 ms period: fires at 100 and 200 only.
    let mut core = Core::new(100, 30_000);
    core.ingest(Channel::ContactSmartcard, &frame(&[1]));
    poll_dispatchers(&mut core, 0, 0);
    assert_eq!(ccid_keepalive(&mut core, 100), Some(200));
    assert_eq!(ccid_keepalive(&mut core, 200), Some(300));
    assert!(core.backend_finish(vec![0]));
    poll_dispatchers(&mut core, 250, 250);
    assert_eq!(core.outbound_count(Channel::ContactSmartcard), 3);
    assert_eq!(ccid_keepalive(&mut core, 300), None);
    assert_eq!(core.outbound_count(Channel::ContactSmartcard), 3);
}

#[test]
fn keepalive_reason_is_busy_without_presence_poll() {
    let mut core = Core::new(100, 30_000);
    core.ingest(Channel::ContactSmartcard, &frame(&[1]));
    poll_dispatchers(&mut core, 0, 0);
    ccid_keepalive(&mut core, 100);
    match core.pop_outbound(Channel::ContactSmartcard) {
        Some(OutboundFrame::WaitExtension(reason)) => assert_eq!(reason, ExtensionReason::Busy),
        _ => panic!("expected a wait extension"),
    }
}

#[test]
fn hard_timeout_fires_exactly_once() {
    let mut core = Core::new(100, 30_000);
    core.ingest(Channel::HidAuthenticator, &frame(&[1]));
    poll_dispatchers(&mut core, 0, 0);
    assert!(!core.check_timeout(Channel::HidAuthenticator, 29_999));
    assert!(core.check_timeout(Channel::HidAuthenticator, 30_000));
    assert_eq!(core.channel_state(Channel::HidAuthenticator), ProcessingState::Idle);
    assert!(!core.timer_snapshot(Channel::HidAuthenticator).armed);
    assert!(!core.check_timeout(Channel::HidAuthenticator, 30_001));
}

#[test]
fn timeout_isolation_leaves_other_channels_alone() {
    let mut core = Core::new(100, 30_000);
    // Contact has a partial frame buffered; HID is mid-exchange.
    core.ingest(Channel::ContactSmartcard, &vec![5, 1]);
    core.ingest(Channel::HidAuthenticator, &frame(&[7]));
    poll_dispatchers(&mut core, 0, 0);
    assert_eq!(
        core.channel_state(Channel::HidAuthenticator),
        ProcessingState::AwaitingBackend
    );
    let contact_buffered = core.buffered_count(Channel::ContactSmartcard);

    assert!(core.check_timeout(Channel::HidAuthenticator, 40_000));

    assert_eq!(core.channel_state(Channel::ContactSmartcard), ProcessingState::Idle);
    assert_eq!(core.buffered_count(Channel::ContactSmartcard), contact_buffered);
    assert!(!core.timer_snapshot(Channel::ContactSmartcard).armed);
    assert_eq!(core.outbound_count(Channel::ContactSmartcard), 0);
}

#[test]
fn stale_reply_after_timeout_is_discarded() {
    let mut core = Core::new(100, 30_000);
    core.ingest(Channel::HidAuthenticator, &frame(&[1]));
    poll_dispatchers(&mut core, 0, 0);
    assert!(core.check_timeout(Channel::HidAuthenticator, 30_000));
    // The backend was mid-computation; its reply arrives after the teardown.
    assert!(core.backend_finish(vec![0x69, 0x85]));
    poll_dispatchers(&mut core, 30_100, 30_100);
    assert_eq!(core.channel_state(Channel::HidAuthenticator), ProcessingState::Idle);
    assert_eq!(core.outbound_count(Channel::HidAuthenticator), 0);
}

#[test]
fn poll_schedules_follow_ups_for_armed_timers() {
    let mut core = Core::new(100, 30_000);
    core.ingest(Channel::ContactSmartcard, &frame(&[1]));
    poll_dispatchers(&mut core, 0, 0);
    let (ccid, ctaphid) = poll_usb(&mut core, 10);
    assert_eq!(ccid, Some(100));
    assert_eq!(ctaphid, None);
    assert_eq!(poll_nfc(&mut core, 10), None);
}

#[test]
fn field_removal_cancels_contactless_only() {
    let mut core = Core::new(100, 30_000);
    // Field appears; an idle device on field power runs at the reduced clock.
    core.field_event(FieldState::Present, 3_000, 0);
    // A contactless exchange begins; contact has unrelated buffered bytes.
    core.ingest(Channel::ContactSmartcard, &vec![4, 9]);
    core.ingest(Channel::ContactlessSmartcard, &frame(&[0x60]));
    poll_dispatchers(&mut core, 0, 0);
    assert_eq!(
        core.channel_state(Channel::ContactlessSmartcard),
        ProcessingState::AwaitingBackend
    );
    assert!(core.timer_snapshot(Channel::ContactlessSmartcard).armed);

    // The reader walks away mid-exchange.
    core.field_event(FieldState::Absent, 0, 500);

    assert_eq!(
        core.channel_state(Channel::ContactlessSmartcard),
        ProcessingState::Idle
    );
    assert!(!core.timer_snapshot(Channel::ContactlessSmartcard).armed);
    // Unrelated channels keep their buffered state.
    assert_eq!(core.buffered_count(Channel::ContactSmartcard), 2);
    assert_eq!(core.channel_state(Channel::ContactSmartcard), ProcessingState::Idle);
}

#[test]
fn clock_boost_rescales_the_armed_contactless_timer() {
    let mut core = Core::new(100, 30_000);
    core.field_event(FieldState::Present, 2_000, 0);
    assert_eq!(core.clock_mode(), token_runtime::power::ClockMode::LowPower);
    core.ingest(Channel::ContactlessSmartcard, &frame(&[0x60]));
    poll_dispatchers(&mut core, 0, 0);
    let t = core.timer_snapshot(Channel::ContactlessSmartcard);
    assert!(t.armed);
    // 100 ms at 12000 cycles/ms.
    assert_eq!(t.period, 1_200_000);
    assert_eq!(t.next_fire, 1_200_000);

    // A well-supplied field allows a boost during the active exchange; the
    // timer is re-expressed in cycles of the fast clock, wall time unchanged.
    core.field_event(FieldState::Present, 3_000, 0);
    assert_eq!(core.clock_mode(), token_runtime::power::ClockMode::HighThroughput);
    let t2 = core.timer_snapshot(Channel::ContactlessSmartcard);
    assert_eq!(t2.period, 4_800_000);
    assert_eq!(t2.next_fire, 4_800_000);
    assert_eq!(t2.next_fire / 48_000, t.next_fire / 12_000);

    // The rescaled timer drives the wait extensions in the new cycle domain.
    assert_eq!(nfc_keepalive(&mut core, 4_800_000), Some(9_600_000));
}

#[test]
fn submit_requires_idle_channel_and_free_slot() {
    let mut core = Core::new(100, 30_000);
    core.ingest(Channel::HidAuthenticator, &frame(&[1]));
    poll_dispatchers(&mut core, 0, 0);
    assert!(core.backend_busy());
    // A complete contact frame arrives while the slot is busy: it stays
    // parked, and no second request reaches the backend.
    core.ingest(Channel::ContactSmartcard, &frame(&[2]));
    let (usb, nfc) = poll_dispatchers(&mut core, 50, 50);
    assert!(!usb && !nfc);
    assert_eq!(core.channel_state(Channel::ContactSmartcard), ProcessingState::Idle);
    assert_eq!(core.buffered_count(Channel::ContactSmartcard), 2);
}

#[test]
fn user_presence_status_toggles() {
    let mut p = UserPresenceStatus::new();
    assert!(!p.waiting());
    p.set_waiting(true);
    assert!(p.waiting());
    p.set_waiting(false);
    assert!(!p.waiting());
}

#[test]
fn a_second_submit_is_refused_while_one_is_outstanding() {
    let mut slot = BackendSlot::new();
    assert_eq!(slot.submit(Channel::HidAuthenticator, vec![1]), SubmitOutcome::Accepted);
    assert_eq!(slot.submit(Channel::ContactSmartcard, vec![2]), SubmitOutcome::Busy);
    // Even after the backend finishes, the slot stays occupied until the
    // completion has been collected.
    assert!(slot.finish(vec![0x90, 0x00]));
    assert_eq!(slot.submit(Channel::ContactSmartcard, vec![2]), SubmitOutcome::Busy);
    let (c, reply) = slot.poll_completions().unwrap();
    assert_eq!(c, Channel::HidAuthenticator);
    assert_eq!(reply, vec![0x90, 0x00]);
    assert_eq!(slot.submit(Channel::ContactSmartcard, vec![2]), SubmitOutcome::Accepted);
}
