//! Device identity, power coordination, the locking harness, and the user
//! interface.

use token_runtime::lock::LockHarness;
use token_runtime::lock::ResourceId;
use token_runtime::power::BOOST_THRESHOLD_MILLIVOLTS;
use token_runtime::power::ClockMode;
use token_runtime::power::FieldCoordinator;
use token_runtime::power::FieldState;
use token_runtime::power::cycles_per_ms;
use token_runtime::power::rebase_cycles;
use token_runtime::runtime::UserPresenceStatus;
use token_runtime::types::CtapVersion;
use token_runtime::types::Runner;
use token_runtime::types::RunnerSyscall;
use token_runtime::types::interface_config;
use token_runtime::ui::Button;
use token_runtime::ui::ButtonState;
use token_runtime::ui::ConsentLevel;
use token_runtime::ui::MockButtons;
use token_runtime::ui::MockRgb;
use token_runtime::ui::Press;
use token_runtime::ui::Status;
use token_runtime::ui::UserInterface;

#[test]
fn rebase_scales_cycles_not_wall_time() {
    // 3 ms armed at the reduced clock become 3 ms at the full clock.
    assert_eq!(rebase_cycles(36_000, 12_000, 48_000), 144_000);
    assert_eq!(144_000 / 48_000, 36_000 / 12_000);
    // Rounding never moves the deadline by a whole millisecond.
    assert_eq!(rebase_cycles(35_999, 12_000, 48_000), 143_996);
    assert_eq!(143_996 / 48_000, 35_999 / 12_000);
    // Scaling down divides exactly by the rate ratio.
    assert_eq!(rebase_cycles(144_000, 48_000, 12_000), 36_000);
}

#[test]
fn clock_policy_boosts_only_affordable_active_exchanges() {
    let mut c = FieldCoordinator::new();
    assert_eq!(c.field_state_now(), FieldState::Absent);
    assert_eq!(c.clock_mode_now(), ClockMode::HighThroughput);

    let (before, after) = c.field_event(FieldState::Present, false, 3_000);
    assert_eq!(before, ClockMode::HighThroughput);
    assert_eq!(after, ClockMode::LowPower);

    let (_, boosted) = c.field_event(FieldState::Present, true, BOOST_THRESHOLD_MILLIVOLTS);
    assert_eq!(boosted, ClockMode::HighThroughput);

    let (_, sagging) = c.handle(true, BOOST_THRESHOLD_MILLIVOLTS - 1);
    assert_eq!(sagging, ClockMode::LowPower);

    let (_, halted) = c.field_event(FieldState::Halted, false, 3_000);
    assert_eq!(halted, ClockMode::LowPower);

    let (_, unpowered) = c.field_event(FieldState::Absent, false, 0);
    assert_eq!(unpowered, ClockMode::HighThroughput);
}

#[test]
fn cycle_rates_of_the_two_modes() {
    assert_eq!(cycles_per_ms(ClockMode::LowPower), 12_000);
    assert_eq!(cycles_per_ms(ClockMode::HighThroughput), 48_000);
}

#[test]
fn lock_harness_raises_to_the_ceiling_and_restores() {
    let mut ctx = LockHarness::new(0);
    assert_eq!(ctx.current_priority(), 0);
    ctx.acquire(ResourceId::DispatchTable);
    assert_eq!(ctx.current_priority(), 1);
    ctx.acquire(ResourceId::BackendHandle);
    assert_eq!(ctx.current_priority(), 2);
    ctx.release(ResourceId::BackendHandle);
    assert_eq!(ctx.current_priority(), 1);
    ctx.release(ResourceId::DispatchTable);
    assert_eq!(ctx.current_priority(), 0);
}

#[test]
fn lock_harness_keeps_a_high_priority_context_unmasked() {
    // A contactless interrupt at priority 7 touching the field sensor is
    // raised to the sensor's ceiling, not lowered.
    let mut ctx = LockHarness::new(7);
    ctx.acquire(ResourceId::FieldSensor);
    assert_eq!(ctx.current_priority(), 8);
    ctx.release(ResourceId::FieldSensor);
    assert_eq!(ctx.current_priority(), 7);
}

#[test]
fn interface_config_matches_the_device_identity() {
    let c = interface_config();
    assert_eq!(&c.card_issuer, b"Nitrokey\0\0\0\0\0");
    assert_eq!(c.usb_product, "Nitrokey 3");
    assert_eq!(c.usb_manufacturer, "Nitrokey");
    assert_eq!(c.usb_id_vendor, 0x20A0);
    assert_eq!(c.usb_id_product, 0x42B2);
}

#[test]
fn runner_writes_a_given_serial_big_endian() {
    let serial: u128 = 0x000102030405060708090A0B0C0D0E0F;
    let r = Runner::new(Some(serial), [0xEE; 16], true);
    assert_eq!(
        r.uuid(),
        [0, 1, 2, 3, 4, 5, 6, 7, 8, 9, 10, 11, 12, 13, 14, 15]
    );
    assert!(r.is_efs_available());
}

#[test]
fn runner_falls_back_to_the_drawn_uuid() {
    let r = Runner::new(None, [7; 16], false);
    assert_eq!(r.uuid(), [7; 16]);
    assert!(!r.is_efs_available());
}

#[test]
fn syscall_counts_pending_wakeups() {
    let mut s = RunnerSyscall::default();
    s.syscall();
    s.syscall();
    s.syscall();
    assert_eq!(s.take_pending(), 3);
    assert_eq!(s.take_pending(), 0);
}

#[test]
fn ctap_version_codes() {
    assert_eq!(CtapVersion::U2fV2.code(), 0);
    assert_eq!(CtapVersion::Fido20.code(), 1);
    assert_eq!(CtapVersion::Fido21Pre.code(), 2);
}

fn quiet_buttons() -> MockButtons {
    MockButtons::new(ButtonState { a: false, b: false, middle: false })
}

#[test]
fn presence_check_stops_at_the_first_press() {
    let mut buttons = quiet_buttons();
    buttons.push_sample(false);
    buttons.push_sample(true);
    let mut ui = UserInterface::new(Some(buttons), Some(MockRgb::new()), false);
    let mut presence = UserPresenceStatus::new();
    assert_eq!(ui.check_user_presence(&mut presence), ConsentLevel::Normal);
    assert!(!presence.waiting());
    let (buttons, _) = ui.into_parts();
    let mut buttons = buttons.unwrap();
    // Two samples taken: one miss, then the press that ended the poll.
    assert!(!buttons.is_pressed(Button::A)); // the script is exhausted
}

#[test]
fn presence_check_gives_up_after_the_bounded_tries() {
    let buttons = quiet_buttons();
    let mut ui = UserInterface::new(Some(buttons), Some(MockRgb::new()), false);
    let mut presence = UserPresenceStatus::new();
    assert_eq!(ui.check_user_presence(&mut presence), ConsentLevel::NotGiven);
    assert!(!presence.waiting());
}

#[test]
fn presence_is_granted_outright_without_buttons() {
    let mut ui: UserInterface<MockButtons, MockRgb> = UserInterface::new(None, Some(MockRgb::new()), false);
    let mut presence = UserPresenceStatus::new();
    assert_eq!(ui.check_user_presence(&mut presence), ConsentLevel::Normal);
}

#[test]
fn status_colors_follow_the_palette() {
    let mut ui = UserInterface::new(Some(quiet_buttons()), Some(MockRgb::new()), false);
    ui.set_status(Status::Idle);
    ui.set_status(Status::Processing);
    ui.set_status(Status::WaitingForUserPresence);
    ui.set_status(Status::Error);
    let (_, rgb) = ui.into_parts();
    let rgb = rgb.unwrap();
    assert_eq!(rgb.shown_len(), 4);
    assert_eq!(rgb.shown_at(0), 0x00_FF_02);
    assert_eq!(rgb.shown_at(1), 0x00_FF_5A);
    assert_eq!(rgb.shown_at(2), 0xFF_7E_00);
    assert_eq!(rgb.shown_at(3), 0xFF_00_00);
}

#[test]
fn provisioner_idle_shows_white() {
    let mut ui = UserInterface::new(Some(quiet_buttons()), Some(MockRgb::new()), true);
    ui.set_status(Status::Idle);
    let (_, rgb) = ui.into_parts();
    assert_eq!(rgb.unwrap().shown_at(0), 0xFF_FF_FF);
}

#[test]
fn wink_blinks_white_then_dark_and_expires_into_breathing() {
    let mut ui = UserInterface::new(Some(quiet_buttons()), Some(MockRgb::new()), false);
    ui.set_cycle_count(32_000 * 100); // 100 ms of uptime
    ui.wink(1_000); // white at once, window 100..1100
    ui.refresh(); // (100 - 100) % 500 = 0 -> white
    ui.set_cycle_count(32_000 * 400);
    ui.refresh(); // (400 - 100) % 500 = 300 -> dark
    ui.set_cycle_count(32_000 * 2_000);
    ui.refresh(); // window over: breathing, t = 2000, amp = 2000 * 255 / 2048
    let (_, rgb) = ui.into_parts();
    let rgb = rgb.unwrap();
    assert_eq!(rgb.shown_len(), 4);
    assert_eq!(rgb.shown_at(0), 0xFF_FF_FF);
    assert_eq!(rgb.shown_at(1), 0xFF_FF_FF);
    assert_eq!(rgb.shown_at(2), 0x00_00_00);
    assert_eq!(rgb.shown_at(3), 1 | ((2_000 * 255 / 2_048) * 256));
}

#[test]
fn breathing_turns_blue_while_a_button_is_held() {
    let held = MockButtons::new(ButtonState { a: true, b: false, middle: false });
    let mut ui = UserInterface::new(Some(held), Some(MockRgb::new()), false);
    ui.set_cycle_count(32_000 * 1_000); // t = 1000, amp = 1000 * 255 / 2048 = 124
    ui.refresh();
    let (_, rgb) = ui.into_parts();
    assert_eq!(rgb.unwrap().shown_at(0), 1 | 124);
}

#[test]
fn leaving_idle_aborts_a_pending_wink() {
    let mut ui = UserInterface::new(Some(quiet_buttons()), Some(MockRgb::new()), false);
    ui.set_cycle_count(32_000 * 100);
    ui.wink(1_000);
    ui.set_status(Status::Processing); // aborts the wink
    ui.refresh(); // breathing, not blinking: t = 100, amp = 100 * 255 / 2048 = 12
    let (_, rgb) = ui.into_parts();
    let rgb = rgb.unwrap();
    assert_eq!(rgb.shown_len(), 3);
    assert_eq!(rgb.shown_at(2), 1 | (12 * 256));
}

#[test]
fn uptime_is_derived_from_the_cycle_counter() {
    let mut ui = UserInterface::new(Some(quiet_buttons()), Some(MockRgb::new()), false);
    ui.set_cycle_count(32_000 * 42 + 31_999);
    assert_eq!(ui.uptime_ms(), 42);
}
