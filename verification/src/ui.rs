//! The user interface: presence polling over the board's buttons, status
//! colours on the RGB LED, the wink window, and the cycle-counter uptime.
//!
//! Buttons and LED are capabilities the board supplies; each keeps a
//! transcript of what was sampled or shown, so every contract states
//! exactly which colour was sent and how the presence verdict was reached.
//! `MockButtons` and `MockRgb` are the in-memory implementations for tests.

use vstd::prelude::*;

use crate::runtime::UserPresenceStatus;

verus! {

/// A physical button of the board.
#[derive(Clone, Copy, Debug, PartialEq, Eq, Structural)]
pub enum Button {
    A,
    B,
    Middle,
}

/// A simultaneous reading of all buttons.
#[derive(Clone, Copy, Debug, PartialEq, Eq, Structural)]
pub struct ButtonState {
    pub a: bool,
    pub b: bool,
    pub middle: bool,
}

/// The user's verdict of a presence check.
#[derive(Clone, Copy, Debug, PartialEq, Eq, Structural)]
pub enum ConsentLevel {
    /// No gesture was observed.
    NotGiven,
    /// An ordinary touch was observed.
    Normal,
}

/// Status the backend asks the interface to show.
#[derive(Clone, Copy, Debug, PartialEq, Eq, Structural)]
pub enum Status {
    Idle,
    Processing,
    WaitingForUserPresence,
    Error,
}

/// A board's buttons: a capability to sample them, keeping a transcript of
/// every sample taken.
pub trait Press: Sized {
    /// Transcript of single-button samples.
    spec fn samples(&self) -> Seq<bool>;

    /// Transcript of full button-state reads.
    spec fn states(&self) -> Seq<ButtonState>;

    /// Sample one button.
    fn is_pressed(&mut self, b: Button) -> (r: bool)
        ensures
            final(self).samples() == old(self).samples().push(r),
            final(self).states() == old(self).states();

    /// Read all buttons at once.
    fn state(&mut self) -> (s: ButtonState)
        ensures
            final(self).states() == old(self).states().push(s),
            final(self).samples() == old(self).samples();
}

/// A board's RGB LED: a capability to set its colour, keeping a transcript
/// of every colour shown.
pub trait RgbLed: Sized {
    /// Transcript of colours shown, most recent last.
    spec fn colors(&self) -> Seq<u32>;

    /// Show a colour (0x00RRGGBB).
    fn set(&mut self, color: u32)
        ensures
            final(self).colors() == old(self).colors().push(color);
}

/// Cycles of the core clock per millisecond of uptime.
pub const UPTIME_CYCLES_PER_MS: u32 = 32_000;

/// Colour shown for a backend status.
pub open spec fn status_color(status: Status, provisioner: bool) -> u32 {
    match status {
        Status::Idle => if provisioner {
            0xFF_FF_FF
        } else {
            0x00_FF_02
        },
        Status::Processing => 0x00_FF_5A,
        Status::WaitingForUserPresence => 0xFF_7E_00,
        Status::Error => 0xFF_00_00,
    }
}

/// Colour of the wink blink: 250 ms of white, 250 ms of dark, repeating
/// from the start of the wink window.
pub open spec fn wink_blink_color(now: int, start: int) -> u32 {
    if (now - start) % 500 < 250 {
        0xFF_FF_FF
    } else {
        0x00_00_00
    }
}

/// The idle breathing amplitude: a triangle ramp over a 4096 ms period.
pub open spec fn breathing_amplitude(now: int) -> int {
    let t = now % 4096;
    if t < 2048 {
        t * 255 / 2048
    } else {
        (4095 - t) * 255 / 2048
    }
}

/// The idle breathing colour: the amplitude in blue while a button is held,
/// in green otherwise, always with the lowest blue bit lit.
pub open spec fn breathing_color(pressed: bool, amp: int) -> u32 {
    if pressed {
        1u32 | (amp as u32)
    } else {
        1u32 | ((amp * 256) as u32)
    }
}

/// Whether the wink window covers the present uptime.
pub open spec fn spec_wink_active(v: UiView) -> bool {
    match v.wink {
        Some((s, e)) => s <= v.uptime_ms() < e,
        None => false,
    }
}

/// Start of the wink window.
pub open spec fn spec_wink_start(v: UiView) -> int {
    match v.wink {
        Some((s, _)) => s,
        None => 0,
    }
}

/// Ghost image of the user interface.
#[verifier::ext_equal]
pub ghost struct UiView {
    pub has_buttons: bool,
    pub has_rgb: bool,
    /// Transcript of single-button presence samples.
    pub samples: Seq<bool>,
    /// Transcript of full button-state reads.
    pub states: Seq<ButtonState>,
    /// Transcript of colours shown.
    pub colors: Seq<u32>,
    /// The wink window, as milliseconds of uptime.
    pub wink: Option<(int, int)>,
    pub provisioner: bool,
    /// The cycle count last reported by the timebase.
    pub cycles: int,
}

impl UiView {
    /// Milliseconds of uptime at the last reported cycle count.
    pub open spec fn uptime_ms(self) -> int {
        self.cycles / (UPTIME_CYCLES_PER_MS as int)
    }
}

/// The user interface of a board with optional buttons and an optional RGB
/// LED. A board without buttons runs on passive NFC power, where user
/// presence is taken to be the device's very presence in the field.
pub struct UserInterface<BUTTONS: Press, RGB: RgbLed> {
    buttons: Option<BUTTONS>,
    rgb: Option<RGB>,
    wink: Option<(u64, u64)>,
    provisioner: bool,
    cycles: u32,
}

impl<BUTTONS: Press, RGB: RgbLed> View for UserInterface<BUTTONS, RGB> {
    type V = UiView;

    closed spec fn view(&self) -> UiView {
        UiView {
            has_buttons: self.buttons is Some,
            has_rgb: self.rgb is Some,
            samples: match self.buttons {
                Some(ref b) => b.samples(),
                None => Seq::empty(),
            },
            states: match self.buttons {
                Some(ref b) => b.states(),
                None => Seq::empty(),
            },
            colors: match self.rgb {
                Some(ref r) => r.colors(),
                None => Seq::empty(),
            },
            wink: match self.wink {
                Some((s, e)) => Some((s as int, e as int)),
                None => None,
            },
            provisioner: self.provisioner,
            cycles: self.cycles as int,
        }
    }
}

/// Number of samples a presence check takes before giving up.
pub const PRESENCE_MAX_TRIES: usize = 10;

impl<BUTTONS: Press, RGB: RgbLed> UserInterface<BUTTONS, RGB> {
    /// An interface over the given capabilities, with no wink pending.
    pub fn new(buttons: Option<BUTTONS>, rgb: Option<RGB>, provisioner: bool) -> (r:
        UserInterface<BUTTONS, RGB>)
        ensures
            r@.has_buttons == buttons is Some,
            r@.has_rgb == rgb is Some,
            r@.wink is None,
            r@.provisioner == provisioner,
            r@.cycles == 0,
            r@.colors == (match rgb {
                Some(ref l) => l.colors(),
                None => Seq::<u32>::empty(),
            }),
            r@.samples == (match buttons {
                Some(ref b) => b.samples(),
                None => Seq::<bool>::empty(),
            }),
    {
        UserInterface { buttons, rgb, wink: None, provisioner, cycles: 0 }
    }

    /// Report the current cycle count of the timebase; uptime is derived
    /// from it.
    pub fn set_cycle_count(&mut self, cycles: u32)
        ensures
            final(self)@ == (UiView { cycles: cycles as int, ..old(self)@ }),
    {
        self.cycles = cycles;
        proof {
            assert(self@ =~= (UiView { cycles: cycles as int, ..old(self)@ }));
        }
    }

    /// Milliseconds of uptime at the last reported cycle count.
    pub fn uptime_ms(&self) -> (ms: u64)
        ensures
            ms == self@.uptime_ms(),
    {
        (self.cycles / UPTIME_CYCLES_PER_MS) as u64
    }

    /// Poll for user presence: sample the primary button up to
    /// `PRESENCE_MAX_TRIES` times, stopping at the first press; the
    /// process-wide presence flag is set around every sample, and is always
    /// clear again when the check returns. On a board without buttons
    /// presence is granted outright: passive NFC power means a user is
    /// holding the device to the reader.
    pub fn check_user_presence(&mut self, presence: &mut UserPresenceStatus) -> (r: ConsentLevel)
        requires
            !old(presence).is_waiting(),
        ensures
            !final(presence).is_waiting(),
            !old(self)@.has_buttons ==> r == ConsentLevel::Normal && final(self)@ == old(self)@,
            old(self)@.has_buttons ==> ({
                let before = old(self)@.samples;
                let after = final(self)@.samples;
                &&& final(self)@ == (UiView { samples: after, ..old(self)@ })
                &&& before.is_prefix_of(after)
                &&& 1 <= after.len() - before.len() <= PRESENCE_MAX_TRIES
                &&& (r == ConsentLevel::Normal <==> after.last() == true)
                &&& (forall|i: int| before.len() <= i < after.len() - 1 ==> after[i] == false)
            }),
    {
        let ghost v0 = self@;
        match &mut self.buttons {
            Some(buttons) => {
                let ghost before = buttons.samples();
                let mut is_pressed = false;
                let mut tries: usize = 0;
                while tries < PRESENCE_MAX_TRIES && !is_pressed
                    invariant
                        tries <= PRESENCE_MAX_TRIES,
                        buttons.samples().len() == before.len() + tries,
                        before.is_prefix_of(buttons.samples()),
                        buttons.states() == v0.states,
                        tries == 0 ==> !is_pressed,
                        tries > 0 ==> is_pressed == buttons.samples().last(),
                        forall|i: int| before.len() <= i < buttons.samples().len() - 1
                            ==> buttons.samples()[i] == false,
                        !presence.is_waiting(),
                    decreases PRESENCE_MAX_TRIES - tries,
                {
                    presence.set_waiting(true);
                    is_pressed = buttons.is_pressed(Button::A);
                    presence.set_waiting(false);
                    tries += 1;
                }
                let r = if is_pressed {
                    ConsentLevel::Normal
                } else {
                    ConsentLevel::NotGiven
                };
                proof {
                    assert(self@ =~= (UiView { samples: self@.samples, ..v0 }));
                }
                r
            },
            None => {
                proof {
                    assert(self@ =~= v0);
                }
                ConsentLevel::Normal
            },
        }
    }

    /// Show the backend's status on the LED, and abort a pending wink if the
    /// device is no longer idle.
    pub fn set_status(&mut self, status: Status)
        ensures
            final(self)@ == (UiView {
                colors: if old(self)@.has_rgb {
                    old(self)@.colors.push(status_color(status, old(self)@.provisioner))
                } else {
                    old(self)@.colors
                },
                wink: if status != Status::Idle {
                    None
                } else {
                    old(self)@.wink
                },
                ..old(self)@
            }),
    {
        let ghost v0 = self@;
        let color = match status {
            Status::Idle => if self.provisioner {
                0xFF_FF_FF
            } else {
                0x00_FF_02
            },
            Status::Processing => 0x00_FF_5A,
            Status::WaitingForUserPresence => 0xFF_7E_00,
            Status::Error => 0xFF_00_00,
        };
        match &mut self.rgb {
            Some(rgb) => rgb.set(color),
            None => (),
        }
        if !matches!(status, Status::Idle) {
            self.wink = None;
        }
        proof {
            assert(self@ =~= (UiView {
                colors: if v0.has_rgb {
                    v0.colors.push(status_color(status, v0.provisioner))
                } else {
                    v0.colors
                },
                wink: if status != Status::Idle {
                    None
                } else {
                    v0.wink
                },
                ..v0
            }));
        }
    }

    /// Start winking for `duration_ms` milliseconds from now: the window is
    /// recorded and the LED lit white at once. Requires an LED to wink with.
    pub fn wink(&mut self, duration_ms: u64)
        requires
            old(self)@.has_rgb,
            old(self)@.uptime_ms() + duration_ms <= u64::MAX,
        ensures
            final(self)@ == (UiView {
                wink: Some((old(self)@.uptime_ms(), old(self)@.uptime_ms() + duration_ms)),
                colors: old(self)@.colors.push(0xFF_FF_FF),
                ..old(self)@
            }),
    {
        let ghost v0 = self@;
        let now = self.uptime_ms();
        self.wink = Some((now, now + duration_ms));
        match &mut self.rgb {
            Some(rgb) => rgb.set(0xFF_FF_FF),
            None => (),
        }
        proof {
            assert(self@ =~= (UiView {
                wink: Some((v0.uptime_ms(), v0.uptime_ms() + duration_ms)),
                colors: v0.colors.push(0xFF_FF_FF),
                ..v0
            }));
        }
    }

    /// Refresh the LED. Inside a pending wink window the LED blinks white;
    /// a wink window that has passed is cleared; otherwise, on a board with
    /// buttons, the LED breathes — blue while a button is held, green
    /// otherwise. Without an LED nothing happens.
    pub fn refresh(&mut self)
        ensures
            !old(self)@.has_rgb ==> final(self)@ == old(self)@,
            old(self)@.has_rgb && spec_wink_active(old(self)@) ==> final(self)@ == (UiView {
                colors: old(self)@.colors.push(
                    wink_blink_color(old(self)@.uptime_ms(), spec_wink_start(old(self)@)),
                ),
                ..old(self)@
            }),
            old(self)@.has_rgb && !spec_wink_active(old(self)@) && old(self)@.has_buttons ==> final(self)@ == spec_breathe(
                (UiView { wink: None, ..old(self)@ }),
                final(self)@.states.last(),
            ),
            old(self)@.has_rgb && !spec_wink_active(old(self)@) && !old(self)@.has_buttons ==> final(self)@ == (UiView { wink: None, ..old(self)@ }),
    {
        let ghost v0 = self@;
        if self.rgb.is_none() {
            proof {
                assert(self@ =~= v0);
            }
            return ;
        }
        let now = self.uptime_ms();
        match self.wink {
            Some((s, e)) => {
                if s <= now && now < e {
                    let color = if (now - s) % 500 < 250 {
                        0xFF_FF_FF
                    } else {
                        0x00_00_00
                    };
                    match &mut self.rgb {
                        Some(rgb) => rgb.set(color),
                        None => (),
                    }
                    proof {
                        assert(self@ =~= (UiView {
                            colors: v0.colors.push(wink_blink_color(now as int, s as int)),
                            ..v0
                        }));
                    }
                    return ;
                } else {
                    self.wink = None;
                }
            },
            None => (),
        }
        let ghost v1 = self@;
        proof {
            assert(v1 =~= (UiView { wink: v1.wink, ..v0 }));
        }
        match &mut self.buttons {
            Some(buttons) => {
                let t = now % 4096;
                let amp: u64 = if t < 2048 {
                    t * 255 / 2048
                } else {
                    (4095 - t) * 255 / 2048
                };
                let held = buttons.state();
                let pressed = held.a || held.b || held.middle;
                let color: u32 = if pressed {
                    1u32 | (amp as u32)
                } else {
                    1u32 | ((amp * 256) as u32)
                };
                match &mut self.rgb {
                    Some(rgb) => rgb.set(color),
                    None => (),
                }
                proof {
                    assert(self@ =~= spec_breathe(v1, self@.states.last()));
                }
            },
            None => {
                proof {
                    assert(self@ =~= v1);
                }
            },
        }
    }
}

/// The breathing step on a board with buttons: one button-state read `s` is
/// recorded and the breathing colour derived from it is shown.
pub open spec fn spec_breathe(v: UiView, s: ButtonState) -> UiView {
    UiView {
        states: v.states.push(s),
        colors: v.colors.push(
            breathing_color(s.a || s.b || s.middle, breathing_amplitude(v.uptime_ms())),
        ),
        ..v
    }
}


impl<BUTTONS: Press, RGB: RgbLed> UserInterface<BUTTONS, RGB> {
    /// Take the interface apart, handing the capabilities back (for example
    /// to inspect a mock's transcript).
    pub fn into_parts(self) -> (r: (Option<BUTTONS>, Option<RGB>))
        ensures
            r.0 is Some <==> self@.has_buttons,
            r.1 is Some <==> self@.has_rgb,
            (match r.0 {
                Some(b) => b.samples() == self@.samples && b.states() == self@.states,
                None => true,
            }),
            (match r.1 {
                Some(l) => l.colors() == self@.colors,
                None => true,
            }),
    {
        (self.buttons, self.rgb)
    }
}

/// In-memory buttons: single-button samples answer from a scripted queue
/// (false once the script is exhausted), and a full read always reports the
/// fixed `held` state.
pub struct MockButtons {
    script: Vec<bool>,
    cursor: usize,
    held: ButtonState,
    taken: Vec<bool>,
    reads: Vec<ButtonState>,
}

impl MockButtons {
    /// Fresh buttons with the given held state and an empty script.
    pub fn new(held: ButtonState) -> (r: MockButtons)
        ensures
            r.samples().len() == 0,
            r.states().len() == 0,
    {
        let r = MockButtons {
            script: Vec::new(),
            cursor: 0,
            held,
            taken: Vec::new(),
            reads: Vec::new(),
        };
        proof {
            assert(r.samples() =~= Seq::<bool>::empty());
            assert(r.states() =~= Seq::<ButtonState>::empty());
        }
        r
    }

    /// Queue the answer the next single-button sample will get.
    pub fn push_sample(&mut self, pressed: bool)
        ensures
            final(self).samples() == old(self).samples(),
            final(self).states() == old(self).states(),
    {
        self.script.push(pressed);
    }
}

impl Press for MockButtons {
    closed spec fn samples(&self) -> Seq<bool> {
        self.taken@
    }

    closed spec fn states(&self) -> Seq<ButtonState> {
        self.reads@
    }

    fn is_pressed(&mut self, b: Button) -> (r: bool) {
        let r = if self.cursor < self.script.len() {
            let v = self.script[self.cursor];
            self.cursor = self.cursor + 1;
            v
        } else {
            false
        };
        self.taken.push(r);
        r
    }

    fn state(&mut self) -> (s: ButtonState) {
        let s = self.held;
        self.reads.push(s);
        s
    }
}

/// An in-memory RGB LED that records every colour shown.
pub struct MockRgb {
    shown: Vec<u32>,
}

impl MockRgb {
    /// A fresh LED with nothing shown yet.
    pub fn new() -> (r: MockRgb)
        ensures
            r.colors().len() == 0,
    {
        let r = MockRgb { shown: Vec::new() };
        proof {
            assert(r.colors() =~= Seq::<u32>::empty());
        }
        r
    }

    /// Number of colours shown so far.
    pub fn shown_len(&self) -> (n: usize)
        ensures
            n == self.colors().len(),
    {
        self.shown.len()
    }

    /// The `i`-th colour shown.
    pub fn shown_at(&self, i: usize) -> (c: u32)
        requires
            i < self.colors().len(),
        ensures
            c == self.colors()[i as int],
    {
        self.shown[i]
    }
}

impl RgbLed for MockRgb {
    closed spec fn colors(&self) -> Seq<u32> {
        self.shown@
    }

    fn set(&mut self, color: u32) {
        self.shown.push(color);
    }
}

} // verus!
