//! Runtime core of a hardware authentication token: the multi-transport
//! dispatch and keepalive scheduling fabric that multiplexes three
//! deadline-bound protocol channels (USB smartcard, USB HID authenticator,
//! contactless smartcard) against one shared, possibly slow, cryptographic
//! backend, without violating any channel's protocol timeout.
//!
//! The crate models time as plain integers (milliseconds of wall clock,
//! microcontroller cycles for the contactless timer domain) and hardware
//! endpoints as traits, so that the scheduling and dispatch logic itself is
//! fully verified; the board glue that pumps real interrupts and buses into
//! these functions lives outside the library.

pub mod adapter;
pub mod events;
pub mod keepalive;
pub mod lock;
pub mod ntp53;
pub mod power;
pub mod registers;
pub mod runtime;
pub mod types;
pub mod ui;

use vstd::prelude::*;

verus! {

/// One of the three independent request/response transports.
#[derive(Clone, Copy, Debug, PartialEq, Eq, Structural)]
pub enum Channel {
    /// USB smartcard channel.
    ContactSmartcard,
    /// Contactless (NFC) smartcard channel.
    ContactlessSmartcard,
    /// USB HID authenticator channel.
    HidAuthenticator,
}

/// Per-channel processing state: whether an exchange is in flight and, if so,
/// whether the backend is blocked on a physical user-presence gesture.
#[derive(Clone, Copy, Debug, PartialEq, Eq, Structural)]
pub enum ProcessingState {
    /// No exchange in flight.
    Idle,
    /// A complete frame has been handed to the backend; a reply is pending.
    AwaitingBackend,
    /// The backend signalled that it is blocked on a physical gesture.
    AwaitingUserPresence,
}

} // verus!
