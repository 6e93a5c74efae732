//! Device identity: interface configuration constants, the runner identity
//! (device UUID and external-filesystem availability), the syscall signal
//! that wakes the backend's processing interrupt, and the authenticator
//! protocol version tag.

use vstd::prelude::*;

verus! {

/// The device UUID, as sixteen raw bytes.
pub type Uuid = [u8; 16];

/// Constant identity a board presents on its interfaces.
pub struct Config {
    /// Card issuer field of the smartcard answer-to-reset, zero-padded to
    /// thirteen bytes.
    pub card_issuer: [u8; 13],
    /// USB product string.
    pub usb_product: &'static str,
    /// USB manufacturer string.
    pub usb_manufacturer: &'static str,
    /// USB vendor id.
    pub usb_id_vendor: u16,
    /// USB product id.
    pub usb_id_product: u16,
}

/// The interface configuration of this device family.
pub fn interface_config() -> (r: Config)
    ensures
        r.card_issuer@ == seq![
            78u8, 105u8, 116u8, 114u8, 111u8, 107u8, 101u8, 121u8, 0u8, 0u8, 0u8, 0u8, 0u8,
        ],
        r.usb_product@ == "Nitrokey 3"@,
        r.usb_manufacturer@ == "Nitrokey"@,
        r.usb_id_vendor == 0x20A0,
        r.usb_id_product == 0x42B2,
{
    let card_issuer = [78u8, 105, 116, 114, 111, 107, 101, 121, 0, 0, 0, 0, 0];
    proof {
        assert(card_issuer@ =~= seq![
            78u8, 105u8, 116u8, 114u8, 111u8, 107u8, 101u8, 121u8, 0u8, 0u8, 0u8, 0u8, 0u8,
        ]);
    }
    Config {
        card_issuer,
        usb_product: "Nitrokey 3",
        usb_manufacturer: "Nitrokey",
        usb_id_vendor: 0x20A0,
        usb_id_product: 0x42B2,
    }
}

/// Byte `i` (big-endian, 0 first) of a 128-bit serial number.
pub open spec fn spec_u128_byte(x: u128, i: int) -> u8 {
    (((x >> (((15 - i) * 8) as u128)) & 0xFF) as u8)
}

/// The sixteen big-endian bytes of a 128-bit serial number.
pub open spec fn spec_u128_bytes(x: u128) -> Seq<u8> {
    Seq::new(16, |i: int| spec_u128_byte(x, i))
}

/// Byte `i` (big-endian, 0 first) of a 128-bit serial number.
fn u128_byte(x: u128, i: usize) -> (b: u8)
    requires
        i < 16,
    ensures
        b == spec_u128_byte(x, i as int),
{
    let sh: u128 = ((15 - i) * 8) as u128;
    let y = (x >> sh) & 0xFF;
    proof {
        assert((x >> sh) & 0xFF < 256) by (bit_vector);
    }
    y as u8
}

/// The device's runner identity, as the application layer sees it.
pub struct Runner {
    uuid: Uuid,
    efs_available: bool,
}

impl Runner {
    /// The device UUID.
    pub closed spec fn spec_uuid(&self) -> Seq<u8> {
        self.uuid@
    }

    /// Whether the external filesystem is available.
    pub closed spec fn spec_efs_available(&self) -> bool {
        self.efs_available
    }

    /// A runner identity: a given serial number is written out big-endian;
    /// with none given, the sixteen `fallback` bytes (a randomly drawn UUID)
    /// are used as they are.
    pub fn new(serial: Option<u128>, fallback: Uuid, is_efs_available: bool) -> (r: Runner)
        ensures
            (match serial {
                Some(s) => r.spec_uuid() == spec_u128_bytes(s),
                None => r.spec_uuid() == fallback@,
            }),
            r.spec_efs_available() == is_efs_available,
    {
        let uuid: Uuid = match serial {
            Some(s) => {
                let u = [
                    u128_byte(s, 0),
                    u128_byte(s, 1),
                    u128_byte(s, 2),
                    u128_byte(s, 3),
                    u128_byte(s, 4),
                    u128_byte(s, 5),
                    u128_byte(s, 6),
                    u128_byte(s, 7),
                    u128_byte(s, 8),
                    u128_byte(s, 9),
                    u128_byte(s, 10),
                    u128_byte(s, 11),
                    u128_byte(s, 12),
                    u128_byte(s, 13),
                    u128_byte(s, 14),
                    u128_byte(s, 15),
                ];
                proof {
                    assert(u@ =~= spec_u128_bytes(s));
                }
                u
            },
            None => fallback,
        };
        Runner { uuid, efs_available: is_efs_available }
    }

    /// The device UUID.
    pub fn uuid(&self) -> (u: Uuid)
        ensures
            u@ == self.spec_uuid(),
    {
        self.uuid
    }

    /// Whether the external filesystem is available.
    pub fn is_efs_available(&self) -> (b: bool)
        ensures
            b == self.spec_efs_available(),
    {
        self.efs_available
    }
}

/// The signal that wakes the backend's processing interrupt: each syscall
/// pends one wakeup, which the interrupt handler drains.
pub struct RunnerSyscall {
    pending: u64,
}

impl RunnerSyscall {
    /// Number of wakeups pended and not yet drained.
    pub closed spec fn spec_pending(&self) -> int {
        self.pending as int
    }

    /// Pend one wakeup of the backend's processing interrupt.
    pub fn syscall(&mut self)
        requires
            old(self).spec_pending() < u64::MAX,
        ensures
            final(self).spec_pending() == old(self).spec_pending() + 1,
    {
        self.pending = self.pending + 1;
    }

    /// Drain the pended wakeups, handling them all at once.
    pub fn take_pending(&mut self) -> (n: u64)
        ensures
            n == old(self).spec_pending(),
            final(self).spec_pending() == 0,
    {
        let n = self.pending;
        self.pending = 0;
        n
    }
}

impl Default for RunnerSyscall {
    /// No wakeups pending.
    fn default() -> (r: RunnerSyscall)
        ensures
            r.spec_pending() == 0,
    {
        RunnerSyscall { pending: 0 }
    }
}

/// Version of the authenticator protocol a credential was created under.
#[derive(Clone, Copy, Debug, PartialEq, Eq, Structural)]
pub enum CtapVersion {
    U2fV2,
    Fido20,
    Fido21Pre,
}

impl CtapVersion {
    /// The version's numeric tag, as stored in credential records.
    pub fn code(self) -> (n: i32)
        ensures
            n == (match self {
                CtapVersion::U2fV2 => 0int,
                CtapVersion::Fido20 => 1int,
                CtapVersion::Fido21Pre => 2int,
            }),
    {
        match self {
            CtapVersion::U2fV2 => 0,
            CtapVersion::Fido20 => 1,
            CtapVersion::Fido21Pre => 2,
        }
    }
}

} // verus!
