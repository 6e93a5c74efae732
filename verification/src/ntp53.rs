//! Driver for the NFC tag front-end, reached over an I2C bus.
//!
//! The driver's job is exact: compose each register access into the byte
//! sequence the tag expects and parse the bytes that come back. Its
//! contracts state, for every method, precisely which I2C transactions are
//! issued (over the bus's transcript) and how the result is assembled from
//! the bytes received. The bus itself is a capability the embedding
//! supplies; `MockBus` is an in-memory bus for driving the driver in tests.

use vstd::prelude::*;

use crate::registers::ConfigRegister;
use crate::registers::ConfigRegister0;
use crate::registers::ConfigRegister1;
use crate::registers::ConfigRegister2;
use crate::registers::I2cSlaveConfig;
use crate::registers::I2cSlaveConfiguration;
use crate::registers::Register;
use crate::registers::StatusRegister;
use crate::registers::StatusRegister0;
use crate::registers::StatusRegister1;
use crate::registers::WdtEnableRegister;
use crate::registers::WdtRegister;
use crate::registers::spec_register_addr;

verus! {

/// The tag's I2C slave address.
pub const NFC_ADDR: u8 = 0x54;

/// High byte of a 16-bit big-endian value.
pub open spec fn u16_msb(x: u16) -> u8 {
    (x >> 8) as u8
}

/// Low byte of a 16-bit big-endian value.
pub open spec fn u16_lsb(x: u16) -> u8 {
    (x & 0xFF) as u8
}

/// A 16-bit value assembled from its big-endian bytes.
pub open spec fn u16_from_be(msb: u8, lsb: u8) -> u16 {
    (((msb as u16) << 8) | (lsb as u16)) as u16
}

/// Splitting a 16-bit value into big-endian bytes and reassembling them is
/// the identity, in both directions.
pub proof fn lemma_be_round_trip(msb: u8, lsb: u8, x: u16)
    ensures
        u16_msb(u16_from_be(msb, lsb)) == msb,
        u16_lsb(u16_from_be(msb, lsb)) == lsb,
        u16_from_be(u16_msb(x), u16_lsb(x)) == x,
{
    assert(((((msb as u16) << 8) | (lsb as u16)) as u16 >> 8) as u8 == msb) by (bit_vector);
    assert(((((msb as u16) << 8) | (lsb as u16)) as u16 & 0xFF) as u8 == lsb) by (bit_vector);
    assert(((((x >> 8) as u8 as u16) << 8) | ((x & 0xFF) as u8 as u16)) as u16 == x) by (bit_vector);
}

/// The big-endian bytes of a 16-bit value.
fn be_bytes_of_u16(x: u16) -> (r: (u8, u8))
    ensures
        r.0 == u16_msb(x),
        r.1 == u16_lsb(x),
{
    assert(x >> 8 < 256) by (bit_vector);
    assert(x & 0xFF < 256) by (bit_vector);
    ((x >> 8) as u8, (x & 0xFF) as u8)
}

/// A 16-bit value from its big-endian bytes.
fn u16_from_be_bytes(msb: u8, lsb: u8) -> (r: u16)
    ensures
        r == u16_from_be(msb, lsb),
{
    ((msb as u16) << 8) | (lsb as u16)
}

/// A byte-for-byte copy of a byte vector.
fn copy_bytes(src: &Vec<u8>) -> (r: Vec<u8>)
    ensures
        r@ == src@,
{
    let mut r: Vec<u8> = Vec::new();
    let mut i: usize = 0;
    while i < src.len()
        invariant
            i <= src@.len(),
            r@ =~= src@.take(i as int),
        decreases src@.len() - i,
    {
        let b = src[i];
        r.push(b);
        i += 1;
        proof {
            assert(r@ =~= src@.take(i as int));
        }
    }
    proof {
        assert(src@.take(src@.len() as int) =~= src@);
    }
    r
}

/// One transaction in an I2C bus's transcript.
pub ghost enum I2cOp {
    /// Bytes written to a device.
    Write { addr: u8, sent: Seq<u8> },
    /// Bytes written, then bytes read back, in one transaction.
    WriteRead { addr: u8, sent: Seq<u8>, recv: Seq<u8> },
}

/// Error reported by an I2C bus.
#[derive(Clone, Copy, Debug, PartialEq, Eq, Structural)]
pub enum BusError {
    /// The device did not acknowledge.
    Nack,
    /// Any other bus fault.
    Other,
}

/// An I2C bus, as the driver sees it: a capability to issue write and
/// write-read transactions, keeping a transcript of everything performed.
/// The embedding supplies the real bus; `MockBus` is the in-memory one.
pub trait I2cBus: Sized {
    /// The transcript of transactions performed so far.
    spec fn ops(&self) -> Seq<I2cOp>;

    /// Write `data` to the device at `addr`. A failed transaction leaves no
    /// trace in the transcript.
    fn write(&mut self, addr: u8, data: &Vec<u8>) -> (r: Result<(), BusError>)
        ensures
            r is Ok ==> final(self).ops() == old(self).ops().push(
                I2cOp::Write { addr, sent: data@ },
            ),
            r is Err ==> final(self).ops() == old(self).ops();

    /// Write `data` to the device at `addr`, then read exactly `read_len`
    /// bytes back, in one transaction. A failed transaction leaves no trace
    /// in the transcript.
    fn write_read(&mut self, addr: u8, data: &Vec<u8>, read_len: usize) -> (r: Result<
        Vec<u8>,
        BusError,
    >)
        ensures
            r matches Ok(resp) ==> resp@.len() == read_len && final(self).ops() == old(self).ops().push(I2cOp::WriteRead { addr, sent: data@, recv: resp@ }),
            r is Err ==> final(self).ops() == old(self).ops();
}

/// The write-read transaction that reads one byte of a session register.
pub open spec fn reg_read_op(register: Register, offset: u8, recv: Seq<u8>) -> I2cOp {
    I2cOp::WriteRead {
        addr: NFC_ADDR,
        sent: seq![
            u16_msb(spec_register_addr(register)),
            u16_lsb(spec_register_addr(register)),
            offset,
        ],
        recv,
    }
}

/// The write transaction that writes one masked byte of a session register.
pub open spec fn reg_write_op(register: Register, offset: u8, mask: u8, data: u8) -> I2cOp {
    I2cOp::Write {
        addr: NFC_ADDR,
        sent: seq![
            u16_msb(spec_register_addr(register)),
            u16_lsb(spec_register_addr(register)),
            offset,
            mask,
            data,
        ],
    }
}

/// The write-read transaction that reads a four-byte memory block.
pub open spec fn block_read_op(addr: u16, recv: Seq<u8>) -> I2cOp {
    I2cOp::WriteRead { addr: NFC_ADDR, sent: seq![u16_msb(addr), u16_lsb(addr)], recv }
}

/// The write transaction that writes a four-byte memory block.
pub open spec fn block_write_op(addr: u16, data: Seq<u8>) -> I2cOp {
    I2cOp::Write { addr: NFC_ADDR, sent: seq![u16_msb(addr), u16_lsb(addr)] + data }
}

/// The NFC tag driver, generic over the I2C bus that reaches the tag.
pub struct Ntp53<B: I2cBus> {
    i2c: B,
    current_frame_size: usize,
}

impl<B: I2cBus> Ntp53<B> {
    /// The transcript of the underlying bus.
    pub closed spec fn bus_ops(&self) -> Seq<I2cOp> {
        self.i2c.ops()
    }

    /// The negotiated NFC frame size.
    pub closed spec fn spec_frame_size(&self) -> int {
        self.current_frame_size as int
    }

    /// A driver over the given bus. The frame size starts at the tag's
    /// power-on default of 128 bytes.
    pub fn new(i2c: B) -> (r: Ntp53<B>)
        ensures
            r.bus_ops() == i2c.ops(),
            r.spec_frame_size() == 0x80,
    {
        Ntp53 { i2c, current_frame_size: 0x80 }
    }

    /// The negotiated NFC frame size.
    pub fn frame_size(&self) -> (n: usize)
        ensures
            n == self.spec_frame_size(),
    {
        self.current_frame_size
    }

    /// Take the driver apart, handing the bus back (for example to inspect
    /// a mock's transcript).
    pub fn into_bus(self) -> (b: B)
        ensures
            b.ops() == self.bus_ops(),
    {
        self.i2c
    }

    /// Read one byte of a session register: the tag is sent the register's
    /// block address (big-endian) and the byte offset, and answers with the
    /// byte.
    pub fn read_register(&mut self, register: Register, register_offset: u8) -> (r: Result<
        u8,
        BusError,
    >)
        ensures
            r matches Ok(b) ==> final(self).bus_ops() == old(self).bus_ops().push(
                reg_read_op(register, register_offset, seq![b]),
            ),
            r is Err ==> final(self).bus_ops() == old(self).bus_ops(),
            final(self).spec_frame_size() == old(self).spec_frame_size(),
    {
        let addr = register.addr();
        let (msb, lsb) = be_bytes_of_u16(addr);
        let mut data: Vec<u8> = Vec::new();
        data.push(msb);
        data.push(lsb);
        data.push(register_offset);
        proof {
            assert(data@ =~= seq![
                u16_msb(spec_register_addr(register)),
                u16_lsb(spec_register_addr(register)),
                register_offset,
            ]);
        }
        match self.i2c.write_read(NFC_ADDR, &data, 1) {
            Ok(resp) => {
                let b = resp[0];
                proof {
                    assert(resp@ =~= seq![b]);
                }
                Ok(b)
            },
            Err(e) => Err(e),
        }
    }

    /// Write `data` to one byte of a session register. Only the bits set to
    /// 1 in `mask` are written; the byte at `register_offset` of the
    /// four-byte register is addressed.
    pub fn write_register(&mut self, register: Register, register_offset: u8, mask: u8, data: u8)
        -> (r: Result<(), BusError>)
        ensures
            r is Ok ==> final(self).bus_ops() == old(self).bus_ops().push(
                reg_write_op(register, register_offset, mask, data),
            ),
            r is Err ==> final(self).bus_ops() == old(self).bus_ops(),
            final(self).spec_frame_size() == old(self).spec_frame_size(),
    {
        let addr = register.addr();
        let (msb, lsb) = be_bytes_of_u16(addr);
        let mut buf: Vec<u8> = Vec::new();
        buf.push(msb);
        buf.push(lsb);
        buf.push(register_offset);
        buf.push(mask);
        buf.push(data);
        proof {
            assert(buf@ =~= seq![
                u16_msb(spec_register_addr(register)),
                u16_lsb(spec_register_addr(register)),
                register_offset,
                mask,
                data,
            ]);
        }
        self.i2c.write(NFC_ADDR, &buf)
    }

    /// Read all four bytes of a session register, one transaction per byte,
    /// offsets 0 to 3 in order.
    pub fn read_register_block(&mut self, register: Register) -> (r: Result<[u8; 4], BusError>)
        ensures
            r matches Ok(d) ==> final(self).bus_ops() == old(self).bus_ops().push(
                reg_read_op(register, 0, seq![d@[0]]),
            ).push(reg_read_op(register, 1, seq![d@[1]])).push(
                reg_read_op(register, 2, seq![d@[2]]),
            ).push(reg_read_op(register, 3, seq![d@[3]])),
            r is Err ==> old(self).bus_ops().is_prefix_of(final(self).bus_ops()) && final(self).bus_ops().len() <= old(self).bus_ops().len() + 3,
            final(self).spec_frame_size() == old(self).spec_frame_size(),
    {
        let b0 = match self.read_register(register, 0) {
            Ok(b) => b,
            Err(e) => return Err(e),
        };
        let b1 = match self.read_register(register, 1) {
            Ok(b) => b,
            Err(e) => return Err(e),
        };
        let b2 = match self.read_register(register, 2) {
            Ok(b) => b,
            Err(e) => return Err(e),
        };
        let b3 = match self.read_register(register, 3) {
            Ok(b) => b,
            Err(e) => return Err(e),
        };
        let d = [b0, b1, b2, b3];
        proof {
            assert(d@[0] == b0 && d@[1] == b1 && d@[2] == b2 && d@[3] == b3);
        }
        Ok(d)
    }

    /// Read the two status bytes.
    pub fn read_status(&mut self) -> (r: Result<StatusRegister, BusError>)
        ensures
            r matches Ok(s) ==> final(self).bus_ops() == old(self).bus_ops().push(
                reg_read_op(Register::Status, 0, seq![s.status0.0]),
            ).push(reg_read_op(Register::Status, 1, seq![s.status1.0])),
            r is Err ==> old(self).bus_ops().is_prefix_of(final(self).bus_ops()) && final(self).bus_ops().len() <= old(self).bus_ops().len() + 1,
            final(self).spec_frame_size() == old(self).spec_frame_size(),
    {
        let status0 = match self.read_register(Register::Status, 0) {
            Ok(b) => StatusRegister0(b),
            Err(e) => return Err(e),
        };
        let status1 = match self.read_register(Register::Status, 1) {
            Ok(b) => StatusRegister1(b),
            Err(e) => return Err(e),
        };
        Ok(StatusRegister { status0, status1 })
    }

    /// Read the three configuration bytes.
    pub fn read_config_register(&mut self) -> (r: Result<ConfigRegister, BusError>)
        ensures
            r matches Ok(c) ==> final(self).bus_ops() == old(self).bus_ops().push(
                reg_read_op(Register::Config, 0, seq![c.config0.0]),
            ).push(reg_read_op(Register::Config, 1, seq![c.config1.0])).push(
                reg_read_op(Register::Config, 2, seq![c.config2.0]),
            ),
            r is Err ==> old(self).bus_ops().is_prefix_of(final(self).bus_ops()) && final(self).bus_ops().len() <= old(self).bus_ops().len() + 2,
            final(self).spec_frame_size() == old(self).spec_frame_size(),
    {
        let config0 = match self.read_register(Register::Config, 0) {
            Ok(b) => ConfigRegister0(b),
            Err(e) => return Err(e),
        };
        let config1 = match self.read_register(Register::Config, 1) {
            Ok(b) => ConfigRegister1(b),
            Err(e) => return Err(e),
        };
        let config2 = match self.read_register(Register::Config, 2) {
            Ok(b) => ConfigRegister2(b),
            Err(e) => return Err(e),
        };
        Ok(ConfigRegister { config0, config1, config2 })
    }

    /// Release the tag's EEPROM I2C arbitration lock: clear the lock bit in
    /// the second status byte, touching no other bit.
    pub fn release_eeproom_i2c_lock(&mut self) -> (r: Result<(), BusError>)
        ensures
            r is Ok ==> final(self).bus_ops() == old(self).bus_ops().push(
                reg_write_op(Register::Status, 1, StatusRegister1::I2C_IF_LOCKED_MASK, 0),
            ),
            r is Err ==> final(self).bus_ops() == old(self).bus_ops(),
            final(self).spec_frame_size() == old(self).spec_frame_size(),
    {
        let mut value = StatusRegister1::default();
        value.set_i2c_if_locked(false);
        proof {
            assert(0u8 & 0xFE == 0) by (bit_vector);
        }
        self.write_register(Register::Status, 1, StatusRegister1::I2C_IF_LOCKED_MASK, value.0)
    }

    /// Read the I2C slave configuration: the slave address byte and the
    /// configuration byte.
    pub fn read_i2c_slave_config_register(&mut self) -> (r: Result<I2cSlaveConfiguration, BusError>)
        ensures
            r matches Ok(s) ==> final(self).bus_ops() == old(self).bus_ops().push(
                reg_read_op(Register::I2cSlaveConfig, 0, seq![s.addr]),
            ).push(reg_read_op(Register::I2cSlaveConfig, 1, seq![s.config.0])),
            r is Err ==> old(self).bus_ops().is_prefix_of(final(self).bus_ops()) && final(self).bus_ops().len() <= old(self).bus_ops().len() + 1,
            final(self).spec_frame_size() == old(self).spec_frame_size(),
    {
        let addr = match self.read_register(Register::I2cSlaveConfig, 0) {
            Ok(b) => b,
            Err(e) => return Err(e),
        };
        let config = match self.read_register(Register::I2cSlaveConfig, 1) {
            Ok(b) => b,
            Err(e) => return Err(e),
        };
        Ok(I2cSlaveConfiguration::from_data([addr, config]))
    }

    /// Read the watchdog configuration: the 16-bit duration (low byte at
    /// offset 0, high byte at offset 1) and the enable byte.
    pub fn read_wdt_register(&mut self) -> (r: Result<WdtRegister, BusError>)
        ensures
            r matches Ok(w) ==> final(self).bus_ops() == old(self).bus_ops().push(
                reg_read_op(Register::WdtConfig, 0, seq![u16_lsb(w.duration)]),
            ).push(reg_read_op(Register::WdtConfig, 1, seq![u16_msb(w.duration)])).push(
                reg_read_op(Register::WdtConfig, 2, seq![w.enable.0]),
            ),
            r is Err ==> old(self).bus_ops().is_prefix_of(final(self).bus_ops()) && final(self).bus_ops().len() <= old(self).bus_ops().len() + 2,
            final(self).spec_frame_size() == old(self).spec_frame_size(),
    {
        let duration_lsb = match self.read_register(Register::WdtConfig, 0) {
            Ok(b) => b,
            Err(e) => return Err(e),
        };
        let duration_msb = match self.read_register(Register::WdtConfig, 1) {
            Ok(b) => b,
            Err(e) => return Err(e),
        };
        let enable = match self.read_register(Register::WdtConfig, 2) {
            Ok(b) => WdtEnableRegister(b),
            Err(e) => return Err(e),
        };
        let duration = u16_from_be_bytes(duration_msb, duration_lsb);
        proof {
            lemma_be_round_trip(duration_msb, duration_lsb, 0);
        }
        Ok(WdtRegister { duration, enable })
    }

    /// Read the watchdog enable byte.
    pub fn read_wdt_enable(&mut self) -> (r: Result<WdtEnableRegister, BusError>)
        ensures
            r matches Ok(e) ==> final(self).bus_ops() == old(self).bus_ops().push(
                reg_read_op(Register::WdtConfig, 2, seq![e.0]),
            ),
            r is Err ==> final(self).bus_ops() == old(self).bus_ops(),
            final(self).spec_frame_size() == old(self).spec_frame_size(),
    {
        match self.read_register(Register::WdtConfig, 2) {
            Ok(b) => Ok(WdtEnableRegister(b)),
            Err(e) => Err(e),
        }
    }

    /// Enable or disable the watchdog: write the enable bit, touching no
    /// other bit.
    pub fn set_wdt_enabled(&mut self, enabled: bool) -> (r: Result<(), BusError>)
        ensures
            r is Ok ==> final(self).bus_ops() == old(self).bus_ops().push(
                reg_write_op(
                    Register::WdtConfig,
                    2,
                    WdtEnableRegister::WDT_ENABLE_MASK,
                    if enabled {
                        1
                    } else {
                        0
                    },
                ),
            ),
            r is Err ==> final(self).bus_ops() == old(self).bus_ops(),
            final(self).spec_frame_size() == old(self).spec_frame_size(),
    {
        let mut register = WdtEnableRegister(0);
        register.set_wdt_enable(enabled);
        proof {
            assert(0u8 & 0xFE == 0) by (bit_vector);
            assert(0u8 | 0x01 == 1) by (bit_vector);
        }
        self.write_register(
            Register::WdtConfig,
            2,
            WdtEnableRegister::WDT_ENABLE_MASK,
            register.0,
        )
    }

    /// Read the 16-bit synchronization data block address (low byte at
    /// offset 0, high byte at offset 1).
    pub fn read_synch_data_addr(&mut self) -> (r: Result<u16, BusError>)
        ensures
            r matches Ok(a) ==> final(self).bus_ops() == old(self).bus_ops().push(
                reg_read_op(Register::SyncDataBlock, 0, seq![u16_lsb(a)]),
            ).push(reg_read_op(Register::SyncDataBlock, 1, seq![u16_msb(a)])),
            r is Err ==> old(self).bus_ops().is_prefix_of(final(self).bus_ops()) && final(self).bus_ops().len() <= old(self).bus_ops().len() + 1,
            final(self).spec_frame_size() == old(self).spec_frame_size(),
    {
        let lsb = match self.read_register(Register::SyncDataBlock, 0) {
            Ok(b) => b,
            Err(e) => return Err(e),
        };
        let msb = match self.read_register(Register::SyncDataBlock, 1) {
            Ok(b) => b,
            Err(e) => return Err(e),
        };
        let a = u16_from_be_bytes(msb, lsb);
        proof {
            lemma_be_round_trip(msb, lsb, 0);
        }
        Ok(a)
    }

    /// Write the 16-bit synchronization data block address: low byte to
    /// offset 0, high byte to offset 1, all bits of each byte.
    pub fn write_synch_data_addr(&mut self, addr: u16) -> (r: Result<(), BusError>)
        ensures
            r is Ok ==> final(self).bus_ops() == old(self).bus_ops().push(
                reg_write_op(Register::SyncDataBlock, 0, 0xFF, u16_lsb(addr)),
            ).push(reg_write_op(Register::SyncDataBlock, 1, 0xFF, u16_msb(addr))),
            r is Err ==> old(self).bus_ops().is_prefix_of(final(self).bus_ops()) && final(self).bus_ops().len() <= old(self).bus_ops().len() + 1,
            final(self).spec_frame_size() == old(self).spec_frame_size(),
    {
        let (msb, lsb) = be_bytes_of_u16(addr);
        match self.write_register(Register::SyncDataBlock, 0, 0xFF, lsb) {
            Ok(()) => (),
            Err(e) => return Err(e),
        }
        match self.write_register(Register::SyncDataBlock, 1, 0xFF, msb) {
            Ok(()) => (),
            Err(e) => return Err(e),
        }
        Ok(())
    }

    /// Write a four-byte memory block at the given block address.
    pub fn write_block(&mut self, addr: u16, data: [u8; 4]) -> (r: Result<(), BusError>)
        ensures
            r is Ok ==> final(self).bus_ops() == old(self).bus_ops().push(
                block_write_op(addr, data@),
            ),
            r is Err ==> final(self).bus_ops() == old(self).bus_ops(),
            final(self).spec_frame_size() == old(self).spec_frame_size(),
    {
        let (msb, lsb) = be_bytes_of_u16(addr);
        let mut buf: Vec<u8> = Vec::new();
        buf.push(msb);
        buf.push(lsb);
        buf.push(data[0]);
        buf.push(data[1]);
        buf.push(data[2]);
        buf.push(data[3]);
        proof {
            assert(buf@ =~= seq![u16_msb(addr), u16_lsb(addr)] + data@);
        }
        self.i2c.write(NFC_ADDR, &buf)
    }

    /// Read a four-byte memory block at the given block address.
    pub fn read_block(&mut self, addr: u16) -> (r: Result<[u8; 4], BusError>)
        ensures
            r matches Ok(d) ==> final(self).bus_ops() == old(self).bus_ops().push(
                block_read_op(addr, d@),
            ),
            r is Err ==> final(self).bus_ops() == old(self).bus_ops(),
            final(self).spec_frame_size() == old(self).spec_frame_size(),
    {
        let (msb, lsb) = be_bytes_of_u16(addr);
        let mut buf: Vec<u8> = Vec::new();
        buf.push(msb);
        buf.push(lsb);
        proof {
            assert(buf@ =~= seq![u16_msb(addr), u16_lsb(addr)]);
        }
        match self.i2c.write_read(NFC_ADDR, &buf, 4) {
            Ok(resp) => {
                let d = [resp[0], resp[1], resp[2], resp[3]];
                proof {
                    assert(d@ =~= resp@);
                }
                Ok(d)
            },
            Err(e) => Err(e),
        }
    }
}

/// One recorded transaction of the in-memory bus.
#[derive(Debug, PartialEq, Eq)]
pub enum BusRecord {
    /// Bytes written to a device.
    Write { addr: u8, sent: Vec<u8> },
    /// Bytes written, then bytes read back.
    WriteRead { addr: u8, sent: Vec<u8>, recv: Vec<u8> },
}

/// Ghost image of a recorded transaction.
pub open spec fn bus_record_view(r: BusRecord) -> I2cOp {
    match r {
        BusRecord::Write { addr, sent } => I2cOp::Write { addr, sent: sent@ },
        BusRecord::WriteRead { addr, sent, recv } => I2cOp::WriteRead {
            addr,
            sent: sent@,
            recv: recv@,
        },
    }
}

/// An in-memory I2C bus: write-read transactions answer from a scripted
/// queue of responses, and every successful transaction is recorded, so
/// tests can drive the driver and inspect exactly what went over the wire.
pub struct MockBus {
    responses: Vec<Vec<u8>>,
    cursor: usize,
    fail: bool,
    log: Vec<BusRecord>,
}

impl MockBus {
    /// A fresh bus with an empty script and an empty transcript.
    pub fn new() -> (r: MockBus)
        ensures
            r.ops().len() == 0,
    {
        let r = MockBus { responses: Vec::new(), cursor: 0, fail: false, log: Vec::new() };
        proof {
            assert(r.ops() =~= Seq::<I2cOp>::empty());
        }
        r
    }

    /// Queue the response the next write-read transaction will receive.
    pub fn push_response(&mut self, resp: Vec<u8>)
        ensures
            final(self).ops() == old(self).ops(),
    {
        self.responses.push(resp);
        proof {
            assert(self.ops() =~= old(self).ops());
        }
    }

    /// Make every following transaction fail (or succeed again).
    pub fn set_fail(&mut self, fail: bool)
        ensures
            final(self).ops() == old(self).ops(),
    {
        self.fail = fail;
        proof {
            assert(self.ops() =~= old(self).ops());
        }
    }

    /// Number of recorded transactions.
    pub fn log_len(&self) -> (n: usize)
        ensures
            n == self.ops().len(),
    {
        self.log.len()
    }

    /// The `i`-th recorded transaction.
    pub fn log_at(&self, i: usize) -> (r: &BusRecord)
        requires
            i < self.ops().len(),
        ensures
            bus_record_view(*r) == self.ops()[i as int],
    {
        &self.log[i]
    }
}

impl I2cBus for MockBus {
    closed spec fn ops(&self) -> Seq<I2cOp> {
        self.log@.map_values(|r: BusRecord| bus_record_view(r))
    }

    fn write(&mut self, addr: u8, data: &Vec<u8>) -> (r: Result<(), BusError>) {
        if self.fail {
            return Err(BusError::Nack);
        }
        self.log.push(BusRecord::Write { addr, sent: copy_bytes(data) });
        proof {
            assert(self.ops() =~= old(self).ops().push(I2cOp::Write { addr, sent: data@ }));
        }
        Ok(())
    }

    fn write_read(&mut self, addr: u8, data: &Vec<u8>, read_len: usize) -> (r: Result<
        Vec<u8>,
        BusError,
    >) {
        if self.fail {
            return Err(BusError::Nack);
        }
        if self.cursor >= self.responses.len() {
            return Err(BusError::Nack);
        }
        let resp = copy_bytes(&self.responses[self.cursor]);
        if resp.len() != read_len {
            return Err(BusError::Nack);
        }
        self.cursor = self.cursor + 1;
        let recv = copy_bytes(&resp);
        self.log.push(BusRecord::WriteRead { addr, sent: copy_bytes(data), recv });
        proof {
            assert(self.ops() =~= old(self).ops().push(
                I2cOp::WriteRead { addr, sent: data@, recv: resp@ },
            ));
        }
        Ok(resp)
    }
}

} // verus!
