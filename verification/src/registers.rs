//! Register file of the NFC tag front-end: addresses of the session
//! registers the driver touches and the bit layouts it reads and writes.
//!
//! Registers are four bytes wide and addressed by a 16-bit block address;
//! single bytes within a register are selected by an offset. Bit accessors
//! state their meaning exactly in terms of the underlying byte.

use vstd::prelude::*;

verus! {

/// The session registers the driver uses, by 16-bit block address.
#[derive(Clone, Copy, Debug, PartialEq, Eq, Structural)]
pub enum Register {
    /// Chip and interface status.
    Status,
    /// Device configuration.
    Config,
    /// Address of the SRAM synchronization data block.
    SyncDataBlock,
    /// Watchdog timer configuration.
    WdtConfig,
    /// I2C slave interface configuration.
    I2cSlaveConfig,
}

/// Block address of a session register.
pub open spec fn spec_register_addr(r: Register) -> u16 {
    match r {
        Register::Status => 0x10A0,
        Register::Config => 0x10A1,
        Register::SyncDataBlock => 0x10A6,
        Register::WdtConfig => 0x10A8,
        Register::I2cSlaveConfig => 0x10A9,
    }
}

impl Register {
    /// Block address of this register.
    pub fn addr(self) -> (a: u16)
        ensures
            a == spec_register_addr(self),
    {
        match self {
            Register::Status => 0x10A0,
            Register::Config => 0x10A1,
            Register::SyncDataBlock => 0x10A6,
            Register::WdtConfig => 0x10A8,
            Register::I2cSlaveConfig => 0x10A9,
        }
    }
}

/// First status byte.
#[derive(Clone, Copy, Debug, PartialEq, Eq, Structural)]
pub struct StatusRegister0(pub u8);

impl StatusRegister0 {
    /// Whether a reader's field is energizing the tag.
    pub fn nfc_field_detected(&self) -> (r: bool)
        ensures
            r == (self.0 & 0x01 != 0),
    {
        self.0 & 0x01 != 0
    }

    /// Whether the wired supply is powering the tag.
    pub fn vcc_supply_ok(&self) -> (r: bool)
        ensures
            r == (self.0 & 0x02 != 0),
    {
        self.0 & 0x02 != 0
    }
}

/// Second status byte.
#[derive(Clone, Copy, Debug, PartialEq, Eq, Structural)]
pub struct StatusRegister1(pub u8);

impl StatusRegister1 {
    /// Bit mask of the I2C interface arbitration lock.
    pub const I2C_IF_LOCKED_MASK: u8 = 0x01;

    /// Whether the I2C host currently holds the arbitration lock.
    pub fn i2c_if_locked(&self) -> (r: bool)
        ensures
            r == (self.0 & 0x01 != 0),
    {
        self.0 & 0x01 != 0
    }

    /// Set or clear the arbitration lock bit.
    pub fn set_i2c_if_locked(&mut self, locked: bool)
        ensures
            final(self).0 == if locked {
                old(self).0 | 0x01
            } else {
                old(self).0 & 0xFE
            },
    {
        if locked {
            self.0 = self.0 | 0x01;
        } else {
            self.0 = self.0 & 0xFE;
        }
    }
}

impl Default for StatusRegister1 {
    /// All bits clear.
    fn default() -> (r: StatusRegister1)
        ensures
            r.0 == 0,
    {
        StatusRegister1(0)
    }
}

/// The two status bytes together.
#[derive(Clone, Copy, Debug, PartialEq, Eq, Structural)]
pub struct StatusRegister {
    pub status0: StatusRegister0,
    pub status1: StatusRegister1,
}

/// First configuration byte.
#[derive(Clone, Copy, Debug, PartialEq, Eq, Structural)]
pub struct ConfigRegister0(pub u8);

/// Second configuration byte.
#[derive(Clone, Copy, Debug, PartialEq, Eq, Structural)]
pub struct ConfigRegister1(pub u8);

/// Third configuration byte.
#[derive(Clone, Copy, Debug, PartialEq, Eq, Structural)]
pub struct ConfigRegister2(pub u8);

/// The three configuration bytes together.
#[derive(Clone, Copy, Debug, PartialEq, Eq, Structural)]
pub struct ConfigRegister {
    pub config0: ConfigRegister0,
    pub config1: ConfigRegister1,
    pub config2: ConfigRegister2,
}

/// Watchdog enable byte.
#[derive(Clone, Copy, Debug, PartialEq, Eq, Structural)]
pub struct WdtEnableRegister(pub u8);

impl WdtEnableRegister {
    /// Bit mask of the watchdog enable flag.
    pub const WDT_ENABLE_MASK: u8 = 0x01;

    /// Whether the watchdog is enabled.
    pub fn wdt_enable(&self) -> (r: bool)
        ensures
            r == (self.0 & 0x01 != 0),
    {
        self.0 & 0x01 != 0
    }

    /// Set or clear the watchdog enable bit.
    pub fn set_wdt_enable(&mut self, enabled: bool)
        ensures
            final(self).0 == if enabled {
                old(self).0 | 0x01
            } else {
                old(self).0 & 0xFE
            },
    {
        if enabled {
            self.0 = self.0 | 0x01;
        } else {
            self.0 = self.0 & 0xFE;
        }
    }
}

/// Watchdog duration and enable flag together. The duration is a 16-bit
/// count assembled from the two duration bytes.
#[derive(Clone, Copy, Debug, PartialEq, Eq, Structural)]
pub struct WdtRegister {
    pub duration: u16,
    pub enable: WdtEnableRegister,
}

/// I2C slave configuration byte.
#[derive(Clone, Copy, Debug, PartialEq, Eq, Structural)]
pub struct I2cSlaveConfig(pub u8);

impl I2cSlaveConfig {
    /// Whether the I2C watchdog has expired since it was last read.
    pub fn i2c_wdt_expired(&self) -> (r: bool)
        ensures
            r == (self.0 & 0x04 != 0),
    {
        self.0 & 0x04 != 0
    }
}

/// The I2C slave address and configuration bytes together.
#[derive(Clone, Copy, Debug, PartialEq, Eq, Structural)]
pub struct I2cSlaveConfiguration {
    pub addr: u8,
    pub config: I2cSlaveConfig,
}

impl I2cSlaveConfiguration {
    /// Assemble from the two raw register bytes: slave address first, then
    /// the configuration byte.
    pub fn from_data(data: [u8; 2]) -> (r: I2cSlaveConfiguration)
        ensures
            r.addr == data@[0],
            r.config.0 == data@[1],
    {
        I2cSlaveConfiguration { addr: data[0], config: I2cSlaveConfig(data[1]) }
    }
}

} // verus!
