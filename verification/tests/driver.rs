//! The NFC tag driver against the in-memory bus: exact wire bytes for every
//! register access, parsing of multi-byte values, and the error paths.

use token_runtime::ntp53::BusError;
use token_runtime::ntp53::BusRecord;
use token_runtime::ntp53::MockBus;
use token_runtime::ntp53::NFC_ADDR;
use token_runtime::ntp53::Ntp53;
use token_runtime::registers::Register;
use token_runtime::registers::StatusRegister1;
use token_runtime::registers::WdtEnableRegister;

#[test]
fn read_register_issues_one_write_read() {
    let mut bus = MockBus::new();
    bus.push_response(vec![0xAB]);
    let mut tag = Ntp53::new(bus);
    assert_eq!(tag.read_register(Register::Status, 1), Ok(0xAB));
    let bus = tag.into_bus();
    assert_eq!(bus.log_len(), 1);
    assert_eq!(
        bus.log_at(0),
        &BusRecord::WriteRead { addr: NFC_ADDR, sent: vec![0x10, 0xA0, 1], recv: vec![0xAB] }
    );
}

#[test]
fn write_register_sends_address_offset_mask_data() {
    let bus = MockBus::new();
    let mut tag = Ntp53::new(bus);
    assert_eq!(tag.write_register(Register::Config, 0, 0b0000_0010, 0b0000_0010), Ok(()));
    let bus = tag.into_bus();
    assert_eq!(
        bus.log_at(0),
        &BusRecord::Write { addr: NFC_ADDR, sent: vec![0x10, 0xA1, 0, 2, 2] }
    );
}

#[test]
fn read_register_block_reads_offsets_in_order() {
    let mut bus = MockBus::new();
    for b in [0xDE, 0xAD, 0xBE, 0xEF] {
        bus.push_response(vec![b]);
    }
    let mut tag = Ntp53::new(bus);
    assert_eq!(tag.read_register_block(Register::Config), Ok([0xDE, 0xAD, 0xBE, 0xEF]));
    let bus = tag.into_bus();
    assert_eq!(bus.log_len(), 4);
    for offset in 0..4u8 {
        match bus.log_at(offset as usize) {
            BusRecord::WriteRead { sent, .. } => assert_eq!(sent, &vec![0x10, 0xA1, offset]),
            _ => panic!("expected a write-read"),
        }
    }
}

#[test]
fn read_status_parses_both_bytes() {
    let mut bus = MockBus::new();
    bus.push_response(vec![0x03]);
    bus.push_response(vec![0x01]);
    let mut tag = Ntp53::new(bus);
    let s = tag.read_status().unwrap();
    assert!(s.status0.nfc_field_detected());
    assert!(s.status0.vcc_supply_ok());
    assert!(s.status1.i2c_if_locked());
}

#[test]
fn read_config_register_reads_three_bytes() {
    let mut bus = MockBus::new();
    bus.push_response(vec![0x11]);
    bus.push_response(vec![0x22]);
    bus.push_response(vec![0x33]);
    let mut tag = Ntp53::new(bus);
    let c = tag.read_config_register().unwrap();
    assert_eq!(c.config0.0, 0x11);
    assert_eq!(c.config1.0, 0x22);
    assert_eq!(c.config2.0, 0x33);
}

#[test]
fn release_eeproom_i2c_lock_clears_only_the_lock_bit() {
    let bus = MockBus::new();
    let mut tag = Ntp53::new(bus);
    assert_eq!(tag.release_eeproom_i2c_lock(), Ok(()));
    let bus = tag.into_bus();
    assert_eq!(
        bus.log_at(0),
        &BusRecord::Write {
            addr: NFC_ADDR,
            sent: vec![0x10, 0xA0, 1, StatusRegister1::I2C_IF_LOCKED_MASK, 0],
        }
    );
}

#[test]
fn read_i2c_slave_config_parses_address_and_flags() {
    let mut bus = MockBus::new();
    bus.push_response(vec![0x54]);
    bus.push_response(vec![0x04]);
    let mut tag = Ntp53::new(bus);
    let s = tag.read_i2c_slave_config_register().unwrap();
    assert_eq!(s.addr, 0x54);
    assert!(s.config.i2c_wdt_expired());
}

#[test]
fn read_wdt_register_assembles_big_endian_duration() {
    let mut bus = MockBus::new();
    bus.push_response(vec![0x34]); // duration low byte, offset 0
    bus.push_response(vec![0x12]); // duration high byte, offset 1
    bus.push_response(vec![0x01]); // enable byte, offset 2
    let mut tag = Ntp53::new(bus);
    let w = tag.read_wdt_register().unwrap();
    assert_eq!(w.duration, 0x1234);
    assert!(w.enable.wdt_enable());
}

#[test]
fn set_wdt_enabled_writes_the_enable_bit() {
    let bus = MockBus::new();
    let mut tag = Ntp53::new(bus);
    assert_eq!(tag.set_wdt_enabled(false), Ok(()));
    assert_eq!(tag.set_wdt_enabled(true), Ok(()));
    let bus = tag.into_bus();
    assert_eq!(
        bus.log_at(0),
        &BusRecord::Write {
            addr: NFC_ADDR,
            sent: vec![0x10, 0xA8, 2, WdtEnableRegister::WDT_ENABLE_MASK, 0],
        }
    );
    assert_eq!(
        bus.log_at(1),
        &BusRecord::Write {
            addr: NFC_ADDR,
            sent: vec![0x10, 0xA8, 2, WdtEnableRegister::WDT_ENABLE_MASK, 1],
        }
    );
}

#[test]
fn synch_data_addr_round_trips_big_endian() {
    let mut bus = MockBus::new();
    bus.push_response(vec![0xFF]); // low byte, offset 0
    bus.push_response(vec![0x00]); // high byte, offset 1
    let mut tag = Ntp53::new(bus);
    assert_eq!(tag.read_synch_data_addr(), Ok(0x00FF));
    assert_eq!(tag.write_synch_data_addr(0x00FF), Ok(()));
    let bus = tag.into_bus();
    assert_eq!(
        bus.log_at(2),
        &BusRecord::Write { addr: NFC_ADDR, sent: vec![0x10, 0xA6, 0, 0xFF, 0xFF] }
    );
    assert_eq!(
        bus.log_at(3),
        &BusRecord::Write { addr: NFC_ADDR, sent: vec![0x10, 0xA6, 1, 0xFF, 0x00] }
    );
}

#[test]
fn block_access_uses_plain_block_addresses() {
    let mut bus = MockBus::new();
    bus.push_response(vec![1, 2, 3, 4]);
    let mut tag = Ntp53::new(bus);
    assert_eq!(tag.read_block(0x1037), Ok([1, 2, 3, 4]));
    assert_eq!(tag.write_block(0x1037, [9, 8, 7, 6]), Ok(()));
    let bus = tag.into_bus();
    assert_eq!(
        bus.log_at(0),
        &BusRecord::WriteRead { addr: NFC_ADDR, sent: vec![0x10, 0x37], recv: vec![1, 2, 3, 4] }
    );
    assert_eq!(
        bus.log_at(1),
        &BusRecord::Write { addr: NFC_ADDR, sent: vec![0x10, 0x37, 9, 8, 7, 6] }
    );
}

#[test]
fn bus_failure_surfaces_and_leaves_no_trace() {
    let mut bus = MockBus::new();
    bus.set_fail(true);
    let mut tag = Ntp53::new(bus);
    assert_eq!(tag.read_register(Register::Status, 0), Err(BusError::Nack));
    assert_eq!(tag.write_register(Register::Status, 0, 0xFF, 0), Err(BusError::Nack));
    assert_eq!(tag.read_status(), Err(BusError::Nack));
    let bus = tag.into_bus();
    assert_eq!(bus.log_len(), 0);
}

#[test]
fn failure_mid_sequence_keeps_the_completed_prefix() {
    let mut bus = MockBus::new();
    bus.push_response(vec![0x34]); // only the first read is scripted
    let mut tag = Ntp53::new(bus);
    assert_eq!(tag.read_wdt_register(), Err(BusError::Nack));
    let bus = tag.into_bus();
    assert_eq!(bus.log_len(), 1);
}

#[test]
fn frame_size_defaults_to_the_power_on_value() {
    let tag = Ntp53::new(MockBus::new());
    assert_eq!(tag.frame_size(), 0x80);
}

#[test]
fn register_bit_accessors_mask_exactly() {
    let mut s1 = StatusRegister1(0xFF);
    s1.set_i2c_if_locked(false);
    assert_eq!(s1.0, 0xFE);
    assert!(!s1.i2c_if_locked());
    s1.set_i2c_if_locked(true);
    assert_eq!(s1.0, 0xFF);

    let mut w = WdtEnableRegister(0b1010_1010);
    assert!(!w.wdt_enable());
    w.set_wdt_enable(true);
    assert_eq!(w.0, 0b1010_1011);
}

#[test]
fn register_addresses_match_the_session_register_map() {
    assert_eq!(Register::Status.addr(), 0x10A0);
    assert_eq!(Register::Config.addr(), 0x10A1);
    assert_eq!(Register::SyncDataBlock.addr(), 0x10A6);
    assert_eq!(Register::WdtConfig.addr(), 0x10A8);
    assert_eq!(Register::I2cSlaveConfig.addr(), 0x10A9);
}
