//! How a blocking transfer of the I2C master is set up and cleaned up.
use vorago_shared_hal::clock::Clocks;
use vorago_shared_hal::i2c::regs::I2c;
use vorago_shared_hal::i2c::{Bank, Error, I2c0, I2cAddress, I2cCommand, I2cMaster, I2cSpeed, MasterConfig};
use vorago_shared_hal::sysconfig::Sysconfig;
use vorago_shared_hal::time::Hertz;

fn master_on(regs: &mut I2c) -> I2cMaster {
    let clocks = Clocks::__new(Hertz::from_raw(100_000_000), Hertz::from_raw(0));
    let mut sysconfig = Sysconfig::new();
    I2cMaster::new(I2c0, &clocks, MasterConfig::default(), I2cSpeed::Regular100khz, &mut sysconfig, regs).unwrap()
}

#[test]
fn i2c_write_begins_with_a_clear_fifo_and_the_length() {
    let mut regs = I2c::new_mmio(Bank::I2c0);
    let mut master = master_on(&mut regs);
    let before = regs;
    let (guard, prefill) = master.begin_write(&mut regs, 5).unwrap();
    assert!(!guard.timeout_enabled());
    assert_eq!(prefill, 5);
    assert_eq!(regs.words.raw, 5);
    // The transmit FIFO is cleared, the receive FIFO is not.
    assert_eq!(regs.fifo_clear.raw, 0b10);
    assert_eq!(regs.irq_enb, before.irq_enb);
    assert_eq!(regs.cmd, before.cmd);
    assert_eq!(regs.address, before.address);
    // No more than twelve bytes go into the FIFO before the start.
    let (_, prefill) = master.begin_write(&mut regs, 12).unwrap();
    assert_eq!(prefill, 12);
    let (_, prefill) = master.begin_write(&mut regs, 0x7fe).unwrap();
    assert_eq!(prefill, 12);
    assert_eq!(regs.words.raw, 0x7fe);
    let (_, prefill) = master.begin_write(&mut regs, 0).unwrap();
    assert_eq!(prefill, 0);
}

#[test]
fn i2c_write_of_too_many_bytes_is_refused_untouched() {
    let mut regs = I2c::new_mmio(Bank::I2c0);
    let mut master = master_on(&mut regs);
    let before = regs;
    assert_eq!(master.begin_write(&mut regs, 0x7ff).err(), Some(Error::DataTooLarge));
    assert_eq!(regs, before);
    assert_eq!(master.begin_read(&mut regs, I2cAddress::Regular(0x20), 0x7ff).err(), Some(Error::DataTooLarge));
    assert_eq!(regs, before);
}

#[test]
fn i2c_write_watches_a_set_timeout() {
    let mut regs = I2c::new_mmio(Bank::I2c0);
    let mut master = master_on(&mut regs);
    master.set_clock_low_timeout(&mut regs, 1000);
    let (guard, _) = master.begin_write(&mut regs, 3).unwrap();
    assert!(guard.timeout_enabled());
    assert_eq!(regs.irq_clear.raw, 1 << 7);
    assert_eq!(regs.irq_enb.raw, 1 << 7);
    guard.release(&mut regs);
    assert_eq!(regs.irq_enb.raw, 0);
}

#[test]
fn i2c_read_begins_with_address_and_start() {
    let mut regs = I2c::new_mmio(Bank::I2c0);
    let mut master = master_on(&mut regs);
    let guard = master.begin_read(&mut regs, I2cAddress::Regular(0x50), 4).unwrap();
    assert!(!guard.timeout_enabled());
    assert_eq!(regs.words.raw, 4);
    // The receive FIFO is cleared, the transmit FIFO is not.
    assert_eq!(regs.fifo_clear.raw, 0b01);
    assert_eq!(regs.address.raw, (0x50 << 1) | 1);
    assert_eq!(regs.cmd.raw, 0b11);
    let guard = master.begin_read(&mut regs, I2cAddress::TenBit(0x3ff), 0x7fe).unwrap();
    assert!(!guard.timeout_enabled());
    assert_eq!(regs.words.raw, 0x7fe);
    assert_eq!(regs.address.raw, (1 << 15) | (0x3ff << 1) | 1);
}

#[test]
fn i2c_failed_write_is_stopped_if_it_had_no_stop() {
    let mut regs = I2c::new_mmio(Bank::I2c0);
    let mut master = master_on(&mut regs);
    master.write_command(&mut regs, I2cCommand::Start);
    master.error_handler_write(&mut regs, I2cCommand::Start);
    assert_eq!(regs.cmd.raw, 0b10);
    assert_eq!(regs.fifo_clear.raw, 0b10);
    master.write_command(&mut regs, I2cCommand::StartWithStop);
    regs.fifo_clear.raw = 0;
    master.error_handler_write(&mut regs, I2cCommand::StartWithStop);
    assert_eq!(regs.cmd.raw, 0b11);
    assert_eq!(regs.fifo_clear.raw, 0b10);
}
