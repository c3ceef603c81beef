//! SPI clock configuration and driver, I2C configuration and transfer steps.
use vorago_shared_hal::clock::Clocks;
use vorago_shared_hal::i2c::regs::{Direction, I2c, Status as I2cStatus};
use vorago_shared_hal::i2c::{
    calc_clk_div, calc_clk_div_generic, ClockTooSlowForFastI2cError, Error, I2c0, I2c2, I2cAddress, I2cCommand,
    I2cInstance, I2cMaster, I2cSpeed, MasterConfig, ReadStep, RxFifoFullMode, TimeoutGuard, TimingConfig,
    TxFifoEmptyMode, WriteCompletionCondition, WriteStep,
};
use vorago_shared_hal::ioconfig::regs::IoConfig;
use vorago_shared_hal::ioconfig::FunctionSelect;
use vorago_shared_hal::pins::{Pa5, Pa6, Pa7, Pb12, Pb15, Pc0, Pc1, Pin};
use vorago_shared_hal::spi::pins_vor4x::PinPf2Spi2HwCsId2;
use vorago_shared_hal::spi::regs::{Bank, HwChipSelectId, Spi as SpiBlock, WordSize, BASE_ADDR_2};
use vorago_shared_hal::spi::{
    clk_div_for_target_clock, configure_pin_as_hw_cs_pin, mode_to_cpo_cph_bit, spi_clk_config_from_div, HwCsProvider,
    Mode, Phase, PinMiso, PinMosi, PinSck, Polarity, Spi, Spi0, Spi2, Spi3, SpiClkConfig, SpiClkConfigError, SpiConfig,
    SpiIdMissmatchError, SpiLowLevel, SpiMarker, TransferConfig, WordProvider, BMSTART_BMSTOP_MASK,
};
use vorago_shared_hal::sysconfig::Sysconfig;
use vorago_shared_hal::time::Hertz;
use vorago_shared_hal::{NbResult, PeripheralSelect};

fn hz(raw: u32) -> Hertz {
    Hertz::from_raw(raw)
}

#[test]
fn spi_clock_config_from_divider() {
    assert_eq!(spi_clk_config_from_div(0), Err(SpiClkConfigError::DivIsZero));
    assert_eq!(spi_clk_config_from_div(1), Err(SpiClkConfigError::DivideValueNotEven));
    assert_eq!(spi_clk_config_from_div(255), Err(SpiClkConfigError::DivideValueNotEven));
    assert_eq!(spi_clk_config_from_div(2), Ok(SpiClkConfig::new(2, 0)));
    assert_eq!(spi_clk_config_from_div(4), Ok(SpiClkConfig::new(4, 0)));
    assert_eq!(spi_clk_config_from_div(254), Ok(SpiClkConfig::new(254, 0)));
    // 256 = 128 * 2
    assert_eq!(spi_clk_config_from_div(256), Ok(SpiClkConfig::new(128, 1)));
    // 1000 = 250 * 4
    assert_eq!(spi_clk_config_from_div(1000), Ok(SpiClkConfig::new(250, 3)));
    // 65024 = 254 * 256
    assert_eq!(spi_clk_config_from_div(65024), Ok(SpiClkConfig::new(254, 255)));
    // 2 * 257: the prescaler is 2, and 257 is too much for the second divider.
    assert_eq!(spi_clk_config_from_div(514), Err(SpiClkConfigError::ScrdvValueTooLarge));
    // 65534 = 2 * 32767 = 2 * 7 * 31 * 151: the largest even factor up to 254 is 62.
    assert_eq!(spi_clk_config_from_div(65534), Err(SpiClkConfigError::ScrdvValueTooLarge));
    assert_eq!(SpiClkConfig::from_div(12), Ok(SpiClkConfig::new(12, 0)));
    let config = SpiClkConfig::from_div(1000).unwrap();
    assert_eq!(config.prescale_val() as u32 * (config.scrdv() as u32 + 1), 1000);
}

#[test]
fn spi_clock_divider_for_a_target_clock() {
    assert_eq!(clk_div_for_target_clock(hz(50_000_000), hz(1_000_000)), Some(50));
    assert_eq!(clk_div_for_target_clock(hz(50_000_000), hz(50_000_000)), Some(2));
    assert_eq!(clk_div_for_target_clock(hz(50_000_000), hz(50_000_001)), None);
    // 50 / 3 is 16 and two thirds: 17 is nearest, 18 is the next even number.
    assert_eq!(clk_div_for_target_clock(hz(50), hz(3)), Some(18));
    // 50 / 7 is 7 and a seventh: 7 is nearest, 8 is the next even number.
    assert_eq!(clk_div_for_target_clock(hz(50), hz(7)), Some(8));
    // 9 / 2 is 4 and a half, which rounds up to 5, and 6 is the next even number.
    assert_eq!(clk_div_for_target_clock(hz(9), hz(2)), Some(6));
    assert_eq!(clk_div_for_target_clock(hz(65_534), hz(1)), Some(65_534));
    assert_eq!(clk_div_for_target_clock(hz(65_535), hz(1)), None);
    assert_eq!(clk_div_for_target_clock(hz(u32::MAX), hz(1)), None);
    assert_eq!(clk_div_for_target_clock(hz(u32::MAX), hz(u32::MAX)), Some(2));
}

#[test]
fn spi_clock_config_for_a_target_clock() {
    assert_eq!(SpiClkConfig::from_apb1_clk(hz(50_000_000), hz(1_000_000)), Some(SpiClkConfig::new(50, 0)));
    assert_eq!(SpiClkConfig::from_clk(hz(50_000_000), hz(100_000)), Some(SpiClkConfig::new(250, 1)));
    assert_eq!(SpiClkConfig::from_apb1_clk(hz(1_000), hz(2_000)), None);
    let clocks = Clocks::__new(hz(80_000_000), hz(0));
    // 40 MHz by 10 MHz.
    assert_eq!(SpiClkConfig::from_clks(&clocks, hz(10_000_000)), Some(SpiClkConfig::new(4, 0)));
}

#[test]
fn spi_modes_and_markers() {
    let mode = |polarity, phase| Mode { polarity, phase };
    assert_eq!(mode_to_cpo_cph_bit(mode(Polarity::IdleLow, Phase::CaptureOnFirstTransition)), (false, false));
    assert_eq!(mode_to_cpo_cph_bit(mode(Polarity::IdleLow, Phase::CaptureOnSecondTransition)), (false, true));
    assert_eq!(mode_to_cpo_cph_bit(mode(Polarity::IdleHigh, Phase::CaptureOnFirstTransition)), (true, false));
    assert_eq!(mode_to_cpo_cph_bit(mode(Polarity::IdleHigh, Phase::CaptureOnSecondTransition)), (true, true));
    assert_eq!(Spi0::id(), Bank::Spi0);
    assert_eq!(Spi3::periph_sel(), PeripheralSelect::Spi3);
    assert_eq!(<u8 as WordProvider>::mask(), 0xff);
    assert_eq!(<u16 as WordProvider>::mask(), 0xffff);
    assert_eq!(<u8 as WordProvider>::word_size(), WordSize::EightBits);
    assert_eq!(<u8 as WordProvider>::word_reg(), 7);
    assert_eq!(<u16 as WordProvider>::word_reg(), 15);
    assert_eq!(<Pin<Pb15> as PinSck>::spi_id(), Bank::Spi0);
    assert_eq!(<Pin<Pc1> as PinMosi>::fun_sel(), FunctionSelect::Sel1);
    assert_eq!(<Pin<Pc0> as PinMiso>::spi_id(), Bank::Spi0);
    assert_eq!(<Pin<Pb12> as HwCsProvider>::cs_id(), HwChipSelectId::Id2);
    assert_eq!(<PinPf2Spi2HwCsId2 as HwCsProvider>::spi_id(), Bank::Spi2);
    assert_eq!(Bank::Spi3.base_address(), BASE_ADDR_2);
    assert_eq!(Bank::Spi0.base_address(), 0x4001_5000);
}

#[test]
fn spi_hw_chip_select_pin() {
    let mut ioconfig = IoConfig::new_mmio();
    let cs = configure_pin_as_hw_cs_pin(Pin::<Pb12>::__new(), &mut ioconfig);
    assert_eq!(cs, HwChipSelectId::Id2);
    assert_eq!(ioconfig.pins[16 + 12].raw, 1 << 13);
}

#[test]
fn spi_driver_configures_the_peripheral() {
    let mut sysconfig = Sysconfig::new();
    let mut ioconfig = IoConfig::new_mmio();
    let mut regs = SpiBlock::new_mmio(Bank::Spi2);
    regs.tx_fifo = vec![1, 2];
    regs.rx_fifo = vec![3];
    let config = SpiConfig::default()
        .mode(Mode { polarity: Polarity::IdleHigh, phase: Phase::CaptureOnSecondTransition })
        .clk_cfg(SpiClkConfig::new(10, 4))
        .loopback(true)
        .slave_output_disable(true);
    let res: Result<Spi<u8>, SpiIdMissmatchError> = Spi::new(
        Spi0,
        (Pin::<Pa5>::__new(), Pin::<Pa6>::__new(), Pin::<Pa7>::__new()),
        config,
        0xaa,
        &mut sysconfig,
        &mut ioconfig,
        &mut regs,
    );
    assert!(res.is_err());
    assert_eq!(sysconfig, Sysconfig::new());
    assert_eq!(regs.regs.ctrl0.raw, 0);
    let mut spi: Spi<u8> = Spi::new(
        Spi2,
        (Pin::<Pa5>::__new(), Pin::<Pa6>::__new(), Pin::<Pa7>::__new()),
        config,
        0xaa,
        &mut sysconfig,
        &mut ioconfig,
        &mut regs,
    )
    .unwrap();
    assert_eq!(sysconfig.peripheral_clk_enable, 1 << 2);
    assert_eq!((ioconfig.pins[5].raw, ioconfig.pins[6].raw, ioconfig.pins[7].raw), (2 << 13, 2 << 13, 2 << 13));
    // scrdv 4, both mode bits, eight bits.
    assert_eq!(regs.regs.ctrl0.raw, (4 << 8) | (1 << 7) | (1 << 6) | 7);
    // stall, block mode, slave output disabled, enabled, loopback.
    assert_eq!(regs.regs.ctrl1.raw, (1 << 9) | (1 << 7) | (1 << 3) | (1 << 1) | 1);
    assert_eq!(regs.regs.clkprescale.raw, 10);
    assert_eq!(regs.regs.fifo_clear.raw, 0b11);
    assert!(regs.tx_fifo.is_empty());
    assert!(regs.rx_fifo.is_empty());
    assert_eq!(spi.fill_word(), 0xaa);
    spi.set_fill_word(0x55);
    assert_eq!(spi.fill_word(), 0x55);
    spi.cfg_clock(&mut regs, SpiClkConfig::new(20, 9));
    assert_eq!(regs.regs.ctrl0.scrdv(), 9);
    assert_eq!(regs.regs.clkprescale.value(), 20);
    assert_eq!(spi.cfg_clock_from_div(&mut regs, 1000), Ok(()));
    assert_eq!((regs.regs.clkprescale.value(), regs.regs.ctrl0.scrdv()), (250, 3));
    assert_eq!(spi.cfg_clock_from_div(&mut regs, 3), Err(SpiClkConfigError::DivideValueNotEven));
    assert_eq!((regs.regs.clkprescale.value(), regs.regs.ctrl0.scrdv()), (250, 3));
    spi.cfg_mode(&mut regs, Mode { polarity: Polarity::IdleLow, phase: Phase::CaptureOnSecondTransition });
    assert!(!regs.regs.ctrl0.spo());
    assert!(regs.regs.ctrl0.sph());
    spi.cfg_hw_cs(&mut regs, HwChipSelectId::Id5);
    assert!(!regs.regs.ctrl1.sod());
    assert_eq!(regs.regs.ctrl1.ss(), HwChipSelectId::Id5);
    spi.cfg_hw_cs_disable(&mut regs);
    assert!(regs.regs.ctrl1.sod());
    assert_eq!(spi.perid(&regs), 0x0213_07E9);
    let transfer = TransferConfig::new_with_hw_cs(Some(SpiClkConfig::new(6, 1)), None, false, false, false, HwChipSelectId::Id1);
    spi.cfg_transfer(&mut regs, &transfer);
    assert_eq!((regs.regs.clkprescale.value(), regs.regs.ctrl0.scrdv()), (6, 1));
    assert!(regs.regs.ctrl0.sph());
    assert!(!regs.regs.ctrl1.sod());
    assert_eq!(regs.regs.ctrl1.ss(), HwChipSelectId::Id1);
    assert!(!regs.regs.ctrl1.blockmode());
    assert!(!regs.regs.ctrl1.bm_stall());
}

#[test]
fn spi_for_rom_is_spi_3() {
    let mut sysconfig = Sysconfig::new();
    let mut regs = SpiBlock::new_mmio(Bank::Spi3);
    let res: Result<Spi<u16>, SpiIdMissmatchError> =
        Spi::new_for_rom(Spi2, SpiConfig::default(), 0, &mut sysconfig, &mut regs);
    assert!(res.is_err());
    let res: Result<Spi<u16>, SpiIdMissmatchError> =
        Spi::new_for_rom(Spi3, SpiConfig::default(), 0, &mut sysconfig, &mut regs);
    assert!(res.is_ok());
    assert_eq!(sysconfig.peripheral_clk_enable, 1 << 3);
    // scrdv 0, mode 0, sixteen bits; the default prescaler is 2.
    assert_eq!(regs.regs.ctrl0.raw, 0xf);
    assert_eq!(regs.regs.clkprescale.raw, 2);
}

#[test]
fn spi_fifo_access_and_pumping() {
    let mut sysconfig = Sysconfig::new();
    let mut regs = SpiBlock::new_mmio(Bank::Spi0);
    let mut spi: Spi<u8> = Spi::new_generic(Spi0, SpiConfig::default(), 0, &mut sysconfig, &mut regs);
    assert_eq!(spi.read_fifo(&mut regs), NbResult::WouldBlock);
    regs.rx_fifo = vec![0x8000_0011, 0x22];
    assert_eq!(spi.read_fifo(&mut regs), NbResult::Done(0x8000_0011));
    assert_eq!(spi.read_fifo_unchecked(&mut regs), 0x22);
    assert_eq!(spi.read_fifo_unchecked(&mut regs), 0);
    let words: Vec<u32> = (1..=20).collect();
    let written = spi.initial_send_fifo_pumping_with_words(&mut regs, &words);
    assert_eq!(written, 12);
    let mut expected: Vec<u32> = (1..=12).collect();
    expected[11] |= BMSTART_BMSTOP_MASK;
    assert_eq!(regs.tx_fifo, expected);
    assert!(!regs.regs.ctrl1.mtxpause());
    assert_eq!(spi.write_fifo(&mut regs, 13), NbResult::Done(()));
    for word in 14..=16 {
        spi.write_fifo_unchecked(&mut regs, word);
    }
    assert_eq!(regs.tx_fifo.len(), 16);
    assert_eq!(spi.write_fifo(&mut regs, 17), NbResult::WouldBlock);
    assert!(!regs.read_status().tx_not_full());
    assert!(!regs.read_status().tx_empty());
    spi.clear_tx_fifo(&mut regs);
    assert!(regs.tx_fifo.is_empty());
    assert!(regs.read_status().tx_empty());
    let short = [7u32, 8];
    assert_eq!(spi.initial_send_fifo_pumping_with_words(&mut regs, &short), 2);
    assert_eq!(regs.tx_fifo, vec![7, 8 | BMSTART_BMSTOP_MASK]);
    regs.rx_fifo = vec![1];
    spi.clear_rx_fifo(&mut regs);
    assert!(regs.rx_fifo.is_empty());
    assert_eq!(regs.tx_fifo.len(), 2);
}

#[test]
fn i2c_addresses_and_commands() {
    assert!(!I2cAddress::Regular(0x50).ten_bit_addr());
    assert!(I2cAddress::TenBit(0x350).ten_bit_addr());
    assert_eq!(I2cAddress::Regular(0x50).raw(), 0x50);
    assert_eq!(I2cAddress::TenBit(0x350).raw(), 0x350);
    assert_eq!(I2cCommand::Start.raw_value(), 1);
    assert_eq!(I2cCommand::Stop.raw_value(), 2);
    assert_eq!(I2cCommand::StartWithStop.raw_value(), 3);
    assert_eq!(I2cCommand::Cancel.raw_value(), 4);
    assert_eq!(I2c0::id(), vorago_shared_hal::i2c::Bank::I2c0);
    assert_eq!(I2c2::periph_sel(), PeripheralSelect::I2c2);
}

#[test]
fn i2c_clock_divider() {
    // 50 MHz / 100 kHz / 20 - 1
    assert_eq!(calc_clk_div_generic(hz(50_000_000), I2cSpeed::Regular100khz), Ok(24));
    assert_eq!(calc_clk_div_generic(hz(2_000_000), I2cSpeed::Regular100khz), Ok(0));
    // 50 MHz / 400 kHz / 25 - 1
    assert_eq!(calc_clk_div_generic(hz(50_000_000), I2cSpeed::Fast400khz), Ok(4));
    assert_eq!(calc_clk_div_generic(hz(10_000_000), I2cSpeed::Fast400khz), Ok(0));
    assert_eq!(calc_clk_div_generic(hz(7_999_999), I2cSpeed::Fast400khz), Err(ClockTooSlowForFastI2cError));
    assert_eq!(calc_clk_div_generic(hz(0), I2cSpeed::Fast400khz), Err(ClockTooSlowForFastI2cError));
    // Of a divider above 255, the low eight bits are left: 2146 is 0x862.
    assert_eq!(calc_clk_div_generic(hz(u32::MAX), I2cSpeed::Regular100khz), Ok(0x62));
    let clocks = Clocks::__new(hz(100_000_000), hz(0));
    assert_eq!(calc_clk_div(&clocks, I2cSpeed::Regular100khz), Ok(24));
}

#[test]
fn i2c_master_configures_the_peripheral() {
    let clocks = Clocks::__new(hz(100_000_000), hz(0));
    let mut sysconfig = Sysconfig::new();
    sysconfig.peripheral_reset = 0;
    let mut regs = I2c::new_mmio(vorago_shared_hal::i2c::Bank::I2c2);
    let cfg = MasterConfig {
        tx_empty_mode: TxFifoEmptyMode::EndTransaction,
        rx_full_mode: RxFifoFullMode::Nack,
        alg_filt: true,
        dlg_filt: false,
        timing_config: Some(TimingConfig::default()),
        timeout: Some(0x12345),
    };
    let mut master = I2cMaster::new(I2c2, &clocks, cfg, I2cSpeed::Fast400khz, &mut sysconfig, &mut regs).unwrap();
    assert_eq!(master.id(), vorago_shared_hal::i2c::Bank::I2c2);
    assert_eq!(sysconfig.peripheral_reset, 1 << 9);
    assert_eq!(sysconfig.peripheral_clk_enable, 1 << 9);
    assert_eq!(regs.clkscale.raw, (1 << 31) | 4);
    // enable, both modes, analog filter, timing.
    assert_eq!(regs.control.raw, (1 << 2) | (1 << 3) | (1 << 4) | (1 << 5) | (1 << 9));
    // The timing after a reset, from the highest field down: a 8 a 8 9 8 1 2.
    assert_eq!(regs.timing_config.raw, 0xa8a8_9812);
    assert_eq!(regs.fifo_clear.raw, 0b11);
    assert_eq!(regs.clk_timeout_limit.value(), 0x12345);
    assert_eq!(master.perid(&regs), 0x0214_07E9);
    master.disable(&mut regs);
    assert!(!regs.control.enable());
    master.enable(&mut regs);
    assert!(regs.control.enable());
    assert_eq!(master.set_clk_scale(&mut regs, &clocks, I2cSpeed::Regular100khz), Ok(()));
    assert_eq!(regs.clkscale.raw, 24);
    assert!(regs.control.enable());
    master.cancel_transfer(&mut regs);
    assert_eq!(regs.cmd.raw, 0b100);
    master.write_command(&mut regs, I2cCommand::StartWithStop);
    assert_eq!(regs.cmd.raw, 0b11);
    master.clear_tx_fifo(&mut regs);
    assert_eq!(regs.fifo_clear.raw, 0b10);
    master.clear_rx_fifo(&mut regs);
    assert_eq!(regs.fifo_clear.raw, 0b01);
    master.set_clock_low_timeout(&mut regs, 0xf_ffff);
    assert_eq!(regs.clk_timeout_limit.raw, 0xf_ffff);
    master.disable_clock_low_timeout(&mut regs);
    assert_eq!(regs.clk_timeout_limit.raw, 0);
    master.write_address(&mut regs, I2cAddress::Regular(0x50), Direction::Receive);
    assert_eq!(regs.address.raw, (0x50 << 1) | 1);
    master.write_address(&mut regs, I2cAddress::TenBit(0x3ff), Direction::Send);
    assert_eq!(regs.address.raw, (1 << 15) | (0x3ff << 1));
    regs.status = I2cStatus { raw: 0b10 };
    assert!(master.read_status(&regs).idle());
}

#[test]
fn i2c_master_refuses_a_slow_clock_for_fast_speed() {
    let clocks = Clocks::__new(hz(10_000_000), hz(0));
    let mut sysconfig = Sysconfig::new();
    let mut regs = I2c::new_mmio(vorago_shared_hal::i2c::Bank::I2c0);
    let res = I2cMaster::new(I2c0, &clocks, MasterConfig::default(), I2cSpeed::Fast400khz, &mut sysconfig, &mut regs);
    assert!(res.is_err());
    assert_eq!(regs, I2c::new_mmio(vorago_shared_hal::i2c::Bank::I2c0));
    assert_eq!(sysconfig.peripheral_clk_enable, 1 << 7);
}

#[test]
fn i2c_timeout_guard_watches_a_set_limit() {
    let mut regs = I2c::new_mmio(vorago_shared_hal::i2c::Bank::I2c0);
    let guard = TimeoutGuard::new(&mut regs);
    assert!(!guard.timeout_enabled());
    assert_eq!(regs, I2c::new_mmio(vorago_shared_hal::i2c::Bank::I2c0));
    guard.release(&mut regs);
    regs.clk_timeout_limit.raw = 100;
    let guard = TimeoutGuard::new(&mut regs);
    assert!(guard.timeout_enabled());
    assert_eq!(regs.irq_clear.raw, 1 << 7);
    assert_eq!(regs.irq_enb.raw, 1 << 7);
    guard.release(&mut regs);
    assert_eq!(regs.irq_enb.raw, 0);
}

#[test]
fn i2c_write_steps() {
    let status = |raw| I2cStatus { raw };
    let arb_lost = 1 << 4;
    let nack_addr = 1 << 5;
    let nack_data = 1 << 6;
    let idle = 1 << 1;
    let waiting = 1 << 2;
    let tx_not_full = 1 << 13;
    let step = |raw, timed_out, index, len, cmd, end| I2cMaster::write_step(status(raw), timed_out, index, len, cmd, end);
    let (on_idle, on_waiting) = (WriteCompletionCondition::Idle, WriteCompletionCondition::Waiting);
    assert_eq!(
        step(arb_lost | nack_addr | idle, None, 0, 4, I2cCommand::Start, on_idle),
        WriteStep::Failed { error: Error::ArbitrationLost, stop: true }
    );
    assert_eq!(
        step(nack_addr | nack_data, None, 0, 4, I2cCommand::StartWithStop, on_idle),
        WriteStep::Failed { error: Error::NackAddr, stop: false }
    );
    assert_eq!(
        step(nack_data | idle, Some(7), 0, 4, I2cCommand::Start, on_idle),
        WriteStep::Failed { error: Error::NackData, stop: true }
    );
    assert_eq!(step(idle, Some(7), 0, 4, I2cCommand::Start, on_idle), WriteStep::Complete);
    assert_eq!(step(waiting, None, 4, 4, I2cCommand::Start, on_waiting), WriteStep::Complete);
    assert_eq!(
        step(waiting | tx_not_full, Some(9), 1, 4, I2cCommand::Start, on_idle),
        WriteStep::TimedOut { error: Error::ClockTimeout(9) }
    );
    assert_eq!(step(idle | tx_not_full, None, 1, 4, I2cCommand::Start, on_waiting), WriteStep::WriteByte);
    assert_eq!(step(tx_not_full, None, 4, 4, I2cCommand::Start, on_waiting), WriteStep::Wait);
    assert_eq!(step(0, None, 1, 4, I2cCommand::Start, on_idle), WriteStep::Wait);
    assert_eq!(I2cMaster::write_prefill(0), Ok(0));
    assert_eq!(I2cMaster::write_prefill(11), Ok(11));
    assert_eq!(I2cMaster::write_prefill(12), Ok(12));
    assert_eq!(I2cMaster::write_prefill(0x7fe), Ok(12));
    assert_eq!(I2cMaster::write_prefill(0x7ff), Err(Error::DataTooLarge));
}

#[test]
fn i2c_read_steps() {
    let status = |raw| I2cStatus { raw };
    let arb_lost = 1 << 4;
    let nack_addr = 1 << 5;
    let idle = 1 << 1;
    let rx_not_empty = 1 << 8;
    assert_eq!(
        I2cMaster::read_step(status(arb_lost | nack_addr), None, 0, 2),
        ReadStep::Failed { error: Error::ArbitrationLost, clear_rx_fifo: true }
    );
    assert_eq!(
        I2cMaster::read_step(status(nack_addr | idle), None, 0, 2),
        ReadStep::Failed { error: Error::NackAddr, clear_rx_fifo: true }
    );
    assert_eq!(
        I2cMaster::read_step(status(idle | rx_not_empty), None, 1, 2),
        ReadStep::Failed { error: Error::InsufficientDataReceived, clear_rx_fifo: false }
    );
    assert_eq!(I2cMaster::read_step(status(idle), Some(3), 2, 2), ReadStep::Complete);
    assert_eq!(
        I2cMaster::read_step(status(rx_not_empty), Some(3), 1, 2),
        ReadStep::Failed { error: Error::ClockTimeout(3), clear_rx_fifo: false }
    );
    assert_eq!(I2cMaster::read_step(status(rx_not_empty), None, 1, 2), ReadStep::TakeByte);
    assert_eq!(I2cMaster::read_step(status(0), None, 1, 2), ReadStep::Wait);
}
