//! Timers, their registers, and PWM.
use vorago_shared_hal::clock::{Clocks, HBO_FREQ_HZ};
use vorago_shared_hal::ioconfig::regs::IoConfig;
use vorago_shared_hal::ioconfig::FunctionSelect;
use vorago_shared_hal::pins::{Pa0, Pa10, Pg6, Pin};
use vorago_shared_hal::pwm::{PwmA, PwmPin, TimMissmatchError, DUTY_MAX};
use vorago_shared_hal::sysconfig::{
    assert_peripheral_reset, deassert_peripheral_reset, disable_peripheral_clock, enable_peripheral_clock,
    reset_peripheral_for_cycles, Sysconfig,
};
use vorago_shared_hal::time::Hertz;
use vorago_shared_hal::timer::regs::{
    CascadeControl as CascadeControlReg, CascadeInvert, CascadeSource, CascadeSourceReg, Control, DualCascadeOp,
    EnableControl, InvalidCascadeSourceId, InvalidTimerIndex, StatusSelect, TimId, Timer, TIMER_PERID,
};
use vorago_shared_hal::timer::{
    assert_tim_reset, assert_tim_reset_for_cycles, deassert_tim_reset, disable_tim_clk, enable_tim_clk, tim_clock,
    CascadeControl, CascadeSelect, CountdownTimer, DelayPlan, Tim0, Tim23, TimInstance, TimPin,
};
use vorago_shared_hal::{Interrupt, NbResult, Nvic, PeripheralSelect, Port};

fn clocks() -> Clocks {
    Clocks::__new(Hertz::from_raw(100_000_000), Hertz::from_raw(12_500_000))
}

#[test]
fn clocks_divide_the_system_clock() {
    let clocks = clocks();
    assert_eq!(clocks.sysclk().raw(), 100_000_000);
    assert_eq!(clocks.apb0().raw(), 100_000_000);
    assert_eq!(clocks.apb1().raw(), 50_000_000);
    assert_eq!(clocks.apb2().raw(), 25_000_000);
    assert_eq!(clocks.adc_clk().raw(), 12_500_000);
    assert_eq!(clocks.hbo().raw(), 20_000_000);
    assert_eq!(HBO_FREQ_HZ, 20_000_000);
    let odd = Clocks::__new(Hertz::from_raw(7), Hertz::from_raw(0));
    assert_eq!(odd.apb1().raw(), 3);
    assert_eq!(odd.apb2().raw(), 1);
}

#[test]
fn timers_are_clocked_by_their_bus() {
    let clocks = clocks();
    assert_eq!(tim_clock(TimId::new_unchecked(0), clocks).raw(), 50_000_000);
    assert_eq!(tim_clock(TimId::new_unchecked(15), clocks).raw(), 50_000_000);
    assert_eq!(tim_clock(TimId::new_unchecked(16), clocks).raw(), 25_000_000);
    assert_eq!(tim_clock(TimId::new_unchecked(23), clocks).raw(), 25_000_000);
    assert_eq!(Tim0::clock(&clocks).raw(), 50_000_000);
    assert_eq!(Tim23::clock(&clocks).raw(), 25_000_000);
}

#[test]
fn timer_ids_are_checked() {
    assert_eq!(TimId::new(23).unwrap().value(), 23);
    assert_eq!(TimId::new(24), Err(InvalidTimerIndex(24)));
    assert_eq!(TimId::new(0).unwrap(), TimId::new_unchecked(0));
    assert_eq!(TimId::new_unchecked(7).interrupt_id(), Interrupt { number: 55 });
    assert_eq!(TimId::new_unchecked(23).interrupt_id(), Interrupt { number: 71 });
    assert_eq!(TimId::new_unchecked(0).base_address(), 0x4001_8000);
    assert_eq!(TimId::new_unchecked(2).base_address(), 0x4001_8800);
    assert_eq!(Tim0::id(), TimId::new_unchecked(0));
    assert_eq!(Tim23::id().value(), 23);
    assert!(Timer::new_mmio_with_raw_index(24).is_err());
    assert_eq!(Timer::new_mmio_with_raw_index(3).unwrap().perid, TIMER_PERID);
    assert_eq!(TimId::new_unchecked(3).steal_regs(), Timer::new_mmio(TimId::new_unchecked(3)));
}

#[test]
fn timer_enable_register_mirrors_the_control_register() {
    let mut timer = Timer::new_mmio(TimId::new_unchecked(0));
    timer.write_control(Control { raw: 0 }.with_irq_enable(true).with_enable(true));
    assert_eq!(timer.control.raw, 0b1_0001);
    assert!(timer.enable_control.enabled());
    timer.write_enable_control(EnableControl::new_disable());
    assert_eq!(timer.control.raw, 0b1_0000);
    assert!(!timer.enable_control.enabled());
    timer.write_enable_control(EnableControl::new_enable());
    assert_eq!(timer.read_control().raw, 0b1_0001);
    timer.write_reset_value(77);
    timer.write_count_value(66);
    assert_eq!((timer.read_reset_value(), timer.read_count_value()), (77, 66));
    timer.write_pwma_value(5);
    timer.write_pwmb_value(6);
    assert_eq!((timer.pwma_value, timer.pwmb_value), (5, 6));
    assert_eq!(timer.read_perid(), 0x0211_07E9);
}

#[test]
fn control_register_fields() {
    let control = Control::new_with_raw_value(0b11_0110_0101);
    assert!(control.request_stop());
    assert!(control.status_invert());
    assert_eq!(control.status_sel(), Some(StatusSelect::PwmaOutput));
    assert!(!control.irq_enable());
    assert!(!control.auto_deactivate());
    assert!(control.auto_disable());
    assert!(!control.active());
    assert!(control.enable());
    assert_eq!(control.with_status_sel(StatusSelect::PwmbOutput).raw_value(), 0b11_1000_0101);
    assert_eq!(Control { raw: 7 << 5 }.status_sel(), None);
    assert_eq!(Control { raw: 0 }.with_auto_deactivate(true).with_active(true).raw, 0b1010);
    assert_eq!(StatusSelect::PwmaActiveBit.raw_value(), 6);
    assert_eq!(StatusSelect::from_bits(5), Some(StatusSelect::EnabledBit));
}

#[test]
fn cascade_sources_have_their_numbers() {
    assert_eq!(CascadeSource::PortA(0).id(), Ok(0));
    assert_eq!(CascadeSource::PortA(15).id(), Ok(15));
    assert_eq!(CascadeSource::PortA(16).id(), Err(InvalidCascadeSourceId));
    assert_eq!(CascadeSource::PortB(3).id(), Ok(19));
    assert_eq!(CascadeSource::PortC(0).id(), Ok(32));
    assert_eq!(CascadeSource::PortD(15).id(), Ok(63));
    assert_eq!(CascadeSource::PortE(1).id(), Ok(65));
    assert_eq!(CascadeSource::Tim(23).id(), Ok(103));
    assert_eq!(CascadeSource::Tim(24).id(), Err(InvalidCascadeSourceId));
    assert_eq!(CascadeSource::TxEv.id(), Ok(104));
    assert_eq!(CascadeSource::AdcIrq.id(), Ok(105));
    assert_eq!(CascadeSource::RomSbe.id(), Ok(106));
    assert_eq!(CascadeSource::RomMbe.id(), Ok(106));
    assert_eq!(CascadeSource::Ram0Sbe.id(), Ok(108));
    assert_eq!(CascadeSource::Ram1Mbe.id(), Ok(111));
    assert_eq!(CascadeSource::WdogIrq.id(), Ok(112));
}

#[test]
fn cascade_sources_are_found_from_their_numbers() {
    assert_eq!(CascadeSource::from_raw(0), Ok(CascadeSource::PortA(0)));
    assert_eq!(CascadeSource::from_raw(31), Ok(CascadeSource::PortB(15)));
    assert_eq!(CascadeSource::from_raw(47), Ok(CascadeSource::PortC(15)));
    assert_eq!(CascadeSource::from_raw(48), Ok(CascadeSource::PortD(0)));
    assert_eq!(CascadeSource::from_raw(79), Ok(CascadeSource::PortE(15)));
    assert_eq!(CascadeSource::from_raw(80), Ok(CascadeSource::Tim(0)));
    assert_eq!(CascadeSource::from_raw(103), Ok(CascadeSource::Tim(23)));
    assert_eq!(CascadeSource::from_raw(107), Ok(CascadeSource::RomMbe));
    assert_eq!(CascadeSource::from_raw(112), Ok(CascadeSource::WdogIrq));
    assert_eq!(CascadeSource::from_raw(113), Err(InvalidCascadeSourceId));
    assert_eq!(CascadeSource::from_raw(127), Err(InvalidCascadeSourceId));
    // Only the seven low bits count.
    assert_eq!(CascadeSource::from_raw(0xffff_ff80 | 104), Ok(CascadeSource::TxEv));
    assert_eq!(CascadeSourceReg::new(CascadeSource::Tim(2)).unwrap().raw, 82);
    assert!(CascadeSourceReg::new(CascadeSource::PortE(16)).is_err());
    assert_eq!(CascadeSourceReg::new_with_raw_value(64).as_cascade_source(), Ok(CascadeSource::PortE(0)));
}

#[test]
fn timer_clock_gates_and_resets() {
    let mut sysconfig = Sysconfig::new();
    enable_tim_clk(&mut sysconfig, TimId::new_unchecked(5));
    enable_tim_clk(&mut sysconfig, TimId::new_unchecked(23));
    assert_eq!(sysconfig.tim_clk_enable, (1 << 5) | (1 << 23));
    disable_tim_clk(&mut sysconfig, TimId::new_unchecked(5));
    assert_eq!(sysconfig.tim_clk_enable, 1 << 23);
    assert_tim_reset(&mut sysconfig, TimId::new_unchecked(2));
    assert_eq!(sysconfig.tim_reset, !(1 << 2));
    deassert_tim_reset(&mut sysconfig, TimId::new_unchecked(2));
    assert_eq!(sysconfig.tim_reset, 0xffff_ffff);
    sysconfig.tim_reset = 0;
    assert_tim_reset_for_cycles(&mut sysconfig, TimId::new_unchecked(9), 2);
    assert_eq!(sysconfig.tim_reset, 1 << 9);
    enable_peripheral_clock(&mut sysconfig, PeripheralSelect::Uart1);
    assert_eq!(sysconfig.peripheral_clk_enable, 1 << 5);
    disable_peripheral_clock(&mut sysconfig, PeripheralSelect::Uart1);
    assert_eq!(sysconfig.peripheral_clk_enable, 0);
    assert_peripheral_reset(&mut sysconfig, PeripheralSelect::I2c2);
    assert_eq!(sysconfig.peripheral_reset, !(1 << 9));
    deassert_peripheral_reset(&mut sysconfig, PeripheralSelect::I2c2);
    assert_eq!(sysconfig.peripheral_reset, 0xffff_ffff);
    sysconfig.peripheral_reset = 0;
    reset_peripheral_for_cycles(&mut sysconfig, PeripheralSelect::Watchdog, 10);
    assert_eq!(sysconfig.peripheral_reset, 1 << 23);
}

#[test]
fn countdown_timer_loads_the_clock_by_the_frequency() {
    let mut sysconfig = Sysconfig::new();
    sysconfig.tim_reset = 0;
    let mut regs = Timer::new_mmio(TimId::new_unchecked(4));
    let mut timer = CountdownTimer::new(TimId::new_unchecked(4), &clocks(), &mut sysconfig);
    assert_eq!(sysconfig.tim_clk_enable, 1 << 4);
    assert_eq!(sysconfig.tim_reset, 1 << 4);
    assert_eq!(timer.curr_freq().raw(), 0);
    regs.write_enable_control(EnableControl::new_enable());
    timer.load(&mut regs, Hertz::from_raw(1_000));
    assert!(!regs.control.enable());
    // 50 MHz by 1 kHz.
    assert_eq!(regs.reset_value, 50_000);
    assert_eq!(regs.count_value, 50_000);
    assert_eq!(timer.curr_freq().raw(), 1_000);
    timer.start(&mut regs, Hertz::from_raw(3));
    assert_eq!(regs.reset_value, 16_666_666);
    assert!(regs.control.enable());
    assert_eq!(timer.counter(&regs), 16_666_666);
    assert_eq!(timer.perid(&regs), TIMER_PERID);
    timer.set_reload(&mut regs, 9);
    timer.set_count(&mut regs, 8);
    assert_eq!((regs.reset_value, regs.count_value), (9, 8));
    timer.disable(&mut regs);
    assert!(!regs.enable_control.enabled());
    timer.enable(&mut regs);
    assert!(regs.enable_control.enabled());
    timer.stop_with_clock_disable(&mut regs, &mut sysconfig);
    assert!(!regs.control.enable());
    assert_eq!(sysconfig.tim_clk_enable, 0);
}

#[test]
fn countdown_timer_wait_sees_the_wrap() {
    let mut sysconfig = Sysconfig::new();
    let mut regs = Timer::new_mmio(TimId::new_unchecked(0));
    let mut timer = CountdownTimer::new(TimId::new_unchecked(0), &clocks(), &mut sysconfig);
    timer.start(&mut regs, Hertz::from_raw(500_000));
    assert_eq!(regs.reset_value, 100);
    // The first call finds the count above the last one, which is 0.
    assert_eq!(timer.wait(&regs), NbResult::Done(()));
    regs.count_value = 60;
    assert_eq!(timer.wait(&regs), NbResult::WouldBlock);
    regs.count_value = 10;
    assert_eq!(timer.wait(&regs), NbResult::WouldBlock);
    regs.count_value = 95;
    assert_eq!(timer.wait(&regs), NbResult::Done(()));
    regs.count_value = 100;
    assert_eq!(timer.wait(&regs), NbResult::WouldBlock);
    regs.count_value = 0;
    assert_eq!(timer.wait(&regs), NbResult::Done(()));
}

#[test]
fn countdown_timer_interrupt_and_modes() {
    let mut sysconfig = Sysconfig::new();
    let mut nvic = Nvic::new();
    let mut regs = Timer::new_mmio(TimId::new_unchecked(20));
    let mut timer = CountdownTimer::new(TimId::new_unchecked(20), &clocks(), &mut sysconfig);
    timer.enable_interrupt(&mut regs, &mut nvic, false);
    assert_eq!(regs.control.raw, 1 << 4);
    assert_eq!(nvic.enabled, [0; 8]);
    timer.enable_interrupt(&mut regs, &mut nvic, true);
    assert!(nvic.is_enabled(Interrupt { number: 68 }));
    timer.disable_interrupt(&mut regs);
    assert_eq!(regs.control.raw, 0);
    timer.auto_disable(&mut regs, true);
    timer.auto_deactivate(&mut regs, true);
    assert_eq!(regs.control.raw, 0b1100);
    timer.auto_disable(&mut regs, false);
    assert_eq!(regs.control.raw, 0b1000);
}

#[test]
fn countdown_timer_cascade() {
    let mut sysconfig = Sysconfig::new();
    let mut regs = Timer::new_mmio(TimId::new_unchecked(0));
    let mut timer = CountdownTimer::new(TimId::new_unchecked(0), &clocks(), &mut sysconfig);
    assert_eq!(CascadeControl::default().enable_src_0, false);
    timer.cascade_control(&mut regs, CascadeControl::default());
    assert_eq!(regs.cascade_control.raw, 0);
    let ctrl = CascadeControl {
        enable_src_0: true,
        inv_src_0: CascadeInvert::ActiveLow,
        enable_src_1: false,
        inv_src_1: CascadeInvert::ActiveLow,
        dual_operation: DualCascadeOp::LogicalOr,
        trigger_mode_0: true,
        trigger_mode_1: false,
        enable_stop_src_2: true,
        inv_src_2: CascadeInvert::ActiveHigh,
        trigger_mode_2: true,
    };
    timer.cascade_control(&mut regs, ctrl);
    assert_eq!(regs.cascade_control.raw, (1 << 10) | (1 << 8) | (1 << 6) | (1 << 4) | (1 << 3) | (1 << 1) | 1);
    assert_eq!(regs.cascade_control, CascadeControlReg { raw: 0b101_0101_1011 });
    assert_eq!(timer.cascade_source(&mut regs, CascadeSelect::Csd1, CascadeSource::Tim(3)), Ok(()));
    assert_eq!((regs.cascade0.raw, regs.cascade1.raw, regs.cascade2.raw), (0, 83, 0));
    assert_eq!(timer.cascade_source(&mut regs, CascadeSelect::Csd2, CascadeSource::WdogIrq), Ok(()));
    assert_eq!(regs.cascade2.raw, 112);
    let before = regs;
    assert_eq!(
        timer.cascade_source(&mut regs, CascadeSelect::Csd0, CascadeSource::PortB(16)),
        Err(InvalidCascadeSourceId)
    );
    assert_eq!(regs, before);
}

#[test]
fn delay_is_split_into_full_periods_and_a_rest() {
    let mut sysconfig = Sysconfig::new();
    let timer = CountdownTimer::new(TimId::new_unchecked(0), &clocks(), &mut sysconfig);
    // 1 ms at 50 MHz.
    assert_eq!(timer.delay_plan(1_000_000), DelayPlan { full_cycles: 0, ticks: 50_000 });
    assert_eq!(timer.delay_plan(0), DelayPlan { full_cycles: 0, ticks: 0 });
    assert_eq!(timer.delay_plan(19), DelayPlan { full_cycles: 0, ticks: 0 });
    assert_eq!(timer.delay_plan(20), DelayPlan { full_cycles: 0, ticks: 1 });
    assert_eq!(timer.delay_plan(u32::MAX), DelayPlan { full_cycles: 0, ticks: 214_748_364 });
    let fast = Clocks::__new(Hertz::from_raw(u32::MAX), Hertz::from_raw(0));
    let timer = CountdownTimer::new(TimId::new_unchecked(0), &fast, &mut sysconfig);
    // 4294967295 ns at 2147483647 Hz are 9223372030 ticks: two full periods and a rest.
    assert_eq!(timer.delay_plan(u32::MAX), DelayPlan { full_cycles: 2, ticks: 633_437_438 });
}

#[test]
fn timer_pins_name_their_timer() {
    assert_eq!(<Pin<Pa0> as TimPin>::tim_id(), TimId::new_unchecked(0));
    assert_eq!(<Pin<Pa0> as TimPin>::fun_sel(), FunctionSelect::Sel1);
    assert_eq!(<Pin<Pa10> as TimPin>::tim_id(), TimId::new_unchecked(23));
    assert_eq!(<Pin<Pa10> as TimPin>::fun_sel(), FunctionSelect::Sel2);
    assert_eq!(<Pin<Pa10> as TimPin>::pin_id().offset(), 10);
    assert_eq!(<Pin<Pg6> as TimPin>::pin_id().port(), Port::G);
}

#[test]
fn pwm_pin_needs_the_timer_of_its_pin() {
    let mut sysconfig = Sysconfig::new();
    let mut ioconfig = IoConfig::new_mmio();
    let mut regs = Timer::new_mmio(TimId::new_unchecked(0));
    let res: Result<PwmPin<PwmA>, TimMissmatchError> = PwmPin::new(
        Pin::<Pa0>::__new(),
        Tim23,
        &clocks(),
        Hertz::from_raw(1_000),
        &mut sysconfig,
        &mut ioconfig,
        &mut regs,
    );
    let err = res.err().unwrap();
    assert_eq!(err, TimMissmatchError { pin_tim: TimId::new_unchecked(0), tim_id: TimId::new_unchecked(23) });
    assert_eq!(sysconfig, Sysconfig::new());
    assert_eq!(regs, Timer::new_mmio(TimId::new_unchecked(0)));
    assert_eq!(ioconfig.pins[0].raw, 0);
}

#[test]
fn pwm_pin_sets_period_and_duty() {
    let mut sysconfig = Sysconfig::new();
    let mut ioconfig = IoConfig::new_mmio();
    let mut regs = Timer::new_mmio(TimId::new_unchecked(0));
    let mut pin: PwmPin<PwmA> = PwmPin::new(
        Pin::<Pa0>::__new(),
        Tim0,
        &clocks(),
        Hertz::from_raw(1_000),
        &mut sysconfig,
        &mut ioconfig,
        &mut regs,
    )
    .unwrap();
    assert_eq!(ioconfig.pins[0].raw, 1 << 13);
    assert_eq!(sysconfig.peripheral_clk_enable, 1 << 21);
    assert_eq!(sysconfig.tim_clk_enable, 1);
    assert_eq!(regs.control.status_sel(), Some(StatusSelect::PwmaOutput));
    assert_eq!(regs.control.raw, 3 << 5);
    assert_eq!(regs.reset_value, 50_000);
    assert_eq!(pin.get_period().raw(), 1_000);
    assert_eq!(pin.period().raw(), 1_000);
    assert_eq!(pin.duty(), 0);
    assert_eq!(pin.max_duty_cycle(), DUTY_MAX);
    assert_eq!(DUTY_MAX, 65_535);
    pin.set_duty_cycle(&mut regs, 0);
    assert_eq!(regs.pwma_value, 50_000);
    pin.set_duty_cycle(&mut regs, DUTY_MAX);
    assert_eq!(regs.pwma_value, 0);
    pin.set_duty_cycle(&mut regs, 16_384);
    // 50000 * (65535 - 16384) / 65535
    assert_eq!(regs.pwma_value, 37_499);
    assert_eq!(pin.duty(), 16_384);
    // A frequency of 0 is kept, but leaves the timer alone.
    pin.set_period(&mut regs, Hertz::from_raw(0));
    assert_eq!(pin.period().raw(), 0);
    assert_eq!(regs.reset_value, 50_000);
    pin.set_period(&mut regs, Hertz::from_raw(7));
    assert_eq!(regs.reset_value, 7_142_857);
    pin.enable(&mut regs);
    assert!(regs.control.enable());
    pin.disable(&mut regs);
    assert!(!regs.control.enable());
    let mut pin = pin.into_pwmb(&mut regs);
    assert_eq!(regs.control.status_sel(), Some(StatusSelect::PwmbOutput));
    assert_eq!(pin.pwmb_upper_limit(), 16_384);
    assert_eq!(pin.pwmb_lower_limit(), 0);
    pin.set_pwmb_lower_limit(&mut regs, 32_768);
    pin.set_pwmb_upper_limit(&mut regs, 45_875);
    // 7142857 * 32768 / 65535 and 7142857 * 45875 / 65535
    assert_eq!(regs.pwmb_value, 3_571_482);
    assert_eq!(regs.pwma_value, 5_000_054);
    assert_eq!((pin.pwmb_lower_limit(), pin.pwmb_upper_limit()), (32_768, 45_875));
    let pin = pin.into_pwma(&mut regs);
    assert_eq!(regs.control.status_sel(), Some(StatusSelect::PwmaOutput));
    assert_eq!(pin.duty(), 45_875);
}
