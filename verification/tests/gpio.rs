//! Pins, ports and the drivers of a pin.
use vorago_shared_hal::gpio::ll::{DynPinId, InterruptEdge, InterruptLevel, LowLevelGpio, PinState};
use vorago_shared_hal::gpio::regs::{Gpio, GPIO_PERID};
use vorago_shared_hal::gpio::{Flex, Input, IoPeriphPin, Output, PinMode};
use vorago_shared_hal::ioconfig::regs::{Config, IoConfig};
use vorago_shared_hal::ioconfig::{FilterClockSelect, FilterType, FunctionSelect, Pull};
use vorago_shared_hal::pins::{AnyPin, Pa0, Pb4, Pc11, Pf15, Pg7, Pin, PinId, PinsA, PinsG};
use vorago_shared_hal::sysconfig::Sysconfig;
use vorago_shared_hal::timer::TimId;
use vorago_shared_hal::{
    disable_nvic_interrupt, enable_nvic_interrupt, Interrupt, InvalidOffsetError, Nvic, PeripheralSelect, Port,
};

#[test]
fn ports_have_16_pins_but_g() {
    for port in [Port::A, Port::B, Port::C, Port::D, Port::E, Port::F] {
        assert_eq!(port.max_offset(), 16);
        assert!(port.supports_interrupts());
    }
    assert_eq!(Port::G.max_offset(), 8);
    assert!(!Port::G.supports_interrupts());
    assert_eq!(Port::A.index(), 0);
    assert_eq!(Port::G.index(), 6);
}

#[test]
fn pin_ids_are_checked() {
    let id = DynPinId::new(Port::C, 15).unwrap();
    assert_eq!(id.port(), Port::C);
    assert_eq!(id.offset(), 15);
    assert_eq!(DynPinId::new(Port::C, 16), Err(InvalidOffsetError { offset: 16, port: Port::C }));
    assert_eq!(DynPinId::new(Port::G, 8), Err(InvalidOffsetError { offset: 8, port: Port::G }));
    assert!(DynPinId::new(Port::G, 7).is_ok());
    assert_eq!(DynPinId::new_unchecked(Port::A, 0), DynPinId::new(Port::A, 0).unwrap());
    assert_ne!(DynPinId::new_unchecked(Port::A, 1), DynPinId::new_unchecked(Port::B, 1));
}

#[test]
fn pin_interrupt_lines_follow_each_other() {
    assert_eq!(DynPinId::new_unchecked(Port::A, 0).irq(), Ok(Interrupt { number: 78 }));
    assert_eq!(DynPinId::new_unchecked(Port::A, 15).irq(), Ok(Interrupt { number: 93 }));
    assert_eq!(DynPinId::new_unchecked(Port::B, 0).irq(), Ok(Interrupt { number: 94 }));
    assert_eq!(DynPinId::new_unchecked(Port::C, 3).irq(), Ok(Interrupt { number: 113 }));
    assert_eq!(DynPinId::new_unchecked(Port::F, 15).irq(), Ok(Interrupt { number: 173 }));
    assert_eq!(DynPinId::new_unchecked(Port::F, 15).irq_unchecked(), Interrupt { number: 173 });
    assert!(DynPinId::new_unchecked(Port::G, 0).irq().is_err());
}

#[test]
fn pin_types_name_their_pins() {
    assert_eq!(Pa0::id(), DynPinId::new_unchecked(Port::A, 0));
    assert_eq!(Pc11::id(), DynPinId::new_unchecked(Port::C, 11));
    assert_eq!(Pf15::id(), DynPinId::new_unchecked(Port::F, 15));
    assert_eq!(Pg7::id(), DynPinId::new_unchecked(Port::G, 7));
    assert_eq!(<Pin<Pb4> as AnyPin>::id(), DynPinId::new_unchecked(Port::B, 4));
    assert_eq!(Pin::<Pb4>::steal().pin_id(), DynPinId::new_unchecked(Port::B, 4));
}

#[test]
fn port_singletons_clock_their_port() {
    let mut sysconfig = Sysconfig::new();
    sysconfig.peripheral_reset = 0;
    let pins = PinsA::new(&mut sysconfig);
    assert_eq!(pins.pa3.pin_id(), DynPinId::new_unchecked(Port::A, 3));
    // Port A is bit 24, the pin configuration bit 21.
    assert_eq!(sysconfig.peripheral_clk_enable, (1 << 24) | (1 << 21));
    assert_eq!(sysconfig.peripheral_reset, 1 << 24);
    let pins = PinsG::new(&mut sysconfig);
    assert_eq!(pins.pg7.pin_id().offset(), 7);
    assert_eq!(sysconfig.peripheral_clk_enable, (1 << 30) | (1 << 24) | (1 << 21));
    assert_eq!(PeripheralSelect::PortG.bit(), 30);
    assert_eq!(PeripheralSelect::Spi0.bit(), 0);
    assert_eq!(PeripheralSelect::IrqRouter.bit(), 20);
}

#[test]
fn nvic_lines_are_set_and_cleared_alone() {
    let mut nvic = Nvic::new();
    enable_nvic_interrupt(&mut nvic, Interrupt { number: 0 });
    enable_nvic_interrupt(&mut nvic, Interrupt { number: 33 });
    enable_nvic_interrupt(&mut nvic, Interrupt { number: 255 });
    assert_eq!(nvic.enabled, [1, 2, 0, 0, 0, 0, 0, 0x8000_0000]);
    assert!(nvic.is_enabled(Interrupt { number: 33 }));
    assert!(!nvic.is_enabled(Interrupt { number: 34 }));
    disable_nvic_interrupt(&mut nvic, Interrupt { number: 33 });
    assert_eq!(nvic.enabled, [1, 0, 0, 0, 0, 0, 0, 0x8000_0000]);
}

#[test]
fn gpio_registers_after_reset() {
    let gpio = Gpio::new_mmio(Port::D);
    assert_eq!(gpio.perid, GPIO_PERID);
    assert_eq!(gpio.perid, 0x0210_07E9);
    assert_eq!(gpio.dir, 0);
    assert_eq!(gpio.irq_enable, 0);
    assert_eq!(Port::D.steal_gpio(), gpio);
    assert_eq!(Gpio::base_address(Port::A), 0x4001_2000);
    assert_eq!(Gpio::base_address(Port::G), 0x4001_3800);
    // The value knows its port by the address of the registers.
    assert_eq!(gpio.base, 0x4001_2C00);
    assert_eq!(gpio.port(), Some(Port::D));
    let mut elsewhere = gpio;
    elsewhere.base = 0x4001_2C04;
    assert_eq!(elsewhere.port(), None);
}

#[test]
fn gpio_registers_of_each_port_are_at_their_own_address() {
    let ports = [Port::A, Port::B, Port::C, Port::D, Port::E, Port::F, Port::G];
    for (index, port) in ports.iter().enumerate() {
        let gpio = Gpio::new_mmio(*port);
        assert_eq!(gpio.base, 0x4001_2000 + 0x400 * index);
        assert_eq!(gpio.base, Gpio::base_address(*port));
        assert_eq!(gpio.port(), Some(*port));
        assert_eq!(port.steal_gpio(), gpio);
        for other in ports.iter() {
            assert_eq!(Gpio::new_mmio(*other) == gpio, other == port);
        }
    }
}

#[test]
fn checked_and_unchecked_constructors_agree() {
    for offset in 0..16 {
        assert_eq!(DynPinId::new(Port::C, offset).unwrap(), DynPinId::new_unchecked(Port::C, offset));
    }
    for offset in 0..8 {
        assert_eq!(DynPinId::new(Port::G, offset).unwrap(), DynPinId::new_unchecked(Port::G, offset));
    }
    assert!(DynPinId::new(Port::G, 8).is_err());
    for index in 0..24 {
        assert_eq!(TimId::new(index).unwrap(), TimId::new_unchecked(index));
    }
    assert!(TimId::new(24).is_err());
}

#[test]
fn output_pin_drives_its_bit() {
    let mut gpio = Gpio::new_mmio(Port::B);
    let mut ioconfig = IoConfig::new_mmio();
    gpio.data_out = 0b1;
    let mut out = Output::new(Pin::<Pb4>::__new(), &mut gpio, &mut ioconfig, PinState::High);
    assert_eq!(out.port(), Port::B);
    assert_eq!(out.offset(), 4);
    assert_eq!(gpio.dir, 1 << 4);
    assert_eq!(gpio.set_out, 1 << 4);
    assert_eq!(gpio.data_out, 0b1_0001);
    assert!(out.is_set_high(&gpio));
    out.set_low(&mut gpio);
    assert_eq!(gpio.clr_out, 1 << 4);
    assert_eq!(gpio.data_out, 0b1);
    assert!(out.is_set_low(&gpio));
    out.toggle(&mut gpio);
    assert_eq!(gpio.tog_out, 1 << 4);
    assert_eq!(gpio.data_out, 0b1_0001);
    out.toggle(&mut gpio);
    assert_eq!(gpio.data_out, 0b1);
    out.set_high(&mut gpio);
    assert!(out.is_set_high(&gpio));
    // The configuration of pin 4 of port B is register 16 + 4: push-pull, read back on.
    let config = ioconfig.pins[20];
    assert_eq!(config.raw, 1 << 7);
    assert!(config.input_enable_when_output());
    assert_eq!(config.funsel(), FunctionSelect::Sel0);
    assert_eq!(ioconfig.pins[19], Config { raw: 0 });
    out.configure_pulse_mode(&mut gpio, true, PinState::High);
    assert_eq!(gpio.pulse, 1 << 4);
    assert_eq!(gpio.pulsebase, 1 << 4);
    out.configure_pulse_mode(&mut gpio, false, PinState::Low);
    assert_eq!(gpio.pulse, 0);
    assert_eq!(gpio.pulsebase, 0);
    out.configure_delay(&mut gpio, true, false);
    assert_eq!(gpio.delay1, 1 << 4);
    assert_eq!(gpio.delay2, 0);
}

#[test]
fn output_starts_low_when_asked() {
    let mut gpio = Gpio::new_mmio(Port::A);
    let mut ioconfig = IoConfig::new_mmio();
    gpio.data_out = 0xffff;
    let out = Output::new(Pin::<Pa0>::__new(), &mut gpio, &mut ioconfig, PinState::Low);
    assert_eq!(gpio.data_out, 0xfffe);
    assert_eq!(gpio.clr_out, 1);
    assert_eq!(gpio.set_out, 0);
    assert!(out.is_set_low(&gpio));
}

#[test]
fn input_pin_reads_its_bit() {
    let mut gpio = Gpio::new_mmio(Port::C);
    let mut ioconfig = IoConfig::new_mmio();
    gpio.dir = 0xffff;
    ioconfig.pins[32 + 11] = Config { raw: 0xffff_ffff };
    let mut input = Input::new_floating(Pin::<Pc11>::__new(), &mut gpio, &mut ioconfig);
    assert_eq!(input.id(), DynPinId::new_unchecked(Port::C, 11));
    assert_eq!(gpio.dir, 0xffff & !(1 << 11));
    // The filter and the pull direction are kept, the rest is cleared.
    let config = ioconfig.pins[32 + 11];
    assert_eq!(config.raw, 0xffff_ffff & !((1 << 16) | (3 << 13) | (1 << 12) | (1 << 11) | (1 << 9) | (1 << 8) | (1 << 7) | (1 << 6)));
    assert!(!config.pull_enable());
    assert_eq!(config.pull_dir(), Pull::Down);
    gpio.data_in = 1 << 11;
    assert!(input.is_high(&gpio));
    assert!(!input.is_low(&gpio));
    gpio.data_in = !(1 << 11);
    assert!(input.is_low(&gpio));
    input.configure_level_interrupt(&mut gpio, InterruptLevel::High);
    assert_eq!(gpio.irq_sen, 1 << 11);
    assert_eq!(gpio.irq_evt, 1 << 11);
    input.configure_level_interrupt(&mut gpio, InterruptLevel::Low);
    assert_eq!(gpio.irq_sen, 1 << 11);
    assert_eq!(gpio.irq_evt, 0);
    input.configure_edge_interrupt(&mut gpio, InterruptEdge::LowToHigh);
    assert_eq!(gpio.irq_sen, 0);
    assert_eq!(gpio.irq_evt, 1 << 11);
    input.configure_filter_type(&mut ioconfig, FilterType::FilterThreeCycles, FilterClockSelect::Clk5);
    let config = ioconfig.pins[32 + 11];
    assert_eq!(config.filter_type(), Some(FilterType::FilterThreeCycles));
    assert_eq!(config.filter_clk_sel(), FilterClockSelect::Clk5);
    assert_eq!(config.raw & 0x3f, (5 << 3) | 4);
    input.configure_delay(&mut gpio, false, true);
    assert_eq!(gpio.delay2, 1 << 11);
    let mut nvic = Nvic::new();
    assert_eq!(input.enable_interrupt(&mut gpio, &mut nvic, false), Ok(()));
    assert_eq!(gpio.irq_enable, 1 << 11);
    assert_eq!(nvic.enabled, [0; 8]);
    assert_eq!(input.enable_interrupt(&mut gpio, &mut nvic, true), Ok(()));
    // Port C starts at line 110.
    assert!(nvic.is_enabled(Interrupt { number: 121 }));
}

#[test]
fn input_with_pull_switches_the_pull_on() {
    let mut gpio = Gpio::new_mmio(Port::A);
    let mut ioconfig = IoConfig::new_mmio();
    let _input = Input::new_with_pull(Pin::<Pa0>::__new(), &mut gpio, &mut ioconfig, Pull::Down);
    assert_eq!(ioconfig.pins[0].raw, (1 << 11) | (1 << 10));
    let _input = Input::new_with_pull(Pin::<Pa0>::__new(), &mut gpio, &mut ioconfig, Pull::Up);
    assert_eq!(ioconfig.pins[0].raw, 1 << 11);
}

#[test]
fn low_level_pin_configures_outputs_and_interrupts() {
    let mut gpio = Gpio::new_mmio(Port::F);
    let mut ioconfig = IoConfig::new_mmio();
    let mut ll = LowLevelGpio::new_with_pin(Pin::<Pf15>::__new());
    assert_eq!(ll.id(), DynPinId::new_unchecked(Port::F, 15));
    assert_eq!(ll.port(), Port::F);
    assert_eq!(ll.offset(), 15);
    assert_eq!(ll.mask_32(), 0x8000);
    ll.configure_as_output_open_drain(&mut gpio, &mut ioconfig, PinState::High);
    // Open drain with pull-up and read back: bits 8, 11 and 7.
    assert_eq!(ioconfig.pins[5 * 16 + 15].raw, (1 << 8) | (1 << 11) | (1 << 7));
    assert_eq!(gpio.dir, 0x8000);
    assert_eq!(gpio.data_out, 0x8000);
    ll.configure_as_output_push_pull(&mut gpio, &mut ioconfig, PinState::Low);
    assert_eq!(ioconfig.pins[5 * 16 + 15].raw, 1 << 7);
    assert_eq!(gpio.data_out, 0);
    ll.configure_as_peripheral_pin(&mut ioconfig, FunctionSelect::Sel2, Some(Pull::Down));
    assert_eq!(ioconfig.pins[5 * 16 + 15].raw, (2 << 13) | (1 << 11) | (1 << 10) | (1 << 7));
    ll.configure_as_peripheral_pin(&mut ioconfig, FunctionSelect::Sel3, None);
    assert_eq!(ioconfig.pins[5 * 16 + 15].raw, (3 << 13) | (1 << 7));
    ll.configure_as_input_with_pull(&mut gpio, &mut ioconfig, Pull::Up);
    assert_eq!(ioconfig.pins[5 * 16 + 15].raw, 1 << 11);
    assert_eq!(gpio.dir, 0);
    ll.configure_as_input_floating(&mut gpio, &mut ioconfig);
    assert_eq!(ioconfig.pins[5 * 16 + 15].raw, 0);
    let mut nvic = Nvic::new();
    assert_eq!(ll.enable_interrupt(&mut gpio, &mut nvic, true), Ok(()));
    assert_eq!(gpio.irq_enable, 0x8000);
    assert!(nvic.is_enabled(Interrupt { number: 173 }));
    gpio.irq_enable = 0xffff;
    ll.disable_interrupt(&mut gpio);
    assert_eq!(gpio.irq_enable, 0x7fff);
    ll.configure_edge_interrupt(&mut gpio, InterruptEdge::BothEdges);
    assert_eq!(gpio.irq_edge, 0x8000);
    // A single edge afterwards does not take the both-edges bit back.
    ll.configure_edge_interrupt(&mut gpio, InterruptEdge::HighToLow);
    assert_eq!(gpio.irq_edge, 0x8000);
    assert_eq!(gpio.irq_evt, 0);
    ll.configure_pulse_mode(&mut gpio, true, PinState::Low);
    assert_eq!(gpio.pulse, 0x8000);
    ll.configure_delay(&mut gpio, true, true);
    assert_eq!((gpio.delay1, gpio.delay2), (0x8000, 0x8000));
    ll.configure_filter_type(&mut ioconfig, FilterType::DirectInput, FilterClockSelect::Clk7);
    assert_eq!(ioconfig.pins[5 * 16 + 15].raw, (7 << 3) | 1);
    ll.set_high(&mut gpio);
    assert!(ll.is_set_high(&gpio));
    ll.toggle(&mut gpio);
    assert!(ll.is_set_low(&gpio));
    gpio.data_in = 0x8000;
    assert!(ll.is_high(&gpio));
    assert!(!ll.is_low(&gpio));
}

#[test]
fn pin_mode_tells_inputs_from_outputs() {
    assert!(PinMode::InputFloating.is_input());
    assert!(PinMode::InputWithPull(Pull::Up).is_input());
    assert!(!PinMode::OutputPushPull.is_input());
    assert!(PinMode::OutputPushPull.is_output());
    assert!(PinMode::OutputOpenDrain.is_output());
    assert!(!PinMode::InputWithPull(Pull::Down).is_output());
}

#[test]
fn flex_pin_is_a_floating_input() {
    let mut gpio = Gpio::new_mmio(Port::B);
    let mut ioconfig = IoConfig::new_mmio();
    gpio.dir = 0xffff;
    let mut flex = Flex::new(Pin::<Pb4>::__new(), &mut gpio, &mut ioconfig);
    assert_eq!(flex.port(), Port::B);
    assert_eq!(flex.offset(), 4);
    assert_eq!(gpio.dir, 0xffef);
    gpio.data_in = 1 << 4;
    assert!(flex.is_high(&gpio));
    assert!(!flex.is_low(&gpio));
    flex.set_high(&mut gpio);
    assert_eq!(gpio.data_out, 1 << 4);
    assert!(flex.is_set_high(&gpio));
    flex.set_low(&mut gpio);
    assert_eq!(gpio.data_out, 0);
    assert!(flex.is_set_low(&gpio));
    flex.toggle(&mut gpio);
    assert_eq!(gpio.data_out, 1 << 4);
}

#[test]
fn peripheral_pin_selects_its_function() {
    let mut ioconfig = IoConfig::new_mmio();
    let pin = IoPeriphPin::new(DynPinId::new_unchecked(Port::G, 7), &mut ioconfig, FunctionSelect::Sel1, Some(Pull::Up));
    assert_eq!(pin.port(), Port::G);
    assert_eq!(pin.offset(), 7);
    assert_eq!(pin.fun_sel(), FunctionSelect::Sel1);
    // Port G starts at register 96.
    assert_eq!(ioconfig.pins[103].raw, (1 << 13) | (1 << 11));
    let pin = IoPeriphPin::new_with_pin(Pin::<Pa0>::__new(), &mut ioconfig, FunctionSelect::Sel3, None);
    assert_eq!(pin.fun_sel(), FunctionSelect::Sel3);
    assert_eq!(ioconfig.pins[0].raw, 3 << 13);
    assert_eq!(ioconfig.read_pin_config(DynPinId::new_unchecked(Port::A, 0)).funsel(), FunctionSelect::Sel3);
    ioconfig.modify_pin_config(DynPinId::new_unchecked(Port::A, 0), |config| config.with_invert_input(true));
    assert_eq!(ioconfig.pins[0].raw, (3 << 13) | (1 << 6));
}
