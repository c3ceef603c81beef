//! The low-level driver of a pin.
use super::regs::Gpio;
use crate::bits::{
    bit_mask, get_bit, lemma_bit_mask, lemma_set_bit_get_bit, set_bit, spec_bit_mask, spec_get_bit, spec_set_bit,
};
use crate::ioconfig::regs::{Config, IoConfig};
use crate::ioconfig::{FilterClockSelect, FilterType, FunctionSelect, Pull};
use crate::pins::{Pin, PinId};
use crate::{enable_nvic_interrupt, Interrupt, InvalidOffsetError, Nvic, Port, PORT_IRQ_OFFSET};
use vstd::prelude::*;

verus! {

/// The level of a pin.
#[derive(Debug, Clone, Copy, PartialEq, Eq, Structural)]
pub enum PinState {
    Low,
    High,
}

/// The edge that raises an interrupt.
#[derive(Debug, Clone, Copy, PartialEq, Eq, Structural)]
pub enum InterruptEdge {
    HighToLow,
    LowToHigh,
    BothEdges,
}

/// The level that raises an interrupt.
#[derive(Debug, Clone, Copy, PartialEq, Eq, Structural)]
pub enum InterruptLevel {
    Low,
    High,
}

/// The pins of port G raise no interrupts.
#[derive(Debug, Clone, Copy, PartialEq, Eq, Structural)]
pub struct PortDoesNotSupportInterrupts;

/// Pin identifier for all physical pins: a port and an offset within the port.
#[derive(Debug, PartialEq, Eq, Clone, Copy, Structural)]
pub struct DynPinId {
    port: Port,
    /// Offset within the port.
    offset: u8,
}

impl DynPinId {
    /// The port of the pin.
    pub closed spec fn spec_port(&self) -> Port {
        self.port
    }

    /// The offset of the pin within its port.
    pub closed spec fn spec_offset(&self) -> usize {
        self.offset as usize
    }

    /// The invariant of the type: the port has the pin.
    #[verifier::type_invariant]
    pub open spec fn wf(&self) -> bool {
        self.spec_offset() < self.spec_port().max_offset()
    }

    /// The interrupt line of the pin: the lines of the pins of a port follow each other,
    /// and so do the ports A to F.
    pub open spec fn spec_irq(&self) -> Interrupt {
        Interrupt { number: (PORT_IRQ_OFFSET + 16 * self.spec_port().index() + self.spec_offset()) as u16 }
    }

    /// The mask of the pin in the registers of its port.
    pub open spec fn spec_mask(&self) -> u32 {
        spec_bit_mask(self.spec_offset() as u32)
    }

    /// The pin `offset` of the port `port`.
    pub closed spec fn spec_new(port: Port, offset: usize) -> DynPinId {
        DynPinId { port, offset: offset as u8 }
    }

    /// The pin `offset` of the port `port`, which has it.
    pub fn new_unchecked(port: Port, offset: usize) -> (id: DynPinId)
        requires
            offset < port.max_offset(),
        ensures
            id == Self::spec_new(port, offset),
            id.spec_port() == port,
            id.spec_offset() == offset,
    {
        DynPinId { port, offset: offset as u8 }
    }

    /// The pin `offset` of the port `port`, if the port has it.
    pub fn new(port: Port, offset: usize) -> (res: Result<DynPinId, InvalidOffsetError>)
        ensures
            res.is_ok() == (offset < port.max_offset()),
            res matches Ok(id) ==> id == Self::spec_new(port, offset) && id.spec_port() == port && id.spec_offset()
                == offset,
            res matches Err(e) ==> e == (InvalidOffsetError { offset, port }),
    {
        if offset >= port.max_offset() {
            return Err(InvalidOffsetError { offset, port });
        }
        Ok(DynPinId { port, offset: offset as u8 })
    }

    /// The port of the pin.
    #[verifier::when_used_as_spec(spec_port)]
    pub fn port(&self) -> (port: Port)
        ensures
            port == self.spec_port(),
    {
        self.port
    }

    /// The offset of the pin within its port: below the number of pins of the port.
    #[verifier::when_used_as_spec(spec_offset)]
    pub fn offset(&self) -> (offset: usize)
        ensures
            offset == self.spec_offset(),
            offset < self.spec_port().max_offset(),
            offset < 16,
    {
        proof {
            use_type_invariant(self);
        }
        self.offset as usize
    }

    /// The interrupt line of the pin. Port G has none.
    pub fn irq(&self) -> (res: Result<Interrupt, PortDoesNotSupportInterrupts>)
        ensures
            res.is_ok() == self.spec_port().supports_interrupts(),
            res matches Ok(irq) ==> irq == self.spec_irq() && irq.number < crate::NUM_INTERRUPTS,
    {
        if !self.port.supports_interrupts() {
            return Err(PortDoesNotSupportInterrupts);
        }
        Ok(self.irq_unchecked())
    }

    /// The interrupt line of a pin of the ports A to F.
    pub fn irq_unchecked(&self) -> (irq: Interrupt)
        requires
            self.spec_port().supports_interrupts(),
        ensures
            irq == self.spec_irq(),
            irq.number < crate::NUM_INTERRUPTS,
    {
        let offset = self.offset();
        let base: u16 = match self.port {
            Port::A => 78,
            Port::B => 94,
            Port::C => 110,
            Port::D => 126,
            Port::E => 142,
            _ => 158,
        };
        Interrupt { number: base + offset as u16 }
    }
}

/// The configuration of a floating input on top of `config`.
pub open spec fn spec_input_floating(config: Config) -> Config {
    config.with_funsel(FunctionSelect::Sel0).with_io_disable(false).with_invert_input(false).with_open_drain(
        false,
    ).with_pull_enable(false).with_pull_when_output_active(false).with_invert_output(
        false,
    ).with_input_enable_when_output(false)
}

/// The configuration of an input with the pull resistor `pull` on top of `config`.
pub open spec fn spec_input_with_pull(config: Config, pull: Pull) -> Config {
    config.with_funsel(FunctionSelect::Sel0).with_io_disable(false).with_invert_input(false).with_open_drain(
        false,
    ).with_pull_enable(true).with_pull_dir(pull).with_pull_when_output_active(false).with_invert_output(
        false,
    ).with_input_enable_when_output(false)
}

/// The configuration of a push-pull output on top of `config`.
pub open spec fn spec_output_push_pull(config: Config) -> Config {
    config.with_funsel(FunctionSelect::Sel0).with_io_disable(false).with_invert_input(false).with_open_drain(
        false,
    ).with_pull_enable(false).with_pull_when_output_active(false).with_invert_output(
        false,
    ).with_input_enable_when_output(true)
}

/// The configuration of an open-drain output on top of `config`.
pub open spec fn spec_output_open_drain(config: Config) -> Config {
    config.with_funsel(FunctionSelect::Sel0).with_io_disable(false).with_invert_input(false).with_open_drain(
        true,
    ).with_pull_enable(true).with_pull_dir(Pull::Up).with_pull_when_output_active(false).with_invert_output(
        false,
    ).with_input_enable_when_output(true)
}

/// The configuration of a pin of a peripheral on top of `config`: the function
/// `fun_sel`, and the pull resistor `pull` if there is one.
pub open spec fn spec_peripheral_pin(config: Config, fun_sel: FunctionSelect, pull: Option<Pull>) -> Config {
    config.with_funsel(fun_sel).with_io_disable(false).with_invert_input(false).with_open_drain(
        false,
    ).with_pull_enable(pull.is_some()).with_pull_dir(
        match pull {
            Some(p) => p,
            None => Pull::Up,
        },
    ).with_invert_output(false)
}

/// The port registers after the output of the pin `offset` was set to `level`.
pub open spec fn spec_level_written(gpio: Gpio, offset: u32, level: PinState) -> Gpio {
    match level {
        PinState::Low => Gpio {
            clr_out: spec_bit_mask(offset),
            data_out: gpio.data_out & !spec_bit_mask(offset),
            ..gpio
        },
        PinState::High => Gpio {
            set_out: spec_bit_mask(offset),
            data_out: gpio.data_out | spec_bit_mask(offset),
            ..gpio
        },
    }
}

/// The port registers with the pin `offset` sensitive to the edge `edge`.
///
/// The pin is made sensitive to edges, not levels. For one edge, the event register
/// says which. For both edges, the edge register says so, and nothing else takes that
/// back.
pub open spec fn spec_edge_interrupt(gpio: Gpio, offset: u32, edge: InterruptEdge) -> Gpio {
    let sen = spec_set_bit(gpio.irq_sen, offset, false);
    match edge {
        InterruptEdge::HighToLow => Gpio {
            irq_sen: sen,
            irq_evt: spec_set_bit(gpio.irq_evt, offset, false),
            ..gpio
        },
        InterruptEdge::LowToHigh => Gpio {
            irq_sen: sen,
            irq_evt: spec_set_bit(gpio.irq_evt, offset, true),
            ..gpio
        },
        InterruptEdge::BothEdges => Gpio {
            irq_sen: sen,
            irq_edge: spec_set_bit(gpio.irq_edge, offset, true),
            ..gpio
        },
    }
}

/// The port registers with the pin `offset` sensitive to the level `level`.
pub open spec fn spec_level_interrupt(gpio: Gpio, offset: u32, level: InterruptLevel) -> Gpio {
    Gpio {
        irq_sen: spec_set_bit(gpio.irq_sen, offset, true),
        irq_evt: spec_set_bit(gpio.irq_evt, offset, level == InterruptLevel::High),
        ..gpio
    }
}

/// Low-level driver structure for GPIO pins.
///
/// The driver holds the identifier of its pin. Its functions take the registers of the
/// port of the pin and, where they configure the pin, the registers of the pin
/// configuration. They change the bit of the pin and the configuration of the pin, and
/// nothing that belongs to another pin.
#[derive(Debug)]
pub struct LowLevelGpio {
    id: DynPinId,
}

impl LowLevelGpio {
    /// The identifier of the pin.
    pub closed spec fn spec_id(&self) -> DynPinId {
        self.id
    }

    /// The offset of the pin as a bit number.
    pub open spec fn spec_bit(&self) -> u32 {
        self.spec_id().offset() as u32
    }

    /// Create a new low-level GPIO pin instance from a given [`Pin`].
    ///
    /// Can be used for performing resource management of the [`Pin`]s.
    pub fn new_with_pin<I: PinId>(_pin: Pin<I>) -> (ll: LowLevelGpio)
        ensures
            ll.spec_id() == I::spec_id(),
    {
        Self::new(I::id())
    }

    /// Create a new low-level GPIO pin instance using only the identifier of the pin.
    pub fn new(id: DynPinId) -> (ll: LowLevelGpio)
        ensures
            ll.spec_id() == id,
    {
        LowLevelGpio { id }
    }

    /// The identifier of the pin.
    #[verifier::when_used_as_spec(spec_id)]
    pub fn id(&self) -> (id: DynPinId)
        ensures
            id == self.spec_id(),
    {
        self.id
    }

    /// The port of the pin.
    pub fn port(&self) -> (port: Port)
        ensures
            port == self.spec_id().port(),
    {
        self.id.port()
    }

    /// The offset of the pin within its port.
    pub fn offset(&self) -> (offset: usize)
        ensures
            offset == self.spec_id().offset(),
            offset < 16,
    {
        self.id.offset()
    }

    /// Makes the pin a floating input: the function of the pin is the GPIO, without
    /// pull resistor, inversion or open drain, and its direction is input.
    pub fn configure_as_input_floating(&mut self, gpio: &mut Gpio, ioconfig: &mut IoConfig)
        ensures
            final(self).spec_id() == old(self).spec_id(),
            final(ioconfig).pins@ == old(ioconfig).spec_with_pin_config(
                old(self).spec_id(),
                spec_input_floating(old(ioconfig).spec_pin_config(old(self).spec_id())),
            ),
            final(ioconfig).perid == old(ioconfig).perid,
            *final(gpio) == (Gpio { dir: spec_set_bit(old(gpio).dir, old(self).spec_bit(), false), ..*old(gpio) }),
    {
        let config = ioconfig.read_pin_config(self.id).with_funsel(FunctionSelect::Sel0).with_io_disable(
            false,
        ).with_invert_input(false).with_open_drain(false).with_pull_enable(false).with_pull_when_output_active(
            false,
        ).with_invert_output(false).with_input_enable_when_output(false);
        ioconfig.write_pin_config(self.id, config);
        gpio.dir = set_bit(gpio.dir, self.id.offset() as u32, false);
    }

    /// Makes the pin an input with the pull resistor `pull`.
    pub fn configure_as_input_with_pull(&mut self, gpio: &mut Gpio, ioconfig: &mut IoConfig, pull: Pull)
        ensures
            final(self).spec_id() == old(self).spec_id(),
            final(ioconfig).pins@ == old(ioconfig).spec_with_pin_config(
                old(self).spec_id(),
                spec_input_with_pull(old(ioconfig).spec_pin_config(old(self).spec_id()), pull),
            ),
            final(ioconfig).perid == old(ioconfig).perid,
            *final(gpio) == (Gpio { dir: spec_set_bit(old(gpio).dir, old(self).spec_bit(), false), ..*old(gpio) }),
    {
        let config = ioconfig.read_pin_config(self.id).with_funsel(FunctionSelect::Sel0).with_io_disable(
            false,
        ).with_invert_input(false).with_open_drain(false).with_pull_enable(true).with_pull_dir(
            pull,
        ).with_pull_when_output_active(false).with_invert_output(false).with_input_enable_when_output(false);
        ioconfig.write_pin_config(self.id, config);
        gpio.dir = set_bit(gpio.dir, self.id.offset() as u32, false);
    }

    /// Makes the pin a push-pull output that starts at the level `init_level`.
    pub fn configure_as_output_push_pull(&mut self, gpio: &mut Gpio, ioconfig: &mut IoConfig, init_level: PinState)
        ensures
            final(self).spec_id() == old(self).spec_id(),
            final(ioconfig).pins@ == old(ioconfig).spec_with_pin_config(
                old(self).spec_id(),
                spec_output_push_pull(old(ioconfig).spec_pin_config(old(self).spec_id())),
            ),
            final(ioconfig).perid == old(ioconfig).perid,
            *final(gpio) == (Gpio {
                dir: spec_set_bit(old(gpio).dir, old(self).spec_bit(), true),
                ..spec_level_written(*old(gpio), old(self).spec_bit(), init_level)
            }),
    {
        let config = ioconfig.read_pin_config(self.id).with_funsel(FunctionSelect::Sel0).with_io_disable(
            false,
        ).with_invert_input(false).with_open_drain(false).with_pull_enable(false).with_pull_when_output_active(
            false,
        ).with_invert_output(false).with_input_enable_when_output(true);
        ioconfig.write_pin_config(self.id, config);
        match init_level {
            PinState::Low => gpio.write_clr_out(self.mask_32()),
            PinState::High => gpio.write_set_out(self.mask_32()),
        }
        gpio.dir = set_bit(gpio.dir, self.id.offset() as u32, true);
    }

    /// Makes the pin an open-drain output with a pull-up that starts at the level
    /// `init_level`.
    pub fn configure_as_output_open_drain(&mut self, gpio: &mut Gpio, ioconfig: &mut IoConfig, init_level: PinState)
        ensures
            final(self).spec_id() == old(self).spec_id(),
            final(ioconfig).pins@ == old(ioconfig).spec_with_pin_config(
                old(self).spec_id(),
                spec_output_open_drain(old(ioconfig).spec_pin_config(old(self).spec_id())),
            ),
            final(ioconfig).perid == old(ioconfig).perid,
            *final(gpio) == (Gpio {
                dir: spec_set_bit(old(gpio).dir, old(self).spec_bit(), true),
                ..spec_level_written(*old(gpio), old(self).spec_bit(), init_level)
            }),
    {
        let config = ioconfig.read_pin_config(self.id).with_funsel(FunctionSelect::Sel0).with_io_disable(
            false,
        ).with_invert_input(false).with_open_drain(true).with_pull_enable(true).with_pull_dir(
            Pull::Up,
        ).with_pull_when_output_active(false).with_invert_output(false).with_input_enable_when_output(true);
        ioconfig.write_pin_config(self.id, config);
        let mask32 = self.mask_32();
        match init_level {
            PinState::Low => gpio.write_clr_out(mask32),
            PinState::High => gpio.write_set_out(mask32),
        }
        gpio.dir = gpio.dir | mask32;
    }

    /// Hands the pin to the peripheral function `fun_sel`, with the pull resistor
    /// `pull` if there is one.
    pub fn configure_as_peripheral_pin(&mut self, ioconfig: &mut IoConfig, fun_sel: FunctionSelect, pull: Option<Pull>)
        ensures
            final(self).spec_id() == old(self).spec_id(),
            final(ioconfig).pins@ == old(ioconfig).spec_with_pin_config(
                old(self).spec_id(),
                spec_peripheral_pin(old(ioconfig).spec_pin_config(old(self).spec_id()), fun_sel, pull),
            ),
            final(ioconfig).perid == old(ioconfig).perid,
    {
        let pull_dir = match pull {
            Some(p) => p,
            None => Pull::Up,
        };
        let config = ioconfig.read_pin_config(self.id).with_funsel(fun_sel).with_io_disable(false).with_invert_input(
            false,
        ).with_open_drain(false).with_pull_enable(pull.is_some()).with_pull_dir(pull_dir).with_invert_output(false);
        ioconfig.write_pin_config(self.id, config);
    }

    /// Whether the level of the pin is high.
    pub open spec fn spec_is_high(&self, gpio: &Gpio) -> bool {
        spec_get_bit(gpio.data_in, self.spec_bit())
    }

    /// Whether the output of the pin is set high.
    pub open spec fn spec_is_set_high(&self, gpio: &Gpio) -> bool {
        spec_get_bit(gpio.data_out, self.spec_bit())
    }

    /// Whether the level of the pin is high.
    #[verifier::when_used_as_spec(spec_is_high)]
    pub fn is_high(&self, gpio: &Gpio) -> (high: bool)
        ensures
            high == self.spec_is_high(gpio),
    {
        get_bit(gpio.read_data_in(), self.offset() as u32)
    }

    /// Whether the level of the pin is low.
    pub fn is_low(&self, gpio: &Gpio) -> (low: bool)
        ensures
            low == !self.spec_is_high(gpio),
    {
        !self.is_high(gpio)
    }

    /// Sets the output of the pin high.
    pub fn set_high(&mut self, gpio: &mut Gpio)
        ensures
            final(self).spec_id() == old(self).spec_id(),
            *final(gpio) == spec_level_written(*old(gpio), old(self).spec_bit(), PinState::High),
            final(self).spec_is_set_high(final(gpio)),
    {
        proof {
            use_type_invariant(&self.id);
            lemma_pin_output(gpio.data_out, self.spec_bit());
        }
        gpio.write_set_out(self.mask_32());
    }

    /// Sets the output of the pin low.
    pub fn set_low(&mut self, gpio: &mut Gpio)
        ensures
            final(self).spec_id() == old(self).spec_id(),
            *final(gpio) == spec_level_written(*old(gpio), old(self).spec_bit(), PinState::Low),
            !final(self).spec_is_set_high(final(gpio)),
    {
        proof {
            use_type_invariant(&self.id);
            lemma_pin_output(gpio.data_out, self.spec_bit());
        }
        gpio.write_clr_out(self.mask_32());
    }

    /// Whether the output of the pin is set high.
    #[verifier::when_used_as_spec(spec_is_set_high)]
    pub fn is_set_high(&self, gpio: &Gpio) -> (high: bool)
        ensures
            high == self.spec_is_set_high(gpio),
    {
        get_bit(gpio.read_data_out(), self.offset() as u32)
    }

    /// Whether the output of the pin is set low.
    pub fn is_set_low(&self, gpio: &Gpio) -> (low: bool)
        ensures
            low == !self.spec_is_set_high(gpio),
    {
        !self.is_set_high(gpio)
    }

    /// Toggles the output of the pin.
    pub fn toggle(&mut self, gpio: &mut Gpio)
        ensures
            final(self).spec_id() == old(self).spec_id(),
            *final(gpio) == (Gpio {
                tog_out: spec_bit_mask(old(self).spec_bit()),
                data_out: old(gpio).data_out ^ spec_bit_mask(old(self).spec_bit()),
                ..*old(gpio)
            }),
            final(self).spec_is_set_high(final(gpio)) == !old(self).spec_is_set_high(old(gpio)),
    {
        proof {
            use_type_invariant(&self.id);
            lemma_pin_output(gpio.data_out, self.spec_bit());
        }
        gpio.write_tog_out(self.mask_32());
    }

    /// Enables the interrupt of the pin, and unmasks its interrupt line if
    /// `enable_in_nvic` is set. A pin of port G is refused, and nothing changes.
    pub fn enable_interrupt(&mut self, gpio: &mut Gpio, nvic: &mut Nvic, enable_in_nvic: bool) -> (res: Result<
        (),
        PortDoesNotSupportInterrupts,
    >)
        ensures
            final(self).spec_id() == old(self).spec_id(),
            res.is_ok() == old(self).spec_id().port().supports_interrupts(),
            res.is_err() ==> *final(gpio) == *old(gpio) && *final(nvic) == *old(nvic),
            res.is_ok() ==> *final(gpio) == (Gpio {
                irq_enable: spec_set_bit(old(gpio).irq_enable, old(self).spec_bit(), true),
                ..*old(gpio)
            }),
            res.is_ok() && enable_in_nvic ==> final(nvic).is_enabled(old(self).spec_id().spec_irq()),
            res.is_ok() && !enable_in_nvic ==> *final(nvic) == *old(nvic),
    {
        if !self.id.port().supports_interrupts() {
            return Err(PortDoesNotSupportInterrupts);
        }
        if enable_in_nvic {
            enable_nvic_interrupt(nvic, self.id.irq_unchecked());
        }
        gpio.irq_enable = set_bit(gpio.irq_enable, self.id.offset() as u32, true);
        Ok(())
    }

    /// Disables the interrupt of the pin. Only the bit of the pin changes.
    pub fn disable_interrupt(&mut self, gpio: &mut Gpio)
        ensures
            final(self).spec_id() == old(self).spec_id(),
            *final(gpio) == (Gpio {
                irq_enable: spec_set_bit(old(gpio).irq_enable, old(self).spec_bit(), false),
                ..*old(gpio)
            }),
    {
        gpio.irq_enable = set_bit(gpio.irq_enable, self.id.offset() as u32, false);
    }

    /// Makes the interrupt of the pin sensitive to the edge `edge_type`.
    pub fn configure_edge_interrupt(&mut self, gpio: &mut Gpio, edge_type: InterruptEdge)
        ensures
            final(self).spec_id() == old(self).spec_id(),
            *final(gpio) == spec_edge_interrupt(*old(gpio), old(self).spec_bit(), edge_type),
    {
        let offset = self.id.offset() as u32;
        gpio.irq_sen = set_bit(gpio.irq_sen, offset, false);
        match edge_type {
            InterruptEdge::HighToLow => {
                gpio.irq_evt = set_bit(gpio.irq_evt, offset, false);
            },
            InterruptEdge::LowToHigh => {
                gpio.irq_evt = set_bit(gpio.irq_evt, offset, true);
            },
            InterruptEdge::BothEdges => {
                gpio.irq_edge = set_bit(gpio.irq_edge, offset, true);
            },
        }
    }

    /// Makes the interrupt of the pin sensitive to the level `level`.
    pub fn configure_level_interrupt(&mut self, gpio: &mut Gpio, level: InterruptLevel)
        ensures
            final(self).spec_id() == old(self).spec_id(),
            *final(gpio) == spec_level_interrupt(*old(gpio), old(self).spec_bit(), level),
    {
        let offset = self.id.offset() as u32;
        gpio.irq_sen = set_bit(gpio.irq_sen, offset, true);
        if level == InterruptLevel::Low {
            gpio.irq_evt = set_bit(gpio.irq_evt, offset, false);
        } else {
            gpio.irq_evt = set_bit(gpio.irq_evt, offset, true);
        }
    }

    /// Sets the glitch filter of the pin and its clock. Only useful for input pins.
    pub fn configure_filter_type(&mut self, ioconfig: &mut IoConfig, filter: FilterType, clksel: FilterClockSelect)
        ensures
            final(self).spec_id() == old(self).spec_id(),
            final(ioconfig).pins@ == old(ioconfig).spec_with_pin_config(
                old(self).spec_id(),
                old(ioconfig).spec_pin_config(old(self).spec_id()).with_filter_type(filter).with_filter_clk_sel(
                    clksel,
                ),
            ),
            final(ioconfig).perid == old(ioconfig).perid,
    {
        let config = ioconfig.read_pin_config(self.id).with_filter_type(filter).with_filter_clk_sel(clksel);
        ioconfig.write_pin_config(self.id, config);
    }

    /// Switches the pulse mode of the pin on or off, with the level `default_state`
    /// between the pulses. Only useful for output pins.
    pub fn configure_pulse_mode(&mut self, gpio: &mut Gpio, enable: bool, default_state: PinState)
        ensures
            final(self).spec_id() == old(self).spec_id(),
            *final(gpio) == (Gpio {
                pulse: spec_set_bit(old(gpio).pulse, old(self).spec_bit(), enable),
                pulsebase: spec_set_bit(old(gpio).pulsebase, old(self).spec_bit(), default_state == PinState::High),
                ..*old(gpio)
            }),
    {
        let offset = self.id.offset() as u32;
        gpio.pulse = set_bit(gpio.pulse, offset, enable);
        gpio.pulsebase = set_bit(gpio.pulsebase, offset, default_state == PinState::High);
    }

    /// Switches the two delays of the pin on or off. Only useful for output pins.
    pub fn configure_delay(&mut self, gpio: &mut Gpio, delay_1: bool, delay_2: bool)
        ensures
            final(self).spec_id() == old(self).spec_id(),
            *final(gpio) == (Gpio {
                delay1: spec_set_bit(old(gpio).delay1, old(self).spec_bit(), delay_1),
                delay2: spec_set_bit(old(gpio).delay2, old(self).spec_bit(), delay_2),
                ..*old(gpio)
            }),
    {
        let offset = self.id.offset() as u32;
        gpio.delay1 = set_bit(gpio.delay1, offset, delay_1);
        gpio.delay2 = set_bit(gpio.delay2, offset, delay_2);
    }

    /// The mask of the pin in the registers of its port.
    pub fn mask_32(&self) -> (mask: u32)
        ensures
            mask == spec_bit_mask(self.spec_bit()),
            mask == self.spec_id().spec_mask(),
    {
        bit_mask(self.id.offset() as u32)
    }
}

/// What the output register shows of a pin after its bit was set, cleared or toggled.
pub proof fn lemma_pin_output(data_out: u32, bit: u32)
    requires
        bit < 32,
    ensures
        spec_get_bit(data_out | spec_bit_mask(bit), bit),
        !spec_get_bit(data_out & !spec_bit_mask(bit), bit),
        spec_get_bit(data_out ^ spec_bit_mask(bit), bit) == !spec_get_bit(data_out, bit),
        forall|other: u32|
            other < 32 && other != bit ==> spec_get_bit(data_out | spec_bit_mask(bit), other) == spec_get_bit(
                data_out,
                other,
            ) && spec_get_bit(data_out & !spec_bit_mask(bit), other) == spec_get_bit(data_out, other)
                && spec_get_bit(data_out ^ spec_bit_mask(bit), other) == spec_get_bit(data_out, other),
{
    assert(((data_out ^ (1u32 << bit)) >> bit) & 1 != (data_out >> bit) & 1 && ((data_out >> bit) & 1 == 0 || (
    data_out >> bit) & 1 == 1) && ((data_out ^ (1u32 << bit)) >> bit) & 1 <= 1) by (bit_vector)
        requires
            bit < 32,
    ;
    lemma_set_bit_get_bit(data_out, bit, true, bit);
    lemma_set_bit_get_bit(data_out, bit, false, bit);
    assert forall|other: u32| other < 32 && other != bit implies spec_get_bit(
        data_out | spec_bit_mask(bit),
        other,
    ) == spec_get_bit(data_out, other) && spec_get_bit(data_out & !spec_bit_mask(bit), other) == spec_get_bit(
        data_out,
        other,
    ) && spec_get_bit(data_out ^ spec_bit_mask(bit), other) == spec_get_bit(data_out, other) by {
        lemma_set_bit_get_bit(data_out, bit, true, other);
        lemma_set_bit_get_bit(data_out, bit, false, other);
        assert(((data_out ^ (1u32 << bit)) >> other) & 1 == (data_out >> other) & 1) by (bit_vector)
            requires
                bit < 32,
                other < 32,
                other != bit,
        ;
    }
}

} // verus!
