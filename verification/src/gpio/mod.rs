//! GPIO support.
//!
//! [`Output`], [`Input`], [`Flex`] and [`IoPeriphPin`] are the drivers of a pin in one
//! role. Each is made from the token of its pin and configures the pin for its role.
//! Like the low-level driver that they wrap, they take the registers of the port with
//! every call.
use crate::ioconfig::regs::IoConfig;
use crate::pins::{Pin, PinId};
use crate::bits::{spec_bit_mask, spec_set_bit};
use crate::Nvic;
use vstd::prelude::*;

pub mod asynch;
pub mod ll;
pub mod regs;

pub use crate::ioconfig::{FilterClockSelect, FilterType, FunctionSelect, Pull};
pub use crate::Port;
pub use ll::{DynPinId, InterruptEdge, InterruptLevel, PinState, PortDoesNotSupportInterrupts};
use ll::{
    spec_edge_interrupt, spec_input_floating, spec_input_with_pull, spec_level_interrupt, spec_level_written,
    spec_output_push_pull, spec_peripheral_pin, LowLevelGpio,
};
use regs::Gpio;

verus! {

/// Push-pull output pin.
#[derive(Debug)]
pub struct Output(pub LowLevelGpio);

impl Output {
    /// The low-level driver of the pin.
    pub open spec fn spec_ll(&self) -> LowLevelGpio {
        self.0
    }

    /// Makes the pin of the token a push-pull output that starts at `init_level`.
    pub fn new<I: PinId>(_pin: Pin<I>, gpio: &mut Gpio, ioconfig: &mut IoConfig, init_level: PinState) -> (out: Output)
        ensures
            out.spec_ll().spec_id() == I::spec_id(),
            final(ioconfig).pins@ == old(ioconfig).spec_with_pin_config(
                I::spec_id(),
                spec_output_push_pull(old(ioconfig).spec_pin_config(I::spec_id())),
            ),
            final(ioconfig).perid == old(ioconfig).perid,
            *final(gpio) == (Gpio {
                dir: spec_set_bit(old(gpio).dir, I::spec_id().offset() as u32, true),
                ..spec_level_written(*old(gpio), I::spec_id().offset() as u32, init_level)
            }),
    {
        let mut ll = LowLevelGpio::new(I::id());
        ll.configure_as_output_push_pull(gpio, ioconfig, init_level);
        Output(ll)
    }

    /// The port of the pin.
    pub fn port(&self) -> (port: Port)
        ensures
            port == self.spec_ll().spec_id().port(),
    {
        self.0.port()
    }

    /// The offset of the pin within its port.
    pub fn offset(&self) -> (offset: usize)
        ensures
            offset == self.spec_ll().spec_id().offset(),
            offset < 16,
    {
        self.0.offset()
    }

    /// Sets the output high.
    pub fn set_high(&mut self, gpio: &mut Gpio)
        ensures
            final(self).spec_ll().spec_id() == old(self).spec_ll().spec_id(),
            *final(gpio) == spec_level_written(*old(gpio), old(self).spec_ll().spec_bit(), PinState::High),
            final(self).spec_ll().spec_is_set_high(final(gpio)),
    {
        self.0.set_high(gpio);
    }

    /// Sets the output low.
    pub fn set_low(&mut self, gpio: &mut Gpio)
        ensures
            final(self).spec_ll().spec_id() == old(self).spec_ll().spec_id(),
            *final(gpio) == spec_level_written(*old(gpio), old(self).spec_ll().spec_bit(), PinState::Low),
            !final(self).spec_ll().spec_is_set_high(final(gpio)),
    {
        self.0.set_low(gpio);
    }

    /// Whether the output is set high.
    pub fn is_set_high(&self, gpio: &Gpio) -> (high: bool)
        ensures
            high == self.spec_ll().spec_is_set_high(gpio),
    {
        self.0.is_set_high(gpio)
    }

    /// Whether the output is set low.
    pub fn is_set_low(&self, gpio: &Gpio) -> (low: bool)
        ensures
            low == !self.spec_ll().spec_is_set_high(gpio),
    {
        self.0.is_set_low(gpio)
    }

    /// Toggles the output, with the toggle register of the hardware.
    pub fn toggle(&mut self, gpio: &mut Gpio)
        ensures
            final(self).spec_ll().spec_id() == old(self).spec_ll().spec_id(),
            *final(gpio) == (Gpio {
                tog_out: spec_bit_mask(old(self).spec_ll().spec_bit()),
                data_out: old(gpio).data_out ^ spec_bit_mask(old(self).spec_ll().spec_bit()),
                ..*old(gpio)
            }),
            final(self).spec_ll().spec_is_set_high(final(gpio)) == !old(self).spec_ll().spec_is_set_high(old(gpio)),
    {
        self.0.toggle(gpio);
    }

    /// Switches the pulse mode on or off, with the level `default_state` between the
    /// pulses.
    pub fn configure_pulse_mode(&mut self, gpio: &mut Gpio, enable: bool, default_state: PinState)
        ensures
            final(self).spec_ll().spec_id() == old(self).spec_ll().spec_id(),
            *final(gpio) == (Gpio {
                pulse: spec_set_bit(old(gpio).pulse, old(self).spec_ll().spec_bit(), enable),
                pulsebase: spec_set_bit(
                    old(gpio).pulsebase,
                    old(self).spec_ll().spec_bit(),
                    default_state == PinState::High,
                ),
                ..*old(gpio)
            }),
    {
        self.0.configure_pulse_mode(gpio, enable, default_state);
    }

    /// Switches the two delays on or off.
    pub fn configure_delay(&mut self, gpio: &mut Gpio, delay_1: bool, delay_2: bool)
        ensures
            final(self).spec_ll().spec_id() == old(self).spec_ll().spec_id(),
            *final(gpio) == (Gpio {
                delay1: spec_set_bit(old(gpio).delay1, old(self).spec_ll().spec_bit(), delay_1),
                delay2: spec_set_bit(old(gpio).delay2, old(self).spec_ll().spec_bit(), delay_2),
                ..*old(gpio)
            }),
    {
        self.0.configure_delay(gpio, delay_1, delay_2);
    }
}

/// Input pin.
///
/// Can be created as a floating input pin or as an input pin with pull-up or pull-down.
#[derive(Debug)]
pub struct Input(pub LowLevelGpio);

impl Input {
    /// The low-level driver of the pin.
    pub open spec fn spec_ll(&self) -> LowLevelGpio {
        self.0
    }

    /// The identifier of the pin.
    pub open spec fn spec_id(&self) -> DynPinId {
        self.0.spec_id()
    }

    /// Makes the pin of the token a floating input.
    pub fn new_floating<I: PinId>(_pin: Pin<I>, gpio: &mut Gpio, ioconfig: &mut IoConfig) -> (input: Input)
        ensures
            input.spec_id() == I::spec_id(),
            final(ioconfig).pins@ == old(ioconfig).spec_with_pin_config(
                I::spec_id(),
                spec_input_floating(old(ioconfig).spec_pin_config(I::spec_id())),
            ),
            final(ioconfig).perid == old(ioconfig).perid,
            *final(gpio) == (Gpio {
                dir: spec_set_bit(old(gpio).dir, I::spec_id().offset() as u32, false),
                ..*old(gpio)
            }),
    {
        let mut ll = LowLevelGpio::new(I::id());
        ll.configure_as_input_floating(gpio, ioconfig);
        Input(ll)
    }

    /// Makes the pin of the token an input with the pull resistor `pull`.
    pub fn new_with_pull<I: PinId>(_pin: Pin<I>, gpio: &mut Gpio, ioconfig: &mut IoConfig, pull: Pull) -> (input: Input)
        ensures
            input.spec_id() == I::spec_id(),
            final(ioconfig).pins@ == old(ioconfig).spec_with_pin_config(
                I::spec_id(),
                spec_input_with_pull(old(ioconfig).spec_pin_config(I::spec_id()), pull),
            ),
            final(ioconfig).perid == old(ioconfig).perid,
            *final(gpio) == (Gpio {
                dir: spec_set_bit(old(gpio).dir, I::spec_id().offset() as u32, false),
                ..*old(gpio)
            }),
    {
        let mut ll = LowLevelGpio::new(I::id());
        ll.configure_as_input_with_pull(gpio, ioconfig, pull);
        Input(ll)
    }

    /// The identifier of the pin.
    #[verifier::when_used_as_spec(spec_id)]
    pub fn id(&self) -> (id: DynPinId)
        ensures
            id == self.spec_id(),
    {
        self.0.id()
    }

    /// Enables the interrupt of the pin, and unmasks its interrupt line if
    /// `enable_in_nvic` is set. A pin of port G is refused, and nothing changes.
    pub fn enable_interrupt(&mut self, gpio: &mut Gpio, nvic: &mut Nvic, enable_in_nvic: bool) -> (res: Result<
        (),
        PortDoesNotSupportInterrupts,
    >)
        ensures
            final(self).spec_id() == old(self).spec_id(),
            res.is_ok() == old(self).spec_id().port().supports_interrupts(),
            res.is_err() ==> *final(gpio) == *old(gpio) && *final(nvic) == *old(nvic),
            res.is_ok() ==> *final(gpio) == (Gpio {
                irq_enable: spec_set_bit(old(gpio).irq_enable, old(self).spec_ll().spec_bit(), true),
                ..*old(gpio)
            }),
            res.is_ok() && enable_in_nvic ==> final(nvic).is_enabled(old(self).spec_id().spec_irq()),
            res.is_ok() && !enable_in_nvic ==> *final(nvic) == *old(nvic),
    {
        self.0.enable_interrupt(gpio, nvic, enable_in_nvic)
    }

    /// Makes the interrupt of the pin sensitive to the edge `edge`.
    pub fn configure_edge_interrupt(&mut self, gpio: &mut Gpio, edge: InterruptEdge)
        ensures
            final(self).spec_id() == old(self).spec_id(),
            *final(gpio) == spec_edge_interrupt(*old(gpio), old(self).spec_ll().spec_bit(), edge),
    {
        self.0.configure_edge_interrupt(gpio, edge);
    }

    /// Makes the interrupt of the pin sensitive to the level `edge`.
    pub fn configure_level_interrupt(&mut self, gpio: &mut Gpio, edge: InterruptLevel)
        ensures
            final(self).spec_id() == old(self).spec_id(),
            *final(gpio) == spec_level_interrupt(*old(gpio), old(self).spec_ll().spec_bit(), edge),
    {
        self.0.configure_level_interrupt(gpio, edge);
    }

    /// Switches the two delays on or off.
    pub fn configure_delay(&mut self, gpio: &mut Gpio, delay_1: bool, delay_2: bool)
        ensures
            final(self).spec_id() == old(self).spec_id(),
            *final(gpio) == (Gpio {
                delay1: spec_set_bit(old(gpio).delay1, old(self).spec_ll().spec_bit(), delay_1),
                delay2: spec_set_bit(old(gpio).delay2, old(self).spec_ll().spec_bit(), delay_2),
                ..*old(gpio)
            }),
    {
        self.0.configure_delay(gpio, delay_1, delay_2);
    }

    /// Sets the glitch filter of the pin and its clock.
    pub fn configure_filter_type(&mut self, ioconfig: &mut IoConfig, filter: FilterType, clksel: FilterClockSelect)
        ensures
            final(self).spec_id() == old(self).spec_id(),
            final(ioconfig).pins@ == old(ioconfig).spec_with_pin_config(
                old(self).spec_id(),
                old(ioconfig).spec_pin_config(old(self).spec_id()).with_filter_type(filter).with_filter_clk_sel(
                    clksel,
                ),
            ),
            final(ioconfig).perid == old(ioconfig).perid,
    {
        self.0.configure_filter_type(ioconfig, filter, clksel);
    }

    /// Whether the level of the pin is low.
    pub fn is_low(&self, gpio: &Gpio) -> (low: bool)
        ensures
            low == !self.spec_ll().spec_is_high(gpio),
    {
        self.0.is_low(gpio)
    }

    /// Whether the level of the pin is high.
    pub fn is_high(&self, gpio: &Gpio) -> (high: bool)
        ensures
            high == self.spec_ll().spec_is_high(gpio),
    {
        self.0.is_high(gpio)
    }
}

/// The role of a pin that can change its role.
#[derive(Debug, Clone, Copy, PartialEq, Eq, Structural)]
pub enum PinMode {
    InputFloating,
    InputWithPull(Pull),
    OutputPushPull,
    OutputOpenDrain,
}

impl PinMode {
    /// Whether the role is one of the two input roles.
    pub open spec fn spec_is_input(&self) -> bool {
        *self is InputFloating || *self is InputWithPull
    }

    /// Whether the role is one of the two input roles.
    #[verifier::when_used_as_spec(spec_is_input)]
    pub fn is_input(&self) -> (b: bool)
        ensures
            b == self.spec_is_input(),
    {
        match self {
            PinMode::InputFloating => true,
            PinMode::InputWithPull(_) => true,
            _ => false,
        }
    }

    /// Whether the role is one of the two output roles.
    pub fn is_output(&self) -> (b: bool)
        ensures
            b == !self.spec_is_input(),
    {
        !self.is_input()
    }
}

/// Flex pin abstraction, which keeps the role of its pin beside the driver. A flex pin
/// is a floating input after construction.
#[derive(Debug)]
pub struct Flex {
    ll: LowLevelGpio,
    mode: PinMode,
}

impl Flex {
    /// The identifier of the pin.
    pub closed spec fn spec_id(&self) -> DynPinId {
        self.ll.spec_id()
    }

    /// The role of the pin.
    pub closed spec fn spec_mode(&self) -> PinMode {
        self.mode
    }

    /// The pin as a bit number.
    pub open spec fn spec_bit(&self) -> u32 {
        self.spec_id().offset() as u32
    }

    /// Makes the pin of the token a floating input.
    pub fn new<I: PinId>(_pin: Pin<I>, gpio: &mut Gpio, ioconfig: &mut IoConfig) -> (flex: Flex)
        ensures
            flex.spec_id() == I::spec_id(),
            flex.spec_mode() == PinMode::InputFloating,
            final(ioconfig).pins@ == old(ioconfig).spec_with_pin_config(
                I::spec_id(),
                spec_input_floating(old(ioconfig).spec_pin_config(I::spec_id())),
            ),
            final(ioconfig).perid == old(ioconfig).perid,
            *final(gpio) == (Gpio {
                dir: spec_set_bit(old(gpio).dir, I::spec_id().offset() as u32, false),
                ..*old(gpio)
            }),
    {
        let mut ll = LowLevelGpio::new(I::id());
        ll.configure_as_input_floating(gpio, ioconfig);
        Flex { ll, mode: PinMode::InputFloating }
    }

    /// The port of the pin.
    pub fn port(&self) -> (port: Port)
        ensures
            port == self.spec_id().port(),
    {
        self.ll.port()
    }

    /// The offset of the pin within its port.
    pub fn offset(&self) -> (offset: usize)
        ensures
            offset == self.spec_id().offset(),
            offset < 16,
    {
        self.ll.offset()
    }

    /// Reads the level of the pin, whatever its role: whether it is low.
    pub fn is_low(&self, gpio: &Gpio) -> (low: bool)
        ensures
            low == !crate::bits::spec_get_bit(gpio.data_in, self.spec_bit()),
    {
        self.ll.is_low(gpio)
    }

    /// Reads the level of the pin, whatever its role: whether it is high.
    pub fn is_high(&self, gpio: &Gpio) -> (high: bool)
        ensures
            high == crate::bits::spec_get_bit(gpio.data_in, self.spec_bit()),
    {
        self.ll.is_high(gpio)
    }

    /// Sets the output register of the pin low while the pin has an input role. With an
    /// output role nothing changes.
    pub fn set_low(&mut self, gpio: &mut Gpio)
        ensures
            final(self).spec_id() == old(self).spec_id(),
            final(self).spec_mode() == old(self).spec_mode(),
            *final(gpio) == (if old(self).spec_mode().is_input() {
                spec_level_written(*old(gpio), old(self).spec_bit(), PinState::Low)
            } else {
                *old(gpio)
            }),
    {
        if !self.mode.is_input() {
            return ;
        }
        self.ll.set_low(gpio);
    }

    /// Sets the output register of the pin high while the pin has an input role. With an
    /// output role nothing changes.
    pub fn set_high(&mut self, gpio: &mut Gpio)
        ensures
            final(self).spec_id() == old(self).spec_id(),
            final(self).spec_mode() == old(self).spec_mode(),
            *final(gpio) == (if old(self).spec_mode().is_input() {
                spec_level_written(*old(gpio), old(self).spec_bit(), PinState::High)
            } else {
                *old(gpio)
            }),
    {
        if !self.mode.is_input() {
            return ;
        }
        self.ll.set_high(gpio);
    }

    /// Whether the output register of the pin is set high.
    pub fn is_set_high(&self, gpio: &Gpio) -> (high: bool)
        ensures
            high == crate::bits::spec_get_bit(gpio.data_out, self.spec_bit()),
    {
        self.ll.is_set_high(gpio)
    }

    /// Whether the output register of the pin is set low.
    pub fn is_set_low(&self, gpio: &Gpio) -> (low: bool)
        ensures
            low == !crate::bits::spec_get_bit(gpio.data_out, self.spec_bit()),
    {
        self.ll.is_set_low(gpio)
    }

    /// Toggles the output register of the pin.
    pub fn toggle(&mut self, gpio: &mut Gpio)
        ensures
            final(self).spec_id() == old(self).spec_id(),
            final(self).spec_mode() == old(self).spec_mode(),
            *final(gpio) == (Gpio {
                tog_out: spec_bit_mask(old(self).spec_bit()),
                data_out: old(gpio).data_out ^ spec_bit_mask(old(self).spec_bit()),
                ..*old(gpio)
            }),
    {
        self.ll.toggle(gpio);
    }
}

/// IO peripheral pin structure: a pin that is handed to a peripheral function.
pub struct IoPeriphPin {
    ll: LowLevelGpio,
    fun_sel: FunctionSelect,
}

impl IoPeriphPin {
    /// The identifier of the pin.
    pub closed spec fn spec_id(&self) -> DynPinId {
        self.ll.spec_id()
    }

    /// The function of the pin.
    pub closed spec fn spec_fun_sel(&self) -> FunctionSelect {
        self.fun_sel
    }

    /// Hands the pin of the token to the peripheral function `fun_sel`, with the pull
    /// resistor `pull` if there is one.
    pub fn new_with_pin<I: PinId>(_pin: Pin<I>, ioconfig: &mut IoConfig, fun_sel: FunctionSelect, pull: Option<Pull>) -> (pin:
        IoPeriphPin)
        ensures
            pin.spec_id() == I::spec_id(),
            pin.spec_fun_sel() == fun_sel,
            final(ioconfig).pins@ == old(ioconfig).spec_with_pin_config(
                I::spec_id(),
                spec_peripheral_pin(old(ioconfig).spec_pin_config(I::spec_id()), fun_sel, pull),
            ),
            final(ioconfig).perid == old(ioconfig).perid,
    {
        let mut ll = LowLevelGpio::new(I::id());
        ll.configure_as_peripheral_pin(ioconfig, fun_sel, pull);
        IoPeriphPin { ll, fun_sel }
    }

    /// Hands the pin `pin_id` to the peripheral function `fun_sel`, with the pull
    /// resistor `pull` if there is one.
    pub fn new(pin_id: DynPinId, ioconfig: &mut IoConfig, fun_sel: FunctionSelect, pull: Option<Pull>) -> (pin:
        IoPeriphPin)
        ensures
            pin.spec_id() == pin_id,
            pin.spec_fun_sel() == fun_sel,
            final(ioconfig).pins@ == old(ioconfig).spec_with_pin_config(
                pin_id,
                spec_peripheral_pin(old(ioconfig).spec_pin_config(pin_id), fun_sel, pull),
            ),
            final(ioconfig).perid == old(ioconfig).perid,
    {
        let mut ll = LowLevelGpio::new(pin_id);
        ll.configure_as_peripheral_pin(ioconfig, fun_sel, pull);
        IoPeriphPin { ll, fun_sel }
    }

    /// The port of the pin.
    pub fn port(&self) -> (port: Port)
        ensures
            port == self.spec_id().port(),
    {
        self.ll.port()
    }

    /// The offset of the pin within its port.
    pub fn offset(&self) -> (offset: usize)
        ensures
            offset == self.spec_id().offset(),
            offset < 16,
    {
        self.ll.offset()
    }

    /// The function of the pin.
    #[verifier::when_used_as_spec(spec_fun_sel)]
    pub fn fun_sel(&self) -> (fun_sel: FunctionSelect)
        ensures
            fun_sel == self.spec_fun_sel(),
    {
        self.fun_sel
    }
}

} // verus!
