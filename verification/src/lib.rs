//! Verified register-level logic for the peripherals of the Vorago VA416xx family.
//!
//! The crate holds no memory-mapped I/O. Every peripheral is a value: a struct with one
//! field per register, which a caller fills from the hardware before a call and writes
//! back after it. The drivers take those values by reference and say in their contracts
//! what they read and what they leave in them.
//!
//! The three parts that carry the weight are the monotonic clock with its alarm
//! scheduler ([`embassy`]), the interrupt dispatcher and the wait handles of the GPIO
//! ports ([`gpio::asynch`]), and the interrupt-driven UART receiver and transmitter
//! ([`uart::rx_asynch`], [`uart::tx_asynch`]).
use vstd::prelude::*;

pub mod bits;
pub mod clock;
pub mod embassy;
pub mod gpio;
pub mod i2c;
pub mod ioconfig;
pub mod pins;
pub mod pwm;
pub mod spi;
pub mod sysconfig;
pub mod time;
pub mod timer;
pub mod uart;
pub mod wake;

verus! {

/// Number of pins of the ports A to F.
pub const NUM_PORT_DEFAULT: usize = 16;

/// Number of pins of port A.
pub const NUM_PORT_A: usize = 16;

/// Number of pins of port B.
pub const NUM_PORT_B: usize = 16;

/// Number of pins of port G.
pub const NUM_PORT_G: usize = 8;

/// Number of GPIO ports.
pub const NUM_PORTS: usize = 7;

/// Number of interrupt lines that the interrupt controller model holds.
pub const NUM_INTERRUPTS: u16 = 256;

/// A peripheral that has a clock gate and a reset line in the system configuration.
#[derive(Debug, Copy, Clone, PartialEq, Eq, Structural)]
pub enum PeripheralSelect {
    Spi0,
    Spi1,
    Spi2,
    Spi3,
    Uart0,
    Uart1,
    Uart2,
    I2c0,
    I2c1,
    I2c2,
    Can0,
    Can1,
    Rng,
    Adc,
    Dac,
    Dma,
    Ebi,
    Eth,
    Spw,
    Clkgen,
    IrqRouter,
    IoConfig,
    Utility,
    Watchdog,
    PortA,
    PortB,
    PortC,
    PortD,
    PortE,
    PortF,
    PortG,
}

impl PeripheralSelect {
    /// The bit of this peripheral in the clock enable and reset registers.
    pub open spec fn spec_bit(&self) -> u32 {
        match self {
            PeripheralSelect::Spi0 => 0,
            PeripheralSelect::Spi1 => 1,
            PeripheralSelect::Spi2 => 2,
            PeripheralSelect::Spi3 => 3,
            PeripheralSelect::Uart0 => 4,
            PeripheralSelect::Uart1 => 5,
            PeripheralSelect::Uart2 => 6,
            PeripheralSelect::I2c0 => 7,
            PeripheralSelect::I2c1 => 8,
            PeripheralSelect::I2c2 => 9,
            PeripheralSelect::Can0 => 10,
            PeripheralSelect::Can1 => 11,
            PeripheralSelect::Rng => 12,
            PeripheralSelect::Adc => 13,
            PeripheralSelect::Dac => 14,
            PeripheralSelect::Dma => 15,
            PeripheralSelect::Ebi => 16,
            PeripheralSelect::Eth => 17,
            PeripheralSelect::Spw => 18,
            PeripheralSelect::Clkgen => 19,
            PeripheralSelect::IrqRouter => 20,
            PeripheralSelect::IoConfig => 21,
            PeripheralSelect::Utility => 22,
            PeripheralSelect::Watchdog => 23,
            PeripheralSelect::PortA => 24,
            PeripheralSelect::PortB => 25,
            PeripheralSelect::PortC => 26,
            PeripheralSelect::PortD => 27,
            PeripheralSelect::PortE => 28,
            PeripheralSelect::PortF => 29,
            PeripheralSelect::PortG => 30,
        }
    }

    /// The bit of this peripheral in the clock enable and reset registers.
    #[verifier::when_used_as_spec(spec_bit)]
    pub fn bit(&self) -> (b: u32)
        ensures
            b == self.spec_bit(),
            b <= 30,
    {
        match self {
            PeripheralSelect::Spi0 => 0,
            PeripheralSelect::Spi1 => 1,
            PeripheralSelect::Spi2 => 2,
            PeripheralSelect::Spi3 => 3,
            PeripheralSelect::Uart0 => 4,
            PeripheralSelect::Uart1 => 5,
            PeripheralSelect::Uart2 => 6,
            PeripheralSelect::I2c0 => 7,
            PeripheralSelect::I2c1 => 8,
            PeripheralSelect::I2c2 => 9,
            PeripheralSelect::Can0 => 10,
            PeripheralSelect::Can1 => 11,
            PeripheralSelect::Rng => 12,
            PeripheralSelect::Adc => 13,
            PeripheralSelect::Dac => 14,
            PeripheralSelect::Dma => 15,
            PeripheralSelect::Ebi => 16,
            PeripheralSelect::Eth => 17,
            PeripheralSelect::Spw => 18,
            PeripheralSelect::Clkgen => 19,
            PeripheralSelect::IrqRouter => 20,
            PeripheralSelect::IoConfig => 21,
            PeripheralSelect::Utility => 22,
            PeripheralSelect::Watchdog => 23,
            PeripheralSelect::PortA => 24,
            PeripheralSelect::PortB => 25,
            PeripheralSelect::PortC => 26,
            PeripheralSelect::PortD => 27,
            PeripheralSelect::PortE => 28,
            PeripheralSelect::PortF => 29,
            PeripheralSelect::PortG => 30,
        }
    }
}

/// GPIO port enumeration.
#[derive(Debug, Clone, Copy, PartialEq, Eq, Structural)]
pub enum Port {
    A,
    B,
    C,
    D,
    E,
    F,
    G,
}

impl Port {
    /// Number of pins of the port: 8 for port G, 16 for every other port.
    pub open spec fn spec_max_offset(&self) -> usize {
        match self {
            Port::G => NUM_PORT_G,
            _ => NUM_PORT_DEFAULT,
        }
    }

    /// Position of the port among the ports, A being 0.
    pub open spec fn spec_index(&self) -> usize {
        match self {
            Port::A => 0,
            Port::B => 1,
            Port::C => 2,
            Port::D => 3,
            Port::E => 4,
            Port::F => 5,
            Port::G => 6,
        }
    }

    /// Whether the pins of the port can raise interrupts. Port G is the one that cannot.
    pub open spec fn spec_supports_interrupts(&self) -> bool {
        *self != Port::G
    }

    /// Number of pins of the port. A pin's offset is below it.
    #[verifier::when_used_as_spec(spec_max_offset)]
    pub fn max_offset(&self) -> (n: usize)
        ensures
            n == self.spec_max_offset(),
            n == 8 || n == 16,
    {
        match self {
            Port::A => NUM_PORT_A,
            Port::B => NUM_PORT_B,
            Port::C | Port::D | Port::E | Port::F => NUM_PORT_DEFAULT,
            Port::G => NUM_PORT_G,
        }
    }

    /// Position of the port among the ports, A being 0.
    #[verifier::when_used_as_spec(spec_index)]
    pub fn index(&self) -> (i: usize)
        ensures
            i == self.spec_index(),
            i < NUM_PORTS,
    {
        match self {
            Port::A => 0,
            Port::B => 1,
            Port::C => 2,
            Port::D => 3,
            Port::E => 4,
            Port::F => 5,
            Port::G => 6,
        }
    }

    /// The registers of the port as they are after a reset.
    pub fn steal_gpio(&self) -> (gpio: gpio::regs::Gpio)
        ensures
            gpio == gpio::regs::Gpio::spec_reset_state(gpio::regs::Gpio::spec_base_address(*self)),
            gpio.spec_port() == Some(*self),
    {
        gpio::regs::Gpio::new_mmio(*self)
    }

    /// Whether the pins of the port can raise interrupts.
    #[verifier::when_used_as_spec(spec_supports_interrupts)]
    pub fn supports_interrupts(&self) -> (b: bool)
        ensures
            b == self.spec_supports_interrupts(),
    {
        match self {
            Port::G => false,
            _ => true,
        }
    }
}

/// A pin offset that the port does not have.
#[derive(Debug, Clone, Copy, PartialEq, Eq, Structural)]
pub struct InvalidOffsetError {
    pub offset: usize,
    pub port: Port,
}

/// The number of an interrupt line.
#[derive(Debug, Clone, Copy, PartialEq, Eq, Structural)]
pub struct Interrupt {
    pub number: u16,
}

/// First interrupt line of the UARTs: transmit and receive of bank 0, then of bank 1 and 2.
pub const UART_IRQ_OFFSET: u16 = 24;

/// Interrupt line of timer 0. The timers follow each other.
pub const TIM_IRQ_OFFSET: u16 = 48;

/// Interrupt line of pin 0 of port A. The pins of a port follow each other, and so do
/// the ports A to F.
pub const PORT_IRQ_OFFSET: u16 = 78;

/// The enable bits of the interrupt controller, one bit per interrupt line.
#[derive(Debug, Clone, Copy)]
pub struct Nvic {
    pub enabled: [u32; 8],
}

impl Nvic {
    /// Whether the line `irq` is unmasked.
    pub open spec fn spec_is_enabled(&self, irq: Interrupt) -> bool {
        bits::spec_get_bit(self.enabled@[(irq.number / 32) as int], (irq.number % 32) as u32)
    }

    /// An interrupt controller with every line masked.
    pub fn new() -> (nvic: Nvic)
        ensures
            forall|i: int| 0 <= i < 8 ==> nvic.enabled@[i] == 0,
    {
        Nvic { enabled: [0, 0, 0, 0, 0, 0, 0, 0] }
    }

    /// Whether the line `irq` is unmasked.
    #[verifier::when_used_as_spec(spec_is_enabled)]
    pub fn is_enabled(&self, irq: Interrupt) -> (b: bool)
        requires
            irq.number < NUM_INTERRUPTS,
        ensures
            b == self.spec_is_enabled(irq),
    {
        let word: usize = (irq.number / 32) as usize;
        bits::get_bit(self.enabled[word], (irq.number % 32) as u32)
    }
}

/// Unmasks the line `irq` in the interrupt controller and leaves every other line as it
/// was.
pub fn enable_nvic_interrupt(nvic: &mut Nvic, irq: Interrupt)
    requires
        irq.number < NUM_INTERRUPTS,
    ensures
        final(nvic).enabled@ == old(nvic).enabled@.update(
            (irq.number / 32) as int,
            bits::spec_set_bit(old(nvic).enabled@[(irq.number / 32) as int], (irq.number % 32) as u32, true),
        ),
        final(nvic).is_enabled(irq),
{
    let word: usize = (irq.number / 32) as usize;
    let bit: u32 = (irq.number % 32) as u32;
    proof {
        bits::lemma_set_bit_get_bit(nvic.enabled@[word as int], bit, true, bit);
    }
    nvic.enabled[word] = bits::set_bit(nvic.enabled[word], bit, true);
}

/// Masks the line `irq` in the interrupt controller and leaves every other line as it was.
pub fn disable_nvic_interrupt(nvic: &mut Nvic, irq: Interrupt)
    requires
        irq.number < NUM_INTERRUPTS,
    ensures
        final(nvic).enabled@ == old(nvic).enabled@.update(
            (irq.number / 32) as int,
            bits::spec_set_bit(old(nvic).enabled@[(irq.number / 32) as int], (irq.number % 32) as u32, false),
        ),
        !final(nvic).is_enabled(irq),
{
    let word: usize = (irq.number / 32) as usize;
    let bit: u32 = (irq.number % 32) as u32;
    proof {
        bits::lemma_set_bit_get_bit(nvic.enabled@[word as int], bit, false, bit);
    }
    nvic.enabled[word] = bits::set_bit(nvic.enabled[word], bit, false);
}

/// Unmasking the line `irq` leaves the line `other` unmasked if it was.
pub proof fn lemma_enable_keeps_enabled(nvic: Nvic, other: Interrupt, irq: Interrupt)
    requires
        other.number < NUM_INTERRUPTS,
        irq.number < NUM_INTERRUPTS,
        nvic.is_enabled(other),
    ensures
        bits::spec_get_bit(
            nvic.enabled@.update(
                (irq.number / 32) as int,
                bits::spec_set_bit(nvic.enabled@[(irq.number / 32) as int], (irq.number % 32) as u32, true),
            )[(other.number / 32) as int],
            (other.number % 32) as u32,
        ),
{
    bits::lemma_set_bit_get_bit(
        nvic.enabled@[(irq.number / 32) as int],
        (irq.number % 32) as u32,
        true,
        (other.number % 32) as u32,
    );
}

/// The value that clears both FIFOs names both.
pub proof fn lemma_fifo_clear_both()
    ensures
        FifoClear::new(true, true).tx_fifo(),
        FifoClear::new(true, true).rx_fifo(),
        FifoClear::new(true, false).tx_fifo(),
        !FifoClear::new(true, false).rx_fifo(),
        !FifoClear::new(false, true).tx_fifo(),
        FifoClear::new(false, true).rx_fifo(),
{
    bits::lemma_set_bit_get_bit(0, 1, true, 1);
    bits::lemma_set_bit_get_bit(0, 1, true, 0);
    bits::lemma_set_bit_get_bit(0, 1, false, 1);
    bits::lemma_set_bit_get_bit(0, 1, false, 0);
    bits::lemma_set_bit_get_bit(bits::spec_set_bit(0, 1, true), 0, true, 0);
    bits::lemma_set_bit_get_bit(bits::spec_set_bit(0, 1, true), 0, true, 1);
    bits::lemma_set_bit_get_bit(bits::spec_set_bit(0, 1, true), 0, false, 0);
    bits::lemma_set_bit_get_bit(bits::spec_set_bit(0, 1, true), 0, false, 1);
    bits::lemma_set_bit_get_bit(bits::spec_set_bit(0, 1, false), 0, true, 0);
    bits::lemma_set_bit_get_bit(bits::spec_set_bit(0, 1, false), 0, true, 1);
}

/// The result of an operation that does not wait for the hardware.
#[derive(Debug, Clone, Copy, PartialEq, Eq)]
pub enum NbResult<T> {
    /// The operation is done.
    Done(T),
    /// The hardware is not ready: try again.
    WouldBlock,
}

/// Marker for the types that stand for one fixed peripheral or pin.
pub trait Sealed {

}

/// A FIFO trigger level: five bits.
#[derive(Debug, Clone, Copy, PartialEq, Eq, Structural)]
pub struct TriggerLevel {
    pub raw: u32,
}

impl TriggerLevel {
    /// The level `value`, of which the low five bits count.
    pub fn new(value: u8) -> (level: TriggerLevel)
        requires
            value < 32,
        ensures
            level.raw == value,
    {
        TriggerLevel { raw: value as u32 }
    }

    /// The level, below 32.
    pub fn value(&self) -> (v: u8)
        ensures
            v == bits::spec_get_field(self.raw, 0, 5),
            v < 32,
    {
        proof {
            bits::lemma_field_bound(self.raw, 0, 5);
        }
        let v: u32 = bits::get_field(self.raw, 0, 5);
        v as u8
    }
}

/// What is written to a FIFO clear register: bit 0 clears the receive FIFO, bit 1 the
/// transmit FIFO.
#[derive(Debug, Clone, Copy, PartialEq, Eq, Structural)]
pub struct FifoClear {
    pub raw: u32,
}

impl FifoClear {
    /// The value that clears the chosen FIFOs.
    #[verifier::allow_in_spec]
    pub fn new(tx_fifo: bool, rx_fifo: bool) -> FifoClear
        returns
            (FifoClear { raw: bits::spec_set_bit(bits::spec_set_bit(0, 1, tx_fifo), 0, rx_fifo) }),
    {
        FifoClear { raw: bits::set_bit(bits::set_bit(0, 1, tx_fifo), 0, rx_fifo) }
    }

    /// Whether the value clears the transmit FIFO.
    #[verifier::allow_in_spec]
    pub fn tx_fifo(&self) -> bool
        returns
            bits::spec_get_bit(self.raw, 1),
    {
        bits::get_bit(self.raw, 1)
    }

    /// Whether the value clears the receive FIFO.
    #[verifier::allow_in_spec]
    pub fn rx_fifo(&self) -> bool
        returns
            bits::spec_get_bit(self.raw, 0),
    {
        bits::get_bit(self.raw, 0)
    }
}

} // verus!
