//! The registers of a UART.
use crate::bits::{
    get_bit, get_field, lemma_bit_and_field, lemma_field_bound, lemma_set_bit_get_bit,
    lemma_set_field_get_field, lemma_set_field_keeps_field, set_bit, set_field, spec_get_bit,
    spec_get_field, spec_set_bit, spec_set_field,
};
use crate::{Interrupt, UART_IRQ_OFFSET};
use vstd::prelude::*;

verus! {

/// Address of the registers of UART 0.
pub const BASE_ADDR_0: usize = 0x4002_4000;

/// Address of the registers of UART 1.
pub const BASE_ADDR_1: usize = 0x4002_5000;

/// Address of the registers of UART 2.
pub const BASE_ADDR_2: usize = 0x4001_7000;

/// What the peripheral ID register of a UART reads.
pub const UART_PERID: u32 = 0x0212_07E9;

/// Number of bytes that each of the two FIFOs of a UART holds.
pub const FIFO_DEPTH: usize = 16;

/// One of the three UARTs.
#[derive(Debug, PartialEq, Eq, Clone, Copy, Structural)]
pub enum Bank {
    Uart0,
    Uart1,
    Uart2,
}

impl Bank {
    /// Position of the UART among the UARTs.
    #[verifier::allow_in_spec]
    pub fn index(&self) -> usize
        returns
            (match self {
                Bank::Uart0 => 0usize,
                Bank::Uart1 => 1usize,
                Bank::Uart2 => 2usize,
            }),
    {
        match self {
            Bank::Uart0 => 0,
            Bank::Uart1 => 1,
            Bank::Uart2 => 2,
        }
    }

    /// The address of the registers of the UART.
    pub open spec fn spec_base_address(&self) -> usize {
        match self {
            Bank::Uart0 => BASE_ADDR_0,
            Bank::Uart1 => BASE_ADDR_1,
            Bank::Uart2 => BASE_ADDR_2,
        }
    }

    /// The address of the registers of the UART.
    #[verifier::when_used_as_spec(spec_base_address)]
    pub fn base_address(&self) -> (addr: usize)
        ensures
            addr == self.spec_base_address(),
    {
        match self {
            Bank::Uart0 => BASE_ADDR_0,
            Bank::Uart1 => BASE_ADDR_1,
            Bank::Uart2 => BASE_ADDR_2,
        }
    }

    /// The registers of the UART as they are after a reset.
    pub fn steal_regs(&self) -> (uart: Uart)
        ensures
            uart@ == Uart::spec_reset_state(self.spec_base_address()),
    {
        Uart::new_mmio(*self)
    }

    /// The interrupt line of the transmitter: the lines of the UARTs follow each other,
    /// the transmitter of each before its receiver.
    pub open spec fn spec_interrupt_id_tx(&self) -> Interrupt {
        Interrupt { number: (UART_IRQ_OFFSET + 2 * self.index()) as u16 }
    }

    /// The interrupt line of the receiver.
    pub open spec fn spec_interrupt_id_rx(&self) -> Interrupt {
        Interrupt { number: (UART_IRQ_OFFSET + 2 * self.index() + 1) as u16 }
    }

    /// The interrupt line of the transmitter.
    #[verifier::when_used_as_spec(spec_interrupt_id_tx)]
    pub fn interrupt_id_tx(&self) -> (irq: Interrupt)
        ensures
            irq == self.spec_interrupt_id_tx(),
            irq.number < crate::NUM_INTERRUPTS,
    {
        match self {
            Bank::Uart0 => Interrupt { number: 24 },
            Bank::Uart1 => Interrupt { number: 26 },
            Bank::Uart2 => Interrupt { number: 28 },
        }
    }

    /// The interrupt line of the receiver.
    #[verifier::when_used_as_spec(spec_interrupt_id_rx)]
    pub fn interrupt_id_rx(&self) -> (irq: Interrupt)
        ensures
            irq == self.spec_interrupt_id_rx(),
            irq.number < crate::NUM_INTERRUPTS,
    {
        match self {
            Bank::Uart0 => Interrupt { number: 25 },
            Bank::Uart1 => Interrupt { number: 27 },
            Bank::Uart2 => Interrupt { number: 29 },
        }
    }
}

/// The data register of a UART: a read takes a byte from the receive FIFO, a write puts one
/// into the transmit FIFO.
#[derive(Debug, Clone, Copy, PartialEq, Eq, Structural)]
pub struct Data {
    pub raw: u32,
}

impl Data {
    /// The register value with the bits `raw`.
    #[verifier::allow_in_spec]
    pub fn new_with_raw_value(raw: u32) -> Data
        returns
            (Data { raw }),
    {
        Data { raw }
    }

    /// The bits of the register value.
    #[verifier::allow_in_spec]
    pub fn raw_value(&self) -> u32
        returns
            self.raw,
    {
        self.raw
    }

    /// The parity bit of the byte, in manual parity mode.
    #[verifier::allow_in_spec]
    pub fn dparity(&self) -> bool
        returns
            spec_get_bit(self.raw, 15),
    {
        get_bit(self.raw, 15)
    }

    /// The same value with `dparity` replaced by `v`.
    #[verifier::allow_in_spec]
    pub fn with_dparity(self, v: bool) -> Data
        returns
            (Data { raw: spec_set_bit(self.raw, 15, v) }),
    {
        Data { raw: set_bit(self.raw, 15, v) }
    }

    /// The byte.
    #[verifier::allow_in_spec]
    pub fn value(&self) -> u8
        returns
            spec_get_field(self.raw, 0, 8) as u8,
    {
        proof {
            lemma_field_bound(self.raw, 0, 8);
        }
        get_field(self.raw, 0, 8) as u8
    }

    /// The same value with `value` replaced by `v`.
    #[verifier::allow_in_spec]
    pub fn with_value(self, v: u8) -> Data
        returns
            (Data { raw: spec_set_field(self.raw, 0, 8, v as u32) }),
    {
        Data { raw: set_field(self.raw, 0, 8, v as u32) }
    }

    /// After `dparity` is set, it reads as what was set and every other field as before.
    pub proof fn lemma_with_dparity(self, v: bool)
        ensures
            self.with_dparity(v).dparity() == v,
            self.with_dparity(v).value() == self.value(),
    {
        lemma_set_bit_get_bit(self.raw, 15, v, 15);
        lemma_bit_and_field(self.raw, 15, v, 0, 8, 0);
    }

    /// After `value` is set, it reads as what was set and every other field as before.
    pub proof fn lemma_with_value(self, v: u8)
        requires
            v < 256,
        ensures
            self.with_value(v).dparity() == self.dparity(),
            self.with_value(v).value() == v,
    {
        lemma_field_bound(self.raw, 0, 8);
        lemma_bit_and_field(self.raw, 15, true, 0, 8, v as u32);
        lemma_set_field_get_field(self.raw, 0, 8, v as u32);
    }
}

/// The enable register of a UART.
#[derive(Debug, Clone, Copy, PartialEq, Eq, Structural)]
pub struct Enable {
    pub raw: u32,
}

impl Enable {
    /// The register value with the bits `raw`.
    #[verifier::allow_in_spec]
    pub fn new_with_raw_value(raw: u32) -> Enable
        returns
            (Enable { raw }),
    {
        Enable { raw }
    }

    /// The bits of the register value.
    #[verifier::allow_in_spec]
    pub fn raw_value(&self) -> u32
        returns
            self.raw,
    {
        self.raw
    }

    /// Whether the transmitter is enabled.
    #[verifier::allow_in_spec]
    pub fn tx(&self) -> bool
        returns
            spec_get_bit(self.raw, 1),
    {
        get_bit(self.raw, 1)
    }

    /// The same value with `tx` replaced by `v`.
    #[verifier::allow_in_spec]
    pub fn with_tx(self, v: bool) -> Enable
        returns
            (Enable { raw: spec_set_bit(self.raw, 1, v) }),
    {
        Enable { raw: set_bit(self.raw, 1, v) }
    }

    /// Whether the receiver is enabled.
    #[verifier::allow_in_spec]
    pub fn rx(&self) -> bool
        returns
            spec_get_bit(self.raw, 0),
    {
        get_bit(self.raw, 0)
    }

    /// The same value with `rx` replaced by `v`.
    #[verifier::allow_in_spec]
    pub fn with_rx(self, v: bool) -> Enable
        returns
            (Enable { raw: spec_set_bit(self.raw, 0, v) }),
    {
        Enable { raw: set_bit(self.raw, 0, v) }
    }

    /// After `tx` is set, it reads as what was set and every other field as before.
    pub proof fn lemma_with_tx(self, v: bool)
        ensures
            self.with_tx(v).tx() == v,
            self.with_tx(v).rx() == self.rx(),
    {
        lemma_set_bit_get_bit(self.raw, 1, v, 1);
        lemma_set_bit_get_bit(self.raw, 1, v, 0);
    }

    /// After `rx` is set, it reads as what was set and every other field as before.
    pub proof fn lemma_with_rx(self, v: bool)
        ensures
            self.with_rx(v).tx() == self.tx(),
            self.with_rx(v).rx() == v,
    {
        lemma_set_bit_get_bit(self.raw, 0, v, 1);
        lemma_set_bit_get_bit(self.raw, 0, v, 0);
    }
}

/// Number of stop bits.
#[derive(Debug, Clone, Copy, PartialEq, Eq, Structural)]
pub enum Stopbits {
    One,
    Two,
}

impl Stopbits {
    /// The bits that stand for the variant in a register.
    #[verifier::allow_in_spec]
    pub fn raw_value(self) -> u32
        returns
            (match self {
                Stopbits::One => 0u32,
                Stopbits::Two => 1u32,
            }),
    {
        match self {
            Stopbits::One => 0,
            Stopbits::Two => 1,
        }
    }

    /// The variant that the bits `raw` stand for. Of `raw`, the low bit count.
    #[verifier::allow_in_spec]
    pub fn from_bits(raw: u32) -> Stopbits
        returns
            (if raw == 0 {
                Stopbits::One
            } else {
                Stopbits::Two
            }),
    {
        if raw == 0 {
            Stopbits::One
        } else {
            Stopbits::Two
        }
    }

    /// Each variant is found again from its bits, which fit in the field.
    pub proof fn lemma_round_trip(self)
        ensures
            Stopbits::from_bits(self.raw_value()) == self,
            self.raw_value() < 2,
    {
    }
}

/// Number of data bits of a word.
#[derive(Debug, Clone, Copy, PartialEq, Eq, Structural)]
pub enum WordSize {
    Five,
    Six,
    Seven,
    Eight,
}

impl WordSize {
    /// The bits that stand for the variant in a register.
    #[verifier::allow_in_spec]
    pub fn raw_value(self) -> u32
        returns
            (match self {
                WordSize::Five => 0b00u32,
                WordSize::Six => 0b01u32,
                WordSize::Seven => 0b10u32,
                WordSize::Eight => 0b11u32,
            }),
    {
        match self {
            WordSize::Five => 0b00,
            WordSize::Six => 0b01,
            WordSize::Seven => 0b10,
            WordSize::Eight => 0b11,
        }
    }

    /// The variant that the bits `raw` stand for. Of `raw`, the low 2 bits count.
    #[verifier::allow_in_spec]
    pub fn from_bits(raw: u32) -> WordSize
        returns
            (if raw == 0b00 {
                WordSize::Five
            } else if raw == 0b01 {
                WordSize::Six
            } else if raw == 0b10 {
                WordSize::Seven
            } else {
                WordSize::Eight
            }),
    {
        if raw == 0b00 {
            WordSize::Five
        } else if raw == 0b01 {
            WordSize::Six
        } else if raw == 0b10 {
            WordSize::Seven
        } else {
            WordSize::Eight
        }
    }

    /// Each variant is found again from its bits, which fit in the field.
    pub proof fn lemma_round_trip(self)
        ensures
            WordSize::from_bits(self.raw_value()) == self,
            self.raw_value() < 4,
    {
    }
}

/// The control register of a UART.
#[derive(Debug, Clone, Copy, PartialEq, Eq, Structural)]
pub struct Control {
    pub raw: u32,
}

impl Control {
    /// The register value with the bits `raw`.
    #[verifier::allow_in_spec]
    pub fn new_with_raw_value(raw: u32) -> Control
        returns
            (Control { raw }),
    {
        Control { raw }
    }

    /// The bits of the register value.
    #[verifier::allow_in_spec]
    pub fn raw_value(&self) -> u32
        returns
            self.raw,
    {
        self.raw
    }

    /// Whether the baud clock is 8 times the baud rate, else 16 times.
    #[verifier::allow_in_spec]
    pub fn baud8(&self) -> bool
        returns
            spec_get_bit(self.raw, 11),
    {
        get_bit(self.raw, 11)
    }

    /// The same value with `baud8` replaced by `v`.
    #[verifier::allow_in_spec]
    pub fn with_baud8(self, v: bool) -> Control
        returns
            (Control { raw: spec_set_bit(self.raw, 11, v) }),
    {
        Control { raw: set_bit(self.raw, 11, v) }
    }

    /// Bit 10 of the register.
    #[verifier::allow_in_spec]
    pub fn auto_rts(&self) -> bool
        returns
            spec_get_bit(self.raw, 10),
    {
        get_bit(self.raw, 10)
    }

    /// The same value with `auto_rts` replaced by `v`.
    #[verifier::allow_in_spec]
    pub fn with_auto_rts(self, v: bool) -> Control
        returns
            (Control { raw: spec_set_bit(self.raw, 10, v) }),
    {
        Control { raw: set_bit(self.raw, 10, v) }
    }

    /// Bit 9 of the register.
    #[verifier::allow_in_spec]
    pub fn def_rts(&self) -> bool
        returns
            spec_get_bit(self.raw, 9),
    {
        get_bit(self.raw, 9)
    }

    /// The same value with `def_rts` replaced by `v`.
    #[verifier::allow_in_spec]
    pub fn with_def_rts(self, v: bool) -> Control
        returns
            (Control { raw: spec_set_bit(self.raw, 9, v) }),
    {
        Control { raw: set_bit(self.raw, 9, v) }
    }

    /// Bit 8 of the register.
    #[verifier::allow_in_spec]
    pub fn auto_cts(&self) -> bool
        returns
            spec_get_bit(self.raw, 8),
    {
        get_bit(self.raw, 8)
    }

    /// The same value with `auto_cts` replaced by `v`.
    #[verifier::allow_in_spec]
    pub fn with_auto_cts(self, v: bool) -> Control
        returns
            (Control { raw: spec_set_bit(self.raw, 8, v) }),
    {
        Control { raw: set_bit(self.raw, 8, v) }
    }

    /// Bit 7 of the register.
    #[verifier::allow_in_spec]
    pub fn loopback_block(&self) -> bool
        returns
            spec_get_bit(self.raw, 7),
    {
        get_bit(self.raw, 7)
    }

    /// The same value with `loopback_block` replaced by `v`.
    #[verifier::allow_in_spec]
    pub fn with_loopback_block(self, v: bool) -> Control
        returns
            (Control { raw: spec_set_bit(self.raw, 7, v) }),
    {
        Control { raw: set_bit(self.raw, 7, v) }
    }

    /// Bit 6 of the register.
    #[verifier::allow_in_spec]
    pub fn loopback(&self) -> bool
        returns
            spec_get_bit(self.raw, 6),
    {
        get_bit(self.raw, 6)
    }

    /// The same value with `loopback` replaced by `v`.
    #[verifier::allow_in_spec]
    pub fn with_loopback(self, v: bool) -> Control
        returns
            (Control { raw: spec_set_bit(self.raw, 6, v) }),
    {
        Control { raw: set_bit(self.raw, 6, v) }
    }

    /// Number of data bits.
    #[verifier::allow_in_spec]
    pub fn wordsize(&self) -> WordSize
        returns
            (WordSize::from_bits(spec_get_field(self.raw, 4, 2))),
    {
        WordSize::from_bits(get_field(self.raw, 4, 2))
    }

    /// The same value with `wordsize` replaced by `v`.
    #[verifier::allow_in_spec]
    pub fn with_wordsize(self, v: WordSize) -> Control
        returns
            (Control { raw: spec_set_field(self.raw, 4, 2, v.raw_value()) }),
    {
        Control { raw: set_field(self.raw, 4, 2, v.raw_value()) }
    }

    /// Number of stop bits.
    #[verifier::allow_in_spec]
    pub fn stopbits(&self) -> Stopbits
        returns
            (Stopbits::from_bits(spec_get_field(self.raw, 3, 1))),
    {
        Stopbits::from_bits(get_field(self.raw, 3, 1))
    }

    /// The same value with `stopbits` replaced by `v`.
    #[verifier::allow_in_spec]
    pub fn with_stopbits(self, v: Stopbits) -> Control
        returns
            (Control { raw: spec_set_field(self.raw, 3, 1, v.raw_value()) }),
    {
        Control { raw: set_field(self.raw, 3, 1, v.raw_value()) }
    }

    /// Bit 2 of the register.
    #[verifier::allow_in_spec]
    pub fn parity_manual(&self) -> bool
        returns
            spec_get_bit(self.raw, 2),
    {
        get_bit(self.raw, 2)
    }

    /// The same value with `parity_manual` replaced by `v`.
    #[verifier::allow_in_spec]
    pub fn with_parity_manual(self, v: bool) -> Control
        returns
            (Control { raw: spec_set_bit(self.raw, 2, v) }),
    {
        Control { raw: set_bit(self.raw, 2, v) }
    }

    /// Whether the parity is even, where it is enabled.
    #[verifier::allow_in_spec]
    pub fn parity_even(&self) -> bool
        returns
            spec_get_bit(self.raw, 1),
    {
        get_bit(self.raw, 1)
    }

    /// The same value with `parity_even` replaced by `v`.
    #[verifier::allow_in_spec]
    pub fn with_parity_even(self, v: bool) -> Control
        returns
            (Control { raw: spec_set_bit(self.raw, 1, v) }),
    {
        Control { raw: set_bit(self.raw, 1, v) }
    }

    /// Whether a parity bit is sent and checked.
    #[verifier::allow_in_spec]
    pub fn parity_enable(&self) -> bool
        returns
            spec_get_bit(self.raw, 0),
    {
        get_bit(self.raw, 0)
    }

    /// The same value with `parity_enable` replaced by `v`.
    #[verifier::allow_in_spec]
    pub fn with_parity_enable(self, v: bool) -> Control
        returns
            (Control { raw: spec_set_bit(self.raw, 0, v) }),
    {
        Control { raw: set_bit(self.raw, 0, v) }
    }

    /// After `baud8` is set, it reads as what was set and every other field as before.
    pub proof fn lemma_with_baud8(self, v: bool)
        ensures
            self.with_baud8(v).baud8() == v,
            self.with_baud8(v).auto_rts() == self.auto_rts(),
            self.with_baud8(v).def_rts() == self.def_rts(),
            self.with_baud8(v).auto_cts() == self.auto_cts(),
            self.with_baud8(v).loopback_block() == self.loopback_block(),
            self.with_baud8(v).loopback() == self.loopback(),
            self.with_baud8(v).wordsize() == self.wordsize(),
            self.with_baud8(v).stopbits() == self.stopbits(),
            self.with_baud8(v).parity_manual() == self.parity_manual(),
            self.with_baud8(v).parity_even() == self.parity_even(),
            self.with_baud8(v).parity_enable() == self.parity_enable(),
    {
        lemma_set_bit_get_bit(self.raw, 11, v, 11);
        lemma_set_bit_get_bit(self.raw, 11, v, 10);
        lemma_set_bit_get_bit(self.raw, 11, v, 9);
        lemma_set_bit_get_bit(self.raw, 11, v, 8);
        lemma_set_bit_get_bit(self.raw, 11, v, 7);
        lemma_set_bit_get_bit(self.raw, 11, v, 6);
        lemma_bit_and_field(self.raw, 11, v, 4, 2, 0);
        lemma_bit_and_field(self.raw, 11, v, 3, 1, 0);
        lemma_set_bit_get_bit(self.raw, 11, v, 2);
        lemma_set_bit_get_bit(self.raw, 11, v, 1);
        lemma_set_bit_get_bit(self.raw, 11, v, 0);
    }

    /// After `auto_rts` is set, it reads as what was set and every other field as before.
    pub proof fn lemma_with_auto_rts(self, v: bool)
        ensures
            self.with_auto_rts(v).baud8() == self.baud8(),
            self.with_auto_rts(v).auto_rts() == v,
            self.with_auto_rts(v).def_rts() == self.def_rts(),
            self.with_auto_rts(v).auto_cts() == self.auto_cts(),
            self.with_auto_rts(v).loopback_block() == self.loopback_block(),
            self.with_auto_rts(v).loopback() == self.loopback(),
            self.with_auto_rts(v).wordsize() == self.wordsize(),
            self.with_auto_rts(v).stopbits() == self.stopbits(),
            self.with_auto_rts(v).parity_manual() == self.parity_manual(),
            self.with_auto_rts(v).parity_even() == self.parity_even(),
            self.with_auto_rts(v).parity_enable() == self.parity_enable(),
    {
        lemma_set_bit_get_bit(self.raw, 10, v, 11);
        lemma_set_bit_get_bit(self.raw, 10, v, 10);
        lemma_set_bit_get_bit(self.raw, 10, v, 9);
        lemma_set_bit_get_bit(self.raw, 10, v, 8);
        lemma_set_bit_get_bit(self.raw, 10, v, 7);
        lemma_set_bit_get_bit(self.raw, 10, v, 6);
        lemma_bit_and_field(self.raw, 10, v, 4, 2, 0);
        lemma_bit_and_field(self.raw, 10, v, 3, 1, 0);
        lemma_set_bit_get_bit(self.raw, 10, v, 2);
        lemma_set_bit_get_bit(self.raw, 10, v, 1);
        lemma_set_bit_get_bit(self.raw, 10, v, 0);
    }

    /// After `def_rts` is set, it reads as what was set and every other field as before.
    pub proof fn lemma_with_def_rts(self, v: bool)
        ensures
            self.with_def_rts(v).baud8() == self.baud8(),
            self.with_def_rts(v).auto_rts() == self.auto_rts(),
            self.with_def_rts(v).def_rts() == v,
            self.with_def_rts(v).auto_cts() == self.auto_cts(),
            self.with_def_rts(v).loopback_block() == self.loopback_block(),
            self.with_def_rts(v).loopback() == self.loopback(),
            self.with_def_rts(v).wordsize() == self.wordsize(),
            self.with_def_rts(v).stopbits() == self.stopbits(),
            self.with_def_rts(v).parity_manual() == self.parity_manual(),
            self.with_def_rts(v).parity_even() == self.parity_even(),
            self.with_def_rts(v).parity_enable() == self.parity_enable(),
    {
        lemma_set_bit_get_bit(self.raw, 9, v, 11);
        lemma_set_bit_get_bit(self.raw, 9, v, 10);
        lemma_set_bit_get_bit(self.raw, 9, v, 9);
        lemma_set_bit_get_bit(self.raw, 9, v, 8);
        lemma_set_bit_get_bit(self.raw, 9, v, 7);
        lemma_set_bit_get_bit(self.raw, 9, v, 6);
        lemma_bit_and_field(self.raw, 9, v, 4, 2, 0);
        lemma_bit_and_field(self.raw, 9, v, 3, 1, 0);
        lemma_set_bit_get_bit(self.raw, 9, v, 2);
        lemma_set_bit_get_bit(self.raw, 9, v, 1);
        lemma_set_bit_get_bit(self.raw, 9, v, 0);
    }

    /// After `auto_cts` is set, it reads as what was set and every other field as before.
    pub proof fn lemma_with_auto_cts(self, v: bool)
        ensures
            self.with_auto_cts(v).baud8() == self.baud8(),
            self.with_auto_cts(v).auto_rts() == self.auto_rts(),
            self.with_auto_cts(v).def_rts() == self.def_rts(),
            self.with_auto_cts(v).auto_cts() == v,
            self.with_auto_cts(v).loopback_block() == self.loopback_block(),
            self.with_auto_cts(v).loopback() == self.loopback(),
            self.with_auto_cts(v).wordsize() == self.wordsize(),
            self.with_auto_cts(v).stopbits() == self.stopbits(),
            self.with_auto_cts(v).parity_manual() == self.parity_manual(),
            self.with_auto_cts(v).parity_even() == self.parity_even(),
            self.with_auto_cts(v).parity_enable() == self.parity_enable(),
    {
        lemma_set_bit_get_bit(self.raw, 8, v, 11);
        lemma_set_bit_get_bit(self.raw, 8, v, 10);
        lemma_set_bit_get_bit(self.raw, 8, v, 9);
        lemma_set_bit_get_bit(self.raw, 8, v, 8);
        lemma_set_bit_get_bit(self.raw, 8, v, 7);
        lemma_set_bit_get_bit(self.raw, 8, v, 6);
        lemma_bit_and_field(self.raw, 8, v, 4, 2, 0);
        lemma_bit_and_field(self.raw, 8, v, 3, 1, 0);
        lemma_set_bit_get_bit(self.raw, 8, v, 2);
        lemma_set_bit_get_bit(self.raw, 8, v, 1);
        lemma_set_bit_get_bit(self.raw, 8, v, 0);
    }

    /// After `loopback_block` is set, it reads as what was set and every other field as before.
    pub proof fn lemma_with_loopback_block(self, v: bool)
        ensures
            self.with_loopback_block(v).baud8() == self.baud8(),
            self.with_loopback_block(v).auto_rts() == self.auto_rts(),
            self.with_loopback_block(v).def_rts() == self.def_rts(),
            self.with_loopback_block(v).auto_cts() == self.auto_cts(),
            self.with_loopback_block(v).loopback_block() == v,
            self.with_loopback_block(v).loopback() == self.loopback(),
            self.with_loopback_block(v).wordsize() == self.wordsize(),
            self.with_loopback_block(v).stopbits() == self.stopbits(),
            self.with_loopback_block(v).parity_manual() == self.parity_manual(),
            self.with_loopback_block(v).parity_even() == self.parity_even(),
            self.with_loopback_block(v).parity_enable() == self.parity_enable(),
    {
        lemma_set_bit_get_bit(self.raw, 7, v, 11);
        lemma_set_bit_get_bit(self.raw, 7, v, 10);
        lemma_set_bit_get_bit(self.raw, 7, v, 9);
        lemma_set_bit_get_bit(self.raw, 7, v, 8);
        lemma_set_bit_get_bit(self.raw, 7, v, 7);
        lemma_set_bit_get_bit(self.raw, 7, v, 6);
        lemma_bit_and_field(self.raw, 7, v, 4, 2, 0);
        lemma_bit_and_field(self.raw, 7, v, 3, 1, 0);
        lemma_set_bit_get_bit(self.raw, 7, v, 2);
        lemma_set_bit_get_bit(self.raw, 7, v, 1);
        lemma_set_bit_get_bit(self.raw, 7, v, 0);
    }

    /// After `loopback` is set, it reads as what was set and every other field as before.
    pub proof fn lemma_with_loopback(self, v: bool)
        ensures
            self.with_loopback(v).baud8() == self.baud8(),
            self.with_loopback(v).auto_rts() == self.auto_rts(),
            self.with_loopback(v).def_rts() == self.def_rts(),
            self.with_loopback(v).auto_cts() == self.auto_cts(),
            self.with_loopback(v).loopback_block() == self.loopback_block(),
            self.with_loopback(v).loopback() == v,
            self.with_loopback(v).wordsize() == self.wordsize(),
            self.with_loopback(v).stopbits() == self.stopbits(),
            self.with_loopback(v).parity_manual() == self.parity_manual(),
            self.with_loopback(v).parity_even() == self.parity_even(),
            self.with_loopback(v).parity_enable() == self.parity_enable(),
    {
        lemma_set_bit_get_bit(self.raw, 6, v, 11);
        lemma_set_bit_get_bit(self.raw, 6, v, 10);
        lemma_set_bit_get_bit(self.raw, 6, v, 9);
        lemma_set_bit_get_bit(self.raw, 6, v, 8);
        lemma_set_bit_get_bit(self.raw, 6, v, 7);
        lemma_set_bit_get_bit(self.raw, 6, v, 6);
        lemma_bit_and_field(self.raw, 6, v, 4, 2, 0);
        lemma_bit_and_field(self.raw, 6, v, 3, 1, 0);
        lemma_set_bit_get_bit(self.raw, 6, v, 2);
        lemma_set_bit_get_bit(self.raw, 6, v, 1);
        lemma_set_bit_get_bit(self.raw, 6, v, 0);
    }

    /// After `wordsize` is set, it reads as what was set and every other field as before.
    pub proof fn lemma_with_wordsize(self, v: WordSize)
        ensures
            self.with_wordsize(v).baud8() == self.baud8(),
            self.with_wordsize(v).auto_rts() == self.auto_rts(),
            self.with_wordsize(v).def_rts() == self.def_rts(),
            self.with_wordsize(v).auto_cts() == self.auto_cts(),
            self.with_wordsize(v).loopback_block() == self.loopback_block(),
            self.with_wordsize(v).loopback() == self.loopback(),
            self.with_wordsize(v).wordsize() == v,
            self.with_wordsize(v).stopbits() == self.stopbits(),
            self.with_wordsize(v).parity_manual() == self.parity_manual(),
            self.with_wordsize(v).parity_even() == self.parity_even(),
            self.with_wordsize(v).parity_enable() == self.parity_enable(),
    {
        v.lemma_round_trip();
        lemma_field_bound(self.raw, 4, 2);
        lemma_bit_and_field(self.raw, 11, true, 4, 2, v.raw_value());
        lemma_bit_and_field(self.raw, 10, true, 4, 2, v.raw_value());
        lemma_bit_and_field(self.raw, 9, true, 4, 2, v.raw_value());
        lemma_bit_and_field(self.raw, 8, true, 4, 2, v.raw_value());
        lemma_bit_and_field(self.raw, 7, true, 4, 2, v.raw_value());
        lemma_bit_and_field(self.raw, 6, true, 4, 2, v.raw_value());
        lemma_set_field_get_field(self.raw, 4, 2, v.raw_value());
        lemma_set_field_keeps_field(self.raw, 4, 2, v.raw_value(), 3, 1);
        lemma_bit_and_field(self.raw, 2, true, 4, 2, v.raw_value());
        lemma_bit_and_field(self.raw, 1, true, 4, 2, v.raw_value());
        lemma_bit_and_field(self.raw, 0, true, 4, 2, v.raw_value());
    }

    /// After `stopbits` is set, it reads as what was set and every other field as before.
    pub proof fn lemma_with_stopbits(self, v: Stopbits)
        ensures
            self.with_stopbits(v).baud8() == self.baud8(),
            self.with_stopbits(v).auto_rts() == self.auto_rts(),
            self.with_stopbits(v).def_rts() == self.def_rts(),
            self.with_stopbits(v).auto_cts() == self.auto_cts(),
            self.with_stopbits(v).loopback_block() == self.loopback_block(),
            self.with_stopbits(v).loopback() == self.loopback(),
            self.with_stopbits(v).wordsize() == self.wordsize(),
            self.with_stopbits(v).stopbits() == v,
            self.with_stopbits(v).parity_manual() == self.parity_manual(),
            self.with_stopbits(v).parity_even() == self.parity_even(),
            self.with_stopbits(v).parity_enable() == self.parity_enable(),
    {
        v.lemma_round_trip();
        lemma_field_bound(self.raw, 3, 1);
        lemma_bit_and_field(self.raw, 11, true, 3, 1, v.raw_value());
        lemma_bit_and_field(self.raw, 10, true, 3, 1, v.raw_value());
        lemma_bit_and_field(self.raw, 9, true, 3, 1, v.raw_value());
        lemma_bit_and_field(self.raw, 8, true, 3, 1, v.raw_value());
        lemma_bit_and_field(self.raw, 7, true, 3, 1, v.raw_value());
        lemma_bit_and_field(self.raw, 6, true, 3, 1, v.raw_value());
        lemma_set_field_keeps_field(self.raw, 3, 1, v.raw_value(), 4, 2);
        lemma_set_field_get_field(self.raw, 3, 1, v.raw_value());
        lemma_bit_and_field(self.raw, 2, true, 3, 1, v.raw_value());
        lemma_bit_and_field(self.raw, 1, true, 3, 1, v.raw_value());
        lemma_bit_and_field(self.raw, 0, true, 3, 1, v.raw_value());
    }

    /// After `parity_manual` is set, it reads as what was set and every other field as before.
    pub proof fn lemma_with_parity_manual(self, v: bool)
        ensures
            self.with_parity_manual(v).baud8() == self.baud8(),
            self.with_parity_manual(v).auto_rts() == self.auto_rts(),
            self.with_parity_manual(v).def_rts() == self.def_rts(),
            self.with_parity_manual(v).auto_cts() == self.auto_cts(),
            self.with_parity_manual(v).loopback_block() == self.loopback_block(),
            self.with_parity_manual(v).loopback() == self.loopback(),
            self.with_parity_manual(v).wordsize() == self.wordsize(),
            self.with_parity_manual(v).stopbits() == self.stopbits(),
            self.with_parity_manual(v).parity_manual() == v,
            self.with_parity_manual(v).parity_even() == self.parity_even(),
            self.with_parity_manual(v).parity_enable() == self.parity_enable(),
    {
        lemma_set_bit_get_bit(self.raw, 2, v, 11);
        lemma_set_bit_get_bit(self.raw, 2, v, 10);
        lemma_set_bit_get_bit(self.raw, 2, v, 9);
        lemma_set_bit_get_bit(self.raw, 2, v, 8);
        lemma_set_bit_get_bit(self.raw, 2, v, 7);
        lemma_set_bit_get_bit(self.raw, 2, v, 6);
        lemma_bit_and_field(self.raw, 2, v, 4, 2, 0);
        lemma_bit_and_field(self.raw, 2, v, 3, 1, 0);
        lemma_set_bit_get_bit(self.raw, 2, v, 2);
        lemma_set_bit_get_bit(self.raw, 2, v, 1);
        lemma_set_bit_get_bit(self.raw, 2, v, 0);
    }

    /// After `parity_even` is set, it reads as what was set and every other field as before.
    pub proof fn lemma_with_parity_even(self, v: bool)
        ensures
            self.with_parity_even(v).baud8() == self.baud8(),
            self.with_parity_even(v).auto_rts() == self.auto_rts(),
            self.with_parity_even(v).def_rts() == self.def_rts(),
            self.with_parity_even(v).auto_cts() == self.auto_cts(),
            self.with_parity_even(v).loopback_block() == self.loopback_block(),
            self.with_parity_even(v).loopback() == self.loopback(),
            self.with_parity_even(v).wordsize() == self.wordsize(),
            self.with_parity_even(v).stopbits() == self.stopbits(),
            self.with_parity_even(v).parity_manual() == self.parity_manual(),
            self.with_parity_even(v).parity_even() == v,
            self.with_parity_even(v).parity_enable() == self.parity_enable(),
    {
        lemma_set_bit_get_bit(self.raw, 1, v, 11);
        lemma_set_bit_get_bit(self.raw, 1, v, 10);
        lemma_set_bit_get_bit(self.raw, 1, v, 9);
        lemma_set_bit_get_bit(self.raw, 1, v, 8);
        lemma_set_bit_get_bit(self.raw, 1, v, 7);
        lemma_set_bit_get_bit(self.raw, 1, v, 6);
        lemma_bit_and_field(self.raw, 1, v, 4, 2, 0);
        lemma_bit_and_field(self.raw, 1, v, 3, 1, 0);
        lemma_set_bit_get_bit(self.raw, 1, v, 2);
        lemma_set_bit_get_bit(self.raw, 1, v, 1);
        lemma_set_bit_get_bit(self.raw, 1, v, 0);
    }

    /// After `parity_enable` is set, it reads as what was set and every other field as before.
    pub proof fn lemma_with_parity_enable(self, v: bool)
        ensures
            self.with_parity_enable(v).baud8() == self.baud8(),
            self.with_parity_enable(v).auto_rts() == self.auto_rts(),
            self.with_parity_enable(v).def_rts() == self.def_rts(),
            self.with_parity_enable(v).auto_cts() == self.auto_cts(),
            self.with_parity_enable(v).loopback_block() == self.loopback_block(),
            self.with_parity_enable(v).loopback() == self.loopback(),
            self.with_parity_enable(v).wordsize() == self.wordsize(),
            self.with_parity_enable(v).stopbits() == self.stopbits(),
            self.with_parity_enable(v).parity_manual() == self.parity_manual(),
            self.with_parity_enable(v).parity_even() == self.parity_even(),
            self.with_parity_enable(v).parity_enable() == v,
    {
        lemma_set_bit_get_bit(self.raw, 0, v, 11);
        lemma_set_bit_get_bit(self.raw, 0, v, 10);
        lemma_set_bit_get_bit(self.raw, 0, v, 9);
        lemma_set_bit_get_bit(self.raw, 0, v, 8);
        lemma_set_bit_get_bit(self.raw, 0, v, 7);
        lemma_set_bit_get_bit(self.raw, 0, v, 6);
        lemma_bit_and_field(self.raw, 0, v, 4, 2, 0);
        lemma_bit_and_field(self.raw, 0, v, 3, 1, 0);
        lemma_set_bit_get_bit(self.raw, 0, v, 2);
        lemma_set_bit_get_bit(self.raw, 0, v, 1);
        lemma_set_bit_get_bit(self.raw, 0, v, 0);
    }
}

/// The clock scale register of a UART: the divider of the reference clock, with an integer
/// and a fractional part.
#[derive(Debug, Clone, Copy, PartialEq, Eq, Structural)]
pub struct ClkScale {
    pub raw: u32,
}

impl ClkScale {
    /// The register value with the bits `raw`.
    #[verifier::allow_in_spec]
    pub fn new_with_raw_value(raw: u32) -> ClkScale
        returns
            (ClkScale { raw }),
    {
        ClkScale { raw }
    }

    /// The bits of the register value.
    #[verifier::allow_in_spec]
    pub fn raw_value(&self) -> u32
        returns
            self.raw,
    {
        self.raw
    }

    /// Integer part of the divider.
    #[verifier::allow_in_spec]
    pub fn integer(&self) -> u32
        returns
            spec_get_field(self.raw, 6, 18),
    {
        get_field(self.raw, 6, 18)
    }

    /// The same value with `integer` replaced by `v`.
    #[verifier::allow_in_spec]
    pub fn with_integer(self, v: u32) -> ClkScale
        returns
            (ClkScale { raw: spec_set_field(self.raw, 6, 18, v as u32) }),
    {
        ClkScale { raw: set_field(self.raw, 6, 18, v as u32) }
    }

    /// Fractional part of the divider, in 64ths.
    #[verifier::allow_in_spec]
    pub fn frac(&self) -> u8
        returns
            spec_get_field(self.raw, 0, 6) as u8,
    {
        proof {
            lemma_field_bound(self.raw, 0, 6);
        }
        get_field(self.raw, 0, 6) as u8
    }

    /// The same value with `frac` replaced by `v`.
    #[verifier::allow_in_spec]
    pub fn with_frac(self, v: u8) -> ClkScale
        returns
            (ClkScale { raw: spec_set_field(self.raw, 0, 6, v as u32) }),
    {
        ClkScale { raw: set_field(self.raw, 0, 6, v as u32) }
    }

    /// After `integer` is set, it reads as what was set and every other field as before.
    pub proof fn lemma_with_integer(self, v: u32)
        requires
            v < 262144,
        ensures
            self.with_integer(v).integer() == v,
            self.with_integer(v).frac() == self.frac(),
    {
        lemma_field_bound(self.raw, 6, 18);
        lemma_set_field_get_field(self.raw, 6, 18, v as u32);
        lemma_set_field_keeps_field(self.raw, 6, 18, v as u32, 0, 6);
    }

    /// After `frac` is set, it reads as what was set and every other field as before.
    pub proof fn lemma_with_frac(self, v: u8)
        requires
            v < 64,
        ensures
            self.with_frac(v).integer() == self.integer(),
            self.with_frac(v).frac() == v,
    {
        lemma_field_bound(self.raw, 0, 6);
        lemma_set_field_keeps_field(self.raw, 0, 6, v as u32, 6, 18);
        lemma_set_field_get_field(self.raw, 0, 6, v as u32);
    }
}

/// The status register of the receiver.
#[derive(Debug, Clone, Copy, PartialEq, Eq, Structural)]
pub struct RxStatus {
    pub raw: u32,
}

impl RxStatus {
    /// The register value with the bits `raw`.
    #[verifier::allow_in_spec]
    pub fn new_with_raw_value(raw: u32) -> RxStatus
        returns
            (RxStatus { raw }),
    {
        RxStatus { raw }
    }

    /// The bits of the register value.
    #[verifier::allow_in_spec]
    pub fn raw_value(&self) -> u32
        returns
            self.raw,
    {
        self.raw
    }

    /// Bit 15 of the register.
    #[verifier::allow_in_spec]
    pub fn rx_rtsn(&self) -> bool
        returns
            spec_get_bit(self.raw, 15),
    {
        get_bit(self.raw, 15)
    }

    /// The same value with `rx_rtsn` replaced by `v`.
    #[verifier::allow_in_spec]
    pub fn with_rx_rtsn(self, v: bool) -> RxStatus
        returns
            (RxStatus { raw: spec_set_bit(self.raw, 15, v) }),
    {
        RxStatus { raw: set_bit(self.raw, 15, v) }
    }

    /// Bit 9 of the register.
    #[verifier::allow_in_spec]
    pub fn rx_addr9(&self) -> bool
        returns
            spec_get_bit(self.raw, 9),
    {
        get_bit(self.raw, 9)
    }

    /// The same value with `rx_addr9` replaced by `v`.
    #[verifier::allow_in_spec]
    pub fn with_rx_addr9(self, v: bool) -> RxStatus
        returns
            (RxStatus { raw: spec_set_bit(self.raw, 9, v) }),
    {
        RxStatus { raw: set_bit(self.raw, 9, v) }
    }

    /// Bit 8 of the register.
    #[verifier::allow_in_spec]
    pub fn busy_break(&self) -> bool
        returns
            spec_get_bit(self.raw, 8),
    {
        get_bit(self.raw, 8)
    }

    /// The same value with `busy_break` replaced by `v`.
    #[verifier::allow_in_spec]
    pub fn with_busy_break(self, v: bool) -> RxStatus
        returns
            (RxStatus { raw: spec_set_bit(self.raw, 8, v) }),
    {
        RxStatus { raw: set_bit(self.raw, 8, v) }
    }

    /// Bit 7 of the register.
    #[verifier::allow_in_spec]
    pub fn break_error(&self) -> bool
        returns
            spec_get_bit(self.raw, 7),
    {
        get_bit(self.raw, 7)
    }

    /// The same value with `break_error` replaced by `v`.
    #[verifier::allow_in_spec]
    pub fn with_break_error(self, v: bool) -> RxStatus
        returns
            (RxStatus { raw: spec_set_bit(self.raw, 7, v) }),
    {
        RxStatus { raw: set_bit(self.raw, 7, v) }
    }

    /// A byte with a wrong parity bit was received.
    #[verifier::allow_in_spec]
    pub fn parity_error(&self) -> bool
        returns
            spec_get_bit(self.raw, 6),
    {
        get_bit(self.raw, 6)
    }

    /// The same value with `parity_error` replaced by `v`.
    #[verifier::allow_in_spec]
    pub fn with_parity_error(self, v: bool) -> RxStatus
        returns
            (RxStatus { raw: spec_set_bit(self.raw, 6, v) }),
    {
        RxStatus { raw: set_bit(self.raw, 6, v) }
    }

    /// A byte without a valid stop bit was received.
    #[verifier::allow_in_spec]
    pub fn framing_error(&self) -> bool
        returns
            spec_get_bit(self.raw, 5),
    {
        get_bit(self.raw, 5)
    }

    /// The same value with `framing_error` replaced by `v`.
    #[verifier::allow_in_spec]
    pub fn with_framing_error(self, v: bool) -> RxStatus
        returns
            (RxStatus { raw: spec_set_bit(self.raw, 5, v) }),
    {
        RxStatus { raw: set_bit(self.raw, 5, v) }
    }

    /// A byte was received while the FIFO was full, and is lost.
    #[verifier::allow_in_spec]
    pub fn overrun_error(&self) -> bool
        returns
            spec_get_bit(self.raw, 4),
    {
        get_bit(self.raw, 4)
    }

    /// The same value with `overrun_error` replaced by `v`.
    #[verifier::allow_in_spec]
    pub fn with_overrun_error(self, v: bool) -> RxStatus
        returns
            (RxStatus { raw: spec_set_bit(self.raw, 4, v) }),
    {
        RxStatus { raw: set_bit(self.raw, 4, v) }
    }

    /// Bit 3 of the register.
    #[verifier::allow_in_spec]
    pub fn timeout(&self) -> bool
        returns
            spec_get_bit(self.raw, 3),
    {
        get_bit(self.raw, 3)
    }

    /// The same value with `timeout` replaced by `v`.
    #[verifier::allow_in_spec]
    pub fn with_timeout(self, v: bool) -> RxStatus
        returns
            (RxStatus { raw: spec_set_bit(self.raw, 3, v) }),
    {
        RxStatus { raw: set_bit(self.raw, 3, v) }
    }

    /// Bit 2 of the register.
    #[verifier::allow_in_spec]
    pub fn busy(&self) -> bool
        returns
            spec_get_bit(self.raw, 2),
    {
        get_bit(self.raw, 2)
    }

    /// The same value with `busy` replaced by `v`.
    #[verifier::allow_in_spec]
    pub fn with_busy(self, v: bool) -> RxStatus
        returns
            (RxStatus { raw: spec_set_bit(self.raw, 2, v) }),
    {
        RxStatus { raw: set_bit(self.raw, 2, v) }
    }

    /// Bit 1 of the register.
    #[verifier::allow_in_spec]
    pub fn not_full(&self) -> bool
        returns
            spec_get_bit(self.raw, 1),
    {
        get_bit(self.raw, 1)
    }

    /// The same value with `not_full` replaced by `v`.
    #[verifier::allow_in_spec]
    pub fn with_not_full(self, v: bool) -> RxStatus
        returns
            (RxStatus { raw: spec_set_bit(self.raw, 1, v) }),
    {
        RxStatus { raw: set_bit(self.raw, 1, v) }
    }

    /// Whether the receive FIFO holds a byte.
    #[verifier::allow_in_spec]
    pub fn data_available(&self) -> bool
        returns
            spec_get_bit(self.raw, 0),
    {
        get_bit(self.raw, 0)
    }

    /// The same value with `data_available` replaced by `v`.
    #[verifier::allow_in_spec]
    pub fn with_data_available(self, v: bool) -> RxStatus
        returns
            (RxStatus { raw: spec_set_bit(self.raw, 0, v) }),
    {
        RxStatus { raw: set_bit(self.raw, 0, v) }
    }

    /// After `rx_rtsn` is set, it reads as what was set and every other field as before.
    pub proof fn lemma_with_rx_rtsn(self, v: bool)
        ensures
            self.with_rx_rtsn(v).rx_rtsn() == v,
            self.with_rx_rtsn(v).rx_addr9() == self.rx_addr9(),
            self.with_rx_rtsn(v).busy_break() == self.busy_break(),
            self.with_rx_rtsn(v).break_error() == self.break_error(),
            self.with_rx_rtsn(v).parity_error() == self.parity_error(),
            self.with_rx_rtsn(v).framing_error() == self.framing_error(),
            self.with_rx_rtsn(v).overrun_error() == self.overrun_error(),
            self.with_rx_rtsn(v).timeout() == self.timeout(),
            self.with_rx_rtsn(v).busy() == self.busy(),
            self.with_rx_rtsn(v).not_full() == self.not_full(),
            self.with_rx_rtsn(v).data_available() == self.data_available(),
    {
        lemma_set_bit_get_bit(self.raw, 15, v, 15);
        lemma_set_bit_get_bit(self.raw, 15, v, 9);
        lemma_set_bit_get_bit(self.raw, 15, v, 8);
        lemma_set_bit_get_bit(self.raw, 15, v, 7);
        lemma_set_bit_get_bit(self.raw, 15, v, 6);
        lemma_set_bit_get_bit(self.raw, 15, v, 5);
        lemma_set_bit_get_bit(self.raw, 15, v, 4);
        lemma_set_bit_get_bit(self.raw, 15, v, 3);
        lemma_set_bit_get_bit(self.raw, 15, v, 2);
        lemma_set_bit_get_bit(self.raw, 15, v, 1);
        lemma_set_bit_get_bit(self.raw, 15, v, 0);
    }

    /// After `rx_addr9` is set, it reads as what was set and every other field as before.
    pub proof fn lemma_with_rx_addr9(self, v: bool)
        ensures
            self.with_rx_addr9(v).rx_rtsn() == self.rx_rtsn(),
            self.with_rx_addr9(v).rx_addr9() == v,
            self.with_rx_addr9(v).busy_break() == self.busy_break(),
            self.with_rx_addr9(v).break_error() == self.break_error(),
            self.with_rx_addr9(v).parity_error() == self.parity_error(),
            self.with_rx_addr9(v).framing_error() == self.framing_error(),
            self.with_rx_addr9(v).overrun_error() == self.overrun_error(),
            self.with_rx_addr9(v).timeout() == self.timeout(),
            self.with_rx_addr9(v).busy() == self.busy(),
            self.with_rx_addr9(v).not_full() == self.not_full(),
            self.with_rx_addr9(v).data_available() == self.data_available(),
    {
        lemma_set_bit_get_bit(self.raw, 9, v, 15);
        lemma_set_bit_get_bit(self.raw, 9, v, 9);
        lemma_set_bit_get_bit(self.raw, 9, v, 8);
        lemma_set_bit_get_bit(self.raw, 9, v, 7);
        lemma_set_bit_get_bit(self.raw, 9, v, 6);
        lemma_set_bit_get_bit(self.raw, 9, v, 5);
        lemma_set_bit_get_bit(self.raw, 9, v, 4);
        lemma_set_bit_get_bit(self.raw, 9, v, 3);
        lemma_set_bit_get_bit(self.raw, 9, v, 2);
        lemma_set_bit_get_bit(self.raw, 9, v, 1);
        lemma_set_bit_get_bit(self.raw, 9, v, 0);
    }

    /// After `busy_break` is set, it reads as what was set and every other field as before.
    pub proof fn lemma_with_busy_break(self, v: bool)
        ensures
            self.with_busy_break(v).rx_rtsn() == self.rx_rtsn(),
            self.with_busy_break(v).rx_addr9() == self.rx_addr9(),
            self.with_busy_break(v).busy_break() == v,
            self.with_busy_break(v).break_error() == self.break_error(),
            self.with_busy_break(v).parity_error() == self.parity_error(),
            self.with_busy_break(v).framing_error() == self.framing_error(),
            self.with_busy_break(v).overrun_error() == self.overrun_error(),
            self.with_busy_break(v).timeout() == self.timeout(),
            self.with_busy_break(v).busy() == self.busy(),
            self.with_busy_break(v).not_full() == self.not_full(),
            self.with_busy_break(v).data_available() == self.data_available(),
    {
        lemma_set_bit_get_bit(self.raw, 8, v, 15);
        lemma_set_bit_get_bit(self.raw, 8, v, 9);
        lemma_set_bit_get_bit(self.raw, 8, v, 8);
        lemma_set_bit_get_bit(self.raw, 8, v, 7);
        lemma_set_bit_get_bit(self.raw, 8, v, 6);
        lemma_set_bit_get_bit(self.raw, 8, v, 5);
        lemma_set_bit_get_bit(self.raw, 8, v, 4);
        lemma_set_bit_get_bit(self.raw, 8, v, 3);
        lemma_set_bit_get_bit(self.raw, 8, v, 2);
        lemma_set_bit_get_bit(self.raw, 8, v, 1);
        lemma_set_bit_get_bit(self.raw, 8, v, 0);
    }

    /// After `break_error` is set, it reads as what was set and every other field as before.
    pub proof fn lemma_with_break_error(self, v: bool)
        ensures
            self.with_break_error(v).rx_rtsn() == self.rx_rtsn(),
            self.with_break_error(v).rx_addr9() == self.rx_addr9(),
            self.with_break_error(v).busy_break() == self.busy_break(),
            self.with_break_error(v).break_error() == v,
            self.with_break_error(v).parity_error() == self.parity_error(),
            self.with_break_error(v).framing_error() == self.framing_error(),
            self.with_break_error(v).overrun_error() == self.overrun_error(),
            self.with_break_error(v).timeout() == self.timeout(),
            self.with_break_error(v).busy() == self.busy(),
            self.with_break_error(v).not_full() == self.not_full(),
            self.with_break_error(v).data_available() == self.data_available(),
    {
        lemma_set_bit_get_bit(self.raw, 7, v, 15);
        lemma_set_bit_get_bit(self.raw, 7, v, 9);
        lemma_set_bit_get_bit(self.raw, 7, v, 8);
        lemma_set_bit_get_bit(self.raw, 7, v, 7);
        lemma_set_bit_get_bit(self.raw, 7, v, 6);
        lemma_set_bit_get_bit(self.raw, 7, v, 5);
        lemma_set_bit_get_bit(self.raw, 7, v, 4);
        lemma_set_bit_get_bit(self.raw, 7, v, 3);
        lemma_set_bit_get_bit(self.raw, 7, v, 2);
        lemma_set_bit_get_bit(self.raw, 7, v, 1);
        lemma_set_bit_get_bit(self.raw, 7, v, 0);
    }

    /// After `parity_error` is set, it reads as what was set and every other field as before.
    pub proof fn lemma_with_parity_error(self, v: bool)
        ensures
            self.with_parity_error(v).rx_rtsn() == self.rx_rtsn(),
            self.with_parity_error(v).rx_addr9() == self.rx_addr9(),
            self.with_parity_error(v).busy_break() == self.busy_break(),
            self.with_parity_error(v).break_error() == self.break_error(),
            self.with_parity_error(v).parity_error() == v,
            self.with_parity_error(v).framing_error() == self.framing_error(),
            self.with_parity_error(v).overrun_error() == self.overrun_error(),
            self.with_parity_error(v).timeout() == self.timeout(),
            self.with_parity_error(v).busy() == self.busy(),
            self.with_parity_error(v).not_full() == self.not_full(),
            self.with_parity_error(v).data_available() == self.data_available(),
    {
        lemma_set_bit_get_bit(self.raw, 6, v, 15);
        lemma_set_bit_get_bit(self.raw, 6, v, 9);
        lemma_set_bit_get_bit(self.raw, 6, v, 8);
        lemma_set_bit_get_bit(self.raw, 6, v, 7);
        lemma_set_bit_get_bit(self.raw, 6, v, 6);
        lemma_set_bit_get_bit(self.raw, 6, v, 5);
        lemma_set_bit_get_bit(self.raw, 6, v, 4);
        lemma_set_bit_get_bit(self.raw, 6, v, 3);
        lemma_set_bit_get_bit(self.raw, 6, v, 2);
        lemma_set_bit_get_bit(self.raw, 6, v, 1);
        lemma_set_bit_get_bit(self.raw, 6, v, 0);
    }

    /// After `framing_error` is set, it reads as what was set and every other field as before.
    pub proof fn lemma_with_framing_error(self, v: bool)
        ensures
            self.with_framing_error(v).rx_rtsn() == self.rx_rtsn(),
            self.with_framing_error(v).rx_addr9() == self.rx_addr9(),
            self.with_framing_error(v).busy_break() == self.busy_break(),
            self.with_framing_error(v).break_error() == self.break_error(),
            self.with_framing_error(v).parity_error() == self.parity_error(),
            self.with_framing_error(v).framing_error() == v,
            self.with_framing_error(v).overrun_error() == self.overrun_error(),
            self.with_framing_error(v).timeout() == self.timeout(),
            self.with_framing_error(v).busy() == self.busy(),
            self.with_framing_error(v).not_full() == self.not_full(),
            self.with_framing_error(v).data_available() == self.data_available(),
    {
        lemma_set_bit_get_bit(self.raw, 5, v, 15);
        lemma_set_bit_get_bit(self.raw, 5, v, 9);
        lemma_set_bit_get_bit(self.raw, 5, v, 8);
        lemma_set_bit_get_bit(self.raw, 5, v, 7);
        lemma_set_bit_get_bit(self.raw, 5, v, 6);
        lemma_set_bit_get_bit(self.raw, 5, v, 5);
        lemma_set_bit_get_bit(self.raw, 5, v, 4);
        lemma_set_bit_get_bit(self.raw, 5, v, 3);
        lemma_set_bit_get_bit(self.raw, 5, v, 2);
        lemma_set_bit_get_bit(self.raw, 5, v, 1);
        lemma_set_bit_get_bit(self.raw, 5, v, 0);
    }

    /// After `overrun_error` is set, it reads as what was set and every other field as before.
    pub proof fn lemma_with_overrun_error(self, v: bool)
        ensures
            self.with_overrun_error(v).rx_rtsn() == self.rx_rtsn(),
            self.with_overrun_error(v).rx_addr9() == self.rx_addr9(),
            self.with_overrun_error(v).busy_break() == self.busy_break(),
            self.with_overrun_error(v).break_error() == self.break_error(),
            self.with_overrun_error(v).parity_error() == self.parity_error(),
            self.with_overrun_error(v).framing_error() == self.framing_error(),
            self.with_overrun_error(v).overrun_error() == v,
            self.with_overrun_error(v).timeout() == self.timeout(),
            self.with_overrun_error(v).busy() == self.busy(),
            self.with_overrun_error(v).not_full() == self.not_full(),
            self.with_overrun_error(v).data_available() == self.data_available(),
    {
        lemma_set_bit_get_bit(self.raw, 4, v, 15);
        lemma_set_bit_get_bit(self.raw, 4, v, 9);
        lemma_set_bit_get_bit(self.raw, 4, v, 8);
        lemma_set_bit_get_bit(self.raw, 4, v, 7);
        lemma_set_bit_get_bit(self.raw, 4, v, 6);
        lemma_set_bit_get_bit(self.raw, 4, v, 5);
        lemma_set_bit_get_bit(self.raw, 4, v, 4);
        lemma_set_bit_get_bit(self.raw, 4, v, 3);
        lemma_set_bit_get_bit(self.raw, 4, v, 2);
        lemma_set_bit_get_bit(self.raw, 4, v, 1);
        lemma_set_bit_get_bit(self.raw, 4, v, 0);
    }

    /// After `timeout` is set, it reads as what was set and every other field as before.
    pub proof fn lemma_with_timeout(self, v: bool)
        ensures
            self.with_timeout(v).rx_rtsn() == self.rx_rtsn(),
            self.with_timeout(v).rx_addr9() == self.rx_addr9(),
            self.with_timeout(v).busy_break() == self.busy_break(),
            self.with_timeout(v).break_error() == self.break_error(),
            self.with_timeout(v).parity_error() == self.parity_error(),
            self.with_timeout(v).framing_error() == self.framing_error(),
            self.with_timeout(v).overrun_error() == self.overrun_error(),
            self.with_timeout(v).timeout() == v,
            self.with_timeout(v).busy() == self.busy(),
            self.with_timeout(v).not_full() == self.not_full(),
            self.with_timeout(v).data_available() == self.data_available(),
    {
        lemma_set_bit_get_bit(self.raw, 3, v, 15);
        lemma_set_bit_get_bit(self.raw, 3, v, 9);
        lemma_set_bit_get_bit(self.raw, 3, v, 8);
        lemma_set_bit_get_bit(self.raw, 3, v, 7);
        lemma_set_bit_get_bit(self.raw, 3, v, 6);
        lemma_set_bit_get_bit(self.raw, 3, v, 5);
        lemma_set_bit_get_bit(self.raw, 3, v, 4);
        lemma_set_bit_get_bit(self.raw, 3, v, 3);
        lemma_set_bit_get_bit(self.raw, 3, v, 2);
        lemma_set_bit_get_bit(self.raw, 3, v, 1);
        lemma_set_bit_get_bit(self.raw, 3, v, 0);
    }

    /// After `busy` is set, it reads as what was set and every other field as before.
    pub proof fn lemma_with_busy(self, v: bool)
        ensures
            self.with_busy(v).rx_rtsn() == self.rx_rtsn(),
            self.with_busy(v).rx_addr9() == self.rx_addr9(),
            self.with_busy(v).busy_break() == self.busy_break(),
            self.with_busy(v).break_error() == self.break_error(),
            self.with_busy(v).parity_error() == self.parity_error(),
            self.with_busy(v).framing_error() == self.framing_error(),
            self.with_busy(v).overrun_error() == self.overrun_error(),
            self.with_busy(v).timeout() == self.timeout(),
            self.with_busy(v).busy() == v,
            self.with_busy(v).not_full() == self.not_full(),
            self.with_busy(v).data_available() == self.data_available(),
    {
        lemma_set_bit_get_bit(self.raw, 2, v, 15);
        lemma_set_bit_get_bit(self.raw, 2, v, 9);
        lemma_set_bit_get_bit(self.raw, 2, v, 8);
        lemma_set_bit_get_bit(self.raw, 2, v, 7);
        lemma_set_bit_get_bit(self.raw, 2, v, 6);
        lemma_set_bit_get_bit(self.raw, 2, v, 5);
        lemma_set_bit_get_bit(self.raw, 2, v, 4);
        lemma_set_bit_get_bit(self.raw, 2, v, 3);
        lemma_set_bit_get_bit(self.raw, 2, v, 2);
        lemma_set_bit_get_bit(self.raw, 2, v, 1);
        lemma_set_bit_get_bit(self.raw, 2, v, 0);
    }

    /// After `not_full` is set, it reads as what was set and every other field as before.
    pub proof fn lemma_with_not_full(self, v: bool)
        ensures
            self.with_not_full(v).rx_rtsn() == self.rx_rtsn(),
            self.with_not_full(v).rx_addr9() == self.rx_addr9(),
            self.with_not_full(v).busy_break() == self.busy_break(),
            self.with_not_full(v).break_error() == self.break_error(),
            self.with_not_full(v).parity_error() == self.parity_error(),
            self.with_not_full(v).framing_error() == self.framing_error(),
            self.with_not_full(v).overrun_error() == self.overrun_error(),
            self.with_not_full(v).timeout() == self.timeout(),
            self.with_not_full(v).busy() == self.busy(),
            self.with_not_full(v).not_full() == v,
            self.with_not_full(v).data_available() == self.data_available(),
    {
        lemma_set_bit_get_bit(self.raw, 1, v, 15);
        lemma_set_bit_get_bit(self.raw, 1, v, 9);
        lemma_set_bit_get_bit(self.raw, 1, v, 8);
        lemma_set_bit_get_bit(self.raw, 1, v, 7);
        lemma_set_bit_get_bit(self.raw, 1, v, 6);
        lemma_set_bit_get_bit(self.raw, 1, v, 5);
        lemma_set_bit_get_bit(self.raw, 1, v, 4);
        lemma_set_bit_get_bit(self.raw, 1, v, 3);
        lemma_set_bit_get_bit(self.raw, 1, v, 2);
        lemma_set_bit_get_bit(self.raw, 1, v, 1);
        lemma_set_bit_get_bit(self.raw, 1, v, 0);
    }

    /// After `data_available` is set, it reads as what was set and every other field as before.
    pub proof fn lemma_with_data_available(self, v: bool)
        ensures
            self.with_data_available(v).rx_rtsn() == self.rx_rtsn(),
            self.with_data_available(v).rx_addr9() == self.rx_addr9(),
            self.with_data_available(v).busy_break() == self.busy_break(),
            self.with_data_available(v).break_error() == self.break_error(),
            self.with_data_available(v).parity_error() == self.parity_error(),
            self.with_data_available(v).framing_error() == self.framing_error(),
            self.with_data_available(v).overrun_error() == self.overrun_error(),
            self.with_data_available(v).timeout() == self.timeout(),
            self.with_data_available(v).busy() == self.busy(),
            self.with_data_available(v).not_full() == self.not_full(),
            self.with_data_available(v).data_available() == v,
    {
        lemma_set_bit_get_bit(self.raw, 0, v, 15);
        lemma_set_bit_get_bit(self.raw, 0, v, 9);
        lemma_set_bit_get_bit(self.raw, 0, v, 8);
        lemma_set_bit_get_bit(self.raw, 0, v, 7);
        lemma_set_bit_get_bit(self.raw, 0, v, 6);
        lemma_set_bit_get_bit(self.raw, 0, v, 5);
        lemma_set_bit_get_bit(self.raw, 0, v, 4);
        lemma_set_bit_get_bit(self.raw, 0, v, 3);
        lemma_set_bit_get_bit(self.raw, 0, v, 2);
        lemma_set_bit_get_bit(self.raw, 0, v, 1);
        lemma_set_bit_get_bit(self.raw, 0, v, 0);
    }
}

/// The status register of the transmitter.
#[derive(Debug, Clone, Copy, PartialEq, Eq, Structural)]
pub struct TxStatus {
    pub raw: u32,
}

impl TxStatus {
    /// The register value with the bits `raw`.
    #[verifier::allow_in_spec]
    pub fn new_with_raw_value(raw: u32) -> TxStatus
        returns
            (TxStatus { raw }),
    {
        TxStatus { raw }
    }

    /// The bits of the register value.
    #[verifier::allow_in_spec]
    pub fn raw_value(&self) -> u32
        returns
            self.raw,
    {
        self.raw
    }

    /// Bit 15 of the register.
    #[verifier::allow_in_spec]
    pub fn tx_ctsn(&self) -> bool
        returns
            spec_get_bit(self.raw, 15),
    {
        get_bit(self.raw, 15)
    }

    /// The same value with `tx_ctsn` replaced by `v`.
    #[verifier::allow_in_spec]
    pub fn with_tx_ctsn(self, v: bool) -> TxStatus
        returns
            (TxStatus { raw: spec_set_bit(self.raw, 15, v) }),
    {
        TxStatus { raw: set_bit(self.raw, 15, v) }
    }

    /// A byte was written while the FIFO was full, and is lost.
    #[verifier::allow_in_spec]
    pub fn wr_lost(&self) -> bool
        returns
            spec_get_bit(self.raw, 3),
    {
        get_bit(self.raw, 3)
    }

    /// The same value with `wr_lost` replaced by `v`.
    #[verifier::allow_in_spec]
    pub fn with_wr_lost(self, v: bool) -> TxStatus
        returns
            (TxStatus { raw: spec_set_bit(self.raw, 3, v) }),
    {
        TxStatus { raw: set_bit(self.raw, 3, v) }
    }

    /// Whether the transmitter is sending.
    #[verifier::allow_in_spec]
    pub fn tx_busy(&self) -> bool
        returns
            spec_get_bit(self.raw, 2),
    {
        get_bit(self.raw, 2)
    }

    /// The same value with `tx_busy` replaced by `v`.
    #[verifier::allow_in_spec]
    pub fn with_tx_busy(self, v: bool) -> TxStatus
        returns
            (TxStatus { raw: spec_set_bit(self.raw, 2, v) }),
    {
        TxStatus { raw: set_bit(self.raw, 2, v) }
    }

    /// Bit 1 of the register.
    #[verifier::allow_in_spec]
    pub fn write_busy(&self) -> bool
        returns
            spec_get_bit(self.raw, 1),
    {
        get_bit(self.raw, 1)
    }

    /// The same value with `write_busy` replaced by `v`.
    #[verifier::allow_in_spec]
    pub fn with_write_busy(self, v: bool) -> TxStatus
        returns
            (TxStatus { raw: spec_set_bit(self.raw, 1, v) }),
    {
        TxStatus { raw: set_bit(self.raw, 1, v) }
    }

    /// Whether there is room in the transmit FIFO for a byte.
    #[verifier::allow_in_spec]
    pub fn ready(&self) -> bool
        returns
            spec_get_bit(self.raw, 0),
    {
        get_bit(self.raw, 0)
    }

    /// The same value with `ready` replaced by `v`.
    #[verifier::allow_in_spec]
    pub fn with_ready(self, v: bool) -> TxStatus
        returns
            (TxStatus { raw: spec_set_bit(self.raw, 0, v) }),
    {
        TxStatus { raw: set_bit(self.raw, 0, v) }
    }

    /// After `tx_ctsn` is set, it reads as what was set and every other field as before.
    pub proof fn lemma_with_tx_ctsn(self, v: bool)
        ensures
            self.with_tx_ctsn(v).tx_ctsn() == v,
            self.with_tx_ctsn(v).wr_lost() == self.wr_lost(),
            self.with_tx_ctsn(v).tx_busy() == self.tx_busy(),
            self.with_tx_ctsn(v).write_busy() == self.write_busy(),
            self.with_tx_ctsn(v).ready() == self.ready(),
    {
        lemma_set_bit_get_bit(self.raw, 15, v, 15);
        lemma_set_bit_get_bit(self.raw, 15, v, 3);
        lemma_set_bit_get_bit(self.raw, 15, v, 2);
        lemma_set_bit_get_bit(self.raw, 15, v, 1);
        lemma_set_bit_get_bit(self.raw, 15, v, 0);
    }

    /// After `wr_lost` is set, it reads as what was set and every other field as before.
    pub proof fn lemma_with_wr_lost(self, v: bool)
        ensures
            self.with_wr_lost(v).tx_ctsn() == self.tx_ctsn(),
            self.with_wr_lost(v).wr_lost() == v,
            self.with_wr_lost(v).tx_busy() == self.tx_busy(),
            self.with_wr_lost(v).write_busy() == self.write_busy(),
            self.with_wr_lost(v).ready() == self.ready(),
    {
        lemma_set_bit_get_bit(self.raw, 3, v, 15);
        lemma_set_bit_get_bit(self.raw, 3, v, 3);
        lemma_set_bit_get_bit(self.raw, 3, v, 2);
        lemma_set_bit_get_bit(self.raw, 3, v, 1);
        lemma_set_bit_get_bit(self.raw, 3, v, 0);
    }

    /// After `tx_busy` is set, it reads as what was set and every other field as before.
    pub proof fn lemma_with_tx_busy(self, v: bool)
        ensures
            self.with_tx_busy(v).tx_ctsn() == self.tx_ctsn(),
            self.with_tx_busy(v).wr_lost() == self.wr_lost(),
            self.with_tx_busy(v).tx_busy() == v,
            self.with_tx_busy(v).write_busy() == self.write_busy(),
            self.with_tx_busy(v).ready() == self.ready(),
    {
        lemma_set_bit_get_bit(self.raw, 2, v, 15);
        lemma_set_bit_get_bit(self.raw, 2, v, 3);
        lemma_set_bit_get_bit(self.raw, 2, v, 2);
        lemma_set_bit_get_bit(self.raw, 2, v, 1);
        lemma_set_bit_get_bit(self.raw, 2, v, 0);
    }

    /// After `write_busy` is set, it reads as what was set and every other field as before.
    pub proof fn lemma_with_write_busy(self, v: bool)
        ensures
            self.with_write_busy(v).tx_ctsn() == self.tx_ctsn(),
            self.with_write_busy(v).wr_lost() == self.wr_lost(),
            self.with_write_busy(v).tx_busy() == self.tx_busy(),
            self.with_write_busy(v).write_busy() == v,
            self.with_write_busy(v).ready() == self.ready(),
    {
        lemma_set_bit_get_bit(self.raw, 1, v, 15);
        lemma_set_bit_get_bit(self.raw, 1, v, 3);
        lemma_set_bit_get_bit(self.raw, 1, v, 2);
        lemma_set_bit_get_bit(self.raw, 1, v, 1);
        lemma_set_bit_get_bit(self.raw, 1, v, 0);
    }

    /// After `ready` is set, it reads as what was set and every other field as before.
    pub proof fn lemma_with_ready(self, v: bool)
        ensures
            self.with_ready(v).tx_ctsn() == self.tx_ctsn(),
            self.with_ready(v).wr_lost() == self.wr_lost(),
            self.with_ready(v).tx_busy() == self.tx_busy(),
            self.with_ready(v).write_busy() == self.write_busy(),
            self.with_ready(v).ready() == v,
    {
        lemma_set_bit_get_bit(self.raw, 0, v, 15);
        lemma_set_bit_get_bit(self.raw, 0, v, 3);
        lemma_set_bit_get_bit(self.raw, 0, v, 2);
        lemma_set_bit_get_bit(self.raw, 0, v, 1);
        lemma_set_bit_get_bit(self.raw, 0, v, 0);
    }
}

/// What is written to the FIFO clear register.
#[derive(Debug, Clone, Copy, PartialEq, Eq, Structural)]
pub struct FifoClear {
    pub raw: u32,
}

impl FifoClear {
    /// The register value with the bits `raw`.
    #[verifier::allow_in_spec]
    pub fn new_with_raw_value(raw: u32) -> FifoClear
        returns
            (FifoClear { raw }),
    {
        FifoClear { raw }
    }

    /// The bits of the register value.
    #[verifier::allow_in_spec]
    pub fn raw_value(&self) -> u32
        returns
            self.raw,
    {
        self.raw
    }

    /// Clears the transmit FIFO.
    #[verifier::allow_in_spec]
    pub fn tx(&self) -> bool
        returns
            spec_get_bit(self.raw, 1),
    {
        get_bit(self.raw, 1)
    }

    /// The same value with `tx` replaced by `v`.
    #[verifier::allow_in_spec]
    pub fn with_tx(self, v: bool) -> FifoClear
        returns
            (FifoClear { raw: spec_set_bit(self.raw, 1, v) }),
    {
        FifoClear { raw: set_bit(self.raw, 1, v) }
    }

    /// Clears the receive FIFO.
    #[verifier::allow_in_spec]
    pub fn rx(&self) -> bool
        returns
            spec_get_bit(self.raw, 0),
    {
        get_bit(self.raw, 0)
    }

    /// The same value with `rx` replaced by `v`.
    #[verifier::allow_in_spec]
    pub fn with_rx(self, v: bool) -> FifoClear
        returns
            (FifoClear { raw: spec_set_bit(self.raw, 0, v) }),
    {
        FifoClear { raw: set_bit(self.raw, 0, v) }
    }

    /// After `tx` is set, it reads as what was set and every other field as before.
    pub proof fn lemma_with_tx(self, v: bool)
        ensures
            self.with_tx(v).tx() == v,
            self.with_tx(v).rx() == self.rx(),
    {
        lemma_set_bit_get_bit(self.raw, 1, v, 1);
        lemma_set_bit_get_bit(self.raw, 1, v, 0);
    }

    /// After `rx` is set, it reads as what was set and every other field as before.
    pub proof fn lemma_with_rx(self, v: bool)
        ensures
            self.with_rx(v).tx() == self.tx(),
            self.with_rx(v).rx() == v,
    {
        lemma_set_bit_get_bit(self.raw, 0, v, 1);
        lemma_set_bit_get_bit(self.raw, 0, v, 0);
    }
}

/// The interrupt enable register of a UART.
#[derive(Debug, Clone, Copy, PartialEq, Eq, Structural)]
pub struct InterruptControl {
    pub raw: u32,
}

impl InterruptControl {
    /// The register value with the bits `raw`.
    #[verifier::allow_in_spec]
    pub fn new_with_raw_value(raw: u32) -> InterruptControl
        returns
            (InterruptControl { raw }),
    {
        InterruptControl { raw }
    }

    /// The bits of the register value.
    #[verifier::allow_in_spec]
    pub fn raw_value(&self) -> u32
        returns
            self.raw,
    {
        self.raw
    }

    /// The receive FIFO is at least half full: it holds as many bytes as its trigger level
    /// says, or more.
    #[verifier::allow_in_spec]
    pub fn rx(&self) -> bool
        returns
            spec_get_bit(self.raw, 0),
    {
        get_bit(self.raw, 0)
    }

    /// The same value with `rx` replaced by `v`.
    #[verifier::allow_in_spec]
    pub fn with_rx(self, v: bool) -> InterruptControl
        returns
            (InterruptControl { raw: spec_set_bit(self.raw, 0, v) }),
    {
        InterruptControl { raw: set_bit(self.raw, 0, v) }
    }

    /// A status condition of the receiver: overrun, framing, parity or break.
    #[verifier::allow_in_spec]
    pub fn rx_status(&self) -> bool
        returns
            spec_get_bit(self.raw, 1),
    {
        get_bit(self.raw, 1)
    }

    /// The same value with `rx_status` replaced by `v`.
    #[verifier::allow_in_spec]
    pub fn with_rx_status(self, v: bool) -> InterruptControl
        returns
            (InterruptControl { raw: spec_set_bit(self.raw, 1, v) }),
    {
        InterruptControl { raw: set_bit(self.raw, 1, v) }
    }

    /// Bytes have waited in the receive FIFO for four character times without a new one.
    #[verifier::allow_in_spec]
    pub fn rx_timeout(&self) -> bool
        returns
            spec_get_bit(self.raw, 2),
    {
        get_bit(self.raw, 2)
    }

    /// The same value with `rx_timeout` replaced by `v`.
    #[verifier::allow_in_spec]
    pub fn with_rx_timeout(self, v: bool) -> InterruptControl
        returns
            (InterruptControl { raw: spec_set_bit(self.raw, 2, v) }),
    {
        InterruptControl { raw: set_bit(self.raw, 2, v) }
    }

    /// The transmit FIFO is at least half empty: it holds fewer bytes than its trigger
    /// level says.
    #[verifier::allow_in_spec]
    pub fn tx(&self) -> bool
        returns
            spec_get_bit(self.raw, 4),
    {
        get_bit(self.raw, 4)
    }

    /// The same value with `tx` replaced by `v`.
    #[verifier::allow_in_spec]
    pub fn with_tx(self, v: bool) -> InterruptControl
        returns
            (InterruptControl { raw: spec_set_bit(self.raw, 4, v) }),
    {
        InterruptControl { raw: set_bit(self.raw, 4, v) }
    }

    /// The transmit FIFO has overflowed.
    #[verifier::allow_in_spec]
    pub fn tx_status(&self) -> bool
        returns
            spec_get_bit(self.raw, 5),
    {
        get_bit(self.raw, 5)
    }

    /// The same value with `tx_status` replaced by `v`.
    #[verifier::allow_in_spec]
    pub fn with_tx_status(self, v: bool) -> InterruptControl
        returns
            (InterruptControl { raw: spec_set_bit(self.raw, 5, v) }),
    {
        InterruptControl { raw: set_bit(self.raw, 5, v) }
    }

    /// The transmit FIFO is empty and the transmitter is idle.
    #[verifier::allow_in_spec]
    pub fn tx_empty(&self) -> bool
        returns
            spec_get_bit(self.raw, 6),
    {
        get_bit(self.raw, 6)
    }

    /// The same value with `tx_empty` replaced by `v`.
    #[verifier::allow_in_spec]
    pub fn with_tx_empty(self, v: bool) -> InterruptControl
        returns
            (InterruptControl { raw: spec_set_bit(self.raw, 6, v) }),
    {
        InterruptControl { raw: set_bit(self.raw, 6, v) }
    }

    /// The CTS line has changed.
    #[verifier::allow_in_spec]
    pub fn tx_cts(&self) -> bool
        returns
            spec_get_bit(self.raw, 7),
    {
        get_bit(self.raw, 7)
    }

    /// The same value with `tx_cts` replaced by `v`.
    #[verifier::allow_in_spec]
    pub fn with_tx_cts(self, v: bool) -> InterruptControl
        returns
            (InterruptControl { raw: spec_set_bit(self.raw, 7, v) }),
    {
        InterruptControl { raw: set_bit(self.raw, 7, v) }
    }

    /// After `rx` is set, it reads as what was set and every other field as before.
    pub proof fn lemma_with_rx(self, v: bool)
        ensures
            self.with_rx(v).rx() == v,
            self.with_rx(v).rx_status() == self.rx_status(),
            self.with_rx(v).rx_timeout() == self.rx_timeout(),
            self.with_rx(v).tx() == self.tx(),
            self.with_rx(v).tx_status() == self.tx_status(),
            self.with_rx(v).tx_empty() == self.tx_empty(),
            self.with_rx(v).tx_cts() == self.tx_cts(),
    {
        lemma_set_bit_get_bit(self.raw, 0, v, 0);
        lemma_set_bit_get_bit(self.raw, 0, v, 1);
        lemma_set_bit_get_bit(self.raw, 0, v, 2);
        lemma_set_bit_get_bit(self.raw, 0, v, 4);
        lemma_set_bit_get_bit(self.raw, 0, v, 5);
        lemma_set_bit_get_bit(self.raw, 0, v, 6);
        lemma_set_bit_get_bit(self.raw, 0, v, 7);
    }

    /// After `rx_status` is set, it reads as what was set and every other field as before.
    pub proof fn lemma_with_rx_status(self, v: bool)
        ensures
            self.with_rx_status(v).rx() == self.rx(),
            self.with_rx_status(v).rx_status() == v,
            self.with_rx_status(v).rx_timeout() == self.rx_timeout(),
            self.with_rx_status(v).tx() == self.tx(),
            self.with_rx_status(v).tx_status() == self.tx_status(),
            self.with_rx_status(v).tx_empty() == self.tx_empty(),
            self.with_rx_status(v).tx_cts() == self.tx_cts(),
    {
        lemma_set_bit_get_bit(self.raw, 1, v, 0);
        lemma_set_bit_get_bit(self.raw, 1, v, 1);
        lemma_set_bit_get_bit(self.raw, 1, v, 2);
        lemma_set_bit_get_bit(self.raw, 1, v, 4);
        lemma_set_bit_get_bit(self.raw, 1, v, 5);
        lemma_set_bit_get_bit(self.raw, 1, v, 6);
        lemma_set_bit_get_bit(self.raw, 1, v, 7);
    }

    /// After `rx_timeout` is set, it reads as what was set and every other field as before.
    pub proof fn lemma_with_rx_timeout(self, v: bool)
        ensures
            self.with_rx_timeout(v).rx() == self.rx(),
            self.with_rx_timeout(v).rx_status() == self.rx_status(),
            self.with_rx_timeout(v).rx_timeout() == v,
            self.with_rx_timeout(v).tx() == self.tx(),
            self.with_rx_timeout(v).tx_status() == self.tx_status(),
            self.with_rx_timeout(v).tx_empty() == self.tx_empty(),
            self.with_rx_timeout(v).tx_cts() == self.tx_cts(),
    {
        lemma_set_bit_get_bit(self.raw, 2, v, 0);
        lemma_set_bit_get_bit(self.raw, 2, v, 1);
        lemma_set_bit_get_bit(self.raw, 2, v, 2);
        lemma_set_bit_get_bit(self.raw, 2, v, 4);
        lemma_set_bit_get_bit(self.raw, 2, v, 5);
        lemma_set_bit_get_bit(self.raw, 2, v, 6);
        lemma_set_bit_get_bit(self.raw, 2, v, 7);
    }

    /// After `tx` is set, it reads as what was set and every other field as before.
    pub proof fn lemma_with_tx(self, v: bool)
        ensures
            self.with_tx(v).rx() == self.rx(),
            self.with_tx(v).rx_status() == self.rx_status(),
            self.with_tx(v).rx_timeout() == self.rx_timeout(),
            self.with_tx(v).tx() == v,
            self.with_tx(v).tx_status() == self.tx_status(),
            self.with_tx(v).tx_empty() == self.tx_empty(),
            self.with_tx(v).tx_cts() == self.tx_cts(),
    {
        lemma_set_bit_get_bit(self.raw, 4, v, 0);
        lemma_set_bit_get_bit(self.raw, 4, v, 1);
        lemma_set_bit_get_bit(self.raw, 4, v, 2);
        lemma_set_bit_get_bit(self.raw, 4, v, 4);
        lemma_set_bit_get_bit(self.raw, 4, v, 5);
        lemma_set_bit_get_bit(self.raw, 4, v, 6);
        lemma_set_bit_get_bit(self.raw, 4, v, 7);
    }

    /// After `tx_status` is set, it reads as what was set and every other field as before.
    pub proof fn lemma_with_tx_status(self, v: bool)
        ensures
            self.with_tx_status(v).rx() == self.rx(),
            self.with_tx_status(v).rx_status() == self.rx_status(),
            self.with_tx_status(v).rx_timeout() == self.rx_timeout(),
            self.with_tx_status(v).tx() == self.tx(),
            self.with_tx_status(v).tx_status() == v,
            self.with_tx_status(v).tx_empty() == self.tx_empty(),
            self.with_tx_status(v).tx_cts() == self.tx_cts(),
    {
        lemma_set_bit_get_bit(self.raw, 5, v, 0);
        lemma_set_bit_get_bit(self.raw, 5, v, 1);
        lemma_set_bit_get_bit(self.raw, 5, v, 2);
        lemma_set_bit_get_bit(self.raw, 5, v, 4);
        lemma_set_bit_get_bit(self.raw, 5, v, 5);
        lemma_set_bit_get_bit(self.raw, 5, v, 6);
        lemma_set_bit_get_bit(self.raw, 5, v, 7);
    }

    /// After `tx_empty` is set, it reads as what was set and every other field as before.
    pub proof fn lemma_with_tx_empty(self, v: bool)
        ensures
            self.with_tx_empty(v).rx() == self.rx(),
            self.with_tx_empty(v).rx_status() == self.rx_status(),
            self.with_tx_empty(v).rx_timeout() == self.rx_timeout(),
            self.with_tx_empty(v).tx() == self.tx(),
            self.with_tx_empty(v).tx_status() == self.tx_status(),
            self.with_tx_empty(v).tx_empty() == v,
            self.with_tx_empty(v).tx_cts() == self.tx_cts(),
    {
        lemma_set_bit_get_bit(self.raw, 6, v, 0);
        lemma_set_bit_get_bit(self.raw, 6, v, 1);
        lemma_set_bit_get_bit(self.raw, 6, v, 2);
        lemma_set_bit_get_bit(self.raw, 6, v, 4);
        lemma_set_bit_get_bit(self.raw, 6, v, 5);
        lemma_set_bit_get_bit(self.raw, 6, v, 6);
        lemma_set_bit_get_bit(self.raw, 6, v, 7);
    }

    /// After `tx_cts` is set, it reads as what was set and every other field as before.
    pub proof fn lemma_with_tx_cts(self, v: bool)
        ensures
            self.with_tx_cts(v).rx() == self.rx(),
            self.with_tx_cts(v).rx_status() == self.rx_status(),
            self.with_tx_cts(v).rx_timeout() == self.rx_timeout(),
            self.with_tx_cts(v).tx() == self.tx(),
            self.with_tx_cts(v).tx_status() == self.tx_status(),
            self.with_tx_cts(v).tx_empty() == self.tx_empty(),
            self.with_tx_cts(v).tx_cts() == v,
    {
        lemma_set_bit_get_bit(self.raw, 7, v, 0);
        lemma_set_bit_get_bit(self.raw, 7, v, 1);
        lemma_set_bit_get_bit(self.raw, 7, v, 2);
        lemma_set_bit_get_bit(self.raw, 7, v, 4);
        lemma_set_bit_get_bit(self.raw, 7, v, 5);
        lemma_set_bit_get_bit(self.raw, 7, v, 6);
        lemma_set_bit_get_bit(self.raw, 7, v, 7);
    }
}

/// An interrupt status register of a UART.
#[derive(Debug, Clone, Copy, PartialEq, Eq, Structural)]
pub struct InterruptStatus {
    pub raw: u32,
}

impl InterruptStatus {
    /// The register value with the bits `raw`.
    #[verifier::allow_in_spec]
    pub fn new_with_raw_value(raw: u32) -> InterruptStatus
        returns
            (InterruptStatus { raw }),
    {
        InterruptStatus { raw }
    }

    /// The bits of the register value.
    #[verifier::allow_in_spec]
    pub fn raw_value(&self) -> u32
        returns
            self.raw,
    {
        self.raw
    }

    /// The receive FIFO is at least half full: it holds as many bytes as its trigger level
    /// says, or more.
    #[verifier::allow_in_spec]
    pub fn rx(&self) -> bool
        returns
            spec_get_bit(self.raw, 0),
    {
        get_bit(self.raw, 0)
    }

    /// The same value with `rx` replaced by `v`.
    #[verifier::allow_in_spec]
    pub fn with_rx(self, v: bool) -> InterruptStatus
        returns
            (InterruptStatus { raw: spec_set_bit(self.raw, 0, v) }),
    {
        InterruptStatus { raw: set_bit(self.raw, 0, v) }
    }

    /// A status condition of the receiver: overrun, framing, parity or break.
    #[verifier::allow_in_spec]
    pub fn rx_status(&self) -> bool
        returns
            spec_get_bit(self.raw, 1),
    {
        get_bit(self.raw, 1)
    }

    /// The same value with `rx_status` replaced by `v`.
    #[verifier::allow_in_spec]
    pub fn with_rx_status(self, v: bool) -> InterruptStatus
        returns
            (InterruptStatus { raw: spec_set_bit(self.raw, 1, v) }),
    {
        InterruptStatus { raw: set_bit(self.raw, 1, v) }
    }

    /// Bytes have waited in the receive FIFO for four character times without a new one.
    #[verifier::allow_in_spec]
    pub fn rx_timeout(&self) -> bool
        returns
            spec_get_bit(self.raw, 2),
    {
        get_bit(self.raw, 2)
    }

    /// The same value with `rx_timeout` replaced by `v`.
    #[verifier::allow_in_spec]
    pub fn with_rx_timeout(self, v: bool) -> InterruptStatus
        returns
            (InterruptStatus { raw: spec_set_bit(self.raw, 2, v) }),
    {
        InterruptStatus { raw: set_bit(self.raw, 2, v) }
    }

    /// The transmit FIFO is at least half empty: it holds fewer bytes than its trigger
    /// level says.
    #[verifier::allow_in_spec]
    pub fn tx(&self) -> bool
        returns
            spec_get_bit(self.raw, 4),
    {
        get_bit(self.raw, 4)
    }

    /// The same value with `tx` replaced by `v`.
    #[verifier::allow_in_spec]
    pub fn with_tx(self, v: bool) -> InterruptStatus
        returns
            (InterruptStatus { raw: spec_set_bit(self.raw, 4, v) }),
    {
        InterruptStatus { raw: set_bit(self.raw, 4, v) }
    }

    /// The transmit FIFO has overflowed.
    #[verifier::allow_in_spec]
    pub fn tx_status(&self) -> bool
        returns
            spec_get_bit(self.raw, 5),
    {
        get_bit(self.raw, 5)
    }

    /// The same value with `tx_status` replaced by `v`.
    #[verifier::allow_in_spec]
    pub fn with_tx_status(self, v: bool) -> InterruptStatus
        returns
            (InterruptStatus { raw: spec_set_bit(self.raw, 5, v) }),
    {
        InterruptStatus { raw: set_bit(self.raw, 5, v) }
    }

    /// The transmit FIFO is empty and the transmitter is idle.
    #[verifier::allow_in_spec]
    pub fn tx_empty(&self) -> bool
        returns
            spec_get_bit(self.raw, 6),
    {
        get_bit(self.raw, 6)
    }

    /// The same value with `tx_empty` replaced by `v`.
    #[verifier::allow_in_spec]
    pub fn with_tx_empty(self, v: bool) -> InterruptStatus
        returns
            (InterruptStatus { raw: spec_set_bit(self.raw, 6, v) }),
    {
        InterruptStatus { raw: set_bit(self.raw, 6, v) }
    }

    /// The CTS line has changed.
    #[verifier::allow_in_spec]
    pub fn tx_cts(&self) -> bool
        returns
            spec_get_bit(self.raw, 7),
    {
        get_bit(self.raw, 7)
    }

    /// The same value with `tx_cts` replaced by `v`.
    #[verifier::allow_in_spec]
    pub fn with_tx_cts(self, v: bool) -> InterruptStatus
        returns
            (InterruptStatus { raw: spec_set_bit(self.raw, 7, v) }),
    {
        InterruptStatus { raw: set_bit(self.raw, 7, v) }
    }

    /// After `rx` is set, it reads as what was set and every other field as before.
    pub proof fn lemma_with_rx(self, v: bool)
        ensures
            self.with_rx(v).rx() == v,
            self.with_rx(v).rx_status() == self.rx_status(),
            self.with_rx(v).rx_timeout() == self.rx_timeout(),
            self.with_rx(v).tx() == self.tx(),
            self.with_rx(v).tx_status() == self.tx_status(),
            self.with_rx(v).tx_empty() == self.tx_empty(),
            self.with_rx(v).tx_cts() == self.tx_cts(),
    {
        lemma_set_bit_get_bit(self.raw, 0, v, 0);
        lemma_set_bit_get_bit(self.raw, 0, v, 1);
        lemma_set_bit_get_bit(self.raw, 0, v, 2);
        lemma_set_bit_get_bit(self.raw, 0, v, 4);
        lemma_set_bit_get_bit(self.raw, 0, v, 5);
        lemma_set_bit_get_bit(self.raw, 0, v, 6);
        lemma_set_bit_get_bit(self.raw, 0, v, 7);
    }

    /// After `rx_status` is set, it reads as what was set and every other field as before.
    pub proof fn lemma_with_rx_status(self, v: bool)
        ensures
            self.with_rx_status(v).rx() == self.rx(),
            self.with_rx_status(v).rx_status() == v,
            self.with_rx_status(v).rx_timeout() == self.rx_timeout(),
            self.with_rx_status(v).tx() == self.tx(),
            self.with_rx_status(v).tx_status() == self.tx_status(),
            self.with_rx_status(v).tx_empty() == self.tx_empty(),
            self.with_rx_status(v).tx_cts() == self.tx_cts(),
    {
        lemma_set_bit_get_bit(self.raw, 1, v, 0);
        lemma_set_bit_get_bit(self.raw, 1, v, 1);
        lemma_set_bit_get_bit(self.raw, 1, v, 2);
        lemma_set_bit_get_bit(self.raw, 1, v, 4);
        lemma_set_bit_get_bit(self.raw, 1, v, 5);
        lemma_set_bit_get_bit(self.raw, 1, v, 6);
        lemma_set_bit_get_bit(self.raw, 1, v, 7);
    }

    /// After `rx_timeout` is set, it reads as what was set and every other field as before.
    pub proof fn lemma_with_rx_timeout(self, v: bool)
        ensures
            self.with_rx_timeout(v).rx() == self.rx(),
            self.with_rx_timeout(v).rx_status() == self.rx_status(),
            self.with_rx_timeout(v).rx_timeout() == v,
            self.with_rx_timeout(v).tx() == self.tx(),
            self.with_rx_timeout(v).tx_status() == self.tx_status(),
            self.with_rx_timeout(v).tx_empty() == self.tx_empty(),
            self.with_rx_timeout(v).tx_cts() == self.tx_cts(),
    {
        lemma_set_bit_get_bit(self.raw, 2, v, 0);
        lemma_set_bit_get_bit(self.raw, 2, v, 1);
        lemma_set_bit_get_bit(self.raw, 2, v, 2);
        lemma_set_bit_get_bit(self.raw, 2, v, 4);
        lemma_set_bit_get_bit(self.raw, 2, v, 5);
        lemma_set_bit_get_bit(self.raw, 2, v, 6);
        lemma_set_bit_get_bit(self.raw, 2, v, 7);
    }

    /// After `tx` is set, it reads as what was set and every other field as before.
    pub proof fn lemma_with_tx(self, v: bool)
        ensures
            self.with_tx(v).rx() == self.rx(),
            self.with_tx(v).rx_status() == self.rx_status(),
            self.with_tx(v).rx_timeout() == self.rx_timeout(),
            self.with_tx(v).tx() == v,
            self.with_tx(v).tx_status() == self.tx_status(),
            self.with_tx(v).tx_empty() == self.tx_empty(),
            self.with_tx(v).tx_cts() == self.tx_cts(),
    {
        lemma_set_bit_get_bit(self.raw, 4, v, 0);
        lemma_set_bit_get_bit(self.raw, 4, v, 1);
        lemma_set_bit_get_bit(self.raw, 4, v, 2);
        lemma_set_bit_get_bit(self.raw, 4, v, 4);
        lemma_set_bit_get_bit(self.raw, 4, v, 5);
        lemma_set_bit_get_bit(self.raw, 4, v, 6);
        lemma_set_bit_get_bit(self.raw, 4, v, 7);
    }

    /// After `tx_status` is set, it reads as what was set and every other field as before.
    pub proof fn lemma_with_tx_status(self, v: bool)
        ensures
            self.with_tx_status(v).rx() == self.rx(),
            self.with_tx_status(v).rx_status() == self.rx_status(),
            self.with_tx_status(v).rx_timeout() == self.rx_timeout(),
            self.with_tx_status(v).tx() == self.tx(),
            self.with_tx_status(v).tx_status() == v,
            self.with_tx_status(v).tx_empty() == self.tx_empty(),
            self.with_tx_status(v).tx_cts() == self.tx_cts(),
    {
        lemma_set_bit_get_bit(self.raw, 5, v, 0);
        lemma_set_bit_get_bit(self.raw, 5, v, 1);
        lemma_set_bit_get_bit(self.raw, 5, v, 2);
        lemma_set_bit_get_bit(self.raw, 5, v, 4);
        lemma_set_bit_get_bit(self.raw, 5, v, 5);
        lemma_set_bit_get_bit(self.raw, 5, v, 6);
        lemma_set_bit_get_bit(self.raw, 5, v, 7);
    }

    /// After `tx_empty` is set, it reads as what was set and every other field as before.
    pub proof fn lemma_with_tx_empty(self, v: bool)
        ensures
            self.with_tx_empty(v).rx() == self.rx(),
            self.with_tx_empty(v).rx_status() == self.rx_status(),
            self.with_tx_empty(v).rx_timeout() == self.rx_timeout(),
            self.with_tx_empty(v).tx() == self.tx(),
            self.with_tx_empty(v).tx_status() == self.tx_status(),
            self.with_tx_empty(v).tx_empty() == v,
            self.with_tx_empty(v).tx_cts() == self.tx_cts(),
    {
        lemma_set_bit_get_bit(self.raw, 6, v, 0);
        lemma_set_bit_get_bit(self.raw, 6, v, 1);
        lemma_set_bit_get_bit(self.raw, 6, v, 2);
        lemma_set_bit_get_bit(self.raw, 6, v, 4);
        lemma_set_bit_get_bit(self.raw, 6, v, 5);
        lemma_set_bit_get_bit(self.raw, 6, v, 6);
        lemma_set_bit_get_bit(self.raw, 6, v, 7);
    }

    /// After `tx_cts` is set, it reads as what was set and every other field as before.
    pub proof fn lemma_with_tx_cts(self, v: bool)
        ensures
            self.with_tx_cts(v).rx() == self.rx(),
            self.with_tx_cts(v).rx_status() == self.rx_status(),
            self.with_tx_cts(v).rx_timeout() == self.rx_timeout(),
            self.with_tx_cts(v).tx() == self.tx(),
            self.with_tx_cts(v).tx_status() == self.tx_status(),
            self.with_tx_cts(v).tx_empty() == self.tx_empty(),
            self.with_tx_cts(v).tx_cts() == v,
    {
        lemma_set_bit_get_bit(self.raw, 7, v, 0);
        lemma_set_bit_get_bit(self.raw, 7, v, 1);
        lemma_set_bit_get_bit(self.raw, 7, v, 2);
        lemma_set_bit_get_bit(self.raw, 7, v, 4);
        lemma_set_bit_get_bit(self.raw, 7, v, 5);
        lemma_set_bit_get_bit(self.raw, 7, v, 6);
        lemma_set_bit_get_bit(self.raw, 7, v, 7);
    }
}

/// What is written to the interrupt clear register. Only the overrun of the receiver can be
/// cleared.
#[derive(Debug, Clone, Copy, PartialEq, Eq, Structural)]
pub struct InterruptClear {
    pub raw: u32,
}

impl InterruptClear {
    /// The register value with the bits `raw`.
    #[verifier::allow_in_spec]
    pub fn new_with_raw_value(raw: u32) -> InterruptClear
        returns
            (InterruptClear { raw }),
    {
        InterruptClear { raw }
    }

    /// The bits of the register value.
    #[verifier::allow_in_spec]
    pub fn raw_value(&self) -> u32
        returns
            self.raw,
    {
        self.raw
    }

    /// Bit 1 of the register.
    #[verifier::allow_in_spec]
    pub fn rx_overrun(&self) -> bool
        returns
            spec_get_bit(self.raw, 1),
    {
        get_bit(self.raw, 1)
    }

    /// The same value with `rx_overrun` replaced by `v`.
    #[verifier::allow_in_spec]
    pub fn with_rx_overrun(self, v: bool) -> InterruptClear
        returns
            (InterruptClear { raw: spec_set_bit(self.raw, 1, v) }),
    {
        InterruptClear { raw: set_bit(self.raw, 1, v) }
    }

    /// Bit 5 of the register.
    #[verifier::allow_in_spec]
    pub fn tx_overrun(&self) -> bool
        returns
            spec_get_bit(self.raw, 5),
    {
        get_bit(self.raw, 5)
    }

    /// The same value with `tx_overrun` replaced by `v`.
    #[verifier::allow_in_spec]
    pub fn with_tx_overrun(self, v: bool) -> InterruptClear
        returns
            (InterruptClear { raw: spec_set_bit(self.raw, 5, v) }),
    {
        InterruptClear { raw: set_bit(self.raw, 5, v) }
    }

    /// After `rx_overrun` is set, it reads as what was set and every other field as before.
    pub proof fn lemma_with_rx_overrun(self, v: bool)
        ensures
            self.with_rx_overrun(v).rx_overrun() == v,
            self.with_rx_overrun(v).tx_overrun() == self.tx_overrun(),
    {
        lemma_set_bit_get_bit(self.raw, 1, v, 1);
        lemma_set_bit_get_bit(self.raw, 1, v, 5);
    }

    /// After `tx_overrun` is set, it reads as what was set and every other field as before.
    pub proof fn lemma_with_tx_overrun(self, v: bool)
        ensures
            self.with_tx_overrun(v).rx_overrun() == self.rx_overrun(),
            self.with_tx_overrun(v).tx_overrun() == v,
    {
        lemma_set_bit_get_bit(self.raw, 5, v, 1);
        lemma_set_bit_get_bit(self.raw, 5, v, 5);
    }
}

/// A FIFO trigger register of a UART.
#[derive(Debug, Clone, Copy, PartialEq, Eq, Structural)]
pub struct FifoTrigger {
    pub raw: u32,
}

impl FifoTrigger {
    /// The register value with the bits `raw`.
    #[verifier::allow_in_spec]
    pub fn new_with_raw_value(raw: u32) -> FifoTrigger
        returns
            (FifoTrigger { raw }),
    {
        FifoTrigger { raw }
    }

    /// The bits of the register value.
    #[verifier::allow_in_spec]
    pub fn raw_value(&self) -> u32
        returns
            self.raw,
    {
        self.raw
    }

    /// The trigger level.
    #[verifier::allow_in_spec]
    pub fn level(&self) -> u8
        returns
            spec_get_field(self.raw, 0, 5) as u8,
    {
        proof {
            lemma_field_bound(self.raw, 0, 5);
        }
        get_field(self.raw, 0, 5) as u8
    }

    /// The same value with `level` replaced by `v`.
    #[verifier::allow_in_spec]
    pub fn with_level(self, v: u8) -> FifoTrigger
        returns
            (FifoTrigger { raw: spec_set_field(self.raw, 0, 5, v as u32) }),
    {
        FifoTrigger { raw: set_field(self.raw, 0, 5, v as u32) }
    }

    /// After `level` is set, it reads as what was set and every other field as before.
    pub proof fn lemma_with_level(self, v: u8)
        requires
            v < 32,
        ensures
            self.with_level(v).level() == v,
    {
        lemma_field_bound(self.raw, 0, 5);
        lemma_set_field_get_field(self.raw, 0, 5, v as u32);
    }
}

/// The state register of a UART.
#[derive(Debug, Clone, Copy, PartialEq, Eq, Structural)]
pub struct State {
    pub raw: u32,
}

impl State {
    /// The register value with the bits `raw`.
    #[verifier::allow_in_spec]
    pub fn new_with_raw_value(raw: u32) -> State
        returns
            (State { raw }),
    {
        State { raw }
    }

    /// The bits of the register value.
    #[verifier::allow_in_spec]
    pub fn raw_value(&self) -> u32
        returns
            self.raw,
    {
        self.raw
    }

    /// Bits 0 to 7 of the register.
    #[verifier::allow_in_spec]
    pub fn rx_state(&self) -> u8
        returns
            spec_get_field(self.raw, 0, 8) as u8,
    {
        proof {
            lemma_field_bound(self.raw, 0, 8);
        }
        get_field(self.raw, 0, 8) as u8
    }

    /// The same value with `rx_state` replaced by `v`.
    #[verifier::allow_in_spec]
    pub fn with_rx_state(self, v: u8) -> State
        returns
            (State { raw: spec_set_field(self.raw, 0, 8, v as u32) }),
    {
        State { raw: set_field(self.raw, 0, 8, v as u32) }
    }

    /// Number of bytes in the receive FIFO.
    #[verifier::allow_in_spec]
    pub fn rx_fifo(&self) -> u8
        returns
            spec_get_field(self.raw, 8, 5) as u8,
    {
        proof {
            lemma_field_bound(self.raw, 8, 5);
        }
        get_field(self.raw, 8, 5) as u8
    }

    /// The same value with `rx_fifo` replaced by `v`.
    #[verifier::allow_in_spec]
    pub fn with_rx_fifo(self, v: u8) -> State
        returns
            (State { raw: spec_set_field(self.raw, 8, 5, v as u32) }),
    {
        State { raw: set_field(self.raw, 8, 5, v as u32) }
    }

    /// Bits 16 to 23 of the register.
    #[verifier::allow_in_spec]
    pub fn tx_state(&self) -> u8
        returns
            spec_get_field(self.raw, 16, 8) as u8,
    {
        proof {
            lemma_field_bound(self.raw, 16, 8);
        }
        get_field(self.raw, 16, 8) as u8
    }

    /// The same value with `tx_state` replaced by `v`.
    #[verifier::allow_in_spec]
    pub fn with_tx_state(self, v: u8) -> State
        returns
            (State { raw: spec_set_field(self.raw, 16, 8, v as u32) }),
    {
        State { raw: set_field(self.raw, 16, 8, v as u32) }
    }

    /// Number of bytes in the transmit FIFO.
    #[verifier::allow_in_spec]
    pub fn tx_fifo(&self) -> u8
        returns
            spec_get_field(self.raw, 24, 5) as u8,
    {
        proof {
            lemma_field_bound(self.raw, 24, 5);
        }
        get_field(self.raw, 24, 5) as u8
    }

    /// The same value with `tx_fifo` replaced by `v`.
    #[verifier::allow_in_spec]
    pub fn with_tx_fifo(self, v: u8) -> State
        returns
            (State { raw: spec_set_field(self.raw, 24, 5, v as u32) }),
    {
        State { raw: set_field(self.raw, 24, 5, v as u32) }
    }

    /// After `rx_state` is set, it reads as what was set and every other field as before.
    pub proof fn lemma_with_rx_state(self, v: u8)
        requires
            v < 256,
        ensures
            self.with_rx_state(v).rx_state() == v,
            self.with_rx_state(v).rx_fifo() == self.rx_fifo(),
            self.with_rx_state(v).tx_state() == self.tx_state(),
            self.with_rx_state(v).tx_fifo() == self.tx_fifo(),
    {
        lemma_field_bound(self.raw, 0, 8);
        lemma_set_field_get_field(self.raw, 0, 8, v as u32);
        lemma_set_field_keeps_field(self.raw, 0, 8, v as u32, 8, 5);
        lemma_set_field_keeps_field(self.raw, 0, 8, v as u32, 16, 8);
        lemma_set_field_keeps_field(self.raw, 0, 8, v as u32, 24, 5);
    }

    /// After `rx_fifo` is set, it reads as what was set and every other field as before.
    pub proof fn lemma_with_rx_fifo(self, v: u8)
        requires
            v < 32,
        ensures
            self.with_rx_fifo(v).rx_state() == self.rx_state(),
            self.with_rx_fifo(v).rx_fifo() == v,
            self.with_rx_fifo(v).tx_state() == self.tx_state(),
            self.with_rx_fifo(v).tx_fifo() == self.tx_fifo(),
    {
        lemma_field_bound(self.raw, 8, 5);
        lemma_set_field_keeps_field(self.raw, 8, 5, v as u32, 0, 8);
        lemma_set_field_get_field(self.raw, 8, 5, v as u32);
        lemma_set_field_keeps_field(self.raw, 8, 5, v as u32, 16, 8);
        lemma_set_field_keeps_field(self.raw, 8, 5, v as u32, 24, 5);
    }

    /// After `tx_state` is set, it reads as what was set and every other field as before.
    pub proof fn lemma_with_tx_state(self, v: u8)
        requires
            v < 256,
        ensures
            self.with_tx_state(v).rx_state() == self.rx_state(),
            self.with_tx_state(v).rx_fifo() == self.rx_fifo(),
            self.with_tx_state(v).tx_state() == v,
            self.with_tx_state(v).tx_fifo() == self.tx_fifo(),
    {
        lemma_field_bound(self.raw, 16, 8);
        lemma_set_field_keeps_field(self.raw, 16, 8, v as u32, 0, 8);
        lemma_set_field_keeps_field(self.raw, 16, 8, v as u32, 8, 5);
        lemma_set_field_get_field(self.raw, 16, 8, v as u32);
        lemma_set_field_keeps_field(self.raw, 16, 8, v as u32, 24, 5);
    }

    /// After `tx_fifo` is set, it reads as what was set and every other field as before.
    pub proof fn lemma_with_tx_fifo(self, v: u8)
        requires
            v < 32,
        ensures
            self.with_tx_fifo(v).rx_state() == self.rx_state(),
            self.with_tx_fifo(v).rx_fifo() == self.rx_fifo(),
            self.with_tx_fifo(v).tx_state() == self.tx_state(),
            self.with_tx_fifo(v).tx_fifo() == v,
    {
        lemma_field_bound(self.raw, 24, 5);
        lemma_set_field_keeps_field(self.raw, 24, 5, v as u32, 0, 8);
        lemma_set_field_keeps_field(self.raw, 24, 5, v as u32, 8, 5);
        lemma_set_field_keeps_field(self.raw, 24, 5, v as u32, 16, 8);
        lemma_set_field_get_field(self.raw, 24, 5, v as u32);
    }
}

/// The registers of a UART that hold what was written to them or what the caller has
/// read from the hardware.
#[derive(Debug, Clone, Copy, PartialEq, Eq, Structural)]
pub struct UartRegs {
    /// The address of the registers.
    pub base: usize,
    pub enable: Enable,
    pub ctrl: Control,
    pub clkscale: ClkScale,
    /// The status of the receiver, but for the bit that says whether a byte is
    /// available: the receive FIFO decides that.
    pub rx_status: RxStatus,
    /// The status of the transmitter, but for the bit that says whether there is room
    /// for a byte: the transmit FIFO decides that.
    pub tx_status: TxStatus,
    /// What was last written to the FIFO clear register.
    pub fifo_clr: FifoClear,
    pub irq_enabled: InterruptControl,
    pub irq_raw: InterruptStatus,
    pub irq_status: InterruptStatus,
    /// What was last written to the interrupt clear register.
    pub irq_clr: InterruptClear,
    pub rx_fifo_trigger: FifoTrigger,
    pub tx_fifo_trigger: FifoTrigger,
    pub perid: u32,
}

/// A UART: its registers and its two FIFOs.
///
/// The receive FIFO holds the bytes that have arrived and were not read, the oldest
/// first. The transmit FIFO holds the bytes that were written and not sent, the oldest
/// first. A read of the data register takes the oldest byte from the receive FIFO. A
/// write to it appends to the transmit FIFO while that holds fewer than
/// [`FIFO_DEPTH`] bytes; a write to a full FIFO is lost and sets the `wr_lost` bit.
pub struct Uart {
    pub regs: UartRegs,
    pub rx_fifo: Vec<u8>,
    pub tx_fifo: Vec<u8>,
}

/// What the contracts say of a UART.
pub struct UartView {
    pub regs: UartRegs,
    pub rx_fifo: Seq<u8>,
    pub tx_fifo: Seq<u8>,
}

impl View for Uart {
    type V = UartView;

    open spec fn view(&self) -> UartView {
        UartView { regs: self.regs, rx_fifo: self.rx_fifo@, tx_fifo: self.tx_fifo@ }
    }
}

impl UartView {
    /// What a read of the receiver status returns.
    pub open spec fn rx_status(self) -> RxStatus {
        self.regs.rx_status.with_data_available(self.rx_fifo.len() > 0)
    }

    /// What a read of the transmitter status returns.
    pub open spec fn tx_status(self) -> TxStatus {
        self.regs.tx_status.with_ready(self.tx_fifo.len() < FIFO_DEPTH)
    }

    /// The byte that a read of the data register returns: the oldest of the receive
    /// FIFO, or 0 from an empty FIFO.
    pub open spec fn next_byte(self) -> u8 {
        if self.rx_fifo.len() > 0 {
            self.rx_fifo[0]
        } else {
            0
        }
    }

    /// The UART after a read of the data register.
    pub open spec fn after_read_data(self) -> UartView {
        if self.rx_fifo.len() > 0 {
            UartView { rx_fifo: self.rx_fifo.subrange(1, self.rx_fifo.len() as int), ..self }
        } else {
            self
        }
    }

    /// The UART after the byte `byte` was written to the data register.
    pub open spec fn after_write_data(self, byte: u8) -> UartView {
        if self.tx_fifo.len() < FIFO_DEPTH {
            UartView { tx_fifo: self.tx_fifo.push(byte), ..self }
        } else {
            UartView {
                regs: UartRegs { tx_status: self.regs.tx_status.with_wr_lost(true), ..self.regs },
                ..self
            }
        }
    }

    /// The UART after `value` was written to the FIFO clear register.
    pub open spec fn after_fifo_clr(self, value: FifoClear) -> UartView {
        UartView {
            regs: UartRegs { fifo_clr: value, ..self.regs },
            rx_fifo: if value.rx() {
                Seq::<u8>::empty()
            } else {
                self.rx_fifo
            },
            tx_fifo: if value.tx() {
                Seq::<u8>::empty()
            } else {
                self.tx_fifo
            },
        }
    }

    /// The UART with the enable register `enable`.
    pub open spec fn with_enable(self, enable: Enable) -> UartView {
        UartView { regs: UartRegs { enable, ..self.regs }, ..self }
    }

    /// The UART with the interrupt enable register `irq_enabled`.
    pub open spec fn with_irq_enabled(self, irq_enabled: InterruptControl) -> UartView {
        UartView { regs: UartRegs { irq_enabled, ..self.regs }, ..self }
    }

    /// The UART after `value` was written to the interrupt clear register.
    pub open spec fn with_irq_clr(self, irq_clr: InterruptClear) -> UartView {
        UartView { regs: UartRegs { irq_clr, ..self.regs }, ..self }
    }
}

impl Uart {
    /// The UART after a reset: the registers clear, the FIFOs empty.
    pub open spec fn spec_reset_state(base: usize) -> UartView {
        UartView {
            regs: UartRegs {
                base,
                enable: Enable { raw: 0 },
                ctrl: Control { raw: 0 },
                clkscale: ClkScale { raw: 0 },
                rx_status: RxStatus { raw: 0 },
                tx_status: TxStatus { raw: 0 },
                fifo_clr: FifoClear { raw: 0 },
                irq_enabled: InterruptControl { raw: 0 },
                irq_raw: InterruptStatus { raw: 0 },
                irq_status: InterruptStatus { raw: 0 },
                irq_clr: InterruptClear { raw: 0 },
                rx_fifo_trigger: FifoTrigger { raw: 0 },
                tx_fifo_trigger: FifoTrigger { raw: 0 },
                perid: UART_PERID,
            },
            rx_fifo: Seq::<u8>::empty(),
            tx_fifo: Seq::<u8>::empty(),
        }
    }

    /// The UART `bank` as it is after a reset.
    pub fn new_mmio(bank: Bank) -> (uart: Uart)
        ensures
            uart@ == Self::spec_reset_state(bank.spec_base_address()),
    {
        Uart {
            regs: UartRegs {
                base: bank.base_address(),
                enable: Enable { raw: 0 },
                ctrl: Control { raw: 0 },
                clkscale: ClkScale { raw: 0 },
                rx_status: RxStatus { raw: 0 },
                tx_status: TxStatus { raw: 0 },
                fifo_clr: FifoClear { raw: 0 },
                irq_enabled: InterruptControl { raw: 0 },
                irq_raw: InterruptStatus { raw: 0 },
                irq_status: InterruptStatus { raw: 0 },
                irq_clr: InterruptClear { raw: 0 },
                rx_fifo_trigger: FifoTrigger { raw: 0 },
                tx_fifo_trigger: FifoTrigger { raw: 0 },
                perid: UART_PERID,
            },
            rx_fifo: Vec::new(),
            tx_fifo: Vec::new(),
        }
    }

    /// Reads the data register: takes the oldest byte from the receive FIFO. An empty
    /// FIFO reads as 0.
    pub fn read_data(&mut self) -> (data: Data)
        ensures
            data == (Data { raw: old(self)@.next_byte() as u32 }),
            final(self)@ == old(self)@.after_read_data(),
    {
        if self.rx_fifo.len() > 0 {
            let byte = self.rx_fifo.remove(0);
            assert(self.rx_fifo@ =~= old(self).rx_fifo@.subrange(1, old(self).rx_fifo@.len() as int));
            Data { raw: byte as u32 }
        } else {
            Data { raw: 0 }
        }
    }

    /// Writes the data register: appends the byte of `data` to the transmit FIFO, or
    /// loses it if the FIFO is full.
    pub fn write_data(&mut self, data: Data)
        ensures
            final(self)@ == old(self)@.after_write_data(data.value()),
    {
        if self.tx_fifo.len() < FIFO_DEPTH {
            self.tx_fifo.push(data.value());
        } else {
            self.regs.tx_status = self.regs.tx_status.with_wr_lost(true);
        }
    }

    /// Reads the enable register.
    pub fn read_enable(&self) -> (enable: Enable)
        ensures
            enable == self.regs.enable,
    {
        self.regs.enable
    }

    /// Writes the enable register.
    pub fn write_enable(&mut self, enable: Enable)
        ensures
            final(self)@ == old(self)@.with_enable(enable),
    {
        self.regs.enable = enable;
    }

    /// Writes the control register.
    pub fn write_ctrl(&mut self, ctrl: Control)
        ensures
            final(self)@ == (UartView { regs: UartRegs { ctrl, ..old(self).regs }, ..old(self)@ }),
    {
        self.regs.ctrl = ctrl;
    }

    /// Writes the clock scale register.
    pub fn write_clkscale(&mut self, clkscale: ClkScale)
        ensures
            final(self)@ == (UartView { regs: UartRegs { clkscale, ..old(self).regs }, ..old(self)@ }),
    {
        self.regs.clkscale = clkscale;
    }

    /// Reads the status of the receiver.
    pub fn read_rx_status(&self) -> (status: RxStatus)
        ensures
            status == self@.rx_status(),
    {
        self.regs.rx_status.with_data_available(self.rx_fifo.len() > 0)
    }

    /// Reads the status of the transmitter.
    pub fn read_tx_status(&self) -> (status: TxStatus)
        ensures
            status == self@.tx_status(),
    {
        self.regs.tx_status.with_ready(self.tx_fifo.len() < FIFO_DEPTH)
    }

    /// Writes the FIFO clear register, which empties the FIFOs that `value` names.
    pub fn write_fifo_clr(&mut self, value: FifoClear)
        ensures
            final(self)@ == old(self)@.after_fifo_clr(value),
    {
        self.regs.fifo_clr = value;
        if value.rx() {
            self.rx_fifo.clear();
        }
        if value.tx() {
            self.tx_fifo.clear();
        }
    }

    /// Reads the interrupt enable register.
    pub fn read_irq_enabled(&self) -> (value: InterruptControl)
        ensures
            value == self.regs.irq_enabled,
    {
        self.regs.irq_enabled
    }

    /// Writes the interrupt enable register.
    pub fn write_irq_enabled(&mut self, value: InterruptControl)
        ensures
            final(self)@ == old(self)@.with_irq_enabled(value),
    {
        self.regs.irq_enabled = value;
    }

    /// Reads the status of the enabled interrupts.
    pub fn read_irq_status(&self) -> (value: InterruptStatus)
        ensures
            value == self.regs.irq_status,
    {
        self.regs.irq_status
    }

    /// Writes the interrupt clear register.
    pub fn write_irq_clr(&mut self, value: InterruptClear)
        ensures
            final(self)@ == old(self)@.with_irq_clr(value),
    {
        self.regs.irq_clr = value;
    }

    /// Reads the trigger level of the receive FIFO.
    pub fn read_rx_fifo_trigger(&self) -> (value: FifoTrigger)
        ensures
            value == self.regs.rx_fifo_trigger,
    {
        self.regs.rx_fifo_trigger
    }

    /// Reads the peripheral ID.
    pub fn read_perid(&self) -> (value: u32)
        ensures
            value == self.regs.perid,
    {
        self.regs.perid
    }
}

} // verus!
