//! The registers of an I2C peripheral.
use crate::bits::{
    get_bit, get_field, lemma_bit_and_field, lemma_field_bound, lemma_set_bit_get_bit,
    lemma_set_field_get_field, lemma_set_field_keeps_field, set_bit, set_field, spec_get_bit,
    spec_get_field, spec_set_bit, spec_set_field,
};
pub use crate::{FifoClear, TriggerLevel};
use vstd::prelude::*;

pub mod slave;

verus! {

/// Address of the registers of I2C 0.
pub const BASE_ADDR_0: usize = 0x4001_6000;

/// Address of the registers of I2C 1.
pub const BASE_ADDR_1: usize = 0x4001_6400;

/// Address of the registers of I2C 2.
pub const BASE_ADDR_2: usize = 0x4001_6800;

/// What the peripheral ID register of an I2C peripheral reads.
pub const I2C_PERID: u32 = 0x0214_07E9;

/// One of the three I2C peripherals.
#[derive(Debug, PartialEq, Eq, Copy, Clone, Structural)]
pub enum Bank {
    I2c0,
    I2c1,
    I2c2,
}

impl Bank {
    /// The address of the registers of the peripheral.
    pub open spec fn spec_base_address(&self) -> usize {
        match self {
            Bank::I2c0 => BASE_ADDR_0,
            Bank::I2c1 => BASE_ADDR_1,
            Bank::I2c2 => BASE_ADDR_2,
        }
    }

    /// The address of the registers of the peripheral.
    #[verifier::when_used_as_spec(spec_base_address)]
    pub fn base_address(&self) -> (addr: usize)
        ensures
            addr == self.spec_base_address(),
    {
        match self {
            Bank::I2c0 => BASE_ADDR_0,
            Bank::I2c1 => BASE_ADDR_1,
            Bank::I2c2 => BASE_ADDR_2,
        }
    }

    /// The registers of the peripheral as they are after a reset.
    pub fn steal_regs(&self) -> (i2c: I2c)
        ensures
            i2c == I2c::spec_reset_state(self.spec_base_address()),
    {
        I2c::new_mmio(*self)
    }
}

/// What the master does when the transmit FIFO runs empty.
#[derive(Debug, Clone, Copy, PartialEq, Eq, Structural)]
pub enum TxFifoEmptyMode {
    /// The clock is stretched until data is available.
    Stall,
    EndTransaction,
}

impl TxFifoEmptyMode {
    /// The bits that stand for the variant in a register.
    #[verifier::allow_in_spec]
    pub fn raw_value(self) -> u32
        returns
            (match self {
                TxFifoEmptyMode::Stall => 0u32,
                TxFifoEmptyMode::EndTransaction => 1u32,
            }),
    {
        match self {
            TxFifoEmptyMode::Stall => 0,
            TxFifoEmptyMode::EndTransaction => 1,
        }
    }

    /// The variant that the bits `raw` stand for. Of `raw`, the low bit count.
    #[verifier::allow_in_spec]
    pub fn from_bits(raw: u32) -> TxFifoEmptyMode
        returns
            (if raw == 0 {
                TxFifoEmptyMode::Stall
            } else {
                TxFifoEmptyMode::EndTransaction
            }),
    {
        if raw == 0 {
            TxFifoEmptyMode::Stall
        } else {
            TxFifoEmptyMode::EndTransaction
        }
    }

    /// Each variant is found again from its bits, which fit in the field.
    pub proof fn lemma_round_trip(self)
        ensures
            TxFifoEmptyMode::from_bits(self.raw_value()) == self,
            self.raw_value() < 2,
    {
    }
}

impl Default for TxFifoEmptyMode {
    fn default() -> (value: TxFifoEmptyMode)
        ensures
            value == TxFifoEmptyMode::Stall,
    {
        TxFifoEmptyMode::Stall
    }
}

/// What the master does when the receive FIFO is full.
#[derive(Debug, Clone, Copy, PartialEq, Eq, Structural)]
pub enum RxFifoFullMode {
    /// The clock is stretched until there is room.
    Stall,
    Nack,
}

impl RxFifoFullMode {
    /// The bits that stand for the variant in a register.
    #[verifier::allow_in_spec]
    pub fn raw_value(self) -> u32
        returns
            (match self {
                RxFifoFullMode::Stall => 0u32,
                RxFifoFullMode::Nack => 1u32,
            }),
    {
        match self {
            RxFifoFullMode::Stall => 0,
            RxFifoFullMode::Nack => 1,
        }
    }

    /// The variant that the bits `raw` stand for. Of `raw`, the low bit count.
    #[verifier::allow_in_spec]
    pub fn from_bits(raw: u32) -> RxFifoFullMode
        returns
            (if raw == 0 {
                RxFifoFullMode::Stall
            } else {
                RxFifoFullMode::Nack
            }),
    {
        if raw == 0 {
            RxFifoFullMode::Stall
        } else {
            RxFifoFullMode::Nack
        }
    }

    /// Each variant is found again from its bits, which fit in the field.
    pub proof fn lemma_round_trip(self)
        ensures
            RxFifoFullMode::from_bits(self.raw_value()) == self,
            self.raw_value() < 2,
    {
    }
}

impl Default for RxFifoFullMode {
    fn default() -> (value: RxFifoFullMode)
        ensures
            value == RxFifoFullMode::Stall,
    {
        RxFifoFullMode::Stall
    }
}

/// The control register of an I2C master.
#[derive(Debug, Clone, Copy, PartialEq, Eq, Structural)]
pub struct Control {
    pub raw: u32,
}

impl Control {
    /// The register value with the bits `raw`.
    #[verifier::allow_in_spec]
    pub fn new_with_raw_value(raw: u32) -> Control
        returns
            (Control { raw }),
    {
        Control { raw }
    }

    /// The bits of the register value.
    #[verifier::allow_in_spec]
    pub fn raw_value(&self) -> u32
        returns
            self.raw,
    {
        self.raw
    }

    /// Bit 0 of the register.
    #[verifier::allow_in_spec]
    pub fn clk_enabled(&self) -> bool
        returns
            spec_get_bit(self.raw, 0),
    {
        get_bit(self.raw, 0)
    }

    /// The same value with `clk_enabled` replaced by `v`.
    #[verifier::allow_in_spec]
    pub fn with_clk_enabled(self, v: bool) -> Control
        returns
            (Control { raw: spec_set_bit(self.raw, 0, v) }),
    {
        Control { raw: set_bit(self.raw, 0, v) }
    }

    /// Bit 1 of the register.
    #[verifier::allow_in_spec]
    pub fn enabled(&self) -> bool
        returns
            spec_get_bit(self.raw, 1),
    {
        get_bit(self.raw, 1)
    }

    /// The same value with `enabled` replaced by `v`.
    #[verifier::allow_in_spec]
    pub fn with_enabled(self, v: bool) -> Control
        returns
            (Control { raw: spec_set_bit(self.raw, 1, v) }),
    {
        Control { raw: set_bit(self.raw, 1, v) }
    }

    /// Whether the master is enabled.
    #[verifier::allow_in_spec]
    pub fn enable(&self) -> bool
        returns
            spec_get_bit(self.raw, 2),
    {
        get_bit(self.raw, 2)
    }

    /// The same value with `enable` replaced by `v`.
    #[verifier::allow_in_spec]
    pub fn with_enable(self, v: bool) -> Control
        returns
            (Control { raw: spec_set_bit(self.raw, 2, v) }),
    {
        Control { raw: set_bit(self.raw, 2, v) }
    }

    /// Bits 3 to 3 of the register.
    #[verifier::allow_in_spec]
    pub fn tx_fifo_empty_mode(&self) -> TxFifoEmptyMode
        returns
            (TxFifoEmptyMode::from_bits(spec_get_field(self.raw, 3, 1))),
    {
        TxFifoEmptyMode::from_bits(get_field(self.raw, 3, 1))
    }

    /// The same value with `tx_fifo_empty_mode` replaced by `v`.
    #[verifier::allow_in_spec]
    pub fn with_tx_fifo_empty_mode(self, v: TxFifoEmptyMode) -> Control
        returns
            (Control { raw: spec_set_field(self.raw, 3, 1, v.raw_value()) }),
    {
        Control { raw: set_field(self.raw, 3, 1, v.raw_value()) }
    }

    /// Bits 4 to 4 of the register.
    #[verifier::allow_in_spec]
    pub fn rx_fifo_full_mode(&self) -> RxFifoFullMode
        returns
            (RxFifoFullMode::from_bits(spec_get_field(self.raw, 4, 1))),
    {
        RxFifoFullMode::from_bits(get_field(self.raw, 4, 1))
    }

    /// The same value with `rx_fifo_full_mode` replaced by `v`.
    #[verifier::allow_in_spec]
    pub fn with_rx_fifo_full_mode(self, v: RxFifoFullMode) -> Control
        returns
            (Control { raw: spec_set_field(self.raw, 4, 1, v.raw_value()) }),
    {
        Control { raw: set_field(self.raw, 4, 1, v.raw_value()) }
    }

    /// Enables the analog delay glitch filter.
    #[verifier::allow_in_spec]
    pub fn analog_filter(&self) -> bool
        returns
            spec_get_bit(self.raw, 5),
    {
        get_bit(self.raw, 5)
    }

    /// The same value with `analog_filter` replaced by `v`.
    #[verifier::allow_in_spec]
    pub fn with_analog_filter(self, v: bool) -> Control
        returns
            (Control { raw: spec_set_bit(self.raw, 5, v) }),
    {
        Control { raw: set_bit(self.raw, 5, v) }
    }

    /// Enables the digital glitch filter.
    #[verifier::allow_in_spec]
    pub fn digital_filter(&self) -> bool
        returns
            spec_get_bit(self.raw, 6),
    {
        get_bit(self.raw, 6)
    }

    /// The same value with `digital_filter` replaced by `v`.
    #[verifier::allow_in_spec]
    pub fn with_digital_filter(self, v: bool) -> Control
        returns
            (Control { raw: spec_set_bit(self.raw, 6, v) }),
    {
        Control { raw: set_bit(self.raw, 6, v) }
    }

    /// Bit 8 of the register.
    #[verifier::allow_in_spec]
    pub fn loopback(&self) -> bool
        returns
            spec_get_bit(self.raw, 8),
    {
        get_bit(self.raw, 8)
    }

    /// The same value with `loopback` replaced by `v`.
    #[verifier::allow_in_spec]
    pub fn with_loopback(self, v: bool) -> Control
        returns
            (Control { raw: spec_set_bit(self.raw, 8, v) }),
    {
        Control { raw: set_bit(self.raw, 8, v) }
    }

    /// Bit 9 of the register.
    #[verifier::allow_in_spec]
    pub fn enable_timing_config(&self) -> bool
        returns
            spec_get_bit(self.raw, 9),
    {
        get_bit(self.raw, 9)
    }

    /// The same value with `enable_timing_config` replaced by `v`.
    #[verifier::allow_in_spec]
    pub fn with_enable_timing_config(self, v: bool) -> Control
        returns
            (Control { raw: spec_set_bit(self.raw, 9, v) }),
    {
        Control { raw: set_bit(self.raw, 9, v) }
    }

    /// After `clk_enabled` is set, it reads as what was set and every other field as before.
    pub proof fn lemma_with_clk_enabled(self, v: bool)
        ensures
            self.with_clk_enabled(v).clk_enabled() == v,
            self.with_clk_enabled(v).enabled() == self.enabled(),
            self.with_clk_enabled(v).enable() == self.enable(),
            self.with_clk_enabled(v).tx_fifo_empty_mode() == self.tx_fifo_empty_mode(),
            self.with_clk_enabled(v).rx_fifo_full_mode() == self.rx_fifo_full_mode(),
            self.with_clk_enabled(v).analog_filter() == self.analog_filter(),
            self.with_clk_enabled(v).digital_filter() == self.digital_filter(),
            self.with_clk_enabled(v).loopback() == self.loopback(),
            self.with_clk_enabled(v).enable_timing_config() == self.enable_timing_config(),
    {
        lemma_set_bit_get_bit(self.raw, 0, v, 0);
        lemma_set_bit_get_bit(self.raw, 0, v, 1);
        lemma_set_bit_get_bit(self.raw, 0, v, 2);
        lemma_bit_and_field(self.raw, 0, v, 3, 1, 0);
        lemma_bit_and_field(self.raw, 0, v, 4, 1, 0);
        lemma_set_bit_get_bit(self.raw, 0, v, 5);
        lemma_set_bit_get_bit(self.raw, 0, v, 6);
        lemma_set_bit_get_bit(self.raw, 0, v, 8);
        lemma_set_bit_get_bit(self.raw, 0, v, 9);
    }

    /// After `enabled` is set, it reads as what was set and every other field as before.
    pub proof fn lemma_with_enabled(self, v: bool)
        ensures
            self.with_enabled(v).clk_enabled() == self.clk_enabled(),
            self.with_enabled(v).enabled() == v,
            self.with_enabled(v).enable() == self.enable(),
            self.with_enabled(v).tx_fifo_empty_mode() == self.tx_fifo_empty_mode(),
            self.with_enabled(v).rx_fifo_full_mode() == self.rx_fifo_full_mode(),
            self.with_enabled(v).analog_filter() == self.analog_filter(),
            self.with_enabled(v).digital_filter() == self.digital_filter(),
            self.with_enabled(v).loopback() == self.loopback(),
            self.with_enabled(v).enable_timing_config() == self.enable_timing_config(),
    {
        lemma_set_bit_get_bit(self.raw, 1, v, 0);
        lemma_set_bit_get_bit(self.raw, 1, v, 1);
        lemma_set_bit_get_bit(self.raw, 1, v, 2);
        lemma_bit_and_field(self.raw, 1, v, 3, 1, 0);
        lemma_bit_and_field(self.raw, 1, v, 4, 1, 0);
        lemma_set_bit_get_bit(self.raw, 1, v, 5);
        lemma_set_bit_get_bit(self.raw, 1, v, 6);
        lemma_set_bit_get_bit(self.raw, 1, v, 8);
        lemma_set_bit_get_bit(self.raw, 1, v, 9);
    }

    /// After `enable` is set, it reads as what was set and every other field as before.
    pub proof fn lemma_with_enable(self, v: bool)
        ensures
            self.with_enable(v).clk_enabled() == self.clk_enabled(),
            self.with_enable(v).enabled() == self.enabled(),
            self.with_enable(v).enable() == v,
            self.with_enable(v).tx_fifo_empty_mode() == self.tx_fifo_empty_mode(),
            self.with_enable(v).rx_fifo_full_mode() == self.rx_fifo_full_mode(),
            self.with_enable(v).analog_filter() == self.analog_filter(),
            self.with_enable(v).digital_filter() == self.digital_filter(),
            self.with_enable(v).loopback() == self.loopback(),
            self.with_enable(v).enable_timing_config() == self.enable_timing_config(),
    {
        lemma_set_bit_get_bit(self.raw, 2, v, 0);
        lemma_set_bit_get_bit(self.raw, 2, v, 1);
        lemma_set_bit_get_bit(self.raw, 2, v, 2);
        lemma_bit_and_field(self.raw, 2, v, 3, 1, 0);
        lemma_bit_and_field(self.raw, 2, v, 4, 1, 0);
        lemma_set_bit_get_bit(self.raw, 2, v, 5);
        lemma_set_bit_get_bit(self.raw, 2, v, 6);
        lemma_set_bit_get_bit(self.raw, 2, v, 8);
        lemma_set_bit_get_bit(self.raw, 2, v, 9);
    }

    /// After `tx_fifo_empty_mode` is set, it reads as what was set and every other field as before.
    pub proof fn lemma_with_tx_fifo_empty_mode(self, v: TxFifoEmptyMode)
        ensures
            self.with_tx_fifo_empty_mode(v).clk_enabled() == self.clk_enabled(),
            self.with_tx_fifo_empty_mode(v).enabled() == self.enabled(),
            self.with_tx_fifo_empty_mode(v).enable() == self.enable(),
            self.with_tx_fifo_empty_mode(v).tx_fifo_empty_mode() == v,
            self.with_tx_fifo_empty_mode(v).rx_fifo_full_mode() == self.rx_fifo_full_mode(),
            self.with_tx_fifo_empty_mode(v).analog_filter() == self.analog_filter(),
            self.with_tx_fifo_empty_mode(v).digital_filter() == self.digital_filter(),
            self.with_tx_fifo_empty_mode(v).loopback() == self.loopback(),
            self.with_tx_fifo_empty_mode(v).enable_timing_config() == self.enable_timing_config(),
    {
        v.lemma_round_trip();
        lemma_field_bound(self.raw, 3, 1);
        lemma_bit_and_field(self.raw, 0, true, 3, 1, v.raw_value());
        lemma_bit_and_field(self.raw, 1, true, 3, 1, v.raw_value());
        lemma_bit_and_field(self.raw, 2, true, 3, 1, v.raw_value());
        lemma_set_field_get_field(self.raw, 3, 1, v.raw_value());
        lemma_set_field_keeps_field(self.raw, 3, 1, v.raw_value(), 4, 1);
        lemma_bit_and_field(self.raw, 5, true, 3, 1, v.raw_value());
        lemma_bit_and_field(self.raw, 6, true, 3, 1, v.raw_value());
        lemma_bit_and_field(self.raw, 8, true, 3, 1, v.raw_value());
        lemma_bit_and_field(self.raw, 9, true, 3, 1, v.raw_value());
    }

    /// After `rx_fifo_full_mode` is set, it reads as what was set and every other field as before.
    pub proof fn lemma_with_rx_fifo_full_mode(self, v: RxFifoFullMode)
        ensures
            self.with_rx_fifo_full_mode(v).clk_enabled() == self.clk_enabled(),
            self.with_rx_fifo_full_mode(v).enabled() == self.enabled(),
            self.with_rx_fifo_full_mode(v).enable() == self.enable(),
            self.with_rx_fifo_full_mode(v).tx_fifo_empty_mode() == self.tx_fifo_empty_mode(),
            self.with_rx_fifo_full_mode(v).rx_fifo_full_mode() == v,
            self.with_rx_fifo_full_mode(v).analog_filter() == self.analog_filter(),
            self.with_rx_fifo_full_mode(v).digital_filter() == self.digital_filter(),
            self.with_rx_fifo_full_mode(v).loopback() == self.loopback(),
            self.with_rx_fifo_full_mode(v).enable_timing_config() == self.enable_timing_config(),
    {
        v.lemma_round_trip();
        lemma_field_bound(self.raw, 4, 1);
        lemma_bit_and_field(self.raw, 0, true, 4, 1, v.raw_value());
        lemma_bit_and_field(self.raw, 1, true, 4, 1, v.raw_value());
        lemma_bit_and_field(self.raw, 2, true, 4, 1, v.raw_value());
        lemma_set_field_keeps_field(self.raw, 4, 1, v.raw_value(), 3, 1);
        lemma_set_field_get_field(self.raw, 4, 1, v.raw_value());
        lemma_bit_and_field(self.raw, 5, true, 4, 1, v.raw_value());
        lemma_bit_and_field(self.raw, 6, true, 4, 1, v.raw_value());
        lemma_bit_and_field(self.raw, 8, true, 4, 1, v.raw_value());
        lemma_bit_and_field(self.raw, 9, true, 4, 1, v.raw_value());
    }

    /// After `analog_filter` is set, it reads as what was set and every other field as before.
    pub proof fn lemma_with_analog_filter(self, v: bool)
        ensures
            self.with_analog_filter(v).clk_enabled() == self.clk_enabled(),
            self.with_analog_filter(v).enabled() == self.enabled(),
            self.with_analog_filter(v).enable() == self.enable(),
            self.with_analog_filter(v).tx_fifo_empty_mode() == self.tx_fifo_empty_mode(),
            self.with_analog_filter(v).rx_fifo_full_mode() == self.rx_fifo_full_mode(),
            self.with_analog_filter(v).analog_filter() == v,
            self.with_analog_filter(v).digital_filter() == self.digital_filter(),
            self.with_analog_filter(v).loopback() == self.loopback(),
            self.with_analog_filter(v).enable_timing_config() == self.enable_timing_config(),
    {
        lemma_set_bit_get_bit(self.raw, 5, v, 0);
        lemma_set_bit_get_bit(self.raw, 5, v, 1);
        lemma_set_bit_get_bit(self.raw, 5, v, 2);
        lemma_bit_and_field(self.raw, 5, v, 3, 1, 0);
        lemma_bit_and_field(self.raw, 5, v, 4, 1, 0);
        lemma_set_bit_get_bit(self.raw, 5, v, 5);
        lemma_set_bit_get_bit(self.raw, 5, v, 6);
        lemma_set_bit_get_bit(self.raw, 5, v, 8);
        lemma_set_bit_get_bit(self.raw, 5, v, 9);
    }

    /// After `digital_filter` is set, it reads as what was set and every other field as before.
    pub proof fn lemma_with_digital_filter(self, v: bool)
        ensures
            self.with_digital_filter(v).clk_enabled() == self.clk_enabled(),
            self.with_digital_filter(v).enabled() == self.enabled(),
            self.with_digital_filter(v).enable() == self.enable(),
            self.with_digital_filter(v).tx_fifo_empty_mode() == self.tx_fifo_empty_mode(),
            self.with_digital_filter(v).rx_fifo_full_mode() == self.rx_fifo_full_mode(),
            self.with_digital_filter(v).analog_filter() == self.analog_filter(),
            self.with_digital_filter(v).digital_filter() == v,
            self.with_digital_filter(v).loopback() == self.loopback(),
            self.with_digital_filter(v).enable_timing_config() == self.enable_timing_config(),
    {
        lemma_set_bit_get_bit(self.raw, 6, v, 0);
        lemma_set_bit_get_bit(self.raw, 6, v, 1);
        lemma_set_bit_get_bit(self.raw, 6, v, 2);
        lemma_bit_and_field(self.raw, 6, v, 3, 1, 0);
        lemma_bit_and_field(self.raw, 6, v, 4, 1, 0);
        lemma_set_bit_get_bit(self.raw, 6, v, 5);
        lemma_set_bit_get_bit(self.raw, 6, v, 6);
        lemma_set_bit_get_bit(self.raw, 6, v, 8);
        lemma_set_bit_get_bit(self.raw, 6, v, 9);
    }

    /// After `loopback` is set, it reads as what was set and every other field as before.
    pub proof fn lemma_with_loopback(self, v: bool)
        ensures
            self.with_loopback(v).clk_enabled() == self.clk_enabled(),
            self.with_loopback(v).enabled() == self.enabled(),
            self.with_loopback(v).enable() == self.enable(),
            self.with_loopback(v).tx_fifo_empty_mode() == self.tx_fifo_empty_mode(),
            self.with_loopback(v).rx_fifo_full_mode() == self.rx_fifo_full_mode(),
            self.with_loopback(v).analog_filter() == self.analog_filter(),
            self.with_loopback(v).digital_filter() == self.digital_filter(),
            self.with_loopback(v).loopback() == v,
            self.with_loopback(v).enable_timing_config() == self.enable_timing_config(),
    {
        lemma_set_bit_get_bit(self.raw, 8, v, 0);
        lemma_set_bit_get_bit(self.raw, 8, v, 1);
        lemma_set_bit_get_bit(self.raw, 8, v, 2);
        lemma_bit_and_field(self.raw, 8, v, 3, 1, 0);
        lemma_bit_and_field(self.raw, 8, v, 4, 1, 0);
        lemma_set_bit_get_bit(self.raw, 8, v, 5);
        lemma_set_bit_get_bit(self.raw, 8, v, 6);
        lemma_set_bit_get_bit(self.raw, 8, v, 8);
        lemma_set_bit_get_bit(self.raw, 8, v, 9);
    }

    /// After `enable_timing_config` is set, it reads as what was set and every other field as before.
    pub proof fn lemma_with_enable_timing_config(self, v: bool)
        ensures
            self.with_enable_timing_config(v).clk_enabled() == self.clk_enabled(),
            self.with_enable_timing_config(v).enabled() == self.enabled(),
            self.with_enable_timing_config(v).enable() == self.enable(),
            self.with_enable_timing_config(v).tx_fifo_empty_mode() == self.tx_fifo_empty_mode(),
            self.with_enable_timing_config(v).rx_fifo_full_mode() == self.rx_fifo_full_mode(),
            self.with_enable_timing_config(v).analog_filter() == self.analog_filter(),
            self.with_enable_timing_config(v).digital_filter() == self.digital_filter(),
            self.with_enable_timing_config(v).loopback() == self.loopback(),
            self.with_enable_timing_config(v).enable_timing_config() == v,
    {
        lemma_set_bit_get_bit(self.raw, 9, v, 0);
        lemma_set_bit_get_bit(self.raw, 9, v, 1);
        lemma_set_bit_get_bit(self.raw, 9, v, 2);
        lemma_bit_and_field(self.raw, 9, v, 3, 1, 0);
        lemma_bit_and_field(self.raw, 9, v, 4, 1, 0);
        lemma_set_bit_get_bit(self.raw, 9, v, 5);
        lemma_set_bit_get_bit(self.raw, 9, v, 6);
        lemma_set_bit_get_bit(self.raw, 9, v, 8);
        lemma_set_bit_get_bit(self.raw, 9, v, 9);
    }
}

/// The speed of the bus.
#[derive(Debug, Clone, Copy, PartialEq, Eq, Structural)]
pub enum I2cSpeed {
    Regular100khz,
    Fast400khz,
}

impl I2cSpeed {
    /// The bits that stand for the variant in a register.
    #[verifier::allow_in_spec]
    pub fn raw_value(self) -> u32
        returns
            (match self {
                I2cSpeed::Regular100khz => 0u32,
                I2cSpeed::Fast400khz => 1u32,
            }),
    {
        match self {
            I2cSpeed::Regular100khz => 0,
            I2cSpeed::Fast400khz => 1,
        }
    }

    /// The variant that the bits `raw` stand for. Of `raw`, the low bit count.
    #[verifier::allow_in_spec]
    pub fn from_bits(raw: u32) -> I2cSpeed
        returns
            (if raw == 0 {
                I2cSpeed::Regular100khz
            } else {
                I2cSpeed::Fast400khz
            }),
    {
        if raw == 0 {
            I2cSpeed::Regular100khz
        } else {
            I2cSpeed::Fast400khz
        }
    }

    /// Each variant is found again from its bits, which fit in the field.
    pub proof fn lemma_round_trip(self)
        ensures
            I2cSpeed::from_bits(self.raw_value()) == self,
            self.raw_value() < 2,
    {
    }
}

/// The clock scale register of an I2C master.
#[derive(Debug, Clone, Copy, PartialEq, Eq, Structural)]
pub struct ClkScale {
    pub raw: u32,
}

impl ClkScale {
    /// The register value with the bits `raw`.
    #[verifier::allow_in_spec]
    pub fn new_with_raw_value(raw: u32) -> ClkScale
        returns
            (ClkScale { raw }),
    {
        ClkScale { raw }
    }

    /// The bits of the register value.
    #[verifier::allow_in_spec]
    pub fn raw_value(&self) -> u32
        returns
            self.raw,
    {
        self.raw
    }

    /// Clock divide value.
    #[verifier::allow_in_spec]
    pub fn div(&self) -> u8
        returns
            spec_get_field(self.raw, 0, 8) as u8,
    {
        proof {
            lemma_field_bound(self.raw, 0, 8);
        }
        get_field(self.raw, 0, 8) as u8
    }

    /// The same value with `div` replaced by `v`.
    #[verifier::allow_in_spec]
    pub fn with_div(self, v: u8) -> ClkScale
        returns
            (ClkScale { raw: spec_set_field(self.raw, 0, 8, v as u32) }),
    {
        ClkScale { raw: set_field(self.raw, 0, 8, v as u32) }
    }

    /// Bits 31 to 31 of the register.
    #[verifier::allow_in_spec]
    pub fn fastmode(&self) -> I2cSpeed
        returns
            (I2cSpeed::from_bits(spec_get_field(self.raw, 31, 1))),
    {
        I2cSpeed::from_bits(get_field(self.raw, 31, 1))
    }

    /// The same value with `fastmode` replaced by `v`.
    #[verifier::allow_in_spec]
    pub fn with_fastmode(self, v: I2cSpeed) -> ClkScale
        returns
            (ClkScale { raw: spec_set_field(self.raw, 31, 1, v.raw_value()) }),
    {
        ClkScale { raw: set_field(self.raw, 31, 1, v.raw_value()) }
    }

    /// After `div` is set, it reads as what was set and every other field as before.
    pub proof fn lemma_with_div(self, v: u8)
        requires
            v < 256,
        ensures
            self.with_div(v).div() == v,
            self.with_div(v).fastmode() == self.fastmode(),
    {
        lemma_field_bound(self.raw, 0, 8);
        lemma_set_field_get_field(self.raw, 0, 8, v as u32);
        lemma_set_field_keeps_field(self.raw, 0, 8, v as u32, 31, 1);
    }

    /// After `fastmode` is set, it reads as what was set and every other field as before.
    pub proof fn lemma_with_fastmode(self, v: I2cSpeed)
        ensures
            self.with_fastmode(v).div() == self.div(),
            self.with_fastmode(v).fastmode() == v,
    {
        v.lemma_round_trip();
        lemma_field_bound(self.raw, 31, 1);
        lemma_set_field_keeps_field(self.raw, 31, 1, v.raw_value(), 0, 8);
        lemma_set_field_get_field(self.raw, 31, 1, v.raw_value());
    }
}

/// The number of words of a transfer: eleven bits.
#[derive(Debug, Copy, Clone, PartialEq, Eq, Structural)]
pub struct Words {
    pub raw: u32,
}

impl Words {
    /// The number `value`, which fits eleven bits.
    pub fn new(value: u16) -> (words: Words)
        requires
            value < 0x800,
        ensures
            words.raw == value,
    {
        Words { raw: value as u32 }
    }

    /// The number of words.
    pub fn value(&self) -> (value: u16)
        ensures
            value == spec_get_field(self.raw, 0, 11),
            value < 0x800,
    {
        proof {
            lemma_field_bound(self.raw, 0, 11);
        }
        get_field(self.raw, 0, 11) as u16
    }
}

/// The direction of a transfer.
#[derive(Debug, Clone, Copy, PartialEq, Eq, Structural)]
pub enum Direction {
    Send,
    Receive,
}

impl Direction {
    /// The bits that stand for the variant in a register.
    #[verifier::allow_in_spec]
    pub fn raw_value(self) -> u32
        returns
            (match self {
                Direction::Send => 0u32,
                Direction::Receive => 1u32,
            }),
    {
        match self {
            Direction::Send => 0,
            Direction::Receive => 1,
        }
    }

    /// The variant that the bits `raw` stand for. Of `raw`, the low bit count.
    #[verifier::allow_in_spec]
    pub fn from_bits(raw: u32) -> Direction
        returns
            (if raw == 0 {
                Direction::Send
            } else {
                Direction::Receive
            }),
    {
        if raw == 0 {
            Direction::Send
        } else {
            Direction::Receive
        }
    }

    /// Each variant is found again from its bits, which fit in the field.
    pub proof fn lemma_round_trip(self)
        ensures
            Direction::from_bits(self.raw_value()) == self,
            self.raw_value() < 2,
    {
    }
}

impl Default for Direction {
    fn default() -> (value: Direction)
        ensures
            value == Direction::Send,
    {
        Direction::Send
    }
}

/// The address register of an I2C master.
#[derive(Debug, Clone, Copy, PartialEq, Eq, Structural)]
pub struct Address {
    pub raw: u32,
}

impl Address {
    /// The register value with the bits `raw`.
    #[verifier::allow_in_spec]
    pub fn new_with_raw_value(raw: u32) -> Address
        returns
            (Address { raw }),
    {
        Address { raw }
    }

    /// The bits of the register value.
    #[verifier::allow_in_spec]
    pub fn raw_value(&self) -> u32
        returns
            self.raw,
    {
        self.raw
    }

    /// Bits 0 to 0 of the register.
    #[verifier::allow_in_spec]
    pub fn direction(&self) -> Direction
        returns
            (Direction::from_bits(spec_get_field(self.raw, 0, 1))),
    {
        Direction::from_bits(get_field(self.raw, 0, 1))
    }

    /// The same value with `direction` replaced by `v`.
    #[verifier::allow_in_spec]
    pub fn with_direction(self, v: Direction) -> Address
        returns
            (Address { raw: spec_set_field(self.raw, 0, 1, v.raw_value()) }),
    {
        Address { raw: set_field(self.raw, 0, 1, v.raw_value()) }
    }

    /// The address of the slave.
    #[verifier::allow_in_spec]
    pub fn address(&self) -> u16
        returns
            spec_get_field(self.raw, 1, 10) as u16,
    {
        proof {
            lemma_field_bound(self.raw, 1, 10);
        }
        get_field(self.raw, 1, 10) as u16
    }

    /// The same value with `address` replaced by `v`.
    #[verifier::allow_in_spec]
    pub fn with_address(self, v: u16) -> Address
        returns
            (Address { raw: spec_set_field(self.raw, 1, 10, v as u32) }),
    {
        Address { raw: set_field(self.raw, 1, 10, v as u32) }
    }

    /// Enables 10-bit addressing mode.
    #[verifier::allow_in_spec]
    pub fn a10_mode(&self) -> bool
        returns
            spec_get_bit(self.raw, 15),
    {
        get_bit(self.raw, 15)
    }

    /// The same value with `a10_mode` replaced by `v`.
    #[verifier::allow_in_spec]
    pub fn with_a10_mode(self, v: bool) -> Address
        returns
            (Address { raw: spec_set_bit(self.raw, 15, v) }),
    {
        Address { raw: set_bit(self.raw, 15, v) }
    }

    /// After `direction` is set, it reads as what was set and every other field as before.
    pub proof fn lemma_with_direction(self, v: Direction)
        ensures
            self.with_direction(v).direction() == v,
            self.with_direction(v).address() == self.address(),
            self.with_direction(v).a10_mode() == self.a10_mode(),
    {
        v.lemma_round_trip();
        lemma_field_bound(self.raw, 0, 1);
        lemma_set_field_get_field(self.raw, 0, 1, v.raw_value());
        lemma_set_field_keeps_field(self.raw, 0, 1, v.raw_value(), 1, 10);
        lemma_bit_and_field(self.raw, 15, true, 0, 1, v.raw_value());
    }

    /// After `address` is set, it reads as what was set and every other field as before.
    pub proof fn lemma_with_address(self, v: u16)
        requires
            v < 1024,
        ensures
            self.with_address(v).direction() == self.direction(),
            self.with_address(v).address() == v,
            self.with_address(v).a10_mode() == self.a10_mode(),
    {
        lemma_field_bound(self.raw, 1, 10);
        lemma_set_field_keeps_field(self.raw, 1, 10, v as u32, 0, 1);
        lemma_set_field_get_field(self.raw, 1, 10, v as u32);
        lemma_bit_and_field(self.raw, 15, true, 1, 10, v as u32);
    }

    /// After `a10_mode` is set, it reads as what was set and every other field as before.
    pub proof fn lemma_with_a10_mode(self, v: bool)
        ensures
            self.with_a10_mode(v).direction() == self.direction(),
            self.with_a10_mode(v).address() == self.address(),
            self.with_a10_mode(v).a10_mode() == v,
    {
        lemma_bit_and_field(self.raw, 15, v, 0, 1, 0);
        lemma_bit_and_field(self.raw, 15, v, 1, 10, 0);
        lemma_set_bit_get_bit(self.raw, 15, v, 15);
    }
}

/// The data register of an I2C peripheral: a byte.
#[derive(Debug, PartialEq, Eq, Clone, Copy, Structural)]
pub struct Data {
    pub raw: u32,
}

impl Data {
    /// The register value for the byte `value`.
    #[verifier::allow_in_spec]
    pub fn new(value: u8) -> Data
        returns
            (Data { raw: value as u32 }),
    {
        Data { raw: value as u32 }
    }

    /// The byte.
    pub fn data(&self) -> (value: u8)
        ensures
            value == spec_get_field(self.raw, 0, 8),
    {
        proof {
            lemma_field_bound(self.raw, 0, 8);
        }
        get_field(self.raw, 0, 8) as u8
    }
}

/// What is written to the command register of an I2C master.
#[derive(Debug, Clone, Copy, PartialEq, Eq, Structural)]
pub struct Command {
    pub raw: u32,
}

impl Command {
    /// The register value with the bits `raw`.
    #[verifier::allow_in_spec]
    pub fn new_with_raw_value(raw: u32) -> Command
        returns
            (Command { raw }),
    {
        Command { raw }
    }

    /// The bits of the register value.
    #[verifier::allow_in_spec]
    pub fn raw_value(&self) -> u32
        returns
            self.raw,
    {
        self.raw
    }

    /// Bit 0 of the register.
    #[verifier::allow_in_spec]
    pub fn start(&self) -> bool
        returns
            spec_get_bit(self.raw, 0),
    {
        get_bit(self.raw, 0)
    }

    /// The same value with `start` replaced by `v`.
    #[verifier::allow_in_spec]
    pub fn with_start(self, v: bool) -> Command
        returns
            (Command { raw: spec_set_bit(self.raw, 0, v) }),
    {
        Command { raw: set_bit(self.raw, 0, v) }
    }

    /// Bit 1 of the register.
    #[verifier::allow_in_spec]
    pub fn stop(&self) -> bool
        returns
            spec_get_bit(self.raw, 1),
    {
        get_bit(self.raw, 1)
    }

    /// The same value with `stop` replaced by `v`.
    #[verifier::allow_in_spec]
    pub fn with_stop(self, v: bool) -> Command
        returns
            (Command { raw: spec_set_bit(self.raw, 1, v) }),
    {
        Command { raw: set_bit(self.raw, 1, v) }
    }

    /// Bit 2 of the register.
    #[verifier::allow_in_spec]
    pub fn cancel(&self) -> bool
        returns
            spec_get_bit(self.raw, 2),
    {
        get_bit(self.raw, 2)
    }

    /// The same value with `cancel` replaced by `v`.
    #[verifier::allow_in_spec]
    pub fn with_cancel(self, v: bool) -> Command
        returns
            (Command { raw: spec_set_bit(self.raw, 2, v) }),
    {
        Command { raw: set_bit(self.raw, 2, v) }
    }

    /// After `start` is set, it reads as what was set and every other field as before.
    pub proof fn lemma_with_start(self, v: bool)
        ensures
            self.with_start(v).start() == v,
            self.with_start(v).stop() == self.stop(),
            self.with_start(v).cancel() == self.cancel(),
    {
        lemma_set_bit_get_bit(self.raw, 0, v, 0);
        lemma_set_bit_get_bit(self.raw, 0, v, 1);
        lemma_set_bit_get_bit(self.raw, 0, v, 2);
    }

    /// After `stop` is set, it reads as what was set and every other field as before.
    pub proof fn lemma_with_stop(self, v: bool)
        ensures
            self.with_stop(v).start() == self.start(),
            self.with_stop(v).stop() == v,
            self.with_stop(v).cancel() == self.cancel(),
    {
        lemma_set_bit_get_bit(self.raw, 1, v, 0);
        lemma_set_bit_get_bit(self.raw, 1, v, 1);
        lemma_set_bit_get_bit(self.raw, 1, v, 2);
    }

    /// After `cancel` is set, it reads as what was set and every other field as before.
    pub proof fn lemma_with_cancel(self, v: bool)
        ensures
            self.with_cancel(v).start() == self.start(),
            self.with_cancel(v).stop() == self.stop(),
            self.with_cancel(v).cancel() == v,
    {
        lemma_set_bit_get_bit(self.raw, 2, v, 0);
        lemma_set_bit_get_bit(self.raw, 2, v, 1);
        lemma_set_bit_get_bit(self.raw, 2, v, 2);
    }
}

/// The status register of an I2C master.
#[derive(Debug, Clone, Copy, PartialEq, Eq, Structural)]
pub struct Status {
    pub raw: u32,
}

impl Status {
    /// The register value with the bits `raw`.
    #[verifier::allow_in_spec]
    pub fn new_with_raw_value(raw: u32) -> Status
        returns
            (Status { raw }),
    {
        Status { raw }
    }

    /// The bits of the register value.
    #[verifier::allow_in_spec]
    pub fn raw_value(&self) -> u32
        returns
            self.raw,
    {
        self.raw
    }

    /// Bit 0 of the register.
    #[verifier::allow_in_spec]
    pub fn i2c_idle(&self) -> bool
        returns
            spec_get_bit(self.raw, 0),
    {
        get_bit(self.raw, 0)
    }

    /// The same value with `i2c_idle` replaced by `v`.
    #[verifier::allow_in_spec]
    pub fn with_i2c_idle(self, v: bool) -> Status
        returns
            (Status { raw: spec_set_bit(self.raw, 0, v) }),
    {
        Status { raw: set_bit(self.raw, 0, v) }
    }

    /// The master is idle.
    #[verifier::allow_in_spec]
    pub fn idle(&self) -> bool
        returns
            spec_get_bit(self.raw, 1),
    {
        get_bit(self.raw, 1)
    }

    /// The same value with `idle` replaced by `v`.
    #[verifier::allow_in_spec]
    pub fn with_idle(self, v: bool) -> Status
        returns
            (Status { raw: spec_set_bit(self.raw, 1, v) }),
    {
        Status { raw: set_bit(self.raw, 1, v) }
    }

    /// The master waits for the next command.
    #[verifier::allow_in_spec]
    pub fn waiting(&self) -> bool
        returns
            spec_get_bit(self.raw, 2),
    {
        get_bit(self.raw, 2)
    }

    /// The same value with `waiting` replaced by `v`.
    #[verifier::allow_in_spec]
    pub fn with_waiting(self, v: bool) -> Status
        returns
            (Status { raw: spec_set_bit(self.raw, 2, v) }),
    {
        Status { raw: set_bit(self.raw, 2, v) }
    }

    /// Bit 3 of the register.
    #[verifier::allow_in_spec]
    pub fn stalled(&self) -> bool
        returns
            spec_get_bit(self.raw, 3),
    {
        get_bit(self.raw, 3)
    }

    /// The same value with `stalled` replaced by `v`.
    #[verifier::allow_in_spec]
    pub fn with_stalled(self, v: bool) -> Status
        returns
            (Status { raw: spec_set_bit(self.raw, 3, v) }),
    {
        Status { raw: set_bit(self.raw, 3, v) }
    }

    /// The arbitration was lost.
    #[verifier::allow_in_spec]
    pub fn arb_lost(&self) -> bool
        returns
            spec_get_bit(self.raw, 4),
    {
        get_bit(self.raw, 4)
    }

    /// The same value with `arb_lost` replaced by `v`.
    #[verifier::allow_in_spec]
    pub fn with_arb_lost(self, v: bool) -> Status
        returns
            (Status { raw: spec_set_bit(self.raw, 4, v) }),
    {
        Status { raw: set_bit(self.raw, 4, v) }
    }

    /// The address was not acknowledged.
    #[verifier::allow_in_spec]
    pub fn nack_addr(&self) -> bool
        returns
            spec_get_bit(self.raw, 5),
    {
        get_bit(self.raw, 5)
    }

    /// The same value with `nack_addr` replaced by `v`.
    #[verifier::allow_in_spec]
    pub fn with_nack_addr(self, v: bool) -> Status
        returns
            (Status { raw: spec_set_bit(self.raw, 5, v) }),
    {
        Status { raw: set_bit(self.raw, 5, v) }
    }

    /// A data byte was not acknowledged.
    #[verifier::allow_in_spec]
    pub fn nack_data(&self) -> bool
        returns
            spec_get_bit(self.raw, 6),
    {
        get_bit(self.raw, 6)
    }

    /// The same value with `nack_data` replaced by `v`.
    #[verifier::allow_in_spec]
    pub fn with_nack_data(self, v: bool) -> Status
        returns
            (Status { raw: spec_set_bit(self.raw, 6, v) }),
    {
        Status { raw: set_bit(self.raw, 6, v) }
    }

    /// Bit 8 of the register.
    #[verifier::allow_in_spec]
    pub fn rx_not_empty(&self) -> bool
        returns
            spec_get_bit(self.raw, 8),
    {
        get_bit(self.raw, 8)
    }

    /// The same value with `rx_not_empty` replaced by `v`.
    #[verifier::allow_in_spec]
    pub fn with_rx_not_empty(self, v: bool) -> Status
        returns
            (Status { raw: spec_set_bit(self.raw, 8, v) }),
    {
        Status { raw: set_bit(self.raw, 8, v) }
    }

    /// Bit 9 of the register.
    #[verifier::allow_in_spec]
    pub fn rx_full(&self) -> bool
        returns
            spec_get_bit(self.raw, 9),
    {
        get_bit(self.raw, 9)
    }

    /// The same value with `rx_full` replaced by `v`.
    #[verifier::allow_in_spec]
    pub fn with_rx_full(self, v: bool) -> Status
        returns
            (Status { raw: spec_set_bit(self.raw, 9, v) }),
    {
        Status { raw: set_bit(self.raw, 9, v) }
    }

    /// Bit 11 of the register.
    #[verifier::allow_in_spec]
    pub fn rx_trigger(&self) -> bool
        returns
            spec_get_bit(self.raw, 11),
    {
        get_bit(self.raw, 11)
    }

    /// The same value with `rx_trigger` replaced by `v`.
    #[verifier::allow_in_spec]
    pub fn with_rx_trigger(self, v: bool) -> Status
        returns
            (Status { raw: spec_set_bit(self.raw, 11, v) }),
    {
        Status { raw: set_bit(self.raw, 11, v) }
    }

    /// Bit 12 of the register.
    #[verifier::allow_in_spec]
    pub fn tx_empty(&self) -> bool
        returns
            spec_get_bit(self.raw, 12),
    {
        get_bit(self.raw, 12)
    }

    /// The same value with `tx_empty` replaced by `v`.
    #[verifier::allow_in_spec]
    pub fn with_tx_empty(self, v: bool) -> Status
        returns
            (Status { raw: spec_set_bit(self.raw, 12, v) }),
    {
        Status { raw: set_bit(self.raw, 12, v) }
    }

    /// Bit 13 of the register.
    #[verifier::allow_in_spec]
    pub fn tx_not_full(&self) -> bool
        returns
            spec_get_bit(self.raw, 13),
    {
        get_bit(self.raw, 13)
    }

    /// The same value with `tx_not_full` replaced by `v`.
    #[verifier::allow_in_spec]
    pub fn with_tx_not_full(self, v: bool) -> Status
        returns
            (Status { raw: spec_set_bit(self.raw, 13, v) }),
    {
        Status { raw: set_bit(self.raw, 13, v) }
    }

    /// Bit 15 of the register.
    #[verifier::allow_in_spec]
    pub fn tx_trigger(&self) -> bool
        returns
            spec_get_bit(self.raw, 15),
    {
        get_bit(self.raw, 15)
    }

    /// The same value with `tx_trigger` replaced by `v`.
    #[verifier::allow_in_spec]
    pub fn with_tx_trigger(self, v: bool) -> Status
        returns
            (Status { raw: spec_set_bit(self.raw, 15, v) }),
    {
        Status { raw: set_bit(self.raw, 15, v) }
    }

    /// Bit 30 of the register.
    #[verifier::allow_in_spec]
    pub fn raw_sda(&self) -> bool
        returns
            spec_get_bit(self.raw, 30),
    {
        get_bit(self.raw, 30)
    }

    /// The same value with `raw_sda` replaced by `v`.
    #[verifier::allow_in_spec]
    pub fn with_raw_sda(self, v: bool) -> Status
        returns
            (Status { raw: spec_set_bit(self.raw, 30, v) }),
    {
        Status { raw: set_bit(self.raw, 30, v) }
    }

    /// Bit 31 of the register.
    #[verifier::allow_in_spec]
    pub fn raw_scl(&self) -> bool
        returns
            spec_get_bit(self.raw, 31),
    {
        get_bit(self.raw, 31)
    }

    /// The same value with `raw_scl` replaced by `v`.
    #[verifier::allow_in_spec]
    pub fn with_raw_scl(self, v: bool) -> Status
        returns
            (Status { raw: spec_set_bit(self.raw, 31, v) }),
    {
        Status { raw: set_bit(self.raw, 31, v) }
    }

    /// After `i2c_idle` is set, it reads as what was set and every other field as before.
    pub proof fn lemma_with_i2c_idle(self, v: bool)
        ensures
            self.with_i2c_idle(v).i2c_idle() == v,
            self.with_i2c_idle(v).idle() == self.idle(),
            self.with_i2c_idle(v).waiting() == self.waiting(),
            self.with_i2c_idle(v).stalled() == self.stalled(),
            self.with_i2c_idle(v).arb_lost() == self.arb_lost(),
            self.with_i2c_idle(v).nack_addr() == self.nack_addr(),
            self.with_i2c_idle(v).nack_data() == self.nack_data(),
            self.with_i2c_idle(v).rx_not_empty() == self.rx_not_empty(),
            self.with_i2c_idle(v).rx_full() == self.rx_full(),
            self.with_i2c_idle(v).rx_trigger() == self.rx_trigger(),
            self.with_i2c_idle(v).tx_empty() == self.tx_empty(),
            self.with_i2c_idle(v).tx_not_full() == self.tx_not_full(),
            self.with_i2c_idle(v).tx_trigger() == self.tx_trigger(),
            self.with_i2c_idle(v).raw_sda() == self.raw_sda(),
            self.with_i2c_idle(v).raw_scl() == self.raw_scl(),
    {
        lemma_set_bit_get_bit(self.raw, 0, v, 0);
        lemma_set_bit_get_bit(self.raw, 0, v, 1);
        lemma_set_bit_get_bit(self.raw, 0, v, 2);
        lemma_set_bit_get_bit(self.raw, 0, v, 3);
        lemma_set_bit_get_bit(self.raw, 0, v, 4);
        lemma_set_bit_get_bit(self.raw, 0, v, 5);
        lemma_set_bit_get_bit(self.raw, 0, v, 6);
        lemma_set_bit_get_bit(self.raw, 0, v, 8);
        lemma_set_bit_get_bit(self.raw, 0, v, 9);
        lemma_set_bit_get_bit(self.raw, 0, v, 11);
        lemma_set_bit_get_bit(self.raw, 0, v, 12);
        lemma_set_bit_get_bit(self.raw, 0, v, 13);
        lemma_set_bit_get_bit(self.raw, 0, v, 15);
        lemma_set_bit_get_bit(self.raw, 0, v, 30);
        lemma_set_bit_get_bit(self.raw, 0, v, 31);
    }

    /// After `idle` is set, it reads as what was set and every other field as before.
    pub proof fn lemma_with_idle(self, v: bool)
        ensures
            self.with_idle(v).i2c_idle() == self.i2c_idle(),
            self.with_idle(v).idle() == v,
            self.with_idle(v).waiting() == self.waiting(),
            self.with_idle(v).stalled() == self.stalled(),
            self.with_idle(v).arb_lost() == self.arb_lost(),
            self.with_idle(v).nack_addr() == self.nack_addr(),
            self.with_idle(v).nack_data() == self.nack_data(),
            self.with_idle(v).rx_not_empty() == self.rx_not_empty(),
            self.with_idle(v).rx_full() == self.rx_full(),
            self.with_idle(v).rx_trigger() == self.rx_trigger(),
            self.with_idle(v).tx_empty() == self.tx_empty(),
            self.with_idle(v).tx_not_full() == self.tx_not_full(),
            self.with_idle(v).tx_trigger() == self.tx_trigger(),
            self.with_idle(v).raw_sda() == self.raw_sda(),
            self.with_idle(v).raw_scl() == self.raw_scl(),
    {
        lemma_set_bit_get_bit(self.raw, 1, v, 0);
        lemma_set_bit_get_bit(self.raw, 1, v, 1);
        lemma_set_bit_get_bit(self.raw, 1, v, 2);
        lemma_set_bit_get_bit(self.raw, 1, v, 3);
        lemma_set_bit_get_bit(self.raw, 1, v, 4);
        lemma_set_bit_get_bit(self.raw, 1, v, 5);
        lemma_set_bit_get_bit(self.raw, 1, v, 6);
        lemma_set_bit_get_bit(self.raw, 1, v, 8);
        lemma_set_bit_get_bit(self.raw, 1, v, 9);
        lemma_set_bit_get_bit(self.raw, 1, v, 11);
        lemma_set_bit_get_bit(self.raw, 1, v, 12);
        lemma_set_bit_get_bit(self.raw, 1, v, 13);
        lemma_set_bit_get_bit(self.raw, 1, v, 15);
        lemma_set_bit_get_bit(self.raw, 1, v, 30);
        lemma_set_bit_get_bit(self.raw, 1, v, 31);
    }

    /// After `waiting` is set, it reads as what was set and every other field as before.
    pub proof fn lemma_with_waiting(self, v: bool)
        ensures
            self.with_waiting(v).i2c_idle() == self.i2c_idle(),
            self.with_waiting(v).idle() == self.idle(),
            self.with_waiting(v).waiting() == v,
            self.with_waiting(v).stalled() == self.stalled(),
            self.with_waiting(v).arb_lost() == self.arb_lost(),
            self.with_waiting(v).nack_addr() == self.nack_addr(),
            self.with_waiting(v).nack_data() == self.nack_data(),
            self.with_waiting(v).rx_not_empty() == self.rx_not_empty(),
            self.with_waiting(v).rx_full() == self.rx_full(),
            self.with_waiting(v).rx_trigger() == self.rx_trigger(),
            self.with_waiting(v).tx_empty() == self.tx_empty(),
            self.with_waiting(v).tx_not_full() == self.tx_not_full(),
            self.with_waiting(v).tx_trigger() == self.tx_trigger(),
            self.with_waiting(v).raw_sda() == self.raw_sda(),
            self.with_waiting(v).raw_scl() == self.raw_scl(),
    {
        lemma_set_bit_get_bit(self.raw, 2, v, 0);
        lemma_set_bit_get_bit(self.raw, 2, v, 1);
        lemma_set_bit_get_bit(self.raw, 2, v, 2);
        lemma_set_bit_get_bit(self.raw, 2, v, 3);
        lemma_set_bit_get_bit(self.raw, 2, v, 4);
        lemma_set_bit_get_bit(self.raw, 2, v, 5);
        lemma_set_bit_get_bit(self.raw, 2, v, 6);
        lemma_set_bit_get_bit(self.raw, 2, v, 8);
        lemma_set_bit_get_bit(self.raw, 2, v, 9);
        lemma_set_bit_get_bit(self.raw, 2, v, 11);
        lemma_set_bit_get_bit(self.raw, 2, v, 12);
        lemma_set_bit_get_bit(self.raw, 2, v, 13);
        lemma_set_bit_get_bit(self.raw, 2, v, 15);
        lemma_set_bit_get_bit(self.raw, 2, v, 30);
        lemma_set_bit_get_bit(self.raw, 2, v, 31);
    }

    /// After `stalled` is set, it reads as what was set and every other field as before.
    pub proof fn lemma_with_stalled(self, v: bool)
        ensures
            self.with_stalled(v).i2c_idle() == self.i2c_idle(),
            self.with_stalled(v).idle() == self.idle(),
            self.with_stalled(v).waiting() == self.waiting(),
            self.with_stalled(v).stalled() == v,
            self.with_stalled(v).arb_lost() == self.arb_lost(),
            self.with_stalled(v).nack_addr() == self.nack_addr(),
            self.with_stalled(v).nack_data() == self.nack_data(),
            self.with_stalled(v).rx_not_empty() == self.rx_not_empty(),
            self.with_stalled(v).rx_full() == self.rx_full(),
            self.with_stalled(v).rx_trigger() == self.rx_trigger(),
            self.with_stalled(v).tx_empty() == self.tx_empty(),
            self.with_stalled(v).tx_not_full() == self.tx_not_full(),
            self.with_stalled(v).tx_trigger() == self.tx_trigger(),
            self.with_stalled(v).raw_sda() == self.raw_sda(),
            self.with_stalled(v).raw_scl() == self.raw_scl(),
    {
        lemma_set_bit_get_bit(self.raw, 3, v, 0);
        lemma_set_bit_get_bit(self.raw, 3, v, 1);
        lemma_set_bit_get_bit(self.raw, 3, v, 2);
        lemma_set_bit_get_bit(self.raw, 3, v, 3);
        lemma_set_bit_get_bit(self.raw, 3, v, 4);
        lemma_set_bit_get_bit(self.raw, 3, v, 5);
        lemma_set_bit_get_bit(self.raw, 3, v, 6);
        lemma_set_bit_get_bit(self.raw, 3, v, 8);
        lemma_set_bit_get_bit(self.raw, 3, v, 9);
        lemma_set_bit_get_bit(self.raw, 3, v, 11);
        lemma_set_bit_get_bit(self.raw, 3, v, 12);
        lemma_set_bit_get_bit(self.raw, 3, v, 13);
        lemma_set_bit_get_bit(self.raw, 3, v, 15);
        lemma_set_bit_get_bit(self.raw, 3, v, 30);
        lemma_set_bit_get_bit(self.raw, 3, v, 31);
    }

    /// After `arb_lost` is set, it reads as what was set and every other field as before.
    pub proof fn lemma_with_arb_lost(self, v: bool)
        ensures
            self.with_arb_lost(v).i2c_idle() == self.i2c_idle(),
            self.with_arb_lost(v).idle() == self.idle(),
            self.with_arb_lost(v).waiting() == self.waiting(),
            self.with_arb_lost(v).stalled() == self.stalled(),
            self.with_arb_lost(v).arb_lost() == v,
            self.with_arb_lost(v).nack_addr() == self.nack_addr(),
            self.with_arb_lost(v).nack_data() == self.nack_data(),
            self.with_arb_lost(v).rx_not_empty() == self.rx_not_empty(),
            self.with_arb_lost(v).rx_full() == self.rx_full(),
            self.with_arb_lost(v).rx_trigger() == self.rx_trigger(),
            self.with_arb_lost(v).tx_empty() == self.tx_empty(),
            self.with_arb_lost(v).tx_not_full() == self.tx_not_full(),
            self.with_arb_lost(v).tx_trigger() == self.tx_trigger(),
            self.with_arb_lost(v).raw_sda() == self.raw_sda(),
            self.with_arb_lost(v).raw_scl() == self.raw_scl(),
    {
        lemma_set_bit_get_bit(self.raw, 4, v, 0);
        lemma_set_bit_get_bit(self.raw, 4, v, 1);
        lemma_set_bit_get_bit(self.raw, 4, v, 2);
        lemma_set_bit_get_bit(self.raw, 4, v, 3);
        lemma_set_bit_get_bit(self.raw, 4, v, 4);
        lemma_set_bit_get_bit(self.raw, 4, v, 5);
        lemma_set_bit_get_bit(self.raw, 4, v, 6);
        lemma_set_bit_get_bit(self.raw, 4, v, 8);
        lemma_set_bit_get_bit(self.raw, 4, v, 9);
        lemma_set_bit_get_bit(self.raw, 4, v, 11);
        lemma_set_bit_get_bit(self.raw, 4, v, 12);
        lemma_set_bit_get_bit(self.raw, 4, v, 13);
        lemma_set_bit_get_bit(self.raw, 4, v, 15);
        lemma_set_bit_get_bit(self.raw, 4, v, 30);
        lemma_set_bit_get_bit(self.raw, 4, v, 31);
    }

    /// After `nack_addr` is set, it reads as what was set and every other field as before.
    pub proof fn lemma_with_nack_addr(self, v: bool)
        ensures
            self.with_nack_addr(v).i2c_idle() == self.i2c_idle(),
            self.with_nack_addr(v).idle() == self.idle(),
            self.with_nack_addr(v).waiting() == self.waiting(),
            self.with_nack_addr(v).stalled() == self.stalled(),
            self.with_nack_addr(v).arb_lost() == self.arb_lost(),
            self.with_nack_addr(v).nack_addr() == v,
            self.with_nack_addr(v).nack_data() == self.nack_data(),
            self.with_nack_addr(v).rx_not_empty() == self.rx_not_empty(),
            self.with_nack_addr(v).rx_full() == self.rx_full(),
            self.with_nack_addr(v).rx_trigger() == self.rx_trigger(),
            self.with_nack_addr(v).tx_empty() == self.tx_empty(),
            self.with_nack_addr(v).tx_not_full() == self.tx_not_full(),
            self.with_nack_addr(v).tx_trigger() == self.tx_trigger(),
            self.with_nack_addr(v).raw_sda() == self.raw_sda(),
            self.with_nack_addr(v).raw_scl() == self.raw_scl(),
    {
        lemma_set_bit_get_bit(self.raw, 5, v, 0);
        lemma_set_bit_get_bit(self.raw, 5, v, 1);
        lemma_set_bit_get_bit(self.raw, 5, v, 2);
        lemma_set_bit_get_bit(self.raw, 5, v, 3);
        lemma_set_bit_get_bit(self.raw, 5, v, 4);
        lemma_set_bit_get_bit(self.raw, 5, v, 5);
        lemma_set_bit_get_bit(self.raw, 5, v, 6);
        lemma_set_bit_get_bit(self.raw, 5, v, 8);
        lemma_set_bit_get_bit(self.raw, 5, v, 9);
        lemma_set_bit_get_bit(self.raw, 5, v, 11);
        lemma_set_bit_get_bit(self.raw, 5, v, 12);
        lemma_set_bit_get_bit(self.raw, 5, v, 13);
        lemma_set_bit_get_bit(self.raw, 5, v, 15);
        lemma_set_bit_get_bit(self.raw, 5, v, 30);
        lemma_set_bit_get_bit(self.raw, 5, v, 31);
    }

    /// After `nack_data` is set, it reads as what was set and every other field as before.
    pub proof fn lemma_with_nack_data(self, v: bool)
        ensures
            self.with_nack_data(v).i2c_idle() == self.i2c_idle(),
            self.with_nack_data(v).idle() == self.idle(),
            self.with_nack_data(v).waiting() == self.waiting(),
            self.with_nack_data(v).stalled() == self.stalled(),
            self.with_nack_data(v).arb_lost() == self.arb_lost(),
            self.with_nack_data(v).nack_addr() == self.nack_addr(),
            self.with_nack_data(v).nack_data() == v,
            self.with_nack_data(v).rx_not_empty() == self.rx_not_empty(),
            self.with_nack_data(v).rx_full() == self.rx_full(),
            self.with_nack_data(v).rx_trigger() == self.rx_trigger(),
            self.with_nack_data(v).tx_empty() == self.tx_empty(),
            self.with_nack_data(v).tx_not_full() == self.tx_not_full(),
            self.with_nack_data(v).tx_trigger() == self.tx_trigger(),
            self.with_nack_data(v).raw_sda() == self.raw_sda(),
            self.with_nack_data(v).raw_scl() == self.raw_scl(),
    {
        lemma_set_bit_get_bit(self.raw, 6, v, 0);
        lemma_set_bit_get_bit(self.raw, 6, v, 1);
        lemma_set_bit_get_bit(self.raw, 6, v, 2);
        lemma_set_bit_get_bit(self.raw, 6, v, 3);
        lemma_set_bit_get_bit(self.raw, 6, v, 4);
        lemma_set_bit_get_bit(self.raw, 6, v, 5);
        lemma_set_bit_get_bit(self.raw, 6, v, 6);
        lemma_set_bit_get_bit(self.raw, 6, v, 8);
        lemma_set_bit_get_bit(self.raw, 6, v, 9);
        lemma_set_bit_get_bit(self.raw, 6, v, 11);
        lemma_set_bit_get_bit(self.raw, 6, v, 12);
        lemma_set_bit_get_bit(self.raw, 6, v, 13);
        lemma_set_bit_get_bit(self.raw, 6, v, 15);
        lemma_set_bit_get_bit(self.raw, 6, v, 30);
        lemma_set_bit_get_bit(self.raw, 6, v, 31);
    }

    /// After `rx_not_empty` is set, it reads as what was set and every other field as before.
    pub proof fn lemma_with_rx_not_empty(self, v: bool)
        ensures
            self.with_rx_not_empty(v).i2c_idle() == self.i2c_idle(),
            self.with_rx_not_empty(v).idle() == self.idle(),
            self.with_rx_not_empty(v).waiting() == self.waiting(),
            self.with_rx_not_empty(v).stalled() == self.stalled(),
            self.with_rx_not_empty(v).arb_lost() == self.arb_lost(),
            self.with_rx_not_empty(v).nack_addr() == self.nack_addr(),
            self.with_rx_not_empty(v).nack_data() == self.nack_data(),
            self.with_rx_not_empty(v).rx_not_empty() == v,
            self.with_rx_not_empty(v).rx_full() == self.rx_full(),
            self.with_rx_not_empty(v).rx_trigger() == self.rx_trigger(),
            self.with_rx_not_empty(v).tx_empty() == self.tx_empty(),
            self.with_rx_not_empty(v).tx_not_full() == self.tx_not_full(),
            self.with_rx_not_empty(v).tx_trigger() == self.tx_trigger(),
            self.with_rx_not_empty(v).raw_sda() == self.raw_sda(),
            self.with_rx_not_empty(v).raw_scl() == self.raw_scl(),
    {
        lemma_set_bit_get_bit(self.raw, 8, v, 0);
        lemma_set_bit_get_bit(self.raw, 8, v, 1);
        lemma_set_bit_get_bit(self.raw, 8, v, 2);
        lemma_set_bit_get_bit(self.raw, 8, v, 3);
        lemma_set_bit_get_bit(self.raw, 8, v, 4);
        lemma_set_bit_get_bit(self.raw, 8, v, 5);
        lemma_set_bit_get_bit(self.raw, 8, v, 6);
        lemma_set_bit_get_bit(self.raw, 8, v, 8);
        lemma_set_bit_get_bit(self.raw, 8, v, 9);
        lemma_set_bit_get_bit(self.raw, 8, v, 11);
        lemma_set_bit_get_bit(self.raw, 8, v, 12);
        lemma_set_bit_get_bit(self.raw, 8, v, 13);
        lemma_set_bit_get_bit(self.raw, 8, v, 15);
        lemma_set_bit_get_bit(self.raw, 8, v, 30);
        lemma_set_bit_get_bit(self.raw, 8, v, 31);
    }

    /// After `rx_full` is set, it reads as what was set and every other field as before.
    pub proof fn lemma_with_rx_full(self, v: bool)
        ensures
            self.with_rx_full(v).i2c_idle() == self.i2c_idle(),
            self.with_rx_full(v).idle() == self.idle(),
            self.with_rx_full(v).waiting() == self.waiting(),
            self.with_rx_full(v).stalled() == self.stalled(),
            self.with_rx_full(v).arb_lost() == self.arb_lost(),
            self.with_rx_full(v).nack_addr() == self.nack_addr(),
            self.with_rx_full(v).nack_data() == self.nack_data(),
            self.with_rx_full(v).rx_not_empty() == self.rx_not_empty(),
            self.with_rx_full(v).rx_full() == v,
            self.with_rx_full(v).rx_trigger() == self.rx_trigger(),
            self.with_rx_full(v).tx_empty() == self.tx_empty(),
            self.with_rx_full(v).tx_not_full() == self.tx_not_full(),
            self.with_rx_full(v).tx_trigger() == self.tx_trigger(),
            self.with_rx_full(v).raw_sda() == self.raw_sda(),
            self.with_rx_full(v).raw_scl() == self.raw_scl(),
    {
        lemma_set_bit_get_bit(self.raw, 9, v, 0);
        lemma_set_bit_get_bit(self.raw, 9, v, 1);
        lemma_set_bit_get_bit(self.raw, 9, v, 2);
        lemma_set_bit_get_bit(self.raw, 9, v, 3);
        lemma_set_bit_get_bit(self.raw, 9, v, 4);
        lemma_set_bit_get_bit(self.raw, 9, v, 5);
        lemma_set_bit_get_bit(self.raw, 9, v, 6);
        lemma_set_bit_get_bit(self.raw, 9, v, 8);
        lemma_set_bit_get_bit(self.raw, 9, v, 9);
        lemma_set_bit_get_bit(self.raw, 9, v, 11);
        lemma_set_bit_get_bit(self.raw, 9, v, 12);
        lemma_set_bit_get_bit(self.raw, 9, v, 13);
        lemma_set_bit_get_bit(self.raw, 9, v, 15);
        lemma_set_bit_get_bit(self.raw, 9, v, 30);
        lemma_set_bit_get_bit(self.raw, 9, v, 31);
    }

    /// After `rx_trigger` is set, it reads as what was set and every other field as before.
    pub proof fn lemma_with_rx_trigger(self, v: bool)
        ensures
            self.with_rx_trigger(v).i2c_idle() == self.i2c_idle(),
            self.with_rx_trigger(v).idle() == self.idle(),
            self.with_rx_trigger(v).waiting() == self.waiting(),
            self.with_rx_trigger(v).stalled() == self.stalled(),
            self.with_rx_trigger(v).arb_lost() == self.arb_lost(),
            self.with_rx_trigger(v).nack_addr() == self.nack_addr(),
            self.with_rx_trigger(v).nack_data() == self.nack_data(),
            self.with_rx_trigger(v).rx_not_empty() == self.rx_not_empty(),
            self.with_rx_trigger(v).rx_full() == self.rx_full(),
            self.with_rx_trigger(v).rx_trigger() == v,
            self.with_rx_trigger(v).tx_empty() == self.tx_empty(),
            self.with_rx_trigger(v).tx_not_full() == self.tx_not_full(),
            self.with_rx_trigger(v).tx_trigger() == self.tx_trigger(),
            self.with_rx_trigger(v).raw_sda() == self.raw_sda(),
            self.with_rx_trigger(v).raw_scl() == self.raw_scl(),
    {
        lemma_set_bit_get_bit(self.raw, 11, v, 0);
        lemma_set_bit_get_bit(self.raw, 11, v, 1);
        lemma_set_bit_get_bit(self.raw, 11, v, 2);
        lemma_set_bit_get_bit(self.raw, 11, v, 3);
        lemma_set_bit_get_bit(self.raw, 11, v, 4);
        lemma_set_bit_get_bit(self.raw, 11, v, 5);
        lemma_set_bit_get_bit(self.raw, 11, v, 6);
        lemma_set_bit_get_bit(self.raw, 11, v, 8);
        lemma_set_bit_get_bit(self.raw, 11, v, 9);
        lemma_set_bit_get_bit(self.raw, 11, v, 11);
        lemma_set_bit_get_bit(self.raw, 11, v, 12);
        lemma_set_bit_get_bit(self.raw, 11, v, 13);
        lemma_set_bit_get_bit(self.raw, 11, v, 15);
        lemma_set_bit_get_bit(self.raw, 11, v, 30);
        lemma_set_bit_get_bit(self.raw, 11, v, 31);
    }

    /// After `tx_empty` is set, it reads as what was set and every other field as before.
    pub proof fn lemma_with_tx_empty(self, v: bool)
        ensures
            self.with_tx_empty(v).i2c_idle() == self.i2c_idle(),
            self.with_tx_empty(v).idle() == self.idle(),
            self.with_tx_empty(v).waiting() == self.waiting(),
            self.with_tx_empty(v).stalled() == self.stalled(),
            self.with_tx_empty(v).arb_lost() == self.arb_lost(),
            self.with_tx_empty(v).nack_addr() == self.nack_addr(),
            self.with_tx_empty(v).nack_data() == self.nack_data(),
            self.with_tx_empty(v).rx_not_empty() == self.rx_not_empty(),
            self.with_tx_empty(v).rx_full() == self.rx_full(),
            self.with_tx_empty(v).rx_trigger() == self.rx_trigger(),
            self.with_tx_empty(v).tx_empty() == v,
            self.with_tx_empty(v).tx_not_full() == self.tx_not_full(),
            self.with_tx_empty(v).tx_trigger() == self.tx_trigger(),
            self.with_tx_empty(v).raw_sda() == self.raw_sda(),
            self.with_tx_empty(v).raw_scl() == self.raw_scl(),
    {
        lemma_set_bit_get_bit(self.raw, 12, v, 0);
        lemma_set_bit_get_bit(self.raw, 12, v, 1);
        lemma_set_bit_get_bit(self.raw, 12, v, 2);
        lemma_set_bit_get_bit(self.raw, 12, v, 3);
        lemma_set_bit_get_bit(self.raw, 12, v, 4);
        lemma_set_bit_get_bit(self.raw, 12, v, 5);
        lemma_set_bit_get_bit(self.raw, 12, v, 6);
        lemma_set_bit_get_bit(self.raw, 12, v, 8);
        lemma_set_bit_get_bit(self.raw, 12, v, 9);
        lemma_set_bit_get_bit(self.raw, 12, v, 11);
        lemma_set_bit_get_bit(self.raw, 12, v, 12);
        lemma_set_bit_get_bit(self.raw, 12, v, 13);
        lemma_set_bit_get_bit(self.raw, 12, v, 15);
        lemma_set_bit_get_bit(self.raw, 12, v, 30);
        lemma_set_bit_get_bit(self.raw, 12, v, 31);
    }

    /// After `tx_not_full` is set, it reads as what was set and every other field as before.
    pub proof fn lemma_with_tx_not_full(self, v: bool)
        ensures
            self.with_tx_not_full(v).i2c_idle() == self.i2c_idle(),
            self.with_tx_not_full(v).idle() == self.idle(),
            self.with_tx_not_full(v).waiting() == self.waiting(),
            self.with_tx_not_full(v).stalled() == self.stalled(),
            self.with_tx_not_full(v).arb_lost() == self.arb_lost(),
            self.with_tx_not_full(v).nack_addr() == self.nack_addr(),
            self.with_tx_not_full(v).nack_data() == self.nack_data(),
            self.with_tx_not_full(v).rx_not_empty() == self.rx_not_empty(),
            self.with_tx_not_full(v).rx_full() == self.rx_full(),
            self.with_tx_not_full(v).rx_trigger() == self.rx_trigger(),
            self.with_tx_not_full(v).tx_empty() == self.tx_empty(),
            self.with_tx_not_full(v).tx_not_full() == v,
            self.with_tx_not_full(v).tx_trigger() == self.tx_trigger(),
            self.with_tx_not_full(v).raw_sda() == self.raw_sda(),
            self.with_tx_not_full(v).raw_scl() == self.raw_scl(),
    {
        lemma_set_bit_get_bit(self.raw, 13, v, 0);
        lemma_set_bit_get_bit(self.raw, 13, v, 1);
        lemma_set_bit_get_bit(self.raw, 13, v, 2);
        lemma_set_bit_get_bit(self.raw, 13, v, 3);
        lemma_set_bit_get_bit(self.raw, 13, v, 4);
        lemma_set_bit_get_bit(self.raw, 13, v, 5);
        lemma_set_bit_get_bit(self.raw, 13, v, 6);
        lemma_set_bit_get_bit(self.raw, 13, v, 8);
        lemma_set_bit_get_bit(self.raw, 13, v, 9);
        lemma_set_bit_get_bit(self.raw, 13, v, 11);
        lemma_set_bit_get_bit(self.raw, 13, v, 12);
        lemma_set_bit_get_bit(self.raw, 13, v, 13);
        lemma_set_bit_get_bit(self.raw, 13, v, 15);
        lemma_set_bit_get_bit(self.raw, 13, v, 30);
        lemma_set_bit_get_bit(self.raw, 13, v, 31);
    }

    /// After `tx_trigger` is set, it reads as what was set and every other field as before.
    pub proof fn lemma_with_tx_trigger(self, v: bool)
        ensures
            self.with_tx_trigger(v).i2c_idle() == self.i2c_idle(),
            self.with_tx_trigger(v).idle() == self.idle(),
            self.with_tx_trigger(v).waiting() == self.waiting(),
            self.with_tx_trigger(v).stalled() == self.stalled(),
            self.with_tx_trigger(v).arb_lost() == self.arb_lost(),
            self.with_tx_trigger(v).nack_addr() == self.nack_addr(),
            self.with_tx_trigger(v).nack_data() == self.nack_data(),
            self.with_tx_trigger(v).rx_not_empty() == self.rx_not_empty(),
            self.with_tx_trigger(v).rx_full() == self.rx_full(),
            self.with_tx_trigger(v).rx_trigger() == self.rx_trigger(),
            self.with_tx_trigger(v).tx_empty() == self.tx_empty(),
            self.with_tx_trigger(v).tx_not_full() == self.tx_not_full(),
            self.with_tx_trigger(v).tx_trigger() == v,
            self.with_tx_trigger(v).raw_sda() == self.raw_sda(),
            self.with_tx_trigger(v).raw_scl() == self.raw_scl(),
    {
        lemma_set_bit_get_bit(self.raw, 15, v, 0);
        lemma_set_bit_get_bit(self.raw, 15, v, 1);
        lemma_set_bit_get_bit(self.raw, 15, v, 2);
        lemma_set_bit_get_bit(self.raw, 15, v, 3);
        lemma_set_bit_get_bit(self.raw, 15, v, 4);
        lemma_set_bit_get_bit(self.raw, 15, v, 5);
        lemma_set_bit_get_bit(self.raw, 15, v, 6);
        lemma_set_bit_get_bit(self.raw, 15, v, 8);
        lemma_set_bit_get_bit(self.raw, 15, v, 9);
        lemma_set_bit_get_bit(self.raw, 15, v, 11);
        lemma_set_bit_get_bit(self.raw, 15, v, 12);
        lemma_set_bit_get_bit(self.raw, 15, v, 13);
        lemma_set_bit_get_bit(self.raw, 15, v, 15);
        lemma_set_bit_get_bit(self.raw, 15, v, 30);
        lemma_set_bit_get_bit(self.raw, 15, v, 31);
    }

    /// After `raw_sda` is set, it reads as what was set and every other field as before.
    pub proof fn lemma_with_raw_sda(self, v: bool)
        ensures
            self.with_raw_sda(v).i2c_idle() == self.i2c_idle(),
            self.with_raw_sda(v).idle() == self.idle(),
            self.with_raw_sda(v).waiting() == self.waiting(),
            self.with_raw_sda(v).stalled() == self.stalled(),
            self.with_raw_sda(v).arb_lost() == self.arb_lost(),
            self.with_raw_sda(v).nack_addr() == self.nack_addr(),
            self.with_raw_sda(v).nack_data() == self.nack_data(),
            self.with_raw_sda(v).rx_not_empty() == self.rx_not_empty(),
            self.with_raw_sda(v).rx_full() == self.rx_full(),
            self.with_raw_sda(v).rx_trigger() == self.rx_trigger(),
            self.with_raw_sda(v).tx_empty() == self.tx_empty(),
            self.with_raw_sda(v).tx_not_full() == self.tx_not_full(),
            self.with_raw_sda(v).tx_trigger() == self.tx_trigger(),
            self.with_raw_sda(v).raw_sda() == v,
            self.with_raw_sda(v).raw_scl() == self.raw_scl(),
    {
        lemma_set_bit_get_bit(self.raw, 30, v, 0);
        lemma_set_bit_get_bit(self.raw, 30, v, 1);
        lemma_set_bit_get_bit(self.raw, 30, v, 2);
        lemma_set_bit_get_bit(self.raw, 30, v, 3);
        lemma_set_bit_get_bit(self.raw, 30, v, 4);
        lemma_set_bit_get_bit(self.raw, 30, v, 5);
        lemma_set_bit_get_bit(self.raw, 30, v, 6);
        lemma_set_bit_get_bit(self.raw, 30, v, 8);
        lemma_set_bit_get_bit(self.raw, 30, v, 9);
        lemma_set_bit_get_bit(self.raw, 30, v, 11);
        lemma_set_bit_get_bit(self.raw, 30, v, 12);
        lemma_set_bit_get_bit(self.raw, 30, v, 13);
        lemma_set_bit_get_bit(self.raw, 30, v, 15);
        lemma_set_bit_get_bit(self.raw, 30, v, 30);
        lemma_set_bit_get_bit(self.raw, 30, v, 31);
    }

    /// After `raw_scl` is set, it reads as what was set and every other field as before.
    pub proof fn lemma_with_raw_scl(self, v: bool)
        ensures
            self.with_raw_scl(v).i2c_idle() == self.i2c_idle(),
            self.with_raw_scl(v).idle() == self.idle(),
            self.with_raw_scl(v).waiting() == self.waiting(),
            self.with_raw_scl(v).stalled() == self.stalled(),
            self.with_raw_scl(v).arb_lost() == self.arb_lost(),
            self.with_raw_scl(v).nack_addr() == self.nack_addr(),
            self.with_raw_scl(v).nack_data() == self.nack_data(),
            self.with_raw_scl(v).rx_not_empty() == self.rx_not_empty(),
            self.with_raw_scl(v).rx_full() == self.rx_full(),
            self.with_raw_scl(v).rx_trigger() == self.rx_trigger(),
            self.with_raw_scl(v).tx_empty() == self.tx_empty(),
            self.with_raw_scl(v).tx_not_full() == self.tx_not_full(),
            self.with_raw_scl(v).tx_trigger() == self.tx_trigger(),
            self.with_raw_scl(v).raw_sda() == self.raw_sda(),
            self.with_raw_scl(v).raw_scl() == v,
    {
        lemma_set_bit_get_bit(self.raw, 31, v, 0);
        lemma_set_bit_get_bit(self.raw, 31, v, 1);
        lemma_set_bit_get_bit(self.raw, 31, v, 2);
        lemma_set_bit_get_bit(self.raw, 31, v, 3);
        lemma_set_bit_get_bit(self.raw, 31, v, 4);
        lemma_set_bit_get_bit(self.raw, 31, v, 5);
        lemma_set_bit_get_bit(self.raw, 31, v, 6);
        lemma_set_bit_get_bit(self.raw, 31, v, 8);
        lemma_set_bit_get_bit(self.raw, 31, v, 9);
        lemma_set_bit_get_bit(self.raw, 31, v, 11);
        lemma_set_bit_get_bit(self.raw, 31, v, 12);
        lemma_set_bit_get_bit(self.raw, 31, v, 13);
        lemma_set_bit_get_bit(self.raw, 31, v, 15);
        lemma_set_bit_get_bit(self.raw, 31, v, 30);
        lemma_set_bit_get_bit(self.raw, 31, v, 31);
    }
}

/// The state register of an I2C master.
#[derive(Debug, Clone, Copy, PartialEq, Eq, Structural)]
pub struct State {
    pub raw: u32,
}

impl State {
    /// The register value with the bits `raw`.
    #[verifier::allow_in_spec]
    pub fn new_with_raw_value(raw: u32) -> State
        returns
            (State { raw }),
    {
        State { raw }
    }

    /// The bits of the register value.
    #[verifier::allow_in_spec]
    pub fn raw_value(&self) -> u32
        returns
            self.raw,
    {
        self.raw
    }

    /// Bits 0 to 3 of the register.
    #[verifier::allow_in_spec]
    pub fn state(&self) -> u8
        returns
            spec_get_field(self.raw, 0, 4) as u8,
    {
        proof {
            lemma_field_bound(self.raw, 0, 4);
        }
        get_field(self.raw, 0, 4) as u8
    }

    /// The same value with `state` replaced by `v`.
    #[verifier::allow_in_spec]
    pub fn with_state(self, v: u8) -> State
        returns
            (State { raw: spec_set_field(self.raw, 0, 4, v as u32) }),
    {
        State { raw: set_field(self.raw, 0, 4, v as u32) }
    }

    /// Bits 4 to 7 of the register.
    #[verifier::allow_in_spec]
    pub fn step(&self) -> u8
        returns
            spec_get_field(self.raw, 4, 4) as u8,
    {
        proof {
            lemma_field_bound(self.raw, 4, 4);
        }
        get_field(self.raw, 4, 4) as u8
    }

    /// The same value with `step` replaced by `v`.
    #[verifier::allow_in_spec]
    pub fn with_step(self, v: u8) -> State
        returns
            (State { raw: spec_set_field(self.raw, 4, 4, v as u32) }),
    {
        State { raw: set_field(self.raw, 4, 4, v as u32) }
    }

    /// Bits 8 to 12 of the register.
    #[verifier::allow_in_spec]
    pub fn rx_fifo(&self) -> u8
        returns
            spec_get_field(self.raw, 8, 5) as u8,
    {
        proof {
            lemma_field_bound(self.raw, 8, 5);
        }
        get_field(self.raw, 8, 5) as u8
    }

    /// The same value with `rx_fifo` replaced by `v`.
    #[verifier::allow_in_spec]
    pub fn with_rx_fifo(self, v: u8) -> State
        returns
            (State { raw: spec_set_field(self.raw, 8, 5, v as u32) }),
    {
        State { raw: set_field(self.raw, 8, 5, v as u32) }
    }

    /// Bits 14 to 18 of the register.
    #[verifier::allow_in_spec]
    pub fn tx_fifo(&self) -> u8
        returns
            spec_get_field(self.raw, 14, 5) as u8,
    {
        proof {
            lemma_field_bound(self.raw, 14, 5);
        }
        get_field(self.raw, 14, 5) as u8
    }

    /// The same value with `tx_fifo` replaced by `v`.
    #[verifier::allow_in_spec]
    pub fn with_tx_fifo(self, v: u8) -> State
        returns
            (State { raw: spec_set_field(self.raw, 14, 5, v as u32) }),
    {
        State { raw: set_field(self.raw, 14, 5, v as u32) }
    }

    /// Bits 20 to 28 of the register.
    #[verifier::allow_in_spec]
    pub fn bitstate(&self) -> u16
        returns
            spec_get_field(self.raw, 20, 9) as u16,
    {
        proof {
            lemma_field_bound(self.raw, 20, 9);
        }
        get_field(self.raw, 20, 9) as u16
    }

    /// The same value with `bitstate` replaced by `v`.
    #[verifier::allow_in_spec]
    pub fn with_bitstate(self, v: u16) -> State
        returns
            (State { raw: spec_set_field(self.raw, 20, 9, v as u32) }),
    {
        State { raw: set_field(self.raw, 20, 9, v as u32) }
    }

    /// After `state` is set, it reads as what was set and every other field as before.
    pub proof fn lemma_with_state(self, v: u8)
        requires
            v < 16,
        ensures
            self.with_state(v).state() == v,
            self.with_state(v).step() == self.step(),
            self.with_state(v).rx_fifo() == self.rx_fifo(),
            self.with_state(v).tx_fifo() == self.tx_fifo(),
            self.with_state(v).bitstate() == self.bitstate(),
    {
        lemma_field_bound(self.raw, 0, 4);
        lemma_set_field_get_field(self.raw, 0, 4, v as u32);
        lemma_set_field_keeps_field(self.raw, 0, 4, v as u32, 4, 4);
        lemma_set_field_keeps_field(self.raw, 0, 4, v as u32, 8, 5);
        lemma_set_field_keeps_field(self.raw, 0, 4, v as u32, 14, 5);
        lemma_set_field_keeps_field(self.raw, 0, 4, v as u32, 20, 9);
    }

    /// After `step` is set, it reads as what was set and every other field as before.
    pub proof fn lemma_with_step(self, v: u8)
        requires
            v < 16,
        ensures
            self.with_step(v).state() == self.state(),
            self.with_step(v).step() == v,
            self.with_step(v).rx_fifo() == self.rx_fifo(),
            self.with_step(v).tx_fifo() == self.tx_fifo(),
            self.with_step(v).bitstate() == self.bitstate(),
    {
        lemma_field_bound(self.raw, 4, 4);
        lemma_set_field_keeps_field(self.raw, 4, 4, v as u32, 0, 4);
        lemma_set_field_get_field(self.raw, 4, 4, v as u32);
        lemma_set_field_keeps_field(self.raw, 4, 4, v as u32, 8, 5);
        lemma_set_field_keeps_field(self.raw, 4, 4, v as u32, 14, 5);
        lemma_set_field_keeps_field(self.raw, 4, 4, v as u32, 20, 9);
    }

    /// After `rx_fifo` is set, it reads as what was set and every other field as before.
    pub proof fn lemma_with_rx_fifo(self, v: u8)
        requires
            v < 32,
        ensures
            self.with_rx_fifo(v).state() == self.state(),
            self.with_rx_fifo(v).step() == self.step(),
            self.with_rx_fifo(v).rx_fifo() == v,
            self.with_rx_fifo(v).tx_fifo() == self.tx_fifo(),
            self.with_rx_fifo(v).bitstate() == self.bitstate(),
    {
        lemma_field_bound(self.raw, 8, 5);
        lemma_set_field_keeps_field(self.raw, 8, 5, v as u32, 0, 4);
        lemma_set_field_keeps_field(self.raw, 8, 5, v as u32, 4, 4);
        lemma_set_field_get_field(self.raw, 8, 5, v as u32);
        lemma_set_field_keeps_field(self.raw, 8, 5, v as u32, 14, 5);
        lemma_set_field_keeps_field(self.raw, 8, 5, v as u32, 20, 9);
    }

    /// After `tx_fifo` is set, it reads as what was set and every other field as before.
    pub proof fn lemma_with_tx_fifo(self, v: u8)
        requires
            v < 32,
        ensures
            self.with_tx_fifo(v).state() == self.state(),
            self.with_tx_fifo(v).step() == self.step(),
            self.with_tx_fifo(v).rx_fifo() == self.rx_fifo(),
            self.with_tx_fifo(v).tx_fifo() == v,
            self.with_tx_fifo(v).bitstate() == self.bitstate(),
    {
        lemma_field_bound(self.raw, 14, 5);
        lemma_set_field_keeps_field(self.raw, 14, 5, v as u32, 0, 4);
        lemma_set_field_keeps_field(self.raw, 14, 5, v as u32, 4, 4);
        lemma_set_field_keeps_field(self.raw, 14, 5, v as u32, 8, 5);
        lemma_set_field_get_field(self.raw, 14, 5, v as u32);
        lemma_set_field_keeps_field(self.raw, 14, 5, v as u32, 20, 9);
    }

    /// After `bitstate` is set, it reads as what was set and every other field as before.
    pub proof fn lemma_with_bitstate(self, v: u16)
        requires
            v < 512,
        ensures
            self.with_bitstate(v).state() == self.state(),
            self.with_bitstate(v).step() == self.step(),
            self.with_bitstate(v).rx_fifo() == self.rx_fifo(),
            self.with_bitstate(v).tx_fifo() == self.tx_fifo(),
            self.with_bitstate(v).bitstate() == v,
    {
        lemma_field_bound(self.raw, 20, 9);
        lemma_set_field_keeps_field(self.raw, 20, 9, v as u32, 0, 4);
        lemma_set_field_keeps_field(self.raw, 20, 9, v as u32, 4, 4);
        lemma_set_field_keeps_field(self.raw, 20, 9, v as u32, 8, 5);
        lemma_set_field_keeps_field(self.raw, 20, 9, v as u32, 14, 5);
        lemma_set_field_get_field(self.raw, 20, 9, v as u32);
    }
}

/// A count of data words: eleven bits.
#[derive(Debug, PartialEq, Eq, Clone, Copy, Structural)]
pub struct DataCount {
    pub raw: u32,
}

/// The interrupt enable register of an I2C master.
#[derive(Debug, Clone, Copy, PartialEq, Eq, Structural)]
pub struct InterruptControl {
    pub raw: u32,
}

impl InterruptControl {
    /// The register value with the bits `raw`.
    #[verifier::allow_in_spec]
    pub fn new_with_raw_value(raw: u32) -> InterruptControl
        returns
            (InterruptControl { raw }),
    {
        InterruptControl { raw }
    }

    /// The bits of the register value.
    #[verifier::allow_in_spec]
    pub fn raw_value(&self) -> u32
        returns
            self.raw,
    {
        self.raw
    }

    /// Bit 0 of the register.
    #[verifier::allow_in_spec]
    pub fn i2c_idle(&self) -> bool
        returns
            spec_get_bit(self.raw, 0),
    {
        get_bit(self.raw, 0)
    }

    /// The same value with `i2c_idle` replaced by `v`.
    #[verifier::allow_in_spec]
    pub fn with_i2c_idle(self, v: bool) -> InterruptControl
        returns
            (InterruptControl { raw: spec_set_bit(self.raw, 0, v) }),
    {
        InterruptControl { raw: set_bit(self.raw, 0, v) }
    }

    /// Bit 1 of the register.
    #[verifier::allow_in_spec]
    pub fn idle(&self) -> bool
        returns
            spec_get_bit(self.raw, 1),
    {
        get_bit(self.raw, 1)
    }

    /// The same value with `idle` replaced by `v`.
    #[verifier::allow_in_spec]
    pub fn with_idle(self, v: bool) -> InterruptControl
        returns
            (InterruptControl { raw: spec_set_bit(self.raw, 1, v) }),
    {
        InterruptControl { raw: set_bit(self.raw, 1, v) }
    }

    /// Bit 2 of the register.
    #[verifier::allow_in_spec]
    pub fn waiting(&self) -> bool
        returns
            spec_get_bit(self.raw, 2),
    {
        get_bit(self.raw, 2)
    }

    /// The same value with `waiting` replaced by `v`.
    #[verifier::allow_in_spec]
    pub fn with_waiting(self, v: bool) -> InterruptControl
        returns
            (InterruptControl { raw: spec_set_bit(self.raw, 2, v) }),
    {
        InterruptControl { raw: set_bit(self.raw, 2, v) }
    }

    /// Bit 3 of the register.
    #[verifier::allow_in_spec]
    pub fn stalled(&self) -> bool
        returns
            spec_get_bit(self.raw, 3),
    {
        get_bit(self.raw, 3)
    }

    /// The same value with `stalled` replaced by `v`.
    #[verifier::allow_in_spec]
    pub fn with_stalled(self, v: bool) -> InterruptControl
        returns
            (InterruptControl { raw: spec_set_bit(self.raw, 3, v) }),
    {
        InterruptControl { raw: set_bit(self.raw, 3, v) }
    }

    /// Bit 4 of the register.
    #[verifier::allow_in_spec]
    pub fn arb_lost(&self) -> bool
        returns
            spec_get_bit(self.raw, 4),
    {
        get_bit(self.raw, 4)
    }

    /// The same value with `arb_lost` replaced by `v`.
    #[verifier::allow_in_spec]
    pub fn with_arb_lost(self, v: bool) -> InterruptControl
        returns
            (InterruptControl { raw: spec_set_bit(self.raw, 4, v) }),
    {
        InterruptControl { raw: set_bit(self.raw, 4, v) }
    }

    /// Bit 5 of the register.
    #[verifier::allow_in_spec]
    pub fn nack_addr(&self) -> bool
        returns
            spec_get_bit(self.raw, 5),
    {
        get_bit(self.raw, 5)
    }

    /// The same value with `nack_addr` replaced by `v`.
    #[verifier::allow_in_spec]
    pub fn with_nack_addr(self, v: bool) -> InterruptControl
        returns
            (InterruptControl { raw: spec_set_bit(self.raw, 5, v) }),
    {
        InterruptControl { raw: set_bit(self.raw, 5, v) }
    }

    /// Bit 6 of the register.
    #[verifier::allow_in_spec]
    pub fn nack_data(&self) -> bool
        returns
            spec_get_bit(self.raw, 6),
    {
        get_bit(self.raw, 6)
    }

    /// The same value with `nack_data` replaced by `v`.
    #[verifier::allow_in_spec]
    pub fn with_nack_data(self, v: bool) -> InterruptControl
        returns
            (InterruptControl { raw: spec_set_bit(self.raw, 6, v) }),
    {
        InterruptControl { raw: set_bit(self.raw, 6, v) }
    }

    /// The clock line was low for longer than the timeout limit.
    #[verifier::allow_in_spec]
    pub fn clock_timeout(&self) -> bool
        returns
            spec_get_bit(self.raw, 7),
    {
        get_bit(self.raw, 7)
    }

    /// The same value with `clock_timeout` replaced by `v`.
    #[verifier::allow_in_spec]
    pub fn with_clock_timeout(self, v: bool) -> InterruptControl
        returns
            (InterruptControl { raw: spec_set_bit(self.raw, 7, v) }),
    {
        InterruptControl { raw: set_bit(self.raw, 7, v) }
    }

    /// Bit 10 of the register.
    #[verifier::allow_in_spec]
    pub fn tx_overflow(&self) -> bool
        returns
            spec_get_bit(self.raw, 10),
    {
        get_bit(self.raw, 10)
    }

    /// The same value with `tx_overflow` replaced by `v`.
    #[verifier::allow_in_spec]
    pub fn with_tx_overflow(self, v: bool) -> InterruptControl
        returns
            (InterruptControl { raw: spec_set_bit(self.raw, 10, v) }),
    {
        InterruptControl { raw: set_bit(self.raw, 10, v) }
    }

    /// Bit 11 of the register.
    #[verifier::allow_in_spec]
    pub fn rx_overflow(&self) -> bool
        returns
            spec_get_bit(self.raw, 11),
    {
        get_bit(self.raw, 11)
    }

    /// The same value with `rx_overflow` replaced by `v`.
    #[verifier::allow_in_spec]
    pub fn with_rx_overflow(self, v: bool) -> InterruptControl
        returns
            (InterruptControl { raw: spec_set_bit(self.raw, 11, v) }),
    {
        InterruptControl { raw: set_bit(self.raw, 11, v) }
    }

    /// Bit 12 of the register.
    #[verifier::allow_in_spec]
    pub fn tx_ready(&self) -> bool
        returns
            spec_get_bit(self.raw, 12),
    {
        get_bit(self.raw, 12)
    }

    /// The same value with `tx_ready` replaced by `v`.
    #[verifier::allow_in_spec]
    pub fn with_tx_ready(self, v: bool) -> InterruptControl
        returns
            (InterruptControl { raw: spec_set_bit(self.raw, 12, v) }),
    {
        InterruptControl { raw: set_bit(self.raw, 12, v) }
    }

    /// Bit 13 of the register.
    #[verifier::allow_in_spec]
    pub fn rx_ready(&self) -> bool
        returns
            spec_get_bit(self.raw, 13),
    {
        get_bit(self.raw, 13)
    }

    /// The same value with `rx_ready` replaced by `v`.
    #[verifier::allow_in_spec]
    pub fn with_rx_ready(self, v: bool) -> InterruptControl
        returns
            (InterruptControl { raw: spec_set_bit(self.raw, 13, v) }),
    {
        InterruptControl { raw: set_bit(self.raw, 13, v) }
    }

    /// Bit 14 of the register.
    #[verifier::allow_in_spec]
    pub fn tx_empty(&self) -> bool
        returns
            spec_get_bit(self.raw, 14),
    {
        get_bit(self.raw, 14)
    }

    /// The same value with `tx_empty` replaced by `v`.
    #[verifier::allow_in_spec]
    pub fn with_tx_empty(self, v: bool) -> InterruptControl
        returns
            (InterruptControl { raw: spec_set_bit(self.raw, 14, v) }),
    {
        InterruptControl { raw: set_bit(self.raw, 14, v) }
    }

    /// Bit 15 of the register.
    #[verifier::allow_in_spec]
    pub fn rx_full(&self) -> bool
        returns
            spec_get_bit(self.raw, 15),
    {
        get_bit(self.raw, 15)
    }

    /// The same value with `rx_full` replaced by `v`.
    #[verifier::allow_in_spec]
    pub fn with_rx_full(self, v: bool) -> InterruptControl
        returns
            (InterruptControl { raw: spec_set_bit(self.raw, 15, v) }),
    {
        InterruptControl { raw: set_bit(self.raw, 15, v) }
    }

    /// After `i2c_idle` is set, it reads as what was set and every other field as before.
    pub proof fn lemma_with_i2c_idle(self, v: bool)
        ensures
            self.with_i2c_idle(v).i2c_idle() == v,
            self.with_i2c_idle(v).idle() == self.idle(),
            self.with_i2c_idle(v).waiting() == self.waiting(),
            self.with_i2c_idle(v).stalled() == self.stalled(),
            self.with_i2c_idle(v).arb_lost() == self.arb_lost(),
            self.with_i2c_idle(v).nack_addr() == self.nack_addr(),
            self.with_i2c_idle(v).nack_data() == self.nack_data(),
            self.with_i2c_idle(v).clock_timeout() == self.clock_timeout(),
            self.with_i2c_idle(v).tx_overflow() == self.tx_overflow(),
            self.with_i2c_idle(v).rx_overflow() == self.rx_overflow(),
            self.with_i2c_idle(v).tx_ready() == self.tx_ready(),
            self.with_i2c_idle(v).rx_ready() == self.rx_ready(),
            self.with_i2c_idle(v).tx_empty() == self.tx_empty(),
            self.with_i2c_idle(v).rx_full() == self.rx_full(),
    {
        lemma_set_bit_get_bit(self.raw, 0, v, 0);
        lemma_set_bit_get_bit(self.raw, 0, v, 1);
        lemma_set_bit_get_bit(self.raw, 0, v, 2);
        lemma_set_bit_get_bit(self.raw, 0, v, 3);
        lemma_set_bit_get_bit(self.raw, 0, v, 4);
        lemma_set_bit_get_bit(self.raw, 0, v, 5);
        lemma_set_bit_get_bit(self.raw, 0, v, 6);
        lemma_set_bit_get_bit(self.raw, 0, v, 7);
        lemma_set_bit_get_bit(self.raw, 0, v, 10);
        lemma_set_bit_get_bit(self.raw, 0, v, 11);
        lemma_set_bit_get_bit(self.raw, 0, v, 12);
        lemma_set_bit_get_bit(self.raw, 0, v, 13);
        lemma_set_bit_get_bit(self.raw, 0, v, 14);
        lemma_set_bit_get_bit(self.raw, 0, v, 15);
    }

    /// After `idle` is set, it reads as what was set and every other field as before.
    pub proof fn lemma_with_idle(self, v: bool)
        ensures
            self.with_idle(v).i2c_idle() == self.i2c_idle(),
            self.with_idle(v).idle() == v,
            self.with_idle(v).waiting() == self.waiting(),
            self.with_idle(v).stalled() == self.stalled(),
            self.with_idle(v).arb_lost() == self.arb_lost(),
            self.with_idle(v).nack_addr() == self.nack_addr(),
            self.with_idle(v).nack_data() == self.nack_data(),
            self.with_idle(v).clock_timeout() == self.clock_timeout(),
            self.with_idle(v).tx_overflow() == self.tx_overflow(),
            self.with_idle(v).rx_overflow() == self.rx_overflow(),
            self.with_idle(v).tx_ready() == self.tx_ready(),
            self.with_idle(v).rx_ready() == self.rx_ready(),
            self.with_idle(v).tx_empty() == self.tx_empty(),
            self.with_idle(v).rx_full() == self.rx_full(),
    {
        lemma_set_bit_get_bit(self.raw, 1, v, 0);
        lemma_set_bit_get_bit(self.raw, 1, v, 1);
        lemma_set_bit_get_bit(self.raw, 1, v, 2);
        lemma_set_bit_get_bit(self.raw, 1, v, 3);
        lemma_set_bit_get_bit(self.raw, 1, v, 4);
        lemma_set_bit_get_bit(self.raw, 1, v, 5);
        lemma_set_bit_get_bit(self.raw, 1, v, 6);
        lemma_set_bit_get_bit(self.raw, 1, v, 7);
        lemma_set_bit_get_bit(self.raw, 1, v, 10);
        lemma_set_bit_get_bit(self.raw, 1, v, 11);
        lemma_set_bit_get_bit(self.raw, 1, v, 12);
        lemma_set_bit_get_bit(self.raw, 1, v, 13);
        lemma_set_bit_get_bit(self.raw, 1, v, 14);
        lemma_set_bit_get_bit(self.raw, 1, v, 15);
    }

    /// After `waiting` is set, it reads as what was set and every other field as before.
    pub proof fn lemma_with_waiting(self, v: bool)
        ensures
            self.with_waiting(v).i2c_idle() == self.i2c_idle(),
            self.with_waiting(v).idle() == self.idle(),
            self.with_waiting(v).waiting() == v,
            self.with_waiting(v).stalled() == self.stalled(),
            self.with_waiting(v).arb_lost() == self.arb_lost(),
            self.with_waiting(v).nack_addr() == self.nack_addr(),
            self.with_waiting(v).nack_data() == self.nack_data(),
            self.with_waiting(v).clock_timeout() == self.clock_timeout(),
            self.with_waiting(v).tx_overflow() == self.tx_overflow(),
            self.with_waiting(v).rx_overflow() == self.rx_overflow(),
            self.with_waiting(v).tx_ready() == self.tx_ready(),
            self.with_waiting(v).rx_ready() == self.rx_ready(),
            self.with_waiting(v).tx_empty() == self.tx_empty(),
            self.with_waiting(v).rx_full() == self.rx_full(),
    {
        lemma_set_bit_get_bit(self.raw, 2, v, 0);
        lemma_set_bit_get_bit(self.raw, 2, v, 1);
        lemma_set_bit_get_bit(self.raw, 2, v, 2);
        lemma_set_bit_get_bit(self.raw, 2, v, 3);
        lemma_set_bit_get_bit(self.raw, 2, v, 4);
        lemma_set_bit_get_bit(self.raw, 2, v, 5);
        lemma_set_bit_get_bit(self.raw, 2, v, 6);
        lemma_set_bit_get_bit(self.raw, 2, v, 7);
        lemma_set_bit_get_bit(self.raw, 2, v, 10);
        lemma_set_bit_get_bit(self.raw, 2, v, 11);
        lemma_set_bit_get_bit(self.raw, 2, v, 12);
        lemma_set_bit_get_bit(self.raw, 2, v, 13);
        lemma_set_bit_get_bit(self.raw, 2, v, 14);
        lemma_set_bit_get_bit(self.raw, 2, v, 15);
    }

    /// After `stalled` is set, it reads as what was set and every other field as before.
    pub proof fn lemma_with_stalled(self, v: bool)
        ensures
            self.with_stalled(v).i2c_idle() == self.i2c_idle(),
            self.with_stalled(v).idle() == self.idle(),
            self.with_stalled(v).waiting() == self.waiting(),
            self.with_stalled(v).stalled() == v,
            self.with_stalled(v).arb_lost() == self.arb_lost(),
            self.with_stalled(v).nack_addr() == self.nack_addr(),
            self.with_stalled(v).nack_data() == self.nack_data(),
            self.with_stalled(v).clock_timeout() == self.clock_timeout(),
            self.with_stalled(v).tx_overflow() == self.tx_overflow(),
            self.with_stalled(v).rx_overflow() == self.rx_overflow(),
            self.with_stalled(v).tx_ready() == self.tx_ready(),
            self.with_stalled(v).rx_ready() == self.rx_ready(),
            self.with_stalled(v).tx_empty() == self.tx_empty(),
            self.with_stalled(v).rx_full() == self.rx_full(),
    {
        lemma_set_bit_get_bit(self.raw, 3, v, 0);
        lemma_set_bit_get_bit(self.raw, 3, v, 1);
        lemma_set_bit_get_bit(self.raw, 3, v, 2);
        lemma_set_bit_get_bit(self.raw, 3, v, 3);
        lemma_set_bit_get_bit(self.raw, 3, v, 4);
        lemma_set_bit_get_bit(self.raw, 3, v, 5);
        lemma_set_bit_get_bit(self.raw, 3, v, 6);
        lemma_set_bit_get_bit(self.raw, 3, v, 7);
        lemma_set_bit_get_bit(self.raw, 3, v, 10);
        lemma_set_bit_get_bit(self.raw, 3, v, 11);
        lemma_set_bit_get_bit(self.raw, 3, v, 12);
        lemma_set_bit_get_bit(self.raw, 3, v, 13);
        lemma_set_bit_get_bit(self.raw, 3, v, 14);
        lemma_set_bit_get_bit(self.raw, 3, v, 15);
    }

    /// After `arb_lost` is set, it reads as what was set and every other field as before.
    pub proof fn lemma_with_arb_lost(self, v: bool)
        ensures
            self.with_arb_lost(v).i2c_idle() == self.i2c_idle(),
            self.with_arb_lost(v).idle() == self.idle(),
            self.with_arb_lost(v).waiting() == self.waiting(),
            self.with_arb_lost(v).stalled() == self.stalled(),
            self.with_arb_lost(v).arb_lost() == v,
            self.with_arb_lost(v).nack_addr() == self.nack_addr(),
            self.with_arb_lost(v).nack_data() == self.nack_data(),
            self.with_arb_lost(v).clock_timeout() == self.clock_timeout(),
            self.with_arb_lost(v).tx_overflow() == self.tx_overflow(),
            self.with_arb_lost(v).rx_overflow() == self.rx_overflow(),
            self.with_arb_lost(v).tx_ready() == self.tx_ready(),
            self.with_arb_lost(v).rx_ready() == self.rx_ready(),
            self.with_arb_lost(v).tx_empty() == self.tx_empty(),
            self.with_arb_lost(v).rx_full() == self.rx_full(),
    {
        lemma_set_bit_get_bit(self.raw, 4, v, 0);
        lemma_set_bit_get_bit(self.raw, 4, v, 1);
        lemma_set_bit_get_bit(self.raw, 4, v, 2);
        lemma_set_bit_get_bit(self.raw, 4, v, 3);
        lemma_set_bit_get_bit(self.raw, 4, v, 4);
        lemma_set_bit_get_bit(self.raw, 4, v, 5);
        lemma_set_bit_get_bit(self.raw, 4, v, 6);
        lemma_set_bit_get_bit(self.raw, 4, v, 7);
        lemma_set_bit_get_bit(self.raw, 4, v, 10);
        lemma_set_bit_get_bit(self.raw, 4, v, 11);
        lemma_set_bit_get_bit(self.raw, 4, v, 12);
        lemma_set_bit_get_bit(self.raw, 4, v, 13);
        lemma_set_bit_get_bit(self.raw, 4, v, 14);
        lemma_set_bit_get_bit(self.raw, 4, v, 15);
    }

    /// After `nack_addr` is set, it reads as what was set and every other field as before.
    pub proof fn lemma_with_nack_addr(self, v: bool)
        ensures
            self.with_nack_addr(v).i2c_idle() == self.i2c_idle(),
            self.with_nack_addr(v).idle() == self.idle(),
            self.with_nack_addr(v).waiting() == self.waiting(),
            self.with_nack_addr(v).stalled() == self.stalled(),
            self.with_nack_addr(v).arb_lost() == self.arb_lost(),
            self.with_nack_addr(v).nack_addr() == v,
            self.with_nack_addr(v).nack_data() == self.nack_data(),
            self.with_nack_addr(v).clock_timeout() == self.clock_timeout(),
            self.with_nack_addr(v).tx_overflow() == self.tx_overflow(),
            self.with_nack_addr(v).rx_overflow() == self.rx_overflow(),
            self.with_nack_addr(v).tx_ready() == self.tx_ready(),
            self.with_nack_addr(v).rx_ready() == self.rx_ready(),
            self.with_nack_addr(v).tx_empty() == self.tx_empty(),
            self.with_nack_addr(v).rx_full() == self.rx_full(),
    {
        lemma_set_bit_get_bit(self.raw, 5, v, 0);
        lemma_set_bit_get_bit(self.raw, 5, v, 1);
        lemma_set_bit_get_bit(self.raw, 5, v, 2);
        lemma_set_bit_get_bit(self.raw, 5, v, 3);
        lemma_set_bit_get_bit(self.raw, 5, v, 4);
        lemma_set_bit_get_bit(self.raw, 5, v, 5);
        lemma_set_bit_get_bit(self.raw, 5, v, 6);
        lemma_set_bit_get_bit(self.raw, 5, v, 7);
        lemma_set_bit_get_bit(self.raw, 5, v, 10);
        lemma_set_bit_get_bit(self.raw, 5, v, 11);
        lemma_set_bit_get_bit(self.raw, 5, v, 12);
        lemma_set_bit_get_bit(self.raw, 5, v, 13);
        lemma_set_bit_get_bit(self.raw, 5, v, 14);
        lemma_set_bit_get_bit(self.raw, 5, v, 15);
    }

    /// After `nack_data` is set, it reads as what was set and every other field as before.
    pub proof fn lemma_with_nack_data(self, v: bool)
        ensures
            self.with_nack_data(v).i2c_idle() == self.i2c_idle(),
            self.with_nack_data(v).idle() == self.idle(),
            self.with_nack_data(v).waiting() == self.waiting(),
            self.with_nack_data(v).stalled() == self.stalled(),
            self.with_nack_data(v).arb_lost() == self.arb_lost(),
            self.with_nack_data(v).nack_addr() == self.nack_addr(),
            self.with_nack_data(v).nack_data() == v,
            self.with_nack_data(v).clock_timeout() == self.clock_timeout(),
            self.with_nack_data(v).tx_overflow() == self.tx_overflow(),
            self.with_nack_data(v).rx_overflow() == self.rx_overflow(),
            self.with_nack_data(v).tx_ready() == self.tx_ready(),
            self.with_nack_data(v).rx_ready() == self.rx_ready(),
            self.with_nack_data(v).tx_empty() == self.tx_empty(),
            self.with_nack_data(v).rx_full() == self.rx_full(),
    {
        lemma_set_bit_get_bit(self.raw, 6, v, 0);
        lemma_set_bit_get_bit(self.raw, 6, v, 1);
        lemma_set_bit_get_bit(self.raw, 6, v, 2);
        lemma_set_bit_get_bit(self.raw, 6, v, 3);
        lemma_set_bit_get_bit(self.raw, 6, v, 4);
        lemma_set_bit_get_bit(self.raw, 6, v, 5);
        lemma_set_bit_get_bit(self.raw, 6, v, 6);
        lemma_set_bit_get_bit(self.raw, 6, v, 7);
        lemma_set_bit_get_bit(self.raw, 6, v, 10);
        lemma_set_bit_get_bit(self.raw, 6, v, 11);
        lemma_set_bit_get_bit(self.raw, 6, v, 12);
        lemma_set_bit_get_bit(self.raw, 6, v, 13);
        lemma_set_bit_get_bit(self.raw, 6, v, 14);
        lemma_set_bit_get_bit(self.raw, 6, v, 15);
    }

    /// After `clock_timeout` is set, it reads as what was set and every other field as before.
    pub proof fn lemma_with_clock_timeout(self, v: bool)
        ensures
            self.with_clock_timeout(v).i2c_idle() == self.i2c_idle(),
            self.with_clock_timeout(v).idle() == self.idle(),
            self.with_clock_timeout(v).waiting() == self.waiting(),
            self.with_clock_timeout(v).stalled() == self.stalled(),
            self.with_clock_timeout(v).arb_lost() == self.arb_lost(),
            self.with_clock_timeout(v).nack_addr() == self.nack_addr(),
            self.with_clock_timeout(v).nack_data() == self.nack_data(),
            self.with_clock_timeout(v).clock_timeout() == v,
            self.with_clock_timeout(v).tx_overflow() == self.tx_overflow(),
            self.with_clock_timeout(v).rx_overflow() == self.rx_overflow(),
            self.with_clock_timeout(v).tx_ready() == self.tx_ready(),
            self.with_clock_timeout(v).rx_ready() == self.rx_ready(),
            self.with_clock_timeout(v).tx_empty() == self.tx_empty(),
            self.with_clock_timeout(v).rx_full() == self.rx_full(),
    {
        lemma_set_bit_get_bit(self.raw, 7, v, 0);
        lemma_set_bit_get_bit(self.raw, 7, v, 1);
        lemma_set_bit_get_bit(self.raw, 7, v, 2);
        lemma_set_bit_get_bit(self.raw, 7, v, 3);
        lemma_set_bit_get_bit(self.raw, 7, v, 4);
        lemma_set_bit_get_bit(self.raw, 7, v, 5);
        lemma_set_bit_get_bit(self.raw, 7, v, 6);
        lemma_set_bit_get_bit(self.raw, 7, v, 7);
        lemma_set_bit_get_bit(self.raw, 7, v, 10);
        lemma_set_bit_get_bit(self.raw, 7, v, 11);
        lemma_set_bit_get_bit(self.raw, 7, v, 12);
        lemma_set_bit_get_bit(self.raw, 7, v, 13);
        lemma_set_bit_get_bit(self.raw, 7, v, 14);
        lemma_set_bit_get_bit(self.raw, 7, v, 15);
    }

    /// After `tx_overflow` is set, it reads as what was set and every other field as before.
    pub proof fn lemma_with_tx_overflow(self, v: bool)
        ensures
            self.with_tx_overflow(v).i2c_idle() == self.i2c_idle(),
            self.with_tx_overflow(v).idle() == self.idle(),
            self.with_tx_overflow(v).waiting() == self.waiting(),
            self.with_tx_overflow(v).stalled() == self.stalled(),
            self.with_tx_overflow(v).arb_lost() == self.arb_lost(),
            self.with_tx_overflow(v).nack_addr() == self.nack_addr(),
            self.with_tx_overflow(v).nack_data() == self.nack_data(),
            self.with_tx_overflow(v).clock_timeout() == self.clock_timeout(),
            self.with_tx_overflow(v).tx_overflow() == v,
            self.with_tx_overflow(v).rx_overflow() == self.rx_overflow(),
            self.with_tx_overflow(v).tx_ready() == self.tx_ready(),
            self.with_tx_overflow(v).rx_ready() == self.rx_ready(),
            self.with_tx_overflow(v).tx_empty() == self.tx_empty(),
            self.with_tx_overflow(v).rx_full() == self.rx_full(),
    {
        lemma_set_bit_get_bit(self.raw, 10, v, 0);
        lemma_set_bit_get_bit(self.raw, 10, v, 1);
        lemma_set_bit_get_bit(self.raw, 10, v, 2);
        lemma_set_bit_get_bit(self.raw, 10, v, 3);
        lemma_set_bit_get_bit(self.raw, 10, v, 4);
        lemma_set_bit_get_bit(self.raw, 10, v, 5);
        lemma_set_bit_get_bit(self.raw, 10, v, 6);
        lemma_set_bit_get_bit(self.raw, 10, v, 7);
        lemma_set_bit_get_bit(self.raw, 10, v, 10);
        lemma_set_bit_get_bit(self.raw, 10, v, 11);
        lemma_set_bit_get_bit(self.raw, 10, v, 12);
        lemma_set_bit_get_bit(self.raw, 10, v, 13);
        lemma_set_bit_get_bit(self.raw, 10, v, 14);
        lemma_set_bit_get_bit(self.raw, 10, v, 15);
    }

    /// After `rx_overflow` is set, it reads as what was set and every other field as before.
    pub proof fn lemma_with_rx_overflow(self, v: bool)
        ensures
            self.with_rx_overflow(v).i2c_idle() == self.i2c_idle(),
            self.with_rx_overflow(v).idle() == self.idle(),
            self.with_rx_overflow(v).waiting() == self.waiting(),
            self.with_rx_overflow(v).stalled() == self.stalled(),
            self.with_rx_overflow(v).arb_lost() == self.arb_lost(),
            self.with_rx_overflow(v).nack_addr() == self.nack_addr(),
            self.with_rx_overflow(v).nack_data() == self.nack_data(),
            self.with_rx_overflow(v).clock_timeout() == self.clock_timeout(),
            self.with_rx_overflow(v).tx_overflow() == self.tx_overflow(),
            self.with_rx_overflow(v).rx_overflow() == v,
            self.with_rx_overflow(v).tx_ready() == self.tx_ready(),
            self.with_rx_overflow(v).rx_ready() == self.rx_ready(),
            self.with_rx_overflow(v).tx_empty() == self.tx_empty(),
            self.with_rx_overflow(v).rx_full() == self.rx_full(),
    {
        lemma_set_bit_get_bit(self.raw, 11, v, 0);
        lemma_set_bit_get_bit(self.raw, 11, v, 1);
        lemma_set_bit_get_bit(self.raw, 11, v, 2);
        lemma_set_bit_get_bit(self.raw, 11, v, 3);
        lemma_set_bit_get_bit(self.raw, 11, v, 4);
        lemma_set_bit_get_bit(self.raw, 11, v, 5);
        lemma_set_bit_get_bit(self.raw, 11, v, 6);
        lemma_set_bit_get_bit(self.raw, 11, v, 7);
        lemma_set_bit_get_bit(self.raw, 11, v, 10);
        lemma_set_bit_get_bit(self.raw, 11, v, 11);
        lemma_set_bit_get_bit(self.raw, 11, v, 12);
        lemma_set_bit_get_bit(self.raw, 11, v, 13);
        lemma_set_bit_get_bit(self.raw, 11, v, 14);
        lemma_set_bit_get_bit(self.raw, 11, v, 15);
    }

    /// After `tx_ready` is set, it reads as what was set and every other field as before.
    pub proof fn lemma_with_tx_ready(self, v: bool)
        ensures
            self.with_tx_ready(v).i2c_idle() == self.i2c_idle(),
            self.with_tx_ready(v).idle() == self.idle(),
            self.with_tx_ready(v).waiting() == self.waiting(),
            self.with_tx_ready(v).stalled() == self.stalled(),
            self.with_tx_ready(v).arb_lost() == self.arb_lost(),
            self.with_tx_ready(v).nack_addr() == self.nack_addr(),
            self.with_tx_ready(v).nack_data() == self.nack_data(),
            self.with_tx_ready(v).clock_timeout() == self.clock_timeout(),
            self.with_tx_ready(v).tx_overflow() == self.tx_overflow(),
            self.with_tx_ready(v).rx_overflow() == self.rx_overflow(),
            self.with_tx_ready(v).tx_ready() == v,
            self.with_tx_ready(v).rx_ready() == self.rx_ready(),
            self.with_tx_ready(v).tx_empty() == self.tx_empty(),
            self.with_tx_ready(v).rx_full() == self.rx_full(),
    {
        lemma_set_bit_get_bit(self.raw, 12, v, 0);
        lemma_set_bit_get_bit(self.raw, 12, v, 1);
        lemma_set_bit_get_bit(self.raw, 12, v, 2);
        lemma_set_bit_get_bit(self.raw, 12, v, 3);
        lemma_set_bit_get_bit(self.raw, 12, v, 4);
        lemma_set_bit_get_bit(self.raw, 12, v, 5);
        lemma_set_bit_get_bit(self.raw, 12, v, 6);
        lemma_set_bit_get_bit(self.raw, 12, v, 7);
        lemma_set_bit_get_bit(self.raw, 12, v, 10);
        lemma_set_bit_get_bit(self.raw, 12, v, 11);
        lemma_set_bit_get_bit(self.raw, 12, v, 12);
        lemma_set_bit_get_bit(self.raw, 12, v, 13);
        lemma_set_bit_get_bit(self.raw, 12, v, 14);
        lemma_set_bit_get_bit(self.raw, 12, v, 15);
    }

    /// After `rx_ready` is set, it reads as what was set and every other field as before.
    pub proof fn lemma_with_rx_ready(self, v: bool)
        ensures
            self.with_rx_ready(v).i2c_idle() == self.i2c_idle(),
            self.with_rx_ready(v).idle() == self.idle(),
            self.with_rx_ready(v).waiting() == self.waiting(),
            self.with_rx_ready(v).stalled() == self.stalled(),
            self.with_rx_ready(v).arb_lost() == self.arb_lost(),
            self.with_rx_ready(v).nack_addr() == self.nack_addr(),
            self.with_rx_ready(v).nack_data() == self.nack_data(),
            self.with_rx_ready(v).clock_timeout() == self.clock_timeout(),
            self.with_rx_ready(v).tx_overflow() == self.tx_overflow(),
            self.with_rx_ready(v).rx_overflow() == self.rx_overflow(),
            self.with_rx_ready(v).tx_ready() == self.tx_ready(),
            self.with_rx_ready(v).rx_ready() == v,
            self.with_rx_ready(v).tx_empty() == self.tx_empty(),
            self.with_rx_ready(v).rx_full() == self.rx_full(),
    {
        lemma_set_bit_get_bit(self.raw, 13, v, 0);
        lemma_set_bit_get_bit(self.raw, 13, v, 1);
        lemma_set_bit_get_bit(self.raw, 13, v, 2);
        lemma_set_bit_get_bit(self.raw, 13, v, 3);
        lemma_set_bit_get_bit(self.raw, 13, v, 4);
        lemma_set_bit_get_bit(self.raw, 13, v, 5);
        lemma_set_bit_get_bit(self.raw, 13, v, 6);
        lemma_set_bit_get_bit(self.raw, 13, v, 7);
        lemma_set_bit_get_bit(self.raw, 13, v, 10);
        lemma_set_bit_get_bit(self.raw, 13, v, 11);
        lemma_set_bit_get_bit(self.raw, 13, v, 12);
        lemma_set_bit_get_bit(self.raw, 13, v, 13);
        lemma_set_bit_get_bit(self.raw, 13, v, 14);
        lemma_set_bit_get_bit(self.raw, 13, v, 15);
    }

    /// After `tx_empty` is set, it reads as what was set and every other field as before.
    pub proof fn lemma_with_tx_empty(self, v: bool)
        ensures
            self.with_tx_empty(v).i2c_idle() == self.i2c_idle(),
            self.with_tx_empty(v).idle() == self.idle(),
            self.with_tx_empty(v).waiting() == self.waiting(),
            self.with_tx_empty(v).stalled() == self.stalled(),
            self.with_tx_empty(v).arb_lost() == self.arb_lost(),
            self.with_tx_empty(v).nack_addr() == self.nack_addr(),
            self.with_tx_empty(v).nack_data() == self.nack_data(),
            self.with_tx_empty(v).clock_timeout() == self.clock_timeout(),
            self.with_tx_empty(v).tx_overflow() == self.tx_overflow(),
            self.with_tx_empty(v).rx_overflow() == self.rx_overflow(),
            self.with_tx_empty(v).tx_ready() == self.tx_ready(),
            self.with_tx_empty(v).rx_ready() == self.rx_ready(),
            self.with_tx_empty(v).tx_empty() == v,
            self.with_tx_empty(v).rx_full() == self.rx_full(),
    {
        lemma_set_bit_get_bit(self.raw, 14, v, 0);
        lemma_set_bit_get_bit(self.raw, 14, v, 1);
        lemma_set_bit_get_bit(self.raw, 14, v, 2);
        lemma_set_bit_get_bit(self.raw, 14, v, 3);
        lemma_set_bit_get_bit(self.raw, 14, v, 4);
        lemma_set_bit_get_bit(self.raw, 14, v, 5);
        lemma_set_bit_get_bit(self.raw, 14, v, 6);
        lemma_set_bit_get_bit(self.raw, 14, v, 7);
        lemma_set_bit_get_bit(self.raw, 14, v, 10);
        lemma_set_bit_get_bit(self.raw, 14, v, 11);
        lemma_set_bit_get_bit(self.raw, 14, v, 12);
        lemma_set_bit_get_bit(self.raw, 14, v, 13);
        lemma_set_bit_get_bit(self.raw, 14, v, 14);
        lemma_set_bit_get_bit(self.raw, 14, v, 15);
    }

    /// After `rx_full` is set, it reads as what was set and every other field as before.
    pub proof fn lemma_with_rx_full(self, v: bool)
        ensures
            self.with_rx_full(v).i2c_idle() == self.i2c_idle(),
            self.with_rx_full(v).idle() == self.idle(),
            self.with_rx_full(v).waiting() == self.waiting(),
            self.with_rx_full(v).stalled() == self.stalled(),
            self.with_rx_full(v).arb_lost() == self.arb_lost(),
            self.with_rx_full(v).nack_addr() == self.nack_addr(),
            self.with_rx_full(v).nack_data() == self.nack_data(),
            self.with_rx_full(v).clock_timeout() == self.clock_timeout(),
            self.with_rx_full(v).tx_overflow() == self.tx_overflow(),
            self.with_rx_full(v).rx_overflow() == self.rx_overflow(),
            self.with_rx_full(v).tx_ready() == self.tx_ready(),
            self.with_rx_full(v).rx_ready() == self.rx_ready(),
            self.with_rx_full(v).tx_empty() == self.tx_empty(),
            self.with_rx_full(v).rx_full() == v,
    {
        lemma_set_bit_get_bit(self.raw, 15, v, 0);
        lemma_set_bit_get_bit(self.raw, 15, v, 1);
        lemma_set_bit_get_bit(self.raw, 15, v, 2);
        lemma_set_bit_get_bit(self.raw, 15, v, 3);
        lemma_set_bit_get_bit(self.raw, 15, v, 4);
        lemma_set_bit_get_bit(self.raw, 15, v, 5);
        lemma_set_bit_get_bit(self.raw, 15, v, 6);
        lemma_set_bit_get_bit(self.raw, 15, v, 7);
        lemma_set_bit_get_bit(self.raw, 15, v, 10);
        lemma_set_bit_get_bit(self.raw, 15, v, 11);
        lemma_set_bit_get_bit(self.raw, 15, v, 12);
        lemma_set_bit_get_bit(self.raw, 15, v, 13);
        lemma_set_bit_get_bit(self.raw, 15, v, 14);
        lemma_set_bit_get_bit(self.raw, 15, v, 15);
    }
}

/// An interrupt status register of an I2C master.
#[derive(Debug, Clone, Copy, PartialEq, Eq, Structural)]
pub struct InterruptStatus {
    pub raw: u32,
}

impl InterruptStatus {
    /// The register value with the bits `raw`.
    #[verifier::allow_in_spec]
    pub fn new_with_raw_value(raw: u32) -> InterruptStatus
        returns
            (InterruptStatus { raw }),
    {
        InterruptStatus { raw }
    }

    /// The bits of the register value.
    #[verifier::allow_in_spec]
    pub fn raw_value(&self) -> u32
        returns
            self.raw,
    {
        self.raw
    }

    /// Bit 0 of the register.
    #[verifier::allow_in_spec]
    pub fn i2c_idle(&self) -> bool
        returns
            spec_get_bit(self.raw, 0),
    {
        get_bit(self.raw, 0)
    }

    /// The same value with `i2c_idle` replaced by `v`.
    #[verifier::allow_in_spec]
    pub fn with_i2c_idle(self, v: bool) -> InterruptStatus
        returns
            (InterruptStatus { raw: spec_set_bit(self.raw, 0, v) }),
    {
        InterruptStatus { raw: set_bit(self.raw, 0, v) }
    }

    /// Bit 1 of the register.
    #[verifier::allow_in_spec]
    pub fn idle(&self) -> bool
        returns
            spec_get_bit(self.raw, 1),
    {
        get_bit(self.raw, 1)
    }

    /// The same value with `idle` replaced by `v`.
    #[verifier::allow_in_spec]
    pub fn with_idle(self, v: bool) -> InterruptStatus
        returns
            (InterruptStatus { raw: spec_set_bit(self.raw, 1, v) }),
    {
        InterruptStatus { raw: set_bit(self.raw, 1, v) }
    }

    /// Bit 2 of the register.
    #[verifier::allow_in_spec]
    pub fn waiting(&self) -> bool
        returns
            spec_get_bit(self.raw, 2),
    {
        get_bit(self.raw, 2)
    }

    /// The same value with `waiting` replaced by `v`.
    #[verifier::allow_in_spec]
    pub fn with_waiting(self, v: bool) -> InterruptStatus
        returns
            (InterruptStatus { raw: spec_set_bit(self.raw, 2, v) }),
    {
        InterruptStatus { raw: set_bit(self.raw, 2, v) }
    }

    /// Bit 3 of the register.
    #[verifier::allow_in_spec]
    pub fn stalled(&self) -> bool
        returns
            spec_get_bit(self.raw, 3),
    {
        get_bit(self.raw, 3)
    }

    /// The same value with `stalled` replaced by `v`.
    #[verifier::allow_in_spec]
    pub fn with_stalled(self, v: bool) -> InterruptStatus
        returns
            (InterruptStatus { raw: spec_set_bit(self.raw, 3, v) }),
    {
        InterruptStatus { raw: set_bit(self.raw, 3, v) }
    }

    /// Bit 4 of the register.
    #[verifier::allow_in_spec]
    pub fn arb_lost(&self) -> bool
        returns
            spec_get_bit(self.raw, 4),
    {
        get_bit(self.raw, 4)
    }

    /// The same value with `arb_lost` replaced by `v`.
    #[verifier::allow_in_spec]
    pub fn with_arb_lost(self, v: bool) -> InterruptStatus
        returns
            (InterruptStatus { raw: spec_set_bit(self.raw, 4, v) }),
    {
        InterruptStatus { raw: set_bit(self.raw, 4, v) }
    }

    /// Bit 5 of the register.
    #[verifier::allow_in_spec]
    pub fn nack_addr(&self) -> bool
        returns
            spec_get_bit(self.raw, 5),
    {
        get_bit(self.raw, 5)
    }

    /// The same value with `nack_addr` replaced by `v`.
    #[verifier::allow_in_spec]
    pub fn with_nack_addr(self, v: bool) -> InterruptStatus
        returns
            (InterruptStatus { raw: spec_set_bit(self.raw, 5, v) }),
    {
        InterruptStatus { raw: set_bit(self.raw, 5, v) }
    }

    /// Bit 6 of the register.
    #[verifier::allow_in_spec]
    pub fn nack_data(&self) -> bool
        returns
            spec_get_bit(self.raw, 6),
    {
        get_bit(self.raw, 6)
    }

    /// The same value with `nack_data` replaced by `v`.
    #[verifier::allow_in_spec]
    pub fn with_nack_data(self, v: bool) -> InterruptStatus
        returns
            (InterruptStatus { raw: spec_set_bit(self.raw, 6, v) }),
    {
        InterruptStatus { raw: set_bit(self.raw, 6, v) }
    }

    /// The clock line was low for longer than the timeout limit.
    #[verifier::allow_in_spec]
    pub fn clock_timeout(&self) -> bool
        returns
            spec_get_bit(self.raw, 7),
    {
        get_bit(self.raw, 7)
    }

    /// The same value with `clock_timeout` replaced by `v`.
    #[verifier::allow_in_spec]
    pub fn with_clock_timeout(self, v: bool) -> InterruptStatus
        returns
            (InterruptStatus { raw: spec_set_bit(self.raw, 7, v) }),
    {
        InterruptStatus { raw: set_bit(self.raw, 7, v) }
    }

    /// Bit 10 of the register.
    #[verifier::allow_in_spec]
    pub fn tx_overflow(&self) -> bool
        returns
            spec_get_bit(self.raw, 10),
    {
        get_bit(self.raw, 10)
    }

    /// The same value with `tx_overflow` replaced by `v`.
    #[verifier::allow_in_spec]
    pub fn with_tx_overflow(self, v: bool) -> InterruptStatus
        returns
            (InterruptStatus { raw: spec_set_bit(self.raw, 10, v) }),
    {
        InterruptStatus { raw: set_bit(self.raw, 10, v) }
    }

    /// Bit 11 of the register.
    #[verifier::allow_in_spec]
    pub fn rx_overflow(&self) -> bool
        returns
            spec_get_bit(self.raw, 11),
    {
        get_bit(self.raw, 11)
    }

    /// The same value with `rx_overflow` replaced by `v`.
    #[verifier::allow_in_spec]
    pub fn with_rx_overflow(self, v: bool) -> InterruptStatus
        returns
            (InterruptStatus { raw: spec_set_bit(self.raw, 11, v) }),
    {
        InterruptStatus { raw: set_bit(self.raw, 11, v) }
    }

    /// Bit 12 of the register.
    #[verifier::allow_in_spec]
    pub fn tx_ready(&self) -> bool
        returns
            spec_get_bit(self.raw, 12),
    {
        get_bit(self.raw, 12)
    }

    /// The same value with `tx_ready` replaced by `v`.
    #[verifier::allow_in_spec]
    pub fn with_tx_ready(self, v: bool) -> InterruptStatus
        returns
            (InterruptStatus { raw: spec_set_bit(self.raw, 12, v) }),
    {
        InterruptStatus { raw: set_bit(self.raw, 12, v) }
    }

    /// Bit 13 of the register.
    #[verifier::allow_in_spec]
    pub fn rx_ready(&self) -> bool
        returns
            spec_get_bit(self.raw, 13),
    {
        get_bit(self.raw, 13)
    }

    /// The same value with `rx_ready` replaced by `v`.
    #[verifier::allow_in_spec]
    pub fn with_rx_ready(self, v: bool) -> InterruptStatus
        returns
            (InterruptStatus { raw: spec_set_bit(self.raw, 13, v) }),
    {
        InterruptStatus { raw: set_bit(self.raw, 13, v) }
    }

    /// Bit 14 of the register.
    #[verifier::allow_in_spec]
    pub fn tx_empty(&self) -> bool
        returns
            spec_get_bit(self.raw, 14),
    {
        get_bit(self.raw, 14)
    }

    /// The same value with `tx_empty` replaced by `v`.
    #[verifier::allow_in_spec]
    pub fn with_tx_empty(self, v: bool) -> InterruptStatus
        returns
            (InterruptStatus { raw: spec_set_bit(self.raw, 14, v) }),
    {
        InterruptStatus { raw: set_bit(self.raw, 14, v) }
    }

    /// Bit 15 of the register.
    #[verifier::allow_in_spec]
    pub fn rx_full(&self) -> bool
        returns
            spec_get_bit(self.raw, 15),
    {
        get_bit(self.raw, 15)
    }

    /// The same value with `rx_full` replaced by `v`.
    #[verifier::allow_in_spec]
    pub fn with_rx_full(self, v: bool) -> InterruptStatus
        returns
            (InterruptStatus { raw: spec_set_bit(self.raw, 15, v) }),
    {
        InterruptStatus { raw: set_bit(self.raw, 15, v) }
    }

    /// After `i2c_idle` is set, it reads as what was set and every other field as before.
    pub proof fn lemma_with_i2c_idle(self, v: bool)
        ensures
            self.with_i2c_idle(v).i2c_idle() == v,
            self.with_i2c_idle(v).idle() == self.idle(),
            self.with_i2c_idle(v).waiting() == self.waiting(),
            self.with_i2c_idle(v).stalled() == self.stalled(),
            self.with_i2c_idle(v).arb_lost() == self.arb_lost(),
            self.with_i2c_idle(v).nack_addr() == self.nack_addr(),
            self.with_i2c_idle(v).nack_data() == self.nack_data(),
            self.with_i2c_idle(v).clock_timeout() == self.clock_timeout(),
            self.with_i2c_idle(v).tx_overflow() == self.tx_overflow(),
            self.with_i2c_idle(v).rx_overflow() == self.rx_overflow(),
            self.with_i2c_idle(v).tx_ready() == self.tx_ready(),
            self.with_i2c_idle(v).rx_ready() == self.rx_ready(),
            self.with_i2c_idle(v).tx_empty() == self.tx_empty(),
            self.with_i2c_idle(v).rx_full() == self.rx_full(),
    {
        lemma_set_bit_get_bit(self.raw, 0, v, 0);
        lemma_set_bit_get_bit(self.raw, 0, v, 1);
        lemma_set_bit_get_bit(self.raw, 0, v, 2);
        lemma_set_bit_get_bit(self.raw, 0, v, 3);
        lemma_set_bit_get_bit(self.raw, 0, v, 4);
        lemma_set_bit_get_bit(self.raw, 0, v, 5);
        lemma_set_bit_get_bit(self.raw, 0, v, 6);
        lemma_set_bit_get_bit(self.raw, 0, v, 7);
        lemma_set_bit_get_bit(self.raw, 0, v, 10);
        lemma_set_bit_get_bit(self.raw, 0, v, 11);
        lemma_set_bit_get_bit(self.raw, 0, v, 12);
        lemma_set_bit_get_bit(self.raw, 0, v, 13);
        lemma_set_bit_get_bit(self.raw, 0, v, 14);
        lemma_set_bit_get_bit(self.raw, 0, v, 15);
    }

    /// After `idle` is set, it reads as what was set and every other field as before.
    pub proof fn lemma_with_idle(self, v: bool)
        ensures
            self.with_idle(v).i2c_idle() == self.i2c_idle(),
            self.with_idle(v).idle() == v,
            self.with_idle(v).waiting() == self.waiting(),
            self.with_idle(v).stalled() == self.stalled(),
            self.with_idle(v).arb_lost() == self.arb_lost(),
            self.with_idle(v).nack_addr() == self.nack_addr(),
            self.with_idle(v).nack_data() == self.nack_data(),
            self.with_idle(v).clock_timeout() == self.clock_timeout(),
            self.with_idle(v).tx_overflow() == self.tx_overflow(),
            self.with_idle(v).rx_overflow() == self.rx_overflow(),
            self.with_idle(v).tx_ready() == self.tx_ready(),
            self.with_idle(v).rx_ready() == self.rx_ready(),
            self.with_idle(v).tx_empty() == self.tx_empty(),
            self.with_idle(v).rx_full() == self.rx_full(),
    {
        lemma_set_bit_get_bit(self.raw, 1, v, 0);
        lemma_set_bit_get_bit(self.raw, 1, v, 1);
        lemma_set_bit_get_bit(self.raw, 1, v, 2);
        lemma_set_bit_get_bit(self.raw, 1, v, 3);
        lemma_set_bit_get_bit(self.raw, 1, v, 4);
        lemma_set_bit_get_bit(self.raw, 1, v, 5);
        lemma_set_bit_get_bit(self.raw, 1, v, 6);
        lemma_set_bit_get_bit(self.raw, 1, v, 7);
        lemma_set_bit_get_bit(self.raw, 1, v, 10);
        lemma_set_bit_get_bit(self.raw, 1, v, 11);
        lemma_set_bit_get_bit(self.raw, 1, v, 12);
        lemma_set_bit_get_bit(self.raw, 1, v, 13);
        lemma_set_bit_get_bit(self.raw, 1, v, 14);
        lemma_set_bit_get_bit(self.raw, 1, v, 15);
    }

    /// After `waiting` is set, it reads as what was set and every other field as before.
    pub proof fn lemma_with_waiting(self, v: bool)
        ensures
            self.with_waiting(v).i2c_idle() == self.i2c_idle(),
            self.with_waiting(v).idle() == self.idle(),
            self.with_waiting(v).waiting() == v,
            self.with_waiting(v).stalled() == self.stalled(),
            self.with_waiting(v).arb_lost() == self.arb_lost(),
            self.with_waiting(v).nack_addr() == self.nack_addr(),
            self.with_waiting(v).nack_data() == self.nack_data(),
            self.with_waiting(v).clock_timeout() == self.clock_timeout(),
            self.with_waiting(v).tx_overflow() == self.tx_overflow(),
            self.with_waiting(v).rx_overflow() == self.rx_overflow(),
            self.with_waiting(v).tx_ready() == self.tx_ready(),
            self.with_waiting(v).rx_ready() == self.rx_ready(),
            self.with_waiting(v).tx_empty() == self.tx_empty(),
            self.with_waiting(v).rx_full() == self.rx_full(),
    {
        lemma_set_bit_get_bit(self.raw, 2, v, 0);
        lemma_set_bit_get_bit(self.raw, 2, v, 1);
        lemma_set_bit_get_bit(self.raw, 2, v, 2);
        lemma_set_bit_get_bit(self.raw, 2, v, 3);
        lemma_set_bit_get_bit(self.raw, 2, v, 4);
        lemma_set_bit_get_bit(self.raw, 2, v, 5);
        lemma_set_bit_get_bit(self.raw, 2, v, 6);
        lemma_set_bit_get_bit(self.raw, 2, v, 7);
        lemma_set_bit_get_bit(self.raw, 2, v, 10);
        lemma_set_bit_get_bit(self.raw, 2, v, 11);
        lemma_set_bit_get_bit(self.raw, 2, v, 12);
        lemma_set_bit_get_bit(self.raw, 2, v, 13);
        lemma_set_bit_get_bit(self.raw, 2, v, 14);
        lemma_set_bit_get_bit(self.raw, 2, v, 15);
    }

    /// After `stalled` is set, it reads as what was set and every other field as before.
    pub proof fn lemma_with_stalled(self, v: bool)
        ensures
            self.with_stalled(v).i2c_idle() == self.i2c_idle(),
            self.with_stalled(v).idle() == self.idle(),
            self.with_stalled(v).waiting() == self.waiting(),
            self.with_stalled(v).stalled() == v,
            self.with_stalled(v).arb_lost() == self.arb_lost(),
            self.with_stalled(v).nack_addr() == self.nack_addr(),
            self.with_stalled(v).nack_data() == self.nack_data(),
            self.with_stalled(v).clock_timeout() == self.clock_timeout(),
            self.with_stalled(v).tx_overflow() == self.tx_overflow(),
            self.with_stalled(v).rx_overflow() == self.rx_overflow(),
            self.with_stalled(v).tx_ready() == self.tx_ready(),
            self.with_stalled(v).rx_ready() == self.rx_ready(),
            self.with_stalled(v).tx_empty() == self.tx_empty(),
            self.with_stalled(v).rx_full() == self.rx_full(),
    {
        lemma_set_bit_get_bit(self.raw, 3, v, 0);
        lemma_set_bit_get_bit(self.raw, 3, v, 1);
        lemma_set_bit_get_bit(self.raw, 3, v, 2);
        lemma_set_bit_get_bit(self.raw, 3, v, 3);
        lemma_set_bit_get_bit(self.raw, 3, v, 4);
        lemma_set_bit_get_bit(self.raw, 3, v, 5);
        lemma_set_bit_get_bit(self.raw, 3, v, 6);
        lemma_set_bit_get_bit(self.raw, 3, v, 7);
        lemma_set_bit_get_bit(self.raw, 3, v, 10);
        lemma_set_bit_get_bit(self.raw, 3, v, 11);
        lemma_set_bit_get_bit(self.raw, 3, v, 12);
        lemma_set_bit_get_bit(self.raw, 3, v, 13);
        lemma_set_bit_get_bit(self.raw, 3, v, 14);
        lemma_set_bit_get_bit(self.raw, 3, v, 15);
    }

    /// After `arb_lost` is set, it reads as what was set and every other field as before.
    pub proof fn lemma_with_arb_lost(self, v: bool)
        ensures
            self.with_arb_lost(v).i2c_idle() == self.i2c_idle(),
            self.with_arb_lost(v).idle() == self.idle(),
            self.with_arb_lost(v).waiting() == self.waiting(),
            self.with_arb_lost(v).stalled() == self.stalled(),
            self.with_arb_lost(v).arb_lost() == v,
            self.with_arb_lost(v).nack_addr() == self.nack_addr(),
            self.with_arb_lost(v).nack_data() == self.nack_data(),
            self.with_arb_lost(v).clock_timeout() == self.clock_timeout(),
            self.with_arb_lost(v).tx_overflow() == self.tx_overflow(),
            self.with_arb_lost(v).rx_overflow() == self.rx_overflow(),
            self.with_arb_lost(v).tx_ready() == self.tx_ready(),
            self.with_arb_lost(v).rx_ready() == self.rx_ready(),
            self.with_arb_lost(v).tx_empty() == self.tx_empty(),
            self.with_arb_lost(v).rx_full() == self.rx_full(),
    {
        lemma_set_bit_get_bit(self.raw, 4, v, 0);
        lemma_set_bit_get_bit(self.raw, 4, v, 1);
        lemma_set_bit_get_bit(self.raw, 4, v, 2);
        lemma_set_bit_get_bit(self.raw, 4, v, 3);
        lemma_set_bit_get_bit(self.raw, 4, v, 4);
        lemma_set_bit_get_bit(self.raw, 4, v, 5);
        lemma_set_bit_get_bit(self.raw, 4, v, 6);
        lemma_set_bit_get_bit(self.raw, 4, v, 7);
        lemma_set_bit_get_bit(self.raw, 4, v, 10);
        lemma_set_bit_get_bit(self.raw, 4, v, 11);
        lemma_set_bit_get_bit(self.raw, 4, v, 12);
        lemma_set_bit_get_bit(self.raw, 4, v, 13);
        lemma_set_bit_get_bit(self.raw, 4, v, 14);
        lemma_set_bit_get_bit(self.raw, 4, v, 15);
    }

    /// After `nack_addr` is set, it reads as what was set and every other field as before.
    pub proof fn lemma_with_nack_addr(self, v: bool)
        ensures
            self.with_nack_addr(v).i2c_idle() == self.i2c_idle(),
            self.with_nack_addr(v).idle() == self.idle(),
            self.with_nack_addr(v).waiting() == self.waiting(),
            self.with_nack_addr(v).stalled() == self.stalled(),
            self.with_nack_addr(v).arb_lost() == self.arb_lost(),
            self.with_nack_addr(v).nack_addr() == v,
            self.with_nack_addr(v).nack_data() == self.nack_data(),
            self.with_nack_addr(v).clock_timeout() == self.clock_timeout(),
            self.with_nack_addr(v).tx_overflow() == self.tx_overflow(),
            self.with_nack_addr(v).rx_overflow() == self.rx_overflow(),
            self.with_nack_addr(v).tx_ready() == self.tx_ready(),
            self.with_nack_addr(v).rx_ready() == self.rx_ready(),
            self.with_nack_addr(v).tx_empty() == self.tx_empty(),
            self.with_nack_addr(v).rx_full() == self.rx_full(),
    {
        lemma_set_bit_get_bit(self.raw, 5, v, 0);
        lemma_set_bit_get_bit(self.raw, 5, v, 1);
        lemma_set_bit_get_bit(self.raw, 5, v, 2);
        lemma_set_bit_get_bit(self.raw, 5, v, 3);
        lemma_set_bit_get_bit(self.raw, 5, v, 4);
        lemma_set_bit_get_bit(self.raw, 5, v, 5);
        lemma_set_bit_get_bit(self.raw, 5, v, 6);
        lemma_set_bit_get_bit(self.raw, 5, v, 7);
        lemma_set_bit_get_bit(self.raw, 5, v, 10);
        lemma_set_bit_get_bit(self.raw, 5, v, 11);
        lemma_set_bit_get_bit(self.raw, 5, v, 12);
        lemma_set_bit_get_bit(self.raw, 5, v, 13);
        lemma_set_bit_get_bit(self.raw, 5, v, 14);
        lemma_set_bit_get_bit(self.raw, 5, v, 15);
    }

    /// After `nack_data` is set, it reads as what was set and every other field as before.
    pub proof fn lemma_with_nack_data(self, v: bool)
        ensures
            self.with_nack_data(v).i2c_idle() == self.i2c_idle(),
            self.with_nack_data(v).idle() == self.idle(),
            self.with_nack_data(v).waiting() == self.waiting(),
            self.with_nack_data(v).stalled() == self.stalled(),
            self.with_nack_data(v).arb_lost() == self.arb_lost(),
            self.with_nack_data(v).nack_addr() == self.nack_addr(),
            self.with_nack_data(v).nack_data() == v,
            self.with_nack_data(v).clock_timeout() == self.clock_timeout(),
            self.with_nack_data(v).tx_overflow() == self.tx_overflow(),
            self.with_nack_data(v).rx_overflow() == self.rx_overflow(),
            self.with_nack_data(v).tx_ready() == self.tx_ready(),
            self.with_nack_data(v).rx_ready() == self.rx_ready(),
            self.with_nack_data(v).tx_empty() == self.tx_empty(),
            self.with_nack_data(v).rx_full() == self.rx_full(),
    {
        lemma_set_bit_get_bit(self.raw, 6, v, 0);
        lemma_set_bit_get_bit(self.raw, 6, v, 1);
        lemma_set_bit_get_bit(self.raw, 6, v, 2);
        lemma_set_bit_get_bit(self.raw, 6, v, 3);
        lemma_set_bit_get_bit(self.raw, 6, v, 4);
        lemma_set_bit_get_bit(self.raw, 6, v, 5);
        lemma_set_bit_get_bit(self.raw, 6, v, 6);
        lemma_set_bit_get_bit(self.raw, 6, v, 7);
        lemma_set_bit_get_bit(self.raw, 6, v, 10);
        lemma_set_bit_get_bit(self.raw, 6, v, 11);
        lemma_set_bit_get_bit(self.raw, 6, v, 12);
        lemma_set_bit_get_bit(self.raw, 6, v, 13);
        lemma_set_bit_get_bit(self.raw, 6, v, 14);
        lemma_set_bit_get_bit(self.raw, 6, v, 15);
    }

    /// After `clock_timeout` is set, it reads as what was set and every other field as before.
    pub proof fn lemma_with_clock_timeout(self, v: bool)
        ensures
            self.with_clock_timeout(v).i2c_idle() == self.i2c_idle(),
            self.with_clock_timeout(v).idle() == self.idle(),
            self.with_clock_timeout(v).waiting() == self.waiting(),
            self.with_clock_timeout(v).stalled() == self.stalled(),
            self.with_clock_timeout(v).arb_lost() == self.arb_lost(),
            self.with_clock_timeout(v).nack_addr() == self.nack_addr(),
            self.with_clock_timeout(v).nack_data() == self.nack_data(),
            self.with_clock_timeout(v).clock_timeout() == v,
            self.with_clock_timeout(v).tx_overflow() == self.tx_overflow(),
            self.with_clock_timeout(v).rx_overflow() == self.rx_overflow(),
            self.with_clock_timeout(v).tx_ready() == self.tx_ready(),
            self.with_clock_timeout(v).rx_ready() == self.rx_ready(),
            self.with_clock_timeout(v).tx_empty() == self.tx_empty(),
            self.with_clock_timeout(v).rx_full() == self.rx_full(),
    {
        lemma_set_bit_get_bit(self.raw, 7, v, 0);
        lemma_set_bit_get_bit(self.raw, 7, v, 1);
        lemma_set_bit_get_bit(self.raw, 7, v, 2);
        lemma_set_bit_get_bit(self.raw, 7, v, 3);
        lemma_set_bit_get_bit(self.raw, 7, v, 4);
        lemma_set_bit_get_bit(self.raw, 7, v, 5);
        lemma_set_bit_get_bit(self.raw, 7, v, 6);
        lemma_set_bit_get_bit(self.raw, 7, v, 7);
        lemma_set_bit_get_bit(self.raw, 7, v, 10);
        lemma_set_bit_get_bit(self.raw, 7, v, 11);
        lemma_set_bit_get_bit(self.raw, 7, v, 12);
        lemma_set_bit_get_bit(self.raw, 7, v, 13);
        lemma_set_bit_get_bit(self.raw, 7, v, 14);
        lemma_set_bit_get_bit(self.raw, 7, v, 15);
    }

    /// After `tx_overflow` is set, it reads as what was set and every other field as before.
    pub proof fn lemma_with_tx_overflow(self, v: bool)
        ensures
            self.with_tx_overflow(v).i2c_idle() == self.i2c_idle(),
            self.with_tx_overflow(v).idle() == self.idle(),
            self.with_tx_overflow(v).waiting() == self.waiting(),
            self.with_tx_overflow(v).stalled() == self.stalled(),
            self.with_tx_overflow(v).arb_lost() == self.arb_lost(),
            self.with_tx_overflow(v).nack_addr() == self.nack_addr(),
            self.with_tx_overflow(v).nack_data() == self.nack_data(),
            self.with_tx_overflow(v).clock_timeout() == self.clock_timeout(),
            self.with_tx_overflow(v).tx_overflow() == v,
            self.with_tx_overflow(v).rx_overflow() == self.rx_overflow(),
            self.with_tx_overflow(v).tx_ready() == self.tx_ready(),
            self.with_tx_overflow(v).rx_ready() == self.rx_ready(),
            self.with_tx_overflow(v).tx_empty() == self.tx_empty(),
            self.with_tx_overflow(v).rx_full() == self.rx_full(),
    {
        lemma_set_bit_get_bit(self.raw, 10, v, 0);
        lemma_set_bit_get_bit(self.raw, 10, v, 1);
        lemma_set_bit_get_bit(self.raw, 10, v, 2);
        lemma_set_bit_get_bit(self.raw, 10, v, 3);
        lemma_set_bit_get_bit(self.raw, 10, v, 4);
        lemma_set_bit_get_bit(self.raw, 10, v, 5);
        lemma_set_bit_get_bit(self.raw, 10, v, 6);
        lemma_set_bit_get_bit(self.raw, 10, v, 7);
        lemma_set_bit_get_bit(self.raw, 10, v, 10);
        lemma_set_bit_get_bit(self.raw, 10, v, 11);
        lemma_set_bit_get_bit(self.raw, 10, v, 12);
        lemma_set_bit_get_bit(self.raw, 10, v, 13);
        lemma_set_bit_get_bit(self.raw, 10, v, 14);
        lemma_set_bit_get_bit(self.raw, 10, v, 15);
    }

    /// After `rx_overflow` is set, it reads as what was set and every other field as before.
    pub proof fn lemma_with_rx_overflow(self, v: bool)
        ensures
            self.with_rx_overflow(v).i2c_idle() == self.i2c_idle(),
            self.with_rx_overflow(v).idle() == self.idle(),
            self.with_rx_overflow(v).waiting() == self.waiting(),
            self.with_rx_overflow(v).stalled() == self.stalled(),
            self.with_rx_overflow(v).arb_lost() == self.arb_lost(),
            self.with_rx_overflow(v).nack_addr() == self.nack_addr(),
            self.with_rx_overflow(v).nack_data() == self.nack_data(),
            self.with_rx_overflow(v).clock_timeout() == self.clock_timeout(),
            self.with_rx_overflow(v).tx_overflow() == self.tx_overflow(),
            self.with_rx_overflow(v).rx_overflow() == v,
            self.with_rx_overflow(v).tx_ready() == self.tx_ready(),
            self.with_rx_overflow(v).rx_ready() == self.rx_ready(),
            self.with_rx_overflow(v).tx_empty() == self.tx_empty(),
            self.with_rx_overflow(v).rx_full() == self.rx_full(),
    {
        lemma_set_bit_get_bit(self.raw, 11, v, 0);
        lemma_set_bit_get_bit(self.raw, 11, v, 1);
        lemma_set_bit_get_bit(self.raw, 11, v, 2);
        lemma_set_bit_get_bit(self.raw, 11, v, 3);
        lemma_set_bit_get_bit(self.raw, 11, v, 4);
        lemma_set_bit_get_bit(self.raw, 11, v, 5);
        lemma_set_bit_get_bit(self.raw, 11, v, 6);
        lemma_set_bit_get_bit(self.raw, 11, v, 7);
        lemma_set_bit_get_bit(self.raw, 11, v, 10);
        lemma_set_bit_get_bit(self.raw, 11, v, 11);
        lemma_set_bit_get_bit(self.raw, 11, v, 12);
        lemma_set_bit_get_bit(self.raw, 11, v, 13);
        lemma_set_bit_get_bit(self.raw, 11, v, 14);
        lemma_set_bit_get_bit(self.raw, 11, v, 15);
    }

    /// After `tx_ready` is set, it reads as what was set and every other field as before.
    pub proof fn lemma_with_tx_ready(self, v: bool)
        ensures
            self.with_tx_ready(v).i2c_idle() == self.i2c_idle(),
            self.with_tx_ready(v).idle() == self.idle(),
            self.with_tx_ready(v).waiting() == self.waiting(),
            self.with_tx_ready(v).stalled() == self.stalled(),
            self.with_tx_ready(v).arb_lost() == self.arb_lost(),
            self.with_tx_ready(v).nack_addr() == self.nack_addr(),
            self.with_tx_ready(v).nack_data() == self.nack_data(),
            self.with_tx_ready(v).clock_timeout() == self.clock_timeout(),
            self.with_tx_ready(v).tx_overflow() == self.tx_overflow(),
            self.with_tx_ready(v).rx_overflow() == self.rx_overflow(),
            self.with_tx_ready(v).tx_ready() == v,
            self.with_tx_ready(v).rx_ready() == self.rx_ready(),
            self.with_tx_ready(v).tx_empty() == self.tx_empty(),
            self.with_tx_ready(v).rx_full() == self.rx_full(),
    {
        lemma_set_bit_get_bit(self.raw, 12, v, 0);
        lemma_set_bit_get_bit(self.raw, 12, v, 1);
        lemma_set_bit_get_bit(self.raw, 12, v, 2);
        lemma_set_bit_get_bit(self.raw, 12, v, 3);
        lemma_set_bit_get_bit(self.raw, 12, v, 4);
        lemma_set_bit_get_bit(self.raw, 12, v, 5);
        lemma_set_bit_get_bit(self.raw, 12, v, 6);
        lemma_set_bit_get_bit(self.raw, 12, v, 7);
        lemma_set_bit_get_bit(self.raw, 12, v, 10);
        lemma_set_bit_get_bit(self.raw, 12, v, 11);
        lemma_set_bit_get_bit(self.raw, 12, v, 12);
        lemma_set_bit_get_bit(self.raw, 12, v, 13);
        lemma_set_bit_get_bit(self.raw, 12, v, 14);
        lemma_set_bit_get_bit(self.raw, 12, v, 15);
    }

    /// After `rx_ready` is set, it reads as what was set and every other field as before.
    pub proof fn lemma_with_rx_ready(self, v: bool)
        ensures
            self.with_rx_ready(v).i2c_idle() == self.i2c_idle(),
            self.with_rx_ready(v).idle() == self.idle(),
            self.with_rx_ready(v).waiting() == self.waiting(),
            self.with_rx_ready(v).stalled() == self.stalled(),
            self.with_rx_ready(v).arb_lost() == self.arb_lost(),
            self.with_rx_ready(v).nack_addr() == self.nack_addr(),
            self.with_rx_ready(v).nack_data() == self.nack_data(),
            self.with_rx_ready(v).clock_timeout() == self.clock_timeout(),
            self.with_rx_ready(v).tx_overflow() == self.tx_overflow(),
            self.with_rx_ready(v).rx_overflow() == self.rx_overflow(),
            self.with_rx_ready(v).tx_ready() == self.tx_ready(),
            self.with_rx_ready(v).rx_ready() == v,
            self.with_rx_ready(v).tx_empty() == self.tx_empty(),
            self.with_rx_ready(v).rx_full() == self.rx_full(),
    {
        lemma_set_bit_get_bit(self.raw, 13, v, 0);
        lemma_set_bit_get_bit(self.raw, 13, v, 1);
        lemma_set_bit_get_bit(self.raw, 13, v, 2);
        lemma_set_bit_get_bit(self.raw, 13, v, 3);
        lemma_set_bit_get_bit(self.raw, 13, v, 4);
        lemma_set_bit_get_bit(self.raw, 13, v, 5);
        lemma_set_bit_get_bit(self.raw, 13, v, 6);
        lemma_set_bit_get_bit(self.raw, 13, v, 7);
        lemma_set_bit_get_bit(self.raw, 13, v, 10);
        lemma_set_bit_get_bit(self.raw, 13, v, 11);
        lemma_set_bit_get_bit(self.raw, 13, v, 12);
        lemma_set_bit_get_bit(self.raw, 13, v, 13);
        lemma_set_bit_get_bit(self.raw, 13, v, 14);
        lemma_set_bit_get_bit(self.raw, 13, v, 15);
    }

    /// After `tx_empty` is set, it reads as what was set and every other field as before.
    pub proof fn lemma_with_tx_empty(self, v: bool)
        ensures
            self.with_tx_empty(v).i2c_idle() == self.i2c_idle(),
            self.with_tx_empty(v).idle() == self.idle(),
            self.with_tx_empty(v).waiting() == self.waiting(),
            self.with_tx_empty(v).stalled() == self.stalled(),
            self.with_tx_empty(v).arb_lost() == self.arb_lost(),
            self.with_tx_empty(v).nack_addr() == self.nack_addr(),
            self.with_tx_empty(v).nack_data() == self.nack_data(),
            self.with_tx_empty(v).clock_timeout() == self.clock_timeout(),
            self.with_tx_empty(v).tx_overflow() == self.tx_overflow(),
            self.with_tx_empty(v).rx_overflow() == self.rx_overflow(),
            self.with_tx_empty(v).tx_ready() == self.tx_ready(),
            self.with_tx_empty(v).rx_ready() == self.rx_ready(),
            self.with_tx_empty(v).tx_empty() == v,
            self.with_tx_empty(v).rx_full() == self.rx_full(),
    {
        lemma_set_bit_get_bit(self.raw, 14, v, 0);
        lemma_set_bit_get_bit(self.raw, 14, v, 1);
        lemma_set_bit_get_bit(self.raw, 14, v, 2);
        lemma_set_bit_get_bit(self.raw, 14, v, 3);
        lemma_set_bit_get_bit(self.raw, 14, v, 4);
        lemma_set_bit_get_bit(self.raw, 14, v, 5);
        lemma_set_bit_get_bit(self.raw, 14, v, 6);
        lemma_set_bit_get_bit(self.raw, 14, v, 7);
        lemma_set_bit_get_bit(self.raw, 14, v, 10);
        lemma_set_bit_get_bit(self.raw, 14, v, 11);
        lemma_set_bit_get_bit(self.raw, 14, v, 12);
        lemma_set_bit_get_bit(self.raw, 14, v, 13);
        lemma_set_bit_get_bit(self.raw, 14, v, 14);
        lemma_set_bit_get_bit(self.raw, 14, v, 15);
    }

    /// After `rx_full` is set, it reads as what was set and every other field as before.
    pub proof fn lemma_with_rx_full(self, v: bool)
        ensures
            self.with_rx_full(v).i2c_idle() == self.i2c_idle(),
            self.with_rx_full(v).idle() == self.idle(),
            self.with_rx_full(v).waiting() == self.waiting(),
            self.with_rx_full(v).stalled() == self.stalled(),
            self.with_rx_full(v).arb_lost() == self.arb_lost(),
            self.with_rx_full(v).nack_addr() == self.nack_addr(),
            self.with_rx_full(v).nack_data() == self.nack_data(),
            self.with_rx_full(v).clock_timeout() == self.clock_timeout(),
            self.with_rx_full(v).tx_overflow() == self.tx_overflow(),
            self.with_rx_full(v).rx_overflow() == self.rx_overflow(),
            self.with_rx_full(v).tx_ready() == self.tx_ready(),
            self.with_rx_full(v).rx_ready() == self.rx_ready(),
            self.with_rx_full(v).tx_empty() == self.tx_empty(),
            self.with_rx_full(v).rx_full() == v,
    {
        lemma_set_bit_get_bit(self.raw, 15, v, 0);
        lemma_set_bit_get_bit(self.raw, 15, v, 1);
        lemma_set_bit_get_bit(self.raw, 15, v, 2);
        lemma_set_bit_get_bit(self.raw, 15, v, 3);
        lemma_set_bit_get_bit(self.raw, 15, v, 4);
        lemma_set_bit_get_bit(self.raw, 15, v, 5);
        lemma_set_bit_get_bit(self.raw, 15, v, 6);
        lemma_set_bit_get_bit(self.raw, 15, v, 7);
        lemma_set_bit_get_bit(self.raw, 15, v, 10);
        lemma_set_bit_get_bit(self.raw, 15, v, 11);
        lemma_set_bit_get_bit(self.raw, 15, v, 12);
        lemma_set_bit_get_bit(self.raw, 15, v, 13);
        lemma_set_bit_get_bit(self.raw, 15, v, 14);
        lemma_set_bit_get_bit(self.raw, 15, v, 15);
    }
}

/// What is written to the interrupt clear register of an I2C master.
#[derive(Debug, Clone, Copy, PartialEq, Eq, Structural)]
pub struct InterruptClear {
    pub raw: u32,
}

impl InterruptClear {
    /// The register value with the bits `raw`.
    #[verifier::allow_in_spec]
    pub fn new_with_raw_value(raw: u32) -> InterruptClear
        returns
            (InterruptClear { raw }),
    {
        InterruptClear { raw }
    }

    /// The bits of the register value.
    #[verifier::allow_in_spec]
    pub fn raw_value(&self) -> u32
        returns
            self.raw,
    {
        self.raw
    }

    /// Bit 7 of the register.
    #[verifier::allow_in_spec]
    pub fn clock_timeout(&self) -> bool
        returns
            spec_get_bit(self.raw, 7),
    {
        get_bit(self.raw, 7)
    }

    /// The same value with `clock_timeout` replaced by `v`.
    #[verifier::allow_in_spec]
    pub fn with_clock_timeout(self, v: bool) -> InterruptClear
        returns
            (InterruptClear { raw: spec_set_bit(self.raw, 7, v) }),
    {
        InterruptClear { raw: set_bit(self.raw, 7, v) }
    }

    /// Bit 10 of the register.
    #[verifier::allow_in_spec]
    pub fn tx_overflow(&self) -> bool
        returns
            spec_get_bit(self.raw, 10),
    {
        get_bit(self.raw, 10)
    }

    /// The same value with `tx_overflow` replaced by `v`.
    #[verifier::allow_in_spec]
    pub fn with_tx_overflow(self, v: bool) -> InterruptClear
        returns
            (InterruptClear { raw: spec_set_bit(self.raw, 10, v) }),
    {
        InterruptClear { raw: set_bit(self.raw, 10, v) }
    }

    /// Bit 11 of the register.
    #[verifier::allow_in_spec]
    pub fn rx_overflow(&self) -> bool
        returns
            spec_get_bit(self.raw, 11),
    {
        get_bit(self.raw, 11)
    }

    /// The same value with `rx_overflow` replaced by `v`.
    #[verifier::allow_in_spec]
    pub fn with_rx_overflow(self, v: bool) -> InterruptClear
        returns
            (InterruptClear { raw: spec_set_bit(self.raw, 11, v) }),
    {
        InterruptClear { raw: set_bit(self.raw, 11, v) }
    }

    /// After `clock_timeout` is set, it reads as what was set and every other field as before.
    pub proof fn lemma_with_clock_timeout(self, v: bool)
        ensures
            self.with_clock_timeout(v).clock_timeout() == v,
            self.with_clock_timeout(v).tx_overflow() == self.tx_overflow(),
            self.with_clock_timeout(v).rx_overflow() == self.rx_overflow(),
    {
        lemma_set_bit_get_bit(self.raw, 7, v, 7);
        lemma_set_bit_get_bit(self.raw, 7, v, 10);
        lemma_set_bit_get_bit(self.raw, 7, v, 11);
    }

    /// After `tx_overflow` is set, it reads as what was set and every other field as before.
    pub proof fn lemma_with_tx_overflow(self, v: bool)
        ensures
            self.with_tx_overflow(v).clock_timeout() == self.clock_timeout(),
            self.with_tx_overflow(v).tx_overflow() == v,
            self.with_tx_overflow(v).rx_overflow() == self.rx_overflow(),
    {
        lemma_set_bit_get_bit(self.raw, 10, v, 7);
        lemma_set_bit_get_bit(self.raw, 10, v, 10);
        lemma_set_bit_get_bit(self.raw, 10, v, 11);
    }

    /// After `rx_overflow` is set, it reads as what was set and every other field as before.
    pub proof fn lemma_with_rx_overflow(self, v: bool)
        ensures
            self.with_rx_overflow(v).clock_timeout() == self.clock_timeout(),
            self.with_rx_overflow(v).tx_overflow() == self.tx_overflow(),
            self.with_rx_overflow(v).rx_overflow() == v,
    {
        lemma_set_bit_get_bit(self.raw, 11, v, 7);
        lemma_set_bit_get_bit(self.raw, 11, v, 10);
        lemma_set_bit_get_bit(self.raw, 11, v, 11);
    }
}

/// The timing register of an I2C master: eight times of four bits each.
#[derive(Debug, Clone, Copy, PartialEq, Eq, Structural)]
pub struct TimingConfig {
    pub raw: u32,
}

impl TimingConfig {
    /// The register value with the bits `raw`.
    #[verifier::allow_in_spec]
    pub fn new_with_raw_value(raw: u32) -> TimingConfig
        returns
            (TimingConfig { raw }),
    {
        TimingConfig { raw }
    }

    /// The bits of the register value.
    #[verifier::allow_in_spec]
    pub fn raw_value(&self) -> u32
        returns
            self.raw,
    {
        self.raw
    }

    /// Bits 0 to 3 of the register.
    #[verifier::allow_in_spec]
    pub fn t_rise(&self) -> u8
        returns
            spec_get_field(self.raw, 0, 4) as u8,
    {
        proof {
            lemma_field_bound(self.raw, 0, 4);
        }
        get_field(self.raw, 0, 4) as u8
    }

    /// The same value with `t_rise` replaced by `v`.
    #[verifier::allow_in_spec]
    pub fn with_t_rise(self, v: u8) -> TimingConfig
        returns
            (TimingConfig { raw: spec_set_field(self.raw, 0, 4, v as u32) }),
    {
        TimingConfig { raw: set_field(self.raw, 0, 4, v as u32) }
    }

    /// Bits 4 to 7 of the register.
    #[verifier::allow_in_spec]
    pub fn t_fall(&self) -> u8
        returns
            spec_get_field(self.raw, 4, 4) as u8,
    {
        proof {
            lemma_field_bound(self.raw, 4, 4);
        }
        get_field(self.raw, 4, 4) as u8
    }

    /// The same value with `t_fall` replaced by `v`.
    #[verifier::allow_in_spec]
    pub fn with_t_fall(self, v: u8) -> TimingConfig
        returns
            (TimingConfig { raw: spec_set_field(self.raw, 4, 4, v as u32) }),
    {
        TimingConfig { raw: set_field(self.raw, 4, 4, v as u32) }
    }

    /// Bits 8 to 11 of the register.
    #[verifier::allow_in_spec]
    pub fn t_high(&self) -> u8
        returns
            spec_get_field(self.raw, 8, 4) as u8,
    {
        proof {
            lemma_field_bound(self.raw, 8, 4);
        }
        get_field(self.raw, 8, 4) as u8
    }

    /// The same value with `t_high` replaced by `v`.
    #[verifier::allow_in_spec]
    pub fn with_t_high(self, v: u8) -> TimingConfig
        returns
            (TimingConfig { raw: spec_set_field(self.raw, 8, 4, v as u32) }),
    {
        TimingConfig { raw: set_field(self.raw, 8, 4, v as u32) }
    }

    /// Bits 12 to 15 of the register.
    #[verifier::allow_in_spec]
    pub fn t_low(&self) -> u8
        returns
            spec_get_field(self.raw, 12, 4) as u8,
    {
        proof {
            lemma_field_bound(self.raw, 12, 4);
        }
        get_field(self.raw, 12, 4) as u8
    }

    /// The same value with `t_low` replaced by `v`.
    #[verifier::allow_in_spec]
    pub fn with_t_low(self, v: u8) -> TimingConfig
        returns
            (TimingConfig { raw: spec_set_field(self.raw, 12, 4, v as u32) }),
    {
        TimingConfig { raw: set_field(self.raw, 12, 4, v as u32) }
    }

    /// Bits 16 to 19 of the register.
    #[verifier::allow_in_spec]
    pub fn tsu_stop(&self) -> u8
        returns
            spec_get_field(self.raw, 16, 4) as u8,
    {
        proof {
            lemma_field_bound(self.raw, 16, 4);
        }
        get_field(self.raw, 16, 4) as u8
    }

    /// The same value with `tsu_stop` replaced by `v`.
    #[verifier::allow_in_spec]
    pub fn with_tsu_stop(self, v: u8) -> TimingConfig
        returns
            (TimingConfig { raw: spec_set_field(self.raw, 16, 4, v as u32) }),
    {
        TimingConfig { raw: set_field(self.raw, 16, 4, v as u32) }
    }

    /// Bits 20 to 23 of the register.
    #[verifier::allow_in_spec]
    pub fn tsu_start(&self) -> u8
        returns
            spec_get_field(self.raw, 20, 4) as u8,
    {
        proof {
            lemma_field_bound(self.raw, 20, 4);
        }
        get_field(self.raw, 20, 4) as u8
    }

    /// The same value with `tsu_start` replaced by `v`.
    #[verifier::allow_in_spec]
    pub fn with_tsu_start(self, v: u8) -> TimingConfig
        returns
            (TimingConfig { raw: spec_set_field(self.raw, 20, 4, v as u32) }),
    {
        TimingConfig { raw: set_field(self.raw, 20, 4, v as u32) }
    }

    /// Bits 24 to 27 of the register.
    #[verifier::allow_in_spec]
    pub fn thd_start(&self) -> u8
        returns
            spec_get_field(self.raw, 24, 4) as u8,
    {
        proof {
            lemma_field_bound(self.raw, 24, 4);
        }
        get_field(self.raw, 24, 4) as u8
    }

    /// The same value with `thd_start` replaced by `v`.
    #[verifier::allow_in_spec]
    pub fn with_thd_start(self, v: u8) -> TimingConfig
        returns
            (TimingConfig { raw: spec_set_field(self.raw, 24, 4, v as u32) }),
    {
        TimingConfig { raw: set_field(self.raw, 24, 4, v as u32) }
    }

    /// Bits 28 to 31 of the register.
    #[verifier::allow_in_spec]
    pub fn t_buf(&self) -> u8
        returns
            spec_get_field(self.raw, 28, 4) as u8,
    {
        proof {
            lemma_field_bound(self.raw, 28, 4);
        }
        get_field(self.raw, 28, 4) as u8
    }

    /// The same value with `t_buf` replaced by `v`.
    #[verifier::allow_in_spec]
    pub fn with_t_buf(self, v: u8) -> TimingConfig
        returns
            (TimingConfig { raw: spec_set_field(self.raw, 28, 4, v as u32) }),
    {
        TimingConfig { raw: set_field(self.raw, 28, 4, v as u32) }
    }

    /// After `t_rise` is set, it reads as what was set and every other field as before.
    pub proof fn lemma_with_t_rise(self, v: u8)
        requires
            v < 16,
        ensures
            self.with_t_rise(v).t_rise() == v,
            self.with_t_rise(v).t_fall() == self.t_fall(),
            self.with_t_rise(v).t_high() == self.t_high(),
            self.with_t_rise(v).t_low() == self.t_low(),
            self.with_t_rise(v).tsu_stop() == self.tsu_stop(),
            self.with_t_rise(v).tsu_start() == self.tsu_start(),
            self.with_t_rise(v).thd_start() == self.thd_start(),
            self.with_t_rise(v).t_buf() == self.t_buf(),
    {
        lemma_field_bound(self.raw, 0, 4);
        lemma_set_field_get_field(self.raw, 0, 4, v as u32);
        lemma_set_field_keeps_field(self.raw, 0, 4, v as u32, 4, 4);
        lemma_set_field_keeps_field(self.raw, 0, 4, v as u32, 8, 4);
        lemma_set_field_keeps_field(self.raw, 0, 4, v as u32, 12, 4);
        lemma_set_field_keeps_field(self.raw, 0, 4, v as u32, 16, 4);
        lemma_set_field_keeps_field(self.raw, 0, 4, v as u32, 20, 4);
        lemma_set_field_keeps_field(self.raw, 0, 4, v as u32, 24, 4);
        lemma_set_field_keeps_field(self.raw, 0, 4, v as u32, 28, 4);
    }

    /// After `t_fall` is set, it reads as what was set and every other field as before.
    pub proof fn lemma_with_t_fall(self, v: u8)
        requires
            v < 16,
        ensures
            self.with_t_fall(v).t_rise() == self.t_rise(),
            self.with_t_fall(v).t_fall() == v,
            self.with_t_fall(v).t_high() == self.t_high(),
            self.with_t_fall(v).t_low() == self.t_low(),
            self.with_t_fall(v).tsu_stop() == self.tsu_stop(),
            self.with_t_fall(v).tsu_start() == self.tsu_start(),
            self.with_t_fall(v).thd_start() == self.thd_start(),
            self.with_t_fall(v).t_buf() == self.t_buf(),
    {
        lemma_field_bound(self.raw, 4, 4);
        lemma_set_field_keeps_field(self.raw, 4, 4, v as u32, 0, 4);
        lemma_set_field_get_field(self.raw, 4, 4, v as u32);
        lemma_set_field_keeps_field(self.raw, 4, 4, v as u32, 8, 4);
        lemma_set_field_keeps_field(self.raw, 4, 4, v as u32, 12, 4);
        lemma_set_field_keeps_field(self.raw, 4, 4, v as u32, 16, 4);
        lemma_set_field_keeps_field(self.raw, 4, 4, v as u32, 20, 4);
        lemma_set_field_keeps_field(self.raw, 4, 4, v as u32, 24, 4);
        lemma_set_field_keeps_field(self.raw, 4, 4, v as u32, 28, 4);
    }

    /// After `t_high` is set, it reads as what was set and every other field as before.
    pub proof fn lemma_with_t_high(self, v: u8)
        requires
            v < 16,
        ensures
            self.with_t_high(v).t_rise() == self.t_rise(),
            self.with_t_high(v).t_fall() == self.t_fall(),
            self.with_t_high(v).t_high() == v,
            self.with_t_high(v).t_low() == self.t_low(),
            self.with_t_high(v).tsu_stop() == self.tsu_stop(),
            self.with_t_high(v).tsu_start() == self.tsu_start(),
            self.with_t_high(v).thd_start() == self.thd_start(),
            self.with_t_high(v).t_buf() == self.t_buf(),
    {
        lemma_field_bound(self.raw, 8, 4);
        lemma_set_field_keeps_field(self.raw, 8, 4, v as u32, 0, 4);
        lemma_set_field_keeps_field(self.raw, 8, 4, v as u32, 4, 4);
        lemma_set_field_get_field(self.raw, 8, 4, v as u32);
        lemma_set_field_keeps_field(self.raw, 8, 4, v as u32, 12, 4);
        lemma_set_field_keeps_field(self.raw, 8, 4, v as u32, 16, 4);
        lemma_set_field_keeps_field(self.raw, 8, 4, v as u32, 20, 4);
        lemma_set_field_keeps_field(self.raw, 8, 4, v as u32, 24, 4);
        lemma_set_field_keeps_field(self.raw, 8, 4, v as u32, 28, 4);
    }

    /// After `t_low` is set, it reads as what was set and every other field as before.
    pub proof fn lemma_with_t_low(self, v: u8)
        requires
            v < 16,
        ensures
            self.with_t_low(v).t_rise() == self.t_rise(),
            self.with_t_low(v).t_fall() == self.t_fall(),
            self.with_t_low(v).t_high() == self.t_high(),
            self.with_t_low(v).t_low() == v,
            self.with_t_low(v).tsu_stop() == self.tsu_stop(),
            self.with_t_low(v).tsu_start() == self.tsu_start(),
            self.with_t_low(v).thd_start() == self.thd_start(),
            self.with_t_low(v).t_buf() == self.t_buf(),
    {
        lemma_field_bound(self.raw, 12, 4);
        lemma_set_field_keeps_field(self.raw, 12, 4, v as u32, 0, 4);
        lemma_set_field_keeps_field(self.raw, 12, 4, v as u32, 4, 4);
        lemma_set_field_keeps_field(self.raw, 12, 4, v as u32, 8, 4);
        lemma_set_field_get_field(self.raw, 12, 4, v as u32);
        lemma_set_field_keeps_field(self.raw, 12, 4, v as u32, 16, 4);
        lemma_set_field_keeps_field(self.raw, 12, 4, v as u32, 20, 4);
        lemma_set_field_keeps_field(self.raw, 12, 4, v as u32, 24, 4);
        lemma_set_field_keeps_field(self.raw, 12, 4, v as u32, 28, 4);
    }

    /// After `tsu_stop` is set, it reads as what was set and every other field as before.
    pub proof fn lemma_with_tsu_stop(self, v: u8)
        requires
            v < 16,
        ensures
            self.with_tsu_stop(v).t_rise() == self.t_rise(),
            self.with_tsu_stop(v).t_fall() == self.t_fall(),
            self.with_tsu_stop(v).t_high() == self.t_high(),
            self.with_tsu_stop(v).t_low() == self.t_low(),
            self.with_tsu_stop(v).tsu_stop() == v,
            self.with_tsu_stop(v).tsu_start() == self.tsu_start(),
            self.with_tsu_stop(v).thd_start() == self.thd_start(),
            self.with_tsu_stop(v).t_buf() == self.t_buf(),
    {
        lemma_field_bound(self.raw, 16, 4);
        lemma_set_field_keeps_field(self.raw, 16, 4, v as u32, 0, 4);
        lemma_set_field_keeps_field(self.raw, 16, 4, v as u32, 4, 4);
        lemma_set_field_keeps_field(self.raw, 16, 4, v as u32, 8, 4);
        lemma_set_field_keeps_field(self.raw, 16, 4, v as u32, 12, 4);
        lemma_set_field_get_field(self.raw, 16, 4, v as u32);
        lemma_set_field_keeps_field(self.raw, 16, 4, v as u32, 20, 4);
        lemma_set_field_keeps_field(self.raw, 16, 4, v as u32, 24, 4);
        lemma_set_field_keeps_field(self.raw, 16, 4, v as u32, 28, 4);
    }

    /// After `tsu_start` is set, it reads as what was set and every other field as before.
    pub proof fn lemma_with_tsu_start(self, v: u8)
        requires
            v < 16,
        ensures
            self.with_tsu_start(v).t_rise() == self.t_rise(),
            self.with_tsu_start(v).t_fall() == self.t_fall(),
            self.with_tsu_start(v).t_high() == self.t_high(),
            self.with_tsu_start(v).t_low() == self.t_low(),
            self.with_tsu_start(v).tsu_stop() == self.tsu_stop(),
            self.with_tsu_start(v).tsu_start() == v,
            self.with_tsu_start(v).thd_start() == self.thd_start(),
            self.with_tsu_start(v).t_buf() == self.t_buf(),
    {
        lemma_field_bound(self.raw, 20, 4);
        lemma_set_field_keeps_field(self.raw, 20, 4, v as u32, 0, 4);
        lemma_set_field_keeps_field(self.raw, 20, 4, v as u32, 4, 4);
        lemma_set_field_keeps_field(self.raw, 20, 4, v as u32, 8, 4);
        lemma_set_field_keeps_field(self.raw, 20, 4, v as u32, 12, 4);
        lemma_set_field_keeps_field(self.raw, 20, 4, v as u32, 16, 4);
        lemma_set_field_get_field(self.raw, 20, 4, v as u32);
        lemma_set_field_keeps_field(self.raw, 20, 4, v as u32, 24, 4);
        lemma_set_field_keeps_field(self.raw, 20, 4, v as u32, 28, 4);
    }

    /// After `thd_start` is set, it reads as what was set and every other field as before.
    pub proof fn lemma_with_thd_start(self, v: u8)
        requires
            v < 16,
        ensures
            self.with_thd_start(v).t_rise() == self.t_rise(),
            self.with_thd_start(v).t_fall() == self.t_fall(),
            self.with_thd_start(v).t_high() == self.t_high(),
            self.with_thd_start(v).t_low() == self.t_low(),
            self.with_thd_start(v).tsu_stop() == self.tsu_stop(),
            self.with_thd_start(v).tsu_start() == self.tsu_start(),
            self.with_thd_start(v).thd_start() == v,
            self.with_thd_start(v).t_buf() == self.t_buf(),
    {
        lemma_field_bound(self.raw, 24, 4);
        lemma_set_field_keeps_field(self.raw, 24, 4, v as u32, 0, 4);
        lemma_set_field_keeps_field(self.raw, 24, 4, v as u32, 4, 4);
        lemma_set_field_keeps_field(self.raw, 24, 4, v as u32, 8, 4);
        lemma_set_field_keeps_field(self.raw, 24, 4, v as u32, 12, 4);
        lemma_set_field_keeps_field(self.raw, 24, 4, v as u32, 16, 4);
        lemma_set_field_keeps_field(self.raw, 24, 4, v as u32, 20, 4);
        lemma_set_field_get_field(self.raw, 24, 4, v as u32);
        lemma_set_field_keeps_field(self.raw, 24, 4, v as u32, 28, 4);
    }

    /// After `t_buf` is set, it reads as what was set and every other field as before.
    pub proof fn lemma_with_t_buf(self, v: u8)
        requires
            v < 16,
        ensures
            self.with_t_buf(v).t_rise() == self.t_rise(),
            self.with_t_buf(v).t_fall() == self.t_fall(),
            self.with_t_buf(v).t_high() == self.t_high(),
            self.with_t_buf(v).t_low() == self.t_low(),
            self.with_t_buf(v).tsu_stop() == self.tsu_stop(),
            self.with_t_buf(v).tsu_start() == self.tsu_start(),
            self.with_t_buf(v).thd_start() == self.thd_start(),
            self.with_t_buf(v).t_buf() == v,
    {
        lemma_field_bound(self.raw, 28, 4);
        lemma_set_field_keeps_field(self.raw, 28, 4, v as u32, 0, 4);
        lemma_set_field_keeps_field(self.raw, 28, 4, v as u32, 4, 4);
        lemma_set_field_keeps_field(self.raw, 28, 4, v as u32, 8, 4);
        lemma_set_field_keeps_field(self.raw, 28, 4, v as u32, 12, 4);
        lemma_set_field_keeps_field(self.raw, 28, 4, v as u32, 16, 4);
        lemma_set_field_keeps_field(self.raw, 28, 4, v as u32, 20, 4);
        lemma_set_field_keeps_field(self.raw, 28, 4, v as u32, 24, 4);
        lemma_set_field_get_field(self.raw, 28, 4, v as u32);
    }
}

/// The limit of the time for which the clock line may be low, in clock cycles of the
/// bus: twenty bits. A limit of 0 switches the timeout off.
#[derive(Debug, PartialEq, Eq, Clone, Copy, Structural)]
pub struct ClkTimeoutLimit {
    pub raw: u32,
}

impl ClkTimeoutLimit {
    /// The limit `value`, which fits twenty bits.
    pub fn new(value: u32) -> (limit: ClkTimeoutLimit)
        requires
            value < 0x10_0000,
        ensures
            limit.raw == value,
    {
        ClkTimeoutLimit { raw: value }
    }

    /// The limit.
    pub fn value(&self) -> (value: u32)
        ensures
            value == spec_get_field(self.raw, 0, 20),
            value < 0x10_0000,
    {
        proof {
            lemma_field_bound(self.raw, 0, 20);
        }
        get_field(self.raw, 0, 20)
    }
}

/// The registers of an I2C peripheral that hold what was written to them or what the
/// caller has read from the hardware.
#[derive(Debug, Clone, Copy, PartialEq, Eq, Structural)]
pub struct I2c {
    /// The address of the registers.
    pub base: usize,
    pub control: Control,
    pub clkscale: ClkScale,
    pub words: Words,
    pub address: Address,
    /// What was last written to the command register.
    pub cmd: Command,
    pub status: Status,
    pub state: State,
    pub tx_count: DataCount,
    pub rx_count: DataCount,
    pub irq_enb: InterruptControl,
    pub irq_raw: InterruptStatus,
    pub irq_status: InterruptStatus,
    /// What was last written to the interrupt clear register.
    pub irq_clear: InterruptClear,
    pub rx_fifo_trigger: TriggerLevel,
    pub tx_fifo_trigger: TriggerLevel,
    /// What was last written to the FIFO clear register.
    pub fifo_clear: FifoClear,
    pub timing_config: TimingConfig,
    pub clk_timeout_limit: ClkTimeoutLimit,
    pub slave: slave::I2cSlave,
    pub perid: u32,
}

impl I2c {
    /// The registers after a reset: all clear.
    pub open spec fn spec_reset_state(base: usize) -> I2c {
        I2c {
            base,
            control: Control { raw: 0 },
            clkscale: ClkScale { raw: 0 },
            words: Words { raw: 0 },
            address: Address { raw: 0 },
            cmd: Command { raw: 0 },
            status: Status { raw: 0 },
            state: State { raw: 0 },
            tx_count: DataCount { raw: 0 },
            rx_count: DataCount { raw: 0 },
            irq_enb: InterruptControl { raw: 0 },
            irq_raw: InterruptStatus { raw: 0 },
            irq_status: InterruptStatus { raw: 0 },
            irq_clear: InterruptClear { raw: 0 },
            rx_fifo_trigger: TriggerLevel { raw: 0 },
            tx_fifo_trigger: TriggerLevel { raw: 0 },
            fifo_clear: FifoClear { raw: 0 },
            timing_config: TimingConfig { raw: 0 },
            clk_timeout_limit: ClkTimeoutLimit { raw: 0 },
            slave: slave::I2cSlave::spec_reset_state(),
            perid: I2C_PERID,
        }
    }

    /// The registers of the peripheral `bank` as they are after a reset.
    pub fn new_mmio(bank: Bank) -> (i2c: I2c)
        ensures
            i2c == Self::spec_reset_state(bank.spec_base_address()),
    {
        I2c {
            base: bank.base_address(),
            control: Control { raw: 0 },
            clkscale: ClkScale { raw: 0 },
            words: Words { raw: 0 },
            address: Address { raw: 0 },
            cmd: Command { raw: 0 },
            status: Status { raw: 0 },
            state: State { raw: 0 },
            tx_count: DataCount { raw: 0 },
            rx_count: DataCount { raw: 0 },
            irq_enb: InterruptControl { raw: 0 },
            irq_raw: InterruptStatus { raw: 0 },
            irq_status: InterruptStatus { raw: 0 },
            irq_clear: InterruptClear { raw: 0 },
            rx_fifo_trigger: TriggerLevel { raw: 0 },
            tx_fifo_trigger: TriggerLevel { raw: 0 },
            fifo_clear: FifoClear { raw: 0 },
            timing_config: TimingConfig { raw: 0 },
            clk_timeout_limit: ClkTimeoutLimit { raw: 0 },
            slave: slave::I2cSlave::new(),
            perid: I2C_PERID,
        }
    }
}

} // verus!
