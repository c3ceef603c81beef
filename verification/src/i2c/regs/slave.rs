//! The registers of the slave side of an I2C peripheral.
use crate::bits::{
    get_bit, get_field, lemma_bit_and_field, lemma_field_bound, lemma_set_bit_get_bit,
    lemma_set_field_get_field, lemma_set_field_keeps_field, set_bit, set_field, spec_get_bit,
    spec_get_field, spec_set_bit, spec_set_field,
};
use super::{Data, DataCount, FifoClear, RxFifoFullMode, TriggerLevel, TxFifoEmptyMode};
use vstd::prelude::*;

verus! {

/// The control register of an I2C slave.
#[derive(Debug, Clone, Copy, PartialEq, Eq, Structural)]
pub struct Control {
    pub raw: u32,
}

impl Control {
    /// The register value with the bits `raw`.
    #[verifier::allow_in_spec]
    pub fn new_with_raw_value(raw: u32) -> Control
        returns
            (Control { raw }),
    {
        Control { raw }
    }

    /// The bits of the register value.
    #[verifier::allow_in_spec]
    pub fn raw_value(&self) -> u32
        returns
            self.raw,
    {
        self.raw
    }

    /// Bit 0 of the register.
    #[verifier::allow_in_spec]
    pub fn clk_enabled(&self) -> bool
        returns
            spec_get_bit(self.raw, 0),
    {
        get_bit(self.raw, 0)
    }

    /// The same value with `clk_enabled` replaced by `v`.
    #[verifier::allow_in_spec]
    pub fn with_clk_enabled(self, v: bool) -> Control
        returns
            (Control { raw: spec_set_bit(self.raw, 0, v) }),
    {
        Control { raw: set_bit(self.raw, 0, v) }
    }

    /// Bit 1 of the register.
    #[verifier::allow_in_spec]
    pub fn enabled(&self) -> bool
        returns
            spec_get_bit(self.raw, 1),
    {
        get_bit(self.raw, 1)
    }

    /// The same value with `enabled` replaced by `v`.
    #[verifier::allow_in_spec]
    pub fn with_enabled(self, v: bool) -> Control
        returns
            (Control { raw: spec_set_bit(self.raw, 1, v) }),
    {
        Control { raw: set_bit(self.raw, 1, v) }
    }

    /// Bit 2 of the register.
    #[verifier::allow_in_spec]
    pub fn enable(&self) -> bool
        returns
            spec_get_bit(self.raw, 2),
    {
        get_bit(self.raw, 2)
    }

    /// The same value with `enable` replaced by `v`.
    #[verifier::allow_in_spec]
    pub fn with_enable(self, v: bool) -> Control
        returns
            (Control { raw: spec_set_bit(self.raw, 2, v) }),
    {
        Control { raw: set_bit(self.raw, 2, v) }
    }

    /// Bits 3 to 3 of the register.
    #[verifier::allow_in_spec]
    pub fn tx_fifo_empty_mode(&self) -> TxFifoEmptyMode
        returns
            (TxFifoEmptyMode::from_bits(spec_get_field(self.raw, 3, 1))),
    {
        TxFifoEmptyMode::from_bits(get_field(self.raw, 3, 1))
    }

    /// The same value with `tx_fifo_empty_mode` replaced by `v`.
    #[verifier::allow_in_spec]
    pub fn with_tx_fifo_empty_mode(self, v: TxFifoEmptyMode) -> Control
        returns
            (Control { raw: spec_set_field(self.raw, 3, 1, v.raw_value()) }),
    {
        Control { raw: set_field(self.raw, 3, 1, v.raw_value()) }
    }

    /// Bits 4 to 4 of the register.
    #[verifier::allow_in_spec]
    pub fn rx_fifo_full_mode(&self) -> RxFifoFullMode
        returns
            (RxFifoFullMode::from_bits(spec_get_field(self.raw, 4, 1))),
    {
        RxFifoFullMode::from_bits(get_field(self.raw, 4, 1))
    }

    /// The same value with `rx_fifo_full_mode` replaced by `v`.
    #[verifier::allow_in_spec]
    pub fn with_rx_fifo_full_mode(self, v: RxFifoFullMode) -> Control
        returns
            (Control { raw: spec_set_field(self.raw, 4, 1, v.raw_value()) }),
    {
        Control { raw: set_field(self.raw, 4, 1, v.raw_value()) }
    }

    /// After `clk_enabled` is set, it reads as what was set and every other field as before.
    pub proof fn lemma_with_clk_enabled(self, v: bool)
        ensures
            self.with_clk_enabled(v).clk_enabled() == v,
            self.with_clk_enabled(v).enabled() == self.enabled(),
            self.with_clk_enabled(v).enable() == self.enable(),
            self.with_clk_enabled(v).tx_fifo_empty_mode() == self.tx_fifo_empty_mode(),
            self.with_clk_enabled(v).rx_fifo_full_mode() == self.rx_fifo_full_mode(),
    {
        lemma_set_bit_get_bit(self.raw, 0, v, 0);
        lemma_set_bit_get_bit(self.raw, 0, v, 1);
        lemma_set_bit_get_bit(self.raw, 0, v, 2);
        lemma_bit_and_field(self.raw, 0, v, 3, 1, 0);
        lemma_bit_and_field(self.raw, 0, v, 4, 1, 0);
    }

    /// After `enabled` is set, it reads as what was set and every other field as before.
    pub proof fn lemma_with_enabled(self, v: bool)
        ensures
            self.with_enabled(v).clk_enabled() == self.clk_enabled(),
            self.with_enabled(v).enabled() == v,
            self.with_enabled(v).enable() == self.enable(),
            self.with_enabled(v).tx_fifo_empty_mode() == self.tx_fifo_empty_mode(),
            self.with_enabled(v).rx_fifo_full_mode() == self.rx_fifo_full_mode(),
    {
        lemma_set_bit_get_bit(self.raw, 1, v, 0);
        lemma_set_bit_get_bit(self.raw, 1, v, 1);
        lemma_set_bit_get_bit(self.raw, 1, v, 2);
        lemma_bit_and_field(self.raw, 1, v, 3, 1, 0);
        lemma_bit_and_field(self.raw, 1, v, 4, 1, 0);
    }

    /// After `enable` is set, it reads as what was set and every other field as before.
    pub proof fn lemma_with_enable(self, v: bool)
        ensures
            self.with_enable(v).clk_enabled() == self.clk_enabled(),
            self.with_enable(v).enabled() == self.enabled(),
            self.with_enable(v).enable() == v,
            self.with_enable(v).tx_fifo_empty_mode() == self.tx_fifo_empty_mode(),
            self.with_enable(v).rx_fifo_full_mode() == self.rx_fifo_full_mode(),
    {
        lemma_set_bit_get_bit(self.raw, 2, v, 0);
        lemma_set_bit_get_bit(self.raw, 2, v, 1);
        lemma_set_bit_get_bit(self.raw, 2, v, 2);
        lemma_bit_and_field(self.raw, 2, v, 3, 1, 0);
        lemma_bit_and_field(self.raw, 2, v, 4, 1, 0);
    }

    /// After `tx_fifo_empty_mode` is set, it reads as what was set and every other field as before.
    pub proof fn lemma_with_tx_fifo_empty_mode(self, v: TxFifoEmptyMode)
        ensures
            self.with_tx_fifo_empty_mode(v).clk_enabled() == self.clk_enabled(),
            self.with_tx_fifo_empty_mode(v).enabled() == self.enabled(),
            self.with_tx_fifo_empty_mode(v).enable() == self.enable(),
            self.with_tx_fifo_empty_mode(v).tx_fifo_empty_mode() == v,
            self.with_tx_fifo_empty_mode(v).rx_fifo_full_mode() == self.rx_fifo_full_mode(),
    {
        v.lemma_round_trip();
        lemma_field_bound(self.raw, 3, 1);
        lemma_bit_and_field(self.raw, 0, true, 3, 1, v.raw_value());
        lemma_bit_and_field(self.raw, 1, true, 3, 1, v.raw_value());
        lemma_bit_and_field(self.raw, 2, true, 3, 1, v.raw_value());
        lemma_set_field_get_field(self.raw, 3, 1, v.raw_value());
        lemma_set_field_keeps_field(self.raw, 3, 1, v.raw_value(), 4, 1);
    }

    /// After `rx_fifo_full_mode` is set, it reads as what was set and every other field as before.
    pub proof fn lemma_with_rx_fifo_full_mode(self, v: RxFifoFullMode)
        ensures
            self.with_rx_fifo_full_mode(v).clk_enabled() == self.clk_enabled(),
            self.with_rx_fifo_full_mode(v).enabled() == self.enabled(),
            self.with_rx_fifo_full_mode(v).enable() == self.enable(),
            self.with_rx_fifo_full_mode(v).tx_fifo_empty_mode() == self.tx_fifo_empty_mode(),
            self.with_rx_fifo_full_mode(v).rx_fifo_full_mode() == v,
    {
        v.lemma_round_trip();
        lemma_field_bound(self.raw, 4, 1);
        lemma_bit_and_field(self.raw, 0, true, 4, 1, v.raw_value());
        lemma_bit_and_field(self.raw, 1, true, 4, 1, v.raw_value());
        lemma_bit_and_field(self.raw, 2, true, 4, 1, v.raw_value());
        lemma_set_field_keeps_field(self.raw, 4, 1, v.raw_value(), 3, 1);
        lemma_set_field_get_field(self.raw, 4, 1, v.raw_value());
    }
}

/// The register of an I2C slave for the largest number of words of a transfer.
#[derive(Debug, Clone, Copy, PartialEq, Eq, Structural)]
pub struct Maxwords {
    pub raw: u32,
}

impl Maxwords {
    /// The register value with the bits `raw`.
    #[verifier::allow_in_spec]
    pub fn new_with_raw_value(raw: u32) -> Maxwords
        returns
            (Maxwords { raw }),
    {
        Maxwords { raw }
    }

    /// The bits of the register value.
    #[verifier::allow_in_spec]
    pub fn raw_value(&self) -> u32
        returns
            self.raw,
    {
        self.raw
    }

    /// Bits 0 to 10 of the register.
    #[verifier::allow_in_spec]
    pub fn maxwords(&self) -> u16
        returns
            spec_get_field(self.raw, 0, 11) as u16,
    {
        proof {
            lemma_field_bound(self.raw, 0, 11);
        }
        get_field(self.raw, 0, 11) as u16
    }

    /// The same value with `maxwords` replaced by `v`.
    #[verifier::allow_in_spec]
    pub fn with_maxwords(self, v: u16) -> Maxwords
        returns
            (Maxwords { raw: spec_set_field(self.raw, 0, 11, v as u32) }),
    {
        Maxwords { raw: set_field(self.raw, 0, 11, v as u32) }
    }

    /// Bit 31 of the register.
    #[verifier::allow_in_spec]
    pub fn enable(&self) -> bool
        returns
            spec_get_bit(self.raw, 31),
    {
        get_bit(self.raw, 31)
    }

    /// The same value with `enable` replaced by `v`.
    #[verifier::allow_in_spec]
    pub fn with_enable(self, v: bool) -> Maxwords
        returns
            (Maxwords { raw: spec_set_bit(self.raw, 31, v) }),
    {
        Maxwords { raw: set_bit(self.raw, 31, v) }
    }

    /// After `maxwords` is set, it reads as what was set and every other field as before.
    pub proof fn lemma_with_maxwords(self, v: u16)
        requires
            v < 2048,
        ensures
            self.with_maxwords(v).maxwords() == v,
            self.with_maxwords(v).enable() == self.enable(),
    {
        lemma_field_bound(self.raw, 0, 11);
        lemma_set_field_get_field(self.raw, 0, 11, v as u32);
        lemma_bit_and_field(self.raw, 31, true, 0, 11, v as u32);
    }

    /// After `enable` is set, it reads as what was set and every other field as before.
    pub proof fn lemma_with_enable(self, v: bool)
        ensures
            self.with_enable(v).maxwords() == self.maxwords(),
            self.with_enable(v).enable() == v,
    {
        lemma_bit_and_field(self.raw, 31, v, 0, 11, 0);
        lemma_set_bit_get_bit(self.raw, 31, v, 31);
    }
}

/// An address register of an I2C slave.
#[derive(Debug, Clone, Copy, PartialEq, Eq, Structural)]
pub struct Address {
    pub raw: u32,
}

impl Address {
    /// The register value with the bits `raw`.
    #[verifier::allow_in_spec]
    pub fn new_with_raw_value(raw: u32) -> Address
        returns
            (Address { raw }),
    {
        Address { raw }
    }

    /// The bits of the register value.
    #[verifier::allow_in_spec]
    pub fn raw_value(&self) -> u32
        returns
            self.raw,
    {
        self.raw
    }

    /// Bit 0 of the register.
    #[verifier::allow_in_spec]
    pub fn rw(&self) -> bool
        returns
            spec_get_bit(self.raw, 0),
    {
        get_bit(self.raw, 0)
    }

    /// The same value with `rw` replaced by `v`.
    #[verifier::allow_in_spec]
    pub fn with_rw(self, v: bool) -> Address
        returns
            (Address { raw: spec_set_bit(self.raw, 0, v) }),
    {
        Address { raw: set_bit(self.raw, 0, v) }
    }

    /// Bits 1 to 10 of the register.
    #[verifier::allow_in_spec]
    pub fn address(&self) -> u16
        returns
            spec_get_field(self.raw, 1, 10) as u16,
    {
        proof {
            lemma_field_bound(self.raw, 1, 10);
        }
        get_field(self.raw, 1, 10) as u16
    }

    /// The same value with `address` replaced by `v`.
    #[verifier::allow_in_spec]
    pub fn with_address(self, v: u16) -> Address
        returns
            (Address { raw: spec_set_field(self.raw, 1, 10, v as u32) }),
    {
        Address { raw: set_field(self.raw, 1, 10, v as u32) }
    }

    /// Bit 15 of the register.
    #[verifier::allow_in_spec]
    pub fn a10_mode(&self) -> bool
        returns
            spec_get_bit(self.raw, 15),
    {
        get_bit(self.raw, 15)
    }

    /// The same value with `a10_mode` replaced by `v`.
    #[verifier::allow_in_spec]
    pub fn with_a10_mode(self, v: bool) -> Address
        returns
            (Address { raw: spec_set_bit(self.raw, 15, v) }),
    {
        Address { raw: set_bit(self.raw, 15, v) }
    }

    /// After `rw` is set, it reads as what was set and every other field as before.
    pub proof fn lemma_with_rw(self, v: bool)
        ensures
            self.with_rw(v).rw() == v,
            self.with_rw(v).address() == self.address(),
            self.with_rw(v).a10_mode() == self.a10_mode(),
    {
        lemma_set_bit_get_bit(self.raw, 0, v, 0);
        lemma_bit_and_field(self.raw, 0, v, 1, 10, 0);
        lemma_set_bit_get_bit(self.raw, 0, v, 15);
    }

    /// After `address` is set, it reads as what was set and every other field as before.
    pub proof fn lemma_with_address(self, v: u16)
        requires
            v < 1024,
        ensures
            self.with_address(v).rw() == self.rw(),
            self.with_address(v).address() == v,
            self.with_address(v).a10_mode() == self.a10_mode(),
    {
        lemma_field_bound(self.raw, 1, 10);
        lemma_bit_and_field(self.raw, 0, true, 1, 10, v as u32);
        lemma_set_field_get_field(self.raw, 1, 10, v as u32);
        lemma_bit_and_field(self.raw, 15, true, 1, 10, v as u32);
    }

    /// After `a10_mode` is set, it reads as what was set and every other field as before.
    pub proof fn lemma_with_a10_mode(self, v: bool)
        ensures
            self.with_a10_mode(v).rw() == self.rw(),
            self.with_a10_mode(v).address() == self.address(),
            self.with_a10_mode(v).a10_mode() == v,
    {
        lemma_set_bit_get_bit(self.raw, 15, v, 0);
        lemma_bit_and_field(self.raw, 15, v, 1, 10, 0);
        lemma_set_bit_get_bit(self.raw, 15, v, 15);
    }
}

/// An address mask register of an I2C slave.
#[derive(Debug, Clone, Copy, PartialEq, Eq, Structural)]
pub struct AddressMask {
    pub raw: u32,
}

impl AddressMask {
    /// The register value with the bits `raw`.
    #[verifier::allow_in_spec]
    pub fn new_with_raw_value(raw: u32) -> AddressMask
        returns
            (AddressMask { raw }),
    {
        AddressMask { raw }
    }

    /// The bits of the register value.
    #[verifier::allow_in_spec]
    pub fn raw_value(&self) -> u32
        returns
            self.raw,
    {
        self.raw
    }

    /// Bit 0 of the register.
    #[verifier::allow_in_spec]
    pub fn rw_mask(&self) -> bool
        returns
            spec_get_bit(self.raw, 0),
    {
        get_bit(self.raw, 0)
    }

    /// The same value with `rw_mask` replaced by `v`.
    #[verifier::allow_in_spec]
    pub fn with_rw_mask(self, v: bool) -> AddressMask
        returns
            (AddressMask { raw: spec_set_bit(self.raw, 0, v) }),
    {
        AddressMask { raw: set_bit(self.raw, 0, v) }
    }

    /// Bits 1 to 10 of the register.
    #[verifier::allow_in_spec]
    pub fn mask(&self) -> u16
        returns
            spec_get_field(self.raw, 1, 10) as u16,
    {
        proof {
            lemma_field_bound(self.raw, 1, 10);
        }
        get_field(self.raw, 1, 10) as u16
    }

    /// The same value with `mask` replaced by `v`.
    #[verifier::allow_in_spec]
    pub fn with_mask(self, v: u16) -> AddressMask
        returns
            (AddressMask { raw: spec_set_field(self.raw, 1, 10, v as u32) }),
    {
        AddressMask { raw: set_field(self.raw, 1, 10, v as u32) }
    }

    /// After `rw_mask` is set, it reads as what was set and every other field as before.
    pub proof fn lemma_with_rw_mask(self, v: bool)
        ensures
            self.with_rw_mask(v).rw_mask() == v,
            self.with_rw_mask(v).mask() == self.mask(),
    {
        lemma_set_bit_get_bit(self.raw, 0, v, 0);
        lemma_bit_and_field(self.raw, 0, v, 1, 10, 0);
    }

    /// After `mask` is set, it reads as what was set and every other field as before.
    pub proof fn lemma_with_mask(self, v: u16)
        requires
            v < 1024,
        ensures
            self.with_mask(v).rw_mask() == self.rw_mask(),
            self.with_mask(v).mask() == v,
    {
        lemma_field_bound(self.raw, 1, 10);
        lemma_bit_and_field(self.raw, 0, true, 1, 10, v as u32);
        lemma_set_field_get_field(self.raw, 1, 10, v as u32);
    }
}

/// The direction of a transfer, as the slave sees it.
#[derive(Debug, Clone, Copy, PartialEq, Eq, Structural)]
pub enum Direction {
    MasterSend,
    MasterReceive,
}

impl Direction {
    /// The bits that stand for the variant in a register.
    #[verifier::allow_in_spec]
    pub fn raw_value(self) -> u32
        returns
            (match self {
                Direction::MasterSend => 0u32,
                Direction::MasterReceive => 1u32,
            }),
    {
        match self {
            Direction::MasterSend => 0,
            Direction::MasterReceive => 1,
        }
    }

    /// The variant that the bits `raw` stand for. Of `raw`, the low bit count.
    #[verifier::allow_in_spec]
    pub fn from_bits(raw: u32) -> Direction
        returns
            (if raw == 0 {
                Direction::MasterSend
            } else {
                Direction::MasterReceive
            }),
    {
        if raw == 0 {
            Direction::MasterSend
        } else {
            Direction::MasterReceive
        }
    }

    /// Each variant is found again from its bits, which fit in the field.
    pub proof fn lemma_round_trip(self)
        ensures
            Direction::from_bits(self.raw_value()) == self,
            self.raw_value() < 2,
    {
    }
}

impl Default for Direction {
    fn default() -> (value: Direction)
        ensures
            value == Direction::MasterSend,
    {
        Direction::MasterSend
    }
}

/// The register of an I2C slave for the address that was last seen.
#[derive(Debug, Clone, Copy, PartialEq, Eq, Structural)]
pub struct LastAddress {
    pub raw: u32,
}

impl LastAddress {
    /// The register value with the bits `raw`.
    #[verifier::allow_in_spec]
    pub fn new_with_raw_value(raw: u32) -> LastAddress
        returns
            (LastAddress { raw }),
    {
        LastAddress { raw }
    }

    /// The bits of the register value.
    #[verifier::allow_in_spec]
    pub fn raw_value(&self) -> u32
        returns
            self.raw,
    {
        self.raw
    }

    /// Bits 0 to 0 of the register.
    #[verifier::allow_in_spec]
    pub fn direction(&self) -> Direction
        returns
            (Direction::from_bits(spec_get_field(self.raw, 0, 1))),
    {
        Direction::from_bits(get_field(self.raw, 0, 1))
    }

    /// The same value with `direction` replaced by `v`.
    #[verifier::allow_in_spec]
    pub fn with_direction(self, v: Direction) -> LastAddress
        returns
            (LastAddress { raw: spec_set_field(self.raw, 0, 1, v.raw_value()) }),
    {
        LastAddress { raw: set_field(self.raw, 0, 1, v.raw_value()) }
    }

    /// Bits 1 to 10 of the register.
    #[verifier::allow_in_spec]
    pub fn address(&self) -> u16
        returns
            spec_get_field(self.raw, 1, 10) as u16,
    {
        proof {
            lemma_field_bound(self.raw, 1, 10);
        }
        get_field(self.raw, 1, 10) as u16
    }

    /// The same value with `address` replaced by `v`.
    #[verifier::allow_in_spec]
    pub fn with_address(self, v: u16) -> LastAddress
        returns
            (LastAddress { raw: spec_set_field(self.raw, 1, 10, v as u32) }),
    {
        LastAddress { raw: set_field(self.raw, 1, 10, v as u32) }
    }

    /// After `direction` is set, it reads as what was set and every other field as before.
    pub proof fn lemma_with_direction(self, v: Direction)
        ensures
            self.with_direction(v).direction() == v,
            self.with_direction(v).address() == self.address(),
    {
        v.lemma_round_trip();
        lemma_field_bound(self.raw, 0, 1);
        lemma_set_field_get_field(self.raw, 0, 1, v.raw_value());
        lemma_set_field_keeps_field(self.raw, 0, 1, v.raw_value(), 1, 10);
    }

    /// After `address` is set, it reads as what was set and every other field as before.
    pub proof fn lemma_with_address(self, v: u16)
        requires
            v < 1024,
        ensures
            self.with_address(v).direction() == self.direction(),
            self.with_address(v).address() == v,
    {
        lemma_field_bound(self.raw, 1, 10);
        lemma_set_field_keeps_field(self.raw, 1, 10, v as u32, 0, 1);
        lemma_set_field_get_field(self.raw, 1, 10, v as u32);
    }
}

/// The status register of an I2C slave.
#[derive(Debug, Clone, Copy, PartialEq, Eq, Structural)]
pub struct Status {
    pub raw: u32,
}

impl Status {
    /// The register value with the bits `raw`.
    #[verifier::allow_in_spec]
    pub fn new_with_raw_value(raw: u32) -> Status
        returns
            (Status { raw }),
    {
        Status { raw }
    }

    /// The bits of the register value.
    #[verifier::allow_in_spec]
    pub fn raw_value(&self) -> u32
        returns
            self.raw,
    {
        self.raw
    }

    /// Bit 0 of the register.
    #[verifier::allow_in_spec]
    pub fn completed(&self) -> bool
        returns
            spec_get_bit(self.raw, 0),
    {
        get_bit(self.raw, 0)
    }

    /// The same value with `completed` replaced by `v`.
    #[verifier::allow_in_spec]
    pub fn with_completed(self, v: bool) -> Status
        returns
            (Status { raw: spec_set_bit(self.raw, 0, v) }),
    {
        Status { raw: set_bit(self.raw, 0, v) }
    }

    /// Bit 1 of the register.
    #[verifier::allow_in_spec]
    pub fn idle(&self) -> bool
        returns
            spec_get_bit(self.raw, 1),
    {
        get_bit(self.raw, 1)
    }

    /// The same value with `idle` replaced by `v`.
    #[verifier::allow_in_spec]
    pub fn with_idle(self, v: bool) -> Status
        returns
            (Status { raw: spec_set_bit(self.raw, 1, v) }),
    {
        Status { raw: set_bit(self.raw, 1, v) }
    }

    /// Bit 2 of the register.
    #[verifier::allow_in_spec]
    pub fn waiting(&self) -> bool
        returns
            spec_get_bit(self.raw, 2),
    {
        get_bit(self.raw, 2)
    }

    /// The same value with `waiting` replaced by `v`.
    #[verifier::allow_in_spec]
    pub fn with_waiting(self, v: bool) -> Status
        returns
            (Status { raw: spec_set_bit(self.raw, 2, v) }),
    {
        Status { raw: set_bit(self.raw, 2, v) }
    }

    /// Bit 3 of the register.
    #[verifier::allow_in_spec]
    pub fn tx_stalled(&self) -> bool
        returns
            spec_get_bit(self.raw, 3),
    {
        get_bit(self.raw, 3)
    }

    /// The same value with `tx_stalled` replaced by `v`.
    #[verifier::allow_in_spec]
    pub fn with_tx_stalled(self, v: bool) -> Status
        returns
            (Status { raw: spec_set_bit(self.raw, 3, v) }),
    {
        Status { raw: set_bit(self.raw, 3, v) }
    }

    /// Bit 4 of the register.
    #[verifier::allow_in_spec]
    pub fn rx_stalled(&self) -> bool
        returns
            spec_get_bit(self.raw, 4),
    {
        get_bit(self.raw, 4)
    }

    /// The same value with `rx_stalled` replaced by `v`.
    #[verifier::allow_in_spec]
    pub fn with_rx_stalled(self, v: bool) -> Status
        returns
            (Status { raw: spec_set_bit(self.raw, 4, v) }),
    {
        Status { raw: set_bit(self.raw, 4, v) }
    }

    /// Bit 5 of the register.
    #[verifier::allow_in_spec]
    pub fn address_match(&self) -> bool
        returns
            spec_get_bit(self.raw, 5),
    {
        get_bit(self.raw, 5)
    }

    /// The same value with `address_match` replaced by `v`.
    #[verifier::allow_in_spec]
    pub fn with_address_match(self, v: bool) -> Status
        returns
            (Status { raw: spec_set_bit(self.raw, 5, v) }),
    {
        Status { raw: set_bit(self.raw, 5, v) }
    }

    /// Bit 6 of the register.
    #[verifier::allow_in_spec]
    pub fn nack_data(&self) -> bool
        returns
            spec_get_bit(self.raw, 6),
    {
        get_bit(self.raw, 6)
    }

    /// The same value with `nack_data` replaced by `v`.
    #[verifier::allow_in_spec]
    pub fn with_nack_data(self, v: bool) -> Status
        returns
            (Status { raw: spec_set_bit(self.raw, 6, v) }),
    {
        Status { raw: set_bit(self.raw, 6, v) }
    }

    /// Bit 7 of the register.
    #[verifier::allow_in_spec]
    pub fn rx_data_first(&self) -> bool
        returns
            spec_get_bit(self.raw, 7),
    {
        get_bit(self.raw, 7)
    }

    /// The same value with `rx_data_first` replaced by `v`.
    #[verifier::allow_in_spec]
    pub fn with_rx_data_first(self, v: bool) -> Status
        returns
            (Status { raw: spec_set_bit(self.raw, 7, v) }),
    {
        Status { raw: set_bit(self.raw, 7, v) }
    }

    /// Bit 8 of the register.
    #[verifier::allow_in_spec]
    pub fn rx_not_empty(&self) -> bool
        returns
            spec_get_bit(self.raw, 8),
    {
        get_bit(self.raw, 8)
    }

    /// The same value with `rx_not_empty` replaced by `v`.
    #[verifier::allow_in_spec]
    pub fn with_rx_not_empty(self, v: bool) -> Status
        returns
            (Status { raw: spec_set_bit(self.raw, 8, v) }),
    {
        Status { raw: set_bit(self.raw, 8, v) }
    }

    /// Bit 9 of the register.
    #[verifier::allow_in_spec]
    pub fn rx_full(&self) -> bool
        returns
            spec_get_bit(self.raw, 9),
    {
        get_bit(self.raw, 9)
    }

    /// The same value with `rx_full` replaced by `v`.
    #[verifier::allow_in_spec]
    pub fn with_rx_full(self, v: bool) -> Status
        returns
            (Status { raw: spec_set_bit(self.raw, 9, v) }),
    {
        Status { raw: set_bit(self.raw, 9, v) }
    }

    /// Bit 11 of the register.
    #[verifier::allow_in_spec]
    pub fn rx_trigger(&self) -> bool
        returns
            spec_get_bit(self.raw, 11),
    {
        get_bit(self.raw, 11)
    }

    /// The same value with `rx_trigger` replaced by `v`.
    #[verifier::allow_in_spec]
    pub fn with_rx_trigger(self, v: bool) -> Status
        returns
            (Status { raw: spec_set_bit(self.raw, 11, v) }),
    {
        Status { raw: set_bit(self.raw, 11, v) }
    }

    /// Bit 12 of the register.
    #[verifier::allow_in_spec]
    pub fn tx_empty(&self) -> bool
        returns
            spec_get_bit(self.raw, 12),
    {
        get_bit(self.raw, 12)
    }

    /// The same value with `tx_empty` replaced by `v`.
    #[verifier::allow_in_spec]
    pub fn with_tx_empty(self, v: bool) -> Status
        returns
            (Status { raw: spec_set_bit(self.raw, 12, v) }),
    {
        Status { raw: set_bit(self.raw, 12, v) }
    }

    /// Bit 13 of the register.
    #[verifier::allow_in_spec]
    pub fn tx_not_full(&self) -> bool
        returns
            spec_get_bit(self.raw, 13),
    {
        get_bit(self.raw, 13)
    }

    /// The same value with `tx_not_full` replaced by `v`.
    #[verifier::allow_in_spec]
    pub fn with_tx_not_full(self, v: bool) -> Status
        returns
            (Status { raw: spec_set_bit(self.raw, 13, v) }),
    {
        Status { raw: set_bit(self.raw, 13, v) }
    }

    /// Bit 15 of the register.
    #[verifier::allow_in_spec]
    pub fn tx_trigger(&self) -> bool
        returns
            spec_get_bit(self.raw, 15),
    {
        get_bit(self.raw, 15)
    }

    /// The same value with `tx_trigger` replaced by `v`.
    #[verifier::allow_in_spec]
    pub fn with_tx_trigger(self, v: bool) -> Status
        returns
            (Status { raw: spec_set_bit(self.raw, 15, v) }),
    {
        Status { raw: set_bit(self.raw, 15, v) }
    }

    /// Bit 28 of the register.
    #[verifier::allow_in_spec]
    pub fn raw_busy(&self) -> bool
        returns
            spec_get_bit(self.raw, 28),
    {
        get_bit(self.raw, 28)
    }

    /// The same value with `raw_busy` replaced by `v`.
    #[verifier::allow_in_spec]
    pub fn with_raw_busy(self, v: bool) -> Status
        returns
            (Status { raw: spec_set_bit(self.raw, 28, v) }),
    {
        Status { raw: set_bit(self.raw, 28, v) }
    }

    /// Bit 30 of the register.
    #[verifier::allow_in_spec]
    pub fn raw_sda(&self) -> bool
        returns
            spec_get_bit(self.raw, 30),
    {
        get_bit(self.raw, 30)
    }

    /// The same value with `raw_sda` replaced by `v`.
    #[verifier::allow_in_spec]
    pub fn with_raw_sda(self, v: bool) -> Status
        returns
            (Status { raw: spec_set_bit(self.raw, 30, v) }),
    {
        Status { raw: set_bit(self.raw, 30, v) }
    }

    /// Bit 31 of the register.
    #[verifier::allow_in_spec]
    pub fn raw_scl(&self) -> bool
        returns
            spec_get_bit(self.raw, 31),
    {
        get_bit(self.raw, 31)
    }

    /// The same value with `raw_scl` replaced by `v`.
    #[verifier::allow_in_spec]
    pub fn with_raw_scl(self, v: bool) -> Status
        returns
            (Status { raw: spec_set_bit(self.raw, 31, v) }),
    {
        Status { raw: set_bit(self.raw, 31, v) }
    }

    /// After `completed` is set, it reads as what was set and every other field as before.
    pub proof fn lemma_with_completed(self, v: bool)
        ensures
            self.with_completed(v).completed() == v,
            self.with_completed(v).idle() == self.idle(),
            self.with_completed(v).waiting() == self.waiting(),
            self.with_completed(v).tx_stalled() == self.tx_stalled(),
            self.with_completed(v).rx_stalled() == self.rx_stalled(),
            self.with_completed(v).address_match() == self.address_match(),
            self.with_completed(v).nack_data() == self.nack_data(),
            self.with_completed(v).rx_data_first() == self.rx_data_first(),
            self.with_completed(v).rx_not_empty() == self.rx_not_empty(),
            self.with_completed(v).rx_full() == self.rx_full(),
            self.with_completed(v).rx_trigger() == self.rx_trigger(),
            self.with_completed(v).tx_empty() == self.tx_empty(),
            self.with_completed(v).tx_not_full() == self.tx_not_full(),
            self.with_completed(v).tx_trigger() == self.tx_trigger(),
            self.with_completed(v).raw_busy() == self.raw_busy(),
            self.with_completed(v).raw_sda() == self.raw_sda(),
            self.with_completed(v).raw_scl() == self.raw_scl(),
    {
        lemma_set_bit_get_bit(self.raw, 0, v, 0);
        lemma_set_bit_get_bit(self.raw, 0, v, 1);
        lemma_set_bit_get_bit(self.raw, 0, v, 2);
        lemma_set_bit_get_bit(self.raw, 0, v, 3);
        lemma_set_bit_get_bit(self.raw, 0, v, 4);
        lemma_set_bit_get_bit(self.raw, 0, v, 5);
        lemma_set_bit_get_bit(self.raw, 0, v, 6);
        lemma_set_bit_get_bit(self.raw, 0, v, 7);
        lemma_set_bit_get_bit(self.raw, 0, v, 8);
        lemma_set_bit_get_bit(self.raw, 0, v, 9);
        lemma_set_bit_get_bit(self.raw, 0, v, 11);
        lemma_set_bit_get_bit(self.raw, 0, v, 12);
        lemma_set_bit_get_bit(self.raw, 0, v, 13);
        lemma_set_bit_get_bit(self.raw, 0, v, 15);
        lemma_set_bit_get_bit(self.raw, 0, v, 28);
        lemma_set_bit_get_bit(self.raw, 0, v, 30);
        lemma_set_bit_get_bit(self.raw, 0, v, 31);
    }

    /// After `idle` is set, it reads as what was set and every other field as before.
    pub proof fn lemma_with_idle(self, v: bool)
        ensures
            self.with_idle(v).completed() == self.completed(),
            self.with_idle(v).idle() == v,
            self.with_idle(v).waiting() == self.waiting(),
            self.with_idle(v).tx_stalled() == self.tx_stalled(),
            self.with_idle(v).rx_stalled() == self.rx_stalled(),
            self.with_idle(v).address_match() == self.address_match(),
            self.with_idle(v).nack_data() == self.nack_data(),
            self.with_idle(v).rx_data_first() == self.rx_data_first(),
            self.with_idle(v).rx_not_empty() == self.rx_not_empty(),
            self.with_idle(v).rx_full() == self.rx_full(),
            self.with_idle(v).rx_trigger() == self.rx_trigger(),
            self.with_idle(v).tx_empty() == self.tx_empty(),
            self.with_idle(v).tx_not_full() == self.tx_not_full(),
            self.with_idle(v).tx_trigger() == self.tx_trigger(),
            self.with_idle(v).raw_busy() == self.raw_busy(),
            self.with_idle(v).raw_sda() == self.raw_sda(),
            self.with_idle(v).raw_scl() == self.raw_scl(),
    {
        lemma_set_bit_get_bit(self.raw, 1, v, 0);
        lemma_set_bit_get_bit(self.raw, 1, v, 1);
        lemma_set_bit_get_bit(self.raw, 1, v, 2);
        lemma_set_bit_get_bit(self.raw, 1, v, 3);
        lemma_set_bit_get_bit(self.raw, 1, v, 4);
        lemma_set_bit_get_bit(self.raw, 1, v, 5);
        lemma_set_bit_get_bit(self.raw, 1, v, 6);
        lemma_set_bit_get_bit(self.raw, 1, v, 7);
        lemma_set_bit_get_bit(self.raw, 1, v, 8);
        lemma_set_bit_get_bit(self.raw, 1, v, 9);
        lemma_set_bit_get_bit(self.raw, 1, v, 11);
        lemma_set_bit_get_bit(self.raw, 1, v, 12);
        lemma_set_bit_get_bit(self.raw, 1, v, 13);
        lemma_set_bit_get_bit(self.raw, 1, v, 15);
        lemma_set_bit_get_bit(self.raw, 1, v, 28);
        lemma_set_bit_get_bit(self.raw, 1, v, 30);
        lemma_set_bit_get_bit(self.raw, 1, v, 31);
    }

    /// After `waiting` is set, it reads as what was set and every other field as before.
    pub proof fn lemma_with_waiting(self, v: bool)
        ensures
            self.with_waiting(v).completed() == self.completed(),
            self.with_waiting(v).idle() == self.idle(),
            self.with_waiting(v).waiting() == v,
            self.with_waiting(v).tx_stalled() == self.tx_stalled(),
            self.with_waiting(v).rx_stalled() == self.rx_stalled(),
            self.with_waiting(v).address_match() == self.address_match(),
            self.with_waiting(v).nack_data() == self.nack_data(),
            self.with_waiting(v).rx_data_first() == self.rx_data_first(),
            self.with_waiting(v).rx_not_empty() == self.rx_not_empty(),
            self.with_waiting(v).rx_full() == self.rx_full(),
            self.with_waiting(v).rx_trigger() == self.rx_trigger(),
            self.with_waiting(v).tx_empty() == self.tx_empty(),
            self.with_waiting(v).tx_not_full() == self.tx_not_full(),
            self.with_waiting(v).tx_trigger() == self.tx_trigger(),
            self.with_waiting(v).raw_busy() == self.raw_busy(),
            self.with_waiting(v).raw_sda() == self.raw_sda(),
            self.with_waiting(v).raw_scl() == self.raw_scl(),
    {
        lemma_set_bit_get_bit(self.raw, 2, v, 0);
        lemma_set_bit_get_bit(self.raw, 2, v, 1);
        lemma_set_bit_get_bit(self.raw, 2, v, 2);
        lemma_set_bit_get_bit(self.raw, 2, v, 3);
        lemma_set_bit_get_bit(self.raw, 2, v, 4);
        lemma_set_bit_get_bit(self.raw, 2, v, 5);
        lemma_set_bit_get_bit(self.raw, 2, v, 6);
        lemma_set_bit_get_bit(self.raw, 2, v, 7);
        lemma_set_bit_get_bit(self.raw, 2, v, 8);
        lemma_set_bit_get_bit(self.raw, 2, v, 9);
        lemma_set_bit_get_bit(self.raw, 2, v, 11);
        lemma_set_bit_get_bit(self.raw, 2, v, 12);
        lemma_set_bit_get_bit(self.raw, 2, v, 13);
        lemma_set_bit_get_bit(self.raw, 2, v, 15);
        lemma_set_bit_get_bit(self.raw, 2, v, 28);
        lemma_set_bit_get_bit(self.raw, 2, v, 30);
        lemma_set_bit_get_bit(self.raw, 2, v, 31);
    }

    /// After `tx_stalled` is set, it reads as what was set and every other field as before.
    pub proof fn lemma_with_tx_stalled(self, v: bool)
        ensures
            self.with_tx_stalled(v).completed() == self.completed(),
            self.with_tx_stalled(v).idle() == self.idle(),
            self.with_tx_stalled(v).waiting() == self.waiting(),
            self.with_tx_stalled(v).tx_stalled() == v,
            self.with_tx_stalled(v).rx_stalled() == self.rx_stalled(),
            self.with_tx_stalled(v).address_match() == self.address_match(),
            self.with_tx_stalled(v).nack_data() == self.nack_data(),
            self.with_tx_stalled(v).rx_data_first() == self.rx_data_first(),
            self.with_tx_stalled(v).rx_not_empty() == self.rx_not_empty(),
            self.with_tx_stalled(v).rx_full() == self.rx_full(),
            self.with_tx_stalled(v).rx_trigger() == self.rx_trigger(),
            self.with_tx_stalled(v).tx_empty() == self.tx_empty(),
            self.with_tx_stalled(v).tx_not_full() == self.tx_not_full(),
            self.with_tx_stalled(v).tx_trigger() == self.tx_trigger(),
            self.with_tx_stalled(v).raw_busy() == self.raw_busy(),
            self.with_tx_stalled(v).raw_sda() == self.raw_sda(),
            self.with_tx_stalled(v).raw_scl() == self.raw_scl(),
    {
        lemma_set_bit_get_bit(self.raw, 3, v, 0);
        lemma_set_bit_get_bit(self.raw, 3, v, 1);
        lemma_set_bit_get_bit(self.raw, 3, v, 2);
        lemma_set_bit_get_bit(self.raw, 3, v, 3);
        lemma_set_bit_get_bit(self.raw, 3, v, 4);
        lemma_set_bit_get_bit(self.raw, 3, v, 5);
        lemma_set_bit_get_bit(self.raw, 3, v, 6);
        lemma_set_bit_get_bit(self.raw, 3, v, 7);
        lemma_set_bit_get_bit(self.raw, 3, v, 8);
        lemma_set_bit_get_bit(self.raw, 3, v, 9);
        lemma_set_bit_get_bit(self.raw, 3, v, 11);
        lemma_set_bit_get_bit(self.raw, 3, v, 12);
        lemma_set_bit_get_bit(self.raw, 3, v, 13);
        lemma_set_bit_get_bit(self.raw, 3, v, 15);
        lemma_set_bit_get_bit(self.raw, 3, v, 28);
        lemma_set_bit_get_bit(self.raw, 3, v, 30);
        lemma_set_bit_get_bit(self.raw, 3, v, 31);
    }

    /// After `rx_stalled` is set, it reads as what was set and every other field as before.
    pub proof fn lemma_with_rx_stalled(self, v: bool)
        ensures
            self.with_rx_stalled(v).completed() == self.completed(),
            self.with_rx_stalled(v).idle() == self.idle(),
            self.with_rx_stalled(v).waiting() == self.waiting(),
            self.with_rx_stalled(v).tx_stalled() == self.tx_stalled(),
            self.with_rx_stalled(v).rx_stalled() == v,
            self.with_rx_stalled(v).address_match() == self.address_match(),
            self.with_rx_stalled(v).nack_data() == self.nack_data(),
            self.with_rx_stalled(v).rx_data_first() == self.rx_data_first(),
            self.with_rx_stalled(v).rx_not_empty() == self.rx_not_empty(),
            self.with_rx_stalled(v).rx_full() == self.rx_full(),
            self.with_rx_stalled(v).rx_trigger() == self.rx_trigger(),
            self.with_rx_stalled(v).tx_empty() == self.tx_empty(),
            self.with_rx_stalled(v).tx_not_full() == self.tx_not_full(),
            self.with_rx_stalled(v).tx_trigger() == self.tx_trigger(),
            self.with_rx_stalled(v).raw_busy() == self.raw_busy(),
            self.with_rx_stalled(v).raw_sda() == self.raw_sda(),
            self.with_rx_stalled(v).raw_scl() == self.raw_scl(),
    {
        lemma_set_bit_get_bit(self.raw, 4, v, 0);
        lemma_set_bit_get_bit(self.raw, 4, v, 1);
        lemma_set_bit_get_bit(self.raw, 4, v, 2);
        lemma_set_bit_get_bit(self.raw, 4, v, 3);
        lemma_set_bit_get_bit(self.raw, 4, v, 4);
        lemma_set_bit_get_bit(self.raw, 4, v, 5);
        lemma_set_bit_get_bit(self.raw, 4, v, 6);
        lemma_set_bit_get_bit(self.raw, 4, v, 7);
        lemma_set_bit_get_bit(self.raw, 4, v, 8);
        lemma_set_bit_get_bit(self.raw, 4, v, 9);
        lemma_set_bit_get_bit(self.raw, 4, v, 11);
        lemma_set_bit_get_bit(self.raw, 4, v, 12);
        lemma_set_bit_get_bit(self.raw, 4, v, 13);
        lemma_set_bit_get_bit(self.raw, 4, v, 15);
        lemma_set_bit_get_bit(self.raw, 4, v, 28);
        lemma_set_bit_get_bit(self.raw, 4, v, 30);
        lemma_set_bit_get_bit(self.raw, 4, v, 31);
    }

    /// After `address_match` is set, it reads as what was set and every other field as before.
    pub proof fn lemma_with_address_match(self, v: bool)
        ensures
            self.with_address_match(v).completed() == self.completed(),
            self.with_address_match(v).idle() == self.idle(),
            self.with_address_match(v).waiting() == self.waiting(),
            self.with_address_match(v).tx_stalled() == self.tx_stalled(),
            self.with_address_match(v).rx_stalled() == self.rx_stalled(),
            self.with_address_match(v).address_match() == v,
            self.with_address_match(v).nack_data() == self.nack_data(),
            self.with_address_match(v).rx_data_first() == self.rx_data_first(),
            self.with_address_match(v).rx_not_empty() == self.rx_not_empty(),
            self.with_address_match(v).rx_full() == self.rx_full(),
            self.with_address_match(v).rx_trigger() == self.rx_trigger(),
            self.with_address_match(v).tx_empty() == self.tx_empty(),
            self.with_address_match(v).tx_not_full() == self.tx_not_full(),
            self.with_address_match(v).tx_trigger() == self.tx_trigger(),
            self.with_address_match(v).raw_busy() == self.raw_busy(),
            self.with_address_match(v).raw_sda() == self.raw_sda(),
            self.with_address_match(v).raw_scl() == self.raw_scl(),
    {
        lemma_set_bit_get_bit(self.raw, 5, v, 0);
        lemma_set_bit_get_bit(self.raw, 5, v, 1);
        lemma_set_bit_get_bit(self.raw, 5, v, 2);
        lemma_set_bit_get_bit(self.raw, 5, v, 3);
        lemma_set_bit_get_bit(self.raw, 5, v, 4);
        lemma_set_bit_get_bit(self.raw, 5, v, 5);
        lemma_set_bit_get_bit(self.raw, 5, v, 6);
        lemma_set_bit_get_bit(self.raw, 5, v, 7);
        lemma_set_bit_get_bit(self.raw, 5, v, 8);
        lemma_set_bit_get_bit(self.raw, 5, v, 9);
        lemma_set_bit_get_bit(self.raw, 5, v, 11);
        lemma_set_bit_get_bit(self.raw, 5, v, 12);
        lemma_set_bit_get_bit(self.raw, 5, v, 13);
        lemma_set_bit_get_bit(self.raw, 5, v, 15);
        lemma_set_bit_get_bit(self.raw, 5, v, 28);
        lemma_set_bit_get_bit(self.raw, 5, v, 30);
        lemma_set_bit_get_bit(self.raw, 5, v, 31);
    }

    /// After `nack_data` is set, it reads as what was set and every other field as before.
    pub proof fn lemma_with_nack_data(self, v: bool)
        ensures
            self.with_nack_data(v).completed() == self.completed(),
            self.with_nack_data(v).idle() == self.idle(),
            self.with_nack_data(v).waiting() == self.waiting(),
            self.with_nack_data(v).tx_stalled() == self.tx_stalled(),
            self.with_nack_data(v).rx_stalled() == self.rx_stalled(),
            self.with_nack_data(v).address_match() == self.address_match(),
            self.with_nack_data(v).nack_data() == v,
            self.with_nack_data(v).rx_data_first() == self.rx_data_first(),
            self.with_nack_data(v).rx_not_empty() == self.rx_not_empty(),
            self.with_nack_data(v).rx_full() == self.rx_full(),
            self.with_nack_data(v).rx_trigger() == self.rx_trigger(),
            self.with_nack_data(v).tx_empty() == self.tx_empty(),
            self.with_nack_data(v).tx_not_full() == self.tx_not_full(),
            self.with_nack_data(v).tx_trigger() == self.tx_trigger(),
            self.with_nack_data(v).raw_busy() == self.raw_busy(),
            self.with_nack_data(v).raw_sda() == self.raw_sda(),
            self.with_nack_data(v).raw_scl() == self.raw_scl(),
    {
        lemma_set_bit_get_bit(self.raw, 6, v, 0);
        lemma_set_bit_get_bit(self.raw, 6, v, 1);
        lemma_set_bit_get_bit(self.raw, 6, v, 2);
        lemma_set_bit_get_bit(self.raw, 6, v, 3);
        lemma_set_bit_get_bit(self.raw, 6, v, 4);
        lemma_set_bit_get_bit(self.raw, 6, v, 5);
        lemma_set_bit_get_bit(self.raw, 6, v, 6);
        lemma_set_bit_get_bit(self.raw, 6, v, 7);
        lemma_set_bit_get_bit(self.raw, 6, v, 8);
        lemma_set_bit_get_bit(self.raw, 6, v, 9);
        lemma_set_bit_get_bit(self.raw, 6, v, 11);
        lemma_set_bit_get_bit(self.raw, 6, v, 12);
        lemma_set_bit_get_bit(self.raw, 6, v, 13);
        lemma_set_bit_get_bit(self.raw, 6, v, 15);
        lemma_set_bit_get_bit(self.raw, 6, v, 28);
        lemma_set_bit_get_bit(self.raw, 6, v, 30);
        lemma_set_bit_get_bit(self.raw, 6, v, 31);
    }

    /// After `rx_data_first` is set, it reads as what was set and every other field as before.
    pub proof fn lemma_with_rx_data_first(self, v: bool)
        ensures
            self.with_rx_data_first(v).completed() == self.completed(),
            self.with_rx_data_first(v).idle() == self.idle(),
            self.with_rx_data_first(v).waiting() == self.waiting(),
            self.with_rx_data_first(v).tx_stalled() == self.tx_stalled(),
            self.with_rx_data_first(v).rx_stalled() == self.rx_stalled(),
            self.with_rx_data_first(v).address_match() == self.address_match(),
            self.with_rx_data_first(v).nack_data() == self.nack_data(),
            self.with_rx_data_first(v).rx_data_first() == v,
            self.with_rx_data_first(v).rx_not_empty() == self.rx_not_empty(),
            self.with_rx_data_first(v).rx_full() == self.rx_full(),
            self.with_rx_data_first(v).rx_trigger() == self.rx_trigger(),
            self.with_rx_data_first(v).tx_empty() == self.tx_empty(),
            self.with_rx_data_first(v).tx_not_full() == self.tx_not_full(),
            self.with_rx_data_first(v).tx_trigger() == self.tx_trigger(),
            self.with_rx_data_first(v).raw_busy() == self.raw_busy(),
            self.with_rx_data_first(v).raw_sda() == self.raw_sda(),
            self.with_rx_data_first(v).raw_scl() == self.raw_scl(),
    {
        lemma_set_bit_get_bit(self.raw, 7, v, 0);
        lemma_set_bit_get_bit(self.raw, 7, v, 1);
        lemma_set_bit_get_bit(self.raw, 7, v, 2);
        lemma_set_bit_get_bit(self.raw, 7, v, 3);
        lemma_set_bit_get_bit(self.raw, 7, v, 4);
        lemma_set_bit_get_bit(self.raw, 7, v, 5);
        lemma_set_bit_get_bit(self.raw, 7, v, 6);
        lemma_set_bit_get_bit(self.raw, 7, v, 7);
        lemma_set_bit_get_bit(self.raw, 7, v, 8);
        lemma_set_bit_get_bit(self.raw, 7, v, 9);
        lemma_set_bit_get_bit(self.raw, 7, v, 11);
        lemma_set_bit_get_bit(self.raw, 7, v, 12);
        lemma_set_bit_get_bit(self.raw, 7, v, 13);
        lemma_set_bit_get_bit(self.raw, 7, v, 15);
        lemma_set_bit_get_bit(self.raw, 7, v, 28);
        lemma_set_bit_get_bit(self.raw, 7, v, 30);
        lemma_set_bit_get_bit(self.raw, 7, v, 31);
    }

    /// After `rx_not_empty` is set, it reads as what was set and every other field as before.
    pub proof fn lemma_with_rx_not_empty(self, v: bool)
        ensures
            self.with_rx_not_empty(v).completed() == self.completed(),
            self.with_rx_not_empty(v).idle() == self.idle(),
            self.with_rx_not_empty(v).waiting() == self.waiting(),
            self.with_rx_not_empty(v).tx_stalled() == self.tx_stalled(),
            self.with_rx_not_empty(v).rx_stalled() == self.rx_stalled(),
            self.with_rx_not_empty(v).address_match() == self.address_match(),
            self.with_rx_not_empty(v).nack_data() == self.nack_data(),
            self.with_rx_not_empty(v).rx_data_first() == self.rx_data_first(),
            self.with_rx_not_empty(v).rx_not_empty() == v,
            self.with_rx_not_empty(v).rx_full() == self.rx_full(),
            self.with_rx_not_empty(v).rx_trigger() == self.rx_trigger(),
            self.with_rx_not_empty(v).tx_empty() == self.tx_empty(),
            self.with_rx_not_empty(v).tx_not_full() == self.tx_not_full(),
            self.with_rx_not_empty(v).tx_trigger() == self.tx_trigger(),
            self.with_rx_not_empty(v).raw_busy() == self.raw_busy(),
            self.with_rx_not_empty(v).raw_sda() == self.raw_sda(),
            self.with_rx_not_empty(v).raw_scl() == self.raw_scl(),
    {
        lemma_set_bit_get_bit(self.raw, 8, v, 0);
        lemma_set_bit_get_bit(self.raw, 8, v, 1);
        lemma_set_bit_get_bit(self.raw, 8, v, 2);
        lemma_set_bit_get_bit(self.raw, 8, v, 3);
        lemma_set_bit_get_bit(self.raw, 8, v, 4);
        lemma_set_bit_get_bit(self.raw, 8, v, 5);
        lemma_set_bit_get_bit(self.raw, 8, v, 6);
        lemma_set_bit_get_bit(self.raw, 8, v, 7);
        lemma_set_bit_get_bit(self.raw, 8, v, 8);
        lemma_set_bit_get_bit(self.raw, 8, v, 9);
        lemma_set_bit_get_bit(self.raw, 8, v, 11);
        lemma_set_bit_get_bit(self.raw, 8, v, 12);
        lemma_set_bit_get_bit(self.raw, 8, v, 13);
        lemma_set_bit_get_bit(self.raw, 8, v, 15);
        lemma_set_bit_get_bit(self.raw, 8, v, 28);
        lemma_set_bit_get_bit(self.raw, 8, v, 30);
        lemma_set_bit_get_bit(self.raw, 8, v, 31);
    }

    /// After `rx_full` is set, it reads as what was set and every other field as before.
    pub proof fn lemma_with_rx_full(self, v: bool)
        ensures
            self.with_rx_full(v).completed() == self.completed(),
            self.with_rx_full(v).idle() == self.idle(),
            self.with_rx_full(v).waiting() == self.waiting(),
            self.with_rx_full(v).tx_stalled() == self.tx_stalled(),
            self.with_rx_full(v).rx_stalled() == self.rx_stalled(),
            self.with_rx_full(v).address_match() == self.address_match(),
            self.with_rx_full(v).nack_data() == self.nack_data(),
            self.with_rx_full(v).rx_data_first() == self.rx_data_first(),
            self.with_rx_full(v).rx_not_empty() == self.rx_not_empty(),
            self.with_rx_full(v).rx_full() == v,
            self.with_rx_full(v).rx_trigger() == self.rx_trigger(),
            self.with_rx_full(v).tx_empty() == self.tx_empty(),
            self.with_rx_full(v).tx_not_full() == self.tx_not_full(),
            self.with_rx_full(v).tx_trigger() == self.tx_trigger(),
            self.with_rx_full(v).raw_busy() == self.raw_busy(),
            self.with_rx_full(v).raw_sda() == self.raw_sda(),
            self.with_rx_full(v).raw_scl() == self.raw_scl(),
    {
        lemma_set_bit_get_bit(self.raw, 9, v, 0);
        lemma_set_bit_get_bit(self.raw, 9, v, 1);
        lemma_set_bit_get_bit(self.raw, 9, v, 2);
        lemma_set_bit_get_bit(self.raw, 9, v, 3);
        lemma_set_bit_get_bit(self.raw, 9, v, 4);
        lemma_set_bit_get_bit(self.raw, 9, v, 5);
        lemma_set_bit_get_bit(self.raw, 9, v, 6);
        lemma_set_bit_get_bit(self.raw, 9, v, 7);
        lemma_set_bit_get_bit(self.raw, 9, v, 8);
        lemma_set_bit_get_bit(self.raw, 9, v, 9);
        lemma_set_bit_get_bit(self.raw, 9, v, 11);
        lemma_set_bit_get_bit(self.raw, 9, v, 12);
        lemma_set_bit_get_bit(self.raw, 9, v, 13);
        lemma_set_bit_get_bit(self.raw, 9, v, 15);
        lemma_set_bit_get_bit(self.raw, 9, v, 28);
        lemma_set_bit_get_bit(self.raw, 9, v, 30);
        lemma_set_bit_get_bit(self.raw, 9, v, 31);
    }

    /// After `rx_trigger` is set, it reads as what was set and every other field as before.
    pub proof fn lemma_with_rx_trigger(self, v: bool)
        ensures
            self.with_rx_trigger(v).completed() == self.completed(),
            self.with_rx_trigger(v).idle() == self.idle(),
            self.with_rx_trigger(v).waiting() == self.waiting(),
            self.with_rx_trigger(v).tx_stalled() == self.tx_stalled(),
            self.with_rx_trigger(v).rx_stalled() == self.rx_stalled(),
            self.with_rx_trigger(v).address_match() == self.address_match(),
            self.with_rx_trigger(v).nack_data() == self.nack_data(),
            self.with_rx_trigger(v).rx_data_first() == self.rx_data_first(),
            self.with_rx_trigger(v).rx_not_empty() == self.rx_not_empty(),
            self.with_rx_trigger(v).rx_full() == self.rx_full(),
            self.with_rx_trigger(v).rx_trigger() == v,
            self.with_rx_trigger(v).tx_empty() == self.tx_empty(),
            self.with_rx_trigger(v).tx_not_full() == self.tx_not_full(),
            self.with_rx_trigger(v).tx_trigger() == self.tx_trigger(),
            self.with_rx_trigger(v).raw_busy() == self.raw_busy(),
            self.with_rx_trigger(v).raw_sda() == self.raw_sda(),
            self.with_rx_trigger(v).raw_scl() == self.raw_scl(),
    {
        lemma_set_bit_get_bit(self.raw, 11, v, 0);
        lemma_set_bit_get_bit(self.raw, 11, v, 1);
        lemma_set_bit_get_bit(self.raw, 11, v, 2);
        lemma_set_bit_get_bit(self.raw, 11, v, 3);
        lemma_set_bit_get_bit(self.raw, 11, v, 4);
        lemma_set_bit_get_bit(self.raw, 11, v, 5);
        lemma_set_bit_get_bit(self.raw, 11, v, 6);
        lemma_set_bit_get_bit(self.raw, 11, v, 7);
        lemma_set_bit_get_bit(self.raw, 11, v, 8);
        lemma_set_bit_get_bit(self.raw, 11, v, 9);
        lemma_set_bit_get_bit(self.raw, 11, v, 11);
        lemma_set_bit_get_bit(self.raw, 11, v, 12);
        lemma_set_bit_get_bit(self.raw, 11, v, 13);
        lemma_set_bit_get_bit(self.raw, 11, v, 15);
        lemma_set_bit_get_bit(self.raw, 11, v, 28);
        lemma_set_bit_get_bit(self.raw, 11, v, 30);
        lemma_set_bit_get_bit(self.raw, 11, v, 31);
    }

    /// After `tx_empty` is set, it reads as what was set and every other field as before.
    pub proof fn lemma_with_tx_empty(self, v: bool)
        ensures
            self.with_tx_empty(v).completed() == self.completed(),
            self.with_tx_empty(v).idle() == self.idle(),
            self.with_tx_empty(v).waiting() == self.waiting(),
            self.with_tx_empty(v).tx_stalled() == self.tx_stalled(),
            self.with_tx_empty(v).rx_stalled() == self.rx_stalled(),
            self.with_tx_empty(v).address_match() == self.address_match(),
            self.with_tx_empty(v).nack_data() == self.nack_data(),
            self.with_tx_empty(v).rx_data_first() == self.rx_data_first(),
            self.with_tx_empty(v).rx_not_empty() == self.rx_not_empty(),
            self.with_tx_empty(v).rx_full() == self.rx_full(),
            self.with_tx_empty(v).rx_trigger() == self.rx_trigger(),
            self.with_tx_empty(v).tx_empty() == v,
            self.with_tx_empty(v).tx_not_full() == self.tx_not_full(),
            self.with_tx_empty(v).tx_trigger() == self.tx_trigger(),
            self.with_tx_empty(v).raw_busy() == self.raw_busy(),
            self.with_tx_empty(v).raw_sda() == self.raw_sda(),
            self.with_tx_empty(v).raw_scl() == self.raw_scl(),
    {
        lemma_set_bit_get_bit(self.raw, 12, v, 0);
        lemma_set_bit_get_bit(self.raw, 12, v, 1);
        lemma_set_bit_get_bit(self.raw, 12, v, 2);
        lemma_set_bit_get_bit(self.raw, 12, v, 3);
        lemma_set_bit_get_bit(self.raw, 12, v, 4);
        lemma_set_bit_get_bit(self.raw, 12, v, 5);
        lemma_set_bit_get_bit(self.raw, 12, v, 6);
        lemma_set_bit_get_bit(self.raw, 12, v, 7);
        lemma_set_bit_get_bit(self.raw, 12, v, 8);
        lemma_set_bit_get_bit(self.raw, 12, v, 9);
        lemma_set_bit_get_bit(self.raw, 12, v, 11);
        lemma_set_bit_get_bit(self.raw, 12, v, 12);
        lemma_set_bit_get_bit(self.raw, 12, v, 13);
        lemma_set_bit_get_bit(self.raw, 12, v, 15);
        lemma_set_bit_get_bit(self.raw, 12, v, 28);
        lemma_set_bit_get_bit(self.raw, 12, v, 30);
        lemma_set_bit_get_bit(self.raw, 12, v, 31);
    }

    /// After `tx_not_full` is set, it reads as what was set and every other field as before.
    pub proof fn lemma_with_tx_not_full(self, v: bool)
        ensures
            self.with_tx_not_full(v).completed() == self.completed(),
            self.with_tx_not_full(v).idle() == self.idle(),
            self.with_tx_not_full(v).waiting() == self.waiting(),
            self.with_tx_not_full(v).tx_stalled() == self.tx_stalled(),
            self.with_tx_not_full(v).rx_stalled() == self.rx_stalled(),
            self.with_tx_not_full(v).address_match() == self.address_match(),
            self.with_tx_not_full(v).nack_data() == self.nack_data(),
            self.with_tx_not_full(v).rx_data_first() == self.rx_data_first(),
            self.with_tx_not_full(v).rx_not_empty() == self.rx_not_empty(),
            self.with_tx_not_full(v).rx_full() == self.rx_full(),
            self.with_tx_not_full(v).rx_trigger() == self.rx_trigger(),
            self.with_tx_not_full(v).tx_empty() == self.tx_empty(),
            self.with_tx_not_full(v).tx_not_full() == v,
            self.with_tx_not_full(v).tx_trigger() == self.tx_trigger(),
            self.with_tx_not_full(v).raw_busy() == self.raw_busy(),
            self.with_tx_not_full(v).raw_sda() == self.raw_sda(),
            self.with_tx_not_full(v).raw_scl() == self.raw_scl(),
    {
        lemma_set_bit_get_bit(self.raw, 13, v, 0);
        lemma_set_bit_get_bit(self.raw, 13, v, 1);
        lemma_set_bit_get_bit(self.raw, 13, v, 2);
        lemma_set_bit_get_bit(self.raw, 13, v, 3);
        lemma_set_bit_get_bit(self.raw, 13, v, 4);
        lemma_set_bit_get_bit(self.raw, 13, v, 5);
        lemma_set_bit_get_bit(self.raw, 13, v, 6);
        lemma_set_bit_get_bit(self.raw, 13, v, 7);
        lemma_set_bit_get_bit(self.raw, 13, v, 8);
        lemma_set_bit_get_bit(self.raw, 13, v, 9);
        lemma_set_bit_get_bit(self.raw, 13, v, 11);
        lemma_set_bit_get_bit(self.raw, 13, v, 12);
        lemma_set_bit_get_bit(self.raw, 13, v, 13);
        lemma_set_bit_get_bit(self.raw, 13, v, 15);
        lemma_set_bit_get_bit(self.raw, 13, v, 28);
        lemma_set_bit_get_bit(self.raw, 13, v, 30);
        lemma_set_bit_get_bit(self.raw, 13, v, 31);
    }

    /// After `tx_trigger` is set, it reads as what was set and every other field as before.
    pub proof fn lemma_with_tx_trigger(self, v: bool)
        ensures
            self.with_tx_trigger(v).completed() == self.completed(),
            self.with_tx_trigger(v).idle() == self.idle(),
            self.with_tx_trigger(v).waiting() == self.waiting(),
            self.with_tx_trigger(v).tx_stalled() == self.tx_stalled(),
            self.with_tx_trigger(v).rx_stalled() == self.rx_stalled(),
            self.with_tx_trigger(v).address_match() == self.address_match(),
            self.with_tx_trigger(v).nack_data() == self.nack_data(),
            self.with_tx_trigger(v).rx_data_first() == self.rx_data_first(),
            self.with_tx_trigger(v).rx_not_empty() == self.rx_not_empty(),
            self.with_tx_trigger(v).rx_full() == self.rx_full(),
            self.with_tx_trigger(v).rx_trigger() == self.rx_trigger(),
            self.with_tx_trigger(v).tx_empty() == self.tx_empty(),
            self.with_tx_trigger(v).tx_not_full() == self.tx_not_full(),
            self.with_tx_trigger(v).tx_trigger() == v,
            self.with_tx_trigger(v).raw_busy() == self.raw_busy(),
            self.with_tx_trigger(v).raw_sda() == self.raw_sda(),
            self.with_tx_trigger(v).raw_scl() == self.raw_scl(),
    {
        lemma_set_bit_get_bit(self.raw, 15, v, 0);
        lemma_set_bit_get_bit(self.raw, 15, v, 1);
        lemma_set_bit_get_bit(self.raw, 15, v, 2);
        lemma_set_bit_get_bit(self.raw, 15, v, 3);
        lemma_set_bit_get_bit(self.raw, 15, v, 4);
        lemma_set_bit_get_bit(self.raw, 15, v, 5);
        lemma_set_bit_get_bit(self.raw, 15, v, 6);
        lemma_set_bit_get_bit(self.raw, 15, v, 7);
        lemma_set_bit_get_bit(self.raw, 15, v, 8);
        lemma_set_bit_get_bit(self.raw, 15, v, 9);
        lemma_set_bit_get_bit(self.raw, 15, v, 11);
        lemma_set_bit_get_bit(self.raw, 15, v, 12);
        lemma_set_bit_get_bit(self.raw, 15, v, 13);
        lemma_set_bit_get_bit(self.raw, 15, v, 15);
        lemma_set_bit_get_bit(self.raw, 15, v, 28);
        lemma_set_bit_get_bit(self.raw, 15, v, 30);
        lemma_set_bit_get_bit(self.raw, 15, v, 31);
    }

    /// After `raw_busy` is set, it reads as what was set and every other field as before.
    pub proof fn lemma_with_raw_busy(self, v: bool)
        ensures
            self.with_raw_busy(v).completed() == self.completed(),
            self.with_raw_busy(v).idle() == self.idle(),
            self.with_raw_busy(v).waiting() == self.waiting(),
            self.with_raw_busy(v).tx_stalled() == self.tx_stalled(),
            self.with_raw_busy(v).rx_stalled() == self.rx_stalled(),
            self.with_raw_busy(v).address_match() == self.address_match(),
            self.with_raw_busy(v).nack_data() == self.nack_data(),
            self.with_raw_busy(v).rx_data_first() == self.rx_data_first(),
            self.with_raw_busy(v).rx_not_empty() == self.rx_not_empty(),
            self.with_raw_busy(v).rx_full() == self.rx_full(),
            self.with_raw_busy(v).rx_trigger() == self.rx_trigger(),
            self.with_raw_busy(v).tx_empty() == self.tx_empty(),
            self.with_raw_busy(v).tx_not_full() == self.tx_not_full(),
            self.with_raw_busy(v).tx_trigger() == self.tx_trigger(),
            self.with_raw_busy(v).raw_busy() == v,
            self.with_raw_busy(v).raw_sda() == self.raw_sda(),
            self.with_raw_busy(v).raw_scl() == self.raw_scl(),
    {
        lemma_set_bit_get_bit(self.raw, 28, v, 0);
        lemma_set_bit_get_bit(self.raw, 28, v, 1);
        lemma_set_bit_get_bit(self.raw, 28, v, 2);
        lemma_set_bit_get_bit(self.raw, 28, v, 3);
        lemma_set_bit_get_bit(self.raw, 28, v, 4);
        lemma_set_bit_get_bit(self.raw, 28, v, 5);
        lemma_set_bit_get_bit(self.raw, 28, v, 6);
        lemma_set_bit_get_bit(self.raw, 28, v, 7);
        lemma_set_bit_get_bit(self.raw, 28, v, 8);
        lemma_set_bit_get_bit(self.raw, 28, v, 9);
        lemma_set_bit_get_bit(self.raw, 28, v, 11);
        lemma_set_bit_get_bit(self.raw, 28, v, 12);
        lemma_set_bit_get_bit(self.raw, 28, v, 13);
        lemma_set_bit_get_bit(self.raw, 28, v, 15);
        lemma_set_bit_get_bit(self.raw, 28, v, 28);
        lemma_set_bit_get_bit(self.raw, 28, v, 30);
        lemma_set_bit_get_bit(self.raw, 28, v, 31);
    }

    /// After `raw_sda` is set, it reads as what was set and every other field as before.
    pub proof fn lemma_with_raw_sda(self, v: bool)
        ensures
            self.with_raw_sda(v).completed() == self.completed(),
            self.with_raw_sda(v).idle() == self.idle(),
            self.with_raw_sda(v).waiting() == self.waiting(),
            self.with_raw_sda(v).tx_stalled() == self.tx_stalled(),
            self.with_raw_sda(v).rx_stalled() == self.rx_stalled(),
            self.with_raw_sda(v).address_match() == self.address_match(),
            self.with_raw_sda(v).nack_data() == self.nack_data(),
            self.with_raw_sda(v).rx_data_first() == self.rx_data_first(),
            self.with_raw_sda(v).rx_not_empty() == self.rx_not_empty(),
            self.with_raw_sda(v).rx_full() == self.rx_full(),
            self.with_raw_sda(v).rx_trigger() == self.rx_trigger(),
            self.with_raw_sda(v).tx_empty() == self.tx_empty(),
            self.with_raw_sda(v).tx_not_full() == self.tx_not_full(),
            self.with_raw_sda(v).tx_trigger() == self.tx_trigger(),
            self.with_raw_sda(v).raw_busy() == self.raw_busy(),
            self.with_raw_sda(v).raw_sda() == v,
            self.with_raw_sda(v).raw_scl() == self.raw_scl(),
    {
        lemma_set_bit_get_bit(self.raw, 30, v, 0);
        lemma_set_bit_get_bit(self.raw, 30, v, 1);
        lemma_set_bit_get_bit(self.raw, 30, v, 2);
        lemma_set_bit_get_bit(self.raw, 30, v, 3);
        lemma_set_bit_get_bit(self.raw, 30, v, 4);
        lemma_set_bit_get_bit(self.raw, 30, v, 5);
        lemma_set_bit_get_bit(self.raw, 30, v, 6);
        lemma_set_bit_get_bit(self.raw, 30, v, 7);
        lemma_set_bit_get_bit(self.raw, 30, v, 8);
        lemma_set_bit_get_bit(self.raw, 30, v, 9);
        lemma_set_bit_get_bit(self.raw, 30, v, 11);
        lemma_set_bit_get_bit(self.raw, 30, v, 12);
        lemma_set_bit_get_bit(self.raw, 30, v, 13);
        lemma_set_bit_get_bit(self.raw, 30, v, 15);
        lemma_set_bit_get_bit(self.raw, 30, v, 28);
        lemma_set_bit_get_bit(self.raw, 30, v, 30);
        lemma_set_bit_get_bit(self.raw, 30, v, 31);
    }

    /// After `raw_scl` is set, it reads as what was set and every other field as before.
    pub proof fn lemma_with_raw_scl(self, v: bool)
        ensures
            self.with_raw_scl(v).completed() == self.completed(),
            self.with_raw_scl(v).idle() == self.idle(),
            self.with_raw_scl(v).waiting() == self.waiting(),
            self.with_raw_scl(v).tx_stalled() == self.tx_stalled(),
            self.with_raw_scl(v).rx_stalled() == self.rx_stalled(),
            self.with_raw_scl(v).address_match() == self.address_match(),
            self.with_raw_scl(v).nack_data() == self.nack_data(),
            self.with_raw_scl(v).rx_data_first() == self.rx_data_first(),
            self.with_raw_scl(v).rx_not_empty() == self.rx_not_empty(),
            self.with_raw_scl(v).rx_full() == self.rx_full(),
            self.with_raw_scl(v).rx_trigger() == self.rx_trigger(),
            self.with_raw_scl(v).tx_empty() == self.tx_empty(),
            self.with_raw_scl(v).tx_not_full() == self.tx_not_full(),
            self.with_raw_scl(v).tx_trigger() == self.tx_trigger(),
            self.with_raw_scl(v).raw_busy() == self.raw_busy(),
            self.with_raw_scl(v).raw_sda() == self.raw_sda(),
            self.with_raw_scl(v).raw_scl() == v,
    {
        lemma_set_bit_get_bit(self.raw, 31, v, 0);
        lemma_set_bit_get_bit(self.raw, 31, v, 1);
        lemma_set_bit_get_bit(self.raw, 31, v, 2);
        lemma_set_bit_get_bit(self.raw, 31, v, 3);
        lemma_set_bit_get_bit(self.raw, 31, v, 4);
        lemma_set_bit_get_bit(self.raw, 31, v, 5);
        lemma_set_bit_get_bit(self.raw, 31, v, 6);
        lemma_set_bit_get_bit(self.raw, 31, v, 7);
        lemma_set_bit_get_bit(self.raw, 31, v, 8);
        lemma_set_bit_get_bit(self.raw, 31, v, 9);
        lemma_set_bit_get_bit(self.raw, 31, v, 11);
        lemma_set_bit_get_bit(self.raw, 31, v, 12);
        lemma_set_bit_get_bit(self.raw, 31, v, 13);
        lemma_set_bit_get_bit(self.raw, 31, v, 15);
        lemma_set_bit_get_bit(self.raw, 31, v, 28);
        lemma_set_bit_get_bit(self.raw, 31, v, 30);
        lemma_set_bit_get_bit(self.raw, 31, v, 31);
    }
}

/// The state register of an I2C slave.
#[derive(Debug, Clone, Copy, PartialEq, Eq, Structural)]
pub struct State {
    pub raw: u32,
}

impl State {
    /// The register value with the bits `raw`.
    #[verifier::allow_in_spec]
    pub fn new_with_raw_value(raw: u32) -> State
        returns
            (State { raw }),
    {
        State { raw }
    }

    /// The bits of the register value.
    #[verifier::allow_in_spec]
    pub fn raw_value(&self) -> u32
        returns
            self.raw,
    {
        self.raw
    }

    /// Bits 0 to 2 of the register.
    #[verifier::allow_in_spec]
    pub fn state(&self) -> u8
        returns
            spec_get_field(self.raw, 0, 3) as u8,
    {
        proof {
            lemma_field_bound(self.raw, 0, 3);
        }
        get_field(self.raw, 0, 3) as u8
    }

    /// The same value with `state` replaced by `v`.
    #[verifier::allow_in_spec]
    pub fn with_state(self, v: u8) -> State
        returns
            (State { raw: spec_set_field(self.raw, 0, 3, v as u32) }),
    {
        State { raw: set_field(self.raw, 0, 3, v as u32) }
    }

    /// Bits 4 to 7 of the register.
    #[verifier::allow_in_spec]
    pub fn step(&self) -> u8
        returns
            spec_get_field(self.raw, 4, 4) as u8,
    {
        proof {
            lemma_field_bound(self.raw, 4, 4);
        }
        get_field(self.raw, 4, 4) as u8
    }

    /// The same value with `step` replaced by `v`.
    #[verifier::allow_in_spec]
    pub fn with_step(self, v: u8) -> State
        returns
            (State { raw: spec_set_field(self.raw, 4, 4, v as u32) }),
    {
        State { raw: set_field(self.raw, 4, 4, v as u32) }
    }

    /// Bits 8 to 12 of the register.
    #[verifier::allow_in_spec]
    pub fn rx_fifo(&self) -> u8
        returns
            spec_get_field(self.raw, 8, 5) as u8,
    {
        proof {
            lemma_field_bound(self.raw, 8, 5);
        }
        get_field(self.raw, 8, 5) as u8
    }

    /// The same value with `rx_fifo` replaced by `v`.
    #[verifier::allow_in_spec]
    pub fn with_rx_fifo(self, v: u8) -> State
        returns
            (State { raw: spec_set_field(self.raw, 8, 5, v as u32) }),
    {
        State { raw: set_field(self.raw, 8, 5, v as u32) }
    }

    /// Bits 14 to 18 of the register.
    #[verifier::allow_in_spec]
    pub fn tx_fifo(&self) -> u8
        returns
            spec_get_field(self.raw, 14, 5) as u8,
    {
        proof {
            lemma_field_bound(self.raw, 14, 5);
        }
        get_field(self.raw, 14, 5) as u8
    }

    /// The same value with `tx_fifo` replaced by `v`.
    #[verifier::allow_in_spec]
    pub fn with_tx_fifo(self, v: u8) -> State
        returns
            (State { raw: spec_set_field(self.raw, 14, 5, v as u32) }),
    {
        State { raw: set_field(self.raw, 14, 5, v as u32) }
    }

    /// After `state` is set, it reads as what was set and every other field as before.
    pub proof fn lemma_with_state(self, v: u8)
        requires
            v < 8,
        ensures
            self.with_state(v).state() == v,
            self.with_state(v).step() == self.step(),
            self.with_state(v).rx_fifo() == self.rx_fifo(),
            self.with_state(v).tx_fifo() == self.tx_fifo(),
    {
        lemma_field_bound(self.raw, 0, 3);
        lemma_set_field_get_field(self.raw, 0, 3, v as u32);
        lemma_set_field_keeps_field(self.raw, 0, 3, v as u32, 4, 4);
        lemma_set_field_keeps_field(self.raw, 0, 3, v as u32, 8, 5);
        lemma_set_field_keeps_field(self.raw, 0, 3, v as u32, 14, 5);
    }

    /// After `step` is set, it reads as what was set and every other field as before.
    pub proof fn lemma_with_step(self, v: u8)
        requires
            v < 16,
        ensures
            self.with_step(v).state() == self.state(),
            self.with_step(v).step() == v,
            self.with_step(v).rx_fifo() == self.rx_fifo(),
            self.with_step(v).tx_fifo() == self.tx_fifo(),
    {
        lemma_field_bound(self.raw, 4, 4);
        lemma_set_field_keeps_field(self.raw, 4, 4, v as u32, 0, 3);
        lemma_set_field_get_field(self.raw, 4, 4, v as u32);
        lemma_set_field_keeps_field(self.raw, 4, 4, v as u32, 8, 5);
        lemma_set_field_keeps_field(self.raw, 4, 4, v as u32, 14, 5);
    }

    /// After `rx_fifo` is set, it reads as what was set and every other field as before.
    pub proof fn lemma_with_rx_fifo(self, v: u8)
        requires
            v < 32,
        ensures
            self.with_rx_fifo(v).state() == self.state(),
            self.with_rx_fifo(v).step() == self.step(),
            self.with_rx_fifo(v).rx_fifo() == v,
            self.with_rx_fifo(v).tx_fifo() == self.tx_fifo(),
    {
        lemma_field_bound(self.raw, 8, 5);
        lemma_set_field_keeps_field(self.raw, 8, 5, v as u32, 0, 3);
        lemma_set_field_keeps_field(self.raw, 8, 5, v as u32, 4, 4);
        lemma_set_field_get_field(self.raw, 8, 5, v as u32);
        lemma_set_field_keeps_field(self.raw, 8, 5, v as u32, 14, 5);
    }

    /// After `tx_fifo` is set, it reads as what was set and every other field as before.
    pub proof fn lemma_with_tx_fifo(self, v: u8)
        requires
            v < 32,
        ensures
            self.with_tx_fifo(v).state() == self.state(),
            self.with_tx_fifo(v).step() == self.step(),
            self.with_tx_fifo(v).rx_fifo() == self.rx_fifo(),
            self.with_tx_fifo(v).tx_fifo() == v,
    {
        lemma_field_bound(self.raw, 14, 5);
        lemma_set_field_keeps_field(self.raw, 14, 5, v as u32, 0, 3);
        lemma_set_field_keeps_field(self.raw, 14, 5, v as u32, 4, 4);
        lemma_set_field_keeps_field(self.raw, 14, 5, v as u32, 8, 5);
        lemma_set_field_get_field(self.raw, 14, 5, v as u32);
    }
}

/// The interrupt enable register of an I2C slave.
#[derive(Debug, Clone, Copy, PartialEq, Eq, Structural)]
pub struct InterruptControl {
    pub raw: u32,
}

impl InterruptControl {
    /// The register value with the bits `raw`.
    #[verifier::allow_in_spec]
    pub fn new_with_raw_value(raw: u32) -> InterruptControl
        returns
            (InterruptControl { raw }),
    {
        InterruptControl { raw }
    }

    /// The bits of the register value.
    #[verifier::allow_in_spec]
    pub fn raw_value(&self) -> u32
        returns
            self.raw,
    {
        self.raw
    }

    /// Bit 0 of the register.
    #[verifier::allow_in_spec]
    pub fn completed(&self) -> bool
        returns
            spec_get_bit(self.raw, 0),
    {
        get_bit(self.raw, 0)
    }

    /// The same value with `completed` replaced by `v`.
    #[verifier::allow_in_spec]
    pub fn with_completed(self, v: bool) -> InterruptControl
        returns
            (InterruptControl { raw: spec_set_bit(self.raw, 0, v) }),
    {
        InterruptControl { raw: set_bit(self.raw, 0, v) }
    }

    /// Bit 1 of the register.
    #[verifier::allow_in_spec]
    pub fn idle(&self) -> bool
        returns
            spec_get_bit(self.raw, 1),
    {
        get_bit(self.raw, 1)
    }

    /// The same value with `idle` replaced by `v`.
    #[verifier::allow_in_spec]
    pub fn with_idle(self, v: bool) -> InterruptControl
        returns
            (InterruptControl { raw: spec_set_bit(self.raw, 1, v) }),
    {
        InterruptControl { raw: set_bit(self.raw, 1, v) }
    }

    /// Bit 2 of the register.
    #[verifier::allow_in_spec]
    pub fn waiting(&self) -> bool
        returns
            spec_get_bit(self.raw, 2),
    {
        get_bit(self.raw, 2)
    }

    /// The same value with `waiting` replaced by `v`.
    #[verifier::allow_in_spec]
    pub fn with_waiting(self, v: bool) -> InterruptControl
        returns
            (InterruptControl { raw: spec_set_bit(self.raw, 2, v) }),
    {
        InterruptControl { raw: set_bit(self.raw, 2, v) }
    }

    /// Bit 3 of the register.
    #[verifier::allow_in_spec]
    pub fn tx_stalled(&self) -> bool
        returns
            spec_get_bit(self.raw, 3),
    {
        get_bit(self.raw, 3)
    }

    /// The same value with `tx_stalled` replaced by `v`.
    #[verifier::allow_in_spec]
    pub fn with_tx_stalled(self, v: bool) -> InterruptControl
        returns
            (InterruptControl { raw: spec_set_bit(self.raw, 3, v) }),
    {
        InterruptControl { raw: set_bit(self.raw, 3, v) }
    }

    /// Bit 4 of the register.
    #[verifier::allow_in_spec]
    pub fn rx_stalled(&self) -> bool
        returns
            spec_get_bit(self.raw, 4),
    {
        get_bit(self.raw, 4)
    }

    /// The same value with `rx_stalled` replaced by `v`.
    #[verifier::allow_in_spec]
    pub fn with_rx_stalled(self, v: bool) -> InterruptControl
        returns
            (InterruptControl { raw: spec_set_bit(self.raw, 4, v) }),
    {
        InterruptControl { raw: set_bit(self.raw, 4, v) }
    }

    /// Bit 5 of the register.
    #[verifier::allow_in_spec]
    pub fn address_match(&self) -> bool
        returns
            spec_get_bit(self.raw, 5),
    {
        get_bit(self.raw, 5)
    }

    /// The same value with `address_match` replaced by `v`.
    #[verifier::allow_in_spec]
    pub fn with_address_match(self, v: bool) -> InterruptControl
        returns
            (InterruptControl { raw: spec_set_bit(self.raw, 5, v) }),
    {
        InterruptControl { raw: set_bit(self.raw, 5, v) }
    }

    /// Bit 6 of the register.
    #[verifier::allow_in_spec]
    pub fn nack_data(&self) -> bool
        returns
            spec_get_bit(self.raw, 6),
    {
        get_bit(self.raw, 6)
    }

    /// The same value with `nack_data` replaced by `v`.
    #[verifier::allow_in_spec]
    pub fn with_nack_data(self, v: bool) -> InterruptControl
        returns
            (InterruptControl { raw: spec_set_bit(self.raw, 6, v) }),
    {
        InterruptControl { raw: set_bit(self.raw, 6, v) }
    }

    /// Bit 7 of the register.
    #[verifier::allow_in_spec]
    pub fn rx_data_first(&self) -> bool
        returns
            spec_get_bit(self.raw, 7),
    {
        get_bit(self.raw, 7)
    }

    /// The same value with `rx_data_first` replaced by `v`.
    #[verifier::allow_in_spec]
    pub fn with_rx_data_first(self, v: bool) -> InterruptControl
        returns
            (InterruptControl { raw: spec_set_bit(self.raw, 7, v) }),
    {
        InterruptControl { raw: set_bit(self.raw, 7, v) }
    }

    /// Bit 8 of the register.
    #[verifier::allow_in_spec]
    pub fn i2c_start(&self) -> bool
        returns
            spec_get_bit(self.raw, 8),
    {
        get_bit(self.raw, 8)
    }

    /// The same value with `i2c_start` replaced by `v`.
    #[verifier::allow_in_spec]
    pub fn with_i2c_start(self, v: bool) -> InterruptControl
        returns
            (InterruptControl { raw: spec_set_bit(self.raw, 8, v) }),
    {
        InterruptControl { raw: set_bit(self.raw, 8, v) }
    }

    /// Bit 9 of the register.
    #[verifier::allow_in_spec]
    pub fn i2c_stop(&self) -> bool
        returns
            spec_get_bit(self.raw, 9),
    {
        get_bit(self.raw, 9)
    }

    /// The same value with `i2c_stop` replaced by `v`.
    #[verifier::allow_in_spec]
    pub fn with_i2c_stop(self, v: bool) -> InterruptControl
        returns
            (InterruptControl { raw: spec_set_bit(self.raw, 9, v) }),
    {
        InterruptControl { raw: set_bit(self.raw, 9, v) }
    }

    /// Bit 10 of the register.
    #[verifier::allow_in_spec]
    pub fn tx_underflow(&self) -> bool
        returns
            spec_get_bit(self.raw, 10),
    {
        get_bit(self.raw, 10)
    }

    /// The same value with `tx_underflow` replaced by `v`.
    #[verifier::allow_in_spec]
    pub fn with_tx_underflow(self, v: bool) -> InterruptControl
        returns
            (InterruptControl { raw: spec_set_bit(self.raw, 10, v) }),
    {
        InterruptControl { raw: set_bit(self.raw, 10, v) }
    }

    /// Bit 11 of the register.
    #[verifier::allow_in_spec]
    pub fn rx_underflow(&self) -> bool
        returns
            spec_get_bit(self.raw, 11),
    {
        get_bit(self.raw, 11)
    }

    /// The same value with `rx_underflow` replaced by `v`.
    #[verifier::allow_in_spec]
    pub fn with_rx_underflow(self, v: bool) -> InterruptControl
        returns
            (InterruptControl { raw: spec_set_bit(self.raw, 11, v) }),
    {
        InterruptControl { raw: set_bit(self.raw, 11, v) }
    }

    /// Bit 12 of the register.
    #[verifier::allow_in_spec]
    pub fn tx_ready(&self) -> bool
        returns
            spec_get_bit(self.raw, 12),
    {
        get_bit(self.raw, 12)
    }

    /// The same value with `tx_ready` replaced by `v`.
    #[verifier::allow_in_spec]
    pub fn with_tx_ready(self, v: bool) -> InterruptControl
        returns
            (InterruptControl { raw: spec_set_bit(self.raw, 12, v) }),
    {
        InterruptControl { raw: set_bit(self.raw, 12, v) }
    }

    /// Bit 13 of the register.
    #[verifier::allow_in_spec]
    pub fn rx_ready(&self) -> bool
        returns
            spec_get_bit(self.raw, 13),
    {
        get_bit(self.raw, 13)
    }

    /// The same value with `rx_ready` replaced by `v`.
    #[verifier::allow_in_spec]
    pub fn with_rx_ready(self, v: bool) -> InterruptControl
        returns
            (InterruptControl { raw: spec_set_bit(self.raw, 13, v) }),
    {
        InterruptControl { raw: set_bit(self.raw, 13, v) }
    }

    /// Bit 14 of the register.
    #[verifier::allow_in_spec]
    pub fn tx_empty(&self) -> bool
        returns
            spec_get_bit(self.raw, 14),
    {
        get_bit(self.raw, 14)
    }

    /// The same value with `tx_empty` replaced by `v`.
    #[verifier::allow_in_spec]
    pub fn with_tx_empty(self, v: bool) -> InterruptControl
        returns
            (InterruptControl { raw: spec_set_bit(self.raw, 14, v) }),
    {
        InterruptControl { raw: set_bit(self.raw, 14, v) }
    }

    /// Bit 15 of the register.
    #[verifier::allow_in_spec]
    pub fn rx_full(&self) -> bool
        returns
            spec_get_bit(self.raw, 15),
    {
        get_bit(self.raw, 15)
    }

    /// The same value with `rx_full` replaced by `v`.
    #[verifier::allow_in_spec]
    pub fn with_rx_full(self, v: bool) -> InterruptControl
        returns
            (InterruptControl { raw: spec_set_bit(self.raw, 15, v) }),
    {
        InterruptControl { raw: set_bit(self.raw, 15, v) }
    }

    /// After `completed` is set, it reads as what was set and every other field as before.
    pub proof fn lemma_with_completed(self, v: bool)
        ensures
            self.with_completed(v).completed() == v,
            self.with_completed(v).idle() == self.idle(),
            self.with_completed(v).waiting() == self.waiting(),
            self.with_completed(v).tx_stalled() == self.tx_stalled(),
            self.with_completed(v).rx_stalled() == self.rx_stalled(),
            self.with_completed(v).address_match() == self.address_match(),
            self.with_completed(v).nack_data() == self.nack_data(),
            self.with_completed(v).rx_data_first() == self.rx_data_first(),
            self.with_completed(v).i2c_start() == self.i2c_start(),
            self.with_completed(v).i2c_stop() == self.i2c_stop(),
            self.with_completed(v).tx_underflow() == self.tx_underflow(),
            self.with_completed(v).rx_underflow() == self.rx_underflow(),
            self.with_completed(v).tx_ready() == self.tx_ready(),
            self.with_completed(v).rx_ready() == self.rx_ready(),
            self.with_completed(v).tx_empty() == self.tx_empty(),
            self.with_completed(v).rx_full() == self.rx_full(),
    {
        lemma_set_bit_get_bit(self.raw, 0, v, 0);
        lemma_set_bit_get_bit(self.raw, 0, v, 1);
        lemma_set_bit_get_bit(self.raw, 0, v, 2);
        lemma_set_bit_get_bit(self.raw, 0, v, 3);
        lemma_set_bit_get_bit(self.raw, 0, v, 4);
        lemma_set_bit_get_bit(self.raw, 0, v, 5);
        lemma_set_bit_get_bit(self.raw, 0, v, 6);
        lemma_set_bit_get_bit(self.raw, 0, v, 7);
        lemma_set_bit_get_bit(self.raw, 0, v, 8);
        lemma_set_bit_get_bit(self.raw, 0, v, 9);
        lemma_set_bit_get_bit(self.raw, 0, v, 10);
        lemma_set_bit_get_bit(self.raw, 0, v, 11);
        lemma_set_bit_get_bit(self.raw, 0, v, 12);
        lemma_set_bit_get_bit(self.raw, 0, v, 13);
        lemma_set_bit_get_bit(self.raw, 0, v, 14);
        lemma_set_bit_get_bit(self.raw, 0, v, 15);
    }

    /// After `idle` is set, it reads as what was set and every other field as before.
    pub proof fn lemma_with_idle(self, v: bool)
        ensures
            self.with_idle(v).completed() == self.completed(),
            self.with_idle(v).idle() == v,
            self.with_idle(v).waiting() == self.waiting(),
            self.with_idle(v).tx_stalled() == self.tx_stalled(),
            self.with_idle(v).rx_stalled() == self.rx_stalled(),
            self.with_idle(v).address_match() == self.address_match(),
            self.with_idle(v).nack_data() == self.nack_data(),
            self.with_idle(v).rx_data_first() == self.rx_data_first(),
            self.with_idle(v).i2c_start() == self.i2c_start(),
            self.with_idle(v).i2c_stop() == self.i2c_stop(),
            self.with_idle(v).tx_underflow() == self.tx_underflow(),
            self.with_idle(v).rx_underflow() == self.rx_underflow(),
            self.with_idle(v).tx_ready() == self.tx_ready(),
            self.with_idle(v).rx_ready() == self.rx_ready(),
            self.with_idle(v).tx_empty() == self.tx_empty(),
            self.with_idle(v).rx_full() == self.rx_full(),
    {
        lemma_set_bit_get_bit(self.raw, 1, v, 0);
        lemma_set_bit_get_bit(self.raw, 1, v, 1);
        lemma_set_bit_get_bit(self.raw, 1, v, 2);
        lemma_set_bit_get_bit(self.raw, 1, v, 3);
        lemma_set_bit_get_bit(self.raw, 1, v, 4);
        lemma_set_bit_get_bit(self.raw, 1, v, 5);
        lemma_set_bit_get_bit(self.raw, 1, v, 6);
        lemma_set_bit_get_bit(self.raw, 1, v, 7);
        lemma_set_bit_get_bit(self.raw, 1, v, 8);
        lemma_set_bit_get_bit(self.raw, 1, v, 9);
        lemma_set_bit_get_bit(self.raw, 1, v, 10);
        lemma_set_bit_get_bit(self.raw, 1, v, 11);
        lemma_set_bit_get_bit(self.raw, 1, v, 12);
        lemma_set_bit_get_bit(self.raw, 1, v, 13);
        lemma_set_bit_get_bit(self.raw, 1, v, 14);
        lemma_set_bit_get_bit(self.raw, 1, v, 15);
    }

    /// After `waiting` is set, it reads as what was set and every other field as before.
    pub proof fn lemma_with_waiting(self, v: bool)
        ensures
            self.with_waiting(v).completed() == self.completed(),
            self.with_waiting(v).idle() == self.idle(),
            self.with_waiting(v).waiting() == v,
            self.with_waiting(v).tx_stalled() == self.tx_stalled(),
            self.with_waiting(v).rx_stalled() == self.rx_stalled(),
            self.with_waiting(v).address_match() == self.address_match(),
            self.with_waiting(v).nack_data() == self.nack_data(),
            self.with_waiting(v).rx_data_first() == self.rx_data_first(),
            self.with_waiting(v).i2c_start() == self.i2c_start(),
            self.with_waiting(v).i2c_stop() == self.i2c_stop(),
            self.with_waiting(v).tx_underflow() == self.tx_underflow(),
            self.with_waiting(v).rx_underflow() == self.rx_underflow(),
            self.with_waiting(v).tx_ready() == self.tx_ready(),
            self.with_waiting(v).rx_ready() == self.rx_ready(),
            self.with_waiting(v).tx_empty() == self.tx_empty(),
            self.with_waiting(v).rx_full() == self.rx_full(),
    {
        lemma_set_bit_get_bit(self.raw, 2, v, 0);
        lemma_set_bit_get_bit(self.raw, 2, v, 1);
        lemma_set_bit_get_bit(self.raw, 2, v, 2);
        lemma_set_bit_get_bit(self.raw, 2, v, 3);
        lemma_set_bit_get_bit(self.raw, 2, v, 4);
        lemma_set_bit_get_bit(self.raw, 2, v, 5);
        lemma_set_bit_get_bit(self.raw, 2, v, 6);
        lemma_set_bit_get_bit(self.raw, 2, v, 7);
        lemma_set_bit_get_bit(self.raw, 2, v, 8);
        lemma_set_bit_get_bit(self.raw, 2, v, 9);
        lemma_set_bit_get_bit(self.raw, 2, v, 10);
        lemma_set_bit_get_bit(self.raw, 2, v, 11);
        lemma_set_bit_get_bit(self.raw, 2, v, 12);
        lemma_set_bit_get_bit(self.raw, 2, v, 13);
        lemma_set_bit_get_bit(self.raw, 2, v, 14);
        lemma_set_bit_get_bit(self.raw, 2, v, 15);
    }

    /// After `tx_stalled` is set, it reads as what was set and every other field as before.
    pub proof fn lemma_with_tx_stalled(self, v: bool)
        ensures
            self.with_tx_stalled(v).completed() == self.completed(),
            self.with_tx_stalled(v).idle() == self.idle(),
            self.with_tx_stalled(v).waiting() == self.waiting(),
            self.with_tx_stalled(v).tx_stalled() == v,
            self.with_tx_stalled(v).rx_stalled() == self.rx_stalled(),
            self.with_tx_stalled(v).address_match() == self.address_match(),
            self.with_tx_stalled(v).nack_data() == self.nack_data(),
            self.with_tx_stalled(v).rx_data_first() == self.rx_data_first(),
            self.with_tx_stalled(v).i2c_start() == self.i2c_start(),
            self.with_tx_stalled(v).i2c_stop() == self.i2c_stop(),
            self.with_tx_stalled(v).tx_underflow() == self.tx_underflow(),
            self.with_tx_stalled(v).rx_underflow() == self.rx_underflow(),
            self.with_tx_stalled(v).tx_ready() == self.tx_ready(),
            self.with_tx_stalled(v).rx_ready() == self.rx_ready(),
            self.with_tx_stalled(v).tx_empty() == self.tx_empty(),
            self.with_tx_stalled(v).rx_full() == self.rx_full(),
    {
        lemma_set_bit_get_bit(self.raw, 3, v, 0);
        lemma_set_bit_get_bit(self.raw, 3, v, 1);
        lemma_set_bit_get_bit(self.raw, 3, v, 2);
        lemma_set_bit_get_bit(self.raw, 3, v, 3);
        lemma_set_bit_get_bit(self.raw, 3, v, 4);
        lemma_set_bit_get_bit(self.raw, 3, v, 5);
        lemma_set_bit_get_bit(self.raw, 3, v, 6);
        lemma_set_bit_get_bit(self.raw, 3, v, 7);
        lemma_set_bit_get_bit(self.raw, 3, v, 8);
        lemma_set_bit_get_bit(self.raw, 3, v, 9);
        lemma_set_bit_get_bit(self.raw, 3, v, 10);
        lemma_set_bit_get_bit(self.raw, 3, v, 11);
        lemma_set_bit_get_bit(self.raw, 3, v, 12);
        lemma_set_bit_get_bit(self.raw, 3, v, 13);
        lemma_set_bit_get_bit(self.raw, 3, v, 14);
        lemma_set_bit_get_bit(self.raw, 3, v, 15);
    }

    /// After `rx_stalled` is set, it reads as what was set and every other field as before.
    pub proof fn lemma_with_rx_stalled(self, v: bool)
        ensures
            self.with_rx_stalled(v).completed() == self.completed(),
            self.with_rx_stalled(v).idle() == self.idle(),
            self.with_rx_stalled(v).waiting() == self.waiting(),
            self.with_rx_stalled(v).tx_stalled() == self.tx_stalled(),
            self.with_rx_stalled(v).rx_stalled() == v,
            self.with_rx_stalled(v).address_match() == self.address_match(),
            self.with_rx_stalled(v).nack_data() == self.nack_data(),
            self.with_rx_stalled(v).rx_data_first() == self.rx_data_first(),
            self.with_rx_stalled(v).i2c_start() == self.i2c_start(),
            self.with_rx_stalled(v).i2c_stop() == self.i2c_stop(),
            self.with_rx_stalled(v).tx_underflow() == self.tx_underflow(),
            self.with_rx_stalled(v).rx_underflow() == self.rx_underflow(),
            self.with_rx_stalled(v).tx_ready() == self.tx_ready(),
            self.with_rx_stalled(v).rx_ready() == self.rx_ready(),
            self.with_rx_stalled(v).tx_empty() == self.tx_empty(),
            self.with_rx_stalled(v).rx_full() == self.rx_full(),
    {
        lemma_set_bit_get_bit(self.raw, 4, v, 0);
        lemma_set_bit_get_bit(self.raw, 4, v, 1);
        lemma_set_bit_get_bit(self.raw, 4, v, 2);
        lemma_set_bit_get_bit(self.raw, 4, v, 3);
        lemma_set_bit_get_bit(self.raw, 4, v, 4);
        lemma_set_bit_get_bit(self.raw, 4, v, 5);
        lemma_set_bit_get_bit(self.raw, 4, v, 6);
        lemma_set_bit_get_bit(self.raw, 4, v, 7);
        lemma_set_bit_get_bit(self.raw, 4, v, 8);
        lemma_set_bit_get_bit(self.raw, 4, v, 9);
        lemma_set_bit_get_bit(self.raw, 4, v, 10);
        lemma_set_bit_get_bit(self.raw, 4, v, 11);
        lemma_set_bit_get_bit(self.raw, 4, v, 12);
        lemma_set_bit_get_bit(self.raw, 4, v, 13);
        lemma_set_bit_get_bit(self.raw, 4, v, 14);
        lemma_set_bit_get_bit(self.raw, 4, v, 15);
    }

    /// After `address_match` is set, it reads as what was set and every other field as before.
    pub proof fn lemma_with_address_match(self, v: bool)
        ensures
            self.with_address_match(v).completed() == self.completed(),
            self.with_address_match(v).idle() == self.idle(),
            self.with_address_match(v).waiting() == self.waiting(),
            self.with_address_match(v).tx_stalled() == self.tx_stalled(),
            self.with_address_match(v).rx_stalled() == self.rx_stalled(),
            self.with_address_match(v).address_match() == v,
            self.with_address_match(v).nack_data() == self.nack_data(),
            self.with_address_match(v).rx_data_first() == self.rx_data_first(),
            self.with_address_match(v).i2c_start() == self.i2c_start(),
            self.with_address_match(v).i2c_stop() == self.i2c_stop(),
            self.with_address_match(v).tx_underflow() == self.tx_underflow(),
            self.with_address_match(v).rx_underflow() == self.rx_underflow(),
            self.with_address_match(v).tx_ready() == self.tx_ready(),
            self.with_address_match(v).rx_ready() == self.rx_ready(),
            self.with_address_match(v).tx_empty() == self.tx_empty(),
            self.with_address_match(v).rx_full() == self.rx_full(),
    {
        lemma_set_bit_get_bit(self.raw, 5, v, 0);
        lemma_set_bit_get_bit(self.raw, 5, v, 1);
        lemma_set_bit_get_bit(self.raw, 5, v, 2);
        lemma_set_bit_get_bit(self.raw, 5, v, 3);
        lemma_set_bit_get_bit(self.raw, 5, v, 4);
        lemma_set_bit_get_bit(self.raw, 5, v, 5);
        lemma_set_bit_get_bit(self.raw, 5, v, 6);
        lemma_set_bit_get_bit(self.raw, 5, v, 7);
        lemma_set_bit_get_bit(self.raw, 5, v, 8);
        lemma_set_bit_get_bit(self.raw, 5, v, 9);
        lemma_set_bit_get_bit(self.raw, 5, v, 10);
        lemma_set_bit_get_bit(self.raw, 5, v, 11);
        lemma_set_bit_get_bit(self.raw, 5, v, 12);
        lemma_set_bit_get_bit(self.raw, 5, v, 13);
        lemma_set_bit_get_bit(self.raw, 5, v, 14);
        lemma_set_bit_get_bit(self.raw, 5, v, 15);
    }

    /// After `nack_data` is set, it reads as what was set and every other field as before.
    pub proof fn lemma_with_nack_data(self, v: bool)
        ensures
            self.with_nack_data(v).completed() == self.completed(),
            self.with_nack_data(v).idle() == self.idle(),
            self.with_nack_data(v).waiting() == self.waiting(),
            self.with_nack_data(v).tx_stalled() == self.tx_stalled(),
            self.with_nack_data(v).rx_stalled() == self.rx_stalled(),
            self.with_nack_data(v).address_match() == self.address_match(),
            self.with_nack_data(v).nack_data() == v,
            self.with_nack_data(v).rx_data_first() == self.rx_data_first(),
            self.with_nack_data(v).i2c_start() == self.i2c_start(),
            self.with_nack_data(v).i2c_stop() == self.i2c_stop(),
            self.with_nack_data(v).tx_underflow() == self.tx_underflow(),
            self.with_nack_data(v).rx_underflow() == self.rx_underflow(),
            self.with_nack_data(v).tx_ready() == self.tx_ready(),
            self.with_nack_data(v).rx_ready() == self.rx_ready(),
            self.with_nack_data(v).tx_empty() == self.tx_empty(),
            self.with_nack_data(v).rx_full() == self.rx_full(),
    {
        lemma_set_bit_get_bit(self.raw, 6, v, 0);
        lemma_set_bit_get_bit(self.raw, 6, v, 1);
        lemma_set_bit_get_bit(self.raw, 6, v, 2);
        lemma_set_bit_get_bit(self.raw, 6, v, 3);
        lemma_set_bit_get_bit(self.raw, 6, v, 4);
        lemma_set_bit_get_bit(self.raw, 6, v, 5);
        lemma_set_bit_get_bit(self.raw, 6, v, 6);
        lemma_set_bit_get_bit(self.raw, 6, v, 7);
        lemma_set_bit_get_bit(self.raw, 6, v, 8);
        lemma_set_bit_get_bit(self.raw, 6, v, 9);
        lemma_set_bit_get_bit(self.raw, 6, v, 10);
        lemma_set_bit_get_bit(self.raw, 6, v, 11);
        lemma_set_bit_get_bit(self.raw, 6, v, 12);
        lemma_set_bit_get_bit(self.raw, 6, v, 13);
        lemma_set_bit_get_bit(self.raw, 6, v, 14);
        lemma_set_bit_get_bit(self.raw, 6, v, 15);
    }

    /// After `rx_data_first` is set, it reads as what was set and every other field as before.
    pub proof fn lemma_with_rx_data_first(self, v: bool)
        ensures
            self.with_rx_data_first(v).completed() == self.completed(),
            self.with_rx_data_first(v).idle() == self.idle(),
            self.with_rx_data_first(v).waiting() == self.waiting(),
            self.with_rx_data_first(v).tx_stalled() == self.tx_stalled(),
            self.with_rx_data_first(v).rx_stalled() == self.rx_stalled(),
            self.with_rx_data_first(v).address_match() == self.address_match(),
            self.with_rx_data_first(v).nack_data() == self.nack_data(),
            self.with_rx_data_first(v).rx_data_first() == v,
            self.with_rx_data_first(v).i2c_start() == self.i2c_start(),
            self.with_rx_data_first(v).i2c_stop() == self.i2c_stop(),
            self.with_rx_data_first(v).tx_underflow() == self.tx_underflow(),
            self.with_rx_data_first(v).rx_underflow() == self.rx_underflow(),
            self.with_rx_data_first(v).tx_ready() == self.tx_ready(),
            self.with_rx_data_first(v).rx_ready() == self.rx_ready(),
            self.with_rx_data_first(v).tx_empty() == self.tx_empty(),
            self.with_rx_data_first(v).rx_full() == self.rx_full(),
    {
        lemma_set_bit_get_bit(self.raw, 7, v, 0);
        lemma_set_bit_get_bit(self.raw, 7, v, 1);
        lemma_set_bit_get_bit(self.raw, 7, v, 2);
        lemma_set_bit_get_bit(self.raw, 7, v, 3);
        lemma_set_bit_get_bit(self.raw, 7, v, 4);
        lemma_set_bit_get_bit(self.raw, 7, v, 5);
        lemma_set_bit_get_bit(self.raw, 7, v, 6);
        lemma_set_bit_get_bit(self.raw, 7, v, 7);
        lemma_set_bit_get_bit(self.raw, 7, v, 8);
        lemma_set_bit_get_bit(self.raw, 7, v, 9);
        lemma_set_bit_get_bit(self.raw, 7, v, 10);
        lemma_set_bit_get_bit(self.raw, 7, v, 11);
        lemma_set_bit_get_bit(self.raw, 7, v, 12);
        lemma_set_bit_get_bit(self.raw, 7, v, 13);
        lemma_set_bit_get_bit(self.raw, 7, v, 14);
        lemma_set_bit_get_bit(self.raw, 7, v, 15);
    }

    /// After `i2c_start` is set, it reads as what was set and every other field as before.
    pub proof fn lemma_with_i2c_start(self, v: bool)
        ensures
            self.with_i2c_start(v).completed() == self.completed(),
            self.with_i2c_start(v).idle() == self.idle(),
            self.with_i2c_start(v).waiting() == self.waiting(),
            self.with_i2c_start(v).tx_stalled() == self.tx_stalled(),
            self.with_i2c_start(v).rx_stalled() == self.rx_stalled(),
            self.with_i2c_start(v).address_match() == self.address_match(),
            self.with_i2c_start(v).nack_data() == self.nack_data(),
            self.with_i2c_start(v).rx_data_first() == self.rx_data_first(),
            self.with_i2c_start(v).i2c_start() == v,
            self.with_i2c_start(v).i2c_stop() == self.i2c_stop(),
            self.with_i2c_start(v).tx_underflow() == self.tx_underflow(),
            self.with_i2c_start(v).rx_underflow() == self.rx_underflow(),
            self.with_i2c_start(v).tx_ready() == self.tx_ready(),
            self.with_i2c_start(v).rx_ready() == self.rx_ready(),
            self.with_i2c_start(v).tx_empty() == self.tx_empty(),
            self.with_i2c_start(v).rx_full() == self.rx_full(),
    {
        lemma_set_bit_get_bit(self.raw, 8, v, 0);
        lemma_set_bit_get_bit(self.raw, 8, v, 1);
        lemma_set_bit_get_bit(self.raw, 8, v, 2);
        lemma_set_bit_get_bit(self.raw, 8, v, 3);
        lemma_set_bit_get_bit(self.raw, 8, v, 4);
        lemma_set_bit_get_bit(self.raw, 8, v, 5);
        lemma_set_bit_get_bit(self.raw, 8, v, 6);
        lemma_set_bit_get_bit(self.raw, 8, v, 7);
        lemma_set_bit_get_bit(self.raw, 8, v, 8);
        lemma_set_bit_get_bit(self.raw, 8, v, 9);
        lemma_set_bit_get_bit(self.raw, 8, v, 10);
        lemma_set_bit_get_bit(self.raw, 8, v, 11);
        lemma_set_bit_get_bit(self.raw, 8, v, 12);
        lemma_set_bit_get_bit(self.raw, 8, v, 13);
        lemma_set_bit_get_bit(self.raw, 8, v, 14);
        lemma_set_bit_get_bit(self.raw, 8, v, 15);
    }

    /// After `i2c_stop` is set, it reads as what was set and every other field as before.
    pub proof fn lemma_with_i2c_stop(self, v: bool)
        ensures
            self.with_i2c_stop(v).completed() == self.completed(),
            self.with_i2c_stop(v).idle() == self.idle(),
            self.with_i2c_stop(v).waiting() == self.waiting(),
            self.with_i2c_stop(v).tx_stalled() == self.tx_stalled(),
            self.with_i2c_stop(v).rx_stalled() == self.rx_stalled(),
            self.with_i2c_stop(v).address_match() == self.address_match(),
            self.with_i2c_stop(v).nack_data() == self.nack_data(),
            self.with_i2c_stop(v).rx_data_first() == self.rx_data_first(),
            self.with_i2c_stop(v).i2c_start() == self.i2c_start(),
            self.with_i2c_stop(v).i2c_stop() == v,
            self.with_i2c_stop(v).tx_underflow() == self.tx_underflow(),
            self.with_i2c_stop(v).rx_underflow() == self.rx_underflow(),
            self.with_i2c_stop(v).tx_ready() == self.tx_ready(),
            self.with_i2c_stop(v).rx_ready() == self.rx_ready(),
            self.with_i2c_stop(v).tx_empty() == self.tx_empty(),
            self.with_i2c_stop(v).rx_full() == self.rx_full(),
    {
        lemma_set_bit_get_bit(self.raw, 9, v, 0);
        lemma_set_bit_get_bit(self.raw, 9, v, 1);
        lemma_set_bit_get_bit(self.raw, 9, v, 2);
        lemma_set_bit_get_bit(self.raw, 9, v, 3);
        lemma_set_bit_get_bit(self.raw, 9, v, 4);
        lemma_set_bit_get_bit(self.raw, 9, v, 5);
        lemma_set_bit_get_bit(self.raw, 9, v, 6);
        lemma_set_bit_get_bit(self.raw, 9, v, 7);
        lemma_set_bit_get_bit(self.raw, 9, v, 8);
        lemma_set_bit_get_bit(self.raw, 9, v, 9);
        lemma_set_bit_get_bit(self.raw, 9, v, 10);
        lemma_set_bit_get_bit(self.raw, 9, v, 11);
        lemma_set_bit_get_bit(self.raw, 9, v, 12);
        lemma_set_bit_get_bit(self.raw, 9, v, 13);
        lemma_set_bit_get_bit(self.raw, 9, v, 14);
        lemma_set_bit_get_bit(self.raw, 9, v, 15);
    }

    /// After `tx_underflow` is set, it reads as what was set and every other field as before.
    pub proof fn lemma_with_tx_underflow(self, v: bool)
        ensures
            self.with_tx_underflow(v).completed() == self.completed(),
            self.with_tx_underflow(v).idle() == self.idle(),
            self.with_tx_underflow(v).waiting() == self.waiting(),
            self.with_tx_underflow(v).tx_stalled() == self.tx_stalled(),
            self.with_tx_underflow(v).rx_stalled() == self.rx_stalled(),
            self.with_tx_underflow(v).address_match() == self.address_match(),
            self.with_tx_underflow(v).nack_data() == self.nack_data(),
            self.with_tx_underflow(v).rx_data_first() == self.rx_data_first(),
            self.with_tx_underflow(v).i2c_start() == self.i2c_start(),
            self.with_tx_underflow(v).i2c_stop() == self.i2c_stop(),
            self.with_tx_underflow(v).tx_underflow() == v,
            self.with_tx_underflow(v).rx_underflow() == self.rx_underflow(),
            self.with_tx_underflow(v).tx_ready() == self.tx_ready(),
            self.with_tx_underflow(v).rx_ready() == self.rx_ready(),
            self.with_tx_underflow(v).tx_empty() == self.tx_empty(),
            self.with_tx_underflow(v).rx_full() == self.rx_full(),
    {
        lemma_set_bit_get_bit(self.raw, 10, v, 0);
        lemma_set_bit_get_bit(self.raw, 10, v, 1);
        lemma_set_bit_get_bit(self.raw, 10, v, 2);
        lemma_set_bit_get_bit(self.raw, 10, v, 3);
        lemma_set_bit_get_bit(self.raw, 10, v, 4);
        lemma_set_bit_get_bit(self.raw, 10, v, 5);
        lemma_set_bit_get_bit(self.raw, 10, v, 6);
        lemma_set_bit_get_bit(self.raw, 10, v, 7);
        lemma_set_bit_get_bit(self.raw, 10, v, 8);
        lemma_set_bit_get_bit(self.raw, 10, v, 9);
        lemma_set_bit_get_bit(self.raw, 10, v, 10);
        lemma_set_bit_get_bit(self.raw, 10, v, 11);
        lemma_set_bit_get_bit(self.raw, 10, v, 12);
        lemma_set_bit_get_bit(self.raw, 10, v, 13);
        lemma_set_bit_get_bit(self.raw, 10, v, 14);
        lemma_set_bit_get_bit(self.raw, 10, v, 15);
    }

    /// After `rx_underflow` is set, it reads as what was set and every other field as before.
    pub proof fn lemma_with_rx_underflow(self, v: bool)
        ensures
            self.with_rx_underflow(v).completed() == self.completed(),
            self.with_rx_underflow(v).idle() == self.idle(),
            self.with_rx_underflow(v).waiting() == self.waiting(),
            self.with_rx_underflow(v).tx_stalled() == self.tx_stalled(),
            self.with_rx_underflow(v).rx_stalled() == self.rx_stalled(),
            self.with_rx_underflow(v).address_match() == self.address_match(),
            self.with_rx_underflow(v).nack_data() == self.nack_data(),
            self.with_rx_underflow(v).rx_data_first() == self.rx_data_first(),
            self.with_rx_underflow(v).i2c_start() == self.i2c_start(),
            self.with_rx_underflow(v).i2c_stop() == self.i2c_stop(),
            self.with_rx_underflow(v).tx_underflow() == self.tx_underflow(),
            self.with_rx_underflow(v).rx_underflow() == v,
            self.with_rx_underflow(v).tx_ready() == self.tx_ready(),
            self.with_rx_underflow(v).rx_ready() == self.rx_ready(),
            self.with_rx_underflow(v).tx_empty() == self.tx_empty(),
            self.with_rx_underflow(v).rx_full() == self.rx_full(),
    {
        lemma_set_bit_get_bit(self.raw, 11, v, 0);
        lemma_set_bit_get_bit(self.raw, 11, v, 1);
        lemma_set_bit_get_bit(self.raw, 11, v, 2);
        lemma_set_bit_get_bit(self.raw, 11, v, 3);
        lemma_set_bit_get_bit(self.raw, 11, v, 4);
        lemma_set_bit_get_bit(self.raw, 11, v, 5);
        lemma_set_bit_get_bit(self.raw, 11, v, 6);
        lemma_set_bit_get_bit(self.raw, 11, v, 7);
        lemma_set_bit_get_bit(self.raw, 11, v, 8);
        lemma_set_bit_get_bit(self.raw, 11, v, 9);
        lemma_set_bit_get_bit(self.raw, 11, v, 10);
        lemma_set_bit_get_bit(self.raw, 11, v, 11);
        lemma_set_bit_get_bit(self.raw, 11, v, 12);
        lemma_set_bit_get_bit(self.raw, 11, v, 13);
        lemma_set_bit_get_bit(self.raw, 11, v, 14);
        lemma_set_bit_get_bit(self.raw, 11, v, 15);
    }

    /// After `tx_ready` is set, it reads as what was set and every other field as before.
    pub proof fn lemma_with_tx_ready(self, v: bool)
        ensures
            self.with_tx_ready(v).completed() == self.completed(),
            self.with_tx_ready(v).idle() == self.idle(),
            self.with_tx_ready(v).waiting() == self.waiting(),
            self.with_tx_ready(v).tx_stalled() == self.tx_stalled(),
            self.with_tx_ready(v).rx_stalled() == self.rx_stalled(),
            self.with_tx_ready(v).address_match() == self.address_match(),
            self.with_tx_ready(v).nack_data() == self.nack_data(),
            self.with_tx_ready(v).rx_data_first() == self.rx_data_first(),
            self.with_tx_ready(v).i2c_start() == self.i2c_start(),
            self.with_tx_ready(v).i2c_stop() == self.i2c_stop(),
            self.with_tx_ready(v).tx_underflow() == self.tx_underflow(),
            self.with_tx_ready(v).rx_underflow() == self.rx_underflow(),
            self.with_tx_ready(v).tx_ready() == v,
            self.with_tx_ready(v).rx_ready() == self.rx_ready(),
            self.with_tx_ready(v).tx_empty() == self.tx_empty(),
            self.with_tx_ready(v).rx_full() == self.rx_full(),
    {
        lemma_set_bit_get_bit(self.raw, 12, v, 0);
        lemma_set_bit_get_bit(self.raw, 12, v, 1);
        lemma_set_bit_get_bit(self.raw, 12, v, 2);
        lemma_set_bit_get_bit(self.raw, 12, v, 3);
        lemma_set_bit_get_bit(self.raw, 12, v, 4);
        lemma_set_bit_get_bit(self.raw, 12, v, 5);
        lemma_set_bit_get_bit(self.raw, 12, v, 6);
        lemma_set_bit_get_bit(self.raw, 12, v, 7);
        lemma_set_bit_get_bit(self.raw, 12, v, 8);
        lemma_set_bit_get_bit(self.raw, 12, v, 9);
        lemma_set_bit_get_bit(self.raw, 12, v, 10);
        lemma_set_bit_get_bit(self.raw, 12, v, 11);
        lemma_set_bit_get_bit(self.raw, 12, v, 12);
        lemma_set_bit_get_bit(self.raw, 12, v, 13);
        lemma_set_bit_get_bit(self.raw, 12, v, 14);
        lemma_set_bit_get_bit(self.raw, 12, v, 15);
    }

    /// After `rx_ready` is set, it reads as what was set and every other field as before.
    pub proof fn lemma_with_rx_ready(self, v: bool)
        ensures
            self.with_rx_ready(v).completed() == self.completed(),
            self.with_rx_ready(v).idle() == self.idle(),
            self.with_rx_ready(v).waiting() == self.waiting(),
            self.with_rx_ready(v).tx_stalled() == self.tx_stalled(),
            self.with_rx_ready(v).rx_stalled() == self.rx_stalled(),
            self.with_rx_ready(v).address_match() == self.address_match(),
            self.with_rx_ready(v).nack_data() == self.nack_data(),
            self.with_rx_ready(v).rx_data_first() == self.rx_data_first(),
            self.with_rx_ready(v).i2c_start() == self.i2c_start(),
            self.with_rx_ready(v).i2c_stop() == self.i2c_stop(),
            self.with_rx_ready(v).tx_underflow() == self.tx_underflow(),
            self.with_rx_ready(v).rx_underflow() == self.rx_underflow(),
            self.with_rx_ready(v).tx_ready() == self.tx_ready(),
            self.with_rx_ready(v).rx_ready() == v,
            self.with_rx_ready(v).tx_empty() == self.tx_empty(),
            self.with_rx_ready(v).rx_full() == self.rx_full(),
    {
        lemma_set_bit_get_bit(self.raw, 13, v, 0);
        lemma_set_bit_get_bit(self.raw, 13, v, 1);
        lemma_set_bit_get_bit(self.raw, 13, v, 2);
        lemma_set_bit_get_bit(self.raw, 13, v, 3);
        lemma_set_bit_get_bit(self.raw, 13, v, 4);
        lemma_set_bit_get_bit(self.raw, 13, v, 5);
        lemma_set_bit_get_bit(self.raw, 13, v, 6);
        lemma_set_bit_get_bit(self.raw, 13, v, 7);
        lemma_set_bit_get_bit(self.raw, 13, v, 8);
        lemma_set_bit_get_bit(self.raw, 13, v, 9);
        lemma_set_bit_get_bit(self.raw, 13, v, 10);
        lemma_set_bit_get_bit(self.raw, 13, v, 11);
        lemma_set_bit_get_bit(self.raw, 13, v, 12);
        lemma_set_bit_get_bit(self.raw, 13, v, 13);
        lemma_set_bit_get_bit(self.raw, 13, v, 14);
        lemma_set_bit_get_bit(self.raw, 13, v, 15);
    }

    /// After `tx_empty` is set, it reads as what was set and every other field as before.
    pub proof fn lemma_with_tx_empty(self, v: bool)
        ensures
            self.with_tx_empty(v).completed() == self.completed(),
            self.with_tx_empty(v).idle() == self.idle(),
            self.with_tx_empty(v).waiting() == self.waiting(),
            self.with_tx_empty(v).tx_stalled() == self.tx_stalled(),
            self.with_tx_empty(v).rx_stalled() == self.rx_stalled(),
            self.with_tx_empty(v).address_match() == self.address_match(),
            self.with_tx_empty(v).nack_data() == self.nack_data(),
            self.with_tx_empty(v).rx_data_first() == self.rx_data_first(),
            self.with_tx_empty(v).i2c_start() == self.i2c_start(),
            self.with_tx_empty(v).i2c_stop() == self.i2c_stop(),
            self.with_tx_empty(v).tx_underflow() == self.tx_underflow(),
            self.with_tx_empty(v).rx_underflow() == self.rx_underflow(),
            self.with_tx_empty(v).tx_ready() == self.tx_ready(),
            self.with_tx_empty(v).rx_ready() == self.rx_ready(),
            self.with_tx_empty(v).tx_empty() == v,
            self.with_tx_empty(v).rx_full() == self.rx_full(),
    {
        lemma_set_bit_get_bit(self.raw, 14, v, 0);
        lemma_set_bit_get_bit(self.raw, 14, v, 1);
        lemma_set_bit_get_bit(self.raw, 14, v, 2);
        lemma_set_bit_get_bit(self.raw, 14, v, 3);
        lemma_set_bit_get_bit(self.raw, 14, v, 4);
        lemma_set_bit_get_bit(self.raw, 14, v, 5);
        lemma_set_bit_get_bit(self.raw, 14, v, 6);
        lemma_set_bit_get_bit(self.raw, 14, v, 7);
        lemma_set_bit_get_bit(self.raw, 14, v, 8);
        lemma_set_bit_get_bit(self.raw, 14, v, 9);
        lemma_set_bit_get_bit(self.raw, 14, v, 10);
        lemma_set_bit_get_bit(self.raw, 14, v, 11);
        lemma_set_bit_get_bit(self.raw, 14, v, 12);
        lemma_set_bit_get_bit(self.raw, 14, v, 13);
        lemma_set_bit_get_bit(self.raw, 14, v, 14);
        lemma_set_bit_get_bit(self.raw, 14, v, 15);
    }

    /// After `rx_full` is set, it reads as what was set and every other field as before.
    pub proof fn lemma_with_rx_full(self, v: bool)
        ensures
            self.with_rx_full(v).completed() == self.completed(),
            self.with_rx_full(v).idle() == self.idle(),
            self.with_rx_full(v).waiting() == self.waiting(),
            self.with_rx_full(v).tx_stalled() == self.tx_stalled(),
            self.with_rx_full(v).rx_stalled() == self.rx_stalled(),
            self.with_rx_full(v).address_match() == self.address_match(),
            self.with_rx_full(v).nack_data() == self.nack_data(),
            self.with_rx_full(v).rx_data_first() == self.rx_data_first(),
            self.with_rx_full(v).i2c_start() == self.i2c_start(),
            self.with_rx_full(v).i2c_stop() == self.i2c_stop(),
            self.with_rx_full(v).tx_underflow() == self.tx_underflow(),
            self.with_rx_full(v).rx_underflow() == self.rx_underflow(),
            self.with_rx_full(v).tx_ready() == self.tx_ready(),
            self.with_rx_full(v).rx_ready() == self.rx_ready(),
            self.with_rx_full(v).tx_empty() == self.tx_empty(),
            self.with_rx_full(v).rx_full() == v,
    {
        lemma_set_bit_get_bit(self.raw, 15, v, 0);
        lemma_set_bit_get_bit(self.raw, 15, v, 1);
        lemma_set_bit_get_bit(self.raw, 15, v, 2);
        lemma_set_bit_get_bit(self.raw, 15, v, 3);
        lemma_set_bit_get_bit(self.raw, 15, v, 4);
        lemma_set_bit_get_bit(self.raw, 15, v, 5);
        lemma_set_bit_get_bit(self.raw, 15, v, 6);
        lemma_set_bit_get_bit(self.raw, 15, v, 7);
        lemma_set_bit_get_bit(self.raw, 15, v, 8);
        lemma_set_bit_get_bit(self.raw, 15, v, 9);
        lemma_set_bit_get_bit(self.raw, 15, v, 10);
        lemma_set_bit_get_bit(self.raw, 15, v, 11);
        lemma_set_bit_get_bit(self.raw, 15, v, 12);
        lemma_set_bit_get_bit(self.raw, 15, v, 13);
        lemma_set_bit_get_bit(self.raw, 15, v, 14);
        lemma_set_bit_get_bit(self.raw, 15, v, 15);
    }
}

/// An interrupt status register of an I2C slave.
#[derive(Debug, Clone, Copy, PartialEq, Eq, Structural)]
pub struct InterruptStatus {
    pub raw: u32,
}

impl InterruptStatus {
    /// The register value with the bits `raw`.
    #[verifier::allow_in_spec]
    pub fn new_with_raw_value(raw: u32) -> InterruptStatus
        returns
            (InterruptStatus { raw }),
    {
        InterruptStatus { raw }
    }

    /// The bits of the register value.
    #[verifier::allow_in_spec]
    pub fn raw_value(&self) -> u32
        returns
            self.raw,
    {
        self.raw
    }

    /// Bit 0 of the register.
    #[verifier::allow_in_spec]
    pub fn completed(&self) -> bool
        returns
            spec_get_bit(self.raw, 0),
    {
        get_bit(self.raw, 0)
    }

    /// The same value with `completed` replaced by `v`.
    #[verifier::allow_in_spec]
    pub fn with_completed(self, v: bool) -> InterruptStatus
        returns
            (InterruptStatus { raw: spec_set_bit(self.raw, 0, v) }),
    {
        InterruptStatus { raw: set_bit(self.raw, 0, v) }
    }

    /// Bit 1 of the register.
    #[verifier::allow_in_spec]
    pub fn idle(&self) -> bool
        returns
            spec_get_bit(self.raw, 1),
    {
        get_bit(self.raw, 1)
    }

    /// The same value with `idle` replaced by `v`.
    #[verifier::allow_in_spec]
    pub fn with_idle(self, v: bool) -> InterruptStatus
        returns
            (InterruptStatus { raw: spec_set_bit(self.raw, 1, v) }),
    {
        InterruptStatus { raw: set_bit(self.raw, 1, v) }
    }

    /// Bit 2 of the register.
    #[verifier::allow_in_spec]
    pub fn waiting(&self) -> bool
        returns
            spec_get_bit(self.raw, 2),
    {
        get_bit(self.raw, 2)
    }

    /// The same value with `waiting` replaced by `v`.
    #[verifier::allow_in_spec]
    pub fn with_waiting(self, v: bool) -> InterruptStatus
        returns
            (InterruptStatus { raw: spec_set_bit(self.raw, 2, v) }),
    {
        InterruptStatus { raw: set_bit(self.raw, 2, v) }
    }

    /// Bit 3 of the register.
    #[verifier::allow_in_spec]
    pub fn tx_stalled(&self) -> bool
        returns
            spec_get_bit(self.raw, 3),
    {
        get_bit(self.raw, 3)
    }

    /// The same value with `tx_stalled` replaced by `v`.
    #[verifier::allow_in_spec]
    pub fn with_tx_stalled(self, v: bool) -> InterruptStatus
        returns
            (InterruptStatus { raw: spec_set_bit(self.raw, 3, v) }),
    {
        InterruptStatus { raw: set_bit(self.raw, 3, v) }
    }

    /// Bit 4 of the register.
    #[verifier::allow_in_spec]
    pub fn rx_stalled(&self) -> bool
        returns
            spec_get_bit(self.raw, 4),
    {
        get_bit(self.raw, 4)
    }

    /// The same value with `rx_stalled` replaced by `v`.
    #[verifier::allow_in_spec]
    pub fn with_rx_stalled(self, v: bool) -> InterruptStatus
        returns
            (InterruptStatus { raw: spec_set_bit(self.raw, 4, v) }),
    {
        InterruptStatus { raw: set_bit(self.raw, 4, v) }
    }

    /// Bit 5 of the register.
    #[verifier::allow_in_spec]
    pub fn address_match(&self) -> bool
        returns
            spec_get_bit(self.raw, 5),
    {
        get_bit(self.raw, 5)
    }

    /// The same value with `address_match` replaced by `v`.
    #[verifier::allow_in_spec]
    pub fn with_address_match(self, v: bool) -> InterruptStatus
        returns
            (InterruptStatus { raw: spec_set_bit(self.raw, 5, v) }),
    {
        InterruptStatus { raw: set_bit(self.raw, 5, v) }
    }

    /// Bit 6 of the register.
    #[verifier::allow_in_spec]
    pub fn nack_data(&self) -> bool
        returns
            spec_get_bit(self.raw, 6),
    {
        get_bit(self.raw, 6)
    }

    /// The same value with `nack_data` replaced by `v`.
    #[verifier::allow_in_spec]
    pub fn with_nack_data(self, v: bool) -> InterruptStatus
        returns
            (InterruptStatus { raw: spec_set_bit(self.raw, 6, v) }),
    {
        InterruptStatus { raw: set_bit(self.raw, 6, v) }
    }

    /// Bit 7 of the register.
    #[verifier::allow_in_spec]
    pub fn rx_data_first(&self) -> bool
        returns
            spec_get_bit(self.raw, 7),
    {
        get_bit(self.raw, 7)
    }

    /// The same value with `rx_data_first` replaced by `v`.
    #[verifier::allow_in_spec]
    pub fn with_rx_data_first(self, v: bool) -> InterruptStatus
        returns
            (InterruptStatus { raw: spec_set_bit(self.raw, 7, v) }),
    {
        InterruptStatus { raw: set_bit(self.raw, 7, v) }
    }

    /// Bit 8 of the register.
    #[verifier::allow_in_spec]
    pub fn i2c_start(&self) -> bool
        returns
            spec_get_bit(self.raw, 8),
    {
        get_bit(self.raw, 8)
    }

    /// The same value with `i2c_start` replaced by `v`.
    #[verifier::allow_in_spec]
    pub fn with_i2c_start(self, v: bool) -> InterruptStatus
        returns
            (InterruptStatus { raw: spec_set_bit(self.raw, 8, v) }),
    {
        InterruptStatus { raw: set_bit(self.raw, 8, v) }
    }

    /// Bit 9 of the register.
    #[verifier::allow_in_spec]
    pub fn i2c_stop(&self) -> bool
        returns
            spec_get_bit(self.raw, 9),
    {
        get_bit(self.raw, 9)
    }

    /// The same value with `i2c_stop` replaced by `v`.
    #[verifier::allow_in_spec]
    pub fn with_i2c_stop(self, v: bool) -> InterruptStatus
        returns
            (InterruptStatus { raw: spec_set_bit(self.raw, 9, v) }),
    {
        InterruptStatus { raw: set_bit(self.raw, 9, v) }
    }

    /// Bit 10 of the register.
    #[verifier::allow_in_spec]
    pub fn tx_underflow(&self) -> bool
        returns
            spec_get_bit(self.raw, 10),
    {
        get_bit(self.raw, 10)
    }

    /// The same value with `tx_underflow` replaced by `v`.
    #[verifier::allow_in_spec]
    pub fn with_tx_underflow(self, v: bool) -> InterruptStatus
        returns
            (InterruptStatus { raw: spec_set_bit(self.raw, 10, v) }),
    {
        InterruptStatus { raw: set_bit(self.raw, 10, v) }
    }

    /// Bit 11 of the register.
    #[verifier::allow_in_spec]
    pub fn rx_underflow(&self) -> bool
        returns
            spec_get_bit(self.raw, 11),
    {
        get_bit(self.raw, 11)
    }

    /// The same value with `rx_underflow` replaced by `v`.
    #[verifier::allow_in_spec]
    pub fn with_rx_underflow(self, v: bool) -> InterruptStatus
        returns
            (InterruptStatus { raw: spec_set_bit(self.raw, 11, v) }),
    {
        InterruptStatus { raw: set_bit(self.raw, 11, v) }
    }

    /// Bit 12 of the register.
    #[verifier::allow_in_spec]
    pub fn tx_ready(&self) -> bool
        returns
            spec_get_bit(self.raw, 12),
    {
        get_bit(self.raw, 12)
    }

    /// The same value with `tx_ready` replaced by `v`.
    #[verifier::allow_in_spec]
    pub fn with_tx_ready(self, v: bool) -> InterruptStatus
        returns
            (InterruptStatus { raw: spec_set_bit(self.raw, 12, v) }),
    {
        InterruptStatus { raw: set_bit(self.raw, 12, v) }
    }

    /// Bit 13 of the register.
    #[verifier::allow_in_spec]
    pub fn rx_ready(&self) -> bool
        returns
            spec_get_bit(self.raw, 13),
    {
        get_bit(self.raw, 13)
    }

    /// The same value with `rx_ready` replaced by `v`.
    #[verifier::allow_in_spec]
    pub fn with_rx_ready(self, v: bool) -> InterruptStatus
        returns
            (InterruptStatus { raw: spec_set_bit(self.raw, 13, v) }),
    {
        InterruptStatus { raw: set_bit(self.raw, 13, v) }
    }

    /// Bit 14 of the register.
    #[verifier::allow_in_spec]
    pub fn tx_empty(&self) -> bool
        returns
            spec_get_bit(self.raw, 14),
    {
        get_bit(self.raw, 14)
    }

    /// The same value with `tx_empty` replaced by `v`.
    #[verifier::allow_in_spec]
    pub fn with_tx_empty(self, v: bool) -> InterruptStatus
        returns
            (InterruptStatus { raw: spec_set_bit(self.raw, 14, v) }),
    {
        InterruptStatus { raw: set_bit(self.raw, 14, v) }
    }

    /// Bit 15 of the register.
    #[verifier::allow_in_spec]
    pub fn rx_full(&self) -> bool
        returns
            spec_get_bit(self.raw, 15),
    {
        get_bit(self.raw, 15)
    }

    /// The same value with `rx_full` replaced by `v`.
    #[verifier::allow_in_spec]
    pub fn with_rx_full(self, v: bool) -> InterruptStatus
        returns
            (InterruptStatus { raw: spec_set_bit(self.raw, 15, v) }),
    {
        InterruptStatus { raw: set_bit(self.raw, 15, v) }
    }

    /// After `completed` is set, it reads as what was set and every other field as before.
    pub proof fn lemma_with_completed(self, v: bool)
        ensures
            self.with_completed(v).completed() == v,
            self.with_completed(v).idle() == self.idle(),
            self.with_completed(v).waiting() == self.waiting(),
            self.with_completed(v).tx_stalled() == self.tx_stalled(),
            self.with_completed(v).rx_stalled() == self.rx_stalled(),
            self.with_completed(v).address_match() == self.address_match(),
            self.with_completed(v).nack_data() == self.nack_data(),
            self.with_completed(v).rx_data_first() == self.rx_data_first(),
            self.with_completed(v).i2c_start() == self.i2c_start(),
            self.with_completed(v).i2c_stop() == self.i2c_stop(),
            self.with_completed(v).tx_underflow() == self.tx_underflow(),
            self.with_completed(v).rx_underflow() == self.rx_underflow(),
            self.with_completed(v).tx_ready() == self.tx_ready(),
            self.with_completed(v).rx_ready() == self.rx_ready(),
            self.with_completed(v).tx_empty() == self.tx_empty(),
            self.with_completed(v).rx_full() == self.rx_full(),
    {
        lemma_set_bit_get_bit(self.raw, 0, v, 0);
        lemma_set_bit_get_bit(self.raw, 0, v, 1);
        lemma_set_bit_get_bit(self.raw, 0, v, 2);
        lemma_set_bit_get_bit(self.raw, 0, v, 3);
        lemma_set_bit_get_bit(self.raw, 0, v, 4);
        lemma_set_bit_get_bit(self.raw, 0, v, 5);
        lemma_set_bit_get_bit(self.raw, 0, v, 6);
        lemma_set_bit_get_bit(self.raw, 0, v, 7);
        lemma_set_bit_get_bit(self.raw, 0, v, 8);
        lemma_set_bit_get_bit(self.raw, 0, v, 9);
        lemma_set_bit_get_bit(self.raw, 0, v, 10);
        lemma_set_bit_get_bit(self.raw, 0, v, 11);
        lemma_set_bit_get_bit(self.raw, 0, v, 12);
        lemma_set_bit_get_bit(self.raw, 0, v, 13);
        lemma_set_bit_get_bit(self.raw, 0, v, 14);
        lemma_set_bit_get_bit(self.raw, 0, v, 15);
    }

    /// After `idle` is set, it reads as what was set and every other field as before.
    pub proof fn lemma_with_idle(self, v: bool)
        ensures
            self.with_idle(v).completed() == self.completed(),
            self.with_idle(v).idle() == v,
            self.with_idle(v).waiting() == self.waiting(),
            self.with_idle(v).tx_stalled() == self.tx_stalled(),
            self.with_idle(v).rx_stalled() == self.rx_stalled(),
            self.with_idle(v).address_match() == self.address_match(),
            self.with_idle(v).nack_data() == self.nack_data(),
            self.with_idle(v).rx_data_first() == self.rx_data_first(),
            self.with_idle(v).i2c_start() == self.i2c_start(),
            self.with_idle(v).i2c_stop() == self.i2c_stop(),
            self.with_idle(v).tx_underflow() == self.tx_underflow(),
            self.with_idle(v).rx_underflow() == self.rx_underflow(),
            self.with_idle(v).tx_ready() == self.tx_ready(),
            self.with_idle(v).rx_ready() == self.rx_ready(),
            self.with_idle(v).tx_empty() == self.tx_empty(),
            self.with_idle(v).rx_full() == self.rx_full(),
    {
        lemma_set_bit_get_bit(self.raw, 1, v, 0);
        lemma_set_bit_get_bit(self.raw, 1, v, 1);
        lemma_set_bit_get_bit(self.raw, 1, v, 2);
        lemma_set_bit_get_bit(self.raw, 1, v, 3);
        lemma_set_bit_get_bit(self.raw, 1, v, 4);
        lemma_set_bit_get_bit(self.raw, 1, v, 5);
        lemma_set_bit_get_bit(self.raw, 1, v, 6);
        lemma_set_bit_get_bit(self.raw, 1, v, 7);
        lemma_set_bit_get_bit(self.raw, 1, v, 8);
        lemma_set_bit_get_bit(self.raw, 1, v, 9);
        lemma_set_bit_get_bit(self.raw, 1, v, 10);
        lemma_set_bit_get_bit(self.raw, 1, v, 11);
        lemma_set_bit_get_bit(self.raw, 1, v, 12);
        lemma_set_bit_get_bit(self.raw, 1, v, 13);
        lemma_set_bit_get_bit(self.raw, 1, v, 14);
        lemma_set_bit_get_bit(self.raw, 1, v, 15);
    }

    /// After `waiting` is set, it reads as what was set and every other field as before.
    pub proof fn lemma_with_waiting(self, v: bool)
        ensures
            self.with_waiting(v).completed() == self.completed(),
            self.with_waiting(v).idle() == self.idle(),
            self.with_waiting(v).waiting() == v,
            self.with_waiting(v).tx_stalled() == self.tx_stalled(),
            self.with_waiting(v).rx_stalled() == self.rx_stalled(),
            self.with_waiting(v).address_match() == self.address_match(),
            self.with_waiting(v).nack_data() == self.nack_data(),
            self.with_waiting(v).rx_data_first() == self.rx_data_first(),
            self.with_waiting(v).i2c_start() == self.i2c_start(),
            self.with_waiting(v).i2c_stop() == self.i2c_stop(),
            self.with_waiting(v).tx_underflow() == self.tx_underflow(),
            self.with_waiting(v).rx_underflow() == self.rx_underflow(),
            self.with_waiting(v).tx_ready() == self.tx_ready(),
            self.with_waiting(v).rx_ready() == self.rx_ready(),
            self.with_waiting(v).tx_empty() == self.tx_empty(),
            self.with_waiting(v).rx_full() == self.rx_full(),
    {
        lemma_set_bit_get_bit(self.raw, 2, v, 0);
        lemma_set_bit_get_bit(self.raw, 2, v, 1);
        lemma_set_bit_get_bit(self.raw, 2, v, 2);
        lemma_set_bit_get_bit(self.raw, 2, v, 3);
        lemma_set_bit_get_bit(self.raw, 2, v, 4);
        lemma_set_bit_get_bit(self.raw, 2, v, 5);
        lemma_set_bit_get_bit(self.raw, 2, v, 6);
        lemma_set_bit_get_bit(self.raw, 2, v, 7);
        lemma_set_bit_get_bit(self.raw, 2, v, 8);
        lemma_set_bit_get_bit(self.raw, 2, v, 9);
        lemma_set_bit_get_bit(self.raw, 2, v, 10);
        lemma_set_bit_get_bit(self.raw, 2, v, 11);
        lemma_set_bit_get_bit(self.raw, 2, v, 12);
        lemma_set_bit_get_bit(self.raw, 2, v, 13);
        lemma_set_bit_get_bit(self.raw, 2, v, 14);
        lemma_set_bit_get_bit(self.raw, 2, v, 15);
    }

    /// After `tx_stalled` is set, it reads as what was set and every other field as before.
    pub proof fn lemma_with_tx_stalled(self, v: bool)
        ensures
            self.with_tx_stalled(v).completed() == self.completed(),
            self.with_tx_stalled(v).idle() == self.idle(),
            self.with_tx_stalled(v).waiting() == self.waiting(),
            self.with_tx_stalled(v).tx_stalled() == v,
            self.with_tx_stalled(v).rx_stalled() == self.rx_stalled(),
            self.with_tx_stalled(v).address_match() == self.address_match(),
            self.with_tx_stalled(v).nack_data() == self.nack_data(),
            self.with_tx_stalled(v).rx_data_first() == self.rx_data_first(),
            self.with_tx_stalled(v).i2c_start() == self.i2c_start(),
            self.with_tx_stalled(v).i2c_stop() == self.i2c_stop(),
            self.with_tx_stalled(v).tx_underflow() == self.tx_underflow(),
            self.with_tx_stalled(v).rx_underflow() == self.rx_underflow(),
            self.with_tx_stalled(v).tx_ready() == self.tx_ready(),
            self.with_tx_stalled(v).rx_ready() == self.rx_ready(),
            self.with_tx_stalled(v).tx_empty() == self.tx_empty(),
            self.with_tx_stalled(v).rx_full() == self.rx_full(),
    {
        lemma_set_bit_get_bit(self.raw, 3, v, 0);
        lemma_set_bit_get_bit(self.raw, 3, v, 1);
        lemma_set_bit_get_bit(self.raw, 3, v, 2);
        lemma_set_bit_get_bit(self.raw, 3, v, 3);
        lemma_set_bit_get_bit(self.raw, 3, v, 4);
        lemma_set_bit_get_bit(self.raw, 3, v, 5);
        lemma_set_bit_get_bit(self.raw, 3, v, 6);
        lemma_set_bit_get_bit(self.raw, 3, v, 7);
        lemma_set_bit_get_bit(self.raw, 3, v, 8);
        lemma_set_bit_get_bit(self.raw, 3, v, 9);
        lemma_set_bit_get_bit(self.raw, 3, v, 10);
        lemma_set_bit_get_bit(self.raw, 3, v, 11);
        lemma_set_bit_get_bit(self.raw, 3, v, 12);
        lemma_set_bit_get_bit(self.raw, 3, v, 13);
        lemma_set_bit_get_bit(self.raw, 3, v, 14);
        lemma_set_bit_get_bit(self.raw, 3, v, 15);
    }

    /// After `rx_stalled` is set, it reads as what was set and every other field as before.
    pub proof fn lemma_with_rx_stalled(self, v: bool)
        ensures
            self.with_rx_stalled(v).completed() == self.completed(),
            self.with_rx_stalled(v).idle() == self.idle(),
            self.with_rx_stalled(v).waiting() == self.waiting(),
            self.with_rx_stalled(v).tx_stalled() == self.tx_stalled(),
            self.with_rx_stalled(v).rx_stalled() == v,
            self.with_rx_stalled(v).address_match() == self.address_match(),
            self.with_rx_stalled(v).nack_data() == self.nack_data(),
            self.with_rx_stalled(v).rx_data_first() == self.rx_data_first(),
            self.with_rx_stalled(v).i2c_start() == self.i2c_start(),
            self.with_rx_stalled(v).i2c_stop() == self.i2c_stop(),
            self.with_rx_stalled(v).tx_underflow() == self.tx_underflow(),
            self.with_rx_stalled(v).rx_underflow() == self.rx_underflow(),
            self.with_rx_stalled(v).tx_ready() == self.tx_ready(),
            self.with_rx_stalled(v).rx_ready() == self.rx_ready(),
            self.with_rx_stalled(v).tx_empty() == self.tx_empty(),
            self.with_rx_stalled(v).rx_full() == self.rx_full(),
    {
        lemma_set_bit_get_bit(self.raw, 4, v, 0);
        lemma_set_bit_get_bit(self.raw, 4, v, 1);
        lemma_set_bit_get_bit(self.raw, 4, v, 2);
        lemma_set_bit_get_bit(self.raw, 4, v, 3);
        lemma_set_bit_get_bit(self.raw, 4, v, 4);
        lemma_set_bit_get_bit(self.raw, 4, v, 5);
        lemma_set_bit_get_bit(self.raw, 4, v, 6);
        lemma_set_bit_get_bit(self.raw, 4, v, 7);
        lemma_set_bit_get_bit(self.raw, 4, v, 8);
        lemma_set_bit_get_bit(self.raw, 4, v, 9);
        lemma_set_bit_get_bit(self.raw, 4, v, 10);
        lemma_set_bit_get_bit(self.raw, 4, v, 11);
        lemma_set_bit_get_bit(self.raw, 4, v, 12);
        lemma_set_bit_get_bit(self.raw, 4, v, 13);
        lemma_set_bit_get_bit(self.raw, 4, v, 14);
        lemma_set_bit_get_bit(self.raw, 4, v, 15);
    }

    /// After `address_match` is set, it reads as what was set and every other field as before.
    pub proof fn lemma_with_address_match(self, v: bool)
        ensures
            self.with_address_match(v).completed() == self.completed(),
            self.with_address_match(v).idle() == self.idle(),
            self.with_address_match(v).waiting() == self.waiting(),
            self.with_address_match(v).tx_stalled() == self.tx_stalled(),
            self.with_address_match(v).rx_stalled() == self.rx_stalled(),
            self.with_address_match(v).address_match() == v,
            self.with_address_match(v).nack_data() == self.nack_data(),
            self.with_address_match(v).rx_data_first() == self.rx_data_first(),
            self.with_address_match(v).i2c_start() == self.i2c_start(),
            self.with_address_match(v).i2c_stop() == self.i2c_stop(),
            self.with_address_match(v).tx_underflow() == self.tx_underflow(),
            self.with_address_match(v).rx_underflow() == self.rx_underflow(),
            self.with_address_match(v).tx_ready() == self.tx_ready(),
            self.with_address_match(v).rx_ready() == self.rx_ready(),
            self.with_address_match(v).tx_empty() == self.tx_empty(),
            self.with_address_match(v).rx_full() == self.rx_full(),
    {
        lemma_set_bit_get_bit(self.raw, 5, v, 0);
        lemma_set_bit_get_bit(self.raw, 5, v, 1);
        lemma_set_bit_get_bit(self.raw, 5, v, 2);
        lemma_set_bit_get_bit(self.raw, 5, v, 3);
        lemma_set_bit_get_bit(self.raw, 5, v, 4);
        lemma_set_bit_get_bit(self.raw, 5, v, 5);
        lemma_set_bit_get_bit(self.raw, 5, v, 6);
        lemma_set_bit_get_bit(self.raw, 5, v, 7);
        lemma_set_bit_get_bit(self.raw, 5, v, 8);
        lemma_set_bit_get_bit(self.raw, 5, v, 9);
        lemma_set_bit_get_bit(self.raw, 5, v, 10);
        lemma_set_bit_get_bit(self.raw, 5, v, 11);
        lemma_set_bit_get_bit(self.raw, 5, v, 12);
        lemma_set_bit_get_bit(self.raw, 5, v, 13);
        lemma_set_bit_get_bit(self.raw, 5, v, 14);
        lemma_set_bit_get_bit(self.raw, 5, v, 15);
    }

    /// After `nack_data` is set, it reads as what was set and every other field as before.
    pub proof fn lemma_with_nack_data(self, v: bool)
        ensures
            self.with_nack_data(v).completed() == self.completed(),
            self.with_nack_data(v).idle() == self.idle(),
            self.with_nack_data(v).waiting() == self.waiting(),
            self.with_nack_data(v).tx_stalled() == self.tx_stalled(),
            self.with_nack_data(v).rx_stalled() == self.rx_stalled(),
            self.with_nack_data(v).address_match() == self.address_match(),
            self.with_nack_data(v).nack_data() == v,
            self.with_nack_data(v).rx_data_first() == self.rx_data_first(),
            self.with_nack_data(v).i2c_start() == self.i2c_start(),
            self.with_nack_data(v).i2c_stop() == self.i2c_stop(),
            self.with_nack_data(v).tx_underflow() == self.tx_underflow(),
            self.with_nack_data(v).rx_underflow() == self.rx_underflow(),
            self.with_nack_data(v).tx_ready() == self.tx_ready(),
            self.with_nack_data(v).rx_ready() == self.rx_ready(),
            self.with_nack_data(v).tx_empty() == self.tx_empty(),
            self.with_nack_data(v).rx_full() == self.rx_full(),
    {
        lemma_set_bit_get_bit(self.raw, 6, v, 0);
        lemma_set_bit_get_bit(self.raw, 6, v, 1);
        lemma_set_bit_get_bit(self.raw, 6, v, 2);
        lemma_set_bit_get_bit(self.raw, 6, v, 3);
        lemma_set_bit_get_bit(self.raw, 6, v, 4);
        lemma_set_bit_get_bit(self.raw, 6, v, 5);
        lemma_set_bit_get_bit(self.raw, 6, v, 6);
        lemma_set_bit_get_bit(self.raw, 6, v, 7);
        lemma_set_bit_get_bit(self.raw, 6, v, 8);
        lemma_set_bit_get_bit(self.raw, 6, v, 9);
        lemma_set_bit_get_bit(self.raw, 6, v, 10);
        lemma_set_bit_get_bit(self.raw, 6, v, 11);
        lemma_set_bit_get_bit(self.raw, 6, v, 12);
        lemma_set_bit_get_bit(self.raw, 6, v, 13);
        lemma_set_bit_get_bit(self.raw, 6, v, 14);
        lemma_set_bit_get_bit(self.raw, 6, v, 15);
    }

    /// After `rx_data_first` is set, it reads as what was set and every other field as before.
    pub proof fn lemma_with_rx_data_first(self, v: bool)
        ensures
            self.with_rx_data_first(v).completed() == self.completed(),
            self.with_rx_data_first(v).idle() == self.idle(),
            self.with_rx_data_first(v).waiting() == self.waiting(),
            self.with_rx_data_first(v).tx_stalled() == self.tx_stalled(),
            self.with_rx_data_first(v).rx_stalled() == self.rx_stalled(),
            self.with_rx_data_first(v).address_match() == self.address_match(),
            self.with_rx_data_first(v).nack_data() == self.nack_data(),
            self.with_rx_data_first(v).rx_data_first() == v,
            self.with_rx_data_first(v).i2c_start() == self.i2c_start(),
            self.with_rx_data_first(v).i2c_stop() == self.i2c_stop(),
            self.with_rx_data_first(v).tx_underflow() == self.tx_underflow(),
            self.with_rx_data_first(v).rx_underflow() == self.rx_underflow(),
            self.with_rx_data_first(v).tx_ready() == self.tx_ready(),
            self.with_rx_data_first(v).rx_ready() == self.rx_ready(),
            self.with_rx_data_first(v).tx_empty() == self.tx_empty(),
            self.with_rx_data_first(v).rx_full() == self.rx_full(),
    {
        lemma_set_bit_get_bit(self.raw, 7, v, 0);
        lemma_set_bit_get_bit(self.raw, 7, v, 1);
        lemma_set_bit_get_bit(self.raw, 7, v, 2);
        lemma_set_bit_get_bit(self.raw, 7, v, 3);
        lemma_set_bit_get_bit(self.raw, 7, v, 4);
        lemma_set_bit_get_bit(self.raw, 7, v, 5);
        lemma_set_bit_get_bit(self.raw, 7, v, 6);
        lemma_set_bit_get_bit(self.raw, 7, v, 7);
        lemma_set_bit_get_bit(self.raw, 7, v, 8);
        lemma_set_bit_get_bit(self.raw, 7, v, 9);
        lemma_set_bit_get_bit(self.raw, 7, v, 10);
        lemma_set_bit_get_bit(self.raw, 7, v, 11);
        lemma_set_bit_get_bit(self.raw, 7, v, 12);
        lemma_set_bit_get_bit(self.raw, 7, v, 13);
        lemma_set_bit_get_bit(self.raw, 7, v, 14);
        lemma_set_bit_get_bit(self.raw, 7, v, 15);
    }

    /// After `i2c_start` is set, it reads as what was set and every other field as before.
    pub proof fn lemma_with_i2c_start(self, v: bool)
        ensures
            self.with_i2c_start(v).completed() == self.completed(),
            self.with_i2c_start(v).idle() == self.idle(),
            self.with_i2c_start(v).waiting() == self.waiting(),
            self.with_i2c_start(v).tx_stalled() == self.tx_stalled(),
            self.with_i2c_start(v).rx_stalled() == self.rx_stalled(),
            self.with_i2c_start(v).address_match() == self.address_match(),
            self.with_i2c_start(v).nack_data() == self.nack_data(),
            self.with_i2c_start(v).rx_data_first() == self.rx_data_first(),
            self.with_i2c_start(v).i2c_start() == v,
            self.with_i2c_start(v).i2c_stop() == self.i2c_stop(),
            self.with_i2c_start(v).tx_underflow() == self.tx_underflow(),
            self.with_i2c_start(v).rx_underflow() == self.rx_underflow(),
            self.with_i2c_start(v).tx_ready() == self.tx_ready(),
            self.with_i2c_start(v).rx_ready() == self.rx_ready(),
            self.with_i2c_start(v).tx_empty() == self.tx_empty(),
            self.with_i2c_start(v).rx_full() == self.rx_full(),
    {
        lemma_set_bit_get_bit(self.raw, 8, v, 0);
        lemma_set_bit_get_bit(self.raw, 8, v, 1);
        lemma_set_bit_get_bit(self.raw, 8, v, 2);
        lemma_set_bit_get_bit(self.raw, 8, v, 3);
        lemma_set_bit_get_bit(self.raw, 8, v, 4);
        lemma_set_bit_get_bit(self.raw, 8, v, 5);
        lemma_set_bit_get_bit(self.raw, 8, v, 6);
        lemma_set_bit_get_bit(self.raw, 8, v, 7);
        lemma_set_bit_get_bit(self.raw, 8, v, 8);
        lemma_set_bit_get_bit(self.raw, 8, v, 9);
        lemma_set_bit_get_bit(self.raw, 8, v, 10);
        lemma_set_bit_get_bit(self.raw, 8, v, 11);
        lemma_set_bit_get_bit(self.raw, 8, v, 12);
        lemma_set_bit_get_bit(self.raw, 8, v, 13);
        lemma_set_bit_get_bit(self.raw, 8, v, 14);
        lemma_set_bit_get_bit(self.raw, 8, v, 15);
    }

    /// After `i2c_stop` is set, it reads as what was set and every other field as before.
    pub proof fn lemma_with_i2c_stop(self, v: bool)
        ensures
            self.with_i2c_stop(v).completed() == self.completed(),
            self.with_i2c_stop(v).idle() == self.idle(),
            self.with_i2c_stop(v).waiting() == self.waiting(),
            self.with_i2c_stop(v).tx_stalled() == self.tx_stalled(),
            self.with_i2c_stop(v).rx_stalled() == self.rx_stalled(),
            self.with_i2c_stop(v).address_match() == self.address_match(),
            self.with_i2c_stop(v).nack_data() == self.nack_data(),
            self.with_i2c_stop(v).rx_data_first() == self.rx_data_first(),
            self.with_i2c_stop(v).i2c_start() == self.i2c_start(),
            self.with_i2c_stop(v).i2c_stop() == v,
            self.with_i2c_stop(v).tx_underflow() == self.tx_underflow(),
            self.with_i2c_stop(v).rx_underflow() == self.rx_underflow(),
            self.with_i2c_stop(v).tx_ready() == self.tx_ready(),
            self.with_i2c_stop(v).rx_ready() == self.rx_ready(),
            self.with_i2c_stop(v).tx_empty() == self.tx_empty(),
            self.with_i2c_stop(v).rx_full() == self.rx_full(),
    {
        lemma_set_bit_get_bit(self.raw, 9, v, 0);
        lemma_set_bit_get_bit(self.raw, 9, v, 1);
        lemma_set_bit_get_bit(self.raw, 9, v, 2);
        lemma_set_bit_get_bit(self.raw, 9, v, 3);
        lemma_set_bit_get_bit(self.raw, 9, v, 4);
        lemma_set_bit_get_bit(self.raw, 9, v, 5);
        lemma_set_bit_get_bit(self.raw, 9, v, 6);
        lemma_set_bit_get_bit(self.raw, 9, v, 7);
        lemma_set_bit_get_bit(self.raw, 9, v, 8);
        lemma_set_bit_get_bit(self.raw, 9, v, 9);
        lemma_set_bit_get_bit(self.raw, 9, v, 10);
        lemma_set_bit_get_bit(self.raw, 9, v, 11);
        lemma_set_bit_get_bit(self.raw, 9, v, 12);
        lemma_set_bit_get_bit(self.raw, 9, v, 13);
        lemma_set_bit_get_bit(self.raw, 9, v, 14);
        lemma_set_bit_get_bit(self.raw, 9, v, 15);
    }

    /// After `tx_underflow` is set, it reads as what was set and every other field as before.
    pub proof fn lemma_with_tx_underflow(self, v: bool)
        ensures
            self.with_tx_underflow(v).completed() == self.completed(),
            self.with_tx_underflow(v).idle() == self.idle(),
            self.with_tx_underflow(v).waiting() == self.waiting(),
            self.with_tx_underflow(v).tx_stalled() == self.tx_stalled(),
            self.with_tx_underflow(v).rx_stalled() == self.rx_stalled(),
            self.with_tx_underflow(v).address_match() == self.address_match(),
            self.with_tx_underflow(v).nack_data() == self.nack_data(),
            self.with_tx_underflow(v).rx_data_first() == self.rx_data_first(),
            self.with_tx_underflow(v).i2c_start() == self.i2c_start(),
            self.with_tx_underflow(v).i2c_stop() == self.i2c_stop(),
            self.with_tx_underflow(v).tx_underflow() == v,
            self.with_tx_underflow(v).rx_underflow() == self.rx_underflow(),
            self.with_tx_underflow(v).tx_ready() == self.tx_ready(),
            self.with_tx_underflow(v).rx_ready() == self.rx_ready(),
            self.with_tx_underflow(v).tx_empty() == self.tx_empty(),
            self.with_tx_underflow(v).rx_full() == self.rx_full(),
    {
        lemma_set_bit_get_bit(self.raw, 10, v, 0);
        lemma_set_bit_get_bit(self.raw, 10, v, 1);
        lemma_set_bit_get_bit(self.raw, 10, v, 2);
        lemma_set_bit_get_bit(self.raw, 10, v, 3);
        lemma_set_bit_get_bit(self.raw, 10, v, 4);
        lemma_set_bit_get_bit(self.raw, 10, v, 5);
        lemma_set_bit_get_bit(self.raw, 10, v, 6);
        lemma_set_bit_get_bit(self.raw, 10, v, 7);
        lemma_set_bit_get_bit(self.raw, 10, v, 8);
        lemma_set_bit_get_bit(self.raw, 10, v, 9);
        lemma_set_bit_get_bit(self.raw, 10, v, 10);
        lemma_set_bit_get_bit(self.raw, 10, v, 11);
        lemma_set_bit_get_bit(self.raw, 10, v, 12);
        lemma_set_bit_get_bit(self.raw, 10, v, 13);
        lemma_set_bit_get_bit(self.raw, 10, v, 14);
        lemma_set_bit_get_bit(self.raw, 10, v, 15);
    }

    /// After `rx_underflow` is set, it reads as what was set and every other field as before.
    pub proof fn lemma_with_rx_underflow(self, v: bool)
        ensures
            self.with_rx_underflow(v).completed() == self.completed(),
            self.with_rx_underflow(v).idle() == self.idle(),
            self.with_rx_underflow(v).waiting() == self.waiting(),
            self.with_rx_underflow(v).tx_stalled() == self.tx_stalled(),
            self.with_rx_underflow(v).rx_stalled() == self.rx_stalled(),
            self.with_rx_underflow(v).address_match() == self.address_match(),
            self.with_rx_underflow(v).nack_data() == self.nack_data(),
            self.with_rx_underflow(v).rx_data_first() == self.rx_data_first(),
            self.with_rx_underflow(v).i2c_start() == self.i2c_start(),
            self.with_rx_underflow(v).i2c_stop() == self.i2c_stop(),
            self.with_rx_underflow(v).tx_underflow() == self.tx_underflow(),
            self.with_rx_underflow(v).rx_underflow() == v,
            self.with_rx_underflow(v).tx_ready() == self.tx_ready(),
            self.with_rx_underflow(v).rx_ready() == self.rx_ready(),
            self.with_rx_underflow(v).tx_empty() == self.tx_empty(),
            self.with_rx_underflow(v).rx_full() == self.rx_full(),
    {
        lemma_set_bit_get_bit(self.raw, 11, v, 0);
        lemma_set_bit_get_bit(self.raw, 11, v, 1);
        lemma_set_bit_get_bit(self.raw, 11, v, 2);
        lemma_set_bit_get_bit(self.raw, 11, v, 3);
        lemma_set_bit_get_bit(self.raw, 11, v, 4);
        lemma_set_bit_get_bit(self.raw, 11, v, 5);
        lemma_set_bit_get_bit(self.raw, 11, v, 6);
        lemma_set_bit_get_bit(self.raw, 11, v, 7);
        lemma_set_bit_get_bit(self.raw, 11, v, 8);
        lemma_set_bit_get_bit(self.raw, 11, v, 9);
        lemma_set_bit_get_bit(self.raw, 11, v, 10);
        lemma_set_bit_get_bit(self.raw, 11, v, 11);
        lemma_set_bit_get_bit(self.raw, 11, v, 12);
        lemma_set_bit_get_bit(self.raw, 11, v, 13);
        lemma_set_bit_get_bit(self.raw, 11, v, 14);
        lemma_set_bit_get_bit(self.raw, 11, v, 15);
    }

    /// After `tx_ready` is set, it reads as what was set and every other field as before.
    pub proof fn lemma_with_tx_ready(self, v: bool)
        ensures
            self.with_tx_ready(v).completed() == self.completed(),
            self.with_tx_ready(v).idle() == self.idle(),
            self.with_tx_ready(v).waiting() == self.waiting(),
            self.with_tx_ready(v).tx_stalled() == self.tx_stalled(),
            self.with_tx_ready(v).rx_stalled() == self.rx_stalled(),
            self.with_tx_ready(v).address_match() == self.address_match(),
            self.with_tx_ready(v).nack_data() == self.nack_data(),
            self.with_tx_ready(v).rx_data_first() == self.rx_data_first(),
            self.with_tx_ready(v).i2c_start() == self.i2c_start(),
            self.with_tx_ready(v).i2c_stop() == self.i2c_stop(),
            self.with_tx_ready(v).tx_underflow() == self.tx_underflow(),
            self.with_tx_ready(v).rx_underflow() == self.rx_underflow(),
            self.with_tx_ready(v).tx_ready() == v,
            self.with_tx_ready(v).rx_ready() == self.rx_ready(),
            self.with_tx_ready(v).tx_empty() == self.tx_empty(),
            self.with_tx_ready(v).rx_full() == self.rx_full(),
    {
        lemma_set_bit_get_bit(self.raw, 12, v, 0);
        lemma_set_bit_get_bit(self.raw, 12, v, 1);
        lemma_set_bit_get_bit(self.raw, 12, v, 2);
        lemma_set_bit_get_bit(self.raw, 12, v, 3);
        lemma_set_bit_get_bit(self.raw, 12, v, 4);
        lemma_set_bit_get_bit(self.raw, 12, v, 5);
        lemma_set_bit_get_bit(self.raw, 12, v, 6);
        lemma_set_bit_get_bit(self.raw, 12, v, 7);
        lemma_set_bit_get_bit(self.raw, 12, v, 8);
        lemma_set_bit_get_bit(self.raw, 12, v, 9);
        lemma_set_bit_get_bit(self.raw, 12, v, 10);
        lemma_set_bit_get_bit(self.raw, 12, v, 11);
        lemma_set_bit_get_bit(self.raw, 12, v, 12);
        lemma_set_bit_get_bit(self.raw, 12, v, 13);
        lemma_set_bit_get_bit(self.raw, 12, v, 14);
        lemma_set_bit_get_bit(self.raw, 12, v, 15);
    }

    /// After `rx_ready` is set, it reads as what was set and every other field as before.
    pub proof fn lemma_with_rx_ready(self, v: bool)
        ensures
            self.with_rx_ready(v).completed() == self.completed(),
            self.with_rx_ready(v).idle() == self.idle(),
            self.with_rx_ready(v).waiting() == self.waiting(),
            self.with_rx_ready(v).tx_stalled() == self.tx_stalled(),
            self.with_rx_ready(v).rx_stalled() == self.rx_stalled(),
            self.with_rx_ready(v).address_match() == self.address_match(),
            self.with_rx_ready(v).nack_data() == self.nack_data(),
            self.with_rx_ready(v).rx_data_first() == self.rx_data_first(),
            self.with_rx_ready(v).i2c_start() == self.i2c_start(),
            self.with_rx_ready(v).i2c_stop() == self.i2c_stop(),
            self.with_rx_ready(v).tx_underflow() == self.tx_underflow(),
            self.with_rx_ready(v).rx_underflow() == self.rx_underflow(),
            self.with_rx_ready(v).tx_ready() == self.tx_ready(),
            self.with_rx_ready(v).rx_ready() == v,
            self.with_rx_ready(v).tx_empty() == self.tx_empty(),
            self.with_rx_ready(v).rx_full() == self.rx_full(),
    {
        lemma_set_bit_get_bit(self.raw, 13, v, 0);
        lemma_set_bit_get_bit(self.raw, 13, v, 1);
        lemma_set_bit_get_bit(self.raw, 13, v, 2);
        lemma_set_bit_get_bit(self.raw, 13, v, 3);
        lemma_set_bit_get_bit(self.raw, 13, v, 4);
        lemma_set_bit_get_bit(self.raw, 13, v, 5);
        lemma_set_bit_get_bit(self.raw, 13, v, 6);
        lemma_set_bit_get_bit(self.raw, 13, v, 7);
        lemma_set_bit_get_bit(self.raw, 13, v, 8);
        lemma_set_bit_get_bit(self.raw, 13, v, 9);
        lemma_set_bit_get_bit(self.raw, 13, v, 10);
        lemma_set_bit_get_bit(self.raw, 13, v, 11);
        lemma_set_bit_get_bit(self.raw, 13, v, 12);
        lemma_set_bit_get_bit(self.raw, 13, v, 13);
        lemma_set_bit_get_bit(self.raw, 13, v, 14);
        lemma_set_bit_get_bit(self.raw, 13, v, 15);
    }

    /// After `tx_empty` is set, it reads as what was set and every other field as before.
    pub proof fn lemma_with_tx_empty(self, v: bool)
        ensures
            self.with_tx_empty(v).completed() == self.completed(),
            self.with_tx_empty(v).idle() == self.idle(),
            self.with_tx_empty(v).waiting() == self.waiting(),
            self.with_tx_empty(v).tx_stalled() == self.tx_stalled(),
            self.with_tx_empty(v).rx_stalled() == self.rx_stalled(),
            self.with_tx_empty(v).address_match() == self.address_match(),
            self.with_tx_empty(v).nack_data() == self.nack_data(),
            self.with_tx_empty(v).rx_data_first() == self.rx_data_first(),
            self.with_tx_empty(v).i2c_start() == self.i2c_start(),
            self.with_tx_empty(v).i2c_stop() == self.i2c_stop(),
            self.with_tx_empty(v).tx_underflow() == self.tx_underflow(),
            self.with_tx_empty(v).rx_underflow() == self.rx_underflow(),
            self.with_tx_empty(v).tx_ready() == self.tx_ready(),
            self.with_tx_empty(v).rx_ready() == self.rx_ready(),
            self.with_tx_empty(v).tx_empty() == v,
            self.with_tx_empty(v).rx_full() == self.rx_full(),
    {
        lemma_set_bit_get_bit(self.raw, 14, v, 0);
        lemma_set_bit_get_bit(self.raw, 14, v, 1);
        lemma_set_bit_get_bit(self.raw, 14, v, 2);
        lemma_set_bit_get_bit(self.raw, 14, v, 3);
        lemma_set_bit_get_bit(self.raw, 14, v, 4);
        lemma_set_bit_get_bit(self.raw, 14, v, 5);
        lemma_set_bit_get_bit(self.raw, 14, v, 6);
        lemma_set_bit_get_bit(self.raw, 14, v, 7);
        lemma_set_bit_get_bit(self.raw, 14, v, 8);
        lemma_set_bit_get_bit(self.raw, 14, v, 9);
        lemma_set_bit_get_bit(self.raw, 14, v, 10);
        lemma_set_bit_get_bit(self.raw, 14, v, 11);
        lemma_set_bit_get_bit(self.raw, 14, v, 12);
        lemma_set_bit_get_bit(self.raw, 14, v, 13);
        lemma_set_bit_get_bit(self.raw, 14, v, 14);
        lemma_set_bit_get_bit(self.raw, 14, v, 15);
    }

    /// After `rx_full` is set, it reads as what was set and every other field as before.
    pub proof fn lemma_with_rx_full(self, v: bool)
        ensures
            self.with_rx_full(v).completed() == self.completed(),
            self.with_rx_full(v).idle() == self.idle(),
            self.with_rx_full(v).waiting() == self.waiting(),
            self.with_rx_full(v).tx_stalled() == self.tx_stalled(),
            self.with_rx_full(v).rx_stalled() == self.rx_stalled(),
            self.with_rx_full(v).address_match() == self.address_match(),
            self.with_rx_full(v).nack_data() == self.nack_data(),
            self.with_rx_full(v).rx_data_first() == self.rx_data_first(),
            self.with_rx_full(v).i2c_start() == self.i2c_start(),
            self.with_rx_full(v).i2c_stop() == self.i2c_stop(),
            self.with_rx_full(v).tx_underflow() == self.tx_underflow(),
            self.with_rx_full(v).rx_underflow() == self.rx_underflow(),
            self.with_rx_full(v).tx_ready() == self.tx_ready(),
            self.with_rx_full(v).rx_ready() == self.rx_ready(),
            self.with_rx_full(v).tx_empty() == self.tx_empty(),
            self.with_rx_full(v).rx_full() == v,
    {
        lemma_set_bit_get_bit(self.raw, 15, v, 0);
        lemma_set_bit_get_bit(self.raw, 15, v, 1);
        lemma_set_bit_get_bit(self.raw, 15, v, 2);
        lemma_set_bit_get_bit(self.raw, 15, v, 3);
        lemma_set_bit_get_bit(self.raw, 15, v, 4);
        lemma_set_bit_get_bit(self.raw, 15, v, 5);
        lemma_set_bit_get_bit(self.raw, 15, v, 6);
        lemma_set_bit_get_bit(self.raw, 15, v, 7);
        lemma_set_bit_get_bit(self.raw, 15, v, 8);
        lemma_set_bit_get_bit(self.raw, 15, v, 9);
        lemma_set_bit_get_bit(self.raw, 15, v, 10);
        lemma_set_bit_get_bit(self.raw, 15, v, 11);
        lemma_set_bit_get_bit(self.raw, 15, v, 12);
        lemma_set_bit_get_bit(self.raw, 15, v, 13);
        lemma_set_bit_get_bit(self.raw, 15, v, 14);
        lemma_set_bit_get_bit(self.raw, 15, v, 15);
    }
}

/// What is written to the interrupt clear register of an I2C slave.
#[derive(Debug, Clone, Copy, PartialEq, Eq, Structural)]
pub struct InterruptClear {
    pub raw: u32,
}

impl InterruptClear {
    /// The register value with the bits `raw`.
    #[verifier::allow_in_spec]
    pub fn new_with_raw_value(raw: u32) -> InterruptClear
        returns
            (InterruptClear { raw }),
    {
        InterruptClear { raw }
    }

    /// The bits of the register value.
    #[verifier::allow_in_spec]
    pub fn raw_value(&self) -> u32
        returns
            self.raw,
    {
        self.raw
    }

    /// Bit 0 of the register.
    #[verifier::allow_in_spec]
    pub fn completed(&self) -> bool
        returns
            spec_get_bit(self.raw, 0),
    {
        get_bit(self.raw, 0)
    }

    /// The same value with `completed` replaced by `v`.
    #[verifier::allow_in_spec]
    pub fn with_completed(self, v: bool) -> InterruptClear
        returns
            (InterruptClear { raw: spec_set_bit(self.raw, 0, v) }),
    {
        InterruptClear { raw: set_bit(self.raw, 0, v) }
    }

    /// Bit 1 of the register.
    #[verifier::allow_in_spec]
    pub fn idle(&self) -> bool
        returns
            spec_get_bit(self.raw, 1),
    {
        get_bit(self.raw, 1)
    }

    /// The same value with `idle` replaced by `v`.
    #[verifier::allow_in_spec]
    pub fn with_idle(self, v: bool) -> InterruptClear
        returns
            (InterruptClear { raw: spec_set_bit(self.raw, 1, v) }),
    {
        InterruptClear { raw: set_bit(self.raw, 1, v) }
    }

    /// Bit 2 of the register.
    #[verifier::allow_in_spec]
    pub fn waiting(&self) -> bool
        returns
            spec_get_bit(self.raw, 2),
    {
        get_bit(self.raw, 2)
    }

    /// The same value with `waiting` replaced by `v`.
    #[verifier::allow_in_spec]
    pub fn with_waiting(self, v: bool) -> InterruptClear
        returns
            (InterruptClear { raw: spec_set_bit(self.raw, 2, v) }),
    {
        InterruptClear { raw: set_bit(self.raw, 2, v) }
    }

    /// Bit 3 of the register.
    #[verifier::allow_in_spec]
    pub fn tx_stalled(&self) -> bool
        returns
            spec_get_bit(self.raw, 3),
    {
        get_bit(self.raw, 3)
    }

    /// The same value with `tx_stalled` replaced by `v`.
    #[verifier::allow_in_spec]
    pub fn with_tx_stalled(self, v: bool) -> InterruptClear
        returns
            (InterruptClear { raw: spec_set_bit(self.raw, 3, v) }),
    {
        InterruptClear { raw: set_bit(self.raw, 3, v) }
    }

    /// Bit 4 of the register.
    #[verifier::allow_in_spec]
    pub fn rx_stalled(&self) -> bool
        returns
            spec_get_bit(self.raw, 4),
    {
        get_bit(self.raw, 4)
    }

    /// The same value with `rx_stalled` replaced by `v`.
    #[verifier::allow_in_spec]
    pub fn with_rx_stalled(self, v: bool) -> InterruptClear
        returns
            (InterruptClear { raw: spec_set_bit(self.raw, 4, v) }),
    {
        InterruptClear { raw: set_bit(self.raw, 4, v) }
    }

    /// Bit 5 of the register.
    #[verifier::allow_in_spec]
    pub fn address_match(&self) -> bool
        returns
            spec_get_bit(self.raw, 5),
    {
        get_bit(self.raw, 5)
    }

    /// The same value with `address_match` replaced by `v`.
    #[verifier::allow_in_spec]
    pub fn with_address_match(self, v: bool) -> InterruptClear
        returns
            (InterruptClear { raw: spec_set_bit(self.raw, 5, v) }),
    {
        InterruptClear { raw: set_bit(self.raw, 5, v) }
    }

    /// Bit 6 of the register.
    #[verifier::allow_in_spec]
    pub fn nack_data(&self) -> bool
        returns
            spec_get_bit(self.raw, 6),
    {
        get_bit(self.raw, 6)
    }

    /// The same value with `nack_data` replaced by `v`.
    #[verifier::allow_in_spec]
    pub fn with_nack_data(self, v: bool) -> InterruptClear
        returns
            (InterruptClear { raw: spec_set_bit(self.raw, 6, v) }),
    {
        InterruptClear { raw: set_bit(self.raw, 6, v) }
    }

    /// Bit 7 of the register.
    #[verifier::allow_in_spec]
    pub fn rx_data_first(&self) -> bool
        returns
            spec_get_bit(self.raw, 7),
    {
        get_bit(self.raw, 7)
    }

    /// The same value with `rx_data_first` replaced by `v`.
    #[verifier::allow_in_spec]
    pub fn with_rx_data_first(self, v: bool) -> InterruptClear
        returns
            (InterruptClear { raw: spec_set_bit(self.raw, 7, v) }),
    {
        InterruptClear { raw: set_bit(self.raw, 7, v) }
    }

    /// Bit 8 of the register.
    #[verifier::allow_in_spec]
    pub fn i2c_start(&self) -> bool
        returns
            spec_get_bit(self.raw, 8),
    {
        get_bit(self.raw, 8)
    }

    /// The same value with `i2c_start` replaced by `v`.
    #[verifier::allow_in_spec]
    pub fn with_i2c_start(self, v: bool) -> InterruptClear
        returns
            (InterruptClear { raw: spec_set_bit(self.raw, 8, v) }),
    {
        InterruptClear { raw: set_bit(self.raw, 8, v) }
    }

    /// Bit 9 of the register.
    #[verifier::allow_in_spec]
    pub fn i2c_stop(&self) -> bool
        returns
            spec_get_bit(self.raw, 9),
    {
        get_bit(self.raw, 9)
    }

    /// The same value with `i2c_stop` replaced by `v`.
    #[verifier::allow_in_spec]
    pub fn with_i2c_stop(self, v: bool) -> InterruptClear
        returns
            (InterruptClear { raw: spec_set_bit(self.raw, 9, v) }),
    {
        InterruptClear { raw: set_bit(self.raw, 9, v) }
    }

    /// Bit 10 of the register.
    #[verifier::allow_in_spec]
    pub fn tx_underflow(&self) -> bool
        returns
            spec_get_bit(self.raw, 10),
    {
        get_bit(self.raw, 10)
    }

    /// The same value with `tx_underflow` replaced by `v`.
    #[verifier::allow_in_spec]
    pub fn with_tx_underflow(self, v: bool) -> InterruptClear
        returns
            (InterruptClear { raw: spec_set_bit(self.raw, 10, v) }),
    {
        InterruptClear { raw: set_bit(self.raw, 10, v) }
    }

    /// Bit 11 of the register.
    #[verifier::allow_in_spec]
    pub fn rx_underflow(&self) -> bool
        returns
            spec_get_bit(self.raw, 11),
    {
        get_bit(self.raw, 11)
    }

    /// The same value with `rx_underflow` replaced by `v`.
    #[verifier::allow_in_spec]
    pub fn with_rx_underflow(self, v: bool) -> InterruptClear
        returns
            (InterruptClear { raw: spec_set_bit(self.raw, 11, v) }),
    {
        InterruptClear { raw: set_bit(self.raw, 11, v) }
    }

    /// Bit 12 of the register.
    #[verifier::allow_in_spec]
    pub fn tx_ready(&self) -> bool
        returns
            spec_get_bit(self.raw, 12),
    {
        get_bit(self.raw, 12)
    }

    /// The same value with `tx_ready` replaced by `v`.
    #[verifier::allow_in_spec]
    pub fn with_tx_ready(self, v: bool) -> InterruptClear
        returns
            (InterruptClear { raw: spec_set_bit(self.raw, 12, v) }),
    {
        InterruptClear { raw: set_bit(self.raw, 12, v) }
    }

    /// Bit 13 of the register.
    #[verifier::allow_in_spec]
    pub fn rx_ready(&self) -> bool
        returns
            spec_get_bit(self.raw, 13),
    {
        get_bit(self.raw, 13)
    }

    /// The same value with `rx_ready` replaced by `v`.
    #[verifier::allow_in_spec]
    pub fn with_rx_ready(self, v: bool) -> InterruptClear
        returns
            (InterruptClear { raw: spec_set_bit(self.raw, 13, v) }),
    {
        InterruptClear { raw: set_bit(self.raw, 13, v) }
    }

    /// Bit 14 of the register.
    #[verifier::allow_in_spec]
    pub fn tx_empty(&self) -> bool
        returns
            spec_get_bit(self.raw, 14),
    {
        get_bit(self.raw, 14)
    }

    /// The same value with `tx_empty` replaced by `v`.
    #[verifier::allow_in_spec]
    pub fn with_tx_empty(self, v: bool) -> InterruptClear
        returns
            (InterruptClear { raw: spec_set_bit(self.raw, 14, v) }),
    {
        InterruptClear { raw: set_bit(self.raw, 14, v) }
    }

    /// Bit 15 of the register.
    #[verifier::allow_in_spec]
    pub fn rx_full(&self) -> bool
        returns
            spec_get_bit(self.raw, 15),
    {
        get_bit(self.raw, 15)
    }

    /// The same value with `rx_full` replaced by `v`.
    #[verifier::allow_in_spec]
    pub fn with_rx_full(self, v: bool) -> InterruptClear
        returns
            (InterruptClear { raw: spec_set_bit(self.raw, 15, v) }),
    {
        InterruptClear { raw: set_bit(self.raw, 15, v) }
    }

    /// After `completed` is set, it reads as what was set and every other field as before.
    pub proof fn lemma_with_completed(self, v: bool)
        ensures
            self.with_completed(v).completed() == v,
            self.with_completed(v).idle() == self.idle(),
            self.with_completed(v).waiting() == self.waiting(),
            self.with_completed(v).tx_stalled() == self.tx_stalled(),
            self.with_completed(v).rx_stalled() == self.rx_stalled(),
            self.with_completed(v).address_match() == self.address_match(),
            self.with_completed(v).nack_data() == self.nack_data(),
            self.with_completed(v).rx_data_first() == self.rx_data_first(),
            self.with_completed(v).i2c_start() == self.i2c_start(),
            self.with_completed(v).i2c_stop() == self.i2c_stop(),
            self.with_completed(v).tx_underflow() == self.tx_underflow(),
            self.with_completed(v).rx_underflow() == self.rx_underflow(),
            self.with_completed(v).tx_ready() == self.tx_ready(),
            self.with_completed(v).rx_ready() == self.rx_ready(),
            self.with_completed(v).tx_empty() == self.tx_empty(),
            self.with_completed(v).rx_full() == self.rx_full(),
    {
        lemma_set_bit_get_bit(self.raw, 0, v, 0);
        lemma_set_bit_get_bit(self.raw, 0, v, 1);
        lemma_set_bit_get_bit(self.raw, 0, v, 2);
        lemma_set_bit_get_bit(self.raw, 0, v, 3);
        lemma_set_bit_get_bit(self.raw, 0, v, 4);
        lemma_set_bit_get_bit(self.raw, 0, v, 5);
        lemma_set_bit_get_bit(self.raw, 0, v, 6);
        lemma_set_bit_get_bit(self.raw, 0, v, 7);
        lemma_set_bit_get_bit(self.raw, 0, v, 8);
        lemma_set_bit_get_bit(self.raw, 0, v, 9);
        lemma_set_bit_get_bit(self.raw, 0, v, 10);
        lemma_set_bit_get_bit(self.raw, 0, v, 11);
        lemma_set_bit_get_bit(self.raw, 0, v, 12);
        lemma_set_bit_get_bit(self.raw, 0, v, 13);
        lemma_set_bit_get_bit(self.raw, 0, v, 14);
        lemma_set_bit_get_bit(self.raw, 0, v, 15);
    }

    /// After `idle` is set, it reads as what was set and every other field as before.
    pub proof fn lemma_with_idle(self, v: bool)
        ensures
            self.with_idle(v).completed() == self.completed(),
            self.with_idle(v).idle() == v,
            self.with_idle(v).waiting() == self.waiting(),
            self.with_idle(v).tx_stalled() == self.tx_stalled(),
            self.with_idle(v).rx_stalled() == self.rx_stalled(),
            self.with_idle(v).address_match() == self.address_match(),
            self.with_idle(v).nack_data() == self.nack_data(),
            self.with_idle(v).rx_data_first() == self.rx_data_first(),
            self.with_idle(v).i2c_start() == self.i2c_start(),
            self.with_idle(v).i2c_stop() == self.i2c_stop(),
            self.with_idle(v).tx_underflow() == self.tx_underflow(),
            self.with_idle(v).rx_underflow() == self.rx_underflow(),
            self.with_idle(v).tx_ready() == self.tx_ready(),
            self.with_idle(v).rx_ready() == self.rx_ready(),
            self.with_idle(v).tx_empty() == self.tx_empty(),
            self.with_idle(v).rx_full() == self.rx_full(),
    {
        lemma_set_bit_get_bit(self.raw, 1, v, 0);
        lemma_set_bit_get_bit(self.raw, 1, v, 1);
        lemma_set_bit_get_bit(self.raw, 1, v, 2);
        lemma_set_bit_get_bit(self.raw, 1, v, 3);
        lemma_set_bit_get_bit(self.raw, 1, v, 4);
        lemma_set_bit_get_bit(self.raw, 1, v, 5);
        lemma_set_bit_get_bit(self.raw, 1, v, 6);
        lemma_set_bit_get_bit(self.raw, 1, v, 7);
        lemma_set_bit_get_bit(self.raw, 1, v, 8);
        lemma_set_bit_get_bit(self.raw, 1, v, 9);
        lemma_set_bit_get_bit(self.raw, 1, v, 10);
        lemma_set_bit_get_bit(self.raw, 1, v, 11);
        lemma_set_bit_get_bit(self.raw, 1, v, 12);
        lemma_set_bit_get_bit(self.raw, 1, v, 13);
        lemma_set_bit_get_bit(self.raw, 1, v, 14);
        lemma_set_bit_get_bit(self.raw, 1, v, 15);
    }

    /// After `waiting` is set, it reads as what was set and every other field as before.
    pub proof fn lemma_with_waiting(self, v: bool)
        ensures
            self.with_waiting(v).completed() == self.completed(),
            self.with_waiting(v).idle() == self.idle(),
            self.with_waiting(v).waiting() == v,
            self.with_waiting(v).tx_stalled() == self.tx_stalled(),
            self.with_waiting(v).rx_stalled() == self.rx_stalled(),
            self.with_waiting(v).address_match() == self.address_match(),
            self.with_waiting(v).nack_data() == self.nack_data(),
            self.with_waiting(v).rx_data_first() == self.rx_data_first(),
            self.with_waiting(v).i2c_start() == self.i2c_start(),
            self.with_waiting(v).i2c_stop() == self.i2c_stop(),
            self.with_waiting(v).tx_underflow() == self.tx_underflow(),
            self.with_waiting(v).rx_underflow() == self.rx_underflow(),
            self.with_waiting(v).tx_ready() == self.tx_ready(),
            self.with_waiting(v).rx_ready() == self.rx_ready(),
            self.with_waiting(v).tx_empty() == self.tx_empty(),
            self.with_waiting(v).rx_full() == self.rx_full(),
    {
        lemma_set_bit_get_bit(self.raw, 2, v, 0);
        lemma_set_bit_get_bit(self.raw, 2, v, 1);
        lemma_set_bit_get_bit(self.raw, 2, v, 2);
        lemma_set_bit_get_bit(self.raw, 2, v, 3);
        lemma_set_bit_get_bit(self.raw, 2, v, 4);
        lemma_set_bit_get_bit(self.raw, 2, v, 5);
        lemma_set_bit_get_bit(self.raw, 2, v, 6);
        lemma_set_bit_get_bit(self.raw, 2, v, 7);
        lemma_set_bit_get_bit(self.raw, 2, v, 8);
        lemma_set_bit_get_bit(self.raw, 2, v, 9);
        lemma_set_bit_get_bit(self.raw, 2, v, 10);
        lemma_set_bit_get_bit(self.raw, 2, v, 11);
        lemma_set_bit_get_bit(self.raw, 2, v, 12);
        lemma_set_bit_get_bit(self.raw, 2, v, 13);
        lemma_set_bit_get_bit(self.raw, 2, v, 14);
        lemma_set_bit_get_bit(self.raw, 2, v, 15);
    }

    /// After `tx_stalled` is set, it reads as what was set and every other field as before.
    pub proof fn lemma_with_tx_stalled(self, v: bool)
        ensures
            self.with_tx_stalled(v).completed() == self.completed(),
            self.with_tx_stalled(v).idle() == self.idle(),
            self.with_tx_stalled(v).waiting() == self.waiting(),
            self.with_tx_stalled(v).tx_stalled() == v,
            self.with_tx_stalled(v).rx_stalled() == self.rx_stalled(),
            self.with_tx_stalled(v).address_match() == self.address_match(),
            self.with_tx_stalled(v).nack_data() == self.nack_data(),
            self.with_tx_stalled(v).rx_data_first() == self.rx_data_first(),
            self.with_tx_stalled(v).i2c_start() == self.i2c_start(),
            self.with_tx_stalled(v).i2c_stop() == self.i2c_stop(),
            self.with_tx_stalled(v).tx_underflow() == self.tx_underflow(),
            self.with_tx_stalled(v).rx_underflow() == self.rx_underflow(),
            self.with_tx_stalled(v).tx_ready() == self.tx_ready(),
            self.with_tx_stalled(v).rx_ready() == self.rx_ready(),
            self.with_tx_stalled(v).tx_empty() == self.tx_empty(),
            self.with_tx_stalled(v).rx_full() == self.rx_full(),
    {
        lemma_set_bit_get_bit(self.raw, 3, v, 0);
        lemma_set_bit_get_bit(self.raw, 3, v, 1);
        lemma_set_bit_get_bit(self.raw, 3, v, 2);
        lemma_set_bit_get_bit(self.raw, 3, v, 3);
        lemma_set_bit_get_bit(self.raw, 3, v, 4);
        lemma_set_bit_get_bit(self.raw, 3, v, 5);
        lemma_set_bit_get_bit(self.raw, 3, v, 6);
        lemma_set_bit_get_bit(self.raw, 3, v, 7);
        lemma_set_bit_get_bit(self.raw, 3, v, 8);
        lemma_set_bit_get_bit(self.raw, 3, v, 9);
        lemma_set_bit_get_bit(self.raw, 3, v, 10);
        lemma_set_bit_get_bit(self.raw, 3, v, 11);
        lemma_set_bit_get_bit(self.raw, 3, v, 12);
        lemma_set_bit_get_bit(self.raw, 3, v, 13);
        lemma_set_bit_get_bit(self.raw, 3, v, 14);
        lemma_set_bit_get_bit(self.raw, 3, v, 15);
    }

    /// After `rx_stalled` is set, it reads as what was set and every other field as before.
    pub proof fn lemma_with_rx_stalled(self, v: bool)
        ensures
            self.with_rx_stalled(v).completed() == self.completed(),
            self.with_rx_stalled(v).idle() == self.idle(),
            self.with_rx_stalled(v).waiting() == self.waiting(),
            self.with_rx_stalled(v).tx_stalled() == self.tx_stalled(),
            self.with_rx_stalled(v).rx_stalled() == v,
            self.with_rx_stalled(v).address_match() == self.address_match(),
            self.with_rx_stalled(v).nack_data() == self.nack_data(),
            self.with_rx_stalled(v).rx_data_first() == self.rx_data_first(),
            self.with_rx_stalled(v).i2c_start() == self.i2c_start(),
            self.with_rx_stalled(v).i2c_stop() == self.i2c_stop(),
            self.with_rx_stalled(v).tx_underflow() == self.tx_underflow(),
            self.with_rx_stalled(v).rx_underflow() == self.rx_underflow(),
            self.with_rx_stalled(v).tx_ready() == self.tx_ready(),
            self.with_rx_stalled(v).rx_ready() == self.rx_ready(),
            self.with_rx_stalled(v).tx_empty() == self.tx_empty(),
            self.with_rx_stalled(v).rx_full() == self.rx_full(),
    {
        lemma_set_bit_get_bit(self.raw, 4, v, 0);
        lemma_set_bit_get_bit(self.raw, 4, v, 1);
        lemma_set_bit_get_bit(self.raw, 4, v, 2);
        lemma_set_bit_get_bit(self.raw, 4, v, 3);
        lemma_set_bit_get_bit(self.raw, 4, v, 4);
        lemma_set_bit_get_bit(self.raw, 4, v, 5);
        lemma_set_bit_get_bit(self.raw, 4, v, 6);
        lemma_set_bit_get_bit(self.raw, 4, v, 7);
        lemma_set_bit_get_bit(self.raw, 4, v, 8);
        lemma_set_bit_get_bit(self.raw, 4, v, 9);
        lemma_set_bit_get_bit(self.raw, 4, v, 10);
        lemma_set_bit_get_bit(self.raw, 4, v, 11);
        lemma_set_bit_get_bit(self.raw, 4, v, 12);
        lemma_set_bit_get_bit(self.raw, 4, v, 13);
        lemma_set_bit_get_bit(self.raw, 4, v, 14);
        lemma_set_bit_get_bit(self.raw, 4, v, 15);
    }

    /// After `address_match` is set, it reads as what was set and every other field as before.
    pub proof fn lemma_with_address_match(self, v: bool)
        ensures
            self.with_address_match(v).completed() == self.completed(),
            self.with_address_match(v).idle() == self.idle(),
            self.with_address_match(v).waiting() == self.waiting(),
            self.with_address_match(v).tx_stalled() == self.tx_stalled(),
            self.with_address_match(v).rx_stalled() == self.rx_stalled(),
            self.with_address_match(v).address_match() == v,
            self.with_address_match(v).nack_data() == self.nack_data(),
            self.with_address_match(v).rx_data_first() == self.rx_data_first(),
            self.with_address_match(v).i2c_start() == self.i2c_start(),
            self.with_address_match(v).i2c_stop() == self.i2c_stop(),
            self.with_address_match(v).tx_underflow() == self.tx_underflow(),
            self.with_address_match(v).rx_underflow() == self.rx_underflow(),
            self.with_address_match(v).tx_ready() == self.tx_ready(),
            self.with_address_match(v).rx_ready() == self.rx_ready(),
            self.with_address_match(v).tx_empty() == self.tx_empty(),
            self.with_address_match(v).rx_full() == self.rx_full(),
    {
        lemma_set_bit_get_bit(self.raw, 5, v, 0);
        lemma_set_bit_get_bit(self.raw, 5, v, 1);
        lemma_set_bit_get_bit(self.raw, 5, v, 2);
        lemma_set_bit_get_bit(self.raw, 5, v, 3);
        lemma_set_bit_get_bit(self.raw, 5, v, 4);
        lemma_set_bit_get_bit(self.raw, 5, v, 5);
        lemma_set_bit_get_bit(self.raw, 5, v, 6);
        lemma_set_bit_get_bit(self.raw, 5, v, 7);
        lemma_set_bit_get_bit(self.raw, 5, v, 8);
        lemma_set_bit_get_bit(self.raw, 5, v, 9);
        lemma_set_bit_get_bit(self.raw, 5, v, 10);
        lemma_set_bit_get_bit(self.raw, 5, v, 11);
        lemma_set_bit_get_bit(self.raw, 5, v, 12);
        lemma_set_bit_get_bit(self.raw, 5, v, 13);
        lemma_set_bit_get_bit(self.raw, 5, v, 14);
        lemma_set_bit_get_bit(self.raw, 5, v, 15);
    }

    /// After `nack_data` is set, it reads as what was set and every other field as before.
    pub proof fn lemma_with_nack_data(self, v: bool)
        ensures
            self.with_nack_data(v).completed() == self.completed(),
            self.with_nack_data(v).idle() == self.idle(),
            self.with_nack_data(v).waiting() == self.waiting(),
            self.with_nack_data(v).tx_stalled() == self.tx_stalled(),
            self.with_nack_data(v).rx_stalled() == self.rx_stalled(),
            self.with_nack_data(v).address_match() == self.address_match(),
            self.with_nack_data(v).nack_data() == v,
            self.with_nack_data(v).rx_data_first() == self.rx_data_first(),
            self.with_nack_data(v).i2c_start() == self.i2c_start(),
            self.with_nack_data(v).i2c_stop() == self.i2c_stop(),
            self.with_nack_data(v).tx_underflow() == self.tx_underflow(),
            self.with_nack_data(v).rx_underflow() == self.rx_underflow(),
            self.with_nack_data(v).tx_ready() == self.tx_ready(),
            self.with_nack_data(v).rx_ready() == self.rx_ready(),
            self.with_nack_data(v).tx_empty() == self.tx_empty(),
            self.with_nack_data(v).rx_full() == self.rx_full(),
    {
        lemma_set_bit_get_bit(self.raw, 6, v, 0);
        lemma_set_bit_get_bit(self.raw, 6, v, 1);
        lemma_set_bit_get_bit(self.raw, 6, v, 2);
        lemma_set_bit_get_bit(self.raw, 6, v, 3);
        lemma_set_bit_get_bit(self.raw, 6, v, 4);
        lemma_set_bit_get_bit(self.raw, 6, v, 5);
        lemma_set_bit_get_bit(self.raw, 6, v, 6);
        lemma_set_bit_get_bit(self.raw, 6, v, 7);
        lemma_set_bit_get_bit(self.raw, 6, v, 8);
        lemma_set_bit_get_bit(self.raw, 6, v, 9);
        lemma_set_bit_get_bit(self.raw, 6, v, 10);
        lemma_set_bit_get_bit(self.raw, 6, v, 11);
        lemma_set_bit_get_bit(self.raw, 6, v, 12);
        lemma_set_bit_get_bit(self.raw, 6, v, 13);
        lemma_set_bit_get_bit(self.raw, 6, v, 14);
        lemma_set_bit_get_bit(self.raw, 6, v, 15);
    }

    /// After `rx_data_first` is set, it reads as what was set and every other field as before.
    pub proof fn lemma_with_rx_data_first(self, v: bool)
        ensures
            self.with_rx_data_first(v).completed() == self.completed(),
            self.with_rx_data_first(v).idle() == self.idle(),
            self.with_rx_data_first(v).waiting() == self.waiting(),
            self.with_rx_data_first(v).tx_stalled() == self.tx_stalled(),
            self.with_rx_data_first(v).rx_stalled() == self.rx_stalled(),
            self.with_rx_data_first(v).address_match() == self.address_match(),
            self.with_rx_data_first(v).nack_data() == self.nack_data(),
            self.with_rx_data_first(v).rx_data_first() == v,
            self.with_rx_data_first(v).i2c_start() == self.i2c_start(),
            self.with_rx_data_first(v).i2c_stop() == self.i2c_stop(),
            self.with_rx_data_first(v).tx_underflow() == self.tx_underflow(),
            self.with_rx_data_first(v).rx_underflow() == self.rx_underflow(),
            self.with_rx_data_first(v).tx_ready() == self.tx_ready(),
            self.with_rx_data_first(v).rx_ready() == self.rx_ready(),
            self.with_rx_data_first(v).tx_empty() == self.tx_empty(),
            self.with_rx_data_first(v).rx_full() == self.rx_full(),
    {
        lemma_set_bit_get_bit(self.raw, 7, v, 0);
        lemma_set_bit_get_bit(self.raw, 7, v, 1);
        lemma_set_bit_get_bit(self.raw, 7, v, 2);
        lemma_set_bit_get_bit(self.raw, 7, v, 3);
        lemma_set_bit_get_bit(self.raw, 7, v, 4);
        lemma_set_bit_get_bit(self.raw, 7, v, 5);
        lemma_set_bit_get_bit(self.raw, 7, v, 6);
        lemma_set_bit_get_bit(self.raw, 7, v, 7);
        lemma_set_bit_get_bit(self.raw, 7, v, 8);
        lemma_set_bit_get_bit(self.raw, 7, v, 9);
        lemma_set_bit_get_bit(self.raw, 7, v, 10);
        lemma_set_bit_get_bit(self.raw, 7, v, 11);
        lemma_set_bit_get_bit(self.raw, 7, v, 12);
        lemma_set_bit_get_bit(self.raw, 7, v, 13);
        lemma_set_bit_get_bit(self.raw, 7, v, 14);
        lemma_set_bit_get_bit(self.raw, 7, v, 15);
    }

    /// After `i2c_start` is set, it reads as what was set and every other field as before.
    pub proof fn lemma_with_i2c_start(self, v: bool)
        ensures
            self.with_i2c_start(v).completed() == self.completed(),
            self.with_i2c_start(v).idle() == self.idle(),
            self.with_i2c_start(v).waiting() == self.waiting(),
            self.with_i2c_start(v).tx_stalled() == self.tx_stalled(),
            self.with_i2c_start(v).rx_stalled() == self.rx_stalled(),
            self.with_i2c_start(v).address_match() == self.address_match(),
            self.with_i2c_start(v).nack_data() == self.nack_data(),
            self.with_i2c_start(v).rx_data_first() == self.rx_data_first(),
            self.with_i2c_start(v).i2c_start() == v,
            self.with_i2c_start(v).i2c_stop() == self.i2c_stop(),
            self.with_i2c_start(v).tx_underflow() == self.tx_underflow(),
            self.with_i2c_start(v).rx_underflow() == self.rx_underflow(),
            self.with_i2c_start(v).tx_ready() == self.tx_ready(),
            self.with_i2c_start(v).rx_ready() == self.rx_ready(),
            self.with_i2c_start(v).tx_empty() == self.tx_empty(),
            self.with_i2c_start(v).rx_full() == self.rx_full(),
    {
        lemma_set_bit_get_bit(self.raw, 8, v, 0);
        lemma_set_bit_get_bit(self.raw, 8, v, 1);
        lemma_set_bit_get_bit(self.raw, 8, v, 2);
        lemma_set_bit_get_bit(self.raw, 8, v, 3);
        lemma_set_bit_get_bit(self.raw, 8, v, 4);
        lemma_set_bit_get_bit(self.raw, 8, v, 5);
        lemma_set_bit_get_bit(self.raw, 8, v, 6);
        lemma_set_bit_get_bit(self.raw, 8, v, 7);
        lemma_set_bit_get_bit(self.raw, 8, v, 8);
        lemma_set_bit_get_bit(self.raw, 8, v, 9);
        lemma_set_bit_get_bit(self.raw, 8, v, 10);
        lemma_set_bit_get_bit(self.raw, 8, v, 11);
        lemma_set_bit_get_bit(self.raw, 8, v, 12);
        lemma_set_bit_get_bit(self.raw, 8, v, 13);
        lemma_set_bit_get_bit(self.raw, 8, v, 14);
        lemma_set_bit_get_bit(self.raw, 8, v, 15);
    }

    /// After `i2c_stop` is set, it reads as what was set and every other field as before.
    pub proof fn lemma_with_i2c_stop(self, v: bool)
        ensures
            self.with_i2c_stop(v).completed() == self.completed(),
            self.with_i2c_stop(v).idle() == self.idle(),
            self.with_i2c_stop(v).waiting() == self.waiting(),
            self.with_i2c_stop(v).tx_stalled() == self.tx_stalled(),
            self.with_i2c_stop(v).rx_stalled() == self.rx_stalled(),
            self.with_i2c_stop(v).address_match() == self.address_match(),
            self.with_i2c_stop(v).nack_data() == self.nack_data(),
            self.with_i2c_stop(v).rx_data_first() == self.rx_data_first(),
            self.with_i2c_stop(v).i2c_start() == self.i2c_start(),
            self.with_i2c_stop(v).i2c_stop() == v,
            self.with_i2c_stop(v).tx_underflow() == self.tx_underflow(),
            self.with_i2c_stop(v).rx_underflow() == self.rx_underflow(),
            self.with_i2c_stop(v).tx_ready() == self.tx_ready(),
            self.with_i2c_stop(v).rx_ready() == self.rx_ready(),
            self.with_i2c_stop(v).tx_empty() == self.tx_empty(),
            self.with_i2c_stop(v).rx_full() == self.rx_full(),
    {
        lemma_set_bit_get_bit(self.raw, 9, v, 0);
        lemma_set_bit_get_bit(self.raw, 9, v, 1);
        lemma_set_bit_get_bit(self.raw, 9, v, 2);
        lemma_set_bit_get_bit(self.raw, 9, v, 3);
        lemma_set_bit_get_bit(self.raw, 9, v, 4);
        lemma_set_bit_get_bit(self.raw, 9, v, 5);
        lemma_set_bit_get_bit(self.raw, 9, v, 6);
        lemma_set_bit_get_bit(self.raw, 9, v, 7);
        lemma_set_bit_get_bit(self.raw, 9, v, 8);
        lemma_set_bit_get_bit(self.raw, 9, v, 9);
        lemma_set_bit_get_bit(self.raw, 9, v, 10);
        lemma_set_bit_get_bit(self.raw, 9, v, 11);
        lemma_set_bit_get_bit(self.raw, 9, v, 12);
        lemma_set_bit_get_bit(self.raw, 9, v, 13);
        lemma_set_bit_get_bit(self.raw, 9, v, 14);
        lemma_set_bit_get_bit(self.raw, 9, v, 15);
    }

    /// After `tx_underflow` is set, it reads as what was set and every other field as before.
    pub proof fn lemma_with_tx_underflow(self, v: bool)
        ensures
            self.with_tx_underflow(v).completed() == self.completed(),
            self.with_tx_underflow(v).idle() == self.idle(),
            self.with_tx_underflow(v).waiting() == self.waiting(),
            self.with_tx_underflow(v).tx_stalled() == self.tx_stalled(),
            self.with_tx_underflow(v).rx_stalled() == self.rx_stalled(),
            self.with_tx_underflow(v).address_match() == self.address_match(),
            self.with_tx_underflow(v).nack_data() == self.nack_data(),
            self.with_tx_underflow(v).rx_data_first() == self.rx_data_first(),
            self.with_tx_underflow(v).i2c_start() == self.i2c_start(),
            self.with_tx_underflow(v).i2c_stop() == self.i2c_stop(),
            self.with_tx_underflow(v).tx_underflow() == v,
            self.with_tx_underflow(v).rx_underflow() == self.rx_underflow(),
            self.with_tx_underflow(v).tx_ready() == self.tx_ready(),
            self.with_tx_underflow(v).rx_ready() == self.rx_ready(),
            self.with_tx_underflow(v).tx_empty() == self.tx_empty(),
            self.with_tx_underflow(v).rx_full() == self.rx_full(),
    {
        lemma_set_bit_get_bit(self.raw, 10, v, 0);
        lemma_set_bit_get_bit(self.raw, 10, v, 1);
        lemma_set_bit_get_bit(self.raw, 10, v, 2);
        lemma_set_bit_get_bit(self.raw, 10, v, 3);
        lemma_set_bit_get_bit(self.raw, 10, v, 4);
        lemma_set_bit_get_bit(self.raw, 10, v, 5);
        lemma_set_bit_get_bit(self.raw, 10, v, 6);
        lemma_set_bit_get_bit(self.raw, 10, v, 7);
        lemma_set_bit_get_bit(self.raw, 10, v, 8);
        lemma_set_bit_get_bit(self.raw, 10, v, 9);
        lemma_set_bit_get_bit(self.raw, 10, v, 10);
        lemma_set_bit_get_bit(self.raw, 10, v, 11);
        lemma_set_bit_get_bit(self.raw, 10, v, 12);
        lemma_set_bit_get_bit(self.raw, 10, v, 13);
        lemma_set_bit_get_bit(self.raw, 10, v, 14);
        lemma_set_bit_get_bit(self.raw, 10, v, 15);
    }

    /// After `rx_underflow` is set, it reads as what was set and every other field as before.
    pub proof fn lemma_with_rx_underflow(self, v: bool)
        ensures
            self.with_rx_underflow(v).completed() == self.completed(),
            self.with_rx_underflow(v).idle() == self.idle(),
            self.with_rx_underflow(v).waiting() == self.waiting(),
            self.with_rx_underflow(v).tx_stalled() == self.tx_stalled(),
            self.with_rx_underflow(v).rx_stalled() == self.rx_stalled(),
            self.with_rx_underflow(v).address_match() == self.address_match(),
            self.with_rx_underflow(v).nack_data() == self.nack_data(),
            self.with_rx_underflow(v).rx_data_first() == self.rx_data_first(),
            self.with_rx_underflow(v).i2c_start() == self.i2c_start(),
            self.with_rx_underflow(v).i2c_stop() == self.i2c_stop(),
            self.with_rx_underflow(v).tx_underflow() == self.tx_underflow(),
            self.with_rx_underflow(v).rx_underflow() == v,
            self.with_rx_underflow(v).tx_ready() == self.tx_ready(),
            self.with_rx_underflow(v).rx_ready() == self.rx_ready(),
            self.with_rx_underflow(v).tx_empty() == self.tx_empty(),
            self.with_rx_underflow(v).rx_full() == self.rx_full(),
    {
        lemma_set_bit_get_bit(self.raw, 11, v, 0);
        lemma_set_bit_get_bit(self.raw, 11, v, 1);
        lemma_set_bit_get_bit(self.raw, 11, v, 2);
        lemma_set_bit_get_bit(self.raw, 11, v, 3);
        lemma_set_bit_get_bit(self.raw, 11, v, 4);
        lemma_set_bit_get_bit(self.raw, 11, v, 5);
        lemma_set_bit_get_bit(self.raw, 11, v, 6);
        lemma_set_bit_get_bit(self.raw, 11, v, 7);
        lemma_set_bit_get_bit(self.raw, 11, v, 8);
        lemma_set_bit_get_bit(self.raw, 11, v, 9);
        lemma_set_bit_get_bit(self.raw, 11, v, 10);
        lemma_set_bit_get_bit(self.raw, 11, v, 11);
        lemma_set_bit_get_bit(self.raw, 11, v, 12);
        lemma_set_bit_get_bit(self.raw, 11, v, 13);
        lemma_set_bit_get_bit(self.raw, 11, v, 14);
        lemma_set_bit_get_bit(self.raw, 11, v, 15);
    }

    /// After `tx_ready` is set, it reads as what was set and every other field as before.
    pub proof fn lemma_with_tx_ready(self, v: bool)
        ensures
            self.with_tx_ready(v).completed() == self.completed(),
            self.with_tx_ready(v).idle() == self.idle(),
            self.with_tx_ready(v).waiting() == self.waiting(),
            self.with_tx_ready(v).tx_stalled() == self.tx_stalled(),
            self.with_tx_ready(v).rx_stalled() == self.rx_stalled(),
            self.with_tx_ready(v).address_match() == self.address_match(),
            self.with_tx_ready(v).nack_data() == self.nack_data(),
            self.with_tx_ready(v).rx_data_first() == self.rx_data_first(),
            self.with_tx_ready(v).i2c_start() == self.i2c_start(),
            self.with_tx_ready(v).i2c_stop() == self.i2c_stop(),
            self.with_tx_ready(v).tx_underflow() == self.tx_underflow(),
            self.with_tx_ready(v).rx_underflow() == self.rx_underflow(),
            self.with_tx_ready(v).tx_ready() == v,
            self.with_tx_ready(v).rx_ready() == self.rx_ready(),
            self.with_tx_ready(v).tx_empty() == self.tx_empty(),
            self.with_tx_ready(v).rx_full() == self.rx_full(),
    {
        lemma_set_bit_get_bit(self.raw, 12, v, 0);
        lemma_set_bit_get_bit(self.raw, 12, v, 1);
        lemma_set_bit_get_bit(self.raw, 12, v, 2);
        lemma_set_bit_get_bit(self.raw, 12, v, 3);
        lemma_set_bit_get_bit(self.raw, 12, v, 4);
        lemma_set_bit_get_bit(self.raw, 12, v, 5);
        lemma_set_bit_get_bit(self.raw, 12, v, 6);
        lemma_set_bit_get_bit(self.raw, 12, v, 7);
        lemma_set_bit_get_bit(self.raw, 12, v, 8);
        lemma_set_bit_get_bit(self.raw, 12, v, 9);
        lemma_set_bit_get_bit(self.raw, 12, v, 10);
        lemma_set_bit_get_bit(self.raw, 12, v, 11);
        lemma_set_bit_get_bit(self.raw, 12, v, 12);
        lemma_set_bit_get_bit(self.raw, 12, v, 13);
        lemma_set_bit_get_bit(self.raw, 12, v, 14);
        lemma_set_bit_get_bit(self.raw, 12, v, 15);
    }

    /// After `rx_ready` is set, it reads as what was set and every other field as before.
    pub proof fn lemma_with_rx_ready(self, v: bool)
        ensures
            self.with_rx_ready(v).completed() == self.completed(),
            self.with_rx_ready(v).idle() == self.idle(),
            self.with_rx_ready(v).waiting() == self.waiting(),
            self.with_rx_ready(v).tx_stalled() == self.tx_stalled(),
            self.with_rx_ready(v).rx_stalled() == self.rx_stalled(),
            self.with_rx_ready(v).address_match() == self.address_match(),
            self.with_rx_ready(v).nack_data() == self.nack_data(),
            self.with_rx_ready(v).rx_data_first() == self.rx_data_first(),
            self.with_rx_ready(v).i2c_start() == self.i2c_start(),
            self.with_rx_ready(v).i2c_stop() == self.i2c_stop(),
            self.with_rx_ready(v).tx_underflow() == self.tx_underflow(),
            self.with_rx_ready(v).rx_underflow() == self.rx_underflow(),
            self.with_rx_ready(v).tx_ready() == self.tx_ready(),
            self.with_rx_ready(v).rx_ready() == v,
            self.with_rx_ready(v).tx_empty() == self.tx_empty(),
            self.with_rx_ready(v).rx_full() == self.rx_full(),
    {
        lemma_set_bit_get_bit(self.raw, 13, v, 0);
        lemma_set_bit_get_bit(self.raw, 13, v, 1);
        lemma_set_bit_get_bit(self.raw, 13, v, 2);
        lemma_set_bit_get_bit(self.raw, 13, v, 3);
        lemma_set_bit_get_bit(self.raw, 13, v, 4);
        lemma_set_bit_get_bit(self.raw, 13, v, 5);
        lemma_set_bit_get_bit(self.raw, 13, v, 6);
        lemma_set_bit_get_bit(self.raw, 13, v, 7);
        lemma_set_bit_get_bit(self.raw, 13, v, 8);
        lemma_set_bit_get_bit(self.raw, 13, v, 9);
        lemma_set_bit_get_bit(self.raw, 13, v, 10);
        lemma_set_bit_get_bit(self.raw, 13, v, 11);
        lemma_set_bit_get_bit(self.raw, 13, v, 12);
        lemma_set_bit_get_bit(self.raw, 13, v, 13);
        lemma_set_bit_get_bit(self.raw, 13, v, 14);
        lemma_set_bit_get_bit(self.raw, 13, v, 15);
    }

    /// After `tx_empty` is set, it reads as what was set and every other field as before.
    pub proof fn lemma_with_tx_empty(self, v: bool)
        ensures
            self.with_tx_empty(v).completed() == self.completed(),
            self.with_tx_empty(v).idle() == self.idle(),
            self.with_tx_empty(v).waiting() == self.waiting(),
            self.with_tx_empty(v).tx_stalled() == self.tx_stalled(),
            self.with_tx_empty(v).rx_stalled() == self.rx_stalled(),
            self.with_tx_empty(v).address_match() == self.address_match(),
            self.with_tx_empty(v).nack_data() == self.nack_data(),
            self.with_tx_empty(v).rx_data_first() == self.rx_data_first(),
            self.with_tx_empty(v).i2c_start() == self.i2c_start(),
            self.with_tx_empty(v).i2c_stop() == self.i2c_stop(),
            self.with_tx_empty(v).tx_underflow() == self.tx_underflow(),
            self.with_tx_empty(v).rx_underflow() == self.rx_underflow(),
            self.with_tx_empty(v).tx_ready() == self.tx_ready(),
            self.with_tx_empty(v).rx_ready() == self.rx_ready(),
            self.with_tx_empty(v).tx_empty() == v,
            self.with_tx_empty(v).rx_full() == self.rx_full(),
    {
        lemma_set_bit_get_bit(self.raw, 14, v, 0);
        lemma_set_bit_get_bit(self.raw, 14, v, 1);
        lemma_set_bit_get_bit(self.raw, 14, v, 2);
        lemma_set_bit_get_bit(self.raw, 14, v, 3);
        lemma_set_bit_get_bit(self.raw, 14, v, 4);
        lemma_set_bit_get_bit(self.raw, 14, v, 5);
        lemma_set_bit_get_bit(self.raw, 14, v, 6);
        lemma_set_bit_get_bit(self.raw, 14, v, 7);
        lemma_set_bit_get_bit(self.raw, 14, v, 8);
        lemma_set_bit_get_bit(self.raw, 14, v, 9);
        lemma_set_bit_get_bit(self.raw, 14, v, 10);
        lemma_set_bit_get_bit(self.raw, 14, v, 11);
        lemma_set_bit_get_bit(self.raw, 14, v, 12);
        lemma_set_bit_get_bit(self.raw, 14, v, 13);
        lemma_set_bit_get_bit(self.raw, 14, v, 14);
        lemma_set_bit_get_bit(self.raw, 14, v, 15);
    }

    /// After `rx_full` is set, it reads as what was set and every other field as before.
    pub proof fn lemma_with_rx_full(self, v: bool)
        ensures
            self.with_rx_full(v).completed() == self.completed(),
            self.with_rx_full(v).idle() == self.idle(),
            self.with_rx_full(v).waiting() == self.waiting(),
            self.with_rx_full(v).tx_stalled() == self.tx_stalled(),
            self.with_rx_full(v).rx_stalled() == self.rx_stalled(),
            self.with_rx_full(v).address_match() == self.address_match(),
            self.with_rx_full(v).nack_data() == self.nack_data(),
            self.with_rx_full(v).rx_data_first() == self.rx_data_first(),
            self.with_rx_full(v).i2c_start() == self.i2c_start(),
            self.with_rx_full(v).i2c_stop() == self.i2c_stop(),
            self.with_rx_full(v).tx_underflow() == self.tx_underflow(),
            self.with_rx_full(v).rx_underflow() == self.rx_underflow(),
            self.with_rx_full(v).tx_ready() == self.tx_ready(),
            self.with_rx_full(v).rx_ready() == self.rx_ready(),
            self.with_rx_full(v).tx_empty() == self.tx_empty(),
            self.with_rx_full(v).rx_full() == v,
    {
        lemma_set_bit_get_bit(self.raw, 15, v, 0);
        lemma_set_bit_get_bit(self.raw, 15, v, 1);
        lemma_set_bit_get_bit(self.raw, 15, v, 2);
        lemma_set_bit_get_bit(self.raw, 15, v, 3);
        lemma_set_bit_get_bit(self.raw, 15, v, 4);
        lemma_set_bit_get_bit(self.raw, 15, v, 5);
        lemma_set_bit_get_bit(self.raw, 15, v, 6);
        lemma_set_bit_get_bit(self.raw, 15, v, 7);
        lemma_set_bit_get_bit(self.raw, 15, v, 8);
        lemma_set_bit_get_bit(self.raw, 15, v, 9);
        lemma_set_bit_get_bit(self.raw, 15, v, 10);
        lemma_set_bit_get_bit(self.raw, 15, v, 11);
        lemma_set_bit_get_bit(self.raw, 15, v, 12);
        lemma_set_bit_get_bit(self.raw, 15, v, 13);
        lemma_set_bit_get_bit(self.raw, 15, v, 14);
        lemma_set_bit_get_bit(self.raw, 15, v, 15);
    }
}

/// The registers of the slave side of an I2C peripheral.
#[derive(Debug, Clone, Copy, PartialEq, Eq, Structural)]
pub struct I2cSlave {
    pub s0_ctrl: Control,
    pub s0_maxwords: Maxwords,
    pub s0_address: Address,
    pub s0_addressmask: AddressMask,
    pub s0_data: Data,
    pub s0_lastaddress: LastAddress,
    pub s0_status: Status,
    pub s0_state: State,
    pub s0_tx_count: DataCount,
    pub s0_rx_count: DataCount,
    pub s0_irq_enb: InterruptControl,
    pub s0_irq_raw: InterruptStatus,
    pub s0_irq_status: InterruptStatus,
    pub s0_irq_clear: InterruptClear,
    pub s0_rx_fifo_trigger: TriggerLevel,
    pub s0_tx_fifo_trigger: TriggerLevel,
    pub s0_fifo_clear: FifoClear,
    pub s0_address_b: Address,
    pub s0_addressmask_b: AddressMask,
}

impl I2cSlave {
    /// The registers after a reset: all clear.
    pub open spec fn spec_reset_state() -> I2cSlave {
        I2cSlave {
            s0_ctrl: Control { raw: 0 },
            s0_maxwords: Maxwords { raw: 0 },
            s0_address: Address { raw: 0 },
            s0_addressmask: AddressMask { raw: 0 },
            s0_data: Data { raw: 0 },
            s0_lastaddress: LastAddress { raw: 0 },
            s0_status: Status { raw: 0 },
            s0_state: State { raw: 0 },
            s0_tx_count: DataCount { raw: 0 },
            s0_rx_count: DataCount { raw: 0 },
            s0_irq_enb: InterruptControl { raw: 0 },
            s0_irq_raw: InterruptStatus { raw: 0 },
            s0_irq_status: InterruptStatus { raw: 0 },
            s0_irq_clear: InterruptClear { raw: 0 },
            s0_rx_fifo_trigger: TriggerLevel { raw: 0 },
            s0_tx_fifo_trigger: TriggerLevel { raw: 0 },
            s0_fifo_clear: FifoClear { raw: 0 },
            s0_address_b: Address { raw: 0 },
            s0_addressmask_b: AddressMask { raw: 0 },
        }
    }

    /// The registers as they are after a reset.
    pub fn new() -> (slave: I2cSlave)
        ensures
            slave == Self::spec_reset_state(),
    {
        I2cSlave {
            s0_ctrl: Control { raw: 0 },
            s0_maxwords: Maxwords { raw: 0 },
            s0_address: Address { raw: 0 },
            s0_addressmask: AddressMask { raw: 0 },
            s0_data: Data { raw: 0 },
            s0_lastaddress: LastAddress { raw: 0 },
            s0_status: Status { raw: 0 },
            s0_state: State { raw: 0 },
            s0_tx_count: DataCount { raw: 0 },
            s0_rx_count: DataCount { raw: 0 },
            s0_irq_enb: InterruptControl { raw: 0 },
            s0_irq_raw: InterruptStatus { raw: 0 },
            s0_irq_status: InterruptStatus { raw: 0 },
            s0_irq_clear: InterruptClear { raw: 0 },
            s0_rx_fifo_trigger: TriggerLevel { raw: 0 },
            s0_tx_fifo_trigger: TriggerLevel { raw: 0 },
            s0_fifo_clear: FifoClear { raw: 0 },
            s0_address_b: Address { raw: 0 },
            s0_addressmask_b: AddressMask { raw: 0 },
        }
    }
}

} // verus!
