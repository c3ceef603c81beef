//! The registers of the pin configuration.
use crate::bits::{
    get_bit, get_field, lemma_bit_and_field, lemma_field_bound, lemma_set_bit_get_bit,
    lemma_set_field_get_field, lemma_set_field_keeps_field, set_bit, set_field, spec_get_bit,
    spec_get_field, spec_set_bit, spec_set_field,
};
use crate::gpio::ll::DynPinId;
use vstd::prelude::*;

verus! {

/// Address of the registers of the pin configuration.
pub const BASE_ADDR: usize = 0x4001_1000;

/// What the peripheral ID register of the pin configuration reads.
pub const IOCONFIG_PERID: u32 = 0x0282_07E9;

/// Number of pin configuration registers: 16 for each of the ports A to F, 8 for port G.
pub const NUM_PIN_CONFIGS: usize = 104;

/// The glitch filter of an input.
#[derive(Debug, Clone, Copy, PartialEq, Eq, Structural)]
pub enum FilterType {
    SysClk,
    DirectInput,
    FilterOneCycle,
    FilterTwoCycles,
    FilterThreeCycles,
    FilterFourCycles,
}

impl FilterType {
    /// The bits that stand for the variant in a register.
    #[verifier::allow_in_spec]
    pub fn raw_value(self) -> u32
        returns
            (match self {
                FilterType::SysClk => 0u32,
                FilterType::DirectInput => 1u32,
                FilterType::FilterOneCycle => 2u32,
                FilterType::FilterTwoCycles => 3u32,
                FilterType::FilterThreeCycles => 4u32,
                FilterType::FilterFourCycles => 5u32,
            }),
    {
        match self {
            FilterType::SysClk => 0,
            FilterType::DirectInput => 1,
            FilterType::FilterOneCycle => 2,
            FilterType::FilterTwoCycles => 3,
            FilterType::FilterThreeCycles => 4,
            FilterType::FilterFourCycles => 5,
        }
    }

    /// The variant that the bits `raw` stand for, if they stand for one.
    #[verifier::allow_in_spec]
    pub fn from_bits(raw: u32) -> Option<FilterType>
        returns
            (if raw == 0 {
                Some(FilterType::SysClk)
            } else if raw == 1 {
                Some(FilterType::DirectInput)
            } else if raw == 2 {
                Some(FilterType::FilterOneCycle)
            } else if raw == 3 {
                Some(FilterType::FilterTwoCycles)
            } else if raw == 4 {
                Some(FilterType::FilterThreeCycles)
            } else if raw == 5 {
                Some(FilterType::FilterFourCycles)
            } else {
                None
            }),
    {
        if raw == 0 {
            Some(FilterType::SysClk)
        } else if raw == 1 {
            Some(FilterType::DirectInput)
        } else if raw == 2 {
            Some(FilterType::FilterOneCycle)
        } else if raw == 3 {
            Some(FilterType::FilterTwoCycles)
        } else if raw == 4 {
            Some(FilterType::FilterThreeCycles)
        } else if raw == 5 {
            Some(FilterType::FilterFourCycles)
        } else {
            None
        }
    }

    /// Each variant is found again from its bits, which fit in the field.
    pub proof fn lemma_round_trip(self)
        ensures
            FilterType::from_bits(self.raw_value()) == Some(self),
            self.raw_value() < 8,
    {
    }
}

/// The clock of the glitch filter of an input.
#[derive(Debug, Clone, Copy, PartialEq, Eq, Structural)]
pub enum FilterClockSelect {
    SysClk,
    Clk1,
    Clk2,
    Clk3,
    Clk4,
    Clk5,
    Clk6,
    Clk7,
}

impl FilterClockSelect {
    /// The bits that stand for the variant in a register.
    #[verifier::allow_in_spec]
    pub fn raw_value(self) -> u32
        returns
            (match self {
                FilterClockSelect::SysClk => 0u32,
                FilterClockSelect::Clk1 => 1u32,
                FilterClockSelect::Clk2 => 2u32,
                FilterClockSelect::Clk3 => 3u32,
                FilterClockSelect::Clk4 => 4u32,
                FilterClockSelect::Clk5 => 5u32,
                FilterClockSelect::Clk6 => 6u32,
                FilterClockSelect::Clk7 => 7u32,
            }),
    {
        match self {
            FilterClockSelect::SysClk => 0,
            FilterClockSelect::Clk1 => 1,
            FilterClockSelect::Clk2 => 2,
            FilterClockSelect::Clk3 => 3,
            FilterClockSelect::Clk4 => 4,
            FilterClockSelect::Clk5 => 5,
            FilterClockSelect::Clk6 => 6,
            FilterClockSelect::Clk7 => 7,
        }
    }

    /// The variant that the bits `raw` stand for. Of `raw`, the low 3 bits count.
    #[verifier::allow_in_spec]
    pub fn from_bits(raw: u32) -> FilterClockSelect
        returns
            (if raw == 0 {
                FilterClockSelect::SysClk
            } else if raw == 1 {
                FilterClockSelect::Clk1
            } else if raw == 2 {
                FilterClockSelect::Clk2
            } else if raw == 3 {
                FilterClockSelect::Clk3
            } else if raw == 4 {
                FilterClockSelect::Clk4
            } else if raw == 5 {
                FilterClockSelect::Clk5
            } else if raw == 6 {
                FilterClockSelect::Clk6
            } else {
                FilterClockSelect::Clk7
            }),
    {
        if raw == 0 {
            FilterClockSelect::SysClk
        } else if raw == 1 {
            FilterClockSelect::Clk1
        } else if raw == 2 {
            FilterClockSelect::Clk2
        } else if raw == 3 {
            FilterClockSelect::Clk3
        } else if raw == 4 {
            FilterClockSelect::Clk4
        } else if raw == 5 {
            FilterClockSelect::Clk5
        } else if raw == 6 {
            FilterClockSelect::Clk6
        } else {
            FilterClockSelect::Clk7
        }
    }

    /// Each variant is found again from its bits, which fit in the field.
    pub proof fn lemma_round_trip(self)
        ensures
            FilterClockSelect::from_bits(self.raw_value()) == self,
            self.raw_value() < 8,
    {
    }
}

/// The direction of the pull resistor of a pin.
#[derive(Debug, Clone, Copy, PartialEq, Eq, Structural)]
pub enum Pull {
    Up,
    Down,
}

impl Pull {
    /// The bits that stand for the variant in a register.
    #[verifier::allow_in_spec]
    pub fn raw_value(self) -> u32
        returns
            (match self {
                Pull::Up => 0u32,
                Pull::Down => 1u32,
            }),
    {
        match self {
            Pull::Up => 0,
            Pull::Down => 1,
        }
    }

    /// The variant that the bits `raw` stand for. Of `raw`, the low bit count.
    #[verifier::allow_in_spec]
    pub fn from_bits(raw: u32) -> Pull
        returns
            (if raw == 0 {
                Pull::Up
            } else {
                Pull::Down
            }),
    {
        if raw == 0 {
            Pull::Up
        } else {
            Pull::Down
        }
    }

    /// Each variant is found again from its bits, which fit in the field.
    pub proof fn lemma_round_trip(self)
        ensures
            Pull::from_bits(self.raw_value()) == self,
            self.raw_value() < 2,
    {
    }
}

/// The function of a pin: the GPIO or one of three peripheral functions.
#[derive(Debug, Clone, Copy, PartialEq, Eq, Structural)]
pub enum FunctionSelect {
    Sel0,
    Sel1,
    Sel2,
    Sel3,
}

impl FunctionSelect {
    /// The bits that stand for the variant in a register.
    #[verifier::allow_in_spec]
    pub fn raw_value(self) -> u32
        returns
            (match self {
                FunctionSelect::Sel0 => 0b00u32,
                FunctionSelect::Sel1 => 0b01u32,
                FunctionSelect::Sel2 => 0b10u32,
                FunctionSelect::Sel3 => 0b11u32,
            }),
    {
        match self {
            FunctionSelect::Sel0 => 0b00,
            FunctionSelect::Sel1 => 0b01,
            FunctionSelect::Sel2 => 0b10,
            FunctionSelect::Sel3 => 0b11,
        }
    }

    /// The variant that the bits `raw` stand for. Of `raw`, the low 2 bits count.
    #[verifier::allow_in_spec]
    pub fn from_bits(raw: u32) -> FunctionSelect
        returns
            (if raw == 0b00 {
                FunctionSelect::Sel0
            } else if raw == 0b01 {
                FunctionSelect::Sel1
            } else if raw == 0b10 {
                FunctionSelect::Sel2
            } else {
                FunctionSelect::Sel3
            }),
    {
        if raw == 0b00 {
            FunctionSelect::Sel0
        } else if raw == 0b01 {
            FunctionSelect::Sel1
        } else if raw == 0b10 {
            FunctionSelect::Sel2
        } else {
            FunctionSelect::Sel3
        }
    }

    /// Each variant is found again from its bits, which fit in the field.
    pub proof fn lemma_round_trip(self)
        ensures
            FunctionSelect::from_bits(self.raw_value()) == self,
            self.raw_value() < 4,
    {
    }
}

/// The configuration register of one pin.
#[derive(Debug, Clone, Copy, PartialEq, Eq, Structural)]
pub struct Config {
    pub raw: u32,
}

impl Config {
    /// The register value with the bits `raw`.
    #[verifier::allow_in_spec]
    pub fn new_with_raw_value(raw: u32) -> Config
        returns
            (Config { raw }),
    {
        Config { raw }
    }

    /// The bits of the register value.
    #[verifier::allow_in_spec]
    pub fn raw_value(&self) -> u32
        returns
            self.raw,
    {
        self.raw
    }

    /// Whether the pin is cut off.
    #[verifier::allow_in_spec]
    pub fn io_disable(&self) -> bool
        returns
            spec_get_bit(self.raw, 16),
    {
        get_bit(self.raw, 16)
    }

    /// The same value with `io_disable` replaced by `v`.
    #[verifier::allow_in_spec]
    pub fn with_io_disable(self, v: bool) -> Config
        returns
            (Config { raw: spec_set_bit(self.raw, 16, v) }),
    {
        Config { raw: set_bit(self.raw, 16, v) }
    }

    /// The function of the pin.
    #[verifier::allow_in_spec]
    pub fn funsel(&self) -> FunctionSelect
        returns
            (FunctionSelect::from_bits(spec_get_field(self.raw, 13, 2))),
    {
        FunctionSelect::from_bits(get_field(self.raw, 13, 2))
    }

    /// The same value with `funsel` replaced by `v`.
    #[verifier::allow_in_spec]
    pub fn with_funsel(self, v: FunctionSelect) -> Config
        returns
            (Config { raw: spec_set_field(self.raw, 13, 2, v.raw_value()) }),
    {
        Config { raw: set_field(self.raw, 13, 2, v.raw_value()) }
    }

    /// Bit 12 of the register.
    #[verifier::allow_in_spec]
    pub fn pull_when_output_active(&self) -> bool
        returns
            spec_get_bit(self.raw, 12),
    {
        get_bit(self.raw, 12)
    }

    /// The same value with `pull_when_output_active` replaced by `v`.
    #[verifier::allow_in_spec]
    pub fn with_pull_when_output_active(self, v: bool) -> Config
        returns
            (Config { raw: spec_set_bit(self.raw, 12, v) }),
    {
        Config { raw: set_bit(self.raw, 12, v) }
    }

    /// Whether the pull resistor is on.
    #[verifier::allow_in_spec]
    pub fn pull_enable(&self) -> bool
        returns
            spec_get_bit(self.raw, 11),
    {
        get_bit(self.raw, 11)
    }

    /// The same value with `pull_enable` replaced by `v`.
    #[verifier::allow_in_spec]
    pub fn with_pull_enable(self, v: bool) -> Config
        returns
            (Config { raw: spec_set_bit(self.raw, 11, v) }),
    {
        Config { raw: set_bit(self.raw, 11, v) }
    }

    /// The direction of the pull resistor.
    #[verifier::allow_in_spec]
    pub fn pull_dir(&self) -> Pull
        returns
            (Pull::from_bits(spec_get_field(self.raw, 10, 1))),
    {
        Pull::from_bits(get_field(self.raw, 10, 1))
    }

    /// The same value with `pull_dir` replaced by `v`.
    #[verifier::allow_in_spec]
    pub fn with_pull_dir(self, v: Pull) -> Config
        returns
            (Config { raw: spec_set_field(self.raw, 10, 1, v.raw_value()) }),
    {
        Config { raw: set_field(self.raw, 10, 1, v.raw_value()) }
    }

    /// Bit 9 of the register.
    #[verifier::allow_in_spec]
    pub fn invert_output(&self) -> bool
        returns
            spec_get_bit(self.raw, 9),
    {
        get_bit(self.raw, 9)
    }

    /// The same value with `invert_output` replaced by `v`.
    #[verifier::allow_in_spec]
    pub fn with_invert_output(self, v: bool) -> Config
        returns
            (Config { raw: spec_set_bit(self.raw, 9, v) }),
    {
        Config { raw: set_bit(self.raw, 9, v) }
    }

    /// Bit 8 of the register.
    #[verifier::allow_in_spec]
    pub fn open_drain(&self) -> bool
        returns
            spec_get_bit(self.raw, 8),
    {
        get_bit(self.raw, 8)
    }

    /// The same value with `open_drain` replaced by `v`.
    #[verifier::allow_in_spec]
    pub fn with_open_drain(self, v: bool) -> Config
        returns
            (Config { raw: spec_set_bit(self.raw, 8, v) }),
    {
        Config { raw: set_bit(self.raw, 8, v) }
    }

    /// Allows the output value to be read back.
    #[verifier::allow_in_spec]
    pub fn input_enable_when_output(&self) -> bool
        returns
            spec_get_bit(self.raw, 7),
    {
        get_bit(self.raw, 7)
    }

    /// The same value with `input_enable_when_output` replaced by `v`.
    #[verifier::allow_in_spec]
    pub fn with_input_enable_when_output(self, v: bool) -> Config
        returns
            (Config { raw: spec_set_bit(self.raw, 7, v) }),
    {
        Config { raw: set_bit(self.raw, 7, v) }
    }

    /// Bit 6 of the register.
    #[verifier::allow_in_spec]
    pub fn invert_input(&self) -> bool
        returns
            spec_get_bit(self.raw, 6),
    {
        get_bit(self.raw, 6)
    }

    /// The same value with `invert_input` replaced by `v`.
    #[verifier::allow_in_spec]
    pub fn with_invert_input(self, v: bool) -> Config
        returns
            (Config { raw: spec_set_bit(self.raw, 6, v) }),
    {
        Config { raw: set_bit(self.raw, 6, v) }
    }

    /// The clock of the glitch filter.
    #[verifier::allow_in_spec]
    pub fn filter_clk_sel(&self) -> FilterClockSelect
        returns
            (FilterClockSelect::from_bits(spec_get_field(self.raw, 3, 3))),
    {
        FilterClockSelect::from_bits(get_field(self.raw, 3, 3))
    }

    /// The same value with `filter_clk_sel` replaced by `v`.
    #[verifier::allow_in_spec]
    pub fn with_filter_clk_sel(self, v: FilterClockSelect) -> Config
        returns
            (Config { raw: spec_set_field(self.raw, 3, 3, v.raw_value()) }),
    {
        Config { raw: set_field(self.raw, 3, 3, v.raw_value()) }
    }

    /// The glitch filter.
    #[verifier::allow_in_spec]
    pub fn filter_type(&self) -> Option<FilterType>
        returns
            (FilterType::from_bits(spec_get_field(self.raw, 0, 3))),
    {
        FilterType::from_bits(get_field(self.raw, 0, 3))
    }

    /// The same value with `filter_type` replaced by `v`.
    #[verifier::allow_in_spec]
    pub fn with_filter_type(self, v: FilterType) -> Config
        returns
            (Config { raw: spec_set_field(self.raw, 0, 3, v.raw_value()) }),
    {
        Config { raw: set_field(self.raw, 0, 3, v.raw_value()) }
    }

    /// After `io_disable` is set, it reads as what was set and every other field as before.
    pub proof fn lemma_with_io_disable(self, v: bool)
        ensures
            self.with_io_disable(v).io_disable() == v,
            self.with_io_disable(v).funsel() == self.funsel(),
            self.with_io_disable(v).pull_when_output_active() == self.pull_when_output_active(),
            self.with_io_disable(v).pull_enable() == self.pull_enable(),
            self.with_io_disable(v).pull_dir() == self.pull_dir(),
            self.with_io_disable(v).invert_output() == self.invert_output(),
            self.with_io_disable(v).open_drain() == self.open_drain(),
            self.with_io_disable(v).input_enable_when_output() == self.input_enable_when_output(),
            self.with_io_disable(v).invert_input() == self.invert_input(),
            self.with_io_disable(v).filter_clk_sel() == self.filter_clk_sel(),
            self.with_io_disable(v).filter_type() == self.filter_type(),
    {
        lemma_set_bit_get_bit(self.raw, 16, v, 16);
        lemma_bit_and_field(self.raw, 16, v, 13, 2, 0);
        lemma_set_bit_get_bit(self.raw, 16, v, 12);
        lemma_set_bit_get_bit(self.raw, 16, v, 11);
        lemma_bit_and_field(self.raw, 16, v, 10, 1, 0);
        lemma_set_bit_get_bit(self.raw, 16, v, 9);
        lemma_set_bit_get_bit(self.raw, 16, v, 8);
        lemma_set_bit_get_bit(self.raw, 16, v, 7);
        lemma_set_bit_get_bit(self.raw, 16, v, 6);
        lemma_bit_and_field(self.raw, 16, v, 3, 3, 0);
        lemma_bit_and_field(self.raw, 16, v, 0, 3, 0);
    }

    /// After `funsel` is set, it reads as what was set and every other field as before.
    pub proof fn lemma_with_funsel(self, v: FunctionSelect)
        ensures
            self.with_funsel(v).io_disable() == self.io_disable(),
            self.with_funsel(v).funsel() == v,
            self.with_funsel(v).pull_when_output_active() == self.pull_when_output_active(),
            self.with_funsel(v).pull_enable() == self.pull_enable(),
            self.with_funsel(v).pull_dir() == self.pull_dir(),
            self.with_funsel(v).invert_output() == self.invert_output(),
            self.with_funsel(v).open_drain() == self.open_drain(),
            self.with_funsel(v).input_enable_when_output() == self.input_enable_when_output(),
            self.with_funsel(v).invert_input() == self.invert_input(),
            self.with_funsel(v).filter_clk_sel() == self.filter_clk_sel(),
            self.with_funsel(v).filter_type() == self.filter_type(),
    {
        v.lemma_round_trip();
        lemma_field_bound(self.raw, 13, 2);
        lemma_bit_and_field(self.raw, 16, true, 13, 2, v.raw_value());
        lemma_set_field_get_field(self.raw, 13, 2, v.raw_value());
        lemma_bit_and_field(self.raw, 12, true, 13, 2, v.raw_value());
        lemma_bit_and_field(self.raw, 11, true, 13, 2, v.raw_value());
        lemma_set_field_keeps_field(self.raw, 13, 2, v.raw_value(), 10, 1);
        lemma_bit_and_field(self.raw, 9, true, 13, 2, v.raw_value());
        lemma_bit_and_field(self.raw, 8, true, 13, 2, v.raw_value());
        lemma_bit_and_field(self.raw, 7, true, 13, 2, v.raw_value());
        lemma_bit_and_field(self.raw, 6, true, 13, 2, v.raw_value());
        lemma_set_field_keeps_field(self.raw, 13, 2, v.raw_value(), 3, 3);
        lemma_set_field_keeps_field(self.raw, 13, 2, v.raw_value(), 0, 3);
    }

    /// After `pull_when_output_active` is set, it reads as what was set and every other field as before.
    pub proof fn lemma_with_pull_when_output_active(self, v: bool)
        ensures
            self.with_pull_when_output_active(v).io_disable() == self.io_disable(),
            self.with_pull_when_output_active(v).funsel() == self.funsel(),
            self.with_pull_when_output_active(v).pull_when_output_active() == v,
            self.with_pull_when_output_active(v).pull_enable() == self.pull_enable(),
            self.with_pull_when_output_active(v).pull_dir() == self.pull_dir(),
            self.with_pull_when_output_active(v).invert_output() == self.invert_output(),
            self.with_pull_when_output_active(v).open_drain() == self.open_drain(),
            self.with_pull_when_output_active(v).input_enable_when_output() == self.input_enable_when_output(),
            self.with_pull_when_output_active(v).invert_input() == self.invert_input(),
            self.with_pull_when_output_active(v).filter_clk_sel() == self.filter_clk_sel(),
            self.with_pull_when_output_active(v).filter_type() == self.filter_type(),
    {
        lemma_set_bit_get_bit(self.raw, 12, v, 16);
        lemma_bit_and_field(self.raw, 12, v, 13, 2, 0);
        lemma_set_bit_get_bit(self.raw, 12, v, 12);
        lemma_set_bit_get_bit(self.raw, 12, v, 11);
        lemma_bit_and_field(self.raw, 12, v, 10, 1, 0);
        lemma_set_bit_get_bit(self.raw, 12, v, 9);
        lemma_set_bit_get_bit(self.raw, 12, v, 8);
        lemma_set_bit_get_bit(self.raw, 12, v, 7);
        lemma_set_bit_get_bit(self.raw, 12, v, 6);
        lemma_bit_and_field(self.raw, 12, v, 3, 3, 0);
        lemma_bit_and_field(self.raw, 12, v, 0, 3, 0);
    }

    /// After `pull_enable` is set, it reads as what was set and every other field as before.
    pub proof fn lemma_with_pull_enable(self, v: bool)
        ensures
            self.with_pull_enable(v).io_disable() == self.io_disable(),
            self.with_pull_enable(v).funsel() == self.funsel(),
            self.with_pull_enable(v).pull_when_output_active() == self.pull_when_output_active(),
            self.with_pull_enable(v).pull_enable() == v,
            self.with_pull_enable(v).pull_dir() == self.pull_dir(),
            self.with_pull_enable(v).invert_output() == self.invert_output(),
            self.with_pull_enable(v).open_drain() == self.open_drain(),
            self.with_pull_enable(v).input_enable_when_output() == self.input_enable_when_output(),
            self.with_pull_enable(v).invert_input() == self.invert_input(),
            self.with_pull_enable(v).filter_clk_sel() == self.filter_clk_sel(),
            self.with_pull_enable(v).filter_type() == self.filter_type(),
    {
        lemma_set_bit_get_bit(self.raw, 11, v, 16);
        lemma_bit_and_field(self.raw, 11, v, 13, 2, 0);
        lemma_set_bit_get_bit(self.raw, 11, v, 12);
        lemma_set_bit_get_bit(self.raw, 11, v, 11);
        lemma_bit_and_field(self.raw, 11, v, 10, 1, 0);
        lemma_set_bit_get_bit(self.raw, 11, v, 9);
        lemma_set_bit_get_bit(self.raw, 11, v, 8);
        lemma_set_bit_get_bit(self.raw, 11, v, 7);
        lemma_set_bit_get_bit(self.raw, 11, v, 6);
        lemma_bit_and_field(self.raw, 11, v, 3, 3, 0);
        lemma_bit_and_field(self.raw, 11, v, 0, 3, 0);
    }

    /// After `pull_dir` is set, it reads as what was set and every other field as before.
    pub proof fn lemma_with_pull_dir(self, v: Pull)
        ensures
            self.with_pull_dir(v).io_disable() == self.io_disable(),
            self.with_pull_dir(v).funsel() == self.funsel(),
            self.with_pull_dir(v).pull_when_output_active() == self.pull_when_output_active(),
            self.with_pull_dir(v).pull_enable() == self.pull_enable(),
            self.with_pull_dir(v).pull_dir() == v,
            self.with_pull_dir(v).invert_output() == self.invert_output(),
            self.with_pull_dir(v).open_drain() == self.open_drain(),
            self.with_pull_dir(v).input_enable_when_output() == self.input_enable_when_output(),
            self.with_pull_dir(v).invert_input() == self.invert_input(),
            self.with_pull_dir(v).filter_clk_sel() == self.filter_clk_sel(),
            self.with_pull_dir(v).filter_type() == self.filter_type(),
    {
        v.lemma_round_trip();
        lemma_field_bound(self.raw, 10, 1);
        lemma_bit_and_field(self.raw, 16, true, 10, 1, v.raw_value());
        lemma_set_field_keeps_field(self.raw, 10, 1, v.raw_value(), 13, 2);
        lemma_bit_and_field(self.raw, 12, true, 10, 1, v.raw_value());
        lemma_bit_and_field(self.raw, 11, true, 10, 1, v.raw_value());
        lemma_set_field_get_field(self.raw, 10, 1, v.raw_value());
        lemma_bit_and_field(self.raw, 9, true, 10, 1, v.raw_value());
        lemma_bit_and_field(self.raw, 8, true, 10, 1, v.raw_value());
        lemma_bit_and_field(self.raw, 7, true, 10, 1, v.raw_value());
        lemma_bit_and_field(self.raw, 6, true, 10, 1, v.raw_value());
        lemma_set_field_keeps_field(self.raw, 10, 1, v.raw_value(), 3, 3);
        lemma_set_field_keeps_field(self.raw, 10, 1, v.raw_value(), 0, 3);
    }

    /// After `invert_output` is set, it reads as what was set and every other field as before.
    pub proof fn lemma_with_invert_output(self, v: bool)
        ensures
            self.with_invert_output(v).io_disable() == self.io_disable(),
            self.with_invert_output(v).funsel() == self.funsel(),
            self.with_invert_output(v).pull_when_output_active() == self.pull_when_output_active(),
            self.with_invert_output(v).pull_enable() == self.pull_enable(),
            self.with_invert_output(v).pull_dir() == self.pull_dir(),
            self.with_invert_output(v).invert_output() == v,
            self.with_invert_output(v).open_drain() == self.open_drain(),
            self.with_invert_output(v).input_enable_when_output() == self.input_enable_when_output(),
            self.with_invert_output(v).invert_input() == self.invert_input(),
            self.with_invert_output(v).filter_clk_sel() == self.filter_clk_sel(),
            self.with_invert_output(v).filter_type() == self.filter_type(),
    {
        lemma_set_bit_get_bit(self.raw, 9, v, 16);
        lemma_bit_and_field(self.raw, 9, v, 13, 2, 0);
        lemma_set_bit_get_bit(self.raw, 9, v, 12);
        lemma_set_bit_get_bit(self.raw, 9, v, 11);
        lemma_bit_and_field(self.raw, 9, v, 10, 1, 0);
        lemma_set_bit_get_bit(self.raw, 9, v, 9);
        lemma_set_bit_get_bit(self.raw, 9, v, 8);
        lemma_set_bit_get_bit(self.raw, 9, v, 7);
        lemma_set_bit_get_bit(self.raw, 9, v, 6);
        lemma_bit_and_field(self.raw, 9, v, 3, 3, 0);
        lemma_bit_and_field(self.raw, 9, v, 0, 3, 0);
    }

    /// After `open_drain` is set, it reads as what was set and every other field as before.
    pub proof fn lemma_with_open_drain(self, v: bool)
        ensures
            self.with_open_drain(v).io_disable() == self.io_disable(),
            self.with_open_drain(v).funsel() == self.funsel(),
            self.with_open_drain(v).pull_when_output_active() == self.pull_when_output_active(),
            self.with_open_drain(v).pull_enable() == self.pull_enable(),
            self.with_open_drain(v).pull_dir() == self.pull_dir(),
            self.with_open_drain(v).invert_output() == self.invert_output(),
            self.with_open_drain(v).open_drain() == v,
            self.with_open_drain(v).input_enable_when_output() == self.input_enable_when_output(),
            self.with_open_drain(v).invert_input() == self.invert_input(),
            self.with_open_drain(v).filter_clk_sel() == self.filter_clk_sel(),
            self.with_open_drain(v).filter_type() == self.filter_type(),
    {
        lemma_set_bit_get_bit(self.raw, 8, v, 16);
        lemma_bit_and_field(self.raw, 8, v, 13, 2, 0);
        lemma_set_bit_get_bit(self.raw, 8, v, 12);
        lemma_set_bit_get_bit(self.raw, 8, v, 11);
        lemma_bit_and_field(self.raw, 8, v, 10, 1, 0);
        lemma_set_bit_get_bit(self.raw, 8, v, 9);
        lemma_set_bit_get_bit(self.raw, 8, v, 8);
        lemma_set_bit_get_bit(self.raw, 8, v, 7);
        lemma_set_bit_get_bit(self.raw, 8, v, 6);
        lemma_bit_and_field(self.raw, 8, v, 3, 3, 0);
        lemma_bit_and_field(self.raw, 8, v, 0, 3, 0);
    }

    /// After `input_enable_when_output` is set, it reads as what was set and every other field as before.
    pub proof fn lemma_with_input_enable_when_output(self, v: bool)
        ensures
            self.with_input_enable_when_output(v).io_disable() == self.io_disable(),
            self.with_input_enable_when_output(v).funsel() == self.funsel(),
            self.with_input_enable_when_output(v).pull_when_output_active() == self.pull_when_output_active(),
            self.with_input_enable_when_output(v).pull_enable() == self.pull_enable(),
            self.with_input_enable_when_output(v).pull_dir() == self.pull_dir(),
            self.with_input_enable_when_output(v).invert_output() == self.invert_output(),
            self.with_input_enable_when_output(v).open_drain() == self.open_drain(),
            self.with_input_enable_when_output(v).input_enable_when_output() == v,
            self.with_input_enable_when_output(v).invert_input() == self.invert_input(),
            self.with_input_enable_when_output(v).filter_clk_sel() == self.filter_clk_sel(),
            self.with_input_enable_when_output(v).filter_type() == self.filter_type(),
    {
        lemma_set_bit_get_bit(self.raw, 7, v, 16);
        lemma_bit_and_field(self.raw, 7, v, 13, 2, 0);
        lemma_set_bit_get_bit(self.raw, 7, v, 12);
        lemma_set_bit_get_bit(self.raw, 7, v, 11);
        lemma_bit_and_field(self.raw, 7, v, 10, 1, 0);
        lemma_set_bit_get_bit(self.raw, 7, v, 9);
        lemma_set_bit_get_bit(self.raw, 7, v, 8);
        lemma_set_bit_get_bit(self.raw, 7, v, 7);
        lemma_set_bit_get_bit(self.raw, 7, v, 6);
        lemma_bit_and_field(self.raw, 7, v, 3, 3, 0);
        lemma_bit_and_field(self.raw, 7, v, 0, 3, 0);
    }

    /// After `invert_input` is set, it reads as what was set and every other field as before.
    pub proof fn lemma_with_invert_input(self, v: bool)
        ensures
            self.with_invert_input(v).io_disable() == self.io_disable(),
            self.with_invert_input(v).funsel() == self.funsel(),
            self.with_invert_input(v).pull_when_output_active() == self.pull_when_output_active(),
            self.with_invert_input(v).pull_enable() == self.pull_enable(),
            self.with_invert_input(v).pull_dir() == self.pull_dir(),
            self.with_invert_input(v).invert_output() == self.invert_output(),
            self.with_invert_input(v).open_drain() == self.open_drain(),
            self.with_invert_input(v).input_enable_when_output() == self.input_enable_when_output(),
            self.with_invert_input(v).invert_input() == v,
            self.with_invert_input(v).filter_clk_sel() == self.filter_clk_sel(),
            self.with_invert_input(v).filter_type() == self.filter_type(),
    {
        lemma_set_bit_get_bit(self.raw, 6, v, 16);
        lemma_bit_and_field(self.raw, 6, v, 13, 2, 0);
        lemma_set_bit_get_bit(self.raw, 6, v, 12);
        lemma_set_bit_get_bit(self.raw, 6, v, 11);
        lemma_bit_and_field(self.raw, 6, v, 10, 1, 0);
        lemma_set_bit_get_bit(self.raw, 6, v, 9);
        lemma_set_bit_get_bit(self.raw, 6, v, 8);
        lemma_set_bit_get_bit(self.raw, 6, v, 7);
        lemma_set_bit_get_bit(self.raw, 6, v, 6);
        lemma_bit_and_field(self.raw, 6, v, 3, 3, 0);
        lemma_bit_and_field(self.raw, 6, v, 0, 3, 0);
    }

    /// After `filter_clk_sel` is set, it reads as what was set and every other field as before.
    pub proof fn lemma_with_filter_clk_sel(self, v: FilterClockSelect)
        ensures
            self.with_filter_clk_sel(v).io_disable() == self.io_disable(),
            self.with_filter_clk_sel(v).funsel() == self.funsel(),
            self.with_filter_clk_sel(v).pull_when_output_active() == self.pull_when_output_active(),
            self.with_filter_clk_sel(v).pull_enable() == self.pull_enable(),
            self.with_filter_clk_sel(v).pull_dir() == self.pull_dir(),
            self.with_filter_clk_sel(v).invert_output() == self.invert_output(),
            self.with_filter_clk_sel(v).open_drain() == self.open_drain(),
            self.with_filter_clk_sel(v).input_enable_when_output() == self.input_enable_when_output(),
            self.with_filter_clk_sel(v).invert_input() == self.invert_input(),
            self.with_filter_clk_sel(v).filter_clk_sel() == v,
            self.with_filter_clk_sel(v).filter_type() == self.filter_type(),
    {
        v.lemma_round_trip();
        lemma_field_bound(self.raw, 3, 3);
        lemma_bit_and_field(self.raw, 16, true, 3, 3, v.raw_value());
        lemma_set_field_keeps_field(self.raw, 3, 3, v.raw_value(), 13, 2);
        lemma_bit_and_field(self.raw, 12, true, 3, 3, v.raw_value());
        lemma_bit_and_field(self.raw, 11, true, 3, 3, v.raw_value());
        lemma_set_field_keeps_field(self.raw, 3, 3, v.raw_value(), 10, 1);
        lemma_bit_and_field(self.raw, 9, true, 3, 3, v.raw_value());
        lemma_bit_and_field(self.raw, 8, true, 3, 3, v.raw_value());
        lemma_bit_and_field(self.raw, 7, true, 3, 3, v.raw_value());
        lemma_bit_and_field(self.raw, 6, true, 3, 3, v.raw_value());
        lemma_set_field_get_field(self.raw, 3, 3, v.raw_value());
        lemma_set_field_keeps_field(self.raw, 3, 3, v.raw_value(), 0, 3);
    }

    /// After `filter_type` is set, it reads as what was set and every other field as before.
    pub proof fn lemma_with_filter_type(self, v: FilterType)
        ensures
            self.with_filter_type(v).io_disable() == self.io_disable(),
            self.with_filter_type(v).funsel() == self.funsel(),
            self.with_filter_type(v).pull_when_output_active() == self.pull_when_output_active(),
            self.with_filter_type(v).pull_enable() == self.pull_enable(),
            self.with_filter_type(v).pull_dir() == self.pull_dir(),
            self.with_filter_type(v).invert_output() == self.invert_output(),
            self.with_filter_type(v).open_drain() == self.open_drain(),
            self.with_filter_type(v).input_enable_when_output() == self.input_enable_when_output(),
            self.with_filter_type(v).invert_input() == self.invert_input(),
            self.with_filter_type(v).filter_clk_sel() == self.filter_clk_sel(),
            self.with_filter_type(v).filter_type() == Some(v),
    {
        v.lemma_round_trip();
        lemma_field_bound(self.raw, 0, 3);
        lemma_bit_and_field(self.raw, 16, true, 0, 3, v.raw_value());
        lemma_set_field_keeps_field(self.raw, 0, 3, v.raw_value(), 13, 2);
        lemma_bit_and_field(self.raw, 12, true, 0, 3, v.raw_value());
        lemma_bit_and_field(self.raw, 11, true, 0, 3, v.raw_value());
        lemma_set_field_keeps_field(self.raw, 0, 3, v.raw_value(), 10, 1);
        lemma_bit_and_field(self.raw, 9, true, 0, 3, v.raw_value());
        lemma_bit_and_field(self.raw, 8, true, 0, 3, v.raw_value());
        lemma_bit_and_field(self.raw, 7, true, 0, 3, v.raw_value());
        lemma_bit_and_field(self.raw, 6, true, 0, 3, v.raw_value());
        lemma_set_field_keeps_field(self.raw, 0, 3, v.raw_value(), 3, 3);
        lemma_set_field_get_field(self.raw, 0, 3, v.raw_value());
    }
}

/// The registers of the pin configuration: one for each pin, the pins of a port after
/// each other and the ports after each other.
pub struct IoConfig {
    pub pins: [Config; 104],
    pub perid: u32,
}

impl IoConfig {
    /// Position of the configuration register of the pin `id`.
    pub open spec fn spec_index(id: DynPinId) -> int {
        id.port().index() * 16 + id.offset()
    }

    /// The configuration of the pin `id`.
    pub open spec fn spec_pin_config(&self, id: DynPinId) -> Config {
        self.pins@[Self::spec_index(id)]
    }

    /// The registers with the configuration `config` for the pin `id`.
    pub open spec fn spec_with_pin_config(&self, id: DynPinId, config: Config) -> Seq<Config> {
        self.pins@.update(Self::spec_index(id), config)
    }

    /// The registers as they are after a reset: all clear.
    pub fn new_mmio() -> (ioconfig: IoConfig)
        ensures
            forall|i: int| 0 <= i < 104 ==> ioconfig.pins@[i] == (Config { raw: 0 }),
            ioconfig.perid == IOCONFIG_PERID,
    {
        IoConfig { pins: [Config { raw: 0 };104], perid: IOCONFIG_PERID }
    }

    /// Position of the configuration register of the pin `id`.
    pub fn index(id: DynPinId) -> (index: usize)
        ensures
            index == Self::spec_index(id),
            index < NUM_PIN_CONFIGS,
    {
        let offset = id.offset();
        let port = id.port();
        port.index() * 16 + offset
    }

    /// Reads the configuration of the pin `id`.
    pub fn read_pin_config(&self, id: DynPinId) -> (config: Config)
        ensures
            config == self.spec_pin_config(id),
    {
        self.pins[Self::index(id)]
    }

    /// Writes the configuration of the pin `id`. No other pin changes.
    pub fn write_pin_config(&mut self, id: DynPinId, config: Config)
        ensures
            final(self).pins@ == old(self).spec_with_pin_config(id, config),
            final(self).perid == old(self).perid,
    {
        let index = Self::index(id);
        self.pins[index] = config;
    }

    /// Replaces the configuration of the pin `id` by what `f` makes of it.
    pub fn modify_pin_config<F: FnOnce(Config) -> Config>(&mut self, id: DynPinId, f: F)
        requires
            f.requires((old(self).spec_pin_config(id),)),
        ensures
            f.ensures((old(self).spec_pin_config(id),), final(self).spec_pin_config(id)),
            final(self).pins@ == old(self).spec_with_pin_config(id, final(self).spec_pin_config(id)),
            final(self).perid == old(self).perid,
    {
        proof {
            use_type_invariant(&id);
        }
        let config = self.read_pin_config(id);
        self.write_pin_config(id, f(config))
    }
}

} // verus!
