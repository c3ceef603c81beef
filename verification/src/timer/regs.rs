//! The registers of a timer.
use crate::bits::{
    get_bit, get_field, lemma_bit_and_field, lemma_field_bound, lemma_set_bit_get_bit,
    lemma_set_field_get_field, lemma_set_field_keeps_field, set_bit, set_field, spec_get_bit,
    spec_get_field, spec_set_bit, spec_set_field,
};
use crate::{Interrupt, TIM_IRQ_OFFSET};
use vstd::prelude::*;

verus! {

/// Address of the registers of timer 0. The timers follow each other at a distance of
/// [`TIMER_BLOCK_SIZE`].
pub const BASE_ADDR: usize = 0x4001_8000;

/// Distance between the registers of two timers that follow each other.
pub const TIMER_BLOCK_SIZE: usize = 0x400;

/// What the peripheral ID register of a timer reads.
pub const TIMER_PERID: u32 = 0x0211_07E9;

/// Number of timers.
pub const NUM_TIMERS: usize = 24;

/// What the status output of a timer shows.
#[derive(Debug, Clone, Copy, PartialEq, Eq, Structural)]
pub enum StatusSelect {
    /// Pulse when the timer reaches 0.
    OneCyclePulse,
    OutputActiveBit,
    /// Creates a divide by two output clock of the timer.
    ToggleOnEachCycle,
    /// 1 when the count value is at least the PWM A value, 0 otherwise.
    PwmaOutput,
    /// 1 when the count value is below the PWM A value and at least the PWM B value, 0
    /// otherwise.
    PwmbOutput,
    EnabledBit,
    /// 1 when the counter value is at most the PWM A value, 0 otherwise.
    PwmaActiveBit,
}

impl StatusSelect {
    /// The bits that stand for the variant in a register.
    #[verifier::allow_in_spec]
    pub fn raw_value(self) -> u32
        returns
            (match self {
                StatusSelect::OneCyclePulse => 0b000u32,
                StatusSelect::OutputActiveBit => 0b001u32,
                StatusSelect::ToggleOnEachCycle => 0b010u32,
                StatusSelect::PwmaOutput => 0b011u32,
                StatusSelect::PwmbOutput => 0b100u32,
                StatusSelect::EnabledBit => 0b101u32,
                StatusSelect::PwmaActiveBit => 0b110u32,
            }),
    {
        match self {
            StatusSelect::OneCyclePulse => 0b000,
            StatusSelect::OutputActiveBit => 0b001,
            StatusSelect::ToggleOnEachCycle => 0b010,
            StatusSelect::PwmaOutput => 0b011,
            StatusSelect::PwmbOutput => 0b100,
            StatusSelect::EnabledBit => 0b101,
            StatusSelect::PwmaActiveBit => 0b110,
        }
    }

    /// The variant that the bits `raw` stand for, if they stand for one.
    #[verifier::allow_in_spec]
    pub fn from_bits(raw: u32) -> Option<StatusSelect>
        returns
            (if raw == 0b000 {
                Some(StatusSelect::OneCyclePulse)
            } else if raw == 0b001 {
                Some(StatusSelect::OutputActiveBit)
            } else if raw == 0b010 {
                Some(StatusSelect::ToggleOnEachCycle)
            } else if raw == 0b011 {
                Some(StatusSelect::PwmaOutput)
            } else if raw == 0b100 {
                Some(StatusSelect::PwmbOutput)
            } else if raw == 0b101 {
                Some(StatusSelect::EnabledBit)
            } else if raw == 0b110 {
                Some(StatusSelect::PwmaActiveBit)
            } else {
                None
            }),
    {
        if raw == 0b000 {
            Some(StatusSelect::OneCyclePulse)
        } else if raw == 0b001 {
            Some(StatusSelect::OutputActiveBit)
        } else if raw == 0b010 {
            Some(StatusSelect::ToggleOnEachCycle)
        } else if raw == 0b011 {
            Some(StatusSelect::PwmaOutput)
        } else if raw == 0b100 {
            Some(StatusSelect::PwmbOutput)
        } else if raw == 0b101 {
            Some(StatusSelect::EnabledBit)
        } else if raw == 0b110 {
            Some(StatusSelect::PwmaActiveBit)
        } else {
            None
        }
    }

    /// Each variant is found again from its bits, which fit in the field.
    pub proof fn lemma_round_trip(self)
        ensures
            StatusSelect::from_bits(self.raw_value()) == Some(self),
            self.raw_value() < 8,
    {
    }
}

/// The control register of a timer.
#[derive(Debug, Clone, Copy, PartialEq, Eq, Structural)]
pub struct Control {
    pub raw: u32,
}

impl Control {
    /// The register value with the bits `raw`.
    #[verifier::allow_in_spec]
    pub fn new_with_raw_value(raw: u32) -> Control
        returns
            (Control { raw }),
    {
        Control { raw }
    }

    /// The bits of the register value.
    #[verifier::allow_in_spec]
    pub fn raw_value(&self) -> u32
        returns
            self.raw,
    {
        self.raw
    }

    /// The counter is requested to stop on the next normal count cycle.
    #[verifier::allow_in_spec]
    pub fn request_stop(&self) -> bool
        returns
            spec_get_bit(self.raw, 9),
    {
        get_bit(self.raw, 9)
    }

    /// The same value with `request_stop` replaced by `v`.
    #[verifier::allow_in_spec]
    pub fn with_request_stop(self, v: bool) -> Control
        returns
            (Control { raw: spec_set_bit(self.raw, 9, v) }),
    {
        Control { raw: set_bit(self.raw, 9, v) }
    }

    /// Whether the status output is inverted.
    #[verifier::allow_in_spec]
    pub fn status_invert(&self) -> bool
        returns
            spec_get_bit(self.raw, 8),
    {
        get_bit(self.raw, 8)
    }

    /// The same value with `status_invert` replaced by `v`.
    #[verifier::allow_in_spec]
    pub fn with_status_invert(self, v: bool) -> Control
        returns
            (Control { raw: spec_set_bit(self.raw, 8, v) }),
    {
        Control { raw: set_bit(self.raw, 8, v) }
    }

    /// What the status output shows.
    #[verifier::allow_in_spec]
    pub fn status_sel(&self) -> Option<StatusSelect>
        returns
            (StatusSelect::from_bits(spec_get_field(self.raw, 5, 3))),
    {
        StatusSelect::from_bits(get_field(self.raw, 5, 3))
    }

    /// The same value with `status_sel` replaced by `v`.
    #[verifier::allow_in_spec]
    pub fn with_status_sel(self, v: StatusSelect) -> Control
        returns
            (Control { raw: spec_set_field(self.raw, 5, 3, v.raw_value()) }),
    {
        Control { raw: set_field(self.raw, 5, 3, v.raw_value()) }
    }

    /// Whether the timer raises an interrupt when the count reaches 0.
    #[verifier::allow_in_spec]
    pub fn irq_enable(&self) -> bool
        returns
            spec_get_bit(self.raw, 4),
    {
        get_bit(self.raw, 4)
    }

    /// The same value with `irq_enable` replaced by `v`.
    #[verifier::allow_in_spec]
    pub fn with_irq_enable(self, v: bool) -> Control
        returns
            (Control { raw: spec_set_bit(self.raw, 4, v) }),
    {
        Control { raw: set_bit(self.raw, 4, v) }
    }

    /// Only applies if the auto-disable bit is 0. The active bit goes to 0 when the count
    /// reaches 0, but the timer remains enabled.
    #[verifier::allow_in_spec]
    pub fn auto_deactivate(&self) -> bool
        returns
            spec_get_bit(self.raw, 3),
    {
        get_bit(self.raw, 3)
    }

    /// The same value with `auto_deactivate` replaced by `v`.
    #[verifier::allow_in_spec]
    pub fn with_auto_deactivate(self, v: bool) -> Control
        returns
            (Control { raw: spec_set_bit(self.raw, 3, v) }),
    {
        Control { raw: set_bit(self.raw, 3, v) }
    }

    /// The counter is fully disabled when the count reaches 0: both the enable and the
    /// active bit go to 0.
    #[verifier::allow_in_spec]
    pub fn auto_disable(&self) -> bool
        returns
            spec_get_bit(self.raw, 2),
    {
        get_bit(self.raw, 2)
    }

    /// The same value with `auto_disable` replaced by `v`.
    #[verifier::allow_in_spec]
    pub fn with_auto_disable(self, v: bool) -> Control
        returns
            (Control { raw: spec_set_bit(self.raw, 2, v) }),
    {
        Control { raw: set_bit(self.raw, 2, v) }
    }

    /// Whether the counter is counting. The hardware sets it.
    #[verifier::allow_in_spec]
    pub fn active(&self) -> bool
        returns
            spec_get_bit(self.raw, 1),
    {
        get_bit(self.raw, 1)
    }

    /// The same value with `active` replaced by `v`.
    #[verifier::allow_in_spec]
    pub fn with_active(self, v: bool) -> Control
        returns
            (Control { raw: spec_set_bit(self.raw, 1, v) }),
    {
        Control { raw: set_bit(self.raw, 1, v) }
    }

    /// Whether the counter is enabled.
    #[verifier::allow_in_spec]
    pub fn enable(&self) -> bool
        returns
            spec_get_bit(self.raw, 0),
    {
        get_bit(self.raw, 0)
    }

    /// The same value with `enable` replaced by `v`.
    #[verifier::allow_in_spec]
    pub fn with_enable(self, v: bool) -> Control
        returns
            (Control { raw: spec_set_bit(self.raw, 0, v) }),
    {
        Control { raw: set_bit(self.raw, 0, v) }
    }

    /// After `request_stop` is set, it reads as what was set and every other field as before.
    pub proof fn lemma_with_request_stop(self, v: bool)
        ensures
            self.with_request_stop(v).request_stop() == v,
            self.with_request_stop(v).status_invert() == self.status_invert(),
            self.with_request_stop(v).status_sel() == self.status_sel(),
            self.with_request_stop(v).irq_enable() == self.irq_enable(),
            self.with_request_stop(v).auto_deactivate() == self.auto_deactivate(),
            self.with_request_stop(v).auto_disable() == self.auto_disable(),
            self.with_request_stop(v).active() == self.active(),
            self.with_request_stop(v).enable() == self.enable(),
    {
        lemma_set_bit_get_bit(self.raw, 9, v, 9);
        lemma_set_bit_get_bit(self.raw, 9, v, 8);
        lemma_bit_and_field(self.raw, 9, v, 5, 3, 0);
        lemma_set_bit_get_bit(self.raw, 9, v, 4);
        lemma_set_bit_get_bit(self.raw, 9, v, 3);
        lemma_set_bit_get_bit(self.raw, 9, v, 2);
        lemma_set_bit_get_bit(self.raw, 9, v, 1);
        lemma_set_bit_get_bit(self.raw, 9, v, 0);
    }

    /// After `status_invert` is set, it reads as what was set and every other field as before.
    pub proof fn lemma_with_status_invert(self, v: bool)
        ensures
            self.with_status_invert(v).request_stop() == self.request_stop(),
            self.with_status_invert(v).status_invert() == v,
            self.with_status_invert(v).status_sel() == self.status_sel(),
            self.with_status_invert(v).irq_enable() == self.irq_enable(),
            self.with_status_invert(v).auto_deactivate() == self.auto_deactivate(),
            self.with_status_invert(v).auto_disable() == self.auto_disable(),
            self.with_status_invert(v).active() == self.active(),
            self.with_status_invert(v).enable() == self.enable(),
    {
        lemma_set_bit_get_bit(self.raw, 8, v, 9);
        lemma_set_bit_get_bit(self.raw, 8, v, 8);
        lemma_bit_and_field(self.raw, 8, v, 5, 3, 0);
        lemma_set_bit_get_bit(self.raw, 8, v, 4);
        lemma_set_bit_get_bit(self.raw, 8, v, 3);
        lemma_set_bit_get_bit(self.raw, 8, v, 2);
        lemma_set_bit_get_bit(self.raw, 8, v, 1);
        lemma_set_bit_get_bit(self.raw, 8, v, 0);
    }

    /// After `status_sel` is set, it reads as what was set and every other field as before.
    pub proof fn lemma_with_status_sel(self, v: StatusSelect)
        ensures
            self.with_status_sel(v).request_stop() == self.request_stop(),
            self.with_status_sel(v).status_invert() == self.status_invert(),
            self.with_status_sel(v).status_sel() == Some(v),
            self.with_status_sel(v).irq_enable() == self.irq_enable(),
            self.with_status_sel(v).auto_deactivate() == self.auto_deactivate(),
            self.with_status_sel(v).auto_disable() == self.auto_disable(),
            self.with_status_sel(v).active() == self.active(),
            self.with_status_sel(v).enable() == self.enable(),
    {
        v.lemma_round_trip();
        lemma_field_bound(self.raw, 5, 3);
        lemma_bit_and_field(self.raw, 9, true, 5, 3, v.raw_value());
        lemma_bit_and_field(self.raw, 8, true, 5, 3, v.raw_value());
        lemma_set_field_get_field(self.raw, 5, 3, v.raw_value());
        lemma_bit_and_field(self.raw, 4, true, 5, 3, v.raw_value());
        lemma_bit_and_field(self.raw, 3, true, 5, 3, v.raw_value());
        lemma_bit_and_field(self.raw, 2, true, 5, 3, v.raw_value());
        lemma_bit_and_field(self.raw, 1, true, 5, 3, v.raw_value());
        lemma_bit_and_field(self.raw, 0, true, 5, 3, v.raw_value());
    }

    /// After `irq_enable` is set, it reads as what was set and every other field as before.
    pub proof fn lemma_with_irq_enable(self, v: bool)
        ensures
            self.with_irq_enable(v).request_stop() == self.request_stop(),
            self.with_irq_enable(v).status_invert() == self.status_invert(),
            self.with_irq_enable(v).status_sel() == self.status_sel(),
            self.with_irq_enable(v).irq_enable() == v,
            self.with_irq_enable(v).auto_deactivate() == self.auto_deactivate(),
            self.with_irq_enable(v).auto_disable() == self.auto_disable(),
            self.with_irq_enable(v).active() == self.active(),
            self.with_irq_enable(v).enable() == self.enable(),
    {
        lemma_set_bit_get_bit(self.raw, 4, v, 9);
        lemma_set_bit_get_bit(self.raw, 4, v, 8);
        lemma_bit_and_field(self.raw, 4, v, 5, 3, 0);
        lemma_set_bit_get_bit(self.raw, 4, v, 4);
        lemma_set_bit_get_bit(self.raw, 4, v, 3);
        lemma_set_bit_get_bit(self.raw, 4, v, 2);
        lemma_set_bit_get_bit(self.raw, 4, v, 1);
        lemma_set_bit_get_bit(self.raw, 4, v, 0);
    }

    /// After `auto_deactivate` is set, it reads as what was set and every other field as before.
    pub proof fn lemma_with_auto_deactivate(self, v: bool)
        ensures
            self.with_auto_deactivate(v).request_stop() == self.request_stop(),
            self.with_auto_deactivate(v).status_invert() == self.status_invert(),
            self.with_auto_deactivate(v).status_sel() == self.status_sel(),
            self.with_auto_deactivate(v).irq_enable() == self.irq_enable(),
            self.with_auto_deactivate(v).auto_deactivate() == v,
            self.with_auto_deactivate(v).auto_disable() == self.auto_disable(),
            self.with_auto_deactivate(v).active() == self.active(),
            self.with_auto_deactivate(v).enable() == self.enable(),
    {
        lemma_set_bit_get_bit(self.raw, 3, v, 9);
        lemma_set_bit_get_bit(self.raw, 3, v, 8);
        lemma_bit_and_field(self.raw, 3, v, 5, 3, 0);
        lemma_set_bit_get_bit(self.raw, 3, v, 4);
        lemma_set_bit_get_bit(self.raw, 3, v, 3);
        lemma_set_bit_get_bit(self.raw, 3, v, 2);
        lemma_set_bit_get_bit(self.raw, 3, v, 1);
        lemma_set_bit_get_bit(self.raw, 3, v, 0);
    }

    /// After `auto_disable` is set, it reads as what was set and every other field as before.
    pub proof fn lemma_with_auto_disable(self, v: bool)
        ensures
            self.with_auto_disable(v).request_stop() == self.request_stop(),
            self.with_auto_disable(v).status_invert() == self.status_invert(),
            self.with_auto_disable(v).status_sel() == self.status_sel(),
            self.with_auto_disable(v).irq_enable() == self.irq_enable(),
            self.with_auto_disable(v).auto_deactivate() == self.auto_deactivate(),
            self.with_auto_disable(v).auto_disable() == v,
            self.with_auto_disable(v).active() == self.active(),
            self.with_auto_disable(v).enable() == self.enable(),
    {
        lemma_set_bit_get_bit(self.raw, 2, v, 9);
        lemma_set_bit_get_bit(self.raw, 2, v, 8);
        lemma_bit_and_field(self.raw, 2, v, 5, 3, 0);
        lemma_set_bit_get_bit(self.raw, 2, v, 4);
        lemma_set_bit_get_bit(self.raw, 2, v, 3);
        lemma_set_bit_get_bit(self.raw, 2, v, 2);
        lemma_set_bit_get_bit(self.raw, 2, v, 1);
        lemma_set_bit_get_bit(self.raw, 2, v, 0);
    }

    /// After `active` is set, it reads as what was set and every other field as before.
    pub proof fn lemma_with_active(self, v: bool)
        ensures
            self.with_active(v).request_stop() == self.request_stop(),
            self.with_active(v).status_invert() == self.status_invert(),
            self.with_active(v).status_sel() == self.status_sel(),
            self.with_active(v).irq_enable() == self.irq_enable(),
            self.with_active(v).auto_deactivate() == self.auto_deactivate(),
            self.with_active(v).auto_disable() == self.auto_disable(),
            self.with_active(v).active() == v,
            self.with_active(v).enable() == self.enable(),
    {
        lemma_set_bit_get_bit(self.raw, 1, v, 9);
        lemma_set_bit_get_bit(self.raw, 1, v, 8);
        lemma_bit_and_field(self.raw, 1, v, 5, 3, 0);
        lemma_set_bit_get_bit(self.raw, 1, v, 4);
        lemma_set_bit_get_bit(self.raw, 1, v, 3);
        lemma_set_bit_get_bit(self.raw, 1, v, 2);
        lemma_set_bit_get_bit(self.raw, 1, v, 1);
        lemma_set_bit_get_bit(self.raw, 1, v, 0);
    }

    /// After `enable` is set, it reads as what was set and every other field as before.
    pub proof fn lemma_with_enable(self, v: bool)
        ensures
            self.with_enable(v).request_stop() == self.request_stop(),
            self.with_enable(v).status_invert() == self.status_invert(),
            self.with_enable(v).status_sel() == self.status_sel(),
            self.with_enable(v).irq_enable() == self.irq_enable(),
            self.with_enable(v).auto_deactivate() == self.auto_deactivate(),
            self.with_enable(v).auto_disable() == self.auto_disable(),
            self.with_enable(v).active() == self.active(),
            self.with_enable(v).enable() == v,
    {
        lemma_set_bit_get_bit(self.raw, 0, v, 9);
        lemma_set_bit_get_bit(self.raw, 0, v, 8);
        lemma_bit_and_field(self.raw, 0, v, 5, 3, 0);
        lemma_set_bit_get_bit(self.raw, 0, v, 4);
        lemma_set_bit_get_bit(self.raw, 0, v, 3);
        lemma_set_bit_get_bit(self.raw, 0, v, 2);
        lemma_set_bit_get_bit(self.raw, 0, v, 1);
        lemma_set_bit_get_bit(self.raw, 0, v, 0);
    }
}

/// The enable register of a timer: bit 0 mirrors the enable bit of the control register.
#[derive(Debug, Clone, Copy, PartialEq, Eq, Structural)]
pub struct EnableControl {
    pub raw: u32,
}

impl EnableControl {
    /// The value that disables the timer.
    #[verifier::allow_in_spec]
    pub fn new_disable() -> EnableControl
        returns
            (EnableControl { raw: 0 }),
    {
        EnableControl { raw: 0 }
    }

    /// The value that enables the timer.
    #[verifier::allow_in_spec]
    pub fn new_enable() -> EnableControl
        returns
            (EnableControl { raw: 1 }),
    {
        EnableControl { raw: 1 }
    }

    /// Whether the value enables the timer.
    #[verifier::allow_in_spec]
    pub fn enabled(&self) -> bool
        returns
            self.raw != 0,
    {
        self.raw != 0
    }
}

/// Whether a cascade signal is active high or low.
#[derive(Debug, Clone, Copy, PartialEq, Eq, Structural)]
pub enum CascadeInvert {
    ActiveHigh,
    ActiveLow,
}

impl CascadeInvert {
    /// The bits that stand for the variant in a register.
    #[verifier::allow_in_spec]
    pub fn raw_value(self) -> u32
        returns
            (match self {
                CascadeInvert::ActiveHigh => 0u32,
                CascadeInvert::ActiveLow => 1u32,
            }),
    {
        match self {
            CascadeInvert::ActiveHigh => 0,
            CascadeInvert::ActiveLow => 1,
        }
    }

    /// The variant that the bits `raw` stand for. Of `raw`, the low bit count.
    #[verifier::allow_in_spec]
    pub fn from_bits(raw: u32) -> CascadeInvert
        returns
            (if raw == 0 {
                CascadeInvert::ActiveHigh
            } else {
                CascadeInvert::ActiveLow
            }),
    {
        if raw == 0 {
            CascadeInvert::ActiveHigh
        } else {
            CascadeInvert::ActiveLow
        }
    }

    /// Each variant is found again from its bits, which fit in the field.
    pub proof fn lemma_round_trip(self)
        ensures
            CascadeInvert::from_bits(self.raw_value()) == self,
            self.raw_value() < 2,
    {
    }
}

impl Default for CascadeInvert {
    fn default() -> (value: CascadeInvert)
        ensures
            value == CascadeInvert::ActiveHigh,
    {
        CascadeInvert::ActiveHigh
    }
}

/// When two cascade sources are selected, the operation that joins them.
#[derive(Debug, Clone, Copy, PartialEq, Eq, Structural)]
pub enum DualCascadeOp {
    LogicalAnd,
    LogicalOr,
}

impl DualCascadeOp {
    /// The bits that stand for the variant in a register.
    #[verifier::allow_in_spec]
    pub fn raw_value(self) -> u32
        returns
            (match self {
                DualCascadeOp::LogicalAnd => 0u32,
                DualCascadeOp::LogicalOr => 1u32,
            }),
    {
        match self {
            DualCascadeOp::LogicalAnd => 0,
            DualCascadeOp::LogicalOr => 1,
        }
    }

    /// The variant that the bits `raw` stand for. Of `raw`, the low bit count.
    #[verifier::allow_in_spec]
    pub fn from_bits(raw: u32) -> DualCascadeOp
        returns
            (if raw == 0 {
                DualCascadeOp::LogicalAnd
            } else {
                DualCascadeOp::LogicalOr
            }),
    {
        if raw == 0 {
            DualCascadeOp::LogicalAnd
        } else {
            DualCascadeOp::LogicalOr
        }
    }

    /// Each variant is found again from its bits, which fit in the field.
    pub proof fn lemma_round_trip(self)
        ensures
            DualCascadeOp::from_bits(self.raw_value()) == self,
            self.raw_value() < 2,
    {
    }
}

impl Default for DualCascadeOp {
    fn default() -> (value: DualCascadeOp)
        ensures
            value == DualCascadeOp::LogicalAnd,
    {
        DualCascadeOp::LogicalAnd
    }
}

/// The cascade control register of a timer.
#[derive(Debug, Clone, Copy, PartialEq, Eq, Structural)]
pub struct CascadeControl {
    pub raw: u32,
}

impl CascadeControl {
    /// The register value with the bits `raw`.
    #[verifier::allow_in_spec]
    pub fn new_with_raw_value(raw: u32) -> CascadeControl
        returns
            (CascadeControl { raw }),
    {
        CascadeControl { raw }
    }

    /// The bits of the register value.
    #[verifier::allow_in_spec]
    pub fn raw_value(&self) -> u32
        returns
            self.raw,
    {
        self.raw
    }

    /// The counter is automatically disabled if the cascade 2 source is active when the
    /// count reaches 0.
    #[verifier::allow_in_spec]
    pub fn trigger2(&self) -> bool
        returns
            spec_get_bit(self.raw, 10),
    {
        get_bit(self.raw, 10)
    }

    /// The same value with `trigger2` replaced by `v`.
    #[verifier::allow_in_spec]
    pub fn with_trigger2(self, v: bool) -> CascadeControl
        returns
            (CascadeControl { raw: spec_set_bit(self.raw, 10, v) }),
    {
        CascadeControl { raw: set_bit(self.raw, 10, v) }
    }

    /// Inversion of cascade 2.
    #[verifier::allow_in_spec]
    pub fn inv2(&self) -> CascadeInvert
        returns
            (CascadeInvert::from_bits(spec_get_field(self.raw, 9, 1))),
    {
        CascadeInvert::from_bits(get_field(self.raw, 9, 1))
    }

    /// The same value with `inv2` replaced by `v`.
    #[verifier::allow_in_spec]
    pub fn with_inv2(self, v: CascadeInvert) -> CascadeControl
        returns
            (CascadeControl { raw: spec_set_field(self.raw, 9, 1, v.raw_value()) }),
    {
        CascadeControl { raw: set_field(self.raw, 9, 1, v.raw_value()) }
    }

    /// Cascade 2 is a requirement to stop counting.
    #[verifier::allow_in_spec]
    pub fn en2(&self) -> bool
        returns
            spec_get_bit(self.raw, 8),
    {
        get_bit(self.raw, 8)
    }

    /// The same value with `en2` replaced by `v`.
    #[verifier::allow_in_spec]
    pub fn with_en2(self, v: bool) -> CascadeControl
        returns
            (CascadeControl { raw: spec_set_bit(self.raw, 8, v) }),
    {
        CascadeControl { raw: set_bit(self.raw, 8, v) }
    }

    /// Trigger mode for cascade 1.
    #[verifier::allow_in_spec]
    pub fn trigger1(&self) -> bool
        returns
            spec_get_bit(self.raw, 7),
    {
        get_bit(self.raw, 7)
    }

    /// The same value with `trigger1` replaced by `v`.
    #[verifier::allow_in_spec]
    pub fn with_trigger1(self, v: bool) -> CascadeControl
        returns
            (CascadeControl { raw: spec_set_bit(self.raw, 7, v) }),
    {
        CascadeControl { raw: set_bit(self.raw, 7, v) }
    }

    /// Trigger mode for cascade 0: counting starts with the cascade signal active, and once
    /// the counter is active the cascade control is ignored.
    #[verifier::allow_in_spec]
    pub fn trigger0(&self) -> bool
        returns
            spec_get_bit(self.raw, 6),
    {
        get_bit(self.raw, 6)
    }

    /// The same value with `trigger0` replaced by `v`.
    #[verifier::allow_in_spec]
    pub fn with_trigger0(self, v: bool) -> CascadeControl
        returns
            (CascadeControl { raw: spec_set_bit(self.raw, 6, v) }),
    {
        CascadeControl { raw: set_bit(self.raw, 6, v) }
    }

    /// The operation that joins cascade 0 and cascade 1 when both are enabled.
    #[verifier::allow_in_spec]
    pub fn dual_cascade_op(&self) -> DualCascadeOp
        returns
            (DualCascadeOp::from_bits(spec_get_field(self.raw, 4, 1))),
    {
        DualCascadeOp::from_bits(get_field(self.raw, 4, 1))
    }

    /// The same value with `dual_cascade_op` replaced by `v`.
    #[verifier::allow_in_spec]
    pub fn with_dual_cascade_op(self, v: DualCascadeOp) -> CascadeControl
        returns
            (CascadeControl { raw: spec_set_field(self.raw, 4, 1, v.raw_value()) }),
    {
        CascadeControl { raw: set_field(self.raw, 4, 1, v.raw_value()) }
    }

    /// Inversion of cascade 1.
    #[verifier::allow_in_spec]
    pub fn inv1(&self) -> CascadeInvert
        returns
            (CascadeInvert::from_bits(spec_get_field(self.raw, 3, 1))),
    {
        CascadeInvert::from_bits(get_field(self.raw, 3, 1))
    }

    /// The same value with `inv1` replaced by `v`.
    #[verifier::allow_in_spec]
    pub fn with_inv1(self, v: CascadeInvert) -> CascadeControl
        returns
            (CascadeControl { raw: spec_set_field(self.raw, 3, 1, v.raw_value()) }),
    {
        CascadeControl { raw: set_field(self.raw, 3, 1, v.raw_value()) }
    }

    /// Cascade 1 is a requirement for counting.
    #[verifier::allow_in_spec]
    pub fn en1(&self) -> bool
        returns
            spec_get_bit(self.raw, 2),
    {
        get_bit(self.raw, 2)
    }

    /// The same value with `en1` replaced by `v`.
    #[verifier::allow_in_spec]
    pub fn with_en1(self, v: bool) -> CascadeControl
        returns
            (CascadeControl { raw: spec_set_bit(self.raw, 2, v) }),
    {
        CascadeControl { raw: set_bit(self.raw, 2, v) }
    }

    /// Inversion of cascade 0.
    #[verifier::allow_in_spec]
    pub fn inv0(&self) -> CascadeInvert
        returns
            (CascadeInvert::from_bits(spec_get_field(self.raw, 1, 1))),
    {
        CascadeInvert::from_bits(get_field(self.raw, 1, 1))
    }

    /// The same value with `inv0` replaced by `v`.
    #[verifier::allow_in_spec]
    pub fn with_inv0(self, v: CascadeInvert) -> CascadeControl
        returns
            (CascadeControl { raw: spec_set_field(self.raw, 1, 1, v.raw_value()) }),
    {
        CascadeControl { raw: set_field(self.raw, 1, 1, v.raw_value()) }
    }

    /// Cascade 0 is a requirement for counting.
    #[verifier::allow_in_spec]
    pub fn en0(&self) -> bool
        returns
            spec_get_bit(self.raw, 0),
    {
        get_bit(self.raw, 0)
    }

    /// The same value with `en0` replaced by `v`.
    #[verifier::allow_in_spec]
    pub fn with_en0(self, v: bool) -> CascadeControl
        returns
            (CascadeControl { raw: spec_set_bit(self.raw, 0, v) }),
    {
        CascadeControl { raw: set_bit(self.raw, 0, v) }
    }

    /// After `trigger2` is set, it reads as what was set and every other field as before.
    pub proof fn lemma_with_trigger2(self, v: bool)
        ensures
            self.with_trigger2(v).trigger2() == v,
            self.with_trigger2(v).inv2() == self.inv2(),
            self.with_trigger2(v).en2() == self.en2(),
            self.with_trigger2(v).trigger1() == self.trigger1(),
            self.with_trigger2(v).trigger0() == self.trigger0(),
            self.with_trigger2(v).dual_cascade_op() == self.dual_cascade_op(),
            self.with_trigger2(v).inv1() == self.inv1(),
            self.with_trigger2(v).en1() == self.en1(),
            self.with_trigger2(v).inv0() == self.inv0(),
            self.with_trigger2(v).en0() == self.en0(),
    {
        lemma_set_bit_get_bit(self.raw, 10, v, 10);
        lemma_bit_and_field(self.raw, 10, v, 9, 1, 0);
        lemma_set_bit_get_bit(self.raw, 10, v, 8);
        lemma_set_bit_get_bit(self.raw, 10, v, 7);
        lemma_set_bit_get_bit(self.raw, 10, v, 6);
        lemma_bit_and_field(self.raw, 10, v, 4, 1, 0);
        lemma_bit_and_field(self.raw, 10, v, 3, 1, 0);
        lemma_set_bit_get_bit(self.raw, 10, v, 2);
        lemma_bit_and_field(self.raw, 10, v, 1, 1, 0);
        lemma_set_bit_get_bit(self.raw, 10, v, 0);
    }

    /// After `inv2` is set, it reads as what was set and every other field as before.
    pub proof fn lemma_with_inv2(self, v: CascadeInvert)
        ensures
            self.with_inv2(v).trigger2() == self.trigger2(),
            self.with_inv2(v).inv2() == v,
            self.with_inv2(v).en2() == self.en2(),
            self.with_inv2(v).trigger1() == self.trigger1(),
            self.with_inv2(v).trigger0() == self.trigger0(),
            self.with_inv2(v).dual_cascade_op() == self.dual_cascade_op(),
            self.with_inv2(v).inv1() == self.inv1(),
            self.with_inv2(v).en1() == self.en1(),
            self.with_inv2(v).inv0() == self.inv0(),
            self.with_inv2(v).en0() == self.en0(),
    {
        v.lemma_round_trip();
        lemma_field_bound(self.raw, 9, 1);
        lemma_bit_and_field(self.raw, 10, true, 9, 1, v.raw_value());
        lemma_set_field_get_field(self.raw, 9, 1, v.raw_value());
        lemma_bit_and_field(self.raw, 8, true, 9, 1, v.raw_value());
        lemma_bit_and_field(self.raw, 7, true, 9, 1, v.raw_value());
        lemma_bit_and_field(self.raw, 6, true, 9, 1, v.raw_value());
        lemma_set_field_keeps_field(self.raw, 9, 1, v.raw_value(), 4, 1);
        lemma_set_field_keeps_field(self.raw, 9, 1, v.raw_value(), 3, 1);
        lemma_bit_and_field(self.raw, 2, true, 9, 1, v.raw_value());
        lemma_set_field_keeps_field(self.raw, 9, 1, v.raw_value(), 1, 1);
        lemma_bit_and_field(self.raw, 0, true, 9, 1, v.raw_value());
    }

    /// After `en2` is set, it reads as what was set and every other field as before.
    pub proof fn lemma_with_en2(self, v: bool)
        ensures
            self.with_en2(v).trigger2() == self.trigger2(),
            self.with_en2(v).inv2() == self.inv2(),
            self.with_en2(v).en2() == v,
            self.with_en2(v).trigger1() == self.trigger1(),
            self.with_en2(v).trigger0() == self.trigger0(),
            self.with_en2(v).dual_cascade_op() == self.dual_cascade_op(),
            self.with_en2(v).inv1() == self.inv1(),
            self.with_en2(v).en1() == self.en1(),
            self.with_en2(v).inv0() == self.inv0(),
            self.with_en2(v).en0() == self.en0(),
    {
        lemma_set_bit_get_bit(self.raw, 8, v, 10);
        lemma_bit_and_field(self.raw, 8, v, 9, 1, 0);
        lemma_set_bit_get_bit(self.raw, 8, v, 8);
        lemma_set_bit_get_bit(self.raw, 8, v, 7);
        lemma_set_bit_get_bit(self.raw, 8, v, 6);
        lemma_bit_and_field(self.raw, 8, v, 4, 1, 0);
        lemma_bit_and_field(self.raw, 8, v, 3, 1, 0);
        lemma_set_bit_get_bit(self.raw, 8, v, 2);
        lemma_bit_and_field(self.raw, 8, v, 1, 1, 0);
        lemma_set_bit_get_bit(self.raw, 8, v, 0);
    }

    /// After `trigger1` is set, it reads as what was set and every other field as before.
    pub proof fn lemma_with_trigger1(self, v: bool)
        ensures
            self.with_trigger1(v).trigger2() == self.trigger2(),
            self.with_trigger1(v).inv2() == self.inv2(),
            self.with_trigger1(v).en2() == self.en2(),
            self.with_trigger1(v).trigger1() == v,
            self.with_trigger1(v).trigger0() == self.trigger0(),
            self.with_trigger1(v).dual_cascade_op() == self.dual_cascade_op(),
            self.with_trigger1(v).inv1() == self.inv1(),
            self.with_trigger1(v).en1() == self.en1(),
            self.with_trigger1(v).inv0() == self.inv0(),
            self.with_trigger1(v).en0() == self.en0(),
    {
        lemma_set_bit_get_bit(self.raw, 7, v, 10);
        lemma_bit_and_field(self.raw, 7, v, 9, 1, 0);
        lemma_set_bit_get_bit(self.raw, 7, v, 8);
        lemma_set_bit_get_bit(self.raw, 7, v, 7);
        lemma_set_bit_get_bit(self.raw, 7, v, 6);
        lemma_bit_and_field(self.raw, 7, v, 4, 1, 0);
        lemma_bit_and_field(self.raw, 7, v, 3, 1, 0);
        lemma_set_bit_get_bit(self.raw, 7, v, 2);
        lemma_bit_and_field(self.raw, 7, v, 1, 1, 0);
        lemma_set_bit_get_bit(self.raw, 7, v, 0);
    }

    /// After `trigger0` is set, it reads as what was set and every other field as before.
    pub proof fn lemma_with_trigger0(self, v: bool)
        ensures
            self.with_trigger0(v).trigger2() == self.trigger2(),
            self.with_trigger0(v).inv2() == self.inv2(),
            self.with_trigger0(v).en2() == self.en2(),
            self.with_trigger0(v).trigger1() == self.trigger1(),
            self.with_trigger0(v).trigger0() == v,
            self.with_trigger0(v).dual_cascade_op() == self.dual_cascade_op(),
            self.with_trigger0(v).inv1() == self.inv1(),
            self.with_trigger0(v).en1() == self.en1(),
            self.with_trigger0(v).inv0() == self.inv0(),
            self.with_trigger0(v).en0() == self.en0(),
    {
        lemma_set_bit_get_bit(self.raw, 6, v, 10);
        lemma_bit_and_field(self.raw, 6, v, 9, 1, 0);
        lemma_set_bit_get_bit(self.raw, 6, v, 8);
        lemma_set_bit_get_bit(self.raw, 6, v, 7);
        lemma_set_bit_get_bit(self.raw, 6, v, 6);
        lemma_bit_and_field(self.raw, 6, v, 4, 1, 0);
        lemma_bit_and_field(self.raw, 6, v, 3, 1, 0);
        lemma_set_bit_get_bit(self.raw, 6, v, 2);
        lemma_bit_and_field(self.raw, 6, v, 1, 1, 0);
        lemma_set_bit_get_bit(self.raw, 6, v, 0);
    }

    /// After `dual_cascade_op` is set, it reads as what was set and every other field as before.
    pub proof fn lemma_with_dual_cascade_op(self, v: DualCascadeOp)
        ensures
            self.with_dual_cascade_op(v).trigger2() == self.trigger2(),
            self.with_dual_cascade_op(v).inv2() == self.inv2(),
            self.with_dual_cascade_op(v).en2() == self.en2(),
            self.with_dual_cascade_op(v).trigger1() == self.trigger1(),
            self.with_dual_cascade_op(v).trigger0() == self.trigger0(),
            self.with_dual_cascade_op(v).dual_cascade_op() == v,
            self.with_dual_cascade_op(v).inv1() == self.inv1(),
            self.with_dual_cascade_op(v).en1() == self.en1(),
            self.with_dual_cascade_op(v).inv0() == self.inv0(),
            self.with_dual_cascade_op(v).en0() == self.en0(),
    {
        v.lemma_round_trip();
        lemma_field_bound(self.raw, 4, 1);
        lemma_bit_and_field(self.raw, 10, true, 4, 1, v.raw_value());
        lemma_set_field_keeps_field(self.raw, 4, 1, v.raw_value(), 9, 1);
        lemma_bit_and_field(self.raw, 8, true, 4, 1, v.raw_value());
        lemma_bit_and_field(self.raw, 7, true, 4, 1, v.raw_value());
        lemma_bit_and_field(self.raw, 6, true, 4, 1, v.raw_value());
        lemma_set_field_get_field(self.raw, 4, 1, v.raw_value());
        lemma_set_field_keeps_field(self.raw, 4, 1, v.raw_value(), 3, 1);
        lemma_bit_and_field(self.raw, 2, true, 4, 1, v.raw_value());
        lemma_set_field_keeps_field(self.raw, 4, 1, v.raw_value(), 1, 1);
        lemma_bit_and_field(self.raw, 0, true, 4, 1, v.raw_value());
    }

    /// After `inv1` is set, it reads as what was set and every other field as before.
    pub proof fn lemma_with_inv1(self, v: CascadeInvert)
        ensures
            self.with_inv1(v).trigger2() == self.trigger2(),
            self.with_inv1(v).inv2() == self.inv2(),
            self.with_inv1(v).en2() == self.en2(),
            self.with_inv1(v).trigger1() == self.trigger1(),
            self.with_inv1(v).trigger0() == self.trigger0(),
            self.with_inv1(v).dual_cascade_op() == self.dual_cascade_op(),
            self.with_inv1(v).inv1() == v,
            self.with_inv1(v).en1() == self.en1(),
            self.with_inv1(v).inv0() == self.inv0(),
            self.with_inv1(v).en0() == self.en0(),
    {
        v.lemma_round_trip();
        lemma_field_bound(self.raw, 3, 1);
        lemma_bit_and_field(self.raw, 10, true, 3, 1, v.raw_value());
        lemma_set_field_keeps_field(self.raw, 3, 1, v.raw_value(), 9, 1);
        lemma_bit_and_field(self.raw, 8, true, 3, 1, v.raw_value());
        lemma_bit_and_field(self.raw, 7, true, 3, 1, v.raw_value());
        lemma_bit_and_field(self.raw, 6, true, 3, 1, v.raw_value());
        lemma_set_field_keeps_field(self.raw, 3, 1, v.raw_value(), 4, 1);
        lemma_set_field_get_field(self.raw, 3, 1, v.raw_value());
        lemma_bit_and_field(self.raw, 2, true, 3, 1, v.raw_value());
        lemma_set_field_keeps_field(self.raw, 3, 1, v.raw_value(), 1, 1);
        lemma_bit_and_field(self.raw, 0, true, 3, 1, v.raw_value());
    }

    /// After `en1` is set, it reads as what was set and every other field as before.
    pub proof fn lemma_with_en1(self, v: bool)
        ensures
            self.with_en1(v).trigger2() == self.trigger2(),
            self.with_en1(v).inv2() == self.inv2(),
            self.with_en1(v).en2() == self.en2(),
            self.with_en1(v).trigger1() == self.trigger1(),
            self.with_en1(v).trigger0() == self.trigger0(),
            self.with_en1(v).dual_cascade_op() == self.dual_cascade_op(),
            self.with_en1(v).inv1() == self.inv1(),
            self.with_en1(v).en1() == v,
            self.with_en1(v).inv0() == self.inv0(),
            self.with_en1(v).en0() == self.en0(),
    {
        lemma_set_bit_get_bit(self.raw, 2, v, 10);
        lemma_bit_and_field(self.raw, 2, v, 9, 1, 0);
        lemma_set_bit_get_bit(self.raw, 2, v, 8);
        lemma_set_bit_get_bit(self.raw, 2, v, 7);
        lemma_set_bit_get_bit(self.raw, 2, v, 6);
        lemma_bit_and_field(self.raw, 2, v, 4, 1, 0);
        lemma_bit_and_field(self.raw, 2, v, 3, 1, 0);
        lemma_set_bit_get_bit(self.raw, 2, v, 2);
        lemma_bit_and_field(self.raw, 2, v, 1, 1, 0);
        lemma_set_bit_get_bit(self.raw, 2, v, 0);
    }

    /// After `inv0` is set, it reads as what was set and every other field as before.
    pub proof fn lemma_with_inv0(self, v: CascadeInvert)
        ensures
            self.with_inv0(v).trigger2() == self.trigger2(),
            self.with_inv0(v).inv2() == self.inv2(),
            self.with_inv0(v).en2() == self.en2(),
            self.with_inv0(v).trigger1() == self.trigger1(),
            self.with_inv0(v).trigger0() == self.trigger0(),
            self.with_inv0(v).dual_cascade_op() == self.dual_cascade_op(),
            self.with_inv0(v).inv1() == self.inv1(),
            self.with_inv0(v).en1() == self.en1(),
            self.with_inv0(v).inv0() == v,
            self.with_inv0(v).en0() == self.en0(),
    {
        v.lemma_round_trip();
        lemma_field_bound(self.raw, 1, 1);
        lemma_bit_and_field(self.raw, 10, true, 1, 1, v.raw_value());
        lemma_set_field_keeps_field(self.raw, 1, 1, v.raw_value(), 9, 1);
        lemma_bit_and_field(self.raw, 8, true, 1, 1, v.raw_value());
        lemma_bit_and_field(self.raw, 7, true, 1, 1, v.raw_value());
        lemma_bit_and_field(self.raw, 6, true, 1, 1, v.raw_value());
        lemma_set_field_keeps_field(self.raw, 1, 1, v.raw_value(), 4, 1);
        lemma_set_field_keeps_field(self.raw, 1, 1, v.raw_value(), 3, 1);
        lemma_bit_and_field(self.raw, 2, true, 1, 1, v.raw_value());
        lemma_set_field_get_field(self.raw, 1, 1, v.raw_value());
        lemma_bit_and_field(self.raw, 0, true, 1, 1, v.raw_value());
    }

    /// After `en0` is set, it reads as what was set and every other field as before.
    pub proof fn lemma_with_en0(self, v: bool)
        ensures
            self.with_en0(v).trigger2() == self.trigger2(),
            self.with_en0(v).inv2() == self.inv2(),
            self.with_en0(v).en2() == self.en2(),
            self.with_en0(v).trigger1() == self.trigger1(),
            self.with_en0(v).trigger0() == self.trigger0(),
            self.with_en0(v).dual_cascade_op() == self.dual_cascade_op(),
            self.with_en0(v).inv1() == self.inv1(),
            self.with_en0(v).en1() == self.en1(),
            self.with_en0(v).inv0() == self.inv0(),
            self.with_en0(v).en0() == v,
    {
        lemma_set_bit_get_bit(self.raw, 0, v, 10);
        lemma_bit_and_field(self.raw, 0, v, 9, 1, 0);
        lemma_set_bit_get_bit(self.raw, 0, v, 8);
        lemma_set_bit_get_bit(self.raw, 0, v, 7);
        lemma_set_bit_get_bit(self.raw, 0, v, 6);
        lemma_bit_and_field(self.raw, 0, v, 4, 1, 0);
        lemma_bit_and_field(self.raw, 0, v, 3, 1, 0);
        lemma_set_bit_get_bit(self.raw, 0, v, 2);
        lemma_bit_and_field(self.raw, 0, v, 1, 1, 0);
        lemma_set_bit_get_bit(self.raw, 0, v, 0);
    }
}

/// A cascade source that the hardware does not have.
#[derive(Debug, Clone, Copy, PartialEq, Eq, Structural)]
pub struct InvalidCascadeSourceId;

/// A signal that can gate a timer.
#[derive(Debug, Clone, Copy, PartialEq, Eq, Structural)]
pub enum CascadeSource {
    PortA(u8),
    PortB(u8),
    PortC(u8),
    PortD(u8),
    PortE(u8),
    Tim(u8),
    TxEv,
    AdcIrq,
    RomSbe,
    RomMbe,
    Ram0Sbe,
    Ram0Mbe,
    Ram1Sbe,
    Ram1Mbe,
    WdogIrq,
}

impl CascadeSource {
    /// The number of the source in a cascade source register, if the hardware has the
    /// source: pins up to 15 and timers up to 23.
    pub open spec fn spec_id(self) -> Option<u8> {
        match self {
            CascadeSource::PortA(id) => if id <= 15 {
                Some(id)
            } else {
                None
            },
            CascadeSource::PortB(id) => if id <= 15 {
                Some((16 + id) as u8)
            } else {
                None
            },
            CascadeSource::PortC(id) => if id <= 15 {
                Some((32 + id) as u8)
            } else {
                None
            },
            CascadeSource::PortD(id) => if id <= 15 {
                Some((48 + id) as u8)
            } else {
                None
            },
            CascadeSource::PortE(id) => if id <= 15 {
                Some((64 + id) as u8)
            } else {
                None
            },
            CascadeSource::Tim(id) => if id <= 23 {
                Some((80 + id) as u8)
            } else {
                None
            },
            CascadeSource::TxEv => Some(104),
            CascadeSource::AdcIrq => Some(105),
            CascadeSource::RomSbe => Some(106),
            CascadeSource::RomMbe => Some(106),
            CascadeSource::Ram0Sbe => Some(108),
            CascadeSource::Ram0Mbe => Some(109),
            CascadeSource::Ram1Sbe => Some(110),
            CascadeSource::Ram1Mbe => Some(111),
            CascadeSource::WdogIrq => Some(112),
        }
    }

    /// The source that the seven low bits of `raw` name, if they name one.
    pub open spec fn spec_from_raw(raw: u32) -> Option<CascadeSource> {
        let id = spec_get_field(raw, 0, 7);
        if id < 16 {
            Some(CascadeSource::PortA(id as u8))
        } else if id < 32 {
            Some(CascadeSource::PortB((id - 16) as u8))
        } else if id < 48 {
            Some(CascadeSource::PortC((id - 32) as u8))
        } else if id < 64 {
            Some(CascadeSource::PortD((id - 48) as u8))
        } else if id < 80 {
            Some(CascadeSource::PortE((id - 64) as u8))
        } else if id < 104 {
            Some(CascadeSource::Tim((id - 80) as u8))
        } else if id == 104 {
            Some(CascadeSource::TxEv)
        } else if id == 105 {
            Some(CascadeSource::AdcIrq)
        } else if id == 106 {
            Some(CascadeSource::RomSbe)
        } else if id == 107 {
            Some(CascadeSource::RomMbe)
        } else if id == 108 {
            Some(CascadeSource::Ram0Sbe)
        } else if id == 109 {
            Some(CascadeSource::Ram0Mbe)
        } else if id == 110 {
            Some(CascadeSource::Ram1Sbe)
        } else if id == 111 {
            Some(CascadeSource::Ram1Mbe)
        } else if id == 112 {
            Some(CascadeSource::WdogIrq)
        } else {
            None
        }
    }

    /// The number of a pin or timer source: `base` and the index, if the index is at
    /// most `last`.
    fn checked_id(base: u8, id: u8, last: u8) -> (res: Result<u8, InvalidCascadeSourceId>)
        requires
            base + last <= 127,
        ensures
            res == (if id <= last {
                Ok::<u8, InvalidCascadeSourceId>((base + id) as u8)
            } else {
                Err::<u8, InvalidCascadeSourceId>(InvalidCascadeSourceId)
            }),
    {
        if id > last {
            return Err(InvalidCascadeSourceId);
        }
        Ok(base + id)
    }

    /// The number of the source in a cascade source register. It is below 128. A pin
    /// above 15 or a timer above 23 is refused.
    pub fn id(&self) -> (res: Result<u8, InvalidCascadeSourceId>)
        ensures
            res.is_ok() == self.spec_id().is_some(),
            res matches Ok(id) ==> self.spec_id() == Some(id) && id < 128,
    {
        match self {
            CascadeSource::PortA(id) => Self::checked_id(0, *id, 15),
            CascadeSource::PortB(id) => Self::checked_id(16, *id, 15),
            CascadeSource::PortC(id) => Self::checked_id(32, *id, 15),
            CascadeSource::PortD(id) => Self::checked_id(48, *id, 15),
            CascadeSource::PortE(id) => Self::checked_id(64, *id, 15),
            CascadeSource::Tim(id) => Self::checked_id(80, *id, 23),
            CascadeSource::TxEv => Ok(104),
            CascadeSource::AdcIrq => Ok(105),
            CascadeSource::RomSbe => Ok(106),
            CascadeSource::RomMbe => Ok(106),
            CascadeSource::Ram0Sbe => Ok(108),
            CascadeSource::Ram0Mbe => Ok(109),
            CascadeSource::Ram1Sbe => Ok(110),
            CascadeSource::Ram1Mbe => Ok(111),
            CascadeSource::WdogIrq => Ok(112),
        }
    }

    /// The source that the seven low bits of `raw` name. The numbers from 113 on name
    /// none.
    pub fn from_raw(raw: u32) -> (res: Result<CascadeSource, InvalidCascadeSourceId>)
        ensures
            res.is_ok() == Self::spec_from_raw(raw).is_some(),
            res matches Ok(source) ==> Self::spec_from_raw(raw) == Some(source),
            res.is_ok() == (spec_get_field(raw, 0, 7) <= 112),
    {
        proof {
            lemma_field_bound(raw, 0, 7);
        }
        let id: u8 = get_field(raw, 0, 7) as u8;
        if id < 16 {
            return Ok(CascadeSource::PortA(id));
        } else if id < 32 {
            return Ok(CascadeSource::PortB(id - 16));
        } else if id < 48 {
            return Ok(CascadeSource::PortC(id - 32));
        } else if id < 64 {
            return Ok(CascadeSource::PortD(id - 48));
        } else if id < 80 {
            return Ok(CascadeSource::PortE(id - 64));
        } else if id < 104 {
            return Ok(CascadeSource::Tim(id - 80));
        }
        match id {
            104 => Ok(CascadeSource::TxEv),
            105 => Ok(CascadeSource::AdcIrq),
            106 => Ok(CascadeSource::RomSbe),
            107 => Ok(CascadeSource::RomMbe),
            108 => Ok(CascadeSource::Ram0Sbe),
            109 => Ok(CascadeSource::Ram0Mbe),
            110 => Ok(CascadeSource::Ram1Sbe),
            111 => Ok(CascadeSource::Ram1Mbe),
            112 => Ok(CascadeSource::WdogIrq),
            _ => Err(InvalidCascadeSourceId),
        }
    }

    /// A source that has a number is found again from that number, but for the
    /// multi-bit ROM error, which shares the number of the single-bit one.
    pub proof fn lemma_id_round_trip(self)
        requires
            self.spec_id().is_some(),
            self != CascadeSource::RomMbe,
        ensures
            Self::spec_from_raw(self.spec_id().unwrap() as u32) == Some(self),
    {
        let id = self.spec_id().unwrap() as u32;
        lemma_field_bound(id, 0, 7);
        assert(id & 0x7f == id) by (bit_vector)
            requires
                id < 128,
        ;
        assert(id >> 0 == id) by (bit_vector);
    }
}

/// A cascade source register: the number of the source in the seven low bits.
#[derive(Debug, Clone, Copy, PartialEq, Eq, Structural)]
pub struct CascadeSourceReg {
    pub raw: u32,
}

impl CascadeSourceReg {
    /// The register value with the bits `raw`.
    #[verifier::allow_in_spec]
    pub fn new_with_raw_value(raw: u32) -> CascadeSourceReg
        returns
            (CascadeSourceReg { raw }),
    {
        CascadeSourceReg { raw }
    }

    /// The register value that selects `source`, if the hardware has it.
    pub fn new(source: CascadeSource) -> (res: Result<CascadeSourceReg, InvalidCascadeSourceId>)
        ensures
            res.is_ok() == source.spec_id().is_some(),
            res matches Ok(reg) ==> reg.raw == source.spec_id().unwrap(),
    {
        match source.id() {
            Ok(id) => Ok(CascadeSourceReg { raw: id as u32 }),
            Err(e) => Err(e),
        }
    }

    /// The source that the register value selects.
    pub fn as_cascade_source(&self) -> (res: Result<CascadeSource, InvalidCascadeSourceId>)
        ensures
            res.is_ok() == CascadeSource::spec_from_raw(self.raw).is_some(),
            res matches Ok(source) ==> CascadeSource::spec_from_raw(self.raw) == Some(source),
    {
        CascadeSource::from_raw(self.raw)
    }
}

/// A timer index that the hardware does not have.
#[derive(Debug, Clone, Copy, PartialEq, Eq, Structural)]
pub struct InvalidTimerIndex(pub usize);

/// The index of one of the 24 timers.
#[derive(Debug, Copy, Clone, PartialEq, Eq, Structural)]
pub struct TimId {
    id: u8,
}

impl TimId {
    /// The index of the timer.
    pub closed spec fn spec_value(&self) -> u8 {
        self.id
    }

    /// The invariant of the type: the index is that of a timer.
    #[verifier::type_invariant]
    pub open spec fn wf(&self) -> bool {
        self.spec_value() <= 23
    }

    /// The timer with the index `index`.
    pub closed spec fn spec_new(index: usize) -> TimId {
        TimId { id: index as u8 }
    }

    /// The timer with the index `index`, which must be at most 23.
    pub fn new(index: usize) -> (res: Result<TimId, InvalidTimerIndex>)
        ensures
            res.is_ok() == (index <= 23),
            res matches Ok(id) ==> id == Self::spec_new(index) && id.spec_value() == index,
            res matches Err(e) ==> e == InvalidTimerIndex(index),
    {
        if index > 23 {
            return Err(InvalidTimerIndex(index));
        }
        Ok(TimId { id: index as u8 })
    }

    /// The timer with the index `index`.
    pub fn new_unchecked(index: usize) -> (id: TimId)
        requires
            index <= 23,
        ensures
            id == Self::spec_new(index),
            id.spec_value() == index,
    {
        TimId { id: index as u8 }
    }

    /// The index of the timer, at most 23.
    #[verifier::when_used_as_spec(spec_value)]
    pub fn value(&self) -> (v: u8)
        ensures
            v == self.spec_value(),
            v <= 23,
    {
        proof {
            use_type_invariant(self);
        }
        self.id
    }

    /// The interrupt line of the timer: the lines of the timers follow each other.
    pub open spec fn interrupt_id_spec(&self) -> Interrupt {
        Interrupt { number: (TIM_IRQ_OFFSET + self.spec_value()) as u16 }
    }

    /// The interrupt line of the timer.
    #[verifier::when_used_as_spec(interrupt_id_spec)]
    pub fn interrupt_id(&self) -> (irq: Interrupt)
        ensures
            irq == self.interrupt_id_spec(),
            irq.number == TIM_IRQ_OFFSET + self.spec_value(),
            irq.number < crate::NUM_INTERRUPTS,
    {
        let v = self.value();
        Interrupt { number: TIM_IRQ_OFFSET + v as u16 }
    }

    /// The address of the registers of the timer: the registers of the timers follow
    /// each other.
    pub open spec fn spec_base_address(&self) -> usize {
        (BASE_ADDR + TIMER_BLOCK_SIZE * self.spec_value()) as usize
    }

    /// The address of the registers of the timer.
    #[verifier::when_used_as_spec(spec_base_address)]
    pub fn base_address(&self) -> (addr: usize)
        ensures
            addr == self.spec_base_address(),
            addr == BASE_ADDR + TIMER_BLOCK_SIZE * self.spec_value(),
    {
        let v = self.value();
        BASE_ADDR + TIMER_BLOCK_SIZE * (v as usize)
    }

    /// The registers of the timer as they are after a reset.
    pub fn steal_regs(&self) -> (timer: Timer)
        ensures
            timer == Timer::spec_reset_state(self.spec_base_address()),
    {
        Timer::new_mmio(*self)
    }
}

/// The registers of one timer.
///
/// The enable register and the enable bit of the control register are one bit of the
/// hardware: a write to either shows in both.
#[derive(Debug, Clone, Copy, PartialEq, Eq, Structural)]
pub struct Timer {
    /// The address of the registers.
    pub base: usize,
    pub control: Control,
    pub reset_value: u32,
    pub count_value: u32,
    pub enable_control: EnableControl,
    pub cascade_control: CascadeControl,
    /// Cascade 0 and 1 control the counting and activation of the counter, cascade 2
    /// requests a stop.
    pub cascade0: CascadeSourceReg,
    pub cascade1: CascadeSourceReg,
    pub cascade2: CascadeSourceReg,
    /// PWM A compare value.
    pub pwma_value: u32,
    /// PWM B compare value.
    pub pwmb_value: u32,
    pub perid: u32,
}

impl Timer {
    /// The registers after a reset: all clear.
    pub open spec fn spec_reset_state(base: usize) -> Timer {
        Timer {
            base,
            control: Control { raw: 0 },
            reset_value: 0,
            count_value: 0,
            enable_control: EnableControl { raw: 0 },
            cascade_control: CascadeControl { raw: 0 },
            cascade0: CascadeSourceReg { raw: 0 },
            cascade1: CascadeSourceReg { raw: 0 },
            cascade2: CascadeSourceReg { raw: 0 },
            pwma_value: 0,
            pwmb_value: 0,
            perid: TIMER_PERID,
        }
    }

    /// The registers with `control` written: the enable register follows the enable bit.
    pub open spec fn spec_write_control(self, control: Control) -> Timer {
        Timer {
            control,
            enable_control: if control.enable() {
                EnableControl::new_enable()
            } else {
                EnableControl::new_disable()
            },
            ..self
        }
    }

    /// The registers with `value` written to the enable register: the enable bit of the
    /// control register follows.
    pub open spec fn spec_write_enable_control(self, value: EnableControl) -> Timer {
        Timer {
            control: self.control.with_enable(value.enabled()),
            enable_control: value,
            ..self
        }
    }

    /// The registers of the timer `id` as they are after a reset.
    pub fn new_mmio(id: TimId) -> (timer: Timer)
        ensures
            timer == Self::spec_reset_state(id.spec_base_address()),
    {
        Timer {
            base: id.base_address(),
            control: Control { raw: 0 },
            reset_value: 0,
            count_value: 0,
            enable_control: EnableControl { raw: 0 },
            cascade_control: CascadeControl { raw: 0 },
            cascade0: CascadeSourceReg { raw: 0 },
            cascade1: CascadeSourceReg { raw: 0 },
            cascade2: CascadeSourceReg { raw: 0 },
            pwma_value: 0,
            pwmb_value: 0,
            perid: TIMER_PERID,
        }
    }

    /// The registers of the timer with the index `timer_index`, which must be at most
    /// 23, as they are after a reset.
    pub fn new_mmio_with_raw_index(timer_index: usize) -> (res: Result<Timer, InvalidTimerIndex>)
        ensures
            res.is_ok() == (timer_index <= 23),
            res matches Ok(timer) ==> timer == Self::spec_reset_state(
                TimId::spec_new(timer_index).spec_base_address(),
            ),
            res matches Err(e) ==> e == InvalidTimerIndex(timer_index),
    {
        match TimId::new(timer_index) {
            Ok(id) => Ok(Self::new_mmio(id)),
            Err(e) => Err(e),
        }
    }

    /// Reads the control register.
    pub fn read_control(&self) -> (control: Control)
        ensures
            control == self.control,
    {
        self.control
    }

    /// Writes the control register.
    pub fn write_control(&mut self, control: Control)
        ensures
            *final(self) == old(self).spec_write_control(control),
    {
        self.control = control;
        self.enable_control = if control.enable() {
            EnableControl::new_enable()
        } else {
            EnableControl::new_disable()
        };
    }

    /// Writes the enable register.
    pub fn write_enable_control(&mut self, value: EnableControl)
        ensures
            *final(self) == old(self).spec_write_enable_control(value),
    {
        self.control = self.control.with_enable(value.enabled());
        self.enable_control = value;
    }

    /// Reads the value that the counter is loaded with when it reaches 0.
    pub fn read_reset_value(&self) -> (value: u32)
        ensures
            value == self.reset_value,
    {
        self.reset_value
    }

    /// Writes the value that the counter is loaded with when it reaches 0.
    pub fn write_reset_value(&mut self, value: u32)
        ensures
            *final(self) == (Timer { reset_value: value, ..*old(self) }),
    {
        self.reset_value = value;
    }

    /// Reads the counter.
    pub fn read_count_value(&self) -> (value: u32)
        ensures
            value == self.count_value,
    {
        self.count_value
    }

    /// Writes the counter.
    pub fn write_count_value(&mut self, value: u32)
        ensures
            *final(self) == (Timer { count_value: value, ..*old(self) }),
    {
        self.count_value = value;
    }

    /// Writes the cascade control register.
    pub fn write_cascade_control(&mut self, value: CascadeControl)
        ensures
            *final(self) == (Timer { cascade_control: value, ..*old(self) }),
    {
        self.cascade_control = value;
    }

    /// The registers with `value` written to the cascade source register `index`.
    pub open spec fn spec_write_cascade(self, index: usize, value: CascadeSourceReg) -> Timer {
        if index == 0 {
            Timer { cascade0: value, ..self }
        } else if index == 1 {
            Timer { cascade1: value, ..self }
        } else {
            Timer { cascade2: value, ..self }
        }
    }

    /// Writes the cascade source register `index`.
    pub fn write_cascade(&mut self, index: usize, value: CascadeSourceReg)
        requires
            index < 3,
        ensures
            *final(self) == old(self).spec_write_cascade(index, value),
    {
        if index == 0 {
            self.cascade0 = value;
        } else if index == 1 {
            self.cascade1 = value;
        } else {
            self.cascade2 = value;
        }
    }

    /// Writes the PWM A compare value.
    pub fn write_pwma_value(&mut self, value: u32)
        ensures
            *final(self) == (Timer { pwma_value: value, ..*old(self) }),
    {
        self.pwma_value = value;
    }

    /// Writes the PWM B compare value.
    pub fn write_pwmb_value(&mut self, value: u32)
        ensures
            *final(self) == (Timer { pwmb_value: value, ..*old(self) }),
    {
        self.pwmb_value = value;
    }

    /// Reads the peripheral ID.
    pub fn read_perid(&self) -> (value: u32)
        ensures
            value == self.perid,
    {
        self.perid
    }
}

} // verus!
