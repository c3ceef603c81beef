//! The frozen clock tree.
use crate::time::Hertz;
use vstd::prelude::*;

verus! {

/// Frequency of the internal oscillator.
pub const HBO_FREQ_HZ: u32 = 20_000_000;

/// Frozen clock frequencies.
///
/// A value of this type says that the clock configuration can no longer change. The two
/// peripheral buses run at a half and at a quarter of the system clock.
#[derive(Copy, Clone, PartialEq, Eq, Debug, Structural)]
pub struct Clocks {
    sysclk: Hertz,
    apb1: Hertz,
    apb2: Hertz,
    adc_clk: Hertz,
}

impl Clocks {
    /// The system clock.
    pub closed spec fn spec_sysclk(&self) -> Hertz {
        self.sysclk
    }

    /// The clock of the first peripheral bus.
    pub closed spec fn spec_apb1(&self) -> Hertz {
        self.apb1
    }

    /// The clock of the second peripheral bus.
    pub closed spec fn spec_apb2(&self) -> Hertz {
        self.apb2
    }

    /// The clock of the converter.
    pub closed spec fn spec_adc_clk(&self) -> Hertz {
        self.adc_clk
    }

    /// The invariant of the type: the buses run at a half and a quarter of the system
    /// clock, rounded down.
    pub open spec fn wf(self) -> bool {
        &&& self.spec_apb1().raw == self.spec_sysclk().raw / 2
        &&& self.spec_apb2().raw == self.spec_sysclk().raw / 4
    }

    /// The clock tree for the system clock `final_sysclk` and the converter clock
    /// `adc_clk`.
    pub fn __new(final_sysclk: Hertz, adc_clk: Hertz) -> (clocks: Clocks)
        ensures
            clocks.wf(),
            clocks.spec_sysclk() == final_sysclk,
            clocks.spec_adc_clk() == adc_clk,
    {
        Clocks {
            sysclk: final_sysclk,
            apb1: Hertz::from_raw(final_sysclk.raw() / 2),
            apb2: Hertz::from_raw(final_sysclk.raw() / 4),
            adc_clk,
        }
    }

    /// Returns the frequency of the internal oscillator.
    pub fn hbo(&self) -> (f: Hertz)
        ensures
            f.raw == HBO_FREQ_HZ,
    {
        Hertz::from_raw(HBO_FREQ_HZ)
    }

    /// Returns the frequency of the bus APB0, which is the system clock.
    pub fn apb0(&self) -> (f: Hertz)
        ensures
            f == self.spec_sysclk(),
    {
        self.sysclk()
    }

    /// Returns the system clock divided by 2.
    #[verifier::when_used_as_spec(spec_apb1)]
    pub fn apb1(&self) -> (f: Hertz)
        ensures
            f == self.spec_apb1(),
    {
        self.apb1
    }

    /// Returns the system clock divided by 4.
    #[verifier::when_used_as_spec(spec_apb2)]
    pub fn apb2(&self) -> (f: Hertz)
        ensures
            f == self.spec_apb2(),
    {
        self.apb2
    }

    /// Returns the system (core) frequency.
    #[verifier::when_used_as_spec(spec_sysclk)]
    pub fn sysclk(&self) -> (f: Hertz)
        ensures
            f == self.spec_sysclk(),
    {
        self.sysclk
    }

    /// Returns the clock frequency of the converter, which has a divider of its own.
    #[verifier::when_used_as_spec(spec_adc_clk)]
    pub fn adc_clk(&self) -> (f: Hertz)
        ensures
            f == self.spec_adc_clk(),
    {
        self.adc_clk
    }
}

} // verus!
