//! Clock gates and reset lines of the peripherals.
use crate::bits::{set_bit, spec_set_bit};
use crate::PeripheralSelect;
use vstd::prelude::*;

verus! {

/// The registers of the system configuration that gate clocks and hold peripherals in
/// reset. A reset line holds its peripheral in reset while its bit is 0.
#[derive(Debug, Clone, Copy, PartialEq, Eq, Structural)]
pub struct Sysconfig {
    pub peripheral_clk_enable: u32,
    pub peripheral_reset: u32,
    pub tim_clk_enable: u32,
    pub tim_reset: u32,
}

impl Sysconfig {
    /// The registers with every clock gated and every reset line released.
    pub fn new() -> (sysconfig: Sysconfig)
        ensures
            sysconfig == (Sysconfig {
                peripheral_clk_enable: 0,
                peripheral_reset: 0xffff_ffff,
                tim_clk_enable: 0,
                tim_reset: 0xffff_ffff,
            }),
    {
        Sysconfig {
            peripheral_clk_enable: 0,
            peripheral_reset: 0xffff_ffff,
            tim_clk_enable: 0,
            tim_reset: 0xffff_ffff,
        }
    }
}

/// Opens the clock gate of the peripheral `clock`.
pub fn enable_peripheral_clock(sysconfig: &mut Sysconfig, clock: PeripheralSelect)
    ensures
        *final(sysconfig) == (Sysconfig {
            peripheral_clk_enable: spec_set_bit(old(sysconfig).peripheral_clk_enable, clock.bit(), true),
            ..*old(sysconfig)
        }),
{
    sysconfig.peripheral_clk_enable = set_bit(sysconfig.peripheral_clk_enable, clock.bit(), true);
}

/// Closes the clock gate of the peripheral `clock`.
pub fn disable_peripheral_clock(sysconfig: &mut Sysconfig, clock: PeripheralSelect)
    ensures
        *final(sysconfig) == (Sysconfig {
            peripheral_clk_enable: spec_set_bit(old(sysconfig).peripheral_clk_enable, clock.bit(), false),
            ..*old(sysconfig)
        }),
{
    sysconfig.peripheral_clk_enable = set_bit(sysconfig.peripheral_clk_enable, clock.bit(), false);
}

/// Holds the peripheral `periph_sel` in reset.
pub fn assert_peripheral_reset(sysconfig: &mut Sysconfig, periph_sel: PeripheralSelect)
    ensures
        *final(sysconfig) == (Sysconfig {
            peripheral_reset: spec_set_bit(old(sysconfig).peripheral_reset, periph_sel.bit(), false),
            ..*old(sysconfig)
        }),
{
    sysconfig.peripheral_reset = set_bit(sysconfig.peripheral_reset, periph_sel.bit(), false);
}

/// Releases the peripheral `periph_sel` from reset.
pub fn deassert_peripheral_reset(sysconfig: &mut Sysconfig, periph_sel: PeripheralSelect)
    ensures
        *final(sysconfig) == (Sysconfig {
            peripheral_reset: spec_set_bit(old(sysconfig).peripheral_reset, periph_sel.bit(), true),
            ..*old(sysconfig)
        }),
{
    sysconfig.peripheral_reset = set_bit(sysconfig.peripheral_reset, periph_sel.bit(), true);
}

/// Holds the peripheral `periph_sel` in reset and releases it again. How long the line
/// is held is the caller's business: the registers end as after the release.
pub fn reset_peripheral_for_cycles(sysconfig: &mut Sysconfig, periph_sel: PeripheralSelect, cycles: usize)
    ensures
        *final(sysconfig) == (Sysconfig {
            peripheral_reset: spec_set_bit(old(sysconfig).peripheral_reset, periph_sel.bit(), true),
            ..*old(sysconfig)
        }),
{
    let bit = periph_sel.bit();
    proof {
        lemma_set_then_set(sysconfig.peripheral_reset, bit);
    }
    assert_peripheral_reset(sysconfig, periph_sel);
    deassert_peripheral_reset(sysconfig, periph_sel);
}

/// Clearing a bit and then setting it is the same as setting it.
pub proof fn lemma_set_then_set(x: u32, i: u32)
    requires
        i < 32,
    ensures
        spec_set_bit(spec_set_bit(x, i, false), i, true) == spec_set_bit(x, i, true),
        spec_set_bit(spec_set_bit(x, i, true), i, false) == spec_set_bit(x, i, false),
{
    assert((x & !(1u32 << i)) | (1u32 << i) == x | (1u32 << i) && (x | (1u32 << i)) & !(1u32
        << i) == x & !(1u32 << i)) by (bit_vector);
}

} // verus!
