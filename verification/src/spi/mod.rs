//! The SPI peripherals.
use crate::clock::Clocks;
use crate::gpio::ll::DynPinId;
use crate::gpio::IoPeriphPin;
use crate::ioconfig::regs::IoConfig;
use crate::ioconfig::FunctionSelect;
use crate::pins::AnyPin;
use crate::time::Hertz;
use crate::{PeripheralSelect, Sealed};
use vstd::prelude::*;

pub mod pins_vor4x;
pub mod regs;

pub use regs::{Bank, HwChipSelectId};
use regs::{ClkPrescaler, Control0, Control1, Data, SpiRegs, SpiView, FIFO_DEPTH};
use crate::sysconfig::{enable_peripheral_clock, Sysconfig};
use crate::{FifoClear, NbResult};

verus! {

/// The words that the transmit FIFO is filled with at the start of a transfer. The FIFO
/// holds 16.
pub const FILL_DEPTH: usize = 12;

/// The bit of a data word that starts or stops a frame in block mode.
pub const BMSTART_BMSTOP_MASK: u32 = 0x8000_0000;

/// The bit of a data word that ends a frame without data.
pub const BMSKIPDATA_MASK: u32 = 0x4000_0000;

/// The clock divider of a bus that is configured without one.
pub const DEFAULT_CLK_DIV: u16 = 2;

/// Hands the pin to its chip select function and returns the chip select line that it
/// drives.
pub fn configure_pin_as_hw_cs_pin<P: AnyPin + HwCsProvider>(_pin: P, ioconfig: &mut IoConfig) -> (cs_id: HwChipSelectId)
    ensures
        cs_id == P::spec_cs_id(),
        final(ioconfig).pins@ == old(ioconfig).spec_with_pin_config(
            <P as AnyPin>::spec_id(),
            crate::gpio::ll::spec_peripheral_pin(
                old(ioconfig).spec_pin_config(<P as AnyPin>::spec_id()),
                <P as HwCsProvider>::spec_fun_sel(),
                None,
            ),
        ),
        final(ioconfig).perid == old(ioconfig).perid,
{
    IoPeriphPin::new(<P as AnyPin>::id(), ioconfig, <P as HwCsProvider>::fun_sel(), None);
    P::cs_id()
}

/// A pin that can carry the clock of an SPI peripheral.
pub trait PinSck: AnyPin {
    /// The peripheral of the pin.
    spec fn spec_spi_id() -> Bank;

    /// The function that connects the pin to the peripheral.
    spec fn spec_fun_sel() -> FunctionSelect;

    /// The peripheral of the pin.
    fn spi_id() -> (bank: Bank)
        ensures
            bank == Self::spec_spi_id(),
    ;

    /// The function that connects the pin to the peripheral.
    fn fun_sel() -> (fun_sel: FunctionSelect)
        ensures
            fun_sel == Self::spec_fun_sel(),
    ;
}

/// A pin that can carry the data that an SPI master sends.
pub trait PinMosi: AnyPin {
    /// The peripheral of the pin.
    spec fn spec_spi_id() -> Bank;

    /// The function that connects the pin to the peripheral.
    spec fn spec_fun_sel() -> FunctionSelect;

    /// The peripheral of the pin.
    fn spi_id() -> (bank: Bank)
        ensures
            bank == Self::spec_spi_id(),
    ;

    /// The function that connects the pin to the peripheral.
    fn fun_sel() -> (fun_sel: FunctionSelect)
        ensures
            fun_sel == Self::spec_fun_sel(),
    ;
}

/// A pin that can carry the data that an SPI master receives.
pub trait PinMiso: AnyPin {
    /// The peripheral of the pin.
    spec fn spec_spi_id() -> Bank;

    /// The function that connects the pin to the peripheral.
    spec fn spec_fun_sel() -> FunctionSelect;

    /// The peripheral of the pin.
    fn spi_id() -> (bank: Bank)
        ensures
            bank == Self::spec_spi_id(),
    ;

    /// The function that connects the pin to the peripheral.
    fn fun_sel() -> (fun_sel: FunctionSelect)
        ensures
            fun_sel == Self::spec_fun_sel(),
    ;
}

/// A pin that can be a chip select line that the hardware drives.
pub trait HwCsProvider {
    /// The identifier of the pin.
    spec fn spec_pin_id() -> DynPinId;

    /// The peripheral of the pin.
    spec fn spec_spi_id() -> Bank;

    /// The function that connects the pin to the peripheral.
    spec fn spec_fun_sel() -> FunctionSelect;

    /// The chip select line that the pin drives.
    spec fn spec_cs_id() -> HwChipSelectId;

    /// The identifier of the pin.
    fn pin_id() -> (id: DynPinId)
        ensures
            id == Self::spec_pin_id(),
    ;

    /// The peripheral of the pin.
    fn spi_id() -> (bank: Bank)
        ensures
            bank == Self::spec_spi_id(),
    ;

    /// The function that connects the pin to the peripheral.
    fn fun_sel() -> (fun_sel: FunctionSelect)
        ensures
            fun_sel == Self::spec_fun_sel(),
    ;

    /// The chip select line that the pin drives.
    fn cs_id() -> (cs_id: HwChipSelectId)
        ensures
            cs_id == Self::spec_cs_id(),
    ;
}

/// One of the SPI peripherals as a type. The registers are the same for all of them.
pub trait SpiMarker: Sealed {
    /// The peripheral.
    spec fn spec_id() -> Bank;

    /// The clock gate of the peripheral.
    spec fn spec_periph_sel() -> PeripheralSelect;

    /// The peripheral.
    fn id() -> (bank: Bank)
        ensures
            bank == Self::spec_id(),
    ;

    /// The clock gate of the peripheral.
    fn periph_sel() -> (sel: PeripheralSelect)
        ensures
            sel == Self::spec_periph_sel(),
    ;
}

/// SPI 0 as a type.
#[derive(Debug)]
pub struct Spi0;

/// SPI 1 as a type.
#[derive(Debug)]
pub struct Spi1;

/// SPI 2 as a type.
#[derive(Debug)]
pub struct Spi2;

/// SPI 3 as a type.
#[derive(Debug)]
pub struct Spi3;

impl Sealed for Spi0 {

}

impl Sealed for Spi1 {

}

impl Sealed for Spi2 {

}

impl Sealed for Spi3 {

}

impl SpiMarker for Spi0 {
    open spec fn spec_id() -> Bank {
        Bank::Spi0
    }

    open spec fn spec_periph_sel() -> PeripheralSelect {
        PeripheralSelect::Spi0
    }

    fn id() -> (bank: Bank) {
        Bank::Spi0
    }

    fn periph_sel() -> (sel: PeripheralSelect) {
        PeripheralSelect::Spi0
    }
}

impl SpiMarker for Spi1 {
    open spec fn spec_id() -> Bank {
        Bank::Spi1
    }

    open spec fn spec_periph_sel() -> PeripheralSelect {
        PeripheralSelect::Spi1
    }

    fn id() -> (bank: Bank) {
        Bank::Spi1
    }

    fn periph_sel() -> (sel: PeripheralSelect) {
        PeripheralSelect::Spi1
    }
}

impl SpiMarker for Spi2 {
    open spec fn spec_id() -> Bank {
        Bank::Spi2
    }

    open spec fn spec_periph_sel() -> PeripheralSelect {
        PeripheralSelect::Spi2
    }

    fn id() -> (bank: Bank) {
        Bank::Spi2
    }

    fn periph_sel() -> (sel: PeripheralSelect) {
        PeripheralSelect::Spi2
    }
}

impl SpiMarker for Spi3 {
    open spec fn spec_id() -> Bank {
        Bank::Spi3
    }

    open spec fn spec_periph_sel() -> PeripheralSelect {
        PeripheralSelect::Spi3
    }

    fn id() -> (bank: Bank) {
        Bank::Spi3
    }

    fn periph_sel() -> (sel: PeripheralSelect) {
        PeripheralSelect::Spi3
    }
}

/// A word of the SPI bus: 8 or 16 bits.
pub trait WordProvider: Copy {
    /// The bits of a data word that belong to the word.
    spec fn spec_mask() -> u32;

    /// The word size for the control register.
    spec fn spec_word_size() -> regs::WordSize;

    /// The bits of a data word that belong to the word.
    fn mask() -> (mask: u32)
        ensures
            mask == Self::spec_mask(),
    ;

    /// The word size for the control register.
    fn word_size() -> (size: regs::WordSize)
        ensures
            size == Self::spec_word_size(),
    ;

    /// The bits of the word size in the control register.
    fn word_reg() -> (reg: u8)
        ensures
            reg == Self::spec_word_size().raw_value(),
    ;

    /// The word as a data word.
    spec fn spec_into_word(self) -> u32;

    /// The word as a data word.
    fn into_word(self) -> (word: u32)
        ensures
            word == self.spec_into_word(),
    ;
}

impl WordProvider for u8 {
    open spec fn spec_mask() -> u32 {
        0xff
    }

    open spec fn spec_word_size() -> regs::WordSize {
        regs::WordSize::EightBits
    }

    fn mask() -> (mask: u32) {
        0xff
    }

    fn word_size() -> (size: regs::WordSize) {
        regs::WordSize::EightBits
    }

    fn word_reg() -> (reg: u8) {
        0x07
    }

    open spec fn spec_into_word(self) -> u32 {
        self as u32
    }

    fn into_word(self) -> (word: u32) {
        self as u32
    }
}

impl WordProvider for u16 {
    open spec fn spec_mask() -> u32 {
        0xffff
    }

    open spec fn spec_word_size() -> regs::WordSize {
        regs::WordSize::SixteenBits
    }

    fn mask() -> (mask: u32) {
        0xffff
    }

    fn word_size() -> (size: regs::WordSize) {
        regs::WordSize::SixteenBits
    }

    fn word_reg() -> (reg: u8) {
        0x0f
    }

    open spec fn spec_into_word(self) -> u32 {
        self as u32
    }

    fn into_word(self) -> (word: u32) {
        self as u32
    }
}

/// The level of the clock line while the bus is idle.
#[derive(Debug, Clone, Copy, PartialEq, Eq, Structural)]
pub enum Polarity {
    IdleLow,
    IdleHigh,
}

/// The edge of the clock on which the data is captured.
#[derive(Debug, Clone, Copy, PartialEq, Eq, Structural)]
pub enum Phase {
    CaptureOnFirstTransition,
    CaptureOnSecondTransition,
}

/// The mode of an SPI bus.
#[derive(Debug, Clone, Copy, PartialEq, Eq, Structural)]
pub struct Mode {
    pub polarity: Polarity,
    pub phase: Phase,
}

/// The polarity bit and the phase bit of the control register for the mode `mode`.
pub fn mode_to_cpo_cph_bit(mode: Mode) -> (bits: (bool, bool))
    ensures
        bits.0 == (mode.polarity == Polarity::IdleHigh),
        bits.1 == (mode.phase == Phase::CaptureOnSecondTransition),
{
    let cpo = match mode.polarity {
        Polarity::IdleLow => false,
        Polarity::IdleHigh => true,
    };
    let cph = match mode.phase {
        Phase::CaptureOnFirstTransition => false,
        Phase::CaptureOnSecondTransition => true,
    };
    (cpo, cph)
}

/// The clock configuration of an SPI bus: the clock of the bus is the reference clock
/// divided by the prescaler and by the second divider, which is `scrdv` and one.
#[derive(Debug, Copy, Clone, PartialEq, Eq, Structural)]
pub struct SpiClkConfig {
    pub prescale_val: u8,
    pub scrdv: u8,
}

/// A clock divider that cannot be configured.
#[derive(Debug, Clone, Copy, PartialEq, Eq, Structural)]
pub enum SpiClkConfigError {
    /// The divider is 0.
    DivIsZero,
    /// The divider is odd.
    DivideValueNotEven,
    /// The divider is more than 256 times its largest even factor up to 254.
    ScrdvValueTooLarge,
}

/// The peripheral and the pins do not belong together.
#[derive(Debug, Clone, Copy, PartialEq, Eq, Structural)]
pub struct SpiIdMissmatchError;

/// Whether `prescale` is the prescaler for the divider `div`: the largest even number
/// from 2 to 254 that divides `div`.
pub open spec fn spec_is_prescaler(div: u16, prescale: int) -> bool {
    &&& 2 <= prescale <= 0xfe
    &&& prescale % 2 == 0
    &&& div % (prescale as u16) == 0
    &&& forall|larger: int|
        prescale < larger <= 0xfe && larger % 2 == 0 ==> #[trigger] (div as int % larger) != 0
}

/// Whether the divider `div` is made of `config`: the prescaler is the largest possible
/// and the product of the two dividers is `div`.
pub open spec fn spec_divides_by(config: SpiClkConfig, div: u16) -> bool {
    &&& spec_is_prescaler(div, config.prescale_val() as int)
    &&& config.prescale_val() * (config.scrdv() + 1) == div
}

/// The error for a divider that cannot be configured, if it cannot.
pub open spec fn spec_clk_config_error(div: u16) -> Option<SpiClkConfigError> {
    if div == 0 {
        Some(SpiClkConfigError::DivIsZero)
    } else if div % 2 != 0 {
        Some(SpiClkConfigError::DivideValueNotEven)
    } else if exists|prescale: int| spec_is_prescaler(div, prescale) && div as int / prescale > 256 {
        Some(SpiClkConfigError::ScrdvValueTooLarge)
    } else {
        None
    }
}

impl SpiClkConfig {
    /// The prescaler.
    #[verifier::allow_in_spec]
    pub fn prescale_val(&self) -> u8
        returns
            self.prescale_val,
    {
        self.prescale_val
    }

    /// The second divider, less one.
    #[verifier::allow_in_spec]
    pub fn scrdv(&self) -> u8
        returns
            self.scrdv,
    {
        self.scrdv
    }

    /// The configuration with the prescaler `prescale_val` and the second divider
    /// `scrdv` and one.
    pub fn new(prescale_val: u8, scrdv: u8) -> (config: SpiClkConfig)
        ensures
            config.prescale_val() == prescale_val,
            config.scrdv() == scrdv,
    {
        SpiClkConfig { prescale_val, scrdv }
    }

    /// The configuration for the clock divider `div`.
    pub fn from_div(div: u16) -> (res: Result<SpiClkConfig, SpiClkConfigError>)
        ensures
            res matches Ok(config) ==> spec_clk_config_error(div).is_none() && spec_divides_by(config, div),
            res matches Err(e) ==> spec_clk_config_error(div) == Some(e),
    {
        spi_clk_config_from_div(div)
    }

    /// The configuration for a bus clock of about `spi_clk` at the system clock
    /// `sys_clk`, if the bus clock is not above the system clock and the divider fits
    /// 16 bits. The divider that results has to be one that can be configured.
    pub fn from_clk(sys_clk: Hertz, spi_clk: Hertz) -> (res: Option<SpiClkConfig>)
        requires
            spi_clk.raw > 0,
            spec_clk_div_for_target_clock(sys_clk, spi_clk) matches Some(div) ==> spec_clk_config_error(div).is_none(),
        ensures
            res.is_some() == spec_clk_div_for_target_clock(sys_clk, spi_clk).is_some(),
            res matches Some(config) ==> spec_divides_by(config, spec_clk_div_for_target_clock(sys_clk, spi_clk).unwrap()),
    {
        Self::from_apb1_clk(sys_clk, spi_clk)
    }

    /// The configuration for a bus clock of about `spi_clk` at the clocks `clks`.
    pub fn from_clks(clks: &Clocks, spi_clk: Hertz) -> (res: Option<SpiClkConfig>)
        requires
            spi_clk.raw > 0,
            spec_clk_div_for_target_clock(clks.apb1(), spi_clk) matches Some(div) ==> spec_clk_config_error(div).is_none(),
        ensures
            res.is_some() == spec_clk_div_for_target_clock(clks.apb1(), spi_clk).is_some(),
            res matches Some(config) ==> spec_divides_by(
                config,
                spec_clk_div_for_target_clock(clks.apb1(), spi_clk).unwrap(),
            ),
    {
        Self::from_apb1_clk(clks.apb1(), spi_clk)
    }

    /// The configuration for a bus clock of about `spi_clk` at the clock `apb1_clk` of
    /// the first peripheral bus.
    pub fn from_apb1_clk(apb1_clk: Hertz, spi_clk: Hertz) -> (res: Option<SpiClkConfig>)
        requires
            spi_clk.raw > 0,
            spec_clk_div_for_target_clock(apb1_clk, spi_clk) matches Some(div) ==> spec_clk_config_error(div).is_none(),
        ensures
            res.is_some() == spec_clk_div_for_target_clock(apb1_clk, spi_clk).is_some(),
            res matches Some(config) ==> spec_divides_by(config, spec_clk_div_for_target_clock(apb1_clk, spi_clk).unwrap()),
    {
        match clk_div_for_target_clock(apb1_clk, spi_clk) {
            Some(div) => match spi_clk_config_from_div(div) {
                Ok(config) => Some(config),
                Err(_) => None,
            },
            None => None,
        }
    }
}

/// The clock configuration for the divider `div`.
///
/// The divider is not 0 and is even. The prescaler is its largest even factor up to
/// 254. What is left of the divider is the second divider, which is at most 256.
pub fn spi_clk_config_from_div(div: u16) -> (res: Result<SpiClkConfig, SpiClkConfigError>)
    ensures
        res matches Ok(config) ==> spec_clk_config_error(div).is_none() && spec_divides_by(config, div),
        res matches Err(e) ==> spec_clk_config_error(div) == Some(e),
{
    let mut div = div;
    let ghost start = div;
    if div == 0 {
        return Err(SpiClkConfigError::DivIsZero);
    }
    if div % 2 != 0 {
        return Err(SpiClkConfigError::DivideValueNotEven);
    }
    let mut prescale_val: u16 = 0;

    // Find the largest (even) prescale value that divides into div.
    let mut i: u16 = 0xfe;
    while i >= 2
        invariant_except_break
            prescale_val == 0,
            forall|larger: int| i < larger <= 0xfe && larger % 2 == 0 ==> #[trigger] (div as int % larger) != 0,
        invariant
            i % 2 == 0,
            i <= 0xfe,
            div == start,
            div % 2 == 0,
        ensures
            prescale_val != 0 ==> spec_is_prescaler(div, prescale_val as int),
            prescale_val == 0 ==> forall|larger: int|
                2 <= larger <= 0xfe && larger % 2 == 0 ==> #[trigger] (div as int % larger) != 0,
        decreases i,
    {
        if div % i == 0 {
            prescale_val = i;
            break ;
        }
        i -= 2;
    }

    if prescale_val == 0 {
        proof {
            assert(div as int % 2 == 0);
        }
        return Err(SpiClkConfigError::DivideValueNotEven);
    }
    proof {
        lemma_prescaler_is_unique(div, prescale_val as int);
    }
    let quotient = div / prescale_val;
    assert(quotient * prescale_val == div && prescale_val * quotient == div && quotient >= 1) by (nonlinear_arith)
        requires
            quotient == div / prescale_val,
            div % prescale_val == 0,
            prescale_val >= 2,
            div > 0,
    ;
    div = quotient;
    if div > u8::MAX as u16 + 1 {
        return Err(SpiClkConfigError::ScrdvValueTooLarge);
    }
    proof {
        assert forall|p: int| spec_is_prescaler(start, p) implies !(start as int / p > 256) by {
            lemma_prescaler_is_unique(start, prescale_val as int);
        }
    }
    Ok(SpiClkConfig { prescale_val: prescale_val as u8, scrdv: (div - 1) as u8 })
}

/// A divider has one prescaler at most.
pub proof fn lemma_prescaler_is_unique(div: u16, prescale: int)
    requires
        spec_is_prescaler(div, prescale),
    ensures
        forall|other: int| spec_is_prescaler(div, other) ==> other == prescale,
{
    assert forall|other: int| spec_is_prescaler(div, other) implies other == prescale by {
        if other < prescale {
            assert(div as int % prescale == 0);
        } else if other > prescale {
            assert(div as int % other == 0);
        }
    }
}

/// The clock divider for a bus clock of about `spi_clk` at the clock `sys_clk`:
/// the quotient of the two, rounded to the nearest, and then up to the next even number,
/// which gives the slower clock. There is none if the bus clock is above the clock, or
/// if the divider does not fit 16 bits.
pub open spec fn spec_clk_div_for_target_clock(sys_clk: Hertz, spi_clk: Hertz) -> Option<u16> {
    if spi_clk.raw > sys_clk.raw {
        None
    } else {
        let raw_div = sys_clk.raw as int / spi_clk.raw as int;
        let remainder = sys_clk.raw as int % spi_clk.raw as int;
        let nearest = if remainder * 2 >= spi_clk.raw {
            raw_div + 1
        } else {
            raw_div
        };
        let rounded_div = if nearest % 2 != 0 {
            nearest + 1
        } else {
            nearest
        };
        if rounded_div > u16::MAX {
            None
        } else {
            Some(rounded_div as u16)
        }
    }
}

/// The clock divider for a bus clock of about `spi_clk` at the clock `sys_clk`.
pub fn clk_div_for_target_clock(sys_clk: Hertz, spi_clk: Hertz) -> (div: Option<u16>)
    requires
        spi_clk.raw > 0,
    ensures
        div == spec_clk_div_for_target_clock(sys_clk, spi_clk),
{
    if spi_clk.raw() > sys_clk.raw() {
        return None;
    }
    // Step 1: the raw divider.
    let raw_div: u64 = (sys_clk.raw() / spi_clk.raw()) as u64;
    let remainder: u64 = (sys_clk.raw() % spi_clk.raw()) as u64;

    // Step 2: round to the nearest.
    let mut rounded_div: u64 = if remainder * 2 >= spi_clk.raw() as u64 {
        raw_div + 1
    } else {
        raw_div
    };

    if rounded_div % 2 != 0 {
        // Take the slower clock.
        rounded_div += 1;
    }
    if rounded_div > u16::MAX as u64 {
        return None;
    }
    Some(rounded_div as u16)
}

/// The configuration of one transfer, for buses with devices of different clocks and
/// modes.
#[derive(Copy, Clone, Debug, PartialEq, Eq, Structural)]
pub struct TransferConfig {
    pub clk_cfg: Option<SpiClkConfig>,
    pub mode: Option<Mode>,
    pub sod: bool,
    /// If this is enabled, all data in the FIFO is transmitted in a single frame unless
    /// the stop bit is set on a data word. A frame is the chip select being active for
    /// the duration of multiple data words.
    pub blockmode: bool,
    /// Only used with block mode: the clock stalls until a stop bit is set on a written
    /// word.
    pub bmstall: bool,
    pub hw_cs: Option<HwChipSelectId>,
}

impl TransferConfig {
    /// The configuration of a transfer with the chip select line `hw_cs_id`.
    pub fn new_with_hw_cs(
        clk_cfg: Option<SpiClkConfig>,
        mode: Option<Mode>,
        blockmode: bool,
        bmstall: bool,
        sod: bool,
        hw_cs_id: HwChipSelectId,
    ) -> (config: TransferConfig)
        ensures
            config == (TransferConfig { clk_cfg, mode, sod, blockmode, bmstall, hw_cs: Some(hw_cs_id) }),
    {
        TransferConfig { clk_cfg, mode, sod, blockmode, bmstall, hw_cs: Some(hw_cs_id) }
    }
}

/// Configuration options for the whole SPI bus.
#[derive(Debug, Copy, Clone, PartialEq, Eq, Structural)]
pub struct SpiConfig {
    pub clk: SpiClkConfig,
    /// The mode of the bus at the start.
    pub init_mode: Mode,
    /// If this is enabled, all data in the FIFO is transmitted in a single frame unless
    /// the stop bit is set on a data word.
    pub blockmode: bool,
    /// The clock stalls if the FIFO is empty in block mode.
    pub bmstall: bool,
    /// Slave output disable. Useful if separate pins or decoders control the chip
    /// select.
    pub slave_output_disable: bool,
    /// Loopback mode: the two data lines are tied inside the chip.
    pub loopback_mode: bool,
    /// Enable the master delayed capture mode.
    pub master_delayer_capture: bool,
}

impl SpiConfig {
    /// The mode in which the clock idles low and data is captured on the first edge.
    pub open spec fn spec_mode_0() -> Mode {
        Mode { polarity: Polarity::IdleLow, phase: Phase::CaptureOnFirstTransition }
    }

    /// The default configuration: mode 0, block mode with stalling clock, and the
    /// default clock divider, which is a prescaler of 2 and a second divider of 1.
    pub open spec fn spec_default() -> SpiConfig {
        SpiConfig {
            init_mode: Self::spec_mode_0(),
            blockmode: true,
            bmstall: true,
            clk: SpiClkConfig { prescale_val: 2, scrdv: 0 },
            slave_output_disable: false,
            loopback_mode: false,
            master_delayer_capture: false,
        }
    }

    /// The same configuration with the loopback mode `enable`.
    pub fn loopback(self, enable: bool) -> (config: SpiConfig)
        ensures
            config == (SpiConfig { loopback_mode: enable, ..self }),
    {
        SpiConfig { loopback_mode: enable, ..self }
    }

    /// The same configuration with the block mode `enable`.
    pub fn blockmode(self, enable: bool) -> (config: SpiConfig)
        ensures
            config == (SpiConfig { blockmode: enable, ..self }),
    {
        SpiConfig { blockmode: enable, ..self }
    }

    /// The same configuration with the stalling of the clock `enable`.
    pub fn bmstall(self, enable: bool) -> (config: SpiConfig)
        ensures
            config == (SpiConfig { bmstall: enable, ..self }),
    {
        SpiConfig { bmstall: enable, ..self }
    }

    /// The same configuration with the mode `mode`.
    pub fn mode(self, mode: Mode) -> (config: SpiConfig)
        ensures
            config == (SpiConfig { init_mode: mode, ..self }),
    {
        SpiConfig { init_mode: mode, ..self }
    }

    /// The same configuration with the clock configuration `clk_cfg`.
    pub fn clk_cfg(self, clk_cfg: SpiClkConfig) -> (config: SpiConfig)
        ensures
            config == (SpiConfig { clk: clk_cfg, ..self }),
    {
        SpiConfig { clk: clk_cfg, ..self }
    }

    /// The same configuration with the slave output disabled if `sod` is set.
    pub fn slave_output_disable(self, sod: bool) -> (config: SpiConfig)
        ensures
            config == (SpiConfig { slave_output_disable: sod, ..self }),
    {
        SpiConfig { slave_output_disable: sod, ..self }
    }
}

impl Default for SpiConfig {
    fn default() -> (config: SpiConfig)
        ensures
            config == SpiConfig::spec_default(),
    {
        SpiConfig {
            init_mode: Mode { polarity: Polarity::IdleLow, phase: Phase::CaptureOnFirstTransition },
            blockmode: true,
            bmstall: true,
            // The default divider is one that can be configured.
            clk: SpiClkConfig { prescale_val: 2, scrdv: 0 },
            slave_output_disable: false,
            loopback_mode: false,
            master_delayer_capture: false,
        }
    }
}

/// The data words that the start of a transfer of `words` puts into the transmit FIFO:
/// the first words, up to [`FILL_DEPTH`], of which the last carries the stop bit if the
/// clock stalls.
pub open spec fn spec_pumped(words: Seq<u32>, bmstall: bool) -> Seq<u32> {
    let count = if words.len() < FILL_DEPTH {
        words.len() as int
    } else {
        FILL_DEPTH as int
    };
    Seq::new(
        count as nat,
        |i: int|
            if i == count - 1 && bmstall {
                words[i] | BMSTART_BMSTOP_MASK
            } else {
                words[i]
            },
    )
}

/// Low level access to the FIFOs of an SPI peripheral.
pub trait SpiLowLevel: Sized {
    /// Writes a word to the transmit FIFO, if it has room.
    fn write_fifo(&mut self, regs: &mut regs::Spi, data: u32) -> (res: NbResult<()>)
        ensures
            *final(self) == *old(self),
            old(regs).tx_fifo@.len() >= FIFO_DEPTH ==> res == NbResult::<()>::WouldBlock && final(regs)@ == old(
                regs,
            )@,
            old(regs).tx_fifo@.len() < FIFO_DEPTH ==> res == NbResult::Done(()) && final(regs)@ == old(
                regs,
            )@.after_write_data(data),
    ;

    /// Writes a word to the transmit FIFO without asking whether it has room. A word
    /// that is written to a full FIFO is lost.
    fn write_fifo_unchecked(&mut self, regs: &mut regs::Spi, data: u32)
        ensures
            *final(self) == *old(self),
            final(regs)@ == old(regs)@.after_write_data(data),
    ;

    /// Reads a word from the receive FIFO, if it holds one.
    fn read_fifo(&mut self, regs: &mut regs::Spi) -> (res: NbResult<u32>)
        ensures
            *final(self) == *old(self),
            old(regs).rx_fifo@.len() == 0 ==> res == NbResult::<u32>::WouldBlock && final(regs)@ == old(regs)@,
            old(regs).rx_fifo@.len() > 0 ==> res == NbResult::Done(old(regs).rx_fifo@[0]) && final(regs)@ == old(
                regs,
            )@.after_read_data(),
    ;

    /// Reads a word from the receive FIFO without asking whether it holds one. An empty
    /// FIFO reads as 0. The word may carry the start bit of block mode.
    fn read_fifo_unchecked(&mut self, regs: &mut regs::Spi) -> (word: u32)
        ensures
            *final(self) == *old(self),
            word == (if old(regs).rx_fifo@.len() > 0 {
                old(regs).rx_fifo@[0]
            } else {
                0
            }),
            final(regs)@ == old(regs)@.after_read_data(),
    ;
}

/// What a configuration of a transfer can be asked and told.
pub trait TransferConfigProvider {
    fn sod(&mut self, sod: bool);

    fn blockmode(&mut self, blockmode: bool);

    fn mode(&mut self, mode: Mode);

    fn clk_cfg(&mut self, clk_cfg: SpiClkConfig);

    fn hw_cs_id(&self) -> u8;
}

/// SPI peripheral driver structure.
pub struct Spi<Word> {
    id: Bank,
    cfg: SpiConfig,
    /// Fill word for read-only SPI transactions.
    fill_word: Word,
    blockmode: bool,
    bmstall: bool,
}

impl<Word: WordProvider> Spi<Word> {
    /// The peripheral.
    pub closed spec fn spec_id(&self) -> Bank {
        self.id
    }

    /// The configuration that the driver was made with.
    pub closed spec fn spec_cfg(&self) -> SpiConfig {
        self.cfg
    }

    /// The word that is sent while words are only read.
    pub closed spec fn spec_fill_word(&self) -> Word {
        self.fill_word
    }

    /// Whether the transfers run in block mode.
    pub closed spec fn spec_blockmode(&self) -> bool {
        self.blockmode
    }

    /// Whether the clock stalls while the FIFO is empty.
    pub closed spec fn spec_bmstall(&self) -> bool {
        self.bmstall
    }

    /// Whether `other` is this driver but for the fill word and the block mode.
    pub open spec fn spec_same_bus(&self, other: &Spi<Word>) -> bool {
        &&& self.spec_id() == other.spec_id()
        &&& self.spec_cfg() == other.spec_cfg()
        &&& self.spec_bmstall() == other.spec_bmstall()
    }

    /// The registers of a peripheral that was configured with `spi_cfg` for words of
    /// the size of `Word`, and enabled.
    pub open spec fn spec_configured(spi_cfg: SpiConfig, regs: SpiRegs) -> SpiRegs {
        let bits = (spi_cfg.init_mode.polarity == Polarity::IdleHigh, spi_cfg.init_mode.phase
            == Phase::CaptureOnSecondTransition);
        SpiRegs {
            ctrl0: (Control0 { raw: 0 }).with_scrdv(spi_cfg.clk.scrdv).with_sph(bits.1).with_spo(bits.0).with_word_size(
                Word::spec_word_size(),
            ),
            ctrl1: (Control1 { raw: 0 }).with_mtxpause(false).with_mdlycap(spi_cfg.master_delayer_capture).with_bm_stall(
                spi_cfg.bmstall,
            ).with_bm_start(false).with_blockmode(spi_cfg.blockmode).with_ss(HwChipSelectId::Id0).with_sod(
                spi_cfg.slave_output_disable,
            ).with_slave_mode(false).with_enable(false).with_lbm(spi_cfg.loopback_mode).with_enable(true),
            clkprescale: ClkPrescaler { raw: spi_cfg.clk.prescale_val as u32 },
            fifo_clear: FifoClear::new(true, true),
            ..regs
        }
    }

    /// Create a new SPI struct for the pins of the ROM, which belong to SPI 3.
    pub fn new_for_rom<SpiI: SpiMarker>(spi: SpiI, spi_cfg: SpiConfig, fill_word: Word, sysconfig: &mut Sysconfig, regs: &mut regs::Spi) -> (res:
        Result<Spi<Word>, SpiIdMissmatchError>)
        ensures
            res.is_ok() == (SpiI::spec_id() == Bank::Spi3),
            res.is_err() ==> *final(sysconfig) == *old(sysconfig) && final(regs)@ == old(regs)@,
            res matches Ok(driver) ==> Self::spec_made(
                driver,
                SpiI::spec_id(),
                SpiI::spec_periph_sel(),
                spi_cfg,
                fill_word,
                *old(sysconfig),
                old(regs)@,
                *final(sysconfig),
                final(regs)@,
            ),
    {
        if SpiI::id() != Bank::Spi3 {
            return Err(SpiIdMissmatchError);
        }
        Ok(Self::new_generic(spi, spi_cfg, fill_word, sysconfig, regs))
    }

    /// What the construction of the driver `driver` leaves.
    pub open spec fn spec_made(
        driver: Spi<Word>,
        id: Bank,
        periph_sel: PeripheralSelect,
        spi_cfg: SpiConfig,
        fill_word: Word,
        sysconfig_before: Sysconfig,
        regs_before: SpiView,
        sysconfig_after: Sysconfig,
        regs_after: SpiView,
    ) -> bool {
        &&& driver.spec_id() == id
        &&& driver.spec_cfg() == spi_cfg
        &&& driver.spec_fill_word() == fill_word
        &&& driver.spec_bmstall() == spi_cfg.bmstall
        &&& driver.spec_blockmode() == spi_cfg.blockmode
        &&& sysconfig_after == (Sysconfig {
            peripheral_clk_enable: crate::bits::spec_set_bit(
                sysconfig_before.peripheral_clk_enable,
                periph_sel.bit(),
                true,
            ),
            ..sysconfig_before
        })
        &&& regs_after == (SpiView {
            regs: Self::spec_configured(spi_cfg, regs_before.regs),
            rx_fifo: Seq::<u32>::empty(),
            tx_fifo: Seq::<u32>::empty(),
        })
    }

    /// Create a new SPI peripheral driver. The pins are consumed, so that they cannot be
    /// used for other purposes, and have to belong to the peripheral.
    pub fn new<SpiI: SpiMarker, Sck: PinSck, Miso: PinMiso, Mosi: PinMosi>(
        spi: SpiI,
        _pins: (Sck, Miso, Mosi),
        spi_cfg: SpiConfig,
        fill_word: Word,
        sysconfig: &mut Sysconfig,
        ioconfig: &mut IoConfig,
        regs: &mut regs::Spi,
    ) -> (res: Result<Spi<Word>, SpiIdMissmatchError>)
        ensures
            res.is_ok() == (SpiI::spec_id() == Sck::spec_spi_id() && SpiI::spec_id() == Miso::spec_spi_id()
                && SpiI::spec_id() == Mosi::spec_spi_id()),
            res.is_err() ==> *final(sysconfig) == *old(sysconfig) && final(regs)@ == old(regs)@,
            res.is_err() ==> final(ioconfig).pins@ == old(ioconfig).pins@,
            res matches Ok(driver) ==> Self::spec_made(
                driver,
                SpiI::spec_id(),
                SpiI::spec_periph_sel(),
                spi_cfg,
                fill_word,
                *old(sysconfig),
                old(regs)@,
                *final(sysconfig),
                final(regs)@,
            ),
    {
        if SpiI::id() != Sck::spi_id() || SpiI::id() != Miso::spi_id() || SpiI::id() != Mosi::spi_id() {
            return Err(SpiIdMissmatchError);
        }
        IoPeriphPin::new(<Sck as AnyPin>::id(), ioconfig, <Sck as PinSck>::fun_sel(), None);
        IoPeriphPin::new(<Miso as AnyPin>::id(), ioconfig, <Miso as PinMiso>::fun_sel(), None);
        IoPeriphPin::new(<Mosi as AnyPin>::id(), ioconfig, <Mosi as PinMosi>::fun_sel(), None);
        Ok(Self::new_generic(spi, spi_cfg, fill_word, sysconfig, regs))
    }

    /// Create a new SPI peripheral driver without pins: opens the clock gate of the
    /// peripheral, writes the two control registers and the prescaler, clears the FIFOs,
    /// and enables the peripheral as the last step.
    pub fn new_generic<SpiI: SpiMarker>(_spi: SpiI, spi_cfg: SpiConfig, fill_word: Word, sysconfig: &mut Sysconfig, regs: &mut regs::Spi) -> (driver:
        Spi<Word>)
        ensures
            Self::spec_made(
                driver,
                SpiI::spec_id(),
                SpiI::spec_periph_sel(),
                spi_cfg,
                fill_word,
                *old(sysconfig),
                old(regs)@,
                *final(sysconfig),
                final(regs)@,
            ),
    {
        enable_peripheral_clock(sysconfig, SpiI::periph_sel());
        let (cpo_bit, cph_bit) = mode_to_cpo_cph_bit(spi_cfg.init_mode);
        regs.regs.ctrl0 = (Control0 { raw: 0 }).with_scrdv(spi_cfg.clk.scrdv).with_sph(cph_bit).with_spo(
            cpo_bit,
        ).with_word_size(Word::word_size());
        regs.regs.ctrl1 = (Control1 { raw: 0 }).with_mtxpause(false).with_mdlycap(
            spi_cfg.master_delayer_capture,
        ).with_bm_stall(spi_cfg.bmstall).with_bm_start(false).with_blockmode(spi_cfg.blockmode).with_ss(
            HwChipSelectId::Id0,
        ).with_sod(spi_cfg.slave_output_disable).with_slave_mode(false).with_enable(false).with_lbm(
            spi_cfg.loopback_mode,
        );
        regs.regs.clkprescale = ClkPrescaler::new(spi_cfg.clk.prescale_val);
        regs.write_fifo_clear(FifoClear::new(true, true));
        proof {
            crate::lemma_fifo_clear_both();
        }
        // The peripheral is enabled as the last step.
        regs.regs.ctrl1 = regs.regs.ctrl1.with_enable(true);
        Spi { id: SpiI::id(), cfg: spi_cfg, fill_word, bmstall: spi_cfg.bmstall, blockmode: spi_cfg.blockmode }
    }

    /// Configures the clock of the bus.
    pub fn cfg_clock(&mut self, regs: &mut regs::Spi, cfg: SpiClkConfig)
        ensures
            *final(self) == *old(self),
            final(regs)@ == old(regs)@.with_regs(
                SpiRegs {
                    ctrl0: old(regs).regs.ctrl0.with_scrdv(cfg.scrdv),
                    clkprescale: ClkPrescaler { raw: cfg.prescale_val as u32 },
                    ..old(regs).regs
                },
            ),
    {
        regs.regs.ctrl0 = regs.regs.ctrl0.with_scrdv(cfg.scrdv);
        regs.regs.clkprescale = ClkPrescaler::new(cfg.prescale_val);
    }

    /// Sets the word that is sent while words are only read.
    pub fn set_fill_word(&mut self, fill_word: Word)
        ensures
            final(self).spec_same_bus(old(self)),
            final(self).spec_blockmode() == old(self).spec_blockmode(),
            final(self).spec_fill_word() == fill_word,
    {
        self.fill_word = fill_word;
    }

    /// Configures the clock of the bus for the divider `div`, if it can be configured.
    pub fn cfg_clock_from_div(&mut self, regs: &mut regs::Spi, div: u16) -> (res: Result<(), SpiClkConfigError>)
        ensures
            *final(self) == *old(self),
            res matches Err(e) ==> spec_clk_config_error(div) == Some(e) && final(regs)@ == old(regs)@,
            res.is_ok() ==> spec_clk_config_error(div).is_none() && exists|cfg: SpiClkConfig|
                #[trigger] spec_divides_by(cfg, div) && final(regs)@ == old(regs)@.with_regs(
                    SpiRegs {
                        ctrl0: old(regs).regs.ctrl0.with_scrdv(cfg.scrdv),
                        clkprescale: ClkPrescaler { raw: cfg.prescale_val as u32 },
                        ..old(regs).regs
                    },
                ),
    {
        match spi_clk_config_from_div(div) {
            Ok(val) => {
                self.cfg_clock(regs, val);
                Ok(())
            },
            Err(e) => Err(e),
        }
    }

    /// Configures the mode of the bus.
    pub fn cfg_mode(&mut self, regs: &mut regs::Spi, mode: Mode)
        ensures
            *final(self) == *old(self),
            final(regs)@ == old(regs)@.with_regs(
                SpiRegs {
                    ctrl0: old(regs).regs.ctrl0.with_spo(mode.polarity == Polarity::IdleHigh).with_sph(
                        mode.phase == Phase::CaptureOnSecondTransition,
                    ),
                    ..old(regs).regs
                },
            ),
    {
        let (cpo_bit, cph_bit) = mode_to_cpo_cph_bit(mode);
        regs.regs.ctrl0 = regs.regs.ctrl0.with_spo(cpo_bit).with_sph(cph_bit);
    }

    /// The word that is sent while words are only read.
    #[verifier::when_used_as_spec(spec_fill_word)]
    pub fn fill_word(&self) -> (word: Word)
        ensures
            word == self.spec_fill_word(),
    {
        self.fill_word
    }

    /// Empties the transmit FIFO.
    pub fn clear_tx_fifo(&mut self, regs: &mut regs::Spi)
        ensures
            *final(self) == *old(self),
            final(regs)@ == old(regs)@.after_fifo_clear(FifoClear::new(true, false)),
    {
        regs.write_fifo_clear(FifoClear::new(true, false));
    }

    /// Empties the receive FIFO.
    pub fn clear_rx_fifo(&mut self, regs: &mut regs::Spi)
        ensures
            *final(self) == *old(self),
            final(regs)@ == old(regs)@.after_fifo_clear(FifoClear::new(false, true)),
    {
        regs.write_fifo_clear(FifoClear::new(false, true));
    }

    /// Reads the peripheral ID.
    pub fn perid(&self, regs: &regs::Spi) -> (id: u32)
        ensures
            id == regs.regs.perid,
    {
        regs.regs.perid
    }

    /// Configure the hardware chip select `hw_cs`. The pin has to be handed to its
    /// chip select function with [`configure_pin_as_hw_cs_pin`].
    pub fn cfg_hw_cs(&mut self, regs: &mut regs::Spi, hw_cs: HwChipSelectId)
        ensures
            *final(self) == *old(self),
            final(regs)@ == old(regs)@.with_regs(
                SpiRegs { ctrl1: old(regs).regs.ctrl1.with_sod(false).with_ss(hw_cs), ..old(regs).regs },
            ),
    {
        regs.regs.ctrl1 = regs.regs.ctrl1.with_sod(false).with_ss(hw_cs);
    }

    /// Disables the hardware chip select, for a chip select that is handled outside,
    /// for example with GPIO pins.
    pub fn cfg_hw_cs_disable(&mut self, regs: &mut regs::Spi)
        ensures
            *final(self) == *old(self),
            final(regs)@ == old(regs)@.with_regs(
                SpiRegs { ctrl1: old(regs).regs.ctrl1.with_sod(true), ..old(regs).regs },
            ),
    {
        regs.regs.ctrl1 = regs.regs.ctrl1.with_sod(true);
    }

    /// The second control register `ctrl1` for the transfer `transfer_cfg`.
    pub open spec fn spec_transfer_ctrl1(ctrl1: Control1, transfer_cfg: TransferConfig) -> Control1 {
        let selected = if transfer_cfg.sod {
            ctrl1.with_sod(true)
        } else {
            match transfer_cfg.hw_cs {
                Some(hw_cs) => ctrl1.with_sod(false).with_ss(hw_cs),
                None => ctrl1.with_sod(false),
            }
        };
        selected.with_blockmode(transfer_cfg.blockmode).with_bm_stall(transfer_cfg.bmstall)
    }

    /// The first control register `ctrl0` for the transfer `transfer_cfg`.
    pub open spec fn spec_transfer_ctrl0(ctrl0: Control0, transfer_cfg: TransferConfig) -> Control0 {
        let clocked = match transfer_cfg.clk_cfg {
            Some(clk) => ctrl0.with_scrdv(clk.scrdv),
            None => ctrl0,
        };
        match transfer_cfg.mode {
            Some(mode) => clocked.with_spo(mode.polarity == Polarity::IdleHigh).with_sph(
                mode.phase == Phase::CaptureOnSecondTransition,
            ),
            None => clocked,
        }
    }

    /// Configures all parameters of a transfer in one go: the clock and the mode where
    /// the configuration has them, the chip select, the block mode and the stalling of
    /// the clock.
    pub fn cfg_transfer(&mut self, regs: &mut regs::Spi, transfer_cfg: &TransferConfig)
        ensures
            final(self).spec_same_bus(old(self)),
            final(self).spec_fill_word() == old(self).spec_fill_word(),
            final(self).spec_blockmode() == transfer_cfg.blockmode,
            final(regs)@ == old(regs)@.with_regs(
                SpiRegs {
                    ctrl0: Self::spec_transfer_ctrl0(old(regs).regs.ctrl0, *transfer_cfg),
                    ctrl1: Self::spec_transfer_ctrl1(old(regs).regs.ctrl1, *transfer_cfg),
                    clkprescale: match transfer_cfg.clk_cfg {
                        Some(clk) => ClkPrescaler { raw: clk.prescale_val as u32 },
                        None => old(regs).regs.clkprescale,
                    },
                    ..old(regs).regs
                },
            ),
    {
        match transfer_cfg.clk_cfg {
            Some(trans_clk_div) => {
                self.cfg_clock(regs, trans_clk_div);
            },
            None => {},
        }
        match transfer_cfg.mode {
            Some(mode) => {
                self.cfg_mode(regs, mode);
            },
            None => {},
        }
        self.blockmode = transfer_cfg.blockmode;
        let mut value = regs.regs.ctrl1;
        if transfer_cfg.sod {
            value = value.with_sod(transfer_cfg.sod);
        } else {
            value = value.with_sod(false);
            match transfer_cfg.hw_cs {
                Some(hw_cs) => {
                    value = value.with_ss(hw_cs);
                },
                None => {},
            }
        }
        value = value.with_blockmode(transfer_cfg.blockmode).with_bm_stall(transfer_cfg.bmstall);
        regs.regs.ctrl1 = value;
    }

    /// Fills the transmit FIFO, which has room for them, with the first of the data
    /// words `words` at the start of a transfer, and returns their number. In block
    /// mode the transmitter pauses while the FIFO is filled.
    pub fn initial_send_fifo_pumping_with_words(&mut self, regs: &mut regs::Spi, words: &[u32]) -> (written: usize)
        requires
            old(regs).tx_fifo@.len() + FILL_DEPTH <= FIFO_DEPTH,
        ensures
            *final(self) == *old(self),
            written == spec_pumped(words@, old(self).spec_bmstall()).len(),
            final(regs)@ == (SpiView {
                tx_fifo: old(regs).tx_fifo@ + spec_pumped(words@, old(self).spec_bmstall()),
                regs: if old(self).spec_blockmode() {
                    SpiRegs { ctrl1: old(regs).regs.ctrl1.with_mtxpause(true).with_mtxpause(false), ..old(regs).regs }
                } else {
                    old(regs).regs
                },
                ..old(regs)@
            }),
    {
        if self.blockmode {
            regs.regs.ctrl1 = regs.regs.ctrl1.with_mtxpause(true);
        }
        let ghost fifo = regs.tx_fifo@;
        let ghost paused = regs.regs;
        let ghost pumped = spec_pumped(words@, self.bmstall);
        // Fill the first part of the transmit FIFO.
        let mut current_write_idx: usize = 0;
        let smaller_idx = if FILL_DEPTH < words.len() {
            FILL_DEPTH
        } else {
            words.len()
        };
        assert(fifo + pumped.subrange(0, 0) =~= fifo);
        while current_write_idx < smaller_idx
            invariant
                current_write_idx <= smaller_idx <= words@.len(),
                smaller_idx <= FILL_DEPTH,
                smaller_idx == pumped.len(),
                pumped == spec_pumped(words@, self.bmstall),
                fifo.len() + FILL_DEPTH <= FIFO_DEPTH,
                *self == *old(self),
                regs@ == (SpiView {
                    tx_fifo: fifo + pumped.subrange(0, current_write_idx as int),
                    regs: paused,
                    ..old(regs)@
                }),
            decreases smaller_idx - current_write_idx,
        {
            let word = words[current_write_idx];
            if current_write_idx == smaller_idx - 1 && self.bmstall {
                self.write_fifo_unchecked(regs, word | BMSTART_BMSTOP_MASK);
            } else {
                self.write_fifo_unchecked(regs, word);
            }
            proof {
                assert((fifo + pumped.subrange(0, current_write_idx as int)).push(pumped[current_write_idx as int])
                    =~= fifo + pumped.subrange(0, current_write_idx + 1));
            }
            current_write_idx += 1;
        }
        assert(pumped.subrange(0, pumped.len() as int) =~= pumped);
        if self.blockmode {
            regs.regs.ctrl1 = regs.regs.ctrl1.with_mtxpause(false);
        }
        current_write_idx
    }

    /// Fills the transmit FIFO, which has room for them, with fill words at the start
    /// of a transfer that only reads `send_len` words, and returns their number.
    pub fn initial_send_fifo_pumping_with_fill_words(&mut self, regs: &mut regs::Spi, send_len: usize) -> (written: usize)
        requires
            old(regs).tx_fifo@.len() + FILL_DEPTH <= FIFO_DEPTH,
        ensures
            *final(self) == *old(self),
            written == spec_pumped(Seq::new(send_len as nat, |i: int| old(self).spec_fill_word().spec_into_word()), old(self).spec_bmstall()).len(),
            final(regs)@ == (SpiView {
                tx_fifo: old(regs).tx_fifo@ + spec_pumped(
                    Seq::new(send_len as nat, |i: int| old(self).spec_fill_word().spec_into_word()),
                    old(self).spec_bmstall(),
                ),
                regs: if old(self).spec_blockmode() {
                    SpiRegs { ctrl1: old(regs).regs.ctrl1.with_mtxpause(true).with_mtxpause(false), ..old(regs).regs }
                } else {
                    old(regs).regs
                },
                ..old(regs)@
            }),
    {
        if self.blockmode {
            regs.regs.ctrl1 = regs.regs.ctrl1.with_mtxpause(true);
        }
        let ghost fifo = regs.tx_fifo@;
        let ghost paused = regs.regs;
        let ghost words = Seq::new(send_len as nat, |i: int| self.spec_fill_word().spec_into_word());
        let ghost pumped = spec_pumped(words, self.bmstall);
        let fill = self.fill_word.into_word();
        // Fill the first part of the transmit FIFO.
        let mut current_write_idx: usize = 0;
        let smaller_idx = if FILL_DEPTH < send_len {
            FILL_DEPTH
        } else {
            send_len
        };
        assert(fifo + pumped.subrange(0, 0) =~= fifo);
        while current_write_idx < smaller_idx
            invariant
                current_write_idx <= smaller_idx <= send_len,
                smaller_idx <= FILL_DEPTH,
                smaller_idx == pumped.len(),
                words == Seq::new(send_len as nat, |i: int| self.spec_fill_word().spec_into_word()),
                pumped == spec_pumped(words, self.bmstall),
                fill == self.spec_fill_word().spec_into_word(),
                fifo.len() + FILL_DEPTH <= FIFO_DEPTH,
                *self == *old(self),
                regs@ == (SpiView {
                    tx_fifo: fifo + pumped.subrange(0, current_write_idx as int),
                    regs: paused,
                    ..old(regs)@
                }),
            decreases smaller_idx - current_write_idx,
        {
            if current_write_idx == smaller_idx - 1 && self.bmstall {
                self.write_fifo_unchecked(regs, fill | BMSTART_BMSTOP_MASK);
            } else {
                self.write_fifo_unchecked(regs, fill);
            }
            proof {
                assert((fifo + pumped.subrange(0, current_write_idx as int)).push(pumped[current_write_idx as int])
                    =~= fifo + pumped.subrange(0, current_write_idx + 1));
            }
            current_write_idx += 1;
        }
        assert(pumped.subrange(0, pumped.len() as int) =~= pumped);
        if self.blockmode {
            regs.regs.ctrl1 = regs.regs.ctrl1.with_mtxpause(false);
        }
        current_write_idx
    }

    /// The data word for the word `word` at the index `index` of a transfer of `len`
    /// words: the last word carries the stop bit if the clock stalls.
    pub fn data_word(&self, word: u32, index: usize, len: usize) -> (data: u32)
        ensures
            data == (if index + 1 == len && self.spec_bmstall() {
                word | BMSTART_BMSTOP_MASK
            } else {
                word
            }),
    {
        if len > 0 && index == len - 1 && self.bmstall {
            word | BMSTART_BMSTOP_MASK
        } else {
            word
        }
    }

    /// Takes what the receive FIFO holds out of it, once the transmit FIFO is empty
    /// and the bus is idle.
    pub fn flush_internal(&mut self, regs: &mut regs::Spi)
        requires
            old(regs).tx_fifo@.len() == 0,
            !old(regs).regs.status.busy(),
        ensures
            *final(self) == *old(self),
            final(regs)@ == (SpiView { rx_fifo: Seq::<u32>::empty(), ..old(regs)@ }),
    {
        proof {
            lemma_status_of_fifos(regs@);
        }
        let mut status_reg = regs.read_status();
        while !status_reg.tx_empty() || status_reg.rx_not_empty() || status_reg.busy()
            invariant
                *self == *old(self),
                regs.regs == old(regs).regs,
                regs.tx_fifo@ == old(regs).tx_fifo@,
                regs.tx_fifo@.len() == 0,
                !regs.regs.status.busy(),
                status_reg == regs@.status(),
                status_reg.tx_empty(),
                !status_reg.busy(),
                status_reg.rx_not_empty() == (regs.rx_fifo@.len() > 0),
            decreases regs.rx_fifo@.len(),
        {
            if status_reg.rx_not_empty() {
                self.read_fifo_unchecked(regs);
            }
            proof {
                lemma_status_of_fifos(regs@);
            }
            status_reg = regs.read_status();
        }
        assert(regs.rx_fifo@ =~= Seq::<u32>::empty());
    }
}

/// What the status of an SPI peripheral shows of its FIFOs and of the bus.
pub proof fn lemma_status_of_fifos(spi: SpiView)
    ensures
        spi.status().tx_empty() == (spi.tx_fifo.len() == 0),
        spi.status().tx_not_full() == (spi.tx_fifo.len() < FIFO_DEPTH),
        spi.status().rx_not_empty() == (spi.rx_fifo.len() > 0),
        spi.status().busy() == spi.regs.status.busy(),
{
    let a = spi.regs.status;
    let b = a.with_tx_empty(spi.tx_fifo.len() == 0);
    let c = b.with_tx_not_full(spi.tx_fifo.len() < FIFO_DEPTH);
    a.lemma_with_tx_empty(spi.tx_fifo.len() == 0);
    b.lemma_with_tx_not_full(spi.tx_fifo.len() < FIFO_DEPTH);
    c.lemma_with_rx_not_empty(spi.rx_fifo.len() > 0);
}

impl<Word: WordProvider> SpiLowLevel for Spi<Word> {
    fn write_fifo(&mut self, regs: &mut regs::Spi, data: u32) -> (res: NbResult<()>) {
        proof {
            let s = regs.regs.status.with_tx_empty(regs.tx_fifo@.len() == 0);
            s.lemma_with_tx_not_full(regs.tx_fifo@.len() < FIFO_DEPTH);
            s.with_tx_not_full(regs.tx_fifo@.len() < FIFO_DEPTH).lemma_with_rx_not_empty(regs.rx_fifo@.len() > 0);
        }
        if !regs.read_status().tx_not_full() {
            return NbResult::WouldBlock;
        }
        self.write_fifo_unchecked(regs, data);
        NbResult::Done(())
    }

    fn write_fifo_unchecked(&mut self, regs: &mut regs::Spi, data: u32) {
        regs.write_data(Data::new_with_raw_value(data));
    }

    fn read_fifo(&mut self, regs: &mut regs::Spi) -> (res: NbResult<u32>) {
        proof {
            let s = regs.regs.status.with_tx_empty(regs.tx_fifo@.len() == 0).with_tx_not_full(
                regs.tx_fifo@.len() < FIFO_DEPTH,
            );
            s.lemma_with_rx_not_empty(regs.rx_fifo@.len() > 0);
        }
        if !regs.read_status().rx_not_empty() {
            return NbResult::WouldBlock;
        }
        NbResult::Done(self.read_fifo_unchecked(regs))
    }

    fn read_fifo_unchecked(&mut self, regs: &mut regs::Spi) -> (word: u32) {
        regs.read_data().raw_value()
    }
}

} // verus!
