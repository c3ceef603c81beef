//! The I2C master.
//!
//! The driver configures the master and issues its commands. A blocking transfer is a
//! loop in which the caller reads the status of the hardware and the driver decides what
//! comes next: [`I2cMaster::write_step`] and [`I2cMaster::read_step`] are the decisions.
use crate::clock::Clocks;
use crate::sysconfig::{enable_peripheral_clock, reset_peripheral_for_cycles, Sysconfig};
use crate::time::Hertz;
use crate::{FifoClear, PeripheralSelect, Sealed};
use vstd::prelude::*;

pub mod regs;

pub use regs::{Bank, I2cSpeed, RxFifoFullMode, TxFifoEmptyMode};
use regs::{ClkTimeoutLimit, Control, I2c, InterruptClear};

verus! {

/// The clock of the bus at regular speed.
pub const CLK_100K: u32 = 100_000;

/// The clock of the bus at fast speed.
pub const CLK_400K: u32 = 400_000;

/// The slowest reference clock at which the fast speed is accepted.
pub const MIN_CLK_400K: u32 = 8_000_000;

/// The largest number of bytes of one transfer.
pub const MAX_TRANSFER_LEN: usize = 0x7fe;

/// The bytes that the transmit FIFO is filled with before a write starts. The FIFO
/// holds 16.
pub const FILL_DEPTH: usize = 12;

/// The reference clock is too slow for the fast speed.
#[derive(Debug, Clone, Copy, PartialEq, Eq, Structural)]
pub struct ClockTooSlowForFastI2cError;

/// The timing parameters are invalid.
#[derive(Debug, Clone, Copy, PartialEq, Eq, Structural)]
pub struct InvalidTimingParamsError;

/// An error of a transfer.
#[derive(Debug, Clone, Copy, PartialEq, Eq, Structural)]
pub enum Error {
    ArbitrationLost,
    NackAddr,
    /// Data not acknowledged in a write operation.
    NackData,
    /// Not enough data received in a read operation.
    InsufficientDataReceived,
    /// Number of bytes of the transfer too large: larger than 0x7fe.
    DataTooLarge,
    /// The clock line was low for as many clock cycles as the timeout limit says.
    ClockTimeout(u32),
}

/// An error of the construction of a master.
#[derive(Debug, Clone, Copy, PartialEq, Eq, Structural)]
pub enum InitError {
    /// Wrong address used in the constructor.
    WrongAddrMode,
    /// The clock is too slow for the fast speed.
    ClockTooSlow(ClockTooSlowForFastI2cError),
}

/// A command of the master.
#[derive(Debug, PartialEq, Eq, Copy, Clone, Structural)]
pub enum I2cCommand {
    Start,
    Stop,
    StartWithStop,
    Cancel,
}

impl I2cCommand {
    /// The bits of the command in the command register.
    #[verifier::allow_in_spec]
    pub fn raw_value(self) -> u32
        returns
            (match self {
                I2cCommand::Start => 0b01u32,
                I2cCommand::Stop => 0b10u32,
                I2cCommand::StartWithStop => 0b11u32,
                I2cCommand::Cancel => 0b100u32,
            }),
    {
        match self {
            I2cCommand::Start => 0b01,
            I2cCommand::Stop => 0b10,
            I2cCommand::StartWithStop => 0b11,
            I2cCommand::Cancel => 0b100,
        }
    }
}

/// The address of a slave: seven or ten bits.
#[derive(Debug, PartialEq, Eq, Copy, Clone, Structural)]
pub enum I2cAddress {
    Regular(u8),
    TenBit(u16),
}

impl I2cAddress {
    /// Whether the address has ten bits.
    pub fn ten_bit_addr(&self) -> (ten_bit: bool)
        ensures
            ten_bit == (*self is TenBit),
    {
        match self {
            I2cAddress::Regular(_) => false,
            I2cAddress::TenBit(_) => true,
        }
    }

    /// The address as a number.
    pub open spec fn spec_raw(&self) -> u16 {
        match self {
            I2cAddress::Regular(addr) => *addr as u16,
            I2cAddress::TenBit(addr) => *addr,
        }
    }

    /// The address as a number.
    #[verifier::when_used_as_spec(spec_raw)]
    pub fn raw(&self) -> (raw: u16)
        ensures
            raw == self.spec_raw(),
    {
        match self {
            I2cAddress::Regular(addr) => *addr as u16,
            I2cAddress::TenBit(addr) => *addr,
        }
    }
}

/// One of the I2C peripherals as a type. The registers are the same for all of them.
pub trait I2cInstance: Sealed {
    /// The peripheral.
    spec fn spec_id() -> Bank;

    /// The clock gate of the peripheral.
    spec fn spec_periph_sel() -> PeripheralSelect;

    /// The peripheral.
    fn id() -> (bank: Bank)
        ensures
            bank == Self::spec_id(),
    ;

    /// The clock gate of the peripheral.
    fn periph_sel() -> (sel: PeripheralSelect)
        ensures
            sel == Self::spec_periph_sel(),
    ;
}

/// I2C 0 as a type.
#[derive(Debug)]
pub struct I2c0;

/// I2C 1 as a type.
#[derive(Debug)]
pub struct I2c1;

/// I2C 2 as a type.
#[derive(Debug)]
pub struct I2c2;

impl Sealed for I2c0 {

}

impl Sealed for I2c1 {

}

impl Sealed for I2c2 {

}

impl I2cInstance for I2c0 {
    open spec fn spec_id() -> Bank {
        Bank::I2c0
    }

    open spec fn spec_periph_sel() -> PeripheralSelect {
        PeripheralSelect::I2c0
    }

    fn id() -> (bank: Bank) {
        Bank::I2c0
    }

    fn periph_sel() -> (sel: PeripheralSelect) {
        PeripheralSelect::I2c0
    }
}

impl I2cInstance for I2c1 {
    open spec fn spec_id() -> Bank {
        Bank::I2c1
    }

    open spec fn spec_periph_sel() -> PeripheralSelect {
        PeripheralSelect::I2c1
    }

    fn id() -> (bank: Bank) {
        Bank::I2c1
    }

    fn periph_sel() -> (sel: PeripheralSelect) {
        PeripheralSelect::I2c1
    }
}

impl I2cInstance for I2c2 {
    open spec fn spec_id() -> Bank {
        Bank::I2c2
    }

    open spec fn spec_periph_sel() -> PeripheralSelect {
        PeripheralSelect::I2c2
    }

    fn id() -> (bank: Bank) {
        Bank::I2c2
    }

    fn periph_sel() -> (sel: PeripheralSelect) {
        PeripheralSelect::I2c2
    }
}

/// Whether the clock divider can be computed for the reference clock `ref_clk` and the
/// speed `speed_mode`: at regular speed the clock is at least 2 MHz, at fast speed it is
/// below 8 MHz, which is refused, or at least 10 MHz.
pub open spec fn spec_clk_div_defined(ref_clk: Hertz, speed_mode: I2cSpeed) -> bool {
    match speed_mode {
        I2cSpeed::Regular100khz => ref_clk.raw >= 2_000_000,
        I2cSpeed::Fast400khz => ref_clk.raw < MIN_CLK_400K || ref_clk.raw >= 10_000_000,
    }
}

/// The clock divider for the reference clock `ref_clk` and the speed `speed_mode`: the
/// reference clock by 20 times the clock of the bus at regular speed, by 25 times at
/// fast speed, less one, and of that the low eight bits.
pub open spec fn spec_clk_div(ref_clk: Hertz, speed_mode: I2cSpeed) -> Result<u8, ClockTooSlowForFastI2cError> {
    match speed_mode {
        I2cSpeed::Regular100khz => Ok(((ref_clk.raw as int / 100_000 / 20 - 1) % 256) as u8),
        I2cSpeed::Fast400khz => if ref_clk.raw < MIN_CLK_400K {
            Err(ClockTooSlowForFastI2cError)
        } else {
            Ok(((ref_clk.raw as int / 400_000 / 25 - 1) % 256) as u8)
        },
    }
}

/// The clock divider for the reference clock `ref_clk` and the speed `speed_mode`.
pub fn calc_clk_div_generic(ref_clk: Hertz, speed_mode: I2cSpeed) -> (res: Result<u8, ClockTooSlowForFastI2cError>)
    requires
        spec_clk_div_defined(ref_clk, speed_mode),
    ensures
        res == spec_clk_div(ref_clk, speed_mode),
{
    if speed_mode == I2cSpeed::Regular100khz {
        let div: u32 = (ref_clk.raw() / CLK_100K / 20) - 1;
        Ok((div % 256) as u8)
    } else {
        if ref_clk.raw() < MIN_CLK_400K {
            return Err(ClockTooSlowForFastI2cError);
        }
        let div: u32 = (ref_clk.raw() / CLK_400K / 25) - 1;
        Ok((div % 256) as u8)
    }
}

/// The clock divider for the clocks `clks` and the speed `speed_mode`.
pub fn calc_clk_div(clks: &Clocks, speed_mode: I2cSpeed) -> (res: Result<u8, ClockTooSlowForFastI2cError>)
    requires
        spec_clk_div_defined(clks.apb1(), speed_mode),
    ensures
        res == spec_clk_div(clks.apb1(), speed_mode),
{
    calc_clk_div_generic(clks.apb1(), speed_mode)
}

/// The timing of the bus: eight times of four bits each.
#[derive(Debug, PartialEq, Eq, Clone, Copy, Structural)]
pub struct TimingConfig {
    pub t_rise: u8,
    pub t_fall: u8,
    pub t_high: u8,
    pub t_low: u8,
    pub tsu_stop: u8,
    pub tsu_start: u8,
    pub thd_start: u8,
    pub t_buf: u8,
}

impl TimingConfig {
    /// The timing that the registers hold after a reset.
    pub open spec fn spec_default() -> TimingConfig {
        TimingConfig {
            t_rise: 0b0010,
            t_fall: 0b0001,
            t_high: 0b1000,
            t_low: 0b1001,
            tsu_stop: 0b1000,
            tsu_start: 0b1010,
            thd_start: 0b1000,
            t_buf: 0b1010,
        }
    }

    /// The value of the timing register for the timing.
    pub open spec fn spec_register(self) -> regs::TimingConfig {
        (regs::TimingConfig { raw: 0 }).with_t_rise(self.t_rise).with_t_fall(self.t_fall).with_t_high(
            self.t_high,
        ).with_t_low(self.t_low).with_tsu_stop(self.tsu_stop).with_tsu_start(self.tsu_start).with_thd_start(
            self.thd_start,
        ).with_t_buf(self.t_buf)
    }
}

impl Default for TimingConfig {
    fn default() -> (config: TimingConfig)
        ensures
            config == TimingConfig::spec_default(),
    {
        TimingConfig {
            t_rise: 0b0010,
            t_fall: 0b0001,
            t_high: 0b1000,
            t_low: 0b1001,
            tsu_stop: 0b1000,
            tsu_start: 0b1010,
            thd_start: 0b1000,
            t_buf: 0b1010,
        }
    }
}

/// The configuration of a master.
#[derive(Debug, PartialEq, Eq, Clone, Copy, Structural)]
pub struct MasterConfig {
    pub tx_empty_mode: TxFifoEmptyMode,
    pub rx_full_mode: RxFifoFullMode,
    /// Enable the analog delay glitch filter.
    pub alg_filt: bool,
    /// Enable the digital glitch filter.
    pub dlg_filt: bool,
    pub timing_config: Option<TimingConfig>,
    /// The limit of the time for which the clock line may be low, in clock cycles of
    /// the bus. It fits twenty bits.
    pub timeout: Option<u32>,
}

impl MasterConfig {
    /// The default configuration: both FIFOs stall, no filter, no timing, no timeout.
    pub open spec fn spec_default() -> MasterConfig {
        MasterConfig {
            tx_empty_mode: TxFifoEmptyMode::Stall,
            rx_full_mode: RxFifoFullMode::Stall,
            alg_filt: false,
            dlg_filt: false,
            timeout: None,
            timing_config: None,
        }
    }

    /// The control register `control` with the modes and filters of the configuration,
    /// and with the timing switched on if the configuration has one.
    pub open spec fn spec_control(self, control: Control) -> Control {
        let base = control.with_tx_fifo_empty_mode(self.tx_empty_mode).with_rx_fifo_full_mode(
            self.rx_full_mode,
        ).with_analog_filter(self.alg_filt).with_digital_filter(self.dlg_filt);
        if self.timing_config.is_some() {
            base.with_enable_timing_config(true)
        } else {
            base
        }
    }
}

impl Default for MasterConfig {
    fn default() -> (config: MasterConfig)
        ensures
            config == MasterConfig::spec_default(),
    {
        MasterConfig {
            tx_empty_mode: TxFifoEmptyMode::Stall,
            rx_full_mode: RxFifoFullMode::Stall,
            alg_filt: false,
            dlg_filt: false,
            timeout: None,
            timing_config: None,
        }
    }
}

/// When a write is complete.
#[derive(Debug, Clone, Copy, PartialEq, Eq, Structural)]
pub enum WriteCompletionCondition {
    /// When the master is idle.
    Idle,
    /// When the master waits for the next command.
    Waiting,
}

/// The watch over the clock timeout during a transfer.
#[derive(Debug, Clone, Copy, PartialEq, Eq, Structural)]
pub struct TimeoutGuard {
    clk_timeout_enabled: bool,
}

impl TimeoutGuard {
    /// Whether the clock timeout is watched.
    pub closed spec fn spec_timeout_enabled(&self) -> bool {
        self.clk_timeout_enabled
    }

    /// Starts the watch. If the timeout limit is not 0, a pending timeout is cleared
    /// and the timeout interrupt is enabled.
    pub fn new(i2c: &mut I2c) -> (guard: TimeoutGuard)
        ensures
            guard.spec_timeout_enabled() == (crate::bits::spec_get_field(old(i2c).clk_timeout_limit.raw, 0, 20) > 0),
            !guard.spec_timeout_enabled() ==> *final(i2c) == *old(i2c),
            guard.spec_timeout_enabled() ==> *final(i2c) == (I2c {
                irq_clear: (InterruptClear { raw: 0 }).with_clock_timeout(true).with_tx_overflow(false).with_rx_overflow(
                    false,
                ),
                irq_enb: old(i2c).irq_enb.with_clock_timeout(true),
                ..*old(i2c)
            }),
    {
        let clk_timeout_enabled = i2c.clk_timeout_limit.value() > 0;
        if clk_timeout_enabled {
            // Clear any interrupt that is pending.
            i2c.irq_clear = (InterruptClear { raw: 0 }).with_clock_timeout(true).with_tx_overflow(
                false,
            ).with_rx_overflow(false);
            i2c.irq_enb = i2c.irq_enb.with_clock_timeout(true);
        }
        TimeoutGuard { clk_timeout_enabled }
    }

    /// Whether the clock timeout is watched.
    #[verifier::when_used_as_spec(spec_timeout_enabled)]
    pub fn timeout_enabled(&self) -> (enabled: bool)
        ensures
            enabled == self.spec_timeout_enabled(),
    {
        self.clk_timeout_enabled
    }

    /// Ends the watch: the timeout interrupt is disabled if it was enabled for the
    /// watch.
    pub fn release(self, i2c: &mut I2c)
        ensures
            !self.spec_timeout_enabled() ==> *final(i2c) == *old(i2c),
            self.spec_timeout_enabled() ==> *final(i2c) == (I2c {
                irq_enb: old(i2c).irq_enb.with_clock_timeout(false),
                ..*old(i2c)
            }),
    {
        if self.clk_timeout_enabled {
            i2c.irq_enb = i2c.irq_enb.with_clock_timeout(false);
        }
    }
}

/// What a blocking write does next.
#[derive(Debug, Clone, Copy, PartialEq, Eq, Structural)]
pub enum WriteStep {
    /// The write has failed. If `stop` is set, a stop command is issued. The transmit
    /// FIFO is cleared.
    Failed { error: Error, stop: bool },
    /// The write has failed by a clock timeout.
    TimedOut { error: Error },
    /// The write is complete.
    Complete,
    /// The next byte is written to the FIFO, and the status is read again.
    WriteByte,
    /// The status is read again.
    Wait,
}

/// What a blocking read does next.
#[derive(Debug, Clone, Copy, PartialEq, Eq, Structural)]
pub enum ReadStep {
    /// The read has failed. If `clear_rx_fifo` is set, the receive FIFO is cleared.
    Failed { error: Error, clear_rx_fifo: bool },
    /// The read is complete.
    Complete,
    /// A byte is taken from the FIFO, and the status is read again.
    TakeByte,
    /// The status is read again.
    Wait,
}

/// The I2C master.
pub struct I2cMaster {
    id: Bank,
}

impl I2cMaster {
    /// The peripheral.
    pub closed spec fn spec_id(&self) -> Bank {
        self.id
    }

    /// The registers of a master that was configured with `cfg` for the speed
    /// `speed_mode` and the clock divider `clk_div`, and enabled.
    pub open spec fn spec_configured(i2c: I2c, cfg: MasterConfig, speed_mode: I2cSpeed, clk_div: u8) -> I2c {
        I2c {
            clkscale: (regs::ClkScale { raw: 0 }).with_div(clk_div).with_fastmode(speed_mode),
            control: cfg.spec_control(i2c.control).with_enable(true),
            timing_config: match cfg.timing_config {
                Some(timing) => timing.spec_register(),
                None => i2c.timing_config,
            },
            fifo_clear: FifoClear::new(true, true),
            clk_timeout_limit: match cfg.timeout {
                Some(timeout) => ClkTimeoutLimit { raw: timeout },
                None => i2c.clk_timeout_limit,
            },
            ..i2c
        }
    }

    /// Makes the master of the peripheral `I2c`: resets the peripheral, opens its clock
    /// gate, configures it with `cfg` for the speed `speed_mode`, clears its FIFOs and
    /// enables it. A clock that is too slow for the fast speed is refused after the
    /// reset, with the registers untouched.
    pub fn new<I2c: I2cInstance>(
        _i2c: I2c,
        clks: &Clocks,
        cfg: MasterConfig,
        speed_mode: I2cSpeed,
        sysconfig: &mut Sysconfig,
        regs: &mut regs::I2c,
    ) -> (res: Result<I2cMaster, ClockTooSlowForFastI2cError>)
        requires
            spec_clk_div_defined(clks.apb1(), speed_mode),
            cfg.timeout matches Some(timeout) ==> timeout < 0x10_0000,
        ensures
            res.is_ok() == spec_clk_div(clks.apb1(), speed_mode).is_ok(),
            *final(sysconfig) == (Sysconfig {
                peripheral_reset: crate::bits::spec_set_bit(
                    old(sysconfig).peripheral_reset,
                    I2c::spec_periph_sel().bit(),
                    true,
                ),
                peripheral_clk_enable: crate::bits::spec_set_bit(
                    old(sysconfig).peripheral_clk_enable,
                    I2c::spec_periph_sel().bit(),
                    true,
                ),
                ..*old(sysconfig)
            }),
            res.is_err() ==> *final(regs) == *old(regs),
            res matches Ok(master) ==> master.spec_id() == I2c::spec_id() && *final(regs) == Self::spec_configured(
                *old(regs),
                cfg,
                speed_mode,
                spec_clk_div(clks.apb1(), speed_mode).unwrap(),
            ),
    {
        reset_peripheral_for_cycles(sysconfig, I2c::periph_sel(), 2);
        enable_peripheral_clock(sysconfig, I2c::periph_sel());
        let clk_div = match calc_clk_div(clks, speed_mode) {
            Ok(div) => div,
            Err(e) => {
                return Err(e);
            },
        };
        regs.clkscale = (regs::ClkScale { raw: 0 }).with_div(clk_div).with_fastmode(speed_mode);
        regs.control = regs.control.with_tx_fifo_empty_mode(cfg.tx_empty_mode).with_rx_fifo_full_mode(
            cfg.rx_full_mode,
        ).with_analog_filter(cfg.alg_filt).with_digital_filter(cfg.dlg_filt);

        match cfg.timing_config {
            Some(timing_cfg) => {
                regs.control = regs.control.with_enable_timing_config(true);
                regs.timing_config = (regs::TimingConfig { raw: 0 }).with_t_rise(timing_cfg.t_rise).with_t_fall(
                    timing_cfg.t_fall,
                ).with_t_high(timing_cfg.t_high).with_t_low(timing_cfg.t_low).with_tsu_stop(
                    timing_cfg.tsu_stop,
                ).with_tsu_start(timing_cfg.tsu_start).with_thd_start(timing_cfg.thd_start).with_t_buf(
                    timing_cfg.t_buf,
                );
            },
            None => {},
        }
        regs.fifo_clear = FifoClear::new(true, true);
        match cfg.timeout {
            Some(timeout) => {
                regs.clk_timeout_limit = ClkTimeoutLimit::new(timeout);
            },
            None => {},
        }
        let mut i2c_master = I2cMaster { id: I2c::id() };
        i2c_master.enable(regs);
        Ok(i2c_master)
    }

    /// The peripheral.
    #[verifier::when_used_as_spec(spec_id)]
    pub fn id(&self) -> (id: Bank)
        ensures
            id == self.spec_id(),
    {
        self.id
    }

    /// Reads the peripheral ID.
    pub fn perid(&self, regs: &I2c) -> (id: u32)
        ensures
            id == regs.perid,
    {
        regs.perid
    }

    /// Configures the clock scale for the speed `speed_mode`. The master is disabled
    /// for it. A clock that is too slow for the fast speed leaves it disabled.
    pub fn set_clk_scale(&mut self, regs: &mut I2c, clks: &Clocks, speed_mode: I2cSpeed) -> (res: Result<
        (),
        ClockTooSlowForFastI2cError,
    >)
        requires
            spec_clk_div_defined(clks.apb1(), speed_mode),
        ensures
            final(self).spec_id() == old(self).spec_id(),
            res.is_ok() == spec_clk_div(clks.apb1(), speed_mode).is_ok(),
            res.is_err() ==> *final(regs) == (I2c { control: old(regs).control.with_enable(false), ..*old(regs) }),
            res.is_ok() ==> *final(regs) == (I2c {
                control: old(regs).control.with_enable(false).with_enable(true),
                clkscale: (regs::ClkScale { raw: 0 }).with_div(spec_clk_div(clks.apb1(), speed_mode).unwrap()).with_fastmode(
                    speed_mode,
                ),
                ..*old(regs)
            }),
    {
        self.disable(regs);
        let clk_div = match calc_clk_div(clks, speed_mode) {
            Ok(div) => div,
            Err(e) => {
                return Err(e);
            },
        };
        regs.clkscale = (regs::ClkScale { raw: 0 }).with_div(clk_div).with_fastmode(speed_mode);
        self.enable(regs);
        Ok(())
    }

    /// Cancels the transfer.
    pub fn cancel_transfer(&mut self, regs: &mut I2c)
        ensures
            final(self).spec_id() == old(self).spec_id(),
            *final(regs) == (I2c {
                cmd: (regs::Command { raw: 0 }).with_start(false).with_stop(false).with_cancel(true),
                ..*old(regs)
            }),
    {
        regs.cmd = (regs::Command { raw: 0 }).with_start(false).with_stop(false).with_cancel(true);
    }

    /// Clears the transmit FIFO.
    pub fn clear_tx_fifo(&mut self, regs: &mut I2c)
        ensures
            final(self).spec_id() == old(self).spec_id(),
            *final(regs) == (I2c { fifo_clear: FifoClear::new(true, false), ..*old(regs) }),
    {
        regs.fifo_clear = FifoClear::new(true, false);
    }

    /// Clears the receive FIFO.
    pub fn clear_rx_fifo(&mut self, regs: &mut I2c)
        ensures
            final(self).spec_id() == old(self).spec_id(),
            *final(regs) == (I2c { fifo_clear: FifoClear::new(false, true), ..*old(regs) }),
    {
        regs.fifo_clear = FifoClear::new(false, true);
    }

    /// Configure a timeout limit on the time for which the clock of the bus is seen
    /// low, in clock cycles of the bus. The limit fits twenty bits.
    ///
    /// With the timeout enabled, the blocking transfers watch for it, which avoids
    /// hang-ups of the bus.
    pub fn set_clock_low_timeout(&mut self, regs: &mut I2c, clock_cycles: u32)
        requires
            clock_cycles < 0x10_0000,
        ensures
            final(self).spec_id() == old(self).spec_id(),
            *final(regs) == (I2c { clk_timeout_limit: ClkTimeoutLimit { raw: clock_cycles }, ..*old(regs) }),
    {
        regs.clk_timeout_limit = ClkTimeoutLimit::new(clock_cycles);
    }

    /// Switches the timeout on the clock of the bus off.
    pub fn disable_clock_low_timeout(&mut self, regs: &mut I2c)
        ensures
            final(self).spec_id() == old(self).spec_id(),
            *final(regs) == (I2c { clk_timeout_limit: ClkTimeoutLimit { raw: 0 }, ..*old(regs) }),
    {
        regs.clk_timeout_limit = ClkTimeoutLimit::new(0);
    }

    /// Enables the master.
    pub fn enable(&mut self, regs: &mut I2c)
        ensures
            final(self).spec_id() == old(self).spec_id(),
            *final(regs) == (I2c { control: old(regs).control.with_enable(true), ..*old(regs) }),
    {
        regs.control = regs.control.with_enable(true);
    }

    /// Disables the master.
    pub fn disable(&mut self, regs: &mut I2c)
        ensures
            final(self).spec_id() == old(self).spec_id(),
            *final(regs) == (I2c { control: old(regs).control.with_enable(false), ..*old(regs) }),
    {
        regs.control = regs.control.with_enable(false);
    }

    /// Reads the status.
    pub fn read_status(&mut self, regs: &I2c) -> (status: regs::Status)
        ensures
            final(self).spec_id() == old(self).spec_id(),
            status == regs.status,
    {
        regs.status
    }

    /// Issues the command `cmd`.
    pub fn write_command(&mut self, regs: &mut I2c, cmd: I2cCommand)
        ensures
            final(self).spec_id() == old(self).spec_id(),
            *final(regs) == (I2c { cmd: regs::Command { raw: cmd.raw_value() }, ..*old(regs) }),
    {
        regs.cmd = regs::Command::new_with_raw_value(cmd.raw_value());
    }

    /// Loads the address `addr` of the slave and the direction `dir` of the transfer.
    /// The address fits ten bits.
    pub fn write_address(&mut self, regs: &mut I2c, addr: I2cAddress, dir: regs::Direction)
        requires
            addr.raw() < 0x400,
        ensures
            final(self).spec_id() == old(self).spec_id(),
            *final(regs) == (I2c {
                address: (regs::Address { raw: 0 }).with_direction(dir).with_address(addr.raw()).with_a10_mode(
                    addr is TenBit,
                ),
                ..*old(regs)
            }),
    {
        regs.address = (regs::Address { raw: 0 }).with_direction(dir).with_address(addr.raw()).with_a10_mode(
            addr.ten_bit_addr(),
        );
    }

    /// What a blocking write does after it has read the status `status`, where
    /// `timed_out` is the timeout limit if the timeout is watched and has come,
    /// `current_index` bytes of `len` were written to the FIFO, the transfer was
    /// started with `init_cmd` and is complete on `end_condition`.
    ///
    /// A lost arbitration and a missing acknowledge of the address or of the data fail
    /// the write, in this order. After a start without stop, a stop is issued. Else the
    /// write is complete when the end condition holds, fails when the clock has timed
    /// out, and goes on with the next byte when the FIFO has room and a byte is left.
    pub fn write_step(
        status: regs::Status,
        timed_out: Option<u32>,
        current_index: usize,
        len: usize,
        init_cmd: I2cCommand,
        end_condition: WriteCompletionCondition,
    ) -> (step: WriteStep)
        ensures
            step == (if status.arb_lost() {
                WriteStep::Failed { error: Error::ArbitrationLost, stop: init_cmd == I2cCommand::Start }
            } else if status.nack_addr() {
                WriteStep::Failed { error: Error::NackAddr, stop: init_cmd == I2cCommand::Start }
            } else if status.nack_data() {
                WriteStep::Failed { error: Error::NackData, stop: init_cmd == I2cCommand::Start }
            } else if (end_condition == WriteCompletionCondition::Idle && status.idle()) || (end_condition
                == WriteCompletionCondition::Waiting && status.waiting()) {
                WriteStep::Complete
            } else if timed_out.is_some() {
                WriteStep::TimedOut { error: Error::ClockTimeout(timed_out.unwrap()) }
            } else if status.tx_not_full() && current_index < len {
                WriteStep::WriteByte
            } else {
                WriteStep::Wait
            }),
    {
        let stop = init_cmd == I2cCommand::Start;
        if status.arb_lost() {
            return WriteStep::Failed { error: Error::ArbitrationLost, stop };
        }
        if status.nack_addr() {
            return WriteStep::Failed { error: Error::NackAddr, stop };
        }
        if status.nack_data() {
            return WriteStep::Failed { error: Error::NackData, stop };
        }
        match end_condition {
            WriteCompletionCondition::Idle => {
                if status.idle() {
                    return WriteStep::Complete;
                }
            },
            WriteCompletionCondition::Waiting => {
                if status.waiting() {
                    return WriteStep::Complete;
                }
            },
        }
        match timed_out {
            Some(limit) => {
                return WriteStep::TimedOut { error: Error::ClockTimeout(limit) };
            },
            None => {},
        }
        if status.tx_not_full() && current_index < len {
            return WriteStep::WriteByte;
        }
        WriteStep::Wait
    }

    /// What a blocking read does after it has read the status `status`, where
    /// `timed_out` is the timeout limit if the timeout is watched and has come, and
    /// `read_bytes` bytes of `len` were taken from the FIFO.
    ///
    /// A lost arbitration and a missing acknowledge of the address fail the read and
    /// clear the receive FIFO. An idle master ends the read, which fails if bytes are
    /// missing. Else the read fails when the clock has timed out, and takes a byte
    /// when the FIFO holds one.
    pub fn read_step(status: regs::Status, timed_out: Option<u32>, read_bytes: usize, len: usize) -> (step: ReadStep)
        ensures
            step == (if status.arb_lost() {
                ReadStep::Failed { error: Error::ArbitrationLost, clear_rx_fifo: true }
            } else if status.nack_addr() {
                ReadStep::Failed { error: Error::NackAddr, clear_rx_fifo: true }
            } else if status.idle() {
                if read_bytes != len {
                    ReadStep::Failed { error: Error::InsufficientDataReceived, clear_rx_fifo: false }
                } else {
                    ReadStep::Complete
                }
            } else if timed_out.is_some() {
                ReadStep::Failed { error: Error::ClockTimeout(timed_out.unwrap()), clear_rx_fifo: false }
            } else if status.rx_not_empty() {
                ReadStep::TakeByte
            } else {
                ReadStep::Wait
            }),
    {
        if status.arb_lost() {
            return ReadStep::Failed { error: Error::ArbitrationLost, clear_rx_fifo: true };
        }
        if status.nack_addr() {
            return ReadStep::Failed { error: Error::NackAddr, clear_rx_fifo: true };
        }
        if status.idle() {
            if read_bytes != len {
                return ReadStep::Failed { error: Error::InsufficientDataReceived, clear_rx_fifo: false };
            }
            return ReadStep::Complete;
        }
        match timed_out {
            Some(limit) => {
                return ReadStep::Failed { error: Error::ClockTimeout(limit), clear_rx_fifo: false };
            },
            None => {},
        }
        if status.rx_not_empty() {
            return ReadStep::TakeByte;
        }
        ReadStep::Wait
    }

    /// How many bytes a write of `len` bytes puts into the FIFO before it starts: all
    /// of them up to [`FILL_DEPTH`]. A transfer of more than 0x7fe bytes is refused.
    pub fn write_prefill(len: usize) -> (res: Result<usize, Error>)
        ensures
            res == (if len > MAX_TRANSFER_LEN {
                Err::<usize, Error>(Error::DataTooLarge)
            } else if len < FILL_DEPTH {
                Ok::<usize, Error>(len)
            } else {
                Ok::<usize, Error>(FILL_DEPTH)
            }),
    {
        if len > MAX_TRANSFER_LEN {
            return Err(Error::DataTooLarge);
        }
        if len < FILL_DEPTH {
            Ok(len)
        } else {
            Ok(FILL_DEPTH)
        }
    }

    /// The registers after the watch of the clock timeout has begun: with a timeout
    /// limit that is not 0, a pending timeout is cleared and the timeout interrupt is
    /// enabled.
    pub open spec fn spec_watched(i2c: I2c) -> I2c {
        if crate::bits::spec_get_field(i2c.clk_timeout_limit.raw, 0, 20) > 0 {
            I2c {
                irq_clear: (InterruptClear { raw: 0 }).with_clock_timeout(true).with_tx_overflow(false).with_rx_overflow(
                    false,
                ),
                irq_enb: i2c.irq_enb.with_clock_timeout(true),
                ..i2c
            }
        } else {
            i2c
        }
    }

    /// Prepares a blocking write of `len` bytes. A transfer of more than 0x7fe bytes is
    /// refused before anything is written.
    ///
    /// The transmit FIFO is cleared, the watch of the clock timeout begins, and the
    /// number of bytes is loaded. The caller then puts the first bytes into the FIFO,
    /// as many as the number that is returned with the watch, loads the address with
    /// [`I2cMaster::write_address`] and issues the command with
    /// [`I2cMaster::write_command`]. What follows each read of the status is said by
    /// [`I2cMaster::write_step`].
    pub fn begin_write(&mut self, regs: &mut I2c, len: usize) -> (res: Result<(TimeoutGuard, usize), Error>)
        ensures
            final(self).spec_id() == old(self).spec_id(),
            res.is_ok() == (len <= MAX_TRANSFER_LEN),
            res matches Err(e) ==> e == Error::DataTooLarge && *final(regs) == *old(regs),
            res matches Ok(started) ==> {
                &&& started.0.spec_timeout_enabled() == (crate::bits::spec_get_field(
                    old(regs).clk_timeout_limit.raw,
                    0,
                    20,
                ) > 0)
                &&& started.1 == (if len < FILL_DEPTH {
                    len
                } else {
                    FILL_DEPTH
                })
                &&& *final(regs) == (I2c {
                    words: regs::Words { raw: len as u32 },
                    ..Self::spec_watched(I2c { fifo_clear: FifoClear::new(true, false), ..*old(regs) })
                })
            },
    {
        let prefill = match Self::write_prefill(len) {
            Ok(prefill) => prefill,
            Err(e) => {
                return Err(e);
            },
        };
        // Clear the send FIFO.
        self.clear_tx_fifo(regs);
        let timeout_guard = TimeoutGuard::new(regs);
        // Load the number of words.
        regs.words = regs::Words::new(len as u16);
        Ok((timeout_guard, prefill))
    }

    /// Starts a blocking read of `len` bytes from the slave at `addr`, whose address
    /// fits ten bits. A transfer of more than 0x7fe bytes is refused before anything is
    /// written.
    ///
    /// The receive FIFO is cleared, the watch of the clock timeout begins, the number
    /// of bytes and the address are loaded, and the transfer is started with a stop at
    /// its end. What follows each read of the status is said by
    /// [`I2cMaster::read_step`].
    pub fn begin_read(&mut self, regs: &mut I2c, addr: I2cAddress, len: usize) -> (res: Result<TimeoutGuard, Error>)
        requires
            addr.raw() < 0x400,
        ensures
            final(self).spec_id() == old(self).spec_id(),
            res.is_ok() == (len <= MAX_TRANSFER_LEN),
            res matches Err(e) ==> e == Error::DataTooLarge && *final(regs) == *old(regs),
            res matches Ok(guard) ==> {
                &&& guard.spec_timeout_enabled() == (crate::bits::spec_get_field(old(regs).clk_timeout_limit.raw, 0, 20)
                    > 0)
                &&& *final(regs) == (I2c {
                    words: regs::Words { raw: len as u32 },
                    address: (regs::Address { raw: 0 }).with_direction(regs::Direction::Receive).with_address(
                        addr.raw(),
                    ).with_a10_mode(addr is TenBit),
                    cmd: regs::Command { raw: I2cCommand::StartWithStop.raw_value() },
                    ..Self::spec_watched(I2c { fifo_clear: FifoClear::new(false, true), ..*old(regs) })
                })
            },
    {
        if len > MAX_TRANSFER_LEN {
            return Err(Error::DataTooLarge);
        }
        // Clear the receive FIFO.
        self.clear_rx_fifo(regs);
        let timeout_guard = TimeoutGuard::new(regs);
        // Load the number of words.
        regs.words = regs::Words::new(len as u16);
        // Load the address.
        self.write_address(regs, addr, regs::Direction::Receive);
        // Start the receive transfer.
        self.write_command(regs, I2cCommand::StartWithStop);
        Ok(timeout_guard)
    }

    /// Cleans up after a write that has failed. A transfer that was started without a
    /// stop is stopped; one that was started with a stop is ended by the hardware. The
    /// transmit FIFO is cleared.
    pub fn error_handler_write(&mut self, regs: &mut I2c, init_cmd: I2cCommand)
        ensures
            final(self).spec_id() == old(self).spec_id(),
            *final(regs) == (I2c {
                cmd: if init_cmd == I2cCommand::Start {
                    regs::Command { raw: I2cCommand::Stop.raw_value() }
                } else {
                    old(regs).cmd
                },
                fifo_clear: FifoClear::new(true, false),
                ..*old(regs)
            }),
    {
        if init_cmd == I2cCommand::Start {
            self.write_command(regs, I2cCommand::Stop);
        }
        self.clear_tx_fifo(regs);
    }
}

} // verus!
