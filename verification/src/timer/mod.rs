//! The timers.
use crate::bits::{set_bit, spec_set_bit};
use crate::clock::Clocks;
use crate::gpio::ll::DynPinId;
use crate::ioconfig::FunctionSelect;
use crate::pins::AnyPin;
use crate::sysconfig::{lemma_set_then_set, Sysconfig};
use crate::time::Hertz;
use crate::{enable_nvic_interrupt, NbResult, Nvic, Sealed};
use vstd::prelude::*;

pub mod pins_vor4x;
pub mod regs;

use regs::{EnableControl, Timer};
pub use regs::{CascadeSource, InvalidTimerIndex, TimId};

verus! {

/// The clock that drives the timer `id`: the first peripheral bus for the timers 0 to
/// 15, the second for the others.
pub open spec fn spec_tim_clock(id: TimId, clocks: Clocks) -> Hertz {
    if id.value() <= 15 {
        clocks.apb1()
    } else {
        clocks.apb2()
    }
}

/// The clock that drives the timer `id`.
#[verifier::when_used_as_spec(spec_tim_clock)]
pub fn tim_clock(id: TimId, clocks: Clocks) -> (clock: Hertz)
    ensures
        clock == spec_tim_clock(id, clocks),
{
    if id.value() <= 15 {
        clocks.apb1()
    } else {
        clocks.apb2()
    }
}

/// Opens the clock gate of the timer `id`.
pub fn enable_tim_clk(sysconfig: &mut Sysconfig, id: TimId)
    ensures
        *final(sysconfig) == (Sysconfig {
            tim_clk_enable: spec_set_bit(old(sysconfig).tim_clk_enable, id.value() as u32, true),
            ..*old(sysconfig)
        }),
{
    sysconfig.tim_clk_enable = set_bit(sysconfig.tim_clk_enable, id.value() as u32, true);
}

/// Closes the clock gate of the timer `id`.
pub fn disable_tim_clk(sysconfig: &mut Sysconfig, id: TimId)
    ensures
        *final(sysconfig) == (Sysconfig {
            tim_clk_enable: spec_set_bit(old(sysconfig).tim_clk_enable, id.value() as u32, false),
            ..*old(sysconfig)
        }),
{
    sysconfig.tim_clk_enable = set_bit(sysconfig.tim_clk_enable, id.value() as u32, false);
}

/// Clears the reset bit of the timer `id`, which holds it in reset. Only that bit
/// changes.
pub fn assert_tim_reset(sysconfig: &mut Sysconfig, id: TimId)
    ensures
        *final(sysconfig) == (Sysconfig {
            tim_reset: spec_set_bit(old(sysconfig).tim_reset, id.value() as u32, false),
            ..*old(sysconfig)
        }),
{
    sysconfig.tim_reset = set_bit(sysconfig.tim_reset, id.value() as u32, false);
}

/// Sets the reset bit of the timer `tim`, which releases it from reset.
pub fn deassert_tim_reset(sysconfig: &mut Sysconfig, tim: TimId)
    ensures
        *final(sysconfig) == (Sysconfig {
            tim_reset: spec_set_bit(old(sysconfig).tim_reset, tim.value() as u32, true),
            ..*old(sysconfig)
        }),
{
    sysconfig.tim_reset = set_bit(sysconfig.tim_reset, tim.value() as u32, true);
}

/// Holds the timer `tim` in reset and releases it again. How long the line is held is
/// the caller's business: the registers end as after the release.
pub fn assert_tim_reset_for_cycles(sysconfig: &mut Sysconfig, tim: TimId, cycles: u32)
    ensures
        *final(sysconfig) == (Sysconfig {
            tim_reset: spec_set_bit(old(sysconfig).tim_reset, tim.value() as u32, true),
            ..*old(sysconfig)
        }),
{
    proof {
        use_type_invariant(&tim);
        lemma_set_then_set(sysconfig.tim_reset, tim.value() as u32);
    }
    assert_tim_reset(sysconfig, tim);
    deassert_tim_reset(sysconfig, tim);
}

/// The cascade configuration of a timer.
#[derive(Debug, PartialEq, Eq, Copy, Clone, Structural)]
pub struct CascadeControl {
    /// Enable the cascade 0 signal as a requirement for counting.
    pub enable_src_0: bool,
    /// Invert cascade 0, making it active low.
    pub inv_src_0: regs::CascadeInvert,
    /// Enable the cascade 1 signal as a requirement for counting.
    pub enable_src_1: bool,
    /// Invert cascade 1, making it active low.
    pub inv_src_1: regs::CascadeInvert,
    /// The operation that is required if both cascade 0 and cascade 1 are active: a
    /// logical AND or a logical OR of both signals.
    pub dual_operation: regs::DualCascadeOp,
    /// Enable trigger mode for cascade 0. In trigger mode, counting starts with the
    /// selected cascade signal active, but once the counter is active, the cascade
    /// control is ignored.
    pub trigger_mode_0: bool,
    /// Trigger mode for cascade 1.
    pub trigger_mode_1: bool,
    /// Enable the cascade 2 signal as a requirement to stop counting.
    pub enable_stop_src_2: bool,
    /// Invert cascade 2, making it active low.
    pub inv_src_2: regs::CascadeInvert,
    /// The counter is automatically disabled if the cascade 2 source is active when the
    /// count reaches 0.
    pub trigger_mode_2: bool,
}

impl CascadeControl {
    /// The default configuration: nothing enabled, every signal active high, the two
    /// signals joined by AND.
    pub open spec fn spec_default() -> CascadeControl {
        CascadeControl {
            enable_src_0: false,
            inv_src_0: regs::CascadeInvert::ActiveHigh,
            enable_src_1: false,
            inv_src_1: regs::CascadeInvert::ActiveHigh,
            dual_operation: regs::DualCascadeOp::LogicalAnd,
            trigger_mode_0: false,
            trigger_mode_1: false,
            enable_stop_src_2: false,
            inv_src_2: regs::CascadeInvert::ActiveHigh,
            trigger_mode_2: false,
        }
    }

    /// The value of the cascade control register for the configuration.
    pub open spec fn spec_register(self) -> regs::CascadeControl {
        (regs::CascadeControl { raw: 0 }).with_trigger2(self.trigger_mode_2).with_inv2(self.inv_src_2).with_en2(
            self.enable_stop_src_2,
        ).with_trigger1(self.trigger_mode_1).with_trigger0(self.trigger_mode_0).with_dual_cascade_op(
            self.dual_operation,
        ).with_inv1(self.inv_src_1).with_en1(self.enable_src_1).with_inv0(self.inv_src_0).with_en0(
            self.enable_src_0,
        )
    }
}

impl Default for CascadeControl {
    fn default() -> (ctrl: CascadeControl)
        ensures
            ctrl == CascadeControl::spec_default(),
    {
        CascadeControl {
            enable_src_0: false,
            inv_src_0: regs::CascadeInvert::ActiveHigh,
            enable_src_1: false,
            inv_src_1: regs::CascadeInvert::ActiveHigh,
            dual_operation: regs::DualCascadeOp::LogicalAnd,
            trigger_mode_0: false,
            trigger_mode_1: false,
            enable_stop_src_2: false,
            inv_src_2: regs::CascadeInvert::ActiveHigh,
            trigger_mode_2: false,
        }
    }
}

/// One of the three cascade sources of a timer.
#[derive(Debug, Clone, Copy, PartialEq, Eq, Structural)]
pub enum CascadeSelect {
    Csd0,
    Csd1,
    Csd2,
}

impl CascadeSelect {
    /// The number of the cascade source.
    #[verifier::allow_in_spec]
    pub fn index(self) -> usize
        returns
            (match self {
                CascadeSelect::Csd0 => 0usize,
                CascadeSelect::Csd1 => 1usize,
                CascadeSelect::Csd2 => 2usize,
            }),
    {
        match self {
            CascadeSelect::Csd0 => 0,
            CascadeSelect::Csd1 => 1,
            CascadeSelect::Csd2 => 2,
        }
    }
}

/// A pin that can carry the output of a timer.
pub trait TimPin: AnyPin {
    /// The identifier of the pin.
    spec fn spec_pin_id() -> DynPinId;

    /// The function that connects the pin to the timer.
    spec fn spec_fun_sel() -> FunctionSelect;

    /// The timer of the pin.
    spec fn spec_tim_id() -> TimId;

    /// The identifier of the pin.
    fn pin_id() -> (id: DynPinId)
        ensures
            id == Self::spec_pin_id(),
    ;

    /// The function that connects the pin to the timer.
    fn fun_sel() -> (fun_sel: FunctionSelect)
        ensures
            fun_sel == Self::spec_fun_sel(),
    ;

    /// The timer of the pin.
    fn tim_id() -> (id: TimId)
        ensures
            id == Self::spec_tim_id(),
    ;
}

/// One of the timers as a type.
pub trait TimInstance: Sealed {
    /// The index of the timer, from 0 to 23.
    spec fn spec_id() -> TimId;

    /// The index of the timer, from 0 to 23.
    fn id() -> (id: TimId)
        ensures
            id == Self::spec_id(),
    ;

    /// The clock that drives the timer.
    fn clock(clocks: &Clocks) -> (clock: Hertz)
        ensures
            clock == spec_tim_clock(Self::spec_id(), *clocks),
    {
        tim_clock(Self::id(), *clocks)
    }
}

/// Timer 0 as a type.
#[derive(Debug)]
pub struct Tim0;

impl Sealed for Tim0 {

}

impl TimInstance for Tim0 {
    open spec fn spec_id() -> TimId {
        TimId::spec_new(0)
    }

    fn id() -> (id: TimId) {
        TimId::new_unchecked(0)
    }
}

/// Timer 1 as a type.
#[derive(Debug)]
pub struct Tim1;

impl Sealed for Tim1 {

}

impl TimInstance for Tim1 {
    open spec fn spec_id() -> TimId {
        TimId::spec_new(1)
    }

    fn id() -> (id: TimId) {
        TimId::new_unchecked(1)
    }
}

/// Timer 2 as a type.
#[derive(Debug)]
pub struct Tim2;

impl Sealed for Tim2 {

}

impl TimInstance for Tim2 {
    open spec fn spec_id() -> TimId {
        TimId::spec_new(2)
    }

    fn id() -> (id: TimId) {
        TimId::new_unchecked(2)
    }
}

/// Timer 3 as a type.
#[derive(Debug)]
pub struct Tim3;

impl Sealed for Tim3 {

}

impl TimInstance for Tim3 {
    open spec fn spec_id() -> TimId {
        TimId::spec_new(3)
    }

    fn id() -> (id: TimId) {
        TimId::new_unchecked(3)
    }
}

/// Timer 4 as a type.
#[derive(Debug)]
pub struct Tim4;

impl Sealed for Tim4 {

}

impl TimInstance for Tim4 {
    open spec fn spec_id() -> TimId {
        TimId::spec_new(4)
    }

    fn id() -> (id: TimId) {
        TimId::new_unchecked(4)
    }
}

/// Timer 5 as a type.
#[derive(Debug)]
pub struct Tim5;

impl Sealed for Tim5 {

}

impl TimInstance for Tim5 {
    open spec fn spec_id() -> TimId {
        TimId::spec_new(5)
    }

    fn id() -> (id: TimId) {
        TimId::new_unchecked(5)
    }
}

/// Timer 6 as a type.
#[derive(Debug)]
pub struct Tim6;

impl Sealed for Tim6 {

}

impl TimInstance for Tim6 {
    open spec fn spec_id() -> TimId {
        TimId::spec_new(6)
    }

    fn id() -> (id: TimId) {
        TimId::new_unchecked(6)
    }
}

/// Timer 7 as a type.
#[derive(Debug)]
pub struct Tim7;

impl Sealed for Tim7 {

}

impl TimInstance for Tim7 {
    open spec fn spec_id() -> TimId {
        TimId::spec_new(7)
    }

    fn id() -> (id: TimId) {
        TimId::new_unchecked(7)
    }
}

/// Timer 8 as a type.
#[derive(Debug)]
pub struct Tim8;

impl Sealed for Tim8 {

}

impl TimInstance for Tim8 {
    open spec fn spec_id() -> TimId {
        TimId::spec_new(8)
    }

    fn id() -> (id: TimId) {
        TimId::new_unchecked(8)
    }
}

/// Timer 9 as a type.
#[derive(Debug)]
pub struct Tim9;

impl Sealed for Tim9 {

}

impl TimInstance for Tim9 {
    open spec fn spec_id() -> TimId {
        TimId::spec_new(9)
    }

    fn id() -> (id: TimId) {
        TimId::new_unchecked(9)
    }
}

/// Timer 10 as a type.
#[derive(Debug)]
pub struct Tim10;

impl Sealed for Tim10 {

}

impl TimInstance for Tim10 {
    open spec fn spec_id() -> TimId {
        TimId::spec_new(10)
    }

    fn id() -> (id: TimId) {
        TimId::new_unchecked(10)
    }
}

/// Timer 11 as a type.
#[derive(Debug)]
pub struct Tim11;

impl Sealed for Tim11 {

}

impl TimInstance for Tim11 {
    open spec fn spec_id() -> TimId {
        TimId::spec_new(11)
    }

    fn id() -> (id: TimId) {
        TimId::new_unchecked(11)
    }
}

/// Timer 12 as a type.
#[derive(Debug)]
pub struct Tim12;

impl Sealed for Tim12 {

}

impl TimInstance for Tim12 {
    open spec fn spec_id() -> TimId {
        TimId::spec_new(12)
    }

    fn id() -> (id: TimId) {
        TimId::new_unchecked(12)
    }
}

/// Timer 13 as a type.
#[derive(Debug)]
pub struct Tim13;

impl Sealed for Tim13 {

}

impl TimInstance for Tim13 {
    open spec fn spec_id() -> TimId {
        TimId::spec_new(13)
    }

    fn id() -> (id: TimId) {
        TimId::new_unchecked(13)
    }
}

/// Timer 14 as a type.
#[derive(Debug)]
pub struct Tim14;

impl Sealed for Tim14 {

}

impl TimInstance for Tim14 {
    open spec fn spec_id() -> TimId {
        TimId::spec_new(14)
    }

    fn id() -> (id: TimId) {
        TimId::new_unchecked(14)
    }
}

/// Timer 15 as a type.
#[derive(Debug)]
pub struct Tim15;

impl Sealed for Tim15 {

}

impl TimInstance for Tim15 {
    open spec fn spec_id() -> TimId {
        TimId::spec_new(15)
    }

    fn id() -> (id: TimId) {
        TimId::new_unchecked(15)
    }
}

/// Timer 16 as a type.
#[derive(Debug)]
pub struct Tim16;

impl Sealed for Tim16 {

}

impl TimInstance for Tim16 {
    open spec fn spec_id() -> TimId {
        TimId::spec_new(16)
    }

    fn id() -> (id: TimId) {
        TimId::new_unchecked(16)
    }
}

/// Timer 17 as a type.
#[derive(Debug)]
pub struct Tim17;

impl Sealed for Tim17 {

}

impl TimInstance for Tim17 {
    open spec fn spec_id() -> TimId {
        TimId::spec_new(17)
    }

    fn id() -> (id: TimId) {
        TimId::new_unchecked(17)
    }
}

/// Timer 18 as a type.
#[derive(Debug)]
pub struct Tim18;

impl Sealed for Tim18 {

}

impl TimInstance for Tim18 {
    open spec fn spec_id() -> TimId {
        TimId::spec_new(18)
    }

    fn id() -> (id: TimId) {
        TimId::new_unchecked(18)
    }
}

/// Timer 19 as a type.
#[derive(Debug)]
pub struct Tim19;

impl Sealed for Tim19 {

}

impl TimInstance for Tim19 {
    open spec fn spec_id() -> TimId {
        TimId::spec_new(19)
    }

    fn id() -> (id: TimId) {
        TimId::new_unchecked(19)
    }
}

/// Timer 20 as a type.
#[derive(Debug)]
pub struct Tim20;

impl Sealed for Tim20 {

}

impl TimInstance for Tim20 {
    open spec fn spec_id() -> TimId {
        TimId::spec_new(20)
    }

    fn id() -> (id: TimId) {
        TimId::new_unchecked(20)
    }
}

/// Timer 21 as a type.
#[derive(Debug)]
pub struct Tim21;

impl Sealed for Tim21 {

}

impl TimInstance for Tim21 {
    open spec fn spec_id() -> TimId {
        TimId::spec_new(21)
    }

    fn id() -> (id: TimId) {
        TimId::new_unchecked(21)
    }
}

/// Timer 22 as a type.
#[derive(Debug)]
pub struct Tim22;

impl Sealed for Tim22 {

}

impl TimInstance for Tim22 {
    open spec fn spec_id() -> TimId {
        TimId::spec_new(22)
    }

    fn id() -> (id: TimId) {
        TimId::new_unchecked(22)
    }
}

/// Timer 23 as a type.
#[derive(Debug)]
pub struct Tim23;

impl Sealed for Tim23 {

}

impl TimInstance for Tim23 {
    open spec fn spec_id() -> TimId {
        TimId::spec_new(23)
    }

    fn id() -> (id: TimId) {
        TimId::new_unchecked(23)
    }
}

/// A pin together with the timer that it belongs to.
pub trait ValidTimAndPin<Pin: TimPin, Tim: TimInstance>: Sealed {

}

/// How a delay is run on a timer: first a number of full periods of the counter, then
/// the ticks that are left.
#[derive(Debug, Clone, Copy, PartialEq, Eq, Structural)]
pub struct DelayPlan {
    pub full_cycles: u64,
    pub ticks: u32,
}

/// What the start of a timer at the frequency `timeout` leaves of the timer: off, then
/// reloading and counting from the clock divided by the frequency.
pub open spec fn spec_loaded(timer: Timer, rst_val: u32) -> Timer {
    Timer {
        reset_value: rst_val,
        count_value: rst_val,
        ..timer.spec_write_enable_control(EnableControl::new_disable())
    }
}

/// Hardware timer that counts down.
///
/// The driver holds the index of its timer, the clock that drives it, the frequency and
/// the reload value that were last loaded, and the count that [`CountdownTimer::wait`]
/// has last seen.
pub struct CountdownTimer {
    id: TimId,
    curr_freq: Hertz,
    ref_clk: Hertz,
    rst_val: u32,
    last_cnt: u32,
}

impl CountdownTimer {
    /// The index of the timer.
    pub closed spec fn spec_id(&self) -> TimId {
        self.id
    }

    /// The frequency that was last loaded.
    pub closed spec fn spec_curr_freq(&self) -> Hertz {
        self.curr_freq
    }

    /// The clock that drives the timer.
    pub closed spec fn spec_ref_clk(&self) -> Hertz {
        self.ref_clk
    }

    /// The reload value that was last loaded.
    pub closed spec fn spec_rst_val(&self) -> u32 {
        self.rst_val
    }

    /// The count that the last wait has seen.
    pub closed spec fn spec_last_cnt(&self) -> u32 {
        self.last_cnt
    }

    /// Whether the two drivers differ in nothing but the count that the last wait has
    /// seen.
    pub open spec fn spec_same_setup(&self, other: &CountdownTimer) -> bool {
        &&& self.spec_id() == other.spec_id()
        &&& self.spec_curr_freq() == other.spec_curr_freq()
        &&& self.spec_ref_clk() == other.spec_ref_clk()
        &&& self.spec_rst_val() == other.spec_rst_val()
    }

    /// Create a countdown timer structure for the timer `tim`.
    ///
    /// The clock gate of the timer is opened and the timer is reset. The timer is not
    /// enabled.
    pub fn new(tim: TimId, clks: &Clocks, sysconfig: &mut Sysconfig) -> (timer: CountdownTimer)
        ensures
            timer.spec_id() == tim,
            timer.spec_ref_clk() == clks.apb1(),
            timer.spec_rst_val() == 0,
            timer.spec_curr_freq().raw == 0,
            timer.spec_last_cnt() == 0,
            *final(sysconfig) == crate::embassy::TimerDriver::spec_clocked(*old(sysconfig), tim),
    {
        enable_tim_clk(sysconfig, tim);
        assert_tim_reset_for_cycles(sysconfig, tim, 2);
        CountdownTimer { id: tim, ref_clk: clks.apb1(), rst_val: 0, curr_freq: Hertz::from_raw(0), last_cnt: 0 }
    }

    /// Reads the peripheral ID.
    pub fn perid(&self, timer: &Timer) -> (id: u32)
        ensures
            id == timer.perid,
    {
        timer.read_perid()
    }

    /// Enables the timer.
    pub fn enable(&mut self, timer: &mut Timer)
        ensures
            *final(self) == *old(self),
            *final(timer) == old(timer).spec_write_enable_control(EnableControl::new_enable()),
    {
        timer.write_enable_control(EnableControl::new_enable());
    }

    /// Disables the timer.
    pub fn disable(&mut self, timer: &mut Timer)
        ensures
            *final(self) == *old(self),
            *final(timer) == old(timer).spec_write_enable_control(EnableControl::new_disable()),
    {
        timer.write_enable_control(EnableControl::new_disable());
    }

    /// Enables the interrupt of the timer, and unmasks its interrupt line if
    /// `enable_in_nvic` is set.
    pub fn enable_interrupt(&mut self, timer: &mut Timer, nvic: &mut Nvic, enable_in_nvic: bool)
        ensures
            *final(self) == *old(self),
            *final(timer) == old(timer).spec_write_control(old(timer).control.with_irq_enable(true)),
            enable_in_nvic ==> final(nvic).is_enabled(old(self).spec_id().interrupt_id()),
            !enable_in_nvic ==> *final(nvic) == *old(nvic),
    {
        if enable_in_nvic {
            enable_nvic_interrupt(nvic, self.id.interrupt_id());
        }
        let control = timer.read_control().with_irq_enable(true);
        timer.write_control(control);
    }

    /// Clears the interrupt enable bit of the timer. The interrupt line stays as it is.
    pub fn disable_interrupt(&mut self, timer: &mut Timer)
        ensures
            *final(self) == *old(self),
            *final(timer) == old(timer).spec_write_control(old(timer).control.with_irq_enable(false)),
    {
        let control = timer.read_control().with_irq_enable(false);
        timer.write_control(control);
    }

    /// Loads the timer for the frequency `frequency` and enables it.
    pub fn start(&mut self, timer: &mut Timer, frequency: Hertz)
        requires
            frequency.raw > 0,
        ensures
            final(self).spec_id() == old(self).spec_id(),
            final(self).spec_ref_clk() == old(self).spec_ref_clk(),
            final(self).spec_last_cnt() == old(self).spec_last_cnt(),
            final(self).spec_curr_freq() == frequency,
            final(self).spec_rst_val() == old(self).spec_ref_clk().raw / frequency.raw,
            *final(timer) == spec_loaded(*old(timer), final(self).spec_rst_val()).spec_write_enable_control(
                EnableControl::new_enable(),
            ),
    {
        self.load(timer, frequency);
        self.enable(timer);
    }

    /// Whether a timer that counts down from the count `last_cnt` to the count `cnt`
    /// has wrapped in between: the count is 0 or has grown.
    pub open spec fn spec_has_wrapped(cnt: u32, last_cnt: u32) -> bool {
        cnt > last_cnt || cnt == 0
    }

    /// Says whether the timer has wrapped since the last call. If it has, the next call
    /// compares with the reload value. If it has not, the call would block, and the next
    /// call compares with the count of this one.
    pub fn wait(&mut self, timer: &Timer) -> (res: NbResult<()>)
        ensures
            final(self).spec_same_setup(old(self)),
            Self::spec_has_wrapped(timer.count_value, old(self).spec_last_cnt()) ==> res == NbResult::Done(())
                && final(self).spec_last_cnt() == old(self).spec_rst_val(),
            !Self::spec_has_wrapped(timer.count_value, old(self).spec_last_cnt()) ==> res == NbResult::<
                (),
            >::WouldBlock && final(self).spec_last_cnt() == timer.count_value,
    {
        let cnt = self.counter(timer);
        if (cnt > self.last_cnt) || cnt == 0 {
            self.last_cnt = self.rst_val;
            NbResult::Done(())
        } else {
            self.last_cnt = cnt;
            NbResult::WouldBlock
        }
    }

    /// Loads the timer for the frequency `timeout`, without starting it: the timer is
    /// disabled, and it reloads and counts from the clock divided by the frequency.
    pub fn load(&mut self, timer: &mut Timer, timeout: Hertz)
        requires
            timeout.raw > 0,
        ensures
            final(self).spec_id() == old(self).spec_id(),
            final(self).spec_ref_clk() == old(self).spec_ref_clk(),
            final(self).spec_last_cnt() == old(self).spec_last_cnt(),
            final(self).spec_curr_freq() == timeout,
            final(self).spec_rst_val() == old(self).spec_ref_clk().raw / timeout.raw,
            *final(timer) == spec_loaded(*old(timer), final(self).spec_rst_val()),
    {
        self.disable(timer);
        self.curr_freq = timeout;
        self.rst_val = self.ref_clk.raw() / self.curr_freq.raw();
        self.set_reload(timer, self.rst_val);
        self.set_count(timer, self.rst_val);
    }

    /// Writes the value that the counter is loaded with when it reaches 0.
    pub fn set_reload(&mut self, timer: &mut Timer, val: u32)
        ensures
            *final(self) == *old(self),
            *final(timer) == (Timer { reset_value: val, ..*old(timer) }),
    {
        timer.write_reset_value(val);
    }

    /// Writes the counter.
    pub fn set_count(&mut self, timer: &mut Timer, val: u32)
        ensures
            *final(self) == *old(self),
            *final(timer) == (Timer { count_value: val, ..*old(timer) }),
    {
        timer.write_count_value(val);
    }

    /// Reads the counter.
    pub fn counter(&self, timer: &Timer) -> (count: u32)
        ensures
            count == timer.count_value,
    {
        timer.read_count_value()
    }

    /// Whether the counter is disabled when the count reaches 0: both the enable and the
    /// active bit go to 0.
    pub fn auto_disable(&mut self, timer: &mut Timer, enable: bool)
        ensures
            *final(self) == *old(self),
            *final(timer) == old(timer).spec_write_control(old(timer).control.with_auto_disable(enable)),
    {
        let control = timer.read_control().with_auto_disable(enable);
        timer.write_control(control);
    }

    /// Whether the counter is deactivated when the count reaches 0: the active bit goes
    /// to 0 and the counter stays enabled. This only applies while auto-disable is off.
    pub fn auto_deactivate(&mut self, timer: &mut Timer, enable: bool)
        ensures
            *final(self) == *old(self),
            *final(timer) == old(timer).spec_write_control(old(timer).control.with_auto_deactivate(enable)),
    {
        let control = timer.read_control().with_auto_deactivate(enable);
        timer.write_control(control);
    }

    /// Configure the cascade parameters.
    pub fn cascade_control(&mut self, timer: &mut Timer, ctrl: CascadeControl)
        ensures
            *final(self) == *old(self),
            *final(timer) == (Timer { cascade_control: ctrl.spec_register(), ..*old(timer) }),
    {
        timer.write_cascade_control(
            (regs::CascadeControl { raw: 0 }).with_trigger2(ctrl.trigger_mode_2).with_inv2(ctrl.inv_src_2).with_en2(
                ctrl.enable_stop_src_2,
            ).with_trigger1(ctrl.trigger_mode_1).with_trigger0(ctrl.trigger_mode_0).with_dual_cascade_op(
                ctrl.dual_operation,
            ).with_inv1(ctrl.inv_src_1).with_en1(ctrl.enable_src_1).with_inv0(ctrl.inv_src_0).with_en0(
                ctrl.enable_src_0,
            ),
        );
    }

    /// Selects `src` as the cascade source `cascade_index`, if the hardware has the
    /// source. If it has not, nothing changes.
    pub fn cascade_source(&mut self, timer: &mut Timer, cascade_index: CascadeSelect, src: regs::CascadeSource) -> (res:
        Result<(), regs::InvalidCascadeSourceId>)
        ensures
            *final(self) == *old(self),
            res.is_ok() == src.spec_id().is_some(),
            res.is_err() ==> *final(timer) == *old(timer),
            res.is_ok() ==> *final(timer) == old(timer).spec_write_cascade(
                cascade_index.index(),
                regs::CascadeSourceReg { raw: src.spec_id().unwrap() as u32 },
            ),
    {
        match regs::CascadeSourceReg::new(src) {
            Ok(reg) => {
                timer.write_cascade(cascade_index.index(), reg);
                Ok(())
            },
            Err(e) => Err(e),
        }
    }

    /// The frequency that was last loaded.
    #[verifier::when_used_as_spec(spec_curr_freq)]
    pub fn curr_freq(&self) -> (freq: Hertz)
        ensures
            freq == self.spec_curr_freq(),
    {
        self.curr_freq
    }

    /// Disables the timer and closes its clock gate.
    pub fn stop_with_clock_disable(self, timer: &mut Timer, sysconfig: &mut Sysconfig)
        ensures
            *final(timer) == old(timer).spec_write_enable_control(EnableControl::new_disable()),
            *final(sysconfig) == (Sysconfig {
                tim_clk_enable: spec_set_bit(old(sysconfig).tim_clk_enable, self.spec_id().value() as u32, false),
                ..*old(sysconfig)
            }),
    {
        let mut this = self;
        this.disable(timer);
        disable_tim_clk(sysconfig, this.id);
    }

    /// The ticks of the timer that a delay of `ns` nanoseconds takes at the clock
    /// `ref_clk`.
    pub open spec fn spec_delay_ticks(ns: u32, ref_clk: Hertz) -> int {
        ns * ref_clk.raw / 1_000_000_000
    }

    /// How a delay of `ns` nanoseconds is run: the ticks that it takes, split into the
    /// full periods of the 32-bit counter and the rest.
    pub fn delay_plan(&self, ns: u32) -> (plan: DelayPlan)
        ensures
            plan.full_cycles * 0x1_0000_0000 + plan.ticks == Self::spec_delay_ticks(ns, self.spec_ref_clk()),
    {
        let ref_hz = self.ref_clk.raw();
        assert(ns * ref_hz <= 0xffff_ffff * 0xffff_ffff) by (nonlinear_arith)
            requires
                ns <= 0xffff_ffff,
                ref_hz <= 0xffff_ffff,
        ;
        let ticks: u64 = (ns as u64) * (ref_hz as u64) / 1_000_000_000;
        let full_cycles: u64 = ticks >> 32;
        let rest: u64 = ticks & 0xffff_ffffu64;
        assert(full_cycles * 0x1_0000_0000 + rest == ticks && rest <= 0xffff_ffff) by (bit_vector)
            requires
                full_cycles == ticks >> 32,
                rest == ticks & 0xffff_ffffu64,
        ;
        DelayPlan { full_cycles, ticks: rest as u32 }
    }
}

} // verus!
