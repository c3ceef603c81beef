//! Pulse width modulation on the output of a timer.
use crate::clock::Clocks;
use crate::gpio::IoPeriphPin;
use crate::ioconfig::regs::IoConfig;
use crate::sysconfig::{enable_peripheral_clock, Sysconfig};
use crate::time::Hertz;
use crate::timer::regs::{EnableControl, StatusSelect, Timer};
use crate::timer::{enable_tim_clk, TimId, TimInstance, TimPin};
use crate::PeripheralSelect;
use core::marker::PhantomData;
use vstd::prelude::*;

verus! {

/// The full duty cycle.
pub const DUTY_MAX: u16 = u16::MAX;

/// The mode in which the output is high while the count is at least the value of PWM
/// A.
#[derive(Debug)]
pub struct PwmA;

/// The mode in which the output is high while the count is between the values of PWM B
/// and PWM A.
#[derive(Debug)]
pub struct PwmB;

/// The pin does not belong to the timer.
#[derive(Debug, Clone, Copy, PartialEq, Eq, Structural)]
pub struct TimMissmatchError {
    pub pin_tim: TimId,
    pub tim_id: TimId,
}

/// The compare value for the duty `duty` of the reload value `rst_val`: the part of the
/// reload value that `duty` is of the full duty.
pub open spec fn spec_compare_value(rst_val: u32, duty: u16) -> u32 {
    (rst_val * duty / 65535) as u32
}

/// The compare value for the duty `duty` of the reload value `rst_val`.
fn compare_value(rst_val: u32, duty: u16) -> (value: u32)
    ensures
        value == spec_compare_value(rst_val, duty),
        value <= rst_val,
{
    assert(rst_val * duty <= rst_val * 65535 && rst_val * duty / 65535 <= rst_val) by (nonlinear_arith)
        requires
            duty <= 65535,
    ;
    let value: u64 = (rst_val as u64 * duty as u64) / DUTY_MAX as u64;
    value as u32
}

/// The timer with its status output switched to `sel`.
pub open spec fn spec_status_selected(timer: Timer, sel: StatusSelect) -> Timer {
    timer.spec_write_control(timer.control.with_status_sel(sel))
}

/// A pin that carries the PWM output of a timer.
pub struct PwmPin<Mode> {
    tim_id: TimId,
    ref_clk: Hertz,
    /// For PWM B, this is the upper limit.
    current_duty: u16,
    /// For PWM A, this value is not used.
    current_lower_limit: u16,
    current_period: Hertz,
    current_rst_val: u32,
    mode: PhantomData<Mode>,
}

impl<Mode> PwmPin<Mode> {
    /// The timer of the pin.
    pub closed spec fn spec_tim_id(&self) -> TimId {
        self.tim_id
    }

    /// The clock that drives the timer.
    pub closed spec fn spec_ref_clk(&self) -> Hertz {
        self.ref_clk
    }

    /// The duty, which for PWM B is the upper limit.
    pub closed spec fn spec_duty(&self) -> u16 {
        self.current_duty
    }

    /// The lower limit of PWM B.
    pub closed spec fn spec_lower_limit(&self) -> u16 {
        self.current_lower_limit
    }

    /// The frequency of the PWM signal.
    pub closed spec fn spec_period(&self) -> Hertz {
        self.current_period
    }

    /// The reload value of the timer.
    pub closed spec fn spec_rst_val(&self) -> u32 {
        self.current_rst_val
    }

    /// Whether `other` is this pin but for what `set_period` changes.
    pub open spec fn spec_same_but_period(&self, other: &PwmPin<Mode>) -> bool {
        &&& self.spec_tim_id() == other.spec_tim_id()
        &&& self.spec_ref_clk() == other.spec_ref_clk()
        &&& self.spec_duty() == other.spec_duty()
        &&& self.spec_lower_limit() == other.spec_lower_limit()
    }

    /// The reload value of a timer at the clock `ref_clk` for the frequency `period`,
    /// where `rst_val` is the one before: the clock divided by the frequency, or, for a
    /// frequency of 0, the one before.
    pub open spec fn spec_rst_val_for(ref_clk: Hertz, period: Hertz, rst_val: u32) -> u32 {
        if period.raw == 0 {
            rst_val
        } else {
            ref_clk.raw / period.raw
        }
    }

    /// Create a new PWM pin on the pin `Pin` with the timer `Tim`, which has to be the
    /// timer of the pin.
    ///
    /// The pin is handed to its timer function, the clock gates of the pin
    /// configuration and of the timer are opened, the status output of the timer is
    /// switched to PWM A, and the frequency is set to `initial_frequency`.
    pub fn new<Pin: TimPin, Tim: TimInstance>(
        _pin: Pin,
        _tim: Tim,
        clks: &Clocks,
        initial_frequency: Hertz,
        sysconfig: &mut Sysconfig,
        ioconfig: &mut IoConfig,
        timer: &mut Timer,
    ) -> (res: Result<PwmPin<Mode>, TimMissmatchError>)
        ensures
            res.is_ok() == (Pin::spec_tim_id() == Tim::spec_id()),
            res matches Err(e) ==> {
                &&& e == (TimMissmatchError { pin_tim: Pin::spec_tim_id(), tim_id: Tim::spec_id() })
                &&& *final(sysconfig) == *old(sysconfig)
                &&& final(ioconfig).pins@ == old(ioconfig).pins@
                &&& *final(timer) == *old(timer)
            },
            res matches Ok(pin) ==> {
                &&& pin.spec_tim_id() == Tim::spec_id()
                &&& pin.spec_ref_clk() == clks.apb1()
                &&& pin.spec_duty() == 0
                &&& pin.spec_lower_limit() == 0
                &&& pin.spec_period() == initial_frequency
                &&& pin.spec_rst_val() == Self::spec_rst_val_for(clks.apb1(), initial_frequency, 0)
                &&& final(ioconfig).pins@ == old(ioconfig).spec_with_pin_config(
                    Pin::spec_pin_id(),
                    crate::gpio::ll::spec_peripheral_pin(
                        old(ioconfig).spec_pin_config(Pin::spec_pin_id()),
                        Pin::spec_fun_sel(),
                        None,
                    ),
                )
                &&& *final(sysconfig) == (Sysconfig {
                    peripheral_clk_enable: crate::bits::spec_set_bit(
                        old(sysconfig).peripheral_clk_enable,
                        PeripheralSelect::IoConfig.bit(),
                        true,
                    ),
                    tim_clk_enable: crate::bits::spec_set_bit(
                        old(sysconfig).tim_clk_enable,
                        Tim::spec_id().value() as u32,
                        true,
                    ),
                    ..*old(sysconfig)
                })
                &&& *final(timer) == (if initial_frequency.raw == 0 {
                    spec_status_selected(*old(timer), StatusSelect::PwmaOutput)
                } else {
                    Timer { reset_value: pin.spec_rst_val(), ..spec_status_selected(*old(timer), StatusSelect::PwmaOutput) }
                })
            },
    {
        let pin_tim = Pin::tim_id();
        let tim_id = Tim::id();
        if pin_tim != tim_id {
            return Err(TimMissmatchError { pin_tim, tim_id });
        }
        IoPeriphPin::new(Pin::pin_id(), ioconfig, Pin::fun_sel(), None);
        let mut pin = PwmPin {
            tim_id,
            current_duty: 0,
            current_lower_limit: 0,
            current_period: initial_frequency,
            current_rst_val: 0,
            ref_clk: clks.apb1(),
            mode: PhantomData,
        };
        // The pin structure shows that the clock of its port runs.
        enable_peripheral_clock(sysconfig, PeripheralSelect::IoConfig);
        enable_tim_clk(sysconfig, tim_id);
        pin.enable_pwm_a(timer);
        pin.set_period(timer, initial_frequency);
        Ok(pin)
    }

    fn enable_pwm_a(&mut self, timer: &mut Timer)
        ensures
            *final(self) == *old(self),
            *final(timer) == spec_status_selected(*old(timer), StatusSelect::PwmaOutput),
    {
        let control = timer.read_control().with_status_sel(StatusSelect::PwmaOutput);
        timer.write_control(control);
    }

    fn enable_pwm_b(&mut self, timer: &mut Timer)
        ensures
            *final(self) == *old(self),
            *final(timer) == spec_status_selected(*old(timer), StatusSelect::PwmbOutput),
    {
        let control = timer.read_control().with_status_sel(StatusSelect::PwmbOutput);
        timer.write_control(control);
    }

    /// The frequency of the PWM signal.
    pub fn get_period(&self) -> (period: Hertz)
        ensures
            period == self.spec_period(),
    {
        self.current_period
    }

    /// Sets the frequency of the PWM signal. For a frequency of 0, the frequency is
    /// kept and the timer is left alone. Else the timer reloads the clock divided by
    /// the frequency.
    pub fn set_period(&mut self, timer: &mut Timer, period: Hertz)
        ensures
            final(self).spec_same_but_period(old(self)),
            final(self).spec_period() == period,
            final(self).spec_rst_val() == Self::spec_rst_val_for(
                old(self).spec_ref_clk(),
                period,
                old(self).spec_rst_val(),
            ),
            *final(timer) == (if period.raw == 0 {
                *old(timer)
            } else {
                Timer { reset_value: final(self).spec_rst_val(), ..*old(timer) }
            }),
    {
        self.current_period = period;
        // Avoid division by 0.
        if self.current_period.raw() == 0 {
            return ;
        }
        self.current_rst_val = self.ref_clk.raw() / self.current_period.raw();
        timer.write_reset_value(self.current_rst_val);
    }

    /// Disables the timer.
    pub fn disable(&mut self, timer: &mut Timer)
        ensures
            *final(self) == *old(self),
            *final(timer) == old(timer).spec_write_enable_control(EnableControl::new_disable()),
    {
        timer.write_enable_control(EnableControl::new_disable());
    }

    /// Enables the timer.
    pub fn enable(&mut self, timer: &mut Timer)
        ensures
            *final(self) == *old(self),
            *final(timer) == old(timer).spec_write_enable_control(EnableControl::new_enable()),
    {
        timer.write_enable_control(EnableControl::new_enable());
    }

    /// The frequency of the PWM signal.
    #[verifier::when_used_as_spec(spec_period)]
    pub fn period(&self) -> (period: Hertz)
        ensures
            period == self.spec_period(),
    {
        self.current_period
    }

    /// The duty.
    #[verifier::when_used_as_spec(spec_duty)]
    pub fn duty(&self) -> (duty: u16)
        ensures
            duty == self.spec_duty(),
    {
        self.current_duty
    }
}

impl PwmPin<PwmA> {
    /// The same pin in the mode of PWM B: the status output of the timer is switched.
    pub fn into_pwmb(self, timer: &mut Timer) -> (pin: PwmPin<PwmB>)
        ensures
            pin.spec_tim_id() == self.spec_tim_id(),
            pin.spec_ref_clk() == self.spec_ref_clk(),
            pin.spec_duty() == self.spec_duty(),
            pin.spec_lower_limit() == self.spec_lower_limit(),
            pin.spec_period() == self.spec_period(),
            pin.spec_rst_val() == self.spec_rst_val(),
            *final(timer) == spec_status_selected(*old(timer), StatusSelect::PwmbOutput),
    {
        let mut pwmb = PwmPin {
            mode: PhantomData,
            tim_id: self.tim_id,
            ref_clk: self.ref_clk,
            current_duty: self.current_duty,
            current_lower_limit: self.current_lower_limit,
            current_period: self.current_period,
            current_rst_val: self.current_rst_val,
        };
        pwmb.enable_pwm_b(timer);
        pwmb
    }

    /// The full duty.
    pub fn max_duty_cycle(&self) -> (max: u16)
        ensures
            max == DUTY_MAX,
    {
        DUTY_MAX
    }

    /// Sets the duty: the output is high while the count is at least the compare value,
    /// which is the part of the reload value that is left of the full duty.
    pub fn set_duty_cycle(&mut self, timer: &mut Timer, duty: u16)
        ensures
            final(self).spec_tim_id() == old(self).spec_tim_id(),
            final(self).spec_ref_clk() == old(self).spec_ref_clk(),
            final(self).spec_lower_limit() == old(self).spec_lower_limit(),
            final(self).spec_period() == old(self).spec_period(),
            final(self).spec_rst_val() == old(self).spec_rst_val(),
            final(self).spec_duty() == duty,
            *final(timer) == (Timer {
                pwma_value: spec_compare_value(old(self).spec_rst_val(), (DUTY_MAX - duty) as u16),
                ..*old(timer)
            }),
    {
        self.current_duty = duty;
        let pwma_val = compare_value(self.current_rst_val, DUTY_MAX - self.current_duty);
        timer.write_pwma_value(pwma_val);
    }
}

impl PwmPin<PwmB> {
    /// The same pin in the mode of PWM A: the status output of the timer is switched.
    pub fn into_pwma(self, timer: &mut Timer) -> (pin: PwmPin<PwmA>)
        ensures
            pin.spec_tim_id() == self.spec_tim_id(),
            pin.spec_ref_clk() == self.spec_ref_clk(),
            pin.spec_duty() == self.spec_duty(),
            pin.spec_lower_limit() == self.spec_lower_limit(),
            pin.spec_period() == self.spec_period(),
            pin.spec_rst_val() == self.spec_rst_val(),
            *final(timer) == spec_status_selected(*old(timer), StatusSelect::PwmaOutput),
    {
        let mut pwma = PwmPin {
            mode: PhantomData,
            tim_id: self.tim_id,
            ref_clk: self.ref_clk,
            current_duty: self.current_duty,
            current_lower_limit: self.current_lower_limit,
            current_period: self.current_period,
            current_rst_val: self.current_rst_val,
        };
        pwma.enable_pwm_a(timer);
        pwma
    }

    /// The lower limit.
    pub fn pwmb_lower_limit(&self) -> (limit: u16)
        ensures
            limit == self.spec_lower_limit(),
    {
        self.current_lower_limit
    }

    /// The upper limit.
    pub fn pwmb_upper_limit(&self) -> (limit: u16)
        ensures
            limit == self.spec_duty(),
    {
        self.current_duty
    }

    /// Set the lower limit for PWM B.
    ///
    /// The signal is high while the count is above the lower limit and below the upper
    /// limit. With a lower limit of a half and an upper limit of seven tenths of the
    /// full duty, the signal is high between the half and seven tenths of the period.
    pub fn set_pwmb_lower_limit(&mut self, timer: &mut Timer, duty: u16)
        ensures
            final(self).spec_tim_id() == old(self).spec_tim_id(),
            final(self).spec_ref_clk() == old(self).spec_ref_clk(),
            final(self).spec_duty() == old(self).spec_duty(),
            final(self).spec_period() == old(self).spec_period(),
            final(self).spec_rst_val() == old(self).spec_rst_val(),
            final(self).spec_lower_limit() == duty,
            *final(timer) == (Timer {
                pwmb_value: spec_compare_value(old(self).spec_rst_val(), duty),
                ..*old(timer)
            }),
    {
        self.current_lower_limit = duty;
        let pwmb_val = compare_value(self.current_rst_val, self.current_lower_limit);
        timer.write_pwmb_value(pwmb_val);
    }

    /// Set the upper limit for PWM B.
    pub fn set_pwmb_upper_limit(&mut self, timer: &mut Timer, duty: u16)
        ensures
            final(self).spec_tim_id() == old(self).spec_tim_id(),
            final(self).spec_ref_clk() == old(self).spec_ref_clk(),
            final(self).spec_lower_limit() == old(self).spec_lower_limit(),
            final(self).spec_period() == old(self).spec_period(),
            final(self).spec_rst_val() == old(self).spec_rst_val(),
            final(self).spec_duty() == duty,
            *final(timer) == (Timer {
                pwma_value: spec_compare_value(old(self).spec_rst_val(), duty),
                ..*old(timer)
            }),
    {
        self.current_duty = duty;
        let pwma_val = compare_value(self.current_rst_val, self.current_duty);
        timer.write_pwma_value(pwma_val);
    }
}

} // verus!
