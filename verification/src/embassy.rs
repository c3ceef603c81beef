//! The monotonic clock and the alarm scheduler.
//!
//! One timer, the timekeeper, runs freely: it counts down from `u32::MAX` and raises an
//! interrupt when it wraps. The driver counts the wraps and so extends the counter to 64
//! bits. A second timer, the alarm timer, runs once to the next deadline. The deadlines
//! of the waiting tasks are held by the queue of `embassy_time_queue_utils`; the driver
//! keeps the one deadline that the hardware is primed for.
//!
//! The driver and the queue are plain values here. The caller keeps them where an
//! interrupt cannot tear them, and hands in the registers of the two timers with every
//! call. The counter of the timekeeper does not move during a call.
use crate::clock::Clocks;
use crate::sysconfig::Sysconfig;
use crate::timer::regs::{EnableControl, TimId, Timer};
use crate::timer::{assert_tim_reset_for_cycles, enable_tim_clk, tim_clock};
use crate::{enable_nvic_interrupt, Nvic};
use core::task::Waker;
use embassy_time_queue_utils::queue_generic::Queue;
use vstd::arithmetic::div_mod::lemma_div_is_ordered;
use vstd::multiset::Multiset;
use vstd::prelude::*;

verus! {

/// The generic timer queue of `embassy_time_queue_utils`, with room for 64 timers. It
/// takes the wake handles of any executor.
#[verifier::external_type_specification]
#[verifier::external_body]
pub struct ExQueue(embassy_time_queue_utils::queue_generic::Queue);

/// The deadlines of the timers that a queue holds, each as often as it is held.
pub uninterp spec fn pending_deadlines(queue: Queue) -> Multiset<u64>;

/// The deadlines of `deadlines` that lie after `now`.
pub open spec fn later_than(deadlines: Multiset<u64>, now: u64) -> Multiset<u64> {
    deadlines.filter(|d: u64| d > now)
}

/// Whether `next` is the nearest of `deadlines`, or `u64::MAX` where there is none.
pub open spec fn is_next_expiration(deadlines: Multiset<u64>, next: u64) -> bool {
    &&& forall|d: u64| deadlines.count(d) > 0 ==> next <= d
    &&& (next == u64::MAX || deadlines.count(next) > 0)
}

/// Whether `after` can be what a queue holds once `at` was scheduled in a queue that
/// held `before`: `at` is in, and at most one deadline made room for it.
pub open spec fn is_rescheduled(before: Multiset<u64>, at: u64, after: Multiset<u64>) -> bool {
    exists|gone: Multiset<u64>|
        gone.len() <= 1 && gone.subset_of(before) && after == #[trigger] before.sub(gone).insert(at)
}

/// Calls `Queue::new`, which makes a queue without timers.
#[verifier::external_body]
fn queue_new() -> (queue: Queue)
    ensures
        pending_deadlines(queue) == Multiset::<u64>::empty(),
{
    Queue::new()
}

/// Calls `Queue::schedule_wake`.
///
/// The queue looks for a timer of the same task. If it finds one with a later deadline,
/// it moves that deadline to `at` and returns `true`; if it finds one that is at least
/// as early, it changes nothing and returns `false`. If it finds none, it adds a timer
/// for `at` and returns `true`; when it is full, it first wakes and drops one timer.
#[verifier::external_body]
fn queue_schedule_wake(queue: &mut Queue, at: u64, waker: &Waker) -> (changed: bool)
    ensures
        !changed ==> pending_deadlines(*final(queue)) == pending_deadlines(*old(queue)),
        !changed ==> exists|d: u64| d <= at && #[trigger] pending_deadlines(*old(queue)).count(d) > 0,
        changed ==> is_rescheduled(pending_deadlines(*old(queue)), at, pending_deadlines(*final(queue))),
{
    queue.schedule_wake(at, waker)
}

/// Calls `Queue::next_expiration`.
///
/// The queue wakes and drops every timer whose deadline is at most `now`, and returns
/// the nearest deadline of those that stay, or `u64::MAX` if none stays.
#[verifier::external_body]
fn queue_next_expiration(queue: &mut Queue, now: u64) -> (next: u64)
    ensures
        pending_deadlines(*final(queue)) == later_than(pending_deadlines(*old(queue)), now),
        is_next_expiration(pending_deadlines(*final(queue)), next),
{
    queue.next_expiration(now)
}

/// The ticks of the hardware since the start: `periods` wraps of the timekeeper, and
/// what it has counted down from `u32::MAX` to `counter` since the last one.
pub open spec fn spec_hardware_ticks(periods: u32, counter: u32) -> int {
    periods * 0x1_0000_0000 + (u32::MAX - counter)
}

/// The time in logical ticks, of which each takes `scale` ticks of the hardware.
pub open spec fn spec_now_at(periods: u32, counter: u32, scale: u64) -> u64 {
    (spec_hardware_ticks(periods, counter) / (scale as int)) as u64
}

/// The deadline that the hardware is primed for when `timestamp` is asked for at the
/// time `now`: `timestamp`, but at least three ticks from `now`.
pub open spec fn spec_safe_timestamp(timestamp: u64, now: u64) -> u64 {
    let floor = if now + 3 > u64::MAX {
        u64::MAX
    } else {
        (now + 3) as u64
    };
    if timestamp >= floor {
        timestamp
    } else {
        floor
    }
}

/// The ticks of the hardware from `now` to the safe deadline for `timestamp`, if they
/// fit the 32 bits of the alarm timer.
pub open spec fn spec_alarm_ticks(timestamp: u64, now: u64, scale: u64) -> Option<u32> {
    let ticks = (spec_safe_timestamp(timestamp, now) - now) * scale;
    if ticks <= u32::MAX {
        Some(ticks as u32)
    } else {
        None
    }
}

/// The alarm timer switched off, with its interrupt.
pub open spec fn spec_disarmed(alarm: Timer) -> Timer {
    alarm.spec_write_control(alarm.control.with_irq_enable(false).with_enable(false))
}

/// The alarm timer as `set_alarm` leaves it for a deadline that lies after `now`:
/// switched off, the reload value at its maximum and, if the deadline is in reach,
/// loaded with the ticks up to it and switched on with its interrupt.
pub open spec fn spec_armed(alarm: Timer, timestamp: u64, now: u64, scale: u64) -> Timer {
    let off = Timer { reset_value: u32::MAX, ..spec_disarmed(alarm) };
    match spec_alarm_ticks(timestamp, now, scale) {
        Some(ticks) => {
            let loaded = Timer { count_value: ticks, ..off };
            loaded.spec_write_control(loaded.control.with_irq_enable(true).with_enable(true))
        },
        None => off,
    }
}

/// The alarm timer as an attempt to set an alarm for `timestamp` at the time `now`
/// leaves it.
pub open spec fn spec_alarm_after_set(alarm: Timer, timestamp: u64, now: u64, scale: u64) -> Timer {
    if timestamp <= now {
        spec_disarmed(alarm)
    } else {
        spec_armed(alarm, timestamp, now, scale)
    }
}

/// The ticks of the hardware that are left to `at` in the period that starts at the
/// hardware tick `period_start`, if they fit the 32 bits of the alarm timer.
pub open spec fn spec_remaining_ticks(at: u64, period_start: u64, scale: u64) -> Option<u32> {
    let ticks = (at - period_start) * scale;
    if ticks <= u32::MAX {
        Some(ticks as u32)
    } else {
        None
    }
}

/// The alarm timer as a wrap of the timekeeper leaves it when the deadline is `ticks`
/// away: loaded with them and switched on with its interrupt.
pub open spec fn spec_reloaded(alarm: Timer, ticks: u32) -> Timer {
    let off = alarm.spec_write_enable_control(EnableControl::new_disable());
    let loaded = Timer { count_value: ticks, ..off };
    let listening = loaded.spec_write_control(loaded.control.with_irq_enable(true));
    listening.spec_write_enable_control(EnableControl::new_enable())
}

/// The deadline that the hardware is primed for, or `u64::MAX` while no alarm is
/// pending.
pub struct AlarmState {
    timestamp: u64,
}

impl AlarmState {
    /// The deadline, or `u64::MAX` for none.
    pub closed spec fn spec_timestamp(&self) -> u64 {
        self.timestamp
    }

    /// The state without an alarm.
    pub fn new() -> (state: AlarmState)
        ensures
            state.spec_timestamp() == u64::MAX,
    {
        AlarmState { timestamp: u64::MAX }
    }

    /// The deadline, or `u64::MAX` for none.
    #[verifier::when_used_as_spec(spec_timestamp)]
    pub fn timestamp(&self) -> (timestamp: u64)
        ensures
            timestamp == self.spec_timestamp(),
    {
        self.timestamp
    }
}

/// What the initialization fixes: the two timers and the scale of the clock.
#[derive(Debug, Clone, Copy, PartialEq, Eq, Structural)]
pub struct DriverSetup {
    /// Ticks of the hardware per logical tick.
    pub scale: u64,
    pub timekeeper_tim: TimId,
    pub alarm_tim: TimId,
}

/// One attempt to read the clock: the wrap count, then the counter of the timekeeper,
/// then the wrap count again.
#[derive(Debug, Clone, Copy, PartialEq, Eq, Structural)]
pub struct ClockRead {
    pub period1: u32,
    pub counter: u32,
    pub period2: u32,
}

/// The time driver: the wrap count of the timekeeper, the alarm state and the queue of
/// deadlines.
pub struct TimerDriver {
    periods: u32,
    /// Deadline at which to fire the alarm, `u64::MAX` if no alarm is scheduled.
    alarms: AlarmState,
    queue: Queue,
    setup: Option<DriverSetup>,
}

impl TimerDriver {
    /// How often the timekeeper has wrapped, modulo 2^32.
    pub closed spec fn spec_periods(&self) -> u32 {
        self.periods
    }

    /// The deadline that the hardware is primed for, or `u64::MAX` for none.
    pub closed spec fn spec_alarm_timestamp(&self) -> u64 {
        self.alarms.timestamp
    }

    /// The deadlines that wait in the queue.
    pub closed spec fn spec_pending(&self) -> Multiset<u64> {
        pending_deadlines(self.queue)
    }

    /// What the initialization has fixed, if it has run.
    pub closed spec fn spec_setup(&self) -> Option<DriverSetup> {
        self.setup
    }

    /// Whether the initialization has run.
    pub open spec fn spec_is_initialized(&self) -> bool {
        self.spec_setup().is_some()
    }

    /// Ticks of the hardware per logical tick, once the initialization has run.
    pub open spec fn spec_scale(&self) -> Option<u64> {
        match self.spec_setup() {
            Some(setup) => Some(setup.scale),
            None => None,
        }
    }

    /// The invariant of the type, which every function of the driver keeps: the scale is
    /// not 0, and a driver that is not initialized holds no alarm.
    pub open spec fn wf(&self) -> bool {
        &&& self.spec_setup() matches Some(setup) ==> setup.scale > 0
        &&& self.spec_setup().is_none() ==> self.spec_alarm_timestamp() == u64::MAX
    }

    /// The time in logical ticks when the counter of the timekeeper reads `counter`: 0
    /// before the initialization.
    pub open spec fn spec_now(&self, counter: u32) -> u64 {
        match self.spec_scale() {
            Some(scale) => spec_now_at(self.spec_periods(), counter, scale),
            None => 0,
        }
    }

    /// A driver that is not initialized: no wrap counted, no alarm, no deadline.
    pub fn new() -> (driver: TimerDriver)
        ensures
            driver.spec_periods() == 0,
            driver.spec_alarm_timestamp() == u64::MAX,
            driver.spec_pending() == Multiset::<u64>::empty(),
            driver.spec_setup().is_none(),
            driver.wf(),
    {
        TimerDriver { periods: 0, alarms: AlarmState::new(), queue: queue_new(), setup: None }
    }

    /// How often the timekeeper has wrapped, modulo 2^32.
    #[verifier::when_used_as_spec(spec_periods)]
    pub fn periods(&self) -> (periods: u32)
        ensures
            periods == self.spec_periods(),
    {
        self.periods
    }

    /// The deadline that the hardware is primed for, or `u64::MAX` for none.
    #[verifier::when_used_as_spec(spec_alarm_timestamp)]
    pub fn alarm_timestamp(&self) -> (timestamp: u64)
        ensures
            timestamp == self.spec_alarm_timestamp(),
    {
        self.alarms.timestamp()
    }

    /// What the initialization has fixed, if it has run. The scale is not 0.
    #[verifier::when_used_as_spec(spec_setup)]
    pub fn setup(&self) -> (setup: Option<DriverSetup>)
        requires
            self.wf(),
        ensures
            setup == self.spec_setup(),
            setup matches Some(s) ==> s.scale > 0,
    {
        self.setup
    }

    /// Whether the initialization has run.
    #[verifier::when_used_as_spec(spec_is_initialized)]
    pub fn is_initialized(&self) -> (initialized: bool)
        ensures
            initialized == self.spec_is_initialized(),
    {
        self.setup.is_some()
    }

    /// The timer that keeps the time. It is known once the initialization has run.
    pub fn timekeeper_tim(&self) -> (id: TimId)
        requires
            self.is_initialized(),
        ensures
            id == self.spec_setup().unwrap().timekeeper_tim,
    {
        self.setup.unwrap().timekeeper_tim
    }

    /// The timer that fires the alarms. It is known once the initialization has run.
    pub fn alarm_tim(&self) -> (id: TimId)
        requires
            self.is_initialized(),
        ensures
            id == self.spec_setup().unwrap().alarm_tim,
    {
        self.setup.unwrap().alarm_tim
    }

    /// Initializes the driver, once: a second call changes nothing.
    ///
    /// The first call fixes the two timers and the scale, which is the clock of the
    /// timekeeper divided by the tick rate `tick_hz`. It opens the clock gates of both
    /// timers and resets them, lets the timekeeper run freely from `u32::MAX` with its
    /// interrupt, leaves the alarm timer off, and unmasks the interrupt lines of both.
    ///
    /// The tick rate is not 0 and not above the clock of the timekeeper, so that the
    /// scale is not 0.
    pub fn __init(
        &mut self,
        timekeeper_tim: TimId,
        alarm_tim: TimId,
        clocks: &Clocks,
        tick_hz: u32,
        sysconfig: &mut Sysconfig,
        nvic: &mut Nvic,
        timekeeper: &mut Timer,
        alarm: &mut Timer,
    )
        requires
            old(self).wf(),
            0 < tick_hz <= tim_clock(timekeeper_tim, *clocks).raw,
        ensures
            final(self).wf(),
            final(self).spec_periods() == old(self).spec_periods(),
            final(self).spec_alarm_timestamp() == old(self).spec_alarm_timestamp(),
            final(self).spec_pending() == old(self).spec_pending(),
            old(self).is_initialized() ==> {
                &&& final(self).spec_setup() == old(self).spec_setup()
                &&& *final(sysconfig) == *old(sysconfig)
                &&& *final(nvic) == *old(nvic)
                &&& *final(timekeeper) == *old(timekeeper)
                &&& *final(alarm) == *old(alarm)
            },
            !old(self).is_initialized() ==> {
                &&& final(self).spec_setup() == Some(
                    DriverSetup {
                        scale: (tim_clock(timekeeper_tim, *clocks).raw / tick_hz) as u64,
                        timekeeper_tim,
                        alarm_tim,
                    },
                )
                &&& *final(timekeeper) == Self::spec_timekeeper_started(*old(timekeeper))
                &&& *final(alarm) == spec_disarmed(*old(alarm))
                &&& *final(sysconfig) == Self::spec_clocked(
                    Self::spec_clocked(*old(sysconfig), timekeeper_tim),
                    alarm_tim,
                )
                &&& final(nvic).is_enabled(timekeeper_tim.interrupt_id_spec())
                &&& final(nvic).is_enabled(alarm_tim.interrupt_id_spec())
            },
    {
        if self.setup.is_some() {
            return ;
        }
        enable_tim_clk(sysconfig, timekeeper_tim);
        assert_tim_reset_for_cycles(sysconfig, timekeeper_tim, 2);

        // The scale turns ticks of the timer back into a timestamp.
        let clock = tim_clock(timekeeper_tim, *clocks);
        let clock_hz = clock.raw();
        assert(clock_hz / tick_hz >= 1) by (nonlinear_arith)
            requires
                0 < tick_hz <= clock_hz,
        ;
        let scale: u64 = (clock_hz / tick_hz) as u64;
        self.setup = Some(DriverSetup { scale, timekeeper_tim, alarm_tim });
        timekeeper.write_reset_value(u32::MAX);
        // The counter counts down.
        timekeeper.write_count_value(u32::MAX);
        // Switch on. Timekeeping should always be done.
        enable_nvic_interrupt(nvic, timekeeper_tim.interrupt_id());
        let control = timekeeper.read_control().with_irq_enable(true);
        timekeeper.write_control(control);
        timekeeper.write_enable_control(EnableControl::new_enable());

        enable_tim_clk(sysconfig, alarm_tim);
        assert_tim_reset_for_cycles(sysconfig, alarm_tim, 2);
        // The alarm timer stays off until it is needed.
        let control = alarm.read_control().with_irq_enable(false).with_enable(false);
        alarm.write_control(control);
        // The interrupt line is unmasked. The interrupt of the timer itself stays off.
        let timekeeper_irq = timekeeper_tim.interrupt_id();
        let alarm_irq = alarm_tim.interrupt_id();
        proof {
            crate::lemma_enable_keeps_enabled(*nvic, timekeeper_irq, alarm_irq);
        }
        enable_nvic_interrupt(nvic, alarm_irq);
    }

    /// The timekeeper as the initialization leaves it: counting down from `u32::MAX`,
    /// reloading `u32::MAX`, with its interrupt.
    pub open spec fn spec_timekeeper_started(timekeeper: Timer) -> Timer {
        let loaded = Timer { reset_value: u32::MAX, count_value: u32::MAX, ..timekeeper };
        let listening = loaded.spec_write_control(loaded.control.with_irq_enable(true));
        listening.spec_write_enable_control(EnableControl::new_enable())
    }

    /// The system configuration with the clock gate of the timer `id` open and the
    /// timer released from reset.
    pub open spec fn spec_clocked(sysconfig: Sysconfig, id: TimId) -> Sysconfig {
        Sysconfig {
            tim_clk_enable: crate::bits::spec_set_bit(sysconfig.tim_clk_enable, id.value() as u32, true),
            tim_reset: crate::bits::spec_set_bit(sysconfig.tim_reset, id.value() as u32, true),
            ..sysconfig
        }
    }

    /// One attempt to read the clock.
    ///
    /// The two wrap counts of `read` differ if the timekeeper wrapped while it was
    /// read: then the counter may belong to either period, there is no result, and the
    /// caller reads again. If they agree, the result is the time in logical ticks.
    pub fn now_from_reads(read: ClockRead, scale: u64) -> (now: Option<u64>)
        requires
            scale > 0,
        ensures
            now.is_some() == (read.period1 == read.period2),
            now matches Some(t) ==> t == spec_now_at(read.period1, read.counter, scale),
    {
        if read.period1 != read.period2 {
            return None;
        }
        let counter_val: u32 = u32::MAX - read.counter;
        let period: u32 = read.period1;
        let ticks: u64 = ((period as u64) << 32) | (counter_val as u64);
        assert(ticks == period * 0x1_0000_0000 + counter_val) by (bit_vector)
            requires
                ticks == ((period as u64) << 32) | (counter_val as u64),
        ;
        Some(ticks / scale)
    }

    /// Should be called inside the interrupt handler of the timekeeper, once for each
    /// wrap.
    pub fn on_interrupt_timekeeping(&mut self, timekeeper: &Timer, alarm: &mut Timer)
        requires
            old(self).wf(),
            old(self).is_initialized(),
        ensures
            final(self).wf(),
            final(self).spec_setup() == old(self).spec_setup(),
            final(self).spec_periods() == old(self).spec_periods().wrapping_add(1),
            Self::spec_after_wrap(*old(self), *old(alarm), timekeeper.count_value, *final(self), *final(alarm)),
    {
        self.next_period(timekeeper, alarm);
    }

    /// Should be called inside the interrupt handler of the alarm timer.
    ///
    /// If the deadline that the hardware was primed for has come, the alarm triggers.
    /// If it has not, the interrupt is stale and nothing changes.
    pub fn on_interrupt_alarm(&mut self, timekeeper: &Timer, alarm: &mut Timer)
        requires
            old(self).wf(),
        ensures
            final(self).wf(),
            final(self).spec_setup() == old(self).spec_setup(),
            final(self).spec_periods() == old(self).spec_periods(),
            old(self).spec_alarm_timestamp() <= old(self).spec_now(timekeeper.count_value)
                ==> Self::spec_after_trigger(
                *old(self),
                *old(alarm),
                timekeeper.count_value,
                *final(self),
                *final(alarm),
            ),
            old(self).spec_alarm_timestamp() > old(self).spec_now(timekeeper.count_value) ==> {
                &&& final(self).spec_alarm_timestamp() == old(self).spec_alarm_timestamp()
                &&& final(self).spec_pending() == old(self).spec_pending()
                &&& *final(alarm) == *old(alarm)
            },
    {
        if self.alarms.timestamp() <= self.now(timekeeper) {
            self.trigger_alarm(timekeeper, alarm)
        }
    }

    /// What a wrap of the timekeeper does, from the driver `before` and the alarm
    /// timer `alarm_before` to `after` and `alarm_after`.
    ///
    /// The new period starts at the hardware tick `periods << 32`. A deadline before
    /// that tick has passed, and the alarm triggers. A deadline that is now in reach
    /// of the alarm timer is loaded into it. Any other waits for the next wrap.
    pub open spec fn spec_after_wrap(
        before: TimerDriver,
        alarm_before: Timer,
        counter: u32,
        after: TimerDriver,
        alarm_after: Timer,
    ) -> bool {
        let period = before.spec_periods().wrapping_add(1);
        let period_start = (period * 0x1_0000_0000) as u64;
        let at = before.spec_alarm_timestamp();
        let stepped = TimerDriverView {
            periods: period,
            alarm_timestamp: at,
            pending: before.spec_pending(),
            setup: before.spec_setup(),
        };
        if at < period_start {
            Self::spec_triggered(stepped, alarm_before, counter, after@, alarm_after)
        } else {
            &&& after@ == stepped
            &&& alarm_after == match spec_remaining_ticks(at, period_start, before.spec_scale().unwrap()) {
                Some(ticks) => spec_reloaded(alarm_before, ticks),
                None => alarm_before,
            }
        }
    }

    /// What a trigger of the alarm does, from the driver `before` and the alarm timer
    /// `alarm_before` to `after` and `alarm_after`.
    pub open spec fn spec_after_trigger(
        before: TimerDriver,
        alarm_before: Timer,
        counter: u32,
        after: TimerDriver,
        alarm_after: Timer,
    ) -> bool {
        Self::spec_triggered(before@, alarm_before, counter, after@, alarm_after)
    }

    /// What a trigger of the alarm does.
    ///
    /// The queue drops the deadlines that have come, and wakes their tasks. The alarm
    /// state is the nearest deadline that is left, or `u64::MAX` if none is, and the
    /// alarm timer is primed for it.
    pub open spec fn spec_triggered(
        before: TimerDriverView,
        alarm_before: Timer,
        counter: u32,
        after: TimerDriverView,
        alarm_after: Timer,
    ) -> bool {
        let now = before.now(counter);
        &&& after.periods == before.periods
        &&& after.setup == before.setup
        &&& after.pending == later_than(before.pending, now)
        &&& is_next_expiration(after.pending, after.alarm_timestamp)
        &&& alarm_after == spec_alarm_after_set(
            spec_disarmed(alarm_before),
            after.alarm_timestamp,
            now,
            before.setup.unwrap().scale,
        )
    }

    fn next_period(&mut self, timekeeper: &Timer, alarm: &mut Timer)
        requires
            old(self).wf(),
            old(self).is_initialized(),
        ensures
            final(self).wf(),
            final(self).spec_setup() == old(self).spec_setup(),
            final(self).spec_periods() == old(self).spec_periods().wrapping_add(1),
            Self::spec_after_wrap(*old(self), *old(alarm), timekeeper.count_value, *final(self), *final(alarm)),
    {
        let period: u32 = self.periods.wrapping_add(1);
        self.periods = period;
        let t: u64 = (period as u64) << 32;
        assert(t == period * 0x1_0000_0000) by (bit_vector)
            requires
                t == (period as u64) << 32,
        ;
        let at = self.alarms.timestamp();
        if at < t {
            self.trigger_alarm(timekeeper, alarm);
        } else {
            let scale = match self.setup {
                Some(setup) => setup.scale,
                None => 1,
            };
            match (at - t).checked_mul(scale) {
                Some(remaining_ticks) => {
                    if remaining_ticks <= u32::MAX as u64 {
                        alarm.write_enable_control(EnableControl::new_disable());
                        alarm.write_count_value(remaining_ticks as u32);
                        let control = alarm.read_control().with_irq_enable(true);
                        alarm.write_control(control);
                        alarm.write_enable_control(EnableControl::new_enable());
                    }
                },
                None => {},
            }
        }
    }

    /// Triggers the alarm: the hardware alarm is switched off and the alarm state is
    /// reset before any task is woken. Then the queue drops the deadlines that have
    /// come, waking their tasks, and the alarm is set for the nearest deadline that is
    /// left, if there is one.
    pub fn trigger_alarm(&mut self, timekeeper: &Timer, alarm: &mut Timer)
        requires
            old(self).wf(),
            old(self).is_initialized(),
        ensures
            final(self).wf(),
            Self::spec_after_trigger(*old(self), *old(alarm), timekeeper.count_value, *final(self), *final(alarm)),
    {
        let control = alarm.read_control().with_irq_enable(false).with_enable(false);
        alarm.write_control(control);

        // The maximum value stands for no alarm. It is set before any task is woken, so
        // that a task that schedules itself again finds a clean slate.
        self.alarms.timestamp = u64::MAX;

        self.rearm(timekeeper, alarm);
    }

    /// Asks the queue for the nearest deadline that has not come and sets the alarm for
    /// it, until an alarm is set or the queue has no deadline left.
    fn rearm(&mut self, timekeeper: &Timer, alarm: &mut Timer)
        requires
            old(self).wf(),
            old(self).is_initialized(),
        ensures
            final(self).wf(),
            final(self).spec_periods() == old(self).spec_periods(),
            final(self).spec_setup() == old(self).spec_setup(),
            final(self).spec_pending() == later_than(
                old(self).spec_pending(),
                old(self).spec_now(timekeeper.count_value),
            ),
            is_next_expiration(final(self).spec_pending(), final(self).spec_alarm_timestamp()),
            *final(alarm) == spec_alarm_after_set(
                *old(alarm),
                final(self).spec_alarm_timestamp(),
                old(self).spec_now(timekeeper.count_value),
                old(self).spec_scale().unwrap(),
            ),
    {
        let ghost now = self.spec_now(timekeeper.count_value);
        let ghost start = *alarm;
        let ghost scale = self.spec_scale().unwrap();
        let t = self.now(timekeeper);
        let mut next = queue_next_expiration(&mut self.queue, t);
        proof {
            lemma_later_than(old(self).spec_pending(), now, next);
        }
        let mut armed = self.set_alarm(timekeeper, alarm, next);
        while !armed && next != u64::MAX
            invariant
                self.wf(),
                self.is_initialized(),
                self.spec_periods() == old(self).spec_periods(),
                self.spec_setup() == old(self).spec_setup(),
                now == self.spec_now(timekeeper.count_value),
                scale == self.spec_scale().unwrap(),
                self.spec_pending() == later_than(old(self).spec_pending(), now),
                is_next_expiration(self.spec_pending(), next),
                next == u64::MAX || next > now,
                armed == (next > now),
                armed ==> self.spec_alarm_timestamp() == next,
                !armed ==> self.spec_alarm_timestamp() == u64::MAX,
                *alarm == spec_alarm_after_set(start, next, now, scale),
            decreases
                    (if armed || next == u64::MAX {
                        0int
                    } else {
                        1int
                    }),
        {
            let t = self.now(timekeeper);
            next = queue_next_expiration(&mut self.queue, t);
            armed = self.set_alarm(timekeeper, alarm, next);
        }
    }

    /// Sets the alarm for the deadline `timestamp`, and says whether it is set.
    ///
    /// Before the initialization the call fails and changes nothing. After it, the
    /// alarm timer is switched off first. A deadline that has come leaves no alarm:
    /// the call fails, and the caller derives the next deadline and tries again. A
    /// deadline that has not come is kept as the alarm, and the hardware is primed for
    /// it, but for no less than three ticks from now, since priming takes time itself:
    /// an alarm never fires early, and it fires at most two ticks late. If the deadline
    /// is beyond the reach of the alarm timer, the timer stays off until a wrap of the
    /// timekeeper brings the deadline in reach.
    pub fn set_alarm(&mut self, timekeeper: &Timer, alarm: &mut Timer, timestamp: u64) -> (set: bool)
        requires
            old(self).wf(),
        ensures
            final(self).wf(),
            set == (old(self).is_initialized() && timestamp > old(self).spec_now(timekeeper.count_value)),
            final(self).spec_periods() == old(self).spec_periods(),
            final(self).spec_setup() == old(self).spec_setup(),
            final(self).spec_pending() == old(self).spec_pending(),
            final(self).spec_alarm_timestamp() == (if set {
                timestamp
            } else {
                u64::MAX
            }),
            !old(self).is_initialized() ==> *final(alarm) == *old(alarm),
            old(self).is_initialized() ==> *final(alarm) == spec_alarm_after_set(
                *old(alarm),
                timestamp,
                old(self).spec_now(timekeeper.count_value),
                old(self).spec_scale().unwrap(),
            ),
    {
        let scale = match self.setup {
            Some(setup) => setup.scale,
            None => {
                return false;
            },
        };
        let control = alarm.read_control().with_irq_enable(false).with_enable(false);
        alarm.write_control(control);

        self.alarms.timestamp = timestamp;

        let t = self.now(timekeeper);
        if timestamp <= t {
            self.alarms.timestamp = u64::MAX;
            return false;
        }
        // The reload value and the count are set whether or not the timer is switched on:
        // when it is switched on later, they are in place.
        //
        // A deadline in the next few ticks is pushed back a little, so that the alarm is
        // not missed. An alarm can so be late by up to two ticks (from t+1 to t+3), which
        // is allowed. What is not allowed is an alarm before its time.
        let floor = t.saturating_add(3);
        let safe_timestamp = if timestamp >= floor {
            timestamp
        } else {
            floor
        };
        let timer_ticks = (safe_timestamp - t).checked_mul(scale);
        alarm.write_reset_value(u32::MAX);
        match timer_ticks {
            Some(ticks) => {
                if ticks <= u32::MAX as u64 {
                    alarm.write_count_value(ticks as u32);
                    let control = alarm.read_control().with_irq_enable(true).with_enable(true);
                    alarm.write_control(control);
                }
            },
            None => {},
        }
        // If the deadline is too far in the future, the timer stays off. A wrap of the
        // timekeeper switches it on later.
        true
    }

    /// The time in logical ticks: 0 before the initialization.
    ///
    /// The wrap count and the counter of the timekeeper are read as they are in the
    /// values at hand. A caller that reads them from hardware that keeps running reads
    /// the wrap count before and after the counter and uses
    /// [`TimerDriver::now_from_reads`].
    pub fn now(&self, timekeeper: &Timer) -> (now: u64)
        requires
            self.wf(),
        ensures
            now == self.spec_now(timekeeper.count_value),
    {
        let scale = match self.setup {
            Some(setup) => setup.scale,
            None => {
                return 0;
            },
        };
        let read = ClockRead {
            period1: self.periods,
            counter: timekeeper.read_count_value(),
            period2: self.periods,
        };
        match Self::now_from_reads(read, scale) {
            Some(now) => now,
            None => 0,
        }
    }

    /// Schedules a wake of the task of `waker` at the time `at`.
    ///
    /// The queue takes the deadline. If that may have changed which deadline is the
    /// nearest, the queue drops the deadlines that have come, waking their tasks, and
    /// the alarm is set for the nearest that is left.
    pub fn schedule_wake(&mut self, timekeeper: &Timer, alarm: &mut Timer, at: u64, waker: &Waker)
        requires
            old(self).wf(),
            old(self).is_initialized(),
        ensures
            final(self).wf(),
            final(self).spec_periods() == old(self).spec_periods(),
            final(self).spec_setup() == old(self).spec_setup(),
            Self::spec_after_schedule(*old(self), *old(alarm), timekeeper.count_value, at, *final(self), *final(alarm)),
    {
        if queue_schedule_wake(&mut self.queue, at, waker) {
            proof {
                assert(is_rescheduled(old(self).spec_pending(), at, self.spec_pending()));
            }
            self.rearm(timekeeper, alarm);
        }
    }

    /// What scheduling a wake at `at` does, from the driver `before` and the alarm
    /// timer `alarm_before` to `after` and `alarm_after`.
    ///
    /// Either the queue held an earlier or equal deadline for the task, and nothing
    /// changes. Or `at` went into the queue, for which at most one deadline left it;
    /// then the deadlines that have come are dropped, the alarm state is the nearest
    /// deadline that is left, and the alarm timer is primed for it.
    pub open spec fn spec_after_schedule(
        before: TimerDriver,
        alarm_before: Timer,
        counter: u32,
        at: u64,
        after: TimerDriver,
        alarm_after: Timer,
    ) -> bool {
        let now = before.spec_now(counter);
        ||| {
            &&& after.spec_pending() == before.spec_pending()
            &&& after.spec_alarm_timestamp() == before.spec_alarm_timestamp()
            &&& alarm_after == alarm_before
            &&& exists|d: u64| d <= at && #[trigger] before.spec_pending().count(d) > 0
        }
        ||| exists|scheduled: Multiset<u64>|
            {
                &&& #[trigger] is_rescheduled(before.spec_pending(), at, scheduled)
                &&& after.spec_pending() == later_than(scheduled, now)
                &&& is_next_expiration(after.spec_pending(), after.spec_alarm_timestamp())
                &&& alarm_after == spec_alarm_after_set(
                    alarm_before,
                    after.spec_alarm_timestamp(),
                    now,
                    before.spec_scale().unwrap(),
                )
            }
    }
}

/// What the contracts say of a driver: its wrap count, its alarm state, the deadlines in
/// its queue and what the initialization fixed.
pub struct TimerDriverView {
    pub periods: u32,
    pub alarm_timestamp: u64,
    pub pending: Multiset<u64>,
    pub setup: Option<DriverSetup>,
}

impl TimerDriverView {
    /// The time in logical ticks when the counter of the timekeeper reads `counter`.
    pub open spec fn now(self, counter: u32) -> u64 {
        match self.setup {
            Some(setup) => spec_now_at(self.periods, counter, setup.scale),
            None => 0,
        }
    }
}

impl View for TimerDriver {
    type V = TimerDriverView;

    open spec fn view(&self) -> TimerDriverView {
        TimerDriverView {
            periods: self.spec_periods(),
            alarm_timestamp: self.spec_alarm_timestamp(),
            pending: self.spec_pending(),
            setup: self.spec_setup(),
        }
    }
}

/// The clock does not run backwards.
///
/// Between two readings the hardware has counted on: the same period with a counter
/// that is not higher, or a later period. Then the second reading shows no earlier time
/// than the first. The scale is the same for both, or the first reading was taken before
/// the initialization.
pub proof fn lemma_now_is_monotonic(
    before: TimerDriverView,
    counter_before: u32,
    after: TimerDriverView,
    counter_after: u32,
)
    requires
        before.setup matches Some(setup) ==> setup.scale > 0 && after.setup == before.setup,
        spec_hardware_ticks(before.periods, counter_before) <= spec_hardware_ticks(
            after.periods,
            counter_after,
        ),
    ensures
        before.now(counter_before) <= after.now(counter_after),
{
    match before.setup {
        Some(setup) => {
            lemma_div_is_ordered(
                spec_hardware_ticks(before.periods, counter_before),
                spec_hardware_ticks(after.periods, counter_after),
                setup.scale as int,
            );
            lemma_now_fits(before.periods, counter_before, setup.scale);
            lemma_now_fits(after.periods, counter_after, setup.scale);
        },
        None => {},
    }
}

/// The hardware counts on while the timekeeper counts down within a period, and when it
/// wraps into the next period, as long as the count of the periods does not wrap itself.
pub proof fn lemma_hardware_ticks_advance(periods: u32, counter: u32, later_counter: u32, wrapped_counter: u32)
    requires
        later_counter <= counter,
    ensures
        spec_hardware_ticks(periods, counter) <= spec_hardware_ticks(periods, later_counter),
        periods < u32::MAX ==> spec_hardware_ticks(periods, counter) < spec_hardware_ticks(
            periods.wrapping_add(1),
            wrapped_counter,
        ),
{
}

/// The time in logical ticks fits 64 bits.
pub proof fn lemma_now_fits(periods: u32, counter: u32, scale: u64)
    requires
        scale > 0,
    ensures
        0 <= spec_hardware_ticks(periods, counter) / (scale as int) <= u64::MAX,
        spec_now_at(periods, counter, scale) == spec_hardware_ticks(periods, counter) / (scale as int),
{
    let ticks = spec_hardware_ticks(periods, counter);
    assert(0 <= ticks / (scale as int) <= ticks) by (nonlinear_arith)
        requires
            0 <= ticks,
            scale > 0,
    ;
}

/// An alarm never fires early, and it fires at most two ticks late: the deadline that
/// the hardware is primed for is the deadline asked for or up to two ticks after it.
/// Where it is in reach of the alarm timer, the timer is loaded with the ticks of the
/// hardware from now to that deadline.
pub proof fn lemma_alarm_is_never_early_and_at_most_two_ticks_late(timestamp: u64, now: u64, scale: u64)
    requires
        timestamp > now,
    ensures
        timestamp <= spec_safe_timestamp(timestamp, now) <= timestamp + 2,
        spec_alarm_ticks(timestamp, now, scale) matches Some(ticks) ==> ticks == (spec_safe_timestamp(
            timestamp,
            now,
        ) - now) * scale,
{
}

/// Of the deadlines that lie after `now`, each lies after `now`, the nearest of them
/// does too unless it is the stand-in for none, and dropping what has come a second
/// time drops nothing.
pub proof fn lemma_later_than(deadlines: Multiset<u64>, now: u64, next: u64)
    requires
        is_next_expiration(later_than(deadlines, now), next),
    ensures
        forall|d: u64| later_than(deadlines, now).count(d) > 0 ==> d > now,
        next == u64::MAX || next > now,
        later_than(later_than(deadlines, now), now) == later_than(deadlines, now),
{
    broadcast use vstd::multiset::group_multiset_axioms;

    let kept = later_than(deadlines, now);
    assert forall|d: u64| #[trigger] kept.count(d) > 0 implies d > now by {}
    assert forall|d: u64| #[trigger] later_than(kept, now).count(d) == kept.count(d) by {}
    assert(later_than(kept, now) =~= kept);
}

/// A trigger takes the deadlines in ascending order.
///
/// Of the deadlines that the queue holds at a trigger, every one that has come leaves
/// the queue, and every other stays. If `next` is the nearest of those that have not
/// come, the alarm state is `next` and the alarm timer is primed for it, so that the
/// next trigger is that of `next`. If every deadline has come, the queue is empty and
/// the alarm state is `u64::MAX`, which stands for no alarm.
pub proof fn lemma_trigger_takes_the_deadlines_in_order(
    before: TimerDriverView,
    alarm_before: Timer,
    counter: u32,
    after: TimerDriverView,
    alarm_after: Timer,
    next: u64,
)
    requires
        TimerDriver::spec_triggered(before, alarm_before, counter, after, alarm_after),
    ensures
        forall|d: u64| d <= before.now(counter) ==> #[trigger] after.pending.count(d) == 0,
        forall|d: u64| d > before.now(counter) ==> #[trigger] after.pending.count(d) == before.pending.count(d),
        (before.pending.count(next) > 0 && next > before.now(counter) && forall|d: u64|
            #[trigger] before.pending.count(d) > 0 && d > before.now(counter) ==> next <= d) ==> {
            &&& after.alarm_timestamp == next
            &&& alarm_after == spec_alarm_after_set(
                spec_disarmed(alarm_before),
                next,
                before.now(counter),
                before.setup.unwrap().scale,
            )
        },
        (forall|d: u64| #[trigger] before.pending.count(d) > 0 ==> d <= before.now(counter)) ==> {
            &&& after.pending == Multiset::<u64>::empty()
            &&& after.alarm_timestamp == u64::MAX
            &&& alarm_after == spec_alarm_after_set(
                spec_disarmed(alarm_before),
                u64::MAX,
                before.now(counter),
                before.setup.unwrap().scale,
            )
        },
{
    broadcast use vstd::multiset::group_multiset_axioms;

    let now = before.now(counter);
    assert forall|d: u64| d <= now implies #[trigger] after.pending.count(d) == 0 by {}
    assert forall|d: u64| d > now implies #[trigger] after.pending.count(d) == before.pending.count(d) by {}
    if before.pending.count(next) > 0 && next > now && forall|d: u64|
        #[trigger] before.pending.count(d) > 0 && d > now ==> next <= d {
        assert(after.pending.count(next) > 0);
        if after.alarm_timestamp != u64::MAX {
            assert(after.pending.count(after.alarm_timestamp) > 0);
            assert(before.pending.count(after.alarm_timestamp) > 0);
        }
    }
    if forall|d: u64| #[trigger] before.pending.count(d) > 0 ==> d <= now {
        assert forall|d: u64| after.pending.count(d) == 0 by {
            if d > now {
                assert(before.pending.count(d) == 0);
            }
        }
        assert(after.pending =~= Multiset::<u64>::empty());
    }
}

} // verus!
