//! The monotonic clock and the alarm scheduler on simulated timers.
use std::sync::atomic::{AtomicUsize, Ordering};
use std::sync::Arc;
use std::task::{Wake, Waker};

use vorago_shared_hal::clock::Clocks;
use vorago_shared_hal::embassy::{ClockRead, DriverSetup, TimerDriver};
use vorago_shared_hal::sysconfig::Sysconfig;
use vorago_shared_hal::time::Hertz;
use vorago_shared_hal::timer::regs::{TimId, Timer};
use vorago_shared_hal::{Interrupt, Nvic};

struct CountingWaker {
    count: AtomicUsize,
}

impl Wake for CountingWaker {
    fn wake(self: Arc<Self>) {
        self.count.fetch_add(1, Ordering::SeqCst);
    }
}

fn counting_waker() -> (Arc<CountingWaker>, Waker) {
    let counter = Arc::new(CountingWaker { count: AtomicUsize::new(0) });
    (counter.clone(), Waker::from(counter))
}

/// The two timers as hardware that runs: the timekeeper counts down and wraps, the alarm
/// timer counts down while it is enabled and interrupts at 0.
struct Sim {
    driver: TimerDriver,
    timekeeper: Timer,
    alarm: Timer,
    sysconfig: Sysconfig,
    nvic: Nvic,
    /// How often the alarm interrupt was served.
    alarm_interrupts: usize,
}

impl Sim {
    /// A driver that is initialized with `scale` ticks of the hardware per logical tick.
    fn new(scale: u32) -> Sim {
        let tick_hz = 1_000_000;
        let clocks = Clocks::__new(Hertz::from_raw(2 * scale * tick_hz), Hertz::from_raw(0));
        let mut sim = Sim {
            driver: TimerDriver::new(),
            timekeeper: Timer::new_mmio(TimId::new_unchecked(0)),
            alarm: Timer::new_mmio(TimId::new_unchecked(1)),
            sysconfig: Sysconfig::new(),
            nvic: Nvic::new(),
            alarm_interrupts: 0,
        };
        sim.driver.__init(
            TimId::new_unchecked(0),
            TimId::new_unchecked(1),
            &clocks,
            tick_hz,
            &mut sim.sysconfig,
            &mut sim.nvic,
            &mut sim.timekeeper,
            &mut sim.alarm,
        );
        sim
    }

    fn now(&self) -> u64 {
        self.driver.now(&self.timekeeper)
    }

    /// Lets the hardware run for `ticks` ticks and serves the interrupts on the way.
    fn advance(&mut self, mut ticks: u64) {
        while ticks > 0 {
            let to_wrap = self.timekeeper.count_value as u64 + 1;
            let alarm_runs = self.alarm.control.enable();
            let to_alarm = if alarm_runs { (self.alarm.count_value as u64).max(1) } else { u64::MAX };
            let step = ticks.min(to_wrap).min(to_alarm);
            ticks -= step;
            // The timekeeper.
            if step == to_wrap {
                self.timekeeper.count_value = self.timekeeper.reset_value;
            } else {
                self.timekeeper.count_value -= step as u32;
            }
            // The alarm timer.
            let mut alarm_fires = false;
            if alarm_runs {
                if step == to_alarm {
                    self.alarm.count_value = self.alarm.reset_value;
                    alarm_fires = self.alarm.control.irq_enable();
                } else {
                    self.alarm.count_value -= step as u32;
                }
            }
            if step == to_wrap {
                self.driver.on_interrupt_timekeeping(&self.timekeeper, &mut self.alarm);
            }
            if alarm_fires {
                self.alarm_interrupts += 1;
                self.driver.on_interrupt_alarm(&self.timekeeper, &mut self.alarm);
            }
        }
    }

    fn schedule(&mut self, at: u64, waker: &Waker) {
        self.driver.schedule_wake(&self.timekeeper, &mut self.alarm, at, waker);
    }
}

#[test]
fn now_is_zero_before_initialization() {
    let driver = TimerDriver::new();
    let mut timekeeper = Timer::new_mmio(TimId::new_unchecked(0));
    timekeeper.count_value = 12345;
    assert!(!driver.is_initialized());
    assert_eq!(driver.now(&timekeeper), 0);
    assert_eq!(driver.alarm_timestamp(), u64::MAX);
    assert_eq!(driver.periods(), 0);
}

#[test]
fn set_alarm_fails_before_initialization() {
    let mut driver = TimerDriver::new();
    let timekeeper = Timer::new_mmio(TimId::new_unchecked(0));
    let mut alarm = Timer::new_mmio(TimId::new_unchecked(1));
    let before = alarm;
    assert!(!driver.set_alarm(&timekeeper, &mut alarm, 100));
    assert_eq!(driver.alarm_timestamp(), u64::MAX);
    assert_eq!(alarm, before);
}

#[test]
fn init_programs_both_timers() {
    let sim = Sim::new(1);
    assert_eq!(
        sim.driver.setup(),
        Some(DriverSetup {
            scale: 1,
            timekeeper_tim: TimId::new_unchecked(0),
            alarm_tim: TimId::new_unchecked(1),
        })
    );
    assert_eq!(sim.timekeeper.reset_value, u32::MAX);
    assert_eq!(sim.timekeeper.count_value, u32::MAX);
    assert!(sim.timekeeper.control.irq_enable());
    assert!(sim.timekeeper.control.enable());
    assert!(sim.timekeeper.enable_control.enabled());
    assert!(!sim.alarm.control.irq_enable());
    assert!(!sim.alarm.control.enable());
    // Clock gates of timer 0 and 1, and both released from reset.
    assert_eq!(sim.sysconfig.tim_clk_enable, 0b11);
    assert_eq!(sim.sysconfig.tim_reset, 0xffff_ffff);
    assert!(sim.nvic.is_enabled(Interrupt { number: 48 }));
    assert!(sim.nvic.is_enabled(Interrupt { number: 49 }));
    assert!(!sim.nvic.is_enabled(Interrupt { number: 50 }));
    assert_eq!(sim.now(), 0);
}

#[test]
fn init_is_done_once() {
    let mut sim = Sim::new(4);
    assert_eq!(sim.driver.setup().unwrap().scale, 4);
    sim.advance(4_000);
    let timekeeper = sim.timekeeper;
    let alarm = sim.alarm;
    let sysconfig = sim.sysconfig;
    let clocks = Clocks::__new(Hertz::from_raw(100_000_000), Hertz::from_raw(0));
    sim.driver.__init(
        TimId::new_unchecked(5),
        TimId::new_unchecked(6),
        &clocks,
        1_000,
        &mut sim.sysconfig,
        &mut sim.nvic,
        &mut sim.timekeeper,
        &mut sim.alarm,
    );
    assert_eq!(sim.driver.setup().unwrap().scale, 4);
    assert_eq!(sim.driver.timekeeper_tim(), TimId::new_unchecked(0));
    assert_eq!(sim.driver.alarm_tim(), TimId::new_unchecked(1));
    assert_eq!(sim.timekeeper, timekeeper);
    assert_eq!(sim.alarm, alarm);
    assert_eq!(sim.sysconfig, sysconfig);
    assert!(!sim.nvic.is_enabled(Interrupt { number: 53 }));
    assert_eq!(sim.now(), 1_000);
}

#[test]
fn now_divides_the_hardware_ticks_by_the_scale() {
    let mut sim = Sim::new(50);
    sim.advance(50 * 7 + 49);
    assert_eq!(sim.now(), 7);
    sim.advance(1);
    assert_eq!(sim.now(), 8);
    // ((2 << 32) | 99) / 50
    sim.advance((2u64 << 32) - 400 + 99);
    assert_eq!(sim.driver.periods(), 2);
    assert_eq!(sim.now(), ((2u64 << 32) | 99) / 50);
    assert_eq!(sim.now(), 171_798_693);
}

#[test]
fn now_from_reads_gives_the_time_of_a_consistent_read() {
    let read = ClockRead { period1: 3, counter: u32::MAX - 10, period2: 3 };
    assert_eq!(TimerDriver::now_from_reads(read, 1), Some((3u64 << 32) | 10));
    assert_eq!(TimerDriver::now_from_reads(read, 7), Some(((3u64 << 32) | 10) / 7));
    let read = ClockRead { period1: 0, counter: u32::MAX, period2: 0 };
    assert_eq!(TimerDriver::now_from_reads(read, 1), Some(0));
    let read = ClockRead { period1: u32::MAX, counter: 0, period2: u32::MAX };
    assert_eq!(TimerDriver::now_from_reads(read, 1), Some(u64::MAX));
}

#[test]
fn now_from_reads_retries_after_a_wrap_between_the_reads() {
    // The timekeeper wrapped between the two reads of the wrap count: the counter is near
    // its top again, and with the old wrap count the time would go back.
    let torn = ClockRead { period1: 4, counter: u32::MAX - 2, period2: 5 };
    assert_eq!(TimerDriver::now_from_reads(torn, 1), None);
    let before = TimerDriver::now_from_reads(ClockRead { period1: 4, counter: 1, period2: 4 }, 1).unwrap();
    let again = TimerDriver::now_from_reads(ClockRead { period1: 5, counter: u32::MAX - 3, period2: 5 }, 1).unwrap();
    assert!(before <= again);
    assert_eq!(again, (5u64 << 32) | 3);
}

#[test]
fn now_never_goes_back_across_calls_and_wraps() {
    let mut sim = Sim::new(3);
    let (_counter, waker) = counting_waker();
    let mut last = sim.now();
    let steps = [1u64, 2, 5, 1 << 31, 1 << 31, 7, (1 << 32) - 9, 3, 1 << 33, 11];
    for (i, step) in steps.iter().enumerate() {
        sim.advance(*step);
        let now = sim.now();
        assert!(now >= last);
        last = now;
        // Calls in between do not move the clock.
        sim.schedule(now + 100 + i as u64, &waker);
        let timestamp = now + 5;
        sim.driver.set_alarm(&sim.timekeeper, &mut sim.alarm, timestamp);
        assert_eq!(sim.now(), now);
    }
    assert_eq!(sim.driver.periods(), 4);
}

#[test]
fn set_alarm_in_the_past_fails_and_leaves_the_sentinel() {
    let mut sim = Sim::new(1);
    sim.advance(500);
    assert_eq!(sim.now(), 500);
    for timestamp in [0u64, 1, 499, 500] {
        assert!(!sim.driver.set_alarm(&sim.timekeeper, &mut sim.alarm, timestamp));
        assert_eq!(sim.driver.alarm_timestamp(), u64::MAX);
        assert!(!sim.alarm.control.enable());
        assert!(!sim.alarm.control.irq_enable());
    }
    // A failure takes an alarm that was set with it.
    assert!(sim.driver.set_alarm(&sim.timekeeper, &mut sim.alarm, 900));
    assert_eq!(sim.driver.alarm_timestamp(), 900);
    assert!(!sim.driver.set_alarm(&sim.timekeeper, &mut sim.alarm, 500));
    assert_eq!(sim.driver.alarm_timestamp(), u64::MAX);
    assert!(!sim.alarm.control.enable());
}

#[test]
fn set_alarm_arms_the_hardware_for_the_deadline() {
    let mut sim = Sim::new(10);
    sim.advance(10 * 100);
    assert!(sim.driver.set_alarm(&sim.timekeeper, &mut sim.alarm, 350));
    assert_eq!(sim.driver.alarm_timestamp(), 350);
    assert_eq!(sim.alarm.reset_value, u32::MAX);
    // (350 - 100) logical ticks of 10 hardware ticks each.
    assert_eq!(sim.alarm.count_value, 2_500);
    assert!(sim.alarm.control.enable());
    assert!(sim.alarm.control.irq_enable());
    assert!(sim.alarm.enable_control.enabled());
}

#[test]
fn set_alarm_keeps_three_ticks_of_distance() {
    let mut sim = Sim::new(2);
    sim.advance(2 * 40);
    // One tick ahead is primed as three ticks ahead: two ticks late at the most.
    assert!(sim.driver.set_alarm(&sim.timekeeper, &mut sim.alarm, 41));
    assert_eq!(sim.driver.alarm_timestamp(), 41);
    assert_eq!(sim.alarm.count_value, 6);
    assert!(sim.driver.set_alarm(&sim.timekeeper, &mut sim.alarm, 42));
    assert_eq!(sim.alarm.count_value, 6);
    assert!(sim.driver.set_alarm(&sim.timekeeper, &mut sim.alarm, 43));
    assert_eq!(sim.alarm.count_value, 6);
    assert!(sim.driver.set_alarm(&sim.timekeeper, &mut sim.alarm, 44));
    assert_eq!(sim.alarm.count_value, 8);
}

#[test]
fn set_alarm_beyond_the_reach_of_the_timer_leaves_it_off() {
    let mut sim = Sim::new(1);
    sim.advance(10);
    // 2^32 ticks ahead do not fit the counter.
    let far = 10 + (1u64 << 32);
    assert!(sim.driver.set_alarm(&sim.timekeeper, &mut sim.alarm, far));
    assert_eq!(sim.driver.alarm_timestamp(), far);
    assert!(!sim.alarm.control.enable());
    assert!(!sim.alarm.control.irq_enable());
    assert_eq!(sim.alarm.reset_value, u32::MAX);
    // The largest distance that fits.
    assert!(sim.driver.set_alarm(&sim.timekeeper, &mut sim.alarm, far - 1));
    assert!(sim.alarm.control.enable());
    assert_eq!(sim.alarm.count_value, u32::MAX);
    // The sentinel itself is accepted as a deadline, and is out of reach.
    assert!(sim.driver.set_alarm(&sim.timekeeper, &mut sim.alarm, u64::MAX));
    assert_eq!(sim.driver.alarm_timestamp(), u64::MAX);
    assert!(!sim.alarm.control.enable());
}

#[test]
fn set_alarm_saturates_at_the_end_of_time() {
    let mut sim = Sim::new(1);
    // Put the clock two ticks before the end of the 64 bits.
    sim.timekeeper.count_value = 2;
    for _ in 0..3 {
        sim.driver.on_interrupt_timekeeping(&sim.timekeeper, &mut sim.alarm);
    }
    assert_eq!(sim.driver.periods(), 3);
    // The wrap count is whatever the handler has counted: take the time from the driver.
    let now = sim.now();
    assert_eq!(now, (3u64 << 32) | (u32::MAX as u64 - 2));
    assert!(sim.driver.set_alarm(&sim.timekeeper, &mut sim.alarm, now + 1));
    assert_eq!(sim.alarm.count_value, 3);
}

#[test]
fn schedule_wake_at_1000_fires_between_1000_and_1002() {
    let mut sim = Sim::new(1);
    let (counter, waker) = counting_waker();
    assert_eq!(sim.now(), 0);
    sim.schedule(1000, &waker);
    assert_eq!(sim.driver.alarm_timestamp(), 1000);
    assert_eq!(sim.alarm.count_value, 1000);
    assert!(sim.alarm.control.enable());
    // Nothing happens before the counter of the alarm timer has run down.
    sim.advance(999);
    assert_eq!(counter.count.load(Ordering::SeqCst), 0);
    assert_eq!(sim.alarm_interrupts, 0);
    // The counter reaches the programmed value.
    sim.advance(1);
    assert_eq!(sim.alarm_interrupts, 1);
    assert_eq!(counter.count.load(Ordering::SeqCst), 1);
    let now = sim.now();
    assert!((1000..=1002).contains(&now));
    assert_eq!(now, 1000);
    // The alarm is spent.
    assert_eq!(sim.driver.alarm_timestamp(), u64::MAX);
    assert!(!sim.alarm.control.enable());
    sim.advance(5000);
    assert_eq!(counter.count.load(Ordering::SeqCst), 1);
}

#[test]
fn alarms_fire_in_the_order_of_their_deadlines() {
    let mut sim = Sim::new(4);
    sim.advance(4 * 17);
    let deadlines = [18u64, 30, 31, 500, 501, 4_000, 70_000];
    let wakers: Vec<(Arc<CountingWaker>, Waker)> = deadlines.iter().map(|_| counting_waker()).collect();
    // Scheduled out of order.
    for i in [3usize, 0, 6, 1, 5, 2, 4] {
        sim.schedule(deadlines[i], &wakers[i].1);
    }
    assert_eq!(sim.driver.alarm_timestamp(), 18);
    let mut woken_at: Vec<Option<u64>> = vec![None; deadlines.len()];
    let mut order: Vec<usize> = Vec::new();
    for _ in 0..(4 * 80_000) {
        sim.advance(1);
        let now = sim.now();
        for (i, (counter, _)) in wakers.iter().enumerate() {
            if woken_at[i].is_none() && counter.count.load(Ordering::SeqCst) > 0 {
                woken_at[i] = Some(now);
                order.push(i);
            }
        }
    }
    assert_eq!(order, vec![0, 1, 2, 3, 4, 5, 6]);
    for (i, deadline) in deadlines.iter().enumerate() {
        let at = woken_at[i].unwrap();
        assert!(at >= *deadline);
        assert!(at <= *deadline + 2);
        assert_eq!(wakers[i].0.count.load(Ordering::SeqCst), 1);
    }
    // The deadline one tick ahead is the one that is late, by two ticks.
    assert_eq!(woken_at[0], Some(20));
    assert_eq!(woken_at[1], Some(30));
    assert_eq!(woken_at[3], Some(500));
    assert_eq!(sim.driver.alarm_timestamp(), u64::MAX);
}

#[test]
fn schedule_wake_of_an_earlier_deadline_moves_the_alarm() {
    let mut sim = Sim::new(1);
    let (_c1, w1) = counting_waker();
    let (_c2, w2) = counting_waker();
    sim.schedule(5_000, &w1);
    assert_eq!(sim.driver.alarm_timestamp(), 5_000);
    assert_eq!(sim.alarm.count_value, 5_000);
    sim.schedule(9_000, &w2);
    assert_eq!(sim.driver.alarm_timestamp(), 5_000);
    sim.advance(100);
    sim.schedule(2_000, &w2);
    assert_eq!(sim.driver.alarm_timestamp(), 2_000);
    assert_eq!(sim.alarm.count_value, 1_900);
    // A later deadline for a task that waits for an earlier one changes nothing.
    let alarm = sim.alarm;
    sim.schedule(3_000, &w2);
    assert_eq!(sim.driver.alarm_timestamp(), 2_000);
    assert_eq!(sim.alarm, alarm);
}

#[test]
fn schedule_wake_of_a_deadline_that_has_come_wakes_at_once() {
    let mut sim = Sim::new(1);
    sim.advance(700);
    let (counter, waker) = counting_waker();
    sim.schedule(700, &waker);
    assert_eq!(counter.count.load(Ordering::SeqCst), 1);
    assert_eq!(sim.driver.alarm_timestamp(), u64::MAX);
    assert!(!sim.alarm.control.enable());
}

#[test]
fn stale_alarm_interrupt_is_ignored() {
    let mut sim = Sim::new(1);
    let (counter, waker) = counting_waker();
    sim.schedule(1_000, &waker);
    sim.advance(10);
    let alarm = sim.alarm;
    sim.driver.on_interrupt_alarm(&sim.timekeeper, &mut sim.alarm);
    assert_eq!(counter.count.load(Ordering::SeqCst), 0);
    assert_eq!(sim.driver.alarm_timestamp(), 1_000);
    assert_eq!(sim.alarm, alarm);
}

#[test]
fn wrap_brings_a_far_deadline_in_reach() {
    let mut sim = Sim::new(1);
    let (counter, waker) = counting_waker();
    let deadline = (1u64 << 32) + 250;
    sim.schedule(deadline, &waker);
    assert_eq!(sim.driver.alarm_timestamp(), deadline);
    assert!(!sim.alarm.control.enable());
    // The first wrap loads the ticks that are left into the alarm timer.
    sim.advance(1 << 32);
    assert_eq!(sim.driver.periods(), 1);
    assert_eq!(sim.driver.alarm_timestamp(), deadline);
    assert!(sim.alarm.control.enable());
    assert!(sim.alarm.control.irq_enable());
    assert_eq!(sim.alarm.count_value, 250);
    assert_eq!(counter.count.load(Ordering::SeqCst), 0);
    sim.advance(249);
    assert_eq!(counter.count.load(Ordering::SeqCst), 0);
    sim.advance(1);
    assert_eq!(counter.count.load(Ordering::SeqCst), 1);
    assert_eq!(sim.now(), deadline);
}

#[test]
fn wrap_triggers_an_alarm_whose_deadline_lies_before_the_new_period() {
    let mut sim = Sim::new(1);
    let (counter, waker) = counting_waker();
    sim.advance((1u64 << 32) - 4);
    // Three ticks of distance put the hardware behind the wrap.
    sim.schedule((1u64 << 32) - 1, &waker);
    assert_eq!(sim.alarm.count_value, 3);
    // The alarm timer is stopped by hand, as if its interrupt were lost.
    sim.alarm.control = sim.alarm.control.with_enable(false);
    sim.advance(4);
    assert_eq!(sim.driver.periods(), 1);
    assert_eq!(counter.count.load(Ordering::SeqCst), 1);
    assert_eq!(sim.driver.alarm_timestamp(), u64::MAX);
}

#[test]
fn trigger_wakes_what_has_come_and_arms_for_the_next_deadline() {
    let mut sim = Sim::new(1);
    let (first, waker1) = counting_waker();
    let (second, waker2) = counting_waker();
    let (third, waker3) = counting_waker();
    sim.schedule(300, &waker3);
    sim.schedule(100, &waker1);
    sim.schedule(200, &waker2);
    assert_eq!(sim.driver.alarm_timestamp(), 100);
    // The hardware has run to the first deadline, and no interrupt was served.
    sim.timekeeper.count_value -= 150;
    assert_eq!(sim.now(), 150);
    sim.driver.trigger_alarm(&sim.timekeeper, &mut sim.alarm);
    assert_eq!(first.count.load(Ordering::SeqCst), 1);
    assert_eq!(second.count.load(Ordering::SeqCst), 0);
    assert_eq!(third.count.load(Ordering::SeqCst), 0);
    assert_eq!(sim.driver.alarm_timestamp(), 200);
    assert!(sim.alarm.control.enable());
    assert_eq!(sim.alarm.count_value, 50);
    // The next trigger is that of the second deadline.
    sim.timekeeper.count_value -= 50;
    sim.driver.trigger_alarm(&sim.timekeeper, &mut sim.alarm);
    assert_eq!(first.count.load(Ordering::SeqCst), 1);
    assert_eq!(second.count.load(Ordering::SeqCst), 1);
    assert_eq!(third.count.load(Ordering::SeqCst), 0);
    assert_eq!(sim.driver.alarm_timestamp(), 300);
    // With the last deadline gone, no alarm is left.
    sim.timekeeper.count_value -= 100;
    sim.driver.trigger_alarm(&sim.timekeeper, &mut sim.alarm);
    assert_eq!(third.count.load(Ordering::SeqCst), 1);
    assert_eq!(sim.driver.alarm_timestamp(), u64::MAX);
}
