//! The interrupt dispatcher of the GPIO ports and the waits on pins.
use std::sync::atomic::{AtomicUsize, Ordering};
use std::sync::{Arc, Mutex};
use std::task::{Wake, Waker};

use vorago_shared_hal::gpio::asynch::{
    on_interrupt_for_async_gpio_for_port, on_interrupt_for_port, AsyncGpioRegistry, InputPinAsync,
    InputPinFuture, LevelWait, PortWakeTable,
};
use vorago_shared_hal::gpio::ll::{InterruptEdge, PortDoesNotSupportInterrupts};
use vorago_shared_hal::gpio::regs::Gpio;
use vorago_shared_hal::gpio::Input;
use vorago_shared_hal::ioconfig::regs::IoConfig;
use vorago_shared_hal::pins::{Pa3, Pa5, Pb7, Pg2, Pin};
use vorago_shared_hal::wake::Poll;
use vorago_shared_hal::{Interrupt, Nvic, Port};

struct CountingWaker {
    count: AtomicUsize,
}

impl Wake for CountingWaker {
    fn wake(self: Arc<Self>) {
        self.count.fetch_add(1, Ordering::SeqCst);
    }
}

fn counting_waker() -> (Arc<CountingWaker>, Waker) {
    let counter = Arc::new(CountingWaker { count: AtomicUsize::new(0) });
    (counter.clone(), Waker::from(counter))
}

/// A wake handle that writes its name into a shared log when it is signalled.
struct LoggingWaker {
    name: usize,
    log: Arc<Mutex<Vec<usize>>>,
}

impl Wake for LoggingWaker {
    fn wake(self: Arc<Self>) {
        self.log.lock().unwrap().push(self.name);
    }
}

fn logging_waker(name: usize, log: &Arc<Mutex<Vec<usize>>>) -> Waker {
    Waker::from(Arc::new(LoggingWaker { name, log: log.clone() }))
}

struct Board {
    gpio_a: Gpio,
    ioconfig: IoConfig,
    nvic: Nvic,
    registry: AsyncGpioRegistry,
}

fn board() -> Board {
    Board {
        gpio_a: Gpio::new_mmio(Port::A),
        ioconfig: IoConfig::new_mmio(),
        nvic: Nvic::new(),
        registry: AsyncGpioRegistry::new(),
    }
}

fn flags(table: &PortWakeTable) -> Vec<bool> {
    (0..16).map(|i| table.edge_detected(i)).collect()
}

#[test]
fn new_registry_is_empty() {
    let registry = AsyncGpioRegistry::new();
    for port in [Port::A, Port::B, Port::C, Port::D, Port::E, Port::F] {
        assert_eq!(flags(registry.table(port)), vec![false; 16]);
    }
}

#[test]
fn edge_without_enabled_interrupt_leaves_the_flag_clear() {
    let mut b = board();
    let (counter, waker) = counting_waker();
    let mut pin = Input::new_floating(Pin::<Pa3>::__new(), &mut b.gpio_a, &mut b.ioconfig);
    let fut =
        InputPinFuture::new_with_input_pin(&mut pin, &mut b.gpio_a, &mut b.nvic, &mut b.registry, InterruptEdge::LowToHigh)
            .unwrap();
    assert_eq!(fut.poll(&mut b.registry, &waker), Poll::Pending);
    // The edge is latched, but the interrupt of the pin is not enabled.
    b.gpio_a.irq_enable = 0;
    b.gpio_a.edge_status = 1 << 3;
    assert_eq!(on_interrupt_for_async_gpio_for_port(Port::A, &b.gpio_a, &mut b.registry), Ok(()));
    assert_eq!(flags(b.registry.table(Port::A)), vec![false; 16]);
    assert_eq!(counter.count.load(Ordering::SeqCst), 0);
    assert_eq!(fut.poll(&mut b.registry, &waker), Poll::Pending);
}

#[test]
fn edge_with_enabled_interrupt_sets_the_flag_and_wakes_the_slot() {
    let mut b = board();
    let (counter3, waker3) = counting_waker();
    let (counter7, waker7) = counting_waker();
    let mut pin3 = Input::new_floating(Pin::<Pa3>::__new(), &mut b.gpio_a, &mut b.ioconfig);
    let mut pin5 = Input::new_floating(Pin::<Pa5>::__new(), &mut b.gpio_a, &mut b.ioconfig);
    let fut3 =
        InputPinFuture::new_with_input_pin(&mut pin3, &mut b.gpio_a, &mut b.nvic, &mut b.registry, InterruptEdge::LowToHigh)
            .unwrap();
    let fut5 =
        InputPinFuture::new_with_input_pin(&mut pin5, &mut b.gpio_a, &mut b.nvic, &mut b.registry, InterruptEdge::HighToLow)
            .unwrap();
    assert_eq!(fut3.poll(&mut b.registry, &waker3), Poll::Pending);
    assert_eq!(fut5.poll(&mut b.registry, &waker7), Poll::Pending);
    assert_eq!(b.gpio_a.irq_enable, 0b101000);
    // Only pin 3 interrupts.
    b.gpio_a.irq_enable = 0b001000;
    b.gpio_a.edge_status = 0b001000;
    assert_eq!(on_interrupt_for_async_gpio_for_port(Port::A, &b.gpio_a, &mut b.registry), Ok(()));
    let mut expected = vec![false; 16];
    expected[3] = true;
    assert_eq!(flags(b.registry.table(Port::A)), expected);
    assert_eq!(counter3.count.load(Ordering::SeqCst), 1);
    assert_eq!(counter7.count.load(Ordering::SeqCst), 0);
    // The other ports are not touched.
    assert_eq!(flags(b.registry.table(Port::B)), vec![false; 16]);
    assert_eq!(fut3.poll(&mut b.registry, &waker3), Poll::Ready(()));
    // The flag is consumed.
    assert_eq!(fut3.poll(&mut b.registry, &waker3), Poll::Pending);
    assert_eq!(fut5.poll(&mut b.registry, &waker7), Poll::Pending);
    // The wake handle of pin 3 has stayed in its slot: a second interrupt signals it again.
    assert_eq!(on_interrupt_for_async_gpio_for_port(Port::A, &b.gpio_a, &mut b.registry), Ok(()));
    assert_eq!(counter3.count.load(Ordering::SeqCst), 2);
    assert_eq!(counter7.count.load(Ordering::SeqCst), 0);
}

#[test]
fn two_waits_on_one_port_are_woken_in_the_order_of_their_pins() {
    let mut b = board();
    let log = Arc::new(Mutex::new(Vec::new()));
    let mut pin3 = Input::new_floating(Pin::<Pa3>::__new(), &mut b.gpio_a, &mut b.ioconfig);
    let mut pin5 = Input::new_floating(Pin::<Pa5>::__new(), &mut b.gpio_a, &mut b.ioconfig);
    let fut5 =
        InputPinFuture::new_with_input_pin(&mut pin5, &mut b.gpio_a, &mut b.nvic, &mut b.registry, InterruptEdge::BothEdges)
            .unwrap();
    let fut3 =
        InputPinFuture::new_with_input_pin(&mut pin3, &mut b.gpio_a, &mut b.nvic, &mut b.registry, InterruptEdge::BothEdges)
            .unwrap();
    // Registered in the other order.
    assert_eq!(fut5.poll(&mut b.registry, &logging_waker(5, &log)), Poll::Pending);
    assert_eq!(fut3.poll(&mut b.registry, &logging_waker(3, &log)), Poll::Pending);
    assert_eq!(b.gpio_a.irq_enable, 0b101000);
    b.gpio_a.edge_status = 0b101000;
    assert_eq!(on_interrupt_for_async_gpio_for_port(Port::A, &b.gpio_a, &mut b.registry), Ok(()));
    assert_eq!(*log.lock().unwrap(), vec![3, 5]);
    let mut expected = vec![false; 16];
    expected[3] = true;
    expected[5] = true;
    assert_eq!(flags(b.registry.table(Port::A)), expected);
    assert_eq!(fut3.poll(&mut b.registry, &logging_waker(3, &log)), Poll::Ready(()));
    assert_eq!(fut5.poll(&mut b.registry, &logging_waker(5, &log)), Poll::Ready(()));
    assert_eq!(*log.lock().unwrap(), vec![3, 5]);
}

#[test]
fn dispatch_handles_every_enabled_pin() {
    let mut table = PortWakeTable::new();
    on_interrupt_for_port(0xffff, 0xffff_ffff, &mut table);
    assert_eq!(flags(&table), vec![true; 16]);
    let mut table = PortWakeTable::new();
    on_interrupt_for_port(0x8001, 0xc001, &mut table);
    let mut expected = vec![false; 16];
    expected[0] = true;
    expected[15] = true;
    assert_eq!(flags(&table), expected);
    let mut table = PortWakeTable::new();
    on_interrupt_for_port(0, 0xffff, &mut table);
    assert_eq!(flags(&table), vec![false; 16]);
}

#[test]
fn dispatch_keeps_a_flag_that_was_set() {
    let mut table = PortWakeTable::new();
    on_interrupt_for_port(0b10, 0b10, &mut table);
    on_interrupt_for_port(0b100, 0b100, &mut table);
    let mut expected = vec![false; 16];
    expected[1] = true;
    expected[2] = true;
    assert_eq!(flags(&table), expected);
}

#[test]
fn wake_without_waiter_is_harmless() {
    let mut b = board();
    b.gpio_a.irq_enable = 0b100;
    b.gpio_a.edge_status = 0b100;
    assert_eq!(on_interrupt_for_async_gpio_for_port(Port::A, &b.gpio_a, &mut b.registry), Ok(()));
    assert!(b.registry.table(Port::A).edge_detected(2));
}

#[test]
fn port_g_is_refused_by_the_dispatcher() {
    let mut b = board();
    let mut gpio_g = Gpio::new_mmio(Port::G);
    gpio_g.irq_enable = 0b1;
    gpio_g.edge_status = 0;
    assert_eq!(
        on_interrupt_for_async_gpio_for_port(Port::G, &gpio_g, &mut b.registry),
        Err(PortDoesNotSupportInterrupts)
    );
    for port in [Port::A, Port::B, Port::C, Port::D, Port::E, Port::F] {
        assert_eq!(flags(b.registry.table(port)), vec![false; 16]);
    }
}

#[test]
fn port_g_is_refused_by_the_waits() {
    let mut b = board();
    let mut gpio_g = Gpio::new_mmio(Port::G);
    let mut pin = Input::new_floating(Pin::<Pg2>::__new(), &mut gpio_g, &mut b.ioconfig);
    let before = gpio_g;
    let res =
        InputPinFuture::new_with_input_pin(&mut pin, &mut gpio_g, &mut b.nvic, &mut b.registry, InterruptEdge::LowToHigh);
    assert!(res.is_err());
    assert_eq!(gpio_g, before);
    assert_eq!(pin.enable_interrupt(&mut gpio_g, &mut b.nvic, true), Err(PortDoesNotSupportInterrupts));
    assert_eq!(gpio_g, before);
    assert!(InputPinAsync::new(pin).is_err());
}

#[test]
fn wait_construction_arms_the_pin_and_clears_the_flag() {
    let mut b = board();
    let mut gpio_b = Gpio::new_mmio(Port::B);
    // An edge that was left over by an earlier wait.
    gpio_b.irq_enable = 1 << 7;
    gpio_b.edge_status = 1 << 7;
    on_interrupt_for_async_gpio_for_port(Port::B, &gpio_b, &mut b.registry).unwrap();
    assert!(b.registry.table(Port::B).edge_detected(7));
    gpio_b.irq_enable = 0;
    gpio_b.irq_sen = 0xffff;
    let mut pin = Input::new_floating(Pin::<Pb7>::__new(), &mut gpio_b, &mut b.ioconfig);
    let fut =
        InputPinFuture::new_with_input_pin(&mut pin, &mut gpio_b, &mut b.nvic, &mut b.registry, InterruptEdge::LowToHigh)
            .unwrap();
    assert!(!b.registry.table(Port::B).edge_detected(7));
    assert_eq!(gpio_b.irq_sen, 0xffff & !(1 << 7));
    assert_eq!(gpio_b.irq_evt, 1 << 7);
    assert_eq!(gpio_b.irq_edge, 0);
    assert_eq!(gpio_b.irq_enable, 1 << 7);
    // Port B starts at line 94.
    assert!(b.nvic.is_enabled(Interrupt { number: 94 + 7 }));
    assert!(!b.nvic.is_enabled(Interrupt { number: 94 + 6 }));
    fut.cancel(&mut gpio_b);
    assert_eq!(gpio_b.irq_enable, 0);
}

#[test]
fn edges_are_programmed_as_asked() {
    let mut b = board();
    let mut pin = Input::new_floating(Pin::<Pa5>::__new(), &mut b.gpio_a, &mut b.ioconfig);
    b.gpio_a.irq_evt = 0xffff;
    let fut =
        InputPinFuture::new_with_input_pin(&mut pin, &mut b.gpio_a, &mut b.nvic, &mut b.registry, InterruptEdge::HighToLow)
            .unwrap();
    assert_eq!(b.gpio_a.irq_evt, 0xffff & !(1 << 5));
    assert_eq!(b.gpio_a.irq_edge, 0);
    fut.cancel(&mut b.gpio_a);
    let fut =
        InputPinFuture::new_with_input_pin(&mut pin, &mut b.gpio_a, &mut b.nvic, &mut b.registry, InterruptEdge::BothEdges)
            .unwrap();
    assert_eq!(b.gpio_a.irq_edge, 1 << 5);
    assert_eq!(b.gpio_a.irq_enable, 1 << 5);
    fut.cancel(&mut b.gpio_a);
}

#[test]
fn wait_for_high_on_a_high_pin_is_over_at_once() {
    let mut b = board();
    let (counter, _waker) = counting_waker();
    let pin = Input::new_floating(Pin::<Pa3>::__new(), &mut b.gpio_a, &mut b.ioconfig);
    let mut pin = InputPinAsync::new(pin).unwrap();
    b.gpio_a.data_in = 1 << 3;
    let res = pin.wait_for_high(&mut b.gpio_a, &mut b.nvic, &mut b.registry);
    assert!(matches!(res, LevelWait::Satisfied));
    // No edge was seen, and none is needed.
    assert!(!b.registry.table(Port::A).edge_detected(3));
    assert_eq!(counter.count.load(Ordering::SeqCst), 0);
    // The wait was armed for the rising edge and given up: the interrupt is off again.
    assert_eq!(b.gpio_a.irq_evt, 1 << 3);
    assert_eq!(b.gpio_a.irq_enable, 0);
}

#[test]
fn wait_for_high_on_a_low_pin_waits_for_the_rising_edge() {
    let mut b = board();
    let (counter, waker) = counting_waker();
    let pin = Input::new_floating(Pin::<Pa3>::__new(), &mut b.gpio_a, &mut b.ioconfig);
    let mut pin = InputPinAsync::new(pin).unwrap();
    b.gpio_a.data_in = !(1 << 3);
    let fut = match pin.wait_for_high(&mut b.gpio_a, &mut b.nvic, &mut b.registry) {
        LevelWait::Waiting(fut) => fut,
        LevelWait::Satisfied => panic!("the pin is low"),
    };
    assert_eq!(b.gpio_a.irq_enable, 1 << 3);
    assert_eq!(b.gpio_a.irq_evt, 1 << 3);
    assert_eq!(fut.poll(&mut b.registry, &waker), Poll::Pending);
    b.gpio_a.edge_status = 1 << 3;
    on_interrupt_for_async_gpio_for_port(Port::A, &b.gpio_a, &mut b.registry).unwrap();
    assert_eq!(counter.count.load(Ordering::SeqCst), 1);
    assert_eq!(fut.poll(&mut b.registry, &waker), Poll::Ready(()));
    fut.cancel(&mut b.gpio_a);
    assert_eq!(b.gpio_a.irq_enable, 0);
}

#[test]
fn wait_for_low_looks_at_the_level() {
    let mut b = board();
    let pin = Input::new_floating(Pin::<Pa5>::__new(), &mut b.gpio_a, &mut b.ioconfig);
    let mut pin = InputPinAsync::new(pin).unwrap();
    b.gpio_a.data_in = 0;
    b.gpio_a.irq_evt = 1 << 5;
    assert!(matches!(pin.wait_for_low(&mut b.gpio_a, &mut b.nvic, &mut b.registry), LevelWait::Satisfied));
    assert_eq!(b.gpio_a.irq_evt, 0);
    assert_eq!(b.gpio_a.irq_enable, 0);
    b.gpio_a.data_in = 1 << 5;
    assert!(matches!(pin.wait_for_low(&mut b.gpio_a, &mut b.nvic, &mut b.registry), LevelWait::Waiting(_)));
    assert_eq!(b.gpio_a.irq_enable, 1 << 5);
}

#[test]
fn edge_waits_arm_their_edge() {
    let mut b = board();
    let pin = Input::new_floating(Pin::<Pa5>::__new(), &mut b.gpio_a, &mut b.ioconfig);
    let mut pin = InputPinAsync::new(pin).unwrap();
    let fut = pin.wait_for_rising_edge(&mut b.gpio_a, &mut b.nvic, &mut b.registry);
    assert_eq!(b.gpio_a.irq_evt, 1 << 5);
    fut.cancel(&mut b.gpio_a);
    let fut = pin.wait_for_falling_edge(&mut b.gpio_a, &mut b.nvic, &mut b.registry);
    assert_eq!(b.gpio_a.irq_evt, 0);
    assert_eq!(b.gpio_a.irq_edge, 0);
    fut.cancel(&mut b.gpio_a);
    let fut = pin.wait_for_any_edge(&mut b.gpio_a, &mut b.nvic, &mut b.registry);
    assert_eq!(b.gpio_a.irq_edge, 1 << 5);
    assert_eq!(b.gpio_a.irq_enable, 1 << 5);
    fut.cancel(&mut b.gpio_a);
    let pin = pin.release();
    assert_eq!(pin.id().offset(), 5);
    assert_eq!(pin.id().port(), Port::A);
}

#[test]
fn second_registration_replaces_the_first() {
    let mut b = board();
    let (first, waker1) = counting_waker();
    let (second, waker2) = counting_waker();
    let mut pin = Input::new_floating(Pin::<Pa3>::__new(), &mut b.gpio_a, &mut b.ioconfig);
    let fut =
        InputPinFuture::new_with_input_pin(&mut pin, &mut b.gpio_a, &mut b.nvic, &mut b.registry, InterruptEdge::LowToHigh)
            .unwrap();
    assert_eq!(fut.poll(&mut b.registry, &waker1), Poll::Pending);
    assert_eq!(fut.poll(&mut b.registry, &waker2), Poll::Pending);
    b.gpio_a.edge_status = 1 << 3;
    on_interrupt_for_async_gpio_for_port(Port::A, &b.gpio_a, &mut b.registry).unwrap();
    assert_eq!(first.count.load(Ordering::SeqCst), 0);
    assert_eq!(second.count.load(Ordering::SeqCst), 1);
}
