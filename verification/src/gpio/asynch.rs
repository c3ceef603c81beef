//! Asynchronous waiting on GPIO pins.
//!
//! Each port that can raise interrupts has a table with a slot for a wake handle and an
//! edge flag for each of its pins. The interrupt handler of a port,
//! [`on_interrupt_for_async_gpio_for_port`], wakes the slots of the pins that have
//! interrupted and sets their edge flags. A wait, [`InputPinFuture`], arms the interrupt
//! of its pin; its poll registers the wake handle of the task and consumes the edge
//! flag. A slot serves one waiter: a second registration replaces the first.
use super::ll::{spec_edge_interrupt, DynPinId, InterruptEdge, LowLevelGpio, PortDoesNotSupportInterrupts};
use super::regs::Gpio;
use super::Input;
use crate::bits::{lemma_bit_mask, lemma_set_bit_get_bit, spec_get_bit, spec_set_bit};
use crate::wake::{Poll, WakeSlot};
use crate::{Nvic, Port, NUM_PORT_DEFAULT};
use core::task::Waker;
use vstd::prelude::*;

verus! {

/// Number of ports that can raise interrupts: the ports A to F.
pub const NUM_INTERRUPT_PORTS: usize = 6;

/// The wake handles and the edge flags of the pins of one port.
///
/// For the proofs alone, the table keeps a log of the wakes: the pins whose slots were
/// signalled, in the order in which they were.
pub struct PortWakeTable {
    wakers: Vec<WakeSlot>,
    edge_detection: Vec<bool>,
    wake_log: Ghost<Seq<nat>>,
}

/// The pins below `upto` whose bits are set in `mask`, in ascending order.
pub open spec fn spec_pins_ascending(mask: u32, upto: nat) -> Seq<nat>
    decreases upto,
{
    if upto == 0 {
        Seq::empty()
    } else {
        let pin = (upto - 1) as nat;
        if pin < 32 && spec_get_bit(mask, pin as u32) {
            spec_pins_ascending(mask, pin).push(pin)
        } else {
            spec_pins_ascending(mask, pin)
        }
    }
}

impl PortWakeTable {
    /// For each pin, whether a wake handle is registered.
    pub closed spec fn spec_registered(&self) -> Seq<bool> {
        Seq::new(self.wakers@.len(), |i: int| self.wakers@[i].is_registered())
    }

    /// For each pin, whether an edge was detected and not consumed.
    pub closed spec fn spec_edge_detected(&self) -> Seq<bool> {
        self.edge_detection@
    }

    /// For each pin, how often its slot was signalled since the table was made.
    pub closed spec fn spec_signals(&self) -> Seq<nat> {
        Seq::new(self.wakers@.len(), |i: int| self.wakers@[i].spec_signals())
    }

    /// The pins whose slots were signalled since the table was made, in the order of
    /// the wakes.
    pub closed spec fn spec_wake_log(&self) -> Seq<nat> {
        self.wake_log@
    }

    /// Whether no slot was signalled between the tables `before` and `after`.
    pub open spec fn spec_no_wake(before: PortWakeTable, after: PortWakeTable) -> bool {
        &&& after.spec_signals() == before.spec_signals()
        &&& after.spec_wake_log() == before.spec_wake_log()
    }

    /// The invariant of the type: the table has a slot and a flag for each of 16 pins.
    pub open spec fn wf(&self) -> bool {
        &&& self.spec_registered().len() == NUM_PORT_DEFAULT
        &&& self.spec_edge_detected().len() == NUM_PORT_DEFAULT
        &&& self.spec_signals().len() == NUM_PORT_DEFAULT
    }

    /// A table without wake handles and without edges.
    pub fn new() -> (table: PortWakeTable)
        ensures
            table.wf(),
            forall|i: int| 0 <= i < NUM_PORT_DEFAULT ==> !table.spec_registered()[i],
            forall|i: int| 0 <= i < NUM_PORT_DEFAULT ==> !table.spec_edge_detected()[i],
            forall|i: int| 0 <= i < NUM_PORT_DEFAULT ==> table.spec_signals()[i] == 0,
            table.spec_wake_log() == Seq::<nat>::empty(),
    {
        let mut wakers: Vec<WakeSlot> = Vec::new();
        let mut edge_detection: Vec<bool> = Vec::new();
        let mut i: usize = 0;
        while i < NUM_PORT_DEFAULT
            invariant
                i <= NUM_PORT_DEFAULT,
                wakers@.len() == i,
                edge_detection@.len() == i,
                forall|j: int| 0 <= j < i ==> !wakers@[j].is_registered(),
                forall|j: int| 0 <= j < i ==> wakers@[j].spec_signals() == 0,
                forall|j: int| 0 <= j < i ==> !edge_detection@[j],
            decreases NUM_PORT_DEFAULT - i,
        {
            wakers.push(WakeSlot::new());
            edge_detection.push(false);
            i += 1;
        }
        PortWakeTable { wakers, edge_detection, wake_log: Ghost(Seq::empty()) }
    }

    /// Whether an edge was detected on the pin `offset` and not consumed.
    pub fn edge_detected(&self, offset: usize) -> (detected: bool)
        requires
            self.wf(),
            offset < NUM_PORT_DEFAULT,
        ensures
            detected == self.spec_edge_detected()[offset as int],
    {
        self.edge_detection[offset]
    }

    /// Clears the edge flag of the pin `offset`.
    fn clear_edge(&mut self, offset: usize)
        requires
            old(self).wf(),
            offset < NUM_PORT_DEFAULT,
        ensures
            final(self).wf(),
            final(self).spec_registered() == old(self).spec_registered(),
            Self::spec_no_wake(*old(self), *final(self)),
            final(self).spec_edge_detected() == old(self).spec_edge_detected().update(offset as int, false),
    {
        self.edge_detection[offset] = false;
        assert(self.spec_registered() =~= old(self).spec_registered());
        assert(self.spec_signals() =~= old(self).spec_signals());
    }

    /// Signals the slot of the pin `offset`, which wakes the task whose wake handle is
    /// registered there, and sets the edge flag of the pin if `edge` is set.
    fn signal(&mut self, offset: usize, edge: bool)
        requires
            old(self).wf(),
            offset < NUM_PORT_DEFAULT,
        ensures
            final(self).wf(),
            final(self).spec_registered() == old(self).spec_registered(),
            final(self).spec_signals() == old(self).spec_signals().update(
                offset as int,
                old(self).spec_signals()[offset as int] + 1,
            ),
            final(self).spec_wake_log() == old(self).spec_wake_log().push(offset as nat),
            final(self).spec_edge_detected() == (if edge {
                old(self).spec_edge_detected().update(offset as int, true)
            } else {
                old(self).spec_edge_detected()
            }),
    {
        self.wakers[offset].wake();
        self.wake_log = Ghost(self.wake_log@.push(offset as nat));
        if edge {
            self.edge_detection[offset] = true;
        }
        assert(self.spec_registered() =~= old(self).spec_registered());
        assert(self.spec_signals() =~= old(self).spec_signals().update(
            offset as int,
            old(self).spec_signals()[offset as int] + 1,
        ));
    }

    /// Registers `waker` for the pin `offset` and consumes the edge flag of the pin.
    /// Returns whether the flag was set.
    fn register_and_consume(&mut self, offset: usize, waker: &Waker) -> (detected: bool)
        requires
            old(self).wf(),
            offset < NUM_PORT_DEFAULT,
        ensures
            final(self).wf(),
            detected == old(self).spec_edge_detected()[offset as int],
            final(self).spec_registered() == old(self).spec_registered().update(offset as int, true),
            Self::spec_no_wake(*old(self), *final(self)),
            final(self).spec_edge_detected() == old(self).spec_edge_detected().update(offset as int, false),
    {
        self.wakers[offset].register(waker);
        let detected = self.edge_detection[offset];
        self.edge_detection[offset] = false;
        assert(self.spec_registered() =~= old(self).spec_registered().update(offset as int, true));
        assert(self.spec_signals() =~= old(self).spec_signals());
        detected
    }
}

/// The tables of all ports that can raise interrupts. There is one registry for the
/// whole program. It is made once and its tables are never replaced.
pub struct AsyncGpioRegistry {
    ports: Vec<PortWakeTable>,
}

impl AsyncGpioRegistry {
    /// The tables of the ports A to F, in that order.
    pub closed spec fn spec_tables(&self) -> Seq<PortWakeTable> {
        self.ports@
    }

    /// The table of the port `port`, which is one of A to F.
    pub open spec fn spec_table(&self, port: Port) -> PortWakeTable {
        self.spec_tables()[port.index() as int]
    }

    /// The invariant of the type: there is a table for each of the ports A to F.
    pub open spec fn wf(&self) -> bool {
        &&& self.spec_tables().len() == NUM_INTERRUPT_PORTS
        &&& forall|i: int| 0 <= i < NUM_INTERRUPT_PORTS ==> (#[trigger] self.spec_tables()[i]).wf()
    }

    /// Whether `after` is `before` with nothing changed but the table of `port`.
    pub open spec fn spec_only_changes(before: AsyncGpioRegistry, port: Port, after: AsyncGpioRegistry) -> bool {
        after.spec_tables() == before.spec_tables().update(port.index() as int, after.spec_table(port))
    }

    /// The registry without wake handles and without edges.
    pub fn new() -> (registry: AsyncGpioRegistry)
        ensures
            registry.wf(),
            forall|p: int, i: int|
                0 <= p < NUM_INTERRUPT_PORTS && 0 <= i < NUM_PORT_DEFAULT ==> !(
                #[trigger] registry.spec_tables()[p].spec_registered()[i]),
            forall|p: int, i: int|
                0 <= p < NUM_INTERRUPT_PORTS && 0 <= i < NUM_PORT_DEFAULT ==> !(
                #[trigger] registry.spec_tables()[p].spec_edge_detected()[i]),
            forall|p: int, i: int|
                0 <= p < NUM_INTERRUPT_PORTS && 0 <= i < NUM_PORT_DEFAULT
                    ==> #[trigger] registry.spec_tables()[p].spec_signals()[i] == 0,
            forall|p: int|
                0 <= p < NUM_INTERRUPT_PORTS ==> (#[trigger] registry.spec_tables()[p]).spec_wake_log()
                    == Seq::<nat>::empty(),
    {
        let mut ports: Vec<PortWakeTable> = Vec::new();
        let mut p: usize = 0;
        while p < NUM_INTERRUPT_PORTS
            invariant
                p <= NUM_INTERRUPT_PORTS,
                ports@.len() == p,
                forall|q: int| 0 <= q < p ==> (#[trigger] ports@[q]).wf(),
                forall|q: int, i: int|
                    0 <= q < p && 0 <= i < NUM_PORT_DEFAULT ==> !(#[trigger] ports@[q].spec_registered()[i]),
                forall|q: int, i: int|
                    0 <= q < p && 0 <= i < NUM_PORT_DEFAULT ==> !(#[trigger] ports@[q].spec_edge_detected()[i]),
                forall|q: int, i: int|
                    0 <= q < p && 0 <= i < NUM_PORT_DEFAULT ==> #[trigger] ports@[q].spec_signals()[i] == 0,
                forall|q: int| 0 <= q < p ==> (#[trigger] ports@[q]).spec_wake_log() == Seq::<nat>::empty(),
            decreases NUM_INTERRUPT_PORTS - p,
        {
            ports.push(PortWakeTable::new());
            p += 1;
        }
        AsyncGpioRegistry { ports }
    }

    /// The table of the port `port`.
    pub fn table(&self, port: Port) -> (table: &PortWakeTable)
        requires
            self.wf(),
            port.supports_interrupts(),
        ensures
            *table == self.spec_table(port),
            table.wf(),
    {
        &self.ports[port.index()]
    }

    /// The wake handles and the edge flags of the port `port`, which is one of A to F.
    fn pin_group_to_waker_and_edge_detection_group(&mut self, port: Port) -> (table: &mut PortWakeTable)
        requires
            old(self).wf(),
            port.supports_interrupts(),
        ensures
            *table == old(self).spec_table(port),
            table.wf(),
            final(self).spec_tables() == old(self).spec_tables().update(port.index() as int, *final(table)),
    {
        &mut self.ports[port.index()]
    }
}

/// Whether the interrupts `irq_enb` of a port can be dispatched with the edges
/// `edge_status`: each enabled pin is one of the 16 pins of a port, and its edge has
/// been latched.
pub open spec fn spec_dispatchable(irq_enb: u32, edge_status: u32) -> bool {
    &&& irq_enb & !edge_status == 0
    &&& irq_enb < 0x1_0000
}

/// Whether the interrupts `irq_enb` of a port can be dispatched with the edges
/// `edge_status`.
#[verifier::when_used_as_spec(spec_dispatchable)]
pub fn dispatchable(irq_enb: u32, edge_status: u32) -> (ok: bool)
    ensures
        ok == spec_dispatchable(irq_enb, edge_status),
{
    irq_enb & !edge_status == 0 && irq_enb < 0x1_0000
}

/// What a dispatch of the interrupts `irq_enb` makes of the table `before`: the slot of
/// each enabled pin is signalled once, the lowest pin first, and its edge flag is set.
/// No other slot is signalled, and the flags of the other pins stay as they are. The
/// wake handles stay registered: a wake signals a handle and leaves it in its slot.
pub open spec fn spec_dispatched(before: PortWakeTable, irq_enb: u32, after: PortWakeTable) -> bool {
    &&& after.wf()
    &&& after.spec_registered() == before.spec_registered()
    &&& forall|pin: int|
        0 <= pin < NUM_PORT_DEFAULT ==> #[trigger] after.spec_signals()[pin] == before.spec_signals()[pin] + (
        if spec_get_bit(irq_enb, pin as u32) {
            1nat
        } else {
            0nat
        })
    &&& after.spec_wake_log() == before.spec_wake_log() + spec_pins_ascending(irq_enb, NUM_PORT_DEFAULT as nat)
    &&& forall|pin: int|
        0 <= pin < NUM_PORT_DEFAULT ==> #[trigger] after.spec_edge_detected()[pin] == (
        before.spec_edge_detected()[pin] || spec_get_bit(irq_enb, pin as u32))
}

/// Generic interrupt handler for the GPIO interrupts of a port.
///
/// This function should be called in all interrupt handlers that handle GPIO interrupts
/// of the port `port`. It wakes the wake handles of the pins that have interrupted and
/// sets their edge flags, so that the waits on these pins complete. Port G raises no
/// interrupts and is refused.
///
/// The handler reads the enabled interrupts and the edges once. It returns if the edge
/// of each enabled pin has been latched.
pub fn on_interrupt_for_async_gpio_for_port(port: Port, gpio: &Gpio, registry: &mut AsyncGpioRegistry) -> (res: Result<
    (),
    PortDoesNotSupportInterrupts,
>)
    requires
        old(registry).wf(),
        port.supports_interrupts() ==> spec_dispatchable(gpio.irq_enable, gpio.edge_status),
    ensures
        final(registry).wf(),
        res.is_ok() == port.supports_interrupts(),
        res.is_err() ==> final(registry).spec_tables() == old(registry).spec_tables(),
        res.is_ok() ==> AsyncGpioRegistry::spec_only_changes(*old(registry), port, *final(registry))
            && spec_dispatched(old(registry).spec_table(port), gpio.irq_enable, final(registry).spec_table(port)),
{
    if !port.supports_interrupts() {
        return Err(PortDoesNotSupportInterrupts);
    }
    on_interrupt_for_async_gpio_for_port_generic(port, gpio, registry);
    Ok(())
}

fn on_interrupt_for_async_gpio_for_port_generic(port: Port, gpio: &Gpio, registry: &mut AsyncGpioRegistry)
    requires
        old(registry).wf(),
        port.supports_interrupts(),
        spec_dispatchable(gpio.irq_enable, gpio.edge_status),
    ensures
        final(registry).wf(),
        AsyncGpioRegistry::spec_only_changes(*old(registry), port, *final(registry)),
        spec_dispatched(old(registry).spec_table(port), gpio.irq_enable, final(registry).spec_table(port)),
{
    let irq_enb = gpio.read_irq_enable();
    let edge_status = gpio.read_edge_status();
    let table = registry.pin_group_to_waker_and_edge_detection_group(port);
    on_interrupt_for_port(irq_enb, edge_status, table);
}

/// Dispatches the interrupts `irq_enb` of a port to the table of the port.
///
/// While a pin is left, the lowest is taken: its slot is woken, whether or not a task
/// waits, and since its edge has been latched, its edge flag is set and the pin is done.
pub fn on_interrupt_for_port(irq_enb: u32, edge_status: u32, table: &mut PortWakeTable)
    requires
        old(table).wf(),
        spec_dispatchable(irq_enb, edge_status),
    ensures
        spec_dispatched(*old(table), irq_enb, *final(table)),
{
    let mut irq_enb = irq_enb;
    let ghost all = irq_enb;
    let ghost mut done: nat = 0;
    while irq_enb != 0
        invariant
            table.wf(),
            spec_dispatchable(irq_enb, edge_status),
            done <= NUM_PORT_DEFAULT,
            forall|pin: u32|
                pin < 32 ==> #[trigger] spec_get_bit(irq_enb, pin) == (spec_get_bit(all, pin) && pin >= done),
            table.spec_registered() == old(table).spec_registered(),
            forall|pin: int|
                0 <= pin < NUM_PORT_DEFAULT ==> #[trigger] table.spec_signals()[pin] == old(
                    table,
                ).spec_signals()[pin] + (if spec_get_bit(all, pin as u32) && pin < done {
                    1nat
                } else {
                    0nat
                }),
            table.spec_wake_log() == old(table).spec_wake_log() + spec_pins_ascending(all, done),
            forall|pin: int|
                0 <= pin < NUM_PORT_DEFAULT ==> #[trigger] table.spec_edge_detected()[pin] == (old(
                    table,
                ).spec_edge_detected()[pin] || (spec_get_bit(all, pin as u32) && pin < done)),
        decreases irq_enb,
    {
        broadcast use vstd::std_specs::bits::axiom_u32_trailing_zeros;

        let bit_pos_u32: u32 = irq_enb.trailing_zeros();
        let bit_pos = bit_pos_u32 as usize;
        let bit_mask: u32 = 1u32 << bit_pos_u32;
        proof {
            lemma_lowest_pending(irq_enb, edge_status, bit_pos_u32);
            lemma_bit_mask(edge_status, bit_pos_u32, bit_pos_u32);
            assert(spec_get_bit(irq_enb, bit_pos_u32));
            assert(spec_get_bit(all, bit_pos_u32) && bit_pos_u32 >= done);
            // No pin below the lowest is left, so none of them is enabled.
            assert forall|pin: u32| done <= pin < bit_pos implies !#[trigger] spec_get_bit(all, pin) by {
                assert(!spec_get_bit(irq_enb, pin));
            }
            lemma_pins_ascending_skip(all, done, bit_pos as nat);
        }
        let edge = edge_status & bit_mask != 0;
        let ghost log = table.spec_wake_log();
        table.signal(bit_pos, edge);

        if edge {
            // The pin is done.
            let ghost before = irq_enb;
            irq_enb = irq_enb & !bit_mask;
            proof {
                assert forall|pin: u32| pin < 32 implies spec_get_bit(irq_enb, pin) == (spec_get_bit(before, pin)
                    && pin != bit_pos_u32) by {
                    lemma_set_bit_get_bit(before, bit_pos_u32, false, pin);
                }
                assert(((bit_pos + 1) as nat - 1) as nat == bit_pos as nat);
                assert((bit_pos as nat) as u32 == bit_pos_u32);
                assert(spec_pins_ascending(all, (bit_pos + 1) as nat) == spec_pins_ascending(
                    all,
                    bit_pos as nat,
                ).push(bit_pos as nat));
                assert(table.spec_wake_log() =~= old(table).spec_wake_log() + spec_pins_ascending(
                    all,
                    (bit_pos + 1) as nat,
                ));
                done = (bit_pos + 1) as nat;
            }
        }
    }
    proof {
        assert forall|pin: u32| pin < 32 implies !spec_get_bit(0u32, pin) by {
            lemma_zero_has_no_bit(pin);
        }
        assert forall|pin: u32| done <= pin < NUM_PORT_DEFAULT implies !#[trigger] spec_get_bit(all, pin) by {
            assert(!spec_get_bit(irq_enb, pin));
        }
        lemma_pins_ascending_skip(all, done, NUM_PORT_DEFAULT as nat);
    }
}

/// Pins that are not set add nothing to the pins in ascending order.
pub proof fn lemma_pins_ascending_skip(mask: u32, from: nat, upto: nat)
    requires
        from <= upto <= 32,
        forall|pin: u32| from <= pin < upto ==> !#[trigger] spec_get_bit(mask, pin),
    ensures
        spec_pins_ascending(mask, upto) == spec_pins_ascending(mask, from),
    decreases upto - from,
{
    if from < upto {
        assert(!spec_get_bit(mask, (upto - 1) as u32));
        lemma_pins_ascending_skip(mask, from, (upto - 1) as nat);
    }
}

/// The lowest pin of the interrupts that can be dispatched is one of the 16 pins of the
/// port, its edge has been latched, and without it the rest can be dispatched and is
/// less.
pub proof fn lemma_lowest_pending(irq_enb: u32, edge_status: u32, pin: u32)
    requires
        spec_dispatchable(irq_enb, edge_status),
        pin < 32,
        spec_get_bit(irq_enb, pin),
    ensures
        pin < 16,
        spec_get_bit(edge_status, pin),
        spec_dispatchable(irq_enb & !(1u32 << pin), edge_status),
        irq_enb & !(1u32 << pin) < irq_enb,
{
    assert(pin < 16 && (edge_status >> pin) & 1 == 1 && (irq_enb & !(1u32 << pin)) & !edge_status == 0 && irq_enb
        & !(1u32 << pin) < 0x1_0000 && irq_enb & !(1u32 << pin) < irq_enb) by (bit_vector)
        requires
            irq_enb & !edge_status == 0,
            irq_enb < 0x1_0000,
            pin < 32,
            (irq_enb >> pin) & 1 == 1,
    ;
}

/// The dispatch of one pin, and of none.
///
/// If `pin` is the only pin whose interrupt is enabled, the dispatch signals the slot of
/// the pin once and no other slot, sets the edge flag of the pin and leaves the flags
/// of all other pins alone. If no interrupt is enabled, whatever edges are latched, the
/// dispatch signals no slot and sets no flag. Either way the wake handles stay
/// registered.
pub proof fn lemma_dispatch_of_one_pin(before: PortWakeTable, pin: u32, after: PortWakeTable, idle: PortWakeTable)
    requires
        before.wf(),
        pin < 16,
        spec_dispatched(before, crate::bits::spec_bit_mask(pin), after),
        spec_dispatched(before, 0, idle),
    ensures
        after.spec_registered() == before.spec_registered(),
        after.spec_signals() == before.spec_signals().update(pin as int, before.spec_signals()[pin as int] + 1),
        after.spec_wake_log() == before.spec_wake_log().push(pin as nat),
        after.spec_edge_detected() == before.spec_edge_detected().update(pin as int, true),
        idle.spec_registered() == before.spec_registered(),
        PortWakeTable::spec_no_wake(before, idle),
        idle.spec_edge_detected() == before.spec_edge_detected(),
{
    let mask = crate::bits::spec_bit_mask(pin);
    assert forall|other: u32| other < 32 implies #[trigger] spec_get_bit(mask, other) == (other == pin) by {
        lemma_bit_mask(0, pin, other);
    }
    assert forall|other: u32| other < 32 implies !#[trigger] spec_get_bit(0u32, other) by {
        lemma_zero_has_no_bit(other);
    }
    assert(after.spec_edge_detected() =~= before.spec_edge_detected().update(pin as int, true));
    assert(idle.spec_edge_detected() =~= before.spec_edge_detected());
    assert(after.spec_signals() =~= before.spec_signals().update(pin as int, before.spec_signals()[pin as int] + 1));
    assert(idle.spec_signals() =~= before.spec_signals());
    lemma_pins_ascending_skip(0, 0, NUM_PORT_DEFAULT as nat);
    lemma_pins_ascending_skip(mask, 0, pin as nat);
    lemma_pins_ascending_skip(mask, (pin + 1) as nat, NUM_PORT_DEFAULT as nat);
    assert(((pin + 1) as nat - 1) as nat == pin as nat);
    assert(spec_pins_ascending(mask, (pin + 1) as nat) == spec_pins_ascending(mask, pin as nat).push(pin as nat));
    assert(spec_pins_ascending(mask, 0) =~= Seq::<nat>::empty());
    assert(after.spec_wake_log() =~= before.spec_wake_log().push(pin as nat));
    assert(idle.spec_wake_log() =~= before.spec_wake_log());
}

/// The dispatch of two pins: the slot of the lower pin is signalled first, then that
/// of the higher pin, and no other slot is signalled.
pub proof fn lemma_dispatch_of_two_pins(before: PortWakeTable, low: u32, high: u32, after: PortWakeTable)
    requires
        before.wf(),
        low < high < 16,
        spec_dispatched(before, crate::bits::spec_bit_mask(low) | crate::bits::spec_bit_mask(high), after),
    ensures
        after.spec_wake_log() == before.spec_wake_log().push(low as nat).push(high as nat),
        forall|pin: int|
            0 <= pin < NUM_PORT_DEFAULT ==> #[trigger] after.spec_signals()[pin] == before.spec_signals()[pin] + (
            if pin == low || pin == high {
                1nat
            } else {
                0nat
            }),
        forall|pin: int|
            0 <= pin < NUM_PORT_DEFAULT ==> #[trigger] after.spec_edge_detected()[pin] == (
            before.spec_edge_detected()[pin] || pin == low || pin == high),
{
    let mask = crate::bits::spec_bit_mask(low) | crate::bits::spec_bit_mask(high);
    assert forall|other: u32| other < 32 implies #[trigger] spec_get_bit(mask, other) == (other == low || other
        == high) by {
        assert(((((1u32 << low) | (1u32 << high)) >> other) & 1 == 1) == (other == low || other == high))
            by (bit_vector)
            requires
                low < 32,
                high < 32,
                other < 32,
        ;
    }
    lemma_pins_ascending_skip(mask, 0, low as nat);
    assert(((low + 1) as nat - 1) as nat == low as nat);
    assert(spec_pins_ascending(mask, (low + 1) as nat) == spec_pins_ascending(mask, low as nat).push(low as nat));
    lemma_pins_ascending_skip(mask, (low + 1) as nat, high as nat);
    assert(((high + 1) as nat - 1) as nat == high as nat);
    assert(spec_pins_ascending(mask, (high + 1) as nat) == spec_pins_ascending(mask, high as nat).push(high as nat));
    lemma_pins_ascending_skip(mask, (high + 1) as nat, NUM_PORT_DEFAULT as nat);
    assert(spec_pins_ascending(mask, 0) =~= Seq::<nat>::empty());
    assert(after.spec_wake_log() =~= before.spec_wake_log().push(low as nat).push(high as nat));
}

/// No bit of 0 is set.
pub proof fn lemma_zero_has_no_bit(pin: u32)
    requires
        pin < 32,
    ensures
        !spec_get_bit(0u32, pin),
{
    assert((0u32 >> pin) & 1 == 0) by (bit_vector);
}

/// Input pin future: the wait for an edge on one pin.
///
/// The wait is armed when it is made and done when its poll is ready. A wait that is
/// given up is handed to [`InputPinFuture::cancel`], which disables the interrupt of the
/// pin.
pub struct InputPinFuture {
    id: DynPinId,
}

impl InputPinFuture {
    /// The pin that the wait is for.
    pub closed spec fn spec_id(&self) -> DynPinId {
        self.id
    }

    /// The registers of the port after a wait for the edge `edge` was armed on the pin
    /// `bit`: the pin is sensitive to the edge and its interrupt is enabled.
    pub open spec fn spec_armed(gpio: Gpio, bit: u32, edge: InterruptEdge) -> Gpio {
        let sensitive = spec_edge_interrupt(gpio, bit, edge);
        Gpio { irq_enable: spec_set_bit(sensitive.irq_enable, bit, true), ..sensitive }
    }

    /// Starts a wait for the edge `edge` on the pin `pin`.
    ///
    /// The edge flag of the pin is cleared, the pin is made sensitive to the edge, and
    /// its interrupt is enabled and unmasked. A pin of port G is refused, and nothing
    /// changes.
    pub fn new_with_input_pin(
        pin: &mut Input,
        gpio: &mut Gpio,
        nvic: &mut Nvic,
        registry: &mut AsyncGpioRegistry,
        edge: InterruptEdge,
    ) -> (res: Result<InputPinFuture, PortDoesNotSupportInterrupts>)
        requires
            old(registry).wf(),
        ensures
            final(registry).wf(),
            final(pin).spec_id() == old(pin).spec_id(),
            res.is_ok() == old(pin).spec_id().port().supports_interrupts(),
            res.is_err() ==> {
                &&& *final(gpio) == *old(gpio)
                &&& *final(nvic) == *old(nvic)
                &&& final(registry).spec_tables() == old(registry).spec_tables()
            },
            res matches Ok(fut) ==> {
                let id = old(pin).spec_id();
                &&& fut.spec_id() == id
                &&& *final(gpio) == Self::spec_armed(*old(gpio), id.offset() as u32, edge)
                &&& final(nvic).is_enabled(id.spec_irq())
                &&& AsyncGpioRegistry::spec_only_changes(*old(registry), id.port(), *final(registry))
                &&& final(registry).spec_table(id.port()).spec_registered() == old(registry).spec_table(
                    id.port(),
                ).spec_registered()
                &&& PortWakeTable::spec_no_wake(
                    old(registry).spec_table(id.port()),
                    final(registry).spec_table(id.port()),
                )
                &&& final(registry).spec_table(id.port()).spec_edge_detected() == old(registry).spec_table(
                    id.port(),
                ).spec_edge_detected().update(id.offset() as int, false)
            },
    {
        let id = pin.id();
        if !id.port().supports_interrupts() {
            return Err(PortDoesNotSupportInterrupts);
        }
        let table = registry.pin_group_to_waker_and_edge_detection_group(id.port());
        table.clear_edge(id.offset());
        pin.configure_edge_interrupt(gpio, edge);
        match pin.enable_interrupt(gpio, nvic, true) {
            Ok(()) => Ok(InputPinFuture { id }),
            Err(e) => Err(e),
        }
    }

    /// Registers the wake handle of the task for the pin and consumes the edge flag of
    /// the pin. The wait is over if the flag was set.
    pub fn poll(&self, registry: &mut AsyncGpioRegistry, waker: &Waker) -> (res: Poll<()>)
        requires
            old(registry).wf(),
            self.spec_id().port().supports_interrupts(),
        ensures
            final(registry).wf(),
            res == (if old(registry).spec_table(self.spec_id().port()).spec_edge_detected()[self.spec_id().offset() as int] {
                Poll::Ready(())
            } else {
                Poll::<()>::Pending
            }),
            AsyncGpioRegistry::spec_only_changes(*old(registry), self.spec_id().port(), *final(registry)),
            final(registry).spec_table(self.spec_id().port()).spec_registered() == old(registry).spec_table(
                self.spec_id().port(),
            ).spec_registered().update(self.spec_id().offset() as int, true),
            PortWakeTable::spec_no_wake(
                old(registry).spec_table(self.spec_id().port()),
                final(registry).spec_table(self.spec_id().port()),
            ),
            final(registry).spec_table(self.spec_id().port()).spec_edge_detected() == old(registry).spec_table(
                self.spec_id().port(),
            ).spec_edge_detected().update(self.spec_id().offset() as int, false),
    {
        let idx = self.id.offset();
        let table = registry.pin_group_to_waker_and_edge_detection_group(self.id.port());
        if table.register_and_consume(idx, waker) {
            return Poll::Ready(());
        }
        Poll::Pending
    }

    /// Ends the wait: the interrupt of the pin is disabled. An edge flag that is set is
    /// left as it is.
    pub fn cancel(self, gpio: &mut Gpio)
        ensures
            *final(gpio) == (Gpio {
                irq_enable: spec_set_bit(old(gpio).irq_enable, self.spec_id().offset() as u32, false),
                ..*old(gpio)
            }),
    {
        let mut ll = LowLevelGpio::new(self.id);
        ll.disable_interrupt(gpio);
    }
}

/// How a wait for a level begins.
pub enum LevelWait {
    /// The pin is at the level: there is nothing to wait for.
    Satisfied,
    /// The pin is not at the level: the wait for the edge towards it goes on.
    Waiting(InputPinFuture),
}

/// An input pin that can be waited on.
pub struct InputPinAsync {
    pin: Input,
}

impl InputPinAsync {
    /// The pin.
    pub closed spec fn spec_pin(&self) -> Input {
        self.pin
    }

    /// The identifier of the pin.
    pub open spec fn spec_id(&self) -> DynPinId {
        self.spec_pin().spec_id()
    }

    /// The invariant of the type: the pin can raise interrupts.
    pub open spec fn wf(&self) -> bool {
        self.spec_id().port().supports_interrupts()
    }

    /// Makes an input pin that can be waited on from `pin`. A pin of port G is refused.
    ///
    /// The interrupt handler of the port has to call
    /// [`on_interrupt_for_async_gpio_for_port`] for the waits to complete.
    pub fn new(pin: Input) -> (res: Result<InputPinAsync, PortDoesNotSupportInterrupts>)
        ensures
            res.is_ok() == pin.spec_id().port().supports_interrupts(),
            res matches Ok(p) ==> p.spec_pin() == pin && p.wf(),
    {
        if !pin.id().port().supports_interrupts() {
            return Err(PortDoesNotSupportInterrupts);
        }
        Ok(InputPinAsync { pin })
    }

    /// What the start of a wait for a level leaves, where `level_reached` says whether
    /// the pin was at the level.
    ///
    /// The wait for the edge towards the level is armed first, so that an edge between
    /// the look at the level and the arming is not lost. If the pin is at the level, the
    /// wait is given up at once, which disables the interrupt of the pin again.
    pub open spec fn spec_level_wait_begun(
        id: DynPinId,
        edge: InterruptEdge,
        level_reached: bool,
        gpio_before: Gpio,
        registry_before: AsyncGpioRegistry,
        gpio_after: Gpio,
        registry_after: AsyncGpioRegistry,
        res: LevelWait,
    ) -> bool {
        let bit = id.offset() as u32;
        let armed = InputPinFuture::spec_armed(gpio_before, bit, edge);
        &&& AsyncGpioRegistry::spec_only_changes(registry_before, id.port(), registry_after)
        &&& registry_after.spec_table(id.port()).spec_registered() == registry_before.spec_table(
            id.port(),
        ).spec_registered()
        &&& PortWakeTable::spec_no_wake(registry_before.spec_table(id.port()), registry_after.spec_table(id.port()))
        &&& registry_after.spec_table(id.port()).spec_edge_detected() == registry_before.spec_table(
            id.port(),
        ).spec_edge_detected().update(id.offset() as int, false)
        &&& level_reached ==> res is Satisfied && gpio_after == (Gpio {
            irq_enable: spec_set_bit(armed.irq_enable, bit, false),
            ..armed
        })
        &&& !level_reached ==> gpio_after == armed && (res matches LevelWait::Waiting(fut) && fut.spec_id() == id)
    }

    /// Starts to wait until the pin is high. If it is high, there is nothing to wait
    /// for.
    pub fn wait_for_high(&mut self, gpio: &mut Gpio, nvic: &mut Nvic, registry: &mut AsyncGpioRegistry) -> (res:
        LevelWait)
        requires
            old(self).wf(),
            old(registry).wf(),
        ensures
            final(self).wf(),
            final(self).spec_id() == old(self).spec_id(),
            final(registry).wf(),
            final(nvic).is_enabled(old(self).spec_id().spec_irq()),
            Self::spec_level_wait_begun(
                old(self).spec_id(),
                InterruptEdge::LowToHigh,
                spec_get_bit(old(gpio).data_in, old(self).spec_id().offset() as u32),
                *old(gpio),
                *old(registry),
                *final(gpio),
                *final(registry),
                res,
            ),
    {
        // The pin was checked in the constructor.
        match InputPinFuture::new_with_input_pin(&mut self.pin, gpio, nvic, registry, InterruptEdge::LowToHigh) {
            Ok(fut) => {
                if self.pin.is_high(gpio) {
                    fut.cancel(gpio);
                    return LevelWait::Satisfied;
                }
                LevelWait::Waiting(fut)
            },
            Err(_) => LevelWait::Satisfied,
        }
    }

    /// Starts to wait until the pin is low. If it is low, there is nothing to wait for.
    pub fn wait_for_low(&mut self, gpio: &mut Gpio, nvic: &mut Nvic, registry: &mut AsyncGpioRegistry) -> (res:
        LevelWait)
        requires
            old(self).wf(),
            old(registry).wf(),
        ensures
            final(self).wf(),
            final(self).spec_id() == old(self).spec_id(),
            final(registry).wf(),
            final(nvic).is_enabled(old(self).spec_id().spec_irq()),
            Self::spec_level_wait_begun(
                old(self).spec_id(),
                InterruptEdge::HighToLow,
                !spec_get_bit(old(gpio).data_in, old(self).spec_id().offset() as u32),
                *old(gpio),
                *old(registry),
                *final(gpio),
                *final(registry),
                res,
            ),
    {
        // The pin was checked in the constructor.
        match InputPinFuture::new_with_input_pin(&mut self.pin, gpio, nvic, registry, InterruptEdge::HighToLow) {
            Ok(fut) => {
                if self.pin.is_low(gpio) {
                    fut.cancel(gpio);
                    return LevelWait::Satisfied;
                }
                LevelWait::Waiting(fut)
            },
            Err(_) => LevelWait::Satisfied,
        }
    }

    /// Starts a wait for the edge `edge`.
    fn wait_for_edge(&mut self, gpio: &mut Gpio, nvic: &mut Nvic, registry: &mut AsyncGpioRegistry, edge: InterruptEdge) -> (fut:
        InputPinFuture)
        requires
            old(self).wf(),
            old(registry).wf(),
        ensures
            final(self).wf(),
            final(self).spec_id() == old(self).spec_id(),
            final(registry).wf(),
            fut.spec_id() == old(self).spec_id(),
            *final(gpio) == InputPinFuture::spec_armed(*old(gpio), old(self).spec_id().offset() as u32, edge),
            final(nvic).is_enabled(old(self).spec_id().spec_irq()),
            AsyncGpioRegistry::spec_only_changes(*old(registry), old(self).spec_id().port(), *final(registry)),
            final(registry).spec_table(old(self).spec_id().port()).spec_registered() == old(registry).spec_table(
                old(self).spec_id().port(),
            ).spec_registered(),
            PortWakeTable::spec_no_wake(
                old(registry).spec_table(old(self).spec_id().port()),
                final(registry).spec_table(old(self).spec_id().port()),
            ),
            final(registry).spec_table(old(self).spec_id().port()).spec_edge_detected() == old(
                registry,
            ).spec_table(old(self).spec_id().port()).spec_edge_detected().update(
                old(self).spec_id().offset() as int,
                false,
            ),
    {
        // The pin was checked in the constructor.
        match InputPinFuture::new_with_input_pin(&mut self.pin, gpio, nvic, registry, edge) {
            Ok(fut) => fut,
            Err(_) => InputPinFuture { id: self.pin.id() },
        }
    }

    /// Starts to wait until the pin sees a falling edge.
    pub fn wait_for_falling_edge(&mut self, gpio: &mut Gpio, nvic: &mut Nvic, registry: &mut AsyncGpioRegistry) -> (fut:
        InputPinFuture)
        requires
            old(self).wf(),
            old(registry).wf(),
        ensures
            final(self).wf(),
            final(self).spec_id() == old(self).spec_id(),
            final(registry).wf(),
            fut.spec_id() == old(self).spec_id(),
            *final(gpio) == InputPinFuture::spec_armed(
                *old(gpio),
                old(self).spec_id().offset() as u32,
                InterruptEdge::HighToLow,
            ),
            final(nvic).is_enabled(old(self).spec_id().spec_irq()),
            AsyncGpioRegistry::spec_only_changes(*old(registry), old(self).spec_id().port(), *final(registry)),
            final(registry).spec_table(old(self).spec_id().port()).spec_registered() == old(registry).spec_table(
                old(self).spec_id().port(),
            ).spec_registered(),
            PortWakeTable::spec_no_wake(
                old(registry).spec_table(old(self).spec_id().port()),
                final(registry).spec_table(old(self).spec_id().port()),
            ),
            final(registry).spec_table(old(self).spec_id().port()).spec_edge_detected() == old(
                registry,
            ).spec_table(old(self).spec_id().port()).spec_edge_detected().update(
                old(self).spec_id().offset() as int,
                false,
            ),
    {
        self.wait_for_edge(gpio, nvic, registry, InterruptEdge::HighToLow)
    }

    /// Starts to wait until the pin sees a rising edge.
    pub fn wait_for_rising_edge(&mut self, gpio: &mut Gpio, nvic: &mut Nvic, registry: &mut AsyncGpioRegistry) -> (fut:
        InputPinFuture)
        requires
            old(self).wf(),
            old(registry).wf(),
        ensures
            final(self).wf(),
            final(self).spec_id() == old(self).spec_id(),
            final(registry).wf(),
            fut.spec_id() == old(self).spec_id(),
            *final(gpio) == InputPinFuture::spec_armed(
                *old(gpio),
                old(self).spec_id().offset() as u32,
                InterruptEdge::LowToHigh,
            ),
            final(nvic).is_enabled(old(self).spec_id().spec_irq()),
            AsyncGpioRegistry::spec_only_changes(*old(registry), old(self).spec_id().port(), *final(registry)),
            final(registry).spec_table(old(self).spec_id().port()).spec_registered() == old(registry).spec_table(
                old(self).spec_id().port(),
            ).spec_registered(),
            PortWakeTable::spec_no_wake(
                old(registry).spec_table(old(self).spec_id().port()),
                final(registry).spec_table(old(self).spec_id().port()),
            ),
            final(registry).spec_table(old(self).spec_id().port()).spec_edge_detected() == old(
                registry,
            ).spec_table(old(self).spec_id().port()).spec_edge_detected().update(
                old(self).spec_id().offset() as int,
                false,
            ),
    {
        self.wait_for_edge(gpio, nvic, registry, InterruptEdge::LowToHigh)
    }

    /// Starts to wait until the pin sees any edge, rising or falling.
    pub fn wait_for_any_edge(&mut self, gpio: &mut Gpio, nvic: &mut Nvic, registry: &mut AsyncGpioRegistry) -> (fut:
        InputPinFuture)
        requires
            old(self).wf(),
            old(registry).wf(),
        ensures
            final(self).wf(),
            final(self).spec_id() == old(self).spec_id(),
            final(registry).wf(),
            fut.spec_id() == old(self).spec_id(),
            *final(gpio) == InputPinFuture::spec_armed(
                *old(gpio),
                old(self).spec_id().offset() as u32,
                InterruptEdge::BothEdges,
            ),
            final(nvic).is_enabled(old(self).spec_id().spec_irq()),
            AsyncGpioRegistry::spec_only_changes(*old(registry), old(self).spec_id().port(), *final(registry)),
            final(registry).spec_table(old(self).spec_id().port()).spec_registered() == old(registry).spec_table(
                old(self).spec_id().port(),
            ).spec_registered(),
            PortWakeTable::spec_no_wake(
                old(registry).spec_table(old(self).spec_id().port()),
                final(registry).spec_table(old(self).spec_id().port()),
            ),
            final(registry).spec_table(old(self).spec_id().port()).spec_edge_detected() == old(
                registry,
            ).spec_table(old(self).spec_id().port()).spec_edge_detected().update(
                old(self).spec_id().offset() as int,
                false,
            ),
    {
        self.wait_for_edge(gpio, nvic, registry, InterruptEdge::BothEdges)
    }

    /// Gives the pin back.
    pub fn release(self) -> (pin: Input)
        ensures
            pin == self.spec_pin(),
    {
        self.pin
    }
}

} // verus!
