//! Asynchronous reception.
//!
//! The interrupt handler moves the bytes that have arrived from the receive FIFO of the
//! UART into a ring buffer, a queue of `heapless`, marks that there is data and wakes
//! the task that reads. The task takes the bytes from the ring buffer. When the ring
//! buffer is empty, the task registers its wake handle and waits.
//!
//! There are two handlers, which differ in what they do with a byte for which the ring
//! buffer has no room. [`on_interrupt_rx`] drops the byte. [`on_interrupt_rx_overwriting`]
//! drops the oldest byte of the ring buffer instead. Both say in their result that the
//! ring buffer has overflowed. The ring buffer has a fixed size of 256 slots.
use super::regs::{InterruptClear, RxStatus, Uart, UartView};
use super::{spec_rx_interrupts_disabled, spec_rx_interrupts_enabled, spec_rx_irq_clear, Rx, UartErrors};
use crate::wake::{Poll, WakeSlot};
use crate::Nvic;
use core::task::Waker;
use vstd::prelude::*;

verus! {

/// The single producer single consumer queue of `heapless`.
#[verifier::external_type_specification]
#[verifier::external_body]
#[verifier::reject_recursive_types(T)]
pub struct ExQueue<T, const N: usize>(heapless::spsc::Queue<T, N>);

/// Number of slots of the ring buffer. One slot stays free.
///
/// The size is fixed: every ring buffer of this module has 256 slots. The contracts
/// speak of the bytes that a ring buffer holds, and they can do so for one size of the
/// queue of `heapless`, not for all of them.
pub const RX_QUEUE_SLOTS: usize = 256;

/// Number of bytes that the ring buffer holds.
pub const RX_QUEUE_CAPACITY: usize = 255;

/// The ring buffer between the interrupt handler and the reading task: a queue of
/// `heapless` with [`RX_QUEUE_SLOTS`] slots, which holds up to [`RX_QUEUE_CAPACITY`]
/// bytes. The interrupt handler and the reading task both work on the whole queue; the
/// caller sees to it that they do not at the same time.
pub type RxQueue = heapless::spsc::Queue<u8, 256>;

/// The bytes that a ring buffer holds, the oldest first.
pub uninterp spec fn queued_bytes(queue: heapless::spsc::Queue<u8, 256>) -> Seq<u8>;

/// Calls `Queue::len`, the number of bytes in the queue. A queue of 256 slots holds at
/// most 255.
#[verifier::external_body]
fn queue_len(queue: &RxQueue) -> (len: usize)
    ensures
        len == queued_bytes(*queue).len(),
        len <= RX_QUEUE_CAPACITY,
{
    queue.len()
}

/// Calls `Queue::is_full`: whether the queue holds 255 bytes, which is all that it has
/// room for.
#[verifier::external_body]
fn queue_is_full(queue: &RxQueue) -> (full: bool)
    ensures
        full ==> queued_bytes(*queue).len() == RX_QUEUE_CAPACITY,
        !full ==> queued_bytes(*queue).len() < RX_QUEUE_CAPACITY,
{
    queue.is_full()
}

/// Calls `Queue::enqueue`, which appends the byte unless the queue is full, and says
/// whether it did.
#[verifier::external_body]
fn queue_enqueue(queue: &mut RxQueue, byte: u8) -> (stored: bool)
    ensures
        stored == (queued_bytes(*old(queue)).len() < RX_QUEUE_CAPACITY),
        queued_bytes(*final(queue)) == (if stored {
            queued_bytes(*old(queue)).push(byte)
        } else {
            queued_bytes(*old(queue))
        }),
{
    queue.enqueue(byte).is_ok()
}

/// Calls `Queue::dequeue`, which takes the oldest byte out of the queue, if there is
/// one.
#[verifier::external_body]
fn queue_dequeue(queue: &mut RxQueue) -> (byte: Option<u8>)
    ensures
        byte.is_some() == (queued_bytes(*old(queue)).len() > 0),
        byte matches Some(b) ==> b == queued_bytes(*old(queue))[0] && queued_bytes(*final(queue))
            == queued_bytes(*old(queue)).subrange(1, queued_bytes(*old(queue)).len() as int),
        byte.is_none() ==> queued_bytes(*final(queue)) == queued_bytes(*old(queue)),
{
    queue.dequeue()
}

/// The room that is left in a ring buffer that holds `held` bytes.
pub open spec fn spec_room(held: nat) -> nat {
    if held < RX_QUEUE_CAPACITY {
        (RX_QUEUE_CAPACITY - held) as nat
    } else {
        0
    }
}

/// What a ring buffer that held `contents` holds after `bytes` were offered to it
/// and each byte without room was dropped: what it held, and the first of `bytes`, as
/// many as there was room for.
pub open spec fn spec_stored(contents: Seq<u8>, bytes: Seq<u8>) -> Seq<u8> {
    if bytes.len() <= spec_room(contents.len()) {
        contents + bytes
    } else {
        contents + bytes.subrange(0, spec_room(contents.len()) as int)
    }
}

/// What a ring buffer that held `contents` holds after `bytes` were offered to it
/// and each byte without room pushed out the oldest: the last bytes of what it held and
/// of `bytes`, as many as fit. (A ring buffer never holds more than its capacity. Contents
/// above it are left alone.)
pub open spec fn spec_stored_overwriting(contents: Seq<u8>, bytes: Seq<u8>) -> Seq<u8> {
    let all = contents + bytes;
    if all.len() <= RX_QUEUE_CAPACITY || contents.len() > RX_QUEUE_CAPACITY {
        all.subrange(0, if contents.len() > RX_QUEUE_CAPACITY { contents.len() as int } else { all.len() as int })
    } else {
        all.subrange(all.len() - RX_QUEUE_CAPACITY, all.len() as int)
    }
}

/// How many of `offered` bytes find no room in a ring buffer that holds `held` bytes.
pub open spec fn spec_overflowing(held: nat, offered: nat) -> nat {
    if offered <= spec_room(held) {
        0
    } else {
        (offered - spec_room(held)) as nat
    }
}

/// The errors of the receiver and the overflow of the ring buffer that an interrupt
/// handler has seen.
#[derive(Debug, Clone, Copy, PartialEq, Eq, Structural)]
pub struct AsyncUartErrors {
    /// The ring buffer has overflowed: data is lost.
    pub queue_overflow: bool,
    /// Errors of the UART.
    pub uart_errors: UartErrors,
}

/// What the interrupt handler and the reading task of one UART share.
pub struct RxBankState {
    waker: WakeSlot,
    read_active: bool,
    has_data: bool,
}

impl RxBankState {
    /// Whether a wake handle is registered.
    pub closed spec fn spec_waker_registered(&self) -> bool {
        self.waker.is_registered()
    }

    /// How often the wake handle of the task was signalled.
    pub closed spec fn spec_signals(&self) -> nat {
        self.waker.spec_signals()
    }

    /// Whether a task is reading.
    pub closed spec fn spec_read_active(&self) -> bool {
        self.read_active
    }

    /// Whether the interrupt handler has stored data since the ring buffer was last
    /// found empty.
    pub closed spec fn spec_has_data(&self) -> bool {
        self.has_data
    }

    /// The state of a UART that nobody reads.
    pub fn new() -> (state: RxBankState)
        ensures
            !state.spec_waker_registered(),
            state.spec_signals() == 0,
            !state.spec_read_active(),
            !state.spec_has_data(),
    {
        RxBankState { waker: WakeSlot::new(), read_active: false, has_data: false }
    }

    /// Whether a task is reading.
    #[verifier::when_used_as_spec(spec_read_active)]
    pub fn read_active(&self) -> (b: bool)
        ensures
            b == self.spec_read_active(),
    {
        self.read_active
    }

    /// Whether the interrupt handler has stored data since the ring buffer was last
    /// found empty.
    #[verifier::when_used_as_spec(spec_has_data)]
    pub fn has_data(&self) -> (b: bool)
        ensures
            b == self.spec_has_data(),
    {
        self.has_data
    }
}

/// The errors that the status `status` of the receiver shows, each of them.
pub open spec fn spec_rx_errors(status: RxStatus) -> Option<UartErrors> {
    if status.overrun_error() || status.framing_error() || status.parity_error() {
        Some(
            UartErrors {
                overflow: status.overrun_error(),
                framing: status.framing_error(),
                parity: status.parity_error(),
                other: false,
            },
        )
    } else {
        None
    }
}

/// How many bytes an interrupt handler takes from the receive FIFO.
///
/// On a timeout it empties the FIFO. On a half-full FIFO alone it takes as many bytes as
/// the trigger level says, which the FIFO holds at the least.
pub open spec fn spec_rx_take_count(uart: UartView) -> nat {
    if uart.regs.irq_status.rx_timeout() {
        uart.rx_fifo.len()
    } else if uart.regs.irq_status.rx() {
        uart.regs.rx_fifo_trigger.level() as nat
    } else {
        0
    }
}

/// Whether the receive FIFO holds what a pending half-full interrupt promises: as many
/// bytes as the trigger level says.
pub open spec fn spec_rx_trigger_met(uart: UartView) -> bool {
    uart.regs.irq_status.rx() ==> uart.rx_fifo.len() >= uart.regs.rx_fifo_trigger.level()
}

/// Whether an interrupt handler moves data: on a half-full FIFO and on a timeout.
pub open spec fn spec_rx_reads_data(uart: UartView) -> bool {
    uart.regs.irq_status.rx() || uart.regs.irq_status.rx_timeout()
}

/// What an interrupt handler returns for the errors `errors` of the UART and the
/// overflow `queue_overflow` of the ring buffer.
pub open spec fn spec_rx_result(errors: Option<UartErrors>, queue_overflow: bool) -> Result<
    (),
    AsyncUartErrors,
> {
    if errors.is_some() || queue_overflow {
        Err(
            AsyncUartErrors {
                queue_overflow,
                uart_errors: match errors {
                    Some(e) => e,
                    None => UartErrors::spec_none(),
                },
            },
        )
    } else {
        Ok(())
    }
}

/// How often an interrupt handler signals the wake handle of the reading task: once if
/// it moves data and a task is reading, else not at all.
pub open spec fn spec_rx_wakes(before: UartView, state_before: RxBankState) -> nat {
    if spec_rx_reads_data(before) && state_before.spec_read_active() {
        1
    } else {
        0
    }
}

/// What an interrupt handler leaves of the UART `before` and of the state
/// `state_before`, and what it returns, when it has taken the bytes that it takes and
/// `queue_overflow` says whether the ring buffer has overflowed.
pub open spec fn spec_rx_handled(
    before: UartView,
    state_before: RxBankState,
    queue_overflow: bool,
    after: UartView,
    state_after: RxBankState,
    res: Result<(), AsyncUartErrors>,
) -> bool {
    let taken = spec_rx_take_count(before);
    let errors = if before.regs.irq_enabled.rx() {
        spec_rx_errors(before.regs.rx_status)
    } else {
        None
    };
    &&& after == (UartView {
        rx_fifo: before.rx_fifo.subrange(taken as int, before.rx_fifo.len() as int),
        ..before
    }).with_irq_clr(spec_rx_irq_clear())
    &&& state_after.spec_read_active() == state_before.spec_read_active()
    &&& state_after.spec_has_data() == (state_before.spec_has_data() || spec_rx_reads_data(before))
    &&& state_after.spec_waker_registered() == state_before.spec_waker_registered()
    &&& state_after.spec_signals() == state_before.spec_signals() + spec_rx_wakes(before, state_before)
    &&& res == spec_rx_result(errors, queue_overflow)
}

/// What a caller moves from the hardware into the receive FIFO of the UART that it
/// hands to an interrupt handler: first `exactly` bytes, which the hardware holds, and
/// then, if `then_until_empty` is set, bytes for as long as the hardware holds one.
#[derive(Debug, Clone, Copy, PartialEq, Eq, Structural)]
pub struct RxFetch {
    pub exactly: usize,
    pub then_until_empty: bool,
}

/// What an interrupt handler takes from the receive FIFO for the interrupt status
/// `irq_status` and the trigger level `trigger`: the trigger level on a half-full FIFO,
/// which the hardware holds then, and all that is there on a timeout.
pub fn rx_fetch(irq_status: super::regs::InterruptStatus, trigger: super::regs::FifoTrigger) -> (fetch: RxFetch)
    ensures
        fetch.exactly == (if irq_status.rx() {
            trigger.level() as usize
        } else {
            0
        }),
        fetch.then_until_empty == irq_status.rx_timeout(),
{
    let exactly = if irq_status.rx() {
        trigger.level() as usize
    } else {
        0
    };
    RxFetch { exactly, then_until_empty: irq_status.rx_timeout() }
}

/// An interrupt handler takes all of a receive FIFO that holds what was to be fetched
/// for it, and such a FIFO holds what a half-full interrupt promises.
pub proof fn lemma_fetched_is_taken(uart: UartView, fetch: RxFetch)
    requires
        fetch.exactly == (if uart.regs.irq_status.rx() {
            uart.regs.rx_fifo_trigger.level() as usize
        } else {
            0
        }),
        fetch.then_until_empty == uart.regs.irq_status.rx_timeout(),
        uart.rx_fifo.len() >= fetch.exactly,
        !fetch.then_until_empty ==> uart.rx_fifo.len() == fetch.exactly,
    ensures
        spec_rx_take_count(uart) == uart.rx_fifo.len(),
        spec_rx_trigger_met(uart),
{
}

fn on_interrupt_handle_rx_errors(uart: &Uart) -> (errors: Option<UartErrors>)
    ensures
        errors == spec_rx_errors(uart.regs.rx_status),
{
    proof {
        uart.regs.rx_status.lemma_with_data_available(uart.rx_fifo@.len() > 0);
    }
    let rx_status = uart.read_rx_status();
    if rx_status.overrun_error() || rx_status.framing_error() || rx_status.parity_error() {
        let mut errors_val = UartErrors::default();

        if rx_status.overrun_error() {
            errors_val.overflow = true;
        }
        if rx_status.framing_error() {
            errors_val.framing = true;
        }
        if rx_status.parity_error() {
            errors_val.parity = true;
        }
        return Some(errors_val);
    }
    None
}

fn on_interrupt_rx_common_post_processing(
    uart: &mut Uart,
    state: &mut RxBankState,
    rx_enabled: bool,
    read_some_data: bool,
) -> (errors: Option<UartErrors>)
    ensures
        errors == (if rx_enabled {
            spec_rx_errors(old(uart).regs.rx_status)
        } else {
            None
        }),
        final(uart)@ == old(uart)@.with_irq_clr(spec_rx_irq_clear()),
        final(state).spec_read_active() == old(state).spec_read_active(),
        final(state).spec_has_data() == (old(state).spec_has_data() || read_some_data),
        final(state).spec_waker_registered() == old(state).spec_waker_registered(),
        final(state).spec_signals() == old(state).spec_signals() + (if read_some_data && old(state).spec_read_active() {
            1nat
        } else {
            0nat
        }),
{
    if read_some_data {
        state.has_data = true;
        if state.read_active {
            state.waker.wake();
        }
    }
    let mut errors = None;
    // Check for errors of the receiver.
    if rx_enabled {
        errors = on_interrupt_handle_rx_errors(uart);
    }
    // Clear the interrupt status bits.
    uart.write_irq_clr(InterruptClear { raw: 0 }.with_rx_overrun(true).with_tx_overrun(false));
    errors
}

/// Takes a byte from the receive FIFO and appends it to the ring buffer. A byte for
/// which the ring buffer has no room is dropped. Returns whether it was.
fn move_byte(uart: &mut Uart, prod: &mut RxQueue) -> (dropped: bool)
    ensures
        final(uart)@ == old(uart)@.after_read_data(),
        dropped == (queued_bytes(*old(prod)).len() >= RX_QUEUE_CAPACITY),
        queued_bytes(*final(prod)) == spec_stored(queued_bytes(*old(prod)), seq![old(uart)@.next_byte()]),
{
    let byte = uart.read_data().value();
    proof {
        lemma_byte_of_data(old(uart)@.next_byte());
    }
    let mut dropped = false;
    if queue_is_full(prod) {
        dropped = true;
    }
    let ghost held = queued_bytes(*prod);
    queue_enqueue(prod, byte);
    assert(held + seq![byte] =~= held.push(byte));
    assert(dropped ==> (held + seq![byte]).subrange(0, RX_QUEUE_CAPACITY as int) =~= held);
    dropped
}

/// Takes a byte from the receive FIFO and appends it to the ring buffer. If the ring
/// buffer has no room, its oldest byte is dropped first. Returns whether one was.
fn move_byte_overwriting(uart: &mut Uart, queue: &mut RxQueue) -> (dropped: bool)
    ensures
        final(uart)@ == old(uart)@.after_read_data(),
        dropped == (queued_bytes(*old(queue)).len() >= RX_QUEUE_CAPACITY),
        queued_bytes(*final(queue)) == spec_stored_overwriting(
            queued_bytes(*old(queue)),
            seq![old(uart)@.next_byte()],
        ),
{
    let byte = uart.read_data().value();
    proof {
        lemma_byte_of_data(old(uart)@.next_byte());
    }
    let ghost held = queued_bytes(*queue);
    let mut dropped = false;
    if queue_is_full(queue) {
        dropped = true;
        queue_dequeue(queue);
    }
    queue_enqueue(queue, byte);
    assert(held + seq![byte] =~= held.push(byte));
    assert(dropped ==> (held + seq![byte]).subrange(
        (held + seq![byte]).len() - RX_QUEUE_CAPACITY,
        (held + seq![byte]).len() as int,
    ) =~= held.subrange(1, held.len() as int).push(byte));
    dropped
}

/// The byte of a data register that holds `byte` is `byte`.
pub proof fn lemma_byte_of_data(byte: u8)
    ensures
        (super::regs::Data { raw: byte as u32 }).value() == byte,
{
    let raw = byte as u32;
    assert((raw >> 0u32) & !(0xffff_ffffu32 << 8u32) == raw) by (bit_vector)
        requires
            raw < 256,
    ;
}

/// Offering bytes one after the other is offering them at once, whether the byte
/// without room is dropped or pushes out the oldest.
pub proof fn lemma_stored_step(contents: Seq<u8>, bytes: Seq<u8>, byte: u8)
    ensures
        spec_stored(contents, bytes.push(byte)) == spec_stored(spec_stored(contents, bytes), seq![byte]),
        spec_stored_overwriting(contents, bytes.push(byte)) == spec_stored_overwriting(
            spec_stored_overwriting(contents, bytes),
            seq![byte],
        ),
        contents.len() <= RX_QUEUE_CAPACITY ==> spec_stored(contents, bytes).len() <= RX_QUEUE_CAPACITY,
        contents.len() <= RX_QUEUE_CAPACITY ==> spec_stored_overwriting(contents, bytes).len()
            <= RX_QUEUE_CAPACITY,
        spec_stored(contents, Seq::<u8>::empty()) == contents,
        spec_stored_overwriting(contents, Seq::<u8>::empty()) == contents,
{
    assert(contents + bytes.push(byte) =~= (contents + bytes).push(byte));
    assert(spec_stored(contents, bytes.push(byte)) =~= spec_stored(spec_stored(contents, bytes), seq![byte]));
    assert(spec_stored_overwriting(contents, bytes.push(byte)) =~= spec_stored_overwriting(
        spec_stored_overwriting(contents, bytes),
        seq![byte],
    ));
    assert(contents + Seq::<u8>::empty() =~= contents);
    assert(spec_stored(contents, Seq::<u8>::empty()) =~= contents);
    assert(spec_stored_overwriting(contents, Seq::<u8>::empty()) =~= contents);
}

/// A ring buffer that drops the byte without room keeps what it held and stores the
/// first bytes that are offered, as many as fit. The bytes that it drops are those that
/// are beyond its capacity: their number is what is offered beyond the room that is left.
pub proof fn lemma_stored_drops_the_excess(contents: Seq<u8>, bytes: Seq<u8>)
    requires
        contents.len() <= RX_QUEUE_CAPACITY,
    ensures
        spec_stored(contents, bytes).len() + spec_overflowing(contents.len(), bytes.len())
            == contents.len() + bytes.len(),
        forall|i: int| 0 <= i < contents.len() ==> spec_stored(contents, bytes)[i] == contents[i],
        forall|i: int|
            contents.len() <= i < spec_stored(contents, bytes).len() ==> spec_stored(contents, bytes)[i]
                == bytes[i - contents.len()],
{
}

/// A ring buffer that overwrites holds the most recent bytes, in their order: when more
/// bytes are offered than it has room for, it ends with them all; when more are offered
/// than it can hold, it holds the last of them and nothing else.
pub proof fn lemma_stored_overwriting_keeps_the_latest(contents: Seq<u8>, bytes: Seq<u8>)
    requires
        contents.len() <= RX_QUEUE_CAPACITY,
    ensures
        spec_stored_overwriting(contents, bytes).len() == (if contents.len() + bytes.len()
            <= RX_QUEUE_CAPACITY {
            contents.len() + bytes.len()
        } else {
            RX_QUEUE_CAPACITY as nat
        }),
        bytes.len() >= RX_QUEUE_CAPACITY ==> spec_stored_overwriting(contents, bytes) == bytes.subrange(
            bytes.len() - RX_QUEUE_CAPACITY,
            bytes.len() as int,
        ),
        bytes.len() <= RX_QUEUE_CAPACITY ==> spec_stored_overwriting(contents, bytes).subrange(
            spec_stored_overwriting(contents, bytes).len() - bytes.len(),
            spec_stored_overwriting(contents, bytes).len() as int,
        ) == bytes,
{
    let all = contents + bytes;
    if bytes.len() >= RX_QUEUE_CAPACITY {
        assert(spec_stored_overwriting(contents, bytes) =~= bytes.subrange(
            bytes.len() - RX_QUEUE_CAPACITY,
            bytes.len() as int,
        ));
    }
    if bytes.len() <= RX_QUEUE_CAPACITY {
        let stored = spec_stored_overwriting(contents, bytes);
        assert(stored.subrange(stored.len() - bytes.len(), stored.len() as int) =~= bytes);
    }
}

/// Interrupt handler for asynchronous reception that overwrites old data.
///
/// Should be called in the interrupt handler of the receiver. When the ring buffer is
/// full, the oldest byte makes room for the new one.
pub fn on_interrupt_rx_overwriting(uart: &mut Uart, state: &mut RxBankState, queue: &mut RxQueue) -> (res:
    Result<(), AsyncUartErrors>)
    requires
        spec_rx_trigger_met(old(uart)@),
    ensures
        queued_bytes(*final(queue)) == spec_stored_overwriting(
            queued_bytes(*old(queue)),
            old(uart).rx_fifo@.subrange(0, spec_rx_take_count(old(uart)@) as int),
        ),
        spec_rx_handled(
            old(uart)@,
            *old(state),
            spec_overflowing(queued_bytes(*old(queue)).len(), spec_rx_take_count(old(uart)@)) > 0,
            final(uart)@,
            *final(state),
            res,
        ),
{
    on_interrupt_rx_async_heapless_queue_overwriting(uart, state, queue)
}

/// Interrupt handler for asynchronous reception that overwrites old data.
///
/// On a half-full FIFO, as many bytes as the trigger level says are moved from the FIFO
/// to the ring buffer. On a timeout, the FIFO is emptied into the ring buffer. A byte for
/// which the ring buffer has no room pushes out the oldest byte. If data was moved, it
/// is marked as available and the reading task is woken. If the receive interrupt is
/// enabled, the errors of the receiver are part of the result. At the end the overrun of
/// the receiver is cleared.
pub fn on_interrupt_rx_async_heapless_queue_overwriting(
    uart: &mut Uart,
    state: &mut RxBankState,
    queue: &mut RxQueue,
) -> (res: Result<(), AsyncUartErrors>)
    requires
        spec_rx_trigger_met(old(uart)@),
    ensures
        queued_bytes(*final(queue)) == spec_stored_overwriting(
            queued_bytes(*old(queue)),
            old(uart).rx_fifo@.subrange(0, spec_rx_take_count(old(uart)@) as int),
        ),
        spec_rx_handled(
            old(uart)@,
            *old(state),
            spec_overflowing(queued_bytes(*old(queue)).len(), spec_rx_take_count(old(uart)@)) > 0,
            final(uart)@,
            *final(state),
            res,
        ),
{
    let irq_status = uart.read_irq_status();
    let irq_enabled = uart.read_irq_enabled();
    let rx_enabled = irq_enabled.rx();
    let mut read_some_data = false;
    let mut queue_overflow = false;
    let ghost fifo = uart.rx_fifo@;
    let ghost held = queued_bytes(*queue);
    let ghost mut taken: int = 0;
    proof {
        lemma_stored_step(held, Seq::<u8>::empty(), 0);
        assert(fifo.subrange(0, 0) =~= Seq::<u8>::empty());
        assert(fifo.subrange(0, fifo.len() as int) =~= fifo);
    }

    // Half-full interrupt: a number of bytes that can be read is guaranteed.
    if irq_status.rx() {
        let available_bytes = uart.read_rx_fifo_trigger().level() as usize;

        // With this interrupt, the FIFO holds the trigger level at the very least.
        let mut i: usize = 0;
        while i < available_bytes
            invariant
                i <= available_bytes <= fifo.len(),
                taken == i,
                uart@ == (UartView { rx_fifo: fifo.subrange(i as int, fifo.len() as int), ..old(uart)@ }),
                queued_bytes(*queue) == spec_stored_overwriting(held, fifo.subrange(0, i as int)),
                queue_overflow == (spec_overflowing(held.len(), i as nat) > 0),
            decreases available_bytes - i,
        {
            proof {
                lemma_stored_step(held, fifo.subrange(0, i as int), fifo[i as int]);
                assert(fifo.subrange(0, i as int).push(fifo[i as int]) =~= fifo.subrange(0, i + 1));
                assert(fifo.subrange(i as int, fifo.len() as int).subrange(
                    1,
                    fifo.len() - i,
                ) =~= fifo.subrange(i + 1, fifo.len() as int));
            }
            if move_byte_overwriting(uart, queue) {
                queue_overflow = true;
            }
            i += 1;
            proof {
                taken = taken + 1;
            }
        }
        read_some_data = true;
    }
    // Timeout: the FIFO is emptied.

    if irq_status.rx_timeout() {
        proof {
            uart.regs.rx_status.lemma_with_data_available(uart.rx_fifo@.len() > 0);
        }
        while uart.read_rx_status().data_available()
            invariant
                0 <= taken <= fifo.len(),
                uart@ == (UartView { rx_fifo: fifo.subrange(taken, fifo.len() as int), ..old(uart)@ }),
                queued_bytes(*queue) == spec_stored_overwriting(held, fifo.subrange(0, taken)),
                queue_overflow == (spec_overflowing(held.len(), taken as nat) > 0),
                uart@.rx_status().data_available() == (uart.rx_fifo@.len() > 0),
            decreases fifo.len() - taken,
        {
            proof {
                lemma_stored_step(held, fifo.subrange(0, taken), fifo[taken]);
                assert(fifo.subrange(0, taken).push(fifo[taken]) =~= fifo.subrange(0, taken + 1));
                assert(fifo.subrange(taken, fifo.len() as int).subrange(
                    1,
                    fifo.len() - taken,
                ) =~= fifo.subrange(taken + 1, fifo.len() as int));
            }
            // While there is data in the FIFO, it goes into the ring buffer.
            if move_byte_overwriting(uart, queue) {
                queue_overflow = true;
            }
            proof {
                taken = taken + 1;
                uart.regs.rx_status.lemma_with_data_available(uart.rx_fifo@.len() > 0);
            }
        }
        read_some_data = true;
    }
    let uart_errors = on_interrupt_rx_common_post_processing(uart, state, rx_enabled, read_some_data);
    if uart_errors.is_some() || queue_overflow {
        return Err(
            AsyncUartErrors {
                queue_overflow,
                uart_errors: match uart_errors {
                    Some(e) => e,
                    None => UartErrors::default(),
                },
            },
        );
    }
    Ok(())
}

/// Interrupt handler for asynchronous reception.
///
/// Should be called in the interrupt handler of the receiver. When the ring buffer is
/// full, the new byte is dropped.
pub fn on_interrupt_rx(uart: &mut Uart, state: &mut RxBankState, prod: &mut RxQueue) -> (res: Result<
    (),
    AsyncUartErrors,
>)
    requires
        spec_rx_trigger_met(old(uart)@),
    ensures
        queued_bytes(*final(prod)) == spec_stored(
            queued_bytes(*old(prod)),
            old(uart).rx_fifo@.subrange(0, spec_rx_take_count(old(uart)@) as int),
        ),
        spec_rx_handled(
            old(uart)@,
            *old(state),
            spec_overflowing(queued_bytes(*old(prod)).len(), spec_rx_take_count(old(uart)@)) > 0,
            final(uart)@,
            *final(state),
            res,
        ),
{
    on_interrupt_rx_async_heapless_queue(uart, state, prod)
}

/// Interrupt handler for asynchronous reception.
///
/// On a half-full FIFO, as many bytes as the trigger level says are moved from the FIFO
/// to the ring buffer. On a timeout, the FIFO is emptied into the ring buffer. A byte for
/// which the ring buffer has no room is dropped. If data was moved, it is marked as
/// available and the reading task is woken. If the receive interrupt is enabled, the
/// errors of the receiver are part of the result. At the end the overrun of the
/// receiver is cleared.
pub fn on_interrupt_rx_async_heapless_queue(uart: &mut Uart, state: &mut RxBankState, prod: &mut RxQueue) -> (res:
    Result<(), AsyncUartErrors>)
    requires
        spec_rx_trigger_met(old(uart)@),
    ensures
        queued_bytes(*final(prod)) == spec_stored(
            queued_bytes(*old(prod)),
            old(uart).rx_fifo@.subrange(0, spec_rx_take_count(old(uart)@) as int),
        ),
        spec_rx_handled(
            old(uart)@,
            *old(state),
            spec_overflowing(queued_bytes(*old(prod)).len(), spec_rx_take_count(old(uart)@)) > 0,
            final(uart)@,
            *final(state),
            res,
        ),
{
    let irq_status = uart.read_irq_status();
    let irq_enabled = uart.read_irq_enabled();
    let rx_enabled = irq_enabled.rx();
    let mut read_some_data = false;
    let mut queue_overflow = false;
    let ghost fifo = uart.rx_fifo@;
    let ghost held = queued_bytes(*prod);
    let ghost mut taken: int = 0;
    proof {
        lemma_stored_step(held, Seq::<u8>::empty(), 0);
        assert(fifo.subrange(0, 0) =~= Seq::<u8>::empty());
        assert(fifo.subrange(0, fifo.len() as int) =~= fifo);
    }

    // Half-full interrupt: a number of bytes that can be read is guaranteed.
    if irq_status.rx() {
        let available_bytes = uart.read_rx_fifo_trigger().level() as usize;

        // With this interrupt, the FIFO holds the trigger level at the very least.
        let mut i: usize = 0;
        while i < available_bytes
            invariant
                i <= available_bytes <= fifo.len(),
                taken == i,
                uart@ == (UartView { rx_fifo: fifo.subrange(i as int, fifo.len() as int), ..old(uart)@ }),
                queued_bytes(*prod) == spec_stored(held, fifo.subrange(0, i as int)),
                queue_overflow == (spec_overflowing(held.len(), i as nat) > 0),
            decreases available_bytes - i,
        {
            proof {
                lemma_stored_step(held, fifo.subrange(0, i as int), fifo[i as int]);
                assert(fifo.subrange(0, i as int).push(fifo[i as int]) =~= fifo.subrange(0, i + 1));
                assert(fifo.subrange(i as int, fifo.len() as int).subrange(
                    1,
                    fifo.len() - i,
                ) =~= fifo.subrange(i + 1, fifo.len() as int));
            }
            if move_byte(uart, prod) {
                queue_overflow = true;
            }
            i += 1;
            proof {
                taken = taken + 1;
            }
        }
        read_some_data = true;
    }
    // Timeout: the FIFO is emptied.

    if irq_status.rx_timeout() {
        proof {
            uart.regs.rx_status.lemma_with_data_available(uart.rx_fifo@.len() > 0);
        }
        while uart.read_rx_status().data_available()
            invariant
                0 <= taken <= fifo.len(),
                uart@ == (UartView { rx_fifo: fifo.subrange(taken, fifo.len() as int), ..old(uart)@ }),
                queued_bytes(*prod) == spec_stored(held, fifo.subrange(0, taken)),
                queue_overflow == (spec_overflowing(held.len(), taken as nat) > 0),
                uart@.rx_status().data_available() == (uart.rx_fifo@.len() > 0),
            decreases fifo.len() - taken,
        {
            proof {
                lemma_stored_step(held, fifo.subrange(0, taken), fifo[taken]);
                assert(fifo.subrange(0, taken).push(fifo[taken]) =~= fifo.subrange(0, taken + 1));
                assert(fifo.subrange(taken, fifo.len() as int).subrange(
                    1,
                    fifo.len() - taken,
                ) =~= fifo.subrange(taken + 1, fifo.len() as int));
            }
            // While there is data in the FIFO, it goes into the ring buffer.
            if move_byte(uart, prod) {
                queue_overflow = true;
            }
            proof {
                taken = taken + 1;
                uart.regs.rx_status.lemma_with_data_available(uart.rx_fifo@.len() > 0);
            }
        }
        read_some_data = true;
    }
    let uart_errors = on_interrupt_rx_common_post_processing(uart, state, rx_enabled, read_some_data);
    if uart_errors.is_some() || queue_overflow {
        return Err(
            AsyncUartErrors {
                queue_overflow,
                uart_errors: match uart_errors {
                    Some(e) => e,
                    None => UartErrors::default(),
                },
            },
        );
    }
    Ok(())
}

/// The wait of a reading task for data.
pub struct RxFuture {
    id: super::Bank,
}

impl RxFuture {
    /// The UART that the task reads from.
    pub closed spec fn spec_id(&self) -> super::Bank {
        self.id
    }

    /// Starts a wait on the receiver `rx`: a task is reading from now on.
    pub fn new(rx: &mut Rx, state: &mut RxBankState) -> (fut: RxFuture)
        ensures
            fut.spec_id() == old(rx).spec_id(),
            final(rx).spec_id() == old(rx).spec_id(),
            final(state).spec_read_active(),
            final(state).spec_has_data() == old(state).spec_has_data(),
            final(state).spec_waker_registered() == old(state).spec_waker_registered(),
            final(state).spec_signals() == old(state).spec_signals(),
    {
        state.read_active = true;
        RxFuture { id: rx.id() }
    }

    /// Registers the wake handle of the task, and is ready if there is data.
    pub fn poll(&self, state: &mut RxBankState, waker: &Waker) -> (res: Poll<()>)
        ensures
            res == (if old(state).spec_has_data() {
                Poll::Ready(())
            } else {
                Poll::<()>::Pending
            }),
            final(state).spec_waker_registered(),
            final(state).spec_signals() == old(state).spec_signals(),
            final(state).spec_has_data() == old(state).spec_has_data(),
            final(state).spec_read_active() == old(state).spec_read_active(),
    {
        state.waker.register(waker);
        if state.has_data {
            return Poll::Ready(());
        }
        Poll::Pending
    }

    /// Gives the wait up: no task is reading any more. What has arrived stays in the
    /// ring buffer for the next read.
    pub fn cancel(self, state: &mut RxBankState)
        ensures
            !final(state).spec_read_active(),
            final(state).spec_has_data() == old(state).spec_has_data(),
            final(state).spec_waker_registered() == old(state).spec_waker_registered(),
            final(state).spec_signals() == old(state).spec_signals(),
    {
        state.read_active = false;
    }
}

/// Takes bytes out of the ring buffer into `buf`: as many as the ring buffer holds and
/// `buf` has room for. Returns their number.
fn handle_data_in_queue(consumer: &mut RxQueue, buf: &mut [u8]) -> (data_to_read: usize)
    ensures
        data_to_read == spec_read_count(queued_bytes(*old(consumer)), old(buf)@),
        queued_bytes(*final(consumer)) == queued_bytes(*old(consumer)).subrange(
            data_to_read as int,
            queued_bytes(*old(consumer)).len() as int,
        ),
        final(buf)@ == spec_read_into(queued_bytes(*old(consumer)), old(buf)@),
{
    let len = queue_len(consumer);
    let data_to_read = if len < buf.len() {
        len
    } else {
        buf.len()
    };
    let ghost held = queued_bytes(*consumer);
    let ghost start = buf@;
    let mut i: usize = 0;
    while i < data_to_read
        invariant
            i <= data_to_read,
            data_to_read <= held.len(),
            data_to_read <= start.len(),
            buf@.len() == start.len(),
            queued_bytes(*consumer) == held.subrange(i as int, held.len() as int),
            buf@ == held.subrange(0, i as int) + start.subrange(i as int, start.len() as int),
        decreases data_to_read - i,
    {
        // The number of bytes that is taken is in the ring buffer.
        match queue_dequeue(consumer) {
            Some(byte) => {
                buf[i] = byte;
            },
            None => {},
        }
        assert(held.subrange(i as int, held.len() as int).subrange(1, held.len() - i) =~= held.subrange(
            i + 1,
            held.len() as int,
        ));
        assert(buf@ =~= held.subrange(0, i + 1) + start.subrange(i + 1, start.len() as int));
        i += 1;
    }
    assert(held.subrange(0, 0) + start.subrange(0, start.len() as int) =~= start);
    data_to_read
}

/// How many bytes a read takes out of a ring buffer that holds `held` into the buffer
/// `buf`: as many as there are and the buffer has room for.
pub open spec fn spec_read_count(held: Seq<u8>, buf: Seq<u8>) -> nat {
    if held.len() < buf.len() {
        held.len()
    } else {
        buf.len()
    }
}

/// The buffer `buf` after a read from a ring buffer that holds `held`: the oldest bytes
/// of the ring buffer in front, the rest as it was.
pub open spec fn spec_read_into(held: Seq<u8>, buf: Seq<u8>) -> Seq<u8> {
    let n = spec_read_count(held, buf) as int;
    held.subrange(0, n) + buf.subrange(n, buf.len() as int)
}

fn stop_async_rx(rx: &mut Rx, uart: &mut Uart)
    ensures
        final(rx).spec_id() == old(rx).spec_id(),
        final(uart)@ == spec_rx_stopped(old(uart)@),
{
    rx.disable_interrupts(uart);
    rx.disable(uart);
    rx.clear_fifo(uart);
}

/// The UART with the receiver stopped: its interrupts off, the receiver disabled, the
/// receive FIFO empty.
pub open spec fn spec_rx_stopped(uart: UartView) -> UartView {
    uart.with_irq_enabled(spec_rx_interrupts_disabled(uart.regs.irq_enabled)).with_enable(
        uart.regs.enable.with_rx(false),
    ).after_fifo_clr(super::regs::FifoClear { raw: 0 }.with_tx(false).with_rx(true))
}

/// The UART with the receiver started afresh: stopped, then its interrupts on with the
/// timeout and the receiver enabled.
pub open spec fn spec_rx_started(uart: UartView) -> UartView {
    let stopped = spec_rx_stopped(uart);
    let listening = stopped.with_irq_enabled(spec_rx_interrupts_enabled(stopped.regs.irq_enabled, true));
    listening.with_enable(listening.regs.enable.with_rx(true))
}

/// What a read leaves before it waits: the ring buffer, the buffer of the caller and the
/// state.
///
/// If the ring buffer holds bytes, the read takes them without waiting, and no task is
/// reading any more. If it holds none, the data is marked as not available and the task
/// goes on reading: it waits for a wake.
pub open spec fn spec_read_begun(
    held: Seq<u8>,
    buf: Seq<u8>,
    state_before: RxBankState,
    state_after: RxBankState,
    read: usize,
) -> bool {
    &&& read == spec_read_count(held, buf)
    &&& state_after.spec_waker_registered() == state_before.spec_waker_registered()
    &&& state_after.spec_signals() == state_before.spec_signals()
    &&& state_after.spec_has_data() == (state_before.spec_has_data() && held.len() > 0)
    &&& state_after.spec_read_active() == (read == 0)
}

/// Asynchronous receiver. If the ring buffer becomes full, data is lost.
pub struct RxAsync {
    rx: Rx,
}

impl RxAsync {
    /// The receiver.
    pub closed spec fn spec_rx(&self) -> Rx {
        self.rx
    }

    /// Makes an asynchronous receiver of `rx`: stops the receiver, empties its FIFO, and
    /// starts it with its interrupts.
    pub fn new(rx: Rx, uart: &mut Uart, nvic: &mut Nvic) -> (res: RxAsync)
        ensures
            res.spec_rx().spec_id() == rx.spec_id(),
            final(uart)@ == spec_rx_started(old(uart)@),
            final(nvic).is_enabled(rx.spec_id().interrupt_id_rx()),
    {
        let mut rx = rx;
        stop_async_rx(&mut rx, uart);
        // The interrupts and the receiver are enabled together.
        rx.enable_interrupts(uart, nvic, true, true);
        rx.enable(uart);
        RxAsync { rx }
    }

    /// Stops the receiver.
    pub fn stop(&mut self, uart: &mut Uart)
        ensures
            final(self).spec_rx().spec_id() == old(self).spec_rx().spec_id(),
            final(uart)@ == spec_rx_stopped(old(uart)@),
    {
        stop_async_rx(&mut self.rx, uart);
    }

    /// Stops the receiver and gives it back.
    pub fn release(self, uart: &mut Uart) -> (rx: Rx)
        ensures
            rx.spec_id() == self.spec_rx().spec_id(),
            final(uart)@ == spec_rx_stopped(old(uart)@),
    {
        let mut rx = self.rx;
        stop_async_rx(&mut rx, uart);
        rx
    }

    /// The first step of a read: takes what the ring buffer holds, without waiting.
    ///
    /// Returns the number of bytes that were taken. If it is 0, the task has to wait:
    /// it polls the wait that is returned with it and, once that is ready, calls
    /// [`RxAsync::finish_read`].
    pub fn begin_read(&mut self, state: &mut RxBankState, queue: &mut RxQueue, buf: &mut [u8]) -> (res: (
        usize,
        RxFuture,
    ))
        ensures
            final(self).spec_rx().spec_id() == old(self).spec_rx().spec_id(),
            res.1.spec_id() == old(self).spec_rx().spec_id(),
            spec_read_begun(queued_bytes(*old(queue)), old(buf)@, *old(state), *final(state), res.0),
            queued_bytes(*final(queue)) == queued_bytes(*old(queue)).subrange(
                res.0 as int,
                queued_bytes(*old(queue)).len() as int,
            ),
            final(buf)@ == spec_read_into(queued_bytes(*old(queue)), old(buf)@),
    {
        // The interrupt handler has to store data and set the flag. If the ring buffer is
        // not empty, the data is there.
        if queue_len(queue) == 0 {
            state.has_data = false;
        }
        let fut = RxFuture::new(&mut self.rx, state);
        // Data is available: it is read at once.
        let read_data = handle_data_in_queue(queue, buf);
        if read_data > 0 {
            state.read_active = false;
        }
        (read_data, fut)
    }

    /// The last step of a read that had to wait: takes what the ring buffer holds now,
    /// which is nothing if the wake was spurious. No task is reading afterwards.
    pub fn finish_read(&mut self, state: &mut RxBankState, queue: &mut RxQueue, buf: &mut [u8]) -> (read:
        usize)
        ensures
            final(self).spec_rx().spec_id() == old(self).spec_rx().spec_id(),
            read == spec_read_count(queued_bytes(*old(queue)), old(buf)@),
            queued_bytes(*final(queue)) == queued_bytes(*old(queue)).subrange(
                read as int,
                queued_bytes(*old(queue)).len() as int,
            ),
            final(buf)@ == spec_read_into(queued_bytes(*old(queue)), old(buf)@),
            !final(state).spec_read_active(),
            final(state).spec_has_data() == old(state).spec_has_data(),
            final(state).spec_waker_registered() == old(state).spec_waker_registered(),
            final(state).spec_signals() == old(state).spec_signals(),
    {
        let read_data = handle_data_in_queue(queue, buf);
        state.read_active = false;
        read_data
    }
}

/// Asynchronous receiver. If the ring buffer becomes full, the oldest data is
/// overwritten: the interrupt handler is [`on_interrupt_rx_overwriting`].
pub struct RxAsyncOverwriting {
    rx: Rx,
}

impl RxAsyncOverwriting {
    /// The receiver.
    pub closed spec fn spec_rx(&self) -> Rx {
        self.rx
    }

    /// Makes an asynchronous receiver of `rx`: stops the receiver, empties its FIFO, and
    /// starts it with its interrupts.
    pub fn new(rx: Rx, uart: &mut Uart, nvic: &mut Nvic) -> (res: RxAsyncOverwriting)
        ensures
            res.spec_rx().spec_id() == rx.spec_id(),
            final(uart)@ == spec_rx_started(old(uart)@),
            final(nvic).is_enabled(rx.spec_id().interrupt_id_rx()),
    {
        let mut rx = rx;
        stop_async_rx(&mut rx, uart);
        // The interrupts and the receiver are enabled together.
        rx.enable_interrupts(uart, nvic, true, true);
        rx.enable(uart);
        RxAsyncOverwriting { rx }
    }

    /// Stops the receiver.
    pub fn stop(&mut self, uart: &mut Uart)
        ensures
            final(self).spec_rx().spec_id() == old(self).spec_rx().spec_id(),
            final(uart)@ == spec_rx_stopped(old(uart)@),
    {
        stop_async_rx(&mut self.rx, uart);
    }

    /// Stops the receiver and gives it back.
    pub fn release(self, uart: &mut Uart) -> (rx: Rx)
        ensures
            rx.spec_id() == self.spec_rx().spec_id(),
            final(uart)@ == spec_rx_stopped(old(uart)@),
    {
        let mut rx = self.rx;
        stop_async_rx(&mut rx, uart);
        rx
    }

    /// The first step of a read: takes what the ring buffer holds, without waiting.
    ///
    /// Returns the number of bytes that were taken. If it is 0, the task has to wait:
    /// it polls the wait that is returned with it and, once that is ready, calls
    /// [`RxAsyncOverwriting::finish_read`].
    pub fn begin_read(&mut self, state: &mut RxBankState, queue: &mut RxQueue, buf: &mut [u8]) -> (res: (
        usize,
        RxFuture,
    ))
        ensures
            final(self).spec_rx().spec_id() == old(self).spec_rx().spec_id(),
            res.1.spec_id() == old(self).spec_rx().spec_id(),
            spec_read_begun(queued_bytes(*old(queue)), old(buf)@, *old(state), *final(state), res.0),
            queued_bytes(*final(queue)) == queued_bytes(*old(queue)).subrange(
                res.0 as int,
                queued_bytes(*old(queue)).len() as int,
            ),
            final(buf)@ == spec_read_into(queued_bytes(*old(queue)), old(buf)@),
    {
        // The interrupt handler has to store data and set the flag. If the ring buffer is
        // not empty, the data is there.
        if queue_len(queue) == 0 {
            state.has_data = false;
        }
        let fut = RxFuture::new(&mut self.rx, state);
        // Data is available: it is read at once.
        let read_data = handle_data_in_queue(queue, buf);
        if read_data > 0 {
            state.read_active = false;
        }
        (read_data, fut)
    }

    /// The last step of a read that had to wait: takes what the ring buffer holds now,
    /// which is nothing if the wake was spurious. No task is reading afterwards.
    pub fn finish_read(&mut self, state: &mut RxBankState, queue: &mut RxQueue, buf: &mut [u8]) -> (read:
        usize)
        ensures
            final(self).spec_rx().spec_id() == old(self).spec_rx().spec_id(),
            read == spec_read_count(queued_bytes(*old(queue)), old(buf)@),
            queued_bytes(*final(queue)) == queued_bytes(*old(queue)).subrange(
                read as int,
                queued_bytes(*old(queue)).len() as int,
            ),
            final(buf)@ == spec_read_into(queued_bytes(*old(queue)), old(buf)@),
            !final(state).spec_read_active(),
            final(state).spec_has_data() == old(state).spec_has_data(),
            final(state).spec_waker_registered() == old(state).spec_waker_registered(),
            final(state).spec_signals() == old(state).spec_signals(),
    {
        let read_data = handle_data_in_queue(queue, buf);
        state.read_active = false;
        read_data
    }
}

} // verus!
