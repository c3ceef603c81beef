//! Asynchronous transmission.
//!
//! A transmission sends the bytes of a buffer of the caller. It starts by filling the
//! transmit FIFO of the UART. From then on the interrupt handler, [`on_interrupt_tx`],
//! writes the next bytes whenever the FIFO has room, until the buffer is sent and the
//! transmitter is idle. Then it marks the transmission as done and wakes the task.
//!
//! The buffer is borrowed, not copied: the state that the interrupt handler works on
//! holds the borrow for as long as the transmission is in flight.
use super::regs::{Data, Uart, UartView, FIFO_DEPTH};
use super::rx_asynch::lemma_byte_of_data;
use super::{disable_tx, disable_tx_interrupts, spec_tx_interrupts_disabled, spec_tx_interrupts_enabled, Bank, Tx};
use crate::wake::{Poll, WakeSlot};
use crate::Nvic;
use core::task::Waker;
use vstd::prelude::*;

verus! {

/// What a transmission keeps between the interrupts: how many bytes of the buffer were
/// written to the UART, whether a byte was lost to a full FIFO, and the buffer.
#[derive(Debug, Copy, Clone)]
pub struct TxContext<'a> {
    progress: usize,
    tx_overrun: bool,
    slice: Option<&'a [u8]>,
}

impl<'a> TxContext<'a> {
    /// Number of bytes of the buffer that were written to the UART.
    pub closed spec fn spec_progress(&self) -> usize {
        self.progress
    }

    /// Whether the last interrupt found that a byte was lost to a full FIFO.
    pub closed spec fn spec_tx_overrun(&self) -> bool {
        self.tx_overrun
    }

    /// The bytes of the buffer, once a transmission was started.
    pub closed spec fn spec_data(&self) -> Option<Seq<u8>> {
        match self.slice {
            Some(slice) => Some(slice@),
            None => None,
        }
    }

    /// The invariant of the type: no more bytes were written than the buffer holds.
    pub open spec fn wf(&self) -> bool {
        self.spec_data() matches Some(data) ==> self.spec_progress() <= data.len()
    }

    /// The context before the first transmission: nothing written, no buffer.
    pub fn new() -> (context: TxContext<'a>)
        ensures
            context.spec_progress() == 0,
            !context.spec_tx_overrun(),
            context.spec_data().is_none(),
            context.wf(),
    {
        TxContext { progress: 0, tx_overrun: false, slice: None }
    }

    /// Number of bytes of the buffer that were written to the UART.
    #[verifier::when_used_as_spec(spec_progress)]
    pub fn progress(&self) -> (progress: usize)
        ensures
            progress == self.spec_progress(),
    {
        self.progress
    }

    /// The length of the buffer, once a transmission was started.
    pub fn buffer_len(&self) -> (len: Option<usize>)
        ensures
            len.is_some() == self.spec_data().is_some(),
            len matches Some(n) ==> n == self.spec_data().unwrap().len(),
    {
        match self.slice {
            Some(slice) => Some(slice.len()),
            None => None,
        }
    }

    /// Whether the last interrupt found that a byte was lost to a full FIFO.
    #[verifier::when_used_as_spec(spec_tx_overrun)]
    pub fn tx_overrun(&self) -> (overrun: bool)
        ensures
            overrun == self.spec_tx_overrun(),
    {
        self.tx_overrun
    }
}

/// What the interrupt handler and the writing task of one UART share.
pub struct TxBankState<'a> {
    waker: WakeSlot,
    context: TxContext<'a>,
    done: bool,
}

impl<'a> TxBankState<'a> {
    /// Whether a wake handle is registered.
    pub closed spec fn spec_waker_registered(&self) -> bool {
        self.waker.is_registered()
    }

    /// How often the wake handle of the task was signalled.
    pub closed spec fn spec_signals(&self) -> nat {
        self.waker.spec_signals()
    }

    /// What the transmission keeps between the interrupts.
    pub closed spec fn spec_context(&self) -> TxContext<'a> {
        self.context
    }

    /// Whether the transmission is complete and the task has not been told yet.
    pub closed spec fn spec_done(&self) -> bool {
        self.done
    }

    /// The invariant of the type: that of the context.
    pub open spec fn wf(&self) -> bool {
        self.spec_context().wf()
    }

    /// The state of a UART that has not transmitted.
    pub fn new() -> (state: TxBankState<'a>)
        ensures
            !state.spec_waker_registered(),
            state.spec_signals() == 0,
            !state.spec_done(),
            state.spec_context().spec_progress() == 0,
            !state.spec_context().spec_tx_overrun(),
            state.spec_context().spec_data().is_none(),
            state.wf(),
    {
        TxBankState { waker: WakeSlot::new(), context: TxContext::new(), done: false }
    }

    /// What the transmission keeps between the interrupts.
    #[verifier::when_used_as_spec(spec_context)]
    pub fn context(&self) -> (context: TxContext<'a>)
        ensures
            context == self.spec_context(),
    {
        self.context
    }

    /// Whether the transmission is complete and the task has not been told yet.
    #[verifier::when_used_as_spec(spec_done)]
    pub fn done(&self) -> (b: bool)
        ensures
            b == self.spec_done(),
    {
        self.done
    }
}

/// The room that is left in a transmit FIFO that holds `held` bytes.
pub open spec fn spec_tx_room(held: nat) -> nat {
    if held < FIFO_DEPTH {
        (FIFO_DEPTH - held) as nat
    } else {
        0
    }
}

/// How many bytes an interrupt writes: what is left of the buffer after `progress`
/// bytes, but no more than the transmit FIFO has room for.
pub open spec fn spec_tx_written(data: Seq<u8>, progress: nat, held: nat) -> nat {
    let left = (data.len() - progress) as nat;
    if left <= spec_tx_room(held) {
        left
    } else {
        spec_tx_room(held)
    }
}

/// Whether the interrupt is one of the transmitter: the interrupt for the half-empty or
/// for the empty FIFO is enabled.
pub open spec fn spec_tx_related(uart: UartView) -> bool {
    uart.regs.irq_enabled.tx() || uart.regs.irq_enabled.tx_empty()
}

/// Whether the interrupt finds the transmission complete: the buffer is written and
/// the transmitter is idle.
pub open spec fn spec_tx_complete(uart: UartView, context: TxContext) -> bool {
    context.spec_progress() >= context.spec_data().unwrap().len() && !uart.regs.tx_status.tx_busy()
}

/// The UART after a transmission has ended or was given up: the interrupts of the
/// transmitter off, the transmitter disabled.
pub open spec fn spec_tx_stopped(uart: UartView) -> UartView {
    let quiet = uart.with_irq_enabled(spec_tx_interrupts_disabled(uart.regs.irq_enabled));
    quiet.with_enable(quiet.regs.enable.with_tx(false))
}

/// Interrupt handler for asynchronous transmission.
///
/// Should be called in every interrupt handler of the transmitter of the UART.
///
/// An interrupt that is none of the transmitter changes nothing. Of any other, the
/// handler records whether a byte was lost to a full FIFO. If the buffer is written and
/// the transmitter is idle, the transmission is complete: the handler stops the
/// transmitter, marks the transmission as done and wakes the task. Else it writes the
/// next bytes of the buffer for as long as the FIFO has room, and the hardware will
/// interrupt again.
///
/// An interrupt of the transmitter comes only while a transmission is in flight, that
/// is after [`TxFuture::new`].
pub fn on_interrupt_tx(uart: &mut Uart, state: &mut TxBankState)
    requires
        old(state).wf(),
        spec_tx_related(old(uart)@) ==> old(state).spec_context().spec_data().is_some(),
    ensures
        final(state).wf(),
        final(state).spec_context().spec_data() == old(state).spec_context().spec_data(),
        !spec_tx_related(old(uart)@) ==> {
            &&& final(uart)@ == old(uart)@
            &&& final(state).spec_context() == old(state).spec_context()
            &&& final(state).spec_done() == old(state).spec_done()
            &&& final(state).spec_waker_registered() == old(state).spec_waker_registered()
            &&& final(state).spec_signals() == old(state).spec_signals()
        },
        spec_tx_related(old(uart)@) ==> final(state).spec_context().spec_tx_overrun() == old(
            uart,
        ).regs.tx_status.wr_lost(),
        spec_tx_related(old(uart)@) && spec_tx_complete(old(uart)@, old(state).spec_context()) ==> {
            &&& final(uart)@ == spec_tx_stopped(old(uart)@)
            &&& final(state).spec_context().spec_progress() == old(state).spec_context().spec_progress()
            &&& final(state).spec_done()
            &&& final(state).spec_waker_registered() == old(state).spec_waker_registered()
            &&& final(state).spec_signals() == old(state).spec_signals() + 1
        },
        spec_tx_related(old(uart)@) && !spec_tx_complete(old(uart)@, old(state).spec_context()) ==> {
            let data = old(state).spec_context().spec_data().unwrap();
            let progress = old(state).spec_context().spec_progress();
            let written = spec_tx_written(data, progress as nat, old(uart).tx_fifo@.len());
            &&& final(uart)@ == (UartView {
                tx_fifo: old(uart).tx_fifo@ + data.subrange(progress as int, progress + written),
                ..old(uart)@
            })
            &&& final(state).spec_context().spec_progress() == progress + written
            &&& final(state).spec_done() == old(state).spec_done()
            &&& final(state).spec_waker_registered() == old(state).spec_waker_registered()
            &&& final(state).spec_signals() == old(state).spec_signals()
        },
{
    let irq_enabled = uart.read_irq_enabled();
    // The interrupt is not one of the transmitter.
    if !irq_enabled.tx() && !irq_enabled.tx_empty() {
        return ;
    }
    proof {
        uart.regs.tx_status.lemma_with_ready(uart.tx_fifo@.len() < FIFO_DEPTH);
    }
    let tx_status = uart.read_tx_status();
    let unexpected_overrun = tx_status.wr_lost();
    state.context.tx_overrun = unexpected_overrun;
    let slice: &[u8] = match state.context.slice {
        Some(slice) => slice,
        None => {
            return ;
        },
    };
    if state.context.progress >= slice.len() && !tx_status.tx_busy() {
        disable_tx_interrupts(uart);
        disable_tx(uart);
        // The transmission is done.
        state.done = true;
        state.waker.wake();
        return ;
    }
    let ghost start = state.context.progress;
    let ghost fifo = uart.tx_fifo@;
    let ghost written = spec_tx_written(slice@, start as nat, fifo.len());
    assert(fifo + slice@.subrange(start as int, start as int) =~= fifo);
    while state.context.progress < slice.len() && uart.read_tx_status().ready()
        invariant
            start <= state.context.progress <= slice@.len(),
            state.context.progress - start <= written,
            state.context.slice == Some(slice),
            state.context.tx_overrun == unexpected_overrun,
            state.done == old(state).done,
            state.waker == old(state).waker,
            written == spec_tx_written(slice@, start as nat, fifo.len()),
            uart@ == (UartView {
                tx_fifo: fifo + slice@.subrange(start as int, state.context.progress as int),
                ..old(uart)@
            }),
            uart@.tx_status().ready() == (uart.tx_fifo@.len() < FIFO_DEPTH),
        decreases slice@.len() - state.context.progress,
    {
        let byte = slice[state.context.progress];
        proof {
            lemma_byte_of_data(byte);
            assert(slice@.subrange(start as int, state.context.progress as int).push(byte) =~= slice@.subrange(
                start as int,
                state.context.progress + 1,
            ));
        }
        // The future does not write the data register, so the handler is the only one
        // that does.
        uart.write_data(Data::new_with_raw_value(byte as u32));
        state.context.progress += 1;
        proof {
            assert(fifo + slice@.subrange(start as int, state.context.progress as int) =~= (fifo
                + slice@.subrange(start as int, state.context.progress - 1)).push(byte));
            uart.regs.tx_status.lemma_with_ready(uart.tx_fifo@.len() < FIFO_DEPTH);
        }
    }
}

/// A byte was lost to a full transmit FIFO.
#[derive(Debug, Clone, Copy, PartialEq, Eq, Structural)]
pub struct TxOverrunError;

/// A transmission in flight.
pub struct TxFuture {
    id: Bank,
}

impl TxFuture {
    /// The UART that transmits.
    pub closed spec fn spec_id(&self) -> Bank {
        self.id
    }

    /// Starts the transmission of `data`.
    ///
    /// The transmitter is stopped and its FIFO emptied. The first bytes of `data` are
    /// written to the FIFO, as many as it holds, and count as progress. The state takes
    /// the borrow of `data`, and the transmitter is started with its interrupts, whose
    /// line is unmasked. The interrupt handler writes the rest.
    pub fn new<'a>(tx: &mut Tx, uart: &mut Uart, nvic: &mut Nvic, state: &mut TxBankState<'a>, data: &'a [u8]) -> (fut:
        TxFuture)
        ensures
            fut.spec_id() == old(tx).spec_id(),
            final(tx).spec_id() == old(tx).spec_id(),
            final(uart)@ == spec_tx_started(old(uart)@, data@),
            final(nvic).is_enabled(old(tx).spec_id().interrupt_id_tx()),
            final(state).wf(),
            !final(state).spec_done(),
            final(state).spec_waker_registered() == old(state).spec_waker_registered(),
            final(state).spec_signals() == old(state).spec_signals(),
            final(state).spec_context().spec_data() == Some(data@),
            final(state).spec_context().spec_progress() == spec_tx_prefill(data@),
            final(state).spec_context().spec_tx_overrun() == old(state).spec_context().spec_tx_overrun(),
    {
        state.done = false;
        tx.disable_interrupts(uart);
        tx.disable(uart);
        tx.clear_fifo(uart);
        proof {
            uart.regs.fifo_clr.lemma_with_tx(true);
            (super::regs::FifoClear { raw: 0 }).lemma_with_tx(true);
            (super::regs::FifoClear { raw: 0 }).with_tx(true).lemma_with_rx(false);
        }
        let ghost cleared = uart@;
        let init_fill_count = if data.len() < FIFO_DEPTH {
            data.len()
        } else {
            FIFO_DEPTH
        };
        // The FIFO is filled.
        let mut i: usize = 0;
        assert(data@.subrange(0, 0) =~= Seq::<u8>::empty());
        while i < init_fill_count
            invariant
                i <= init_fill_count <= FIFO_DEPTH,
                init_fill_count <= data@.len(),
                cleared.tx_fifo == Seq::<u8>::empty(),
                uart@ == (UartView { tx_fifo: data@.subrange(0, i as int), ..cleared }),
            decreases init_fill_count - i,
        {
            let byte = data[i];
            proof {
                lemma_byte_of_data(byte);
                assert(data@.subrange(0, i as int).push(byte) =~= data@.subrange(0, i + 1));
            }
            uart.write_data(Data::new_with_raw_value(byte as u32));
            i += 1;
        }
        state.context.slice = Some(data);
        state.context.progress = init_fill_count;

        // The interrupts and the transmitter are enabled together.
        tx.enable_interrupts(uart, nvic, true);
        tx.enable(uart);
        TxFuture { id: tx.id() }
    }

    /// Registers the wake handle of the task, and is ready with the number of bytes
    /// that were written if the transmission is complete. The task is told once.
    pub fn poll(&self, state: &mut TxBankState, waker: &Waker) -> (res: Poll<Result<usize, TxOverrunError>>)
        ensures
            res == (if old(state).spec_done() {
                Poll::Ready(Ok::<usize, TxOverrunError>(old(state).spec_context().spec_progress()))
            } else {
                Poll::<Result<usize, TxOverrunError>>::Pending
            }),
            final(state).spec_waker_registered(),
            final(state).spec_signals() == old(state).spec_signals(),
            !final(state).spec_done(),
            final(state).spec_context() == old(state).spec_context(),
    {
        state.waker.register(waker);
        if state.done {
            state.done = false;
            let progress = state.context.progress;
            return Poll::Ready(Ok(progress));
        }
        Poll::Pending
    }

    /// Gives the transmission up: the interrupts of the transmitter off, the
    /// transmitter disabled. Bytes that were written to the hardware are not taken back.
    pub fn cancel(self, uart: &mut Uart)
        ensures
            final(uart)@ == spec_tx_stopped(old(uart)@),
    {
        disable_tx_interrupts(uart);
        disable_tx(uart);
    }
}

/// How many bytes the start of a transmission writes: the buffer, but no more than the
/// transmit FIFO holds.
pub open spec fn spec_tx_prefill(data: Seq<u8>) -> usize {
    if data.len() < FIFO_DEPTH {
        data.len() as usize
    } else {
        FIFO_DEPTH
    }
}

/// The UART after the start of a transmission of `data`: the transmit FIFO holds the
/// first bytes of `data` and nothing else, the interrupts of the transmitter are on and
/// the transmitter is enabled.
pub open spec fn spec_tx_started(uart: UartView, data: Seq<u8>) -> UartView {
    let cleared = spec_tx_stopped(uart).after_fifo_clr(
        (super::regs::FifoClear { raw: 0 }).with_tx(true).with_rx(false),
    );
    let filled = UartView { tx_fifo: data.subrange(0, spec_tx_prefill(data) as int), ..cleared };
    let listening = filled.with_irq_enabled(spec_tx_interrupts_enabled(filled.regs.irq_enabled));
    listening.with_enable(listening.regs.enable.with_tx(true))
}

/// Asynchronous transmitter.
pub struct TxAsync(pub Tx);

impl TxAsync {
    /// The transmitter.
    pub open spec fn spec_tx(&self) -> Tx {
        self.0
    }

    /// Makes an asynchronous transmitter of `tx`.
    pub fn new(tx: Tx) -> (res: TxAsync)
        ensures
            res.spec_tx() == tx,
    {
        TxAsync(tx)
    }

    /// Gives the transmitter back.
    pub fn release(self) -> (tx: Tx)
        ensures
            tx == self.spec_tx(),
    {
        self.0
    }

    /// Starts to write `buf`. A transmission that was started may have written a part of
    /// the buffer when it is given up.
    pub fn write<'a>(&mut self, uart: &mut Uart, nvic: &mut Nvic, state: &mut TxBankState<'a>, buf: &'a [u8]) -> (fut:
        TxFuture)
        ensures
            fut.spec_id() == old(self).spec_tx().spec_id(),
            final(self).spec_tx().spec_id() == old(self).spec_tx().spec_id(),
            final(uart)@ == spec_tx_started(old(uart)@, buf@),
            final(nvic).is_enabled(old(self).spec_tx().spec_id().interrupt_id_tx()),
            final(state).wf(),
            !final(state).spec_done(),
            final(state).spec_waker_registered() == old(state).spec_waker_registered(),
            final(state).spec_signals() == old(state).spec_signals(),
            final(state).spec_context().spec_data() == Some(buf@),
            final(state).spec_context().spec_progress() == spec_tx_prefill(buf@),
            final(state).spec_context().spec_tx_overrun() == old(state).spec_context().spec_tx_overrun(),
    {
        TxFuture::new(&mut self.0, uart, nvic, state, buf)
    }
}

} // verus!
