//! The asynchronous receiver and transmitter of the UART.
use std::sync::atomic::{AtomicUsize, Ordering};
use std::sync::Arc;
use std::task::{Wake, Waker};

use vorago_shared_hal::uart::regs::{Bank, FifoTrigger, InterruptControl, InterruptStatus, RxStatus, TxStatus, Uart};
use vorago_shared_hal::uart::rx_asynch::{
    on_interrupt_rx, on_interrupt_rx_async_heapless_queue, on_interrupt_rx_async_heapless_queue_overwriting,
    on_interrupt_rx_overwriting, AsyncUartErrors, RxAsync, RxAsyncOverwriting, RxBankState, RxFuture, RxQueue,
    RX_QUEUE_CAPACITY,
};
use vorago_shared_hal::uart::tx_asynch::{on_interrupt_tx, TxAsync, TxBankState, TxFuture};
use vorago_shared_hal::uart::{Rx, Tx, UartErrors};
use vorago_shared_hal::wake::Poll;
use vorago_shared_hal::{Interrupt, Nvic};

struct CountingWaker {
    count: AtomicUsize,
}

impl Wake for CountingWaker {
    fn wake(self: Arc<Self>) {
        self.count.fetch_add(1, Ordering::SeqCst);
    }
}

fn counting_waker() -> (Arc<CountingWaker>, Waker) {
    let counter = Arc::new(CountingWaker { count: AtomicUsize::new(0) });
    (counter.clone(), Waker::from(counter))
}

fn new_uart() -> Uart {
    Uart::new_mmio(Bank::Uart0)
}

/// A UART on which `bytes` have arrived and have run into a timeout.
fn uart_with_timeout(bytes: &[u8]) -> Uart {
    let mut uart = new_uart();
    uart.rx_fifo = bytes.to_vec();
    uart.regs.irq_status = InterruptStatus { raw: 0 }.with_rx_timeout(true);
    uart.regs.irq_enabled = InterruptControl { raw: 0 }.with_rx(true).with_rx_timeout(true);
    uart
}

fn contents(queue: &RxQueue) -> Vec<u8> {
    queue.iter().copied().collect()
}

fn pattern(len: usize) -> Vec<u8> {
    (0..len).map(|i| (i * 7 + 3) as u8).collect()
}

#[test]
fn rx_half_full_takes_the_trigger_level() {
    let mut uart = new_uart();
    uart.rx_fifo = vec![1, 2, 3, 4, 5, 6, 7, 8, 9, 10];
    uart.regs.rx_fifo_trigger = FifoTrigger { raw: 8 };
    uart.regs.irq_status = InterruptStatus { raw: 0 }.with_rx(true);
    uart.regs.irq_enabled = InterruptControl { raw: 0 }.with_rx(true);
    let mut state = RxBankState::new();
    let mut queue = RxQueue::new();
    assert_eq!(on_interrupt_rx(&mut uart, &mut state, &mut queue), Ok(()));
    assert_eq!(contents(&queue), vec![1, 2, 3, 4, 5, 6, 7, 8]);
    assert_eq!(uart.rx_fifo, vec![9, 10]);
    assert!(state.has_data());
    // The overrun of the receiver is cleared at the end.
    assert_eq!(uart.regs.irq_clr.raw, 0b10);
}

#[test]
fn rx_timeout_empties_the_fifo() {
    let mut uart = uart_with_timeout(&[9, 8, 7]);
    let mut state = RxBankState::new();
    let mut queue = RxQueue::new();
    queue.enqueue(1).unwrap();
    assert_eq!(on_interrupt_rx(&mut uart, &mut state, &mut queue), Ok(()));
    assert_eq!(contents(&queue), vec![1, 9, 8, 7]);
    assert!(uart.rx_fifo.is_empty());
    assert!(state.has_data());
}

#[test]
fn rx_half_full_and_timeout_together_empty_the_fifo() {
    let mut uart = uart_with_timeout(&[1, 2, 3, 4, 5, 6]);
    uart.regs.rx_fifo_trigger = FifoTrigger { raw: 4 };
    uart.regs.irq_status = uart.regs.irq_status.with_rx(true);
    let mut state = RxBankState::new();
    let mut queue = RxQueue::new();
    assert_eq!(on_interrupt_rx_async_heapless_queue(&mut uart, &mut state, &mut queue), Ok(()));
    assert_eq!(contents(&queue), vec![1, 2, 3, 4, 5, 6]);
    assert!(uart.rx_fifo.is_empty());
}

#[test]
fn rx_interrupt_of_another_kind_moves_nothing() {
    let mut uart = new_uart();
    uart.rx_fifo = vec![1, 2];
    uart.regs.irq_status = InterruptStatus { raw: 0 }.with_tx(true);
    let mut state = RxBankState::new();
    let mut queue = RxQueue::new();
    assert_eq!(on_interrupt_rx(&mut uart, &mut state, &mut queue), Ok(()));
    assert!(contents(&queue).is_empty());
    assert_eq!(uart.rx_fifo, vec![1, 2]);
    assert!(!state.has_data());
    assert_eq!(uart.regs.irq_clr.raw, 0b10);
}

#[test]
fn rx_dropping_keeps_the_first_bytes_and_reports_each_drop() {
    let data = pattern(300);
    let mut state = RxBankState::new();
    let mut queue = RxQueue::new();
    let mut reports = 0;
    // One byte for each interrupt: each report stands for one byte.
    for byte in &data {
        let mut uart = uart_with_timeout(&[*byte]);
        match on_interrupt_rx(&mut uart, &mut state, &mut queue) {
            Ok(()) => {}
            Err(e) => {
                assert_eq!(
                    e,
                    AsyncUartErrors {
                        queue_overflow: true,
                        uart_errors: UartErrors { overflow: false, framing: false, parity: false, other: false },
                    }
                );
                reports += 1;
            }
        }
        assert!(queue.len() <= RX_QUEUE_CAPACITY);
    }
    assert_eq!(RX_QUEUE_CAPACITY, 255);
    assert_eq!(reports, 300 - 255);
    assert_eq!(contents(&queue), data[..255].to_vec());
}

#[test]
fn rx_dropping_in_chunks_keeps_the_first_bytes() {
    let data = pattern(300);
    let mut state = RxBankState::new();
    let mut queue = RxQueue::new();
    let mut results = Vec::new();
    for chunk in data.chunks(16) {
        let mut uart = uart_with_timeout(chunk);
        results.push(on_interrupt_rx(&mut uart, &mut state, &mut queue).is_err());
        assert!(uart.rx_fifo.is_empty());
    }
    assert_eq!(contents(&queue), data[..255].to_vec());
    // 15 chunks fit, the 16th overflows by a byte, and so do the rest.
    let mut expected = vec![false; 15];
    expected.extend([true, true, true, true]);
    assert_eq!(results, expected);
}

#[test]
fn rx_overwriting_keeps_the_latest_bytes_in_order() {
    let data = pattern(300);
    let mut state = RxBankState::new();
    let mut queue = RxQueue::new();
    let mut reports = 0;
    for byte in &data {
        let mut uart = uart_with_timeout(&[*byte]);
        if let Err(e) = on_interrupt_rx_overwriting(&mut uart, &mut state, &mut queue) {
            assert!(e.queue_overflow);
            reports += 1;
        }
        assert!(queue.len() <= RX_QUEUE_CAPACITY);
    }
    assert_eq!(reports, 45);
    assert_eq!(contents(&queue), data[45..].to_vec());
}

#[test]
fn rx_overwriting_in_chunks_keeps_the_latest_bytes_in_order() {
    let data = pattern(1000);
    let mut state = RxBankState::new();
    let mut queue = RxQueue::new();
    for chunk in data.chunks(13) {
        let mut uart = uart_with_timeout(chunk);
        let _ = on_interrupt_rx_async_heapless_queue_overwriting(&mut uart, &mut state, &mut queue);
    }
    assert_eq!(contents(&queue), data[1000 - 255..].to_vec());
}

#[test]
fn rx_errors_are_part_of_the_result() {
    let mut uart = uart_with_timeout(&[5]);
    uart.regs.rx_status = RxStatus { raw: 0 }.with_framing_error(true).with_parity_error(true);
    let mut state = RxBankState::new();
    let mut queue = RxQueue::new();
    assert_eq!(
        on_interrupt_rx(&mut uart, &mut state, &mut queue),
        Err(AsyncUartErrors {
            queue_overflow: false,
            uart_errors: UartErrors { overflow: false, framing: true, parity: true, other: false },
        })
    );
    // The byte is received all the same.
    assert_eq!(contents(&queue), vec![5]);
    // With the receive interrupt disabled, the errors are not looked at.
    let mut uart = uart_with_timeout(&[6]);
    uart.regs.rx_status = RxStatus { raw: 0 }.with_overrun_error(true);
    uart.regs.irq_enabled = InterruptControl { raw: 0 };
    assert_eq!(on_interrupt_rx(&mut uart, &mut state, &mut queue), Ok(()));
    let mut uart = uart_with_timeout(&[7]);
    uart.regs.rx_status = RxStatus { raw: 0 }.with_overrun_error(true);
    let err = on_interrupt_rx(&mut uart, &mut state, &mut queue).unwrap_err();
    assert!(err.uart_errors.overflow());
    assert!(err.uart_errors.error());
    assert!(!err.queue_overflow);
}

#[test]
fn rx_interrupt_wakes_a_reading_task_only() {
    let (counter, waker) = counting_waker();
    let mut state = RxBankState::new();
    let mut queue = RxQueue::new();
    let mut rx = Rx::steal(Bank::Uart0);
    // Nobody reads: data is marked, nobody is woken.
    let mut uart = uart_with_timeout(&[1]);
    on_interrupt_rx(&mut uart, &mut state, &mut queue).unwrap();
    assert!(state.has_data());
    assert!(!state.read_active());
    // A task reads and waits.
    let fut = RxFuture::new(&mut rx, &mut state);
    assert!(state.read_active());
    assert_eq!(fut.poll(&mut state, &waker), Poll::Ready(()));
    let mut uart = uart_with_timeout(&[2]);
    on_interrupt_rx(&mut uart, &mut state, &mut queue).unwrap();
    assert_eq!(counter.count.load(Ordering::SeqCst), 1);
    // An interrupt that moves nothing wakes nobody.
    assert_eq!(fut.poll(&mut state, &waker), Poll::Ready(()));
    let mut uart = new_uart();
    on_interrupt_rx(&mut uart, &mut state, &mut queue).unwrap();
    assert_eq!(counter.count.load(Ordering::SeqCst), 1);
    // The wake handle has stayed registered: the next data signals it again.
    let mut uart = uart_with_timeout(&[3]);
    on_interrupt_rx(&mut uart, &mut state, &mut queue).unwrap();
    assert_eq!(counter.count.load(Ordering::SeqCst), 2);
}

#[test]
fn rx_async_construction_restarts_the_receiver() {
    let mut uart = new_uart();
    uart.rx_fifo = vec![1, 2, 3];
    uart.tx_fifo = vec![4];
    let mut nvic = Nvic::new();
    let rx = RxAsync::new(Rx::steal(Bank::Uart1), &mut uart, &mut nvic);
    assert!(uart.rx_fifo.is_empty());
    assert_eq!(uart.tx_fifo, vec![4]);
    assert!(uart.regs.enable.rx());
    assert!(!uart.regs.enable.tx());
    assert!(uart.regs.irq_enabled.rx());
    assert!(uart.regs.irq_enabled.rx_status());
    assert!(uart.regs.irq_enabled.rx_timeout());
    assert_eq!(uart.regs.irq_enabled.raw, 0b111);
    // The receiver of UART 1 is on line 27.
    assert!(nvic.is_enabled(Interrupt { number: 27 }));
    let rx = rx.release(&mut uart);
    assert_eq!(rx.id(), Bank::Uart1);
    assert!(!uart.regs.enable.rx());
    assert_eq!(uart.regs.irq_enabled.raw, 0);
}

#[test]
fn rx_read_takes_what_is_there_without_waiting() {
    let mut uart = new_uart();
    let mut nvic = Nvic::new();
    let mut rx = RxAsync::new(Rx::steal(Bank::Uart0), &mut uart, &mut nvic);
    let mut state = RxBankState::new();
    let mut queue = RxQueue::new();
    let mut uart = uart_with_timeout(&[10, 20, 30, 40, 50]);
    on_interrupt_rx(&mut uart, &mut state, &mut queue).unwrap();
    let mut buf = [0u8; 3];
    let (read, _fut) = rx.begin_read(&mut state, &mut queue, &mut buf);
    assert_eq!(read, 3);
    assert_eq!(buf, [10, 20, 30]);
    assert_eq!(contents(&queue), vec![40, 50]);
    assert!(!state.read_active());
    assert!(state.has_data());
    let mut buf = [0xffu8; 4];
    let (read, _fut) = rx.begin_read(&mut state, &mut queue, &mut buf);
    assert_eq!(read, 2);
    assert_eq!(buf, [40, 50, 0xff, 0xff]);
    assert!(contents(&queue).is_empty());
}

#[test]
fn rx_read_of_an_empty_queue_waits_for_the_interrupt() {
    let (counter, waker) = counting_waker();
    let mut uart = new_uart();
    let mut nvic = Nvic::new();
    let mut rx = RxAsyncOverwriting::new(Rx::steal(Bank::Uart0), &mut uart, &mut nvic);
    let mut state = RxBankState::new();
    let mut queue = RxQueue::new();
    // Data from an earlier read is marked.
    let mut uart = uart_with_timeout(&[1]);
    on_interrupt_rx_overwriting(&mut uart, &mut state, &mut queue).unwrap();
    let mut buf = [0u8; 8];
    assert_eq!(rx.begin_read(&mut state, &mut queue, &mut buf).0, 1);
    assert!(state.has_data());
    // The queue is empty now: the mark is taken back and the task waits.
    let (read, fut) = rx.begin_read(&mut state, &mut queue, &mut buf);
    assert_eq!(read, 0);
    assert!(!state.has_data());
    assert!(state.read_active());
    assert_eq!(fut.poll(&mut state, &waker), Poll::Pending);
    let mut uart = uart_with_timeout(&[7, 8, 9]);
    on_interrupt_rx_overwriting(&mut uart, &mut state, &mut queue).unwrap();
    assert_eq!(counter.count.load(Ordering::SeqCst), 1);
    assert_eq!(fut.poll(&mut state, &waker), Poll::Ready(()));
    let read = rx.finish_read(&mut state, &mut queue, &mut buf);
    assert_eq!(read, 3);
    assert_eq!(&buf[..3], &[7, 8, 9]);
    assert!(!state.read_active());
    // A spurious wake reads nothing.
    assert_eq!(rx.finish_read(&mut state, &mut queue, &mut buf), 0);
    let mut uart = Uart::new_mmio(Bank::Uart0);
    rx.stop(&mut uart);
    assert_eq!(rx.release(&mut uart).id(), Bank::Uart0);
}

#[test]
fn tx_start_fills_the_fifo() {
    let data = pattern(40);
    let mut uart = new_uart();
    uart.tx_fifo = vec![0xee, 0xee];
    uart.rx_fifo = vec![1];
    let mut nvic = Nvic::new();
    let mut state = TxBankState::new();
    let mut tx = Tx::steal(Bank::Uart2);
    let fut = TxFuture::new(&mut tx, &mut uart, &mut nvic, &mut state, &data);
    // The FIFO holds 16 bytes, fewer than the buffer.
    assert_eq!(uart.tx_fifo, data[..16].to_vec());
    assert_eq!(state.context().progress(), 16);
    assert!(!state.done());
    assert_eq!(uart.rx_fifo, vec![1]);
    assert!(uart.regs.enable.tx());
    assert!(uart.regs.irq_enabled.tx());
    assert!(uart.regs.irq_enabled.tx_empty());
    assert!(uart.regs.irq_enabled.tx_status());
    assert_eq!(uart.regs.irq_enabled.raw, 0b111_0000);
    // The transmitter of UART 2 is on line 28.
    assert!(nvic.is_enabled(Interrupt { number: 28 }));
    fut.cancel(&mut uart);
    assert!(!uart.regs.enable.tx());
    assert_eq!(uart.regs.irq_enabled.raw, 0);
    // What was written stays written.
    assert_eq!(uart.tx_fifo, data[..16].to_vec());
}

#[test]
fn tx_start_of_a_short_buffer_writes_all_of_it() {
    let data = [1u8, 2, 3];
    let mut uart = new_uart();
    let mut nvic = Nvic::new();
    let mut state = TxBankState::new();
    let mut tx = TxAsync::new(Tx::steal(Bank::Uart0));
    let _fut = tx.write(&mut uart, &mut nvic, &mut state, &data);
    assert_eq!(uart.tx_fifo, vec![1, 2, 3]);
    assert_eq!(state.context().progress(), 3);
    let empty: [u8; 0] = [];
    let _fut = tx.write(&mut uart, &mut nvic, &mut state, &empty);
    assert!(uart.tx_fifo.is_empty());
    assert_eq!(state.context().progress(), 0);
    assert_eq!(tx.release().id(), Bank::Uart0);
}

#[test]
fn tx_interrupts_send_the_rest_and_complete_when_idle() {
    let (counter, waker) = counting_waker();
    let data = pattern(40);
    let mut uart = new_uart();
    let mut nvic = Nvic::new();
    let mut state = TxBankState::new();
    let mut tx = Tx::steal(Bank::Uart0);
    let fut = TxFuture::new(&mut tx, &mut uart, &mut nvic, &mut state, &data);
    let mut sent: Vec<u8> = Vec::new();
    assert_eq!(fut.poll(&mut state, &waker), Poll::Pending);
    // A full FIFO takes nothing.
    on_interrupt_tx(&mut uart, &mut state);
    assert_eq!(state.context().progress(), 16);
    // The hardware sends five bytes, and the handler writes five.
    sent.extend(uart.tx_fifo.drain(..5));
    on_interrupt_tx(&mut uart, &mut state);
    assert_eq!(state.context().progress(), 21);
    assert_eq!(uart.tx_fifo, data[5..21].to_vec());
    // The hardware sends all, and the handler fills the FIFO.
    sent.extend(uart.tx_fifo.drain(..));
    on_interrupt_tx(&mut uart, &mut state);
    assert_eq!(state.context().progress(), 37);
    sent.extend(uart.tx_fifo.drain(..));
    on_interrupt_tx(&mut uart, &mut state);
    assert_eq!(state.context().progress(), 40);
    assert_eq!(uart.tx_fifo, data[37..].to_vec());
    assert!(!state.done());
    // The buffer is written, but the transmitter is busy.
    sent.extend(uart.tx_fifo.drain(..));
    uart.regs.tx_status = TxStatus { raw: 0 }.with_tx_busy(true);
    on_interrupt_tx(&mut uart, &mut state);
    assert_eq!(state.context().progress(), 40);
    assert!(!state.done());
    assert_eq!(fut.poll(&mut state, &waker), Poll::Pending);
    assert_eq!(counter.count.load(Ordering::SeqCst), 0);
    // The transmitter is idle: the transmission is complete.
    uart.regs.tx_status = TxStatus { raw: 0 };
    on_interrupt_tx(&mut uart, &mut state);
    assert!(state.done());
    assert_eq!(counter.count.load(Ordering::SeqCst), 1);
    assert!(!uart.regs.enable.tx());
    assert_eq!(uart.regs.irq_enabled.raw, 0);
    assert_eq!(sent, data);
    assert_eq!(fut.poll(&mut state, &waker), Poll::Ready(Ok(40)));
    // The task is told once.
    assert_eq!(fut.poll(&mut state, &waker), Poll::Pending);
}

#[test]
fn tx_interrupt_of_another_kind_changes_nothing() {
    let data = pattern(20);
    let mut uart = new_uart();
    let mut nvic = Nvic::new();
    let mut state = TxBankState::new();
    let mut tx = Tx::steal(Bank::Uart0);
    let _fut = TxFuture::new(&mut tx, &mut uart, &mut nvic, &mut state, &data);
    uart.tx_fifo.clear();
    uart.regs.irq_enabled = InterruptControl { raw: 0 }.with_rx(true).with_tx_status(true);
    uart.regs.tx_status = TxStatus { raw: 0 }.with_wr_lost(true);
    on_interrupt_tx(&mut uart, &mut state);
    assert!(uart.tx_fifo.is_empty());
    assert_eq!(state.context().progress(), 16);
    assert!(!state.context().tx_overrun());
    // On an interrupt of the transmitter, the lost byte is recorded.
    uart.regs.irq_enabled = InterruptControl { raw: 0 }.with_tx_empty(true);
    on_interrupt_tx(&mut uart, &mut state);
    assert!(state.context().tx_overrun());
    assert_eq!(state.context().progress(), 20);
    assert_eq!(uart.tx_fifo, data[16..].to_vec());
}

#[test]
fn tx_interrupt_before_any_transmission_changes_nothing() {
    let mut uart = new_uart();
    let mut state = TxBankState::new();
    on_interrupt_tx(&mut uart, &mut state);
    assert!(uart.tx_fifo.is_empty());
    assert!(!state.done());
    assert_eq!(state.context().progress(), 0);
}

#[test]
fn rx_wait_that_is_given_up_leaves_no_reader() {
    let (counter, waker) = counting_waker();
    let mut state = RxBankState::new();
    let mut queue = RxQueue::new();
    let mut rx = Rx::steal(Bank::Uart0);
    let fut = RxFuture::new(&mut rx, &mut state);
    assert!(state.read_active());
    assert_eq!(fut.poll(&mut state, &waker), Poll::Pending);
    fut.cancel(&mut state);
    assert!(!state.read_active());
    assert!(!state.has_data());
    // Data that arrives now is kept and marked, and nobody is woken.
    let mut uart = uart_with_timeout(&[9, 8]);
    on_interrupt_rx(&mut uart, &mut state, &mut queue).unwrap();
    assert!(state.has_data());
    assert_eq!(queue.len(), 2);
    assert_eq!(counter.count.load(Ordering::SeqCst), 0);
}
