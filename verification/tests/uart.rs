//! The UART driver and the receiver that is read from an interrupt handler.
use vorago_shared_hal::clock::Clocks;
use vorago_shared_hal::ioconfig::regs::IoConfig;
use vorago_shared_hal::ioconfig::FunctionSelect;
use vorago_shared_hal::pins::{Pa2, Pa3, Pb14, Pb15, Pin};
use vorago_shared_hal::sysconfig::Sysconfig;
use vorago_shared_hal::time::Hertz;
use vorago_shared_hal::uart::regs::{
    Bank, FifoTrigger, InterruptControl, InterruptStatus, RxStatus, Stopbits, TxStatus, Uart as UartBlock, WordSize,
    UART_PERID,
};
use vorago_shared_hal::uart::{
    clock_scale, disable_rx, disable_rx_interrupts, disable_tx, disable_tx_interrupts, enable_rx,
    enable_rx_interrupts, enable_tx, enable_tx_interrupts, BufferTooShortError, Config, Event,
    InterruptContextTimeoutOrMaxSize, InterruptReceptionMode, InterruptResultMaxSizeOrTimeout, Parity, Rx, RxPin,
    RxWithInterrupt, TransferPendingError, Tx, TxPin, Uart, Uart0, Uart1, UartErrors, UartIdMissmatchError,
    UartInstance,
};
use vorago_shared_hal::{Interrupt, NbResult, Nvic, PeripheralSelect};

fn hz(raw: u32) -> Hertz {
    Hertz::from_raw(raw)
}

#[test]
fn uart_config_builders() {
    let config = Config::default();
    assert_eq!(config.baudrate.raw(), 115_200);
    assert_eq!(config.parity, Parity::NoParity);
    assert_eq!(config.stopbits, Stopbits::One);
    assert_eq!(config.wordsize, WordSize::Eight);
    assert!(!config.baud8);
    assert!(config.enable_rx && config.enable_tx);
    let config = config.baudrate(hz(9600)).parity_even().stopbits(Stopbits::Two).wordsize(WordSize::Seven).baud8(true);
    assert_eq!(
        config,
        Config {
            baudrate: hz(9600),
            parity: Parity::Even,
            stopbits: Stopbits::Two,
            baud8: true,
            wordsize: WordSize::Seven,
            enable_tx: true,
            enable_rx: true,
        }
    );
    assert_eq!(config.parity_odd().parity, Parity::Odd);
    assert_eq!(config.parity_none().parity, Parity::NoParity);
    assert_eq!(Config::from_baudrate(hz(57_600)), Config::default().baudrate(hz(57_600)));
}

#[test]
fn uart_divider_of_the_reference_clock() {
    // 50 MHz by 16 * 115200: 27 and 8 / 64, rounded.
    assert_eq!(clock_scale(hz(50_000_000), hz(115_200), false), Some((27, 8)));
    // With the baud clock at 8 times the baud rate, the integer part doubles.
    assert_eq!(clock_scale(hz(50_000_000), hz(115_200), true), Some((54, 8)));
    assert_eq!(clock_scale(hz(16_000), hz(1_000), false), Some((1, 0)));
    assert_eq!(clock_scale(hz(16_000 + 8_000), hz(1_000), false), Some((1, 32)));
    // The fraction rounds up to a whole, which does not fit its field.
    assert_eq!(clock_scale(hz(31_999), hz(1_000), false), None);
    assert_eq!(clock_scale(hz(50_000_000), hz(0), false), None);
    // 16 times the baud rate does not fit 32 bits.
    assert_eq!(clock_scale(hz(50_000_000), hz(1 << 28), false), None);
    // The integer part does not fit 18 bits.
    assert_eq!(clock_scale(hz(u32::MAX), hz(1), false), None);
    assert_eq!(clock_scale(hz((1 << 18) * 16 - 1), hz(1), true), None);
    assert_eq!(clock_scale(hz((1 << 18) * 16 - 16), hz(1), false), Some(((1 << 18) - 1, 0)));
}

#[test]
fn uart_driver_configures_the_peripheral() {
    let clocks = Clocks::__new(hz(100_000_000), hz(0));
    let mut sysconfig = Sysconfig::new();
    let mut ioconfig = IoConfig::new_mmio();
    let mut regs = UartBlock::new_mmio(Bank::Uart0);
    regs.rx_fifo = vec![1];
    regs.tx_fifo = vec![2];
    let config = Config::default().parity_odd().stopbits(Stopbits::Two);
    let res = Uart::new(Uart1, Pin::<Pa2>::__new(), Pin::<Pa3>::__new(), &clocks, config, &mut sysconfig, &mut ioconfig, &mut regs);
    assert!(matches!(res, Err(UartIdMissmatchError)));
    assert_eq!(sysconfig, Sysconfig::new());
    assert_eq!(regs.rx_fifo, vec![1]);
    let res = Uart::new(Uart0, Pin::<Pa2>::__new(), Pin::<Pb15>::__new(), &clocks, config, &mut sysconfig, &mut ioconfig, &mut regs);
    assert!(res.is_err());
    let mut uart =
        Uart::new(Uart0, Pin::<Pa2>::__new(), Pin::<Pa3>::__new(), &clocks, config, &mut sysconfig, &mut ioconfig, &mut regs)
            .ok()
            .unwrap();
    assert_eq!(sysconfig.peripheral_clk_enable, 1 << 4);
    assert_eq!((ioconfig.pins[2].raw, ioconfig.pins[3].raw), (3 << 13, 3 << 13));
    // The second peripheral bus runs at 25 MHz: 13 and 36 / 64.
    assert_eq!(regs.regs.clkscale.integer(), 13);
    assert_eq!(regs.regs.clkscale.frac(), 36);
    assert_eq!(regs.regs.clkscale.raw, (13 << 6) | 36);
    // Eight bits, two stop bits, parity enabled and odd.
    assert_eq!(regs.regs.ctrl.raw, (3 << 4) | (1 << 3) | 1);
    assert_eq!(regs.regs.fifo_clr.raw, 0b11);
    assert!(regs.rx_fifo.is_empty());
    assert!(regs.tx_fifo.is_empty());
    assert_eq!(regs.regs.enable.raw, 0b11);
    assert_eq!(uart.peripheral_id(&regs), UART_PERID);
    uart.disable_rx(&mut regs);
    assert_eq!(regs.regs.enable.raw, 0b10);
    uart.disable_tx(&mut regs);
    assert_eq!(regs.regs.enable.raw, 0);
    uart.enable_rx(&mut regs);
    uart.enable_tx(&mut regs);
    assert_eq!(regs.regs.enable.raw, 0b11);
    regs.rx_fifo = vec![1];
    regs.tx_fifo = vec![2];
    uart.clear_rx_fifo(&mut regs);
    assert!(regs.rx_fifo.is_empty());
    assert_eq!(regs.tx_fifo, vec![2]);
    uart.clear_tx_fifo(&mut regs);
    assert!(regs.tx_fifo.is_empty());
    for (event, bit) in [
        (Event::RxFifoHalfFull, 0),
        (Event::RxError, 1),
        (Event::RxTimeout, 2),
        (Event::TxFifoHalfFull, 4),
        (Event::TxError, 5),
        (Event::TxEmpty, 6),
        (Event::TxCts, 7),
    ] {
        uart.listen(&mut regs, event);
        assert_eq!(regs.regs.irq_enabled.raw, 1 << bit);
        uart.unlisten(&mut regs, event);
        assert_eq!(regs.regs.irq_enabled.raw, 0);
    }
    regs.regs.rx_status = RxStatus { raw: 0 }.with_parity_error(true).with_framing_error(true);
    assert_eq!(
        uart.poll_rx_errors(&regs),
        Some(UartErrors { overflow: false, framing: true, parity: false, other: false })
    );
    let (tx, rx) = uart.split();
    assert_eq!((tx.id(), rx.id()), (Bank::Uart0, Bank::Uart0));
}

#[test]
fn uart_with_a_reference_clock() {
    let mut sysconfig = Sysconfig::new();
    let mut ioconfig = IoConfig::new_mmio();
    let mut regs = UartBlock::new_mmio(Bank::Uart1);
    let config = Config::default().baud8(true);
    let uart = Uart::new_with_ref_clk(
        Uart1,
        Pin::<Pb14>::__new(),
        Pin::<Pb15>::__new(),
        hz(50_000_000),
        config,
        &mut sysconfig,
        &mut ioconfig,
        &mut regs,
    );
    assert!(uart.is_ok());
    assert_eq!(regs.regs.clkscale.raw, (54 << 6) | 8);
    assert_eq!(regs.regs.ctrl.raw, (1 << 11) | (3 << 4));
    assert_eq!(sysconfig.peripheral_clk_enable, 1 << 5);
    assert_eq!(Uart0::id(), Bank::Uart0);
    assert_eq!(Uart1::periph_sel(), PeripheralSelect::Uart1);
    assert_eq!(<Pin<Pb14> as TxPin>::bank(), Bank::Uart1);
    assert_eq!(<Pin<Pb15> as RxPin>::fun_sel(), FunctionSelect::Sel3);
    assert_eq!(Bank::Uart2.base_address(), 0x4001_7000);
    assert_eq!(Bank::Uart1.interrupt_id_tx(), Interrupt { number: 26 });
    assert_eq!(Bank::Uart1.interrupt_id_rx(), Interrupt { number: 27 });
    assert_eq!(Bank::Uart2.index(), 2);
}

#[test]
fn uart_enable_bits() {
    let mut regs = UartBlock::new_mmio(Bank::Uart0);
    regs.regs.irq_enabled = InterruptControl { raw: 1 << 7 };
    enable_rx(&mut regs);
    assert_eq!(regs.regs.enable.raw, 1);
    enable_tx(&mut regs);
    assert_eq!(regs.regs.enable.raw, 3);
    disable_rx(&mut regs);
    assert_eq!(regs.regs.enable.raw, 2);
    disable_tx(&mut regs);
    assert_eq!(regs.regs.enable.raw, 0);
    enable_rx_interrupts(&mut regs, false);
    assert_eq!(regs.regs.irq_enabled.raw, (1 << 7) | 0b011);
    enable_rx_interrupts(&mut regs, true);
    assert_eq!(regs.regs.irq_enabled.raw, (1 << 7) | 0b111);
    enable_tx_interrupts(&mut regs);
    assert_eq!(regs.regs.irq_enabled.raw, 0xf7);
    disable_rx_interrupts(&mut regs);
    assert_eq!(regs.regs.irq_enabled.raw, 0xf0);
    disable_tx_interrupts(&mut regs);
    assert_eq!(regs.regs.irq_enabled.raw, 1 << 7);
}

#[test]
fn uart_fifos_of_the_peripheral() {
    let mut regs = UartBlock::new_mmio(Bank::Uart0);
    assert!(!regs.read_rx_status().data_available());
    assert!(regs.read_tx_status().ready());
    assert_eq!(regs.read_data().raw, 0);
    regs.rx_fifo = vec![0x41, 0x42];
    assert!(regs.read_rx_status().data_available());
    assert_eq!(regs.read_data().value(), 0x41);
    assert_eq!(regs.rx_fifo, vec![0x42]);
    for byte in 0..16 {
        regs.write_data(vorago_shared_hal::uart::regs::Data::new_with_raw_value(byte));
    }
    assert_eq!(regs.tx_fifo, (0..16).collect::<Vec<u8>>());
    assert!(!regs.read_tx_status().ready());
    assert!(!regs.regs.tx_status.wr_lost());
    // A byte for a full FIFO is lost.
    regs.write_data(vorago_shared_hal::uart::regs::Data::new_with_raw_value(0x99));
    assert_eq!(regs.tx_fifo.len(), 16);
    assert!(regs.read_tx_status().wr_lost());
}

#[test]
fn rx_and_tx_halves() {
    let mut regs = UartBlock::new_mmio(Bank::Uart1);
    let mut nvic = Nvic::new();
    let mut rx = Rx::steal(Bank::Uart1);
    let mut tx = Tx::steal(Bank::Uart1);
    assert_eq!(rx.read_fifo(&mut regs), NbResult::WouldBlock);
    assert_eq!(rx.read_byte(&mut regs), NbResult::WouldBlock);
    regs.rx_fifo = vec![9, 8, 7, 6, 5];
    assert_eq!(rx.read_fifo(&mut regs), NbResult::Done(9));
    assert_eq!(rx.read_byte(&mut regs), NbResult::Done(8));
    assert_eq!(rx.read_fifo_unchecked(&mut regs), 7);
    let mut buf = [0u8; 4];
    assert_eq!(rx.read(&mut regs, &mut buf), 2);
    assert_eq!(buf, [6, 5, 0, 0]);
    let mut none: [u8; 0] = [];
    assert_eq!(rx.read(&mut regs, &mut none), 0);
    regs.rx_fifo = vec![1, 2, 3];
    let mut buf = [0u8; 2];
    assert_eq!(rx.read(&mut regs, &mut buf), 2);
    assert_eq!(buf, [1, 2]);
    assert_eq!(regs.rx_fifo, vec![3]);
    rx.enable_interrupts(&mut regs, &mut nvic, true, false);
    assert_eq!(regs.regs.irq_enabled.raw, 0b011);
    assert!(nvic.is_enabled(Interrupt { number: 27 }));
    rx.disable_interrupts(&mut regs);
    rx.enable(&mut regs);
    rx.clear_fifo(&mut regs);
    assert!(regs.rx_fifo.is_empty());
    assert_eq!(regs.regs.fifo_clr.raw, 0b01);
    rx.disable(&mut regs);
    assert_eq!(rx.perid(&regs), 0x0212_07E9);
    regs.regs.rx_status = RxStatus { raw: 0 }.with_overrun_error(true).with_parity_error(true);
    assert_eq!(rx.poll_errors(&regs), Some(UartErrors { overflow: true, framing: false, parity: false, other: false }));
    regs.regs.rx_status = RxStatus { raw: 0 }.with_parity_error(true);
    assert_eq!(rx.poll_errors(&regs), Some(UartErrors { overflow: false, framing: false, parity: true, other: false }));
    regs.regs.rx_status = RxStatus { raw: 0 }.with_busy(true);
    assert_eq!(rx.poll_errors(&regs), None);

    assert_eq!(tx.write_byte(&mut regs, 0x31), NbResult::Done(()));
    assert_eq!(tx.write_fifo(&mut regs, 0x132), NbResult::Done(()));
    tx.write_fifo_unchecked(&mut regs, 0x33);
    assert_eq!(regs.tx_fifo, vec![0x31, 0x32, 0x33]);
    let data: Vec<u8> = (0..20).collect();
    assert_eq!(tx.write(&mut regs, &data), 13);
    assert_eq!(regs.tx_fifo[3..], data[..13]);
    assert_eq!(tx.write_byte(&mut regs, 1), NbResult::WouldBlock);
    assert_eq!(tx.write(&mut regs, &[]), 0);
    tx.clear_fifo(&mut regs);
    assert!(regs.tx_fifo.is_empty());
    assert_eq!(tx.write(&mut regs, &[1, 2]), 2);
    assert_eq!(tx.flush(&regs), NbResult::Done(()));
    regs.regs.tx_status = TxStatus { raw: 0 }.with_write_busy(true);
    assert_eq!(tx.flush(&regs), NbResult::WouldBlock);
    tx.enable_interrupts(&mut regs, &mut nvic, false);
    assert_eq!(regs.regs.irq_enabled.raw, 0x70);
    assert!(!nvic.is_enabled(Interrupt { number: 26 }));
    tx.disable_interrupts(&mut regs);
    tx.enable(&mut regs);
    assert!(regs.regs.enable.tx());
    tx.disable(&mut regs);
    assert_eq!(tx.perid(&regs), 0x0212_07E9);
    assert_eq!(tx.into_async().release().id(), Bank::Uart1);
}

#[test]
fn rx_with_interrupt_empties_the_fifo_into_the_buffer() {
    let mut regs = UartBlock::new_mmio(Bank::Uart0);
    let mut nvic = Nvic::new();
    let mut rx = Rx::steal(Bank::Uart0).into_rx_with_irq();
    assert_eq!(rx.rx().id(), Bank::Uart0);
    rx.start(&mut regs, &mut nvic);
    assert_eq!(regs.regs.irq_enabled.raw, 0b111);
    assert!(regs.regs.enable.rx());
    assert!(nvic.is_enabled(Interrupt { number: 25 }));
    regs.rx_fifo = (1..=10).collect();
    regs.regs.rx_fifo_trigger = FifoTrigger { raw: 8 };
    regs.regs.irq_status = InterruptStatus { raw: 0 }.with_rx(true);
    let mut buf = [0u8; 16];
    let result = rx.on_interrupt(&mut regs, &mut buf);
    assert_eq!(result.bytes_read, 8);
    assert_eq!(result.errors, None);
    assert_eq!(buf[..9], [1, 2, 3, 4, 5, 6, 7, 8, 0]);
    assert_eq!(regs.rx_fifo, vec![9, 10]);
    assert_eq!(regs.regs.irq_clr.raw, 0b10);
    regs.regs.irq_status = InterruptStatus { raw: 0 }.with_rx_timeout(true);
    regs.regs.rx_status = RxStatus { raw: 0 }.with_overrun_error(true).with_framing_error(true);
    let mut buf = [0xffu8; 16];
    let result = rx.on_interrupt(&mut regs, &mut buf);
    assert_eq!(result.bytes_read, 2);
    assert_eq!(result.errors, Some(UartErrors { overflow: true, framing: true, parity: false, other: false }));
    assert_eq!(buf[..3], [9, 10, 0xff]);
    // Both interrupts at once, and a full FIFO.
    regs.rx_fifo = (1..=16).collect();
    regs.regs.irq_status = InterruptStatus { raw: 0 }.with_rx(true).with_rx_timeout(true);
    regs.regs.rx_status = RxStatus { raw: 0 };
    let result = rx.on_interrupt(&mut regs, &mut buf);
    assert_eq!(result.bytes_read, 16);
    assert_eq!(buf.to_vec(), (1..=16).collect::<Vec<u8>>());
    rx.cancel_transfer(&mut regs);
    assert_eq!(regs.regs.irq_enabled.raw, 0);
    let rx = rx.release(&mut regs);
    assert_eq!(rx.id(), Bank::Uart0);
}

#[test]
fn rx_packet_reception_starts_once() {
    let mut regs = UartBlock::new_mmio(Bank::Uart0);
    let mut nvic = Nvic::new();
    let mut rx = RxWithInterrupt::new(Rx::steal(Bank::Uart0));
    let mut context = InterruptContextTimeoutOrMaxSize::new(10);
    context.rx_idx = 4;
    assert_eq!(rx.read_fixed_len_or_timeout_based_using_irq(&mut regs, &mut nvic, &mut context), Ok(()));
    assert_eq!(
        context,
        InterruptContextTimeoutOrMaxSize { rx_idx: 0, mode: InterruptReceptionMode::Pending, max_len: 10 }
    );
    assert!(regs.regs.enable.rx());
    assert_eq!(
        rx.read_fixed_len_or_timeout_based_using_irq(&mut regs, &mut nvic, &mut context),
        Err(TransferPendingError)
    );
    context.reset();
    assert_eq!(context.mode, InterruptReceptionMode::Idle);
}

#[test]
fn rx_packet_is_complete_on_a_timeout() {
    let mut regs = UartBlock::new_mmio(Bank::Uart0);
    let mut nvic = Nvic::new();
    let mut rx = RxWithInterrupt::new(Rx::steal(Bank::Uart0));
    let mut context = InterruptContextTimeoutOrMaxSize::new(12);
    rx.read_fixed_len_or_timeout_based_using_irq(&mut regs, &mut nvic, &mut context).unwrap();
    let mut buf = [0u8; 11];
    assert_eq!(
        rx.on_interrupt_max_size_or_timeout_based(&mut regs, &mut context, &mut buf),
        Err(BufferTooShortError { found: 11, expected: 12 })
    );
    let mut buf = [0u8; 12];
    // A half-full FIFO: all but one of the eight bytes go into the packet.
    regs.rx_fifo = (1..=8).collect();
    regs.regs.rx_fifo_trigger = FifoTrigger { raw: 8 };
    regs.regs.irq_status = InterruptStatus { raw: 0 }.with_rx(true);
    regs.regs.rx_status = RxStatus { raw: 0 }.with_parity_error(true);
    let result = rx.on_interrupt_max_size_or_timeout_based(&mut regs, &mut context, &mut buf).unwrap();
    assert!(!result.complete());
    assert!(!result.timeout());
    assert_eq!(result.bytes_read, 0);
    assert!(result.has_errors());
    assert!(result.parity_error());
    assert!(!result.framing_error());
    assert!(!result.overflow_error());
    assert_eq!(context.rx_idx, 7);
    assert_eq!(regs.rx_fifo, vec![8]);
    assert_eq!(buf[..8], [1, 2, 3, 4, 5, 6, 7, 0]);
    assert_eq!(regs.regs.irq_clr.raw, 0b10);
    // Three more bytes arrive, and then the line is quiet.
    regs.rx_fifo.extend([9, 10, 11]);
    regs.regs.irq_status = InterruptStatus { raw: 0 }.with_rx_timeout(true);
    let result = rx.on_interrupt_max_size_or_timeout_based(&mut regs, &mut context, &mut buf).unwrap();
    assert_eq!(
        (result.complete(), result.timeout(), result.bytes_read, result.errors),
        (true, false, 11, None)
    );
    assert_eq!(buf[..12], [1, 2, 3, 4, 5, 6, 7, 8, 9, 10, 11, 0]);
    assert_eq!(context, InterruptContextTimeoutOrMaxSize { rx_idx: 0, mode: InterruptReceptionMode::Idle, max_len: 12 });
    assert!(regs.rx_fifo.is_empty());
    assert!(!regs.regs.enable.rx());
    assert_eq!(regs.regs.irq_enabled.raw, 0);
    assert_eq!(InterruptResultMaxSizeOrTimeout::new().bytes_read, 0);
}

#[test]
fn rx_packet_stops_at_its_maximum_size() {
    let mut regs = UartBlock::new_mmio(Bank::Uart0);
    let mut rx = RxWithInterrupt::new(Rx::steal(Bank::Uart0));
    let mut context = InterruptContextTimeoutOrMaxSize::new(5);
    context.mode = InterruptReceptionMode::Pending;
    context.rx_idx = 2;
    let mut buf = [0xeeu8; 8];
    regs.rx_fifo = (1..=9).collect();
    regs.regs.rx_fifo_trigger = FifoTrigger { raw: 3 };
    regs.regs.irq_status = InterruptStatus { raw: 0 }.with_rx(true).with_rx_timeout(true);
    regs.regs.enable = regs.regs.enable.with_rx(true);
    let result = rx.on_interrupt_max_size_or_timeout_based(&mut regs, &mut context, &mut buf).unwrap();
    // Two bytes by the half-full interrupt, one more by the timeout, then the packet is full.
    assert!(result.complete());
    assert_eq!(result.bytes_read, 5);
    assert_eq!(buf, [0xee, 0xee, 1, 2, 3, 0xee, 0xee, 0xee]);
    assert_eq!(regs.rx_fifo, (4..=9).collect::<Vec<u8>>());
    assert_eq!(context.rx_idx, 0);
    // Without room in the packet, the errors are not looked at.
    let mut context = InterruptContextTimeoutOrMaxSize::new(2);
    context.rx_idx = 1;
    regs.regs.irq_status = InterruptStatus { raw: 0 }.with_rx(true);
    regs.regs.rx_status = RxStatus { raw: 0 }.with_overrun_error(true);
    regs.regs.enable = regs.regs.enable.with_rx(true);
    let result = rx.on_interrupt_max_size_or_timeout_based(&mut regs, &mut context, &mut buf).unwrap();
    assert!(!result.complete());
    assert!(!result.has_errors());
    assert_eq!(context.rx_idx, 2);
}
