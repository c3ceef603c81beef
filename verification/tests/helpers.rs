//! The bit helpers and the functions that tell a caller what to move between the
//! hardware and the values that the drivers work on.
use vorago_shared_hal::bits::{bit_mask, get_bit, get_field, set_bit, set_field};
use vorago_shared_hal::gpio::asynch::dispatchable;
use vorago_shared_hal::spi::regs::{Bank as SpiBank, Spi as SpiBlock};
use vorago_shared_hal::spi::{Spi, Spi0, SpiConfig, BMSTART_BMSTOP_MASK};
use vorago_shared_hal::sysconfig::Sysconfig;
use vorago_shared_hal::uart::regs::{Bank, FifoTrigger, InterruptStatus, Uart as UartBlock};
use vorago_shared_hal::uart::rx_asynch::{rx_fetch, RxFetch};
use vorago_shared_hal::uart::tx_asynch::{TxBankState, TxContext, TxFuture};
use vorago_shared_hal::uart::{InterruptContextTimeoutOrMaxSize, Rx, RxWithInterrupt, Tx};
use vorago_shared_hal::i2c::regs::I2c as I2cBlock;
use vorago_shared_hal::timer::regs::{TimId, Timer};
use vorago_shared_hal::Nvic;

#[test]
fn bits_of_a_word() {
    assert_eq!(bit_mask(0), 1);
    assert_eq!(bit_mask(31), 0x8000_0000);
    assert!(get_bit(0b100, 2));
    assert!(!get_bit(0b100, 1));
    assert_eq!(set_bit(0, 5, true), 0b10_0000);
    assert_eq!(set_bit(0xffff_ffff, 5, false), 0xffff_ffdf);
    assert_eq!(set_bit(0b10_0000, 5, true), 0b10_0000);
}

#[test]
fn fields_of_a_word() {
    assert_eq!(get_field(0xabcd_1234, 8, 8), 0x12);
    assert_eq!(get_field(0xabcd_1234, 16, 16), 0xabcd);
    assert_eq!(get_field(0xabcd_1234, 0, 0), 0);
    assert_eq!(set_field(0xabcd_1234, 8, 8, 0xff), 0xabcd_ff34);
    // What does not fit the field is cut off.
    assert_eq!(set_field(0, 4, 4, 0x1f), 0xf0);
    // A field that was set reads back, and the bits around it stay.
    let word = set_field(0xffff_ffff, 12, 5, 0b10101);
    assert_eq!(get_field(word, 12, 5), 0b10101);
    assert_eq!(get_field(word, 0, 12), 0xfff);
    assert_eq!(get_field(word, 17, 15), 0x7fff);
}

#[test]
fn rx_fetch_follows_the_interrupt_status() {
    let trigger = FifoTrigger { raw: 8 };
    let none = InterruptStatus { raw: 0 };
    assert_eq!(rx_fetch(none, trigger), RxFetch { exactly: 0, then_until_empty: false });
    assert_eq!(rx_fetch(none.with_rx(true), trigger), RxFetch { exactly: 8, then_until_empty: false });
    assert_eq!(rx_fetch(none.with_rx_timeout(true), trigger), RxFetch { exactly: 0, then_until_empty: true });
    assert_eq!(
        rx_fetch(none.with_rx(true).with_rx_timeout(true), trigger),
        RxFetch { exactly: 8, then_until_empty: true }
    );
    // An interrupt of the transmitter moves nothing.
    assert_eq!(rx_fetch(none.with_tx(true), trigger), RxFetch { exactly: 0, then_until_empty: false });
    // The trigger level has five bits.
    assert_eq!(rx_fetch(none.with_rx(true), FifoTrigger { raw: 0xffff_ffe3 }).exactly, 3);
}

#[test]
fn packet_fetch_leaves_a_byte_for_the_timeout() {
    let trigger = FifoTrigger { raw: 8 };
    let none = InterruptStatus { raw: 0 };
    let mut context = InterruptContextTimeoutOrMaxSize::new(12);
    assert_eq!(RxWithInterrupt::packet_fetch(none, trigger, &context), (0, 0));
    assert_eq!(RxWithInterrupt::packet_fetch(none.with_rx(true), trigger, &context), (7, 0));
    assert_eq!(RxWithInterrupt::packet_fetch(none.with_rx_timeout(true), trigger, &context), (0, 12));
    assert_eq!(RxWithInterrupt::packet_fetch(none.with_rx(true).with_rx_timeout(true), trigger, &context), (7, 5));
    // A packet with room for three bytes takes no more.
    context.rx_idx = 9;
    assert_eq!(RxWithInterrupt::packet_fetch(none.with_rx(true), trigger, &context), (3, 0));
    assert_eq!(RxWithInterrupt::packet_fetch(none.with_rx(true).with_rx_timeout(true), trigger, &context), (3, 0));
    // A trigger level of 0 promises nothing.
    context.rx_idx = 0;
    assert_eq!(RxWithInterrupt::packet_fetch(none.with_rx(true), FifoTrigger { raw: 0 }, &context), (0, 0));
}

#[test]
fn packet_handler_takes_what_was_fetched() {
    let mut regs = UartBlock::new_mmio(Bank::Uart1);
    let mut rx = RxWithInterrupt::new(Rx::steal(Bank::Uart1));
    let mut context = InterruptContextTimeoutOrMaxSize::new(12);
    let mut buf = [0u8; 12];
    regs.regs.rx_fifo_trigger = FifoTrigger { raw: 8 };
    regs.regs.irq_status = InterruptStatus { raw: 0 }.with_rx(true);
    let (exactly, up_to) = RxWithInterrupt::packet_fetch(regs.regs.irq_status, regs.regs.rx_fifo_trigger, &context);
    assert_eq!((exactly, up_to), (7, 0));
    // The FIFO holds the seven bytes that were fetched and no more.
    regs.rx_fifo = (1..=7).collect();
    let result = rx.on_interrupt_max_size_or_timeout_based(&mut regs, &mut context, &mut buf).unwrap();
    assert!(!result.complete());
    assert_eq!(context.rx_idx, 7);
    assert!(regs.rx_fifo.is_empty());
    assert_eq!(buf, [1, 2, 3, 4, 5, 6, 7, 0, 0, 0, 0, 0]);
}

#[test]
fn dispatchable_asks_for_a_latched_edge_of_each_enabled_pin() {
    assert!(dispatchable(0, 0));
    assert!(dispatchable(0, 0xffff));
    assert!(dispatchable(0b1010, 0b1010));
    assert!(dispatchable(0b1010, 0b1111));
    // Pin 3 is enabled and has no edge.
    assert!(!dispatchable(0b1010, 0b0010));
    // A port has sixteen pins.
    assert!(dispatchable(0x8000, 0x8000));
    assert!(!dispatchable(0x1_0000, 0x1_0000));
}

#[test]
fn tx_context_knows_the_length_of_its_buffer() {
    assert_eq!(TxContext::new().buffer_len(), None);
    assert_eq!(TxContext::new().progress(), 0);
    assert!(!TxContext::new().tx_overrun());
    let mut state = TxBankState::new();
    assert_eq!(state.context().buffer_len(), None);
    let mut regs = UartBlock::new_mmio(Bank::Uart0);
    let mut nvic = Nvic::new();
    let mut tx = Tx::steal(Bank::Uart0);
    let data = [0x55u8; 20];
    let _fut = TxFuture::new(&mut tx, &mut regs, &mut nvic, &mut state, &data);
    assert_eq!(state.context().buffer_len(), Some(20));
    assert_eq!(state.context().progress(), 16);
    assert!(!state.done());
}

#[test]
fn spi_data_word_carries_the_stop_bit_on_the_last_word() {
    let mut sysconfig = Sysconfig::new();
    let mut regs = SpiBlock::new_mmio(SpiBank::Spi0);
    let stalling: Spi<u8> = Spi::new_generic(Spi0, SpiConfig::default().bmstall(true), 0, &mut sysconfig, &mut regs);
    assert_eq!(stalling.data_word(0x12, 0, 3), 0x12);
    assert_eq!(stalling.data_word(0x12, 1, 3), 0x12);
    assert_eq!(stalling.data_word(0x12, 2, 3), 0x12 | BMSTART_BMSTOP_MASK);
    assert_eq!(stalling.data_word(0x12, 0, 1), 0x12 | BMSTART_BMSTOP_MASK);
    assert_eq!(stalling.data_word(0x12, 0, 0), 0x12);
    let free: Spi<u8> = Spi::new_generic(Spi0, SpiConfig::default().bmstall(false), 0, &mut sysconfig, &mut regs);
    assert_eq!(free.data_word(0x12, 2, 3), 0x12);
}

#[test]
fn spi_pumps_fill_words_and_flushes() {
    let mut sysconfig = Sysconfig::new();
    let mut regs = SpiBlock::new_mmio(SpiBank::Spi0);
    let mut spi: Spi<u8> = Spi::new_generic(Spi0, SpiConfig::default().bmstall(false), 0xa5, &mut sysconfig, &mut regs);
    assert_eq!(spi.fill_word(), 0xa5);
    assert_eq!(spi.initial_send_fifo_pumping_with_fill_words(&mut regs, 3), 3);
    assert_eq!(regs.tx_fifo, vec![0xa5, 0xa5, 0xa5]);
    regs.tx_fifo.clear();
    assert_eq!(spi.initial_send_fifo_pumping_with_fill_words(&mut regs, 40), 12);
    assert_eq!(regs.tx_fifo, vec![0xa5; 12]);
    regs.tx_fifo.clear();
    spi.set_fill_word(0x11);
    assert_eq!(spi.initial_send_fifo_pumping_with_fill_words(&mut regs, 0), 0);
    assert!(regs.tx_fifo.is_empty());
    // With the transmitter idle, a flush empties the receive FIFO.
    regs.rx_fifo = vec![1, 2, 3];
    let before = regs.regs;
    spi.flush_internal(&mut regs);
    assert!(regs.rx_fifo.is_empty());
    assert!(regs.tx_fifo.is_empty());
    assert_eq!(regs.regs, before);
}

#[test]
fn register_values_know_the_address_of_their_peripheral() {
    for index in 0..24 {
        let id = TimId::new_unchecked(index);
        let timer = Timer::new_mmio(id);
        assert_eq!(timer.base, 0x4001_8000 + 0x400 * index);
        assert_eq!(timer.base, id.base_address());
        assert_eq!(id.steal_regs(), timer);
        assert_eq!(Timer::new_mmio_with_raw_index(index), Ok(timer));
    }
    assert_ne!(Timer::new_mmio(TimId::new_unchecked(0)), Timer::new_mmio(TimId::new_unchecked(1)));
    assert_eq!(UartBlock::new_mmio(Bank::Uart0).regs.base, 0x4002_4000);
    assert_eq!(UartBlock::new_mmio(Bank::Uart1).regs.base, 0x4002_5000);
    assert_eq!(UartBlock::new_mmio(Bank::Uart2).regs.base, 0x4001_7000);
    assert_eq!(Bank::Uart2.steal_regs().regs.base, Bank::Uart2.base_address());
    assert_eq!(SpiBlock::new_mmio(SpiBank::Spi0).regs.base, 0x4001_5000);
    assert_eq!(SpiBlock::new_mmio(SpiBank::Spi1).regs.base, 0x4001_5400);
    assert_eq!(SpiBlock::new_mmio(SpiBank::Spi2).regs.base, 0x4001_5800);
    // The driver looks for the registers of SPI 3 where those of SPI 2 are.
    assert_eq!(SpiBlock::new_mmio(SpiBank::Spi3).regs.base, 0x4001_5800);
    assert_eq!(I2cBlock::new_mmio(vorago_shared_hal::i2c::Bank::I2c0).base, 0x4001_6000);
    assert_eq!(I2cBlock::new_mmio(vorago_shared_hal::i2c::Bank::I2c1).base, 0x4001_6400);
    assert_eq!(I2cBlock::new_mmio(vorago_shared_hal::i2c::Bank::I2c2).base, 0x4001_6800);
}
