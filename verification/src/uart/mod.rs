//! The UARTs.
//!
//! [`Rx`] and [`Tx`] are the two halves of a UART. They hold no registers: every
//! function takes the UART that it works on. [`RxWithInterrupt`] reads the receiver from
//! an interrupt handler into a buffer of the caller. The modules [`rx_asynch`] and
//! [`tx_asynch`] hold the interrupt handlers and the poll functions of the asynchronous
//! receiver and transmitter.
use crate::ioconfig::FunctionSelect;
use crate::pins::AnyPin;
use crate::time::Hertz;
use crate::clock::Clocks;
use crate::gpio::IoPeriphPin;
use crate::ioconfig::regs::IoConfig;
use crate::sysconfig::{enable_peripheral_clock, Sysconfig};
use crate::{enable_nvic_interrupt, NbResult, Nvic, PeripheralSelect, Sealed};
use vstd::prelude::*;

pub mod pins_vor4x;
pub mod regs;
pub mod rx_asynch;
pub mod tx_asynch;

pub use regs::{Bank, Stopbits, WordSize};
use regs::{ClkScale, Control, Data, Enable, FifoClear, InterruptClear, InterruptControl, UartView, FIFO_DEPTH};

verus! {

/// A pin that can carry what a UART transmits.
pub trait TxPin: AnyPin {
    /// The UART of the pin.
    spec fn spec_bank() -> Bank;

    /// The function that connects the pin to the UART.
    spec fn spec_fun_sel() -> FunctionSelect;

    /// The UART of the pin.
    fn bank() -> (bank: Bank)
        ensures
            bank == Self::spec_bank(),
    ;

    /// The function that connects the pin to the UART.
    fn fun_sel() -> (fun_sel: FunctionSelect)
        ensures
            fun_sel == Self::spec_fun_sel(),
    ;
}

/// A pin that can carry what a UART receives.
pub trait RxPin: AnyPin {
    /// The UART of the pin.
    spec fn spec_bank() -> Bank;

    /// The function that connects the pin to the UART.
    spec fn spec_fun_sel() -> FunctionSelect;

    /// The UART of the pin.
    fn bank() -> (bank: Bank)
        ensures
            bank == Self::spec_bank(),
    ;

    /// The function that connects the pin to the UART.
    fn fun_sel() -> (fun_sel: FunctionSelect)
        ensures
            fun_sel == Self::spec_fun_sel(),
    ;
}

/// A function that needs an interrupt line was called on a UART without one.
#[derive(Debug, Clone, Copy, PartialEq, Eq, Structural)]
pub struct NoInterruptIdWasSet;

/// A reception was started while one is pending.
#[derive(Debug, Clone, Copy, PartialEq, Eq, Structural)]
pub struct TransferPendingError;

/// The pins do not belong to the UART.
#[derive(Debug, Clone, Copy, PartialEq, Eq, Structural)]
pub struct UartIdMissmatchError;

/// The buffer is shorter than the longest packet.
#[derive(Debug, Clone, Copy, PartialEq, Eq, Structural)]
pub struct BufferTooShortError {
    pub found: usize,
    pub expected: usize,
}

/// A condition that a UART can raise an interrupt for.
#[derive(Debug, PartialEq, Eq, Copy, Clone, Structural)]
pub enum Event {
    /// The receive FIFO is at least half full.
    RxFifoHalfFull,
    /// Framing error, overrun error, parity error or break.
    RxError,
    /// Data in the receive FIFO and no receiver activity for four character times.
    RxTimeout,
    /// The transmit FIFO is at least half empty.
    TxFifoHalfFull,
    /// The transmit FIFO has overflowed.
    TxError,
    /// The transmit FIFO is empty and the transmitter is idle.
    TxEmpty,
    /// The CTS line has changed.
    TxCts,
}

/// The parity of a UART.
#[derive(Debug, Copy, Clone, PartialEq, Eq, Structural)]
pub enum Parity {
    NoParity,
    Odd,
    Even,
}

/// The configuration of a UART.
#[derive(Debug, Copy, Clone, PartialEq, Eq, Structural)]
pub struct Config {
    pub baudrate: Hertz,
    pub parity: Parity,
    pub stopbits: Stopbits,
    /// When false, the baud clock is 16 times the baud rate, else 8 times.
    pub baud8: bool,
    pub wordsize: WordSize,
    pub enable_tx: bool,
    pub enable_rx: bool,
}

impl Config {
    /// The same configuration with the baud rate `baudrate`.
    pub fn baudrate(self, baudrate: Hertz) -> (config: Config)
        ensures
            config == (Config { baudrate, ..self }),
    {
        Config { baudrate, ..self }
    }

    /// The same configuration without parity.
    pub fn parity_none(self) -> (config: Config)
        ensures
            config == (Config { parity: Parity::NoParity, ..self }),
    {
        Config { parity: Parity::NoParity, ..self }
    }

    /// The same configuration with even parity.
    pub fn parity_even(self) -> (config: Config)
        ensures
            config == (Config { parity: Parity::Even, ..self }),
    {
        Config { parity: Parity::Even, ..self }
    }

    /// The same configuration with odd parity.
    pub fn parity_odd(self) -> (config: Config)
        ensures
            config == (Config { parity: Parity::Odd, ..self }),
    {
        Config { parity: Parity::Odd, ..self }
    }

    /// The same configuration with the stop bits `stopbits`.
    pub fn stopbits(self, stopbits: Stopbits) -> (config: Config)
        ensures
            config == (Config { stopbits, ..self }),
    {
        Config { stopbits, ..self }
    }

    /// The same configuration with the word size `wordsize`.
    pub fn wordsize(self, wordsize: WordSize) -> (config: Config)
        ensures
            config == (Config { wordsize, ..self }),
    {
        Config { wordsize, ..self }
    }

    /// The same configuration with the baud clock at 8 times the baud rate if `baud` is
    /// set, at 16 times else.
    pub fn baud8(self, baud: bool) -> (config: Config)
        ensures
            config == (Config { baud8: baud, ..self }),
    {
        Config { baud8: baud, ..self }
    }

    /// The default configuration with the baud rate `baud`.
    pub fn from_baudrate(baud: Hertz) -> (config: Config)
        ensures
            config == (Config { baudrate: baud, ..Config::spec_default() }),
    {
        Config::default().baudrate(baud)
    }

    /// The default configuration: 115200 baud, eight data bits, no parity, one stop
    /// bit, both halves enabled.
    pub open spec fn spec_default() -> Config {
        Config {
            baudrate: Hertz { raw: 115_200 },
            parity: Parity::NoParity,
            stopbits: Stopbits::One,
            baud8: false,
            wordsize: WordSize::Eight,
            enable_tx: true,
            enable_rx: true,
        }
    }
}

impl Default for Config {
    fn default() -> (config: Config)
        ensures
            config == Config::spec_default(),
    {
        Config {
            baudrate: Hertz::from_raw(115_200),
            parity: Parity::NoParity,
            stopbits: Stopbits::One,
            baud8: false,
            wordsize: WordSize::Eight,
            enable_tx: true,
            enable_rx: true,
        }
    }
}

/// Whether a reception by interrupt is pending.
#[derive(Debug, PartialEq, Eq, Copy, Clone, Structural)]
pub enum InterruptReceptionMode {
    Idle,
    Pending,
}

/// What a reception of packets of a maximum size keeps between the interrupts.
#[derive(Debug, Copy, Clone, PartialEq, Eq, Structural)]
pub struct InterruptContextTimeoutOrMaxSize {
    pub rx_idx: usize,
    pub mode: InterruptReceptionMode,
    pub max_len: usize,
}

impl InterruptContextTimeoutOrMaxSize {
    /// The context of an idle receiver for packets of at most `max_len` bytes.
    pub fn new(max_len: usize) -> (context: InterruptContextTimeoutOrMaxSize)
        ensures
            context == (InterruptContextTimeoutOrMaxSize {
                rx_idx: 0,
                max_len,
                mode: InterruptReceptionMode::Idle,
            }),
    {
        InterruptContextTimeoutOrMaxSize { rx_idx: 0, max_len, mode: InterruptReceptionMode::Idle }
    }

    /// Back to idle, with nothing received.
    pub fn reset(&mut self)
        ensures
            *final(self) == (InterruptContextTimeoutOrMaxSize {
                rx_idx: 0,
                mode: InterruptReceptionMode::Idle,
                ..*old(self)
            }),
    {
        self.rx_idx = 0;
        self.mode = InterruptReceptionMode::Idle;
    }
}

/// The errors of the receiver that an interrupt handler has seen.
#[derive(Debug, Copy, Clone, PartialEq, Eq, Structural)]
pub struct UartErrors {
    pub overflow: bool,
    pub framing: bool,
    pub parity: bool,
    pub other: bool,
}

impl UartErrors {
    /// No error.
    pub open spec fn spec_none() -> UartErrors {
        UartErrors { overflow: false, framing: false, parity: false, other: false }
    }

    /// Whether the receive FIFO has overflowed.
    pub fn overflow(&self) -> (b: bool)
        ensures
            b == self.overflow,
    {
        self.overflow
    }

    /// Whether a byte without a valid stop bit was received.
    pub fn framing(&self) -> (b: bool)
        ensures
            b == self.framing,
    {
        self.framing
    }

    /// Whether a byte with a wrong parity bit was received.
    pub fn parity(&self) -> (b: bool)
        ensures
            b == self.parity,
    {
        self.parity
    }

    /// Whether there was another error.
    pub fn other(&self) -> (b: bool)
        ensures
            b == self.other,
    {
        self.other
    }

    /// Whether there was any error.
    pub fn error(&self) -> (b: bool)
        ensures
            b == (self.overflow || self.framing || self.parity || self.other),
    {
        self.overflow || self.framing || self.parity || self.other
    }
}

impl Default for UartErrors {
    fn default() -> (errors: UartErrors)
        ensures
            errors == UartErrors::spec_none(),
    {
        UartErrors { overflow: false, framing: false, parity: false, other: false }
    }
}

/// What an interrupt handler of the receiver hands to the user.
#[derive(Debug, Copy, Clone, PartialEq, Eq, Structural)]
pub struct InterruptResult {
    pub bytes_read: usize,
    pub errors: Option<UartErrors>,
}

/// What an interrupt handler of the receiver for packets of a maximum size hands to the
/// user.
#[derive(Debug, Copy, Clone, PartialEq, Eq, Structural)]
pub struct InterruptResultMaxSizeOrTimeout {
    pub complete: bool,
    pub timeout: bool,
    pub errors: Option<UartErrors>,
    pub bytes_read: usize,
}

impl InterruptResultMaxSizeOrTimeout {
    /// The result of a handler that has read nothing and seen nothing.
    pub fn new() -> (result: InterruptResultMaxSizeOrTimeout)
        ensures
            result == (InterruptResultMaxSizeOrTimeout {
                complete: false,
                timeout: false,
                errors: None,
                bytes_read: 0,
            }),
    {
        InterruptResultMaxSizeOrTimeout { complete: false, timeout: false, errors: None, bytes_read: 0 }
    }

    /// Whether the handler has seen an error.
    pub fn has_errors(&self) -> (b: bool)
        ensures
            b == self.errors.is_some(),
    {
        self.errors.is_some()
    }

    /// Whether the handler has seen an overflow of the receive FIFO.
    pub fn overflow_error(&self) -> (b: bool)
        ensures
            b == (self.errors matches Some(e) && e.overflow),
    {
        match self.errors {
            Some(e) => e.overflow,
            None => false,
        }
    }

    /// Whether the handler has seen a framing error.
    pub fn framing_error(&self) -> (b: bool)
        ensures
            b == (self.errors matches Some(e) && e.framing),
    {
        match self.errors {
            Some(e) => e.framing,
            None => false,
        }
    }

    /// Whether the handler has seen a parity error.
    pub fn parity_error(&self) -> (b: bool)
        ensures
            b == (self.errors matches Some(e) && e.parity),
    {
        match self.errors {
            Some(e) => e.parity,
            None => false,
        }
    }

    /// Whether the packet ended by a timeout.
    pub fn timeout(&self) -> (b: bool)
        ensures
            b == self.timeout,
    {
        self.timeout
    }

    /// Whether the packet is complete.
    pub fn complete(&self) -> (b: bool)
        ensures
            b == self.complete,
    {
        self.complete
    }
}

/// The interrupt enable register with the interrupts of the receiver on: the status
/// conditions, the half-full FIFO and, if `timeout` is set, the timeout.
pub open spec fn spec_rx_interrupts_enabled(value: InterruptControl, timeout: bool) -> InterruptControl {
    let on = value.with_rx_status(true).with_rx(true);
    if timeout {
        on.with_rx_timeout(true)
    } else {
        on
    }
}

/// The interrupt enable register with the interrupts of the receiver off.
pub open spec fn spec_rx_interrupts_disabled(value: InterruptControl) -> InterruptControl {
    value.with_rx_status(false).with_rx(false).with_rx_timeout(false)
}

/// The interrupt enable register with the interrupts of the transmitter on: the
/// half-empty FIFO, the empty FIFO and the overflow.
pub open spec fn spec_tx_interrupts_enabled(value: InterruptControl) -> InterruptControl {
    value.with_tx(true).with_tx_empty(true).with_tx_status(true)
}

/// The interrupt enable register with the interrupts of the transmitter off.
pub open spec fn spec_tx_interrupts_disabled(value: InterruptControl) -> InterruptControl {
    value.with_tx(false).with_tx_empty(false).with_tx_status(false)
}

/// Enables the receiver.
pub fn enable_rx(uart: &mut regs::Uart)
    ensures
        final(uart)@ == old(uart)@.with_enable(old(uart).regs.enable.with_rx(true)),
{
    let value = uart.read_enable().with_rx(true);
    uart.write_enable(value);
}

/// Disables the receiver.
pub fn disable_rx(uart: &mut regs::Uart)
    ensures
        final(uart)@ == old(uart)@.with_enable(old(uart).regs.enable.with_rx(false)),
{
    let value = uart.read_enable().with_rx(false);
    uart.write_enable(value);
}

/// Enables the interrupts of the receiver: for status conditions, for the half-full
/// FIFO and, if `timeout` is set, for the timeout.
pub fn enable_rx_interrupts(uart: &mut regs::Uart, timeout: bool)
    ensures
        final(uart)@ == old(uart)@.with_irq_enabled(
            spec_rx_interrupts_enabled(old(uart).regs.irq_enabled, timeout),
        ),
{
    let mut value = uart.read_irq_enabled().with_rx_status(true).with_rx(true);
    if timeout {
        value = value.with_rx_timeout(true);
    }
    uart.write_irq_enabled(value);
}

/// Disables the interrupts of the receiver.
pub fn disable_rx_interrupts(uart: &mut regs::Uart)
    ensures
        final(uart)@ == old(uart)@.with_irq_enabled(spec_rx_interrupts_disabled(old(uart).regs.irq_enabled)),
{
    let value = uart.read_irq_enabled().with_rx_status(false).with_rx(false).with_rx_timeout(false);
    uart.write_irq_enabled(value);
}

/// Enables the transmitter.
pub fn enable_tx(uart: &mut regs::Uart)
    ensures
        final(uart)@ == old(uart)@.with_enable(old(uart).regs.enable.with_tx(true)),
{
    let value = uart.read_enable().with_tx(true);
    uart.write_enable(value);
}

/// Disables the transmitter.
pub fn disable_tx(uart: &mut regs::Uart)
    ensures
        final(uart)@ == old(uart)@.with_enable(old(uart).regs.enable.with_tx(false)),
{
    let value = uart.read_enable().with_tx(false);
    uart.write_enable(value);
}

/// Enables the interrupts of the transmitter.
pub fn enable_tx_interrupts(uart: &mut regs::Uart)
    ensures
        final(uart)@ == old(uart)@.with_irq_enabled(spec_tx_interrupts_enabled(old(uart).regs.irq_enabled)),
{
    let value = uart.read_irq_enabled().with_tx(true).with_tx_empty(true).with_tx_status(true);
    uart.write_irq_enabled(value);
}

/// Disables the interrupts of the transmitter.
pub fn disable_tx_interrupts(uart: &mut regs::Uart)
    ensures
        final(uart)@ == old(uart)@.with_irq_enabled(spec_tx_interrupts_disabled(old(uart).regs.irq_enabled)),
{
    let value = uart.read_irq_enabled().with_tx(false).with_tx_empty(false).with_tx_status(false);
    uart.write_irq_enabled(value);
}

/// The errors that the status `status` of the receiver shows: the overrun before the
/// framing error, the framing error before the parity error, and one of them only.
pub open spec fn spec_poll_errors(status: regs::RxStatus) -> Option<UartErrors> {
    if status.overrun_error() {
        Some(UartErrors { overflow: true, ..UartErrors::spec_none() })
    } else if status.framing_error() {
        Some(UartErrors { framing: true, ..UartErrors::spec_none() })
    } else if status.parity_error() {
        Some(UartErrors { parity: true, ..UartErrors::spec_none() })
    } else {
        None
    }
}

/// One of the UARTs as a type. The registers are the same for all of them.
pub trait UartInstance: Sealed {
    /// The UART.
    spec fn spec_id() -> Bank;

    /// The clock gate of the UART.
    spec fn spec_periph_sel() -> PeripheralSelect;

    /// The UART.
    fn id() -> (bank: Bank)
        ensures
            bank == Self::spec_id(),
    ;

    /// The clock gate of the UART.
    fn periph_sel() -> (sel: PeripheralSelect)
        ensures
            sel == Self::spec_periph_sel(),
    ;
}

/// UART 0 as a type.
#[derive(Debug)]
pub struct Uart0;

/// UART 1 as a type.
#[derive(Debug)]
pub struct Uart1;

/// UART 2 as a type.
#[derive(Debug)]
pub struct Uart2;

impl Sealed for Uart0 {

}

impl Sealed for Uart1 {

}

impl Sealed for Uart2 {

}

impl UartInstance for Uart0 {
    open spec fn spec_id() -> Bank {
        Bank::Uart0
    }

    open spec fn spec_periph_sel() -> PeripheralSelect {
        PeripheralSelect::Uart0
    }

    fn id() -> (bank: Bank) {
        Bank::Uart0
    }

    fn periph_sel() -> (sel: PeripheralSelect) {
        PeripheralSelect::Uart0
    }
}

impl UartInstance for Uart1 {
    open spec fn spec_id() -> Bank {
        Bank::Uart1
    }

    open spec fn spec_periph_sel() -> PeripheralSelect {
        PeripheralSelect::Uart1
    }

    fn id() -> (bank: Bank) {
        Bank::Uart1
    }

    fn periph_sel() -> (sel: PeripheralSelect) {
        PeripheralSelect::Uart1
    }
}

impl UartInstance for Uart2 {
    open spec fn spec_id() -> Bank {
        Bank::Uart2
    }

    open spec fn spec_periph_sel() -> PeripheralSelect {
        PeripheralSelect::Uart2
    }

    fn id() -> (bank: Bank) {
        Bank::Uart2
    }

    fn periph_sel() -> (sel: PeripheralSelect) {
        PeripheralSelect::Uart2
    }
}

/// The divider of the reference clock `ref_clk` for the baud rate `baudrate`, if there
/// is one.
///
/// The integer part is the reference clock by the baud clock, which is 16 times the
/// baud rate, or 8 times with `baud8`. The fractional part, in 64ths, is what is left
/// of the reference clock by 16 times the baud rate, rounded to the nearest. There is
/// no divider for a baud rate of 0, for a baud rate of which 16 times does not fit 32
/// bits, or where a part does not fit its field: the integer part 18 bits, the
/// fractional part 6.
pub open spec fn spec_clock_scale(ref_clk: Hertz, baudrate: Hertz, baud8: bool) -> Option<(u32, u8)> {
    let baud = baudrate.raw as int;
    let multiplier: int = if baud8 {
        8
    } else {
        16
    };
    if baud == 0 || baud * 16 > u32::MAX {
        None
    } else {
        let frac = ((ref_clk.raw as int % (baud * 16)) * 64 + baud * 8) / (baud * 16);
        let integer = ref_clk.raw as int / (baud * multiplier);
        if (ref_clk.raw as int % (baud * 16)) * 64 + baud * 8 > u32::MAX || frac > 63 || integer >= 0x4_0000 {
            None
        } else {
            Some((integer as u32, frac as u8))
        }
    }
}

/// The divider of the reference clock `ref_clk` for the baud rate `baudrate`, if there
/// is one.
pub fn clock_scale(ref_clk: Hertz, baudrate: Hertz, baud8: bool) -> (scale: Option<(u32, u8)>)
    ensures
        scale == spec_clock_scale(ref_clk, baudrate, baud8),
{
    let baud: u64 = baudrate.raw() as u64;
    let multiplier: u64 = if baud8 {
        8
    } else {
        16
    };
    if baud == 0 || baud * 16 > u32::MAX as u64 {
        return None;
    }
    let numerator: u64 = ((ref_clk.raw() as u64) % (baud * 16)) * 64 + baud * 8;
    let frac: u64 = numerator / (baud * 16);
    let integer: u64 = (ref_clk.raw() as u64) / (baud * multiplier);
    if numerator > u32::MAX as u64 || frac > 63 || integer >= 0x4_0000 {
        return None;
    }
    Some((integer as u32, frac as u8))
}

/// The parity bits of the control register for the parity `parity`: whether parity is
/// enabled, and whether it is even.
pub open spec fn spec_parity_bits(parity: Parity) -> (bool, bool) {
    match parity {
        Parity::NoParity => (false, false),
        Parity::Odd => (true, false),
        Parity::Even => (true, true),
    }
}

/// The control register for the configuration `config`.
pub open spec fn spec_control_for(config: Config) -> Control {
    (Control { raw: 0 }).with_baud8(config.baud8).with_auto_rts(false).with_def_rts(false).with_auto_cts(
        false,
    ).with_loopback_block(false).with_loopback(false).with_wordsize(config.wordsize).with_stopbits(
        config.stopbits,
    ).with_parity_manual(false).with_parity_even(spec_parity_bits(config.parity).1).with_parity_enable(
        spec_parity_bits(config.parity).0,
    )
}

/// The UART after it was configured with `config` and the divider `scale`: the divider
/// and the control register written, both FIFOs cleared, and the halves enabled as the
/// configuration says.
pub open spec fn spec_configured(uart: UartView, config: Config, scale: (u32, u8)) -> UartView {
    let written = UartView {
        regs: regs::UartRegs {
            clkscale: (ClkScale { raw: 0 }).with_integer(scale.0).with_frac(scale.1),
            ctrl: spec_control_for(config),
            ..uart.regs
        },
        ..uart
    };
    written.after_fifo_clr((FifoClear { raw: 0 }).with_tx(true).with_rx(true)).with_enable(
        (Enable { raw: 0 }).with_tx(config.enable_tx).with_rx(config.enable_rx),
    )
}

/// The interrupt enable register with the interrupt for the event `event` switched on
/// or off.
pub open spec fn spec_listening(value: InterruptControl, event: Event, on: bool) -> InterruptControl {
    match event {
        Event::RxError => value.with_rx_status(on),
        Event::RxFifoHalfFull => value.with_rx(on),
        Event::RxTimeout => value.with_rx_timeout(on),
        Event::TxEmpty => value.with_tx_empty(on),
        Event::TxError => value.with_tx_status(on),
        Event::TxFifoHalfFull => value.with_tx(on),
        Event::TxCts => value.with_tx_cts(on),
    }
}

/// UART driver structure: a transmitter and a receiver.
pub struct Uart {
    tx: Tx,
    rx: Rx,
}

impl Uart {
    /// The UART.
    pub closed spec fn spec_id(&self) -> Bank {
        self.tx.spec_id()
    }

    /// The invariant of the type: both halves belong to the same UART.
    pub closed spec fn wf(&self) -> bool {
        self.tx.spec_id() == self.rx.spec_id()
    }

    /// Create a new UART peripheral driver.
    ///
    /// The reference clock is that of the first peripheral bus for UART 2, that of the
    /// second for the others.
    pub fn new<UartI: UartInstance, TxP: TxPin, RxP: RxPin>(
        uart: UartI,
        tx_pin: TxP,
        rx_pin: RxP,
        clks: &Clocks,
        config: Config,
        sysconfig: &mut Sysconfig,
        ioconfig: &mut IoConfig,
        regs: &mut regs::Uart,
    ) -> (res: Result<Uart, UartIdMissmatchError>)
        requires
            spec_clock_scale(Self::spec_ref_clk(UartI::spec_id(), *clks), config.baudrate, config.baud8).is_some(),
        ensures
            res.is_ok() == (UartI::spec_id() == TxP::spec_bank() && UartI::spec_id() == RxP::spec_bank()),
            res.is_err() ==> *final(sysconfig) == *old(sysconfig) && final(ioconfig).pins@ == old(ioconfig).pins@
                && final(regs)@ == old(regs)@,
            res matches Ok(driver) ==> {
                &&& driver.wf()
                &&& driver.spec_id() == UartI::spec_id()
                &&& final(regs)@ == spec_configured(
                    old(regs)@,
                    config,
                    spec_clock_scale(Self::spec_ref_clk(UartI::spec_id(), *clks), config.baudrate, config.baud8).unwrap(),
                )
                &&& *final(sysconfig) == (Sysconfig {
                    peripheral_clk_enable: crate::bits::spec_set_bit(
                        old(sysconfig).peripheral_clk_enable,
                        UartI::spec_periph_sel().bit(),
                        true,
                    ),
                    ..*old(sysconfig)
                })
                &&& final(ioconfig).pins@ == Self::spec_pins_configured::<TxP, RxP>(*old(ioconfig))
            },
    {
        let ref_clk = if UartI::id() == Bank::Uart2 {
            clks.apb1()
        } else {
            clks.apb2()
        };
        Self::new_internal(uart, (tx_pin, rx_pin), ref_clk, config, sysconfig, ioconfig, regs)
    }

    /// The reference clock of the UART `id`: that of the first peripheral bus for UART
    /// 2, that of the second for the others.
    pub open spec fn spec_ref_clk(id: Bank, clks: Clocks) -> Hertz {
        if id == Bank::Uart2 {
            clks.apb1()
        } else {
            clks.apb2()
        }
    }

    /// The pin configuration after the two pins were handed to the UART. Both pins get
    /// the function of the transmit pin.
    pub open spec fn spec_pins_configured<TxP: TxPin, RxP: RxPin>(ioconfig: IoConfig) -> Seq<crate::ioconfig::regs::Config> {
        let with_tx = ioconfig.spec_with_pin_config(
            <TxP as AnyPin>::spec_id(),
            crate::gpio::ll::spec_peripheral_pin(
                ioconfig.spec_pin_config(<TxP as AnyPin>::spec_id()),
                <TxP as TxPin>::spec_fun_sel(),
                None,
            ),
        );
        with_tx.update(
            IoConfig::spec_index(<RxP as AnyPin>::spec_id()),
            crate::gpio::ll::spec_peripheral_pin(
                with_tx[IoConfig::spec_index(<RxP as AnyPin>::spec_id())],
                <TxP as TxPin>::spec_fun_sel(),
                None,
            ),
        )
    }

    /// Create a new UART peripheral driver given a reference clock.
    pub fn new_with_ref_clk<UartI: UartInstance, TxP: TxPin, RxP: RxPin>(
        uart: UartI,
        tx_pin: TxP,
        rx_pin: RxP,
        ref_clk: Hertz,
        config: Config,
        sysconfig: &mut Sysconfig,
        ioconfig: &mut IoConfig,
        regs: &mut regs::Uart,
    ) -> (res: Result<Uart, UartIdMissmatchError>)
        requires
            spec_clock_scale(ref_clk, config.baudrate, config.baud8).is_some(),
        ensures
            res.is_ok() == (UartI::spec_id() == TxP::spec_bank() && UartI::spec_id() == RxP::spec_bank()),
            res.is_err() ==> *final(sysconfig) == *old(sysconfig) && final(ioconfig).pins@ == old(ioconfig).pins@
                && final(regs)@ == old(regs)@,
            res matches Ok(driver) ==> {
                &&& driver.wf()
                &&& driver.spec_id() == UartI::spec_id()
                &&& final(regs)@ == spec_configured(
                    old(regs)@,
                    config,
                    spec_clock_scale(ref_clk, config.baudrate, config.baud8).unwrap(),
                )
                &&& *final(sysconfig) == (Sysconfig {
                    peripheral_clk_enable: crate::bits::spec_set_bit(
                        old(sysconfig).peripheral_clk_enable,
                        UartI::spec_periph_sel().bit(),
                        true,
                    ),
                    ..*old(sysconfig)
                })
                &&& final(ioconfig).pins@ == Self::spec_pins_configured::<TxP, RxP>(*old(ioconfig))
            },
    {
        Self::new_internal(uart, (tx_pin, rx_pin), ref_clk, config, sysconfig, ioconfig, regs)
    }

    fn new_internal<UartI: UartInstance, TxPinI: TxPin, RxPinI: RxPin>(
        _uart: UartI,
        _pins: (TxPinI, RxPinI),
        ref_clk: Hertz,
        config: Config,
        sysconfig: &mut Sysconfig,
        ioconfig: &mut IoConfig,
        reg_block: &mut regs::Uart,
    ) -> (res: Result<Uart, UartIdMissmatchError>)
        requires
            spec_clock_scale(ref_clk, config.baudrate, config.baud8).is_some(),
        ensures
            res.is_ok() == (UartI::spec_id() == TxPinI::spec_bank() && UartI::spec_id() == RxPinI::spec_bank()),
            res.is_err() ==> *final(sysconfig) == *old(sysconfig) && final(ioconfig).pins@ == old(ioconfig).pins@
                && final(reg_block)@ == old(reg_block)@,
            res matches Ok(driver) ==> {
                &&& driver.wf()
                &&& driver.spec_id() == UartI::spec_id()
                &&& final(reg_block)@ == spec_configured(
                    old(reg_block)@,
                    config,
                    spec_clock_scale(ref_clk, config.baudrate, config.baud8).unwrap(),
                )
                &&& *final(sysconfig) == (Sysconfig {
                    peripheral_clk_enable: crate::bits::spec_set_bit(
                        old(sysconfig).peripheral_clk_enable,
                        UartI::spec_periph_sel().bit(),
                        true,
                    ),
                    ..*old(sysconfig)
                })
                &&& final(ioconfig).pins@ == Self::spec_pins_configured::<TxPinI, RxPinI>(*old(ioconfig))
            },
    {
        if UartI::id() != TxPinI::bank() || UartI::id() != RxPinI::bank() {
            return Err(UartIdMissmatchError);
        }
        IoPeriphPin::new(<TxPinI as AnyPin>::id(), ioconfig, <TxPinI as TxPin>::fun_sel(), None);
        IoPeriphPin::new(<RxPinI as AnyPin>::id(), ioconfig, <TxPinI as TxPin>::fun_sel(), None);
        enable_peripheral_clock(sysconfig, UartI::periph_sel());

        // The divider is computed as the data sheet says, in integers.
        let (integer_part, frac) = match clock_scale(ref_clk, config.baudrate, config.baud8) {
            Some(scale) => scale,
            None => (0, 0),
        };
        reg_block.write_clkscale((ClkScale { raw: 0 }).with_integer(integer_part).with_frac(frac));

        let (paren, pareven) = match config.parity {
            Parity::NoParity => (false, false),
            Parity::Odd => (true, false),
            Parity::Even => (true, true),
        };
        reg_block.write_ctrl(
            (Control { raw: 0 }).with_baud8(config.baud8).with_auto_rts(false).with_def_rts(false).with_auto_cts(
                false,
            ).with_loopback_block(false).with_loopback(false).with_wordsize(config.wordsize).with_stopbits(
                config.stopbits,
            ).with_parity_manual(false).with_parity_even(pareven).with_parity_enable(paren),
        );
        // Clear the FIFOs.
        reg_block.write_fifo_clr((FifoClear { raw: 0 }).with_tx(true).with_rx(true));
        reg_block.write_enable((Enable { raw: 0 }).with_tx(config.enable_tx).with_rx(config.enable_rx));

        Ok(Uart { tx: Tx::new(UartI::id()), rx: Rx::new(UartI::id()) })
    }

    /// Reads the peripheral ID.
    pub fn peripheral_id(&self, regs: &regs::Uart) -> (id: u32)
        ensures
            id == regs.regs.perid,
    {
        self.tx.perid(regs)
    }

    /// Enables the receiver.
    pub fn enable_rx(&mut self, regs: &mut regs::Uart)
        ensures
            final(self).wf() == old(self).wf(),
            final(self).spec_id() == old(self).spec_id(),
            final(regs)@ == old(regs)@.with_enable(old(regs).regs.enable.with_rx(true)),
    {
        self.rx.enable(regs);
    }

    /// Disables the receiver.
    pub fn disable_rx(&mut self, regs: &mut regs::Uart)
        ensures
            final(self).wf() == old(self).wf(),
            final(self).spec_id() == old(self).spec_id(),
            final(regs)@ == old(regs)@.with_enable(old(regs).regs.enable.with_rx(false)),
    {
        self.rx.disable(regs);
    }

    /// Enables the transmitter.
    pub fn enable_tx(&mut self, regs: &mut regs::Uart)
        ensures
            final(self).wf() == old(self).wf(),
            final(self).spec_id() == old(self).spec_id(),
            final(regs)@ == old(regs)@.with_enable(old(regs).regs.enable.with_tx(true)),
    {
        self.tx.enable(regs);
    }

    /// Disables the transmitter.
    pub fn disable_tx(&mut self, regs: &mut regs::Uart)
        ensures
            final(self).wf() == old(self).wf(),
            final(self).spec_id() == old(self).spec_id(),
            final(regs)@ == old(regs)@.with_enable(old(regs).regs.enable.with_tx(false)),
    {
        self.tx.disable(regs);
    }

    /// Empties the receive FIFO.
    pub fn clear_rx_fifo(&mut self, regs: &mut regs::Uart)
        ensures
            final(self).wf() == old(self).wf(),
            final(self).spec_id() == old(self).spec_id(),
            final(regs)@ == old(regs)@.after_fifo_clr((FifoClear { raw: 0 }).with_tx(false).with_rx(true)),
    {
        self.rx.clear_fifo(regs);
    }

    /// Empties the transmit FIFO.
    pub fn clear_tx_fifo(&mut self, regs: &mut regs::Uart)
        ensures
            final(self).wf() == old(self).wf(),
            final(self).spec_id() == old(self).spec_id(),
            final(regs)@ == old(regs)@.after_fifo_clr((FifoClear { raw: 0 }).with_tx(true).with_rx(false)),
    {
        self.tx.clear_fifo(regs);
    }

    /// Enables the interrupt for the event `event`.
    pub fn listen(&mut self, regs: &mut regs::Uart, event: Event)
        ensures
            *final(self) == *old(self),
            final(regs)@ == old(regs)@.with_irq_enabled(spec_listening(old(regs).regs.irq_enabled, event, true)),
    {
        let value = regs.read_irq_enabled();
        let value = match event {
            Event::RxError => value.with_rx_status(true),
            Event::RxFifoHalfFull => value.with_rx(true),
            Event::RxTimeout => value.with_rx_timeout(true),
            Event::TxEmpty => value.with_tx_empty(true),
            Event::TxError => value.with_tx_status(true),
            Event::TxFifoHalfFull => value.with_tx(true),
            Event::TxCts => value.with_tx_cts(true),
        };
        regs.write_irq_enabled(value);
    }

    /// Disables the interrupt for the event `event`.
    pub fn unlisten(&mut self, regs: &mut regs::Uart, event: Event)
        ensures
            *final(self) == *old(self),
            final(regs)@ == old(regs)@.with_irq_enabled(spec_listening(old(regs).regs.irq_enabled, event, false)),
    {
        let value = regs.read_irq_enabled();
        let value = match event {
            Event::RxError => value.with_rx_status(false),
            Event::RxFifoHalfFull => value.with_rx(false),
            Event::RxTimeout => value.with_rx_timeout(false),
            Event::TxEmpty => value.with_tx_empty(false),
            Event::TxError => value.with_tx_status(false),
            Event::TxFifoHalfFull => value.with_tx(false),
            Event::TxCts => value.with_tx_cts(false),
        };
        regs.write_irq_enabled(value);
    }

    /// Polls the errors of the receiver.
    pub fn poll_rx_errors(&self, regs: &regs::Uart) -> (errors: Option<UartErrors>)
        ensures
            errors == spec_poll_errors(regs@.rx_status()),
    {
        self.rx.poll_errors(regs)
    }

    /// Splits the driver into its transmitter and its receiver.
    pub fn split(self) -> (halves: (Tx, Rx))
        ensures
            halves.0.spec_id() == self.spec_id(),
            self.wf() ==> halves.1.spec_id() == self.spec_id(),
    {
        (self.tx, self.rx)
    }
}

/// Serial receiver.
pub struct Rx {
    id: Bank,
}

impl Rx {
    /// The UART that the receiver belongs to.
    pub closed spec fn spec_id(&self) -> Bank {
        self.id
    }

    /// The receiver of the UART `id`, without an [`Uart`] to split.
    pub fn steal(id: Bank) -> (rx: Rx)
        ensures
            rx.spec_id() == id,
    {
        Rx { id }
    }

    pub(crate) fn new(id: Bank) -> (rx: Rx)
        ensures
            rx.spec_id() == id,
    {
        Rx { id }
    }

    /// The UART that the receiver belongs to.
    #[verifier::when_used_as_spec(spec_id)]
    pub fn id(&self) -> (id: Bank)
        ensures
            id == self.spec_id(),
    {
        self.id
    }

    /// Polls the errors of the receiver: the first of overrun, framing error and parity
    /// error that the status shows, if it shows one.
    pub fn poll_errors(&self, uart: &regs::Uart) -> (errors: Option<UartErrors>)
        ensures
            errors == spec_poll_errors(uart@.rx_status()),
    {
        let mut errors = UartErrors::default();
        let status = uart.read_rx_status();
        if status.overrun_error() {
            errors.overflow = true;
        } else if status.framing_error() {
            errors.framing = true;
        } else if status.parity_error() {
            errors.parity = true;
        } else {
            return None;
        }
        Some(errors)
    }

    /// Reads the peripheral ID.
    pub fn perid(&self, uart: &regs::Uart) -> (id: u32)
        ensures
            id == uart.regs.perid,
    {
        uart.read_perid()
    }

    /// Empties the receive FIFO.
    pub fn clear_fifo(&mut self, uart: &mut regs::Uart)
        ensures
            final(self).spec_id() == old(self).spec_id(),
            final(uart)@ == old(uart)@.after_fifo_clr(FifoClear { raw: 0 }.with_tx(false).with_rx(true)),
    {
        uart.write_fifo_clr(FifoClear { raw: 0 }.with_tx(false).with_rx(true));
    }

    /// Disables the interrupts of the receiver.
    pub fn disable_interrupts(&mut self, uart: &mut regs::Uart)
        ensures
            final(self).spec_id() == old(self).spec_id(),
            final(uart)@ == old(uart)@.with_irq_enabled(
                spec_rx_interrupts_disabled(old(uart).regs.irq_enabled),
            ),
    {
        disable_rx_interrupts(uart);
    }

    /// Enables the interrupts of the receiver, with the timeout if `timeout` is set, and
    /// unmasks the interrupt line of the receiver if `enable_in_nvic` is set.
    pub fn enable_interrupts(&mut self, uart: &mut regs::Uart, nvic: &mut Nvic, enable_in_nvic: bool, timeout: bool)
        ensures
            final(self).spec_id() == old(self).spec_id(),
            final(uart)@ == old(uart)@.with_irq_enabled(
                spec_rx_interrupts_enabled(old(uart).regs.irq_enabled, timeout),
            ),
            enable_in_nvic ==> final(nvic).is_enabled(old(self).spec_id().interrupt_id_rx()),
            !enable_in_nvic ==> *final(nvic) == *old(nvic),
    {
        if enable_in_nvic {
            enable_nvic_interrupt(nvic, self.id.interrupt_id_rx());
        }
        enable_rx_interrupts(uart, timeout);
    }

    /// Enables the receiver.
    pub fn enable(&mut self, uart: &mut regs::Uart)
        ensures
            final(self).spec_id() == old(self).spec_id(),
            final(uart)@ == old(uart)@.with_enable(old(uart).regs.enable.with_rx(true)),
    {
        enable_rx(uart);
    }

    /// Disables the receiver.
    pub fn disable(&mut self, uart: &mut regs::Uart)
        ensures
            final(self).spec_id() == old(self).spec_id(),
            final(uart)@ == old(uart)@.with_enable(old(uart).regs.enable.with_rx(false)),
    {
        disable_rx(uart);
    }

    /// Reads a word from the receive FIFO, if it holds one.
    pub fn read_fifo(&mut self, uart: &mut regs::Uart) -> (res: NbResult<u32>)
        ensures
            final(self).spec_id() == old(self).spec_id(),
            old(uart).rx_fifo@.len() == 0 ==> res == NbResult::<u32>::WouldBlock && final(uart)@ == old(uart)@,
            old(uart).rx_fifo@.len() > 0 ==> res == NbResult::Done(old(uart).rx_fifo@[0] as u32) && final(uart)@
                == old(uart)@.after_read_data(),
    {
        proof {
            uart.regs.rx_status.lemma_with_data_available(uart.rx_fifo@.len() > 0);
        }
        if !uart.read_rx_status().data_available() {
            return NbResult::WouldBlock;
        }
        NbResult::Done(self.read_fifo_unchecked(uart))
    }

    /// Reads a word from the receive FIFO without asking whether it holds one. An empty
    /// FIFO reads as 0.
    pub fn read_fifo_unchecked(&mut self, uart: &mut regs::Uart) -> (word: u32)
        ensures
            final(self).spec_id() == old(self).spec_id(),
            word == old(uart)@.next_byte(),
            final(uart)@ == old(uart)@.after_read_data(),
    {
        uart.read_data().raw_value()
    }

    /// Reads a byte from the receive FIFO, if it holds one.
    pub fn read_byte(&mut self, uart: &mut regs::Uart) -> (res: NbResult<u8>)
        ensures
            final(self).spec_id() == old(self).spec_id(),
            old(uart).rx_fifo@.len() == 0 ==> res == NbResult::<u8>::WouldBlock && final(uart)@ == old(uart)@,
            old(uart).rx_fifo@.len() > 0 ==> res == NbResult::Done(old(uart).rx_fifo@[0]) && final(uart)@ == old(
                uart,
            )@.after_read_data(),
    {
        match self.read_fifo(uart) {
            NbResult::Done(val) => {
                proof {
                    crate::uart::rx_asynch::lemma_byte_of_data(old(uart).rx_fifo@[0]);
                    crate::bits::lemma_field_bound(val, 0, 8);
                }
                NbResult::Done(crate::bits::get_field(val, 0, 8) as u8)
            },
            NbResult::WouldBlock => NbResult::WouldBlock,
        }
    }

    /// Reads what the receive FIFO holds into `buf`, as far as it has room, and returns
    /// the number of bytes. A read into a buffer with room waits for the first byte: the
    /// FIFO holds one.
    pub fn read(&mut self, uart: &mut regs::Uart, buf: &mut [u8]) -> (read: usize)
        requires
            old(buf)@.len() > 0 ==> old(uart).rx_fifo@.len() > 0,
        ensures
            final(self).spec_id() == old(self).spec_id(),
            read == spec_min(old(buf)@.len() as int, old(uart).rx_fifo@.len() as int),
            final(uart)@ == (UartView {
                rx_fifo: old(uart).rx_fifo@.subrange(read as int, old(uart).rx_fifo@.len() as int),
                ..old(uart)@
            }),
            final(buf)@ == spec_filled(old(buf)@, 0, old(uart).rx_fifo@.subrange(0, read as int)),
    {
        if buf.len() == 0 {
            assert(old(uart).rx_fifo@.subrange(0, old(uart).rx_fifo@.len() as int) =~= old(uart).rx_fifo@);
            assert(spec_filled(buf@, 0, old(uart).rx_fifo@.subrange(0, 0)) =~= buf@);
            return 0;
        }
        let available = uart.rx_fifo.len();
        let count = if available < buf.len() {
            available
        } else {
            buf.len()
        };
        read_into(uart, buf, 0, count);
        count
    }

    /// Turns the receiver into one that is read from an interrupt handler.
    pub fn into_rx_with_irq(self) -> (rx: RxWithInterrupt)
        ensures
            rx.spec_rx().spec_id() == self.spec_id(),
    {
        RxWithInterrupt::new(self)
    }
}

/// Moves `count` bytes from the receive FIFO of the UART, which holds them, into `buf`
/// from the index `start` on.
fn read_into(uart: &mut regs::Uart, buf: &mut [u8], start: usize, count: usize)
    requires
        count <= old(uart).rx_fifo@.len(),
        start + count <= old(buf)@.len(),
    ensures
        final(uart)@ == (UartView {
            rx_fifo: old(uart).rx_fifo@.subrange(count as int, old(uart).rx_fifo@.len() as int),
            ..old(uart)@
        }),
        final(buf)@ == spec_filled(old(buf)@, start as int, old(uart).rx_fifo@.subrange(0, count as int)),
{
    let ghost fifo = uart.rx_fifo@;
    let ghost before = buf@;
    let len = buf.len();
    let mut i: usize = 0;
    assert(fifo.subrange(0, fifo.len() as int) =~= fifo);
    assert(spec_filled(before, start as int, fifo.subrange(0, 0)) =~= before);
    while i < count
        invariant
            i <= count <= fifo.len(),
            start + count <= before.len(),
            before.len() == len,
            buf@.len() == before.len(),
            uart@ == (UartView { rx_fifo: fifo.subrange(i as int, fifo.len() as int), ..old(uart)@ }),
            buf@ == spec_filled(before, start as int, fifo.subrange(0, i as int)),
        decreases count - i,
    {
        let word = uart.read_data().raw_value();
        proof {
            crate::uart::rx_asynch::lemma_byte_of_data(fifo[i as int]);
            crate::bits::lemma_field_bound(word, 0, 8);
        }
        buf[start + i] = crate::bits::get_field(word, 0, 8) as u8;
        proof {
            assert(fifo.subrange(i as int, fifo.len() as int).subrange(1, fifo.len() - i) =~= fifo.subrange(
                i + 1,
                fifo.len() as int,
            ));
            assert(buf@ =~= spec_filled(before, start as int, fifo.subrange(0, i + 1)));
        }
        i += 1;
    }
}

/// The buffer `buf` with `bytes` written from the index `start` on.
pub open spec fn spec_filled(buf: Seq<u8>, start: int, bytes: Seq<u8>) -> Seq<u8> {
    Seq::new(
        buf.len(),
        |i: int|
            if start <= i < start + bytes.len() {
                bytes[i - start]
            } else {
                buf[i]
            },
    )
}

/// The smaller of two numbers.
pub open spec fn spec_min(a: int, b: int) -> int {
    if a < b {
        a
    } else {
        b
    }
}

/// Serial transmitter.
pub struct Tx {
    id: Bank,
}

impl Tx {
    /// The UART that the transmitter belongs to.
    pub closed spec fn spec_id(&self) -> Bank {
        self.id
    }

    /// The transmitter of the UART `id`, without an [`Uart`] to split.
    pub fn steal(id: Bank) -> (tx: Tx)
        ensures
            tx.spec_id() == id,
    {
        Tx { id }
    }

    pub(crate) fn new(id: Bank) -> (tx: Tx)
        ensures
            tx.spec_id() == id,
    {
        Tx { id }
    }

    /// The UART that the transmitter belongs to.
    #[verifier::when_used_as_spec(spec_id)]
    pub fn id(&self) -> (id: Bank)
        ensures
            id == self.spec_id(),
    {
        self.id
    }

    /// Reads the peripheral ID.
    pub fn perid(&self, uart: &regs::Uart) -> (id: u32)
        ensures
            id == uart.regs.perid,
    {
        uart.read_perid()
    }

    /// Empties the transmit FIFO.
    pub fn clear_fifo(&mut self, uart: &mut regs::Uart)
        ensures
            final(self).spec_id() == old(self).spec_id(),
            final(uart)@ == old(uart)@.after_fifo_clr(FifoClear { raw: 0 }.with_tx(true).with_rx(false)),
    {
        uart.write_fifo_clr(FifoClear { raw: 0 }.with_tx(true).with_rx(false));
    }

    /// Enables the transmitter.
    pub fn enable(&mut self, uart: &mut regs::Uart)
        ensures
            final(self).spec_id() == old(self).spec_id(),
            final(uart)@ == old(uart)@.with_enable(old(uart).regs.enable.with_tx(true)),
    {
        enable_tx(uart);
    }

    /// Disables the transmitter.
    pub fn disable(&mut self, uart: &mut regs::Uart)
        ensures
            final(self).spec_id() == old(self).spec_id(),
            final(uart)@ == old(uart)@.with_enable(old(uart).regs.enable.with_tx(false)),
    {
        disable_tx(uart);
    }

    /// Enables the interrupts of the transmitter, and unmasks its interrupt line if
    /// `enable_in_nvic` is set.
    ///
    /// - The half-empty interrupt comes when the transmit FIFO is at least half empty.
    /// - The status interrupt comes when a written byte is lost to a full FIFO.
    /// - The empty interrupt comes when the transmit FIFO is empty and the transmitter
    ///   is idle.
    pub fn enable_interrupts(&mut self, uart: &mut regs::Uart, nvic: &mut Nvic, enable_in_nvic: bool)
        ensures
            final(self).spec_id() == old(self).spec_id(),
            final(uart)@ == old(uart)@.with_irq_enabled(
                spec_tx_interrupts_enabled(old(uart).regs.irq_enabled),
            ),
            enable_in_nvic ==> final(nvic).is_enabled(old(self).spec_id().interrupt_id_tx()),
            !enable_in_nvic ==> *final(nvic) == *old(nvic),
    {
        if enable_in_nvic {
            enable_nvic_interrupt(nvic, self.id.interrupt_id_tx());
        }
        enable_tx_interrupts(uart);
    }

    /// Disables the interrupts of the transmitter.
    pub fn disable_interrupts(&mut self, uart: &mut regs::Uart)
        ensures
            final(self).spec_id() == old(self).spec_id(),
            final(uart)@ == old(uart)@.with_irq_enabled(
                spec_tx_interrupts_disabled(old(uart).regs.irq_enabled),
            ),
    {
        disable_tx_interrupts(uart);
    }

    /// Writes the low byte of `data` to the transmit FIFO, if it has room.
    pub fn write_fifo(&mut self, uart: &mut regs::Uart, data: u32) -> (res: NbResult<()>)
        ensures
            final(self).spec_id() == old(self).spec_id(),
            old(uart).tx_fifo@.len() >= regs::FIFO_DEPTH ==> res == NbResult::<()>::WouldBlock && final(uart)@
                == old(uart)@,
            old(uart).tx_fifo@.len() < regs::FIFO_DEPTH ==> res == NbResult::Done(()) && final(uart)@ == old(
                uart,
            )@.after_write_data(Data { raw: data }.value()),
    {
        proof {
            uart.regs.tx_status.lemma_with_ready(uart.tx_fifo@.len() < regs::FIFO_DEPTH);
        }
        if !uart.read_tx_status().ready() {
            return NbResult::WouldBlock;
        }
        self.write_fifo_unchecked(uart, data);
        NbResult::Done(())
    }

    /// Writes the low byte of `data` to the transmit FIFO without asking whether it has
    /// room. A byte that is written to a full FIFO is lost.
    pub fn write_fifo_unchecked(&mut self, uart: &mut regs::Uart, data: u32)
        ensures
            final(self).spec_id() == old(self).spec_id(),
            final(uart)@ == old(uart)@.after_write_data(Data { raw: data }.value()),
    {
        uart.write_data(Data::new_with_raw_value(data));
    }

    /// Writes the byte `word` to the transmit FIFO, if it has room.
    pub fn write_byte(&mut self, uart: &mut regs::Uart, word: u8) -> (res: NbResult<()>)
        ensures
            final(self).spec_id() == old(self).spec_id(),
            old(uart).tx_fifo@.len() >= FIFO_DEPTH ==> res == NbResult::<()>::WouldBlock && final(uart)@ == old(
                uart,
            )@,
            old(uart).tx_fifo@.len() < FIFO_DEPTH ==> res == NbResult::Done(()) && final(uart)@ == old(
                uart,
            )@.after_write_data(word),
    {
        proof {
            crate::uart::rx_asynch::lemma_byte_of_data(word);
        }
        self.write_fifo(uart, word as u32)
    }

    /// Whether the transmitter has taken over all that was written: it would block
    /// while the hardware is busy with a write.
    pub fn flush(&mut self, uart: &regs::Uart) -> (res: NbResult<()>)
        ensures
            final(self).spec_id() == old(self).spec_id(),
            res == (if uart.regs.tx_status.write_busy() {
                NbResult::<()>::WouldBlock
            } else {
                NbResult::Done(())
            }),
    {
        proof {
            uart.regs.tx_status.lemma_with_ready(uart.tx_fifo@.len() < FIFO_DEPTH);
        }
        if uart.read_tx_status().write_busy() {
            return NbResult::WouldBlock;
        }
        NbResult::Done(())
    }

    /// Writes the first bytes of `buf` to the transmit FIFO, as many as it has room for,
    /// and returns their number. A write of a buffer that is not empty waits for room:
    /// the FIFO has room for a byte.
    pub fn write(&mut self, uart: &mut regs::Uart, buf: &[u8]) -> (written: usize)
        requires
            buf@.len() > 0 ==> old(uart).tx_fifo@.len() < FIFO_DEPTH,
        ensures
            final(self).spec_id() == old(self).spec_id(),
            written == spec_min(buf@.len() as int, tx_asynch::spec_tx_room(old(uart).tx_fifo@.len()) as int),
            final(uart)@ == (UartView {
                tx_fifo: old(uart).tx_fifo@ + buf@.subrange(0, written as int),
                ..old(uart)@
            }),
    {
        if buf.len() == 0 {
            assert(uart.tx_fifo@ + buf@.subrange(0, 0) =~= uart.tx_fifo@);
            return 0;
        }
        let ghost fifo = uart.tx_fifo@;
        let mut written: usize = 0;
        let mut room = true;
        assert(fifo + buf@.subrange(0, 0) =~= fifo);
        while room && written < buf.len()
            invariant
                written <= buf@.len(),
                self.spec_id() == old(self).spec_id(),
                uart@ == (UartView { tx_fifo: fifo + buf@.subrange(0, written as int), ..old(uart)@ }),
                fifo.len() + written <= FIFO_DEPTH,
                !room ==> fifo.len() + written == FIFO_DEPTH,
                fifo.len() < FIFO_DEPTH,
            decreases buf@.len() - written + (if room {
                1int
            } else {
                0int
            }),
        {
            let byte = buf[written];
            match self.write_byte(uart, byte) {
                NbResult::Done(_) => {
                    proof {
                        assert((fifo + buf@.subrange(0, written as int)).push(byte) =~= fifo + buf@.subrange(
                            0,
                            written + 1,
                        ));
                    }
                    written += 1;
                },
                NbResult::WouldBlock => {
                    room = false;
                },
            }
        }
        written
    }

    /// Turns the transmitter into an asynchronous one.
    pub fn into_async(self) -> (tx: tx_asynch::TxAsync)
        ensures
            tx.spec_tx().spec_id() == self.spec_id(),
    {
        tx_asynch::TxAsync::new(self)
    }
}

/// Serial receiver that is read from an interrupt handler.
pub struct RxWithInterrupt(pub Rx);

impl RxWithInterrupt {
    /// The receiver.
    pub open spec fn spec_rx(&self) -> Rx {
        self.0
    }

    /// Wraps the receiver `rx`.
    pub fn new(rx: Rx) -> (res: RxWithInterrupt)
        ensures
            res.spec_rx() == rx,
    {
        RxWithInterrupt(rx)
    }

    /// The receiver.
    pub fn rx(&self) -> (rx: &Rx)
        ensures
            *rx == self.spec_rx(),
    {
        &self.0
    }

    /// Enables the interrupts of the receiver with the timeout, unmasks its interrupt
    /// line and enables the receiver.
    pub fn start(&mut self, uart: &mut regs::Uart, nvic: &mut Nvic)
        ensures
            final(self).spec_rx().spec_id() == old(self).spec_rx().spec_id(),
            final(uart)@ == old(uart)@.with_irq_enabled(
                spec_rx_interrupts_enabled(old(uart).regs.irq_enabled, true),
            ).with_enable(old(uart).regs.enable.with_rx(true)),
            final(nvic).is_enabled(old(self).spec_rx().spec_id().interrupt_id_rx()),
    {
        self.0.enable_interrupts(uart, nvic, true, true);
        self.0.enable(uart);
    }

    /// Starts the reception of a packet, unless one is pending.
    pub fn read_fixed_len_or_timeout_based_using_irq(
        &mut self,
        uart: &mut regs::Uart,
        nvic: &mut Nvic,
        context: &mut InterruptContextTimeoutOrMaxSize,
    ) -> (res: Result<(), TransferPendingError>)
        ensures
            final(self).spec_rx().spec_id() == old(self).spec_rx().spec_id(),
            res.is_ok() == (old(context).mode == InterruptReceptionMode::Idle),
            res.is_err() ==> *final(context) == *old(context) && final(uart)@ == old(uart)@ && *final(nvic)
                == *old(nvic),
            res.is_ok() ==> {
                &&& *final(context) == (InterruptContextTimeoutOrMaxSize {
                    mode: InterruptReceptionMode::Pending,
                    rx_idx: 0,
                    ..*old(context)
                })
                &&& final(uart)@ == old(uart)@.with_irq_enabled(
                    spec_rx_interrupts_enabled(old(uart).regs.irq_enabled, true),
                ).with_enable(old(uart).regs.enable.with_rx(true))
                &&& final(nvic).is_enabled(old(self).spec_rx().spec_id().interrupt_id_rx())
            },
    {
        if context.mode != InterruptReceptionMode::Idle {
            return Err(TransferPendingError);
        }
        context.mode = InterruptReceptionMode::Pending;
        context.rx_idx = 0;
        self.start(uart, nvic);
        Ok(())
    }

    /// Stops the reception: the interrupts of the receiver off, its FIFO empty.
    pub fn cancel_transfer(&mut self, uart: &mut regs::Uart)
        ensures
            final(self).spec_rx().spec_id() == old(self).spec_rx().spec_id(),
            final(uart)@ == old(uart)@.with_irq_enabled(
                spec_rx_interrupts_disabled(old(uart).regs.irq_enabled),
            ).after_fifo_clr(FifoClear { raw: 0 }.with_tx(false).with_rx(true)),
    {
        self.0.disable_interrupts(uart);
        self.0.clear_fifo(uart);
    }

    /// This function should be called in the interrupt handler of the receiver.
    ///
    /// It moves the bytes that it takes from the receive FIFO into `buf`: as many as the
    /// trigger level says on a half-full FIFO, all of them on a timeout. Errors of the
    /// receiver are part of the result if the receive interrupt is enabled. The
    /// interrupts stay enabled. At the end the overrun of the receiver is cleared.
    ///
    /// The FIFO holds no more than its 16 bytes, and on a half-full interrupt the trigger
    /// level at the least. The buffer has room for 16 bytes.
    pub fn on_interrupt(&mut self, uart: &mut regs::Uart, buf: &mut [u8]) -> (result: InterruptResult)
        requires
            rx_asynch::spec_rx_trigger_met(old(uart)@),
            old(uart).rx_fifo@.len() <= FIFO_DEPTH,
            old(buf)@.len() >= FIFO_DEPTH,
        ensures
            final(self).spec_rx().spec_id() == old(self).spec_rx().spec_id(),
            result.bytes_read == rx_asynch::spec_rx_take_count(old(uart)@),
            result.errors == (if old(uart).regs.irq_enabled.rx() {
                rx_asynch::spec_rx_errors(old(uart).regs.rx_status)
            } else {
                None
            }),
            final(buf)@ == spec_filled(old(buf)@, 0, old(uart).rx_fifo@.subrange(0, result.bytes_read as int)),
            final(uart)@ == (UartView {
                rx_fifo: old(uart).rx_fifo@.subrange(result.bytes_read as int, old(uart).rx_fifo@.len() as int),
                ..old(uart)@
            }).with_irq_clr(spec_rx_irq_clear()),
    {
        let mut result = InterruptResult { bytes_read: 0, errors: None };
        let ghost fifo = uart.rx_fifo@;
        let ghost before = buf@;

        let irq_status = uart.read_irq_status();
        let irq_enabled = uart.read_irq_enabled();
        let rx_enabled = irq_enabled.rx();
        proof {
            assert(fifo.subrange(0, fifo.len() as int) =~= fifo);
            assert(spec_filled(before, 0, fifo.subrange(0, 0)) =~= before);
        }

        // Half-full interrupt: a number of bytes that can be read is guaranteed.
        if irq_status.rx() {
            let available_bytes = uart.read_rx_fifo_trigger().level() as usize;
            read_into(uart, buf, 0, available_bytes);
            result.bytes_read = available_bytes;
        }
        // Timeout: the FIFO is emptied.

        if irq_status.rx_timeout() {
            let rest = uart.rx_fifo.len();
            let ghost taken = result.bytes_read;
            let ghost filled = buf@;
            read_into(uart, buf, result.bytes_read, rest);
            result.bytes_read = result.bytes_read + rest;
            proof {
                assert(fifo.subrange(taken as int, fifo.len() as int).subrange(0, rest as int) =~= fifo.subrange(
                    taken as int,
                    fifo.len() as int,
                ));
                assert(fifo.subrange(taken as int, fifo.len() as int).subrange(rest as int, rest as int) =~= fifo.subrange(
                    fifo.len() as int,
                    fifo.len() as int,
                ));
                assert(buf@ =~= spec_filled(before, 0, fifo.subrange(0, fifo.len() as int)));
            }
        }
        // The transfer is not complete: check for errors of the receiver.

        if rx_enabled {
            self.check_for_errors(uart, &mut result.errors);
        }
        // Clear the interrupt status bits.
        uart.write_irq_clr((InterruptClear { raw: 0 }).with_rx_overrun(true).with_tx_overrun(false));
        result
    }

    /// How many bytes a half-full interrupt moves for a packet: one less than the
    /// trigger level, so that a byte stays in the FIFO for the timeout to fire on, and no
    /// more than the packet has room for.
    pub open spec fn spec_packet_half_full_count(uart: UartView, context: InterruptContextTimeoutOrMaxSize) -> int {
        if uart.regs.irq_status.rx() {
            let level = uart.regs.rx_fifo_trigger.level() as int;
            spec_min(
                if level > 0 {
                    level - 1
                } else {
                    0
                },
                context.max_len - context.rx_idx,
            )
        } else {
            0
        }
    }

    /// How many bytes an interrupt moves for a packet: those of the half-full interrupt
    /// and, on a timeout, what is left in the FIFO, as far as the packet has room.
    pub open spec fn spec_packet_count(uart: UartView, context: InterruptContextTimeoutOrMaxSize) -> int {
        let first = Self::spec_packet_half_full_count(uart, context);
        if uart.regs.irq_status.rx_timeout() {
            first + spec_min(uart.rx_fifo.len() - first, context.max_len - context.rx_idx - first)
        } else {
            first
        }
    }

    /// What a caller moves from the hardware into the receive FIFO of the UART that it
    /// hands to [`RxWithInterrupt::on_interrupt_max_size_or_timeout_based`]: first as many
    /// bytes as the first number says, which the hardware holds, and then, for as long as
    /// the hardware holds one, no more bytes than the second number says.
    pub fn packet_fetch(
        irq_status: regs::InterruptStatus,
        trigger: regs::FifoTrigger,
        context: &InterruptContextTimeoutOrMaxSize,
    ) -> (fetch: (usize, usize))
        requires
            context.rx_idx <= context.max_len,
        ensures
            fetch.0 == (if irq_status.rx() {
                spec_min(
                    if trigger.level() > 0 {
                        trigger.level() - 1
                    } else {
                        0
                    },
                    context.max_len - context.rx_idx,
                )
            } else {
                0
            }),
            fetch.1 == (if irq_status.rx_timeout() {
                context.max_len - context.rx_idx - fetch.0
            } else {
                0
            }),
    {
        let room = context.max_len - context.rx_idx;
        let first = if irq_status.rx() {
            let level = trigger.level() as usize;
            let but_one = if level > 0 {
                level - 1
            } else {
                0
            };
            if but_one < room {
                but_one
            } else {
                room
            }
        } else {
            0
        };
        let then = if irq_status.rx_timeout() {
            room - first
        } else {
            0
        };
        (first, then)
    }

    /// This function should be called in the interrupt handler of the receiver.
    ///
    /// It reads packets that have a maximum size or that end with a pause on the line,
    /// which shows as a timeout of the hardware. The state of the packet is kept in
    /// `context` between the interrupts.
    ///
    /// A buffer that is shorter than the maximum size is refused. On a half-full FIFO
    /// the bytes of the FIFO but one go into the packet. On a timeout the rest of the
    /// FIFO goes into the packet, the packet is complete, the receiver is stopped, and
    /// the context is idle again. Without a timeout, errors of the receiver are part of
    /// the result while the packet has room and the receiver is enabled, and the overrun
    /// of the receiver is cleared.
    ///
    /// The FIFO holds at the least the bytes that a half-full interrupt moves.
    pub fn on_interrupt_max_size_or_timeout_based(
        &mut self,
        uart: &mut regs::Uart,
        context: &mut InterruptContextTimeoutOrMaxSize,
        buf: &mut [u8],
    ) -> (res: Result<InterruptResultMaxSizeOrTimeout, BufferTooShortError>)
        requires
            old(context).rx_idx <= old(context).max_len,
            Self::spec_packet_half_full_count(old(uart)@, *old(context)) <= old(uart).rx_fifo@.len(),
        ensures
            final(self).spec_rx().spec_id() == old(self).spec_rx().spec_id(),
            res.is_ok() == (old(buf)@.len() >= old(context).max_len),
            res matches Err(e) ==> {
                &&& e == (BufferTooShortError { found: old(buf)@.len() as usize, expected: old(context).max_len })
                &&& final(uart)@ == old(uart)@
                &&& *final(context) == *old(context)
                &&& final(buf)@ == old(buf)@
            },
            res matches Ok(result) ==> {
                let count = Self::spec_packet_count(old(uart)@, *old(context));
                let received = old(context).rx_idx + count;
                let drained = UartView {
                    rx_fifo: old(uart).rx_fifo@.subrange(count, old(uart).rx_fifo@.len() as int),
                    ..old(uart)@
                };
                &&& final(buf)@ == spec_filled(
                    old(buf)@,
                    old(context).rx_idx as int,
                    old(uart).rx_fifo@.subrange(0, count),
                )
                &&& final(context).max_len == old(context).max_len
                &&& old(uart).regs.irq_status.rx_timeout() ==> {
                    &&& result == (InterruptResultMaxSizeOrTimeout {
                        complete: true,
                        timeout: false,
                        errors: None,
                        bytes_read: received as usize,
                    })
                    &&& final(context).rx_idx == 0
                    &&& final(context).mode == InterruptReceptionMode::Idle
                    &&& final(uart)@ == drained.with_irq_enabled(
                        spec_rx_interrupts_disabled(drained.regs.irq_enabled),
                    ).with_enable(drained.regs.enable.with_rx(false))
                }
                &&& !old(uart).regs.irq_status.rx_timeout() ==> {
                    &&& result == (InterruptResultMaxSizeOrTimeout {
                        complete: false,
                        timeout: false,
                        errors: if received < old(context).max_len && old(uart).regs.enable.rx() {
                            rx_asynch::spec_rx_errors(old(uart).regs.rx_status)
                        } else {
                            None
                        },
                        bytes_read: 0,
                    })
                    &&& final(context).rx_idx == received
                    &&& final(context).mode == old(context).mode
                    &&& final(uart)@ == drained.with_irq_clr(spec_rx_irq_clear())
                }
            },
    {
        if buf.len() < context.max_len {
            return Err(BufferTooShortError { found: buf.len(), expected: context.max_len });
        }
        let mut result = InterruptResultMaxSizeOrTimeout::new();
        let ghost fifo = uart.rx_fifo@;
        let ghost before = buf@;
        let ghost start = context.rx_idx;
        proof {
            assert(fifo.subrange(0, fifo.len() as int) =~= fifo);
            assert(spec_filled(before, start as int, fifo.subrange(0, 0)) =~= before);
        }

        let irq_status = uart.read_irq_status();
        let rx_enabled = uart.read_enable().rx();

        // Half-full interrupt: a number of bytes that can be read is guaranteed.
        if irq_status.rx() {
            // One byte is left in the FIFO, because the timeout of the peripheral relies
            // on data in the FIFO. If data continues to arrive, another half-full
            // interrupt fires. If not, the timeout interrupt empties the FIFO.
            let available_bytes = uart.read_rx_fifo_trigger().level() as usize;
            let but_one = if available_bytes > 0 {
                available_bytes - 1
            } else {
                0
            };
            let room = context.max_len - context.rx_idx;
            let bytes_to_read = if but_one < room {
                but_one
            } else {
                room
            };
            read_into(uart, buf, context.rx_idx, bytes_to_read);
            context.rx_idx = context.rx_idx + bytes_to_read;
        }
        // Timeout: the FIFO is emptied.

        if irq_status.rx_timeout() {
            let ghost first = context.rx_idx - start;
            let left = uart.rx_fifo.len();
            let room = context.max_len - context.rx_idx;
            let rest = if left < room {
                left
            } else {
                room
            };
            // While there is data in the FIFO and room in the packet, the data goes into
            // the packet.
            read_into(uart, buf, context.rx_idx, rest);
            context.rx_idx = context.rx_idx + rest;
            proof {
                let mid = fifo.subrange(first, fifo.len() as int);
                assert(mid.subrange(0, rest as int) =~= fifo.subrange(first, first + rest));
                assert(mid.subrange(rest as int, mid.len() as int) =~= fifo.subrange(
                    first + rest,
                    fifo.len() as int,
                ));
                assert(buf@ =~= spec_filled(before, start as int, fifo.subrange(0, first + rest)));
            }
            self.irq_completion_handler_max_size_timeout(uart, &mut result, context);
            return Ok(result);
        }
        // The transfer is not complete: check for errors of the receiver.

        if (context.rx_idx < context.max_len) && rx_enabled {
            self.check_for_errors(uart, &mut result.errors);
        }
        // Clear the interrupt status bits.
        uart.write_irq_clr((InterruptClear { raw: 0 }).with_rx_overrun(true).with_tx_overrun(false));
        Ok(result)
    }

    fn irq_completion_handler_max_size_timeout(
        &mut self,
        uart: &mut regs::Uart,
        res: &mut InterruptResultMaxSizeOrTimeout,
        context: &mut InterruptContextTimeoutOrMaxSize,
    )
        ensures
            final(self).spec_rx().spec_id() == old(self).spec_rx().spec_id(),
            final(uart)@ == old(uart)@.with_irq_enabled(
                spec_rx_interrupts_disabled(old(uart).regs.irq_enabled),
            ).with_enable(old(uart).regs.enable.with_rx(false)),
            *final(res) == (InterruptResultMaxSizeOrTimeout {
                bytes_read: old(context).rx_idx,
                complete: true,
                ..*old(res)
            }),
            *final(context) == (InterruptContextTimeoutOrMaxSize {
                mode: InterruptReceptionMode::Idle,
                rx_idx: 0,
                ..*old(context)
            }),
    {
        self.0.disable_interrupts(uart);
        self.0.disable(uart);
        res.bytes_read = context.rx_idx;
        res.complete = true;
        context.mode = InterruptReceptionMode::Idle;
        context.rx_idx = 0;
    }

    /// Adds the errors that the status of the receiver shows to `errors`.
    fn check_for_errors(&self, uart: &regs::Uart, errors: &mut Option<UartErrors>)
        ensures
            *final(errors) == spec_errors_added(*old(errors), uart.regs.rx_status),
    {
        proof {
            uart.regs.rx_status.lemma_with_data_available(uart.rx_fifo@.len() > 0);
        }
        let rx_status = uart.read_rx_status();

        if rx_status.overrun_error() || rx_status.framing_error() || rx_status.parity_error() {
            let mut err = match *errors {
                Some(e) => e,
                None => UartErrors::default(),
            };
            if rx_status.overrun_error() {
                err.overflow = true;
            }
            if rx_status.framing_error() {
                err.framing = true;
            }
            if rx_status.parity_error() {
                err.parity = true;
            }
            *errors = Some(err);
        }
    }

    /// Gives the receiver back, with its interrupts off.
    pub fn release(self, uart: &mut regs::Uart) -> (rx: Rx)
        ensures
            rx.spec_id() == self.spec_rx().spec_id(),
            final(uart)@ == old(uart)@.with_irq_enabled(
                spec_rx_interrupts_disabled(old(uart).regs.irq_enabled),
            ),
    {
        let mut rx = self.0;
        rx.disable_interrupts(uart);
        rx
    }
}

/// The errors `errors` with those that the status `status` of the receiver shows.
pub open spec fn spec_errors_added(errors: Option<UartErrors>, status: regs::RxStatus) -> Option<UartErrors> {
    if status.overrun_error() || status.framing_error() || status.parity_error() {
        let seen = match errors {
            Some(e) => e,
            None => UartErrors::spec_none(),
        };
        Some(
            UartErrors {
                overflow: seen.overflow || status.overrun_error(),
                framing: seen.framing || status.framing_error(),
                parity: seen.parity || status.parity_error(),
                other: seen.other,
            },
        )
    } else {
        errors
    }
}

/// The value that is written to the interrupt clear register at the end of a receive
/// interrupt: it clears the overrun of the receiver.
pub open spec fn spec_rx_irq_clear() -> InterruptClear {
    InterruptClear { raw: 0 }.with_rx_overrun(true).with_tx_overrun(false)
}

} // verus!
