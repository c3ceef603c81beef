//! The pins of the UARTs, each with the function that connects it to its UART.
use super::{Bank, RxPin, TxPin};
use crate::ioconfig::FunctionSelect;
use crate::pins::{
    Pa2, Pa3, Pb14, Pb15, Pc4, Pc5, Pc14, Pc15, Pd11, Pd12, Pe2, Pe3, Pf8, Pf9, Pf12, Pf13, Pg0,
    Pg1, Pin,
};
use vstd::prelude::*;

verus! {

impl TxPin for Pin<Pa2> {
    open spec fn spec_bank() -> Bank {
        Bank::Uart0
    }

    open spec fn spec_fun_sel() -> FunctionSelect {
        FunctionSelect::Sel3
    }

    fn bank() -> (bank: Bank) {
        Bank::Uart0
    }

    fn fun_sel() -> (fun_sel: FunctionSelect) {
        FunctionSelect::Sel3
    }
}

impl RxPin for Pin<Pa3> {
    open spec fn spec_bank() -> Bank {
        Bank::Uart0
    }

    open spec fn spec_fun_sel() -> FunctionSelect {
        FunctionSelect::Sel3
    }

    fn bank() -> (bank: Bank) {
        Bank::Uart0
    }

    fn fun_sel() -> (fun_sel: FunctionSelect) {
        FunctionSelect::Sel3
    }
}

impl TxPin for Pin<Pc4> {
    open spec fn spec_bank() -> Bank {
        Bank::Uart0
    }

    open spec fn spec_fun_sel() -> FunctionSelect {
        FunctionSelect::Sel2
    }

    fn bank() -> (bank: Bank) {
        Bank::Uart0
    }

    fn fun_sel() -> (fun_sel: FunctionSelect) {
        FunctionSelect::Sel2
    }
}

impl RxPin for Pin<Pc5> {
    open spec fn spec_bank() -> Bank {
        Bank::Uart0
    }

    open spec fn spec_fun_sel() -> FunctionSelect {
        FunctionSelect::Sel2
    }

    fn bank() -> (bank: Bank) {
        Bank::Uart0
    }

    fn fun_sel() -> (fun_sel: FunctionSelect) {
        FunctionSelect::Sel2
    }
}

impl TxPin for Pin<Pe2> {
    open spec fn spec_bank() -> Bank {
        Bank::Uart0
    }

    open spec fn spec_fun_sel() -> FunctionSelect {
        FunctionSelect::Sel3
    }

    fn bank() -> (bank: Bank) {
        Bank::Uart0
    }

    fn fun_sel() -> (fun_sel: FunctionSelect) {
        FunctionSelect::Sel3
    }
}

impl RxPin for Pin<Pe3> {
    open spec fn spec_bank() -> Bank {
        Bank::Uart0
    }

    open spec fn spec_fun_sel() -> FunctionSelect {
        FunctionSelect::Sel3
    }

    fn bank() -> (bank: Bank) {
        Bank::Uart0
    }

    fn fun_sel() -> (fun_sel: FunctionSelect) {
        FunctionSelect::Sel3
    }
}

impl TxPin for Pin<Pg0> {
    open spec fn spec_bank() -> Bank {
        Bank::Uart0
    }

    open spec fn spec_fun_sel() -> FunctionSelect {
        FunctionSelect::Sel1
    }

    fn bank() -> (bank: Bank) {
        Bank::Uart0
    }

    fn fun_sel() -> (fun_sel: FunctionSelect) {
        FunctionSelect::Sel1
    }
}

impl RxPin for Pin<Pg1> {
    open spec fn spec_bank() -> Bank {
        Bank::Uart0
    }

    open spec fn spec_fun_sel() -> FunctionSelect {
        FunctionSelect::Sel1
    }

    fn bank() -> (bank: Bank) {
        Bank::Uart0
    }

    fn fun_sel() -> (fun_sel: FunctionSelect) {
        FunctionSelect::Sel1
    }
}

impl TxPin for Pin<Pb14> {
    open spec fn spec_bank() -> Bank {
        Bank::Uart1
    }

    open spec fn spec_fun_sel() -> FunctionSelect {
        FunctionSelect::Sel3
    }

    fn bank() -> (bank: Bank) {
        Bank::Uart1
    }

    fn fun_sel() -> (fun_sel: FunctionSelect) {
        FunctionSelect::Sel3
    }
}

impl RxPin for Pin<Pb15> {
    open spec fn spec_bank() -> Bank {
        Bank::Uart1
    }

    open spec fn spec_fun_sel() -> FunctionSelect {
        FunctionSelect::Sel3
    }

    fn bank() -> (bank: Bank) {
        Bank::Uart1
    }

    fn fun_sel() -> (fun_sel: FunctionSelect) {
        FunctionSelect::Sel3
    }
}

impl TxPin for Pin<Pd11> {
    open spec fn spec_bank() -> Bank {
        Bank::Uart1
    }

    open spec fn spec_fun_sel() -> FunctionSelect {
        FunctionSelect::Sel3
    }

    fn bank() -> (bank: Bank) {
        Bank::Uart1
    }

    fn fun_sel() -> (fun_sel: FunctionSelect) {
        FunctionSelect::Sel3
    }
}

impl RxPin for Pin<Pd12> {
    open spec fn spec_bank() -> Bank {
        Bank::Uart1
    }

    open spec fn spec_fun_sel() -> FunctionSelect {
        FunctionSelect::Sel3
    }

    fn bank() -> (bank: Bank) {
        Bank::Uart1
    }

    fn fun_sel() -> (fun_sel: FunctionSelect) {
        FunctionSelect::Sel3
    }
}

impl TxPin for Pin<Pf12> {
    open spec fn spec_bank() -> Bank {
        Bank::Uart1
    }

    open spec fn spec_fun_sel() -> FunctionSelect {
        FunctionSelect::Sel1
    }

    fn bank() -> (bank: Bank) {
        Bank::Uart1
    }

    fn fun_sel() -> (fun_sel: FunctionSelect) {
        FunctionSelect::Sel1
    }
}

impl RxPin for Pin<Pf13> {
    open spec fn spec_bank() -> Bank {
        Bank::Uart1
    }

    open spec fn spec_fun_sel() -> FunctionSelect {
        FunctionSelect::Sel1
    }

    fn bank() -> (bank: Bank) {
        Bank::Uart1
    }

    fn fun_sel() -> (fun_sel: FunctionSelect) {
        FunctionSelect::Sel1
    }
}

impl TxPin for Pin<Pc14> {
    open spec fn spec_bank() -> Bank {
        Bank::Uart2
    }

    open spec fn spec_fun_sel() -> FunctionSelect {
        FunctionSelect::Sel2
    }

    fn bank() -> (bank: Bank) {
        Bank::Uart2
    }

    fn fun_sel() -> (fun_sel: FunctionSelect) {
        FunctionSelect::Sel2
    }
}

impl RxPin for Pin<Pc15> {
    open spec fn spec_bank() -> Bank {
        Bank::Uart2
    }

    open spec fn spec_fun_sel() -> FunctionSelect {
        FunctionSelect::Sel2
    }

    fn bank() -> (bank: Bank) {
        Bank::Uart2
    }

    fn fun_sel() -> (fun_sel: FunctionSelect) {
        FunctionSelect::Sel2
    }
}

impl TxPin for Pin<Pf8> {
    open spec fn spec_bank() -> Bank {
        Bank::Uart2
    }

    open spec fn spec_fun_sel() -> FunctionSelect {
        FunctionSelect::Sel1
    }

    fn bank() -> (bank: Bank) {
        Bank::Uart2
    }

    fn fun_sel() -> (fun_sel: FunctionSelect) {
        FunctionSelect::Sel1
    }
}

impl RxPin for Pin<Pf9> {
    open spec fn spec_bank() -> Bank {
        Bank::Uart2
    }

    open spec fn spec_fun_sel() -> FunctionSelect {
        FunctionSelect::Sel1
    }

    fn bank() -> (bank: Bank) {
        Bank::Uart2
    }

    fn fun_sel() -> (fun_sel: FunctionSelect) {
        FunctionSelect::Sel1
    }
}

} // verus!
