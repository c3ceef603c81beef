//! The pins that carry the output of a timer, each with the function that connects it to
//! its timer.
use super::regs::TimId;
use super::TimPin;
use crate::gpio::ll::DynPinId;
use crate::ioconfig::FunctionSelect;
use crate::pins::{

    Pa0, Pa1, Pa2, Pa3, Pa4, Pa5, Pa6, Pa7, Pa8, Pa10, Pa11, Pa12, Pa13, Pa14, Pa15, Pb0, Pb1, Pb2,
    Pb3, Pb4, Pb5, Pb6, Pb7, Pb8, Pb9, Pb10, Pb11, Pb12, Pb13, Pb14, Pb15, Pc0, Pc1, Pd0, Pd1, Pd2,
    Pd3, Pd4, Pd5, Pd6, Pd7, Pd8, Pd9, Pd10, Pd11, Pd12, Pd13, Pd14, Pd15, Pe0, Pe1, Pe2, Pe3, Pe4,
    Pe5, Pe6, Pe7, Pe8, Pe9, Pe10, Pe11, Pe12, Pe13, Pe14, Pe15, Pf0, Pf1, Pf2, Pf3, Pf4, Pf5, Pf6,
    Pf7, Pf8, Pf9, Pf10, Pf11, Pf12, Pf13, Pf14, Pf15, Pg0, Pg1, Pg2, Pg3, Pg6, Pin, PinId,
};
use vstd::prelude::*;

verus! {

impl TimPin for Pin<Pa0> {
    open spec fn spec_pin_id() -> DynPinId {
        Pa0::spec_id()
    }

    open spec fn spec_fun_sel() -> FunctionSelect {
        FunctionSelect::Sel1
    }

    open spec fn spec_tim_id() -> TimId {
        TimId::spec_new(0)
    }

    fn pin_id() -> (id: DynPinId) {
        Pa0::id()
    }

    fn fun_sel() -> (fun_sel: FunctionSelect) {
        FunctionSelect::Sel1
    }

    fn tim_id() -> (id: TimId) {
        TimId::new_unchecked(0)
    }
}

impl TimPin for Pin<Pa1> {
    open spec fn spec_pin_id() -> DynPinId {
        Pa1::spec_id()
    }

    open spec fn spec_fun_sel() -> FunctionSelect {
        FunctionSelect::Sel1
    }

    open spec fn spec_tim_id() -> TimId {
        TimId::spec_new(1)
    }

    fn pin_id() -> (id: DynPinId) {
        Pa1::id()
    }

    fn fun_sel() -> (fun_sel: FunctionSelect) {
        FunctionSelect::Sel1
    }

    fn tim_id() -> (id: TimId) {
        TimId::new_unchecked(1)
    }
}

impl TimPin for Pin<Pa2> {
    open spec fn spec_pin_id() -> DynPinId {
        Pa2::spec_id()
    }

    open spec fn spec_fun_sel() -> FunctionSelect {
        FunctionSelect::Sel1
    }

    open spec fn spec_tim_id() -> TimId {
        TimId::spec_new(2)
    }

    fn pin_id() -> (id: DynPinId) {
        Pa2::id()
    }

    fn fun_sel() -> (fun_sel: FunctionSelect) {
        FunctionSelect::Sel1
    }

    fn tim_id() -> (id: TimId) {
        TimId::new_unchecked(2)
    }
}

impl TimPin for Pin<Pa3> {
    open spec fn spec_pin_id() -> DynPinId {
        Pa3::spec_id()
    }

    open spec fn spec_fun_sel() -> FunctionSelect {
        FunctionSelect::Sel1
    }

    open spec fn spec_tim_id() -> TimId {
        TimId::spec_new(3)
    }

    fn pin_id() -> (id: DynPinId) {
        Pa3::id()
    }

    fn fun_sel() -> (fun_sel: FunctionSelect) {
        FunctionSelect::Sel1
    }

    fn tim_id() -> (id: TimId) {
        TimId::new_unchecked(3)
    }
}

impl TimPin for Pin<Pa4> {
    open spec fn spec_pin_id() -> DynPinId {
        Pa4::spec_id()
    }

    open spec fn spec_fun_sel() -> FunctionSelect {
        FunctionSelect::Sel1
    }

    open spec fn spec_tim_id() -> TimId {
        TimId::spec_new(4)
    }

    fn pin_id() -> (id: DynPinId) {
        Pa4::id()
    }

    fn fun_sel() -> (fun_sel: FunctionSelect) {
        FunctionSelect::Sel1
    }

    fn tim_id() -> (id: TimId) {
        TimId::new_unchecked(4)
    }
}

impl TimPin for Pin<Pa5> {
    open spec fn spec_pin_id() -> DynPinId {
        Pa5::spec_id()
    }

    open spec fn spec_fun_sel() -> FunctionSelect {
        FunctionSelect::Sel1
    }

    open spec fn spec_tim_id() -> TimId {
        TimId::spec_new(5)
    }

    fn pin_id() -> (id: DynPinId) {
        Pa5::id()
    }

    fn fun_sel() -> (fun_sel: FunctionSelect) {
        FunctionSelect::Sel1
    }

    fn tim_id() -> (id: TimId) {
        TimId::new_unchecked(5)
    }
}

impl TimPin for Pin<Pa6> {
    open spec fn spec_pin_id() -> DynPinId {
        Pa6::spec_id()
    }

    open spec fn spec_fun_sel() -> FunctionSelect {
        FunctionSelect::Sel1
    }

    open spec fn spec_tim_id() -> TimId {
        TimId::spec_new(6)
    }

    fn pin_id() -> (id: DynPinId) {
        Pa6::id()
    }

    fn fun_sel() -> (fun_sel: FunctionSelect) {
        FunctionSelect::Sel1
    }

    fn tim_id() -> (id: TimId) {
        TimId::new_unchecked(6)
    }
}

impl TimPin for Pin<Pa7> {
    open spec fn spec_pin_id() -> DynPinId {
        Pa7::spec_id()
    }

    open spec fn spec_fun_sel() -> FunctionSelect {
        FunctionSelect::Sel1
    }

    open spec fn spec_tim_id() -> TimId {
        TimId::spec_new(7)
    }

    fn pin_id() -> (id: DynPinId) {
        Pa7::id()
    }

    fn fun_sel() -> (fun_sel: FunctionSelect) {
        FunctionSelect::Sel1
    }

    fn tim_id() -> (id: TimId) {
        TimId::new_unchecked(7)
    }
}

impl TimPin for Pin<Pa8> {
    open spec fn spec_pin_id() -> DynPinId {
        Pa8::spec_id()
    }

    open spec fn spec_fun_sel() -> FunctionSelect {
        FunctionSelect::Sel3
    }

    open spec fn spec_tim_id() -> TimId {
        TimId::spec_new(8)
    }

    fn pin_id() -> (id: DynPinId) {
        Pa8::id()
    }

    fn fun_sel() -> (fun_sel: FunctionSelect) {
        FunctionSelect::Sel3
    }

    fn tim_id() -> (id: TimId) {
        TimId::new_unchecked(8)
    }
}

impl TimPin for Pin<Pa10> {
    open spec fn spec_pin_id() -> DynPinId {
        Pa10::spec_id()
    }

    open spec fn spec_fun_sel() -> FunctionSelect {
        FunctionSelect::Sel2
    }

    open spec fn spec_tim_id() -> TimId {
        TimId::spec_new(23)
    }

    fn pin_id() -> (id: DynPinId) {
        Pa10::id()
    }

    fn fun_sel() -> (fun_sel: FunctionSelect) {
        FunctionSelect::Sel2
    }

    fn tim_id() -> (id: TimId) {
        TimId::new_unchecked(23)
    }
}

impl TimPin for Pin<Pa11> {
    open spec fn spec_pin_id() -> DynPinId {
        Pa11::spec_id()
    }

    open spec fn spec_fun_sel() -> FunctionSelect {
        FunctionSelect::Sel2
    }

    open spec fn spec_tim_id() -> TimId {
        TimId::spec_new(22)
    }

    fn pin_id() -> (id: DynPinId) {
        Pa11::id()
    }

    fn fun_sel() -> (fun_sel: FunctionSelect) {
        FunctionSelect::Sel2
    }

    fn tim_id() -> (id: TimId) {
        TimId::new_unchecked(22)
    }
}

impl TimPin for Pin<Pa12> {
    open spec fn spec_pin_id() -> DynPinId {
        Pa12::spec_id()
    }

    open spec fn spec_fun_sel() -> FunctionSelect {
        FunctionSelect::Sel2
    }

    open spec fn spec_tim_id() -> TimId {
        TimId::spec_new(21)
    }

    fn pin_id() -> (id: DynPinId) {
        Pa12::id()
    }

    fn fun_sel() -> (fun_sel: FunctionSelect) {
        FunctionSelect::Sel2
    }

    fn tim_id() -> (id: TimId) {
        TimId::new_unchecked(21)
    }
}

impl TimPin for Pin<Pa13> {
    open spec fn spec_pin_id() -> DynPinId {
        Pa13::spec_id()
    }

    open spec fn spec_fun_sel() -> FunctionSelect {
        FunctionSelect::Sel2
    }

    open spec fn spec_tim_id() -> TimId {
        TimId::spec_new(20)
    }

    fn pin_id() -> (id: DynPinId) {
        Pa13::id()
    }

    fn fun_sel() -> (fun_sel: FunctionSelect) {
        FunctionSelect::Sel2
    }

    fn tim_id() -> (id: TimId) {
        TimId::new_unchecked(20)
    }
}

impl TimPin for Pin<Pa14> {
    open spec fn spec_pin_id() -> DynPinId {
        Pa14::spec_id()
    }

    open spec fn spec_fun_sel() -> FunctionSelect {
        FunctionSelect::Sel2
    }

    open spec fn spec_tim_id() -> TimId {
        TimId::spec_new(19)
    }

    fn pin_id() -> (id: DynPinId) {
        Pa14::id()
    }

    fn fun_sel() -> (fun_sel: FunctionSelect) {
        FunctionSelect::Sel2
    }

    fn tim_id() -> (id: TimId) {
        TimId::new_unchecked(19)
    }
}

impl TimPin for Pin<Pa15> {
    open spec fn spec_pin_id() -> DynPinId {
        Pa15::spec_id()
    }

    open spec fn spec_fun_sel() -> FunctionSelect {
        FunctionSelect::Sel2
    }

    open spec fn spec_tim_id() -> TimId {
        TimId::spec_new(18)
    }

    fn pin_id() -> (id: DynPinId) {
        Pa15::id()
    }

    fn fun_sel() -> (fun_sel: FunctionSelect) {
        FunctionSelect::Sel2
    }

    fn tim_id() -> (id: TimId) {
        TimId::new_unchecked(18)
    }
}

impl TimPin for Pin<Pb0> {
    open spec fn spec_pin_id() -> DynPinId {
        Pb0::spec_id()
    }

    open spec fn spec_fun_sel() -> FunctionSelect {
        FunctionSelect::Sel2
    }

    open spec fn spec_tim_id() -> TimId {
        TimId::spec_new(17)
    }

    fn pin_id() -> (id: DynPinId) {
        Pb0::id()
    }

    fn fun_sel() -> (fun_sel: FunctionSelect) {
        FunctionSelect::Sel2
    }

    fn tim_id() -> (id: TimId) {
        TimId::new_unchecked(17)
    }
}

impl TimPin for Pin<Pb1> {
    open spec fn spec_pin_id() -> DynPinId {
        Pb1::spec_id()
    }

    open spec fn spec_fun_sel() -> FunctionSelect {
        FunctionSelect::Sel2
    }

    open spec fn spec_tim_id() -> TimId {
        TimId::spec_new(16)
    }

    fn pin_id() -> (id: DynPinId) {
        Pb1::id()
    }

    fn fun_sel() -> (fun_sel: FunctionSelect) {
        FunctionSelect::Sel2
    }

    fn tim_id() -> (id: TimId) {
        TimId::new_unchecked(16)
    }
}

impl TimPin for Pin<Pb2> {
    open spec fn spec_pin_id() -> DynPinId {
        Pb2::spec_id()
    }

    open spec fn spec_fun_sel() -> FunctionSelect {
        FunctionSelect::Sel2
    }

    open spec fn spec_tim_id() -> TimId {
        TimId::spec_new(15)
    }

    fn pin_id() -> (id: DynPinId) {
        Pb2::id()
    }

    fn fun_sel() -> (fun_sel: FunctionSelect) {
        FunctionSelect::Sel2
    }

    fn tim_id() -> (id: TimId) {
        TimId::new_unchecked(15)
    }
}

impl TimPin for Pin<Pb3> {
    open spec fn spec_pin_id() -> DynPinId {
        Pb3::spec_id()
    }

    open spec fn spec_fun_sel() -> FunctionSelect {
        FunctionSelect::Sel2
    }

    open spec fn spec_tim_id() -> TimId {
        TimId::spec_new(14)
    }

    fn pin_id() -> (id: DynPinId) {
        Pb3::id()
    }

    fn fun_sel() -> (fun_sel: FunctionSelect) {
        FunctionSelect::Sel2
    }

    fn tim_id() -> (id: TimId) {
        TimId::new_unchecked(14)
    }
}

impl TimPin for Pin<Pb4> {
    open spec fn spec_pin_id() -> DynPinId {
        Pb4::spec_id()
    }

    open spec fn spec_fun_sel() -> FunctionSelect {
        FunctionSelect::Sel2
    }

    open spec fn spec_tim_id() -> TimId {
        TimId::spec_new(13)
    }

    fn pin_id() -> (id: DynPinId) {
        Pb4::id()
    }

    fn fun_sel() -> (fun_sel: FunctionSelect) {
        FunctionSelect::Sel2
    }

    fn tim_id() -> (id: TimId) {
        TimId::new_unchecked(13)
    }
}

impl TimPin for Pin<Pb5> {
    open spec fn spec_pin_id() -> DynPinId {
        Pb5::spec_id()
    }

    open spec fn spec_fun_sel() -> FunctionSelect {
        FunctionSelect::Sel2
    }

    open spec fn spec_tim_id() -> TimId {
        TimId::spec_new(12)
    }

    fn pin_id() -> (id: DynPinId) {
        Pb5::id()
    }

    fn fun_sel() -> (fun_sel: FunctionSelect) {
        FunctionSelect::Sel2
    }

    fn tim_id() -> (id: TimId) {
        TimId::new_unchecked(12)
    }
}

impl TimPin for Pin<Pb6> {
    open spec fn spec_pin_id() -> DynPinId {
        Pb6::spec_id()
    }

    open spec fn spec_fun_sel() -> FunctionSelect {
        FunctionSelect::Sel2
    }

    open spec fn spec_tim_id() -> TimId {
        TimId::spec_new(11)
    }

    fn pin_id() -> (id: DynPinId) {
        Pb6::id()
    }

    fn fun_sel() -> (fun_sel: FunctionSelect) {
        FunctionSelect::Sel2
    }

    fn tim_id() -> (id: TimId) {
        TimId::new_unchecked(11)
    }
}

impl TimPin for Pin<Pb7> {
    open spec fn spec_pin_id() -> DynPinId {
        Pb7::spec_id()
    }

    open spec fn spec_fun_sel() -> FunctionSelect {
        FunctionSelect::Sel2
    }

    open spec fn spec_tim_id() -> TimId {
        TimId::spec_new(10)
    }

    fn pin_id() -> (id: DynPinId) {
        Pb7::id()
    }

    fn fun_sel() -> (fun_sel: FunctionSelect) {
        FunctionSelect::Sel2
    }

    fn tim_id() -> (id: TimId) {
        TimId::new_unchecked(10)
    }
}

impl TimPin for Pin<Pb8> {
    open spec fn spec_pin_id() -> DynPinId {
        Pb8::spec_id()
    }

    open spec fn spec_fun_sel() -> FunctionSelect {
        FunctionSelect::Sel2
    }

    open spec fn spec_tim_id() -> TimId {
        TimId::spec_new(9)
    }

    fn pin_id() -> (id: DynPinId) {
        Pb8::id()
    }

    fn fun_sel() -> (fun_sel: FunctionSelect) {
        FunctionSelect::Sel2
    }

    fn tim_id() -> (id: TimId) {
        TimId::new_unchecked(9)
    }
}

impl TimPin for Pin<Pb9> {
    open spec fn spec_pin_id() -> DynPinId {
        Pb9::spec_id()
    }

    open spec fn spec_fun_sel() -> FunctionSelect {
        FunctionSelect::Sel2
    }

    open spec fn spec_tim_id() -> TimId {
        TimId::spec_new(8)
    }

    fn pin_id() -> (id: DynPinId) {
        Pb9::id()
    }

    fn fun_sel() -> (fun_sel: FunctionSelect) {
        FunctionSelect::Sel2
    }

    fn tim_id() -> (id: TimId) {
        TimId::new_unchecked(8)
    }
}

impl TimPin for Pin<Pb10> {
    open spec fn spec_pin_id() -> DynPinId {
        Pb10::spec_id()
    }

    open spec fn spec_fun_sel() -> FunctionSelect {
        FunctionSelect::Sel2
    }

    open spec fn spec_tim_id() -> TimId {
        TimId::spec_new(7)
    }

    fn pin_id() -> (id: DynPinId) {
        Pb10::id()
    }

    fn fun_sel() -> (fun_sel: FunctionSelect) {
        FunctionSelect::Sel2
    }

    fn tim_id() -> (id: TimId) {
        TimId::new_unchecked(7)
    }
}

impl TimPin for Pin<Pb11> {
    open spec fn spec_pin_id() -> DynPinId {
        Pb11::spec_id()
    }

    open spec fn spec_fun_sel() -> FunctionSelect {
        FunctionSelect::Sel2
    }

    open spec fn spec_tim_id() -> TimId {
        TimId::spec_new(6)
    }

    fn pin_id() -> (id: DynPinId) {
        Pb11::id()
    }

    fn fun_sel() -> (fun_sel: FunctionSelect) {
        FunctionSelect::Sel2
    }

    fn tim_id() -> (id: TimId) {
        TimId::new_unchecked(6)
    }
}

impl TimPin for Pin<Pb12> {
    open spec fn spec_pin_id() -> DynPinId {
        Pb12::spec_id()
    }

    open spec fn spec_fun_sel() -> FunctionSelect {
        FunctionSelect::Sel2
    }

    open spec fn spec_tim_id() -> TimId {
        TimId::spec_new(5)
    }

    fn pin_id() -> (id: DynPinId) {
        Pb12::id()
    }

    fn fun_sel() -> (fun_sel: FunctionSelect) {
        FunctionSelect::Sel2
    }

    fn tim_id() -> (id: TimId) {
        TimId::new_unchecked(5)
    }
}

impl TimPin for Pin<Pb13> {
    open spec fn spec_pin_id() -> DynPinId {
        Pb13::spec_id()
    }

    open spec fn spec_fun_sel() -> FunctionSelect {
        FunctionSelect::Sel2
    }

    open spec fn spec_tim_id() -> TimId {
        TimId::spec_new(4)
    }

    fn pin_id() -> (id: DynPinId) {
        Pb13::id()
    }

    fn fun_sel() -> (fun_sel: FunctionSelect) {
        FunctionSelect::Sel2
    }

    fn tim_id() -> (id: TimId) {
        TimId::new_unchecked(4)
    }
}

impl TimPin for Pin<Pb14> {
    open spec fn spec_pin_id() -> DynPinId {
        Pb14::spec_id()
    }

    open spec fn spec_fun_sel() -> FunctionSelect {
        FunctionSelect::Sel2
    }

    open spec fn spec_tim_id() -> TimId {
        TimId::spec_new(3)
    }

    fn pin_id() -> (id: DynPinId) {
        Pb14::id()
    }

    fn fun_sel() -> (fun_sel: FunctionSelect) {
        FunctionSelect::Sel2
    }

    fn tim_id() -> (id: TimId) {
        TimId::new_unchecked(3)
    }
}

impl TimPin for Pin<Pb15> {
    open spec fn spec_pin_id() -> DynPinId {
        Pb15::spec_id()
    }

    open spec fn spec_fun_sel() -> FunctionSelect {
        FunctionSelect::Sel2
    }

    open spec fn spec_tim_id() -> TimId {
        TimId::spec_new(2)
    }

    fn pin_id() -> (id: DynPinId) {
        Pb15::id()
    }

    fn fun_sel() -> (fun_sel: FunctionSelect) {
        FunctionSelect::Sel2
    }

    fn tim_id() -> (id: TimId) {
        TimId::new_unchecked(2)
    }
}

impl TimPin for Pin<Pc0> {
    open spec fn spec_pin_id() -> DynPinId {
        Pc0::spec_id()
    }

    open spec fn spec_fun_sel() -> FunctionSelect {
        FunctionSelect::Sel2
    }

    open spec fn spec_tim_id() -> TimId {
        TimId::spec_new(1)
    }

    fn pin_id() -> (id: DynPinId) {
        Pc0::id()
    }

    fn fun_sel() -> (fun_sel: FunctionSelect) {
        FunctionSelect::Sel2
    }

    fn tim_id() -> (id: TimId) {
        TimId::new_unchecked(1)
    }
}

impl TimPin for Pin<Pc1> {
    open spec fn spec_pin_id() -> DynPinId {
        Pc1::spec_id()
    }

    open spec fn spec_fun_sel() -> FunctionSelect {
        FunctionSelect::Sel2
    }

    open spec fn spec_tim_id() -> TimId {
        TimId::spec_new(0)
    }

    fn pin_id() -> (id: DynPinId) {
        Pc1::id()
    }

    fn fun_sel() -> (fun_sel: FunctionSelect) {
        FunctionSelect::Sel2
    }

    fn tim_id() -> (id: TimId) {
        TimId::new_unchecked(0)
    }
}

impl TimPin for Pin<Pd0> {
    open spec fn spec_pin_id() -> DynPinId {
        Pd0::spec_id()
    }

    open spec fn spec_fun_sel() -> FunctionSelect {
        FunctionSelect::Sel2
    }

    open spec fn spec_tim_id() -> TimId {
        TimId::spec_new(0)
    }

    fn pin_id() -> (id: DynPinId) {
        Pd0::id()
    }

    fn fun_sel() -> (fun_sel: FunctionSelect) {
        FunctionSelect::Sel2
    }

    fn tim_id() -> (id: TimId) {
        TimId::new_unchecked(0)
    }
}

impl TimPin for Pin<Pd1> {
    open spec fn spec_pin_id() -> DynPinId {
        Pd1::spec_id()
    }

    open spec fn spec_fun_sel() -> FunctionSelect {
        FunctionSelect::Sel2
    }

    open spec fn spec_tim_id() -> TimId {
        TimId::spec_new(1)
    }

    fn pin_id() -> (id: DynPinId) {
        Pd1::id()
    }

    fn fun_sel() -> (fun_sel: FunctionSelect) {
        FunctionSelect::Sel2
    }

    fn tim_id() -> (id: TimId) {
        TimId::new_unchecked(1)
    }
}

impl TimPin for Pin<Pd2> {
    open spec fn spec_pin_id() -> DynPinId {
        Pd2::spec_id()
    }

    open spec fn spec_fun_sel() -> FunctionSelect {
        FunctionSelect::Sel2
    }

    open spec fn spec_tim_id() -> TimId {
        TimId::spec_new(2)
    }

    fn pin_id() -> (id: DynPinId) {
        Pd2::id()
    }

    fn fun_sel() -> (fun_sel: FunctionSelect) {
        FunctionSelect::Sel2
    }

    fn tim_id() -> (id: TimId) {
        TimId::new_unchecked(2)
    }
}

impl TimPin for Pin<Pd3> {
    open spec fn spec_pin_id() -> DynPinId {
        Pd3::spec_id()
    }

    open spec fn spec_fun_sel() -> FunctionSelect {
        FunctionSelect::Sel2
    }

    open spec fn spec_tim_id() -> TimId {
        TimId::spec_new(3)
    }

    fn pin_id() -> (id: DynPinId) {
        Pd3::id()
    }

    fn fun_sel() -> (fun_sel: FunctionSelect) {
        FunctionSelect::Sel2
    }

    fn tim_id() -> (id: TimId) {
        TimId::new_unchecked(3)
    }
}

impl TimPin for Pin<Pd4> {
    open spec fn spec_pin_id() -> DynPinId {
        Pd4::spec_id()
    }

    open spec fn spec_fun_sel() -> FunctionSelect {
        FunctionSelect::Sel2
    }

    open spec fn spec_tim_id() -> TimId {
        TimId::spec_new(4)
    }

    fn pin_id() -> (id: DynPinId) {
        Pd4::id()
    }

    fn fun_sel() -> (fun_sel: FunctionSelect) {
        FunctionSelect::Sel2
    }

    fn tim_id() -> (id: TimId) {
        TimId::new_unchecked(4)
    }
}

impl TimPin for Pin<Pd5> {
    open spec fn spec_pin_id() -> DynPinId {
        Pd5::spec_id()
    }

    open spec fn spec_fun_sel() -> FunctionSelect {
        FunctionSelect::Sel2
    }

    open spec fn spec_tim_id() -> TimId {
        TimId::spec_new(5)
    }

    fn pin_id() -> (id: DynPinId) {
        Pd5::id()
    }

    fn fun_sel() -> (fun_sel: FunctionSelect) {
        FunctionSelect::Sel2
    }

    fn tim_id() -> (id: TimId) {
        TimId::new_unchecked(5)
    }
}

impl TimPin for Pin<Pd6> {
    open spec fn spec_pin_id() -> DynPinId {
        Pd6::spec_id()
    }

    open spec fn spec_fun_sel() -> FunctionSelect {
        FunctionSelect::Sel2
    }

    open spec fn spec_tim_id() -> TimId {
        TimId::spec_new(6)
    }

    fn pin_id() -> (id: DynPinId) {
        Pd6::id()
    }

    fn fun_sel() -> (fun_sel: FunctionSelect) {
        FunctionSelect::Sel2
    }

    fn tim_id() -> (id: TimId) {
        TimId::new_unchecked(6)
    }
}

impl TimPin for Pin<Pd7> {
    open spec fn spec_pin_id() -> DynPinId {
        Pd7::spec_id()
    }

    open spec fn spec_fun_sel() -> FunctionSelect {
        FunctionSelect::Sel2
    }

    open spec fn spec_tim_id() -> TimId {
        TimId::spec_new(7)
    }

    fn pin_id() -> (id: DynPinId) {
        Pd7::id()
    }

    fn fun_sel() -> (fun_sel: FunctionSelect) {
        FunctionSelect::Sel2
    }

    fn tim_id() -> (id: TimId) {
        TimId::new_unchecked(7)
    }
}

impl TimPin for Pin<Pd8> {
    open spec fn spec_pin_id() -> DynPinId {
        Pd8::spec_id()
    }

    open spec fn spec_fun_sel() -> FunctionSelect {
        FunctionSelect::Sel2
    }

    open spec fn spec_tim_id() -> TimId {
        TimId::spec_new(8)
    }

    fn pin_id() -> (id: DynPinId) {
        Pd8::id()
    }

    fn fun_sel() -> (fun_sel: FunctionSelect) {
        FunctionSelect::Sel2
    }

    fn tim_id() -> (id: TimId) {
        TimId::new_unchecked(8)
    }
}

impl TimPin for Pin<Pd9> {
    open spec fn spec_pin_id() -> DynPinId {
        Pd9::spec_id()
    }

    open spec fn spec_fun_sel() -> FunctionSelect {
        FunctionSelect::Sel2
    }

    open spec fn spec_tim_id() -> TimId {
        TimId::spec_new(9)
    }

    fn pin_id() -> (id: DynPinId) {
        Pd9::id()
    }

    fn fun_sel() -> (fun_sel: FunctionSelect) {
        FunctionSelect::Sel2
    }

    fn tim_id() -> (id: TimId) {
        TimId::new_unchecked(9)
    }
}

impl TimPin for Pin<Pd10> {
    open spec fn spec_pin_id() -> DynPinId {
        Pd10::spec_id()
    }

    open spec fn spec_fun_sel() -> FunctionSelect {
        FunctionSelect::Sel2
    }

    open spec fn spec_tim_id() -> TimId {
        TimId::spec_new(10)
    }

    fn pin_id() -> (id: DynPinId) {
        Pd10::id()
    }

    fn fun_sel() -> (fun_sel: FunctionSelect) {
        FunctionSelect::Sel2
    }

    fn tim_id() -> (id: TimId) {
        TimId::new_unchecked(10)
    }
}

impl TimPin for Pin<Pd11> {
    open spec fn spec_pin_id() -> DynPinId {
        Pd11::spec_id()
    }

    open spec fn spec_fun_sel() -> FunctionSelect {
        FunctionSelect::Sel2
    }

    open spec fn spec_tim_id() -> TimId {
        TimId::spec_new(11)
    }

    fn pin_id() -> (id: DynPinId) {
        Pd11::id()
    }

    fn fun_sel() -> (fun_sel: FunctionSelect) {
        FunctionSelect::Sel2
    }

    fn tim_id() -> (id: TimId) {
        TimId::new_unchecked(11)
    }
}

impl TimPin for Pin<Pd12> {
    open spec fn spec_pin_id() -> DynPinId {
        Pd12::spec_id()
    }

    open spec fn spec_fun_sel() -> FunctionSelect {
        FunctionSelect::Sel2
    }

    open spec fn spec_tim_id() -> TimId {
        TimId::spec_new(12)
    }

    fn pin_id() -> (id: DynPinId) {
        Pd12::id()
    }

    fn fun_sel() -> (fun_sel: FunctionSelect) {
        FunctionSelect::Sel2
    }

    fn tim_id() -> (id: TimId) {
        TimId::new_unchecked(12)
    }
}

impl TimPin for Pin<Pd13> {
    open spec fn spec_pin_id() -> DynPinId {
        Pd13::spec_id()
    }

    open spec fn spec_fun_sel() -> FunctionSelect {
        FunctionSelect::Sel2
    }

    open spec fn spec_tim_id() -> TimId {
        TimId::spec_new(13)
    }

    fn pin_id() -> (id: DynPinId) {
        Pd13::id()
    }

    fn fun_sel() -> (fun_sel: FunctionSelect) {
        FunctionSelect::Sel2
    }

    fn tim_id() -> (id: TimId) {
        TimId::new_unchecked(13)
    }
}

impl TimPin for Pin<Pd14> {
    open spec fn spec_pin_id() -> DynPinId {
        Pd14::spec_id()
    }

    open spec fn spec_fun_sel() -> FunctionSelect {
        FunctionSelect::Sel2
    }

    open spec fn spec_tim_id() -> TimId {
        TimId::spec_new(14)
    }

    fn pin_id() -> (id: DynPinId) {
        Pd14::id()
    }

    fn fun_sel() -> (fun_sel: FunctionSelect) {
        FunctionSelect::Sel2
    }

    fn tim_id() -> (id: TimId) {
        TimId::new_unchecked(14)
    }
}

impl TimPin for Pin<Pd15> {
    open spec fn spec_pin_id() -> DynPinId {
        Pd15::spec_id()
    }

    open spec fn spec_fun_sel() -> FunctionSelect {
        FunctionSelect::Sel2
    }

    open spec fn spec_tim_id() -> TimId {
        TimId::spec_new(15)
    }

    fn pin_id() -> (id: DynPinId) {
        Pd15::id()
    }

    fn fun_sel() -> (fun_sel: FunctionSelect) {
        FunctionSelect::Sel2
    }

    fn tim_id() -> (id: TimId) {
        TimId::new_unchecked(15)
    }
}

impl TimPin for Pin<Pe0> {
    open spec fn spec_pin_id() -> DynPinId {
        Pe0::spec_id()
    }

    open spec fn spec_fun_sel() -> FunctionSelect {
        FunctionSelect::Sel2
    }

    open spec fn spec_tim_id() -> TimId {
        TimId::spec_new(16)
    }

    fn pin_id() -> (id: DynPinId) {
        Pe0::id()
    }

    fn fun_sel() -> (fun_sel: FunctionSelect) {
        FunctionSelect::Sel2
    }

    fn tim_id() -> (id: TimId) {
        TimId::new_unchecked(16)
    }
}

impl TimPin for Pin<Pe1> {
    open spec fn spec_pin_id() -> DynPinId {
        Pe1::spec_id()
    }

    open spec fn spec_fun_sel() -> FunctionSelect {
        FunctionSelect::Sel2
    }

    open spec fn spec_tim_id() -> TimId {
        TimId::spec_new(17)
    }

    fn pin_id() -> (id: DynPinId) {
        Pe1::id()
    }

    fn fun_sel() -> (fun_sel: FunctionSelect) {
        FunctionSelect::Sel2
    }

    fn tim_id() -> (id: TimId) {
        TimId::new_unchecked(17)
    }
}

impl TimPin for Pin<Pe2> {
    open spec fn spec_pin_id() -> DynPinId {
        Pe2::spec_id()
    }

    open spec fn spec_fun_sel() -> FunctionSelect {
        FunctionSelect::Sel2
    }

    open spec fn spec_tim_id() -> TimId {
        TimId::spec_new(18)
    }

    fn pin_id() -> (id: DynPinId) {
        Pe2::id()
    }

    fn fun_sel() -> (fun_sel: FunctionSelect) {
        FunctionSelect::Sel2
    }

    fn tim_id() -> (id: TimId) {
        TimId::new_unchecked(18)
    }
}

impl TimPin for Pin<Pe3> {
    open spec fn spec_pin_id() -> DynPinId {
        Pe3::spec_id()
    }

    open spec fn spec_fun_sel() -> FunctionSelect {
        FunctionSelect::Sel2
    }

    open spec fn spec_tim_id() -> TimId {
        TimId::spec_new(19)
    }

    fn pin_id() -> (id: DynPinId) {
        Pe3::id()
    }

    fn fun_sel() -> (fun_sel: FunctionSelect) {
        FunctionSelect::Sel2
    }

    fn tim_id() -> (id: TimId) {
        TimId::new_unchecked(19)
    }
}

impl TimPin for Pin<Pe4> {
    open spec fn spec_pin_id() -> DynPinId {
        Pe4::spec_id()
    }

    open spec fn spec_fun_sel() -> FunctionSelect {
        FunctionSelect::Sel2
    }

    open spec fn spec_tim_id() -> TimId {
        TimId::spec_new(20)
    }

    fn pin_id() -> (id: DynPinId) {
        Pe4::id()
    }

    fn fun_sel() -> (fun_sel: FunctionSelect) {
        FunctionSelect::Sel2
    }

    fn tim_id() -> (id: TimId) {
        TimId::new_unchecked(20)
    }
}

impl TimPin for Pin<Pe5> {
    open spec fn spec_pin_id() -> DynPinId {
        Pe5::spec_id()
    }

    open spec fn spec_fun_sel() -> FunctionSelect {
        FunctionSelect::Sel2
    }

    open spec fn spec_tim_id() -> TimId {
        TimId::spec_new(21)
    }

    fn pin_id() -> (id: DynPinId) {
        Pe5::id()
    }

    fn fun_sel() -> (fun_sel: FunctionSelect) {
        FunctionSelect::Sel2
    }

    fn tim_id() -> (id: TimId) {
        TimId::new_unchecked(21)
    }
}

impl TimPin for Pin<Pe6> {
    open spec fn spec_pin_id() -> DynPinId {
        Pe6::spec_id()
    }

    open spec fn spec_fun_sel() -> FunctionSelect {
        FunctionSelect::Sel2
    }

    open spec fn spec_tim_id() -> TimId {
        TimId::spec_new(22)
    }

    fn pin_id() -> (id: DynPinId) {
        Pe6::id()
    }

    fn fun_sel() -> (fun_sel: FunctionSelect) {
        FunctionSelect::Sel2
    }

    fn tim_id() -> (id: TimId) {
        TimId::new_unchecked(22)
    }
}

impl TimPin for Pin<Pe7> {
    open spec fn spec_pin_id() -> DynPinId {
        Pe7::spec_id()
    }

    open spec fn spec_fun_sel() -> FunctionSelect {
        FunctionSelect::Sel2
    }

    open spec fn spec_tim_id() -> TimId {
        TimId::spec_new(23)
    }

    fn pin_id() -> (id: DynPinId) {
        Pe7::id()
    }

    fn fun_sel() -> (fun_sel: FunctionSelect) {
        FunctionSelect::Sel2
    }

    fn tim_id() -> (id: TimId) {
        TimId::new_unchecked(23)
    }
}

impl TimPin for Pin<Pe8> {
    open spec fn spec_pin_id() -> DynPinId {
        Pe8::spec_id()
    }

    open spec fn spec_fun_sel() -> FunctionSelect {
        FunctionSelect::Sel3
    }

    open spec fn spec_tim_id() -> TimId {
        TimId::spec_new(16)
    }

    fn pin_id() -> (id: DynPinId) {
        Pe8::id()
    }

    fn fun_sel() -> (fun_sel: FunctionSelect) {
        FunctionSelect::Sel3
    }

    fn tim_id() -> (id: TimId) {
        TimId::new_unchecked(16)
    }
}

impl TimPin for Pin<Pe9> {
    open spec fn spec_pin_id() -> DynPinId {
        Pe9::spec_id()
    }

    open spec fn spec_fun_sel() -> FunctionSelect {
        FunctionSelect::Sel3
    }

    open spec fn spec_tim_id() -> TimId {
        TimId::spec_new(17)
    }

    fn pin_id() -> (id: DynPinId) {
        Pe9::id()
    }

    fn fun_sel() -> (fun_sel: FunctionSelect) {
        FunctionSelect::Sel3
    }

    fn tim_id() -> (id: TimId) {
        TimId::new_unchecked(17)
    }
}

impl TimPin for Pin<Pe10> {
    open spec fn spec_pin_id() -> DynPinId {
        Pe10::spec_id()
    }

    open spec fn spec_fun_sel() -> FunctionSelect {
        FunctionSelect::Sel3
    }

    open spec fn spec_tim_id() -> TimId {
        TimId::spec_new(18)
    }

    fn pin_id() -> (id: DynPinId) {
        Pe10::id()
    }

    fn fun_sel() -> (fun_sel: FunctionSelect) {
        FunctionSelect::Sel3
    }

    fn tim_id() -> (id: TimId) {
        TimId::new_unchecked(18)
    }
}

impl TimPin for Pin<Pe11> {
    open spec fn spec_pin_id() -> DynPinId {
        Pe11::spec_id()
    }

    open spec fn spec_fun_sel() -> FunctionSelect {
        FunctionSelect::Sel3
    }

    open spec fn spec_tim_id() -> TimId {
        TimId::spec_new(19)
    }

    fn pin_id() -> (id: DynPinId) {
        Pe11::id()
    }

    fn fun_sel() -> (fun_sel: FunctionSelect) {
        FunctionSelect::Sel3
    }

    fn tim_id() -> (id: TimId) {
        TimId::new_unchecked(19)
    }
}

impl TimPin for Pin<Pe12> {
    open spec fn spec_pin_id() -> DynPinId {
        Pe12::spec_id()
    }

    open spec fn spec_fun_sel() -> FunctionSelect {
        FunctionSelect::Sel3
    }

    open spec fn spec_tim_id() -> TimId {
        TimId::spec_new(20)
    }

    fn pin_id() -> (id: DynPinId) {
        Pe12::id()
    }

    fn fun_sel() -> (fun_sel: FunctionSelect) {
        FunctionSelect::Sel3
    }

    fn tim_id() -> (id: TimId) {
        TimId::new_unchecked(20)
    }
}

impl TimPin for Pin<Pe13> {
    open spec fn spec_pin_id() -> DynPinId {
        Pe13::spec_id()
    }

    open spec fn spec_fun_sel() -> FunctionSelect {
        FunctionSelect::Sel3
    }

    open spec fn spec_tim_id() -> TimId {
        TimId::spec_new(21)
    }

    fn pin_id() -> (id: DynPinId) {
        Pe13::id()
    }

    fn fun_sel() -> (fun_sel: FunctionSelect) {
        FunctionSelect::Sel3
    }

    fn tim_id() -> (id: TimId) {
        TimId::new_unchecked(21)
    }
}

impl TimPin for Pin<Pe14> {
    open spec fn spec_pin_id() -> DynPinId {
        Pe14::spec_id()
    }

    open spec fn spec_fun_sel() -> FunctionSelect {
        FunctionSelect::Sel3
    }

    open spec fn spec_tim_id() -> TimId {
        TimId::spec_new(22)
    }

    fn pin_id() -> (id: DynPinId) {
        Pe14::id()
    }

    fn fun_sel() -> (fun_sel: FunctionSelect) {
        FunctionSelect::Sel3
    }

    fn tim_id() -> (id: TimId) {
        TimId::new_unchecked(22)
    }
}

impl TimPin for Pin<Pe15> {
    open spec fn spec_pin_id() -> DynPinId {
        Pe15::spec_id()
    }

    open spec fn spec_fun_sel() -> FunctionSelect {
        FunctionSelect::Sel3
    }

    open spec fn spec_tim_id() -> TimId {
        TimId::spec_new(23)
    }

    fn pin_id() -> (id: DynPinId) {
        Pe15::id()
    }

    fn fun_sel() -> (fun_sel: FunctionSelect) {
        FunctionSelect::Sel3
    }

    fn tim_id() -> (id: TimId) {
        TimId::new_unchecked(23)
    }
}

impl TimPin for Pin<Pf0> {
    open spec fn spec_pin_id() -> DynPinId {
        Pf0::spec_id()
    }

    open spec fn spec_fun_sel() -> FunctionSelect {
        FunctionSelect::Sel3
    }

    open spec fn spec_tim_id() -> TimId {
        TimId::spec_new(0)
    }

    fn pin_id() -> (id: DynPinId) {
        Pf0::id()
    }

    fn fun_sel() -> (fun_sel: FunctionSelect) {
        FunctionSelect::Sel3
    }

    fn tim_id() -> (id: TimId) {
        TimId::new_unchecked(0)
    }
}

impl TimPin for Pin<Pf1> {
    open spec fn spec_pin_id() -> DynPinId {
        Pf1::spec_id()
    }

    open spec fn spec_fun_sel() -> FunctionSelect {
        FunctionSelect::Sel3
    }

    open spec fn spec_tim_id() -> TimId {
        TimId::spec_new(1)
    }

    fn pin_id() -> (id: DynPinId) {
        Pf1::id()
    }

    fn fun_sel() -> (fun_sel: FunctionSelect) {
        FunctionSelect::Sel3
    }

    fn tim_id() -> (id: TimId) {
        TimId::new_unchecked(1)
    }
}

impl TimPin for Pin<Pf2> {
    open spec fn spec_pin_id() -> DynPinId {
        Pf2::spec_id()
    }

    open spec fn spec_fun_sel() -> FunctionSelect {
        FunctionSelect::Sel3
    }

    open spec fn spec_tim_id() -> TimId {
        TimId::spec_new(2)
    }

    fn pin_id() -> (id: DynPinId) {
        Pf2::id()
    }

    fn fun_sel() -> (fun_sel: FunctionSelect) {
        FunctionSelect::Sel3
    }

    fn tim_id() -> (id: TimId) {
        TimId::new_unchecked(2)
    }
}

impl TimPin for Pin<Pf3> {
    open spec fn spec_pin_id() -> DynPinId {
        Pf3::spec_id()
    }

    open spec fn spec_fun_sel() -> FunctionSelect {
        FunctionSelect::Sel3
    }

    open spec fn spec_tim_id() -> TimId {
        TimId::spec_new(3)
    }

    fn pin_id() -> (id: DynPinId) {
        Pf3::id()
    }

    fn fun_sel() -> (fun_sel: FunctionSelect) {
        FunctionSelect::Sel3
    }

    fn tim_id() -> (id: TimId) {
        TimId::new_unchecked(3)
    }
}

impl TimPin for Pin<Pf4> {
    open spec fn spec_pin_id() -> DynPinId {
        Pf4::spec_id()
    }

    open spec fn spec_fun_sel() -> FunctionSelect {
        FunctionSelect::Sel3
    }

    open spec fn spec_tim_id() -> TimId {
        TimId::spec_new(4)
    }

    fn pin_id() -> (id: DynPinId) {
        Pf4::id()
    }

    fn fun_sel() -> (fun_sel: FunctionSelect) {
        FunctionSelect::Sel3
    }

    fn tim_id() -> (id: TimId) {
        TimId::new_unchecked(4)
    }
}

impl TimPin for Pin<Pf5> {
    open spec fn spec_pin_id() -> DynPinId {
        Pf5::spec_id()
    }

    open spec fn spec_fun_sel() -> FunctionSelect {
        FunctionSelect::Sel3
    }

    open spec fn spec_tim_id() -> TimId {
        TimId::spec_new(5)
    }

    fn pin_id() -> (id: DynPinId) {
        Pf5::id()
    }

    fn fun_sel() -> (fun_sel: FunctionSelect) {
        FunctionSelect::Sel3
    }

    fn tim_id() -> (id: TimId) {
        TimId::new_unchecked(5)
    }
}

impl TimPin for Pin<Pf6> {
    open spec fn spec_pin_id() -> DynPinId {
        Pf6::spec_id()
    }

    open spec fn spec_fun_sel() -> FunctionSelect {
        FunctionSelect::Sel3
    }

    open spec fn spec_tim_id() -> TimId {
        TimId::spec_new(6)
    }

    fn pin_id() -> (id: DynPinId) {
        Pf6::id()
    }

    fn fun_sel() -> (fun_sel: FunctionSelect) {
        FunctionSelect::Sel3
    }

    fn tim_id() -> (id: TimId) {
        TimId::new_unchecked(6)
    }
}

impl TimPin for Pin<Pf7> {
    open spec fn spec_pin_id() -> DynPinId {
        Pf7::spec_id()
    }

    open spec fn spec_fun_sel() -> FunctionSelect {
        FunctionSelect::Sel3
    }

    open spec fn spec_tim_id() -> TimId {
        TimId::spec_new(7)
    }

    fn pin_id() -> (id: DynPinId) {
        Pf7::id()
    }

    fn fun_sel() -> (fun_sel: FunctionSelect) {
        FunctionSelect::Sel3
    }

    fn tim_id() -> (id: TimId) {
        TimId::new_unchecked(7)
    }
}

impl TimPin for Pin<Pf8> {
    open spec fn spec_pin_id() -> DynPinId {
        Pf8::spec_id()
    }

    open spec fn spec_fun_sel() -> FunctionSelect {
        FunctionSelect::Sel3
    }

    open spec fn spec_tim_id() -> TimId {
        TimId::spec_new(8)
    }

    fn pin_id() -> (id: DynPinId) {
        Pf8::id()
    }

    fn fun_sel() -> (fun_sel: FunctionSelect) {
        FunctionSelect::Sel3
    }

    fn tim_id() -> (id: TimId) {
        TimId::new_unchecked(8)
    }
}

impl TimPin for Pin<Pf9> {
    open spec fn spec_pin_id() -> DynPinId {
        Pf9::spec_id()
    }

    open spec fn spec_fun_sel() -> FunctionSelect {
        FunctionSelect::Sel3
    }

    open spec fn spec_tim_id() -> TimId {
        TimId::spec_new(9)
    }

    fn pin_id() -> (id: DynPinId) {
        Pf9::id()
    }

    fn fun_sel() -> (fun_sel: FunctionSelect) {
        FunctionSelect::Sel3
    }

    fn tim_id() -> (id: TimId) {
        TimId::new_unchecked(9)
    }
}

impl TimPin for Pin<Pf10> {
    open spec fn spec_pin_id() -> DynPinId {
        Pf10::spec_id()
    }

    open spec fn spec_fun_sel() -> FunctionSelect {
        FunctionSelect::Sel3
    }

    open spec fn spec_tim_id() -> TimId {
        TimId::spec_new(10)
    }

    fn pin_id() -> (id: DynPinId) {
        Pf10::id()
    }

    fn fun_sel() -> (fun_sel: FunctionSelect) {
        FunctionSelect::Sel3
    }

    fn tim_id() -> (id: TimId) {
        TimId::new_unchecked(10)
    }
}

impl TimPin for Pin<Pf11> {
    open spec fn spec_pin_id() -> DynPinId {
        Pf11::spec_id()
    }

    open spec fn spec_fun_sel() -> FunctionSelect {
        FunctionSelect::Sel3
    }

    open spec fn spec_tim_id() -> TimId {
        TimId::spec_new(11)
    }

    fn pin_id() -> (id: DynPinId) {
        Pf11::id()
    }

    fn fun_sel() -> (fun_sel: FunctionSelect) {
        FunctionSelect::Sel3
    }

    fn tim_id() -> (id: TimId) {
        TimId::new_unchecked(11)
    }
}

impl TimPin for Pin<Pf12> {
    open spec fn spec_pin_id() -> DynPinId {
        Pf12::spec_id()
    }

    open spec fn spec_fun_sel() -> FunctionSelect {
        FunctionSelect::Sel3
    }

    open spec fn spec_tim_id() -> TimId {
        TimId::spec_new(12)
    }

    fn pin_id() -> (id: DynPinId) {
        Pf12::id()
    }

    fn fun_sel() -> (fun_sel: FunctionSelect) {
        FunctionSelect::Sel3
    }

    fn tim_id() -> (id: TimId) {
        TimId::new_unchecked(12)
    }
}

impl TimPin for Pin<Pf13> {
    open spec fn spec_pin_id() -> DynPinId {
        Pf13::spec_id()
    }

    open spec fn spec_fun_sel() -> FunctionSelect {
        FunctionSelect::Sel2
    }

    open spec fn spec_tim_id() -> TimId {
        TimId::spec_new(19)
    }

    fn pin_id() -> (id: DynPinId) {
        Pf13::id()
    }

    fn fun_sel() -> (fun_sel: FunctionSelect) {
        FunctionSelect::Sel2
    }

    fn tim_id() -> (id: TimId) {
        TimId::new_unchecked(19)
    }
}

impl TimPin for Pin<Pf14> {
    open spec fn spec_pin_id() -> DynPinId {
        Pf14::spec_id()
    }

    open spec fn spec_fun_sel() -> FunctionSelect {
        FunctionSelect::Sel2
    }

    open spec fn spec_tim_id() -> TimId {
        TimId::spec_new(20)
    }

    fn pin_id() -> (id: DynPinId) {
        Pf14::id()
    }

    fn fun_sel() -> (fun_sel: FunctionSelect) {
        FunctionSelect::Sel2
    }

    fn tim_id() -> (id: TimId) {
        TimId::new_unchecked(20)
    }
}

impl TimPin for Pin<Pf15> {
    open spec fn spec_pin_id() -> DynPinId {
        Pf15::spec_id()
    }

    open spec fn spec_fun_sel() -> FunctionSelect {
        FunctionSelect::Sel2
    }

    open spec fn spec_tim_id() -> TimId {
        TimId::spec_new(21)
    }

    fn pin_id() -> (id: DynPinId) {
        Pf15::id()
    }

    fn fun_sel() -> (fun_sel: FunctionSelect) {
        FunctionSelect::Sel2
    }

    fn tim_id() -> (id: TimId) {
        TimId::new_unchecked(21)
    }
}

impl TimPin for Pin<Pg0> {
    open spec fn spec_pin_id() -> DynPinId {
        Pg0::spec_id()
    }

    open spec fn spec_fun_sel() -> FunctionSelect {
        FunctionSelect::Sel2
    }

    open spec fn spec_tim_id() -> TimId {
        TimId::spec_new(22)
    }

    fn pin_id() -> (id: DynPinId) {
        Pg0::id()
    }

    fn fun_sel() -> (fun_sel: FunctionSelect) {
        FunctionSelect::Sel2
    }

    fn tim_id() -> (id: TimId) {
        TimId::new_unchecked(22)
    }
}

impl TimPin for Pin<Pg1> {
    open spec fn spec_pin_id() -> DynPinId {
        Pg1::spec_id()
    }

    open spec fn spec_fun_sel() -> FunctionSelect {
        FunctionSelect::Sel2
    }

    open spec fn spec_tim_id() -> TimId {
        TimId::spec_new(23)
    }

    fn pin_id() -> (id: DynPinId) {
        Pg1::id()
    }

    fn fun_sel() -> (fun_sel: FunctionSelect) {
        FunctionSelect::Sel2
    }

    fn tim_id() -> (id: TimId) {
        TimId::new_unchecked(23)
    }
}

impl TimPin for Pin<Pg2> {
    open spec fn spec_pin_id() -> DynPinId {
        Pg2::spec_id()
    }

    open spec fn spec_fun_sel() -> FunctionSelect {
        FunctionSelect::Sel1
    }

    open spec fn spec_tim_id() -> TimId {
        TimId::spec_new(9)
    }

    fn pin_id() -> (id: DynPinId) {
        Pg2::id()
    }

    fn fun_sel() -> (fun_sel: FunctionSelect) {
        FunctionSelect::Sel1
    }

    fn tim_id() -> (id: TimId) {
        TimId::new_unchecked(9)
    }
}

impl TimPin for Pin<Pg3> {
    open spec fn spec_pin_id() -> DynPinId {
        Pg3::spec_id()
    }

    open spec fn spec_fun_sel() -> FunctionSelect {
        FunctionSelect::Sel1
    }

    open spec fn spec_tim_id() -> TimId {
        TimId::spec_new(10)
    }

    fn pin_id() -> (id: DynPinId) {
        Pg3::id()
    }

    fn fun_sel() -> (fun_sel: FunctionSelect) {
        FunctionSelect::Sel1
    }

    fn tim_id() -> (id: TimId) {
        TimId::new_unchecked(10)
    }
}

impl TimPin for Pin<Pg6> {
    open spec fn spec_pin_id() -> DynPinId {
        Pg6::spec_id()
    }

    open spec fn spec_fun_sel() -> FunctionSelect {
        FunctionSelect::Sel1
    }

    open spec fn spec_tim_id() -> TimId {
        TimId::spec_new(12)
    }

    fn pin_id() -> (id: DynPinId) {
        Pg6::id()
    }

    fn fun_sel() -> (fun_sel: FunctionSelect) {
        FunctionSelect::Sel1
    }

    fn tim_id() -> (id: TimId) {
        TimId::new_unchecked(12)
    }
}

} // verus!
