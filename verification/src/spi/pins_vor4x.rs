//! The pins of the SPI peripherals, each with the function that connects it to its
//! peripheral.
use super::{Bank, HwChipSelectId, HwCsProvider, PinMiso, PinMosi, PinSck};
use crate::gpio::ll::DynPinId;
use crate::ioconfig::FunctionSelect;
use crate::pins::{
    Pa0, Pa1, Pa2, Pa3, Pa4, Pa5, Pa6, Pa7, Pa8, Pa9, Pb0, Pb1, Pb2, Pb3, Pb4, Pb5, Pb6, Pb7, Pb8,
    Pb9, Pb10, Pb11, Pb12, Pb13, Pb14, Pb15, Pc0, Pc1, Pc7, Pc8, Pc9, Pc10, Pc11, Pe5, Pe6, Pe7,
    Pe8, Pe9, Pe10, Pe11, Pe12, Pe13, Pe14, Pe15, Pf0, Pf1, Pf2, Pf3, Pf4, Pf5, Pf6, Pf7, Pg2, Pg3,
    Pg4, Pin, PinId,
};
use crate::Sealed;
use vstd::prelude::*;

verus! {

impl PinSck for Pin<Pb15> {
    open spec fn spec_spi_id() -> Bank {
        Bank::Spi0
    }

    open spec fn spec_fun_sel() -> FunctionSelect {
        FunctionSelect::Sel1
    }

    fn spi_id() -> (bank: Bank) {
        Bank::Spi0
    }

    fn fun_sel() -> (fun_sel: FunctionSelect) {
        FunctionSelect::Sel1
    }
}

impl PinMosi for Pin<Pc1> {
    open spec fn spec_spi_id() -> Bank {
        Bank::Spi0
    }

    open spec fn spec_fun_sel() -> FunctionSelect {
        FunctionSelect::Sel1
    }

    fn spi_id() -> (bank: Bank) {
        Bank::Spi0
    }

    fn fun_sel() -> (fun_sel: FunctionSelect) {
        FunctionSelect::Sel1
    }
}

impl PinMiso for Pin<Pc0> {
    open spec fn spec_spi_id() -> Bank {
        Bank::Spi0
    }

    open spec fn spec_fun_sel() -> FunctionSelect {
        FunctionSelect::Sel1
    }

    fn spi_id() -> (bank: Bank) {
        Bank::Spi0
    }

    fn fun_sel() -> (fun_sel: FunctionSelect) {
        FunctionSelect::Sel1
    }
}

impl PinSck for Pin<Pb8> {
    open spec fn spec_spi_id() -> Bank {
        Bank::Spi1
    }

    open spec fn spec_fun_sel() -> FunctionSelect {
        FunctionSelect::Sel3
    }

    fn spi_id() -> (bank: Bank) {
        Bank::Spi1
    }

    fn fun_sel() -> (fun_sel: FunctionSelect) {
        FunctionSelect::Sel3
    }
}

impl PinMosi for Pin<Pb10> {
    open spec fn spec_spi_id() -> Bank {
        Bank::Spi1
    }

    open spec fn spec_fun_sel() -> FunctionSelect {
        FunctionSelect::Sel3
    }

    fn spi_id() -> (bank: Bank) {
        Bank::Spi1
    }

    fn fun_sel() -> (fun_sel: FunctionSelect) {
        FunctionSelect::Sel3
    }
}

impl PinMiso for Pin<Pb9> {
    open spec fn spec_spi_id() -> Bank {
        Bank::Spi1
    }

    open spec fn spec_fun_sel() -> FunctionSelect {
        FunctionSelect::Sel3
    }

    fn spi_id() -> (bank: Bank) {
        Bank::Spi1
    }

    fn fun_sel() -> (fun_sel: FunctionSelect) {
        FunctionSelect::Sel3
    }
}

impl PinSck for Pin<Pc9> {
    open spec fn spec_spi_id() -> Bank {
        Bank::Spi1
    }

    open spec fn spec_fun_sel() -> FunctionSelect {
        FunctionSelect::Sel2
    }

    fn spi_id() -> (bank: Bank) {
        Bank::Spi1
    }

    fn fun_sel() -> (fun_sel: FunctionSelect) {
        FunctionSelect::Sel2
    }
}

impl PinMosi for Pin<Pc11> {
    open spec fn spec_spi_id() -> Bank {
        Bank::Spi1
    }

    open spec fn spec_fun_sel() -> FunctionSelect {
        FunctionSelect::Sel2
    }

    fn spi_id() -> (bank: Bank) {
        Bank::Spi1
    }

    fn fun_sel() -> (fun_sel: FunctionSelect) {
        FunctionSelect::Sel2
    }
}

impl PinMiso for Pin<Pc10> {
    open spec fn spec_spi_id() -> Bank {
        Bank::Spi1
    }

    open spec fn spec_fun_sel() -> FunctionSelect {
        FunctionSelect::Sel2
    }

    fn spi_id() -> (bank: Bank) {
        Bank::Spi1
    }

    fn fun_sel() -> (fun_sel: FunctionSelect) {
        FunctionSelect::Sel2
    }
}

impl PinSck for Pin<Pe13> {
    open spec fn spec_spi_id() -> Bank {
        Bank::Spi1
    }

    open spec fn spec_fun_sel() -> FunctionSelect {
        FunctionSelect::Sel2
    }

    fn spi_id() -> (bank: Bank) {
        Bank::Spi1
    }

    fn fun_sel() -> (fun_sel: FunctionSelect) {
        FunctionSelect::Sel2
    }
}

impl PinMosi for Pin<Pe15> {
    open spec fn spec_spi_id() -> Bank {
        Bank::Spi1
    }

    open spec fn spec_fun_sel() -> FunctionSelect {
        FunctionSelect::Sel2
    }

    fn spi_id() -> (bank: Bank) {
        Bank::Spi1
    }

    fn fun_sel() -> (fun_sel: FunctionSelect) {
        FunctionSelect::Sel2
    }
}

impl PinMiso for Pin<Pe14> {
    open spec fn spec_spi_id() -> Bank {
        Bank::Spi1
    }

    open spec fn spec_fun_sel() -> FunctionSelect {
        FunctionSelect::Sel2
    }

    fn spi_id() -> (bank: Bank) {
        Bank::Spi1
    }

    fn fun_sel() -> (fun_sel: FunctionSelect) {
        FunctionSelect::Sel2
    }
}

impl PinSck for Pin<Pf3> {
    open spec fn spec_spi_id() -> Bank {
        Bank::Spi1
    }

    open spec fn spec_fun_sel() -> FunctionSelect {
        FunctionSelect::Sel1
    }

    fn spi_id() -> (bank: Bank) {
        Bank::Spi1
    }

    fn fun_sel() -> (fun_sel: FunctionSelect) {
        FunctionSelect::Sel1
    }
}

impl PinMosi for Pin<Pf5> {
    open spec fn spec_spi_id() -> Bank {
        Bank::Spi1
    }

    open spec fn spec_fun_sel() -> FunctionSelect {
        FunctionSelect::Sel1
    }

    fn spi_id() -> (bank: Bank) {
        Bank::Spi1
    }

    fn fun_sel() -> (fun_sel: FunctionSelect) {
        FunctionSelect::Sel1
    }
}

impl PinMiso for Pin<Pf4> {
    open spec fn spec_spi_id() -> Bank {
        Bank::Spi1
    }

    open spec fn spec_fun_sel() -> FunctionSelect {
        FunctionSelect::Sel1
    }

    fn spi_id() -> (bank: Bank) {
        Bank::Spi1
    }

    fn fun_sel() -> (fun_sel: FunctionSelect) {
        FunctionSelect::Sel1
    }
}

impl PinSck for Pin<Pg3> {
    open spec fn spec_spi_id() -> Bank {
        Bank::Spi1
    }

    open spec fn spec_fun_sel() -> FunctionSelect {
        FunctionSelect::Sel2
    }

    fn spi_id() -> (bank: Bank) {
        Bank::Spi1
    }

    fn fun_sel() -> (fun_sel: FunctionSelect) {
        FunctionSelect::Sel2
    }
}

impl PinMiso for Pin<Pg4> {
    open spec fn spec_spi_id() -> Bank {
        Bank::Spi1
    }

    open spec fn spec_fun_sel() -> FunctionSelect {
        FunctionSelect::Sel2
    }

    fn spi_id() -> (bank: Bank) {
        Bank::Spi1
    }

    fn fun_sel() -> (fun_sel: FunctionSelect) {
        FunctionSelect::Sel2
    }
}

impl PinSck for Pin<Pa5> {
    open spec fn spec_spi_id() -> Bank {
        Bank::Spi2
    }

    open spec fn spec_fun_sel() -> FunctionSelect {
        FunctionSelect::Sel2
    }

    fn spi_id() -> (bank: Bank) {
        Bank::Spi2
    }

    fn fun_sel() -> (fun_sel: FunctionSelect) {
        FunctionSelect::Sel2
    }
}

impl PinMosi for Pin<Pa7> {
    open spec fn spec_spi_id() -> Bank {
        Bank::Spi2
    }

    open spec fn spec_fun_sel() -> FunctionSelect {
        FunctionSelect::Sel2
    }

    fn spi_id() -> (bank: Bank) {
        Bank::Spi2
    }

    fn fun_sel() -> (fun_sel: FunctionSelect) {
        FunctionSelect::Sel2
    }
}

impl PinMiso for Pin<Pa6> {
    open spec fn spec_spi_id() -> Bank {
        Bank::Spi2
    }

    open spec fn spec_fun_sel() -> FunctionSelect {
        FunctionSelect::Sel2
    }

    fn spi_id() -> (bank: Bank) {
        Bank::Spi2
    }

    fn fun_sel() -> (fun_sel: FunctionSelect) {
        FunctionSelect::Sel2
    }
}

impl PinSck for Pin<Pf5> {
    open spec fn spec_spi_id() -> Bank {
        Bank::Spi2
    }

    open spec fn spec_fun_sel() -> FunctionSelect {
        FunctionSelect::Sel2
    }

    fn spi_id() -> (bank: Bank) {
        Bank::Spi2
    }

    fn fun_sel() -> (fun_sel: FunctionSelect) {
        FunctionSelect::Sel2
    }
}

impl PinMosi for Pin<Pf7> {
    open spec fn spec_spi_id() -> Bank {
        Bank::Spi2
    }

    open spec fn spec_fun_sel() -> FunctionSelect {
        FunctionSelect::Sel2
    }

    fn spi_id() -> (bank: Bank) {
        Bank::Spi2
    }

    fn fun_sel() -> (fun_sel: FunctionSelect) {
        FunctionSelect::Sel2
    }
}

impl PinMiso for Pin<Pf6> {
    open spec fn spec_spi_id() -> Bank {
        Bank::Spi2
    }

    open spec fn spec_fun_sel() -> FunctionSelect {
        FunctionSelect::Sel2
    }

    fn spi_id() -> (bank: Bank) {
        Bank::Spi2
    }

    fn fun_sel() -> (fun_sel: FunctionSelect) {
        FunctionSelect::Sel2
    }
}

impl HwCsProvider for Pin<Pb14> {
    open spec fn spec_pin_id() -> DynPinId {
        Pb14::spec_id()
    }

    open spec fn spec_spi_id() -> Bank {
        Bank::Spi0
    }

    open spec fn spec_fun_sel() -> FunctionSelect {
        FunctionSelect::Sel1
    }

    open spec fn spec_cs_id() -> HwChipSelectId {
        HwChipSelectId::Id0
    }

    fn pin_id() -> (id: DynPinId) {
        Pb14::id()
    }

    fn spi_id() -> (bank: Bank) {
        Bank::Spi0
    }

    fn fun_sel() -> (fun_sel: FunctionSelect) {
        FunctionSelect::Sel1
    }

    fn cs_id() -> (cs_id: HwChipSelectId) {
        HwChipSelectId::Id0
    }
}

impl HwCsProvider for Pin<Pb13> {
    open spec fn spec_pin_id() -> DynPinId {
        Pb13::spec_id()
    }

    open spec fn spec_spi_id() -> Bank {
        Bank::Spi0
    }

    open spec fn spec_fun_sel() -> FunctionSelect {
        FunctionSelect::Sel1
    }

    open spec fn spec_cs_id() -> HwChipSelectId {
        HwChipSelectId::Id1
    }

    fn pin_id() -> (id: DynPinId) {
        Pb13::id()
    }

    fn spi_id() -> (bank: Bank) {
        Bank::Spi0
    }

    fn fun_sel() -> (fun_sel: FunctionSelect) {
        FunctionSelect::Sel1
    }

    fn cs_id() -> (cs_id: HwChipSelectId) {
        HwChipSelectId::Id1
    }
}

impl HwCsProvider for Pin<Pb12> {
    open spec fn spec_pin_id() -> DynPinId {
        Pb12::spec_id()
    }

    open spec fn spec_spi_id() -> Bank {
        Bank::Spi0
    }

    open spec fn spec_fun_sel() -> FunctionSelect {
        FunctionSelect::Sel1
    }

    open spec fn spec_cs_id() -> HwChipSelectId {
        HwChipSelectId::Id2
    }

    fn pin_id() -> (id: DynPinId) {
        Pb12::id()
    }

    fn spi_id() -> (bank: Bank) {
        Bank::Spi0
    }

    fn fun_sel() -> (fun_sel: FunctionSelect) {
        FunctionSelect::Sel1
    }

    fn cs_id() -> (cs_id: HwChipSelectId) {
        HwChipSelectId::Id2
    }
}

impl HwCsProvider for Pin<Pb11> {
    open spec fn spec_pin_id() -> DynPinId {
        Pb11::spec_id()
    }

    open spec fn spec_spi_id() -> Bank {
        Bank::Spi0
    }

    open spec fn spec_fun_sel() -> FunctionSelect {
        FunctionSelect::Sel1
    }

    open spec fn spec_cs_id() -> HwChipSelectId {
        HwChipSelectId::Id3
    }

    fn pin_id() -> (id: DynPinId) {
        Pb11::id()
    }

    fn spi_id() -> (bank: Bank) {
        Bank::Spi0
    }

    fn fun_sel() -> (fun_sel: FunctionSelect) {
        FunctionSelect::Sel1
    }

    fn cs_id() -> (cs_id: HwChipSelectId) {
        HwChipSelectId::Id3
    }
}

impl HwCsProvider for Pin<Pb4> {
    open spec fn spec_pin_id() -> DynPinId {
        Pb4::spec_id()
    }

    open spec fn spec_spi_id() -> Bank {
        Bank::Spi1
    }

    open spec fn spec_fun_sel() -> FunctionSelect {
        FunctionSelect::Sel3
    }

    open spec fn spec_cs_id() -> HwChipSelectId {
        HwChipSelectId::Id3
    }

    fn pin_id() -> (id: DynPinId) {
        Pb4::id()
    }

    fn spi_id() -> (bank: Bank) {
        Bank::Spi1
    }

    fn fun_sel() -> (fun_sel: FunctionSelect) {
        FunctionSelect::Sel3
    }

    fn cs_id() -> (cs_id: HwChipSelectId) {
        HwChipSelectId::Id3
    }
}

impl HwCsProvider for Pin<Pb3> {
    open spec fn spec_pin_id() -> DynPinId {
        Pb3::spec_id()
    }

    open spec fn spec_spi_id() -> Bank {
        Bank::Spi1
    }

    open spec fn spec_fun_sel() -> FunctionSelect {
        FunctionSelect::Sel3
    }

    open spec fn spec_cs_id() -> HwChipSelectId {
        HwChipSelectId::Id4
    }

    fn pin_id() -> (id: DynPinId) {
        Pb3::id()
    }

    fn spi_id() -> (bank: Bank) {
        Bank::Spi1
    }

    fn fun_sel() -> (fun_sel: FunctionSelect) {
        FunctionSelect::Sel3
    }

    fn cs_id() -> (cs_id: HwChipSelectId) {
        HwChipSelectId::Id4
    }
}

impl HwCsProvider for Pin<Pb2> {
    open spec fn spec_pin_id() -> DynPinId {
        Pb2::spec_id()
    }

    open spec fn spec_spi_id() -> Bank {
        Bank::Spi1
    }

    open spec fn spec_fun_sel() -> FunctionSelect {
        FunctionSelect::Sel3
    }

    open spec fn spec_cs_id() -> HwChipSelectId {
        HwChipSelectId::Id5
    }

    fn pin_id() -> (id: DynPinId) {
        Pb2::id()
    }

    fn spi_id() -> (bank: Bank) {
        Bank::Spi1
    }

    fn fun_sel() -> (fun_sel: FunctionSelect) {
        FunctionSelect::Sel3
    }

    fn cs_id() -> (cs_id: HwChipSelectId) {
        HwChipSelectId::Id5
    }
}

impl HwCsProvider for Pin<Pb1> {
    open spec fn spec_pin_id() -> DynPinId {
        Pb1::spec_id()
    }

    open spec fn spec_spi_id() -> Bank {
        Bank::Spi1
    }

    open spec fn spec_fun_sel() -> FunctionSelect {
        FunctionSelect::Sel3
    }

    open spec fn spec_cs_id() -> HwChipSelectId {
        HwChipSelectId::Id6
    }

    fn pin_id() -> (id: DynPinId) {
        Pb1::id()
    }

    fn spi_id() -> (bank: Bank) {
        Bank::Spi1
    }

    fn fun_sel() -> (fun_sel: FunctionSelect) {
        FunctionSelect::Sel3
    }

    fn cs_id() -> (cs_id: HwChipSelectId) {
        HwChipSelectId::Id6
    }
}

impl HwCsProvider for Pin<Pb0> {
    open spec fn spec_pin_id() -> DynPinId {
        Pb0::spec_id()
    }

    open spec fn spec_spi_id() -> Bank {
        Bank::Spi1
    }

    open spec fn spec_fun_sel() -> FunctionSelect {
        FunctionSelect::Sel3
    }

    open spec fn spec_cs_id() -> HwChipSelectId {
        HwChipSelectId::Id7
    }

    fn pin_id() -> (id: DynPinId) {
        Pb0::id()
    }

    fn spi_id() -> (bank: Bank) {
        Bank::Spi1
    }

    fn fun_sel() -> (fun_sel: FunctionSelect) {
        FunctionSelect::Sel3
    }

    fn cs_id() -> (cs_id: HwChipSelectId) {
        HwChipSelectId::Id7
    }
}

impl HwCsProvider for Pin<Pc8> {
    open spec fn spec_pin_id() -> DynPinId {
        Pc8::spec_id()
    }

    open spec fn spec_spi_id() -> Bank {
        Bank::Spi1
    }

    open spec fn spec_fun_sel() -> FunctionSelect {
        FunctionSelect::Sel2
    }

    open spec fn spec_cs_id() -> HwChipSelectId {
        HwChipSelectId::Id0
    }

    fn pin_id() -> (id: DynPinId) {
        Pc8::id()
    }

    fn spi_id() -> (bank: Bank) {
        Bank::Spi1
    }

    fn fun_sel() -> (fun_sel: FunctionSelect) {
        FunctionSelect::Sel2
    }

    fn cs_id() -> (cs_id: HwChipSelectId) {
        HwChipSelectId::Id0
    }
}

impl HwCsProvider for Pin<Pc7> {
    open spec fn spec_pin_id() -> DynPinId {
        Pc7::spec_id()
    }

    open spec fn spec_spi_id() -> Bank {
        Bank::Spi1
    }

    open spec fn spec_fun_sel() -> FunctionSelect {
        FunctionSelect::Sel2
    }

    open spec fn spec_cs_id() -> HwChipSelectId {
        HwChipSelectId::Id1
    }

    fn pin_id() -> (id: DynPinId) {
        Pc7::id()
    }

    fn spi_id() -> (bank: Bank) {
        Bank::Spi1
    }

    fn fun_sel() -> (fun_sel: FunctionSelect) {
        FunctionSelect::Sel2
    }

    fn cs_id() -> (cs_id: HwChipSelectId) {
        HwChipSelectId::Id1
    }
}

impl HwCsProvider for Pin<Pe12> {
    open spec fn spec_pin_id() -> DynPinId {
        Pe12::spec_id()
    }

    open spec fn spec_spi_id() -> Bank {
        Bank::Spi1
    }

    open spec fn spec_fun_sel() -> FunctionSelect {
        FunctionSelect::Sel2
    }

    open spec fn spec_cs_id() -> HwChipSelectId {
        HwChipSelectId::Id0
    }

    fn pin_id() -> (id: DynPinId) {
        Pe12::id()
    }

    fn spi_id() -> (bank: Bank) {
        Bank::Spi1
    }

    fn fun_sel() -> (fun_sel: FunctionSelect) {
        FunctionSelect::Sel2
    }

    fn cs_id() -> (cs_id: HwChipSelectId) {
        HwChipSelectId::Id0
    }
}

impl HwCsProvider for Pin<Pe9> {
    open spec fn spec_pin_id() -> DynPinId {
        Pe9::spec_id()
    }

    open spec fn spec_spi_id() -> Bank {
        Bank::Spi1
    }

    open spec fn spec_fun_sel() -> FunctionSelect {
        FunctionSelect::Sel2
    }

    open spec fn spec_cs_id() -> HwChipSelectId {
        HwChipSelectId::Id3
    }

    fn pin_id() -> (id: DynPinId) {
        Pe9::id()
    }

    fn spi_id() -> (bank: Bank) {
        Bank::Spi1
    }

    fn fun_sel() -> (fun_sel: FunctionSelect) {
        FunctionSelect::Sel2
    }

    fn cs_id() -> (cs_id: HwChipSelectId) {
        HwChipSelectId::Id3
    }
}

impl HwCsProvider for Pin<Pe8> {
    open spec fn spec_pin_id() -> DynPinId {
        Pe8::spec_id()
    }

    open spec fn spec_spi_id() -> Bank {
        Bank::Spi1
    }

    open spec fn spec_fun_sel() -> FunctionSelect {
        FunctionSelect::Sel2
    }

    open spec fn spec_cs_id() -> HwChipSelectId {
        HwChipSelectId::Id4
    }

    fn pin_id() -> (id: DynPinId) {
        Pe8::id()
    }

    fn spi_id() -> (bank: Bank) {
        Bank::Spi1
    }

    fn fun_sel() -> (fun_sel: FunctionSelect) {
        FunctionSelect::Sel2
    }

    fn cs_id() -> (cs_id: HwChipSelectId) {
        HwChipSelectId::Id4
    }
}

impl HwCsProvider for Pin<Pe7> {
    open spec fn spec_pin_id() -> DynPinId {
        Pe7::spec_id()
    }

    open spec fn spec_spi_id() -> Bank {
        Bank::Spi1
    }

    open spec fn spec_fun_sel() -> FunctionSelect {
        FunctionSelect::Sel3
    }

    open spec fn spec_cs_id() -> HwChipSelectId {
        HwChipSelectId::Id5
    }

    fn pin_id() -> (id: DynPinId) {
        Pe7::id()
    }

    fn spi_id() -> (bank: Bank) {
        Bank::Spi1
    }

    fn fun_sel() -> (fun_sel: FunctionSelect) {
        FunctionSelect::Sel3
    }

    fn cs_id() -> (cs_id: HwChipSelectId) {
        HwChipSelectId::Id5
    }
}

impl HwCsProvider for Pin<Pe6> {
    open spec fn spec_pin_id() -> DynPinId {
        Pe6::spec_id()
    }

    open spec fn spec_spi_id() -> Bank {
        Bank::Spi1
    }

    open spec fn spec_fun_sel() -> FunctionSelect {
        FunctionSelect::Sel3
    }

    open spec fn spec_cs_id() -> HwChipSelectId {
        HwChipSelectId::Id6
    }

    fn pin_id() -> (id: DynPinId) {
        Pe6::id()
    }

    fn spi_id() -> (bank: Bank) {
        Bank::Spi1
    }

    fn fun_sel() -> (fun_sel: FunctionSelect) {
        FunctionSelect::Sel3
    }

    fn cs_id() -> (cs_id: HwChipSelectId) {
        HwChipSelectId::Id6
    }
}

impl HwCsProvider for Pin<Pe5> {
    open spec fn spec_pin_id() -> DynPinId {
        Pe5::spec_id()
    }

    open spec fn spec_spi_id() -> Bank {
        Bank::Spi1
    }

    open spec fn spec_fun_sel() -> FunctionSelect {
        FunctionSelect::Sel3
    }

    open spec fn spec_cs_id() -> HwChipSelectId {
        HwChipSelectId::Id7
    }

    fn pin_id() -> (id: DynPinId) {
        Pe5::id()
    }

    fn spi_id() -> (bank: Bank) {
        Bank::Spi1
    }

    fn fun_sel() -> (fun_sel: FunctionSelect) {
        FunctionSelect::Sel3
    }

    fn cs_id() -> (cs_id: HwChipSelectId) {
        HwChipSelectId::Id7
    }
}

impl HwCsProvider for Pin<Pg2> {
    open spec fn spec_pin_id() -> DynPinId {
        Pg2::spec_id()
    }

    open spec fn spec_spi_id() -> Bank {
        Bank::Spi1
    }

    open spec fn spec_fun_sel() -> FunctionSelect {
        FunctionSelect::Sel2
    }

    open spec fn spec_cs_id() -> HwChipSelectId {
        HwChipSelectId::Id0
    }

    fn pin_id() -> (id: DynPinId) {
        Pg2::id()
    }

    fn spi_id() -> (bank: Bank) {
        Bank::Spi1
    }

    fn fun_sel() -> (fun_sel: FunctionSelect) {
        FunctionSelect::Sel2
    }

    fn cs_id() -> (cs_id: HwChipSelectId) {
        HwChipSelectId::Id0
    }
}

impl HwCsProvider for Pin<Pb7> {
    open spec fn spec_pin_id() -> DynPinId {
        Pb7::spec_id()
    }

    open spec fn spec_spi_id() -> Bank {
        Bank::Spi1
    }

    open spec fn spec_fun_sel() -> FunctionSelect {
        FunctionSelect::Sel3
    }

    open spec fn spec_cs_id() -> HwChipSelectId {
        HwChipSelectId::Id0
    }

    fn pin_id() -> (id: DynPinId) {
        Pb7::id()
    }

    fn spi_id() -> (bank: Bank) {
        Bank::Spi1
    }

    fn fun_sel() -> (fun_sel: FunctionSelect) {
        FunctionSelect::Sel3
    }

    fn cs_id() -> (cs_id: HwChipSelectId) {
        HwChipSelectId::Id0
    }
}

impl HwCsProvider for Pin<Pb6> {
    open spec fn spec_pin_id() -> DynPinId {
        Pb6::spec_id()
    }

    open spec fn spec_spi_id() -> Bank {
        Bank::Spi1
    }

    open spec fn spec_fun_sel() -> FunctionSelect {
        FunctionSelect::Sel3
    }

    open spec fn spec_cs_id() -> HwChipSelectId {
        HwChipSelectId::Id1
    }

    fn pin_id() -> (id: DynPinId) {
        Pb6::id()
    }

    fn spi_id() -> (bank: Bank) {
        Bank::Spi1
    }

    fn fun_sel() -> (fun_sel: FunctionSelect) {
        FunctionSelect::Sel3
    }

    fn cs_id() -> (cs_id: HwChipSelectId) {
        HwChipSelectId::Id1
    }
}

impl HwCsProvider for Pin<Pb5> {
    open spec fn spec_pin_id() -> DynPinId {
        Pb5::spec_id()
    }

    open spec fn spec_spi_id() -> Bank {
        Bank::Spi1
    }

    open spec fn spec_fun_sel() -> FunctionSelect {
        FunctionSelect::Sel3
    }

    open spec fn spec_cs_id() -> HwChipSelectId {
        HwChipSelectId::Id2
    }

    fn pin_id() -> (id: DynPinId) {
        Pb5::id()
    }

    fn spi_id() -> (bank: Bank) {
        Bank::Spi1
    }

    fn fun_sel() -> (fun_sel: FunctionSelect) {
        FunctionSelect::Sel3
    }

    fn cs_id() -> (cs_id: HwChipSelectId) {
        HwChipSelectId::Id2
    }
}

impl HwCsProvider for Pin<Pe11> {
    open spec fn spec_pin_id() -> DynPinId {
        Pe11::spec_id()
    }

    open spec fn spec_spi_id() -> Bank {
        Bank::Spi1
    }

    open spec fn spec_fun_sel() -> FunctionSelect {
        FunctionSelect::Sel2
    }

    open spec fn spec_cs_id() -> HwChipSelectId {
        HwChipSelectId::Id1
    }

    fn pin_id() -> (id: DynPinId) {
        Pe11::id()
    }

    fn spi_id() -> (bank: Bank) {
        Bank::Spi1
    }

    fn fun_sel() -> (fun_sel: FunctionSelect) {
        FunctionSelect::Sel2
    }

    fn cs_id() -> (cs_id: HwChipSelectId) {
        HwChipSelectId::Id1
    }
}

impl HwCsProvider for Pin<Pe10> {
    open spec fn spec_pin_id() -> DynPinId {
        Pe10::spec_id()
    }

    open spec fn spec_spi_id() -> Bank {
        Bank::Spi1
    }

    open spec fn spec_fun_sel() -> FunctionSelect {
        FunctionSelect::Sel2
    }

    open spec fn spec_cs_id() -> HwChipSelectId {
        HwChipSelectId::Id2
    }

    fn pin_id() -> (id: DynPinId) {
        Pe10::id()
    }

    fn spi_id() -> (bank: Bank) {
        Bank::Spi1
    }

    fn fun_sel() -> (fun_sel: FunctionSelect) {
        FunctionSelect::Sel2
    }

    fn cs_id() -> (cs_id: HwChipSelectId) {
        HwChipSelectId::Id2
    }
}

impl HwCsProvider for Pin<Pa4> {
    open spec fn spec_pin_id() -> DynPinId {
        Pa4::spec_id()
    }

    open spec fn spec_spi_id() -> Bank {
        Bank::Spi1
    }

    open spec fn spec_fun_sel() -> FunctionSelect {
        FunctionSelect::Sel2
    }

    open spec fn spec_cs_id() -> HwChipSelectId {
        HwChipSelectId::Id0
    }

    fn pin_id() -> (id: DynPinId) {
        Pa4::id()
    }

    fn spi_id() -> (bank: Bank) {
        Bank::Spi1
    }

    fn fun_sel() -> (fun_sel: FunctionSelect) {
        FunctionSelect::Sel2
    }

    fn cs_id() -> (cs_id: HwChipSelectId) {
        HwChipSelectId::Id0
    }
}

impl HwCsProvider for Pin<Pa3> {
    open spec fn spec_pin_id() -> DynPinId {
        Pa3::spec_id()
    }

    open spec fn spec_spi_id() -> Bank {
        Bank::Spi1
    }

    open spec fn spec_fun_sel() -> FunctionSelect {
        FunctionSelect::Sel2
    }

    open spec fn spec_cs_id() -> HwChipSelectId {
        HwChipSelectId::Id1
    }

    fn pin_id() -> (id: DynPinId) {
        Pa3::id()
    }

    fn spi_id() -> (bank: Bank) {
        Bank::Spi1
    }

    fn fun_sel() -> (fun_sel: FunctionSelect) {
        FunctionSelect::Sel2
    }

    fn cs_id() -> (cs_id: HwChipSelectId) {
        HwChipSelectId::Id1
    }
}

impl HwCsProvider for Pin<Pa2> {
    open spec fn spec_pin_id() -> DynPinId {
        Pa2::spec_id()
    }

    open spec fn spec_spi_id() -> Bank {
        Bank::Spi1
    }

    open spec fn spec_fun_sel() -> FunctionSelect {
        FunctionSelect::Sel2
    }

    open spec fn spec_cs_id() -> HwChipSelectId {
        HwChipSelectId::Id2
    }

    fn pin_id() -> (id: DynPinId) {
        Pa2::id()
    }

    fn spi_id() -> (bank: Bank) {
        Bank::Spi1
    }

    fn fun_sel() -> (fun_sel: FunctionSelect) {
        FunctionSelect::Sel2
    }

    fn cs_id() -> (cs_id: HwChipSelectId) {
        HwChipSelectId::Id2
    }
}

impl HwCsProvider for Pin<Pa1> {
    open spec fn spec_pin_id() -> DynPinId {
        Pa1::spec_id()
    }

    open spec fn spec_spi_id() -> Bank {
        Bank::Spi1
    }

    open spec fn spec_fun_sel() -> FunctionSelect {
        FunctionSelect::Sel2
    }

    open spec fn spec_cs_id() -> HwChipSelectId {
        HwChipSelectId::Id3
    }

    fn pin_id() -> (id: DynPinId) {
        Pa1::id()
    }

    fn spi_id() -> (bank: Bank) {
        Bank::Spi1
    }

    fn fun_sel() -> (fun_sel: FunctionSelect) {
        FunctionSelect::Sel2
    }

    fn cs_id() -> (cs_id: HwChipSelectId) {
        HwChipSelectId::Id3
    }
}

impl HwCsProvider for Pin<Pa0> {
    open spec fn spec_pin_id() -> DynPinId {
        Pa0::spec_id()
    }

    open spec fn spec_spi_id() -> Bank {
        Bank::Spi1
    }

    open spec fn spec_fun_sel() -> FunctionSelect {
        FunctionSelect::Sel2
    }

    open spec fn spec_cs_id() -> HwChipSelectId {
        HwChipSelectId::Id4
    }

    fn pin_id() -> (id: DynPinId) {
        Pa0::id()
    }

    fn spi_id() -> (bank: Bank) {
        Bank::Spi1
    }

    fn fun_sel() -> (fun_sel: FunctionSelect) {
        FunctionSelect::Sel2
    }

    fn cs_id() -> (cs_id: HwChipSelectId) {
        HwChipSelectId::Id4
    }
}

impl HwCsProvider for Pin<Pa8> {
    open spec fn spec_pin_id() -> DynPinId {
        Pa8::spec_id()
    }

    open spec fn spec_spi_id() -> Bank {
        Bank::Spi1
    }

    open spec fn spec_fun_sel() -> FunctionSelect {
        FunctionSelect::Sel2
    }

    open spec fn spec_cs_id() -> HwChipSelectId {
        HwChipSelectId::Id5
    }

    fn pin_id() -> (id: DynPinId) {
        Pa8::id()
    }

    fn spi_id() -> (bank: Bank) {
        Bank::Spi1
    }

    fn fun_sel() -> (fun_sel: FunctionSelect) {
        FunctionSelect::Sel2
    }

    fn cs_id() -> (cs_id: HwChipSelectId) {
        HwChipSelectId::Id5
    }
}

impl HwCsProvider for Pin<Pa9> {
    open spec fn spec_pin_id() -> DynPinId {
        Pa9::spec_id()
    }

    open spec fn spec_spi_id() -> Bank {
        Bank::Spi1
    }

    open spec fn spec_fun_sel() -> FunctionSelect {
        FunctionSelect::Sel2
    }

    open spec fn spec_cs_id() -> HwChipSelectId {
        HwChipSelectId::Id6
    }

    fn pin_id() -> (id: DynPinId) {
        Pa9::id()
    }

    fn spi_id() -> (bank: Bank) {
        Bank::Spi1
    }

    fn fun_sel() -> (fun_sel: FunctionSelect) {
        FunctionSelect::Sel2
    }

    fn cs_id() -> (cs_id: HwChipSelectId) {
        HwChipSelectId::Id6
    }
}

impl HwCsProvider for Pin<Pf0> {
    open spec fn spec_pin_id() -> DynPinId {
        Pf0::spec_id()
    }

    open spec fn spec_spi_id() -> Bank {
        Bank::Spi1
    }

    open spec fn spec_fun_sel() -> FunctionSelect {
        FunctionSelect::Sel2
    }

    open spec fn spec_cs_id() -> HwChipSelectId {
        HwChipSelectId::Id4
    }

    fn pin_id() -> (id: DynPinId) {
        Pf0::id()
    }

    fn spi_id() -> (bank: Bank) {
        Bank::Spi1
    }

    fn fun_sel() -> (fun_sel: FunctionSelect) {
        FunctionSelect::Sel2
    }

    fn cs_id() -> (cs_id: HwChipSelectId) {
        HwChipSelectId::Id4
    }
}

impl HwCsProvider for Pin<Pf1> {
    open spec fn spec_pin_id() -> DynPinId {
        Pf1::spec_id()
    }

    open spec fn spec_spi_id() -> Bank {
        Bank::Spi1
    }

    open spec fn spec_fun_sel() -> FunctionSelect {
        FunctionSelect::Sel2
    }

    open spec fn spec_cs_id() -> HwChipSelectId {
        HwChipSelectId::Id3
    }

    fn pin_id() -> (id: DynPinId) {
        Pf1::id()
    }

    fn spi_id() -> (bank: Bank) {
        Bank::Spi1
    }

    fn fun_sel() -> (fun_sel: FunctionSelect) {
        FunctionSelect::Sel2
    }

    fn cs_id() -> (cs_id: HwChipSelectId) {
        HwChipSelectId::Id3
    }
}

impl HwCsProvider for Pin<Pf3> {
    open spec fn spec_pin_id() -> DynPinId {
        Pf3::spec_id()
    }

    open spec fn spec_spi_id() -> Bank {
        Bank::Spi1
    }

    open spec fn spec_fun_sel() -> FunctionSelect {
        FunctionSelect::Sel2
    }

    open spec fn spec_cs_id() -> HwChipSelectId {
        HwChipSelectId::Id1
    }

    fn pin_id() -> (id: DynPinId) {
        Pf3::id()
    }

    fn spi_id() -> (bank: Bank) {
        Bank::Spi1
    }

    fn fun_sel() -> (fun_sel: FunctionSelect) {
        FunctionSelect::Sel2
    }

    fn cs_id() -> (cs_id: HwChipSelectId) {
        HwChipSelectId::Id1
    }
}

impl HwCsProvider for Pin<Pf4> {
    open spec fn spec_pin_id() -> DynPinId {
        Pf4::spec_id()
    }

    open spec fn spec_spi_id() -> Bank {
        Bank::Spi1
    }

    open spec fn spec_fun_sel() -> FunctionSelect {
        FunctionSelect::Sel2
    }

    open spec fn spec_cs_id() -> HwChipSelectId {
        HwChipSelectId::Id0
    }

    fn pin_id() -> (id: DynPinId) {
        Pf4::id()
    }

    fn spi_id() -> (bank: Bank) {
        Bank::Spi1
    }

    fn fun_sel() -> (fun_sel: FunctionSelect) {
        FunctionSelect::Sel2
    }

    fn cs_id() -> (cs_id: HwChipSelectId) {
        HwChipSelectId::Id0
    }
}

/// Newtype wrapper to use the pin [`Pf2`] as the chip select Id0 of [`Bank::Spi2`].
pub struct PinPf2Spi1HwCsId0(pub Pin<Pf2>);

impl PinPf2Spi1HwCsId0 {
    /// Wraps the token of the pin.
    pub fn new(pin: Pin<Pf2>) -> (res: PinPf2Spi1HwCsId0) {
        PinPf2Spi1HwCsId0(pin)
    }
}

impl Sealed for PinPf2Spi1HwCsId0 {

}

impl HwCsProvider for PinPf2Spi1HwCsId0 {
    open spec fn spec_pin_id() -> DynPinId {
        Pf2::spec_id()
    }

    open spec fn spec_spi_id() -> Bank {
        Bank::Spi2
    }

    open spec fn spec_fun_sel() -> FunctionSelect {
        FunctionSelect::Sel1
    }

    open spec fn spec_cs_id() -> HwChipSelectId {
        HwChipSelectId::Id0
    }

    fn pin_id() -> (id: DynPinId) {
        Pf2::id()
    }

    fn spi_id() -> (bank: Bank) {
        Bank::Spi2
    }

    fn fun_sel() -> (fun_sel: FunctionSelect) {
        FunctionSelect::Sel1
    }

    fn cs_id() -> (cs_id: HwChipSelectId) {
        HwChipSelectId::Id0
    }
}

/// Newtype wrapper to use the pin [`Pf2`] as the chip select Id2 of [`Bank::Spi2`].
pub struct PinPf2Spi2HwCsId2(pub Pin<Pf2>);

impl PinPf2Spi2HwCsId2 {
    /// Wraps the token of the pin.
    pub fn new(pin: Pin<Pf2>) -> (res: PinPf2Spi2HwCsId2) {
        PinPf2Spi2HwCsId2(pin)
    }
}

impl Sealed for PinPf2Spi2HwCsId2 {

}

impl HwCsProvider for PinPf2Spi2HwCsId2 {
    open spec fn spec_pin_id() -> DynPinId {
        Pf2::spec_id()
    }

    open spec fn spec_spi_id() -> Bank {
        Bank::Spi2
    }

    open spec fn spec_fun_sel() -> FunctionSelect {
        FunctionSelect::Sel2
    }

    open spec fn spec_cs_id() -> HwChipSelectId {
        HwChipSelectId::Id2
    }

    fn pin_id() -> (id: DynPinId) {
        Pf2::id()
    }

    fn spi_id() -> (bank: Bank) {
        Bank::Spi2
    }

    fn fun_sel() -> (fun_sel: FunctionSelect) {
        FunctionSelect::Sel2
    }

    fn cs_id() -> (cs_id: HwChipSelectId) {
        HwChipSelectId::Id2
    }
}

} // verus!
