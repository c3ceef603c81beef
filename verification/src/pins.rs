//! The pins as types.
//!
//! Each physical pin has a marker type, and [`Pin`] of that type is the token that a
//! driver takes when it takes the pin. The tokens of a port come from the singleton of
//! the port, which clocks the port when it is made.
use crate::bits::spec_set_bit;
use crate::gpio::ll::DynPinId;
use crate::sysconfig::{enable_peripheral_clock, reset_peripheral_for_cycles, Sysconfig};
use crate::{PeripheralSelect, Port, Sealed};
use core::marker::PhantomData;
use vstd::prelude::*;

verus! {

/// Trait implemented by the marker types of the pins.
pub trait PinId {
    /// The identifier of the pin.
    spec fn spec_id() -> DynPinId;

    /// The identifier of the pin.
    fn id() -> (id: DynPinId)
        ensures
            id == Self::spec_id(),
    ;
}

/// Trait implemented by the tokens of the pins.
pub trait AnyPin: Sealed {
    /// The identifier of the pin.
    spec fn spec_id() -> DynPinId;

    /// The identifier of the pin.
    fn id() -> (id: DynPinId)
        ensures
            id == Self::spec_id(),
    ;
}

/// Primary pin structure for the physical pins.
///
/// This structure is only used for resource management and does not do anything on its
/// own.
pub struct Pin<Id: PinId> {
    phantom: PhantomData<Id>,
}

impl<Id: PinId + Sealed> Sealed for Pin<Id> {

}

impl<Id: PinId + Sealed> AnyPin for Pin<Id> {
    open spec fn spec_id() -> DynPinId {
        Id::spec_id()
    }

    fn id() -> (id: DynPinId) {
        Id::id()
    }
}

impl<I: PinId> Pin<I> {
    /// The token of the pin. The singletons of the ports hand out one for each pin.
    pub fn __new() -> (pin: Pin<I>) {
        Pin { phantom: PhantomData }
    }

    /// A further token of the pin, beside the one of the singleton of its port.
    pub fn steal() -> (pin: Pin<I>) {
        Self::__new()
    }

    /// The identifier of the pin.
    pub fn pin_id(&self) -> (id: DynPinId)
        ensures
            id == I::spec_id(),
    {
        I::id()
    }
}

/// The system configuration after the singleton of the port with the clock gate
/// `periph` was made: the port was reset, and its clock and that of the pin
/// configuration run.
pub open spec fn spec_port_clocked(sysconfig: Sysconfig, periph: PeripheralSelect) -> Sysconfig {
    Sysconfig {
        peripheral_reset: spec_set_bit(sysconfig.peripheral_reset, periph.bit(), true),
        peripheral_clk_enable: spec_set_bit(
            spec_set_bit(sysconfig.peripheral_clk_enable, periph.bit(), true),
            PeripheralSelect::IoConfig.bit(),
            true,
        ),
        ..sysconfig
    }
}


/// Pin identifier of pin 0 of port A.
#[derive(Debug)]
pub struct Pa0;

impl Sealed for Pa0 {

}

impl PinId for Pa0 {
    open spec fn spec_id() -> DynPinId {
        DynPinId::spec_new(Port::A, 0)
    }

    fn id() -> (id: DynPinId) {
        DynPinId::new_unchecked(Port::A, 0)
    }
}


/// Pin identifier of pin 1 of port A.
#[derive(Debug)]
pub struct Pa1;

impl Sealed for Pa1 {

}

impl PinId for Pa1 {
    open spec fn spec_id() -> DynPinId {
        DynPinId::spec_new(Port::A, 1)
    }

    fn id() -> (id: DynPinId) {
        DynPinId::new_unchecked(Port::A, 1)
    }
}


/// Pin identifier of pin 2 of port A.
#[derive(Debug)]
pub struct Pa2;

impl Sealed for Pa2 {

}

impl PinId for Pa2 {
    open spec fn spec_id() -> DynPinId {
        DynPinId::spec_new(Port::A, 2)
    }

    fn id() -> (id: DynPinId) {
        DynPinId::new_unchecked(Port::A, 2)
    }
}


/// Pin identifier of pin 3 of port A.
#[derive(Debug)]
pub struct Pa3;

impl Sealed for Pa3 {

}

impl PinId for Pa3 {
    open spec fn spec_id() -> DynPinId {
        DynPinId::spec_new(Port::A, 3)
    }

    fn id() -> (id: DynPinId) {
        DynPinId::new_unchecked(Port::A, 3)
    }
}


/// Pin identifier of pin 4 of port A.
#[derive(Debug)]
pub struct Pa4;

impl Sealed for Pa4 {

}

impl PinId for Pa4 {
    open spec fn spec_id() -> DynPinId {
        DynPinId::spec_new(Port::A, 4)
    }

    fn id() -> (id: DynPinId) {
        DynPinId::new_unchecked(Port::A, 4)
    }
}


/// Pin identifier of pin 5 of port A.
#[derive(Debug)]
pub struct Pa5;

impl Sealed for Pa5 {

}

impl PinId for Pa5 {
    open spec fn spec_id() -> DynPinId {
        DynPinId::spec_new(Port::A, 5)
    }

    fn id() -> (id: DynPinId) {
        DynPinId::new_unchecked(Port::A, 5)
    }
}


/// Pin identifier of pin 6 of port A.
#[derive(Debug)]
pub struct Pa6;

impl Sealed for Pa6 {

}

impl PinId for Pa6 {
    open spec fn spec_id() -> DynPinId {
        DynPinId::spec_new(Port::A, 6)
    }

    fn id() -> (id: DynPinId) {
        DynPinId::new_unchecked(Port::A, 6)
    }
}


/// Pin identifier of pin 7 of port A.
#[derive(Debug)]
pub struct Pa7;

impl Sealed for Pa7 {

}

impl PinId for Pa7 {
    open spec fn spec_id() -> DynPinId {
        DynPinId::spec_new(Port::A, 7)
    }

    fn id() -> (id: DynPinId) {
        DynPinId::new_unchecked(Port::A, 7)
    }
}


/// Pin identifier of pin 8 of port A.
#[derive(Debug)]
pub struct Pa8;

impl Sealed for Pa8 {

}

impl PinId for Pa8 {
    open spec fn spec_id() -> DynPinId {
        DynPinId::spec_new(Port::A, 8)
    }

    fn id() -> (id: DynPinId) {
        DynPinId::new_unchecked(Port::A, 8)
    }
}


/// Pin identifier of pin 9 of port A.
#[derive(Debug)]
pub struct Pa9;

impl Sealed for Pa9 {

}

impl PinId for Pa9 {
    open spec fn spec_id() -> DynPinId {
        DynPinId::spec_new(Port::A, 9)
    }

    fn id() -> (id: DynPinId) {
        DynPinId::new_unchecked(Port::A, 9)
    }
}


/// Pin identifier of pin 10 of port A.
#[derive(Debug)]
pub struct Pa10;

impl Sealed for Pa10 {

}

impl PinId for Pa10 {
    open spec fn spec_id() -> DynPinId {
        DynPinId::spec_new(Port::A, 10)
    }

    fn id() -> (id: DynPinId) {
        DynPinId::new_unchecked(Port::A, 10)
    }
}


/// Pin identifier of pin 11 of port A.
#[derive(Debug)]
pub struct Pa11;

impl Sealed for Pa11 {

}

impl PinId for Pa11 {
    open spec fn spec_id() -> DynPinId {
        DynPinId::spec_new(Port::A, 11)
    }

    fn id() -> (id: DynPinId) {
        DynPinId::new_unchecked(Port::A, 11)
    }
}


/// Pin identifier of pin 12 of port A.
#[derive(Debug)]
pub struct Pa12;

impl Sealed for Pa12 {

}

impl PinId for Pa12 {
    open spec fn spec_id() -> DynPinId {
        DynPinId::spec_new(Port::A, 12)
    }

    fn id() -> (id: DynPinId) {
        DynPinId::new_unchecked(Port::A, 12)
    }
}


/// Pin identifier of pin 13 of port A.
#[derive(Debug)]
pub struct Pa13;

impl Sealed for Pa13 {

}

impl PinId for Pa13 {
    open spec fn spec_id() -> DynPinId {
        DynPinId::spec_new(Port::A, 13)
    }

    fn id() -> (id: DynPinId) {
        DynPinId::new_unchecked(Port::A, 13)
    }
}


/// Pin identifier of pin 14 of port A.
#[derive(Debug)]
pub struct Pa14;

impl Sealed for Pa14 {

}

impl PinId for Pa14 {
    open spec fn spec_id() -> DynPinId {
        DynPinId::spec_new(Port::A, 14)
    }

    fn id() -> (id: DynPinId) {
        DynPinId::new_unchecked(Port::A, 14)
    }
}


/// Pin identifier of pin 15 of port A.
#[derive(Debug)]
pub struct Pa15;

impl Sealed for Pa15 {

}

impl PinId for Pa15 {
    open spec fn spec_id() -> DynPinId {
        DynPinId::spec_new(Port::A, 15)
    }

    fn id() -> (id: DynPinId) {
        DynPinId::new_unchecked(Port::A, 15)
    }
}


/// Pin identifier of pin 0 of port B.
#[derive(Debug)]
pub struct Pb0;

impl Sealed for Pb0 {

}

impl PinId for Pb0 {
    open spec fn spec_id() -> DynPinId {
        DynPinId::spec_new(Port::B, 0)
    }

    fn id() -> (id: DynPinId) {
        DynPinId::new_unchecked(Port::B, 0)
    }
}


/// Pin identifier of pin 1 of port B.
#[derive(Debug)]
pub struct Pb1;

impl Sealed for Pb1 {

}

impl PinId for Pb1 {
    open spec fn spec_id() -> DynPinId {
        DynPinId::spec_new(Port::B, 1)
    }

    fn id() -> (id: DynPinId) {
        DynPinId::new_unchecked(Port::B, 1)
    }
}


/// Pin identifier of pin 2 of port B.
#[derive(Debug)]
pub struct Pb2;

impl Sealed for Pb2 {

}

impl PinId for Pb2 {
    open spec fn spec_id() -> DynPinId {
        DynPinId::spec_new(Port::B, 2)
    }

    fn id() -> (id: DynPinId) {
        DynPinId::new_unchecked(Port::B, 2)
    }
}


/// Pin identifier of pin 3 of port B.
#[derive(Debug)]
pub struct Pb3;

impl Sealed for Pb3 {

}

impl PinId for Pb3 {
    open spec fn spec_id() -> DynPinId {
        DynPinId::spec_new(Port::B, 3)
    }

    fn id() -> (id: DynPinId) {
        DynPinId::new_unchecked(Port::B, 3)
    }
}


/// Pin identifier of pin 4 of port B.
#[derive(Debug)]
pub struct Pb4;

impl Sealed for Pb4 {

}

impl PinId for Pb4 {
    open spec fn spec_id() -> DynPinId {
        DynPinId::spec_new(Port::B, 4)
    }

    fn id() -> (id: DynPinId) {
        DynPinId::new_unchecked(Port::B, 4)
    }
}


/// Pin identifier of pin 5 of port B.
#[derive(Debug)]
pub struct Pb5;

impl Sealed for Pb5 {

}

impl PinId for Pb5 {
    open spec fn spec_id() -> DynPinId {
        DynPinId::spec_new(Port::B, 5)
    }

    fn id() -> (id: DynPinId) {
        DynPinId::new_unchecked(Port::B, 5)
    }
}


/// Pin identifier of pin 6 of port B.
#[derive(Debug)]
pub struct Pb6;

impl Sealed for Pb6 {

}

impl PinId for Pb6 {
    open spec fn spec_id() -> DynPinId {
        DynPinId::spec_new(Port::B, 6)
    }

    fn id() -> (id: DynPinId) {
        DynPinId::new_unchecked(Port::B, 6)
    }
}


/// Pin identifier of pin 7 of port B.
#[derive(Debug)]
pub struct Pb7;

impl Sealed for Pb7 {

}

impl PinId for Pb7 {
    open spec fn spec_id() -> DynPinId {
        DynPinId::spec_new(Port::B, 7)
    }

    fn id() -> (id: DynPinId) {
        DynPinId::new_unchecked(Port::B, 7)
    }
}


/// Pin identifier of pin 8 of port B.
#[derive(Debug)]
pub struct Pb8;

impl Sealed for Pb8 {

}

impl PinId for Pb8 {
    open spec fn spec_id() -> DynPinId {
        DynPinId::spec_new(Port::B, 8)
    }

    fn id() -> (id: DynPinId) {
        DynPinId::new_unchecked(Port::B, 8)
    }
}


/// Pin identifier of pin 9 of port B.
#[derive(Debug)]
pub struct Pb9;

impl Sealed for Pb9 {

}

impl PinId for Pb9 {
    open spec fn spec_id() -> DynPinId {
        DynPinId::spec_new(Port::B, 9)
    }

    fn id() -> (id: DynPinId) {
        DynPinId::new_unchecked(Port::B, 9)
    }
}


/// Pin identifier of pin 10 of port B.
#[derive(Debug)]
pub struct Pb10;

impl Sealed for Pb10 {

}

impl PinId for Pb10 {
    open spec fn spec_id() -> DynPinId {
        DynPinId::spec_new(Port::B, 10)
    }

    fn id() -> (id: DynPinId) {
        DynPinId::new_unchecked(Port::B, 10)
    }
}


/// Pin identifier of pin 11 of port B.
#[derive(Debug)]
pub struct Pb11;

impl Sealed for Pb11 {

}

impl PinId for Pb11 {
    open spec fn spec_id() -> DynPinId {
        DynPinId::spec_new(Port::B, 11)
    }

    fn id() -> (id: DynPinId) {
        DynPinId::new_unchecked(Port::B, 11)
    }
}


/// Pin identifier of pin 12 of port B.
#[derive(Debug)]
pub struct Pb12;

impl Sealed for Pb12 {

}

impl PinId for Pb12 {
    open spec fn spec_id() -> DynPinId {
        DynPinId::spec_new(Port::B, 12)
    }

    fn id() -> (id: DynPinId) {
        DynPinId::new_unchecked(Port::B, 12)
    }
}


/// Pin identifier of pin 13 of port B.
#[derive(Debug)]
pub struct Pb13;

impl Sealed for Pb13 {

}

impl PinId for Pb13 {
    open spec fn spec_id() -> DynPinId {
        DynPinId::spec_new(Port::B, 13)
    }

    fn id() -> (id: DynPinId) {
        DynPinId::new_unchecked(Port::B, 13)
    }
}


/// Pin identifier of pin 14 of port B.
#[derive(Debug)]
pub struct Pb14;

impl Sealed for Pb14 {

}

impl PinId for Pb14 {
    open spec fn spec_id() -> DynPinId {
        DynPinId::spec_new(Port::B, 14)
    }

    fn id() -> (id: DynPinId) {
        DynPinId::new_unchecked(Port::B, 14)
    }
}


/// Pin identifier of pin 15 of port B.
#[derive(Debug)]
pub struct Pb15;

impl Sealed for Pb15 {

}

impl PinId for Pb15 {
    open spec fn spec_id() -> DynPinId {
        DynPinId::spec_new(Port::B, 15)
    }

    fn id() -> (id: DynPinId) {
        DynPinId::new_unchecked(Port::B, 15)
    }
}


/// Pin identifier of pin 0 of port C.
#[derive(Debug)]
pub struct Pc0;

impl Sealed for Pc0 {

}

impl PinId for Pc0 {
    open spec fn spec_id() -> DynPinId {
        DynPinId::spec_new(Port::C, 0)
    }

    fn id() -> (id: DynPinId) {
        DynPinId::new_unchecked(Port::C, 0)
    }
}


/// Pin identifier of pin 1 of port C.
#[derive(Debug)]
pub struct Pc1;

impl Sealed for Pc1 {

}

impl PinId for Pc1 {
    open spec fn spec_id() -> DynPinId {
        DynPinId::spec_new(Port::C, 1)
    }

    fn id() -> (id: DynPinId) {
        DynPinId::new_unchecked(Port::C, 1)
    }
}


/// Pin identifier of pin 2 of port C.
#[derive(Debug)]
pub struct Pc2;

impl Sealed for Pc2 {

}

impl PinId for Pc2 {
    open spec fn spec_id() -> DynPinId {
        DynPinId::spec_new(Port::C, 2)
    }

    fn id() -> (id: DynPinId) {
        DynPinId::new_unchecked(Port::C, 2)
    }
}


/// Pin identifier of pin 3 of port C.
#[derive(Debug)]
pub struct Pc3;

impl Sealed for Pc3 {

}

impl PinId for Pc3 {
    open spec fn spec_id() -> DynPinId {
        DynPinId::spec_new(Port::C, 3)
    }

    fn id() -> (id: DynPinId) {
        DynPinId::new_unchecked(Port::C, 3)
    }
}


/// Pin identifier of pin 4 of port C.
#[derive(Debug)]
pub struct Pc4;

impl Sealed for Pc4 {

}

impl PinId for Pc4 {
    open spec fn spec_id() -> DynPinId {
        DynPinId::spec_new(Port::C, 4)
    }

    fn id() -> (id: DynPinId) {
        DynPinId::new_unchecked(Port::C, 4)
    }
}


/// Pin identifier of pin 5 of port C.
#[derive(Debug)]
pub struct Pc5;

impl Sealed for Pc5 {

}

impl PinId for Pc5 {
    open spec fn spec_id() -> DynPinId {
        DynPinId::spec_new(Port::C, 5)
    }

    fn id() -> (id: DynPinId) {
        DynPinId::new_unchecked(Port::C, 5)
    }
}


/// Pin identifier of pin 6 of port C.
#[derive(Debug)]
pub struct Pc6;

impl Sealed for Pc6 {

}

impl PinId for Pc6 {
    open spec fn spec_id() -> DynPinId {
        DynPinId::spec_new(Port::C, 6)
    }

    fn id() -> (id: DynPinId) {
        DynPinId::new_unchecked(Port::C, 6)
    }
}


/// Pin identifier of pin 7 of port C.
#[derive(Debug)]
pub struct Pc7;

impl Sealed for Pc7 {

}

impl PinId for Pc7 {
    open spec fn spec_id() -> DynPinId {
        DynPinId::spec_new(Port::C, 7)
    }

    fn id() -> (id: DynPinId) {
        DynPinId::new_unchecked(Port::C, 7)
    }
}


/// Pin identifier of pin 8 of port C.
#[derive(Debug)]
pub struct Pc8;

impl Sealed for Pc8 {

}

impl PinId for Pc8 {
    open spec fn spec_id() -> DynPinId {
        DynPinId::spec_new(Port::C, 8)
    }

    fn id() -> (id: DynPinId) {
        DynPinId::new_unchecked(Port::C, 8)
    }
}


/// Pin identifier of pin 9 of port C.
#[derive(Debug)]
pub struct Pc9;

impl Sealed for Pc9 {

}

impl PinId for Pc9 {
    open spec fn spec_id() -> DynPinId {
        DynPinId::spec_new(Port::C, 9)
    }

    fn id() -> (id: DynPinId) {
        DynPinId::new_unchecked(Port::C, 9)
    }
}


/// Pin identifier of pin 10 of port C.
#[derive(Debug)]
pub struct Pc10;

impl Sealed for Pc10 {

}

impl PinId for Pc10 {
    open spec fn spec_id() -> DynPinId {
        DynPinId::spec_new(Port::C, 10)
    }

    fn id() -> (id: DynPinId) {
        DynPinId::new_unchecked(Port::C, 10)
    }
}


/// Pin identifier of pin 11 of port C.
#[derive(Debug)]
pub struct Pc11;

impl Sealed for Pc11 {

}

impl PinId for Pc11 {
    open spec fn spec_id() -> DynPinId {
        DynPinId::spec_new(Port::C, 11)
    }

    fn id() -> (id: DynPinId) {
        DynPinId::new_unchecked(Port::C, 11)
    }
}


/// Pin identifier of pin 12 of port C.
#[derive(Debug)]
pub struct Pc12;

impl Sealed for Pc12 {

}

impl PinId for Pc12 {
    open spec fn spec_id() -> DynPinId {
        DynPinId::spec_new(Port::C, 12)
    }

    fn id() -> (id: DynPinId) {
        DynPinId::new_unchecked(Port::C, 12)
    }
}


/// Pin identifier of pin 13 of port C.
#[derive(Debug)]
pub struct Pc13;

impl Sealed for Pc13 {

}

impl PinId for Pc13 {
    open spec fn spec_id() -> DynPinId {
        DynPinId::spec_new(Port::C, 13)
    }

    fn id() -> (id: DynPinId) {
        DynPinId::new_unchecked(Port::C, 13)
    }
}


/// Pin identifier of pin 14 of port C.
#[derive(Debug)]
pub struct Pc14;

impl Sealed for Pc14 {

}

impl PinId for Pc14 {
    open spec fn spec_id() -> DynPinId {
        DynPinId::spec_new(Port::C, 14)
    }

    fn id() -> (id: DynPinId) {
        DynPinId::new_unchecked(Port::C, 14)
    }
}


/// Pin identifier of pin 15 of port C.
#[derive(Debug)]
pub struct Pc15;

impl Sealed for Pc15 {

}

impl PinId for Pc15 {
    open spec fn spec_id() -> DynPinId {
        DynPinId::spec_new(Port::C, 15)
    }

    fn id() -> (id: DynPinId) {
        DynPinId::new_unchecked(Port::C, 15)
    }
}


/// Pin identifier of pin 0 of port D.
#[derive(Debug)]
pub struct Pd0;

impl Sealed for Pd0 {

}

impl PinId for Pd0 {
    open spec fn spec_id() -> DynPinId {
        DynPinId::spec_new(Port::D, 0)
    }

    fn id() -> (id: DynPinId) {
        DynPinId::new_unchecked(Port::D, 0)
    }
}


/// Pin identifier of pin 1 of port D.
#[derive(Debug)]
pub struct Pd1;

impl Sealed for Pd1 {

}

impl PinId for Pd1 {
    open spec fn spec_id() -> DynPinId {
        DynPinId::spec_new(Port::D, 1)
    }

    fn id() -> (id: DynPinId) {
        DynPinId::new_unchecked(Port::D, 1)
    }
}


/// Pin identifier of pin 2 of port D.
#[derive(Debug)]
pub struct Pd2;

impl Sealed for Pd2 {

}

impl PinId for Pd2 {
    open spec fn spec_id() -> DynPinId {
        DynPinId::spec_new(Port::D, 2)
    }

    fn id() -> (id: DynPinId) {
        DynPinId::new_unchecked(Port::D, 2)
    }
}


/// Pin identifier of pin 3 of port D.
#[derive(Debug)]
pub struct Pd3;

impl Sealed for Pd3 {

}

impl PinId for Pd3 {
    open spec fn spec_id() -> DynPinId {
        DynPinId::spec_new(Port::D, 3)
    }

    fn id() -> (id: DynPinId) {
        DynPinId::new_unchecked(Port::D, 3)
    }
}


/// Pin identifier of pin 4 of port D.
#[derive(Debug)]
pub struct Pd4;

impl Sealed for Pd4 {

}

impl PinId for Pd4 {
    open spec fn spec_id() -> DynPinId {
        DynPinId::spec_new(Port::D, 4)
    }

    fn id() -> (id: DynPinId) {
        DynPinId::new_unchecked(Port::D, 4)
    }
}


/// Pin identifier of pin 5 of port D.
#[derive(Debug)]
pub struct Pd5;

impl Sealed for Pd5 {

}

impl PinId for Pd5 {
    open spec fn spec_id() -> DynPinId {
        DynPinId::spec_new(Port::D, 5)
    }

    fn id() -> (id: DynPinId) {
        DynPinId::new_unchecked(Port::D, 5)
    }
}


/// Pin identifier of pin 6 of port D.
#[derive(Debug)]
pub struct Pd6;

impl Sealed for Pd6 {

}

impl PinId for Pd6 {
    open spec fn spec_id() -> DynPinId {
        DynPinId::spec_new(Port::D, 6)
    }

    fn id() -> (id: DynPinId) {
        DynPinId::new_unchecked(Port::D, 6)
    }
}


/// Pin identifier of pin 7 of port D.
#[derive(Debug)]
pub struct Pd7;

impl Sealed for Pd7 {

}

impl PinId for Pd7 {
    open spec fn spec_id() -> DynPinId {
        DynPinId::spec_new(Port::D, 7)
    }

    fn id() -> (id: DynPinId) {
        DynPinId::new_unchecked(Port::D, 7)
    }
}


/// Pin identifier of pin 8 of port D.
#[derive(Debug)]
pub struct Pd8;

impl Sealed for Pd8 {

}

impl PinId for Pd8 {
    open spec fn spec_id() -> DynPinId {
        DynPinId::spec_new(Port::D, 8)
    }

    fn id() -> (id: DynPinId) {
        DynPinId::new_unchecked(Port::D, 8)
    }
}


/// Pin identifier of pin 9 of port D.
#[derive(Debug)]
pub struct Pd9;

impl Sealed for Pd9 {

}

impl PinId for Pd9 {
    open spec fn spec_id() -> DynPinId {
        DynPinId::spec_new(Port::D, 9)
    }

    fn id() -> (id: DynPinId) {
        DynPinId::new_unchecked(Port::D, 9)
    }
}


/// Pin identifier of pin 10 of port D.
#[derive(Debug)]
pub struct Pd10;

impl Sealed for Pd10 {

}

impl PinId for Pd10 {
    open spec fn spec_id() -> DynPinId {
        DynPinId::spec_new(Port::D, 10)
    }

    fn id() -> (id: DynPinId) {
        DynPinId::new_unchecked(Port::D, 10)
    }
}


/// Pin identifier of pin 11 of port D.
#[derive(Debug)]
pub struct Pd11;

impl Sealed for Pd11 {

}

impl PinId for Pd11 {
    open spec fn spec_id() -> DynPinId {
        DynPinId::spec_new(Port::D, 11)
    }

    fn id() -> (id: DynPinId) {
        DynPinId::new_unchecked(Port::D, 11)
    }
}


/// Pin identifier of pin 12 of port D.
#[derive(Debug)]
pub struct Pd12;

impl Sealed for Pd12 {

}

impl PinId for Pd12 {
    open spec fn spec_id() -> DynPinId {
        DynPinId::spec_new(Port::D, 12)
    }

    fn id() -> (id: DynPinId) {
        DynPinId::new_unchecked(Port::D, 12)
    }
}


/// Pin identifier of pin 13 of port D.
#[derive(Debug)]
pub struct Pd13;

impl Sealed for Pd13 {

}

impl PinId for Pd13 {
    open spec fn spec_id() -> DynPinId {
        DynPinId::spec_new(Port::D, 13)
    }

    fn id() -> (id: DynPinId) {
        DynPinId::new_unchecked(Port::D, 13)
    }
}


/// Pin identifier of pin 14 of port D.
#[derive(Debug)]
pub struct Pd14;

impl Sealed for Pd14 {

}

impl PinId for Pd14 {
    open spec fn spec_id() -> DynPinId {
        DynPinId::spec_new(Port::D, 14)
    }

    fn id() -> (id: DynPinId) {
        DynPinId::new_unchecked(Port::D, 14)
    }
}


/// Pin identifier of pin 15 of port D.
#[derive(Debug)]
pub struct Pd15;

impl Sealed for Pd15 {

}

impl PinId for Pd15 {
    open spec fn spec_id() -> DynPinId {
        DynPinId::spec_new(Port::D, 15)
    }

    fn id() -> (id: DynPinId) {
        DynPinId::new_unchecked(Port::D, 15)
    }
}


/// Pin identifier of pin 0 of port E.
#[derive(Debug)]
pub struct Pe0;

impl Sealed for Pe0 {

}

impl PinId for Pe0 {
    open spec fn spec_id() -> DynPinId {
        DynPinId::spec_new(Port::E, 0)
    }

    fn id() -> (id: DynPinId) {
        DynPinId::new_unchecked(Port::E, 0)
    }
}


/// Pin identifier of pin 1 of port E.
#[derive(Debug)]
pub struct Pe1;

impl Sealed for Pe1 {

}

impl PinId for Pe1 {
    open spec fn spec_id() -> DynPinId {
        DynPinId::spec_new(Port::E, 1)
    }

    fn id() -> (id: DynPinId) {
        DynPinId::new_unchecked(Port::E, 1)
    }
}


/// Pin identifier of pin 2 of port E.
#[derive(Debug)]
pub struct Pe2;

impl Sealed for Pe2 {

}

impl PinId for Pe2 {
    open spec fn spec_id() -> DynPinId {
        DynPinId::spec_new(Port::E, 2)
    }

    fn id() -> (id: DynPinId) {
        DynPinId::new_unchecked(Port::E, 2)
    }
}


/// Pin identifier of pin 3 of port E.
#[derive(Debug)]
pub struct Pe3;

impl Sealed for Pe3 {

}

impl PinId for Pe3 {
    open spec fn spec_id() -> DynPinId {
        DynPinId::spec_new(Port::E, 3)
    }

    fn id() -> (id: DynPinId) {
        DynPinId::new_unchecked(Port::E, 3)
    }
}


/// Pin identifier of pin 4 of port E.
#[derive(Debug)]
pub struct Pe4;

impl Sealed for Pe4 {

}

impl PinId for Pe4 {
    open spec fn spec_id() -> DynPinId {
        DynPinId::spec_new(Port::E, 4)
    }

    fn id() -> (id: DynPinId) {
        DynPinId::new_unchecked(Port::E, 4)
    }
}


/// Pin identifier of pin 5 of port E.
#[derive(Debug)]
pub struct Pe5;

impl Sealed for Pe5 {

}

impl PinId for Pe5 {
    open spec fn spec_id() -> DynPinId {
        DynPinId::spec_new(Port::E, 5)
    }

    fn id() -> (id: DynPinId) {
        DynPinId::new_unchecked(Port::E, 5)
    }
}


/// Pin identifier of pin 6 of port E.
#[derive(Debug)]
pub struct Pe6;

impl Sealed for Pe6 {

}

impl PinId for Pe6 {
    open spec fn spec_id() -> DynPinId {
        DynPinId::spec_new(Port::E, 6)
    }

    fn id() -> (id: DynPinId) {
        DynPinId::new_unchecked(Port::E, 6)
    }
}


/// Pin identifier of pin 7 of port E.
#[derive(Debug)]
pub struct Pe7;

impl Sealed for Pe7 {

}

impl PinId for Pe7 {
    open spec fn spec_id() -> DynPinId {
        DynPinId::spec_new(Port::E, 7)
    }

    fn id() -> (id: DynPinId) {
        DynPinId::new_unchecked(Port::E, 7)
    }
}


/// Pin identifier of pin 8 of port E.
#[derive(Debug)]
pub struct Pe8;

impl Sealed for Pe8 {

}

impl PinId for Pe8 {
    open spec fn spec_id() -> DynPinId {
        DynPinId::spec_new(Port::E, 8)
    }

    fn id() -> (id: DynPinId) {
        DynPinId::new_unchecked(Port::E, 8)
    }
}


/// Pin identifier of pin 9 of port E.
#[derive(Debug)]
pub struct Pe9;

impl Sealed for Pe9 {

}

impl PinId for Pe9 {
    open spec fn spec_id() -> DynPinId {
        DynPinId::spec_new(Port::E, 9)
    }

    fn id() -> (id: DynPinId) {
        DynPinId::new_unchecked(Port::E, 9)
    }
}


/// Pin identifier of pin 10 of port E.
#[derive(Debug)]
pub struct Pe10;

impl Sealed for Pe10 {

}

impl PinId for Pe10 {
    open spec fn spec_id() -> DynPinId {
        DynPinId::spec_new(Port::E, 10)
    }

    fn id() -> (id: DynPinId) {
        DynPinId::new_unchecked(Port::E, 10)
    }
}


/// Pin identifier of pin 11 of port E.
#[derive(Debug)]
pub struct Pe11;

impl Sealed for Pe11 {

}

impl PinId for Pe11 {
    open spec fn spec_id() -> DynPinId {
        DynPinId::spec_new(Port::E, 11)
    }

    fn id() -> (id: DynPinId) {
        DynPinId::new_unchecked(Port::E, 11)
    }
}


/// Pin identifier of pin 12 of port E.
#[derive(Debug)]
pub struct Pe12;

impl Sealed for Pe12 {

}

impl PinId for Pe12 {
    open spec fn spec_id() -> DynPinId {
        DynPinId::spec_new(Port::E, 12)
    }

    fn id() -> (id: DynPinId) {
        DynPinId::new_unchecked(Port::E, 12)
    }
}


/// Pin identifier of pin 13 of port E.
#[derive(Debug)]
pub struct Pe13;

impl Sealed for Pe13 {

}

impl PinId for Pe13 {
    open spec fn spec_id() -> DynPinId {
        DynPinId::spec_new(Port::E, 13)
    }

    fn id() -> (id: DynPinId) {
        DynPinId::new_unchecked(Port::E, 13)
    }
}


/// Pin identifier of pin 14 of port E.
#[derive(Debug)]
pub struct Pe14;

impl Sealed for Pe14 {

}

impl PinId for Pe14 {
    open spec fn spec_id() -> DynPinId {
        DynPinId::spec_new(Port::E, 14)
    }

    fn id() -> (id: DynPinId) {
        DynPinId::new_unchecked(Port::E, 14)
    }
}


/// Pin identifier of pin 15 of port E.
#[derive(Debug)]
pub struct Pe15;

impl Sealed for Pe15 {

}

impl PinId for Pe15 {
    open spec fn spec_id() -> DynPinId {
        DynPinId::spec_new(Port::E, 15)
    }

    fn id() -> (id: DynPinId) {
        DynPinId::new_unchecked(Port::E, 15)
    }
}


/// Pin identifier of pin 0 of port F.
#[derive(Debug)]
pub struct Pf0;

impl Sealed for Pf0 {

}

impl PinId for Pf0 {
    open spec fn spec_id() -> DynPinId {
        DynPinId::spec_new(Port::F, 0)
    }

    fn id() -> (id: DynPinId) {
        DynPinId::new_unchecked(Port::F, 0)
    }
}


/// Pin identifier of pin 1 of port F.
#[derive(Debug)]
pub struct Pf1;

impl Sealed for Pf1 {

}

impl PinId for Pf1 {
    open spec fn spec_id() -> DynPinId {
        DynPinId::spec_new(Port::F, 1)
    }

    fn id() -> (id: DynPinId) {
        DynPinId::new_unchecked(Port::F, 1)
    }
}


/// Pin identifier of pin 2 of port F.
#[derive(Debug)]
pub struct Pf2;

impl Sealed for Pf2 {

}

impl PinId for Pf2 {
    open spec fn spec_id() -> DynPinId {
        DynPinId::spec_new(Port::F, 2)
    }

    fn id() -> (id: DynPinId) {
        DynPinId::new_unchecked(Port::F, 2)
    }
}


/// Pin identifier of pin 3 of port F.
#[derive(Debug)]
pub struct Pf3;

impl Sealed for Pf3 {

}

impl PinId for Pf3 {
    open spec fn spec_id() -> DynPinId {
        DynPinId::spec_new(Port::F, 3)
    }

    fn id() -> (id: DynPinId) {
        DynPinId::new_unchecked(Port::F, 3)
    }
}


/// Pin identifier of pin 4 of port F.
#[derive(Debug)]
pub struct Pf4;

impl Sealed for Pf4 {

}

impl PinId for Pf4 {
    open spec fn spec_id() -> DynPinId {
        DynPinId::spec_new(Port::F, 4)
    }

    fn id() -> (id: DynPinId) {
        DynPinId::new_unchecked(Port::F, 4)
    }
}


/// Pin identifier of pin 5 of port F.
#[derive(Debug)]
pub struct Pf5;

impl Sealed for Pf5 {

}

impl PinId for Pf5 {
    open spec fn spec_id() -> DynPinId {
        DynPinId::spec_new(Port::F, 5)
    }

    fn id() -> (id: DynPinId) {
        DynPinId::new_unchecked(Port::F, 5)
    }
}


/// Pin identifier of pin 6 of port F.
#[derive(Debug)]
pub struct Pf6;

impl Sealed for Pf6 {

}

impl PinId for Pf6 {
    open spec fn spec_id() -> DynPinId {
        DynPinId::spec_new(Port::F, 6)
    }

    fn id() -> (id: DynPinId) {
        DynPinId::new_unchecked(Port::F, 6)
    }
}


/// Pin identifier of pin 7 of port F.
#[derive(Debug)]
pub struct Pf7;

impl Sealed for Pf7 {

}

impl PinId for Pf7 {
    open spec fn spec_id() -> DynPinId {
        DynPinId::spec_new(Port::F, 7)
    }

    fn id() -> (id: DynPinId) {
        DynPinId::new_unchecked(Port::F, 7)
    }
}


/// Pin identifier of pin 8 of port F.
#[derive(Debug)]
pub struct Pf8;

impl Sealed for Pf8 {

}

impl PinId for Pf8 {
    open spec fn spec_id() -> DynPinId {
        DynPinId::spec_new(Port::F, 8)
    }

    fn id() -> (id: DynPinId) {
        DynPinId::new_unchecked(Port::F, 8)
    }
}


/// Pin identifier of pin 9 of port F.
#[derive(Debug)]
pub struct Pf9;

impl Sealed for Pf9 {

}

impl PinId for Pf9 {
    open spec fn spec_id() -> DynPinId {
        DynPinId::spec_new(Port::F, 9)
    }

    fn id() -> (id: DynPinId) {
        DynPinId::new_unchecked(Port::F, 9)
    }
}


/// Pin identifier of pin 10 of port F.
#[derive(Debug)]
pub struct Pf10;

impl Sealed for Pf10 {

}

impl PinId for Pf10 {
    open spec fn spec_id() -> DynPinId {
        DynPinId::spec_new(Port::F, 10)
    }

    fn id() -> (id: DynPinId) {
        DynPinId::new_unchecked(Port::F, 10)
    }
}


/// Pin identifier of pin 11 of port F.
#[derive(Debug)]
pub struct Pf11;

impl Sealed for Pf11 {

}

impl PinId for Pf11 {
    open spec fn spec_id() -> DynPinId {
        DynPinId::spec_new(Port::F, 11)
    }

    fn id() -> (id: DynPinId) {
        DynPinId::new_unchecked(Port::F, 11)
    }
}


/// Pin identifier of pin 12 of port F.
#[derive(Debug)]
pub struct Pf12;

impl Sealed for Pf12 {

}

impl PinId for Pf12 {
    open spec fn spec_id() -> DynPinId {
        DynPinId::spec_new(Port::F, 12)
    }

    fn id() -> (id: DynPinId) {
        DynPinId::new_unchecked(Port::F, 12)
    }
}


/// Pin identifier of pin 13 of port F.
#[derive(Debug)]
pub struct Pf13;

impl Sealed for Pf13 {

}

impl PinId for Pf13 {
    open spec fn spec_id() -> DynPinId {
        DynPinId::spec_new(Port::F, 13)
    }

    fn id() -> (id: DynPinId) {
        DynPinId::new_unchecked(Port::F, 13)
    }
}


/// Pin identifier of pin 14 of port F.
#[derive(Debug)]
pub struct Pf14;

impl Sealed for Pf14 {

}

impl PinId for Pf14 {
    open spec fn spec_id() -> DynPinId {
        DynPinId::spec_new(Port::F, 14)
    }

    fn id() -> (id: DynPinId) {
        DynPinId::new_unchecked(Port::F, 14)
    }
}


/// Pin identifier of pin 15 of port F.
#[derive(Debug)]
pub struct Pf15;

impl Sealed for Pf15 {

}

impl PinId for Pf15 {
    open spec fn spec_id() -> DynPinId {
        DynPinId::spec_new(Port::F, 15)
    }

    fn id() -> (id: DynPinId) {
        DynPinId::new_unchecked(Port::F, 15)
    }
}


/// Pin identifier of pin 0 of port G.
#[derive(Debug)]
pub struct Pg0;

impl Sealed for Pg0 {

}

impl PinId for Pg0 {
    open spec fn spec_id() -> DynPinId {
        DynPinId::spec_new(Port::G, 0)
    }

    fn id() -> (id: DynPinId) {
        DynPinId::new_unchecked(Port::G, 0)
    }
}


/// Pin identifier of pin 1 of port G.
#[derive(Debug)]
pub struct Pg1;

impl Sealed for Pg1 {

}

impl PinId for Pg1 {
    open spec fn spec_id() -> DynPinId {
        DynPinId::spec_new(Port::G, 1)
    }

    fn id() -> (id: DynPinId) {
        DynPinId::new_unchecked(Port::G, 1)
    }
}


/// Pin identifier of pin 2 of port G.
#[derive(Debug)]
pub struct Pg2;

impl Sealed for Pg2 {

}

impl PinId for Pg2 {
    open spec fn spec_id() -> DynPinId {
        DynPinId::spec_new(Port::G, 2)
    }

    fn id() -> (id: DynPinId) {
        DynPinId::new_unchecked(Port::G, 2)
    }
}


/// Pin identifier of pin 3 of port G.
#[derive(Debug)]
pub struct Pg3;

impl Sealed for Pg3 {

}

impl PinId for Pg3 {
    open spec fn spec_id() -> DynPinId {
        DynPinId::spec_new(Port::G, 3)
    }

    fn id() -> (id: DynPinId) {
        DynPinId::new_unchecked(Port::G, 3)
    }
}


/// Pin identifier of pin 4 of port G.
#[derive(Debug)]
pub struct Pg4;

impl Sealed for Pg4 {

}

impl PinId for Pg4 {
    open spec fn spec_id() -> DynPinId {
        DynPinId::spec_new(Port::G, 4)
    }

    fn id() -> (id: DynPinId) {
        DynPinId::new_unchecked(Port::G, 4)
    }
}


/// Pin identifier of pin 5 of port G.
#[derive(Debug)]
pub struct Pg5;

impl Sealed for Pg5 {

}

impl PinId for Pg5 {
    open spec fn spec_id() -> DynPinId {
        DynPinId::spec_new(Port::G, 5)
    }

    fn id() -> (id: DynPinId) {
        DynPinId::new_unchecked(Port::G, 5)
    }
}


/// Pin identifier of pin 6 of port G.
#[derive(Debug)]
pub struct Pg6;

impl Sealed for Pg6 {

}

impl PinId for Pg6 {
    open spec fn spec_id() -> DynPinId {
        DynPinId::spec_new(Port::G, 6)
    }

    fn id() -> (id: DynPinId) {
        DynPinId::new_unchecked(Port::G, 6)
    }
}


/// Pin identifier of pin 7 of port G.
#[derive(Debug)]
pub struct Pg7;

impl Sealed for Pg7 {

}

impl PinId for Pg7 {
    open spec fn spec_id() -> DynPinId {
        DynPinId::spec_new(Port::G, 7)
    }

    fn id() -> (id: DynPinId) {
        DynPinId::new_unchecked(Port::G, 7)
    }
}


/// Resource management singleton for GPIO port A.
pub struct PinsA {
    pub pa0: Pin<Pa0>,
    pub pa1: Pin<Pa1>,
    pub pa2: Pin<Pa2>,
    pub pa3: Pin<Pa3>,
    pub pa4: Pin<Pa4>,
    pub pa5: Pin<Pa5>,
    pub pa6: Pin<Pa6>,
    pub pa7: Pin<Pa7>,
    pub pa8: Pin<Pa8>,
    pub pa9: Pin<Pa9>,
    pub pa10: Pin<Pa10>,
    pub pa11: Pin<Pa11>,
    pub pa12: Pin<Pa12>,
    pub pa13: Pin<Pa13>,
    pub pa14: Pin<Pa14>,
    pub pa15: Pin<Pa15>,
}

impl PinsA {
    /// Resets port A, opens its clock gate and that of the pin configuration, and hands
    /// out the tokens of its pins.
    pub fn new(sysconfig: &mut Sysconfig) -> (pins: PinsA)
        ensures
            *final(sysconfig) == spec_port_clocked(*old(sysconfig), PeripheralSelect::PortA),
    {
        reset_peripheral_for_cycles(sysconfig, PeripheralSelect::PortA, 2);
        enable_peripheral_clock(sysconfig, PeripheralSelect::PortA);
        enable_peripheral_clock(sysconfig, PeripheralSelect::IoConfig);
        PinsA {
            pa0: Pin::__new(),
            pa1: Pin::__new(),
            pa2: Pin::__new(),
            pa3: Pin::__new(),
            pa4: Pin::__new(),
            pa5: Pin::__new(),
            pa6: Pin::__new(),
            pa7: Pin::__new(),
            pa8: Pin::__new(),
            pa9: Pin::__new(),
            pa10: Pin::__new(),
            pa11: Pin::__new(),
            pa12: Pin::__new(),
            pa13: Pin::__new(),
            pa14: Pin::__new(),
            pa15: Pin::__new(),
        }
    }
}

/// Resource management singleton for GPIO port B.
pub struct PinsB {
    pub pb0: Pin<Pb0>,
    pub pb1: Pin<Pb1>,
    pub pb2: Pin<Pb2>,
    pub pb3: Pin<Pb3>,
    pub pb4: Pin<Pb4>,
    pub pb5: Pin<Pb5>,
    pub pb6: Pin<Pb6>,
    pub pb7: Pin<Pb7>,
    pub pb8: Pin<Pb8>,
    pub pb9: Pin<Pb9>,
    pub pb10: Pin<Pb10>,
    pub pb11: Pin<Pb11>,
    pub pb12: Pin<Pb12>,
    pub pb13: Pin<Pb13>,
    pub pb14: Pin<Pb14>,
    pub pb15: Pin<Pb15>,
}

impl PinsB {
    /// Resets port B, opens its clock gate and that of the pin configuration, and hands
    /// out the tokens of its pins.
    pub fn new(sysconfig: &mut Sysconfig) -> (pins: PinsB)
        ensures
            *final(sysconfig) == spec_port_clocked(*old(sysconfig), PeripheralSelect::PortB),
    {
        reset_peripheral_for_cycles(sysconfig, PeripheralSelect::PortB, 2);
        enable_peripheral_clock(sysconfig, PeripheralSelect::PortB);
        enable_peripheral_clock(sysconfig, PeripheralSelect::IoConfig);
        PinsB {
            pb0: Pin::__new(),
            pb1: Pin::__new(),
            pb2: Pin::__new(),
            pb3: Pin::__new(),
            pb4: Pin::__new(),
            pb5: Pin::__new(),
            pb6: Pin::__new(),
            pb7: Pin::__new(),
            pb8: Pin::__new(),
            pb9: Pin::__new(),
            pb10: Pin::__new(),
            pb11: Pin::__new(),
            pb12: Pin::__new(),
            pb13: Pin::__new(),
            pb14: Pin::__new(),
            pb15: Pin::__new(),
        }
    }
}

/// Resource management singleton for GPIO port C.
pub struct PinsC {
    pub pc0: Pin<Pc0>,
    pub pc1: Pin<Pc1>,
    pub pc2: Pin<Pc2>,
    pub pc3: Pin<Pc3>,
    pub pc4: Pin<Pc4>,
    pub pc5: Pin<Pc5>,
    pub pc6: Pin<Pc6>,
    pub pc7: Pin<Pc7>,
    pub pc8: Pin<Pc8>,
    pub pc9: Pin<Pc9>,
    pub pc10: Pin<Pc10>,
    pub pc11: Pin<Pc11>,
    pub pc12: Pin<Pc12>,
    pub pc13: Pin<Pc13>,
    pub pc14: Pin<Pc14>,
    pub pc15: Pin<Pc15>,
}

impl PinsC {
    /// Resets port C, opens its clock gate and that of the pin configuration, and hands
    /// out the tokens of its pins.
    pub fn new(sysconfig: &mut Sysconfig) -> (pins: PinsC)
        ensures
            *final(sysconfig) == spec_port_clocked(*old(sysconfig), PeripheralSelect::PortC),
    {
        reset_peripheral_for_cycles(sysconfig, PeripheralSelect::PortC, 2);
        enable_peripheral_clock(sysconfig, PeripheralSelect::PortC);
        enable_peripheral_clock(sysconfig, PeripheralSelect::IoConfig);
        PinsC {
            pc0: Pin::__new(),
            pc1: Pin::__new(),
            pc2: Pin::__new(),
            pc3: Pin::__new(),
            pc4: Pin::__new(),
            pc5: Pin::__new(),
            pc6: Pin::__new(),
            pc7: Pin::__new(),
            pc8: Pin::__new(),
            pc9: Pin::__new(),
            pc10: Pin::__new(),
            pc11: Pin::__new(),
            pc12: Pin::__new(),
            pc13: Pin::__new(),
            pc14: Pin::__new(),
            pc15: Pin::__new(),
        }
    }
}

/// Resource management singleton for GPIO port D.
pub struct PinsD {
    pub pd0: Pin<Pd0>,
    pub pd1: Pin<Pd1>,
    pub pd2: Pin<Pd2>,
    pub pd3: Pin<Pd3>,
    pub pd4: Pin<Pd4>,
    pub pd5: Pin<Pd5>,
    pub pd6: Pin<Pd6>,
    pub pd7: Pin<Pd7>,
    pub pd8: Pin<Pd8>,
    pub pd9: Pin<Pd9>,
    pub pd10: Pin<Pd10>,
    pub pd11: Pin<Pd11>,
    pub pd12: Pin<Pd12>,
    pub pd13: Pin<Pd13>,
    pub pd14: Pin<Pd14>,
    pub pd15: Pin<Pd15>,
}

impl PinsD {
    /// Resets port D, opens its clock gate and that of the pin configuration, and hands
    /// out the tokens of its pins.
    pub fn new(sysconfig: &mut Sysconfig) -> (pins: PinsD)
        ensures
            *final(sysconfig) == spec_port_clocked(*old(sysconfig), PeripheralSelect::PortD),
    {
        reset_peripheral_for_cycles(sysconfig, PeripheralSelect::PortD, 2);
        enable_peripheral_clock(sysconfig, PeripheralSelect::PortD);
        enable_peripheral_clock(sysconfig, PeripheralSelect::IoConfig);
        PinsD {
            pd0: Pin::__new(),
            pd1: Pin::__new(),
            pd2: Pin::__new(),
            pd3: Pin::__new(),
            pd4: Pin::__new(),
            pd5: Pin::__new(),
            pd6: Pin::__new(),
            pd7: Pin::__new(),
            pd8: Pin::__new(),
            pd9: Pin::__new(),
            pd10: Pin::__new(),
            pd11: Pin::__new(),
            pd12: Pin::__new(),
            pd13: Pin::__new(),
            pd14: Pin::__new(),
            pd15: Pin::__new(),
        }
    }
}

/// Resource management singleton for GPIO port E.
pub struct PinsE {
    pub pe0: Pin<Pe0>,
    pub pe1: Pin<Pe1>,
    pub pe2: Pin<Pe2>,
    pub pe3: Pin<Pe3>,
    pub pe4: Pin<Pe4>,
    pub pe5: Pin<Pe5>,
    pub pe6: Pin<Pe6>,
    pub pe7: Pin<Pe7>,
    pub pe8: Pin<Pe8>,
    pub pe9: Pin<Pe9>,
    pub pe10: Pin<Pe10>,
    pub pe11: Pin<Pe11>,
    pub pe12: Pin<Pe12>,
    pub pe13: Pin<Pe13>,
    pub pe14: Pin<Pe14>,
    pub pe15: Pin<Pe15>,
}

impl PinsE {
    /// Resets port E, opens its clock gate and that of the pin configuration, and hands
    /// out the tokens of its pins.
    pub fn new(sysconfig: &mut Sysconfig) -> (pins: PinsE)
        ensures
            *final(sysconfig) == spec_port_clocked(*old(sysconfig), PeripheralSelect::PortE),
    {
        reset_peripheral_for_cycles(sysconfig, PeripheralSelect::PortE, 2);
        enable_peripheral_clock(sysconfig, PeripheralSelect::PortE);
        enable_peripheral_clock(sysconfig, PeripheralSelect::IoConfig);
        PinsE {
            pe0: Pin::__new(),
            pe1: Pin::__new(),
            pe2: Pin::__new(),
            pe3: Pin::__new(),
            pe4: Pin::__new(),
            pe5: Pin::__new(),
            pe6: Pin::__new(),
            pe7: Pin::__new(),
            pe8: Pin::__new(),
            pe9: Pin::__new(),
            pe10: Pin::__new(),
            pe11: Pin::__new(),
            pe12: Pin::__new(),
            pe13: Pin::__new(),
            pe14: Pin::__new(),
            pe15: Pin::__new(),
        }
    }
}

/// Resource management singleton for GPIO port F.
pub struct PinsF {
    pub pf0: Pin<Pf0>,
    pub pf1: Pin<Pf1>,
    pub pf2: Pin<Pf2>,
    pub pf3: Pin<Pf3>,
    pub pf4: Pin<Pf4>,
    pub pf5: Pin<Pf5>,
    pub pf6: Pin<Pf6>,
    pub pf7: Pin<Pf7>,
    pub pf8: Pin<Pf8>,
    pub pf9: Pin<Pf9>,
    pub pf10: Pin<Pf10>,
    pub pf11: Pin<Pf11>,
    pub pf12: Pin<Pf12>,
    pub pf13: Pin<Pf13>,
    pub pf14: Pin<Pf14>,
    pub pf15: Pin<Pf15>,
}

impl PinsF {
    /// Resets port F, opens its clock gate and that of the pin configuration, and hands
    /// out the tokens of its pins.
    pub fn new(sysconfig: &mut Sysconfig) -> (pins: PinsF)
        ensures
            *final(sysconfig) == spec_port_clocked(*old(sysconfig), PeripheralSelect::PortF),
    {
        reset_peripheral_for_cycles(sysconfig, PeripheralSelect::PortF, 2);
        enable_peripheral_clock(sysconfig, PeripheralSelect::PortF);
        enable_peripheral_clock(sysconfig, PeripheralSelect::IoConfig);
        PinsF {
            pf0: Pin::__new(),
            pf1: Pin::__new(),
            pf2: Pin::__new(),
            pf3: Pin::__new(),
            pf4: Pin::__new(),
            pf5: Pin::__new(),
            pf6: Pin::__new(),
            pf7: Pin::__new(),
            pf8: Pin::__new(),
            pf9: Pin::__new(),
            pf10: Pin::__new(),
            pf11: Pin::__new(),
            pf12: Pin::__new(),
            pf13: Pin::__new(),
            pf14: Pin::__new(),
            pf15: Pin::__new(),
        }
    }
}

/// Resource management singleton for GPIO port G.
pub struct PinsG {
    pub pg0: Pin<Pg0>,
    pub pg1: Pin<Pg1>,
    pub pg2: Pin<Pg2>,
    pub pg3: Pin<Pg3>,
    pub pg4: Pin<Pg4>,
    pub pg5: Pin<Pg5>,
    pub pg6: Pin<Pg6>,
    pub pg7: Pin<Pg7>,
}

impl PinsG {
    /// Resets port G, opens its clock gate and that of the pin configuration, and hands
    /// out the tokens of its pins.
    pub fn new(sysconfig: &mut Sysconfig) -> (pins: PinsG)
        ensures
            *final(sysconfig) == spec_port_clocked(*old(sysconfig), PeripheralSelect::PortG),
    {
        reset_peripheral_for_cycles(sysconfig, PeripheralSelect::PortG, 2);
        enable_peripheral_clock(sysconfig, PeripheralSelect::PortG);
        enable_peripheral_clock(sysconfig, PeripheralSelect::IoConfig);
        PinsG {
            pg0: Pin::__new(),
            pg1: Pin::__new(),
            pg2: Pin::__new(),
            pg3: Pin::__new(),
            pg4: Pin::__new(),
            pg5: Pin::__new(),
            pg6: Pin::__new(),
            pg7: Pin::__new(),
        }
    }
}

} // verus!
