//! The registers of a GPIO port.
use crate::Port;
use vstd::prelude::*;

verus! {

/// Address of the registers of port A.
pub const GPIO_0_BASE: usize = 0x4001_2000;

/// Address of the registers of port B.
pub const GPIO_1_BASE: usize = 0x4001_2400;

/// Address of the registers of port C.
pub const GPIO_2_BASE: usize = 0x4001_2800;

/// Address of the registers of port D.
pub const GPIO_3_BASE: usize = 0x4001_2C00;

/// Address of the registers of port E.
pub const GPIO_4_BASE: usize = 0x4001_3000;

/// Address of the registers of port F.
pub const GPIO_5_BASE: usize = 0x4001_3400;

/// Address of the registers of port G.
pub const GPIO_6_BASE: usize = 0x4001_3800;

/// What the peripheral ID register of a GPIO port reads.
pub const GPIO_PERID: u32 = 0x0210_07E9;

/// The registers of one GPIO port. Bit `n` of each register belongs to pin `n`.
///
/// The three registers `set_out`, `clr_out` and `tog_out` are written only: the bits
/// that are written as 1 set, clear or toggle the pins of the output register, and the
/// register keeps what was written last.
///
/// The value knows which port it stands for by the address of the registers of the
/// port.
#[derive(Debug, Clone, Copy, PartialEq, Eq, Structural)]
pub struct Gpio {
    /// The address of the registers.
    pub base: usize,
    pub data_in: u32,
    pub data_in_raw: u32,
    pub data_out: u32,
    pub data_out_raw: u32,
    pub set_out: u32,
    pub clr_out: u32,
    pub tog_out: u32,
    pub data_mask: u32,
    /// Direction bits: 1 for output, 0 for input.
    pub dir: u32,
    pub pulse: u32,
    pub pulsebase: u32,
    pub delay1: u32,
    pub delay2: u32,
    pub irq_sen: u32,
    pub irq_edge: u32,
    pub irq_evt: u32,
    pub irq_enable: u32,
    /// Raw interrupt status. It is not latched and may not show edges.
    pub irq_raw: u32,
    /// The interrupts that are enabled and active.
    pub irq_status: u32,
    pub edge_status: u32,
    pub perid: u32,
}

impl Gpio {
    /// The registers at the address `base` as they are after a reset: all clear.
    pub open spec fn spec_reset_state(base: usize) -> Gpio {
        Gpio {
            base,
            data_in: 0,
            data_in_raw: 0,
            data_out: 0,
            data_out_raw: 0,
            set_out: 0,
            clr_out: 0,
            tog_out: 0,
            data_mask: 0,
            dir: 0,
            pulse: 0,
            pulsebase: 0,
            delay1: 0,
            delay2: 0,
            irq_sen: 0,
            irq_edge: 0,
            irq_evt: 0,
            irq_enable: 0,
            irq_raw: 0,
            irq_status: 0,
            edge_status: 0,
            perid: GPIO_PERID,
        }
    }

    /// The address of the registers of the port `port`.
    pub open spec fn spec_base_address(port: Port) -> usize {
        match port {
            Port::A => GPIO_0_BASE,
            Port::B => GPIO_1_BASE,
            Port::C => GPIO_2_BASE,
            Port::D => GPIO_3_BASE,
            Port::E => GPIO_4_BASE,
            Port::F => GPIO_5_BASE,
            Port::G => GPIO_6_BASE,
        }
    }

    /// The registers of the port `port` as they are after a reset.
    pub fn new_mmio(port: Port) -> (gpio: Gpio)
        ensures
            gpio == Self::spec_reset_state(Self::spec_base_address(port)),
            gpio.spec_port() == Some(port),
    {
        proof {
            Self::lemma_each_port_has_its_own_registers(port, port);
        }
        Self::new_mmio_at(Self::base_address(port))
    }

    fn new_mmio_at(base: usize) -> (gpio: Gpio)
        ensures
            gpio == Self::spec_reset_state(base),
    {
        Gpio {
            base,
            data_in: 0,
            data_in_raw: 0,
            data_out: 0,
            data_out_raw: 0,
            set_out: 0,
            clr_out: 0,
            tog_out: 0,
            data_mask: 0,
            dir: 0,
            pulse: 0,
            pulsebase: 0,
            delay1: 0,
            delay2: 0,
            irq_sen: 0,
            irq_edge: 0,
            irq_evt: 0,
            irq_enable: 0,
            irq_raw: 0,
            irq_status: 0,
            edge_status: 0,
            perid: GPIO_PERID,
        }
    }

    /// The address of the registers of the port `port`.
    #[verifier::when_used_as_spec(spec_base_address)]
    pub fn base_address(port: Port) -> (addr: usize)
        ensures
            addr == Self::spec_base_address(port),
    {
        match port {
            Port::A => GPIO_0_BASE,
            Port::B => GPIO_1_BASE,
            Port::C => GPIO_2_BASE,
            Port::D => GPIO_3_BASE,
            Port::E => GPIO_4_BASE,
            Port::F => GPIO_5_BASE,
            Port::G => GPIO_6_BASE,
        }
    }

    /// The port whose registers are at the address `base`, if it is the address of a
    /// port.
    pub open spec fn spec_port_at(base: usize) -> Option<Port> {
        if base == GPIO_0_BASE {
            Some(Port::A)
        } else if base == GPIO_1_BASE {
            Some(Port::B)
        } else if base == GPIO_2_BASE {
            Some(Port::C)
        } else if base == GPIO_3_BASE {
            Some(Port::D)
        } else if base == GPIO_4_BASE {
            Some(Port::E)
        } else if base == GPIO_5_BASE {
            Some(Port::F)
        } else if base == GPIO_6_BASE {
            Some(Port::G)
        } else {
            None
        }
    }

    /// The port that the registers belong to, if their address is that of a port.
    pub open spec fn spec_port(&self) -> Option<Port> {
        Self::spec_port_at(self.base)
    }

    /// The port that the registers belong to, if their address is that of a port.
    #[verifier::when_used_as_spec(spec_port)]
    pub fn port(&self) -> (port: Option<Port>)
        ensures
            port == self.spec_port(),
            port matches Some(p) ==> Self::spec_base_address(p) == self.base,
            port.is_none() ==> forall|p: Port| Self::spec_base_address(p) != self.base,
    {
        let base = self.base;
        if base == GPIO_0_BASE {
            Some(Port::A)
        } else if base == GPIO_1_BASE {
            Some(Port::B)
        } else if base == GPIO_2_BASE {
            Some(Port::C)
        } else if base == GPIO_3_BASE {
            Some(Port::D)
        } else if base == GPIO_4_BASE {
            Some(Port::E)
        } else if base == GPIO_5_BASE {
            Some(Port::F)
        } else if base == GPIO_6_BASE {
            Some(Port::G)
        } else {
            None
        }
    }

    /// Each port has registers of its own: the registers of two ports are at one
    /// address only if the ports are one, and the port of an address of a port is
    /// that port. The registers of the ports follow each other at a distance of 0x400.
    pub proof fn lemma_each_port_has_its_own_registers(p: Port, q: Port)
        ensures
            Self::spec_base_address(p) == Self::spec_base_address(q) ==> p == q,
            Self::spec_port_at(Self::spec_base_address(p)) == Some(p),
            Self::spec_base_address(p) == GPIO_0_BASE + 0x400 * p.index(),
    {
    }

    /// Reads the levels of the pins.
    pub fn read_data_in(&self) -> (value: u32)
        ensures
            value == self.data_in,
    {
        self.data_in
    }

    /// Reads the output register.
    pub fn read_data_out(&self) -> (value: u32)
        ensures
            value == self.data_out,
    {
        self.data_out
    }

    /// Writes the set register: the pins of `mask` go high in the output register.
    pub fn write_set_out(&mut self, mask: u32)
        ensures
            *final(self) == (Gpio { set_out: mask, data_out: old(self).data_out | mask, ..*old(self) }),
    {
        self.set_out = mask;
        self.data_out = self.data_out | mask;
    }

    /// Writes the clear register: the pins of `mask` go low in the output register.
    pub fn write_clr_out(&mut self, mask: u32)
        ensures
            *final(self) == (Gpio { clr_out: mask, data_out: old(self).data_out & !mask, ..*old(self) }),
    {
        self.clr_out = mask;
        self.data_out = self.data_out & !mask;
    }

    /// Writes the toggle register: the pins of `mask` change in the output register.
    pub fn write_tog_out(&mut self, mask: u32)
        ensures
            *final(self) == (Gpio { tog_out: mask, data_out: old(self).data_out ^ mask, ..*old(self) }),
    {
        self.tog_out = mask;
        self.data_out = self.data_out ^ mask;
    }

    /// Reads the interrupt enable register.
    pub fn read_irq_enable(&self) -> (value: u32)
        ensures
            value == self.irq_enable,
    {
        self.irq_enable
    }

    /// Reads the edge status register: the pins on which an edge was seen.
    pub fn read_edge_status(&self) -> (value: u32)
        ensures
            value == self.edge_status,
    {
        self.edge_status
    }

    /// Reads the peripheral ID.
    pub fn read_perid(&self) -> (value: u32)
        ensures
            value == self.perid,
    {
        self.perid
    }
}

} // verus!
