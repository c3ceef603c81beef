//! The registers of an SPI peripheral.
use crate::bits::{
    get_bit, get_field, lemma_bit_and_field, lemma_field_bound, lemma_set_bit_get_bit,
    lemma_set_field_get_field, lemma_set_field_keeps_field, set_bit, set_field, spec_get_bit,
    spec_get_field, spec_set_bit, spec_set_field,
};
pub use crate::{FifoClear, TriggerLevel};
use vstd::prelude::*;

verus! {

/// Address of the registers of SPI 0.
pub const BASE_ADDR_0: usize = 0x4001_5000;

/// Address of the registers of SPI 1.
pub const BASE_ADDR_1: usize = 0x4001_5400;

/// Address of the registers of SPI 2.
pub const BASE_ADDR_2: usize = 0x4001_5800;

/// Address of the registers of SPI 3.
pub const BASE_ADDR_3: usize = 0x4001_5C00;

/// What the peripheral ID register of an SPI peripheral reads.
pub const SPI_PERID: u32 = 0x0213_07E9;

/// One of the four SPI peripherals.
#[derive(Debug, PartialEq, Eq, Clone, Copy, Structural)]
pub enum Bank {
    Spi0,
    Spi1,
    Spi2,
    Spi3,
}

impl Bank {
    /// The address at which the driver looks for the registers of the peripheral. For
    /// SPI 3 it is that of SPI 2.
    pub open spec fn spec_base_address(&self) -> usize {
        match self {
            Bank::Spi0 => BASE_ADDR_0,
            Bank::Spi1 => BASE_ADDR_1,
            Bank::Spi2 => BASE_ADDR_2,
            Bank::Spi3 => BASE_ADDR_2,
        }
    }

    /// The address at which the driver looks for the registers of the peripheral. For
    /// SPI 3 it is that of SPI 2.
    #[verifier::when_used_as_spec(spec_base_address)]
    pub fn base_address(&self) -> (addr: usize)
        ensures
            addr == self.spec_base_address(),
    {
        match self {
            Bank::Spi0 => BASE_ADDR_0,
            Bank::Spi1 => BASE_ADDR_1,
            Bank::Spi2 => BASE_ADDR_2,
            Bank::Spi3 => BASE_ADDR_2,
        }
    }

    /// The peripheral as it is after a reset.
    pub fn steal_regs(&self) -> (spi: Spi)
        ensures
            spi@ == Spi::spec_reset_state(self.spec_base_address()),
    {
        Spi::new_mmio(*self)
    }
}

/// Number of bits of a word.
#[derive(Debug, Clone, Copy, PartialEq, Eq, Structural)]
pub enum WordSize {
    OneBit,
    FourBits,
    EightBits,
    SixteenBits,
}

impl WordSize {
    /// The bits that stand for the variant in a register.
    #[verifier::allow_in_spec]
    pub fn raw_value(self) -> u32
        returns
            (match self {
                WordSize::OneBit => 0x00u32,
                WordSize::FourBits => 0x03u32,
                WordSize::EightBits => 0x07u32,
                WordSize::SixteenBits => 0x0fu32,
            }),
    {
        match self {
            WordSize::OneBit => 0x00,
            WordSize::FourBits => 0x03,
            WordSize::EightBits => 0x07,
            WordSize::SixteenBits => 0x0f,
        }
    }

    /// The variant that the bits `raw` stand for, if they stand for one.
    #[verifier::allow_in_spec]
    pub fn from_bits(raw: u32) -> Option<WordSize>
        returns
            (if raw == 0x00 {
                Some(WordSize::OneBit)
            } else if raw == 0x03 {
                Some(WordSize::FourBits)
            } else if raw == 0x07 {
                Some(WordSize::EightBits)
            } else if raw == 0x0f {
                Some(WordSize::SixteenBits)
            } else {
                None
            }),
    {
        if raw == 0x00 {
            Some(WordSize::OneBit)
        } else if raw == 0x03 {
            Some(WordSize::FourBits)
        } else if raw == 0x07 {
            Some(WordSize::EightBits)
        } else if raw == 0x0f {
            Some(WordSize::SixteenBits)
        } else {
            None
        }
    }

    /// Each variant is found again from its bits, which fit in the field.
    pub proof fn lemma_round_trip(self)
        ensures
            WordSize::from_bits(self.raw_value()) == Some(self),
            self.raw_value() < 16,
    {
    }
}

/// One of the eight chip select lines that the hardware drives.
#[derive(Debug, Clone, Copy, PartialEq, Eq, Structural)]
pub enum HwChipSelectId {
    Id0,
    Id1,
    Id2,
    Id3,
    Id4,
    Id5,
    Id6,
    Id7,
}

impl HwChipSelectId {
    /// The bits that stand for the variant in a register.
    #[verifier::allow_in_spec]
    pub fn raw_value(self) -> u32
        returns
            (match self {
                HwChipSelectId::Id0 => 0u32,
                HwChipSelectId::Id1 => 1u32,
                HwChipSelectId::Id2 => 2u32,
                HwChipSelectId::Id3 => 3u32,
                HwChipSelectId::Id4 => 4u32,
                HwChipSelectId::Id5 => 5u32,
                HwChipSelectId::Id6 => 6u32,
                HwChipSelectId::Id7 => 7u32,
            }),
    {
        match self {
            HwChipSelectId::Id0 => 0,
            HwChipSelectId::Id1 => 1,
            HwChipSelectId::Id2 => 2,
            HwChipSelectId::Id3 => 3,
            HwChipSelectId::Id4 => 4,
            HwChipSelectId::Id5 => 5,
            HwChipSelectId::Id6 => 6,
            HwChipSelectId::Id7 => 7,
        }
    }

    /// The variant that the bits `raw` stand for. Of `raw`, the low 3 bits count.
    #[verifier::allow_in_spec]
    pub fn from_bits(raw: u32) -> HwChipSelectId
        returns
            (if raw == 0 {
                HwChipSelectId::Id0
            } else if raw == 1 {
                HwChipSelectId::Id1
            } else if raw == 2 {
                HwChipSelectId::Id2
            } else if raw == 3 {
                HwChipSelectId::Id3
            } else if raw == 4 {
                HwChipSelectId::Id4
            } else if raw == 5 {
                HwChipSelectId::Id5
            } else if raw == 6 {
                HwChipSelectId::Id6
            } else {
                HwChipSelectId::Id7
            }),
    {
        if raw == 0 {
            HwChipSelectId::Id0
        } else if raw == 1 {
            HwChipSelectId::Id1
        } else if raw == 2 {
            HwChipSelectId::Id2
        } else if raw == 3 {
            HwChipSelectId::Id3
        } else if raw == 4 {
            HwChipSelectId::Id4
        } else if raw == 5 {
            HwChipSelectId::Id5
        } else if raw == 6 {
            HwChipSelectId::Id6
        } else {
            HwChipSelectId::Id7
        }
    }

    /// Each variant is found again from its bits, which fit in the field.
    pub proof fn lemma_round_trip(self)
        ensures
            HwChipSelectId::from_bits(self.raw_value()) == self,
            self.raw_value() < 8,
    {
    }
}

/// The first control register of an SPI peripheral.
#[derive(Debug, Clone, Copy, PartialEq, Eq, Structural)]
pub struct Control0 {
    pub raw: u32,
}

impl Control0 {
    /// The register value with the bits `raw`.
    #[verifier::allow_in_spec]
    pub fn new_with_raw_value(raw: u32) -> Control0
        returns
            (Control0 { raw }),
    {
        Control0 { raw }
    }

    /// The bits of the register value.
    #[verifier::allow_in_spec]
    pub fn raw_value(&self) -> u32
        returns
            self.raw,
    {
        self.raw
    }

    /// The clock divider after the prescaler, less one.
    #[verifier::allow_in_spec]
    pub fn scrdv(&self) -> u8
        returns
            spec_get_field(self.raw, 8, 8) as u8,
    {
        proof {
            lemma_field_bound(self.raw, 8, 8);
        }
        get_field(self.raw, 8, 8) as u8
    }

    /// The same value with `scrdv` replaced by `v`.
    #[verifier::allow_in_spec]
    pub fn with_scrdv(self, v: u8) -> Control0
        returns
            (Control0 { raw: spec_set_field(self.raw, 8, 8, v as u32) }),
    {
        Control0 { raw: set_field(self.raw, 8, 8, v as u32) }
    }

    /// The clock phase.
    #[verifier::allow_in_spec]
    pub fn sph(&self) -> bool
        returns
            spec_get_bit(self.raw, 7),
    {
        get_bit(self.raw, 7)
    }

    /// The same value with `sph` replaced by `v`.
    #[verifier::allow_in_spec]
    pub fn with_sph(self, v: bool) -> Control0
        returns
            (Control0 { raw: spec_set_bit(self.raw, 7, v) }),
    {
        Control0 { raw: set_bit(self.raw, 7, v) }
    }

    /// The clock polarity.
    #[verifier::allow_in_spec]
    pub fn spo(&self) -> bool
        returns
            spec_get_bit(self.raw, 6),
    {
        get_bit(self.raw, 6)
    }

    /// The same value with `spo` replaced by `v`.
    #[verifier::allow_in_spec]
    pub fn with_spo(self, v: bool) -> Control0
        returns
            (Control0 { raw: spec_set_bit(self.raw, 6, v) }),
    {
        Control0 { raw: set_bit(self.raw, 6, v) }
    }

    /// Number of bits of a word.
    #[verifier::allow_in_spec]
    pub fn word_size(&self) -> Option<WordSize>
        returns
            (WordSize::from_bits(spec_get_field(self.raw, 0, 4))),
    {
        WordSize::from_bits(get_field(self.raw, 0, 4))
    }

    /// The same value with `word_size` replaced by `v`.
    #[verifier::allow_in_spec]
    pub fn with_word_size(self, v: WordSize) -> Control0
        returns
            (Control0 { raw: spec_set_field(self.raw, 0, 4, v.raw_value()) }),
    {
        Control0 { raw: set_field(self.raw, 0, 4, v.raw_value()) }
    }

    /// After `scrdv` is set, it reads as what was set and every other field as before.
    pub proof fn lemma_with_scrdv(self, v: u8)
        requires
            v < 256,
        ensures
            self.with_scrdv(v).scrdv() == v,
            self.with_scrdv(v).sph() == self.sph(),
            self.with_scrdv(v).spo() == self.spo(),
            self.with_scrdv(v).word_size() == self.word_size(),
    {
        lemma_field_bound(self.raw, 8, 8);
        lemma_set_field_get_field(self.raw, 8, 8, v as u32);
        lemma_bit_and_field(self.raw, 7, true, 8, 8, v as u32);
        lemma_bit_and_field(self.raw, 6, true, 8, 8, v as u32);
        lemma_set_field_keeps_field(self.raw, 8, 8, v as u32, 0, 4);
    }

    /// After `sph` is set, it reads as what was set and every other field as before.
    pub proof fn lemma_with_sph(self, v: bool)
        ensures
            self.with_sph(v).scrdv() == self.scrdv(),
            self.with_sph(v).sph() == v,
            self.with_sph(v).spo() == self.spo(),
            self.with_sph(v).word_size() == self.word_size(),
    {
        lemma_bit_and_field(self.raw, 7, v, 8, 8, 0);
        lemma_set_bit_get_bit(self.raw, 7, v, 7);
        lemma_set_bit_get_bit(self.raw, 7, v, 6);
        lemma_bit_and_field(self.raw, 7, v, 0, 4, 0);
    }

    /// After `spo` is set, it reads as what was set and every other field as before.
    pub proof fn lemma_with_spo(self, v: bool)
        ensures
            self.with_spo(v).scrdv() == self.scrdv(),
            self.with_spo(v).sph() == self.sph(),
            self.with_spo(v).spo() == v,
            self.with_spo(v).word_size() == self.word_size(),
    {
        lemma_bit_and_field(self.raw, 6, v, 8, 8, 0);
        lemma_set_bit_get_bit(self.raw, 6, v, 7);
        lemma_set_bit_get_bit(self.raw, 6, v, 6);
        lemma_bit_and_field(self.raw, 6, v, 0, 4, 0);
    }

    /// After `word_size` is set, it reads as what was set and every other field as before.
    pub proof fn lemma_with_word_size(self, v: WordSize)
        ensures
            self.with_word_size(v).scrdv() == self.scrdv(),
            self.with_word_size(v).sph() == self.sph(),
            self.with_word_size(v).spo() == self.spo(),
            self.with_word_size(v).word_size() == Some(v),
    {
        v.lemma_round_trip();
        lemma_field_bound(self.raw, 0, 4);
        lemma_set_field_keeps_field(self.raw, 0, 4, v.raw_value(), 8, 8);
        lemma_bit_and_field(self.raw, 7, true, 0, 4, v.raw_value());
        lemma_bit_and_field(self.raw, 6, true, 0, 4, v.raw_value());
        lemma_set_field_get_field(self.raw, 0, 4, v.raw_value());
    }
}

/// The second control register of an SPI peripheral.
#[derive(Debug, Clone, Copy, PartialEq, Eq, Structural)]
pub struct Control1 {
    pub raw: u32,
}

impl Control1 {
    /// The register value with the bits `raw`.
    #[verifier::allow_in_spec]
    pub fn new_with_raw_value(raw: u32) -> Control1
        returns
            (Control1 { raw }),
    {
        Control1 { raw }
    }

    /// The bits of the register value.
    #[verifier::allow_in_spec]
    pub fn raw_value(&self) -> u32
        returns
            self.raw,
    {
        self.raw
    }

    /// Pauses the transmitter while the FIFO is filled.
    #[verifier::allow_in_spec]
    pub fn mtxpause(&self) -> bool
        returns
            spec_get_bit(self.raw, 11),
    {
        get_bit(self.raw, 11)
    }

    /// The same value with `mtxpause` replaced by `v`.
    #[verifier::allow_in_spec]
    pub fn with_mtxpause(self, v: bool) -> Control1
        returns
            (Control1 { raw: spec_set_bit(self.raw, 11, v) }),
    {
        Control1 { raw: set_bit(self.raw, 11, v) }
    }

    /// Master delayed capture mode.
    #[verifier::allow_in_spec]
    pub fn mdlycap(&self) -> bool
        returns
            spec_get_bit(self.raw, 10),
    {
        get_bit(self.raw, 10)
    }

    /// The same value with `mdlycap` replaced by `v`.
    #[verifier::allow_in_spec]
    pub fn with_mdlycap(self, v: bool) -> Control1
        returns
            (Control1 { raw: spec_set_bit(self.raw, 10, v) }),
    {
        Control1 { raw: set_bit(self.raw, 10, v) }
    }

    /// In block mode, the clock stalls while the FIFO is empty.
    #[verifier::allow_in_spec]
    pub fn bm_stall(&self) -> bool
        returns
            spec_get_bit(self.raw, 9),
    {
        get_bit(self.raw, 9)
    }

    /// The same value with `bm_stall` replaced by `v`.
    #[verifier::allow_in_spec]
    pub fn with_bm_stall(self, v: bool) -> Control1
        returns
            (Control1 { raw: spec_set_bit(self.raw, 9, v) }),
    {
        Control1 { raw: set_bit(self.raw, 9, v) }
    }

    /// Bit 8 of the register.
    #[verifier::allow_in_spec]
    pub fn bm_start(&self) -> bool
        returns
            spec_get_bit(self.raw, 8),
    {
        get_bit(self.raw, 8)
    }

    /// The same value with `bm_start` replaced by `v`.
    #[verifier::allow_in_spec]
    pub fn with_bm_start(self, v: bool) -> Control1
        returns
            (Control1 { raw: spec_set_bit(self.raw, 8, v) }),
    {
        Control1 { raw: set_bit(self.raw, 8, v) }
    }

    /// All words of the FIFO are sent in one frame, until a word has the stop bit.
    #[verifier::allow_in_spec]
    pub fn blockmode(&self) -> bool
        returns
            spec_get_bit(self.raw, 7),
    {
        get_bit(self.raw, 7)
    }

    /// The same value with `blockmode` replaced by `v`.
    #[verifier::allow_in_spec]
    pub fn with_blockmode(self, v: bool) -> Control1
        returns
            (Control1 { raw: spec_set_bit(self.raw, 7, v) }),
    {
        Control1 { raw: set_bit(self.raw, 7, v) }
    }

    /// The chip select line.
    #[verifier::allow_in_spec]
    pub fn ss(&self) -> HwChipSelectId
        returns
            (HwChipSelectId::from_bits(spec_get_field(self.raw, 4, 3))),
    {
        HwChipSelectId::from_bits(get_field(self.raw, 4, 3))
    }

    /// The same value with `ss` replaced by `v`.
    #[verifier::allow_in_spec]
    pub fn with_ss(self, v: HwChipSelectId) -> Control1
        returns
            (Control1 { raw: spec_set_field(self.raw, 4, 3, v.raw_value()) }),
    {
        Control1 { raw: set_field(self.raw, 4, 3, v.raw_value()) }
    }

    /// Slave output disable.
    #[verifier::allow_in_spec]
    pub fn sod(&self) -> bool
        returns
            spec_get_bit(self.raw, 3),
    {
        get_bit(self.raw, 3)
    }

    /// The same value with `sod` replaced by `v`.
    #[verifier::allow_in_spec]
    pub fn with_sod(self, v: bool) -> Control1
        returns
            (Control1 { raw: spec_set_bit(self.raw, 3, v) }),
    {
        Control1 { raw: set_bit(self.raw, 3, v) }
    }

    /// Bit 2 of the register.
    #[verifier::allow_in_spec]
    pub fn slave_mode(&self) -> bool
        returns
            spec_get_bit(self.raw, 2),
    {
        get_bit(self.raw, 2)
    }

    /// The same value with `slave_mode` replaced by `v`.
    #[verifier::allow_in_spec]
    pub fn with_slave_mode(self, v: bool) -> Control1
        returns
            (Control1 { raw: spec_set_bit(self.raw, 2, v) }),
    {
        Control1 { raw: set_bit(self.raw, 2, v) }
    }

    /// Whether the peripheral is enabled.
    #[verifier::allow_in_spec]
    pub fn enable(&self) -> bool
        returns
            spec_get_bit(self.raw, 1),
    {
        get_bit(self.raw, 1)
    }

    /// The same value with `enable` replaced by `v`.
    #[verifier::allow_in_spec]
    pub fn with_enable(self, v: bool) -> Control1
        returns
            (Control1 { raw: spec_set_bit(self.raw, 1, v) }),
    {
        Control1 { raw: set_bit(self.raw, 1, v) }
    }

    /// Loopback mode.
    #[verifier::allow_in_spec]
    pub fn lbm(&self) -> bool
        returns
            spec_get_bit(self.raw, 0),
    {
        get_bit(self.raw, 0)
    }

    /// The same value with `lbm` replaced by `v`.
    #[verifier::allow_in_spec]
    pub fn with_lbm(self, v: bool) -> Control1
        returns
            (Control1 { raw: spec_set_bit(self.raw, 0, v) }),
    {
        Control1 { raw: set_bit(self.raw, 0, v) }
    }

    /// After `mtxpause` is set, it reads as what was set and every other field as before.
    pub proof fn lemma_with_mtxpause(self, v: bool)
        ensures
            self.with_mtxpause(v).mtxpause() == v,
            self.with_mtxpause(v).mdlycap() == self.mdlycap(),
            self.with_mtxpause(v).bm_stall() == self.bm_stall(),
            self.with_mtxpause(v).bm_start() == self.bm_start(),
            self.with_mtxpause(v).blockmode() == self.blockmode(),
            self.with_mtxpause(v).ss() == self.ss(),
            self.with_mtxpause(v).sod() == self.sod(),
            self.with_mtxpause(v).slave_mode() == self.slave_mode(),
            self.with_mtxpause(v).enable() == self.enable(),
            self.with_mtxpause(v).lbm() == self.lbm(),
    {
        lemma_set_bit_get_bit(self.raw, 11, v, 11);
        lemma_set_bit_get_bit(self.raw, 11, v, 10);
        lemma_set_bit_get_bit(self.raw, 11, v, 9);
        lemma_set_bit_get_bit(self.raw, 11, v, 8);
        lemma_set_bit_get_bit(self.raw, 11, v, 7);
        lemma_bit_and_field(self.raw, 11, v, 4, 3, 0);
        lemma_set_bit_get_bit(self.raw, 11, v, 3);
        lemma_set_bit_get_bit(self.raw, 11, v, 2);
        lemma_set_bit_get_bit(self.raw, 11, v, 1);
        lemma_set_bit_get_bit(self.raw, 11, v, 0);
    }

    /// After `mdlycap` is set, it reads as what was set and every other field as before.
    pub proof fn lemma_with_mdlycap(self, v: bool)
        ensures
            self.with_mdlycap(v).mtxpause() == self.mtxpause(),
            self.with_mdlycap(v).mdlycap() == v,
            self.with_mdlycap(v).bm_stall() == self.bm_stall(),
            self.with_mdlycap(v).bm_start() == self.bm_start(),
            self.with_mdlycap(v).blockmode() == self.blockmode(),
            self.with_mdlycap(v).ss() == self.ss(),
            self.with_mdlycap(v).sod() == self.sod(),
            self.with_mdlycap(v).slave_mode() == self.slave_mode(),
            self.with_mdlycap(v).enable() == self.enable(),
            self.with_mdlycap(v).lbm() == self.lbm(),
    {
        lemma_set_bit_get_bit(self.raw, 10, v, 11);
        lemma_set_bit_get_bit(self.raw, 10, v, 10);
        lemma_set_bit_get_bit(self.raw, 10, v, 9);
        lemma_set_bit_get_bit(self.raw, 10, v, 8);
        lemma_set_bit_get_bit(self.raw, 10, v, 7);
        lemma_bit_and_field(self.raw, 10, v, 4, 3, 0);
        lemma_set_bit_get_bit(self.raw, 10, v, 3);
        lemma_set_bit_get_bit(self.raw, 10, v, 2);
        lemma_set_bit_get_bit(self.raw, 10, v, 1);
        lemma_set_bit_get_bit(self.raw, 10, v, 0);
    }

    /// After `bm_stall` is set, it reads as what was set and every other field as before.
    pub proof fn lemma_with_bm_stall(self, v: bool)
        ensures
            self.with_bm_stall(v).mtxpause() == self.mtxpause(),
            self.with_bm_stall(v).mdlycap() == self.mdlycap(),
            self.with_bm_stall(v).bm_stall() == v,
            self.with_bm_stall(v).bm_start() == self.bm_start(),
            self.with_bm_stall(v).blockmode() == self.blockmode(),
            self.with_bm_stall(v).ss() == self.ss(),
            self.with_bm_stall(v).sod() == self.sod(),
            self.with_bm_stall(v).slave_mode() == self.slave_mode(),
            self.with_bm_stall(v).enable() == self.enable(),
            self.with_bm_stall(v).lbm() == self.lbm(),
    {
        lemma_set_bit_get_bit(self.raw, 9, v, 11);
        lemma_set_bit_get_bit(self.raw, 9, v, 10);
        lemma_set_bit_get_bit(self.raw, 9, v, 9);
        lemma_set_bit_get_bit(self.raw, 9, v, 8);
        lemma_set_bit_get_bit(self.raw, 9, v, 7);
        lemma_bit_and_field(self.raw, 9, v, 4, 3, 0);
        lemma_set_bit_get_bit(self.raw, 9, v, 3);
        lemma_set_bit_get_bit(self.raw, 9, v, 2);
        lemma_set_bit_get_bit(self.raw, 9, v, 1);
        lemma_set_bit_get_bit(self.raw, 9, v, 0);
    }

    /// After `bm_start` is set, it reads as what was set and every other field as before.
    pub proof fn lemma_with_bm_start(self, v: bool)
        ensures
            self.with_bm_start(v).mtxpause() == self.mtxpause(),
            self.with_bm_start(v).mdlycap() == self.mdlycap(),
            self.with_bm_start(v).bm_stall() == self.bm_stall(),
            self.with_bm_start(v).bm_start() == v,
            self.with_bm_start(v).blockmode() == self.blockmode(),
            self.with_bm_start(v).ss() == self.ss(),
            self.with_bm_start(v).sod() == self.sod(),
            self.with_bm_start(v).slave_mode() == self.slave_mode(),
            self.with_bm_start(v).enable() == self.enable(),
            self.with_bm_start(v).lbm() == self.lbm(),
    {
        lemma_set_bit_get_bit(self.raw, 8, v, 11);
        lemma_set_bit_get_bit(self.raw, 8, v, 10);
        lemma_set_bit_get_bit(self.raw, 8, v, 9);
        lemma_set_bit_get_bit(self.raw, 8, v, 8);
        lemma_set_bit_get_bit(self.raw, 8, v, 7);
        lemma_bit_and_field(self.raw, 8, v, 4, 3, 0);
        lemma_set_bit_get_bit(self.raw, 8, v, 3);
        lemma_set_bit_get_bit(self.raw, 8, v, 2);
        lemma_set_bit_get_bit(self.raw, 8, v, 1);
        lemma_set_bit_get_bit(self.raw, 8, v, 0);
    }

    /// After `blockmode` is set, it reads as what was set and every other field as before.
    pub proof fn lemma_with_blockmode(self, v: bool)
        ensures
            self.with_blockmode(v).mtxpause() == self.mtxpause(),
            self.with_blockmode(v).mdlycap() == self.mdlycap(),
            self.with_blockmode(v).bm_stall() == self.bm_stall(),
            self.with_blockmode(v).bm_start() == self.bm_start(),
            self.with_blockmode(v).blockmode() == v,
            self.with_blockmode(v).ss() == self.ss(),
            self.with_blockmode(v).sod() == self.sod(),
            self.with_blockmode(v).slave_mode() == self.slave_mode(),
            self.with_blockmode(v).enable() == self.enable(),
            self.with_blockmode(v).lbm() == self.lbm(),
    {
        lemma_set_bit_get_bit(self.raw, 7, v, 11);
        lemma_set_bit_get_bit(self.raw, 7, v, 10);
        lemma_set_bit_get_bit(self.raw, 7, v, 9);
        lemma_set_bit_get_bit(self.raw, 7, v, 8);
        lemma_set_bit_get_bit(self.raw, 7, v, 7);
        lemma_bit_and_field(self.raw, 7, v, 4, 3, 0);
        lemma_set_bit_get_bit(self.raw, 7, v, 3);
        lemma_set_bit_get_bit(self.raw, 7, v, 2);
        lemma_set_bit_get_bit(self.raw, 7, v, 1);
        lemma_set_bit_get_bit(self.raw, 7, v, 0);
    }

    /// After `ss` is set, it reads as what was set and every other field as before.
    pub proof fn lemma_with_ss(self, v: HwChipSelectId)
        ensures
            self.with_ss(v).mtxpause() == self.mtxpause(),
            self.with_ss(v).mdlycap() == self.mdlycap(),
            self.with_ss(v).bm_stall() == self.bm_stall(),
            self.with_ss(v).bm_start() == self.bm_start(),
            self.with_ss(v).blockmode() == self.blockmode(),
            self.with_ss(v).ss() == v,
            self.with_ss(v).sod() == self.sod(),
            self.with_ss(v).slave_mode() == self.slave_mode(),
            self.with_ss(v).enable() == self.enable(),
            self.with_ss(v).lbm() == self.lbm(),
    {
        v.lemma_round_trip();
        lemma_field_bound(self.raw, 4, 3);
        lemma_bit_and_field(self.raw, 11, true, 4, 3, v.raw_value());
        lemma_bit_and_field(self.raw, 10, true, 4, 3, v.raw_value());
        lemma_bit_and_field(self.raw, 9, true, 4, 3, v.raw_value());
        lemma_bit_and_field(self.raw, 8, true, 4, 3, v.raw_value());
        lemma_bit_and_field(self.raw, 7, true, 4, 3, v.raw_value());
        lemma_set_field_get_field(self.raw, 4, 3, v.raw_value());
        lemma_bit_and_field(self.raw, 3, true, 4, 3, v.raw_value());
        lemma_bit_and_field(self.raw, 2, true, 4, 3, v.raw_value());
        lemma_bit_and_field(self.raw, 1, true, 4, 3, v.raw_value());
        lemma_bit_and_field(self.raw, 0, true, 4, 3, v.raw_value());
    }

    /// After `sod` is set, it reads as what was set and every other field as before.
    pub proof fn lemma_with_sod(self, v: bool)
        ensures
            self.with_sod(v).mtxpause() == self.mtxpause(),
            self.with_sod(v).mdlycap() == self.mdlycap(),
            self.with_sod(v).bm_stall() == self.bm_stall(),
            self.with_sod(v).bm_start() == self.bm_start(),
            self.with_sod(v).blockmode() == self.blockmode(),
            self.with_sod(v).ss() == self.ss(),
            self.with_sod(v).sod() == v,
            self.with_sod(v).slave_mode() == self.slave_mode(),
            self.with_sod(v).enable() == self.enable(),
            self.with_sod(v).lbm() == self.lbm(),
    {
        lemma_set_bit_get_bit(self.raw, 3, v, 11);
        lemma_set_bit_get_bit(self.raw, 3, v, 10);
        lemma_set_bit_get_bit(self.raw, 3, v, 9);
        lemma_set_bit_get_bit(self.raw, 3, v, 8);
        lemma_set_bit_get_bit(self.raw, 3, v, 7);
        lemma_bit_and_field(self.raw, 3, v, 4, 3, 0);
        lemma_set_bit_get_bit(self.raw, 3, v, 3);
        lemma_set_bit_get_bit(self.raw, 3, v, 2);
        lemma_set_bit_get_bit(self.raw, 3, v, 1);
        lemma_set_bit_get_bit(self.raw, 3, v, 0);
    }

    /// After `slave_mode` is set, it reads as what was set and every other field as before.
    pub proof fn lemma_with_slave_mode(self, v: bool)
        ensures
            self.with_slave_mode(v).mtxpause() == self.mtxpause(),
            self.with_slave_mode(v).mdlycap() == self.mdlycap(),
            self.with_slave_mode(v).bm_stall() == self.bm_stall(),
            self.with_slave_mode(v).bm_start() == self.bm_start(),
            self.with_slave_mode(v).blockmode() == self.blockmode(),
            self.with_slave_mode(v).ss() == self.ss(),
            self.with_slave_mode(v).sod() == self.sod(),
            self.with_slave_mode(v).slave_mode() == v,
            self.with_slave_mode(v).enable() == self.enable(),
            self.with_slave_mode(v).lbm() == self.lbm(),
    {
        lemma_set_bit_get_bit(self.raw, 2, v, 11);
        lemma_set_bit_get_bit(self.raw, 2, v, 10);
        lemma_set_bit_get_bit(self.raw, 2, v, 9);
        lemma_set_bit_get_bit(self.raw, 2, v, 8);
        lemma_set_bit_get_bit(self.raw, 2, v, 7);
        lemma_bit_and_field(self.raw, 2, v, 4, 3, 0);
        lemma_set_bit_get_bit(self.raw, 2, v, 3);
        lemma_set_bit_get_bit(self.raw, 2, v, 2);
        lemma_set_bit_get_bit(self.raw, 2, v, 1);
        lemma_set_bit_get_bit(self.raw, 2, v, 0);
    }

    /// After `enable` is set, it reads as what was set and every other field as before.
    pub proof fn lemma_with_enable(self, v: bool)
        ensures
            self.with_enable(v).mtxpause() == self.mtxpause(),
            self.with_enable(v).mdlycap() == self.mdlycap(),
            self.with_enable(v).bm_stall() == self.bm_stall(),
            self.with_enable(v).bm_start() == self.bm_start(),
            self.with_enable(v).blockmode() == self.blockmode(),
            self.with_enable(v).ss() == self.ss(),
            self.with_enable(v).sod() == self.sod(),
            self.with_enable(v).slave_mode() == self.slave_mode(),
            self.with_enable(v).enable() == v,
            self.with_enable(v).lbm() == self.lbm(),
    {
        lemma_set_bit_get_bit(self.raw, 1, v, 11);
        lemma_set_bit_get_bit(self.raw, 1, v, 10);
        lemma_set_bit_get_bit(self.raw, 1, v, 9);
        lemma_set_bit_get_bit(self.raw, 1, v, 8);
        lemma_set_bit_get_bit(self.raw, 1, v, 7);
        lemma_bit_and_field(self.raw, 1, v, 4, 3, 0);
        lemma_set_bit_get_bit(self.raw, 1, v, 3);
        lemma_set_bit_get_bit(self.raw, 1, v, 2);
        lemma_set_bit_get_bit(self.raw, 1, v, 1);
        lemma_set_bit_get_bit(self.raw, 1, v, 0);
    }

    /// After `lbm` is set, it reads as what was set and every other field as before.
    pub proof fn lemma_with_lbm(self, v: bool)
        ensures
            self.with_lbm(v).mtxpause() == self.mtxpause(),
            self.with_lbm(v).mdlycap() == self.mdlycap(),
            self.with_lbm(v).bm_stall() == self.bm_stall(),
            self.with_lbm(v).bm_start() == self.bm_start(),
            self.with_lbm(v).blockmode() == self.blockmode(),
            self.with_lbm(v).ss() == self.ss(),
            self.with_lbm(v).sod() == self.sod(),
            self.with_lbm(v).slave_mode() == self.slave_mode(),
            self.with_lbm(v).enable() == self.enable(),
            self.with_lbm(v).lbm() == v,
    {
        lemma_set_bit_get_bit(self.raw, 0, v, 11);
        lemma_set_bit_get_bit(self.raw, 0, v, 10);
        lemma_set_bit_get_bit(self.raw, 0, v, 9);
        lemma_set_bit_get_bit(self.raw, 0, v, 8);
        lemma_set_bit_get_bit(self.raw, 0, v, 7);
        lemma_bit_and_field(self.raw, 0, v, 4, 3, 0);
        lemma_set_bit_get_bit(self.raw, 0, v, 3);
        lemma_set_bit_get_bit(self.raw, 0, v, 2);
        lemma_set_bit_get_bit(self.raw, 0, v, 1);
        lemma_set_bit_get_bit(self.raw, 0, v, 0);
    }
}

/// The data register of an SPI peripheral.
#[derive(Debug, Clone, Copy, PartialEq, Eq, Structural)]
pub struct Data {
    pub raw: u32,
}

impl Data {
    /// The register value with the bits `raw`.
    #[verifier::allow_in_spec]
    pub fn new_with_raw_value(raw: u32) -> Data
        returns
            (Data { raw }),
    {
        Data { raw }
    }

    /// The bits of the register value.
    #[verifier::allow_in_spec]
    pub fn raw_value(&self) -> u32
        returns
            self.raw,
    {
        self.raw
    }

    /// Only in block mode. Of a received word: it was the first after the chip select went
    /// active. Of a sent word: the frame ends after it.
    #[verifier::allow_in_spec]
    pub fn bm_start_stop(&self) -> bool
        returns
            spec_get_bit(self.raw, 31),
    {
        get_bit(self.raw, 31)
    }

    /// The same value with `bm_start_stop` replaced by `v`.
    #[verifier::allow_in_spec]
    pub fn with_bm_start_stop(self, v: bool) -> Data
        returns
            (Data { raw: spec_set_bit(self.raw, 31, v) }),
    {
        Data { raw: set_bit(self.raw, 31, v) }
    }

    /// Only in block mode. With the stop bit, the frame ends without this word being sent.
    #[verifier::allow_in_spec]
    pub fn bm_skipdata(&self) -> bool
        returns
            spec_get_bit(self.raw, 30),
    {
        get_bit(self.raw, 30)
    }

    /// The same value with `bm_skipdata` replaced by `v`.
    #[verifier::allow_in_spec]
    pub fn with_bm_skipdata(self, v: bool) -> Data
        returns
            (Data { raw: spec_set_bit(self.raw, 30, v) }),
    {
        Data { raw: set_bit(self.raw, 30, v) }
    }

    /// The word.
    #[verifier::allow_in_spec]
    pub fn data(&self) -> u16
        returns
            spec_get_field(self.raw, 0, 16) as u16,
    {
        proof {
            lemma_field_bound(self.raw, 0, 16);
        }
        get_field(self.raw, 0, 16) as u16
    }

    /// The same value with `data` replaced by `v`.
    #[verifier::allow_in_spec]
    pub fn with_data(self, v: u16) -> Data
        returns
            (Data { raw: spec_set_field(self.raw, 0, 16, v as u32) }),
    {
        Data { raw: set_field(self.raw, 0, 16, v as u32) }
    }

    /// After `bm_start_stop` is set, it reads as what was set and every other field as before.
    pub proof fn lemma_with_bm_start_stop(self, v: bool)
        ensures
            self.with_bm_start_stop(v).bm_start_stop() == v,
            self.with_bm_start_stop(v).bm_skipdata() == self.bm_skipdata(),
            self.with_bm_start_stop(v).data() == self.data(),
    {
        lemma_set_bit_get_bit(self.raw, 31, v, 31);
        lemma_set_bit_get_bit(self.raw, 31, v, 30);
        lemma_bit_and_field(self.raw, 31, v, 0, 16, 0);
    }

    /// After `bm_skipdata` is set, it reads as what was set and every other field as before.
    pub proof fn lemma_with_bm_skipdata(self, v: bool)
        ensures
            self.with_bm_skipdata(v).bm_start_stop() == self.bm_start_stop(),
            self.with_bm_skipdata(v).bm_skipdata() == v,
            self.with_bm_skipdata(v).data() == self.data(),
    {
        lemma_set_bit_get_bit(self.raw, 30, v, 31);
        lemma_set_bit_get_bit(self.raw, 30, v, 30);
        lemma_bit_and_field(self.raw, 30, v, 0, 16, 0);
    }

    /// After `data` is set, it reads as what was set and every other field as before.
    pub proof fn lemma_with_data(self, v: u16)
        requires
            v < 65536,
        ensures
            self.with_data(v).bm_start_stop() == self.bm_start_stop(),
            self.with_data(v).bm_skipdata() == self.bm_skipdata(),
            self.with_data(v).data() == v,
    {
        lemma_field_bound(self.raw, 0, 16);
        lemma_bit_and_field(self.raw, 31, true, 0, 16, v as u32);
        lemma_bit_and_field(self.raw, 30, true, 0, 16, v as u32);
        lemma_set_field_get_field(self.raw, 0, 16, v as u32);
    }
}

/// The status register of an SPI peripheral.
#[derive(Debug, Clone, Copy, PartialEq, Eq, Structural)]
pub struct Status {
    pub raw: u32,
}

impl Status {
    /// The register value with the bits `raw`.
    #[verifier::allow_in_spec]
    pub fn new_with_raw_value(raw: u32) -> Status
        returns
            (Status { raw }),
    {
        Status { raw }
    }

    /// The bits of the register value.
    #[verifier::allow_in_spec]
    pub fn raw_value(&self) -> u32
        returns
            self.raw,
    {
        self.raw
    }

    /// The transmit FIFO is below its trigger level.
    #[verifier::allow_in_spec]
    pub fn tx_trigger(&self) -> bool
        returns
            spec_get_bit(self.raw, 7),
    {
        get_bit(self.raw, 7)
    }

    /// The same value with `tx_trigger` replaced by `v`.
    #[verifier::allow_in_spec]
    pub fn with_tx_trigger(self, v: bool) -> Status
        returns
            (Status { raw: spec_set_bit(self.raw, 7, v) }),
    {
        Status { raw: set_bit(self.raw, 7, v) }
    }

    /// The receive FIFO is at or above its trigger level.
    #[verifier::allow_in_spec]
    pub fn rx_trigger(&self) -> bool
        returns
            spec_get_bit(self.raw, 6),
    {
        get_bit(self.raw, 6)
    }

    /// The same value with `rx_trigger` replaced by `v`.
    #[verifier::allow_in_spec]
    pub fn with_rx_trigger(self, v: bool) -> Status
        returns
            (Status { raw: spec_set_bit(self.raw, 6, v) }),
    {
        Status { raw: set_bit(self.raw, 6, v) }
    }

    /// Bit 5 of the register.
    #[verifier::allow_in_spec]
    pub fn rx_data_first(&self) -> bool
        returns
            spec_get_bit(self.raw, 5),
    {
        get_bit(self.raw, 5)
    }

    /// The same value with `rx_data_first` replaced by `v`.
    #[verifier::allow_in_spec]
    pub fn with_rx_data_first(self, v: bool) -> Status
        returns
            (Status { raw: spec_set_bit(self.raw, 5, v) }),
    {
        Status { raw: set_bit(self.raw, 5, v) }
    }

    /// Bit 4 of the register.
    #[verifier::allow_in_spec]
    pub fn busy(&self) -> bool
        returns
            spec_get_bit(self.raw, 4),
    {
        get_bit(self.raw, 4)
    }

    /// The same value with `busy` replaced by `v`.
    #[verifier::allow_in_spec]
    pub fn with_busy(self, v: bool) -> Status
        returns
            (Status { raw: spec_set_bit(self.raw, 4, v) }),
    {
        Status { raw: set_bit(self.raw, 4, v) }
    }

    /// Bit 3 of the register.
    #[verifier::allow_in_spec]
    pub fn rx_full(&self) -> bool
        returns
            spec_get_bit(self.raw, 3),
    {
        get_bit(self.raw, 3)
    }

    /// The same value with `rx_full` replaced by `v`.
    #[verifier::allow_in_spec]
    pub fn with_rx_full(self, v: bool) -> Status
        returns
            (Status { raw: spec_set_bit(self.raw, 3, v) }),
    {
        Status { raw: set_bit(self.raw, 3, v) }
    }

    /// Bit 2 of the register.
    #[verifier::allow_in_spec]
    pub fn rx_not_empty(&self) -> bool
        returns
            spec_get_bit(self.raw, 2),
    {
        get_bit(self.raw, 2)
    }

    /// The same value with `rx_not_empty` replaced by `v`.
    #[verifier::allow_in_spec]
    pub fn with_rx_not_empty(self, v: bool) -> Status
        returns
            (Status { raw: spec_set_bit(self.raw, 2, v) }),
    {
        Status { raw: set_bit(self.raw, 2, v) }
    }

    /// Bit 1 of the register.
    #[verifier::allow_in_spec]
    pub fn tx_not_full(&self) -> bool
        returns
            spec_get_bit(self.raw, 1),
    {
        get_bit(self.raw, 1)
    }

    /// The same value with `tx_not_full` replaced by `v`.
    #[verifier::allow_in_spec]
    pub fn with_tx_not_full(self, v: bool) -> Status
        returns
            (Status { raw: spec_set_bit(self.raw, 1, v) }),
    {
        Status { raw: set_bit(self.raw, 1, v) }
    }

    /// Bit 0 of the register.
    #[verifier::allow_in_spec]
    pub fn tx_empty(&self) -> bool
        returns
            spec_get_bit(self.raw, 0),
    {
        get_bit(self.raw, 0)
    }

    /// The same value with `tx_empty` replaced by `v`.
    #[verifier::allow_in_spec]
    pub fn with_tx_empty(self, v: bool) -> Status
        returns
            (Status { raw: spec_set_bit(self.raw, 0, v) }),
    {
        Status { raw: set_bit(self.raw, 0, v) }
    }

    /// After `tx_trigger` is set, it reads as what was set and every other field as before.
    pub proof fn lemma_with_tx_trigger(self, v: bool)
        ensures
            self.with_tx_trigger(v).tx_trigger() == v,
            self.with_tx_trigger(v).rx_trigger() == self.rx_trigger(),
            self.with_tx_trigger(v).rx_data_first() == self.rx_data_first(),
            self.with_tx_trigger(v).busy() == self.busy(),
            self.with_tx_trigger(v).rx_full() == self.rx_full(),
            self.with_tx_trigger(v).rx_not_empty() == self.rx_not_empty(),
            self.with_tx_trigger(v).tx_not_full() == self.tx_not_full(),
            self.with_tx_trigger(v).tx_empty() == self.tx_empty(),
    {
        lemma_set_bit_get_bit(self.raw, 7, v, 7);
        lemma_set_bit_get_bit(self.raw, 7, v, 6);
        lemma_set_bit_get_bit(self.raw, 7, v, 5);
        lemma_set_bit_get_bit(self.raw, 7, v, 4);
        lemma_set_bit_get_bit(self.raw, 7, v, 3);
        lemma_set_bit_get_bit(self.raw, 7, v, 2);
        lemma_set_bit_get_bit(self.raw, 7, v, 1);
        lemma_set_bit_get_bit(self.raw, 7, v, 0);
    }

    /// After `rx_trigger` is set, it reads as what was set and every other field as before.
    pub proof fn lemma_with_rx_trigger(self, v: bool)
        ensures
            self.with_rx_trigger(v).tx_trigger() == self.tx_trigger(),
            self.with_rx_trigger(v).rx_trigger() == v,
            self.with_rx_trigger(v).rx_data_first() == self.rx_data_first(),
            self.with_rx_trigger(v).busy() == self.busy(),
            self.with_rx_trigger(v).rx_full() == self.rx_full(),
            self.with_rx_trigger(v).rx_not_empty() == self.rx_not_empty(),
            self.with_rx_trigger(v).tx_not_full() == self.tx_not_full(),
            self.with_rx_trigger(v).tx_empty() == self.tx_empty(),
    {
        lemma_set_bit_get_bit(self.raw, 6, v, 7);
        lemma_set_bit_get_bit(self.raw, 6, v, 6);
        lemma_set_bit_get_bit(self.raw, 6, v, 5);
        lemma_set_bit_get_bit(self.raw, 6, v, 4);
        lemma_set_bit_get_bit(self.raw, 6, v, 3);
        lemma_set_bit_get_bit(self.raw, 6, v, 2);
        lemma_set_bit_get_bit(self.raw, 6, v, 1);
        lemma_set_bit_get_bit(self.raw, 6, v, 0);
    }

    /// After `rx_data_first` is set, it reads as what was set and every other field as before.
    pub proof fn lemma_with_rx_data_first(self, v: bool)
        ensures
            self.with_rx_data_first(v).tx_trigger() == self.tx_trigger(),
            self.with_rx_data_first(v).rx_trigger() == self.rx_trigger(),
            self.with_rx_data_first(v).rx_data_first() == v,
            self.with_rx_data_first(v).busy() == self.busy(),
            self.with_rx_data_first(v).rx_full() == self.rx_full(),
            self.with_rx_data_first(v).rx_not_empty() == self.rx_not_empty(),
            self.with_rx_data_first(v).tx_not_full() == self.tx_not_full(),
            self.with_rx_data_first(v).tx_empty() == self.tx_empty(),
    {
        lemma_set_bit_get_bit(self.raw, 5, v, 7);
        lemma_set_bit_get_bit(self.raw, 5, v, 6);
        lemma_set_bit_get_bit(self.raw, 5, v, 5);
        lemma_set_bit_get_bit(self.raw, 5, v, 4);
        lemma_set_bit_get_bit(self.raw, 5, v, 3);
        lemma_set_bit_get_bit(self.raw, 5, v, 2);
        lemma_set_bit_get_bit(self.raw, 5, v, 1);
        lemma_set_bit_get_bit(self.raw, 5, v, 0);
    }

    /// After `busy` is set, it reads as what was set and every other field as before.
    pub proof fn lemma_with_busy(self, v: bool)
        ensures
            self.with_busy(v).tx_trigger() == self.tx_trigger(),
            self.with_busy(v).rx_trigger() == self.rx_trigger(),
            self.with_busy(v).rx_data_first() == self.rx_data_first(),
            self.with_busy(v).busy() == v,
            self.with_busy(v).rx_full() == self.rx_full(),
            self.with_busy(v).rx_not_empty() == self.rx_not_empty(),
            self.with_busy(v).tx_not_full() == self.tx_not_full(),
            self.with_busy(v).tx_empty() == self.tx_empty(),
    {
        lemma_set_bit_get_bit(self.raw, 4, v, 7);
        lemma_set_bit_get_bit(self.raw, 4, v, 6);
        lemma_set_bit_get_bit(self.raw, 4, v, 5);
        lemma_set_bit_get_bit(self.raw, 4, v, 4);
        lemma_set_bit_get_bit(self.raw, 4, v, 3);
        lemma_set_bit_get_bit(self.raw, 4, v, 2);
        lemma_set_bit_get_bit(self.raw, 4, v, 1);
        lemma_set_bit_get_bit(self.raw, 4, v, 0);
    }

    /// After `rx_full` is set, it reads as what was set and every other field as before.
    pub proof fn lemma_with_rx_full(self, v: bool)
        ensures
            self.with_rx_full(v).tx_trigger() == self.tx_trigger(),
            self.with_rx_full(v).rx_trigger() == self.rx_trigger(),
            self.with_rx_full(v).rx_data_first() == self.rx_data_first(),
            self.with_rx_full(v).busy() == self.busy(),
            self.with_rx_full(v).rx_full() == v,
            self.with_rx_full(v).rx_not_empty() == self.rx_not_empty(),
            self.with_rx_full(v).tx_not_full() == self.tx_not_full(),
            self.with_rx_full(v).tx_empty() == self.tx_empty(),
    {
        lemma_set_bit_get_bit(self.raw, 3, v, 7);
        lemma_set_bit_get_bit(self.raw, 3, v, 6);
        lemma_set_bit_get_bit(self.raw, 3, v, 5);
        lemma_set_bit_get_bit(self.raw, 3, v, 4);
        lemma_set_bit_get_bit(self.raw, 3, v, 3);
        lemma_set_bit_get_bit(self.raw, 3, v, 2);
        lemma_set_bit_get_bit(self.raw, 3, v, 1);
        lemma_set_bit_get_bit(self.raw, 3, v, 0);
    }

    /// After `rx_not_empty` is set, it reads as what was set and every other field as before.
    pub proof fn lemma_with_rx_not_empty(self, v: bool)
        ensures
            self.with_rx_not_empty(v).tx_trigger() == self.tx_trigger(),
            self.with_rx_not_empty(v).rx_trigger() == self.rx_trigger(),
            self.with_rx_not_empty(v).rx_data_first() == self.rx_data_first(),
            self.with_rx_not_empty(v).busy() == self.busy(),
            self.with_rx_not_empty(v).rx_full() == self.rx_full(),
            self.with_rx_not_empty(v).rx_not_empty() == v,
            self.with_rx_not_empty(v).tx_not_full() == self.tx_not_full(),
            self.with_rx_not_empty(v).tx_empty() == self.tx_empty(),
    {
        lemma_set_bit_get_bit(self.raw, 2, v, 7);
        lemma_set_bit_get_bit(self.raw, 2, v, 6);
        lemma_set_bit_get_bit(self.raw, 2, v, 5);
        lemma_set_bit_get_bit(self.raw, 2, v, 4);
        lemma_set_bit_get_bit(self.raw, 2, v, 3);
        lemma_set_bit_get_bit(self.raw, 2, v, 2);
        lemma_set_bit_get_bit(self.raw, 2, v, 1);
        lemma_set_bit_get_bit(self.raw, 2, v, 0);
    }

    /// After `tx_not_full` is set, it reads as what was set and every other field as before.
    pub proof fn lemma_with_tx_not_full(self, v: bool)
        ensures
            self.with_tx_not_full(v).tx_trigger() == self.tx_trigger(),
            self.with_tx_not_full(v).rx_trigger() == self.rx_trigger(),
            self.with_tx_not_full(v).rx_data_first() == self.rx_data_first(),
            self.with_tx_not_full(v).busy() == self.busy(),
            self.with_tx_not_full(v).rx_full() == self.rx_full(),
            self.with_tx_not_full(v).rx_not_empty() == self.rx_not_empty(),
            self.with_tx_not_full(v).tx_not_full() == v,
            self.with_tx_not_full(v).tx_empty() == self.tx_empty(),
    {
        lemma_set_bit_get_bit(self.raw, 1, v, 7);
        lemma_set_bit_get_bit(self.raw, 1, v, 6);
        lemma_set_bit_get_bit(self.raw, 1, v, 5);
        lemma_set_bit_get_bit(self.raw, 1, v, 4);
        lemma_set_bit_get_bit(self.raw, 1, v, 3);
        lemma_set_bit_get_bit(self.raw, 1, v, 2);
        lemma_set_bit_get_bit(self.raw, 1, v, 1);
        lemma_set_bit_get_bit(self.raw, 1, v, 0);
    }

    /// After `tx_empty` is set, it reads as what was set and every other field as before.
    pub proof fn lemma_with_tx_empty(self, v: bool)
        ensures
            self.with_tx_empty(v).tx_trigger() == self.tx_trigger(),
            self.with_tx_empty(v).rx_trigger() == self.rx_trigger(),
            self.with_tx_empty(v).rx_data_first() == self.rx_data_first(),
            self.with_tx_empty(v).busy() == self.busy(),
            self.with_tx_empty(v).rx_full() == self.rx_full(),
            self.with_tx_empty(v).rx_not_empty() == self.rx_not_empty(),
            self.with_tx_empty(v).tx_not_full() == self.tx_not_full(),
            self.with_tx_empty(v).tx_empty() == v,
    {
        lemma_set_bit_get_bit(self.raw, 0, v, 7);
        lemma_set_bit_get_bit(self.raw, 0, v, 6);
        lemma_set_bit_get_bit(self.raw, 0, v, 5);
        lemma_set_bit_get_bit(self.raw, 0, v, 4);
        lemma_set_bit_get_bit(self.raw, 0, v, 3);
        lemma_set_bit_get_bit(self.raw, 0, v, 2);
        lemma_set_bit_get_bit(self.raw, 0, v, 1);
        lemma_set_bit_get_bit(self.raw, 0, v, 0);
    }
}

/// Clock divisor value. Bit 0 is ignored: only the even values divide the clock. A value
/// of 0 acts as 1.
#[derive(Debug, Copy, Clone, PartialEq, Eq, Structural)]
pub struct ClkPrescaler {
    pub raw: u32,
}

impl ClkPrescaler {
    /// The prescaler `value`.
    #[verifier::allow_in_spec]
    pub fn new(value: u8) -> ClkPrescaler
        returns
            (ClkPrescaler { raw: value as u32 }),
    {
        ClkPrescaler { raw: value as u32 }
    }

    /// The value of the prescaler: the low eight bits of the register.
    pub fn value(&self) -> (value: u8)
        ensures
            value == spec_get_field(self.raw, 0, 8),
    {
        proof {
            lemma_field_bound(self.raw, 0, 8);
        }
        get_field(self.raw, 0, 8) as u8
    }
}

/// The interrupt enable register of an SPI peripheral.
#[derive(Debug, Clone, Copy, PartialEq, Eq, Structural)]
pub struct InterruptControl {
    pub raw: u32,
}

impl InterruptControl {
    /// The register value with the bits `raw`.
    #[verifier::allow_in_spec]
    pub fn new_with_raw_value(raw: u32) -> InterruptControl
        returns
            (InterruptControl { raw }),
    {
        InterruptControl { raw }
    }

    /// The bits of the register value.
    #[verifier::allow_in_spec]
    pub fn raw_value(&self) -> u32
        returns
            self.raw,
    {
        self.raw
    }

    /// The transmit FIFO holds no more words than its trigger level.
    #[verifier::allow_in_spec]
    pub fn tx(&self) -> bool
        returns
            spec_get_bit(self.raw, 3),
    {
        get_bit(self.raw, 3)
    }

    /// The same value with `tx` replaced by `v`.
    #[verifier::allow_in_spec]
    pub fn with_tx(self, v: bool) -> InterruptControl
        returns
            (InterruptControl { raw: spec_set_bit(self.raw, 3, v) }),
    {
        InterruptControl { raw: set_bit(self.raw, 3, v) }
    }

    /// The receive FIFO holds at least as many words as its trigger level.
    #[verifier::allow_in_spec]
    pub fn rx(&self) -> bool
        returns
            spec_get_bit(self.raw, 2),
    {
        get_bit(self.raw, 2)
    }

    /// The same value with `rx` replaced by `v`.
    #[verifier::allow_in_spec]
    pub fn with_rx(self, v: bool) -> InterruptControl
        returns
            (InterruptControl { raw: spec_set_bit(self.raw, 2, v) }),
    {
        InterruptControl { raw: set_bit(self.raw, 2, v) }
    }

    /// The receive FIFO was not read for 32 clock ticks while it was not empty.
    #[verifier::allow_in_spec]
    pub fn rx_timeout(&self) -> bool
        returns
            spec_get_bit(self.raw, 1),
    {
        get_bit(self.raw, 1)
    }

    /// The same value with `rx_timeout` replaced by `v`.
    #[verifier::allow_in_spec]
    pub fn with_rx_timeout(self, v: bool) -> InterruptControl
        returns
            (InterruptControl { raw: spec_set_bit(self.raw, 1, v) }),
    {
        InterruptControl { raw: set_bit(self.raw, 1, v) }
    }

    /// Bit 0 of the register.
    #[verifier::allow_in_spec]
    pub fn rx_overrun(&self) -> bool
        returns
            spec_get_bit(self.raw, 0),
    {
        get_bit(self.raw, 0)
    }

    /// The same value with `rx_overrun` replaced by `v`.
    #[verifier::allow_in_spec]
    pub fn with_rx_overrun(self, v: bool) -> InterruptControl
        returns
            (InterruptControl { raw: spec_set_bit(self.raw, 0, v) }),
    {
        InterruptControl { raw: set_bit(self.raw, 0, v) }
    }

    /// After `tx` is set, it reads as what was set and every other field as before.
    pub proof fn lemma_with_tx(self, v: bool)
        ensures
            self.with_tx(v).tx() == v,
            self.with_tx(v).rx() == self.rx(),
            self.with_tx(v).rx_timeout() == self.rx_timeout(),
            self.with_tx(v).rx_overrun() == self.rx_overrun(),
    {
        lemma_set_bit_get_bit(self.raw, 3, v, 3);
        lemma_set_bit_get_bit(self.raw, 3, v, 2);
        lemma_set_bit_get_bit(self.raw, 3, v, 1);
        lemma_set_bit_get_bit(self.raw, 3, v, 0);
    }

    /// After `rx` is set, it reads as what was set and every other field as before.
    pub proof fn lemma_with_rx(self, v: bool)
        ensures
            self.with_rx(v).tx() == self.tx(),
            self.with_rx(v).rx() == v,
            self.with_rx(v).rx_timeout() == self.rx_timeout(),
            self.with_rx(v).rx_overrun() == self.rx_overrun(),
    {
        lemma_set_bit_get_bit(self.raw, 2, v, 3);
        lemma_set_bit_get_bit(self.raw, 2, v, 2);
        lemma_set_bit_get_bit(self.raw, 2, v, 1);
        lemma_set_bit_get_bit(self.raw, 2, v, 0);
    }

    /// After `rx_timeout` is set, it reads as what was set and every other field as before.
    pub proof fn lemma_with_rx_timeout(self, v: bool)
        ensures
            self.with_rx_timeout(v).tx() == self.tx(),
            self.with_rx_timeout(v).rx() == self.rx(),
            self.with_rx_timeout(v).rx_timeout() == v,
            self.with_rx_timeout(v).rx_overrun() == self.rx_overrun(),
    {
        lemma_set_bit_get_bit(self.raw, 1, v, 3);
        lemma_set_bit_get_bit(self.raw, 1, v, 2);
        lemma_set_bit_get_bit(self.raw, 1, v, 1);
        lemma_set_bit_get_bit(self.raw, 1, v, 0);
    }

    /// After `rx_overrun` is set, it reads as what was set and every other field as before.
    pub proof fn lemma_with_rx_overrun(self, v: bool)
        ensures
            self.with_rx_overrun(v).tx() == self.tx(),
            self.with_rx_overrun(v).rx() == self.rx(),
            self.with_rx_overrun(v).rx_timeout() == self.rx_timeout(),
            self.with_rx_overrun(v).rx_overrun() == v,
    {
        lemma_set_bit_get_bit(self.raw, 0, v, 3);
        lemma_set_bit_get_bit(self.raw, 0, v, 2);
        lemma_set_bit_get_bit(self.raw, 0, v, 1);
        lemma_set_bit_get_bit(self.raw, 0, v, 0);
    }
}

/// An interrupt status register of an SPI peripheral.
#[derive(Debug, Clone, Copy, PartialEq, Eq, Structural)]
pub struct InterruptStatus {
    pub raw: u32,
}

impl InterruptStatus {
    /// The register value with the bits `raw`.
    #[verifier::allow_in_spec]
    pub fn new_with_raw_value(raw: u32) -> InterruptStatus
        returns
            (InterruptStatus { raw }),
    {
        InterruptStatus { raw }
    }

    /// The bits of the register value.
    #[verifier::allow_in_spec]
    pub fn raw_value(&self) -> u32
        returns
            self.raw,
    {
        self.raw
    }

    /// The transmit FIFO holds no more words than its trigger level.
    #[verifier::allow_in_spec]
    pub fn tx(&self) -> bool
        returns
            spec_get_bit(self.raw, 3),
    {
        get_bit(self.raw, 3)
    }

    /// The same value with `tx` replaced by `v`.
    #[verifier::allow_in_spec]
    pub fn with_tx(self, v: bool) -> InterruptStatus
        returns
            (InterruptStatus { raw: spec_set_bit(self.raw, 3, v) }),
    {
        InterruptStatus { raw: set_bit(self.raw, 3, v) }
    }

    /// The receive FIFO holds at least as many words as its trigger level.
    #[verifier::allow_in_spec]
    pub fn rx(&self) -> bool
        returns
            spec_get_bit(self.raw, 2),
    {
        get_bit(self.raw, 2)
    }

    /// The same value with `rx` replaced by `v`.
    #[verifier::allow_in_spec]
    pub fn with_rx(self, v: bool) -> InterruptStatus
        returns
            (InterruptStatus { raw: spec_set_bit(self.raw, 2, v) }),
    {
        InterruptStatus { raw: set_bit(self.raw, 2, v) }
    }

    /// The receive FIFO was not read for 32 clock ticks while it was not empty.
    #[verifier::allow_in_spec]
    pub fn rx_timeout(&self) -> bool
        returns
            spec_get_bit(self.raw, 1),
    {
        get_bit(self.raw, 1)
    }

    /// The same value with `rx_timeout` replaced by `v`.
    #[verifier::allow_in_spec]
    pub fn with_rx_timeout(self, v: bool) -> InterruptStatus
        returns
            (InterruptStatus { raw: spec_set_bit(self.raw, 1, v) }),
    {
        InterruptStatus { raw: set_bit(self.raw, 1, v) }
    }

    /// Bit 0 of the register.
    #[verifier::allow_in_spec]
    pub fn rx_overrun(&self) -> bool
        returns
            spec_get_bit(self.raw, 0),
    {
        get_bit(self.raw, 0)
    }

    /// The same value with `rx_overrun` replaced by `v`.
    #[verifier::allow_in_spec]
    pub fn with_rx_overrun(self, v: bool) -> InterruptStatus
        returns
            (InterruptStatus { raw: spec_set_bit(self.raw, 0, v) }),
    {
        InterruptStatus { raw: set_bit(self.raw, 0, v) }
    }

    /// After `tx` is set, it reads as what was set and every other field as before.
    pub proof fn lemma_with_tx(self, v: bool)
        ensures
            self.with_tx(v).tx() == v,
            self.with_tx(v).rx() == self.rx(),
            self.with_tx(v).rx_timeout() == self.rx_timeout(),
            self.with_tx(v).rx_overrun() == self.rx_overrun(),
    {
        lemma_set_bit_get_bit(self.raw, 3, v, 3);
        lemma_set_bit_get_bit(self.raw, 3, v, 2);
        lemma_set_bit_get_bit(self.raw, 3, v, 1);
        lemma_set_bit_get_bit(self.raw, 3, v, 0);
    }

    /// After `rx` is set, it reads as what was set and every other field as before.
    pub proof fn lemma_with_rx(self, v: bool)
        ensures
            self.with_rx(v).tx() == self.tx(),
            self.with_rx(v).rx() == v,
            self.with_rx(v).rx_timeout() == self.rx_timeout(),
            self.with_rx(v).rx_overrun() == self.rx_overrun(),
    {
        lemma_set_bit_get_bit(self.raw, 2, v, 3);
        lemma_set_bit_get_bit(self.raw, 2, v, 2);
        lemma_set_bit_get_bit(self.raw, 2, v, 1);
        lemma_set_bit_get_bit(self.raw, 2, v, 0);
    }

    /// After `rx_timeout` is set, it reads as what was set and every other field as before.
    pub proof fn lemma_with_rx_timeout(self, v: bool)
        ensures
            self.with_rx_timeout(v).tx() == self.tx(),
            self.with_rx_timeout(v).rx() == self.rx(),
            self.with_rx_timeout(v).rx_timeout() == v,
            self.with_rx_timeout(v).rx_overrun() == self.rx_overrun(),
    {
        lemma_set_bit_get_bit(self.raw, 1, v, 3);
        lemma_set_bit_get_bit(self.raw, 1, v, 2);
        lemma_set_bit_get_bit(self.raw, 1, v, 1);
        lemma_set_bit_get_bit(self.raw, 1, v, 0);
    }

    /// After `rx_overrun` is set, it reads as what was set and every other field as before.
    pub proof fn lemma_with_rx_overrun(self, v: bool)
        ensures
            self.with_rx_overrun(v).tx() == self.tx(),
            self.with_rx_overrun(v).rx() == self.rx(),
            self.with_rx_overrun(v).rx_timeout() == self.rx_timeout(),
            self.with_rx_overrun(v).rx_overrun() == v,
    {
        lemma_set_bit_get_bit(self.raw, 0, v, 3);
        lemma_set_bit_get_bit(self.raw, 0, v, 2);
        lemma_set_bit_get_bit(self.raw, 0, v, 1);
        lemma_set_bit_get_bit(self.raw, 0, v, 0);
    }
}

/// What is written to the interrupt clear register of an SPI peripheral.
#[derive(Debug, Clone, Copy, PartialEq, Eq, Structural)]
pub struct InterruptClear {
    pub raw: u32,
}

impl InterruptClear {
    /// The register value with the bits `raw`.
    #[verifier::allow_in_spec]
    pub fn new_with_raw_value(raw: u32) -> InterruptClear
        returns
            (InterruptClear { raw }),
    {
        InterruptClear { raw }
    }

    /// The bits of the register value.
    #[verifier::allow_in_spec]
    pub fn raw_value(&self) -> u32
        returns
            self.raw,
    {
        self.raw
    }

    /// Bit 1 of the register.
    #[verifier::allow_in_spec]
    pub fn rx_timeout(&self) -> bool
        returns
            spec_get_bit(self.raw, 1),
    {
        get_bit(self.raw, 1)
    }

    /// The same value with `rx_timeout` replaced by `v`.
    #[verifier::allow_in_spec]
    pub fn with_rx_timeout(self, v: bool) -> InterruptClear
        returns
            (InterruptClear { raw: spec_set_bit(self.raw, 1, v) }),
    {
        InterruptClear { raw: set_bit(self.raw, 1, v) }
    }

    /// Bit 0 of the register.
    #[verifier::allow_in_spec]
    pub fn rx_overrun(&self) -> bool
        returns
            spec_get_bit(self.raw, 0),
    {
        get_bit(self.raw, 0)
    }

    /// The same value with `rx_overrun` replaced by `v`.
    #[verifier::allow_in_spec]
    pub fn with_rx_overrun(self, v: bool) -> InterruptClear
        returns
            (InterruptClear { raw: spec_set_bit(self.raw, 0, v) }),
    {
        InterruptClear { raw: set_bit(self.raw, 0, v) }
    }

    /// After `rx_timeout` is set, it reads as what was set and every other field as before.
    pub proof fn lemma_with_rx_timeout(self, v: bool)
        ensures
            self.with_rx_timeout(v).rx_timeout() == v,
            self.with_rx_timeout(v).rx_overrun() == self.rx_overrun(),
    {
        lemma_set_bit_get_bit(self.raw, 1, v, 1);
        lemma_set_bit_get_bit(self.raw, 1, v, 0);
    }

    /// After `rx_overrun` is set, it reads as what was set and every other field as before.
    pub proof fn lemma_with_rx_overrun(self, v: bool)
        ensures
            self.with_rx_overrun(v).rx_timeout() == self.rx_timeout(),
            self.with_rx_overrun(v).rx_overrun() == v,
    {
        lemma_set_bit_get_bit(self.raw, 0, v, 1);
        lemma_set_bit_get_bit(self.raw, 0, v, 0);
    }
}

/// The state register of an SPI peripheral.
#[derive(Debug, Clone, Copy, PartialEq, Eq, Structural)]
pub struct State {
    pub raw: u32,
}

impl State {
    /// The register value with the bits `raw`.
    #[verifier::allow_in_spec]
    pub fn new_with_raw_value(raw: u32) -> State
        returns
            (State { raw }),
    {
        State { raw }
    }

    /// The bits of the register value.
    #[verifier::allow_in_spec]
    pub fn raw_value(&self) -> u32
        returns
            self.raw,
    {
        self.raw
    }

    /// Bits 0 to 7 of the register.
    #[verifier::allow_in_spec]
    pub fn rx_state(&self) -> u8
        returns
            spec_get_field(self.raw, 0, 8) as u8,
    {
        proof {
            lemma_field_bound(self.raw, 0, 8);
        }
        get_field(self.raw, 0, 8) as u8
    }

    /// The same value with `rx_state` replaced by `v`.
    #[verifier::allow_in_spec]
    pub fn with_rx_state(self, v: u8) -> State
        returns
            (State { raw: spec_set_field(self.raw, 0, 8, v as u32) }),
    {
        State { raw: set_field(self.raw, 0, 8, v as u32) }
    }

    /// Bits 8 to 15 of the register.
    #[verifier::allow_in_spec]
    pub fn rx_fifo(&self) -> u8
        returns
            spec_get_field(self.raw, 8, 8) as u8,
    {
        proof {
            lemma_field_bound(self.raw, 8, 8);
        }
        get_field(self.raw, 8, 8) as u8
    }

    /// The same value with `rx_fifo` replaced by `v`.
    #[verifier::allow_in_spec]
    pub fn with_rx_fifo(self, v: u8) -> State
        returns
            (State { raw: spec_set_field(self.raw, 8, 8, v as u32) }),
    {
        State { raw: set_field(self.raw, 8, 8, v as u32) }
    }

    /// Bits 24 to 31 of the register.
    #[verifier::allow_in_spec]
    pub fn tx_fifo(&self) -> u8
        returns
            spec_get_field(self.raw, 24, 8) as u8,
    {
        proof {
            lemma_field_bound(self.raw, 24, 8);
        }
        get_field(self.raw, 24, 8) as u8
    }

    /// The same value with `tx_fifo` replaced by `v`.
    #[verifier::allow_in_spec]
    pub fn with_tx_fifo(self, v: u8) -> State
        returns
            (State { raw: spec_set_field(self.raw, 24, 8, v as u32) }),
    {
        State { raw: set_field(self.raw, 24, 8, v as u32) }
    }

    /// After `rx_state` is set, it reads as what was set and every other field as before.
    pub proof fn lemma_with_rx_state(self, v: u8)
        requires
            v < 256,
        ensures
            self.with_rx_state(v).rx_state() == v,
            self.with_rx_state(v).rx_fifo() == self.rx_fifo(),
            self.with_rx_state(v).tx_fifo() == self.tx_fifo(),
    {
        lemma_field_bound(self.raw, 0, 8);
        lemma_set_field_get_field(self.raw, 0, 8, v as u32);
        lemma_set_field_keeps_field(self.raw, 0, 8, v as u32, 8, 8);
        lemma_set_field_keeps_field(self.raw, 0, 8, v as u32, 24, 8);
    }

    /// After `rx_fifo` is set, it reads as what was set and every other field as before.
    pub proof fn lemma_with_rx_fifo(self, v: u8)
        requires
            v < 256,
        ensures
            self.with_rx_fifo(v).rx_state() == self.rx_state(),
            self.with_rx_fifo(v).rx_fifo() == v,
            self.with_rx_fifo(v).tx_fifo() == self.tx_fifo(),
    {
        lemma_field_bound(self.raw, 8, 8);
        lemma_set_field_keeps_field(self.raw, 8, 8, v as u32, 0, 8);
        lemma_set_field_get_field(self.raw, 8, 8, v as u32);
        lemma_set_field_keeps_field(self.raw, 8, 8, v as u32, 24, 8);
    }

    /// After `tx_fifo` is set, it reads as what was set and every other field as before.
    pub proof fn lemma_with_tx_fifo(self, v: u8)
        requires
            v < 256,
        ensures
            self.with_tx_fifo(v).rx_state() == self.rx_state(),
            self.with_tx_fifo(v).rx_fifo() == self.rx_fifo(),
            self.with_tx_fifo(v).tx_fifo() == v,
    {
        lemma_field_bound(self.raw, 24, 8);
        lemma_set_field_keeps_field(self.raw, 24, 8, v as u32, 0, 8);
        lemma_set_field_keeps_field(self.raw, 24, 8, v as u32, 8, 8);
        lemma_set_field_get_field(self.raw, 24, 8, v as u32);
    }
}

/// Number of words that each of the two FIFOs of an SPI peripheral holds.
pub const FIFO_DEPTH: usize = 16;

/// The registers of an SPI peripheral that hold what was written to them or what the
/// caller has read from the hardware.
#[derive(Debug, Clone, Copy, PartialEq, Eq, Structural)]
pub struct SpiRegs {
    /// The address of the registers.
    pub base: usize,
    pub ctrl0: Control0,
    pub ctrl1: Control1,
    /// The status, but for the bits that the FIFOs decide: whether the transmit FIFO
    /// is empty or full and whether the receive FIFO is empty.
    pub status: Status,
    pub clkprescale: ClkPrescaler,
    pub irq_enb: InterruptControl,
    pub irq_raw: InterruptStatus,
    pub irq_status: InterruptStatus,
    /// What was last written to the interrupt clear register.
    pub irq_clear: InterruptClear,
    pub rx_fifo_trigger: TriggerLevel,
    pub tx_fifo_trigger: TriggerLevel,
    /// What was last written to the FIFO clear register.
    pub fifo_clear: FifoClear,
    pub state: u32,
    pub perid: u32,
}

/// An SPI peripheral: its registers and its two FIFOs.
///
/// The transmit FIFO holds the data words that were written and not sent, the oldest
/// first, and the receive FIFO the data words that have arrived and were not read. A
/// write to the data register appends to the transmit FIFO while that holds fewer than
/// [`FIFO_DEPTH`] words; a word that is written to a full FIFO is lost. A read of the
/// data register takes the oldest word from the receive FIFO; an empty FIFO reads as 0.
pub struct Spi {
    pub regs: SpiRegs,
    pub rx_fifo: Vec<u32>,
    pub tx_fifo: Vec<u32>,
}

/// What the contracts say of an SPI peripheral.
pub struct SpiView {
    pub regs: SpiRegs,
    pub rx_fifo: Seq<u32>,
    pub tx_fifo: Seq<u32>,
}

impl View for Spi {
    type V = SpiView;

    open spec fn view(&self) -> SpiView {
        SpiView { regs: self.regs, rx_fifo: self.rx_fifo@, tx_fifo: self.tx_fifo@ }
    }
}

impl SpiView {
    /// What a read of the status returns.
    pub open spec fn status(self) -> Status {
        self.regs.status.with_tx_empty(self.tx_fifo.len() == 0).with_tx_not_full(
            self.tx_fifo.len() < FIFO_DEPTH,
        ).with_rx_not_empty(self.rx_fifo.len() > 0)
    }

    /// The peripheral with the registers `regs`.
    pub open spec fn with_regs(self, regs: SpiRegs) -> SpiView {
        SpiView { regs, ..self }
    }

    /// The peripheral after the data word `word` was written.
    pub open spec fn after_write_data(self, word: u32) -> SpiView {
        if self.tx_fifo.len() < FIFO_DEPTH {
            SpiView { tx_fifo: self.tx_fifo.push(word), ..self }
        } else {
            self
        }
    }

    /// The peripheral after a read of the data register.
    pub open spec fn after_read_data(self) -> SpiView {
        if self.rx_fifo.len() > 0 {
            SpiView { rx_fifo: self.rx_fifo.subrange(1, self.rx_fifo.len() as int), ..self }
        } else {
            self
        }
    }

    /// The peripheral after `value` was written to the FIFO clear register.
    pub open spec fn after_fifo_clear(self, value: FifoClear) -> SpiView {
        SpiView {
            regs: SpiRegs { fifo_clear: value, ..self.regs },
            rx_fifo: if value.rx_fifo() {
                Seq::<u32>::empty()
            } else {
                self.rx_fifo
            },
            tx_fifo: if value.tx_fifo() {
                Seq::<u32>::empty()
            } else {
                self.tx_fifo
            },
        }
    }
}

impl Spi {
    /// The peripheral after a reset: the registers clear, the FIFOs empty.
    pub open spec fn spec_reset_state(base: usize) -> SpiView {
        SpiView {
            regs: SpiRegs {
                base,
                ctrl0: Control0 { raw: 0 },
                ctrl1: Control1 { raw: 0 },
                status: Status { raw: 0 },
                clkprescale: ClkPrescaler { raw: 0 },
                irq_enb: InterruptControl { raw: 0 },
                irq_raw: InterruptStatus { raw: 0 },
                irq_status: InterruptStatus { raw: 0 },
                irq_clear: InterruptClear { raw: 0 },
                rx_fifo_trigger: TriggerLevel { raw: 0 },
                tx_fifo_trigger: TriggerLevel { raw: 0 },
                fifo_clear: FifoClear { raw: 0 },
                state: 0,
                perid: SPI_PERID,
            },
            rx_fifo: Seq::<u32>::empty(),
            tx_fifo: Seq::<u32>::empty(),
        }
    }

    /// The peripheral `bank` as it is after a reset.
    pub fn new_mmio(bank: Bank) -> (spi: Spi)
        ensures
            spi@ == Self::spec_reset_state(bank.spec_base_address()),
    {
        Spi {
            regs: SpiRegs {
                base: bank.base_address(),
                ctrl0: Control0 { raw: 0 },
                ctrl1: Control1 { raw: 0 },
                status: Status { raw: 0 },
                clkprescale: ClkPrescaler { raw: 0 },
                irq_enb: InterruptControl { raw: 0 },
                irq_raw: InterruptStatus { raw: 0 },
                irq_status: InterruptStatus { raw: 0 },
                irq_clear: InterruptClear { raw: 0 },
                rx_fifo_trigger: TriggerLevel { raw: 0 },
                tx_fifo_trigger: TriggerLevel { raw: 0 },
                fifo_clear: FifoClear { raw: 0 },
                state: 0,
                perid: SPI_PERID,
            },
            rx_fifo: Vec::new(),
            tx_fifo: Vec::new(),
        }
    }

    /// Reads the status.
    pub fn read_status(&self) -> (status: Status)
        ensures
            status == self@.status(),
    {
        self.regs.status.with_tx_empty(self.tx_fifo.len() == 0).with_tx_not_full(
            self.tx_fifo.len() < FIFO_DEPTH,
        ).with_rx_not_empty(self.rx_fifo.len() > 0)
    }

    /// Writes the data register: appends the word to the transmit FIFO, or loses it if
    /// the FIFO is full.
    pub fn write_data(&mut self, data: Data)
        ensures
            final(self)@ == old(self)@.after_write_data(data.raw),
    {
        if self.tx_fifo.len() < FIFO_DEPTH {
            self.tx_fifo.push(data.raw_value());
        }
    }

    /// Reads the data register: takes the oldest word from the receive FIFO. An empty
    /// FIFO reads as 0.
    pub fn read_data(&mut self) -> (data: Data)
        ensures
            data.raw == (if old(self).rx_fifo@.len() > 0 {
                old(self).rx_fifo@[0]
            } else {
                0
            }),
            final(self)@ == old(self)@.after_read_data(),
    {
        if self.rx_fifo.len() > 0 {
            let word = self.rx_fifo.remove(0);
            assert(self.rx_fifo@ =~= old(self).rx_fifo@.subrange(1, old(self).rx_fifo@.len() as int));
            Data { raw: word }
        } else {
            Data { raw: 0 }
        }
    }

    /// Writes the FIFO clear register, which empties the FIFOs that `value` names.
    pub fn write_fifo_clear(&mut self, value: FifoClear)
        ensures
            final(self)@ == old(self)@.after_fifo_clear(value),
    {
        self.regs.fifo_clear = value;
        if value.rx_fifo() {
            self.rx_fifo.clear();
        }
        if value.tx_fifo() {
            self.tx_fifo.clear();
        }
    }
}

} // verus!
