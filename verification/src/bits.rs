//! Single bits and bit fields of 32-bit registers.
//!
//! Every register type of this crate reads and writes its fields through the functions
//! of this module. A field is named by its lowest bit `lo` and its `width`. The lemmas at
//! the end are what the rest of the crate knows about shifts and masks.
use vstd::prelude::*;

verus! {

/// The mask with only bit `i` set.
pub open spec fn spec_bit_mask(i: u32) -> u32 {
    1u32 << i
}

/// The mask with the lowest `width` bits set.
pub open spec fn spec_low_mask(width: u32) -> u32 {
    !(0xffff_ffffu32 << width)
}

/// Whether bit `i` of `x` is set.
pub open spec fn spec_get_bit(x: u32, i: u32) -> bool {
    (x >> i) & 1 == 1
}

/// `x` with bit `i` set to `v`.
pub open spec fn spec_set_bit(x: u32, i: u32, v: bool) -> u32 {
    if v {
        x | (1u32 << i)
    } else {
        x & !(1u32 << i)
    }
}

/// The field of `x` that starts at bit `lo` and is `width` bits wide.
pub open spec fn spec_get_field(x: u32, lo: u32, width: u32) -> u32 {
    (x >> lo) & !(0xffff_ffffu32 << width)
}

/// `x` with the field of `width` bits at bit `lo` replaced by the low bits of `v`.
pub open spec fn spec_set_field(x: u32, lo: u32, width: u32, v: u32) -> u32 {
    (x & !((!(0xffff_ffffu32 << width)) << lo)) | ((v & !(0xffff_ffffu32 << width)) << lo)
}

/// The mask with only bit `i` set.
pub fn bit_mask(i: u32) -> (m: u32)
    requires
        i < 32,
    ensures
        m == spec_bit_mask(i),
{
    1u32 << i
}

/// Reads bit `i` of `x`.
pub fn get_bit(x: u32, i: u32) -> (b: bool)
    requires
        i < 32,
    ensures
        b == spec_get_bit(x, i),
{
    (x >> i) & 1 == 1
}

/// Returns `x` with bit `i` set to `v`.
pub fn set_bit(x: u32, i: u32, v: bool) -> (r: u32)
    requires
        i < 32,
    ensures
        r == spec_set_bit(x, i, v),
{
    if v {
        x | (1u32 << i)
    } else {
        x & !(1u32 << i)
    }
}

/// Reads the field of `width` bits that starts at bit `lo`.
pub fn get_field(x: u32, lo: u32, width: u32) -> (r: u32)
    requires
        lo < 32,
        width < 32,
    ensures
        r == spec_get_field(x, lo, width),
        r <= spec_low_mask(width),
{
    proof {
        lemma_field_bound(x, lo, width);
    }
    (x >> lo) & !(0xffff_ffffu32 << width)
}

/// Returns `x` with the field of `width` bits at bit `lo` replaced by the low bits of `v`.
pub fn set_field(x: u32, lo: u32, width: u32, v: u32) -> (r: u32)
    requires
        lo < 32,
        width < 32,
    ensures
        r == spec_set_field(x, lo, width, v),
{
    (x & !((!(0xffff_ffffu32 << width)) << lo)) | ((v & !(0xffff_ffffu32 << width)) << lo)
}

/// Setting a bit changes that bit and no other.
pub proof fn lemma_set_bit_get_bit(x: u32, i: u32, v: bool, j: u32)
    requires
        i < 32,
        j < 32,
    ensures
        spec_get_bit(spec_set_bit(x, i, v), j) == (if j == i {
            v
        } else {
            spec_get_bit(x, j)
        }),
{
    assert(((x | (1u32 << i)) >> j) & 1 == (if j == i {
        1u32
    } else {
        (x >> j) & 1
    }) && ((x & !(1u32 << i)) >> j) & 1 == (if j == i {
        0u32
    } else {
        (x >> j) & 1
    })) by (bit_vector)
        requires
            i < 32,
            j < 32,
    ;
}

/// A bit is set exactly if the register and the bit's mask overlap, and two masks of
/// single bits overlap only if they are the same.
pub proof fn lemma_bit_mask(x: u32, i: u32, j: u32)
    requires
        i < 32,
        j < 32,
    ensures
        spec_get_bit(x, i) == (x & spec_bit_mask(i) != 0),
        spec_bit_mask(i) != 0,
        spec_get_bit(spec_bit_mask(i), j) == (i == j),
        spec_set_bit(x, i, true) == x | spec_bit_mask(i),
        spec_set_bit(x, i, false) == x & !spec_bit_mask(i),
{
    assert(((x >> i) & 1 == 1) == (x & (1u32 << i) != 0) && (1u32 << i) != 0 && ((((1u32 << i)
        >> j) & 1 == 1) == (i == j))) by (bit_vector)
        requires
            i < 32,
            j < 32,
    ;
}

/// What a field holds is at most its mask, and the masks of the usual widths.
pub proof fn lemma_field_bound(x: u32, lo: u32, width: u32)
    requires
        lo < 32,
        width < 32,
    ensures
        spec_get_field(x, lo, width) <= spec_low_mask(width),
        spec_low_mask(1) == 0x1,
        spec_low_mask(2) == 0x3,
        spec_low_mask(3) == 0x7,
        spec_low_mask(4) == 0xf,
        spec_low_mask(5) == 0x1f,
        spec_low_mask(6) == 0x3f,
        spec_low_mask(7) == 0x7f,
        spec_low_mask(8) == 0xff,
        spec_low_mask(9) == 0x1ff,
        spec_low_mask(10) == 0x3ff,
        spec_low_mask(11) == 0x7ff,
        spec_low_mask(12) == 0xfff,
        spec_low_mask(13) == 0x1fff,
        spec_low_mask(14) == 0x3fff,
        spec_low_mask(15) == 0x7fff,
        spec_low_mask(16) == 0xffff,
        spec_low_mask(17) == 0x1ffff,
        spec_low_mask(18) == 0x3ffff,
        spec_low_mask(19) == 0x7ffff,
        spec_low_mask(20) == 0xfffff,
        spec_low_mask(24) == 0xffffff,
{
    assert((x >> lo) & !(0xffff_ffffu32 << width) <= !(0xffff_ffffu32 << width)) by (bit_vector);
    assert(!(0xffff_ffffu32 << 1u32) == 0x1 && !(0xffff_ffffu32 << 2u32) == 0x3 && !(0xffff_ffffu32 << 3u32) == 0x7 && !(0xffff_ffffu32 << 4u32) == 0xf && !(0xffff_ffffu32 << 5u32) == 0x1f && !(0xffff_ffffu32 << 6u32) == 0x3f && !(0xffff_ffffu32 << 7u32) == 0x7f && !(0xffff_ffffu32 << 8u32) == 0xff && !(0xffff_ffffu32 << 9u32) == 0x1ff && !(0xffff_ffffu32 << 10u32) == 0x3ff && !(0xffff_ffffu32 << 11u32) == 0x7ff && !(0xffff_ffffu32 << 12u32) == 0xfff && !(0xffff_ffffu32 << 13u32) == 0x1fff && !(0xffff_ffffu32 << 14u32) == 0x3fff && !(0xffff_ffffu32 << 15u32) == 0x7fff && !(0xffff_ffffu32 << 16u32) == 0xffff && !(0xffff_ffffu32 << 17u32) == 0x1ffff && !(0xffff_ffffu32 << 18u32) == 0x3ffff && !(0xffff_ffffu32 << 19u32) == 0x7ffff && !(0xffff_ffffu32 << 20u32) == 0xfffff && !(0xffff_ffffu32 << 24u32) == 0xffffff) by (bit_vector);
}

/// A field that was set reads back as what was written, as far as that fits in the
/// field.
pub proof fn lemma_set_field_get_field(x: u32, lo: u32, width: u32, v: u32)
    requires
        lo + width <= 32,
        width < 32,
    ensures
        spec_get_field(spec_set_field(x, lo, width, v), lo, width) == v & spec_low_mask(width),
        v <= spec_low_mask(width) ==> spec_get_field(spec_set_field(x, lo, width, v), lo, width)
            == v,
{
    assert((((x & !((!(0xffff_ffffu32 << width)) << lo)) | ((v & !(0xffff_ffffu32 << width))
        << lo)) >> lo) & !(0xffff_ffffu32 << width) == v & !(0xffff_ffffu32 << width) && (v <= !(
    0xffff_ffffu32 << width) ==> v & !(0xffff_ffffu32 << width) == v)) by (bit_vector)
        requires
            lo + width <= 32,
            width < 32,
    ;
}

/// Setting one field leaves another field alone when the two do not overlap.
pub proof fn lemma_set_field_keeps_field(x: u32, lo: u32, width: u32, v: u32, lo2: u32, width2: u32)
    requires
        lo + width <= 32,
        width < 32,
        lo2 + width2 <= 32,
        width2 < 32,
        lo2 >= lo + width || lo >= lo2 + width2,
    ensures
        spec_get_field(spec_set_field(x, lo, width, v), lo2, width2) == spec_get_field(
            x,
            lo2,
            width2,
        ),
{
    assert((((x & !((!(0xffff_ffffu32 << width)) << lo)) | ((v & !(0xffff_ffffu32 << width))
        << lo)) >> lo2) & !(0xffff_ffffu32 << width2) == (x >> lo2) & !(0xffff_ffffu32 << width2))
        by (bit_vector)
        requires
            lo + width <= 32,
            width < 32,
            lo2 + width2 <= 32,
            width2 < 32,
            lo2 >= lo + width || lo >= lo2 + width2,
    ;
}

/// A bit and a field that does not hold it: setting the one leaves the other alone.
pub proof fn lemma_bit_and_field(x: u32, i: u32, b: bool, lo: u32, width: u32, v: u32)
    requires
        i < 32,
        lo + width <= 32,
        width < 32,
        i < lo || i >= lo + width,
    ensures
        spec_get_field(spec_set_bit(x, i, b), lo, width) == spec_get_field(x, lo, width),
        spec_get_bit(spec_set_field(x, lo, width, v), i) == spec_get_bit(x, i),
{
    assert(((x | (1u32 << i)) >> lo) & !(0xffff_ffffu32 << width) == (x >> lo) & !(0xffff_ffffu32
        << width) && ((x & !(1u32 << i)) >> lo) & !(0xffff_ffffu32 << width) == (x >> lo) & !(
    0xffff_ffffu32 << width) && (((x & !((!(0xffff_ffffu32 << width)) << lo)) | ((v & !(
    0xffff_ffffu32 << width)) << lo)) >> i) & 1 == (x >> i) & 1) by (bit_vector)
        requires
            i < 32,
            lo + width <= 32,
            width < 32,
            i < lo || i >= lo + width,
    ;
}

} // verus!
