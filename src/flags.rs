use vstd::prelude::*;

verus! {

/// Zero flag: bit 7 of F.
pub const ZF: u8 = 0x80;

/// Subtract flag: bit 6 of F.
pub const NF: u8 = 0x40;

/// Half-carry flag: bit 5 of F.
pub const HF: u8 = 0x20;

/// Carry flag: bit 4 of F.
pub const CF: u8 = 0x10;

/// Bit 7 of the flag byte.
pub open spec fn flag_z(f: u8) -> bool {
    f / 128 % 2 == 1
}

/// Bit 6 of the flag byte.
pub open spec fn flag_n(f: u8) -> bool {
    f / 64 % 2 == 1
}

/// Bit 5 of the flag byte.
pub open spec fn flag_h(f: u8) -> bool {
    f / 32 % 2 == 1
}

/// Bit 4 of the flag byte.
pub open spec fn flag_c(f: u8) -> bool {
    f / 16 % 2 == 1
}

pub open spec fn bit_val(b: bool, weight: int) -> int {
    if b {
        weight
    } else {
        0
    }
}

/// The flag byte holding the four flags given, with its low nibble clear.
pub open spec fn flags_byte(z: bool, n: bool, h: bool, c: bool) -> u8 {
    (bit_val(z, 128) + bit_val(n, 64) + bit_val(h, 32) + bit_val(c, 16)) as u8
}

/// The low nibble of a flag byte is clear.
pub open spec fn low_nibble_clear(f: u8) -> bool {
    f % 16 == 0
}

/// Each flag of a packed byte reads back as it was given, and the low nibble is clear.
pub proof fn lemma_flags_byte(z: bool, n: bool, h: bool, c: bool)
    ensures
        flag_z(flags_byte(z, n, h, c)) == z,
        flag_n(flags_byte(z, n, h, c)) == n,
        flag_h(flags_byte(z, n, h, c)) == h,
        flag_c(flags_byte(z, n, h, c)) == c,
        low_nibble_clear(flags_byte(z, n, h, c)),
{
}

/// A packed flag byte has its low nibble clear.
pub broadcast proof fn lemma_flags_byte_clear(z: bool, n: bool, h: bool, c: bool)
    ensures
        #[trigger] low_nibble_clear(flags_byte(z, n, h, c)),
{
}

/// The masks test the same bits as the flag accessors.
pub proof fn lemma_flag_masks(f: u8)
    ensures
        (f & ZF != 0) == flag_z(f),
        (f & NF != 0) == flag_n(f),
        (f & HF != 0) == flag_h(f),
        (f & CF != 0) == flag_c(f),
{
    assert((f & 0x80 != 0) == (f / 128 % 2 == 1)) by (bit_vector);
    assert((f & 0x40 != 0) == (f / 64 % 2 == 1)) by (bit_vector);
    assert((f & 0x20 != 0) == (f / 32 % 2 == 1)) by (bit_vector);
    assert((f & 0x10 != 0) == (f / 16 % 2 == 1)) by (bit_vector);
}

/// Packs four flags into a flag byte.
pub fn pack_flags(z: bool, n: bool, h: bool, c: bool) -> (f: u8)
    ensures
        f == flags_byte(z, n, h, c),
{
    let mut f: u8 = 0;
    if z {
        f = f + ZF;
    }
    if n {
        f = f + NF;
    }
    if h {
        f = f + HF;
    }
    if c {
        f = f + CF;
    }
    f
}

} // verus!
