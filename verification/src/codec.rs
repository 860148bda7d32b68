//! Decoding of register bytes into the integers they stand for.

use vstd::prelude::*;

verus! {

/// The little-endian 16-bit word held by two register bytes.
pub open spec fn word_le(lo: u8, hi: u8) -> int {
    lo + 256 * hi
}

/// A 16-bit word read as two's complement.
pub open spec fn signed_word(word: int) -> int {
    if word >= 0x8000 {
        word - 0x1_0000
    } else {
        word
    }
}

/// The 20-bit field held by a data register: the first byte carries bits
/// 19:12, the second bits 11:4, and the upper nibble of the third bits 3:0.
pub open spec fn adc_field(msb: u8, lsb: u8, xlsb: u8) -> int {
    msb * 4096 + lsb * 16 + xlsb / 16
}

/// A 20-bit field read as two's complement.
pub open spec fn sign_extend(field: int) -> int {
    if field >= 0x8_0000 {
        field - 0x10_0000
    } else {
        field
    }
}

/// The signed ADC code held by the three bytes of a data register.
pub open spec fn adc_code(msb: u8, lsb: u8, xlsb: u8) -> int {
    sign_extend(adc_field(msb, lsb, xlsb))
}

/// The three register bytes that hold the low 20 bits of `code`. The lower
/// nibble of the last byte is zero.
pub open spec fn adc_bytes(code: int) -> (u8, u8, u8) {
    let field = code % 0x10_0000;
    ((field / 4096) as u8, (field / 16 % 256) as u8, (field % 16 * 16) as u8)
}

/// Whether `code` fits a 20-bit two's complement field.
pub open spec fn is_adc_code(code: int) -> bool {
    -0x8_0000 <= code < 0x8_0000
}

/// Joins two register bytes, low byte first, into a 16-bit word.
pub fn u16_from_le(lo: u8, hi: u8) -> (r: u16)
    ensures
        r == word_le(lo, hi),
{
    let r: u16 = (lo as u16) | ((hi as u16) << 8);
    assert(r == lo + 256 * hi) by (bit_vector)
        requires
            r == (lo as u16) | ((hi as u16) << 8),
    ;
    r
}

/// Reinterprets a 16-bit word as two's complement.
pub fn i16_from_word(word: u16) -> (r: i16)
    ensures
        r == signed_word(word as int),
{
    if word >= 0x8000 {
        let low: u16 = word - 0x8000;
        (low as i16) - 0x4000 - 0x4000
    } else {
        word as i16
    }
}

/// Assembles the 20-bit field from the three bytes of a data register.
pub fn assemble_field(msb: u8, lsb: u8, xlsb: u8) -> (r: u32)
    ensures
        r == adc_field(msb, lsb, xlsb),
        r < 0x10_0000,
{
    let r: u32 = ((msb as u32) << 12) | ((lsb as u32) << 4) | ((xlsb as u32) >> 4);
    assert(r == msb * 4096 + lsb * 16 + xlsb / 16) by (bit_vector)
        requires
            r == ((msb as u32) << 12) | ((lsb as u32) << 4) | ((xlsb as u32) >> 4),
    ;
    r
}

/// Extends the low 20 bits of `field`, read as two's complement, to 32
/// bits.
pub fn sign_extend_field(field: u32) -> (r: i32)
    ensures
        r == sign_extend(field as int % 0x10_0000),
        is_adc_code(r as int),
{
    let low: u32 = field & 0xF_FFFF;
    assert(low == field % 0x10_0000) by (bit_vector)
        requires
            low == field & 0xF_FFFF,
    ;
    if low >= 0x8_0000 {
        (low as i32) - 0x10_0000
    } else {
        low as i32
    }
}

/// Decodes the three bytes of a data register into the signed ADC code.
pub fn decode_adc(msb: u8, lsb: u8, xlsb: u8) -> (r: i32)
    ensures
        r == adc_code(msb, lsb, xlsb),
        is_adc_code(r as int),
{
    sign_extend_field(assemble_field(msb, lsb, xlsb))
}

/// Encodes the low 20 bits of `code` as the three bytes of a data register.
pub fn encode_adc(code: i32) -> (r: [u8; 3])
    ensures
        (r[0], r[1], r[2]) == adc_bytes(code as int),
{
    let field: u32 = (code as i64 + 0x8000_0000) as u32 & 0xF_FFFF;
    assert(field == (code as int) % 0x10_0000) by {
        let wide: u32 = (code as i64 + 0x8000_0000) as u32;
        assert(wide == code + 0x8000_0000);
        assert(wide & 0xF_FFFF == wide % 0x10_0000) by (bit_vector);
    }
    let msb: u8 = (field >> 12) as u8;
    let lsb: u8 = ((field >> 4) & 0xFF) as u8;
    let xlsb: u8 = ((field & 0xF) << 4) as u8;
    assert(field >> 12 == field / 4096 && (field >> 4) & 0xFF == field / 16 % 256 && (field & 0xF)
        << 4 == field % 16 * 16) by (bit_vector)
        requires
            field < 0x10_0000,
    ;
    [msb, lsb, xlsb]
}

/// Decoding undoes encoding: a code that fits 20 bits, negative ones
/// included, comes back unchanged from the bytes it was encoded into.
pub proof fn lemma_decode_encode(code: int)
    requires
        is_adc_code(code),
    ensures
        ({
            let (msb, lsb, xlsb) = adc_bytes(code);
            adc_code(msb, lsb, xlsb) == code
        }),
{
    let field = code % 0x10_0000;
    assert(field == if code < 0 {
        code + 0x10_0000
    } else {
        code
    });
}

/// Encoding undoes decoding up to the four unused bits of the last byte.
pub proof fn lemma_encode_decode(msb: u8, lsb: u8, xlsb: u8)
    ensures
        adc_bytes(adc_code(msb, lsb, xlsb)) == (msb, lsb, (xlsb / 16 * 16) as u8),
{
    let field = adc_field(msb, lsb, xlsb);
    assert(adc_code(msb, lsb, xlsb) % 0x10_0000 == field);
    let f: u32 = field as u32;
    let m: u32 = msb as u32;
    let l: u32 = lsb as u32;
    let x: u32 = xlsb as u32;
    assert(f / 4096 == m && f / 16 % 256 == l && f % 16 * 16 == x / 16 * 16) by (bit_vector)
        requires
            m < 256,
            l < 256,
            x < 256,
            f == m * 4096 + l * 16 + x / 16,
    ;
}

/// Decoding is idempotent through a re-encoding: bytes that are decoded,
/// encoded and decoded again give the code of the first decoding.
pub proof fn lemma_decode_idempotent(msb: u8, lsb: u8, xlsb: u8)
    ensures
        ({
            let (m, l, x) = adc_bytes(adc_code(msb, lsb, xlsb));
            adc_code(m, l, x) == adc_code(msb, lsb, xlsb)
        }),
{
    lemma_encode_decode(msb, lsb, xlsb);
}

} // verus!
