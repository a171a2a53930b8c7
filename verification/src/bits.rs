//! Payload bit fields of CAN frames, read and written with bitvec, and sign extension.

use vstd::prelude::*;
use bitvec::field::BitField;
use bitvec::order::Lsb0;
use bitvec::view::BitView;

verus! {

/// A `u32` whose low `bits` bits are set and whose other bits are clear.
pub open spec fn low_mask32(bits: u16) -> u32
    recommends
        1 <= bits <= 32,
{
    0xFFFF_FFFFu32 >> ((32 - bits) as u32)
}

/// `res` is the two's-complement sign extension of the low `bits` bits of `raw`:
/// it agrees with `raw` on those bits, and every bit above them repeats bit `bits - 1`.
pub open spec fn is_sign_extension(raw: i32, bits: u16, res: i32) -> bool {
    &&& (res as u32) & low_mask32(bits) == (raw as u32) & low_mask32(bits)
    &&& (res >> ((bits - 1) as u32) == 0 || res >> ((bits - 1) as u32) == -1)
}

/// Sign-extends the low `bits` bits of `raw_value` to a full `i32`.
pub fn sign_extend(raw_value: i32, bits: u16) -> (res: i32)
    requires
        1 <= bits <= 32,
    ensures
        is_sign_extension(raw_value, bits, res),
{
    let shift = 32 - bits;
    let res = (raw_value << shift) >> shift;
    proof {
        let s = shift as u32;
        assert((((raw_value << s) >> s) as u32) & (0xFFFF_FFFFu32 >> s) == (raw_value as u32)
            & (0xFFFF_FFFFu32 >> s)) by (bit_vector)
            requires
                s < 32,
        ;
        assert(((raw_value << s) >> s) >> ((31 - s) as u32) == 0 || ((raw_value << s) >> s) >> ((31
            - s) as u32) == -1) by (bit_vector)
            requires
                s < 32,
        ;
    }
    res
}

/// Sign extension is determined by its input: two results that both sign-extend the same low
/// bits are equal, so extending an already extended value changes nothing.
pub proof fn lemma_sign_extension_unique(raw: i32, bits: u16, a: i32, b: i32)
    requires
        1 <= bits <= 32,
        is_sign_extension(raw, bits, a),
        is_sign_extension(raw, bits, b),
    ensures
        a == b,
        is_sign_extension(a, bits, a),
{
    let s = (32 - bits) as u32;
    assert(low_mask32(bits) == 0xFFFF_FFFFu32 >> s);
    assert({
        &&& (a as u32) & (0xFFFF_FFFFu32 >> s) == (raw as u32) & (0xFFFF_FFFFu32 >> s)
        &&& (b as u32) & (0xFFFF_FFFFu32 >> s) == (raw as u32) & (0xFFFF_FFFFu32 >> s)
        &&& (a >> ((31 - s) as u32) == 0 || a >> ((31 - s) as u32) == -1)
        &&& (b >> ((31 - s) as u32) == 0 || b >> ((31 - s) as u32) == -1)
    } ==> a == b) by (bit_vector)
        requires
            s < 32,
    ;
}

/// Sign-extending a `len`-bit unsigned value gives its two's-complement reading: the value
/// itself below `2^(len-1)`, the value minus `2^len` from there on.
pub proof fn lemma_sign_extension_value(v: u64, len: u16, res: i32)
    requires
        1 <= len <= 31,
        v < (1u64 << (len as u64)),
        is_sign_extension(v as i32, len, res),
    ensures
        res == (if v >= (1u64 << ((len - 1) as u64)) {
            (v as i64 - (1i64 << (len as u64))) as i32
        } else {
            v as i32
        }),
{
    let l = len as u32;
    assert(low_mask32(len) == 0xFFFF_FFFFu32 >> ((32 - l) as u32));
    assert({
        &&& (res as u32) & (0xFFFF_FFFFu32 >> ((32 - l) as u32)) == ((v as i32) as u32) & (
        0xFFFF_FFFFu32 >> ((32 - l) as u32))
        &&& (res >> ((l - 1) as u32) == 0 || res >> ((l - 1) as u32) == -1)
    } ==> res == (if v >= (1u64 << ((l - 1) as u64)) {
        (v as i64 - (1i64 << (l as u64))) as i32
    } else {
        v as i32
    })) by (bit_vector)
        requires
            1 <= l <= 31,
            v < (1u64 << (l as u64)),
    ;
}

/// The 64-bit little-endian word made of eight bytes: `b0` is the least significant byte.
pub open spec fn word_of_bytes(
    b0: u8,
    b1: u8,
    b2: u8,
    b3: u8,
    b4: u8,
    b5: u8,
    b6: u8,
    b7: u8,
) -> u64 {
    (b0 as u64) | ((b1 as u64) << 8u64) | ((b2 as u64) << 16u64) | ((b3 as u64) << 24u64) | ((
    b4 as u64) << 32u64) | ((b5 as u64) << 40u64) | ((b6 as u64) << 48u64) | ((b7 as u64)
        << 56u64)
}

/// The payload of a CAN frame read as one little-endian 64-bit word, so that payload bit `i`
/// (bit `i % 8` of byte `i / 8`) is bit `i` of the word.
pub open spec fn payload_word(data: Seq<u8>) -> u64
    recommends
        data.len() == 8,
{
    word_of_bytes(data[0], data[1], data[2], data[3], data[4], data[5], data[6], data[7])
}

/// A `u64` whose low `len` bits are set and whose other bits are clear.
pub open spec fn low_mask64(len: u64) -> u64 {
    if len >= 64 {
        0xFFFF_FFFF_FFFF_FFFFu64
    } else {
        !(0xFFFF_FFFF_FFFF_FFFFu64 << len)
    }
}

/// The unsigned integer held in payload bits `start .. start + len`, bit `start` least significant.
pub open spec fn field(word: u64, start: u64, len: u64) -> u64 {
    (word >> start) & low_mask64(len)
}

/// Payload bit `index` of the word.
pub open spec fn bit(word: u64, index: u64) -> bool {
    (word >> index) & 1u64 == 1u64
}

/// `word` with bits `start .. start + len` replaced by the low `len` bits of `value`.
pub open spec fn with_field(word: u64, start: u64, len: u64, value: u64) -> u64 {
    (word & !(low_mask64(len) << start)) | ((value & low_mask64(len)) << start)
}

/// `word` with bit `index` set to `value`.
pub open spec fn with_bit(word: u64, index: u64, value: bool) -> u64 {
    if value {
        word | (1u64 << index)
    } else {
        word & !(1u64 << index)
    }
}

/// Reads payload bits `start .. end` as an unsigned integer, bit `start` least significant.
///
/// Calls `BitField::load_le::<u64>` on `data.view_bits::<Lsb0>()[start..end]` (bitvec). The
/// contract claims what bitvec documents for `Lsb0` little-endian loads into an unsigned type:
/// the slice's bit `k` becomes bit `k` of the result and the bits above the slice are zero.
/// `load_le` panics unless the slice holds 1 to 64 bits, and the range index panics past the
/// end of the payload; `requires` leaves both out.
#[verifier::external_body]
pub(crate) fn load_bits(data: &[u8; 8], start: usize, end: usize) -> (res: u64)
    requires
        start < end <= 64,
    ensures
        res == field(payload_word(data@), start as u64, (end - start) as u64),
{
    data.view_bits::<Lsb0>()[start..end].load_le::<u64>()
}

/// Reads payload bit `index`.
///
/// Calls `Index<usize>` on `data.view_bits::<Lsb0>()` (bitvec): in `Lsb0` order, index `i`
/// names bit `i % 8` (counted from the least significant end) of byte `i / 8`. Indexing past
/// the end panics; `requires` leaves it out.
#[verifier::external_body]
pub(crate) fn bit_at(data: &[u8; 8], index: usize) -> (res: bool)
    requires
        index < 64,
    ensures
        res == bit(payload_word(data@), index as u64),
{
    data.view_bits::<Lsb0>()[index]
}

/// Writes the low `end - start` bits of `value` into payload bits `start .. end`, leaving the
/// other bits as they were.
///
/// Calls `BitField::store_le::<u8>` on `data.view_bits_mut::<Lsb0>()[start..end]` (bitvec),
/// which documents that exactly the bits of the slice are written, from the least significant
/// bits of `value` up. `store_le::<u8>` panics unless the slice holds 1 to 8 bits; `requires`
/// leaves that out.
#[verifier::external_body]
pub(crate) fn store_bits(data: [u8; 8], start: usize, end: usize, value: u8) -> (res: [u8; 8])
    requires
        start < end <= 64,
        end - start <= 8,
    ensures
        payload_word(res@) == with_field(
            payload_word(data@),
            start as u64,
            (end - start) as u64,
            value as u64,
        ),
{
    let mut buf = data;
    buf.view_bits_mut::<Lsb0>()[start..end].store_le::<u8>(value);
    buf
}

/// Sets payload bit `index` to `value`, leaving the other bits as they were.
///
/// Calls `BitSlice::set` on `data.view_bits_mut::<Lsb0>()` (bitvec), which writes the one bit
/// named by the `Lsb0` index and panics past the end; `requires` leaves that out.
#[verifier::external_body]
pub(crate) fn set_bit(data: [u8; 8], index: usize, value: bool) -> (res: [u8; 8])
    requires
        index < 64,
    ensures
        payload_word(res@) == with_bit(payload_word(data@), index as u64, value),
{
    let mut buf = data;
    buf.view_bits_mut::<Lsb0>().set(index, value);
    buf
}

} // verus!
