//! Error detection code
//!
//! The checksum used by the RTCM protocol is CRC-24Q. This module provides a
//! function for calculating that checksum value over a set of data.
//!
//! The CRC polynomial used is
//! x^24 + x^23 + x^18 + x^17 + x^14 + x^11 + x^10 + x^7 + x^6 + x^5 + x^4 + x^3 + x + 1
//! (mask 0x1864CFB, not reversed, not XOR'd). Data is processed a byte at a
//! time: the top byte of the running value, combined with the next data byte,
//! selects the polynomial remainder of that byte shifted up by 16 bits.
use vstd::prelude::*;

verus! {

/// Mask of the 24 bits that a CRC-24Q value occupies.
pub const CRC24Q_MASK: u32 = 0x00FF_FFFF;

/// One step of polynomial division on a 24-bit value: shift left by one
/// bit, and reduce by the polynomial if a bit fell off the top.
pub open spec fn poly_step(x: u32) -> u32 {
    if x & 0x0080_0000 != 0 {
        ((x << 1u32) & 0x00FF_FFFF) ^ 0x0086_4CFB
    } else {
        (x << 1u32) & 0x00FF_FFFF
    }
}

/// The remainder of the byte `index` shifted to the top of the 24-bit value,
/// after eight division steps: the entry of the byte-wise CRC-24Q table.
pub open spec fn table_entry(index: u32) -> u32 {
    poly_step(
        poly_step(
            poly_step(
                poly_step(poly_step(poly_step(poly_step(poly_step((index & 0xFF) << 16u32))))),
            ),
        ),
    )
}

/// The CRC-24Q value after processing one more byte.
pub open spec fn crc24q_update(crc: u32, byte: u8) -> u32 {
    ((crc << 8u32) & 0x00FF_FFFF) ^ table_entry(((crc >> 16u32) ^ (byte as u32)) & 0xFF)
}

/// The CRC-24Q value of `data`, starting from the lower 24 bits of `init`.
pub open spec fn crc24q_spec(data: Seq<u8>, init: u32) -> u32
    decreases data.len(),
{
    if data.len() == 0 {
        init & 0x00FF_FFFF
    } else {
        crc24q_update(crc24q_spec(data.drop_last(), init), data.last())
    }
}

/// The three bytes of a 24-bit value, most significant first.
pub open spec fn crc24q_bytes(crc: u32) -> Seq<u8> {
    seq![(crc >> 16u32) as u8, (crc >> 8u32) as u8, crc as u8]
}

fn poly_step_exec(x: u32) -> (r: u32)
    ensures
        r == poly_step(x),
{
    if x & 0x0080_0000 != 0 {
        ((x << 1u32) & 0x00FF_FFFF) ^ 0x0086_4CFB
    } else {
        (x << 1u32) & 0x00FF_FFFF
    }
}

/// The CRC-24Q table entry for a byte, computed by eight division steps.
fn crc24q_table_entry(index: u32) -> (r: u32)
    ensures
        r == table_entry(index),
{
    let mut x = (index & 0xFF) << 16u32;
    x = poly_step_exec(x);
    x = poly_step_exec(x);
    x = poly_step_exec(x);
    x = poly_step_exec(x);
    x = poly_step_exec(x);
    x = poly_step_exec(x);
    x = poly_step_exec(x);
    x = poly_step_exec(x);
    x
}

/// Calculate Qualcomm 24-bit Cyclical Redundancy Check (CRC-24Q).
///
/// This CRC is used with the RTCM protocol. Only the lower 24 bits of the
/// initial value are used.
pub fn compute_crc24q(buf: &[u8], initial_value: u32) -> (crc: u32)
    ensures
        crc == crc24q_spec(buf@, initial_value),
        crc <= CRC24Q_MASK,
{
    let mut crc = initial_value & 0x00FF_FFFF;
    let mut i: usize = 0;
    while i < buf.len()
        invariant
            i <= buf.len(),
            crc == crc24q_spec(buf@.take(i as int), initial_value),
        decreases buf.len() - i,
    {
        let byte = buf[i];
        let index = ((crc >> 16u32) ^ (byte as u32)) & 0xFF;
        crc = ((crc << 8u32) & 0x00FF_FFFF) ^ crc24q_table_entry(index);
        proof {
            assert(buf@.take(i + 1).drop_last() =~= buf@.take(i as int));
        }
        i = i + 1;
    }
    proof {
        assert(buf@.take(i as int) =~= buf@);
        lemma_crc24q_bound(buf@, initial_value);
    }
    crc
}

/// Every CRC-24Q value fits in 24 bits.
pub proof fn lemma_crc24q_bound(data: Seq<u8>, init: u32)
    ensures
        crc24q_spec(data, init) <= CRC24Q_MASK,
    decreases data.len(),
{
    if data.len() == 0 {
        assert(init & 0x00FF_FFFF <= 0x00FF_FFFF) by (bit_vector);
    } else {
        let prev = crc24q_spec(data.drop_last(), init);
        let t = table_entry(((prev >> 16u32) ^ (data.last() as u32)) & 0xFF);
        lemma_poly_step_bound_8(((prev >> 16u32) ^ (data.last() as u32)) & 0xFF);
        assert(t <= 0x00FF_FFFF ==> ((prev << 8u32) & 0x00FF_FFFF) ^ t <= 0x00FF_FFFF)
            by (bit_vector);
    }
}

proof fn lemma_poly_step_bound(x: u32)
    ensures
        poly_step(x) <= 0x00FF_FFFF,
{
    assert((((x << 1u32) & 0x00FF_FFFF) ^ 0x0086_4CFB) <= 0x00FF_FFFF) by (bit_vector);
    assert(((x << 1u32) & 0x00FF_FFFF) <= 0x00FF_FFFF) by (bit_vector);
}

proof fn lemma_poly_step_bound_8(index: u32)
    ensures
        table_entry(index) <= 0x00FF_FFFF,
{
    let x = poly_step(
        poly_step(poly_step(poly_step(poly_step(poly_step(poly_step((index & 0xFF) << 16u32)))))),
    );
    lemma_poly_step_bound(x);
}

/// Only the lower 24 bits of the initial value matter.
pub proof fn lemma_crc24q_init_masked(data: Seq<u8>, init: u32)
    ensures
        crc24q_spec(data, init) == crc24q_spec(data, init & 0x00FF_FFFF),
    decreases data.len(),
{
    if data.len() == 0 {
        assert(init & 0x00FF_FFFF == (init & 0x00FF_FFFF) & 0x00FF_FFFF) by (bit_vector);
    } else {
        lemma_crc24q_init_masked(data.drop_last(), init);
    }
}

/// The CRC of a concatenation can be computed in two pieces: the CRC of the
/// first part is the initial value for the second.
pub proof fn lemma_crc24q_incremental(a: Seq<u8>, b: Seq<u8>, init: u32)
    ensures
        crc24q_spec(a + b, init) == crc24q_spec(b, crc24q_spec(a, init)),
    decreases b.len(),
{
    if b.len() == 0 {
        assert(a + b =~= a);
        lemma_crc24q_bound(a, init);
        let c = crc24q_spec(a, init);
        assert(c <= 0x00FF_FFFF ==> c & 0x00FF_FFFF == c) by (bit_vector);
    } else {
        lemma_crc24q_incremental(a, b.drop_last(), init);
        assert((a + b).drop_last() =~= a + b.drop_last());
        assert((a + b).last() == b.last());
    }
}

proof fn lemma_table_entry_zero()
    ensures
        table_entry(0) == 0,
{
    assert(poly_step(0) == 0) by (bit_vector);
    assert((0u32 & 0xFF) << 16u32 == 0) by (bit_vector);
}

/// Appending the CRC of the data (most significant byte first) makes the
/// CRC of the whole zero; this is how receivers check a message.
pub proof fn lemma_crc24q_append_zero(data: Seq<u8>, init: u32)
    ensures
        crc24q_spec(data + crc24q_bytes(crc24q_spec(data, init)), init) == 0,
{
    let c = crc24q_spec(data, init);
    lemma_crc24q_bound(data, init);
    lemma_crc24q_incremental(data, crc24q_bytes(c), init);
    lemma_table_entry_zero();
    let bytes = crc24q_bytes(c);
    let c0 = c & 0x00FF_FFFF;
    assert(c0 == c) by (bit_vector)
        requires
            c <= 0x00FF_FFFF,
            c0 == c & 0x00FF_FFFF,
    ;
    assert(crc24q_spec(bytes.take(0), c) == c0);
    assert(bytes.take(1).drop_last() =~= bytes.take(0));
    assert(bytes.take(2).drop_last() =~= bytes.take(1));
    assert(bytes.take(3).drop_last() =~= bytes.take(2));
    assert(bytes.take(3) =~= bytes);
    let b0 = (c >> 16u32) as u8;
    let b1 = (c >> 8u32) as u8;
    let b2 = c as u8;
    assert(((c >> 16u32) ^ (b0 as u32)) & 0xFF == 0) by (bit_vector)
        requires
            c <= 0x00FF_FFFF,
            b0 == (c >> 16u32) as u8,
    ;
    let c1 = ((c << 8u32) & 0x00FF_FFFF) ^ table_entry(0);
    assert(crc24q_spec(bytes.take(1), c) == c1);
    assert(((c1 >> 16u32) ^ (b1 as u32)) & 0xFF == 0) by (bit_vector)
        requires
            c1 == ((c << 8u32) & 0x00FF_FFFF) ^ 0u32,
            b1 == (c >> 8u32) as u8,
    ;
    let c2 = ((c1 << 8u32) & 0x00FF_FFFF) ^ table_entry(0);
    assert(crc24q_spec(bytes.take(2), c) == c2);
    assert(((c2 >> 16u32) ^ (b2 as u32)) & 0xFF == 0) by (bit_vector)
        requires
            c1 == ((c << 8u32) & 0x00FF_FFFF) ^ 0u32,
            c2 == ((c1 << 8u32) & 0x00FF_FFFF) ^ 0u32,
            b2 == c as u8,
    ;
    let c3 = ((c2 << 8u32) & 0x00FF_FFFF) ^ table_entry(0);
    assert(crc24q_spec(bytes.take(3), c) == c3);
    assert(c3 == 0) by (bit_vector)
        requires
            c1 == ((c << 8u32) & 0x00FF_FFFF) ^ 0u32,
            c2 == ((c1 << 8u32) & 0x00FF_FFFF) ^ 0u32,
            c3 == ((c2 << 8u32) & 0x00FF_FFFF) ^ 0u32,
    ;
}

/// One step of long division by the CRC-24Q polynomial 0x1864CFB, with the
/// remainder kept in 24 bits: shift in a zero bit and subtract (XOR) the
/// polynomial when the bit shifted out of the top is set.
pub open spec fn long_division_step(x: u32) -> u32 {
    if (x >> 23u32) & 1 == 1 {
        ((x << 1u32) ^ 0x0186_4CFB) & 0x00FF_FFFF
    } else {
        (x << 1u32) & 0x00FF_FFFF
    }
}

/// The CRC-24Q value after one more byte, computed a bit at a time: the
/// byte is added (XOR) into the top of the remainder and eight division
/// steps follow.
pub open spec fn crc24q_bitwise_update(crc: u32, byte: u8) -> u32 {
    let x = (crc ^ ((byte as u32) << 16u32)) & 0x00FF_FFFF;
    long_division_step(
        long_division_step(
            long_division_step(
                long_division_step(
                    long_division_step(
                        long_division_step(long_division_step(long_division_step(x))),
                    ),
                ),
            ),
        ),
    )
}

/// The byte-at-a-time CRC-24Q step agrees with bit-at-a-time long division
/// by the polynomial, for every 24-bit running value and every byte: the
/// table entries are the remainders of the polynomial division.
pub proof fn lemma_crc24q_update_is_long_division(crc: u32, byte: u8)
    requires
        crc <= 0x00FF_FFFF,
    ensures
        crc24q_update(crc, byte) == crc24q_bitwise_update(crc, byte),
{
    assert(crc24q_update(crc, byte) == crc24q_bitwise_update(crc, byte)) by (bit_vector)
        requires
            crc <= 0x00FF_FFFF,
    ;
}

proof fn lemma_poly_step_linear(x: u32, y: u32)
    requires
        x <= 0x00FF_FFFF,
        y <= 0x00FF_FFFF,
    ensures
        poly_step(x ^ y) == poly_step(x) ^ poly_step(y),
        poly_step(x) <= 0x00FF_FFFF,
        poly_step(y) <= 0x00FF_FFFF,
        x ^ y <= 0x00FF_FFFF,
{
    assert(poly_step(x ^ y) == poly_step(x) ^ poly_step(y)) by (bit_vector)
        requires
            x <= 0x00FF_FFFF,
            y <= 0x00FF_FFFF,
    ;
    lemma_poly_step_bound(x);
    lemma_poly_step_bound(y);
    assert(x ^ y <= 0x00FF_FFFF) by (bit_vector)
        requires
            x <= 0x00FF_FFFF,
            y <= 0x00FF_FFFF,
    ;
}

/// The CRC-24Q table is linear: the entry of the XOR of two bytes is the XOR
/// of their entries.
pub proof fn lemma_table_entry_linear(a: u32, b: u32)
    requires
        a < 256,
        b < 256,
    ensures
        table_entry(a ^ b) == table_entry(a) ^ table_entry(b),
{
    let x0 = (a & 0xFF) << 16u32;
    let y0 = (b & 0xFF) << 16u32;
    assert(((a ^ b) & 0xFF) << 16u32 == x0 ^ y0 && x0 <= 0x00FF_FFFF && y0 <= 0x00FF_FFFF)
        by (bit_vector)
        requires
            x0 == (a & 0xFF) << 16u32,
            y0 == (b & 0xFF) << 16u32,
    ;
    lemma_poly_step_linear(x0, y0);
    let x1 = poly_step(x0);
    let y1 = poly_step(y0);
    lemma_poly_step_linear(x1, y1);
    let x2 = poly_step(x1);
    let y2 = poly_step(y1);
    lemma_poly_step_linear(x2, y2);
    let x3 = poly_step(x2);
    let y3 = poly_step(y2);
    lemma_poly_step_linear(x3, y3);
    let x4 = poly_step(x3);
    let y4 = poly_step(y3);
    lemma_poly_step_linear(x4, y4);
    let x5 = poly_step(x4);
    let y5 = poly_step(y4);
    lemma_poly_step_linear(x5, y5);
    let x6 = poly_step(x5);
    let y6 = poly_step(y5);
    lemma_poly_step_linear(x6, y6);
    let x7 = poly_step(x6);
    let y7 = poly_step(y6);
    lemma_poly_step_linear(x7, y7);
}

/// The table entries of the single-bit bytes, those of the published
/// CRC-24Q table; with linearity they fix every entry.
pub proof fn lemma_table_entry_single_bits()
    ensures
        table_entry(0) == 0,
        table_entry(1) == 0x0086_4CFB,
        table_entry(2) == 0x008A_D50D,
        table_entry(4) == 0x0093_E6E1,
        table_entry(8) == 0x00A1_8139,
        table_entry(16) == 0x00C5_4E89,
        table_entry(32) == 0x000C_D1E9,
        table_entry(64) == 0x0019_A3D2,
        table_entry(128) == 0x0033_47A4,
{
    assert(table_entry(0) == 0) by (bit_vector);
    assert(table_entry(1) == 0x0086_4CFB) by (bit_vector);
    assert(table_entry(2) == 0x008A_D50D) by (bit_vector);
    assert(table_entry(4) == 0x0093_E6E1) by (bit_vector);
    assert(table_entry(8) == 0x00A1_8139) by (bit_vector);
    assert(table_entry(16) == 0x00C5_4E89) by (bit_vector);
    assert(table_entry(32) == 0x000C_D1E9) by (bit_vector);
    assert(table_entry(64) == 0x0019_A3D2) by (bit_vector);
    assert(table_entry(128) == 0x0033_47A4) by (bit_vector);
}

/// The CRC-24Q value of `data` computed a bit at a time by long division,
/// starting from the lower 24 bits of `init`.
pub open spec fn crc24q_bitwise_spec(data: Seq<u8>, init: u32) -> u32
    decreases data.len(),
{
    if data.len() == 0 {
        init & 0x00FF_FFFF
    } else {
        crc24q_bitwise_update(crc24q_bitwise_spec(data.drop_last(), init), data.last())
    }
}

/// The CRC-24Q of every message is its remainder under bit-at-a-time long
/// division by the polynomial: what [`compute_crc24q`] returns.
pub proof fn lemma_crc24q_is_long_division(data: Seq<u8>, init: u32)
    ensures
        crc24q_spec(data, init) == crc24q_bitwise_spec(data, init),
    decreases data.len(),
{
    if data.len() > 0 {
        lemma_crc24q_is_long_division(data.drop_last(), init);
        lemma_crc24q_bound(data.drop_last(), init);
        lemma_crc24q_update_is_long_division(crc24q_spec(data.drop_last(), init), data.last());
    }
}

} // verus!
