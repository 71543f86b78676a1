//! Little-endian reads at fixed offsets of a byte slice.

use vstd::prelude::*;

use crate::telemetry::model::Real;

verus! {

/// The unsigned 16-bit little-endian value at offset `i` of `b`.
pub open spec fn le_u16(b: Seq<u8>, i: int) -> u16 {
    (b[i] + 256 * b[i + 1]) as u16
}

/// The unsigned 32-bit little-endian value at offset `i` of `b`.
pub open spec fn le_u32(b: Seq<u8>, i: int) -> u32 {
    (b[i] + 256 * b[i + 1] + 65536 * b[i + 2] + 16777216 * b[i + 3]) as u32
}

/// The unsigned 64-bit little-endian value at offset `i` of `b`.
pub open spec fn le_u64(b: Seq<u8>, i: int) -> u64 {
    (le_u32(b, i) + 4294967296 * le_u32(b, i + 4)) as u64
}

/// The two's-complement signed byte at offset `i` of `b`.
pub open spec fn le_i8(b: Seq<u8>, i: int) -> i8 {
    if b[i] < 128 {
        b[i] as i8
    } else {
        (b[i] - 256) as i8
    }
}

/// The `f32` bit pattern stored little-endian at offset `i` of `b`.
pub open spec fn le_real(b: Seq<u8>, i: int) -> Real {
    Real { bits: le_u32(b, i) }
}

/// Reads the unsigned 16-bit little-endian value at `i`.
pub fn read_u16(b: &[u8], i: usize) -> (v: u16)
    requires
        i + 2 <= b@.len(),
    ensures
        v == le_u16(b@, i as int),
{
    b[i] as u16 + (b[i + 1] as u16) * 256
}

/// Reads the unsigned 32-bit little-endian value at `i`.
pub fn read_u32(b: &[u8], i: usize) -> (v: u32)
    requires
        i + 4 <= b@.len(),
    ensures
        v == le_u32(b@, i as int),
{
    b[i] as u32 + (b[i + 1] as u32) * 256 + (b[i + 2] as u32) * 65536 + (b[i + 3] as u32) * 16777216
}

/// Reads the unsigned 64-bit little-endian value at `i`.
pub fn read_u64(b: &[u8], i: usize) -> (v: u64)
    requires
        i + 8 <= b@.len(),
    ensures
        v == le_u64(b@, i as int),
{
    let len = b.len();
    let lo = read_u32(b, i);
    let hi = read_u32(b, i + 4);
    lo as u64 + (hi as u64) * 4294967296
}

/// Reads the two's-complement signed byte at `i`.
pub fn read_i8(b: &[u8], i: usize) -> (v: i8)
    requires
        i < b@.len(),
    ensures
        v == le_i8(b@, i as int),
{
    let byte = b[i];
    if byte < 128 {
        byte as i8
    } else {
        (byte as i16 - 256) as i8
    }
}

/// Reads the `f32` bit pattern stored little-endian at `i`.
pub fn read_real(b: &[u8], i: usize) -> (v: Real)
    requires
        i + 4 <= b@.len(),
    ensures
        v == le_real(b@, i as int),
{
    Real { bits: read_u32(b, i) }
}

/// Whether the `f32` with bit pattern `bits` is finite: its exponent is not all ones.
pub open spec fn finite_bits(bits: u32) -> bool {
    bits % 0x8000_0000 < 0x7F80_0000
}

/// Whether the `f32` with bit pattern `bits` is finite and not below zero
/// (`-0.0` included).
pub open spec fn non_negative_finite_bits(bits: u32) -> bool {
    bits < 0x7F80_0000 || bits == 0x8000_0000
}

/// Whether the `f32` with bit pattern `bits` is finite and within `0.0..=100.0`.
pub open spec fn percent_bits(bits: u32) -> bool {
    bits <= 0x42C8_0000 || bits == 0x8000_0000
}

/// Whether `value` is a finite number.
pub fn is_finite(value: Real) -> (b: bool)
    ensures
        b == finite_bits(value.bits),
{
    let magnitude = if value.bits >= 0x8000_0000 {
        value.bits - 0x8000_0000
    } else {
        value.bits
    };
    magnitude < 0x7F80_0000
}

/// Whether `value` is finite and not below zero.
pub fn is_non_negative_finite(value: Real) -> (b: bool)
    ensures
        b == non_negative_finite_bits(value.bits),
{
    value.bits < 0x7F80_0000 || value.bits == 0x8000_0000
}

/// Whether `value` is finite and within `0.0..=100.0`.
pub fn is_percent(value: Real) -> (b: bool)
    ensures
        b == percent_bits(value.bits),
{
    value.bits <= 0x42C8_0000 || value.bits == 0x8000_0000
}

} // verus!
