//! Hashes of item data components, as the client computes them to check
//! that an item matches: a CRC-32C over a framed encoding of the value.

use vstd::prelude::*;
use vstd::string::StringSliceAdditionalSpecFns;
use vstd::utf8::encode_utf8;

use crate::varint::{from_twos_complement, twos_complement};

verus! {

/// One shift of the reflected CRC-32C register: the low bit out, and the
/// reflected polynomial 0x82F63B78 in where it was set.
pub open spec fn crc32c_shift(c: u32) -> u32 {
    if c % 2 == 1 {
        (c / 2) ^ 0x82F6_3B78u32
    } else {
        c / 2
    }
}

/// The register after one byte: the byte xored into its low bits, then
/// eight shifts.
pub open spec fn crc32c_byte(c: u32, b: u8) -> u32 {
    let x = c ^ (b as u32);
    crc32c_shift(crc32c_shift(crc32c_shift(crc32c_shift(crc32c_shift(crc32c_shift(crc32c_shift(
        crc32c_shift(x),
    )))))))
}

/// The register after the bytes of `s`, taken first to last from `init`.
pub open spec fn crc32c_register(init: u32, s: Seq<u8>) -> u32
    decreases s.len(),
{
    if s.len() == 0 {
        init
    } else {
        crc32c_byte(crc32c_register(init, s.drop_last()), s.last())
    }
}

/// The CRC-32/ISCSI (CRC-32C) checksum of `bytes`: the register starts at
/// all ones and ends xored with all ones.
#[verifier::opaque]
pub open spec fn crc32_iscsi(bytes: Seq<u8>) -> u64 {
    (crc32c_register(0xFFFF_FFFFu32, bytes) ^ 0xFFFF_FFFFu32) as u64
}

/// `crc_fast::checksum` with `CrcAlgorithm::Crc32Iscsi`: the CRC-32/ISCSI
/// checksum of `bytes` (polynomial 0x1EDC6F41 taken reflected, register
/// starting at and xored out with all ones, as the crate's parameters for
/// it give), which fits in the low 32 bits of the result.
#[verifier::external_body]
fn crc32_iscsi_checksum(bytes: &[u8]) -> (r: u64)
    ensures
        r == crc32_iscsi(bytes@),
{
    crc_fast::checksum(crc_fast::CrcAlgorithm::Crc32Iscsi, bytes)
}

/// The low 32 bits of `x`.
pub open spec fn low32(x: u64) -> u32 {
    (x % 0x1_0000_0000) as u32
}

/// The four bytes of `v`, least significant first.
pub open spec fn u32_le(v: u32) -> Seq<u8> {
    seq![
        (v % 256) as u8,
        (v / 0x100 % 256) as u8,
        (v / 0x1_0000 % 256) as u8,
        (v / 0x100_0000) as u8,
    ]
}

/// The four bytes of `v` in two's complement, least significant first.
pub open spec fn i32_le(v: i32) -> Seq<u8> {
    u32_le(twos_complement(v) as u32)
}

/// Each byte of `b` followed by a zero byte.
pub open spec fn spread_bytes(b: Seq<u8>) -> Seq<u8>
    decreases b.len(),
{
    if b.len() == 0 {
        Seq::empty()
    } else {
        spread_bytes(b.drop_last()) + seq![b.last(), 0u8]
    }
}

/// What is hashed for a string with UTF-8 bytes `b`: the tag 12, the byte
/// count cut to 32 bits (four bytes, little-endian), then each byte
/// followed by a zero.
pub open spec fn str_hash_input(b: Seq<u8>) -> Seq<u8> {
    seq![12u8] + u32_le((b.len() % 0x1_0000_0000) as u32) + spread_bytes(b)
}

/// The hash of a string with UTF-8 bytes `b`.
pub open spec fn str_hash(b: Seq<u8>) -> u32 {
    low32(crc32_iscsi(str_hash_input(b)))
}

/// What is hashed for an integer: the tag 8, then its four bytes.
pub open spec fn i32_hash_input(v: i32) -> Seq<u8> {
    seq![8u8] + i32_le(v)
}

/// The hash of an integer.
pub open spec fn i32_hash(v: i32) -> u32 {
    low32(crc32_iscsi(i32_hash_input(v)))
}

/// The hash of an integer read as a signed value.
pub open spec fn i32_hash_signed(v: i32) -> i32 {
    from_twos_complement(i32_hash(v) as nat)
}

/// Appends the four little-endian bytes of `v`.
pub fn push_u32_le(out: &mut Vec<u8>, v: u32)
    ensures
        final(out)@ == old(out)@ + u32_le(v),
{
    let ghost start = out@;
    out.push((v % 256) as u8);
    out.push((v / 0x100 % 256) as u8);
    out.push((v / 0x1_0000 % 256) as u8);
    out.push((v / 0x100_0000) as u8);
    assert(out@ =~= start + u32_le(v));
}

/// The two's-complement pattern of `x`.
pub fn i32_bits(x: i32) -> (r: u32)
    ensures
        r == twos_complement(x),
{
    if x >= 0 {
        x as u32
    } else {
        ((x as i64) + 0x1_0000_0000i64) as u32
    }
}

/// The low 32 bits of a checksum.
fn low_word(x: u64) -> (r: u32)
    ensures
        r == low32(x),
{
    (x % 0x1_0000_0000u64) as u32
}

/// A 32-bit pattern read as a signed value.
pub fn as_signed(x: u32) -> (r: i32)
    ensures
        r == from_twos_complement(x as nat),
{
    if x < 0x8000_0000u32 {
        x as i32
    } else {
        ((x as i64) - 0x1_0000_0000i64) as i32
    }
}

/// The CRC-32C of `bytes`, its low 32 bits read as a signed value.
pub fn checksum_signed(bytes: &[u8]) -> (r: i32)
    ensures
        r == from_twos_complement(crc32_iscsi(bytes@) as nat),
{
    let c = crc32_iscsi_checksum(bytes);
    let w = low_word(c);
    assert(from_twos_complement(w as nat) == from_twos_complement(c as nat)) by {
        assert((w as nat) % 0x1_0000_0000 == (c as nat) % 0x1_0000_0000);
    }
    as_signed(w)
}

/// The hash of a string: the CRC-32C of its framed bytes.
pub fn get_str_hash(val: &str) -> (r: u32)
    ensures
        r == str_hash(encode_utf8(val@)),
{
    let bytes = val.as_bytes();
    let mut input: Vec<u8> = Vec::new();
    input.push(12u8);
    let len64: u64 = bytes.len() as u64;
    push_u32_le(&mut input, (len64 % 0x1_0000_0000u64) as u32);
    let ghost head = input@;
    let mut i: usize = 0;
    while i < bytes.len()
        invariant
            i <= bytes@.len(),
            input@ == head + spread_bytes(bytes@.subrange(0, i as int)),
        decreases bytes@.len() - i,
    {
        input.push(bytes[i]);
        input.push(0u8);
        i += 1;
        assert(bytes@.subrange(0, i as int).drop_last() =~= bytes@.subrange(0, (i - 1) as int));
        assert(input@ =~= head + spread_bytes(bytes@.subrange(0, i as int)));
    }
    assert(bytes@.subrange(0, bytes@.len() as int) =~= bytes@);
    assert(input@ =~= str_hash_input(bytes@));
    let c = crc32_iscsi_checksum(input.as_slice());
    low_word(c)
}

/// The hash of an integer: the CRC-32C of the tag 8 and its four bytes.
pub fn get_i32_hash(val: i32) -> (r: u32)
    ensures
        r == i32_hash(val),
{
    let mut input: Vec<u8> = Vec::new();
    input.push(8u8);
    push_u32_le(&mut input, i32_bits(val));
    assert(input@ =~= i32_hash_input(val));
    let c = crc32_iscsi_checksum(input.as_slice());
    low_word(c)
}

} // verus!
