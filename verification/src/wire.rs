//! Reading and writing the protocol's basic values (booleans, big-endian
//! integers, length-prefixed strings and optional values) in byte buffers.

use vstd::prelude::*;
use vstd::utf8::*;
use vstd::string::StringSliceAdditionalSpecFns;
use std::borrow::ToOwned;

use crate::varint::{lemma_varint_roundtrip, read_varint_spec, varint_bytes, ReadingError, VarInt, VarIntScan};

verus! {

broadcast use {encode_utf8_valid_utf8, encode_utf8_decode_utf8};

/// What parsing a value from the front of a byte sequence gives.
pub enum Parsed<T> {
    /// The value and the number of bytes it took.
    Value(T, nat),
    /// The bytes ran out first.
    Incomplete,
    /// A length prefix was negative or over its limit, or a VarInt was too long.
    TooLarge,
    /// The bytes are not a value of this kind.
    Malformed,
}

/// The executable result `r`, of a read that began at `pos`, is the one
/// `p` describes, with `f` giving the abstract value of what was read.
pub open spec fn read_matches<T, V>(
    r: Result<(T, usize), ReadingError>,
    p: Parsed<V>,
    pos: int,
    f: spec_fn(T) -> V,
) -> bool {
    match p {
        Parsed::Value(v, n) => r matches Ok((x, end)) && f(x) == v && end == pos + n,
        Parsed::Incomplete => r matches Err(ReadingError::Incomplete),
        Parsed::TooLarge => r matches Err(ReadingError::TooLarge),
        Parsed::Malformed => r matches Err(ReadingError::Message(_)),
    }
}

/// Wire form of a boolean.
pub open spec fn bool_byte(b: bool) -> u8 {
    if b {
        1
    } else {
        0
    }
}

/// A boolean is one byte; any byte other than zero reads as `true`.
pub open spec fn parse_bool(s: Seq<u8>) -> Parsed<bool> {
    if s.len() == 0 {
        Parsed::Incomplete
    } else {
        Parsed::Value(s[0] != 0, 1)
    }
}

/// The four bytes of `v`, most significant first.
pub open spec fn u32_be_bytes(v: u32) -> Seq<u8> {
    seq![
        (v / 0x100_0000) as u8,
        (v / 0x1_0000 % 256) as u8,
        (v / 0x100 % 256) as u8,
        (v % 256) as u8,
    ]
}

/// A big-endian 32-bit value from the front of `s`.
pub open spec fn parse_u32_be(s: Seq<u8>) -> Parsed<u32> {
    if s.len() < 4 {
        Parsed::Incomplete
    } else {
        Parsed::Value(
            (s[0] as nat * 0x100_0000 + s[1] as nat * 0x1_0000 + s[2] as nat * 0x100
                + s[3] as nat) as u32,
            4,
        )
    }
}

/// Wire form of a string: the UTF-8 byte count as a VarInt, then the bytes.
pub open spec fn string_wire(s: Seq<char>) -> Seq<u8> {
    varint_bytes(encode_utf8(s).len() as i32) + encode_utf8(s)
}

/// A string is writable when its UTF-8 byte count fits the VarInt prefix.
pub open spec fn string_writable(s: Seq<char>) -> bool {
    encode_utf8(s).len() <= i32::MAX
}

/// A length-prefixed UTF-8 string of at most `bound` bytes from the front of `s`.
pub open spec fn parse_string(s: Seq<u8>, bound: nat) -> Parsed<Seq<char>> {
    match read_varint_spec(s) {
        VarIntScan::Done(len, n) => {
            if len < 0 || len > bound {
                Parsed::TooLarge
            } else if s.len() < n + len {
                Parsed::Incomplete
            } else {
                let bytes = s.subrange(n as int, n + len);
                if valid_utf8(bytes) {
                    Parsed::Value(decode_utf8(bytes), (n + len) as nat)
                } else {
                    Parsed::Malformed
                }
            }
        },
        VarIntScan::Incomplete => Parsed::Incomplete,
        VarIntScan::TooLarge => Parsed::TooLarge,
    }
}

/// Appends `bytes` to `out`.
pub fn append_bytes(out: &mut Vec<u8>, bytes: &[u8])
    ensures
        final(out)@ == old(out)@ + bytes@,
{
    let mut i: usize = 0;
    while i < bytes.len()
        invariant
            i <= bytes@.len(),
            out@ == old(out)@ + bytes@.subrange(0, i as int),
        decreases bytes@.len() - i,
    {
        out.push(bytes[i]);
        i += 1;
        assert(out@ =~= old(out)@ + bytes@.subrange(0, i as int));
    }
    assert(bytes@.subrange(0, bytes@.len() as int) =~= bytes@);
}

/// Writes a boolean.
pub fn write_bool(b: bool, out: &mut Vec<u8>)
    ensures
        final(out)@ == old(out)@.push(bool_byte(b)),
{
    out.push(if b {
        1u8
    } else {
        0u8
    });
}

/// Reads a boolean at `pos`.
pub fn read_bool(buf: &[u8], pos: usize) -> (r: Result<(bool, usize), ReadingError>)
    requires
        pos <= buf@.len(),
    ensures
        read_matches(r, parse_bool(buf@.skip(pos as int)), pos as int, |x: bool| x),
{
    if pos >= buf.len() {
        return Err(ReadingError::Incomplete);
    }
    Ok((buf[pos] != 0, pos + 1))
}

/// Writes a 32-bit value, most significant byte first.
pub fn write_u32_be(v: u32, out: &mut Vec<u8>)
    ensures
        final(out)@ == old(out)@ + u32_be_bytes(v),
{
    let ghost start = out@;
    out.push((v / 0x100_0000) as u8);
    out.push((v / 0x1_0000 % 256) as u8);
    out.push((v / 0x100 % 256) as u8);
    out.push((v % 256) as u8);
    assert(out@ =~= start + u32_be_bytes(v));
}

/// Reads a big-endian 32-bit value at `pos`.
pub fn read_u32_be(buf: &[u8], pos: usize) -> (r: Result<(u32, usize), ReadingError>)
    requires
        pos <= buf@.len(),
    ensures
        read_matches(r, parse_u32_be(buf@.skip(pos as int)), pos as int, |x: u32| x),
{
    if buf.len() - pos < 4 {
        return Err(ReadingError::Incomplete);
    }
    let v = (buf[pos] as u32) * 0x100_0000 + (buf[pos + 1] as u32) * 0x1_0000 + (buf[pos + 2] as u32)
        * 0x100 + (buf[pos + 3] as u32);
    Ok((v, pos + 4))
}

/// Reading back the four bytes of `v` gives `v`.
pub proof fn lemma_u32_be_roundtrip(v: u32, rest: Seq<u8>)
    ensures
        parse_u32_be(u32_be_bytes(v) + rest) == Parsed::Value(v, 4),
{
    let s = u32_be_bytes(v) + rest;
    assert(s[0] == (v / 0x100_0000) as u8);
    assert(s[1] == (v / 0x1_0000 % 256) as u8);
    assert(s[2] == (v / 0x100 % 256) as u8);
    assert(s[3] == (v % 256) as u8);
    assert((v / 0x100_0000) as nat * 0x100_0000 + (v / 0x1_0000 % 256) as nat * 0x1_0000 + (v
        / 0x100 % 256) as nat * 0x100 + (v % 256) as nat == v);
}

/// Writes a string with its VarInt byte-count prefix.
pub fn write_string(s: &str, out: &mut Vec<u8>)
    requires
        string_writable(s@),
    ensures
        final(out)@ == old(out)@ + string_wire(s@),
{
    let bytes = s.as_bytes();
    let len = VarInt(bytes.len() as i32);
    len.encode(out);
    append_bytes(out, bytes);
    assert(out@ =~= old(out)@ + string_wire(s@));
}

/// `std::str::from_utf8`: succeeds exactly when `bytes` is valid UTF-8,
/// and then gives the text those bytes encode.
#[verifier::external_body]
fn str_from_utf8(bytes: &[u8]) -> (r: Option<&str>)
    ensures
        r is Some <==> valid_utf8(bytes@),
        r matches Some(s) ==> s@ == decode_utf8(bytes@),
{
    match std::str::from_utf8(bytes) {
        Ok(s) => Some(s),
        Err(_) => None,
    }
}

/// Reads a length-prefixed UTF-8 string of at most `bound` bytes at `pos`.
pub fn read_string_bounded(buf: &[u8], pos: usize, bound: usize) -> (r: Result<
    (String, usize),
    ReadingError,
>)
    requires
        pos <= buf@.len(),
    ensures
        read_matches(r, parse_string(buf@.skip(pos as int), bound as nat), pos as int, |x: String| x@),
{
    let (len, p) = match VarInt::decode(buf, pos) {
        Ok(v) => v,
        Err(e) => {
            return Err(e);
        },
    };
    if len.0 < 0 || len.0 as usize > bound {
        return Err(ReadingError::TooLarge);
    }
    let n = len.0 as usize;
    if n > buf.len() - p {
        return Err(ReadingError::Incomplete);
    }
    let bytes = vstd::slice::slice_subrange(buf, p, p + n);
    assert(bytes@ =~= buf@.skip(pos as int).subrange((p - pos) as int, (p - pos) + n));
    match str_from_utf8(bytes) {
        Some(s) => Ok((s.to_owned(), p + n)),
        None => Err(ReadingError::Message("invalid UTF-8 in string".to_owned())),
    }
}

/// Reading back the wire form of a writable string within its bound
/// gives the string and the length of its wire form.
pub proof fn lemma_string_roundtrip(s: Seq<char>, bound: nat, rest: Seq<u8>)
    requires
        string_writable(s),
        encode_utf8(s).len() <= bound,
    ensures
        parse_string(string_wire(s) + rest, bound) == Parsed::Value(s, string_wire(s).len()),
{
    let bytes = encode_utf8(s);
    let prefix = varint_bytes(bytes.len() as i32);
    lemma_varint_roundtrip(bytes.len() as i32, bytes + rest);
    assert(string_wire(s) + rest =~= prefix + (bytes + rest));
    let w = string_wire(s) + rest;
    assert(w.subrange(prefix.len() as int, (prefix.len() + bytes.len()) as int) =~= bytes);
}

} // verus!
