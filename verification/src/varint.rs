//! The protocol's variable-length integer: a signed 32-bit value written
//! in 7-bit groups, least significant group first, with the high bit of a
//! byte telling that more groups follow.

use vstd::prelude::*;

verus! {

/// The most bytes a VarInt occupies on the wire.
pub const VAR_INT_MAX_SIZE: usize = 5;

/// A signed 32-bit integer sent in the variable-length form.
#[derive(Clone, Copy, PartialEq, Eq, Debug)]
pub struct VarInt(pub i32);

/// Errors met while reading values from a byte buffer.
#[derive(Debug)]
pub enum ReadingError {
    /// The buffer ended before the value was complete.
    Incomplete,
    /// A length-limited value was longer than its limit.
    TooLarge,
    /// Some other malformation, with a description.
    Message(String),
}

/// The unsigned 32-bit pattern of `x` in two's complement.
pub open spec fn twos_complement(x: i32) -> nat {
    if x >= 0 {
        x as nat
    } else {
        (x + 0x1_0000_0000) as nat
    }
}

/// The signed 32-bit value whose two's-complement pattern is `u` modulo 2^32.
pub open spec fn from_twos_complement(u: nat) -> i32 {
    let m = u % 0x1_0000_0000;
    if m < 0x8000_0000 {
        m as i32
    } else {
        (m - 0x1_0000_0000) as i32
    }
}

/// `128` to the power `n`.
pub open spec fn pow128(n: nat) -> nat
    decreases n,
{
    if n == 0 {
        1
    } else {
        128 * pow128((n - 1) as nat)
    }
}

/// The 7-bit groups of `v`, least significant first, each but the last
/// carrying the continuation bit.
pub open spec fn varint_groups(v: nat) -> Seq<u8>
    decreases v,
{
    if v < 128 {
        seq![v as u8]
    } else {
        seq![(v % 128 + 128) as u8] + varint_groups(v / 128)
    }
}

/// The wire form of `x`.
pub open spec fn varint_bytes(x: i32) -> Seq<u8> {
    varint_groups(twos_complement(x))
}

/// What reading a VarInt from the front of a byte sequence gives.
pub enum VarIntScan {
    /// The value and the number of bytes it took.
    Done(i32, nat),
    /// The bytes ran out before a final group.
    Incomplete,
    /// Five bytes all carried the continuation bit.
    TooLarge,
}

/// Reads groups from the front of `s`, `i` groups having been read before
/// with the partial sum `acc`; the fifth group is the last one allowed and
/// bits beyond 32 are dropped.
pub open spec fn scan_varint(s: Seq<u8>, i: nat, acc: nat) -> VarIntScan
    decreases 5 - i,
{
    if i >= 5 {
        VarIntScan::TooLarge
    } else if s.len() == 0 {
        VarIntScan::Incomplete
    } else {
        let b = s[0];
        let acc2 = acc + (b % 128) as nat * pow128(i);
        if b < 128 {
            VarIntScan::Done(from_twos_complement(acc2), i + 1)
        } else {
            scan_varint(s.drop_first(), i + 1, acc2)
        }
    }
}

/// What reading a VarInt at the front of `s` gives.
pub open spec fn read_varint_spec(s: Seq<u8>) -> VarIntScan {
    scan_varint(s, 0, 0)
}

proof fn lemma_pow128_facts()
    ensures
        pow128(0) == 1,
        pow128(1) == 128,
        pow128(2) == 0x4000,
        pow128(3) == 0x20_0000,
        pow128(4) == 0x1000_0000,
        pow128(5) == 0x8_0000_0000,
{
    reveal_with_fuel(pow128, 6);
}

/// The groups of `v` take at most as many bytes as `v` has 7-bit groups.
proof fn lemma_varint_groups_len(v: nat, k: nat)
    requires
        k >= 1,
        v < pow128(k),
    ensures
        1 <= varint_groups(v).len() <= k,
    decreases v,
{
    if v >= 128 {
        assert(k >= 2) by {
            if k == 1 {
                reveal_with_fuel(pow128, 2);
            }
        }
        assert(v / 128 < pow128((k - 1) as nat)) by {
            assert(pow128(k) == 128 * pow128((k - 1) as nat));
            assert(v / 128 < pow128((k - 1) as nat)) by (nonlinear_arith)
                requires
                    v < 128 * pow128((k - 1) as nat),
            ;
        }
        lemma_varint_groups_len(v / 128, (k - 1) as nat);
    }
}

/// Reading the groups of `v`, after `i` groups summing to `acc`, ends with
/// the full sum and the length of the groups.
proof fn lemma_scan_groups(v: nat, rest: Seq<u8>, i: nat, acc: nat)
    requires
        i < 5,
        v < pow128((5 - i) as nat),
    ensures
        scan_varint(varint_groups(v) + rest, i, acc) == VarIntScan::Done(
            from_twos_complement(acc + v * pow128(i)),
            i + varint_groups(v).len(),
        ),
    decreases v,
{
    let s = varint_groups(v) + rest;
    if v < 128 {
        assert(s[0] == v as u8);
        assert((v as u8) % 128 == v);
    } else {
        let b = (v % 128 + 128) as u8;
        assert(s[0] == b);
        assert(b % 128 == v % 128);
        assert(s.drop_first() =~= varint_groups(v / 128) + rest);
        let k = (5 - i) as nat;
        assert(i + 1 < 5) by {
            if i == 4 {
                reveal_with_fuel(pow128, 2);
            }
        }
        assert(v / 128 < pow128((5 - (i + 1)) as nat)) by {
            assert(pow128(k) == 128 * pow128((k - 1) as nat));
            assert(v / 128 < pow128((k - 1) as nat)) by (nonlinear_arith)
                requires
                    v < 128 * pow128((k - 1) as nat),
            ;
        }
        lemma_scan_groups(v / 128, rest, i + 1, acc + (v % 128) * pow128(i));
        assert(pow128(i + 1) == 128 * pow128(i));
        assert(acc + (v % 128) * pow128(i) + (v / 128) * pow128(i + 1) == acc + v * pow128(i))
            by (nonlinear_arith)
            requires
                pow128(i + 1) == 128 * pow128(i),
                v == 128 * (v / 128) + v % 128,
        ;
    }
}

/// Reading back the wire form of `x`, whatever follows it, gives `x` and
/// the length of the wire form.
pub proof fn lemma_varint_roundtrip(x: i32, rest: Seq<u8>)
    ensures
        read_varint_spec(varint_bytes(x) + rest) == VarIntScan::Done(x, varint_bytes(x).len()),
        1 <= varint_bytes(x).len() <= 5,
{
    lemma_pow128_facts();
    let v = twos_complement(x);
    lemma_scan_groups(v, rest, 0, 0);
    lemma_varint_groups_len(v, 5);
    assert(from_twos_complement(v) == x);
}

/// The two's-complement pattern of `x`.
fn to_twos_complement(x: i32) -> (r: u32)
    ensures
        r == twos_complement(x),
{
    if x >= 0 {
        x as u32
    } else {
        ((x as i64) + 0x1_0000_0000i64) as u32
    }
}

/// The signed value of the low 32 bits of `acc`.
fn low_bits_as_i32(acc: u64) -> (r: i32)
    ensures
        r == from_twos_complement(acc as nat),
{
    let m = acc % 0x1_0000_0000u64;
    if m < 0x8000_0000u64 {
        m as i32
    } else {
        ((m as i64) - 0x1_0000_0000i64) as i32
    }
}

impl VarInt {
    /// Appends the wire form of this value to `out`.
    pub fn encode(&self, out: &mut Vec<u8>)
        ensures
            final(out)@ == old(out)@ + varint_bytes(self.0),
    {
        let mut v: u32 = to_twos_complement(self.0);
        let ghost start = old(out)@;
        while v >= 128
            invariant
                start + varint_bytes(self.0) == out@ + varint_groups(v as nat),
            decreases v,
        {
            let b = (v % 128 + 128) as u8;
            let ghost before = out@;
            out.push(b);
            assert(varint_groups(v as nat) == seq![b] + varint_groups((v / 128) as nat));
            v = v / 128;
            assert(before + (seq![b] + varint_groups(v as nat)) =~= out@ + varint_groups(
                v as nat,
            ));
        }
        out.push(v as u8);
        assert(out@ =~= start + varint_bytes(self.0));
    }

    /// Reads a value starting at `pos`; on success gives it with the
    /// position just past it.
    pub fn decode(buf: &[u8], pos: usize) -> (r: Result<(VarInt, usize), ReadingError>)
        requires
            pos <= buf@.len(),
        ensures
            match read_varint_spec(buf@.skip(pos as int)) {
                VarIntScan::Done(v, n) => r matches Ok((x, end)) && x.0 == v && end == pos + n,
                VarIntScan::Incomplete => r matches Err(ReadingError::Incomplete),
                VarIntScan::TooLarge => r matches Err(ReadingError::TooLarge),
            },
            r matches Ok((_, end)) ==> pos < end <= buf@.len(),
    {
        proof {
            lemma_pow128_facts();
        }
        let mut i: usize = 0;
        let mut acc: u64 = 0;
        let mut p: u64 = 1;
        while i < 5
            invariant
                i <= 5,
                pos + i <= buf@.len(),
                p == pow128(i as nat),
                acc < pow128(i as nat),
                pow128(5) == 0x8_0000_0000,
                pow128(4) == 0x1000_0000,
                read_varint_spec(buf@.skip(pos as int)) == scan_varint(
                    buf@.skip(pos + i),
                    i as nat,
                    acc as nat,
                ),
            decreases 5 - i,
        {
            if i >= buf.len() - pos {
                return Err(ReadingError::Incomplete);
            }
            let b = buf[pos + i];
            assert(buf@.skip(pos + i)[0] == b);
            assert(p <= 0x1000_0000) by {
                if i < 4 {
                    assert(pow128(i as nat) <= pow128(4)) by {
                        reveal_with_fuel(pow128, 5);
                    }
                }
            }
            let ghost acc_old = acc;
            assert((b % 128) * p <= 127 * 0x1000_0000) by (nonlinear_arith)
                requires
                    b % 128 <= 127,
                    p <= 0x1000_0000,
            ;
            acc = acc + ((b % 128) as u64) * p;
            assert(acc < 128 * pow128(i as nat)) by (nonlinear_arith)
                requires
                    acc == acc_old + (b % 128) * p,
                    acc_old < p,
                    b % 128 <= 127,
                    p == pow128(i as nat),
            ;
            if b < 128 {
                let v = low_bits_as_i32(acc);
                return Ok((VarInt(v), pos + i + 1));
            }
            assert(buf@.skip(pos + i).drop_first() =~= buf@.skip(pos + i + 1));
            i = i + 1;
            p = p * 128;
        }
        Err(ReadingError::TooLarge)
    }
}

} // verus!
