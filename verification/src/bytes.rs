//! Fixed-width integers as bytes, in either byte order.
//!
//! DTrace reads its object format, and the probe records, in the byte order
//! of the machine; `native_order` gives that order, and everything that reads
//! or writes bytes takes it as a value.

use vstd::prelude::*;

verus! {

/// The order of the bytes of an integer in memory.
#[derive(Debug, Clone, Copy, PartialEq, Eq, Structural)]
pub enum ByteOrder {
    /// Least significant byte first.
    Little,
    /// Most significant byte first.
    Big,
}

/// The bytes of the `u16` value 1 in the byte order of the machine
/// (`u16::to_ne_bytes`): `[1, 0]` on a little-endian machine, `[0, 1]` on a
/// big-endian one. Which of the two comes back depends on the machine.
#[verifier::external_body]
fn one_in_native_order() -> (r: [u8; 2])
    ensures
        (r@[0] == 1 && r@[1] == 0) || (r@[0] == 0 && r@[1] == 1),
{
    1u16.to_ne_bytes()
}

/// The byte order of the machine this runs on.
pub fn native_order() -> (r: ByteOrder) {
    let one = one_in_native_order();
    if one[0] == 1 {
        ByteOrder::Little
    } else {
        ByteOrder::Big
    }
}

/// The bytes of `x` in the order `ord`.
pub open spec fn u16_bytes(x: u16, ord: ByteOrder) -> Seq<u8> {
    match ord {
        ByteOrder::Little => u16_le(x),
        ByteOrder::Big => seq![(x >> 8) as u8, (x & 0xff) as u8],
    }
}

/// The bytes of `x` in the order `ord`.
pub open spec fn u32_bytes(x: u32, ord: ByteOrder) -> Seq<u8> {
    match ord {
        ByteOrder::Little => u32_le(x),
        ByteOrder::Big => seq![(x >> 24) as u8, ((x >> 16) & 0xff) as u8, ((x >> 8) & 0xff) as u8, (x & 0xff) as u8],
    }
}

/// The bytes of `x` in the order `ord`.
pub open spec fn u64_bytes(x: u64, ord: ByteOrder) -> Seq<u8> {
    match ord {
        ByteOrder::Little => u64_le(x),
        ByteOrder::Big => seq![
            (x >> 56) as u8,
            ((x >> 48) & 0xff) as u8,
            ((x >> 40) & 0xff) as u8,
            ((x >> 32) & 0xff) as u8,
            ((x >> 24) & 0xff) as u8,
            ((x >> 16) & 0xff) as u8,
            ((x >> 8) & 0xff) as u8,
            (x & 0xff) as u8,
        ],
    }
}

pub open spec fn u16_le(x: u16) -> Seq<u8> {
    seq![(x & 0xff) as u8, (x >> 8) as u8]
}

pub open spec fn u32_le(x: u32) -> Seq<u8> {
    seq![(x & 0xff) as u8, ((x >> 8) & 0xff) as u8, ((x >> 16) & 0xff) as u8, (x >> 24) as u8]
}

pub open spec fn u64_le(x: u64) -> Seq<u8> {
    seq![
        (x & 0xff) as u8,
        ((x >> 8) & 0xff) as u8,
        ((x >> 16) & 0xff) as u8,
        ((x >> 24) & 0xff) as u8,
        ((x >> 32) & 0xff) as u8,
        ((x >> 40) & 0xff) as u8,
        ((x >> 48) & 0xff) as u8,
        (x >> 56) as u8,
    ]
}

pub open spec fn le_u16(b0: u8, b1: u8) -> u16 {
    ((b0 as u16) | ((b1 as u16) << 8)) as u16
}

pub open spec fn le_u32(b0: u8, b1: u8, b2: u8, b3: u8) -> u32 {
    ((b0 as u32) | ((b1 as u32) << 8) | ((b2 as u32) << 16) | ((b3 as u32) << 24)) as u32
}

pub open spec fn le_u64(b0: u8, b1: u8, b2: u8, b3: u8, b4: u8, b5: u8, b6: u8, b7: u8) -> u64 {
    ((b0 as u64) | ((b1 as u64) << 8) | ((b2 as u64) << 16) | ((b3 as u64) << 24) | ((b4 as u64)
        << 32) | ((b5 as u64) << 40) | ((b6 as u64) << 48) | ((b7 as u64) << 56)) as u64
}

/// The `u16` stored in the order `ord` at `at` in `b`.
pub open spec fn read_u16(b: Seq<u8>, at: int, ord: ByteOrder) -> u16 {
    match ord {
        ByteOrder::Little => le_u16(b[at], b[at + 1]),
        ByteOrder::Big => le_u16(b[at + 1], b[at]),
    }
}

/// The `u32` stored in the order `ord` at `at` in `b`.
pub open spec fn read_u32(b: Seq<u8>, at: int, ord: ByteOrder) -> u32 {
    match ord {
        ByteOrder::Little => le_u32(b[at], b[at + 1], b[at + 2], b[at + 3]),
        ByteOrder::Big => le_u32(b[at + 3], b[at + 2], b[at + 1], b[at]),
    }
}

/// The `u64` stored in the order `ord` at `at` in `b`.
pub open spec fn read_u64(b: Seq<u8>, at: int, ord: ByteOrder) -> u64 {
    match ord {
        ByteOrder::Little => le_u64(b[at], b[at + 1], b[at + 2], b[at + 3], b[at + 4], b[at + 5], b[at + 6], b[at + 7]),
        ByteOrder::Big => le_u64(b[at + 7], b[at + 6], b[at + 5], b[at + 4], b[at + 3], b[at + 2], b[at + 1], b[at]),
    }
}

pub proof fn lemma_u16_roundtrip(x: u16, ord: ByteOrder)
    ensures
        read_u16(u16_bytes(x, ord), 0, ord) == x,
{
    let b = u16_bytes(x, ord);
    assert(b.len() == 2);
    let b0 = (x & 0xff) as u8;
    let b1 = (x >> 8) as u8;
    assert(((b0 as u16) | ((b1 as u16) << 8)) as u16 == x) by (bit_vector)
        requires
            b0 == (x & 0xff) as u8,
            b1 == (x >> 8) as u8,
    ;
}

pub proof fn lemma_u32_roundtrip(x: u32, ord: ByteOrder)
    ensures
        read_u32(u32_bytes(x, ord), 0, ord) == x,
{
    let b = u32_bytes(x, ord);
    assert(b.len() == 4);
    let b0 = (x & 0xff) as u8;
    let b1 = ((x >> 8) & 0xff) as u8;
    let b2 = ((x >> 16) & 0xff) as u8;
    let b3 = (x >> 24) as u8;
    assert(((b0 as u32) | ((b1 as u32) << 8) | ((b2 as u32) << 16) | ((b3 as u32) << 24)) as u32
        == x) by (bit_vector)
        requires
            b0 == (x & 0xff) as u8,
            b1 == ((x >> 8) & 0xff) as u8,
            b2 == ((x >> 16) & 0xff) as u8,
            b3 == (x >> 24) as u8,
    ;
}

pub proof fn lemma_u64_roundtrip(x: u64, ord: ByteOrder)
    ensures
        read_u64(u64_bytes(x, ord), 0, ord) == x,
{
    let b = u64_bytes(x, ord);
    assert(b.len() == 8);
    let b0 = (x & 0xff) as u8;
    let b1 = ((x >> 8) & 0xff) as u8;
    let b2 = ((x >> 16) & 0xff) as u8;
    let b3 = ((x >> 24) & 0xff) as u8;
    let b4 = ((x >> 32) & 0xff) as u8;
    let b5 = ((x >> 40) & 0xff) as u8;
    let b6 = ((x >> 48) & 0xff) as u8;
    let b7 = (x >> 56) as u8;
    assert(((b0 as u64) | ((b1 as u64) << 8) | ((b2 as u64) << 16) | ((b3 as u64) << 24) | ((b4 as u64)
        << 32) | ((b5 as u64) << 40) | ((b6 as u64) << 48) | ((b7 as u64) << 56)) as u64 == x)
        by (bit_vector)
        requires
            b0 == (x & 0xff) as u8,
            b1 == ((x >> 8) & 0xff) as u8,
            b2 == ((x >> 16) & 0xff) as u8,
            b3 == ((x >> 24) & 0xff) as u8,
            b4 == ((x >> 32) & 0xff) as u8,
            b5 == ((x >> 40) & 0xff) as u8,
            b6 == ((x >> 48) & 0xff) as u8,
            b7 == (x >> 56) as u8,
    ;
}

/// The `u16` read back where `x` was written.
pub proof fn lemma_read_u16_at(s: Seq<u8>, at: int, x: u16, ord: ByteOrder)
    requires
        0 <= at,
        at + 2 <= s.len(),
        s.subrange(at, at + 2) == u16_bytes(x, ord),
    ensures
        read_u16(s, at, ord) == x,
{
    lemma_u16_roundtrip(x, ord);
    assert(s[at] == s.subrange(at, at + 2)[0]);
    assert(s[at + 1] == s.subrange(at, at + 2)[1]);
}

/// The `u32` read back where `x` was written.
pub proof fn lemma_read_u32_at(s: Seq<u8>, at: int, x: u32, ord: ByteOrder)
    requires
        0 <= at,
        at + 4 <= s.len(),
        s.subrange(at, at + 4) == u32_bytes(x, ord),
    ensures
        read_u32(s, at, ord) == x,
{
    lemma_u32_roundtrip(x, ord);
    let t = s.subrange(at, at + 4);
    assert(s[at] == t[0] && s[at + 1] == t[1] && s[at + 2] == t[2] && s[at + 3] == t[3]);
}

/// The `u64` read back where `x` was written.
pub proof fn lemma_read_u64_at(s: Seq<u8>, at: int, x: u64, ord: ByteOrder)
    requires
        0 <= at,
        at + 8 <= s.len(),
        s.subrange(at, at + 8) == u64_bytes(x, ord),
    ensures
        read_u64(s, at, ord) == x,
{
    lemma_u64_roundtrip(x, ord);
    let t = s.subrange(at, at + 8);
    assert(s[at] == t[0] && s[at + 1] == t[1] && s[at + 2] == t[2] && s[at + 3] == t[3]);
    assert(s[at + 4] == t[4] && s[at + 5] == t[5] && s[at + 6] == t[6] && s[at + 7] == t[7]);
}

/// Append the bytes of `x` in the order `ord`.
pub fn push_u16(v: &mut Vec<u8>, x: u16, ord: ByteOrder)
    ensures
        final(v)@ == old(v)@ + u16_bytes(x, ord),
{
    let ghost v0 = v@;
    let b0 = (x & 0xff) as u8;
    let b1 = (x >> 8) as u8;
    match ord {
        ByteOrder::Little => {
            v.push(b0);
            v.push(b1);
        },
        ByteOrder::Big => {
            v.push(b1);
            v.push(b0);
        },
    }
    proof {
        assert(v@ =~= v0 + u16_bytes(x, ord));
    }
}

/// Append the bytes of `x` in the order `ord`.
pub fn push_u32(v: &mut Vec<u8>, x: u32, ord: ByteOrder)
    ensures
        final(v)@ == old(v)@ + u32_bytes(x, ord),
{
    let ghost v0 = v@;
    let b0 = (x & 0xff) as u8;
    let b1 = ((x >> 8) & 0xff) as u8;
    let b2 = ((x >> 16) & 0xff) as u8;
    let b3 = (x >> 24) as u8;
    match ord {
        ByteOrder::Little => {
            v.push(b0);
            v.push(b1);
            v.push(b2);
            v.push(b3);
        },
        ByteOrder::Big => {
            v.push(b3);
            v.push(b2);
            v.push(b1);
            v.push(b0);
        },
    }
    proof {
        assert(v@ =~= v0 + u32_bytes(x, ord));
    }
}

/// Append the bytes of `x` in the order `ord`.
pub fn push_u64(v: &mut Vec<u8>, x: u64, ord: ByteOrder)
    ensures
        final(v)@ == old(v)@ + u64_bytes(x, ord),
{
    let ghost v0 = v@;
    let b0 = (x & 0xff) as u8;
    let b1 = ((x >> 8) & 0xff) as u8;
    let b2 = ((x >> 16) & 0xff) as u8;
    let b3 = ((x >> 24) & 0xff) as u8;
    let b4 = ((x >> 32) & 0xff) as u8;
    let b5 = ((x >> 40) & 0xff) as u8;
    let b6 = ((x >> 48) & 0xff) as u8;
    let b7 = (x >> 56) as u8;
    match ord {
        ByteOrder::Little => {
            v.push(b0);
            v.push(b1);
            v.push(b2);
            v.push(b3);
            v.push(b4);
            v.push(b5);
            v.push(b6);
            v.push(b7);
        },
        ByteOrder::Big => {
            v.push(b7);
            v.push(b6);
            v.push(b5);
            v.push(b4);
            v.push(b3);
            v.push(b2);
            v.push(b1);
            v.push(b0);
        },
    }
    proof {
        assert(v@ =~= v0 + u64_bytes(x, ord));
    }
}

/// The `u16` stored in the order `ord` at `at`.
pub fn get_u16(b: &[u8], at: usize, ord: ByteOrder) -> (r: u16)
    requires
        at + 2 <= b@.len(),
    ensures
        r == read_u16(b@, at as int, ord),
{
    let _len = b.len();
    match ord {
        ByteOrder::Little => (b[at] as u16) | ((b[at + 1] as u16) << 8),
        ByteOrder::Big => (b[at + 1] as u16) | ((b[at] as u16) << 8),
    }
}

/// The `u32` stored in the order `ord` at `at`.
pub fn get_u32(b: &[u8], at: usize, ord: ByteOrder) -> (r: u32)
    requires
        at + 4 <= b@.len(),
    ensures
        r == read_u32(b@, at as int, ord),
{
    let _len = b.len();
    match ord {
        ByteOrder::Little => (b[at] as u32) | ((b[at + 1] as u32) << 8) | ((b[at + 2] as u32) << 16)
            | ((b[at + 3] as u32) << 24),
        ByteOrder::Big => (b[at + 3] as u32) | ((b[at + 2] as u32) << 8) | ((b[at + 1] as u32) << 16)
            | ((b[at] as u32) << 24),
    }
}

/// The `u64` stored in the order `ord` at `at`.
pub fn get_u64(b: &[u8], at: usize, ord: ByteOrder) -> (r: u64)
    requires
        at + 8 <= b@.len(),
    ensures
        r == read_u64(b@, at as int, ord),
{
    let _len = b.len();
    match ord {
        ByteOrder::Little => (b[at] as u64) | ((b[at + 1] as u64) << 8) | ((b[at + 2] as u64) << 16)
            | ((b[at + 3] as u64) << 24) | ((b[at + 4] as u64) << 32) | ((b[at + 5] as u64) << 40)
            | ((b[at + 6] as u64) << 48) | ((b[at + 7] as u64) << 56),
        ByteOrder::Big => (b[at + 7] as u64) | ((b[at + 6] as u64) << 8) | ((b[at + 5] as u64) << 16)
            | ((b[at + 4] as u64) << 24) | ((b[at + 3] as u64) << 32) | ((b[at + 2] as u64) << 40)
            | ((b[at + 1] as u64) << 48) | ((b[at] as u64) << 56),
    }
}

} // verus!
