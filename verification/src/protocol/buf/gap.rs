//! Types which implement `GapType`: the integer types, written big-endian or
//! (the `Le` variants) little-endian, as the `bytes` crate's `put_*` methods
//! write them.
use crate::protocol::buf::GapType;
use vstd::prelude::*;

verus! {

/// `v` in `n` bytes, most significant first; only `v mod 256^n` is kept.
pub open spec fn be_bytes(v: nat, n: nat) -> Seq<u8>
    decreases n,
{
    if n == 0 {
        Seq::empty()
    } else {
        be_bytes(v / 256, (n - 1) as nat).push((v % 256) as u8)
    }
}

/// `v` in `n` bytes, least significant first; only `v mod 256^n` is kept.
pub open spec fn le_bytes(v: nat, n: nat) -> Seq<u8>
    decreases n,
{
    if n == 0 {
        Seq::empty()
    } else {
        seq![(v % 256) as u8] + le_bytes(v / 256, (n - 1) as nat)
    }
}

/// `be_bytes(v, n)` has `n` bytes.
pub proof fn lemma_be_bytes_len(v: nat, n: nat)
    ensures
        be_bytes(v, n).len() == n,
    decreases n,
{
    if n > 0 {
        lemma_be_bytes_len(v / 256, (n - 1) as nat);
    }
}

/// `le_bytes(v, n)` has `n` bytes.
pub proof fn lemma_le_bytes_len(v: nat, n: nat)
    ensures
        le_bytes(v, n).len() == n,
    decreases n,
{
    if n > 0 {
        lemma_le_bytes_len(v / 256, (n - 1) as nat);
    }
}

/// Writes `be_bytes(v, n)` over the first `n` bytes of `buf`.
pub fn put_be(buf: &mut [u8], v: u128, n: usize)
    requires
        n <= old(buf)@.len(),
    ensures
        final(buf)@ == be_bytes(v as nat, n as nat) + old(buf)@.skip(n as int),
{
    let mut i: usize = n;
    let mut x: u128 = v;
    while i > 0
        invariant
            i <= n <= buf@.len(),
            buf@.len() == old(buf)@.len(),
            buf@.subrange(0, i as int) == old(buf)@.subrange(0, i as int),
            buf@.skip(n as int) == old(buf)@.skip(n as int),
            be_bytes(v as nat, n as nat) == be_bytes(x as nat, i as nat) + buf@.subrange(
                i as int,
                n as int,
            ),
        decreases i,
    {
        let ghost before = buf@;
        let ghost xi = x;
        buf[i - 1] = (x % 256) as u8;
        x = x / 256;
        i = i - 1;
        proof {
            assert(buf@.subrange(i as int, n as int) =~= seq![(xi % 256) as u8] + before.subrange(
                i + 1,
                n as int,
            ));
            assert(be_bytes(xi as nat, (i + 1) as nat) == be_bytes(x as nat, i as nat).push(
                (xi % 256) as u8,
            ));
            assert(be_bytes(x as nat, i as nat).push((xi % 256) as u8) + before.subrange(
                i + 1,
                n as int,
            ) =~= be_bytes(x as nat, i as nat) + buf@.subrange(i as int, n as int));
            assert(buf@.subrange(0, i as int) =~= before.subrange(0, i as int));
            assert(buf@.skip(n as int) =~= before.skip(n as int));
        }
    }
    assert(buf@ =~= buf@.subrange(0, n as int) + buf@.skip(n as int));
}

/// Writes `le_bytes(v, n)` over the first `n` bytes of `buf`.
pub fn put_le(buf: &mut [u8], v: u128, n: usize)
    requires
        n <= old(buf)@.len(),
    ensures
        final(buf)@ == le_bytes(v as nat, n as nat) + old(buf)@.skip(n as int),
{
    let mut i: usize = 0;
    let mut x: u128 = v;
    while i < n
        invariant
            i <= n <= buf@.len(),
            buf@.len() == old(buf)@.len(),
            forall|j: int| i <= j < buf@.len() ==> buf@[j] == old(buf)@[j],
            le_bytes(v as nat, n as nat) == buf@.subrange(0, i as int) + le_bytes(
                x as nat,
                (n - i) as nat,
            ),
        decreases n - i,
    {
        let ghost before = buf@;
        let ghost xi = x;
        buf[i] = (x % 256) as u8;
        x = x / 256;
        i = i + 1;
        proof {
            assert(buf@.subrange(0, i as int) =~= before.subrange(0, i - 1) + seq![
                (xi % 256) as u8,
            ]);
            assert(le_bytes(xi as nat, (n - i + 1) as nat) == seq![(xi % 256) as u8] + le_bytes(
                x as nat,
                (n - i) as nat,
            ));
            assert(before.subrange(0, i - 1) + (seq![(xi % 256) as u8] + le_bytes(
                x as nat,
                (n - i) as nat,
            )) =~= buf@.subrange(0, i as int) + le_bytes(x as nat, (n - i) as nat));
        }
    }
    assert(buf@.skip(n as int) =~= old(buf)@.skip(n as int));
    assert(buf@ =~= buf@.subrange(0, n as int) + buf@.skip(n as int));
}

/// Gap for a `u8`, big-endian.
#[derive(Copy, Clone, Debug)]
pub struct U8;

impl GapType for U8 {
    type Value = u8;

    open spec fn gap_size(&self) -> nat {
        1
    }

    open spec fn encode(&self, value: u8) -> Seq<u8> {
        be_bytes(value as nat, 1)
    }

    fn size(&self) -> (n: usize) {
        1
    }

    fn put(&self, buf: &mut [u8], value: u8) {
        proof {
            reveal_with_fuel(be_bytes, 2);
        }
        put_be(buf, value as u128, 1);
    }
}

/// Gap for a `i8`, as its two's-complement bits, big-endian.
#[derive(Copy, Clone, Debug)]
pub struct I8;

impl GapType for I8 {
    type Value = i8;

    open spec fn gap_size(&self) -> nat {
        1
    }

    open spec fn encode(&self, value: i8) -> Seq<u8> {
        be_bytes((value as u8) as nat, 1)
    }

    fn size(&self) -> (n: usize) {
        1
    }

    fn put(&self, buf: &mut [u8], value: i8) {
        proof {
            reveal_with_fuel(be_bytes, 2);
        }
        put_be(buf, (value as u8) as u128, 1);
    }
}

/// Gap for a `u16`, big-endian.
#[derive(Copy, Clone, Debug)]
pub struct U16;

impl GapType for U16 {
    type Value = u16;

    open spec fn gap_size(&self) -> nat {
        2
    }

    open spec fn encode(&self, value: u16) -> Seq<u8> {
        be_bytes(value as nat, 2)
    }

    fn size(&self) -> (n: usize) {
        2
    }

    fn put(&self, buf: &mut [u8], value: u16) {
        proof {
            reveal_with_fuel(be_bytes, 3);
        }
        put_be(buf, value as u128, 2);
    }
}

/// Gap for a `u16`, little-endian.
#[derive(Copy, Clone, Debug)]
pub struct U16Le;

impl GapType for U16Le {
    type Value = u16;

    open spec fn gap_size(&self) -> nat {
        2
    }

    open spec fn encode(&self, value: u16) -> Seq<u8> {
        le_bytes(value as nat, 2)
    }

    fn size(&self) -> (n: usize) {
        2
    }

    fn put(&self, buf: &mut [u8], value: u16) {
        proof {
            reveal_with_fuel(le_bytes, 3);
        }
        put_le(buf, value as u128, 2);
    }
}

/// Gap for a `i16`, as its two's-complement bits, big-endian.
#[derive(Copy, Clone, Debug)]
pub struct I16;

impl GapType for I16 {
    type Value = i16;

    open spec fn gap_size(&self) -> nat {
        2
    }

    open spec fn encode(&self, value: i16) -> Seq<u8> {
        be_bytes((value as u16) as nat, 2)
    }

    fn size(&self) -> (n: usize) {
        2
    }

    fn put(&self, buf: &mut [u8], value: i16) {
        proof {
            reveal_with_fuel(be_bytes, 3);
        }
        put_be(buf, (value as u16) as u128, 2);
    }
}

/// Gap for a `i16`, as its two's-complement bits, little-endian.
#[derive(Copy, Clone, Debug)]
pub struct I16Le;

impl GapType for I16Le {
    type Value = i16;

    open spec fn gap_size(&self) -> nat {
        2
    }

    open spec fn encode(&self, value: i16) -> Seq<u8> {
        le_bytes((value as u16) as nat, 2)
    }

    fn size(&self) -> (n: usize) {
        2
    }

    fn put(&self, buf: &mut [u8], value: i16) {
        proof {
            reveal_with_fuel(le_bytes, 3);
        }
        put_le(buf, (value as u16) as u128, 2);
    }
}

/// Gap for a `u32`, big-endian.
#[derive(Copy, Clone, Debug)]
pub struct U32;

impl GapType for U32 {
    type Value = u32;

    open spec fn gap_size(&self) -> nat {
        4
    }

    open spec fn encode(&self, value: u32) -> Seq<u8> {
        be_bytes(value as nat, 4)
    }

    fn size(&self) -> (n: usize) {
        4
    }

    fn put(&self, buf: &mut [u8], value: u32) {
        proof {
            reveal_with_fuel(be_bytes, 5);
        }
        put_be(buf, value as u128, 4);
    }
}

/// Gap for a `u32`, little-endian.
#[derive(Copy, Clone, Debug)]
pub struct U32Le;

impl GapType for U32Le {
    type Value = u32;

    open spec fn gap_size(&self) -> nat {
        4
    }

    open spec fn encode(&self, value: u32) -> Seq<u8> {
        le_bytes(value as nat, 4)
    }

    fn size(&self) -> (n: usize) {
        4
    }

    fn put(&self, buf: &mut [u8], value: u32) {
        proof {
            reveal_with_fuel(le_bytes, 5);
        }
        put_le(buf, value as u128, 4);
    }
}

/// Gap for a `i32`, as its two's-complement bits, big-endian.
#[derive(Copy, Clone, Debug)]
pub struct I32;

impl GapType for I32 {
    type Value = i32;

    open spec fn gap_size(&self) -> nat {
        4
    }

    open spec fn encode(&self, value: i32) -> Seq<u8> {
        be_bytes((value as u32) as nat, 4)
    }

    fn size(&self) -> (n: usize) {
        4
    }

    fn put(&self, buf: &mut [u8], value: i32) {
        proof {
            reveal_with_fuel(be_bytes, 5);
        }
        put_be(buf, (value as u32) as u128, 4);
    }
}

/// Gap for a `i32`, as its two's-complement bits, little-endian.
#[derive(Copy, Clone, Debug)]
pub struct I32Le;

impl GapType for I32Le {
    type Value = i32;

    open spec fn gap_size(&self) -> nat {
        4
    }

    open spec fn encode(&self, value: i32) -> Seq<u8> {
        le_bytes((value as u32) as nat, 4)
    }

    fn size(&self) -> (n: usize) {
        4
    }

    fn put(&self, buf: &mut [u8], value: i32) {
        proof {
            reveal_with_fuel(le_bytes, 5);
        }
        put_le(buf, (value as u32) as u128, 4);
    }
}

/// Gap for a `u64`, big-endian.
#[derive(Copy, Clone, Debug)]
pub struct U64;

impl GapType for U64 {
    type Value = u64;

    open spec fn gap_size(&self) -> nat {
        8
    }

    open spec fn encode(&self, value: u64) -> Seq<u8> {
        be_bytes(value as nat, 8)
    }

    fn size(&self) -> (n: usize) {
        8
    }

    fn put(&self, buf: &mut [u8], value: u64) {
        proof {
            reveal_with_fuel(be_bytes, 9);
        }
        put_be(buf, value as u128, 8);
    }
}

/// Gap for a `u64`, little-endian.
#[derive(Copy, Clone, Debug)]
pub struct U64Le;

impl GapType for U64Le {
    type Value = u64;

    open spec fn gap_size(&self) -> nat {
        8
    }

    open spec fn encode(&self, value: u64) -> Seq<u8> {
        le_bytes(value as nat, 8)
    }

    fn size(&self) -> (n: usize) {
        8
    }

    fn put(&self, buf: &mut [u8], value: u64) {
        proof {
            reveal_with_fuel(le_bytes, 9);
        }
        put_le(buf, value as u128, 8);
    }
}

/// Gap for a `i64`, as its two's-complement bits, big-endian.
#[derive(Copy, Clone, Debug)]
pub struct I64;

impl GapType for I64 {
    type Value = i64;

    open spec fn gap_size(&self) -> nat {
        8
    }

    open spec fn encode(&self, value: i64) -> Seq<u8> {
        be_bytes((value as u64) as nat, 8)
    }

    fn size(&self) -> (n: usize) {
        8
    }

    fn put(&self, buf: &mut [u8], value: i64) {
        proof {
            reveal_with_fuel(be_bytes, 9);
        }
        put_be(buf, (value as u64) as u128, 8);
    }
}

/// Gap for a `i64`, as its two's-complement bits, little-endian.
#[derive(Copy, Clone, Debug)]
pub struct I64Le;

impl GapType for I64Le {
    type Value = i64;

    open spec fn gap_size(&self) -> nat {
        8
    }

    open spec fn encode(&self, value: i64) -> Seq<u8> {
        le_bytes((value as u64) as nat, 8)
    }

    fn size(&self) -> (n: usize) {
        8
    }

    fn put(&self, buf: &mut [u8], value: i64) {
        proof {
            reveal_with_fuel(le_bytes, 9);
        }
        put_le(buf, (value as u64) as u128, 8);
    }
}

/// Gap for a `u128`, big-endian.
#[derive(Copy, Clone, Debug)]
pub struct U128;

impl GapType for U128 {
    type Value = u128;

    open spec fn gap_size(&self) -> nat {
        16
    }

    open spec fn encode(&self, value: u128) -> Seq<u8> {
        be_bytes(value as nat, 16)
    }

    fn size(&self) -> (n: usize) {
        16
    }

    fn put(&self, buf: &mut [u8], value: u128) {
        proof {
            reveal_with_fuel(be_bytes, 17);
        }
        put_be(buf, value as u128, 16);
    }
}

/// Gap for a `u128`, little-endian.
#[derive(Copy, Clone, Debug)]
pub struct U128Le;

impl GapType for U128Le {
    type Value = u128;

    open spec fn gap_size(&self) -> nat {
        16
    }

    open spec fn encode(&self, value: u128) -> Seq<u8> {
        le_bytes(value as nat, 16)
    }

    fn size(&self) -> (n: usize) {
        16
    }

    fn put(&self, buf: &mut [u8], value: u128) {
        proof {
            reveal_with_fuel(le_bytes, 17);
        }
        put_le(buf, value as u128, 16);
    }
}

/// Gap for a `i128`, as its two's-complement bits, big-endian.
#[derive(Copy, Clone, Debug)]
pub struct I128;

impl GapType for I128 {
    type Value = i128;

    open spec fn gap_size(&self) -> nat {
        16
    }

    open spec fn encode(&self, value: i128) -> Seq<u8> {
        be_bytes((value as u128) as nat, 16)
    }

    fn size(&self) -> (n: usize) {
        16
    }

    fn put(&self, buf: &mut [u8], value: i128) {
        proof {
            reveal_with_fuel(be_bytes, 17);
        }
        put_be(buf, (value as u128) as u128, 16);
    }
}

/// Gap for a `i128`, as its two's-complement bits, little-endian.
#[derive(Copy, Clone, Debug)]
pub struct I128Le;

impl GapType for I128Le {
    type Value = i128;

    open spec fn gap_size(&self) -> nat {
        16
    }

    open spec fn encode(&self, value: i128) -> Seq<u8> {
        le_bytes((value as u128) as nat, 16)
    }

    fn size(&self) -> (n: usize) {
        16
    }

    fn put(&self, buf: &mut [u8], value: i128) {
        proof {
            reveal_with_fuel(le_bytes, 17);
        }
        put_le(buf, (value as u128) as u128, 16);
    }
}

/// `256^n`.
pub open spec fn pow256(n: nat) -> nat
    decreases n,
{
    if n == 0 {
        1
    } else {
        256 * pow256((n - 1) as nat)
    }
}

/// The number that `s` stands for, most significant byte first.
pub open spec fn be_value(s: Seq<u8>) -> nat
    decreases s.len(),
{
    if s.len() == 0 {
        0
    } else {
        (be_value(s.drop_last()) * 256 + s.last()) as nat
    }
}

/// The number that `s` stands for, least significant byte first.
pub open spec fn le_value(s: Seq<u8>) -> nat
    decreases s.len(),
{
    if s.len() == 0 {
        0
    } else {
        (s[0] + 256 * le_value(s.drop_first())) as nat
    }
}

/// Read most significant byte first, the `n` bytes of `be_bytes(v, n)` give
/// back `v`, for every `v` that fits in `n` bytes.
pub proof fn lemma_be_bytes_round_trip(v: nat, n: nat)
    requires
        v < pow256(n),
    ensures
        be_bytes(v, n).len() == n,
        be_value(be_bytes(v, n)) == v,
    decreases n,
{
    lemma_be_bytes_len(v, n);
    if n > 0 {
        lemma_be_bytes_round_trip(v / 256, (n - 1) as nat);
        let s = be_bytes(v, n);
        assert(s.drop_last() =~= be_bytes(v / 256, (n - 1) as nat));
    }
}

/// Read least significant byte first, the `n` bytes of `le_bytes(v, n)` give
/// back `v`, for every `v` that fits in `n` bytes.
pub proof fn lemma_le_bytes_round_trip(v: nat, n: nat)
    requires
        v < pow256(n),
    ensures
        le_bytes(v, n).len() == n,
        le_value(le_bytes(v, n)) == v,
    decreases n,
{
    lemma_le_bytes_len(v, n);
    if n > 0 {
        lemma_le_bytes_round_trip(v / 256, (n - 1) as nat);
        let s = le_bytes(v, n);
        assert(s.drop_first() =~= le_bytes(v / 256, (n - 1) as nat));
    }
}

/// Every gap type is exactly as wide as its value type, and the bytes it
/// writes, read in its byte order, give back the value written: the value
/// itself for unsigned types, and for signed types its two's-complement bits
/// (a negative value plus `2^bits`).
pub proof fn lemma_gaps_hold_their_values()
    ensures
        U8.gap_size() == vstd::layout::size_of::<u8>(),
        I8.gap_size() == vstd::layout::size_of::<i8>(),
        U16.gap_size() == vstd::layout::size_of::<u16>(),
        U16Le.gap_size() == vstd::layout::size_of::<u16>(),
        I16.gap_size() == vstd::layout::size_of::<i16>(),
        I16Le.gap_size() == vstd::layout::size_of::<i16>(),
        U32.gap_size() == vstd::layout::size_of::<u32>(),
        U32Le.gap_size() == vstd::layout::size_of::<u32>(),
        I32.gap_size() == vstd::layout::size_of::<i32>(),
        I32Le.gap_size() == vstd::layout::size_of::<i32>(),
        U64.gap_size() == vstd::layout::size_of::<u64>(),
        U64Le.gap_size() == vstd::layout::size_of::<u64>(),
        I64.gap_size() == vstd::layout::size_of::<i64>(),
        I64Le.gap_size() == vstd::layout::size_of::<i64>(),
        U128.gap_size() == vstd::layout::size_of::<u128>(),
        U128Le.gap_size() == vstd::layout::size_of::<u128>(),
        I128.gap_size() == vstd::layout::size_of::<i128>(),
        I128Le.gap_size() == vstd::layout::size_of::<i128>(),
        forall|v: u8| be_value(#[trigger] U8.encode(v)) == v,
        forall|v: i8| be_value(#[trigger] I8.encode(v)) == (if v < 0 { v + 256 } else { v as int }),
        forall|v: u16| be_value(#[trigger] U16.encode(v)) == v,
        forall|v: u16| le_value(#[trigger] U16Le.encode(v)) == v,
        forall|v: i16| be_value(#[trigger] I16.encode(v)) == (if v < 0 { v + 65536 } else { v as int }),
        forall|v: i16| le_value(#[trigger] I16Le.encode(v)) == (if v < 0 { v + 65536 } else { v as int }),
        forall|v: u32| be_value(#[trigger] U32.encode(v)) == v,
        forall|v: u32| le_value(#[trigger] U32Le.encode(v)) == v,
        forall|v: i32| be_value(#[trigger] I32.encode(v)) == (if v < 0 { v + 4294967296 } else { v as int }),
        forall|v: i32| le_value(#[trigger] I32Le.encode(v)) == (if v < 0 { v + 4294967296 } else { v as int }),
        forall|v: u64| be_value(#[trigger] U64.encode(v)) == v,
        forall|v: u64| le_value(#[trigger] U64Le.encode(v)) == v,
        forall|v: i64| be_value(#[trigger] I64.encode(v)) == (if v < 0 { v + 18446744073709551616 } else { v as int }),
        forall|v: i64| le_value(#[trigger] I64Le.encode(v)) == (if v < 0 { v + 18446744073709551616 } else { v as int }),
        forall|v: u128| be_value(#[trigger] U128.encode(v)) == v,
        forall|v: u128| le_value(#[trigger] U128Le.encode(v)) == v,
        forall|v: i128| be_value(#[trigger] I128.encode(v)) == (if v < 0 { v + 340282366920938463463374607431768211456 } else { v as int }),
        forall|v: i128| le_value(#[trigger] I128Le.encode(v)) == (if v < 0 { v + 340282366920938463463374607431768211456 } else { v as int }),
{
    broadcast use vstd::layout::layout_of_primitives;

    reveal_with_fuel(pow256, 17);
    assert forall|v: u8| be_value(#[trigger] U8.encode(v)) == v by {
        lemma_be_bytes_round_trip(v as nat, 1);
    }
    assert forall|v: i8| be_value(#[trigger] I8.encode(v)) == (if v < 0 { v + 256 } else { v as int }) by {
        assert(v < 0 ==> (v as u8) as int == v + 256) by (bit_vector);
        assert(v >= 0 ==> (v as u8) as int == v) by (bit_vector);
        lemma_be_bytes_round_trip((v as u8) as nat, 1);
    }
    assert forall|v: u16| be_value(#[trigger] U16.encode(v)) == v by {
        lemma_be_bytes_round_trip(v as nat, 2);
    }
    assert forall|v: u16| le_value(#[trigger] U16Le.encode(v)) == v by {
        lemma_le_bytes_round_trip(v as nat, 2);
    }
    assert forall|v: i16| be_value(#[trigger] I16.encode(v)) == (if v < 0 { v + 65536 } else { v as int }) by {
        assert(v < 0 ==> (v as u16) as int == v + 65536) by (bit_vector);
        assert(v >= 0 ==> (v as u16) as int == v) by (bit_vector);
        lemma_be_bytes_round_trip((v as u16) as nat, 2);
    }
    assert forall|v: i16| le_value(#[trigger] I16Le.encode(v)) == (if v < 0 { v + 65536 } else { v as int }) by {
        assert(v < 0 ==> (v as u16) as int == v + 65536) by (bit_vector);
        assert(v >= 0 ==> (v as u16) as int == v) by (bit_vector);
        lemma_le_bytes_round_trip((v as u16) as nat, 2);
    }
    assert forall|v: u32| be_value(#[trigger] U32.encode(v)) == v by {
        lemma_be_bytes_round_trip(v as nat, 4);
    }
    assert forall|v: u32| le_value(#[trigger] U32Le.encode(v)) == v by {
        lemma_le_bytes_round_trip(v as nat, 4);
    }
    assert forall|v: i32| be_value(#[trigger] I32.encode(v)) == (if v < 0 { v + 4294967296 } else { v as int }) by {
        assert(v < 0 ==> (v as u32) as int == v + 4294967296) by (bit_vector);
        assert(v >= 0 ==> (v as u32) as int == v) by (bit_vector);
        lemma_be_bytes_round_trip((v as u32) as nat, 4);
    }
    assert forall|v: i32| le_value(#[trigger] I32Le.encode(v)) == (if v < 0 { v + 4294967296 } else { v as int }) by {
        assert(v < 0 ==> (v as u32) as int == v + 4294967296) by (bit_vector);
        assert(v >= 0 ==> (v as u32) as int == v) by (bit_vector);
        lemma_le_bytes_round_trip((v as u32) as nat, 4);
    }
    assert forall|v: u64| be_value(#[trigger] U64.encode(v)) == v by {
        lemma_be_bytes_round_trip(v as nat, 8);
    }
    assert forall|v: u64| le_value(#[trigger] U64Le.encode(v)) == v by {
        lemma_le_bytes_round_trip(v as nat, 8);
    }
    assert forall|v: i64| be_value(#[trigger] I64.encode(v)) == (if v < 0 { v + 18446744073709551616 } else { v as int }) by {
        assert(v < 0 ==> (v as u64) as int == v + 18446744073709551616) by (bit_vector);
        assert(v >= 0 ==> (v as u64) as int == v) by (bit_vector);
        lemma_be_bytes_round_trip((v as u64) as nat, 8);
    }
    assert forall|v: i64| le_value(#[trigger] I64Le.encode(v)) == (if v < 0 { v + 18446744073709551616 } else { v as int }) by {
        assert(v < 0 ==> (v as u64) as int == v + 18446744073709551616) by (bit_vector);
        assert(v >= 0 ==> (v as u64) as int == v) by (bit_vector);
        lemma_le_bytes_round_trip((v as u64) as nat, 8);
    }
    assert forall|v: u128| be_value(#[trigger] U128.encode(v)) == v by {
        lemma_be_bytes_round_trip(v as nat, 16);
    }
    assert forall|v: u128| le_value(#[trigger] U128Le.encode(v)) == v by {
        lemma_le_bytes_round_trip(v as nat, 16);
    }
    assert forall|v: i128| be_value(#[trigger] I128.encode(v)) == (if v < 0 { v + 340282366920938463463374607431768211456 } else { v as int }) by {
        assert(v < 0 ==> (v as u128) as int == v + 340282366920938463463374607431768211456) by (bit_vector);
        assert(v >= 0 ==> (v as u128) as int == v) by (bit_vector);
        lemma_be_bytes_round_trip((v as u128) as nat, 16);
    }
    assert forall|v: i128| le_value(#[trigger] I128Le.encode(v)) == (if v < 0 { v + 340282366920938463463374607431768211456 } else { v as int }) by {
        assert(v < 0 ==> (v as u128) as int == v + 340282366920938463463374607431768211456) by (bit_vector);
        assert(v >= 0 ==> (v as u128) as int == v) by (bit_vector);
        lemma_le_bytes_round_trip((v as u128) as nat, 16);
    }
}

} // verus!
