//! The two wire byte orders, chosen once per file from its header.
use vstd::prelude::*;

verus! {

/// The value of four bytes read most significant first.
pub open spec fn big_u32(b: Seq<u8>) -> u32 {
    ((b[0] as u32) << 24u32) | ((b[1] as u32) << 16u32) | ((b[2] as u32) << 8u32) | (b[3] as u32)
}

/// The value of four bytes read least significant first.
pub open spec fn little_u32(b: Seq<u8>) -> u32 {
    ((b[3] as u32) << 24u32) | ((b[2] as u32) << 16u32) | ((b[1] as u32) << 8u32) | (b[0] as u32)
}

/// The value of eight bytes read most significant first.
pub open spec fn big_u64(b: Seq<u8>) -> u64 {
    ((big_u32(b.subrange(0, 4)) as u64) << 32u64) | (big_u32(b.subrange(4, 8)) as u64)
}

/// The value of eight bytes read least significant first.
pub open spec fn little_u64(b: Seq<u8>) -> u64 {
    ((little_u32(b.subrange(4, 8)) as u64) << 32u64) | (little_u32(b.subrange(0, 4)) as u64)
}

/// The four bytes of `v`, most significant first.
pub open spec fn big_u32_bytes(v: u32) -> Seq<u8> {
    seq![(v >> 24u32) as u8, (v >> 16u32) as u8, (v >> 8u32) as u8, v as u8]
}

/// The four bytes of `v`, least significant first.
pub open spec fn little_u32_bytes(v: u32) -> Seq<u8> {
    seq![v as u8, (v >> 8u32) as u8, (v >> 16u32) as u8, (v >> 24u32) as u8]
}

/// Reading back the four bytes written most significant first gives the value.
pub proof fn lemma_big_u32_bytes(v: u32)
    ensures
        big_u32_bytes(v).len() == 4,
        big_u32(big_u32_bytes(v)) == v,
{
    let b = big_u32_bytes(v);
    let (b0, b1, b2, b3) = (b[0], b[1], b[2], b[3]);
    assert(((b0 as u32) << 24u32) | ((b1 as u32) << 16u32) | ((b2 as u32) << 8u32) | (b3 as u32)
        == v) by (bit_vector)
        requires
            b0 == (v >> 24u32) as u8,
            b1 == (v >> 16u32) as u8,
            b2 == (v >> 8u32) as u8,
            b3 == v as u8,
    ;
}

/// Reading back the four bytes written least significant first gives the value.
pub proof fn lemma_little_u32_bytes(v: u32)
    ensures
        little_u32_bytes(v).len() == 4,
        little_u32(little_u32_bytes(v)) == v,
{
    let b = little_u32_bytes(v);
    let (b0, b1, b2, b3) = (b[0], b[1], b[2], b[3]);
    assert(((b3 as u32) << 24u32) | ((b2 as u32) << 16u32) | ((b1 as u32) << 8u32) | (b0 as u32)
        == v) by (bit_vector)
        requires
            b0 == v as u8,
            b1 == (v >> 8u32) as u8,
            b2 == (v >> 16u32) as u8,
            b3 == (v >> 24u32) as u8,
    ;
}

/// The eight bytes of `v`, most significant first.
pub open spec fn big_u64_bytes(v: u64) -> Seq<u8> {
    big_u32_bytes((v >> 32u64) as u32) + big_u32_bytes(v as u32)
}

/// The eight bytes of `v`, least significant first.
pub open spec fn little_u64_bytes(v: u64) -> Seq<u8> {
    little_u32_bytes(v as u32) + little_u32_bytes((v >> 32u64) as u32)
}

/// Splitting a 64-bit value into its two halves and joining them again gives the value.
proof fn lemma_halves(v: u64, hi: u32, lo: u32)
    requires
        hi == (v >> 32u64) as u32,
        lo == v as u32,
    ensures
        ((hi as u64) << 32u64) | (lo as u64) == v,
{
    assert(((hi as u64) << 32u64) | (lo as u64) == v) by (bit_vector)
        requires
            hi == (v >> 32u64) as u32,
            lo == v as u32,
    ;
}

/// Reading back the eight bytes written most significant first gives the value.
pub proof fn lemma_big_u64_bytes(v: u64)
    ensures
        big_u64_bytes(v).len() == 8,
        big_u64(big_u64_bytes(v)) == v,
{
    let hi = (v >> 32u64) as u32;
    let lo = v as u32;
    lemma_big_u32_bytes(hi);
    lemma_big_u32_bytes(lo);
    let b = big_u64_bytes(v);
    assert(b.subrange(0, 4) =~= big_u32_bytes(hi));
    assert(b.subrange(4, 8) =~= big_u32_bytes(lo));
    lemma_halves(v, hi, lo);
}

/// Reading back the eight bytes written least significant first gives the value.
pub proof fn lemma_little_u64_bytes(v: u64)
    ensures
        little_u64_bytes(v).len() == 8,
        little_u64(little_u64_bytes(v)) == v,
{
    let hi = (v >> 32u64) as u32;
    let lo = v as u32;
    lemma_little_u32_bytes(hi);
    lemma_little_u32_bytes(lo);
    let b = little_u64_bytes(v);
    assert(b.subrange(0, 4) =~= little_u32_bytes(lo));
    assert(b.subrange(4, 8) =~= little_u32_bytes(hi));
    lemma_halves(v, hi, lo);
}

/// Relies on byteorder's `BigEndian::read_u32`: the first four bytes, most significant first.
#[verifier::external_body]
fn be_read_u32(b: &[u8]) -> (r: u32)
    requires
        b@.len() == 4,
    ensures
        r == big_u32(b@),
{
    <byteorder::BigEndian as byteorder::ByteOrder>::read_u32(b)
}

/// Relies on byteorder's `BigEndian::read_u64`: the first eight bytes, most significant first.
#[verifier::external_body]
fn be_read_u64(b: &[u8]) -> (r: u64)
    requires
        b@.len() == 8,
    ensures
        r == big_u64(b@),
{
    <byteorder::BigEndian as byteorder::ByteOrder>::read_u64(b)
}

/// Relies on byteorder's `LittleEndian::read_u32`: the first four bytes, least significant first.
#[verifier::external_body]
fn le_read_u32(b: &[u8]) -> (r: u32)
    requires
        b@.len() == 4,
    ensures
        r == little_u32(b@),
{
    <byteorder::LittleEndian as byteorder::ByteOrder>::read_u32(b)
}

/// Relies on byteorder's `LittleEndian::read_u64`: the first eight bytes, least significant first.
#[verifier::external_body]
fn le_read_u64(b: &[u8]) -> (r: u64)
    requires
        b@.len() == 8,
    ensures
        r == little_u64(b@),
{
    <byteorder::LittleEndian as byteorder::ByteOrder>::read_u64(b)
}

/// A byte order for the multi-byte fields of a file.
pub trait WireOrder {
    /// The value of four bytes in this order.
    spec fn u32_of(b: Seq<u8>) -> u32;

    /// The value of eight bytes in this order.
    spec fn u64_of(b: Seq<u8>) -> u64;

    /// The four bytes of `v` in this order.
    spec fn u32_bytes(v: u32) -> Seq<u8>;

    /// The eight bytes of `v` in this order.
    spec fn u64_bytes(v: u64) -> Seq<u8>;

    /// Reading back the four bytes of a value gives the value.
    proof fn lemma_u32_bytes(v: u32)
        ensures
            Self::u32_bytes(v).len() == 4,
            Self::u32_of(Self::u32_bytes(v)) == v,
    ;

    /// Reading back the eight bytes of a value gives the value.
    proof fn lemma_u64_bytes(v: u64)
        ensures
            Self::u64_bytes(v).len() == 8,
            Self::u64_of(Self::u64_bytes(v)) == v,
    ;

    fn read_u32(b: &[u8]) -> (r: u32)
        requires
            b@.len() == 4,
        ensures
            r == Self::u32_of(b@),
    ;

    fn read_u64(b: &[u8]) -> (r: u64)
        requires
            b@.len() == 8,
        ensures
            r == Self::u64_of(b@),
    ;
}

/// Most significant byte first.
pub struct BigOrder;

/// Least significant byte first.
pub struct LittleOrder;

impl WireOrder for BigOrder {
    open spec fn u32_of(b: Seq<u8>) -> u32 {
        big_u32(b)
    }

    open spec fn u64_of(b: Seq<u8>) -> u64 {
        big_u64(b)
    }

    open spec fn u32_bytes(v: u32) -> Seq<u8> {
        big_u32_bytes(v)
    }

    open spec fn u64_bytes(v: u64) -> Seq<u8> {
        big_u64_bytes(v)
    }

    proof fn lemma_u32_bytes(v: u32) {
        lemma_big_u32_bytes(v);
    }

    proof fn lemma_u64_bytes(v: u64) {
        lemma_big_u64_bytes(v);
    }

    fn read_u32(b: &[u8]) -> (r: u32) {
        be_read_u32(b)
    }

    fn read_u64(b: &[u8]) -> (r: u64) {
        be_read_u64(b)
    }
}

impl WireOrder for LittleOrder {
    open spec fn u32_of(b: Seq<u8>) -> u32 {
        little_u32(b)
    }

    open spec fn u64_of(b: Seq<u8>) -> u64 {
        little_u64(b)
    }

    open spec fn u32_bytes(v: u32) -> Seq<u8> {
        little_u32_bytes(v)
    }

    open spec fn u64_bytes(v: u64) -> Seq<u8> {
        little_u64_bytes(v)
    }

    proof fn lemma_u32_bytes(v: u32) {
        lemma_little_u32_bytes(v);
    }

    proof fn lemma_u64_bytes(v: u64) {
        lemma_little_u64_bytes(v);
    }

    fn read_u32(b: &[u8]) -> (r: u32) {
        le_read_u32(b)
    }

    fn read_u64(b: &[u8]) -> (r: u64) {
        le_read_u64(b)
    }
}

} // verus!
