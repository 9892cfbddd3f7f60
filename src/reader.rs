//! Primitive fields: integers in the file's byte order, strings and numbers whose widths the
//! header selects.
use vstd::prelude::*;
use vstd::slice::{slice_subrange, slice_to_vec};
use crate::byte_order::WireOrder;
use crate::constant::{HSNumber, HSValue, ValueModel};
use crate::errors::{
    decoded, decoded_view, decoded_views, lemma_prepend_empty, lemma_prepend_step, lemma_views_push,
    prepend, views_of, HkscError,
};
use crate::header::HSHeader;

verus! {

/// Whether `n` more bytes are left at `pos`.
pub open spec fn has_bytes(d: Seq<u8>, pos: int, n: int) -> bool {
    0 <= pos && pos + n <= d.len()
}

/// One byte.
pub open spec fn parse_u8(d: Seq<u8>, pos: int) -> Result<(u8, int), HkscError> {
    if has_bytes(d, pos, 1) {
        Ok((d[pos], pos + 1))
    } else {
        Err(HkscError::ReadError)
    }
}

/// Four bytes in the order `O`.
pub open spec fn parse_u32<O: WireOrder>(d: Seq<u8>, pos: int) -> Result<(u32, int), HkscError> {
    if has_bytes(d, pos, 4) {
        Ok((O::u32_of(d.subrange(pos, pos + 4)), pos + 4))
    } else {
        Err(HkscError::ReadError)
    }
}

/// Eight bytes in the order `O`.
pub open spec fn parse_u64<O: WireOrder>(d: Seq<u8>, pos: int) -> Result<(u64, int), HkscError> {
    if has_bytes(d, pos, 8) {
        Ok((O::u64_of(d.subrange(pos, pos + 8)), pos + 8))
    } else {
        Err(HkscError::ReadError)
    }
}

/// A string is left unset by writing bytes that are all `0xFF`; no bytes at all count as unset.
pub open spec fn is_unset_name(b: Seq<u8>) -> bool {
    forall|j: int| 0 <= j < b.len() ==> #[trigger] b[j] == 0xff
}

/// The characters that a UTF-8 decoder reads from `b`, if `b` is valid UTF-8.
pub uninterp spec fn utf8_of(b: Seq<u8>) -> Option<Seq<char>>;

/// Relies on `String::from_utf8`: it succeeds exactly on valid UTF-8, and the characters depend
/// on the bytes alone.
#[verifier::external_body]
fn utf8_string(b: Vec<u8>) -> (r: Option<String>)
    ensures
        match r {
            Some(s) => utf8_of(b@) == Some(s@),
            None => utf8_of(b@) is None,
        },
{
    String::from_utf8(b).ok()
}

/// A string of exactly `n` bytes; bytes that are all `0xFF` stand for the empty string.
pub open spec fn parse_fixed_string(d: Seq<u8>, pos: int, n: int) -> Result<
    (Seq<char>, int),
    HkscError,
> {
    if !has_bytes(d, pos, n) {
        Err(HkscError::ReadError)
    } else if is_unset_name(d.subrange(pos, pos + n)) {
        Ok((Seq::empty(), pos + n))
    } else {
        match utf8_of(d.subrange(pos, pos + n)) {
            Some(s) => Ok((s, pos + n)),
            None => Err(HkscError::InvalidUTF8),
        }
    }
}

/// A string whose length comes first, in the width that `h.t_size` selects.
pub open spec fn parse_string<O: WireOrder>(d: Seq<u8>, h: HSHeader, pos: int) -> Result<
    (Seq<char>, int),
    HkscError,
> {
    if h.t_size == 4 {
        match parse_u32::<O>(d, pos) {
            Ok((n, p)) => parse_fixed_string(d, p, n as int),
            Err(e) => Err(e),
        }
    } else if h.t_size == 8 {
        match parse_u64::<O>(d, pos) {
            Ok((n, p)) => parse_fixed_string(d, p, n as int),
            Err(e) => Err(e),
        }
    } else {
        Err(HkscError::InvalidStringSize(h.t_size))
    }
}

/// A number constant in the width that `h.number_size` selects, kept as its IEEE-754 bits.
pub open spec fn parse_number<O: WireOrder>(d: Seq<u8>, h: HSHeader, pos: int) -> Result<
    (ValueModel, int),
    HkscError,
> {
    if h.number_size == 4 {
        match parse_u32::<O>(d, pos) {
            Ok((v, p)) => Ok((ValueModel::Number(HSNumber::Single(v)), p)),
            Err(e) => Err(e),
        }
    } else if h.number_size == 8 {
        match parse_u64::<O>(d, pos) {
            Ok((v, p)) => Ok((ValueModel::Number(HSNumber::Double(v)), p)),
            Err(e) => Err(e),
        }
    } else {
        Err(HkscError::InvalidNumberSize(h.number_size))
    }
}

/// Reads one byte.
pub fn read_u8(data: &[u8], pos: &mut usize) -> (r: Result<u8, HkscError>)
    ensures
        parse_u8(data@, *old(pos) as int) == decoded(r, *final(pos)),
{
    if *pos >= data.len() {
        return Err(HkscError::ReadError);
    }
    let v = data[*pos];
    *pos = *pos + 1;
    Ok(v)
}

/// Reads four bytes in the order `O`.
pub fn read_u32<O: WireOrder>(data: &[u8], pos: &mut usize) -> (r: Result<u32, HkscError>)
    ensures
        parse_u32::<O>(data@, *old(pos) as int) == decoded(r, *final(pos)),
{
    if *pos > data.len() || data.len() - *pos < 4 {
        return Err(HkscError::ReadError);
    }
    let v = O::read_u32(slice_subrange(data, *pos, *pos + 4));
    *pos = *pos + 4;
    Ok(v)
}

/// Reads eight bytes in the order `O`.
pub fn read_u64<O: WireOrder>(data: &[u8], pos: &mut usize) -> (r: Result<u64, HkscError>)
    ensures
        parse_u64::<O>(data@, *old(pos) as int) == decoded(r, *final(pos)),
{
    if *pos > data.len() || data.len() - *pos < 8 {
        return Err(HkscError::ReadError);
    }
    let v = O::read_u64(slice_subrange(data, *pos, *pos + 8));
    *pos = *pos + 8;
    Ok(v)
}

/// Reads a string of exactly `length` bytes as UTF-8; bytes that are all `0xFF` give the empty
/// string.
pub fn read_fixed_string(data: &[u8], pos: &mut usize, length: u64) -> (r: Result<
    String,
    HkscError,
>)
    ensures
        parse_fixed_string(data@, *old(pos) as int, length as int) == decoded_view(r, *final(pos)),
{
    if *pos > data.len() || ((data.len() - *pos) as u64) < length {
        return Err(HkscError::ReadError);
    }
    let n = length as usize;
    let bytes = slice_subrange(data, *pos, *pos + n);
    *pos = *pos + n;
    let mut unset = true;
    let mut i: usize = 0;
    while i < n
        invariant
            i <= n,
            bytes@.len() == n,
            unset == (forall|j: int| 0 <= j < i ==> #[trigger] bytes@[j] == 0xff),
        decreases n - i,
    {
        if bytes[i] != 0xff {
            unset = false;
        }
        i = i + 1;
    }
    if unset {
        return Ok(String::new());
    }
    match utf8_string(slice_to_vec(bytes)) {
        Some(s) => Ok(s),
        None => Err(HkscError::InvalidUTF8),
    }
}

/// Reads a length-prefixed string; `header.t_size` gives the width of the length.
pub fn read_string<O: WireOrder>(data: &[u8], pos: &mut usize, header: &HSHeader) -> (r: Result<
    String,
    HkscError,
>)
    ensures
        parse_string::<O>(data@, *header, *old(pos) as int) == decoded_view(r, *final(pos)),
        r matches Err(HkscError::InvalidStringSize(_)) ==> *final(pos) == *old(pos),
{
    let length = if header.t_size == 4 {
        match read_u32::<O>(data, pos) {
            Ok(n) => n as u64,
            Err(e) => return Err(e),
        }
    } else if header.t_size == 8 {
        match read_u64::<O>(data, pos) {
            Ok(n) => n,
            Err(e) => return Err(e),
        }
    } else {
        return Err(HkscError::InvalidStringSize(header.t_size));
    };
    read_fixed_string(data, pos, length)
}

/// Reads a number constant; `header.number_size` gives its width.
pub fn read_number<O: WireOrder>(data: &[u8], pos: &mut usize, header: &HSHeader) -> (r: Result<
    HSValue,
    HkscError,
>)
    ensures
        parse_number::<O>(data@, *header, *old(pos) as int) == decoded_view(r, *final(pos)),
        r matches Err(HkscError::InvalidNumberSize(_)) ==> *final(pos) == *old(pos),
{
    if header.number_size == 4 {
        match read_u32::<O>(data, pos) {
            Ok(v) => Ok(HSValue::Number(HSNumber::Single(v))),
            Err(e) => Err(e),
        }
    } else if header.number_size == 8 {
        match read_u64::<O>(data, pos) {
            Ok(v) => Ok(HSValue::Number(HSNumber::Double(v))),
            Err(e) => Err(e),
        }
    } else {
        Err(HkscError::InvalidNumberSize(header.number_size))
    }
}

} // verus!

verus! {

/// `n` values of four bytes each.
pub open spec fn parse_u32s<O: WireOrder>(d: Seq<u8>, pos: int, n: nat) -> Result<
    (Seq<u32>, int),
    HkscError,
>
    decreases n,
{
    if n == 0 {
        Ok((seq![], pos))
    } else {
        match parse_u32::<O>(d, pos) {
            Err(e) => Err(e),
            Ok((x, p)) => prepend(seq![x], parse_u32s::<O>(d, p, (n - 1) as nat)),
        }
    }
}

/// A decoded run of four-byte values is as long as asked for.
pub proof fn lemma_u32s_len<O: WireOrder>(d: Seq<u8>, pos: int, n: nat)
    ensures
        parse_u32s::<O>(d, pos, n) is Ok ==> parse_u32s::<O>(d, pos, n)->Ok_0.0.len() == n,
    decreases n,
{
    if n > 0 {
        match parse_u32::<O>(d, pos) {
            Ok((x, p)) => lemma_u32s_len::<O>(d, p, (n - 1) as nat),
            Err(_) => {},
        }
    }
}

/// `n` length-prefixed strings.
pub open spec fn parse_strings<O: WireOrder>(d: Seq<u8>, h: HSHeader, pos: int, n: nat) -> Result<
    (Seq<Seq<char>>, int),
    HkscError,
>
    decreases n,
{
    if n == 0 {
        Ok((seq![], pos))
    } else {
        match parse_string::<O>(d, h, pos) {
            Err(e) => Err(e),
            Ok((x, p)) => prepend(seq![x], parse_strings::<O>(d, h, p, (n - 1) as nat)),
        }
    }
}

/// Reads `count` values of four bytes each.
pub fn read_u32s<O: WireOrder>(data: &[u8], pos: &mut usize, count: u32) -> (r: Result<
    Vec<u32>,
    HkscError,
>)
    ensures
        parse_u32s::<O>(data@, *old(pos) as int, count as nat) == decoded_views(r, *final(pos)),
{
    let ghost start = *pos as int;
    let mut items: Vec<u32> = Vec::new();
    let mut i: u32 = 0;
    proof {
        lemma_prepend_empty(parse_u32s::<O>(data@, start, count as nat));
    }
    while i < count
        invariant
            i <= count,
            start == *old(pos) as int,
            parse_u32s::<O>(data@, start, count as nat) == prepend(
                views_of(items),
                parse_u32s::<O>(data@, *pos as int, (count - i) as nat),
            ),
        decreases count - i,
    {
        let x = match read_u32::<O>(data, pos) {
            Ok(x) => x,
            Err(e) => return Err(e),
        };
        let ghost before = items;
        items.push(x);
        proof {
            lemma_views_push(before, x, items);
            lemma_prepend_step(
                views_of(before),
                x,
                parse_u32s::<O>(data@, *pos as int, (count - i - 1) as nat),
            );
        }
        i = i + 1;
    }
    Ok(items)
}

/// Reads `count` length-prefixed strings.
pub fn read_strings<O: WireOrder>(data: &[u8], pos: &mut usize, header: &HSHeader, count: u32) -> (r:
    Result<Vec<String>, HkscError>)
    ensures
        parse_strings::<O>(data@, *header, *old(pos) as int, count as nat) == decoded_views(
            r,
            *final(pos),
        ),
{
    let ghost start = *pos as int;
    let mut items: Vec<String> = Vec::new();
    let mut i: u32 = 0;
    proof {
        lemma_prepend_empty(parse_strings::<O>(data@, *header, start, count as nat));
    }
    while i < count
        invariant
            i <= count,
            start == *old(pos) as int,
            parse_strings::<O>(data@, *header, start, count as nat) == prepend(
                views_of(items),
                parse_strings::<O>(data@, *header, *pos as int, (count - i) as nat),
            ),
        decreases count - i,
    {
        let x = match read_string::<O>(data, pos, header) {
            Ok(x) => x,
            Err(e) => return Err(e),
        };
        let ghost before = items;
        let ghost xv = x@;
        items.push(x);
        proof {
            lemma_views_push(before, x, items);
            lemma_prepend_step(
                views_of(before),
                xv,
                parse_strings::<O>(data@, *header, *pos as int, (count - i - 1) as nat),
            );
        }
        i = i + 1;
    }
    Ok(items)
}

/// `n` bytes that are all `0xFF` (none at all included), read as a string of `n` bytes, give the
/// empty string and not a UTF-8 error; read through a four-byte length equal to `n` they do too.
pub proof fn lemma_unset_name<O: WireOrder>(d: Seq<u8>, h: HSHeader, pos: int, n: int)
    requires
        0 <= n,
        has_bytes(d, pos, 4 + n),
        forall|j: int| pos + 4 <= j < pos + 4 + n ==> #[trigger] d[j] == 0xff,
    ensures
        parse_fixed_string(d, pos + 4, n) == Ok::<(Seq<char>, int), HkscError>(
            (Seq::empty(), pos + 4 + n),
        ),
        h.t_size == 4 && O::u32_of(d.subrange(pos, pos + 4)) == n ==> parse_string::<O>(d, h, pos)
            == Ok::<(Seq<char>, int), HkscError>((Seq::empty(), pos + 4 + n)),
{
    let b = d.subrange(pos + 4, pos + 4 + n);
    assert forall|j: int| 0 <= j < b.len() implies #[trigger] b[j] == 0xff by {
        assert(b[j] == d[pos + 4 + j]);
    }
}


/// A decoded run of strings is as long as asked for.
pub proof fn lemma_strings_len<O: WireOrder>(d: Seq<u8>, h: HSHeader, pos: int, n: nat)
    ensures
        parse_strings::<O>(d, h, pos, n) is Ok ==> parse_strings::<O>(d, h, pos, n)->Ok_0.0.len() == n,
    decreases n,
{
    if n > 0 {
        match parse_string::<O>(d, h, pos) {
            Ok((x, p)) => lemma_strings_len::<O>(d, h, p, (n - 1) as nat),
            Err(_) => {},
        }
    }
}

} // verus!
