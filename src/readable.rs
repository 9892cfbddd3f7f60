//! Values that can be read from the byte stream, and lists of them read behind a count.
use vstd::prelude::*;
use crate::byte_order::WireOrder;
use crate::errors::{
    decoded_view, decoded_views, lemma_prepend_empty, lemma_prepend_step, lemma_views_push,
    prepend, views_of, HkscError,
};
use crate::header::HSHeader;

verus! {

/// A value whose encoding, in the order `O`, may depend on the header's widths.
pub trait HeaderReadable<O: WireOrder>: View + Sized {
    /// What decoding one value at `pos` gives, in the order `O`.
    spec fn parse_one(d: Seq<u8>, h: HSHeader, pos: int) -> Result<
        (Self::V, int),
        HkscError,
    >;

    /// Reads one value at `*pos`.
    fn read_one(data: &[u8], pos: &mut usize, header: &HSHeader) -> (r: Result<
        Self,
        HkscError,
    >)
        ensures
            Self::parse_one(data@, *header, *old(pos) as int) == decoded_view(r, *final(pos)),
    ;
}

/// `n` values one after the other.
pub open spec fn parse_many<T: HeaderReadable<O>, O: WireOrder>(
    d: Seq<u8>,
    h: HSHeader,
    pos: int,
    n: nat,
) -> Result<(Seq<T::V>, int), HkscError>
    decreases n,
{
    if n == 0 {
        Ok((seq![], pos))
    } else {
        match T::parse_one(d, h, pos) {
            Err(e) => Err(e),
            Ok((x, p)) => prepend(seq![x], parse_many::<T, O>(d, h, p, (n - 1) as nat)),
        }
    }
}

/// A decoded run of values is as long as asked for.
pub proof fn lemma_many_len<T: HeaderReadable<O>, O: WireOrder>(d: Seq<u8>, h: HSHeader, pos: int, n: nat)
    ensures
        parse_many::<T, O>(d, h, pos, n) is Ok ==> parse_many::<T, O>(d, h, pos, n)->Ok_0.0.len()
            == n,
    decreases n,
{
    if n > 0 {
        match T::parse_one(d, h, pos) {
            Ok((x, p)) => lemma_many_len::<T, O>(d, h, p, (n - 1) as nat),
            Err(_) => {},
        }
    }
}

/// Reads `count` values one after the other, stopping at the first that fails.
pub fn read_header_enumerable<T: HeaderReadable<O>, O: WireOrder>(
    data: &[u8],
    pos: &mut usize,
    header: &HSHeader,
    count: u64,
) -> (r: Result<Vec<T>, HkscError>)
    ensures
        parse_many::<T, O>(data@, *header, *old(pos) as int, count as nat) == decoded_views(
            r,
            *final(pos),
        ),
{
    let ghost start = *pos as int;
    let mut items: Vec<T> = Vec::new();
    let mut i: u64 = 0;
    proof {
        lemma_prepend_empty(parse_many::<T, O>(data@, *header, start, count as nat));
    }
    while i < count
        invariant
            i <= count,
            start == *old(pos) as int,
            parse_many::<T, O>(data@, *header, start, count as nat) == prepend(
                views_of(items),
                parse_many::<T, O>(data@, *header, *pos as int, (count - i) as nat),
            ),
        decreases count - i,
    {
        let x = match T::read_one(data, pos, header) {
            Ok(x) => x,
            Err(e) => return Err(e),
        };
        let ghost before = items;
        let ghost xv = x@;
        items.push(x);
        proof {
            lemma_views_push(before, x, items);
            lemma_prepend_step(
                views_of(before),
                xv,
                parse_many::<T, O>(data@, *header, *pos as int, (count - i - 1) as nat),
            );
        }
        i = i + 1;
    }
    Ok(items)
}

} // verus!
