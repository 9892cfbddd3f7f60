//! Each decoder reads only bytes at or after its start, and no padding byte of a function record
//! is ever read.
use vstd::prelude::*;
use crate::byte_order::WireOrder;
use crate::constant::{parse_value, HSConstant};
use crate::debug::{parse_debug, HSFunctionDebugInfoLocals};
use crate::function::{align_up, parse_children, parse_function, parse_function_fields};
use crate::header::HSHeader;
use crate::instruction::HSInstruction;
use crate::opcodes::HSType;
use crate::readable::{parse_many, HeaderReadable};
use crate::reader::{
    parse_fixed_string, parse_string, parse_strings, parse_u32, parse_u32s, parse_u64, parse_u8,
};

verus! {

/// Whether two byte strings of one length hold the same bytes from `pos` on.
pub open spec fn agree_from(d1: Seq<u8>, d2: Seq<u8>, pos: int) -> bool {
    &&& 0 <= pos
    &&& d1.len() == d2.len()
    &&& forall|j: int| pos <= j < d1.len() ==> #[trigger] d1[j] == #[trigger] d2[j]
}

/// Bytes that agree from `pos` on agree from any later position.
proof fn lemma_agree_later(d1: Seq<u8>, d2: Seq<u8>, pos: int, q: int)
    requires
        agree_from(d1, d2, pos),
        pos <= q,
    ensures
        agree_from(d1, d2, q),
{
}

/// Bytes that agree on a range have equal subranges there.
proof fn lemma_agree_subrange(d1: Seq<u8>, d2: Seq<u8>, pos: int, n: int)
    requires
        agree_from(d1, d2, pos),
        0 <= n,
        pos + n <= d1.len(),
    ensures
        d1.subrange(pos, pos + n) == d2.subrange(pos, pos + n),
{
    assert(d1.subrange(pos, pos + n) =~= d2.subrange(pos, pos + n));
}

/// Fixed-width fields read only their own bytes.
pub proof fn lemma_frame_fixed<O: WireOrder>(d1: Seq<u8>, d2: Seq<u8>, pos: int)
    requires
        agree_from(d1, d2, pos),
    ensures
        parse_u8(d1, pos) == parse_u8(d2, pos),
        parse_u32::<O>(d1, pos) == parse_u32::<O>(d2, pos),
        parse_u64::<O>(d1, pos) == parse_u64::<O>(d2, pos),
{
    if pos + 4 <= d1.len() {
        lemma_agree_subrange(d1, d2, pos, 4);
    }
    if pos + 8 <= d1.len() {
        lemma_agree_subrange(d1, d2, pos, 8);
    }
}

/// Strings read only bytes from their start on, and end no earlier.
pub proof fn lemma_frame_string<O: WireOrder>(d1: Seq<u8>, d2: Seq<u8>, h: HSHeader, pos: int)
    requires
        agree_from(d1, d2, pos),
    ensures
        parse_string::<O>(d1, h, pos) == parse_string::<O>(d2, h, pos),
        parse_string::<O>(d1, h, pos) matches Ok((_, p)) ==> pos <= p,
{
    lemma_frame_fixed::<O>(d1, d2, pos);
    let q = if h.t_size == 4 {
        pos + 4
    } else {
        pos + 8
    };
    lemma_agree_later(d1, d2, pos, q);
    assert forall|n: int| 0 <= n && q + n <= d1.len() implies parse_fixed_string(d1, q, n)
        == parse_fixed_string(d2, q, n) by {
        lemma_agree_subrange(d1, d2, q, n);
    }
}

/// Runs of four-byte values read only bytes from their start on.
pub proof fn lemma_frame_u32s<O: WireOrder>(d1: Seq<u8>, d2: Seq<u8>, pos: int, n: nat)
    requires
        agree_from(d1, d2, pos),
    ensures
        parse_u32s::<O>(d1, pos, n) == parse_u32s::<O>(d2, pos, n),
        parse_u32s::<O>(d1, pos, n) matches Ok((_, q)) ==> pos <= q,
    decreases n,
{
    if n > 0 {
        lemma_frame_fixed::<O>(d1, d2, pos);
        lemma_agree_later(d1, d2, pos, pos + 4);
        lemma_frame_u32s::<O>(d1, d2, pos + 4, (n - 1) as nat);
    }
}

/// Runs of strings read only bytes from their start on.
pub proof fn lemma_frame_strings<O: WireOrder>(
    d1: Seq<u8>,
    d2: Seq<u8>,
    h: HSHeader,
    pos: int,
    n: nat,
)
    requires
        agree_from(d1, d2, pos),
    ensures
        parse_strings::<O>(d1, h, pos, n) == parse_strings::<O>(d2, h, pos, n),
        parse_strings::<O>(d1, h, pos, n) matches Ok((_, q)) ==> pos <= q,
    decreases n,
{
    if n > 0 {
        lemma_frame_string::<O>(d1, d2, h, pos);
        match parse_string::<O>(d1, h, pos) {
            Ok((_, p)) => {
                lemma_agree_later(d1, d2, pos, p);
                lemma_frame_strings::<O>(d1, d2, h, p, (n - 1) as nat);
            },
            Err(_) => {},
        }
    }
}

/// A run of values reads only bytes from its start on, when each value does and ends no
/// earlier than it starts.
pub proof fn lemma_frame_many<T: HeaderReadable<O>, O: WireOrder>(
    d1: Seq<u8>,
    d2: Seq<u8>,
    h: HSHeader,
    pos: int,
    n: nat,
)
    requires
        forall|p: int|
            #![trigger T::parse_one(d1, h, p)]
            pos <= p ==> T::parse_one(d1, h, p) == T::parse_one(d2, h, p) && (T::parse_one(
                d1,
                h,
                p,
            ) matches Ok((_, q)) ==> p <= q),
    ensures
        parse_many::<T, O>(d1, h, pos, n) == parse_many::<T, O>(d2, h, pos, n),
        parse_many::<T, O>(d1, h, pos, n) matches Ok((_, q)) ==> pos <= q,
    decreases n,
{
    if n > 0 {
        match T::parse_one(d1, h, pos) {
            Ok((_, p)) => lemma_frame_many::<T, O>(d1, d2, h, p, (n - 1) as nat),
            Err(_) => {},
        }
    }
}

/// An instruction reads only its own word.
proof fn lemma_frame_instruction<O: WireOrder>(d1: Seq<u8>, d2: Seq<u8>, h: HSHeader, pos: int)
    requires
        agree_from(d1, d2, pos),
    ensures
        <HSInstruction as HeaderReadable<O>>::parse_one(d1, h, pos)
            == <HSInstruction as HeaderReadable<O>>::parse_one(d2, h, pos),
        <HSInstruction as HeaderReadable<O>>::parse_one(d1, h, pos) matches Ok((_, q)) ==> pos
            <= q,
{
    lemma_frame_fixed::<O>(d1, d2, pos);
}

/// A constant reads only bytes from its start on.
proof fn lemma_frame_constant<O: WireOrder>(d1: Seq<u8>, d2: Seq<u8>, h: HSHeader, pos: int)
    requires
        agree_from(d1, d2, pos),
    ensures
        <HSConstant as HeaderReadable<O>>::parse_one(d1, h, pos)
            == <HSConstant as HeaderReadable<O>>::parse_one(d2, h, pos),
        <HSConstant as HeaderReadable<O>>::parse_one(d1, h, pos) matches Ok((_, q)) ==> pos <= q,
{
    lemma_frame_fixed::<O>(d1, d2, pos);
    lemma_agree_later(d1, d2, pos, pos + 1);
    lemma_frame_fixed::<O>(d1, d2, pos + 1);
    lemma_frame_string::<O>(d1, d2, h, pos + 1);
    match parse_u8(d1, pos) {
        Ok((tag, p)) => {
            assert forall|t: HSType| #[trigger]
                parse_value::<O>(d1, h, t, tag, p) == parse_value::<O>(d2, h, t, tag, p) by {}
        },
        Err(_) => {},
    }
}

/// A local-variable record reads only bytes from its start on.
proof fn lemma_frame_local<O: WireOrder>(d1: Seq<u8>, d2: Seq<u8>, h: HSHeader, pos: int)
    requires
        agree_from(d1, d2, pos),
    ensures
        <HSFunctionDebugInfoLocals as HeaderReadable<O>>::parse_one(d1, h, pos)
            == <HSFunctionDebugInfoLocals as HeaderReadable<O>>::parse_one(d2, h, pos),
        <HSFunctionDebugInfoLocals as HeaderReadable<O>>::parse_one(d1, h, pos) matches Ok((_, q))
            ==> pos <= q,
{
    lemma_frame_string::<O>(d1, d2, h, pos);
    match parse_string::<O>(d1, h, pos) {
        Ok((_, p)) => {
            lemma_agree_later(d1, d2, pos, p);
            lemma_frame_fixed::<O>(d1, d2, p);
            lemma_agree_later(d1, d2, p, p + 4);
            lemma_frame_fixed::<O>(d1, d2, p + 4);
        },
        Err(_) => {},
    }
}

/// A debug record reads only bytes from its start on.
proof fn lemma_frame_debug<O: WireOrder>(d1: Seq<u8>, d2: Seq<u8>, h: HSHeader, pos: int)
    requires
        agree_from(d1, d2, pos),
    ensures
        parse_debug::<O>(d1, h, pos) == parse_debug::<O>(d2, h, pos),
        parse_debug::<O>(d1, h, pos) matches Ok((_, q)) ==> pos <= q,
{
    lemma_frame_u32s::<O>(d1, d2, pos, 5);
    if let Ok((c, p1)) = parse_u32s::<O>(d1, pos, 5) {
        lemma_agree_later(d1, d2, pos, p1);
        lemma_frame_string::<O>(d1, d2, h, p1);
        if let Ok((_, p2)) = parse_string::<O>(d1, h, p1) {
            lemma_agree_later(d1, d2, p1, p2);
            lemma_frame_string::<O>(d1, d2, h, p2);
            if let Ok((_, p3)) = parse_string::<O>(d1, h, p2) {
                lemma_agree_later(d1, d2, p2, p3);
                lemma_frame_u32s::<O>(d1, d2, p3, c[0] as nat);
                if let Ok((_, p4)) = parse_u32s::<O>(d1, p3, c[0] as nat) {
                    lemma_agree_later(d1, d2, p3, p4);
                    assert forall|p: int|
                        #![trigger <HSFunctionDebugInfoLocals as HeaderReadable<O>>::parse_one(
                            d1,
                            h,
                            p,
                        )]
                        p4 <= p implies <HSFunctionDebugInfoLocals as HeaderReadable<
                            O,
                        >>::parse_one(d1, h, p)
                            == <HSFunctionDebugInfoLocals as HeaderReadable<O>>::parse_one(
                            d2,
                            h,
                            p,
                        ) && (<HSFunctionDebugInfoLocals as HeaderReadable<O>>::parse_one(
                            d1,
                            h,
                            p,
                        ) matches Ok((_, q)) ==> p <= q) by {
                        lemma_agree_later(d1, d2, p4, p);
                        lemma_frame_local::<O>(d1, d2, h, p);
                    }
                    lemma_frame_many::<HSFunctionDebugInfoLocals, O>(d1, d2, h, p4, c[1] as nat);
                    if let Ok((_, p5)) = parse_many::<HSFunctionDebugInfoLocals, O>(
                        d1,
                        h,
                        p4,
                        c[1] as nat,
                    ) {
                        lemma_agree_later(d1, d2, p4, p5);
                        lemma_frame_strings::<O>(d1, d2, h, p5, c[2] as nat);
                    }
                }
            }
        }
    }
}

/// The padding before a function's instructions is skipped and never read: two byte strings
/// that differ only before `pos` or in the bytes between the end of the instruction count and
/// the next multiple of the instruction size decode to the same fields at the same end, which
/// lies after the padding.
pub proof fn lemma_padding_unread<O: WireOrder>(d1: Seq<u8>, d2: Seq<u8>, h: HSHeader, pos: int)
    requires
        0 <= pos,
        d1.len() == d2.len(),
        forall|j: int|
            pos <= j < d1.len() && !(pos + 21 <= j < align_up(pos + 21, h.instruction_size as int))
                ==> #[trigger] d1[j] == d2[j],
    ensures
        parse_function_fields::<O>(d1, h, pos) == parse_function_fields::<O>(d2, h, pos),
        parse_function_fields::<O>(d1, h, pos) matches Ok((_, q)) ==> align_up(
            pos + 21,
            h.instruction_size as int,
        ) <= q,
{
    if pos + 21 <= d1.len() {
        assert(d1.subrange(pos, pos + 4) =~= d2.subrange(pos, pos + 4));
        assert(d1.subrange(pos + 4, pos + 8) =~= d2.subrange(pos + 4, pos + 8));
        assert(d1[pos + 8] == d2[pos + 8]);
        assert(d1.subrange(pos + 9, pos + 13) =~= d2.subrange(pos + 9, pos + 13));
        assert(d1.subrange(pos + 13, pos + 21) =~= d2.subrange(pos + 13, pos + 21));
    } else {
        if pos + 4 <= d1.len() {
            assert(d1.subrange(pos, pos + 4) =~= d2.subrange(pos, pos + 4));
        }
        if pos + 8 <= d1.len() {
            assert(d1.subrange(pos + 4, pos + 8) =~= d2.subrange(pos + 4, pos + 8));
        }
        if pos + 9 <= d1.len() {
            assert(d1[pos + 8] == d2[pos + 8]);
        }
        if pos + 13 <= d1.len() {
            assert(d1.subrange(pos + 9, pos + 13) =~= d2.subrange(pos + 9, pos + 13));
        }
    }
    if h.instruction_size == 4 || h.instruction_size == 8 {
        let a = align_up(pos + 21, h.instruction_size as int);
        assert(a >= pos + 21);
        assert(agree_from(d1, d2, a));
        assert forall|p: int|
            #![trigger <HSInstruction as HeaderReadable<O>>::parse_one(d1, h, p)]
            a <= p implies <HSInstruction as HeaderReadable<O>>::parse_one(d1, h, p)
                == <HSInstruction as HeaderReadable<O>>::parse_one(d2, h, p) && (<HSInstruction as HeaderReadable<O>>::parse_one(
                d1,
                h,
                p,
            ) matches Ok((_, q)) ==> p <= q) by {
            lemma_agree_later(d1, d2, a, p);
            lemma_frame_instruction::<O>(d1, d2, h, p);
        }
        assert forall|p: int|
            #![trigger <HSConstant as HeaderReadable<O>>::parse_one(d1, h, p)]
            a <= p implies <HSConstant as HeaderReadable<O>>::parse_one(d1, h, p)
                == <HSConstant as HeaderReadable<O>>::parse_one(d2, h, p) && (<HSConstant as HeaderReadable<O>>::parse_one(
                d1,
                h,
                p,
            ) matches Ok((_, q)) ==> p <= q) by {
            lemma_agree_later(d1, d2, a, p);
            lemma_frame_constant::<O>(d1, d2, h, p);
        }
        assert forall|p: int, n: nat| a <= p implies #[trigger] parse_many::<HSInstruction, O>(
            d1,
            h,
            p,
            n,
        ) == parse_many::<HSInstruction, O>(d2, h, p, n) && (parse_many::<HSInstruction, O>(
            d1,
            h,
            p,
            n,
        ) matches Ok((_, q)) ==> p <= q) by {
            lemma_frame_many::<HSInstruction, O>(d1, d2, h, p, n);
        }
        assert forall|p: int, n: nat| a <= p implies #[trigger] parse_many::<HSConstant, O>(
            d1,
            h,
            p,
            n,
        ) == parse_many::<HSConstant, O>(d2, h, p, n) && (parse_many::<HSConstant, O>(
            d1,
            h,
            p,
            n,
        ) matches Ok((_, q)) ==> p <= q) by {
            lemma_frame_many::<HSConstant, O>(d1, d2, h, p, n);
        }
        assert forall|p: int| a <= p implies #[trigger] parse_u32::<O>(d1, p) == parse_u32::<O>(
            d2,
            p,
        ) by {
            lemma_agree_later(d1, d2, a, p);
            lemma_frame_fixed::<O>(d1, d2, p);
        }
        assert forall|p: int| a <= p implies #[trigger] parse_debug::<O>(d1, h, p)
            == parse_debug::<O>(d2, h, p) && (parse_debug::<O>(d1, h, p) matches Ok((_, q)) ==> p
            <= q) by {
            lemma_agree_later(d1, d2, a, p);
            lemma_frame_debug::<O>(d1, d2, h, p);
        }
    }
}

/// A function record, with all below it, reads only bytes from its start on.
pub proof fn lemma_frame_function<O: WireOrder>(d1: Seq<u8>, d2: Seq<u8>, h: HSHeader, pos: int)
    requires
        agree_from(d1, d2, pos),
    ensures
        parse_function::<O>(d1, h, pos) == parse_function::<O>(d2, h, pos),
    decreases d1.len() - pos, 0int,
{
    lemma_padding_unread::<O>(d1, d2, h, pos);
    if pos <= d1.len() {
        if let Ok((f, p)) = parse_function_fields::<O>(d1, h, pos) {
            if pos < p <= d1.len() {
                lemma_agree_later(d1, d2, pos, p);
                lemma_frame_children::<O>(d1, d2, h, p, f.function_count as nat);
            }
        }
    }
}

/// Function records one after the other read only bytes from their start on.
pub proof fn lemma_frame_children<O: WireOrder>(
    d1: Seq<u8>,
    d2: Seq<u8>,
    h: HSHeader,
    pos: int,
    n: nat,
)
    requires
        agree_from(d1, d2, pos),
    ensures
        parse_children::<O>(d1, h, pos, n) == parse_children::<O>(d2, h, pos, n),
    decreases d1.len() - pos, 1int, n,
{
    if n > 0 && pos <= d1.len() {
        lemma_frame_function::<O>(d1, d2, h, pos);
        if let Ok((_, p)) = parse_function::<O>(d1, h, pos) {
            if pos < p <= d1.len() {
                lemma_agree_later(d1, d2, pos, p);
                lemma_frame_children::<O>(d1, d2, h, p, (n - 1) as nat);
            }
        }
    }
}

/// The padding before a function's instructions is skipped and never read: two byte strings
/// that differ only before `pos` or in that padding decode to the same function tree at the
/// same end.
pub proof fn lemma_function_padding_unread<O: WireOrder>(
    d1: Seq<u8>,
    d2: Seq<u8>,
    h: HSHeader,
    pos: int,
)
    requires
        0 <= pos,
        d1.len() == d2.len(),
        forall|j: int|
            pos <= j < d1.len() && !(pos + 21 <= j < align_up(pos + 21, h.instruction_size as int))
                ==> #[trigger] d1[j] == d2[j],
    ensures
        parse_function::<O>(d1, h, pos) == parse_function::<O>(d2, h, pos),
{
    lemma_padding_unread::<O>(d1, d2, h, pos);
    if pos <= d1.len() {
        if let Ok((f, p)) = parse_function_fields::<O>(d1, h, pos) {
            if pos < p <= d1.len() {
                assert(agree_from(d1, d2, p));
                lemma_frame_children::<O>(d1, d2, h, p, f.function_count as nat);
            }
        }
    }
}

} // verus!
