//! Writing function records back to bytes, and the law that decoding what was written gives
//! back every field that was written.
use vstd::prelude::*;
use crate::byte_order::WireOrder;
use crate::constant::{parse_constant, ConstantModel, HSConstant, HSNumber, ValueModel};
use crate::debug::{empty_debug, parse_debug, DebugModel, HSFunctionDebugInfoLocals, LocalModel};
use crate::errors::HkscError;
use crate::function::{
    align_up, lemma_alignment, parse_children, parse_function, parse_function_fields, with_children,
    FunctionModel, HSVarArg,
};
use crate::header::HSHeader;
use crate::instruction::{decode_word, parse_instruction, HSInstruction, InstructionModel};
use crate::readable::parse_many;
use crate::opcodes::HSType;
use crate::reader::{
    is_unset_name, parse_string, parse_strings, parse_u32, parse_u32s, parse_u64, utf8_of,
};

verus! {

/// Whether the bytes `s` stand in `d` from `pos` on.
pub open spec fn bytes_at(d: Seq<u8>, pos: int, s: Seq<u8>) -> bool {
    0 <= pos && pos + s.len() <= d.len() && d.subrange(pos, pos + s.len()) == s
}

/// Bytes that stand somewhere stand there part by part.
pub proof fn lemma_bytes_at_split(d: Seq<u8>, pos: int, a: Seq<u8>, b: Seq<u8>)
    requires
        bytes_at(d, pos, a + b),
    ensures
        bytes_at(d, pos, a),
        bytes_at(d, pos + a.len(), b),
{
    let whole = d.subrange(pos, pos + a.len() + b.len());
    assert(whole =~= a + b);
    assert(d.subrange(pos, pos + a.len()) =~= whole.subrange(0, a.len() as int));
    assert((a + b).subrange(0, a.len() as int) =~= a);
    assert(d.subrange(pos + a.len(), pos + a.len() + b.len()) =~= whole.subrange(
        a.len() as int,
        (a.len() + b.len()) as int,
    ));
    assert((a + b).subrange(a.len() as int, (a.len() + b.len()) as int) =~= b);
}

/// Four written bytes read back as the value written.
pub proof fn lemma_u32_at<O: WireOrder>(d: Seq<u8>, pos: int, v: u32)
    requires
        bytes_at(d, pos, O::u32_bytes(v)),
    ensures
        parse_u32::<O>(d, pos) == Ok::<(u32, int), HkscError>((v, pos + 4)),
{
    O::lemma_u32_bytes(v);
}

/// Eight written bytes read back as the value written.
pub proof fn lemma_u64_at<O: WireOrder>(d: Seq<u8>, pos: int, v: u64)
    requires
        bytes_at(d, pos, O::u64_bytes(v)),
    ensures
        parse_u64::<O>(d, pos) == Ok::<(u64, int), HkscError>((v, pos + 8)),
{
    O::lemma_u64_bytes(v);
}

/// The type byte a written constant value carries.
pub open spec fn constant_type(v: ValueModel) -> HSType {
    match v {
        ValueModel::Nil => HSType::TNIL,
        ValueModel::Boolean(_) => HSType::TBOOLEAN,
        ValueModel::LightUserData(_) => HSType::TLIGHTUSERDATA,
        ValueModel::Number(_) => HSType::TNUMBER,
        ValueModel::String(_) => HSType::TSTRING,
        ValueModel::Ui64(_) => HSType::TUI64,
    }
}

/// Whether a constant value other than a string fits the widths of the header.
pub open spec fn constant_writable(h: HSHeader, v: ValueModel) -> bool {
    match v {
        ValueModel::Nil => true,
        ValueModel::Boolean(_) => true,
        ValueModel::LightUserData(x) => h.t_size == 8 || (h.t_size == 4 && x <= u32::MAX),
        ValueModel::Number(HSNumber::Single(_)) => h.number_size == 4,
        ValueModel::Number(HSNumber::Double(_)) => h.number_size == 8,
        ValueModel::String(_) => false,
        ValueModel::Ui64(_) => true,
    }
}

/// The bytes of a constant: its type byte, then its value in the header's widths.
pub open spec fn encode_constant<O: WireOrder>(h: HSHeader, v: ValueModel) -> Seq<u8> {
    match v {
        ValueModel::Nil => seq![0u8],
        ValueModel::Boolean(b) => seq![1u8, if b { 1u8 } else { 0u8 }],
        ValueModel::LightUserData(x) => seq![2u8] + if h.t_size == 4 {
            O::u32_bytes(x as u32)
        } else {
            O::u64_bytes(x)
        },
        ValueModel::Number(HSNumber::Single(x)) => seq![3u8] + O::u32_bytes(x),
        ValueModel::Number(HSNumber::Double(x)) => seq![3u8] + O::u64_bytes(x),
        ValueModel::String(_) => seq![],
        ValueModel::Ui64(x) => seq![11u8] + O::u64_bytes(x),
    }
}

/// The constant that a written value decodes to.
pub open spec fn constant_of(v: ValueModel) -> ConstantModel {
    ConstantModel { type_: constant_type(v), value: Some(v) }
}

/// A written constant reads back as its value, with the type it was written with.
pub proof fn lemma_constant_round_trip<O: WireOrder>(d: Seq<u8>, h: HSHeader, pos: int, v: ValueModel)
    requires
        constant_writable(h, v),
        bytes_at(d, pos, encode_constant::<O>(h, v)),
    ensures
        parse_constant::<O>(d, h, pos) == Ok::<(ConstantModel, int), HkscError>(
            (constant_of(v), pos + encode_constant::<O>(h, v).len()),
        ),
{
    let e = encode_constant::<O>(h, v);
    assert(d[pos] == e[0]) by {
        assert(d.subrange(pos, pos + e.len())[0] == d[pos]);
    }
    match v {
        ValueModel::Nil => {},
        ValueModel::Boolean(b) => {
            assert(d[pos + 1] == e[1]) by {
                assert(d.subrange(pos, pos + e.len())[1] == d[pos + 1]);
            }
        },
        ValueModel::LightUserData(x) => {
            if h.t_size == 4 {
                lemma_bytes_at_split(d, pos, seq![2u8], O::u32_bytes(x as u32));
                lemma_u32_at::<O>(d, pos + 1, x as u32);
                O::lemma_u32_bytes(x as u32);
            } else {
                lemma_bytes_at_split(d, pos, seq![2u8], O::u64_bytes(x));
                lemma_u64_at::<O>(d, pos + 1, x);
                O::lemma_u64_bytes(x);
            }
        },
        ValueModel::Number(HSNumber::Single(x)) => {
            lemma_bytes_at_split(d, pos, seq![3u8], O::u32_bytes(x));
            lemma_u32_at::<O>(d, pos + 1, x);
            O::lemma_u32_bytes(x);
        },
        ValueModel::Number(HSNumber::Double(x)) => {
            lemma_bytes_at_split(d, pos, seq![3u8], O::u64_bytes(x));
            lemma_u64_at::<O>(d, pos + 1, x);
            O::lemma_u64_bytes(x);
        },
        ValueModel::String(_) => {},
        ValueModel::Ui64(x) => {
            lemma_bytes_at_split(d, pos, seq![11u8], O::u64_bytes(x));
            lemma_u64_at::<O>(d, pos + 1, x);
            O::lemma_u64_bytes(x);
        },
    }
}

/// Instruction words one after the other.
pub open spec fn encode_words<O: WireOrder>(ws: Seq<u32>) -> Seq<u8>
    decreases ws.len(),
{
    if ws.len() == 0 {
        seq![]
    } else {
        O::u32_bytes(ws[0]) + encode_words::<O>(ws.drop_first())
    }
}

/// The instructions that words decode to.
pub open spec fn words_of(ws: Seq<u32>) -> Seq<InstructionModel> {
    ws.map_values(|w: u32| decode_word(w)->Ok_0)
}

/// Written instruction words with known opcodes read back as the instructions they encode.
pub proof fn lemma_words_round_trip<O: WireOrder>(d: Seq<u8>, h: HSHeader, pos: int, ws: Seq<u32>)
    requires
        forall|i: int| 0 <= i < ws.len() ==> #[trigger] decode_word(ws[i]) is Ok,
        bytes_at(d, pos, encode_words::<O>(ws)),
    ensures
        encode_words::<O>(ws).len() == 4 * ws.len(),
        parse_many::<HSInstruction, O>(d, h, pos, ws.len()) == Ok::<(Seq<InstructionModel>, int), HkscError>(
            (words_of(ws), pos + encode_words::<O>(ws).len()),
        ),
    decreases ws.len(),
{
    if ws.len() == 0 {
        assert(words_of(ws) =~= Seq::<InstructionModel>::empty());
    } else {
        let rest = ws.drop_first();
        lemma_bytes_at_split(d, pos, O::u32_bytes(ws[0]), encode_words::<O>(rest));
        lemma_u32_at::<O>(d, pos, ws[0]);
        O::lemma_u32_bytes(ws[0]);
        assert(decode_word(ws[0]) is Ok);
        assert forall|i: int| 0 <= i < rest.len() implies #[trigger] decode_word(rest[i]) is Ok by {
            assert(rest[i] == ws[i + 1]);
        }
        lemma_words_round_trip::<O>(d, h, pos + 4, rest);
        assert(parse_instruction::<O>(d, pos) == Ok::<(InstructionModel, int), HkscError>(
            (decode_word(ws[0])->Ok_0, pos + 4),
        ));
        assert(seq![decode_word(ws[0])->Ok_0] + words_of(rest) =~= words_of(ws));
    }
}

/// Constants one after the other.
pub open spec fn encode_constants<O: WireOrder>(h: HSHeader, cs: Seq<RawConstant>) -> Seq<u8>
    decreases cs.len(),
{
    if cs.len() == 0 {
        seq![]
    } else {
        encode_raw_constant::<O>(h, cs[0]) + encode_constants::<O>(h, cs.drop_first())
    }
}

/// What written constants decode to.
pub open spec fn constants_of(cs: Seq<RawConstant>) -> Seq<ConstantModel> {
    cs.map_values(|c: RawConstant| raw_constant_of(c))
}

/// Written constants read back as written.
pub proof fn lemma_constants_round_trip<O: WireOrder>(
    d: Seq<u8>,
    h: HSHeader,
    pos: int,
    cs: Seq<RawConstant>,
)
    requires
        widths_valid(h),
        forall|i: int| 0 <= i < cs.len() ==> #[trigger] raw_constant_writable(h, cs[i]),
        bytes_at(d, pos, encode_constants::<O>(h, cs)),
    ensures
        parse_many::<HSConstant, O>(d, h, pos, cs.len()) == Ok::<(Seq<ConstantModel>, int), HkscError>(
            (constants_of(cs), pos + encode_constants::<O>(h, cs).len()),
        ),
    decreases cs.len(),
{
    if cs.len() == 0 {
        assert(constants_of(cs) =~= Seq::<ConstantModel>::empty());
    } else {
        let rest = cs.drop_first();
        let e0 = encode_raw_constant::<O>(h, cs[0]);
        lemma_bytes_at_split(d, pos, e0, encode_constants::<O>(h, rest));
        assert(raw_constant_writable(h, cs[0]));
        lemma_raw_constant_round_trip::<O>(d, h, pos, cs[0]);
        assert forall|i: int| 0 <= i < rest.len() implies #[trigger] raw_constant_writable(
            h,
            rest[i],
        ) by {
            assert(rest[i] == cs[i + 1]);
        }
        lemma_constants_round_trip::<O>(d, h, pos + e0.len(), rest);
        assert(seq![raw_constant_of(cs[0])] + constants_of(rest) =~= constants_of(cs));
    }
}

/// The characters that written string bytes decode to: none for an unset name, else what
/// UTF-8 decoding reads.
pub open spec fn text_of(b: Seq<u8>) -> Seq<char> {
    if is_unset_name(b) {
        Seq::empty()
    } else {
        utf8_of(b)->Some_0
    }
}

/// Whether string bytes read back as characters: an unset name or valid UTF-8, with a length
/// that fits the header's length width.
pub open spec fn text_writable(h: HSHeader, b: Seq<u8>) -> bool {
    &&& (is_unset_name(b) || utf8_of(b) is Some)
    &&& (h.t_size == 4 ==> b.len() <= u32::MAX)
    &&& (h.t_size == 8 ==> b.len() <= u64::MAX)
}

/// A string: its length in the header's length width, then its bytes.
pub open spec fn encode_text<O: WireOrder>(h: HSHeader, b: Seq<u8>) -> Seq<u8> {
    (if h.t_size == 4 {
        O::u32_bytes(b.len() as u32)
    } else {
        O::u64_bytes(b.len() as u64)
    }) + b
}

/// A written string reads back as the characters of its bytes.
pub proof fn lemma_text_round_trip<O: WireOrder>(d: Seq<u8>, h: HSHeader, pos: int, b: Seq<u8>)
    requires
        widths_valid(h),
        text_writable(h, b),
        bytes_at(d, pos, encode_text::<O>(h, b)),
    ensures
        parse_string::<O>(d, h, pos) == Ok::<(Seq<char>, int), HkscError>(
            (text_of(b), pos + encode_text::<O>(h, b).len()),
        ),
{
    if h.t_size == 4 {
        O::lemma_u32_bytes(b.len() as u32);
        lemma_bytes_at_split(d, pos, O::u32_bytes(b.len() as u32), b);
        lemma_u32_at::<O>(d, pos, b.len() as u32);
    } else {
        O::lemma_u64_bytes(b.len() as u64);
        lemma_bytes_at_split(d, pos, O::u64_bytes(b.len() as u64), b);
        lemma_u64_at::<O>(d, pos, b.len() as u64);
    }
}

/// Strings one after the other.
pub open spec fn encode_texts<O: WireOrder>(h: HSHeader, bs: Seq<Seq<u8>>) -> Seq<u8>
    decreases bs.len(),
{
    if bs.len() == 0 {
        seq![]
    } else {
        encode_text::<O>(h, bs[0]) + encode_texts::<O>(h, bs.drop_first())
    }
}

/// The characters of each of several written strings.
pub open spec fn texts_of(bs: Seq<Seq<u8>>) -> Seq<Seq<char>> {
    bs.map_values(|b: Seq<u8>| text_of(b))
}

/// Written strings read back as their characters.
pub proof fn lemma_texts_round_trip<O: WireOrder>(d: Seq<u8>, h: HSHeader, pos: int, bs: Seq<Seq<u8>>)
    requires
        widths_valid(h),
        forall|i: int| 0 <= i < bs.len() ==> #[trigger] text_writable(h, bs[i]),
        bytes_at(d, pos, encode_texts::<O>(h, bs)),
    ensures
        parse_strings::<O>(d, h, pos, bs.len()) == Ok::<(Seq<Seq<char>>, int), HkscError>(
            (texts_of(bs), pos + encode_texts::<O>(h, bs).len()),
        ),
    decreases bs.len(),
{
    if bs.len() == 0 {
        assert(texts_of(bs) =~= Seq::<Seq<char>>::empty());
    } else {
        let rest = bs.drop_first();
        let e0 = encode_text::<O>(h, bs[0]);
        lemma_bytes_at_split(d, pos, e0, encode_texts::<O>(h, rest));
        assert(text_writable(h, bs[0]));
        lemma_text_round_trip::<O>(d, h, pos, bs[0]);
        assert forall|i: int| 0 <= i < rest.len() implies #[trigger] text_writable(h, rest[i]) by {
            assert(rest[i] == bs[i + 1]);
        }
        lemma_texts_round_trip::<O>(d, h, pos + e0.len(), rest);
        assert(seq![text_of(bs[0])] + texts_of(rest) =~= texts_of(bs));
    }
}

/// Written four-byte values read back as the values.
pub proof fn lemma_u32s_round_trip<O: WireOrder>(d: Seq<u8>, pos: int, xs: Seq<u32>)
    requires
        bytes_at(d, pos, encode_words::<O>(xs)),
    ensures
        encode_words::<O>(xs).len() == 4 * xs.len(),
        parse_u32s::<O>(d, pos, xs.len()) == Ok::<(Seq<u32>, int), HkscError>(
            (xs, pos + encode_words::<O>(xs).len()),
        ),
    decreases xs.len(),
{
    if xs.len() == 0 {
        assert(xs =~= Seq::<u32>::empty());
    } else {
        let rest = xs.drop_first();
        lemma_bytes_at_split(d, pos, O::u32_bytes(xs[0]), encode_words::<O>(rest));
        lemma_u32_at::<O>(d, pos, xs[0]);
        O::lemma_u32_bytes(xs[0]);
        lemma_u32s_round_trip::<O>(d, pos + 4, rest);
        assert(seq![xs[0]] + rest =~= xs);
    }
}

/// A local-variable record as it is written.
pub struct RawLocal {
    pub name: Seq<u8>,
    pub start: u32,
    pub end: u32,
}

/// A local-variable record: name, start, end.
pub open spec fn encode_local<O: WireOrder>(h: HSHeader, l: RawLocal) -> Seq<u8> {
    encode_text::<O>(h, l.name) + O::u32_bytes(l.start) + O::u32_bytes(l.end)
}

/// What a written local-variable record decodes to.
pub open spec fn local_of(l: RawLocal) -> LocalModel {
    LocalModel { local_name: text_of(l.name), start: l.start, end: l.end }
}

/// What written local-variable records decode to.
pub open spec fn locals_of(ls: Seq<RawLocal>) -> Seq<LocalModel> {
    ls.map_values(|l: RawLocal| local_of(l))
}

/// Local-variable records one after the other.
pub open spec fn encode_locals<O: WireOrder>(h: HSHeader, ls: Seq<RawLocal>) -> Seq<u8>
    decreases ls.len(),
{
    if ls.len() == 0 {
        seq![]
    } else {
        encode_local::<O>(h, ls[0]) + encode_locals::<O>(h, ls.drop_first())
    }
}

/// Written local-variable records read back as written.
pub proof fn lemma_locals_round_trip<O: WireOrder>(d: Seq<u8>, h: HSHeader, pos: int, ls: Seq<RawLocal>)
    requires
        widths_valid(h),
        forall|i: int| 0 <= i < ls.len() ==> #[trigger] text_writable(h, ls[i].name),
        bytes_at(d, pos, encode_locals::<O>(h, ls)),
    ensures
        parse_many::<HSFunctionDebugInfoLocals, O>(d, h, pos, ls.len()) == Ok::<
            (Seq<LocalModel>, int),
            HkscError,
        >((locals_of(ls), pos + encode_locals::<O>(h, ls).len())),
    decreases ls.len(),
{
    if ls.len() == 0 {
        assert(locals_of(ls) =~= Seq::<LocalModel>::empty());
    } else {
        let l = ls[0];
        let rest = ls.drop_first();
        let e0 = encode_local::<O>(h, l);
        let t = encode_text::<O>(h, l.name);
        lemma_bytes_at_split(d, pos, e0, encode_locals::<O>(h, rest));
        lemma_bytes_at_split(d, pos, t + O::u32_bytes(l.start), O::u32_bytes(l.end));
        lemma_bytes_at_split(d, pos, t, O::u32_bytes(l.start));
        assert(text_writable(h, l.name));
        lemma_text_round_trip::<O>(d, h, pos, l.name);
        O::lemma_u32_bytes(l.start);
        O::lemma_u32_bytes(l.end);
        lemma_u32_at::<O>(d, pos + t.len(), l.start);
        lemma_u32_at::<O>(d, pos + t.len() + 4, l.end);
        assert forall|i: int| 0 <= i < rest.len() implies #[trigger] text_writable(h, rest[i].name) by {
            assert(rest[i] == ls[i + 1]);
        }
        lemma_locals_round_trip::<O>(d, h, pos + e0.len(), rest);
        assert(seq![local_of(l)] + locals_of(rest) =~= locals_of(ls));
    }
}

/// Debug information as it is written; its counts are the lengths of its lists.
pub struct RawDebug {
    pub line_begin: u32,
    pub line_end: u32,
    pub path: Seq<u8>,
    pub function_name: Seq<u8>,
    pub lines: Seq<u32>,
    pub locals: Seq<RawLocal>,
    pub up_values: Seq<Seq<u8>>,
}

/// Whether debug information can be written and read back unchanged.
pub open spec fn debug_writable(h: HSHeader, g: RawDebug) -> bool {
    &&& text_writable(h, g.path)
    &&& text_writable(h, g.function_name)
    &&& g.lines.len() <= u32::MAX
    &&& g.locals.len() <= u32::MAX
    &&& g.up_values.len() <= u32::MAX
    &&& forall|i: int| 0 <= i < g.locals.len() ==> #[trigger] text_writable(h, g.locals[i].name)
    &&& forall|i: int| 0 <= i < g.up_values.len() ==> #[trigger] text_writable(h, g.up_values[i])
}

/// The five counts and bounds of a debug record.
pub open spec fn debug_counts(g: RawDebug) -> Seq<u32> {
    seq![
        g.lines.len() as u32,
        g.locals.len() as u32,
        g.up_values.len() as u32,
        g.line_begin,
        g.line_end,
    ]
}

/// A debug record: counts and bounds, path, name, lines, locals and upvalue names.
pub open spec fn encode_debug<O: WireOrder>(h: HSHeader, g: RawDebug) -> Seq<u8> {
    encode_words::<O>(debug_counts(g)) + encode_text::<O>(h, g.path) + encode_text::<O>(
        h,
        g.function_name,
    ) + encode_words::<O>(g.lines) + encode_locals::<O>(h, g.locals) + encode_texts::<O>(
        h,
        g.up_values,
    )
}

/// What written debug information decodes to.
pub open spec fn debug_of(g: RawDebug) -> DebugModel {
    DebugModel {
        line_count: g.lines.len() as u32,
        locals_count: g.locals.len() as u32,
        up_value_count: g.up_values.len() as u32,
        line_begin: g.line_begin,
        line_end: g.line_end,
        path: text_of(g.path),
        function_name: text_of(g.function_name),
        lines: g.lines,
        locals: locals_of(g.locals),
        up_values: texts_of(g.up_values),
    }
}

/// Written debug information reads back as written.
pub proof fn lemma_debug_round_trip<O: WireOrder>(d: Seq<u8>, h: HSHeader, pos: int, g: RawDebug)
    requires
        widths_valid(h),
        debug_writable(h, g),
        bytes_at(d, pos, encode_debug::<O>(h, g)),
    ensures
        parse_debug::<O>(d, h, pos) == Ok::<(DebugModel, int), HkscError>(
            (debug_of(g), pos + encode_debug::<O>(h, g).len()),
        ),
{
    let c = encode_words::<O>(debug_counts(g));
    let tp = encode_text::<O>(h, g.path);
    let tn = encode_text::<O>(h, g.function_name);
    let ln = encode_words::<O>(g.lines);
    let lc = encode_locals::<O>(h, g.locals);
    let up = encode_texts::<O>(h, g.up_values);
    lemma_bytes_at_split(d, pos, c + tp + tn + ln + lc, up);
    lemma_bytes_at_split(d, pos, c + tp + tn + ln, lc);
    lemma_bytes_at_split(d, pos, c + tp + tn, ln);
    lemma_bytes_at_split(d, pos, c + tp, tn);
    lemma_bytes_at_split(d, pos, c, tp);
    lemma_u32s_round_trip::<O>(d, pos, debug_counts(g));
    let p1 = pos + c.len();
    lemma_text_round_trip::<O>(d, h, p1, g.path);
    let p2 = p1 + tp.len();
    lemma_text_round_trip::<O>(d, h, p2, g.function_name);
    let p3 = p2 + tn.len();
    lemma_u32s_round_trip::<O>(d, p3, g.lines);
    let p4 = p3 + ln.len();
    assert(forall|i: int| 0 <= i < g.locals.len() ==> #[trigger] text_writable(h, g.locals[i].name));
    lemma_locals_round_trip::<O>(d, h, p4, g.locals);
    let p5 = p4 + lc.len();
    assert(forall|i: int| 0 <= i < g.up_values.len() ==> #[trigger] text_writable(h, g.up_values[i]));
    lemma_texts_round_trip::<O>(d, h, p5, g.up_values);
    let counts = debug_counts(g);
    assert(counts[0] as nat == g.lines.len());
    assert(counts[1] as nat == g.locals.len());
    assert(counts[2] as nat == g.up_values.len());
}

/// A constant as it is written: a value other than a string, or the bytes of a string.
pub enum RawConstant {
    Value(ValueModel),
    Text(Seq<u8>),
}

/// Whether a written constant reads back unchanged.
pub open spec fn raw_constant_writable(h: HSHeader, c: RawConstant) -> bool {
    match c {
        RawConstant::Value(v) => constant_writable(h, v),
        RawConstant::Text(b) => text_writable(h, b),
    }
}

/// The bytes of a written constant.
pub open spec fn encode_raw_constant<O: WireOrder>(h: HSHeader, c: RawConstant) -> Seq<u8> {
    match c {
        RawConstant::Value(v) => encode_constant::<O>(h, v),
        RawConstant::Text(b) => seq![4u8] + encode_text::<O>(h, b),
    }
}

/// What a written constant decodes to.
pub open spec fn raw_constant_of(c: RawConstant) -> ConstantModel {
    match c {
        RawConstant::Value(v) => constant_of(v),
        RawConstant::Text(b) => ConstantModel {
            type_: HSType::TSTRING,
            value: Some(ValueModel::String(text_of(b))),
        },
    }
}

/// A written constant reads back as written.
pub proof fn lemma_raw_constant_round_trip<O: WireOrder>(
    d: Seq<u8>,
    h: HSHeader,
    pos: int,
    c: RawConstant,
)
    requires
        widths_valid(h),
        raw_constant_writable(h, c),
        bytes_at(d, pos, encode_raw_constant::<O>(h, c)),
    ensures
        parse_constant::<O>(d, h, pos) == Ok::<(ConstantModel, int), HkscError>(
            (raw_constant_of(c), pos + encode_raw_constant::<O>(h, c).len()),
        ),
{
    match c {
        RawConstant::Value(v) => lemma_constant_round_trip::<O>(d, h, pos, v),
        RawConstant::Text(b) => {
            lemma_bytes_at_split(d, pos, seq![4u8], encode_text::<O>(h, b));
            assert(d[pos] == 4u8) by {
                assert(d.subrange(pos, pos + 1)[0] == d[pos]);
            }
            lemma_text_round_trip::<O>(d, h, pos + 1, b);
        },
    }
}

/// A function record as it is written: counts and flags, raw instruction words, constants,
/// debug information if any, and its children. Each count is the length of its list.
pub struct RawFunction {
    pub up_value_count: u32,
    pub param_count: u32,
    pub var_arg: u8,
    pub slot_count: u32,
    pub words: Seq<u32>,
    pub constants: Seq<RawConstant>,
    pub debug: Option<RawDebug>,
    pub children: Seq<RawFunction>,
}

/// Whether the header's widths are ones every field can be written in.
pub open spec fn widths_valid(h: HSHeader) -> bool {
    (h.t_size == 4 || h.t_size == 8) && (h.number_size == 4 || h.number_size == 8) && (
    h.instruction_size == 4 || h.instruction_size == 8)
}

/// Whether a function and all below it can be written and read back unchanged: known flag
/// bits, counts that fit their fields, known opcodes, and constants that fit the widths.
pub open spec fn writable(h: HSHeader, f: RawFunction) -> bool
    decreases f,
{
    &&& f.var_arg <= 7
    &&& f.words.len() <= u64::MAX
    &&& forall|i: int| 0 <= i < f.words.len() ==> #[trigger] decode_word(f.words[i]) is Ok
    &&& f.constants.len() <= u32::MAX
    &&& forall|i: int|
        0 <= i < f.constants.len() ==> #[trigger] raw_constant_writable(h, f.constants[i])
    &&& (f.debug matches Some(g) ==> debug_writable(h, g))
    &&& f.children.len() <= u32::MAX
    &&& all_writable(h, f.children)
}

/// Whether every function of a run can be written and read back unchanged.
pub open spec fn all_writable(h: HSHeader, cs: Seq<RawFunction>) -> bool
    decreases cs,
{
    cs.len() > 0 ==> writable(h, cs[0]) && all_writable(h, cs.drop_first())
}

/// The five fields that open a function record.
pub open spec fn encode_head<O: WireOrder>(f: RawFunction) -> Seq<u8> {
    O::u32_bytes(f.up_value_count) + O::u32_bytes(f.param_count) + seq![f.var_arg] + O::u32_bytes(
        f.slot_count,
    ) + O::u64_bytes(f.words.len() as u64)
}

/// Zero bytes up to the next multiple of the instruction size.
pub open spec fn encode_padding(h: HSHeader, p: int) -> Seq<u8> {
    Seq::new((align_up(p, h.instruction_size as int) - p) as nat, |i: int| 0u8)
}

/// The instructions and everything after them up to the child count.
pub open spec fn encode_tail<O: WireOrder>(h: HSHeader, f: RawFunction) -> Seq<u8> {
    encode_words::<O>(f.words) + O::u32_bytes(f.constants.len() as u32) + encode_constants::<O>(
        h,
        f.constants,
    ) + encode_debug_part::<O>(h, f.debug) + O::u32_bytes(f.children.len() as u32)
}

/// The debug flag, then the debug record if there is one.
pub open spec fn encode_debug_part<O: WireOrder>(h: HSHeader, g: Option<RawDebug>) -> Seq<u8> {
    match g {
        None => O::u32_bytes(0),
        Some(g) => O::u32_bytes(1) + encode_debug::<O>(h, g),
    }
}

/// A function record up to its child count, written at `pos`.
pub open spec fn encode_fields<O: WireOrder>(h: HSHeader, f: RawFunction, pos: int) -> Seq<u8> {
    let head = encode_head::<O>(f);
    head + encode_padding(h, pos + head.len()) + encode_tail::<O>(h, f)
}

/// A whole function record with its children, written at `pos`.
pub open spec fn encode_function<O: WireOrder>(h: HSHeader, f: RawFunction, pos: int) -> Seq<u8>
    decreases f,
{
    let fields = encode_fields::<O>(h, f, pos);
    fields + encode_children::<O>(h, f.children, pos + fields.len())
}

/// Function records one after the other, the first written at `pos`.
pub open spec fn encode_children<O: WireOrder>(h: HSHeader, cs: Seq<RawFunction>, pos: int) -> Seq<
    u8,
>
    decreases cs,
{
    if cs.len() == 0 {
        seq![]
    } else {
        let first = encode_function::<O>(h, cs[0], pos);
        first + encode_children::<O>(h, cs.drop_first(), pos + first.len())
    }
}

/// What a function written at `pos` decodes to.
pub open spec fn function_of<O: WireOrder>(h: HSHeader, f: RawFunction, pos: int) -> FunctionModel
    decreases f,
{
    let fields = encode_fields::<O>(h, f, pos);
    FunctionModel {
        child_functions: children_of::<O>(h, f.children, pos + fields.len()),
        function_offset: (pos + encode_function::<O>(h, f, pos).len()) as u64,
        ..fields_of(f)
    }
}

/// What a written function's own fields decode to, before its children are read.
pub open spec fn fields_of(f: RawFunction) -> FunctionModel {
    FunctionModel {
        up_value_count: f.up_value_count,
        param_count: f.param_count,
        var_arg: HSVarArg { bits: f.var_arg },
        slot_count: f.slot_count,
        instruction_count: f.words.len() as u64,
        instructions: words_of(f.words),
        constant_count: f.constants.len() as u32,
        constants: constants_of(f.constants),
        has_debug_info: f.debug is Some,
        debug_info: match f.debug {
            None => empty_debug(),
            Some(g) => debug_of(g),
        },
        function_count: f.children.len() as u32,
        child_functions: Seq::empty(),
        function_offset: 0,
    }
}

/// What function records written one after the other from `pos` decode to.
pub open spec fn children_of<O: WireOrder>(h: HSHeader, cs: Seq<RawFunction>, pos: int) -> Seq<
    FunctionModel,
>
    decreases cs,
{
    if cs.len() == 0 {
        seq![]
    } else {
        seq![function_of::<O>(h, cs[0], pos)] + children_of::<O>(
            h,
            cs.drop_first(),
            pos + encode_function::<O>(h, cs[0], pos).len(),
        )
    }
}

/// A function's own fields, written at `pos`, read back as written.
pub proof fn lemma_fields_round_trip<O: WireOrder>(d: Seq<u8>, h: HSHeader, f: RawFunction, pos: int)
    requires
        widths_valid(h),
        writable(h, f),
        bytes_at(d, pos, encode_fields::<O>(h, f, pos)),
    ensures
        encode_fields::<O>(h, f, pos).len() >= 33,
        parse_function_fields::<O>(d, h, pos) == Ok::<(FunctionModel, int), HkscError>(
            (fields_of(f), pos + encode_fields::<O>(h, f, pos).len()),
        ),
{
    let u_up = O::u32_bytes(f.up_value_count);
    let u_pc = O::u32_bytes(f.param_count);
    let u_va = seq![f.var_arg];
    let u_sc = O::u32_bytes(f.slot_count);
    let n = f.words.len() as u64;
    let u_n = O::u64_bytes(n);
    O::lemma_u32_bytes(f.up_value_count);
    O::lemma_u32_bytes(f.param_count);
    O::lemma_u32_bytes(f.slot_count);
    O::lemma_u64_bytes(n);
    let head = encode_head::<O>(f);
    let p5 = pos + head.len();
    assert(head.len() == 21);
    let pad = encode_padding(h, p5);
    lemma_alignment(p5, h.instruction_size as int);
    let a = align_up(p5, h.instruction_size as int);
    let tail = encode_tail::<O>(h, f);
    lemma_bytes_at_split(d, pos, head + pad, tail);
    lemma_bytes_at_split(d, pos, head, pad);
    lemma_bytes_at_split(d, pos, u_up + u_pc + u_va + u_sc, u_n);
    lemma_bytes_at_split(d, pos, u_up + u_pc + u_va, u_sc);
    lemma_bytes_at_split(d, pos, u_up + u_pc, u_va);
    lemma_bytes_at_split(d, pos, u_up, u_pc);
    lemma_u32_at::<O>(d, pos, f.up_value_count);
    lemma_u32_at::<O>(d, pos + 4, f.param_count);
    assert(d[pos + 8] == f.var_arg) by {
        assert(d.subrange(pos + 8, pos + 9)[0] == d[pos + 8]);
    }
    lemma_u32_at::<O>(d, pos + 9, f.slot_count);
    lemma_u64_at::<O>(d, pos + 13, n);
    let va = f.var_arg;
    assert(va & 0x07 == va) by (bit_vector)
        requires
            va <= 7,
    ;

    let w = encode_words::<O>(f.words);
    let cc = f.constants.len() as u32;
    let u_cc = O::u32_bytes(cc);
    let cs = encode_constants::<O>(h, f.constants);
    let u_0 = encode_debug_part::<O>(h, f.debug);
    let k = f.children.len() as u32;
    let u_k = O::u32_bytes(k);
    O::lemma_u32_bytes(cc);
    O::lemma_u32_bytes(k);
    let q = a;
    lemma_bytes_at_split(d, q, w + u_cc + cs + u_0, u_k);
    lemma_bytes_at_split(d, q, w + u_cc + cs, u_0);
    lemma_bytes_at_split(d, q, w + u_cc, cs);
    lemma_bytes_at_split(d, q, w, u_cc);
    assert(forall|i: int| 0 <= i < f.words.len() ==> #[trigger] decode_word(f.words[i]) is Ok);
    lemma_words_round_trip::<O>(d, h, q, f.words);
    assert(n as nat == f.words.len());
    let p6 = q + w.len();
    lemma_u32_at::<O>(d, p6, cc);
    assert(cc as nat == f.constants.len());
    assert(forall|i: int|
        0 <= i < f.constants.len() ==> #[trigger] raw_constant_writable(h, f.constants[i]));
    lemma_constants_round_trip::<O>(d, h, p6 + 4, f.constants);
    let p8 = p6 + 4 + cs.len();
    match f.debug {
        None => {
            O::lemma_u32_bytes(0);
            lemma_u32_at::<O>(d, p8, 0);
        },
        Some(g) => {
            O::lemma_u32_bytes(1);
            lemma_bytes_at_split(d, p8, O::u32_bytes(1), encode_debug::<O>(h, g));
            lemma_u32_at::<O>(d, p8, 1);
            lemma_debug_round_trip::<O>(d, h, p8 + 4, g);
        },
    }
    lemma_u32_at::<O>(d, p8 + u_0.len(), k);
}

/// A function tree written at `pos`, in either byte order and for any header whose widths are
/// 4 or 8, reads back field for field: the counts and flags, the instructions its words encode,
/// its constants and debug information (each string as the characters its bytes decode to),
/// one child for each written child, every list as long as the count written before it, and as
/// offset the position right after the record.
pub proof fn lemma_function_round_trip<O: WireOrder>(d: Seq<u8>, h: HSHeader, f: RawFunction, pos: int)
    requires
        widths_valid(h),
        writable(h, f),
        bytes_at(d, pos, encode_function::<O>(h, f, pos)),
        d.len() <= u64::MAX,
    ensures
        parse_function::<O>(d, h, pos) == Ok::<(FunctionModel, int), HkscError>(
            (function_of::<O>(h, f, pos), pos + encode_function::<O>(h, f, pos).len()),
        ),
        encode_function::<O>(h, f, pos).len() > 0,
    decreases f,
{
    let fields = encode_fields::<O>(h, f, pos);
    let p = pos + fields.len();
    let kids = encode_children::<O>(h, f.children, p);
    lemma_bytes_at_split(d, pos, fields, kids);
    lemma_fields_round_trip::<O>(d, h, f, pos);
    lemma_children_round_trip::<O>(d, h, f.children, p);
    assert((f.children.len() as u32) as nat == f.children.len());
    let q = p + kids.len();
    assert(parse_function::<O>(d, h, pos) == with_children(
        fields_of(f),
        parse_children::<O>(d, h, p, f.children.len()),
    ));
}

/// Function trees written one after the other from `pos` read back as the trees written.
pub proof fn lemma_children_round_trip<O: WireOrder>(
    d: Seq<u8>,
    h: HSHeader,
    cs: Seq<RawFunction>,
    pos: int,
)
    requires
        widths_valid(h),
        all_writable(h, cs),
        bytes_at(d, pos, encode_children::<O>(h, cs, pos)),
        d.len() <= u64::MAX,
    ensures
        parse_children::<O>(d, h, pos, cs.len()) == Ok::<(Seq<FunctionModel>, int), HkscError>(
            (children_of::<O>(h, cs, pos), pos + encode_children::<O>(h, cs, pos).len()),
        ),
    decreases cs,
{
    if cs.len() > 0 {
        let first = encode_function::<O>(h, cs[0], pos);
        let rest = cs.drop_first();
        lemma_bytes_at_split(d, pos, first, encode_children::<O>(h, rest, pos + first.len()));
        lemma_function_round_trip::<O>(d, h, cs[0], pos);
        lemma_children_round_trip::<O>(d, h, rest, pos + first.len());
        assert(rest.len() == (cs.len() - 1) as nat);
    }
}

} // verus!
