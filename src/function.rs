//! Function records: the tree that holds a file's code.
use vstd::prelude::*;
use crate::byte_order::WireOrder;
use crate::constant::{ConstantModel, HSConstant};
use crate::debug::{
    empty_debug, parse_debug, DebugModel, HSFunctionDebugInfo, HSFunctionDebugInfoLocals,
};
use crate::errors::{
    decoded_view, lemma_prepend_empty, lemma_prepend_step, lemma_views_push, prepend, views_of,
    HkscError,
};
use crate::header::HSHeader;
use crate::instruction::{HSInstruction, InstructionModel};
use crate::readable::{lemma_many_len, parse_many, read_header_enumerable};
use crate::reader::{
    lemma_strings_len, lemma_u32s_len, parse_strings, parse_u32, parse_u32s, parse_u64, parse_u8,
    read_u32, read_u64, read_u8,
};

verus! {

/// The function takes variadic arguments.
pub const VARARG_HASARG: u8 = 1;

/// The function takes only variadic arguments.
pub const VARARG_ISVARARG: u8 = 2;

/// The function needs its variadic arguments.
pub const VARARG_NEEDSARG: u8 = 4;

/// The variadic-argument flags of a function; bits outside the three known ones are dropped.
#[derive(Debug, Clone, Copy, PartialEq, Eq, Structural)]
pub struct HSVarArg {
    pub bits: u8,
}

impl HSVarArg {
    /// Keeps the known flag bits of `b`.
    pub fn from_bits_truncate(b: u8) -> (r: HSVarArg)
        ensures
            r.bits == b & 0x07,
    {
        HSVarArg { bits: b & 0x07 }
    }

    /// Whether every bit of `flag` is set.
    pub fn contains(&self, flag: u8) -> (r: bool)
        ensures
            r == (self.bits & flag == flag),
    {
        self.bits & flag == flag
    }
}

/// `p` moved forward to the next multiple of `size`.
pub open spec fn align_up(p: int, size: int) -> int {
    if p % size == 0 {
        p
    } else {
        p + (size - p % size)
    }
}

/// Alignment to an instruction size of 4 or 8 lands on a multiple of it and skips fewer bytes
/// than that size.
pub proof fn lemma_alignment(p: int, size: int)
    requires
        size == 4 || size == 8,
        p >= 0,
    ensures
        align_up(p, size) % size == 0,
        p <= align_up(p, size) < p + size,
        align_up(p, size) - p <= size - 1,
{
}

/// Moves `*pos` forward to the next multiple of `size`, skipping the padding bytes; fails if
/// they run past the end of `data`.
pub fn align(data: &[u8], pos: &mut usize, size: u8) -> (r: Result<(), HkscError>)
    requires
        size == 4 || size == 8,
        *old(pos) <= data@.len(),
    ensures
        align_up(*old(pos) as int, size as int) <= data@.len() <==> r is Ok,
        r is Ok ==> *final(pos) == align_up(*old(pos) as int, size as int),
        r is Err ==> r == Err::<(), HkscError>(HkscError::ReadError),
{
    let s = size as usize;
    let rem = *pos % s;
    if rem == 0 {
        return Ok(());
    }
    let pad = s - rem;
    if data.len() - *pos < pad {
        return Err(HkscError::ReadError);
    }
    *pos = *pos + pad;
    Ok(())
}

/// A function record.
#[derive(Debug)]
pub struct HSFunction {
    pub up_value_count: u32,
    pub param_count: u32,
    pub var_arg: HSVarArg,
    /// Number of registers the function needs.
    pub slot_count: u32,
    pub instruction_count: u64,
    pub instructions: Vec<HSInstruction>,
    pub constant_count: u32,
    pub constants: Vec<HSConstant>,
    pub has_debug_info: bool,
    /// Empty unless `has_debug_info`.
    pub debug_info: HSFunctionDebugInfo,
    pub function_count: u32,
    pub child_functions: Vec<HSFunction>,
    /// Stream position right after this function's record.
    pub function_offset: u64,
}

/// What a function record holds, children included.
pub struct FunctionModel {
    pub up_value_count: u32,
    pub param_count: u32,
    pub var_arg: HSVarArg,
    pub slot_count: u32,
    pub instruction_count: u64,
    pub instructions: Seq<InstructionModel>,
    pub constant_count: u32,
    pub constants: Seq<ConstantModel>,
    pub has_debug_info: bool,
    pub debug_info: DebugModel,
    pub function_count: u32,
    pub child_functions: Seq<FunctionModel>,
    pub function_offset: u64,
}

/// The model of a function record and, through its children, of its whole subtree.
pub open spec fn function_model(f: HSFunction) -> FunctionModel
    decreases f,
{
    FunctionModel {
        child_functions: Seq::new(
            f.child_functions@.len(),
            |i: int|
                if 0 <= i < f.child_functions@.len() {
                    function_model(f.child_functions@[i])
                } else {
                    f.leaf_view()
                },
        ),
        ..f.leaf_view()
    }
}

impl View for HSFunction {
    type V = FunctionModel;

    open spec fn view(&self) -> FunctionModel {
        function_model(*self)
    }
}

impl HSFunction {
    /// The view of this function's own fields, without children.
    pub open spec fn leaf_view(&self) -> FunctionModel {
        FunctionModel {
            up_value_count: self.up_value_count,
            param_count: self.param_count,
            var_arg: self.var_arg,
            slot_count: self.slot_count,
            instruction_count: self.instruction_count,
            instructions: views_of(self.instructions),
            constant_count: self.constant_count,
            constants: views_of(self.constants),
            has_debug_info: self.has_debug_info,
            debug_info: self.debug_info@,
            function_count: self.function_count,
            child_functions: Seq::empty(),
            function_offset: self.function_offset,
        }
    }
}

/// A function record up to and including its child count: four counts and flags, the
/// instruction count, padding up to a multiple of the instruction size, the instructions, the
/// constants, the debug flag and, if it is set, the debug record. Children and offset are left
/// empty.
pub open spec fn parse_function_fields<O: WireOrder>(d: Seq<u8>, h: HSHeader, pos: int) -> Result<
    (FunctionModel, int),
    HkscError,
> {
    match parse_u32::<O>(d, pos) {
        Err(e) => Err(e),
        Ok((up_value_count, p1)) => match parse_u32::<O>(d, p1) {
            Err(e) => Err(e),
            Ok((param_count, p2)) => match parse_u8(d, p2) {
                Err(e) => Err(e),
                Ok((var_arg, p3)) => match parse_u32::<O>(d, p3) {
                    Err(e) => Err(e),
                    Ok((slot_count, p4)) => match parse_u64::<O>(d, p4) {
                        Err(e) => Err(e),
                        Ok((instruction_count, p5)) => if h.instruction_size != 4
                            && h.instruction_size != 8 {
                            Err(HkscError::InvalidInstructionSize(h.instruction_size))
                        } else if align_up(p5, h.instruction_size as int) > d.len() {
                            Err(HkscError::ReadError)
                        } else {
                            match parse_many::<HSInstruction, O>(
                                d,
                                h,
                                align_up(p5, h.instruction_size as int),
                                instruction_count as nat,
                            ) {
                                Err(e) => Err(e),
                                Ok((instructions, p6)) => match parse_u32::<O>(d, p6) {
                                    Err(e) => Err(e),
                                    Ok((constant_count, p7)) => match parse_many::<HSConstant, O>(
                                        d,
                                        h,
                                        p7,
                                        constant_count as nat,
                                    ) {
                                        Err(e) => Err(e),
                                        Ok((constants, p8)) => match parse_u32::<O>(d, p8) {
                                            Err(e) => Err(e),
                                            Ok((flag, p9)) => match (if flag != 0 {
                                                parse_debug::<O>(d, h, p9)
                                            } else {
                                                Ok((empty_debug(), p9))
                                            }) {
                                                Err(e) => Err(e),
                                                Ok((debug_info, p10)) => match parse_u32::<O>(
                                                    d,
                                                    p10,
                                                ) {
                                                    Err(e) => Err(e),
                                                    Ok((function_count, p11)) => Ok(
                                                        (
                                                            FunctionModel {
                                                                up_value_count,
                                                                param_count,
                                                                var_arg: HSVarArg {
                                                                    bits: var_arg & 0x07,
                                                                },
                                                                slot_count,
                                                                instruction_count,
                                                                instructions,
                                                                constant_count,
                                                                constants,
                                                                has_debug_info: flag != 0,
                                                                debug_info,
                                                                function_count,
                                                                child_functions: Seq::empty(),
                                                                function_offset: 0,
                                                            },
                                                            p11,
                                                        ),
                                                    ),
                                                },
                                            },
                                        },
                                    },
                                },
                            }
                        },
                    },
                },
            },
        },
    }
}

/// A function record: its fields, then `function_count` child records, each decoded the same
/// way; the offset is the position right after the last child. A record never ends where it
/// starts, so the last test never fails for a record that was decoded.
pub open spec fn parse_function<O: WireOrder>(d: Seq<u8>, h: HSHeader, pos: int) -> Result<
    (FunctionModel, int),
    HkscError,
>
    decreases d.len() - pos, 0int,
{
    if !(0 <= pos <= d.len()) {
        Err(HkscError::ReadError)
    } else {
        match parse_function_fields::<O>(d, h, pos) {
            Err(e) => Err(e),
            Ok((f, p)) => if !(pos < p <= d.len()) {
                Err(HkscError::ReadError)
            } else {
                with_children(f, parse_children::<O>(d, h, p, f.function_count as nat))
            },
        }
    }
}

/// A function's fields completed by the outcome of decoding its children.
pub open spec fn with_children(
    fields: FunctionModel,
    r: Result<(Seq<FunctionModel>, int), HkscError>,
) -> Result<(FunctionModel, int), HkscError> {
    match r {
        Err(e) => Err(e),
        Ok((children, q)) => Ok(
            (FunctionModel { child_functions: children, function_offset: q as u64, ..fields }, q),
        ),
    }
}

/// `n` function records, one after the other.
pub open spec fn parse_children<O: WireOrder>(d: Seq<u8>, h: HSHeader, pos: int, n: nat) -> Result<
    (Seq<FunctionModel>, int),
    HkscError,
>
    decreases d.len() - pos, 1int, n,
{
    if n == 0 {
        Ok((seq![], pos))
    } else if !(0 <= pos <= d.len()) {
        Err(HkscError::ReadError)
    } else {
        match parse_function::<O>(d, h, pos) {
            Err(e) => Err(e),
            Ok((f, p)) => if !(pos < p <= d.len()) {
                Err(HkscError::ReadError)
            } else {
                prepend(seq![f], parse_children::<O>(d, h, p, (n - 1) as nat))
            },
        }
    }
}

impl HSFunction {
    /// Reads a function record up to its child count; children and offset are left empty.
    fn read_fields<O: WireOrder>(data: &[u8], pos: &mut usize, header: &HSHeader) -> (r: Result<
        HSFunction,
        HkscError,
    >)
        ensures
            match r {
                Ok(f) => parse_function_fields::<O>(data@, *header, *old(pos) as int) == Ok::<
                    (FunctionModel, int),
                    HkscError,
                >((f.leaf_view(), *final(pos) as int)) && f.child_functions@.len() == 0,
                Err(e) => parse_function_fields::<O>(data@, *header, *old(pos) as int) == Err::<
                    (FunctionModel, int),
                    HkscError,
                >(e),
            },
    {
        let up_value_count = match read_u32::<O>(data, pos) {
            Ok(v) => v,
            Err(e) => return Err(e),
        };
        let param_count = match read_u32::<O>(data, pos) {
            Ok(v) => v,
            Err(e) => return Err(e),
        };
        let var_arg = match read_u8(data, pos) {
            Ok(v) => HSVarArg::from_bits_truncate(v),
            Err(e) => return Err(e),
        };
        let slot_count = match read_u32::<O>(data, pos) {
            Ok(v) => v,
            Err(e) => return Err(e),
        };
        let instruction_count = match read_u64::<O>(data, pos) {
            Ok(v) => v,
            Err(e) => return Err(e),
        };
        if header.instruction_size != 4 && header.instruction_size != 8 {
            return Err(HkscError::InvalidInstructionSize(header.instruction_size));
        }
        match align(data, pos, header.instruction_size) {
            Ok(()) => {},
            Err(e) => return Err(e),
        }
        let instructions = match read_header_enumerable::<HSInstruction, O>(data, pos, header, instruction_count) {
            Ok(v) => v,
            Err(e) => return Err(e),
        };
        let constant_count = match read_u32::<O>(data, pos) {
            Ok(v) => v,
            Err(e) => return Err(e),
        };
        let constants = match read_header_enumerable::<HSConstant, O>(
            data,
            pos,
            header,
            constant_count as u64,
        ) {
            Ok(v) => v,
            Err(e) => return Err(e),
        };
        let flag = match read_u32::<O>(data, pos) {
            Ok(v) => v,
            Err(e) => return Err(e),
        };
        let debug_info = if flag != 0 {
            match HSFunctionDebugInfo::read::<O>(data, pos, header) {
                Ok(v) => v,
                Err(e) => return Err(e),
            }
        } else {
            HSFunctionDebugInfo::default()
        };
        let function_count = match read_u32::<O>(data, pos) {
            Ok(v) => v,
            Err(e) => return Err(e),
        };
        Ok(
            HSFunction {
                up_value_count,
                param_count,
                var_arg,
                slot_count,
                instruction_count,
                instructions,
                constant_count,
                constants,
                has_debug_info: flag != 0,
                debug_info,
                function_count,
                child_functions: Vec::new(),
                function_offset: 0,
            },
        )
    }

    /// Reads a function record and, depth first, the records of all its children.
    pub fn read<O: WireOrder>(data: &[u8], pos: &mut usize, header: &HSHeader) -> (r: Result<
        HSFunction,
        HkscError,
    >)
        ensures
            parse_function::<O>(data@, *header, *old(pos) as int) == decoded_view(r, *final(pos)),
        decreases data@.len() - *old(pos),
    {
        let first: usize = *pos;
        let ghost start = first as int;
        if first > data.len() {
            return Err(HkscError::ReadError);
        }
        let mut f = match HSFunction::read_fields::<O>(data, pos, header) {
            Ok(f) => f,
            Err(e) => return Err(e),
        };
        if !(first < *pos && *pos <= data.len()) {
            return Err(HkscError::ReadError);
        }
        let ghost fields = f.leaf_view();
        let ghost p = *pos as int;
        let count = f.function_count;
        let mut children: Vec<HSFunction> = Vec::new();
        let mut i: u32 = 0;
        proof {
            lemma_prepend_empty(parse_children::<O>(data@, *header, p, count as nat));
            assert(parse_function::<O>(data@, *header, start) == with_children(
                fields,
                parse_children::<O>(data@, *header, p, count as nat),
            ));
        }
        while i < count
            invariant
                i <= count,
                start == *old(pos) as int,
                start < p <= *pos <= data@.len(),
                parse_function::<O>(data@, *header, start) == with_children(
                    fields,
                    parse_children::<O>(data@, *header, p, count as nat),
                ),
                parse_children::<O>(data@, *header, p, count as nat) == prepend(
                    views_of(children),
                    parse_children::<O>(data@, *header, *pos as int, (count - i) as nat),
                ),
            decreases count - i,
        {
            let cur: usize = *pos;
            let child = match HSFunction::read::<O>(data, pos, header) {
                Ok(c) => c,
                Err(e) => return Err(e),
            };
            if !(cur < *pos && *pos <= data.len()) {
                return Err(HkscError::ReadError);
            }
            let ghost before = children;
            let ghost cv = child@;
            children.push(child);
            proof {
                lemma_views_push(before, child, children);
                lemma_prepend_step(
                    views_of(before),
                    cv,
                    parse_children::<O>(data@, *header, *pos as int, (count - i - 1) as nat),
                );
            }
            i = i + 1;
        }
        f.child_functions = children;
        f.function_offset = *pos as u64;
        proof {
            let fv = f@;
            assert(fv.child_functions.len() == views_of(f.child_functions).len());
            assert forall|k: int| 0 <= k < fv.child_functions.len() implies fv.child_functions[k]
                == views_of(f.child_functions)[k] by {
                assert(fv.child_functions[k] == f.child_functions@[k]@);
            }
            assert(fv.child_functions =~= views_of(f.child_functions));
            assert(f@ == FunctionModel {
                child_functions: views_of(children),
                function_offset: *pos as u64,
                ..fields
            });
        }
        Ok(f)
    }
}

/// Decoded siblings: as many as asked for, each recording the position right after its own
/// record, strictly increasing, the last one where the run ends.
pub proof fn lemma_children_offsets<O: WireOrder>(d: Seq<u8>, h: HSHeader, pos: int, n: nat)
    requires
        d.len() <= u64::MAX,
    ensures
        parse_children::<O>(d, h, pos, n) matches Ok((cs, q)) ==> {
            &&& cs.len() == n
            &&& forall|i: int| 0 <= i < n ==> pos < #[trigger] cs[i].function_offset <= q
            &&& forall|i: int, j: int|
                0 <= i < j < n ==> #[trigger] cs[i].function_offset < #[trigger] cs[j].function_offset
            &&& n > 0 ==> cs[n - 1].function_offset == q
        },
    decreases n,
{
    if n > 0 && 0 <= pos <= d.len() {
        match parse_function::<O>(d, h, pos) {
            Ok((f, p)) => if pos < p <= d.len() {
                lemma_children_offsets::<O>(d, h, p, (n - 1) as nat);
                match parse_children::<O>(d, h, p, (n - 1) as nat) {
                    Ok((rest, q)) => {
                        let cs = seq![f] + rest;
                        assert(f.function_offset == p);
                        assert(forall|i: int| 0 < i < n ==> cs[i] == rest[i - 1]);
                    },
                    Err(_) => {},
                }
            },
            Err(_) => {},
        }
    }
}

/// A decoded function records the position right after its whole record, and its children
/// are as many as its count, each ending after the function's own fields, in strictly
/// increasing order, the last where the function ends.
pub proof fn lemma_function_offsets<O: WireOrder>(d: Seq<u8>, h: HSHeader, pos: int)
    requires
        d.len() <= u64::MAX,
    ensures
        parse_function::<O>(d, h, pos) matches Ok((m, q)) ==> {
            &&& m.function_offset == q
            &&& pos < q <= d.len()
            &&& m.child_functions.len() == m.function_count
            &&& forall|i: int|
                0 <= i < m.function_count ==> pos < #[trigger] m.child_functions[i].function_offset
                    <= q
            &&& forall|i: int, j: int|
                0 <= i < j < m.function_count ==> #[trigger] m.child_functions[i].function_offset
                    < #[trigger] m.child_functions[j].function_offset
        },
{
    if 0 <= pos <= d.len() {
        match parse_function_fields::<O>(d, h, pos) {
            Ok((f, p)) => if pos < p <= d.len() {
                lemma_children_offsets::<O>(d, h, p, f.function_count as nat);
                lemma_children_end::<O>(d, h, p, f.function_count as nat);
            },
            Err(_) => {},
        }
    }
}

/// A run of decoded siblings is as long as asked for and ends within the bytes, no earlier than
/// it starts.
pub proof fn lemma_children_end<O: WireOrder>(d: Seq<u8>, h: HSHeader, pos: int, n: nat)
    ensures
        parse_children::<O>(d, h, pos, n) matches Ok((cs, q)) ==> cs.len() == n && pos <= q && (n
            > 0 ==> q <= d.len()),
    decreases n,
{
    if n > 0 && 0 <= pos <= d.len() {
        match parse_function::<O>(d, h, pos) {
            Ok((f, p)) => if pos < p <= d.len() {
                lemma_children_end::<O>(d, h, p, (n - 1) as nat);
            },
            Err(_) => {},
        }
    }
}


/// Every list of a decoded function is as long as the count read before it: instructions,
/// constants and children, and in its debug information the lines, locals and upvalue names.
pub proof fn lemma_decoded_counts<O: WireOrder>(d: Seq<u8>, h: HSHeader, pos: int)
    ensures
        parse_function::<O>(d, h, pos) matches Ok((m, _)) ==> {
            &&& m.instructions.len() == m.instruction_count
            &&& m.constants.len() == m.constant_count
            &&& m.child_functions.len() == m.function_count
            &&& m.debug_info.lines.len() == m.debug_info.line_count
            &&& m.debug_info.locals.len() == m.debug_info.locals_count
            &&& m.debug_info.up_values.len() == m.debug_info.up_value_count
        },
{
    assert forall|p: int, n: nat| parse_many::<HSInstruction, O>(d, h, p, n) is Ok implies (
    #[trigger] parse_many::<HSInstruction, O>(d, h, p, n))->Ok_0.0.len() == n by {
        lemma_many_len::<HSInstruction, O>(d, h, p, n);
    }
    assert forall|p: int, n: nat| parse_many::<HSConstant, O>(d, h, p, n) is Ok implies (
    #[trigger] parse_many::<HSConstant, O>(d, h, p, n))->Ok_0.0.len() == n by {
        lemma_many_len::<HSConstant, O>(d, h, p, n);
    }
    assert forall|p: int, n: nat| parse_u32s::<O>(d, p, n) is Ok implies (#[trigger] parse_u32s::<
        O,
    >(d, p, n))->Ok_0.0.len() == n by {
        lemma_u32s_len::<O>(d, p, n);
    }
    assert forall|p: int, n: nat| parse_many::<HSFunctionDebugInfoLocals, O>(d, h, p, n) is Ok implies (
    #[trigger] parse_many::<HSFunctionDebugInfoLocals, O>(d, h, p, n))->Ok_0.0.len() == n by {
        lemma_many_len::<HSFunctionDebugInfoLocals, O>(d, h, p, n);
    }
    assert forall|p: int, n: nat| parse_strings::<O>(d, h, p, n) is Ok implies (
    #[trigger] parse_strings::<O>(d, h, p, n))->Ok_0.0.len() == n by {
        lemma_strings_len::<O>(d, h, p, n);
    }
    if 0 <= pos <= d.len() {
        match parse_function_fields::<O>(d, h, pos) {
            Ok((f, p)) => if pos < p <= d.len() {
                lemma_children_end::<O>(d, h, p, f.function_count as nat);
            },
            Err(_) => {},
        }
    }
}

/// Whether every list of a function, and of every function below it, is as long as the count
/// read before it.
pub open spec fn counts_hold(m: FunctionModel) -> bool
    decreases m,
{
    &&& m.instructions.len() == m.instruction_count
    &&& m.constants.len() == m.constant_count
    &&& m.child_functions.len() == m.function_count
    &&& m.debug_info.lines.len() == m.debug_info.line_count
    &&& m.debug_info.locals.len() == m.debug_info.locals_count
    &&& m.debug_info.up_values.len() == m.debug_info.up_value_count
    &&& all_counts_hold(m.child_functions)
}

/// Whether `counts_hold` holds of every function of a run.
pub open spec fn all_counts_hold(cs: Seq<FunctionModel>) -> bool
    decreases cs,
{
    cs.len() > 0 ==> counts_hold(cs[0]) && all_counts_hold(cs.drop_first())
}

/// In a decoded function tree, every function's lists are as long as their counts.
pub proof fn lemma_tree_counts<O: WireOrder>(d: Seq<u8>, h: HSHeader, pos: int)
    ensures
        parse_function::<O>(d, h, pos) matches Ok((m, _)) ==> counts_hold(m),
    decreases d.len() - pos, 0int,
{
    lemma_decoded_counts::<O>(d, h, pos);
    if 0 <= pos <= d.len() {
        match parse_function_fields::<O>(d, h, pos) {
            Ok((f, p)) => if pos < p <= d.len() {
                lemma_children_tree_counts::<O>(d, h, p, f.function_count as nat);
            },
            Err(_) => {},
        }
    }
}

/// In decoded sibling trees, every function's lists are as long as their counts.
pub proof fn lemma_children_tree_counts<O: WireOrder>(d: Seq<u8>, h: HSHeader, pos: int, n: nat)
    ensures
        parse_children::<O>(d, h, pos, n) matches Ok((cs, _)) ==> all_counts_hold(cs),
    decreases d.len() - pos, 1int, n,
{
    if n > 0 && 0 <= pos <= d.len() {
        lemma_tree_counts::<O>(d, h, pos);
        match parse_function::<O>(d, h, pos) {
            Ok((f, p)) => if pos < p <= d.len() {
                lemma_children_tree_counts::<O>(d, h, p, (n - 1) as nat);
                match parse_children::<O>(d, h, p, (n - 1) as nat) {
                    Ok((rest, q)) => {
                        let cs = seq![f] + rest;
                        assert(cs.drop_first() =~= rest);
                    },
                    Err(_) => {},
                }
            },
            Err(_) => {},
        }
    }
}

} // verus!
