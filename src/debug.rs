//! Optional per-function source metadata.
use vstd::prelude::*;
use crate::byte_order::WireOrder;
use crate::errors::{decoded_view, views_of, HkscError};
use crate::readable::{parse_many, read_header_enumerable, HeaderReadable};
use crate::header::HSHeader;
use crate::reader::{
    lemma_u32s_len, parse_string, parse_strings, parse_u32, parse_u32s, read_string, read_strings, read_u32,
    read_u32s,
};

verus! {

/// A local variable and the instruction range it lives in.
#[derive(Debug, Clone)]
pub struct HSFunctionDebugInfoLocals {
    pub local_name: String,
    pub start: u32,
    pub end: u32,
}

/// What a local-variable record holds.
pub struct LocalModel {
    pub local_name: Seq<char>,
    pub start: u32,
    pub end: u32,
}

impl View for HSFunctionDebugInfoLocals {
    type V = LocalModel;

    open spec fn view(&self) -> LocalModel {
        LocalModel { local_name: self.local_name@, start: self.start, end: self.end }
    }
}

/// A local-variable record: name, then start and end.
pub open spec fn parse_local<O: WireOrder>(d: Seq<u8>, h: HSHeader, pos: int) -> Result<
    (LocalModel, int),
    HkscError,
> {
    match parse_string::<O>(d, h, pos) {
        Err(e) => Err(e),
        Ok((local_name, p1)) => match parse_u32::<O>(d, p1) {
            Err(e) => Err(e),
            Ok((start, p2)) => match parse_u32::<O>(d, p2) {
                Err(e) => Err(e),
                Ok((end, p3)) => Ok((LocalModel { local_name, start, end }, p3)),
            },
        },
    }
}

impl HSFunctionDebugInfoLocals {
    /// Reads one local-variable record.
    pub fn read<O: WireOrder>(data: &[u8], pos: &mut usize, header: &HSHeader) -> (r: Result<
        HSFunctionDebugInfoLocals,
        HkscError,
    >)
        ensures
            parse_local::<O>(data@, *header, *old(pos) as int) == decoded_view(r, *final(pos)),
    {
        let local_name = match read_string::<O>(data, pos, header) {
            Ok(v) => v,
            Err(e) => return Err(e),
        };
        let start = match read_u32::<O>(data, pos) {
            Ok(v) => v,
            Err(e) => return Err(e),
        };
        let end = match read_u32::<O>(data, pos) {
            Ok(v) => v,
            Err(e) => return Err(e),
        };
        Ok(HSFunctionDebugInfoLocals { local_name, start, end })
    }
}

/// Debug information of a function.
#[derive(Debug, Clone)]
pub struct HSFunctionDebugInfo {
    pub line_count: u32,
    pub locals_count: u32,
    pub up_value_count: u32,
    pub line_begin: u32,
    pub line_end: u32,
    /// Path of the source file.
    pub path: String,
    pub function_name: String,
    /// One source line per instruction.
    pub lines: Vec<u32>,
    pub locals: Vec<HSFunctionDebugInfoLocals>,
    /// Names of the captured variables.
    pub up_values: Vec<String>,
}

/// What debug information holds.
pub struct DebugModel {
    pub line_count: u32,
    pub locals_count: u32,
    pub up_value_count: u32,
    pub line_begin: u32,
    pub line_end: u32,
    pub path: Seq<char>,
    pub function_name: Seq<char>,
    pub lines: Seq<u32>,
    pub locals: Seq<LocalModel>,
    pub up_values: Seq<Seq<char>>,
}

impl View for HSFunctionDebugInfo {
    type V = DebugModel;

    open spec fn view(&self) -> DebugModel {
        DebugModel {
            line_count: self.line_count,
            locals_count: self.locals_count,
            up_value_count: self.up_value_count,
            line_begin: self.line_begin,
            line_end: self.line_end,
            path: self.path@,
            function_name: self.function_name@,
            lines: views_of(self.lines),
            locals: views_of(self.locals),
            up_values: views_of(self.up_values),
        }
    }
}

/// The debug information of a function that has none: every count zero, every list empty.
pub open spec fn empty_debug() -> DebugModel {
    DebugModel {
        line_count: 0,
        locals_count: 0,
        up_value_count: 0,
        line_begin: 0,
        line_end: 0,
        path: Seq::empty(),
        function_name: Seq::empty(),
        lines: Seq::empty(),
        locals: Seq::empty(),
        up_values: Seq::empty(),
    }
}

impl Default for HSFunctionDebugInfo {
    fn default() -> (r: HSFunctionDebugInfo)
        ensures
            r@ == empty_debug(),
    {
        let r = HSFunctionDebugInfo {
            line_count: 0,
            locals_count: 0,
            up_value_count: 0,
            line_begin: 0,
            line_end: 0,
            path: String::new(),
            function_name: String::new(),
            lines: Vec::new(),
            locals: Vec::new(),
            up_values: Vec::new(),
        };
        proof {
            assert(r@.lines =~= Seq::<u32>::empty());
            assert(r@.locals =~= Seq::<LocalModel>::empty());
            assert(r@.up_values =~= Seq::<Seq<char>>::empty());
        }
        r
    }
}

/// The debug record: five counts and bounds, the path and the name, then the line table, the
/// locals and the upvalue names, each as long as its count says.
pub open spec fn parse_debug<O: WireOrder>(d: Seq<u8>, h: HSHeader, pos: int) -> Result<
    (DebugModel, int),
    HkscError,
> {
    match parse_u32s::<O>(d, pos, 5) {
        Err(e) => Err(e),
        Ok((c, p1)) => match parse_string::<O>(d, h, p1) {
            Err(e) => Err(e),
            Ok((path, p2)) => match parse_string::<O>(d, h, p2) {
                Err(e) => Err(e),
                Ok((function_name, p3)) => match parse_u32s::<O>(d, p3, c[0] as nat) {
                    Err(e) => Err(e),
                    Ok((lines, p4)) => match parse_many::<HSFunctionDebugInfoLocals, O>(
                        d,
                        h,
                        p4,
                        c[1] as nat,
                    ) {
                        Err(e) => Err(e),
                        Ok((locals, p5)) => match parse_strings::<O>(d, h, p5, c[2] as nat) {
                            Err(e) => Err(e),
                            Ok((up_values, p6)) => Ok(
                                (
                                    DebugModel {
                                        line_count: c[0],
                                        locals_count: c[1],
                                        up_value_count: c[2],
                                        line_begin: c[3],
                                        line_end: c[4],
                                        path,
                                        function_name,
                                        lines,
                                        locals,
                                        up_values,
                                    },
                                    p6,
                                ),
                            ),
                        },
                    },
                },
            },
        },
    }
}

impl HSFunctionDebugInfo {
    /// Reads a debug record.
    pub fn read<O: WireOrder>(data: &[u8], pos: &mut usize, header: &HSHeader) -> (r: Result<
        HSFunctionDebugInfo,
        HkscError,
    >)
        ensures
            parse_debug::<O>(data@, *header, *old(pos) as int) == decoded_view(r, *final(pos)),
    {
        let ghost start = *pos as int;
        let c = match read_u32s::<O>(data, pos, 5) {
            Ok(v) => v,
            Err(e) => return Err(e),
        };
        proof {
            lemma_u32s_len::<O>(data@, start, 5);
        }
        let path = match read_string::<O>(data, pos, header) {
            Ok(v) => v,
            Err(e) => return Err(e),
        };
        let function_name = match read_string::<O>(data, pos, header) {
            Ok(v) => v,
            Err(e) => return Err(e),
        };
        let lines = match read_u32s::<O>(data, pos, c[0]) {
            Ok(v) => v,
            Err(e) => return Err(e),
        };
        let locals = match read_header_enumerable::<HSFunctionDebugInfoLocals, O>(
            data,
            pos,
            header,
            c[1] as u64,
        ) {
            Ok(v) => v,
            Err(e) => return Err(e),
        };
        let up_values = match read_strings::<O>(data, pos, header, c[2]) {
            Ok(v) => v,
            Err(e) => return Err(e),
        };
        Ok(
            HSFunctionDebugInfo {
                line_count: c[0],
                locals_count: c[1],
                up_value_count: c[2],
                line_begin: c[3],
                line_end: c[4],
                path,
                function_name,
                lines,
                locals,
                up_values,
            },
        )
    }
}


impl<O: WireOrder> HeaderReadable<O> for HSFunctionDebugInfoLocals {
    open spec fn parse_one(d: Seq<u8>, h: HSHeader, pos: int) -> Result<
        (LocalModel, int),
        HkscError,
    > {
        parse_local::<O>(d, h, pos)
    }

    fn read_one(data: &[u8], pos: &mut usize, header: &HSHeader) -> (r: Result<
        HSFunctionDebugInfoLocals,
        HkscError,
    >) {
        HSFunctionDebugInfoLocals::read::<O>(data, pos, header)
    }
}

} // verus!
