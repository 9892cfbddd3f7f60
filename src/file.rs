//! A whole file: header, enum table, function tree and structure prototypes.
use vstd::prelude::*;
use vstd::string::StrSliceExecFns;
use crate::byte_order::{BigOrder, LittleOrder, WireOrder};
use crate::enums::{EnumModel, HSEnum};
use crate::readable::{parse_many, read_header_enumerable};
use crate::errors::{
    decoded_views, lemma_prepend_empty, lemma_prepend_step, lemma_views_push, prepend, viewed,
    views_of, HkscError,
};
use crate::function::{parse_function, FunctionModel, HSFunction};
use crate::header::{parse_header, HSHeader, FEATURE_STRUCTURES};
use crate::reader::{has_bytes, parse_string, read_string, read_u32};
use crate::structure::{
    parse_blocks, parse_prototype, read_blocks, HSStructBlock, HSStructPrototype, PrototypeModel,
    StructBlockModel,
};

verus! {

/// The value of the word that opens a prototype section.
pub const PROTOTYPE_CHECK: u32 = 1;

/// Which of the two layouts the structure definitions at the end of a file have.
#[derive(Debug, Clone, Copy, PartialEq, Eq, Structural)]
pub enum StructureShape {
    /// Named prototypes behind a check word, present when the header enables structures.
    Prototypes,
    /// Structure blocks ended by a zero sentinel, the older layout.
    Blocks,
}

/// A decoded file.
#[derive(Debug)]
pub struct HavokScriptFile {
    /// The parameters every later field depends on.
    pub header: HSHeader,
    pub enums: Vec<HSEnum>,
    /// The main chunk; every other function is below it.
    pub main_function: HSFunction,
    /// Structure prototypes for interop with the engine.
    pub structs: Vec<HSStructPrototype>,
    /// Structure blocks, in files of the older layout.
    pub struct_blocks: Vec<HSStructBlock>,
}

/// What a decoded file holds.
pub struct FileModel {
    pub header: HSHeader,
    pub enums: Seq<EnumModel>,
    pub main_function: FunctionModel,
    pub structs: Seq<PrototypeModel>,
    pub struct_blocks: Seq<StructBlockModel>,
}

impl View for HavokScriptFile {
    type V = FileModel;

    open spec fn view(&self) -> FileModel {
        FileModel {
            header: self.header,
            enums: views_of(self.enums),
            main_function: self.main_function@,
            structs: views_of(self.structs),
            struct_blocks: views_of(self.struct_blocks),
        }
    }
}

/// Named prototypes until one with an empty name; each name comes before the body it names.
pub open spec fn parse_prototypes<O: WireOrder>(
    d: Seq<u8>,
    h: HSHeader,
    pos: int,
    inheritance: bool,
) -> Result<(Seq<PrototypeModel>, int), HkscError>
    decreases d.len() - pos,
{
    if !(0 <= pos <= d.len()) {
        Err(HkscError::ReadError)
    } else {
        match parse_string::<O>(d, h, pos) {
            Err(e) => Err(e),
            Ok((name, p1)) => if name.len() == 0 {
                Ok((seq![], p1))
            } else {
                match parse_prototype::<O>(d, h, p1, inheritance) {
                    Err(e) => Err(e),
                    Ok((m, p2)) => if !(pos < p2 <= d.len()) {
                        Err(HkscError::ReadError)
                    } else {
                        prepend(
                            seq![PrototypeModel { name, ..m }],
                            parse_prototypes::<O>(d, h, p2, inheritance),
                        )
                    },
                }
            },
        }
    }
}

/// The prototype section: present only when the header enables structures, and only when a
/// check word equal to [`PROTOTYPE_CHECK`] opens it; a missing or different check word ends it
/// with no prototypes.
pub open spec fn parse_structures<O: WireOrder>(
    d: Seq<u8>,
    h: HSHeader,
    pos: int,
    inheritance: bool,
) -> Result<(Seq<PrototypeModel>, int), HkscError> {
    if h.features.bits & FEATURE_STRUCTURES != FEATURE_STRUCTURES {
        Ok((seq![], pos))
    } else if !has_bytes(d, pos, 4) {
        Ok((seq![], pos))
    } else if O::u32_of(d.subrange(pos, pos + 4)) != PROTOTYPE_CHECK {
        Ok((seq![], pos + 4))
    } else {
        parse_prototypes::<O>(d, h, pos + 4, inheritance)
    }
}

/// The structure definitions at the end of a file, in the layout `shape`.
pub open spec fn parse_trailer<O: WireOrder>(
    d: Seq<u8>,
    h: HSHeader,
    pos: int,
    shape: StructureShape,
    inheritance: bool,
) -> Result<(Seq<PrototypeModel>, Seq<StructBlockModel>), HkscError> {
    match shape {
        StructureShape::Prototypes => match parse_structures::<O>(d, h, pos, inheritance) {
            Err(e) => Err(e),
            Ok((structs, _)) => Ok((structs, seq![])),
        },
        StructureShape::Blocks => match parse_blocks::<O>(d, h, pos) {
            Err(e) => Err(e),
            Ok((blocks, _)) => Ok((seq![], blocks)),
        },
    }
}

/// Everything after the header, in the order `O`: the enum table, the main function and the
/// structure definitions.
pub open spec fn parse_body<O: WireOrder>(
    d: Seq<u8>,
    h: HSHeader,
    pos: int,
    shape: StructureShape,
    inheritance: bool,
) -> Result<FileModel, HkscError> {
    match parse_many::<HSEnum, O>(d, h, pos, h.enum_count as nat) {
        Err(e) => Err(e),
        Ok((enums, p1)) => match parse_function::<O>(d, h, p1) {
            Err(e) => Err(e),
            Ok((main_function, p2)) => match parse_trailer::<O>(d, h, p2, shape, inheritance) {
                Err(e) => Err(e),
                Ok((structs, struct_blocks)) => Ok(
                    FileModel { header: h, enums, main_function, structs, struct_blocks },
                ),
            },
        },
    }
}

/// A whole file: its header, then the rest in the byte order the header declares.
pub open spec fn parse_file(d: Seq<u8>, shape: StructureShape, inheritance: bool) -> Result<
    FileModel,
    HkscError,
> {
    match parse_header(d, 0) {
        Err(e) => Err(e),
        Ok((h, p)) => if h.is_little_endian {
            parse_body::<LittleOrder>(d, h, p, shape, inheritance)
        } else {
            parse_body::<BigOrder>(d, h, p, shape, inheritance)
        },
    }
}

impl HavokScriptFile {
    /// Decodes a whole file whose structure definitions are prototypes; with
    /// `enable_inheritance` each prototype carries the names of the structures it extends.
    pub fn read(data: &[u8], enable_inheritance: bool) -> (r: Result<HavokScriptFile, HkscError>)
        ensures
            parse_file(data@, StructureShape::Prototypes, enable_inheritance) == viewed(r),
    {
        HavokScriptFile::read_with(data, StructureShape::Prototypes, enable_inheritance)
    }

    /// Decodes a whole file whose structure definitions have the layout `shape`.
    pub fn read_with(data: &[u8], shape: StructureShape, enable_inheritance: bool) -> (r: Result<
        HavokScriptFile,
        HkscError,
    >)
        ensures
            parse_file(data@, shape, enable_inheritance) == viewed(r),
    {
        let mut pos: usize = 0;
        let header = match HSHeader::read(data, &mut pos) {
            Ok(h) => h,
            Err(e) => return Err(e),
        };
        if header.is_little_endian {
            HavokScriptFile::read_body::<LittleOrder>(data, pos, header, shape, enable_inheritance)
        } else {
            HavokScriptFile::read_body::<BigOrder>(data, pos, header, shape, enable_inheritance)
        }
    }

    /// Decodes everything after the header in the order `O`.
    fn read_body<O: WireOrder>(
        data: &[u8],
        start: usize,
        header: HSHeader,
        shape: StructureShape,
        enable_inheritance: bool,
    ) -> (r: Result<HavokScriptFile, HkscError>)
        ensures
            parse_body::<O>(data@, header, start as int, shape, enable_inheritance) == viewed(r),
    {
        let mut pos = start;
        let enums = match read_header_enumerable::<HSEnum, O>(data, &mut pos, &header, header.enum_count as u64) {
            Ok(v) => v,
            Err(e) => return Err(e),
        };
        let main_function = match HSFunction::read::<O>(data, &mut pos, &header) {
            Ok(v) => v,
            Err(e) => return Err(e),
        };
        let mut structs: Vec<HSStructPrototype> = Vec::new();
        let mut struct_blocks: Vec<HSStructBlock> = Vec::new();
        match shape {
            StructureShape::Prototypes => {
                structs = match HavokScriptFile::read_structures::<O>(
                    data,
                    &mut pos,
                    &header,
                    enable_inheritance,
                ) {
                    Ok(v) => v,
                    Err(e) => return Err(e),
                };
            },
            StructureShape::Blocks => {
                struct_blocks = match read_blocks::<O>(data, &mut pos, &header) {
                    Ok(v) => v,
                    Err(e) => return Err(e),
                };
            },
        }
        proof {
            if shape == StructureShape::Prototypes {
                assert(views_of(struct_blocks) =~= Seq::<StructBlockModel>::empty());
            } else {
                assert(views_of(structs) =~= Seq::<PrototypeModel>::empty());
            }
        }
        Ok(HavokScriptFile { header, enums, main_function, structs, struct_blocks })
    }

    /// Reads the prototype section, if the header enables structures.
    pub fn read_structures<O: WireOrder>(
        data: &[u8],
        pos: &mut usize,
        header: &HSHeader,
        enable_inheritance: bool,
    ) -> (r: Result<Vec<HSStructPrototype>, HkscError>)
        ensures
            parse_structures::<O>(data@, *header, *old(pos) as int, enable_inheritance)
                == decoded_views(r, *final(pos)),
    {
        let mut structs: Vec<HSStructPrototype> = Vec::new();
        proof {
            assert(views_of(structs) =~= Seq::<PrototypeModel>::empty());
        }
        if !header.features.contains(FEATURE_STRUCTURES) {
            return Ok(structs);
        }
        if *pos > data.len() || data.len() - *pos < 4 {
            return Ok(structs);
        }
        let check = match read_u32::<O>(data, pos) {
            Ok(v) => v,
            Err(e) => return Err(e),
        };
        if check != PROTOTYPE_CHECK {
            return Ok(structs);
        }
        let ghost first = *pos as int;
        proof {
            assert(parse_structures::<O>(data@, *header, *old(pos) as int, enable_inheritance)
                == parse_prototypes::<O>(data@, *header, first, enable_inheritance));
            lemma_prepend_empty(parse_prototypes::<O>(data@, *header, first, enable_inheritance));
        }
        loop
            invariant
                first <= *pos <= data@.len(),
                parse_structures::<O>(data@, *header, *old(pos) as int, enable_inheritance)
                    == parse_prototypes::<O>(data@, *header, first, enable_inheritance),
                parse_prototypes::<O>(data@, *header, first, enable_inheritance) == prepend(
                    views_of(structs),
                    parse_prototypes::<O>(data@, *header, *pos as int, enable_inheritance),
                ),
            decreases data@.len() - *pos,
        {
            let cur: usize = *pos;
            let name = match read_string::<O>(data, pos, header) {
                Ok(v) => v,
                Err(e) => return Err(e),
            };
            if name.as_str().unicode_len() == 0 {
                proof {
                    assert(views_of(structs) + Seq::<PrototypeModel>::empty() =~= views_of(structs));
                }
                return Ok(structs);
            }
            let mut proto = match HSStructPrototype::read::<O>(data, pos, header, enable_inheritance) {
                Ok(v) => v,
                Err(e) => return Err(e),
            };
            if !(cur < *pos && *pos <= data.len()) {
                return Err(HkscError::ReadError);
            }
            proto.name = name;
            let ghost before = structs;
            let ghost pv = proto@;
            structs.push(proto);
            proof {
                lemma_views_push(before, proto, structs);
                lemma_prepend_step(
                    views_of(before),
                    pv,
                    parse_prototypes::<O>(data@, *header, *pos as int, enable_inheritance),
                );
            }
        }
    }
}

} // verus!
