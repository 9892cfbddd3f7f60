//! Structure prototypes: engine-side record types that scripts refer to.
use vstd::prelude::*;
use crate::byte_order::WireOrder;
use crate::errors::{
    decoded_view, decoded_views, lemma_prepend_empty, lemma_prepend_step, lemma_views_push,
    prepend, views_of, HkscError,
};
use crate::header::{HSHeader, FEATURE_STRUCTURES};
use crate::readable::{parse_many, read_header_enumerable, HeaderReadable};
use crate::opcodes::{type_of, HSType};
use crate::reader::{
    has_bytes, parse_string, parse_strings, parse_u32, parse_u64, read_string, read_strings, read_u32,
    read_u64,
};

verus! {

/// A slot of a structure.
#[derive(Debug, Clone)]
pub struct HSStructSlot {
    pub name: String,
    /// The structure this slot holds, if it holds one.
    pub struct_id: u64,
    pub type_: HSType,
    /// Reserved; kept as read.
    pub reserved: u32,
    /// Position of the slot within the structure.
    pub position: u64,
}

/// What a slot holds.
pub struct SlotModel {
    pub name: Seq<char>,
    pub struct_id: u64,
    pub type_: HSType,
    pub reserved: u32,
    pub position: u64,
}

impl View for HSStructSlot {
    type V = SlotModel;

    open spec fn view(&self) -> SlotModel {
        SlotModel {
            name: self.name@,
            struct_id: self.struct_id,
            type_: self.type_,
            reserved: self.reserved,
            position: self.position,
        }
    }
}

/// A slot: name, struct id, a four-byte type that must fit a byte and name a type, a reserved
/// word and the position.
pub open spec fn parse_slot<O: WireOrder>(d: Seq<u8>, h: HSHeader, pos: int) -> Result<
    (SlotModel, int),
    HkscError,
> {
    match parse_string::<O>(d, h, pos) {
        Err(e) => Err(e),
        Ok((name, p1)) => match parse_u64::<O>(d, p1) {
            Err(e) => Err(e),
            Ok((struct_id, p2)) => match parse_u32::<O>(d, p2) {
                Err(e) => Err(e),
                Ok((t, p3)) => if t > 0xff {
                    Err(HkscError::TryFromInt)
                } else {
                    match type_of(t as u8) {
                        None => Err(HkscError::UnknownType(t as u8)),
                        Some(type_) => match parse_u32::<O>(d, p3) {
                            Err(e) => Err(e),
                            Ok((reserved, p4)) => match parse_u64::<O>(d, p4) {
                                Err(e) => Err(e),
                                Ok((position, p5)) => Ok(
                                    (SlotModel { name, struct_id, type_, reserved, position }, p5),
                                ),
                            },
                        },
                    }
                },
            },
        },
    }
}

impl HSStructSlot {
    /// Reads one slot.
    pub fn read<O: WireOrder>(data: &[u8], pos: &mut usize, header: &HSHeader) -> (r: Result<
        HSStructSlot,
        HkscError,
    >)
        ensures
            parse_slot::<O>(data@, *header, *old(pos) as int) == decoded_view(r, *final(pos)),
    {
        let name = match read_string::<O>(data, pos, header) {
            Ok(v) => v,
            Err(e) => return Err(e),
        };
        let struct_id = match read_u64::<O>(data, pos) {
            Ok(v) => v,
            Err(e) => return Err(e),
        };
        let t = match read_u32::<O>(data, pos) {
            Ok(v) => v,
            Err(e) => return Err(e),
        };
        if t > 0xff {
            return Err(HkscError::TryFromInt);
        }
        let type_ = match HSType::from_u8(t as u8) {
            Some(v) => v,
            None => return Err(HkscError::UnknownType(t as u8)),
        };
        let reserved = match read_u32::<O>(data, pos) {
            Ok(v) => v,
            Err(e) => return Err(e),
        };
        let position = match read_u64::<O>(data, pos) {
            Ok(v) => v,
            Err(e) => return Err(e),
        };
        Ok(HSStructSlot { name, struct_id, type_, reserved, position })
    }
}

/// A structure prototype: its name, flags, slots and the structures it extends.
#[derive(Debug, Clone)]
pub struct HSStructPrototype {
    pub name: String,
    pub id: u64,
    pub has_meta: bool,
    pub has_proxy: bool,
    pub slot_count: u64,
    pub slots: Vec<HSStructSlot>,
    /// Zero unless inheritance lists are read.
    pub inherited_count: u32,
    pub inherited_structs: Vec<String>,
}

/// What a prototype holds.
pub struct PrototypeModel {
    pub name: Seq<char>,
    pub id: u64,
    pub has_meta: bool,
    pub has_proxy: bool,
    pub slot_count: u64,
    pub slots: Seq<SlotModel>,
    pub inherited_count: u32,
    pub inherited_structs: Seq<Seq<char>>,
}

impl View for HSStructPrototype {
    type V = PrototypeModel;

    open spec fn view(&self) -> PrototypeModel {
        PrototypeModel {
            name: self.name@,
            id: self.id,
            has_meta: self.has_meta,
            has_proxy: self.has_proxy,
            slot_count: self.slot_count,
            slots: views_of(self.slots),
            inherited_count: self.inherited_count,
            inherited_structs: views_of(self.inherited_structs),
        }
    }
}

/// The inheritance list of a prototype, present only when `inheritance` is on.
pub open spec fn parse_inheritance<O: WireOrder>(
    d: Seq<u8>,
    h: HSHeader,
    pos: int,
    inheritance: bool,
) -> Result<(u32, Seq<Seq<char>>, int), HkscError> {
    if !inheritance {
        Ok((0, seq![], pos))
    } else {
        match parse_u32::<O>(d, pos) {
            Err(e) => Err(e),
            Ok((n, p1)) => match parse_strings::<O>(d, h, p1, n as nat) {
                Err(e) => Err(e),
                Ok((names, p2)) => Ok((n, names, p2)),
            },
        }
    }
}

/// The body of a prototype after its name: id, the two flags, the slot count, the inheritance
/// list if enabled, then the slots. The name is left empty for the caller to fill.
pub open spec fn parse_prototype<O: WireOrder>(
    d: Seq<u8>,
    h: HSHeader,
    pos: int,
    inheritance: bool,
) -> Result<(PrototypeModel, int), HkscError> {
    match parse_u64::<O>(d, pos) {
        Err(e) => Err(e),
        Ok((id, p1)) => match parse_u32::<O>(d, p1) {
            Err(e) => Err(e),
            Ok((meta, p2)) => match parse_u32::<O>(d, p2) {
                Err(e) => Err(e),
                Ok((proxy, p3)) => match parse_u64::<O>(d, p3) {
                    Err(e) => Err(e),
                    Ok((slot_count, p4)) => match parse_inheritance::<O>(d, h, p4, inheritance) {
                        Err(e) => Err(e),
                        Ok((inherited_count, inherited_structs, p5)) => match parse_many::<HSStructSlot, O>(
                            d,
                            h,
                            p5,
                            slot_count as nat,
                        ) {
                            Err(e) => Err(e),
                            Ok((slots, p6)) => Ok(
                                (
                                    PrototypeModel {
                                        name: Seq::empty(),
                                        id,
                                        has_meta: meta != 0,
                                        has_proxy: proxy != 0,
                                        slot_count,
                                        slots,
                                        inherited_count,
                                        inherited_structs,
                                    },
                                    p6,
                                ),
                            ),
                        },
                    },
                },
            },
        },
    }
}

impl HSStructPrototype {
    /// Reads the body of a prototype whose name was already read; the name is left empty.
    pub fn read<O: WireOrder>(
        data: &[u8],
        pos: &mut usize,
        header: &HSHeader,
        enable_inheritance: bool,
    ) -> (r: Result<HSStructPrototype, HkscError>)
        ensures
            parse_prototype::<O>(data@, *header, *old(pos) as int, enable_inheritance)
                == decoded_view(r, *final(pos)),
    {
        let id = match read_u64::<O>(data, pos) {
            Ok(v) => v,
            Err(e) => return Err(e),
        };
        let meta = match read_u32::<O>(data, pos) {
            Ok(v) => v,
            Err(e) => return Err(e),
        };
        let proxy = match read_u32::<O>(data, pos) {
            Ok(v) => v,
            Err(e) => return Err(e),
        };
        let slot_count = match read_u64::<O>(data, pos) {
            Ok(v) => v,
            Err(e) => return Err(e),
        };
        let mut inherited_count: u32 = 0;
        let mut inherited_structs: Vec<String> = Vec::new();
        if enable_inheritance {
            inherited_count = match read_u32::<O>(data, pos) {
                Ok(v) => v,
                Err(e) => return Err(e),
            };
            inherited_structs = match read_strings::<O>(data, pos, header, inherited_count) {
                Ok(v) => v,
                Err(e) => return Err(e),
            };
        }
        proof {
            if !enable_inheritance {
                assert(views_of(inherited_structs) =~= Seq::<Seq<char>>::empty());
            }
        }
        let slots = match read_header_enumerable::<HSStructSlot, O>(data, pos, header, slot_count) {
            Ok(v) => v,
            Err(e) => return Err(e),
        };
        Ok(
            HSStructPrototype {
                name: String::new(),
                id,
                has_meta: meta != 0,
                has_proxy: proxy != 0,
                slot_count,
                slots,
                inherited_count,
                inherited_structs,
            },
        )
    }
}

/// The header that opens a structure block and each of its members.
#[derive(Debug, Clone)]
pub struct HSStructHeader {
    pub name: String,
    /// Unknown; kept as read.
    pub struct_id: u32,
    /// Unknown; kept as read.
    pub reserved: u32,
    pub type_: HSType,
    /// Unknown; kept as read.
    pub reserved_2: u32,
    /// Unknown; kept as read.
    pub reserved_3: u32,
}

/// What a structure-block header holds.
pub struct StructHeaderModel {
    pub name: Seq<char>,
    pub struct_id: u32,
    pub reserved: u32,
    pub type_: HSType,
    pub reserved_2: u32,
    pub reserved_3: u32,
}

impl View for HSStructHeader {
    type V = StructHeaderModel;

    open spec fn view(&self) -> StructHeaderModel {
        StructHeaderModel {
            name: self.name@,
            struct_id: self.struct_id,
            reserved: self.reserved,
            type_: self.type_,
            reserved_2: self.reserved_2,
            reserved_3: self.reserved_3,
        }
    }
}

/// A structure-block header: name, two unknown words, a four-byte type that must fit a byte
/// and name a type, then two more unknown words.
pub open spec fn parse_struct_header<O: WireOrder>(d: Seq<u8>, h: HSHeader, pos: int) -> Result<
    (StructHeaderModel, int),
    HkscError,
> {
    match parse_string::<O>(d, h, pos) {
        Err(e) => Err(e),
        Ok((name, p1)) => match parse_u32::<O>(d, p1) {
            Err(e) => Err(e),
            Ok((struct_id, p2)) => match parse_u32::<O>(d, p2) {
                Err(e) => Err(e),
                Ok((reserved, p3)) => match parse_u32::<O>(d, p3) {
                    Err(e) => Err(e),
                    Ok((t, p4)) => if t > 0xff {
                        Err(HkscError::TryFromInt)
                    } else {
                        match type_of(t as u8) {
                            None => Err(HkscError::UnknownType(t as u8)),
                            Some(type_) => match parse_u32::<O>(d, p4) {
                                Err(e) => Err(e),
                                Ok((reserved_2, p5)) => match parse_u32::<O>(d, p5) {
                                    Err(e) => Err(e),
                                    Ok((reserved_3, p6)) => Ok(
                                        (
                                            StructHeaderModel {
                                                name,
                                                struct_id,
                                                reserved,
                                                type_,
                                                reserved_2,
                                                reserved_3,
                                            },
                                            p6,
                                        ),
                                    ),
                                },
                            },
                        }
                    },
                },
            },
        },
    }
}

impl HSStructHeader {
    /// Reads a structure-block header.
    pub fn read<O: WireOrder>(data: &[u8], pos: &mut usize, header: &HSHeader) -> (r: Result<
        HSStructHeader,
        HkscError,
    >)
        ensures
            parse_struct_header::<O>(data@, *header, *old(pos) as int) == decoded_view(
                r,
                *final(pos),
            ),
    {
        let name = match read_string::<O>(data, pos, header) {
            Ok(v) => v,
            Err(e) => return Err(e),
        };
        let struct_id = match read_u32::<O>(data, pos) {
            Ok(v) => v,
            Err(e) => return Err(e),
        };
        let reserved = match read_u32::<O>(data, pos) {
            Ok(v) => v,
            Err(e) => return Err(e),
        };
        let t = match read_u32::<O>(data, pos) {
            Ok(v) => v,
            Err(e) => return Err(e),
        };
        if t > 0xff {
            return Err(HkscError::TryFromInt);
        }
        let type_ = match HSType::from_u8(t as u8) {
            Some(v) => v,
            None => return Err(HkscError::UnknownType(t as u8)),
        };
        let reserved_2 = match read_u32::<O>(data, pos) {
            Ok(v) => v,
            Err(e) => return Err(e),
        };
        let reserved_3 = match read_u32::<O>(data, pos) {
            Ok(v) => v,
            Err(e) => return Err(e),
        };
        Ok(HSStructHeader { name, struct_id, reserved, type_, reserved_2, reserved_3 })
    }
}

/// A member of a structure block: its own header and its index.
#[derive(Debug, Clone)]
pub struct HSStructMember {
    pub header: HSStructHeader,
    pub index: u32,
}

/// What a member holds.
pub struct StructMemberModel {
    pub header: StructHeaderModel,
    pub index: u32,
}

impl View for HSStructMember {
    type V = StructMemberModel;

    open spec fn view(&self) -> StructMemberModel {
        StructMemberModel { header: self.header@, index: self.index }
    }
}

/// A member: a header, then a four-byte index.
pub open spec fn parse_member<O: WireOrder>(d: Seq<u8>, h: HSHeader, pos: int) -> Result<
    (StructMemberModel, int),
    HkscError,
> {
    match parse_struct_header::<O>(d, h, pos) {
        Err(e) => Err(e),
        Ok((header, p1)) => match parse_u32::<O>(d, p1) {
            Err(e) => Err(e),
            Ok((index, p2)) => Ok((StructMemberModel { header, index }, p2)),
        },
    }
}

impl HSStructMember {
    /// Reads one member.
    pub fn read<O: WireOrder>(data: &[u8], pos: &mut usize, header: &HSHeader) -> (r: Result<
        HSStructMember,
        HkscError,
    >)
        ensures
            parse_member::<O>(data@, *header, *old(pos) as int) == decoded_view(r, *final(pos)),
    {
        let h = match HSStructHeader::read::<O>(data, pos, header) {
            Ok(v) => v,
            Err(e) => return Err(e),
        };
        let index = match read_u32::<O>(data, pos) {
            Ok(v) => v,
            Err(e) => return Err(e),
        };
        Ok(HSStructMember { header: h, index })
    }
}

/// A structure block: the older layout of structure definitions.
#[derive(Debug, Clone)]
pub struct HSStructBlock {
    pub header: HSStructHeader,
    pub member_count: u32,
    /// Zero unless the header enables structures.
    pub extended_count: u32,
    /// Names of the structures this one extends.
    pub extended_structs: Vec<String>,
    pub members: Vec<HSStructMember>,
}

/// What a structure block holds.
pub struct StructBlockModel {
    pub header: StructHeaderModel,
    pub member_count: u32,
    pub extended_count: u32,
    pub extended_structs: Seq<Seq<char>>,
    pub members: Seq<StructMemberModel>,
}

impl View for HSStructBlock {
    type V = StructBlockModel;

    open spec fn view(&self) -> StructBlockModel {
        StructBlockModel {
            header: self.header@,
            member_count: self.member_count,
            extended_count: self.extended_count,
            extended_structs: views_of(self.extended_structs),
            members: views_of(self.members),
        }
    }
}

/// A structure block: a header, the member count, the list of extended structures when the
/// header enables structures, then the members.
pub open spec fn parse_block<O: WireOrder>(d: Seq<u8>, h: HSHeader, pos: int) -> Result<
    (StructBlockModel, int),
    HkscError,
> {
    match parse_struct_header::<O>(d, h, pos) {
        Err(e) => Err(e),
        Ok((header, p1)) => match parse_u32::<O>(d, p1) {
            Err(e) => Err(e),
            Ok((member_count, p2)) => match parse_inheritance::<O>(
                d,
                h,
                p2,
                h.features.bits & FEATURE_STRUCTURES == FEATURE_STRUCTURES,
            ) {
                Err(e) => Err(e),
                Ok((extended_count, extended_structs, p3)) => match parse_many::<HSStructMember, O>(
                    d,
                    h,
                    p3,
                    member_count as nat,
                ) {
                    Err(e) => Err(e),
                    Ok((members, p4)) => Ok(
                        (
                            StructBlockModel {
                                header,
                                member_count,
                                extended_count,
                                extended_structs,
                                members,
                            },
                            p4,
                        ),
                    ),
                },
            },
        },
    }
}

impl HSStructBlock {
    /// Reads one structure block.
    pub fn read<O: WireOrder>(data: &[u8], pos: &mut usize, header: &HSHeader) -> (r: Result<
        HSStructBlock,
        HkscError,
    >)
        ensures
            parse_block::<O>(data@, *header, *old(pos) as int) == decoded_view(r, *final(pos)),
    {
        let h = match HSStructHeader::read::<O>(data, pos, header) {
            Ok(v) => v,
            Err(e) => return Err(e),
        };
        let member_count = match read_u32::<O>(data, pos) {
            Ok(v) => v,
            Err(e) => return Err(e),
        };
        let mut extended_count: u32 = 0;
        let mut extended_structs: Vec<String> = Vec::new();
        if header.features.contains(FEATURE_STRUCTURES) {
            extended_count = match read_u32::<O>(data, pos) {
                Ok(v) => v,
                Err(e) => return Err(e),
            };
            extended_structs = match read_strings::<O>(data, pos, header, extended_count) {
                Ok(v) => v,
                Err(e) => return Err(e),
            };
        }
        proof {
            if header.features.bits & FEATURE_STRUCTURES != FEATURE_STRUCTURES {
                assert(views_of(extended_structs) =~= Seq::<Seq<char>>::empty());
            }
        }
        let members = match read_header_enumerable::<HSStructMember, O>(
            data,
            pos,
            header,
            member_count as u64,
        ) {
            Ok(v) => v,
            Err(e) => return Err(e),
        };
        Ok(HSStructBlock { header: h, member_count, extended_count, extended_structs, members })
    }
}

/// Structure blocks until a zero sentinel or the end of the bytes: a nonzero eight-byte
/// sentinel belongs to the block it opens and is read again as part of it.
pub open spec fn parse_blocks<O: WireOrder>(d: Seq<u8>, h: HSHeader, pos: int) -> Result<
    (Seq<StructBlockModel>, int),
    HkscError,
>
    decreases d.len() - pos,
{
    if !has_bytes(d, pos, 8) {
        Ok((seq![], pos))
    } else if O::u64_of(d.subrange(pos, pos + 8)) == 0 {
        Ok((seq![], pos + 8))
    } else {
        match parse_block::<O>(d, h, pos) {
            Err(e) => Err(e),
            Ok((b, p)) => if !(pos < p <= d.len()) {
                Err(HkscError::ReadError)
            } else {
                prepend(seq![b], parse_blocks::<O>(d, h, p))
            },
        }
    }
}

/// Reads structure blocks until a zero sentinel or the end of the bytes.
pub fn read_blocks<O: WireOrder>(data: &[u8], pos: &mut usize, header: &HSHeader) -> (r: Result<
    Vec<HSStructBlock>,
    HkscError,
>)
    ensures
        parse_blocks::<O>(data@, *header, *old(pos) as int) == decoded_views(r, *final(pos)),
{
    let mut blocks: Vec<HSStructBlock> = Vec::new();
    let ghost first = *pos as int;
    proof {
        assert(views_of(blocks) =~= Seq::<StructBlockModel>::empty());
        lemma_prepend_empty(parse_blocks::<O>(data@, *header, first));
    }
    loop
        invariant
            first == *old(pos) as int,
            parse_blocks::<O>(data@, *header, first) == prepend(
                views_of(blocks),
                parse_blocks::<O>(data@, *header, *pos as int),
            ),
        decreases data@.len() - *pos,
    {
        let cur: usize = *pos;
        if cur > data.len() || data.len() - cur < 8 {
            proof {
                assert(views_of(blocks) + Seq::<StructBlockModel>::empty() =~= views_of(blocks));
            }
            return Ok(blocks);
        }
        let sentinel = match read_u64::<O>(data, pos) {
            Ok(v) => v,
            Err(e) => return Err(e),
        };
        if sentinel == 0 {
            proof {
                assert(views_of(blocks) + Seq::<StructBlockModel>::empty() =~= views_of(blocks));
            }
            return Ok(blocks);
        }
        *pos = cur;
        let b = match HSStructBlock::read::<O>(data, pos, header) {
            Ok(v) => v,
            Err(e) => return Err(e),
        };
        if !(cur < *pos && *pos <= data.len()) {
            return Err(HkscError::ReadError);
        }
        let ghost before = blocks;
        let ghost bv = b@;
        blocks.push(b);
        proof {
            lemma_views_push(before, b, blocks);
            lemma_prepend_step(views_of(before), bv, parse_blocks::<O>(data@, *header, *pos as int));
        }
    }
}

impl<O: WireOrder> HeaderReadable<O> for HSStructSlot {
    open spec fn parse_one(d: Seq<u8>, h: HSHeader, pos: int) -> Result<
        (SlotModel, int),
        HkscError,
    > {
        parse_slot::<O>(d, h, pos)
    }

    fn read_one(data: &[u8], pos: &mut usize, header: &HSHeader) -> (r: Result<
        HSStructSlot,
        HkscError,
    >) {
        HSStructSlot::read::<O>(data, pos, header)
    }
}

impl<O: WireOrder> HeaderReadable<O> for HSStructMember {
    open spec fn parse_one(d: Seq<u8>, h: HSHeader, pos: int) -> Result<
        (StructMemberModel, int),
        HkscError,
    > {
        parse_member::<O>(d, h, pos)
    }

    fn read_one(data: &[u8], pos: &mut usize, header: &HSHeader) -> (r: Result<
        HSStructMember,
        HkscError,
    >) {
        HSStructMember::read::<O>(data, pos, header)
    }
}

} // verus!
