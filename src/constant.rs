//! Entries of a function's constant pool.
use vstd::prelude::*;
use crate::byte_order::WireOrder;
use crate::errors::{decoded_view, HkscError};
use crate::header::HSHeader;
use crate::readable::HeaderReadable;
use crate::opcodes::{type_of, HSType};
use crate::reader::{
    parse_number, parse_string, parse_u32, parse_u64, parse_u8, read_number, read_string,
    read_u32, read_u64, read_u8,
};

verus! {

/// A number constant, kept as the IEEE-754 bits it was stored with.
#[derive(Debug, Clone, Copy, PartialEq, Eq, Structural)]
pub enum HSNumber {
    /// A four-byte float.
    Single(u32),
    /// An eight-byte float.
    Double(u64),
}

/// The value of a constant.
#[derive(Debug, Clone)]
pub enum HSValue {
    Nil,
    Boolean(bool),
    /// Engine data, four or eight bytes wide.
    LightUserData(u64),
    Number(HSNumber),
    String(String),
    /// A 64-bit unsigned integer.
    Ui64(u64),
}

/// What a constant's value holds.
pub enum ValueModel {
    Nil,
    Boolean(bool),
    LightUserData(u64),
    Number(HSNumber),
    String(Seq<char>),
    Ui64(u64),
}

impl View for HSValue {
    type V = ValueModel;

    open spec fn view(&self) -> ValueModel {
        match self {
            HSValue::Nil => ValueModel::Nil,
            HSValue::Boolean(b) => ValueModel::Boolean(*b),
            HSValue::LightUserData(v) => ValueModel::LightUserData(*v),
            HSValue::Number(n) => ValueModel::Number(*n),
            HSValue::String(s) => ValueModel::String(s@),
            HSValue::Ui64(v) => ValueModel::Ui64(*v),
        }
    }
}

/// A constant: its type and its value.
#[derive(Debug, Clone)]
pub struct HSConstant {
    pub type_: HSType,
    /// Always present once decoded.
    pub value: Option<HSValue>,
}

/// What a constant holds.
pub struct ConstantModel {
    pub type_: HSType,
    pub value: Option<ValueModel>,
}

impl View for HSConstant {
    type V = ConstantModel;

    open spec fn view(&self) -> ConstantModel {
        ConstantModel {
            type_: self.type_,
            value: match self.value {
                Some(v) => Some(v@),
                None => None,
            },
        }
    }
}

/// The value that follows a constant's type byte.
pub open spec fn parse_value<O: WireOrder>(d: Seq<u8>, h: HSHeader, t: HSType, tag: u8, pos: int) -> Result<
    (ValueModel, int),
    HkscError,
> {
    match t {
        HSType::TNIL => Ok((ValueModel::Nil, pos)),
        HSType::TLIGHTUSERDATA => if h.t_size == 4 {
            match parse_u32::<O>(d, pos) {
                Ok((v, p)) => Ok((ValueModel::LightUserData(v as u64), p)),
                Err(e) => Err(e),
            }
        } else if h.t_size == 8 {
            match parse_u64::<O>(d, pos) {
                Ok((v, p)) => Ok((ValueModel::LightUserData(v), p)),
                Err(e) => Err(e),
            }
        } else {
            Err(HkscError::InvalidLightUserDataSize(h.t_size))
        },
        HSType::TBOOLEAN => match parse_u8(d, pos) {
            Ok((b, p)) => Ok((ValueModel::Boolean(b != 0), p)),
            Err(e) => Err(e),
        },
        HSType::TSTRING => match parse_string::<O>(d, h, pos) {
            Ok((s, p)) => Ok((ValueModel::String(s), p)),
            Err(e) => Err(e),
        },
        HSType::TNUMBER => parse_number::<O>(d, h, pos),
        HSType::TUI64 => match parse_u64::<O>(d, pos) {
            Ok((v, p)) => Ok((ValueModel::Ui64(v), p)),
            Err(e) => Err(e),
        },
        _ => Err(HkscError::UnsupportedConstantType(tag)),
    }
}

/// A constant: a type byte, then a value whose encoding the type and the header select.
pub open spec fn parse_constant<O: WireOrder>(d: Seq<u8>, h: HSHeader, pos: int) -> Result<
    (ConstantModel, int),
    HkscError,
> {
    match parse_u8(d, pos) {
        Err(e) => Err(e),
        Ok((tag, p)) => match type_of(tag) {
            None => Err(HkscError::UnknownType(tag)),
            Some(t) => match parse_value::<O>(d, h, t, tag, p) {
                Ok((v, q)) => Ok((ConstantModel { type_: t, value: Some(v) }, q)),
                Err(e) => Err(e),
            },
        },
    }
}

impl HSConstant {
    /// Reads one constant. Table, function, userdata, thread and struct types are known types
    /// but never constants.
    pub fn read<O: WireOrder>(data: &[u8], pos: &mut usize, header: &HSHeader) -> (r: Result<
        HSConstant,
        HkscError,
    >)
        ensures
            parse_constant::<O>(data@, *header, *old(pos) as int) == decoded_view(r, *final(pos)),
            r matches Err(HkscError::UnknownType(_)) ==> *final(pos) == *old(pos) + 1,
            r matches Err(HkscError::UnsupportedConstantType(_)) ==> *final(pos) == *old(pos) + 1,
            r matches Err(HkscError::InvalidLightUserDataSize(_)) ==> *final(pos) == *old(pos) + 1,
            r matches Err(HkscError::InvalidNumberSize(_)) ==> *final(pos) == *old(pos) + 1,
            r matches Err(HkscError::InvalidStringSize(_)) ==> *final(pos) == *old(pos) + 1,
    {
        let tag = match read_u8(data, pos) {
            Ok(b) => b,
            Err(e) => return Err(e),
        };
        let type_ = match HSType::from_u8(tag) {
            Some(t) => t,
            None => return Err(HkscError::UnknownType(tag)),
        };
        let value = match type_ {
            HSType::TNIL => HSValue::Nil,
            HSType::TLIGHTUSERDATA => if header.t_size == 4 {
                match read_u32::<O>(data, pos) {
                    Ok(v) => HSValue::LightUserData(v as u64),
                    Err(e) => return Err(e),
                }
            } else if header.t_size == 8 {
                match read_u64::<O>(data, pos) {
                    Ok(v) => HSValue::LightUserData(v),
                    Err(e) => return Err(e),
                }
            } else {
                return Err(HkscError::InvalidLightUserDataSize(header.t_size));
            },
            HSType::TBOOLEAN => match read_u8(data, pos) {
                Ok(b) => HSValue::Boolean(b != 0),
                Err(e) => return Err(e),
            },
            HSType::TSTRING => match read_string::<O>(data, pos, header) {
                Ok(s) => HSValue::String(s),
                Err(e) => return Err(e),
            },
            HSType::TNUMBER => match read_number::<O>(data, pos, header) {
                Ok(v) => v,
                Err(e) => return Err(e),
            },
            HSType::TUI64 => match read_u64::<O>(data, pos) {
                Ok(v) => HSValue::Ui64(v),
                Err(e) => return Err(e),
            },
            _ => return Err(HkscError::UnsupportedConstantType(tag)),
        };
        Ok(HSConstant { type_, value: Some(value) })
    }
}

impl<O: WireOrder> HeaderReadable<O> for HSConstant {
    open spec fn parse_one(d: Seq<u8>, h: HSHeader, pos: int) -> Result<
        (ConstantModel, int),
        HkscError,
    > {
        parse_constant::<O>(d, h, pos)
    }

    fn read_one(data: &[u8], pos: &mut usize, header: &HSHeader) -> (r: Result<
        HSConstant,
        HkscError,
    >) {
        HSConstant::read::<O>(data, pos, header)
    }
}

} // verus!
