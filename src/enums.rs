//! The enum table that follows the header.
use vstd::prelude::*;
use crate::byte_order::WireOrder;
use crate::errors::{decoded_view, HkscError};
use crate::header::HSHeader;
use crate::readable::HeaderReadable;
use crate::reader::{parse_fixed_string, parse_u32, read_fixed_string, read_u32};

verus! {

/// An entry of the enum table: a value and its name.
#[derive(Debug, Clone)]
pub struct HSEnum {
    pub value: u32,
    /// The number of bytes of the name.
    pub length: u32,
    pub name: String,
}

/// What an enum entry holds.
pub struct EnumModel {
    pub value: u32,
    pub length: u32,
    pub name: Seq<char>,
}

impl View for HSEnum {
    type V = EnumModel;

    open spec fn view(&self) -> EnumModel {
        EnumModel { value: self.value, length: self.length, name: self.name@ }
    }
}

/// An entry: its value, the length of its name, then the name.
pub open spec fn parse_enum<O: WireOrder>(d: Seq<u8>, pos: int) -> Result<(EnumModel, int), HkscError> {
    match parse_u32::<O>(d, pos) {
        Err(e) => Err(e),
        Ok((value, p1)) => match parse_u32::<O>(d, p1) {
            Err(e) => Err(e),
            Ok((length, p2)) => match parse_fixed_string(d, p2, length as int) {
                Err(e) => Err(e),
                Ok((name, p3)) => Ok((EnumModel { value, length, name }, p3)),
            },
        },
    }
}

impl HSEnum {
    /// Reads one enum entry.
    pub fn read<O: WireOrder>(data: &[u8], pos: &mut usize) -> (r: Result<HSEnum, HkscError>)
        ensures
            parse_enum::<O>(data@, *old(pos) as int) == decoded_view(r, *final(pos)),
    {
        let value = match read_u32::<O>(data, pos) {
            Ok(v) => v,
            Err(e) => return Err(e),
        };
        let length = match read_u32::<O>(data, pos) {
            Ok(v) => v,
            Err(e) => return Err(e),
        };
        let name = match read_fixed_string(data, pos, length as u64) {
            Ok(v) => v,
            Err(e) => return Err(e),
        };
        Ok(HSEnum { value, length, name })
    }
}

impl<O: WireOrder> HeaderReadable<O> for HSEnum {
    open spec fn parse_one(d: Seq<u8>, h: HSHeader, pos: int) -> Result<
        (EnumModel, int),
        HkscError,
    > {
        parse_enum::<O>(d, pos)
    }

    fn read_one(data: &[u8], pos: &mut usize, header: &HSHeader) -> (r: Result<
        HSEnum,
        HkscError,
    >) {
        HSEnum::read::<O>(data, pos)
    }
}

} // verus!
