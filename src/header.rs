//! The fixed-layout file header.
use vstd::prelude::*;
use crate::byte_order::{big_u32, little_u32};
use crate::errors::{decoded, HkscError};
use crate::reader::{read_u32, read_u8};
use crate::byte_order::LittleOrder;

verus! {

/// The magic number that opens every file (`"\x1bLua"` read least significant first).
pub const HS_MAGIC: u32 = 1635077147;

/// The Lua version the format belongs to.
pub const HS_VERSION: u8 = 0x51;

/// The format number of the files this loader reads.
pub const HS_FORMAT: u8 = 14;

/// Enables global memoization.
pub const FEATURE_MEMOIZATION: u8 = 1;

/// Enables engine structures.
pub const FEATURE_STRUCTURES: u8 = 2;

/// Enables self references.
pub const FEATURE_SELF: u8 = 4;

/// Enables double precision numbers.
pub const FEATURE_DOUBLES: u8 = 8;

/// Enables native integers.
pub const FEATURE_NATIVEINT: u8 = 16;

/// The feature bits of a header; bits outside the five known ones are dropped.
#[derive(Debug, Clone, Copy, PartialEq, Eq, Structural)]
pub struct HSFeatures {
    pub bits: u8,
}

impl HSFeatures {
    /// Keeps the known feature bits of `b`.
    pub fn from_bits_truncate(b: u8) -> (r: HSFeatures)
        ensures
            r.bits == b & 0x1f,
    {
        HSFeatures { bits: b & 0x1f }
    }

    /// Whether every bit of `flag` is set.
    pub fn contains(&self, flag: u8) -> (r: bool)
        ensures
            r == (self.bits & flag == flag),
    {
        self.bits & flag == flag
    }
}

/// The header of a file: the parameters that every later field depends on.
#[derive(Debug, Clone, Copy, PartialEq, Eq, Structural)]
pub struct HSHeader {
    /// Always [`HS_MAGIC`].
    pub magic: u32,
    /// Always [`HS_VERSION`].
    pub version: u8,
    /// Always [`HS_FORMAT`].
    pub fmt: u8,
    /// The order of every multi-byte field after the header.
    pub is_little_endian: bool,
    /// Word size of the target.
    pub int_size: u8,
    /// Width of light userdata and of string lengths.
    pub t_size: u8,
    /// Width the instruction stream is aligned to.
    pub instruction_size: u8,
    /// Width of number constants.
    pub number_size: u8,
    /// Whether numbers are integers rather than floats.
    pub is_integer: bool,
    /// Optional capabilities of the file.
    pub features: HSFeatures,
    /// Reserved; kept as read.
    pub shared: u8,
    /// Number of enum entries that follow the header.
    pub enum_count: u32,
}

/// The header held by the eighteen bytes at `pos`, once its identity fields are checked.
pub open spec fn header_at(d: Seq<u8>, pos: int) -> HSHeader {
    let little = d[pos + 6] != 0;
    let count_bytes = d.subrange(pos + 14, pos + 18);
    HSHeader {
        magic: little_u32(d.subrange(pos, pos + 4)),
        version: d[pos + 4],
        fmt: d[pos + 5],
        is_little_endian: little,
        int_size: d[pos + 7],
        t_size: d[pos + 8],
        instruction_size: d[pos + 9],
        number_size: d[pos + 10],
        is_integer: d[pos + 11] != 0,
        features: HSFeatures { bits: d[pos + 12] & 0x1f },
        shared: d[pos + 13],
        enum_count: if little {
            little_u32(count_bytes)
        } else {
            big_u32(count_bytes)
        },
    }
}

/// Decoding a header at `pos`: the magic number is always least significant first, the enum
/// count in the order the header declares, and a wrong magic, version or format stops decoding
/// at that field.
pub open spec fn parse_header(d: Seq<u8>, pos: int) -> Result<(HSHeader, int), HkscError> {
    if !(0 <= pos && pos + 4 <= d.len()) {
        Err(HkscError::ReadError)
    } else if little_u32(d.subrange(pos, pos + 4)) != HS_MAGIC {
        Err(HkscError::IncorrectMagicNumber(little_u32(d.subrange(pos, pos + 4))))
    } else if pos + 5 > d.len() {
        Err(HkscError::ReadError)
    } else if d[pos + 4] != HS_VERSION {
        Err(HkscError::IncorrectVersionNumber(d[pos + 4]))
    } else if pos + 6 > d.len() {
        Err(HkscError::ReadError)
    } else if d[pos + 5] != HS_FORMAT {
        Err(HkscError::IncorrectFormatNumber(d[pos + 5]))
    } else if pos + 18 > d.len() {
        Err(HkscError::ReadError)
    } else {
        Ok((header_at(d, pos), pos + 18))
    }
}

impl HSHeader {
    /// Reads a header at `*pos`. A wrong magic, version or format number is reported as soon as
    /// it is read, and nothing after it is consumed.
    pub fn read(data: &[u8], pos: &mut usize) -> (r: Result<HSHeader, HkscError>)
        ensures
            parse_header(data@, *old(pos) as int) == decoded(r, *final(pos)),
            r matches Err(HkscError::IncorrectMagicNumber(_)) ==> *final(pos) == *old(pos) + 4,
            r matches Err(HkscError::IncorrectVersionNumber(_)) ==> *final(pos) == *old(pos) + 5,
            r matches Err(HkscError::IncorrectFormatNumber(_)) ==> *final(pos) == *old(pos) + 6,
    {
        let ghost start = *pos as int;
        let magic = match read_u32::<LittleOrder>(data, pos) {
            Ok(v) => v,
            Err(e) => return Err(e),
        };
        if magic != HS_MAGIC {
            return Err(HkscError::IncorrectMagicNumber(magic));
        }
        let version = match read_u8(data, pos) {
            Ok(v) => v,
            Err(e) => return Err(e),
        };
        if version != HS_VERSION {
            return Err(HkscError::IncorrectVersionNumber(version));
        }
        let fmt = match read_u8(data, pos) {
            Ok(v) => v,
            Err(e) => return Err(e),
        };
        if fmt != HS_FORMAT {
            return Err(HkscError::IncorrectFormatNumber(fmt));
        }
        if *pos > data.len() || data.len() - *pos < 12 {
            return Err(HkscError::ReadError);
        }
        let is_little_endian = data[*pos] != 0;
        let int_size = data[*pos + 1];
        let t_size = data[*pos + 2];
        let instruction_size = data[*pos + 3];
        let number_size = data[*pos + 4];
        let is_integer = data[*pos + 5] != 0;
        let features = HSFeatures::from_bits_truncate(data[*pos + 6]);
        let shared = data[*pos + 7];
        *pos = *pos + 8;
        let enum_count = if is_little_endian {
            read_u32::<LittleOrder>(data, pos)
        } else {
            read_u32::<crate::byte_order::BigOrder>(data, pos)
        };
        let enum_count = match enum_count {
            Ok(v) => v,
            Err(e) => return Err(e),
        };
        Ok(
            HSHeader {
                magic,
                version,
                fmt,
                is_little_endian,
                int_size,
                t_size,
                instruction_size,
                number_size,
                is_integer,
                features,
                shared,
                enum_count,
            },
        )
    }
}

/// A header is refused at the first of its magic, version and format fields that is wrong,
/// with an error that carries the value found there.
pub proof fn lemma_header_rejection(d: Seq<u8>, pos: int)
    requires
        0 <= pos,
        pos + 6 <= d.len(),
    ensures
        little_u32(d.subrange(pos, pos + 4)) != HS_MAGIC ==> parse_header(d, pos) == Err::<
            (HSHeader, int),
            HkscError,
        >(HkscError::IncorrectMagicNumber(little_u32(d.subrange(pos, pos + 4)))),
        little_u32(d.subrange(pos, pos + 4)) == HS_MAGIC && d[pos + 4] != HS_VERSION ==> parse_header(
            d,
            pos,
        ) == Err::<(HSHeader, int), HkscError>(HkscError::IncorrectVersionNumber(d[pos + 4])),
        little_u32(d.subrange(pos, pos + 4)) == HS_MAGIC && d[pos + 4] == HS_VERSION && d[pos + 5]
            != HS_FORMAT ==> parse_header(d, pos) == Err::<(HSHeader, int), HkscError>(
            HkscError::IncorrectFormatNumber(d[pos + 5]),
        ),
{
}

} // verus!
