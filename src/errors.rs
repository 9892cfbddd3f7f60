//! The ways in which decoding a file can fail.
use vstd::prelude::*;

verus! {

/// Each variant names one violated rule of the format.
#[derive(Debug, Clone, Copy, PartialEq, Eq, Structural)]
pub enum HkscError {
    /// A type byte outside the known types.
    UnknownType(u8),
    /// The stream ended before a field was complete.
    ReadError,
    /// A light-userdata width other than 4 or 8.
    InvalidLightUserDataSize(u8),
    /// A known type that a constant cannot have.
    UnsupportedConstantType(u8),
    /// A string whose bytes are not UTF-8.
    InvalidUTF8,
    /// A number width other than 4 or 8.
    InvalidNumberSize(u8),
    /// A string-length width other than 4 or 8.
    InvalidStringSize(u8),
    /// A wide value that does not fit the narrower type it is read into.
    TryFromInt,
    /// The file does not start with the expected magic number.
    IncorrectMagicNumber(u32),
    /// The header names another Lua version.
    IncorrectVersionNumber(u8),
    /// The header names another format number.
    IncorrectFormatNumber(u8),
    /// A byte order that the caller chose not to support.
    UnsupportedEndianness,
    /// An instruction width other than 4 or 8, found where instructions are aligned.
    InvalidInstructionSize(u8),
    /// An instruction whose opcode has no entry in the opcode table.
    UnknownOpCode(u8),
}

/// The outcome of a decoder as a pair of value and end position.
pub open spec fn decoded<T>(r: Result<T, HkscError>, end: usize) -> Result<(T, int), HkscError> {
    match r {
        Ok(v) => Ok((v, end as int)),
        Err(e) => Err(e),
    }
}

/// The outcome of a decoder, with the value seen through its view.
pub open spec fn decoded_view<T: View>(r: Result<T, HkscError>, end: usize) -> Result<
    (T::V, int),
    HkscError,
> {
    match r {
        Ok(v) => Ok((v@, end as int)),
        Err(e) => Err(e),
    }
}

/// A decoder's result, seen through the view of its value.
pub open spec fn viewed<T: View>(r: Result<T, HkscError>) -> Result<T::V, HkscError> {
    match r {
        Ok(v) => Ok(v@),
        Err(e) => Err(e),
    }
}

/// The views of a vector's elements.
pub open spec fn views_of<T: View>(v: Vec<T>) -> Seq<T::V> {
    v@.map_values(|x: T| x@)
}

/// The outcome of a decoder of a list, with each element seen through its view.
pub open spec fn decoded_views<T: View>(r: Result<Vec<T>, HkscError>, end: usize) -> Result<
    (Seq<T::V>, int),
    HkscError,
> {
    match r {
        Ok(v) => Ok((views_of(v), end as int)),
        Err(e) => Err(e),
    }
}

/// The outcome `r` of decoding the rest of a list, after the elements `s` were decoded.
pub open spec fn prepend<T>(s: Seq<T>, r: Result<(Seq<T>, int), HkscError>) -> Result<
    (Seq<T>, int),
    HkscError,
> {
    match r {
        Ok((xs, q)) => Ok((s + xs, q)),
        Err(e) => Err(e),
    }
}

/// Decoding one more element moves it from the rest to the decoded prefix.
pub proof fn lemma_prepend_step<T>(s: Seq<T>, x: T, r: Result<(Seq<T>, int), HkscError>)
    ensures
        prepend(s, prepend(seq![x], r)) == prepend(s.push(x), r),
{
    match r {
        Ok((xs, q)) => {
            assert(s + (seq![x] + xs) =~= s.push(x) + xs);
        },
        Err(_) => {},
    }
}

/// Nothing decoded yet leaves the outcome as it is.
pub proof fn lemma_prepend_empty<T>(r: Result<(Seq<T>, int), HkscError>)
    ensures
        prepend(Seq::<T>::empty(), r) == r,
{
    match r {
        Ok((xs, q)) => {
            assert(Seq::<T>::empty() + xs =~= xs);
        },
        Err(_) => {},
    }
}

/// Appending to a vector appends its view to the views.
pub proof fn lemma_views_push<T: View>(v: Vec<T>, x: T, w: Vec<T>)
    requires
        w@ == v@.push(x),
    ensures
        views_of(w) == views_of(v).push(x@),
{
    assert(views_of(w) =~= views_of(v).push(x@));
}

} // verus!
