//! The marshaler catalog: the conversions between local values and their
//! foreign forms.
//!
//! A foreign pointer is held as what it stands for: `None` for the null
//! pointer, else the value that it points to. A marshaler is never
//! instantiated; to use one is to call its conversion.

pub mod arc;
pub mod arc_ref;
pub mod bool;
pub mod box_ref;
pub mod boxed;
pub mod copy;
pub mod cstr;
pub mod path;
pub mod pathbuf;
pub mod str;
pub mod string;
pub mod unit;
pub mod vec;
pub mod vec_ref;

use vstd::prelude::*;
use vstd::string::StringSliceAdditionalSpecFns;

verus! {

/// The reason for which a foreign value has no local form.
#[derive(Clone, Copy, Debug, PartialEq, Eq, Structural)]
pub enum MarshalError {
    /// The foreign side handed over a null pointer.
    NullPointer,
    /// The bytes of a text are not UTF-8.
    InvalidUtf8,
    /// A text that is to end in a zero byte holds one inside.
    InteriorNul,
}

impl MarshalError {
    /// The text that describes the error.
    pub open spec fn text(self) -> Seq<char> {
        match self {
            MarshalError::NullPointer => "null pointer"@,
            MarshalError::InvalidUtf8 => "invalid utf-8 sequence"@,
            MarshalError::InteriorNul => "nul byte found in provided data"@,
        }
    }

    /// The message for the exception callback.
    pub fn to_string(&self) -> (r: String)
        ensures
            r@ == self.text(),
    {
        match self {
            MarshalError::NullPointer => String::from_str("null pointer"),
            MarshalError::InvalidUtf8 => String::from_str("invalid utf-8 sequence"),
            MarshalError::InteriorNul => String::from_str("nul byte found in provided data"),
        }
    }
}

/// The error of a marshaler that was handed a null pointer.
pub fn null_ptr_error() -> (e: Box<MarshalError>)
    ensures
        *e == MarshalError::NullPointer,
{
    Box::new(MarshalError::NullPointer)
}

/// A marshaler that can stand on a return type: the foreign type of its
/// results, and the value returned in their place where a conversion fails.
pub trait ReturnType {
    type Foreign;

    fn foreign_default() -> Self::Foreign;
}

/// A marshaler that can stand on a parameter: the foreign type of its
/// inputs.
pub trait InputType {
    type Foreign;
}

/// The conversion of a local value to its foreign form.
pub trait ToForeign<Local, Foreign>: Sized {
    type Error;

    fn to_foreign(local: Local) -> Result<Foreign, Self::Error>;
}

/// The conversion of a foreign value to its local form.
pub trait FromForeign<Foreign, Local>: Sized {
    type Error;

    fn from_foreign(foreign: Foreign) -> Result<Local, Self::Error>;
}

/// A buffer at the boundary: a pointer and a length. The null pointer is
/// `None`; any other pointer is held as the elements that it points to.
#[derive(Debug, PartialEq, Eq)]
pub struct Slice<T> {
    pub data: Option<Vec<T>>,
}

impl<T> Slice<T> {
    /// The number of elements: none behind the null pointer.
    pub open spec fn spec_len(&self) -> nat {
        match self.data {
            Some(v) => v@.len(),
            None => 0,
        }
    }

    /// The number of elements.
    pub fn len(&self) -> (r: usize)
        ensures
            r == self.spec_len(),
    {
        match &self.data {
            Some(v) => v.len(),
            None => 0,
        }
    }

    /// Whether the pointer is null.
    pub fn is_null(&self) -> (r: bool)
        ensures
            r == (self.data is None),
    {
        self.data.is_none()
    }
}

impl<T> Default for Slice<T> {
    fn default() -> (r: Slice<T>)
        ensures
            r.data is None,
    {
        Slice { data: None }
    }
}

/// `std::str::from_utf8`, with the error dropped. As the documentation of
/// the function says, it succeeds exactly on the byte sequences that are
/// UTF-8, and the text has the bytes it was given.
#[verifier::external_body]
pub(crate) fn str_from_utf8<'a>(bytes: &'a [u8]) -> (r: Option<&'a str>)
    ensures
        r is Some <==> vstd::utf8::valid_utf8(bytes@),
        r matches Some(s) ==> s.spec_bytes() == bytes@,
{
    std::str::from_utf8(bytes).ok()
}

} // verus!
