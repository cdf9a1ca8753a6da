//! Borrowed text crosses the boundary as a buffer of bytes.

use crate::catalog::{
    null_ptr_error, str_from_utf8, FromForeign, InputType, MarshalError, ReturnType, Slice,
    ToForeign,
};
use std::marker::PhantomData;
use vstd::prelude::*;
use vstd::string::StringSliceAdditionalSpecFns;
use vstd::utf8::valid_utf8;

verus! {

/// The marshaler of borrowed text: a pointer and a length, not a text that
/// ends in a zero byte. From the foreign side the null pointer is an error,
/// and so are bytes that are not UTF-8.
pub struct StrMarshaler<'a>(PhantomData<&'a ()>);

impl<'a> InputType for StrMarshaler<'a> {
    type Foreign = Option<&'a [u8]>;
}

impl<'a> ReturnType for StrMarshaler<'a> {
    type Foreign = Slice<u8>;

    fn foreign_default() -> (r: Slice<u8>)
        ensures
            r.data is None,
    {
        Slice { data: None }
    }
}

impl<'a> ToForeign<&'a str, Slice<u8>> for StrMarshaler<'a> {
    type Error = Box<MarshalError>;

    fn to_foreign(input: &'a str) -> (r: Result<Slice<u8>, Box<MarshalError>>)
        ensures
            r matches Ok(s) && s.data matches Some(bytes) && bytes@ == input.spec_bytes(),
    {
        Ok(Slice { data: Some(input.as_bytes_vec()) })
    }
}

impl<'a> FromForeign<Option<&'a [u8]>, &'a str> for StrMarshaler<'a> {
    type Error = Box<MarshalError>;

    fn from_foreign(slice: Option<&'a [u8]>) -> (r: Result<&'a str, Box<MarshalError>>)
        ensures
            match slice {
                None => r == Err::<&'a str, _>(Box::new(MarshalError::NullPointer)),
                Some(bytes) => if valid_utf8(bytes@) {
                    r matches Ok(s) && s.spec_bytes() == bytes@
                } else {
                    r == Err::<&'a str, _>(Box::new(MarshalError::InvalidUtf8))
                },
            },
    {
        match slice {
            None => Err(null_ptr_error()),
            Some(bytes) => match str_from_utf8(bytes) {
                Some(s) => Ok(s),
                None => Err(Box::new(MarshalError::InvalidUtf8)),
            },
        }
    }
}

impl<'a> StrMarshaler<'a> {
    /// The conversion of a text that may be absent: the null pointer stands
    /// for no text and is no error.
    pub fn from_foreign_optional(slice: Option<&'a [u8]>) -> (r: Result<
        Option<&'a str>,
        Box<MarshalError>,
    >)
        ensures
            match slice {
                None => r == Ok::<Option<&'a str>, Box<MarshalError>>(None),
                Some(bytes) => if valid_utf8(bytes@) {
                    r matches Ok(Some(s)) && s.spec_bytes() == bytes@
                } else {
                    r == Err::<Option<&'a str>, _>(Box::new(MarshalError::InvalidUtf8))
                },
            },
    {
        match slice {
            None => Ok(None),
            Some(bytes) => match str_from_utf8(bytes) {
                Some(s) => Ok(Some(s)),
                None => Err(Box::new(MarshalError::InvalidUtf8)),
            },
        }
    }
}

} // verus!
