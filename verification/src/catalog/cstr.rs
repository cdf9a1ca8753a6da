//! Text that ends in a zero byte.

use crate::catalog::{null_ptr_error, FromForeign, InputType, MarshalError, ReturnType, ToForeign};
use std::marker::PhantomData;
use vstd::prelude::*;
use vstd::string::StringSliceAdditionalSpecFns;

verus! {

/// The marshaler of text that ends in a zero byte. Such a text is held as
/// the bytes before that byte, so it holds no zero byte. To the foreign side
/// a text with a zero byte inside is an error; from the foreign side the
/// null pointer is.
pub struct CStrMarshaler<'a>(PhantomData<&'a ()>);

impl<'a> InputType for CStrMarshaler<'a> {
    type Foreign = Option<&'a [u8]>;
}

impl<'a> ReturnType for CStrMarshaler<'a> {
    type Foreign = Option<Vec<u8>>;

    fn foreign_default() -> (r: Option<Vec<u8>>)
        ensures
            r is None,
    {
        None
    }
}

impl<'a> ToForeign<&'a str, Option<Vec<u8>>> for CStrMarshaler<'a> {
    type Error = Box<MarshalError>;

    fn to_foreign(input: &'a str) -> (r: Result<Option<Vec<u8>>, Box<MarshalError>>)
        ensures
            if input.spec_bytes().contains(0u8) {
                r == Err::<Option<Vec<u8>>, _>(Box::new(MarshalError::InteriorNul))
            } else {
                r matches Ok(Some(bytes)) && bytes@ == input.spec_bytes()
            },
    {
        let bytes = input.as_bytes_vec();
        let mut i: usize = 0;
        while i < bytes.len()
            invariant
                i <= bytes.len(),
                bytes@ == input.spec_bytes(),
                forall|j: int| 0 <= j < i ==> bytes[j] != 0u8,
            decreases bytes.len() - i,
        {
            if bytes[i] == 0 {
                assert(input.spec_bytes()[i as int] == 0u8);
                return Err(Box::new(MarshalError::InteriorNul));
            }
            i += 1;
        }
        Ok(Some(bytes))
    }
}

impl<'a> FromForeign<Option<&'a [u8]>, &'a [u8]> for CStrMarshaler<'a> {
    type Error = Box<MarshalError>;

    fn from_foreign(key: Option<&'a [u8]>) -> (r: Result<&'a [u8], Box<MarshalError>>)
        ensures
            r == match key {
                Some(text) => Ok::<&'a [u8], Box<MarshalError>>(text),
                None => Err(Box::new(MarshalError::NullPointer)),
            },
    {
        match key {
            Some(text) => Ok(text),
            None => Err(null_ptr_error()),
        }
    }
}

impl<'a> CStrMarshaler<'a> {
    /// The conversion of a text that may be absent: the null pointer stands
    /// for no text and is no error.
    pub fn from_foreign_optional(key: Option<&'a [u8]>) -> (r: Result<
        Option<&'a [u8]>,
        Box<MarshalError>,
    >)
        ensures
            r == Ok::<Option<&'a [u8]>, Box<MarshalError>>(key),
    {
        Ok(key)
    }
}

} // verus!
