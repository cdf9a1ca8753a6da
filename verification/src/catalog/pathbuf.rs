//! Owned paths cross the boundary as a buffer of bytes.

use crate::catalog::{
    null_ptr_error, FromForeign, InputType, MarshalError, ReturnType, Slice, ToForeign,
};
use std::convert::Infallible;
use vstd::prelude::*;

verus! {

/// The marshaler of owned paths. A path is held as the bytes of its text,
/// which need not be UTF-8. The null pointer is an error.
pub struct PathBufMarshaler;

impl InputType for PathBufMarshaler {
    type Foreign = Slice<u8>;
}

impl ReturnType for PathBufMarshaler {
    type Foreign = Slice<u8>;

    fn foreign_default() -> (r: Slice<u8>)
        ensures
            r.data is None,
    {
        Slice { data: None }
    }
}

impl FromForeign<Slice<u8>, Vec<u8>> for PathBufMarshaler {
    type Error = Box<MarshalError>;

    fn from_foreign(foreign: Slice<u8>) -> (r: Result<Vec<u8>, Box<MarshalError>>)
        ensures
            r == match foreign.data {
                Some(path) => Ok::<Vec<u8>, Box<MarshalError>>(path),
                None => Err(Box::new(MarshalError::NullPointer)),
            },
    {
        match foreign.data {
            Some(path) => Ok(path),
            None => Err(null_ptr_error()),
        }
    }
}

impl ToForeign<Vec<u8>, Slice<u8>> for PathBufMarshaler {
    type Error = Infallible;

    fn to_foreign(input: Vec<u8>) -> (r: Result<Slice<u8>, Infallible>)
        ensures
            r == Ok::<Slice<u8>, Infallible>(Slice { data: Some(input) }),
    {
        Ok(Slice { data: Some(input) })
    }
}

impl<E> ToForeign<Result<Vec<u8>, E>, Slice<u8>> for PathBufMarshaler {
    type Error = E;

    fn to_foreign(input: Result<Vec<u8>, E>) -> (r: Result<Slice<u8>, E>)
        ensures
            r == match input {
                Ok(path) => Ok::<Slice<u8>, E>(Slice { data: Some(path) }),
                Err(e) => Err(e),
            },
    {
        match input {
            Ok(path) => Ok(Slice { data: Some(path) }),
            Err(e) => Err(e),
        }
    }
}

} // verus!
