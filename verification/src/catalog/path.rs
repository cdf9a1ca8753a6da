//! Paths that come in as a text that ends in a zero byte.

use crate::catalog::{
    null_ptr_error, FromForeign, InputType, MarshalError, ReturnType, Slice, ToForeign,
};
use std::convert::Infallible;
use std::marker::PhantomData;
use vstd::prelude::*;
use vstd::slice::slice_to_vec;

verus! {

/// The marshaler of paths whose foreign input is a borrowed text that ends
/// in a zero byte, held as the bytes before that byte. A path is held as
/// the bytes of its text. The null pointer is an error.
pub struct PathMarshaler<'a>(PhantomData<&'a ()>);

impl<'a> InputType for PathMarshaler<'a> {
    type Foreign = Option<&'a [u8]>;
}

impl<'a> ReturnType for PathMarshaler<'a> {
    type Foreign = Slice<u8>;

    fn foreign_default() -> (r: Slice<u8>)
        ensures
            r.data is None,
    {
        Slice { data: None }
    }
}

impl<'a> FromForeign<Option<&'a [u8]>, Vec<u8>> for PathMarshaler<'a> {
    type Error = Box<MarshalError>;

    fn from_foreign(foreign: Option<&'a [u8]>) -> (r: Result<Vec<u8>, Box<MarshalError>>)
        ensures
            match foreign {
                Some(text) => r matches Ok(path) && path@ == text@,
                None => r == Err::<Vec<u8>, _>(Box::new(MarshalError::NullPointer)),
            },
    {
        match foreign {
            Some(text) => Ok(slice_to_vec(text)),
            None => Err(null_ptr_error()),
        }
    }
}

impl<'a> ToForeign<Vec<u8>, Slice<u8>> for PathMarshaler<'a> {
    type Error = Infallible;

    fn to_foreign(input: Vec<u8>) -> (r: Result<Slice<u8>, Infallible>)
        ensures
            r == Ok::<Slice<u8>, Infallible>(Slice { data: Some(input) }),
    {
        Ok(Slice { data: Some(input) })
    }
}

impl<'a, E> ToForeign<Result<Vec<u8>, E>, Slice<u8>> for PathMarshaler<'a> {
    type Error = E;

    fn to_foreign(input: Result<Vec<u8>, E>) -> (r: Result<Slice<u8>, E>)
        ensures
            r == match input {
                Ok(path) => Ok::<Slice<u8>, E>(Slice { data: Some(path) }),
                Err(e) => Err(e),
            },
    {
        match input {
            Ok(path) => Ok(Slice { data: Some(path) }),
            Err(e) => Err(e),
        }
    }
}

} // verus!
