//! Owned heap values cross the boundary as a pointer that owns them.

use crate::catalog::{null_ptr_error, FromForeign, InputType, MarshalError, ReturnType, ToForeign};
use std::convert::Infallible;
use std::marker::PhantomData;
use vstd::prelude::*;

verus! {

/// The marshaler of opaque handles: a value on the heap is handed over as
/// the pointer that owns it. To the foreign side the pointer relinquishes
/// the value; from the foreign side it takes the value back, once. The null
/// pointer owns nothing and is an error.
pub struct BoxMarshaler<T>(PhantomData<T>);

impl<T> InputType for BoxMarshaler<T> {
    type Foreign = Option<Box<T>>;
}

impl<T> ReturnType for BoxMarshaler<T> {
    type Foreign = Option<Box<T>>;

    fn foreign_default() -> (r: Option<Box<T>>)
        ensures
            r is None,
    {
        None
    }
}

impl<T> ToForeign<Box<T>, Option<Box<T>>> for BoxMarshaler<T> {
    type Error = Infallible;

    fn to_foreign(local: Box<T>) -> (r: Result<Option<Box<T>>, Infallible>)
        ensures
            r == Ok::<Option<Box<T>>, Infallible>(Some(local)),
    {
        Ok(Some(local))
    }
}

impl<T> ToForeign<Result<Box<T>, Box<MarshalError>>, Option<Box<T>>> for BoxMarshaler<T> {
    type Error = Box<MarshalError>;

    fn to_foreign(local: Result<Box<T>, Box<MarshalError>>) -> (r: Result<
        Option<Box<T>>,
        Box<MarshalError>,
    >)
        ensures
            r == match local {
                Ok(x) => Ok::<Option<Box<T>>, Box<MarshalError>>(Some(x)),
                Err(e) => Err(e),
            },
    {
        match local {
            Ok(x) => Ok(Some(x)),
            Err(e) => Err(e),
        }
    }
}

impl<T> FromForeign<Option<Box<T>>, Box<T>> for BoxMarshaler<T> {
    type Error = Box<MarshalError>;

    fn from_foreign(foreign: Option<Box<T>>) -> (r: Result<Box<T>, Box<MarshalError>>)
        ensures
            r == match foreign {
                Some(x) => Ok::<Box<T>, Box<MarshalError>>(x),
                None => Err(Box::new(MarshalError::NullPointer)),
            },
    {
        match foreign {
            Some(x) => Ok(x),
            None => Err(null_ptr_error()),
        }
    }
}

} // verus!
