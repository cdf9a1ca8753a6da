//! Growable sequences cross the boundary as a buffer that owns them.

use crate::catalog::{
    null_ptr_error, FromForeign, InputType, MarshalError, ReturnType, Slice, ToForeign,
};
use std::convert::Infallible;
use std::marker::PhantomData;
use vstd::prelude::*;

verus! {

/// The marshaler of sequences: to the foreign side the buffer takes the
/// elements with it; from the foreign side the elements come back as a
/// sequence. The null pointer is an error.
pub struct VecMarshaler<T>(PhantomData<T>);

impl<T> InputType for VecMarshaler<T> {
    type Foreign = Slice<T>;
}

impl<T> ReturnType for VecMarshaler<T> {
    type Foreign = Slice<T>;

    fn foreign_default() -> (r: Slice<T>)
        ensures
            r.data is None,
    {
        Slice { data: None }
    }
}

impl<T> ToForeign<Vec<T>, Slice<T>> for VecMarshaler<T> {
    type Error = Infallible;

    fn to_foreign(vec: Vec<T>) -> (r: Result<Slice<T>, Infallible>)
        ensures
            r == Ok::<Slice<T>, Infallible>(Slice { data: Some(vec) }),
    {
        Ok(Slice { data: Some(vec) })
    }
}

impl<T> FromForeign<Slice<T>, Vec<T>> for VecMarshaler<T> {
    type Error = Box<MarshalError>;

    fn from_foreign(ptr: Slice<T>) -> (r: Result<Vec<T>, Box<MarshalError>>)
        ensures
            r == match ptr.data {
                Some(v) => Ok::<Vec<T>, Box<MarshalError>>(v),
                None => Err(Box::new(MarshalError::NullPointer)),
            },
    {
        match ptr.data {
            Some(v) => Ok(v),
            None => Err(null_ptr_error()),
        }
    }
}

} // verus!
