//! Borrowed values cross the boundary as a pointer into the caller's value.

use crate::catalog::{null_ptr_error, FromForeign, InputType, MarshalError};
use std::marker::PhantomData;
use vstd::prelude::*;

verus! {

/// The marshaler of borrowed handles: the pointer aliases a value that the
/// caller keeps. The null pointer is an error.
pub struct BoxRefMarshaler<'a, T>(PhantomData<&'a T>);

impl<'a, T> InputType for BoxRefMarshaler<'a, T> {
    type Foreign = Option<&'a T>;
}

impl<'a, T> FromForeign<Option<&'a T>, &'a T> for BoxRefMarshaler<'a, T> {
    type Error = Box<MarshalError>;

    fn from_foreign(foreign: Option<&'a T>) -> (r: Result<&'a T, Box<MarshalError>>)
        ensures
            r == match foreign {
                Some(x) => Ok::<&'a T, Box<MarshalError>>(x),
                None => Err(Box::new(MarshalError::NullPointer)),
            },
    {
        match foreign {
            Some(x) => Ok(x),
            None => Err(null_ptr_error()),
        }
    }
}

} // verus!
