//! Borrowed sequences cross the boundary as a buffer that the caller keeps.

use crate::catalog::{null_ptr_error, FromForeign, InputType, MarshalError, ReturnType, Slice};
use std::marker::PhantomData;
use vstd::prelude::*;

verus! {

/// The marshaler of borrowed sequences. The null pointer is an error.
pub struct VecRefMarshaler<'a, T>(PhantomData<&'a T>);

impl<'a, T> InputType for VecRefMarshaler<'a, T> {
    type Foreign = Option<&'a [T]>;
}

impl<'a, T> ReturnType for VecRefMarshaler<'a, T> {
    type Foreign = Slice<T>;

    fn foreign_default() -> (r: Slice<T>)
        ensures
            r.data is None,
    {
        Slice { data: None }
    }
}

impl<'a, T> FromForeign<Option<&'a [T]>, &'a [T]> for VecRefMarshaler<'a, T> {
    type Error = Box<MarshalError>;

    fn from_foreign(slice: Option<&'a [T]>) -> (r: Result<&'a [T], Box<MarshalError>>)
        ensures
            r == match slice {
                Some(s) => Ok::<&'a [T], Box<MarshalError>>(s),
                None => Err(Box::new(MarshalError::NullPointer)),
            },
    {
        match slice {
            Some(s) => Ok(s),
            None => Err(null_ptr_error()),
        }
    }
}

} // verus!
