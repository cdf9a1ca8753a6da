//! Shared values that the caller keeps.

use crate::catalog::{null_ptr_error, FromForeign, InputType, MarshalError};
use std::marker::PhantomData;
use std::sync::Arc;
use vstd::prelude::*;

verus! {

/// The marshaler of shared values whose pointer stays with the caller: it
/// yields one more reference to the value and leaves the caller's own in
/// place. The null pointer is an error.
pub struct ArcRefMarshaler<'a, T>(PhantomData<&'a T>);

impl<'a, T> InputType for ArcRefMarshaler<'a, T> {
    type Foreign = Option<&'a Arc<T>>;
}

impl<'a, T> FromForeign<Option<&'a Arc<T>>, Arc<T>> for ArcRefMarshaler<'a, T> {
    type Error = Box<MarshalError>;

    fn from_foreign(foreign: Option<&'a Arc<T>>) -> (r: Result<Arc<T>, Box<MarshalError>>)
        ensures
            r == match foreign {
                Some(x) => Ok::<Arc<T>, Box<MarshalError>>(*x),
                None => Err(Box::new(MarshalError::NullPointer)),
            },
    {
        match foreign {
            Some(x) => Ok(x.clone()),
            None => Err(null_ptr_error()),
        }
    }
}

} // verus!
