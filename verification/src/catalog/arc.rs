//! Shared values cross the boundary as a pointer that holds one reference.

use crate::catalog::{null_ptr_error, FromForeign, InputType, MarshalError, ReturnType, ToForeign};
use std::convert::Infallible;
use std::marker::PhantomData;
use std::sync::Arc;
use vstd::prelude::*;

verus! {

/// The marshaler of shared values: the pointer holds one reference to the
/// value. To the foreign side it leaks the reference; from the foreign side
/// it takes the reference back. The null pointer is an error.
pub struct ArcMarshaler<T>(PhantomData<T>);

impl<T> InputType for ArcMarshaler<T> {
    type Foreign = Option<Arc<T>>;
}

impl<T> ReturnType for ArcMarshaler<T> {
    type Foreign = Option<Arc<T>>;

    fn foreign_default() -> (r: Option<Arc<T>>)
        ensures
            r is None,
    {
        None
    }
}

impl<T> ToForeign<Arc<T>, Option<Arc<T>>> for ArcMarshaler<T> {
    type Error = Infallible;

    fn to_foreign(local: Arc<T>) -> (r: Result<Option<Arc<T>>, Infallible>)
        ensures
            r == Ok::<Option<Arc<T>>, Infallible>(Some(local)),
    {
        Ok(Some(local))
    }
}

impl<T> ToForeign<Result<Arc<T>, Box<MarshalError>>, Option<Arc<T>>> for ArcMarshaler<T> {
    type Error = Box<MarshalError>;

    fn to_foreign(local: Result<Arc<T>, Box<MarshalError>>) -> (r: Result<
        Option<Arc<T>>,
        Box<MarshalError>,
    >)
        ensures
            r == match local {
                Ok(x) => Ok::<Option<Arc<T>>, Box<MarshalError>>(Some(x)),
                Err(e) => Err(e),
            },
    {
        match local {
            Ok(x) => Ok(Some(x)),
            Err(e) => Err(e),
        }
    }
}

impl<T> FromForeign<Option<Arc<T>>, Arc<T>> for ArcMarshaler<T> {
    type Error = Box<MarshalError>;

    fn from_foreign(foreign: Option<Arc<T>>) -> (r: Result<Arc<T>, Box<MarshalError>>)
        ensures
            r == match foreign {
                Some(x) => Ok::<Arc<T>, Box<MarshalError>>(x),
                None => Err(Box::new(MarshalError::NullPointer)),
            },
    {
        match foreign {
            Some(x) => Ok(x),
            None => Err(null_ptr_error()),
        }
    }
}

} // verus!
