//! Values that are copied across the boundary as they are.

use crate::catalog::{FromForeign, InputType, ReturnType, ToForeign};
use std::convert::Infallible;
use std::marker::PhantomData;
use vstd::prelude::*;

verus! {

/// The marshaler of a type whose values are their own foreign form.
pub struct CopyMarshaler<T: Copy>(PhantomData<T>);

impl<T: Copy> InputType for CopyMarshaler<T> {
    type Foreign = T;
}

impl<T: Copy + Default> ReturnType for CopyMarshaler<T> {
    type Foreign = T;

    fn foreign_default() -> (r: T)
        ensures
            call_ensures(T::default, (), r),
    {
        T::default()
    }
}

impl<T: Copy> FromForeign<T, T> for CopyMarshaler<T> {
    type Error = Infallible;

    fn from_foreign(x: T) -> (r: Result<T, Infallible>)
        ensures
            r == Ok::<T, Infallible>(x),
    {
        Ok(x)
    }
}

impl<T: Copy> ToForeign<T, T> for CopyMarshaler<T> {
    type Error = Infallible;

    fn to_foreign(x: T) -> (r: Result<T, Infallible>)
        ensures
            r == Ok::<T, Infallible>(x),
    {
        Ok(x)
    }
}

} // verus!
