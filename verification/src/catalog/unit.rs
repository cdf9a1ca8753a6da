//! The unit value is absent at the boundary.

use crate::catalog::{InputType, ReturnType, ToForeign};
use vstd::prelude::*;

verus! {

/// The marshaler of results without a value: it hands the outcome on.
pub struct UnitMarshaler;

impl InputType for UnitMarshaler {
    type Foreign = ();
}

impl ReturnType for UnitMarshaler {
    type Foreign = ();

    fn foreign_default() -> (r: ())
        ensures
            r == (),
    {
        ()
    }
}

impl<E> ToForeign<Result<(), E>, ()> for UnitMarshaler {
    type Error = E;

    fn to_foreign(local: Result<(), E>) -> (r: Result<(), E>)
        ensures
            r == local,
    {
        local
    }
}

} // verus!
