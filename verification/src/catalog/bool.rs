//! Booleans cross the boundary as one byte.

use crate::catalog::{FromForeign, InputType, ReturnType, ToForeign};
use std::convert::Infallible;
use vstd::prelude::*;

verus! {

/// The marshaler of booleans: `false` is the byte 0, `true` the byte 1, and
/// every byte but 0 stands for `true`.
pub struct BoolMarshaler;

impl InputType for BoolMarshaler {
    type Foreign = u8;
}

impl ReturnType for BoolMarshaler {
    type Foreign = u8;

    fn foreign_default() -> (r: u8)
        ensures
            r == 0,
    {
        0
    }
}

impl FromForeign<u8, bool> for BoolMarshaler {
    type Error = Infallible;

    fn from_foreign(i: u8) -> (r: Result<bool, Infallible>)
        ensures
            r == Ok::<bool, Infallible>(i != 0),
    {
        Ok(i != 0)
    }
}

impl ToForeign<bool, u8> for BoolMarshaler {
    type Error = Infallible;

    fn to_foreign(b: bool) -> (r: Result<u8, Infallible>)
        ensures
            r == Ok::<u8, Infallible>(if b { 1u8 } else { 0u8 }),
    {
        Ok(if b { 1 } else { 0 })
    }
}

} // verus!
