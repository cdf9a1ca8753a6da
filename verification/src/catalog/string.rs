//! Owned text crosses the boundary as a buffer of bytes that owns it.

use crate::catalog::{
    null_ptr_error, str_from_utf8, FromForeign, InputType, MarshalError, ReturnType, Slice,
    ToForeign,
};
use std::convert::Infallible;
use vstd::prelude::*;
use vstd::string::StringSliceAdditionalSpecFns;
use vstd::utf8::{encode_utf8, valid_utf8};

verus! {

/// The marshaler of owned text: a pointer and a length, not a text that ends
/// in a zero byte. From the foreign side the null pointer is an error, and
/// so are bytes that are not UTF-8.
pub struct StringMarshaler;

impl InputType for StringMarshaler {
    type Foreign = Slice<u8>;
}

impl ReturnType for StringMarshaler {
    type Foreign = Slice<u8>;

    fn foreign_default() -> (r: Slice<u8>)
        ensures
            r.data is None,
    {
        Slice { data: None }
    }
}

impl ToForeign<String, Slice<u8>> for StringMarshaler {
    type Error = Infallible;

    fn to_foreign(string: String) -> (r: Result<Slice<u8>, Infallible>)
        ensures
            r matches Ok(s) && s.data matches Some(bytes) && bytes@ == encode_utf8(string@),
    {
        Ok(Slice { data: Some(string.as_str().as_bytes_vec()) })
    }
}

impl ToForeign<Result<String, Box<MarshalError>>, Slice<u8>> for StringMarshaler {
    type Error = Box<MarshalError>;

    fn to_foreign(result: Result<String, Box<MarshalError>>) -> (r: Result<
        Slice<u8>,
        Box<MarshalError>,
    >)
        ensures
            match result {
                Ok(string) => r matches Ok(s) && s.data matches Some(bytes) && bytes@
                    == encode_utf8(string@),
                Err(e) => r == Err::<Slice<u8>, _>(e),
            },
    {
        match result {
            Ok(string) => Ok(Slice { data: Some(string.as_str().as_bytes_vec()) }),
            Err(e) => Err(e),
        }
    }
}

impl ToForeign<Option<String>, Slice<u8>> for StringMarshaler {
    type Error = Box<MarshalError>;

    fn to_foreign(option: Option<String>) -> (r: Result<Slice<u8>, Box<MarshalError>>)
        ensures
            match option {
                Some(string) => r matches Ok(s) && s.data matches Some(bytes) && bytes@
                    == encode_utf8(string@),
                None => r matches Ok(s) && s.data is None,
            },
    {
        match option {
            None => Ok(Slice { data: None }),
            Some(string) => Ok(Slice { data: Some(string.as_str().as_bytes_vec()) }),
        }
    }
}

impl FromForeign<Slice<u8>, String> for StringMarshaler {
    type Error = Box<MarshalError>;

    fn from_foreign(key: Slice<u8>) -> (r: Result<String, Box<MarshalError>>)
        ensures
            match key.data {
                None => r == Err::<String, _>(Box::new(MarshalError::NullPointer)),
                Some(bytes) => if valid_utf8(bytes@) {
                    r matches Ok(s) && encode_utf8(s@) == bytes@
                } else {
                    r == Err::<String, _>(Box::new(MarshalError::InvalidUtf8))
                },
            },
    {
        match key.data {
            None => Err(null_ptr_error()),
            Some(bytes) => match str_from_utf8(bytes.as_slice()) {
                Some(s) => Ok(String::from_str(s)),
                None => Err(Box::new(MarshalError::InvalidUtf8)),
            },
        }
    }
}

} // verus!
