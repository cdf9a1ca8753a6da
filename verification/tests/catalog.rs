use cursed::catalog::ReturnType;
use cursed::{
    null_ptr_error, ArcMarshaler, ArcRefMarshaler, BoolMarshaler, BoxMarshaler, BoxRefMarshaler,
    CStrMarshaler, CopyMarshaler, FromForeign, MarshalError, PathBufMarshaler, PathMarshaler,
    Slice, StrMarshaler, StringMarshaler, ToForeign, UnitMarshaler, VecMarshaler, VecRefMarshaler,
};
use std::sync::Arc;

fn null() -> Box<MarshalError> {
    Box::new(MarshalError::NullPointer)
}

#[test]
fn null_pointer_error() {
    assert_eq!(*null_ptr_error(), MarshalError::NullPointer);
    assert_eq!(null_ptr_error().to_string(), "null pointer");
    assert_eq!(MarshalError::InvalidUtf8.to_string(), "invalid utf-8 sequence");
    assert_eq!(MarshalError::InteriorNul.to_string(), "nul byte found in provided data");
}

#[test]
fn booleans() {
    assert_eq!(BoolMarshaler::from_foreign(0), Ok(false));
    assert_eq!(BoolMarshaler::from_foreign(1), Ok(true));
    assert_eq!(BoolMarshaler::from_foreign(255), Ok(true));
    assert_eq!(BoolMarshaler::to_foreign(true), Ok(1));
    assert_eq!(BoolMarshaler::to_foreign(false), Ok(0));
    assert_eq!(<BoolMarshaler as ReturnType>::foreign_default(), 0);
    for b in [true, false] {
        assert_eq!(BoolMarshaler::from_foreign(BoolMarshaler::to_foreign(b).unwrap()), Ok(b));
    }
}

#[test]
fn copies() {
    assert_eq!(CopyMarshaler::<u32>::from_foreign(7), Ok(7));
    assert_eq!(CopyMarshaler::<i8>::to_foreign(-7), Ok(-7));
    assert_eq!(<CopyMarshaler<u64> as ReturnType>::foreign_default(), 0);
}

#[test]
fn units() {
    assert_eq!(UnitMarshaler::to_foreign(Ok::<(), u8>(())), Ok(()));
    assert_eq!(UnitMarshaler::to_foreign(Err::<(), u8>(3)), Err(3));
    assert_eq!(<UnitMarshaler as ReturnType>::foreign_default(), ());
}

#[test]
fn boxes() {
    let foreign = BoxMarshaler::to_foreign(Box::new(5u8)).unwrap();
    assert_eq!(foreign, Some(Box::new(5u8)));
    assert_eq!(BoxMarshaler::from_foreign(foreign), Ok(Box::new(5u8)));
    assert_eq!(BoxMarshaler::<u8>::from_foreign(None), Err(null()));
    assert_eq!(<BoxMarshaler<u8> as ReturnType>::foreign_default(), None);
    assert_eq!(BoxMarshaler::to_foreign(Ok(Box::new(5u8))), Ok(Some(Box::new(5u8))));
    assert_eq!(
        BoxMarshaler::<u8>::to_foreign(Err(Box::new(MarshalError::InvalidUtf8))),
        Err(Box::new(MarshalError::InvalidUtf8))
    );
}

#[test]
fn borrowed_boxes() {
    let value = 9u16;
    assert_eq!(BoxRefMarshaler::from_foreign(Some(&value)), Ok(&9u16));
    assert_eq!(BoxRefMarshaler::<u16>::from_foreign(None), Err(null()));
}

#[test]
fn arcs() {
    let shared = Arc::new(String::from("x"));
    let foreign = ArcMarshaler::to_foreign(shared.clone()).unwrap();
    assert_eq!(Arc::strong_count(&shared), 2);
    let back = ArcMarshaler::from_foreign(foreign).unwrap();
    assert!(Arc::ptr_eq(&back, &shared));
    assert_eq!(ArcMarshaler::<u8>::from_foreign(None), Err(null()));
    assert_eq!(<ArcMarshaler<u8> as ReturnType>::foreign_default(), None);
    assert_eq!(ArcMarshaler::to_foreign(Ok(Arc::new(1u8))), Ok(Some(Arc::new(1u8))));
    assert_eq!(ArcMarshaler::<u8>::to_foreign(Err(null())), Err(null()));
}

#[test]
fn borrowed_arcs_leave_the_callers_reference() {
    let shared = Arc::new(4u8);
    let again = ArcRefMarshaler::from_foreign(Some(&shared)).unwrap();
    assert!(Arc::ptr_eq(&again, &shared));
    assert_eq!(Arc::strong_count(&shared), 2);
    assert_eq!(ArcRefMarshaler::<u8>::from_foreign(None), Err(null()));
}

#[test]
fn vectors() {
    let foreign = VecMarshaler::to_foreign(vec![1u8, 2, 3]).unwrap();
    assert_eq!(foreign.len(), 3);
    assert!(!foreign.is_null());
    assert_eq!(VecMarshaler::from_foreign(foreign), Ok(vec![1u8, 2, 3]));
    assert_eq!(VecMarshaler::<u8>::from_foreign(Slice { data: None }), Err(null()));
    let default = <VecMarshaler<u8> as ReturnType>::foreign_default();
    assert!(default.is_null());
    assert_eq!(default.len(), 0);
    assert_eq!(Slice::<u8>::default(), Slice { data: None });
    assert_eq!(VecMarshaler::to_foreign(Vec::<u8>::new()), Ok(Slice { data: Some(vec![]) }));
}

#[test]
fn borrowed_vectors() {
    let values = [1u32, 2];
    assert_eq!(VecRefMarshaler::from_foreign(Some(&values[..])), Ok(&values[..]));
    assert_eq!(VecRefMarshaler::<u32>::from_foreign(None), Err(null()));
    assert!(<VecRefMarshaler<u32> as ReturnType>::foreign_default().is_null());
}

#[test]
fn borrowed_text() {
    let bytes = "héllo".as_bytes();
    assert_eq!(StrMarshaler::from_foreign(Some(bytes)), Ok("héllo"));
    assert_eq!(StrMarshaler::from_foreign(Some(&b""[..])), Ok(""));
    assert_eq!(StrMarshaler::from_foreign(None), Err(null()));
    assert_eq!(
        StrMarshaler::from_foreign(Some(&[0xff, 0xfe][..])),
        Err(Box::new(MarshalError::InvalidUtf8))
    );
    assert_eq!(StrMarshaler::from_foreign_optional(None), Ok(None));
    assert_eq!(StrMarshaler::from_foreign_optional(Some(&b"a"[..])), Ok(Some("a")));
    assert_eq!(
        StrMarshaler::from_foreign_optional(Some(&[0xc3][..])),
        Err(Box::new(MarshalError::InvalidUtf8))
    );
    assert_eq!(
        StrMarshaler::to_foreign("héllo"),
        Ok(Slice { data: Some("héllo".as_bytes().to_vec()) })
    );
    assert!(<StrMarshaler as ReturnType>::foreign_default().is_null());
}

#[test]
fn owned_text() {
    let foreign = StringMarshaler::to_foreign(String::from("grüß")).unwrap();
    assert_eq!(foreign.len(), 6);
    assert_eq!(StringMarshaler::from_foreign(foreign), Ok(String::from("grüß")));
    assert_eq!(StringMarshaler::from_foreign(Slice { data: None }), Err(null()));
    assert_eq!(
        StringMarshaler::from_foreign(Slice { data: Some(vec![b'a', 0x80]) }),
        Err(Box::new(MarshalError::InvalidUtf8))
    );
    assert_eq!(StringMarshaler::to_foreign(None), Ok(Slice { data: None }));
    assert_eq!(
        StringMarshaler::to_foreign(Some(String::from("a"))),
        Ok(Slice { data: Some(vec![b'a']) })
    );
    assert_eq!(
        StringMarshaler::to_foreign(Ok(String::from("a"))),
        Ok(Slice { data: Some(vec![b'a']) })
    );
    assert_eq!(StringMarshaler::to_foreign(Err(null())), Err(null()));
    assert!(<StringMarshaler as ReturnType>::foreign_default().is_null());
}

#[test]
fn paths() {
    let path = b"/tmp/\xffile".to_vec();
    let foreign = PathBufMarshaler::to_foreign(path.clone()).unwrap();
    assert_eq!(PathBufMarshaler::from_foreign(foreign), Ok(path.clone()));
    assert_eq!(PathBufMarshaler::from_foreign(Slice { data: None }), Err(null()));
    assert_eq!(PathBufMarshaler::to_foreign(Err::<Vec<u8>, u8>(1)), Err(1));
    assert!(<PathBufMarshaler as ReturnType>::foreign_default().is_null());

    assert_eq!(PathMarshaler::from_foreign(Some(&path[..])), Ok(path.clone()));
    assert_eq!(PathMarshaler::from_foreign(None), Err(null()));
    assert_eq!(PathMarshaler::to_foreign(path.clone()), Ok(Slice { data: Some(path.clone()) }));
    assert_eq!(PathMarshaler::to_foreign(Ok::<Vec<u8>, u8>(path.clone())), Ok(Slice { data: Some(path) }));
    assert!(<PathMarshaler as ReturnType>::foreign_default().is_null());
}

#[test]
fn zero_terminated_text() {
    assert_eq!(CStrMarshaler::to_foreign("abc"), Ok(Some(b"abc".to_vec())));
    assert_eq!(CStrMarshaler::to_foreign(""), Ok(Some(vec![])));
    assert_eq!(CStrMarshaler::to_foreign("a\0b"), Err(Box::new(MarshalError::InteriorNul)));
    assert_eq!(CStrMarshaler::from_foreign(Some(&b"abc"[..])), Ok(&b"abc"[..]));
    assert_eq!(CStrMarshaler::from_foreign(None), Err(null()));
    assert_eq!(CStrMarshaler::from_foreign_optional(None), Ok(None));
    assert_eq!(CStrMarshaler::from_foreign_optional(Some(&b"a"[..])), Ok(Some(&b"a"[..])));
    assert_eq!(<CStrMarshaler as ReturnType>::foreign_default(), None);
}
