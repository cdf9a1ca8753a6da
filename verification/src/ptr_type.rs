//! Which kind of pointer a type is.

use crate::output::{ForeignType, ForeignTypeView};
use crate::types::{PtrType, TypeDescriptor, TypeShape, TypeView};
use vstd::prelude::*;

verus! {

impl TypeView {
    /// The kind of pointer that the type is, if it is a raw pointer.
    pub open spec fn pointer_type(self) -> Option<PtrType> {
        match self.shape {
            TypeShape::Pointer { kind } => Some(kind),
            _ => None,
        }
    }
}

/// The kind of pointer that an optional type is.
pub open spec fn ptr_type_of(ty: Option<TypeView>) -> Option<PtrType> {
    match ty {
        Some(ty) => ty.pointer_type(),
        None => None,
    }
}

impl ForeignTypeView {
    /// The kind of pointer that a foreign type is: that of an opaque
    /// pointer, or of a passthrough type that is a raw pointer.
    pub open spec fn pointer_type(self) -> Option<PtrType> {
        match self {
            ForeignTypeView::Pointer(kind) => Some(kind),
            ForeignTypeView::Local(ty) => ty.pointer_type(),
            _ => None,
        }
    }
}

impl PtrType {
    /// The kind of pointer that a type is: `Const` or `Mut` for a raw
    /// pointer, nothing for any other type or for none.
    pub fn from(ty: Option<&TypeDescriptor>) -> (r: Option<PtrType>)
        ensures
            r == ptr_type_of(ty.deep_view()),
    {
        match ty {
            Some(ty) => match ty.shape {
                TypeShape::Pointer { kind } => Some(kind),
                _ => None,
            },
            None => None,
        }
    }
}

impl TypeDescriptor {
    /// The kind of pointer that the type is, if it is a raw pointer.
    pub fn pointer_type(&self) -> (r: Option<PtrType>)
        ensures
            r == self@.pointer_type(),
    {
        PtrType::from(Some(self))
    }
}

impl ForeignType {
    /// The kind of pointer that the foreign type is, if it is one.
    pub fn pointer_type(&self) -> (r: Option<PtrType>)
        ensures
            r == self@.pointer_type(),
    {
        match self {
            ForeignType::Pointer(kind) => Some(*kind),
            ForeignType::Local(ty) => ty.pointer_type(),
            _ => None,
        }
    }
}

} // verus!
