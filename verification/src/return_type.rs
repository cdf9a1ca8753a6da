//! The return type of a function on both sides of the boundary.

use crate::attr::marshal::{MarshalAttr, MarshalAttrView};
use crate::deep::{result_view, DeepClone};
use crate::error::{Error, ErrorKind, ErrorView, Site};
use crate::ext::ForeignTypeExt;
use crate::output::{ForeignType, ForeignTypeView};
use crate::registry::{Registry, RegistryView};
use crate::types::{Path, PathView, PtrType, TypeDescriptor, TypeShape, TypeView};
use vstd::prelude::*;

verus! {

/// A return type: the local type that the original logic returns and the
/// foreign type as which it crosses the boundary. Both are `None` where the
/// function returns nothing.
#[derive(Debug, PartialEq, Eq)]
pub struct ReturnType {
    pub local: Option<TypeDescriptor>,
    pub foreign: Option<ForeignType>,
}

/// The mathematical value of a [`ReturnType`].
pub struct ReturnTypeView {
    pub local: Option<TypeView>,
    pub foreign: Option<ForeignTypeView>,
}

impl DeepView for ReturnType {
    type V = ReturnTypeView;

    open spec fn deep_view(&self) -> ReturnTypeView {
        ReturnTypeView { local: self.local.deep_view(), foreign: self.foreign.deep_view() }
    }
}

impl View for ReturnType {
    type V = ReturnTypeView;

    open spec fn view(&self) -> ReturnTypeView {
        self.deep_view()
    }
}

impl DeepClone for ReturnType {
    fn deep_clone(&self) -> (r: Self) {
        ReturnType { local: self.local.deep_clone(), foreign: self.foreign.deep_clone() }
    }
}

/// The foreign type of a result of local type `ty` that the marshaler of
/// path `marshaler` converts: the byte for a boolean, else what the
/// marshaler declares for its results.
pub open spec fn converted_return(ty: TypeView, marshaler: PathView) -> ForeignTypeView {
    if ty.is_bool() {
        ForeignTypeView::Byte
    } else {
        ForeignTypeView::ReturnOf(marshaler)
    }
}

impl ReturnTypeView {
    /// The return type of a function that returns nothing.
    pub open spec fn absent() -> ReturnTypeView {
        ReturnTypeView { local: None, foreign: None }
    }

    /// The resolution of a written return type. No type and the unit type
    /// stand for no result. A type without a foreign form is an error. A
    /// passthrough type crosses as its foreign form; any other type crosses
    /// as the result of the marshaler `marshal_attr`, and is an error
    /// without one.
    pub open spec fn new(
        registry: RegistryView,
        marshal_attr: Option<MarshalAttrView>,
        local: Option<TypeView>,
    ) -> Result<ReturnTypeView, ErrorView> {
        match local {
            None => Ok(Self::absent()),
            Some(ty) => if ty.shape == TypeShape::Unit {
                Ok(Self::absent())
            } else {
                match ty.to_foreign_type(registry) {
                    Err(e) => Err(e.at_site(Site::ReturnType)),
                    Ok(base) => if registry.is_passthrough(ty) {
                        Ok(ReturnTypeView { local: Some(ty), foreign: Some(base) })
                    } else {
                        match marshal_attr {
                            Some(m) => Ok(
                                ReturnTypeView {
                                    local: Some(ty),
                                    foreign: Some(converted_return(ty, m.path)),
                                },
                            ),
                            None => Err(
                                ErrorView::about(
                                    ErrorKind::NoMarshalerForReturn,
                                    Site::ReturnType,
                                    ty.text,
                                ),
                            ),
                        }
                    },
                }
            },
        }
    }

    /// Whether the result crosses the boundary without conversion: there is
    /// none, or its local type is a passthrough type.
    pub open spec fn is_passthrough(self, registry: RegistryView) -> bool {
        match self.local {
            Some(ty) => registry.is_passthrough(ty),
            None => true,
        }
    }

    /// The path of the marshaler that converts the result: that of
    /// `marshal_attr`, unless the result crosses without conversion.
    pub open spec fn resolve_marshaler(
        self,
        registry: RegistryView,
        marshal_attr: Option<MarshalAttrView>,
    ) -> Option<PathView> {
        if self.is_passthrough(registry) {
            None
        } else {
            match marshal_attr {
                Some(m) => Some(m.path),
                None => None,
            }
        }
    }

    /// The kind of pointer that the foreign type is, if it is one.
    pub open spec fn foreign_ptr_type(self) -> Option<PtrType> {
        match self.foreign {
            Some(ty) => ty.pointer_type(),
            None => None,
        }
    }
}

impl ReturnType {
    /// Resolves a written return type.
    pub fn new(
        marshal_attr: Option<&MarshalAttr>,
        local: Option<TypeDescriptor>,
        registry: &Registry,
    ) -> (r: Result<ReturnType, Error>)
        ensures
            result_view(r) == ReturnTypeView::new(
                registry@,
                marshal_attr.deep_view(),
                local.deep_view(),
            ),
    {
        let ty = match local {
            None => {
                return Ok(ReturnType { local: None, foreign: None });
            },
            Some(ty) => ty,
        };
        match ty.shape {
            TypeShape::Unit => {
                return Ok(ReturnType { local: None, foreign: None });
            },
            _ => {},
        }
        let base = match ty.to_foreign_type(registry) {
            Ok(base) => base,
            Err(e) => {
                return Err(e.at_site(Site::ReturnType));
            },
        };
        if registry.is_passthrough_type(&ty) {
            return Ok(ReturnType { local: Some(ty), foreign: Some(base) });
        }
        match marshal_attr {
            Some(m) => {
                let foreign = if ty.is_bool() {
                    ForeignType::Byte
                } else {
                    ForeignType::ReturnOf(m.path.deep_clone())
                };
                Ok(ReturnType { local: Some(ty), foreign: Some(foreign) })
            },
            None => Err(
                Error::about(ErrorKind::NoMarshalerForReturn, Site::ReturnType, ty.text.as_str()),
            ),
        }
    }

    /// The local type, if the function returns a value.
    pub fn local_type(&self) -> (r: Option<TypeDescriptor>)
        ensures
            r.deep_view() == self@.local,
    {
        self.local.deep_clone()
    }

    /// The foreign type, if the function returns a value.
    pub fn foreign_type(&self) -> (r: Option<ForeignType>)
        ensures
            r.deep_view() == self@.foreign,
    {
        self.foreign.deep_clone()
    }

    /// The kind of pointer that the foreign type is, if it is one.
    pub fn foreign_ptr_type(&self) -> (r: Option<PtrType>)
        ensures
            r == self@.foreign_ptr_type(),
    {
        match &self.foreign {
            Some(ty) => ty.pointer_type(),
            None => None,
        }
    }

    /// Whether the result crosses the boundary without conversion.
    pub fn is_passthrough(&self, registry: &Registry) -> (r: bool)
        ensures
            r == self@.is_passthrough(registry@),
    {
        match &self.local {
            Some(ty) => registry.is_passthrough_type(ty),
            None => true,
        }
    }

    /// The path of the marshaler that converts the result.
    pub fn resolve_marshaler(
        &self,
        marshal_attr: Option<&MarshalAttr>,
        registry: &Registry,
    ) -> (r: Option<Path>)
        ensures
            r.deep_view() == self@.resolve_marshaler(registry@, marshal_attr.deep_view()),
    {
        if self.is_passthrough(registry) {
            None
        } else {
            match marshal_attr {
                Some(m) => Some(m.path.deep_clone()),
                None => None,
            }
        }
    }
}

} // verus!
