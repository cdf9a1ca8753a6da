//! The foreign form of types and parameters.

use crate::attr::Ownership;
use crate::deep::{result_view, DeepClone};
use crate::error::{Error, ErrorKind, ErrorView, Site};
use crate::output::{ForeignParam, ForeignParamView, ForeignType, ForeignTypeView};
use crate::registry::{Registry, RegistryView};
use crate::syntax::{FnArg, FnArgView, Param, ParamView, Receiver, ReceiverView};
use crate::types::{PtrType, TypeDescriptor, TypeShape, TypeView};
use vstd::prelude::*;

verus! {

/// The name under which a generated function holds the handle of a method's
/// receiver.
pub open spec fn handle_name() -> Seq<char> {
    "__handle"@
}

impl TypeView {
    /// The foreign form of a local type. Paths and references have one: the
    /// byte for the boolean type, the type itself for a passthrough type, an
    /// opaque pointer for any other. A function pointer has one if it names a
    /// foreign calling convention: itself. Every other shape is in error.
    pub open spec fn to_foreign_type(self, registry: RegistryView) -> Result<
        ForeignTypeView,
        ErrorView,
    > {
        match self.shape {
            TypeShape::Path | TypeShape::Reference => Ok(
                if self.is_bool() {
                    ForeignTypeView::Byte
                } else if registry.is_passthrough(self) {
                    ForeignTypeView::Local(self)
                } else {
                    ForeignTypeView::Pointer(PtrType::Const)
                },
            ),
            TypeShape::BareFn { has_abi } => if has_abi {
                Ok(ForeignTypeView::Local(self))
            } else {
                Err(ErrorView::new(ErrorKind::NonExternFnParameter, Site::Type))
            },
            TypeShape::Unit | TypeShape::Tuple => Err(
                ErrorView::new(ErrorKind::TupleParameter, Site::Type),
            ),
            _ => Err(ErrorView::new(ErrorKind::UnknownParameter, Site::Type)),
        }
    }
}

impl ReceiverView {
    /// The pointer through which a receiver crosses the boundary: mutable
    /// unless the method borrows the value shared.
    pub open spec fn pointer(self) -> PtrType {
        match self.ownership() {
            Ownership::Borrowed => PtrType::Const,
            _ => PtrType::Mut,
        }
    }

    /// The foreign parameter of a receiver: the handle.
    pub open spec fn to_foreign_param(self) -> ForeignParamView {
        ForeignParamView {
            attrs: Seq::empty(),
            name: handle_name(),
            ty: ForeignTypeView::Pointer(self.pointer()),
        }
    }
}

impl ParamView {
    /// The foreign parameter of a typed parameter: its attributes and
    /// pattern with the foreign form of its type.
    pub open spec fn to_foreign_param(self, registry: RegistryView) -> Result<
        ForeignParamView,
        ErrorView,
    > {
        match self.ty.to_foreign_type(registry) {
            Ok(ty) => Ok(ForeignParamView { attrs: self.attrs, name: self.pat, ty }),
            Err(e) => Err(e),
        }
    }
}

impl FnArgView {
    /// The foreign parameter of an input.
    pub open spec fn to_foreign_param(self, registry: RegistryView) -> Result<
        ForeignParamView,
        ErrorView,
    > {
        match self {
            FnArgView::Receiver(r) => Ok(r.to_foreign_param()),
            FnArgView::Typed(p) => p.to_foreign_param(registry),
        }
    }

    /// The name under which the generated function holds an input.
    pub open spec fn to_foreign_arg(self) -> Seq<char> {
        match self {
            FnArgView::Receiver(_) => handle_name(),
            FnArgView::Typed(p) => p.pat,
        }
    }
}

/// The foreign form of a type.
pub trait ForeignTypeExt {
    /// The type as which a value of this local type crosses the boundary.
    fn to_foreign_type(&self, registry: &Registry) -> Result<ForeignType, Error>;
}

impl ForeignTypeExt for TypeDescriptor {
    fn to_foreign_type(&self, registry: &Registry) -> (r: Result<ForeignType, Error>)
        ensures
            result_view(r) == self@.to_foreign_type(registry@),
    {
        match self.shape {
            TypeShape::Path | TypeShape::Reference => {},
            TypeShape::BareFn { has_abi } => {
                if has_abi {
                    return Ok(ForeignType::Local(self.deep_clone()));
                }
                return Err(Error::new(ErrorKind::NonExternFnParameter, Site::Type));
            },
            TypeShape::Unit | TypeShape::Tuple => {
                return Err(Error::new(ErrorKind::TupleParameter, Site::Type));
            },
            _ => {
                return Err(Error::new(ErrorKind::UnknownParameter, Site::Type));
            },
        }
        if self.is_bool() {
            return Ok(ForeignType::Byte);
        }
        if registry.is_passthrough_type(self) {
            Ok(ForeignType::Local(self.deep_clone()))
        } else {
            Ok(ForeignType::Pointer(PtrType::Const))
        }
    }
}

/// The foreign form of an input of a signature.
pub trait ForeignArgExt {
    /// The parameter of the generated function that stands for this input.
    fn to_foreign_param(&self, registry: &Registry) -> Result<ForeignParam, Error>;

    /// The name under which the generated function holds this input.
    fn to_foreign_arg(&self) -> Result<String, Error>;
}

impl ForeignArgExt for Param {
    fn to_foreign_param(&self, registry: &Registry) -> (r: Result<ForeignParam, Error>)
        ensures
            result_view(r) == self@.to_foreign_param(registry@),
    {
        match self.ty.to_foreign_type(registry) {
            Ok(ty) => Ok(
                ForeignParam { attrs: self.attrs.deep_clone(), name: self.pat.clone(), ty },
            ),
            Err(e) => Err(e),
        }
    }

    fn to_foreign_arg(&self) -> (r: Result<String, Error>)
        ensures
            result_view(r) == Ok::<Seq<char>, ErrorView>(self@.pat),
    {
        Ok(self.pat.clone())
    }
}

impl ForeignArgExt for Receiver {
    fn to_foreign_param(&self, registry: &Registry) -> (r: Result<ForeignParam, Error>)
        ensures
            result_view(r) == Ok::<ForeignParamView, ErrorView>(self@.to_foreign_param()),
    {
        let kind = if self.reference && !self.mutable {
            PtrType::Const
        } else {
            PtrType::Mut
        };
        let r = ForeignParam {
            attrs: Vec::new(),
            name: String::from_str("__handle"),
            ty: ForeignType::Pointer(kind),
        };
        assert(r@.attrs =~= Seq::empty());
        Ok(r)
    }

    fn to_foreign_arg(&self) -> (r: Result<String, Error>)
        ensures
            result_view(r) == Ok::<Seq<char>, ErrorView>(handle_name()),
    {
        Ok(String::from_str("__handle"))
    }
}

impl ForeignArgExt for FnArg {
    fn to_foreign_param(&self, registry: &Registry) -> (r: Result<ForeignParam, Error>)
        ensures
            result_view(r) == self@.to_foreign_param(registry@),
    {
        match self {
            FnArg::Typed(arg) => arg.to_foreign_param(registry),
            FnArg::Receiver(receiver) => receiver.to_foreign_param(registry),
        }
    }

    fn to_foreign_arg(&self) -> (r: Result<String, Error>)
        ensures
            result_view(r) == Ok::<Seq<char>, ErrorView>(self@.to_foreign_arg()),
    {
        match self {
            FnArg::Typed(arg) => arg.to_foreign_arg(),
            FnArg::Receiver(receiver) => receiver.to_foreign_arg(),
        }
    }
}

} // verus!
