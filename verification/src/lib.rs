//! Generation of foreign-function boundary wrappers from function and impl
//! declarations.
//!
//! The engine works on a structural description of a declaration: it resolves
//! a marshaler for every parameter and for the return type, and assembles the
//! declaration of the wrapper that converts the arguments, calls the original
//! logic and converts the result back.
//!
//! - [`registry`] holds the passthrough types and the default marshalers.
//! - [`catalog`] holds the marshalers themselves.
//! - [`attr`] resolves the mapping of each parameter, [`return_type`] that of
//!   the result.
//! - [`function`] describes and assembles one generated function.
//! - [`call_fn`] and [`call_impl`] expand functions and impl blocks.
//! - [`laws`] and [`behaviour`] state what holds of every expansion.

pub mod attr;
pub mod behaviour;
pub mod call_fn;
pub mod call_impl;
pub mod catalog;
pub mod deep;
pub mod error;
pub mod ext;
pub mod function;
pub mod laws;
pub mod names;
pub mod output;
pub mod ptr_type;
pub mod registry;
pub mod return_type;
pub mod syntax;
pub mod types;

pub use crate::catalog::arc::ArcMarshaler;
pub use crate::catalog::arc_ref::ArcRefMarshaler;
pub use crate::catalog::bool::BoolMarshaler;
pub use crate::catalog::box_ref::BoxRefMarshaler;
pub use crate::catalog::boxed::BoxMarshaler;
pub use crate::catalog::copy::CopyMarshaler;
pub use crate::catalog::cstr::CStrMarshaler;
pub use crate::catalog::path::PathMarshaler;
pub use crate::catalog::pathbuf::PathBufMarshaler;
pub use crate::catalog::str::StrMarshaler;
pub use crate::catalog::string::StringMarshaler;
pub use crate::catalog::unit::UnitMarshaler;
pub use crate::catalog::vec::VecMarshaler;
pub use crate::catalog::vec_ref::VecRefMarshaler;
pub use crate::catalog::{null_ptr_error, FromForeign, InputType, MarshalError, Slice, ToForeign};

use crate::attr::invoke::{InvokeParams, InvokeParamsView};
use crate::call_fn::{call_with_function, function_expansion};
use crate::call_impl::{call_with_impl, impl_expansion, ImplExpansion, ImplExpansionView};
use crate::deep::result_view;
use crate::error::{Error, ErrorKind, ErrorView, Site};
use crate::output::{Declaration, DeclarationView};
use crate::registry::{Registry, RegistryView};
use crate::syntax::{Item, ItemView};
use vstd::prelude::*;

verus! {

/// What the expansion of a declaration yields.
#[derive(Debug, PartialEq, Eq)]
pub enum Expansion {
    /// The function that wraps a free function.
    Function(Declaration),
    /// The functions generated from an impl block.
    Impl(ImplExpansion),
}

/// The mathematical value of an [`Expansion`].
pub enum ExpansionView {
    Function(DeclarationView),
    Impl(ImplExpansionView),
}

impl DeepView for Expansion {
    type V = ExpansionView;

    open spec fn deep_view(&self) -> ExpansionView {
        match self {
            Expansion::Function(d) => ExpansionView::Function(d@),
            Expansion::Impl(i) => ExpansionView::Impl(i@),
        }
    }
}

impl View for Expansion {
    type V = ExpansionView;

    open spec fn view(&self) -> ExpansionView {
        self.deep_view()
    }
}

/// The expansion of a declaration: that of a function without a self type,
/// that of an impl, and an error for any other item.
pub open spec fn expansion(
    registry: RegistryView,
    params: InvokeParamsView,
    item: ItemView,
) -> Result<ExpansionView, ErrorView> {
    match item {
        ItemView::Fn(f) => match function_expansion(
            registry,
            params.return_marshaler,
            params.callback,
            f,
            None,
        ) {
            Ok(d) => Ok(ExpansionView::Function(d)),
            Err(e) => Err(e),
        },
        ItemView::Impl(i) => match impl_expansion(registry, params.prefix, i) {
            Ok(x) => Ok(ExpansionView::Impl(x)),
            Err(e) => Err(e),
        },
        ItemView::Other => Err(ErrorView::new(ErrorKind::UnsupportedItem, Site::Item)),
    }
}

/// Expands a declaration with the types and marshalers of `registry`.
pub fn call_with(invoke_params: InvokeParams, item: Item, registry: &Registry) -> (r: Result<
    Expansion,
    Error,
>)
    ensures
        result_view(r) == expansion(registry@, invoke_params@, item@),
{
    match item {
        Item::Fn(item) => match call_with_function(
            invoke_params.return_marshaler,
            invoke_params.callback,
            item,
            None,
            registry,
        ) {
            Ok(d) => Ok(Expansion::Function(d)),
            Err(e) => Err(e),
        },
        Item::Impl(item) => match call_with_impl(invoke_params.prefix, item, registry) {
            Ok(x) => Ok(Expansion::Impl(x)),
            Err(e) => Err(e),
        },
        Item::Other => Err(Error::new(ErrorKind::UnsupportedItem, Site::Item)),
    }
}

} // verus!
