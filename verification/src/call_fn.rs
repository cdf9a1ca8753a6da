//! The expansion of a free function.

use crate::attr::marshal::{MarshalAttr, MarshalAttrView};
use crate::deep::{lemma_collect, result_view, DeepClone};
use crate::error::{Error, ErrorView};
use crate::function::{Function, FunctionView, InnerFn, InnerFnView};
use crate::output::{Declaration, DeclarationView};
use crate::registry::{Registry, RegistryView};
use crate::return_type::{ReturnType, ReturnTypeView};
use crate::syntax::{AttrPayload, AttrPayloadView, Attribute, AttributeView, ItemFn, ItemFnView};
use crate::syntax::SignatureView;
use crate::types::{Path, PathView, TypeDescriptor, TypeView};
use vstd::prelude::*;

verus! {

/// The attribute that asks for the wrapped function to be inlined.
pub open spec fn inline_attribute() -> AttributeView {
    AttributeView {
        name: Some("inline"@),
        text: "#[inline(always)]"@,
        payload: AttrPayloadView::Other,
    }
}

/// The function as the generated function holds it: without a calling
/// convention, private, inlined, and without marshal attributes on its
/// parameters.
pub open spec fn wrapped(item: ItemFnView) -> ItemFnView {
    ItemFnView {
        attrs: item.attrs.push(inline_attribute()),
        is_public: false,
        sig: SignatureView { has_abi: false, ..item.sig.mapped() },
    }
}

/// The marshaler of the result of a function: the one named by `explicit`,
/// else the registry's default for the return type.
pub open spec fn result_marshaler(
    registry: RegistryView,
    explicit: Option<PathView>,
    output: Option<TypeView>,
) -> Option<MarshalAttrView> {
    match explicit {
        Some(p) => Some(MarshalAttrView::from_path(p)),
        None => MarshalAttrView::from_defaults_by_return_type(registry, output),
    }
}

/// The function generated for a free function: the mappings of its inputs
/// are resolved, then its return type, then the generated function is
/// described and assembled. The first error on the way is the result.
pub open spec fn function_expansion(
    registry: RegistryView,
    return_marshaler: Option<PathView>,
    callback: bool,
    item: ItemFnView,
    parent: Option<TypeView>,
) -> Result<DeclarationView, ErrorView> {
    match item.sig.mappings(registry, parent) {
        Err(e) => Err(e),
        Ok(mappings) => {
            let inner = wrapped(item);
            let fn_marshal_attr = result_marshaler(registry, return_marshaler, item.sig.output);
            match ReturnTypeView::new(registry, fn_marshal_attr, item.sig.output) {
                Err(e) => Err(e),
                Ok(return_type) => match FunctionView::new(
                    registry,
                    item.sig.ident,
                    inner.sig.inputs,
                    mappings,
                    return_type,
                    InnerFnView::FunctionBody(inner),
                    fn_marshal_attr,
                    callback,
                ) {
                    Err(e) => Err(e),
                    Ok(function) => function.to_token_stream(),
                },
            }
        },
    }
}

/// Generates the foreign function that wraps a free function.
/// `return_marshaler` names the marshaler of the result, `callback` selects
/// the delivery of the result through a callback, and `parent_type` is the
/// self type where the function is a method.
pub fn call_with_function(
    return_marshaler: Option<Path>,
    callback: bool,
    fn_item: ItemFn,
    parent_type: Option<&TypeDescriptor>,
    registry: &Registry,
) -> (r: Result<Declaration, Error>)
    ensures
        result_view(r) == function_expansion(
            registry@,
            return_marshaler.deep_view(),
            callback,
            fn_item@,
            parent_type.deep_view(),
        ),
{
    let ghost item = fn_item@;
    let mut fn_item = fn_item;
    proof {
        lemma_collect(item.sig.mapping_steps(registry@, parent_type.deep_view()));
    }
    let mappings = match fn_item.sig.drain_mappings(parent_type, registry) {
        Ok(m) => m,
        Err(e) => {
            return Err(e);
        },
    };
    // The wrapped function has no calling convention of its own, is private
    // and is inlined into the wrapper.
    fn_item.sig.has_abi = false;
    fn_item.is_public = false;
    let ghost attrs_before = fn_item.attrs.deep_view();
    fn_item.attrs.push(
        Attribute {
            name: Some(String::from_str("inline")),
            text: String::from_str("#[inline(always)]"),
            payload: AttrPayload::Other,
        },
    );
    proof {
        assert(fn_item.attrs.deep_view() =~= attrs_before.push(inline_attribute()));
        assert(fn_item@ == wrapped(item));
    }
    let fn_marshal_attr = match return_marshaler {
        Some(p) => match MarshalAttr::from_path(p) {
            Ok(m) => m,
            Err(e) => {
                return Err(e);
            },
        },
        None => MarshalAttr::from_defaults_by_return_type(&fn_item.sig.output, registry),
    };
    let return_type = match ReturnType::new(
        fn_marshal_attr.as_ref(),
        fn_item.sig.output.deep_clone(),
        registry,
    ) {
        Ok(t) => t,
        Err(e) => {
            return Err(e);
        },
    };
    let function = match Function::new(
        fn_item.sig.ident.clone(),
        fn_item.sig.inputs.deep_clone(),
        &mappings,
        return_type,
        InnerFn::FunctionBody(fn_item),
        fn_marshal_attr,
        callback,
        registry,
    ) {
        Ok(f) => f,
        Err(e) => {
            return Err(e);
        },
    };
    function.to_token_stream()
}

} // verus!
