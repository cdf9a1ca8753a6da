//! The expansion of an impl block: one function for each eligible method,
//! and the destructor of the self type.

use crate::attr::marshal::{box_marshaler, box_marshaler_path, MarshalAttr, MarshalAttrView};
use crate::attr::{drain_marshal_attrs, drain_result, drained};
use crate::deep::{
    collect, lemma_collect, lemma_collect_failed, lemma_collect_step, lemma_filter_map_push,
    lemma_map_values_push, result_view, DeepClone,
};
use crate::error::{Error, ErrorKind, ErrorView, Site};
use crate::ext::handle_name;
use crate::function::{
    exception_param, gen_try_not_null, try_not_null_of, Function, FunctionView, InnerFn,
    InnerFnView,
};
use crate::names::{
    derive_method_name, derive_prefix, destructor_name, impl_prefix, method_name,
};
use crate::output::{
    Action, ActionView, Body, BodyView, Conversion, ConversionView, Declaration, DeclarationView,
    ForeignParam, ForeignParamView, ForeignSignature, ForeignSignatureView, ForeignType,
    ForeignTypeView,
};
use crate::registry::{Registry, RegistryView};
use crate::return_type::{ReturnType, ReturnTypeView};
use crate::syntax::{ImplItem, ImplItemView, ItemFn, ItemFnView, ItemImpl, ItemImplView};
use crate::types::{PtrType, TypeDescriptor, TypeShape, TypeView};
use vstd::prelude::*;

verus! {

/// What the expansion of an impl block yields: the block without its
/// marshal attributes, and the generated functions, the destructor first.
#[derive(Debug, PartialEq, Eq)]
pub struct ImplExpansion {
    pub item: ItemImpl,
    pub functions: Vec<Declaration>,
}

/// The mathematical value of an [`ImplExpansion`].
pub struct ImplExpansionView {
    pub item: ItemImplView,
    pub functions: Seq<DeclarationView>,
}

impl DeepView for ImplExpansion {
    type V = ImplExpansionView;

    open spec fn deep_view(&self) -> ImplExpansionView {
        ImplExpansionView { item: self.item@, functions: self.functions.deep_view() }
    }
}

impl View for ImplExpansion {
    type V = ImplExpansionView;

    open spec fn view(&self) -> ImplExpansionView {
        self.deep_view()
    }
}

impl ItemFnView {
    /// Whether a function is generated for the method: it is public, not
    /// async, not unsafe, names no calling convention and is not generic.
    pub open spec fn is_eligible(self) -> bool {
        self.is_public && !self.sig.is_async && !self.sig.is_unsafe && !self.sig.has_abi
            && !self.sig.has_generics
    }

    /// The method without the marshal attributes on itself and on its
    /// parameters.
    pub open spec fn expanded(self) -> ItemFnView {
        ItemFnView { attrs: drained(self.attrs), sig: self.sig.mapped(), ..self }
    }
}

/// The parameter that holds the handle of a value that the function
/// consumes.
pub open spec fn owned_handle_param() -> ForeignParamView {
    ForeignParamView {
        attrs: Seq::empty(),
        name: handle_name(),
        ty: ForeignTypeView::Pointer(PtrType::Mut),
    }
}

/// The destructor of the self type `self_ty` of an impl with this prefix.
/// It takes a handle and the exception callback, converts the handle to the
/// value that it owns, and releases the value.
pub open spec fn destructor_of(prefix: Seq<char>, self_ty: TypeView) -> DeclarationView {
    DeclarationView {
        signature: ForeignSignatureView {
            name: destructor_name(prefix),
            params: seq![owned_handle_param(), exception_param()],
            result_callback: None,
            output: None,
        },
        body: BodyView {
            conversions: seq![
                ConversionView {
                    name: handle_name(),
                    local_type: self_ty,
                    attempt: try_not_null_of(box_marshaler_path(), handle_name(), None, false),
                },
            ],
            original: None,
            action: ActionView::Release,
        },
    }
}

/// The marshaler of the result of a method: the one that its attributes
/// name, else the registry's default for its return type.
pub open spec fn method_marshaler(
    registry: RegistryView,
    named: Option<MarshalAttrView>,
    output: Option<TypeView>,
) -> Option<MarshalAttrView> {
    match named {
        Some(a) => Some(MarshalAttrView::from_path(a.path)),
        None => MarshalAttrView::from_defaults_by_return_type(registry, output),
    }
}

/// The function called `name` that is generated for a method of the type
/// `self_ty`. The mappings of the inputs are resolved, then the attributes
/// of the method, then its return type; then the function is described and
/// assembled. The first error on the way is the result.
pub open spec fn method_expansion(
    registry: RegistryView,
    name: Seq<char>,
    method: ItemFnView,
    self_ty: TypeView,
) -> Result<DeclarationView, ErrorView> {
    match method.sig.mappings(registry, Some(self_ty)) {
        Err(e) => Err(e),
        Ok(mappings) => match drain_result(method.attrs) {
            Err(e) => Err(e),
            Ok(named) => {
                let fn_marshal_attr = method_marshaler(registry, named, method.sig.output);
                match ReturnTypeView::new(registry, fn_marshal_attr, method.sig.output) {
                    Err(e) => Err(e),
                    Ok(return_type) => match FunctionView::new(
                        registry,
                        name,
                        method.sig.mapped().inputs,
                        mappings,
                        return_type,
                        InnerFnView::FunctionCall { self_ty, ident: method.sig.ident },
                        fn_marshal_attr,
                        false,
                    ) {
                        Err(e) => Err(e),
                        Ok(function) => function.to_token_stream(),
                    },
                }
            },
        }
    }
}

/// What one item of an impl yields: the item as the expansion holds it, and
/// the function generated for it, if any.
pub struct ItemOutcome {
    pub item: ImplItemView,
    pub function: Option<DeclarationView>,
}

/// What the item at position `index` of an impl with this prefix yields. An
/// eligible method yields its function and loses its marshal attributes, or
/// is in error; any other item stays as it is and yields nothing.
pub open spec fn item_outcome(
    registry: RegistryView,
    prefix: Seq<char>,
    self_ty: TypeView,
    item: ImplItemView,
    index: usize,
) -> Result<ItemOutcome, ErrorView> {
    match item {
        ImplItemView::Method(m) => if m.is_eligible() {
            match method_expansion(registry, method_name(prefix, m.sig.ident), m, self_ty) {
                Ok(d) => Ok(
                    ItemOutcome { item: ImplItemView::Method(m.expanded()), function: Some(d) },
                ),
                Err(e) => Err(e.in_method(index)),
            }
        } else {
            Ok(ItemOutcome { item, function: None })
        },
        ImplItemView::Other => Ok(ItemOutcome { item, function: None }),
    }
}

/// What each item of an impl yields, in order.
pub open spec fn item_outcomes(
    registry: RegistryView,
    prefix: Seq<char>,
    item: ItemImplView,
) -> Seq<Result<ItemOutcome, ErrorView>> {
    Seq::new(
        item.items.len(),
        |i: int| item_outcome(registry, prefix, item.self_ty, item.items[i], i as usize),
    )
}

/// The reason for which no impl of this form is expanded, if there is one:
/// a `default impl`, an `unsafe impl`, a generic impl, an impl of a trait,
/// an impl of a type that is not a path, tested in this order.
pub open spec fn unsupported_impl(item: ItemImplView) -> Option<ErrorView> {
    if item.is_default {
        Some(ErrorView::new(ErrorKind::SpecialisedImpl, Site::Defaultness))
    } else if item.is_unsafe {
        Some(ErrorView::new(ErrorKind::UnsafeImpl, Site::Unsafety))
    } else if item.has_generics {
        Some(ErrorView::new(ErrorKind::GenericImpl, Site::Generics))
    } else if item.is_trait {
        Some(ErrorView::new(ErrorKind::TraitImpl, Site::Trait))
    } else if item.self_ty.shape != TypeShape::Path {
        Some(ErrorView::new(ErrorKind::InvalidSelfType, Site::SelfType))
    } else {
        None
    }
}

/// The expansion of an impl whose functions bear the prefix `prefix`: an
/// error for an impl of an unsupported form or for the first eligible
/// method that is in error; else the destructor followed by the functions
/// of the eligible methods, in order.
pub open spec fn expansion_with_prefix(
    registry: RegistryView,
    prefix: Seq<char>,
    item: ItemImplView,
) -> Result<ImplExpansionView, ErrorView> {
    match unsupported_impl(item) {
        Some(e) => Err(e),
        None => match collect(item_outcomes(registry, prefix, item)) {
            Err(e) => Err(e),
            Ok(outcomes) => Ok(
                ImplExpansionView {
                    item: ItemImplView {
                        items: outcomes.map_values(|o: ItemOutcome| o.item),
                        ..item
                    },
                    functions: seq![destructor_of(prefix, item.self_ty)]
                        + outcomes.filter_map(|o: ItemOutcome| o.function),
                },
            ),
        },
    }
}

/// The expansion of an impl for a caller who gave the prefix `prefix`.
pub open spec fn impl_expansion(
    registry: RegistryView,
    prefix: Option<Seq<char>>,
    item: ItemImplView,
) -> Result<ImplExpansionView, ErrorView> {
    expansion_with_prefix(registry, impl_prefix(prefix, item.self_ty.text), item)
}

/// The destructor of a self type.
pub fn destructor(prefix: &str, self_ty: &TypeDescriptor) -> (r: Declaration)
    ensures
        r@ == destructor_of(prefix@, self_ty@),
{
    let mut params: Vec<ForeignParam> = Vec::new();
    let handle = ForeignParam {
        attrs: Vec::new(),
        name: String::from_str("__handle"),
        ty: ForeignType::Pointer(PtrType::Mut),
    };
    assert(handle@.attrs =~= Seq::empty());
    params.push(handle);
    let exception = ForeignParam {
        attrs: Vec::new(),
        name: String::from_str("__exception"),
        ty: ForeignType::ExceptionCallback,
    };
    assert(exception@.attrs =~= Seq::empty());
    params.push(exception);
    let mut conversions: Vec<Conversion> = Vec::new();
    let marshaler = box_marshaler();
    conversions.push(
        Conversion {
            name: String::from_str("__handle"),
            local_type: self_ty.deep_clone(),
            attempt: gen_try_not_null(&marshaler, "__handle", None, false),
        },
    );
    let r = Declaration {
        signature: ForeignSignature {
            name: String::from_str(prefix).concat("_free"),
            params,
            result_callback: None,
            output: None,
        },
        body: Body { conversions, original: None, action: Action::Release },
    };
    proof {
        let d = destructor_of(prefix@, self_ty@);
        assert(r@.signature.params =~= d.signature.params);
        assert(r@.body.conversions =~= d.body.conversions);
    }
    r
}

/// Whether a function is generated for a method.
pub fn is_eligible(method: &ItemFn) -> (r: bool)
    ensures
        r == method@.is_eligible(),
{
    method.is_public && !method.sig.is_async && !method.sig.is_unsafe && !method.sig.has_abi
        && !method.sig.has_generics
}

/// Generates the function called `name` for a method of the type `self_ty`,
/// and returns it with the method as the expansion holds it: without its
/// marshal attributes.
pub fn expand_method(
    name: String,
    method: ItemFn,
    self_ty: &TypeDescriptor,
    registry: &Registry,
) -> (r: Result<(Declaration, ItemFn), Error>)
    ensures
        match r {
            Ok((d, m)) => method_expansion(registry@, name@, method@, self_ty@) == Ok::<
                _,
                ErrorView,
            >(d@) && m@ == method@.expanded(),
            Err(e) => method_expansion(registry@, name@, method@, self_ty@) == Err::<
                DeclarationView,
                _,
            >(e@),
        },
{
    let ghost before = method@;
    let mut method = method;
    proof {
        lemma_collect(before.sig.mapping_steps(registry@, Some(self_ty@)));
    }
    let mappings = match method.sig.drain_mappings(Some(self_ty), registry) {
        Ok(m) => m,
        Err(e) => {
            return Err(e);
        },
    };
    let named = match drain_marshal_attrs(&mut method.attrs) {
        Ok(a) => a,
        Err(e) => {
            return Err(e);
        },
    };
    let fn_marshal_attr = match named {
        Some(a) => match MarshalAttr::from_path(a.path) {
            Ok(m) => m,
            Err(e) => {
                return Err(e);
            },
        },
        None => MarshalAttr::from_defaults_by_return_type(&method.sig.output, registry),
    };
    let return_type = match ReturnType::new(
        fn_marshal_attr.as_ref(),
        method.sig.output.deep_clone(),
        registry,
    ) {
        Ok(t) => t,
        Err(e) => {
            return Err(e);
        },
    };
    let function = match Function::new(
        name,
        method.sig.inputs.deep_clone(),
        &mappings,
        return_type,
        InnerFn::FunctionCall { self_ty: self_ty.deep_clone(), ident: method.sig.ident.clone() },
        fn_marshal_attr,
        false,
        registry,
    ) {
        Ok(f) => f,
        Err(e) => {
            return Err(e);
        },
    };
    match function.to_token_stream() {
        Ok(d) => Ok((d, method)),
        Err(e) => Err(e),
    }
}

/// The reason for which no impl of this form is expanded, if there is one.
fn check_impl(item: &ItemImpl) -> (r: Option<Error>)
    ensures
        r.deep_view() == unsupported_impl(item@),
{
    if item.is_default {
        return Some(Error::new(ErrorKind::SpecialisedImpl, Site::Defaultness));
    }
    if item.is_unsafe {
        return Some(Error::new(ErrorKind::UnsafeImpl, Site::Unsafety));
    }
    if item.has_generics {
        return Some(Error::new(ErrorKind::GenericImpl, Site::Generics));
    }
    if item.is_trait {
        return Some(Error::new(ErrorKind::TraitImpl, Site::Trait));
    }
    match item.self_ty.shape {
        TypeShape::Path => None,
        _ => Some(Error::new(ErrorKind::InvalidSelfType, Site::SelfType)),
    }
}

/// Expands an impl whose functions bear the prefix `prefix`.
pub fn expand_impl(prefix: &str, item: ItemImpl, registry: &Registry) -> (r: Result<
    ImplExpansion,
    Error,
>)
    ensures
        result_view(r) == expansion_with_prefix(registry@, prefix@, item@),
{
    match check_impl(&item) {
        Some(e) => {
            return Err(e);
        },
        None => {},
    }
    let ghost steps = item_outcomes(registry@, prefix@, item@);
    let ghost pick_item = |o: ItemOutcome| o.item;
    let ghost pick_function = |o: ItemOutcome| o.function;
    let ghost mut outcomes: Seq<ItemOutcome> = Seq::empty();
    let mut items: Vec<ImplItem> = Vec::new();
    let mut methods: Vec<Declaration> = Vec::new();
    let mut i: usize = 0;
    proof {
        assert(steps.take(0) =~= Seq::empty());
        assert(items.deep_view() =~= outcomes.map_values(pick_item));
        assert(methods.deep_view() =~= outcomes.filter_map(pick_function));
    }
    while i < item.items.len()
        invariant
            i <= item.items.len(),
            unsupported_impl(item@) is None,
            steps == item_outcomes(registry@, prefix@, item@),
            pick_item == |o: ItemOutcome| o.item,
            pick_function == |o: ItemOutcome| o.function,
            collect(steps.take(i as int)) == Ok::<_, ErrorView>(outcomes),
            items.deep_view() == outcomes.map_values(pick_item),
            methods.deep_view() == outcomes.filter_map(pick_function),
        decreases item.items.len() - i,
    {
        proof {
            lemma_collect_step(steps, i as int, outcomes);
            assert(item@.items[i as int] == item.items[i as int]@);
        }
        let ghost items_before = items.deep_view();
        let ghost methods_before = methods.deep_view();
        let ghost outcomes_before = outcomes;
        let kept = match &item.items[i] {
            ImplItem::Method(m) => {
                if is_eligible(m) {
                    let name = derive_method_name(prefix, m.sig.ident.as_str());
                    match expand_method(name, m.deep_clone(), &item.self_ty, registry) {
                        Ok((d, expanded)) => {
                            proof {
                                let outcome = ItemOutcome {
                                    item: ImplItemView::Method(expanded@),
                                    function: Some(d@),
                                };
                                assert(steps[i as int] == Ok::<_, ErrorView>(outcome));
                                outcomes = outcomes.push(outcome);
                                lemma_filter_map_push(outcomes_before, outcome, pick_function);
                            }
                            methods.push(d);
                            proof {
                                assert(methods.deep_view() =~= methods_before.push(d@));
                            }
                            ImplItem::Method(expanded)
                        },
                        Err(e) => {
                            proof {
                                assert(steps[i as int] == Err::<ItemOutcome, _>(
                                    e@.in_method(i),
                                ));
                                lemma_collect_failed(steps, i as int + 1, e@.in_method(i));
                            }
                            return Err(e.in_method(i));
                        },
                    }
                } else {
                    proof {
                        let outcome = ItemOutcome { item: item@.items[i as int], function: None };
                        assert(steps[i as int] == Ok::<_, ErrorView>(outcome));
                        outcomes = outcomes.push(outcome);
                        lemma_filter_map_push(outcomes_before, outcome, pick_function);
                    }
                    ImplItem::Method(m.deep_clone())
                }
            },
            ImplItem::Other => {
                proof {
                    let outcome = ItemOutcome { item: item@.items[i as int], function: None };
                    assert(steps[i as int] == Ok::<_, ErrorView>(outcome));
                    outcomes = outcomes.push(outcome);
                    lemma_filter_map_push(outcomes_before, outcome, pick_function);
                }
                ImplItem::Other
            },
        };
        proof {
            lemma_map_values_push(outcomes_before, outcomes.last(), pick_item);
        }
        items.push(kept);
        proof {
            assert(items.deep_view() =~= items_before.push(kept@));
        }
        i += 1;
    }
    proof {
        assert(steps.take(i as int) =~= steps);
    }
    let mut functions: Vec<Declaration> = Vec::new();
    functions.push(destructor(prefix, &item.self_ty));
    let ghost first = functions.deep_view();
    let ghost rest = methods.deep_view();
    functions.append(&mut methods);
    proof {
        assert(first =~= seq![destructor_of(prefix@, item@.self_ty)]);
        assert(functions.deep_view() =~= first + rest);
    }
    Ok(
        ImplExpansion {
            item: ItemImpl {
                is_default: item.is_default,
                is_unsafe: item.is_unsafe,
                has_generics: item.has_generics,
                is_trait: item.is_trait,
                self_ty: item.self_ty,
                items,
            },
            functions,
        },
    )
}

/// Expands an impl block: generates the destructor of its self type and one
/// function for each eligible method, named after `prefix`, the self type
/// and the method.
pub fn call_with_impl(prefix: Option<String>, item: ItemImpl, registry: &Registry) -> (r: Result<
    ImplExpansion,
    Error,
>)
    ensures
        result_view(r) == impl_expansion(registry@, prefix.deep_view(), item@),
{
    let derived = derive_prefix(&prefix, item.self_ty.text.as_str());
    expand_impl(derived.as_str(), item, registry)
}

} // verus!
