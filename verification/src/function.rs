//! The description of one generated function and its assembly.

use crate::attr::marshal::{MarshalAttr, MarshalAttrView};
use crate::attr::{Mapping, MappingView};
use crate::deep::{
    collect, lemma_collect_failed, lemma_collect_step, lemma_filter_map_push,
    lemma_map_values_push, result_view, DeepClone,
};
use crate::error::{Error, ErrorExt, ErrorKind, ErrorView, Site};
use crate::ext::ForeignArgExt;
use crate::output::{
    Action, ActionView, Body, BodyView, Callee, CalleeView, Conversion, ConversionView,
    Declaration, DeclarationView, DefaultValue, DefaultValueView, Delivery, DeliveryView,
    ForeignParam, ForeignParamView, ForeignSignature, ForeignSignatureView, ForeignType,
    ForeignTypeView, Throw, ThrowView, TryNotNull, TryNotNullView,
};
use crate::registry::{Registry, RegistryView};
use crate::return_type::{converted_return, ReturnType, ReturnTypeView};
use crate::syntax::{FnArg, FnArgView, ItemFn, ItemFnView};
use crate::types::{Path, PathView, PtrType, TypeDescriptor, TypeView};
use vstd::prelude::*;

verus! {

/// The name of the parameter that holds the exception callback.
pub open spec fn exception_name() -> Seq<char> {
    "__exception"@
}

/// What is put before the message of an error that arose while the foreign
/// form of an input was sought.
pub open spec fn conversion_context() -> Seq<char> {
    "failed to convert Rust type to FFI type"@
}

/// The parameter that holds the exception callback.
pub open spec fn exception_param() -> ForeignParamView {
    ForeignParamView {
        attrs: Seq::empty(),
        name: exception_name(),
        ty: ForeignTypeView::ExceptionCallback,
    }
}

/// What happens where a conversion fails: unless `no_return`, the function
/// returns `fallback`.
pub open spec fn throw_of(fallback: Option<DefaultValueView>, no_return: bool) -> ThrowView {
    ThrowView {
        returns: !no_return,
        value: if no_return {
            None
        } else {
            fallback
        },
    }
}

/// The attempt to convert the value named `name` by `marshaler`.
pub open spec fn try_not_null_of(
    marshaler: PathView,
    name: Seq<char>,
    fallback: Option<DefaultValueView>,
    no_return: bool,
) -> TryNotNullView {
    TryNotNullView { marshaler, name, throw: throw_of(fallback, no_return) }
}

/// The default of a whole function: what it returns where a conversion of an
/// argument fails. Nothing where it has no foreign return type or delivers
/// its result through a callback; else the foreign default of the marshaler
/// of its result, or the default of its foreign return type where the result
/// is not converted.
pub open spec fn function_default(
    out_marshaler: Option<PathView>,
    ret_ty: Option<ForeignTypeView>,
    has_callback: bool,
) -> Option<DefaultValueView> {
    match ret_ty {
        Some(ty) => if has_callback {
            None
        } else {
            Some(
                match out_marshaler {
                    Some(m) => DefaultValueView::ForeignDefault(m),
                    None => DefaultValueView::TypeDefault(ty),
                },
            )
        },
        None => None,
    }
}

/// The conversion of the argument named `name` to the local type `out_ty`
/// by `marshaler`, which on failure returns the default of the function.
pub open spec fn foreign_of(
    marshaler: PathView,
    name: Seq<char>,
    out_ty: TypeView,
    out_marshaler: Option<PathView>,
    ret_ty: Option<ForeignTypeView>,
    has_callback: bool,
) -> ConversionView {
    ConversionView {
        name,
        local_type: out_ty,
        attempt: try_not_null_of(
            marshaler,
            name,
            function_default(out_marshaler, ret_ty, has_callback),
            false,
        ),
    }
}

/// What happens where a conversion fails.
pub fn gen_throw(fallback: Option<DefaultValue>, no_return: bool) -> (r: Throw)
    ensures
        r@ == throw_of(fallback.deep_view(), no_return),
{
    if no_return {
        Throw { returns: false, value: None }
    } else {
        Throw { returns: true, value: fallback }
    }
}

/// The attempt to convert the value named `name` by `marshaler`.
pub fn gen_try_not_null(
    marshaler: &Path,
    name: &str,
    fallback: Option<DefaultValue>,
    no_return: bool,
) -> (r: TryNotNull)
    ensures
        r@ == try_not_null_of(marshaler@, name@, fallback.deep_view(), no_return),
{
    TryNotNull {
        marshaler: marshaler.deep_clone(),
        name: String::from_str(name),
        throw: gen_throw(fallback, no_return),
    }
}

/// The conversion of one argument.
pub fn gen_foreign(
    marshaler: &Path,
    name: &str,
    out_ty: &TypeDescriptor,
    out_marshaler: Option<&Path>,
    ret_ty: Option<&ForeignType>,
    has_callback: bool,
) -> (r: Conversion)
    ensures
        r@ == foreign_of(
            marshaler@,
            name@,
            out_ty@,
            out_marshaler.deep_view(),
            ret_ty.deep_view(),
            has_callback,
        ),
{
    let fallback = match ret_ty {
        Some(ty) => if has_callback {
            None
        } else {
            Some(
                match out_marshaler {
                    Some(m) => DefaultValue::ForeignDefault(m.deep_clone()),
                    None => DefaultValue::TypeDefault(ty.deep_clone()),
                },
            )
        },
        None => None,
    };
    Conversion {
        name: String::from_str(name),
        local_type: out_ty.deep_clone(),
        attempt: gen_try_not_null(marshaler, name, fallback, false),
    }
}

/// The original logic that a generated function invokes.
#[derive(Debug, PartialEq, Eq)]
pub enum InnerFn {
    /// A function that the generated function holds and calls by its name.
    FunctionBody(ItemFn),
    /// The method `ident` of the type `self_ty`.
    FunctionCall { self_ty: TypeDescriptor, ident: String },
}

/// The mathematical value of an [`InnerFn`].
pub enum InnerFnView {
    FunctionBody(ItemFnView),
    FunctionCall { self_ty: TypeView, ident: Seq<char> },
}

impl DeepView for InnerFn {
    type V = InnerFnView;

    open spec fn deep_view(&self) -> InnerFnView {
        match self {
            InnerFn::FunctionBody(item) => InnerFnView::FunctionBody(item@),
            InnerFn::FunctionCall { self_ty, ident } => InnerFnView::FunctionCall {
                self_ty: self_ty@,
                ident: ident@,
            },
        }
    }
}

impl View for InnerFn {
    type V = InnerFnView;

    open spec fn view(&self) -> InnerFnView {
        self.deep_view()
    }
}

/// The description of one function to generate.
#[derive(Debug, PartialEq, Eq)]
pub struct Function {
    pub name: String,
    pub foreign_params: Vec<ForeignParam>,
    pub foreign_args: Vec<String>,
    pub return_type: ReturnType,
    pub return_marshaler: Option<Path>,
    pub from_foreigns: Vec<Conversion>,
    pub inner_fn: InnerFn,
    pub fn_marshal_attr: Option<MarshalAttr>,
    pub has_exceptions: bool,
    pub has_callback: bool,
    pub passthrough_return: bool,
}

/// The mathematical value of a [`Function`].
pub struct FunctionView {
    pub name: Seq<char>,
    pub foreign_params: Seq<ForeignParamView>,
    pub foreign_args: Seq<Seq<char>>,
    pub return_type: ReturnTypeView,
    pub return_marshaler: Option<PathView>,
    pub from_foreigns: Seq<ConversionView>,
    pub inner_fn: InnerFnView,
    pub fn_marshal_attr: Option<MarshalAttrView>,
    pub has_exceptions: bool,
    pub has_callback: bool,
    pub passthrough_return: bool,
}

impl DeepView for Function {
    type V = FunctionView;

    open spec fn deep_view(&self) -> FunctionView {
        FunctionView {
            name: self.name@,
            foreign_params: self.foreign_params.deep_view(),
            foreign_args: self.foreign_args.deep_view(),
            return_type: self.return_type@,
            return_marshaler: self.return_marshaler.deep_view(),
            from_foreigns: self.from_foreigns.deep_view(),
            inner_fn: self.inner_fn@,
            fn_marshal_attr: self.fn_marshal_attr.deep_view(),
            has_exceptions: self.has_exceptions,
            has_callback: self.has_callback,
            passthrough_return: self.passthrough_return,
        }
    }
}

impl View for Function {
    type V = FunctionView;

    open spec fn view(&self) -> FunctionView {
        self.deep_view()
    }
}

/// What one input contributes to a generated function: its foreign
/// parameter, the name of its argument, and its conversion if it has one.
pub struct InputPlan {
    pub param: ForeignParamView,
    pub arg: Seq<char>,
    pub conversion: Option<ConversionView>,
}

/// The foreign type of an input that the marshaler of path `marshaler`
/// converts: the pointer for a receiver, the byte for a boolean, else what
/// the marshaler declares for its foreign input.
pub open spec fn marshaled_type(
    arg: FnArgView,
    base: ForeignTypeView,
    marshaler: PathView,
) -> ForeignTypeView {
    match arg {
        FnArgView::Receiver(_) => base,
        FnArgView::Typed(p) => if p.ty.is_bool() {
            ForeignTypeView::Byte
        } else {
            ForeignTypeView::InputOf(marshaler)
        },
    }
}

/// What the input at position `index` contributes. An input without a
/// foreign form is an error. An input with a marshaler is converted; one
/// without crosses as it is if its type is a passthrough type, and is an
/// error if not.
pub open spec fn input_plan(
    registry: RegistryView,
    arg: FnArgView,
    mapping: MappingView,
    out_marshaler: Option<PathView>,
    ret_ty: Option<ForeignTypeView>,
    has_callback: bool,
    index: usize,
) -> Result<InputPlan, ErrorView> {
    match arg.to_foreign_param(registry) {
        Err(e) => Err(e.context(conversion_context()).in_input(index)),
        Ok(base) => {
            let name = arg.to_foreign_arg();
            match mapping.marshaler {
                Some(m) => Ok(
                    InputPlan {
                        param: ForeignParamView {
                            ty: marshaled_type(arg, base.ty, m.path),
                            ..base
                        },
                        arg: name,
                        conversion: Some(
                            foreign_of(
                                m.path,
                                name,
                                mapping.output_type,
                                out_marshaler,
                                ret_ty,
                                has_callback,
                            ),
                        ),
                    },
                ),
                None => if registry.is_passthrough(mapping.output_type) {
                    Ok(InputPlan { param: base, arg: name, conversion: None })
                } else {
                    Err(
                        ErrorView::new(ErrorKind::NoMarshalerFound, Site::Input).in_input(index),
                    )
                },
            }
        },
    }
}

/// What each input contributes, in order.
pub open spec fn input_plans(
    registry: RegistryView,
    params: Seq<FnArgView>,
    mappings: Seq<MappingView>,
    out_marshaler: Option<PathView>,
    ret_ty: Option<ForeignTypeView>,
    has_callback: bool,
) -> Seq<Result<InputPlan, ErrorView>> {
    Seq::new(
        params.len(),
        |i: int|
            input_plan(
                registry,
                params[i],
                mappings[i],
                out_marshaler,
                ret_ty,
                has_callback,
                i as usize,
            ),
    )
}

impl FunctionView {
    /// Whether the generated function takes the exception callback: some
    /// argument is converted, or the result is.
    pub open spec fn needs_exception_param(self) -> bool {
        self.has_exceptions || !self.passthrough_return
    }

    /// The description of the function called `name` that wraps the logic
    /// `inner_fn` with the inputs `params`, mapped by `mappings`, and the
    /// return type `return_type`; or the error of the first input that has
    /// no foreign form or no marshaler.
    pub open spec fn new(
        registry: RegistryView,
        name: Seq<char>,
        params: Seq<FnArgView>,
        mappings: Seq<MappingView>,
        return_type: ReturnTypeView,
        inner_fn: InnerFnView,
        fn_marshal_attr: Option<MarshalAttrView>,
        has_callback: bool,
    ) -> Result<FunctionView, ErrorView> {
        let return_marshaler = return_type.resolve_marshaler(registry, fn_marshal_attr);
        match collect(
            input_plans(
                registry,
                params,
                mappings,
                return_marshaler,
                return_type.foreign,
                has_callback,
            ),
        ) {
            Err(e) => Err(e),
            Ok(plans) => {
                let from_foreigns = plans.filter_map(|p: InputPlan| p.conversion);
                let has_exceptions = from_foreigns.len() > 0;
                let passthrough_return = return_type.is_passthrough(registry);
                let own = plans.map_values(|p: InputPlan| p.param);
                Ok(
                    FunctionView {
                        name,
                        foreign_params: if has_exceptions || !passthrough_return {
                            own.push(exception_param())
                        } else {
                            own
                        },
                        foreign_args: plans.map_values(|p: InputPlan| p.arg),
                        return_type,
                        return_marshaler,
                        from_foreigns,
                        inner_fn,
                        fn_marshal_attr,
                        has_exceptions,
                        has_callback,
                        passthrough_return,
                    },
                )
            },
        }
    }

    /// The type of the result at the boundary: none where the function
    /// returns nothing; the foreign form of a passthrough type; what the
    /// marshaler of the result declares for any other type, which is an
    /// error without a marshaler.
    pub open spec fn result_type(self) -> Result<Option<ForeignTypeView>, ErrorView> {
        match self.return_type.local {
            None => Ok(None),
            Some(ty) => if self.passthrough_return {
                Ok(
                    Some(
                        if ty.is_bool() {
                            ForeignTypeView::Byte
                        } else {
                            ForeignTypeView::Local(ty)
                        },
                    ),
                )
            } else {
                match self.fn_marshal_attr {
                    Some(m) => Ok(Some(converted_return(ty, m.path))),
                    None => Err(
                        ErrorView::about(
                            ErrorKind::NoMarshalerForReturn,
                            Site::ReturnType,
                            ty.text,
                        ),
                    ),
                }
            },
        }
    }

    /// The signature of the generated function. In callback mode the type of
    /// the result is that of the result callback, and nothing is returned.
    pub open spec fn build_signature(self) -> Result<ForeignSignatureView, ErrorView> {
        match self.result_type() {
            Err(e) => Err(e),
            Ok(ty) => Ok(
                ForeignSignatureView {
                    name: self.name,
                    params: self.foreign_params,
                    result_callback: if self.has_callback {
                        ty
                    } else {
                        None
                    },
                    output: if self.has_callback {
                        None
                    } else {
                        ty
                    },
                },
            ),
        }
    }

    /// The callable that the generated function invokes.
    pub open spec fn callee(self) -> CalleeView {
        match self.inner_fn {
            InnerFnView::FunctionCall { self_ty, ident } => CalleeView::Method { self_ty, ident },
            InnerFnView::FunctionBody(_) => CalleeView::Function(self.name),
        }
    }

    /// The way in which the result leaves the generated function.
    pub open spec fn delivery(self) -> Result<DeliveryView, ErrorView> {
        match self.return_type.local {
            None => Ok(DeliveryView::Discard),
            Some(ty) => if self.passthrough_return {
                Ok(
                    if self.has_callback {
                        DeliveryView::DirectCallback
                    } else {
                        DeliveryView::Direct
                    },
                )
            } else {
                match self.fn_marshal_attr {
                    Some(m) => {
                        let throw = throw_of(
                            Some(DefaultValueView::ForeignDefault(m.path)),
                            self.has_callback,
                        );
                        Ok(
                            if self.has_callback {
                                DeliveryView::ConvertedCallback { marshaler: m.path, throw }
                            } else {
                                DeliveryView::Converted { marshaler: m.path, throw }
                            },
                        )
                    },
                    None => Err(
                        ErrorView::about(
                            ErrorKind::NoMarshalerForReturn,
                            Site::ReturnType,
                            ty.text,
                        ),
                    ),
                }
            },
        }
    }

    /// The body of the generated function: the conversions, the original
    /// function where the generated one holds it, the call and the delivery
    /// of its result.
    pub open spec fn build_inner_block(self) -> Result<BodyView, ErrorView> {
        match self.delivery() {
            Err(e) => Err(e),
            Ok(delivery) => Ok(
                BodyView {
                    conversions: self.from_foreigns,
                    original: match self.inner_fn {
                        InnerFnView::FunctionBody(item) => Some(item),
                        _ => None,
                    },
                    action: ActionView::Call {
                        callee: self.callee(),
                        args: self.foreign_args,
                        delivery,
                    },
                },
            ),
        }
    }

    /// The generated function.
    pub open spec fn to_token_stream(self) -> Result<DeclarationView, ErrorView> {
        match self.build_signature() {
            Err(e) => Err(e),
            Ok(signature) => match self.build_inner_block() {
                Err(e) => Err(e),
                Ok(body) => Ok(DeclarationView { signature, body }),
            },
        }
    }
}

/// The parameter that holds the exception callback.
fn exception_callback_param() -> (r: ForeignParam)
    ensures
        r@ == exception_param(),
{
    let r = ForeignParam {
        attrs: Vec::new(),
        name: String::from_str("__exception"),
        ty: ForeignType::ExceptionCallback,
    };
    assert(r@.attrs =~= Seq::empty());
    r
}

impl Function {
    /// Describes the function called `name` that wraps the logic `inner_fn`.
    /// `mappings` holds the mapping of each input of `params`, in order.
    pub fn new(
        name: String,
        params: Vec<FnArg>,
        mappings: &Vec<Mapping>,
        return_type: ReturnType,
        inner_fn: InnerFn,
        fn_marshal_attr: Option<MarshalAttr>,
        has_callback: bool,
        registry: &Registry,
    ) -> (r: Result<Function, Error>)
        requires
            params.len() <= mappings.len(),
        ensures
            result_view(r) == FunctionView::new(
                registry@,
                name@,
                params.deep_view(),
                mappings.deep_view(),
                return_type@,
                inner_fn@,
                fn_marshal_attr.deep_view(),
                has_callback,
            ),
    {
        let return_marshaler = return_type.resolve_marshaler(fn_marshal_attr.as_ref(), registry);
        let ghost steps = input_plans(
            registry@,
            params.deep_view(),
            mappings.deep_view(),
            return_marshaler.deep_view(),
            return_type@.foreign,
            has_callback,
        );
        let ghost pick_param = |p: InputPlan| p.param;
        let ghost pick_arg = |p: InputPlan| p.arg;
        let ghost pick_conversion = |p: InputPlan| p.conversion;
        let ghost mut plans: Seq<InputPlan> = Seq::empty();
        let mut from_foreigns: Vec<Conversion> = Vec::new();
        let mut foreign_params: Vec<ForeignParam> = Vec::new();
        let mut foreign_args: Vec<String> = Vec::new();
        let mut i: usize = 0;
        proof {
            assert(steps.take(0) =~= Seq::empty());
            assert(foreign_params.deep_view() =~= plans.map_values(pick_param));
            assert(foreign_args.deep_view() =~= plans.map_values(pick_arg));
            assert(from_foreigns.deep_view() =~= plans.filter_map(pick_conversion));
        }
        while i < params.len()
            invariant
                i <= params.len(),
                params.len() <= mappings.len(),
                return_marshaler.deep_view() == return_type@.resolve_marshaler(
                    registry@,
                    fn_marshal_attr.deep_view(),
                ),
                steps == input_plans(
                    registry@,
                    params.deep_view(),
                    mappings.deep_view(),
                    return_marshaler.deep_view(),
                    return_type@.foreign,
                    has_callback,
                ),
                pick_param == |p: InputPlan| p.param,
                pick_arg == |p: InputPlan| p.arg,
                pick_conversion == |p: InputPlan| p.conversion,
                collect(steps.take(i as int)) == Ok::<_, ErrorView>(plans),
                foreign_params.deep_view() == plans.map_values(pick_param),
                foreign_args.deep_view() == plans.map_values(pick_arg),
                from_foreigns.deep_view() == plans.filter_map(pick_conversion),
            decreases params.len() - i,
        {
            proof {
                lemma_collect_step(steps, i as int, plans);
            }
            let ghost params_before = foreign_params.deep_view();
            let ghost args_before = foreign_args.deep_view();
            let ghost conversions_before = from_foreigns.deep_view();
            let ghost plans_before = plans;
            let param = &params[i];
            let mapping = &mappings[i];
            proof {
                assert(params.deep_view()[i as int] == param@);
                assert(mappings.deep_view()[i as int] == mapping@);
            }
            let named = param.to_foreign_arg();
            assert(named is Ok);
            let arg = match named.context("failed to convert Rust type to FFI type") {
                Ok(arg) => arg,
                Err(e) => {
                    return Err(e.in_input(i));
                },
            };
            let mut in_type = match param.to_foreign_param(registry).context(
                "failed to convert Rust type to FFI type",
            ) {
                Ok(p) => p,
                Err(e) => {
                    proof {
                        lemma_collect_failed(steps, i as int + 1, e@.in_input(i));
                    }
                    return Err(e.in_input(i));
                },
            };
            let ghost base = in_type@;
            match &mapping.marshaler {
                Some(marshaler) => {
                    match param {
                        FnArg::Receiver(_) => {},
                        FnArg::Typed(typed) => {
                            in_type.ty = if typed.ty.is_bool() {
                                ForeignType::Byte
                            } else {
                                ForeignType::InputOf(marshaler.path.deep_clone())
                            };
                        },
                    }
                    let foreign = gen_foreign(
                        &marshaler.path,
                        arg.as_str(),
                        &mapping.output_type,
                        return_marshaler.as_ref(),
                        return_type.foreign.as_ref(),
                        has_callback,
                    );
                    proof {
                        let plan = InputPlan {
                            param: in_type@,
                            arg: arg@,
                            conversion: Some(foreign@),
                        };
                        assert(in_type@ == (ForeignParamView {
                            ty: marshaled_type(params[i as int]@, base.ty, marshaler@.path),
                            ..base
                        }));
                        assert(steps[i as int] == Ok::<_, ErrorView>(plan));
                        plans = plans.push(plan);
                        lemma_filter_map_push(plans_before, plan, pick_conversion);
                    }
                    from_foreigns.push(foreign);
                    proof {
                        assert(from_foreigns.deep_view() =~= conversions_before.push(foreign@));
                    }
                },
                None => {
                    if !registry.is_passthrough_type(&mapping.output_type) {
                        proof {
                            assert(steps[i as int] == Err::<InputPlan, ErrorView>(
                                ErrorView::new(ErrorKind::NoMarshalerFound, Site::Input).in_input(
                                    i,
                                ),
                            ));
                            lemma_collect_failed(
                                steps,
                                i as int + 1,
                                ErrorView::new(ErrorKind::NoMarshalerFound, Site::Input).in_input(
                                    i,
                                ),
                            );
                        }
                        return Err(
                            Error::new(ErrorKind::NoMarshalerFound, Site::Input).in_input(i),
                        );
                    }
                    proof {
                        let plan = InputPlan { param: in_type@, arg: arg@, conversion: None };
                        assert(steps[i as int] == Ok::<_, ErrorView>(plan));
                        plans = plans.push(plan);
                        lemma_filter_map_push(plans_before, plan, pick_conversion);
                    }
                },
            }
            proof {
                lemma_map_values_push(plans_before, plans.last(), pick_param);
                lemma_map_values_push(plans_before, plans.last(), pick_arg);
            }
            foreign_params.push(in_type);
            foreign_args.push(arg);
            proof {
                assert(foreign_params.deep_view() =~= params_before.push(in_type@));
                assert(foreign_args.deep_view() =~= args_before.push(arg@));
            }
            i += 1;
        }
        proof {
            assert(steps.take(i as int) =~= steps);
        }
        let has_exceptions = from_foreigns.len() > 0;
        let passthrough_return = return_type.is_passthrough(registry);
        if has_exceptions || !passthrough_return {
            let ghost own = foreign_params.deep_view();
            let last = exception_callback_param();
            foreign_params.push(last);
            proof {
                assert(foreign_params.deep_view() =~= own.push(exception_param()));
            }
        }
        Ok(
            Function {
                name,
                foreign_params,
                foreign_args,
                return_type,
                return_marshaler,
                from_foreigns,
                inner_fn,
                fn_marshal_attr,
                has_exceptions,
                has_callback,
                passthrough_return,
            },
        )
    }

    /// Whether the generated function takes the exception callback.
    pub fn needs_exception_param(&self) -> (r: bool)
        ensures
            r == self@.needs_exception_param(),
    {
        self.has_exceptions || !self.passthrough_return
    }

    /// The type of the result at the boundary.
    fn result_type(&self) -> (r: Result<Option<ForeignType>, Error>)
        ensures
            result_view(r) == self@.result_type(),
    {
        match &self.return_type.local {
            None => Ok(None),
            Some(ty) => {
                if self.passthrough_return {
                    if ty.is_bool() {
                        Ok(Some(ForeignType::Byte))
                    } else {
                        Ok(Some(ForeignType::Local(ty.deep_clone())))
                    }
                } else {
                    match &self.fn_marshal_attr {
                        Some(m) => {
                            if ty.is_bool() {
                                Ok(Some(ForeignType::Byte))
                            } else {
                                Ok(Some(ForeignType::ReturnOf(m.path.deep_clone())))
                            }
                        },
                        None => Err(
                            Error::about(
                                ErrorKind::NoMarshalerForReturn,
                                Site::ReturnType,
                                ty.text.as_str(),
                            ),
                        ),
                    }
                }
            },
        }
    }

    /// The signature of the generated function.
    pub fn build_signature(&self) -> (r: Result<ForeignSignature, Error>)
        ensures
            result_view(r) == self@.build_signature(),
    {
        let ty = match self.result_type() {
            Ok(ty) => ty,
            Err(e) => {
                return Err(e);
            },
        };
        let (result_callback, output) = if self.has_callback {
            (ty, None)
        } else {
            (None, ty)
        };
        Ok(
            ForeignSignature {
                name: self.name.clone(),
                params: self.foreign_params.deep_clone(),
                result_callback,
                output,
            },
        )
    }

    /// The way in which the result leaves the generated function.
    fn delivery(&self) -> (r: Result<Delivery, Error>)
        ensures
            result_view(r) == self@.delivery(),
    {
        match &self.return_type.local {
            None => Ok(Delivery::Discard),
            Some(ty) => {
                if self.passthrough_return {
                    if self.has_callback {
                        Ok(Delivery::DirectCallback)
                    } else {
                        Ok(Delivery::Direct)
                    }
                } else {
                    match &self.fn_marshal_attr {
                        Some(m) => {
                            let throw = gen_throw(
                                Some(DefaultValue::ForeignDefault(m.path.deep_clone())),
                                self.has_callback,
                            );
                            if self.has_callback {
                                Ok(
                                    Delivery::ConvertedCallback {
                                        marshaler: m.path.deep_clone(),
                                        throw,
                                    },
                                )
                            } else {
                                Ok(Delivery::Converted { marshaler: m.path.deep_clone(), throw })
                            }
                        },
                        None => Err(
                            Error::about(
                                ErrorKind::NoMarshalerForReturn,
                                Site::ReturnType,
                                ty.text.as_str(),
                            ),
                        ),
                    }
                }
            },
        }
    }

    /// The body of the generated function.
    pub fn build_inner_block(&self) -> (r: Result<Body, Error>)
        ensures
            result_view(r) == self@.build_inner_block(),
    {
        let delivery = match self.delivery() {
            Ok(d) => d,
            Err(e) => {
                return Err(e);
            },
        };
        let original = match &self.inner_fn {
            InnerFn::FunctionBody(item) => Some(item.deep_clone()),
            _ => None,
        };
        let callee = match &self.inner_fn {
            InnerFn::FunctionCall { self_ty, ident } => Callee::Method {
                self_ty: self_ty.deep_clone(),
                ident: ident.clone(),
            },
            InnerFn::FunctionBody(_) => Callee::Function(self.name.clone()),
        };
        Ok(
            Body {
                conversions: self.from_foreigns.deep_clone(),
                original,
                action: Action::Call { callee, args: self.foreign_args.deep_clone(), delivery },
            },
        )
    }

    /// The generated function.
    pub fn to_token_stream(&self) -> (r: Result<Declaration, Error>)
        ensures
            result_view(r) == self@.to_token_stream(),
    {
        let signature = match self.build_signature() {
            Ok(s) => s,
            Err(e) => {
                return Err(e);
            },
        };
        let body = match self.build_inner_block() {
            Ok(b) => b,
            Err(e) => {
                return Err(e);
            },
        };
        Ok(Declaration { signature, body })
    }
}

/// The C type that stands for a foreign type: a pointer to `void` for a
/// pointer, `void` for none; other types are not rendered yet.
pub open spec fn c_type_text(ty: Option<ForeignTypeView>) -> Seq<char> {
    match ty {
        Some(ty) => match ty.pointer_type() {
            Some(PtrType::Const) => "const void*"@,
            Some(PtrType::Mut) => "void*"@,
            None => "TODO"@,
        },
        None => "void"@,
    }
}

/// The C type that stands for a foreign type.
fn c_type(ty: Option<&ForeignType>) -> (r: &'static str)
    ensures
        r@ == c_type_text(ty.deep_view()),
{
    match ty {
        Some(ty) => match ty.pointer_type() {
            Some(PtrType::Const) => "const void*",
            Some(PtrType::Mut) => "void*",
            None => "TODO",
        },
        None => "void",
    }
}

/// The C type that a generated function returns.
pub fn to_string(function: &Function) -> (r: String)
    ensures
        r@ == c_type_text(function@.return_type.foreign),
{
    String::from_str(c_type(function.return_type.foreign.as_ref()))
}

} // verus!
