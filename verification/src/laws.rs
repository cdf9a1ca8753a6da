//! What holds of every expansion.

use crate::attr::invoke::InvokeParamsView;
use crate::attr::marshal::MarshalAttrView;
use crate::attr::MappingView;
use crate::call_impl::{destructor_of, expansion_with_prefix, item_outcomes, ItemOutcome};
use crate::deep::{collect, lemma_collect, result_view};
use crate::error::{Error, ErrorView};
use crate::function::{
    exception_param, function_default, input_plan, input_plans, throw_of, FunctionView,
    InnerFnView, InputPlan,
};
use crate::output::ForeignTypeView;
use crate::registry::RegistryView;
use crate::return_type::ReturnTypeView;
use crate::syntax::{FnArgView, ImplItemView, ItemImplView, ItemView};
use crate::types::TypeView;
use crate::{expansion, Expansion};
use vstd::prelude::*;

verus! {

/// The foreign form of a passthrough type: the byte for the boolean type,
/// the type itself for any other.
pub open spec fn unchanged(ty: TypeView) -> ForeignTypeView {
    if ty.is_bool() {
        ForeignTypeView::Byte
    } else {
        ForeignTypeView::Local(ty)
    }
}

/// The number of inputs among the first `n` that a marshaler converts.
pub open spec fn converted_before(mappings: Seq<MappingView>, n: int) -> nat
    decreases n,
{
    if n <= 0 {
        0
    } else {
        converted_before(mappings, n - 1) + if mappings[n - 1].marshaler is Some {
            1nat
        } else {
            0nat
        }
    }
}

/// What the plans of the inputs of a described function are.
proof fn lemma_plans(
    registry: RegistryView,
    name: Seq<char>,
    params: Seq<FnArgView>,
    mappings: Seq<MappingView>,
    return_type: ReturnTypeView,
    inner_fn: InnerFnView,
    fn_marshal_attr: Option<MarshalAttrView>,
    has_callback: bool,
) -> (plans: Seq<InputPlan>)
    requires
        FunctionView::new(
            registry,
            name,
            params,
            mappings,
            return_type,
            inner_fn,
            fn_marshal_attr,
            has_callback,
        ) is Ok,
    ensures
        plans.len() == params.len(),
        forall|i: int|
            0 <= i < params.len() ==> input_plan(
                registry,
                params[i],
                mappings[i],
                return_type.resolve_marshaler(registry, fn_marshal_attr),
                return_type.foreign,
                has_callback,
                i as usize,
            ) == Ok::<InputPlan, ErrorView>(#[trigger] plans[i]),
        ({
            let f = FunctionView::new(
                registry,
                name,
                params,
                mappings,
                return_type,
                inner_fn,
                fn_marshal_attr,
                has_callback,
            )->Ok_0;
            &&& f.from_foreigns == plans.filter_map(|p: InputPlan| p.conversion)
            &&& f.foreign_args == plans.map_values(|p: InputPlan| p.arg)
            &&& f.has_exceptions == (f.from_foreigns.len() > 0)
            &&& f.passthrough_return == return_type.is_passthrough(registry)
            &&& f.return_marshaler == return_type.resolve_marshaler(registry, fn_marshal_attr)
            &&& f.return_type == return_type
            &&& f.has_callback == has_callback
            &&& f.foreign_params == if f.needs_exception_param() {
                plans.map_values(|p: InputPlan| p.param).push(exception_param())
            } else {
                plans.map_values(|p: InputPlan| p.param)
            }
        }),
{
    let steps = input_plans(
        registry,
        params,
        mappings,
        return_type.resolve_marshaler(registry, fn_marshal_attr),
        return_type.foreign,
        has_callback,
    );
    lemma_collect(steps);
    let plans = collect(steps)->Ok_0;
    assert forall|i: int| 0 <= i < params.len() implies input_plan(
        registry,
        params[i],
        mappings[i],
        return_type.resolve_marshaler(registry, fn_marshal_attr),
        return_type.foreign,
        has_callback,
        i as usize,
    ) == Ok::<InputPlan, ErrorView>(#[trigger] plans[i]) by {
        assert(steps[i] == Ok::<InputPlan, ErrorView>(plans[i]));
    }
    plans
}

/// The conversions of a sequence of plans, counted and found by position.
proof fn lemma_conversions(plans: Seq<InputPlan>, mappings: Seq<MappingView>, n: int)
    requires
        0 <= n <= plans.len(),
        forall|i: int|
            0 <= i < plans.len() ==> ((#[trigger] plans[i]).conversion is Some
                <==> mappings[i].marshaler is Some),
    ensures
        plans.take(n).filter_map(|p: InputPlan| p.conversion).len() == converted_before(
            mappings,
            n,
        ),
        forall|i: int|
            0 <= i < n && mappings[i].marshaler is Some ==> plans.take(n).filter_map(
                |p: InputPlan| p.conversion,
            )[converted_before(mappings, i) as int] == (#[trigger] plans[i]).conversion->0,
        forall|i: int| 0 <= i <= n ==> converted_before(mappings, i) <= converted_before(mappings, n),
    decreases n,
{
    let pick = |p: InputPlan| p.conversion;
    if n > 0 {
        lemma_conversions(plans, mappings, n - 1);
        assert(plans.take(n).drop_last() =~= plans.take(n - 1));
        assert(plans.take(n).last() == plans[n - 1]);
        let before = plans.take(n - 1).filter_map(pick);
        match plans[n - 1].conversion {
            Some(c) => {
                assert(plans.take(n).filter_map(pick) =~= before + seq![c]);
            },
            None => {
                assert(plans.take(n).filter_map(pick) =~= before);
            },
        }
        assert forall|i: int| 0 <= i < n && mappings[i].marshaler is Some implies plans.take(
            n,
        ).filter_map(pick)[converted_before(mappings, i) as int] == (
        #[trigger] plans[i]).conversion->0 by {
            if i < n - 1 {
                assert(converted_before(mappings, i) < converted_before(mappings, n - 1)) by {
                    lemma_converted_grows(mappings, i, n - 1);
                }
            }
        }
    } else {
        assert(plans.take(0).filter_map(pick) =~= Seq::empty());
    }
}

/// An input that is converted is counted among those up to any later one.
proof fn lemma_converted_grows(mappings: Seq<MappingView>, i: int, n: int)
    requires
        0 <= i < n,
        mappings[i].marshaler is Some,
    ensures
        converted_before(mappings, i) < converted_before(mappings, n),
    decreases n,
{
    if i < n - 1 {
        lemma_converted_grows(mappings, i, n - 1);
    }
}

/// A typed parameter that no marshaler converts crosses the boundary as its
/// local type, and a boolean parameter crosses as a byte whether or not a
/// marshaler converts it.
pub proof fn law_passthrough_parameter_is_unchanged(
    registry: RegistryView,
    name: Seq<char>,
    params: Seq<FnArgView>,
    mappings: Seq<MappingView>,
    return_type: ReturnTypeView,
    inner_fn: InnerFnView,
    fn_marshal_attr: Option<MarshalAttrView>,
    has_callback: bool,
    i: int,
)
    requires
        FunctionView::new(
            registry,
            name,
            params,
            mappings,
            return_type,
            inner_fn,
            fn_marshal_attr,
            has_callback,
        ) is Ok,
        0 <= i < params.len(),
        params[i] is Typed,
    ensures
        ({
            let f = FunctionView::new(
                registry,
                name,
                params,
                mappings,
                return_type,
                inner_fn,
                fn_marshal_attr,
                has_callback,
            )->Ok_0;
            let ty = params[i]->Typed_0.ty;
            &&& ty.is_bool() ==> f.foreign_params[i].ty == ForeignTypeView::Byte
            &&& mappings[i].marshaler is None && registry.is_passthrough(ty)
                ==> f.foreign_params[i].ty == unchanged(ty)
        }),
{
    let plans = lemma_plans(
        registry,
        name,
        params,
        mappings,
        return_type,
        inner_fn,
        fn_marshal_attr,
        has_callback,
    );
    assert(plans[i] == plans[i]);
}

/// A result of a passthrough type crosses the boundary as its local type,
/// the boolean as a byte: so says the resolution of the return type, and so
/// says the signature of the generated function.
pub proof fn law_passthrough_result_is_unchanged(
    registry: RegistryView,
    marshal_attr: Option<MarshalAttrView>,
    ty: TypeView,
    function: FunctionView,
)
    requires
        registry.is_passthrough(ty),
    ensures
        ReturnTypeView::new(registry, marshal_attr, Some(ty)) matches Ok(r) ==> (r.local is Some
            ==> r.foreign == Some(unchanged(ty))),
        function.return_type.local == Some(ty) && function.passthrough_return
            ==> function.result_type() == Ok::<_, ErrorView>(Some(unchanged(ty))),
{
}

/// Every input that a marshaler converts has exactly one conversion in the
/// generated function: the conversions are, in order, those of the
/// converted inputs. The failure branch of each holds the default of the
/// whole function.
pub proof fn law_one_conversion_per_converted_parameter(
    registry: RegistryView,
    name: Seq<char>,
    params: Seq<FnArgView>,
    mappings: Seq<MappingView>,
    return_type: ReturnTypeView,
    inner_fn: InnerFnView,
    fn_marshal_attr: Option<MarshalAttrView>,
    has_callback: bool,
)
    requires
        FunctionView::new(
            registry,
            name,
            params,
            mappings,
            return_type,
            inner_fn,
            fn_marshal_attr,
            has_callback,
        ) is Ok,
    ensures
        ({
            let f = FunctionView::new(
                registry,
                name,
                params,
                mappings,
                return_type,
                inner_fn,
                fn_marshal_attr,
                has_callback,
            )->Ok_0;
            let default = function_default(f.return_marshaler, f.return_type.foreign, has_callback);
            &&& f.from_foreigns.len() == converted_before(mappings, params.len() as int)
            &&& forall|i: int|
                0 <= i < params.len() && (#[trigger] mappings[i]).marshaler is Some ==> {
                    let k = converted_before(mappings, i) as int;
                    &&& k < f.from_foreigns.len()
                    &&& f.from_foreigns[k].name == params[i].to_foreign_arg()
                    &&& f.from_foreigns[k].local_type == mappings[i].output_type
                    &&& f.from_foreigns[k].attempt.marshaler == mappings[i].marshaler->0.path
                    &&& f.from_foreigns[k].attempt.name == params[i].to_foreign_arg()
                }
            &&& forall|k: int|
                0 <= k < f.from_foreigns.len() ==> (#[trigger] f.from_foreigns[k]).attempt.throw
                    == throw_of(default, false)
        }),
{
    let plans = lemma_plans(
        registry,
        name,
        params,
        mappings,
        return_type,
        inner_fn,
        fn_marshal_attr,
        has_callback,
    );
    let f = FunctionView::new(
        registry,
        name,
        params,
        mappings,
        return_type,
        inner_fn,
        fn_marshal_attr,
        has_callback,
    )->Ok_0;
    let pick = |p: InputPlan| p.conversion;
    let n = params.len() as int;
    assert(plans.take(n) =~= plans);
    assert forall|i: int| 0 <= i < plans.len() implies ((#[trigger] plans[i]).conversion is Some
        <==> mappings[i].marshaler is Some) by {
        assert(plans[i] == plans[i]);
    }
    lemma_conversions(plans, mappings, n);
    assert forall|i: int|
        0 <= i < params.len() && (#[trigger] mappings[i]).marshaler is Some implies {
        let k = converted_before(mappings, i) as int;
        &&& k < f.from_foreigns.len()
        &&& f.from_foreigns[k].name == params[i].to_foreign_arg()
        &&& f.from_foreigns[k].local_type == mappings[i].output_type
        &&& f.from_foreigns[k].attempt.marshaler == mappings[i].marshaler->0.path
        &&& f.from_foreigns[k].attempt.name == params[i].to_foreign_arg()
    } by {
        lemma_converted_grows(mappings, i, n);
        assert(plans[i].conversion is Some);
    }
    let default = function_default(f.return_marshaler, f.return_type.foreign, has_callback);
    assert forall|k: int| 0 <= k < f.from_foreigns.len() implies (
    #[trigger] f.from_foreigns[k]).attempt.throw == throw_of(default, false) by {
        let c = f.from_foreigns[k];
        assert(plans.filter_map(pick).contains(c));
        plans.lemma_filter_map_contains(pick, c);
        let j = choose|j: int| 0 <= j < plans.len() && pick(plans[j]) == Some(c);
        assert(plans[j] == plans[j]);
    }
}

/// The generated function takes the exception callback exactly where some
/// input is converted or the result is; it then takes it once, as the last
/// of its parameters.
pub proof fn law_exception_parameter(
    registry: RegistryView,
    name: Seq<char>,
    params: Seq<FnArgView>,
    mappings: Seq<MappingView>,
    return_type: ReturnTypeView,
    inner_fn: InnerFnView,
    fn_marshal_attr: Option<MarshalAttrView>,
    has_callback: bool,
)
    requires
        FunctionView::new(
            registry,
            name,
            params,
            mappings,
            return_type,
            inner_fn,
            fn_marshal_attr,
            has_callback,
        ) is Ok,
    ensures
        ({
            let f = FunctionView::new(
                registry,
                name,
                params,
                mappings,
                return_type,
                inner_fn,
                fn_marshal_attr,
                has_callback,
            )->Ok_0;
            let needed = f.needs_exception_param();
            &&& needed <==> (exists|i: int|
                0 <= i < params.len() && (#[trigger] mappings[i]).marshaler is Some)
                || !return_type.is_passthrough(registry)
            &&& f.foreign_params.len() == params.len() + if needed {
                1int
            } else {
                0int
            }
            &&& needed ==> f.foreign_params.last() == exception_param()
            &&& forall|k: int|
                0 <= k < params.len() ==> (#[trigger] f.foreign_params[k]).ty
                    != ForeignTypeView::ExceptionCallback
        }),
{
    let plans = lemma_plans(
        registry,
        name,
        params,
        mappings,
        return_type,
        inner_fn,
        fn_marshal_attr,
        has_callback,
    );
    let f = FunctionView::new(
        registry,
        name,
        params,
        mappings,
        return_type,
        inner_fn,
        fn_marshal_attr,
        has_callback,
    )->Ok_0;
    let n = params.len() as int;
    assert(plans.take(n) =~= plans);
    assert forall|i: int| 0 <= i < plans.len() implies ((#[trigger] plans[i]).conversion is Some
        <==> mappings[i].marshaler is Some) by {
        assert(plans[i] == plans[i]);
    }
    lemma_conversions(plans, mappings, n);
    if exists|i: int| 0 <= i < params.len() && (#[trigger] mappings[i]).marshaler is Some {
        let i = choose|i: int| 0 <= i < params.len() && (#[trigger] mappings[i]).marshaler is Some;
        lemma_converted_grows(mappings, i, n);
    } else {
        lemma_none_converted(mappings, n);
    }
    assert forall|k: int| 0 <= k < params.len() implies (#[trigger] f.foreign_params[k]).ty
        != ForeignTypeView::ExceptionCallback by {
        assert(plans[k] == plans[k]);
    }
}

/// Where no input is converted, none is counted.
proof fn lemma_none_converted(mappings: Seq<MappingView>, n: int)
    requires
        forall|i: int| 0 <= i < n ==> (#[trigger] mappings[i]).marshaler is None,
    ensures
        converted_before(mappings, n) == 0,
    decreases n,
{
    if n > 0 {
        lemma_none_converted(mappings, n - 1);
    }
}

/// Whether a function is generated for an item of an impl.
pub open spec fn yields_function(item: ImplItemView) -> bool {
    item matches ImplItemView::Method(m) && m.is_eligible()
}

/// Two sequences of one length, such that `f` yields something of an element
/// of the second exactly where `p` holds of the element of the first in its
/// place: `f` yields as many values as `p` keeps elements.
proof fn lemma_filter_map_len<A, B, C>(
    s: Seq<A>,
    t: Seq<B>,
    p: spec_fn(A) -> bool,
    f: spec_fn(B) -> Option<C>,
)
    requires
        s.len() == t.len(),
        forall|i: int| 0 <= i < s.len() ==> (p(#[trigger] s[i]) <==> f(t[i]) is Some),
    ensures
        t.filter_map(f).len() == s.filter(p).len(),
    decreases s.len(),
{
    reveal(Seq::filter);
    if s.len() > 0 {
        let i = s.len() - 1;
        assert(p(s[i]) <==> f(t[i]) is Some);
        assert forall|j: int| 0 <= j < s.drop_last().len() implies (p(
            #[trigger] s.drop_last()[j],
        ) <==> f(t.drop_last()[j]) is Some) by {
            assert(s.drop_last()[j] == s[j]);
        }
        lemma_filter_map_len(s.drop_last(), t.drop_last(), p, f);
    }
}

/// The expansion of an impl holds exactly one destructor, whatever the
/// number of eligible methods: its first function is the destructor of the
/// self type, and the others, one for each eligible method, call their
/// method.
pub proof fn law_one_destructor(registry: RegistryView, prefix: Seq<char>, item: ItemImplView)
    requires
        expansion_with_prefix(registry, prefix, item) is Ok,
    ensures
        ({
            let x = expansion_with_prefix(registry, prefix, item)->Ok_0;
            &&& x.functions.len() == 1 + item.items.filter(
                |i: ImplItemView| yields_function(i),
            ).len()
            &&& x.functions[0] == destructor_of(prefix, item.self_ty)
            &&& x.functions[0].body.action is Release
            &&& forall|k: int|
                1 <= k < x.functions.len() ==> (#[trigger] x.functions[k]).body.action is Call
        }),
{
    let steps = item_outcomes(registry, prefix, item);
    lemma_collect(steps);
    let outcomes = collect(steps)->Ok_0;
    let pick = |o: ItemOutcome| o.function;
    let x = expansion_with_prefix(registry, prefix, item)->Ok_0;
    let methods = outcomes.filter_map(pick);
    assert(x.functions == seq![destructor_of(prefix, item.self_ty)] + methods);
    assert forall|i: int| 0 <= i < item.items.len() implies (yields_function(
        #[trigger] item.items[i],
    ) <==> pick(outcomes[i]) is Some) by {
        assert(steps[i] == Ok::<ItemOutcome, ErrorView>(outcomes[i]));
    }
    lemma_filter_map_len(item.items, outcomes, |i: ImplItemView| yields_function(i), pick);
    assert forall|k: int| 1 <= k < x.functions.len() implies (
    #[trigger] x.functions[k]).body.action is Call by {
        let d = x.functions[k];
        assert(d == methods[k - 1]);
        assert(methods.contains(d));
        outcomes.lemma_filter_map_contains(pick, d);
        let j = choose|j: int| 0 <= j < outcomes.len() && pick(outcomes[j]) == Some(d);
        assert(steps[j] == Ok::<ItemOutcome, ErrorView>(outcomes[j]));
    }
}

/// Two expansions of one declaration with one registry and the same
/// parameters are the same: both are errors of the same value, or both hold
/// the same generated functions.
pub proof fn law_expansion_is_repeatable(
    registry: RegistryView,
    params: InvokeParamsView,
    item: ItemView,
    first: Result<Expansion, Error>,
    second: Result<Expansion, Error>,
)
    requires
        result_view(first) == expansion(registry, params, item),
        result_view(second) == expansion(registry, params, item),
    ensures
        result_view(first) == result_view(second),
        first is Ok <==> second is Ok,
{
}

} // verus!
