//! What a generated function does when it is called: the states that the
//! call passes through, what it does to the outside, and what it returns.

use crate::attr::marshal::MarshalAttrView;
use crate::attr::MappingView;
use crate::function::{function_default, FunctionView, InnerFnView};
use crate::laws::law_one_conversion_per_converted_parameter;
use crate::output::{ActionView, BodyView, DefaultValueView, DeliveryView, ThrowView};
use crate::registry::RegistryView;
use crate::return_type::ReturnTypeView;
use crate::syntax::FnArgView;
use vstd::prelude::*;

verus! {

/// A state of a call of a generated function.
pub enum State {
    Start,
    ConvertingArgs,
    Calling,
    ErrorOnArg,
    ConvertingReturn,
    ReturningDirect,
    ReturningForeign,
    ErrorOnReturn,
    End,
}

/// What a call does to the outside.
pub enum Effect {
    /// It tells the exception callback of an error.
    Report,
    /// It invokes the original logic.
    Invoke,
    /// It hands the result to the result callback.
    Deliver,
    /// It frees the value behind the handle.
    Release,
}

/// What a call returns.
pub enum Returned {
    /// No value.
    Nothing,
    /// A default value, after a failure.
    Default(DefaultValueView),
    /// The result of the original logic as it is.
    Direct,
    /// The foreign form of the result of the original logic.
    Foreign,
}

/// The circumstances of a call: the position among the conversions of the
/// first that fails, whether the conversion of the result fails, and which
/// callbacks the caller gave.
pub struct Circumstances {
    pub failing: Option<int>,
    pub result_fails: bool,
    pub exception_callback: bool,
    pub result_callback: bool,
}

/// The course of a call.
pub struct Course {
    pub states: Seq<State>,
    pub effects: Seq<Effect>,
    pub returned: Returned,
}

/// What a throw does to the outside: it reports to the exception callback,
/// if there is one.
pub open spec fn report(exception_callback: bool) -> Seq<Effect> {
    if exception_callback {
        seq![Effect::Report]
    } else {
        Seq::empty()
    }
}

/// What a call returns after a throw: the value of the throw if it returns
/// one, else nothing.
pub open spec fn thrown(throw: ThrowView) -> Returned {
    match throw.value {
        Some(v) => if throw.returns {
            Returned::Default(v)
        } else {
            Returned::Nothing
        },
        None => Returned::Nothing,
    }
}

/// The course of a call whose arguments are all converted.
pub open spec fn course_of_action(action: ActionView, c: Circumstances) -> Course {
    let entered = seq![State::Start, State::ConvertingArgs];
    match action {
        ActionView::Release => Course {
            states: entered + seq![State::End],
            effects: seq![Effect::Release],
            returned: Returned::Nothing,
        },
        ActionView::Call { delivery, .. } => match delivery {
            DeliveryView::Discard => Course {
                states: entered + seq![State::Calling, State::ReturningDirect, State::End],
                effects: seq![Effect::Invoke],
                returned: Returned::Nothing,
            },
            DeliveryView::Direct => Course {
                states: entered + seq![State::Calling, State::ReturningDirect, State::End],
                effects: seq![Effect::Invoke],
                returned: Returned::Direct,
            },
            DeliveryView::DirectCallback => if c.result_callback {
                Course {
                    states: entered + seq![State::Calling, State::ReturningDirect, State::End],
                    effects: seq![Effect::Invoke, Effect::Deliver],
                    returned: Returned::Nothing,
                }
            } else {
                Course { states: entered + seq![State::End], effects: Seq::empty(), returned: Returned::Nothing }
            },
            DeliveryView::Converted { throw, .. } => if c.result_fails {
                Course {
                    states: entered + seq![
                        State::Calling,
                        State::ConvertingReturn,
                        State::ErrorOnReturn,
                        State::End,
                    ],
                    effects: seq![Effect::Invoke] + report(c.exception_callback),
                    returned: thrown(throw),
                }
            } else {
                Course {
                    states: entered + seq![
                        State::Calling,
                        State::ConvertingReturn,
                        State::ReturningForeign,
                        State::End,
                    ],
                    effects: seq![Effect::Invoke],
                    returned: Returned::Foreign,
                }
            },
            DeliveryView::ConvertedCallback { throw, .. } => if !c.result_callback {
                Course {
                    states: entered + seq![State::Calling, State::End],
                    effects: seq![Effect::Invoke],
                    returned: Returned::Nothing,
                }
            } else if c.result_fails {
                Course {
                    states: entered + seq![
                        State::Calling,
                        State::ConvertingReturn,
                        State::ErrorOnReturn,
                        State::End,
                    ],
                    effects: seq![Effect::Invoke] + report(c.exception_callback),
                    returned: thrown(throw),
                }
            } else {
                Course {
                    states: entered + seq![
                        State::Calling,
                        State::ConvertingReturn,
                        State::ReturningForeign,
                        State::End,
                    ],
                    effects: seq![Effect::Invoke, Effect::Deliver],
                    returned: Returned::Nothing,
                }
            },
        },
    }
}

/// The course of a call of a function with this body. Where a conversion of
/// an argument fails, the call reports, returns what that conversion throws
/// and does nothing else; else it goes on to the action.
pub open spec fn course(body: BodyView, c: Circumstances) -> Course {
    match c.failing {
        Some(k) => if 0 <= k < body.conversions.len() {
            Course {
                states: seq![State::Start, State::ConvertingArgs, State::ErrorOnArg, State::End],
                effects: report(c.exception_callback),
                returned: thrown(body.conversions[k].attempt.throw),
            }
        } else {
            course_of_action(body.action, c)
        },
        None => course_of_action(body.action, c),
    }
}

/// The number of reports among some effects.
pub open spec fn reports(effects: Seq<Effect>) -> nat {
    effects.filter(|e: Effect| e is Report).len()
}

/// Whether something fails in a call of a function with this body.
pub open spec fn fails(body: BodyView, c: Circumstances) -> bool {
    ||| c.failing matches Some(k) && 0 <= k < body.conversions.len()
    ||| c.result_fails && (body.action matches ActionView::Call { delivery, .. } && (delivery
        is Converted || (delivery is ConvertedCallback && c.result_callback)))
}

/// Every call starts at `Start` and ends at `End`. The exception callback is
/// told of an error at most once, and exactly where something fails and the
/// caller gave the callback; nothing follows the report. The original logic
/// is not invoked where the conversion of an argument fails.
pub proof fn law_course(body: BodyView, c: Circumstances)
    ensures
        ({
            let run = course(body, c);
            &&& run.states.first() == State::Start
            &&& run.states.last() == State::End
            &&& reports(run.effects) <= 1
            &&& reports(run.effects) == 1 <==> fails(body, c) && c.exception_callback
            &&& reports(run.effects) == 1 ==> run.effects.last() is Report
            &&& (c.failing matches Some(k) && 0 <= k < body.conversions.len())
                ==> !run.effects.contains(Effect::Invoke) && !run.effects.contains(Effect::Deliver)
            &&& run.returned is Default ==> fails(body, c)
        }),
{
    reveal(Seq::filter);
    let run = course(body, c);
    let is_report = |e: Effect| e is Report;
    assert(Seq::<Effect>::empty().filter(is_report) =~= Seq::empty());
    Seq::<Effect>::empty().lemma_filter_push(Effect::Report, is_report);
    Seq::<Effect>::empty().lemma_filter_push(Effect::Invoke, is_report);
    Seq::<Effect>::empty().lemma_filter_push(Effect::Release, is_report);
    seq![Effect::Invoke].lemma_filter_push(Effect::Report, is_report);
    seq![Effect::Invoke].lemma_filter_push(Effect::Deliver, is_report);
    assert(seq![Effect::Report] =~= Seq::<Effect>::empty().push(Effect::Report));
    assert(seq![Effect::Invoke] =~= Seq::<Effect>::empty().push(Effect::Invoke));
    assert(seq![Effect::Release] =~= Seq::<Effect>::empty().push(Effect::Release));
    assert(seq![Effect::Invoke] + seq![Effect::Report] =~= seq![Effect::Invoke].push(
        Effect::Report,
    ));
    assert(seq![Effect::Invoke] + Seq::<Effect>::empty() =~= seq![Effect::Invoke]);
    assert(seq![Effect::Invoke, Effect::Deliver] =~= seq![Effect::Invoke].push(Effect::Deliver));
}

/// Where the conversion of an argument fails in a function that the engine
/// described, the call returns the default of the whole function, or nothing
/// if the function has none.
pub proof fn law_argument_failure_returns_function_default(
    registry: RegistryView,
    name: Seq<char>,
    params: Seq<FnArgView>,
    mappings: Seq<MappingView>,
    return_type: ReturnTypeView,
    inner_fn: InnerFnView,
    fn_marshal_attr: Option<MarshalAttrView>,
    has_callback: bool,
    c: Circumstances,
)
    requires
        FunctionView::new(
            registry,
            name,
            params,
            mappings,
            return_type,
            inner_fn,
            fn_marshal_attr,
            has_callback,
        ) matches Ok(f) && f.build_inner_block() is Ok && (c.failing matches Some(k) && 0 <= k
            < f.from_foreigns.len()),
    ensures
        ({
            let f = FunctionView::new(
                registry,
                name,
                params,
                mappings,
                return_type,
                inner_fn,
                fn_marshal_attr,
                has_callback,
            )->Ok_0;
            let run = course(f.build_inner_block()->Ok_0, c);
            run.returned == match function_default(
                f.return_marshaler,
                f.return_type.foreign,
                has_callback,
            ) {
                Some(v) => Returned::Default(v),
                None => Returned::Nothing,
            }
        }),
{
    law_one_conversion_per_converted_parameter(
        registry,
        name,
        params,
        mappings,
        return_type,
        inner_fn,
        fn_marshal_attr,
        has_callback,
    );
}

} // verus!
