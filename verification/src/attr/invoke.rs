//! The parameters of an expansion.

use crate::types::{Path, PathView};
use vstd::prelude::*;

verus! {

/// What the caller of the engine may set: a marshaler for the return value,
/// a prefix for the names of the functions generated from an impl, and
/// whether the result is delivered through a callback.
#[derive(Debug, PartialEq, Eq)]
pub struct InvokeParams {
    pub return_marshaler: Option<Path>,
    pub prefix: Option<String>,
    pub callback: bool,
}

/// The mathematical value of [`InvokeParams`].
pub struct InvokeParamsView {
    pub return_marshaler: Option<PathView>,
    pub prefix: Option<Seq<char>>,
    pub callback: bool,
}

impl DeepView for InvokeParams {
    type V = InvokeParamsView;

    open spec fn deep_view(&self) -> InvokeParamsView {
        InvokeParamsView {
            return_marshaler: self.return_marshaler.deep_view(),
            prefix: self.prefix.deep_view(),
            callback: self.callback,
        }
    }
}

impl View for InvokeParams {
    type V = InvokeParamsView;

    open spec fn view(&self) -> InvokeParamsView {
        self.deep_view()
    }
}

impl Default for InvokeParams {
    fn default() -> (r: InvokeParams)
        ensures
            r@ == (InvokeParamsView { return_marshaler: None, prefix: None, callback: false }),
    {
        InvokeParams { return_marshaler: None, prefix: None, callback: false }
    }
}

} // verus!
