//! The structure of a generated function: foreign types, parameters,
//! conversions and the way in which the result leaves.

use crate::deep::DeepClone;
use crate::syntax::{Attribute, AttributeView, ItemFn, ItemFnView};
use crate::types::{Path, PathView, PtrType, TypeDescriptor, TypeView};
use vstd::prelude::*;

verus! {

/// A type at the boundary.
#[derive(Debug, PartialEq, Eq)]
pub enum ForeignType {
    /// The local type itself, for a passthrough type.
    Local(TypeDescriptor),
    /// The one-byte integer that stands for a boolean.
    Byte,
    /// An opaque pointer.
    Pointer(PtrType),
    /// The type that a marshaler declares for its foreign input.
    InputOf(Path),
    /// The type that a marshaler declares for its foreign result.
    ReturnOf(Path),
    /// The optional callback that is told of a failed conversion.
    ExceptionCallback,
}

/// The mathematical value of a [`ForeignType`].
pub enum ForeignTypeView {
    Local(TypeView),
    Byte,
    Pointer(PtrType),
    InputOf(PathView),
    ReturnOf(PathView),
    ExceptionCallback,
}

impl DeepView for ForeignType {
    type V = ForeignTypeView;

    open spec fn deep_view(&self) -> ForeignTypeView {
        match self {
            ForeignType::Local(t) => ForeignTypeView::Local(t@),
            ForeignType::Byte => ForeignTypeView::Byte,
            ForeignType::Pointer(k) => ForeignTypeView::Pointer(*k),
            ForeignType::InputOf(p) => ForeignTypeView::InputOf(p@),
            ForeignType::ReturnOf(p) => ForeignTypeView::ReturnOf(p@),
            ForeignType::ExceptionCallback => ForeignTypeView::ExceptionCallback,
        }
    }
}

impl View for ForeignType {
    type V = ForeignTypeView;

    open spec fn view(&self) -> ForeignTypeView {
        self.deep_view()
    }
}

impl DeepClone for ForeignType {
    fn deep_clone(&self) -> (r: Self) {
        match self {
            ForeignType::Local(t) => ForeignType::Local(t.deep_clone()),
            ForeignType::Byte => ForeignType::Byte,
            ForeignType::Pointer(k) => ForeignType::Pointer(*k),
            ForeignType::InputOf(p) => ForeignType::InputOf(p.deep_clone()),
            ForeignType::ReturnOf(p) => ForeignType::ReturnOf(p.deep_clone()),
            ForeignType::ExceptionCallback => ForeignType::ExceptionCallback,
        }
    }
}

/// A parameter of a generated function.
#[derive(Debug, PartialEq, Eq)]
pub struct ForeignParam {
    pub attrs: Vec<Attribute>,
    pub name: String,
    pub ty: ForeignType,
}

/// The mathematical value of a [`ForeignParam`].
pub struct ForeignParamView {
    pub attrs: Seq<AttributeView>,
    pub name: Seq<char>,
    pub ty: ForeignTypeView,
}

impl DeepView for ForeignParam {
    type V = ForeignParamView;

    open spec fn deep_view(&self) -> ForeignParamView {
        ForeignParamView { attrs: self.attrs.deep_view(), name: self.name@, ty: self.ty@ }
    }
}

impl View for ForeignParam {
    type V = ForeignParamView;

    open spec fn view(&self) -> ForeignParamView {
        self.deep_view()
    }
}

impl DeepClone for ForeignParam {
    fn deep_clone(&self) -> (r: Self) {
        ForeignParam {
            attrs: self.attrs.deep_clone(),
            name: self.name.clone(),
            ty: self.ty.deep_clone(),
        }
    }
}

/// The value that a generated function returns where a conversion fails.
#[derive(Debug, PartialEq, Eq)]
pub enum DefaultValue {
    /// The default value of a foreign type.
    TypeDefault(ForeignType),
    /// The foreign default that a marshaler declares for its results.
    ForeignDefault(Path),
}

/// The mathematical value of a [`DefaultValue`].
pub enum DefaultValueView {
    TypeDefault(ForeignTypeView),
    ForeignDefault(PathView),
}

impl DeepView for DefaultValue {
    type V = DefaultValueView;

    open spec fn deep_view(&self) -> DefaultValueView {
        match self {
            DefaultValue::TypeDefault(t) => DefaultValueView::TypeDefault(t@),
            DefaultValue::ForeignDefault(p) => DefaultValueView::ForeignDefault(p@),
        }
    }
}

impl View for DefaultValue {
    type V = DefaultValueView;

    open spec fn view(&self) -> DefaultValueView {
        self.deep_view()
    }
}

impl DeepClone for DefaultValue {
    fn deep_clone(&self) -> (r: Self) {
        match self {
            DefaultValue::TypeDefault(t) => DefaultValue::TypeDefault(t.deep_clone()),
            DefaultValue::ForeignDefault(p) => DefaultValue::ForeignDefault(p.deep_clone()),
        }
    }
}

/// What a generated function does where a conversion fails: it tells the
/// exception callback, if the caller gave one, of the error; then, if
/// `returns`, it returns `value`, or nothing where there is no value.
#[derive(Debug, PartialEq, Eq)]
pub struct Throw {
    pub returns: bool,
    pub value: Option<DefaultValue>,
}

/// The mathematical value of a [`Throw`].
pub struct ThrowView {
    pub returns: bool,
    pub value: Option<DefaultValueView>,
}

impl DeepView for Throw {
    type V = ThrowView;

    open spec fn deep_view(&self) -> ThrowView {
        ThrowView { returns: self.returns, value: self.value.deep_view() }
    }
}

impl View for Throw {
    type V = ThrowView;

    open spec fn view(&self) -> ThrowView {
        self.deep_view()
    }
}

impl DeepClone for Throw {
    fn deep_clone(&self) -> (r: Self) {
        Throw { returns: self.returns, value: self.value.deep_clone() }
    }
}

/// A call of a marshaler's `from_foreign` on the value named `name`, which
/// yields the converted value or throws.
#[derive(Debug, PartialEq, Eq)]
pub struct TryNotNull {
    pub marshaler: Path,
    pub name: String,
    pub throw: Throw,
}

/// The mathematical value of a [`TryNotNull`].
pub struct TryNotNullView {
    pub marshaler: PathView,
    pub name: Seq<char>,
    pub throw: ThrowView,
}

impl DeepView for TryNotNull {
    type V = TryNotNullView;

    open spec fn deep_view(&self) -> TryNotNullView {
        TryNotNullView { marshaler: self.marshaler@, name: self.name@, throw: self.throw@ }
    }
}

impl View for TryNotNull {
    type V = TryNotNullView;

    open spec fn view(&self) -> TryNotNullView {
        self.deep_view()
    }
}

impl DeepClone for TryNotNull {
    fn deep_clone(&self) -> (r: Self) {
        TryNotNull {
            marshaler: self.marshaler.deep_clone(),
            name: self.name.clone(),
            throw: self.throw.deep_clone(),
        }
    }
}

/// The conversion of one argument: the name is bound anew, at the local
/// type, to what the attempt yields.
#[derive(Debug, PartialEq, Eq)]
pub struct Conversion {
    pub name: String,
    pub local_type: TypeDescriptor,
    pub attempt: TryNotNull,
}

/// The mathematical value of a [`Conversion`].
pub struct ConversionView {
    pub name: Seq<char>,
    pub local_type: TypeView,
    pub attempt: TryNotNullView,
}

impl DeepView for Conversion {
    type V = ConversionView;

    open spec fn deep_view(&self) -> ConversionView {
        ConversionView { name: self.name@, local_type: self.local_type@, attempt: self.attempt@ }
    }
}

impl View for Conversion {
    type V = ConversionView;

    open spec fn view(&self) -> ConversionView {
        self.deep_view()
    }
}

impl DeepClone for Conversion {
    fn deep_clone(&self) -> (r: Self) {
        Conversion {
            name: self.name.clone(),
            local_type: self.local_type.deep_clone(),
            attempt: self.attempt.deep_clone(),
        }
    }
}

/// The callable that a generated function invokes.
#[derive(Debug, PartialEq, Eq)]
pub enum Callee {
    /// The function of this name, which the generated function holds.
    Function(String),
    /// The method `ident` of the type `self_ty`.
    Method { self_ty: TypeDescriptor, ident: String },
}

/// The mathematical value of a [`Callee`].
pub enum CalleeView {
    Function(Seq<char>),
    Method { self_ty: TypeView, ident: Seq<char> },
}

impl DeepView for Callee {
    type V = CalleeView;

    open spec fn deep_view(&self) -> CalleeView {
        match self {
            Callee::Function(name) => CalleeView::Function(name@),
            Callee::Method { self_ty, ident } => CalleeView::Method {
                self_ty: self_ty@,
                ident: ident@,
            },
        }
    }
}

impl View for Callee {
    type V = CalleeView;

    open spec fn view(&self) -> CalleeView {
        self.deep_view()
    }
}

impl DeepClone for Callee {
    fn deep_clone(&self) -> (r: Self) {
        match self {
            Callee::Function(name) => Callee::Function(name.clone()),
            Callee::Method { self_ty, ident } => Callee::Method {
                self_ty: self_ty.deep_clone(),
                ident: ident.clone(),
            },
        }
    }
}

/// How the result of the call leaves a generated function.
#[derive(Debug, PartialEq, Eq)]
pub enum Delivery {
    /// The call is a statement: there is no result.
    Discard,
    /// The result of the call is returned as it is.
    Direct,
    /// If the caller gave a result callback, the original logic is called and
    /// its result handed, as it is, to the callback.
    DirectCallback,
    /// The result is converted by the marshaler's `to_foreign` and returned;
    /// on failure the function throws.
    Converted { marshaler: Path, throw: Throw },
    /// The original logic is called. If the caller gave a result callback,
    /// the result is converted by the marshaler's `to_foreign` and handed to
    /// it; on failure the function throws.
    ConvertedCallback { marshaler: Path, throw: Throw },
}

/// The mathematical value of a [`Delivery`].
pub enum DeliveryView {
    Discard,
    Direct,
    DirectCallback,
    Converted { marshaler: PathView, throw: ThrowView },
    ConvertedCallback { marshaler: PathView, throw: ThrowView },
}

impl DeepView for Delivery {
    type V = DeliveryView;

    open spec fn deep_view(&self) -> DeliveryView {
        match self {
            Delivery::Discard => DeliveryView::Discard,
            Delivery::Direct => DeliveryView::Direct,
            Delivery::DirectCallback => DeliveryView::DirectCallback,
            Delivery::Converted { marshaler, throw } => DeliveryView::Converted {
                marshaler: marshaler@,
                throw: throw@,
            },
            Delivery::ConvertedCallback { marshaler, throw } => DeliveryView::ConvertedCallback {
                marshaler: marshaler@,
                throw: throw@,
            },
        }
    }
}

impl View for Delivery {
    type V = DeliveryView;

    open spec fn view(&self) -> DeliveryView {
        self.deep_view()
    }
}

/// The signature of a generated function: its name, its parameters in
/// order, the type of the result callback that follows them in callback
/// mode, and the type that it returns.
#[derive(Debug, PartialEq, Eq)]
pub struct ForeignSignature {
    pub name: String,
    pub params: Vec<ForeignParam>,
    pub result_callback: Option<ForeignType>,
    pub output: Option<ForeignType>,
}

/// The mathematical value of a [`ForeignSignature`].
pub struct ForeignSignatureView {
    pub name: Seq<char>,
    pub params: Seq<ForeignParamView>,
    pub result_callback: Option<ForeignTypeView>,
    pub output: Option<ForeignTypeView>,
}

impl DeepView for ForeignSignature {
    type V = ForeignSignatureView;

    open spec fn deep_view(&self) -> ForeignSignatureView {
        ForeignSignatureView {
            name: self.name@,
            params: self.params.deep_view(),
            result_callback: self.result_callback.deep_view(),
            output: self.output.deep_view(),
        }
    }
}

impl View for ForeignSignature {
    type V = ForeignSignatureView;

    open spec fn view(&self) -> ForeignSignatureView {
        self.deep_view()
    }
}

/// What a generated function does once its arguments are converted.
#[derive(Debug, PartialEq, Eq)]
pub enum Action {
    /// It calls the original logic with the arguments of these names and
    /// delivers the result.
    Call { callee: Callee, args: Vec<String>, delivery: Delivery },
    /// It lets the converted value go out of scope, which frees it, and
    /// notes that the handle must not be used again.
    Release,
}

/// The mathematical value of an [`Action`].
pub enum ActionView {
    Call { callee: CalleeView, args: Seq<Seq<char>>, delivery: DeliveryView },
    Release,
}

impl DeepView for Action {
    type V = ActionView;

    open spec fn deep_view(&self) -> ActionView {
        match self {
            Action::Call { callee, args, delivery } => ActionView::Call {
                callee: callee@,
                args: args.deep_view(),
                delivery: delivery@,
            },
            Action::Release => ActionView::Release,
        }
    }
}

impl View for Action {
    type V = ActionView;

    open spec fn view(&self) -> ActionView {
        self.deep_view()
    }
}

/// The body of a generated function: the conversions of the arguments in
/// order, the original function where the generated one holds it, and the
/// action.
#[derive(Debug, PartialEq, Eq)]
pub struct Body {
    pub conversions: Vec<Conversion>,
    pub original: Option<ItemFn>,
    pub action: Action,
}

/// The mathematical value of a [`Body`].
pub struct BodyView {
    pub conversions: Seq<ConversionView>,
    pub original: Option<ItemFnView>,
    pub action: ActionView,
}

impl DeepView for Body {
    type V = BodyView;

    open spec fn deep_view(&self) -> BodyView {
        BodyView {
            conversions: self.conversions.deep_view(),
            original: self.original.deep_view(),
            action: self.action@,
        }
    }
}

impl View for Body {
    type V = BodyView;

    open spec fn view(&self) -> BodyView {
        self.deep_view()
    }
}

/// A generated function.
#[derive(Debug, PartialEq, Eq)]
pub struct Declaration {
    pub signature: ForeignSignature,
    pub body: Body,
}

/// The mathematical value of a [`Declaration`].
pub struct DeclarationView {
    pub signature: ForeignSignatureView,
    pub body: BodyView,
}

impl DeepView for Declaration {
    type V = DeclarationView;

    open spec fn deep_view(&self) -> DeclarationView {
        DeclarationView { signature: self.signature@, body: self.body@ }
    }
}

impl View for Declaration {
    type V = DeclarationView;

    open spec fn view(&self) -> DeclarationView {
        self.deep_view()
    }
}

} // verus!
