//! The structure of the declarations that the engine expands: attributes,
//! parameters, signatures, functions and impl blocks.

use crate::deep::DeepClone;
use crate::types::{Path, PathView, TypeDescriptor, TypeView};
use vstd::prelude::*;

verus! {

/// What of a function pointer type a marshal attribute may not have.
#[derive(Clone, Copy, Debug, PartialEq, Eq, Structural)]
pub struct BareFnFlags {
    pub lifetimes: bool,
    pub unsafety: bool,
    pub abi: bool,
    pub variadic: bool,
}

/// What an attribute holds after its name, read as a type.
#[derive(Debug, PartialEq, Eq)]
pub enum AttrPayload {
    /// It is not a type; the text says why.
    Unparsable(String),
    /// A path between parentheses.
    Path(Path),
    /// A function pointer type between parentheses.
    BareFn(BareFnFlags),
    /// Any other type.
    Other,
}

/// The mathematical value of an [`AttrPayload`].
pub enum AttrPayloadView {
    Unparsable(Seq<char>),
    Path(PathView),
    BareFn(BareFnFlags),
    Other,
}

impl DeepView for AttrPayload {
    type V = AttrPayloadView;

    open spec fn deep_view(&self) -> AttrPayloadView {
        match self {
            AttrPayload::Unparsable(s) => AttrPayloadView::Unparsable(s@),
            AttrPayload::Path(p) => AttrPayloadView::Path(p@),
            AttrPayload::BareFn(f) => AttrPayloadView::BareFn(*f),
            AttrPayload::Other => AttrPayloadView::Other,
        }
    }
}

impl View for AttrPayload {
    type V = AttrPayloadView;

    open spec fn view(&self) -> AttrPayloadView {
        self.deep_view()
    }
}

impl DeepClone for AttrPayload {
    fn deep_clone(&self) -> (r: Self) {
        match self {
            AttrPayload::Unparsable(s) => AttrPayload::Unparsable(s.clone()),
            AttrPayload::Path(p) => AttrPayload::Path(p.deep_clone()),
            AttrPayload::BareFn(f) => AttrPayload::BareFn(*f),
            AttrPayload::Other => AttrPayload::Other,
        }
    }
}

/// An attribute: the first identifier of its path, its whole text, and what
/// it holds.
#[derive(Debug, PartialEq, Eq)]
pub struct Attribute {
    pub name: Option<String>,
    pub text: String,
    pub payload: AttrPayload,
}

/// The mathematical value of an [`Attribute`].
pub struct AttributeView {
    pub name: Option<Seq<char>>,
    pub text: Seq<char>,
    pub payload: AttrPayloadView,
}

impl DeepView for Attribute {
    type V = AttributeView;

    open spec fn deep_view(&self) -> AttributeView {
        AttributeView {
            name: self.name.deep_view(),
            text: self.text@,
            payload: self.payload@,
        }
    }
}

impl View for Attribute {
    type V = AttributeView;

    open spec fn view(&self) -> AttributeView {
        self.deep_view()
    }
}

impl DeepClone for Attribute {
    fn deep_clone(&self) -> (r: Self) {
        Attribute {
            name: self.name.deep_clone(),
            text: self.text.clone(),
            payload: self.payload.deep_clone(),
        }
    }
}

/// The receiver of a method: `self`, `&self` or `&mut self`.
#[derive(Debug, PartialEq, Eq)]
pub struct Receiver {
    pub attrs: Vec<Attribute>,
    pub reference: bool,
    pub lifetime: Option<String>,
    pub mutable: bool,
}

/// The mathematical value of a [`Receiver`].
pub struct ReceiverView {
    pub attrs: Seq<AttributeView>,
    pub reference: bool,
    pub lifetime: Option<Seq<char>>,
    pub mutable: bool,
}

impl DeepView for Receiver {
    type V = ReceiverView;

    open spec fn deep_view(&self) -> ReceiverView {
        ReceiverView {
            attrs: self.attrs.deep_view(),
            reference: self.reference,
            lifetime: self.lifetime.deep_view(),
            mutable: self.mutable,
        }
    }
}

impl View for Receiver {
    type V = ReceiverView;

    open spec fn view(&self) -> ReceiverView {
        self.deep_view()
    }
}

impl DeepClone for Receiver {
    fn deep_clone(&self) -> (r: Self) {
        Receiver {
            attrs: self.attrs.deep_clone(),
            reference: self.reference,
            lifetime: self.lifetime.deep_clone(),
            mutable: self.mutable,
        }
    }
}

/// A parameter with a pattern and a type.
#[derive(Debug, PartialEq, Eq)]
pub struct Param {
    pub attrs: Vec<Attribute>,
    pub pat: String,
    pub ty: TypeDescriptor,
}

/// The mathematical value of a [`Param`].
pub struct ParamView {
    pub attrs: Seq<AttributeView>,
    pub pat: Seq<char>,
    pub ty: TypeView,
}

impl DeepView for Param {
    type V = ParamView;

    open spec fn deep_view(&self) -> ParamView {
        ParamView { attrs: self.attrs.deep_view(), pat: self.pat@, ty: self.ty@ }
    }
}

impl View for Param {
    type V = ParamView;

    open spec fn view(&self) -> ParamView {
        self.deep_view()
    }
}

impl DeepClone for Param {
    fn deep_clone(&self) -> (r: Self) {
        Param {
            attrs: self.attrs.deep_clone(),
            pat: self.pat.clone(),
            ty: self.ty.deep_clone(),
        }
    }
}

/// One input of a signature.
#[derive(Debug, PartialEq, Eq)]
pub enum FnArg {
    Receiver(Receiver),
    Typed(Param),
}

/// The mathematical value of a [`FnArg`].
pub enum FnArgView {
    Receiver(ReceiverView),
    Typed(ParamView),
}

impl DeepView for FnArg {
    type V = FnArgView;

    open spec fn deep_view(&self) -> FnArgView {
        match self {
            FnArg::Receiver(r) => FnArgView::Receiver(r@),
            FnArg::Typed(p) => FnArgView::Typed(p@),
        }
    }
}

impl View for FnArg {
    type V = FnArgView;

    open spec fn view(&self) -> FnArgView {
        self.deep_view()
    }
}

impl DeepClone for FnArg {
    fn deep_clone(&self) -> (r: Self) {
        match self {
            FnArg::Receiver(r) => FnArg::Receiver(r.deep_clone()),
            FnArg::Typed(p) => FnArg::Typed(p.deep_clone()),
        }
    }
}

/// The signature of a function or method. `output` is `None` where no return
/// type is written.
#[derive(Debug, PartialEq, Eq)]
pub struct Signature {
    pub ident: String,
    pub inputs: Vec<FnArg>,
    pub output: Option<TypeDescriptor>,
    pub is_async: bool,
    pub is_unsafe: bool,
    pub has_abi: bool,
    pub has_generics: bool,
}

/// The mathematical value of a [`Signature`].
pub struct SignatureView {
    pub ident: Seq<char>,
    pub inputs: Seq<FnArgView>,
    pub output: Option<TypeView>,
    pub is_async: bool,
    pub is_unsafe: bool,
    pub has_abi: bool,
    pub has_generics: bool,
}

impl DeepView for Signature {
    type V = SignatureView;

    open spec fn deep_view(&self) -> SignatureView {
        SignatureView {
            ident: self.ident@,
            inputs: self.inputs.deep_view(),
            output: self.output.deep_view(),
            is_async: self.is_async,
            is_unsafe: self.is_unsafe,
            has_abi: self.has_abi,
            has_generics: self.has_generics,
        }
    }
}

impl View for Signature {
    type V = SignatureView;

    open spec fn view(&self) -> SignatureView {
        self.deep_view()
    }
}

impl DeepClone for Signature {
    fn deep_clone(&self) -> (r: Self) {
        Signature {
            ident: self.ident.clone(),
            inputs: self.inputs.deep_clone(),
            output: self.output.deep_clone(),
            is_async: self.is_async,
            is_unsafe: self.is_unsafe,
            has_abi: self.has_abi,
            has_generics: self.has_generics,
        }
    }
}

/// A free function or a method, without its body.
#[derive(Debug, PartialEq, Eq)]
pub struct ItemFn {
    pub attrs: Vec<Attribute>,
    pub is_public: bool,
    pub sig: Signature,
}

/// The mathematical value of an [`ItemFn`].
pub struct ItemFnView {
    pub attrs: Seq<AttributeView>,
    pub is_public: bool,
    pub sig: SignatureView,
}

impl DeepView for ItemFn {
    type V = ItemFnView;

    open spec fn deep_view(&self) -> ItemFnView {
        ItemFnView { attrs: self.attrs.deep_view(), is_public: self.is_public, sig: self.sig@ }
    }
}

impl View for ItemFn {
    type V = ItemFnView;

    open spec fn view(&self) -> ItemFnView {
        self.deep_view()
    }
}

impl DeepClone for ItemFn {
    fn deep_clone(&self) -> (r: Self) {
        ItemFn {
            attrs: self.attrs.deep_clone(),
            is_public: self.is_public,
            sig: self.sig.deep_clone(),
        }
    }
}

/// An item of an impl block.
#[derive(Debug, PartialEq, Eq)]
pub enum ImplItem {
    Method(ItemFn),
    /// A constant, a type, a macro.
    Other,
}

/// The mathematical value of an [`ImplItem`].
pub enum ImplItemView {
    Method(ItemFnView),
    Other,
}

impl DeepView for ImplItem {
    type V = ImplItemView;

    open spec fn deep_view(&self) -> ImplItemView {
        match self {
            ImplItem::Method(m) => ImplItemView::Method(m@),
            ImplItem::Other => ImplItemView::Other,
        }
    }
}

impl View for ImplItem {
    type V = ImplItemView;

    open spec fn view(&self) -> ImplItemView {
        self.deep_view()
    }
}

impl DeepClone for ImplItem {
    fn deep_clone(&self) -> (r: Self) {
        match self {
            ImplItem::Method(m) => ImplItem::Method(m.deep_clone()),
            ImplItem::Other => ImplItem::Other,
        }
    }
}

/// An impl block.
#[derive(Debug, PartialEq, Eq)]
pub struct ItemImpl {
    pub is_default: bool,
    pub is_unsafe: bool,
    pub has_generics: bool,
    pub is_trait: bool,
    pub self_ty: TypeDescriptor,
    pub items: Vec<ImplItem>,
}

/// The mathematical value of an [`ItemImpl`].
pub struct ItemImplView {
    pub is_default: bool,
    pub is_unsafe: bool,
    pub has_generics: bool,
    pub is_trait: bool,
    pub self_ty: TypeView,
    pub items: Seq<ImplItemView>,
}

impl DeepView for ItemImpl {
    type V = ItemImplView;

    open spec fn deep_view(&self) -> ItemImplView {
        ItemImplView {
            is_default: self.is_default,
            is_unsafe: self.is_unsafe,
            has_generics: self.has_generics,
            is_trait: self.is_trait,
            self_ty: self.self_ty@,
            items: self.items.deep_view(),
        }
    }
}

impl View for ItemImpl {
    type V = ItemImplView;

    open spec fn view(&self) -> ItemImplView {
        self.deep_view()
    }
}

/// A declaration handed to the engine.
#[derive(Debug, PartialEq, Eq)]
pub enum Item {
    Fn(ItemFn),
    Impl(ItemImpl),
    /// Anything else.
    Other,
}

/// The mathematical value of an [`Item`].
pub enum ItemView {
    Fn(ItemFnView),
    Impl(ItemImplView),
    Other,
}

impl DeepView for Item {
    type V = ItemView;

    open spec fn deep_view(&self) -> ItemView {
        match self {
            Item::Fn(f) => ItemView::Fn(f@),
            Item::Impl(i) => ItemView::Impl(i@),
            Item::Other => ItemView::Other,
        }
    }
}

impl View for Item {
    type V = ItemView;

    open spec fn view(&self) -> ItemView {
        self.deep_view()
    }
}

} // verus!
