//! Marshaling attributes and the mapping of each parameter.

pub mod invoke;
pub mod marshal;

use crate::attr::marshal::{MarshalAttr, MarshalAttrView};
use crate::deep::{collect, lemma_collect_failed, lemma_collect_step, result_view, DeepClone};
use crate::error::{Error, ErrorKind, ErrorView, Site};
use crate::registry::{Registry, RegistryView};
use crate::syntax::{
    Attribute, AttributeView, FnArg, FnArgView, Param, ParamView, Receiver, ReceiverView,
    Signature, SignatureView,
};
use crate::types::{TypeDescriptor, TypeShape, TypeView};
use vstd::prelude::*;

verus! {

/// How a method holds the value behind its handle.
#[derive(Clone, Copy, Debug, PartialEq, Eq, Structural)]
pub enum Ownership {
    /// `self`: the method consumes the value.
    Owned,
    /// `&self`.
    Borrowed,
    /// `&mut self`.
    MutBorrowed,
}

/// The mapping of one parameter: the local type that the original logic
/// takes, the marshaler that produces it (none for a passthrough type), and
/// for a receiver how it holds the value.
#[derive(Debug, PartialEq, Eq)]
pub struct Mapping {
    pub output_type: TypeDescriptor,
    pub marshaler: Option<MarshalAttr>,
    pub receiver: Option<Ownership>,
}

/// The mathematical value of a [`Mapping`].
pub struct MappingView {
    pub output_type: TypeView,
    pub marshaler: Option<MarshalAttrView>,
    pub receiver: Option<Ownership>,
}

impl DeepView for Mapping {
    type V = MappingView;

    open spec fn deep_view(&self) -> MappingView {
        MappingView {
            output_type: self.output_type@,
            marshaler: self.marshaler.deep_view(),
            receiver: self.receiver,
        }
    }
}

impl View for Mapping {
    type V = MappingView;

    open spec fn view(&self) -> MappingView {
        self.deep_view()
    }
}

impl DeepClone for Mapping {
    fn deep_clone(&self) -> (r: Self) {
        Mapping {
            output_type: self.output_type.deep_clone(),
            marshaler: self.marshaler.deep_clone(),
            receiver: self.receiver,
        }
    }
}

/// The text of a reference to the type of text `target`.
pub open spec fn reference_text(
    lifetime: Option<Seq<char>>,
    mutable: bool,
    target: Seq<char>,
) -> Seq<char> {
    "& "@ + (match lifetime {
        Some(l) => l + " "@,
        None => Seq::empty(),
    }) + (if mutable {
        "mut "@
    } else {
        Seq::empty()
    }) + target
}

impl ReceiverView {
    /// How the receiver holds the value.
    pub open spec fn ownership(self) -> Ownership {
        if !self.reference {
            Ownership::Owned
        } else if self.mutable {
            Ownership::MutBorrowed
        } else {
            Ownership::Borrowed
        }
    }
}

impl MappingView {
    /// The mapping of a receiver in an impl of `parent`: the self type, or a
    /// reference to it, from the marshaler of opaque handles. An error where
    /// `parent` is not a path.
    pub open spec fn self_type(receiver: ReceiverView, parent: TypeView) -> Result<
        MappingView,
        ErrorView,
    > {
        if parent.shape != TypeShape::Path {
            Err(ErrorView::new(ErrorKind::InvalidSelfType, Site::SelfType))
        } else {
            Ok(
                MappingView {
                    output_type: if receiver.reference {
                        TypeView {
                            shape: TypeShape::Reference,
                            text: reference_text(receiver.lifetime, receiver.mutable, parent.text),
                        }
                    } else {
                        parent
                    },
                    marshaler: Some(MarshalAttrView::self_type()),
                    receiver: Some(receiver.ownership()),
                },
            )
        }
    }

    /// Whether the parameter crosses the boundary without conversion.
    pub open spec fn is_passthrough(self) -> bool {
        self.marshaler is None
    }
}

impl Mapping {
    /// The mapping of a receiver in an impl of `parent`.
    pub fn self_type(receiver: &Receiver, parent: &TypeDescriptor) -> (r: Result<Mapping, Error>)
        ensures
            result_view(r) == MappingView::self_type(receiver@, parent@),
    {
        match parent.shape {
            TypeShape::Path => {},
            _ => {
                return Err(Error::new(ErrorKind::InvalidSelfType, Site::SelfType));
            },
        }
        let output_type = if receiver.reference {
            let mut text = String::from_str("& ");
            match &receiver.lifetime {
                Some(l) => {
                    text.append(l.as_str());
                    text.append(" ");
                },
                None => {},
            }
            if receiver.mutable {
                text.append("mut ");
            }
            text.append(parent.text.as_str());
            proof {
                assert(text@ =~= reference_text(
                    receiver@.lifetime,
                    receiver@.mutable,
                    parent@.text,
                ));
            }
            TypeDescriptor { shape: TypeShape::Reference, text }
        } else {
            parent.deep_clone()
        };
        let ownership = if !receiver.reference {
            Ownership::Owned
        } else if receiver.mutable {
            Ownership::MutBorrowed
        } else {
            Ownership::Borrowed
        };
        Ok(Mapping { output_type, marshaler: MarshalAttr::self_type(), receiver: Some(ownership) })
    }
}

/// What each attribute of a list says about marshaling, an error being
/// located at the attribute's position.
pub open spec fn attribute_steps(attrs: Seq<AttributeView>) -> Seq<
    Result<Option<MarshalAttrView>, ErrorView>,
> {
    Seq::new(
        attrs.len(),
        |i: int|
            match MarshalAttrView::from_attribute(attrs[i]) {
                Ok(m) => Ok(m),
                Err(e) => Err(e.in_attribute(i as usize)),
            },
    )
}

/// The marshaler that an attribute names, if it names one.
pub open spec fn named_marshaler(attr: AttributeView) -> Option<MarshalAttrView> {
    match MarshalAttrView::from_attribute(attr) {
        Ok(m) => m,
        Err(_) => None,
    }
}

/// Whether an attribute says nothing about marshaling, and so stays where
/// it is.
pub open spec fn is_kept(attr: AttributeView) -> bool {
    MarshalAttrView::from_attribute(attr) matches Ok(None)
}

/// The marshalers that the attributes of a list name, in order.
pub open spec fn overrides(attrs: Seq<AttributeView>) -> Seq<MarshalAttrView> {
    attrs.filter_map(|a: AttributeView| named_marshaler(a))
}

/// The attributes of a list that say nothing about marshaling, in order.
pub open spec fn drained(attrs: Seq<AttributeView>) -> Seq<AttributeView> {
    attrs.filter(|a: AttributeView| is_kept(a))
}

/// The marshaler that a list of attributes names: the error of the first
/// attribute that is in error; else an error where more than one attribute
/// names a marshaler; else the marshaler named, if any.
pub open spec fn drain_result(attrs: Seq<AttributeView>) -> Result<
    Option<MarshalAttrView>,
    ErrorView,
> {
    match collect(attribute_steps(attrs)) {
        Err(e) => Err(e),
        Ok(_) => {
            let found = overrides(attrs);
            if found.len() > 1 {
                Err(ErrorView::new(ErrorKind::ConflictingOverrides, Site::Attribute))
            } else if found.len() == 1 {
                Ok(Some(found[0]))
            } else {
                Ok(None)
            }
        },
    }
}

/// Takes the marshal attributes out of a list and returns the marshaler that
/// they name. On an error the list is left as it was.
pub fn drain_marshal_attrs(attrs: &mut Vec<Attribute>) -> (r: Result<Option<MarshalAttr>, Error>)
    ensures
        result_view(r) == drain_result(old(attrs).deep_view()),
        final(attrs).deep_view() == if r is Ok {
            drained(old(attrs).deep_view())
        } else {
            old(attrs).deep_view()
        },
{
    let ghost all = attrs.deep_view();
    let ghost steps = attribute_steps(all);
    let ghost pick = |a: AttributeView| named_marshaler(a);
    let ghost keep = |a: AttributeView| is_kept(a);
    let mut kept: Vec<Attribute> = Vec::new();
    let mut found: Vec<MarshalAttr> = Vec::new();
    let ghost mut seen: Seq<Option<MarshalAttrView>> = Seq::empty();
    let mut i: usize = 0;
    proof {
        assert(all.take(0).filter_map(pick) =~= Seq::empty());
        assert(all.take(0) =~= Seq::empty());
        assert(all.take(0).filter(keep) =~= Seq::empty()) by {
            reveal(Seq::filter);
        }
        assert(steps.take(0) =~= Seq::empty());
    }
    while i < attrs.len()
        invariant
            i <= attrs.len(),
            all == attrs.deep_view(),
            steps == attribute_steps(all),
            pick == |a: AttributeView| named_marshaler(a),
            keep == |a: AttributeView| is_kept(a),
            collect(steps.take(i as int)) == Ok::<_, ErrorView>(seen),
            found.deep_view() == all.take(i as int).filter_map(pick),
            kept.deep_view() == all.take(i as int).filter(keep),
        decreases attrs.len() - i,
    {
        proof {
            lemma_collect_step(steps, i as int, seen);
            all.lemma_filter_map_take_succ(pick, i as int);
            all.lemma_take_succ_push(i as int);
            all.take(i as int).lemma_filter_push(all[i as int], keep);
        }
        let ghost found_before = found.deep_view();
        let ghost kept_before = kept.deep_view();
        match MarshalAttr::from_attribute(attrs[i].deep_clone()) {
            Ok(None) => {
                kept.push(attrs[i].deep_clone());
                proof {
                    seen = seen.push(None);
                    assert(kept.deep_view() =~= kept_before.push(all[i as int]));
                }
            },
            Ok(Some(m)) => {
                proof {
                    seen = seen.push(Some(m@));
                }
                found.push(m);
                proof {
                    assert(found.deep_view() =~= found_before + seq![all[i as int]].filter_map(pick)) by {
                        Seq::lemma_filter_map_singleton(all[i as int], pick);
                    }
                }
            },
            Err(e) => {
                proof {
                    lemma_collect_failed(steps, i as int + 1, e@.in_attribute(i));
                }
                return Err(e.in_attribute(i));
            },
        }
        i += 1;
    }
    proof {
        assert(all.take(i as int) =~= all);
        assert(steps.take(i as int) =~= steps);
    }
    if found.len() > 1 {
        return Err(Error::new(ErrorKind::ConflictingOverrides, Site::Attribute));
    }
    let found = found.pop();
    *attrs = kept;
    Ok(found)
}

impl ParamView {
    /// This parameter without its marshal attributes.
    pub open spec fn drained(self) -> ParamView {
        ParamView { attrs: drained(self.attrs), ..self }
    }
}

impl FnArgView {
    /// The attributes of an input.
    pub open spec fn attrs(self) -> Seq<AttributeView> {
        match self {
            FnArgView::Receiver(r) => r.attrs,
            FnArgView::Typed(p) => p.attrs,
        }
    }

    /// This input without its marshal attributes.
    pub open spec fn drained(self) -> FnArgView {
        match self {
            FnArgView::Receiver(r) => FnArgView::Receiver(
                ReceiverView { attrs: drained(r.attrs), ..r },
            ),
            FnArgView::Typed(p) => FnArgView::Typed(p.drained()),
        }
    }

    /// This input as a signature holds it once its mappings are taken: a
    /// typed parameter without its marshal attributes, a receiver as it was.
    pub open spec fn mapped(self) -> FnArgView {
        match self {
            FnArgView::Receiver(_) => self,
            FnArgView::Typed(p) => FnArgView::Typed(p.drained()),
        }
    }

    /// The mapping of the input at position `index` of a signature. A
    /// receiver is mapped as a handle of the self type `parent`, and is an
    /// error without one. A typed parameter is mapped by the marshaler that
    /// its attributes name, else by the registry's default for its type,
    /// else by none.
    pub open spec fn mapping(
        self,
        registry: RegistryView,
        parent: Option<TypeView>,
        index: usize,
    ) -> Result<MappingView, ErrorView> {
        match self {
            FnArgView::Receiver(r) => match parent {
                Some(p) => match MappingView::self_type(r, p) {
                    Ok(m) => Ok(m),
                    Err(e) => Err(e.in_input(index)),
                },
                None => Err(ErrorView::new(ErrorKind::NoSelfType, Site::Input).in_input(index)),
            },
            FnArgView::Typed(p) => match drain_result(p.attrs) {
                Ok(named) => Ok(
                    MappingView {
                        output_type: p.ty,
                        marshaler: match named {
                            Some(m) => Some(m),
                            None => MarshalAttrView::from_defaults_by_type(registry, p.ty),
                        },
                        receiver: None,
                    },
                ),
                Err(e) => Err(e.in_input(index)),
            },
        }
    }
}

impl SignatureView {
    /// The mapping of each input, in order.
    pub open spec fn mapping_steps(self, registry: RegistryView, parent: Option<TypeView>) -> Seq<
        Result<MappingView, ErrorView>,
    > {
        Seq::new(self.inputs.len(), |i: int| self.inputs[i].mapping(registry, parent, i as usize))
    }

    /// The mappings of the inputs, or the error of the first input that has
    /// none.
    pub open spec fn mappings(self, registry: RegistryView, parent: Option<TypeView>) -> Result<
        Seq<MappingView>,
        ErrorView,
    > {
        collect(self.mapping_steps(registry, parent))
    }

    /// This signature once its mappings are taken.
    pub open spec fn mapped(self) -> SignatureView {
        SignatureView { inputs: self.inputs.map_values(|a: FnArgView| a.mapped()), ..self }
    }
}

impl Param {
    /// Takes the marshal attributes off the parameter and returns the
    /// marshaler that they name.
    pub fn drain_marshal_attrs(&mut self) -> (r: Result<Option<MarshalAttr>, Error>)
        ensures
            result_view(r) == drain_result(old(self)@.attrs),
            final(self)@ == if r is Ok {
                old(self)@.drained()
            } else {
                old(self)@
            },
    {
        drain_marshal_attrs(&mut self.attrs)
    }
}

impl FnArg {
    /// Takes the marshal attributes off the input and returns the marshaler
    /// that they name.
    pub fn drain_marshal_attrs(&mut self) -> (r: Result<Option<MarshalAttr>, Error>)
        ensures
            result_view(r) == drain_result(old(self)@.attrs()),
            final(self)@ == if r is Ok {
                old(self)@.drained()
            } else {
                old(self)@
            },
    {
        match self {
            FnArg::Receiver(receiver) => drain_marshal_attrs(&mut receiver.attrs),
            FnArg::Typed(typed) => drain_marshal_attrs(&mut typed.attrs),
        }
    }
}

impl Signature {
    /// Resolves the mapping of every input and takes the marshal attributes
    /// off the typed parameters. `parent_type` is the self type of the impl
    /// that holds the method, if any. On an error the signature is left as it
    /// was.
    pub fn drain_mappings(
        &mut self,
        parent_type: Option<&TypeDescriptor>,
        registry: &Registry,
    ) -> (r: Result<Vec<Mapping>, Error>)
        ensures
            result_view(r) == old(self)@.mappings(registry@, parent_type.deep_view()),
            final(self)@ == if r is Ok {
                old(self)@.mapped()
            } else {
                old(self)@
            },
    {
        let ghost sig = self@;
        let ghost parent = parent_type.deep_view();
        let ghost steps = sig.mapping_steps(registry@, parent);
        let ghost mapped = |a: FnArgView| a.mapped();
        let mut inputs: Vec<FnArg> = Vec::new();
        let mut mappings: Vec<Mapping> = Vec::new();
        let mut i: usize = 0;
        proof {
            assert(steps.take(0) =~= Seq::empty());
            assert(mappings.deep_view() =~= Seq::empty());
            assert(sig.inputs.take(0).map_values(mapped) =~= Seq::empty());
        }
        while i < self.inputs.len()
            invariant
                i <= self.inputs.len(),
                sig == self@,
                parent == parent_type.deep_view(),
                steps == sig.mapping_steps(registry@, parent),
                mapped == |a: FnArgView| a.mapped(),
                collect(steps.take(i as int)) == Ok::<_, ErrorView>(mappings.deep_view()),
                inputs.deep_view() == sig.inputs.take(i as int).map_values(mapped),
            decreases self.inputs.len() - i,
        {
            proof {
                lemma_collect_step(steps, i as int, mappings.deep_view());
                sig.inputs.lemma_map_take_succ(mapped, i as int);
            }
            let ghost inputs_before = inputs.deep_view();
            let ghost mappings_before = mappings.deep_view();
            let step = match self.inputs[i].deep_clone() {
                FnArg::Receiver(receiver) => {
                    let step = match parent_type {
                        Some(parent) => Mapping::self_type(&receiver, parent),
                        None => Err(Error::new(ErrorKind::NoSelfType, Site::Input)),
                    };
                    inputs.push(FnArg::Receiver(receiver));
                    step
                },
                FnArg::Typed(mut typed) => {
                    let step = match typed.drain_marshal_attrs() {
                        Ok(named) => {
                            let marshaler = match named {
                                Some(m) => Some(m),
                                None => MarshalAttr::from_defaults_by_type(&typed.ty, registry),
                            };
                            Ok(
                                Mapping {
                                    output_type: typed.ty.deep_clone(),
                                    marshaler,
                                    receiver: None,
                                },
                            )
                        },
                        Err(e) => Err(e),
                    };
                    inputs.push(FnArg::Typed(typed));
                    step
                },
            };
            match step {
                Ok(mapping) => {
                    mappings.push(mapping);
                    proof {
                        assert(mappings.deep_view() =~= mappings_before.push(mapping@));
                        assert(inputs.deep_view() =~= inputs_before.push(
                            sig.inputs[i as int].mapped(),
                        ));
                    }
                },
                Err(e) => {
                    proof {
                        lemma_collect_failed(steps, i as int + 1, e@.in_input(i));
                    }
                    return Err(e.in_input(i));
                },
            }
            i += 1;
        }
        proof {
            assert(steps.take(i as int) =~= steps);
            assert(sig.inputs.take(i as int) =~= sig.inputs);
        }
        self.inputs = inputs;
        Ok(mappings)
    }
}

} // verus!
