//! Marshaler references: the path of a marshaler and the types that it is
//! parameterized over.

use crate::deep::{result_view, DeepClone};
use crate::error::{Error, ErrorKind, ErrorView, Site};
use crate::registry::{Registry, RegistryView};
use crate::syntax::{AttrPayload, AttrPayloadView, Attribute, AttributeView, BareFnFlags};
use crate::types::{Path, PathSegment, PathSegmentView, PathView, TypeDescriptor, TypeView};
use vstd::prelude::*;

verus! {

/// What stands inside `#[marshal(...)]`: the path `place::Foo::<Bar>` is held
/// as the path itself together with the types `[Bar]`.
#[derive(Debug, PartialEq, Eq)]
pub struct MarshalAttr {
    pub path: Path,
    pub types: Vec<TypeDescriptor>,
}

/// The mathematical value of a [`MarshalAttr`].
pub struct MarshalAttrView {
    pub path: PathView,
    pub types: Seq<TypeView>,
}

impl DeepView for MarshalAttr {
    type V = MarshalAttrView;

    open spec fn deep_view(&self) -> MarshalAttrView {
        MarshalAttrView { path: self.path@, types: self.types.deep_view() }
    }
}

impl View for MarshalAttr {
    type V = MarshalAttrView;

    open spec fn view(&self) -> MarshalAttrView {
        self.deep_view()
    }
}

impl DeepClone for MarshalAttr {
    fn deep_clone(&self) -> (r: Self) {
        MarshalAttr { path: self.path.deep_clone(), types: self.types.deep_clone() }
    }
}

/// The path of the marshaler of opaque handles, `::cursed::BoxMarshaler`.
pub open spec fn box_marshaler_path() -> PathView {
    PathView {
        leading_colon: true,
        segments: seq![
            PathSegmentView { ident: "cursed"@, arguments: Seq::empty(), first_type: None },
            PathSegmentView { ident: "BoxMarshaler"@, arguments: Seq::empty(), first_type: None },
        ],
    }
}

impl MarshalAttrView {
    /// The marshaler of a method's receiver.
    pub open spec fn self_type() -> MarshalAttrView {
        MarshalAttrView { path: box_marshaler_path(), types: Seq::empty() }
    }

    /// The first type that the marshaler is parameterized over.
    pub open spec fn first_type(self) -> Option<TypeView> {
        if self.types.len() > 0 {
            Some(self.types[0])
        } else {
            None
        }
    }

    /// The marshaler named by a path: its types are, in order, the first
    /// generic argument of each segment where that argument is a type.
    pub open spec fn from_path(path: PathView) -> MarshalAttrView {
        MarshalAttrView {
            path,
            types: path.segments.filter_map(|s: PathSegmentView| s.first_type),
        }
    }

    /// The default marshaler of a type: the registry's, without types.
    pub open spec fn from_defaults_by_type(
        registry: RegistryView,
        ty: TypeView,
    ) -> Option<MarshalAttrView> {
        match registry.default_marshaler(ty) {
            Some(path) => Some(MarshalAttrView { path, types: Seq::empty() }),
            None => None,
        }
    }

    /// The default marshaler of a return type; none where no type is written.
    pub open spec fn from_defaults_by_return_type(
        registry: RegistryView,
        ty: Option<TypeView>,
    ) -> Option<MarshalAttrView> {
        match ty {
            Some(ty) => Self::from_defaults_by_type(registry, ty),
            None => None,
        }
    }

    /// What a function pointer type in a marshal attribute stands for: an
    /// error where it has lifetimes, is unsafe, names a calling convention
    /// or is variadic, tested in this order; else no marshaler.
    pub open spec fn from_bare_fn(flags: BareFnFlags) -> Result<Option<MarshalAttrView>, ErrorView> {
        if flags.lifetimes {
            Err(ErrorView::new(ErrorKind::MarshalFnLifetimes, Site::Attribute))
        } else if flags.unsafety {
            Err(ErrorView::new(ErrorKind::MarshalFnUnsafety, Site::Attribute))
        } else if flags.abi {
            Err(ErrorView::new(ErrorKind::MarshalFnAbi, Site::Attribute))
        } else if flags.variadic {
            Err(ErrorView::new(ErrorKind::MarshalFnVariadic, Site::Attribute))
        } else {
            Ok(None)
        }
    }

    /// What an attribute says about marshaling: nothing unless its name is
    /// `marshal`; then the marshaler named by the path that it holds, or an
    /// error where it holds no path.
    pub open spec fn from_attribute(attr: AttributeView) -> Result<
        Option<MarshalAttrView>,
        ErrorView,
    > {
        if attr.name != Some("marshal"@) {
            Ok(None)
        } else {
            match attr.payload {
                AttrPayloadView::Unparsable(msg) => Err(
                    ErrorView::about(ErrorKind::MarshalSyntax, Site::Attribute, msg),
                ),
                AttrPayloadView::Path(path) => Ok(Some(Self::from_path(path))),
                AttrPayloadView::BareFn(flags) => Self::from_bare_fn(flags),
                AttrPayloadView::Other => Err(
                    ErrorView::new(ErrorKind::MarshalNotAPath, Site::Attribute),
                ),
            }
        }
    }
}

/// The path of the marshaler of opaque handles.
pub fn box_marshaler() -> (r: Path)
    ensures
        r@ == box_marshaler_path(),
{
    let mut segments: Vec<PathSegment> = Vec::new();
    segments.push(PathSegment::new("cursed"));
    segments.push(PathSegment::new("BoxMarshaler"));
    let r = Path { leading_colon: true, segments };
    assert(r@.segments =~= box_marshaler_path().segments);
    r
}

impl MarshalAttr {
    /// The marshaler of a method's receiver.
    pub fn self_type() -> (r: Option<MarshalAttr>)
        ensures
            r.deep_view() == Some(MarshalAttrView::self_type()),
    {
        let r = MarshalAttr { path: box_marshaler(), types: Vec::new() };
        assert(r@.types =~= Seq::empty());
        Some(r)
    }

    /// The first type that the marshaler is parameterized over.
    pub fn first_type(&self) -> (r: Option<TypeDescriptor>)
        ensures
            r.deep_view() == self@.first_type(),
    {
        if self.types.len() > 0 {
            Some(self.types[0].deep_clone())
        } else {
            None
        }
    }

    /// The foreign return type that the marshaler's parameterization names.
    pub fn return_type(&self) -> (r: Option<TypeDescriptor>)
        ensures
            r.deep_view() == self@.first_type(),
    {
        self.first_type()
    }

    /// The default marshaler of a type.
    pub fn from_defaults_by_type(ty: &TypeDescriptor, registry: &Registry) -> (r: Option<
        MarshalAttr,
    >)
        ensures
            r.deep_view() == MarshalAttrView::from_defaults_by_type(registry@, ty@),
    {
        match registry.default_marshaler(ty) {
            Some(path) => {
                let r = MarshalAttr { path, types: Vec::new() };
                assert(r@.types =~= Seq::empty());
                Some(r)
            },
            None => None,
        }
    }

    /// The default marshaler of a return type.
    pub fn from_defaults_by_return_type(ty: &Option<TypeDescriptor>, registry: &Registry) -> (r:
        Option<MarshalAttr>)
        ensures
            r.deep_view() == MarshalAttrView::from_defaults_by_return_type(
                registry@,
                ty.deep_view(),
            ),
    {
        match ty {
            Some(ty) => Self::from_defaults_by_type(ty, registry),
            None => None,
        }
    }

    /// The marshaler named by a path.
    pub fn from_path(path: Path) -> (r: Result<Option<MarshalAttr>, Error>)
        ensures
            result_view(r) == Ok::<Option<MarshalAttrView>, ErrorView>(
                Some(MarshalAttrView::from_path(path@)),
            ),
    {
        let mut types: Vec<TypeDescriptor> = Vec::new();
        let ghost pick = |s: PathSegmentView| s.first_type;
        let mut i: usize = 0;
        assert(path@.segments.take(0).filter_map(pick) =~= Seq::empty());
        while i < path.segments.len()
            invariant
                i <= path.segments.len(),
                pick == |s: PathSegmentView| s.first_type,
                types.deep_view() == path@.segments.take(i as int).filter_map(pick),
            decreases path.segments.len() - i,
        {
            proof {
                path@.segments.lemma_filter_map_take_succ(pick, i as int);
            }
            let ghost before = types.deep_view();
            match &path.segments[i].first_type {
                Some(ty) => {
                    types.push(ty.deep_clone());
                    assert(types.deep_view() =~= before + seq![path@.segments[i as int].first_type->0]);
                },
                None => {},
            }
            i += 1;
        }
        assert(path@.segments.take(path.segments.len() as int) =~= path@.segments);
        Ok(Some(MarshalAttr { path, types }))
    }

    /// What a function pointer type in a marshal attribute stands for.
    fn from_bare_fn(flags: BareFnFlags) -> (r: Result<Option<MarshalAttr>, Error>)
        ensures
            result_view(r) == MarshalAttrView::from_bare_fn(flags),
    {
        if flags.lifetimes {
            Err(Error::new(ErrorKind::MarshalFnLifetimes, Site::Attribute))
        } else if flags.unsafety {
            Err(Error::new(ErrorKind::MarshalFnUnsafety, Site::Attribute))
        } else if flags.abi {
            Err(Error::new(ErrorKind::MarshalFnAbi, Site::Attribute))
        } else if flags.variadic {
            Err(Error::new(ErrorKind::MarshalFnVariadic, Site::Attribute))
        } else {
            Ok(None)
        }
    }

    /// What an attribute says about marshaling.
    pub fn from_attribute(attr: Attribute) -> (r: Result<Option<MarshalAttr>, Error>)
        ensures
            result_view(r) == MarshalAttrView::from_attribute(attr@),
    {
        let marshal = String::from_str("marshal");
        let named = match &attr.name {
            Some(name) => *name == marshal,
            None => false,
        };
        if !named {
            return Ok(None);
        }
        match attr.payload {
            AttrPayload::Unparsable(msg) => Err(
                Error::about(ErrorKind::MarshalSyntax, Site::Attribute, msg.as_str()),
            ),
            AttrPayload::Path(path) => Self::from_path(path),
            AttrPayload::BareFn(flags) => Self::from_bare_fn(flags),
            AttrPayload::Other => Err(Error::new(ErrorKind::MarshalNotAPath, Site::Attribute)),
        }
    }
}

} // verus!
