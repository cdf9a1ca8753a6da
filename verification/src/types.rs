//! Type descriptors and marshaler paths.

use crate::deep::DeepClone;
use vstd::prelude::*;

verus! {

/// Mutability of a raw pointer.
#[derive(Clone, Copy, Debug, PartialEq, Eq, Structural)]
pub enum PtrType {
    Mut,
    Const,
}

/// The syntactic shape of a local type.
#[derive(Clone, Copy, Debug, PartialEq, Eq, Structural)]
pub enum TypeShape {
    /// A nominal type named by a path, such as `u32` or `Cow<str>`.
    Path,
    /// A shared or mutable reference.
    Reference,
    /// A function pointer; `has_abi` tells whether it names a foreign calling convention.
    BareFn { has_abi: bool },
    /// The unit type.
    Unit,
    /// A tuple with at least one element.
    Tuple,
    /// A slice.
    Slice,
    /// A raw pointer.
    Pointer { kind: PtrType },
    /// Any other form of type: inferred, `impl Trait`, a macro, and so on.
    Other,
}

/// A local type: its shape and its normalized text, which is the key under
/// which registries know it.
#[derive(Debug, PartialEq, Eq)]
pub struct TypeDescriptor {
    pub shape: TypeShape,
    pub text: String,
}

/// The mathematical value of a [`TypeDescriptor`].
pub struct TypeView {
    pub shape: TypeShape,
    pub text: Seq<char>,
}

impl DeepView for TypeDescriptor {
    type V = TypeView;

    open spec fn deep_view(&self) -> TypeView {
        TypeView { shape: self.shape, text: self.text@ }
    }
}

impl View for TypeDescriptor {
    type V = TypeView;

    open spec fn view(&self) -> TypeView {
        self.deep_view()
    }
}

impl DeepClone for TypeDescriptor {
    fn deep_clone(&self) -> (r: Self) {
        TypeDescriptor { shape: self.shape, text: self.text.clone() }
    }
}

impl TypeView {
    /// Whether this is the boolean type.
    pub open spec fn is_bool(self) -> bool {
        self.shape == TypeShape::Path && self.text == "bool"@
    }
}

impl TypeDescriptor {
    /// A descriptor of the given shape and text.
    pub fn new(shape: TypeShape, text: &str) -> (r: TypeDescriptor)
        ensures
            r@ == (TypeView { shape, text: text@ }),
    {
        TypeDescriptor { shape, text: String::from_str(text) }
    }

    /// Whether this is the boolean type.
    pub fn is_bool(&self) -> (r: bool)
        ensures
            r == self@.is_bool(),
    {
        let b = String::from_str("bool");
        match self.shape {
            TypeShape::Path => self.text == b,
            _ => false,
        }
    }
}

/// One segment of a path: its identifier, the text of its generic arguments
/// (empty where it has none) and, where the first argument between angle
/// brackets is a type, that type.
#[derive(Debug, PartialEq, Eq)]
pub struct PathSegment {
    pub ident: String,
    pub arguments: String,
    pub first_type: Option<TypeDescriptor>,
}

/// The mathematical value of a [`PathSegment`].
pub struct PathSegmentView {
    pub ident: Seq<char>,
    pub arguments: Seq<char>,
    pub first_type: Option<TypeView>,
}

impl DeepView for PathSegment {
    type V = PathSegmentView;

    open spec fn deep_view(&self) -> PathSegmentView {
        PathSegmentView {
            ident: self.ident@,
            arguments: self.arguments@,
            first_type: self.first_type.deep_view(),
        }
    }
}

impl View for PathSegment {
    type V = PathSegmentView;

    open spec fn view(&self) -> PathSegmentView {
        self.deep_view()
    }
}

impl DeepClone for PathSegment {
    fn deep_clone(&self) -> (r: Self) {
        PathSegment {
            ident: self.ident.clone(),
            arguments: self.arguments.clone(),
            first_type: self.first_type.deep_clone(),
        }
    }
}

impl PathSegment {
    /// A segment without generic arguments.
    pub fn new(ident: &str) -> (r: PathSegment)
        ensures
            r@ == (PathSegmentView { ident: ident@, arguments: Seq::empty(), first_type: None }),
    {
        PathSegment { ident: String::from_str(ident), arguments: String::new(), first_type: None }
    }
}

/// A path that names a marshaler or a callable.
#[derive(Debug, PartialEq, Eq)]
pub struct Path {
    pub leading_colon: bool,
    pub segments: Vec<PathSegment>,
}

/// The mathematical value of a [`Path`].
pub struct PathView {
    pub leading_colon: bool,
    pub segments: Seq<PathSegmentView>,
}

impl DeepView for Path {
    type V = PathView;

    open spec fn deep_view(&self) -> PathView {
        PathView { leading_colon: self.leading_colon, segments: self.segments.deep_view() }
    }
}

impl View for Path {
    type V = PathView;

    open spec fn view(&self) -> PathView {
        self.deep_view()
    }
}

impl DeepClone for Path {
    fn deep_clone(&self) -> (r: Self) {
        Path { leading_colon: self.leading_colon, segments: self.segments.deep_clone() }
    }
}

/// The segments without generic arguments that these identifiers name.
pub open spec fn plain_segments(idents: Seq<Seq<char>>) -> Seq<PathSegmentView> {
    idents.map_values(
        |ident: Seq<char>| PathSegmentView { ident, arguments: Seq::empty(), first_type: None },
    )
}

impl Path {
    /// The path of these identifiers, none of which has generic arguments.
    pub fn plain(leading_colon: bool, idents: &[&str]) -> (r: Path)
        ensures
            r@ == (PathView {
                leading_colon,
                segments: plain_segments(idents@.map_values(|s: &str| s@)),
            }),
    {
        let mut segments: Vec<PathSegment> = Vec::new();
        let ghost names = idents@.map_values(|s: &str| s@);
        let mut i: usize = 0;
        while i < idents.len()
            invariant
                i <= idents.len(),
                names == idents@.map_values(|s: &str| s@),
                segments.len() == i,
                forall|j: int|
                    0 <= j < i ==> #[trigger] segments[j].deep_view() == plain_segments(names)[j],
            decreases idents.len() - i,
        {
            segments.push(PathSegment::new(idents[i]));
            i += 1;
        }
        let r = Path { leading_colon, segments };
        assert(r@.segments =~= plain_segments(names));
        r
    }
}

} // verus!
