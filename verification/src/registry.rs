//! The type registry: which local types cross the boundary unchanged, and
//! which marshaler converts each of the others by default.

use crate::deep::DeepClone;
use crate::types::{
    Path, PathSegment, PathSegmentView, PathView, TypeDescriptor, TypeShape, TypeView,
};
use vstd::prelude::*;

verus! {

/// The default marshaler of one local type.
#[derive(Debug, PartialEq, Eq)]
pub struct Entry {
    pub key: String,
    pub marshaler: Path,
}

/// The mathematical value of an [`Entry`].
pub struct EntryView {
    pub key: Seq<char>,
    pub marshaler: PathView,
}

impl DeepView for Entry {
    type V = EntryView;

    open spec fn deep_view(&self) -> EntryView {
        EntryView { key: self.key@, marshaler: self.marshaler@ }
    }
}

impl View for Entry {
    type V = EntryView;

    open spec fn view(&self) -> EntryView {
        self.deep_view()
    }
}

/// A registry: the passthrough types and the default marshalers, both keyed
/// by the text of the local type. No type is in both, and no type has two
/// default marshalers.
#[derive(Debug, PartialEq, Eq)]
pub struct Registry {
    passthrough: Vec<String>,
    defaults: Vec<Entry>,
}

/// The mathematical value of a [`Registry`].
pub struct RegistryView {
    pub passthrough: Seq<Seq<char>>,
    pub defaults: Seq<EntryView>,
}

impl RegistryView {
    /// Whether `key` has a default marshaler.
    pub open spec fn has_default(self, key: Seq<char>) -> bool {
        exists|i: int| 0 <= i < self.defaults.len() && #[trigger] self.defaults[i].key == key
    }

    /// No type is both passthrough and converted, and none has two default
    /// marshalers.
    pub open spec fn wf(self) -> bool {
        &&& forall|i: int, j: int|
            0 <= i < j < self.defaults.len() ==> #[trigger] self.defaults[i].key
                != #[trigger] self.defaults[j].key
        &&& forall|i: int|
            0 <= i < self.defaults.len() ==> !self.passthrough.contains(
                #[trigger] self.defaults[i].key,
            )
    }

    /// Whether a type crosses the boundary without conversion: a function
    /// pointer if it names a foreign calling convention, any other type if
    /// its text is in the passthrough set.
    pub open spec fn is_passthrough(self, ty: TypeView) -> bool {
        match ty.shape {
            TypeShape::BareFn { has_abi } => has_abi,
            _ => self.passthrough.contains(ty.text),
        }
    }

    /// The default marshaler of a type, if the registry has one.
    pub open spec fn default_marshaler(self, ty: TypeView) -> Option<PathView> {
        if self.has_default(ty.text) {
            Some(
                self.defaults[choose|i: int|
                    0 <= i < self.defaults.len() && #[trigger] self.defaults[i].key
                        == ty.text].marshaler,
            )
        } else {
            None
        }
    }

    /// The registry without any entry.
    pub open spec fn empty() -> RegistryView {
        RegistryView { passthrough: Seq::empty(), defaults: Seq::empty() }
    }

    /// This registry with one more passthrough type.
    pub open spec fn with_passthrough(self, key: Seq<char>) -> RegistryView {
        RegistryView { passthrough: self.passthrough.push(key), ..self }
    }

    /// This registry with one more default marshaler.
    pub open spec fn with_default(self, key: Seq<char>, marshaler: PathView) -> RegistryView {
        RegistryView { defaults: self.defaults.push(EntryView { key, marshaler }), ..self }
    }
}

impl DeepView for Registry {
    type V = RegistryView;

    closed spec fn deep_view(&self) -> RegistryView {
        RegistryView {
            passthrough: self.passthrough.deep_view(),
            defaults: self.defaults.deep_view(),
        }
    }
}

impl View for Registry {
    type V = RegistryView;

    closed spec fn view(&self) -> RegistryView {
        self.deep_view()
    }
}

impl Registry {
    #[verifier::type_invariant]
    spec fn inv(self) -> bool {
        self@.wf()
    }

    /// The registry without any entry.
    pub fn new() -> (r: Registry)
        ensures
            r@ == RegistryView::empty(),
            r@.wf(),
    {
        let r = Registry { passthrough: Vec::new(), defaults: Vec::new() };
        assert(r@.passthrough =~= Seq::empty());
        assert(r@.defaults =~= Seq::empty());
        r
    }

    /// The position of `key` among the passthrough types.
    fn find_passthrough(&self, key: &String) -> (r: Option<usize>)
        ensures
            match r {
                Some(i) => i < self@.passthrough.len() && self@.passthrough[i as int] == key@,
                None => !self@.passthrough.contains(key@),
            },
    {
        let mut i: usize = 0;
        while i < self.passthrough.len()
            invariant
                i <= self.passthrough.len(),
                forall|j: int| 0 <= j < i ==> self.passthrough[j]@ != key@,
            decreases self.passthrough.len() - i,
        {
            if self.passthrough[i] == *key {
                return Some(i);
            }
            i += 1;
        }
        None
    }

    /// The position of the default marshaler of `key`.
    fn find_default(&self, key: &String) -> (r: Option<usize>)
        ensures
            match r {
                Some(i) => i < self@.defaults.len() && self@.defaults[i as int].key == key@,
                None => !self@.has_default(key@),
            },
    {
        let mut i: usize = 0;
        while i < self.defaults.len()
            invariant
                i <= self.defaults.len(),
                forall|j: int| 0 <= j < i ==> self.defaults[j].key@ != key@,
            decreases self.defaults.len() - i,
        {
            if self.defaults[i].key == *key {
                return Some(i);
            }
            i += 1;
        }
        None
    }

    /// This registry with the type of this text as a passthrough type, or
    /// `None` where the type has a default marshaler.
    pub fn with_passthrough(self, key: &str) -> (r: Option<Registry>)
        ensures
            r is Some <==> !self@.has_default(key@),
            r matches Some(reg) ==> reg@ == if self@.passthrough.contains(key@) {
                self@
            } else {
                self@.with_passthrough(key@)
            },
    {
        proof {
            use_type_invariant(&self);
        }
        let key = String::from_str(key);
        if self.find_default(&key).is_some() {
            return None;
        }
        if self.find_passthrough(&key).is_some() {
            return Some(self);
        }
        let ghost before = self@;
        let Registry { mut passthrough, defaults } = self;
        passthrough.push(key);
        proof {
            let after = before.with_passthrough(key@);
            assert(passthrough.deep_view() =~= after.passthrough);
            assert forall|i: int| 0 <= i < after.defaults.len() implies !after.passthrough.contains(
                #[trigger] after.defaults[i].key,
            ) by {
                let k = after.defaults[i].key;
                assert(before.has_default(k));
                if after.passthrough.contains(k) {
                    let j = choose|j: int|
                        0 <= j < after.passthrough.len() && after.passthrough[j] == k;
                    if j < before.passthrough.len() {
                        assert(before.passthrough[j] == k);
                    }
                }
            }
        }
        Some(Registry { passthrough, defaults })
    }

    /// This registry with a default marshaler for the type of this text, or
    /// `None` where the type is a passthrough type or has a default marshaler
    /// already.
    pub fn with_default(self, key: &str, marshaler: Path) -> (r: Option<Registry>)
        ensures
            r is Some <==> !self@.has_default(key@) && !self@.passthrough.contains(key@),
            r matches Some(reg) ==> reg@ == self@.with_default(key@, marshaler@),
    {
        proof {
            use_type_invariant(&self);
        }
        let key = String::from_str(key);
        if self.find_default(&key).is_some() {
            return None;
        }
        if self.find_passthrough(&key).is_some() {
            return None;
        }
        let ghost before = self@;
        let ghost after = before.with_default(key@, marshaler@);
        let Registry { passthrough, mut defaults } = self;
        defaults.push(Entry { key, marshaler });
        proof {
            assert(defaults.deep_view() =~= after.defaults);
            assert forall|i: int, j: int| 0 <= i < j < after.defaults.len() implies (
            #[trigger] after.defaults[i].key) != (#[trigger] after.defaults[j].key) by {
                if j == before.defaults.len() {
                    assert(before.defaults[i].key == after.defaults[i].key);
                }
            }
        }
        Some(Registry { passthrough, defaults })
    }

    /// Whether a type crosses the boundary without conversion.
    pub fn is_passthrough_type(&self, ty: &TypeDescriptor) -> (r: bool)
        ensures
            r == self@.is_passthrough(ty@),
            self@.wf(),
    {
        proof {
            use_type_invariant(self);
        }
        match ty.shape {
            TypeShape::BareFn { has_abi } => has_abi,
            _ => self.find_passthrough(&ty.text).is_some(),
        }
    }

    /// The default marshaler of a type, if the registry has one.
    pub fn default_marshaler(&self, ty: &TypeDescriptor) -> (r: Option<Path>)
        ensures
            r.deep_view() == self@.default_marshaler(ty@),
            self@.wf(),
    {
        proof {
            use_type_invariant(self);
        }
        match self.find_default(&ty.text) {
            Some(i) => Some(self.defaults[i].marshaler.deep_clone()),
            None => None,
        }
    }
}

/// The types that cross the boundary unchanged by default: the unit type,
/// the integers, the floating-point numbers and `char`.
pub open spec fn standard_passthrough() -> Seq<Seq<char>> {
    seq![
        "()"@,
        "u8"@,
        "i8"@,
        "u16"@,
        "i16"@,
        "u32"@,
        "i32"@,
        "i64"@,
        "u64"@,
        "i128"@,
        "u128"@,
        "isize"@,
        "usize"@,
        "f32"@,
        "f64"@,
        "char"@,
    ]
}

/// The path `::cursed::BoolMarshaler`.
pub open spec fn bool_marshaler_path() -> PathView {
    PathView {
        leading_colon: true,
        segments: seq![
            PathSegmentView {
                ident: "cursed"@,
                arguments: Seq::empty(),
                first_type: None,
            },
            PathSegmentView {
                ident: "BoolMarshaler"@,
                arguments: Seq::empty(),
                first_type: None,
            },
        ],
    }
}

impl RegistryView {
    /// The default registry: the standard passthrough types, and the
    /// boolean marshaler for `bool`.
    pub open spec fn standard() -> RegistryView {
        RegistryView {
            passthrough: standard_passthrough(),
            defaults: seq![EntryView { key: "bool"@, marshaler: bool_marshaler_path() }],
        }
    }
}

/// No standard passthrough type is `bool`.
proof fn lemma_standard_disjoint()
    ensures
        !standard_passthrough().contains("bool"@),
{
    reveal_strlit("bool");
    reveal_strlit("()");
    reveal_strlit("u8");
    reveal_strlit("i8");
    reveal_strlit("u16");
    reveal_strlit("i16");
    reveal_strlit("u32");
    reveal_strlit("i32");
    reveal_strlit("i64");
    reveal_strlit("u64");
    reveal_strlit("i128");
    reveal_strlit("u128");
    reveal_strlit("isize");
    reveal_strlit("usize");
    reveal_strlit("f32");
    reveal_strlit("f64");
    reveal_strlit("char");
    let p = standard_passthrough();
    assert forall|j: int| 0 <= j < p.len() implies p[j] != "bool"@ by {
        if p[j].len() == 4 {
            assert(p[j][0] != 'b');
        }
    }
}

impl Registry {
    /// The default registry.
    pub fn standard() -> (r: Registry)
        ensures
            r@ == RegistryView::standard(),
    {
        let mut passthrough: Vec<String> = Vec::new();
        passthrough.push(String::from_str("()"));
        passthrough.push(String::from_str("u8"));
        passthrough.push(String::from_str("i8"));
        passthrough.push(String::from_str("u16"));
        passthrough.push(String::from_str("i16"));
        passthrough.push(String::from_str("u32"));
        passthrough.push(String::from_str("i32"));
        passthrough.push(String::from_str("i64"));
        passthrough.push(String::from_str("u64"));
        passthrough.push(String::from_str("i128"));
        passthrough.push(String::from_str("u128"));
        passthrough.push(String::from_str("isize"));
        passthrough.push(String::from_str("usize"));
        passthrough.push(String::from_str("f32"));
        passthrough.push(String::from_str("f64"));
        passthrough.push(String::from_str("char"));
        let mut segments: Vec<PathSegment> = Vec::new();
        segments.push(PathSegment::new("cursed"));
        segments.push(PathSegment::new("BoolMarshaler"));
        let marshaler = Path { leading_colon: true, segments };
        let mut defaults: Vec<Entry> = Vec::new();
        defaults.push(Entry { key: String::from_str("bool"), marshaler });
        proof {
            lemma_standard_disjoint();
            assert(passthrough.deep_view() =~= standard_passthrough());
            assert(marshaler@.segments =~= bool_marshaler_path().segments);
            assert(defaults.deep_view() =~= RegistryView::standard().defaults);
        }
        Registry { passthrough, defaults }
    }
}

} // verus!
