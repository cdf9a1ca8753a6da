//! The names of generated functions.

use heck::ToSnakeCase;
use vstd::prelude::*;

verus! {

/// The snake case form of a text, as `heck` computes it.
pub uninterp spec fn snake_case(text: Seq<char>) -> Seq<char>;

/// `heck::ToSnakeCase::to_snake_case` on a string slice. The conversion
/// depends on the text alone; the contract only gives its result a name.
#[verifier::external_body]
pub(crate) fn to_snake_case(text: &str) -> (r: String)
    ensures
        r@ == snake_case(text@),
{
    text.to_snake_case()
}

/// The text that two parts of a name make: the parts with an underscore
/// between them.
pub open spec fn joined(head: Seq<char>, tail: Seq<char>) -> Seq<char> {
    head + "_"@ + tail
}

/// The prefix of the functions generated from an impl: the snake case form
/// of the caller's prefix, empty if there is none, joined with the text of
/// the self type.
pub open spec fn impl_prefix(prefix: Option<Seq<char>>, self_ty: Seq<char>) -> Seq<char> {
    snake_case(
        joined(
            match prefix {
                Some(p) => p,
                None => Seq::empty(),
            },
            self_ty,
        ),
    )
}

/// The name of the function generated for the method `ident` of an impl
/// with this prefix.
pub open spec fn method_name(prefix: Seq<char>, ident: Seq<char>) -> Seq<char> {
    snake_case(joined(prefix, ident))
}

/// The name of the destructor of an impl with this prefix.
pub open spec fn destructor_name(prefix: Seq<char>) -> Seq<char> {
    prefix + "_free"@
}

/// The parts of a name with an underscore between them.
pub fn join(head: &str, tail: &str) -> (r: String)
    ensures
        r@ == joined(head@, tail@),
{
    String::from_str(head).concat("_").concat(tail)
}

/// The prefix of the functions generated from an impl.
pub fn derive_prefix(prefix: &Option<String>, self_ty: &str) -> (r: String)
    ensures
        r@ == impl_prefix(prefix.deep_view(), self_ty@),
{
    let joined = match prefix {
        Some(p) => join(p.as_str(), self_ty),
        None => {
            let j = join("", self_ty);
            proof {
                reveal_strlit("");
                assert(""@ =~= Seq::<char>::empty());
            }
            j
        },
    };
    to_snake_case(joined.as_str())
}

/// The name of the function generated for a method.
pub fn derive_method_name(prefix: &str, ident: &str) -> (r: String)
    ensures
        r@ == method_name(prefix@, ident@),
{
    to_snake_case(join(prefix, ident).as_str())
}

} // verus!
