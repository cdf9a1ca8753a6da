//! Configuration errors: what went wrong, where, and the message for the user.

use crate::deep::DeepClone;
use vstd::prelude::*;

verus! {

/// The reason for which a declaration cannot be expanded.
#[derive(Clone, Copy, Debug, PartialEq, Eq, Structural)]
pub enum ErrorKind {
    /// A receiver in a signature that is expanded without a self type.
    NoSelfType,
    /// The self type of a method is not a path.
    InvalidSelfType,
    /// A marshal attribute names a function type with lifetimes.
    MarshalFnLifetimes,
    /// A marshal attribute names an unsafe function type.
    MarshalFnUnsafety,
    /// A marshal attribute names a function type with a calling convention.
    MarshalFnAbi,
    /// A marshal attribute names a variadic function type.
    MarshalFnVariadic,
    /// A marshal attribute names something other than a path.
    MarshalNotAPath,
    /// What a marshal attribute holds is not a type at all.
    MarshalSyntax,
    /// More than one marshal attribute on one parameter or method.
    ConflictingOverrides,
    /// A function pointer parameter without a foreign calling convention.
    NonExternFnParameter,
    /// A tuple parameter.
    TupleParameter,
    /// A parameter of a shape that has no foreign form.
    UnknownParameter,
    /// A type outside the passthrough set without a marshaler.
    NoMarshalerFound,
    /// A return type outside the passthrough set without a marshaler.
    NoMarshalerForReturn,
    /// A `default impl`.
    SpecialisedImpl,
    /// An `unsafe impl`.
    UnsafeImpl,
    /// An impl with generic parameters.
    GenericImpl,
    /// An impl of a trait.
    TraitImpl,
    /// An item that is neither a function nor an impl.
    UnsupportedItem,
}

/// The kind of part of a declaration that an error points at.
#[derive(Clone, Copy, Debug, PartialEq, Eq, Structural)]
pub enum Site {
    /// The declaration as a whole.
    Item,
    /// The `default` keyword of an impl.
    Defaultness,
    /// The `unsafe` keyword of an impl.
    Unsafety,
    /// The generic parameters of an impl.
    Generics,
    /// The trait that an impl implements.
    Trait,
    /// The self type of an impl.
    SelfType,
    /// An input of a signature.
    Input,
    /// A type.
    Type,
    /// An attribute.
    Attribute,
    /// The return type.
    ReturnType,
}

/// Where an error arose: the kind of site and, as far as they apply, the
/// position of the method among the items of an impl, of the input in its
/// signature and of the attribute in its list.
#[derive(Clone, Copy, Debug, PartialEq, Eq, Structural)]
pub struct Location {
    pub method: Option<usize>,
    pub input: Option<usize>,
    pub attribute: Option<usize>,
    pub site: Site,
}

/// A configuration error.
#[derive(Debug, PartialEq, Eq)]
pub struct Error {
    pub kind: ErrorKind,
    pub location: Location,
    pub message: String,
}

/// The mathematical value of an [`Error`].
pub struct ErrorView {
    pub kind: ErrorKind,
    pub location: Location,
    pub message: Seq<char>,
}

impl DeepView for Error {
    type V = ErrorView;

    open spec fn deep_view(&self) -> ErrorView {
        ErrorView { kind: self.kind, location: self.location, message: self.message@ }
    }
}

impl View for Error {
    type V = ErrorView;

    open spec fn view(&self) -> ErrorView {
        self.deep_view()
    }
}

impl DeepClone for Error {
    fn deep_clone(&self) -> (r: Self) {
        Error { kind: self.kind, location: self.location, message: self.message.clone() }
    }
}

/// The text that stands for each kind of error.
pub open spec fn kind_text(kind: ErrorKind) -> Seq<char> {
    match kind {
        ErrorKind::NoSelfType => "no self type found; using invoke wrong?"@,
        ErrorKind::InvalidSelfType => "not a valid self type path"@,
        ErrorKind::MarshalFnLifetimes => "Marshal fn may not have lifetimes"@,
        ErrorKind::MarshalFnUnsafety => "Marshal fn may not have unsafety"@,
        ErrorKind::MarshalFnAbi => "Marshal fn may not have abi"@,
        ErrorKind::MarshalFnVariadic => "Marshal fn may not have variadic"@,
        ErrorKind::MarshalNotAPath => "Must be a path"@,
        ErrorKind::MarshalSyntax => ""@,
        ErrorKind::ConflictingOverrides => "conflicting marshaler overrides"@,
        ErrorKind::NonExternFnParameter => "Non-extern-C fn parameters not supported"@,
        ErrorKind::TupleParameter => "Tuple parameters not supported"@,
        ErrorKind::UnknownParameter => "Unknown parameters not supported"@,
        ErrorKind::NoMarshalerFound => "no marshaler found for type"@,
        ErrorKind::NoMarshalerForReturn => "no marshaler found for return type "@,
        ErrorKind::SpecialisedImpl => "Does not support specialised impls"@,
        ErrorKind::UnsafeImpl => "Does not support unsafe impls"@,
        ErrorKind::GenericImpl => "Does not support generic impls"@,
        ErrorKind::TraitImpl => "Does not support trait impls"@,
        ErrorKind::UnsupportedItem => "Only supported on functions and impls"@,
    }
}

/// The location of a site that is not known to lie in a method, an input
/// or a list of attributes.
pub open spec fn at(site: Site) -> Location {
    Location { method: None, input: None, attribute: None, site }
}

impl ErrorView {
    /// The error of this kind at this site, with the kind's text as message.
    pub open spec fn new(kind: ErrorKind, site: Site) -> ErrorView {
        ErrorView { kind, location: at(site), message: kind_text(kind) }
    }

    /// The error of this kind at this site, whose message ends in `subject`.
    pub open spec fn about(kind: ErrorKind, site: Site, subject: Seq<char>) -> ErrorView {
        ErrorView { kind, location: at(site), message: kind_text(kind) + subject }
    }

    /// This error with `msg`, a colon and a space before its message.
    pub open spec fn context(self, msg: Seq<char>) -> ErrorView {
        ErrorView { message: msg + ": "@ + self.message, ..self }
    }

    /// This error at a site of another kind.
    pub open spec fn at_site(self, site: Site) -> ErrorView {
        ErrorView { location: Location { site, ..self.location }, ..self }
    }

    /// This error as one of the attribute at position `index` of a list.
    pub open spec fn in_attribute(self, index: usize) -> ErrorView {
        ErrorView { location: Location { attribute: Some(index), ..self.location }, ..self }
    }

    /// This error as one of the input at position `index` of a signature.
    pub open spec fn in_input(self, index: usize) -> ErrorView {
        ErrorView { location: Location { input: Some(index), ..self.location }, ..self }
    }

    /// This error as one of the method at position `index` of an impl.
    pub open spec fn in_method(self, index: usize) -> ErrorView {
        ErrorView { location: Location { method: Some(index), ..self.location }, ..self }
    }
}

/// The text that stands for a kind of error.
fn kind_message(kind: ErrorKind) -> (r: &'static str)
    ensures
        r@ == kind_text(kind),
{
    match kind {
        ErrorKind::NoSelfType => "no self type found; using invoke wrong?",
        ErrorKind::InvalidSelfType => "not a valid self type path",
        ErrorKind::MarshalFnLifetimes => "Marshal fn may not have lifetimes",
        ErrorKind::MarshalFnUnsafety => "Marshal fn may not have unsafety",
        ErrorKind::MarshalFnAbi => "Marshal fn may not have abi",
        ErrorKind::MarshalFnVariadic => "Marshal fn may not have variadic",
        ErrorKind::MarshalNotAPath => "Must be a path",
        ErrorKind::MarshalSyntax => "",
        ErrorKind::ConflictingOverrides => "conflicting marshaler overrides",
        ErrorKind::NonExternFnParameter => "Non-extern-C fn parameters not supported",
        ErrorKind::TupleParameter => "Tuple parameters not supported",
        ErrorKind::UnknownParameter => "Unknown parameters not supported",
        ErrorKind::NoMarshalerFound => "no marshaler found for type",
        ErrorKind::NoMarshalerForReturn => "no marshaler found for return type ",
        ErrorKind::SpecialisedImpl => "Does not support specialised impls",
        ErrorKind::UnsafeImpl => "Does not support unsafe impls",
        ErrorKind::GenericImpl => "Does not support generic impls",
        ErrorKind::TraitImpl => "Does not support trait impls",
        ErrorKind::UnsupportedItem => "Only supported on functions and impls",
    }
}

impl Error {
    /// The error of this kind at this site, with the kind's text as message.
    pub fn new(kind: ErrorKind, site: Site) -> (r: Error)
        ensures
            r@ == ErrorView::new(kind, site),
    {
        Error {
            kind,
            location: Location { method: None, input: None, attribute: None, site },
            message: String::from_str(kind_message(kind)),
        }
    }

    /// The error of this kind at this site, whose message ends in `subject`.
    pub fn about(kind: ErrorKind, site: Site, subject: &str) -> (r: Error)
        ensures
            r@ == ErrorView::about(kind, site, subject@),
    {
        Error {
            kind,
            location: Location { method: None, input: None, attribute: None, site },
            message: String::from_str(kind_message(kind)).concat(subject),
        }
    }

    /// This error at a site of another kind.
    pub fn at_site(self, site: Site) -> (r: Error)
        ensures
            r@ == self@.at_site(site),
    {
        let Location { method, input, attribute, site: _ } = self.location;
        Error {
            kind: self.kind,
            location: Location { method, input, attribute, site },
            message: self.message,
        }
    }

    /// This error as one of the attribute at position `index` of a list.
    pub fn in_attribute(self, index: usize) -> (r: Error)
        ensures
            r@ == self@.in_attribute(index),
    {
        let Location { method, input, attribute: _, site } = self.location;
        Error {
            kind: self.kind,
            location: Location { method, input, attribute: Some(index), site },
            message: self.message,
        }
    }

    /// This error as one of the input at position `index` of a signature.
    pub fn in_input(self, index: usize) -> (r: Error)
        ensures
            r@ == self@.in_input(index),
    {
        let Location { method, input: _, attribute, site } = self.location;
        Error {
            kind: self.kind,
            location: Location { method, input: Some(index), attribute, site },
            message: self.message,
        }
    }

    /// This error as one of the method at position `index` of an impl.
    pub fn in_method(self, index: usize) -> (r: Error)
        ensures
            r@ == self@.in_method(index),
    {
        let Location { method: _, input, attribute, site } = self.location;
        Error {
            kind: self.kind,
            location: Location { method: Some(index), input, attribute, site },
            message: self.message,
        }
    }

    /// The message for the user.
    pub fn to_string(&self) -> (r: String)
        ensures
            r@ == self@.message,
    {
        self.message.clone()
    }
}

/// Adding to an error the circumstances in which it arose.
pub trait ErrorExt<T>: Sized {
    /// The same result, where an error's message has `msg`, a colon and a
    /// space put before it.
    fn context(self, msg: &str) -> Result<T, Error>;
}

impl<T> ErrorExt<T> for Result<T, Error> {
    fn context(self, msg: &str) -> (r: Result<T, Error>)
        ensures
            match self {
                Ok(v) => r == Ok::<T, Error>(v),
                Err(e) => r is Err && r->Err_0@ == e@.context(msg@),
            },
    {
        match self {
            Ok(v) => Ok(v),
            Err(e) => {
                let message = String::from_str(msg).concat(": ").concat(e.message.as_str());
                proof {
                    assert(message@ =~= msg@ + ": "@ + e.message@);
                }
                Err(Error { kind: e.kind, location: e.location, message })
            },
        }
    }
}

} // verus!
