use cursed::attr::invoke::InvokeParams;
use cursed::attr::marshal::MarshalAttr;
use cursed::attr::{drain_marshal_attrs, Mapping, Ownership};
use cursed::call_fn::call_with_function;
use cursed::call_impl::{call_with_impl, destructor, expand_impl, expand_method, is_eligible};
use cursed::call_with;
use cursed::error::{Error, ErrorExt, ErrorKind, Site};
use cursed::ext::{ForeignArgExt, ForeignTypeExt};
use cursed::function::{gen_foreign, gen_throw, gen_try_not_null, to_string, Function, InnerFn};
use cursed::output::{
    Action, Callee, Declaration, DefaultValue, Delivery, ForeignParam, ForeignType, Throw,
};
use cursed::registry::Registry;
use cursed::return_type::ReturnType;
use cursed::syntax::{
    AttrPayload, Attribute, BareFnFlags, FnArg, ImplItem, Item, ItemFn, ItemImpl, Param, Receiver,
    Signature,
};
use cursed::types::{Path, PathSegment, PtrType, TypeDescriptor, TypeShape};
use cursed::Expansion;

fn path_type(text: &str) -> TypeDescriptor {
    TypeDescriptor::new(TypeShape::Path, text)
}

fn cursed_path(name: &str) -> Path {
    Path::plain(true, &["cursed", name])
}

fn local_path(name: &str) -> Path {
    Path::plain(false, &[name])
}

fn attribute(name: &str, payload: AttrPayload) -> Attribute {
    Attribute { name: Some(name.to_string()), text: format!("#[{}(..)]", name), payload }
}

fn marshal(path: Path) -> Attribute {
    attribute("marshal", AttrPayload::Path(path))
}

fn param(pat: &str, ty: TypeDescriptor) -> FnArg {
    FnArg::Typed(Param { attrs: vec![], pat: pat.to_string(), ty })
}

fn param_with(attrs: Vec<Attribute>, pat: &str, ty: TypeDescriptor) -> FnArg {
    FnArg::Typed(Param { attrs, pat: pat.to_string(), ty })
}

fn receiver(reference: bool, mutable: bool) -> Receiver {
    Receiver { attrs: vec![], reference, lifetime: None, mutable }
}

fn function(ident: &str, inputs: Vec<FnArg>, output: Option<TypeDescriptor>) -> ItemFn {
    ItemFn {
        attrs: vec![],
        is_public: false,
        sig: Signature {
            ident: ident.to_string(),
            inputs,
            output,
            is_async: false,
            is_unsafe: false,
            has_abi: false,
            has_generics: false,
        },
    }
}

fn public_method(ident: &str, inputs: Vec<FnArg>, output: Option<TypeDescriptor>) -> ItemFn {
    let mut item = function(ident, inputs, output);
    item.is_public = true;
    item
}

fn impl_of(self_ty: TypeDescriptor, methods: Vec<ItemFn>) -> ItemImpl {
    ItemImpl {
        is_default: false,
        is_unsafe: false,
        has_generics: false,
        is_trait: false,
        self_ty,
        items: methods.into_iter().map(ImplItem::Method).collect(),
    }
}

fn expand(params: InvokeParams, item: ItemFn, registry: &Registry) -> Result<Declaration, Error> {
    match call_with(params, Item::Fn(item), registry) {
        Ok(Expansion::Function(d)) => Ok(d),
        Ok(Expansion::Impl(_)) => panic!("a function expands to one function"),
        Err(e) => Err(e),
    }
}

fn plain_param(name: &str, ty: ForeignType) -> ForeignParam {
    ForeignParam { attrs: vec![], name: name.to_string(), ty }
}

fn exception() -> ForeignParam {
    plain_param("__exception", ForeignType::ExceptionCallback)
}

fn delivery(d: &Declaration) -> &Delivery {
    match &d.body.action {
        Action::Call { delivery, .. } => delivery,
        Action::Release => panic!("expected a call"),
    }
}

fn failure(item: ItemFn) -> Error {
    expand(InvokeParams::default(), item, &Registry::standard()).unwrap_err()
}

#[test]
fn boolean_parameter_without_result() {
    let d = expand(
        InvokeParams::default(),
        function("foo", vec![param("yes", path_type("bool"))], None),
        &Registry::standard(),
    )
    .unwrap();
    assert_eq!(d.signature.params, vec![plain_param("yes", ForeignType::Byte), exception()]);
    assert_eq!(d.signature.output, None);
    assert_eq!(d.body.conversions.len(), 1);
    assert_eq!(d.body.conversions[0].name, "yes");
    assert_eq!(d.body.conversions[0].local_type, path_type("bool"));
    assert_eq!(d.body.conversions[0].attempt.marshaler, cursed_path("BoolMarshaler"));
    assert_eq!(d.body.conversions[0].attempt.throw, Throw { returns: true, value: None });
    assert_eq!(*delivery(&d), Delivery::Discard);
}

#[test]
fn passthrough_parameter_and_result() {
    let d = expand(
        InvokeParams::default(),
        function("foo", vec![param("num", path_type("u32"))], Some(path_type("u32"))),
        &Registry::standard(),
    )
    .unwrap();
    assert_eq!(
        d.signature.params,
        vec![plain_param("num", ForeignType::Local(path_type("u32")))]
    );
    assert_eq!(d.signature.output, Some(ForeignType::Local(path_type("u32"))));
    assert!(d.body.conversions.is_empty());
    assert_eq!(*delivery(&d), Delivery::Direct);
}

#[test]
fn overrides_win_over_registry_defaults() {
    let registry = Registry::standard()
        .with_default("Thing", local_path("DefaultMarshaler"))
        .unwrap()
        .with_default("Out", local_path("DefaultOutMarshaler"))
        .unwrap();
    let d = expand(
        InvokeParams {
            return_marshaler: Some(local_path("OutMarshaler")),
            prefix: None,
            callback: false,
        },
        function(
            "foo",
            vec![
                param_with(vec![marshal(local_path("FirstMarshaler"))], "a", path_type("Thing")),
                param_with(vec![marshal(local_path("SecondMarshaler"))], "b", path_type("Thing")),
            ],
            Some(path_type("Out")),
        ),
        &registry,
    )
    .unwrap();
    let default = || Some(DefaultValue::ForeignDefault(local_path("OutMarshaler")));
    assert_eq!(
        d.signature.params,
        vec![
            plain_param("a", ForeignType::InputOf(local_path("FirstMarshaler"))),
            plain_param("b", ForeignType::InputOf(local_path("SecondMarshaler"))),
            exception(),
        ]
    );
    assert_eq!(d.signature.output, Some(ForeignType::ReturnOf(local_path("OutMarshaler"))));
    assert_eq!(d.body.conversions.len(), 2);
    assert_eq!(d.body.conversions[0].attempt.marshaler, local_path("FirstMarshaler"));
    assert_eq!(d.body.conversions[1].attempt.marshaler, local_path("SecondMarshaler"));
    for c in &d.body.conversions {
        assert_eq!(c.attempt.throw, Throw { returns: true, value: default() });
    }
    assert_eq!(
        *delivery(&d),
        Delivery::Converted {
            marshaler: local_path("OutMarshaler"),
            throw: Throw { returns: true, value: default() },
        }
    );
    // The marshal attributes are gone from the function that is held.
    let original = d.body.original.unwrap();
    assert_eq!(
        original.sig.inputs,
        vec![param("a", path_type("Thing")), param("b", path_type("Thing"))]
    );
}

#[test]
fn constructor_and_method_yield_three_functions() {
    let registry = Registry::standard();
    let mut new = public_method("new", vec![], Some(path_type("Something")));
    new.attrs = vec![marshal(cursed_path("BoxMarshaler"))];
    let value = public_method(
        "value",
        vec![FnArg::Receiver(receiver(true, false)), param("value", path_type("u8"))],
        None,
    );
    let x = call_with_impl(
        Some("ex".to_string()),
        impl_of(path_type("Something"), vec![new, value]),
        &registry,
    )
    .unwrap();
    let names: Vec<&str> = x.functions.iter().map(|d| d.signature.name.as_str()).collect();
    assert_eq!(names, vec!["ex_something_free", "ex_something_new", "ex_something_value"]);
    assert_eq!(x.functions.iter().filter(|d| d.body.action == Action::Release).count(), 1);
    let value = &x.functions[2];
    assert_eq!(
        value.signature.params,
        vec![
            plain_param("__handle", ForeignType::Pointer(PtrType::Const)),
            plain_param("value", ForeignType::Local(path_type("u8"))),
            exception(),
        ]
    );
}

#[test]
fn impl_without_eligible_method_yields_the_destructor_alone() {
    let registry = Registry::standard();
    let private = function("hidden", vec![], None);
    let mut generic = public_method("generic", vec![], None);
    generic.sig.has_generics = true;
    let mut later = public_method("later", vec![], None);
    later.sig.is_async = true;
    let mut risky = public_method("risky", vec![], None);
    risky.sig.is_unsafe = true;
    let mut foreign = public_method("foreign", vec![], None);
    foreign.sig.has_abi = true;
    for m in [&private, &generic, &later, &risky, &foreign] {
        assert!(!is_eligible(m));
    }
    assert!(is_eligible(&public_method("open", vec![], None)));
    let mut item = impl_of(path_type("Thing"), vec![private, generic, later, risky, foreign]);
    item.items.push(ImplItem::Other);
    let x = call_with_impl(None, item, &registry).unwrap();
    assert_eq!(x.functions.len(), 1);
    assert_eq!(x.functions[0], destructor("thing", &path_type("Thing")));
    assert_eq!(x.functions[0].signature.name, "thing_free");
    assert_eq!(x.item.items.len(), 6);

    let x = call_with_impl(None, impl_of(path_type("Thing"), vec![]), &registry).unwrap();
    assert_eq!(x.functions.len(), 1);
}

#[test]
fn expansion_is_repeatable() {
    let registry = Registry::standard();
    let item = || {
        let mut new = public_method("new", vec![param("b", path_type("bool"))], None);
        new.attrs = vec![attribute("doc", AttrPayload::Other)];
        impl_of(path_type("Thing"), vec![new])
    };
    let first = call_with(InvokeParams::default(), Item::Impl(item()), &registry);
    let second = call_with(InvokeParams::default(), Item::Impl(item()), &registry);
    assert!(first.is_ok());
    assert_eq!(first, second);
    let first = call_with(InvokeParams::default(), Item::Other, &registry);
    let second = call_with(InvokeParams::default(), Item::Other, &registry);
    assert_eq!(first, second);
}

#[test]
fn unsupported_item() {
    let err = call_with(InvokeParams::default(), Item::Other, &Registry::standard()).unwrap_err();
    assert_eq!(err.kind, ErrorKind::UnsupportedItem);
    assert_eq!(err.location.site, Site::Item);
    assert_eq!(err.to_string(), "Only supported on functions and impls");
}

#[test]
fn receiver_without_self_type() {
    let err = failure(function("foo", vec![FnArg::Receiver(receiver(true, false))], None));
    assert_eq!(err.kind, ErrorKind::NoSelfType);
    assert_eq!(err.location.site, Site::Input);
    assert_eq!(err.location.input, Some(0));
    assert_eq!(err.to_string(), "no self type found; using invoke wrong?");
}

#[test]
fn method_of_a_self_type_given_from_outside() {
    let registry = Registry::standard();
    let parent = path_type("Thing");
    let d = call_with_function(
        None,
        false,
        function("act", vec![FnArg::Receiver(receiver(false, false))], None),
        Some(&parent),
        &registry,
    )
    .unwrap();
    assert_eq!(
        d.signature.params,
        vec![plain_param("__handle", ForeignType::Pointer(PtrType::Mut)), exception()]
    );
    assert_eq!(d.body.conversions[0].local_type, path_type("Thing"));
}

#[test]
fn self_type_must_be_a_path() {
    let tuple = TypeDescriptor::new(TypeShape::Tuple, "(A , B)");
    let err = Mapping::self_type(&receiver(true, false), &tuple).unwrap_err();
    assert_eq!(err.kind, ErrorKind::InvalidSelfType);
    assert_eq!(err.to_string(), "not a valid self type path");

    let err = call_with_impl(None, impl_of(tuple, vec![]), &Registry::standard()).unwrap_err();
    assert_eq!(err.kind, ErrorKind::InvalidSelfType);
    assert_eq!(err.location.site, Site::SelfType);
}

#[test]
fn receiver_mappings() {
    let parent = path_type("Thing");
    let owned = Mapping::self_type(&receiver(false, true), &parent).unwrap();
    assert_eq!(owned.output_type, path_type("Thing"));
    assert_eq!(owned.receiver, Some(Ownership::Owned));
    assert_eq!(owned.marshaler.unwrap().path, cursed_path("BoxMarshaler"));

    let shared = Mapping::self_type(&receiver(true, false), &parent).unwrap();
    assert_eq!(shared.output_type, TypeDescriptor::new(TypeShape::Reference, "& Thing"));
    assert_eq!(shared.receiver, Some(Ownership::Borrowed));

    let exclusive = Mapping::self_type(
        &Receiver { attrs: vec![], reference: true, lifetime: Some("'a".to_string()), mutable: true },
        &parent,
    )
    .unwrap();
    assert_eq!(exclusive.output_type, TypeDescriptor::new(TypeShape::Reference, "& 'a mut Thing"));
    assert_eq!(exclusive.receiver, Some(Ownership::MutBorrowed));
    assert_eq!(MarshalAttr::self_type().unwrap().path, cursed_path("BoxMarshaler"));
}

#[test]
fn marshal_attribute_forms() {
    let flags = |lifetimes, unsafety, abi, variadic| {
        attribute("marshal", AttrPayload::BareFn(BareFnFlags { lifetimes, unsafety, abi, variadic }))
    };
    let cases = [
        (flags(true, true, true, true), ErrorKind::MarshalFnLifetimes, "Marshal fn may not have lifetimes"),
        (flags(false, true, true, true), ErrorKind::MarshalFnUnsafety, "Marshal fn may not have unsafety"),
        (flags(false, false, true, true), ErrorKind::MarshalFnAbi, "Marshal fn may not have abi"),
        (flags(false, false, false, true), ErrorKind::MarshalFnVariadic, "Marshal fn may not have variadic"),
        (attribute("marshal", AttrPayload::Other), ErrorKind::MarshalNotAPath, "Must be a path"),
        (
            attribute("marshal", AttrPayload::Unparsable("expected type".to_string())),
            ErrorKind::MarshalSyntax,
            "expected type",
        ),
    ];
    for (attr, kind, message) in cases {
        let err = MarshalAttr::from_attribute(attr).unwrap_err();
        assert_eq!(err.kind, kind);
        assert_eq!(err.location.site, Site::Attribute);
        assert_eq!(err.to_string(), message);
    }
    assert_eq!(MarshalAttr::from_attribute(flags(false, false, false, false)), Ok(None));
    // Only attributes called `marshal` are read.
    assert_eq!(
        MarshalAttr::from_attribute(attribute("doc", AttrPayload::Unparsable("x".to_string()))),
        Ok(None)
    );
    assert_eq!(
        MarshalAttr::from_attribute(Attribute {
            name: None,
            text: String::new(),
            payload: AttrPayload::Path(local_path("M")),
        }),
        Ok(None)
    );
    let attr = MarshalAttr::from_attribute(marshal(local_path("M"))).unwrap().unwrap();
    assert_eq!(attr.path, local_path("M"));
    assert!(attr.types.is_empty());
}

#[test]
fn marshaler_types_come_from_the_path() {
    let segment = |ident: &str, first: Option<&str>| PathSegment {
        ident: ident.to_string(),
        arguments: first.map(|t| format!(":: < {} >", t)).unwrap_or_default(),
        first_type: first.map(path_type),
    };
    let path = Path {
        leading_colon: false,
        segments: vec![segment("place", None), segment("Foo", Some("Bar")), segment("Baz", Some("Qux"))],
    };
    let attr = MarshalAttr::from_path(path).unwrap().unwrap();
    assert_eq!(attr.types, vec![path_type("Bar"), path_type("Qux")]);
    assert_eq!(attr.first_type(), Some(path_type("Bar")));
    assert_eq!(attr.return_type(), Some(path_type("Bar")));
    let attr = MarshalAttr::from_path(local_path("M")).unwrap().unwrap();
    assert_eq!(attr.first_type(), None);
    assert_eq!(attr.return_type(), None);
}

#[test]
fn draining_keeps_the_other_attributes() {
    let doc = || attribute("doc", AttrPayload::Other);
    let quiet = || {
        attribute(
            "marshal",
            AttrPayload::BareFn(BareFnFlags { lifetimes: false, unsafety: false, abi: false, variadic: false }),
        )
    };
    let mut attrs = vec![doc(), marshal(local_path("M")), quiet(), doc()];
    let found = drain_marshal_attrs(&mut attrs).unwrap().unwrap();
    assert_eq!(found.path, local_path("M"));
    assert_eq!(attrs, vec![doc(), quiet(), doc()]);

    let mut attrs = vec![doc()];
    assert_eq!(drain_marshal_attrs(&mut attrs), Ok(None));
    assert_eq!(attrs, vec![doc()]);
}

#[test]
fn conflicting_overrides() {
    let mut attrs = vec![marshal(local_path("M")), marshal(local_path("N"))];
    let err = drain_marshal_attrs(&mut attrs).unwrap_err();
    assert_eq!(err.kind, ErrorKind::ConflictingOverrides);
    assert_eq!(err.to_string(), "conflicting marshaler overrides");
    assert_eq!(attrs.len(), 2);

    let err = failure(function(
        "foo",
        vec![
            param("a", path_type("u8")),
            param_with(vec![marshal(local_path("M")), marshal(local_path("N"))], "b", path_type("T")),
        ],
        None,
    ));
    assert_eq!(err.kind, ErrorKind::ConflictingOverrides);
    assert_eq!(err.location.input, Some(1));
}

#[test]
fn first_attribute_in_error_is_reported() {
    let mut attrs = vec![
        attribute("doc", AttrPayload::Other),
        attribute("marshal", AttrPayload::Other),
        attribute("marshal", AttrPayload::Unparsable("later".to_string())),
    ];
    let err = drain_marshal_attrs(&mut attrs).unwrap_err();
    assert_eq!(err.kind, ErrorKind::MarshalNotAPath);
    assert_eq!(err.location.attribute, Some(1));
    assert_eq!(attrs.len(), 3);
}

#[test]
fn parameter_shapes_without_foreign_form() {
    let cases = [
        (
            TypeDescriptor::new(TypeShape::Tuple, "(u8 , u8)"),
            ErrorKind::TupleParameter,
            "failed to convert Rust type to FFI type: Tuple parameters not supported",
        ),
        (
            TypeDescriptor::new(TypeShape::Unit, "()"),
            ErrorKind::TupleParameter,
            "failed to convert Rust type to FFI type: Tuple parameters not supported",
        ),
        (
            TypeDescriptor::new(TypeShape::BareFn { has_abi: false }, "fn ()"),
            ErrorKind::NonExternFnParameter,
            "failed to convert Rust type to FFI type: Non-extern-C fn parameters not supported",
        ),
        (
            TypeDescriptor::new(TypeShape::Slice, "[u8]"),
            ErrorKind::UnknownParameter,
            "failed to convert Rust type to FFI type: Unknown parameters not supported",
        ),
        (
            TypeDescriptor::new(TypeShape::Pointer { kind: PtrType::Const }, "* const u8"),
            ErrorKind::UnknownParameter,
            "failed to convert Rust type to FFI type: Unknown parameters not supported",
        ),
        (
            TypeDescriptor::new(TypeShape::Other, "impl Trait"),
            ErrorKind::UnknownParameter,
            "failed to convert Rust type to FFI type: Unknown parameters not supported",
        ),
    ];
    for (ty, kind, message) in cases {
        let err = failure(function("foo", vec![param("ok", path_type("u8")), param("x", ty)], None));
        assert_eq!(err.kind, kind);
        assert_eq!(err.location.site, Site::Type);
        assert_eq!(err.location.input, Some(1));
        assert_eq!(err.to_string(), message);
    }
}

#[test]
fn foreign_forms_of_types() {
    let registry = Registry::standard();
    assert_eq!(path_type("bool").to_foreign_type(&registry), Ok(ForeignType::Byte));
    assert_eq!(
        path_type("i64").to_foreign_type(&registry),
        Ok(ForeignType::Local(path_type("i64")))
    );
    assert_eq!(
        path_type("Thing").to_foreign_type(&registry),
        Ok(ForeignType::Pointer(PtrType::Const))
    );
    let callback = TypeDescriptor::new(TypeShape::BareFn { has_abi: true }, "extern \"C\" fn ()");
    assert_eq!(
        callback.to_foreign_type(&registry),
        Ok(ForeignType::Local(TypeDescriptor::new(
            TypeShape::BareFn { has_abi: true },
            "extern \"C\" fn ()"
        )))
    );
    let err = TypeDescriptor::new(TypeShape::Tuple, "(u8 ,)").to_foreign_type(&registry).unwrap_err();
    assert_eq!(err.to_string(), "Tuple parameters not supported");
}

#[test]
fn foreign_forms_of_inputs() {
    let registry = Registry::standard();
    let typed = Param {
        attrs: vec![attribute("doc", AttrPayload::Other)],
        pat: "count".to_string(),
        ty: path_type("u16"),
    };
    let p = typed.to_foreign_param(&registry).unwrap();
    assert_eq!(p.name, "count");
    assert_eq!(p.ty, ForeignType::Local(path_type("u16")));
    assert_eq!(p.attrs.len(), 1);
    assert_eq!(typed.to_foreign_arg(), Ok("count".to_string()));

    let shared = receiver(true, false);
    assert_eq!(
        shared.to_foreign_param(&registry),
        Ok(plain_param("__handle", ForeignType::Pointer(PtrType::Const)))
    );
    assert_eq!(shared.to_foreign_arg(), Ok("__handle".to_string()));
    assert_eq!(
        FnArg::Receiver(receiver(true, true)).to_foreign_param(&registry),
        Ok(plain_param("__handle", ForeignType::Pointer(PtrType::Mut)))
    );
    assert_eq!(
        FnArg::Receiver(receiver(false, false)).to_foreign_param(&registry),
        Ok(plain_param("__handle", ForeignType::Pointer(PtrType::Mut)))
    );
}

#[test]
fn type_without_marshaler() {
    let err = failure(function("foo", vec![param("x", path_type("Thing"))], None));
    assert_eq!(err.kind, ErrorKind::NoMarshalerFound);
    assert_eq!(err.location.site, Site::Input);
    assert_eq!(err.location.input, Some(0));
    assert_eq!(err.to_string(), "no marshaler found for type");
}

#[test]
fn return_type_without_marshaler() {
    let err = failure(function("foo", vec![], Some(path_type("Thing"))));
    assert_eq!(err.kind, ErrorKind::NoMarshalerForReturn);
    assert_eq!(err.location.site, Site::ReturnType);
    assert_eq!(err.to_string(), "no marshaler found for return type Thing");

    let err = failure(function("foo", vec![], Some(TypeDescriptor::new(TypeShape::Tuple, "(u8 , u8)"))));
    assert_eq!(err.kind, ErrorKind::TupleParameter);
    assert_eq!(err.location.site, Site::ReturnType);
}

#[test]
fn unit_return_is_no_return() {
    let registry = Registry::new();
    let d = expand(
        InvokeParams::default(),
        function("foo", vec![], Some(TypeDescriptor::new(TypeShape::Unit, "()"))),
        &registry,
    )
    .unwrap();
    assert_eq!(d.signature.output, None);
    assert!(d.signature.params.is_empty());
    assert_eq!(*delivery(&d), Delivery::Discard);
    let unit = ReturnType::new(None, Some(TypeDescriptor::new(TypeShape::Unit, "()")), &registry).unwrap();
    assert_eq!(unit, ReturnType { local: None, foreign: None });
    assert_eq!(ReturnType::new(None, None, &registry).unwrap(), unit);
}

#[test]
fn return_type_resolution() {
    let registry = Registry::standard();
    let attr = MarshalAttr::from_path(local_path("M")).unwrap().unwrap();
    let plain = ReturnType::new(Some(&attr), Some(path_type("u64")), &registry).unwrap();
    assert_eq!(plain.local_type(), Some(path_type("u64")));
    assert_eq!(plain.foreign_type(), Some(ForeignType::Local(path_type("u64"))));
    assert_eq!(plain.foreign_ptr_type(), None);
    assert!(plain.is_passthrough(&registry));
    assert_eq!(plain.resolve_marshaler(Some(&attr), &registry), None);

    let converted = ReturnType::new(Some(&attr), Some(path_type("Thing")), &registry).unwrap();
    assert_eq!(converted.foreign_type(), Some(ForeignType::ReturnOf(local_path("M"))));
    assert!(!converted.is_passthrough(&registry));
    assert_eq!(converted.resolve_marshaler(Some(&attr), &registry), Some(local_path("M")));
    assert_eq!(converted.resolve_marshaler(None, &registry), None);

    let boolean = ReturnType::new(Some(&attr), Some(path_type("bool")), &registry).unwrap();
    assert_eq!(boolean.foreign_type(), Some(ForeignType::Byte));
}

#[test]
fn result_callback_mode() {
    let registry = Registry::standard();
    let params = || InvokeParams { return_marshaler: None, prefix: None, callback: true };
    let d = expand(
        params(),
        function("foo", vec![param("b", path_type("bool"))], Some(path_type("u32"))),
        &registry,
    )
    .unwrap();
    assert_eq!(d.signature.params, vec![plain_param("b", ForeignType::Byte), exception()]);
    assert_eq!(d.signature.result_callback, Some(ForeignType::Local(path_type("u32"))));
    assert_eq!(d.signature.output, None);
    assert_eq!(d.body.conversions[0].attempt.throw, Throw { returns: true, value: None });
    assert_eq!(*delivery(&d), Delivery::DirectCallback);

    let d = expand(params(), function("foo", vec![], Some(path_type("bool"))), &registry).unwrap();
    assert_eq!(d.signature.params, vec![exception()]);
    assert_eq!(d.signature.result_callback, Some(ForeignType::Byte));
    assert_eq!(d.signature.output, None);
    assert_eq!(
        *delivery(&d),
        Delivery::ConvertedCallback {
            marshaler: cursed_path("BoolMarshaler"),
            throw: Throw { returns: false, value: None },
        }
    );

    let d = expand(params(), function("foo", vec![], None), &registry).unwrap();
    assert_eq!(d.signature.result_callback, None);
    assert_eq!(*delivery(&d), Delivery::Discard);
}

#[test]
fn throws() {
    let value = || Some(DefaultValue::TypeDefault(ForeignType::Byte));
    assert_eq!(gen_throw(value(), false), Throw { returns: true, value: value() });
    assert_eq!(gen_throw(value(), true), Throw { returns: false, value: None });
    assert_eq!(gen_throw(None, false), Throw { returns: true, value: None });
    let attempt = gen_try_not_null(&local_path("M"), "x", value(), false);
    assert_eq!(attempt.marshaler, local_path("M"));
    assert_eq!(attempt.name, "x");
    assert_eq!(attempt.throw, Throw { returns: true, value: value() });
}

#[test]
fn conversion_returns_the_default_of_the_function() {
    let m = local_path("M");
    let out = local_path("Out");
    let ty = path_type("Thing");
    let pointer = ForeignType::ReturnOf(local_path("Out"));
    let number = ForeignType::Local(path_type("u32"));

    let c = gen_foreign(&m, "x", &ty, Some(&out), Some(&pointer), false);
    assert_eq!(c.name, "x");
    assert_eq!(c.local_type, path_type("Thing"));
    assert_eq!(
        c.attempt.throw,
        Throw { returns: true, value: Some(DefaultValue::ForeignDefault(local_path("Out"))) }
    );
    let c = gen_foreign(&m, "x", &ty, None, Some(&number), false);
    assert_eq!(
        c.attempt.throw,
        Throw {
            returns: true,
            value: Some(DefaultValue::TypeDefault(ForeignType::Local(path_type("u32")))),
        }
    );
    let c = gen_foreign(&m, "x", &ty, Some(&out), Some(&pointer), true);
    assert_eq!(c.attempt.throw, Throw { returns: true, value: None });
    let c = gen_foreign(&m, "x", &ty, None, None, false);
    assert_eq!(c.attempt.throw, Throw { returns: true, value: None });
}

#[test]
fn passthrough_result_with_converted_argument() {
    let d = expand(
        InvokeParams::default(),
        function("foo", vec![param("b", path_type("bool"))], Some(path_type("u32"))),
        &Registry::standard(),
    )
    .unwrap();
    assert_eq!(
        d.body.conversions[0].attempt.throw,
        Throw {
            returns: true,
            value: Some(DefaultValue::TypeDefault(ForeignType::Local(path_type("u32")))),
        }
    );
    assert_eq!(d.signature.params.last(), Some(&exception()));
    assert_eq!(*delivery(&d), Delivery::Direct);
}

#[test]
fn override_on_a_passthrough_type_converts() {
    let d = expand(
        InvokeParams::default(),
        function("foo", vec![param_with(vec![marshal(local_path("M"))], "n", path_type("u32"))], None),
        &Registry::standard(),
    )
    .unwrap();
    assert_eq!(
        d.signature.params,
        vec![plain_param("n", ForeignType::InputOf(local_path("M"))), exception()]
    );
    assert_eq!(d.body.conversions.len(), 1);
}

#[test]
fn wrapped_function_is_private_inlined_and_without_calling_convention() {
    let mut item = function("foo", vec![], None);
    item.is_public = true;
    item.sig.has_abi = true;
    item.attrs = vec![attribute("doc", AttrPayload::Other)];
    let d = expand(InvokeParams::default(), item, &Registry::standard()).unwrap();
    let original = d.body.original.unwrap();
    assert!(!original.is_public);
    assert!(!original.sig.has_abi);
    assert_eq!(original.attrs.len(), 2);
    assert_eq!(original.attrs[1].name, Some("inline".to_string()));
    assert_eq!(original.attrs[1].text, "#[inline(always)]");
}

#[test]
fn function_description() {
    let registry = Registry::standard();
    let params = vec![param("b", path_type("bool")), param("n", path_type("u8"))];
    let mappings = vec![
        Mapping {
            output_type: path_type("bool"),
            marshaler: MarshalAttr::from_defaults_by_type(&path_type("bool"), &registry),
            receiver: None,
        },
        Mapping { output_type: path_type("u8"), marshaler: None, receiver: None },
    ];
    let f = Function::new(
        "wrapped".to_string(),
        params,
        &mappings,
        ReturnType { local: None, foreign: None },
        InnerFn::FunctionCall { self_ty: path_type("Thing"), ident: "act".to_string() },
        None,
        false,
        &registry,
    )
    .unwrap();
    assert!(f.has_exceptions);
    assert!(f.passthrough_return);
    assert!(f.needs_exception_param());
    assert_eq!(f.foreign_args, vec!["b".to_string(), "n".to_string()]);
    assert_eq!(f.foreign_params.len(), 3);
    assert_eq!(f.from_foreigns.len(), 1);
    assert_eq!(f.return_marshaler, None);
    assert_eq!(to_string(&f), "void");
    let sig = f.build_signature().unwrap();
    assert_eq!(sig.name, "wrapped");
    assert_eq!(sig.params, f.foreign_params);
    let body = f.build_inner_block().unwrap();
    assert_eq!(body.original, None);
    assert_eq!(
        body.action,
        Action::Call {
            callee: Callee::Method { self_ty: path_type("Thing"), ident: "act".to_string() },
            args: vec!["b".to_string(), "n".to_string()],
            delivery: Delivery::Discard,
        }
    );
    let d = f.to_token_stream().unwrap();
    assert_eq!(d.signature, sig);
    assert_eq!(d.body, body);
}

#[test]
fn description_without_return_marshaler_cannot_be_assembled() {
    let registry = Registry::standard();
    let f = Function::new(
        "wrapped".to_string(),
        vec![],
        &vec![],
        ReturnType {
            local: Some(path_type("Thing")),
            foreign: Some(ForeignType::Pointer(PtrType::Const)),
        },
        InnerFn::FunctionBody(function("wrapped", vec![], Some(path_type("Thing")))),
        None,
        false,
        &registry,
    )
    .unwrap();
    assert_eq!(f.foreign_params, vec![exception()]);
    assert!(!f.has_exceptions);
    assert!(f.needs_exception_param());
    assert_eq!(to_string(&f), "const void*");
    for err in [
        f.build_signature().unwrap_err(),
        f.build_inner_block().unwrap_err(),
        f.to_token_stream().unwrap_err(),
    ] {
        assert_eq!(err.kind, ErrorKind::NoMarshalerForReturn);
        assert_eq!(err.to_string(), "no marshaler found for return type Thing");
    }
}

#[test]
fn c_types() {
    let registry = Registry::standard();
    let with = |foreign: Option<ForeignType>| {
        let f = Function::new(
            "f".to_string(),
            vec![],
            &vec![],
            ReturnType { local: None, foreign },
            InnerFn::FunctionBody(function("f", vec![], None)),
            None,
            false,
            &registry,
        )
        .unwrap();
        to_string(&f)
    };
    assert_eq!(with(None), "void");
    assert_eq!(with(Some(ForeignType::Pointer(PtrType::Const))), "const void*");
    assert_eq!(with(Some(ForeignType::Pointer(PtrType::Mut))), "void*");
    assert_eq!(with(Some(ForeignType::Byte)), "TODO");
    assert_eq!(
        with(Some(ForeignType::Local(TypeDescriptor::new(
            TypeShape::Pointer { kind: PtrType::Mut },
            "* mut u8"
        )))),
        "void*"
    );
}

#[test]
fn unsupported_impls() {
    let registry = Registry::standard();
    let item = |default, unsafety, generics, is_trait| ItemImpl {
        is_default: default,
        is_unsafe: unsafety,
        has_generics: generics,
        is_trait,
        self_ty: path_type("Thing"),
        items: vec![],
    };
    let cases = [
        (item(true, true, true, true), ErrorKind::SpecialisedImpl, Site::Defaultness, "Does not support specialised impls"),
        (item(false, true, true, true), ErrorKind::UnsafeImpl, Site::Unsafety, "Does not support unsafe impls"),
        (item(false, false, true, true), ErrorKind::GenericImpl, Site::Generics, "Does not support generic impls"),
        (item(false, false, false, true), ErrorKind::TraitImpl, Site::Trait, "Does not support trait impls"),
    ];
    for (item, kind, site, message) in cases {
        let err = call_with_impl(None, item, &registry).unwrap_err();
        assert_eq!(err.kind, kind);
        assert_eq!(err.location.site, site);
        assert_eq!(err.to_string(), message);
    }
}

#[test]
fn error_in_a_method_names_the_method() {
    let registry = Registry::standard();
    let fine = public_method("fine", vec![], None);
    let broken = public_method("broken", vec![param("x", path_type("Thing"))], None);
    let mut item = impl_of(path_type("Thing"), vec![fine, broken]);
    item.items.insert(0, ImplItem::Other);
    let err = call_with_impl(None, item, &registry).unwrap_err();
    assert_eq!(err.kind, ErrorKind::NoMarshalerFound);
    assert_eq!(err.location.method, Some(2));
    assert_eq!(err.location.input, Some(0));
}

#[test]
fn method_expansion_takes_the_name_it_is_given() {
    let registry = Registry::standard();
    let mut m = public_method("make", vec![param("b", path_type("bool"))], Some(path_type("Thing")));
    m.attrs = vec![attribute("doc", AttrPayload::Other), marshal(cursed_path("BoxMarshaler"))];
    let (d, kept) = expand_method("any_name".to_string(), m, &path_type("Thing"), &registry).unwrap();
    assert_eq!(d.signature.name, "any_name");
    assert_eq!(d.signature.output, Some(ForeignType::ReturnOf(cursed_path("BoxMarshaler"))));
    assert_eq!(kept.attrs.len(), 1);
    assert_eq!(kept.attrs[0].name, Some("doc".to_string()));

    let x = expand_impl("pre", impl_of(path_type("Thing"), vec![public_method("go", vec![], None)]), &registry)
        .unwrap();
    assert_eq!(x.functions[0].signature.name, "pre_free");
    assert_eq!(x.functions[1].signature.name, "pre_go");
}

#[test]
fn context_is_put_before_the_message() {
    let err: Result<(), Error> = Err(Error::new(ErrorKind::TupleParameter, Site::Type));
    let err = err.context("while testing").unwrap_err();
    assert_eq!(err.kind, ErrorKind::TupleParameter);
    assert_eq!(err.to_string(), "while testing: Tuple parameters not supported");
    let ok: Result<u8, Error> = Ok(3);
    assert_eq!(ok.context("while testing"), Ok(3));
    let err = Error::about(ErrorKind::NoMarshalerForReturn, Site::ReturnType, "Foo")
        .in_method(4)
        .in_input(2)
        .in_attribute(1)
        .at_site(Site::Item);
    assert_eq!(err.location.method, Some(4));
    assert_eq!(err.location.input, Some(2));
    assert_eq!(err.location.attribute, Some(1));
    assert_eq!(err.location.site, Site::Item);
    assert_eq!(err.to_string(), "no marshaler found for return type Foo");
}

#[test]
fn mappings_of_a_signature() {
    let registry = Registry::standard();
    let doc = || attribute("doc", AttrPayload::Other);
    let mut sig = function(
        "act",
        vec![
            FnArg::Receiver(Receiver {
                attrs: vec![marshal(local_path("Ignored"))],
                reference: true,
                lifetime: None,
                mutable: false,
            }),
            param_with(vec![doc(), marshal(local_path("M"))], "a", path_type("bool")),
            param("b", path_type("bool")),
            param("c", path_type("u8")),
            param("d", path_type("Thing")),
        ],
        None,
    )
    .sig;
    let parent = path_type("Owner");
    let mappings = sig.drain_mappings(Some(&parent), &registry).unwrap();
    assert_eq!(mappings.len(), 5);
    assert_eq!(mappings[0].receiver, Some(Ownership::Borrowed));
    assert_eq!(mappings[0].marshaler.as_ref().unwrap().path, cursed_path("BoxMarshaler"));
    assert_eq!(mappings[1].marshaler.as_ref().unwrap().path, local_path("M"));
    assert_eq!(mappings[1].output_type, path_type("bool"));
    assert_eq!(mappings[2].marshaler.as_ref().unwrap().path, cursed_path("BoolMarshaler"));
    assert_eq!(mappings[3].marshaler, None);
    assert_eq!(mappings[4].marshaler, None);
    // The typed parameters lose their marshal attributes; the receiver keeps its own.
    match &sig.inputs[0] {
        FnArg::Receiver(r) => assert_eq!(r.attrs.len(), 1),
        FnArg::Typed(_) => panic!("the first input is the receiver"),
    }
    assert_eq!(sig.inputs[1], param_with(vec![doc()], "a", path_type("bool")));

    let mut sig = function(
        "act",
        vec![
            param_with(vec![marshal(local_path("M"))], "a", path_type("bool")),
            param_with(vec![attribute("marshal", AttrPayload::Other)], "b", path_type("bool")),
        ],
        None,
    )
    .sig;
    let err = sig.drain_mappings(None, &registry).unwrap_err();
    assert_eq!(err.kind, ErrorKind::MarshalNotAPath);
    assert_eq!(err.location.input, Some(1));
    assert_eq!(err.location.attribute, Some(0));
    // On an error the signature is as it was.
    assert_eq!(
        sig.inputs[0],
        param_with(vec![marshal(local_path("M"))], "a", path_type("bool"))
    );
}

#[test]
fn inputs_lose_their_marshal_attributes() {
    let mut typed = Param {
        attrs: vec![marshal(local_path("M"))],
        pat: "a".to_string(),
        ty: path_type("T"),
    };
    assert_eq!(typed.drain_marshal_attrs().unwrap().unwrap().path, local_path("M"));
    assert!(typed.attrs.is_empty());
    let mut input = FnArg::Receiver(Receiver {
        attrs: vec![marshal(local_path("N"))],
        reference: false,
        lifetime: None,
        mutable: false,
    });
    assert_eq!(input.drain_marshal_attrs().unwrap().unwrap().path, local_path("N"));
    assert_eq!(input, FnArg::Receiver(receiver(false, false)));
}
