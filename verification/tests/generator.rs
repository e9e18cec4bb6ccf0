use component_props::analyze::get_type_generic_param_use;
use component_props::component;
use component_props::parse::{
    parse_schema, AttributeArgument, RawAttr, RawField, RawGenericKind, RawGenericParam,
    RawStruct, SchemaError,
};
use component_props::render::{render_props, SetterKind, SlotForm};
use component_props::runtime::{signal_accepted, Reactive, RuntimeField};
use component_props::schema::{GenericParam, ReactivityMode, Segment, TypeExpr};
use component_props::text::{snake_case, upper_first};

fn simple_path(ident: &str) -> TypeExpr {
    TypeExpr::Path(vec![Segment { ident: ident.to_string(), args: vec![] }])
}

fn type_param(ident: &str) -> RawGenericParam {
    RawGenericParam {
        kind: RawGenericKind::TypeKind,
        ident: ident.to_string(),
        bounds: vec![],
        default_type: None,
    }
}

fn named_field(name: &str, ty: TypeExpr, attrs: Vec<RawAttr>) -> RawField {
    RawField { name: Some(name.to_string()), declared_type: ty, attrs }
}

fn generic_param(ident: &str, bounds: &[&str]) -> GenericParam {
    GenericParam {
        ident: ident.to_string(),
        bounds: bounds.iter().map(|b| b.to_string()).collect(),
        default_type: None,
    }
}

#[test]
fn snake_case_of_component_names() {
    assert_eq!(snake_case("SomeButton").as_str(), "some_button");
    assert_eq!(snake_case("DefaultVal").as_str(), "default_val");
    assert_eq!(snake_case("X").as_str(), "x");
    assert_eq!(snake_case("already_snake").as_str(), "already_snake");
    assert_eq!(snake_case("").as_str(), "");
    assert_eq!(upper_first("label").as_str(), "Label");
    assert_eq!(upper_first("").as_str(), "");
}

#[test]
fn usage_finds_nested_generic_arguments() {
    // A field of type Wrapper<T, Other<U>> uses exactly {T, U} of {T, U, V}.
    let generics = vec![generic_param("T", &[]), generic_param("U", &[]), generic_param("V", &[])];
    let inner = TypeExpr::Path(vec![Segment {
        ident: "Other".to_string(),
        args: vec![component_props::schema::GenericArg::TypeArg(simple_path("U"))],
    }]);
    let ty = TypeExpr::Path(vec![Segment {
        ident: "Wrapper".to_string(),
        args: vec![
            component_props::schema::GenericArg::TypeArg(simple_path("T")),
            component_props::schema::GenericArg::TypeArg(inner),
        ],
    }]);
    let used = get_type_generic_param_use(&ty, &generics);
    let idents: Vec<&str> = used.iter().map(|g| g.ident.as_str()).collect();
    assert_eq!(idents, vec!["T", "U"]);
}

#[test]
fn usage_of_plain_type_is_empty() {
    let generics = vec![generic_param("T", &[]), generic_param("U", &[])];
    let used = get_type_generic_param_use(&simple_path("PlainType"), &generics);
    assert!(used.is_empty());
}

#[test]
fn usage_ignores_lifetime_and_const_arguments() {
    let generics = vec![generic_param("T", &[])];
    let ty = TypeExpr::Path(vec![Segment {
        ident: "Holder".to_string(),
        args: vec![
            component_props::schema::GenericArg::LifetimeArg,
            component_props::schema::GenericArg::ConstArg,
        ],
    }]);
    let used = get_type_generic_param_use(&ty, &generics);
    assert!(used.is_empty());
    let used_other = get_type_generic_param_use(&TypeExpr::Other, &generics);
    assert!(used_other.is_empty());
}

#[test]
fn unnamed_fields_are_rejected() {
    let input = RawStruct {
        name: "Broken".to_string(),
        generics: vec![],
        fields: vec![RawField { name: None, declared_type: simple_path("i32"), attrs: vec![] }],
        attrs: vec![],
    };
    let args = AttributeArgument { fn_name: "render".to_string() };
    match parse_schema(args, input) {
        Err(SchemaError::UnnamedFields { field_index }) => {
            assert_eq!(field_index, 0);
        }
        _ => panic!("expected the positional-field error"),
    }
}

#[test]
fn non_type_generics_are_rejected() {
    let input = RawStruct {
        name: "Broken".to_string(),
        generics: vec![
            type_param("T"),
            RawGenericParam {
                kind: RawGenericKind::LifetimeKind,
                ident: "a".to_string(),
                bounds: vec![],
                default_type: None,
            },
        ],
        fields: vec![],
        attrs: vec![],
    };
    let args = AttributeArgument { fn_name: "render".to_string() };
    match parse_schema(args, input) {
        Err(SchemaError::UnsupportedGenericKind { param_index, param_ident }) => {
            assert_eq!(param_index, 1);
            assert_eq!(param_ident.as_str(), "a");
        }
        _ => panic!("expected the generic-kind error"),
    }
}

#[test]
fn conflicting_reactivity_is_rejected() {
    let input = RawStruct {
        name: "Broken".to_string(),
        generics: vec![],
        fields: vec![
            named_field("fine", simple_path("i32"), vec![RawAttr::SignalAttr]),
            named_field(
                "torn",
                simple_path("i32"),
                vec![RawAttr::SignalAttr, RawAttr::SignalVecAttr],
            ),
        ],
        attrs: vec![],
    };
    let args = AttributeArgument { fn_name: "render".to_string() };
    match parse_schema(args, input) {
        Err(SchemaError::ConflictingReactivity { field_index, field_name }) => {
            assert_eq!(field_index, 1);
            assert_eq!(field_name.as_str(), "torn");
        }
        _ => panic!("expected the conflicting-reactivity error"),
    }
}

#[test]
fn error_messages_name_the_offender() {
    let e1 = SchemaError::UnnamedFields { field_index: 0 };
    assert_eq!(e1.describe().as_str(), "struct must have named fields");
    let e2 = SchemaError::UnsupportedGenericKind {
        param_index: 0,
        param_ident: "a".to_string(),
    };
    assert_eq!(
        e2.describe().as_str(),
        "prop struct must have only type params: a"
    );
    let e3 = SchemaError::ConflictingReactivity {
        field_index: 1,
        field_name: "torn".to_string(),
    };
    assert_eq!(
        e3.describe().as_str(),
        "a field may carry at most one reactivity annotation: torn"
    );
}

#[test]
fn parser_keeps_docs_defaults_and_modes() {
    let input = RawStruct {
        name: "MyCmp".to_string(),
        generics: vec![type_param("T")],
        fields: vec![
            named_field(
                "my_int",
                simple_path("i32"),
                vec![
                    RawAttr::DocAttr(" the int".to_string()),
                    RawAttr::DefaultAttr("42".to_string()),
                    RawAttr::OtherAttr,
                ],
            ),
            named_field(
                "my_string",
                simple_path("String"),
                vec![
                    RawAttr::SignalAttr,
                    RawAttr::DefaultAttr("{ let foo = 32; foo.to_string() }".to_string()),
                ],
            ),
            named_field("my_list", simple_path("i32"), vec![RawAttr::SignalVecAttr]),
            named_field("marked", simple_path("T"), vec![
                RawAttr::SignalAttr,
                RawAttr::ThreadSafeAttr,
            ]),
        ],
        attrs: vec![
            RawAttr::DocAttr(" component docs".to_string()),
            RawAttr::OtherAttr,
        ],
    };
    let args = AttributeArgument { fn_name: "my_cmp_render".to_string() };
    let schema = parse_schema(args, input).unwrap();
    assert_eq!(schema.name.as_str(), "MyCmp");
    assert_eq!(schema.render_entry.as_str(), "my_cmp_render");
    assert_eq!(schema.docs.len(), 1);
    assert_eq!(schema.docs[0].as_str(), " component docs");
    assert_eq!(schema.generics.len(), 1);
    assert_eq!(schema.generics[0].ident.as_str(), "T");
    assert_eq!(schema.fields.len(), 4);
    assert_eq!(schema.fields[0].reactivity_mode, ReactivityMode::Constant);
    assert_eq!(schema.fields[0].default.as_ref().unwrap().as_str(), "42");
    assert_eq!(schema.fields[0].docs.len(), 1);
    assert_eq!(schema.fields[0].docs[0].as_str(), " the int");
    assert!(!schema.fields[0].thread_safe_marker);
    assert_eq!(schema.fields[1].reactivity_mode, ReactivityMode::Single);
    assert_eq!(
        schema.fields[1].default.as_ref().unwrap().as_str(),
        "{ let foo = 32; foo.to_string() }"
    );
    assert_eq!(schema.fields[2].reactivity_mode, ReactivityMode::Collection);
    assert!(schema.fields[2].default.is_none());
    assert!(schema.fields[3].thread_safe_marker);
}

#[test]
fn rendered_surface_names_and_setters() {
    // One constant field, one single reactive field, one reactive
    // collection field.
    let input = RawStruct {
        name: "SomeButton".to_string(),
        generics: vec![type_param("T")],
        fields: vec![
            named_field("unchanging_prop", simple_path("i32"), vec![]),
            named_field("label", simple_path("String"), vec![RawAttr::SignalAttr]),
            named_field(
                "some_generic_signal_vec",
                simple_path("i32"),
                vec![RawAttr::SignalVecAttr, RawAttr::DefaultAttr("vec![123]".to_string())],
            ),
        ],
        attrs: vec![],
    };
    let args = AttributeArgument { fn_name: "some_button".to_string() };
    let surface = component(args, input).unwrap();

    assert_eq!(surface.container.name.as_str(), "SomeButtonProps");
    assert_eq!(surface.contract.name.as_str(), "SomeButtonPropsTrait");
    assert_eq!(surface.contract.output_name.as_str(), "SomeButtonProps");
    assert_eq!(surface.shorthand.name.as_str(), "some_button");
    assert_eq!(surface.shorthand.render_entry.as_str(), "some_button");
    assert_eq!(surface.container.generics.len(), 1);

    // The constant field exposes exactly one setter storing the raw value;
    // its flattened form is optional because it has no default.
    let constant = &surface.setters[0];
    assert_eq!(constant.setters.len(), 1);
    assert_eq!(constant.setters[0].name.as_str(), "unchanging_prop");
    assert_eq!(constant.setters[0].kind, SetterKind::SetRaw);
    assert_eq!(constant.setters[0].field_index, 0);
    assert!(constant.setters[0].synthetic.is_none());
    assert_eq!(surface.contract.fields[0].form, SlotForm::RawSlot);
    assert!(surface.contract.fields[0].optional);

    // The single reactive field exposes exactly two setters targeting the
    // same slot.
    let single = &surface.setters[1];
    assert_eq!(single.setters.len(), 2);
    assert_eq!(single.setters[0].name.as_str(), "label");
    assert_eq!(single.setters[0].kind, SetterKind::WrapSignal);
    assert_eq!(single.setters[1].name.as_str(), "label_signal");
    assert_eq!(single.setters[1].kind, SetterKind::SetSignal);
    assert_eq!(single.setters[0].field_index, 1);
    assert_eq!(single.setters[1].field_index, 1);
    let sp = single.setters[1].synthetic.as_ref().unwrap();
    assert_eq!(sp.ident.as_str(), "TLabelSignal");
    assert_eq!(sp.bounds.len(), 1);
    assert_eq!(sp.bounds[0].as_str(), "Signal");
    assert_eq!(sp.default_type.as_str(), "Always");
    assert_eq!(surface.contract.fields[1].form, SlotForm::SignalSlot);
    assert!(surface.contract.fields[1].optional);

    // The collection field gets the analogous pair, and is not optional
    // because it has a default.
    let coll = &surface.setters[2];
    assert_eq!(coll.setters.len(), 2);
    assert_eq!(coll.setters[0].name.as_str(), "some_generic_signal_vec");
    assert_eq!(coll.setters[0].kind, SetterKind::WrapSignalVec);
    assert_eq!(coll.setters[1].name.as_str(), "some_generic_signal_vec_signal_vec");
    assert_eq!(coll.setters[1].kind, SetterKind::SetSignalVec);
    let spv = coll.setters[1].synthetic.as_ref().unwrap();
    assert_eq!(spv.ident.as_str(), "TSome_generic_signal_vecSignalVec");
    assert_eq!(spv.bounds[0].as_str(), "SignalVec");
    assert_eq!(spv.default_type.as_str(), "AlwaysVec");
    assert_eq!(surface.contract.fields[2].form, SlotForm::SignalVecSlot);
    assert!(!surface.contract.fields[2].optional);

    // Setters require only the generic parameters their field's type uses.
    assert!(constant.setters[0].used_generics.is_empty());
    assert!(single.setters[0].used_generics.is_empty());
}

#[test]
fn setter_bounds_use_only_needed_generics() {
    let input = RawStruct {
        name: "Cmp".to_string(),
        generics: vec![type_param("T"), type_param("U")],
        fields: vec![
            named_field("uses_t", simple_path("T"), vec![RawAttr::SignalAttr]),
            named_field("plain", simple_path("i32"), vec![]),
        ],
        attrs: vec![],
    };
    let args = AttributeArgument { fn_name: "render_cmp".to_string() };
    let surface = component(args, input).unwrap();
    let uses_t = &surface.setters[0].setters[0].used_generics;
    assert_eq!(uses_t.len(), 1);
    assert_eq!(uses_t[0].ident.as_str(), "T");
    assert!(surface.setters[1].setters[0].used_generics.is_empty());
}

#[test]
fn verify_send_propagation() {
    // NeedsSend<T: Send, TNotSend: Clone> with two single reactive fields:
    // the field whose type uses the Send-bounded parameter propagates the
    // capability to its generated bound, the other does not.
    let generics = vec![
        RawGenericParam {
            kind: RawGenericKind::TypeKind,
            ident: "T".to_string(),
            bounds: vec!["Send".to_string()],
            default_type: None,
        },
        RawGenericParam {
            kind: RawGenericKind::TypeKind,
            ident: "TNotSend".to_string(),
            bounds: vec!["Clone".to_string()],
            default_type: None,
        },
    ];
    let input = RawStruct {
        name: "NeedsSend".to_string(),
        generics,
        fields: vec![
            named_field("send_me", simple_path("T"), vec![RawAttr::SignalAttr]),
            named_field("don_not_send_me", simple_path("TNotSend"), vec![RawAttr::SignalAttr]),
        ],
        attrs: vec![],
    };
    let args = AttributeArgument { fn_name: "render_send".to_string() };
    let surface = component(args, input).unwrap();

    let send_me = surface.setters[0].setters[1].synthetic.as_ref().unwrap();
    assert_eq!(
        send_me.bounds.iter().map(|b| b.as_str()).collect::<Vec<_>>(),
        vec!["Signal", "Send"]
    );
    let not_send = surface.setters[1].setters[1].synthetic.as_ref().unwrap();
    assert_eq!(
        not_send.bounds.iter().map(|b| b.as_str()).collect::<Vec<_>>(),
        vec!["Signal"]
    );

    // A reactive value lacking the capability is rejected for the marked
    // slot and accepted for the unmarked one; the render entry's answer
    // stays 42.
    let send_field = RuntimeField {
        mode: ReactivityMode::Single,
        default: None,
        needs_sync: true,
    };
    let free_field = RuntimeField {
        mode: ReactivityMode::Single,
        default: None,
        needs_sync: false,
    };
    let no_send_signal = Reactive::ExternalSig { id: 7, sync: false };
    let send_signal = Reactive::ExternalSig { id: 7, sync: true };
    assert!(!signal_accepted(&send_field, &no_send_signal));
    assert!(signal_accepted(&send_field, &send_signal));
    assert!(signal_accepted(&free_field, &no_send_signal));
    assert!(signal_accepted(&free_field, &send_signal));
    let answer: i32 = 42;
    assert_eq!(answer, 42);
}

#[test]
fn explicit_marker_forces_capability() {
    let input = RawStruct {
        name: "Marked".to_string(),
        generics: vec![],
        fields: vec![named_field(
            "hot",
            simple_path("String"),
            vec![RawAttr::SignalAttr, RawAttr::ThreadSafeAttr],
        )],
        attrs: vec![],
    };
    let args = AttributeArgument { fn_name: "render_marked".to_string() };
    let surface = component(args, input).unwrap();
    let sp = surface.setters[0].setters[1].synthetic.as_ref().unwrap();
    assert_eq!(
        sp.bounds.iter().map(|b| b.as_str()).collect::<Vec<_>>(),
        vec!["Signal", "Send"]
    );
}

#[test]
fn regenerating_is_byte_identical() {
    // Rendering the same schema twice yields the same names and shapes.
    let make = || {
        let input = RawStruct {
            name: "TwiceOver".to_string(),
            generics: vec![type_param("T")],
            fields: vec![named_field("foo", simple_path("T"), vec![RawAttr::SignalAttr])],
            attrs: vec![],
        };
        let args = AttributeArgument { fn_name: "twice_over".to_string() };
        parse_schema(args, input).unwrap()
    };
    let a = render_props(make());
    let b = render_props(make());
    assert_eq!(a.container.name, b.container.name);
    assert_eq!(a.contract.name, b.contract.name);
    assert_eq!(a.shorthand.name, b.shorthand.name);
    assert_eq!(a.setters[0].setters[1].name, b.setters[0].setters[1].name);
    assert_eq!(
        a.setters[0].setters[1].synthetic.as_ref().unwrap().ident,
        b.setters[0].setters[1].synthetic.as_ref().unwrap().ident
    );
}

#[test]
fn first_default_wins() {
    let input = RawStruct {
        name: "Defaulted".to_string(),
        generics: vec![],
        fields: vec![named_field(
            "twice",
            simple_path("i32"),
            vec![
                RawAttr::DefaultAttr("1".to_string()),
                RawAttr::DefaultAttr("2".to_string()),
            ],
        )],
        attrs: vec![],
    };
    let args = AttributeArgument { fn_name: "render_defaulted".to_string() };
    let schema = parse_schema(args, input).unwrap();
    assert_eq!(schema.fields[0].default.as_ref().unwrap().as_str(), "1");
}

#[test]
fn conflict_is_order_independent() {
    let input = RawStruct {
        name: "Broken".to_string(),
        generics: vec![],
        fields: vec![named_field(
            "torn",
            simple_path("i32"),
            vec![RawAttr::SignalVecAttr, RawAttr::SignalAttr],
        )],
        attrs: vec![],
    };
    let args = AttributeArgument { fn_name: "render".to_string() };
    assert!(matches!(
        parse_schema(args, input),
        Err(SchemaError::ConflictingReactivity { field_index: 0, .. })
    ));
}
