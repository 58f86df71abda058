use com_api::typestate::{
    parse_name_list_attr, plan_error_message, plan_validator, DeclShape, GenericArg, MemberDecl, MemberType,
    NameListAttr, ParamCounts, PlanError, ProducerDecl, StateParam, ValidatorState,
};

fn path(seg: &str, args: &[&str]) -> MemberType {
    MemberType::Path {
        last_segment: seg.to_string(),
        angle_bracketed: !args.is_empty(),
        args: args.iter().map(|a| GenericArg::Type(a.to_string())).collect(),
    }
}

fn member(name: &str, ty: MemberType) -> MemberDecl {
    MemberDecl { ident: Some(name.to_string()), ty }
}

fn attr(path: &str, names: &[&str]) -> NameListAttr {
    NameListAttr { path: path.to_string(), names: Some(names.iter().map(|n| n.to_string()).collect()) }
}

fn producer() -> ProducerDecl {
    ProducerDecl {
        name: "TirePressureProducer".to_string(),
        runtime_param: Some("R".to_string()),
        attrs: vec![attr("field_setter_list", &["front", "rear"]), attr("field_getter_list", &["rear"])],
        shape: DeclShape::NamedStruct(vec![
            member("instance_info", path("ProviderInfo", &[])),
            member("front", path("FieldPublisher", &["Tire"])),
            member("marker", path("PhantomData", &["R"])),
            member("rear", path("FieldPublisher", &["Tire"])),
            member("reset", path("MethodHandler", &["()", "bool"])),
            member("spare", path("FieldPublisher", &["Tire"])),
        ]),
    }
}

#[test]
fn plan_classifies_members() {
    let plan = plan_validator(&producer()).ok().expect("plan");
    assert_eq!(plan.validator_name, "TirePressureProducerValidator");
    assert_eq!(plan.runtime_param.as_deref(), Some("R"));
    let names: Vec<&str> = plan.fields.iter().map(|f| f.ident.as_str()).collect();
    assert_eq!(names, vec!["front", "rear", "spare"]);
    assert_eq!(plan.fields[0].inner_ty, "Tire");
    assert!(plan.fields[0].has_setter && !plan.fields[0].has_getter);
    assert!(plan.fields[1].has_setter && plan.fields[1].has_getter);
    assert!(!plan.fields[2].has_setter && !plan.fields[2].has_getter);
    assert_eq!(plan.setter_fields, vec![0, 1]);
    assert_eq!(plan.getter_fields, vec![1]);
    assert_eq!(plan.methods.len(), 1);
    assert_eq!(plan.methods[0].ident, "reset");
    assert_eq!(plan.methods[0].args_ty, "()");
    assert_eq!(plan.methods[0].return_ty, "bool");
}

#[test]
fn parameter_layout_and_offer() {
    let plan = plan_validator(&producer()).ok().unwrap();
    let counts = plan.counts();
    assert_eq!(counts, ParamCounts { fields: 3, setters: 2, getters: 1, methods: 1 });
    assert_eq!(counts.total(), 7);
    assert_eq!(counts.index_of(StateParam::Update(2)), 2);
    assert_eq!(counts.index_of(StateParam::SetHandler(1)), 4);
    assert_eq!(counts.index_of(StateParam::GetHandler(0)), 5);
    assert_eq!(counts.index_of(StateParam::MethodHandler(0)), 6);

    let mut state = ValidatorState::init(counts);
    assert!(!state.can_offer());
    let steps = [
        StateParam::MethodHandler(0),
        StateParam::Update(0),
        StateParam::Update(1),
        StateParam::Update(2),
        StateParam::SetHandler(0),
        StateParam::SetHandler(1),
    ];
    for s in steps {
        state.step(s);
        assert!(!state.can_offer());
    }
    state.step(StateParam::GetHandler(0));
    assert!(state.can_offer());
    state.step(StateParam::Update(1));
    assert!(state.can_offer());
}

#[test]
fn declarations_without_members_are_rejected() {
    let mut decl = producer();
    decl.shape = DeclShape::NamedStruct(vec![member("instance_info", path("FieldPublisher", &["T"]))]);
    assert_eq!(plan_validator(&decl).err(), Some(PlanError::NoMembers));
    decl.shape = DeclShape::OtherStruct;
    assert_eq!(plan_validator(&decl).err(), Some(PlanError::OnlyNamedFields));
    decl.shape = DeclShape::NotStruct;
    assert_eq!(plan_validator(&decl).err(), Some(PlanError::OnlyStructs));
    assert_eq!(
        plan_error_message(PlanError::NoMembers),
        "TypeStateValidator: no FieldPublisher or MethodHandler fields found (excluding instance_info)"
    );
}

#[test]
fn malformed_members_are_ignored() {
    let mut decl = producer();
    decl.shape = DeclShape::NamedStruct(vec![
        member("a", path("FieldPublisher", &[])),
        member("b", path("MethodHandler", &["u8"])),
        MemberDecl { ident: None, ty: path("FieldPublisher", &["u8"]) },
        member("c", MemberType::Other),
        member("d", MemberType::Path { last_segment: "FieldPublisher".to_string(), angle_bracketed: true, args: vec![GenericArg::Other] }),
        member("e", path("MethodHandler", &["u8", "u16"])),
    ]);
    let plan = plan_validator(&decl).ok().unwrap();
    assert!(plan.fields.is_empty());
    assert_eq!(plan.methods.len(), 1);
    assert_eq!(plan.methods[0].ident, "e");
}

#[test]
fn name_lists_merge_and_deduplicate() {
    let attrs = vec![
        attr("field_setter_list", &["a", "b"]),
        attr("other", &["z"]),
        NameListAttr { path: "field_setter_list".to_string(), names: None },
        attr("field_setter_list", &["b", "c"]),
    ];
    let names = parse_name_list_attr(&attrs, "field_setter_list");
    assert_eq!(names, vec!["a".to_string(), "b".to_string(), "c".to_string()]);
    assert!(parse_name_list_attr(&attrs, "field_getter_list").is_empty());
}
