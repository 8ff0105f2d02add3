use idl2rs::{
    Document, Field, Interface, Method, Modifier, Node, NodeKind, Parameter, Type, TypedefEnum,
    TypedefStruct, Variant,
};

fn leaf(kind: NodeKind, text: &str) -> Node {
    Node { kind, text: text.to_string(), children: Vec::new() }
}

fn branch(kind: NodeKind, children: Vec<Node>) -> Node {
    Node { kind, text: String::new(), children }
}

fn plain_type(name: &str) -> Node {
    branch(NodeKind::Type, vec![leaf(NodeKind::Identifier, name)])
}

fn pointer_type(name: &str) -> Node {
    branch(NodeKind::Type, vec![leaf(NodeKind::Identifier, name), leaf(NodeKind::Pointer, "*")])
}

fn resolved(base_type: &str, modifiers: Vec<Modifier>) -> Type {
    Type { base_type: base_type.to_string(), modifiers }
}

#[test]
fn parameter_from_its_node() {
    let parameter = Parameter::from_pest(&branch(
        NodeKind::Parameter,
        vec![
            leaf(NodeKind::ParameterAttribute, "out"),
            leaf(NodeKind::ParameterAttribute, "retval"),
            pointer_type("ICoreWebView2Settings"),
            leaf(NodeKind::Identifier, "settings"),
        ],
    ));
    assert_eq!(
        parameter,
        Parameter {
            attributes: vec!["out".to_string(), "retval".to_string()],
            ty: resolved(
                "ICoreWebView2SettingsVTable",
                vec![Modifier::Pointer, Modifier::Pointer]
            ),
            name: "settings".to_string(),
        }
    );
}

#[test]
fn parameter_from_an_empty_node() {
    assert_eq!(Parameter::from_pest(&branch(NodeKind::Parameter, Vec::new())), Parameter::default());
}

#[test]
fn parameter_ignores_other_kinds() {
    let parameter = Parameter::from_pest(&branch(
        NodeKind::Parameter,
        vec![
            leaf(NodeKind::Other, "junk"),
            leaf(NodeKind::OtherAttribute, "not mine"),
            plain_type("BOOL"),
            leaf(NodeKind::MethodName, "NotAName"),
            leaf(NodeKind::Identifier, "flag"),
            leaf(NodeKind::Pointer, "*"),
        ],
    ));
    assert_eq!(
        parameter,
        Parameter {
            attributes: Vec::new(),
            ty: resolved("BOOL", Vec::new()),
            name: "flag".to_string()
        }
    );
}

#[test]
fn parameter_takes_the_last_type_and_name() {
    let parameter = Parameter::from_pest(&branch(
        NodeKind::Parameter,
        vec![
            plain_type("BOOL"),
            leaf(NodeKind::Identifier, "first"),
            plain_type("UINT"),
            leaf(NodeKind::Identifier, "second"),
        ],
    ));
    assert_eq!(parameter.ty, resolved("UINT", Vec::new()));
    assert_eq!(parameter.name, "second");
}

#[test]
fn method_from_its_node() {
    let method = Method::from_pest(&branch(
        NodeKind::Method,
        vec![
            leaf(NodeKind::DocComment, "    /// Counts.\n    "),
            plain_type("HRESULT"),
            leaf(NodeKind::MethodName, "GetCount"),
            branch(
                NodeKind::Parameter,
                vec![
                    leaf(NodeKind::ParameterAttribute, "out"),
                    pointer_type("int"),
                    leaf(NodeKind::Identifier, "count"),
                ],
            ),
            branch(
                NodeKind::Parameter,
                vec![plain_type("BOOL"), leaf(NodeKind::Identifier, "all")],
            ),
        ],
    ));
    assert_eq!(
        method,
        Method {
            doc_comment: Some("    /// Counts.\n".to_string()),
            return_type: resolved("HRESULT", Vec::new()),
            name: "GetCount".to_string(),
            parameters: vec![
                Parameter {
                    attributes: vec!["out".to_string()],
                    ty: resolved("i32", vec![Modifier::Pointer]),
                    name: "count".to_string(),
                },
                Parameter {
                    attributes: Vec::new(),
                    ty: resolved("BOOL", Vec::new()),
                    name: "all".to_string(),
                },
            ],
        }
    );
}

#[test]
fn method_keeps_its_name_as_written() {
    let method = Method::from_pest(&branch(
        NodeKind::Method,
        vec![plain_type("HRESULT"), leaf(NodeKind::MethodName, "add_NavigationStarting")],
    ));
    assert_eq!(method.name, "add_NavigationStarting");
    assert_eq!(method.doc_comment, None);
    assert_eq!(method.parameters, Vec::new());
}

#[test]
fn doc_comment_loses_trailing_spaces_and_tabs_only() {
    let variant = Variant::from_pest(&branch(
        NodeKind::Variant,
        vec![
            leaf(NodeKind::DocComment, "  /// a  \n\t/// b\t\n \t \t"),
            leaf(NodeKind::Identifier, "A"),
        ],
    ));
    assert_eq!(variant.doc_comment, Some("  /// a  \n\t/// b\t\n".to_string()));
}

#[test]
fn last_doc_comment_wins() {
    let variant = Variant::from_pest(&branch(
        NodeKind::Variant,
        vec![
            leaf(NodeKind::DocComment, "/// first\n"),
            leaf(NodeKind::Identifier, "A"),
            leaf(NodeKind::DocComment, "/// second\n  "),
        ],
    ));
    assert_eq!(
        variant,
        Variant { doc_comment: Some("/// second\n".to_string()), name: "A".to_string() }
    );
}

#[test]
fn variant_without_doc_comment() {
    let variant =
        Variant::from_pest(&branch(NodeKind::Variant, vec![leaf(NodeKind::Identifier, "A")]));
    assert_eq!(variant, Variant { doc_comment: None, name: "A".to_string() });
    assert_eq!(Variant::from_pest(&branch(NodeKind::Variant, Vec::new())), Variant::default());
}

#[test]
fn enum_from_its_node() {
    let typedef = TypedefEnum::from_pest(&branch(
        NodeKind::TypedefEnum,
        vec![
            leaf(NodeKind::DocComment, "/// Colours.\n"),
            branch(
                NodeKind::Variant,
                vec![leaf(NodeKind::DocComment, "    /// Warm.\n    "), leaf(NodeKind::Identifier, "RED")],
            ),
            leaf(NodeKind::Other, ","),
            branch(NodeKind::Variant, vec![leaf(NodeKind::Identifier, "GREEN")]),
            leaf(NodeKind::Identifier, "COLOR"),
        ],
    ));
    assert_eq!(
        typedef,
        TypedefEnum {
            doc_comment: Some("/// Colours.\n".to_string()),
            name: "COLOR".to_string(),
            variants: vec![
                Variant {
                    doc_comment: Some("    /// Warm.\n".to_string()),
                    name: "RED".to_string()
                },
                Variant { doc_comment: None, name: "GREEN".to_string() },
            ],
        }
    );
}

#[test]
fn enum_from_an_empty_node() {
    assert_eq!(
        TypedefEnum::from_pest(&branch(NodeKind::TypedefEnum, Vec::new())),
        TypedefEnum::default()
    );
}

#[test]
fn field_from_its_node() {
    let field = Field::from_pest(&branch(
        NodeKind::Field,
        vec![
            leaf(NodeKind::DocComment, "    /// Next.\n    "),
            pointer_type("IStream"),
            leaf(NodeKind::Identifier, "next"),
        ],
    ));
    assert_eq!(
        field,
        Field {
            doc_comment: Some("    /// Next.\n".to_string()),
            name: "next".to_string(),
            ty: resolved("IStreamVTable", vec![Modifier::Pointer, Modifier::Pointer]),
        }
    );
    assert_eq!(Field::from_pest(&branch(NodeKind::Field, Vec::new())), Field::default());
}

#[test]
fn struct_from_its_node() {
    let typedef = TypedefStruct::from_pest(&branch(
        NodeKind::TypedefStruct,
        vec![
            branch(NodeKind::Field, vec![plain_type("int"), leaf(NodeKind::Identifier, "x")]),
            branch(NodeKind::Field, vec![plain_type("double"), leaf(NodeKind::Identifier, "y")]),
            leaf(NodeKind::Identifier, "POINT"),
        ],
    ));
    assert_eq!(
        typedef,
        TypedefStruct {
            doc_comment: None,
            name: "POINT".to_string(),
            fields: vec![
                Field { doc_comment: None, name: "x".to_string(), ty: resolved("i32", Vec::new()) },
                Field { doc_comment: None, name: "y".to_string(), ty: resolved("f64", Vec::new()) },
            ],
        }
    );
    assert_eq!(
        TypedefStruct::from_pest(&branch(NodeKind::TypedefStruct, Vec::new())),
        TypedefStruct::default()
    );
}

fn named_method(name: &str) -> Node {
    branch(NodeKind::Method, vec![plain_type("HRESULT"), leaf(NodeKind::MethodName, name)])
}

fn named_enum(name: &str) -> Node {
    branch(NodeKind::TypedefEnum, vec![leaf(NodeKind::Identifier, name)])
}

fn named_struct(name: &str) -> Node {
    branch(NodeKind::TypedefStruct, vec![leaf(NodeKind::Identifier, name)])
}

#[test]
fn interface_from_its_node() {
    let interface = Interface::from_pest(&branch(
        NodeKind::Interface,
        vec![
            leaf(NodeKind::DocComment, "/// The thing.\n"),
            leaf(NodeKind::Uuid, "0c733a30-2a1c-11ce-ade5-00aa0044773d"),
            leaf(NodeKind::OtherAttribute, "object"),
            leaf(NodeKind::OtherAttribute, "pointer_default(unique)"),
            leaf(NodeKind::InterfaceName, "IThing"),
            leaf(NodeKind::Parent, "IUnknown"),
            named_method("First"),
        ],
    ));
    assert_eq!(interface.doc_comment, Some("/// The thing.\n".to_string()));
    assert_eq!(interface.uuid, Some("0c733a30-2a1c-11ce-ade5-00aa0044773d".to_string()));
    assert_eq!(
        interface.attributes,
        vec!["object".to_string(), "pointer_default(unique)".to_string()]
    );
    assert_eq!(interface.name, "IThing");
    assert_eq!(interface.parent, "IUnknown");
    assert_eq!(interface.methods.len(), 1);
    assert_eq!(interface.methods[0].name, "First");
    assert_eq!(interface.enums, Vec::new());
    assert_eq!(interface.structs, Vec::new());
}

#[test]
fn interface_keeps_each_list_in_its_own_order() {
    let interface = Interface::from_pest(&branch(
        NodeKind::Interface,
        vec![
            leaf(NodeKind::InterfaceName, "IMixed"),
            leaf(NodeKind::Parent, "IUnknown"),
            named_struct("S1"),
            named_method("M1"),
            named_enum("E1"),
            leaf(NodeKind::Other, ";"),
            named_method("M2"),
            named_struct("S2"),
            named_enum("E2"),
            named_method("M3"),
        ],
    ));
    let methods: Vec<&str> = interface.methods.iter().map(|m| m.name.as_str()).collect();
    let enums: Vec<&str> = interface.enums.iter().map(|e| e.name.as_str()).collect();
    let structs: Vec<&str> = interface.structs.iter().map(|s| s.name.as_str()).collect();
    assert_eq!(methods, vec!["M1", "M2", "M3"]);
    assert_eq!(enums, vec!["E1", "E2"]);
    assert_eq!(structs, vec!["S1", "S2"]);
    assert_eq!(interface.uuid, None);
    assert_eq!(interface.doc_comment, None);
}

#[test]
fn interface_from_an_empty_node() {
    assert_eq!(
        Interface::from_pest(&branch(NodeKind::Interface, Vec::new())),
        Interface::default()
    );
}

#[test]
fn uuid_is_kept_as_written() {
    let interface = Interface::from_pest(&branch(
        NodeKind::Interface,
        vec![leaf(NodeKind::Uuid, " ABC \t")],
    ));
    assert_eq!(interface.uuid, Some(" ABC \t".to_string()));
}

#[test]
fn document_from_its_node() {
    let document = Document::from_pest(&branch(
        NodeKind::Document,
        vec![
            branch(NodeKind::Interface, vec![leaf(NodeKind::InterfaceName, "IOne")]),
            leaf(NodeKind::Other, ""),
            named_method("NotHere"),
            branch(NodeKind::Interface, vec![leaf(NodeKind::InterfaceName, "ITwo")]),
        ],
    ));
    let names: Vec<&str> = document.interfaces.iter().map(|i| i.name.as_str()).collect();
    assert_eq!(names, vec!["IOne", "ITwo"]);
}

#[test]
fn document_from_an_empty_node() {
    assert_eq!(Document::from_pest(&branch(NodeKind::Document, Vec::new())), Document::default());
}
