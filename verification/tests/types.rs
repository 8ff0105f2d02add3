use idl2rs::types::{resolve_base, reversed};
use idl2rs::{Modifier, Node, NodeKind, Type};

fn type_leaf(kind: NodeKind, text: &str) -> Node {
    Node { kind, text: text.to_string(), children: Vec::new() }
}

fn type_node(children: Vec<Node>) -> Node {
    Node { kind: NodeKind::Type, text: String::new(), children }
}

fn identifier(text: &str) -> Node {
    type_leaf(NodeKind::Identifier, text)
}

fn pointer() -> Node {
    type_leaf(NodeKind::Pointer, "*")
}

fn constant() -> Node {
    type_leaf(NodeKind::Const, "const")
}

fn rendered(ty: &Type) -> String {
    let mut out = String::new();
    ty.render(&mut out);
    out
}

#[test]
fn int_in_any_case_is_i32_without_modifiers() {
    for spelling in ["int", "INT", "Int", "iNt", "inT", "INt", "iNT", "InT"] {
        let ty = Type::from_pest(&type_node(vec![identifier(spelling)]));
        assert_eq!(ty.base_type, "i32");
        assert_eq!(ty.modifiers, Vec::<Modifier>::new());
        assert_eq!(rendered(&ty), "i32");
    }
}

#[test]
fn int_keeps_its_explicit_modifiers() {
    let ty = Type::from_pest(&type_node(vec![identifier("INT"), pointer()]));
    assert_eq!(ty, Type { base_type: "i32".to_string(), modifiers: vec![Modifier::Pointer] });
    assert_eq!(rendered(&ty), "*mut i32");
}

#[test]
fn double_in_any_case_is_f64() {
    for spelling in ["double", "DOUBLE", "Double", "dOuBlE"] {
        let ty = Type::from_pest(&type_node(vec![identifier(spelling)]));
        assert_eq!(ty.base_type, "f64");
        assert_eq!(ty.modifiers, Vec::<Modifier>::new());
        assert_eq!(rendered(&ty), "f64");
    }
}

#[test]
fn interface_reference_is_a_pointer_to_its_table() {
    let ty = Type::from_pest(&type_node(vec![identifier("IFoo")]));
    assert_eq!(
        ty,
        Type { base_type: "IFooVTable".to_string(), modifiers: vec![Modifier::Pointer] }
    );
    assert_eq!(rendered(&ty), "*mut IFooVTable");
}

#[test]
fn interface_reference_with_explicit_pointers() {
    let ty = Type::from_pest(&type_node(vec![identifier("IStream"), pointer(), pointer()]));
    assert_eq!(ty.base_type, "IStreamVTable");
    assert_eq!(ty.modifiers, vec![Modifier::Pointer, Modifier::Pointer, Modifier::Pointer]);
    assert_eq!(ty.modifiers[0], Modifier::Pointer);
    assert_eq!(rendered(&ty), "*mut *mut *mut IStreamVTable");
}

#[test]
fn interface_reference_with_trailing_const() {
    let ty = Type::from_pest(&type_node(vec![identifier("IFoo"), constant()]));
    assert_eq!(ty.base_type, "IFooVTable");
    assert_eq!(ty.modifiers, vec![Modifier::Const, Modifier::Pointer]);
    assert_eq!(rendered(&ty), "*mut IFooVTable");
}

#[test]
fn interface_reference_with_leading_const() {
    let ty = Type::from_pest(&type_node(vec![constant(), identifier("IFoo"), pointer()]));
    assert_eq!(ty.base_type, "IFooVTable");
    assert_eq!(ty.modifiers, vec![Modifier::Pointer, Modifier::Const, Modifier::Pointer]);
    assert_eq!(rendered(&ty), "*mut *mut IFooVTable");
}

#[test]
fn single_letter_interface_name() {
    let ty = Type::from_pest(&type_node(vec![identifier("I")]));
    assert_eq!(ty.base_type, "IVTable");
    assert_eq!(ty.modifiers, vec![Modifier::Pointer]);
}

#[test]
fn lowercase_i_is_no_interface() {
    let ty = Type::from_pest(&type_node(vec![identifier("iFoo")]));
    assert_eq!(ty, Type { base_type: "iFoo".to_string(), modifiers: Vec::new() });
}

#[test]
fn other_identifier_is_kept_as_it_is() {
    let ty = Type::from_pest(&type_node(vec![identifier("LPCWSTR")]));
    assert_eq!(ty, Type { base_type: "LPCWSTR".to_string(), modifiers: Vec::new() });
    assert_eq!(rendered(&ty), "LPCWSTR");
}

#[test]
fn two_explicit_pointers() {
    let ty = Type::from_pest(&type_node(vec![identifier("HWND"), pointer(), pointer()]));
    assert_eq!(ty.modifiers.len(), 2);
    assert_eq!(ty.modifiers, vec![Modifier::Pointer, Modifier::Pointer]);
    assert_eq!(rendered(&ty), "*mut *mut HWND");
}

#[test]
fn modifiers_are_reversed_once() {
    let ty = Type::from_pest(&type_node(vec![identifier("POINT"), constant(), pointer()]));
    assert_eq!(ty.modifiers, vec![Modifier::Pointer, Modifier::Const]);
    let ty = Type::from_pest(&type_node(vec![
        identifier("POINT"),
        pointer(),
        constant(),
        constant(),
    ]));
    assert_eq!(ty.modifiers, vec![Modifier::Const, Modifier::Const, Modifier::Pointer]);
}

#[test]
fn const_does_not_show_in_the_text() {
    let ty = Type::from_pest(&type_node(vec![identifier("POINT"), constant(), pointer()]));
    assert_eq!(rendered(&ty), "*mut POINT");
    let ty = Type { base_type: "POINT".to_string(), modifiers: vec![Modifier::Const] };
    assert_eq!(rendered(&ty), "POINT");
}

#[test]
fn type_node_without_identifier() {
    let ty = Type::from_pest(&type_node(vec![pointer()]));
    assert_eq!(ty, Type { base_type: String::new(), modifiers: vec![Modifier::Pointer] });
    assert_eq!(rendered(&ty), "*mut ");
    let ty = Type::from_pest(&type_node(Vec::new()));
    assert_eq!(ty, Type::default());
    assert_eq!(rendered(&ty), "");
}

#[test]
fn type_node_ignores_other_kinds() {
    let ty = Type::from_pest(&type_node(vec![
        type_leaf(NodeKind::Other, "x"),
        identifier("UINT"),
        type_leaf(NodeKind::DocComment, "/// no"),
        pointer(),
        type_leaf(NodeKind::MethodName, "IFoo"),
    ]));
    assert_eq!(ty, Type { base_type: "UINT".to_string(), modifiers: vec![Modifier::Pointer] });
}

#[test]
fn last_identifier_is_the_base() {
    let ty = Type::from_pest(&type_node(vec![identifier("UINT"), identifier("IFoo")]));
    assert_eq!(
        ty,
        Type { base_type: "IFooVTable".to_string(), modifiers: vec![Modifier::Pointer] }
    );
}

#[test]
fn render_appends_to_what_is_there() {
    let ty = Type { base_type: "BOOL".to_string(), modifiers: vec![Modifier::Pointer] };
    let mut out = String::from("x: ");
    ty.render(&mut out);
    assert_eq!(out, "x: *mut BOOL");
}

#[test]
fn resolve_base_of_each_rule() {
    assert_eq!(resolve_base("Int"), ("i32".to_string(), false));
    assert_eq!(resolve_base("doublE"), ("f64".to_string(), false));
    assert_eq!(resolve_base("IUnknown"), ("IUnknownVTable".to_string(), true));
    assert_eq!(resolve_base("Interface"), ("InterfaceVTable".to_string(), true));
    assert_eq!(resolve_base("HRESULT"), ("HRESULT".to_string(), false));
    assert_eq!(resolve_base("integer"), ("integer".to_string(), false));
    assert_eq!(resolve_base(""), (String::new(), false));
}

#[test]
fn reversed_modifiers() {
    assert_eq!(
        reversed(&vec![Modifier::Pointer, Modifier::Const, Modifier::Const]),
        vec![Modifier::Const, Modifier::Const, Modifier::Pointer]
    );
    assert_eq!(reversed(&Vec::new()), Vec::<Modifier>::new());
}
