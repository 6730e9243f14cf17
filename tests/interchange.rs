use mdx_rust_parser::convert::{decode_node, encode_node};
use mdx_rust_parser::json::Json;
use mdx_rust_parser::node::{
    ContainerKind, ElementKind, JsxAttribute, LiteralKind, NeutralNode, RuleKind,
};
use mdx_rust_parser::{
    compile_tree, deserialize_ast, expression_attribute_value, generate_from_ast,
    generate_from_json, serialize_ast,
};

fn text(v: &str) -> NeutralNode {
    NeutralNode::Literal { kind: LiteralKind::Text, value: v.to_string() }
}

fn every_variant() -> NeutralNode {
    let mut children = vec![
        NeutralNode::Heading { depth: 3, children: vec![text("t")] },
        NeutralNode::Code { lang: Some("rs".to_string()), meta: Some("m".to_string()), value: "v".to_string() },
        NeutralNode::Code { lang: None, meta: None, value: String::new() },
        NeutralNode::List {
            ordered: true,
            start: Some(4),
            spread: true,
            children: vec![NeutralNode::ListItem { spread: true, checked: Some(false), children: vec![] }],
        },
        NeutralNode::ListItem { spread: false, checked: None, children: vec![text("i")] },
        NeutralNode::Link { url: "u".to_string(), title: Some("t".to_string()), children: vec![text("l")] },
        NeutralNode::Image { url: "u".to_string(), title: None, alt: Some("a".to_string()) },
        NeutralNode::Rule { kind: RuleKind::Break },
        NeutralNode::Rule { kind: RuleKind::ThematicBreak },
        NeutralNode::JsxElement {
            kind: ElementKind::Flow,
            name: Some("C".to_string()),
            attributes: vec![
                JsxAttribute::Property { name: "a".to_string(), value: Some("1".to_string()) },
                JsxAttribute::Property { name: "b".to_string(), value: None },
                JsxAttribute::Property { name: "c".to_string(), value: Some(expression_attribute_value("x")) },
                JsxAttribute::Expression { value: "...p".to_string() },
            ],
            children: vec![text("c")],
        },
        NeutralNode::JsxElement { kind: ElementKind::Text, name: None, attributes: vec![], children: vec![] },
        NeutralNode::Unknown { debug_text: "Table { .. }".to_string() },
    ];
    for kind in [
        LiteralKind::Text,
        LiteralKind::InlineCode,
        LiteralKind::EsmStatement,
        LiteralKind::FlowExpression,
        LiteralKind::TextExpression,
        LiteralKind::FrontmatterYaml,
        LiteralKind::FrontmatterToml,
    ] {
        children.push(NeutralNode::Literal { kind, value: "it's \\ \"q\"".to_string() });
    }
    for kind in [ContainerKind::Paragraph, ContainerKind::Emphasis, ContainerKind::Strong, ContainerKind::Blockquote] {
        children.push(NeutralNode::Container { kind, children: vec![text("x"), text("y")] });
    }
    NeutralNode::Container { kind: ContainerKind::Root, children }
}

#[test]
fn round_trip_keeps_every_variant() {
    let tree = every_variant();
    let text = serialize_ast(&tree);
    let back = match deserialize_ast(&text) {
        Ok(n) => n,
        Err(e) => panic!("{}", e.message),
    };
    assert_eq!(format!("{:?}", back), format!("{:?}", tree));
    assert_eq!(serialize_ast(&back), text);
}

#[test]
fn round_trip_through_json_values() {
    let tree = every_variant();
    let back = decode_node(&encode_node(&tree));
    assert_eq!(format!("{:?}", back), format!("{:?}", tree));
}

#[test]
fn serialized_text_is_json_with_type_keys() {
    let root = NeutralNode::Container { kind: ContainerKind::Root, children: vec![] };
    assert_eq!(serialize_ast(&root), "{\"children\":[],\"type\":\"root\"}");
    let h = NeutralNode::Heading { depth: 2, children: vec![text("a")] };
    assert_eq!(
        serialize_ast(&h),
        "{\"children\":[{\"type\":\"text\",\"value\":\"a\"}],\"depth\":2,\"type\":\"heading\"}"
    );
}

#[test]
fn compiling_twice_is_byte_identical() {
    let a = compile_tree(&every_variant()).ok().map(|s| s.into_bytes());
    let b = compile_tree(&every_variant()).ok().map(|s| s.into_bytes());
    assert!(a.is_some());
    assert_eq!(a, b);
    let text = serialize_ast(&every_variant());
    let x = generate_from_ast(text.clone()).ok();
    let y = generate_from_ast(text).ok();
    assert_eq!(x, y);
}

#[test]
fn malformed_interchange_text_is_a_codec_error() {
    match generate_from_ast("{not json".to_string()) {
        Ok(_) => panic!("accepted malformed text"),
        Err(e) => assert!(e.message.starts_with("Failed to deserialize AST: ")),
    }
    assert!(deserialize_ast("[1,").is_err());
}

#[test]
fn unrecognized_type_degrades_to_null() {
    let out = generate_from_ast(
        "{\"type\":\"root\",\"children\":[{\"type\":\"paragraph\",\"children\":[{\"type\":\"table\"}]}]}"
            .to_string(),
    );
    assert!(out.ok().unwrap().contains("return _jsx(_components.p || 'p', { children: null });"));
    let not_object = generate_from_ast("42".to_string());
    assert!(not_object.ok().unwrap().contains("return null;"));
}

#[test]
fn missing_attributes_take_defaults() {
    let out = generate_from_ast("{\"type\":\"heading\"}".to_string()).ok().unwrap();
    assert!(out.contains("return _jsx(_components.h1 || 'h1');"));
    let n = deserialize_ast("{\"type\":\"list\",\"children\":[]}").ok().unwrap();
    match n {
        NeutralNode::List { ordered, start, spread, children } => {
            assert!(!ordered && start.is_none() && !spread && children.is_empty());
        }
        other => panic!("{:?}", other),
    }
}

#[test]
fn generation_from_a_json_value() {
    let j = Json::Object(vec![
        ("type".to_string(), Json::Str("text".to_string())),
        ("value".to_string(), Json::Str("hi".to_string())),
    ]);
    assert!(generate_from_json(&j).contains("  return 'hi';\n"));
}

#[test]
fn expression_attribute_is_braced() {
    assert_eq!(expression_attribute_value("a + b"), "{a + b}");
}
