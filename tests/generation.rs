use mdx_rust_parser::generate::generate_jsx;
use mdx_rust_parser::node::{ContainerKind, ElementKind, LiteralKind, NeutralNode, RuleKind};
use mdx_rust_parser::{emit::emit_module, generate_module};

fn text(v: &str) -> NeutralNode {
    NeutralNode::Literal { kind: LiteralKind::Text, value: v.to_string() }
}

fn container(kind: ContainerKind, children: Vec<NeutralNode>) -> NeutralNode {
    NeutralNode::Container { kind, children }
}

fn item(v: &str) -> NeutralNode {
    NeutralNode::ListItem { spread: false, checked: None, children: vec![text(v)] }
}

#[test]
fn heading_depths_use_override_table() {
    for d in 1u64..=6 {
        let h = NeutralNode::Heading { depth: d, children: vec![text("x")] };
        let expected = format!("_jsx(_components.h{d} || 'h{d}', {{ children: 'x' }})");
        assert_eq!(generate_jsx(&h), expected);
    }
}

#[test]
fn heading_depth_above_nine_is_written_in_decimal() {
    let h = NeutralNode::Heading { depth: 10, children: vec![] };
    assert_eq!(generate_jsx(&h), "_jsx(_components.h10 || 'h10')");
}

#[test]
fn ordered_and_unordered_lists() {
    let ol = NeutralNode::List {
        ordered: true,
        start: Some(1),
        spread: false,
        children: vec![item("a"), item("b"), item("c")],
    };
    assert_eq!(
        generate_jsx(&ol),
        "_jsx(_components.ol || 'ol', { children: [_jsx(_components.li || 'li', { children: 'a' }), \
         _jsx(_components.li || 'li', { children: 'b' }), _jsx(_components.li || 'li', { children: 'c' })] })"
    );
    let ul = NeutralNode::List { ordered: false, start: None, spread: false, children: vec![item("a")] };
    assert_eq!(
        generate_jsx(&ul),
        "_jsx(_components.ul || 'ul', { children: [_jsx(_components.li || 'li', { children: 'a' })] })"
    );
}

#[test]
fn text_escapes_only_the_quote() {
    assert_eq!(generate_jsx(&text("it's")), "'it\\'s'");
    assert_eq!(generate_jsx(&text("a\\b")), "'a\\b'");
    assert_eq!(generate_jsx(&text("line\nbreak")), "'line\nbreak'");
}

#[test]
fn code_block_with_language() {
    let code = NeutralNode::Code {
        lang: Some("js".to_string()),
        meta: Some("title".to_string()),
        value: "let x = 1;".to_string(),
    };
    assert_eq!(
        generate_jsx(&code),
        "_jsx(_components.pre || 'pre', { children: _jsx(_components.code || 'code', \
         { className: 'language-js', children: 'let x = 1;' }) })"
    );
}

#[test]
fn code_block_without_language() {
    let code = NeutralNode::Code { lang: None, meta: None, value: "a'b".to_string() };
    assert_eq!(
        generate_jsx(&code),
        "_jsx(_components.pre || 'pre', { children: _jsx(_components.code || 'code', \
         { className: '', children: 'a\\'b' }) })"
    );
    let empty = NeutralNode::Code { lang: Some(String::new()), meta: None, value: String::new() };
    assert!(generate_jsx(&empty).contains("className: ''"));
}

#[test]
fn inline_code() {
    let c = NeutralNode::Literal { kind: LiteralKind::InlineCode, value: "x'".to_string() };
    assert_eq!(generate_jsx(&c), "_jsx(_components.code || 'code', { children: 'x\\'' })");
}

#[test]
fn custom_element_versus_paragraph() {
    let comp = NeutralNode::JsxElement {
        kind: ElementKind::Flow,
        name: Some("MyComponent".to_string()),
        attributes: vec![],
        children: vec![text("a"), text("b")],
    };
    assert_eq!(generate_jsx(&comp), "_jsxs(MyComponent, { children: ['a', 'b'] })");
    let p = container(ContainerKind::Paragraph, vec![text("a"), text("b")]);
    assert_eq!(generate_jsx(&p), "_jsx(_components.p || 'p', { children: ['a', 'b'] })");
}

#[test]
fn custom_element_child_counts() {
    let none = NeutralNode::JsxElement {
        kind: ElementKind::Text,
        name: None,
        attributes: vec![],
        children: vec![],
    };
    assert_eq!(generate_jsx(&none), "_jsx(div, {})");
    let one = NeutralNode::JsxElement {
        kind: ElementKind::Text,
        name: Some("X".to_string()),
        attributes: vec![],
        children: vec![text("a")],
    };
    assert_eq!(generate_jsx(&one), "_jsx(X, { children: 'a' })");
}

#[test]
fn root_with_one_block_is_unwrapped() {
    let p = container(ContainerKind::Paragraph, vec![text("hi")]);
    let root = container(ContainerKind::Root, vec![p]);
    assert_eq!(generate_jsx(&root), "_jsx(_components.p || 'p', { children: 'hi' })");
}

#[test]
fn root_with_two_blocks_is_a_fragment() {
    let root = container(
        ContainerKind::Root,
        vec![
            container(ContainerKind::Paragraph, vec![text("a")]),
            NeutralNode::Rule { kind: RuleKind::ThematicBreak },
        ],
    );
    assert_eq!(
        generate_jsx(&root),
        "_jsxs(_Fragment, { children: [_jsx(_components.p || 'p', { children: 'a' }), null] })"
    );
    let empty = container(ContainerKind::Root, vec![]);
    assert_eq!(generate_jsx(&empty), "_jsxs(_Fragment, { children: [] })");
}

#[test]
fn unknown_child_of_paragraph_is_null() {
    let p = container(
        ContainerKind::Paragraph,
        vec![NeutralNode::Unknown { debug_text: "Table".to_string() }],
    );
    assert_eq!(generate_jsx(&p), "_jsx(_components.p || 'p', { children: null })");
}

#[test]
fn strong_emphasis_and_unhandled_variants() {
    let s = container(ContainerKind::Strong, vec![text("a")]);
    assert_eq!(generate_jsx(&s), "_jsx(_components.strong || 'strong', { children: 'a' })");
    let e = container(ContainerKind::Emphasis, vec![]);
    assert_eq!(generate_jsx(&e), "_jsx(_components.em || 'em')");
    let q = container(ContainerKind::Blockquote, vec![text("a")]);
    assert_eq!(generate_jsx(&q), "null");
    let y = NeutralNode::Literal { kind: LiteralKind::FrontmatterYaml, value: "a: 1".to_string() };
    assert_eq!(generate_jsx(&y), "null");
}

#[test]
fn module_layout() {
    let expected = "/*@jsxRuntime automatic*/\n/*@jsxImportSource astro*/\n\
        import { jsx as _jsx, jsxs as _jsxs, Fragment as _Fragment } from 'astro/jsx-runtime';\n\n\
        function _createMdxContent(props) {\n  const _components = {\n    ...props.components,\n  };\n  \
        return null;\n}\n\nexport default _createMdxContent;\n";
    assert_eq!(emit_module("null"), expected);
    let root = container(ContainerKind::Root, vec![text("x")]);
    assert!(generate_module(&root).contains("  return 'x';\n}"));
}
