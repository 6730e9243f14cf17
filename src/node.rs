use vstd::prelude::*;

verus! {

/// Nodes that carry nothing but an ordered list of children.
#[derive(Clone, Copy, Debug, PartialEq, Eq, Structural)]
pub enum ContainerKind {
    Root,
    Paragraph,
    Emphasis,
    Strong,
    Blockquote,
}

/// Leaf nodes that carry a single string value.
#[derive(Clone, Copy, Debug, PartialEq, Eq, Structural)]
pub enum LiteralKind {
    Text,
    InlineCode,
    EsmStatement,
    FlowExpression,
    TextExpression,
    FrontmatterYaml,
    FrontmatterToml,
}

/// Leaf nodes without any attribute.
#[derive(Clone, Copy, Debug, PartialEq, Eq, Structural)]
pub enum RuleKind {
    Break,
    ThematicBreak,
}

/// Where an embedded component element stands: block level or inline.
#[derive(Clone, Copy, Debug, PartialEq, Eq, Structural)]
pub enum ElementKind {
    Flow,
    Text,
}

/// An attribute of an embedded component element.
/// An expression-valued property keeps its source wrapped in braces.
#[derive(Clone, Debug)]
pub enum JsxAttribute {
    Property { name: String, value: Option<String> },
    Expression { value: String },
}

/// The closed set of document nodes that the codec and the generator handle.
#[derive(Debug)]
pub enum NeutralNode {
    Container { kind: ContainerKind, children: Vec<NeutralNode> },
    Heading { depth: u64, children: Vec<NeutralNode> },
    Literal { kind: LiteralKind, value: String },
    Code { lang: Option<String>, meta: Option<String>, value: String },
    List { ordered: bool, start: Option<u64>, spread: bool, children: Vec<NeutralNode> },
    ListItem { spread: bool, checked: Option<bool>, children: Vec<NeutralNode> },
    Link { url: String, title: Option<String>, children: Vec<NeutralNode> },
    Image { url: String, title: Option<String>, alt: Option<String> },
    Rule { kind: RuleKind },
    JsxElement {
        kind: ElementKind,
        name: Option<String>,
        attributes: Vec<JsxAttribute>,
        children: Vec<NeutralNode>,
    },
    Unknown { debug_text: String },
}

/// Mathematical model of a `JsxAttribute`.
pub enum AttributeModel {
    Property { name: Seq<char>, value: Option<Seq<char>> },
    Expression { value: Seq<char> },
}

/// Mathematical model of a `NeutralNode`: strings as `Seq<char>`, children as `Seq`.
pub enum NodeModel {
    Container { kind: ContainerKind, children: Seq<NodeModel> },
    Heading { depth: u64, children: Seq<NodeModel> },
    Literal { kind: LiteralKind, value: Seq<char> },
    Code { lang: Option<Seq<char>>, meta: Option<Seq<char>>, value: Seq<char> },
    List { ordered: bool, start: Option<u64>, spread: bool, children: Seq<NodeModel> },
    ListItem { spread: bool, checked: Option<bool>, children: Seq<NodeModel> },
    Link { url: Seq<char>, title: Option<Seq<char>>, children: Seq<NodeModel> },
    Image { url: Seq<char>, title: Option<Seq<char>>, alt: Option<Seq<char>> },
    Rule { kind: RuleKind },
    JsxElement {
        kind: ElementKind,
        name: Option<Seq<char>>,
        attributes: Seq<AttributeModel>,
        children: Seq<NodeModel>,
    },
    Unknown { debug_text: Seq<char> },
}

pub open spec fn opt_text(o: Option<String>) -> Option<Seq<char>> {
    match o {
        Some(s) => Some(s@),
        None => None,
    }
}

pub open spec fn attribute_model(a: JsxAttribute) -> AttributeModel {
    match a {
        JsxAttribute::Property { name, value } => AttributeModel::Property {
            name: name@,
            value: opt_text(value),
        },
        JsxAttribute::Expression { value } => AttributeModel::Expression { value: value@ },
    }
}

pub open spec fn attributes_model(s: Seq<JsxAttribute>) -> Seq<AttributeModel> {
    s.map_values(|a: JsxAttribute| attribute_model(a))
}

pub open spec fn node_model(n: NeutralNode) -> NodeModel
    decreases n,
{
    match n {
        NeutralNode::Container { kind, children } => NodeModel::Container {
            kind,
            children: nodes_model(children@),
        },
        NeutralNode::Heading { depth, children } => NodeModel::Heading {
            depth,
            children: nodes_model(children@),
        },
        NeutralNode::Literal { kind, value } => NodeModel::Literal { kind, value: value@ },
        NeutralNode::Code { lang, meta, value } => NodeModel::Code {
            lang: opt_text(lang),
            meta: opt_text(meta),
            value: value@,
        },
        NeutralNode::List { ordered, start, spread, children } => NodeModel::List {
            ordered,
            start,
            spread,
            children: nodes_model(children@),
        },
        NeutralNode::ListItem { spread, checked, children } => NodeModel::ListItem {
            spread,
            checked,
            children: nodes_model(children@),
        },
        NeutralNode::Link { url, title, children } => NodeModel::Link {
            url: url@,
            title: opt_text(title),
            children: nodes_model(children@),
        },
        NeutralNode::Image { url, title, alt } => NodeModel::Image {
            url: url@,
            title: opt_text(title),
            alt: opt_text(alt),
        },
        NeutralNode::Rule { kind } => NodeModel::Rule { kind },
        NeutralNode::JsxElement { kind, name, attributes, children } => NodeModel::JsxElement {
            kind,
            name: opt_text(name),
            attributes: attributes_model(attributes@),
            children: nodes_model(children@),
        },
        NeutralNode::Unknown { debug_text } => NodeModel::Unknown { debug_text: debug_text@ },
    }
}

pub open spec fn nodes_model(s: Seq<NeutralNode>) -> Seq<NodeModel>
    decreases s,
{
    if s.len() == 0 {
        Seq::empty()
    } else {
        nodes_model(s.subrange(0, s.len() - 1)).push(node_model(s[s.len() - 1]))
    }
}

pub proof fn lemma_nodes_model(s: Seq<NeutralNode>)
    ensures
        nodes_model(s).len() == s.len(),
        forall|i: int| 0 <= i < s.len() ==> #[trigger] nodes_model(s)[i] == node_model(s[i]),
    decreases s.len(),
{
    if s.len() > 0 {
        lemma_nodes_model(s.subrange(0, s.len() - 1));
    }
}

} // verus!
