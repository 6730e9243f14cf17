use vstd::prelude::*;
use vstd::string::StringExecFns;

use crate::codec::{
    bool_of, bool_or_false, decode, decode_all, decode_attribute, decode_attributes,
    decode_members, discriminator, encode, encode_all, encode_attribute, known_types,
    lemma_decode_all, lemma_encode_all, number_of, opt_text_json,
    text_of, text_or_empty, type_of, type_of_from, NodeType,
};
use crate::json::{
    field, find_key, find_member, json_model, jsons_model, lemma_find_key_range,
    lemma_jsons_model, lemma_members_model, members_model, Json, JsonModel,
};
use crate::node::{
    attribute_model, attributes_model, lemma_nodes_model, node_model, nodes_model, opt_text,
    AttributeModel, ContainerKind, ElementKind, JsxAttribute, LiteralKind, NeutralNode, RuleKind,
};
use crate::text::same_text;

verus! {

broadcast use vstd::std_specs::vec::group_vec_axioms;

// ---------------------------------------------------------------- encoding

fn member(key: &str, value: Json) -> (r: (String, Json))
    ensures
        r.0@ == key@,
        r.1 == value,
{
    (String::from_str(key), value)
}

fn text_json(s: &String) -> (r: Json)
    ensures
        json_model(r) == JsonModel::Str(s@),
{
    Json::Str(s.clone())
}

fn opt_text_to_json(o: &Option<String>) -> (r: Json)
    ensures
        json_model(r) == opt_text_json(opt_text(*o)),
{
    match o {
        Some(s) => text_json(s),
        None => Json::Null,
    }
}

/// The name that the interchange form gives to a node variant.
pub fn discriminator_text(t: NodeType) -> (r: &'static str)
    ensures
        r@ == discriminator(t),
{
    match t {
        NodeType::Container(ContainerKind::Root) => "root",
        NodeType::Container(ContainerKind::Paragraph) => "paragraph",
        NodeType::Container(ContainerKind::Emphasis) => "emphasis",
        NodeType::Container(ContainerKind::Strong) => "strong",
        NodeType::Container(ContainerKind::Blockquote) => "blockquote",
        NodeType::Heading => "heading",
        NodeType::Literal(LiteralKind::Text) => "text",
        NodeType::Literal(LiteralKind::InlineCode) => "inlineCode",
        NodeType::Literal(LiteralKind::EsmStatement) => "mdxjsEsm",
        NodeType::Literal(LiteralKind::FlowExpression) => "mdxFlowExpression",
        NodeType::Literal(LiteralKind::TextExpression) => "mdxTextExpression",
        NodeType::Literal(LiteralKind::FrontmatterYaml) => "yaml",
        NodeType::Literal(LiteralKind::FrontmatterToml) => "toml",
        NodeType::Code => "code",
        NodeType::List => "list",
        NodeType::ListItem => "listItem",
        NodeType::Link => "link",
        NodeType::Image => "image",
        NodeType::Rule(RuleKind::Break) => "break",
        NodeType::Rule(RuleKind::ThematicBreak) => "thematicBreak",
        NodeType::Element(ElementKind::Flow) => "mdxJsxFlowElement",
        NodeType::Element(ElementKind::Text) => "mdxJsxTextElement",
        NodeType::Unknown => "unknown",
        NodeType::Unrecognized => "unknown",
    }
}

fn typed_member(t: NodeType) -> (r: (String, Json))
    ensures
        r.0@ == "type"@,
        json_model(r.1) == JsonModel::Str(discriminator(t)),
{
    member("type", Json::Str(String::from_str(discriminator_text(t))))
}

fn encode_attribute_json(a: &JsxAttribute) -> (r: Json)
    ensures
        json_model(r) == encode_attribute(attribute_model(*a)),
{
    let mut ms: Vec<(String, Json)> = Vec::new();
    match a {
        JsxAttribute::Property { name, value } => {
            ms.push(member("type", Json::Str(String::from_str("mdxJsxAttribute"))));
            ms.push(member("name", text_json(name)));
            ms.push(member("value", opt_text_to_json(value)));
        },
        JsxAttribute::Expression { value } => {
            ms.push(member("type", Json::Str(String::from_str("mdxJsxExpressionAttribute"))));
            ms.push(member("value", text_json(value)));
        },
    }
    proof {
        lemma_members_model(ms@);
        assert(members_model(ms@) =~= encode_attribute(attribute_model(*a))->Object_0);
    }
    Json::Object(ms)
}

fn encode_attributes(v: &Vec<JsxAttribute>) -> (r: Vec<Json>)
    ensures
        jsons_model(r@) == attributes_model(v@).map_values(
            |a: AttributeModel| encode_attribute(a),
        ),
{
    let mut out: Vec<Json> = Vec::new();
    let mut i: usize = 0;
    while i < v.len()
        invariant
            i <= v.len(),
            out@.len() == i,
            forall|j: int|
                0 <= j < i ==> #[trigger] json_model(out@[j]) == encode_attribute(
                    attribute_model(v@[j]),
                ),
        decreases v.len() - i,
    {
        out.push(encode_attribute_json(&v[i]));
        i = i + 1;
    }
    proof {
        lemma_jsons_model(out@);
        assert(jsons_model(out@) =~= attributes_model(v@).map_values(
            |a: AttributeModel| encode_attribute(a),
        ));
    }
    out
}

/// The interchange form of a node.
pub fn encode_node(n: &NeutralNode) -> (r: Json)
    ensures
        json_model(r) == encode(node_model(*n)),
    decreases n,
{
    let mut ms: Vec<(String, Json)> = Vec::new();
    match n {
        NeutralNode::Container { kind, children } => {
            ms.push(typed_member(NodeType::Container(*kind)));
            ms.push(member("children", Json::Array(encode_nodes(children))));
        },
        NeutralNode::Heading { depth, children } => {
            ms.push(typed_member(NodeType::Heading));
            ms.push(member("depth", Json::Number(*depth)));
            ms.push(member("children", Json::Array(encode_nodes(children))));
        },
        NeutralNode::Literal { kind, value } => {
            ms.push(typed_member(NodeType::Literal(*kind)));
            ms.push(member("value", text_json(value)));
        },
        NeutralNode::Code { lang, meta, value } => {
            ms.push(typed_member(NodeType::Code));
            ms.push(member("lang", opt_text_to_json(lang)));
            ms.push(member("meta", opt_text_to_json(meta)));
            ms.push(member("value", text_json(value)));
        },
        NeutralNode::List { ordered, start, spread, children } => {
            ms.push(typed_member(NodeType::List));
            ms.push(member("ordered", Json::Bool(*ordered)));
            ms.push(
                member(
                    "start",
                    match start {
                        Some(s) => Json::Number(*s),
                        None => Json::Null,
                    },
                ),
            );
            ms.push(member("spread", Json::Bool(*spread)));
            ms.push(member("children", Json::Array(encode_nodes(children))));
        },
        NeutralNode::ListItem { spread, checked, children } => {
            ms.push(typed_member(NodeType::ListItem));
            ms.push(member("spread", Json::Bool(*spread)));
            ms.push(
                member(
                    "checked",
                    match checked {
                        Some(c) => Json::Bool(*c),
                        None => Json::Null,
                    },
                ),
            );
            ms.push(member("children", Json::Array(encode_nodes(children))));
        },
        NeutralNode::Link { url, title, children } => {
            ms.push(typed_member(NodeType::Link));
            ms.push(member("url", text_json(url)));
            ms.push(member("title", opt_text_to_json(title)));
            ms.push(member("children", Json::Array(encode_nodes(children))));
        },
        NeutralNode::Image { url, title, alt } => {
            ms.push(typed_member(NodeType::Image));
            ms.push(member("url", text_json(url)));
            ms.push(member("title", opt_text_to_json(title)));
            ms.push(member("alt", opt_text_to_json(alt)));
        },
        NeutralNode::Rule { kind } => {
            ms.push(typed_member(NodeType::Rule(*kind)));
        },
        NeutralNode::JsxElement { kind, name, attributes, children } => {
            ms.push(typed_member(NodeType::Element(*kind)));
            ms.push(member("name", opt_text_to_json(name)));
            ms.push(member("attributes", Json::Array(encode_attributes(attributes))));
            ms.push(member("children", Json::Array(encode_nodes(children))));
        },
        NeutralNode::Unknown { debug_text } => {
            ms.push(typed_member(NodeType::Unknown));
            ms.push(member("value", text_json(debug_text)));
        },
    }
    proof {
        lemma_members_model(ms@);
        assert(members_model(ms@) =~= encode(node_model(*n))->Object_0);
    }
    Json::Object(ms)
}

/// The interchange forms of a sequence of nodes, in order.
pub fn encode_nodes(v: &Vec<NeutralNode>) -> (r: Vec<Json>)
    ensures
        jsons_model(r@) == encode_all(nodes_model(v@)),
    decreases v,
{
    let mut out: Vec<Json> = Vec::new();
    let mut i: usize = 0;
    while i < v.len()
        invariant
            i <= v.len(),
            out@.len() == i,
            forall|j: int|
                0 <= j < i ==> #[trigger] json_model(out@[j]) == encode(node_model(v@[j])),
        decreases v.len() - i,
    {
        out.push(encode_node(&v[i]));
        i = i + 1;
    }
    proof {
        lemma_jsons_model(out@);
        lemma_nodes_model(v@);
        lemma_encode_all(nodes_model(v@));
        assert(jsons_model(out@) =~= encode_all(nodes_model(v@)));
    }
    out
}

// ---------------------------------------------------------------- decoding

pub open spec fn opt_model(o: Option<&Json>) -> Option<JsonModel> {
    match o {
        Some(v) => Some(json_model(*v)),
        None => None,
    }
}

/// The value of the first member named `key`.
pub fn member_value<'a>(ms: &'a Vec<(String, Json)>, key: &str) -> (r: Option<&'a Json>)
    ensures
        opt_model(r) == field(JsonModel::Object(members_model(ms@)), key@),
{
    proof {
        lemma_members_model(ms@);
        lemma_find_key_range(members_model(ms@), key@, 0);
    }
    match find_member(ms, key) {
        Some(i) => Some(&ms[i].1),
        None => None,
    }
}

/// The value of the member named `key` of an object; none for any other value.
pub fn json_field<'a>(j: &'a Json, key: &str) -> (r: Option<&'a Json>)
    ensures
        opt_model(r) == field(json_model(*j), key@),
{
    match j {
        Json::Object(ms) => member_value(ms, key),
        _ => None,
    }
}

fn read_text(o: Option<&Json>) -> (r: String)
    ensures
        r@ == text_or_empty(opt_model(o)),
{
    match o {
        Some(Json::Str(s)) => s.clone(),
        _ => String::new(),
    }
}

fn read_opt_text(o: Option<&Json>) -> (r: Option<String>)
    ensures
        opt_text(r) == text_of(opt_model(o)),
{
    match o {
        Some(Json::Str(s)) => Some(s.clone()),
        _ => None,
    }
}

fn read_bool(o: Option<&Json>) -> (r: bool)
    ensures
        r == bool_or_false(opt_model(o)),
{
    match o {
        Some(Json::Bool(b)) => *b,
        _ => false,
    }
}

fn read_opt_bool(o: Option<&Json>) -> (r: Option<bool>)
    ensures
        r == bool_of(opt_model(o)),
{
    match o {
        Some(Json::Bool(b)) => Some(*b),
        _ => None,
    }
}

fn read_opt_number(o: Option<&Json>) -> (r: Option<u64>)
    ensures
        r == number_of(opt_model(o)),
{
    match o {
        Some(Json::Number(n)) => Some(*n),
        _ => None,
    }
}

/// The node variant that a `type` string selects.
pub fn node_type_of(t: &str) -> (r: NodeType)
    ensures
        r == type_of(t@),
{
    let known = vec![
        NodeType::Container(ContainerKind::Root),
        NodeType::Container(ContainerKind::Paragraph),
        NodeType::Container(ContainerKind::Emphasis),
        NodeType::Container(ContainerKind::Strong),
        NodeType::Container(ContainerKind::Blockquote),
        NodeType::Heading,
        NodeType::Literal(LiteralKind::Text),
        NodeType::Literal(LiteralKind::InlineCode),
        NodeType::Literal(LiteralKind::EsmStatement),
        NodeType::Literal(LiteralKind::FlowExpression),
        NodeType::Literal(LiteralKind::TextExpression),
        NodeType::Literal(LiteralKind::FrontmatterYaml),
        NodeType::Literal(LiteralKind::FrontmatterToml),
        NodeType::Code,
        NodeType::List,
        NodeType::ListItem,
        NodeType::Link,
        NodeType::Image,
        NodeType::Rule(RuleKind::Break),
        NodeType::Rule(RuleKind::ThematicBreak),
        NodeType::Element(ElementKind::Flow),
        NodeType::Element(ElementKind::Text),
        NodeType::Unknown,
    ];
    assert(known@ =~= known_types());
    let mut i: usize = 0;
    while i < known.len()
        invariant
            known@ == known_types(),
            i <= known.len(),
            type_of(t@) == type_of_from(t@, i as int),
        decreases known.len() - i,
    {
        let candidate = known[i];
        if same_text(discriminator_text(candidate), t) {
            return candidate;
        }
        i = i + 1;
    }
    NodeType::Unrecognized
}

fn decode_attribute_json(j: &Json) -> (r: JsxAttribute)
    ensures
        attribute_model(r) == decode_attribute(json_model(*j)),
{
    let t = read_text(json_field(j, "type"));
    if same_text(t.as_str(), "mdxJsxExpressionAttribute") {
        JsxAttribute::Expression { value: read_text(json_field(j, "value")) }
    } else {
        JsxAttribute::Property {
            name: read_text(json_field(j, "name")),
            value: read_opt_text(json_field(j, "value")),
        }
    }
}

fn decode_attributes_json(o: Option<&Json>) -> (r: Vec<JsxAttribute>)
    ensures
        attributes_model(r@) == decode_attributes(opt_model(o)),
{
    let mut out: Vec<JsxAttribute> = Vec::new();
    match o {
        Some(Json::Array(a)) => {
            proof {
                lemma_jsons_model(a@);
            }
            let mut i: usize = 0;
            while i < a.len()
                invariant
                    i <= a.len(),
                    out@.len() == i,
                    jsons_model(a@).len() == a@.len(),
                    forall|j: int|
                        0 <= j < a@.len() ==> #[trigger] jsons_model(a@)[j] == json_model(a@[j]),
                    forall|j: int|
                        0 <= j < i ==> #[trigger] attribute_model(out@[j]) == decode_attribute(
                            json_model(a@[j]),
                        ),
                decreases a.len() - i,
            {
                out.push(decode_attribute_json(&a[i]));
                i = i + 1;
            }
            proof {
                assert(attributes_model(out@) =~= decode_attributes(opt_model(o)));
            }
        },
        _ => {
            proof {
                assert(attributes_model(out@) =~= decode_attributes(opt_model(o)));
            }
        },
    }
    out
}

/// Reads a node back from its interchange form.
pub fn decode_node(j: &Json) -> (r: NeutralNode)
    ensures
        node_model(r) == decode(json_model(*j)),
    decreases j,
{
    match j {
        Json::Object(ms) => decode_object(ms),
        _ => NeutralNode::Unknown { debug_text: String::new() },
    }
}

fn decode_object(ms: &Vec<(String, Json)>) -> (r: NeutralNode)
    ensures
        node_model(r) == decode_members(members_model(ms@)),
    decreases ms,
{
    let ghost mm = members_model(ms@);
    proof {
        lemma_members_model(ms@);
        lemma_find_key_range(mm, "children"@, 0);
    }
    let kids: Vec<NeutralNode> = match find_member(ms, "children") {
        Some(k) => match &ms[k].1 {
            Json::Array(a) => {
                proof {
                    assert(decreases_to!(ms@[k as int] => a));
                }
                decode_nodes(a)
            },
            _ => Vec::new(),
        },
        None => Vec::new(),
    };
    let ghost spec_kids = {
        let k = find_key(mm, "children"@);
        if 0 <= k < mm.len() {
            match mm[k].1 {
                JsonModel::Array(a) => decode_all(a),
                _ => Seq::<crate::node::NodeModel>::empty(),
            }
        } else {
            Seq::<crate::node::NodeModel>::empty()
        }
    };
    assert(nodes_model(kids@) == spec_kids);
    let ty = node_type_of(read_text(member_value(ms, "type")).as_str());
    match ty {
        NodeType::Container(kind) => NeutralNode::Container { kind, children: kids },
        NodeType::Heading => NeutralNode::Heading {
            depth: match read_opt_number(member_value(ms, "depth")) {
                Some(d) => d,
                None => 1,
            },
            children: kids,
        },
        NodeType::Literal(kind) => NeutralNode::Literal {
            kind,
            value: read_text(member_value(ms, "value")),
        },
        NodeType::Code => NeutralNode::Code {
            lang: read_opt_text(member_value(ms, "lang")),
            meta: read_opt_text(member_value(ms, "meta")),
            value: read_text(member_value(ms, "value")),
        },
        NodeType::List => NeutralNode::List {
            ordered: read_bool(member_value(ms, "ordered")),
            start: read_opt_number(member_value(ms, "start")),
            spread: read_bool(member_value(ms, "spread")),
            children: kids,
        },
        NodeType::ListItem => NeutralNode::ListItem {
            spread: read_bool(member_value(ms, "spread")),
            checked: read_opt_bool(member_value(ms, "checked")),
            children: kids,
        },
        NodeType::Link => NeutralNode::Link {
            url: read_text(member_value(ms, "url")),
            title: read_opt_text(member_value(ms, "title")),
            children: kids,
        },
        NodeType::Image => NeutralNode::Image {
            url: read_text(member_value(ms, "url")),
            title: read_opt_text(member_value(ms, "title")),
            alt: read_opt_text(member_value(ms, "alt")),
        },
        NodeType::Rule(kind) => NeutralNode::Rule { kind },
        NodeType::Element(kind) => NeutralNode::JsxElement {
            kind,
            name: read_opt_text(member_value(ms, "name")),
            attributes: decode_attributes_json(member_value(ms, "attributes")),
            children: kids,
        },
        _ => NeutralNode::Unknown { debug_text: read_text(member_value(ms, "value")) },
    }
}

/// Reads a sequence of nodes back from their interchange forms, in order.
pub fn decode_nodes(a: &Vec<Json>) -> (r: Vec<NeutralNode>)
    ensures
        nodes_model(r@) == decode_all(jsons_model(a@)),
    decreases a,
{
    let mut out: Vec<NeutralNode> = Vec::new();
    let mut i: usize = 0;
    while i < a.len()
        invariant
            i <= a.len(),
            out@.len() == i,
            forall|j: int|
                0 <= j < i ==> #[trigger] node_model(out@[j]) == decode(json_model(a@[j])),
        decreases a.len() - i,
    {
        out.push(decode_node(&a[i]));
        i = i + 1;
    }
    proof {
        lemma_jsons_model(a@);
        lemma_nodes_model(out@);
        lemma_decode_all(jsons_model(a@));
        assert(nodes_model(out@) =~= decode_all(jsons_model(a@)));
    }
    out
}

} // verus!
