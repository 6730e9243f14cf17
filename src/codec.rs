use vstd::prelude::*;
use crate::json::{field, find_key, find_key_from, JsonModel};
use crate::node::{AttributeModel, ContainerKind, ElementKind, LiteralKind, NodeModel, RuleKind};

verus! {

/// The `type` discriminator of the interchange form, one per node variant.
#[derive(Clone, Copy, Debug, PartialEq, Eq, Structural)]
pub enum NodeType {
    Container(ContainerKind),
    Heading,
    Literal(LiteralKind),
    Code,
    List,
    ListItem,
    Link,
    Image,
    Rule(RuleKind),
    Element(ElementKind),
    Unknown,
    Unrecognized,
}

pub open spec fn discriminator(t: NodeType) -> Seq<char> {
    match t {
        NodeType::Container(ContainerKind::Root) => "root"@,
        NodeType::Container(ContainerKind::Paragraph) => "paragraph"@,
        NodeType::Container(ContainerKind::Emphasis) => "emphasis"@,
        NodeType::Container(ContainerKind::Strong) => "strong"@,
        NodeType::Container(ContainerKind::Blockquote) => "blockquote"@,
        NodeType::Heading => "heading"@,
        NodeType::Literal(LiteralKind::Text) => "text"@,
        NodeType::Literal(LiteralKind::InlineCode) => "inlineCode"@,
        NodeType::Literal(LiteralKind::EsmStatement) => "mdxjsEsm"@,
        NodeType::Literal(LiteralKind::FlowExpression) => "mdxFlowExpression"@,
        NodeType::Literal(LiteralKind::TextExpression) => "mdxTextExpression"@,
        NodeType::Literal(LiteralKind::FrontmatterYaml) => "yaml"@,
        NodeType::Literal(LiteralKind::FrontmatterToml) => "toml"@,
        NodeType::Code => "code"@,
        NodeType::List => "list"@,
        NodeType::ListItem => "listItem"@,
        NodeType::Link => "link"@,
        NodeType::Image => "image"@,
        NodeType::Rule(RuleKind::Break) => "break"@,
        NodeType::Rule(RuleKind::ThematicBreak) => "thematicBreak"@,
        NodeType::Element(ElementKind::Flow) => "mdxJsxFlowElement"@,
        NodeType::Element(ElementKind::Text) => "mdxJsxTextElement"@,
        NodeType::Unknown => "unknown"@,
        NodeType::Unrecognized => "unknown"@,
    }
}

/// Every discriminator that the interchange form knows, in the order they are tried.
pub open spec fn known_types() -> Seq<NodeType> {
    seq![
        NodeType::Container(ContainerKind::Root),
        NodeType::Container(ContainerKind::Paragraph),
        NodeType::Container(ContainerKind::Emphasis),
        NodeType::Container(ContainerKind::Strong),
        NodeType::Container(ContainerKind::Blockquote),
        NodeType::Heading,
        NodeType::Literal(LiteralKind::Text),
        NodeType::Literal(LiteralKind::InlineCode),
        NodeType::Literal(LiteralKind::EsmStatement),
        NodeType::Literal(LiteralKind::FlowExpression),
        NodeType::Literal(LiteralKind::TextExpression),
        NodeType::Literal(LiteralKind::FrontmatterYaml),
        NodeType::Literal(LiteralKind::FrontmatterToml),
        NodeType::Code,
        NodeType::List,
        NodeType::ListItem,
        NodeType::Link,
        NodeType::Image,
        NodeType::Rule(RuleKind::Break),
        NodeType::Rule(RuleKind::ThematicBreak),
        NodeType::Element(ElementKind::Flow),
        NodeType::Element(ElementKind::Text),
        NodeType::Unknown,
    ]
}

/// The first known discriminator of `known_types()[from..]` whose name is `t`.
pub open spec fn type_of_from(t: Seq<char>, from: int) -> NodeType
    decreases known_types().len() - from,
{
    if from < 0 || from >= known_types().len() {
        NodeType::Unrecognized
    } else if discriminator(known_types()[from]) == t {
        known_types()[from]
    } else {
        type_of_from(t, from + 1)
    }
}

/// The node variant that a `type` string selects.
pub open spec fn type_of(t: Seq<char>) -> NodeType {
    type_of_from(t, 0)
}

// ---------------------------------------------------------------- encoding

pub open spec fn opt_text_json(o: Option<Seq<char>>) -> JsonModel {
    match o {
        Some(s) => JsonModel::Str(s),
        None => JsonModel::Null,
    }
}

pub open spec fn opt_number_json(o: Option<u64>) -> JsonModel {
    match o {
        Some(n) => JsonModel::Number(n),
        None => JsonModel::Null,
    }
}

pub open spec fn opt_bool_json(o: Option<bool>) -> JsonModel {
    match o {
        Some(b) => JsonModel::Bool(b),
        None => JsonModel::Null,
    }
}

pub open spec fn typed(t: NodeType) -> (Seq<char>, JsonModel) {
    ("type"@, JsonModel::Str(discriminator(t)))
}

pub open spec fn encode_attribute(a: AttributeModel) -> JsonModel {
    match a {
        AttributeModel::Property { name, value } => JsonModel::Object(
            seq![
                ("type"@, JsonModel::Str("mdxJsxAttribute"@)),
                ("name"@, JsonModel::Str(name)),
                ("value"@, opt_text_json(value)),
            ],
        ),
        AttributeModel::Expression { value } => JsonModel::Object(
            seq![
                ("type"@, JsonModel::Str("mdxJsxExpressionAttribute"@)),
                ("value"@, JsonModel::Str(value)),
            ],
        ),
    }
}

/// The interchange form of a node: an object keyed by its `type` discriminator.
pub open spec fn encode(m: NodeModel) -> JsonModel
    decreases m,
{
    match m {
        NodeModel::Container { kind, children } => JsonModel::Object(
            seq![
                typed(NodeType::Container(kind)),
                ("children"@, JsonModel::Array(encode_all(children))),
            ],
        ),
        NodeModel::Heading { depth, children } => JsonModel::Object(
            seq![
                typed(NodeType::Heading),
                ("depth"@, JsonModel::Number(depth)),
                ("children"@, JsonModel::Array(encode_all(children))),
            ],
        ),
        NodeModel::Literal { kind, value } => JsonModel::Object(
            seq![typed(NodeType::Literal(kind)), ("value"@, JsonModel::Str(value))],
        ),
        NodeModel::Code { lang, meta, value } => JsonModel::Object(
            seq![
                typed(NodeType::Code),
                ("lang"@, opt_text_json(lang)),
                ("meta"@, opt_text_json(meta)),
                ("value"@, JsonModel::Str(value)),
            ],
        ),
        NodeModel::List { ordered, start, spread, children } => JsonModel::Object(
            seq![
                typed(NodeType::List),
                ("ordered"@, JsonModel::Bool(ordered)),
                ("start"@, opt_number_json(start)),
                ("spread"@, JsonModel::Bool(spread)),
                ("children"@, JsonModel::Array(encode_all(children))),
            ],
        ),
        NodeModel::ListItem { spread, checked, children } => JsonModel::Object(
            seq![
                typed(NodeType::ListItem),
                ("spread"@, JsonModel::Bool(spread)),
                ("checked"@, opt_bool_json(checked)),
                ("children"@, JsonModel::Array(encode_all(children))),
            ],
        ),
        NodeModel::Link { url, title, children } => JsonModel::Object(
            seq![
                typed(NodeType::Link),
                ("url"@, JsonModel::Str(url)),
                ("title"@, opt_text_json(title)),
                ("children"@, JsonModel::Array(encode_all(children))),
            ],
        ),
        NodeModel::Image { url, title, alt } => JsonModel::Object(
            seq![
                typed(NodeType::Image),
                ("url"@, JsonModel::Str(url)),
                ("title"@, opt_text_json(title)),
                ("alt"@, opt_text_json(alt)),
            ],
        ),
        NodeModel::Rule { kind } => JsonModel::Object(seq![typed(NodeType::Rule(kind))]),
        NodeModel::JsxElement { kind, name, attributes, children } => JsonModel::Object(
            seq![
                typed(NodeType::Element(kind)),
                ("name"@, opt_text_json(name)),
                (
                    "attributes"@,
                    JsonModel::Array(attributes.map_values(|a: AttributeModel| encode_attribute(a))),
                ),
                ("children"@, JsonModel::Array(encode_all(children))),
            ],
        ),
        NodeModel::Unknown { debug_text } => JsonModel::Object(
            seq![typed(NodeType::Unknown), ("value"@, JsonModel::Str(debug_text))],
        ),
    }
}

pub open spec fn encode_all(s: Seq<NodeModel>) -> Seq<JsonModel>
    decreases s,
{
    if s.len() == 0 {
        Seq::empty()
    } else {
        encode_all(s.subrange(0, s.len() - 1)).push(encode(s[s.len() - 1]))
    }
}

pub proof fn lemma_encode_all(s: Seq<NodeModel>)
    ensures
        encode_all(s).len() == s.len(),
        forall|i: int| 0 <= i < s.len() ==> #[trigger] encode_all(s)[i] == encode(s[i]),
    decreases s.len(),
{
    if s.len() > 0 {
        lemma_encode_all(s.subrange(0, s.len() - 1));
    }
}

// ---------------------------------------------------------------- decoding

pub open spec fn text_of(o: Option<JsonModel>) -> Option<Seq<char>> {
    match o {
        Some(JsonModel::Str(s)) => Some(s),
        _ => None,
    }
}

pub open spec fn text_or_empty(o: Option<JsonModel>) -> Seq<char> {
    match o {
        Some(JsonModel::Str(s)) => s,
        _ => Seq::empty(),
    }
}

pub open spec fn bool_of(o: Option<JsonModel>) -> Option<bool> {
    match o {
        Some(JsonModel::Bool(b)) => Some(b),
        _ => None,
    }
}

pub open spec fn bool_or_false(o: Option<JsonModel>) -> bool {
    match o {
        Some(JsonModel::Bool(b)) => b,
        _ => false,
    }
}

pub open spec fn number_of(o: Option<JsonModel>) -> Option<u64> {
    match o {
        Some(JsonModel::Number(n)) => Some(n),
        _ => None,
    }
}

pub open spec fn decode_attribute(j: JsonModel) -> AttributeModel {
    if text_or_empty(field(j, "type"@)) == "mdxJsxExpressionAttribute"@ {
        AttributeModel::Expression { value: text_or_empty(field(j, "value"@)) }
    } else {
        AttributeModel::Property {
            name: text_or_empty(field(j, "name"@)),
            value: text_of(field(j, "value"@)),
        }
    }
}

pub open spec fn decode_attributes(o: Option<JsonModel>) -> Seq<AttributeModel> {
    match o {
        Some(JsonModel::Array(a)) => a.map_values(|j: JsonModel| decode_attribute(j)),
        _ => Seq::empty(),
    }
}

/// Reads a node back from its interchange form. Missing or ill-typed attributes read
/// as absent, false, empty or depth 1; anything that is no known node reads as `Unknown`.
pub open spec fn decode(j: JsonModel) -> NodeModel
    decreases j,
{
    match j {
        JsonModel::Object(ms) => decode_members(ms),
        _ => NodeModel::Unknown { debug_text: Seq::empty() },
    }
}

pub open spec fn decode_members(ms: Seq<(Seq<char>, JsonModel)>) -> NodeModel
    decreases ms,
{
    let j = JsonModel::Object(ms);
    let k = find_key(ms, "children"@);
    let kids = if 0 <= k < ms.len() {
        match ms[k].1 {
            JsonModel::Array(a) => decode_all(a),
            _ => Seq::empty(),
        }
    } else {
        Seq::empty()
    };
    match type_of(text_or_empty(field(j, "type"@))) {
        NodeType::Container(kind) => NodeModel::Container { kind, children: kids },
        NodeType::Heading => NodeModel::Heading {
            depth: match number_of(field(j, "depth"@)) {
                Some(d) => d,
                None => 1,
            },
            children: kids,
        },
        NodeType::Literal(kind) => NodeModel::Literal {
            kind,
            value: text_or_empty(field(j, "value"@)),
        },
        NodeType::Code => NodeModel::Code {
            lang: text_of(field(j, "lang"@)),
            meta: text_of(field(j, "meta"@)),
            value: text_or_empty(field(j, "value"@)),
        },
        NodeType::List => NodeModel::List {
            ordered: bool_or_false(field(j, "ordered"@)),
            start: number_of(field(j, "start"@)),
            spread: bool_or_false(field(j, "spread"@)),
            children: kids,
        },
        NodeType::ListItem => NodeModel::ListItem {
            spread: bool_or_false(field(j, "spread"@)),
            checked: bool_of(field(j, "checked"@)),
            children: kids,
        },
        NodeType::Link => NodeModel::Link {
            url: text_or_empty(field(j, "url"@)),
            title: text_of(field(j, "title"@)),
            children: kids,
        },
        NodeType::Image => NodeModel::Image {
            url: text_or_empty(field(j, "url"@)),
            title: text_of(field(j, "title"@)),
            alt: text_of(field(j, "alt"@)),
        },
        NodeType::Rule(kind) => NodeModel::Rule { kind },
        NodeType::Element(kind) => NodeModel::JsxElement {
            kind,
            name: text_of(field(j, "name"@)),
            attributes: decode_attributes(field(j, "attributes"@)),
            children: kids,
        },
        _ => NodeModel::Unknown { debug_text: text_or_empty(field(j, "value"@)) },
    }
}

pub open spec fn decode_all(a: Seq<JsonModel>) -> Seq<NodeModel>
    decreases a,
{
    if a.len() == 0 {
        Seq::empty()
    } else {
        decode_all(a.subrange(0, a.len() - 1)).push(decode(a[a.len() - 1]))
    }
}

pub proof fn lemma_decode_all(a: Seq<JsonModel>)
    ensures
        decode_all(a).len() == a.len(),
        forall|i: int| 0 <= i < a.len() ==> #[trigger] decode_all(a)[i] == decode(a[i]),
    decreases a.len(),
{
    if a.len() > 0 {
        lemma_decode_all(a.subrange(0, a.len() - 1));
    }
}

// ---------------------------------------------------------------- round trip

/// Reading a known discriminator's name gives that discriminator back.
pub proof fn lemma_type_of_discriminator(t: NodeType)
    requires
        t != NodeType::Unrecognized,
    ensures
        type_of(discriminator(t)) == t,
{
    reveal_strlit("root");
    reveal_strlit("paragraph");
    reveal_strlit("emphasis");
    reveal_strlit("strong");
    reveal_strlit("blockquote");
    reveal_strlit("heading");
    reveal_strlit("text");
    reveal_strlit("inlineCode");
    reveal_strlit("mdxjsEsm");
    reveal_strlit("mdxFlowExpression");
    reveal_strlit("mdxTextExpression");
    reveal_strlit("yaml");
    reveal_strlit("toml");
    reveal_strlit("code");
    reveal_strlit("list");
    reveal_strlit("listItem");
    reveal_strlit("link");
    reveal_strlit("image");
    reveal_strlit("break");
    reveal_strlit("thematicBreak");
    reveal_strlit("mdxJsxFlowElement");
    reveal_strlit("mdxJsxTextElement");
    reveal_strlit("unknown");
    reveal_with_fuel(type_of_from, 24);
    assert("root"@.len() == 4 && "root"@[0] == 'r');
    assert("paragraph"@.len() == 9 && "paragraph"@[0] == 'p');
    assert("emphasis"@.len() == 8 && "emphasis"@[0] == 'e');
    assert("strong"@.len() == 6 && "strong"@[0] == 's');
    assert("blockquote"@.len() == 10 && "blockquote"@[0] == 'b');
    assert("heading"@.len() == 7 && "heading"@[0] == 'h');
    assert("text"@.len() == 4 && "text"@[0] == 't' && "text"@[1] == 'e');
    assert("inlineCode"@.len() == 10 && "inlineCode"@[0] == 'i');
    assert("mdxjsEsm"@.len() == 8 && "mdxjsEsm"@[0] == 'm');
    assert("mdxFlowExpression"@.len() == 17 && "mdxFlowExpression"@[0] == 'm' && "mdxFlowExpression"@[3] == 'F');
    assert("mdxTextExpression"@.len() == 17 && "mdxTextExpression"@[0] == 'm' && "mdxTextExpression"@[3] == 'T');
    assert("yaml"@.len() == 4 && "yaml"@[0] == 'y');
    assert("toml"@.len() == 4 && "toml"@[0] == 't' && "toml"@[1] == 'o');
    assert("code"@.len() == 4 && "code"@[0] == 'c');
    assert("list"@.len() == 4 && "list"@[0] == 'l' && "list"@[2] == 's');
    assert("listItem"@.len() == 8 && "listItem"@[0] == 'l');
    assert("link"@.len() == 4 && "link"@[0] == 'l' && "link"@[2] == 'n');
    assert("image"@.len() == 5 && "image"@[0] == 'i');
    assert("break"@.len() == 5 && "break"@[0] == 'b');
    assert("thematicBreak"@.len() == 13 && "thematicBreak"@[0] == 't');
    assert("mdxJsxFlowElement"@.len() == 17 && "mdxJsxFlowElement"@[0] == 'm' && "mdxJsxFlowElement"@[3] == 'J' && "mdxJsxFlowElement"@[6] == 'F');
    assert("mdxJsxTextElement"@.len() == 17 && "mdxJsxTextElement"@[0] == 'm' && "mdxJsxTextElement"@[3] == 'J' && "mdxJsxTextElement"@[6] == 'T');
    assert("unknown"@.len() == 7 && "unknown"@[0] == 'u');
}

/// Decoding the interchange form of an attribute gives the attribute back.
pub proof fn lemma_attribute_round_trip(a: AttributeModel)
    ensures
        decode_attribute(encode_attribute(a)) == a,
{
    reveal_strlit("type");
    reveal_strlit("children");
    reveal_strlit("depth");
    reveal_strlit("value");
    reveal_strlit("lang");
    reveal_strlit("meta");
    reveal_strlit("ordered");
    reveal_strlit("start");
    reveal_strlit("spread");
    reveal_strlit("checked");
    reveal_strlit("url");
    reveal_strlit("title");
    reveal_strlit("alt");
    reveal_strlit("name");
    reveal_strlit("attributes");
    reveal_strlit("mdxJsxAttribute");
    reveal_strlit("mdxJsxExpressionAttribute");
    reveal_with_fuel(find_key_from, 4);
    assert("type"@.len() == 4 && "type"@[0] == 't');
    assert("children"@.len() == 8 && "children"@[0] == 'c');
    assert("depth"@.len() == 5 && "depth"@[0] == 'd');
    assert("value"@.len() == 5 && "value"@[0] == 'v');
    assert("lang"@.len() == 4 && "lang"@[0] == 'l');
    assert("meta"@.len() == 4 && "meta"@[0] == 'm');
    assert("ordered"@.len() == 7 && "ordered"@[0] == 'o');
    assert("start"@.len() == 5 && "start"@[0] == 's');
    assert("spread"@.len() == 6 && "spread"@[0] == 's');
    assert("checked"@.len() == 7 && "checked"@[0] == 'c');
    assert("url"@.len() == 3 && "url"@[0] == 'u');
    assert("title"@.len() == 5 && "title"@[0] == 't');
    assert("alt"@.len() == 3 && "alt"@[0] == 'a');
    assert("name"@.len() == 4 && "name"@[0] == 'n');
    assert("attributes"@.len() == 10 && "attributes"@[0] == 'a');
    assert("mdxJsxAttribute"@.len() == 15 && "mdxJsxAttribute"@[0] == 'm');
    assert("mdxJsxExpressionAttribute"@.len() == 25 && "mdxJsxExpressionAttribute"@[0] == 'm');
}

/// Decoding the interchange form of a node gives the node back: every attribute,
/// and every child in its order.
pub proof fn lemma_round_trip(m: NodeModel)
    ensures
        decode(encode(m)) == m,
    decreases m,
{
    reveal_strlit("type");
    reveal_strlit("children");
    reveal_strlit("depth");
    reveal_strlit("value");
    reveal_strlit("lang");
    reveal_strlit("meta");
    reveal_strlit("ordered");
    reveal_strlit("start");
    reveal_strlit("spread");
    reveal_strlit("checked");
    reveal_strlit("url");
    reveal_strlit("title");
    reveal_strlit("alt");
    reveal_strlit("name");
    reveal_strlit("attributes");
    reveal_strlit("mdxJsxAttribute");
    reveal_strlit("mdxJsxExpressionAttribute");
    reveal_with_fuel(find_key_from, 6);
    assert("type"@.len() == 4 && "type"@[0] == 't');
    assert("children"@.len() == 8 && "children"@[0] == 'c');
    assert("depth"@.len() == 5 && "depth"@[0] == 'd');
    assert("value"@.len() == 5 && "value"@[0] == 'v');
    assert("lang"@.len() == 4 && "lang"@[0] == 'l');
    assert("meta"@.len() == 4 && "meta"@[0] == 'm');
    assert("ordered"@.len() == 7 && "ordered"@[0] == 'o');
    assert("start"@.len() == 5 && "start"@[0] == 's');
    assert("spread"@.len() == 6 && "spread"@[0] == 's');
    assert("checked"@.len() == 7 && "checked"@[0] == 'c');
    assert("url"@.len() == 3 && "url"@[0] == 'u');
    assert("title"@.len() == 5 && "title"@[0] == 't');
    assert("alt"@.len() == 3 && "alt"@[0] == 'a');
    assert("name"@.len() == 4 && "name"@[0] == 'n');
    assert("attributes"@.len() == 10 && "attributes"@[0] == 'a');
    assert("mdxJsxAttribute"@.len() == 15 && "mdxJsxAttribute"@[0] == 'm');
    assert("mdxJsxExpressionAttribute"@.len() == 25 && "mdxJsxExpressionAttribute"@[0] == 'm');
    match m {
        NodeModel::Container { kind, children } => {
            lemma_type_of_discriminator(NodeType::Container(kind));
            lemma_round_trip_all(children);
        },
        NodeModel::Heading { depth, children } => {
            lemma_type_of_discriminator(NodeType::Heading);
            lemma_round_trip_all(children);
        },
        NodeModel::Literal { kind, value } => {
            lemma_type_of_discriminator(NodeType::Literal(kind));
        },
        NodeModel::Code { .. } => {
            lemma_type_of_discriminator(NodeType::Code);
        },
        NodeModel::List { children, .. } => {
            lemma_type_of_discriminator(NodeType::List);
            lemma_round_trip_all(children);
        },
        NodeModel::ListItem { children, .. } => {
            lemma_type_of_discriminator(NodeType::ListItem);
            lemma_round_trip_all(children);
        },
        NodeModel::Link { children, .. } => {
            lemma_type_of_discriminator(NodeType::Link);
            lemma_round_trip_all(children);
        },
        NodeModel::Image { .. } => {
            lemma_type_of_discriminator(NodeType::Image);
        },
        NodeModel::Rule { kind } => {
            lemma_type_of_discriminator(NodeType::Rule(kind));
        },
        NodeModel::JsxElement { kind, attributes, children, .. } => {
            lemma_type_of_discriminator(NodeType::Element(kind));
            lemma_round_trip_all(children);
            let encoded = attributes.map_values(|a: AttributeModel| encode_attribute(a));
            assert forall|i: int| 0 <= i < attributes.len() implies #[trigger] decode_attribute(
                encoded[i],
            ) == attributes[i] by {
                lemma_attribute_round_trip(attributes[i]);
            }
            assert(encoded.map_values(|j: JsonModel| decode_attribute(j)) =~= attributes);
        },
        NodeModel::Unknown { .. } => {
            lemma_type_of_discriminator(NodeType::Unknown);
        },
    }
}

/// Decoding the interchange forms of a sequence of nodes gives the sequence back.
pub proof fn lemma_round_trip_all(s: Seq<NodeModel>)
    ensures
        decode_all(encode_all(s)) == s,
    decreases s,
{
    lemma_encode_all(s);
    lemma_decode_all(encode_all(s));
    assert forall|i: int| 0 <= i < s.len() implies #[trigger] decode_all(encode_all(s))[i]
        == s[i] by {
        lemma_round_trip(s[i]);
    }
    assert(decode_all(encode_all(s)) =~= s);
}

} // verus!
