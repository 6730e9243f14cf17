use vstd::prelude::*;
use vstd::string::StringExecFns;

use crate::node::{
    lemma_nodes_model, node_model, nodes_model, ContainerKind, LiteralKind, NeutralNode,
    NodeModel,
};
use crate::text::{decimal, decimal_text, escape_quotes, escape_single_quotes};

verus! {

broadcast use vstd::std_specs::vec::group_vec_axioms;

/// A built-in element: its tag goes through the override table, falling back to the
/// tag string. It always takes the single-child constructor; no children means no
/// children argument, one child is passed directly, more go in an array literal.
pub open spec fn builtin(tag: Seq<char>, count: nat, joined: Seq<char>) -> Seq<char> {
    if count == 0 {
        "_jsx(_components."@ + tag + " || '"@ + tag + "')"@
    } else {
        "_jsx(_components."@ + tag + " || '"@ + tag + "', { children: "@ + (if count == 1 {
            joined
        } else {
            "["@ + joined + "]"@
        }) + " })"@
    }
}

/// A list: its children always go in an array literal.
pub open spec fn list_call(tag: Seq<char>, joined: Seq<char>) -> Seq<char> {
    "_jsx(_components."@ + tag + " || '"@ + tag + "', { children: ["@ + joined + "] })"@
}

/// A custom component: referenced directly; more than one child takes the
/// multi-child constructor.
pub open spec fn element_call(name: Seq<char>, count: nat, joined: Seq<char>) -> Seq<char> {
    if count == 0 {
        "_jsx("@ + name + ", {})"@
    } else if count == 1 {
        "_jsx("@ + name + ", { children: "@ + joined + " })"@
    } else {
        "_jsxs("@ + name + ", { children: ["@ + joined + "] })"@
    }
}

pub open spec fn fragment(joined: Seq<char>) -> Seq<char> {
    "_jsxs(_Fragment, { children: ["@ + joined + "] })"@
}

pub open spec fn quoted(s: Seq<char>) -> Seq<char> {
    "'"@ + escape_quotes(s) + "'"@
}

pub open spec fn class_name(lang: Option<Seq<char>>) -> Seq<char> {
    match lang {
        Some(l) => if l.len() > 0 {
            "language-"@ + l
        } else {
            Seq::empty()
        },
        None => Seq::empty(),
    }
}

pub open spec fn code_block(lang: Option<Seq<char>>, value: Seq<char>) -> Seq<char> {
    "_jsx(_components.pre || 'pre', { children: _jsx(_components.code || 'code', { className: '"@
        + class_name(lang) + "', children: '"@ + escape_quotes(value) + "' }) })"@
}

pub open spec fn inline_code(value: Seq<char>) -> Seq<char> {
    "_jsx(_components.code || 'code', { children: '"@ + escape_quotes(value) + "' })"@
}

/// The JSX-construction expression of a node.
pub open spec fn gen(m: NodeModel) -> Seq<char>
    decreases m,
{
    match m {
        NodeModel::Container { kind, children } => match kind {
            ContainerKind::Root => if children.len() == 1 {
                gen_joined(children)
            } else {
                fragment(gen_joined(children))
            },
            ContainerKind::Paragraph => builtin("p"@, children.len(), gen_joined(children)),
            ContainerKind::Emphasis => builtin("em"@, children.len(), gen_joined(children)),
            ContainerKind::Strong => builtin("strong"@, children.len(), gen_joined(children)),
            ContainerKind::Blockquote => "null"@,
        },
        NodeModel::Heading { depth, children } => builtin(
            "h"@ + decimal(depth as nat),
            children.len(),
            gen_joined(children),
        ),
        NodeModel::Literal { kind, value } => match kind {
            LiteralKind::Text => quoted(value),
            LiteralKind::InlineCode => inline_code(value),
            _ => "null"@,
        },
        NodeModel::Code { lang, value, .. } => code_block(lang, value),
        NodeModel::List { ordered, children, .. } => list_call(
            if ordered {
                "ol"@
            } else {
                "ul"@
            },
            gen_joined(children),
        ),
        NodeModel::ListItem { children, .. } => builtin("li"@, children.len(), gen_joined(children)),
        NodeModel::JsxElement { name, children, .. } => element_call(
            match name {
                Some(n) => n,
                None => "div"@,
            },
            children.len(),
            gen_joined(children),
        ),
        _ => "null"@,
    }
}

/// The expressions of a sequence of nodes, in order, separated by ", ".
pub open spec fn gen_joined(s: Seq<NodeModel>) -> Seq<char>
    decreases s,
{
    if s.len() == 0 {
        Seq::empty()
    } else if s.len() == 1 {
        gen(s[0])
    } else {
        gen_joined(s.subrange(0, s.len() - 1)) + ", "@ + gen(s[s.len() - 1])
    }
}

fn builtin_call(tag: &str, count: usize, joined: &str) -> (r: String)
    ensures
        r@ == builtin(tag@, count as nat, joined@),
{
    let mut s = String::from_str("_jsx(_components.");
    s.append(tag);
    s.append(" || '");
    s.append(tag);
    if count == 0 {
        s.append("')");
    } else {
        s.append("', { children: ");
        if count == 1 {
            s.append(joined);
        } else {
            s.append("[");
            s.append(joined);
            s.append("]");
        }
        s.append(" })");
    }
    proof {
        if count != 0 && count != 1 {
            assert(s@ =~= builtin(tag@, count as nat, joined@));
        }
    }
    s
}

fn list_text(tag: &str, joined: &str) -> (r: String)
    ensures
        r@ == list_call(tag@, joined@),
{
    let mut s = String::from_str("_jsx(_components.");
    s.append(tag);
    s.append(" || '");
    s.append(tag);
    s.append("', { children: [");
    s.append(joined);
    s.append("] })");
    s
}

fn element_text(name: &str, count: usize, joined: &str) -> (r: String)
    ensures
        r@ == element_call(name@, count as nat, joined@),
{
    if count == 0 {
        let mut s = String::from_str("_jsx(");
        s.append(name);
        s.append(", {})");
        s
    } else if count == 1 {
        let mut s = String::from_str("_jsx(");
        s.append(name);
        s.append(", { children: ");
        s.append(joined);
        s.append(" })");
        s
    } else {
        let mut s = String::from_str("_jsxs(");
        s.append(name);
        s.append(", { children: [");
        s.append(joined);
        s.append("] })");
        s
    }
}

fn code_text(lang: &Option<String>, value: &String) -> (r: String)
    ensures
        r@ == code_block(crate::node::opt_text(*lang), value@),
{
    let mut s = String::from_str(
        "_jsx(_components.pre || 'pre', { children: _jsx(_components.code || 'code', { className: '",
    );
    match lang {
        Some(l) => {
            if l.as_str().unicode_len() > 0 {
                s.append("language-");
                s.append(l.as_str());
            }
        },
        None => {},
    }
    s.append("', children: '");
    let escaped = escape_single_quotes(value.as_str());
    s.append(escaped.as_str());
    s.append("' }) })");
    proof {
        assert(s@ =~= code_block(crate::node::opt_text(*lang), value@));
    }
    s
}

/// The JSX-construction expression of a node.
pub fn generate_jsx(n: &NeutralNode) -> (r: String)
    ensures
        r@ == gen(node_model(*n)),
    decreases n,
{
    match n {
        NeutralNode::Container { kind, children } => {
            let joined = generate_joined(children);
            match kind {
                ContainerKind::Root => if children.len() == 1 {
                    joined
                } else {
                    let mut s = String::from_str("_jsxs(_Fragment, { children: [");
                    s.append(joined.as_str());
                    s.append("] })");
                    s
                },
                ContainerKind::Paragraph => builtin_call("p", children.len(), joined.as_str()),
                ContainerKind::Emphasis => builtin_call("em", children.len(), joined.as_str()),
                ContainerKind::Strong => builtin_call("strong", children.len(), joined.as_str()),
                ContainerKind::Blockquote => String::from_str("null"),
            }
        },
        NeutralNode::Heading { depth, children } => {
            let joined = generate_joined(children);
            let mut tag = String::from_str("h");
            let digits = decimal_text(*depth);
            tag.append(digits.as_str());
            builtin_call(tag.as_str(), children.len(), joined.as_str())
        },
        NeutralNode::Literal { kind, value } => match kind {
            LiteralKind::Text => {
                let mut s = String::from_str("'");
                let escaped = escape_single_quotes(value.as_str());
                s.append(escaped.as_str());
                s.append("'");
                s
            },
            LiteralKind::InlineCode => {
                let mut s = String::from_str("_jsx(_components.code || 'code', { children: '");
                let escaped = escape_single_quotes(value.as_str());
                s.append(escaped.as_str());
                s.append("' })");
                s
            },
            _ => String::from_str("null"),
        },
        NeutralNode::Code { lang, value, .. } => code_text(lang, value),
        NeutralNode::List { ordered, children, .. } => {
            let joined = generate_joined(children);
            list_text(
                if *ordered {
                    "ol"
                } else {
                    "ul"
                },
                joined.as_str(),
            )
        },
        NeutralNode::ListItem { children, .. } => {
            let joined = generate_joined(children);
            builtin_call("li", children.len(), joined.as_str())
        },
        NeutralNode::JsxElement { name, children, .. } => {
            let joined = generate_joined(children);
            match name {
                Some(nm) => element_text(nm.as_str(), children.len(), joined.as_str()),
                None => element_text("div", children.len(), joined.as_str()),
            }
        },
        _ => String::from_str("null"),
    }
}

/// The expressions of a sequence of nodes, in order, separated by ", ".
pub fn generate_joined(v: &Vec<NeutralNode>) -> (r: String)
    ensures
        r@ == gen_joined(nodes_model(v@)),
        nodes_model(v@).len() == v@.len(),
    decreases v,
{
    let ghost m = nodes_model(v@);
    proof {
        lemma_nodes_model(v@);
    }
    let mut out = String::new();
    let mut i: usize = 0;
    while i < v.len()
        invariant
            i <= v.len(),
            m == nodes_model(v@),
            m.len() == v@.len(),
            forall|j: int| 0 <= j < v@.len() ==> #[trigger] m[j] == node_model(v@[j]),
            out@ == gen_joined(m.subrange(0, i as int)),
        decreases v.len() - i,
    {
        let next = generate_jsx(&v[i]);
        proof {
            let sub = m.subrange(0, i + 1);
            assert(sub.subrange(0, i as int) =~= m.subrange(0, i as int));
            assert(sub[i as int] == m[i as int]);
            if i == 0 {
                assert(out@ =~= Seq::<char>::empty());
            }
        }
        if i > 0 {
            out.append(", ");
        }
        out.append(next.as_str());
        proof {
            if i == 0 {
                assert(out@ =~= next@);
            }
        }
        i = i + 1;
    }
    proof {
        assert(m.subrange(0, v@.len() as int) =~= m);
    }
    out
}

/// A root with exactly one block generates that block's own expression, unwrapped.
pub proof fn lemma_single_block_root(block: NodeModel)
    ensures
        gen(NodeModel::Container { kind: ContainerKind::Root, children: seq![block] }) == gen(
            block,
        ),
{
}

/// A root with two blocks generates a fragment, with the multi-child constructor, over
/// both expressions in order.
pub proof fn lemma_two_block_root(first: NodeModel, second: NodeModel)
    ensures
        gen(NodeModel::Container { kind: ContainerKind::Root, children: seq![first, second] })
            == "_jsxs(_Fragment, { children: ["@ + gen(first) + ", "@ + gen(second) + "] })"@,
{
    let s = seq![first, second];
    assert(s.subrange(0, 1) =~= seq![first]);
    assert(gen_joined(seq![first]) == gen(first));
    assert(gen_joined(s) == gen(first) + ", "@ + gen(second));
    assert(fragment(gen_joined(s)) =~= "_jsxs(_Fragment, { children: ["@ + gen(first) + ", "@
        + gen(second) + "] })"@);
}

/// A custom component with two children takes the multi-child constructor and is referenced
/// directly, while a paragraph with two children keeps the single-child constructor with an
/// array of children.
pub proof fn lemma_two_children_constructors(
    name: Seq<char>,
    attributes: Seq<crate::node::AttributeModel>,
    kind: crate::node::ElementKind,
    first: NodeModel,
    second: NodeModel,
)
    ensures
        gen(
            NodeModel::JsxElement {
                kind,
                name: Some(name),
                attributes,
                children: seq![first, second],
            },
        ) == "_jsxs("@ + name + ", { children: ["@ + gen(first) + ", "@ + gen(second)
            + "] })"@,
        gen(
            NodeModel::Container {
                kind: ContainerKind::Paragraph,
                children: seq![first, second],
            },
        ) == "_jsx(_components."@ + "p"@ + " || '"@ + "p"@ + "', { children: "@ + ("["@ + gen(
            first,
        ) + ", "@ + gen(second) + "]"@) + " })"@,
{
    let s = seq![first, second];
    let joined = gen(first) + ", "@ + gen(second);
    assert(s.subrange(0, 1) =~= seq![first]);
    assert(gen_joined(seq![first]) == gen(first));
    assert(gen_joined(s) == joined);
    assert(element_call(name, 2, joined) =~= "_jsxs("@ + name + ", { children: ["@ + gen(first)
        + ", "@ + gen(second) + "] })"@);
    assert(builtin("p"@, 2, joined) =~= "_jsx(_components."@ + "p"@ + " || '"@ + "p"@
        + "', { children: "@ + ("["@ + gen(first) + ", "@ + gen(second) + "]"@) + " })"@);
}

/// Any node that is not modelled, as the lone child of a paragraph, generates a paragraph
/// whose children is the null expression.
pub proof fn lemma_unknown_child_of_paragraph(debug_text: Seq<char>)
    ensures
        gen(
            NodeModel::Container {
                kind: ContainerKind::Paragraph,
                children: seq![NodeModel::Unknown { debug_text }],
            },
        ) == "_jsx(_components."@ + "p"@ + " || '"@ + "p"@ + "', { children: "@ + "null"@
            + " })"@,
{
    let u = NodeModel::Unknown { debug_text };
    assert(gen(u) == "null"@);
    assert(gen_joined(seq![u]) == "null"@);
}

/// A list takes the single-child constructor and an array of children whatever their
/// number; `ol` when ordered, `ul` otherwise.
pub proof fn lemma_list_constructor(
    ordered: bool,
    start: Option<u64>,
    spread: bool,
    children: Seq<NodeModel>,
)
    ensures
        gen(NodeModel::List { ordered, start, spread, children }) == "_jsx(_components."@ + (
        if ordered {
            "ol"@
        } else {
            "ul"@
        }) + " || '"@ + (if ordered {
            "ol"@
        } else {
            "ul"@
        }) + "', { children: ["@ + gen_joined(children) + "] })"@,
{
}

/// The tags of headings of depth 1 to 6.
pub open spec fn heading_tags() -> Seq<Seq<char>> {
    seq!["h1"@, "h2"@, "h3"@, "h4"@, "h5"@, "h6"@]
}

/// A heading of depth 1 to 6 is the built-in element `h1` to `h6`, through the override table.
pub proof fn lemma_heading_tag(depth: u64, children: Seq<NodeModel>)
    requires
        1 <= depth <= 6,
    ensures
        gen(NodeModel::Heading { depth, children }) == builtin(
            heading_tags()[depth - 1],
            children.len(),
            gen_joined(children),
        ),
{
    reveal_strlit("h");
    reveal_strlit("0123456789");
    reveal_strlit("h1");
    reveal_strlit("h2");
    reveal_strlit("h3");
    reveal_strlit("h4");
    reveal_strlit("h5");
    reveal_strlit("h6");
    assert("h"@ + decimal(depth as nat) =~= heading_tags()[depth - 1]);
}

} // verus!
