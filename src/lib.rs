use vstd::prelude::*;
use vstd::string::StringExecFns;

pub mod codec;
pub mod convert;
pub mod emit;
pub mod generate;
pub mod interchange;
pub mod json;
pub mod node;
pub mod text;

use crate::codec::{decode, encode};
use crate::convert::{decode_node, encode_node};
use crate::emit::{emit_module, module_text};
use crate::generate::{gen, generate_jsx};
use crate::interchange::{json_parse, json_text, read_json, write_json};
use crate::json::{json_model, Json};
use crate::node::{node_model, NeutralNode};

verus! {

/// Interchange text that is not JSON at all.
pub struct CodecError {
    pub message: String,
}

/// The generated module for the tree that an interchange text reads as, or none where
/// the text is not JSON.
pub open spec fn compiled(ast_text: Seq<char>) -> Option<Seq<char>> {
    match json_parse(ast_text) {
        Some(j) => Some(module_text(gen(decode(j)))),
        None => None,
    }
}

/// The interchange text of a tree.
pub fn serialize_ast(root: &NeutralNode) -> (r: String)
    ensures
        r@ == json_text(encode(node_model(*root))),
{
    let j = encode_node(root);
    write_json(&j)
}

/// Reads a tree from interchange text. Fails exactly where the text is not JSON; any
/// JSON reads as some tree.
pub fn deserialize_ast(text: &str) -> (r: Result<NeutralNode, CodecError>)
    ensures
        r is Ok <==> json_parse(text@) is Some,
        r matches Ok(n) ==> node_model(n) == decode(json_parse(text@)->0),
{
    match read_json(text) {
        Ok(j) => Ok(decode_node(&j)),
        Err(e) => Err(CodecError { message: e }),
    }
}

/// The module source for a tree.
pub fn generate_module(root: &NeutralNode) -> (r: String)
    ensures
        r@ == module_text(gen(node_model(*root))),
{
    let expr = generate_jsx(root);
    emit_module(expr.as_str())
}

/// The module source for a JSON value read as a tree.
pub fn generate_from_json(j: &Json) -> (r: String)
    ensures
        r@ == module_text(gen(decode(json_model(*j)))),
{
    let root = decode_node(j);
    generate_module(&root)
}

/// Generates the module source from interchange text.
pub fn generate_from_ast(ast_json: String) -> (r: Result<String, CodecError>)
    ensures
        r is Ok <==> compiled(ast_json@) is Some,
        r matches Ok(s) ==> s@ == compiled(ast_json@)->0,
{
    match read_json(ast_json.as_str()) {
        Ok(j) => Ok(generate_from_json(&j)),
        Err(e) => {
            let mut message = String::from_str("Failed to deserialize AST: ");
            message.append(e.as_str());
            Err(CodecError { message })
        },
    }
}

/// A tree through its interchange text to the module source, as two independent calls
/// (serialize, then generate from the text) would run.
pub fn compile_tree(root: &NeutralNode) -> (r: Result<String, CodecError>)
    ensures
        r is Ok <==> compiled(json_text(encode(node_model(*root)))) is Some,
        r matches Ok(s) ==> s@ == compiled(json_text(encode(node_model(*root))))->0,
{
    let text = serialize_ast(root);
    generate_from_ast(text)
}

/// The value of an attribute given as an expression: its source wrapped in braces.
pub fn expression_attribute_value(source: &str) -> (r: String)
    ensures
        r@ == "{"@ + source@ + "}"@,
{
    let mut s = String::from_str("{");
    s.append(source);
    s.append("}");
    s
}

/// Generation is deterministic: two generations from the same interchange text give the
/// same module source.
pub proof fn lemma_generation_deterministic(text: Seq<char>, first: Seq<char>, second: Seq<char>)
    requires
        compiled(text) == Some(first),
        compiled(text) == Some(second),
    ensures
        first == second,
{
}

} // verus!
