use vstd::prelude::*;
use vstd::string::StringExecFns;

verus! {

/// The module around a root expression: the two runtime pragmas, the import of the three
/// factory functions, a component function that builds its override table from
/// `props.components` and returns the expression, and the default export.
pub open spec fn module_text(expr: Seq<char>) -> Seq<char> {
    "/*@jsxRuntime automatic*/\n/*@jsxImportSource astro*/\nimport { jsx as _jsx, jsxs as _jsxs, Fragment as _Fragment } from 'astro/jsx-runtime';\n\nfunction _createMdxContent(props) {\n  const _components = {\n    ...props.components,\n  };\n  return "@
        + expr + ";\n}\n\nexport default _createMdxContent;\n"@
}

/// Wraps a root expression in the module that exports it.
pub fn emit_module(expr: &str) -> (r: String)
    ensures
        r@ == module_text(expr@),
{
    let mut s = String::from_str(
        "/*@jsxRuntime automatic*/\n/*@jsxImportSource astro*/\nimport { jsx as _jsx, jsxs as _jsxs, Fragment as _Fragment } from 'astro/jsx-runtime';\n\nfunction _createMdxContent(props) {\n  const _components = {\n    ...props.components,\n  };\n  return ",
    );
    s.append(expr);
    s.append(";\n}\n\nexport default _createMdxContent;\n");
    s
}

} // verus!
