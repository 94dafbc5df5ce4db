use vstd::prelude::*;
use vstd::string::*;
use crate::ast::{fun_views, param_views, FunDef, ParamDecl};
use crate::codegen::engine::CodeGenerator;
use crate::codegen::stmt::body_text;
use crate::codegen::target;
use crate::text::join;

verus! {

/// Turns functions into the target language.
pub trait FunctionGenerator {
    /// Functions in the target language.
    fn generate_functions(&self, functions: Vec<FunDef>) -> String;

    /// A function in the target language, with a line break behind it.
    fn convert_function(&self, function: FunDef) -> String;

    /// A parameter list in the target language.
    fn convert_params(&self, params: Vec<ParamDecl>) -> String;
}

/// A parameter list in the target language.
pub fn params_text(params: &Vec<ParamDecl>) -> (out: String)
    ensures
        out@ == target::params(param_views(params@)),
{
    let mut names: Vec<String> = Vec::new();
    let mut i: usize = 0;
    while i < params.len()
        invariant
            0 <= i <= params.len(),
            names.len() == i,
            forall|j: int| 0 <= j < i ==> #[trigger] names[j]@ == params[j].name@,
        decreases params.len() - i,
    {
        names.push(params[i].name.clone());
        i += 1;
    }
    proof {
        assert(crate::text::string_views(names@) =~= target::param_names(param_views(params@)));
    }
    join(&names, ",")
}

/// A function in the target language, with a line break behind it.
pub fn function_text(function: &FunDef) -> (out: String)
    ensures
        out@ == target::function(function@),
{
    let mut out = String::from_str("function ");
    out.append(function.name.as_str());
    out.append("(");
    out.append(params_text(&function.params).as_str());
    out.append(")");
    out.append(body_text(&function.statements).as_str());
    out.append("\n");
    out
}

/// Functions in the target language.
pub fn function_list(functions: &Vec<FunDef>) -> (out: String)
    ensures
        out@ == target::functions(fun_views(functions@)),
{
    let mut parts: Vec<String> = Vec::new();
    let mut i: usize = 0;
    while i < functions.len()
        invariant
            0 <= i <= functions.len(),
            parts.len() == i,
            forall|j: int| 0 <= j < i ==> #[trigger] parts[j]@ == target::function(functions[j]@),
        decreases functions.len() - i,
    {
        parts.push(function_text(&functions[i]));
        i += 1;
    }
    proof {
        assert(crate::text::string_views(parts@) =~= target::function_texts(
            fun_views(functions@),
        ));
    }
    let joined = join(&parts, "; \n");
    String::from_str(joined.as_str().trim())
}

impl FunctionGenerator for CodeGenerator {
    /// Functions in the target language.
    fn generate_functions(&self, functions: Vec<FunDef>) -> (out: String)
        ensures
            out@ == target::functions(fun_views(functions@)),
    {
        function_list(&functions)
    }

    /// A function in the target language, with a line break behind it.
    fn convert_function(&self, function: FunDef) -> (out: String)
        ensures
            out@ == target::function(function@),
    {
        function_text(&function)
    }

    /// A parameter list in the target language.
    fn convert_params(&self, params: Vec<ParamDecl>) -> (out: String)
        ensures
            out@ == target::params(param_views(params@)),
    {
        params_text(&params)
    }
}

} // verus!
