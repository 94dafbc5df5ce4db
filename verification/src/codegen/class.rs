use vstd::prelude::*;
use vstd::string::*;
use crate::ast::{class_views, method_views, var_views, ClassDef, Constructor, MethDef, VarDeclStmt};
use crate::codegen::engine::CodeGenerator;
use crate::codegen::expr::expression_list;
use crate::codegen::fun::params_text;
use crate::codegen::stmt::{body_text, statement_text};
use crate::codegen::target;
use crate::text::{concat, join};

verus! {

/// Turns classes into the target language.
pub trait ClassGenerator {
    /// Methods in the target language.
    fn generate_methods(&self, methods: Vec<MethDef>) -> String;

    /// Classes in the target language, one per line.
    fn generate_classes(&self, classes: Vec<ClassDef>) -> String;

    /// A class in the target language.
    fn convert_class(&self, class: ClassDef) -> String;

    /// The fields of a class in the target language.
    fn convert_fields(&self, vars: Vec<VarDeclStmt>) -> String;

    /// A constructor in the target language, with a line break behind it.
    fn convert_constructor(&self, constructor: Constructor) -> String;

    /// A method in the target language, with a line break behind it.
    fn convert_method(&self, method: MethDef) -> String;
}

/// The fields of a class in the target language.
pub fn fields_text(vars: &Vec<VarDeclStmt>) -> (out: String)
    ensures
        out@ == target::fields(var_views(vars@)),
{
    let mut names: Vec<String> = Vec::new();
    let mut i: usize = 0;
    while i < vars.len()
        invariant
            0 <= i <= vars.len(),
            names.len() == i,
            forall|j: int| 0 <= j < i ==> #[trigger] names[j]@ == vars[j].name@,
        decreases vars.len() - i,
    {
        names.push(vars[i].name.clone());
        i += 1;
    }
    proof {
        assert(crate::text::string_views(names@) =~= target::field_names(var_views(vars@)));
    }
    join(&names, ";\n")
}

/// A constructor in the target language, with a line break behind it.
pub fn constructor_text(constructor: &Constructor) -> (out: String)
    ensures
        out@ == target::constructor(constructor@),
{
    let mut out = String::from_str("constructor(");
    out.append(params_text(&constructor.params).as_str());
    out.append(") {");
    match &constructor.super_call {
        Some(args) => {
            let mut call = String::from_str("super(");
            call.append(expression_list(args, ",").as_str());
            call.append(")");
            out.append(call.as_str());
        },
        None => {
            assert(out@ + Seq::<char>::empty() =~= out@);
        },
    }
    match &constructor.statements {
        Some(statement) => {
            let mut body = String::from_str("{ ");
            body.append(statement_text(statement).as_str());
            body.append(" }");
            out.append(body.as_str());
        },
        None => {
            assert(out@ + Seq::<char>::empty() =~= out@);
        },
    }
    out.append("}\n");
    out
}

/// A method in the target language, with a line break behind it.
pub fn method_text(method: &MethDef) -> (out: String)
    ensures
        out@ == target::method(method@),
{
    let mut out = method.name.clone();
    out.append("(");
    out.append(params_text(&method.params).as_str());
    out.append(")");
    out.append(body_text(&method.statements).as_str());
    out.append("\n");
    out
}

/// Methods in the target language.
pub fn method_list(methods: &Vec<MethDef>) -> (out: String)
    ensures
        out@ == target::methods(method_views(methods@)),
{
    let mut parts: Vec<String> = Vec::new();
    let mut i: usize = 0;
    while i < methods.len()
        invariant
            0 <= i <= methods.len(),
            parts.len() == i,
            forall|j: int| 0 <= j < i ==> #[trigger] parts[j]@ == target::method(methods[j]@),
        decreases methods.len() - i,
    {
        parts.push(method_text(&methods[i]));
        i += 1;
    }
    proof {
        assert(crate::text::string_views(parts@) =~= target::method_texts(method_views(methods@)));
    }
    let all = concat(&parts);
    String::from_str(all.as_str().trim())
}

/// A class in the target language.
pub fn class_text(class: &ClassDef) -> (out: String)
    ensures
        out@ == target::class(class@),
{
    let mut out = String::from_str("class ");
    out.append(class.name.as_str());
    match &class.extends {
        Some(parent) => {
            let mut clause = String::from_str(" extends ");
            clause.append(parent.as_str());
            out.append(clause.as_str());
        },
        None => {
            assert(out@ + Seq::<char>::empty() =~= out@);
        },
    }
    out.append("{\n");
    out.append(fields_text(&class.vars).as_str());
    out.append(constructor_text(&class.constructor).as_str());
    out.append(method_list(&class.methods).as_str());
    out.append("\n}");
    out
}

/// Classes in the target language, one per line.
pub fn class_list(classes: &Vec<ClassDef>) -> (out: String)
    ensures
        out@ == target::classes(class_views(classes@)),
{
    let mut parts: Vec<String> = Vec::new();
    let mut i: usize = 0;
    while i < classes.len()
        invariant
            0 <= i <= classes.len(),
            parts.len() == i,
            forall|j: int| 0 <= j < i ==> #[trigger] parts[j]@ == target::class(classes[j]@),
        decreases classes.len() - i,
    {
        parts.push(class_text(&classes[i]));
        i += 1;
    }
    proof {
        assert(crate::text::string_views(parts@) =~= target::class_texts(class_views(classes@)));
    }
    join(&parts, "\n")
}

impl ClassGenerator for CodeGenerator {
    /// Classes in the target language, one per line.
    fn generate_classes(&self, classes: Vec<ClassDef>) -> (out: String)
        ensures
            out@ == target::classes(class_views(classes@)),
    {
        class_list(&classes)
    }

    /// A class in the target language.
    fn convert_class(&self, class: ClassDef) -> (out: String)
        ensures
            out@ == target::class(class@),
    {
        class_text(&class)
    }

    /// The fields of a class in the target language.
    fn convert_fields(&self, vars: Vec<VarDeclStmt>) -> (out: String)
        ensures
            out@ == target::fields(var_views(vars@)),
    {
        fields_text(&vars)
    }

    /// A constructor in the target language, with a line break behind it.
    fn convert_constructor(&self, constructor: Constructor) -> (out: String)
        ensures
            out@ == target::constructor(constructor@),
    {
        constructor_text(&constructor)
    }

    /// Methods in the target language.
    fn generate_methods(&self, methods: Vec<MethDef>) -> (out: String)
        ensures
            out@ == target::methods(method_views(methods@)),
    {
        method_list(&methods)
    }

    /// A method in the target language, with a line break behind it.
    fn convert_method(&self, method: MethDef) -> (out: String)
        ensures
            out@ == target::method(method@),
    {
        method_text(&method)
    }
}

} // verus!
