use vstd::prelude::*;
use crate::ast::expr::{duplicate_exprs, Expr, ExprView};
use crate::ast::stmt::{duplicate_stmts, Stmt, StmtView, VarDeclStmt};
use crate::lexer::{Span, TypeName, TypeNameView};

verus! {

/// A declared field as a mathematical value.
pub struct VarDeclView {
    pub name: Seq<char>,
    pub var_type: TypeNameView,
    pub span: Span,
}

impl View for VarDeclStmt {
    type V = VarDeclView;

    open spec fn view(&self) -> VarDeclView {
        VarDeclView { name: self.name@, var_type: self.var_type@, span: self.span }
    }
}

/// A parameter: its name and its declared type.
#[derive(Debug, Default)]
pub struct ParamDecl {
    pub name: String,
    pub param_type: TypeName,
}

/// The same as a mathematical value.
pub struct ParamDeclView {
    pub name: Seq<char>,
    pub param_type: TypeNameView,
}

impl View for ParamDecl {
    type V = ParamDeclView;

    open spec fn view(&self) -> ParamDeclView {
        ParamDeclView {
            name: self.name@,
            param_type: self.param_type@,
        }
    }
}

/// A free function: name, parameters, result type and body.
#[derive(Debug, Default)]
pub struct FunDef {
    pub name: String,
    pub params: Vec<ParamDecl>,
    pub return_type: TypeName,
    pub statements: Option<Stmt>,
}

/// The same as a mathematical value.
pub struct FunDefView {
    pub name: Seq<char>,
    pub params: Seq<ParamDeclView>,
    pub return_type: TypeNameView,
    pub statements: Option<StmtView>,
}

impl View for FunDef {
    type V = FunDefView;

    open spec fn view(&self) -> FunDefView {
        FunDefView {
            name: self.name@,
            params: param_views(self.params@),
            return_type: self.return_type@,
            statements: match self.statements { Some(body) => Some(body@), None => None },
        }
    }
}

/// The constructor of a class: parameters, the arguments handed to the parent's constructor if it calls it, and the body.
#[derive(Debug, Default)]
pub struct Constructor {
    pub params: Vec<ParamDecl>,
    pub super_call: Option<Vec<Expr>>,
    pub statements: Option<Stmt>,
}

/// The same as a mathematical value.
pub struct ConstructorView {
    pub params: Seq<ParamDeclView>,
    pub super_call: Option<Seq<ExprView>>,
    pub statements: Option<StmtView>,
}

impl View for Constructor {
    type V = ConstructorView;

    open spec fn view(&self) -> ConstructorView {
        ConstructorView {
            params: param_views(self.params@),
            super_call: match self.super_call { Some(args) => Some(Expr::models(args@)), None => None },
            statements: match self.statements { Some(body) => Some(body@), None => None },
        }
    }
}

/// A method: name, parameters, result type and body.
#[derive(Debug, Default)]
pub struct MethDef {
    pub name: String,
    pub params: Vec<ParamDecl>,
    pub return_type: TypeName,
    pub statements: Option<Stmt>,
}

/// The same as a mathematical value.
pub struct MethDefView {
    pub name: Seq<char>,
    pub params: Seq<ParamDeclView>,
    pub return_type: TypeNameView,
    pub statements: Option<StmtView>,
}

impl View for MethDef {
    type V = MethDefView;

    open spec fn view(&self) -> MethDefView {
        MethDefView {
            name: self.name@,
            params: param_views(self.params@),
            return_type: self.return_type@,
            statements: match self.statements { Some(body) => Some(body@), None => None },
        }
    }
}

/// A class: name, parent class if it has one, fields, constructor and methods.
#[derive(Debug, Default)]
pub struct ClassDef {
    pub name: String,
    pub extends: Option<String>,
    pub vars: Vec<VarDeclStmt>,
    pub constructor: Constructor,
    pub methods: Vec<MethDef>,
}

/// The same as a mathematical value.
pub struct ClassDefView {
    pub name: Seq<char>,
    pub extends: Option<Seq<char>>,
    pub vars: Seq<VarDeclView>,
    pub constructor: ConstructorView,
    pub methods: Seq<MethDefView>,
}

impl View for ClassDef {
    type V = ClassDefView;

    open spec fn view(&self) -> ClassDefView {
        ClassDefView {
            name: self.name@,
            extends: match self.extends { Some(name) => Some(name@), None => None },
            vars: var_views(self.vars@),
            constructor: self.constructor@,
            methods: method_views(self.methods@),
        }
    }
}

/// A whole program: its free statements, its classes and its functions, each in source order.
#[derive(Debug, Default)]
pub struct Entry {
    pub statements: Vec<Stmt>,
    pub class_defs: Vec<ClassDef>,
    pub fun_defs: Vec<FunDef>,
}

/// The same as a mathematical value.
pub struct EntryView {
    pub statements: Seq<StmtView>,
    pub class_defs: Seq<ClassDefView>,
    pub fun_defs: Seq<FunDefView>,
}

impl View for Entry {
    type V = EntryView;

    open spec fn view(&self) -> EntryView {
        EntryView {
            statements: Stmt::models(self.statements@),
            class_defs: class_views(self.class_defs@),
            fun_defs: fun_views(self.fun_defs@),
        }
    }
}

/// The views of a sequence of values, in order.
pub open spec fn param_views(items: Seq<ParamDecl>) -> Seq<ParamDeclView> {
    Seq::new(items.len(), |i: int| items[i]@)
}

/// The views of a sequence of values, in order.
pub open spec fn var_views(items: Seq<VarDeclStmt>) -> Seq<VarDeclView> {
    Seq::new(items.len(), |i: int| items[i]@)
}

/// The views of a sequence of values, in order.
pub open spec fn method_views(items: Seq<MethDef>) -> Seq<MethDefView> {
    Seq::new(items.len(), |i: int| items[i]@)
}

/// The views of a sequence of values, in order.
pub open spec fn class_views(items: Seq<ClassDef>) -> Seq<ClassDefView> {
    Seq::new(items.len(), |i: int| items[i]@)
}

/// The views of a sequence of values, in order.
pub open spec fn fun_views(items: Seq<FunDef>) -> Seq<FunDefView> {
    Seq::new(items.len(), |i: int| items[i]@)
}

impl Clone for ParamDecl {
    fn clone(&self) -> (copy: ParamDecl)
        ensures
            copy@ == self@,
    {
        ParamDecl {
            name: self.name.clone(),
            param_type: self.param_type.clone(),
        }
    }
}

impl Clone for FunDef {
    fn clone(&self) -> (copy: FunDef)
        ensures
            copy@ == self@,
    {
        FunDef {
            name: self.name.clone(),
            params: duplicate_params(&self.params),
            return_type: self.return_type.clone(),
            statements: match &self.statements { Some(body) => Some(body.duplicate()), None => None },
        }
    }
}

impl Clone for Constructor {
    fn clone(&self) -> (copy: Constructor)
        ensures
            copy@ == self@,
    {
        Constructor {
            params: duplicate_params(&self.params),
            super_call: match &self.super_call { Some(args) => Some(duplicate_exprs(args)), None => None },
            statements: match &self.statements { Some(body) => Some(body.duplicate()), None => None },
        }
    }
}

impl Clone for MethDef {
    fn clone(&self) -> (copy: MethDef)
        ensures
            copy@ == self@,
    {
        MethDef {
            name: self.name.clone(),
            params: duplicate_params(&self.params),
            return_type: self.return_type.clone(),
            statements: match &self.statements { Some(body) => Some(body.duplicate()), None => None },
        }
    }
}

impl Clone for ClassDef {
    fn clone(&self) -> (copy: ClassDef)
        ensures
            copy@ == self@,
    {
        ClassDef {
            name: self.name.clone(),
            extends: match &self.extends { Some(name) => Some(name.clone()), None => None },
            vars: duplicate_vars(&self.vars),
            constructor: self.constructor.clone(),
            methods: duplicate_methods(&self.methods),
        }
    }
}

impl Clone for Entry {
    fn clone(&self) -> (copy: Entry)
        ensures
            copy@ == self@,
    {
        Entry {
            statements: duplicate_stmts(&self.statements),
            class_defs: duplicate_classes(&self.class_defs),
            fun_defs: duplicate_funs(&self.fun_defs),
        }
    }
}

/// Copies of the values of `items`, in order.
pub fn duplicate_params(items: &Vec<ParamDecl>) -> (copies: Vec<ParamDecl>)
    ensures
        param_views(copies@) == param_views(items@),
{
    let mut copies: Vec<ParamDecl> = Vec::new();
    let mut i: usize = 0;
    while i < items.len()
        invariant
            0 <= i <= items.len(),
            copies.len() == i,
            forall|j: int| 0 <= j < i ==> copies[j]@ == items[j]@,
        decreases items.len() - i,
    {
        let copy = items[i].clone();
        copies.push(copy);
        i += 1;
    }
    assert(param_views(copies@) =~= param_views(items@));
    copies
}

/// Copies of the values of `items`, in order.
pub fn duplicate_vars(items: &Vec<VarDeclStmt>) -> (copies: Vec<VarDeclStmt>)
    ensures
        var_views(copies@) == var_views(items@),
{
    let mut copies: Vec<VarDeclStmt> = Vec::new();
    let mut i: usize = 0;
    while i < items.len()
        invariant
            0 <= i <= items.len(),
            copies.len() == i,
            forall|j: int| 0 <= j < i ==> copies[j]@ == items[j]@,
        decreases items.len() - i,
    {
        let copy = VarDeclStmt {
            name: items[i].name.clone(),
            var_type: items[i].var_type.clone(),
            span: items[i].span,
        };
        copies.push(copy);
        i += 1;
    }
    assert(var_views(copies@) =~= var_views(items@));
    copies
}

/// Copies of the values of `items`, in order.
pub fn duplicate_methods(items: &Vec<MethDef>) -> (copies: Vec<MethDef>)
    ensures
        method_views(copies@) == method_views(items@),
{
    let mut copies: Vec<MethDef> = Vec::new();
    let mut i: usize = 0;
    while i < items.len()
        invariant
            0 <= i <= items.len(),
            copies.len() == i,
            forall|j: int| 0 <= j < i ==> copies[j]@ == items[j]@,
        decreases items.len() - i,
    {
        let copy = items[i].clone();
        copies.push(copy);
        i += 1;
    }
    assert(method_views(copies@) =~= method_views(items@));
    copies
}

/// Copies of the values of `items`, in order.
pub fn duplicate_classes(items: &Vec<ClassDef>) -> (copies: Vec<ClassDef>)
    ensures
        class_views(copies@) == class_views(items@),
{
    let mut copies: Vec<ClassDef> = Vec::new();
    let mut i: usize = 0;
    while i < items.len()
        invariant
            0 <= i <= items.len(),
            copies.len() == i,
            forall|j: int| 0 <= j < i ==> copies[j]@ == items[j]@,
        decreases items.len() - i,
    {
        let copy = items[i].clone();
        copies.push(copy);
        i += 1;
    }
    assert(class_views(copies@) =~= class_views(items@));
    copies
}

/// Copies of the values of `items`, in order.
pub fn duplicate_funs(items: &Vec<FunDef>) -> (copies: Vec<FunDef>)
    ensures
        fun_views(copies@) == fun_views(items@),
{
    let mut copies: Vec<FunDef> = Vec::new();
    let mut i: usize = 0;
    while i < items.len()
        invariant
            0 <= i <= items.len(),
            copies.len() == i,
            forall|j: int| 0 <= j < i ==> copies[j]@ == items[j]@,
        decreases items.len() - i,
    {
        let copy = items[i].clone();
        copies.push(copy);
        i += 1;
    }
    assert(fun_views(copies@) =~= fun_views(items@));
    copies
}

} // verus!
