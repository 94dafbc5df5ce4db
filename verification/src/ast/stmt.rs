use vstd::prelude::*;
use crate::ast::expr::{Expr, ExprView};
use crate::lexer::{Span, TypeName, TypeNameView};

verus! {

/// A statement of the language.
#[derive(Debug, Default, PartialEq, Eq)]
pub enum Stmt {
    Expr(ExprStmt),
    VarDecl(VarDeclStmt),
    Assign(AssignStmt),
    VarDeclWithAssign(VarDeclWithAssign),
    While(WhileStmt),
    If(IfStmt),
    Break(BreakStmt),
    Return(ReturnStmt),
    Block(BlockStmt),
    #[default]
    Empty,
}

/// An expression evaluated for its effect.
#[derive(Debug, Default, PartialEq, Eq)]
pub struct ExprStmt {
    pub expr: Box<Expr>,
    pub span: Span,
}

/// A variable declared without an initial value.
#[derive(Debug, Default, PartialEq, Eq)]
pub struct VarDeclStmt {
    pub name: String,
    pub var_type: TypeName,
    pub span: Span,
}

/// An assignment; the target is a name or a dotted path of field names.
#[derive(Debug, Default, PartialEq, Eq)]
pub struct AssignStmt {
    pub name: String,
    pub expr: Box<Expr>,
    pub span: Span,
}

/// A variable declared with an initial value.
#[derive(Debug, Default, PartialEq, Eq)]
pub struct VarDeclWithAssign {
    pub name: String,
    pub var_type: TypeName,
    pub expr: Box<Expr>,
    pub span: Span,
}

/// A loop that runs its body while the condition holds.
#[derive(Debug, Default, PartialEq, Eq)]
pub struct WhileStmt {
    pub condition: Box<Expr>,
    pub body: Box<Stmt>,
    pub span: Span,
}

/// A conditional with an optional alternative.
#[derive(Debug, Default, PartialEq, Eq)]
pub struct IfStmt {
    pub condition: Box<Expr>,
    pub then_branch: Box<Stmt>,
    pub else_branch: Option<Box<Stmt>>,
    pub span: Span,
}

/// Leaving the innermost loop.
#[derive(Debug, Default, PartialEq, Eq)]
pub struct BreakStmt {
    pub span: Span,
}

/// Returning from a function, with or without a value.
#[derive(Debug, Default, PartialEq, Eq)]
pub struct ReturnStmt {
    pub value: Option<Box<Expr>>,
    pub span: Span,
}

/// A sequence of statements between braces.
#[derive(Debug, Default, PartialEq, Eq)]
pub struct BlockStmt {
    pub statements: Vec<Stmt>,
    pub span: Span,
}

/// A statement as a mathematical value.
#[allow(inconsistent_fields)]
pub enum StmtView {
    Expr { expr: Box<ExprView>, span: Span },
    VarDecl { name: Seq<char>, var_type: TypeNameView, span: Span },
    Assign { name: Seq<char>, expr: Box<ExprView>, span: Span },
    VarDeclWithAssign { name: Seq<char>, var_type: TypeNameView, expr: Box<ExprView>, span: Span },
    While { condition: Box<ExprView>, body: Box<StmtView>, span: Span },
    If { condition: Box<ExprView>, then_branch: Box<StmtView>, else_branch: Option<Box<StmtView>>, span: Span },
    Break { span: Span },
    Return { value: Option<Box<ExprView>>, span: Span },
    Block { statements: Seq<StmtView>, span: Span },
    Empty,
}

impl Stmt {
    /// The tree as a mathematical value: strings as sequences of characters, vectors as sequences.
    pub open spec fn model(&self) -> StmtView
        decreases self,
    {
        match self {
            Stmt::Expr(node) => StmtView::Expr {
                expr: Box::new(node.expr.model()),
                span: node.span,
            },
            Stmt::VarDecl(node) => StmtView::VarDecl {
                name: node.name@,
                var_type: node.var_type@,
                span: node.span,
            },
            Stmt::Assign(node) => StmtView::Assign {
                name: node.name@,
                expr: Box::new(node.expr.model()),
                span: node.span,
            },
            Stmt::VarDeclWithAssign(node) => StmtView::VarDeclWithAssign {
                name: node.name@,
                var_type: node.var_type@,
                expr: Box::new(node.expr.model()),
                span: node.span,
            },
            Stmt::While(node) => StmtView::While {
                condition: Box::new(node.condition.model()),
                body: Box::new(node.body.model()),
                span: node.span,
            },
            Stmt::If(node) => StmtView::If {
                condition: Box::new(node.condition.model()),
                then_branch: Box::new(node.then_branch.model()),
                else_branch: match node.else_branch { Some(inner) => Some(Box::new(inner.model())), None => None },
                span: node.span,
            },
            Stmt::Break(node) => StmtView::Break {
                span: node.span,
            },
            Stmt::Return(node) => StmtView::Return {
                value: match node.value { Some(inner) => Some(Box::new(inner.model())), None => None },
                span: node.span,
            },
            Stmt::Block(node) => StmtView::Block {
                statements: Stmt::models(node.statements@),
                span: node.span,
            },
            Stmt::Empty => StmtView::Empty,
        }
    }

    /// The models of a sequence of trees, in order.
    pub open spec fn models(trees: Seq<Stmt>) -> Seq<StmtView>
        decreases trees,
    {
        Seq::new(trees.len(), |i: int| if 0 <= i < trees.len() { trees[i].model() } else { StmtView::Empty })
    }

    /// A deep copy of the tree.
    pub fn duplicate(&self) -> (copy: Stmt)
        ensures
            copy@ == self@,
        decreases self,
    {
        match self {
            Stmt::Expr(node) => {
                let copy = Stmt::Expr(ExprStmt {
                    expr: Box::new(node.expr.duplicate()),
                    span: node.span,
                });
                copy
            },
            Stmt::VarDecl(node) => {
                let copy = Stmt::VarDecl(VarDeclStmt {
                    name: node.name.clone(),
                    var_type: node.var_type.clone(),
                    span: node.span,
                });
                copy
            },
            Stmt::Assign(node) => {
                let copy = Stmt::Assign(AssignStmt {
                    name: node.name.clone(),
                    expr: Box::new(node.expr.duplicate()),
                    span: node.span,
                });
                copy
            },
            Stmt::VarDeclWithAssign(node) => {
                let copy = Stmt::VarDeclWithAssign(VarDeclWithAssign {
                    name: node.name.clone(),
                    var_type: node.var_type.clone(),
                    expr: Box::new(node.expr.duplicate()),
                    span: node.span,
                });
                copy
            },
            Stmt::While(node) => {
                let copy = Stmt::While(WhileStmt {
                    condition: Box::new(node.condition.duplicate()),
                    body: Box::new(node.body.duplicate()),
                    span: node.span,
                });
                copy
            },
            Stmt::If(node) => {
                let copy = Stmt::If(IfStmt {
                    condition: Box::new(node.condition.duplicate()),
                    then_branch: Box::new(node.then_branch.duplicate()),
                    else_branch: match &node.else_branch { Some(inner) => Some(Box::new(inner.duplicate())), None => None },
                    span: node.span,
                });
                copy
            },
            Stmt::Break(node) => {
                let copy = Stmt::Break(BreakStmt {
                    span: node.span,
                });
                copy
            },
            Stmt::Return(node) => {
                let copy = Stmt::Return(ReturnStmt {
                    value: match &node.value { Some(inner) => Some(Box::new(inner.duplicate())), None => None },
                    span: node.span,
                });
                copy
            },
            Stmt::Block(node) => {
                let copy = Stmt::Block(BlockStmt {
                    statements: duplicate_stmts(&node.statements),
                    span: node.span,
                });
                copy
            },
            Stmt::Empty => Stmt::Empty,
        }
    }
}

impl View for Stmt {
    type V = StmtView;

    open spec fn view(&self) -> StmtView {
        self.model()
    }
}

/// Deep copies of the trees of `trees`, in order.
pub fn duplicate_stmts(trees: &Vec<Stmt>) -> (copies: Vec<Stmt>)
    ensures
        Stmt::models(copies@) == Stmt::models(trees@),
    decreases trees,
{
    let mut copies: Vec<Stmt> = Vec::new();
    let mut i: usize = 0;
    while i < trees.len()
        invariant
            0 <= i <= trees.len(),
            copies.len() == i,
            forall|j: int| 0 <= j < i ==> copies[j]@ == trees[j]@,
        decreases trees.len() - i,
    {
        proof {
            vstd::std_specs::vec::axiom_vec_index_decreases(*trees, i as int);
        }
        let copy = trees[i].duplicate();
        copies.push(copy);
        i += 1;
    }
    assert(Stmt::models(copies@) =~= Stmt::models(trees@));
    copies
}

impl Clone for Stmt {
    fn clone(&self) -> (copy: Stmt)
        ensures
            copy@ == self@,
    {
        self.duplicate()
    }
}

impl Clone for ExprStmt {
    fn clone(&self) -> (copy: ExprStmt)
        ensures
            Stmt::Expr(copy)@ == Stmt::Expr(*self)@,
    {
        ExprStmt {
            expr: Box::new(self.expr.duplicate()),
            span: self.span,
        }
    }
}

impl Clone for VarDeclStmt {
    fn clone(&self) -> (copy: VarDeclStmt)
        ensures
            Stmt::VarDecl(copy)@ == Stmt::VarDecl(*self)@,
    {
        VarDeclStmt {
            name: self.name.clone(),
            var_type: self.var_type.clone(),
            span: self.span,
        }
    }
}

impl Clone for AssignStmt {
    fn clone(&self) -> (copy: AssignStmt)
        ensures
            Stmt::Assign(copy)@ == Stmt::Assign(*self)@,
    {
        AssignStmt {
            name: self.name.clone(),
            expr: Box::new(self.expr.duplicate()),
            span: self.span,
        }
    }
}

impl Clone for VarDeclWithAssign {
    fn clone(&self) -> (copy: VarDeclWithAssign)
        ensures
            Stmt::VarDeclWithAssign(copy)@ == Stmt::VarDeclWithAssign(*self)@,
    {
        VarDeclWithAssign {
            name: self.name.clone(),
            var_type: self.var_type.clone(),
            expr: Box::new(self.expr.duplicate()),
            span: self.span,
        }
    }
}

impl Clone for WhileStmt {
    fn clone(&self) -> (copy: WhileStmt)
        ensures
            Stmt::While(copy)@ == Stmt::While(*self)@,
    {
        WhileStmt {
            condition: Box::new(self.condition.duplicate()),
            body: Box::new(self.body.duplicate()),
            span: self.span,
        }
    }
}

impl Clone for IfStmt {
    fn clone(&self) -> (copy: IfStmt)
        ensures
            Stmt::If(copy)@ == Stmt::If(*self)@,
    {
        IfStmt {
            condition: Box::new(self.condition.duplicate()),
            then_branch: Box::new(self.then_branch.duplicate()),
            else_branch: match &self.else_branch { Some(inner) => Some(Box::new(inner.duplicate())), None => None },
            span: self.span,
        }
    }
}

impl Clone for BreakStmt {
    fn clone(&self) -> (copy: BreakStmt)
        ensures
            Stmt::Break(copy)@ == Stmt::Break(*self)@,
    {
        BreakStmt {
            span: self.span,
        }
    }
}

impl Clone for ReturnStmt {
    fn clone(&self) -> (copy: ReturnStmt)
        ensures
            Stmt::Return(copy)@ == Stmt::Return(*self)@,
    {
        ReturnStmt {
            value: match &self.value { Some(inner) => Some(Box::new(inner.duplicate())), None => None },
            span: self.span,
        }
    }
}

impl Clone for BlockStmt {
    fn clone(&self) -> (copy: BlockStmt)
        ensures
            Stmt::Block(copy)@ == Stmt::Block(*self)@,
    {
        BlockStmt {
            statements: duplicate_stmts(&self.statements),
            span: self.span,
        }
    }
}

} // verus!
