use vstd::prelude::*;
use vstd::string::*;
use crate::lexer::Span;

verus! {

/// The twelve binary operators of the language.
#[derive(Debug, Default, Clone, Copy, PartialEq, Eq, Structural)]
pub enum BinaryOp {
    Add,
    Subtract,
    Multiply,
    Divide,
    #[default]
    Equal,
    NotEqual,
    Greater,
    Less,
    GreaterEqual,
    LessEqual,
    Or,
    And,
}

/// The three prefix operators of the language.
#[derive(Debug, Default, Clone, Copy, PartialEq, Eq, Structural)]
pub enum UnaryOp {
    #[default]
    Not,
    Negate,
    Plus,
}

impl BinaryOp {
    /// How the operator is written.
    pub open spec fn symbol(self) -> Seq<char> {
        match self {
            BinaryOp::Add => "+"@,
            BinaryOp::Subtract => "-"@,
            BinaryOp::Multiply => "*"@,
            BinaryOp::Divide => "/"@,
            BinaryOp::Equal => "=="@,
            BinaryOp::NotEqual => "!="@,
            BinaryOp::Greater => ">"@,
            BinaryOp::Less => "<"@,
            BinaryOp::GreaterEqual => ">="@,
            BinaryOp::LessEqual => "<="@,
            BinaryOp::Or => "||"@,
            BinaryOp::And => "&&"@,
        }
    }

    /// How the operator is written.
    pub fn as_str(&self) -> (symbol: &'static str)
        ensures
            symbol@ == self.symbol(),
    {
        match self {
            BinaryOp::Add => "+",
            BinaryOp::Subtract => "-",
            BinaryOp::Multiply => "*",
            BinaryOp::Divide => "/",
            BinaryOp::Equal => "==",
            BinaryOp::NotEqual => "!=",
            BinaryOp::Greater => ">",
            BinaryOp::Less => "<",
            BinaryOp::GreaterEqual => ">=",
            BinaryOp::LessEqual => "<=",
            BinaryOp::Or => "||",
            BinaryOp::And => "&&",
        }
    }

    /// How the operator is written, as a string of its own.
    pub fn to_string(&self) -> (symbol: String)
        ensures
            symbol@ == self.symbol(),
    {
        String::from_str(self.as_str())
    }
}

impl UnaryOp {
    /// How the operator is written.
    pub open spec fn symbol(self) -> Seq<char> {
        match self {
            UnaryOp::Not => "!"@,
            UnaryOp::Negate => "-"@,
            UnaryOp::Plus => "+"@,
        }
    }

    /// How the operator is written.
    pub fn as_str(&self) -> (symbol: &'static str)
        ensures
            symbol@ == self.symbol(),
    {
        match self {
            UnaryOp::Not => "!",
            UnaryOp::Negate => "-",
            UnaryOp::Plus => "+",
        }
    }

    /// How the operator is written, as a string of its own.
    pub fn to_string(&self) -> (symbol: String)
        ensures
            symbol@ == self.symbol(),
    {
        String::from_str(self.as_str())
    }
}


/// An expression of the language.
#[derive(Debug, Default, PartialEq, Eq)]
pub enum Expr {
    IntegerLiteral(IntegerLiteral),
    StringLiteral(StringLiteral),
    BooleanLiteral(BooleanLiteral),
    Variable(Variable),
    Binary(BinaryExpr),
    Unary(UnaryExpr),
    FunCall(FunCall),
    MethCall(MethCall),
    Field(Field),
    New(NewExpr),
    This(ThisExpr),
    Println(PrintlnExpr),
    Print(PrintExpr),
    Grouped(Box<Expr>, Span),
    #[default]
    Empty,
}

/// An integer literal.
#[derive(Debug, Default, PartialEq, Eq)]
pub struct IntegerLiteral {
    pub value: i64,
    pub span: Span,
}

/// A string literal, escapes already decoded.
#[derive(Debug, Default, PartialEq, Eq)]
pub struct StringLiteral {
    pub value: String,
    pub span: Span,
}

/// `true` or `false`.
#[derive(Debug, Default, PartialEq, Eq)]
pub struct BooleanLiteral {
    pub value: bool,
    pub span: Span,
}

/// A reference to a variable by name.
#[derive(Debug, Default, PartialEq, Eq)]
pub struct Variable {
    pub name: String,
    pub span: Span,
}

/// Two operands joined by a binary operator.
#[derive(Debug, Default, PartialEq, Eq)]
pub struct BinaryExpr {
    pub left: Box<Expr>,
    pub operator: BinaryOp,
    pub right: Box<Expr>,
    pub span: Span,
}

/// A prefix operator applied to an operand.
#[derive(Debug, Default, PartialEq, Eq)]
pub struct UnaryExpr {
    pub operator: UnaryOp,
    pub expr: Box<Expr>,
    pub span: Span,
}

/// A call of a free function.
#[derive(Debug, Default, PartialEq, Eq)]
pub struct FunCall {
    pub callee: String,
    pub args: Vec<Expr>,
    pub span: Span,
}

/// A call of a method on a receiver.
#[derive(Debug, Default, PartialEq, Eq)]
pub struct MethCall {
    pub object: Box<Expr>,
    pub meth: String,
    pub args: Vec<Expr>,
    pub span: Span,
}

/// A field read from a receiver.
#[derive(Debug, Default, PartialEq, Eq)]
pub struct Field {
    pub object: Box<Expr>,
    pub field: String,
    pub span: Span,
}

/// The construction of an object of a class.
#[derive(Debug, Default, PartialEq, Eq)]
pub struct NewExpr {
    pub class_name: String,
    pub args: Vec<Expr>,
    pub span: Span,
}

/// The receiver of the enclosing method.
#[derive(Debug, Default, PartialEq, Eq)]
pub struct ThisExpr {
    pub span: Span,
}

/// Printing one value followed by a line break.
#[derive(Debug, Default, PartialEq, Eq)]
pub struct PrintlnExpr {
    pub arg: Box<Expr>,
    pub span: Span,
}

/// Printing one value.
#[derive(Debug, Default, PartialEq, Eq)]
pub struct PrintExpr {
    pub arg: Box<Expr>,
    pub span: Span,
}

/// An expression as a mathematical value.
#[allow(inconsistent_fields)]
pub enum ExprView {
    IntegerLiteral { value: i64, span: Span },
    StringLiteral { value: Seq<char>, span: Span },
    BooleanLiteral { value: bool, span: Span },
    Variable { name: Seq<char>, span: Span },
    Binary { left: Box<ExprView>, operator: BinaryOp, right: Box<ExprView>, span: Span },
    Unary { operator: UnaryOp, expr: Box<ExprView>, span: Span },
    FunCall { callee: Seq<char>, args: Seq<ExprView>, span: Span },
    MethCall { object: Box<ExprView>, meth: Seq<char>, args: Seq<ExprView>, span: Span },
    Field { object: Box<ExprView>, field: Seq<char>, span: Span },
    New { class_name: Seq<char>, args: Seq<ExprView>, span: Span },
    This { span: Span },
    Println { arg: Box<ExprView>, span: Span },
    Print { arg: Box<ExprView>, span: Span },
    Grouped { inner: Box<ExprView>, span: Span },
    Empty,
}

impl Expr {
    /// The tree as a mathematical value: strings as sequences of characters, vectors as sequences.
    pub open spec fn model(&self) -> ExprView
        decreases self,
    {
        match self {
            Expr::IntegerLiteral(node) => ExprView::IntegerLiteral {
                value: node.value,
                span: node.span,
            },
            Expr::StringLiteral(node) => ExprView::StringLiteral {
                value: node.value@,
                span: node.span,
            },
            Expr::BooleanLiteral(node) => ExprView::BooleanLiteral {
                value: node.value,
                span: node.span,
            },
            Expr::Variable(node) => ExprView::Variable {
                name: node.name@,
                span: node.span,
            },
            Expr::Binary(node) => ExprView::Binary {
                left: Box::new(node.left.model()),
                operator: node.operator,
                right: Box::new(node.right.model()),
                span: node.span,
            },
            Expr::Unary(node) => ExprView::Unary {
                operator: node.operator,
                expr: Box::new(node.expr.model()),
                span: node.span,
            },
            Expr::FunCall(node) => ExprView::FunCall {
                callee: node.callee@,
                args: Expr::models(node.args@),
                span: node.span,
            },
            Expr::MethCall(node) => ExprView::MethCall {
                object: Box::new(node.object.model()),
                meth: node.meth@,
                args: Expr::models(node.args@),
                span: node.span,
            },
            Expr::Field(node) => ExprView::Field {
                object: Box::new(node.object.model()),
                field: node.field@,
                span: node.span,
            },
            Expr::New(node) => ExprView::New {
                class_name: node.class_name@,
                args: Expr::models(node.args@),
                span: node.span,
            },
            Expr::This(node) => ExprView::This {
                span: node.span,
            },
            Expr::Println(node) => ExprView::Println {
                arg: Box::new(node.arg.model()),
                span: node.span,
            },
            Expr::Print(node) => ExprView::Print {
                arg: Box::new(node.arg.model()),
                span: node.span,
            },
            Expr::Grouped(inner, span) => ExprView::Grouped { inner: Box::new(inner.model()), span: *span },
            Expr::Empty => ExprView::Empty,
        }
    }

    /// The models of a sequence of trees, in order.
    pub open spec fn models(trees: Seq<Expr>) -> Seq<ExprView>
        decreases trees,
    {
        Seq::new(trees.len(), |i: int| if 0 <= i < trees.len() { trees[i].model() } else { ExprView::Empty })
    }

    /// A deep copy of the tree.
    pub fn duplicate(&self) -> (copy: Expr)
        ensures
            copy@ == self@,
        decreases self,
    {
        match self {
            Expr::IntegerLiteral(node) => {
                let copy = Expr::IntegerLiteral(IntegerLiteral {
                    value: node.value,
                    span: node.span,
                });
                copy
            },
            Expr::StringLiteral(node) => {
                let copy = Expr::StringLiteral(StringLiteral {
                    value: node.value.clone(),
                    span: node.span,
                });
                copy
            },
            Expr::BooleanLiteral(node) => {
                let copy = Expr::BooleanLiteral(BooleanLiteral {
                    value: node.value,
                    span: node.span,
                });
                copy
            },
            Expr::Variable(node) => {
                let copy = Expr::Variable(Variable {
                    name: node.name.clone(),
                    span: node.span,
                });
                copy
            },
            Expr::Binary(node) => {
                let copy = Expr::Binary(BinaryExpr {
                    left: Box::new(node.left.duplicate()),
                    operator: node.operator,
                    right: Box::new(node.right.duplicate()),
                    span: node.span,
                });
                copy
            },
            Expr::Unary(node) => {
                let copy = Expr::Unary(UnaryExpr {
                    operator: node.operator,
                    expr: Box::new(node.expr.duplicate()),
                    span: node.span,
                });
                copy
            },
            Expr::FunCall(node) => {
                let copy = Expr::FunCall(FunCall {
                    callee: node.callee.clone(),
                    args: duplicate_exprs(&node.args),
                    span: node.span,
                });
                copy
            },
            Expr::MethCall(node) => {
                let copy = Expr::MethCall(MethCall {
                    object: Box::new(node.object.duplicate()),
                    meth: node.meth.clone(),
                    args: duplicate_exprs(&node.args),
                    span: node.span,
                });
                copy
            },
            Expr::Field(node) => {
                let copy = Expr::Field(Field {
                    object: Box::new(node.object.duplicate()),
                    field: node.field.clone(),
                    span: node.span,
                });
                copy
            },
            Expr::New(node) => {
                let copy = Expr::New(NewExpr {
                    class_name: node.class_name.clone(),
                    args: duplicate_exprs(&node.args),
                    span: node.span,
                });
                copy
            },
            Expr::This(node) => {
                let copy = Expr::This(ThisExpr {
                    span: node.span,
                });
                copy
            },
            Expr::Println(node) => {
                let copy = Expr::Println(PrintlnExpr {
                    arg: Box::new(node.arg.duplicate()),
                    span: node.span,
                });
                copy
            },
            Expr::Print(node) => {
                let copy = Expr::Print(PrintExpr {
                    arg: Box::new(node.arg.duplicate()),
                    span: node.span,
                });
                copy
            },
            Expr::Grouped(inner, span) => Expr::Grouped(Box::new(inner.duplicate()), *span),
            Expr::Empty => Expr::Empty,
        }
    }
}

impl View for Expr {
    type V = ExprView;

    open spec fn view(&self) -> ExprView {
        self.model()
    }
}

/// Deep copies of the trees of `trees`, in order.
pub fn duplicate_exprs(trees: &Vec<Expr>) -> (copies: Vec<Expr>)
    ensures
        Expr::models(copies@) == Expr::models(trees@),
    decreases trees,
{
    let mut copies: Vec<Expr> = Vec::new();
    let mut i: usize = 0;
    while i < trees.len()
        invariant
            0 <= i <= trees.len(),
            copies.len() == i,
            forall|j: int| 0 <= j < i ==> copies[j]@ == trees[j]@,
        decreases trees.len() - i,
    {
        proof {
            vstd::std_specs::vec::axiom_vec_index_decreases(*trees, i as int);
        }
        let copy = trees[i].duplicate();
        copies.push(copy);
        i += 1;
    }
    assert(Expr::models(copies@) =~= Expr::models(trees@));
    copies
}

impl Clone for Expr {
    fn clone(&self) -> (copy: Expr)
        ensures
            copy@ == self@,
    {
        self.duplicate()
    }
}

impl Clone for IntegerLiteral {
    fn clone(&self) -> (copy: IntegerLiteral)
        ensures
            Expr::IntegerLiteral(copy)@ == Expr::IntegerLiteral(*self)@,
    {
        IntegerLiteral {
            value: self.value,
            span: self.span,
        }
    }
}

impl Clone for StringLiteral {
    fn clone(&self) -> (copy: StringLiteral)
        ensures
            Expr::StringLiteral(copy)@ == Expr::StringLiteral(*self)@,
    {
        StringLiteral {
            value: self.value.clone(),
            span: self.span,
        }
    }
}

impl Clone for BooleanLiteral {
    fn clone(&self) -> (copy: BooleanLiteral)
        ensures
            Expr::BooleanLiteral(copy)@ == Expr::BooleanLiteral(*self)@,
    {
        BooleanLiteral {
            value: self.value,
            span: self.span,
        }
    }
}

impl Clone for Variable {
    fn clone(&self) -> (copy: Variable)
        ensures
            Expr::Variable(copy)@ == Expr::Variable(*self)@,
    {
        Variable {
            name: self.name.clone(),
            span: self.span,
        }
    }
}

impl Clone for BinaryExpr {
    fn clone(&self) -> (copy: BinaryExpr)
        ensures
            Expr::Binary(copy)@ == Expr::Binary(*self)@,
    {
        BinaryExpr {
            left: Box::new(self.left.duplicate()),
            operator: self.operator,
            right: Box::new(self.right.duplicate()),
            span: self.span,
        }
    }
}

impl Clone for UnaryExpr {
    fn clone(&self) -> (copy: UnaryExpr)
        ensures
            Expr::Unary(copy)@ == Expr::Unary(*self)@,
    {
        UnaryExpr {
            operator: self.operator,
            expr: Box::new(self.expr.duplicate()),
            span: self.span,
        }
    }
}

impl Clone for FunCall {
    fn clone(&self) -> (copy: FunCall)
        ensures
            Expr::FunCall(copy)@ == Expr::FunCall(*self)@,
    {
        FunCall {
            callee: self.callee.clone(),
            args: duplicate_exprs(&self.args),
            span: self.span,
        }
    }
}

impl Clone for MethCall {
    fn clone(&self) -> (copy: MethCall)
        ensures
            Expr::MethCall(copy)@ == Expr::MethCall(*self)@,
    {
        MethCall {
            object: Box::new(self.object.duplicate()),
            meth: self.meth.clone(),
            args: duplicate_exprs(&self.args),
            span: self.span,
        }
    }
}

impl Clone for Field {
    fn clone(&self) -> (copy: Field)
        ensures
            Expr::Field(copy)@ == Expr::Field(*self)@,
    {
        Field {
            object: Box::new(self.object.duplicate()),
            field: self.field.clone(),
            span: self.span,
        }
    }
}

impl Clone for NewExpr {
    fn clone(&self) -> (copy: NewExpr)
        ensures
            Expr::New(copy)@ == Expr::New(*self)@,
    {
        NewExpr {
            class_name: self.class_name.clone(),
            args: duplicate_exprs(&self.args),
            span: self.span,
        }
    }
}

impl Clone for ThisExpr {
    fn clone(&self) -> (copy: ThisExpr)
        ensures
            Expr::This(copy)@ == Expr::This(*self)@,
    {
        ThisExpr {
            span: self.span,
        }
    }
}

impl Clone for PrintlnExpr {
    fn clone(&self) -> (copy: PrintlnExpr)
        ensures
            Expr::Println(copy)@ == Expr::Println(*self)@,
    {
        PrintlnExpr {
            arg: Box::new(self.arg.duplicate()),
            span: self.span,
        }
    }
}

impl Clone for PrintExpr {
    fn clone(&self) -> (copy: PrintExpr)
        ensures
            Expr::Print(copy)@ == Expr::Print(*self)@,
    {
        PrintExpr {
            arg: Box::new(self.arg.duplicate()),
            span: self.span,
        }
    }
}

} // verus!
