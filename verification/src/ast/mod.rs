pub mod decl;
pub mod expr;
pub mod pretty;
pub mod printer;
pub mod stmt;
pub mod visitor;

pub use decl::{
    class_views, fun_views, method_views, param_views, var_views, ClassDef, ClassDefView,
    Constructor, ConstructorView, Entry, EntryView, FunDef, FunDefView, MethDef, MethDefView,
    ParamDecl, ParamDeclView, VarDeclView,
};
pub use expr::{
    duplicate_exprs, BinaryExpr, BinaryOp, BooleanLiteral, Expr, ExprView, Field, FunCall,
    IntegerLiteral, MethCall, NewExpr, PrintExpr, PrintlnExpr, StringLiteral, ThisExpr, UnaryExpr,
    UnaryOp, Variable,
};
pub use printer::PrettyPrint;
pub use stmt::{
    duplicate_stmts, AssignStmt, BlockStmt, BreakStmt, ExprStmt, IfStmt, ReturnStmt, Stmt, StmtView,
    VarDeclStmt, VarDeclWithAssign, WhileStmt,
};
pub use visitor::Visitor;
