pub mod class;
pub mod engine;
pub mod expr;
pub mod fun;
pub mod stmt;
pub mod target;

pub use class::ClassGenerator;
pub use engine::CodeGenerator;
pub use expr::ExpressionGenerator;
pub use fun::FunctionGenerator;
pub use stmt::StatementGenerator;
