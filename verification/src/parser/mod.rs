pub mod decl;
pub mod engine;
pub mod error;
pub mod expr;
pub mod grammar;
pub mod laws;
pub mod report;
pub mod stmt;
pub mod types;

pub use decl::ParserDecl;
pub use crate::views::viewed;
pub use engine::Parser;
pub use error::{error_views, ParseError, ParseErrorView};
pub use expr::ParserExpr;
pub use crate::style::{
    assemble, paint, paint_line, paint_lines, plain_text, Segment, SegmentView, Style,
};
pub use report::render_errors;
pub use stmt::{dotted_name, field_path, ParserStmt};
pub use types::SyncPoint;
