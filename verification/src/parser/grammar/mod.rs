pub mod cursor;
pub mod expr;
pub mod stmt;

pub use cursor::{
    consume, consume_identifier, consume_optional, consume_two_optionals, consume_type, done, fail,
    mismatch, missing, synchronize, Cursor, Parsed,
};
pub use expr::{
    add_expr, add_tail, and_expr, and_tail, arguments, binary, chain, expression, call_expr, call_tail, comma_expr, comma_tail,
    comparison_expr, comparison_tail, expr, grouped_expr, mult_expr, mult_tail, name_expr,
    new_expr, or_expr, or_tail, primary_expr, print_call, unary_expr, unary_op, Listed,
};
pub use stmt::{
    assigned, block, block_tail, branch, break_stmt, condition, declared, dotted_name,
    dotted_stmt, expr_stmt, field_assign, field_path, if_stmt, return_stmt, stmt, var_assign, var_decl,
    while_stmt, Sequence,
};
pub mod decl;

pub use decl::{
    class, class_head, comma_param_decl, constructor, empty_entry, fun, method, method_name,
    methods_tail, no_constructor, param, params_tail, program, program_tail, result_type,
    signature_rest, skip_unexpected, statement, super_call, top_level, Methods, Params, Program,
    Typed,
};
pub mod forward;
