use vstd::prelude::*;
use crate::lexer::chars::is_white_space;
use crate::lexer::scan::{
    made, next_token, skip_block, skip_line, skip_whitespace, Scan,
};
use crate::lexer::token::TokenTypeView;

verus! {

/// White space in front of a token changes neither the token nor its position: the token
/// behind a character of white space is the token behind the character after it.
pub proof fn law_white_space_is_passed_over(input: Seq<char>, s: Scan)
    requires
        s.peek(input) matches Some(c) && is_white_space(c),
    ensures
        next_token(input, s) == next_token(input, s.advance(input)),
{
    assert(skip_whitespace(input, s) == skip_whitespace(input, s.advance(input)));
}

/// A comment that starts with `//` in front of a token changes neither the token nor its
/// position: the token is the one behind the rest of the line.
pub proof fn law_line_comment_is_passed_over(input: Seq<char>, s: Scan)
    requires
        s.peek(input) == Some('/'),
        s.peek_ahead(input) == Some('/'),
    ensures
        next_token(input, s) == next_token(input, skip_line(input, s)),
{
    assert(skip_whitespace(input, s) == s);
}

/// A comment that starts with `/*` in front of a token changes neither the token nor its
/// position: the token is the one behind the next `*/`.
pub proof fn law_block_comment_is_passed_over(input: Seq<char>, s: Scan)
    requires
        s.peek(input) == Some('/'),
        s.peek_ahead(input) == Some('*'),
    ensures
        next_token(input, s) == next_token(input, skip_block(input, s)),
{
    assert(skip_whitespace(input, s) == s);
}

/// `<=` is one token, the comparison for less or equal, and `<` in front of anything else
/// is the comparison for less.
pub proof fn law_less_or_equal_is_one_token(input: Seq<char>, s: Scan)
    requires
        s.peek(input) == Some('<'),
    ensures
        s.peek_ahead(input) == Some('=') ==> next_token(input, s) == made(
            input,
            s,
            TokenTypeView::LessEqual,
            2,
        ),
        s.peek_ahead(input) != Some('=') ==> next_token(input, s) == made(
            input,
            s,
            TokenTypeView::Less,
            1,
        ),
{
    assert(skip_whitespace(input, s) == s);
}

/// `!=` is one token, the comparison for not equal, and `!` in front of anything else is
/// the negation.
pub proof fn law_not_equal_is_one_token(input: Seq<char>, s: Scan)
    requires
        s.peek(input) == Some('!'),
    ensures
        s.peek_ahead(input) == Some('=') ==> next_token(input, s) == made(
            input,
            s,
            TokenTypeView::NotEqual,
            2,
        ),
        s.peek_ahead(input) != Some('=') ==> next_token(input, s) == made(
            input,
            s,
            TokenTypeView::Not,
            1,
        ),
{
    assert(skip_whitespace(input, s) == s);
}

} // verus!
