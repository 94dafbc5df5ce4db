use vstd::prelude::*;
use vstd::string::*;
use crate::lexer::Span;

verus! {

/// A diagnostic of the parser. Parsing records diagnostics and goes on; it never stops at one.
#[derive(Debug, PartialEq)]
#[allow(inconsistent_fields)]
pub enum ParseError {
    /// A method of class `symbol` has no name.
    ExpectedMethName { symbol: String, span: Span },
    /// One thing was expected and another found.
    ExpectedButFound { expected: String, found: String, span: Option<Span> },
    /// A comma in an argument list is not followed by an expression.
    ExpectedExpressionAfterComma { symbol: String, span: Span },
    /// An operator is not followed by an operand.
    ExpectedExpression { span: Span },
    /// A token that cannot stand where it stands.
    UnexpectedToken { symbol: String, span: Span },
    /// The input ended in the middle of a construct.
    UnexpectedEOF { span: Option<Span> },
    /// The body of class `symbol` does not start with its constructor.
    MissingClassInit { symbol: String, span: Span },
    /// The arrow of function or method `symbol` is not followed by a type.
    ExpectedReturnType { symbol: String, span: Span },
}

/// A diagnostic with its texts as sequences of characters.
#[allow(inconsistent_fields)]
pub enum ParseErrorView {
    ExpectedMethName { symbol: Seq<char>, span: Span },
    ExpectedButFound { expected: Seq<char>, found: Seq<char>, span: Option<Span> },
    ExpectedExpressionAfterComma { symbol: Seq<char>, span: Span },
    ExpectedExpression { span: Span },
    UnexpectedToken { symbol: Seq<char>, span: Span },
    UnexpectedEOF { span: Option<Span> },
    MissingClassInit { symbol: Seq<char>, span: Span },
    ExpectedReturnType { symbol: Seq<char>, span: Span },
}

impl ParseErrorView {
    /// The position the diagnostic points at, if it has one.
    pub open spec fn span(self) -> Option<Span> {
        match self {
            ParseErrorView::ExpectedMethName { span, .. } => Some(span),
            ParseErrorView::ExpectedButFound { span, .. } => span,
            ParseErrorView::ExpectedExpressionAfterComma { span, .. } => Some(span),
            ParseErrorView::ExpectedExpression { span } => Some(span),
            ParseErrorView::UnexpectedToken { span, .. } => Some(span),
            ParseErrorView::UnexpectedEOF { span } => span,
            ParseErrorView::MissingClassInit { span, .. } => Some(span),
            ParseErrorView::ExpectedReturnType { span, .. } => Some(span),
        }
    }

    /// The short code of the kind of diagnostic. It depends on the kind alone.
    pub open spec fn code(self) -> Seq<char> {
        match self {
            ParseErrorView::ExpectedMethName { .. } => "E011"@,
            ParseErrorView::ExpectedButFound { .. } => "E012"@,
            ParseErrorView::UnexpectedEOF { .. } => "E009"@,
            ParseErrorView::UnexpectedToken { .. } => "E020"@,
            ParseErrorView::ExpectedExpressionAfterComma { .. } => "E024"@,
            ParseErrorView::ExpectedExpression { .. } => "E025"@,
            ParseErrorView::MissingClassInit { .. } => "E007"@,
            ParseErrorView::ExpectedReturnType { .. } => "E013"@,
        }
    }

    /// How an optional position reads in the message of a mismatch.
    pub open spec fn place(span: Option<Span>) -> Seq<char> {
        match span {
            Some(span) => span.text(),
            None => "unknown location"@,
        }
    }

    /// How an optional position reads when it is shown variant by variant.
    pub open spec fn place_detail(span: Option<Span>) -> Seq<char> {
        match span {
            Some(span) => "Some("@ + span.detail() + ")"@,
            None => "None"@,
        }
    }

    /// The message of the diagnostic.
    pub open spec fn message(self) -> Seq<char> {
        match self {
            ParseErrorView::ExpectedMethName { symbol, span } => "Expected method name for class '"@
                + symbol + "' at "@ + span.text(),
            ParseErrorView::ExpectedButFound { expected, found, span } => "Expected '"@ + expected
                + "' but found '"@ + found + "' at "@ + Self::place(span),
            ParseErrorView::ExpectedExpressionAfterComma { symbol, span } =>
                "Expected expression after comma "@ + symbol + " at "@ + span.text(),
            ParseErrorView::ExpectedExpression { span } => "Expected expression at "@ + span.text(),
            ParseErrorView::UnexpectedToken { symbol, span } => "Unexpected token at "@ + symbol
                + " at "@ + span.text(),
            ParseErrorView::UnexpectedEOF { span } => "Unexpected EOF at "@ + Self::place_detail(
                span,
            ),
            ParseErrorView::MissingClassInit { symbol, span } => "Missing constructor for class '"@
                + symbol + "' at "@ + span.text(),
            ParseErrorView::ExpectedReturnType { symbol, span } => "Expected return type for '"@
                + symbol + "' at "@ + span.text(),
        }
    }
}

/// Whether two diagnostics are of the same kind, whatever they say of names and places.
pub open spec fn same_kind(a: ParseErrorView, b: ParseErrorView) -> bool {
    ||| a is ExpectedMethName && b is ExpectedMethName
    ||| a is ExpectedButFound && b is ExpectedButFound
    ||| a is ExpectedExpressionAfterComma && b is ExpectedExpressionAfterComma
    ||| a is ExpectedExpression && b is ExpectedExpression
    ||| a is UnexpectedToken && b is UnexpectedToken
    ||| a is UnexpectedEOF && b is UnexpectedEOF
    ||| a is MissingClassInit && b is MissingClassInit
    ||| a is ExpectedReturnType && b is ExpectedReturnType
}

/// The code of a diagnostic is the code of its kind: two diagnostics have the same code if
/// and only if they are of the same kind, whatever their messages say.
pub proof fn law_codes_name_kinds(a: ParseErrorView, b: ParseErrorView)
    ensures
        a.code() == b.code() <==> same_kind(a, b),
{
    reveal_strlit("E011");
    reveal_strlit("E012");
    reveal_strlit("E009");
    reveal_strlit("E020");
    reveal_strlit("E024");
    reveal_strlit("E025");
    reveal_strlit("E007");
    reveal_strlit("E013");
    assert("E011"@[3] == '1' && "E011"@[2] == '1');
    assert("E012"@[3] == '2' && "E012"@[2] == '1');
    assert("E009"@[3] == '9' && "E009"@[2] == '0');
    assert("E020"@[3] == '0' && "E020"@[2] == '2');
    assert("E024"@[3] == '4' && "E024"@[2] == '2');
    assert("E025"@[3] == '5' && "E025"@[2] == '2');
    assert("E007"@[3] == '7' && "E007"@[2] == '0');
    assert("E013"@[3] == '3' && "E013"@[2] == '1');
}

impl View for ParseError {
    type V = ParseErrorView;

    open spec fn view(&self) -> ParseErrorView {
        match self {
            ParseError::ExpectedMethName { symbol, span } => ParseErrorView::ExpectedMethName {
                symbol: symbol@,
                span: *span,
            },
            ParseError::ExpectedButFound { expected, found, span } =>
                ParseErrorView::ExpectedButFound { expected: expected@, found: found@, span: *span },
            ParseError::ExpectedExpressionAfterComma { symbol, span } =>
                ParseErrorView::ExpectedExpressionAfterComma { symbol: symbol@, span: *span },
            ParseError::ExpectedExpression { span } => ParseErrorView::ExpectedExpression {
                span: *span,
            },
            ParseError::UnexpectedToken { symbol, span } => ParseErrorView::UnexpectedToken {
                symbol: symbol@,
                span: *span,
            },
            ParseError::UnexpectedEOF { span } => ParseErrorView::UnexpectedEOF { span: *span },
            ParseError::MissingClassInit { symbol, span } => ParseErrorView::MissingClassInit {
                symbol: symbol@,
                span: *span,
            },
            ParseError::ExpectedReturnType { symbol, span } => ParseErrorView::ExpectedReturnType {
                symbol: symbol@,
                span: *span,
            },
        }
    }
}

impl Clone for ParseError {
    fn clone(&self) -> (copy: ParseError)
        ensures
            copy == *self,
    {
        match self {
            ParseError::ExpectedMethName { symbol, span } => ParseError::ExpectedMethName {
                symbol: symbol.clone(),
                span: *span,
            },
            ParseError::ExpectedButFound { expected, found, span } => ParseError::ExpectedButFound {
                expected: expected.clone(),
                found: found.clone(),
                span: *span,
            },
            ParseError::ExpectedExpressionAfterComma { symbol, span } =>
                ParseError::ExpectedExpressionAfterComma { symbol: symbol.clone(), span: *span },
            ParseError::ExpectedExpression { span } => ParseError::ExpectedExpression { span: *span },
            ParseError::UnexpectedToken { symbol, span } => ParseError::UnexpectedToken {
                symbol: symbol.clone(),
                span: *span,
            },
            ParseError::UnexpectedEOF { span } => ParseError::UnexpectedEOF { span: *span },
            ParseError::MissingClassInit { symbol, span } => ParseError::MissingClassInit {
                symbol: symbol.clone(),
                span: *span,
            },
            ParseError::ExpectedReturnType { symbol, span } => ParseError::ExpectedReturnType {
                symbol: symbol.clone(),
                span: *span,
            },
        }
    }
}

impl ParseError {
    /// The position the diagnostic points at, if it has one.
    pub fn get_span(&self) -> (span: Option<&Span>)
        ensures
            span.is_some() == self@.span().is_some(),
            span matches Some(at) ==> self@.span() == Some(*at),
    {
        match self {
            ParseError::ExpectedMethName { span, .. } => Some(span),
            ParseError::ExpectedButFound { span, .. } => span.as_ref(),
            ParseError::ExpectedExpressionAfterComma { span, .. } => Some(span),
            ParseError::ExpectedExpression { span } => Some(span),
            ParseError::UnexpectedToken { span, .. } => Some(span),
            ParseError::UnexpectedEOF { span } => span.as_ref(),
            ParseError::MissingClassInit { span, .. } => Some(span),
            ParseError::ExpectedReturnType { span, .. } => Some(span),
        }
    }

    /// The short code of the kind of diagnostic.
    pub fn get_code(&self) -> (code: &'static str)
        ensures
            code@ == self@.code(),
    {
        match self {
            ParseError::ExpectedMethName { .. } => "E011",
            ParseError::ExpectedButFound { .. } => "E012",
            ParseError::UnexpectedEOF { .. } => "E009",
            ParseError::UnexpectedToken { .. } => "E020",
            ParseError::ExpectedExpressionAfterComma { .. } => "E024",
            ParseError::ExpectedExpression { .. } => "E025",
            ParseError::MissingClassInit { .. } => "E007",
            ParseError::ExpectedReturnType { .. } => "E013",
        }
    }

    /// A mismatch: `expected` was expected and `found` was found; where nothing can be named
    /// as found, the diagnostic says `unknown`.
    pub fn expected_but_found(expected: String, found: Option<String>, span: Option<Span>) -> (error:
        ParseError)
        ensures
            error@ == (ParseErrorView::ExpectedButFound {
                expected: expected@,
                found: match found {
                    Some(text) => text@,
                    None => "unknown"@,
                },
                span,
            }),
    {
        let found = match found {
            Some(text) => text,
            None => String::from_str("unknown"),
        };
        ParseError::ExpectedButFound { expected, found, span }
    }

    /// The message of the diagnostic.
    pub fn to_string(&self) -> (message: String)
        ensures
            message@ == self@.message(),
    {
        match self {
            ParseError::ExpectedMethName { symbol, span } => {
                let mut s = String::from_str("Expected method name for class '");
                s.append(symbol.as_str());
                s.append("' at ");
                s.append(span.to_string().as_str());
                s
            },
            ParseError::ExpectedButFound { expected, found, span } => {
                let mut s = String::from_str("Expected '");
                s.append(expected.as_str());
                s.append("' but found '");
                s.append(found.as_str());
                s.append("' at ");
                match span {
                    Some(span) => s.append(span.to_string().as_str()),
                    None => s.append("unknown location"),
                }
                s
            },
            ParseError::ExpectedExpressionAfterComma { symbol, span } => {
                let mut s = String::from_str("Expected expression after comma ");
                s.append(symbol.as_str());
                s.append(" at ");
                s.append(span.to_string().as_str());
                s
            },
            ParseError::ExpectedExpression { span } => {
                let mut s = String::from_str("Expected expression at ");
                s.append(span.to_string().as_str());
                s
            },
            ParseError::UnexpectedToken { symbol, span } => {
                let mut s = String::from_str("Unexpected token at ");
                s.append(symbol.as_str());
                s.append(" at ");
                s.append(span.to_string().as_str());
                s
            },
            ParseError::UnexpectedEOF { span } => {
                let mut s = String::from_str("Unexpected EOF at ");
                match span {
                    Some(span) => {
                        let mut detail = String::from_str("Some(");
                        detail.append(span.to_detail_string().as_str());
                        detail.append(")");
                        s.append(detail.as_str());
                    },
                    None => s.append("None"),
                }
                s
            },
            ParseError::MissingClassInit { symbol, span } => {
                let mut s = String::from_str("Missing constructor for class '");
                s.append(symbol.as_str());
                s.append("' at ");
                s.append(span.to_string().as_str());
                s
            },
            ParseError::ExpectedReturnType { symbol, span } => {
                let mut s = String::from_str("Expected return type for '");
                s.append(symbol.as_str());
                s.append("' at ");
                s.append(span.to_string().as_str());
                s
            },
        }
    }
}

/// The views of a sequence of diagnostics, in order.
#[verifier::opaque]
pub open spec fn error_views(errors: Seq<ParseError>) -> Seq<ParseErrorView> {
    Seq::new(errors.len(), |i: int| errors[i]@)
}

} // verus!
