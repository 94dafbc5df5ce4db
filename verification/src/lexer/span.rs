use vstd::prelude::*;
use vstd::string::*;
use crate::text::{decimal, push_usize};

verus! {

/// A position in the source text: the line and the column at which a token starts,
/// both counted from one.
#[derive(Debug, Default, Clone, Copy, PartialEq, Eq, Structural)]
pub struct Span {
    pub line: usize,
    pub column: usize,
}

impl Span {
    /// The position at line `line` and column `column`.
    pub fn new(line: usize, column: usize) -> (span: Span)
        ensures
            span == (Span { line, column }),
    {
        Span { line, column }
    }

    /// How a position reads in a message: `line L:C`.
    pub open spec fn text(self) -> Seq<char> {
        "line "@ + decimal(self.line as nat) + ":"@ + decimal(self.column as nat)
    }

    /// How a position reads when it is shown field by field.
    pub open spec fn detail(self) -> Seq<char> {
        "Span { line: "@ + decimal(self.line as nat) + ", column: "@ + decimal(
            self.column as nat,
        ) + " }"@
    }

    /// How the position reads in a message.
    pub fn to_string(&self) -> (s: String)
        ensures
            s@ == self.text(),
    {
        let mut s = String::from_str("line ");
        push_usize(&mut s, self.line);
        s.append(":");
        push_usize(&mut s, self.column);
        s
    }

    /// How the position reads when it is shown field by field.
    pub fn to_detail_string(&self) -> (s: String)
        ensures
            s@ == self.detail(),
    {
        let mut s = String::from_str("Span { line: ");
        push_usize(&mut s, self.line);
        s.append(", column: ");
        push_usize(&mut s, self.column);
        s.append(" }");
        s
    }
}

} // verus!
