//! The diagnostic vocabulary: expectations and parse errors.

use vstd::prelude::*;
use vstd::string::StringExecFns;

use crate::span::Sp;
use crate::token::{LexError, Token, TokenV};

verus! {

/// What the parser was looking for at a failure point.
#[derive(Clone, Copy, PartialEq, Eq, Structural, Debug)]
pub enum Expectation {
    Ident,
    Block,
    Type,
    Expr,
    Pattern,
    Eof,
    Simple(crate::token::Simple),
}

impl DeepView for Expectation {
    type V = Expectation;

    open spec fn deep_view(&self) -> Expectation {
        *self
    }
}

/// A parse diagnostic: either the lexer's own error, wrapped unchanged, or
/// a grammar failure carrying the constructs that were expected and the
/// offending token, if any remained.
#[derive(Debug)]
pub enum ParseError {
    Lex(LexError),
    Expected(Vec<Expectation>, Option<Box<Sp<Token>>>),
}

/// Mathematical value of a [`ParseError`].
pub enum ParseErrorV {
    Lex(Seq<char>),
    Expected(Seq<Expectation>, Option<Sp<TokenV>>),
}

impl DeepView for ParseError {
    type V = ParseErrorV;

    open spec fn deep_view(&self) -> ParseErrorV {
        match self {
            ParseError::Lex(e) => ParseErrorV::Lex(e.deep_view()),
            ParseError::Expected(exps, found) => ParseErrorV::Expected(
                exps.deep_view(),
                found.deep_view(),
            ),
        }
    }
}

/// The result type of every fallible parsing step.
pub type ParseResult<T> = Result<T, Sp<ParseError>>;

impl Expectation {
    /// The fixed noun or surface form the expectation renders as.
    pub open spec fn spec_name(self) -> Seq<char> {
        match self {
            Expectation::Ident => "identifier"@,
            Expectation::Block => "block"@,
            Expectation::Type => "type"@,
            Expectation::Expr => "expression"@,
            Expectation::Pattern => "pattern"@,
            Expectation::Eof => "end of file"@,
            Expectation::Simple(s) => s.spec_text(),
        }
    }

    /// Renders the expectation as its fixed noun or surface form.
    pub fn name(self) -> (r: String)
        ensures
            r@ == self.spec_name(),
    {
        match self {
            Expectation::Ident => String::from_str("identifier"),
            Expectation::Block => String::from_str("block"),
            Expectation::Type => String::from_str("type"),
            Expectation::Expr => String::from_str("expression"),
            Expectation::Pattern => String::from_str("pattern"),
            Expectation::Eof => String::from_str("end of file"),
            Expectation::Simple(s) => s.text(),
        }
    }
}

/// The expectations from position `i` on, comma-joined.
pub open spec fn spec_expectations_text(s: Seq<Expectation>, i: nat) -> Seq<char>
    decreases s.len() - i,
{
    if i >= s.len() {
        Seq::empty()
    } else {
        let piece = if i == 0 {
            s[i as int].spec_name()
        } else {
            ", "@ + s[i as int].spec_name()
        };
        piece + spec_expectations_text(s, i + 1)
    }
}

/// What a diagnostic renders as: a lexical error's own message, or
/// `expected` followed by the comma-joined expectations and, when a
/// token stood at the failure point, `, found` and that token.
pub open spec fn spec_message(e: ParseErrorV) -> Seq<char> {
    match e {
        ParseErrorV::Lex(m) => m,
        ParseErrorV::Expected(exps, found) => "expected "@ + spec_expectations_text(exps, 0)
            + (match found {
            Some(t) => ", found "@ + crate::token::spec_token_text(t.value),
            None => Seq::empty(),
        }),
    }
}

impl ParseError {
    /// Renders the user-facing message of this diagnostic.
    pub fn message(&self) -> (r: String)
        ensures
            r@ == spec_message(self.deep_view()),
    {
        match self {
            ParseError::Lex(e) => e.message.clone(),
            ParseError::Expected(exps, found) => {
                let mut out = String::from_str("expected ");
                let rest = render_expectations(exps, 0);
                out.append(rest.as_str());
                match found {
                    Some(t) => {
                        out.append(", found ");
                        let tt = crate::token::token_text(&t.value);
                        out.append(tt.as_str());
                    },
                    None => {},
                }
                out
            },
        }
    }
}

/// Renders the expectations from position `i` on, comma-joined.
fn render_expectations(v: &Vec<Expectation>, i: usize) -> (r: String)
    requires
        i <= v.len(),
    ensures
        r@ == spec_expectations_text(v.deep_view(), i as nat),
    decreases v.len() - i,
{
    if i >= v.len() {
        String::new()
    } else {
        let piece = if i == 0 {
            v[i].name()
        } else {
            let mut p = String::from_str(", ");
            let n = v[i].name();
            p.append(n.as_str());
            p
        };
        let rest = render_expectations(v, i + 1);
        piece.concat(rest.as_str())
    }
}

} // verus!

