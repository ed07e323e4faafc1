//! The executable parser, verified against the definitional grammar.
//!
//! Every method's contract states that its result and final cursor
//! position are exactly what the corresponding function in
//! [`crate::grammar`] maps the input to.

use vstd::prelude::*;
use vstd::string::StringExecFns;

use crate::ast::{
    Access, Accessor, BinExpr, Binding, Block, Call, Expr, FunctionDef, Item, Param, Pattern,
    Type, UnExpr,
};
use crate::ast::Assignment;
use crate::diag::{Expectation, ParseError, ParseResult};
use crate::grammar;
use crate::grammar::{to_hop, to_need, to_step, Prec, Step};
use crate::span::{Sp, Span};
use crate::token::{clone_token, Keyword, LexError, Simple, Token, TokenV};

verus! {

/// Spans whose positions leave room for the synthetic one-past-the-end
/// diagnostic position; a lexer cannot produce columns at the machine
/// limit.
pub open spec fn tokens_wf(s: Seq<Sp<TokenV>>) -> bool {
    forall|k: int| 0 <= k < s.len() ==> (#[trigger] s[k]).span.end.col < usize::MAX
}

/// A parsing session: the lexer's token sequence and a read position.
/// The sequence is never modified; the position never moves backwards.
pub struct Parser {
    pub tokens: Vec<Sp<Token>>,
    pub index: usize,
}

impl Parser {
    /// The mathematical value of the token sequence.
    pub open spec fn toks(self) -> Seq<Sp<TokenV>> {
        self.tokens.deep_view()
    }

    /// The cursor is within bounds and the spans leave room for the
    /// end-of-input diagnostic position.
    pub open spec fn wf(self) -> bool {
        self.index <= self.tokens.len() && tokens_wf(self.toks())
    }

    /// Starts a session at the beginning of a token sequence.
    pub fn new(tokens: Vec<Sp<Token>>) -> (r: Parser)
        requires
            tokens_wf(tokens.deep_view()),
        ensures
            r.wf(),
            r.tokens == tokens,
            r.index == 0,
    {
        Parser { tokens, index: 0 }
    }

    /// Moves past any ordinary comments.
    fn skip_comments(&mut self)
        requires
            old(self).wf(),
        ensures
            final(self).wf(),
            final(self).tokens == old(self).tokens,
            old(self).index <= final(self).index,
            final(self).index as nat == grammar::skip(old(self).toks(), old(self).index as nat),
        decreases self.tokens.len() - self.index,
    {
        if self.index < self.tokens.len() {
            let c = match &self.tokens[self.index].value {
                Token::Comment(_) => true,
                _ => false,
            };
            if c {
                self.index = self.index + 1;
                self.skip_comments();
            }
        }
    }

    /// Probes for an exact punctuation token, consuming it when present.
    fn try_simple(&mut self, sim: Simple) -> (r: Option<Span>)
        requires
            old(self).wf(),
        ensures
            final(self).wf(),
            final(self).tokens == old(self).tokens,
            old(self).index <= final(self).index,
            (r is Some ==> old(self).index < final(self).index),
            to_hop(r, final(self).index as nat) == grammar::try_token(
                old(self).toks(),
                old(self).index as nat,
                TokenV::Simple(sim),
            ),
    {
        self.skip_comments();
        if self.index < self.tokens.len() {
            let hit = match &self.tokens[self.index].value {
                Token::Simple(s2) => *s2 == sim,
                _ => false,
            };
            if hit {
                let span = self.tokens[self.index].span;
                self.index = self.index + 1;
                return Some(span);
            }
        }
        None
    }

    /// Probes for an exact keyword token, consuming it when present.
    fn try_keyword(&mut self, kw: Keyword) -> (r: Option<Span>)
        requires
            old(self).wf(),
        ensures
            final(self).wf(),
            final(self).tokens == old(self).tokens,
            old(self).index <= final(self).index,
            (r is Some ==> old(self).index < final(self).index),
            to_hop(r, final(self).index as nat) == grammar::try_token(
                old(self).toks(),
                old(self).index as nat,
                TokenV::Keyword(kw),
            ),
    {
        self.skip_comments();
        if self.index < self.tokens.len() {
            let hit = match &self.tokens[self.index].value {
                Token::Keyword(k2) => *k2 == kw,
                _ => false,
            };
            if hit {
                let span = self.tokens[self.index].span;
                self.index = self.index + 1;
                return Some(span);
            }
        }
        None
    }

    /// Probes for an identifier token, handing out its text.
    pub fn try_ident(&mut self) -> (r: Option<Sp<String>>)
        requires
            old(self).wf(),
        ensures
            final(self).wf(),
            final(self).tokens == old(self).tokens,
            old(self).index <= final(self).index,
            (r is Some ==> old(self).index < final(self).index),
            to_hop(r, final(self).index as nat) == grammar::try_ident(
                old(self).toks(),
                old(self).index as nat,
            ),
    {
        self.skip_comments();
        if self.index < self.tokens.len() {
            let span = self.tokens[self.index].span;
            let name: Option<String> = match &self.tokens[self.index].value {
                Token::Ident(n) => Some(n.clone()),
                _ => None,
            };
            match name {
                Some(n) => {
                    self.index = self.index + 1;
                    return Some(Sp { value: n, span });
                },
                None => {},
            }
        }
        None
    }

    /// Probes for an integer literal token.
    fn try_integer(&mut self) -> (r: Option<Sp<i64>>)
        requires
            old(self).wf(),
        ensures
            final(self).wf(),
            final(self).tokens == old(self).tokens,
            old(self).index <= final(self).index,
            (r is Some ==> old(self).index < final(self).index),
            to_hop(r, final(self).index as nat) == grammar::try_integer(
                old(self).toks(),
                old(self).index as nat,
            ),
    {
        self.skip_comments();
        if self.index < self.tokens.len() {
            let span = self.tokens[self.index].span;
            let v: Option<i64> = match &self.tokens[self.index].value {
                Token::Integer(n) => Some(*n),
                _ => None,
            };
            match v {
                Some(n) => {
                    self.index = self.index + 1;
                    return Some(Sp { value: n, span });
                },
                None => {},
            }
        }
        None
    }

    /// Probes for a real literal token.
    fn try_real(&mut self) -> (r: Option<Sp<String>>)
        requires
            old(self).wf(),
        ensures
            final(self).wf(),
            final(self).tokens == old(self).tokens,
            old(self).index <= final(self).index,
            (r is Some ==> old(self).index < final(self).index),
            to_hop(r, final(self).index as nat) == grammar::try_real(
                old(self).toks(),
                old(self).index as nat,
            ),
    {
        self.skip_comments();
        if self.index < self.tokens.len() {
            let span = self.tokens[self.index].span;
            let v: Option<String> = match &self.tokens[self.index].value {
                Token::Real(n) => Some(n.clone()),
                _ => None,
            };
            match v {
                Some(n) => {
                    self.index = self.index + 1;
                    return Some(Sp { value: n, span });
                },
                None => {},
            }
        }
        None
    }

    /// Accumulates consecutive documentation-comment lines into one
    /// string spanning from the first line to the last.
    pub fn doc_comment(&mut self) -> (r: Option<Sp<String>>)
        requires
            old(self).wf(),
        ensures
            final(self).wf(),
            final(self).tokens == old(self).tokens,
            old(self).index <= final(self).index,
            r.deep_view() == grammar::doc_comment(old(self).toks(), old(self).index as nat).0,
            final(self).index as nat == grammar::doc_comment(old(self).toks(), old(self).index as nat).1,
        decreases self.tokens.len() - self.index,
    {
        self.skip_comments();
        if self.index < self.tokens.len() {
            let span = self.tokens[self.index].span;
            let line: Option<String> = match &self.tokens[self.index].value {
                Token::DocComment(l) => Some(l.clone()),
                _ => None,
            };
            match line {
                Some(l) => {
                    self.index = self.index + 1;
                    match self.doc_comment() {
                        None => Some(Sp { value: l, span }),
                        Some(d) => Some(
                            Sp {
                                value: l.concat(d.value.as_str()),
                                span: Span { start: span.start, end: d.span.end },
                            },
                        ),
                    }
                },
                None => None,
            }
        } else {
            None
        }
    }

    /// The span a diagnostic raised at the current position carries.
    fn last_span(&self) -> (r: Span)
        requires
            self.wf(),
            self.tokens.len() > 0,
        ensures
            r == grammar::last_span(self.toks(), self.index as nat),
    {
        if self.index < self.tokens.len() {
            self.tokens[self.index].span
        } else {
            let tail = self.tokens[self.tokens.len() - 1].span;
            proof {
                assert(self.toks()[self.tokens@.len() - 1].span == tail);
            }
            let mut span = Span { start: tail.end, end: tail.end };
            if self.tokens.len() > span.end.pos {
                span.end.pos = span.end.pos + 1;
                span.end.col = span.end.col + 1;
            }
            span
        }
    }

    /// Builds the diagnostic for the given expectations at the current
    /// position, carrying the offending token if any remains.
    fn expected(&self, expectations: Vec<Expectation>) -> (r: Sp<ParseError>)
        requires
            self.wf(),
            self.tokens.len() > 0,
        ensures
            r.deep_view() == grammar::expected(
                self.toks(),
                self.index as nat,
                expectations.deep_view(),
            ),
    {
        let found: Option<Box<Sp<Token>>> = if self.index < self.tokens.len() {
            let t = &self.tokens[self.index];
            Some(Box::new(Sp { value: clone_token(&t.value), span: t.span }))
        } else {
            None
        };
        let span = self.last_span();
        Sp { value: ParseError::Expected(expectations, found), span }
    }

    /// Builds the diagnostic for a single expectation.
    fn expected_one(&self, e: Expectation) -> (r: Sp<ParseError>)
        requires
            self.wf(),
            self.tokens.len() > 0,
        ensures
            r.deep_view() == grammar::expected(self.toks(), self.index as nat, seq![e]),
    {
        let mut v: Vec<Expectation> = Vec::new();
        v.push(e);
        proof {
            assert(v.deep_view() =~= seq![e]);
        }
        self.expected(v)
    }

    /// Demands an exact punctuation token, failing with a diagnostic
    /// naming it.
    fn expect(&mut self, simple: Simple) -> (r: ParseResult<Span>)
        requires
            old(self).wf(),
            old(self).tokens.len() > 0,
        ensures
            final(self).wf(),
            final(self).tokens == old(self).tokens,
            old(self).index <= final(self).index,
            to_need(r, final(self).index as nat) == grammar::expect(
                old(self).toks(),
                old(self).index as nat,
                simple,
            ),
    {
        match self.try_simple(simple) {
            Some(span) => Ok(span),
            None => Err(self.expected_one(Expectation::Simple(simple))),
        }
    }

    /// Probes for one of a tier's operator tokens.
    fn try_tier_op(&mut self, p: Prec) -> (r: Option<Sp<crate::ast::BinOp>>)
        requires
            old(self).wf(),
        ensures
            final(self).wf(),
            final(self).tokens == old(self).tokens,
            old(self).index <= final(self).index,
            (r is Some ==> old(self).index < final(self).index),
            to_hop(r, final(self).index as nat) == grammar::try_tier_op(
                old(self).toks(),
                old(self).index as nat,
                p,
            ),
    {
        self.skip_comments();
        if self.index < self.tokens.len() {
            let span = self.tokens[self.index].span;
            match tier_op(&self.tokens[self.index].value, p) {
                Some(b) => {
                    self.index = self.index + 1;
                    Some(Sp { value: b, span })
                },
                None => None,
            }
        } else {
            None
        }
    }

    /// Probes for a unary-prefix operator token.
    fn try_un_op(&mut self) -> (r: Option<Sp<crate::ast::UnOp>>)
        requires
            old(self).wf(),
        ensures
            final(self).wf(),
            final(self).tokens == old(self).tokens,
            old(self).index <= final(self).index,
            (r is Some ==> old(self).index < final(self).index),
            to_hop(r, final(self).index as nat) == grammar::try_un_op(
                old(self).toks(),
                old(self).index as nat,
            ),
    {
        self.skip_comments();
        if self.index < self.tokens.len() {
            let span = self.tokens[self.index].span;
            match un_op(&self.tokens[self.index].value) {
                Some(b) => {
                    self.index = self.index + 1;
                    Some(Sp { value: b, span })
                },
                None => None,
            }
        } else {
            None
        }
    }

    /// Probes for an assignment operator token.
    fn try_assign_op(&mut self) -> (r: Option<Sp<Option<crate::ast::BinOp>>>)
        requires
            old(self).wf(),
        ensures
            final(self).wf(),
            final(self).tokens == old(self).tokens,
            old(self).index <= final(self).index,
            (r is Some ==> old(self).index < final(self).index),
            to_hop(r, final(self).index as nat) == grammar::try_assign_op(
                old(self).toks(),
                old(self).index as nat,
            ),
    {
        self.skip_comments();
        if self.index < self.tokens.len() {
            let span = self.tokens[self.index].span;
            match assign_op(&self.tokens[self.index].value) {
                Some(b) => {
                    self.index = self.index + 1;
                    Some(Sp { value: b, span })
                },
                None => None,
            }
        } else {
            None
        }
    }
}

/// The binary operator a token denotes within one tier, if any.
fn tier_op(t: &Token, p: Prec) -> (r: Option<crate::ast::BinOp>)
    ensures
        r == grammar::tier_op_of(t.deep_view(), p),
{
    match p {
        Prec::Or => match t {
            Token::Keyword(Keyword::Or) => Some(crate::ast::BinOp::Or),
            _ => None,
        },
        Prec::And => match t {
            Token::Keyword(Keyword::And) => Some(crate::ast::BinOp::And),
            _ => None,
        },
        Prec::Cmp => match t {
            Token::Simple(Simple::Equal) => Some(crate::ast::BinOp::Eq),
            Token::Simple(Simple::NotEqual) => Some(crate::ast::BinOp::Ne),
            Token::Simple(Simple::Less) => Some(crate::ast::BinOp::Lt),
            Token::Simple(Simple::LessEqual) => Some(crate::ast::BinOp::Le),
            Token::Simple(Simple::Greater) => Some(crate::ast::BinOp::Gt),
            Token::Simple(Simple::GreaterEqual) => Some(crate::ast::BinOp::Ge),
            _ => None,
        },
        Prec::Sum => match t {
            Token::Simple(Simple::Plus) => Some(crate::ast::BinOp::Add),
            Token::Simple(Simple::Minus) => Some(crate::ast::BinOp::Sub),
            _ => None,
        },
        Prec::Prod => match t {
            Token::Simple(Simple::Star) => Some(crate::ast::BinOp::Mul),
            Token::Simple(Simple::Slash) => Some(crate::ast::BinOp::Div),
            _ => None,
        },
    }
}

/// The unary operator a token denotes, if any.
fn un_op(t: &Token) -> (r: Option<crate::ast::UnOp>)
    ensures
        r == grammar::un_op_of(t.deep_view()),
{
    match t {
        Token::Simple(Simple::Minus) => Some(crate::ast::UnOp::Neg),
        Token::Keyword(Keyword::Not) => Some(crate::ast::UnOp::Not),
        _ => None,
    }
}

/// The assignment operator a token denotes, if any.
fn assign_op(t: &Token) -> (r: Option<Option<crate::ast::BinOp>>)
    ensures
        r == grammar::assign_op_of(t.deep_view()),
{
    match t {
        Token::Simple(Simple::Equals) => Some(None),
        Token::Simple(Simple::PlusEquals) => Some(Some(crate::ast::BinOp::Add)),
        Token::Simple(Simple::MinusEquals) => Some(Some(crate::ast::BinOp::Sub)),
        Token::Simple(Simple::StarEquals) => Some(Some(crate::ast::BinOp::Mul)),
        Token::Simple(Simple::SlashEquals) => Some(Some(crate::ast::BinOp::Div)),
        _ => None,
    }
}

/// The next tighter tier, if any.
fn tier_child(p: Prec) -> (r: Option<Prec>)
    ensures
        r == grammar::tier_child(p),
{
    match p {
        Prec::Or => Some(Prec::And),
        Prec::And => Some(Prec::Cmp),
        Prec::Cmp => Some(Prec::Sum),
        Prec::Sum => Some(Prec::Prod),
        Prec::Prod => None,
    }
}

impl Parser {
    /// One `name: type` parameter.
    pub fn try_param(&mut self) -> (r: ParseResult<Option<Param>>)
        requires
            old(self).wf(),
        ensures
            final(self).wf(),
            final(self).tokens == old(self).tokens,
            old(self).index <= final(self).index,
            (r matches Ok(Some(_)) ==> old(self).index < final(self).index),
            to_step(r, final(self).index as nat) == grammar::try_param(
                old(self).toks(),
                old(self).index as nat,
            ),
        decreases self.tokens.len() - self.index, 0int, 0int,
    {
        let name = match self.try_ident() {
            None => return Ok(None),
            Some(n) => n,
        };
        let _colon = match self.expect(Simple::Colon) {
            Err(e) => return Err(e),
            Ok(sp) => sp,
        };
        match self.ty() {
            Err(e) => Err(e),
            Ok(t) => Ok(Some(Param { name, ty: t })),
        }
    }

    /// A pattern: an identifier, or a parenthesized tuple of patterns.
    pub fn try_pattern(&mut self) -> (r: ParseResult<Option<Sp<Pattern>>>)
        requires
            old(self).wf(),
        ensures
            final(self).wf(),
            final(self).tokens == old(self).tokens,
            old(self).index <= final(self).index,
            (r matches Ok(Some(_)) ==> old(self).index < final(self).index),
            to_step(r, final(self).index as nat) == grammar::try_pattern(
                old(self).toks(),
                old(self).index as nat,
            ),
        decreases self.tokens.len() - self.index, 1int, 0int,
    {
        if let Some(n) = self.try_ident() {
            return Ok(Some(Sp { value: Pattern::Ident(n.value), span: n.span }));
        }
        match self.try_patterns_list(Simple::OpenParen, Simple::CloseParen) {
            Err(e) => Err(e),
            Ok(None) => Ok(None),
            Ok(Some(ps)) => {
                proof {
                    crate::ast::lemma_sp_patterns_v_is_deep(ps.value);
                }
                Ok(Some(Sp { value: Pattern::Tuple(ps.value), span: ps.span }))
            },
        }
    }

    /// A mandatory pattern.
    pub fn pattern(&mut self) -> (r: ParseResult<Sp<Pattern>>)
        requires
            old(self).wf(),
            old(self).tokens.len() > 0,
        ensures
            final(self).wf(),
            final(self).tokens == old(self).tokens,
            old(self).index <= final(self).index,
            to_need(r, final(self).index as nat) == grammar::pattern(
                old(self).toks(),
                old(self).index as nat,
            ),
        decreases self.tokens.len() - self.index, 2int, 0int,
    {
        match self.try_pattern() {
            Err(e) => Err(e),
            Ok(Some(v)) => Ok(v),
            Ok(None) => Err(self.expected_one(Expectation::Pattern)),
        }
    }

    /// A type: a named type, a bracketed array element type, or a
    /// parenthesized tuple of types.
    pub fn try_ty(&mut self) -> (r: ParseResult<Option<Sp<Type>>>)
        requires
            old(self).wf(),
        ensures
            final(self).wf(),
            final(self).tokens == old(self).tokens,
            old(self).index <= final(self).index,
            (r matches Ok(Some(_)) ==> old(self).index < final(self).index),
            to_step(r, final(self).index as nat) == grammar::try_ty(
                old(self).toks(),
                old(self).index as nat,
            ),
        decreases self.tokens.len() - self.index, 1int, 0int,
    {
        if let Some(n) = self.try_ident() {
            return Ok(Some(Sp { value: Type::Ident(n.value), span: n.span }));
        }
        if let Some(osp) = self.try_simple(Simple::OpenBracket) {
            let inner = match self.ty() {
                Err(e) => return Err(e),
                Ok(t) => t,
            };
            let csp = match self.expect(Simple::CloseBracket) {
                Err(e) => return Err(e),
                Ok(sp) => sp,
            };
            return Ok(
                Some(Sp { value: Type::Array(Box::new(inner)), span: osp.merge(csp) }),
            );
        }
        match self.try_tys_list(Simple::OpenParen, Simple::CloseParen) {
            Err(e) => Err(e),
            Ok(None) => Ok(None),
            Ok(Some(ts)) => {
                proof {
                    crate::ast::lemma_sp_types_v_is_deep(ts.value);
                }
                Ok(Some(Sp { value: Type::Tuple(ts.value), span: ts.span }))
            },
        }
    }

    /// A mandatory type.
    pub fn ty(&mut self) -> (r: ParseResult<Sp<Type>>)
        requires
            old(self).wf(),
            old(self).tokens.len() > 0,
        ensures
            final(self).wf(),
            final(self).tokens == old(self).tokens,
            old(self).index <= final(self).index,
            to_need(r, final(self).index as nat) == grammar::ty(
                old(self).toks(),
                old(self).index as nat,
            ),
        decreases self.tokens.len() - self.index, 2int, 0int,
    {
        match self.try_ty() {
            Err(e) => Err(e),
            Ok(Some(v)) => Ok(v),
            Ok(None) => Err(self.expected_one(Expectation::Type)),
        }
    }

    /// A block: braces around items, usable as an expression.
    pub fn try_block(&mut self) -> (r: ParseResult<Option<Sp<Block>>>)
        requires
            old(self).wf(),
        ensures
            final(self).wf(),
            final(self).tokens == old(self).tokens,
            old(self).index <= final(self).index,
            (r matches Ok(Some(_)) ==> old(self).index < final(self).index),
            to_step(r, final(self).index as nat) == grammar::try_block(
                old(self).toks(),
                old(self).index as nat,
            ),
        decreases self.tokens.len() - self.index, 0int, 0int,
    {
        let osp = match self.try_simple(Simple::OpenCurly) {
            None => return Ok(None),
            Some(sp) => sp,
        };
        let its = match self.items() {
            Err(e) => return Err(e),
            Ok(v) => v,
        };
        let csp = match self.expect(Simple::CloseCurly) {
            Err(e) => return Err(e),
            Ok(sp) => sp,
        };
        proof {
            crate::ast::lemma_items_v_is_deep(its);
        }
        Ok(Some(Sp { value: Block { items: its }, span: osp.merge(csp) }))
    }

    /// A mandatory block.
    pub fn block(&mut self) -> (r: ParseResult<Sp<Block>>)
        requires
            old(self).wf(),
            old(self).tokens.len() > 0,
        ensures
            final(self).wf(),
            final(self).tokens == old(self).tokens,
            old(self).index <= final(self).index,
            to_need(r, final(self).index as nat) == grammar::block(
                old(self).toks(),
                old(self).index as nat,
            ),
        decreases self.tokens.len() - self.index, 1int, 0int,
    {
        match self.try_block() {
            Err(e) => Err(e),
            Ok(Some(v)) => Ok(v),
            Ok(None) => Err(self.expected_one(Expectation::Block)),
        }
    }

    /// A mandatory identifier.
    pub fn ident(&mut self) -> (r: ParseResult<Sp<String>>)
        requires
            old(self).wf(),
            old(self).tokens.len() > 0,
        ensures
            final(self).wf(),
            final(self).tokens == old(self).tokens,
            old(self).index <= final(self).index,
            to_need(r, final(self).index as nat) == grammar::ident(
                old(self).toks(),
                old(self).index as nat,
            ),
    {
        match self.try_ident() {
            None => Err(self.expected_one(Expectation::Ident)),
            Some(n) => Ok(n),
        }
    }

    /// The parameters of a parameter list, after its opening delimiter.
    fn params_items(&mut self) -> (r: ParseResult<Vec<Param>>)
        requires
            old(self).wf(),
        ensures
            final(self).wf(),
            final(self).tokens == old(self).tokens,
            old(self).index <= final(self).index,
            to_need(r, final(self).index as nat) == grammar::params_items(
                old(self).toks(),
                old(self).index as nat,
            ),
        decreases self.tokens.len() - self.index, 1int, 0int,
    {
        let v = match self.try_param() {
            Err(e) => return Err(e),
            Ok(None) => {
                let out: Vec<Param> = Vec::new();
                proof {
                    assert(out.deep_view() =~= Seq::<crate::ast::ParamV>::empty());
                }
                return Ok(out);
            },
            Ok(Some(v)) => v,
        };
        match self.try_simple(Simple::Comma) {
            None => {
                let mut out: Vec<Param> = Vec::new();
                out.push(v);
                proof {
                    assert(out.deep_view() =~= seq![v.deep_view()]);
                }
                Ok(out)
            },
            Some(_) => match self.params_items() {
                Err(e) => Err(e),
                Ok(mut rest) => {
                    let ghost rest_v = rest.deep_view();
                    let mut out: Vec<Param> = Vec::new();
                    out.push(v);
                    out.append(&mut rest);
                    proof {
                        assert(out.deep_view() =~= seq![v.deep_view()] + rest_v);
                    }
                    Ok(out)
                },
            },
        }
    }

    /// The patterns of a tuple pattern, after its opening delimiter.
    fn patterns_items(&mut self) -> (r: ParseResult<Vec<Sp<Pattern>>>)
        requires
            old(self).wf(),
        ensures
            final(self).wf(),
            final(self).tokens == old(self).tokens,
            old(self).index <= final(self).index,
            to_need(r, final(self).index as nat) == grammar::patterns_items(
                old(self).toks(),
                old(self).index as nat,
            ),
        decreases self.tokens.len() - self.index, 2int, 0int,
    {
        let v = match self.try_pattern() {
            Err(e) => return Err(e),
            Ok(None) => {
                let out: Vec<Sp<Pattern>> = Vec::new();
                proof {
                    assert(out.deep_view() =~= Seq::<Sp<crate::ast::PatternV>>::empty());
                }
                return Ok(out);
            },
            Ok(Some(v)) => v,
        };
        match self.try_simple(Simple::Comma) {
            None => {
                let mut out: Vec<Sp<Pattern>> = Vec::new();
                out.push(v);
                proof {
                    assert(out.deep_view() =~= seq![v.deep_view()]);
                }
                Ok(out)
            },
            Some(_) => match self.patterns_items() {
                Err(e) => Err(e),
                Ok(mut rest) => {
                    let ghost rest_v = rest.deep_view();
                    let mut out: Vec<Sp<Pattern>> = Vec::new();
                    out.push(v);
                    out.append(&mut rest);
                    proof {
                        assert(out.deep_view() =~= seq![v.deep_view()] + rest_v);
                    }
                    Ok(out)
                },
            },
        }
    }

    /// The types of a tuple type, after its opening delimiter.
    fn tys_items(&mut self) -> (r: ParseResult<Vec<Sp<Type>>>)
        requires
            old(self).wf(),
        ensures
            final(self).wf(),
            final(self).tokens == old(self).tokens,
            old(self).index <= final(self).index,
            to_need(r, final(self).index as nat) == grammar::tys_items(
                old(self).toks(),
                old(self).index as nat,
            ),
        decreases self.tokens.len() - self.index, 2int, 0int,
    {
        let v = match self.try_ty() {
            Err(e) => return Err(e),
            Ok(None) => {
                let out: Vec<Sp<Type>> = Vec::new();
                proof {
                    assert(out.deep_view() =~= Seq::<Sp<crate::ast::TypeV>>::empty());
                }
                return Ok(out);
            },
            Ok(Some(v)) => v,
        };
        match self.try_simple(Simple::Comma) {
            None => {
                let mut out: Vec<Sp<Type>> = Vec::new();
                out.push(v);
                proof {
                    assert(out.deep_view() =~= seq![v.deep_view()]);
                }
                Ok(out)
            },
            Some(_) => match self.tys_items() {
                Err(e) => Err(e),
                Ok(mut rest) => {
                    let ghost rest_v = rest.deep_view();
                    let mut out: Vec<Sp<Type>> = Vec::new();
                    out.push(v);
                    out.append(&mut rest);
                    proof {
                        assert(out.deep_view() =~= seq![v.deep_view()] + rest_v);
                    }
                    Ok(out)
                },
            },
        }
    }

    /// The expressions of an argument list, tuple or array, after its
    /// opening delimiter.
    fn exprs_items(&mut self) -> (r: ParseResult<Vec<Sp<Expr>>>)
        requires
            old(self).wf(),
        ensures
            final(self).wf(),
            final(self).tokens == old(self).tokens,
            old(self).index <= final(self).index,
            to_need(r, final(self).index as nat) == grammar::exprs_items(
                old(self).toks(),
                old(self).index as nat,
            ),
        decreases self.tokens.len() - self.index, 8int, 0int,
    {
        let v = match self.try_expr() {
            Err(e) => return Err(e),
            Ok(None) => {
                let out: Vec<Sp<Expr>> = Vec::new();
                proof {
                    assert(out.deep_view() =~= Seq::<Sp<crate::ast::ExprV>>::empty());
                }
                return Ok(out);
            },
            Ok(Some(v)) => v,
        };
        match self.try_simple(Simple::Comma) {
            None => {
                let mut out: Vec<Sp<Expr>> = Vec::new();
                out.push(v);
                proof {
                    assert(out.deep_view() =~= seq![v.deep_view()]);
                }
                Ok(out)
            },
            Some(_) => match self.exprs_items() {
                Err(e) => Err(e),
                Ok(mut rest) => {
                    let ghost rest_v = rest.deep_view();
                    let mut out: Vec<Sp<Expr>> = Vec::new();
                    out.push(v);
                    out.append(&mut rest);
                    proof {
                        assert(out.deep_view() =~= seq![v.deep_view()] + rest_v);
                    }
                    Ok(out)
                },
            },
        }
    }

    /// An optionally present parameter list surrounded by delimiters.
    fn try_params_list(&mut self, open: Simple, close: Simple) -> (r: ParseResult<
        Option<Sp<Vec<Param>>>,
    >)
        requires
            old(self).wf(),
        ensures
            final(self).wf(),
            final(self).tokens == old(self).tokens,
            old(self).index <= final(self).index,
            (r matches Ok(Some(_)) ==> old(self).index < final(self).index),
            to_step(r, final(self).index as nat) == grammar::try_params_list(
                old(self).toks(),
                old(self).index as nat,
                open,
                close,
            ),
        decreases self.tokens.len() - self.index, 0int, 0int,
    {
        let osp = match self.try_simple(open) {
            None => return Ok(None),
            Some(sp) => sp,
        };
        let its = match self.params_items() {
            Err(e) => return Err(e),
            Ok(v) => v,
        };
        let csp = match self.expect(close) {
            Err(e) => return Err(e),
            Ok(sp) => sp,
        };
        Ok(Some(Sp { value: its, span: osp.merge(csp) }))
    }

    /// An optionally present pattern list surrounded by delimiters.
    fn try_patterns_list(&mut self, open: Simple, close: Simple) -> (r: ParseResult<
        Option<Sp<Vec<Sp<Pattern>>>>,
    >)
        requires
            old(self).wf(),
        ensures
            final(self).wf(),
            final(self).tokens == old(self).tokens,
            old(self).index <= final(self).index,
            (r matches Ok(Some(_)) ==> old(self).index < final(self).index),
            to_step(r, final(self).index as nat) == grammar::try_patterns_list(
                old(self).toks(),
                old(self).index as nat,
                open,
                close,
            ),
        decreases self.tokens.len() - self.index, 0int, 0int,
    {
        let osp = match self.try_simple(open) {
            None => return Ok(None),
            Some(sp) => sp,
        };
        let its = match self.patterns_items() {
            Err(e) => return Err(e),
            Ok(v) => v,
        };
        let csp = match self.expect(close) {
            Err(e) => return Err(e),
            Ok(sp) => sp,
        };
        Ok(Some(Sp { value: its, span: osp.merge(csp) }))
    }

    /// An optionally present type list surrounded by delimiters.
    fn try_tys_list(&mut self, open: Simple, close: Simple) -> (r: ParseResult<
        Option<Sp<Vec<Sp<Type>>>>,
    >)
        requires
            old(self).wf(),
        ensures
            final(self).wf(),
            final(self).tokens == old(self).tokens,
            old(self).index <= final(self).index,
            (r matches Ok(Some(_)) ==> old(self).index < final(self).index),
            to_step(r, final(self).index as nat) == grammar::try_tys_list(
                old(self).toks(),
                old(self).index as nat,
                open,
                close,
            ),
        decreases self.tokens.len() - self.index, 0int, 0int,
    {
        let osp = match self.try_simple(open) {
            None => return Ok(None),
            Some(sp) => sp,
        };
        let its = match self.tys_items() {
            Err(e) => return Err(e),
            Ok(v) => v,
        };
        let csp = match self.expect(close) {
            Err(e) => return Err(e),
            Ok(sp) => sp,
        };
        Ok(Some(Sp { value: its, span: osp.merge(csp) }))
    }

    /// An optionally present expression list surrounded by delimiters.
    fn try_exprs_list(&mut self, open: Simple, close: Simple) -> (r: ParseResult<
        Option<Sp<Vec<Sp<Expr>>>>,
    >)
        requires
            old(self).wf(),
        ensures
            final(self).wf(),
            final(self).tokens == old(self).tokens,
            old(self).index <= final(self).index,
            (r matches Ok(Some(_)) ==> old(self).index < final(self).index),
            to_step(r, final(self).index as nat) == grammar::try_exprs_list(
                old(self).toks(),
                old(self).index as nat,
                open,
                close,
            ),
        decreases self.tokens.len() - self.index, 0int, 0int,
    {
        let osp = match self.try_simple(open) {
            None => return Ok(None),
            Some(sp) => sp,
        };
        let its = match self.exprs_items() {
            Err(e) => return Err(e),
            Ok(v) => v,
        };
        let csp = match self.expect(close) {
            Err(e) => return Err(e),
            Ok(sp) => sp,
        };
        Ok(Some(Sp { value: its, span: osp.merge(csp) }))
    }

    /// A mandatory parameter list.
    fn params_list(&mut self, open: Simple, close: Simple) -> (r: ParseResult<Sp<Vec<Param>>>)
        requires
            old(self).wf(),
            old(self).tokens.len() > 0,
        ensures
            final(self).wf(),
            final(self).tokens == old(self).tokens,
            old(self).index <= final(self).index,
            to_need(r, final(self).index as nat) == grammar::params_list(
                old(self).toks(),
                old(self).index as nat,
                open,
                close,
            ),
        decreases self.tokens.len() - self.index, 1int, 0int,
    {
        match self.try_params_list(open, close) {
            Err(e) => Err(e),
            Ok(Some(v)) => Ok(v),
            Ok(None) => Err(self.expected_one(Expectation::Simple(open))),
        }
    }
}

impl Parser {
    /// A function definition: optional documentation, `fn`, name,
    /// parameter list, body block.
    pub fn try_function_def(&mut self) -> (r: ParseResult<Option<FunctionDef>>)
        requires
            old(self).wf(),
        ensures
            final(self).wf(),
            final(self).tokens == old(self).tokens,
            old(self).index <= final(self).index,
            (r matches Ok(Some(_)) ==> old(self).index < final(self).index),
            to_step(r, final(self).index as nat) == grammar::try_function_def(
                old(self).toks(),
                old(self).index as nat,
            ),
        decreases self.tokens.len() - self.index, 1int, 0int,
    {
        let doc = self.doc_comment();
        if self.try_keyword(Keyword::Fn).is_none() {
            return Ok(None);
        }
        let name = match self.ident() {
            Err(e) => return Err(e),
            Ok(n) => n,
        };
        let params = match self.params_list(Simple::OpenParen, Simple::CloseParen) {
            Err(e) => return Err(e),
            Ok(p) => p,
        };
        let body = match self.block() {
            Err(e) => return Err(e),
            Ok(b) => b,
        };
        proof {
            crate::ast::lemma_params_v_is_deep(params.value);
        }
        Ok(Some(FunctionDef { doc, name, params: params.value, body: body.value }))
    }

    /// A binding: `let`, pattern, `=`, expression, `;`.
    pub fn try_binding(&mut self) -> (r: ParseResult<Option<Binding>>)
        requires
            old(self).wf(),
        ensures
            final(self).wf(),
            final(self).tokens == old(self).tokens,
            old(self).index <= final(self).index,
            (r matches Ok(Some(_)) ==> old(self).index < final(self).index),
            to_step(r, final(self).index as nat) == grammar::try_binding(
                old(self).toks(),
                old(self).index as nat,
            ),
        decreases self.tokens.len() - self.index, 1int, 0int,
    {
        if self.try_keyword(Keyword::Let).is_none() {
            return Ok(None);
        }
        let pat = match self.pattern() {
            Err(e) => return Err(e),
            Ok(p) => p,
        };
        if let Err(e) = self.expect(Simple::Equals) {
            return Err(e);
        }
        let e = match self.expr() {
            Err(er) => return Err(er),
            Ok(e) => e,
        };
        if let Err(er) = self.expect(Simple::SemiColon) {
            return Err(er);
        }
        Ok(Some(Binding { pattern: pat, expr: e }))
    }

    /// An item: a function definition, a binding, or a bare expression
    /// statement terminated by `;`.
    pub fn try_item(&mut self) -> (r: ParseResult<Option<Item>>)
        requires
            old(self).wf(),
        ensures
            final(self).wf(),
            final(self).tokens == old(self).tokens,
            old(self).index <= final(self).index,
            (r matches Ok(Some(_)) ==> old(self).index < final(self).index),
            to_step(r, final(self).index as nat) == grammar::try_item(
                old(self).toks(),
                old(self).index as nat,
            ),
        decreases self.tokens.len() - self.index, 9int, 0int,
    {
        match self.try_function_def() {
            Err(e) => return Err(e),
            Ok(Some(fd)) => return Ok(Some(Item::FunctionDef(fd))),
            Ok(None) => {},
        }
        match self.try_binding() {
            Err(e) => return Err(e),
            Ok(Some(b)) => return Ok(Some(Item::Binding(b))),
            Ok(None) => {},
        }
        match self.try_expr() {
            Err(e) => Err(e),
            Ok(None) => Ok(None),
            Ok(Some(e)) => {
                if let Err(er) = self.expect(Simple::SemiColon) {
                    return Err(er);
                }
                Ok(Some(Item::Expr(e)))
            },
        }
    }

    /// Items in sequence, until none matches.
    pub fn items(&mut self) -> (r: ParseResult<Vec<Item>>)
        requires
            old(self).wf(),
        ensures
            final(self).wf(),
            final(self).tokens == old(self).tokens,
            old(self).index <= final(self).index,
            to_need(r, final(self).index as nat) == grammar::items(
                old(self).toks(),
                old(self).index as nat,
            ),
        decreases self.tokens.len() - self.index, 10int, 0int,
    {
        let it = match self.try_item() {
            Err(e) => return Err(e),
            Ok(None) => {
                let out: Vec<Item> = Vec::new();
                proof {
                    assert(out.deep_view() =~= Seq::<crate::ast::ItemV>::empty());
                }
                return Ok(out);
            },
            Ok(Some(it)) => it,
        };
        match self.items() {
            Err(e) => Err(e),
            Ok(mut rest) => {
                let ghost rest_v = rest.deep_view();
                let mut out: Vec<Item> = Vec::new();
                out.push(it);
                out.append(&mut rest);
                proof {
                    assert(out.deep_view() =~= seq![it.deep_view()] + rest_v);
                }
                Ok(out)
            },
        }
    }

    /// A full expression: the operator ladder, then an optional trailing
    /// assignment whose right-hand side is again a full expression.
    pub fn try_expr(&mut self) -> (r: ParseResult<Option<Sp<Expr>>>)
        requires
            old(self).wf(),
        ensures
            final(self).wf(),
            final(self).tokens == old(self).tokens,
            old(self).index <= final(self).index,
            (r matches Ok(Some(_)) ==> old(self).index < final(self).index),
            to_step(r, final(self).index as nat) == grammar::try_expr(
                old(self).toks(),
                old(self).index as nat,
            ),
        decreases self.tokens.len() - self.index, 6int, 0int,
    {
        let lhs = match self.try_expr_impl() {
            Err(e) => return Err(e),
            Ok(None) => return Ok(None),
            Ok(Some(e)) => e,
        };
        match self.try_assign_op() {
            None => Ok(Some(lhs)),
            Some(opsp) => {
                let rhs = match self.expr() {
                    Err(e) => return Err(e),
                    Ok(e) => e,
                };
                let span = lhs.span.merge(rhs.span);
                let op: Option<Sp<crate::ast::BinOp>> = match opsp.value {
                    Some(b) => Some(Sp { value: b, span: opsp.span }),
                    None => None,
                };
                Ok(
                    Some(
                        span.sp(
                            Expr::Assign(Box::new(Assignment { lvalue: lhs, op, expr: rhs })),
                        ),
                    ),
                )
            },
        }
    }

    /// A mandatory expression.
    pub fn expr(&mut self) -> (r: ParseResult<Sp<Expr>>)
        requires
            old(self).wf(),
            old(self).tokens.len() > 0,
        ensures
            final(self).wf(),
            final(self).tokens == old(self).tokens,
            old(self).index <= final(self).index,
            to_need(r, final(self).index as nat) == grammar::expr(
                old(self).toks(),
                old(self).index as nat,
            ),
        decreases self.tokens.len() - self.index, 7int, 0int,
    {
        match self.try_expr() {
            Err(e) => Err(e),
            Ok(Some(v)) => Ok(v),
            Ok(None) => Err(self.expected_one(Expectation::Expr)),
        }
    }

    /// The loosest tier of the binary-operator ladder.
    pub fn try_expr_impl(&mut self) -> (r: ParseResult<Option<Sp<Expr>>>)
        requires
            old(self).wf(),
        ensures
            final(self).wf(),
            final(self).tokens == old(self).tokens,
            old(self).index <= final(self).index,
            (r matches Ok(Some(_)) ==> old(self).index < final(self).index),
            to_step(r, final(self).index as nat) == grammar::try_bin(
                old(self).toks(),
                old(self).index as nat,
                Prec::Or,
            ),
        decreases self.tokens.len() - self.index, 5int, 0int,
    {
        self.try_bin_expr_def(Prec::Or)
    }

    /// One tier of the binary-operator ladder: a left operand from the
    /// next tighter tier, then left-associative chaining.
    pub fn try_bin_expr_def(&mut self, p: Prec) -> (r: ParseResult<Option<Sp<Expr>>>)
        requires
            old(self).wf(),
        ensures
            final(self).wf(),
            final(self).tokens == old(self).tokens,
            old(self).index <= final(self).index,
            (r matches Ok(Some(_)) ==> old(self).index < final(self).index),
            to_step(r, final(self).index as nat) == grammar::try_bin(
                old(self).toks(),
                old(self).index as nat,
                p,
            ),
        decreases self.tokens.len() - self.index, 4int, grammar::tier_level(p),
    {
        let leaf = match tier_child(p) {
            Some(c) => self.try_bin_expr_def(c),
            None => self.try_un_expr(),
        };
        let lhs = match leaf {
            Err(e) => return Err(e),
            Ok(None) => return Ok(None),
            Ok(Some(e)) => e,
        };
        match self.bin_tail(lhs, p) {
            Err(e) => Err(e),
            Ok(e) => Ok(Some(e)),
        }
    }

    /// The chaining loop of one tier: while an operator of the tier
    /// follows, a right operand is parsed from the next tighter tier and
    /// folded into the running left operand.
    fn bin_tail(&mut self, lhs: Sp<Expr>, p: Prec) -> (r: ParseResult<Sp<Expr>>)
        requires
            old(self).wf(),
        ensures
            final(self).wf(),
            final(self).tokens == old(self).tokens,
            old(self).index <= final(self).index,
            (match r {
                Ok(e) => grammar::bin_tail(
                    old(self).toks(),
                    old(self).index as nat,
                    lhs.deep_view(),
                    p,
                ) == Step::<Sp<crate::ast::ExprV>>::Hit(e.deep_view(), final(self).index as nat),
                Err(e) => grammar::bin_tail(
                    old(self).toks(),
                    old(self).index as nat,
                    lhs.deep_view(),
                    p,
                ) == Step::<Sp<crate::ast::ExprV>>::Fail(e.deep_view()),
            }),
        decreases self.tokens.len() - self.index, 0int, 0int,
    {
        let op = match self.try_tier_op(p) {
            None => return Ok(lhs),
            Some(o) => o,
        };
        let rleaf = match tier_child(p) {
            Some(c) => self.try_bin_expr_def(c),
            None => self.try_un_expr(),
        };
        let rhs = match rleaf {
            Err(e) => return Err(e),
            Ok(None) => return Err(self.expected_one(Expectation::Expr)),
            Ok(Some(e)) => e,
        };
        let span = lhs.span.merge(rhs.span);
        let node = span.sp(Expr::Bin(Box::new(BinExpr { lhs, op, rhs })));
        self.bin_tail(node, p)
    }

    /// A unary-prefix expression, right-recursive over itself.
    pub fn try_un_expr(&mut self) -> (r: ParseResult<Option<Sp<Expr>>>)
        requires
            old(self).wf(),
        ensures
            final(self).wf(),
            final(self).tokens == old(self).tokens,
            old(self).index <= final(self).index,
            (r matches Ok(Some(_)) ==> old(self).index < final(self).index),
            to_step(r, final(self).index as nat) == grammar::try_un(
                old(self).toks(),
                old(self).index as nat,
            ),
        decreases self.tokens.len() - self.index, 3int, 0int,
    {
        match self.try_un_op() {
            None => self.try_call_access(),
            Some(op) => {
                let inner = match self.try_un_expr() {
                    Err(e) => return Err(e),
                    Ok(None) => return Err(self.expected_one(Expectation::Expr)),
                    Ok(Some(e)) => e,
                };
                let span = op.span.merge(inner.span);
                Ok(Some(span.sp(Expr::Un(Box::new(UnExpr { op, expr: inner })))))
            },
        }
    }

    /// A postfix call/field-access chain over a primary term.
    pub fn try_call_access(&mut self) -> (r: ParseResult<Option<Sp<Expr>>>)
        requires
            old(self).wf(),
        ensures
            final(self).wf(),
            final(self).tokens == old(self).tokens,
            old(self).index <= final(self).index,
            (r matches Ok(Some(_)) ==> old(self).index < final(self).index),
            to_step(r, final(self).index as nat) == grammar::try_call_access(
                old(self).toks(),
                old(self).index as nat,
            ),
        decreases self.tokens.len() - self.index, 2int, 0int,
    {
        let e = match self.try_term() {
            Err(e) => return Err(e),
            Ok(None) => return Ok(None),
            Ok(Some(e)) => e,
        };
        match self.postfix(e) {
            Err(er) => Err(er),
            Ok(e2) => Ok(Some(e2)),
        }
    }

    /// The chaining loop of the postfix level: while an argument list or
    /// a `.` field follows, the running expression is wrapped in a call
    /// or field-access node.
    fn postfix(&mut self, e: Sp<Expr>) -> (r: ParseResult<Sp<Expr>>)
        requires
            old(self).wf(),
        ensures
            final(self).wf(),
            final(self).tokens == old(self).tokens,
            old(self).index <= final(self).index,
            (match r {
                Ok(e2) => grammar::postfix(
                    old(self).toks(),
                    old(self).index as nat,
                    e.deep_view(),
                ) == Step::<Sp<crate::ast::ExprV>>::Hit(e2.deep_view(), final(self).index as nat),
                Err(er) => grammar::postfix(
                    old(self).toks(),
                    old(self).index as nat,
                    e.deep_view(),
                ) == Step::<Sp<crate::ast::ExprV>>::Fail(er.deep_view()),
            }),
        decreases self.tokens.len() - self.index, 1int, 0int,
    {
        match self.try_exprs_list(Simple::OpenParen, Simple::CloseParen) {
            Err(er) => Err(er),
            Ok(Some(args)) => {
                let span = e.span.merge(args.span);
                proof {
                    crate::ast::lemma_sp_exprs_v_is_deep(args.value);
                }
                let node = span.sp(Expr::Call(Box::new(Call { expr: e, args: args.value })));
                self.postfix(node)
            },
            Ok(None) => match self.try_simple(Simple::Period) {
                None => Ok(e),
                Some(_) => {
                    let nm = match self.ident() {
                        Err(er) => return Err(er),
                        Ok(n) => n,
                    };
                    let span = e.span.merge(nm.span);
                    let node = span.sp(
                        Expr::Access(
                            Box::new(
                                Access {
                                    expr: e,
                                    accessor: Sp {
                                        value: Accessor::Field(nm.value),
                                        span: nm.span,
                                    },
                                },
                            ),
                        ),
                    );
                    self.postfix(node)
                },
            },
        }
    }

    /// A primary term: identifier, literal, boolean, block, parenthesized
    /// tuple, or bracketed array.
    #[verifier::rlimit(100)]
    #[verifier::spinoff_prover]
    pub fn try_term(&mut self) -> (r: ParseResult<Option<Sp<Expr>>>)
        requires
            old(self).wf(),
        ensures
            final(self).wf(),
            final(self).tokens == old(self).tokens,
            old(self).index <= final(self).index,
            (r matches Ok(Some(_)) ==> old(self).index < final(self).index),
            to_step(r, final(self).index as nat) == grammar::try_term(
                old(self).toks(),
                old(self).index as nat,
            ),
        decreases self.tokens.len() - self.index, 1int, 0int,
    {
        if let Some(n) = self.try_ident() {
            return Ok(Some(Sp { value: Expr::Ident(n.value), span: n.span }));
        }
        if let Some(v) = self.try_integer() {
            return Ok(Some(Sp { value: Expr::Integer(v.value), span: v.span }));
        }
        if let Some(v) = self.try_real() {
            return Ok(Some(Sp { value: Expr::Real(v.value), span: v.span }));
        }
        if let Some(sp) = self.try_keyword(Keyword::True) {
            return Ok(Some(Sp { value: Expr::Bool(true), span: sp }));
        }
        if let Some(sp) = self.try_keyword(Keyword::False) {
            return Ok(Some(Sp { value: Expr::Bool(false), span: sp }));
        }
        match self.try_block() {
            Err(e) => return Err(e),
            Ok(Some(b)) => return Ok(Some(Sp { value: Expr::Block(b.value), span: b.span })),
            Ok(None) => {},
        }
        match self.try_exprs_list(Simple::OpenParen, Simple::CloseParen) {
            Err(e) => return Err(e),
            Ok(Some(es)) => {
                proof {
                    crate::ast::lemma_sp_exprs_v_is_deep(es.value);
                }
                return Ok(Some(Sp { value: Expr::Tuple(es.value), span: es.span }));
            },
            Ok(None) => {},
        }
        match self.try_exprs_list(Simple::OpenBracket, Simple::CloseBracket) {
            Err(e) => Err(e),
            Ok(Some(es)) => {
                proof {
                    crate::ast::lemma_sp_exprs_v_is_deep(es.value);
                }
                Ok(Some(Sp { value: Expr::Array(es.value), span: es.span }))
            },
            Ok(None) => Ok(None),
        }
    }
}

/// Parses the lexer's output into the sequence of top-level items, or
/// into the non-empty diagnostic list: a lexical error wrapped unchanged,
/// the first grammar failure, or a single end-of-input diagnostic when
/// non-comment tokens remain after the last item.
pub fn parse(lexed: Result<Vec<Sp<Token>>, Sp<LexError>>) -> (r: Result<
    Vec<Item>,
    Vec<Sp<ParseError>>,
>)
    requires
        (match lexed {
            Ok(toks) => tokens_wf(toks.deep_view()),
            Err(_) => true,
        }),
    ensures
        (match lexed {
            Ok(toks) => (match r {
                Ok(its) => grammar::parse_tokens(toks.deep_view())
                    == grammar::ParseOutV::Items(its.deep_view()),
                Err(errs) => grammar::parse_tokens(toks.deep_view())
                    == grammar::ParseOutV::Errors(errs.deep_view()),
            }),
            Err(e) => (match r {
                Ok(_) => false,
                Err(errs) => errs.deep_view() == seq![
                    Sp {
                        value: crate::diag::ParseErrorV::Lex(e.value.deep_view()),
                        span: e.span,
                    },
                ],
            }),
        }),
{
    let toks = match lexed {
        Err(e) => {
            let wrapped = Sp { value: ParseError::Lex(e.value), span: e.span };
            let mut errs: Vec<Sp<ParseError>> = Vec::new();
            errs.push(wrapped);
            proof {
                assert(errs.deep_view() =~= seq![wrapped.deep_view()]);
            }
            return Err(errs);
        },
        Ok(t) => t,
    };
    let mut parser = Parser::new(toks);
    let its = match parser.items() {
        Err(e) => {
            let mut errs: Vec<Sp<ParseError>> = Vec::new();
            errs.push(e);
            proof {
                assert(errs.deep_view() =~= seq![e.deep_view()]);
            }
            return Err(errs);
        },
        Ok(v) => v,
    };
    parser.skip_comments();
    if parser.index != parser.tokens.len() {
        let e = parser.expected_one(Expectation::Eof);
        let mut errs: Vec<Sp<ParseError>> = Vec::new();
        errs.push(e);
        proof {
            assert(errs.deep_view() =~= seq![e.deep_view()]);
        }
        Err(errs)
    } else {
        Ok(its)
    }
}

} // verus!



