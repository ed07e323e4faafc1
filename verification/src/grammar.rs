//! The grammar, stated as a definitional specification.
//!
//! Each function here maps a token sequence and a cursor position to the
//! exact outcome the parser must produce: a parsed node with the position
//! after it, a non-match with the position after any skipped comments, or
//! the exact diagnostic. The executable parser in [`crate::parser`] is
//! verified to agree with these functions on every input.
//!
//! At a few recursion sites the next position comes out of an opaque
//! sub-parse, so the termination checker cannot see that it advanced; such
//! sites are guarded by `i < k && k <= s.len()`, which every reachable
//! sub-parse outcome satisfies, with an unreachable fallback in the other
//! branch.

use vstd::prelude::*;

use crate::ast::{
    AccessV, AccessorV, AssignmentV, BinExprV, BinOp, BindingV, BlockV, CallV, ExprV,
    FunctionDefV, ItemV, ParamV, PatternV, TypeV, UnExprV, UnOp,
};
use crate::diag::{Expectation, ParseError, ParseErrorV, ParseResult};
use crate::span::{Loc, Sp, Span};
use crate::token::{Keyword, Simple, TokenV};

verus! {

/// Outcome of an infallible probing step: the value and the position after
/// it, or the position after any skipped comments.
pub enum Hop<T> {
    Miss(nat),
    Hit(T, nat),
}

/// Outcome of a backtracking production: a hard error, a non-match, or a
/// parsed value with the position after it.
pub enum Step<T> {
    Fail(Sp<ParseErrorV>),
    Miss(nat),
    Hit(T, nat),
}

/// Outcome of a production that must match.
pub enum Need<T> {
    Fail(Sp<ParseErrorV>),
    Hit(T, nat),
}

/// Relates an executable probing result and final cursor to a [`Hop`].
pub open spec fn to_hop<T: DeepView>(r: Option<T>, idx: nat) -> Hop<T::V> {
    match r {
        Some(v) => Hop::Hit(v.deep_view(), idx),
        None => Hop::Miss(idx),
    }
}

/// Relates an executable backtracking result and final cursor to a [`Step`].
pub open spec fn to_step<T: DeepView>(r: ParseResult<Option<T>>, idx: nat) -> Step<T::V> {
    match r {
        Ok(Some(v)) => Step::Hit(v.deep_view(), idx),
        Ok(None) => Step::Miss(idx),
        Err(e) => Step::Fail(e.deep_view()),
    }
}

/// Relates an executable must-match result and final cursor to a [`Need`].
pub open spec fn to_need<T: DeepView>(r: ParseResult<T>, idx: nat) -> Need<T::V> {
    match r {
        Ok(v) => Need::Hit(v.deep_view(), idx),
        Err(e) => Need::Fail(e.deep_view()),
    }
}

/// The position a production continues from after a non-match of an
/// earlier alternative. A non-match never moves the cursor backwards or
/// past the end, so the clamp is the identity in every reachable case; it
/// only makes that evident to the termination checker.
pub open spec fn at_or_after(i: nat, j: nat, len: nat) -> nat {
    if i <= j && j <= len {
        j
    } else {
        i
    }
}

/// Whether a token is an ordinary comment, which the cursor skips
/// transparently.
pub open spec fn is_comment(t: TokenV) -> bool {
    t matches TokenV::Comment(_)
}

/// How many consecutive ordinary comments stand at `i`.
pub open spec fn skip_count(s: Seq<Sp<TokenV>>, i: nat) -> nat
    decreases s.len() - i,
{
    if i < s.len() && is_comment(s[i as int].value) {
        1 + skip_count(s, i + 1)
    } else {
        0
    }
}

/// The position of the next non-comment token at or after `i`.
pub open spec fn skip(s: Seq<Sp<TokenV>>, i: nat) -> nat {
    i + skip_count(s, i)
}

/// The token standing at `i`, if any remains.
pub open spec fn found_at(s: Seq<Sp<TokenV>>, i: nat) -> Option<Sp<TokenV>> {
    if i < s.len() {
        Some(s[i as int])
    } else {
        None
    }
}

/// The span a diagnostic at position `i` carries: the span of the token
/// there, or a synthetic zero-width span just past the last token.
pub open spec fn last_span(s: Seq<Sp<TokenV>>, i: nat) -> Span {
    if i < s.len() {
        s[i as int].span
    } else if s.len() > 0 {
        let tail = s[s.len() - 1].span;
        let bumped = if s.len() > tail.end.pos {
            Loc {
                line: tail.end.line,
                col: (tail.end.col + 1) as usize,
                pos: (tail.end.pos + 1) as usize,
            }
        } else {
            tail.end
        };
        Span { start: tail.end, end: bumped }
    } else {
        Span {
            start: Loc { line: 0, col: 0, pos: 0 },
            end: Loc { line: 0, col: 0, pos: 0 },
        }
    }
}

/// The diagnostic raised at position `i` for the given expectations.
pub open spec fn expected(s: Seq<Sp<TokenV>>, i: nat, exps: Seq<Expectation>) -> Sp<
    ParseErrorV,
> {
    Sp { value: ParseErrorV::Expected(exps, found_at(s, i)), span: last_span(s, i) }
}

/// Probes for an exact token, skipping comments first.
pub open spec fn try_token(s: Seq<Sp<TokenV>>, i: nat, t: TokenV) -> Hop<Span> {
    let j = skip(s, i);
    if j < s.len() && s[j as int].value == t {
        Hop::Hit(s[j as int].span, j + 1)
    } else {
        Hop::Miss(j)
    }
}

/// Demands an exact punctuation token.
pub open spec fn expect(s: Seq<Sp<TokenV>>, i: nat, sim: Simple) -> Need<Span> {
    match try_token(s, i, TokenV::Simple(sim)) {
        Hop::Hit(sp, j) => Need::Hit(sp, j),
        Hop::Miss(j) => Need::Fail(expected(s, j, seq![Expectation::Simple(sim)])),
    }
}

/// Probes for an identifier token.
pub open spec fn try_ident(s: Seq<Sp<TokenV>>, i: nat) -> Hop<Sp<Seq<char>>> {
    let j = skip(s, i);
    if j < s.len() {
        match s[j as int].value {
            TokenV::Ident(n) => Hop::Hit(Sp { value: n, span: s[j as int].span }, j + 1),
            _ => Hop::Miss(j),
        }
    } else {
        Hop::Miss(j)
    }
}

/// Demands an identifier token.
pub open spec fn ident(s: Seq<Sp<TokenV>>, i: nat) -> Need<Sp<Seq<char>>> {
    match try_ident(s, i) {
        Hop::Hit(n, j) => Need::Hit(n, j),
        Hop::Miss(j) => Need::Fail(expected(s, j, seq![Expectation::Ident])),
    }
}

/// Probes for an integer literal token.
pub open spec fn try_integer(s: Seq<Sp<TokenV>>, i: nat) -> Hop<Sp<i64>> {
    let j = skip(s, i);
    if j < s.len() {
        match s[j as int].value {
            TokenV::Integer(v) => Hop::Hit(Sp { value: v, span: s[j as int].span }, j + 1),
            _ => Hop::Miss(j),
        }
    } else {
        Hop::Miss(j)
    }
}

/// Probes for a real literal token.
pub open spec fn try_real(s: Seq<Sp<TokenV>>, i: nat) -> Hop<Sp<Seq<char>>> {
    let j = skip(s, i);
    if j < s.len() {
        match s[j as int].value {
            TokenV::Real(v) => Hop::Hit(Sp { value: v, span: s[j as int].span }, j + 1),
            _ => Hop::Miss(j),
        }
    } else {
        Hop::Miss(j)
    }
}

/// Accumulates consecutive documentation-comment lines into one string
/// whose span stretches from the first line to the last.
pub open spec fn doc_comment(s: Seq<Sp<TokenV>>, i: nat) -> (Option<Sp<Seq<char>>>, nat)
    decreases s.len() - i,
{
    let j = skip(s, i);
    if j < s.len() {
        match s[j as int].value {
            TokenV::DocComment(line) => {
                let (rest, k) = doc_comment(s, j + 1);
                match rest {
                    None => (Some(Sp { value: line, span: s[j as int].span }), k),
                    Some(d) => (
                        Some(
                            Sp {
                                value: line + d.value,
                                span: Span { start: s[j as int].span.start, end: d.span.end },
                            },
                        ),
                        k,
                    ),
                }
            },
            _ => (None, j),
        }
    } else {
        (None, j)
    }
}

/// One precedence tier of the binary-operator ladder, loosest first.
#[derive(Clone, Copy, PartialEq, Eq, Structural, Debug)]
pub enum Prec {
    Or,
    And,
    Cmp,
    Sum,
    Prod,
}

/// The next tighter tier, if any; the tightest hands over to unary
/// expressions.
pub open spec fn tier_child(p: Prec) -> Option<Prec> {
    match p {
        Prec::Or => Some(Prec::And),
        Prec::And => Some(Prec::Cmp),
        Prec::Cmp => Some(Prec::Sum),
        Prec::Sum => Some(Prec::Prod),
        Prec::Prod => None,
    }
}

/// How many tiers lie below `p`; used only as a termination measure.
pub open spec fn tier_level(p: Prec) -> nat {
    match p {
        Prec::Or => 4,
        Prec::And => 3,
        Prec::Cmp => 2,
        Prec::Sum => 1,
        Prec::Prod => 0,
    }
}

/// The binary operator a token denotes within one tier, if any.
pub open spec fn tier_op_of(t: TokenV, p: Prec) -> Option<BinOp> {
    match p {
        Prec::Or => if t == TokenV::Keyword(Keyword::Or) {
            Some(BinOp::Or)
        } else {
            None
        },
        Prec::And => if t == TokenV::Keyword(Keyword::And) {
            Some(BinOp::And)
        } else {
            None
        },
        Prec::Cmp => match t {
            TokenV::Simple(Simple::Equal) => Some(BinOp::Eq),
            TokenV::Simple(Simple::NotEqual) => Some(BinOp::Ne),
            TokenV::Simple(Simple::Less) => Some(BinOp::Lt),
            TokenV::Simple(Simple::LessEqual) => Some(BinOp::Le),
            TokenV::Simple(Simple::Greater) => Some(BinOp::Gt),
            TokenV::Simple(Simple::GreaterEqual) => Some(BinOp::Ge),
            _ => None,
        },
        Prec::Sum => match t {
            TokenV::Simple(Simple::Plus) => Some(BinOp::Add),
            TokenV::Simple(Simple::Minus) => Some(BinOp::Sub),
            _ => None,
        },
        Prec::Prod => match t {
            TokenV::Simple(Simple::Star) => Some(BinOp::Mul),
            TokenV::Simple(Simple::Slash) => Some(BinOp::Div),
            _ => None,
        },
    }
}

/// Probes for one of a tier's operator tokens.
pub open spec fn try_tier_op(s: Seq<Sp<TokenV>>, i: nat, p: Prec) -> Hop<Sp<BinOp>> {
    let j = skip(s, i);
    if j < s.len() {
        match tier_op_of(s[j as int].value, p) {
            Some(op) => Hop::Hit(Sp { value: op, span: s[j as int].span }, j + 1),
            None => Hop::Miss(j),
        }
    } else {
        Hop::Miss(j)
    }
}

/// The atomic expression a single token denotes, if any.
pub open spec fn atom_of(t: TokenV) -> Option<ExprV> {
    match t {
        TokenV::Ident(n) => Some(ExprV::Ident(n)),
        TokenV::Integer(v) => Some(ExprV::Integer(v)),
        TokenV::Real(r) => Some(ExprV::Real(r)),
        TokenV::Keyword(Keyword::True) => Some(ExprV::Bool(true)),
        TokenV::Keyword(Keyword::False) => Some(ExprV::Bool(false)),
        _ => None,
    }
}

/// The unary operator a token denotes, if any.
pub open spec fn un_op_of(t: TokenV) -> Option<UnOp> {
    if t == TokenV::Simple(Simple::Minus) {
        Some(UnOp::Neg)
    } else if t == TokenV::Keyword(Keyword::Not) {
        Some(UnOp::Not)
    } else {
        None
    }
}

/// Probes for a unary-prefix operator token.
pub open spec fn try_un_op(s: Seq<Sp<TokenV>>, i: nat) -> Hop<Sp<UnOp>> {
    let j = skip(s, i);
    if j < s.len() {
        match un_op_of(s[j as int].value) {
            Some(op) => Hop::Hit(Sp { value: op, span: s[j as int].span }, j + 1),
            None => Hop::Miss(j),
        }
    } else {
        Hop::Miss(j)
    }
}

/// The assignment operator a token denotes, if any; the payload records
/// the arithmetic a compound operator implies, plain `=` recording none.
pub open spec fn assign_op_of(t: TokenV) -> Option<Option<BinOp>> {
    match t {
        TokenV::Simple(Simple::Equals) => Some(None),
        TokenV::Simple(Simple::PlusEquals) => Some(Some(BinOp::Add)),
        TokenV::Simple(Simple::MinusEquals) => Some(Some(BinOp::Sub)),
        TokenV::Simple(Simple::StarEquals) => Some(Some(BinOp::Mul)),
        TokenV::Simple(Simple::SlashEquals) => Some(Some(BinOp::Div)),
        _ => None,
    }
}

/// Probes for an assignment operator token.
pub open spec fn try_assign_op(s: Seq<Sp<TokenV>>, i: nat) -> Hop<Sp<Option<BinOp>>> {
    let j = skip(s, i);
    if j < s.len() {
        match assign_op_of(s[j as int].value) {
            Some(op) => Hop::Hit(Sp { value: op, span: s[j as int].span }, j + 1),
            None => Hop::Miss(j),
        }
    } else {
        Hop::Miss(j)
    }
}

// The recursive productions. The second and third `decreases` components
// order the productions that inspect the same position, so that every
// cycle in the call graph either consumes a token or steps to a smaller
// production.

/// A parenthesized, comma-separated parameter list after its opening
/// delimiter has been consumed; a trailing comma is allowed.
pub open spec fn params_items(s: Seq<Sp<TokenV>>, i: nat) -> Need<Seq<ParamV>>
    decreases s.len() - i, 1int, 0int,
{
    match try_param(s, i) {
        Step::Fail(e) => Need::Fail(e),
        Step::Miss(j) => Need::Hit(Seq::empty(), j),
        Step::Hit(v, j) => match try_token(s, j, TokenV::Simple(Simple::Comma)) {
            Hop::Miss(j2) => Need::Hit(seq![v], j2),
            Hop::Hit(_, k) => if i < k && k <= s.len() {
                match params_items(s, k) {
                    Need::Fail(e) => Need::Fail(e),
                    Need::Hit(rest, m) => Need::Hit(seq![v] + rest, m),
                }
            } else {
                Need::Hit(seq![v], k)
            },
        },
    }
}

/// A comma-separated pattern list after its opening delimiter.
pub open spec fn patterns_items(s: Seq<Sp<TokenV>>, i: nat) -> Need<Seq<Sp<PatternV>>>
    decreases s.len() - i, 2int, 0int,
{
    match try_pattern(s, i) {
        Step::Fail(e) => Need::Fail(e),
        Step::Miss(j) => Need::Hit(Seq::empty(), j),
        Step::Hit(v, j) => match try_token(s, j, TokenV::Simple(Simple::Comma)) {
            Hop::Miss(j2) => Need::Hit(seq![v], j2),
            Hop::Hit(_, k) => if i < k && k <= s.len() {
                match patterns_items(s, k) {
                    Need::Fail(e) => Need::Fail(e),
                    Need::Hit(rest, m) => Need::Hit(seq![v] + rest, m),
                }
            } else {
                Need::Hit(seq![v], k)
            },
        },
    }
}

/// A comma-separated type list after its opening delimiter.
pub open spec fn tys_items(s: Seq<Sp<TokenV>>, i: nat) -> Need<Seq<Sp<TypeV>>>
    decreases s.len() - i, 2int, 0int,
{
    match try_ty(s, i) {
        Step::Fail(e) => Need::Fail(e),
        Step::Miss(j) => Need::Hit(Seq::empty(), j),
        Step::Hit(v, j) => match try_token(s, j, TokenV::Simple(Simple::Comma)) {
            Hop::Miss(j2) => Need::Hit(seq![v], j2),
            Hop::Hit(_, k) => if i < k && k <= s.len() {
                match tys_items(s, k) {
                    Need::Fail(e) => Need::Fail(e),
                    Need::Hit(rest, m) => Need::Hit(seq![v] + rest, m),
                }
            } else {
                Need::Hit(seq![v], k)
            },
        },
    }
}

/// A comma-separated expression list after its opening delimiter.
pub open spec fn exprs_items(s: Seq<Sp<TokenV>>, i: nat) -> Need<Seq<Sp<ExprV>>>
    decreases s.len() - i, 7int, 0int,
{
    match try_expr(s, i) {
        Step::Fail(e) => Need::Fail(e),
        Step::Miss(j) => Need::Hit(Seq::empty(), j),
        Step::Hit(v, j) => match try_token(s, j, TokenV::Simple(Simple::Comma)) {
            Hop::Miss(j2) => Need::Hit(seq![v], j2),
            Hop::Hit(_, k) => if i < k && k <= s.len() {
                match exprs_items(s, k) {
                    Need::Fail(e) => Need::Fail(e),
                    Need::Hit(rest, m) => Need::Hit(seq![v] + rest, m),
                }
            } else {
                Need::Hit(seq![v], k)
            },
        },
    }
}

/// An optionally present parameter list surrounded by delimiters; the
/// resulting span covers both delimiters.
pub open spec fn try_params_list(s: Seq<Sp<TokenV>>, i: nat, open: Simple, close: Simple) -> Step<
    Sp<Seq<ParamV>>,
>
    decreases s.len() - i, 0int, 0int,
{
    match try_token(s, i, TokenV::Simple(open)) {
        Hop::Miss(j) => Step::Miss(j),
        Hop::Hit(osp, j) => match params_items(s, j) {
            Need::Fail(e) => Step::Fail(e),
            Need::Hit(items, k) => match expect(s, k, close) {
                Need::Fail(e) => Step::Fail(e),
                Need::Hit(csp, m) => Step::Hit(
                    Sp { value: items, span: osp.spec_merge(csp) },
                    m,
                ),
            },
        },
    }
}

/// An optionally present pattern list surrounded by delimiters.
pub open spec fn try_patterns_list(s: Seq<Sp<TokenV>>, i: nat, open: Simple, close: Simple) -> Step<
    Sp<Seq<Sp<PatternV>>>,
>
    decreases s.len() - i, 0int, 0int,
{
    match try_token(s, i, TokenV::Simple(open)) {
        Hop::Miss(j) => Step::Miss(j),
        Hop::Hit(osp, j) => match patterns_items(s, j) {
            Need::Fail(e) => Step::Fail(e),
            Need::Hit(items, k) => match expect(s, k, close) {
                Need::Fail(e) => Step::Fail(e),
                Need::Hit(csp, m) => Step::Hit(
                    Sp { value: items, span: osp.spec_merge(csp) },
                    m,
                ),
            },
        },
    }
}

/// An optionally present type list surrounded by delimiters.
pub open spec fn try_tys_list(s: Seq<Sp<TokenV>>, i: nat, open: Simple, close: Simple) -> Step<
    Sp<Seq<Sp<TypeV>>>,
>
    decreases s.len() - i, 0int, 0int,
{
    match try_token(s, i, TokenV::Simple(open)) {
        Hop::Miss(j) => Step::Miss(j),
        Hop::Hit(osp, j) => match tys_items(s, j) {
            Need::Fail(e) => Step::Fail(e),
            Need::Hit(items, k) => match expect(s, k, close) {
                Need::Fail(e) => Step::Fail(e),
                Need::Hit(csp, m) => Step::Hit(
                    Sp { value: items, span: osp.spec_merge(csp) },
                    m,
                ),
            },
        },
    }
}

/// An optionally present expression list surrounded by delimiters.
pub open spec fn try_exprs_list(s: Seq<Sp<TokenV>>, i: nat, open: Simple, close: Simple) -> Step<
    Sp<Seq<Sp<ExprV>>>,
>
    decreases s.len() - i, 0int, 0int,
{
    match try_token(s, i, TokenV::Simple(open)) {
        Hop::Miss(j) => Step::Miss(j),
        Hop::Hit(osp, j) => match exprs_items(s, j) {
            Need::Fail(e) => Step::Fail(e),
            Need::Hit(items, k) => match expect(s, k, close) {
                Need::Fail(e) => Step::Fail(e),
                Need::Hit(csp, m) => Step::Hit(
                    Sp { value: items, span: osp.spec_merge(csp) },
                    m,
                ),
            },
        },
    }
}

/// A mandatory parameter list: its absence is reported as an expected
/// opening delimiter.
pub open spec fn params_list(s: Seq<Sp<TokenV>>, i: nat, open: Simple, close: Simple) -> Need<
    Sp<Seq<ParamV>>,
>
    decreases s.len() - i, 1int, 0int,
{
    match try_params_list(s, i, open, close) {
        Step::Fail(e) => Need::Fail(e),
        Step::Miss(j) => Need::Fail(expected(s, j, seq![Expectation::Simple(open)])),
        Step::Hit(v, j) => Need::Hit(v, j),
    }
}

/// One `name: type` parameter.
pub open spec fn try_param(s: Seq<Sp<TokenV>>, i: nat) -> Step<ParamV>
    decreases s.len() - i, 0int, 0int,
{
    match try_ident(s, i) {
        Hop::Miss(j) => Step::Miss(j),
        Hop::Hit(nm, j1) => match expect(s, j1, Simple::Colon) {
            Need::Fail(e) => Step::Fail(e),
            Need::Hit(_, j2) => match ty(s, j2) {
                Need::Fail(e) => Step::Fail(e),
                Need::Hit(t, j3) => Step::Hit(ParamV { name: nm, ty: t }, j3),
            },
        },
    }
}

/// A pattern: an identifier, or a parenthesized tuple of patterns.
pub open spec fn try_pattern(s: Seq<Sp<TokenV>>, i: nat) -> Step<Sp<PatternV>>
    decreases s.len() - i, 1int, 0int,
{
    match try_ident(s, i) {
        Hop::Hit(n, j) => Step::Hit(Sp { value: PatternV::Ident(n.value), span: n.span }, j),
        Hop::Miss(j0) => match try_patterns_list(
            s,
            at_or_after(i, j0, s.len()),
            Simple::OpenParen,
            Simple::CloseParen,
        ) {
            Step::Fail(e) => Step::Fail(e),
            Step::Miss(j) => Step::Miss(j),
            Step::Hit(ps, j) => Step::Hit(
                Sp { value: PatternV::Tuple(ps.value), span: ps.span },
                j,
            ),
        },
    }
}

/// A mandatory pattern.
pub open spec fn pattern(s: Seq<Sp<TokenV>>, i: nat) -> Need<Sp<PatternV>>
    decreases s.len() - i, 2int, 0int,
{
    match try_pattern(s, i) {
        Step::Fail(e) => Need::Fail(e),
        Step::Miss(j) => Need::Fail(expected(s, j, seq![Expectation::Pattern])),
        Step::Hit(v, j) => Need::Hit(v, j),
    }
}

/// A type: a named type, a bracketed array element type, or a
/// parenthesized tuple of types. The span of an array type covers its
/// brackets.
pub open spec fn try_ty(s: Seq<Sp<TokenV>>, i: nat) -> Step<Sp<TypeV>>
    decreases s.len() - i, 1int, 0int,
{
    match try_ident(s, i) {
        Hop::Hit(n, j) => Step::Hit(Sp { value: TypeV::Ident(n.value), span: n.span }, j),
        Hop::Miss(j0) => match try_token(s, j0, TokenV::Simple(Simple::OpenBracket)) {
            Hop::Hit(osp, j1) => match ty(s, j1) {
                Need::Fail(e) => Step::Fail(e),
                Need::Hit(inner, j2) => match expect(s, j2, Simple::CloseBracket) {
                    Need::Fail(e) => Step::Fail(e),
                    Need::Hit(csp, j3) => Step::Hit(
                        Sp {
                            value: TypeV::Array(Box::new(inner)),
                            span: osp.spec_merge(csp),
                        },
                        j3,
                    ),
                },
            },
            Hop::Miss(j1) => match try_tys_list(
                s,
                at_or_after(i, j1, s.len()),
                Simple::OpenParen,
                Simple::CloseParen,
            ) {
                Step::Fail(e) => Step::Fail(e),
                Step::Miss(j) => Step::Miss(j),
                Step::Hit(ts, j) => Step::Hit(
                    Sp { value: TypeV::Tuple(ts.value), span: ts.span },
                    j,
                ),
            },
        },
    }
}

/// A mandatory type.
pub open spec fn ty(s: Seq<Sp<TokenV>>, i: nat) -> Need<Sp<TypeV>>
    decreases s.len() - i, 2int, 0int,
{
    match try_ty(s, i) {
        Step::Fail(e) => Need::Fail(e),
        Step::Miss(j) => Need::Fail(expected(s, j, seq![Expectation::Type])),
        Step::Hit(v, j) => Need::Hit(v, j),
    }
}

/// A block: `{`, items until none matches, `}`; the span covers both
/// braces.
pub open spec fn try_block(s: Seq<Sp<TokenV>>, i: nat) -> Step<Sp<BlockV>>
    decreases s.len() - i, 0int, 0int,
{
    match try_token(s, i, TokenV::Simple(Simple::OpenCurly)) {
        Hop::Miss(j) => Step::Miss(j),
        Hop::Hit(osp, j) => match items(s, j) {
            Need::Fail(e) => Step::Fail(e),
            Need::Hit(its, k) => match expect(s, k, Simple::CloseCurly) {
                Need::Fail(e) => Step::Fail(e),
                Need::Hit(csp, m) => Step::Hit(
                    Sp { value: BlockV { items: its }, span: osp.spec_merge(csp) },
                    m,
                ),
            },
        },
    }
}

/// A mandatory block.
pub open spec fn block(s: Seq<Sp<TokenV>>, i: nat) -> Need<Sp<BlockV>>
    decreases s.len() - i, 1int, 0int,
{
    match try_block(s, i) {
        Step::Fail(e) => Need::Fail(e),
        Step::Miss(j) => Need::Fail(expected(s, j, seq![Expectation::Block])),
        Step::Hit(v, j) => Need::Hit(v, j),
    }
}

/// A function definition: optional documentation, `fn`, name, parameter
/// list, body block. A missing `fn` is a non-match, letting the caller
/// fall through to other item kinds.
pub open spec fn try_function_def(s: Seq<Sp<TokenV>>, i: nat) -> Step<FunctionDefV>
    decreases s.len() - i, 1int, 0int,
{
    let (doc, j0) = doc_comment(s, i);
    match try_token(s, j0, TokenV::Keyword(Keyword::Fn)) {
        Hop::Miss(j1) => Step::Miss(j1),
        Hop::Hit(_, j1) => match ident(s, j1) {
            Need::Fail(e) => Step::Fail(e),
            Need::Hit(nm, j2) => {
                let pr = if i < j2 && j2 <= s.len() {
                    params_list(s, j2, Simple::OpenParen, Simple::CloseParen)
                } else {
                    Need::Fail(expected(s, j2, seq![Expectation::Simple(Simple::OpenParen)]))
                };
                match pr {
                    Need::Fail(e) => Step::Fail(e),
                    Need::Hit(ps, j3) => {
                        let br = if i < j3 && j3 <= s.len() {
                            block(s, j3)
                        } else {
                            Need::Fail(expected(s, j3, seq![Expectation::Block]))
                        };
                        match br {
                            Need::Fail(e) => Step::Fail(e),
                            Need::Hit(body, j4) => Step::Hit(
                                FunctionDefV {
                                    doc,
                                    name: nm,
                                    params: ps.value,
                                    body: body.value,
                                },
                                j4,
                            ),
                        }
                    },
                }
            },
        },
    }
}

/// A binding: `let`, pattern, `=`, expression, statement terminator.
pub open spec fn try_binding(s: Seq<Sp<TokenV>>, i: nat) -> Step<BindingV>
    decreases s.len() - i, 1int, 0int,
{
    match try_token(s, i, TokenV::Keyword(Keyword::Let)) {
        Hop::Miss(j) => Step::Miss(j),
        Hop::Hit(_, j1) => match pattern(s, j1) {
            Need::Fail(e) => Step::Fail(e),
            Need::Hit(pat, j2) => match expect(s, j2, Simple::Equals) {
                Need::Fail(e) => Step::Fail(e),
                Need::Hit(_, j3) => {
                    let er = if i < j3 && j3 <= s.len() {
                        expr(s, j3)
                    } else {
                        Need::Fail(expected(s, j3, seq![Expectation::Expr]))
                    };
                    match er {
                        Need::Fail(e) => Step::Fail(e),
                        Need::Hit(e, j4) => match expect(s, j4, Simple::SemiColon) {
                            Need::Fail(er2) => Step::Fail(er2),
                            Need::Hit(_, j5) => Step::Hit(
                                BindingV { pattern: pat, expr: e },
                                j5,
                            ),
                        },
                    }
                },
            },
        },
    }
}

/// An item: a function definition, a binding, or a bare expression
/// statement terminated by `;`.
pub open spec fn try_item(s: Seq<Sp<TokenV>>, i: nat) -> Step<ItemV>
    decreases s.len() - i, 8int, 0int,
{
    match try_function_def(s, i) {
        Step::Fail(e) => Step::Fail(e),
        Step::Hit(fd, j) => Step::Hit(ItemV::FunctionDef(fd), j),
        Step::Miss(j1) => match try_binding(s, at_or_after(i, j1, s.len())) {
            Step::Fail(e) => Step::Fail(e),
            Step::Hit(b, j) => Step::Hit(ItemV::Binding(b), j),
            Step::Miss(j2) => match try_expr(s, at_or_after(i, j2, s.len())) {
                Step::Fail(e) => Step::Fail(e),
                Step::Miss(j3) => Step::Miss(j3),
                Step::Hit(e, j) => match expect(s, j, Simple::SemiColon) {
                    Need::Fail(er) => Step::Fail(er),
                    Need::Hit(_, k) => Step::Hit(ItemV::Expr(e), k),
                },
            },
        },
    }
}

/// Items in sequence, until none matches.
pub open spec fn items(s: Seq<Sp<TokenV>>, i: nat) -> Need<Seq<ItemV>>
    decreases s.len() - i, 9int, 0int,
{
    match try_item(s, i) {
        Step::Fail(e) => Need::Fail(e),
        Step::Miss(j) => Need::Hit(Seq::empty(), j),
        Step::Hit(it, j) => if i < j && j <= s.len() {
            match items(s, j) {
                Need::Fail(e) => Need::Fail(e),
                Need::Hit(rest, k) => Need::Hit(seq![it] + rest, k),
            }
        } else {
            Need::Hit(seq![it], j)
        },
    }
}

/// A full expression: the operator ladder, then an optional trailing
/// assignment whose right-hand side is again a full expression, making
/// assignment right-associative.
pub open spec fn try_expr(s: Seq<Sp<TokenV>>, i: nat) -> Step<Sp<ExprV>>
    decreases s.len() - i, 5int, 0int,
{
    match try_bin(s, i, Prec::Or) {
        Step::Fail(e) => Step::Fail(e),
        Step::Miss(j) => Step::Miss(j),
        Step::Hit(lhs, j) => match try_assign_op(s, j) {
            Hop::Miss(j2) => Step::Hit(lhs, j2),
            Hop::Hit(opsp, k) => {
                let er = if i < k && k <= s.len() {
                    expr(s, k)
                } else {
                    Need::Fail(expected(s, k, seq![Expectation::Expr]))
                };
                match er {
                    Need::Fail(e) => Step::Fail(e),
                    Need::Hit(rhs, m) => {
                        let span = lhs.span.spec_merge(rhs.span);
                        Step::Hit(
                            Sp {
                                value: ExprV::Assign(
                                    Box::new(
                                        AssignmentV {
                                            lvalue: lhs,
                                            op: match opsp.value {
                                                Some(b) => Some(
                                                    Sp { value: b, span: opsp.span },
                                                ),
                                                None => None,
                                            },
                                            expr: rhs,
                                        },
                                    ),
                                ),
                                span,
                            },
                            m,
                        )
                    },
                }
            },
        },
    }
}

/// A mandatory expression.
pub open spec fn expr(s: Seq<Sp<TokenV>>, i: nat) -> Need<Sp<ExprV>>
    decreases s.len() - i, 6int, 0int,
{
    match try_expr(s, i) {
        Step::Fail(e) => Need::Fail(e),
        Step::Miss(j) => Need::Fail(expected(s, j, seq![Expectation::Expr])),
        Step::Hit(v, j) => Need::Hit(v, j),
    }
}

/// One tier of the binary-operator ladder: a left operand from the next
/// tighter tier, then left-associative chaining.
pub open spec fn try_bin(s: Seq<Sp<TokenV>>, i: nat, p: Prec) -> Step<Sp<ExprV>>
    decreases s.len() - i, 4int, tier_level(p),
{
    let first = match tier_child(p) {
        Some(c) => try_bin(s, i, c),
        None => try_un(s, i),
    };
    match first {
        Step::Fail(e) => Step::Fail(e),
        Step::Miss(j) => Step::Miss(j),
        Step::Hit(lhs, j) => if i < j && j <= s.len() {
            bin_tail(s, j, lhs, p)
        } else {
            Step::Hit(lhs, j)
        },
    }
}

/// The chaining loop of one tier: while an operator of the tier follows,
/// a right operand is parsed from the next tighter tier and folded into
/// the running left operand.
pub open spec fn bin_tail(s: Seq<Sp<TokenV>>, i: nat, lhs: Sp<ExprV>, p: Prec) -> Step<Sp<ExprV>>
    decreases s.len() - i, 0int, 0int,
{
    match try_tier_op(s, i, p) {
        Hop::Miss(j) => Step::Hit(lhs, j),
        Hop::Hit(opsp, j) => {
            let rl = match tier_child(p) {
                Some(c) => try_bin(s, j, c),
                None => try_un(s, j),
            };
            let rhs_need = match rl {
                Step::Fail(e) => Need::Fail(e),
                Step::Miss(j2) => Need::Fail(expected(s, j2, seq![Expectation::Expr])),
                Step::Hit(r, j2) => Need::Hit(r, j2),
            };
            match rhs_need {
                Need::Fail(e) => Step::Fail(e),
                Need::Hit(rhs, k) => {
                    let span = lhs.span.spec_merge(rhs.span);
                    let node = Sp {
                        value: ExprV::Bin(Box::new(BinExprV { lhs, op: opsp, rhs })),
                        span,
                    };
                    if i < k && k <= s.len() {
                        bin_tail(s, k, node, p)
                    } else {
                        Step::Hit(node, k)
                    }
                },
            }
        },
    }
}

/// A unary-prefix expression: right-recursive over its own production,
/// bottoming out in the postfix chain.
pub open spec fn try_un(s: Seq<Sp<TokenV>>, i: nat) -> Step<Sp<ExprV>>
    decreases s.len() - i, 3int, 0int,
{
    match try_un_op(s, i) {
        Hop::Hit(opsp, j) => {
            let inner = match try_un(s, j) {
                Step::Fail(e) => Need::Fail(e),
                Step::Miss(j2) => Need::Fail(expected(s, j2, seq![Expectation::Expr])),
                Step::Hit(e, k) => Need::Hit(e, k),
            };
            match inner {
                Need::Fail(e) => Step::Fail(e),
                Need::Hit(e, k) => {
                    let span = opsp.span.spec_merge(e.span);
                    Step::Hit(
                        Sp { value: ExprV::Un(Box::new(UnExprV { op: opsp, expr: e })), span },
                        k,
                    )
                },
            }
        },
        Hop::Miss(j0) => try_call_access(s, at_or_after(i, j0, s.len())),
    }
}

/// A postfix call/field-access chain over a primary term.
pub open spec fn try_call_access(s: Seq<Sp<TokenV>>, i: nat) -> Step<Sp<ExprV>>
    decreases s.len() - i, 2int, 0int,
{
    match try_term(s, i) {
        Step::Fail(e) => Step::Fail(e),
        Step::Miss(j) => Step::Miss(j),
        Step::Hit(e, j) => if i < j && j <= s.len() {
            postfix(s, j, e)
        } else {
            Step::Hit(e, j)
        },
    }
}

/// The chaining loop of the postfix level: while an argument list or a
/// `.` field follows, the running expression is wrapped in a call or
/// field-access node.
pub open spec fn postfix(s: Seq<Sp<TokenV>>, i: nat, e: Sp<ExprV>) -> Step<Sp<ExprV>>
    decreases s.len() - i, 1int, 0int,
{
    match try_exprs_list(s, i, Simple::OpenParen, Simple::CloseParen) {
        Step::Fail(er) => Step::Fail(er),
        Step::Hit(args, k) => {
            let span = e.span.spec_merge(args.span);
            let node = Sp {
                value: ExprV::Call(Box::new(CallV { expr: e, args: args.value })),
                span,
            };
            if i < k && k <= s.len() {
                postfix(s, k, node)
            } else {
                Step::Hit(node, k)
            }
        },
        Step::Miss(j0) => match try_token(s, j0, TokenV::Simple(Simple::Period)) {
            Hop::Miss(j1) => Step::Hit(e, j1),
            Hop::Hit(_, j1) => match ident(s, j1) {
                Need::Fail(er) => Step::Fail(er),
                Need::Hit(nm, k) => {
                    let span = e.span.spec_merge(nm.span);
                    let node = Sp {
                        value: ExprV::Access(
                            Box::new(
                                AccessV {
                                    expr: e,
                                    accessor: Sp {
                                        value: AccessorV::Field(nm.value),
                                        span: nm.span,
                                    },
                                },
                            ),
                        ),
                        span,
                    };
                    if i < k && k <= s.len() {
                        postfix(s, k, node)
                    } else {
                        Step::Hit(node, k)
                    }
                },
            },
        },
    }
}

/// A primary term: identifier, literal, boolean, block, parenthesized
/// tuple, or bracketed array. The alternatives are mutually exclusive by
/// leading token.
pub open spec fn try_term(s: Seq<Sp<TokenV>>, i: nat) -> Step<Sp<ExprV>>
    decreases s.len() - i, 1int, 0int,
{
    match try_ident(s, i) {
        Hop::Hit(n, j) => Step::Hit(Sp { value: ExprV::Ident(n.value), span: n.span }, j),
        Hop::Miss(i1) => match try_integer(s, i1) {
            Hop::Hit(v, j) => Step::Hit(Sp { value: ExprV::Integer(v.value), span: v.span }, j),
            Hop::Miss(i2) => match try_real(s, i2) {
                Hop::Hit(v, j) => Step::Hit(Sp { value: ExprV::Real(v.value), span: v.span }, j),
                Hop::Miss(i3) => match try_token(s, i3, TokenV::Keyword(Keyword::True)) {
                    Hop::Hit(sp, j) => Step::Hit(Sp { value: ExprV::Bool(true), span: sp }, j),
                    Hop::Miss(i4) => match try_token(s, i4, TokenV::Keyword(Keyword::False)) {
                        Hop::Hit(sp, j) => Step::Hit(
                            Sp { value: ExprV::Bool(false), span: sp },
                            j,
                        ),
                        Hop::Miss(i5) => match try_block(s, at_or_after(i, i5, s.len())) {
                            Step::Fail(e) => Step::Fail(e),
                            Step::Hit(b, j) => Step::Hit(
                                Sp { value: ExprV::Block(b.value), span: b.span },
                                j,
                            ),
                            Step::Miss(i6) => match try_exprs_list(
                                s,
                                at_or_after(i, i6, s.len()),
                                Simple::OpenParen,
                                Simple::CloseParen,
                            ) {
                                Step::Fail(e) => Step::Fail(e),
                                Step::Hit(es, j) => Step::Hit(
                                    Sp { value: ExprV::Tuple(es.value), span: es.span },
                                    j,
                                ),
                                Step::Miss(i7) => match try_exprs_list(
                                    s,
                                    at_or_after(i, i7, s.len()),
                                    Simple::OpenBracket,
                                    Simple::CloseBracket,
                                ) {
                                    Step::Fail(e) => Step::Fail(e),
                                    Step::Hit(es, j) => Step::Hit(
                                        Sp { value: ExprV::Array(es.value), span: es.span },
                                        j,
                                    ),
                                    Step::Miss(i8) => Step::Miss(i8),
                                },
                            },
                        },
                    },
                },
            },
        },
    }
}

/// The outcome of a whole parse: the items, or the non-empty diagnostic
/// list.
pub enum ParseOutV {
    Items(Seq<ItemV>),
    Errors(Seq<Sp<ParseErrorV>>),
}

/// What parsing a whole token sequence yields: items collected until none
/// matches, a fail-fast single diagnostic on the first grammar failure,
/// or a single end-of-input diagnostic when non-comment tokens remain.
pub open spec fn parse_tokens(s: Seq<Sp<TokenV>>) -> ParseOutV {
    match items(s, 0) {
        Need::Fail(e) => ParseOutV::Errors(seq![e]),
        Need::Hit(its, j) => {
            let k = skip(s, j);
            if k == s.len() {
                ParseOutV::Items(its)
            } else {
                ParseOutV::Errors(seq![expected(s, k, seq![Expectation::Eof])])
            }
        },
    }
}

} // verus!
