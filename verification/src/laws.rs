//! Grammar-level laws: associativity, precedence, delimited-list edge
//! cases, documentation accumulation, and unary right recursion, each
//! proved against the definitional grammar for arbitrary payloads and
//! spans.

use vstd::prelude::*;

use crate::ast::{BinOp, ExprV};
use crate::grammar;
use crate::grammar::{
    assign_op_of, atom_of, skip, tier_level, tier_op_of, un_op_of, Hop, Need, Prec, Step,
};
use crate::span::{Sp, Span};
use crate::token::{Keyword, Simple, TokenV};

verus! {

/// The token at `j`, if any, cannot begin a postfix argument list or
/// field access, and is not a comment.
pub open spec fn postfix_stops(s: Seq<Sp<TokenV>>, j: nat) -> bool {
    skip(s, j) == j && (j >= s.len() || (s[j as int].value != TokenV::Simple(Simple::OpenParen)
        && s[j as int].value != TokenV::Simple(Simple::Period)))
}

/// The token at `j`, if any, is no operator of tier `p` or any tighter
/// tier, and is not a comment.
pub open spec fn tier_stops(s: Seq<Sp<TokenV>>, j: nat, p: Prec) -> bool {
    skip(s, j) == j && (j >= s.len() || (forall|q: Prec|
        tier_level(q) <= tier_level(p) ==> tier_op_of(s[j as int].value, q) == None::<BinOp>))
}

/// The token at `j`, if any, is no assignment operator, and is not a
/// comment.
pub open spec fn assign_stops(s: Seq<Sp<TokenV>>, j: nat) -> bool {
    skip(s, j) == j && (j >= s.len() || assign_op_of(s[j as int].value) == None::<Option<
        BinOp,
    >>)
}

/// A single atomic term parses through the unary level to itself when
/// nothing follows that could extend it.
pub proof fn lemma_atom_un(s: Seq<Sp<TokenV>>, i: nat, v: ExprV)
    requires
        i < s.len(),
        atom_of(s[i as int].value) == Some(v),
        skip(s, i) == i,
        postfix_stops(s, i + 1),
    ensures
        grammar::try_un(s, i) == Step::Hit(Sp { value: v, span: s[i as int].span }, i + 1),
{
    let e = Sp { value: v, span: s[i as int].span };
    assert(grammar::try_term(s, i) == Step::Hit(e, i + 1));
    assert(grammar::postfix(s, i + 1, e) == Step::Hit(e, i + 1));
    assert(grammar::try_call_access(s, i) == Step::Hit(e, i + 1));
    assert(grammar::try_un(s, i) == Step::Hit(e, i + 1));
}

/// A single atomic term parses through any tier of the operator ladder
/// to itself when nothing follows that could extend it at that tier or
/// below.
pub proof fn lemma_atom_bin(s: Seq<Sp<TokenV>>, i: nat, p: Prec, v: ExprV)
    requires
        i < s.len(),
        atom_of(s[i as int].value) == Some(v),
        skip(s, i) == i,
        postfix_stops(s, i + 1),
        tier_stops(s, i + 1, p),
    ensures
        grammar::try_bin(s, i, p) == Step::Hit(Sp { value: v, span: s[i as int].span }, i + 1),
    decreases tier_level(p),
{
    let e = Sp { value: v, span: s[i as int].span };
    match grammar::tier_child(p) {
        Some(c) => {
            lemma_atom_bin(s, i, c, v);
        },
        None => {
            lemma_atom_un(s, i, v);
        },
    }
    assert(grammar::bin_tail(s, i + 1, e, p) == Step::Hit(e, i + 1));
    assert(grammar::try_bin(s, i, p) == Step::Hit(e, i + 1));
}

/// A position holding no possible start of an expression makes every
/// expression production report a non-match there.
pub proof fn lemma_miss_expr(s: Seq<Sp<TokenV>>, i: nat)
    requires
        skip(s, i) == i,
        i >= s.len() || (atom_of(s[i as int].value) == None::<ExprV>
            && un_op_of(s[i as int].value) == None::<crate::ast::UnOp>
            && s[i as int].value != TokenV::Simple(Simple::OpenCurly)
            && s[i as int].value != TokenV::Simple(Simple::OpenParen)
            && s[i as int].value != TokenV::Simple(Simple::OpenBracket)),
    ensures
        grammar::try_expr(s, i) == Step::<Sp<ExprV>>::Miss(i),
        grammar::try_bin(s, i, Prec::Or) == Step::<Sp<ExprV>>::Miss(i),
{
    assert(grammar::try_term(s, i) == Step::<Sp<ExprV>>::Miss(i));
    assert(grammar::try_call_access(s, i) == Step::<Sp<ExprV>>::Miss(i));
    assert(grammar::try_un(s, i) == Step::<Sp<ExprV>>::Miss(i));
    assert(grammar::try_bin(s, i, Prec::Prod) == Step::<Sp<ExprV>>::Miss(i));
    assert(grammar::try_bin(s, i, Prec::Sum) == Step::<Sp<ExprV>>::Miss(i));
    assert(grammar::try_bin(s, i, Prec::Cmp) == Step::<Sp<ExprV>>::Miss(i));
    assert(grammar::try_bin(s, i, Prec::And) == Step::<Sp<ExprV>>::Miss(i));
    assert(grammar::try_bin(s, i, Prec::Or) == Step::<Sp<ExprV>>::Miss(i));
    assert(grammar::try_expr(s, i) == Step::<Sp<ExprV>>::Miss(i));
}

/// A result of some tier rises unchanged through every looser tier when
/// the next token continues none of them.
pub proof fn lemma_lift_to_top(s: Seq<Sp<TokenV>>, i: nat, p: Prec, e: Sp<ExprV>, j: nat)
    requires
        grammar::try_bin(s, i, p) == Step::Hit(e, j),
        i < j <= s.len(),
        skip(s, j) == j,
        j >= s.len() || (forall|q: Prec| tier_op_of(s[j as int].value, q) == None::<BinOp>),
    ensures
        grammar::try_bin(s, i, Prec::Or) == Step::Hit(e, j),
    decreases 4int - tier_level(p),
{
    match p {
        Prec::Or => {},
        Prec::And => {
            assert(grammar::bin_tail(s, j, e, Prec::Or) == Step::Hit(e, j));
            assert(grammar::try_bin(s, i, Prec::Or) == Step::Hit(e, j));
        },
        Prec::Cmp => {
            assert(grammar::bin_tail(s, j, e, Prec::And) == Step::Hit(e, j));
            assert(grammar::try_bin(s, i, Prec::And) == Step::Hit(e, j));
            lemma_lift_to_top(s, i, Prec::And, e, j);
        },
        Prec::Sum => {
            assert(grammar::bin_tail(s, j, e, Prec::Cmp) == Step::Hit(e, j));
            assert(grammar::try_bin(s, i, Prec::Cmp) == Step::Hit(e, j));
            lemma_lift_to_top(s, i, Prec::Cmp, e, j);
        },
        Prec::Prod => {
            assert(grammar::bin_tail(s, j, e, Prec::Sum) == Step::Hit(e, j));
            assert(grammar::try_bin(s, i, Prec::Sum) == Step::Hit(e, j));
            lemma_lift_to_top(s, i, Prec::Sum, e, j);
        },
    }
}

/// A finished operator ladder is a finished expression when no
/// assignment operator follows.
pub proof fn lemma_top_expr(s: Seq<Sp<TokenV>>, i: nat, e: Sp<ExprV>, j: nat)
    requires
        grammar::try_bin(s, i, Prec::Or) == Step::Hit(e, j),
        assign_stops(s, j),
    ensures
        grammar::try_expr(s, i) == Step::Hit(e, j),
{
    assert(grammar::try_expr(s, i) == Step::Hit(e, j));
}

/// Left associativity: for any two operators of one tier — additive,
/// multiplicative, comparison, or logical — `a OP1 b OP2 c` parses with
/// the left application as the inner node.
pub proof fn lemma_binary_left_assoc(
    na: Seq<char>,
    nb: Seq<char>,
    nc: Seq<char>,
    o1: Sp<TokenV>,
    o2: Sp<TokenV>,
    a_sp: Span,
    b_sp: Span,
    c_sp: Span,
    p: Prec,
    op1: BinOp,
    op2: BinOp,
)
    requires
        tier_op_of(o1.value, p) == Some(op1),
        tier_op_of(o2.value, p) == Some(op2),
    ensures
        ({
            let s = seq![
                Sp { value: TokenV::Ident(na), span: a_sp },
                o1,
                Sp { value: TokenV::Ident(nb), span: b_sp },
                o2,
                Sp { value: TokenV::Ident(nc), span: c_sp },
            ];
            let ea = Sp { value: ExprV::Ident(na), span: a_sp };
            let eb = Sp { value: ExprV::Ident(nb), span: b_sp };
            let ec = Sp { value: ExprV::Ident(nc), span: c_sp };
            let inner = Sp {
                value: ExprV::Bin(
                    Box::new(
                        crate::ast::BinExprV {
                            lhs: ea,
                            op: Sp { value: op1, span: o1.span },
                            rhs: eb,
                        },
                    ),
                ),
                span: a_sp.spec_merge(b_sp),
            };
            let outer = Sp {
                value: ExprV::Bin(
                    Box::new(
                        crate::ast::BinExprV {
                            lhs: inner,
                            op: Sp { value: op2, span: o2.span },
                            rhs: ec,
                        },
                    ),
                ),
                span: a_sp.spec_merge(b_sp).spec_merge(c_sp),
            };
            grammar::try_expr(s, 0) == Step::Hit(outer, 5)
        }),
{
    let s = seq![
        Sp { value: TokenV::Ident(na), span: a_sp },
        o1,
        Sp { value: TokenV::Ident(nb), span: b_sp },
        o2,
        Sp { value: TokenV::Ident(nc), span: c_sp },
    ];
    let ea = Sp { value: ExprV::Ident(na), span: a_sp };
    let eb = Sp { value: ExprV::Ident(nb), span: b_sp };
    let ec = Sp { value: ExprV::Ident(nc), span: c_sp };
    let inner = Sp {
        value: ExprV::Bin(
            Box::new(
                crate::ast::BinExprV { lhs: ea, op: Sp { value: op1, span: o1.span }, rhs: eb },
            ),
        ),
        span: a_sp.spec_merge(b_sp),
    };
    let outer = Sp {
        value: ExprV::Bin(
            Box::new(
                crate::ast::BinExprV {
                    lhs: inner,
                    op: Sp { value: op2, span: o2.span },
                    rhs: ec,
                },
            ),
        ),
        span: a_sp.spec_merge(b_sp).spec_merge(c_sp),
    };
    // An operator token of one tier is no comment, no postfix starter,
    // and no operator of any other tier.
    assert(!grammar::is_comment(o1.value) && !grammar::is_comment(o2.value));
    assert(o1.value != TokenV::Simple(Simple::OpenParen) && o1.value != TokenV::Simple(
        Simple::Period,
    ));
    assert(o2.value != TokenV::Simple(Simple::OpenParen) && o2.value != TokenV::Simple(
        Simple::Period,
    ));
    assert forall|q: Prec| q != p implies tier_op_of(o1.value, q) == None::<BinOp> by {
        lemma_tier_unique_none(o1.value, p, q);
    }
    assert forall|q: Prec| q != p implies tier_op_of(o2.value, q) == None::<BinOp> by {
        lemma_tier_unique_none(o2.value, p, q);
    }
    match grammar::tier_child(p) {
        Some(c) => {
            assert(tier_level(c) < tier_level(p));
            lemma_atom_bin(s, 0, c, ExprV::Ident(na));
            lemma_atom_bin(s, 2, c, ExprV::Ident(nb));
            lemma_atom_bin(s, 4, c, ExprV::Ident(nc));
        },
        None => {
            lemma_atom_un(s, 0, ExprV::Ident(na));
            lemma_atom_un(s, 2, ExprV::Ident(nb));
            lemma_atom_un(s, 4, ExprV::Ident(nc));
        },
    }
    assert(grammar::bin_tail(s, 5, outer, p) == Step::Hit(outer, 5));
    assert(grammar::bin_tail(s, 3, inner, p) == Step::Hit(outer, 5));
    assert(grammar::bin_tail(s, 1, ea, p) == Step::Hit(outer, 5));
    assert(grammar::try_bin(s, 0, p) == Step::Hit(outer, 5));
    lemma_lift_to_top(s, 0, p, outer, 5);
    lemma_top_expr(s, 0, outer, 5);
}

/// A token carrying an operator of one tier carries an operator of no
/// other tier.
pub proof fn lemma_tier_unique_none(t: TokenV, p: Prec, q: Prec)
    requires
        tier_op_of(t, p) is Some,
        q != p,
    ensures
        tier_op_of(t, q) == None::<BinOp>,
{
}

/// Right associativity of assignment: `a = b = c` parses with the right
/// assignment as the inner node.
pub proof fn lemma_assign_right_assoc(
    na: Seq<char>,
    nb: Seq<char>,
    nc: Seq<char>,
    a_sp: Span,
    b_sp: Span,
    c_sp: Span,
    q1_sp: Span,
    q2_sp: Span,
)
    ensures
        ({
            let s = seq![
                Sp { value: TokenV::Ident(na), span: a_sp },
                Sp { value: TokenV::Simple(Simple::Equals), span: q1_sp },
                Sp { value: TokenV::Ident(nb), span: b_sp },
                Sp { value: TokenV::Simple(Simple::Equals), span: q2_sp },
                Sp { value: TokenV::Ident(nc), span: c_sp },
            ];
            let ea = Sp { value: ExprV::Ident(na), span: a_sp };
            let eb = Sp { value: ExprV::Ident(nb), span: b_sp };
            let ec = Sp { value: ExprV::Ident(nc), span: c_sp };
            let inner = Sp {
                value: ExprV::Assign(
                    Box::new(
                        crate::ast::AssignmentV {
                            lvalue: eb,
                            op: None,
                            expr: ec,
                        },
                    ),
                ),
                span: b_sp.spec_merge(c_sp),
            };
            let outer = Sp {
                value: ExprV::Assign(
                    Box::new(
                        crate::ast::AssignmentV {
                            lvalue: ea,
                            op: None,
                            expr: inner,
                        },
                    ),
                ),
                span: a_sp.spec_merge(b_sp.spec_merge(c_sp)),
            };
            grammar::try_expr(s, 0) == Step::Hit(outer, 5)
        }),
{
    let s = seq![
        Sp { value: TokenV::Ident(na), span: a_sp },
        Sp { value: TokenV::Simple(Simple::Equals), span: q1_sp },
        Sp { value: TokenV::Ident(nb), span: b_sp },
        Sp { value: TokenV::Simple(Simple::Equals), span: q2_sp },
        Sp { value: TokenV::Ident(nc), span: c_sp },
    ];
    let ea = Sp { value: ExprV::Ident(na), span: a_sp };
    let eb = Sp { value: ExprV::Ident(nb), span: b_sp };
    let ec = Sp { value: ExprV::Ident(nc), span: c_sp };
    let inner = Sp {
        value: ExprV::Assign(
            Box::new(crate::ast::AssignmentV { lvalue: eb, op: None, expr: ec }),
        ),
        span: b_sp.spec_merge(c_sp),
    };
    let outer = Sp {
        value: ExprV::Assign(
            Box::new(crate::ast::AssignmentV { lvalue: ea, op: None, expr: inner }),
        ),
        span: a_sp.spec_merge(b_sp.spec_merge(c_sp)),
    };
    lemma_atom_bin(s, 4, Prec::Or, ExprV::Ident(nc));
    assert(grammar::try_expr(s, 4) == Step::Hit(ec, 5));
    assert(grammar::expr(s, 4) == Need::Hit(ec, 5));
    lemma_atom_bin(s, 2, Prec::Or, ExprV::Ident(nb));
    assert(grammar::try_expr(s, 2) == Step::Hit(inner, 5));
    assert(grammar::expr(s, 2) == Need::Hit(inner, 5));
    lemma_atom_bin(s, 0, Prec::Or, ExprV::Ident(na));
    assert(grammar::try_expr(s, 0) == Step::Hit(outer, 5));
}

/// Precedence of the arithmetic tiers: `1 + 2 * 3` parses with the
/// multiplication as the inner node of the addition.
pub proof fn lemma_precedence_mul_in_add(
    n1: i64,
    n2: i64,
    n3: i64,
    s0: Span,
    s1: Span,
    s2: Span,
    s3: Span,
    s4: Span,
)
    ensures
        ({
            let s = seq![
                Sp { value: TokenV::Integer(n1), span: s0 },
                Sp { value: TokenV::Simple(Simple::Plus), span: s1 },
                Sp { value: TokenV::Integer(n2), span: s2 },
                Sp { value: TokenV::Simple(Simple::Star), span: s3 },
                Sp { value: TokenV::Integer(n3), span: s4 },
            ];
            let e1 = Sp { value: ExprV::Integer(n1), span: s0 };
            let e2 = Sp { value: ExprV::Integer(n2), span: s2 };
            let e3 = Sp { value: ExprV::Integer(n3), span: s4 };
            let prod = Sp {
                value: ExprV::Bin(
                    Box::new(
                        crate::ast::BinExprV {
                            lhs: e2,
                            op: Sp { value: BinOp::Mul, span: s3 },
                            rhs: e3,
                        },
                    ),
                ),
                span: s2.spec_merge(s4),
            };
            let top = Sp {
                value: ExprV::Bin(
                    Box::new(
                        crate::ast::BinExprV {
                            lhs: e1,
                            op: Sp { value: BinOp::Add, span: s1 },
                            rhs: prod,
                        },
                    ),
                ),
                span: s0.spec_merge(s2.spec_merge(s4)),
            };
            grammar::try_expr(s, 0) == Step::Hit(top, 5)
        }),
{
    let s = seq![
        Sp { value: TokenV::Integer(n1), span: s0 },
        Sp { value: TokenV::Simple(Simple::Plus), span: s1 },
        Sp { value: TokenV::Integer(n2), span: s2 },
        Sp { value: TokenV::Simple(Simple::Star), span: s3 },
        Sp { value: TokenV::Integer(n3), span: s4 },
    ];
    let e1 = Sp { value: ExprV::Integer(n1), span: s0 };
    let e2 = Sp { value: ExprV::Integer(n2), span: s2 };
    let e3 = Sp { value: ExprV::Integer(n3), span: s4 };
    let prod = Sp {
        value: ExprV::Bin(
            Box::new(
                crate::ast::BinExprV { lhs: e2, op: Sp { value: BinOp::Mul, span: s3 }, rhs: e3 },
            ),
        ),
        span: s2.spec_merge(s4),
    };
    let top = Sp {
        value: ExprV::Bin(
            Box::new(
                crate::ast::BinExprV {
                    lhs: e1,
                    op: Sp { value: BinOp::Add, span: s1 },
                    rhs: prod,
                },
            ),
        ),
        span: s0.spec_merge(s2.spec_merge(s4)),
    };
    lemma_atom_un(s, 2, ExprV::Integer(n2));
    lemma_atom_un(s, 4, ExprV::Integer(n3));
    assert(grammar::bin_tail(s, 5, prod, Prec::Prod) == Step::Hit(prod, 5));
    assert(grammar::bin_tail(s, 3, e2, Prec::Prod) == Step::Hit(prod, 5));
    assert(grammar::try_bin(s, 2, Prec::Prod) == Step::Hit(prod, 5));
    lemma_atom_bin(s, 0, Prec::Prod, ExprV::Integer(n1));
    assert(grammar::bin_tail(s, 5, top, Prec::Sum) == Step::Hit(top, 5));
    assert(grammar::bin_tail(s, 1, e1, Prec::Sum) == Step::Hit(top, 5));
    assert(grammar::try_bin(s, 0, Prec::Sum) == Step::Hit(top, 5));
    lemma_lift_to_top(s, 0, Prec::Sum, top, 5);
    lemma_top_expr(s, 0, top, 5);
}

/// Precedence of the logical tiers: `a or b and c` parses with the
/// conjunction binding tighter than the disjunction.
pub proof fn lemma_precedence_and_in_or(
    na: Seq<char>,
    nb: Seq<char>,
    nc: Seq<char>,
    a_sp: Span,
    o_sp: Span,
    b_sp: Span,
    d_sp: Span,
    c_sp: Span,
)
    ensures
        ({
            let s = seq![
                Sp { value: TokenV::Ident(na), span: a_sp },
                Sp { value: TokenV::Keyword(Keyword::Or), span: o_sp },
                Sp { value: TokenV::Ident(nb), span: b_sp },
                Sp { value: TokenV::Keyword(Keyword::And), span: d_sp },
                Sp { value: TokenV::Ident(nc), span: c_sp },
            ];
            let ea = Sp { value: ExprV::Ident(na), span: a_sp };
            let eb = Sp { value: ExprV::Ident(nb), span: b_sp };
            let ec = Sp { value: ExprV::Ident(nc), span: c_sp };
            let conj = Sp {
                value: ExprV::Bin(
                    Box::new(
                        crate::ast::BinExprV {
                            lhs: eb,
                            op: Sp { value: BinOp::And, span: d_sp },
                            rhs: ec,
                        },
                    ),
                ),
                span: b_sp.spec_merge(c_sp),
            };
            let disj = Sp {
                value: ExprV::Bin(
                    Box::new(
                        crate::ast::BinExprV {
                            lhs: ea,
                            op: Sp { value: BinOp::Or, span: o_sp },
                            rhs: conj,
                        },
                    ),
                ),
                span: a_sp.spec_merge(b_sp.spec_merge(c_sp)),
            };
            grammar::try_expr(s, 0) == Step::Hit(disj, 5)
        }),
{
    let s = seq![
        Sp { value: TokenV::Ident(na), span: a_sp },
        Sp { value: TokenV::Keyword(Keyword::Or), span: o_sp },
        Sp { value: TokenV::Ident(nb), span: b_sp },
        Sp { value: TokenV::Keyword(Keyword::And), span: d_sp },
        Sp { value: TokenV::Ident(nc), span: c_sp },
    ];
    let ea = Sp { value: ExprV::Ident(na), span: a_sp };
    let eb = Sp { value: ExprV::Ident(nb), span: b_sp };
    let ec = Sp { value: ExprV::Ident(nc), span: c_sp };
    let conj = Sp {
        value: ExprV::Bin(
            Box::new(
                crate::ast::BinExprV {
                    lhs: eb,
                    op: Sp { value: BinOp::And, span: d_sp },
                    rhs: ec,
                },
            ),
        ),
        span: b_sp.spec_merge(c_sp),
    };
    let disj = Sp {
        value: ExprV::Bin(
            Box::new(
                crate::ast::BinExprV {
                    lhs: ea,
                    op: Sp { value: BinOp::Or, span: o_sp },
                    rhs: conj,
                },
            ),
        ),
        span: a_sp.spec_merge(b_sp.spec_merge(c_sp)),
    };
    lemma_atom_bin(s, 2, Prec::Cmp, ExprV::Ident(nb));
    lemma_atom_bin(s, 4, Prec::Cmp, ExprV::Ident(nc));
    assert(grammar::bin_tail(s, 5, conj, Prec::And) == Step::Hit(conj, 5));
    assert(grammar::bin_tail(s, 3, eb, Prec::And) == Step::Hit(conj, 5));
    assert(grammar::try_bin(s, 2, Prec::And) == Step::Hit(conj, 5));
    lemma_atom_bin(s, 0, Prec::Cmp, ExprV::Ident(na));
    assert(grammar::bin_tail(s, 1, ea, Prec::And) == Step::Hit(ea, 1));
    assert(grammar::try_bin(s, 0, Prec::And) == Step::Hit(ea, 1));
    assert(grammar::bin_tail(s, 5, disj, Prec::Or) == Step::Hit(disj, 5));
    assert(grammar::bin_tail(s, 1, ea, Prec::Or) == Step::Hit(disj, 5));
    assert(grammar::try_bin(s, 0, Prec::Or) == Step::Hit(disj, 5));
    lemma_top_expr(s, 0, disj, 5);
}

/// Unary right recursion: `- - 1` parses as negation of negation of the
/// literal.
pub proof fn lemma_unary_right_recursion(n: i64, m1: Span, m2: Span, i_sp: Span)
    ensures
        ({
            let s = seq![
                Sp { value: TokenV::Simple(Simple::Minus), span: m1 },
                Sp { value: TokenV::Simple(Simple::Minus), span: m2 },
                Sp { value: TokenV::Integer(n), span: i_sp },
            ];
            let lit = Sp { value: ExprV::Integer(n), span: i_sp };
            let inner = Sp {
                value: ExprV::Un(
                    Box::new(
                        crate::ast::UnExprV {
                            op: Sp { value: crate::ast::UnOp::Neg, span: m2 },
                            expr: lit,
                        },
                    ),
                ),
                span: m2.spec_merge(i_sp),
            };
            let outer = Sp {
                value: ExprV::Un(
                    Box::new(
                        crate::ast::UnExprV {
                            op: Sp { value: crate::ast::UnOp::Neg, span: m1 },
                            expr: inner,
                        },
                    ),
                ),
                span: m1.spec_merge(m2.spec_merge(i_sp)),
            };
            grammar::try_expr(s, 0) == Step::Hit(outer, 3)
        }),
{
    let s = seq![
        Sp { value: TokenV::Simple(Simple::Minus), span: m1 },
        Sp { value: TokenV::Simple(Simple::Minus), span: m2 },
        Sp { value: TokenV::Integer(n), span: i_sp },
    ];
    let lit = Sp { value: ExprV::Integer(n), span: i_sp };
    let inner = Sp {
        value: ExprV::Un(
            Box::new(
                crate::ast::UnExprV {
                    op: Sp { value: crate::ast::UnOp::Neg, span: m2 },
                    expr: lit,
                },
            ),
        ),
        span: m2.spec_merge(i_sp),
    };
    let outer = Sp {
        value: ExprV::Un(
            Box::new(
                crate::ast::UnExprV {
                    op: Sp { value: crate::ast::UnOp::Neg, span: m1 },
                    expr: inner,
                },
            ),
        ),
        span: m1.spec_merge(m2.spec_merge(i_sp)),
    };
    lemma_atom_un(s, 2, ExprV::Integer(n));
    assert(grammar::try_un(s, 1) == Step::Hit(inner, 3));
    assert(grammar::try_un(s, 0) == Step::Hit(outer, 3));
    assert(grammar::bin_tail(s, 3, outer, Prec::Prod) == Step::Hit(outer, 3));
    assert(grammar::try_bin(s, 0, Prec::Prod) == Step::Hit(outer, 3));
    lemma_lift_to_top(s, 0, Prec::Prod, outer, 3);
    lemma_top_expr(s, 0, outer, 3);
}

/// The postfix chain adds nothing when no argument list or field
/// access follows.
proof fn lemma_postfix_stop(s: Seq<Sp<TokenV>>, j: nat, e: Sp<ExprV>)
    requires
        postfix_stops(s, j),
    ensures
        grammar::postfix(s, j, e) == Step::Hit(e, j),
{
    assert(grammar::try_exprs_list(s, j, Simple::OpenParen, Simple::CloseParen) == Step::<Sp<
        Seq<Sp<ExprV>>,
    >>::Miss(j));
    assert(grammar::postfix(s, j, e) == Step::Hit(e, j));
}

/// A tier's chaining loop adds nothing when no operator of the tier
/// follows.
proof fn lemma_bin_tail_stop(s: Seq<Sp<TokenV>>, j: nat, e: Sp<ExprV>, p: Prec)
    requires
        skip(s, j) == j,
        j >= s.len() || tier_op_of(s[j as int].value, p) == None::<BinOp>,
    ensures
        grammar::bin_tail(s, j, e, p) == Step::Hit(e, j),
{
    assert(grammar::bin_tail(s, j, e, p) == Step::Hit(e, j));
}

/// A finished primary term is a finished expression when nothing follows
/// that could extend it.
#[verifier::rlimit(100)]
#[verifier::spinoff_prover]
pub proof fn lemma_term_to_expr(s: Seq<Sp<TokenV>>, i: nat, e: Sp<ExprV>, j: nat)
    requires
        grammar::try_term(s, i) == Step::Hit(e, j),
        i < j <= s.len(),
        i < s.len(),
        skip(s, i) == i,
        un_op_of(s[i as int].value) == None::<crate::ast::UnOp>,
        skip(s, j) == j,
        j >= s.len() || (s[j as int].value != TokenV::Simple(Simple::OpenParen)
            && s[j as int].value != TokenV::Simple(Simple::Period)
            && assign_op_of(s[j as int].value) == None::<Option<BinOp>>
            && (forall|q: Prec| tier_op_of(s[j as int].value, q) == None::<BinOp>)),
    ensures
        grammar::try_expr(s, i) == Step::Hit(e, j),
{
    lemma_postfix_stop(s, j, e);
    assert(grammar::try_call_access(s, i) == Step::Hit(e, j));
    assert(grammar::try_un(s, i) == Step::Hit(e, j));
    lemma_bin_tail_stop(s, j, e, Prec::Prod);
    assert(grammar::try_bin(s, i, Prec::Prod) == Step::Hit(e, j));
    lemma_lift_to_top(s, i, Prec::Prod, e, j);
    lemma_top_expr(s, i, e, j);
}

/// One last list element: an expression not followed by a separator.
proof fn lemma_items_last(s: Seq<Sp<TokenV>>, i: nat, e: Sp<ExprV>, j: nat)
    requires
        grammar::try_expr(s, i) == Step::Hit(e, j),
        skip(s, j) == j,
        j >= s.len() || s[j as int].value != TokenV::Simple(Simple::Comma),
    ensures
        grammar::exprs_items(s, i) == Need::Hit(seq![e], j),
{
    assert(grammar::exprs_items(s, i) == Need::Hit(seq![e], j));
}

/// A list element followed by a separator and further elements.
proof fn lemma_items_cons(
    s: Seq<Sp<TokenV>>,
    i: nat,
    e: Sp<ExprV>,
    j: nat,
    rest: Seq<Sp<ExprV>>,
    m: nat,
)
    requires
        grammar::try_expr(s, i) == Step::Hit(e, j),
        skip(s, j) == j,
        j < s.len(),
        s[j as int].value == TokenV::Simple(Simple::Comma),
        i < j + 1 <= s.len(),
        grammar::exprs_items(s, j + 1) == Need::Hit(rest, m),
    ensures
        grammar::exprs_items(s, i) == Need::Hit(seq![e] + rest, m),
{
    assert(grammar::exprs_items(s, i) == Need::Hit(seq![e] + rest, m));
}

/// No list element at all: the expression production reports a
/// non-match without moving.
proof fn lemma_items_none(s: Seq<Sp<TokenV>>, i: nat)
    requires
        grammar::try_expr(s, i) == Step::<Sp<ExprV>>::Miss(i),
    ensures
        grammar::exprs_items(s, i) == Need::Hit(Seq::<Sp<ExprV>>::empty(), i),
{
    assert(grammar::exprs_items(s, i) == Need::Hit(Seq::<Sp<ExprV>>::empty(), i));
}

/// A complete delimited expression list from its pieces.
proof fn lemma_list_shape(
    s: Seq<Sp<TokenV>>,
    i: nat,
    items: Seq<Sp<ExprV>>,
    k: nat,
    c_sp: Span,
)
    requires
        i < s.len(),
        skip(s, i) == i,
        s[i as int].value == TokenV::Simple(Simple::OpenParen),
        grammar::exprs_items(s, i + 1) == Need::Hit(items, k),
        skip(s, k) == k,
        k < s.len(),
        s[k as int].value == TokenV::Simple(Simple::CloseParen),
        s[k as int].span == c_sp,
    ensures
        grammar::try_exprs_list(s, i, Simple::OpenParen, Simple::CloseParen) == Step::Hit(
            Sp { value: items, span: s[i as int].span.spec_merge(c_sp) },
            k + 1,
        ),
{
    assert(grammar::try_exprs_list(s, i, Simple::OpenParen, Simple::CloseParen) == Step::Hit(
        Sp { value: items, span: s[i as int].span.spec_merge(c_sp) },
        k + 1,
    ));
}

/// A delimited expression list standing as a primary term is a tuple
/// literal.
#[verifier::spinoff_prover]
proof fn lemma_term_tuple(s: Seq<Sp<TokenV>>, i: nat, v: Sp<Seq<Sp<ExprV>>>, j: nat)
    requires
        i < s.len(),
        skip(s, i) == i,
        s[i as int].value == TokenV::Simple(Simple::OpenParen),
        grammar::try_exprs_list(s, i, Simple::OpenParen, Simple::CloseParen) == Step::<Sp<
            Seq<Sp<ExprV>>,
        >>::Hit(v, j),
    ensures
        grammar::try_term(s, i) == Step::Hit(Sp { value: ExprV::Tuple(v.value), span: v.span }, j),
{
    assert(grammar::try_term(s, i) == Step::Hit(
        Sp { value: ExprV::Tuple(v.value), span: v.span },
        j,
    ));
}

/// Delimited-list edge case: `()` parses as the empty tuple literal.
#[verifier::rlimit(100)]
#[verifier::spinoff_prover]
pub proof fn lemma_empty_tuple(o_sp: Span, c_sp: Span)
    ensures
        ({
            let s = seq![
                Sp { value: TokenV::Simple(Simple::OpenParen), span: o_sp },
                Sp { value: TokenV::Simple(Simple::CloseParen), span: c_sp },
            ];
            grammar::try_expr(s, 0) == Step::Hit(
                Sp { value: ExprV::Tuple(Seq::empty()), span: o_sp.spec_merge(c_sp) },
                2,
            )
        }),
{
    let s = seq![
        Sp { value: TokenV::Simple(Simple::OpenParen), span: o_sp },
        Sp { value: TokenV::Simple(Simple::CloseParen), span: c_sp },
    ];
    let tup = Sp { value: ExprV::Tuple(Seq::<Sp<ExprV>>::empty()), span: o_sp.spec_merge(c_sp) };
    lemma_miss_expr(s, 1);
    lemma_items_none(s, 1);
    lemma_list_shape(s, 0, Seq::<Sp<ExprV>>::empty(), 1, c_sp);
    lemma_term_tuple(s, 0, Sp { value: Seq::<Sp<ExprV>>::empty(), span: o_sp.spec_merge(c_sp) }, 2);
    lemma_term_to_expr(s, 0, tup, 2);
}

/// Delimited-list edge case: `(a)` parses as the one-element tuple
/// literal holding `a`; a parenthesized single expression is not
/// distinguished from a one-element tuple.
#[verifier::rlimit(100)]
#[verifier::spinoff_prover]
pub proof fn lemma_parenthesized_single(na: Seq<char>, o_sp: Span, a_sp: Span, c_sp: Span)
    ensures
        ({
            let s1 = seq![
                Sp { value: TokenV::Simple(Simple::OpenParen), span: o_sp },
                Sp { value: TokenV::Ident(na), span: a_sp },
                Sp { value: TokenV::Simple(Simple::CloseParen), span: c_sp },
            ];
            let ea = Sp { value: ExprV::Ident(na), span: a_sp };
            grammar::try_expr(s1, 0) == Step::Hit(
                Sp { value: ExprV::Tuple(seq![ea]), span: o_sp.spec_merge(c_sp) },
                3,
            )
        }),
{
    let ea = Sp { value: ExprV::Ident(na), span: a_sp };
    let s1 = seq![
        Sp { value: TokenV::Simple(Simple::OpenParen), span: o_sp },
        Sp { value: TokenV::Ident(na), span: a_sp },
        Sp { value: TokenV::Simple(Simple::CloseParen), span: c_sp },
    ];
    let tup1 = Sp { value: ExprV::Tuple(seq![ea]), span: o_sp.spec_merge(c_sp) };
    lemma_atom_bin(s1, 1, Prec::Or, ExprV::Ident(na));
    lemma_top_expr(s1, 1, ea, 2);
    lemma_items_last(s1, 1, ea, 2);
    lemma_list_shape(s1, 0, seq![ea], 2, c_sp);
    lemma_term_tuple(s1, 0, Sp { value: seq![ea], span: o_sp.spec_merge(c_sp) }, 3);
    lemma_term_to_expr(s1, 0, tup1, 3);
}

/// Delimited-list edge case: `(a,)` parses as the same one-element
/// tuple literal as `(a)`, the trailing separator adding nothing.
#[verifier::rlimit(100)]
#[verifier::spinoff_prover]
pub proof fn lemma_one_tuple_trailing(na: Seq<char>, o_sp: Span, a_sp: Span, k_sp: Span, c_sp: Span)
    ensures
        ({
            let s2 = seq![
                Sp { value: TokenV::Simple(Simple::OpenParen), span: o_sp },
                Sp { value: TokenV::Ident(na), span: a_sp },
                Sp { value: TokenV::Simple(Simple::Comma), span: k_sp },
                Sp { value: TokenV::Simple(Simple::CloseParen), span: c_sp },
            ];
            let ea = Sp { value: ExprV::Ident(na), span: a_sp };
            grammar::try_expr(s2, 0) == Step::Hit(
                Sp { value: ExprV::Tuple(seq![ea]), span: o_sp.spec_merge(c_sp) },
                4,
            )
        }),
{
    let ea = Sp { value: ExprV::Ident(na), span: a_sp };
    let s2 = seq![
        Sp { value: TokenV::Simple(Simple::OpenParen), span: o_sp },
        Sp { value: TokenV::Ident(na), span: a_sp },
        Sp { value: TokenV::Simple(Simple::Comma), span: k_sp },
        Sp { value: TokenV::Simple(Simple::CloseParen), span: c_sp },
    ];
    let tup2 = Sp { value: ExprV::Tuple(seq![ea]), span: o_sp.spec_merge(c_sp) };
    lemma_atom_bin(s2, 1, Prec::Or, ExprV::Ident(na));
    lemma_top_expr(s2, 1, ea, 2);
    lemma_miss_expr(s2, 3);
    lemma_items_none(s2, 3);
    lemma_items_cons(s2, 1, ea, 2, Seq::<Sp<ExprV>>::empty(), 3);
    assert(seq![ea] + Seq::<Sp<ExprV>>::empty() =~= seq![ea]);
    assert(grammar::exprs_items(s2, 1) == Need::Hit(seq![ea], 3));
    lemma_list_shape(s2, 0, seq![ea], 3, c_sp);
    lemma_term_tuple(s2, 0, Sp { value: seq![ea], span: o_sp.spec_merge(c_sp) }, 4);
    lemma_term_to_expr(s2, 0, tup2, 4);
}

/// A three-element tuple literal without a trailing separator.
#[verifier::rlimit(100)]
#[verifier::spinoff_prover]
pub proof fn lemma_three_tuple(
    na: Seq<char>,
    nb: Seq<char>,
    nc: Seq<char>,
    o_sp: Span,
    a_sp: Span,
    k1_sp: Span,
    b_sp: Span,
    k2_sp: Span,
    c_sp: Span,
    e_sp: Span,
)
    ensures
        ({
            let s1 = seq![
                Sp { value: TokenV::Simple(Simple::OpenParen), span: o_sp },
                Sp { value: TokenV::Ident(na), span: a_sp },
                Sp { value: TokenV::Simple(Simple::Comma), span: k1_sp },
                Sp { value: TokenV::Ident(nb), span: b_sp },
                Sp { value: TokenV::Simple(Simple::Comma), span: k2_sp },
                Sp { value: TokenV::Ident(nc), span: c_sp },
                Sp { value: TokenV::Simple(Simple::CloseParen), span: e_sp },
            ];
            let items = seq![
                Sp { value: ExprV::Ident(na), span: a_sp },
                Sp { value: ExprV::Ident(nb), span: b_sp },
                Sp { value: ExprV::Ident(nc), span: c_sp },
            ];
            grammar::try_expr(s1, 0) == Step::Hit(
                Sp { value: ExprV::Tuple(items), span: o_sp.spec_merge(e_sp) },
                7,
            )
        }),
{
    let ea = Sp { value: ExprV::Ident(na), span: a_sp };
    let eb = Sp { value: ExprV::Ident(nb), span: b_sp };
    let ec = Sp { value: ExprV::Ident(nc), span: c_sp };
    let items = seq![ea, eb, ec];
    let s1 = seq![
        Sp { value: TokenV::Simple(Simple::OpenParen), span: o_sp },
        Sp { value: TokenV::Ident(na), span: a_sp },
        Sp { value: TokenV::Simple(Simple::Comma), span: k1_sp },
        Sp { value: TokenV::Ident(nb), span: b_sp },
        Sp { value: TokenV::Simple(Simple::Comma), span: k2_sp },
        Sp { value: TokenV::Ident(nc), span: c_sp },
        Sp { value: TokenV::Simple(Simple::CloseParen), span: e_sp },
    ];
    let tup1 = Sp { value: ExprV::Tuple(items), span: o_sp.spec_merge(e_sp) };
    lemma_atom_bin(s1, 1, Prec::Or, ExprV::Ident(na));
    lemma_top_expr(s1, 1, ea, 2);
    lemma_atom_bin(s1, 3, Prec::Or, ExprV::Ident(nb));
    lemma_top_expr(s1, 3, eb, 4);
    lemma_atom_bin(s1, 5, Prec::Or, ExprV::Ident(nc));
    lemma_top_expr(s1, 5, ec, 6);
    lemma_items_last(s1, 5, ec, 6);
    lemma_items_cons(s1, 3, eb, 4, seq![ec], 6);
    lemma_items_cons(s1, 1, ea, 2, seq![eb] + seq![ec], 6);
    assert(seq![ea] + (seq![eb] + seq![ec]) =~= items);
    assert(grammar::exprs_items(s1, 1) == Need::Hit(items, 6));
    lemma_list_shape(s1, 0, items, 6, e_sp);
    lemma_term_tuple(s1, 0, Sp { value: items, span: o_sp.spec_merge(e_sp) }, 7);
    lemma_term_to_expr(s1, 0, tup1, 7);
}

/// Delimited-list edge case: `(a, b, c,)` holds exactly the elements of
/// `(a, b, c)` — a trailing separator changes nothing.
#[verifier::rlimit(100)]
#[verifier::spinoff_prover]
pub proof fn lemma_trailing_separator(
    na: Seq<char>,
    nb: Seq<char>,
    nc: Seq<char>,
    o_sp: Span,
    a_sp: Span,
    k1_sp: Span,
    b_sp: Span,
    k2_sp: Span,
    c_sp: Span,
    k3_sp: Span,
    e_sp: Span,
)
    ensures
        ({
            let s2 = seq![
                Sp { value: TokenV::Simple(Simple::OpenParen), span: o_sp },
                Sp { value: TokenV::Ident(na), span: a_sp },
                Sp { value: TokenV::Simple(Simple::Comma), span: k1_sp },
                Sp { value: TokenV::Ident(nb), span: b_sp },
                Sp { value: TokenV::Simple(Simple::Comma), span: k2_sp },
                Sp { value: TokenV::Ident(nc), span: c_sp },
                Sp { value: TokenV::Simple(Simple::Comma), span: k3_sp },
                Sp { value: TokenV::Simple(Simple::CloseParen), span: e_sp },
            ];
            let items = seq![
                Sp { value: ExprV::Ident(na), span: a_sp },
                Sp { value: ExprV::Ident(nb), span: b_sp },
                Sp { value: ExprV::Ident(nc), span: c_sp },
            ];
            grammar::try_expr(s2, 0) == Step::Hit(
                Sp { value: ExprV::Tuple(items), span: o_sp.spec_merge(e_sp) },
                8,
            )
        }),
{
    let ea = Sp { value: ExprV::Ident(na), span: a_sp };
    let eb = Sp { value: ExprV::Ident(nb), span: b_sp };
    let ec = Sp { value: ExprV::Ident(nc), span: c_sp };
    let items = seq![ea, eb, ec];
    let s2 = seq![
        Sp { value: TokenV::Simple(Simple::OpenParen), span: o_sp },
        Sp { value: TokenV::Ident(na), span: a_sp },
        Sp { value: TokenV::Simple(Simple::Comma), span: k1_sp },
        Sp { value: TokenV::Ident(nb), span: b_sp },
        Sp { value: TokenV::Simple(Simple::Comma), span: k2_sp },
        Sp { value: TokenV::Ident(nc), span: c_sp },
        Sp { value: TokenV::Simple(Simple::Comma), span: k3_sp },
        Sp { value: TokenV::Simple(Simple::CloseParen), span: e_sp },
    ];
    let tup2 = Sp { value: ExprV::Tuple(items), span: o_sp.spec_merge(e_sp) };
    lemma_atom_bin(s2, 1, Prec::Or, ExprV::Ident(na));
    lemma_top_expr(s2, 1, ea, 2);
    lemma_atom_bin(s2, 3, Prec::Or, ExprV::Ident(nb));
    lemma_top_expr(s2, 3, eb, 4);
    lemma_atom_bin(s2, 5, Prec::Or, ExprV::Ident(nc));
    lemma_top_expr(s2, 5, ec, 6);
    lemma_miss_expr(s2, 7);
    lemma_items_none(s2, 7);
    lemma_items_cons(s2, 5, ec, 6, Seq::<Sp<ExprV>>::empty(), 7);
    assert(seq![ec] + Seq::<Sp<ExprV>>::empty() =~= seq![ec]);
    assert(grammar::exprs_items(s2, 5) == Need::Hit(seq![ec], 7));
    lemma_items_cons(s2, 3, eb, 4, seq![ec], 7);
    lemma_items_cons(s2, 1, ea, 2, seq![eb] + seq![ec], 7);
    assert(seq![ea] + (seq![eb] + seq![ec]) =~= items);
    assert(grammar::exprs_items(s2, 1) == Need::Hit(items, 7));
    lemma_list_shape(s2, 0, items, 7, e_sp);
    lemma_term_tuple(s2, 0, Sp { value: items, span: o_sp.spec_merge(e_sp) }, 8);
    lemma_term_to_expr(s2, 0, tup2, 8);
}

/// Documentation accumulation: two consecutive documentation-comment
/// lines are concatenated into one string whose span stretches from the
/// first line to the second.
pub proof fn lemma_doc_accumulation(s: Seq<Sp<TokenV>>, l1: Seq<char>, l2: Seq<char>)
    requires
        s.len() >= 2,
        s[0].value == TokenV::DocComment(l1),
        s[1].value == TokenV::DocComment(l2),
        s.len() > 2 ==> (!(s[2].value matches TokenV::DocComment(_)) && !grammar::is_comment(
            s[2].value,
        )),
    ensures
        grammar::doc_comment(s, 0).0 == Some(
            Sp { value: l1 + l2, span: Span { start: s[0].span.start, end: s[1].span.end } },
        ),
        grammar::doc_comment(s, 0).1 == 2,
{
    assert(grammar::doc_comment(s, 2).0 == None::<Sp<Seq<char>>>);
    assert(grammar::doc_comment(s, 2).1 == 2);
    assert(grammar::doc_comment(s, 1).0 == Some(Sp { value: l2, span: s[1].span }));
    assert(grammar::doc_comment(s, 1).1 == 2);
    assert(grammar::doc_comment(s, 0).0 == Some(
        Sp { value: l1 + l2, span: Span { start: s[0].span.start, end: s[1].span.end } },
    ));
    assert(grammar::doc_comment(s, 0).1 == 2);
}

/// Token spans are forward and ordered: each token covers a non-empty
/// range, and consecutive tokens do not overlap backwards.
pub open spec fn spans_ordered(s: Seq<Sp<TokenV>>) -> bool {
    (forall|k: int| 0 <= k < s.len() ==> (#[trigger] s[k]).span.start.pos < s[k].span.end.pos)
        && (forall|k: int|
        0 <= k + 1 < s.len() ==> (#[trigger] s[k]).span.end.pos <= s[k + 1].span.start.pos)
}

/// Span positions grow along the token sequence.
proof fn lemma_pos_mono(s: Seq<Sp<TokenV>>, a: int, b: int)
    requires
        spans_ordered(s),
        0 <= a <= b < s.len(),
    ensures
        s[a].span.start.pos <= s[b].span.start.pos,
        s[a].span.end.pos <= s[b].span.end.pos,
        a < b ==> s[a].span.end.pos <= s[b].span.start.pos,
    decreases b - a,
{
    if a < b {
        lemma_pos_mono(s, a, b - 1);
    }
}

/// Comment skipping lands at or after the start, within bounds, on a
/// non-comment token, and is idempotent.
proof fn lemma_skip_props(s: Seq<Sp<TokenV>>, i: nat)
    ensures
        i <= skip(s, i),
        i <= s.len() ==> skip(s, i) <= s.len(),
        skip(s, i) < s.len() ==> !grammar::is_comment(s[skip(s, i) as int].value),
        skip(s, skip(s, i)) == skip(s, i),
    decreases s.len() - i,
{
    if i < s.len() && grammar::is_comment(s[i as int].value) {
        lemma_skip_props(s, i + 1);
    }
}

/// Round-trip span coverage for patterns: a parsed pattern's span starts
/// at the span-start of the first token it consumed and ends at the
/// span-end of the last; a non-match leaves the cursor exactly past the
/// skipped comments.
pub proof fn lemma_pattern_spans(s: Seq<Sp<TokenV>>, i: nat)
    requires
        spans_ordered(s),
    ensures
        (match grammar::try_pattern(s, i) {
            Step::Hit(p, j) => skip(s, i) < j <= s.len() && p.span.start == s[skip(
                s,
                i,
            ) as int].span.start && p.span.end == s[j - 1].span.end,
            Step::Miss(m) => m == skip(s, i),
            Step::Fail(_) => true,
        }),
    decreases s.len() - i, 1int, 0int,
{
    lemma_skip_props(s, i);
    let f = skip(s, i);
    match grammar::try_ident(s, i) {
        Hop::Hit(n, j) => {},
        Hop::Miss(j0) => {
            let i2 = grammar::at_or_after(i, j0, s.len());
            if i <= s.len() {
                assert(i2 == f);
            } else {
                assert(j0 == i && i2 == i && f == i);
            }
            lemma_skip_props(s, i2);
            lemma_patterns_list_spans(s, i2, Simple::OpenParen, Simple::CloseParen);
        },
    }
}

/// Round-trip span coverage for the comma-separated pattern list: the
/// outcome's cursor stays within bounds and never moves backwards.
pub proof fn lemma_patterns_items_spans(s: Seq<Sp<TokenV>>, i: nat)
    requires
        spans_ordered(s),
    ensures
        (match grammar::patterns_items(s, i) {
            Need::Hit(ps, k) => i <= k && (i <= s.len() ==> k <= s.len()),
            Need::Fail(_) => true,
        }),
    decreases s.len() - i, 2int, 0int,
{
    lemma_skip_props(s, i);
    match grammar::try_pattern(s, i) {
        Step::Fail(_) => {},
        Step::Miss(j) => {
            lemma_pattern_spans(s, i);
        },
        Step::Hit(v, j) => {
            lemma_pattern_spans(s, i);
            lemma_skip_props(s, j);
            match grammar::try_token(s, j, TokenV::Simple(Simple::Comma)) {
                Hop::Miss(j2) => {},
                Hop::Hit(_, k) => {
                    if i < k && k <= s.len() {
                        lemma_patterns_items_spans(s, k);
                    }
                },
            }
        },
    }
}

/// Round-trip span coverage for a delimited pattern list: the span of
/// the parsed list runs from the start of its opening delimiter to the
/// end of its closing one, the first and last tokens consumed.
pub proof fn lemma_patterns_list_spans(s: Seq<Sp<TokenV>>, i: nat, open: Simple, close: Simple)
    requires
        spans_ordered(s),
    ensures
        (match grammar::try_patterns_list(s, i, open, close) {
            Step::Hit(v, j) => skip(s, i) < j <= s.len() && v.span.start == s[skip(
                s,
                i,
            ) as int].span.start && v.span.end == s[j - 1].span.end,
            Step::Miss(m) => m == skip(s, i),
            Step::Fail(_) => true,
        }),
    decreases s.len() - i, 0int, 0int,
{
    lemma_skip_props(s, i);
    let a = skip(s, i);
    match grammar::try_token(s, i, TokenV::Simple(open)) {
        Hop::Miss(_) => {},
        Hop::Hit(osp, j) => {
            // j == a + 1 and the open delimiter stands at a
            lemma_patterns_items_spans(s, j);
            match grammar::patterns_items(s, j) {
                Need::Fail(_) => {},
                Need::Hit(items, k) => {
                    lemma_skip_props(s, k);
                    match grammar::try_token(s, k, TokenV::Simple(close)) {
                        Hop::Miss(_) => {},
                        Hop::Hit(csp, m) => {
                            let c = skip(s, k);
                            lemma_pos_mono(s, a as int, c as int);
                            assert(osp.spec_merge(csp) == Span {
                                start: s[a as int].span.start,
                                end: s[c as int].span.end,
                            });
                        },
                    }
                },
            }
        },
    }
}

/// Round-trip span coverage for types: a parsed type's span starts at
/// the span-start of the first token it consumed and ends at the
/// span-end of the last; a non-match leaves the cursor exactly past the
/// skipped comments.
pub proof fn lemma_ty_spans(s: Seq<Sp<TokenV>>, i: nat)
    requires
        spans_ordered(s),
    ensures
        (match grammar::try_ty(s, i) {
            Step::Hit(t, j) => skip(s, i) < j <= s.len() && t.span.start == s[skip(
                s,
                i,
            ) as int].span.start && t.span.end == s[j - 1].span.end,
            Step::Miss(m) => m == skip(s, i),
            Step::Fail(_) => true,
        }),
    decreases s.len() - i, 1int, 0int,
{
    lemma_skip_props(s, i);
    let f = skip(s, i);
    match grammar::try_ident(s, i) {
        Hop::Hit(n, j) => {},
        Hop::Miss(j0) => {
            let i2 = grammar::at_or_after(i, j0, s.len());
            if i <= s.len() {
                assert(i2 == f);
            } else {
                assert(j0 == i && i2 == i && f == i);
            }
            lemma_skip_props(s, i2);
            match grammar::try_token(s, i2, TokenV::Simple(Simple::OpenBracket)) {
                Hop::Hit(osp, j1) => {
                    // the opening bracket stands at f and j1 == f + 1
                    lemma_ty_need_spans(s, j1);
                    match grammar::ty(s, j1) {
                        Need::Fail(_) => {},
                        Need::Hit(inner, j2) => {
                            lemma_skip_props(s, j2);
                            match grammar::try_token(s, j2, TokenV::Simple(Simple::CloseBracket)) {
                                Hop::Miss(_) => {},
                                Hop::Hit(csp, j3) => {
                                    let c = skip(s, j2);
                                    lemma_pos_mono(s, f as int, c as int);
                                    assert(osp.spec_merge(csp) == Span {
                                        start: s[f as int].span.start,
                                        end: s[c as int].span.end,
                                    });
                                },
                            }
                        },
                    }
                },
                Hop::Miss(j1) => {
                    let i3 = grammar::at_or_after(i, j1, s.len());
                    if i <= s.len() {
                        assert(i3 == f);
                    } else {
                        assert(i3 == i && f == i);
                    }
                    lemma_tys_list_spans(s, i3, Simple::OpenParen, Simple::CloseParen);
                },
            }
        },
    }
}

/// Round-trip span coverage for a mandatory type.
pub proof fn lemma_ty_need_spans(s: Seq<Sp<TokenV>>, i: nat)
    requires
        spans_ordered(s),
    ensures
        (match grammar::ty(s, i) {
            Need::Hit(t, j) => skip(s, i) < j <= s.len() && t.span.start == s[skip(
                s,
                i,
            ) as int].span.start && t.span.end == s[j - 1].span.end,
            Need::Fail(_) => true,
        }),
    decreases s.len() - i, 2int, 0int,
{
    lemma_ty_spans(s, i);
}

/// Round-trip span coverage for the comma-separated type list: the
/// outcome's cursor stays within bounds and never moves backwards.
pub proof fn lemma_tys_items_spans(s: Seq<Sp<TokenV>>, i: nat)
    requires
        spans_ordered(s),
    ensures
        (match grammar::tys_items(s, i) {
            Need::Hit(ts, k) => i <= k && (i <= s.len() ==> k <= s.len()),
            Need::Fail(_) => true,
        }),
    decreases s.len() - i, 2int, 1int,
{
    lemma_skip_props(s, i);
    match grammar::try_ty(s, i) {
        Step::Fail(_) => {},
        Step::Miss(j) => {
            lemma_ty_spans(s, i);
        },
        Step::Hit(v, j) => {
            lemma_ty_spans(s, i);
            lemma_skip_props(s, j);
            match grammar::try_token(s, j, TokenV::Simple(Simple::Comma)) {
                Hop::Miss(j2) => {},
                Hop::Hit(_, k) => {
                    if i < k && k <= s.len() {
                        lemma_tys_items_spans(s, k);
                    }
                },
            }
        },
    }
}

/// Round-trip span coverage for a delimited type list: the span of the
/// parsed list runs from the start of its opening delimiter to the end
/// of its closing one, the first and last tokens consumed.
pub proof fn lemma_tys_list_spans(s: Seq<Sp<TokenV>>, i: nat, open: Simple, close: Simple)
    requires
        spans_ordered(s),
    ensures
        (match grammar::try_tys_list(s, i, open, close) {
            Step::Hit(v, j) => skip(s, i) < j <= s.len() && v.span.start == s[skip(
                s,
                i,
            ) as int].span.start && v.span.end == s[j - 1].span.end,
            Step::Miss(m) => m == skip(s, i),
            Step::Fail(_) => true,
        }),
    decreases s.len() - i, 0int, 0int,
{
    lemma_skip_props(s, i);
    let a = skip(s, i);
    match grammar::try_token(s, i, TokenV::Simple(open)) {
        Hop::Miss(_) => {},
        Hop::Hit(osp, j) => {
            lemma_tys_items_spans(s, j);
            match grammar::tys_items(s, j) {
                Need::Fail(_) => {},
                Need::Hit(items, k) => {
                    lemma_skip_props(s, k);
                    match grammar::try_token(s, k, TokenV::Simple(close)) {
                        Hop::Miss(_) => {},
                        Hop::Hit(csp, m) => {
                            let c = skip(s, k);
                            lemma_pos_mono(s, a as int, c as int);
                            assert(osp.spec_merge(csp) == Span {
                                start: s[a as int].span.start,
                                end: s[c as int].span.end,
                            });
                        },
                    }
                },
            }
        },
    }
}

/// A parsed parameter consumes at least one token and stays within
/// bounds; a non-match leaves the cursor exactly past the skipped
/// comments.
pub proof fn lemma_param_spans(s: Seq<Sp<TokenV>>, i: nat)
    requires
        spans_ordered(s),
    ensures
        (match grammar::try_param(s, i) {
            Step::Hit(v, j) => skip(s, i) < j <= s.len(),
            Step::Miss(m) => m == skip(s, i),
            Step::Fail(_) => true,
        }),
    decreases s.len() - i, 0int, 0int,
{
    lemma_skip_props(s, i);
    match grammar::try_ident(s, i) {
        Hop::Miss(_) => {},
        Hop::Hit(nm, j1) => {
            lemma_skip_props(s, j1);
            match grammar::expect(s, j1, Simple::Colon) {
                Need::Fail(_) => {},
                Need::Hit(_, j2) => {
                    lemma_ty_need_spans(s, j2);
                    lemma_skip_props(s, j2);
                },
            }
        },
    }
}

/// Round-trip span coverage for the comma-separated parameter list: the
/// outcome's cursor stays within bounds and never moves backwards.
pub proof fn lemma_params_items_spans(s: Seq<Sp<TokenV>>, i: nat)
    requires
        spans_ordered(s),
    ensures
        (match grammar::params_items(s, i) {
            Need::Hit(ps, k) => i <= k && (i <= s.len() ==> k <= s.len()),
            Need::Fail(_) => true,
        }),
    decreases s.len() - i, 1int, 0int,
{
    lemma_skip_props(s, i);
    match grammar::try_param(s, i) {
        Step::Fail(_) => {},
        Step::Miss(j) => {
            lemma_param_spans(s, i);
        },
        Step::Hit(v, j) => {
            lemma_param_spans(s, i);
            lemma_skip_props(s, j);
            match grammar::try_token(s, j, TokenV::Simple(Simple::Comma)) {
                Hop::Miss(j2) => {},
                Hop::Hit(_, k) => {
                    if i < k && k <= s.len() {
                        lemma_params_items_spans(s, k);
                    }
                },
            }
        },
    }
}

/// Round-trip span coverage for a delimited parameter list: the span of
/// the parsed list runs from the start of its opening delimiter to the
/// end of its closing one, the first and last tokens consumed.
pub proof fn lemma_params_list_spans(s: Seq<Sp<TokenV>>, i: nat, open: Simple, close: Simple)
    requires
        spans_ordered(s),
    ensures
        (match grammar::try_params_list(s, i, open, close) {
            Step::Hit(v, j) => skip(s, i) < j <= s.len() && v.span.start == s[skip(
                s,
                i,
            ) as int].span.start && v.span.end == s[j - 1].span.end,
            Step::Miss(m) => m == skip(s, i),
            Step::Fail(_) => true,
        }),
    decreases s.len() - i, 0int, 1int,
{
    lemma_skip_props(s, i);
    let a = skip(s, i);
    match grammar::try_token(s, i, TokenV::Simple(open)) {
        Hop::Miss(_) => {},
        Hop::Hit(osp, j) => {
            lemma_params_items_spans(s, j);
            match grammar::params_items(s, j) {
                Need::Fail(_) => {},
                Need::Hit(items, k) => {
                    lemma_skip_props(s, k);
                    match grammar::try_token(s, k, TokenV::Simple(close)) {
                        Hop::Miss(_) => {},
                        Hop::Hit(csp, m) => {
                            let c = skip(s, k);
                            lemma_pos_mono(s, a as int, c as int);
                            assert(osp.spec_merge(csp) == Span {
                                start: s[a as int].span.start,
                                end: s[c as int].span.end,
                            });
                        },
                    }
                },
            }
        },
    }
}

/// Documentation accumulation never moves the cursor backwards or past
/// the end.
proof fn lemma_doc_mono(s: Seq<Sp<TokenV>>, i: nat)
    ensures
        i <= grammar::doc_comment(s, i).1,
        i <= s.len() ==> grammar::doc_comment(s, i).1 <= s.len(),
    decreases s.len() - i,
{
    lemma_skip_props(s, i);
    let j = skip(s, i);
    if j < s.len() && (s[j as int].value matches TokenV::DocComment(_)) {
        lemma_doc_mono(s, j + 1);
    }
}

/// The cursor discipline of every production: the resulting position is
/// at or after the starting one, and within the sequence whenever the
/// start was.
pub open spec fn moves_to(i: nat, j: nat, len: nat) -> bool {
    i <= j && (i <= len ==> j <= len)
}

proof fn lemma_exprs_list_mono(s: Seq<Sp<TokenV>>, i: nat, open: Simple, close: Simple)
    requires
        spans_ordered(s),
    ensures
        (match grammar::try_exprs_list(s, i, open, close) {
            Step::Hit(_, j) => moves_to(i, j, s.len()),
            Step::Miss(m) => moves_to(i, m, s.len()),
            Step::Fail(_) => true,
        }),
    decreases s.len() - i, 4int, 0int,
{
    lemma_skip_props(s, i);
    match grammar::try_token(s, i, TokenV::Simple(open)) {
        Hop::Miss(_) => {},
        Hop::Hit(_, j) => {
            lemma_exprs_items_mono(s, j);
            match grammar::exprs_items(s, j) {
                Need::Fail(_) => {},
                Need::Hit(_, k) => {
                    lemma_skip_props(s, k);
                },
            }
        },
    }
}

proof fn lemma_block_try_mono(s: Seq<Sp<TokenV>>, i: nat)
    requires
        spans_ordered(s),
    ensures
        (match grammar::try_block(s, i) {
            Step::Hit(_, j) => moves_to(i, j, s.len()),
            Step::Miss(m) => moves_to(i, m, s.len()),
            Step::Fail(_) => true,
        }),
    decreases s.len() - i, 3int, 0int,
{
    lemma_skip_props(s, i);
    match grammar::try_token(s, i, TokenV::Simple(Simple::OpenCurly)) {
        Hop::Miss(_) => {},
        Hop::Hit(_, j) => {
            lemma_items_mono(s, j);
            match grammar::items(s, j) {
                Need::Fail(_) => {},
                Need::Hit(_, k) => {
                    lemma_skip_props(s, k);
                },
            }
        },
    }
}

#[verifier::rlimit(100)]
#[verifier::spinoff_prover]
proof fn lemma_term_mono(s: Seq<Sp<TokenV>>, i: nat)
    requires
        spans_ordered(s),
    ensures
        (match grammar::try_term(s, i) {
            Step::Hit(_, j) => moves_to(i, j, s.len()),
            Step::Miss(m) => moves_to(i, m, s.len()),
            Step::Fail(_) => true,
        }),
    decreases s.len() - i, 5int, 0int,
{
    lemma_skip_props(s, i);
    match grammar::try_ident(s, i) {
        Hop::Hit(_, _) => {},
        Hop::Miss(i1) => {
            lemma_skip_props(s, i1);
            match grammar::try_integer(s, i1) {
                Hop::Hit(_, _) => {},
                Hop::Miss(i2) => {
                    lemma_skip_props(s, i2);
                    match grammar::try_real(s, i2) {
                        Hop::Hit(_, _) => {},
                        Hop::Miss(i3) => {
                            lemma_skip_props(s, i3);
                            match grammar::try_token(s, i3, TokenV::Keyword(Keyword::True)) {
                                Hop::Hit(_, _) => {},
                                Hop::Miss(i4) => {
                                    lemma_skip_props(s, i4);
                                    match grammar::try_token(
                                        s,
                                        i4,
                                        TokenV::Keyword(Keyword::False),
                                    ) {
                                        Hop::Hit(_, _) => {},
                                        Hop::Miss(i5) => {
                                            let b5 = grammar::at_or_after(i, i5, s.len());
                                            lemma_block_try_mono(s, b5);
                                            match grammar::try_block(s, b5) {
                                                Step::Fail(_) => {},
                                                Step::Hit(_, _) => {},
                                                Step::Miss(i6) => {
                                                    let b6 = grammar::at_or_after(i, i6, s.len());
                                                    lemma_exprs_list_mono(
                                                        s,
                                                        b6,
                                                        Simple::OpenParen,
                                                        Simple::CloseParen,
                                                    );
                                                    match grammar::try_exprs_list(
                                                        s,
                                                        b6,
                                                        Simple::OpenParen,
                                                        Simple::CloseParen,
                                                    ) {
                                                        Step::Fail(_) => {},
                                                        Step::Hit(_, _) => {},
                                                        Step::Miss(i7) => {
                                                            let b7 = grammar::at_or_after(
                                                                i,
                                                                i7,
                                                                s.len(),
                                                            );
                                                            lemma_exprs_list_mono(
                                                                s,
                                                                b7,
                                                                Simple::OpenBracket,
                                                                Simple::CloseBracket,
                                                            );
                                                        },
                                                    }
                                                },
                                            }
                                        },
                                    }
                                },
                            }
                        },
                    }
                },
            }
        },
    }
}

proof fn lemma_bin_tail_mono(s: Seq<Sp<TokenV>>, i: nat, lhs: Sp<ExprV>, p: Prec)
    requires
        spans_ordered(s),
    ensures
        (match grammar::bin_tail(s, i, lhs, p) {
            Step::Hit(_, j) => moves_to(i, j, s.len()),
            Step::Miss(m) => moves_to(i, m, s.len()),
            Step::Fail(_) => true,
        }),
    decreases s.len() - i, 6int, 0int,
{
    lemma_skip_props(s, i);
    match grammar::try_tier_op(s, i, p) {
        Hop::Miss(_) => {},
        Hop::Hit(opsp, j) => {
            match grammar::tier_child(p) {
                Some(c) => {
                    lemma_bin_mono(s, j, c);
                },
                None => {
                    lemma_un_mono(s, j);
                },
            }
            let rl = match grammar::tier_child(p) {
                Some(c) => grammar::try_bin(s, j, c),
                None => grammar::try_un(s, j),
            };
            match rl {
                Step::Fail(_) => {},
                Step::Miss(_) => {},
                Step::Hit(rhs, k) => {
                    if i < k && k <= s.len() {
                        lemma_bin_tail_mono(
                            s,
                            k,
                            Sp {
                                value: ExprV::Bin(
                                    Box::new(crate::ast::BinExprV { lhs, op: opsp, rhs }),
                                ),
                                span: lhs.span.spec_merge(rhs.span),
                            },
                            p,
                        );
                    }
                },
            }
        },
    }
}

proof fn lemma_postfix_mono(s: Seq<Sp<TokenV>>, i: nat, e: Sp<ExprV>)
    requires
        spans_ordered(s),
    ensures
        (match grammar::postfix(s, i, e) {
            Step::Hit(_, j) => moves_to(i, j, s.len()),
            Step::Miss(m) => moves_to(i, m, s.len()),
            Step::Fail(_) => true,
        }),
    decreases s.len() - i, 7int, 0int,
{
    lemma_exprs_list_mono(s, i, Simple::OpenParen, Simple::CloseParen);
    match grammar::try_exprs_list(s, i, Simple::OpenParen, Simple::CloseParen) {
        Step::Fail(_) => {},
        Step::Hit(args, k) => {
            if i < k && k <= s.len() {
                lemma_postfix_mono(
                    s,
                    k,
                    Sp {
                        value: ExprV::Call(Box::new(crate::ast::CallV { expr: e, args: args.value })),
                        span: e.span.spec_merge(args.span),
                    },
                );
            }
        },
        Step::Miss(j0) => {
            lemma_skip_props(s, j0);
            match grammar::try_token(s, j0, TokenV::Simple(Simple::Period)) {
                Hop::Miss(_) => {},
                Hop::Hit(_, j1) => {
                    lemma_skip_props(s, j1);
                    match grammar::ident(s, j1) {
                        Need::Fail(_) => {},
                        Need::Hit(nm, k) => {
                            if i < k && k <= s.len() {
                                lemma_postfix_mono(
                                    s,
                                    k,
                                    Sp {
                                        value: ExprV::Access(
                                            Box::new(
                                                crate::ast::AccessV {
                                                    expr: e,
                                                    accessor: Sp {
                                                        value: crate::ast::AccessorV::Field(nm.value),
                                                        span: nm.span,
                                                    },
                                                },
                                            ),
                                        ),
                                        span: e.span.spec_merge(nm.span),
                                    },
                                );
                            }
                        },
                    }
                },
            }
        },
    }
}

proof fn lemma_ca_mono(s: Seq<Sp<TokenV>>, i: nat)
    requires
        spans_ordered(s),
    ensures
        (match grammar::try_call_access(s, i) {
            Step::Hit(_, j) => moves_to(i, j, s.len()),
            Step::Miss(m) => moves_to(i, m, s.len()),
            Step::Fail(_) => true,
        }),
    decreases s.len() - i, 8int, 0int,
{
    lemma_term_mono(s, i);
    match grammar::try_term(s, i) {
        Step::Fail(_) => {},
        Step::Miss(_) => {},
        Step::Hit(e, j) => {
            if i < j && j <= s.len() {
                lemma_postfix_mono(s, j, e);
            }
        },
    }
}

proof fn lemma_un_mono(s: Seq<Sp<TokenV>>, i: nat)
    requires
        spans_ordered(s),
    ensures
        (match grammar::try_un(s, i) {
            Step::Hit(_, j) => moves_to(i, j, s.len()),
            Step::Miss(m) => moves_to(i, m, s.len()),
            Step::Fail(_) => true,
        }),
    decreases s.len() - i, 9int, 0int,
{
    lemma_skip_props(s, i);
    match grammar::try_un_op(s, i) {
        Hop::Hit(_, j) => {
            lemma_un_mono(s, j);
        },
        Hop::Miss(j0) => {
            lemma_ca_mono(s, grammar::at_or_after(i, j0, s.len()));
        },
    }
}

proof fn lemma_bin_mono(s: Seq<Sp<TokenV>>, i: nat, p: Prec)
    requires
        spans_ordered(s),
    ensures
        (match grammar::try_bin(s, i, p) {
            Step::Hit(_, j) => moves_to(i, j, s.len()),
            Step::Miss(m) => moves_to(i, m, s.len()),
            Step::Fail(_) => true,
        }),
    decreases s.len() - i, 10int, tier_level(p),
{
    match grammar::tier_child(p) {
        Some(c) => {
            lemma_bin_mono(s, i, c);
        },
        None => {
            lemma_un_mono(s, i);
        },
    }
    let first = match grammar::tier_child(p) {
        Some(c) => grammar::try_bin(s, i, c),
        None => grammar::try_un(s, i),
    };
    match first {
        Step::Fail(_) => {},
        Step::Miss(_) => {},
        Step::Hit(lhs, j) => {
            if i < j && j <= s.len() {
                lemma_bin_tail_mono(s, j, lhs, p);
            }
        },
    }
}

proof fn lemma_expr_mono(s: Seq<Sp<TokenV>>, i: nat)
    requires
        spans_ordered(s),
    ensures
        (match grammar::try_expr(s, i) {
            Step::Hit(_, j) => moves_to(i, j, s.len()),
            Step::Miss(m) => moves_to(i, m, s.len()),
            Step::Fail(_) => true,
        }),
    decreases s.len() - i, 11int, 0int,
{
    lemma_bin_mono(s, i, Prec::Or);
    match grammar::try_bin(s, i, Prec::Or) {
        Step::Fail(_) => {},
        Step::Miss(_) => {},
        Step::Hit(lhs, j) => {
            lemma_skip_props(s, j);
            match grammar::try_assign_op(s, j) {
                Hop::Miss(_) => {},
                Hop::Hit(_, k) => {
                    if i < k && k <= s.len() {
                        lemma_expr_need_mono(s, k);
                    }
                },
            }
        },
    }
}

proof fn lemma_expr_need_mono(s: Seq<Sp<TokenV>>, i: nat)
    requires
        spans_ordered(s),
    ensures
        (match grammar::expr(s, i) {
            Need::Hit(_, j) => moves_to(i, j, s.len()),
            Need::Fail(_) => true,
        }),
    decreases s.len() - i, 12int, 0int,
{
    lemma_expr_mono(s, i);
}

proof fn lemma_exprs_items_mono(s: Seq<Sp<TokenV>>, i: nat)
    requires
        spans_ordered(s),
    ensures
        (match grammar::exprs_items(s, i) {
            Need::Hit(_, k) => moves_to(i, k, s.len()),
            Need::Fail(_) => true,
        }),
    decreases s.len() - i, 13int, 0int,
{
    lemma_expr_mono(s, i);
    match grammar::try_expr(s, i) {
        Step::Fail(_) => {},
        Step::Miss(_) => {},
        Step::Hit(_, j) => {
            lemma_skip_props(s, j);
            match grammar::try_token(s, j, TokenV::Simple(Simple::Comma)) {
                Hop::Miss(_) => {},
                Hop::Hit(_, k) => {
                    if i < k && k <= s.len() {
                        lemma_exprs_items_mono(s, k);
                    }
                },
            }
        },
    }
}

proof fn lemma_pattern_need_mono(s: Seq<Sp<TokenV>>, i: nat)
    requires
        spans_ordered(s),
    ensures
        (match grammar::pattern(s, i) {
            Need::Hit(_, j) => moves_to(i, j, s.len()),
            Need::Fail(_) => true,
        }),
    decreases s.len() - i, 2int, 2int,
{
    lemma_skip_props(s, i);
    lemma_pattern_spans(s, i);
}

proof fn lemma_params_list_need_mono(s: Seq<Sp<TokenV>>, i: nat)
    requires
        spans_ordered(s),
    ensures
        (match grammar::params_list(s, i, Simple::OpenParen, Simple::CloseParen) {
            Need::Hit(_, j) => moves_to(i, j, s.len()),
            Need::Fail(_) => true,
        }),
    decreases s.len() - i, 2int, 2int,
{
    lemma_skip_props(s, i);
    lemma_params_list_spans(s, i, Simple::OpenParen, Simple::CloseParen);
}

proof fn lemma_block_need_mono(s: Seq<Sp<TokenV>>, i: nat)
    requires
        spans_ordered(s),
    ensures
        (match grammar::block(s, i) {
            Need::Hit(_, j) => moves_to(i, j, s.len()),
            Need::Fail(_) => true,
        }),
    decreases s.len() - i, 18int, 0int,
{
    lemma_block_try_mono(s, i);
}

proof fn lemma_fd_mono(s: Seq<Sp<TokenV>>, i: nat)
    requires
        spans_ordered(s),
    ensures
        (match grammar::try_function_def(s, i) {
            Step::Hit(_, j) => moves_to(i, j, s.len()),
            Step::Miss(m) => moves_to(i, m, s.len()),
            Step::Fail(_) => true,
        }),
    decreases s.len() - i, 14int, 0int,
{
    lemma_doc_mono(s, i);
    let j0 = grammar::doc_comment(s, i).1;
    lemma_skip_props(s, j0);
    match grammar::try_token(s, j0, TokenV::Keyword(Keyword::Fn)) {
        Hop::Miss(_) => {},
        Hop::Hit(_, j1) => {
            lemma_skip_props(s, j1);
            match grammar::ident(s, j1) {
                Need::Fail(_) => {},
                Need::Hit(_, j2) => {
                    if i < j2 && j2 <= s.len() {
                        lemma_params_list_need_mono(s, j2);
                        match grammar::params_list(s, j2, Simple::OpenParen, Simple::CloseParen) {
                            Need::Fail(_) => {},
                            Need::Hit(_, j3) => {
                                if i < j3 && j3 <= s.len() {
                                    lemma_block_need_mono(s, j3);
                                }
                            },
                        }
                    }
                },
            }
        },
    }
}

proof fn lemma_binding_mono(s: Seq<Sp<TokenV>>, i: nat)
    requires
        spans_ordered(s),
    ensures
        (match grammar::try_binding(s, i) {
            Step::Hit(_, j) => moves_to(i, j, s.len()),
            Step::Miss(m) => moves_to(i, m, s.len()),
            Step::Fail(_) => true,
        }),
    decreases s.len() - i, 15int, 0int,
{
    lemma_skip_props(s, i);
    match grammar::try_token(s, i, TokenV::Keyword(Keyword::Let)) {
        Hop::Miss(_) => {},
        Hop::Hit(_, j1) => {
            lemma_pattern_need_mono(s, j1);
            match grammar::pattern(s, j1) {
                Need::Fail(_) => {},
                Need::Hit(_, j2) => {
                    lemma_skip_props(s, j2);
                    match grammar::expect(s, j2, Simple::Equals) {
                        Need::Fail(_) => {},
                        Need::Hit(_, j3) => {
                            if i < j3 && j3 <= s.len() {
                                lemma_expr_need_mono(s, j3);
                                match grammar::expr(s, j3) {
                                    Need::Fail(_) => {},
                                    Need::Hit(_, j4) => {
                                        lemma_skip_props(s, j4);
                                    },
                                }
                            }
                        },
                    }
                },
            }
        },
    }
}

proof fn lemma_item_mono(s: Seq<Sp<TokenV>>, i: nat)
    requires
        spans_ordered(s),
    ensures
        (match grammar::try_item(s, i) {
            Step::Hit(_, j) => moves_to(i, j, s.len()),
            Step::Miss(m) => moves_to(i, m, s.len()),
            Step::Fail(_) => true,
        }),
    decreases s.len() - i, 16int, 0int,
{
    lemma_fd_mono(s, i);
    match grammar::try_function_def(s, i) {
        Step::Fail(_) => {},
        Step::Hit(_, _) => {},
        Step::Miss(j1) => {
            let b1 = grammar::at_or_after(i, j1, s.len());
            lemma_binding_mono(s, b1);
            match grammar::try_binding(s, b1) {
                Step::Fail(_) => {},
                Step::Hit(_, _) => {},
                Step::Miss(j2) => {
                    let b2 = grammar::at_or_after(i, j2, s.len());
                    lemma_expr_mono(s, b2);
                    match grammar::try_expr(s, b2) {
                        Step::Fail(_) => {},
                        Step::Miss(_) => {},
                        Step::Hit(_, j) => {
                            lemma_skip_props(s, j);
                        },
                    }
                },
            }
        },
    }
}

/// Every item production and the item loop keep the cursor moving
/// forwards within bounds.
pub proof fn lemma_items_mono(s: Seq<Sp<TokenV>>, i: nat)
    requires
        spans_ordered(s),
    ensures
        (match grammar::items(s, i) {
            Need::Hit(_, k) => moves_to(i, k, s.len()),
            Need::Fail(_) => true,
        }),
    decreases s.len() - i, 17int, 0int,
{
    lemma_item_mono(s, i);
    match grammar::try_item(s, i) {
        Step::Fail(_) => {},
        Step::Miss(_) => {},
        Step::Hit(_, j) => {
            if i < j && j <= s.len() {
                lemma_items_mono(s, j);
            }
        },
    }
}

/// Round-trip span coverage for blocks: a parsed block's span runs from
/// the start of its opening brace to the end of its closing one, the
/// first and last tokens consumed.
pub proof fn lemma_block_spans(s: Seq<Sp<TokenV>>, i: nat)
    requires
        spans_ordered(s),
    ensures
        (match grammar::try_block(s, i) {
            Step::Hit(b, j) => skip(s, i) < j <= s.len() && b.span.start == s[skip(
                s,
                i,
            ) as int].span.start && b.span.end == s[j - 1].span.end,
            Step::Miss(m) => m == skip(s, i),
            Step::Fail(_) => true,
        }),
    decreases s.len() - i, 19int, 0int,
{
    lemma_skip_props(s, i);
    let a = skip(s, i);
    match grammar::try_token(s, i, TokenV::Simple(Simple::OpenCurly)) {
        Hop::Miss(_) => {},
        Hop::Hit(osp, j) => {
            lemma_items_mono(s, j);
            match grammar::items(s, j) {
                Need::Fail(_) => {},
                Need::Hit(_, k) => {
                    lemma_skip_props(s, k);
                    match grammar::try_token(s, k, TokenV::Simple(Simple::CloseCurly)) {
                        Hop::Miss(_) => {},
                        Hop::Hit(csp, m) => {
                            let c = skip(s, k);
                            lemma_pos_mono(s, a as int, c as int);
                            assert(osp.spec_merge(csp) == Span {
                                start: s[a as int].span.start,
                                end: s[c as int].span.end,
                            });
                        },
                    }
                },
            }
        },
    }
}

/// Round-trip span coverage for delimited expression lists — call
/// arguments, tuple literals and array literals: the span of the parsed
/// list runs from the start of its opening delimiter to the end of its
/// closing one, the first and last tokens consumed.
#[verifier::rlimit(100)]
#[verifier::spinoff_prover]
pub proof fn lemma_exprs_list_spans(s: Seq<Sp<TokenV>>, i: nat, open: Simple, close: Simple)
    requires
        spans_ordered(s),
    ensures
        (match grammar::try_exprs_list(s, i, open, close) {
            Step::Hit(v, j) => skip(s, i) < j <= s.len() && v.span.start == s[skip(
                s,
                i,
            ) as int].span.start && v.span.end == s[j - 1].span.end,
            Step::Miss(m) => m == skip(s, i),
            Step::Fail(_) => true,
        }),
    decreases s.len() - i, 19int, 1int,
{
    lemma_skip_props(s, i);
    let a = skip(s, i);
    match grammar::try_token(s, i, TokenV::Simple(open)) {
        Hop::Miss(_) => {},
        Hop::Hit(osp, j) => {
            lemma_exprs_items_mono(s, j);
            match grammar::exprs_items(s, j) {
                Need::Fail(_) => {},
                Need::Hit(_, k) => {
                    lemma_skip_props(s, k);
                    match grammar::try_token(s, k, TokenV::Simple(close)) {
                        Hop::Miss(_) => {},
                        Hop::Hit(csp, m) => {
                            let c = skip(s, k);
                            lemma_pos_mono(s, a as int, c as int);
                            assert(osp.spec_merge(csp) == Span {
                                start: s[a as int].span.start,
                                end: s[c as int].span.end,
                            });
                        },
                    }
                },
            }
        },
    }
}

} // verus!

