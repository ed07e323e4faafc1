//! The syntax tree the parser constructs, and its mathematical mirror.
//!
//! Every executable node type has a ghost counterpart (suffixed `V`) in
//! which owned strings become character sequences and vectors become
//! sequences; the view functions below relate the two. The parser's
//! contracts speak entirely about the ghost tree.

use vstd::prelude::*;

use crate::span::Sp;

verus! {

/// A unary operator.
#[derive(Clone, Copy, PartialEq, Eq, Structural, Debug)]
pub enum UnOp {
    Neg,
    Not,
}

/// A binary operator.
#[derive(Clone, Copy, PartialEq, Eq, Structural, Debug)]
pub enum BinOp {
    Or,
    And,
    Eq,
    Ne,
    Lt,
    Le,
    Gt,
    Ge,
    Add,
    Sub,
    Mul,
    Div,
}

impl DeepView for UnOp {
    type V = UnOp;

    open spec fn deep_view(&self) -> UnOp {
        *self
    }
}

impl DeepView for BinOp {
    type V = BinOp;

    open spec fn deep_view(&self) -> BinOp {
        *self
    }
}

/// A top-level or block-level item.
#[derive(Debug)]
pub enum Item {
    FunctionDef(FunctionDef),
    Binding(Binding),
    Expr(Sp<Expr>),
}

/// A function definition: optional accumulated documentation, name,
/// parameters, body block.
#[derive(Debug)]
pub struct FunctionDef {
    pub doc: Option<Sp<String>>,
    pub name: Sp<String>,
    pub params: Vec<Param>,
    pub body: Block,
}

/// One `name: type` parameter of a function definition.
#[derive(Debug)]
pub struct Param {
    pub name: Sp<String>,
    pub ty: Sp<Type>,
}

/// A `let`-style declaration: pattern and initializer expression.
#[derive(Debug)]
pub struct Binding {
    pub pattern: Sp<Pattern>,
    pub expr: Sp<Expr>,
}

/// A braced sequence of items, usable as an expression.
#[derive(Debug)]
pub struct Block {
    pub items: Vec<Item>,
}

/// A binding pattern: an identifier or a tuple of sub-patterns.
#[derive(Debug)]
pub enum Pattern {
    Ident(String),
    Tuple(Vec<Sp<Pattern>>),
}

/// A type annotation: named type, array element type, or tuple of types.
#[derive(Debug)]
pub enum Type {
    Ident(String),
    Array(Box<Sp<Type>>),
    Tuple(Vec<Sp<Type>>),
}

/// An expression.
#[derive(Debug)]
pub enum Expr {
    Ident(String),
    Integer(i64),
    Real(String),
    Bool(bool),
    Block(Block),
    Tuple(Vec<Sp<Expr>>),
    Array(Vec<Sp<Expr>>),
    Un(Box<UnExpr>),
    Bin(Box<BinExpr>),
    Call(Box<Call>),
    Access(Box<Access>),
    Assign(Box<Assignment>),
}

/// A unary-prefix expression.
#[derive(Debug)]
pub struct UnExpr {
    pub op: Sp<UnOp>,
    pub expr: Sp<Expr>,
}

/// A binary expression.
#[derive(Debug)]
pub struct BinExpr {
    pub lhs: Sp<Expr>,
    pub op: Sp<BinOp>,
    pub rhs: Sp<Expr>,
}

/// A call: callee expression and argument list.
#[derive(Debug)]
pub struct Call {
    pub expr: Sp<Expr>,
    pub args: Vec<Sp<Expr>>,
}

/// A field access: subject expression and accessor.
#[derive(Debug)]
pub struct Access {
    pub expr: Sp<Expr>,
    pub accessor: Sp<Accessor>,
}

/// What is accessed on the subject of an [`Access`].
#[derive(Debug)]
pub enum Accessor {
    Field(String),
}

/// An assignment: left-hand side, optional compound operator, right-hand
/// side. A compound operator records the arithmetic it implies; plain `=`
/// carries none.
#[derive(Debug)]
pub struct Assignment {
    pub lvalue: Sp<Expr>,
    pub op: Option<Sp<BinOp>>,
    pub expr: Sp<Expr>,
}

// The ghost mirror of the tree.

/// Mathematical value of an [`Item`].
pub enum ItemV {
    FunctionDef(FunctionDefV),
    Binding(BindingV),
    Expr(Sp<ExprV>),
}

/// Mathematical value of a [`FunctionDef`].
pub struct FunctionDefV {
    pub doc: Option<Sp<Seq<char>>>,
    pub name: Sp<Seq<char>>,
    pub params: Seq<ParamV>,
    pub body: BlockV,
}

/// Mathematical value of a [`Param`].
pub struct ParamV {
    pub name: Sp<Seq<char>>,
    pub ty: Sp<TypeV>,
}

/// Mathematical value of a [`Binding`].
pub struct BindingV {
    pub pattern: Sp<PatternV>,
    pub expr: Sp<ExprV>,
}

/// Mathematical value of a [`Block`].
pub struct BlockV {
    pub items: Seq<ItemV>,
}

/// Mathematical value of a [`Pattern`].
pub enum PatternV {
    Ident(Seq<char>),
    Tuple(Seq<Sp<PatternV>>),
}

/// Mathematical value of a [`Type`].
pub enum TypeV {
    Ident(Seq<char>),
    Array(Box<Sp<TypeV>>),
    Tuple(Seq<Sp<TypeV>>),
}

/// Mathematical value of an [`Expr`].
pub enum ExprV {
    Ident(Seq<char>),
    Integer(i64),
    Real(Seq<char>),
    Bool(bool),
    Block(BlockV),
    Tuple(Seq<Sp<ExprV>>),
    Array(Seq<Sp<ExprV>>),
    Un(Box<UnExprV>),
    Bin(Box<BinExprV>),
    Call(Box<CallV>),
    Access(Box<AccessV>),
    Assign(Box<AssignmentV>),
}

/// Mathematical value of a [`UnExpr`].
pub struct UnExprV {
    pub op: Sp<UnOp>,
    pub expr: Sp<ExprV>,
}

/// Mathematical value of a [`BinExpr`].
pub struct BinExprV {
    pub lhs: Sp<ExprV>,
    pub op: Sp<BinOp>,
    pub rhs: Sp<ExprV>,
}

/// Mathematical value of a [`Call`].
pub struct CallV {
    pub expr: Sp<ExprV>,
    pub args: Seq<Sp<ExprV>>,
}

/// Mathematical value of an [`Access`].
pub struct AccessV {
    pub expr: Sp<ExprV>,
    pub accessor: Sp<AccessorV>,
}

/// Mathematical value of an [`Accessor`].
pub enum AccessorV {
    Field(Seq<char>),
}

/// Mathematical value of an [`Assignment`].
pub struct AssignmentV {
    pub lvalue: Sp<ExprV>,
    pub op: Option<Sp<BinOp>>,
    pub expr: Sp<ExprV>,
}

// View functions from the executable tree to its mirror.

pub open spec fn item_v(it: Item) -> ItemV
    decreases it,
{
    match it {
        Item::FunctionDef(fd) => ItemV::FunctionDef(function_def_v(fd)),
        Item::Binding(b) => ItemV::Binding(binding_v(b)),
        Item::Expr(e) => ItemV::Expr(sp_expr_v(e)),
    }
}

pub open spec fn items_v(v: Seq<Item>) -> Seq<ItemV>
    decreases v,
{
    if v.len() == 0 {
        Seq::empty()
    } else {
        seq![item_v(v[0])] + items_v(v.subrange(1, v.len() as int))
    }
}

pub open spec fn function_def_v(fd: FunctionDef) -> FunctionDefV
    decreases fd,
{
    FunctionDefV {
        doc: match fd.doc {
            Option::Some(d) => Option::Some(Sp { value: d.value@, span: d.span }),
            Option::None => Option::None,
        },
        name: Sp { value: fd.name.value@, span: fd.name.span },
        params: params_v(fd.params@),
        body: block_v(fd.body),
    }
}

pub open spec fn param_v(p: Param) -> ParamV
    decreases p,
{
    ParamV {
        name: Sp { value: p.name.value@, span: p.name.span },
        ty: sp_type_v(p.ty),
    }
}

pub open spec fn params_v(v: Seq<Param>) -> Seq<ParamV>
    decreases v,
{
    if v.len() == 0 {
        Seq::empty()
    } else {
        seq![param_v(v[0])] + params_v(v.subrange(1, v.len() as int))
    }
}

pub open spec fn binding_v(b: Binding) -> BindingV
    decreases b,
{
    BindingV { pattern: sp_pattern_v(b.pattern), expr: sp_expr_v(b.expr) }
}

pub open spec fn block_v(b: Block) -> BlockV
    decreases b,
{
    BlockV { items: items_v(b.items@) }
}

pub open spec fn pattern_v(p: Pattern) -> PatternV
    decreases p,
{
    match p {
        Pattern::Ident(n) => PatternV::Ident(n@),
        Pattern::Tuple(ps) => PatternV::Tuple(sp_patterns_v(ps@)),
    }
}

pub open spec fn sp_pattern_v(p: Sp<Pattern>) -> Sp<PatternV>
    decreases p,
{
    Sp { value: pattern_v(p.value), span: p.span }
}

pub open spec fn sp_patterns_v(v: Seq<Sp<Pattern>>) -> Seq<Sp<PatternV>>
    decreases v,
{
    if v.len() == 0 {
        Seq::empty()
    } else {
        seq![sp_pattern_v(v[0])] + sp_patterns_v(v.subrange(1, v.len() as int))
    }
}

pub open spec fn type_v(t: Type) -> TypeV
    decreases t,
{
    match t {
        Type::Ident(n) => TypeV::Ident(n@),
        Type::Array(inner) => TypeV::Array(Box::new(sp_type_v(*inner))),
        Type::Tuple(ts) => TypeV::Tuple(sp_types_v(ts@)),
    }
}

pub open spec fn sp_type_v(t: Sp<Type>) -> Sp<TypeV>
    decreases t,
{
    Sp { value: type_v(t.value), span: t.span }
}

pub open spec fn sp_types_v(v: Seq<Sp<Type>>) -> Seq<Sp<TypeV>>
    decreases v,
{
    if v.len() == 0 {
        Seq::empty()
    } else {
        seq![sp_type_v(v[0])] + sp_types_v(v.subrange(1, v.len() as int))
    }
}

pub open spec fn expr_v(e: Expr) -> ExprV
    decreases e,
{
    match e {
        Expr::Ident(n) => ExprV::Ident(n@),
        Expr::Integer(i) => ExprV::Integer(i),
        Expr::Real(r) => ExprV::Real(r@),
        Expr::Bool(b) => ExprV::Bool(b),
        Expr::Block(b) => ExprV::Block(block_v(b)),
        Expr::Tuple(es) => ExprV::Tuple(sp_exprs_v(es@)),
        Expr::Array(es) => ExprV::Array(sp_exprs_v(es@)),
        Expr::Un(u) => ExprV::Un(
            Box::new(UnExprV { op: u.op, expr: sp_expr_v(u.expr) }),
        ),
        Expr::Bin(b) => ExprV::Bin(
            Box::new(BinExprV { lhs: sp_expr_v(b.lhs), op: b.op, rhs: sp_expr_v(b.rhs) }),
        ),
        Expr::Call(c) => ExprV::Call(
            Box::new(
                CallV { expr: sp_expr_v(c.expr), args: sp_exprs_v(c.args@) },
            ),
        ),
        Expr::Access(a) => ExprV::Access(
            Box::new(
                AccessV {
                    expr: sp_expr_v(a.expr),
                    accessor: Sp {
                        value: match a.accessor.value {
                            Accessor::Field(n) => AccessorV::Field(n@),
                        },
                        span: a.accessor.span,
                    },
                },
            ),
        ),
        Expr::Assign(a) => ExprV::Assign(
            Box::new(
                AssignmentV {
                    lvalue: sp_expr_v(a.lvalue),
                    op: a.op,
                    expr: sp_expr_v(a.expr),
                },
            ),
        ),
    }
}

pub open spec fn sp_expr_v(e: Sp<Expr>) -> Sp<ExprV>
    decreases e,
{
    Sp { value: expr_v(e.value), span: e.span }
}

pub open spec fn sp_exprs_v(v: Seq<Sp<Expr>>) -> Seq<Sp<ExprV>>
    decreases v,
{
    if v.len() == 0 {
        Seq::empty()
    } else {
        seq![sp_expr_v(v[0])] + sp_exprs_v(v.subrange(1, v.len() as int))
    }
}

// Thin trait shims so that generic view machinery (vectors, options,
// spanned wrappers) reaches the view functions above.

impl DeepView for Item {
    type V = ItemV;

    open spec fn deep_view(&self) -> ItemV {
        item_v(*self)
    }
}

impl DeepView for FunctionDef {
    type V = FunctionDefV;

    open spec fn deep_view(&self) -> FunctionDefV {
        function_def_v(*self)
    }
}

impl DeepView for Param {
    type V = ParamV;

    open spec fn deep_view(&self) -> ParamV {
        param_v(*self)
    }
}

impl DeepView for Binding {
    type V = BindingV;

    open spec fn deep_view(&self) -> BindingV {
        binding_v(*self)
    }
}

impl DeepView for Block {
    type V = BlockV;

    open spec fn deep_view(&self) -> BlockV {
        block_v(*self)
    }
}

impl DeepView for Pattern {
    type V = PatternV;

    open spec fn deep_view(&self) -> PatternV {
        pattern_v(*self)
    }
}

impl DeepView for Type {
    type V = TypeV;

    open spec fn deep_view(&self) -> TypeV {
        type_v(*self)
    }
}

impl DeepView for Expr {
    type V = ExprV;

    open spec fn deep_view(&self) -> ExprV {
        expr_v(*self)
    }
}

// The recursive sequence views above agree with the pointwise deep view
// of a vector of the same nodes.

pub proof fn lemma_items_v_is_deep(v: Vec<Item>)
    ensures
        items_v(v@) == v.deep_view(),
    decreases v@.len(),
{
    lemma_items_v_pointwise(v@);
    assert(items_v(v@) =~= v.deep_view());
}

pub proof fn lemma_items_v_pointwise(s: Seq<Item>)
    ensures
        items_v(s).len() == s.len(),
        forall|k: int| 0 <= k < s.len() ==> items_v(s)[k] == item_v(s[k]),
    decreases s.len(),
{
    if s.len() > 0 {
        lemma_items_v_pointwise(s.subrange(1, s.len() as int));
    }
}

pub proof fn lemma_params_v_is_deep(v: Vec<Param>)
    ensures
        params_v(v@) == v.deep_view(),
{
    lemma_params_v_pointwise(v@);
    assert(params_v(v@) =~= v.deep_view());
}

pub proof fn lemma_params_v_pointwise(s: Seq<Param>)
    ensures
        params_v(s).len() == s.len(),
        forall|k: int| 0 <= k < s.len() ==> params_v(s)[k] == param_v(s[k]),
    decreases s.len(),
{
    if s.len() > 0 {
        lemma_params_v_pointwise(s.subrange(1, s.len() as int));
    }
}

pub proof fn lemma_sp_patterns_v_is_deep(v: Vec<Sp<Pattern>>)
    ensures
        sp_patterns_v(v@) == v.deep_view(),
{
    lemma_sp_patterns_v_pointwise(v@);
    assert(sp_patterns_v(v@) =~= v.deep_view());
}

pub proof fn lemma_sp_patterns_v_pointwise(s: Seq<Sp<Pattern>>)
    ensures
        sp_patterns_v(s).len() == s.len(),
        forall|k: int| 0 <= k < s.len() ==> sp_patterns_v(s)[k] == sp_pattern_v(s[k]),
    decreases s.len(),
{
    if s.len() > 0 {
        lemma_sp_patterns_v_pointwise(s.subrange(1, s.len() as int));
    }
}

pub proof fn lemma_sp_types_v_is_deep(v: Vec<Sp<Type>>)
    ensures
        sp_types_v(v@) == v.deep_view(),
{
    lemma_sp_types_v_pointwise(v@);
    assert(sp_types_v(v@) =~= v.deep_view());
}

pub proof fn lemma_sp_types_v_pointwise(s: Seq<Sp<Type>>)
    ensures
        sp_types_v(s).len() == s.len(),
        forall|k: int| 0 <= k < s.len() ==> sp_types_v(s)[k] == sp_type_v(s[k]),
    decreases s.len(),
{
    if s.len() > 0 {
        lemma_sp_types_v_pointwise(s.subrange(1, s.len() as int));
    }
}

pub proof fn lemma_sp_exprs_v_is_deep(v: Vec<Sp<Expr>>)
    ensures
        sp_exprs_v(v@) == v.deep_view(),
{
    lemma_sp_exprs_v_pointwise(v@);
    assert(sp_exprs_v(v@) =~= v.deep_view());
}

pub proof fn lemma_sp_exprs_v_pointwise(s: Seq<Sp<Expr>>)
    ensures
        sp_exprs_v(s).len() == s.len(),
        forall|k: int| 0 <= k < s.len() ==> sp_exprs_v(s)[k] == sp_expr_v(s[k]),
    decreases s.len(),
{
    if s.len() > 0 {
        lemma_sp_exprs_v_pointwise(s.subrange(1, s.len() as int));
    }
}

} // verus!
