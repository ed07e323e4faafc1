//! The token vocabulary the parser consumes, and the lexer's opaque error.

use vstd::prelude::*;
use vstd::string::StringExecFns;

verus! {

/// A reserved word.
#[derive(Clone, Copy, PartialEq, Eq, Structural, Debug)]
pub enum Keyword {
    Fn,
    Let,
    Or,
    And,
    Not,
    True,
    False,
}

/// A punctuation or operator token.
#[derive(Clone, Copy, PartialEq, Eq, Structural, Debug)]
pub enum Simple {
    OpenParen,
    CloseParen,
    OpenCurly,
    CloseCurly,
    OpenBracket,
    CloseBracket,
    Comma,
    Period,
    Colon,
    SemiColon,
    Equals,
    PlusEquals,
    MinusEquals,
    StarEquals,
    SlashEquals,
    Equal,
    NotEqual,
    Less,
    LessEqual,
    Greater,
    GreaterEqual,
    Plus,
    Minus,
    Star,
    Slash,
}

/// One token of the lexer's output. Identifier, comment and real-literal
/// payloads are owned strings; a real literal keeps its source text, its
/// numeric interpretation being left to later phases.
#[derive(Debug)]
pub enum Token {
    Keyword(Keyword),
    Simple(Simple),
    Ident(String),
    Integer(i64),
    Real(String),
    Comment(String),
    DocComment(String),
}

/// The mathematical value of a [`Token`].
pub enum TokenV {
    Keyword(Keyword),
    Simple(Simple),
    Ident(Seq<char>),
    Integer(i64),
    Real(Seq<char>),
    Comment(Seq<char>),
    DocComment(Seq<char>),
}

impl DeepView for Token {
    type V = TokenV;

    open spec fn deep_view(&self) -> TokenV {
        match self {
            Token::Keyword(k) => TokenV::Keyword(*k),
            Token::Simple(s) => TokenV::Simple(*s),
            Token::Ident(n) => TokenV::Ident(n@),
            Token::Integer(i) => TokenV::Integer(*i),
            Token::Real(r) => TokenV::Real(r@),
            Token::Comment(c) => TokenV::Comment(c@),
            Token::DocComment(c) => TokenV::DocComment(c@),
        }
    }
}

/// Copies a token, preserving its mathematical value.
pub fn clone_token(t: &Token) -> (r: Token)
    ensures
        r.deep_view() == t.deep_view(),
{
    match t {
        Token::Keyword(k) => Token::Keyword(*k),
        Token::Simple(s) => Token::Simple(*s),
        Token::Ident(n) => Token::Ident(n.clone()),
        Token::Integer(i) => Token::Integer(*i),
        Token::Real(r) => Token::Real(r.clone()),
        Token::Comment(c) => Token::Comment(c.clone()),
        Token::DocComment(c) => Token::DocComment(c.clone()),
    }
}

/// An error reported by the lexer. The parser never inspects it: it is
/// wrapped into the diagnostics unchanged.
#[derive(Debug)]
pub struct LexError {
    pub message: String,
}

impl DeepView for LexError {
    type V = Seq<char>;

    open spec fn deep_view(&self) -> Seq<char> {
        self.message@
    }
}

impl Simple {
    /// The surface form of the token.
    pub open spec fn spec_text(self) -> Seq<char> {
        match self {
            Simple::OpenParen => "("@,
            Simple::CloseParen => ")"@,
            Simple::OpenCurly => "{"@,
            Simple::CloseCurly => "}"@,
            Simple::OpenBracket => "["@,
            Simple::CloseBracket => "]"@,
            Simple::Comma => ","@,
            Simple::Period => "."@,
            Simple::Colon => ":"@,
            Simple::SemiColon => ";"@,
            Simple::Equals => "="@,
            Simple::PlusEquals => "+="@,
            Simple::MinusEquals => "-="@,
            Simple::StarEquals => "*="@,
            Simple::SlashEquals => "/="@,
            Simple::Equal => "=="@,
            Simple::NotEqual => "!="@,
            Simple::Less => "<"@,
            Simple::LessEqual => "<="@,
            Simple::Greater => ">"@,
            Simple::GreaterEqual => ">="@,
            Simple::Plus => "+"@,
            Simple::Minus => "-"@,
            Simple::Star => "*"@,
            Simple::Slash => "/"@,
        }
    }

    /// Renders the surface form of the token.
    pub fn text(self) -> (r: String)
        ensures
            r@ == self.spec_text(),
    {
        match self {
            Simple::OpenParen => String::from_str("("),
            Simple::CloseParen => String::from_str(")"),
            Simple::OpenCurly => String::from_str("{"),
            Simple::CloseCurly => String::from_str("}"),
            Simple::OpenBracket => String::from_str("["),
            Simple::CloseBracket => String::from_str("]"),
            Simple::Comma => String::from_str(","),
            Simple::Period => String::from_str("."),
            Simple::Colon => String::from_str(":"),
            Simple::SemiColon => String::from_str(";"),
            Simple::Equals => String::from_str("="),
            Simple::PlusEquals => String::from_str("+="),
            Simple::MinusEquals => String::from_str("-="),
            Simple::StarEquals => String::from_str("*="),
            Simple::SlashEquals => String::from_str("/="),
            Simple::Equal => String::from_str("=="),
            Simple::NotEqual => String::from_str("!="),
            Simple::Less => String::from_str("<"),
            Simple::LessEqual => String::from_str("<="),
            Simple::Greater => String::from_str(">"),
            Simple::GreaterEqual => String::from_str(">="),
            Simple::Plus => String::from_str("+"),
            Simple::Minus => String::from_str("-"),
            Simple::Star => String::from_str("*"),
            Simple::Slash => String::from_str("/"),
        }
    }
}

impl Keyword {
    /// The surface form of the keyword.
    pub open spec fn spec_text(self) -> Seq<char> {
        match self {
            Keyword::Fn => "fn"@,
            Keyword::Let => "let"@,
            Keyword::Or => "or"@,
            Keyword::And => "and"@,
            Keyword::Not => "not"@,
            Keyword::True => "true"@,
            Keyword::False => "false"@,
        }
    }

    /// Renders the surface form of the keyword.
    pub fn text(self) -> (r: String)
        ensures
            r@ == self.spec_text(),
    {
        match self {
            Keyword::Fn => String::from_str("fn"),
            Keyword::Let => String::from_str("let"),
            Keyword::Or => String::from_str("or"),
            Keyword::And => String::from_str("and"),
            Keyword::Not => String::from_str("not"),
            Keyword::True => String::from_str("true"),
            Keyword::False => String::from_str("false"),
        }
    }
}

/// The readable form a token takes in a diagnostic: the surface form of
/// a keyword or punctuation token, the text of an identifier or real
/// literal, a fixed label otherwise.
pub open spec fn spec_token_text(t: TokenV) -> Seq<char> {
    match t {
        TokenV::Keyword(k) => k.spec_text(),
        TokenV::Simple(s) => s.spec_text(),
        TokenV::Ident(n) => n,
        TokenV::Integer(_) => "integer literal"@,
        TokenV::Real(r) => r,
        TokenV::Comment(_) => "comment"@,
        TokenV::DocComment(_) => "doc comment"@,
    }
}

/// Renders a token for a diagnostic.
pub fn token_text(t: &Token) -> (r: String)
    ensures
        r@ == spec_token_text(t.deep_view()),
{
    match t {
        Token::Keyword(k) => k.text(),
        Token::Simple(s) => s.text(),
        Token::Ident(n) => n.clone(),
        Token::Integer(_) => String::from_str("integer literal"),
        Token::Real(r) => r.clone(),
        Token::Comment(_) => String::from_str("comment"),
        Token::DocComment(_) => String::from_str("doc comment"),
    }
}

} // verus!

