//! Tokens: what a token source hands to the parser.

use vstd::prelude::*;

verus! {

/// Keywords of the language.
#[derive(Clone, Copy, Debug, PartialEq, Eq, Structural)]
pub enum Keyword {
    /// `if`
    If,
    /// `else`
    Else,
    /// `return`
    Return,
}

/// Operators of the language.
#[derive(Clone, Copy, Debug, PartialEq, Eq, Structural)]
pub enum Operator {
    /// `:=`
    Define,
    /// `=`
    Assign,
    /// `||`
    LOr,
    /// `&&`
    LAnd,
    /// `==`
    Eq,
    /// `!=`
    NotEq,
    /// `<`
    Less,
    /// `<=`
    LessEq,
    /// `+`
    Add,
    /// `-`
    Sub,
    /// `*`
    Mul,
    /// `/`
    Div,
    /// `%`
    Mod,
    /// `!`
    LNot,
}

impl Operator {
    /// The prefix operators: negation and logical not.
    pub open spec fn is_prefix(self) -> bool {
        self == Operator::Sub || self == Operator::LNot
    }

    /// The binary operators: all but `:=`, `=` and `!`.
    pub open spec fn is_binary(self) -> bool {
        self != Operator::Define && self != Operator::Assign && self != Operator::LNot
    }
}

/// One token, as a token source produces it.
#[derive(Debug, PartialEq, Eq)]
pub enum Token {
    /// An identifier.
    Id(String),
    /// A keyword.
    Key(Keyword),
    /// An operator.
    Op(Operator),
    /// An integer literal.
    Int(i32),
    /// Any other single character: punctuation.
    Other(char),
    /// The end of the input.
    End,
}

/// The mathematical value of a [`Token`]: names are sequences of characters.
pub enum Lexeme {
    Id(Seq<char>),
    Key(Keyword),
    Op(Operator),
    Int(i32),
    Other(char),
    End,
}

impl View for Token {
    type V = Lexeme;

    open spec fn view(&self) -> Lexeme {
        match self {
            Token::Id(id) => Lexeme::Id(id@),
            Token::Key(key) => Lexeme::Key(*key),
            Token::Op(op) => Lexeme::Op(*op),
            Token::Int(val) => Lexeme::Int(*val),
            Token::Other(c) => Lexeme::Other(*c),
            Token::End => Lexeme::End,
        }
    }
}

impl Clone for Token {
    fn clone(&self) -> (res: Self)
        ensures
            res@ == self@,
    {
        match self {
            Token::Id(id) => Token::Id(id.clone()),
            Token::Key(key) => Token::Key(*key),
            Token::Op(op) => Token::Op(*op),
            Token::Int(val) => Token::Int(*val),
            Token::Other(c) => Token::Other(*c),
            Token::End => Token::End,
        }
    }
}

/// What one pull from a token source gives: a token, or the text of a
/// lexical error.
pub type LexResult = Result<Token, String>;

/// The mathematical value of a [`LexResult`].
pub type Pull = Result<Lexeme, Seq<char>>;

/// The value of one pull.
pub open spec fn pull_view(r: LexResult) -> Pull {
    match r {
        Ok(token) => Ok(token@),
        Err(message) => Err(message@),
    }
}

/// Copies the result of a pull.
pub fn clone_pull(r: &LexResult) -> (res: LexResult)
    ensures
        pull_view(res) == pull_view(*r),
{
    match r {
        Ok(token) => Ok(token.clone()),
        Err(message) => Err(message.clone()),
    }
}

} // verus!
