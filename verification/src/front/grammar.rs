//! The grammar of the language, as functions from a token stream to what each
//! production makes of it: a tree or a failure, and the stream that is left.
//!
//! A production reads its stream from the front, one pull at a time. Where it
//! fails it stops at once, and `rest` is the stream at the pull it stopped on.

use crate::define::ast::Tree;
use crate::define::token::{Keyword, Lexeme, Operator};
use crate::front::lexer;
use crate::front::lexer::Stream;
use vstd::prelude::*;

verus! {

/// Why a production gave no value.
pub enum Failure {
    /// The stream was exhausted where a top-level unit would begin.
    End,
    /// A syntax error, or a lexical error of the token source, with its message.
    Error(Seq<char>),
}

/// What a production makes of a stream.
pub struct Outcome<T> {
    /// The value parsed, or why there is none.
    pub result: Result<T, Failure>,
    /// The stream that is left.
    pub rest: Stream,
}

/// The classes of binary operators, from the loosest binding to the tightest.
#[derive(Clone, Copy, Debug, PartialEq, Eq, Structural)]
pub enum Level {
    /// `||`
    LOr,
    /// `&&`
    LAnd,
    /// `==`, `!=`
    Eq,
    /// `<`, `<=`
    Rel,
    /// `+`, `-`
    Add,
    /// `*`, `/`, `%`
    Mul,
}

impl Level {
    /// The binary operators of a class.
    pub open spec fn has(self, op: Operator) -> bool {
        match self {
            Level::LOr => op == Operator::LOr,
            Level::LAnd => op == Operator::LAnd,
            Level::Eq => op == Operator::Eq || op == Operator::NotEq,
            Level::Rel => op == Operator::Less || op == Operator::LessEq,
            Level::Add => op == Operator::Add || op == Operator::Sub,
            Level::Mul => op == Operator::Mul || op == Operator::Div || op == Operator::Mod,
        }
    }

    /// Whether `op` is a binary operator of this class.
    pub fn contains(self, op: Operator) -> (b: bool)
        ensures
            b == self.has(op),
    {
        match self {
            Level::LOr => op == Operator::LOr,
            Level::LAnd => op == Operator::LAnd,
            Level::Eq => op == Operator::Eq || op == Operator::NotEq,
            Level::Rel => op == Operator::Less || op == Operator::LessEq,
            Level::Add => op == Operator::Add || op == Operator::Sub,
            Level::Mul => op == Operator::Mul || op == Operator::Div || op == Operator::Mod,
        }
    }

    /// How many classes bind tighter than this one.
    pub open spec fn height(self) -> nat {
        match self {
            Level::LOr => 5,
            Level::LAnd => 4,
            Level::Eq => 3,
            Level::Rel => 2,
            Level::Add => 1,
            Level::Mul => 0,
        }
    }
}

/// The message of the error for a missing character `c`.
pub open spec fn expected_char_message(c: char) -> Seq<char> {
    "expected '"@.push(c).push('\'')
}

/// A failure with `message`, at `rest`.
pub open spec fn error<T>(message: Seq<char>, rest: Stream) -> Outcome<T> {
    Outcome { result: Err(Failure::Error(message)), rest }
}

/// `o` gave a value. The second condition says nothing more: a part that
/// gives a value has read at least one pull of its stream `s`
/// (`progress::lemma_gave`). It stands here so that a production can go on,
/// by recursion, with what a part of it has left.
pub open spec fn gave<T>(o: Outcome<T>, s: Stream) -> bool {
    o.result is Ok && o.rest.len() < s.len()
}

/// The failure of `o`, as the outcome of the production that `o` is a part of.
pub open spec fn failed<T, U>(o: Outcome<T>) -> Outcome<U> {
    Outcome {
        result: Err(
            match o.result {
                Err(failure) => failure,
                Ok(_) => arbitrary(),
            },
        ),
        rest: o.rest,
    }
}

/// Whether the next pull of `s` is the character `c`.
pub open spec fn at_char(s: Stream, c: char) -> bool {
    lexer::head(s) == Ok::<Lexeme, Seq<char>>(Lexeme::Other(c))
}

/// Whether the next pull of `s` is the operator `op`.
pub open spec fn at_op(s: Stream, op: Operator) -> bool {
    lexer::head(s) == Ok::<Lexeme, Seq<char>>(Lexeme::Op(op))
}

/// Whether the next pull of `s` is the keyword `key`.
pub open spec fn at_key(s: Stream, key: Keyword) -> bool {
    lexer::head(s) == Ok::<Lexeme, Seq<char>>(Lexeme::Key(key))
}

/// The operator of class `level` that is the next pull of `s`, if it is one.
pub open spec fn at_ops(s: Stream, level: Level) -> Option<Operator> {
    match lexer::head(s) {
        Ok(Lexeme::Op(op)) => if level.has(op) {
            Some(op)
        } else {
            None
        },
        _ => None,
    }
}

/// An identifier. A lexical error in its place is passed on with its own
/// message.
pub open spec fn expect_id(s: Stream) -> Outcome<Seq<char>> {
    match lexer::head(s) {
        Ok(Lexeme::Id(id)) => Outcome { result: Ok(id), rest: lexer::tail(s) },
        Ok(_) => error("expected identifier"@, s),
        Err(message) => error(message, s),
    }
}

/// The character `c`.
pub open spec fn expect_char(s: Stream, c: char) -> Outcome<()> {
    if at_char(s, c) {
        Outcome { result: Ok(()), rest: lexer::tail(s) }
    } else {
        error(expected_char_message(c), s)
    }
}

/// The next top-level unit: a function definition, unless the stream is
/// exhausted or its next pull is a lexical error.
pub open spec fn next(s: Stream) -> Outcome<Tree> {
    match lexer::head(s) {
        Ok(Lexeme::End) => Outcome { result: Err(Failure::End), rest: s },
        Ok(_) => fundef(s),
        Err(message) => error(message, s),
    }
}

/// `identifier '(' [identifier (',' identifier)*] ')' block`
pub open spec fn fundef(s: Stream) -> Outcome<Tree> {
    let name = expect_id(s);
    if name.result is Err {
        failed(name)
    } else {
        let open = expect_char(name.rest, '(');
        if open.result is Err {
            failed(open)
        } else {
            let args = if at_char(open.rest, ')') {
                Outcome { result: Ok(Seq::empty()), rest: open.rest }
            } else {
                params(open.rest)
            };
            if args.result is Err {
                failed(args)
            } else {
                let close = expect_char(args.rest, ')');
                if close.result is Err {
                    failed(close)
                } else {
                    let body = block(close.rest);
                    match body.result {
                        Ok(tree) => Outcome {
                            result: Ok(
                                Tree::FunDef {
                                    name: name.result->Ok_0,
                                    args: args.result->Ok_0,
                                    body: Box::new(tree),
                                },
                            ),
                            rest: body.rest,
                        },
                        Err(_) => body,
                    }
                }
            }
        }
    }
}

/// `identifier (',' identifier)*`
pub open spec fn params(s: Stream) -> Outcome<Seq<Seq<char>>>
    decreases s.len(),
{
    let first = expect_id(s);
    match first.result {
        Err(_) => failed(first),
        Ok(id) => if at_char(first.rest, ',') {
            let more = params(lexer::tail(first.rest));
            match more.result {
                Ok(ids) => Outcome { result: Ok(seq![id] + ids), rest: more.rest },
                Err(_) => more,
            }
        } else {
            Outcome { result: Ok(seq![id]), rest: first.rest }
        },
    }
}

/// `'{' statement* '}'`
pub open spec fn block(s: Stream) -> Outcome<Tree>
    decreases s.len(), 20nat,
{
    let open = expect_char(s, '{');
    if open.result is Err {
        failed(open)
    } else {
        let stmts = statements(open.rest);
        match stmts.result {
            Ok(trees) => Outcome {
                result: Ok(Tree::Block { stmts: trees }),
                rest: lexer::tail(stmts.rest),
            },
            Err(_) => failed(stmts),
        }
    }
}

/// `statement*`, up to a `'}'`, which is left in the stream.
pub open spec fn statements(s: Stream) -> Outcome<Seq<Tree>>
    decreases s.len(), 19nat,
{
    if at_char(s, '}') {
        Outcome { result: Ok(Seq::empty()), rest: s }
    } else {
        let first = statement(s);
        if gave(first, s) {
            let more = statements(first.rest);
            match more.result {
                Ok(trees) => Outcome {
                    result: Ok(seq![first.result->Ok_0] + trees),
                    rest: more.rest,
                },
                Err(_) => more,
            }
        } else {
            failed(first)
        }
    }
}

/// A statement, by its first token: an identifier begins a definition, an
/// assignment or a call; `if` a conditional; `return` a return statement.
pub open spec fn statement(s: Stream) -> Outcome<Tree>
    decreases s.len(), 18nat,
{
    match lexer::head(s) {
        Ok(Lexeme::Id(id)) => define_assign(id, s),
        Ok(Lexeme::Key(Keyword::If)) => if_else(s),
        Ok(Lexeme::Key(Keyword::Return)) => return_stmt(s),
        _ => error("invalid statement"@, s),
    }
}

/// What follows the identifier `id` at the start of a statement, `s` being
/// the stream at `id`: the arguments of a call, or `':=' expr`, or `'=' expr`.
pub open spec fn define_assign(id: Seq<char>, s: Stream) -> Outcome<Tree>
    decreases s.len(), 17nat,
{
    let after_id = lexer::tail(s);
    if at_char(after_id, '(') {
        funcall(id, after_id)
    } else if !at_op(after_id, Operator::Define) && !at_op(after_id, Operator::Assign) {
        error("expected ':=' or '='"@, after_id)
    } else {
        let value = expr(lexer::tail(after_id));
        match value.result {
            Ok(tree) => Outcome {
                result: Ok(
                    if at_op(after_id, Operator::Define) {
                        Tree::Define { name: id, expr: Box::new(tree) }
                    } else {
                        Tree::Assign { name: id, expr: Box::new(tree) }
                    },
                ),
                rest: value.rest,
            },
            Err(_) => value,
        }
    }
}

/// `'if' expr block ['else' (conditional | block)]`, `s` being the stream at
/// `'if'`.
pub open spec fn if_else(s: Stream) -> Outcome<Tree>
    decreases s.len(), 17nat,
{
    let cond = expr(lexer::tail(s));
    if !gave(cond, s) {
        failed(cond)
    } else {
        let then_block = block(cond.rest);
        if !gave(then_block, s) {
            failed(then_block)
        } else if !at_key(then_block.rest, Keyword::Else) {
            Outcome {
                result: Ok(
                    Tree::If {
                        cond: Box::new(cond.result->Ok_0),
                        then_block: Box::new(then_block.result->Ok_0),
                        else_then: None,
                    },
                ),
                rest: then_block.rest,
            }
        } else {
            let after_else = lexer::tail(then_block.rest);
            let else_then = if at_key(after_else, Keyword::If) {
                if_else(after_else)
            } else {
                block(after_else)
            };
            match else_then.result {
                Ok(tree) => Outcome {
                    result: Ok(
                        Tree::If {
                            cond: Box::new(cond.result->Ok_0),
                            then_block: Box::new(then_block.result->Ok_0),
                            else_then: Some(Box::new(tree)),
                        },
                    ),
                    rest: else_then.rest,
                },
                Err(_) => else_then,
            }
        }
    }
}

/// `'return' expr`, `s` being the stream at `'return'`.
pub open spec fn return_stmt(s: Stream) -> Outcome<Tree>
    decreases s.len(), 17nat,
{
    let value = expr(lexer::tail(s));
    match value.result {
        Ok(tree) => Outcome { result: Ok(Tree::Return { expr: Box::new(tree) }), rest: value.rest },
        Err(_) => value,
    }
}

/// An expression: the loosest class of binary operators.
pub open spec fn expr(s: Stream) -> Outcome<Tree>
    decreases s.len(), 14nat,
{
    binary(Level::LOr, s)
}

/// An operand of the operators of class `level`: an expression of the next
/// tighter class, or a unary expression where no class is tighter.
pub open spec fn operand(level: Level, s: Stream) -> Outcome<Tree>
    decreases s.len(), 2 + 2 * level.height(),
{
    match level {
        Level::LOr => binary(Level::LAnd, s),
        Level::LAnd => binary(Level::Eq, s),
        Level::Eq => binary(Level::Rel, s),
        Level::Rel => binary(Level::Add, s),
        Level::Add => binary(Level::Mul, s),
        Level::Mul => unary(s),
    }
}

/// `operand (op operand)*` for the operators `op` of class `level`, folded
/// from the left.
pub open spec fn binary(level: Level, s: Stream) -> Outcome<Tree>
    decreases s.len(), 3 + 2 * level.height(),
{
    let lhs = operand(level, s);
    if gave(lhs, s) {
        binary_rest(level, lhs.result->Ok_0, lhs.rest)
    } else {
        failed(lhs)
    }
}

/// `(op operand)*` after the left operand `lhs`: each operator makes the tree
/// so far its left child.
pub open spec fn binary_rest(level: Level, lhs: Tree, s: Stream) -> Outcome<Tree>
    decreases s.len(), 3 + 2 * level.height(),
{
    match at_ops(s, level) {
        None => Outcome { result: Ok(lhs), rest: s },
        Some(op) => {
            let rhs = operand(level, lexer::tail(s));
            if gave(rhs, s) {
                binary_rest(
                    level,
                    Tree::Binary { op, lhs: Box::new(lhs), rhs: Box::new(rhs.result->Ok_0) },
                    rhs.rest,
                )
            } else {
                failed(rhs)
            }
        },
    }
}

/// A value, or a prefix operator and the unary expression that it applies to:
/// a prefix operator binds tighter than every binary operator. Only `-` and `!`
/// are prefix operators.
pub open spec fn unary(s: Stream) -> Outcome<Tree>
    decreases s.len(), 1nat,
{
    match lexer::head(s) {
        Ok(Lexeme::Op(op)) => {
            let after_op = lexer::tail(s);
            if op != Operator::Sub && op != Operator::LNot {
                error("invalid unary operator"@, after_op)
            } else {
                let opr = unary(after_op);
                match opr.result {
                    Ok(tree) => Outcome {
                        result: Ok(Tree::Unary { op, opr: Box::new(tree) }),
                        rest: opr.rest,
                    },
                    Err(_) => opr,
                }
            }
        },
        _ => value(s),
    }
}

/// An integer literal, an identifier, a call, or an expression in parentheses,
/// of which only the expression is kept.
pub open spec fn value(s: Stream) -> Outcome<Tree>
    decreases s.len(), 0nat,
{
    match lexer::head(s) {
        Ok(Lexeme::Int(val)) => Outcome {
            result: Ok(Tree::Int { val }),
            rest: lexer::tail(s),
        },
        Ok(Lexeme::Id(id)) => {
            let after_id = lexer::tail(s);
            if at_char(after_id, '(') {
                funcall(id, after_id)
            } else {
                Outcome { result: Ok(Tree::Id { id }), rest: after_id }
            }
        },
        Ok(Lexeme::Other(c)) => if c == '(' {
            let inner = expr(lexer::tail(s));
            if inner.result is Err {
                inner
            } else {
                let close = expect_char(inner.rest, ')');
                if close.result is Err {
                    failed(close)
                } else {
                    Outcome { result: inner.result, rest: close.rest }
                }
            }
        } else {
            error("invalid value"@, s)
        },
        _ => error("invalid value"@, s),
    }
}

/// `'(' [expr (',' expr)*] ')'` after the name `id` of the function called,
/// `s` being the stream at `'('`.
pub open spec fn funcall(id: Seq<char>, s: Stream) -> Outcome<Tree>
    decreases s.len(), 16nat,
{
    let after_open = lexer::tail(s);
    let args = if at_char(after_open, ')') {
        Outcome { result: Ok(Seq::empty()), rest: after_open }
    } else {
        arguments(after_open)
    };
    if args.result is Err {
        failed(args)
    } else {
        let close = expect_char(args.rest, ')');
        if close.result is Err {
            failed(close)
        } else {
            Outcome { result: Ok(Tree::FunCall { name: id, args: args.result->Ok_0 }), rest: close.rest }
        }
    }
}

/// `expr (',' expr)*`
pub open spec fn arguments(s: Stream) -> Outcome<Seq<Tree>>
    decreases s.len(), 15nat,
{
    let first = expr(s);
    if !gave(first, s) {
        failed(first)
    } else if !at_char(first.rest, ',') {
        Outcome { result: Ok(seq![first.result->Ok_0]), rest: first.rest }
    } else {
        let more = arguments(lexer::tail(first.rest));
        match more.result {
            Ok(trees) => Outcome { result: Ok(seq![first.result->Ok_0] + trees), rest: more.rest },
            Err(_) => more,
        }
    }
}

} // verus!
