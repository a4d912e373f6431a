//! What the productions give is well formed: an expression where an
//! expression is parsed, a statement where a statement is, and so on up to the
//! function definition that a top-level unit is. Where a production gives no
//! tree, it gives an error with a message: the end of the input is signalled
//! between top-level units only.

use crate::define::ast::Tree;
use crate::define::token::{Keyword, Lexeme};
use crate::front::grammar;
use crate::front::grammar::{Failure, Level, Outcome};
use crate::front::lexer;
use crate::front::lexer::Stream;
use crate::front::progress;
use vstd::prelude::*;

verus! {

/// `o` gives a well-formed expression, or an error.
pub open spec fn gives_expr(o: Outcome<Tree>) -> bool {
    match o.result {
        Ok(tree) => tree.is_expr(),
        Err(failure) => failure is Error,
    }
}

/// `o` gives well-formed expressions, or an error.
pub open spec fn gives_exprs(o: Outcome<Seq<Tree>>) -> bool {
    match o.result {
        Ok(trees) => forall|i: int| 0 <= i < trees.len() ==> (#[trigger] trees[i]).is_expr(),
        Err(failure) => failure is Error,
    }
}

/// `o` gives a well-formed statement, or an error.
pub open spec fn gives_statement(o: Outcome<Tree>) -> bool {
    match o.result {
        Ok(tree) => tree.is_statement(),
        Err(failure) => failure is Error,
    }
}

/// `o` gives well-formed statements, or an error.
pub open spec fn gives_statements(o: Outcome<Seq<Tree>>) -> bool {
    match o.result {
        Ok(trees) => forall|i: int| 0 <= i < trees.len() ==> (#[trigger] trees[i]).is_statement(),
        Err(failure) => failure is Error,
    }
}

/// `o` gives a well-formed block, or an error.
pub open spec fn gives_block(o: Outcome<Tree>) -> bool {
    match o.result {
        Ok(tree) => tree.is_block(),
        Err(failure) => failure is Error,
    }
}

/// `o` gives a well-formed function definition, or an error.
pub open spec fn gives_fundef(o: Outcome<Tree>) -> bool {
    match o.result {
        Ok(tree) => tree.is_fundef(),
        Err(failure) => failure is Error,
    }
}

/// A value is a well-formed expression.
pub proof fn lemma_value(s: Stream)
    ensures
        gives_expr(grammar::value(s)),
    decreases s.len(), 0nat,
{
    let after = lexer::tail(s);
    match lexer::head(s) {
        Ok(Lexeme::Id(id)) => {
            if grammar::at_char(after, '(') {
                lemma_funcall(id, after);
            }
        },
        Ok(Lexeme::Other(c)) => {
            if c == '(' {
                lemma_expr(after);
            }
        },
        _ => {},
    }
}

/// A unary expression is a well-formed expression.
pub proof fn lemma_unary(s: Stream)
    ensures
        gives_expr(grammar::unary(s)),
    decreases s.len(), 1nat,
{
    match lexer::head(s) {
        Ok(Lexeme::Op(_)) => {
            lemma_unary(lexer::tail(s));
        },
        _ => {
            lemma_value(s);
        },
    }
}

/// An operand is a well-formed expression.
pub proof fn lemma_operand(level: Level, s: Stream)
    ensures
        gives_expr(grammar::operand(level, s)),
    decreases s.len(), 2 + 2 * level.height(),
{
    match level {
        Level::LOr => lemma_binary(Level::LAnd, s),
        Level::LAnd => lemma_binary(Level::Eq, s),
        Level::Eq => lemma_binary(Level::Rel, s),
        Level::Rel => lemma_binary(Level::Add, s),
        Level::Add => lemma_binary(Level::Mul, s),
        Level::Mul => lemma_unary(s),
    }
}

/// A binary expression is a well-formed expression.
pub proof fn lemma_binary(level: Level, s: Stream)
    ensures
        gives_expr(grammar::binary(level, s)),
    decreases s.len(), 3 + 2 * level.height(),
{
    lemma_operand(level, s);
    progress::lemma_operand(level, s);
    let lhs = grammar::operand(level, s);
    if grammar::gave(lhs, s) {
        lemma_binary_rest(level, lhs.result->Ok_0, lhs.rest);
    }
}

/// The operators and operands after a well-formed left operand make a
/// well-formed expression.
pub proof fn lemma_binary_rest(level: Level, lhs: Tree, s: Stream)
    requires
        lhs.is_expr(),
    ensures
        gives_expr(grammar::binary_rest(level, lhs, s)),
    decreases s.len(), 3 + 2 * level.height(),
{
    if let Some(op) = grammar::at_ops(s, level) {
        let after = lexer::tail(s);
        lemma_operand(level, after);
        progress::lemma_operand(level, after);
        let rhs = grammar::operand(level, after);
        if grammar::gave(rhs, s) {
            lemma_binary_rest(
                level,
                Tree::Binary { op, lhs: Box::new(lhs), rhs: Box::new(rhs.result->Ok_0) },
                rhs.rest,
            );
        }
    }
}

/// An expression is a well-formed expression.
pub proof fn lemma_expr(s: Stream)
    ensures
        gives_expr(grammar::expr(s)),
    decreases s.len(), 14nat,
{
    lemma_binary(Level::LOr, s);
}

/// Arguments are well-formed expressions.
pub proof fn lemma_arguments(s: Stream)
    ensures
        gives_exprs(grammar::arguments(s)),
    decreases s.len(), 15nat,
{
    lemma_expr(s);
    progress::lemma_gave(s);
    let first = grammar::expr(s);
    if grammar::gave(first, s) && grammar::at_char(first.rest, ',') {
        lemma_arguments(lexer::tail(first.rest));
    }
}

/// A call is a well-formed expression, and a well-formed statement.
pub proof fn lemma_funcall(id: Seq<char>, s: Stream)
    ensures
        gives_expr(grammar::funcall(id, s)),
        gives_statement(grammar::funcall(id, s)),
    decreases s.len(), 16nat,
{
    let after = lexer::tail(s);
    if !grammar::at_char(after, ')') {
        lemma_arguments(after);
    }
}

/// What follows the identifier of a statement makes a well-formed statement.
pub proof fn lemma_define_assign(id: Seq<char>, s: Stream)
    ensures
        gives_statement(grammar::define_assign(id, s)),
    decreases s.len(), 17nat,
{
    let after = lexer::tail(s);
    if grammar::at_char(after, '(') {
        lemma_funcall(id, after);
    } else {
        lemma_expr(lexer::tail(after));
    }
}

/// A conditional is a well-formed statement, and a conditional.
pub proof fn lemma_if_else(s: Stream)
    ensures
        gives_statement(grammar::if_else(s)),
        grammar::if_else(s).result matches Ok(tree) ==> tree is If,
    decreases s.len(), 17nat,
{
    lemma_expr(lexer::tail(s));
    progress::lemma_expr(lexer::tail(s));
    let cond = grammar::expr(lexer::tail(s));
    if grammar::gave(cond, s) {
        lemma_block(cond.rest);
        progress::lemma_block(cond.rest);
        let then_block = grammar::block(cond.rest);
        if grammar::gave(then_block, s) && grammar::at_key(then_block.rest, Keyword::Else) {
            let after = lexer::tail(then_block.rest);
            if grammar::at_key(after, Keyword::If) {
                lemma_if_else(after);
            } else {
                lemma_block(after);
            }
        }
    }
}

/// A return statement is a well-formed statement.
pub proof fn lemma_return_stmt(s: Stream)
    ensures
        gives_statement(grammar::return_stmt(s)),
    decreases s.len(), 17nat,
{
    lemma_expr(lexer::tail(s));
}

/// A statement is a well-formed statement.
pub proof fn lemma_statement(s: Stream)
    ensures
        gives_statement(grammar::statement(s)),
    decreases s.len(), 18nat,
{
    match lexer::head(s) {
        Ok(Lexeme::Id(id)) => lemma_define_assign(id, s),
        Ok(Lexeme::Key(Keyword::If)) => lemma_if_else(s),
        Ok(Lexeme::Key(Keyword::Return)) => lemma_return_stmt(s),
        _ => {},
    }
}

/// Statements are well-formed statements.
pub proof fn lemma_statements(s: Stream)
    ensures
        gives_statements(grammar::statements(s)),
    decreases s.len(), 19nat,
{
    if !grammar::at_char(s, '}') {
        lemma_statement(s);
        progress::lemma_gave(s);
        let first = grammar::statement(s);
        if grammar::gave(first, s) {
            lemma_statements(first.rest);
        }
    }
}

/// A block is a well-formed block.
pub proof fn lemma_block(s: Stream)
    ensures
        gives_block(grammar::block(s)),
    decreases s.len(), 20nat,
{
    if grammar::at_char(s, '{') {
        lemma_statements(lexer::tail(s));
    }
}

/// Where a list of parameters gives no names, it gives an error.
pub proof fn lemma_params(s: Stream)
    ensures
        grammar::params(s).result matches Err(failure) ==> failure is Error,
    decreases s.len(),
{
    let first = grammar::expect_id(s);
    if first.result is Ok && grammar::at_char(first.rest, ',') {
        lemma_params(lexer::tail(first.rest));
    }
}

/// A function definition is a well-formed function definition.
pub proof fn lemma_fundef(s: Stream)
    ensures
        gives_fundef(grammar::fundef(s)),
{
    let name = grammar::expect_id(s);
    if name.result is Ok {
        let open = grammar::expect_char(name.rest, '(');
        if open.result is Ok {
            let args = if grammar::at_char(open.rest, ')') {
                Outcome { result: Ok(Seq::empty()), rest: open.rest }
            } else {
                grammar::params(open.rest)
            };
            lemma_params(open.rest);
            if args.result is Ok {
                let close = grammar::expect_char(args.rest, ')');
                if close.result is Ok {
                    lemma_block(close.rest);
                }
            }
        }
    }
}

/// Every tree that the parser returns for a top-level unit is a well-formed
/// function definition: none is partly built. It signals the end of the input
/// where the stream is exhausted before the unit, and nowhere else.
pub proof fn lemma_next(s: Stream)
    ensures
        grammar::next(s).result matches Ok(tree) ==> tree.is_fundef(),
        grammar::next(s).result == Err::<Tree, Failure>(Failure::End) <==> lexer::head(s) == Ok::<
            Lexeme,
            Seq<char>,
        >(Lexeme::End),
{
    lemma_fundef(s);
}

} // verus!
