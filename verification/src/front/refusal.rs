//! Which streams are refused, and with which message.

use crate::define::ast::Tree;
use crate::define::token::{Lexeme, Operator};
use crate::front::grammar;
use crate::front::grammar::{Failure, Level, Outcome};
use crate::front::lexer;
use crate::front::lexer::Stream;
use crate::front::progress;
use vstd::prelude::*;

verus! {

/// An identifier at the start of a statement must be followed by `(`, `:=` or
/// `=`: where it is not, the statement is refused at what follows it.
pub proof fn lemma_statement_needs_define_or_assign(s: Stream)
    requires
        lexer::head(s) matches Ok(Lexeme::Id(_)),
        !grammar::at_char(lexer::tail(s), '('),
        !grammar::at_op(lexer::tail(s), Operator::Define),
        !grammar::at_op(lexer::tail(s), Operator::Assign),
    ensures
        grammar::statement(s) == grammar::error::<Tree>("expected ':=' or '='"@, lexer::tail(s)),
{
}

/// Only `-` and `!` are prefix operators: where an operand begins with another
/// operator, the whole expression is refused at what follows the operator.
pub proof fn lemma_invalid_unary_operator(s: Stream)
    requires
        lexer::head(s) matches Ok(Lexeme::Op(op)) && !op.is_prefix(),
    ensures
        grammar::unary(s) == grammar::error::<Tree>("invalid unary operator"@, lexer::tail(s)),
        grammar::expr(s) == grammar::error::<Tree>("invalid unary operator"@, lexer::tail(s)),
{
    let refused = grammar::error::<Tree>("invalid unary operator"@, lexer::tail(s));
    assert(grammar::operand(Level::Mul, s) == refused);
    assert(grammar::binary(Level::Mul, s) == refused);
    assert(grammar::operand(Level::Add, s) == refused);
    assert(grammar::binary(Level::Add, s) == refused);
    assert(grammar::operand(Level::Rel, s) == refused);
    assert(grammar::binary(Level::Rel, s) == refused);
    assert(grammar::operand(Level::Eq, s) == refused);
    assert(grammar::binary(Level::Eq, s) == refused);
    assert(grammar::operand(Level::LAnd, s) == refused);
    assert(grammar::binary(Level::LAnd, s) == refused);
    assert(grammar::operand(Level::LOr, s) == refused);
    assert(grammar::binary(Level::LOr, s) == refused);
}

/// An exhausted stream gives the end of the input, which is no error, and is
/// left as it is.
pub proof fn lemma_end_of_input(s: Stream)
    requires
        s.len() == 0,
    ensures
        grammar::next(s).result == Err::<Tree, Failure>(Failure::End),
        grammar::next(s).rest == s,
{
}

/// A lexical error at the start of a top-level unit is passed on with its
/// message, and the stream is left at it.
pub proof fn lemma_lexical_error(s: Stream, message: Seq<char>)
    requires
        lexer::head(s) == Err::<Lexeme, Seq<char>>(message),
    ensures
        grammar::next(s) == grammar::error::<Tree>(message, s),
{
}

/// The messages with which an expression is refused.
pub open spec fn is_expr_message(message: Seq<char>) -> bool {
    ||| message == "invalid value"@
    ||| message == "invalid unary operator"@
    ||| message == grammar::expected_char_message(')')
}

/// `o` gives a value, or is refused as an expression is.
pub open spec fn refused_as_expr<T>(o: Outcome<T>) -> bool {
    o.result matches Err(failure) ==> failure matches Failure::Error(message) && is_expr_message(
        message,
    )
}

/// No expression is refused for a missing `:=` or `=`.
pub proof fn lemma_messages_differ(message: Seq<char>)
    requires
        is_expr_message(message),
    ensures
        message != "expected ':=' or '='"@,
{
    reveal_strlit("invalid value");
    reveal_strlit("invalid unary operator");
    reveal_strlit("expected '");
    reveal_strlit("expected ':=' or '='");
    assert("expected ':=' or '='"@.len() == 20);
    assert(grammar::expected_char_message(')').len() == 12);
}

/// A value is refused as an expression is.
pub proof fn lemma_value(s: Stream)
    ensures
        refused_as_expr(grammar::value(s)),
    decreases s.len(), 0nat,
{
    let after = lexer::tail(s);
    match lexer::head(s) {
        Ok(Lexeme::Id(id)) => {
            if grammar::at_char(after, '(') {
                lemma_funcall(id, after);
            }
        },
        Ok(Lexeme::Other(c)) => {
            if c == '(' {
                lemma_expr(after);
            }
        },
        _ => {},
    }
}

/// A unary expression is refused as an expression is.
pub proof fn lemma_unary(s: Stream)
    ensures
        refused_as_expr(grammar::unary(s)),
    decreases s.len(), 1nat,
{
    match lexer::head(s) {
        Ok(Lexeme::Op(_)) => {
            lemma_unary(lexer::tail(s));
        },
        _ => {
            lemma_value(s);
        },
    }
}

/// An operand is refused as an expression is.
pub proof fn lemma_operand(level: Level, s: Stream)
    ensures
        refused_as_expr(grammar::operand(level, s)),
    decreases s.len(), 2 + 2 * level.height(),
{
    match level {
        Level::LOr => lemma_binary(Level::LAnd, s),
        Level::LAnd => lemma_binary(Level::Eq, s),
        Level::Eq => lemma_binary(Level::Rel, s),
        Level::Rel => lemma_binary(Level::Add, s),
        Level::Add => lemma_binary(Level::Mul, s),
        Level::Mul => lemma_unary(s),
    }
}

/// A binary expression is refused as an expression is.
pub proof fn lemma_binary(level: Level, s: Stream)
    ensures
        refused_as_expr(grammar::binary(level, s)),
    decreases s.len(), 3 + 2 * level.height(),
{
    lemma_operand(level, s);
    progress::lemma_operand(level, s);
    let lhs = grammar::operand(level, s);
    if grammar::gave(lhs, s) {
        lemma_binary_rest(level, lhs.result->Ok_0, lhs.rest);
    }
}

/// The operators and operands after a left operand are refused as an
/// expression is.
pub proof fn lemma_binary_rest(level: Level, lhs: Tree, s: Stream)
    ensures
        refused_as_expr(grammar::binary_rest(level, lhs, s)),
    decreases s.len(), 3 + 2 * level.height(),
{
    if let Some(op) = grammar::at_ops(s, level) {
        let after = lexer::tail(s);
        lemma_operand(level, after);
        progress::lemma_operand(level, after);
        let rhs = grammar::operand(level, after);
        if grammar::gave(rhs, s) {
            lemma_binary_rest(
                level,
                Tree::Binary { op, lhs: Box::new(lhs), rhs: Box::new(rhs.result->Ok_0) },
                rhs.rest,
            );
        }
    }
}

/// An expression is refused with one of three messages.
pub proof fn lemma_expr(s: Stream)
    ensures
        refused_as_expr(grammar::expr(s)),
    decreases s.len(), 14nat,
{
    lemma_binary(Level::LOr, s);
}

/// A list of arguments is refused as an expression is.
pub proof fn lemma_arguments(s: Stream)
    ensures
        refused_as_expr(grammar::arguments(s)),
    decreases s.len(), 15nat,
{
    lemma_expr(s);
    progress::lemma_gave(s);
    let first = grammar::expr(s);
    if grammar::gave(first, s) && grammar::at_char(first.rest, ',') {
        lemma_arguments(lexer::tail(first.rest));
    }
}

/// A call is refused as an expression is.
pub proof fn lemma_funcall(id: Seq<char>, s: Stream)
    ensures
        refused_as_expr(grammar::funcall(id, s)),
    decreases s.len(), 16nat,
{
    let after = lexer::tail(s);
    if !grammar::at_char(after, ')') {
        lemma_arguments(after);
    }
}

/// After the identifier of a statement, a missing `:=` or `=` is reported
/// exactly where none of `(`, `:=` and `=` follows the identifier, be it a
/// token, a lexical error or the end of the input; the statement is then refused
/// at what follows the identifier.
pub proof fn lemma_define_or_assign_exactly(id: Seq<char>, s: Stream)
    ensures
        grammar::define_assign(id, s).result == Err::<Tree, Failure>(
            Failure::Error("expected ':=' or '='"@),
        ) <==> !grammar::at_char(lexer::tail(s), '(') && !grammar::at_op(
            lexer::tail(s),
            Operator::Define,
        ) && !grammar::at_op(lexer::tail(s), Operator::Assign),
        grammar::define_assign(id, s).result == Err::<Tree, Failure>(
            Failure::Error("expected ':=' or '='"@),
        ) ==> grammar::define_assign(id, s).rest == lexer::tail(s),
{
    let after = lexer::tail(s);
    let outcome = grammar::define_assign(id, s);
    if grammar::at_char(after, '(') {
        lemma_funcall(id, after);
        if let Err(Failure::Error(message)) = outcome.result {
            lemma_messages_differ(message);
        }
    } else if grammar::at_op(after, Operator::Define) || grammar::at_op(after, Operator::Assign) {
        lemma_expr(lexer::tail(after));
        if let Err(Failure::Error(message)) = outcome.result {
            lemma_messages_differ(message);
        }
    }
}

} // verus!
