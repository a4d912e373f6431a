//! Every production reads its stream from the front: what it leaves is a tail
//! of what it was given, and a production that gives a tree has read at least
//! one pull.

use crate::define::ast::Tree;
use crate::define::token::{Keyword, Lexeme};
use crate::front::grammar;
use crate::front::grammar::{Level, Outcome};
use crate::front::lexer;
use crate::front::lexer::Stream;
use vstd::prelude::*;

verus! {

/// `rest` is what is left of `s` after some of its pulls were read from the
/// front: the last pulls of `s`, in their order.
pub open spec fn is_tail_of(rest: Stream, s: Stream) -> bool {
    &&& rest.len() <= s.len()
    &&& forall|i: int| 0 <= i < rest.len() ==> #[trigger] rest[i] == s[i + s.len() - rest.len()]
}

/// `o` has read `s` from the front.
pub open spec fn within<T>(s: Stream, o: Outcome<T>) -> bool {
    is_tail_of(o.rest, s)
}

/// `o` has read `s` from the front, and at least one pull where it gives a
/// value.
pub open spec fn advances<T>(s: Stream, o: Outcome<T>) -> bool {
    &&& is_tail_of(o.rest, s)
    &&& o.result is Ok ==> o.rest.len() < s.len()
}

/// A tail of a tail of `s` is a tail of `s`; so is what is left of a tail of `s`
/// after its next pull.
pub proof fn lemma_tail_of_tail(a: Stream, b: Stream, c: Stream)
    requires
        is_tail_of(a, b) || a == lexer::tail(b),
        is_tail_of(b, c) || b == lexer::tail(c),
    ensures
        is_tail_of(a, c),
{
}

/// A value reads from the front, and reads something where it gives a tree.
pub proof fn lemma_value(s: Stream)
    ensures
        advances(s, grammar::value(s)),
    decreases s.len(), 0nat,
{
    let after = lexer::tail(s);
    match lexer::head(s) {
        Ok(Lexeme::Id(id)) => {
            if grammar::at_char(after, '(') {
                lemma_funcall(id, after);
            }
        },
        Ok(Lexeme::Other(c)) => {
            if c == '(' {
                lemma_expr(after);
            }
        },
        _ => {},
    }
}

/// A unary expression reads from the front, and reads something where it gives a tree.
pub proof fn lemma_unary(s: Stream)
    ensures
        advances(s, grammar::unary(s)),
    decreases s.len(), 1nat,
{
    match lexer::head(s) {
        Ok(Lexeme::Op(_)) => {
            lemma_unary(lexer::tail(s));
        },
        _ => {
            lemma_value(s);
        },
    }
}

/// An operand reads from the front, and reads something where it gives a tree.
pub proof fn lemma_operand(level: Level, s: Stream)
    ensures
        advances(s, grammar::operand(level, s)),
    decreases s.len(), 2 + 2 * level.height(),
{
    match level {
        Level::LOr => lemma_binary(Level::LAnd, s),
        Level::LAnd => lemma_binary(Level::Eq, s),
        Level::Eq => lemma_binary(Level::Rel, s),
        Level::Rel => lemma_binary(Level::Add, s),
        Level::Add => lemma_binary(Level::Mul, s),
        Level::Mul => lemma_unary(s),
    }
}

/// A binary expression reads from the front, and reads something where it gives a tree.
pub proof fn lemma_binary(level: Level, s: Stream)
    ensures
        advances(s, grammar::binary(level, s)),
    decreases s.len(), 3 + 2 * level.height(),
{
    lemma_operand(level, s);
    let lhs = grammar::operand(level, s);
    if let Ok(tree) = lhs.result {
        lemma_binary_rest(level, tree, lhs.rest);
    }
}

/// The operators and operands after a left operand read from the front.
pub proof fn lemma_binary_rest(level: Level, lhs: Tree, s: Stream)
    ensures
        within(s, grammar::binary_rest(level, lhs, s)),
    decreases s.len(), 3 + 2 * level.height(),
{
    if let Some(op) = grammar::at_ops(s, level) {
        let after = lexer::tail(s);
        lemma_operand(level, after);
        let rhs = grammar::operand(level, after);
        if let Ok(tree) = rhs.result {
            lemma_binary_rest(
                level,
                Tree::Binary { op, lhs: Box::new(lhs), rhs: Box::new(tree) },
                rhs.rest,
            );
        }
    }
}

/// An expression reads from the front, and reads something where it gives a tree.
pub proof fn lemma_expr(s: Stream)
    ensures
        advances(s, grammar::expr(s)),
    decreases s.len(), 14nat,
{
    lemma_binary(Level::LOr, s);
}

/// A list of arguments reads from the front, and reads something where it gives trees.
pub proof fn lemma_arguments(s: Stream)
    ensures
        advances(s, grammar::arguments(s)),
    decreases s.len(), 15nat,
{
    lemma_expr(s);
    let first = grammar::expr(s);
    if first.result is Ok && grammar::at_char(first.rest, ',') {
        lemma_arguments(lexer::tail(first.rest));
    }
}

/// A call reads from the front, and reads something where it gives a tree and its
/// stream is not exhausted.
pub proof fn lemma_funcall(id: Seq<char>, s: Stream)
    ensures
        within(s, grammar::funcall(id, s)),
        s.len() > 0 ==> advances(s, grammar::funcall(id, s)),
    decreases s.len(), 16nat,
{
    let after = lexer::tail(s);
    if !grammar::at_char(after, ')') {
        lemma_arguments(after);
    }
}

/// What follows the identifier of a statement reads from the front, and reads
/// something where it gives a tree.
pub proof fn lemma_define_assign(id: Seq<char>, s: Stream)
    ensures
        advances(s, grammar::define_assign(id, s)),
    decreases s.len(), 17nat,
{
    let after = lexer::tail(s);
    if grammar::at_char(after, '(') {
        lemma_funcall(id, after);
    } else {
        lemma_expr(lexer::tail(after));
    }
}

/// A conditional reads from the front, and reads something where it gives a tree.
pub proof fn lemma_if_else(s: Stream)
    ensures
        advances(s, grammar::if_else(s)),
    decreases s.len(), 17nat,
{
    let after_if = lexer::tail(s);
    let cond = grammar::expr(after_if);
    assert(advances(s, cond)) by {
        lemma_expr(after_if);
        lemma_tail_of_tail(cond.rest, after_if, s);
    }
    if cond.result is Ok {
        let then_block = grammar::block(cond.rest);
        assert(advances(s, then_block)) by {
            lemma_block(cond.rest);
            lemma_tail_of_tail(then_block.rest, cond.rest, s);
        }
        if then_block.result is Ok && grammar::at_key(then_block.rest, Keyword::Else) {
            let after_else = lexer::tail(then_block.rest);
            let branch = if grammar::at_key(after_else, Keyword::If) {
                grammar::if_else(after_else)
            } else {
                grammar::block(after_else)
            };
            assert(is_tail_of(after_else, s) && after_else.len() < s.len()) by {
                lemma_tail_of_tail(after_else, then_block.rest, s);
            }
            assert(advances(s, branch)) by {
                if grammar::at_key(after_else, Keyword::If) {
                    lemma_if_else(after_else);
                } else {
                    lemma_block(after_else);
                }
                lemma_tail_of_tail(branch.rest, after_else, s);
            }
        }
    }
}

/// A return statement reads from the front, and reads something where it gives a
/// tree.
pub proof fn lemma_return_stmt(s: Stream)
    ensures
        advances(s, grammar::return_stmt(s)),
    decreases s.len(), 17nat,
{
    lemma_expr(lexer::tail(s));
}

/// A statement reads from the front, and reads something where it gives a tree.
pub proof fn lemma_statement(s: Stream)
    ensures
        advances(s, grammar::statement(s)),
    decreases s.len(), 18nat,
{
    match lexer::head(s) {
        Ok(Lexeme::Id(id)) => lemma_define_assign(id, s),
        Ok(Lexeme::Key(Keyword::If)) => lemma_if_else(s),
        Ok(Lexeme::Key(Keyword::Return)) => lemma_return_stmt(s),
        _ => {},
    }
}

/// A list of statements reads from the front.
pub proof fn lemma_statements(s: Stream)
    ensures
        within(s, grammar::statements(s)),
    decreases s.len(), 19nat,
{
    if !grammar::at_char(s, '}') {
        lemma_statement(s);
        let first = grammar::statement(s);
        if first.result is Ok {
            lemma_statements(first.rest);
        }
    }
}

/// A block reads from the front, and reads something where it gives a tree.
pub proof fn lemma_block(s: Stream)
    ensures
        advances(s, grammar::block(s)),
    decreases s.len(), 20nat,
{
    if grammar::at_char(s, '{') {
        lemma_statements(lexer::tail(s));
    }
}

/// A part of a production that gives a value has read at least one pull: the
/// second condition of `gave` always holds with the first.
pub proof fn lemma_gave(s: Stream)
    ensures
        grammar::gave(grammar::statement(s), s) <==> grammar::statement(s).result is Ok,
        grammar::gave(grammar::expr(s), s) <==> grammar::expr(s).result is Ok,
        grammar::gave(grammar::block(s), s) <==> grammar::block(s).result is Ok,
        forall|level: Level| #[trigger]
            grammar::gave(grammar::operand(level, s), s) <==> grammar::operand(
                level,
                s,
            ).result is Ok,
{
    lemma_statement(s);
    lemma_expr(s);
    lemma_block(s);
    assert forall|level: Level| #[trigger]
        grammar::gave(grammar::operand(level, s), s) <==> grammar::operand(
            level,
            s,
        ).result is Ok by {
        lemma_operand(level, s);
    }
}

} // verus!
