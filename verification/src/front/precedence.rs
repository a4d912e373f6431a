//! How binary operators group: those of one class to the left, and those of a
//! tighter class before those of a looser one.

use crate::define::ast::Tree;
use crate::define::token::{Lexeme, Operator};
use crate::front::grammar;
use crate::front::grammar::{Failure, Level, Outcome};
use crate::front::lexer;
use crate::front::lexer::Stream;
use crate::front::progress;
use vstd::prelude::*;

verus! {

/// The tree of the binary operator `op` on `lhs` and `rhs`.
pub open spec fn join(op: Operator, lhs: Tree, rhs: Tree) -> Tree {
    Tree::Binary { op, lhs: Box::new(lhs), rhs: Box::new(rhs) }
}

/// `o` gives `tree` and leaves `rest`.
pub open spec fn gives(o: Outcome<Tree>, tree: Tree, rest: Stream) -> bool {
    o.result == Ok::<Tree, Failure>(tree) && o.rest == rest
}

/// No operator of a class between `hi` and the looser `lo`, both left out, is
/// the next pull of `s`.
pub open spec fn no_operator_between(s: Stream, hi: Level, lo: Level) -> bool {
    forall|level: Level|
        hi.height() < level.height() < lo.height() ==> #[trigger] grammar::at_ops(s, level)
            is None
}

/// What follows a left operand: where an operator `op` of the class is next,
/// and an operand `rhs` after it, `op` joins the two, and the rest follows
/// their tree.
pub proof fn lemma_operator_joins(level: Level, lhs: Tree, s: Stream, op: Operator, rhs: Tree)
    requires
        grammar::at_ops(s, level) == Some(op),
        grammar::operand(level, lexer::tail(s)).result == Ok::<Tree, Failure>(rhs),
    ensures
        grammar::binary_rest(level, lhs, s) == grammar::binary_rest(
            level,
            join(op, lhs, rhs),
            grammar::operand(level, lexer::tail(s)).rest,
        ),
{
    progress::lemma_operand(level, lexer::tail(s));
}

/// `a op b`, with no operator of the class after it, is the tree of `op` on `a`
/// and `b`.
pub proof fn lemma_one_operator(level: Level, s: Stream, a: Tree, op: Operator, b: Tree)
    requires
        grammar::operand(level, s).result == Ok::<Tree, Failure>(a),
        grammar::at_ops(grammar::operand(level, s).rest, level) == Some(op),
        grammar::operand(level, lexer::tail(grammar::operand(level, s).rest)).result == Ok::<
            Tree,
            Failure,
        >(b),
        grammar::at_ops(
            grammar::operand(level, lexer::tail(grammar::operand(level, s).rest)).rest,
            level,
        ) is None,
    ensures
        gives(
            grammar::binary(level, s),
            join(op, a, b),
            grammar::operand(level, lexer::tail(grammar::operand(level, s).rest)).rest,
        ),
{
    let first = grammar::operand(level, s);
    progress::lemma_operand(level, s);
    lemma_operator_joins(level, a, first.rest, op, b);
}

/// Operators of one class group to the left: `a op1 b op2 c`, with no operator
/// of the class after it, is the tree of `op2` on `a op1 b` and `c`, whatever
/// the two operators.
pub proof fn lemma_left_associative(
    level: Level,
    s: Stream,
    a: Tree,
    op1: Operator,
    b: Tree,
    op2: Operator,
    c: Tree,
)
    requires
        grammar::operand(level, s).result == Ok::<Tree, Failure>(a),
        grammar::at_ops(grammar::operand(level, s).rest, level) == Some(op1),
        ({
            let second = grammar::operand(level, lexer::tail(grammar::operand(level, s).rest));
            &&& second.result == Ok::<Tree, Failure>(b)
            &&& grammar::at_ops(second.rest, level) == Some(op2)
            &&& grammar::operand(level, lexer::tail(second.rest)).result == Ok::<Tree, Failure>(c)
            &&& grammar::at_ops(grammar::operand(level, lexer::tail(second.rest)).rest, level)
                is None
        }),
    ensures
        ({
            let second = grammar::operand(level, lexer::tail(grammar::operand(level, s).rest));
            gives(
                grammar::binary(level, s),
                join(op2, join(op1, a, b), c),
                grammar::operand(level, lexer::tail(second.rest)).rest,
            )
        }),
{
    let first = grammar::operand(level, s);
    let second = grammar::operand(level, lexer::tail(first.rest));
    progress::lemma_operand(level, s);
    lemma_operator_joins(level, a, first.rest, op1, b);
    lemma_operator_joins(level, join(op1, a, b), second.rest, op2, c);
}

/// An operand of a class takes in a whole expression of any tighter class:
/// where an expression of the class `hi` gives a tree, and no operator of a
/// class between `hi` and the looser `lo` follows it, an operand of `lo` is that
/// expression, whatever operators it holds.
pub proof fn lemma_operand_is_tighter_expression(lo: Level, hi: Level, s: Stream)
    requires
        hi.height() < lo.height(),
        grammar::binary(hi, s).result is Ok,
        no_operator_between(grammar::binary(hi, s).rest, hi, lo),
    ensures
        grammar::operand(lo, s) == grammar::binary(hi, s),
    decreases lo.height(),
{
    let next = match lo {
        Level::LOr => Level::LAnd,
        Level::LAnd => Level::Eq,
        Level::Eq => Level::Rel,
        Level::Rel => Level::Add,
        _ => Level::Mul,
    };
    assert(grammar::operand(lo, s) == grammar::binary(next, s));
    if next != hi {
        lemma_operand_is_tighter_expression(next, hi, s);
        progress::lemma_operand(next, s);
        let inner = grammar::operand(next, s);
        assert(grammar::at_ops(inner.rest, next) is None);
        assert(grammar::binary(next, s) == grammar::binary_rest(
            next,
            inner.result->Ok_0,
            inner.rest,
        ));
        assert(grammar::binary(next, s) == inner);
    }
}

/// A tighter class binds first, on the right: where `p` is of the class `lo`
/// and `m` is an expression of the tighter class `hi`, `a p m`, with no operator
/// of `lo` or of a class between the two after it, is the tree of `p` on `a` and
/// the whole of `m`.
pub proof fn lemma_tighter_on_the_right(
    lo: Level,
    hi: Level,
    s: Stream,
    a: Tree,
    p: Operator,
    m: Tree,
)
    requires
        hi.height() < lo.height(),
        grammar::operand(lo, s).result == Ok::<Tree, Failure>(a),
        grammar::at_ops(grammar::operand(lo, s).rest, lo) == Some(p),
        grammar::binary(hi, lexer::tail(grammar::operand(lo, s).rest)).result == Ok::<
            Tree,
            Failure,
        >(m),
        no_operator_between(
            grammar::binary(hi, lexer::tail(grammar::operand(lo, s).rest)).rest,
            hi,
            lo,
        ),
        grammar::at_ops(
            grammar::binary(hi, lexer::tail(grammar::operand(lo, s).rest)).rest,
            lo,
        ) is None,
    ensures
        gives(
            grammar::binary(lo, s),
            join(p, a, m),
            grammar::binary(hi, lexer::tail(grammar::operand(lo, s).rest)).rest,
        ),
{
    let first = grammar::operand(lo, s);
    lemma_operand_is_tighter_expression(lo, hi, lexer::tail(first.rest));
    lemma_one_operator(lo, s, a, p, m);
}

/// A tighter class binds first, on the left: where `m` is an expression of the
/// class `hi`, with no operator of a class between `hi` and the looser `lo`
/// after it, and `p` is of `lo`, `m p c`, with no operator of `lo` after it, is
/// the tree of `p` on the whole of `m` and `c`.
pub proof fn lemma_tighter_on_the_left(
    lo: Level,
    hi: Level,
    s: Stream,
    m: Tree,
    p: Operator,
    c: Tree,
)
    requires
        hi.height() < lo.height(),
        grammar::binary(hi, s).result == Ok::<Tree, Failure>(m),
        no_operator_between(grammar::binary(hi, s).rest, hi, lo),
        grammar::at_ops(grammar::binary(hi, s).rest, lo) == Some(p),
        grammar::operand(lo, lexer::tail(grammar::binary(hi, s).rest)).result == Ok::<
            Tree,
            Failure,
        >(c),
        grammar::at_ops(
            grammar::operand(lo, lexer::tail(grammar::binary(hi, s).rest)).rest,
            lo,
        ) is None,
    ensures
        gives(
            grammar::binary(lo, s),
            join(p, m, c),
            grammar::operand(lo, lexer::tail(grammar::binary(hi, s).rest)).rest,
        ),
{
    lemma_operand_is_tighter_expression(lo, hi, s);
    lemma_one_operator(lo, s, m, p, c);
}

/// A prefix operator binds tighter than every binary operator: it applies to
/// the unary expression after it and to nothing more, so that what follows that
/// expression, a binary operator too, is left in the stream.
pub proof fn lemma_prefix_binds_tightest(s: Stream, op: Operator, a: Tree)
    requires
        lexer::head(s) == Ok::<Lexeme, Seq<char>>(Lexeme::Op(op)),
        op.is_prefix(),
        grammar::unary(lexer::tail(s)).result == Ok::<Tree, Failure>(a),
    ensures
        gives(
            grammar::unary(s),
            Tree::Unary { op, opr: Box::new(a) },
            grammar::unary(lexer::tail(s)).rest,
        ),
        grammar::operand(Level::Mul, s) == grammar::unary(s),
{
}

} // verus!
