use first_step::define::ast::{BinaryAST, FunCallAST, IdAST, IntAST, Node, UnaryAST};
use first_step::define::token::{LexResult, Operator, Token};
use first_step::front::grammar::Level;
use first_step::front::lexer::TokenBuffer;
use first_step::front::parser::{Error, Parser};

fn name(text: &str) -> LexResult {
    Ok(Token::Id(text.to_string()))
}

fn sym(operator: Operator) -> LexResult {
    Ok(Token::Op(operator))
}

fn lit(value: i32) -> LexResult {
    Ok(Token::Int(value))
}

fn punct(c: char) -> LexResult {
    Ok(Token::Other(c))
}

fn over(tokens: Vec<LexResult>) -> Parser<TokenBuffer> {
    Parser::new(TokenBuffer::new(tokens))
}

fn number(val: i32) -> Box<Node> {
    Box::new(Node::Int(IntAST { val }))
}

fn variable(id: &str) -> Box<Node> {
    Box::new(Node::Id(IdAST { id: id.to_string() }))
}

fn binary(op: Operator, lhs: Box<Node>, rhs: Box<Node>) -> Box<Node> {
    Box::new(Node::Binary(BinaryAST { op, lhs, rhs }))
}

fn syntax_error(message: &str) -> Error {
    Error::Error(message.to_string())
}

#[test]
fn subtraction_groups_to_the_left() {
    let mut parser = over(vec![lit(1), sym(Operator::Sub), lit(2), sym(Operator::Sub), lit(3)]);
    let expected = binary(
        Operator::Sub,
        binary(Operator::Sub, number(1), number(2)),
        number(3),
    );
    assert_eq!(parser.parse_expr(), Ok(expected));
    let right = binary(
        Operator::Sub,
        number(1),
        binary(Operator::Sub, number(2), number(3)),
    );
    let mut again = over(vec![lit(1), sym(Operator::Sub), lit(2), sym(Operator::Sub), lit(3)]);
    assert_ne!(again.parse_expr(), Ok(right));
}

#[test]
fn mixed_operators_of_one_class_group_to_the_left() {
    let mut parser = over(vec![
        lit(8),
        sym(Operator::Div),
        lit(4),
        sym(Operator::Mod),
        lit(3),
        sym(Operator::Mul),
        lit(2),
    ]);
    let expected = binary(
        Operator::Mul,
        binary(Operator::Mod, binary(Operator::Div, number(8), number(4)), number(3)),
        number(2),
    );
    assert_eq!(parser.parse_expr(), Ok(expected));
}

#[test]
fn multiplication_is_the_right_child_of_addition() {
    let mut parser = over(vec![lit(1), sym(Operator::Add), lit(2), sym(Operator::Mul), lit(3)]);
    let expected = binary(
        Operator::Add,
        number(1),
        binary(Operator::Mul, number(2), number(3)),
    );
    assert_eq!(parser.parse_expr(), Ok(expected));
}

#[test]
fn multiplication_is_the_left_child_of_addition() {
    let mut parser = over(vec![lit(1), sym(Operator::Mul), lit(2), sym(Operator::Add), lit(3)]);
    let expected = binary(
        Operator::Add,
        binary(Operator::Mul, number(1), number(2)),
        number(3),
    );
    assert_eq!(parser.parse_expr(), Ok(expected));
}

#[test]
fn every_class_binds_tighter_than_the_one_before() {
    // a || b && c == d < e + f * g
    let mut parser = over(vec![
        name("a"),
        sym(Operator::LOr),
        name("b"),
        sym(Operator::LAnd),
        name("c"),
        sym(Operator::Eq),
        name("d"),
        sym(Operator::Less),
        name("e"),
        sym(Operator::Add),
        name("f"),
        sym(Operator::Mul),
        name("g"),
    ]);
    let product = binary(Operator::Mul, variable("f"), variable("g"));
    let sum = binary(Operator::Add, variable("e"), product);
    let relation = binary(Operator::Less, variable("d"), sum);
    let equality = binary(Operator::Eq, variable("c"), relation);
    let conjunction = binary(Operator::LAnd, variable("b"), equality);
    let expected = binary(Operator::LOr, variable("a"), conjunction);
    assert_eq!(parser.parse_expr(), Ok(expected));
}

#[test]
fn parentheses_group_and_leave_no_node() {
    // (1 + 2) * 3
    let mut parser = over(vec![
        punct('('),
        lit(1),
        sym(Operator::Add),
        lit(2),
        punct(')'),
        sym(Operator::Mul),
        lit(3),
    ]);
    let expected = binary(
        Operator::Mul,
        binary(Operator::Add, number(1), number(2)),
        number(3),
    );
    assert_eq!(parser.parse_expr(), Ok(expected));
}

#[test]
fn an_identifier_alone_is_an_identifier() {
    let mut parser = over(vec![name("x")]);
    assert_eq!(parser.parse_expr(), Ok(variable("x")));
}

#[test]
fn an_identifier_with_parentheses_is_a_call() {
    let mut parser = over(vec![name("x"), punct('('), punct(')')]);
    let expected = Box::new(Node::FunCall(FunCallAST { name: "x".to_string(), args: vec![] }));
    assert_eq!(parser.parse_expr(), Ok(expected));
}

#[test]
fn a_call_takes_its_arguments_in_order() {
    let mut parser = over(vec![name("x"), punct('('), lit(1), punct(','), lit(2), punct(')')]);
    let expected = Box::new(Node::FunCall(FunCallAST {
        name: "x".to_string(),
        args: vec![number(1), number(2)],
    }));
    assert_eq!(parser.parse_expr(), Ok(expected));
}

#[test]
fn a_call_without_its_closing_parenthesis_is_refused() {
    let mut parser = over(vec![name("x"), punct('('), lit(1), punct(',')]);
    assert_eq!(parser.parse_expr(), Err(syntax_error("invalid value")));
    let mut parser = over(vec![name("x"), punct('('), lit(1)]);
    assert_eq!(parser.parse_expr(), Err(syntax_error("expected ')'")));
}

fn prefix(op: Operator, opr: Box<Node>) -> Box<Node> {
    Box::new(Node::Unary(UnaryAST { op, opr }))
}

#[test]
fn a_prefix_operator_binds_tighter_than_addition() {
    // -a + b
    let mut parser = over(vec![sym(Operator::Sub), name("a"), sym(Operator::Add), name("b")]);
    let expected = binary(
        Operator::Add,
        prefix(Operator::Sub, variable("a")),
        variable("b"),
    );
    assert_eq!(parser.parse_expr(), Ok(expected));
    let mut parser = over(vec![sym(Operator::LNot), name("a")]);
    assert_eq!(parser.parse_unary(), Ok(prefix(Operator::LNot, variable("a"))));
}

#[test]
fn a_prefix_operator_binds_tighter_than_multiplication() {
    // -x * y
    let mut parser = over(vec![sym(Operator::Sub), name("x"), sym(Operator::Mul), name("y")]);
    assert_eq!(parser.parse_unary(), Ok(prefix(Operator::Sub, variable("x"))));
    assert_eq!(parser.cur_token(), &sym(Operator::Mul));
    let mut parser = over(vec![sym(Operator::Sub), name("x"), sym(Operator::Mul), name("y")]);
    let expected = binary(
        Operator::Mul,
        prefix(Operator::Sub, variable("x")),
        variable("y"),
    );
    assert_eq!(parser.parse_expr(), Ok(expected));
    assert_eq!(parser.cur_token(), &Ok(Token::End));
}

#[test]
fn a_prefix_operator_alone_on_a_value() {
    let mut parser = over(vec![sym(Operator::Sub), name("x")]);
    assert_eq!(parser.parse_unary(), Ok(prefix(Operator::Sub, variable("x"))));
    assert_eq!(parser.cur_token(), &Ok(Token::End));
    let mut parser = over(vec![name("x"), sym(Operator::Sub)]);
    assert_eq!(parser.parse_unary(), Ok(variable("x")));
    assert_eq!(parser.cur_token(), &sym(Operator::Sub));
}

#[test]
fn prefix_operators_nest() {
    // !-x, and 1 - -2
    let mut parser = over(vec![sym(Operator::LNot), sym(Operator::Sub), name("x")]);
    assert_eq!(
        parser.parse_expr(),
        Ok(prefix(Operator::LNot, prefix(Operator::Sub, variable("x"))))
    );
    let mut parser = over(vec![lit(1), sym(Operator::Sub), sym(Operator::Sub), lit(2)]);
    assert_eq!(
        parser.parse_expr(),
        Ok(binary(Operator::Sub, number(1), prefix(Operator::Sub, number(2))))
    );
}

#[test]
fn a_prefix_operator_applies_to_an_expression_in_parentheses() {
    // -(a + b)
    let mut parser = over(vec![
        sym(Operator::Sub),
        punct('('),
        name("a"),
        sym(Operator::Add),
        name("b"),
        punct(')'),
    ]);
    assert_eq!(
        parser.parse_expr(),
        Ok(prefix(Operator::Sub, binary(Operator::Add, variable("a"), variable("b"))))
    );
}

#[test]
fn the_operand_of_a_prefix_operator_may_be_refused() {
    let mut parser = over(vec![sym(Operator::Sub), sym(Operator::Mul), lit(1)]);
    assert_eq!(parser.parse_unary(), Err(syntax_error("invalid unary operator")));
    assert_eq!(parser.cur_token(), &lit(1));
    let mut parser = over(vec![sym(Operator::Sub)]);
    assert_eq!(parser.parse_unary(), Err(syntax_error("invalid value")));
}

#[test]
fn another_operator_in_prefix_position_is_refused() {
    let mut parser = over(vec![sym(Operator::Mul), lit(1)]);
    assert_eq!(parser.parse_expr(), Err(syntax_error("invalid unary operator")));
    assert_eq!(parser.cur_token(), &lit(1));
    let mut parser = over(vec![lit(1), sym(Operator::Add), sym(Operator::Assign), lit(2)]);
    assert_eq!(parser.parse_expr(), Err(syntax_error("invalid unary operator")));
}

#[test]
fn what_is_no_value_is_refused() {
    let mut parser = over(vec![punct('}')]);
    assert_eq!(parser.parse_value(), Err(syntax_error("invalid value")));
    assert_eq!(parser.cur_token(), &punct('}'));
    let mut parser = over(vec![]);
    assert_eq!(parser.parse_expr(), Err(syntax_error("invalid value")));
    let mut parser = over(vec![Err("bad character".to_string())]);
    assert_eq!(parser.parse_expr(), Err(syntax_error("invalid value")));
}

#[test]
fn an_unclosed_parenthesis_is_refused() {
    let mut parser = over(vec![punct('('), lit(1), punct('}')]);
    assert_eq!(parser.parse_expr(), Err(syntax_error("expected ')'")));
}

#[test]
fn an_expression_stops_before_what_is_not_part_of_it() {
    let mut parser = over(vec![lit(1), sym(Operator::Add), lit(2), punct('}'), lit(3)]);
    assert_eq!(
        parser.parse_expr(),
        Ok(binary(Operator::Add, number(1), number(2)))
    );
    assert_eq!(parser.cur_token(), &punct('}'));
}

#[test]
fn each_level_parses_its_own_operators_only() {
    let mut parser = over(vec![lit(1), sym(Operator::Mul), lit(2), sym(Operator::Add), lit(3)]);
    assert_eq!(
        parser.parse_mul_expr(),
        Ok(binary(Operator::Mul, number(1), number(2)))
    );
    assert_eq!(parser.cur_token(), &sym(Operator::Add));
    let mut parser = over(vec![lit(1), sym(Operator::Add), lit(2), sym(Operator::Less), lit(3)]);
    assert_eq!(
        parser.parse_add_expr(),
        Ok(binary(Operator::Add, number(1), number(2)))
    );
    let mut parser = over(vec![lit(1), sym(Operator::LessEq), lit(2), sym(Operator::Eq), lit(3)]);
    assert_eq!(
        parser.parse_rel_expr(),
        Ok(binary(Operator::LessEq, number(1), number(2)))
    );
    let mut parser = over(vec![lit(1), sym(Operator::NotEq), lit(2), sym(Operator::LAnd), lit(3)]);
    assert_eq!(
        parser.parse_eq_expr(),
        Ok(binary(Operator::NotEq, number(1), number(2)))
    );
    let mut parser = over(vec![lit(1), sym(Operator::LAnd), lit(2), sym(Operator::LOr), lit(3)]);
    assert_eq!(
        parser.parse_land_expr(),
        Ok(binary(Operator::LAnd, number(1), number(2)))
    );
    let mut parser = over(vec![lit(1), sym(Operator::LAnd), lit(2), sym(Operator::LOr), lit(3)]);
    assert_eq!(
        parser.parse_binary(Level::LOr),
        Ok(binary(
            Operator::LOr,
            binary(Operator::LAnd, number(1), number(2)),
            number(3)
        ))
    );
}

#[test]
fn a_class_holds_its_operators_and_no_others() {
    assert!(Level::Mul.contains(Operator::Mod));
    assert!(Level::Add.contains(Operator::Sub));
    assert!(!Level::Add.contains(Operator::Mul));
    assert!(!Level::LOr.contains(Operator::LNot));
    assert!(!Level::Eq.contains(Operator::Assign));
}
