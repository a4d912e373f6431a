use first_step::define::ast::{
    AssignAST, BinaryAST, BlockAST, DefineAST, FunCallAST, FunDefAST, IdAST, IfAST, IntAST, Node,
    ReturnAST,
};
use first_step::define::token::{Keyword, LexResult, Operator, Token};
use first_step::front::lexer::TokenBuffer;
use first_step::front::parser::{Error, Parser};

fn word(text: &str) -> LexResult {
    Ok(Token::Id(text.to_string()))
}

fn kw(keyword: Keyword) -> LexResult {
    Ok(Token::Key(keyword))
}

fn oper(operator: Operator) -> LexResult {
    Ok(Token::Op(operator))
}

fn digit(value: i32) -> LexResult {
    Ok(Token::Int(value))
}

fn mark(c: char) -> LexResult {
    Ok(Token::Other(c))
}

fn on(tokens: Vec<LexResult>) -> Parser<TokenBuffer> {
    Parser::new(TokenBuffer::new(tokens))
}

fn int_node(val: i32) -> Box<Node> {
    Box::new(Node::Int(IntAST { val }))
}

fn id_node(id: &str) -> Box<Node> {
    Box::new(Node::Id(IdAST { id: id.to_string() }))
}

fn block_node(stmts: Vec<Box<Node>>) -> Box<Node> {
    Box::new(Node::Block(BlockAST { stmts }))
}

fn refused(message: &str) -> Error {
    Error::Error(message.to_string())
}

#[test]
fn function_with_a_conditional_and_a_return() {
    // f(x){ if x == 10 { return x + 11 } }
    let mut parser = on(vec![
        word("f"),
        mark('('),
        word("x"),
        mark(')'),
        mark('{'),
        kw(Keyword::If),
        word("x"),
        oper(Operator::Eq),
        digit(10),
        mark('{'),
        kw(Keyword::Return),
        word("x"),
        oper(Operator::Add),
        digit(11),
        mark('}'),
        mark('}'),
    ]);
    let returned = Box::new(Node::Return(ReturnAST {
        expr: Box::new(Node::Binary(BinaryAST {
            op: Operator::Add,
            lhs: id_node("x"),
            rhs: int_node(11),
        })),
    }));
    let conditional = Box::new(Node::If(IfAST {
        cond: Box::new(Node::Binary(BinaryAST {
            op: Operator::Eq,
            lhs: id_node("x"),
            rhs: int_node(10),
        })),
        then_block: block_node(vec![returned]),
        else_then: None,
    }));
    let expected = Box::new(Node::FunDef(FunDefAST {
        name: "f".to_string(),
        args: vec!["x".to_string()],
        body: block_node(vec![conditional]),
    }));
    assert_eq!(parser.parse_next(), Ok(expected));
    assert_eq!(parser.parse_next(), Err(Error::End));
}

#[test]
fn else_if_chains_nest_in_the_else_branch() {
    // if a {} else if b {} else {}
    let mut parser = on(vec![
        kw(Keyword::If),
        word("a"),
        mark('{'),
        mark('}'),
        kw(Keyword::Else),
        kw(Keyword::If),
        word("b"),
        mark('{'),
        mark('}'),
        kw(Keyword::Else),
        mark('{'),
        mark('}'),
    ]);
    let inner = Box::new(Node::If(IfAST {
        cond: id_node("b"),
        then_block: block_node(vec![]),
        else_then: Some(block_node(vec![])),
    }));
    let expected = Box::new(Node::If(IfAST {
        cond: id_node("a"),
        then_block: block_node(vec![]),
        else_then: Some(inner),
    }));
    assert_eq!(parser.parse_statement(), Ok(expected));
    assert_eq!(parser.cur_token(), &Ok(Token::End));
}

#[test]
fn a_conditional_without_else_has_no_else_branch() {
    let mut parser = on(vec![kw(Keyword::If), word("a"), mark('{'), mark('}'), word("b")]);
    let expected = Box::new(Node::If(IfAST {
        cond: id_node("a"),
        then_block: block_node(vec![]),
        else_then: None,
    }));
    assert_eq!(parser.parse_if_else(), Ok(expected));
    assert_eq!(parser.cur_token(), &word("b"));
}

#[test]
fn else_must_be_followed_by_a_conditional_or_a_block() {
    let mut parser = on(vec![
        kw(Keyword::If),
        word("a"),
        mark('{'),
        mark('}'),
        kw(Keyword::Else),
        word("b"),
    ]);
    assert_eq!(parser.parse_statement(), Err(refused("expected '{'")));
}

#[test]
fn define_and_assign_differ_by_their_operator() {
    let mut parser = on(vec![word("x"), oper(Operator::Define), digit(1)]);
    let expected = Box::new(Node::Define(DefineAST { name: "x".to_string(), expr: int_node(1) }));
    assert_eq!(parser.parse_statement(), Ok(expected));
    let mut parser = on(vec![word("x"), oper(Operator::Assign), digit(1)]);
    let expected = Box::new(Node::Assign(AssignAST { name: "x".to_string(), expr: int_node(1) }));
    assert_eq!(parser.parse_statement(), Ok(expected));
}

#[test]
fn a_call_is_a_statement() {
    let mut parser = on(vec![word("f"), mark('('), word("x"), mark(')')]);
    let expected = Box::new(Node::FunCall(FunCallAST {
        name: "f".to_string(),
        args: vec![id_node("x")],
    }));
    assert_eq!(parser.parse_statement(), Ok(expected));
}

#[test]
fn an_identifier_statement_needs_define_or_assign() {
    let mut parser = on(vec![word("x"), digit(1)]);
    assert_eq!(parser.parse_statement(), Err(refused("expected ':=' or '='")));
    assert_eq!(parser.cur_token(), &digit(1));
    let mut parser = on(vec![word("x"), oper(Operator::Eq), digit(1)]);
    assert_eq!(parser.parse_statement(), Err(refused("expected ':=' or '='")));
    let mut parser = on(vec![word("x")]);
    assert_eq!(parser.parse_statement(), Err(refused("expected ':=' or '='")));
    let mut parser = on(vec![digit(1)]);
    assert_eq!(
        parser.parse_define_assign("x".to_string()),
        Err(refused("expected ':=' or '='"))
    );
}

#[test]
fn what_begins_no_statement_is_refused() {
    let mut parser = on(vec![digit(1)]);
    assert_eq!(parser.parse_statement(), Err(refused("invalid statement")));
    assert_eq!(parser.cur_token(), &digit(1));
    let mut parser = on(vec![kw(Keyword::Else)]);
    assert_eq!(parser.parse_statement(), Err(refused("invalid statement")));
    let mut parser = on(vec![]);
    assert_eq!(parser.parse_statement(), Err(refused("invalid statement")));
}

#[test]
fn a_block_keeps_its_statements_in_order() {
    let mut parser = on(vec![
        mark('{'),
        word("x"),
        oper(Operator::Define),
        digit(1),
        word("y"),
        oper(Operator::Assign),
        word("x"),
        kw(Keyword::Return),
        word("y"),
        mark('}'),
        word("z"),
    ]);
    let expected = block_node(vec![
        Box::new(Node::Define(DefineAST { name: "x".to_string(), expr: int_node(1) })),
        Box::new(Node::Assign(AssignAST { name: "y".to_string(), expr: id_node("x") })),
        Box::new(Node::Return(ReturnAST { expr: id_node("y") })),
    ]);
    assert_eq!(parser.parse_block(), Ok(expected));
    assert_eq!(parser.cur_token(), &word("z"));
}

#[test]
fn an_unclosed_block_is_refused() {
    let mut parser = on(vec![mark('{'), kw(Keyword::Return), digit(1)]);
    assert_eq!(parser.parse_block(), Err(refused("invalid statement")));
    let mut parser = on(vec![word("x")]);
    assert_eq!(parser.parse_block(), Err(refused("expected '{'")));
}

#[test]
fn a_return_wraps_its_expression() {
    let mut parser = on(vec![kw(Keyword::Return), digit(7)]);
    assert_eq!(
        parser.parse_return(),
        Ok(Box::new(Node::Return(ReturnAST { expr: int_node(7) })))
    );
    let mut parser = on(vec![kw(Keyword::Return), mark('}')]);
    assert_eq!(parser.parse_statement(), Err(refused("invalid value")));
}

#[test]
fn a_function_takes_its_parameters_in_order() {
    let mut parser = on(vec![
        word("f"),
        mark('('),
        word("a"),
        mark(','),
        word("b"),
        mark(','),
        word("c"),
        mark(')'),
        mark('{'),
        mark('}'),
    ]);
    let expected = Box::new(Node::FunDef(FunDefAST {
        name: "f".to_string(),
        args: vec!["a".to_string(), "b".to_string(), "c".to_string()],
        body: block_node(vec![]),
    }));
    assert_eq!(parser.parse_fundef(), Ok(expected));
    let mut parser = on(vec![word("g"), mark('('), mark(')'), mark('{'), mark('}')]);
    let expected = Box::new(Node::FunDef(FunDefAST {
        name: "g".to_string(),
        args: vec![],
        body: block_node(vec![]),
    }));
    assert_eq!(parser.parse_fundef(), Ok(expected));
}

#[test]
fn a_malformed_function_header_is_refused() {
    let mut parser = on(vec![digit(1)]);
    assert_eq!(parser.parse_next(), Err(refused("expected identifier")));
    let mut parser = on(vec![word("f"), mark('{')]);
    assert_eq!(parser.parse_next(), Err(refused("expected '('")));
    let mut parser = on(vec![word("f"), mark('('), word("a"), mark(','), mark(')')]);
    assert_eq!(parser.parse_next(), Err(refused("expected identifier")));
    let mut parser = on(vec![word("f"), mark('('), word("a"), word("b")]);
    assert_eq!(parser.parse_next(), Err(refused("expected ')'")));
    let mut parser = on(vec![word("f"), mark('('), mark(')')]);
    assert_eq!(parser.parse_next(), Err(refused("expected '{'")));
}

#[test]
fn parse_next_drains_the_stream_unit_by_unit() {
    let mut parser = on(vec![
        word("f"),
        mark('('),
        mark(')'),
        mark('{'),
        mark('}'),
        word("g"),
        mark('('),
        mark(')'),
        mark('{'),
        mark('}'),
    ]);
    assert!(parser.parse_next().is_ok());
    assert!(parser.parse_next().is_ok());
    assert_eq!(parser.parse_next(), Err(Error::End));
    assert_eq!(parser.parse_next(), Err(Error::End));
}

#[test]
fn an_empty_input_is_the_end_and_no_error() {
    let mut parser = on(vec![]);
    assert_eq!(parser.parse_next(), Err(Error::End));
}

#[test]
fn a_lexical_error_is_passed_on_with_its_message() {
    let mut parser = on(vec![Err("unknown character".to_string())]);
    assert_eq!(parser.parse_next(), Err(refused("unknown character")));
}

#[test]
fn the_parser_holds_the_first_token_at_once() {
    let parser = on(vec![word("x"), digit(1)]);
    assert_eq!(parser.cur_token(), &word("x"));
    assert_eq!(parser.cur_token(), &word("x"));
    assert!(parser.is_token_char('x') == false);
    let parser = on(vec![]);
    assert_eq!(parser.cur_token(), &Ok(Token::End));
    let parser = on(vec![Err("bad".to_string())]);
    assert_eq!(parser.cur_token(), &Err("bad".to_string()));
}

#[test]
fn the_lookahead_moves_one_token_at_a_time() {
    let mut parser = on(vec![mark('('), oper(Operator::Add), kw(Keyword::If)]);
    assert!(parser.is_token_char('('));
    assert!(!parser.is_token_char(')'));
    parser.next_token();
    assert!(parser.is_token_op(Operator::Add));
    assert!(!parser.is_token_op(Operator::Sub));
    parser.next_token();
    assert!(parser.is_token_key(Keyword::If));
    assert!(!parser.is_token_key(Keyword::Else));
    parser.next_token();
    assert_eq!(parser.cur_token(), &Ok(Token::End));
    parser.next_token();
    assert_eq!(parser.cur_token(), &Ok(Token::End));
}

#[test]
fn expect_char_names_the_character_that_is_missing() {
    let mut parser = on(vec![mark('(')]);
    assert_eq!(parser.expect_char(')'), Err(refused("expected ')'")));
    assert_eq!(parser.cur_token(), &mark('('));
    assert_eq!(parser.expect_char('('), Ok(()));
    assert_eq!(parser.expect_char('{'), Err(refused("expected '{'")));
}

#[test]
fn expect_id_gives_the_name_and_moves_on() {
    let mut parser = on(vec![word("abc"), mark('(')]);
    assert_eq!(parser.expect_id(), Ok("abc".to_string()));
    assert_eq!(parser.expect_id(), Err(refused("expected identifier")));
    assert_eq!(parser.cur_token(), &mark('('));
}

#[test]
fn a_lexical_error_in_place_of_an_identifier_keeps_its_text() {
    let mut parser = on(vec![Err("stray character".to_string()), word("x")]);
    assert_eq!(parser.expect_id(), Err(refused("stray character")));
    assert_eq!(parser.cur_token(), &Err("stray character".to_string()));
    let mut parser = on(vec![word("f"), mark('('), Err("bad digit".to_string()), mark(')')]);
    assert_eq!(parser.parse_next(), Err(refused("bad digit")));
    let mut parser = on(vec![
        word("f"),
        mark('('),
        word("a"),
        mark(','),
        Err("bad digit".to_string()),
    ]);
    assert_eq!(parser.parse_fundef(), Err(refused("bad digit")));
    let mut parser = on(vec![Err("bad digit".to_string())]);
    assert_eq!(parser.parse_fundef(), Err(refused("bad digit")));
}

#[test]
fn a_lexical_error_elsewhere_gives_the_message_of_its_place() {
    let mut parser = on(vec![Err("bad".to_string())]);
    assert_eq!(parser.expect_char('('), Err(refused("expected '('")));
    let mut parser = on(vec![Err("bad".to_string())]);
    assert_eq!(parser.parse_statement(), Err(refused("invalid statement")));
    let mut parser = on(vec![word("x"), Err("bad".to_string())]);
    assert_eq!(parser.parse_statement(), Err(refused("expected ':=' or '='")));
    assert_eq!(parser.cur_token(), &Err("bad".to_string()));
}

#[test]
fn after_define_or_assign_the_expression_gives_its_own_message() {
    let mut parser = on(vec![word("x"), oper(Operator::Define), mark('}')]);
    assert_eq!(parser.parse_statement(), Err(refused("invalid value")));
    let mut parser = on(vec![word("x"), oper(Operator::Assign), oper(Operator::Mul)]);
    assert_eq!(parser.parse_statement(), Err(refused("invalid unary operator")));
    let mut parser = on(vec![word("x"), mark('('), digit(1)]);
    assert_eq!(parser.parse_statement(), Err(refused("expected ')'")));
}

#[test]
fn get_error_carries_the_message() {
    assert_eq!(
        Parser::<TokenBuffer>::get_error("some message"),
        Err(refused("some message"))
    );
}
