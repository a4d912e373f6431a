use first_step::define::ast::{
    BinaryAST, BlockAST, FunDefAST, IdAST, IfAST, IntAST, Node, ReturnAST,
};
use first_step::define::token::{Keyword, LexResult, Operator, Token};
use first_step::front::lexer::TokenBuffer;
use first_step::front::parser::{Error, Parser};

fn id(name: &str) -> LexResult {
    Ok(Token::Id(name.to_string()))
}

fn key(keyword: Keyword) -> LexResult {
    Ok(Token::Key(keyword))
}

fn op(operator: Operator) -> LexResult {
    Ok(Token::Op(operator))
}

fn num(value: i32) -> LexResult {
    Ok(Token::Int(value))
}

fn ch(c: char) -> LexResult {
    Ok(Token::Other(c))
}

fn parser(tokens: Vec<LexResult>) -> Parser<TokenBuffer> {
    Parser::new(TokenBuffer::new(tokens))
}

#[test]
fn test_parser() {
    // func(x) { if x == 10 { return x + 11 } }
    let mut parser = parser(vec![
        id("func"),
        ch('('),
        id("x"),
        ch(')'),
        ch('{'),
        key(Keyword::If),
        id("x"),
        op(Operator::Eq),
        num(10),
        ch('{'),
        key(Keyword::Return),
        id("x"),
        op(Operator::Add),
        num(11),
        ch('}'),
        ch('}'),
    ]);
    let fundef = parser.parse_next().unwrap();
    let (name, args, body) = match *fundef {
        Node::FunDef(FunDefAST { name, args, body }) => (name, args, body),
        _ => panic!("not a function definition"),
    };
    assert_eq!(name, "func");
    assert_eq!(args, ["x"]);
    let stmts = match *body {
        Node::Block(BlockAST { stmts }) => stmts,
        _ => panic!("not a block"),
    };
    assert_eq!(stmts.len(), 1);
    let (cond, then_block, else_then) = match &*stmts[0] {
        Node::If(IfAST { cond, then_block, else_then }) => (cond, then_block, else_then),
        _ => panic!("not a conditional"),
    };
    let (op, lhs, rhs) = match &**cond {
        Node::Binary(BinaryAST { op, lhs, rhs }) => (op, lhs, rhs),
        _ => panic!("not a binary expression"),
    };
    assert_eq!(*op, Operator::Eq);
    let id = match &**lhs {
        Node::Id(IdAST { id }) => id,
        _ => panic!("not an identifier"),
    };
    assert_eq!(*id, "x");
    let val = match &**rhs {
        Node::Int(IntAST { val }) => val,
        _ => panic!("not an integer"),
    };
    assert_eq!(*val, 10);
    let stmts = match &**then_block {
        Node::Block(BlockAST { stmts }) => stmts,
        _ => panic!("not a block"),
    };
    assert_eq!(stmts.len(), 1);
    let expr = match &*stmts[0] {
        Node::Return(ReturnAST { expr }) => expr,
        _ => panic!("not a return statement"),
    };
    let (op, lhs, rhs) = match &**expr {
        Node::Binary(BinaryAST { op, lhs, rhs }) => (op, lhs, rhs),
        _ => panic!("not a binary expression"),
    };
    assert_eq!(*op, Operator::Add);
    let id = match &**lhs {
        Node::Id(IdAST { id }) => id,
        _ => panic!("not an identifier"),
    };
    assert_eq!(*id, "x");
    let val = match &**rhs {
        Node::Int(IntAST { val }) => val,
        _ => panic!("not an integer"),
    };
    assert_eq!(*val, 11);
    assert!(else_then.is_none());
    assert_eq!(parser.parse_next(), Err(Error::End));
}
