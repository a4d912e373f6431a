//! The parser: recursive descent over the pulls of a token source, with one
//! token of lookahead.

use crate::define::ast;
use crate::define::ast::{
    AssignAST, AstBox, BinaryAST, BlockAST, DefineAST, FunCallAST, FunDefAST, IdAST, IfAST, IntAST,
    Node, ReturnAST, Tree, UnaryAST,
};
use crate::define::token;
use crate::define::token::{clone_pull, Keyword, LexResult, Lexeme, Operator, Token};
use crate::front::grammar;
use crate::front::grammar::{Failure, Level};
use crate::front::lexer;
use crate::front::lexer::{Stream, TokenSource};
use crate::front::progress;
use vstd::prelude::*;

verus! {

/// `String::push` appends `ch` to the end of the string.
pub assume_specification[ String::push ](s: &mut String, ch: char)
    ensures
        final(s)@ == old(s)@.push(ch),
;

/// Error information of `Parser`.
#[derive(Debug, PartialEq, Eq)]
pub enum Error {
    /// End of parsing process
    End,
    /// Parser error
    Error(String),
}

impl View for Error {
    type V = Failure;

    open spec fn view(&self) -> Failure {
        match self {
            Error::End => Failure::End,
            Error::Error(message) => Failure::Error(message@),
        }
    }
}

/// What the parser functions return: a tree, or why there is none.
pub type ParseResult = Result<AstBox, Error>;

/// The value of a [`ParseResult`].
pub open spec fn parsed(result: ParseResult) -> Result<Tree, Failure> {
    match result {
        Ok(node) => Ok(node@),
        Err(error) => Err(error@),
    }
}

/// The value of the result of `Parser::expect_id`.
pub open spec fn parsed_id(result: Result<String, Error>) -> Result<Seq<char>, Failure> {
    match result {
        Ok(id) => Ok(id@),
        Err(error) => Err(error@),
    }
}

/// The value of the result of `Parser::expect_char`.
pub open spec fn parsed_unit(result: Result<(), Error>) -> Result<(), Failure> {
    match result {
        Ok(_) => Ok(()),
        Err(error) => Err(error@),
    }
}

/// `o`, with `items` before the items that it gives.
pub open spec fn after<T>(items: Seq<T>, o: grammar::Outcome<Seq<T>>) -> grammar::Outcome<Seq<T>> {
    grammar::Outcome {
        result: match o.result {
            Ok(more) => Ok(items + more),
            Err(failure) => Err(failure),
        },
        rest: o.rest,
    }
}

/// With no items before them, the items of `o` are as `o` gives them.
pub proof fn lemma_after_nothing<T>(o: grammar::Outcome<Seq<T>>)
    ensures
        after(Seq::<T>::empty(), o) == o,
{
    if let Ok(more) = o.result {
        assert(Seq::<T>::empty() + more == more);
    }
}

/// `items` before `item` and the items of `o` are `items` and `item` before the
/// items of `o`.
pub proof fn lemma_after_one_more<T>(items: Seq<T>, item: T, o: grammar::Outcome<Seq<T>>)
    ensures
        after(items, after(seq![item], o)) == after(items.push(item), o),
        items + seq![item] == items.push(item),
{
    if let Ok(more) = o.result {
        assert(items + (seq![item] + more) == items.push(item) + more);
    }
    assert(items + seq![item] == items.push(item));
}

/// Parser for `first-step` language.
pub struct Parser<T: TokenSource> {
    lexer: T,
    cur_token: LexResult,
}

impl<T: TokenSource> View for Parser<T> {
    type V = Stream;

    /// The stream that the parser has still to read: the token of lookahead,
    /// then what its source has still to give.
    closed spec fn view(&self) -> Stream {
        if token::pull_view(self.cur_token) == Ok::<Lexeme, Seq<char>>(Lexeme::End) {
            Seq::empty()
        } else {
            seq![token::pull_view(self.cur_token)] + self.lexer.remaining()
        }
    }
}

impl<T: TokenSource> Parser<T> {
    /// The parser holds the end of the input only when its source is
    /// exhausted. `new` makes such a parser, and every function keeps it so.
    pub closed spec fn well_formed(&self) -> bool {
        token::pull_view(self.cur_token) == Ok::<Lexeme, Seq<char>>(Lexeme::End)
            ==> self.lexer.remaining().len() == 0
    }

    /// Creates a new `Parser` object from the specific token source. The
    /// parser holds the first token of the source at once.
    pub fn new(lexer: T) -> (parser: Self)
        ensures
            parser.well_formed(),
            parser@ == lexer.remaining(),
    {
        let mut lexer = lexer;
        let cur_token = lexer.next_token();
        Parser { lexer, cur_token }
    }

    /// The token of lookahead: the next that the parser will read.
    pub fn cur_token(&self) -> (token: &LexResult)
        ensures
            token::pull_view(*token) == lexer::head(self@),
    {
        &self.cur_token
    }

    /// Gets the next token: it becomes the token of lookahead.
    pub fn next_token(&mut self)
        requires
            old(self).well_formed(),
        ensures
            final(self).well_formed(),
            final(self)@ == lexer::tail(old(self)@),
    {
        self.cur_token = self.lexer.next_token();
    }

    /// Returns a parser error.
    pub fn get_error(message: &str) -> (result: ParseResult)
        ensures
            parsed(result) == Err::<Tree, Failure>(Failure::Error(message@)),
    {
        Err(Error::Error(message.to_string()))
    }

    /// Expects an identifier from lexer. A lexical error in its place is
    /// returned with its own message.
    pub fn expect_id(&mut self) -> (result: Result<String, Error>)
        requires
            old(self).well_formed(),
        ensures
            final(self).well_formed(),
            parsed_id(result) == grammar::expect_id(old(self)@).result,
            final(self)@ == grammar::expect_id(old(self)@).rest,
    {
        match &self.cur_token {
            Ok(Token::Id(id)) => {
                let id = id.clone();
                self.next_token();
                Ok(id)
            },
            Ok(_) => Err(Error::Error("expected identifier".to_string())),
            Err(message) => Err(Error::Error(message.clone())),
        }
    }

    /// Expects the specific character from lexer.
    pub fn expect_char(&mut self, c: char) -> (result: Result<(), Error>)
        requires
            old(self).well_formed(),
        ensures
            final(self).well_formed(),
            parsed_unit(result) == grammar::expect_char(old(self)@, c).result,
            final(self)@ == grammar::expect_char(old(self)@, c).rest,
    {
        if !self.is_token_char(c) {
            let mut message = "expected '".to_string();
            message.push(c);
            message.push('\'');
            Err(Error::Error(message))
        } else {
            self.next_token();
            Ok(())
        }
    }

    /// Checks if the current token is the specific character.
    pub fn is_token_char(&self, c: char) -> (b: bool)
        ensures
            b == grammar::at_char(self@, c),
    {
        match &self.cur_token {
            Ok(Token::Other(x)) => *x == c,
            _ => false,
        }
    }

    /// Checks if the current token is the specific operator.
    pub fn is_token_op(&self, op: Operator) -> (b: bool)
        ensures
            b == grammar::at_op(self@, op),
    {
        match &self.cur_token {
            Ok(Token::Op(x)) => *x == op,
            _ => false,
        }
    }

    /// Checks if the current token is one of the operators of a class.
    /// Returns the operator if matched.
    pub fn is_token_ops(&self, level: Level) -> (found: Option<Operator>)
        ensures
            found == grammar::at_ops(self@, level),
    {
        match &self.cur_token {
            Ok(Token::Op(op)) => if level.contains(*op) {
                Some(*op)
            } else {
                None
            },
            _ => None,
        }
    }

    /// Checks if the current token is the specific keyword.
    pub fn is_token_key(&self, key: Keyword) -> (b: bool)
        ensures
            b == grammar::at_key(self@, key),
    {
        match &self.cur_token {
            Ok(Token::Key(x)) => *x == key,
            _ => false,
        }
    }

    /// After a call of a parser function: the parser is well formed, and
    /// `result` and the stream that it has still to read are those of `o`.
    pub open spec fn yields(&self, result: ParseResult, o: grammar::Outcome<Tree>) -> bool {
        &&& self.well_formed()
        &&& parsed(result) == o.result
        &&& self@ == o.rest
    }

    /// Parses the next AST.
    pub fn parse_next(&mut self) -> (result: ParseResult)
        requires
            old(self).well_formed(),
        ensures
            final(self).yields(result, grammar::next(old(self)@)),
    {
        match &self.cur_token {
            Ok(Token::End) => Err(Error::End),
            Ok(_) => self.parse_fundef(),
            Err(err) => Err(Error::Error(err.clone())),
        }
    }

    /// Parses function definitions.
    pub fn parse_fundef(&mut self) -> (result: ParseResult)
        requires
            old(self).well_formed(),
        ensures
            final(self).yields(result, grammar::fundef(old(self)@)),
    {
        // get function name
        let name = self.expect_id()?;
        // check & eat '('
        self.expect_char('(')?;
        // get formal arguments
        let mut args: Vec<String> = Vec::new();
        if !self.is_token_char(')') {
            let ghost start = self@;
            proof {
                assert(ast::names_view(args@) == Seq::<Seq<char>>::empty());
                lemma_after_nothing(grammar::params(start));
            }
            loop
                invariant_except_break
                    grammar::params(start) == after(
                        ast::names_view(args@),
                        grammar::params(self@),
                    ),
                    grammar::params(start).result is Err ==> grammar::fundef(old(self)@)
                        == grammar::failed::<Seq<Seq<char>>, Tree>(grammar::params(start)),
                invariant
                    self.well_formed(),
                ensures
                    self.well_formed(),
                    grammar::params(start).result == Ok::<Seq<Seq<char>>, Failure>(
                        ast::names_view(args@),
                    ),
                    grammar::params(start).rest == self@,
                decreases self@.len(),
            {
                let ghost before = self@;
                let ghost ids = ast::names_view(args@);
                // get name of the current argument
                let arg = self.expect_id()?;
                args.push(arg);
                assert(ast::names_view(args@) == ids.push(arg@));
                // eat ','
                if !self.is_token_char(',') {
                    assert(ids + seq![arg@] == ids.push(arg@));
                    break ;
                }
                self.next_token();
                proof {
                    lemma_after_one_more(ids, arg@, grammar::params(self@));
                }
            }
        }
        assert(args@.len() == 0 ==> ast::names_view(args@) == Seq::<Seq<char>>::empty());
        // check & eat ')'
        self.expect_char(')')?;
        // get function body
        match self.parse_block() {
            Ok(body) => Ok(Box::new(Node::FunDef(FunDefAST { name, args, body }))),
            Err(error) => Err(error),
        }
    }

    /// Parses blocks.
    pub fn parse_block(&mut self) -> (result: ParseResult)
        requires
            old(self).well_formed(),
        ensures
            final(self).yields(result, grammar::block(old(self)@)),
        decreases old(self)@.len(), 26nat,
    {
        // check & eat '{'
        self.expect_char('{')?;
        // get statements
        let mut stmts: Vec<AstBox> = Vec::new();
        let ghost start = self@;
        proof {
            assert(ast::trees_view(stmts@) == Seq::<Tree>::empty());
            lemma_after_nothing(grammar::statements(start));
        }
        while !self.is_token_char('}')
            invariant
                self.well_formed(),
                self@.len() < old(self)@.len(),
                grammar::statements(start) == after(
                    ast::trees_view(stmts@),
                    grammar::statements(self@),
                ),
                grammar::statements(start).result is Err ==> grammar::block(old(self)@)
                    == grammar::failed::<Seq<Tree>, Tree>(grammar::statements(start)),
            decreases self@.len(),
        {
            let ghost before = self@;
            let ghost trees = ast::trees_view(stmts@);
            proof {
                progress::lemma_statement(before);
            }
            let stmt = self.parse_statement()?;
            stmts.push(stmt);
            assert(ast::trees_view(stmts@) == trees.push(stmt@));
            proof {
                lemma_after_one_more(trees, stmt@, grammar::statements(self@));
            }
        }
        assert(ast::trees_view(stmts@) + Seq::<Tree>::empty() == ast::trees_view(stmts@));
        // eat '}'
        self.next_token();
        Ok(Box::new(Node::Block(BlockAST { stmts })))
    }

    /// Parses statements.
    pub fn parse_statement(&mut self) -> (result: ParseResult)
        requires
            old(self).well_formed(),
        ensures
            final(self).yields(result, grammar::statement(old(self)@)),
        decreases old(self)@.len(), 24nat,
    {
        match &self.cur_token {
            Ok(Token::Id(id)) => {
                let id = id.clone();
                self.parse_define_assign(id)
            },
            Ok(Token::Key(Keyword::If)) => self.parse_if_else(),
            Ok(Token::Key(Keyword::Return)) => self.parse_return(),
            _ => Self::get_error("invalid statement"),
        }
    }

    /// Parses define/assign statements.
    pub fn parse_define_assign(&mut self, id: String) -> (result: ParseResult)
        requires
            old(self).well_formed(),
        ensures
            final(self).yields(result, grammar::define_assign(id@, old(self)@)),
        decreases old(self)@.len(), 23nat,
    {
        // eat id
        self.next_token();
        // check if is a function call
        if self.is_token_char('(') {
            return self.parse_funcall(id);
        }
        // check if is define/assign
        let is_define = self.is_token_op(Operator::Define);
        if !is_define && !self.is_token_op(Operator::Assign) {
            return Self::get_error("expected ':=' or '='");
        }
        self.next_token();
        // get expression
        match self.parse_expr() {
            Ok(expr) => Ok(
                Box::new(
                    if is_define {
                        Node::Define(DefineAST { name: id, expr })
                    } else {
                        Node::Assign(AssignAST { name: id, expr })
                    },
                ),
            ),
            Err(error) => Err(error),
        }
    }

    /// Parses if-else statements.
    pub fn parse_if_else(&mut self) -> (result: ParseResult)
        requires
            old(self).well_formed(),
        ensures
            final(self).yields(result, grammar::if_else(old(self)@)),
        decreases old(self)@.len(), 23nat,
    {
        // eat 'if'
        self.next_token();
        // get condition
        proof {
            progress::lemma_expr(self@);
        }
        let cond = self.parse_expr()?;
        // get 'then' body
        proof {
            progress::lemma_block(self@);
        }
        let then_block = self.parse_block()?;
        // check & get 'else-then' body
        let else_then = if self.is_token_key(Keyword::Else) {
            // eat 'else'
            self.next_token();
            // parse 'if' or block of 'else'
            let branch = if self.is_token_key(Keyword::If) {
                self.parse_if_else()
            } else {
                self.parse_block()
            };
            Some(branch?)
        } else {
            None
        };
        Ok(Box::new(Node::If(IfAST { cond, then_block, else_then })))
    }

    /// Parses return statements.
    pub fn parse_return(&mut self) -> (result: ParseResult)
        requires
            old(self).well_formed(),
        ensures
            final(self).yields(result, grammar::return_stmt(old(self)@)),
        decreases old(self)@.len(), 23nat,
    {
        // eat 'return'
        self.next_token();
        // get return value
        match self.parse_expr() {
            Ok(expr) => Ok(Box::new(Node::Return(ReturnAST { expr }))),
            Err(error) => Err(error),
        }
    }

    /// Parses expressions.
    pub fn parse_expr(&mut self) -> (result: ParseResult)
        requires
            old(self).well_formed(),
        ensures
            final(self).yields(result, grammar::expr(old(self)@)),
        decreases old(self)@.len(), 20nat,
    {
        self.parse_binary(Level::LOr)
    }

    /// Parses logical AND expressions.
    pub fn parse_land_expr(&mut self) -> (result: ParseResult)
        requires
            old(self).well_formed(),
        ensures
            final(self).yields(result, grammar::binary(Level::LAnd, old(self)@)),
        decreases old(self)@.len(), 17nat,
    {
        self.parse_binary(Level::LAnd)
    }

    /// Parses EQ expressions.
    pub fn parse_eq_expr(&mut self) -> (result: ParseResult)
        requires
            old(self).well_formed(),
        ensures
            final(self).yields(result, grammar::binary(Level::Eq, old(self)@)),
        decreases old(self)@.len(), 14nat,
    {
        self.parse_binary(Level::Eq)
    }

    /// Parses relation expressions.
    pub fn parse_rel_expr(&mut self) -> (result: ParseResult)
        requires
            old(self).well_formed(),
        ensures
            final(self).yields(result, grammar::binary(Level::Rel, old(self)@)),
        decreases old(self)@.len(), 11nat,
    {
        self.parse_binary(Level::Rel)
    }

    /// Parses add/sub expressions.
    pub fn parse_add_expr(&mut self) -> (result: ParseResult)
        requires
            old(self).well_formed(),
        ensures
            final(self).yields(result, grammar::binary(Level::Add, old(self)@)),
        decreases old(self)@.len(), 8nat,
    {
        self.parse_binary(Level::Add)
    }

    /// Parses mul/div/mod expressions.
    pub fn parse_mul_expr(&mut self) -> (result: ParseResult)
        requires
            old(self).well_formed(),
        ensures
            final(self).yields(result, grammar::binary(Level::Mul, old(self)@)),
        decreases old(self)@.len(), 5nat,
    {
        self.parse_binary(Level::Mul)
    }

    /// Parses unary expressions.
    pub fn parse_unary(&mut self) -> (result: ParseResult)
        requires
            old(self).well_formed(),
        ensures
            final(self).yields(result, grammar::unary(old(self)@)),
        decreases old(self)@.len(), 1nat,
    {
        // check if is unary expression
        if let Ok(Token::Op(op)) = &self.cur_token {
            let op = *op;
            self.next_token();
            // check if is a valid unary operator
            match op {
                Operator::Sub | Operator::LNot => (),
                _ => return Self::get_error("invalid unary operator"),
            }
            // get operand
            match self.parse_unary() {
                Ok(expr) => Ok(Box::new(Node::Unary(UnaryAST { op, opr: expr }))),
                Err(error) => Err(error),
            }
        } else {
            self.parse_value()
        }
    }

    /// Parses values.
    pub fn parse_value(&mut self) -> (result: ParseResult)
        requires
            old(self).well_formed(),
        ensures
            final(self).yields(result, grammar::value(old(self)@)),
        decreases old(self)@.len(), 0nat,
    {
        match &self.cur_token {
            Ok(Token::Int(literal)) => {
                // get integer value
                let val = *literal;
                self.next_token();
                // integer literal
                Ok(Box::new(Node::Int(IntAST { val })))
            },
            Ok(Token::Id(id)) => {
                // eat id
                let id = id.clone();
                self.next_token();
                // check if is a function call
                if self.is_token_char('(') {
                    self.parse_funcall(id)
                } else {
                    Ok(Box::new(Node::Id(IdAST { id })))
                }
            },
            Ok(Token::Other('(')) => {
                // eat '('
                self.next_token();
                // get expression
                let expr = self.parse_expr()?;
                // check & eat ')'
                self.expect_char(')')?;
                Ok(expr)
            },
            _ => Self::get_error("invalid value"),
        }
    }

    /// Parses function calls.
    pub fn parse_funcall(&mut self, id: String) -> (result: ParseResult)
        requires
            old(self).well_formed(),
        ensures
            final(self).yields(result, grammar::funcall(id@, old(self)@)),
        decreases old(self)@.len(), 22nat,
    {
        // eat '('
        self.next_token();
        // get arguments
        let mut args: Vec<AstBox> = Vec::new();
        if !self.is_token_char(')') {
            let ghost start = self@;
            proof {
                assert(ast::trees_view(args@) == Seq::<Tree>::empty());
                lemma_after_nothing(grammar::arguments(start));
            }
            loop
                invariant_except_break
                    grammar::arguments(start) == after(
                        ast::trees_view(args@),
                        grammar::arguments(self@),
                    ),
                    grammar::arguments(start).result is Err ==> grammar::funcall(
                        id@,
                        old(self)@,
                    ) == grammar::failed::<Seq<Tree>, Tree>(grammar::arguments(start)),
                invariant
                    self.well_formed(),
                    self@.len() <= old(self)@.len(),
                ensures
                    self.well_formed(),
                    grammar::arguments(start).result == Ok::<Seq<Tree>, Failure>(
                        ast::trees_view(args@),
                    ),
                    grammar::arguments(start).rest == self@,
                decreases self@.len(),
            {
                let ghost before = self@;
                let ghost trees = ast::trees_view(args@);
                proof {
                    progress::lemma_expr(before);
                }
                // get the current argument
                let arg = self.parse_expr()?;
                args.push(arg);
                assert(ast::trees_view(args@) == trees.push(arg@));
                // eat ','
                if !self.is_token_char(',') {
                    assert(trees + seq![arg@] == trees.push(arg@));
                    break ;
                }
                self.next_token();
                proof {
                    lemma_after_one_more(trees, arg@, grammar::arguments(self@));
                }
            }
        }
        assert(args@.len() == 0 ==> ast::trees_view(args@) == Seq::<Tree>::empty());
        // check & eat ')'
        self.expect_char(')')?;
        Ok(Box::new(Node::FunCall(FunCallAST { name: id, args })))
    }

    /// Parses an operand of the binary operators of a class.
    fn parse_operand(&mut self, level: Level) -> (result: ParseResult)
        requires
            old(self).well_formed(),
        ensures
            final(self).yields(result, grammar::operand(level, old(self)@)),
        decreases old(self)@.len(), 3 + 3 * level.height(),
    {
        match level {
            Level::LOr => self.parse_land_expr(),
            Level::LAnd => self.parse_eq_expr(),
            Level::Eq => self.parse_rel_expr(),
            Level::Rel => self.parse_add_expr(),
            Level::Add => self.parse_mul_expr(),
            Level::Mul => self.parse_unary(),
        }
    }

    /// Parses binary expression.
    pub fn parse_binary(&mut self, level: Level) -> (result: ParseResult)
        requires
            old(self).well_formed(),
        ensures
            final(self).yields(result, grammar::binary(level, old(self)@)),
        decreases old(self)@.len(), 4 + 3 * level.height(),
    {
        proof {
            progress::lemma_operand(level, self@);
        }
        // get left-hand side expression
        let mut lhs = self.parse_operand(level)?;
        // get the rest things
        loop
            invariant_except_break
                grammar::binary(level, old(self)@) == grammar::binary_rest(level, lhs@, self@),
            invariant
                self.well_formed(),
                self@.len() < old(self)@.len(),
            ensures
                self.well_formed(),
                grammar::binary(level, old(self)@).result == Ok::<Tree, Failure>(lhs@),
                grammar::binary(level, old(self)@).rest == self@,
            decreases self@.len(),
        {
            // stop if error
            let op = match self.is_token_ops(level) {
                Some(op) => op,
                None => break ,
            };
            self.next_token();
            proof {
                progress::lemma_operand(level, self@);
            }
            // get right-hand side expression
            let rhs = self.parse_operand(level)?;
            // update lhs
            lhs = Box::new(Node::Binary(BinaryAST { op, lhs, rhs }));
        }
        Ok(lhs)
    }
}

} // verus!
