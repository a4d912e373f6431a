//! Syntax trees, and the protocol by which a visitor walks them.

use crate::define::token::Operator;
use vstd::prelude::*;

verus! {

/// An owned child of a node.
pub type AstBox = Box<Node>;

/// Function definition.
#[derive(Debug, PartialEq, Eq)]
pub struct FunDefAST {
    pub name: String,
    pub args: Vec<String>,
    pub body: AstBox,
}

/// Statement block.
#[derive(Debug, PartialEq, Eq)]
pub struct BlockAST {
    pub stmts: Vec<AstBox>,
}

/// Define statement.
#[derive(Debug, PartialEq, Eq)]
pub struct DefineAST {
    pub name: String,
    pub expr: AstBox,
}

/// Assign statement.
#[derive(Debug, PartialEq, Eq)]
pub struct AssignAST {
    pub name: String,
    pub expr: AstBox,
}

/// If-else statement.
#[derive(Debug, PartialEq, Eq)]
pub struct IfAST {
    pub cond: AstBox,
    pub then_block: AstBox,
    pub else_then: Option<AstBox>,
}

/// Return statement.
#[derive(Debug, PartialEq, Eq)]
pub struct ReturnAST {
    pub expr: AstBox,
}

/// Binary expression.
#[derive(Debug, PartialEq, Eq)]
pub struct BinaryAST {
    pub op: Operator,
    pub lhs: AstBox,
    pub rhs: AstBox,
}

/// Unary expression.
#[derive(Debug, PartialEq, Eq)]
pub struct UnaryAST {
    pub op: Operator,
    pub opr: AstBox,
}

/// Function call.
#[derive(Debug, PartialEq, Eq)]
pub struct FunCallAST {
    pub name: String,
    pub args: Vec<AstBox>,
}

/// Integer literal.
#[derive(Debug, PartialEq, Eq)]
pub struct IntAST {
    pub val: i32,
}

/// Identifier.
#[derive(Debug, PartialEq, Eq)]
pub struct IdAST {
    pub id: String,
}

/// A node of a syntax tree: one variant for each kind of node.
#[derive(Debug, PartialEq, Eq)]
pub enum Node {
    FunDef(FunDefAST),
    Block(BlockAST),
    Define(DefineAST),
    Assign(AssignAST),
    If(IfAST),
    Return(ReturnAST),
    Binary(BinaryAST),
    Unary(UnaryAST),
    FunCall(FunCallAST),
    Int(IntAST),
    Id(IdAST),
}

/// The mathematical value of a syntax tree.
#[allow(inconsistent_fields)]
pub enum Tree {
    FunDef { name: Seq<char>, args: Seq<Seq<char>>, body: Box<Tree> },
    Block { stmts: Seq<Tree> },
    Define { name: Seq<char>, expr: Box<Tree> },
    Assign { name: Seq<char>, expr: Box<Tree> },
    If { cond: Box<Tree>, then_block: Box<Tree>, else_then: Option<Box<Tree>> },
    Return { expr: Box<Tree> },
    Binary { op: Operator, lhs: Box<Tree>, rhs: Box<Tree> },
    Unary { op: Operator, opr: Box<Tree> },
    FunCall { name: Seq<char>, args: Seq<Tree> },
    Int { val: i32 },
    Id { id: Seq<char> },
}

impl Tree {
    /// A well-formed expression: a literal, an identifier, a call with
    /// expressions for arguments, a prefix operator on an expression, or a
    /// binary operator on two.
    pub open spec fn is_expr(self) -> bool
        decreases self,
    {
        match self {
            Tree::Int { .. } => true,
            Tree::Id { .. } => true,
            Tree::FunCall { args, .. } => forall|i: int|
                0 <= i < args.len() ==> (#[trigger] args[i]).is_expr(),
            Tree::Unary { op, opr } => op.is_prefix() && opr.is_expr(),
            Tree::Binary { op, lhs, rhs } => op.is_binary() && lhs.is_expr() && rhs.is_expr(),
            _ => false,
        }
    }

    /// A well-formed statement: a definition, an assignment or a return of an
    /// expression, a call, or a conditional of an expression, a block and,
    /// where it has an else branch, a conditional or a block.
    pub open spec fn is_statement(self) -> bool
        decreases self,
    {
        match self {
            Tree::Define { expr, .. } => expr.is_expr(),
            Tree::Assign { expr, .. } => expr.is_expr(),
            Tree::Return { expr } => expr.is_expr(),
            Tree::FunCall { args, .. } => forall|i: int|
                0 <= i < args.len() ==> (#[trigger] args[i]).is_expr(),
            Tree::If { cond, then_block, else_then } => {
                &&& cond.is_expr()
                &&& then_block.is_block()
                &&& match else_then {
                    None => true,
                    Some(branch) => if *branch is If {
                        branch.is_statement()
                    } else {
                        branch.is_block()
                    },
                }
            },
            _ => false,
        }
    }

    /// A well-formed block: a block of well-formed statements.
    pub open spec fn is_block(self) -> bool
        decreases self,
    {
        match self {
            Tree::Block { stmts } => forall|i: int|
                0 <= i < stmts.len() ==> (#[trigger] stmts[i]).is_statement(),
            _ => false,
        }
    }

    /// A well-formed function definition: its body is a well-formed block.
    pub open spec fn is_fundef(self) -> bool {
        match self {
            Tree::FunDef { body, .. } => body.is_block(),
            _ => false,
        }
    }
}

/// The values of a sequence of names.
pub open spec fn names_view(names: Seq<String>) -> Seq<Seq<char>> {
    Seq::new(names.len(), |i: int| names[i]@)
}

/// The values of a sequence of nodes.
pub open spec fn trees_view(nodes: Seq<AstBox>) -> Seq<Tree>
    decreases nodes,
{
    Seq::new(
        nodes.len(),
        |i: int|
            if 0 <= i < nodes.len() {
                node_view(*nodes[i])
            } else {
                arbitrary()
            },
    )
}

/// The value of a node.
pub open spec fn node_view(node: Node) -> Tree
    decreases node,
{
    match node {
        Node::FunDef(ast) => Tree::FunDef {
            name: ast.name@,
            args: names_view(ast.args@),
            body: Box::new(node_view(*ast.body)),
        },
        Node::Block(ast) => Tree::Block { stmts: trees_view(ast.stmts@) },
        Node::Define(ast) => Tree::Define { name: ast.name@, expr: Box::new(node_view(*ast.expr)) },
        Node::Assign(ast) => Tree::Assign { name: ast.name@, expr: Box::new(node_view(*ast.expr)) },
        Node::If(ast) => Tree::If {
            cond: Box::new(node_view(*ast.cond)),
            then_block: Box::new(node_view(*ast.then_block)),
            else_then: match ast.else_then {
                Some(e) => Some(Box::new(node_view(*e))),
                None => None,
            },
        },
        Node::Return(ast) => Tree::Return { expr: Box::new(node_view(*ast.expr)) },
        Node::Binary(ast) => Tree::Binary {
            op: ast.op,
            lhs: Box::new(node_view(*ast.lhs)),
            rhs: Box::new(node_view(*ast.rhs)),
        },
        Node::Unary(ast) => Tree::Unary { op: ast.op, opr: Box::new(node_view(*ast.opr)) },
        Node::FunCall(ast) => Tree::FunCall { name: ast.name@, args: trees_view(ast.args@) },
        Node::Int(ast) => Tree::Int { val: ast.val },
        Node::Id(ast) => Tree::Id { id: ast.id@ },
    }
}

impl View for Node {
    type V = Tree;

    open spec fn view(&self) -> Tree {
        node_view(*self)
    }
}

/// Interface of the visitors of syntax trees: one handler for each kind of
/// node, all with one result type.
pub trait ASTVisitor: Sized {
    /// Result type of the handlers.
    type Result;

    /// What the handler for the kind of `node` may do on it: `pre` is the
    /// visitor before the visit, `post` the visitor after it, `result` what the
    /// handler returns. Each visitor says this of itself; one that does not
    /// promises nothing.
    open spec fn visits(pre: Self, node: Node, post: Self, result: Self::Result) -> bool {
        true
    }

    /// Visits function definitions.
    fn visit_fundef(&mut self, ast: &FunDefAST) -> (result: Self::Result)
        ensures
            Self::visits(*old(self), Node::FunDef(*ast), *final(self), result),
    ;

    /// Visits block statements.
    fn visit_block(&mut self, ast: &BlockAST) -> (result: Self::Result)
        ensures
            Self::visits(*old(self), Node::Block(*ast), *final(self), result),
    ;

    /// Visits define statements.
    fn visit_define(&mut self, ast: &DefineAST) -> (result: Self::Result)
        ensures
            Self::visits(*old(self), Node::Define(*ast), *final(self), result),
    ;

    /// Visits assign statements.
    fn visit_assign(&mut self, ast: &AssignAST) -> (result: Self::Result)
        ensures
            Self::visits(*old(self), Node::Assign(*ast), *final(self), result),
    ;

    /// Visits if-else statements.
    fn visit_if(&mut self, ast: &IfAST) -> (result: Self::Result)
        ensures
            Self::visits(*old(self), Node::If(*ast), *final(self), result),
    ;

    /// Visits return statements.
    fn visit_return(&mut self, ast: &ReturnAST) -> (result: Self::Result)
        ensures
            Self::visits(*old(self), Node::Return(*ast), *final(self), result),
    ;

    /// Visits binary expressions.
    fn visit_binary(&mut self, ast: &BinaryAST) -> (result: Self::Result)
        ensures
            Self::visits(*old(self), Node::Binary(*ast), *final(self), result),
    ;

    /// Visits unary expressions.
    fn visit_unary(&mut self, ast: &UnaryAST) -> (result: Self::Result)
        ensures
            Self::visits(*old(self), Node::Unary(*ast), *final(self), result),
    ;

    /// Visits function calls.
    fn visit_funcall(&mut self, ast: &FunCallAST) -> (result: Self::Result)
        ensures
            Self::visits(*old(self), Node::FunCall(*ast), *final(self), result),
    ;

    /// Visits integer literals.
    fn visit_int(&mut self, ast: &IntAST) -> (result: Self::Result)
        ensures
            Self::visits(*old(self), Node::Int(*ast), *final(self), result),
    ;

    /// Visits identifiers.
    fn visit_id(&mut self, ast: &IdAST) -> (result: Self::Result)
        ensures
            Self::visits(*old(self), Node::Id(*ast), *final(self), result),
    ;
}

/// Interface of syntax trees: both operations hand the tree to the handler
/// that the visitor has for its kind of node, and return what the handler
/// returns.
pub trait Ast {
    /// The node that `self` is, or is the data of.
    spec fn node(&self) -> Node;

    /// Evaluates the tree using the specific interpreter.
    fn eval<T: ASTVisitor>(&self, visitor: &mut T) -> (result: T::Result)
        ensures
            T::visits(*old(visitor), self.node(), *final(visitor), result),
    ;

    /// Generates IR using the specific IR generator.
    fn generate_ir<T: ASTVisitor>(&self, visitor: &mut T) -> (result: T::Result)
        ensures
            T::visits(*old(visitor), self.node(), *final(visitor), result),
    ;
}

impl Ast for FunDefAST {
    open spec fn node(&self) -> Node {
        Node::FunDef(*self)
    }

    fn eval<T: ASTVisitor>(&self, visitor: &mut T) -> (result: T::Result) {
        visitor.visit_fundef(self)
    }

    fn generate_ir<T: ASTVisitor>(&self, visitor: &mut T) -> (result: T::Result) {
        visitor.visit_fundef(self)
    }
}

impl Ast for BlockAST {
    open spec fn node(&self) -> Node {
        Node::Block(*self)
    }

    fn eval<T: ASTVisitor>(&self, visitor: &mut T) -> (result: T::Result) {
        visitor.visit_block(self)
    }

    fn generate_ir<T: ASTVisitor>(&self, visitor: &mut T) -> (result: T::Result) {
        visitor.visit_block(self)
    }
}

impl Ast for DefineAST {
    open spec fn node(&self) -> Node {
        Node::Define(*self)
    }

    fn eval<T: ASTVisitor>(&self, visitor: &mut T) -> (result: T::Result) {
        visitor.visit_define(self)
    }

    fn generate_ir<T: ASTVisitor>(&self, visitor: &mut T) -> (result: T::Result) {
        visitor.visit_define(self)
    }
}

impl Ast for AssignAST {
    open spec fn node(&self) -> Node {
        Node::Assign(*self)
    }

    fn eval<T: ASTVisitor>(&self, visitor: &mut T) -> (result: T::Result) {
        visitor.visit_assign(self)
    }

    fn generate_ir<T: ASTVisitor>(&self, visitor: &mut T) -> (result: T::Result) {
        visitor.visit_assign(self)
    }
}

impl Ast for IfAST {
    open spec fn node(&self) -> Node {
        Node::If(*self)
    }

    fn eval<T: ASTVisitor>(&self, visitor: &mut T) -> (result: T::Result) {
        visitor.visit_if(self)
    }

    fn generate_ir<T: ASTVisitor>(&self, visitor: &mut T) -> (result: T::Result) {
        visitor.visit_if(self)
    }
}

impl Ast for ReturnAST {
    open spec fn node(&self) -> Node {
        Node::Return(*self)
    }

    fn eval<T: ASTVisitor>(&self, visitor: &mut T) -> (result: T::Result) {
        visitor.visit_return(self)
    }

    fn generate_ir<T: ASTVisitor>(&self, visitor: &mut T) -> (result: T::Result) {
        visitor.visit_return(self)
    }
}

impl Ast for BinaryAST {
    open spec fn node(&self) -> Node {
        Node::Binary(*self)
    }

    fn eval<T: ASTVisitor>(&self, visitor: &mut T) -> (result: T::Result) {
        visitor.visit_binary(self)
    }

    fn generate_ir<T: ASTVisitor>(&self, visitor: &mut T) -> (result: T::Result) {
        visitor.visit_binary(self)
    }
}

impl Ast for UnaryAST {
    open spec fn node(&self) -> Node {
        Node::Unary(*self)
    }

    fn eval<T: ASTVisitor>(&self, visitor: &mut T) -> (result: T::Result) {
        visitor.visit_unary(self)
    }

    fn generate_ir<T: ASTVisitor>(&self, visitor: &mut T) -> (result: T::Result) {
        visitor.visit_unary(self)
    }
}

impl Ast for FunCallAST {
    open spec fn node(&self) -> Node {
        Node::FunCall(*self)
    }

    fn eval<T: ASTVisitor>(&self, visitor: &mut T) -> (result: T::Result) {
        visitor.visit_funcall(self)
    }

    fn generate_ir<T: ASTVisitor>(&self, visitor: &mut T) -> (result: T::Result) {
        visitor.visit_funcall(self)
    }
}

impl Ast for IntAST {
    open spec fn node(&self) -> Node {
        Node::Int(*self)
    }

    fn eval<T: ASTVisitor>(&self, visitor: &mut T) -> (result: T::Result) {
        visitor.visit_int(self)
    }

    fn generate_ir<T: ASTVisitor>(&self, visitor: &mut T) -> (result: T::Result) {
        visitor.visit_int(self)
    }
}

impl Ast for IdAST {
    open spec fn node(&self) -> Node {
        Node::Id(*self)
    }

    fn eval<T: ASTVisitor>(&self, visitor: &mut T) -> (result: T::Result) {
        visitor.visit_id(self)
    }

    fn generate_ir<T: ASTVisitor>(&self, visitor: &mut T) -> (result: T::Result) {
        visitor.visit_id(self)
    }
}

impl Ast for Node {
    open spec fn node(&self) -> Node {
        *self
    }

    fn eval<T: ASTVisitor>(&self, visitor: &mut T) -> (result: T::Result) {
        match self {
            Node::FunDef(ast) => visitor.visit_fundef(ast),
            Node::Block(ast) => visitor.visit_block(ast),
            Node::Define(ast) => visitor.visit_define(ast),
            Node::Assign(ast) => visitor.visit_assign(ast),
            Node::If(ast) => visitor.visit_if(ast),
            Node::Return(ast) => visitor.visit_return(ast),
            Node::Binary(ast) => visitor.visit_binary(ast),
            Node::Unary(ast) => visitor.visit_unary(ast),
            Node::FunCall(ast) => visitor.visit_funcall(ast),
            Node::Int(ast) => visitor.visit_int(ast),
            Node::Id(ast) => visitor.visit_id(ast),
        }
    }

    fn generate_ir<T: ASTVisitor>(&self, visitor: &mut T) -> (result: T::Result) {
        match self {
            Node::FunDef(ast) => visitor.visit_fundef(ast),
            Node::Block(ast) => visitor.visit_block(ast),
            Node::Define(ast) => visitor.visit_define(ast),
            Node::Assign(ast) => visitor.visit_assign(ast),
            Node::If(ast) => visitor.visit_if(ast),
            Node::Return(ast) => visitor.visit_return(ast),
            Node::Binary(ast) => visitor.visit_binary(ast),
            Node::Unary(ast) => visitor.visit_unary(ast),
            Node::FunCall(ast) => visitor.visit_funcall(ast),
            Node::Int(ast) => visitor.visit_int(ast),
            Node::Id(ast) => visitor.visit_id(ast),
        }
    }
}

} // verus!
