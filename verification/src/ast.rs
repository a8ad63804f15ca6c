//! The abstract syntax the evaluator walks.
//!
//! Programs are produced by an out-of-scope parser; the evaluator only
//! consumes them.  Function expressions sit behind `Rc` because function
//! values capture their body and are freely copied into program memory.

use vstd::prelude::*;
use std::rc::Rc;
use crate::json::JValue;
use crate::source_range::SourceRange;

verus! {

/// A whole program or function body: statements in source order.
#[derive(Debug, PartialEq)]
pub struct Program {
    /// Byte offset of the first statement.
    pub start: usize,
    /// Byte offset just past the last statement.
    pub end: usize,
    /// The statements.
    pub body: Vec<BodyItem>,
}

/// One statement.
#[derive(Debug, PartialEq)]
pub enum BodyItem {
    /// An expression evaluated for its effect.
    ExpressionStatement(ExpressionStatement),
    /// One or more `name = init` declarations.
    VariableDeclaration(VariableDeclaration),
    /// A `return` statement.
    ReturnStatement(ReturnStatement),
}

/// An expression evaluated for its effect.
#[derive(Debug, PartialEq)]
pub struct ExpressionStatement {
    pub start: usize,
    pub end: usize,
    /// The expression.
    pub expression: Expr,
}

/// The keyword a declaration was written with.
#[derive(Debug, Clone, Copy, PartialEq, Eq, Structural)]
pub enum VariableKind {
    /// `const`.
    Const,
    /// `let`.
    Let,
    /// `fn`.
    Fn,
}

/// A declaration statement.
#[derive(Debug, PartialEq)]
pub struct VariableDeclaration {
    pub start: usize,
    pub end: usize,
    /// The declarations, each binding one name.
    pub declarations: Vec<VariableDeclarator>,
    /// The keyword used.
    pub kind: VariableKind,
}

/// One `name = init` binding.
#[derive(Debug, PartialEq)]
pub struct VariableDeclarator {
    /// The name being bound.
    pub id: Identifier,
    /// The initializer.
    pub init: Expr,
}

/// A `return` statement.
#[derive(Debug, PartialEq)]
pub struct ReturnStatement {
    pub start: usize,
    pub end: usize,
    /// The returned expression.
    pub argument: Expr,
}

/// A name.
#[derive(Debug, Clone, PartialEq)]
pub struct Identifier {
    pub start: usize,
    pub end: usize,
    /// The name itself.
    pub name: String,
}

/// A literal value.
#[derive(Debug, PartialEq)]
pub struct Literal {
    pub start: usize,
    pub end: usize,
    /// The value, already in the portable JSON form.
    pub value: JValue,
}

/// The pipeline-substitution marker `%`.
#[derive(Debug, Clone, Copy, PartialEq, Eq, Structural)]
pub struct PipeSubstitution {
    pub start: usize,
    pub end: usize,
}

/// The absence of an optional argument.
#[derive(Debug, Clone, Copy, PartialEq, Eq, Structural, Default)]
pub struct KclNone {
    pub start: usize,
    pub end: usize,
}

/// An arithmetic operator.
#[derive(Debug, Clone, Copy, PartialEq, Eq, Structural)]
pub enum BinaryOperator {
    /// `+`
    Add,
    /// `-`
    Sub,
    /// `*`
    Mul,
    /// `/`
    Div,
    /// `%`
    Mod,
    /// `^`
    Pow,
}

/// A binary arithmetic expression.
#[derive(Debug, PartialEq)]
pub struct BinaryExpression {
    pub start: usize,
    pub end: usize,
    /// The operator.
    pub operator: BinaryOperator,
    /// The left operand.
    pub left: Expr,
    /// The right operand.
    pub right: Expr,
}

/// A unary operator.
#[derive(Debug, Clone, Copy, PartialEq, Eq, Structural)]
pub enum UnaryOperator {
    /// `-`
    Neg,
}

/// A unary arithmetic expression.
#[derive(Debug, PartialEq)]
pub struct UnaryExpression {
    pub start: usize,
    pub end: usize,
    /// The operator.
    pub operator: UnaryOperator,
    /// The operand.
    pub argument: Expr,
}

/// A call `callee(arguments…)`.
#[derive(Debug, PartialEq)]
pub struct CallExpression {
    pub start: usize,
    pub end: usize,
    /// The called name.
    pub callee: Identifier,
    /// The positional arguments.
    pub arguments: Vec<Expr>,
}

/// A pipeline `first |> second(%) |> …`.
#[derive(Debug, PartialEq)]
pub struct PipeExpression {
    pub start: usize,
    pub end: usize,
    /// The stages, left to right.
    pub body: Vec<Expr>,
}

/// An array expression.
#[derive(Debug, PartialEq)]
pub struct ArrayExpression {
    pub start: usize,
    pub end: usize,
    /// The element expressions.
    pub elements: Vec<Expr>,
}

/// An object expression.
#[derive(Debug, PartialEq)]
pub struct ObjectExpression {
    pub start: usize,
    pub end: usize,
    /// The properties.
    pub properties: Vec<ObjectProperty>,
}

/// One `key: value` property of an object expression.
#[derive(Debug, PartialEq)]
pub struct ObjectProperty {
    pub start: usize,
    pub end: usize,
    /// The property name.
    pub key: Identifier,
    /// The property value.
    pub value: Expr,
}

/// What a member expression reads from.
#[derive(Debug, PartialEq)]
pub enum MemberObject {
    /// A nested member expression.
    MemberExpression(Box<MemberExpression>),
    /// A name resolved through memory.
    Identifier(Box<Identifier>),
}

/// How a member expression names the property.
#[derive(Debug, PartialEq)]
pub enum LiteralIdentifier {
    /// Dot form: `obj.key`.
    Identifier(Box<Identifier>),
    /// Bracket form: `obj["key"]` or `arr[0]`.
    Literal(Box<Literal>),
}

/// A property or index read.
#[derive(Debug, PartialEq)]
pub struct MemberExpression {
    pub start: usize,
    pub end: usize,
    /// The container being read.
    pub object: MemberObject,
    /// The property name or index.
    pub property: LiteralIdentifier,
    /// Whether the bracket form was used.
    pub computed: bool,
}

/// A parameter of a function expression.
#[derive(Debug, Clone, PartialEq)]
pub struct Parameter {
    /// The parameter name.
    pub identifier: Identifier,
    /// Whether the parameter may be omitted at call sites.
    pub optional: bool,
}

/// A function expression: parameters and a body.
#[derive(Debug, PartialEq)]
pub struct FunctionExpression {
    pub start: usize,
    pub end: usize,
    /// The parameters, required ones first.
    pub params: Vec<Parameter>,
    /// The body.
    pub body: Program,
}

/// An expression.
#[derive(Debug, PartialEq)]
pub enum Expr {
    Literal(Box<Literal>),
    Identifier(Box<Identifier>),
    BinaryExpression(Box<BinaryExpression>),
    UnaryExpression(Box<UnaryExpression>),
    CallExpression(Box<CallExpression>),
    PipeExpression(Box<PipeExpression>),
    PipeSubstitution(Box<PipeSubstitution>),
    ArrayExpression(Box<ArrayExpression>),
    ObjectExpression(Box<ObjectExpression>),
    MemberExpression(Box<MemberExpression>),
    FunctionExpression(Rc<FunctionExpression>),
    NoneValue(Box<KclNone>),
}

impl Expr {
    /// The source range covered by the expression.
    pub open spec fn spec_range(&self) -> (usize, usize) {
        match self {
            Expr::Literal(n) => (n.start, n.end),
            Expr::Identifier(n) => (n.start, n.end),
            Expr::BinaryExpression(n) => (n.start, n.end),
            Expr::UnaryExpression(n) => (n.start, n.end),
            Expr::CallExpression(n) => (n.start, n.end),
            Expr::PipeExpression(n) => (n.start, n.end),
            Expr::PipeSubstitution(n) => (n.start, n.end),
            Expr::ArrayExpression(n) => (n.start, n.end),
            Expr::ObjectExpression(n) => (n.start, n.end),
            Expr::MemberExpression(n) => (n.start, n.end),
            Expr::FunctionExpression(n) => (n.start, n.end),
            Expr::NoneValue(n) => (n.start, n.end),
        }
    }

    /// The source range covered by the expression.
    pub fn source_range(&self) -> (r: SourceRange)
        ensures
            r.spec_start() == self.spec_range().0,
            r.spec_end() == self.spec_range().1,
    {
        let (s, e) = match self {
            Expr::Literal(n) => (n.start, n.end),
            Expr::Identifier(n) => (n.start, n.end),
            Expr::BinaryExpression(n) => (n.start, n.end),
            Expr::UnaryExpression(n) => (n.start, n.end),
            Expr::CallExpression(n) => (n.start, n.end),
            Expr::PipeExpression(n) => (n.start, n.end),
            Expr::PipeSubstitution(n) => (n.start, n.end),
            Expr::ArrayExpression(n) => (n.start, n.end),
            Expr::ObjectExpression(n) => (n.start, n.end),
            Expr::MemberExpression(n) => (n.start, n.end),
            Expr::FunctionExpression(n) => (n.start, n.end),
            Expr::NoneValue(n) => (n.start, n.end),
        };
        SourceRange::new(s, e)
    }
}

impl Identifier {
    /// The source range covered by the name.
    pub fn source_range(&self) -> (r: SourceRange)
        ensures
            r.spec_start() == self.start,
            r.spec_end() == self.end,
    {
        SourceRange::new(self.start, self.end)
    }
}

/// How many of the parameters are required.
pub open spec fn required_param_count(params: Seq<Parameter>) -> nat
    decreases params.len(),
{
    if params.len() == 0 {
        0
    } else {
        required_param_count(params.drop_last()) + if params.last().optional {
            0nat
        } else {
            1nat
        }
    }
}

impl FunctionExpression {
    /// The accepted argument range: at least the required count, at most
    /// the total parameter count.
    #[verifier::loop_isolation(false)]
    pub fn number_of_args(&self) -> (r: (usize, usize))
        ensures
            r.0 == required_param_count(self.params@),
            r.1 == self.params@.len(),
    {
        let total = self.params.len();
        let mut required: usize = 0;
        let mut i: usize = 0;
        while i < total
            invariant
                i <= total,
                required <= i,
                required == required_param_count(self.params@.subrange(0, i as int)),
            decreases total - i,
        {
            if !self.params[i].optional {
                required = required + 1;
            }
            proof {
                let pre = self.params@.subrange(0, i as int);
                let post = self.params@.subrange(0, i as int + 1);
                assert(post.drop_last() =~= pre);
                assert(post.last() == self.params@[i as int]);
            }
            i = i + 1;
        }
        proof {
            assert(self.params@.subrange(0, total as int) =~= self.params@);
        }
        (required, total)
    }

    /// The source range covered by the function expression.
    pub fn source_range(&self) -> (r: SourceRange)
        ensures
            r.spec_start() == self.start,
            r.spec_end() == self.end,
    {
        SourceRange::new(self.start, self.end)
    }
}

} // verus!
