//! The abstract syntax of the expression language.

use vstd::prelude::*;

use crate::value::ValueView;

verus! {

/// An operator token. `Not` is unary only, `Plus` and `Minus` are unary or
/// binary, every other operator is binary only.
#[derive(Debug, Clone, Copy, PartialEq, Eq, Structural)]
pub enum Operator {
    Not,
    And,
    Nand,
    Or,
    Nor,
    Xor,
    Equal,
    NotEqual,
    Plus,
    Minus,
    Multiply,
    Divide,
    Matches,
}

impl Operator {
    /// Whether the operator may stand in a `UnaryOp` node.
    pub open spec fn is_unary(self) -> bool {
        self == Operator::Not || self == Operator::Plus || self == Operator::Minus
    }

    /// Whether the operator may stand in a `BinaryOp` node.
    pub open spec fn is_binary(self) -> bool {
        self != Operator::Not
    }

    /// Decides `is_unary`.
    pub fn unary(&self) -> (r: bool)
        ensures
            r == self.is_unary(),
    {
        match self {
            Operator::Not | Operator::Plus | Operator::Minus => true,
            _ => false,
        }
    }

    /// Decides `is_binary`.
    pub fn binary(&self) -> (r: bool)
        ensures
            r == self.is_binary(),
    {
        match self {
            Operator::Not => false,
            _ => true,
        }
    }
}

/// A value that source text can denote directly.
#[derive(Debug)]
pub enum Literal {
    Int(i64),
    Str(String),
    Bool(bool),
    Empty,
}

impl View for Literal {
    type V = ValueView;

    open spec fn view(&self) -> ValueView {
        match self {
            Literal::Int(i) => ValueView::Int(*i),
            Literal::Str(s) => ValueView::Str(s@),
            Literal::Bool(b) => ValueView::Bool(*b),
            Literal::Empty => ValueView::Empty,
        }
    }
}

impl Clone for Literal {
    fn clone(&self) -> (r: Self)
        ensures
            r@ == self@,
    {
        match self {
            Literal::Int(i) => Literal::Int(*i),
            Literal::Str(s) => Literal::Str(s.clone()),
            Literal::Bool(b) => Literal::Bool(*b),
            Literal::Empty => Literal::Empty,
        }
    }
}

/// A node of an expression tree.
#[derive(Debug)]
pub enum Expression {
    Identifier(String),
    Literal(Literal),
    BinaryOp { left: Box<Expression>, operator: Operator, right: Box<Expression> },
    UnaryOp { expression: Box<Expression>, operator: Operator },
}

/// The mathematical model of an expression tree.
pub enum ExpressionView {
    Identifier(Seq<char>),
    Literal(ValueView),
    BinaryOp { left: Box<ExpressionView>, operator: Operator, right: Box<ExpressionView> },
    UnaryOp { expression: Box<ExpressionView>, operator: Operator },
}

impl View for Expression {
    type V = ExpressionView;

    open spec fn view(&self) -> ExpressionView {
        expression_view(*self)
    }
}

/// The model of `e`, node by node.
pub open spec fn expression_view(e: Expression) -> ExpressionView
    decreases e,
{
    match e {
        Expression::Identifier(name) => ExpressionView::Identifier(name@),
        Expression::Literal(literal) => ExpressionView::Literal(literal@),
        Expression::BinaryOp { left, operator, right } => ExpressionView::BinaryOp {
            left: Box::new(expression_view(*left)),
            operator: operator,
            right: Box::new(expression_view(*right)),
        },
        Expression::UnaryOp { expression, operator } => ExpressionView::UnaryOp {
            expression: Box::new(expression_view(*expression)),
            operator: operator,
        },
    }
}

impl ExpressionView {
    /// Every operator in the tree stands in a position of its arity.
    pub open spec fn well_formed(self) -> bool
        decreases self,
    {
        match self {
            ExpressionView::Identifier(_) => true,
            ExpressionView::Literal(_) => true,
            ExpressionView::BinaryOp { left, operator, right } => operator.is_binary()
                && left.well_formed() && right.well_formed(),
            ExpressionView::UnaryOp { expression, operator } => operator.is_unary()
                && expression.well_formed(),
        }
    }
}

impl ExpressionView {
    /// Whether `name` occurs in the tree as an identifier.
    pub open spec fn mentions(self, name: Seq<char>) -> bool
        decreases self,
    {
        match self {
            ExpressionView::Identifier(identifier) => identifier == name,
            ExpressionView::Literal(_) => false,
            ExpressionView::BinaryOp { left, operator, right } => left.mentions(name)
                || right.mentions(name),
            ExpressionView::UnaryOp { expression, operator } => expression.mentions(name),
        }
    }
}

impl Clone for Expression {
    fn clone(&self) -> (r: Self)
        ensures
            r@ == self@,
        decreases self,
    {
        match self {
            Expression::Identifier(name) => Expression::Identifier(name.clone()),
            Expression::Literal(literal) => Expression::Literal(literal.clone()),
            Expression::BinaryOp { left, operator, right } => Expression::BinaryOp {
                left: Box::new((&**left).clone()),
                operator: *operator,
                right: Box::new((&**right).clone()),
            },
            Expression::UnaryOp { expression, operator } => Expression::UnaryOp {
                expression: Box::new((&**expression).clone()),
                operator: *operator,
            },
        }
    }
}

impl Expression {
    /// Decides whether every operator in the tree stands in a position of
    /// its arity.
    pub fn is_well_formed(&self) -> (r: bool)
        ensures
            r == self@.well_formed(),
        decreases self,
    {
        match self {
            Expression::Identifier(_) => true,
            Expression::Literal(_) => true,
            Expression::BinaryOp { left, operator, right } => operator.binary()
                && left.is_well_formed() && right.is_well_formed(),
            Expression::UnaryOp { expression, operator } => operator.unary()
                && expression.is_well_formed(),
        }
    }
}

/// The directive `identifier := expression`.
#[derive(Debug)]
pub struct Assignment {
    pub identifier: String,
    pub expression: Expression,
}

/// The mathematical model of an `Assignment`.
pub struct AssignmentView {
    pub identifier: Seq<char>,
    pub expression: ExpressionView,
}

impl View for Assignment {
    type V = AssignmentView;

    open spec fn view(&self) -> AssignmentView {
        AssignmentView { identifier: self.identifier@, expression: self.expression@ }
    }
}

impl Clone for Assignment {
    fn clone(&self) -> (r: Self)
        ensures
            r@ == self@,
    {
        Assignment { identifier: self.identifier.clone(), expression: self.expression.clone() }
    }
}

} // verus!
