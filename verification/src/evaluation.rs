//! The evaluator: a recursive walk over an expression tree, against an
//! environment that it only reads.

use vstd::prelude::*;
use vstd::string::*;

use crate::text::concat;
use crate::tree::{Assignment, Expression, ExpressionView, Operator};
use crate::value::{Value, ValueError, ValueErrorView, ValueOutcome, ValueResult, ValueView};
use crate::variables::{put_binding, Binding, Variables};

verus! {

/// A failure of an evaluation.
#[derive(Debug)]
pub enum EvaluationError {
    /// The expression names a variable that the environment does not bind.
    UndeclaredIdentifier(String),
    /// An operator failed.
    ValueError(ValueError),
}

/// The mathematical model of an `EvaluationError`.
pub enum EvaluationErrorView {
    UndeclaredIdentifier(Seq<char>),
    ValueError(ValueErrorView),
}

pub type EvaluationResult = Result<Value, EvaluationError>;

pub type SetFromAssignmentResult = Result<(), EvaluationError>;

/// The model of what an evaluation yields.
pub type EvaluationOutcome = Result<ValueView, EvaluationErrorView>;

impl View for EvaluationError {
    type V = EvaluationErrorView;

    open spec fn view(&self) -> EvaluationErrorView {
        match self {
            EvaluationError::UndeclaredIdentifier(name) => EvaluationErrorView::UndeclaredIdentifier(
                name@,
            ),
            EvaluationError::ValueError(error) => EvaluationErrorView::ValueError(error@),
        }
    }
}

impl EvaluationErrorView {
    /// The message shown to the user.
    pub open spec fn text(self) -> Seq<char> {
        match self {
            EvaluationErrorView::UndeclaredIdentifier(name) => "undeclared identifier \""@ + name
                + "\""@,
            EvaluationErrorView::ValueError(error) => "value error: "@ + error.text(),
        }
    }
}

/// The model of an evaluation's result.
pub open spec fn evaluation_view(r: EvaluationResult) -> EvaluationOutcome {
    match r {
        Ok(value) => Ok(value@),
        Err(error) => Err(error@),
    }
}

/// An operator's outcome as an evaluation's outcome.
pub open spec fn lift(r: ValueOutcome) -> EvaluationOutcome {
    match r {
        Ok(value) => Ok(value),
        Err(error) => Err(EvaluationErrorView::ValueError(error)),
    }
}

/// What a unary operator makes of its operand.
pub open spec fn apply_unary(operator: Operator, value: ValueView) -> ValueOutcome
    recommends
        operator.is_unary(),
{
    match operator {
        Operator::Not => value.not(),
        Operator::Plus => value.unary_plus(),
        Operator::Minus => value.unary_minus(),
        _ => arbitrary(),
    }
}

/// What a binary operator makes of its two operands.
pub open spec fn apply_binary(operator: Operator, left: ValueView, right: ValueView) -> ValueOutcome
    recommends
        operator.is_binary(),
{
    match operator {
        Operator::And => left.and(right),
        Operator::Nand => left.nand(right),
        Operator::Or => left.or(right),
        Operator::Nor => left.nor(right),
        Operator::Xor => left.xor(right),
        Operator::Equal => left.equal(right),
        Operator::NotEqual => left.not_equal(right),
        Operator::Plus => left.plus(right),
        Operator::Minus => left.minus(right),
        Operator::Multiply => left.multiply(right),
        Operator::Divide => left.divide(right),
        Operator::Matches => left.matches(right),
        Operator::Not => arbitrary(),
    }
}

/// The result that the left operand alone decides, for the four operators
/// that can be decided so.
pub open spec fn short_circuit(operator: Operator, left: ValueView) -> Option<ValueView> {
    match operator {
        Operator::And => left.and_short_circuit(),
        Operator::Nand => left.nand_short_circuit(),
        Operator::Or => left.or_short_circuit(),
        Operator::Nor => left.nor_short_circuit(),
        _ => None,
    }
}

/// The value of an expression in an environment. Operands are evaluated
/// from left to right and the first failure is the result; the right
/// operand is not evaluated where the left one decides the result.
pub open spec fn eval(e: ExpressionView, env: Map<Seq<char>, ValueView>) -> EvaluationOutcome
    decreases e,
{
    match e {
        ExpressionView::Identifier(name) => if env.contains_key(name) {
            Ok(env[name])
        } else {
            Err(EvaluationErrorView::UndeclaredIdentifier(name))
        },
        ExpressionView::Literal(value) => Ok(value),
        ExpressionView::UnaryOp { expression, operator } => match eval(*expression, env) {
            Err(error) => Err(error),
            Ok(value) => lift(apply_unary(operator, value)),
        },
        ExpressionView::BinaryOp { left, operator, right } => match eval(*left, env) {
            Err(error) => Err(error),
            Ok(l) => match short_circuit(operator, l) {
                Some(value) => Ok(value),
                None => match eval(*right, env) {
                    Err(error) => Err(error),
                    Ok(r) => lift(apply_binary(operator, l, r)),
                },
            },
        },
    }
}

impl From<ValueError> for EvaluationError {
    fn from(value: ValueError) -> (r: Self) {
        EvaluationError::ValueError(value)
    }
}

impl vstd::std_specs::convert::FromSpecImpl<ValueError> for EvaluationError {
    open spec fn obeys_from_spec() -> bool {
        true
    }

    open spec fn from_spec(value: ValueError) -> EvaluationError {
        EvaluationError::ValueError(value)
    }
}

impl Clone for EvaluationError {
    fn clone(&self) -> (r: Self)
        ensures
            r@ == self@,
    {
        match self {
            EvaluationError::UndeclaredIdentifier(name) => EvaluationError::UndeclaredIdentifier(
                name.clone(),
            ),
            EvaluationError::ValueError(error) => EvaluationError::ValueError(error.clone()),
        }
    }
}

impl EvaluationError {
    /// The message shown to the user.
    pub fn to_string(&self) -> (r: String)
        ensures
            r@ == self@.text(),
    {
        match self {
            EvaluationError::UndeclaredIdentifier(name) => {
                let mut out = concat("undeclared identifier \"", name.as_str());
                out.append("\"");
                out
            },
            EvaluationError::ValueError(error) => {
                let shown = error.to_string();
                concat("value error: ", shown.as_str())
            },
        }
    }
}

fn lifted(r: ValueResult) -> (out: EvaluationResult)
    ensures
        evaluation_view(out) == lift(crate::value::result_view(r)),
{
    match r {
        Ok(value) => Ok(value),
        Err(error) => Err(EvaluationError::from(error)),
    }
}

fn unary(operator: &Operator, value: &Value) -> (r: EvaluationResult)
    requires
        operator.is_unary(),
    ensures
        evaluation_view(r) == lift(apply_unary(*operator, value@)),
{
    match operator {
        Operator::Not => lifted(value.not()),
        Operator::Plus => lifted(value.unary_plus()),
        _ => lifted(value.unary_minus()),
    }
}

fn binary(operator: &Operator, left: &Value, right: &Value) -> (r: EvaluationResult)
    requires
        operator.is_binary(),
    ensures
        evaluation_view(r) == lift(apply_binary(*operator, left@, right@)),
{
    match operator {
        Operator::And => lifted(left.and(right)),
        Operator::Nand => lifted(left.nand(right)),
        Operator::Or => lifted(left.or(right)),
        Operator::Nor => lifted(left.nor(right)),
        Operator::Xor => lifted(left.xor(right)),
        Operator::Equal => lifted(left.equal(right)),
        Operator::NotEqual => lifted(left.not_equal(right)),
        Operator::Plus => lifted(left.plus(right)),
        Operator::Minus => lifted(left.minus(right)),
        Operator::Multiply => lifted(left.multiply(right)),
        Operator::Divide => lifted(left.divide(right)),
        _ => lifted(left.matches(right)),
    }
}

fn decided(operator: &Operator, left: &Value) -> (r: Option<Value>)
    ensures
        crate::value::option_view(r) == short_circuit(*operator, left@),
{
    match operator {
        Operator::And => left.and_short_circuit(),
        Operator::Nand => left.nand_short_circuit(),
        Operator::Or => left.or_short_circuit(),
        Operator::Nor => left.nor_short_circuit(),
        _ => None,
    }
}

/// Evaluates `e` against `v`. The tree must hold each operator in a
/// position of its arity.
pub fn evaluate(e: &Expression, v: &Variables) -> (r: EvaluationResult)
    requires
        e@.well_formed(),
    ensures
        evaluation_view(r) == eval(e@, v@),
    decreases e,
{
    match e {
        Expression::Identifier(identifier) => match v.get(identifier.as_str()) {
            Some(value) => Ok(value.clone()),
            None => Err(EvaluationError::UndeclaredIdentifier(identifier.clone())),
        },
        Expression::Literal(literal) => Ok(Value::from(literal.clone())),
        Expression::BinaryOp { left, operator, right } => {
            let left = match evaluate(left, v) {
                Ok(value) => value,
                Err(error) => {
                    return Err(error);
                },
            };
            match decided(operator, &left) {
                Some(value) => Ok(value),
                None => match evaluate(right, v) {
                    Ok(right) => binary(operator, &left, &right),
                    Err(error) => Err(error),
                },
            }
        },
        Expression::UnaryOp { expression, operator } => match evaluate(expression, v) {
            Ok(value) => unary(operator, &value),
            Err(error) => Err(error),
        },
    }
}

/// A store that an assignment can write to.
pub trait SetFromAssignment: View + Sized {
    /// The model of the store after `value` is stored under `identifier`,
    /// or the reason why the store rejects it.
    spec fn stored(model: Self::V, identifier: Seq<char>, value: ValueView) -> Result<
        Self::V,
        EvaluationErrorView,
    >;

    /// Evaluates the assignment's expression against `variables` and stores
    /// the value under the assignment's identifier. On any failure the
    /// store is left as it was.
    fn set_from_assignment(&mut self, assignment: &Assignment, variables: &Variables) -> (r:
        SetFromAssignmentResult)
        requires
            assignment.expression@.well_formed(),
        ensures
            match eval(assignment.expression@, variables@) {
                Err(error) => assignment_view(r) == Err::<(), EvaluationErrorView>(error)
                    && final(self)@ == old(self)@,
                Ok(value) => match Self::stored(old(self)@, assignment.identifier@, value) {
                    Ok(next) => r is Ok && final(self)@ == next,
                    Err(error) => assignment_view(r) == Err::<(), EvaluationErrorView>(error)
                        && final(self)@ == old(self)@,
                },
            },
    ;
}

/// A holder of named variables that can say whether it has a given name.
pub trait ContainsVariable {
    /// The names that the holder has.
    spec fn holds(&self, identifier: Seq<char>) -> bool;

    /// Whether the holder has a variable named `identifier`.
    fn contains_variable(&self, identifier: &str) -> (r: bool)
        ensures
            r == self.holds(identifier@),
    ;
}

/// A record that can be read as an environment.
pub trait ToVariables: Sized {
    /// The bindings that the record stands for: one for each field, in the
    /// order of the fields, a field without a value bound to `Empty`.
    spec fn fields(&self) -> Seq<Binding>;

    /// The environment of the record's fields.
    fn to_variables(self) -> (r: Variables)
        ensures
            r.bindings() == self.fields(),
    ;
}

/// The model of an assignment's result.
pub open spec fn assignment_view(r: SetFromAssignmentResult) -> Result<(), EvaluationErrorView> {
    match r {
        Ok(_) => Ok(()),
        Err(error) => Err(error@),
    }
}

impl SetFromAssignment for Variables {
    /// An environment takes any value under any name.
    open spec fn stored(
        model: Map<Seq<char>, ValueView>,
        identifier: Seq<char>,
        value: ValueView,
    ) -> Result<Map<Seq<char>, ValueView>, EvaluationErrorView> {
        Ok(model.insert(identifier, value))
    }

    fn set_from_assignment(&mut self, assignment: &Assignment, variables: &Variables) -> (r:
        SetFromAssignmentResult)
        ensures
            final(self).bindings() == match eval(assignment.expression@, variables@) {
                Ok(value) => put_binding(old(self).bindings(), assignment.identifier@, value),
                Err(_) => old(self).bindings(),
            },
    {
        match evaluate(&assignment.expression, variables) {
            Ok(value) => {
                self.put(assignment.identifier.clone(), value);
                Ok(())
            },
            Err(e) => Err(e),
        }
    }
}

impl ContainsVariable for Variables {
    open spec fn holds(&self, identifier: Seq<char>) -> bool {
        self@.contains_key(identifier)
    }

    fn contains_variable(&self, identifier: &str) -> (r: bool) {
        self.contains(identifier)
    }
}

impl<T: ToVariables> From<T> for Variables {
    /// The environment of a record's fields.
    fn from(value: T) -> (r: Self)
        ensures
            r.bindings() == value.fields(),
    {
        value.to_variables()
    }
}

impl<T: ToVariables> vstd::std_specs::convert::FromSpecImpl<T> for Variables {
    open spec fn obeys_from_spec() -> bool {
        false
    }

    open spec fn from_spec(value: T) -> Variables {
        arbitrary()
    }
}

} // verus!
