//! Runtime values and the operator catalog.

use vstd::prelude::*;
use vstd::string::*;

use crate::pattern::{regex_is_match, regex_syntax_error, search};
use crate::text::{concat, decimal_text, int_to_string};
use crate::tree::Literal;

verus! {

/// A runtime value of the language.
#[derive(Debug)]
pub enum Value {
    Int(i64),
    Str(String),
    Bool(bool),
    Empty,
}

/// The mathematical model of a runtime value.
pub enum ValueView {
    Int(i64),
    Str(Seq<char>),
    Bool(bool),
    Empty,
}

/// An operator-level failure.
#[derive(Debug)]
pub enum ValueError {
    /// The operator is not defined for this pair of variants.
    BinaryOp { left: Value, operator: &'static str, right: Value },
    /// The operator is not defined for this variant.
    UnaryOp { value: Value, operator: &'static str },
    /// The divisor of an integer division is zero.
    DivisionByZero { value: Value },
    /// The right-hand string of `matches` is no regular expression.
    InvalidRegex { regex: String, message: String },
    /// A failure raised while validating a typed field.
    Other { message: String },
}

/// The mathematical model of a `ValueError`.
pub enum ValueErrorView {
    BinaryOp { left: ValueView, operator: Seq<char>, right: ValueView },
    UnaryOp { value: ValueView, operator: Seq<char> },
    DivisionByZero { value: ValueView },
    InvalidRegex { regex: Seq<char>, message: Seq<char> },
    Other { message: Seq<char> },
}

pub type ValueResult = Result<Value, ValueError>;

/// The model of what an operator yields.
pub type ValueOutcome = Result<ValueView, ValueErrorView>;

impl View for Value {
    type V = ValueView;

    open spec fn view(&self) -> ValueView {
        match self {
            Value::Int(i) => ValueView::Int(*i),
            Value::Str(s) => ValueView::Str(s@),
            Value::Bool(b) => ValueView::Bool(*b),
            Value::Empty => ValueView::Empty,
        }
    }
}

impl View for ValueError {
    type V = ValueErrorView;

    open spec fn view(&self) -> ValueErrorView {
        match self {
            ValueError::BinaryOp { left, operator, right } => ValueErrorView::BinaryOp {
                left: left@,
                operator: operator@,
                right: right@,
            },
            ValueError::UnaryOp { value, operator } => ValueErrorView::UnaryOp {
                value: value@,
                operator: operator@,
            },
            ValueError::DivisionByZero { value } => ValueErrorView::DivisionByZero {
                value: value@,
            },
            ValueError::InvalidRegex { regex, message } => ValueErrorView::InvalidRegex {
                regex: regex@,
                message: message@,
            },
            ValueError::Other { message } => ValueErrorView::Other { message: message@ },
        }
    }
}

/// The model of an operator's result.
pub open spec fn result_view(r: ValueResult) -> ValueOutcome {
    match r {
        Ok(value) => Ok(value@),
        Err(error) => Err(error@),
    }
}

/// The model of a short-circuit decision.
pub open spec fn option_view(o: Option<Value>) -> Option<ValueView> {
    match o {
        Some(value) => Some(value@),
        None => None,
    }
}

/// The 64-bit two's complement integer congruent to `x`.
pub open spec fn wrap(x: int) -> i64 {
    let m = x % 0x1_0000_0000_0000_0000;
    if m > i64::MAX {
        (m - 0x1_0000_0000_0000_0000) as i64
    } else {
        m as i64
    }
}

/// The quotient of `x` by `d`, rounded toward zero.
pub open spec fn truncated_quotient(x: int, d: int) -> int
    recommends
        d != 0,
{
    if x >= 0 && d > 0 {
        x / d
    } else if x < 0 && d < 0 {
        (-x) / (-d)
    } else if x < 0 {
        -((-x) / d)
    } else {
        -(x / (-d))
    }
}

impl ValueView {
    /// The lowercase name of the variant.
    pub open spec fn kind_name(self) -> Seq<char> {
        match self {
            ValueView::Int(_) => "int"@,
            ValueView::Str(_) => "str"@,
            ValueView::Bool(_) => "bool"@,
            ValueView::Empty => "empty"@,
        }
    }

    /// The value written as a literal: decimal digits, the string itself,
    /// `true` or `false`, or `empty`.
    pub open spec fn text(self) -> Seq<char> {
        match self {
            ValueView::Int(i) => decimal_text(i as int),
            ValueView::Str(s) => s,
            ValueView::Bool(b) => if b {
                "true"@
            } else {
                "false"@
            },
            ValueView::Empty => "empty"@,
        }
    }

    /// The failure of a binary operator that is not defined for the operands.
    pub open spec fn unsupported(self, operator: Seq<char>, other: ValueView) -> ValueOutcome {
        Err(ValueErrorView::BinaryOp { left: self, operator, right: other })
    }

    /// The failure of a unary operator that is not defined for the operand.
    pub open spec fn unsupported_unary(self, operator: Seq<char>) -> ValueOutcome {
        Err(ValueErrorView::UnaryOp { value: self, operator })
    }

    pub open spec fn not(self) -> ValueOutcome {
        match self {
            ValueView::Bool(b) => Ok(ValueView::Bool(!b)),
            _ => self.unsupported_unary("not"@),
        }
    }

    pub open spec fn and(self, other: ValueView) -> ValueOutcome {
        match (self, other) {
            (ValueView::Bool(l), ValueView::Bool(r)) => Ok(ValueView::Bool(l && r)),
            _ => self.unsupported("and"@, other),
        }
    }

    pub open spec fn nand(self, other: ValueView) -> ValueOutcome {
        match (self, other) {
            (ValueView::Bool(l), ValueView::Bool(r)) => Ok(ValueView::Bool(!(l && r))),
            _ => self.unsupported("nand"@, other),
        }
    }

    pub open spec fn or(self, other: ValueView) -> ValueOutcome {
        match (self, other) {
            (ValueView::Bool(l), ValueView::Bool(r)) => Ok(ValueView::Bool(l || r)),
            _ => self.unsupported("or"@, other),
        }
    }

    pub open spec fn nor(self, other: ValueView) -> ValueOutcome {
        match (self, other) {
            (ValueView::Bool(l), ValueView::Bool(r)) => Ok(ValueView::Bool(!(l || r))),
            _ => self.unsupported("nor"@, other),
        }
    }

    pub open spec fn xor(self, other: ValueView) -> ValueOutcome {
        match (self, other) {
            (ValueView::Bool(l), ValueView::Bool(r)) => Ok(ValueView::Bool(l != r)),
            _ => self.unsupported("xor"@, other),
        }
    }

    /// `and` is decided by a left operand that is `false`.
    pub open spec fn and_short_circuit(self) -> Option<ValueView> {
        if self == ValueView::Bool(false) {
            Some(ValueView::Bool(false))
        } else {
            None
        }
    }

    /// `nand` is decided by a left operand that is `false`.
    pub open spec fn nand_short_circuit(self) -> Option<ValueView> {
        if self == ValueView::Bool(false) {
            Some(ValueView::Bool(true))
        } else {
            None
        }
    }

    /// `or` is decided by a left operand that is `true`.
    pub open spec fn or_short_circuit(self) -> Option<ValueView> {
        if self == ValueView::Bool(true) {
            Some(ValueView::Bool(true))
        } else {
            None
        }
    }

    /// `nor` is decided by a left operand that is `true`.
    pub open spec fn nor_short_circuit(self) -> Option<ValueView> {
        if self == ValueView::Bool(true) {
            Some(ValueView::Bool(false))
        } else {
            None
        }
    }

    /// Whether two values of one variant are the same, where either operand
    /// may be `Empty`: `Empty` equals `Empty` and nothing else.
    pub open spec fn equal(self, other: ValueView) -> ValueOutcome {
        match (self, other) {
            (ValueView::Empty, _) => Ok(ValueView::Bool(other is Empty)),
            (_, ValueView::Empty) => Ok(ValueView::Bool(false)),
            (ValueView::Int(l), ValueView::Int(r)) => Ok(ValueView::Bool(l == r)),
            (ValueView::Str(l), ValueView::Str(r)) => Ok(ValueView::Bool(l == r)),
            (ValueView::Bool(l), ValueView::Bool(r)) => Ok(ValueView::Bool(l == r)),
            _ => self.unsupported("="@, other),
        }
    }

    /// The negation of `equal`, defined for the same operands.
    pub open spec fn not_equal(self, other: ValueView) -> ValueOutcome {
        match (self, other) {
            (ValueView::Empty, _) => Ok(ValueView::Bool(!(other is Empty))),
            (_, ValueView::Empty) => Ok(ValueView::Bool(true)),
            (ValueView::Int(l), ValueView::Int(r)) => Ok(ValueView::Bool(l != r)),
            (ValueView::Str(l), ValueView::Str(r)) => Ok(ValueView::Bool(l != r)),
            (ValueView::Bool(l), ValueView::Bool(r)) => Ok(ValueView::Bool(l != r)),
            _ => self.unsupported("!="@, other),
        }
    }

    /// The sum of two integers, wrapped to 64 bits, or the concatenation of
    /// two strings.
    pub open spec fn plus(self, other: ValueView) -> ValueOutcome {
        match (self, other) {
            (ValueView::Int(l), ValueView::Int(r)) => Ok(ValueView::Int(wrap(l + r))),
            (ValueView::Str(l), ValueView::Str(r)) => Ok(ValueView::Str(l + r)),
            _ => self.unsupported("+"@, other),
        }
    }

    pub open spec fn unary_plus(self) -> ValueOutcome {
        match self {
            ValueView::Int(i) => Ok(ValueView::Int(i)),
            _ => self.unsupported_unary("+"@),
        }
    }

    /// The difference of two integers, wrapped to 64 bits.
    pub open spec fn minus(self, other: ValueView) -> ValueOutcome {
        match (self, other) {
            (ValueView::Int(l), ValueView::Int(r)) => Ok(ValueView::Int(wrap(l - r))),
            _ => self.unsupported("-"@, other),
        }
    }

    /// The negation of an integer, wrapped to 64 bits.
    pub open spec fn unary_minus(self) -> ValueOutcome {
        match self {
            ValueView::Int(i) => Ok(ValueView::Int(wrap(-i))),
            _ => self.unsupported_unary("-"@),
        }
    }

    /// The product of two integers, wrapped to 64 bits.
    pub open spec fn multiply(self, other: ValueView) -> ValueOutcome {
        match (self, other) {
            (ValueView::Int(l), ValueView::Int(r)) => Ok(ValueView::Int(wrap(l * r))),
            _ => self.unsupported("*"@, other),
        }
    }

    /// The quotient of two integers, rounded toward zero and wrapped to 64
    /// bits; division by zero fails.
    pub open spec fn divide(self, other: ValueView) -> ValueOutcome {
        match (self, other) {
            (ValueView::Int(l), ValueView::Int(r)) => if r == 0 {
                Err(ValueErrorView::DivisionByZero { value: self })
            } else {
                Ok(ValueView::Int(wrap(truncated_quotient(l as int, r as int))))
            },
            _ => self.unsupported("/"@, other),
        }
    }

    /// What a regular expression search yields as a value: the pattern's
    /// compilation error, or whether the pattern was found.
    pub open spec fn match_outcome(
        pattern: Seq<char>,
        searched: Result<bool, Seq<char>>,
    ) -> ValueOutcome {
        match searched {
            Ok(found) => Ok(ValueView::Bool(found)),
            Err(message) => Err(ValueErrorView::InvalidRegex { regex: pattern, message }),
        }
    }

    /// What searching `subject` for `pattern` yields.
    pub open spec fn searched(pattern: Seq<char>, subject: Seq<char>) -> Result<bool, Seq<char>> {
        match regex_syntax_error(pattern) {
            Some(message) => Err(message),
            None => Ok(regex_is_match(pattern, subject)),
        }
    }

    /// Whether the right operand, a regular expression, matches anywhere in
    /// the left operand; a pattern that does not compile fails.
    pub open spec fn matches(self, other: ValueView) -> ValueOutcome {
        match (self, other) {
            (ValueView::Str(subject), ValueView::Str(pattern)) => Self::match_outcome(
                pattern,
                Self::searched(pattern, subject),
            ),
            _ => self.unsupported("matches"@, other),
        }
    }
}

impl ValueErrorView {
    /// The message shown to the user.
    pub open spec fn text(self) -> Seq<char> {
        match self {
            ValueErrorView::BinaryOp { left, operator, right } => "unsupported operation "@
                + left.kind_name() + " "@ + operator + " "@ + right.kind_name(),
            ValueErrorView::UnaryOp { value, operator } => "unsupported operation "@ + operator
                + " "@ + value.kind_name(),
            ValueErrorView::DivisionByZero { value } => "division by zero ("@ + value.text()
                + " / 0)"@,
            ValueErrorView::InvalidRegex { regex, message } => "invalid regex \""@ + regex
                + "\": "@ + message,
            ValueErrorView::Other { message } => message,
        }
    }
}

impl Clone for Value {
    fn clone(&self) -> (r: Self)
        ensures
            r@ == self@,
    {
        match self {
            Value::Int(i) => Value::Int(*i),
            Value::Str(s) => Value::Str(s.clone()),
            Value::Bool(b) => Value::Bool(*b),
            Value::Empty => Value::Empty,
        }
    }
}

impl Clone for ValueError {
    fn clone(&self) -> (r: Self)
        ensures
            r@ == self@,
    {
        match self {
            ValueError::BinaryOp { left, operator, right } => ValueError::BinaryOp {
                left: left.clone(),
                operator: *operator,
                right: right.clone(),
            },
            ValueError::UnaryOp { value, operator } => ValueError::UnaryOp {
                value: value.clone(),
                operator: *operator,
            },
            ValueError::DivisionByZero { value } => ValueError::DivisionByZero {
                value: value.clone(),
            },
            ValueError::InvalidRegex { regex, message } => ValueError::InvalidRegex {
                regex: regex.clone(),
                message: message.clone(),
            },
            ValueError::Other { message } => ValueError::Other { message: message.clone() },
        }
    }
}

impl From<Literal> for Value {
    fn from(value: Literal) -> (r: Self) {
        match value {
            Literal::Int(value) => Value::Int(value),
            Literal::Str(value) => Value::Str(value),
            Literal::Bool(value) => Value::Bool(value),
            Literal::Empty => Value::Empty,
        }
    }
}

impl vstd::std_specs::convert::FromSpecImpl<Literal> for Value {
    open spec fn obeys_from_spec() -> bool {
        true
    }

    open spec fn from_spec(value: Literal) -> Value {
        match value {
            Literal::Int(value) => Value::Int(value),
            Literal::Str(value) => Value::Str(value),
            Literal::Bool(value) => Value::Bool(value),
            Literal::Empty => Value::Empty,
        }
    }
}

impl Value {
    /// The lowercase name of the variant: `int`, `str`, `bool` or `empty`.
    pub fn type_str(&self) -> (r: &'static str)
        ensures
            r@ == self@.kind_name(),
    {
        match self {
            Value::Int(_) => "int",
            Value::Str(_) => "str",
            Value::Bool(_) => "bool",
            Value::Empty => "empty",
        }
    }

    /// The value written as a literal.
    pub fn to_string(&self) -> (r: String)
        ensures
            r@ == self@.text(),
    {
        match self {
            Value::Int(value) => int_to_string(*value),
            Value::Str(value) => value.clone(),
            Value::Bool(value) => if *value {
                "true".to_owned()
            } else {
                "false".to_owned()
            },
            Value::Empty => "empty".to_owned(),
        }
    }
}

impl ValueError {
    pub fn new_binary(left: Value, operator: &'static str, right: Value) -> (r: Self)
        ensures
            r == (ValueError::BinaryOp { left, operator, right }),
    {
        ValueError::BinaryOp { left, operator, right }
    }

    pub fn new_unary(value: Value, operator: &'static str) -> (r: Self)
        ensures
            r == (ValueError::UnaryOp { value, operator }),
    {
        ValueError::UnaryOp { value, operator }
    }

    pub fn new_division_by_zero(value: Value) -> (r: Self)
        ensures
            r == (ValueError::DivisionByZero { value }),
    {
        ValueError::DivisionByZero { value }
    }

    pub fn new_invalid_regex(regex: String, message: String) -> (r: Self)
        ensures
            r == (ValueError::InvalidRegex { regex, message }),
    {
        ValueError::InvalidRegex { regex, message }
    }

    pub fn new_other(message: String) -> (r: Self)
        ensures
            r == (ValueError::Other { message }),
    {
        ValueError::Other { message }
    }

    /// The message shown to the user.
    pub fn to_string(&self) -> (r: String)
        ensures
            r@ == self@.text(),
    {
        match self {
            ValueError::BinaryOp { left, operator, right } => {
                let mut out = concat("unsupported operation ", left.type_str());
                out.append(" ");
                out.append(operator);
                out.append(" ");
                out.append(right.type_str());
                out
            },
            ValueError::UnaryOp { value, operator } => {
                let mut out = concat("unsupported operation ", operator);
                out.append(" ");
                out.append(value.type_str());
                out
            },
            ValueError::DivisionByZero { value } => {
                let shown = value.to_string();
                let mut out = concat("division by zero (", shown.as_str());
                out.append(" / 0)");
                out
            },
            ValueError::InvalidRegex { regex, message } => {
                let mut out = concat("invalid regex \"", regex.as_str());
                out.append("\": ");
                out.append(message.as_str());
                out
            },
            ValueError::Other { message } => message.clone(),
        }
    }
}

impl Value {
    /// Logical negation of a boolean.
    pub fn not(&self) -> (r: ValueResult)
        ensures
            result_view(r) == self@.not(),
    {
        match self {
            Value::Bool(value) => Ok(Value::Bool(!*value)),
            _ => Err(ValueError::new_unary(self.clone(), "not")),
        }
    }

    /// Conjunction of two booleans.
    pub fn and(&self, other: &Self) -> (r: ValueResult)
        ensures
            result_view(r) == self@.and(other@),
    {
        match self {
            Value::Bool(l) => match other {
                Value::Bool(r) => Ok(Value::Bool(*l && *r)),
                _ => Err(ValueError::new_binary(self.clone(), "and", other.clone())),
            },
            _ => Err(ValueError::new_binary(self.clone(), "and", other.clone())),
        }
    }

    /// The result of `and` where the left operand alone decides it.
    pub fn and_short_circuit(&self) -> (r: Option<Value>)
        ensures
            option_view(r) == self@.and_short_circuit(),
    {
        if let Value::Bool(l) = self {
            if !(*l) {
                return Some(Value::Bool(false));
            }
        }
        None
    }

    /// Negated conjunction of two booleans.
    pub fn nand(&self, other: &Self) -> (r: ValueResult)
        ensures
            result_view(r) == self@.nand(other@),
    {
        match self {
            Value::Bool(l) => match other {
                Value::Bool(r) => Ok(Value::Bool(!(*l && *r))),
                _ => Err(ValueError::new_binary(self.clone(), "nand", other.clone())),
            },
            _ => Err(ValueError::new_binary(self.clone(), "nand", other.clone())),
        }
    }

    /// The result of `nand` where the left operand alone decides it.
    pub fn nand_short_circuit(&self) -> (r: Option<Value>)
        ensures
            option_view(r) == self@.nand_short_circuit(),
    {
        if let Value::Bool(l) = self {
            if !(*l) {
                return Some(Value::Bool(true));
            }
        }
        None
    }

    /// Disjunction of two booleans.
    pub fn or(&self, other: &Self) -> (r: ValueResult)
        ensures
            result_view(r) == self@.or(other@),
    {
        match self {
            Value::Bool(l) => match other {
                Value::Bool(r) => Ok(Value::Bool(*l || *r)),
                _ => Err(ValueError::new_binary(self.clone(), "or", other.clone())),
            },
            _ => Err(ValueError::new_binary(self.clone(), "or", other.clone())),
        }
    }

    /// The result of `or` where the left operand alone decides it.
    pub fn or_short_circuit(&self) -> (r: Option<Value>)
        ensures
            option_view(r) == self@.or_short_circuit(),
    {
        if let Value::Bool(l) = self {
            if *l {
                return Some(Value::Bool(true));
            }
        }
        None
    }

    /// Negated disjunction of two booleans.
    pub fn nor(&self, other: &Self) -> (r: ValueResult)
        ensures
            result_view(r) == self@.nor(other@),
    {
        match self {
            Value::Bool(l) => match other {
                Value::Bool(r) => Ok(Value::Bool(!(*l || *r))),
                _ => Err(ValueError::new_binary(self.clone(), "nor", other.clone())),
            },
            _ => Err(ValueError::new_binary(self.clone(), "nor", other.clone())),
        }
    }

    /// The result of `nor` where the left operand alone decides it.
    pub fn nor_short_circuit(&self) -> (r: Option<Value>)
        ensures
            option_view(r) == self@.nor_short_circuit(),
    {
        if let Value::Bool(l) = self {
            if *l {
                return Some(Value::Bool(false));
            }
        }
        None
    }

    /// Exclusive disjunction of two booleans.
    pub fn xor(&self, other: &Self) -> (r: ValueResult)
        ensures
            result_view(r) == self@.xor(other@),
    {
        match self {
            Value::Bool(l) => match other {
                Value::Bool(r) => Ok(Value::Bool(*l != *r)),
                _ => Err(ValueError::new_binary(self.clone(), "xor", other.clone())),
            },
            _ => Err(ValueError::new_binary(self.clone(), "xor", other.clone())),
        }
    }

    /// Equality of two values of one variant, or of any value and `Empty`.
    pub fn equal(&self, other: &Self) -> (r: ValueResult)
        ensures
            result_view(r) == self@.equal(other@),
    {
        match self {
            Value::Int(l) => match other {
                Value::Int(r) => Ok(Value::Bool(*l == *r)),
                Value::Empty => Ok(Value::Bool(false)),
                _ => Err(ValueError::new_binary(self.clone(), "=", other.clone())),
            },
            Value::Str(l) => match other {
                Value::Str(r) => Ok(Value::Bool(*l == *r)),
                Value::Empty => Ok(Value::Bool(false)),
                _ => Err(ValueError::new_binary(self.clone(), "=", other.clone())),
            },
            Value::Bool(l) => match other {
                Value::Bool(r) => Ok(Value::Bool(*l == *r)),
                Value::Empty => Ok(Value::Bool(false)),
                _ => Err(ValueError::new_binary(self.clone(), "=", other.clone())),
            },
            Value::Empty => match other {
                Value::Empty => Ok(Value::Bool(true)),
                _ => Ok(Value::Bool(false)),
            },
        }
    }

    /// Inequality of two values of one variant, or of any value and `Empty`.
    pub fn not_equal(&self, other: &Self) -> (r: ValueResult)
        ensures
            result_view(r) == self@.not_equal(other@),
    {
        match self {
            Value::Int(l) => match other {
                Value::Int(r) => Ok(Value::Bool(*l != *r)),
                Value::Empty => Ok(Value::Bool(true)),
                _ => Err(ValueError::new_binary(self.clone(), "!=", other.clone())),
            },
            Value::Str(l) => match other {
                Value::Str(r) => Ok(Value::Bool(!(*l == *r))),
                Value::Empty => Ok(Value::Bool(true)),
                _ => Err(ValueError::new_binary(self.clone(), "!=", other.clone())),
            },
            Value::Bool(l) => match other {
                Value::Bool(r) => Ok(Value::Bool(*l != *r)),
                Value::Empty => Ok(Value::Bool(true)),
                _ => Err(ValueError::new_binary(self.clone(), "!=", other.clone())),
            },
            Value::Empty => match other {
                Value::Empty => Ok(Value::Bool(false)),
                _ => Ok(Value::Bool(true)),
            },
        }
    }

    /// Sum of two integers, or concatenation of two strings.
    pub fn plus(&self, other: &Self) -> (r: ValueResult)
        ensures
            result_view(r) == self@.plus(other@),
    {
        match self {
            Value::Int(l) => match other {
                Value::Int(r) => Ok(Value::Int(l.wrapping_add(*r))),
                _ => Err(ValueError::new_binary(self.clone(), "+", other.clone())),
            },
            Value::Str(l) => match other {
                Value::Str(r) => {
                    let mut result = l.clone();
                    result.append(r.as_str());
                    Ok(Value::Str(result))
                },
                _ => Err(ValueError::new_binary(self.clone(), "+", other.clone())),
            },
            _ => Err(ValueError::new_binary(self.clone(), "+", other.clone())),
        }
    }

    /// An integer, unchanged.
    pub fn unary_plus(&self) -> (r: ValueResult)
        ensures
            result_view(r) == self@.unary_plus(),
    {
        match self {
            Value::Int(value) => Ok(Value::Int(*value)),
            _ => Err(ValueError::new_unary(self.clone(), "+")),
        }
    }

    /// Difference of two integers.
    pub fn minus(&self, other: &Self) -> (r: ValueResult)
        ensures
            result_view(r) == self@.minus(other@),
    {
        match self {
            Value::Int(l) => match other {
                Value::Int(r) => Ok(Value::Int(l.wrapping_sub(*r))),
                _ => Err(ValueError::new_binary(self.clone(), "-", other.clone())),
            },
            _ => Err(ValueError::new_binary(self.clone(), "-", other.clone())),
        }
    }

    /// Negation of an integer.
    pub fn unary_minus(&self) -> (r: ValueResult)
        ensures
            result_view(r) == self@.unary_minus(),
    {
        match self {
            Value::Int(value) => {
                let zero: i64 = 0;
                Ok(Value::Int(zero.wrapping_sub(*value)))
            },
            _ => Err(ValueError::new_unary(self.clone(), "-")),
        }
    }

    /// Product of two integers.
    pub fn multiply(&self, other: &Self) -> (r: ValueResult)
        ensures
            result_view(r) == self@.multiply(other@),
    {
        match self {
            Value::Int(l) => match other {
                Value::Int(r) => Ok(Value::Int(l.wrapping_mul(*r))),
                _ => Err(ValueError::new_binary(self.clone(), "*", other.clone())),
            },
            _ => Err(ValueError::new_binary(self.clone(), "*", other.clone())),
        }
    }

    /// Quotient of two integers, rounded toward zero.
    pub fn divide(&self, other: &Self) -> (r: ValueResult)
        ensures
            result_view(r) == self@.divide(other@),
    {
        match self {
            Value::Int(l) => match other {
                Value::Int(r) => {
                    if *r == 0 {
                        Err(ValueError::new_division_by_zero(self.clone()))
                    } else {
                        match l.checked_div(*r) {
                            Some(quotient) => Ok(Value::Int(quotient)),
                            None => Ok(Value::Int(*l)),
                        }
                    }
                },
                _ => Err(ValueError::new_binary(self.clone(), "/", other.clone())),
            },
            _ => Err(ValueError::new_binary(self.clone(), "/", other.clone())),
        }
    }

    /// What a finished regular expression search yields as a value: `Bool`
    /// of the answer, or `InvalidRegex` with the pattern and the message of
    /// its compilation error.
    pub fn match_outcome(pattern: &str, searched: Result<bool, String>) -> (r: ValueResult)
        ensures
            result_view(r) == ValueView::match_outcome(
                pattern@,
                match searched {
                    Ok(found) => Ok(found),
                    Err(message) => Err(message@),
                },
            ),
    {
        match searched {
            Ok(found) => Ok(Value::Bool(found)),
            Err(message) => Err(ValueError::new_invalid_regex(pattern.to_owned(), message)),
        }
    }

    /// Whether the regular expression `other` matches anywhere in `self`.
    /// The pattern is compiled anew on each call.
    pub fn matches(&self, other: &Self) -> (r: ValueResult)
        ensures
            result_view(r) == self@.matches(other@),
    {
        match self {
            Value::Str(l) => match other {
                Value::Str(r) => Value::match_outcome(r.as_str(), search(r.as_str(), l.as_str())),
                _ => Err(ValueError::new_binary(self.clone(), "matches", other.clone())),
            },
            _ => Err(ValueError::new_binary(self.clone(), "matches", other.clone())),
        }
    }
}

} // verus!
