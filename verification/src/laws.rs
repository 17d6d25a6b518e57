//! Laws of the operator catalog, the evaluator and the environment.

use vstd::prelude::*;

use crate::evaluation::{
    apply_binary, eval, short_circuit, EvaluationErrorView,
};
use crate::tree::{ExpressionView, Operator};
use crate::value::{wrap, ValueErrorView, ValueView};
use crate::variables::{
    as_map, binding_line, binds, distinct_names, lemma_put_binding, lemma_remove_binding,
    put_binding, remove_binding, show_text, Binding,
};

verus! {

/// The sum of two integers is their arithmetic sum, where that sum is a
/// 64-bit integer.
pub proof fn law_plus_is_the_sum(a: i64, b: i64)
    requires
        i64::MIN <= a + b <= i64::MAX,
    ensures
        ValueView::Int(a).plus(ValueView::Int(b)) == Ok::<ValueView, ValueErrorView>(
            ValueView::Int((a + b) as i64),
        ),
{
}

/// The difference and the product of two integers are the arithmetic ones,
/// where those are 64-bit integers.
pub proof fn law_minus_and_multiply_are_exact(a: i64, b: i64)
    ensures
        i64::MIN <= a - b <= i64::MAX ==> ValueView::Int(a).minus(ValueView::Int(b)) == Ok::<
            ValueView,
            ValueErrorView,
        >(ValueView::Int((a - b) as i64)),
        i64::MIN <= a * b <= i64::MAX ==> ValueView::Int(a).multiply(ValueView::Int(b)) == Ok::<
            ValueView,
            ValueErrorView,
        >(ValueView::Int((a * b) as i64)),
{
    if i64::MIN <= a * b <= i64::MAX {
        let p = a * b;
        assert(wrap(p) == p);
    }
}

/// Wrapping leaves a 64-bit integer as it is, and always yields an integer
/// that differs from its argument by a multiple of 2^64.
pub proof fn law_wrap(x: int)
    ensures
        i64::MIN <= x <= i64::MAX ==> wrap(x) == x,
        (wrap(x) - x) % 0x1_0000_0000_0000_0000 == 0,
{
}

/// Division of an integer by the integer zero always fails with
/// `DivisionByZero`, which holds the dividend.
pub proof fn law_division_by_zero(a: i64)
    ensures
        ValueView::Int(a).divide(ValueView::Int(0)) == Err::<ValueView, ValueErrorView>(
            ValueErrorView::DivisionByZero { value: ValueView::Int(a) },
        ),
{
}

/// `Empty` equals `Empty` and no other value; comparing with `Empty` never
/// fails; `not_equal` is the negation.
pub proof fn law_equality_with_empty(v: ValueView)
    ensures
        ValueView::Empty.equal(ValueView::Empty) == Ok::<ValueView, ValueErrorView>(
            ValueView::Bool(true),
        ),
        ValueView::Empty.not_equal(ValueView::Empty) == Ok::<ValueView, ValueErrorView>(
            ValueView::Bool(false),
        ),
        !(v is Empty) ==> v.equal(ValueView::Empty) == Ok::<ValueView, ValueErrorView>(
            ValueView::Bool(false),
        ),
        !(v is Empty) ==> ValueView::Empty.equal(v) == Ok::<ValueView, ValueErrorView>(
            ValueView::Bool(false),
        ),
        !(v is Empty) ==> v.not_equal(ValueView::Empty) == Ok::<ValueView, ValueErrorView>(
            ValueView::Bool(true),
        ),
        !(v is Empty) ==> ValueView::Empty.not_equal(v) == Ok::<ValueView, ValueErrorView>(
            ValueView::Bool(true),
        ),
{
}

/// `not_equal` is defined for the operands for which `equal` is, and
/// yields the negated boolean.
pub proof fn law_not_equal_negates_equal(a: ValueView, b: ValueView)
    ensures
        match a.equal(b) {
            Ok(ValueView::Bool(same)) => a.not_equal(b) == Ok::<ValueView, ValueErrorView>(
                ValueView::Bool(!same),
            ),
            Ok(_) => false,
            Err(_) => a.not_equal(b) == a.unsupported("!="@, b),
        },
{
}

/// There is no coercion: a binary operator applied to two values of
/// different variants, neither of them `Empty`, fails with `BinaryOp`,
/// which holds both operands.
pub proof fn law_no_coercion(operator: Operator, a: ValueView, b: ValueView)
    requires
        operator.is_binary(),
        !(a is Empty),
        !(b is Empty),
        (a is Int) != (b is Int) || (a is Str) != (b is Str) || (a is Bool) != (b is Bool),
    ensures
        apply_binary(operator, a, b) matches Err(
            ValueErrorView::BinaryOp { left, operator: _, right },
        ) && left == a && right == b,
{
}

/// `and` and `nand` with a left operand that evaluates to `false`, and
/// `or` and `nor` with one that evaluates to `true`, yield their result
/// whatever the right operand is, even one that fails.
pub proof fn law_short_circuit(
    left: ExpressionView,
    right: ExpressionView,
    env: Map<Seq<char>, ValueView>,
)
    ensures
        eval(left, env) == Ok::<ValueView, EvaluationErrorView>(ValueView::Bool(false)) ==> {
            &&& eval(
                ExpressionView::BinaryOp {
                    left: Box::new(left),
                    operator: Operator::And,
                    right: Box::new(right),
                },
                env,
            ) == Ok::<ValueView, EvaluationErrorView>(ValueView::Bool(false))
            &&& eval(
                ExpressionView::BinaryOp {
                    left: Box::new(left),
                    operator: Operator::Nand,
                    right: Box::new(right),
                },
                env,
            ) == Ok::<ValueView, EvaluationErrorView>(ValueView::Bool(true))
        },
        eval(left, env) == Ok::<ValueView, EvaluationErrorView>(ValueView::Bool(true)) ==> {
            &&& eval(
                ExpressionView::BinaryOp {
                    left: Box::new(left),
                    operator: Operator::Or,
                    right: Box::new(right),
                },
                env,
            ) == Ok::<ValueView, EvaluationErrorView>(ValueView::Bool(true))
            &&& eval(
                ExpressionView::BinaryOp {
                    left: Box::new(left),
                    operator: Operator::Nor,
                    right: Box::new(right),
                },
                env,
            ) == Ok::<ValueView, EvaluationErrorView>(ValueView::Bool(false))
        },
{
}

/// Where the left operand does not decide the result, a failure of the
/// right operand is the result. `xor`, the comparisons, the arithmetic
/// operators and `matches` are never decided by the left operand.
pub proof fn law_right_operand_is_needed(
    operator: Operator,
    left: ExpressionView,
    right: ExpressionView,
    env: Map<Seq<char>, ValueView>,
)
    requires
        eval(left, env) is Ok,
        eval(right, env) is Err,
    ensures
        short_circuit(operator, eval(left, env)->Ok_0) is None ==> eval(
            ExpressionView::BinaryOp { left: Box::new(left), operator, right: Box::new(right) },
            env,
        ) == eval(right, env),
        operator != Operator::And && operator != Operator::Nand && operator != Operator::Or
            && operator != Operator::Nor ==> short_circuit(operator, eval(left, env)->Ok_0)
            is None,
{
}

/// A failure of the left operand is the result of a binary operation, and
/// a failure of the operand is the result of a unary one.
pub proof fn law_first_failure_wins(
    operator: Operator,
    left: ExpressionView,
    right: ExpressionView,
    env: Map<Seq<char>, ValueView>,
)
    requires
        eval(left, env) is Err,
    ensures
        eval(
            ExpressionView::BinaryOp { left: Box::new(left), operator, right: Box::new(right) },
            env,
        ) == eval(left, env),
        eval(ExpressionView::UnaryOp { expression: Box::new(left), operator }, env) == eval(
            left,
            env,
        ),
{
}

/// An identifier evaluates to the value that the environment binds to it,
/// and fails with `UndeclaredIdentifier` where there is none.
pub proof fn law_identifier(name: Seq<char>, env: Map<Seq<char>, ValueView>)
    ensures
        eval(ExpressionView::Identifier(name), env) == if env.contains_key(name) {
            Ok::<ValueView, EvaluationErrorView>(env[name])
        } else {
            Err::<ValueView, EvaluationErrorView>(EvaluationErrorView::UndeclaredIdentifier(name))
        },
{
}

/// Two environments agree on `name`: both bind it to the same value, or
/// neither binds it.
pub open spec fn agree_on(
    first: Map<Seq<char>, ValueView>,
    second: Map<Seq<char>, ValueView>,
    name: Seq<char>,
) -> bool {
    first.contains_key(name) == second.contains_key(name) && (first.contains_key(name)
        ==> first[name] == second[name])
}

/// Evaluation reads only the variables that the expression names: it
/// yields the same in two environments that agree on them.
pub proof fn law_only_named_variables_are_read(
    e: ExpressionView,
    first: Map<Seq<char>, ValueView>,
    second: Map<Seq<char>, ValueView>,
)
    requires
        forall|name: Seq<char>| e.mentions(name) ==> agree_on(first, second, name),
    ensures
        eval(e, first) == eval(e, second),
    decreases e,
{
    match e {
        ExpressionView::Identifier(name) => {
            assert(e.mentions(name));
        },
        ExpressionView::Literal(_) => {},
        ExpressionView::BinaryOp { left, operator, right } => {
            assert forall|name: Seq<char>| left.mentions(name) implies agree_on(
                first,
                second,
                name,
            ) by {
                assert(e.mentions(name));
            }
            assert forall|name: Seq<char>| right.mentions(name) implies agree_on(
                first,
                second,
                name,
            ) by {
                assert(e.mentions(name));
            }
            law_only_named_variables_are_read(*left, first, second);
            law_only_named_variables_are_read(*right, first, second);
        },
        ExpressionView::UnaryOp { expression, operator } => {
            assert forall|name: Seq<char>| expression.mentions(name) implies agree_on(
                first,
                second,
                name,
            ) by {
                assert(e.mentions(name));
            }
            law_only_named_variables_are_read(*expression, first, second);
        },
    }
}

/// After `put`, the name is bound to the value, and every other name is
/// bound as before.
pub proof fn law_put_then_get(b: Seq<Binding>, name: Seq<char>, value: ValueView, other: Seq<char>)
    requires
        distinct_names(b),
    ensures
        as_map(put_binding(b, name, value)).contains_key(name),
        as_map(put_binding(b, name, value))[name] == value,
        other != name ==> as_map(put_binding(b, name, value)).contains_key(other) == as_map(
            b,
        ).contains_key(other),
        other != name && as_map(b).contains_key(other) ==> as_map(
            put_binding(b, name, value),
        )[other] == as_map(b)[other],
{
    lemma_put_binding(b, name, value);
}

/// After `remove`, the name is not bound, so that a second `remove` finds
/// nothing and changes nothing.
pub proof fn law_remove_once(b: Seq<Binding>, name: Seq<char>)
    requires
        distinct_names(b),
    ensures
        !as_map(remove_binding(b, name)).contains_key(name),
        remove_binding(remove_binding(b, name), name) == remove_binding(b, name),
{
    lemma_remove_binding(b, name);
    assert(!binds(remove_binding(b, name), name));
}

/// The listing with `omit_empty` is the listing of the bindings that are
/// not `Empty`; the listing without it has a line for every binding.
pub proof fn law_show_omits_empty(b: Seq<Binding>, last: Binding)
    ensures
        show_text(b, true) == show_text(b.filter(|x: Binding| !(x.1 is Empty)), false),
        show_text(b.push(last), false) == show_text(b, false) + binding_line(last),
        show_text(b.push(last), true) == if last.1 is Empty {
            show_text(b, true)
        } else {
            show_text(b, true) + binding_line(last)
        },
    decreases b.len(),
{
    assert(b.push(last).drop_last() =~= b);
    let keep = |x: Binding| !(x.1 is Empty);
    if b.len() == 0 {
        assert(b.filter(keep) =~= Seq::<Binding>::empty()) by {
            reveal(Seq::filter);
        }
    } else {
        law_show_omits_empty(b.drop_last(), b.last());
        assert(b.drop_last().push(b.last()) =~= b);
        assert(b.filter(keep) == if keep(b.last()) {
            b.drop_last().filter(keep).push(b.last())
        } else {
            b.drop_last().filter(keep)
        }) by {
            reveal(Seq::filter);
        }
        if keep(b.last()) {
            assert(b.drop_last().filter(keep).push(b.last()).drop_last() =~= b.drop_last().filter(
                keep,
            ));
        }
    }
}

} // verus!
