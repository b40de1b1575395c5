//! The binary operators on values.
//!
//! An operator is defined on a few pairs of kinds of values and refuses
//! every other pair, with an error that holds both operands as they are
//! rendered. Nothing is converted on the way: a number is never read as a
//! truth value, nor a string as a number.

use crate::error::{
    outcome_view, CannotAddError, CannotCompareError, CannotDisplayError, CannotDivError,
    CannotModError, CannotMulError, CannotSubError, Error, ErrorView,
};
use crate::expr::Op;
use crate::number::{
    answers, ask, is_function, number_eq, number_le, number_lt, Arithmetic, Operation,
};
use crate::text::PieceView;
use crate::value::{display, renderable, type_of, Value, ValueView};
use vstd::prelude::*;

verus! {

/// Whether `op` is one of the five operators of arithmetic.
pub open spec fn is_arithmetic(op: Op) -> bool {
    op is Add || op is Sub || op is Mul || op is Div || op is Mod
}

/// The operation that the arithmetic operator `op` asks for on the numbers
/// `x` and `y`.
pub open spec fn operation(op: Op, x: u64, y: u64) -> Operation {
    match op {
        Op::Add => Operation::Add(x, y),
        Op::Sub => Operation::Sub(x, y),
        Op::Mul => Operation::Mul(x, y),
        Op::Div => Operation::Div(x, y),
        _ => Operation::Rem(x, y),
    }
}

/// Whether `op` is defined on `a` and `b`: arithmetic and the four orderings
/// on two numbers; equality and inequality on two numbers, two strings or
/// two truth values; the connectives on two truth values.
pub open spec fn applies(op: Op, a: ValueView, b: ValueView) -> bool {
    match op {
        Op::Eq | Op::Neq => (a is Number && b is Number) || (a is String && b is String) || (a
            is Bool && b is Bool),
        Op::And | Op::Or => a is Bool && b is Bool,
        _ => a is Number && b is Number,
    }
}

/// What `op` gives on `a` and `b`, where it is defined on them. Arithmetic
/// gives the number that `m` answers.
pub open spec fn applied(m: Arithmetic, op: Op, a: ValueView, b: ValueView) -> ValueView {
    match op {
        Op::Eq => match (a, b) {
            (ValueView::Number(x), ValueView::Number(y)) => ValueView::Bool(number_eq(x, y)),
            (ValueView::String(x), ValueView::String(y)) => ValueView::Bool(x == y),
            (ValueView::Bool(x), ValueView::Bool(y)) => ValueView::Bool(x == y),
            _ => ValueView::Nil,
        },
        Op::Neq => match (a, b) {
            (ValueView::Number(x), ValueView::Number(y)) => ValueView::Bool(!number_eq(x, y)),
            (ValueView::String(x), ValueView::String(y)) => ValueView::Bool(x != y),
            (ValueView::Bool(x), ValueView::Bool(y)) => ValueView::Bool(x != y),
            _ => ValueView::Nil,
        },
        Op::Gt => ValueView::Bool(number_lt(b->Number_0, a->Number_0)),
        Op::Lt => ValueView::Bool(number_lt(a->Number_0, b->Number_0)),
        Op::Ge => ValueView::Bool(number_le(b->Number_0, a->Number_0)),
        Op::Le => ValueView::Bool(number_le(a->Number_0, b->Number_0)),
        Op::And => ValueView::Bool(a->Bool_0 && b->Bool_0),
        Op::Or => ValueView::Bool(a->Bool_0 || b->Bool_0),
        _ => ValueView::Number(m(operation(op, a->Number_0, b->Number_0))),
    }
}

/// The error with which `op` refuses two operands, rendered as `left` and
/// `right`: one of its own for each operator of arithmetic, and one for all
/// the others.
pub open spec fn refusal(op: Op, left: Seq<PieceView>, right: Seq<PieceView>) -> ErrorView {
    match op {
        Op::Add => ErrorView::CannotAdd { left, right },
        Op::Sub => ErrorView::CannotSub { left, right },
        Op::Mul => ErrorView::CannotMul { left, right },
        Op::Div => ErrorView::CannotDiv { left, right },
        Op::Mod => ErrorView::CannotMod { left, right },
        _ => ErrorView::CannotCompare { left, right },
    }
}

/// What `op` gives on `a` and `b`, each of which has a rendering or is not
/// needed rendered.
pub open spec fn binary(m: Arithmetic, op: Op, a: ValueView, b: ValueView) -> Result<
    ValueView,
    ErrorView,
> {
    if applies(op, a, b) {
        Ok(applied(m, op, a, b))
    } else {
        Err(refusal(op, display(a), display(b)))
    }
}

/// Whether `op` can be evaluated on `a` and `b` at all: it is defined on
/// them, or both can be rendered for the error.
pub open spec fn operable(op: Op, a: ValueView, b: ValueView) -> bool {
    applies(op, a, b) || (renderable(a) && renderable(b))
}

/// What `op` gives on any `a` and `b`: as `binary`, and where an operand
/// would have to be rendered and cannot, the error that says so, of the left
/// operand before the right.
pub open spec fn binary_checked(m: Arithmetic, op: Op, a: ValueView, b: ValueView) -> Result<
    ValueView,
    ErrorView,
> {
    if applies(op, a, b) {
        Ok(applied(m, op, a, b))
    } else if !renderable(a) {
        Err(ErrorView::CannotDisplay { found: type_of(a) })
    } else if !renderable(b) {
        Err(ErrorView::CannotDisplay { found: type_of(b) })
    } else {
        Err(refusal(op, display(a), display(b)))
    }
}

/// The error with which `op` refuses `left` and `right`.
fn refuse(op: Op, left: &Value, right: &Value) -> (e: Error)
    requires
        renderable(left@),
        renderable(right@),
    ensures
        e@ == refusal(op, display(left@), display(right@)),
{
    let left = left.display_value();
    let right = right.display_value();
    match op {
        Op::Add => Error::CannotAdd(CannotAddError { left, right }),
        Op::Sub => Error::CannotSub(CannotSubError { left, right }),
        Op::Mul => Error::CannotMul(CannotMulError { left, right }),
        Op::Div => Error::CannotDiv(CannotDivError { left, right }),
        Op::Mod => Error::CannotMod(CannotModError { left, right }),
        _ => Error::CannotCompare(CannotCompareError { left, right }),
    }
}

impl Value {
    /// The sum of two numbers.
    pub fn add<F: Fn(Operation) -> u64>(&self, other: &Value, host: &F) -> (r: Result<
        Value,
        Error,
    >)
        requires
            is_function(host),
            operable(Op::Add, self@, other@),
        ensures
            outcome_view(r) == binary(answers(host), Op::Add, self@, other@),
    {
        match (self, other) {
            (Value::Number(a), Value::Number(b)) => Ok(
                Value::Number(ask(host, Operation::Add(*a, *b))),
            ),
            _ => Err(refuse(Op::Add, self, other)),
        }
    }

    /// One number less another.
    pub fn sub<F: Fn(Operation) -> u64>(&self, other: &Value, host: &F) -> (r: Result<
        Value,
        Error,
    >)
        requires
            is_function(host),
            operable(Op::Sub, self@, other@),
        ensures
            outcome_view(r) == binary(answers(host), Op::Sub, self@, other@),
    {
        match (self, other) {
            (Value::Number(a), Value::Number(b)) => Ok(
                Value::Number(ask(host, Operation::Sub(*a, *b))),
            ),
            _ => Err(refuse(Op::Sub, self, other)),
        }
    }

    /// The product of two numbers.
    pub fn mul<F: Fn(Operation) -> u64>(&self, other: &Value, host: &F) -> (r: Result<
        Value,
        Error,
    >)
        requires
            is_function(host),
            operable(Op::Mul, self@, other@),
        ensures
            outcome_view(r) == binary(answers(host), Op::Mul, self@, other@),
    {
        match (self, other) {
            (Value::Number(a), Value::Number(b)) => Ok(
                Value::Number(ask(host, Operation::Mul(*a, *b))),
            ),
            _ => Err(refuse(Op::Mul, self, other)),
        }
    }

    /// One number divided by another.
    pub fn div<F: Fn(Operation) -> u64>(&self, other: &Value, host: &F) -> (r: Result<
        Value,
        Error,
    >)
        requires
            is_function(host),
            operable(Op::Div, self@, other@),
        ensures
            outcome_view(r) == binary(answers(host), Op::Div, self@, other@),
    {
        match (self, other) {
            (Value::Number(a), Value::Number(b)) => Ok(
                Value::Number(ask(host, Operation::Div(*a, *b))),
            ),
            _ => Err(refuse(Op::Div, self, other)),
        }
    }

    /// What is left of one number after division by another.
    pub fn modulo<F: Fn(Operation) -> u64>(&self, other: &Value, host: &F) -> (r: Result<
        Value,
        Error,
    >)
        requires
            is_function(host),
            operable(Op::Mod, self@, other@),
        ensures
            outcome_view(r) == binary(answers(host), Op::Mod, self@, other@),
    {
        match (self, other) {
            (Value::Number(a), Value::Number(b)) => Ok(
                Value::Number(ask(host, Operation::Rem(*a, *b))),
            ),
            _ => Err(refuse(Op::Mod, self, other)),
        }
    }

    /// Whether two numbers, two strings or two truth values are equal.
    pub fn eq(&self, other: &Value) -> (r: Result<Value, Error>)
        requires
            operable(Op::Eq, self@, other@),
        ensures
            forall|m: Arithmetic| outcome_view(r) == binary(m, Op::Eq, self@, other@),
    {
        match (self, other) {
            (Value::Number(a), Value::Number(b)) => Ok(Value::Bool(number_eq(*a, *b))),
            (Value::String(a), Value::String(b)) => Ok(Value::Bool(*a == *b)),
            (Value::Bool(a), Value::Bool(b)) => Ok(Value::Bool(*a == *b)),
            _ => Err(refuse(Op::Eq, self, other)),
        }
    }

    /// Whether two numbers, two strings or two truth values differ.
    pub fn neq(&self, other: &Value) -> (r: Result<Value, Error>)
        requires
            operable(Op::Neq, self@, other@),
        ensures
            forall|m: Arithmetic| outcome_view(r) == binary(m, Op::Neq, self@, other@),
    {
        match (self, other) {
            (Value::Number(a), Value::Number(b)) => Ok(Value::Bool(!number_eq(*a, *b))),
            (Value::String(a), Value::String(b)) => Ok(Value::Bool(!(*a == *b))),
            (Value::Bool(a), Value::Bool(b)) => Ok(Value::Bool(*a != *b)),
            _ => Err(refuse(Op::Neq, self, other)),
        }
    }

    /// Whether one number is above another.
    pub fn gt(&self, other: &Value) -> (r: Result<Value, Error>)
        requires
            operable(Op::Gt, self@, other@),
        ensures
            forall|m: Arithmetic| outcome_view(r) == binary(m, Op::Gt, self@, other@),
    {
        match (self, other) {
            (Value::Number(a), Value::Number(b)) => Ok(Value::Bool(number_lt(*b, *a))),
            _ => Err(refuse(Op::Gt, self, other)),
        }
    }

    /// Whether one number is below another.
    pub fn lt(&self, other: &Value) -> (r: Result<Value, Error>)
        requires
            operable(Op::Lt, self@, other@),
        ensures
            forall|m: Arithmetic| outcome_view(r) == binary(m, Op::Lt, self@, other@),
    {
        match (self, other) {
            (Value::Number(a), Value::Number(b)) => Ok(Value::Bool(number_lt(*a, *b))),
            _ => Err(refuse(Op::Lt, self, other)),
        }
    }

    /// Whether one number is above another or equal to it.
    pub fn ge(&self, other: &Value) -> (r: Result<Value, Error>)
        requires
            operable(Op::Ge, self@, other@),
        ensures
            forall|m: Arithmetic| outcome_view(r) == binary(m, Op::Ge, self@, other@),
    {
        match (self, other) {
            (Value::Number(a), Value::Number(b)) => Ok(Value::Bool(number_le(*b, *a))),
            _ => Err(refuse(Op::Ge, self, other)),
        }
    }

    /// Whether one number is below another or equal to it.
    pub fn le(&self, other: &Value) -> (r: Result<Value, Error>)
        requires
            operable(Op::Le, self@, other@),
        ensures
            forall|m: Arithmetic| outcome_view(r) == binary(m, Op::Le, self@, other@),
    {
        match (self, other) {
            (Value::Number(a), Value::Number(b)) => Ok(Value::Bool(number_le(*a, *b))),
            _ => Err(refuse(Op::Le, self, other)),
        }
    }

    /// Whether two truth values both hold.
    pub fn and(&self, other: &Value) -> (r: Result<Value, Error>)
        requires
            operable(Op::And, self@, other@),
        ensures
            forall|m: Arithmetic| outcome_view(r) == binary(m, Op::And, self@, other@),
    {
        match (self, other) {
            (Value::Bool(a), Value::Bool(b)) => Ok(Value::Bool(*a && *b)),
            _ => Err(refuse(Op::And, self, other)),
        }
    }

    /// Whether one of two truth values holds.
    pub fn or(&self, other: &Value) -> (r: Result<Value, Error>)
        requires
            operable(Op::Or, self@, other@),
        ensures
            forall|m: Arithmetic| outcome_view(r) == binary(m, Op::Or, self@, other@),
    {
        match (self, other) {
            (Value::Bool(a), Value::Bool(b)) => Ok(Value::Bool(*a || *b)),
            _ => Err(refuse(Op::Or, self, other)),
        }
    }
}

/// Whether `op` is defined on `left` and `right`.
pub fn is_defined_on(op: Op, left: &Value, right: &Value) -> (r: bool)
    ensures
        r == applies(op, left@, right@),
{
    match op {
        Op::Eq | Op::Neq => match (left, right) {
            (Value::Number(_), Value::Number(_)) => true,
            (Value::String(_), Value::String(_)) => true,
            (Value::Bool(_), Value::Bool(_)) => true,
            _ => false,
        },
        Op::And | Op::Or => match (left, right) {
            (Value::Bool(_), Value::Bool(_)) => true,
            _ => false,
        },
        _ => match (left, right) {
            (Value::Number(_), Value::Number(_)) => true,
            _ => false,
        },
    }
}

/// Evaluates `op` on any two values.
pub fn binary_op<F: Fn(Operation) -> u64>(op: Op, left: &Value, right: &Value, host: &F) -> (r:
    Result<Value, Error>)
    requires
        is_function(host),
    ensures
        outcome_view(r) == binary_checked(answers(host), op, left@, right@),
{
    if !is_defined_on(op, left, right) {
        if left.rendered().is_none() {
            return Err(Error::CannotDisplay(CannotDisplayError { found: left.get_type() }));
        }
        if right.rendered().is_none() {
            return Err(Error::CannotDisplay(CannotDisplayError { found: right.get_type() }));
        }
    }
    let ghost m = answers(host);
    let r = match op {
        Op::Add => left.add(right, host),
        Op::Sub => left.sub(right, host),
        Op::Mul => left.mul(right, host),
        Op::Div => left.div(right, host),
        Op::Mod => left.modulo(right, host),
        Op::Eq => left.eq(right),
        Op::Neq => left.neq(right),
        Op::Gt => left.gt(right),
        Op::Lt => left.lt(right),
        Op::Ge => left.ge(right),
        Op::Le => left.le(right),
        Op::And => left.and(right),
        Op::Or => left.or(right),
    };
    assert(outcome_view(r) == binary(m, op, left@, right@));
    r
}

} // verus!
