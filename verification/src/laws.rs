//! What holds of every evaluation.

use crate::error::ErrorView;
use crate::expr::{ExprView, LiteralView, Op};
use crate::frame::law_text_decides_nothing;
use crate::number::{
    spec_is_nan, spec_number_eq, spec_number_le, spec_number_lt, spec_to_integer, Arithmetic,
    Operation,
};
use crate::operators::{is_arithmetic, operation};
use crate::semantics::{
    bind_each, call_bindings, done, eval, eval_cases, eval_instance, eval_while, failed, fill,
    for_range, gather, Gather,
};
use crate::table::{bind, bound, lemma_lookup_bind, lookup, Bindings};
use crate::text::PieceView;
use crate::value::ValueView;
use vstd::prelude::*;

verus! {

/// An expression that is a number written in the program.
pub open spec fn number_literal(n: u64) -> ExprView {
    ExprView::Literal { value: LiteralView::Number(n) }
}

/// Of two numbers that are not NaN, exactly one of these holds: the first
/// is below the second, they are equal, the second is below the first.
/// `a <= b` says that one of the first two holds.
pub proof fn law_numbers_are_ordered(a: u64, b: u64)
    requires
        !spec_is_nan(a),
        !spec_is_nan(b),
    ensures
        spec_number_lt(a, b) || spec_number_eq(a, b) || spec_number_lt(b, a),
        !(spec_number_lt(a, b) && spec_number_eq(a, b)),
        !(spec_number_lt(a, b) && spec_number_lt(b, a)),
        !(spec_number_eq(a, b) && spec_number_lt(b, a)),
        spec_number_le(a, b) <==> spec_number_lt(a, b) || spec_number_eq(a, b),
{
}

/// NaN compares with nothing: it is not equal to, below or above any
/// number, itself included.
pub proof fn law_nan_is_unordered(a: u64, b: u64)
    requires
        spec_is_nan(a) || spec_is_nan(b),
    ensures
        !spec_number_eq(a, b),
        !spec_number_lt(a, b),
        !spec_number_le(a, b),
{
}

/// An operator of arithmetic between two numbers written in the program
/// gives the number that the arithmetic answers, and binds and writes
/// nothing: evaluating `a + b` gives the sum of `a` and `b`.
pub proof fn law_arithmetic_of_numbers(
    m: Arithmetic,
    op: Op,
    a: u64,
    b: u64,
    env: Bindings,
    out: Seq<PieceView>,
    fuel: nat,
)
    requires
        is_arithmetic(op),
        fuel >= 2,
    ensures
        eval(
            m,
            ExprView::BinOp {
                op,
                left: Box::new(number_literal(a)),
                right: Box::new(number_literal(b)),
            },
            env,
            out,
            fuel,
        ) == done(ValueView::Number(m(operation(op, a, b))), env, out),
{
    let f = (fuel - 1) as nat;
    assert(eval(m, number_literal(a), env, out, f) == done(ValueView::Number(a), env, out));
    assert(eval(m, number_literal(b), env, out, f) == done(ValueView::Number(b), env, out));
}

/// A definition of a variable whose value can be evaluated binds the name
/// where it is free, and fails with `VarAlreadyDefined` where it is bound,
/// leaving the bindings as the evaluation of the value left them.
pub proof fn law_definition_binds_once(
    m: Arithmetic,
    name: Seq<char>,
    value: ExprView,
    env: Bindings,
    out: Seq<PieceView>,
    fuel: nat,
)
    requires
        fuel > 0,
        eval(m, value, env, out, (fuel - 1) as nat).result is Ok,
    ensures
        ({
            let v = eval(m, value, env, out, (fuel - 1) as nat);
            let o = eval(m, ExprView::Assign { name, value: Box::new(value) }, env, out, fuel);
            if bound(v.env, name) {
                o == failed(ErrorView::VarAlreadyDefined { var_name: name }, v.env, v.out)
            } else {
                &&& o.result == Ok::<ValueView, ErrorView>(ValueView::Nil)
                &&& lookup(o.env, name) == Some(v.result->Ok_0)
                &&& bound(o.env, name)
                &&& o.out == v.out
            }
        }),
{
    let v = eval(m, value, env, out, (fuel - 1) as nat);
    lemma_lookup_bind(v.env, name, v.result->Ok_0, name);
}

/// Defining a variable as a number and defining it again fails the second
/// time with `VarAlreadyDefined`, whatever the two numbers are.
pub proof fn law_second_definition_fails(
    m: Arithmetic,
    name: Seq<char>,
    first: u64,
    second: u64,
    env: Bindings,
    out: Seq<PieceView>,
    fuel: nat,
)
    requires
        fuel >= 2,
        !bound(env, name),
    ensures
        ({
            let once = eval(
                m,
                ExprView::Assign { name, value: Box::new(number_literal(first)) },
                env,
                out,
                fuel,
            );
            let twice = eval(
                m,
                ExprView::Assign { name, value: Box::new(number_literal(second)) },
                once.env,
                once.out,
                fuel,
            );
            &&& once.result == Ok::<ValueView, ErrorView>(ValueView::Nil)
            &&& lookup(once.env, name) == Some(ValueView::Number(first))
            &&& twice == failed(ErrorView::VarAlreadyDefined { var_name: name }, once.env, out)
        }),
{
    let f = (fuel - 1) as nat;
    assert(eval(m, number_literal(first), env, out, f) == done(
        ValueView::Number(first),
        env,
        out,
    ));
    law_definition_binds_once(m, name, number_literal(first), env, out, fuel);
    let once = eval(
        m,
        ExprView::Assign { name, value: Box::new(number_literal(first)) },
        env,
        out,
        fuel,
    );
    assert(eval(m, number_literal(second), once.env, once.out, f) == done(
        ValueView::Number(second),
        once.env,
        once.out,
    ));
    law_definition_binds_once(m, name, number_literal(second), once.env, once.out, fuel);
}

/// An assignment to a name that is not bound fails with `VarNotFound`
/// before its value is evaluated: nothing is bound or written.
pub proof fn law_assignment_needs_binding(
    m: Arithmetic,
    name: Seq<char>,
    value: ExprView,
    env: Bindings,
    out: Seq<PieceView>,
    fuel: nat,
)
    requires
        fuel > 0,
        !bound(env, name),
    ensures
        eval(m, ExprView::SetVar { name, value: Box::new(value) }, env, out, fuel) == failed(
            ErrorView::VarNotFound { var_name: name },
            env,
            out,
        ),
{
}

/// A `for` loop over a range between two numbers written in the program,
/// of which the first does not truncate below the second, gives the value
/// for no value and binds nothing, the loop variable included.
pub proof fn law_empty_range_binds_nothing(
    m: Arithmetic,
    name: Seq<char>,
    from: u64,
    to: u64,
    body: ExprView,
    env: Bindings,
    out: Seq<PieceView>,
    fuel: nat,
)
    requires
        fuel >= 3,
        spec_to_integer(from) >= spec_to_integer(to),
    ensures
        eval(
            m,
            ExprView::For {
                name: Box::new(ExprView::Ident { ident: name }),
                iter: Box::new(
                    ExprView::Range {
                        start: Box::new(number_literal(from)),
                        end: Box::new(number_literal(to)),
                    },
                ),
                body: Box::new(body),
            },
            env,
            out,
            fuel,
        ) == done(ValueView::Nil, env, out),
{
    let range = ExprView::Range {
        start: Box::new(number_literal(from)),
        end: Box::new(number_literal(to)),
    };
    let f = (fuel - 1) as nat;
    let g = (fuel - 2) as nat;
    assert(eval(m, number_literal(from), env, out, g) == done(ValueView::Number(from), env, out));
    assert(eval(m, number_literal(to), env, out, g) == done(ValueView::Number(to), env, out));
    assert(eval(m, range, env, out, f) == done(
        ValueView::Range { start: spec_to_integer(from), end: spec_to_integer(to) },
        env,
        out,
    ));
    assert(for_range(
        m,
        name,
        spec_to_integer(from),
        spec_to_integer(to),
        body,
        ValueView::Nil,
        env,
        out,
        f,
    ) == done(ValueView::Nil, env, out));
}

/// Giving names values one by one binds none but those names.
pub proof fn lemma_bind_each_keeps_free(
    t: Bindings,
    names: Seq<Seq<char>>,
    values: Seq<ValueView>,
    i: int,
    other: Seq<char>,
)
    requires
        lookup(t, other) is None,
        !names.contains(other),
    ensures
        lookup(bind_each(t, names, values, i), other) is None,
    decreases names.len() - i,
{
    if 0 <= i < names.len() && i < values.len() {
        assert(names[i] != other);
        lemma_lookup_bind(t, names[i], values[i], other);
        lemma_bind_each_keeps_free(bind(t, names[i], values[i]), names, values, i + 1, other);
    }
}

/// Giving names values one by one keeps what any other name is bound to.
pub proof fn lemma_bind_each_keeps_others(
    t: Bindings,
    names: Seq<Seq<char>>,
    values: Seq<ValueView>,
    i: int,
    other: Seq<char>,
)
    requires
        !names.contains(other),
    ensures
        lookup(bind_each(t, names, values, i), other) == lookup(t, other),
    decreases names.len() - i,
{
    if 0 <= i < names.len() && i < values.len() {
        assert(names[i] != other);
        lemma_lookup_bind(t, names[i], values[i], other);
        lemma_bind_each_keeps_others(bind(t, names[i], values[i]), names, values, i + 1, other);
    }
}

/// The body of a function that is called sees its parameters and the
/// function itself, and nothing else: whatever the caller has bound under
/// another name, reading that name in the body fails with `VarNotFound`.
pub proof fn law_call_sees_only_parameters(
    m: Arithmetic,
    function: ValueView,
    values: Seq<ValueView>,
    other: Seq<char>,
    out: Seq<PieceView>,
    fuel: nat,
)
    requires
        function is Function,
        other != function->Function_name,
        !function->Function_args.contains(other),
        fuel > 0,
    ensures
        lookup(call_bindings(function, values), other) is None,
        eval(m, ExprView::Ident { ident: other }, call_bindings(function, values), out, fuel)
            == failed(
            ErrorView::VarNotFound { var_name: other },
            call_bindings(function, values),
            out,
        ),
{
    let own = function->Function_name;
    let begin = bind(Seq::empty(), own, function);
    lemma_lookup_bind(Seq::empty(), own, function, other);
    assert(lookup(Seq::<(Seq<char>, ValueView)>::empty(), other) is None);
    lemma_bind_each_keeps_free(begin, function->Function_args, values, 0, other);
}

/// The body of a function that is called finds the function under its own
/// name, unless one of its parameters has that name: so it can call itself.
pub proof fn law_call_sees_itself(function: ValueView, values: Seq<ValueView>)
    requires
        function is Function,
        !function->Function_args.contains(function->Function_name),
    ensures
        lookup(call_bindings(function, values), function->Function_name) == Some(function),
{
    let own = function->Function_name;
    lemma_lookup_bind(Seq::empty(), own, function, own);
    lemma_bind_each_keeps_others(
        bind(Seq::empty(), own, function),
        function->Function_args,
        values,
        0,
        own,
    );
}

/// The arguments of a method are evaluated apart: whatever they bind, the
/// caller's bindings are after them what they were before.
pub proof fn law_detached_arguments_bind_nothing(
    m: Arithmetic,
    items: Seq<ExprView>,
    n: nat,
    i: int,
    acc: Seq<ValueView>,
    env: Bindings,
    out: Seq<PieceView>,
    fuel: nat,
)
    ensures
        gather(m, Gather::Detached, items, n, i, acc, env, out, fuel).env == env,
    decreases n - i,
{
    if 0 <= i < n && i < items.len() {
        let o = eval(m, items[i], env, out, fuel);
        match o.result {
            Ok(v) => {
                law_detached_arguments_bind_nothing(
                    m,
                    items,
                    n,
                    i + 1,
                    acc.push(v),
                    env,
                    o.out,
                    fuel,
                );
            },
            Err(e) => {},
        }
    }
}

/// A `match` that has a case and gives a value gives what the body of its
/// last case gives in empty bindings, whatever is matched and whatever the
/// patterns are: no case is chosen.
pub proof fn law_match_gives_last_case(
    m: Arithmetic,
    value: ExprView,
    cases: Seq<(ExprView, ExprView)>,
    env: Bindings,
    out: Seq<PieceView>,
    fuel: nat,
)
    requires
        cases.len() >= 1,
        fuel > 0,
        eval(m, ExprView::Match { value: Box::new(value), cases }, env, out, fuel).result is Ok,
    ensures
        eval(m, ExprView::Match { value: Box::new(value), cases }, env, out, fuel).result == eval(
            m,
            cases.last().1,
            Seq::empty(),
            Seq::empty(),
            (fuel - 1) as nat,
        ).result,
{
    let f = (fuel - 1) as nat;
    lemma_cases_give_last(m, value, cases, 0, ValueView::Nil, env, out, f);
    let written = choose|written: Seq<PieceView>|
        (#[trigger] eval(m, cases.last().1, Seq::empty(), written, f)).result == eval_cases(
            m,
            value,
            cases,
            0,
            ValueView::Nil,
            env,
            out,
            f,
        ).result;
    law_text_decides_nothing(m, cases.last().1, Seq::empty(), written, f);
}

/// The cases from the place `i` on, where there is one and they give a
/// value, give what the body of the last case gives in empty bindings after
/// some text.
pub proof fn lemma_cases_give_last(
    m: Arithmetic,
    value: ExprView,
    cases: Seq<(ExprView, ExprView)>,
    i: int,
    last: ValueView,
    env: Bindings,
    out: Seq<PieceView>,
    fuel: nat,
)
    requires
        0 <= i < cases.len(),
        eval_cases(m, value, cases, i, last, env, out, fuel).result is Ok,
    ensures
        exists|written: Seq<PieceView>|
            (#[trigger] eval(m, cases.last().1, Seq::empty(), written, fuel)).result == eval_cases(
                m,
                value,
                cases,
                i,
                last,
                env,
                out,
                fuel,
            ).result,
    decreases cases.len() - i,
{
    let p = eval(m, cases[i].0, env, out, fuel);
    let s = eval(m, value, p.env, p.out, fuel);
    let b = eval(m, cases[i].1, Seq::empty(), s.out, fuel);
    assert(b.result is Ok);
    let v = b.result->Ok_0;
    if i + 1 < cases.len() {
        lemma_cases_give_last(m, value, cases, i + 1, v, s.env, b.out, fuel);
    } else {
        assert(eval_cases(m, value, cases, i + 1, v, s.env, b.out, fuel) == done(v, s.env, b.out));
        assert(cases.last() == cases[i]);
    }
}

/// A `for` loop over the integers from `from` up to `to`, where there is
/// one, whose body reads the loop variable: the variable is bound to the
/// number of each integer in turn, so that the loop gives the number of the
/// last one, `to - 1`, and leaves the variable bound to it. Nothing is
/// written.
pub proof fn law_loop_variable_runs_through_range(
    m: Arithmetic,
    name: Seq<char>,
    from: int,
    to: int,
    last: ValueView,
    env: Bindings,
    out: Seq<PieceView>,
    fuel: nat,
)
    requires
        from < to,
        fuel > 0,
    ensures
        ({
            let o = for_range(
                m,
                name,
                from,
                to,
                ExprView::Ident { ident: name },
                last,
                env,
                out,
                fuel,
            );
            let reached = ValueView::Number(m(Operation::FromInteger((to - 1) as i64)));
            &&& o.result == Ok::<ValueView, ErrorView>(reached)
            &&& lookup(o.env, name) == Some(reached)
            &&& o.out == out
        }),
    decreases to - from,
{
    let number = ValueView::Number(m(Operation::FromInteger(from as i64)));
    let bound_to = bind(env, name, number);
    lemma_lookup_bind(env, name, number, name);
    let body = ExprView::Ident { ident: name };
    assert(eval(m, body, bound_to, out, fuel) == done(number, bound_to, out));
    if from + 1 < to {
        law_loop_variable_runs_through_range(m, name, from + 1, to, number, bound_to, out, fuel);
    } else {
        assert(for_range(m, name, from + 1, to, body, number, bound_to, out, fuel) == done(
            number,
            bound_to,
            out,
        ));
    }
}

/// Whether one of the pairs of `args` before the place `n` is named `key`.
pub open spec fn names_field(args: Seq<(ExprView, ExprView)>, n: int, key: Seq<char>) -> bool {
    exists|j: int|
        0 <= j < n && j < args.len() && (#[trigger] args[j]).0 == (ExprView::Ident { ident: key })
}

/// An instance that is made holds a field only where the struct declares
/// it and a pair names it: a pair under any other name is dropped, and a
/// declared field that no pair names is absent.
pub proof fn law_instance_holds_declared_and_named(
    m: Arithmetic,
    name: Seq<char>,
    args: Seq<(ExprView, ExprView)>,
    env: Bindings,
    out: Seq<PieceView>,
    fuel: nat,
    key: Seq<char>,
)
    requires
        eval_instance(m, name, args, env, out, fuel).result is Ok,
    ensures
        ({
            let made = eval_instance(m, name, args, env, out, fuel).result->Ok_0;
            &&& lookup(env, name) matches Some(ValueView::DefStruct { fields, .. })
            &&& made matches ValueView::CallStruct { name: of, fields: held }
            &&& of == name
            &&& bound(held, key) ==> fields.contains(key) && names_field(
                args,
                args.len() as int,
                key,
            )
        }),
{
    match lookup(env, name) {
        Some(ValueView::DefStruct { fields, .. }) => {
            assert(!bound(Seq::<(Seq<char>, ValueView)>::empty(), key));
            lemma_fill_holds_declared_and_named(
                m,
                name,
                fields,
                args,
                0,
                Seq::empty(),
                env,
                out,
                fuel,
                key,
            );
        },
        _ => {},
    }
}

/// Making an instance from the pairs from the place `i` on adds a field
/// only where the struct declares it and one of those pairs names it.
pub proof fn lemma_fill_holds_declared_and_named(
    m: Arithmetic,
    name: Seq<char>,
    fields: Seq<Seq<char>>,
    args: Seq<(ExprView, ExprView)>,
    i: int,
    acc: Bindings,
    env: Bindings,
    out: Seq<PieceView>,
    fuel: nat,
    key: Seq<char>,
)
    requires
        0 <= i,
        fill(m, name, fields, args, i, acc, env, out, fuel).result is Ok,
        bound(acc, key) ==> fields.contains(key) && names_field(args, i, key),
    ensures
        ({
            let made = fill(m, name, fields, args, i, acc, env, out, fuel).result->Ok_0;
            &&& made matches ValueView::CallStruct { name: of, fields: held }
            &&& of == name
            &&& bound(held, key) ==> fields.contains(key) && names_field(
                args,
                args.len() as int,
                key,
            )
        }),
    decreases args.len() - i,
{
    if i < args.len() {
        match args[i].0 {
            ExprView::Ident { ident } => {
                let v = eval(m, args[i].1, env, out, fuel);
                let x = v.result->Ok_0;
                let next = if fields.contains(ident) {
                    bind(acc, ident, x)
                } else {
                    acc
                };
                if bound(next, key) {
                    if fields.contains(ident) {
                        lemma_lookup_bind(acc, ident, x, key);
                    }
                    if !bound(acc, key) {
                        assert(ident == key);
                        assert(args[i].0 == (ExprView::Ident { ident: key }));
                    } else {
                        let j = choose|j: int|
                            0 <= j < i && j < args.len() && (#[trigger] args[j]).0 == (
                            ExprView::Ident { ident: key });
                        assert(0 <= j < i + 1 && args[j].0 == (ExprView::Ident { ident: key }));
                    }
                    assert(names_field(args, i + 1, key));
                }
                lemma_fill_holds_declared_and_named(
                    m,
                    name,
                    fields,
                    args,
                    i + 1,
                    next,
                    v.env,
                    v.out,
                    fuel,
                    key,
                );
            },
            _ => {},
        }
    } else {
        if bound(acc, key) {
            let j = choose|j: int|
                0 <= j < i && j < args.len() && (#[trigger] args[j]).0 == (ExprView::Ident {
                    ident: key,
                });
            assert(0 <= j < args.len() && args[j].0 == (ExprView::Ident { ident: key }));
        }
    }
}

/// A `while` loop whose condition gives anything but the truth value
/// `true` ends there, without an error, whatever the condition gave: it
/// gives the value for no value and leaves what the condition left.
pub proof fn law_while_ends_on_anything_but_true(
    m: Arithmetic,
    cond: ExprView,
    body: ExprView,
    env: Bindings,
    out: Seq<PieceView>,
    fuel: nat,
)
    requires
        eval(m, cond, env, out, fuel).result is Ok,
        eval(m, cond, env, out, fuel).result != Ok::<ValueView, ErrorView>(ValueView::Bool(true)),
    ensures
        ({
            let c = eval(m, cond, env, out, fuel);
            eval_while(m, cond, body, env, out, fuel) == done(ValueView::Nil, c.env, c.out)
        }),
{
}

/// The arguments of a builtin fail for want of fuel or not at all: every
/// other error of an argument is overlooked, and the argument counts as the
/// value for no value.
pub proof fn law_lenient_row_fails_only_for_fuel(
    m: Arithmetic,
    items: Seq<ExprView>,
    n: nat,
    i: int,
    acc: Seq<ValueView>,
    env: Bindings,
    out: Seq<PieceView>,
    fuel: nat,
)
    ensures
        ({
            let g = gather(m, Gather::Lenient, items, n, i, acc, env, out, fuel);
            g.error is None || g.error == Some(ErrorView::OutOfFuel)
        }),
    decreases n - i,
{
    if 0 <= i < n && i < items.len() {
        let o = eval(m, items[i], env, out, fuel);
        match o.result {
            Ok(v) => {
                law_lenient_row_fails_only_for_fuel(
                    m,
                    items,
                    n,
                    i + 1,
                    acc.push(v),
                    o.env,
                    o.out,
                    fuel,
                );
            },
            Err(e) => {
                if !(e is OutOfFuel) {
                    law_lenient_row_fails_only_for_fuel(
                        m,
                        items,
                        n,
                        i + 1,
                        acc.push(ValueView::Nil),
                        o.env,
                        o.out,
                        fuel,
                    );
                }
            },
        }
    }
}

} // verus!
