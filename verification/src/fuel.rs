//! Fuel decides whether an evaluation is carried through, and nothing else.
//!
//! An evaluation that does not run out of fuel gives with more fuel what it
//! gave: the same value or error, the same bindings, the same text. So
//! whatever an evaluation gives with some fuel is what the expression
//! means, and `OutOfFuel` alone says that the amount was too small to tell.

use crate::error::ErrorView;
use crate::expr::{ExprView, IOp, Op};
use crate::number::Arithmetic;
use crate::semantics::{
    call_bindings, eval, eval_assign, eval_binop, eval_block, eval_call, eval_cases, eval_for,
    eval_if, eval_index, eval_instance, eval_list, eval_method, eval_range, eval_set,
    eval_update, eval_while, fill, for_list, for_range, gather, method_bindings, Gather, Gathered,
    Outcome,
};
use crate::table::{bind, lookup, Bindings};
use crate::text::PieceView;
use crate::value::ValueView;
use vstd::prelude::*;

verus! {

/// Whether an evaluation ended for want of fuel.
pub open spec fn ran_out(o: Outcome) -> bool {
    o.result == Err::<ValueView, ErrorView>(ErrorView::OutOfFuel)
}

/// Whether the evaluation of a row ended for want of fuel.
pub open spec fn row_ran_out(g: Gathered) -> bool {
    g.error == Some(ErrorView::OutOfFuel)
}

/// An evaluation that does not run out of fuel gives the same with any
/// larger amount of fuel.
pub proof fn law_more_fuel_changes_nothing(
    m: Arithmetic,
    e: ExprView,
    env: Bindings,
    out: Seq<PieceView>,
    fuel: nat,
    more: nat,
)
    requires
        fuel <= more,
        !ran_out(eval(m, e, env, out, fuel)),
    ensures
        eval(m, e, env, out, more) == eval(m, e, env, out, fuel),
    decreases fuel, 0nat, 0nat,
{
    assert(fuel > 0);
    let f = (fuel - 1) as nat;
    let g = (more - 1) as nat;
    match e {
        ExprView::Block { body } => {
            lemma_block_fuel(m, body, 0, ValueView::Nil, env, out, f, g);
        },
        ExprView::BinOp { op, left, right } => {
            lemma_binop_fuel(m, op, *left, *right, env, out, f, g);
        },
        ExprView::IfThen { cond, then_ } => {
            lemma_if_fuel(m, *cond, *then_, None, env, out, f, g);
        },
        ExprView::IfThenElse { cond, then_, else_ } => {
            lemma_if_fuel(m, *cond, *then_, Some(*else_), env, out, f, g);
        },
        ExprView::Assign { name, value } => {
            lemma_assign_fuel(m, name, *value, env, out, f, g);
        },
        ExprView::SetVar { name, value } => {
            lemma_set_fuel(m, name, *value, env, out, f, g);
        },
        ExprView::IOp { op, name, value } => {
            lemma_update_fuel(m, op, name, *value, env, out, f, g);
        },
        ExprView::While { cond, body } => {
            lemma_while_fuel(m, *cond, *body, env, out, f, g);
        },
        ExprView::For { name, iter, body } => {
            lemma_for_fuel(m, *name, *iter, *body, env, out, f, g);
        },
        ExprView::Call { name, args } => {
            lemma_call_fuel(m, name, args, env, out, f, g);
        },
        ExprView::List { elems } => {
            lemma_list_fuel(m, elems, env, out, f, g);
        },
        ExprView::Index { name, index } => {
            lemma_index_fuel(m, *name, *index, env, out, f, g);
        },
        ExprView::Range { start, end } => {
            lemma_range_fuel(m, *start, *end, env, out, f, g);
        },
        ExprView::CallStruct { name, args } => {
            lemma_instance_fuel(m, name, args, env, out, f, g);
        },
        ExprView::GetFunc { name, func, args } => {
            lemma_method_fuel(m, name, func, args, env, out, f, g);
        },
        ExprView::Match { value, cases } => {
            lemma_cases_fuel(m, *value, cases, 0, ValueView::Nil, env, out, f, g);
        },
        _ => {},
    }
}

/// More fuel changes nothing of a block.
pub proof fn lemma_block_fuel(
    m: Arithmetic,
    body: Seq<ExprView>,
    i: int,
    last: ValueView,
    env: Bindings,
    out: Seq<PieceView>,
    fuel: nat,
    more: nat,
)
    requires
        fuel <= more,
        !ran_out(eval_block(m, body, i, last, env, out, fuel)),
    ensures
        eval_block(m, body, i, last, env, out, more) == eval_block(
            m,
            body,
            i,
            last,
            env,
            out,
            fuel,
        ),
    decreases fuel, 1nat, body.len() - i,
{
    if 0 <= i < body.len() {
        let o = eval(m, body[i], env, out, fuel);
        law_more_fuel_changes_nothing(m, body[i], env, out, fuel, more);
        match o.result {
            Ok(v) => {
                lemma_block_fuel(m, body, i + 1, v, o.env, o.out, fuel, more);
            },
            Err(_) => {},
        }
    }
}

/// More fuel changes nothing of a binary operator.
pub proof fn lemma_binop_fuel(
    m: Arithmetic,
    op: Op,
    left: ExprView,
    right: ExprView,
    env: Bindings,
    out: Seq<PieceView>,
    fuel: nat,
    more: nat,
)
    requires
        fuel <= more,
        !ran_out(eval_binop(m, op, left, right, env, out, fuel)),
    ensures
        eval_binop(m, op, left, right, env, out, more) == eval_binop(
            m,
            op,
            left,
            right,
            env,
            out,
            fuel,
        ),
    decreases fuel, 2nat, 0nat,
{
    let a = eval(m, left, env, out, fuel);
    law_more_fuel_changes_nothing(m, left, env, out, fuel, more);
    if a.result is Ok {
        law_more_fuel_changes_nothing(m, right, a.env, a.out, fuel, more);
    }
}

/// More fuel changes nothing of a conditional.
pub proof fn lemma_if_fuel(
    m: Arithmetic,
    cond: ExprView,
    then_: ExprView,
    else_: Option<ExprView>,
    env: Bindings,
    out: Seq<PieceView>,
    fuel: nat,
    more: nat,
)
    requires
        fuel <= more,
        !ran_out(eval_if(m, cond, then_, else_, env, out, fuel)),
    ensures
        eval_if(m, cond, then_, else_, env, out, more) == eval_if(
            m,
            cond,
            then_,
            else_,
            env,
            out,
            fuel,
        ),
    decreases fuel, 2nat, 0nat,
{
    let c = eval(m, cond, env, out, fuel);
    law_more_fuel_changes_nothing(m, cond, env, out, fuel, more);
    match c.result {
        Ok(ValueView::Bool(true)) => {
            law_more_fuel_changes_nothing(m, then_, c.env, c.out, fuel, more);
        },
        Ok(ValueView::Bool(false)) => {
            match else_ {
                Some(e) => {
                    law_more_fuel_changes_nothing(m, e, c.env, c.out, fuel, more);
                },
                None => {},
            }
        },
        _ => {},
    }
}

/// More fuel changes nothing of the definition of a variable.
pub proof fn lemma_assign_fuel(
    m: Arithmetic,
    name: Seq<char>,
    value: ExprView,
    env: Bindings,
    out: Seq<PieceView>,
    fuel: nat,
    more: nat,
)
    requires
        fuel <= more,
        !ran_out(eval_assign(m, name, value, env, out, fuel)),
    ensures
        eval_assign(m, name, value, env, out, more) == eval_assign(m, name, value, env, out, fuel),
    decreases fuel, 2nat, 0nat,
{
    law_more_fuel_changes_nothing(m, value, env, out, fuel, more);
}

/// More fuel changes nothing of an assignment.
pub proof fn lemma_set_fuel(
    m: Arithmetic,
    name: Seq<char>,
    value: ExprView,
    env: Bindings,
    out: Seq<PieceView>,
    fuel: nat,
    more: nat,
)
    requires
        fuel <= more,
        !ran_out(eval_set(m, name, value, env, out, fuel)),
    ensures
        eval_set(m, name, value, env, out, more) == eval_set(m, name, value, env, out, fuel),
    decreases fuel, 2nat, 0nat,
{
    if crate::table::bound(env, name) {
        law_more_fuel_changes_nothing(m, value, env, out, fuel, more);
    }
}

/// More fuel changes nothing of an updating operator.
pub proof fn lemma_update_fuel(
    m: Arithmetic,
    op: IOp,
    name: Seq<char>,
    value: ExprView,
    env: Bindings,
    out: Seq<PieceView>,
    fuel: nat,
    more: nat,
)
    requires
        fuel <= more,
        !ran_out(eval_update(m, op, name, value, env, out, fuel)),
    ensures
        eval_update(m, op, name, value, env, out, more) == eval_update(
            m,
            op,
            name,
            value,
            env,
            out,
            fuel,
        ),
    decreases fuel, 2nat, 0nat,
{
    law_more_fuel_changes_nothing(m, value, env, out, fuel, more);
}

/// More fuel changes nothing of a `while` loop.
pub proof fn lemma_while_fuel(
    m: Arithmetic,
    cond: ExprView,
    body: ExprView,
    env: Bindings,
    out: Seq<PieceView>,
    fuel: nat,
    more: nat,
)
    requires
        fuel <= more,
        !ran_out(eval_while(m, cond, body, env, out, fuel)),
    ensures
        eval_while(m, cond, body, env, out, more) == eval_while(m, cond, body, env, out, fuel),
    decreases fuel, 2nat, 0nat,
{
    let c = eval(m, cond, env, out, fuel);
    law_more_fuel_changes_nothing(m, cond, env, out, fuel, more);
    match c.result {
        Ok(ValueView::Bool(true)) => {
            let b = eval(m, body, c.env, c.out, fuel);
            law_more_fuel_changes_nothing(m, body, c.env, c.out, fuel, more);
            if b.result is Ok {
                assert(fuel > 0);
                lemma_while_fuel(
                    m,
                    cond,
                    body,
                    b.env,
                    b.out,
                    (fuel - 1) as nat,
                    (more - 1) as nat,
                );
            }
        },
        _ => {},
    }
}

/// More fuel changes nothing of a `for` loop.
pub proof fn lemma_for_fuel(
    m: Arithmetic,
    name: ExprView,
    iter: ExprView,
    body: ExprView,
    env: Bindings,
    out: Seq<PieceView>,
    fuel: nat,
    more: nat,
)
    requires
        fuel <= more,
        !ran_out(eval_for(m, name, iter, body, env, out, fuel)),
    ensures
        eval_for(m, name, iter, body, env, out, more) == eval_for(
            m,
            name,
            iter,
            body,
            env,
            out,
            fuel,
        ),
    decreases fuel, 2nat, 0nat,
{
    match name {
        ExprView::Ident { ident } => {
            let it = eval(m, iter, env, out, fuel);
            law_more_fuel_changes_nothing(m, iter, env, out, fuel, more);
            match it.result {
                Ok(ValueView::List(items)) => {
                    lemma_for_list_fuel(
                        m,
                        ident,
                        items,
                        0,
                        body,
                        ValueView::Nil,
                        it.env,
                        it.out,
                        fuel,
                        more,
                    );
                },
                Ok(ValueView::Range { start, end }) => {
                    lemma_for_range_fuel(
                        m,
                        ident,
                        start,
                        end,
                        body,
                        ValueView::Nil,
                        it.env,
                        it.out,
                        fuel,
                        more,
                    );
                },
                _ => {},
            }
        },
        _ => {},
    }
}

/// More fuel changes nothing of a loop over a list.
pub proof fn lemma_for_list_fuel(
    m: Arithmetic,
    name: Seq<char>,
    items: Seq<ValueView>,
    i: int,
    body: ExprView,
    last: ValueView,
    env: Bindings,
    out: Seq<PieceView>,
    fuel: nat,
    more: nat,
)
    requires
        fuel <= more,
        !ran_out(for_list(m, name, items, i, body, last, env, out, fuel)),
    ensures
        for_list(m, name, items, i, body, last, env, out, more) == for_list(
            m,
            name,
            items,
            i,
            body,
            last,
            env,
            out,
            fuel,
        ),
    decreases fuel, 1nat, items.len() - i,
{
    if 0 <= i < items.len() {
        let b = eval(m, body, bind(env, name, items[i]), out, fuel);
        law_more_fuel_changes_nothing(m, body, bind(env, name, items[i]), out, fuel, more);
        match b.result {
            Ok(v) => {
                lemma_for_list_fuel(m, name, items, i + 1, body, v, b.env, b.out, fuel, more);
            },
            Err(_) => {},
        }
    }
}

/// More fuel changes nothing of a loop over a range.
pub proof fn lemma_for_range_fuel(
    m: Arithmetic,
    name: Seq<char>,
    from: int,
    to: int,
    body: ExprView,
    last: ValueView,
    env: Bindings,
    out: Seq<PieceView>,
    fuel: nat,
    more: nat,
)
    requires
        fuel <= more,
        !ran_out(for_range(m, name, from, to, body, last, env, out, fuel)),
    ensures
        for_range(m, name, from, to, body, last, env, out, more) == for_range(
            m,
            name,
            from,
            to,
            body,
            last,
            env,
            out,
            fuel,
        ),
    decreases fuel, 1nat, to - from,
{
    if from < to {
        let number = ValueView::Number(m(crate::number::Operation::FromInteger(from as i64)));
        let b = eval(m, body, bind(env, name, number), out, fuel);
        law_more_fuel_changes_nothing(m, body, bind(env, name, number), out, fuel, more);
        match b.result {
            Ok(v) => {
                lemma_for_range_fuel(m, name, from + 1, to, body, v, b.env, b.out, fuel, more);
            },
            Err(_) => {},
        }
    }
}

/// More fuel changes nothing of a row of expressions.
pub proof fn lemma_gather_fuel(
    m: Arithmetic,
    how: Gather,
    items: Seq<ExprView>,
    n: nat,
    i: int,
    acc: Seq<ValueView>,
    env: Bindings,
    out: Seq<PieceView>,
    fuel: nat,
    more: nat,
)
    requires
        fuel <= more,
        !row_ran_out(gather(m, how, items, n, i, acc, env, out, fuel)),
    ensures
        gather(m, how, items, n, i, acc, env, out, more) == gather(
            m,
            how,
            items,
            n,
            i,
            acc,
            env,
            out,
            fuel,
        ),
    decreases fuel, 1nat, n - i,
{
    if 0 <= i < n && i < items.len() {
        let o = eval(m, items[i], env, out, fuel);
        law_more_fuel_changes_nothing(m, items[i], env, out, fuel, more);
        let next = if how is Detached {
            env
        } else {
            o.env
        };
        match o.result {
            Ok(v) => {
                lemma_gather_fuel(m, how, items, n, i + 1, acc.push(v), next, o.out, fuel, more);
            },
            Err(e) => {
                if how is Lenient && !(e is OutOfFuel) {
                    lemma_gather_fuel(
                        m,
                        how,
                        items,
                        n,
                        i + 1,
                        acc.push(ValueView::Nil),
                        next,
                        o.out,
                        fuel,
                        more,
                    );
                }
            },
        }
    }
}

/// More fuel changes nothing of a call.
pub proof fn lemma_call_fuel(
    m: Arithmetic,
    name: Seq<char>,
    args: Seq<ExprView>,
    env: Bindings,
    out: Seq<PieceView>,
    fuel: nat,
    more: nat,
)
    requires
        fuel <= more,
        !ran_out(eval_call(m, name, args, env, out, fuel)),
    ensures
        eval_call(m, name, args, env, out, more) == eval_call(m, name, args, env, out, fuel),
    decreases fuel, 2nat, 0nat,
{
    if crate::semantics::is_builtin(name) {
        lemma_builtin_has_fuel(name, args, m, env, out, fuel);
        lemma_gather_fuel(
            m,
            Gather::Lenient,
            args,
            args.len(),
            0,
            Seq::empty(),
            env,
            out,
            fuel,
            more,
        );
    } else {
        match lookup(env, name) {
            Some(ValueView::Function { name: own, args: params, body }) => {
                if args.len() >= params.len() {
                    let g = gather(
                        m,
                        Gather::Strict,
                        args,
                        params.len(),
                        0,
                        Seq::empty(),
                        env,
                        out,
                        fuel,
                    );
                    lemma_gather_fuel(
                        m,
                        Gather::Strict,
                        args,
                        params.len(),
                        0,
                        Seq::empty(),
                        env,
                        out,
                        fuel,
                        more,
                    );
                    if g.error is None {
                        let function = ValueView::Function { name: own, args: params, body };
                        law_more_fuel_changes_nothing(
                            m,
                            body,
                            call_bindings(function, g.values),
                            g.out,
                            fuel,
                            more,
                        );
                    }
                }
            },
            _ => {},
        }
    }
}

/// A builtin that does not run out of fuel has arguments that do not.
pub proof fn lemma_builtin_has_fuel(
    name: Seq<char>,
    args: Seq<ExprView>,
    m: Arithmetic,
    env: Bindings,
    out: Seq<PieceView>,
    fuel: nat,
)
    requires
        crate::semantics::is_builtin(name),
        !ran_out(eval_call(m, name, args, env, out, fuel)),
    ensures
        !row_ran_out(
            gather(m, Gather::Lenient, args, args.len(), 0, Seq::empty(), env, out, fuel),
        ),
{
}

/// More fuel changes nothing of a list.
pub proof fn lemma_list_fuel(
    m: Arithmetic,
    elems: Seq<ExprView>,
    env: Bindings,
    out: Seq<PieceView>,
    fuel: nat,
    more: nat,
)
    requires
        fuel <= more,
        !ran_out(eval_list(m, elems, env, out, fuel)),
    ensures
        eval_list(m, elems, env, out, more) == eval_list(m, elems, env, out, fuel),
    decreases fuel, 2nat, 0nat,
{
    lemma_gather_fuel(
        m,
        Gather::Strict,
        elems,
        elems.len(),
        0,
        Seq::empty(),
        env,
        out,
        fuel,
        more,
    );
}

/// More fuel changes nothing of an indexing.
pub proof fn lemma_index_fuel(
    m: Arithmetic,
    name: ExprView,
    index: ExprView,
    env: Bindings,
    out: Seq<PieceView>,
    fuel: nat,
    more: nat,
)
    requires
        fuel <= more,
        !ran_out(eval_index(m, name, index, env, out, fuel)),
    ensures
        eval_index(m, name, index, env, out, more) == eval_index(m, name, index, env, out, fuel),
    decreases fuel, 2nat, 0nat,
{
    match name {
        ExprView::Ident { ident } => match lookup(env, ident) {
            Some(ValueView::List(items)) => {
                law_more_fuel_changes_nothing(m, index, env, out, fuel, more);
            },
            _ => {},
        },
        _ => {},
    }
}

/// More fuel changes nothing of a range.
pub proof fn lemma_range_fuel(
    m: Arithmetic,
    start: ExprView,
    end: ExprView,
    env: Bindings,
    out: Seq<PieceView>,
    fuel: nat,
    more: nat,
)
    requires
        fuel <= more,
        !ran_out(eval_range(m, start, end, env, out, fuel)),
    ensures
        eval_range(m, start, end, env, out, more) == eval_range(m, start, end, env, out, fuel),
    decreases fuel, 2nat, 0nat,
{
    let a = eval(m, start, env, out, fuel);
    law_more_fuel_changes_nothing(m, start, env, out, fuel, more);
    if a.result is Ok {
        law_more_fuel_changes_nothing(m, end, a.env, a.out, fuel, more);
    }
}

/// More fuel changes nothing of the making of an instance.
pub proof fn lemma_instance_fuel(
    m: Arithmetic,
    name: Seq<char>,
    args: Seq<(ExprView, ExprView)>,
    env: Bindings,
    out: Seq<PieceView>,
    fuel: nat,
    more: nat,
)
    requires
        fuel <= more,
        !ran_out(eval_instance(m, name, args, env, out, fuel)),
    ensures
        eval_instance(m, name, args, env, out, more) == eval_instance(
            m,
            name,
            args,
            env,
            out,
            fuel,
        ),
    decreases fuel, 2nat, 0nat,
{
    match lookup(env, name) {
        Some(ValueView::DefStruct { fields, .. }) => {
            lemma_fill_fuel(m, name, fields, args, 0, Seq::empty(), env, out, fuel, more);
        },
        _ => {},
    }
}

/// More fuel changes nothing of the filling of an instance.
pub proof fn lemma_fill_fuel(
    m: Arithmetic,
    name: Seq<char>,
    fields: Seq<Seq<char>>,
    args: Seq<(ExprView, ExprView)>,
    i: int,
    acc: Bindings,
    env: Bindings,
    out: Seq<PieceView>,
    fuel: nat,
    more: nat,
)
    requires
        fuel <= more,
        !ran_out(fill(m, name, fields, args, i, acc, env, out, fuel)),
    ensures
        fill(m, name, fields, args, i, acc, env, out, more) == fill(
            m,
            name,
            fields,
            args,
            i,
            acc,
            env,
            out,
            fuel,
        ),
    decreases fuel, 1nat, args.len() - i,
{
    if 0 <= i < args.len() {
        match args[i].0 {
            ExprView::Ident { ident } => {
                let v = eval(m, args[i].1, env, out, fuel);
                law_more_fuel_changes_nothing(m, args[i].1, env, out, fuel, more);
                match v.result {
                    Ok(x) => {
                        let next = if fields.contains(ident) {
                            bind(acc, ident, x)
                        } else {
                            acc
                        };
                        lemma_fill_fuel(
                            m,
                            name,
                            fields,
                            args,
                            i + 1,
                            next,
                            v.env,
                            v.out,
                            fuel,
                            more,
                        );
                    },
                    Err(_) => {},
                }
            },
            _ => {},
        }
    }
}

/// More fuel changes nothing of the call of a method.
pub proof fn lemma_method_fuel(
    m: Arithmetic,
    name: Seq<char>,
    func: Seq<char>,
    args: Seq<ExprView>,
    env: Bindings,
    out: Seq<PieceView>,
    fuel: nat,
    more: nat,
)
    requires
        fuel <= more,
        !ran_out(eval_method(m, name, func, args, env, out, fuel)),
    ensures
        eval_method(m, name, func, args, env, out, more) == eval_method(
            m,
            name,
            func,
            args,
            env,
            out,
            fuel,
        ),
    decreases fuel, 2nat, 0nat,
{
    match lookup(env, name) {
        Some(ValueView::CallStruct { name: of, fields: held }) => match lookup(env, of) {
            Some(ValueView::DefStruct { fields, function, .. }) => match lookup(function, func) {
                Some(method) => {
                    let g = gather(
                        m,
                        Gather::Detached,
                        args,
                        args.len(),
                        0,
                        Seq::empty(),
                        env,
                        out,
                        fuel,
                    );
                    lemma_gather_fuel(
                        m,
                        Gather::Detached,
                        args,
                        args.len(),
                        0,
                        Seq::empty(),
                        env,
                        out,
                        fuel,
                        more,
                    );
                    if g.error is None {
                        match method {
                            ValueView::Function { body, .. } => {
                                let instance = ValueView::CallStruct { name: of, fields: held };
                                law_more_fuel_changes_nothing(
                                    m,
                                    body,
                                    method_bindings(instance, fields, g.values),
                                    g.out,
                                    fuel,
                                    more,
                                );
                            },
                            _ => {},
                        }
                    }
                },
                None => {},
            },
            _ => {},
        },
        _ => {},
    }
}

/// More fuel changes nothing of the cases of a `match`.
pub proof fn lemma_cases_fuel(
    m: Arithmetic,
    value: ExprView,
    cases: Seq<(ExprView, ExprView)>,
    i: int,
    last: ValueView,
    env: Bindings,
    out: Seq<PieceView>,
    fuel: nat,
    more: nat,
)
    requires
        fuel <= more,
        !ran_out(eval_cases(m, value, cases, i, last, env, out, fuel)),
    ensures
        eval_cases(m, value, cases, i, last, env, out, more) == eval_cases(
            m,
            value,
            cases,
            i,
            last,
            env,
            out,
            fuel,
        ),
    decreases fuel, 1nat, cases.len() - i,
{
    if 0 <= i < cases.len() {
        let p = eval(m, cases[i].0, env, out, fuel);
        law_more_fuel_changes_nothing(m, cases[i].0, env, out, fuel, more);
        let s = eval(m, value, p.env, p.out, fuel);
        law_more_fuel_changes_nothing(m, value, p.env, p.out, fuel, more);
        if s.result is Ok {
            let b = eval(m, cases[i].1, Seq::empty(), s.out, fuel);
            law_more_fuel_changes_nothing(m, cases[i].1, Seq::empty(), s.out, fuel, more);
            match b.result {
                Ok(v) => {
                    lemma_cases_fuel(m, value, cases, i + 1, v, s.env, b.out, fuel, more);
                },
                Err(_) => {},
            }
        }
    }
}

} // verus!
