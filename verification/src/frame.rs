//! What is written decides nothing.
//!
//! An evaluation adds to the text it finds and never reads it: what it
//! gives, what it binds and what it adds are the same whatever was written
//! before.

use crate::error::ErrorView;
use crate::expr::{ExprView, IOp, Op};
use crate::number::{Arithmetic, Operation};
use crate::semantics::{
    call_bindings, eval, eval_assign, eval_binop, eval_block, eval_call, eval_cases, eval_for,
    eval_if, eval_index, eval_instance, eval_list, eval_method, eval_range, eval_set,
    eval_update, eval_while, fill, for_list, for_range, gather, is_builtin, method_bindings,
    write_each, Gather, Gathered, Outcome,
};
use crate::table::{bind, lookup, Bindings};
use crate::text::PieceView;
use crate::value::{display, renderable, ValueView};
use vstd::prelude::*;

verus! {

/// `o`, had `before` been written before it.
pub open spec fn after(before: Seq<PieceView>, o: Outcome) -> Outcome {
    Outcome { result: o.result, env: o.env, out: before + o.out }
}

/// `g`, had `before` been written before it.
pub open spec fn row_after(before: Seq<PieceView>, g: Gathered) -> Gathered {
    Gathered { error: g.error, values: g.values, env: g.env, out: before + g.out }
}

/// Nothing that was written before.
pub open spec fn nothing() -> Seq<PieceView> {
    Seq::empty()
}

/// Writing values after a text is writing them after nothing, after the
/// text.
pub proof fn lemma_write_each_after(values: Seq<ValueView>, i: int, out: Seq<PieceView>)
    ensures
        write_each(values, i, out) == (
            write_each(values, i, nothing()).0,
            out + write_each(values, i, nothing()).1,
        ),
    decreases values.len() - i,
{
    if 0 <= i < values.len() && renderable(values[i]) {
        let d = display(values[i]);
        lemma_write_each_after(values, i + 1, out + d);
        lemma_write_each_after(values, i + 1, nothing() + d);
        let rest = write_each(values, i + 1, nothing()).1;
        assert((out + d) + rest =~= out + ((nothing() + d) + rest));
    } else {
        assert(out + nothing() =~= out);
    }
}

/// An evaluation gives, binds and adds the same whatever was written
/// before it.
pub proof fn law_text_decides_nothing(
    m: Arithmetic,
    e: ExprView,
    env: Bindings,
    out: Seq<PieceView>,
    fuel: nat,
)
    ensures
        eval(m, e, env, out, fuel) == after(out, eval(m, e, env, nothing(), fuel)),
    decreases fuel, 0nat, 0nat,
{
    assert(out + nothing() =~= out);
    if fuel > 0 {
        let f = (fuel - 1) as nat;
        match e {
            ExprView::Block { body } => {
                lemma_block_after(m, body, 0, ValueView::Nil, env, out, f);
            },
            ExprView::BinOp { op, left, right } => {
                lemma_binop_after(m, op, *left, *right, env, out, f);
            },
            ExprView::IfThen { cond, then_ } => {
                lemma_if_after(m, *cond, *then_, None, env, out, f);
            },
            ExprView::IfThenElse { cond, then_, else_ } => {
                lemma_if_after(m, *cond, *then_, Some(*else_), env, out, f);
            },
            ExprView::Assign { name, value } => {
                lemma_assign_after(m, name, *value, env, out, f);
            },
            ExprView::SetVar { name, value } => {
                lemma_set_after(m, name, *value, env, out, f);
            },
            ExprView::IOp { op, name, value } => {
                lemma_update_after(m, op, name, *value, env, out, f);
            },
            ExprView::While { cond, body } => {
                lemma_while_after(m, *cond, *body, env, out, f);
            },
            ExprView::For { name, iter, body } => {
                lemma_for_after(m, *name, *iter, *body, env, out, f);
            },
            ExprView::Call { name, args } => {
                lemma_call_after(m, name, args, env, out, f);
            },
            ExprView::List { elems } => {
                lemma_list_after(m, elems, env, out, f);
            },
            ExprView::Index { name, index } => {
                lemma_index_after(m, *name, *index, env, out, f);
            },
            ExprView::Range { start, end } => {
                lemma_range_after(m, *start, *end, env, out, f);
            },
            ExprView::CallStruct { name, args } => {
                lemma_instance_after(m, name, args, env, out, f);
            },
            ExprView::GetFunc { name, func, args } => {
                lemma_method_after(m, name, func, args, env, out, f);
            },
            ExprView::Match { value, cases } => {
                lemma_cases_after(m, *value, cases, 0, ValueView::Nil, env, out, f);
            },
            _ => {},
        }
    }
}

/// Two evaluations, one after the other, add what the first adds and then
/// what the second adds.
pub proof fn lemma_twice_after(
    m: Arithmetic,
    e: ExprView,
    env: Bindings,
    out: Seq<PieceView>,
    first: Seq<PieceView>,
    fuel: nat,
)
    ensures
        eval(m, e, env, out + first, fuel) == after(out, eval(m, e, env, first, fuel)),
    decreases fuel, 0nat, 1nat,
{
    law_text_decides_nothing(m, e, env, out + first, fuel);
    law_text_decides_nothing(m, e, env, first, fuel);
    let alone = eval(m, e, env, nothing(), fuel);
    assert((out + first) + alone.out =~= out + (first + alone.out));
}

/// A block adds the same whatever was written before.
pub proof fn lemma_block_after(
    m: Arithmetic,
    body: Seq<ExprView>,
    i: int,
    last: ValueView,
    env: Bindings,
    out: Seq<PieceView>,
    fuel: nat,
)
    ensures
        eval_block(m, body, i, last, env, out, fuel) == after(
            out,
            eval_block(m, body, i, last, env, nothing(), fuel),
        ),
    decreases fuel, 1nat, body.len() - i,
{
    assert(out + nothing() =~= out);
    if 0 <= i < body.len() {
        let o = eval(m, body[i], env, nothing(), fuel);
        law_text_decides_nothing(m, body[i], env, out, fuel);
        match o.result {
            Ok(v) => {
                lemma_block_after(m, body, i + 1, v, o.env, out + o.out, fuel);
                lemma_block_after(m, body, i + 1, v, o.env, o.out, fuel);
                let rest = eval_block(m, body, i + 1, v, o.env, nothing(), fuel);
                assert((out + o.out) + rest.out =~= out + (o.out + rest.out));
            },
            Err(_) => {},
        }
    }
}

/// A binary operator adds the same whatever was written before.
pub proof fn lemma_binop_after(
    m: Arithmetic,
    op: Op,
    left: ExprView,
    right: ExprView,
    env: Bindings,
    out: Seq<PieceView>,
    fuel: nat,
)
    ensures
        eval_binop(m, op, left, right, env, out, fuel) == after(
            out,
            eval_binop(m, op, left, right, env, nothing(), fuel),
        ),
    decreases fuel, 2nat, 0nat,
{
    let a = eval(m, left, env, nothing(), fuel);
    law_text_decides_nothing(m, left, env, out, fuel);
    if a.result is Ok {
        lemma_twice_after(m, right, a.env, out, a.out, fuel);
    }
}

/// A conditional adds the same whatever was written before.
pub proof fn lemma_if_after(
    m: Arithmetic,
    cond: ExprView,
    then_: ExprView,
    else_: Option<ExprView>,
    env: Bindings,
    out: Seq<PieceView>,
    fuel: nat,
)
    ensures
        eval_if(m, cond, then_, else_, env, out, fuel) == after(
            out,
            eval_if(m, cond, then_, else_, env, nothing(), fuel),
        ),
    decreases fuel, 2nat, 0nat,
{
    let c = eval(m, cond, env, nothing(), fuel);
    law_text_decides_nothing(m, cond, env, out, fuel);
    match c.result {
        Ok(ValueView::Bool(true)) => {
            lemma_twice_after(m, then_, c.env, out, c.out, fuel);
        },
        Ok(ValueView::Bool(false)) => {
            match else_ {
                Some(e) => {
                    lemma_twice_after(m, e, c.env, out, c.out, fuel);
                },
                None => {},
            }
        },
        _ => {},
    }
}

/// The definition of a variable adds the same whatever was written before.
pub proof fn lemma_assign_after(
    m: Arithmetic,
    name: Seq<char>,
    value: ExprView,
    env: Bindings,
    out: Seq<PieceView>,
    fuel: nat,
)
    ensures
        eval_assign(m, name, value, env, out, fuel) == after(
            out,
            eval_assign(m, name, value, env, nothing(), fuel),
        ),
    decreases fuel, 2nat, 0nat,
{
    law_text_decides_nothing(m, value, env, out, fuel);
}

/// An assignment adds the same whatever was written before.
pub proof fn lemma_set_after(
    m: Arithmetic,
    name: Seq<char>,
    value: ExprView,
    env: Bindings,
    out: Seq<PieceView>,
    fuel: nat,
)
    ensures
        eval_set(m, name, value, env, out, fuel) == after(
            out,
            eval_set(m, name, value, env, nothing(), fuel),
        ),
    decreases fuel, 2nat, 0nat,
{
    assert(out + nothing() =~= out);
    law_text_decides_nothing(m, value, env, out, fuel);
}

/// An updating operator adds the same whatever was written before.
pub proof fn lemma_update_after(
    m: Arithmetic,
    op: IOp,
    name: Seq<char>,
    value: ExprView,
    env: Bindings,
    out: Seq<PieceView>,
    fuel: nat,
)
    ensures
        eval_update(m, op, name, value, env, out, fuel) == after(
            out,
            eval_update(m, op, name, value, env, nothing(), fuel),
        ),
    decreases fuel, 2nat, 0nat,
{
    law_text_decides_nothing(m, value, env, out, fuel);
}

/// A `while` loop adds the same whatever was written before.
pub proof fn lemma_while_after(
    m: Arithmetic,
    cond: ExprView,
    body: ExprView,
    env: Bindings,
    out: Seq<PieceView>,
    fuel: nat,
)
    ensures
        eval_while(m, cond, body, env, out, fuel) == after(
            out,
            eval_while(m, cond, body, env, nothing(), fuel),
        ),
    decreases fuel, 2nat, 0nat,
{
    let c = eval(m, cond, env, nothing(), fuel);
    law_text_decides_nothing(m, cond, env, out, fuel);
    match c.result {
        Ok(ValueView::Bool(true)) => {
            let b = eval(m, body, c.env, c.out, fuel);
            lemma_twice_after(m, body, c.env, out, c.out, fuel);
            if b.result is Ok && fuel > 0 {
                let less = (fuel - 1) as nat;
                lemma_while_after(m, cond, body, b.env, out + b.out, less);
                lemma_while_after(m, cond, body, b.env, b.out, less);
                let rest = eval_while(m, cond, body, b.env, nothing(), less);
                assert((out + b.out) + rest.out =~= out + (b.out + rest.out));
            }
        },
        _ => {},
    }
}

/// A `for` loop adds the same whatever was written before.
pub proof fn lemma_for_after(
    m: Arithmetic,
    name: ExprView,
    iter: ExprView,
    body: ExprView,
    env: Bindings,
    out: Seq<PieceView>,
    fuel: nat,
)
    ensures
        eval_for(m, name, iter, body, env, out, fuel) == after(
            out,
            eval_for(m, name, iter, body, env, nothing(), fuel),
        ),
    decreases fuel, 2nat, 0nat,
{
    assert(out + nothing() =~= out);
    match name {
        ExprView::Ident { ident } => {
            let it = eval(m, iter, env, nothing(), fuel);
            law_text_decides_nothing(m, iter, env, out, fuel);
            match it.result {
                Ok(ValueView::List(items)) => {
                    lemma_for_list_after(
                        m,
                        ident,
                        items,
                        0,
                        body,
                        ValueView::Nil,
                        it.env,
                        out + it.out,
                        fuel,
                    );
                    lemma_for_list_after(
                        m,
                        ident,
                        items,
                        0,
                        body,
                        ValueView::Nil,
                        it.env,
                        it.out,
                        fuel,
                    );
                    let rest = for_list(
                        m,
                        ident,
                        items,
                        0,
                        body,
                        ValueView::Nil,
                        it.env,
                        nothing(),
                        fuel,
                    );
                    assert((out + it.out) + rest.out =~= out + (it.out + rest.out));
                },
                Ok(ValueView::Range { start, end }) => {
                    lemma_for_range_after(
                        m,
                        ident,
                        start,
                        end,
                        body,
                        ValueView::Nil,
                        it.env,
                        out + it.out,
                        fuel,
                    );
                    lemma_for_range_after(
                        m,
                        ident,
                        start,
                        end,
                        body,
                        ValueView::Nil,
                        it.env,
                        it.out,
                        fuel,
                    );
                    let rest = for_range(
                        m,
                        ident,
                        start,
                        end,
                        body,
                        ValueView::Nil,
                        it.env,
                        nothing(),
                        fuel,
                    );
                    assert((out + it.out) + rest.out =~= out + (it.out + rest.out));
                },
                _ => {},
            }
        },
        _ => {},
    }
}

/// A loop over a list adds the same whatever was written before.
pub proof fn lemma_for_list_after(
    m: Arithmetic,
    name: Seq<char>,
    items: Seq<ValueView>,
    i: int,
    body: ExprView,
    last: ValueView,
    env: Bindings,
    out: Seq<PieceView>,
    fuel: nat,
)
    ensures
        for_list(m, name, items, i, body, last, env, out, fuel) == after(
            out,
            for_list(m, name, items, i, body, last, env, nothing(), fuel),
        ),
    decreases fuel, 1nat, items.len() - i,
{
    assert(out + nothing() =~= out);
    if 0 <= i < items.len() {
        let first = bind(env, name, items[i]);
        let b = eval(m, body, first, nothing(), fuel);
        law_text_decides_nothing(m, body, first, out, fuel);
        match b.result {
            Ok(v) => {
                lemma_for_list_after(m, name, items, i + 1, body, v, b.env, out + b.out, fuel);
                lemma_for_list_after(m, name, items, i + 1, body, v, b.env, b.out, fuel);
                let rest = for_list(m, name, items, i + 1, body, v, b.env, nothing(), fuel);
                assert((out + b.out) + rest.out =~= out + (b.out + rest.out));
            },
            Err(_) => {},
        }
    }
}

/// A loop over a range adds the same whatever was written before.
pub proof fn lemma_for_range_after(
    m: Arithmetic,
    name: Seq<char>,
    from: int,
    to: int,
    body: ExprView,
    last: ValueView,
    env: Bindings,
    out: Seq<PieceView>,
    fuel: nat,
)
    ensures
        for_range(m, name, from, to, body, last, env, out, fuel) == after(
            out,
            for_range(m, name, from, to, body, last, env, nothing(), fuel),
        ),
    decreases fuel, 1nat, to - from,
{
    assert(out + nothing() =~= out);
    if from < to {
        let number = ValueView::Number(m(Operation::FromInteger(from as i64)));
        let first = bind(env, name, number);
        let b = eval(m, body, first, nothing(), fuel);
        law_text_decides_nothing(m, body, first, out, fuel);
        match b.result {
            Ok(v) => {
                lemma_for_range_after(m, name, from + 1, to, body, v, b.env, out + b.out, fuel);
                lemma_for_range_after(m, name, from + 1, to, body, v, b.env, b.out, fuel);
                let rest = for_range(m, name, from + 1, to, body, v, b.env, nothing(), fuel);
                assert((out + b.out) + rest.out =~= out + (b.out + rest.out));
            },
            Err(_) => {},
        }
    }
}

/// A row of expressions adds the same whatever was written before.
pub proof fn lemma_gather_after(
    m: Arithmetic,
    how: Gather,
    items: Seq<ExprView>,
    n: nat,
    i: int,
    acc: Seq<ValueView>,
    env: Bindings,
    out: Seq<PieceView>,
    fuel: nat,
)
    ensures
        gather(m, how, items, n, i, acc, env, out, fuel) == row_after(
            out,
            gather(m, how, items, n, i, acc, env, nothing(), fuel),
        ),
    decreases fuel, 1nat, n - i,
{
    assert(out + nothing() =~= out);
    if 0 <= i < n && i < items.len() {
        let o = eval(m, items[i], env, nothing(), fuel);
        law_text_decides_nothing(m, items[i], env, out, fuel);
        let next = if how is Detached {
            env
        } else {
            o.env
        };
        let more = match o.result {
            Ok(v) => Some(acc.push(v)),
            Err(e) => if how is Lenient && !(e is OutOfFuel) {
                Some(acc.push(ValueView::Nil))
            } else {
                None
            },
        };
        match more {
            Some(values) => {
                lemma_gather_after(m, how, items, n, i + 1, values, next, out + o.out, fuel);
                lemma_gather_after(m, how, items, n, i + 1, values, next, o.out, fuel);
                let rest = gather(m, how, items, n, i + 1, values, next, nothing(), fuel);
                assert((out + o.out) + rest.out =~= out + (o.out + rest.out));
            },
            None => {},
        }
    }
}

/// A call adds the same whatever was written before.
pub proof fn lemma_call_after(
    m: Arithmetic,
    name: Seq<char>,
    args: Seq<ExprView>,
    env: Bindings,
    out: Seq<PieceView>,
    fuel: nat,
)
    ensures
        eval_call(m, name, args, env, out, fuel) == after(
            out,
            eval_call(m, name, args, env, nothing(), fuel),
        ),
    decreases fuel, 2nat, 0nat,
{
    assert(out + nothing() =~= out);
    if is_builtin(name) {
        let g = gather(m, Gather::Lenient, args, args.len(), 0, Seq::empty(), env, nothing(), fuel);
        lemma_gather_after(m, Gather::Lenient, args, args.len(), 0, Seq::empty(), env, out, fuel);
        if g.error is None {
            lemma_write_each_after(g.values, 0, out + g.out);
            lemma_write_each_after(g.values, 0, g.out);
            let w = write_each(g.values, 0, nothing()).1;
            assert((out + g.out) + w =~= out + (g.out + w));
            let line = crate::text::chars("\n"@);
            assert(((out + g.out) + w) + line =~= out + ((g.out + w) + line));
        }
    } else {
        match lookup(env, name) {
            Some(ValueView::Function { name: own, args: params, body }) => {
                if args.len() >= params.len() {
                    let g = gather(
                        m,
                        Gather::Strict,
                        args,
                        params.len(),
                        0,
                        Seq::empty(),
                        env,
                        nothing(),
                        fuel,
                    );
                    lemma_gather_after(
                        m,
                        Gather::Strict,
                        args,
                        params.len(),
                        0,
                        Seq::empty(),
                        env,
                        out,
                        fuel,
                    );
                    if g.error is None {
                        let function = ValueView::Function { name: own, args: params, body };
                        lemma_twice_after(
                            m,
                            body,
                            call_bindings(function, g.values),
                            out,
                            g.out,
                            fuel,
                        );
                    }
                }
            },
            _ => {},
        }
    }
}

/// A list adds the same whatever was written before.
pub proof fn lemma_list_after(
    m: Arithmetic,
    elems: Seq<ExprView>,
    env: Bindings,
    out: Seq<PieceView>,
    fuel: nat,
)
    ensures
        eval_list(m, elems, env, out, fuel) == after(
            out,
            eval_list(m, elems, env, nothing(), fuel),
        ),
    decreases fuel, 2nat, 0nat,
{
    lemma_gather_after(m, Gather::Strict, elems, elems.len(), 0, Seq::empty(), env, out, fuel);
}

/// An indexing adds the same whatever was written before.
pub proof fn lemma_index_after(
    m: Arithmetic,
    name: ExprView,
    index: ExprView,
    env: Bindings,
    out: Seq<PieceView>,
    fuel: nat,
)
    ensures
        eval_index(m, name, index, env, out, fuel) == after(
            out,
            eval_index(m, name, index, env, nothing(), fuel),
        ),
    decreases fuel, 2nat, 0nat,
{
    assert(out + nothing() =~= out);
    match name {
        ExprView::Ident { ident } => match lookup(env, ident) {
            Some(ValueView::List(items)) => {
                law_text_decides_nothing(m, index, env, out, fuel);
            },
            _ => {},
        },
        _ => {},
    }
}

/// A range adds the same whatever was written before.
pub proof fn lemma_range_after(
    m: Arithmetic,
    start: ExprView,
    end: ExprView,
    env: Bindings,
    out: Seq<PieceView>,
    fuel: nat,
)
    ensures
        eval_range(m, start, end, env, out, fuel) == after(
            out,
            eval_range(m, start, end, env, nothing(), fuel),
        ),
    decreases fuel, 2nat, 0nat,
{
    let a = eval(m, start, env, nothing(), fuel);
    law_text_decides_nothing(m, start, env, out, fuel);
    if a.result is Ok {
        lemma_twice_after(m, end, a.env, out, a.out, fuel);
    }
}

/// The making of an instance adds the same whatever was written before.
pub proof fn lemma_instance_after(
    m: Arithmetic,
    name: Seq<char>,
    args: Seq<(ExprView, ExprView)>,
    env: Bindings,
    out: Seq<PieceView>,
    fuel: nat,
)
    ensures
        eval_instance(m, name, args, env, out, fuel) == after(
            out,
            eval_instance(m, name, args, env, nothing(), fuel),
        ),
    decreases fuel, 2nat, 0nat,
{
    assert(out + nothing() =~= out);
    match lookup(env, name) {
        Some(ValueView::DefStruct { fields, .. }) => {
            lemma_fill_after(m, name, fields, args, 0, Seq::empty(), env, out, fuel);
        },
        _ => {},
    }
}

/// The filling of an instance adds the same whatever was written before.
pub proof fn lemma_fill_after(
    m: Arithmetic,
    name: Seq<char>,
    fields: Seq<Seq<char>>,
    args: Seq<(ExprView, ExprView)>,
    i: int,
    acc: Bindings,
    env: Bindings,
    out: Seq<PieceView>,
    fuel: nat,
)
    ensures
        fill(m, name, fields, args, i, acc, env, out, fuel) == after(
            out,
            fill(m, name, fields, args, i, acc, env, nothing(), fuel),
        ),
    decreases fuel, 1nat, args.len() - i,
{
    assert(out + nothing() =~= out);
    if 0 <= i < args.len() {
        match args[i].0 {
            ExprView::Ident { ident } => {
                let v = eval(m, args[i].1, env, nothing(), fuel);
                law_text_decides_nothing(m, args[i].1, env, out, fuel);
                match v.result {
                    Ok(x) => {
                        let next = if fields.contains(ident) {
                            bind(acc, ident, x)
                        } else {
                            acc
                        };
                        lemma_fill_after(
                            m,
                            name,
                            fields,
                            args,
                            i + 1,
                            next,
                            v.env,
                            out + v.out,
                            fuel,
                        );
                        lemma_fill_after(m, name, fields, args, i + 1, next, v.env, v.out, fuel);
                        let rest = fill(m, name, fields, args, i + 1, next, v.env, nothing(), fuel);
                        assert((out + v.out) + rest.out =~= out + (v.out + rest.out));
                    },
                    Err(_) => {},
                }
            },
            _ => {},
        }
    }
}

/// The call of a method adds the same whatever was written before.
pub proof fn lemma_method_after(
    m: Arithmetic,
    name: Seq<char>,
    func: Seq<char>,
    args: Seq<ExprView>,
    env: Bindings,
    out: Seq<PieceView>,
    fuel: nat,
)
    ensures
        eval_method(m, name, func, args, env, out, fuel) == after(
            out,
            eval_method(m, name, func, args, env, nothing(), fuel),
        ),
    decreases fuel, 2nat, 0nat,
{
    assert(out + nothing() =~= out);
    match lookup(env, name) {
        Some(ValueView::CallStruct { name: of, fields: held }) => match lookup(env, of) {
            Some(ValueView::DefStruct { fields, function, .. }) => match lookup(function, func) {
                Some(method) => {
                    let g = gather(
                        m,
                        Gather::Detached,
                        args,
                        args.len(),
                        0,
                        Seq::empty(),
                        env,
                        nothing(),
                        fuel,
                    );
                    lemma_gather_after(
                        m,
                        Gather::Detached,
                        args,
                        args.len(),
                        0,
                        Seq::empty(),
                        env,
                        out,
                        fuel,
                    );
                    if g.error is None {
                        match method {
                            ValueView::Function { body, .. } => {
                                let instance = ValueView::CallStruct { name: of, fields: held };
                                lemma_twice_after(
                                    m,
                                    body,
                                    method_bindings(instance, fields, g.values),
                                    out,
                                    g.out,
                                    fuel,
                                );
                            },
                            _ => {},
                        }
                    }
                },
                None => {},
            },
            _ => {},
        },
        _ => {},
    }
}

/// The cases of a `match` add the same whatever was written before.
pub proof fn lemma_cases_after(
    m: Arithmetic,
    value: ExprView,
    cases: Seq<(ExprView, ExprView)>,
    i: int,
    last: ValueView,
    env: Bindings,
    out: Seq<PieceView>,
    fuel: nat,
)
    ensures
        eval_cases(m, value, cases, i, last, env, out, fuel) == after(
            out,
            eval_cases(m, value, cases, i, last, env, nothing(), fuel),
        ),
    decreases fuel, 1nat, cases.len() - i,
{
    assert(out + nothing() =~= out);
    if 0 <= i < cases.len() {
        let p = eval(m, cases[i].0, env, nothing(), fuel);
        law_text_decides_nothing(m, cases[i].0, env, out, fuel);
        if p.result != Err::<ValueView, ErrorView>(ErrorView::OutOfFuel) {
            let s = eval(m, value, p.env, p.out, fuel);
            lemma_twice_after(m, value, p.env, out, p.out, fuel);
            if s.result is Ok {
                let b = eval(m, cases[i].1, Seq::empty(), s.out, fuel);
                lemma_twice_after(m, cases[i].1, Seq::empty(), out, s.out, fuel);
                match b.result {
                    Ok(v) => {
                        lemma_cases_after(m, value, cases, i + 1, v, s.env, out + b.out, fuel);
                        lemma_cases_after(m, value, cases, i + 1, v, s.env, b.out, fuel);
                        let rest = eval_cases(m, value, cases, i + 1, v, s.env, nothing(), fuel);
                        assert((out + b.out) + rest.out =~= out + (b.out + rest.out));
                    },
                    Err(_) => {},
                }
            }
        }
    }
}

} // verus!
