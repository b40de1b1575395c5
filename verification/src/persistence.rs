//! What an evaluation never undoes.
//!
//! A name that is bound stays bound through every evaluation, whether it
//! succeeds or fails, and the text that was written stays written: what an
//! evaluation leaves begins with what it found. The bindings of a call, a
//! method or a case are its own and are dropped; those of the caller are
//! meant here.

use crate::error::ErrorView;
use crate::expr::{ExprView, IOp, Op};
use crate::number::{Arithmetic, Operation};
use crate::semantics::{
    call_bindings, eval, eval_assign, eval_binop, eval_block, eval_call, eval_cases, eval_for,
    eval_if, eval_index, eval_instance, eval_list, eval_method, eval_range, eval_set, eval_update,
    eval_while, fill, for_list, for_range, gather, is_builtin, method_bindings, write_each, Gather,
};
use crate::table::{bind, bound, lemma_lookup_bind, lookup, Bindings};
use crate::text::PieceView;
use crate::value::{display, ValueView};
use vstd::prelude::*;

verus! {

/// Whether the bindings and the text `after` keep what `before` had: every
/// name bound before is bound after, and the text after begins with the
/// text before.
pub open spec fn keeps(
    env: Bindings,
    out: Seq<PieceView>,
    after_env: Bindings,
    after_out: Seq<PieceView>,
) -> bool {
    &&& forall|key: Seq<char>| bound(env, key) ==> #[trigger] bound(after_env, key)
    &&& out.is_prefix_of(after_out)
}

/// Binding a name keeps every name bound.
pub proof fn lemma_bind_keeps(t: Bindings, key: Seq<char>, value: ValueView)
    ensures
        forall|other: Seq<char>| bound(t, other) ==> #[trigger] bound(bind(t, key, value), other),
        bound(bind(t, key, value), key),
{
    assert forall|other: Seq<char>| bound(t, other) implies #[trigger] bound(
        bind(t, key, value),
        other,
    ) by {
        lemma_lookup_bind(t, key, value, other);
    }
    lemma_lookup_bind(t, key, value, key);
}

/// Writing values adds to the text and takes nothing from it.
pub proof fn lemma_write_each_extends(values: Seq<ValueView>, i: int, out: Seq<PieceView>)
    ensures
        out.is_prefix_of(write_each(values, i, out).1),
    decreases values.len() - i,
{
    if 0 <= i < values.len() && crate::value::renderable(values[i]) {
        lemma_write_each_extends(values, i + 1, out + display(values[i]));
    }
}

/// An evaluation keeps every name bound that was bound, and keeps the text
/// that was written, whatever it gives.
pub proof fn law_evaluation_keeps(
    m: Arithmetic,
    e: ExprView,
    env: Bindings,
    out: Seq<PieceView>,
    fuel: nat,
)
    ensures
        ({
            let o = eval(m, e, env, out, fuel);
            keeps(env, out, o.env, o.out)
        }),
    decreases fuel, 0nat, 0nat,
{
    if fuel > 0 {
        let f = (fuel - 1) as nat;
        match e {
            ExprView::Block { body } => {
                lemma_block_keeps(m, body, 0, ValueView::Nil, env, out, f);
            },
            ExprView::BinOp { op, left, right } => {
                lemma_binop_keeps(m, op, *left, *right, env, out, f);
            },
            ExprView::IfThen { cond, then_ } => {
                lemma_if_keeps(m, *cond, *then_, None, env, out, f);
            },
            ExprView::IfThenElse { cond, then_, else_ } => {
                lemma_if_keeps(m, *cond, *then_, Some(*else_), env, out, f);
            },
            ExprView::Assign { name, value } => {
                lemma_assign_keeps(m, name, *value, env, out, f);
            },
            ExprView::SetVar { name, value } => {
                lemma_set_keeps(m, name, *value, env, out, f);
            },
            ExprView::IOp { op, name, value } => {
                lemma_update_keeps(m, op, name, *value, env, out, f);
            },
            ExprView::While { cond, body } => {
                lemma_while_keeps(m, *cond, *body, env, out, f);
            },
            ExprView::For { name, iter, body } => {
                lemma_for_keeps(m, *name, *iter, *body, env, out, f);
            },
            ExprView::FunDef { name, args, body } => {
                let function = ValueView::Function {
                    name,
                    args: crate::semantics::names_of(args),
                    body: *body,
                };
                lemma_bind_keeps(env, name, function);
            },
            ExprView::Call { name, args } => {
                lemma_call_keeps(m, name, args, env, out, f);
            },
            ExprView::List { elems } => {
                lemma_list_keeps(m, elems, env, out, f);
            },
            ExprView::Index { name, index } => {
                lemma_index_keeps(m, *name, *index, env, out, f);
            },
            ExprView::Range { start, end } => {
                lemma_range_keeps(m, *start, *end, env, out, f);
            },
            ExprView::StructDef { name, fields } => {
                let definition = ValueView::DefStruct {
                    name,
                    fields: crate::semantics::names_of(fields),
                    function: Seq::empty(),
                };
                lemma_bind_keeps(env, name, definition);
            },
            ExprView::CallStruct { name, args } => {
                lemma_instance_keeps(m, name, args, env, out, f);
            },
            ExprView::Impl { name_struct, name_method, args, body } => {
                match lookup(env, name_struct) {
                    Some(ValueView::DefStruct { fields, function, .. }) => {
                        let method = ValueView::Function {
                            name: name_method,
                            args: crate::semantics::names_of(args),
                            body: *body,
                        };
                        let definition = ValueView::DefStruct {
                            name: name_struct,
                            fields,
                            function: bind(function, name_method, method),
                        };
                        lemma_bind_keeps(env, name_struct, definition);
                    },
                    _ => {},
                }
            },
            ExprView::GetFunc { name, func, args } => {
                lemma_method_keeps(m, name, func, args, env, out, f);
            },
            ExprView::Match { value, cases } => {
                lemma_cases_keeps(m, *value, cases, 0, ValueView::Nil, env, out, f);
            },
            _ => {},
        }
    }
}

/// A block keeps what it found.
pub proof fn lemma_block_keeps(
    m: Arithmetic,
    body: Seq<ExprView>,
    i: int,
    last: ValueView,
    env: Bindings,
    out: Seq<PieceView>,
    fuel: nat,
)
    ensures
        ({
            let o = eval_block(m, body, i, last, env, out, fuel);
            keeps(env, out, o.env, o.out)
        }),
    decreases fuel, 1nat, body.len() - i,
{
    if 0 <= i < body.len() {
        let o = eval(m, body[i], env, out, fuel);
        law_evaluation_keeps(m, body[i], env, out, fuel);
        match o.result {
            Ok(v) => {
                lemma_block_keeps(m, body, i + 1, v, o.env, o.out, fuel);
            },
            Err(_) => {},
        }
    }
}

/// A binary operator keeps what it found.
pub proof fn lemma_binop_keeps(
    m: Arithmetic,
    op: Op,
    left: ExprView,
    right: ExprView,
    env: Bindings,
    out: Seq<PieceView>,
    fuel: nat,
)
    ensures
        ({
            let o = eval_binop(m, op, left, right, env, out, fuel);
            keeps(env, out, o.env, o.out)
        }),
    decreases fuel, 2nat, 0nat,
{
    let a = eval(m, left, env, out, fuel);
    law_evaluation_keeps(m, left, env, out, fuel);
    if a.result is Ok {
        law_evaluation_keeps(m, right, a.env, a.out, fuel);
    }
}

/// A conditional keeps what it found.
pub proof fn lemma_if_keeps(
    m: Arithmetic,
    cond: ExprView,
    then_: ExprView,
    else_: Option<ExprView>,
    env: Bindings,
    out: Seq<PieceView>,
    fuel: nat,
)
    ensures
        ({
            let o = eval_if(m, cond, then_, else_, env, out, fuel);
            keeps(env, out, o.env, o.out)
        }),
    decreases fuel, 2nat, 0nat,
{
    let c = eval(m, cond, env, out, fuel);
    law_evaluation_keeps(m, cond, env, out, fuel);
    match c.result {
        Ok(ValueView::Bool(true)) => {
            law_evaluation_keeps(m, then_, c.env, c.out, fuel);
        },
        Ok(ValueView::Bool(false)) => {
            match else_ {
                Some(e) => {
                    law_evaluation_keeps(m, e, c.env, c.out, fuel);
                },
                None => {},
            }
        },
        _ => {},
    }
}

/// The definition of a variable keeps what it found.
pub proof fn lemma_assign_keeps(
    m: Arithmetic,
    name: Seq<char>,
    value: ExprView,
    env: Bindings,
    out: Seq<PieceView>,
    fuel: nat,
)
    ensures
        ({
            let o = eval_assign(m, name, value, env, out, fuel);
            keeps(env, out, o.env, o.out)
        }),
    decreases fuel, 2nat, 0nat,
{
    let v = eval(m, value, env, out, fuel);
    law_evaluation_keeps(m, value, env, out, fuel);
    match v.result {
        Ok(x) => {
            lemma_bind_keeps(v.env, name, x);
        },
        Err(_) => {},
    }
}

/// An assignment keeps what it found.
pub proof fn lemma_set_keeps(
    m: Arithmetic,
    name: Seq<char>,
    value: ExprView,
    env: Bindings,
    out: Seq<PieceView>,
    fuel: nat,
)
    ensures
        ({
            let o = eval_set(m, name, value, env, out, fuel);
            keeps(env, out, o.env, o.out)
        }),
    decreases fuel, 2nat, 0nat,
{
    if bound(env, name) {
        let v = eval(m, value, env, out, fuel);
        law_evaluation_keeps(m, value, env, out, fuel);
        match v.result {
            Ok(x) => {
                lemma_bind_keeps(v.env, name, x);
            },
            Err(_) => {},
        }
    }
}

/// An updating operator keeps what it found.
pub proof fn lemma_update_keeps(
    m: Arithmetic,
    op: IOp,
    name: Seq<char>,
    value: ExprView,
    env: Bindings,
    out: Seq<PieceView>,
    fuel: nat,
)
    ensures
        ({
            let o = eval_update(m, op, name, value, env, out, fuel);
            keeps(env, out, o.env, o.out)
        }),
    decreases fuel, 2nat, 0nat,
{
    let v = eval(m, value, env, out, fuel);
    law_evaluation_keeps(m, value, env, out, fuel);
    match v.result {
        Ok(ValueView::Number(y)) => {
            match lookup(v.env, name) {
                Some(ValueView::Number(x)) => {
                    lemma_bind_keeps(
                        v.env,
                        name,
                        ValueView::Number(m(crate::semantics::update_operation(op, x, y))),
                    );
                },
                _ => {},
            }
        },
        _ => {},
    }
}

/// A `while` loop keeps what it found.
pub proof fn lemma_while_keeps(
    m: Arithmetic,
    cond: ExprView,
    body: ExprView,
    env: Bindings,
    out: Seq<PieceView>,
    fuel: nat,
)
    ensures
        ({
            let o = eval_while(m, cond, body, env, out, fuel);
            keeps(env, out, o.env, o.out)
        }),
    decreases fuel, 2nat, 0nat,
{
    let c = eval(m, cond, env, out, fuel);
    law_evaluation_keeps(m, cond, env, out, fuel);
    match c.result {
        Ok(ValueView::Bool(true)) => {
            let b = eval(m, body, c.env, c.out, fuel);
            law_evaluation_keeps(m, body, c.env, c.out, fuel);
            if b.result is Ok && fuel > 0 {
                lemma_while_keeps(m, cond, body, b.env, b.out, (fuel - 1) as nat);
            }
        },
        _ => {},
    }
}

/// A `for` loop keeps what it found.
pub proof fn lemma_for_keeps(
    m: Arithmetic,
    name: ExprView,
    iter: ExprView,
    body: ExprView,
    env: Bindings,
    out: Seq<PieceView>,
    fuel: nat,
)
    ensures
        ({
            let o = eval_for(m, name, iter, body, env, out, fuel);
            keeps(env, out, o.env, o.out)
        }),
    decreases fuel, 2nat, 0nat,
{
    match name {
        ExprView::Ident { ident } => {
            let it = eval(m, iter, env, out, fuel);
            law_evaluation_keeps(m, iter, env, out, fuel);
            match it.result {
                Ok(ValueView::List(items)) => {
                    lemma_for_list_keeps(
                        m,
                        ident,
                        items,
                        0,
                        body,
                        ValueView::Nil,
                        it.env,
                        it.out,
                        fuel,
                    );
                },
                Ok(ValueView::Range { start, end }) => {
                    lemma_for_range_keeps(
                        m,
                        ident,
                        start,
                        end,
                        body,
                        ValueView::Nil,
                        it.env,
                        it.out,
                        fuel,
                    );
                },
                _ => {},
            }
        },
        _ => {},
    }
}

/// A loop over a list keeps what it found.
pub proof fn lemma_for_list_keeps(
    m: Arithmetic,
    name: Seq<char>,
    items: Seq<ValueView>,
    i: int,
    body: ExprView,
    last: ValueView,
    env: Bindings,
    out: Seq<PieceView>,
    fuel: nat,
)
    ensures
        ({
            let o = for_list(m, name, items, i, body, last, env, out, fuel);
            keeps(env, out, o.env, o.out)
        }),
    decreases fuel, 1nat, items.len() - i,
{
    if 0 <= i < items.len() {
        let first = bind(env, name, items[i]);
        lemma_bind_keeps(env, name, items[i]);
        let b = eval(m, body, first, out, fuel);
        law_evaluation_keeps(m, body, first, out, fuel);
        match b.result {
            Ok(v) => {
                lemma_for_list_keeps(m, name, items, i + 1, body, v, b.env, b.out, fuel);
            },
            Err(_) => {},
        }
    }
}

/// A loop over a range keeps what it found.
pub proof fn lemma_for_range_keeps(
    m: Arithmetic,
    name: Seq<char>,
    from: int,
    to: int,
    body: ExprView,
    last: ValueView,
    env: Bindings,
    out: Seq<PieceView>,
    fuel: nat,
)
    ensures
        ({
            let o = for_range(m, name, from, to, body, last, env, out, fuel);
            keeps(env, out, o.env, o.out)
        }),
    decreases fuel, 1nat, to - from,
{
    if from < to {
        let number = ValueView::Number(m(Operation::FromInteger(from as i64)));
        let first = bind(env, name, number);
        lemma_bind_keeps(env, name, number);
        let b = eval(m, body, first, out, fuel);
        law_evaluation_keeps(m, body, first, out, fuel);
        match b.result {
            Ok(v) => {
                lemma_for_range_keeps(m, name, from + 1, to, body, v, b.env, b.out, fuel);
            },
            Err(_) => {},
        }
    }
}

/// A row of expressions keeps what it found.
pub proof fn lemma_gather_keeps(
    m: Arithmetic,
    how: Gather,
    items: Seq<ExprView>,
    n: nat,
    i: int,
    acc: Seq<ValueView>,
    env: Bindings,
    out: Seq<PieceView>,
    fuel: nat,
)
    ensures
        ({
            let o = gather(m, how, items, n, i, acc, env, out, fuel);
            keeps(env, out, o.env, o.out)
        }),
    decreases fuel, 1nat, n - i,
{
    if 0 <= i < n && i < items.len() {
        let o = eval(m, items[i], env, out, fuel);
        law_evaluation_keeps(m, items[i], env, out, fuel);
        let next = if how is Detached {
            env
        } else {
            o.env
        };
        match o.result {
            Ok(v) => {
                lemma_gather_keeps(m, how, items, n, i + 1, acc.push(v), next, o.out, fuel);
            },
            Err(e) => {
                if how is Lenient && !(e is OutOfFuel) {
                    lemma_gather_keeps(
                        m,
                        how,
                        items,
                        n,
                        i + 1,
                        acc.push(ValueView::Nil),
                        next,
                        o.out,
                        fuel,
                    );
                }
            },
        }
    }
}

/// A call keeps what it found.
pub proof fn lemma_call_keeps(
    m: Arithmetic,
    name: Seq<char>,
    args: Seq<ExprView>,
    env: Bindings,
    out: Seq<PieceView>,
    fuel: nat,
)
    ensures
        ({
            let o = eval_call(m, name, args, env, out, fuel);
            keeps(env, out, o.env, o.out)
        }),
    decreases fuel, 2nat, 0nat,
{
    if is_builtin(name) {
        let g = gather(m, Gather::Lenient, args, args.len(), 0, Seq::empty(), env, out, fuel);
        lemma_gather_keeps(m, Gather::Lenient, args, args.len(), 0, Seq::empty(), env, out, fuel);
        lemma_write_each_extends(g.values, 0, g.out);
    } else {
        match lookup(env, name) {
            Some(ValueView::Function { name: own, args: params, body }) => {
                if args.len() >= params.len() {
                    let g = gather(
                        m,
                        Gather::Strict,
                        args,
                        params.len(),
                        0,
                        Seq::empty(),
                        env,
                        out,
                        fuel,
                    );
                    lemma_gather_keeps(
                        m,
                        Gather::Strict,
                        args,
                        params.len(),
                        0,
                        Seq::empty(),
                        env,
                        out,
                        fuel,
                    );
                    if g.error is None {
                        let function = ValueView::Function { name: own, args: params, body };
                        law_evaluation_keeps(
                            m,
                            body,
                            call_bindings(function, g.values),
                            g.out,
                            fuel,
                        );
                    }
                }
            },
            _ => {},
        }
    }
}

/// A list keeps what it found.
pub proof fn lemma_list_keeps(
    m: Arithmetic,
    elems: Seq<ExprView>,
    env: Bindings,
    out: Seq<PieceView>,
    fuel: nat,
)
    ensures
        ({
            let o = eval_list(m, elems, env, out, fuel);
            keeps(env, out, o.env, o.out)
        }),
    decreases fuel, 2nat, 0nat,
{
    lemma_gather_keeps(m, Gather::Strict, elems, elems.len(), 0, Seq::empty(), env, out, fuel);
}

/// An indexing keeps what it found.
pub proof fn lemma_index_keeps(
    m: Arithmetic,
    name: ExprView,
    index: ExprView,
    env: Bindings,
    out: Seq<PieceView>,
    fuel: nat,
)
    ensures
        ({
            let o = eval_index(m, name, index, env, out, fuel);
            keeps(env, out, o.env, o.out)
        }),
    decreases fuel, 2nat, 0nat,
{
    match name {
        ExprView::Ident { ident } => match lookup(env, ident) {
            Some(ValueView::List(items)) => {
                law_evaluation_keeps(m, index, env, out, fuel);
            },
            _ => {},
        },
        _ => {},
    }
}

/// A range keeps what it found.
pub proof fn lemma_range_keeps(
    m: Arithmetic,
    start: ExprView,
    end: ExprView,
    env: Bindings,
    out: Seq<PieceView>,
    fuel: nat,
)
    ensures
        ({
            let o = eval_range(m, start, end, env, out, fuel);
            keeps(env, out, o.env, o.out)
        }),
    decreases fuel, 2nat, 0nat,
{
    let a = eval(m, start, env, out, fuel);
    law_evaluation_keeps(m, start, env, out, fuel);
    if a.result is Ok {
        law_evaluation_keeps(m, end, a.env, a.out, fuel);
    }
}

/// The making of an instance keeps what it found.
pub proof fn lemma_instance_keeps(
    m: Arithmetic,
    name: Seq<char>,
    args: Seq<(ExprView, ExprView)>,
    env: Bindings,
    out: Seq<PieceView>,
    fuel: nat,
)
    ensures
        ({
            let o = eval_instance(m, name, args, env, out, fuel);
            keeps(env, out, o.env, o.out)
        }),
    decreases fuel, 2nat, 0nat,
{
    match lookup(env, name) {
        Some(ValueView::DefStruct { fields, .. }) => {
            lemma_fill_keeps(m, name, fields, args, 0, Seq::empty(), env, out, fuel);
        },
        _ => {},
    }
}

/// The filling of an instance keeps what it found.
pub proof fn lemma_fill_keeps(
    m: Arithmetic,
    name: Seq<char>,
    fields: Seq<Seq<char>>,
    args: Seq<(ExprView, ExprView)>,
    i: int,
    acc: Bindings,
    env: Bindings,
    out: Seq<PieceView>,
    fuel: nat,
)
    ensures
        ({
            let o = fill(m, name, fields, args, i, acc, env, out, fuel);
            keeps(env, out, o.env, o.out)
        }),
    decreases fuel, 1nat, args.len() - i,
{
    if 0 <= i < args.len() {
        match args[i].0 {
            ExprView::Ident { ident } => {
                let v = eval(m, args[i].1, env, out, fuel);
                law_evaluation_keeps(m, args[i].1, env, out, fuel);
                match v.result {
                    Ok(x) => {
                        let next = if fields.contains(ident) {
                            bind(acc, ident, x)
                        } else {
                            acc
                        };
                        lemma_fill_keeps(m, name, fields, args, i + 1, next, v.env, v.out, fuel);
                    },
                    Err(_) => {},
                }
            },
            _ => {},
        }
    }
}

/// The call of a method keeps what it found.
pub proof fn lemma_method_keeps(
    m: Arithmetic,
    name: Seq<char>,
    func: Seq<char>,
    args: Seq<ExprView>,
    env: Bindings,
    out: Seq<PieceView>,
    fuel: nat,
)
    ensures
        ({
            let o = eval_method(m, name, func, args, env, out, fuel);
            keeps(env, out, o.env, o.out)
        }),
    decreases fuel, 2nat, 0nat,
{
    match lookup(env, name) {
        Some(ValueView::CallStruct { name: of, fields: held }) => match lookup(env, of) {
            Some(ValueView::DefStruct { fields, function, .. }) => match lookup(function, func) {
                Some(method) => {
                    let g = gather(
                        m,
                        Gather::Detached,
                        args,
                        args.len(),
                        0,
                        Seq::empty(),
                        env,
                        out,
                        fuel,
                    );
                    lemma_gather_keeps(
                        m,
                        Gather::Detached,
                        args,
                        args.len(),
                        0,
                        Seq::empty(),
                        env,
                        out,
                        fuel,
                    );
                    if g.error is None {
                        match method {
                            ValueView::Function { body, .. } => {
                                let instance = ValueView::CallStruct { name: of, fields: held };
                                law_evaluation_keeps(
                                    m,
                                    body,
                                    method_bindings(instance, fields, g.values),
                                    g.out,
                                    fuel,
                                );
                            },
                            _ => {},
                        }
                    }
                },
                None => {},
            },
            _ => {},
        },
        _ => {},
    }
}

/// The cases of a `match` keep what they found.
pub proof fn lemma_cases_keeps(
    m: Arithmetic,
    value: ExprView,
    cases: Seq<(ExprView, ExprView)>,
    i: int,
    last: ValueView,
    env: Bindings,
    out: Seq<PieceView>,
    fuel: nat,
)
    ensures
        ({
            let o = eval_cases(m, value, cases, i, last, env, out, fuel);
            keeps(env, out, o.env, o.out)
        }),
    decreases fuel, 1nat, cases.len() - i,
{
    if 0 <= i < cases.len() {
        let p = eval(m, cases[i].0, env, out, fuel);
        law_evaluation_keeps(m, cases[i].0, env, out, fuel);
        let s = eval(m, value, p.env, p.out, fuel);
        law_evaluation_keeps(m, value, p.env, p.out, fuel);
        if s.result is Ok {
            let b = eval(m, cases[i].1, Seq::empty(), s.out, fuel);
            law_evaluation_keeps(m, cases[i].1, Seq::empty(), s.out, fuel);
            match b.result {
                Ok(v) => {
                    lemma_cases_keeps(m, value, cases, i + 1, v, s.env, b.out, fuel);
                },
                Err(_) => {},
            }
        }
    }
}

/// A variable that a definition has bound cannot be defined again: after
/// a definition of `name` that succeeded, every definition of `name` whose
/// value can be evaluated fails with `VarAlreadyDefined`.
pub proof fn law_defined_variable_cannot_be_defined_again(
    m: Arithmetic,
    name: Seq<char>,
    first: ExprView,
    second: ExprView,
    env: Bindings,
    out: Seq<PieceView>,
    fuel: nat,
    later: nat,
)
    requires
        later > 0,
        eval(m, ExprView::Assign { name, value: Box::new(first) }, env, out, fuel).result is Ok,
        ({
            let once = eval(m, ExprView::Assign { name, value: Box::new(first) }, env, out, fuel);
            eval(m, second, once.env, once.out, (later - 1) as nat).result is Ok
        }),
    ensures
        ({
            let once = eval(m, ExprView::Assign { name, value: Box::new(first) }, env, out, fuel);
            eval(
                m,
                ExprView::Assign { name, value: Box::new(second) },
                once.env,
                once.out,
                later,
            ).result == Err::<ValueView, ErrorView>(ErrorView::VarAlreadyDefined { var_name: name })
        }),
{
    let once = eval(m, ExprView::Assign { name, value: Box::new(first) }, env, out, fuel);
    let f = (fuel - 1) as nat;
    let v = eval(m, first, env, out, f);
    lemma_bind_keeps(v.env, name, v.result->Ok_0);
    assert(bound(once.env, name));
    law_evaluation_keeps(m, second, once.env, once.out, (later - 1) as nat);
}

} // verus!
