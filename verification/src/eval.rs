//! The evaluator: it walks an expression and does what the semantics says.
//!
//! Every function here is held to the function of the same purpose in
//! `semantics`: it gives the value or the error named there and leaves the
//! bindings and the written text named there.

use crate::error::{
    outcome_view, ArityError, AttrNotFoundError, CannotDisplayError, Error, FunctionNotFoundError,
    IndexOutOfBoundsError, IsBuiltinError, StructNotFoundError, VarAlreadyDefinedError,
    VarNotFoundError,
};
use crate::expr::{
    exprs_view, lemma_exprs_view, lemma_pairs_view, pairs_view, Expr, IOp, Literal, Op,
};
use crate::number::{
    answers, ask, clamp_i32, is_below_zero, is_function, law_truncation_keeps_the_sign,
    to_integer, Operation,
};
use crate::operators::binary_op;
use crate::semantics::{
    all_idents, bind_each, builtin, define_function, define_method, define_struct, element, eval,
    eval_assign, eval_binop, eval_block, eval_call, eval_cases, eval_for, eval_if, eval_index,
    eval_instance, eval_list, eval_method, eval_range, eval_set, eval_update, eval_while, fill,
    for_list, for_range, gather, is_builtin, literal_value, names_of, range_of, read, read_field,
    update, wrap_i32, write_each, Gather, Outcome,
};
use crate::table::{contains_key, get, put};
use crate::text::Text;
use crate::value::{
    clone_entries, clone_idents, clone_values, entries_view, idents_view, lemma_entries_view,
    lemma_entries_view_empty, lemma_values_view, lemma_values_view_empty, lemma_values_view_push,
    renderable, values_view, Ident, Value, ValueView,
};
use vstd::prelude::*;

verus! {

/// Whether what a function gave and left behind is what `o` names.
pub open spec fn agrees(
    r: Result<Value, Error>,
    env: Vec<(Ident, Value)>,
    out: Text,
    o: Outcome,
) -> bool {
    &&& outcome_view(r) == o.result
    &&& entries_view(env@) == o.env
    &&& out@ == o.out
}

/// Whether `name` is the name of a builtin.
pub fn is_builtin_name(name: &String) -> (r: bool)
    ensures
        r == is_builtin(name@),
{
    *name == "print".to_owned() || *name == "println".to_owned()
}

/// The value of a literal.
pub fn literal(value: &Literal) -> (r: Value)
    ensures
        r@ == literal_value(value@),
{
    match value {
        Literal::Number(n) => Value::Number(*n),
        Literal::String(s) => Value::String(s.clone()),
        Literal::Bool(b) => Value::Bool(*b),
    }
}

/// What the variable `name` holds.
pub fn read_variable(name: &String, env: &Vec<(Ident, Value)>) -> (r: Result<Value, Error>)
    ensures
        outcome_view(r) == read(name@, entries_view(env@)),
{
    match get(env, name) {
        Some(v) => Ok(v.clone()),
        None => Err(Error::VarNotFound(VarNotFoundError { var_name: name.clone() })),
    }
}

/// The names of `items`, where each of them is a bare identifier.
pub fn idents_of(items: &Vec<Expr>) -> (r: Option<Vec<Ident>>)
    ensures
        r is Some <==> all_idents(exprs_view(items@)),
        r matches Some(names) ==> idents_view(names@) == names_of(exprs_view(items@)),
{
    let ghost all = exprs_view(items@);
    proof {
        lemma_exprs_view(items@);
    }
    let mut names: Vec<Ident> = Vec::new();
    let mut i: usize = 0;
    while i < items.len()
        invariant
            i <= items.len(),
            all == exprs_view(items@),
            all.len() == items@.len(),
            forall|j: int| 0 <= j < all.len() ==> #[trigger] all[j] == items@[j]@,
            names@.len() == i,
            forall|j: int| 0 <= j < i ==> (#[trigger] all[j]) is Ident,
            forall|j: int| 0 <= j < i ==> (#[trigger] names@[j])@ == all[j]->Ident_ident,
        decreases items.len() - i,
    {
        match &items[i] {
            Expr::Ident { ident } => {
                names.push(Ident(ident.clone()));
            },
            _ => {
                proof {
                    assert(!(all[i as int] is Ident));
                }
                return None;
            },
        }
        i += 1;
    }
    proof {
        assert(idents_view(names@) =~= names_of(all));
    }
    Some(names)
}

/// Whether `name` is among `names`.
pub fn contains_name(names: &Vec<Ident>, name: &String) -> (r: bool)
    ensures
        r == idents_view(names@).contains(name@),
{
    let mut i: usize = 0;
    while i < names.len()
        invariant
            i <= names.len(),
            forall|j: int| 0 <= j < i ==> idents_view(names@)[j] != name@,
        decreases names.len() - i,
    {
        if names[i].0 == *name {
            proof {
                assert(idents_view(names@)[i as int] == name@);
            }
            return true;
        }
        i += 1;
    }
    false
}

/// Updates the variable `name` in place with the number `b`.
pub fn apply_update<F: Fn(Operation) -> u64>(
    op: IOp,
    env: &mut Vec<(Ident, Value)>,
    name: &String,
    b: &Value,
    host: &F,
) -> (r: Result<Value, Error>)
    requires
        is_function(host),
    ensures
        (outcome_view(r), entries_view(final(env)@)) == update(
            answers(host),
            op,
            entries_view(old(env)@),
            name@,
            b@,
        ),
{
    match b {
        Value::Number(y) => {
            let held = match get(env, name) {
                Some(Value::Number(x)) => Ok(*x),
                Some(v) => Err(Error::mismatch("number", v.get_type())),
                None => Err(Error::VarNotFound(VarNotFoundError { var_name: name.clone() })),
            };
            match held {
                Ok(x) => {
                    let q = match op {
                        IOp::IAdd => Operation::Add(x, *y),
                        IOp::ISub => Operation::Sub(x, *y),
                        IOp::IMul => Operation::Mul(x, *y),
                        IOp::IDiv => Operation::Div(x, *y),
                    };
                    let updated = ask(host, q);
                    put(env, Ident(name.clone()), Value::Number(updated));
                    Ok(Value::Nil)
                },
                Err(e) => Err(e),
            }
        },
        _ => Err(Error::misplaced("int or float", "unknown")),
    }
}

/// Defines the function `name`.
pub fn declare_function(
    name: &String,
    args: &Vec<Expr>,
    body: &Expr,
    env: &mut Vec<(Ident, Value)>,
) -> (r: Result<Value, Error>)
    ensures
        (outcome_view(r), entries_view(final(env)@)) == define_function(
            name@,
            exprs_view(args@),
            body@,
            entries_view(old(env)@),
        ),
{
    if is_builtin_name(name) {
        return Err(Error::IsBuiltin(IsBuiltinError { name: name.clone() }));
    }
    match idents_of(args) {
        None => Err(Error::misplaced("ident", "unknown")),
        Some(params) => {
            let bound = Value::Function {
                name: name.clone(),
                args: clone_idents(&params),
                body: body.clone(),
            };
            put(env, Ident(name.clone()), bound);
            Ok(Value::Function { name: name.clone(), args: params, body: body.clone() })
        },
    }
}

/// Defines the struct `name`.
pub fn declare_struct(name: &String, fields: &Vec<Expr>, env: &mut Vec<(Ident, Value)>) -> (r:
    Result<Value, Error>)
    ensures
        (outcome_view(r), entries_view(final(env)@)) == define_struct(
            name@,
            exprs_view(fields@),
            entries_view(old(env)@),
        ),
{
    match idents_of(fields) {
        None => Err(Error::misplaced("ident", "unknown")),
        Some(declared) => {
            let function: Vec<(Ident, Value)> = Vec::new();
            proof {
                lemma_entries_view(function@);
                assert(entries_view(function@) =~= Seq::<(Seq<char>, ValueView)>::empty());
            }
            let definition = Value::DefStruct { name: name.clone(), fields: declared, function };
            put(env, Ident(name.clone()), definition);
            Ok(Value::Nil)
        },
    }
}

/// What the field `attr` of the instance bound to `name` holds.
pub fn read_attr(name: &String, attr: &String, env: &Vec<(Ident, Value)>) -> (r: Result<
    Value,
    Error,
>)
    ensures
        outcome_view(r) == read_field(name@, attr@, entries_view(env@)),
{
    match get(env, name) {
        Some(Value::CallStruct { fields, .. }) => match get(fields, attr) {
            Some(v) => Ok(v.clone()),
            None => Err(Error::AttrNotFound(AttrNotFoundError { attr_name: attr.clone() })),
        },
        _ => Err(Error::misplaced("struct", "unknown")),
    }
}

/// Gives the struct bound to `name_struct` the method `name_method`.
pub fn declare_method(
    name_struct: &String,
    name_method: &String,
    args: &Vec<Expr>,
    body: &Expr,
    env: &mut Vec<(Ident, Value)>,
) -> (r: Result<Value, Error>)
    ensures
        (outcome_view(r), entries_view(final(env)@)) == define_method(
            name_struct@,
            name_method@,
            exprs_view(args@),
            body@,
            entries_view(old(env)@),
        ),
{
    let parts = match get(env, name_struct) {
        Some(Value::DefStruct { fields, function, .. }) => Ok(
            (clone_idents(fields), clone_entries(function)),
        ),
        None => Err(Error::StructNotFound(StructNotFoundError { name: name_struct.clone() })),
        Some(_) => Err(Error::misplaced("struct", "unknown")),
    };
    match parts {
        Err(e) => Err(e),
        Ok((fields, function)) => {
            let mut function = function;
            match idents_of(args) {
                None => Err(Error::misplaced("ident", "unknown")),
                Some(params) => {
                    let method = Value::Function {
                        name: name_method.clone(),
                        args: params,
                        body: body.clone(),
                    };
                    put(&mut function, Ident(name_method.clone()), method);
                    let definition = Value::DefStruct {
                        name: name_struct.clone(),
                        fields,
                        function,
                    };
                    put(env, Ident(name_struct.clone()), definition);
                    Ok(Value::Nil)
                },
            }
        },
    }
}

/// Runs the builtin `name` on `values`.
pub fn run_builtin(name: &String, values: &Vec<Value>, out: &mut Text) -> (r: Result<Value, Error>)
    ensures
        (outcome_view(r), final(out)@) == builtin(name@, values_view(values@), old(out)@),
{
    let ghost all = values_view(values@);
    let ghost begin = out@;
    proof {
        lemma_values_view(values@);
    }
    let mut failure: Option<Error> = None;
    let mut i: usize = 0;
    while i < values.len() && failure.is_none()
        invariant
            i <= values.len(),
            all == values_view(values@),
            all.len() == values@.len(),
            forall|j: int| 0 <= j < all.len() ==> #[trigger] all[j] == values@[j]@,
            failure is None ==> write_each(all, i as int, out@) == write_each(all, 0, begin),
            failure matches Some(e) ==> write_each(all, 0, begin) == (Some(e@), out@),
        decreases values.len() - i + if failure is None { 1int } else { 0int },
    {
        match values[i].rendered() {
            Some(text) => {
                out.append(&text);
                i += 1;
            },
            None => {
                proof {
                    assert(!renderable(all[i as int]));
                }
                failure = Some(
                    Error::CannotDisplay(CannotDisplayError { found: values[i].get_type() }),
                );
            },
        }
    }
    match failure {
        Some(e) => Err(e),
        None => {
            if *name == "println".to_owned() {
                out.push_chars("\n");
            }
            Ok(Value::Nil)
        },
    }
}

/// The item or the part of the list `items`, bound as `name`, that `index`
/// picks.
pub fn pick(name: &String, items: &Vec<Value>, index: &Value) -> (r: Result<Value, Error>)
    ensures
        outcome_view(r) == element(name@, values_view(items@), index@),
{
    let ghost all = values_view(items@);
    proof {
        lemma_values_view(items@);
    }
    match index {
        Value::Number(n) => {
            let i = to_integer(*n);
            proof {
                law_truncation_keeps_the_sign(*n);
            }
            if is_below_zero(*n) || i as u64 >= items.len() as u64 {
                Err(
                    Error::IndexOutOfBounds(
                        IndexOutOfBoundsError { index: clamp_i32(i), name: name.clone() },
                    ),
                )
            } else {
                Ok(items[i as usize].clone())
            }
        },
        Value::Range(r) => {
            let start = r.start;
            let end = r.end;
            let len = items.len();
            let outside = if start >= 0 && start as u64 >= len as u64 {
                Some(start)
            } else if end >= 0 && end as u64 > len as u64 {
                Some(end)
            } else if start < 0 {
                Some(start)
            } else if end < start {
                Some(end)
            } else {
                None
            };
            if let Some(index) = outside {
                Err(
                    Error::IndexOutOfBounds(
                        IndexOutOfBoundsError { index: wrap(index), name: name.clone() },
                    ),
                )
            } else {
                let mut part: Vec<Value> = Vec::new();
                let mut i: usize = start as usize;
                while i < end as usize
                    invariant
                        0 <= start <= i <= end <= items.len(),
                        all == values_view(items@),
                        all.len() == items@.len(),
                        forall|j: int| 0 <= j < all.len() ==> #[trigger] all[j] == items@[j]@,
                        part@.len() == i - start,
                        forall|j: int|
                            0 <= j < part@.len() ==> (#[trigger] part@[j])@ == all[start + j],
                    decreases end - i,
                {
                    part.push(items[i].clone());
                    i += 1;
                }
                proof {
                    lemma_values_view(part@);
                    assert(values_view(part@) =~= all.subrange(start as int, end as int));
                }
                Ok(Value::List(part))
            }
        },
        _ => Err(Error::mismatch("number", index.get_type())),
    }
}

/// `v`, wrapped around to the range of `i32`.
pub fn wrap(v: i64) -> (r: i32)
    ensures
        r == wrap_i32(v as int),
{
    #[verifier::truncate]
    (v as i32)
}

/// The range between two numbers.
pub fn make_range(x: &Value, y: &Value) -> (r: Result<Value, Error>)
    ensures
        outcome_view(r) == range_of(x@, y@),
{
    match x {
        Value::Number(from) => match y {
            Value::Number(to) => Ok(Value::Range(to_integer(*from)..to_integer(*to))),
            _ => Err(Error::mismatch("number", y.get_type())),
        },
        _ => Err(Error::mismatch("number", x.get_type())),
    }
}

/// Gives each of `names` the value at its place in `values`, as far as both
/// reach.
pub fn bind_all(t: &mut Vec<(Ident, Value)>, names: &Vec<Ident>, values: &Vec<Value>)
    ensures
        entries_view(final(t)@) == bind_each(
            entries_view(old(t)@),
            idents_view(names@),
            values_view(values@),
            0,
        ),
{
    let ghost ns = idents_view(names@);
    let ghost vs = values_view(values@);
    let ghost begin = entries_view(t@);
    proof {
        lemma_values_view(values@);
    }
    let mut i: usize = 0;
    while i < names.len() && i < values.len()
        invariant
            i <= names.len(),
            i <= values.len(),
            ns == idents_view(names@),
            vs == values_view(values@),
            vs.len() == values@.len(),
            forall|j: int| 0 <= j < vs.len() ==> #[trigger] vs[j] == values@[j]@,
            bind_each(entries_view(t@), ns, vs, i as int) == bind_each(begin, ns, vs, 0),
        decreases names.len() - i,
    {
        put(t, names[i].clone(), values[i].clone());
        i += 1;
    }
}

/// Evaluates `expr` with `fuel` units of fuel, in the bindings `env`, and
/// writes what it prints at the end of `out`.
pub fn evaluate<F: Fn(Operation) -> u64>(
    expr: &Expr,
    env: &mut Vec<(Ident, Value)>,
    out: &mut Text,
    fuel: u64,
    host: &F,
) -> (r: Result<Value, Error>)
    requires
        is_function(host),
    ensures
        agrees(
            r,
            *final(env),
            *final(out),
            eval(answers(host), expr@, entries_view(old(env)@), old(out)@, fuel as nat),
        ),
    decreases fuel, 0nat, 0nat,
{
    if fuel == 0 {
        return Err(Error::OutOfFuel);
    }
    let f = fuel - 1;
    match expr {
        Expr::Empty => Ok(Value::Nil),
        Expr::Block { body } => run_block(body, env, out, f, host),
        Expr::Literal { value } => Ok(literal(value)),
        Expr::Ident { ident } => read_variable(ident, env),
        Expr::BinOp { op, left, right } => run_binop(*op, &**left, &**right, env, out, f, host),
        Expr::IfThen { cond, then_ } => run_if(&**cond, &**then_, None, env, out, f, host),
        Expr::IfThenElse { cond, then_, else_ } => run_if(
            &**cond,
            &**then_,
            Some(&**else_),
            env,
            out,
            f,
            host,
        ),
        Expr::Assign { name, value } => run_assign(name, &**value, env, out, f, host),
        Expr::SetVar { name, value } => run_set(name, &**value, env, out, f, host),
        Expr::IOp { op, name, value } => run_update(*op, name, &**value, env, out, f, host),
        Expr::While { cond, body } => run_while(&**cond, &**body, env, out, f, host),
        Expr::For { name, iter, body } => run_for(&**name, &**iter, &**body, env, out, f, host),
        Expr::FunDef { name, args, body } => declare_function(name, args, &**body, env),
        Expr::Call { name, args } => run_call(name, args, env, out, f, host),
        Expr::List { elems } => run_list(elems, env, out, f, host),
        Expr::Index { name, index } => run_index(&**name, &**index, env, out, f, host),
        Expr::Range { start, end } => run_range(&**start, &**end, env, out, f, host),
        Expr::StructDef { name, fields } => declare_struct(name, fields, env),
        Expr::CallStruct { name, args } => run_instance(name, args, env, out, f, host),
        Expr::GetAttr { name, attr } => read_attr(name, attr, env),
        Expr::Impl { name_struct, name_method, args, body } => declare_method(
            name_struct,
            name_method,
            args,
            &**body,
            env,
        ),
        Expr::GetFunc { name, func, args } => run_method(name, func, args, env, out, f, host),
        Expr::Match { value, cases } => run_cases(&**value, cases, env, out, f, host),
    }
}

/// Evaluates the expressions of `body` one after the other.
pub fn run_block<F: Fn(Operation) -> u64>(
    body: &Vec<Expr>,
    env: &mut Vec<(Ident, Value)>,
    out: &mut Text,
    fuel: u64,
    host: &F,
) -> (r: Result<Value, Error>)
    requires
        is_function(host),
    ensures
        agrees(
            r,
            *final(env),
            *final(out),
            eval_block(
                answers(host),
                exprs_view(body@),
                0,
                ValueView::Nil,
                entries_view(old(env)@),
                old(out)@,
                fuel as nat,
            ),
        ),
    decreases fuel, 1nat, 0nat,
{
    let ghost m = answers(host);
    let ghost items = exprs_view(body@);
    let ghost total = eval_block(
        m,
        items,
        0,
        ValueView::Nil,
        entries_view(env@),
        out@,
        fuel as nat,
    );
    proof {
        lemma_exprs_view(body@);
    }
    let mut last = Value::Nil;
    let mut i: usize = 0;
    while i < body.len()
        invariant
            i <= body.len(),
            is_function(host),
            m == answers(host),
            items == exprs_view(body@),
            items.len() == body@.len(),
            forall|j: int| 0 <= j < items.len() ==> #[trigger] items[j] == body@[j]@,
            total == eval_block(
                m,
                items,
                0,
                ValueView::Nil,
                entries_view(old(env)@),
                old(out)@,
                fuel as nat,
            ),
            eval_block(m, items, i as int, last@, entries_view(env@), out@, fuel as nat) == total,
        decreases body.len() - i,
    {
        match evaluate(&body[i], env, out, fuel, host) {
            Ok(v) => {
                last = v;
            },
            Err(e) => {
                return Err(e);
            },
        }
        i += 1;
    }
    Ok(last)
}

/// Evaluates a binary operator.
pub fn run_binop<F: Fn(Operation) -> u64>(
    op: Op,
    left: &Expr,
    right: &Expr,
    env: &mut Vec<(Ident, Value)>,
    out: &mut Text,
    fuel: u64,
    host: &F,
) -> (r: Result<Value, Error>)
    requires
        is_function(host),
    ensures
        agrees(
            r,
            *final(env),
            *final(out),
            eval_binop(
                answers(host),
                op,
                left@,
                right@,
                entries_view(old(env)@),
                old(out)@,
                fuel as nat,
            ),
        ),
    decreases fuel, 2nat, 0nat,
{
    let a = match evaluate(left, env, out, fuel, host) {
        Ok(v) => v,
        Err(e) => {
            return Err(e);
        },
    };
    let b = match evaluate(right, env, out, fuel, host) {
        Ok(v) => v,
        Err(e) => {
            return Err(e);
        },
    };
    binary_op(op, &a, &b, host)
}

/// Evaluates a conditional.
pub fn run_if<F: Fn(Operation) -> u64>(
    cond: &Expr,
    then_: &Expr,
    else_: Option<&Expr>,
    env: &mut Vec<(Ident, Value)>,
    out: &mut Text,
    fuel: u64,
    host: &F,
) -> (r: Result<Value, Error>)
    requires
        is_function(host),
    ensures
        agrees(
            r,
            *final(env),
            *final(out),
            eval_if(
                answers(host),
                cond@,
                then_@,
                match else_ {
                    Some(e) => Some(e@),
                    None => None,
                },
                entries_view(old(env)@),
                old(out)@,
                fuel as nat,
            ),
        ),
    decreases fuel, 2nat, 0nat,
{
    let c = match evaluate(cond, env, out, fuel, host) {
        Ok(v) => v,
        Err(e) => {
            return Err(e);
        },
    };
    match c {
        Value::Bool(true) => evaluate(then_, env, out, fuel, host),
        Value::Bool(false) => match else_ {
            Some(e) => evaluate(e, env, out, fuel, host),
            None => Ok(Value::Nil),
        },
        v => Err(Error::mismatch("bool", v.get_type())),
    }
}

/// Evaluates the definition of a variable.
pub fn run_assign<F: Fn(Operation) -> u64>(
    name: &String,
    value: &Expr,
    env: &mut Vec<(Ident, Value)>,
    out: &mut Text,
    fuel: u64,
    host: &F,
) -> (r: Result<Value, Error>)
    requires
        is_function(host),
    ensures
        agrees(
            r,
            *final(env),
            *final(out),
            eval_assign(
                answers(host),
                name@,
                value@,
                entries_view(old(env)@),
                old(out)@,
                fuel as nat,
            ),
        ),
    decreases fuel, 2nat, 0nat,
{
    let v = match evaluate(value, env, out, fuel, host) {
        Ok(v) => v,
        Err(e) => {
            return Err(e);
        },
    };
    if contains_key(env, name) {
        return Err(Error::VarAlreadyDefined(VarAlreadyDefinedError { var_name: name.clone() }));
    }
    put(env, Ident(name.clone()), v);
    Ok(Value::Nil)
}

/// Evaluates an assignment to a variable.
pub fn run_set<F: Fn(Operation) -> u64>(
    name: &String,
    value: &Expr,
    env: &mut Vec<(Ident, Value)>,
    out: &mut Text,
    fuel: u64,
    host: &F,
) -> (r: Result<Value, Error>)
    requires
        is_function(host),
    ensures
        agrees(
            r,
            *final(env),
            *final(out),
            eval_set(
                answers(host),
                name@,
                value@,
                entries_view(old(env)@),
                old(out)@,
                fuel as nat,
            ),
        ),
    decreases fuel, 2nat, 0nat,
{
    if !contains_key(env, name) {
        return Err(Error::VarNotFound(VarNotFoundError { var_name: name.clone() }));
    }
    let v = match evaluate(value, env, out, fuel, host) {
        Ok(v) => v,
        Err(e) => {
            return Err(e);
        },
    };
    put(env, Ident(name.clone()), v);
    Ok(Value::Nil)
}

/// Evaluates an updating operator.
pub fn run_update<F: Fn(Operation) -> u64>(
    op: IOp,
    name: &String,
    value: &Expr,
    env: &mut Vec<(Ident, Value)>,
    out: &mut Text,
    fuel: u64,
    host: &F,
) -> (r: Result<Value, Error>)
    requires
        is_function(host),
    ensures
        agrees(
            r,
            *final(env),
            *final(out),
            eval_update(
                answers(host),
                op,
                name@,
                value@,
                entries_view(old(env)@),
                old(out)@,
                fuel as nat,
            ),
        ),
    decreases fuel, 2nat, 0nat,
{
    let v = match evaluate(value, env, out, fuel, host) {
        Ok(v) => v,
        Err(e) => {
            return Err(e);
        },
    };
    apply_update(op, env, name, &v, host)
}

/// Evaluates a `while` loop.
pub fn run_while<F: Fn(Operation) -> u64>(
    cond: &Expr,
    body: &Expr,
    env: &mut Vec<(Ident, Value)>,
    out: &mut Text,
    fuel: u64,
    host: &F,
) -> (r: Result<Value, Error>)
    requires
        is_function(host),
    ensures
        agrees(
            r,
            *final(env),
            *final(out),
            eval_while(
                answers(host),
                cond@,
                body@,
                entries_view(old(env)@),
                old(out)@,
                fuel as nat,
            ),
        ),
    decreases fuel, 2nat, 0nat,
{
    let ghost m = answers(host);
    let ghost total = eval_while(m, cond@, body@, entries_view(env@), out@, fuel as nat);
    let mut f = fuel;
    loop
        invariant
            is_function(host),
            m == answers(host),
            f <= fuel,
            total == eval_while(
                m,
                cond@,
                body@,
                entries_view(old(env)@),
                old(out)@,
                fuel as nat,
            ),
            eval_while(m, cond@, body@, entries_view(env@), out@, f as nat) == total,
        decreases f,
    {
        match evaluate(cond, env, out, f, host) {
            Err(e) => {
                return Err(e);
            },
            Ok(Value::Bool(true)) => {
                match evaluate(body, env, out, f, host) {
                    Err(e) => {
                        return Err(e);
                    },
                    Ok(_) => {
                        f = f - 1;
                    },
                }
            },
            Ok(_) => {
                return Ok(Value::Nil);
            },
        }
    }
}

/// Evaluates a `for` loop.
pub fn run_for<F: Fn(Operation) -> u64>(
    name: &Expr,
    iter: &Expr,
    body: &Expr,
    env: &mut Vec<(Ident, Value)>,
    out: &mut Text,
    fuel: u64,
    host: &F,
) -> (r: Result<Value, Error>)
    requires
        is_function(host),
    ensures
        agrees(
            r,
            *final(env),
            *final(out),
            eval_for(
                answers(host),
                name@,
                iter@,
                body@,
                entries_view(old(env)@),
                old(out)@,
                fuel as nat,
            ),
        ),
    decreases fuel, 2nat, 0nat,
{
    match name {
        Expr::Ident { ident } => {
            let it = match evaluate(iter, env, out, fuel, host) {
                Ok(v) => v,
                Err(e) => {
                    return Err(e);
                },
            };
            match it {
                Value::List(items) => run_for_list(ident, &items, body, env, out, fuel, host),
                Value::Range(r) => run_for_range(
                    ident,
                    r.start,
                    r.end,
                    body,
                    env,
                    out,
                    fuel,
                    host,
                ),
                v => Err(Error::mismatch("list", v.get_type())),
            }
        },
        _ => Err(Error::misplaced("string", "ident")),
    }
}

/// Evaluates a `for` loop over the items of a list.
pub fn run_for_list<F: Fn(Operation) -> u64>(
    name: &String,
    items: &Vec<Value>,
    body: &Expr,
    env: &mut Vec<(Ident, Value)>,
    out: &mut Text,
    fuel: u64,
    host: &F,
) -> (r: Result<Value, Error>)
    requires
        is_function(host),
    ensures
        agrees(
            r,
            *final(env),
            *final(out),
            for_list(
                answers(host),
                name@,
                values_view(items@),
                0,
                body@,
                ValueView::Nil,
                entries_view(old(env)@),
                old(out)@,
                fuel as nat,
            ),
        ),
    decreases fuel, 1nat, 0nat,
{
    let ghost m = answers(host);
    let ghost all = values_view(items@);
    let ghost total = for_list(
        m,
        name@,
        all,
        0,
        body@,
        ValueView::Nil,
        entries_view(env@),
        out@,
        fuel as nat,
    );
    proof {
        lemma_values_view(items@);
    }
    let mut last = Value::Nil;
    let mut i: usize = 0;
    while i < items.len()
        invariant
            i <= items.len(),
            is_function(host),
            m == answers(host),
            all == values_view(items@),
            all.len() == items@.len(),
            forall|j: int| 0 <= j < all.len() ==> #[trigger] all[j] == items@[j]@,
            total == for_list(
                m,
                name@,
                all,
                0,
                body@,
                ValueView::Nil,
                entries_view(old(env)@),
                old(out)@,
                fuel as nat,
            ),
            for_list(m, name@, all, i as int, body@, last@, entries_view(env@), out@, fuel as nat)
                == total,
        decreases items.len() - i,
    {
        put(env, Ident(name.clone()), items[i].clone());
        match evaluate(body, env, out, fuel, host) {
            Ok(v) => {
                last = v;
            },
            Err(e) => {
                return Err(e);
            },
        }
        i += 1;
    }
    Ok(last)
}

/// Evaluates a `for` loop over the integers of a range.
pub fn run_for_range<F: Fn(Operation) -> u64>(
    name: &String,
    start: i64,
    end: i64,
    body: &Expr,
    env: &mut Vec<(Ident, Value)>,
    out: &mut Text,
    fuel: u64,
    host: &F,
) -> (r: Result<Value, Error>)
    requires
        is_function(host),
    ensures
        agrees(
            r,
            *final(env),
            *final(out),
            for_range(
                answers(host),
                name@,
                start as int,
                end as int,
                body@,
                ValueView::Nil,
                entries_view(old(env)@),
                old(out)@,
                fuel as nat,
            ),
        ),
    decreases fuel, 1nat, 0nat,
{
    let ghost m = answers(host);
    let ghost total = for_range(
        m,
        name@,
        start as int,
        end as int,
        body@,
        ValueView::Nil,
        entries_view(env@),
        out@,
        fuel as nat,
    );
    let mut last = Value::Nil;
    let mut cur: i64 = start;
    while cur < end
        invariant
            is_function(host),
            m == answers(host),
            total == for_range(
                m,
                name@,
                start as int,
                end as int,
                body@,
                ValueView::Nil,
                entries_view(old(env)@),
                old(out)@,
                fuel as nat,
            ),
            for_range(
                m,
                name@,
                cur as int,
                end as int,
                body@,
                last@,
                entries_view(env@),
                out@,
                fuel as nat,
            ) == total,
        decreases end - cur,
    {
        let number = Value::Number(ask(host, Operation::FromInteger(cur)));
        put(env, Ident(name.clone()), number);
        match evaluate(body, env, out, fuel, host) {
            Ok(v) => {
                last = v;
            },
            Err(e) => {
                return Err(e);
            },
        }
        cur = cur + 1;
    }
    Ok(last)
}

/// Whether `e` says that the fuel ran out.
pub fn is_out_of_fuel(e: &Error) -> (r: bool)
    ensures
        r == (e@ is OutOfFuel),
{
    match e {
        Error::OutOfFuel => true,
        _ => false,
    }
}

/// Evaluates the first `n` expressions of `items` in a row.
pub fn gather_values<F: Fn(Operation) -> u64>(
    how: Gather,
    items: &Vec<Expr>,
    n: usize,
    env: &mut Vec<(Ident, Value)>,
    out: &mut Text,
    fuel: u64,
    host: &F,
) -> (r: Result<Vec<Value>, Error>)
    requires
        is_function(host),
    ensures
        ({
            let g = gather(
                answers(host),
                how,
                exprs_view(items@),
                n as nat,
                0,
                Seq::empty(),
                entries_view(old(env)@),
                old(out)@,
                fuel as nat,
            );
            &&& match r {
                Ok(values) => g.error is None && values_view(values@) == g.values,
                Err(e) => g.error == Some(e@),
            }
            &&& entries_view(final(env)@) == g.env
            &&& final(out)@ == g.out
        }),
    decreases fuel, 1nat, 0nat,
{
    let ghost m = answers(host);
    let ghost all = exprs_view(items@);
    let ghost total = gather(
        m,
        how,
        all,
        n as nat,
        0,
        Seq::empty(),
        entries_view(env@),
        out@,
        fuel as nat,
    );
    proof {
        lemma_exprs_view(items@);
    }
    let mut values: Vec<Value> = Vec::new();
    proof {
        lemma_values_view_empty(values@);
    }
    let mut i: usize = 0;
    while i < n && i < items.len()
        invariant
            i <= n,
            i <= items.len(),
            is_function(host),
            m == answers(host),
            all == exprs_view(items@),
            all.len() == items@.len(),
            forall|j: int| 0 <= j < all.len() ==> #[trigger] all[j] == items@[j]@,
            total == gather(
                m,
                how,
                all,
                n as nat,
                0,
                Seq::empty(),
                entries_view(old(env)@),
                old(out)@,
                fuel as nat,
            ),
            gather(
                m,
                how,
                all,
                n as nat,
                i as int,
                values_view(values@),
                entries_view(env@),
                out@,
                fuel as nat,
            ) == total,
        decreases items.len() - i,
    {
        let result = match how {
            Gather::Detached => {
                let mut copy = clone_entries(env);
                evaluate(&items[i], &mut copy, out, fuel, host)
            },
            _ => evaluate(&items[i], env, out, fuel, host),
        };
        let ghost before = values@;
        match result {
            Ok(v) => {
                proof {
                    lemma_values_view_push(before, v);
                }
                values.push(v);
            },
            Err(e) => {
                let lenient = match how {
                    Gather::Lenient => true,
                    _ => false,
                };
                if lenient && !is_out_of_fuel(&e) {
                    proof {
                        lemma_values_view_push(before, Value::Nil);
                    }
                    values.push(Value::Nil);
                } else {
                    return Err(e);
                }
            },
        }
        i += 1;
    }
    Ok(values)
}

/// Evaluates a call.
pub fn run_call<F: Fn(Operation) -> u64>(
    name: &String,
    args: &Vec<Expr>,
    env: &mut Vec<(Ident, Value)>,
    out: &mut Text,
    fuel: u64,
    host: &F,
) -> (r: Result<Value, Error>)
    requires
        is_function(host),
    ensures
        agrees(
            r,
            *final(env),
            *final(out),
            eval_call(
                answers(host),
                name@,
                exprs_view(args@),
                entries_view(old(env)@),
                old(out)@,
                fuel as nat,
            ),
        ),
    decreases fuel, 2nat, 0nat,
{
    proof {
        lemma_exprs_view(args@);
    }
    if is_builtin_name(name) {
        let values = match gather_values(Gather::Lenient, args, args.len(), env, out, fuel, host) {
            Ok(values) => values,
            Err(e) => {
                return Err(e);
            },
        };
        return run_builtin(name, &values, out);
    }
    let function = match get(env, name) {
        None => {
            return Err(Error::FunctionNotFound(FunctionNotFoundError { name: name.clone() }));
        },
        Some(v) => v.clone(),
    };
    match &function {
        Value::Function { name: own, args: params, body } => {
            if args.len() < params.len() {
                return Err(
                    Error::Arity(
                        ArityError {
                            name: own.clone(),
                            expected: params.len(),
                            found: args.len(),
                        },
                    ),
                );
            }
            let values = match gather_values(
                Gather::Strict,
                args,
                params.len(),
                env,
                out,
                fuel,
                host,
            ) {
                Ok(values) => values,
                Err(e) => {
                    return Err(e);
                },
            };
            let mut inner: Vec<(Ident, Value)> = Vec::new();
            proof {
                lemma_entries_view_empty(inner@);
            }
            put(&mut inner, Ident(own.clone()), function.clone());
            bind_all(&mut inner, params, &values);
            evaluate(body, &mut inner, out, fuel, host)
        },
        v => Err(Error::mismatch("function", v.get_type())),
    }
}

/// Evaluates a list.
pub fn run_list<F: Fn(Operation) -> u64>(
    elems: &Vec<Expr>,
    env: &mut Vec<(Ident, Value)>,
    out: &mut Text,
    fuel: u64,
    host: &F,
) -> (r: Result<Value, Error>)
    requires
        is_function(host),
    ensures
        agrees(
            r,
            *final(env),
            *final(out),
            eval_list(
                answers(host),
                exprs_view(elems@),
                entries_view(old(env)@),
                old(out)@,
                fuel as nat,
            ),
        ),
    decreases fuel, 2nat, 0nat,
{
    proof {
        lemma_exprs_view(elems@);
    }
    match gather_values(Gather::Strict, elems, elems.len(), env, out, fuel, host) {
        Ok(values) => Ok(Value::List(values)),
        Err(e) => Err(e),
    }
}

/// Evaluates an indexing.
pub fn run_index<F: Fn(Operation) -> u64>(
    name: &Expr,
    index: &Expr,
    env: &mut Vec<(Ident, Value)>,
    out: &mut Text,
    fuel: u64,
    host: &F,
) -> (r: Result<Value, Error>)
    requires
        is_function(host),
    ensures
        agrees(
            r,
            *final(env),
            *final(out),
            eval_index(
                answers(host),
                name@,
                index@,
                entries_view(old(env)@),
                old(out)@,
                fuel as nat,
            ),
        ),
    decreases fuel, 2nat, 0nat,
{
    match name {
        Expr::Ident { ident } => {
            let items = match get(env, ident) {
                Some(Value::List(items)) => clone_values(items),
                Some(v) => {
                    return Err(Error::mismatch("list", v.get_type()));
                },
                None => {
                    return Err(Error::VarNotFound(VarNotFoundError { var_name: ident.clone() }));
                },
            };
            let i = match evaluate(index, env, out, fuel, host) {
                Ok(v) => v,
                Err(e) => {
                    return Err(e);
                },
            };
            pick(ident, &items, &i)
        },
        _ => Err(Error::misplaced("ident", "unknown")),
    }
}

/// Evaluates a range.
pub fn run_range<F: Fn(Operation) -> u64>(
    start: &Expr,
    end: &Expr,
    env: &mut Vec<(Ident, Value)>,
    out: &mut Text,
    fuel: u64,
    host: &F,
) -> (r: Result<Value, Error>)
    requires
        is_function(host),
    ensures
        agrees(
            r,
            *final(env),
            *final(out),
            eval_range(
                answers(host),
                start@,
                end@,
                entries_view(old(env)@),
                old(out)@,
                fuel as nat,
            ),
        ),
    decreases fuel, 2nat, 0nat,
{
    let a = match evaluate(start, env, out, fuel, host) {
        Ok(v) => v,
        Err(e) => {
            return Err(e);
        },
    };
    let b = match evaluate(end, env, out, fuel, host) {
        Ok(v) => v,
        Err(e) => {
            return Err(e);
        },
    };
    make_range(&a, &b)
}

/// Evaluates the making of an instance.
pub fn run_instance<F: Fn(Operation) -> u64>(
    name: &String,
    args: &Vec<(Expr, Expr)>,
    env: &mut Vec<(Ident, Value)>,
    out: &mut Text,
    fuel: u64,
    host: &F,
) -> (r: Result<Value, Error>)
    requires
        is_function(host),
    ensures
        agrees(
            r,
            *final(env),
            *final(out),
            eval_instance(
                answers(host),
                name@,
                pairs_view(args@),
                entries_view(old(env)@),
                old(out)@,
                fuel as nat,
            ),
        ),
    decreases fuel, 2nat, 0nat,
{
    let fields = match get(env, name) {
        None => {
            return Err(Error::StructNotFound(StructNotFoundError { name: name.clone() }));
        },
        Some(Value::DefStruct { fields, .. }) => clone_idents(fields),
        Some(v) => {
            return Err(Error::mismatch("struct", v.get_type()));
        },
    };
    let ghost m = answers(host);
    let ghost declared = idents_view(fields@);
    let ghost pairs = pairs_view(args@);
    let ghost total = fill(
        m,
        name@,
        declared,
        pairs,
        0,
        Seq::empty(),
        entries_view(env@),
        out@,
        fuel as nat,
    );
    proof {
        lemma_pairs_view(args@);
    }
    let mut kept: Vec<(Ident, Value)> = Vec::new();
    proof {
        lemma_entries_view_empty(kept@);
    }
    let mut i: usize = 0;
    while i < args.len()
        invariant
            i <= args.len(),
            is_function(host),
            m == answers(host),
            declared == idents_view(fields@),
            pairs == pairs_view(args@),
            pairs.len() == args@.len(),
            forall|j: int|
                0 <= j < pairs.len() ==> #[trigger] pairs[j] == (args@[j].0@, args@[j].1@),
            total == eval_instance(
                m,
                name@,
                pairs,
                entries_view(old(env)@),
                old(out)@,
                fuel as nat,
            ),
            fill(
                m,
                name@,
                declared,
                pairs,
                i as int,
                entries_view(kept@),
                entries_view(env@),
                out@,
                fuel as nat,
            ) == total,
        decreases args.len() - i,
    {
        match &args[i].0 {
            Expr::Ident { ident } => {
                let v = match evaluate(&args[i].1, env, out, fuel, host) {
                    Ok(v) => v,
                    Err(e) => {
                        return Err(e);
                    },
                };
                if contains_name(&fields, ident) {
                    put(&mut kept, Ident(ident.clone()), v);
                }
            },
            _ => {
                return Err(Error::misplaced("ident", "unknown"));
            },
        }
        i += 1;
    }
    Ok(Value::CallStruct { name: name.clone(), fields: kept })
}

/// Evaluates the call of a method.
pub fn run_method<F: Fn(Operation) -> u64>(
    name: &String,
    func: &String,
    args: &Vec<Expr>,
    env: &mut Vec<(Ident, Value)>,
    out: &mut Text,
    fuel: u64,
    host: &F,
) -> (r: Result<Value, Error>)
    requires
        is_function(host),
    ensures
        agrees(
            r,
            *final(env),
            *final(out),
            eval_method(
                answers(host),
                name@,
                func@,
                exprs_view(args@),
                entries_view(old(env)@),
                old(out)@,
                fuel as nat,
            ),
        ),
    decreases fuel, 2nat, 0nat,
{
    proof {
        lemma_exprs_view(args@);
    }
    let instance = match get(env, name) {
        Some(Value::CallStruct { name: of, fields: held }) => Value::CallStruct {
            name: of.clone(),
            fields: clone_entries(held),
        },
        _ => {
            return Err(Error::misplaced("struct", "unknown"));
        },
    };
    let of = match &instance {
        Value::CallStruct { name: of, .. } => of.clone(),
        _ => {
            return Err(Error::misplaced("struct", "unknown"));
        },
    };
    let (fields, found) = match get(env, &of) {
        Some(Value::DefStruct { fields, function, .. }) => {
            let found = match get(function, func) {
                Some(method) => Some(method.clone()),
                None => None,
            };
            (clone_idents(fields), found)
        },
        _ => {
            return Err(Error::misplaced("struct", "unknown"));
        },
    };
    let method = match found {
        Some(method) => method,
        None => {
            return Err(Error::FunctionNotFound(FunctionNotFoundError { name: func.clone() }));
        },
    };
    let values = match gather_values(Gather::Detached, args, args.len(), env, out, fuel, host) {
        Ok(values) => values,
        Err(e) => {
            return Err(e);
        },
    };
    match &method {
        Value::Function { body, .. } => {
            let mut inner: Vec<(Ident, Value)> = Vec::new();
            proof {
                lemma_entries_view_empty(inner@);
            }
            put(&mut inner, Ident("self".to_owned()), instance);
            bind_all(&mut inner, &fields, &values);
            evaluate(body, &mut inner, out, fuel, host)
        },
        _ => Err(Error::misplaced("function", "unknown")),
    }
}

/// Evaluates a `match`.
pub fn run_cases<F: Fn(Operation) -> u64>(
    value: &Expr,
    cases: &Vec<(Expr, Expr)>,
    env: &mut Vec<(Ident, Value)>,
    out: &mut Text,
    fuel: u64,
    host: &F,
) -> (r: Result<Value, Error>)
    requires
        is_function(host),
    ensures
        agrees(
            r,
            *final(env),
            *final(out),
            eval_cases(
                answers(host),
                value@,
                pairs_view(cases@),
                0,
                ValueView::Nil,
                entries_view(old(env)@),
                old(out)@,
                fuel as nat,
            ),
        ),
    decreases fuel, 1nat, 0nat,
{
    let ghost m = answers(host);
    let ghost pairs = pairs_view(cases@);
    let ghost total = eval_cases(
        m,
        value@,
        pairs,
        0,
        ValueView::Nil,
        entries_view(env@),
        out@,
        fuel as nat,
    );
    proof {
        lemma_pairs_view(cases@);
    }
    let mut last = Value::Nil;
    let mut i: usize = 0;
    while i < cases.len()
        invariant
            i <= cases.len(),
            is_function(host),
            m == answers(host),
            pairs == pairs_view(cases@),
            pairs.len() == cases@.len(),
            forall|j: int|
                0 <= j < pairs.len() ==> #[trigger] pairs[j] == (cases@[j].0@, cases@[j].1@),
            total == eval_cases(
                m,
                value@,
                pairs,
                0,
                ValueView::Nil,
                entries_view(old(env)@),
                old(out)@,
                fuel as nat,
            ),
            eval_cases(
                m,
                value@,
                pairs,
                i as int,
                last@,
                entries_view(env@),
                out@,
                fuel as nat,
            ) == total,
        decreases cases.len() - i,
    {
        match evaluate(&cases[i].0, env, out, fuel, host) {
            Err(e) => {
                if is_out_of_fuel(&e) {
                    return Err(e);
                }
            },
            Ok(_) => {},
        }
        match evaluate(value, env, out, fuel, host) {
            Err(e) => {
                return Err(e);
            },
            Ok(_) => {},
        }
        let mut fresh: Vec<(Ident, Value)> = Vec::new();
        proof {
            lemma_entries_view_empty(fresh@);
        }
        match evaluate(&cases[i].1, &mut fresh, out, fuel, host) {
            Err(e) => {
                return Err(e);
            },
            Ok(v) => {
                last = v;
            },
        }
        i += 1;
    }
    Ok(last)
}

} // verus!
