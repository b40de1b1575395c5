//! What an evaluation gives, stated as mathematics.
//!
//! `eval` takes an expression, the bindings and the text written so far, and
//! gives a value or an error together with the bindings and the text that
//! the evaluation leaves behind. Whatever an expression binds stays bound
//! after it, also where the evaluation fails later on.
//!
//! An evaluation cannot be taken to end by itself: a loop may run forever
//! and a function may call itself without end. So `eval` counts. It is
//! given an amount of fuel, spends one unit for each level that it descends
//! into an expression and one for each round of a `while` loop, and fails
//! with `OutOfFuel` where none is left. That error passes through every
//! construct, unlike the others also through those that overlook a failure.
//!
//! Arithmetic is a parameter: `m` says what the bits of each sum, product
//! and so on are.

use crate::error::{mismatch, misplaced, ErrorView};
use crate::expr::{ExprView, IOp, LiteralView, Op};
use crate::number::{
    spec_clamp_i32, spec_is_below_zero, spec_to_integer, Arithmetic, Operation,
};
use crate::operators::binary_checked;
use crate::table::{bind, bound, lookup, Bindings};
use crate::text::{chars, PieceView};
use crate::value::{display, renderable, type_of, ValueView};
use vstd::prelude::*;

verus! {

/// What an evaluation leaves: a value or an error, the bindings, and the
/// text written.
pub struct Outcome {
    pub result: Result<ValueView, ErrorView>,
    pub env: Bindings,
    pub out: Seq<PieceView>,
}

/// The outcome of an evaluation that gave `v`.
pub open spec fn done(v: ValueView, env: Bindings, out: Seq<PieceView>) -> Outcome {
    Outcome { result: Ok(v), env, out }
}

/// The outcome of an evaluation that failed with `e`.
pub open spec fn failed(e: ErrorView, env: Bindings, out: Seq<PieceView>) -> Outcome {
    Outcome { result: Err(e), env, out }
}

/// What evaluating some expressions in a row leaves: the values they gave,
/// or the error that ended the row, the bindings, and the text written.
pub struct Gathered {
    pub error: Option<ErrorView>,
    pub values: Seq<ValueView>,
    pub env: Bindings,
    pub out: Seq<PieceView>,
}

/// How a row of expressions is evaluated.
#[derive(Debug, PartialEq, Eq, Clone, Copy)]
pub enum Gather {
    /// Each in the bindings that the one before left; the first error ends
    /// the row.
    Strict,
    /// As `Strict`, but an expression that fails, for anything but want of
    /// fuel, counts as the value for no value, and the row goes on.
    Lenient,
    /// Each in the bindings that the row began with, so that nothing it
    /// binds is kept; the first error ends the row.
    Detached,
}

/// The name under which an instance is bound while one of its methods runs.
pub open spec fn self_name() -> Seq<char> {
    "self"@
}

/// Whether `name` is the name of a builtin: `print` and `println` are.
pub open spec fn is_builtin(name: Seq<char>) -> bool {
    name == "print"@ || name == "println"@
}

/// The value of a literal.
pub open spec fn literal_value(l: LiteralView) -> ValueView {
    match l {
        LiteralView::Number(n) => ValueView::Number(n),
        LiteralView::String(s) => ValueView::String(s),
        LiteralView::Bool(b) => ValueView::Bool(b),
    }
}

/// Whether each expression of `items` is a bare identifier.
pub open spec fn all_idents(items: Seq<ExprView>) -> bool {
    forall|i: int| 0 <= i < items.len() ==> (#[trigger] items[i]) is Ident
}

/// The names of the bare identifiers `items`, in order.
pub open spec fn names_of(items: Seq<ExprView>) -> Seq<Seq<char>> {
    Seq::new(items.len(), |i: int| items[i]->Ident_ident)
}

/// `v`, wrapped around to the range of `i32`.
pub open spec fn wrap_i32(v: int) -> int {
    (v as i32) as int
}

/// The item or the part of the list `items`, bound as `name`, that the
/// index `index` picks.
///
/// A number picks the item at the integer it truncates to, and fails where
/// it is below zero or the list has no such item. A range picks the items
/// from its start up to its end, and fails where the list has no item at
/// its start, or ends before the range does, or where the range begins
/// below zero or ends before it starts. The error holds the offending index.
pub open spec fn element(name: Seq<char>, items: Seq<ValueView>, index: ValueView) -> Result<
    ValueView,
    ErrorView,
> {
    match index {
        ValueView::Number(n) => {
            let i = spec_to_integer(n);
            if spec_is_below_zero(n) || i >= items.len() {
                Err(ErrorView::IndexOutOfBounds { index: spec_clamp_i32(i), name })
            } else {
                Ok(items[i])
            }
        },
        ValueView::Range { start, end } => {
            if start >= items.len() {
                Err(ErrorView::IndexOutOfBounds { index: wrap_i32(start), name })
            } else if end > items.len() {
                Err(ErrorView::IndexOutOfBounds { index: wrap_i32(end), name })
            } else if start < 0 {
                Err(ErrorView::IndexOutOfBounds { index: wrap_i32(start), name })
            } else if end < start {
                Err(ErrorView::IndexOutOfBounds { index: wrap_i32(end), name })
            } else {
                Ok(ValueView::List(items.subrange(start, end)))
            }
        },
        _ => Err(mismatch("number"@, type_of(index))),
    }
}

/// The operation that an updating operator asks for on the number `x` that
/// the variable holds and the number `y` on its right.
pub open spec fn update_operation(op: IOp, x: u64, y: u64) -> Operation {
    match op {
        IOp::IAdd => Operation::Add(x, y),
        IOp::ISub => Operation::Sub(x, y),
        IOp::IMul => Operation::Mul(x, y),
        IOp::IDiv => Operation::Div(x, y),
    }
}

/// What an updating operator does to the variable `name` with `b` on its
/// right: both must be numbers, and the variable then holds what `m`
/// answers. Nothing is bound where it fails.
pub open spec fn update(m: Arithmetic, op: IOp, env: Bindings, name: Seq<char>, b: ValueView) -> (
    Result<ValueView, ErrorView>,
    Bindings,
) {
    match b {
        ValueView::Number(y) => match lookup(env, name) {
            Some(ValueView::Number(x)) => (
                Ok(ValueView::Nil),
                bind(env, name, ValueView::Number(m(update_operation(op, x, y)))),
            ),
            Some(v) => (Err(mismatch("number"@, type_of(v))), env),
            None => (Err(ErrorView::VarNotFound { var_name: name }), env),
        },
        _ => (Err(misplaced("int or float"@, "unknown"@)), env),
    }
}

/// `t` after each of `names` was given the value that stands at its place
/// in `values`, from the place `i` on and as far as both reach.
pub open spec fn bind_each(
    t: Bindings,
    names: Seq<Seq<char>>,
    values: Seq<ValueView>,
    i: int,
) -> Bindings
    decreases names.len() - i,
{
    if i < 0 || i >= names.len() || i >= values.len() {
        t
    } else {
        bind_each(bind(t, names[i], values[i]), names, values, i + 1)
    }
}

/// What writing the renderings of `values`, from the place `i` on, adds to
/// `out`, and the error where one of them has no rendering: those before it
/// are written all the same.
pub open spec fn write_each(values: Seq<ValueView>, i: int, out: Seq<PieceView>) -> (
    Option<ErrorView>,
    Seq<PieceView>,
)
    decreases values.len() - i,
{
    if i < 0 || i >= values.len() {
        (None, out)
    } else if !renderable(values[i]) {
        (Some(ErrorView::CannotDisplay { found: type_of(values[i]) }), out)
    } else {
        write_each(values, i + 1, out + display(values[i]))
    }
}

/// What the builtin `name` does with `values`: `print` writes their
/// renderings one after the other with nothing between them, `println` does
/// the same and ends the line. Both give the value for no value.
pub open spec fn builtin(name: Seq<char>, values: Seq<ValueView>, out: Seq<PieceView>) -> (
    Result<ValueView, ErrorView>,
    Seq<PieceView>,
) {
    let (error, written) = write_each(values, 0, out);
    match error {
        Some(e) => (Err(e), written),
        None => if name == "println"@ {
            (Ok(ValueView::Nil), written + chars("\n"@))
        } else {
            (Ok(ValueView::Nil), written)
        },
    }
}

/// The outcome of evaluating `e` with `fuel` units of fuel.
pub open spec fn eval(
    m: Arithmetic,
    e: ExprView,
    env: Bindings,
    out: Seq<PieceView>,
    fuel: nat,
) -> Outcome
    decreases fuel, 0nat, 0nat,
{
    if fuel == 0 {
        failed(ErrorView::OutOfFuel, env, out)
    } else {
        let f = (fuel - 1) as nat;
        match e {
            ExprView::Empty => done(ValueView::Nil, env, out),
            ExprView::Block { body } => eval_block(m, body, 0, ValueView::Nil, env, out, f),
            ExprView::Literal { value } => done(literal_value(value), env, out),
            ExprView::Ident { ident } => Outcome { result: read(ident, env), env, out },
            ExprView::BinOp { op, left, right } => eval_binop(m, op, *left, *right, env, out, f),
            ExprView::IfThen { cond, then_ } => eval_if(m, *cond, *then_, None, env, out, f),
            ExprView::IfThenElse { cond, then_, else_ } => eval_if(
                m,
                *cond,
                *then_,
                Some(*else_),
                env,
                out,
                f,
            ),
            ExprView::Assign { name, value } => eval_assign(m, name, *value, env, out, f),
            ExprView::SetVar { name, value } => eval_set(m, name, *value, env, out, f),
            ExprView::IOp { op, name, value } => eval_update(m, op, name, *value, env, out, f),
            ExprView::While { cond, body } => eval_while(m, *cond, *body, env, out, f),
            ExprView::For { name, iter, body } => eval_for(m, *name, *iter, *body, env, out, f),
            ExprView::FunDef { name, args, body } => {
                let (result, after) = define_function(name, args, *body, env);
                Outcome { result, env: after, out }
            },
            ExprView::Call { name, args } => eval_call(m, name, args, env, out, f),
            ExprView::List { elems } => eval_list(m, elems, env, out, f),
            ExprView::Index { name, index } => eval_index(m, *name, *index, env, out, f),
            ExprView::Range { start, end } => eval_range(m, *start, *end, env, out, f),
            ExprView::StructDef { name, fields } => {
                let (result, after) = define_struct(name, fields, env);
                Outcome { result, env: after, out }
            },
            ExprView::CallStruct { name, args } => eval_instance(m, name, args, env, out, f),
            ExprView::GetAttr { name, attr } => Outcome {
                result: read_field(name, attr, env),
                env,
                out,
            },
            ExprView::Impl { name_struct, name_method, args, body } => {
                let (result, after) = define_method(name_struct, name_method, args, *body, env);
                Outcome { result, env: after, out }
            },
            ExprView::GetFunc { name, func, args } => eval_method(m, name, func, args, env, out, f),
            ExprView::Match { value, cases } => eval_cases(
                m,
                *value,
                cases,
                0,
                ValueView::Nil,
                env,
                out,
                f,
            ),
        }
    }
}

/// What reading the variable `name` gives.
pub open spec fn read(name: Seq<char>, env: Bindings) -> Result<ValueView, ErrorView> {
    match lookup(env, name) {
        Some(v) => Ok(v),
        None => Err(ErrorView::VarNotFound { var_name: name }),
    }
}

/// The outcome of a binary operator: the left operand is evaluated, then
/// the right one, whatever the left one gave, then the operator.
pub open spec fn eval_binop(
    m: Arithmetic,
    op: Op,
    left: ExprView,
    right: ExprView,
    env: Bindings,
    out: Seq<PieceView>,
    fuel: nat,
) -> Outcome
    decreases fuel, 2nat, 0nat,
{
    let a = eval(m, left, env, out, fuel);
    match a.result {
        Err(_) => a,
        Ok(x) => {
            let b = eval(m, right, a.env, a.out, fuel);
            match b.result {
                Err(_) => b,
                Ok(y) => Outcome { result: binary_checked(m, op, x, y), env: b.env, out: b.out },
            }
        },
    }
}

/// The outcome of a conditional: the condition must give a truth value.
/// Under `true` the first branch is evaluated; under `false` the second,
/// and where there is none the conditional gives the value for no value.
pub open spec fn eval_if(
    m: Arithmetic,
    cond: ExprView,
    then_: ExprView,
    else_: Option<ExprView>,
    env: Bindings,
    out: Seq<PieceView>,
    fuel: nat,
) -> Outcome
    decreases fuel, 2nat, 0nat,
{
    let c = eval(m, cond, env, out, fuel);
    match c.result {
        Err(_) => c,
        Ok(ValueView::Bool(true)) => eval(m, then_, c.env, c.out, fuel),
        Ok(ValueView::Bool(false)) => match else_ {
            Some(e) => eval(m, e, c.env, c.out, fuel),
            None => done(ValueView::Nil, c.env, c.out),
        },
        Ok(v) => failed(mismatch("bool"@, type_of(v)), c.env, c.out),
    }
}

/// The outcome of a definition of the variable `name`: the value is
/// evaluated first, and the name must not be bound after that. It gives the
/// value for no value.
pub open spec fn eval_assign(
    m: Arithmetic,
    name: Seq<char>,
    value: ExprView,
    env: Bindings,
    out: Seq<PieceView>,
    fuel: nat,
) -> Outcome
    decreases fuel, 2nat, 0nat,
{
    let v = eval(m, value, env, out, fuel);
    match v.result {
        Err(_) => v,
        Ok(x) => if bound(v.env, name) {
            failed(ErrorView::VarAlreadyDefined { var_name: name }, v.env, v.out)
        } else {
            done(ValueView::Nil, bind(v.env, name, x), v.out)
        },
    }
}

/// The outcome of an assignment to the variable `name`: the name must be
/// bound before the value is evaluated. It gives the value for no value.
pub open spec fn eval_set(
    m: Arithmetic,
    name: Seq<char>,
    value: ExprView,
    env: Bindings,
    out: Seq<PieceView>,
    fuel: nat,
) -> Outcome
    decreases fuel, 2nat, 0nat,
{
    if !bound(env, name) {
        failed(ErrorView::VarNotFound { var_name: name }, env, out)
    } else {
        let v = eval(m, value, env, out, fuel);
        match v.result {
            Err(_) => v,
            Ok(x) => done(ValueView::Nil, bind(v.env, name, x), v.out),
        }
    }
}

/// The outcome of an updating operator on the variable `name`: the right
/// side is evaluated, then the variable updated.
pub open spec fn eval_update(
    m: Arithmetic,
    op: IOp,
    name: Seq<char>,
    value: ExprView,
    env: Bindings,
    out: Seq<PieceView>,
    fuel: nat,
) -> Outcome
    decreases fuel, 2nat, 0nat,
{
    let v = eval(m, value, env, out, fuel);
    match v.result {
        Err(_) => v,
        Ok(x) => {
            let (result, after) = update(m, op, v.env, name, x);
            Outcome { result, env: after, out: v.out }
        },
    }
}

/// The outcome of a `for` loop: the loop variable must be a bare
/// identifier, and what is looped over must give a list or a range.
pub open spec fn eval_for(
    m: Arithmetic,
    name: ExprView,
    iter: ExprView,
    body: ExprView,
    env: Bindings,
    out: Seq<PieceView>,
    fuel: nat,
) -> Outcome
    decreases fuel, 2nat, 0nat,
{
    match name {
        ExprView::Ident { ident } => {
            let it = eval(m, iter, env, out, fuel);
            match it.result {
                Err(_) => it,
                Ok(ValueView::List(items)) => for_list(
                    m,
                    ident,
                    items,
                    0,
                    body,
                    ValueView::Nil,
                    it.env,
                    it.out,
                    fuel,
                ),
                Ok(ValueView::Range { start, end }) => for_range(
                    m,
                    ident,
                    start,
                    end,
                    body,
                    ValueView::Nil,
                    it.env,
                    it.out,
                    fuel,
                ),
                Ok(v) => failed(mismatch("list"@, type_of(v)), it.env, it.out),
            }
        },
        _ => failed(misplaced("string"@, "ident"@), env, out),
    }
}

/// What the definition of a function gives, and the bindings after it:
/// the name must not be that of a builtin, and the parameters must be bare
/// identifiers. The function is bound to its name, over what the name had,
/// and is what the definition gives.
pub open spec fn define_function(
    name: Seq<char>,
    args: Seq<ExprView>,
    body: ExprView,
    env: Bindings,
) -> (Result<ValueView, ErrorView>, Bindings) {
    if is_builtin(name) {
        (Err(ErrorView::IsBuiltin { name }), env)
    } else if !all_idents(args) {
        (Err(misplaced("ident"@, "unknown"@)), env)
    } else {
        let function = ValueView::Function { name, args: names_of(args), body };
        (Ok(function), bind(env, name, function))
    }
}

/// The bindings in which the body of `function` runs when it is called
/// with `values`: the function under its own name, then each parameter with
/// the value at its place, and nothing else.
pub open spec fn call_bindings(function: ValueView, values: Seq<ValueView>) -> Bindings {
    bind_each(
        bind(Seq::empty(), function->Function_name, function),
        function->Function_args,
        values,
        0,
    )
}

/// The outcome of a call.
///
/// A builtin has all its arguments evaluated, a failing one counting as the
/// value for no value, and is then run on them. Any other name must be
/// bound to a function. The function must not have more parameters than
/// there are arguments; as many arguments as it has parameters are
/// evaluated, in the caller's bindings, and the body then runs in bindings
/// of its own, which are dropped after it.
pub open spec fn eval_call(
    m: Arithmetic,
    name: Seq<char>,
    args: Seq<ExprView>,
    env: Bindings,
    out: Seq<PieceView>,
    fuel: nat,
) -> Outcome
    decreases fuel, 2nat, 0nat,
{
    if is_builtin(name) {
        let g = gather(m, Gather::Lenient, args, args.len(), 0, Seq::empty(), env, out, fuel);
        match g.error {
            Some(e) => failed(e, g.env, g.out),
            None => {
                let (result, written) = builtin(name, g.values, g.out);
                Outcome { result, env: g.env, out: written }
            },
        }
    } else {
        match lookup(env, name) {
            None => failed(ErrorView::FunctionNotFound { name }, env, out),
            Some(ValueView::Function { name: own, args: params, body }) => {
                if args.len() < params.len() {
                    failed(
                        ErrorView::Arity { name: own, expected: params.len(), found: args.len() },
                        env,
                        out,
                    )
                } else {
                    let g = gather(
                        m,
                        Gather::Strict,
                        args,
                        params.len(),
                        0,
                        Seq::empty(),
                        env,
                        out,
                        fuel,
                    );
                    match g.error {
                        Some(e) => failed(e, g.env, g.out),
                        None => {
                            let function = ValueView::Function { name: own, args: params, body };
                            let b = eval(m, body, call_bindings(function, g.values), g.out, fuel);
                            Outcome { result: b.result, env: g.env, out: b.out }
                        },
                    }
                }
            },
            Some(v) => failed(mismatch("function"@, type_of(v)), env, out),
        }
    }
}

/// The outcome of a list: its items are evaluated in order.
pub open spec fn eval_list(
    m: Arithmetic,
    elems: Seq<ExprView>,
    env: Bindings,
    out: Seq<PieceView>,
    fuel: nat,
) -> Outcome
    decreases fuel, 2nat, 0nat,
{
    let g = gather(m, Gather::Strict, elems, elems.len(), 0, Seq::empty(), env, out, fuel);
    match g.error {
        Some(e) => failed(e, g.env, g.out),
        None => done(ValueView::List(g.values), g.env, g.out),
    }
}

/// The outcome of indexing: what is indexed must be a bare identifier
/// bound to a list. The list is read before the index is evaluated.
pub open spec fn eval_index(
    m: Arithmetic,
    name: ExprView,
    index: ExprView,
    env: Bindings,
    out: Seq<PieceView>,
    fuel: nat,
) -> Outcome
    decreases fuel, 2nat, 0nat,
{
    match name {
        ExprView::Ident { ident } => match lookup(env, ident) {
            Some(ValueView::List(items)) => {
                let i = eval(m, index, env, out, fuel);
                match i.result {
                    Err(_) => i,
                    Ok(v) => Outcome { result: element(ident, items, v), env: i.env, out: i.out },
                }
            },
            Some(v) => failed(mismatch("list"@, type_of(v)), env, out),
            None => failed(ErrorView::VarNotFound { var_name: ident }, env, out),
        },
        _ => failed(misplaced("ident"@, "unknown"@), env, out),
    }
}

/// The range between two numbers, each truncated to an integer.
pub open spec fn range_of(x: ValueView, y: ValueView) -> Result<ValueView, ErrorView> {
    match x {
        ValueView::Number(from) => match y {
            ValueView::Number(to) => Ok(
                ValueView::Range { start: spec_to_integer(from), end: spec_to_integer(to) },
            ),
            _ => Err(mismatch("number"@, type_of(y))),
        },
        _ => Err(mismatch("number"@, type_of(x))),
    }
}

/// The outcome of a range: both ends are evaluated, then both must be
/// numbers.
pub open spec fn eval_range(
    m: Arithmetic,
    start: ExprView,
    end: ExprView,
    env: Bindings,
    out: Seq<PieceView>,
    fuel: nat,
) -> Outcome
    decreases fuel, 2nat, 0nat,
{
    let a = eval(m, start, env, out, fuel);
    match a.result {
        Err(_) => a,
        Ok(x) => {
            let b = eval(m, end, a.env, a.out, fuel);
            match b.result {
                Err(_) => b,
                Ok(y) => Outcome { result: range_of(x, y), env: b.env, out: b.out },
            }
        },
    }
}

/// What the definition of a struct gives, and the bindings after it: the
/// fields must be bare identifiers. The definition, without methods, is
/// bound to its name, over what the name had. It gives the value for no
/// value.
pub open spec fn define_struct(name: Seq<char>, fields: Seq<ExprView>, env: Bindings) -> (
    Result<ValueView, ErrorView>,
    Bindings,
) {
    if !all_idents(fields) {
        (Err(misplaced("ident"@, "unknown"@)), env)
    } else {
        let definition = ValueView::DefStruct {
            name,
            fields: names_of(fields),
            function: Seq::empty(),
        };
        (Ok(ValueView::Nil), bind(env, name, definition))
    }
}

/// The outcome of making an instance: the name must be bound to the
/// definition of a struct.
pub open spec fn eval_instance(
    m: Arithmetic,
    name: Seq<char>,
    args: Seq<(ExprView, ExprView)>,
    env: Bindings,
    out: Seq<PieceView>,
    fuel: nat,
) -> Outcome
    decreases fuel, 2nat, 0nat,
{
    match lookup(env, name) {
        None => failed(ErrorView::StructNotFound { name }, env, out),
        Some(ValueView::DefStruct { fields, .. }) => fill(
            m,
            name,
            fields,
            args,
            0,
            Seq::empty(),
            env,
            out,
            fuel,
        ),
        Some(v) => failed(mismatch("struct"@, type_of(v)), env, out),
    }
}

/// What reading the field `attr` of the instance bound to `name` gives.
/// One error stands for a name that is not bound and for one bound to
/// something else.
pub open spec fn read_field(name: Seq<char>, attr: Seq<char>, env: Bindings) -> Result<
    ValueView,
    ErrorView,
> {
    match lookup(env, name) {
        Some(ValueView::CallStruct { fields, .. }) => match lookup(fields, attr) {
            Some(v) => Ok(v),
            None => Err(ErrorView::AttrNotFound { attr_name: attr }),
        },
        _ => Err(misplaced("struct"@, "unknown"@)),
    }
}

/// What giving the struct bound to `name_struct` the method `name_method`
/// gives, and the bindings after it. The method stands over a method of
/// that name that the struct had. The parameters must be bare identifiers.
/// It gives the value for no value.
pub open spec fn define_method(
    name_struct: Seq<char>,
    name_method: Seq<char>,
    args: Seq<ExprView>,
    body: ExprView,
    env: Bindings,
) -> (Result<ValueView, ErrorView>, Bindings) {
    match lookup(env, name_struct) {
        Some(ValueView::DefStruct { fields, function, .. }) => {
            if !all_idents(args) {
                (Err(misplaced("ident"@, "unknown"@)), env)
            } else {
                let method = ValueView::Function { name: name_method, args: names_of(args), body };
                let definition = ValueView::DefStruct {
                    name: name_struct,
                    fields,
                    function: bind(function, name_method, method),
                };
                (Ok(ValueView::Nil), bind(env, name_struct, definition))
            }
        },
        None => (Err(ErrorView::StructNotFound { name: name_struct }), env),
        Some(_) => (Err(misplaced("struct"@, "unknown"@)), env),
    }
}

/// The bindings in which a method of `instance` runs when it is called
/// with `values`: the instance as `self`, then each field that the struct
/// declares with the value at its place, as far as both reach, and nothing
/// else. The parameters that the method names play no part.
pub open spec fn method_bindings(
    instance: ValueView,
    fields: Seq<Seq<char>>,
    values: Seq<ValueView>,
) -> Bindings {
    bind_each(bind(Seq::empty(), self_name(), instance), fields, values, 0)
}

/// The outcome of calling the method `func` on the instance bound to
/// `name`. The instance names its struct, which must be bound to a
/// definition that has the method. Every argument is evaluated in the
/// caller's bindings as they are, and what it binds is dropped. The body
/// runs in bindings of its own, which are dropped after it.
pub open spec fn eval_method(
    m: Arithmetic,
    name: Seq<char>,
    func: Seq<char>,
    args: Seq<ExprView>,
    env: Bindings,
    out: Seq<PieceView>,
    fuel: nat,
) -> Outcome
    decreases fuel, 2nat, 0nat,
{
    match lookup(env, name) {
        Some(ValueView::CallStruct { name: of, fields: held }) => match lookup(env, of) {
            Some(ValueView::DefStruct { fields, function, .. }) => match lookup(function, func) {
                None => failed(ErrorView::FunctionNotFound { name: func }, env, out),
                Some(method) => {
                    let g = gather(
                        m,
                        Gather::Detached,
                        args,
                        args.len(),
                        0,
                        Seq::empty(),
                        env,
                        out,
                        fuel,
                    );
                    match g.error {
                        Some(e) => failed(e, g.env, g.out),
                        None => match method {
                            ValueView::Function { body, .. } => {
                                let instance = ValueView::CallStruct { name: of, fields: held };
                                let b = eval(
                                    m,
                                    body,
                                    method_bindings(instance, fields, g.values),
                                    g.out,
                                    fuel,
                                );
                                Outcome { result: b.result, env: g.env, out: b.out }
                            },
                            _ => failed(misplaced("function"@, "unknown"@), g.env, g.out),
                        },
                    }
                },
            },
            _ => failed(misplaced("struct"@, "unknown"@), env, out),
        },
        _ => failed(misplaced("struct"@, "unknown"@), env, out),
    }
}

/// The outcome of evaluating the expressions of `body` from the place `i`
/// on, one after the other: the value of the last one, or `last` where none
/// is left. The first error ends it.
pub open spec fn eval_block(
    m: Arithmetic,
    body: Seq<ExprView>,
    i: int,
    last: ValueView,
    env: Bindings,
    out: Seq<PieceView>,
    fuel: nat,
) -> Outcome
    decreases fuel, 1nat, body.len() - i,
{
    if i < 0 || i >= body.len() {
        done(last, env, out)
    } else {
        let o = eval(m, body[i], env, out, fuel);
        match o.result {
            Err(_) => o,
            Ok(v) => eval_block(m, body, i + 1, v, o.env, o.out, fuel),
        }
    }
}

/// The outcome of a `while` loop: its body is evaluated for as long as its
/// condition gives the truth value `true`. Any other value of the condition
/// ends the loop and is no error. Each round has one unit of fuel less than
/// the one before. The loop gives the value for no value.
pub open spec fn eval_while(
    m: Arithmetic,
    cond: ExprView,
    body: ExprView,
    env: Bindings,
    out: Seq<PieceView>,
    fuel: nat,
) -> Outcome
    decreases fuel, 2nat, 0nat,
{
    let c = eval(m, cond, env, out, fuel);
    match c.result {
        Err(_) => c,
        Ok(ValueView::Bool(true)) => {
            let b = eval(m, body, c.env, c.out, fuel);
            match b.result {
                Err(_) => b,
                Ok(_) => if fuel == 0 {
                    failed(ErrorView::OutOfFuel, b.env, b.out)
                } else {
                    eval_while(m, cond, body, b.env, b.out, (fuel - 1) as nat)
                },
            }
        },
        Ok(_) => done(ValueView::Nil, c.env, c.out),
    }
}

/// The outcome of a `for` loop over the items of a list, from the place `i`
/// on: each item in turn is bound to `name`, over what the name had, and
/// the body evaluated. The loop gives what the body gave last, or `last`
/// where no item is left.
pub open spec fn for_list(
    m: Arithmetic,
    name: Seq<char>,
    items: Seq<ValueView>,
    i: int,
    body: ExprView,
    last: ValueView,
    env: Bindings,
    out: Seq<PieceView>,
    fuel: nat,
) -> Outcome
    decreases fuel, 1nat, items.len() - i,
{
    if i < 0 || i >= items.len() {
        done(last, env, out)
    } else {
        let b = eval(m, body, bind(env, name, items[i]), out, fuel);
        match b.result {
            Err(_) => b,
            Ok(v) => for_list(m, name, items, i + 1, body, v, b.env, b.out, fuel),
        }
    }
}

/// The outcome of a `for` loop over the integers from `from` up to, and
/// without, `to`: the number nearest to each in turn is bound to `name`,
/// over what the name had, and the body evaluated. The loop gives what the
/// body gave last, or `last` where no integer is left.
pub open spec fn for_range(
    m: Arithmetic,
    name: Seq<char>,
    from: int,
    to: int,
    body: ExprView,
    last: ValueView,
    env: Bindings,
    out: Seq<PieceView>,
    fuel: nat,
) -> Outcome
    decreases fuel, 1nat, to - from,
{
    if from >= to {
        done(last, env, out)
    } else {
        let number = ValueView::Number(m(Operation::FromInteger(from as i64)));
        let b = eval(m, body, bind(env, name, number), out, fuel);
        match b.result {
            Err(_) => b,
            Ok(v) => for_range(m, name, from + 1, to, body, v, b.env, b.out, fuel),
        }
    }
}

/// What evaluating the first `n` expressions of `items`, from the place
/// `i` on, leaves after `acc`.
pub open spec fn gather(
    m: Arithmetic,
    how: Gather,
    items: Seq<ExprView>,
    n: nat,
    i: int,
    acc: Seq<ValueView>,
    env: Bindings,
    out: Seq<PieceView>,
    fuel: nat,
) -> Gathered
    decreases fuel, 1nat, n - i,
{
    if i < 0 || i >= n || i >= items.len() {
        Gathered { error: None, values: acc, env, out }
    } else {
        let o = eval(m, items[i], env, out, fuel);
        let next = if how is Detached {
            env
        } else {
            o.env
        };
        match o.result {
            Ok(v) => gather(m, how, items, n, i + 1, acc.push(v), next, o.out, fuel),
            Err(e) => if how is Lenient && !(e is OutOfFuel) {
                gather(m, how, items, n, i + 1, acc.push(ValueView::Nil), next, o.out, fuel)
            } else {
                Gathered { error: Some(e), values: acc, env: next, out: o.out }
            },
        }
    }
}

/// The outcome of making an instance of the struct `name`, which declares
/// `fields`, from the pairs of `args` from the place `i` on. The first of a
/// pair must be a bare identifier; the second is evaluated, and its value
/// kept under that name where the struct declares it and dropped where it
/// does not. `acc` holds what was kept so far.
pub open spec fn fill(
    m: Arithmetic,
    name: Seq<char>,
    fields: Seq<Seq<char>>,
    args: Seq<(ExprView, ExprView)>,
    i: int,
    acc: Bindings,
    env: Bindings,
    out: Seq<PieceView>,
    fuel: nat,
) -> Outcome
    decreases fuel, 1nat, args.len() - i,
{
    if i < 0 || i >= args.len() {
        done(ValueView::CallStruct { name, fields: acc }, env, out)
    } else {
        match args[i].0 {
            ExprView::Ident { ident } => {
                let v = eval(m, args[i].1, env, out, fuel);
                match v.result {
                    Err(_) => v,
                    Ok(x) => fill(
                        m,
                        name,
                        fields,
                        args,
                        i + 1,
                        if fields.contains(ident) {
                            bind(acc, ident, x)
                        } else {
                            acc
                        },
                        v.env,
                        v.out,
                        fuel,
                    ),
                }
            },
            _ => failed(misplaced("ident"@, "unknown"@), env, out),
        }
    }
}

/// The outcome of a `match` over the cases from the place `i` on. For each
/// case its pattern is evaluated and what it gives overlooked, then the
/// matched expression is evaluated and its value dropped, then the body of
/// the case is evaluated in empty bindings. No pattern is held against the
/// value: every case runs. The `match` gives what the last body gave, or
/// `last` where no case is left.
pub open spec fn eval_cases(
    m: Arithmetic,
    value: ExprView,
    cases: Seq<(ExprView, ExprView)>,
    i: int,
    last: ValueView,
    env: Bindings,
    out: Seq<PieceView>,
    fuel: nat,
) -> Outcome
    decreases fuel, 1nat, cases.len() - i,
{
    if i < 0 || i >= cases.len() {
        done(last, env, out)
    } else {
        let p = eval(m, cases[i].0, env, out, fuel);
        if p.result == Err::<ValueView, ErrorView>(ErrorView::OutOfFuel) {
            p
        } else {
            let s = eval(m, value, p.env, p.out, fuel);
            match s.result {
                Err(_) => s,
                Ok(_) => {
                    let b = eval(m, cases[i].1, Seq::empty(), s.out, fuel);
                    match b.result {
                        Err(e) => failed(e, s.env, b.out),
                        Ok(v) => eval_cases(m, value, cases, i + 1, v, s.env, b.out, fuel),
                    }
                },
            }
        }
    }
}

} // verus!
