//! The machine that holds the bindings and the written text between
//! evaluations.

use crate::error::{outcome_view, Error};
use crate::eval::{apply_update, evaluate, run_builtin};
use crate::expr::{Expr, IOp};
use crate::number::{answers, is_function, Operation};
use crate::semantics::{eval, update, write_each};
use crate::table::{bind, bound, contains_key, get, lookup, put, Bindings};
use crate::text::{chars, PieceView, Text};
use crate::value::{
    all_renderable, clone_entries, entries_view, lemma_all_renderable, lemma_entries_view_empty,
    renderable, values_view, Ident, Value, ValueView,
};
use vstd::prelude::*;

verus! {

/// A machine: the variables that are bound, and the text that the builtins
/// have written and nobody has taken yet. The two builtins, `print` and
/// `println`, are no variables: nothing can be bound over them.
#[derive(Debug)]
pub struct Vm {
    vars: Vec<(Ident, Value)>,
    output: Text,
}

/// The mathematical form of a [`Vm`].
pub struct VmView {
    /// The variables with their values.
    pub env: Bindings,
    /// The text written and not yet taken.
    pub out: Seq<PieceView>,
}

impl View for Vm {
    type V = VmView;

    closed spec fn view(&self) -> VmView {
        VmView { env: entries_view(self.vars@), out: self.output@ }
    }
}

impl Clone for Vm {
    fn clone(&self) -> (r: Vm)
        ensures
            r@ == self@,
    {
        Vm { vars: clone_entries(&self.vars), output: self.output.clone() }
    }
}

/// Where every one of `values` has a rendering, writing them fails at no
/// place.
pub proof fn lemma_write_each_renderable(values: Seq<ValueView>, i: int, out: Seq<PieceView>)
    requires
        all_renderable(values),
    ensures
        write_each(values, i, out).0 is None,
    decreases values.len() - i,
{
    if 0 <= i < values.len() {
        if !renderable(values[i]) {
            lemma_all_renderable(values, i);
        }
        lemma_write_each_renderable(values, i + 1, out + crate::value::display(values[i]));
    }
}

impl Vm {
    /// A machine with no variable bound and nothing written.
    pub fn new() -> (r: Vm)
        ensures
            r@.env == Seq::<(Seq<char>, ValueView)>::empty(),
            r@.out == Seq::<PieceView>::empty(),
    {
        let vars: Vec<(Ident, Value)> = Vec::new();
        proof {
            lemma_entries_view_empty(vars@);
        }
        Vm { vars, output: Text::new() }
    }

    /// Evaluates `expr` with `fuel` units of fuel. Arithmetic is done by
    /// `host`. What the expression binds stays bound in the machine, also
    /// where the evaluation fails; what it prints is added to the written
    /// text.
    pub fn eval_expr<F: Fn(Operation) -> u64>(&mut self, expr: Expr, fuel: u64, host: &F) -> (r:
        Result<Value, Error>)
        requires
            is_function(host),
        ensures
            ({
                let o = eval(answers(host), expr@, old(self)@.env, old(self)@.out, fuel as nat);
                &&& outcome_view(r) == o.result
                &&& final(self)@.env == o.env
                &&& final(self)@.out == o.out
            }),
    {
        evaluate(&expr, &mut self.vars, &mut self.output, fuel, host)
    }

    /// Binds `ident` to `value`, over what it was bound to.
    pub fn set_ident(&mut self, ident: Ident, value: Value)
        ensures
            final(self)@.env == bind(old(self)@.env, ident@, value@),
            final(self)@.out == old(self)@.out,
    {
        put(&mut self.vars, ident, value);
    }

    /// What `ident` is bound to, if to anything.
    pub fn get_ident(&self, ident: Ident) -> (r: Option<&Value>)
        ensures
            match r {
                Some(v) => lookup(self@.env, ident@) == Some(v@),
                None => lookup(self@.env, ident@) is None,
            },
    {
        get(&self.vars, &ident.0)
    }

    /// Whether `ident` is bound.
    pub fn is_bound(&self, ident: Ident) -> (r: bool)
        ensures
            r == bound(self@.env, ident@),
    {
        contains_key(&self.vars, &ident.0)
    }

    /// Adds the number `b` to the number that the variable `a` holds.
    pub fn iadd<F: Fn(Operation) -> u64>(&mut self, a: String, b: Value, host: &F) -> (r: Result<
        Value,
        Error,
    >)
        requires
            is_function(host),
        ensures
            (outcome_view(r), final(self)@.env) == update(
                answers(host),
                IOp::IAdd,
                old(self)@.env,
                a@,
                b@,
            ),
            final(self)@.out == old(self)@.out,
    {
        apply_update(IOp::IAdd, &mut self.vars, &a, &b, host)
    }

    /// Takes the number `b` from the number that the variable `a` holds.
    pub fn isub<F: Fn(Operation) -> u64>(&mut self, a: String, b: Value, host: &F) -> (r: Result<
        Value,
        Error,
    >)
        requires
            is_function(host),
        ensures
            (outcome_view(r), final(self)@.env) == update(
                answers(host),
                IOp::ISub,
                old(self)@.env,
                a@,
                b@,
            ),
            final(self)@.out == old(self)@.out,
    {
        apply_update(IOp::ISub, &mut self.vars, &a, &b, host)
    }

    /// Multiplies the number that the variable `a` holds by the number `b`.
    pub fn imul<F: Fn(Operation) -> u64>(&mut self, a: String, b: Value, host: &F) -> (r: Result<
        Value,
        Error,
    >)
        requires
            is_function(host),
        ensures
            (outcome_view(r), final(self)@.env) == update(
                answers(host),
                IOp::IMul,
                old(self)@.env,
                a@,
                b@,
            ),
            final(self)@.out == old(self)@.out,
    {
        apply_update(IOp::IMul, &mut self.vars, &a, &b, host)
    }

    /// Divides the number that the variable `a` holds by the number `b`.
    pub fn idiv<F: Fn(Operation) -> u64>(&mut self, a: String, b: Value, host: &F) -> (r: Result<
        Value,
        Error,
    >)
        requires
            is_function(host),
        ensures
            (outcome_view(r), final(self)@.env) == update(
                answers(host),
                IOp::IDiv,
                old(self)@.env,
                a@,
                b@,
            ),
            final(self)@.out == old(self)@.out,
    {
        apply_update(IOp::IDiv, &mut self.vars, &a, &b, host)
    }

    /// Writes the renderings of `args` one after the other, with nothing
    /// between them and nothing after them. Each of them must have a
    /// rendering.
    pub fn print(&mut self, args: Vec<Value>) -> (r: Value)
        requires
            all_renderable(values_view(args@)),
        ensures
            r@ is Nil,
            final(self)@.env == old(self)@.env,
            final(self)@.out == write_each(values_view(args@), 0, old(self)@.out).1,
    {
        proof {
            lemma_write_each_renderable(values_view(args@), 0, self@.out);
        }
        let name = "print".to_owned();
        proof {
            reveal_strlit("print");
            reveal_strlit("println");
            assert(name@ != "println"@) by {
                assert(name@.len() == 5);
                assert("println"@.len() == 7);
            }
        }
        match run_builtin(&name, &args, &mut self.output) {
            Ok(v) => v,
            Err(_) => vstd::pervasive::unreached(),
        }
    }

    /// Writes the renderings of `args` one after the other, with nothing
    /// between them, and ends the line. Each of them must have a rendering.
    pub fn println(&mut self, args: Vec<Value>) -> (r: Value)
        requires
            all_renderable(values_view(args@)),
        ensures
            r@ is Nil,
            final(self)@.env == old(self)@.env,
            final(self)@.out == write_each(values_view(args@), 0, old(self)@.out).1 + chars(
                "\n"@,
            ),
    {
        proof {
            lemma_write_each_renderable(values_view(args@), 0, self@.out);
        }
        let name = "println".to_owned();
        match run_builtin(&name, &args, &mut self.output) {
            Ok(v) => v,
            Err(_) => vstd::pervasive::unreached(),
        }
    }

    /// The text written and not yet taken.
    pub fn output(&self) -> (r: &Text)
        ensures
            r@ == self@.out,
    {
        &self.output
    }

    /// Takes the written text out of the machine, which then holds none.
    pub fn take_output(&mut self) -> (r: Text)
        ensures
            r@ == old(self)@.out,
            final(self)@.out == Seq::<PieceView>::empty(),
            final(self)@.env == old(self)@.env,
    {
        let mut taken = Text::new();
        std::mem::swap(&mut taken, &mut self.output);
        taken
    }
}

} // verus!
