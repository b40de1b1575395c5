//! The expression tree that an evaluation walks.

use vstd::prelude::*;

verus! {

/// A constant written in the program.
#[derive(Debug, PartialEq)]
pub enum Literal {
    /// A number, by the bits of its double.
    Number(u64),
    String(String),
    Bool(bool),
}

/// The mathematical form of a [`Literal`].
pub enum LiteralView {
    Number(u64),
    String(Seq<char>),
    Bool(bool),
}

impl View for Literal {
    type V = LiteralView;

    open spec fn view(&self) -> LiteralView {
        match self {
            Literal::Number(n) => LiteralView::Number(*n),
            Literal::String(s) => LiteralView::String(s@),
            Literal::Bool(b) => LiteralView::Bool(*b),
        }
    }
}

impl Clone for Literal {
    fn clone(&self) -> (r: Literal)
        ensures
            r@ == self@,
    {
        match self {
            Literal::Number(n) => Literal::Number(*n),
            Literal::String(s) => Literal::String(s.clone()),
            Literal::Bool(b) => Literal::Bool(*b),
        }
    }
}

/// A binary operator.
#[derive(Debug, PartialEq, Eq, Clone, Copy)]
pub enum Op {
    Add,
    Sub,
    Mul,
    Div,
    Mod,
    Eq,
    Neq,
    Gt,
    Lt,
    Ge,
    Le,
    And,
    Or,
}

/// An operator that updates a variable in place.
#[derive(Debug, PartialEq, Eq, Clone, Copy)]
pub enum IOp {
    IAdd,
    ISub,
    IMul,
    IDiv,
}

/// A node of the expression tree.
#[derive(Debug, PartialEq)]
#[allow(inconsistent_fields)]
pub enum Expr {
    Empty,
    Block { body: Vec<Expr> },
    Literal { value: Literal },
    Ident { ident: String },
    BinOp { op: Op, left: Box<Expr>, right: Box<Expr> },
    IfThen { cond: Box<Expr>, then_: Box<Expr> },
    IfThenElse { cond: Box<Expr>, then_: Box<Expr>, else_: Box<Expr> },
    Assign { name: String, value: Box<Expr> },
    SetVar { name: String, value: Box<Expr> },
    IOp { op: IOp, name: String, value: Box<Expr> },
    While { cond: Box<Expr>, body: Box<Expr> },
    For { name: Box<Expr>, iter: Box<Expr>, body: Box<Expr> },
    FunDef { name: String, args: Vec<Expr>, body: Box<Expr> },
    Call { name: String, args: Vec<Expr> },
    List { elems: Vec<Expr> },
    Index { name: Box<Expr>, index: Box<Expr> },
    Range { start: Box<Expr>, end: Box<Expr> },
    StructDef { name: String, fields: Vec<Expr> },
    CallStruct { name: String, args: Vec<(Expr, Expr)> },
    GetAttr { name: String, attr: String },
    Impl { name_struct: String, name_method: String, args: Vec<Expr>, body: Box<Expr> },
    GetFunc { name: String, func: String, args: Vec<Expr> },
    Match { value: Box<Expr>, cases: Vec<(Expr, Expr)> },
}

/// The mathematical form of an [`Expr`].
#[allow(inconsistent_fields)]
pub enum ExprView {
    Empty,
    Block { body: Seq<ExprView> },
    Literal { value: LiteralView },
    Ident { ident: Seq<char> },
    BinOp { op: Op, left: Box<ExprView>, right: Box<ExprView> },
    IfThen { cond: Box<ExprView>, then_: Box<ExprView> },
    IfThenElse { cond: Box<ExprView>, then_: Box<ExprView>, else_: Box<ExprView> },
    Assign { name: Seq<char>, value: Box<ExprView> },
    SetVar { name: Seq<char>, value: Box<ExprView> },
    IOp { op: IOp, name: Seq<char>, value: Box<ExprView> },
    While { cond: Box<ExprView>, body: Box<ExprView> },
    For { name: Box<ExprView>, iter: Box<ExprView>, body: Box<ExprView> },
    FunDef { name: Seq<char>, args: Seq<ExprView>, body: Box<ExprView> },
    Call { name: Seq<char>, args: Seq<ExprView> },
    List { elems: Seq<ExprView> },
    Index { name: Box<ExprView>, index: Box<ExprView> },
    Range { start: Box<ExprView>, end: Box<ExprView> },
    StructDef { name: Seq<char>, fields: Seq<ExprView> },
    CallStruct { name: Seq<char>, args: Seq<(ExprView, ExprView)> },
    GetAttr { name: Seq<char>, attr: Seq<char> },
    Impl {
        name_struct: Seq<char>,
        name_method: Seq<char>,
        args: Seq<ExprView>,
        body: Box<ExprView>,
    },
    GetFunc { name: Seq<char>, func: Seq<char>, args: Seq<ExprView> },
    Match { value: Box<ExprView>, cases: Seq<(ExprView, ExprView)> },
}

impl View for Expr {
    type V = ExprView;

    open spec fn view(&self) -> ExprView
        decreases self,
    {
        match self {
            Expr::Empty => ExprView::Empty,
            Expr::Block { body } => ExprView::Block { body: exprs_view(body@) },
            Expr::Literal { value } => ExprView::Literal { value: value@ },
            Expr::Ident { ident } => ExprView::Ident { ident: ident@ },
            Expr::BinOp { op, left, right } => ExprView::BinOp {
                op: *op,
                left: Box::new((**left).view()),
                right: Box::new((**right).view()),
            },
            Expr::IfThen { cond, then_ } => ExprView::IfThen {
                cond: Box::new((**cond).view()),
                then_: Box::new((**then_).view()),
            },
            Expr::IfThenElse { cond, then_, else_ } => ExprView::IfThenElse {
                cond: Box::new((**cond).view()),
                then_: Box::new((**then_).view()),
                else_: Box::new((**else_).view()),
            },
            Expr::Assign { name, value } => ExprView::Assign {
                name: name@,
                value: Box::new((**value).view()),
            },
            Expr::SetVar { name, value } => ExprView::SetVar {
                name: name@,
                value: Box::new((**value).view()),
            },
            Expr::IOp { op, name, value } => ExprView::IOp {
                op: *op,
                name: name@,
                value: Box::new((**value).view()),
            },
            Expr::While { cond, body } => ExprView::While {
                cond: Box::new((**cond).view()),
                body: Box::new((**body).view()),
            },
            Expr::For { name, iter, body } => ExprView::For {
                name: Box::new((**name).view()),
                iter: Box::new((**iter).view()),
                body: Box::new((**body).view()),
            },
            Expr::FunDef { name, args, body } => ExprView::FunDef {
                name: name@,
                args: exprs_view(args@),
                body: Box::new((**body).view()),
            },
            Expr::Call { name, args } => ExprView::Call { name: name@, args: exprs_view(args@) },
            Expr::List { elems } => ExprView::List { elems: exprs_view(elems@) },
            Expr::Index { name, index } => ExprView::Index {
                name: Box::new((**name).view()),
                index: Box::new((**index).view()),
            },
            Expr::Range { start, end } => ExprView::Range {
                start: Box::new((**start).view()),
                end: Box::new((**end).view()),
            },
            Expr::StructDef { name, fields } => ExprView::StructDef {
                name: name@,
                fields: exprs_view(fields@),
            },
            Expr::CallStruct { name, args } => ExprView::CallStruct {
                name: name@,
                args: pairs_view(args@),
            },
            Expr::GetAttr { name, attr } => ExprView::GetAttr { name: name@, attr: attr@ },
            Expr::Impl { name_struct, name_method, args, body } => ExprView::Impl {
                name_struct: name_struct@,
                name_method: name_method@,
                args: exprs_view(args@),
                body: Box::new((**body).view()),
            },
            Expr::GetFunc { name, func, args } => ExprView::GetFunc {
                name: name@,
                func: func@,
                args: exprs_view(args@),
            },
            Expr::Match { value, cases } => ExprView::Match {
                value: Box::new((**value).view()),
                cases: pairs_view(cases@),
            },
        }
    }
}

/// The forms of the expressions of `s`, in order.
pub open spec fn exprs_view(s: Seq<Expr>) -> Seq<ExprView>
    decreases s,
{
    if s.len() == 0 {
        Seq::empty()
    } else {
        exprs_view(s.drop_last()).push(s.last().view())
    }
}

/// The forms of the pairs of expressions of `s`, in order.
pub open spec fn pairs_view(s: Seq<(Expr, Expr)>) -> Seq<(ExprView, ExprView)>
    decreases s,
{
    if s.len() == 0 {
        Seq::empty()
    } else {
        pairs_view(s.drop_last()).push((s.last().0.view(), s.last().1.view()))
    }
}

/// `exprs_view` keeps the length and views item by item.
pub proof fn lemma_exprs_view(s: Seq<Expr>)
    ensures
        exprs_view(s).len() == s.len(),
        forall|i: int| 0 <= i < s.len() ==> #[trigger] exprs_view(s)[i] == s[i]@,
    decreases s.len(),
{
    if s.len() > 0 {
        lemma_exprs_view(s.drop_last());
        assert(exprs_view(s) == exprs_view(s.drop_last()).push(s.last().view()));
    } else {
        assert(exprs_view(s) == Seq::<ExprView>::empty());
    }
}

/// `pairs_view` keeps the length and views pair by pair.
pub proof fn lemma_pairs_view(s: Seq<(Expr, Expr)>)
    ensures
        pairs_view(s).len() == s.len(),
        forall|i: int| 0 <= i < s.len() ==> #[trigger] pairs_view(s)[i] == (s[i].0@, s[i].1@),
    decreases s.len(),
{
    if s.len() > 0 {
        lemma_pairs_view(s.drop_last());
        assert(pairs_view(s) == pairs_view(s.drop_last()).push(
            (s.last().0.view(), s.last().1.view()),
        ));
    } else {
        assert(pairs_view(s) == Seq::<(ExprView, ExprView)>::empty());
    }
}

/// A copy of `v`, item by item.
pub fn clone_exprs(v: &Vec<Expr>) -> (r: Vec<Expr>)
    ensures
        exprs_view(r@) == exprs_view(v@),
    decreases v,
{
    let mut out: Vec<Expr> = Vec::new();
    let mut i: usize = 0;
    while i < v.len()
        invariant
            i <= v.len(),
            out@.len() == i,
            forall|j: int| 0 <= j < i ==> out@[j]@ == v@[j]@,
        decreases v.len() - i,
    {
        proof {
            broadcast use vstd::std_specs::vec::axiom_vec_index_decreases;
        }
        out.push(v[i].clone());
        i += 1;
    }
    proof {
        lemma_exprs_view(out@);
        lemma_exprs_view(v@);
        assert(exprs_view(out@) =~= exprs_view(v@));
    }
    out
}

/// A copy of `v`, pair by pair.
pub fn clone_pairs(v: &Vec<(Expr, Expr)>) -> (r: Vec<(Expr, Expr)>)
    ensures
        pairs_view(r@) == pairs_view(v@),
    decreases v,
{
    let mut out: Vec<(Expr, Expr)> = Vec::new();
    let mut i: usize = 0;
    while i < v.len()
        invariant
            i <= v.len(),
            out@.len() == i,
            forall|j: int| 0 <= j < i ==> out@[j].0@ == v@[j].0@ && out@[j].1@ == v@[j].1@,
        decreases v.len() - i,
    {
        proof {
            broadcast use vstd::std_specs::vec::axiom_vec_index_decreases;
        }
        let first = v[i].0.clone();
        let second = v[i].1.clone();
        out.push((first, second));
        i += 1;
    }
    proof {
        lemma_pairs_view(out@);
        lemma_pairs_view(v@);
        assert(pairs_view(out@) =~= pairs_view(v@));
    }
    out
}

impl Clone for Expr {
    fn clone(&self) -> (r: Expr)
        ensures
            r@ == self@,
        decreases self,
    {
        let r = match self {
            Expr::Empty => Expr::Empty,
            Expr::Block { body } => Expr::Block { body: clone_exprs(body) },
            Expr::Literal { value } => Expr::Literal { value: value.clone() },
            Expr::Ident { ident } => Expr::Ident { ident: ident.clone() },
            Expr::BinOp { op, left, right } => Expr::BinOp {
                op: *op,
                left: Box::new((**left).clone()),
                right: Box::new((**right).clone()),
            },
            Expr::IfThen { cond, then_ } => Expr::IfThen {
                cond: Box::new((**cond).clone()),
                then_: Box::new((**then_).clone()),
            },
            Expr::IfThenElse { cond, then_, else_ } => Expr::IfThenElse {
                cond: Box::new((**cond).clone()),
                then_: Box::new((**then_).clone()),
                else_: Box::new((**else_).clone()),
            },
            Expr::Assign { name, value } => Expr::Assign {
                name: name.clone(),
                value: Box::new((**value).clone()),
            },
            Expr::SetVar { name, value } => Expr::SetVar {
                name: name.clone(),
                value: Box::new((**value).clone()),
            },
            Expr::IOp { op, name, value } => Expr::IOp {
                op: *op,
                name: name.clone(),
                value: Box::new((**value).clone()),
            },
            Expr::While { cond, body } => Expr::While {
                cond: Box::new((**cond).clone()),
                body: Box::new((**body).clone()),
            },
            Expr::For { name, iter, body } => Expr::For {
                name: Box::new((**name).clone()),
                iter: Box::new((**iter).clone()),
                body: Box::new((**body).clone()),
            },
            Expr::FunDef { name, args, body } => Expr::FunDef {
                name: name.clone(),
                args: clone_exprs(args),
                body: Box::new((**body).clone()),
            },
            Expr::Call { name, args } => Expr::Call { name: name.clone(), args: clone_exprs(args) },
            Expr::List { elems } => Expr::List { elems: clone_exprs(elems) },
            Expr::Index { name, index } => Expr::Index {
                name: Box::new((**name).clone()),
                index: Box::new((**index).clone()),
            },
            Expr::Range { start, end } => Expr::Range {
                start: Box::new((**start).clone()),
                end: Box::new((**end).clone()),
            },
            Expr::StructDef { name, fields } => Expr::StructDef {
                name: name.clone(),
                fields: clone_exprs(fields),
            },
            Expr::CallStruct { name, args } => Expr::CallStruct {
                name: name.clone(),
                args: clone_pairs(args),
            },
            Expr::GetAttr { name, attr } => Expr::GetAttr {
                name: name.clone(),
                attr: attr.clone(),
            },
            Expr::Impl { name_struct, name_method, args, body } => Expr::Impl {
                name_struct: name_struct.clone(),
                name_method: name_method.clone(),
                args: clone_exprs(args),
                body: Box::new((**body).clone()),
            },
            Expr::GetFunc { name, func, args } => Expr::GetFunc {
                name: name.clone(),
                func: func.clone(),
                args: clone_exprs(args),
            },
            Expr::Match { value, cases } => Expr::Match {
                value: Box::new((**value).clone()),
                cases: clone_pairs(cases),
            },
        };
        r
    }
}

} // verus!
