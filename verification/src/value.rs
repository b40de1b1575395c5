//! Runtime values, the descriptors of their types, and how a value is
//! rendered as text.

use crate::expr::{Expr, ExprView};
use crate::text::{chars, PieceView, Text};
use vstd::prelude::*;

verus! {

/// The name of a binding. Two identifiers are the same when their
/// characters are.
#[derive(Debug, PartialEq, Eq, Hash)]
pub struct Ident(pub String);

impl View for Ident {
    type V = Seq<char>;

    open spec fn view(&self) -> Seq<char> {
        self.0@
    }
}

impl Clone for Ident {
    fn clone(&self) -> (r: Ident)
        ensures
            r@ == self@,
    {
        Ident(self.0.clone())
    }
}

/// The names of the identifiers of `s`, in order.
pub open spec fn idents_view(s: Seq<Ident>) -> Seq<Seq<char>> {
    s.map_values(|i: Ident| i@)
}

/// The characters of the strings of `s`, in order.
pub open spec fn strings_view(s: Seq<String>) -> Seq<Seq<char>> {
    s.map_values(|t: String| t@)
}

/// A copy of `v`, name by name.
pub fn clone_idents(v: &Vec<Ident>) -> (r: Vec<Ident>)
    ensures
        idents_view(r@) == idents_view(v@),
{
    let mut out: Vec<Ident> = Vec::new();
    let mut i: usize = 0;
    while i < v.len()
        invariant
            i <= v.len(),
            out@.len() == i,
            forall|j: int| 0 <= j < i ==> out@[j]@ == v@[j]@,
        decreases v.len() - i,
    {
        out.push(v[i].clone());
        i += 1;
    }
    assert(idents_view(out@) =~= idents_view(v@));
    out
}

/// A copy of `v`, string by string.
pub fn clone_strings(v: &Vec<String>) -> (r: Vec<String>)
    ensures
        strings_view(r@) == strings_view(v@),
{
    let mut out: Vec<String> = Vec::new();
    let mut i: usize = 0;
    while i < v.len()
        invariant
            i <= v.len(),
            out@.len() == i,
            forall|j: int| 0 <= j < i ==> out@[j]@ == v@[j]@,
        decreases v.len() - i,
    {
        out.push(v[i].clone());
        i += 1;
    }
    assert(strings_view(out@) =~= strings_view(v@));
    out
}

/// What kind of value something is. It serves messages only: nothing is
/// checked against it ahead of an evaluation.
#[derive(Debug, PartialEq, Eq, Hash)]
pub enum Type {
    Int,
    String,
    Bool,
    List,
    Func,
    Range,
    Enum,
    /// A variant picked from the enum of this name.
    FieldEnum(String),
    /// The definition of the struct of this name.
    Struct(String),
    /// An instance of the struct of this name.
    FieldStruct(String),
    /// The type of the value that stands for no value.
    Nil,
}

/// The mathematical form of a [`Type`].
pub enum TypeView {
    Int,
    String,
    Bool,
    List,
    Func,
    Range,
    Enum,
    FieldEnum(Seq<char>),
    Struct(Seq<char>),
    FieldStruct(Seq<char>),
    Nil,
}

impl View for Type {
    type V = TypeView;

    open spec fn view(&self) -> TypeView {
        match self {
            Type::Int => TypeView::Int,
            Type::String => TypeView::String,
            Type::Bool => TypeView::Bool,
            Type::List => TypeView::List,
            Type::Func => TypeView::Func,
            Type::Range => TypeView::Range,
            Type::Enum => TypeView::Enum,
            Type::FieldEnum(name) => TypeView::FieldEnum(name@),
            Type::Struct(name) => TypeView::Struct(name@),
            Type::FieldStruct(name) => TypeView::FieldStruct(name@),
            Type::Nil => TypeView::Nil,
        }
    }
}

impl Clone for Type {
    fn clone(&self) -> (r: Type)
        ensures
            r@ == self@,
    {
        match self {
            Type::Int => Type::Int,
            Type::String => Type::String,
            Type::Bool => Type::Bool,
            Type::List => Type::List,
            Type::Func => Type::Func,
            Type::Range => Type::Range,
            Type::Enum => Type::Enum,
            Type::FieldEnum(name) => Type::FieldEnum(name.clone()),
            Type::Struct(name) => Type::Struct(name.clone()),
            Type::FieldStruct(name) => Type::FieldStruct(name.clone()),
            Type::Nil => Type::Nil,
        }
    }
}

/// A runtime value.
#[derive(Debug, PartialEq)]
#[allow(inconsistent_fields)]
pub enum Value {
    /// A number, by the bits of its double.
    Number(u64),
    String(String),
    Bool(bool),
    /// A function: its own name, the names of its parameters in order, and
    /// its body.
    Function { name: String, args: Vec<Ident>, body: Expr },
    /// The definition of a struct: its name, the fields it declares in
    /// order, and its methods by name. Of two methods with one name the
    /// first counts.
    DefStruct { name: String, fields: Vec<Ident>, function: Vec<(Ident, Value)> },
    /// An instance of a struct: the name of its definition, and its fields
    /// by name. Of two fields with one name the first counts.
    CallStruct { name: String, fields: Vec<(Ident, Value)> },
    List(Vec<Value>),
    /// The integers from the start of the range up to, and without, its end.
    Range(std::ops::Range<i64>),
    Enum { variants: Vec<String> },
    EnumCall { name: String, field: String },
    /// The value that stands for no value.
    Nil,
}

/// The mathematical form of a [`Value`].
#[allow(inconsistent_fields)]
pub enum ValueView {
    Number(u64),
    String(Seq<char>),
    Bool(bool),
    Function { name: Seq<char>, args: Seq<Seq<char>>, body: ExprView },
    DefStruct { name: Seq<char>, fields: Seq<Seq<char>>, function: Seq<(Seq<char>, ValueView)> },
    CallStruct { name: Seq<char>, fields: Seq<(Seq<char>, ValueView)> },
    List(Seq<ValueView>),
    Range { start: int, end: int },
    Enum { variants: Seq<Seq<char>> },
    EnumCall { name: Seq<char>, field: Seq<char> },
    Nil,
}

impl View for Value {
    type V = ValueView;

    open spec fn view(&self) -> ValueView
        decreases self,
    {
        match self {
            Value::Number(n) => ValueView::Number(*n),
            Value::String(s) => ValueView::String(s@),
            Value::Bool(b) => ValueView::Bool(*b),
            Value::Function { name, args, body } => ValueView::Function {
                name: name@,
                args: idents_view(args@),
                body: body@,
            },
            Value::DefStruct { name, fields, function } => ValueView::DefStruct {
                name: name@,
                fields: idents_view(fields@),
                function: entries_view(function@),
            },
            Value::CallStruct { name, fields } => ValueView::CallStruct {
                name: name@,
                fields: entries_view(fields@),
            },
            Value::List(items) => ValueView::List(values_view(items@)),
            Value::Range(r) => ValueView::Range { start: r.start as int, end: r.end as int },
            Value::Enum { variants } => ValueView::Enum { variants: strings_view(variants@) },
            Value::EnumCall { name, field } => ValueView::EnumCall { name: name@, field: field@ },
            Value::Nil => ValueView::Nil,
        }
    }
}

/// The forms of the values of `s`, in order.
pub open spec fn values_view(s: Seq<Value>) -> Seq<ValueView>
    decreases s,
{
    if s.len() == 0 {
        Seq::empty()
    } else {
        values_view(s.drop_last()).push(s.last().view())
    }
}

/// The forms of the named values of `s`, in order.
pub open spec fn entries_view(s: Seq<(Ident, Value)>) -> Seq<(Seq<char>, ValueView)>
    decreases s,
{
    if s.len() == 0 {
        Seq::empty()
    } else {
        entries_view(s.drop_last()).push((s.last().0@, s.last().1.view()))
    }
}

/// `values_view` keeps the length and views item by item.
pub proof fn lemma_values_view(s: Seq<Value>)
    ensures
        values_view(s).len() == s.len(),
        forall|i: int| 0 <= i < s.len() ==> #[trigger] values_view(s)[i] == s[i]@,
    decreases s.len(),
{
    if s.len() > 0 {
        lemma_values_view(s.drop_last());
        assert(values_view(s) == values_view(s.drop_last()).push(s.last().view()));
    } else {
        assert(values_view(s) == Seq::<ValueView>::empty());
    }
}

/// `entries_view` keeps the length and views entry by entry.
pub proof fn lemma_entries_view(s: Seq<(Ident, Value)>)
    ensures
        entries_view(s).len() == s.len(),
        forall|i: int| 0 <= i < s.len() ==> #[trigger] entries_view(s)[i] == (s[i].0@, s[i].1@),
    decreases s.len(),
{
    if s.len() > 0 {
        lemma_entries_view(s.drop_last());
        assert(entries_view(s) == entries_view(s.drop_last()).push(
            (s.last().0@, s.last().1.view()),
        ));
    } else {
        assert(entries_view(s) == Seq::<(Seq<char>, ValueView)>::empty());
    }
}

/// The view of a row of values with one more value at its end.
pub proof fn lemma_values_view_push(s: Seq<Value>, v: Value)
    ensures
        values_view(s.push(v)) == values_view(s).push(v@),
{
    assert(s.push(v).drop_last() =~= s);
    assert(values_view(s.push(v)) == values_view(s.push(v).drop_last()).push(
        s.push(v).last().view(),
    ));
}

/// The view of a table without entries.
pub proof fn lemma_entries_view_empty(s: Seq<(Ident, Value)>)
    requires
        s.len() == 0,
    ensures
        entries_view(s) == Seq::<(Seq<char>, ValueView)>::empty(),
{
    assert(entries_view(s) == Seq::<(Seq<char>, ValueView)>::empty());
}

/// The view of a row without values.
pub proof fn lemma_values_view_empty(s: Seq<Value>)
    requires
        s.len() == 0,
    ensures
        values_view(s) == Seq::<ValueView>::empty(),
{
    assert(values_view(s) == Seq::<ValueView>::empty());
}

/// A copy of `v`, value by value.
pub fn clone_values(v: &Vec<Value>) -> (r: Vec<Value>)
    ensures
        values_view(r@) == values_view(v@),
    decreases v,
{
    let mut out: Vec<Value> = Vec::new();
    let mut i: usize = 0;
    while i < v.len()
        invariant
            i <= v.len(),
            out@.len() == i,
            forall|j: int| 0 <= j < i ==> out@[j]@ == v@[j]@,
        decreases v.len() - i,
    {
        proof {
            broadcast use vstd::std_specs::vec::axiom_vec_index_decreases;
        }
        out.push(v[i].clone());
        i += 1;
    }
    proof {
        lemma_values_view(out@);
        lemma_values_view(v@);
        assert(values_view(out@) =~= values_view(v@));
    }
    out
}

/// A copy of `v`, entry by entry.
pub fn clone_entries(v: &Vec<(Ident, Value)>) -> (r: Vec<(Ident, Value)>)
    ensures
        entries_view(r@) == entries_view(v@),
    decreases v,
{
    let mut out: Vec<(Ident, Value)> = Vec::new();
    let mut i: usize = 0;
    while i < v.len()
        invariant
            i <= v.len(),
            out@.len() == i,
            forall|j: int| 0 <= j < i ==> out@[j].0@ == v@[j].0@ && out@[j].1@ == v@[j].1@,
        decreases v.len() - i,
    {
        proof {
            broadcast use vstd::std_specs::vec::axiom_vec_index_decreases;
        }
        let key = v[i].0.clone();
        let value = v[i].1.clone();
        out.push((key, value));
        i += 1;
    }
    proof {
        lemma_entries_view(out@);
        lemma_entries_view(v@);
        assert(entries_view(out@) =~= entries_view(v@));
    }
    out
}

impl Clone for Value {
    fn clone(&self) -> (r: Value)
        ensures
            r@ == self@,
        decreases self,
    {
        match self {
            Value::Number(n) => Value::Number(*n),
            Value::String(s) => Value::String(s.clone()),
            Value::Bool(b) => Value::Bool(*b),
            Value::Function { name, args, body } => Value::Function {
                name: name.clone(),
                args: clone_idents(args),
                body: body.clone(),
            },
            Value::DefStruct { name, fields, function } => Value::DefStruct {
                name: name.clone(),
                fields: clone_idents(fields),
                function: clone_entries(function),
            },
            Value::CallStruct { name, fields } => Value::CallStruct {
                name: name.clone(),
                fields: clone_entries(fields),
            },
            Value::List(items) => Value::List(clone_values(items)),
            Value::Range(r) => Value::Range(r.start..r.end),
            Value::Enum { variants } => Value::Enum { variants: clone_strings(variants) },
            Value::EnumCall { name, field } => Value::EnumCall {
                name: name.clone(),
                field: field.clone(),
            },
            Value::Nil => Value::Nil,
        }
    }
}

/// The descriptor of the type of `v`.
pub open spec fn type_of(v: ValueView) -> TypeView {
    match v {
        ValueView::Number(_) => TypeView::Int,
        ValueView::String(_) => TypeView::String,
        ValueView::Bool(_) => TypeView::Bool,
        ValueView::Function { .. } => TypeView::Func,
        ValueView::List(_) => TypeView::List,
        ValueView::Range { .. } => TypeView::Range,
        ValueView::CallStruct { name, .. } => TypeView::FieldStruct(name),
        ValueView::DefStruct { name, .. } => TypeView::Struct(name),
        ValueView::Nil => TypeView::Nil,
        ValueView::Enum { .. } => TypeView::Enum,
        ValueView::EnumCall { name, .. } => TypeView::FieldEnum(name),
    }
}

/// Whether `v` has a rendering: the definitions and instances of structs
/// and enums have none, nor has a list that holds one.
pub open spec fn renderable(v: ValueView) -> bool
    decreases v,
{
    match v {
        ValueView::Number(_) => true,
        ValueView::String(_) => true,
        ValueView::Bool(_) => true,
        ValueView::Function { .. } => true,
        ValueView::List(items) => all_renderable(items),
        ValueView::Range { .. } => true,
        ValueView::Nil => true,
        _ => false,
    }
}

/// Whether every value of `items` has a rendering.
pub open spec fn all_renderable(items: Seq<ValueView>) -> bool
    decreases items,
{
    if items.len() == 0 {
        true
    } else {
        all_renderable(items.drop_last()) && renderable(items.last())
    }
}

/// The rendering of `v`, where it has one: a number as itself, a string as
/// its characters, a truth value as `true` or `false`, a list as its items
/// between square brackets with a comma and a space between two of them, and
/// a function, a range and the value for no value each as a fixed word.
pub open spec fn display(v: ValueView) -> Seq<PieceView>
    decreases v,
{
    match v {
        ValueView::Number(n) => seq![PieceView::Number(n)],
        ValueView::String(s) => chars(s),
        ValueView::Bool(b) => if b {
            chars("true"@)
        } else {
            chars("false"@)
        },
        ValueView::Function { .. } => chars("function"@),
        ValueView::List(items) => chars("["@) + display_joined(items) + chars("]"@),
        ValueView::Range { .. } => chars("range"@),
        ValueView::Nil => chars("None"@),
        _ => Seq::empty(),
    }
}

/// The renderings of `items`, with a comma and a space between two of them.
pub open spec fn display_joined(items: Seq<ValueView>) -> Seq<PieceView>
    decreases items,
{
    if items.len() == 0 {
        Seq::empty()
    } else if items.len() == 1 {
        display(items.last())
    } else {
        display_joined(items.drop_last()) + chars(", "@) + display(items.last())
    }
}

impl Value {
    /// The descriptor of the value's type: for the definition or an instance
    /// of a struct, and for a variant of an enum, with the name.
    pub fn get_type(&self) -> (r: Type)
        ensures
            r@ == type_of(self@),
    {
        match self {
            Value::Number(_) => Type::Int,
            Value::String(_) => Type::String,
            Value::Bool(_) => Type::Bool,
            Value::Function { .. } => Type::Func,
            Value::List(_) => Type::List,
            Value::Range(_) => Type::Range,
            Value::CallStruct { name, .. } => Type::FieldStruct(name.clone()),
            Value::DefStruct { name, .. } => Type::Struct(name.clone()),
            Value::Nil => Type::Nil,
            Value::Enum { .. } => Type::Enum,
            Value::EnumCall { name, .. } => Type::FieldEnum(name.clone()),
        }
    }

    /// The rendering of the value, or nothing where it has none.
    pub fn rendered(&self) -> (r: Option<Text>)
        ensures
            r is Some <==> renderable(self@),
            r matches Some(t) ==> t@ == display(self@),
        decreases self,
    {
        match self {
            Value::Number(n) => Some(Text::of_number(*n)),
            Value::String(s) => Some(Text::of_chars(s.as_str())),
            Value::Bool(b) => if *b {
                Some(Text::of_chars("true"))
            } else {
                Some(Text::of_chars("false"))
            },
            Value::Function { .. } => Some(Text::of_chars("function")),
            Value::List(items) => {
                let mut text = Text::of_chars("[");
                let mut i: usize = 0;
                proof {
                    lemma_values_view(items@);
                    assert(values_view(items@).take(0) =~= Seq::<ValueView>::empty());
                    assert(text@ =~= chars("["@) + display_joined(values_view(items@).take(0)));
                }
                while i < items.len()
                    invariant
                        i <= items.len(),
                        decreases_to!(self => items),
                        self@ == ValueView::List(values_view(items@)),
                        values_view(items@).len() == items@.len(),
                        forall|j: int|
                            0 <= j < items@.len() ==> #[trigger] values_view(items@)[j]
                                == items@[j]@,
                        all_renderable(values_view(items@).take(i as int)),
                        text@ == chars("["@) + display_joined(values_view(items@).take(i as int)),
                    decreases items.len() - i,
                {
                    proof {
                        broadcast use vstd::std_specs::vec::axiom_vec_index_decreases;
                    }
                    let ghost all = values_view(items@);
                    proof {
                        assert(all.take(i + 1).drop_last() =~= all.take(i as int));
                        assert(all.take(i + 1).last() == items@[i as int]@);
                    }
                    match items[i].rendered() {
                        Some(piece) => {
                            if i > 0 {
                                text.push_chars(", ");
                            }
                            text.append(&piece);
                            proof {
                                assert(text@ =~= chars("["@) + display_joined(all.take(i + 1)));
                            }
                        },
                        None => {
                            proof {
                                lemma_all_renderable(all, i as int);
                            }
                            return None;
                        },
                    }
                    i += 1;
                }
                proof {
                    assert(values_view(items@).take(i as int) =~= values_view(items@));
                }
                text.push_chars("]");
                Some(text)
            },
            Value::Range(_) => Some(Text::of_chars("range")),
            Value::Nil => Some(Text::of_chars("None")),
            _ => None,
        }
    }

    /// The rendering of a value that has one. On any other value this does
    /// not return.
    pub fn display_value(&self) -> (r: Text)
        requires
            renderable(self@),
        ensures
            r@ == display(self@),
    {
        match self.rendered() {
            Some(text) => text,
            None => vstd::pervasive::unreached(),
        }
    }
}

/// Where every value of `items` has a rendering, each has.
pub proof fn lemma_all_renderable(items: Seq<ValueView>, i: int)
    requires
        0 <= i < items.len(),
        !renderable(items[i]),
    ensures
        !all_renderable(items),
    decreases items.len(),
{
    if i < items.len() - 1 {
        lemma_all_renderable(items.drop_last(), i);
    }
}

/// A variable with what is recorded about it. An evaluation keeps its
/// bindings without these records.
#[derive(Debug, Clone, PartialEq)]
pub struct Var {
    pub value: Value,
    pub mutable: bool,
    pub type_: Type,
}

} // verus!
