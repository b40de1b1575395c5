//! The ways in which an evaluation fails.

use crate::text::{PieceView, Text};
use crate::value::{Type, TypeView, Value, ValueView};
use vstd::prelude::*;

verus! {

/// A name was read that nothing is bound to.
#[derive(Debug, Clone, PartialEq)]
pub struct VarNotFoundError {
    pub var_name: String,
}

/// A name was defined that is bound already.
#[derive(Debug, Clone, PartialEq)]
pub struct VarAlreadyDefinedError {
    pub var_name: String,
}

/// What stood where something else was expected: the type of a value, or a
/// word for what is not a value.
#[derive(Debug, Clone, PartialEq)]
pub enum Found {
    Type(Type),
    Word(String),
}

/// Something else stood where a kind of value or of expression was
/// expected.
#[derive(Debug, Clone, PartialEq)]
pub struct TypeMismatchError {
    pub expected: String,
    pub found: Found,
}

/// Two values that cannot be added, as they are rendered.
#[derive(Debug, Clone, PartialEq)]
pub struct CannotAddError {
    pub left: Text,
    pub right: Text,
}

/// Two values of which one cannot be taken from the other, as they are
/// rendered.
#[derive(Debug, Clone, PartialEq)]
pub struct CannotSubError {
    pub left: Text,
    pub right: Text,
}

/// Two values that cannot be multiplied, as they are rendered.
#[derive(Debug, Clone, PartialEq)]
pub struct CannotMulError {
    pub left: Text,
    pub right: Text,
}

/// Two values of which one cannot be divided by the other, as they are
/// rendered.
#[derive(Debug, Clone, PartialEq)]
pub struct CannotDivError {
    pub left: Text,
    pub right: Text,
}

/// Two values of which one has no remainder by the other, as they are
/// rendered.
#[derive(Debug, Clone, PartialEq)]
pub struct CannotModError {
    pub left: Text,
    pub right: Text,
}

/// Two values that cannot be compared or joined by a connective, as they
/// are rendered.
#[derive(Debug, Clone, PartialEq)]
pub struct CannotCompareError {
    pub left: Text,
    pub right: Text,
}

/// A name was called that no function is bound to, or a method that the
/// struct has not.
#[derive(Debug, Clone, PartialEq)]
pub struct FunctionNotFoundError {
    pub name: String,
}

/// A struct was named that nothing is bound to.
#[derive(Debug, Clone, PartialEq)]
pub struct StructNotFoundError {
    pub name: String,
}

/// A field was read that the instance has not.
#[derive(Debug, Clone, PartialEq)]
pub struct AttrNotFoundError {
    pub attr_name: String,
}

/// An index, held to the range of `i32`, at which the list of this name has
/// no item.
#[derive(Debug, Clone, PartialEq)]
pub struct IndexOutOfBoundsError {
    pub index: i32,
    pub name: String,
}

/// A function was defined under the name of a builtin.
#[derive(Debug, Clone, PartialEq)]
pub struct IsBuiltinError {
    pub name: String,
}

/// A function was called with fewer arguments than it has parameters.
#[derive(Debug, Clone, PartialEq)]
pub struct ArityError {
    pub name: String,
    pub expected: usize,
    pub found: usize,
}

/// A value of this type was to be rendered, and has no rendering.
#[derive(Debug, Clone, PartialEq)]
pub struct CannotDisplayError {
    pub found: Type,
}

/// Why an evaluation failed.
#[derive(Debug, Clone, PartialEq)]
pub enum Error {
    VarNotFound(VarNotFoundError),
    VarAlreadyDefined(VarAlreadyDefinedError),
    TypeMismatch(TypeMismatchError),
    CannotAdd(CannotAddError),
    CannotSub(CannotSubError),
    CannotMul(CannotMulError),
    CannotDiv(CannotDivError),
    CannotMod(CannotModError),
    CannotCompare(CannotCompareError),
    FunctionNotFound(FunctionNotFoundError),
    StructNotFound(StructNotFoundError),
    AttrNotFound(AttrNotFoundError),
    IndexOutOfBounds(IndexOutOfBoundsError),
    IsBuiltin(IsBuiltinError),
    Arity(ArityError),
    CannotDisplay(CannotDisplayError),
    /// The evaluation went deeper, or a loop ran longer, than it was allowed.
    OutOfFuel,
}

/// The mathematical form of a [`Found`].
pub enum FoundView {
    Type(TypeView),
    Word(Seq<char>),
}

impl View for Found {
    type V = FoundView;

    open spec fn view(&self) -> FoundView {
        match self {
            Found::Type(t) => FoundView::Type(t@),
            Found::Word(w) => FoundView::Word(w@),
        }
    }
}

/// The mathematical form of an [`Error`].
#[allow(inconsistent_fields)]
pub enum ErrorView {
    VarNotFound { var_name: Seq<char> },
    VarAlreadyDefined { var_name: Seq<char> },
    TypeMismatch { expected: Seq<char>, found: FoundView },
    CannotAdd { left: Seq<PieceView>, right: Seq<PieceView> },
    CannotSub { left: Seq<PieceView>, right: Seq<PieceView> },
    CannotMul { left: Seq<PieceView>, right: Seq<PieceView> },
    CannotDiv { left: Seq<PieceView>, right: Seq<PieceView> },
    CannotMod { left: Seq<PieceView>, right: Seq<PieceView> },
    CannotCompare { left: Seq<PieceView>, right: Seq<PieceView> },
    FunctionNotFound { name: Seq<char> },
    StructNotFound { name: Seq<char> },
    AttrNotFound { attr_name: Seq<char> },
    IndexOutOfBounds { index: int, name: Seq<char> },
    IsBuiltin { name: Seq<char> },
    Arity { name: Seq<char>, expected: nat, found: nat },
    CannotDisplay { found: TypeView },
    OutOfFuel,
}

impl View for Error {
    type V = ErrorView;

    open spec fn view(&self) -> ErrorView {
        match self {
            Error::VarNotFound(e) => ErrorView::VarNotFound { var_name: e.var_name@ },
            Error::VarAlreadyDefined(e) => ErrorView::VarAlreadyDefined { var_name: e.var_name@ },
            Error::TypeMismatch(e) => ErrorView::TypeMismatch {
                expected: e.expected@,
                found: e.found@,
            },
            Error::CannotAdd(e) => ErrorView::CannotAdd { left: e.left@, right: e.right@ },
            Error::CannotSub(e) => ErrorView::CannotSub { left: e.left@, right: e.right@ },
            Error::CannotMul(e) => ErrorView::CannotMul { left: e.left@, right: e.right@ },
            Error::CannotDiv(e) => ErrorView::CannotDiv { left: e.left@, right: e.right@ },
            Error::CannotMod(e) => ErrorView::CannotMod { left: e.left@, right: e.right@ },
            Error::CannotCompare(e) => ErrorView::CannotCompare { left: e.left@, right: e.right@ },
            Error::FunctionNotFound(e) => ErrorView::FunctionNotFound { name: e.name@ },
            Error::StructNotFound(e) => ErrorView::StructNotFound { name: e.name@ },
            Error::AttrNotFound(e) => ErrorView::AttrNotFound { attr_name: e.attr_name@ },
            Error::IndexOutOfBounds(e) => ErrorView::IndexOutOfBounds {
                index: e.index as int,
                name: e.name@,
            },
            Error::IsBuiltin(e) => ErrorView::IsBuiltin { name: e.name@ },
            Error::Arity(e) => ErrorView::Arity {
                name: e.name@,
                expected: e.expected as nat,
                found: e.found as nat,
            },
            Error::CannotDisplay(e) => ErrorView::CannotDisplay { found: e.found@ },
            Error::OutOfFuel => ErrorView::OutOfFuel,
        }
    }
}

/// The mathematical form of what an evaluation gives: a value or an error.
pub open spec fn outcome_view(r: Result<Value, Error>) -> Result<ValueView, ErrorView> {
    match r {
        Ok(v) => Ok(v@),
        Err(e) => Err(e@),
    }
}

/// The error for something of the type `found` where `expected` names what
/// should have stood there.
pub open spec fn mismatch(expected: Seq<char>, found: TypeView) -> ErrorView {
    ErrorView::TypeMismatch { expected, found: FoundView::Type(found) }
}

/// The error for what the word `found` names where `expected` names what
/// should have stood there.
pub open spec fn misplaced(expected: Seq<char>, found: Seq<char>) -> ErrorView {
    ErrorView::TypeMismatch { expected, found: FoundView::Word(found) }
}

impl Error {
    /// The error for `found` where `expected` names what should have stood
    /// there.
    pub fn mismatch(expected: &str, found: Type) -> (r: Error)
        ensures
            r@ == mismatch(expected@, found@),
    {
        Error::TypeMismatch(
            TypeMismatchError { expected: expected.to_owned(), found: Found::Type(found) },
        )
    }

    /// The error for what the word `found` names where `expected` names what
    /// should have stood there.
    pub fn misplaced(expected: &str, found: &str) -> (r: Error)
        ensures
            r@ == misplaced(expected@, found@),
    {
        Error::TypeMismatch(
            TypeMismatchError {
                expected: expected.to_owned(),
                found: Found::Word(found.to_owned()),
            },
        )
    }
}

} // verus!
