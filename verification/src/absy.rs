//! The neighbouring node kinds of the typed representation.
//!
//! Fixed-width expressions carry operands of these kinds (a shift amount, a
//! condition, the subject of a member access or of an array select, the
//! arguments of a call) without ever looking inside them.

use crate::natural::Natural;
use crate::types::Identifier;
use crate::uint::UExpression;
use vstd::prelude::*;

verus! {

/// An expression in the circuit's native numeric domain `T`.
#[derive(Debug, Clone, PartialEq, Eq, Hash)]
pub enum FieldElementExpression<'ast, T> {
    Number(T),
    Identifier(Identifier<'ast>),
}

/// A boolean expression.
#[derive(Debug, PartialEq, Eq, Hash)]
pub enum BooleanExpression<'ast, T> {
    Identifier(Identifier<'ast>),
    Value(bool),
    FieldEq(Box<FieldElementExpression<'ast, T>>, Box<FieldElementExpression<'ast, T>>),
    UintEq(Box<UExpression<'ast, T>>, Box<UExpression<'ast, T>>),
}

/// An array-typed expression.
#[derive(Debug, PartialEq, Eq, Hash)]
pub enum ArrayExpression<'ast, T> {
    Identifier(Identifier<'ast>),
    Value(Vec<TypedExpression<'ast, T>>),
}

/// A struct-typed expression.
#[derive(Debug, PartialEq, Eq, Hash)]
pub enum StructExpression<'ast, T> {
    Identifier(Identifier<'ast>),
    Value(Vec<TypedExpression<'ast, T>>),
}

/// An expression of any type, as passed to a function.
#[derive(Debug, PartialEq, Eq, Hash)]
pub enum TypedExpression<'ast, T> {
    Boolean(BooleanExpression<'ast, T>),
    FieldElement(FieldElementExpression<'ast, T>),
    Uint(UExpression<'ast, T>),
    Array(ArrayExpression<'ast, T>),
    Struct(StructExpression<'ast, T>),
}

/// The operations on two integers that can be given a width.
#[derive(Debug, Clone, Copy, PartialEq, Eq, Hash)]
pub enum BinaryOperator {
    Add,
    Sub,
    Mult,
    Xor,
    And,
    Or,
}

/// The two directions of a shift.
#[derive(Debug, Clone, Copy, PartialEq, Eq, Hash)]
pub enum ShiftDirection {
    Left,
    Right,
}

/// An integer expression whose width is not decided yet: literals of any size
/// and the operations on them that can be given a width later.
#[derive(Debug, PartialEq, Eq, Hash)]
pub enum IntExpression<'ast, T> {
    /// A literal.
    Value(Natural),
    /// An arithmetic or bitwise operation on two integer expressions.
    Binary(BinaryOperator, Box<IntExpression<'ast, T>>, Box<IntExpression<'ast, T>>),
    /// A shift of an integer expression by an amount of the native domain.
    Shift(ShiftDirection, Box<IntExpression<'ast, T>>, Box<FieldElementExpression<'ast, T>>),
    /// A choice between two integer expressions.
    IfElse(
        Box<BooleanExpression<'ast, T>>,
        Box<IntExpression<'ast, T>>,
        Box<IntExpression<'ast, T>>,
    ),
    /// An element of an array.
    Select(Box<ArrayExpression<'ast, T>>, Box<UExpression<'ast, T>>),
    /// Anything else: a variable, which is no integer literal expression.
    Identifier(Identifier<'ast>),
}

/// A copy of every expression of `all`, in the same order.
pub(crate) fn clone_all<'ast, T: Clone>(all: &Vec<TypedExpression<'ast, T>>) -> (copies: Vec<
    TypedExpression<'ast, T>,
>)
    ensures
        copies.len() == all.len(),
    decreases all, 1nat,
{
    let mut copies: Vec<TypedExpression<'ast, T>> = Vec::new();
    let mut at: usize = 0;
    while at < all.len()
        invariant
            at <= all.len(),
            copies.len() == at,
        decreases all.len() - at,
    {
        copies.push(TypedExpression::clone(&all[at]));
        at = at + 1;
    }
    copies
}

impl<'ast, T: Clone> Clone for BooleanExpression<'ast, T> {
    fn clone(&self) -> (copy: Self)
        decreases self, 0nat,
    {
        match self {
            BooleanExpression::Identifier(id) => BooleanExpression::Identifier(id.clone()),
            BooleanExpression::Value(b) => BooleanExpression::Value(*b),
            BooleanExpression::FieldEq(l, r) => BooleanExpression::FieldEq(
                Box::new(FieldElementExpression::clone(l)),
                Box::new(FieldElementExpression::clone(r)),
            ),
            BooleanExpression::UintEq(l, r) => BooleanExpression::UintEq(
                Box::new(UExpression::clone(l)),
                Box::new(UExpression::clone(r)),
            ),
        }
    }
}

impl<'ast, T: Clone> Clone for ArrayExpression<'ast, T> {
    fn clone(&self) -> (copy: Self)
        decreases self, 0nat,
    {
        match self {
            ArrayExpression::Identifier(id) => ArrayExpression::Identifier(id.clone()),
            ArrayExpression::Value(elements) => ArrayExpression::Value(clone_all(elements)),
        }
    }
}

impl<'ast, T: Clone> Clone for StructExpression<'ast, T> {
    fn clone(&self) -> (copy: Self)
        decreases self, 0nat,
    {
        match self {
            StructExpression::Identifier(id) => StructExpression::Identifier(id.clone()),
            StructExpression::Value(members) => StructExpression::Value(clone_all(members)),
        }
    }
}

impl<'ast, T: Clone> Clone for TypedExpression<'ast, T> {
    fn clone(&self) -> (copy: Self)
        decreases self, 0nat,
    {
        match self {
            TypedExpression::Boolean(e) => TypedExpression::Boolean(BooleanExpression::clone(e)),
            TypedExpression::FieldElement(e) => TypedExpression::FieldElement(
                FieldElementExpression::clone(e),
            ),
            TypedExpression::Uint(e) => TypedExpression::Uint(UExpression::clone(e)),
            TypedExpression::Array(e) => TypedExpression::Array(ArrayExpression::clone(e)),
            TypedExpression::Struct(e) => TypedExpression::Struct(StructExpression::clone(e)),
        }
    }
}

impl<'ast, T: Clone> Clone for IntExpression<'ast, T> {
    fn clone(&self) -> (copy: Self)
        decreases self, 0nat,
    {
        match self {
            IntExpression::Value(v) => IntExpression::Value(v.clone()),
            IntExpression::Binary(operator, left, right) => IntExpression::Binary(
                *operator,
                Box::new(IntExpression::clone(left)),
                Box::new(IntExpression::clone(right)),
            ),
            IntExpression::Shift(direction, shifted, by) => IntExpression::Shift(
                *direction,
                Box::new(IntExpression::clone(shifted)),
                Box::new(FieldElementExpression::clone(by)),
            ),
            IntExpression::IfElse(condition, consequence, alternative) => IntExpression::IfElse(
                Box::new(BooleanExpression::clone(condition)),
                Box::new(IntExpression::clone(consequence)),
                Box::new(IntExpression::clone(alternative)),
            ),
            IntExpression::Select(array, index) => IntExpression::Select(
                Box::new(ArrayExpression::clone(array)),
                Box::new(UExpression::clone(index)),
            ),
            IntExpression::Identifier(id) => IntExpression::Identifier(id.clone()),
        }
    }
}

} // verus!
