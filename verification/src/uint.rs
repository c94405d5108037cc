//! Fixed-width unsigned-integer expressions.

use crate::absy::{
    clone_all, ArrayExpression, BooleanExpression, FieldElementExpression, StructExpression,
    TypedExpression,
};
pub use crate::bits::{bitwidth, Bitwidth};
use crate::types::{FunctionKey, Identifier, MemberId, UBitwidth};
use vstd::prelude::*;
use vstd::std_specs::convert::FromSpecImpl;

verus! {

/// What bound propagation has found out about an expression.
#[derive(Debug, Clone, PartialEq, Eq, Hash)]
pub struct UMetadata {
    /// The number of bits the value needs under exact arithmetic.
    pub bitwidth: Option<Bitwidth>,
    /// Whether the value has to be reduced before it is used at its width.
    pub should_reduce: Option<bool>,
}

/// A node together with its declared width and what is known of its bounds.
#[derive(Debug, PartialEq, Eq, Hash)]
pub struct UExpression<'ast, T> {
    pub bitwidth: UBitwidth,
    pub metadata: Option<UMetadata>,
    pub inner: UExpressionInner<'ast, T>,
}

/// The operations on fixed-width unsigned integers.
#[derive(Debug, PartialEq, Eq, Hash)]
pub enum UExpressionInner<'ast, T> {
    Identifier(Identifier<'ast>),
    Value(u128),
    Add(Box<UExpression<'ast, T>>, Box<UExpression<'ast, T>>),
    Sub(Box<UExpression<'ast, T>>, Box<UExpression<'ast, T>>),
    Mult(Box<UExpression<'ast, T>>, Box<UExpression<'ast, T>>),
    Xor(Box<UExpression<'ast, T>>, Box<UExpression<'ast, T>>),
    And(Box<UExpression<'ast, T>>, Box<UExpression<'ast, T>>),
    Or(Box<UExpression<'ast, T>>, Box<UExpression<'ast, T>>),
    Not(Box<UExpression<'ast, T>>),
    LeftShift(Box<UExpression<'ast, T>>, Box<FieldElementExpression<'ast, T>>),
    RightShift(Box<UExpression<'ast, T>>, Box<FieldElementExpression<'ast, T>>),
    FunctionCall(FunctionKey<'ast>, Vec<TypedExpression<'ast, T>>),
    IfElse(
        Box<BooleanExpression<'ast, T>>,
        Box<UExpression<'ast, T>>,
        Box<UExpression<'ast, T>>,
    ),
    Member(Box<StructExpression<'ast, T>>, MemberId),
    Select(Box<ArrayExpression<'ast, T>>, Box<UExpression<'ast, T>>),
}

impl<'ast, T> UExpressionInner<'ast, T> {
    /// The node with the declared width `bitwidth` and nothing known of its bounds.
    pub open spec fn annotated(self, bitwidth: UBitwidth) -> UExpression<'ast, T> {
        UExpression { bitwidth, metadata: None, inner: self }
    }

    /// Wraps the node with its declared width; nothing is known of its bounds yet.
    pub fn annotate(self, bitwidth: UBitwidth) -> (e: UExpression<'ast, T>)
        ensures
            e == self.annotated(bitwidth),
    {
        UExpression { metadata: None, bitwidth, inner: self }
    }
}

impl<'ast, T> UExpression<'ast, T> {
    /// The sum of two expressions of one width. What was known of the bounds
    /// of the operands is not carried over to the sum.
    pub fn add(self, other: Self) -> (e: UExpression<'ast, T>)
        requires
            self.bitwidth == other.bitwidth,
        ensures
            e == UExpressionInner::Add(Box::new(self), Box::new(other)).annotated(self.bitwidth),
    {
        let bitwidth: UBitwidth = self.bitwidth;
        UExpressionInner::Add(Box::new(self), Box::new(other)).annotate(bitwidth)
    }

    /// The difference of two expressions of one width.
    pub fn sub(self, other: Self) -> (e: UExpression<'ast, T>)
        requires
            self.bitwidth == other.bitwidth,
        ensures
            e == UExpressionInner::Sub(Box::new(self), Box::new(other)).annotated(self.bitwidth),
    {
        let bitwidth: UBitwidth = self.bitwidth;
        UExpressionInner::Sub(Box::new(self), Box::new(other)).annotate(bitwidth)
    }

    /// The product of two expressions of one width.
    pub fn mult(self, other: Self) -> (e: UExpression<'ast, T>)
        requires
            self.bitwidth == other.bitwidth,
        ensures
            e == UExpressionInner::Mult(Box::new(self), Box::new(other)).annotated(self.bitwidth),
    {
        let bitwidth: UBitwidth = self.bitwidth;
        UExpressionInner::Mult(Box::new(self), Box::new(other)).annotate(bitwidth)
    }

    /// The bitwise exclusive or of two expressions of one width.
    pub fn xor(self, other: Self) -> (e: UExpression<'ast, T>)
        requires
            self.bitwidth == other.bitwidth,
        ensures
            e == UExpressionInner::Xor(Box::new(self), Box::new(other)).annotated(self.bitwidth),
    {
        let bitwidth: UBitwidth = self.bitwidth;
        UExpressionInner::Xor(Box::new(self), Box::new(other)).annotate(bitwidth)
    }

    /// The bitwise or of two expressions of one width.
    pub fn or(self, other: Self) -> (e: UExpression<'ast, T>)
        requires
            self.bitwidth == other.bitwidth,
        ensures
            e == UExpressionInner::Or(Box::new(self), Box::new(other)).annotated(self.bitwidth),
    {
        let bitwidth: UBitwidth = self.bitwidth;
        UExpressionInner::Or(Box::new(self), Box::new(other)).annotate(bitwidth)
    }

    /// The bitwise and of two expressions of one width.
    pub fn and(self, other: Self) -> (e: UExpression<'ast, T>)
        requires
            self.bitwidth == other.bitwidth,
        ensures
            e == UExpressionInner::And(Box::new(self), Box::new(other)).annotated(self.bitwidth),
    {
        let bitwidth: UBitwidth = self.bitwidth;
        UExpressionInner::And(Box::new(self), Box::new(other)).annotate(bitwidth)
    }

    /// The bitwise complement, at the width of its operand.
    pub fn not(self) -> (e: UExpression<'ast, T>)
        ensures
            e == UExpressionInner::Not(Box::new(self)).annotated(self.bitwidth),
    {
        let bitwidth: UBitwidth = self.bitwidth;
        UExpressionInner::Not(Box::new(self)).annotate(bitwidth)
    }

    /// The expression shifted to the left by a number of the native domain,
    /// at the width of the shifted operand.
    pub fn left_shift(self, by: FieldElementExpression<'ast, T>) -> (e: UExpression<'ast, T>)
        ensures
            e == UExpressionInner::LeftShift(Box::new(self), Box::new(by)).annotated(self.bitwidth),
    {
        let bitwidth: UBitwidth = self.bitwidth;
        UExpressionInner::LeftShift(Box::new(self), Box::new(by)).annotate(bitwidth)
    }

    /// The expression shifted to the right by a number of the native domain,
    /// at the width of the shifted operand.
    pub fn right_shift(self, by: FieldElementExpression<'ast, T>) -> (e: UExpression<'ast, T>)
        ensures
            e == UExpressionInner::RightShift(Box::new(self), Box::new(by)).annotated(
                self.bitwidth,
            ),
    {
        let bitwidth: UBitwidth = self.bitwidth;
        UExpressionInner::RightShift(Box::new(self), Box::new(by)).annotate(bitwidth)
    }

    /// The choice between two expressions of one width.
    pub fn if_else(
        condition: BooleanExpression<'ast, T>,
        consequence: Self,
        alternative: Self,
    ) -> (e: UExpression<'ast, T>)
        requires
            consequence.bitwidth == alternative.bitwidth,
        ensures
            e == UExpressionInner::IfElse(
                Box::new(condition),
                Box::new(consequence),
                Box::new(alternative),
            ).annotated(consequence.bitwidth),
    {
        let bitwidth: UBitwidth = consequence.bitwidth;
        UExpressionInner::IfElse(
            Box::new(condition),
            Box::new(consequence),
            Box::new(alternative),
        ).annotate(bitwidth)
    }
}

impl<'ast, T> UExpression<'ast, T> {
    /// This expression with `metadata` in place of what was known of its
    /// bounds; its node and its width stay.
    pub open spec fn with_metadata(self, metadata: UMetadata) -> UExpression<'ast, T> {
        UExpression { bitwidth: self.bitwidth, metadata: Some(metadata), inner: self.inner }
    }

    /// Replaces what is known of the bounds of this expression.
    pub fn metadata(self, metadata: UMetadata) -> (e: UExpression<'ast, T>)
        ensures
            e == self.with_metadata(metadata),
    {
        UExpression { metadata: Some(metadata), bitwidth: self.bitwidth, inner: self.inner }
    }

    /// The declared width.
    pub fn bitwidth(&self) -> (w: UBitwidth)
        ensures
            w == self.bitwidth,
    {
        self.bitwidth
    }

    /// The node, borrowed.
    pub fn as_inner(&self) -> (inner: &UExpressionInner<'ast, T>)
        ensures
            *inner == self.inner,
    {
        &self.inner
    }

    /// The node, taken out of its annotation.
    pub fn into_inner(self) -> (inner: UExpressionInner<'ast, T>)
        ensures
            inner == self.inner,
    {
        self.inner
    }
}

impl<'ast, T: Clone> Clone for UExpression<'ast, T> {
    fn clone(&self) -> (copy: Self)
        decreases self, 0nat,
    {
        UExpression {
            bitwidth: self.bitwidth,
            metadata: self.metadata.clone(),
            inner: UExpressionInner::clone(&self.inner),
        }
    }
}

impl<'ast, T: Clone> Clone for UExpressionInner<'ast, T> {
    fn clone(&self) -> (copy: Self)
        decreases self, 0nat,
    {
        match self {
            UExpressionInner::Identifier(id) => UExpressionInner::Identifier(id.clone()),
            UExpressionInner::Value(v) => UExpressionInner::Value(*v),
            UExpressionInner::Add(l, r) => UExpressionInner::Add(
                Box::new(UExpression::clone(l)),
                Box::new(UExpression::clone(r)),
            ),
            UExpressionInner::Sub(l, r) => UExpressionInner::Sub(
                Box::new(UExpression::clone(l)),
                Box::new(UExpression::clone(r)),
            ),
            UExpressionInner::Mult(l, r) => UExpressionInner::Mult(
                Box::new(UExpression::clone(l)),
                Box::new(UExpression::clone(r)),
            ),
            UExpressionInner::Xor(l, r) => UExpressionInner::Xor(
                Box::new(UExpression::clone(l)),
                Box::new(UExpression::clone(r)),
            ),
            UExpressionInner::And(l, r) => UExpressionInner::And(
                Box::new(UExpression::clone(l)),
                Box::new(UExpression::clone(r)),
            ),
            UExpressionInner::Or(l, r) => UExpressionInner::Or(
                Box::new(UExpression::clone(l)),
                Box::new(UExpression::clone(r)),
            ),
            UExpressionInner::Not(e) => UExpressionInner::Not(Box::new(UExpression::clone(e))),
            UExpressionInner::LeftShift(e, by) => UExpressionInner::LeftShift(
                Box::new(UExpression::clone(e)),
                Box::new(FieldElementExpression::clone(by)),
            ),
            UExpressionInner::RightShift(e, by) => UExpressionInner::RightShift(
                Box::new(UExpression::clone(e)),
                Box::new(FieldElementExpression::clone(by)),
            ),
            UExpressionInner::FunctionCall(key, arguments) => UExpressionInner::FunctionCall(
                key.clone(),
                clone_all(arguments),
            ),
            UExpressionInner::IfElse(condition, consequence, alternative) => {
                UExpressionInner::IfElse(
                    Box::new(BooleanExpression::clone(condition)),
                    Box::new(UExpression::clone(consequence)),
                    Box::new(UExpression::clone(alternative)),
                )
            },
            UExpressionInner::Member(subject, member) => UExpressionInner::Member(
                Box::new(StructExpression::clone(subject)),
                member.clone(),
            ),
            UExpressionInner::Select(array, index) => UExpressionInner::Select(
                Box::new(ArrayExpression::clone(array)),
                Box::new(UExpression::clone(index)),
            ),
        }
    }
}

impl<'ast, T> From<u128> for UExpressionInner<'ast, T> {
    /// The literal of value `e`.
    fn from(e: u128) -> (inner: Self) {
        UExpressionInner::Value(e)
    }
}

impl<'ast, T> FromSpecImpl<u128> for UExpressionInner<'ast, T> {
    open spec fn obeys_from_spec() -> bool {
        true
    }

    open spec fn from_spec(e: u128) -> Self {
        UExpressionInner::Value(e)
    }
}

impl<'ast, T> From<&'ast str> for UExpressionInner<'ast, T> {
    /// The variable of name `e`.
    fn from(e: &'ast str) -> (inner: Self) {
        UExpressionInner::Identifier(Identifier { id: e })
    }
}

impl<'ast, T> FromSpecImpl<&'ast str> for UExpressionInner<'ast, T> {
    open spec fn obeys_from_spec() -> bool {
        true
    }

    open spec fn from_spec(e: &'ast str) -> Self {
        UExpressionInner::Identifier(Identifier { id: e })
    }
}

impl<'ast, T> From<u32> for UExpression<'ast, T> {
    /// The literal of value `u`, at 32 bits.
    fn from(u: u32) -> (e: Self) {
        UExpressionInner::Value(u as u128).annotate(UBitwidth::B32)
    }
}

impl<'ast, T> FromSpecImpl<u32> for UExpression<'ast, T> {
    open spec fn obeys_from_spec() -> bool {
        true
    }

    open spec fn from_spec(u: u32) -> Self {
        UExpressionInner::Value(u as u128).annotated(UBitwidth::B32)
    }
}

/// Replacing what is known of the bounds of an expression changes neither its
/// node nor its declared width, and what is read back is what was put in.
pub proof fn lemma_metadata_is_kept<'ast, T>(e: UExpression<'ast, T>, metadata: UMetadata)
    ensures
        e.with_metadata(metadata).inner == e.inner,
        e.with_metadata(metadata).bitwidth == e.bitwidth,
        e.with_metadata(metadata).metadata == Some(metadata),
{
}

/// Replacing the bounds twice leaves the second.
pub proof fn lemma_metadata_is_replaced<'ast, T>(
    e: UExpression<'ast, T>,
    first: UMetadata,
    second: UMetadata,
)
    ensures
        e.with_metadata(first).with_metadata(second) == e.with_metadata(second),
{
}

} // verus!
