//! Giving a width to integer expressions that have none yet.
//!
//! A literal is accepted up to a ceiling that depends on the width; an
//! operation is accepted when its integer operands are, left operand first;
//! an identifier is refused with a message; an array select has to be
//! resolved by the caller before it comes here.

use crate::absy::{
    ArrayExpression, BinaryOperator, FieldElementExpression, IntExpression, ShiftDirection,
};
use crate::natural::{radix_text, Natural};
use crate::types::{Identifier, UBitwidth};
use crate::uint::{UExpression, UExpressionInner};
use vstd::arithmetic::power2::{lemma2_to64, pow2};
use vstd::prelude::*;
use vstd::string::StringExecFns;

verus! {

/// The largest literal that is accepted at the width `w`: two to the power of
/// one less than the number of bits.
pub open spec fn literal_ceiling(w: UBitwidth) -> nat {
    pow2((w.bits() - 1) as nat)
}

/// The message for a literal of value `v` that is above the ceiling of `w`.
pub open spec fn too_large_message(v: nat, w: UBitwidth) -> Seq<char> {
    "Literal `"@ + radix_text(v, 10) + "` is too large for type u"@ + w.text()
}

/// The message for an expression, rendered as `found`, that cannot be given
/// the width `w`.
pub open spec fn no_width_message(w: UBitwidth, found: Seq<char>) -> Seq<char> {
    "Expected a `u"@ + w.text() + "` but found expression `"@ + found + "`"@
}

/// What stops an integer expression from being given a width.
pub enum Obstacle {
    /// The expression is refused, with this message for the user.
    Rejected(Seq<char>),
    /// The expression is an array select: the caller is at fault.
    Unsupported,
}

/// The first of two obstacles in evaluation order, or both results.
pub open spec fn both<A, B>(first: Result<A, Obstacle>, second: Result<B, Obstacle>) -> Result<
    (A, B),
    Obstacle,
> {
    match first {
        Err(o) => Err(o),
        Ok(a) => match second {
            Err(o) => Err(o),
            Ok(b) => Ok((a, b)),
        },
    }
}

/// The node that applies `operator` to `left` and `right`.
pub open spec fn binary_node<'ast, T>(
    operator: BinaryOperator,
    left: UExpression<'ast, T>,
    right: UExpression<'ast, T>,
) -> UExpressionInner<'ast, T> {
    match operator {
        BinaryOperator::Add => UExpressionInner::Add(Box::new(left), Box::new(right)),
        BinaryOperator::Sub => UExpressionInner::Sub(Box::new(left), Box::new(right)),
        BinaryOperator::Mult => UExpressionInner::Mult(Box::new(left), Box::new(right)),
        BinaryOperator::Xor => UExpressionInner::Xor(Box::new(left), Box::new(right)),
        BinaryOperator::And => UExpressionInner::And(Box::new(left), Box::new(right)),
        BinaryOperator::Or => UExpressionInner::Or(Box::new(left), Box::new(right)),
    }
}

/// The node that shifts `shifted` by `by` in the given direction.
pub open spec fn shift_node<'ast, T>(
    direction: ShiftDirection,
    shifted: UExpression<'ast, T>,
    by: FieldElementExpression<'ast, T>,
) -> UExpressionInner<'ast, T> {
    match direction {
        ShiftDirection::Left => UExpressionInner::LeftShift(Box::new(shifted), Box::new(by)),
        ShiftDirection::Right => UExpressionInner::RightShift(Box::new(shifted), Box::new(by)),
    }
}

/// The expression `i` at the width `w`, or what stops it from being given
/// that width. Operands are taken from left to right, and the first obstacle
/// is the one reported.
pub open spec fn coerced<'ast, T>(i: IntExpression<'ast, T>, w: UBitwidth) -> Result<
    UExpression<'ast, T>,
    Obstacle,
>
    decreases i,
{
    match i {
        IntExpression::Value(v) => if v@ <= literal_ceiling(w) {
            Ok(UExpressionInner::Value(v@ as u128).annotated(w))
        } else {
            Err(Obstacle::Rejected(too_large_message(v@, w)))
        },
        IntExpression::Binary(operator, left, right) => match both(
            coerced(*left, w),
            coerced(*right, w),
        ) {
            Ok((l, r)) => Ok(binary_node(operator, l, r).annotated(w)),
            Err(o) => Err(o),
        },
        IntExpression::Shift(direction, shifted, by) => match coerced(*shifted, w) {
            Ok(e) => Ok(shift_node(direction, e, *by).annotated(w)),
            Err(o) => Err(o),
        },
        IntExpression::IfElse(condition, consequence, alternative) => match both(
            coerced(*consequence, w),
            coerced(*alternative, w),
        ) {
            Ok((c, a)) => Ok(
                UExpressionInner::IfElse(condition, Box::new(c), Box::new(a)).annotated(w),
            ),
            Err(o) => Err(o),
        },
        IntExpression::Select(_, _) => Err(Obstacle::Unsupported),
        IntExpression::Identifier(id) => Err(Obstacle::Rejected(no_width_message(w, id.id@))),
    }
}

/// How an attempt to give a width to an integer expression ended.
#[derive(Debug, PartialEq, Eq)]
pub enum Coercion<'ast, T> {
    /// The expression at the width that was asked for.
    Typed(UExpression<'ast, T>),
    /// The expression is refused, with this message for the user.
    Rejected(String),
    /// The expression is an array select: the caller is at fault and has to
    /// stop.
    Unsupported,
}

impl<'ast, T> View for Coercion<'ast, T> {
    type V = Result<UExpression<'ast, T>, Obstacle>;

    open spec fn view(&self) -> Result<UExpression<'ast, T>, Obstacle> {
        match *self {
            Coercion::Typed(e) => Ok(e),
            Coercion::Rejected(message) => Err(Obstacle::Rejected(message@)),
            Coercion::Unsupported => Err(Obstacle::Unsupported),
        }
    }
}

/// The largest literal that is accepted at the width `w`.
fn ceiling_of(w: UBitwidth) -> (c: u128)
    ensures
        c == literal_ceiling(w),
{
    let shift: usize = w.to_usize() - 1;
    proof {
        lemma2_to64();
        assert(1u128 << 7 == 0x80) by (bit_vector);
        assert(1u128 << 15 == 0x8000) by (bit_vector);
        assert(1u128 << 31 == 0x8000_0000) by (bit_vector);
    }
    1u128 << shift
}

/// Builds the message for a literal above the ceiling of `w`.
fn too_large(v: &Natural, w: UBitwidth) -> (message: String)
    ensures
        message@ == too_large_message(v@, w),
{
    let decimal: String = v.to_decimal();
    let mut message: String = String::from_str("Literal `");
    message.append(decimal.as_str());
    message.append("` is too large for type u");
    message.append(w.to_str());
    message
}

/// Builds the message for an expression that cannot be given the width `w`.
fn no_width(w: UBitwidth, found: &str) -> (message: String)
    ensures
        message@ == no_width_message(w, found@),
{
    let mut message: String = String::from_str("Expected a `u");
    message.append(w.to_str());
    message.append("` but found expression `");
    message.append(found);
    message.append("`");
    message
}

/// Applies `operator` to two expressions of one width.
fn binary<'ast, T>(
    operator: BinaryOperator,
    left: UExpression<'ast, T>,
    right: UExpression<'ast, T>,
) -> (e: UExpression<'ast, T>)
    requires
        left.bitwidth == right.bitwidth,
    ensures
        e == binary_node(operator, left, right).annotated(left.bitwidth),
{
    match operator {
        BinaryOperator::Add => left.add(right),
        BinaryOperator::Sub => left.sub(right),
        BinaryOperator::Mult => left.mult(right),
        BinaryOperator::Xor => left.xor(right),
        BinaryOperator::And => left.and(right),
        BinaryOperator::Or => left.or(right),
    }
}

/// Shifts an expression by `by` in the given direction.
fn shift<'ast, T>(
    direction: ShiftDirection,
    shifted: UExpression<'ast, T>,
    by: FieldElementExpression<'ast, T>,
) -> (e: UExpression<'ast, T>)
    ensures
        e == shift_node(direction, shifted, by).annotated(shifted.bitwidth),
{
    match direction {
        ShiftDirection::Left => shifted.left_shift(by),
        ShiftDirection::Right => shifted.right_shift(by),
    }
}

/// Gives the width `w` to a literal that is not above the ceiling of `w`, and
/// refuses any other.
fn literal<'ast, T>(v: Natural, w: UBitwidth) -> (c: Coercion<'ast, T>)
    ensures
        c@ == coerced(IntExpression::<'ast, T>::Value(v), w),
        c matches Coercion::Typed(e) ==> e.bitwidth == w,
{
    let ceiling: Natural = Natural::from_u128(ceiling_of(w));
    if v.le(&ceiling) {
        Coercion::Typed(UExpressionInner::Value(v.to_u128().unwrap()).annotate(w))
    } else {
        Coercion::Rejected(too_large(&v, w))
    }
}

impl<'ast, T> UExpression<'ast, T> {
    /// Gives the width `bitwidth` to the integer expression `i`, or says what
    /// stops it. Every input is answered: where [`Coercion::Unsupported`]
    /// comes back, the caller has handed over an array select and has to stop.
    pub fn coerce(i: IntExpression<'ast, T>, bitwidth: UBitwidth) -> (c: Coercion<'ast, T>)
        ensures
            c@ == coerced(i, bitwidth),
            c matches Coercion::Typed(e) ==> e.bitwidth == bitwidth,
        decreases i,
    {
        match i {
            IntExpression::Value(v) => literal(v, bitwidth),
            IntExpression::Binary(operator, left, right) => match Self::coerce(*left, bitwidth) {
                Coercion::Typed(l) => match Self::coerce(*right, bitwidth) {
                    Coercion::Typed(r) => Coercion::Typed(binary(operator, l, r)),
                    stopped => stopped,
                },
                stopped => stopped,
            },
            IntExpression::Shift(direction, shifted, by) => match Self::coerce(
                *shifted,
                bitwidth,
            ) {
                Coercion::Typed(e) => Coercion::Typed(shift(direction, e, *by)),
                stopped => stopped,
            },
            IntExpression::IfElse(condition, consequence, alternative) => match Self::coerce(
                *consequence,
                bitwidth,
            ) {
                Coercion::Typed(c) => match Self::coerce(*alternative, bitwidth) {
                    Coercion::Typed(a) => Coercion::Typed(Self::if_else(*condition, c, a)),
                    stopped => stopped,
                },
                stopped => stopped,
            },
            IntExpression::Select(_, _) => Coercion::Unsupported,
            IntExpression::Identifier(id) => Coercion::Rejected(no_width(bitwidth, id.id)),
        }
    }

    /// Gives the width `bitwidth` to the integer expression `i`, or refuses it
    /// with a message. An expression on which [`UExpression::coerce`] answers
    /// [`Coercion::Unsupported`] must not be handed over.
    pub fn try_from_int(i: IntExpression<'ast, T>, bitwidth: UBitwidth) -> (r: Result<
        Self,
        String,
    >)
        requires
            coerced(i, bitwidth) != Err::<UExpression<'ast, T>, Obstacle>(Obstacle::Unsupported),
        ensures
            match coerced(i, bitwidth) {
                Ok(e) => r matches Ok(typed) && typed == e,
                Err(Obstacle::Rejected(message)) => r matches Err(text) && text@ == message,
                Err(Obstacle::Unsupported) => false,
            },
    {
        match Self::coerce(i, bitwidth) {
            Coercion::Typed(e) => Ok(e),
            Coercion::Rejected(message) => Err(message),
            Coercion::Unsupported => unreached(),
        }
    }
}

/// Whether every node that `e` is built from by arithmetic, bitwise, shift and
/// choice operations has the width `w` and nothing known of its bounds.
/// Operands of other kinds (a shift amount, a condition, the index of a
/// select, the arguments of a call) are not looked into.
pub open spec fn uniform<'ast, T>(e: UExpression<'ast, T>, w: UBitwidth) -> bool
    decreases e,
{
    &&& e.bitwidth == w
    &&& e.metadata is None
    &&& match e.inner {
        UExpressionInner::Add(l, r) => uniform(*l, w) && uniform(*r, w),
        UExpressionInner::Sub(l, r) => uniform(*l, w) && uniform(*r, w),
        UExpressionInner::Mult(l, r) => uniform(*l, w) && uniform(*r, w),
        UExpressionInner::Xor(l, r) => uniform(*l, w) && uniform(*r, w),
        UExpressionInner::And(l, r) => uniform(*l, w) && uniform(*r, w),
        UExpressionInner::Or(l, r) => uniform(*l, w) && uniform(*r, w),
        UExpressionInner::Not(e) => uniform(*e, w),
        UExpressionInner::LeftShift(e, _) => uniform(*e, w),
        UExpressionInner::RightShift(e, _) => uniform(*e, w),
        UExpressionInner::IfElse(_, c, a) => uniform(*c, w) && uniform(*a, w),
        UExpressionInner::Identifier(_) => true,
        UExpressionInner::Value(_) => true,
        UExpressionInner::FunctionCall(_, _) => true,
        UExpressionInner::Member(_, _) => true,
        UExpressionInner::Select(_, _) => true,
    }
}

/// Whether `e` has the shape of `i`: the same operation at every node, the
/// same literal values, and the very shift amounts and conditions of `i`.
pub open spec fn mirrors<'ast, T>(e: UExpression<'ast, T>, i: IntExpression<'ast, T>) -> bool
    decreases i,
{
    match i {
        IntExpression::Value(v) => e.inner matches UExpressionInner::Value(x) && x as nat == v@,
        IntExpression::Binary(operator, left, right) => match (operator, e.inner) {
            (BinaryOperator::Add, UExpressionInner::Add(l, r)) => mirrors(*l, *left) && mirrors(
                *r,
                *right,
            ),
            (BinaryOperator::Sub, UExpressionInner::Sub(l, r)) => mirrors(*l, *left) && mirrors(
                *r,
                *right,
            ),
            (BinaryOperator::Mult, UExpressionInner::Mult(l, r)) => mirrors(*l, *left) && mirrors(
                *r,
                *right,
            ),
            (BinaryOperator::Xor, UExpressionInner::Xor(l, r)) => mirrors(*l, *left) && mirrors(
                *r,
                *right,
            ),
            (BinaryOperator::And, UExpressionInner::And(l, r)) => mirrors(*l, *left) && mirrors(
                *r,
                *right,
            ),
            (BinaryOperator::Or, UExpressionInner::Or(l, r)) => mirrors(*l, *left) && mirrors(
                *r,
                *right,
            ),
            _ => false,
        },
        IntExpression::Shift(direction, shifted, by) => match (direction, e.inner) {
            (ShiftDirection::Left, UExpressionInner::LeftShift(s, amount)) => mirrors(
                *s,
                *shifted,
            ) && amount == by,
            (ShiftDirection::Right, UExpressionInner::RightShift(s, amount)) => mirrors(
                *s,
                *shifted,
            ) && amount == by,
            _ => false,
        },
        IntExpression::IfElse(condition, consequence, alternative) => {
            &&& e.inner matches UExpressionInner::IfElse(tested, c, a)
            &&& tested == condition
            &&& mirrors(*c, *consequence)
            &&& mirrors(*a, *alternative)
        },
        IntExpression::Select(_, _) => false,
        IntExpression::Identifier(_) => false,
    }
}

/// The ceiling of every width is a machine integer.
pub proof fn lemma_literal_ceiling_fits(w: UBitwidth)
    ensures
        literal_ceiling(w) <= u128::MAX,
{
    lemma2_to64();
}

/// A literal is given the width `w` if and only if it is not above two to the
/// power of one less than the number of bits of `w`; the node that comes out
/// is a literal of the same value, at the width `w`, with nothing known of
/// its bounds.
pub proof fn lemma_literal_coercion<'ast, T>(v: Natural, w: UBitwidth)
    ensures
        coerced(IntExpression::<'ast, T>::Value(v), w) is Ok <==> v@ <= pow2(
            (w.bits() - 1) as nat,
        ),
        coerced(IntExpression::<'ast, T>::Value(v), w) matches Ok(e) ==> {
            &&& e.inner matches UExpressionInner::Value(x)
            &&& x as nat == v@
            &&& e.bitwidth == w
            &&& e.metadata is None
        },
        coerced(IntExpression::<'ast, T>::Value(v), w) matches Err(o) ==> o == Obstacle::Rejected(
            too_large_message(v@, w),
        ),
{
    lemma_literal_ceiling_fits(w);
}

/// An array select is never given a width, whatever its array and its index
/// are and whatever width is asked for.
pub proof fn lemma_select_is_unsupported<'ast, T>(
    array: ArrayExpression<'ast, T>,
    index: UExpression<'ast, T>,
    w: UBitwidth,
)
    ensures
        coerced(IntExpression::Select(Box::new(array), Box::new(index)), w) == Err::<
            UExpression<'ast, T>,
            Obstacle,
        >(Obstacle::Unsupported),
{
}

/// Whether `part` stands in `text`, in one piece.
pub open spec fn contains(text: Seq<char>, part: Seq<char>) -> bool {
    exists|at: int|
        0 <= at && at + part.len() <= text.len() && #[trigger] text.subrange(
            at,
            at + part.len(),
        ) == part
}

/// The message that refuses an expression holds the width that was asked for
/// and the rendering of the expression.
pub proof fn lemma_no_width_message_tells(w: UBitwidth, found: Seq<char>)
    ensures
        contains(no_width_message(w, found), w.text()),
        contains(no_width_message(w, found), found),
{
    let message = no_width_message(w, found);
    let head = "Expected a `u"@;
    let middle = "` but found expression `"@;
    let width_at: int = head.len() as int;
    let found_at: int = (head.len() + w.text().len() + middle.len()) as int;
    assert(message.subrange(width_at, width_at + w.text().len()) =~= w.text());
    assert(message.subrange(found_at, found_at + found.len()) =~= found);
}

/// A variable is refused, with a message that holds the width that was asked
/// for and the name of the variable.
pub proof fn lemma_identifier_is_rejected<'ast, T>(id: Identifier<'ast>, w: UBitwidth)
    ensures
        coerced(IntExpression::<'ast, T>::Identifier(id), w) == Err::<
            UExpression<'ast, T>,
            Obstacle,
        >(Obstacle::Rejected(no_width_message(w, id.id@))),
        contains(no_width_message(w, id.id@), w.text()),
        contains(no_width_message(w, id.id@), id.id@),
{
    lemma_no_width_message_tells(w, id.id@);
}

/// What stops the left operand stops the operation, whatever the right
/// operand is; what stops the right operand stops the operation where the
/// left operand is given the width.
pub proof fn lemma_first_obstacle_wins<'ast, T>(
    operator: BinaryOperator,
    left: IntExpression<'ast, T>,
    right: IntExpression<'ast, T>,
    w: UBitwidth,
)
    ensures
        coerced(left, w) matches Err(o) ==> coerced(
            IntExpression::Binary(operator, Box::new(left), Box::new(right)),
            w,
        ) == Err::<UExpression<'ast, T>, Obstacle>(o),
        coerced(left, w) is Ok ==> (coerced(right, w) matches Err(o) ==> coerced(
            IntExpression::Binary(operator, Box::new(left), Box::new(right)),
            w,
        ) == Err::<UExpression<'ast, T>, Obstacle>(o)),
{
}

/// Where an integer expression is given a width, every node of the result has
/// that width and nothing known of its bounds.
pub proof fn lemma_coerced_is_uniform<'ast, T>(i: IntExpression<'ast, T>, w: UBitwidth)
    ensures
        coerced(i, w) matches Ok(e) ==> uniform(e, w),
    decreases i,
{
    match i {
        IntExpression::Binary(_, left, right) => {
            lemma_coerced_is_uniform(*left, w);
            lemma_coerced_is_uniform(*right, w);
        },
        IntExpression::Shift(_, shifted, _) => {
            lemma_coerced_is_uniform(*shifted, w);
        },
        IntExpression::IfElse(_, consequence, alternative) => {
            lemma_coerced_is_uniform(*consequence, w);
            lemma_coerced_is_uniform(*alternative, w);
        },
        _ => {},
    }
}

/// Where an integer expression is given a width, the result has the shape of
/// the expression.
pub proof fn lemma_coerced_mirrors<'ast, T>(i: IntExpression<'ast, T>, w: UBitwidth)
    ensures
        coerced(i, w) matches Ok(e) ==> mirrors(e, i),
    decreases i,
{
    match i {
        IntExpression::Value(_) => {
            lemma_literal_ceiling_fits(w);
        },
        IntExpression::Binary(_, left, right) => {
            lemma_coerced_mirrors(*left, w);
            lemma_coerced_mirrors(*right, w);
        },
        IntExpression::Shift(_, shifted, _) => {
            lemma_coerced_mirrors(*shifted, w);
        },
        IntExpression::IfElse(_, consequence, alternative) => {
            lemma_coerced_mirrors(*consequence, w);
            lemma_coerced_mirrors(*alternative, w);
        },
        _ => {},
    }
}

} // verus!
