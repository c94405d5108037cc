use num_bigint::BigUint;
use typed_uint::absy::{
    ArrayExpression, BinaryOperator, BooleanExpression, FieldElementExpression, IntExpression,
    ShiftDirection,
};
use typed_uint::coercion::Coercion;
use typed_uint::natural::Natural;
use typed_uint::types::{Identifier, UBitwidth};
use typed_uint::uint::{UExpression, UExpressionInner};

type Expr = UExpression<'static, u64>;
type Inner = UExpressionInner<'static, u64>;
type Int = IntExpression<'static, u64>;

fn natural(value: u128) -> Natural {
    Natural::from_digits(BigUint::from(value).to_u32_digits())
}

fn number(value: u128) -> Int {
    Int::Value(natural(value))
}

fn literal(value: u128, width: UBitwidth) -> Expr {
    Inner::Value(value).annotate(width)
}

fn binary(operator: BinaryOperator, left: Int, right: Int) -> Int {
    Int::Binary(operator, Box::new(left), Box::new(right))
}

fn select() -> Int {
    Int::Select(
        Box::new(ArrayExpression::Identifier(Identifier { id: "a" })),
        Box::new(literal(0, UBitwidth::B32)),
    )
}

fn variable(name: &'static str) -> Int {
    Int::Identifier(Identifier { id: name })
}

#[test]
fn literal_100_fits_8_bits() {
    assert_eq!(Expr::try_from_int(number(100), UBitwidth::B8), Ok(literal(100, UBitwidth::B8)));
}

#[test]
fn literal_200_is_too_large_for_8_bits() {
    assert_eq!(
        Expr::try_from_int(number(200), UBitwidth::B8),
        Err(String::from("Literal `200` is too large for type u8"))
    );
}

#[test]
fn literal_ceiling_is_inclusive() {
    assert_eq!(Expr::try_from_int(number(128), UBitwidth::B8), Ok(literal(128, UBitwidth::B8)));
    assert_eq!(
        Expr::try_from_int(number(129), UBitwidth::B8),
        Err(String::from("Literal `129` is too large for type u8"))
    );
    assert_eq!(
        Expr::try_from_int(number(32768), UBitwidth::B16),
        Ok(literal(32768, UBitwidth::B16))
    );
    assert_eq!(
        Expr::try_from_int(number(32769), UBitwidth::B16),
        Err(String::from("Literal `32769` is too large for type u16"))
    );
    assert_eq!(
        Expr::try_from_int(number(2147483648), UBitwidth::B32),
        Ok(literal(2147483648, UBitwidth::B32))
    );
    assert_eq!(
        Expr::try_from_int(number(2147483649), UBitwidth::B32),
        Err(String::from("Literal `2147483649` is too large for type u32"))
    );
}

#[test]
fn representable_literals_above_the_ceiling_are_refused() {
    assert!(Expr::try_from_int(number(255), UBitwidth::B8).is_err());
    assert!(Expr::try_from_int(number(65535), UBitwidth::B16).is_err());
    assert!(Expr::try_from_int(number(4294967295), UBitwidth::B32).is_err());
}

#[test]
fn literal_zero_fits_every_width() {
    for width in [UBitwidth::B8, UBitwidth::B16, UBitwidth::B32] {
        assert_eq!(Expr::try_from_int(number(0), width), Ok(literal(0, width)));
        let no_digits = Int::Value(Natural::from_digits(vec![]));
        assert_eq!(Expr::try_from_int(no_digits, width), Ok(literal(0, width)));
    }
}

#[test]
fn literal_with_zero_digits_at_its_end_keeps_its_value() {
    let padded = Int::Value(Natural::from_digits(vec![100, 0, 0]));
    assert_eq!(Expr::try_from_int(padded, UBitwidth::B8), Ok(literal(100, UBitwidth::B8)));
}

#[test]
fn literal_of_many_digits_is_refused_in_decimal() {
    let huge = Int::Value(Natural::from_digits(vec![0, 0, 0, 0, 1]));
    assert_eq!(
        Expr::try_from_int(huge, UBitwidth::B32),
        Err(String::from(
            "Literal `340282366920938463463374607431768211456` is too large for type u32"
        ))
    );
    let two_digits = Int::Value(Natural::from_digits(vec![830850304, 26]));
    assert_eq!(
        Expr::try_from_int(two_digits, UBitwidth::B16),
        Err(String::from("Literal `112500000000` is too large for type u16"))
    );
}

#[test]
fn literals_are_ordered_by_value_and_not_by_length() {
    let long_but_small = Int::Value(Natural::from_digits(vec![5, 0, 0, 0]));
    assert_eq!(
        Expr::try_from_int(long_but_small, UBitwidth::B8),
        Ok(literal(5, UBitwidth::B8))
    );
    let high_digit = Int::Value(Natural::from_digits(vec![0, 1]));
    assert_eq!(
        Expr::try_from_int(high_digit, UBitwidth::B32),
        Err(String::from("Literal `4294967296` is too large for type u32"))
    );
    let low_digit = Int::Value(Natural::from_digits(vec![2147483648]));
    assert_eq!(
        Expr::try_from_int(low_digit, UBitwidth::B32),
        Ok(literal(2147483648, UBitwidth::B32))
    );
}

#[test]
fn literals_are_written_in_decimal_in_the_message() {
    assert_eq!(
        Expr::try_from_int(number(1000000007), UBitwidth::B16),
        Err(String::from("Literal `1000000007` is too large for type u16"))
    );
    assert_eq!(
        Expr::try_from_int(number(u128::MAX), UBitwidth::B32),
        Err(String::from(
            "Literal `340282366920938463463374607431768211455` is too large for type u32"
        ))
    );
    assert_eq!(
        Expr::try_from_int(number(4096), UBitwidth::B8),
        Err(String::from("Literal `4096` is too large for type u8"))
    );
}

#[test]
fn three_plus_four_at_32_bits() {
    let tree = binary(BinaryOperator::Add, number(3), number(4));
    assert_eq!(
        Expr::try_from_int(tree, UBitwidth::B32),
        Ok(literal(3, UBitwidth::B32).add(literal(4, UBitwidth::B32)))
    );
}

#[test]
fn each_operation_becomes_its_own_node() {
    let w = UBitwidth::B16;
    let cases: Vec<(BinaryOperator, Expr)> = vec![
        (BinaryOperator::Add, literal(6, w).add(literal(3, w))),
        (BinaryOperator::Sub, literal(6, w).sub(literal(3, w))),
        (BinaryOperator::Mult, literal(6, w).mult(literal(3, w))),
        (BinaryOperator::Xor, literal(6, w).xor(literal(3, w))),
        (BinaryOperator::And, literal(6, w).and(literal(3, w))),
        (BinaryOperator::Or, literal(6, w).or(literal(3, w))),
    ];
    for (operator, expected) in cases {
        assert_eq!(Expr::try_from_int(binary(operator, number(6), number(3)), w), Ok(expected));
    }
}

#[test]
fn nested_operations_keep_their_shape() {
    let tree = binary(
        BinaryOperator::Mult,
        binary(BinaryOperator::Add, number(1), number(2)),
        binary(BinaryOperator::Xor, number(3), number(4)),
    );
    let w = UBitwidth::B8;
    assert_eq!(
        Expr::try_from_int(tree, w),
        Ok(literal(1, w).add(literal(2, w)).mult(literal(3, w).xor(literal(4, w))))
    );
}

#[test]
fn shift_amount_passes_through() {
    let by = FieldElementExpression::Number(1000u64);
    let w = UBitwidth::B8;
    let left = Int::Shift(ShiftDirection::Left, Box::new(number(5)), Box::new(by.clone()));
    assert_eq!(Expr::try_from_int(left, w), Ok(literal(5, w).left_shift(by.clone())));
    let right = Int::Shift(ShiftDirection::Right, Box::new(number(5)), Box::new(by.clone()));
    assert_eq!(Expr::try_from_int(right, w), Ok(literal(5, w).right_shift(by)));
}

#[test]
fn shift_of_a_literal_that_is_too_large_is_refused() {
    let by = FieldElementExpression::Number(1u64);
    let tree = Int::Shift(ShiftDirection::Left, Box::new(number(300)), Box::new(by));
    assert_eq!(
        Expr::try_from_int(tree, UBitwidth::B8),
        Err(String::from("Literal `300` is too large for type u8"))
    );
}

#[test]
fn condition_passes_through() {
    let condition = BooleanExpression::Identifier(Identifier { id: "c" });
    let tree = Int::IfElse(
        Box::new(BooleanExpression::Identifier(Identifier { id: "c" })),
        Box::new(number(1)),
        Box::new(number(2)),
    );
    let w = UBitwidth::B32;
    assert_eq!(
        Expr::try_from_int(tree, w),
        Ok(Expr::if_else(condition, literal(1, w), literal(2, w)))
    );
}

#[test]
fn consequence_comes_before_alternative() {
    let tree = Int::IfElse(
        Box::new(BooleanExpression::Value(false)),
        Box::new(number(400)),
        Box::new(number(500)),
    );
    assert_eq!(
        Expr::try_from_int(tree, UBitwidth::B8),
        Err(String::from("Literal `400` is too large for type u8"))
    );
}

#[test]
fn left_operand_comes_first() {
    let tree = binary(BinaryOperator::Add, number(200), number(300));
    assert_eq!(
        Expr::try_from_int(tree, UBitwidth::B8),
        Err(String::from("Literal `200` is too large for type u8"))
    );
    let tree = binary(BinaryOperator::Add, number(100), number(300));
    assert_eq!(
        Expr::try_from_int(tree, UBitwidth::B8),
        Err(String::from("Literal `300` is too large for type u8"))
    );
}

#[test]
fn first_failure_hides_a_later_select() {
    let tree = binary(BinaryOperator::Sub, number(200), select());
    assert_eq!(
        Expr::try_from_int(tree, UBitwidth::B8),
        Err(String::from("Literal `200` is too large for type u8"))
    );
}

#[test]
fn identifier_is_refused_with_width_and_rendering() {
    let refused = Expr::try_from_int(variable("x"), UBitwidth::B32);
    assert_eq!(refused, Err(String::from("Expected a `u32` but found expression `x`")));
    let message = Expr::try_from_int(variable("counter"), UBitwidth::B16).unwrap_err();
    assert!(message.contains("u16"));
    assert!(message.contains("counter"));
}

#[test]
fn identifier_inside_an_operation_is_refused() {
    let tree = binary(BinaryOperator::Or, number(1), variable("y"));
    assert_eq!(
        Expr::try_from_int(tree, UBitwidth::B8),
        Err(String::from("Expected a `u8` but found expression `y`"))
    );
}

#[test]
fn select_is_unsupported_at_every_width() {
    for width in [UBitwidth::B8, UBitwidth::B16, UBitwidth::B32] {
        assert_eq!(Expr::coerce(select(), width), Coercion::Unsupported);
    }
    let other = Int::Select(
        Box::new(ArrayExpression::Value(vec![])),
        Box::new(literal(7, UBitwidth::B8).not()),
    );
    assert_eq!(Expr::coerce(other, UBitwidth::B8), Coercion::Unsupported);
}

#[test]
fn select_reached_inside_an_operation_is_unsupported() {
    let tree = binary(BinaryOperator::Add, number(1), select());
    assert_eq!(Expr::coerce(tree, UBitwidth::B8), Coercion::Unsupported);
    let tree = binary(BinaryOperator::Add, select(), number(1000));
    assert_eq!(Expr::coerce(tree, UBitwidth::B8), Coercion::Unsupported);
}

#[test]
fn coerce_agrees_with_try_from_int() {
    assert_eq!(
        Expr::coerce(number(100), UBitwidth::B8),
        Coercion::Typed(literal(100, UBitwidth::B8))
    );
    assert_eq!(
        Expr::coerce(number(200), UBitwidth::B8),
        Coercion::Rejected(String::from("Literal `200` is too large for type u8"))
    );
    assert_eq!(
        Expr::coerce(variable("x"), UBitwidth::B8),
        Coercion::Rejected(String::from("Expected a `u8` but found expression `x`"))
    );
}

#[test]
fn every_node_of_the_result_has_the_width_and_no_metadata() {
    fn check(e: &Expr, width: UBitwidth) {
        assert_eq!(e.bitwidth, width);
        assert_eq!(e.metadata, None);
        match &e.inner {
            Inner::Add(l, r)
            | Inner::Sub(l, r)
            | Inner::Mult(l, r)
            | Inner::Xor(l, r)
            | Inner::And(l, r)
            | Inner::Or(l, r)
            | Inner::IfElse(_, l, r) => {
                check(l, width);
                check(r, width);
            }
            Inner::Not(e) | Inner::LeftShift(e, _) | Inner::RightShift(e, _) => check(e, width),
            _ => {}
        }
    }
    let tree = Int::IfElse(
        Box::new(BooleanExpression::Value(true)),
        Box::new(binary(BinaryOperator::And, number(1), number(2))),
        Box::new(Int::Shift(
            ShiftDirection::Right,
            Box::new(binary(BinaryOperator::Mult, number(3), number(4))),
            Box::new(FieldElementExpression::Number(2u64)),
        )),
    );
    let e = Expr::try_from_int(tree, UBitwidth::B16).unwrap();
    check(&e, UBitwidth::B16);
}

#[test]
fn clone_of_an_integer_expression_is_equal() {
    let tree = Int::IfElse(
        Box::new(BooleanExpression::UintEq(
            Box::new(literal(1, UBitwidth::B8)),
            Box::new(literal(2, UBitwidth::B8)),
        )),
        Box::new(binary(BinaryOperator::And, number(1), variable("v"))),
        Box::new(Int::Shift(
            ShiftDirection::Right,
            Box::new(select()),
            Box::new(FieldElementExpression::Number(2u64)),
        )),
    );
    assert_eq!(tree.clone(), tree);
}
