//! Non-negative integers of any size, and how they are written as text.
//!
//! A [`Natural`] holds the digits of the number. Comparing, rendering and
//! converting is done by `num_bigint` on those digits, through the wrappers at
//! the end of this file.

use num_bigint::BigUint;
use vstd::prelude::*;

verus! {

/// The number that `digits` write in base 2^32, least significant digit first.
pub open spec fn digits_value(digits: Seq<u32>) -> nat
    decreases digits.len(),
{
    if digits.len() == 0 {
        0
    } else {
        digits[0] as nat + 0x1_0000_0000 * digits_value(digits.skip(1))
    }
}

/// Whether `digits` end in no zero digit: the shortest way to write a number.
pub open spec fn is_shortest(digits: Seq<u32>) -> bool {
    digits.len() > 0 ==> digits.last() != 0
}

/// A zero digit at the most significant end does not change the number.
pub proof fn lemma_zero_digit_at_the_end(digits: Seq<u32>)
    requires
        digits.len() > 0,
        digits.last() == 0,
    ensures
        digits_value(digits.drop_last()) == digits_value(digits),
    decreases digits.len(),
{
    let shorter = digits.drop_last();
    if digits.len() == 1 {
        assert(digits[0] == 0);
        assert(digits_value(digits.skip(1)) == 0);
        assert(digits_value(shorter) == 0);
    } else {
        assert(digits.skip(1).last() == 0);
        lemma_zero_digit_at_the_end(digits.skip(1));
        assert(shorter.skip(1) =~= digits.skip(1).drop_last());
        assert(shorter[0] == digits[0]);
    }
}

/// Digits that end in no zero write a number above zero.
pub proof fn lemma_shortest_is_positive(digits: Seq<u32>)
    requires
        digits.len() > 0,
        digits.last() != 0,
    ensures
        digits_value(digits) > 0,
    decreases digits.len(),
{
    if digits.len() > 1 {
        lemma_shortest_is_positive(digits.skip(1));
    }
}

/// A number has one shortest way to be written.
pub proof fn lemma_shortest_is_unique(a: Seq<u32>, b: Seq<u32>)
    requires
        is_shortest(a),
        is_shortest(b),
        digits_value(a) == digits_value(b),
    ensures
        a == b,
    decreases a.len(),
{
    if a.len() == 0 {
        if b.len() > 0 {
            lemma_shortest_is_positive(b);
        }
        assert(a =~= b);
    } else if b.len() == 0 {
        lemma_shortest_is_positive(a);
    } else {
        let high_a = digits_value(a.skip(1));
        let high_b = digits_value(b.skip(1));
        assert(a[0] == b[0] && high_a == high_b) by (nonlinear_arith)
            requires
                a[0] as nat + 0x1_0000_0000 * high_a == b[0] as nat + 0x1_0000_0000 * high_b,
                a[0] < 0x1_0000_0000,
                b[0] < 0x1_0000_0000,
        ;
        lemma_shortest_is_unique(a.skip(1), b.skip(1));
        assert(a =~= seq![a[0]] + a.skip(1));
        assert(b =~= seq![b[0]] + b.skip(1));
    }
}

/// A non-negative integer of any size. It is held as its digits in base 2^32,
/// least significant digit first, written in the shortest way, so that two
/// naturals are equal exactly when their values are.
#[derive(Debug, PartialEq, Eq, Hash)]
pub struct Natural {
    digits: Vec<u32>,
}

impl Clone for Natural {
    fn clone(&self) -> (n: Self)
        ensures
            n.digits() == self.digits(),
            n@ == self@,
    {
        proof {
            use_type_invariant(self);
        }
        Natural { digits: self.digits.clone() }
    }
}

impl View for Natural {
    type V = nat;

    closed spec fn view(&self) -> nat {
        digits_value(self.digits@)
    }
}

impl Natural {
    /// The digits of the number, least significant first.
    pub closed spec fn digits(&self) -> Seq<u32> {
        self.digits@
    }

    #[verifier::type_invariant]
    spec fn shortest(&self) -> bool {
        is_shortest(self.digits@)
    }

    /// The value of a natural is the number that its digits write.
    pub proof fn lemma_digits(&self)
        ensures
            digits_value(self.digits()) == self@,
    {
    }

    /// Two naturals of one value, each written in the shortest way, have the
    /// same digits.
    pub proof fn lemma_value_decides_digits(a: Natural, b: Natural)
        requires
            is_shortest(a.digits()),
            is_shortest(b.digits()),
            a@ == b@,
        ensures
            a.digits() == b.digits(),
    {
        lemma_shortest_is_unique(a.digits(), b.digits());
    }

    /// The number that `digits` write in base 2^32, least significant digit
    /// first. Zero digits at the most significant end are dropped.
    pub fn from_digits(digits: Vec<u32>) -> (n: Natural)
        ensures
            n@ == digits_value(digits@),
            is_shortest(n.digits()),
    {
        let mut digits = digits;
        let ghost given = digits@;
        while digits.len() > 0 && digits[digits.len() - 1] == 0
            invariant
                digits_value(digits@) == digits_value(given),
            decreases digits.len(),
        {
            proof {
                lemma_zero_digit_at_the_end(digits@);
            }
            digits.pop();
        }
        Natural { digits }
    }

    /// The digits of the number in base 2^32, least significant digit first,
    /// written in the shortest way.
    pub fn to_digits(&self) -> (digits: Vec<u32>)
        ensures
            digits@ == self.digits(),
            digits_value(digits@) == self@,
            is_shortest(digits@),
    {
        proof {
            use_type_invariant(self);
        }
        self.digits.clone()
    }

    /// The natural number of the value of `v`.
    pub fn from_u128(v: u128) -> (n: Natural)
        ensures
            n@ == v,
            is_shortest(n.digits()),
    {
        Natural::from_digits(digits_of_u128(v))
    }

    /// The number as a machine integer, where it fits.
    pub fn to_u128(&self) -> (r: Option<u128>)
        ensures
            r == (if self@ <= u128::MAX {
                Some(self@ as u128)
            } else {
                None
            }),
    {
        let text: String = digits_to_str_radix(&self.digits, 16);
        proof {
            lemma_radix_text_round_trip(self@, 16);
        }
        u128_from_str_radix(text.as_str(), 16)
    }

    /// Whether this number is at most `other`.
    pub(crate) fn le(&self, other: &Natural) -> (r: bool)
        ensures
            r == (self@ <= other@),
    {
        digits_le(&self.digits, &other.digits)
    }

    /// The number in decimal.
    pub(crate) fn to_decimal(&self) -> (text: String)
        ensures
            text@ == radix_text(self@, 10),
    {
        digits_to_str_radix(&self.digits, 10)
    }
}

/// The character that writes the digit `d`: `0` to `9`, then `a` to `z`.
pub open spec fn digit_char(d: nat) -> char {
    if d < 10 {
        (0x30 + d) as char
    } else {
        (0x61 + d - 10) as char
    }
}

/// The digit that `c` writes: `0` to `9`, then letters of either case.
pub open spec fn digit_of_char(c: char) -> Option<nat> {
    let code: nat = c as nat;
    if 0x30 <= code <= 0x39 {
        Some((code - 0x30) as nat)
    } else if 0x61 <= code <= 0x7a {
        Some((code - 0x61 + 10) as nat)
    } else if 0x41 <= code <= 0x5a {
        Some((code - 0x41 + 10) as nat)
    } else {
        None
    }
}

/// `n` written in base `radix`, most significant digit first, without
/// leading zeros; zero is written `0`.
pub open spec fn radix_text(n: nat, radix: nat) -> Seq<char>
    decreases n,
    via radix_text_terminates
{
    if radix < 2 || n < radix {
        seq![digit_char(n)]
    } else {
        radix_text(n / radix, radix).push(digit_char(n % radix))
    }
}

#[via_fn]
proof fn radix_text_terminates(n: nat, radix: nat) {
    assert(2 <= radix <= n ==> n / radix < n) by (nonlinear_arith);
}

/// Whether `c` writes a digit of base `radix`.
pub open spec fn is_radix_digit(c: char, radix: nat) -> bool {
    digit_of_char(c) matches Some(d) && d < radix
}

/// Whether `text` is one or more digits of base `radix` and nothing else.
pub open spec fn is_radix_text(text: Seq<char>, radix: nat) -> bool {
    &&& text.len() > 0
    &&& forall|i: int| 0 <= i < text.len() ==> is_radix_digit(#[trigger] text[i], radix)
}

/// The number that a text of digits writes in base `radix`.
pub open spec fn text_value(text: Seq<char>, radix: nat) -> nat
    decreases text.len(),
{
    if text.len() == 0 {
        0
    } else {
        text_value(text.drop_last(), radix) * radix + match digit_of_char(text.last()) {
            Some(d) => d,
            None => 0,
        }
    }
}

/// Reading back what was written gives the number again.
pub proof fn lemma_radix_text_round_trip(n: nat, radix: nat)
    requires
        2 <= radix <= 36,
    ensures
        is_radix_text(radix_text(n, radix), radix),
        text_value(radix_text(n, radix), radix) == n,
    decreases n,
{
    let text = radix_text(n, radix);
    if n < radix {
        assert(digit_of_char(digit_char(n)) == Some(n));
        assert(text.drop_last() =~= Seq::<char>::empty());
        assert(text_value(text.drop_last(), radix) == 0);
        assert(text_value(text.drop_last(), radix) * radix == 0) by (nonlinear_arith)
            requires
                text_value(text.drop_last(), radix) == 0,
        ;
    } else {
        let head = radix_text(n / radix, radix);
        let low: nat = n % radix;
        lemma_radix_text_round_trip(n / radix, radix);
        assert(digit_of_char(digit_char(low)) == Some(low));
        assert(text.drop_last() =~= head);
        assert(text.last() == digit_char(low));
        assert forall|i: int| 0 <= i < text.len() implies is_radix_digit(
            #[trigger] text[i],
            radix,
        ) by {
            if i < head.len() {
                assert(text[i] == head[i]);
            }
        }
        assert((n / radix) * radix + n % radix == n) by (nonlinear_arith)
            requires
                radix > 0,
        ;
    }
}

/// `BigUint::from` on a `u128`, and `BigUint::to_u32_digits` on what it
/// gives: the digits that write the value of `v`.
#[verifier::external_body]
fn digits_of_u128(v: u128) -> (digits: Vec<u32>)
    ensures
        digits_value(digits@) == v,
{
    BigUint::from(v).to_u32_digits()
}

/// `<=` of `BigUint`: the order of the numbers that the digits write.
/// `BigUint::new` drops the zero digits at the most significant end before
/// the comparison, so they do not count.
#[verifier::external_body]
fn digits_le(a: &Vec<u32>, b: &Vec<u32>) -> (r: bool)
    ensures
        r == (digits_value(a@) <= digits_value(b@)),
{
    BigUint::new(a.clone()) <= BigUint::new(b.clone())
}

/// `BigUint::to_str_radix`: the number that the digits write, in the given
/// base, most significant digit first, in digits and lower-case letters,
/// without leading zeros and with `0` for zero. The call panics for a base
/// outside 2 to 36.
#[verifier::external_body]
fn digits_to_str_radix(digits: &Vec<u32>, radix: u32) -> (text: String)
    requires
        2 <= radix <= 36,
    ensures
        text@ == radix_text(digits_value(digits@), radix as nat),
{
    BigUint::new(digits.clone()).to_str_radix(radix)
}

/// `u128::from_str_radix`, with its error dropped. Of a text made of digits
/// of the base alone it gives the number, or nothing where the number is
/// above `u128::MAX`. Nothing is said of other texts (a sign, an empty text, a
/// character that is no digit of the base). The call panics for a base
/// outside 2 to 36.
#[verifier::external_body]
fn u128_from_str_radix(text: &str, radix: u32) -> (r: Option<u128>)
    requires
        2 <= radix <= 36,
    ensures
        is_radix_text(text@, radix as nat) ==> r == (if text_value(text@, radix as nat)
            <= u128::MAX {
            Some(text_value(text@, radix as nat) as u128)
        } else {
            None
        }),
{
    u128::from_str_radix(text, radix).ok()
}

} // verus!
