use typed_uint::uint::bitwidth;

#[test]
fn bitwidth_of_zero_is_zero() {
    assert_eq!(bitwidth(0), 0);
}

#[test]
fn bitwidth_of_one_is_one() {
    assert_eq!(bitwidth(1), 1);
}

#[test]
fn bitwidth_of_255_is_8() {
    assert_eq!(bitwidth(255), 8);
}

#[test]
fn bitwidth_of_256_is_9() {
    assert_eq!(bitwidth(256), 9);
}

#[test]
fn bitwidth_of_the_largest_value_is_128() {
    assert_eq!(bitwidth(u128::MAX), 128);
}

#[test]
fn bitwidth_across_the_middle_of_the_word() {
    assert_eq!(bitwidth(u64::MAX as u128), 64);
    assert_eq!(bitwidth(1u128 << 64), 65);
    assert_eq!(bitwidth((1u128 << 64) - 1), 64);
    assert_eq!(bitwidth((1u128 << 64) + 1), 65);
    assert_eq!(bitwidth(1u128 << 127), 128);
    assert_eq!(bitwidth((1u128 << 127) - 1), 127);
}

#[test]
fn bitwidth_of_every_power_of_two() {
    for k in 0..128usize {
        let power = 1u128 << k;
        assert_eq!(bitwidth(power), k + 1);
        if k > 0 {
            assert_eq!(bitwidth(power - 1), k);
        }
    }
}

#[test]
fn bitwidth_agrees_with_leading_zeros() {
    for a in [0u128, 2, 3, 7, 8, 1000, 65535, 65536, 0xdead_beef, u128::MAX / 3] {
        assert_eq!(bitwidth(a), (128 - a.leading_zeros()) as usize);
    }
}
