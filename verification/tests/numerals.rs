use anthropic_client::digits::u64_text;

#[test]
fn zero_is_a_single_digit() {
    assert_eq!(u64_text(0), "0");
}

#[test]
fn single_digits() {
    for n in 0..10u64 {
        assert_eq!(u64_text(n), n.to_string());
    }
}

#[test]
fn powers_of_ten_and_their_neighbours() {
    let mut power: u64 = 1;
    for _ in 0..19 {
        power *= 10;
        assert_eq!(u64_text(power), power.to_string());
        assert_eq!(u64_text(power - 1), (power - 1).to_string());
        assert_eq!(u64_text(power + 1), (power + 1).to_string());
    }
}

#[test]
fn the_largest_value() {
    assert_eq!(u64_text(u64::MAX), "18446744073709551615");
}

#[test]
fn no_leading_zero() {
    assert_eq!(u64_text(1024), "1024");
    assert_eq!(u64_text(100), "100");
    assert_eq!(u64_text(907), "907");
}
