use bazuka::utils::{bytes_eq, median};

#[test]
fn median_of_odd_count_is_the_middle_value() {
    assert_eq!(median(&vec![5, 1, 9]), 5);
}

#[test]
fn median_of_even_count_is_the_upper_middle_value() {
    assert_eq!(median(&vec![4, 1, 3, 2]), 3);
}

#[test]
fn median_of_nothing_is_zero() {
    assert_eq!(median(&vec![]), 0);
}

#[test]
fn bytes_eq_compares_every_byte() {
    let a = [7u8; 32];
    let mut b = [7u8; 32];
    assert!(bytes_eq(&a, &b));
    b[31] = 8;
    assert!(!bytes_eq(&a, &b));
}
