use firmware::sensor::median_reading;

#[test]
fn median_of_sorted_readings() {
    assert_eq!(median_reading([1, 2, 3, 4, 5]), 3);
}

#[test]
fn median_ignores_order_and_outliers() {
    assert_eq!(median_reading([9000, 5, 4100, 4000, 4050]), 4050);
    assert_eq!(median_reading([4050, 4000, 9000, 4100, 5]), 4050);
    assert_eq!(median_reading([0, 0, 7, 7, 7]), 7);
    assert_eq!(median_reading([u16::MAX, 1, u16::MAX, 1, 2]), 2);
}
