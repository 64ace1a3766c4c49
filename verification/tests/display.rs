use laptop_toio::display::{battery_label, elapsed_label, id_label, u64_to_string};

#[test]
fn decimal_rendering() {
    assert_eq!(u64_to_string(0), "0");
    assert_eq!(u64_to_string(7), "7");
    assert_eq!(u64_to_string(42), "42");
    assert_eq!(u64_to_string(1234), "1234");
    assert_eq!(u64_to_string(10000), "10000");
}

#[test]
fn battery_column() {
    assert_eq!(battery_label(Some(75)), "75");
    assert_eq!(battery_label(Some(0)), "0");
    assert_eq!(battery_label(None), "N/A");
}

#[test]
fn id_column() {
    assert_eq!(id_label(Some(34)), "34");
    assert_eq!(id_label(None), "N/A");
}

#[test]
fn age_column() {
    assert_eq!(elapsed_label(0), "<50ms");
    assert_eq!(elapsed_label(49), "<50ms");
    assert_eq!(elapsed_label(50), ">0ms");
    assert_eq!(elapsed_label(350), ">300ms");
    assert_eq!(elapsed_label(999), ">900ms");
    assert_eq!(elapsed_label(1000), "1s");
    assert_eq!(elapsed_label(7200), "7s");
}
