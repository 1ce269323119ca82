use clin::dates::parse_date_str;

#[test]
fn reads_the_three_date_forms() {
    assert_eq!(parse_date_str("2024-01-02"), Some(1_704_153_600_000));
    assert_eq!(parse_date_str("2024-01-02 03:04:05"), Some(1_704_153_600_000 + 3_600_000 * 3 + 60_000 * 4 + 5_000));
    assert_eq!(parse_date_str("2024-01-02T03:04:05Z"), Some(1_704_153_600_000 + 3_600_000 * 3 + 60_000 * 4 + 5_000));
    assert_eq!(parse_date_str("2024-01-02T03:04:05+01:00"), Some(1_704_153_600_000 + 3_600_000 * 2 + 60_000 * 4 + 5_000));
    assert_eq!(parse_date_str("  1970-01-01 \n"), Some(0));
}

#[test]
fn refuses_other_texts() {
    assert_eq!(parse_date_str("yesterday"), None);
    assert_eq!(parse_date_str(""), None);
    assert_eq!(parse_date_str("2024-13-01"), None);
}
