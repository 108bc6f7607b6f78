use synctr_engine::calendar::civil_from_days;
use synctr_engine::status::unix_to_rfc3339;

#[test]
fn days_map_to_gregorian_dates() {
    assert_eq!(civil_from_days(0), (1970, 1, 1));
    assert_eq!(civil_from_days(11016), (2000, 2, 29));
    assert_eq!(civil_from_days(11017), (2000, 3, 1));
    assert_eq!(civil_from_days(47540), (2100, 2, 28));
    assert_eq!(civil_from_days(47541), (2100, 3, 1));
    assert_eq!(civil_from_days(20088), (2024, 12, 31));
    assert_eq!(civil_from_days(2932896), (9999, 12, 31));
}

#[test]
fn leap_day_stamps() {
    assert_eq!(unix_to_rfc3339(11016 * 86400 + 3661), "2000-02-29T01:01:01Z");
    assert_eq!(unix_to_rfc3339(-5), "1970-01-01T00:00:00Z");
}
