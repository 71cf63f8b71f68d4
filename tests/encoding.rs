use serde_json::Value;
use toggl_api::{int_text, join_texts, time_entry_request, TimeEntry, Timestamp};

fn new_year_2024() -> Timestamp {
    Timestamp::new(1_704_067_200, 0).unwrap()
}

fn object_keys(text: &str) -> Vec<String> {
    let v: Value = serde_json::from_str(text).expect("valid JSON");
    v.as_object().expect("an object").keys().cloned().collect()
}

#[test]
fn unset_optional_fields_are_left_out() {
    let entry = TimeEntry::new(new_year_2024(), 400);
    let text = entry.to_json();
    let mut keys = object_keys(&text);
    keys.sort();
    assert_eq!(keys, vec!["duration".to_string(), "start".to_string()]);
    assert!(!text.contains("null"));
    assert_eq!(text, r#"{"start":"2024-01-01T00:00:00Z","duration":400}"#);
}

#[test]
fn set_fields_are_written_in_order() {
    let mut entry = TimeEntry::new(new_year_2024(), -1_704_067_200);
    entry.description = Some("say \"hi\"".to_string());
    entry.wid = Some(777);
    entry.billable = Some(false);
    entry.stop = Timestamp::new(1_704_067_260, 500_000_000);
    entry.created_with = Some("toggl_api".to_string());
    entry.tags = Some(vec!["a".to_string(), "b\\c".to_string()]);
    let text = entry.to_json();
    assert_eq!(
        text,
        [
            r#"{"description":"say \"hi\"","wid":777,"billable":false,"#,
            r#""start":"2024-01-01T00:00:00Z","stop":"2024-01-01T00:01:00.500Z","#,
            r#""duration":-1704067200,"created_with":"toggl_api","tags":["a","b\\c"]}"#,
        ]
        .concat()
    );
    let v: Value = serde_json::from_str(&text).unwrap();
    assert_eq!(v["description"], "say \"hi\"");
    assert_eq!(v["tags"][1], "b\\c");
}

#[test]
fn empty_tag_list_is_an_empty_array() {
    let mut entry = TimeEntry::new(new_year_2024(), 0);
    entry.tags = Some(vec![]);
    entry.duronly = Some(true);
    entry.id = Some(3);
    assert_eq!(
        entry.to_json(),
        r#"{"id":3,"start":"2024-01-01T00:00:00Z","duration":0,"tags":[],"duronly":true}"#
    );
}

#[test]
fn request_wraps_the_entry() {
    let entry = TimeEntry::new(new_year_2024(), 400);
    let body = time_entry_request(&entry);
    assert_eq!(body, r#"{"time_entry":{"start":"2024-01-01T00:00:00Z","duration":400}}"#);
    assert_eq!(object_keys(&body), vec!["time_entry".to_string()]);
}

#[test]
fn integers_in_decimal() {
    assert_eq!(int_text(0), "0");
    assert_eq!(int_text(7), "7");
    assert_eq!(int_text(10), "10");
    assert_eq!(int_text(-42), "-42");
    assert_eq!(int_text(5864726), "5864726");
    assert_eq!(int_text(i64::MAX), "9223372036854775807");
    assert_eq!(int_text(i64::MIN), "-9223372036854775808");
}

#[test]
fn joining_texts() {
    let empty: Vec<String> = vec![];
    assert_eq!(join_texts(&empty, ","), "");
    assert_eq!(join_texts(&vec!["a".to_string()], ","), "a");
    assert_eq!(join_texts(&vec!["a".to_string(), "".to_string(), "c".to_string()], ", "), "a, , c");
}

#[test]
fn timestamps_in_range() {
    assert!(Timestamp::new(-8_334_601_228_800, 0).is_some());
    assert!(Timestamp::new(-8_334_601_228_801, 999_999_999).is_none());
    assert!(Timestamp::new(8_210_266_876_799, 999_999_999).is_some());
    assert!(Timestamp::new(8_210_266_876_800, 0).is_none());
    assert!(Timestamp::new(0, 1_000_000_000).is_none());
    assert!(Timestamp::new(59, 1_000_000_000).is_some());
    assert!(Timestamp::new(-1, 1_999_999_999).is_some());
    assert!(Timestamp::new(59, 2_000_000_000).is_none());
    assert!(Timestamp::new(i64::MIN, 0).is_none());
    assert!(Timestamp::new(i64::MAX, 0).is_none());
    let t = Timestamp::new(-5, 7).unwrap();
    assert_eq!(t.seconds(), -5);
    assert_eq!(t.nanoseconds(), 7);
}

#[test]
fn timestamps_at_the_ends_of_the_range() {
    assert_eq!(
        Timestamp::new(-8_334_601_228_800, 0).unwrap().to_rfc3339(),
        "-262143-01-01T00:00:00Z"
    );
    assert_eq!(
        Timestamp::new(8_210_266_876_799, 999_999_999).unwrap().to_rfc3339(),
        "+262142-12-31T23:59:59.999999999Z"
    );
    assert_eq!(
        Timestamp::new(253_402_300_800, 0).unwrap().to_rfc3339(),
        "+10000-01-01T00:00:00Z"
    );
}

#[test]
fn leap_second_is_written_as_second_60() {
    assert_eq!(
        Timestamp::new(1_483_228_799, 1_500_000_000).unwrap().to_rfc3339(),
        "2016-12-31T23:59:60.500Z"
    );
}

#[test]
fn timestamps_as_iso_8601() {
    assert_eq!(new_year_2024().to_rfc3339(), "2024-01-01T00:00:00Z");
    assert_eq!(Timestamp::new(0, 0).unwrap().to_rfc3339(), "1970-01-01T00:00:00Z");
    assert_eq!(
        Timestamp::new(1_704_067_200, 123_000_000).unwrap().to_rfc3339(),
        "2024-01-01T00:00:00.123Z"
    );
    assert_eq!(
        Timestamp::new(-62_135_596_800, 0).unwrap().to_rfc3339(),
        "0001-01-01T00:00:00Z"
    );
}
