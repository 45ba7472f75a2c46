use tidy::meta::{metadata_str, timestamp_label, MAX_LABEL_SECS};

#[test]
fn label_of_epoch_zero() {
    assert_eq!(timestamp_label(Some(0)), "Thu Jan  1 00:00:00 1970");
}

#[test]
fn label_of_known_second() {
    // 2015-05-15 00:00:00 UTC, the example chrono itself documents.
    assert_eq!(timestamp_label(Some(1431648000)), "Fri May 15 00:00:00 2015");
}

#[test]
fn label_of_missing_timestamp() {
    assert_eq!(timestamp_label(None), "unknown");
}

#[test]
fn label_of_last_formatted_second() {
    assert_eq!(
        timestamp_label(Some(MAX_LABEL_SECS)),
        "Fri Dec 31 23:59:59 9999"
    );
}

#[test]
fn label_beyond_range_degrades() {
    assert_eq!(timestamp_label(Some(MAX_LABEL_SECS + 1)), "unknown");
}

#[test]
fn metadata_line_composes_labels() {
    assert_eq!(
        metadata_str(Some(0), None, Some(1431648000)),
        "Created: Thu Jan  1 00:00:00 1970, Accessed: unknown, Modified: Fri May 15 00:00:00 2015"
    );
}
