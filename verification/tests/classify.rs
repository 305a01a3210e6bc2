use email_ingest::record::ChangeRecord;
use email_ingest::record::Classification;
use email_ingest::record::MAX_EMAIL_SIZE;
use email_ingest::record::classify;
use email_ingest::record::fetch_target;
use email_ingest::text::contains_substring;

fn rec(
    event_type: Option<&str>,
    bucket: Option<&str>,
    key: Option<&str>,
    size: Option<u64>,
) -> ChangeRecord {
    ChangeRecord {
        event_type: event_type.map(|s| s.to_string()),
        bucket: bucket.map(|s| s.to_string()),
        key: key.map(|s| s.to_string()),
        size,
    }
}

#[test]
fn substring_found_at_start() {
    assert!(contains_substring("ObjectCreated:Put", "ObjectCreated"));
}

#[test]
fn substring_found_in_middle() {
    assert!(contains_substring("s3:ObjectCreated:CompleteMultipartUpload", "ObjectCreated"));
}

#[test]
fn substring_absent() {
    assert!(!contains_substring("ObjectRemoved:Delete", "ObjectCreated"));
    assert!(!contains_substring("ObjectCreate", "ObjectCreated"));
}

#[test]
fn substring_empty_needle() {
    assert!(contains_substring("anything", ""));
    assert!(contains_substring("", ""));
}

#[test]
fn substring_needle_longer_than_hay() {
    assert!(!contains_substring("Obj", "ObjectCreated"));
}

#[test]
fn non_creation_tag_is_filtered_out() {
    let r = rec(Some("ObjectRemoved:Delete"), Some("b"), Some("k"), Some(10));
    assert_eq!(classify(&r, MAX_EMAIL_SIZE), Classification::FilteredOut);
}

#[test]
fn absent_tag_is_filtered_out() {
    let r = rec(None, Some("b"), Some("k"), Some(10));
    assert_eq!(classify(&r, MAX_EMAIL_SIZE), Classification::FilteredOut);
}

#[test]
fn creation_tag_with_location_proceeds() {
    let r = rec(Some("ObjectCreated:Put"), Some("b"), Some("k1"), Some(500));
    assert_eq!(classify(&r, MAX_EMAIL_SIZE), Classification::Proceed);
}

#[test]
fn multipart_creation_tag_proceeds() {
    let r = rec(
        Some("ObjectCreated:CompleteMultipartUpload"),
        Some("b"),
        Some("k"),
        Some(500),
    );
    assert_eq!(classify(&r, MAX_EMAIL_SIZE), Classification::Proceed);
}

#[test]
fn size_at_ceiling_is_gated_out() {
    let r = rec(Some("ObjectCreated:Put"), Some("b"), Some("k"), Some(MAX_EMAIL_SIZE));
    assert_eq!(classify(&r, MAX_EMAIL_SIZE), Classification::GatedOut);
}

#[test]
fn size_above_ceiling_is_gated_out() {
    let r = rec(Some("ObjectCreated:Put"), Some("b"), Some("k2"), Some(2_000_000));
    assert_eq!(classify(&r, MAX_EMAIL_SIZE), Classification::GatedOut);
}

#[test]
fn size_just_under_ceiling_proceeds() {
    let r = rec(Some("ObjectCreated:Put"), Some("b"), Some("k"), Some(MAX_EMAIL_SIZE - 1));
    assert_eq!(classify(&r, MAX_EMAIL_SIZE), Classification::Proceed);
}

#[test]
fn absent_size_defaults_to_zero_and_proceeds() {
    let r = rec(Some("ObjectCreated:Put"), Some("b"), Some("k"), None);
    assert_eq!(classify(&r, MAX_EMAIL_SIZE), Classification::Proceed);
}

#[test]
fn missing_bucket_skips() {
    let r = rec(Some("ObjectCreated:Put"), None, Some("k"), Some(10));
    assert_eq!(classify(&r, MAX_EMAIL_SIZE), Classification::MissingLocation);
}

#[test]
fn missing_key_skips() {
    let r = rec(Some("ObjectCreated:Put"), Some("b"), None, Some(10));
    assert_eq!(classify(&r, MAX_EMAIL_SIZE), Classification::MissingLocation);
}

#[test]
fn fetch_target_hands_back_bucket_and_key() {
    let r = rec(Some("ObjectCreated:Put"), Some("inbox"), Some("mail/42"), Some(10));
    assert_eq!(
        fetch_target(&r),
        Some(("inbox".to_string(), "mail/42".to_string()))
    );
}

#[test]
fn fetch_target_absent_without_full_location() {
    assert_eq!(fetch_target(&rec(Some("ObjectCreated:Put"), None, Some("k"), None)), None);
    assert_eq!(fetch_target(&rec(Some("ObjectCreated:Put"), Some("b"), None, None)), None);
}

#[test]
fn gate_applies_before_location_check() {
    let r = rec(Some("ObjectCreated:Put"), None, None, Some(MAX_EMAIL_SIZE));
    assert_eq!(classify(&r, MAX_EMAIL_SIZE), Classification::GatedOut);
}
