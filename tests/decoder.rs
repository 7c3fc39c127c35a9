use session_migration::decode::{
    classify_record, decode_record, select_session_id, RecordOutcome, SkipReason,
};
use session_migration::meta::{Model, SESSIONS_CATEGORY};

fn record(id: i64, key1: &str, key2: &str, value: &str) -> Model {
    Model {
        id,
        module: SESSIONS_CATEGORY.to_string(),
        key1: key1.to_string(),
        key2: key2.to_string(),
        start_dt: 0,
        value: value.to_string(),
    }
}

#[test]
fn session_id_prefers_second_slot() {
    assert_eq!(select_session_id(&"a".to_string(), &"b".to_string()), "b");
    assert_eq!(select_session_id(&"a".to_string(), &String::new()), "a");
    assert_eq!(select_session_id(&String::new(), &String::new()), "");
}

#[test]
fn decodes_json_string_payload() {
    let out = decode_record(&record(1, "", "sid-1", "\"tok\\\"en\""));
    assert_eq!(
        out,
        RecordOutcome::Session { session_id: "sid-1".to_string(), access_token: "tok\"en".to_string() }
    );
}

#[test]
fn falls_back_to_first_slot() {
    let out = decode_record(&record(2, "sid-2", "", "\"abc\""));
    assert_eq!(
        out,
        RecordOutcome::Session { session_id: "sid-2".to_string(), access_token: "abc".to_string() }
    );
}

#[test]
fn blank_keys_are_skipped_even_with_bad_payload() {
    assert_eq!(
        decode_record(&record(3, "", "", "not-json")),
        RecordOutcome::Skipped(SkipReason::EmptySessionId)
    );
    assert_eq!(
        decode_record(&record(4, "", "", "\"abc\"")),
        RecordOutcome::Skipped(SkipReason::EmptySessionId)
    );
}

#[test]
fn empty_token_is_skipped() {
    assert_eq!(
        decode_record(&record(5, "", "sid", "\"\"")),
        RecordOutcome::Skipped(SkipReason::EmptyAccessToken)
    );
}

#[test]
fn undecodable_payload_is_fatal() {
    match decode_record(&record(6, "", "sid", "not-json")) {
        RecordOutcome::Fatal { record_id, detail } => {
            assert_eq!(record_id, 6);
            assert!(!detail.is_empty());
        }
        other => panic!("expected a fatal outcome, got {:?}", other),
    }
    // A JSON value that is not a string is not accepted either.
    assert!(matches!(decode_record(&record(7, "", "sid", "42")), RecordOutcome::Fatal { .. }));
    assert!(matches!(decode_record(&record(8, "", "sid", "{\"a\":1}")), RecordOutcome::Fatal { .. }));
}

#[test]
fn classify_from_decoded_value() {
    assert_eq!(
        classify_record("s".to_string(), 1, Ok("t".to_string())),
        RecordOutcome::Session { session_id: "s".to_string(), access_token: "t".to_string() }
    );
    assert_eq!(
        classify_record("s".to_string(), 1, Ok(String::new())),
        RecordOutcome::Skipped(SkipReason::EmptyAccessToken)
    );
    assert_eq!(
        classify_record(String::new(), 1, Err("bad".to_string())),
        RecordOutcome::Skipped(SkipReason::EmptySessionId)
    );
    assert_eq!(
        classify_record("s".to_string(), 9, Err("bad".to_string())),
        RecordOutcome::Fatal { record_id: 9, detail: "bad".to_string() }
    );
}

#[test]
fn other_category_is_skipped() {
    let mut rec = record(9, "", "sid", "not-json");
    rec.module = "alerts".to_string();
    assert_eq!(decode_record(&rec), RecordOutcome::Skipped(SkipReason::OtherCategory));
}
