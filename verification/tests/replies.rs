use seraph::reply::{
    encoder_fill_code, fixup_code, flag_set, ids_from_reply, lookup_code,
    relation_slot, store_fill_code, subscription_id, succeeded, unsubscribed, verify_code,
    failure_record_ids, frame_record_ids,
};
use seraph::{Fill, Lookup};

#[test]
fn plain_status_codes() {
    assert!(succeeded(0));
    assert!(!succeeded(1));
    assert!(!succeeded(-1));
}

#[test]
fn flag_codes() {
    assert!(flag_set(1));
    assert!(!flag_set(0));
    assert!(!flag_set(2));
}

#[test]
fn unsubscribe_codes() {
    assert!(unsubscribed(0));
    assert!(!unsubscribed(-1));
    assert!(!unsubscribed(-3));
}

#[test]
fn lookup_codes() {
    assert_eq!(lookup_code(0), Lookup::Found);
    assert_eq!(lookup_code(1), Lookup::Missing);
    assert_eq!(lookup_code(2), Lookup::Failed);
    assert_eq!(lookup_code(-1), Lookup::Failed);
}

#[test]
fn store_fill_codes() {
    assert_eq!(store_fill_code(0), Fill::Written);
    assert_eq!(store_fill_code(1), Fill::Missing);
    assert_eq!(store_fill_code(2), Fill::TooSmall);
    assert_eq!(store_fill_code(3), Fill::Failed);
    assert_eq!(store_fill_code(-1), Fill::Failed);
}

#[test]
fn encoder_fill_codes() {
    assert_eq!(encoder_fill_code(0), Fill::Written);
    assert_eq!(encoder_fill_code(1), Fill::Failed);
    assert_eq!(encoder_fill_code(2), Fill::TooSmall);
    assert_eq!(encoder_fill_code(-1), Fill::Failed);
}

#[test]
fn verify_codes() {
    assert_eq!(verify_code(-1), None);
    assert_eq!(verify_code(0), Some(true));
    assert_eq!(verify_code(1), Some(false));
    assert_eq!(verify_code(-2), Some(false));
}

#[test]
fn fixup_codes() {
    assert_eq!(fixup_code(1), Some(true));
    assert_eq!(fixup_code(0), Some(false));
    assert_eq!(fixup_code(-1), None);
    assert_eq!(fixup_code(2), None);
}

#[test]
fn relation_slots() {
    assert_eq!(relation_slot(-1), None);
    assert_eq!(relation_slot(i32::MIN), None);
    assert_eq!(relation_slot(0), Some(0));
    assert_eq!(relation_slot(17), Some(17));
    assert_eq!(relation_slot(65535), Some(65535));
    assert_eq!(relation_slot(65536), Some(0));
    assert_eq!(relation_slot(70000), Some(70000i32 as u16));
    assert_eq!(relation_slot(i32::MAX), Some(i32::MAX as u16));
}

#[test]
fn subscription_ids() {
    assert_eq!(subscription_id(0), None);
    assert_eq!(subscription_id(1), Some(1));
    assert_eq!(subscription_id(u64::MAX), Some(u64::MAX));
}

#[test]
fn id_list_from_json_array() {
    let ids = ids_from_reply(Some("[\"f-1\",\"f-2\",\"f-3\"]".to_string()));
    assert_eq!(ids, vec!["f-1".to_string(), "f-2".to_string(), "f-3".to_string()]);
}

#[test]
fn id_list_from_empty_array() {
    assert!(ids_from_reply(Some("[]".to_string())).is_empty());
}

#[test]
fn id_list_without_reply_is_empty() {
    assert!(ids_from_reply(None).is_empty());
}

#[test]
fn id_list_from_malformed_reply_is_empty() {
    assert!(ids_from_reply(Some("not json".to_string())).is_empty());
    assert!(ids_from_reply(Some("[1, 2]".to_string())).is_empty());
    assert!(ids_from_reply(Some("{\"a\": \"b\"}".to_string())).is_empty());
}

#[test]
fn id_list_unescapes_strings() {
    let ids = ids_from_reply(Some(" [ \"a\\\"b\" , \"\\u00e9\" ] ".to_string()));
    assert_eq!(ids, vec!["a\"b".to_string(), "\u{e9}".to_string()]);
}

#[test]
fn frame_records_give_their_ids_in_order() {
    let reply = "[{\"id\":\"root\",\"parent_id\":null,\"status\":0},{\"id\":\"child\",\"parent_id\":\"root\"}]";
    assert_eq!(
        frame_record_ids(Some(reply.to_string())),
        vec!["root".to_string(), "child".to_string()]
    );
}

#[test]
fn frame_records_without_reply_are_empty() {
    assert!(frame_record_ids(None).is_empty());
    assert!(frame_record_ids(Some("[]".to_string())).is_empty());
    assert!(frame_record_ids(Some("not json".to_string())).is_empty());
    assert!(frame_record_ids(Some("{\"id\":\"x\"}".to_string())).is_empty());
}

#[test]
fn frame_records_accept_plain_ids() {
    let reply = "[\"a\",{\"id\":\"b\"},\"c\"]";
    assert_eq!(
        frame_record_ids(Some(reply.to_string())),
        vec!["a".to_string(), "b".to_string(), "c".to_string()]
    );
}

#[test]
fn frame_records_without_an_id_are_passed_over() {
    let reply = "[{\"id\":\"a\"},{\"parent_id\":\"a\"},{\"id\":7},3,{\"id\":\"b\"}]";
    assert_eq!(
        frame_record_ids(Some(reply.to_string())),
        vec!["a".to_string(), "b".to_string()]
    );
}

#[test]
fn failure_records_give_their_frame_ids() {
    let reply = "[{\"frame_id\":\"f3\",\"reason\":\"watermark mismatch\"},{\"frame_id\":\"f8\",\"reason\":\"bad parent\"}]";
    assert_eq!(
        failure_record_ids(Some(reply.to_string())),
        vec!["f3".to_string(), "f8".to_string()]
    );
}

#[test]
fn failure_records_without_list_are_empty() {
    assert!(failure_record_ids(None).is_empty());
    assert!(failure_record_ids(Some("[{\"id\":\"f1\"}]".to_string())).is_empty());
}
