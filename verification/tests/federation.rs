use seraph::federation::{federated_records, routed_stores};

#[test]
fn routed_stores_in_reply_order() {
    let r = routed_stores("[{\"store\":\"alpha\",\"score\":0.9},{\"store\":\"beta\",\"score\":0.4}]");
    assert_eq!(r.len(), 2);
    assert_eq!(r[0].store, "alpha");
    assert_eq!(r[0].score.as_f64(), Some(0.9));
    assert_eq!(r[1].store, "beta");
    assert_eq!(r[1].score.as_f64(), Some(0.4));
}

#[test]
fn routed_store_missing_fields_default() {
    let r = routed_stores("[{\"score\":1}, {\"store\": 5}, 3]");
    assert_eq!(r.len(), 3);
    assert_eq!(r[0].store, "");
    assert_eq!(r[0].score.as_f64(), Some(1.0));
    assert_eq!(r[1].store, "");
    assert!(r[1].score.is_null());
    assert_eq!(r[2].store, "");
    assert!(r[2].score.is_null());
}

#[test]
fn routed_stores_of_bad_reply_is_empty() {
    assert!(routed_stores("not json").is_empty());
    assert!(routed_stores("{\"store\":\"a\"}").is_empty());
    assert!(routed_stores("[]").is_empty());
}

#[test]
fn federated_record_fields() {
    let r = federated_records(
        "[{\"store\":\"s1\",\"frame_id\":\"f9\",\"score\":0.75,\"confidence\":0.5,\"path_length\":3,\"snippet\":\"the cat\"}]",
    );
    assert_eq!(r.len(), 1);
    assert_eq!(r[0].store, "s1");
    assert_eq!(r[0].frame_id, "f9");
    assert_eq!(r[0].score.as_f64(), Some(0.75));
    assert_eq!(r[0].confidence.as_f64(), Some(0.5));
    assert_eq!(r[0].path_length, 3);
    assert_eq!(r[0].snippet, "the cat");
}

#[test]
fn federated_record_defaults() {
    let r = federated_records("[{}]");
    assert_eq!(r.len(), 1);
    assert_eq!(r[0].store, "");
    assert_eq!(r[0].frame_id, "");
    assert!(r[0].score.is_null());
    assert!(r[0].confidence.is_null());
    assert_eq!(r[0].path_length, 0);
    assert_eq!(r[0].snippet, "");
}

#[test]
fn federated_path_length_is_cut_to_32_bits() {
    let r = federated_records("[{\"path_length\":4294967301},{\"path_length\":-2},{\"path_length\":1.5}]");
    assert_eq!(r[0].path_length, 5);
    assert_eq!(r[0].path_length, 4294967301u64 as u32);
    assert_eq!(r[1].path_length, 0);
    assert_eq!(r[2].path_length, 0);
}

#[test]
fn federated_records_of_bad_reply_is_empty() {
    assert!(federated_records("").is_empty());
    assert!(federated_records("null").is_empty());
}
