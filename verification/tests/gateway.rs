use album_maker::gateway::{
    basic_auth_header, delete_item_success, delete_signature, fetch_outcome, get_item_outcome,
    ok_status, parse_outcome, signature_hex, ApiError,
};

#[test]
fn signature_hex_known_vectors() {
    let empty: Vec<u8> = Vec::new();
    assert_eq!(
        signature_hex(&empty),
        "da39a3ee5e6b4b0d3255bfef95601890afd80709"
    );
    let abc: Vec<u8> = vec![0x61, 0x62, 0x63];
    assert_eq!(
        signature_hex(&abc),
        "a9993e364706816aba3e25717850c26c9cd0d89d"
    );
}

#[test]
fn delete_signature_matches_direct_digest() {
    let sig = delete_signature("photo-1", "1700000000", "shhh").expect("within length limit");
    let canonical = "photo-1&timestamp=1700000000shhh";
    let digest = ring::digest::digest(
        &ring::digest::SHA1_FOR_LEGACY_USE_ONLY,
        canonical.as_bytes(),
    );
    let expected = hex::encode(digest.as_ref());
    assert_eq!(sig, expected);
}

#[test]
fn delete_signature_depends_on_every_part() {
    let a = delete_signature("p", "1", "s").unwrap();
    let b = delete_signature("p", "1", "t").unwrap();
    let c = delete_signature("q", "1", "s").unwrap();
    let d = delete_signature("p", "2", "s").unwrap();
    assert_ne!(a, b);
    assert_ne!(a, c);
    assert_ne!(a, d);
    assert_eq!(a.len(), 40);
}

#[test]
fn basic_auth_header_encodes_credentials() {
    assert_eq!(basic_auth_header("a", "b"), "Basic YTpi");
    let expected = format!("Basic {}", base64::encode("user:password"));
    assert_eq!(basic_auth_header("user", "password"), expected);
}

#[test]
fn get_item_outcome_classifies_statuses() {
    assert_eq!(get_item_outcome(200), Ok(()));
    assert_eq!(get_item_outcome(403), Err(ApiError::Forbidden));
    assert_eq!(get_item_outcome(404), Err(ApiError::NotFound));
    assert_eq!(get_item_outcome(500), Err(ApiError::NotFound));
}

#[test]
fn fetch_outcome_covers_the_error_taxonomy() {
    assert_eq!(fetch_outcome(false, 200), Err(ApiError::NetworkError));
    assert_eq!(fetch_outcome(true, 200), Ok(()));
    assert_eq!(fetch_outcome(true, 403), Err(ApiError::Forbidden));
    assert_eq!(fetch_outcome(true, 418), Err(ApiError::NotFound));
}

#[test]
fn parse_outcome_flags_bad_bodies() {
    assert_eq!(parse_outcome(Some(41u32)), Ok(41u32));
    assert_eq!(
        parse_outcome::<u32>(None),
        Err(ApiError::DeserializationError)
    );
}

#[test]
fn success_statuses() {
    assert!(ok_status(200));
    assert!(!ok_status(204));
    assert!(!ok_status(403));
    assert!(delete_item_success(204));
    assert!(!delete_item_success(200));
}
