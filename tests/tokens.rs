use portfolio_core::tokens::{
    apply_refresh, basic_authorization, bearer_authorization, check_loaded, encode_token_record, may_replace,
    StorageError, TokenRecord, TokenResponse,
};

fn stored() -> TokenRecord {
    TokenRecord { access_token: "acc".to_string(), refresh_token: "ref".to_string() }
}

#[test]
fn refresh_without_new_refresh_token_keeps_old_one() {
    let resp = TokenResponse { access_token: "acc2".to_string(), refresh_token: None };
    let r = apply_refresh(&stored(), Some(resp)).expect("updated record");
    assert_eq!(r.access_token, "acc2");
    assert_eq!(r.refresh_token, "ref");
}

#[test]
fn refresh_with_new_refresh_token_replaces_it() {
    let resp = TokenResponse { access_token: "acc2".to_string(), refresh_token: Some("ref2".to_string()) };
    let r = apply_refresh(&stored(), Some(resp)).expect("updated record");
    assert_eq!(r.access_token, "acc2");
    assert_eq!(r.refresh_token, "ref2");
    let empty = TokenResponse { access_token: "acc3".to_string(), refresh_token: Some(String::new()) };
    let r = apply_refresh(&stored(), Some(empty)).expect("updated record");
    assert_eq!(r.refresh_token, "ref");
}

#[test]
fn failed_or_unusable_refresh_changes_nothing() {
    assert!(apply_refresh(&stored(), None).is_none());
    let resp = TokenResponse { access_token: String::new(), refresh_token: Some("x".to_string()) };
    assert!(apply_refresh(&stored(), Some(resp)).is_none());
}

#[test]
fn loaded_record_needs_both_tokens() {
    assert!(check_loaded(stored()).is_ok());
    let bad = TokenRecord { access_token: "a".to_string(), refresh_token: String::new() };
    assert!(matches!(check_loaded(bad), Err(StorageError::Malformed)));
}

#[test]
fn authorization_headers() {
    assert_eq!(basic_authorization("id", "secret"), "Basic aWQ6c2VjcmV0");
    assert_eq!(bearer_authorization("tok"), "Bearer tok");
}

#[test]
fn token_record_encodes_as_json_object() {
    let bytes = encode_token_record(&stored());
    assert_eq!(String::from_utf8(bytes).unwrap(), r#"{"access_token":"acc","refresh_token":"ref"}"#);
}

#[test]
fn token_record_round_trips() {
    let rec = TokenRecord {
        access_token: "BQ\"x\\y".to_string(),
        refresh_token: "AQ-é/z".to_string(),
    };
    let bytes = encode_token_record(&rec);
    let v: serde_json::Value = serde_json::from_slice(&bytes).expect("valid JSON");
    let loaded = TokenRecord {
        access_token: v.get("access_token").and_then(|x| x.as_str()).unwrap().to_string(),
        refresh_token: v.get("refresh_token").and_then(|x| x.as_str()).unwrap().to_string(),
    };
    let loaded = check_loaded(loaded).ok().expect("well-formed");
    assert_eq!(loaded.access_token, rec.access_token);
    assert_eq!(loaded.refresh_token, rec.refresh_token);
}

#[test]
fn refreshed_record_replaces_only_the_one_it_started_from() {
    let newer = TokenRecord { access_token: "acc9".to_string(), refresh_token: "ref9".to_string() };
    assert!(may_replace(&stored(), &stored()));
    assert!(!may_replace(&newer, &stored()));
    let same_refresh = TokenRecord { access_token: "other".to_string(), refresh_token: "ref".to_string() };
    assert!(!may_replace(&same_refresh, &stored()));
}
