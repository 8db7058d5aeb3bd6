use event_listener::application_metadata::{ApplicationMetadata, ApplicationMetadataError};

#[test]
fn metadata_with_both_fields_parses() {
    let m = ApplicationMetadata::from_bytes(
        br#"{"alias":"team-circuit","scabbard_admin_keys":["aa01","bb02"]}"#,
    )
    .unwrap();
    assert_eq!(m.alias().as_str(), "team-circuit");
    assert_eq!(
        m.scabbard_admin_keys(),
        &vec!["aa01".to_string(), "bb02".to_string()]
    );
}

#[test]
fn metadata_with_empty_key_list_parses() {
    let m = ApplicationMetadata::from_bytes(br#"{"alias":"a","scabbard_admin_keys":[]}"#).unwrap();
    assert_eq!(m.alias().as_str(), "a");
    assert!(m.scabbard_admin_keys().is_empty());
}

#[test]
fn metadata_without_alias_is_an_error() {
    let err =
        ApplicationMetadata::from_bytes(br#"{"scabbard_admin_keys":[]}"#).unwrap_err();
    let ApplicationMetadataError::UnableToParse(text) = err;
    assert_eq!(text, "missing field alias");
}

#[test]
fn metadata_with_non_string_alias_is_an_error() {
    assert!(ApplicationMetadata::from_bytes(br#"{"alias":3,"scabbard_admin_keys":[]}"#).is_err());
}

#[test]
fn metadata_without_keys_is_an_error() {
    let err = ApplicationMetadata::from_bytes(br#"{"alias":"a"}"#).unwrap_err();
    let ApplicationMetadataError::UnableToParse(text) = err;
    assert_eq!(text, "missing field scabbard_admin_keys");
}

#[test]
fn metadata_with_non_string_key_is_an_error() {
    assert!(
        ApplicationMetadata::from_bytes(br#"{"alias":"a","scabbard_admin_keys":[1]}"#).is_err()
    );
}

#[test]
fn metadata_that_is_not_json_is_an_error() {
    assert!(ApplicationMetadata::from_bytes(b"").is_err());
    assert!(ApplicationMetadata::from_bytes(b"alias").is_err());
}

#[test]
fn metadata_that_is_not_an_object_names_the_first_field() {
    let err = ApplicationMetadata::from_bytes(br#"[1,2]"#).unwrap_err();
    let ApplicationMetadataError::UnableToParse(text) = err;
    assert_eq!(text, "missing field alias");
}

#[test]
fn metadata_constructor_and_getters_agree() {
    let m = ApplicationMetadata::new("x".to_string(), vec!["k".to_string()]);
    assert_eq!(m.alias().as_str(), "x");
    assert_eq!(m.scabbard_admin_keys(), &vec!["k".to_string()]);
}
