use remotefs::credentials::{
    decode_credentials, deprecated_aliases, resolve_credentials, CredentialWarning,
};

fn no_values() -> Vec<Option<String>> {
    vec![None, None, None, None, None, None, None, None]
}

#[test]
fn decode_credentials_valid() {
    // "c2VjcmV0" is the standard base64 encoding of "secret".
    assert_eq!(decode_credentials("c2VjcmV0").as_deref(), Some("secret"));
}

#[test]
fn decode_credentials_rejects_bad_base64() {
    assert!(decode_credentials("!!!").is_none());
}

#[test]
fn decode_credentials_rejects_bad_utf8() {
    // "/w==" decodes to the single byte 0xFF, which is not valid UTF-8.
    assert!(decode_credentials("/w==").is_none());
}

#[test]
fn deprecated_aliases_order() {
    let aliases = deprecated_aliases();
    let names: Vec<&str> = aliases.iter().map(|a| a.name.as_str()).collect();
    assert_eq!(
        names,
        vec![
            "CUBESTORE_GCP_SERVICE_ACCOUNT",
            "SERVICE_ACCOUNT",
            "CUBESTORE_GCP_GOOGLE_APPLICATION_CREDENTIALS",
            "GOOGLE_APPLICATION_CREDENTIALS",
            "CUBESTORE_GCP_SERVICE_ACCOUNT_JSON",
            "SERVICE_ACCOUNT_JSON",
            "CUBESTORE_GCP_GOOGLE_APPLICATION_CREDENTIALS_JSON",
            "GOOGLE_APPLICATION_CREDENTIALS_JSON",
        ]
    );
    let categories: Vec<bool> = aliases.iter().map(|a| a.is_path).collect();
    assert_eq!(categories, vec![true, true, true, true, false, false, false, false]);
}

#[test]
fn credential_precedence_conflict() {
    // Both the prefixed canonical name and a bare deprecated alias are set to
    // different values: the first-declared one wins and a conflict is logged.
    let aliases = deprecated_aliases();
    let mut values = no_values();
    values[1] = Some("/etc/deprecated.json".to_string());
    let r = resolve_credentials(
        None,
        Some("/etc/canonical.json".to_string()),
        &aliases,
        &values,
    );
    assert_eq!(r.key_file.as_deref(), Some("/etc/canonical.json"));
    assert_eq!(r.warnings.len(), 1);
    match &r.warnings[0] {
        CredentialWarning::Conflict { name, prev_name } => {
            assert_eq!(name, "SERVICE_ACCOUNT");
            assert_eq!(prev_name, "CUBESTORE_GCP_KEY_FILE");
        }
        _ => panic!("expected a conflict warning"),
    }
}

#[test]
fn deprecated_alias_adopted_with_warning() {
    let aliases = deprecated_aliases();
    let mut values = no_values();
    values[5] = Some("{\"k\":1}".to_string());
    let r = resolve_credentials(None, None, &aliases, &values);
    assert_eq!(r.credentials_json.as_deref(), Some("{\"k\":1}"));
    assert!(r.key_file.is_none());
    assert_eq!(r.warnings.len(), 1);
    match &r.warnings[0] {
        CredentialWarning::Deprecated { name, canonical } => {
            assert_eq!(name, "SERVICE_ACCOUNT_JSON");
            assert_eq!(canonical, "CUBESTORE_GCP_CREDENTIALS");
        }
        _ => panic!("expected a deprecation warning"),
    }
}

#[test]
fn canonical_json_is_decoded() {
    // "eyJrIjoxfQ==" is the standard base64 encoding of "{\"k\":1}".
    let aliases = deprecated_aliases();
    let values = no_values();
    let r = resolve_credentials(Some("eyJrIjoxfQ==".to_string()), None, &aliases, &values);
    assert_eq!(r.credentials_json.as_deref(), Some("{\"k\":1}"));
    assert!(r.warnings.is_empty());
}

#[test]
fn canonical_json_decode_failure_falls_back_to_alias() {
    // The canonical value fails to decode: it is warned about and treated as
    // absent, so a deprecated alias may still fill the slot — with its raw,
    // undecoded value.
    let aliases = deprecated_aliases();
    let mut values = no_values();
    values[7] = Some("raw-json".to_string());
    let r = resolve_credentials(Some("!!!".to_string()), None, &aliases, &values);
    assert_eq!(r.credentials_json.as_deref(), Some("raw-json"));
    assert_eq!(r.warnings.len(), 2);
    match &r.warnings[0] {
        CredentialWarning::DecodeFailure { name } => {
            assert_eq!(name, "CUBESTORE_GCP_CREDENTIALS");
        }
        _ => panic!("expected a decode-failure warning first"),
    }
    match &r.warnings[1] {
        CredentialWarning::Deprecated { name, .. } => {
            assert_eq!(name, "GOOGLE_APPLICATION_CREDENTIALS_JSON");
        }
        _ => panic!("expected a deprecation warning second"),
    }
}

#[test]
fn agreeing_alias_is_silent() {
    let aliases = deprecated_aliases();
    let mut values = no_values();
    values[1] = Some("/etc/same.json".to_string());
    let r = resolve_credentials(None, Some("/etc/same.json".to_string()), &aliases, &values);
    assert_eq!(r.key_file.as_deref(), Some("/etc/same.json"));
    assert!(r.warnings.is_empty());
}

#[test]
fn first_deprecated_alias_wins_over_later_one() {
    let aliases = deprecated_aliases();
    let mut values = no_values();
    values[0] = Some("/etc/first.json".to_string());
    values[3] = Some("/etc/later.json".to_string());
    let r = resolve_credentials(None, None, &aliases, &values);
    assert_eq!(r.key_file.as_deref(), Some("/etc/first.json"));
    assert_eq!(r.warnings.len(), 2);
    match &r.warnings[1] {
        CredentialWarning::Conflict { name, prev_name } => {
            assert_eq!(name, "GOOGLE_APPLICATION_CREDENTIALS");
            assert_eq!(prev_name, "CUBESTORE_GCP_SERVICE_ACCOUNT");
        }
        _ => panic!("expected a conflict warning"),
    }
}
