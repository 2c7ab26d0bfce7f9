use nsddns::parse_config;
use nsddns::NsddnsError;

#[test]
fn config_with_all_keys_parses() {
    let text = "{\"domain\": \"example.com\", \"subdomain\": \"sub\", \"api_key\": \"k\"}";
    let config = parse_config(text).unwrap();
    assert_eq!(config.domain, "example.com");
    assert_eq!(config.subdomain, "sub");
    assert_eq!(config.api_key, "k");
}

#[test]
fn config_with_empty_subdomain_parses() {
    let text = "{\"domain\": \"example.com\", \"subdomain\": \"\", \"api_key\": \"k\"}";
    let config = parse_config(text).unwrap();
    assert_eq!(config.subdomain, "");
}

#[test]
fn config_missing_domain_is_reported() {
    let text = "{\"subdomain\": \"sub\", \"api_key\": \"k\"}";
    match parse_config(text) {
        Err(NsddnsError::MissingKey { key }) => assert_eq!(key, "domain"),
        other => panic!("expected MissingKey, got {:?}", other),
    }
}

#[test]
fn config_missing_subdomain_is_reported() {
    let text = "{\"domain\": \"example.com\", \"api_key\": \"k\"}";
    match parse_config(text) {
        Err(NsddnsError::MissingKey { key }) => assert_eq!(key, "subdomain"),
        other => panic!("expected MissingKey, got {:?}", other),
    }
}

#[test]
fn config_missing_api_key_is_reported() {
    let text = "{\"domain\": \"example.com\", \"subdomain\": \"sub\"}";
    match parse_config(text) {
        Err(NsddnsError::MissingKey { key }) => assert_eq!(key, "api_key"),
        other => panic!("expected MissingKey, got {:?}", other),
    }
}

#[test]
fn config_non_string_key_counts_as_missing() {
    let text = "{\"domain\": 7, \"subdomain\": \"sub\", \"api_key\": \"k\"}";
    match parse_config(text) {
        Err(NsddnsError::MissingKey { key }) => assert_eq!(key, "domain"),
        other => panic!("expected MissingKey, got {:?}", other),
    }
}

#[test]
fn config_invalid_json_is_malformed_document() {
    let res = parse_config("{\"domain\": ");
    assert!(matches!(res, Err(NsddnsError::MalformedDocument)));
}
