use porkbun_ddns::provider::{
    build_fetch_payload, build_update_payload, fetch_path, full_name, interpret_fetch,
    interpret_update, select_record, update_path, ApiResponse, RetrieveResponse, RECORD_TTL,
};
use porkbun_ddns::types::{ApiError, Credentials, DnsRecord};

fn creds() -> Credentials {
    Credentials {
        api_key: "pk_test".to_string(),
        secret_api_key: "sk_test".to_string(),
    }
}

fn record(record_type: &str, name: &str, content: &str, id: &str) -> DnsRecord {
    DnsRecord {
        record_type: record_type.to_string(),
        name: name.to_string(),
        content: content.to_string(),
        ttl: "600".to_string(),
        id: id.to_string(),
    }
}

#[test]
fn full_name_joins_subdomain_and_domain() {
    assert_eq!(full_name("example.com", "www"), "www.example.com");
}

#[test]
fn full_name_of_empty_subdomain_is_bare_domain() {
    assert_eq!(full_name("example.com", ""), "example.com");
}

#[test]
fn fetch_path_is_scoped_by_domain_type_and_subdomain() {
    assert_eq!(
        fetch_path("example.com", "www"),
        "https://api.porkbun.com/api/json/v3/dns/retrieveByNameType/example.com/A/www"
    );
}

#[test]
fn update_path_is_scoped_by_domain_and_record_id() {
    assert_eq!(
        update_path("example.com", "rec123"),
        "https://api.porkbun.com/api/json/v3/dns/edit/example.com/rec123"
    );
}

#[test]
fn fetch_payload_carries_credentials_and_full_name() {
    let p = build_fetch_payload(&creds(), "example.com", "www");
    assert_eq!(p.apikey, "pk_test");
    assert_eq!(p.secretapikey, "sk_test");
    assert_eq!(p.name, "www.example.com");
}

#[test]
fn update_payload_uses_bare_subdomain_and_fixed_ttl() {
    let p = build_update_payload(&creds(), "www", "5.6.7.8");
    assert_eq!(p.apikey, "pk_test");
    assert_eq!(p.secretapikey, "sk_test");
    assert_eq!(p.name, "www");
    assert_eq!(p.record_type, "A");
    assert_eq!(p.content, "5.6.7.8");
    assert_eq!(p.ttl, 600);
    assert_eq!(RECORD_TTL, 600);
}

#[test]
fn select_record_skips_matching_name_with_other_type() {
    let records = vec![
        record("TXT", "www.example.com", "verification", "t1"),
        record("A", "www.example.com", "1.2.3.4", "a1"),
    ];
    let found = select_record(records, "www.example.com").expect("a record");
    assert_eq!(found.id, "a1");
    assert_eq!(found.content, "1.2.3.4");
}

#[test]
fn select_record_requires_exact_name() {
    let records = vec![
        record("A", "blog.example.com", "1.2.3.4", "a1"),
        record("A", "www.example.com.evil", "1.2.3.4", "a2"),
    ];
    assert!(select_record(records, "www.example.com").is_none());
}

#[test]
fn select_record_first_match_wins() {
    let records = vec![
        record("A", "www.example.com", "1.1.1.1", "first"),
        record("A", "www.example.com", "2.2.2.2", "second"),
    ];
    let found = select_record(records, "www.example.com").expect("a record");
    assert_eq!(found.id, "first");
}

#[test]
fn select_record_of_empty_list_is_none() {
    assert!(select_record(Vec::new(), "www.example.com").is_none());
}

#[test]
fn interpret_fetch_success_with_records_selects_match() {
    let resp = RetrieveResponse {
        status: "SUCCESS".to_string(),
        records: Some(vec![record("A", "www.example.com", "1.2.3.4", "a1")]),
        message: None,
    };
    let found = interpret_fetch(resp, "example.com", "www")
        .expect("no error")
        .expect("a record");
    assert_eq!(found.id, "a1");
}

#[test]
fn interpret_fetch_null_records_is_none() {
    let resp = RetrieveResponse {
        status: "SUCCESS".to_string(),
        records: None,
        message: None,
    };
    assert!(interpret_fetch(resp, "example.com", "www")
        .expect("no error")
        .is_none());
}

#[test]
fn interpret_fetch_error_status_carries_message() {
    let resp = RetrieveResponse {
        status: "ERROR".to_string(),
        records: None,
        message: Some("Invalid API key".to_string()),
    };
    match interpret_fetch(resp, "example.com", "www") {
        Err(ApiError::Provider { message }) => assert_eq!(message, "Invalid API key"),
        other => panic!("expected a provider error, got {:?}", other.is_ok()),
    }
}

#[test]
fn interpret_fetch_error_without_message_uses_fallback() {
    let resp = RetrieveResponse {
        status: "ERROR".to_string(),
        records: None,
        message: None,
    };
    match interpret_fetch(resp, "example.com", "www") {
        Err(ApiError::Provider { message }) => assert_eq!(message, "Unknown error"),
        other => panic!("expected a provider error, got {:?}", other.is_ok()),
    }
}

#[test]
fn interpret_update_success_is_ok() {
    let resp = ApiResponse {
        status: "SUCCESS".to_string(),
        message: None,
    };
    assert!(interpret_update(resp).is_ok());
}

#[test]
fn interpret_update_error_carries_message() {
    let resp = ApiResponse {
        status: "ERROR".to_string(),
        message: Some("Record does not exist".to_string()),
    };
    match interpret_update(resp) {
        Err(ApiError::Provider { message }) => assert_eq!(message, "Record does not exist"),
        other => panic!("expected a provider error, got {:?}", other),
    }
}
