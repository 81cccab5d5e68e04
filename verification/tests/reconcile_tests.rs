use porkbun_ddns::reconcile::{
    decide_after_fetch, decide_after_update, FetchDecision, Outcome,
};
use porkbun_ddns::types::{ApiError, Credentials, DnsRecord};

fn creds() -> Credentials {
    Credentials {
        api_key: "pk_test".to_string(),
        secret_api_key: "sk_test".to_string(),
    }
}

fn a_record(content: &str, id: &str) -> DnsRecord {
    DnsRecord {
        record_type: "A".to_string(),
        name: "www.example.com".to_string(),
        content: content.to_string(),
        ttl: "600".to_string(),
        id: id.to_string(),
    }
}

#[test]
fn matching_content_needs_no_change() {
    let d = decide_after_fetch(
        &creds(),
        "www",
        "1.2.3.4",
        Ok(Some(a_record("1.2.3.4", "rec123"))),
    );
    assert!(matches!(
        d,
        FetchDecision::Finished(Outcome::NoChangeNeeded)
    ));
}

#[test]
fn drifted_content_needs_one_update_with_id_and_ttl() {
    let d = decide_after_fetch(
        &creds(),
        "www",
        "5.6.7.8",
        Ok(Some(a_record("1.2.3.4", "rec123"))),
    );
    match d {
        FetchDecision::NeedsUpdate { record_id, payload } => {
            assert_eq!(record_id, "rec123");
            assert_eq!(payload.content, "5.6.7.8");
            assert_eq!(payload.name, "www");
            assert_eq!(payload.record_type, "A");
            assert_eq!(payload.ttl, 600);
        }
        FetchDecision::Finished(_) => panic!("expected an update"),
    }
    let outcome = decide_after_update(Ok(()));
    assert!(matches!(outcome, Outcome::Updated));
}

#[test]
fn missing_record_is_skipped_whatever_the_ip() {
    let d = decide_after_fetch(&creds(), "www", "5.6.7.8", Ok(None));
    assert!(matches!(
        d,
        FetchDecision::Finished(Outcome::SkippedNoRecord)
    ));
    let d = decide_after_fetch(&creds(), "www", "1.2.3.4", Ok(None));
    assert!(matches!(
        d,
        FetchDecision::Finished(Outcome::SkippedNoRecord)
    ));
}

#[test]
fn failed_fetch_stops_before_any_update() {
    let d = decide_after_fetch(
        &creds(),
        "www",
        "5.6.7.8",
        Err(ApiError::Provider {
            message: "Invalid API key".to_string(),
        }),
    );
    match d {
        FetchDecision::Finished(Outcome::ReadFailed(ApiError::Provider { message })) => {
            assert_eq!(message, "Invalid API key");
        }
        _ => panic!("expected a read failure"),
    }
}

#[test]
fn failed_transport_is_a_read_failure_too() {
    let d = decide_after_fetch(
        &creds(),
        "www",
        "5.6.7.8",
        Err(ApiError::Network {
            message: "connection refused".to_string(),
        }),
    );
    match d {
        FetchDecision::Finished(Outcome::ReadFailed(ApiError::Network { message })) => {
            assert_eq!(message, "connection refused");
        }
        _ => panic!("expected a read failure"),
    }
}

#[test]
fn failed_update_is_reported_as_update_failure() {
    let outcome = decide_after_update(Err(ApiError::Provider {
        message: "Edit error".to_string(),
    }));
    match outcome {
        Outcome::UpdateFailed(ApiError::Provider { message }) => {
            assert_eq!(message, "Edit error");
        }
        _ => panic!("expected an update failure"),
    }
}
