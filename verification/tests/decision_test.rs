use argon2::{Argon2, PasswordHasher};

use mini_tiktok_auth::auth_service::{issue_decision, issue_write_outcome, IssueDecision};
use mini_tiktok_auth::protocol::{
    authenticate_outcome, AuthResponse, CacheFailure, ServiceError, StatusCode, StoreFailure,
};
use mini_tiktok_auth::records::{
    extract_credentials, transform_records, transform_result, CredentialLookup, DbMessage,
    DbRecord, DbValue,
};

fn hash_of(password: &str) -> String {
    Argon2::default()
        .hash_password(password.as_bytes())
        .unwrap()
        .to_string()
}

#[test]
fn transform_result_outcomes() {
    assert!(matches!(transform_result(Ok(DbMessage::Success)), Ok(())));
    assert!(matches!(
        transform_result(Ok(DbMessage::Other)),
        Err(ServiceError::Unavailable)
    ));
    assert!(matches!(
        transform_result(Err(StoreFailure)),
        Err(ServiceError::Unavailable)
    ));
}

#[test]
fn transform_records_outcomes() {
    let records = vec![DbRecord {
        fields: vec![DbValue::Text("h".to_string()), DbValue::Integer(7)],
    }];
    let passed = transform_records(Ok((records, DbMessage::Success))).unwrap();
    assert_eq!(passed.len(), 1);
    assert!(matches!(passed[0].fields[1], DbValue::Integer(7)));

    assert!(matches!(
        transform_records(Ok((Vec::new(), DbMessage::Other))),
        Err(ServiceError::Unavailable)
    ));
    assert!(matches!(
        transform_records(Err(StoreFailure)),
        Err(ServiceError::Unavailable)
    ));
}

#[test]
fn extract_credentials_cases() {
    let no_records: Vec<DbRecord> = Vec::new();
    assert!(matches!(
        extract_credentials(&no_records),
        CredentialLookup::NoUser
    ));

    let good = vec![DbRecord {
        fields: vec![DbValue::Text("stored-hash".to_string()), DbValue::Integer(42)],
    }];
    match extract_credentials(&good) {
        CredentialLookup::Found { user_id, password_hash } => {
            assert_eq!(user_id, 42);
            assert_eq!(password_hash, "stored-hash");
        }
        other => panic!("unexpected lookup {:?}", other),
    }

    let short = vec![DbRecord { fields: vec![DbValue::Text("h".to_string())] }];
    assert!(matches!(extract_credentials(&short), CredentialLookup::Corrupt));

    let mistyped = vec![DbRecord {
        fields: vec![DbValue::Integer(1), DbValue::Integer(2)],
    }];
    assert!(matches!(extract_credentials(&mistyped), CredentialLookup::Corrupt));

    let negative = vec![DbRecord {
        fields: vec![DbValue::Text("h".to_string()), DbValue::Integer(-1)],
    }];
    assert!(matches!(extract_credentials(&negative), CredentialLookup::Corrupt));
}

#[test]
fn issue_decision_cases() {
    let password = "correct-pw".to_string();
    let stored = hash_of("correct-pw");

    match issue_decision(
        &password,
        &CredentialLookup::Found { user_id: 42, password_hash: stored.clone() },
    ) {
        IssueDecision::Store { token, user_id } => {
            assert_eq!(user_id, 42);
            assert_eq!(token.len(), 36);
        }
        IssueDecision::Reply(_) => panic!("verified password was rejected"),
        IssueDecision::Refuse(_) => panic!("verified password was refused"),
    }

    match issue_decision(
        &"wrong-pw".to_string(),
        &CredentialLookup::Found { user_id: 42, password_hash: stored },
    ) {
        IssueDecision::Reply(resp) => {
            assert_eq!(resp.status_code, StatusCode::Fail);
            assert_eq!(resp.token, "");
            assert_eq!(resp.user_id, 0);
        }
        _ => panic!("wrong password was not rejected"),
    }

    match issue_decision(&password, &CredentialLookup::NoUser) {
        IssueDecision::Reply(resp) => {
            assert_eq!(resp.status_code, StatusCode::Fail);
            assert_eq!(resp.token, "");
            assert_eq!(resp.user_id, 0);
        }
        _ => panic!("unknown username was not rejected"),
    }

    assert!(matches!(
        issue_decision(&password, &CredentialLookup::Corrupt),
        IssueDecision::Refuse(ServiceError::Unavailable)
    ));

    match issue_decision(
        &password,
        &CredentialLookup::Found { user_id: 42, password_hash: "garbage".to_string() },
    ) {
        IssueDecision::Refuse(ServiceError::Unavailable) => {}
        _ => panic!("malformed hash was not refused"),
    }
}

#[test]
fn issue_write_outcome_cases() {
    let stored = issue_write_outcome("tok123".to_string(), 42, Ok(())).unwrap();
    assert_eq!(stored.status_code, StatusCode::Success);
    assert_eq!(stored.token, "tok123");
    assert_eq!(stored.user_id, 42);

    assert!(matches!(
        issue_write_outcome("tok123".to_string(), 42, Err(CacheFailure)),
        Err(ServiceError::Unavailable)
    ));
}

#[test]
fn authenticate_outcome_cases() {
    assert_eq!(
        authenticate_outcome(Ok(Some(7))),
        Ok(AuthResponse { status_code: StatusCode::Success, user_id: 7 })
    );
    assert_eq!(
        authenticate_outcome(Ok(None)),
        Ok(AuthResponse { status_code: StatusCode::Fail, user_id: 0 })
    );
    assert_eq!(
        authenticate_outcome(Err(CacheFailure)),
        Err(ServiceError::Unavailable)
    );
}
