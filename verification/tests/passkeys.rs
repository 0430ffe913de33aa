//! The passkey registration ceremony against the real ceremony primitive
//! and an in-memory SQLite database.

use libsql_client::SyncClient;
use lochstep::controllers::auth::passkey_auth::{
    finish_registration, issue, judged_of, start_registration, Completion, Enrollment, Issued,
};
use lochstep::models::keys::add_key;
use lochstep::controllers::auth::Session;
use lochstep::errors::Errors;
use lochstep::models::keys::{describe_passkey, describe_record, PublicKeyCredential};
use lochstep::models::migrations::{migrate_db, shipped_migrations};
use lochstep::models::store::{Progress, Row, Statement, StoreReply, Value};
use lochstep::models::users::{create_user_with_password, User, UserId};
use lochstep::state::{init_webauthn, relying_party_origin, RP_ID};
use webauthn_rs::prelude::{
    Base64UrlSafeData, CreationChallengeResponse, RegisterPublicKeyCredential, WebauthnError,
};
use webauthn_rs::Webauthn;

/// An attestation object of format `none` for the relying party of this
/// service: user present, counter 0, credential id 1..=32, and the base
/// point of P-256 as the public key.
const ATTESTATION: &str = "o2NmbXRkbm9uZWdhdHRTdG10oGhhdXRoRGF0YVikotENNFmayTNv24yyLIVlgX2gGsWlm_VnHI2FbYPDRytBAAAAAAAAAAAAAAAAAAAAAAAAAAAAIAECAwQFBgcICQoLDA0ODxAREhMUFRYXGBkaGxwdHh8gpQECAyYgASFYIGsX0fLhLEJH-Lzm5WOkQPJ3A32BLeszoPShOUXYmMKWIlggT-NC4v4af5uO5-tKfA-eFivOM1drMV7Oy7ZAaDe_UfU";

const CREDENTIAL_ID: &str = "AQIDBAUGBwgJCgsMDQ4PEBESExQVFhcYGRobHB0eHyA";

fn to_sql(value: &Value) -> libsql_client::Value {
    match value {
        Value::Null => libsql_client::Value::Null,
        Value::Integer(n) => libsql_client::Value::Integer { value: *n },
        Value::Text(s) => libsql_client::Value::Text { value: s.clone() },
        Value::Other => libsql_client::Value::Null,
    }
}

fn from_sql(value: &libsql_client::Value) -> Value {
    match value {
        libsql_client::Value::Null => Value::Null,
        libsql_client::Value::Integer { value } => Value::Integer(*value),
        libsql_client::Value::Text { value } => Value::Text(value.clone()),
        libsql_client::Value::Float { .. } => Value::Other,
        libsql_client::Value::Blob { .. } => Value::Other,
    }
}

fn execute(client: &SyncClient, statement: &Statement) -> StoreReply {
    let args: Vec<libsql_client::Value> = statement.args().iter().map(to_sql).collect();
    match client.execute(libsql_client::Statement::with_args(statement.sql(), &args[..])) {
        Ok(result) => StoreReply::Rows(
            result
                .rows
                .iter()
                .map(|row| Row { values: row.values.iter().map(from_sql).collect() })
                .collect(),
        ),
        Err(e) => StoreReply::failure(&e.to_string()),
    }
}

fn migrated() -> SyncClient {
    let client = SyncClient::in_memory().unwrap();
    let mut progress = migrate_db(shipped_migrations());
    loop {
        match progress {
            Progress::Done(result) => {
                assert_eq!(result, Ok(4));
                return client;
            }
            Progress::Next(state, statement) => {
                progress = state.resume(execute(&client, &statement));
            }
        }
    }
}

fn webauthn() -> Webauthn {
    init_webauthn("8080").unwrap()
}

fn start(
    client: &SyncClient,
    webauthn: &Webauthn,
    session: &mut Session,
    username: &str,
) -> Result<Issued, Errors> {
    let mut progress: Progress<Enrollment, Issued> = start_registration(username);
    loop {
        match progress {
            Progress::Done(result) => return result,
            Progress::Next(state, statement) => {
                progress = state.resume(execute(client, &statement), webauthn, session);
            }
        }
    }
}

fn finish(
    client: &SyncClient,
    webauthn: &Webauthn,
    session: &mut Session,
    response: &RegisterPublicKeyCredential,
) -> Result<PublicKeyCredential, Errors> {
    let mut progress: Progress<Completion, PublicKeyCredential> =
        finish_registration(webauthn, session, response);
    loop {
        match progress {
            Progress::Done(result) => return result,
            Progress::Next(state, statement) => {
                progress = state.resume(execute(client, &statement));
            }
        }
    }
}

fn response_with(challenge: &str, origin: &str, kind: &str) -> RegisterPublicKeyCredential {
    let client_data = format!(
        "{{\"type\":\"{}\",\"challenge\":\"{}\",\"origin\":\"{}\",\"crossOrigin\":false}}",
        kind, challenge, origin
    );
    let encoded = Base64UrlSafeData(client_data.into_bytes()).to_string();
    let json = format!(
        "{{\"id\":\"{}\",\"rawId\":\"{}\",\"type\":\"public-key\",\"response\":{{\"attestationObject\":\"{}\",\"clientDataJSON\":\"{}\"}}}}",
        CREDENTIAL_ID, CREDENTIAL_ID, ATTESTATION, encoded
    );
    serde_json::from_str(&json).unwrap()
}

fn valid_response_for(challenge: &CreationChallengeResponse) -> RegisterPublicKeyCredential {
    response_with(
        &challenge.public_key.challenge.to_string(),
        &relying_party_origin(RP_ID, "8080"),
        "webauthn.create",
    )
}

fn stored_keys(client: &SyncClient) -> Vec<(Value, Value)> {
    let result = client.execute("SELECT userid, key FROM keys;").unwrap();
    result.rows.iter().map(|r| (from_sql(&r.values[0]), from_sql(&r.values[1]))).collect()
}

fn id_text(id: UserId) -> String {
    uuid::Uuid::from_u128(id.value).hyphenated().to_string()
}

#[test]
fn passkey_scenario() {
    let client = migrated();
    let webauthn = webauthn();
    let mut session = Session::new();

    let issued = start(&client, &webauthn, &mut session, "bob").unwrap();
    let b = issued.user_id;
    // The challenge names the user it is for, and the relying party of this service.
    let options = &issued.challenge.public_key;
    assert_eq!(options.user.id.0, uuid::Uuid::from_u128(b.value).as_bytes().to_vec());
    assert_eq!(options.user.name, "bob");
    assert_eq!(options.user.display_name, "bob");
    assert!(options.exclude_credentials.is_none());
    assert_eq!(options.rp.id, "lochstep.mcarthur.in");
    assert_eq!(options.rp.name, "Axum Webauthn-rs");
    let pending = session.registration.as_ref().unwrap();
    assert_eq!(pending.user_id, b);
    assert_eq!(pending.username, "bob");
    assert_eq!(
        execute(&client, &Statement::SelectId { username: "bob".to_string() }),
        StoreReply::Rows(vec![Row { values: vec![Value::Text(id_text(b))] }])
    );

    let response = valid_response_for(&issued.challenge);
    let credential = finish(&client, &webauthn, &mut session, &response).unwrap();
    assert_eq!(credential.credential_id, (1u8..=32).collect::<Vec<u8>>());
    assert_eq!(credential.signature_counter, 0);
    assert!(!credential.public_key.is_empty());
    assert!(session.registration.is_none());

    let keys = stored_keys(&client);
    assert_eq!(keys.len(), 1);
    assert_eq!(keys[0].0, Value::Text(id_text(b)));
    match &keys[0].1 {
        Value::Text(record) => {
            let passkey: webauthn_rs::prelude::Passkey = serde_json::from_str(record).unwrap();
            assert_eq!(passkey.cred_id().0, credential.credential_id);
            // The credential reported is the one that the stored record denotes.
            assert_eq!(
                describe_record(Ok(record.clone())),
                (Some(credential.clone()), Some(record.clone()))
            );
            assert_eq!(PublicKeyCredential::from_record(record), Some(credential.clone()));
            let key = String::from_utf8(credential.public_key.clone()).unwrap();
            assert!(key.contains("EC_EC2") || key.contains("SECP256R1"), "key {}", key);
            assert_eq!(
                describe_passkey(&passkey),
                (Some(credential.clone()), Some(record.clone()))
            );
            // The same passkey, judged as accepted for another user.
            let other = UserId { value: 9 };
            let expected = Statement::InsertKey {
                user_id: "00000000-0000-0000-0000-000000000009".to_string(),
                key: record.clone(),
            };
            assert_eq!(add_key(other, &passkey), Ok(expected.clone()));
            assert_eq!(
                judged_of(other, Ok(passkey)),
                Progress::Next(Completion { credential: credential.clone() }, expected)
            );
        }
        other => panic!("key record is {:?}", other),
    }

    assert_eq!(
        finish(&client, &webauthn, &mut session, &response),
        Err(Errors::ChallengeNotFound)
    );
    assert_eq!(stored_keys(&client).len(), 1);
}

#[test]
fn start_for_an_empty_username_is_refused_by_the_primitive() {
    let client = migrated();
    let webauthn = webauthn();
    let mut session = Session::new();
    assert_eq!(
        start(&client, &webauthn, &mut session, "").map(|i| i.user_id),
        Err(Errors::RegistrationVerificationFailed)
    );
    assert!(session.registration.is_none());
    // A pending ceremony survives a refused start.
    let issued = start(&client, &webauthn, &mut session, "bob").unwrap();
    assert!(start(&client, &webauthn, &mut session, "").is_err());
    assert_eq!(session.registration.as_ref().unwrap().user_id, issued.user_id);
}

#[test]
fn the_primitive_is_the_one_of_this_service() {
    let webauthn = init_webauthn("3000").unwrap();
    let origins: Vec<String> =
        webauthn.get_allowed_origins().iter().map(|o| o.to_string()).collect();
    assert_eq!(origins, vec!["https://lochstep.mcarthur.in:3000/".to_string()]);
    let (challenge, _) = webauthn
        .start_passkey_registration(uuid::Uuid::from_u128(1), "u", "u", None)
        .unwrap();
    assert_eq!(challenge.public_key.rp.id, RP_ID);
    assert_eq!(challenge.public_key.rp.name, "Axum Webauthn-rs");
}

#[test]
fn credentials_are_made_of_the_parts_of_a_passkey() {
    assert_eq!(
        PublicKeyCredential::from_parts((vec![1, 2], 7, Some(vec![3]))),
        Some(PublicKeyCredential {
            credential_id: vec![1, 2],
            public_key: vec![3],
            signature_counter: 7,
        })
    );
    assert_eq!(PublicKeyCredential::from_parts((vec![1, 2], 7, None)), None);
    assert_eq!(PublicKeyCredential::from_record("not json"), None);
    assert_eq!(PublicKeyCredential::from_record(""), None);
}

#[test]
fn a_record_that_is_no_passkey_denotes_no_credential() {
    assert_eq!(describe_record(Ok("not json".to_string())), (None, Some("not json".to_string())));
    assert_eq!(describe_record(Ok("{}".to_string())), (None, Some("{}".to_string())));
    assert_eq!(describe_record(Ok(String::new())), (None, Some(String::new())));
    let unwritten = serde_json::from_str::<u8>("x").unwrap_err();
    assert_eq!(describe_record(Err(unwritten)), (None, None));
}

#[test]
fn finish_without_a_start_finds_no_challenge() {
    let client = migrated();
    let webauthn = webauthn();
    let mut session = Session::new();
    let response = response_with("AAAA", "https://lochstep.mcarthur.in:8080", "webauthn.create");
    assert_eq!(
        finish(&client, &webauthn, &mut session, &response),
        Err(Errors::ChallengeNotFound)
    );
    assert!(stored_keys(&client).is_empty());
}

#[test]
fn second_start_invalidates_the_first_challenge() {
    let client = migrated();
    let webauthn = webauthn();
    let mut session = Session::new();

    let first = start(&client, &webauthn, &mut session, "bob").unwrap();
    let second = start(&client, &webauthn, &mut session, "bob").unwrap();
    assert_eq!(first.user_id, second.user_id);
    assert_ne!(
        first.challenge.public_key.challenge.to_string(),
        second.challenge.public_key.challenge.to_string()
    );

    let stale = valid_response_for(&first.challenge);
    assert_eq!(
        finish(&client, &webauthn, &mut session, &stale),
        Err(Errors::RegistrationVerificationFailed)
    );
    assert!(session.registration.is_none());
    assert!(stored_keys(&client).is_empty());

    // The failed finish used the challenge up: even the right response is late.
    let late = valid_response_for(&second.challenge);
    assert_eq!(
        finish(&client, &webauthn, &mut session, &late),
        Err(Errors::ChallengeNotFound)
    );
}

#[test]
fn second_start_is_the_one_that_can_be_finished() {
    let client = migrated();
    let webauthn = webauthn();
    let mut session = Session::new();
    let _first = start(&client, &webauthn, &mut session, "bob").unwrap();
    let second = start(&client, &webauthn, &mut session, "bob").unwrap();
    let response = valid_response_for(&second.challenge);
    assert!(finish(&client, &webauthn, &mut session, &response).is_ok());
    assert_eq!(stored_keys(&client).len(), 1);
}

#[test]
fn refused_response_uses_the_challenge_up() {
    let client = migrated();
    let webauthn = webauthn();
    let mut session = Session::new();
    let issued = start(&client, &webauthn, &mut session, "bob").unwrap();
    let challenge = issued.challenge.public_key.challenge.to_string();

    let wrong_origin = response_with(&challenge, "https://evil.example:8080", "webauthn.create");
    assert_eq!(
        finish(&client, &webauthn, &mut session, &wrong_origin),
        Err(Errors::RegistrationVerificationFailed)
    );
    assert!(session.registration.is_none());
    let right = valid_response_for(&issued.challenge);
    assert_eq!(finish(&client, &webauthn, &mut session, &right), Err(Errors::ChallengeNotFound));

    let issued = start(&client, &webauthn, &mut session, "bob").unwrap();
    let challenge = issued.challenge.public_key.challenge.to_string();
    let wrong_kind = response_with(
        &challenge,
        "https://lochstep.mcarthur.in:8080",
        "webauthn.get",
    );
    assert_eq!(
        finish(&client, &webauthn, &mut session, &wrong_kind),
        Err(Errors::RegistrationVerificationFailed)
    );
    assert!(stored_keys(&client).is_empty());
}

#[test]
fn start_reuses_the_user_of_a_password_registration() {
    let client = migrated();
    let webauthn = webauthn();
    let mut progress = create_user_with_password("alice", "secret123");
    let a = loop {
        match progress {
            Progress::Done(result) => break result.unwrap(),
            Progress::Next(state, statement) => {
                progress = state.resume(execute(&client, &statement));
            }
        }
    };
    let mut session = Session::new();
    let issued = start(&client, &webauthn, &mut session, "alice").unwrap();
    assert_eq!(issued.user_id, a);
    match execute(&client, &Statement::SelectId { username: "alice".to_string() }) {
        StoreReply::Rows(rows) => assert_eq!(rows.len(), 1),
        other => panic!("unexpected {:?}", other),
    }
}

#[test]
fn start_fails_on_a_store_that_fails() {
    let client = SyncClient::in_memory().unwrap();
    let webauthn = webauthn();
    let mut session = Session::new();
    assert_eq!(
        start(&client, &webauthn, &mut session, "bob").map(|i| i.user_id),
        Err(Errors::StorageError)
    );
    assert!(session.registration.is_none());
}

#[test]
fn sessions_do_not_share_challenges() {
    let client = migrated();
    let webauthn = webauthn();
    let mut one = Session::new();
    let mut two = Session::new();
    let issued = start(&client, &webauthn, &mut one, "bob").unwrap();
    let response = valid_response_for(&issued.challenge);
    assert_eq!(finish(&client, &webauthn, &mut two, &response), Err(Errors::ChallengeNotFound));
    assert!(one.registration.is_some());
    assert!(finish(&client, &webauthn, &mut one, &response).is_ok());
}

#[test]
fn refusal_of_the_primitive_leaves_the_session_alone() {
    let webauthn = webauthn();
    let mut session = Session::new();
    let user = User { id: UserId { value: 7 }, username: "bob".to_string() };
    let refused = issue(&mut session, user, Err(WebauthnError::Configuration));
    assert_eq!(refused.map(|i| i.user_id), Err(Errors::RegistrationVerificationFailed));
    assert!(session.registration.is_none());

    let user = User { id: UserId { value: 7 }, username: "bob".to_string() };
    let outcome = webauthn.start_passkey_registration(
        uuid::Uuid::from_u128(7),
        "bob",
        "bob",
        None,
    );
    let issued = issue(&mut session, user, outcome).unwrap();
    assert_eq!(issued.user_id, UserId { value: 7 });
    assert_eq!(session.registration.as_ref().unwrap().username, "bob");

    let user = User { id: UserId { value: 8 }, username: "eve".to_string() };
    let refused = issue(&mut session, user, Err(WebauthnError::Configuration));
    assert!(refused.is_err());
    assert_eq!(session.registration.as_ref().unwrap().user_id, UserId { value: 7 });
}
