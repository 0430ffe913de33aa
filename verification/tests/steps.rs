//! Single steps of the operations, on replies written by hand.

use lochstep::config::{same_text, Config, Stage};
use lochstep::controllers::auth::passkey_auth::{
    judged_of, start_registration, Completion, Enrollment,
};
use lochstep::controllers::auth::{login, login_failure, Login, Session};
use lochstep::errors::{handle_error, Errors, INTERNAL_SERVER_ERROR};
use lochstep::models::keys::{store_key, PublicKeyCredential};
use lochstep::models::migrations::{
    applied_count, get_latest, migrate_db, shipped_migrations, Migration,
    CREATE_MIGRATIONS_TABLE,
};
use lochstep::models::passwords::{
    generate_salt, get_hash, validate_password, PasswordCheck,
};
use lochstep::models::store::{
    chars_of, text_contains, Progress, Row, Statement, StoreReply, Value,
};
use lochstep::models::users::{
    all_users, create_user, create_user_with_password, user_exists, users_from_rows, Draw,
    Registration, User, UserId,
};
use lochstep::state::{get_app_port, init_webauthn, relying_party, relying_party_origin};
use webauthn_rs::prelude::WebauthnError;

fn text(s: &str) -> Value {
    Value::Text(s.to_string())
}

fn rows(rows: Vec<Vec<Value>>) -> StoreReply {
    StoreReply::Rows(rows.into_iter().map(|values| Row { values }).collect())
}

fn next<S, T>(progress: Progress<S, T>) -> (S, Statement) {
    match progress {
        Progress::Next(state, statement) => (state, statement),
        Progress::Done(_) => panic!("the operation is over"),
    }
}

const ID: u128 = 0xa1a2a3a4_b1b2_c1c2_d1d2_d3d4d5d6d7d8;
const ID_URN: &str = "urn:uuid:a1a2a3a4-b1b2-c1c2-d1d2-d3d4d5d6d7d8";
const ID_HYPHENATED: &str = "a1a2a3a4-b1b2-c1c2-d1d2-d3d4d5d6d7d8";

#[test]
fn error_messages() {
    assert_eq!(INTERNAL_SERVER_ERROR, 500);
    assert_eq!(
        handle_error("Error creating user", Errors::UsernameTaken),
        (500, "Error creating user: username taken".to_string())
    );
    assert_eq!(
        handle_error("Error creating session", Errors::StorageError),
        (500, "Error creating session: storage error".to_string())
    );
    assert_eq!(handle_error("", Errors::ChallengeNotFound).1, ": challenge not found");
    assert_eq!(Errors::MigrationApplyError.public_message(), "migration apply error");
    assert_eq!(
        Errors::MalformedStoredCredentialField.public_message(),
        "malformed stored credential field"
    );
    assert_eq!(Errors::StageParseError.public_message(), "stage parse error");
    assert_eq!(Errors::RelyingPartyError.public_message(), "relying party error");
    assert_eq!(
        Errors::LoginErrorUsernameOrPasswordMissing.public_message(),
        "Username and password are required"
    );
}

#[test]
fn sign_in_failures() {
    assert_eq!(
        login_failure(Errors::LoginErrorUsernameOrPasswordMissing),
        (400, "Username and password are required".to_string())
    );
    for kind in [Errors::UserNotFound, Errors::NoCredentialMatch] {
        assert_eq!(
            login_failure(kind),
            (500, "Error validating password: authentication failed".to_string())
        );
    }
    assert_eq!(
        login_failure(Errors::StorageError),
        (500, "Error validating password: storage error".to_string())
    );
    assert_eq!(
        login_failure(Errors::MalformedStoredCredentialField),
        (500, "Error validating password: malformed stored credential field".to_string())
    );
}

#[test]
fn account_failures_look_alike() {
    let kinds =
        [Errors::UserNotFound, Errors::NoCredentialMatch, Errors::RegistrationVerificationFailed];
    for kind in kinds {
        assert_eq!(
            handle_error("Error validating password", kind),
            (500, "Error validating password: authentication failed".to_string())
        );
    }
    assert_eq!(Errors::UserNotFound.message(), "UserNotFound");
    assert_eq!(Errors::NoCredentialMatch.message(), "NoCredentialMatch");
    assert_eq!(
        Errors::RegistrationVerificationFailed.message(),
        "RegistrationVerificationFailed"
    );
    assert_eq!(Errors::UsernameTaken.message(), "UsernameTaken");
    assert_eq!(Errors::StorageError.message(), "StorageError");
}

#[test]
fn stage_names() {
    assert_eq!(Stage::parse("local"), Ok(Stage::Local));
    assert_eq!(Stage::parse("LOCAL"), Ok(Stage::Local));
    assert_eq!(Stage::parse("Test"), Ok(Stage::Test));
    assert_eq!(Stage::parse("pRoD"), Ok(Stage::Prod));
    assert_eq!(Stage::parse("production"), Err(Errors::StageParseError));
    assert_eq!(Stage::parse(""), Err(Errors::StageParseError));
    assert_eq!(Stage::parse(" prod"), Err(Errors::StageParseError));
    assert_eq!(Stage::from_lowercase("prod"), Ok(Stage::Prod));
    assert_eq!(Stage::from_lowercase("PROD"), Err(Errors::StageParseError));
    assert_eq!("test".parse::<Stage>(), Ok(Stage::Test));
    assert_eq!("TEST".parse::<Stage>(), Ok(Stage::Test));
    assert_eq!("dev".parse::<Stage>(), Err(Errors::StageParseError));
    for stage in [Stage::Local, Stage::Test, Stage::Prod] {
        assert_eq!(Stage::parse(&stage.name()), Ok(stage));
    }
    assert_eq!(Stage::Prod.name(), "prod");
    assert!(same_text("abc", "abc"));
    assert!(!same_text("abc", "abd"));
    assert!(!same_text("abc", "ab"));
}

#[test]
fn config_takes_the_stage_by_name() {
    let config =
        Config::new(":memory:".to_string(), None, "TEST", log::Level::Debug).unwrap();
    assert_eq!(config.db_url, ":memory:");
    assert_eq!(config.db_token, None);
    assert_eq!(config.stage, Stage::Test);
    assert_eq!(config.log_level, log::Level::Debug);
    let refused = Config::new("x".to_string(), Some("t".to_string()), "nowhere", log::Level::Info);
    assert_eq!(refused.err(), Some(Errors::StageParseError));
}

#[test]
fn ports_and_origins() {
    assert_eq!(get_app_port(None), "8080");
    assert_eq!(get_app_port(Some("3000".to_string())), "3000");
    assert_eq!(
        relying_party_origin("lochstep.mcarthur.in", "8080"),
        "https://lochstep.mcarthur.in:8080"
    );
    assert_eq!(relying_party_origin("example.com", ""), "https://example.com:");
    assert!(init_webauthn("8080").is_ok());
    assert!(init_webauthn("443").is_ok());
    assert_eq!(init_webauthn("not a port").err(), Some(Errors::RelyingPartyError));
    assert_eq!(init_webauthn("99999").err(), Some(Errors::RelyingPartyError));
    assert_eq!(relying_party::<u8, ()>(Ok(3)), Ok(3));
    assert_eq!(relying_party::<u8, ()>(Err(())), Err(Errors::RelyingPartyError));
}

#[test]
fn statements_are_parameterized() {
    let s = Statement::SelectSalt { username: "a".into() };
    assert_eq!(s.sql(), "SELECT salt FROM users WHERE username = ?;");
    assert_eq!(s.args(), vec![text("a")]);
    assert!(!s.writes());

    let s = Statement::SelectIdByHash { username: "a".into(), hash: "h".into() };
    assert_eq!(s.sql(), "SELECT id FROM users WHERE username=? AND hash=?;");
    assert_eq!(s.args(), vec![text("a"), text("h")]);

    let s = Statement::SelectId { username: "a'b".into() };
    assert_eq!(s.sql(), "SELECT id FROM users WHERE username = ?;");
    assert_eq!(s.args(), vec![text("a'b")]);

    let s = Statement::SelectUsers;
    assert_eq!(s.sql(), "SELECT id, username FROM users;");
    assert_eq!(s.args(), vec![]);

    let s = Statement::InsertUserWithPassword {
        id: "i".into(),
        username: "u".into(),
        hash: "h".into(),
        salt: "s".into(),
    };
    assert_eq!(s.sql(), "INSERT INTO users (id, username, hash, salt) VALUES (?,?,?,?);");
    assert_eq!(s.args(), vec![text("i"), text("u"), text("h"), text("s")]);
    assert!(s.writes());

    let s = Statement::InsertUser { id: "i".into(), username: "u".into() };
    assert_eq!(s.sql(), "INSERT INTO users (id, username) VALUES (?, ?);");
    assert_eq!(s.args(), vec![text("i"), text("u")]);

    let s = Statement::InsertKey { user_id: "i".into(), key: "k".into() };
    assert_eq!(s.sql(), "INSERT INTO keys (userid, key) VALUES (?, ?);");
    assert_eq!(s.args(), vec![text("i"), text("k")]);

    let s = applied_count();
    assert_eq!(s, Statement::SelectLatestMigration);
    assert_eq!(s.sql(), "SELECT id FROM migrations ORDER BY id DESC LIMIT 1;");
    assert_eq!(s.args(), vec![]);

    let s = Statement::InsertMigration { id: 3, date: "d".into(), query: "q".into() };
    assert_eq!(s.sql(), "INSERT INTO migrations (id, date, query) VALUES (?, ?, ?);");
    assert_eq!(s.args(), vec![Value::Integer(3), text("d"), text("q")]);

    let s = Statement::Schema { text: "CREATE TABLE t (x INT);".into() };
    assert_eq!(s.sql(), "CREATE TABLE t (x INT);");
    assert_eq!(s.args(), vec![]);
    assert!(s.writes());
}

#[test]
fn failures_are_told_apart_by_their_message() {
    assert_eq!(
        StoreReply::failure("SQLite failure: `UNIQUE constraint failed: users.username`"),
        StoreReply::Conflict
    );
    assert_eq!(StoreReply::failure("UNIQUE constraint failed"), StoreReply::Conflict);
    assert_eq!(StoreReply::failure("xUNIQUE constraint failedx"), StoreReply::Conflict);
    assert_eq!(StoreReply::failure("UNIQUE constraint faile"), StoreReply::Failed);
    assert_eq!(StoreReply::failure("unique constraint failed"), StoreReply::Failed);
    assert_eq!(StoreReply::failure("no such table: users"), StoreReply::Failed);
    assert_eq!(StoreReply::failure(""), StoreReply::Failed);

    assert!(text_contains("abcabd", "abd"));
    assert!(text_contains("abcabd", "abc"));
    assert!(text_contains("abcabd", ""));
    assert!(text_contains("", ""));
    assert!(text_contains("aab", "ab"));
    assert!(text_contains("ünï cödé", "cöd"));
    assert!(!text_contains("abcabd", "abe"));
    assert!(!text_contains("ab", "abc"));
    assert!(!text_contains("", "a"));
    assert_eq!(chars_of("aé✓"), vec!['a', 'é', '✓']);
    assert_eq!(chars_of(""), Vec::<char>::new());
}

#[test]
fn rows_are_read_by_position() {
    let row = Row { values: vec![text("a"), Value::Integer(-4), Value::Null, Value::Other] };
    assert_eq!(row.text_at(0), Some(&"a".to_string()));
    assert_eq!(row.text_at(1), None);
    assert_eq!(row.text_at(2), None);
    assert_eq!(row.text_at(4), None);
    assert_eq!(row.integer_at(1), Some(-4));
    assert_eq!(row.integer_at(0), None);
    assert_eq!(row.integer_at(3), None);
    assert_eq!(row.integer_at(9), None);
}

#[test]
fn identifiers_and_their_text() {
    let id = UserId { value: ID };
    assert_eq!(id.to_text(), ID_URN);
    assert_eq!(id.to_hyphenated(), ID_HYPHENATED);
    assert_eq!(UserId { value: 0 }.to_hyphenated(), "00000000-0000-0000-0000-000000000000");
    assert_eq!(UserId::parse(ID_URN), Ok(id));
    assert_eq!(UserId::parse("a1a2a3a4-b1b2-c1c2-d1d2-d3d4d5d6d7d8"), Ok(id));
    assert_eq!(UserId::parse("A1A2A3A4B1B2C1C2D1D2D3D4D5D6D7D8"), Ok(id));
    assert_eq!(UserId::parse("{a1a2a3a4-b1b2-c1c2-d1d2-d3d4d5d6d7d8}"), Ok(id));
    assert_eq!(UserId::parse(""), Err(Errors::MalformedStoredCredentialField));
    assert_eq!(UserId::parse("alice"), Err(Errors::MalformedStoredCredentialField));
    assert_eq!(
        UserId::parse("urn:uuid:a1a2a3a4-b1b2-c1c2-d1d2-d3d4d5d6d7dg"),
        Err(Errors::MalformedStoredCredentialField)
    );
    assert_eq!(UserId::parsed(Ok(5)), Ok(UserId { value: 5 }));
    assert_eq!(UserId { value: 0 }.to_text(), "urn:uuid:00000000-0000-0000-0000-000000000000");

    let fresh = UserId::generate();
    assert_eq!(
        fresh.value & 0xF000_C000_0000_0000_0000u128,
        0x4000_8000_0000_0000_0000u128
    );
    assert_ne!(fresh, UserId::generate());
    assert_eq!(UserId::parse(&fresh.to_text()), Ok(fresh));
    assert_eq!(UserId::parse(&fresh.to_hyphenated()), Ok(fresh));
    assert_eq!(UserId::from_row(&Row { values: vec![text(ID_URN)] }), Ok(id));
    assert_eq!(
        UserId::from_row(&Row { values: vec![Value::Integer(1)] }),
        Err(Errors::MalformedStoredCredentialField)
    );
    assert_eq!(
        UserId::from_row(&Row { values: vec![] }),
        Err(Errors::MalformedStoredCredentialField)
    );
}

#[test]
fn salts_and_hashes() {
    let salt = generate_salt();
    assert_eq!(salt.chars().count(), 22);
    assert!(salt.chars().all(|c| c.is_ascii_alphanumeric() || "/+.-".contains(c)));
    assert_ne!(salt, generate_salt());

    let hash = get_hash("secret123", "c29tZXNhbHRzb21lc2FsdA").unwrap();
    assert!(
        hash.starts_with("$argon2id$v=19$m=19456,t=2,p=1$c29tZXNhbHRzb21lc2FsdA$"),
        "hash {}",
        hash
    );
    assert_eq!(hash.len(), "$argon2id$v=19$m=19456,t=2,p=1$c29tZXNhbHRzb21lc2FsdA$".len() + 43);
    assert_eq!(get_hash("secret123", "c29tZXNhbHRzb21lc2FsdA"), Some(hash.clone()));
    assert_ne!(get_hash("secret124", "c29tZXNhbHRzb21lc2FsdA"), Some(hash.clone()));
    assert_ne!(get_hash("secret123", "c29tZXNhbHRzb21lc2FsdB"), Some(hash.clone()));
    let parsed = argon2::password_hash::PasswordHash::new(&hash).unwrap();
    assert!(argon2::PasswordVerifier::verify_password(
        &argon2::Argon2::default(),
        b"secret123",
        &parsed
    )
    .is_ok());

    assert_eq!(get_hash("pw", ""), None);
    assert_eq!(get_hash("pw", "abc"), None);
    assert_eq!(get_hash("pw", "not a salt!"), None);
    assert_eq!(get_hash("pw", "abcd"), None);
    assert_eq!(get_hash("pw", &"a".repeat(65)), None);
    assert!(get_hash("", &salt).is_some());
}

#[test]
fn verification_steps() {
    let (state, statement) = next(validate_password("alice", "pw"));
    assert_eq!(statement, Statement::SelectSalt { username: "alice".into() });
    assert_eq!(
        state,
        PasswordCheck::AwaitingSalt { username: "alice".into(), password: "pw".into() }
    );

    let fresh = || next(validate_password("alice", "pw")).0;
    assert_eq!(fresh().resume(rows(vec![])), Progress::Done(Err(Errors::UserNotFound)));
    assert_eq!(fresh().resume(StoreReply::Failed), Progress::Done(Err(Errors::StorageError)));
    assert_eq!(fresh().resume(StoreReply::Conflict), Progress::Done(Err(Errors::StorageError)));
    for salt in [Value::Null, Value::Integer(3), Value::Other, text(""), text("not a salt!"), text("abcd")] {
        assert_eq!(
            fresh().resume(rows(vec![vec![salt]])),
            Progress::Done(Err(Errors::NoCredentialMatch))
        );
    }
    assert_eq!(fresh().resume(rows(vec![vec![]])), Progress::Done(Err(Errors::NoCredentialMatch)));

    let (state, statement) = next(fresh().resume(rows(vec![vec![text("c29tZXNhbHRzb21lc2FsdA")]])));
    assert_eq!(state, PasswordCheck::AwaitingId);
    assert_eq!(
        statement,
        Statement::SelectIdByHash {
            username: "alice".into(),
            hash: get_hash("pw", "c29tZXNhbHRzb21lc2FsdA").unwrap(),
        }
    );

    let id = UserId { value: ID };
    assert_eq!(
        PasswordCheck::AwaitingId.resume(rows(vec![vec![text(ID_URN)]])),
        Progress::Done(Ok(id))
    );
    assert_eq!(
        PasswordCheck::AwaitingId.resume(rows(vec![])),
        Progress::Done(Err(Errors::NoCredentialMatch))
    );
    assert_eq!(
        PasswordCheck::AwaitingId.resume(rows(vec![vec![text(ID_URN)], vec![text(ID_URN)]])),
        Progress::Done(Err(Errors::NoCredentialMatch))
    );
    assert_eq!(
        PasswordCheck::AwaitingId.resume(rows(vec![vec![text("bogus")]])),
        Progress::Done(Err(Errors::MalformedStoredCredentialField))
    );
    assert_eq!(
        PasswordCheck::AwaitingId.resume(rows(vec![vec![Value::Null]])),
        Progress::Done(Err(Errors::MalformedStoredCredentialField))
    );
    assert_eq!(
        PasswordCheck::AwaitingId.resume(StoreReply::Failed),
        Progress::Done(Err(Errors::StorageError))
    );
    assert_eq!(
        PasswordCheck::salted("alice".into(), None),
        Progress::Done(Err(Errors::NoCredentialMatch))
    );
    assert_eq!(
        PasswordCheck::salted("alice".into(), Some("h".into())),
        Progress::Next(
            PasswordCheck::AwaitingId,
            Statement::SelectIdByHash { username: "alice".into(), hash: "h".into() }
        )
    );
}

#[test]
fn registration_steps() {
    let (state, statement) = next(create_user_with_password("alice", "pw"));
    assert_eq!(statement, Statement::SelectId { username: "alice".into() });
    assert_eq!(
        state,
        Registration::AwaitingLookup { username: "alice".into(), password: "pw".into() }
    );
    let fresh = || next(create_user_with_password("alice", "pw")).0;
    let draw = || Draw {
        id: UserId { value: ID },
        id_text: ID_URN.to_string(),
        salt: "c29tZXNhbHRzb21lc2FsdA".to_string(),
    };

    assert_eq!(
        fresh().resume(rows(vec![vec![text(ID_URN)]])),
        Progress::Done(Err(Errors::UsernameTaken))
    );
    assert_eq!(fresh().resume(StoreReply::Failed), Progress::Done(Err(Errors::StorageError)));

    let (state, statement) = next(fresh().resume_with(rows(vec![]), draw()));
    assert_eq!(state, Registration::AwaitingInsert { id: UserId { value: ID } });
    assert_eq!(
        statement,
        Statement::InsertUserWithPassword {
            id: ID_URN.into(),
            username: "alice".into(),
            hash: get_hash("pw", "c29tZXNhbHRzb21lc2FsdA").unwrap(),
            salt: "c29tZXNhbHRzb21lc2FsdA".into(),
        }
    );

    let bad = Draw { salt: "!".to_string(), ..draw() };
    assert_eq!(
        fresh().resume_with(rows(vec![]), bad),
        Progress::Done(Err(Errors::MalformedStoredCredentialField))
    );
    assert_eq!(
        Registration::hashed("alice".into(), draw(), None),
        Progress::Done(Err(Errors::MalformedStoredCredentialField))
    );

    let waiting = || Registration::AwaitingInsert { id: UserId { value: ID } };
    assert_eq!(waiting().resume(rows(vec![])), Progress::Done(Ok(UserId { value: ID })));
    assert_eq!(waiting().resume(StoreReply::Conflict), Progress::Done(Err(Errors::UsernameTaken)));
    assert_eq!(waiting().resume(StoreReply::Failed), Progress::Done(Err(Errors::StorageError)));

    let (state, statement) = next(fresh().resume(rows(vec![])));
    match (state, statement) {
        (
            Registration::AwaitingInsert { id },
            Statement::InsertUserWithPassword { id: id_text, username, hash, salt },
        ) => {
            assert_eq!(UserId::parse(&id_text), Ok(id));
            assert_eq!(username, "alice");
            assert_eq!(Some(hash), get_hash("pw", &salt));
            assert_eq!(salt.len(), 22);
        }
        other => panic!("unexpected {:?}", other),
    }
    let drawn = Draw::new();
    assert_eq!(UserId::parse(&drawn.id_text), Ok(drawn.id));
    assert_eq!(drawn.salt.len(), 22);
}

#[test]
fn users_are_read_from_rows() {
    let id = UserId { value: ID };
    assert_eq!(
        User::from_db_row(&Row { values: vec![text(ID_URN), text("alice")] }),
        Ok(User { id, username: "alice".into() })
    );
    for values in [
        vec![],
        vec![text(ID_URN)],
        vec![text("bogus"), text("alice")],
        vec![Value::Integer(1), text("alice")],
        vec![text(ID_URN), Value::Null],
    ] {
        assert_eq!(
            User::from_db_row(&Row { values }),
            Err(Errors::MalformedStoredCredentialField)
        );
    }
    let good = Row { values: vec![text(ID_URN), text("alice")] };
    let bad = Row { values: vec![text(ID_URN)] };
    assert_eq!(users_from_rows(&vec![]), Ok(vec![]));
    assert_eq!(
        users_from_rows(&vec![good.clone(), good.clone()]).map(|u| u.len()),
        Ok(2)
    );
    assert_eq!(
        users_from_rows(&vec![good.clone(), bad, good]),
        Err(Errors::MalformedStoredCredentialField)
    );
    let (listing, statement) = next(all_users());
    assert_eq!(statement, Statement::SelectUsers);
    assert_eq!(listing.resume(StoreReply::Failed), Progress::Done(Err(Errors::StorageError)));

    assert_eq!(user_exists(&rows(vec![])), Ok(false));
    assert_eq!(user_exists(&rows(vec![vec![text(ID_URN)]])), Ok(true));
    assert_eq!(user_exists(&StoreReply::Failed), Err(Errors::StorageError));
    assert_eq!(user_exists(&StoreReply::Conflict), Err(Errors::StorageError));

    let (user, statement) = create_user("bob");
    assert_eq!(user.username, "bob");
    assert_eq!(
        statement,
        Statement::InsertUser { id: user.id.to_hyphenated(), username: "bob".into() }
    );
    assert_eq!(
        user.insertion("x".into()),
        Statement::InsertUser { id: "x".into(), username: "bob".into() }
    );
}

#[test]
fn migration_steps() {
    let shipped = shipped_migrations();
    assert_eq!(shipped.len(), 4);
    assert_eq!(shipped[0], CREATE_MIGRATIONS_TABLE);
    assert!(shipped.iter().all(|s| s.starts_with("CREATE TABLE IF NOT EXISTS ")));

    let (state, statement) = next(migrate_db(shipped.clone()));
    assert_eq!(statement, Statement::SelectLatestMigration);
    assert_eq!(state.applied(), 0);

    let (state, statement) = next(state.resume_at(StoreReply::Failed, String::new()));
    assert_eq!(statement, Statement::Schema { text: shipped[0].clone() });
    let (state, statement) = next(state.resume_at(rows(vec![]), "2024-01-01T00:00:00+00:00".into()));
    assert_eq!(
        statement,
        Statement::InsertMigration {
            id: 1,
            date: "2024-01-01T00:00:00+00:00".into(),
            query: shipped[0].clone(),
        }
    );
    assert_eq!(state.applied(), 0);
    let (state, statement) = next(state.resume_at(rows(vec![]), String::new()));
    assert_eq!(statement, Statement::Schema { text: shipped[1].clone() });
    assert_eq!(state.applied(), 1);
    assert_eq!(
        state.resume_at(StoreReply::Failed, String::new()),
        Progress::Done(Err(Errors::MigrationApplyError))
    );

    let at = |cursor: StoreReply| next(migrate_db(shipped_migrations())).0.resume(cursor);
    let third = Statement::Schema { text: shipped[2].clone() };
    assert_eq!(next(at(rows(vec![vec![Value::Integer(2)]]))).1, third);
    assert_eq!(at(rows(vec![vec![Value::Integer(4)]])), Progress::Done(Ok(0)));
    assert_eq!(at(rows(vec![vec![Value::Integer(9)]])), Progress::Done(Ok(0)));
    assert_eq!(at(rows(vec![vec![Value::Integer(i64::MAX)]])), Progress::Done(Ok(0)));
    let first = Statement::Schema { text: shipped[0].clone() };
    for unreadable in [
        rows(vec![]),
        rows(vec![vec![]]),
        rows(vec![vec![Value::Integer(0)]]),
        rows(vec![vec![Value::Integer(-3)]]),
        rows(vec![vec![text("2")]]),
        rows(vec![vec![Value::Null]]),
        StoreReply::Failed,
        StoreReply::Conflict,
    ] {
        assert_eq!(get_latest(&unreadable), 0);
        assert_eq!(next(at(unreadable)).1, first);
    }
    assert_eq!(get_latest(&rows(vec![vec![Value::Integer(7)]])), 7);
    assert_eq!(get_latest(&rows(vec![vec![Value::Integer(7)], vec![Value::Integer(9)]])), 7);

    // The last statement: recorded, then the run is over.
    let (state, statement) = next(at(rows(vec![vec![Value::Integer(3)]])));
    assert_eq!(statement, Statement::Schema { text: shipped[3].clone() });
    let (state, statement) = next(state.resume(rows(vec![])));
    match statement {
        Statement::InsertMigration { id, date, query } => {
            assert_eq!(id, 4);
            assert_eq!(query, shipped[3]);
            assert!(chrono::DateTime::parse_from_rfc3339(&date).is_ok(), "date {}", date);
            let chars: Vec<char> = date.chars().collect();
            assert!(chars.len() == 25 || chars.len() == 29 || chars.len() == 32 || chars.len() == 35);
            assert!(date.ends_with("+00:00"), "date {}", date);
            for (at, c) in [(4, '-'), (7, '-'), (10, 'T'), (13, ':'), (16, ':')] {
                assert_eq!(chars[at], c, "date {}", date);
            }
            for at in [0, 1, 2, 3, 5, 6, 8, 9, 11, 12, 14, 15, 17, 18] {
                assert!(chars[at].is_ascii_digit(), "date {}", date);
            }
            if chars.len() > 25 {
                assert_eq!(chars[19], '.');
                assert!(chars[20..chars.len() - 6].iter().all(|c| c.is_ascii_digit()));
            }
        }
        other => panic!("unexpected {:?}", other),
    }
    let record_failed: Progress<Migration, usize> =
        Progress::Done(Err(Errors::MigrationApplyError));
    let (again, _) = next(next(at(rows(vec![vec![Value::Integer(3)]]))).0.resume(rows(vec![])));
    assert_eq!(again.resume(StoreReply::Conflict), record_failed);
    assert_eq!(state.resume(rows(vec![])), Progress::Done(Ok(1)));

    let (empty, _) = next(migrate_db(vec![]));
    assert_eq!(empty.resume(StoreReply::Failed), Progress::Done(Ok(0)));
}

#[test]
fn sign_in_steps() {
    let blank = Login { username: String::new(), password: String::new() };
    assert_eq!(login(blank), Progress::Done(Err(Errors::LoginErrorUsernameOrPasswordMissing)));
    let no_password = Login { username: "alice".into(), password: String::new() };
    let (state, statement) = next(login(no_password));
    assert_eq!(statement, Statement::SelectSalt { username: "alice".into() });
    assert_eq!(state.username, "alice");
    let no_name = Login { username: String::new(), password: "pw".into() };
    assert_eq!(next(login(no_name)).1, Statement::SelectSalt { username: String::new() });

    let mut session = Session::new();
    let (state, _) = next(login(Login { username: "alice".into(), password: "pw".into() }));
    assert_eq!(
        state.resume(rows(vec![]), &mut session),
        Progress::Done(Err(Errors::UserNotFound))
    );
    assert!(!session.is_authenticated());
}

#[test]
fn ceremony_steps() {
    let (state, statement) = next(start_registration("bob"));
    assert_eq!(statement, Statement::SelectId { username: "bob".into() });
    assert_eq!(state, Enrollment::AwaitingLookup { username: "bob".into() });
    let fresh = || next(start_registration("bob")).0;
    let id = UserId { value: ID };
    let other = UserId { value: 5 };

    assert_eq!(
        fresh().settle_user(rows(vec![vec![text(ID_URN)]]), other, "x".into()),
        Progress::Done(Ok(User { id, username: "bob".into() }))
    );
    assert_eq!(
        fresh().settle_user(rows(vec![vec![text("bogus")]]), other, "x".into()),
        Progress::Done(Err(Errors::MalformedStoredCredentialField))
    );
    assert_eq!(
        fresh().settle_user(StoreReply::Failed, other, "x".into()),
        Progress::Done(Err(Errors::StorageError))
    );
    let (state, statement) = next(fresh().settle_user(rows(vec![]), id, ID_URN.into()));
    assert_eq!(statement, Statement::InsertUser { id: ID_URN.into(), username: "bob".into() });
    assert_eq!(
        state,
        Enrollment::AwaitingInsert { user: User { id, username: "bob".into() } }
    );
    let waiting = || Enrollment::AwaitingInsert { user: User { id, username: "bob".into() } };
    assert_eq!(
        waiting().settle_user(rows(vec![]), other, "x".into()),
        Progress::Done(Ok(User { id, username: "bob".into() }))
    );
    assert_eq!(
        waiting().settle_user(StoreReply::Conflict, other, "x".into()),
        Progress::Done(Err(Errors::UsernameTaken))
    );
    assert_eq!(
        waiting().settle_user(StoreReply::Failed, other, "x".into()),
        Progress::Done(Err(Errors::StorageError))
    );

    let credential = || PublicKeyCredential {
        credential_id: vec![1, 2, 3],
        public_key: vec![4, 5],
        signature_counter: 6,
    };
    for (credential, record) in [
        (None, None),
        (None, Some("r".to_string())),
        (Some(credential()), None),
    ] {
        assert_eq!(
            Completion::described(id, credential, record),
            Progress::Done(Err(Errors::MalformedStoredCredentialField))
        );
    }
    let (state, statement) =
        next(Completion::described(id, Some(credential()), Some("r".into())));
    assert_eq!(statement, Statement::InsertKey { user_id: ID_HYPHENATED.into(), key: "r".into() });
    assert_eq!(state, Completion { credential: credential() });
    assert_eq!(
        judged_of(id, Err(WebauthnError::Configuration)),
        Progress::Done(Err(Errors::RegistrationVerificationFailed))
    );
    assert_eq!(
        judged_of(id, Err(WebauthnError::ChallengeNotFound)),
        Progress::Done(Err(Errors::RegistrationVerificationFailed))
    );
    assert_eq!(
        Completion { credential: credential() }.resume(rows(vec![])),
        Progress::Done(Ok(credential()))
    );
    assert_eq!(
        Completion { credential: credential() }.resume(StoreReply::Failed),
        Progress::Done(Err(Errors::StorageError))
    );
    assert_eq!(
        Completion { credential: credential() }.resume(StoreReply::Conflict),
        Progress::Done(Err(Errors::StorageError))
    );
    assert_eq!(
        store_key(id, Some("r".into())),
        Ok(Statement::InsertKey { user_id: ID_HYPHENATED.into(), key: "r".into() })
    );
    assert_eq!(store_key(id, None), Err(Errors::MalformedStoredCredentialField));

    let mut session = Session::new();
    assert!(session.take_challenge().is_none());
    assert!(session.registration.is_none());
}
