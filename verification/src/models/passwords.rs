//! Password hashing and the verification of a password credential.

use crate::errors::Errors;
use crate::models::store::{
    text_in, Progress, ProgressView, ReplyView, Statement, StatementView, StoreReply, ValueView,
};
use crate::models::store_model::{
    lemma_absent_matches_nothing, lemma_matching_after_push, lemma_matching_is_stored,
    lemma_nothing_matching_is_absent, matching, respond, StoreModel,
};
use crate::models::users::{
    lemma_registration_outcome, registered_record, registration_outcome, stored_id, DrawView,
    UserId,
};
use vstd::prelude::*;
use vstd::string::StringExecFns;

verus! {

#[verifier::external_type_specification]
#[verifier::external_body]
pub struct ExPasswordHashError(argon2::password_hash::Error);

/// The PHC string that Argon2id with its default parameters computes for a
/// password and a salt given as B64 text; `None` where the salt text is
/// refused or the hashing fails.
pub uninterp spec fn argon2_phc(password: Seq<char>, salt: Seq<char>) -> Option<Seq<char>>;

/// The characters allowed in a salt text.
pub open spec fn is_salt_char(c: char) -> bool {
    ('a' <= c && c <= 'z') || ('A' <= c && c <= 'Z') || ('0' <= c && c <= '9') || c == '/' || c
        == '+' || c == '.' || c == '-'
}

/// A well-formed salt text: 4 to 64 characters of the salt alphabet.
pub open spec fn is_salt_text(salt: Seq<char>) -> bool {
    4 <= salt.len() <= 64 && forall|i: int| 0 <= i < salt.len() ==> is_salt_char(#[trigger] salt[i])
}

/// The hash of a password with a salt: none with a text that is no
/// well-formed salt text, else what Argon2id computes.
pub open spec fn salted_hash(password: Seq<char>, salt: Seq<char>) -> Option<Seq<char>> {
    if is_salt_text(salt) {
        argon2_phc(password, salt)
    } else {
        None
    }
}

/// The text of a hashing outcome.
pub open spec fn hashed_text(r: Result<String, argon2::password_hash::Error>) -> Option<
    Seq<char>,
> {
    match r {
        Ok(hash) => Some(hash@),
        Err(_) => None,
    }
}

/// The contents of an optional text.
pub open spec fn option_text(text: Option<String>) -> Option<Seq<char>> {
    match text {
        Some(s) => Some(s@),
        None => None,
    }
}

/// `SaltString::from_b64`, then `Argon2::default().hash_password` and the
/// `Display` of the hash it returns. The outcome depends on the password
/// and the salt text alone, and a text that is no well-formed salt text is
/// refused.
#[verifier::external_body]
fn argon2_hash_password(password: &str, salt: &str) -> (r: Result<
    String,
    argon2::password_hash::Error,
>)
    ensures
        hashed_text(r) == argon2_phc(password@, salt@),
        !is_salt_text(salt@) ==> r is Err,
{
    let salt = argon2::password_hash::SaltString::from_b64(salt)?;
    let hasher = argon2::Argon2::default();
    let hash = argon2::PasswordHasher::hash_password(&hasher, password.as_bytes(), &salt)?;
    Ok(hash.to_string())
}

/// `SaltString::generate` on the operating system's random source: 16
/// random bytes in unpadded B64, which are 22 characters of the salt
/// alphabet.
#[verifier::external_body]
fn salt_string_generate() -> (salt: String)
    ensures
        salt@.len() == 22,
        is_salt_text(salt@),
{
    argon2::password_hash::SaltString::generate(&mut rand::rngs::OsRng).as_str().to_owned()
}

/// Hashes a password with a salt. Gives `None` where the salt is not a
/// well-formed salt text or the hashing fails.
pub fn get_hash(pw: &str, salt: &str) -> (hash: Option<String>)
    ensures
        option_text(hash) == salted_hash(pw@, salt@),
        !is_salt_text(salt@) ==> hash is None,
{
    hash_outcome(argon2_hash_password(pw, salt))
}

/// The hash of a hashing outcome, dropping the reason of a failure.
pub fn hash_outcome(outcome: Result<String, argon2::password_hash::Error>) -> (hash: Option<
    String,
>)
    ensures
        option_text(hash) == hashed_text(outcome),
{
    match outcome {
        Ok(hash) => Some(hash),
        Err(_) => None,
    }
}

/// A fresh random salt.
pub fn generate_salt() -> (salt: String)
    ensures
        salt@.len() == 22,
        is_salt_text(salt@),
{
    salt_string_generate()
}

/// The verification of a password, between its two statements.
#[derive(Debug, PartialEq, Eq)]
pub enum PasswordCheck {
    /// Waiting for the salt stored for the username.
    AwaitingSalt { username: String, password: String },
    /// Waiting for the user whose stored hash equals the recomputed one.
    AwaitingId,
}

/// The mathematical content of a [`PasswordCheck`].
pub enum PasswordCheckView {
    AwaitingSalt { username: Seq<char>, password: Seq<char> },
    AwaitingId,
}

impl View for PasswordCheck {
    type V = PasswordCheckView;

    open spec fn view(&self) -> PasswordCheckView {
        match *self {
            PasswordCheck::AwaitingSalt { username, password } => PasswordCheckView::AwaitingSalt {
                username: username@,
                password: password@,
            },
            PasswordCheck::AwaitingId => PasswordCheckView::AwaitingId,
        }
    }
}

/// The start of a verification: fetch the salt stored for the username.
pub open spec fn check_start(username: Seq<char>, password: Seq<char>) -> ProgressView<
    PasswordCheckView,
    UserId,
> {
    ProgressView::Next(
        PasswordCheckView::AwaitingSalt { username, password },
        StatementView::SelectSalt { username },
    )
}

/// What follows the recomputation of the hash: the lookup of the user with
/// that hash, or a mismatch where no hash could be computed.
pub open spec fn check_salted(username: Seq<char>, hash: Option<Seq<char>>) -> ProgressView<
    PasswordCheckView,
    UserId,
> {
    match hash {
        Some(hash) => ProgressView::Next(
            PasswordCheckView::AwaitingId,
            StatementView::SelectIdByHash { username, hash },
        ),
        None => ProgressView::Done(Err(Errors::NoCredentialMatch)),
    }
}

/// One step of a verification.
pub open spec fn check_step(state: PasswordCheckView, reply: ReplyView) -> ProgressView<
    PasswordCheckView,
    UserId,
> {
    match state {
        PasswordCheckView::AwaitingSalt { username, password } => match reply {
            ReplyView::Rows(rows) => if rows.len() == 0 {
                ProgressView::Done(Err(Errors::UserNotFound))
            } else {
                match text_in(rows[0], 0) {
                    Some(salt) => check_salted(username, salted_hash(password, salt)),
                    None => ProgressView::Done(Err(Errors::NoCredentialMatch)),
                }
            },
            _ => ProgressView::Done(Err(Errors::StorageError)),
        },
        PasswordCheckView::AwaitingId => match reply {
            ReplyView::Rows(rows) => if rows.len() == 1 {
                ProgressView::Done(stored_id(rows[0]))
            } else {
                ProgressView::Done(Err(Errors::NoCredentialMatch))
            },
            _ => ProgressView::Done(Err(Errors::StorageError)),
        },
    }
}

/// Starts the verification of a password: the first statement fetches the
/// salt stored for the username.
pub fn validate_password(username: &str, password: &str) -> (r: Progress<PasswordCheck, UserId>)
    ensures
        r@ == check_start(username@, password@),
{
    Progress::Next(
        PasswordCheck::AwaitingSalt {
            username: String::from_str(username),
            password: String::from_str(password),
        },
        Statement::SelectSalt { username: String::from_str(username) },
    )
}

impl PasswordCheck {
    /// Continues the verification with the store's reply.
    ///
    /// With the salt: no row is `UserNotFound`; a salt that is no text, or
    /// with which no hash can be computed, is `NoCredentialMatch`; otherwise
    /// the hash is recomputed and looked up. With the lookup's reply:
    /// anything but exactly one row is `NoCredentialMatch`, and the row's
    /// identifier is the result.
    pub fn resume(self, reply: StoreReply) -> (r: Progress<PasswordCheck, UserId>)
        ensures
            r@ == check_step(self@, reply@),
    {
        match self {
            PasswordCheck::AwaitingSalt { username, password } => match reply {
                StoreReply::Rows(rows) => {
                    if rows.len() == 0 {
                        Progress::Done(Err(Errors::UserNotFound))
                    } else {
                        match rows[0].text_at(0) {
                            Some(salt) => {
                                let hash = get_hash(password.as_str(), salt.as_str());
                                PasswordCheck::salted(username, hash)
                            },
                            None => Progress::Done(Err(Errors::NoCredentialMatch)),
                        }
                    }
                },
                _ => Progress::Done(Err(Errors::StorageError)),
            },
            PasswordCheck::AwaitingId => match reply {
                StoreReply::Rows(rows) => {
                    if rows.len() == 1 {
                        Progress::Done(UserId::from_row(&rows[0]))
                    } else {
                        Progress::Done(Err(Errors::NoCredentialMatch))
                    }
                },
                _ => Progress::Done(Err(Errors::StorageError)),
            },
        }
    }

    /// What follows the recomputation of the hash.
    pub fn salted(username: String, hash: Option<String>) -> (r: Progress<PasswordCheck, UserId>)
        ensures
            r@ == check_salted(username@, option_text(hash)),
    {
        match hash {
            Some(hash) => Progress::Next(
                PasswordCheck::AwaitingId,
                Statement::SelectIdByHash { username, hash },
            ),
            None => Progress::Done(Err(Errors::NoCredentialMatch)),
        }
    }
}

/// A verification run against a model store for at most `rounds`
/// statements: the store afterwards and the result.
pub open spec fn check_run(
    store: StoreModel,
    progress: ProgressView<PasswordCheckView, UserId>,
    rounds: nat,
) -> (StoreModel, Result<UserId, Errors>)
    decreases rounds,
{
    match progress {
        ProgressView::Done(result) => (store, result),
        ProgressView::Next(state, statement) => if rounds == 0 {
            (store, Err(Errors::StorageError))
        } else {
            let (after, reply) = respond(store, statement);
            check_run(after, check_step(state, reply), (rounds - 1) as nat)
        },
    }
}

/// A whole verification against a model store.
pub open spec fn check_outcome(store: StoreModel, username: Seq<char>, password: Seq<char>) -> (
    StoreModel,
    Result<UserId, Errors>,
) {
    check_run(store, check_start(username, password), 2)
}

/// A verification never changes the store.
pub proof fn lemma_check_changes_nothing(
    store: StoreModel,
    username: Seq<char>,
    password: Seq<char>,
)
    ensures
        check_outcome(store, username, password).0 == store,
{
    reveal_with_fuel(check_run, 3);
}

/// A username that no record carries is `UserNotFound`.
pub proof fn lemma_unknown_user_is_not_found(
    store: StoreModel,
    username: Seq<char>,
    password: Seq<char>,
)
    requires
        matching(store.users, username, None).len() == 0,
    ensures
        check_outcome(store, username, password).1 == Err::<UserId, Errors>(Errors::UserNotFound),
{
    reveal_with_fuel(check_run, 3);
}

/// A verification that returns an identifier found it in a record that
/// carries the username and, as its hash, the hash of the supplied
/// password with a salt stored for that username.
pub proof fn lemma_verified_user_is_stored(
    store: StoreModel,
    username: Seq<char>,
    password: Seq<char>,
)
    requires
        check_outcome(store, username, password).1 is Ok,
    ensures
        exists|i: int, j: int|
            0 <= i < store.users.len() && 0 <= j < store.users.len() && (
            #[trigger] store.users[i]).username == username && (
            #[trigger] store.users[j]).username == username && store.users[j].salt is Some
                && store.users[i].hash is Some && store.users[i].hash == salted_hash(
                password,
                store.users[j].salt->0,
            ) && UserId::read(store.users[i].id) == check_outcome(store, username, password).1,
{
    reveal_with_fuel(check_run, 3);
    let salted = matching(store.users, username, None);
    lemma_matching_is_stored(store.users, username, None, 0);
    let j = choose|j: int| 0 <= j < store.users.len() && store.users[j] == salted[0];
    let salt = salted[0].salt->0;
    let hash = salted_hash(password, salt);
    let found = matching(store.users, username, hash);
    lemma_matching_is_stored(store.users, username, hash, 0);
    let i = choose|i: int| 0 <= i < store.users.len() && store.users[i] == found[0];
    assert(store.users[i].username == username && store.users[j].username == username);
}

/// Registering a user and then verifying the same password returns the
/// identifier that the registration returned.
pub proof fn lemma_registered_password_verifies(
    store: StoreModel,
    username: Seq<char>,
    password: Seq<char>,
    draw: DrawView,
)
    requires
        draw.valid(),
        registration_outcome(store, username, password, draw).1 is Ok,
    ensures
        check_outcome(
            registration_outcome(store, username, password, draw).0,
            username,
            password,
        ).1 == registration_outcome(store, username, password, draw).1,
{
    reveal_with_fuel(check_run, 3);
    lemma_registration_outcome(store, username, password, draw);
    let record = registered_record(username, password, draw);
    lemma_matching_after_push(store.users, record, username, None);
    lemma_matching_after_push(store.users, record, username, record.hash);
    lemma_nothing_matching_is_absent(store.users, username, None);
    lemma_absent_matches_nothing(store.users, username, record.hash);
}

/// After a registration, a password whose hash with the stored salt
/// differs from the registered one is refused with `NoCredentialMatch`.
pub proof fn lemma_wrong_password_is_refused(
    store: StoreModel,
    username: Seq<char>,
    password: Seq<char>,
    draw: DrawView,
    wrong: Seq<char>,
)
    requires
        registration_outcome(store, username, password, draw).1 is Ok,
        salted_hash(wrong, draw.salt) != salted_hash(password, draw.salt),
    ensures
        check_outcome(
            registration_outcome(store, username, password, draw).0,
            username,
            wrong,
        ).1 == Err::<UserId, Errors>(Errors::NoCredentialMatch),
{
    reveal_with_fuel(check_run, 3);
    lemma_registration_outcome(store, username, password, draw);
    let record = registered_record(username, password, draw);
    let attempt = salted_hash(wrong, draw.salt);
    lemma_matching_after_push(store.users, record, username, None);
    lemma_nothing_matching_is_absent(store.users, username, None);
    if attempt is Some {
        lemma_matching_after_push(store.users, record, username, attempt);
        lemma_absent_matches_nothing(store.users, username, attempt);
    }
}

/// A stored salt that is no text, or no well-formed salt text, is
/// `NoCredentialMatch`, whatever the password.
pub proof fn lemma_malformed_salt_is_no_match(
    username: Seq<char>,
    password: Seq<char>,
    rows: Seq<Seq<ValueView>>,
)
    requires
        rows.len() > 0,
        match text_in(rows[0], 0) {
            Some(salt) => !is_salt_text(salt),
            None => true,
        },
    ensures
        check_step(
            PasswordCheckView::AwaitingSalt { username, password },
            ReplyView::Rows(rows),
        ) == ProgressView::<PasswordCheckView, UserId>::Done(Err(Errors::NoCredentialMatch)),
{
}

} // verus!
