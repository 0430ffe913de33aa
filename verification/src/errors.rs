//! The failure taxonomy shared by every operation of the library.

use vstd::prelude::*;
use vstd::string::StringExecFns;

verus! {

/// Every way an operation of this library can fail.
#[derive(Clone, Copy, Debug, PartialEq, Eq, Structural)]
pub enum Errors {
    /// A user with the requested username already exists.
    UsernameTaken,
    /// No user carries the given username.
    UserNotFound,
    /// The supplied password does not match the stored credential.
    NoCredentialMatch,
    /// A stored field (identifier, username) cannot be read back, or a
    /// credential field could not be formed.
    MalformedStoredCredentialField,
    /// The session holds no pending registration ceremony.
    ChallengeNotFound,
    /// The passkey ceremony primitive rejected the request or the response.
    RegistrationVerificationFailed,
    /// The credential store failed to execute a statement.
    StorageError,
    /// A schema statement could not be applied or recorded; fatal at startup.
    MigrationApplyError,
    /// A login request carried neither a username nor a password.
    LoginErrorUsernameOrPasswordMissing,
    /// The deployment stage name is not one of the known stages.
    StageParseError,
    /// The relying-party identity is not a valid passkey configuration.
    RelyingPartyError,
}

/// The status code attached to every failure handed to a client.
pub const INTERNAL_SERVER_ERROR: u16 = 500;

impl Errors {
    /// Failures that would tell a client whether an account exists. They
    /// are indistinguishable in anything a client can observe.
    pub open spec fn reveals_account(self) -> bool {
        self == Errors::UserNotFound || self == Errors::NoCredentialMatch || self
            == Errors::RegistrationVerificationFailed
    }

    /// The text a client may see for this failure.
    pub open spec fn public_text(self) -> Seq<char> {
        match self {
            Errors::UserNotFound
            | Errors::NoCredentialMatch
            | Errors::RegistrationVerificationFailed => "authentication failed"@,
            Errors::UsernameTaken => "username taken"@,
            Errors::MalformedStoredCredentialField => "malformed stored credential field"@,
            Errors::ChallengeNotFound => "challenge not found"@,
            Errors::StorageError => "storage error"@,
            Errors::MigrationApplyError => "migration apply error"@,
            Errors::LoginErrorUsernameOrPasswordMissing => "Username and password are required"@,
            Errors::StageParseError => "stage parse error"@,
            Errors::RelyingPartyError => "relying party error"@,
        }
    }

    /// The text kept for the operator's log: one name per kind.
    pub open spec fn log_text(self) -> Seq<char> {
        match self {
            Errors::UsernameTaken => "UsernameTaken"@,
            Errors::UserNotFound => "UserNotFound"@,
            Errors::NoCredentialMatch => "NoCredentialMatch"@,
            Errors::MalformedStoredCredentialField => "MalformedStoredCredentialField"@,
            Errors::ChallengeNotFound => "ChallengeNotFound"@,
            Errors::RegistrationVerificationFailed => "RegistrationVerificationFailed"@,
            Errors::StorageError => "StorageError"@,
            Errors::MigrationApplyError => "MigrationApplyError"@,
            Errors::LoginErrorUsernameOrPasswordMissing => "LoginErrorUsernameOrPasswordMissing"@,
            Errors::StageParseError => "StageParseError"@,
            Errors::RelyingPartyError => "RelyingPartyError"@,
        }
    }

    /// The message a client may see. The three account-revealing kinds
    /// share one message.
    pub fn public_message(&self) -> (text: String)
        ensures
            text@ == self.public_text(),
            self.reveals_account() ==> text@ == "authentication failed"@,
    {
        match self {
            Errors::UserNotFound
            | Errors::NoCredentialMatch
            | Errors::RegistrationVerificationFailed => String::from_str("authentication failed"),
            Errors::UsernameTaken => String::from_str("username taken"),
            Errors::MalformedStoredCredentialField => String::from_str(
                "malformed stored credential field",
            ),
            Errors::ChallengeNotFound => String::from_str("challenge not found"),
            Errors::StorageError => String::from_str("storage error"),
            Errors::MigrationApplyError => String::from_str("migration apply error"),
            Errors::LoginErrorUsernameOrPasswordMissing => String::from_str(
                "Username and password are required",
            ),
            Errors::StageParseError => String::from_str("stage parse error"),
            Errors::RelyingPartyError => String::from_str("relying party error"),
        }
    }

    /// The name of the kind, for logs only.
    pub fn message(&self) -> (text: String)
        ensures
            text@ == self.log_text(),
    {
        match self {
            Errors::UsernameTaken => String::from_str("UsernameTaken"),
            Errors::UserNotFound => String::from_str("UserNotFound"),
            Errors::NoCredentialMatch => String::from_str("NoCredentialMatch"),
            Errors::MalformedStoredCredentialField => String::from_str(
                "MalformedStoredCredentialField",
            ),
            Errors::ChallengeNotFound => String::from_str("ChallengeNotFound"),
            Errors::RegistrationVerificationFailed => String::from_str(
                "RegistrationVerificationFailed",
            ),
            Errors::StorageError => String::from_str("StorageError"),
            Errors::MigrationApplyError => String::from_str("MigrationApplyError"),
            Errors::LoginErrorUsernameOrPasswordMissing => String::from_str(
                "LoginErrorUsernameOrPasswordMissing",
            ),
            Errors::StageParseError => String::from_str("StageParseError"),
            Errors::RelyingPartyError => String::from_str("RelyingPartyError"),
        }
    }
}

/// What a client sees of a failure: the status code and a body made of the
/// caller's context, a colon and the public message of the kind.
pub open spec fn error_body(err_msg: Seq<char>, e: Errors) -> Seq<char> {
    err_msg + ": "@ + e.public_text()
}

/// Turns a failure into the response handed to a client.
pub fn handle_error(err_msg: &str, e: Errors) -> (response: (u16, String))
    ensures
        response.0 == INTERNAL_SERVER_ERROR,
        response.1@ == error_body(err_msg@, e),
{
    let mut body = String::from_str(err_msg);
    body.append(": ");
    let text = e.public_message();
    body.append(text.as_str());
    (INTERNAL_SERVER_ERROR, body)
}

/// Two failures that would reveal an account produce the same response.
pub proof fn lemma_account_failures_look_alike(err_msg: Seq<char>, a: Errors, b: Errors)
    requires
        a.reveals_account(),
        b.reveals_account(),
    ensures
        error_body(err_msg, a) == error_body(err_msg, b),
{
}

} // verus!
