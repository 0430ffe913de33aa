//! Passkey credentials and the statement that stores one.

use crate::errors::Errors;
use crate::models::passwords::option_text;
use crate::models::store::{Statement, StatementView};
use crate::models::users::{uuid_hyphenated, UserId};
use vstd::prelude::*;

verus! {

#[verifier::external_type_specification]
#[verifier::external_body]
pub struct ExPasskey(webauthn_rs::prelude::Passkey);

#[verifier::external_type_specification]
#[verifier::external_body]
pub struct ExJsonError(serde_json::Error);

/// A public-key credential as the library reports it.
#[derive(Clone, Debug, PartialEq, Eq)]
pub struct PublicKeyCredential {
    /// The identifier that the authenticator gave the credential.
    pub credential_id: Vec<u8>,
    /// The public key, in the JSON form of its COSE description.
    pub public_key: Vec<u8>,
    /// The authenticator's signature counter at registration.
    pub signature_counter: u32,
}

/// The mathematical content of a [`PublicKeyCredential`].
pub struct PublicKeyCredentialView {
    pub credential_id: Seq<u8>,
    pub public_key: Seq<u8>,
    pub signature_counter: u32,
}

impl View for PublicKeyCredential {
    type V = PublicKeyCredentialView;

    open spec fn view(&self) -> PublicKeyCredentialView {
        PublicKeyCredentialView {
            credential_id: self.credential_id@,
            public_key: self.public_key@,
            signature_counter: self.signature_counter,
        }
    }
}

/// The contents of an optional credential.
pub open spec fn option_credential(credential: Option<PublicKeyCredential>) -> Option<
    PublicKeyCredentialView,
> {
    match credential {
        Some(c) => Some(c@),
        None => None,
    }
}

/// The text that `serde_json::to_string` writes for a passkey; `None`
/// where the passkey cannot be written out.
pub uninterp spec fn passkey_record(passkey: webauthn_rs::prelude::Passkey) -> Option<Seq<char>>;

/// The passkey that `serde_json::from_str` reads from a record; `None`
/// where the record is not the record of a passkey.
pub uninterp spec fn passkey_in(record: Seq<char>) -> Option<webauthn_rs::prelude::Passkey>;

/// What `Credential::from` finds in a passkey: the credential's
/// identifier, its signature counter, and its public key as
/// `serde_json::to_vec` writes it, `None` where the key cannot be written.
pub uninterp spec fn passkey_parts(passkey: webauthn_rs::prelude::Passkey) -> (
    Seq<u8>,
    u32,
    Option<Seq<u8>>,
);

/// The parts of a passkey: identifier, signature counter, public key.
pub type KeyParts = (Vec<u8>, u32, Option<Vec<u8>>);

/// The contents of optional bytes.
pub open spec fn option_bytes(bytes: Option<Vec<u8>>) -> Option<Seq<u8>> {
    match bytes {
        Some(b) => Some(b@),
        None => None,
    }
}

/// The passkey of an attempt to read one.
pub open spec fn read_passkey(
    read: Result<webauthn_rs::prelude::Passkey, serde_json::Error>,
) -> Option<webauthn_rs::prelude::Passkey> {
    match read {
        Ok(passkey) => Some(passkey),
        Err(_) => None,
    }
}

/// The credential made of the parts of a passkey; none without the key.
pub open spec fn credential_from(parts: (Seq<u8>, u32, Option<Seq<u8>>)) -> Option<
    PublicKeyCredentialView,
> {
    match parts.2 {
        Some(public_key) => Some(
            PublicKeyCredentialView {
                credential_id: parts.0,
                public_key,
                signature_counter: parts.1,
            },
        ),
        None => None,
    }
}

/// The credential that the record of a passkey denotes: the one made of
/// the parts of the passkey that the record reads as; `None` where the
/// record is not the record of a passkey or the key cannot be written.
pub open spec fn credential_in(record: Seq<char>) -> Option<PublicKeyCredentialView> {
    match passkey_in(record) {
        Some(passkey) => credential_from(passkey_parts(passkey)),
        None => None,
    }
}

/// The text of an attempt to write a passkey out.
pub open spec fn written_text(written: Result<String, serde_json::Error>) -> Option<Seq<char>> {
    match written {
        Ok(text) => Some(text@),
        Err(_) => None,
    }
}

/// `serde_json::from_str` of a record as a `Passkey`. The outcome depends
/// on the record alone.
#[verifier::external_body]
fn passkey_read(record: &str) -> (read: Result<webauthn_rs::prelude::Passkey, serde_json::Error>)
    ensures
        read_passkey(read) == passkey_in(record@),
{
    serde_json::from_str(record)
}

/// `Credential::from` of a passkey: the credential's identifier and its
/// counter, and its public key handed to `serde_json::to_vec`. The outcome
/// depends on the passkey alone.
#[verifier::external_body]
fn passkey_take_apart(passkey: &webauthn_rs::prelude::Passkey) -> (parts: KeyParts)
    ensures
        parts.0@ == passkey_parts(*passkey).0,
        parts.1 == passkey_parts(*passkey).1,
        option_bytes(parts.2) == passkey_parts(*passkey).2,
{
    let credential = webauthn_rs::prelude::Credential::from(passkey.clone());
    (credential.cred_id.0, credential.counter, serde_json::to_vec(&credential.cred).ok())
}

impl PublicKeyCredential {
    /// The credential made of the parts of a passkey; none without the key.
    pub fn from_parts(parts: KeyParts) -> (credential: Option<PublicKeyCredential>)
        ensures
            option_credential(credential) == credential_from(
                (parts.0@, parts.1, option_bytes(parts.2)),
            ),
    {
        match parts.2 {
            Some(public_key) => Some(
                PublicKeyCredential {
                    credential_id: parts.0,
                    public_key,
                    signature_counter: parts.1,
                },
            ),
            None => None,
        }
    }

    /// The credential that the record of a passkey denotes.
    pub fn from_record(record: &str) -> (credential: Option<PublicKeyCredential>)
        ensures
            option_credential(credential) == credential_in(record@),
    {
        match passkey_read(record) {
            Ok(passkey) => PublicKeyCredential::from_parts(passkey_take_apart(&passkey)),
            Err(_) => None,
        }
    }
}

/// `serde_json::to_string` of a `Passkey`: the text from which the passkey
/// can be read again. The outcome depends on the passkey alone.
#[verifier::external_body]
fn passkey_json(passkey: &webauthn_rs::prelude::Passkey) -> (written: Result<
    String,
    serde_json::Error,
>)
    ensures
        written_text(written) == passkey_record(*passkey),
{
    serde_json::to_string(passkey)
}

/// The statement that stores a credential's record under the text of its
/// owner's identifier.
pub open spec fn key_insertion(user_id_text: Seq<char>, record: Seq<char>) -> StatementView {
    StatementView::InsertKey { user_id: user_id_text, key: record }
}

/// What a description of a passkey holds for a record: the credential
/// that the record denotes beside the record, or neither.
pub open spec fn described(record: Option<Seq<char>>) -> (
    Option<PublicKeyCredentialView>,
    Option<Seq<char>>,
) {
    match record {
        Some(text) => (credential_in(text), Some(text)),
        None => (None, None),
    }
}

/// What the library keeps of a passkey: the record that writes it out, and
/// the credential that this record denotes. A passkey that cannot be
/// written out has neither.
pub fn describe_passkey(passkey: &webauthn_rs::prelude::Passkey) -> (r: (
    Option<PublicKeyCredential>,
    Option<String>,
))
    ensures
        (option_credential(r.0), option_text(r.1)) == described(passkey_record(*passkey)),
{
    describe_record(passkey_json(passkey))
}

/// The description of a passkey for the outcome of writing it out.
pub fn describe_record(written: Result<String, serde_json::Error>) -> (r: (
    Option<PublicKeyCredential>,
    Option<String>,
))
    ensures
        (option_credential(r.0), option_text(r.1)) == described(written_text(written)),
{
    match written {
        Ok(text) => {
            let credential = PublicKeyCredential::from_record(text.as_str());
            (credential, Some(text))
        },
        Err(_) => (None, None),
    }
}

/// The statement that stores the record of a passkey for a user, or the
/// failure where there is no record.
pub open spec fn key_statement(uuid: UserId, record: Option<Seq<char>>) -> Result<
    StatementView,
    Errors,
> {
    match record {
        Some(text) => Ok(key_insertion(uuid_hyphenated(uuid.value), text)),
        None => Err(Errors::MalformedStoredCredentialField),
    }
}

/// The contents of a statement or of the failure to make one.
pub open spec fn statement_view(r: Result<Statement, Errors>) -> Result<StatementView, Errors> {
    match r {
        Ok(statement) => Ok(statement@),
        Err(e) => Err(e),
    }
}

/// The statement that stores a passkey for a user: the passkey's record
/// under the hyphenated text of the user's identifier. A passkey that
/// cannot be written out is `MalformedStoredCredentialField`.
pub fn add_key(uuid: UserId, key: &webauthn_rs::prelude::Passkey) -> (r: Result<Statement, Errors>)
    ensures
        statement_view(r) == key_statement(uuid, passkey_record(*key)),
{
    let (_, record) = describe_passkey(key);
    store_key(uuid, record)
}

/// The statement that stores the record of a passkey for a user, where
/// there is a record.
pub fn store_key(uuid: UserId, record: Option<String>) -> (r: Result<Statement, Errors>)
    ensures
        statement_view(r) == key_statement(uuid, option_text(record)),
{
    match record {
        Some(text) => Ok(Statement::InsertKey { user_id: uuid.to_hyphenated(), key: text }),
        None => Err(Errors::MalformedStoredCredentialField),
    }
}

} // verus!
