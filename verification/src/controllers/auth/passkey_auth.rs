//! The passkey registration ceremony: a challenge is issued for a user and
//! kept on the session, and the client's response to it is judged once.

use crate::controllers::auth::{Session, SessionView};
use crate::errors::Errors;
use crate::models::keys::{
    credential_in, describe_passkey, described, key_insertion, option_credential,
    passkey_record, PublicKeyCredential, PublicKeyCredentialView,
};
use crate::models::passwords::option_text;
use crate::models::store::{
    Progress, ProgressView, ReplyView, Statement, StatementView, StoreReply,
};
use crate::models::store_model::{
    lemma_matching_after_push, lemma_matching_is_stored, lemma_nothing_matching_is_absent,
    matching, respond, KeyRecord, StoreModel, UserRecord,
};
use crate::models::users::{
    is_random_uuid, stored_id, user_insertion, uuid_hyphenated, User, UserId, UserView,
};
use vstd::prelude::*;
use vstd::string::StringExecFns;
use webauthn_rs::prelude::{
    CreationChallengeResponse, Passkey, PasskeyRegistration, RegisterPublicKeyCredential,
    WebauthnError,
};
use webauthn_rs::Webauthn;

verus! {

#[verifier::external_type_specification]
#[verifier::external_body]
pub struct ExWebauthn(Webauthn);

#[verifier::external_type_specification]
#[verifier::external_body]
pub struct ExCreationChallengeResponse(CreationChallengeResponse);

#[verifier::external_type_specification]
#[verifier::external_body]
pub struct ExPasskeyRegistration(PasskeyRegistration);

#[verifier::external_type_specification]
#[verifier::external_body]
pub struct ExRegisterPublicKeyCredential(RegisterPublicKeyCredential);

#[verifier::external_type_specification]
#[verifier::external_body]
pub struct ExWebauthnError(WebauthnError);

/// The primitive's answer to the start of a ceremony: the challenge for the
/// client and the state against which the response will be judged.
pub type StartAnswer = Result<(CreationChallengeResponse, PasskeyRegistration), WebauthnError>;

/// The user that a challenge names to the client: the identifier, the
/// name and the display name.
pub uninterp spec fn challenge_user(challenge: CreationChallengeResponse) -> (
    u128,
    Seq<char>,
    Seq<char>,
);

/// What holds of every answer of the primitive to the start of a ceremony
/// for a user: it refuses exactly an empty name or display name, and a
/// challenge names the user it was asked for.
pub open spec fn start_answer_fits(
    outcome: StartAnswer,
    user_id: u128,
    user_name: Seq<char>,
    user_display_name: Seq<char>,
) -> bool {
    &&& outcome is Ok <==> user_name.len() > 0 && user_display_name.len() > 0
    &&& outcome matches Ok(issued) ==> challenge_user(issued.0) == (
        user_id,
        user_name,
        user_display_name,
    )
}

/// `Webauthn::start_passkey_registration`: a fresh random challenge for a
/// user and the state needed to judge the response to it. The primitive
/// refuses only an empty name or display name, and the challenge carries
/// the user's identifier, name and display name as they were given.
#[verifier::external_body]
fn webauthn_start(
    webauthn: &Webauthn,
    user_id: u128,
    user_name: &str,
    user_display_name: &str,
    exclude_credentials: Option<Vec<Vec<u8>>>,
) -> (outcome: StartAnswer)
    ensures
        outcome is Ok == (user_name@.len() > 0 && user_display_name@.len() > 0),
        outcome matches Ok(issued) ==> challenge_user(issued.0).0 == user_id,
        outcome matches Ok(issued) ==> challenge_user(issued.0).1 == user_name@,
        outcome matches Ok(issued) ==> challenge_user(issued.0).2 == user_display_name@,
{
    webauthn.start_passkey_registration(
        uuid::Uuid::from_u128(user_id),
        user_name,
        user_display_name,
        exclude_credentials.map(|ids| ids.into_iter().map(|id| id.into()).collect()),
    )
}

/// `Webauthn::finish_passkey_registration`: judges a client's response
/// against the state of the ceremony it answers. Nothing is promised of
/// the outcome.
#[verifier::external_body]
fn webauthn_finish(
    webauthn: &Webauthn,
    response: &RegisterPublicKeyCredential,
    state: &PasskeyRegistration,
) -> Result<Passkey, WebauthnError> {
    webauthn.finish_passkey_registration(response, state)
}

/// A pending registration ceremony: the user it is for and the state
/// against which the response will be judged.
#[derive(Debug)]
pub struct RegistrationChallenge {
    pub user_id: UserId,
    pub username: String,
    pub ceremony_state: PasskeyRegistration,
}

/// The mathematical content of a [`RegistrationChallenge`].
pub struct RegistrationChallengeView {
    pub user_id: UserId,
    pub username: Seq<char>,
    pub ceremony_state: PasskeyRegistration,
}

impl View for RegistrationChallenge {
    type V = RegistrationChallengeView;

    open spec fn view(&self) -> RegistrationChallengeView {
        RegistrationChallengeView {
            user_id: self.user_id,
            username: self.username@,
            ceremony_state: self.ceremony_state,
        }
    }
}

/// What the start of a ceremony hands back: the user and the challenge to
/// send to the client's authenticator.
#[derive(Debug)]
pub struct Issued {
    pub user_id: UserId,
    pub challenge: CreationChallengeResponse,
}

impl View for Issued {
    type V = Issued;

    open spec fn view(&self) -> Issued {
        *self
    }
}

/// The start of a ceremony, between two statements.
#[derive(Debug, PartialEq, Eq)]
pub enum Enrollment {
    /// Waiting to learn whether the user exists.
    AwaitingLookup { username: String },
    /// Waiting for the store to accept the new user.
    AwaitingInsert { user: User },
}

/// The mathematical content of an [`Enrollment`].
pub enum EnrollmentView {
    AwaitingLookup { username: Seq<char> },
    AwaitingInsert { user: UserView },
}

impl View for Enrollment {
    type V = EnrollmentView;

    open spec fn view(&self) -> EnrollmentView {
        match *self {
            Enrollment::AwaitingLookup { username } => EnrollmentView::AwaitingLookup {
                username: username@,
            },
            Enrollment::AwaitingInsert { user } => EnrollmentView::AwaitingInsert { user: user@ },
        }
    }
}

impl EnrollmentView {
    /// The username for which the ceremony is started.
    pub open spec fn username(self) -> Seq<char> {
        match self {
            EnrollmentView::AwaitingLookup { username } => username,
            EnrollmentView::AwaitingInsert { user } => user.username,
        }
    }
}

/// The first statement of a ceremony's start: look the username up.
pub open spec fn enrollment_start(username: Seq<char>) -> ProgressView<EnrollmentView, Issued> {
    ProgressView::Next(
        EnrollmentView::AwaitingLookup { username },
        StatementView::SelectId { username },
    )
}

/// The part of a step that settles the user: a stored user is taken as
/// found, an absent one is created under the drawn identifier.
pub open spec fn enrollment_user(
    state: EnrollmentView,
    reply: ReplyView,
    id: UserId,
    id_text: Seq<char>,
) -> ProgressView<EnrollmentView, UserView> {
    match state {
        EnrollmentView::AwaitingLookup { username } => match reply {
            ReplyView::Rows(rows) => if rows.len() > 0 {
                match stored_id(rows[0]) {
                    Ok(found) => ProgressView::Done(Ok(UserView { id: found, username })),
                    Err(e) => ProgressView::Done(Err(e)),
                }
            } else {
                ProgressView::Next(
                    EnrollmentView::AwaitingInsert { user: UserView { id, username } },
                    user_insertion(id_text, username),
                )
            },
            _ => ProgressView::Done(Err(Errors::StorageError)),
        },
        EnrollmentView::AwaitingInsert { user } => match reply {
            ReplyView::Rows(_) => ProgressView::Done(Ok(user)),
            ReplyView::Conflict => ProgressView::Done(Err(Errors::UsernameTaken)),
            ReplyView::Failed => ProgressView::Done(Err(Errors::StorageError)),
        },
    }
}

/// The session after the ceremony primitive answered for a user, and what
/// the start returns: a challenge replaces whatever ceremony was pending
/// on the session; a refusal leaves the session as it was.
pub open spec fn issue_outcome(
    session: SessionView,
    user: UserView,
    outcome: StartAnswer,
) -> (SessionView, Result<Issued, Errors>) {
    match outcome {
        Ok((challenge, ceremony_state)) => (
            SessionView {
                registration: Some(
                    RegistrationChallengeView {
                        user_id: user.id,
                        username: user.username,
                        ceremony_state,
                    },
                ),
                ..session
            },
            Ok(Issued { user_id: user.id, challenge }),
        ),
        Err(_) => (session, Err(Errors::RegistrationVerificationFailed)),
    }
}

/// Whether an answer of the primitive fits a step of a ceremony's start:
/// where the step settles the user, the answer is one for that user, asked
/// with the username as name and as display name. A step that does not
/// reach the primitive fits any answer.
pub open spec fn enrollment_answer_fits(
    state: EnrollmentView,
    reply: ReplyView,
    id: UserId,
    id_text: Seq<char>,
    outcome: StartAnswer,
) -> bool {
    match enrollment_user(state, reply, id, id_text) {
        ProgressView::Done(Ok(user)) => start_answer_fits(
            outcome,
            user.id.value,
            user.username,
            user.username,
        ),
        _ => true,
    }
}

/// One step of a ceremony's start, for the identifier drawn in it and the
/// primitive's answer: the session afterwards and the progress.
pub open spec fn enrollment_step(
    state: EnrollmentView,
    reply: ReplyView,
    session: SessionView,
    id: UserId,
    id_text: Seq<char>,
    outcome: StartAnswer,
) -> (SessionView, ProgressView<EnrollmentView, Issued>) {
    match enrollment_user(state, reply, id, id_text) {
        ProgressView::Next(next, statement) => (session, ProgressView::Next(next, statement)),
        ProgressView::Done(Err(e)) => (session, ProgressView::Done(Err(e))),
        ProgressView::Done(Ok(user)) => {
            let (after, issued) = issue_outcome(session, user, outcome);
            (after, ProgressView::Done(issued))
        },
    }
}

/// Starts a registration ceremony for a username: the first statement
/// looks the user up.
pub fn start_registration(username: &str) -> (r: Progress<Enrollment, Issued>)
    ensures
        r@ == enrollment_start(username@),
{
    Progress::Next(
        Enrollment::AwaitingLookup { username: String::from_str(username) },
        Statement::SelectId { username: String::from_str(username) },
    )
}

impl Enrollment {
    /// Continues the start of a ceremony with the store's reply. Once the
    /// user is settled, the ceremony primitive is asked for a challenge
    /// for that user, with the username as name and as display name and
    /// with no credential excluded, and the state of the challenge is put
    /// on the session in place of any pending one. The challenge returned
    /// names the user returned.
    pub fn resume(self, reply: StoreReply, webauthn: &Webauthn, session: &mut Session) -> (r:
        Progress<Enrollment, Issued>)
        ensures
            exists|
                id: UserId,
                id_text: Seq<char>,
                outcome: StartAnswer,
            |
                is_random_uuid(id.value) && id_text == uuid_hyphenated(id.value) && UserId::read(
                    id_text,
                ) == Ok::<UserId, Errors>(id) && enrollment_answer_fits(
                    self@,
                    reply@,
                    id,
                    id_text,
                    outcome,
                ) && (final(session)@, r@) == #[trigger] enrollment_step(
                    self@,
                    reply@,
                    old(session)@,
                    id,
                    id_text,
                    outcome,
                ),
            r matches Progress::Done(Ok(issued)) ==> challenge_user(issued.challenge) == (
                issued.user_id.value,
                self@.username(),
                self@.username(),
            ),
    {
        let id = UserId::generate();
        let id_text = id.to_hyphenated();
        let ghost before = session@;
        let ghost state = self@;
        match self.settle_user(reply, id, id_text) {
            Progress::Next(next, statement) => {
                proof {
                    let outcome: StartAnswer = arbitrary();
                    assert(enrollment_answer_fits(state, reply@, id, id_text@, outcome) && (
                        session@,
                        ProgressView::<EnrollmentView, Issued>::Next(next@, statement@),
                    ) == enrollment_step(state, reply@, before, id, id_text@, outcome));
                }
                Progress::Next(next, statement)
            },
            Progress::Done(Err(e)) => {
                proof {
                    let outcome: StartAnswer = arbitrary();
                    assert(enrollment_answer_fits(state, reply@, id, id_text@, outcome) && (
                        session@,
                        ProgressView::<EnrollmentView, Issued>::Done(Err(e)),
                    ) == enrollment_step(state, reply@, before, id, id_text@, outcome));
                }
                Progress::Done(Err(e))
            },
            Progress::Done(Ok(user)) => {
                let outcome = webauthn_start(
                    webauthn,
                    user.id.value,
                    user.username.as_str(),
                    user.username.as_str(),
                    None,
                );
                let ghost answer = outcome;
                let issued = issue(session, user, outcome);
                let r = Progress::Done(issued);
                proof {
                    assert(user@.username == state.username());
                    assert(enrollment_answer_fits(state, reply@, id, id_text@, answer) && (
                        session@,
                        r@,
                    ) == enrollment_step(state, reply@, before, id, id_text@, answer));
                }
                r
            },
        }
    }

    /// The part of a step that settles the user, creating an absent one
    /// under the given identifier and its text.
    pub fn settle_user(self, reply: StoreReply, id: UserId, id_text: String) -> (r: Progress<
        Enrollment,
        User,
    >)
        ensures
            r@ == enrollment_user(self@, reply@, id, id_text@),
    {
        match self {
            Enrollment::AwaitingLookup { username } => match reply {
                StoreReply::Rows(rows) => {
                    if rows.len() > 0 {
                        match UserId::from_row(&rows[0]) {
                            Ok(found) => Progress::Done(Ok(User { id: found, username })),
                            Err(e) => Progress::Done(Err(e)),
                        }
                    } else {
                        let user = User { id, username };
                        let statement = user.insertion(id_text);
                        Progress::Next(Enrollment::AwaitingInsert { user }, statement)
                    }
                },
                _ => Progress::Done(Err(Errors::StorageError)),
            },
            Enrollment::AwaitingInsert { user } => match reply {
                StoreReply::Rows(_) => Progress::Done(Ok(user)),
                StoreReply::Conflict => Progress::Done(Err(Errors::UsernameTaken)),
                StoreReply::Failed => Progress::Done(Err(Errors::StorageError)),
            },
        }
    }
}

/// Puts the primitive's answer for a user on the session: a challenge
/// replaces whatever ceremony was pending, a refusal changes nothing.
pub fn issue(
    session: &mut Session,
    user: User,
    outcome: StartAnswer,
) -> (r: Result<Issued, Errors>)
    ensures
        (final(session)@, r) == issue_outcome(old(session)@, user@, outcome),
{
    match outcome {
        Ok((challenge, ceremony_state)) => {
            session.registration = Some(
                RegistrationChallenge {
                    user_id: user.id,
                    username: user.username,
                    ceremony_state,
                },
            );
            Ok(Issued { user_id: user.id, challenge })
        },
        Err(_) => Err(Errors::RegistrationVerificationFailed),
    }
}

/// The end of a ceremony, waiting for the store to accept the credential.
#[derive(Debug, PartialEq, Eq)]
pub struct Completion {
    pub credential: PublicKeyCredential,
}

/// The mathematical content of a [`Completion`].
pub struct CompletionView {
    pub credential: PublicKeyCredentialView,
}

impl View for Completion {
    type V = CompletionView;

    open spec fn view(&self) -> CompletionView {
        CompletionView { credential: self.credential@ }
    }
}

/// The session without its pending ceremony, and the ceremony that was pending.
pub open spec fn take_pending(session: SessionView) -> (
    SessionView,
    Option<RegistrationChallengeView>,
) {
    (SessionView { registration: None, ..session }, session.registration)
}

/// What follows for an accepted passkey from its description: with a
/// record and the credential that the record denotes, the record is stored
/// under the hyphenated text of the user's identifier; a passkey that
/// cannot be written out, or whose record does not read back, is
/// `MalformedStoredCredentialField`.
pub open spec fn completion_described(
    user_id: UserId,
    credential: Option<PublicKeyCredentialView>,
    record: Option<Seq<char>>,
) -> ProgressView<CompletionView, PublicKeyCredentialView> {
    match (credential, record) {
        (Some(credential), Some(record)) => ProgressView::Next(
            CompletionView { credential },
            key_insertion(uuid_hyphenated(user_id.value), record),
        ),
        _ => ProgressView::Done(Err(Errors::MalformedStoredCredentialField)),
    }
}

/// What follows the primitive's answer to a response for a user: a refusal
/// is `RegistrationVerificationFailed`; an accepted passkey is described
/// and goes on as its description says.
pub open spec fn judged_outcome(
    user_id: UserId,
    outcome: Result<Passkey, WebauthnError>,
) -> ProgressView<CompletionView, PublicKeyCredentialView> {
    match outcome {
        Ok(passkey) => {
            let (credential, record) = described(passkey_record(passkey));
            completion_described(user_id, credential, record)
        },
        Err(_) => ProgressView::Done(Err(Errors::RegistrationVerificationFailed)),
    }
}

/// The end of a ceremony on a session, for the primitive's answer: the
/// session afterwards and the progress. Without a pending ceremony it is
/// `ChallengeNotFound` and the session is as it was. A pending ceremony is
/// removed whatever the answer is.
pub open spec fn finish_step(session: SessionView, outcome: Result<Passkey, WebauthnError>) -> (
    SessionView,
    ProgressView<CompletionView, PublicKeyCredentialView>,
) {
    match session.registration {
        None => (session, ProgressView::Done(Err(Errors::ChallengeNotFound))),
        Some(challenge) => (take_pending(session).0, judged_outcome(challenge.user_id, outcome)),
    }
}

/// One step of a ceremony's end.
pub open spec fn completion_step(state: CompletionView, reply: ReplyView) -> ProgressView<
    CompletionView,
    PublicKeyCredentialView,
> {
    match reply {
        ReplyView::Rows(_) => ProgressView::Done(Ok(state.credential)),
        _ => ProgressView::Done(Err(Errors::StorageError)),
    }
}

impl Session {
    /// Removes the pending ceremony from the session and hands it out.
    pub fn take_challenge(&mut self) -> (challenge: Option<RegistrationChallenge>)
        ensures
            (final(self)@, match challenge {
                Some(c) => Some(c@),
                None => None,
            }) == take_pending(old(self)@),
    {
        self.registration.take()
    }
}

/// Ends the ceremony pending on a session with a client's response.
///
/// Without a pending ceremony this is `ChallengeNotFound`. Otherwise the
/// ceremony is removed from the session before the response is judged
/// against its state, so that a refused response cannot be tried again,
/// and the end goes on as the primitive's answer says.
pub fn finish_registration(
    webauthn: &Webauthn,
    session: &mut Session,
    response: &RegisterPublicKeyCredential,
) -> (r: Progress<Completion, PublicKeyCredential>)
    ensures
        exists|outcome: Result<Passkey, WebauthnError>|
            (final(session)@, r@) == #[trigger] finish_step(old(session)@, outcome),
{
    let ghost before = session@;
    match session.take_challenge() {
        None => {
            let r = Progress::Done(Err(Errors::ChallengeNotFound));
            proof {
                let outcome: Result<Passkey, WebauthnError> = arbitrary();
                assert(session@ =~= before);
                assert((session@, r@) == finish_step(before, outcome));
            }
            r
        },
        Some(challenge) => {
            let r = judge(webauthn, &challenge, response);
            proof {
                let outcome = choose|outcome: Result<Passkey, WebauthnError>|
                    r@ == #[trigger] judged_outcome(challenge@.user_id, outcome);
                assert((session@, r@) == finish_step(before, outcome));
            }
            r
        },
    }
}

/// Judges a response against the state of a ceremony that was taken off
/// its session: the primitive is asked, and the end goes on as its answer
/// says.
pub fn judge(
    webauthn: &Webauthn,
    challenge: &RegistrationChallenge,
    response: &RegisterPublicKeyCredential,
) -> (r: Progress<Completion, PublicKeyCredential>)
    ensures
        exists|outcome: Result<Passkey, WebauthnError>|
            r@ == #[trigger] judged_outcome(challenge@.user_id, outcome),
{
    let outcome = webauthn_finish(webauthn, response, &challenge.ceremony_state);
    let ghost answer = outcome;
    let r = judged_of(challenge.user_id, outcome);
    assert(r@ == judged_outcome(challenge@.user_id, answer));
    r
}

/// What follows the primitive's answer to a response for a user.
pub fn judged_of(user_id: UserId, outcome: Result<Passkey, WebauthnError>) -> (r: Progress<
    Completion,
    PublicKeyCredential,
>)
    ensures
        r@ == judged_outcome(user_id, outcome),
{
    match outcome {
        Ok(passkey) => {
            let (credential, record) = describe_passkey(&passkey);
            Completion::described(user_id, credential, record)
        },
        Err(_) => Progress::Done(Err(Errors::RegistrationVerificationFailed)),
    }
}

impl Completion {
    /// What follows for an accepted passkey from its description.
    pub fn described(
        user_id: UserId,
        credential: Option<PublicKeyCredential>,
        record: Option<String>,
    ) -> (r: Progress<Completion, PublicKeyCredential>)
        ensures
            r@ == completion_described(user_id, option_credential(credential), option_text(record)),
    {
        match (credential, record) {
            (Some(credential), Some(record)) => Progress::Next(
                Completion { credential },
                Statement::InsertKey { user_id: user_id.to_hyphenated(), key: record },
            ),
            _ => Progress::Done(Err(Errors::MalformedStoredCredentialField)),
        }
    }

    /// Continues the end of a ceremony with the store's reply: the
    /// credential once it is stored, `StorageError` otherwise.
    pub fn resume(self, reply: StoreReply) -> (r: Progress<Completion, PublicKeyCredential>)
        ensures
            r@ == completion_step(self@, reply@),
    {
        match reply {
            StoreReply::Rows(_) => Progress::Done(Ok(self.credential)),
            _ => Progress::Done(Err(Errors::StorageError)),
        }
    }
}

/// Ending a ceremony twice on one session: whatever the primitive answered
/// the first time, the second end finds no ceremony and is
/// `ChallengeNotFound`.
pub proof fn lemma_second_finish_finds_nothing(
    session: SessionView,
    first: Result<Passkey, WebauthnError>,
    second: Result<Passkey, WebauthnError>,
)
    ensures
        ({
            let after = finish_step(session, first).0;
            finish_step(after, second) == (
                after,
                ProgressView::<CompletionView, PublicKeyCredentialView>::Done(
                    Err(Errors::ChallengeNotFound),
                ),
            )
        }),
{
}

/// A response that the primitive refuses ends the pending ceremony with
/// `RegistrationVerificationFailed`: no statement is issued, so nothing is
/// stored for any user, and the session holds no ceremony afterwards.
pub proof fn lemma_refused_response_stores_nothing(session: SessionView, refusal: WebauthnError)
    requires
        session.registration is Some,
    ensures
        finish_step(session, Err(refusal)) == (
            SessionView { registration: None, ..session },
            ProgressView::<CompletionView, PublicKeyCredentialView>::Done(
                Err(Errors::RegistrationVerificationFailed),
            ),
        ),
{
}

/// Starting a ceremony twice on one session: the second challenge replaces
/// the first. The session then holds exactly the second ceremony, for the
/// second user and with the second state; the first state is out of reach.
/// The end that follows takes the second ceremony off the session and goes
/// on as the primitive's answer says for the second user; a refusal stores
/// nothing.
pub proof fn lemma_restart_supersedes(
    session: SessionView,
    first_user: UserView,
    first_challenge: CreationChallengeResponse,
    first_state: PasskeyRegistration,
    second_user: UserView,
    second_challenge: CreationChallengeResponse,
    second_state: PasskeyRegistration,
    answer: Result<Passkey, WebauthnError>,
)
    ensures
        ({
            let once = issue_outcome(session, first_user, Ok((first_challenge, first_state))).0;
            let twice = issue_outcome(once, second_user, Ok((second_challenge, second_state))).0;
            &&& twice == (SessionView {
                registration: Some(
                    RegistrationChallengeView {
                        user_id: second_user.id,
                        username: second_user.username,
                        ceremony_state: second_state,
                    },
                ),
                ..session
            })
            &&& take_pending(twice).1 == twice.registration
            &&& first_state != second_state ==> take_pending(twice).1->0.ceremony_state
                != first_state
            &&& finish_step(twice, answer) == (
                SessionView { registration: None, ..session },
                judged_outcome(second_user.id, answer),
            )
            &&& answer is Err ==> finish_step(twice, answer).1 == ProgressView::<
                CompletionView,
                PublicKeyCredentialView,
            >::Done(Err(Errors::RegistrationVerificationFailed))
        }),
{
}

/// The settling of a user run against a model store for at most `rounds`
/// statements: the store afterwards and the user.
pub open spec fn settle_run(
    store: StoreModel,
    progress: ProgressView<EnrollmentView, UserView>,
    id: UserId,
    id_text: Seq<char>,
    rounds: nat,
) -> (StoreModel, Result<UserView, Errors>)
    decreases rounds,
{
    match progress {
        ProgressView::Done(result) => (store, result),
        ProgressView::Next(state, statement) => if rounds == 0 {
            (store, Err(Errors::StorageError))
        } else {
            let (after, reply) = respond(store, statement);
            settle_run(
                after,
                enrollment_user(state, reply, id, id_text),
                id,
                id_text,
                (rounds - 1) as nat,
            )
        },
    }
}

/// The whole settling of the user of a ceremony against a model store,
/// for the identifier drawn in it.
pub open spec fn settle_outcome(
    store: StoreModel,
    username: Seq<char>,
    id: UserId,
    id_text: Seq<char>,
) -> (StoreModel, Result<UserView, Errors>) {
    settle_run(
        store,
        ProgressView::Next(
            EnrollmentView::AwaitingLookup { username },
            StatementView::SelectId { username },
        ),
        id,
        id_text,
        2,
    )
}

/// The start of a ceremony makes sure that the user exists: a stored user
/// is taken with the stored identifier and the store is left as it was; an
/// absent user is stored, without credentials, under the drawn identifier.
/// Either way a user that the start returns is stored under the username.
pub proof fn lemma_start_settles_the_user(
    store: StoreModel,
    username: Seq<char>,
    id: UserId,
    id_text: Seq<char>,
)
    ensures
        ({
            let found = matching(store.users, username, None);
            let out = settle_outcome(store, username, id, id_text);
            let unused = forall|i: int|
                0 <= i < store.users.len() ==> (#[trigger] store.users[i]).id != id_text;
            &&& found.len() > 0 ==> out.0 == store && out.1 == (match UserId::read(found[0].id) {
                Ok(stored) => Ok::<UserView, Errors>(UserView { id: stored, username }),
                Err(e) => Err::<UserView, Errors>(e),
            })
            &&& found.len() == 0 && unused ==> out.1 == Ok::<UserView, Errors>(
                UserView { id, username },
            ) && out.0 == (StoreModel {
                users: store.users.push(
                    UserRecord { id: id_text, username, hash: None, salt: None },
                ),
                ..store
            })
            &&& found.len() == 0 && !unused ==> out == (
                store,
                Err::<UserView, Errors>(Errors::UsernameTaken),
            )
            &&& out.1 is Ok ==> matching(out.0.users, username, None).len() > 0
        }),
{
    reveal_with_fuel(settle_run, 3);
    let found = matching(store.users, username, None);
    if found.len() == 0 {
        lemma_nothing_matching_is_absent(store.users, username, None);
        let record = UserRecord { id: id_text, username, hash: None, salt: None };
        lemma_matching_after_push(store.users, record, username, None);
    } else {
        lemma_matching_is_stored(store.users, username, None, 0);
    }
}

/// The start of a ceremony run against a model store and a session for at
/// most `rounds` statements: the store and the session afterwards and what
/// the start returns.
pub open spec fn enrollment_run(
    store: StoreModel,
    session: SessionView,
    progress: ProgressView<EnrollmentView, Issued>,
    id: UserId,
    id_text: Seq<char>,
    outcome: StartAnswer,
    rounds: nat,
) -> (StoreModel, SessionView, Result<Issued, Errors>)
    decreases rounds,
{
    match progress {
        ProgressView::Done(result) => (store, session, result),
        ProgressView::Next(state, statement) => if rounds == 0 {
            (store, session, Err(Errors::StorageError))
        } else {
            let (after, reply) = respond(store, statement);
            let (session_after, next) = enrollment_step(
                state,
                reply,
                session,
                id,
                id_text,
                outcome,
            );
            enrollment_run(after, session_after, next, id, id_text, outcome, (rounds - 1) as nat)
        },
    }
}

/// The whole start of a ceremony against a model store and a session, for
/// the identifier drawn in it and the primitive's answer.
pub open spec fn start_outcome(
    store: StoreModel,
    session: SessionView,
    username: Seq<char>,
    id: UserId,
    id_text: Seq<char>,
    outcome: StartAnswer,
) -> (StoreModel, SessionView, Result<Issued, Errors>) {
    enrollment_run(store, session, enrollment_start(username), id, id_text, outcome, 2)
}

/// The start of a ceremony settles the user and then puts the primitive's
/// answer for that user on the session. Where the user cannot be settled,
/// the session is as it was.
pub proof fn lemma_start_settles_then_issues(
    store: StoreModel,
    session: SessionView,
    username: Seq<char>,
    id: UserId,
    id_text: Seq<char>,
    outcome: StartAnswer,
)
    ensures
        ({
            let out = start_outcome(store, session, username, id, id_text, outcome);
            let settled = settle_outcome(store, username, id, id_text);
            &&& out.0 == settled.0
            &&& match settled.1 {
                Ok(user) => (out.1, out.2) == issue_outcome(session, user, outcome),
                Err(e) => out.1 == session && out.2 == Err::<Issued, Errors>(e),
            }
        }),
{
    reveal_with_fuel(enrollment_run, 3);
    reveal_with_fuel(settle_run, 3);
}

/// The start of a ceremony for a username that no user carries, with an
/// identifier that no user has and a challenge from the primitive: the
/// store gains exactly one user, under the drawn identifier and without a
/// password credential; the session holds exactly the ceremony for that
/// user, with the state of the challenge; and the start returns the
/// identifier with the challenge.
pub proof fn lemma_start_creates_an_absent_user(
    store: StoreModel,
    session: SessionView,
    username: Seq<char>,
    id: UserId,
    id_text: Seq<char>,
    challenge: CreationChallengeResponse,
    ceremony_state: PasskeyRegistration,
)
    requires
        matching(store.users, username, None).len() == 0,
        forall|i: int| 0 <= i < store.users.len() ==> (#[trigger] store.users[i]).id != id_text,
    ensures
        ({
            let out = start_outcome(
                store,
                session,
                username,
                id,
                id_text,
                Ok((challenge, ceremony_state)),
            );
            let record = UserRecord { id: id_text, username, hash: None, salt: None };
            &&& out.0 == (StoreModel { users: store.users.push(record), ..store })
            &&& matching(out.0.users, username, None) == seq![record]
            &&& out.1 == (SessionView {
                registration: Some(
                    RegistrationChallengeView { user_id: id, username, ceremony_state },
                ),
                ..session
            })
            &&& out.2 == Ok::<Issued, Errors>(Issued { user_id: id, challenge })
        }),
{
    lemma_start_settles_then_issues(
        store,
        session,
        username,
        id,
        id_text,
        Ok((challenge, ceremony_state)),
    );
    lemma_start_settles_the_user(store, username, id, id_text);
    let record = UserRecord { id: id_text, username, hash: None, salt: None };
    lemma_matching_after_push(store.users, record, username, None);
    assert(matching(store.users, username, None).push(record) =~= seq![record]);
}

/// The start of a ceremony for a username that is not empty and that no
/// user carries, with an identifier that no user has: whatever the
/// primitive answers, the start returns the drawn identifier with a
/// challenge that names that user, and the session holds the ceremony for
/// that user.
pub proof fn lemma_start_issues_for_a_named_user(
    store: StoreModel,
    session: SessionView,
    username: Seq<char>,
    id: UserId,
    id_text: Seq<char>,
    outcome: StartAnswer,
)
    requires
        username.len() > 0,
        matching(store.users, username, None).len() == 0,
        forall|i: int| 0 <= i < store.users.len() ==> (#[trigger] store.users[i]).id != id_text,
        start_answer_fits(outcome, id.value, username, username),
    ensures
        ({
            let out = start_outcome(store, session, username, id, id_text, outcome);
            &&& out.2 matches Ok(issued) && issued.user_id == id && challenge_user(
                issued.challenge,
            ) == (id.value, username, username)
            &&& out.1.registration matches Some(pending) && pending.user_id == id
                && pending.username == username
        }),
{
    let (challenge, ceremony_state) = outcome->Ok_0;
    lemma_start_creates_an_absent_user(
        store,
        session,
        username,
        id,
        id_text,
        challenge,
        ceremony_state,
    );
}

/// An accepted passkey that can be written out and whose record reads
/// back ends, on a reliable store, with the credential returned and its
/// record stored under the identifier of the user for whom the ceremony
/// was started.
pub proof fn lemma_accepted_credential_is_stored(
    store: StoreModel,
    user_id: UserId,
    passkey: Passkey,
    credential: PublicKeyCredentialView,
    record: Seq<char>,
)
    requires
        passkey_record(passkey) == Some(record),
        credential_in(record) == Some(credential),
    ensures
        judged_outcome(user_id, Ok(passkey)) matches ProgressView::Next(state, statement) && ({
            let (after, reply) = respond(store, statement);
            &&& completion_step(state, reply) == ProgressView::<
                CompletionView,
                PublicKeyCredentialView,
            >::Done(Ok(credential))
            &&& after == (StoreModel {
                keys: store.keys.push(
                    KeyRecord { user_id: uuid_hyphenated(user_id.value), key: record },
                ),
                ..store
            })
        }),
{
}

} // verus!
