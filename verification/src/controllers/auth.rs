//! Sessions, signing in with a password and registering one.

use crate::controllers::auth::passkey_auth::{RegistrationChallenge, RegistrationChallengeView};
use crate::errors::{error_body, handle_error, Errors, INTERNAL_SERVER_ERROR};
use crate::models::passwords::{
    check_start, check_step, validate_password, PasswordCheck, PasswordCheckView,
};
use crate::models::store::{Progress, ProgressView, ReplyView, StoreReply};
use crate::models::users::{
    create_user_with_password, registration_start, Registration, UserId,
};
use vstd::prelude::*;

pub mod passkey_auth;

verus! {

/// Who is signed in on a session.
#[derive(Clone, Debug, PartialEq, Eq)]
pub struct AuthState {
    pub username: String,
    pub userid: UserId,
}

/// The mathematical content of an [`AuthState`].
pub struct AuthStateView {
    pub username: Seq<char>,
    pub userid: UserId,
}

impl View for AuthState {
    type V = AuthStateView;

    open spec fn view(&self) -> AuthStateView {
        AuthStateView { username: self.username@, userid: self.userid }
    }
}

/// The credentials of a sign-in or registration request.
#[derive(Clone, Debug, PartialEq, Eq)]
pub struct Login {
    pub username: String,
    pub password: String,
}

/// The mathematical content of a [`Login`].
pub struct LoginView {
    pub username: Seq<char>,
    pub password: Seq<char>,
}

impl View for Login {
    type V = LoginView;

    open spec fn view(&self) -> LoginView {
        LoginView { username: self.username@, password: self.password@ }
    }
}

impl LoginView {
    /// A request that carries neither a username nor a password.
    pub open spec fn is_blank(self) -> bool {
        self.username.len() == 0 && self.password.len() == 0
    }
}

/// What the server keeps for one client between requests: who is signed
/// in, and at most one pending passkey registration.
#[derive(Debug)]
pub struct Session {
    pub auth: Option<AuthState>,
    pub registration: Option<RegistrationChallenge>,
}

/// The mathematical content of a [`Session`].
pub struct SessionView {
    pub auth: Option<AuthStateView>,
    pub registration: Option<RegistrationChallengeView>,
}

impl View for Session {
    type V = SessionView;

    open spec fn view(&self) -> SessionView {
        SessionView {
            auth: match self.auth {
                Some(a) => Some(a@),
                None => None,
            },
            registration: match self.registration {
                Some(c) => Some(c@),
                None => None,
            },
        }
    }
}

impl Session {
    /// A session on which nothing happened yet.
    pub fn new() -> (session: Session)
        ensures
            session@ == (SessionView { auth: None, registration: None }),
    {
        Session { auth: None, registration: None }
    }

    /// Whether somebody is signed in.
    pub fn is_authenticated(&self) -> (b: bool)
        ensures
            b == self@.auth is Some,
    {
        self.auth.is_some()
    }
}

/// A sign-in between two statements: the username and the verification of
/// the password.
#[derive(Debug, PartialEq, Eq)]
pub struct SignIn {
    pub username: String,
    pub check: PasswordCheck,
}

/// The mathematical content of a [`SignIn`].
pub struct SignInView {
    pub username: Seq<char>,
    pub check: PasswordCheckView,
}

impl View for SignIn {
    type V = SignInView;

    open spec fn view(&self) -> SignInView {
        SignInView { username: self.username@, check: self.check@ }
    }
}

/// A step of a password verification, seen as a step of the sign-in for
/// `username`: it goes on with the next statement, fails as the
/// verification fails, or ends with the user signed in.
pub open spec fn sign_in_progress(
    username: Seq<char>,
    progress: ProgressView<PasswordCheckView, UserId>,
) -> ProgressView<SignInView, AuthStateView> {
    match progress {
        ProgressView::Next(check, statement) => ProgressView::Next(
            SignInView { username, check },
            statement,
        ),
        ProgressView::Done(Ok(userid)) => ProgressView::Done(Ok(AuthStateView { username, userid })),
        ProgressView::Done(Err(e)) => ProgressView::Done(Err(e)),
    }
}

/// The start of a sign-in: a blank request is refused, any other starts
/// the verification of its password.
pub open spec fn sign_in_start(req: LoginView) -> ProgressView<SignInView, AuthStateView> {
    if req.is_blank() {
        ProgressView::Done(Err(Errors::LoginErrorUsernameOrPasswordMissing))
    } else {
        sign_in_progress(req.username, check_start(req.username, req.password))
    }
}

/// One step of a sign-in.
pub open spec fn sign_in_step(state: SignInView, reply: ReplyView) -> ProgressView<
    SignInView,
    AuthStateView,
> {
    sign_in_progress(state.username, check_step(state.check, reply))
}

/// The session after a step of a sign-in: the user is signed in where the
/// step ends well, else the session is as it was.
pub open spec fn session_after_sign_in(
    session: SessionView,
    progress: ProgressView<SignInView, AuthStateView>,
) -> SessionView {
    match progress {
        ProgressView::Done(Ok(auth)) => SessionView { auth: Some(auth), ..session },
        _ => session,
    }
}

fn sign_in_from(username: String, progress: Progress<PasswordCheck, UserId>) -> (r: Progress<
    SignIn,
    AuthState,
>)
    ensures
        r@ == sign_in_progress(username@, progress@),
{
    match progress {
        Progress::Next(check, statement) => Progress::Next(SignIn { username, check }, statement),
        Progress::Done(Ok(userid)) => Progress::Done(Ok(AuthState { username, userid })),
        Progress::Done(Err(e)) => Progress::Done(Err(e)),
    }
}

/// Starts a sign-in with a password. A request with neither a username
/// nor a password is refused at once.
pub fn login(req: Login) -> (r: Progress<SignIn, AuthState>)
    ensures
        r@ == sign_in_start(req@),
{
    if req.username.as_str().is_empty() && req.password.as_str().is_empty() {
        Progress::Done(Err(Errors::LoginErrorUsernameOrPasswordMissing))
    } else {
        let progress = validate_password(req.username.as_str(), req.password.as_str());
        sign_in_from(req.username, progress)
    }
}

impl SignIn {
    /// Continues a sign-in with the store's reply. Where the password is
    /// verified, the session records who is signed in.
    pub fn resume(self, reply: StoreReply, session: &mut Session) -> (r: Progress<SignIn, AuthState>)
        ensures
            r@ == sign_in_step(self@, reply@),
            final(session)@ == session_after_sign_in(old(session)@, r@),
    {
        let r = sign_in_from(self.username, self.check.resume(reply));
        match &r {
            Progress::Done(Ok(auth)) => {
                session.auth = Some(auth.clone_state());
            },
            _ => {},
        }
        r
    }
}

/// The status code of a request that cannot be served as it stands.
pub const BAD_REQUEST: u16 = 400;

/// What the sign-in says of a failure while the password is verified.
pub const SIGN_IN_CONTEXT: &'static str = "Error validating password";

/// What a client sees of a failed sign-in: a blank request is a bad
/// request, answered with the bare text of that failure; any other failure
/// is answered like every failure, under the sign-in's context.
pub open spec fn sign_in_failure(e: Errors) -> (u16, Seq<char>) {
    if e == Errors::LoginErrorUsernameOrPasswordMissing {
        (BAD_REQUEST, e.public_text())
    } else {
        (INTERNAL_SERVER_ERROR, error_body(SIGN_IN_CONTEXT@, e))
    }
}

/// Turns the failure of a sign-in into the response handed to the client.
pub fn login_failure(e: Errors) -> (response: (u16, String))
    ensures
        (response.0, response.1@) == sign_in_failure(e),
{
    match e {
        Errors::LoginErrorUsernameOrPasswordMissing => (BAD_REQUEST, e.public_message()),
        _ => handle_error(SIGN_IN_CONTEXT, e),
    }
}

impl AuthState {
    /// A copy of the state.
    pub fn clone_state(&self) -> (copy: AuthState)
        ensures
            copy@ == self@,
    {
        AuthState { username: self.username.clone(), userid: self.userid }
    }
}

/// Starts the registration of a password for a request: whoever was signed
/// in on the session is signed out, and the registration of the username
/// begins.
pub fn create_password_registration(session: &mut Session, req: Login) -> (r: Progress<
    Registration,
    UserId,
>)
    ensures
        r@ == registration_start(req@.username, req@.password),
        final(session)@ == (SessionView { auth: None, ..old(session)@ }),
{
    session.auth = None;
    create_user_with_password(req.username.as_str(), req.password.as_str())
}

} // verus!
