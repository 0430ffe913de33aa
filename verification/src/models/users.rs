//! Users, their identifiers, and the registration of a password credential.

use crate::errors::Errors;
use crate::models::passwords;
use crate::models::store_model::{
    lemma_matching_after_push, lemma_matching_is_stored, lemma_nothing_matching_is_absent,
    matching, respond, StoreModel, UserRecord,
};
use crate::models::store::{
    rows_view, text_in, Progress, ProgressView, ReplyView, Row, Statement, StatementView,
    StoreReply, ValueView,
};
use vstd::prelude::*;
use vstd::string::StringExecFns;

verus! {

#[verifier::external_type_specification]
#[verifier::external_body]
pub struct ExUuidError(uuid::Error);

/// The 128-bit value that `uuid::Uuid::parse_str` reads from a text, if it
/// accepts the text.
pub uninterp spec fn uuid_parse(text: Seq<char>) -> Option<u128>;

/// The text that the URN form of `uuid::Uuid` prints for a 128-bit value.
pub uninterp spec fn uuid_urn(value: u128) -> Seq<char>;

/// The text that the hyphenated form of `uuid::Uuid` prints for a 128-bit
/// value.
pub uninterp spec fn uuid_hyphenated(value: u128) -> Seq<char>;

/// A version 4 identifier of the RFC 4122 variant: the value of the version
/// nibble is 4 and the two variant bits are `10`.
pub open spec fn is_random_uuid(value: u128) -> bool {
    value & 0xF000_C000_0000_0000_0000u128 == 0x4000_8000_0000_0000_0000u128
}

/// What a parse produced, as a plain value.
pub open spec fn parsed_value(r: Result<u128, uuid::Error>) -> Option<u128> {
    match r {
        Ok(v) => Some(v),
        Err(_) => None,
    }
}

/// `uuid::Uuid::new_v4`: a random identifier. Whatever the random source
/// gives, the version nibble is set to 4 and the variant bits to `10`.
#[verifier::external_body]
fn uuid_new_v4() -> (value: u128)
    ensures
        is_random_uuid(value),
{
    uuid::Uuid::new_v4().as_u128()
}

/// `uuid::Uuid::urn` and its `Display`: the text `urn:uuid:` followed by the
/// hyphenated lower-case hexadecimal digits of the value. `parse_str` reads
/// the value back from that text.
#[verifier::external_body]
fn uuid_to_urn(value: u128) -> (text: String)
    ensures
        text@ == uuid_urn(value),
        uuid_parse(text@) == Some(value),
{
    uuid::Uuid::from_u128(value).urn().to_string()
}

/// `uuid::Uuid::hyphenated` and its `Display`: the lower-case hexadecimal
/// digits of the value in five groups separated by hyphens. `parse_str`
/// reads the value back from that text.
#[verifier::external_body]
fn uuid_to_hyphenated(value: u128) -> (text: String)
    ensures
        text@ == uuid_hyphenated(value),
        uuid_parse(text@) == Some(value),
{
    uuid::Uuid::from_u128(value).hyphenated().to_string()
}

/// `uuid::Uuid::parse_str`: reads the simple, hyphenated, braced and URN
/// forms; the result depends on the text alone.
#[verifier::external_body]
fn uuid_parse_str(text: &str) -> (r: Result<u128, uuid::Error>)
    ensures
        parsed_value(r) == uuid_parse(text@),
{
    uuid::Uuid::parse_str(text).map(|id| id.as_u128())
}

/// The identifier of a user.
#[derive(Clone, Copy, Debug, PartialEq, Eq, Structural, Hash)]
pub struct UserId {
    pub value: u128,
}

impl View for UserId {
    type V = UserId;

    open spec fn view(&self) -> UserId {
        *self
    }
}

impl UserId {
    /// The identifier that a stored text denotes.
    pub open spec fn read(text: Seq<char>) -> Result<UserId, Errors> {
        UserId::from_parsed(uuid_parse(text))
    }

    /// The identifier for a parsed value, or the failure for an unreadable text.
    pub open spec fn from_parsed(parsed: Option<u128>) -> Result<UserId, Errors> {
        match parsed {
            Some(value) => Ok(UserId { value }),
            None => Err(Errors::MalformedStoredCredentialField),
        }
    }

    /// A fresh random identifier.
    pub fn generate() -> (id: UserId)
        ensures
            is_random_uuid(id.value),
    {
        UserId { value: uuid_new_v4() }
    }

    /// The text under which the identifier is stored. It reads back as the
    /// identifier.
    pub fn to_text(&self) -> (text: String)
        ensures
            text@ == uuid_urn(self.value),
            UserId::read(text@) == Ok::<UserId, Errors>(*self),
    {
        uuid_to_urn(self.value)
    }

    /// The hyphenated text of the identifier, under which a user without
    /// credentials and the owner of a key are stored. It reads back as the
    /// identifier.
    pub fn to_hyphenated(&self) -> (text: String)
        ensures
            text@ == uuid_hyphenated(self.value),
            UserId::read(text@) == Ok::<UserId, Errors>(*self),
    {
        uuid_to_hyphenated(self.value)
    }

    /// Reads an identifier from its stored text.
    pub fn parse(text: &str) -> (r: Result<UserId, Errors>)
        ensures
            r == UserId::read(text@),
    {
        UserId::parsed(uuid_parse_str(text))
    }

    /// Turns the outcome of a parse into an identifier.
    pub fn parsed(outcome: Result<u128, uuid::Error>) -> (r: Result<UserId, Errors>)
        ensures
            r == UserId::from_parsed(parsed_value(outcome)),
    {
        match outcome {
            Ok(value) => Ok(UserId { value }),
            Err(_) => Err(Errors::MalformedStoredCredentialField),
        }
    }

    /// Reads the identifier in the first column of a row.
    pub fn from_row(row: &Row) -> (r: Result<UserId, Errors>)
        ensures
            r == stored_id(row@),
    {
        match row.text_at(0) {
            Some(text) => UserId::parse(text.as_str()),
            None => Err(Errors::MalformedStoredCredentialField),
        }
    }
}

/// The identifier stored in the first column of a row.
pub open spec fn stored_id(row: Seq<ValueView>) -> Result<UserId, Errors> {
    match text_in(row, 0) {
        Some(text) => UserId::read(text),
        None => Err(Errors::MalformedStoredCredentialField),
    }
}

/// A user as listed by the store.
#[derive(Clone, Debug, PartialEq, Eq)]
pub struct User {
    pub id: UserId,
    pub username: String,
}

/// The mathematical content of a [`User`].
pub struct UserView {
    pub id: UserId,
    pub username: Seq<char>,
}

impl View for User {
    type V = UserView;

    open spec fn view(&self) -> UserView {
        UserView { id: self.id, username: self.username@ }
    }
}

/// The user that a row of identifier and username denotes.
pub open spec fn stored_user(row: Seq<ValueView>) -> Result<UserView, Errors> {
    match stored_id(row) {
        Ok(id) => match text_in(row, 1) {
            Some(username) => Ok(UserView { id, username }),
            None => Err(Errors::MalformedStoredCredentialField),
        },
        Err(e) => Err(e),
    }
}

/// The users that a list of rows denotes, or the failure of the first row
/// that denotes none.
pub open spec fn stored_users(rows: Seq<Seq<ValueView>>) -> Result<Seq<UserView>, Errors>
    decreases rows.len(),
{
    if rows.len() == 0 {
        Ok(Seq::empty())
    } else {
        match stored_users(rows.drop_last()) {
            Ok(users) => match stored_user(rows.last()) {
                Ok(user) => Ok(users.push(user)),
                Err(e) => Err(e),
            },
            Err(e) => Err(e),
        }
    }
}

/// The contents of a list of users.
pub open spec fn users_view(users: Seq<User>) -> Seq<UserView> {
    users.map_values(|u: User| u@)
}

impl User {
    /// Reads a user from a row whose first column holds the identifier and
    /// whose second column holds the username.
    pub fn from_db_row(row: &Row) -> (r: Result<User, Errors>)
        ensures
            match r {
                Ok(user) => stored_user(row@) == Ok::<UserView, Errors>(user@),
                Err(e) => stored_user(row@) == Err::<UserView, Errors>(e),
            },
    {
        let id = match UserId::from_row(row) {
            Ok(id) => id,
            Err(e) => { return Err(e); },
        };
        match row.text_at(1) {
            Some(username) => Ok(User { id, username: username.clone() }),
            None => Err(Errors::MalformedStoredCredentialField),
        }
    }

    /// The statement that stores this user, without any credential, under
    /// the given text of its identifier.
    pub fn insertion(&self, id_text: String) -> (statement: Statement)
        ensures
            statement@ == user_insertion(id_text@, self.username@),
    {
        Statement::InsertUser { id: id_text, username: self.username.clone() }
    }
}

/// The statement that stores a user without any credential.
pub open spec fn user_insertion(id_text: Seq<char>, username: Seq<char>) -> StatementView {
    StatementView::InsertUser { id: id_text, username }
}

/// Creates a user without any credential: draws a fresh identifier and
/// gives the statement that stores the user under the identifier's
/// hyphenated text.
pub fn create_user(username: &str) -> (r: (User, Statement))
    ensures
        r.0.username@ == username@,
        is_random_uuid(r.0.id.value),
        r.1@ == user_insertion(uuid_hyphenated(r.0.id.value), username@),
        r.1@ matches StatementView::InsertUser { id, .. } && UserId::read(id) == Ok::<
            UserId,
            Errors,
        >(r.0.id),
{
    let user = User { id: UserId::generate(), username: String::from_str(username) };
    let statement = user.insertion(user.id.to_hyphenated());
    (user, statement)
}

/// Whether the reply to a lookup by username shows that the user exists.
pub open spec fn reply_shows_user(reply: ReplyView) -> Result<bool, Errors> {
    match reply {
        ReplyView::Rows(rows) => Ok(rows.len() > 0),
        _ => Err(Errors::StorageError),
    }
}

/// Reads the reply to a lookup by username.
pub fn user_exists(reply: &StoreReply) -> (r: Result<bool, Errors>)
    ensures
        r == reply_shows_user(reply@),
{
    match reply {
        StoreReply::Rows(rows) => Ok(rows.len() > 0),
        _ => Err(Errors::StorageError),
    }
}

/// The listing of all users, waiting for the store's reply.
#[derive(Clone, Copy, Debug, PartialEq, Eq)]
pub struct UserListing {}

impl View for UserListing {
    type V = UserListing;

    open spec fn view(&self) -> UserListing {
        *self
    }
}

/// What a reply to the listing statement denotes.
pub open spec fn listed_users(reply: ReplyView) -> Result<Seq<UserView>, Errors> {
    match reply {
        ReplyView::Rows(rows) => stored_users(rows),
        _ => Err(Errors::StorageError),
    }
}

/// Starts listing all users.
pub fn all_users() -> (r: Progress<UserListing, Vec<User>>)
    ensures
        r@ == ProgressView::<UserListing, Seq<User>>::Next(
            UserListing {  },
            StatementView::SelectUsers,
        ),
{
    Progress::Next(UserListing {  }, Statement::SelectUsers)
}

/// Reads the users that a list of rows denotes. The first row that denotes
/// no user fails the whole list.
pub fn users_from_rows(rows: &Vec<Row>) -> (r: Result<Vec<User>, Errors>)
    ensures
        match r {
            Ok(users) => stored_users(rows_view(rows@)) == Ok::<Seq<UserView>, Errors>(
                users_view(users@),
            ),
            Err(e) => stored_users(rows_view(rows@)) == Err::<Seq<UserView>, Errors>(e),
        },
{
    let mut users: Vec<User> = Vec::new();
    let mut i: usize = 0;
    proof {
        assert(rows_view(rows@).take(0).len() == 0);
        assert(users_view(users@) =~= Seq::<UserView>::empty());
    }
    while i < rows.len()
        invariant
            i <= rows.len(),
            stored_users(rows_view(rows@).take(i as int)) == Ok::<Seq<UserView>, Errors>(
                users_view(users@),
            ),
        decreases rows.len() - i,
    {
        proof {
            let all = rows_view(rows@);
            assert(all.take(i + 1).drop_last() =~= all.take(i as int));
            assert(all.take(i + 1).last() == rows@[i as int]@);
        }
        match User::from_db_row(&rows[i]) {
            Ok(user) => {
                proof {
                    assert(users_view(users@.push(user)) =~= users_view(users@).push(user@));
                }
                users.push(user);
            },
            Err(e) => {
                proof {
                    lemma_listing_fails_from(rows_view(rows@), i as int + 1, e);
                }
                return Err(e);
            },
        }
        i = i + 1;
    }
    proof {
        assert(rows_view(rows@).take(i as int) =~= rows_view(rows@));
    }
    Ok(users)
}

impl UserListing {
    /// Reads the listing from the store's reply.
    pub fn resume(self, reply: StoreReply) -> (r: Progress<UserListing, Vec<User>>)
        ensures
            match r {
                Progress::Done(Ok(users)) => listed_users(reply@) == Ok::<Seq<UserView>, Errors>(
                    users_view(users@),
                ),
                Progress::Done(Err(e)) => listed_users(reply@) == Err::<Seq<UserView>, Errors>(e),
                Progress::Next(..) => false,
            },
    {
        match reply {
            StoreReply::Rows(rows) => Progress::Done(users_from_rows(&rows)),
            _ => Progress::Done(Err(Errors::StorageError)),
        }
    }
}

/// A listing that fails on a prefix of the rows fails the same way on all
/// of them.
proof fn lemma_listing_fails_from(rows: Seq<Seq<ValueView>>, n: int, e: Errors)
    requires
        0 <= n <= rows.len(),
        stored_users(rows.take(n)) == Err::<Seq<UserView>, Errors>(e),
    ensures
        stored_users(rows) == Err::<Seq<UserView>, Errors>(e),
    decreases rows.len() - n,
{
    if n == rows.len() {
        assert(rows.take(n) =~= rows);
    } else {
        assert(rows.take(n + 1).drop_last() =~= rows.take(n));
        lemma_listing_fails_from(rows, n + 1, e);
    }
}

/// The registration of a password credential, between its two statements.
#[derive(Debug, PartialEq, Eq)]
pub enum Registration {
    /// Waiting to learn whether the username is taken.
    AwaitingLookup { username: String, password: String },
    /// Waiting for the store to accept the new user.
    AwaitingInsert { id: UserId },
}

/// The mathematical content of a [`Registration`].
pub enum RegistrationView {
    AwaitingLookup { username: Seq<char>, password: Seq<char> },
    AwaitingInsert { id: UserId },
}

impl View for Registration {
    type V = RegistrationView;

    open spec fn view(&self) -> RegistrationView {
        match *self {
            Registration::AwaitingLookup { username, password } => RegistrationView::AwaitingLookup {
                username: username@,
                password: password@,
            },
            Registration::AwaitingInsert { id } => RegistrationView::AwaitingInsert { id },
        }
    }
}

/// The start of a registration: look the username up.
pub open spec fn registration_start(username: Seq<char>, password: Seq<char>) -> ProgressView<
    RegistrationView,
    UserId,
> {
    ProgressView::Next(
        RegistrationView::AwaitingLookup { username, password },
        StatementView::SelectId { username },
    )
}

/// What a registration draws: a fresh identifier, the text under which it
/// is stored, and a fresh salt.
#[derive(Clone, Debug, PartialEq, Eq)]
pub struct Draw {
    pub id: UserId,
    pub id_text: String,
    pub salt: String,
}

/// The mathematical content of a [`Draw`].
pub struct DrawView {
    pub id: UserId,
    pub id_text: Seq<char>,
    pub salt: Seq<char>,
}

impl View for Draw {
    type V = DrawView;

    open spec fn view(&self) -> DrawView {
        DrawView { id: self.id, id_text: self.id_text@, salt: self.salt@ }
    }
}

impl DrawView {
    /// The identifier is a random one, its text reads back as the
    /// identifier, and the salt is a well-formed salt text.
    pub open spec fn valid(self) -> bool {
        &&& is_random_uuid(self.id.value)
        &&& UserId::read(self.id_text) == Ok::<UserId, Errors>(self.id)
        &&& passwords::is_salt_text(self.salt)
    }
}

impl Draw {
    /// Draws a fresh identifier and a fresh salt.
    pub fn new() -> (draw: Draw)
        ensures
            draw@.valid(),
            draw@.id_text == uuid_urn(draw@.id.value),
    {
        let id = UserId::generate();
        let id_text = id.to_text();
        Draw { id, id_text, salt: passwords::generate_salt() }
    }
}

/// What follows the hashing of the password with the drawn salt: the
/// statement that stores the user, or the failure to form the credential.
pub open spec fn registration_hashed(
    username: Seq<char>,
    draw: DrawView,
    hash: Option<Seq<char>>,
) -> ProgressView<RegistrationView, UserId> {
    match hash {
        Some(hash) => ProgressView::Next(
            RegistrationView::AwaitingInsert { id: draw.id },
            StatementView::InsertUserWithPassword {
                id: draw.id_text,
                username,
                hash,
                salt: draw.salt,
            },
        ),
        None => ProgressView::Done(Err(Errors::MalformedStoredCredentialField)),
    }
}

/// One step of a registration, for what is drawn in it.
pub open spec fn registration_step(
    state: RegistrationView,
    reply: ReplyView,
    draw: DrawView,
) -> ProgressView<RegistrationView, UserId> {
    match state {
        RegistrationView::AwaitingLookup { username, password } => match reply_shows_user(reply) {
            Ok(true) => ProgressView::Done(Err(Errors::UsernameTaken)),
            Ok(false) => registration_hashed(
                username,
                draw,
                passwords::salted_hash(password, draw.salt),
            ),
            Err(e) => ProgressView::Done(Err(e)),
        },
        RegistrationView::AwaitingInsert { id } => match reply {
            ReplyView::Rows(_) => ProgressView::Done(Ok(id)),
            ReplyView::Conflict => ProgressView::Done(Err(Errors::UsernameTaken)),
            ReplyView::Failed => ProgressView::Done(Err(Errors::StorageError)),
        },
    }
}

/// Starts the registration of `username` with a password: the first
/// statement looks the username up.
pub fn create_user_with_password(username: &str, password: &str) -> (r: Progress<
    Registration,
    UserId,
>)
    ensures
        r@ == registration_start(username@, password@),
{
    Progress::Next(
        Registration::AwaitingLookup {
            username: String::from_str(username),
            password: String::from_str(password),
        },
        Statement::SelectId { username: String::from_str(username) },
    )
}

impl Registration {
    /// Continues the registration with the store's reply.
    ///
    /// A taken username ends it with `UsernameTaken`, at the lookup or at
    /// the insertion. Otherwise the step is the one that
    /// [`registration_step`] gives for a fresh identifier and a fresh salt.
    pub fn resume(self, reply: StoreReply) -> (r: Progress<Registration, UserId>)
        ensures
            exists|draw: DrawView|
                draw.valid() && r@ == #[trigger] registration_step(self@, reply@, draw),
    {
        let draw = Draw::new();
        self.resume_with(reply, draw)
    }

    /// Continues the registration with the store's reply, using the given
    /// draw where the step needs one.
    pub fn resume_with(self, reply: StoreReply, draw: Draw) -> (r: Progress<Registration, UserId>)
        ensures
            r@ == registration_step(self@, reply@, draw@),
    {
        match self {
            Registration::AwaitingLookup { username, password } => match user_exists(&reply) {
                Ok(true) => Progress::Done(Err(Errors::UsernameTaken)),
                Ok(false) => {
                    let hash = passwords::get_hash(password.as_str(), draw.salt.as_str());
                    Registration::hashed(username, draw, hash)
                },
                Err(e) => Progress::Done(Err(e)),
            },
            Registration::AwaitingInsert { id } => match reply {
                StoreReply::Rows(_) => Progress::Done(Ok(id)),
                StoreReply::Conflict => Progress::Done(Err(Errors::UsernameTaken)),
                StoreReply::Failed => Progress::Done(Err(Errors::StorageError)),
            },
        }
    }

    /// What follows the hashing: the statement that stores the user with
    /// the hash and the drawn salt, or the failure to form the credential.
    pub fn hashed(username: String, draw: Draw, hash: Option<String>) -> (r: Progress<
        Registration,
        UserId,
    >)
        ensures
            r@ == registration_hashed(username@, draw@, passwords::option_text(hash)),
    {
        match hash {
            Some(hash) => Progress::Next(
                Registration::AwaitingInsert { id: draw.id },
                Statement::InsertUserWithPassword {
                    id: draw.id_text,
                    username,
                    hash,
                    salt: draw.salt,
                },
            ),
            None => Progress::Done(Err(Errors::MalformedStoredCredentialField)),
        }
    }
}

/// A registration run against a model store for at most `rounds`
/// statements: the store afterwards and the result.
pub open spec fn registration_run(
    store: StoreModel,
    progress: ProgressView<RegistrationView, UserId>,
    draw: DrawView,
    rounds: nat,
) -> (StoreModel, Result<UserId, Errors>)
    decreases rounds,
{
    match progress {
        ProgressView::Done(result) => (store, result),
        ProgressView::Next(state, statement) => if rounds == 0 {
            (store, Err(Errors::StorageError))
        } else {
            let (after, reply) = respond(store, statement);
            registration_run(
                after,
                registration_step(state, reply, draw),
                draw,
                (rounds - 1) as nat,
            )
        },
    }
}

/// A whole registration against a model store, for what is drawn in it.
pub open spec fn registration_outcome(
    store: StoreModel,
    username: Seq<char>,
    password: Seq<char>,
    draw: DrawView,
) -> (StoreModel, Result<UserId, Errors>) {
    registration_run(store, registration_start(username, password), draw, 2)
}

/// The record that a successful registration stores.
pub open spec fn registered_record(
    username: Seq<char>,
    password: Seq<char>,
    draw: DrawView,
) -> UserRecord {
    UserRecord {
        id: draw.id_text,
        username,
        hash: passwords::salted_hash(password, draw.salt),
        salt: Some(draw.salt),
    }
}

/// A registration succeeds exactly when the username is free, the drawn
/// identifier is unused and the password can be hashed; it then returns
/// the drawn identifier and adds one record to the store. A taken username
/// is refused with `UsernameTaken` and leaves the store as it was.
pub proof fn lemma_registration_outcome(
    store: StoreModel,
    username: Seq<char>,
    password: Seq<char>,
    draw: DrawView,
)
    ensures
        ({
            let outcome = registration_outcome(store, username, password, draw);
            let free = matching(store.users, username, None).len() == 0;
            let unused = forall|i: int|
                0 <= i < store.users.len() ==> (#[trigger] store.users[i]).id != draw.id_text;
            &&& outcome.1 is Ok <==> free && unused && passwords::salted_hash(password, draw.salt)
                is Some
            &&& outcome.1 is Ok ==> outcome.1 == Ok::<UserId, Errors>(draw.id) && outcome.0
                == (StoreModel {
                users: store.users.push(registered_record(username, password, draw)),
                ..store
            })
            &&& !free ==> outcome == (store, Err::<UserId, Errors>(Errors::UsernameTaken))
            &&& outcome.1 is Err ==> outcome.0 == store
        }),
{
    reveal_with_fuel(registration_run, 3);
    let found = matching(store.users, username, None);
    if found.len() == 0 {
        lemma_nothing_matching_is_absent(store.users, username, None);
    } else {
        lemma_matching_is_stored(store.users, username, None, 0);
    }
}

/// Registering a username twice: the second registration is refused with
/// `UsernameTaken`, whatever its password and draw, and the store holds
/// exactly one record for the username afterwards.
pub proof fn lemma_second_registration_is_refused(
    store: StoreModel,
    username: Seq<char>,
    password: Seq<char>,
    draw: DrawView,
    second_password: Seq<char>,
    second_draw: DrawView,
)
    requires
        registration_outcome(store, username, password, draw).1 is Ok,
    ensures
        ({
            let after = registration_outcome(store, username, password, draw).0;
            &&& registration_outcome(after, username, second_password, second_draw) == (
                after,
                Err::<UserId, Errors>(Errors::UsernameTaken),
            )
            &&& matching(after.users, username, None).len() == 1
        }),
{
    lemma_registration_outcome(store, username, password, draw);
    let after = registration_outcome(store, username, password, draw).0;
    lemma_matching_after_push(
        store.users,
        registered_record(username, password, draw),
        username,
        None,
    );
    lemma_registration_outcome(after, username, second_password, second_draw);
}

} // verus!
