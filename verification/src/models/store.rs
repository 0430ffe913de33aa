//! What the library says to the credential store and what it hears back.
//!
//! The store itself is an outside collaborator. The library names each
//! statement it issues as a variant of [`Statement`], renders it as SQL text
//! with positional parameters, and reads the reply as rows of plain values.

use crate::errors::Errors;
use vstd::prelude::*;
use vstd::string::StrSliceExecFns;

verus! {

pub const SELECT_SALT: &'static str = "SELECT salt FROM users WHERE username = ?;";

pub const SELECT_ID_BY_HASH: &'static str = "SELECT id FROM users WHERE username=? AND hash=?;";

pub const SELECT_ID: &'static str = "SELECT id FROM users WHERE username = ?;";

pub const SELECT_USERS: &'static str = "SELECT id, username FROM users;";

pub const INSERT_USER_WITH_PASSWORD: &'static str =
    "INSERT INTO users (id, username, hash, salt) VALUES (?,?,?,?);";

pub const INSERT_USER: &'static str = "INSERT INTO users (id, username) VALUES (?, ?);";

pub const INSERT_KEY: &'static str = "INSERT INTO keys (userid, key) VALUES (?, ?);";

pub const GET_LATEST_MIGRATION: &'static str =
    "SELECT id FROM migrations ORDER BY id DESC LIMIT 1;";

pub const ADD_MIGRATION: &'static str =
    "INSERT INTO migrations (id, date, query) VALUES (?, ?, ?);";

/// One value of a row or of a parameter list.
#[derive(Clone, Debug, PartialEq, Eq)]
pub enum Value {
    Null,
    Integer(i64),
    Text(String),
    /// A value of a kind the library never reads (a blob, a real number).
    Other,
}

/// The mathematical content of a [`Value`].
pub enum ValueView {
    Null,
    Integer(i64),
    Text(Seq<char>),
    Other,
}

impl View for Value {
    type V = ValueView;

    open spec fn view(&self) -> ValueView {
        match *self {
            Value::Null => ValueView::Null,
            Value::Integer(n) => ValueView::Integer(n),
            Value::Text(s) => ValueView::Text(s@),
            Value::Other => ValueView::Other,
        }
    }
}

/// The contents of a list of values.
pub open spec fn values_view(values: Seq<Value>) -> Seq<ValueView> {
    values.map_values(|v: Value| v@)
}

/// One row of a reply, its values in column order.
#[derive(Clone, Debug, PartialEq, Eq)]
pub struct Row {
    pub values: Vec<Value>,
}

impl View for Row {
    type V = Seq<ValueView>;

    open spec fn view(&self) -> Seq<ValueView> {
        values_view(self.values@)
    }
}

/// The contents of a list of rows.
pub open spec fn rows_view(rows: Seq<Row>) -> Seq<Seq<ValueView>> {
    rows.map_values(|r: Row| r@)
}

impl Row {
    /// The text in column `index`, if the row has that column and it holds text.
    pub fn text_at(&self, index: usize) -> (text: Option<&String>)
        ensures
            match text {
                Some(s) => text_in(self@, index as int) == Some(s@),
                None => text_in(self@, index as int) is None,
            },
    {
        if index < self.values.len() {
            match &self.values[index] {
                Value::Text(s) => Some(s),
                _ => None,
            }
        } else {
            None
        }
    }

    /// The integer in column `index`, if the row has that column and it
    /// holds an integer.
    pub fn integer_at(&self, index: usize) -> (number: Option<i64>)
        ensures
            number == integer_in(self@, index as int),
    {
        if index < self.values.len() {
            match &self.values[index] {
                Value::Integer(n) => Some(*n),
                _ => None,
            }
        } else {
            None
        }
    }
}

/// The text in column `index` of a row, where there is one.
pub open spec fn text_in(row: Seq<ValueView>, index: int) -> Option<Seq<char>> {
    if 0 <= index < row.len() {
        match row[index] {
            ValueView::Text(s) => Some(s),
            _ => None,
        }
    } else {
        None
    }
}

/// The integer in column `index` of a row, where there is one.
pub open spec fn integer_in(row: Seq<ValueView>, index: int) -> Option<i64> {
    if 0 <= index < row.len() {
        match row[index] {
            ValueView::Integer(n) => Some(n),
            _ => None,
        }
    } else {
        None
    }
}

/// What the store answered to one statement.
#[derive(Clone, Debug, PartialEq, Eq)]
pub enum StoreReply {
    /// The statement was executed; a write answers with no rows.
    Rows(Vec<Row>),
    /// The store refused a write that would break a uniqueness constraint.
    Conflict,
    /// The store could not execute the statement.
    Failed,
}

/// The mathematical content of a [`StoreReply`].
pub enum ReplyView {
    Rows(Seq<Seq<ValueView>>),
    Conflict,
    Failed,
}

impl View for StoreReply {
    type V = ReplyView;

    open spec fn view(&self) -> ReplyView {
        match *self {
            StoreReply::Rows(rows) => ReplyView::Rows(rows_view(rows@)),
            StoreReply::Conflict => ReplyView::Conflict,
            StoreReply::Failed => ReplyView::Failed,
        }
    }
}

/// What the store says of a write that would break a uniqueness constraint.
pub const UNIQUE_VIOLATION: &'static str = "UNIQUE constraint failed";

/// Whether `part` stands in `text` at position `at`.
pub open spec fn occurs_at(text: Seq<char>, part: Seq<char>, at: int) -> bool {
    0 <= at && at + part.len() <= text.len() && text.subrange(at, at + part.len()) == part
}

/// Whether `part` stands somewhere in `text`.
pub open spec fn contains_text(text: Seq<char>, part: Seq<char>) -> bool {
    exists|at: int| occurs_at(text, part, at)
}

/// The reply that a failure with the given message is: a conflict where the
/// message speaks of a broken uniqueness constraint, else a plain failure.
pub open spec fn failure_reply(message: Seq<char>) -> ReplyView {
    if contains_text(message, UNIQUE_VIOLATION@) {
        ReplyView::Conflict
    } else {
        ReplyView::Failed
    }
}

/// The characters of a text.
pub fn chars_of(text: &str) -> (chars: Vec<char>)
    ensures
        chars@ == text@,
{
    let len = text.unicode_len();
    let mut chars: Vec<char> = Vec::new();
    let mut i: usize = 0;
    while i < len
        invariant
            len == text@.len(),
            i <= len,
            chars@ == text@.take(i as int),
        decreases len - i,
    {
        chars.push(text.get_char(i));
        proof {
            assert(text@.take(i as int).push(text@[i as int]) =~= text@.take(i + 1));
        }
        i = i + 1;
    }
    proof {
        assert(text@.take(len as int) =~= text@);
    }
    chars
}

/// Whether `part` stands in `text` at position `at`, which leaves room for it.
fn stands_at(text: &Vec<char>, part: &Vec<char>, at: usize) -> (found: bool)
    requires
        at + part.len() <= text.len(),
    ensures
        found == occurs_at(text@, part@, at as int),
{
    let mut j: usize = 0;
    while j < part.len()
        invariant
            at + part.len() <= text.len(),
            j <= part.len(),
            forall|t: int| 0 <= t < j ==> text@[at + t] == part@[t],
        decreases part.len() - j,
    {
        if text[at + j] != part[j] {
            proof {
                assert(text@.subrange(at as int, at + part.len())[j as int] == text@[at + j]);
            }
            return false;
        }
        j = j + 1;
    }
    proof {
        assert(text@.subrange(at as int, at + part.len()) =~= part@);
    }
    true
}

/// Whether `part` stands somewhere in `text`.
pub fn text_contains(text: &str, part: &str) -> (found: bool)
    ensures
        found == contains_text(text@, part@),
{
    let hay = chars_of(text);
    let needle = chars_of(part);
    if needle.len() > hay.len() {
        return false;
    }
    if needle.len() == 0 {
        proof {
            assert(text@.subrange(0, 0) =~= part@);
            assert(occurs_at(text@, part@, 0));
        }
        return true;
    }
    let last = hay.len() - needle.len();
    let mut at: usize = 0;
    while at <= last
        invariant
            hay@ == text@,
            needle@ == part@,
            needle.len() > 0,
            last + needle.len() == hay.len(),
            at <= last + 1,
            forall|k: int| 0 <= k < at ==> !occurs_at(text@, part@, k),
        decreases last + 1 - at,
    {
        if stands_at(&hay, &needle, at) {
            return true;
        }
        at = at + 1;
    }
    false
}

impl StoreReply {
    /// The reply that a failure with the given message is.
    pub fn failure(message: &str) -> (reply: StoreReply)
        ensures
            reply@ == failure_reply(message@),
    {
        if text_contains(message, UNIQUE_VIOLATION) {
            StoreReply::Conflict
        } else {
            StoreReply::Failed
        }
    }
}

/// A statement for the credential store. Values supplied by a user travel
/// as parameters only, never inside the statement text.
#[derive(Clone, Debug, PartialEq, Eq)]
pub enum Statement {
    /// The salt stored for a username.
    SelectSalt { username: String },
    /// The identifier of the user with this username and password hash.
    SelectIdByHash { username: String, hash: String },
    /// The identifier stored for a username.
    SelectId { username: String },
    /// Identifier and username of every user.
    SelectUsers,
    /// A new user with a password credential.
    InsertUserWithPassword { id: String, username: String, hash: String, salt: String },
    /// A new user without any credential.
    InsertUser { id: String, username: String },
    /// A passkey credential owned by a user.
    InsertKey { user_id: String, key: String },
    /// The sequence number of the last recorded schema statement.
    SelectLatestMigration,
    /// The record of one applied schema statement.
    InsertMigration { id: i64, date: String, query: String },
    /// A schema statement, executed as written.
    Schema { text: String },
}

/// The mathematical content of a [`Statement`].
#[allow(inconsistent_fields)]
pub enum StatementView {
    SelectSalt { username: Seq<char> },
    SelectIdByHash { username: Seq<char>, hash: Seq<char> },
    SelectId { username: Seq<char> },
    SelectUsers,
    InsertUserWithPassword { id: Seq<char>, username: Seq<char>, hash: Seq<char>, salt: Seq<char> },
    InsertUser { id: Seq<char>, username: Seq<char> },
    InsertKey { user_id: Seq<char>, key: Seq<char> },
    SelectLatestMigration,
    InsertMigration { id: i64, date: Seq<char>, query: Seq<char> },
    Schema { text: Seq<char> },
}

impl View for Statement {
    type V = StatementView;

    open spec fn view(&self) -> StatementView {
        match *self {
            Statement::SelectSalt { username } => StatementView::SelectSalt { username: username@ },
            Statement::SelectIdByHash { username, hash } => StatementView::SelectIdByHash {
                username: username@,
                hash: hash@,
            },
            Statement::SelectId { username } => StatementView::SelectId { username: username@ },
            Statement::SelectUsers => StatementView::SelectUsers,
            Statement::InsertUserWithPassword {
                id,
                username,
                hash,
                salt,
            } => StatementView::InsertUserWithPassword {
                id: id@,
                username: username@,
                hash: hash@,
                salt: salt@,
            },
            Statement::InsertUser { id, username } => StatementView::InsertUser {
                id: id@,
                username: username@,
            },
            Statement::InsertKey { user_id, key } => StatementView::InsertKey {
                user_id: user_id@,
                key: key@,
            },
            Statement::SelectLatestMigration => StatementView::SelectLatestMigration,
            Statement::InsertMigration { id, date, query } => StatementView::InsertMigration {
                id,
                date: date@,
                query: query@,
            },
            Statement::Schema { text } => StatementView::Schema { text: text@ },
        }
    }
}

impl StatementView {
    /// The SQL text of the statement, with `?` for each parameter.
    pub open spec fn sql(self) -> Seq<char> {
        match self {
            StatementView::SelectSalt { .. } => SELECT_SALT@,
            StatementView::SelectIdByHash { .. } => SELECT_ID_BY_HASH@,
            StatementView::SelectId { .. } => SELECT_ID@,
            StatementView::SelectUsers => SELECT_USERS@,
            StatementView::InsertUserWithPassword { .. } => INSERT_USER_WITH_PASSWORD@,
            StatementView::InsertUser { .. } => INSERT_USER@,
            StatementView::InsertKey { .. } => INSERT_KEY@,
            StatementView::SelectLatestMigration => GET_LATEST_MIGRATION@,
            StatementView::InsertMigration { .. } => ADD_MIGRATION@,
            StatementView::Schema { text } => text,
        }
    }

    /// The parameters of the statement, in the order of its `?` marks.
    pub open spec fn args(self) -> Seq<ValueView> {
        match self {
            StatementView::SelectSalt { username } => seq![ValueView::Text(username)],
            StatementView::SelectIdByHash { username, hash } => seq![
                ValueView::Text(username),
                ValueView::Text(hash),
            ],
            StatementView::SelectId { username } => seq![ValueView::Text(username)],
            StatementView::SelectUsers => seq![],
            StatementView::InsertUserWithPassword { id, username, hash, salt } => seq![
                ValueView::Text(id),
                ValueView::Text(username),
                ValueView::Text(hash),
                ValueView::Text(salt),
            ],
            StatementView::InsertUser { id, username } => seq![
                ValueView::Text(id),
                ValueView::Text(username),
            ],
            StatementView::InsertKey { user_id, key } => seq![
                ValueView::Text(user_id),
                ValueView::Text(key),
            ],
            StatementView::SelectLatestMigration => seq![],
            StatementView::InsertMigration { id, date, query } => seq![
                ValueView::Integer(id),
                ValueView::Text(date),
                ValueView::Text(query),
            ],
            StatementView::Schema { .. } => seq![],
        }
    }

    /// Whether the statement changes what the store holds.
    pub open spec fn writes(self) -> bool {
        self is InsertUserWithPassword || self is InsertUser || self is InsertKey
            || self is InsertMigration || self is Schema
    }
}

impl Statement {
    /// The SQL text to execute.
    pub fn sql(&self) -> (text: &str)
        ensures
            text@ == self@.sql(),
    {
        match self {
            Statement::SelectSalt { .. } => SELECT_SALT,
            Statement::SelectIdByHash { .. } => SELECT_ID_BY_HASH,
            Statement::SelectId { .. } => SELECT_ID,
            Statement::SelectUsers => SELECT_USERS,
            Statement::InsertUserWithPassword { .. } => INSERT_USER_WITH_PASSWORD,
            Statement::InsertUser { .. } => INSERT_USER,
            Statement::InsertKey { .. } => INSERT_KEY,
            Statement::SelectLatestMigration => GET_LATEST_MIGRATION,
            Statement::InsertMigration { .. } => ADD_MIGRATION,
            Statement::Schema { text } => text.as_str(),
        }
    }

    /// The parameters to bind, in order.
    pub fn args(&self) -> (values: Vec<Value>)
        ensures
            values_view(values@) == self@.args(),
    {
        let mut values: Vec<Value> = Vec::new();
        match self {
            Statement::SelectSalt { username } => {
                values.push(Value::Text(username.clone()));
            },
            Statement::SelectIdByHash { username, hash } => {
                values.push(Value::Text(username.clone()));
                values.push(Value::Text(hash.clone()));
            },
            Statement::SelectId { username } => {
                values.push(Value::Text(username.clone()));
            },
            Statement::SelectUsers => {},
            Statement::InsertUserWithPassword { id, username, hash, salt } => {
                values.push(Value::Text(id.clone()));
                values.push(Value::Text(username.clone()));
                values.push(Value::Text(hash.clone()));
                values.push(Value::Text(salt.clone()));
            },
            Statement::InsertUser { id, username } => {
                values.push(Value::Text(id.clone()));
                values.push(Value::Text(username.clone()));
            },
            Statement::InsertKey { user_id, key } => {
                values.push(Value::Text(user_id.clone()));
                values.push(Value::Text(key.clone()));
            },
            Statement::SelectLatestMigration => {},
            Statement::InsertMigration { id, date, query } => {
                values.push(Value::Integer(*id));
                values.push(Value::Text(date.clone()));
                values.push(Value::Text(query.clone()));
            },
            Statement::Schema { .. } => {},
        }
        assert(values_view(values@) =~= self@.args());
        values
    }

    /// Whether the statement changes what the store holds.
    pub fn writes(&self) -> (w: bool)
        ensures
            w == self@.writes(),
    {
        match self {
            Statement::InsertUserWithPassword { .. }
            | Statement::InsertUser { .. }
            | Statement::InsertKey { .. }
            | Statement::InsertMigration { .. }
            | Statement::Schema { .. } => true,
            _ => false,
        }
    }
}

/// Where an operation stands: it either needs the store's reply to one
/// more statement, or it has finished.
#[derive(Debug, PartialEq, Eq)]
pub enum Progress<S, T> {
    /// Execute the statement and resume the state with the reply.
    Next(S, Statement),
    /// The operation is over.
    Done(Result<T, Errors>),
}

/// The mathematical content of a [`Progress`].
pub enum ProgressView<S, T> {
    Next(S, StatementView),
    Done(Result<T, Errors>),
}

/// The contents of a result.
pub open spec fn result_view<T: View>(result: Result<T, Errors>) -> Result<T::V, Errors> {
    match result {
        Ok(value) => Ok(value@),
        Err(e) => Err(e),
    }
}

impl<S: View, T: View> View for Progress<S, T> {
    type V = ProgressView<S::V, T::V>;

    open spec fn view(&self) -> ProgressView<S::V, T::V> {
        match *self {
            Progress::Next(state, statement) => ProgressView::Next(state@, statement@),
            Progress::Done(result) => ProgressView::Done(result_view(result)),
        }
    }
}

} // verus!
