//! A mathematical model of a reliable credential store: what it holds and
//! how it answers each statement the library issues.
//!
//! The store is an outside collaborator, so nothing here runs. The model is
//! what the library's operations are stated against when several of them
//! are taken together.

use crate::models::migrations::CREATE_MIGRATIONS_TABLE;
use crate::models::store::{ReplyView, StatementView, ValueView};
use vstd::prelude::*;

verus! {

/// One row of the users table.
pub struct UserRecord {
    pub id: Seq<char>,
    pub username: Seq<char>,
    pub hash: Option<Seq<char>>,
    pub salt: Option<Seq<char>>,
}

/// One row of the table that tracks applied schema statements.
pub struct MigrationRecord {
    pub id: i64,
    pub date: Seq<char>,
    pub query: Seq<char>,
}

/// One row of the keys table.
pub struct KeyRecord {
    pub user_id: Seq<char>,
    pub key: Seq<char>,
}

/// What a store holds.
pub struct StoreModel {
    pub users: Seq<UserRecord>,
    /// Whether the tracking table exists.
    pub tracking: bool,
    pub migrations: Seq<MigrationRecord>,
    pub keys: Seq<KeyRecord>,
    /// Every schema statement executed so far, in order.
    pub schema: Seq<Seq<char>>,
}

/// A store on which nothing was ever executed.
pub open spec fn fresh_store() -> StoreModel {
    StoreModel {
        users: Seq::empty(),
        tracking: false,
        migrations: Seq::empty(),
        keys: Seq::empty(),
        schema: Seq::empty(),
    }
}

/// A stored optional text as a value.
pub open spec fn optional_text(text: Option<Seq<char>>) -> ValueView {
    match text {
        Some(t) => ValueView::Text(t),
        None => ValueView::Null,
    }
}

/// Whether a record carries the username and, where one is asked for, the hash.
pub open spec fn record_matches(
    record: UserRecord,
    username: Seq<char>,
    hash: Option<Seq<char>>,
) -> bool {
    record.username == username && (hash is Some ==> record.hash == hash)
}

/// The records with the given username and, where one is asked for, the
/// given hash, in the order in which they are stored.
pub open spec fn matching(users: Seq<UserRecord>, username: Seq<char>, hash: Option<Seq<char>>) -> Seq<
    UserRecord,
>
    decreases users.len(),
{
    if users.len() == 0 {
        Seq::empty()
    } else {
        let rest = matching(users.drop_last(), username, hash);
        if record_matches(users.last(), username, hash) {
            rest.push(users.last())
        } else {
            rest
        }
    }
}

/// Whether a new user would break the uniqueness of usernames or identifiers.
pub open spec fn user_conflicts(users: Seq<UserRecord>, id: Seq<char>, username: Seq<char>) -> bool {
    exists|i: int|
        0 <= i < users.len() && ((#[trigger] users[i]).username == username || users[i].id == id)
}

/// The largest sequence number among the records, 0 where there is none.
pub open spec fn latest_id(migrations: Seq<MigrationRecord>) -> i64
    decreases migrations.len(),
{
    if migrations.len() == 0 {
        0
    } else {
        let rest = latest_id(migrations.drop_last());
        if migrations.last().id > rest {
            migrations.last().id
        } else {
            rest
        }
    }
}

/// Whether a sequence number is already recorded.
pub open spec fn is_recorded(migrations: Seq<MigrationRecord>, id: i64) -> bool {
    exists|i: int| 0 <= i < migrations.len() && (#[trigger] migrations[i]).id == id
}

/// Whether a schema statement creates the tracking table.
pub open spec fn creates_tracking(text: Seq<char>) -> bool {
    text == CREATE_MIGRATIONS_TABLE@
}

/// The store after a statement, and its reply.
pub open spec fn respond(store: StoreModel, statement: StatementView) -> (StoreModel, ReplyView) {
    match statement {
        StatementView::SelectSalt { username } => (
            store,
            ReplyView::Rows(
                matching(store.users, username, None).map_values(
                    |r: UserRecord| seq![optional_text(r.salt)],
                ),
            ),
        ),
        StatementView::SelectIdByHash { username, hash } => (
            store,
            ReplyView::Rows(
                matching(store.users, username, Some(hash)).map_values(
                    |r: UserRecord| seq![ValueView::Text(r.id)],
                ),
            ),
        ),
        StatementView::SelectId { username } => (
            store,
            ReplyView::Rows(
                matching(store.users, username, None).map_values(
                    |r: UserRecord| seq![ValueView::Text(r.id)],
                ),
            ),
        ),
        StatementView::SelectUsers => (
            store,
            ReplyView::Rows(
                store.users.map_values(
                    |r: UserRecord| seq![ValueView::Text(r.id), ValueView::Text(r.username)],
                ),
            ),
        ),
        StatementView::InsertUserWithPassword { id, username, hash, salt } => if user_conflicts(
            store.users,
            id,
            username,
        ) {
            (store, ReplyView::Conflict)
        } else {
            (
                StoreModel {
                    users: store.users.push(
                        UserRecord { id, username, hash: Some(hash), salt: Some(salt) },
                    ),
                    ..store
                },
                ReplyView::Rows(Seq::empty()),
            )
        },
        StatementView::InsertUser { id, username } => if user_conflicts(store.users, id, username) {
            (store, ReplyView::Conflict)
        } else {
            (
                StoreModel {
                    users: store.users.push(UserRecord { id, username, hash: None, salt: None }),
                    ..store
                },
                ReplyView::Rows(Seq::empty()),
            )
        },
        StatementView::InsertKey { user_id, key } => (
            StoreModel { keys: store.keys.push(KeyRecord { user_id, key }), ..store },
            ReplyView::Rows(Seq::empty()),
        ),
        StatementView::SelectLatestMigration => if !store.tracking {
            (store, ReplyView::Failed)
        } else if store.migrations.len() == 0 {
            (store, ReplyView::Rows(Seq::empty()))
        } else {
            (
                store,
                ReplyView::Rows(seq![seq![ValueView::Integer(latest_id(store.migrations))]]),
            )
        },
        StatementView::InsertMigration { id, date, query } => if !store.tracking {
            (store, ReplyView::Failed)
        } else if is_recorded(store.migrations, id) {
            (store, ReplyView::Conflict)
        } else {
            (
                StoreModel {
                    migrations: store.migrations.push(MigrationRecord { id, date, query }),
                    ..store
                },
                ReplyView::Rows(Seq::empty()),
            )
        },
        StatementView::Schema { text } => (
            StoreModel {
                schema: store.schema.push(text),
                tracking: store.tracking || creates_tracking(text),
                ..store
            },
            ReplyView::Rows(Seq::empty()),
        ),
    }
}

/// A statement that does not write leaves the store as it was.
pub proof fn lemma_reads_change_nothing(store: StoreModel, statement: StatementView)
    requires
        !statement.writes(),
    ensures
        respond(store, statement).0 == store,
{
}

/// Where no record carries a username, nothing matches it.
pub proof fn lemma_absent_matches_nothing(
    users: Seq<UserRecord>,
    username: Seq<char>,
    hash: Option<Seq<char>>,
)
    requires
        forall|i: int| 0 <= i < users.len() ==> !record_matches(#[trigger] users[i], username, hash),
    ensures
        matching(users, username, hash).len() == 0,
    decreases users.len(),
{
    if users.len() > 0 {
        lemma_absent_matches_nothing(users.drop_last(), username, hash);
    }
}

/// Where nothing matches, no record does.
pub proof fn lemma_nothing_matching_is_absent(
    users: Seq<UserRecord>,
    username: Seq<char>,
    hash: Option<Seq<char>>,
)
    requires
        matching(users, username, hash).len() == 0,
    ensures
        forall|i: int| 0 <= i < users.len() ==> !record_matches(#[trigger] users[i], username, hash),
    decreases users.len(),
{
    if users.len() > 0 {
        lemma_nothing_matching_is_absent(users.drop_last(), username, hash);
        assert forall|i: int| 0 <= i < users.len() implies !record_matches(
            #[trigger] users[i],
            username,
            hash,
        ) by {
            if i < users.len() - 1 {
                assert(users[i] == users.drop_last()[i]);
            }
        }
    }
}

/// Every matching record is a record of the store that matches.
pub proof fn lemma_matching_is_stored(
    users: Seq<UserRecord>,
    username: Seq<char>,
    hash: Option<Seq<char>>,
    k: int,
)
    requires
        0 <= k < matching(users, username, hash).len(),
    ensures
        record_matches(matching(users, username, hash)[k], username, hash),
        users.contains(matching(users, username, hash)[k]),
    decreases users.len(),
{
    if users.len() > 0 {
        let rest = matching(users.drop_last(), username, hash);
        if k < rest.len() {
            lemma_matching_is_stored(users.drop_last(), username, hash, k);
            let found = rest[k];
            let i = choose|i: int| 0 <= i < users.drop_last().len() && users.drop_last()[i] == found;
            assert(users[i] == found);
        } else {
            assert(users[users.len() - 1] == users.last());
        }
    }
}

/// What matches after a record is added: what matched before, and the new
/// record if it matches.
pub proof fn lemma_matching_after_push(
    users: Seq<UserRecord>,
    record: UserRecord,
    username: Seq<char>,
    hash: Option<Seq<char>>,
)
    ensures
        matching(users.push(record), username, hash) == if record_matches(record, username, hash) {
            matching(users, username, hash).push(record)
        } else {
            matching(users, username, hash)
        },
{
    assert(users.push(record).drop_last() =~= users);
}

/// No two records carry the same username.
pub open spec fn usernames_unique(users: Seq<UserRecord>) -> bool {
    forall|i: int, j: int|
        0 <= i < j < users.len() ==> (#[trigger] users[i]).username != (#[trigger] users[j]).username
}

/// Whatever statement the store answers, usernames stay unique: a user
/// whose username is taken is refused.
pub proof fn lemma_usernames_stay_unique(store: StoreModel, statement: StatementView)
    requires
        usernames_unique(store.users),
    ensures
        usernames_unique(respond(store, statement).0.users),
{
    let after = respond(store, statement).0.users;
    assert forall|i: int, j: int| 0 <= i < j < after.len() implies (#[trigger] after[i]).username
        != (#[trigger] after[j]).username by {
        if after != store.users {
            if j == store.users.len() {
                assert(after[i] == store.users[i]);
            } else {
                assert(after[i] == store.users[i] && after[j] == store.users[j]);
            }
        }
    }
}

/// Where usernames are unique, at most one record matches a username.
pub proof fn lemma_unique_matches_once(
    users: Seq<UserRecord>,
    username: Seq<char>,
    hash: Option<Seq<char>>,
)
    requires
        usernames_unique(users),
    ensures
        matching(users, username, hash).len() <= 1,
    decreases users.len(),
{
    if users.len() > 0 {
        let rest = users.drop_last();
        assert forall|i: int, j: int| 0 <= i < j < rest.len() implies (#[trigger] rest[i]).username
            != (#[trigger] rest[j]).username by {
            assert(rest[i] == users[i] && rest[j] == users[j]);
        }
        lemma_unique_matches_once(rest, username, hash);
        if record_matches(users.last(), username, hash) {
            assert forall|i: int| 0 <= i < rest.len() implies !record_matches(
                #[trigger] rest[i],
                username,
                hash,
            ) by {
                assert(rest[i] == users[i]);
                assert(users[users.len() - 1] == users.last());
            }
            lemma_absent_matches_nothing(rest, username, hash);
        }
    }
}

} // verus!
