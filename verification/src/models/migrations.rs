//! The schema migration runner.

use crate::errors::Errors;
use crate::models::store::{
    integer_in, Progress, ProgressView, ReplyView, Statement, StatementView, StoreReply,
};
use crate::models::store_model::{
    creates_tracking, fresh_store, is_recorded, latest_id, respond, MigrationRecord, StoreModel,
};
use vstd::prelude::*;
use vstd::string::StringExecFns;

verus! {

pub const CREATE_MIGRATIONS_TABLE: &'static str = "CREATE TABLE IF NOT EXISTS migrations (
        id INT PRIMARY KEY,
        date TEXT,
        query TEXT
    );";

pub const CREATE_USERS_TABLE: &'static str = "CREATE TABLE IF NOT EXISTS users (
        id TEXT PRIMARY KEY,
        username TEXT UNIQUE,
        hash TEXT,
        salt TEXT
        );";

pub const CREATE_KEYS_TABLE: &'static str = "CREATE TABLE IF NOT EXISTS keys (
        id INT PRIMARY KEY,
        userid TEXT,
        key TEXT
        );";

pub const CREATE_PROPOSALS_TABLE: &'static str = "CREATE TABLE IF NOT EXISTS proposals (
        id INT PRIMARY KEY,
        title TEXT,
        description TEXT,
        authorId TEXT,
        createdAt TEXT,
        updatedAt TEXT
    );";

/// The schema statements shipped with the library, in the order in which
/// they are applied. The list only ever grows at its end.
pub open spec fn shipped() -> Seq<Seq<char>> {
    seq![
        CREATE_MIGRATIONS_TABLE@,
        CREATE_USERS_TABLE@,
        CREATE_KEYS_TABLE@,
        CREATE_PROPOSALS_TABLE@,
    ]
}

/// The opening of a schema statement that does nothing where its table
/// already exists.
pub const GUARD: &'static str = "CREATE TABLE IF NOT EXISTS ";

/// A schema statement that can be applied again without harm: it creates
/// its table only where the table is missing.
pub open spec fn is_guarded(text: Seq<char>) -> bool {
    GUARD@.is_prefix_of(text)
}

/// Every shipped statement is guarded, and the first one creates the
/// tracking table.
pub proof fn lemma_shipped_are_guarded()
    ensures
        forall|i: int| 0 <= i < shipped().len() ==> is_guarded(#[trigger] shipped()[i]),
        creates_tracking(shipped()[0]),
{
    reveal_strlit("CREATE TABLE IF NOT EXISTS ");
    reveal_strlit(
        "CREATE TABLE IF NOT EXISTS migrations (
        id INT PRIMARY KEY,
        date TEXT,
        query TEXT
    );",
    );
    reveal_strlit(
        "CREATE TABLE IF NOT EXISTS users (
        id TEXT PRIMARY KEY,
        username TEXT UNIQUE,
        hash TEXT,
        salt TEXT
        );",
    );
    reveal_strlit(
        "CREATE TABLE IF NOT EXISTS keys (
        id INT PRIMARY KEY,
        userid TEXT,
        key TEXT
        );",
    );
    reveal_strlit(
        "CREATE TABLE IF NOT EXISTS proposals (
        id INT PRIMARY KEY,
        title TEXT,
        description TEXT,
        authorId TEXT,
        createdAt TEXT,
        updatedAt TEXT
    );",
    );
    assert(is_guarded(CREATE_MIGRATIONS_TABLE@)) by {
        assert(CREATE_MIGRATIONS_TABLE@.subrange(0, GUARD@.len() as int) =~= GUARD@);
    }
    assert(is_guarded(CREATE_USERS_TABLE@)) by {
        assert(CREATE_USERS_TABLE@.subrange(0, GUARD@.len() as int) =~= GUARD@);
    }
    assert(is_guarded(CREATE_KEYS_TABLE@)) by {
        assert(CREATE_KEYS_TABLE@.subrange(0, GUARD@.len() as int) =~= GUARD@);
    }
    assert(is_guarded(CREATE_PROPOSALS_TABLE@)) by {
        assert(CREATE_PROPOSALS_TABLE@.subrange(0, GUARD@.len() as int) =~= GUARD@);
    }
}

/// The contents of a list of texts.
pub open spec fn texts_view(texts: Seq<String>) -> Seq<Seq<char>> {
    texts.map_values(|t: String| t@)
}

/// The shipped schema statements. The first one creates the table that
/// tracks the others.
pub fn shipped_migrations() -> (statements: Vec<String>)
    ensures
        texts_view(statements@) == shipped(),
{
    let mut statements: Vec<String> = Vec::new();
    statements.push(String::from_str(CREATE_MIGRATIONS_TABLE));
    statements.push(String::from_str(CREATE_USERS_TABLE));
    statements.push(String::from_str(CREATE_KEYS_TABLE));
    statements.push(String::from_str(CREATE_PROPOSALS_TABLE));
    assert(texts_view(statements@) =~= shipped());
    statements
}

/// The largest number of statements a run accepts: sequence numbers are
/// stored as 64-bit signed integers.
pub open spec fn max_statements() -> int {
    0x7fff_ffff_ffff_ffff
}

/// A count that fits both the store's sequence numbers and the machine's
/// indices.
pub open spec fn fits(count: nat) -> bool {
    count <= max_statements() && count <= usize::MAX
}

/// A decimal digit.
pub open spec fn is_digit(c: char) -> bool {
    '0' <= c && c <= '9'
}

/// Whether every character of a text from `from` up to `to` is a digit.
pub open spec fn digits_in(text: Seq<char>, from: int, to: int) -> bool {
    forall|i: int| from <= i < to ==> is_digit(#[trigger] text[i])
}

/// The year of a timestamp: four digits, or a sign before more digits for
/// a year that four digits cannot hold.
pub open spec fn is_year(year: Seq<char>) -> bool {
    ||| year.len() == 4 && digits_in(year, 0, 4)
    ||| year.len() >= 5 && (year[0] == '+' || year[0] == '-') && digits_in(
        year,
        1,
        year.len() as int,
    )
}

/// What follows the year of a timestamp up to the second: `-MM-DDTHH:MM:SS`.
pub open spec fn is_day_and_time(text: Seq<char>) -> bool {
    &&& text.len() == 15
    &&& text[0] == '-' && digits_in(text, 1, 3)
    &&& text[3] == '-' && digits_in(text, 4, 6)
    &&& text[6] == 'T' && digits_in(text, 7, 9)
    &&& text[9] == ':' && digits_in(text, 10, 12)
    &&& text[12] == ':' && digits_in(text, 13, 15)
}

/// The fraction of the second of a timestamp: nothing, or a point before
/// three, six or nine digits.
pub open spec fn is_fraction(text: Seq<char>) -> bool {
    ||| text.len() == 0
    ||| (text.len() == 4 || text.len() == 7 || text.len() == 10) && text[0] == '.' && digits_in(
        text,
        1,
        text.len() as int,
    )
}

/// A timestamp in UTC whose year has `year` characters and whose fraction
/// has `fraction`: year, day and time, fraction, and the offset `+00:00`.
pub open spec fn is_timestamp_of(date: Seq<char>, year: int, fraction: int) -> bool {
    &&& 4 <= year && 0 <= fraction
    &&& date.len() == year + 15 + fraction + 6
    &&& is_year(date.subrange(0, year))
    &&& is_day_and_time(date.subrange(year, year + 15))
    &&& is_fraction(date.subrange(year + 15, year + 15 + fraction))
    &&& date.subrange(year + 15 + fraction, date.len() as int) == "+00:00"@
}

/// A timestamp in UTC as RFC 3339 writes it, such as
/// `2024-01-01T00:00:00.123456+00:00`.
pub open spec fn is_timestamp(date: Seq<char>) -> bool {
    exists|year: int, fraction: int| is_timestamp_of(date, year, fraction)
}

/// `chrono::Utc::now` printed by `to_rfc3339`: the current time as the
/// year, the day and the time to the second, a fraction of the second
/// where there is one, and the offset `+00:00`.
#[verifier::external_body]
fn utc_now_rfc3339() -> (date: String)
    ensures
        is_timestamp(date@),
{
    chrono::Utc::now().to_rfc3339()
}

/// What a run is waiting for.
#[derive(Clone, Copy, Debug, PartialEq, Eq, Structural)]
pub enum Phase {
    /// The reply to the question for the cursor.
    Cursor,
    /// The reply to the schema statement at the current index.
    Applying,
    /// The reply to the record of the schema statement at the current index.
    Recording,
}

/// A migration run between two statements.
#[derive(Debug, PartialEq, Eq)]
pub struct Migration {
    statements: Vec<String>,
    phase: Phase,
    index: usize,
    applied: usize,
}

/// The mathematical content of a [`Migration`]: the statement list, the
/// phase, the index of the statement in work and the number of statements
/// applied and recorded so far in this run.
pub struct MigrationView {
    pub statements: Seq<Seq<char>>,
    pub phase: Phase,
    pub index: usize,
    pub applied: usize,
}

impl View for Migration {
    type V = MigrationView;

    closed spec fn view(&self) -> MigrationView {
        MigrationView {
            statements: texts_view(self.statements@),
            phase: self.phase,
            index: self.index,
            applied: self.applied,
        }
    }
}

impl MigrationView {
    /// The statement list fits the store's sequence numbers; past the
    /// cursor phase the index points into the list and no more statements
    /// were applied than lie before it.
    pub open spec fn wf(self) -> bool {
        &&& fits(self.statements.len())
        &&& self.phase != Phase::Cursor ==> self.index < self.statements.len() && self.applied
            <= self.index
    }
}

/// The cursor that a reply to the cursor question denotes: the sequence
/// number in the first row where it is a positive integer, else 0.
pub open spec fn latest_in(reply: ReplyView) -> u64 {
    match reply {
        ReplyView::Rows(rows) => if rows.len() == 0 {
            0
        } else {
            match integer_in(rows[0], 0) {
                Some(n) => if n <= 0 {
                    0
                } else {
                    n as u64
                },
                None => 0,
            }
        },
        _ => 0,
    }
}

/// The index at which a run over `shipped` statements starts for a cursor:
/// the cursor itself, or `shipped` where the cursor lies beyond the list.
pub open spec fn start_index(cursor: u64, shipped: usize) -> usize {
    if cursor >= shipped {
        shipped
    } else {
        cursor as usize
    }
}

/// The start of a run: ask for the cursor. A list too long for the store's
/// sequence numbers is refused.
pub open spec fn migration_start(statements: Seq<Seq<char>>) -> ProgressView<MigrationView, usize> {
    if statements.len() > max_statements() {
        ProgressView::Done(Err(Errors::MigrationApplyError))
    } else {
        ProgressView::Next(
            MigrationView { statements, phase: Phase::Cursor, index: 0, applied: 0 },
            StatementView::SelectLatestMigration,
        )
    }
}

/// The run at the head of its loop: done where the index has reached the
/// end of the list, else the schema statement at the index.
pub open spec fn migration_from(statements: Seq<Seq<char>>, index: usize, applied: usize) -> ProgressView<
    MigrationView,
    usize,
> {
    if index >= statements.len() {
        ProgressView::Done(Ok(applied))
    } else {
        ProgressView::Next(
            MigrationView { statements, phase: Phase::Applying, index, applied },
            StatementView::Schema { text: statements[index as int] },
        )
    }
}

/// The record of the statement at `index`: its sequence number is one more
/// than its index.
pub open spec fn migration_record(statements: Seq<Seq<char>>, index: usize, date: Seq<char>) -> StatementView {
    StatementView::InsertMigration {
        id: (index + 1) as i64,
        date,
        query: statements[index as int],
    }
}

/// One step of a run, for the date drawn in it.
///
/// A statement is recorded right after it was applied and before the next
/// one is touched. A statement that cannot be applied or recorded ends the
/// run with `MigrationApplyError`.
pub open spec fn migration_step(state: MigrationView, reply: ReplyView, date: Seq<char>) -> ProgressView<
    MigrationView,
    usize,
> {
    match state.phase {
        Phase::Cursor => migration_from(
            state.statements,
            start_index(latest_in(reply), state.statements.len() as usize),
            0,
        ),
        Phase::Applying => match reply {
            ReplyView::Rows(_) => ProgressView::Next(
                MigrationView { phase: Phase::Recording, ..state },
                migration_record(state.statements, state.index, date),
            ),
            _ => ProgressView::Done(Err(Errors::MigrationApplyError)),
        },
        Phase::Recording => match reply {
            ReplyView::Rows(_) => migration_from(
                state.statements,
                (state.index + 1) as usize,
                (state.applied + 1) as usize,
            ),
            _ => ProgressView::Done(Err(Errors::MigrationApplyError)),
        },
    }
}

/// The statement that asks for the cursor.
pub fn applied_count() -> (statement: Statement)
    ensures
        statement@ == StatementView::SelectLatestMigration,
{
    Statement::SelectLatestMigration
}

/// Reads the cursor from the reply to the cursor question. A store without
/// the tracking table, an empty table and an unreadable value all count as 0.
pub fn get_latest(reply: &StoreReply) -> (cursor: u64)
    ensures
        cursor == latest_in(reply@),
{
    match reply {
        StoreReply::Rows(rows) => {
            if rows.len() == 0 {
                0
            } else {
                match rows[0].integer_at(0) {
                    Some(n) => {
                        if n <= 0 {
                            0
                        } else {
                            n as u64
                        }
                    },
                    None => 0,
                }
            }
        },
        _ => 0,
    }
}

/// Starts a migration run over the given statements: the first statement
/// asks the store for its cursor.
pub fn migrate_db(migrations: Vec<String>) -> (r: Progress<Migration, usize>)
    ensures
        r@ == migration_start(texts_view(migrations@)),
        r matches Progress::Next(state, _) ==> state@.wf(),
{
    if migrations.len() as u64 > 0x7fff_ffff_ffff_ffffu64 {
        Progress::Done(Err(Errors::MigrationApplyError))
    } else {
        Progress::Next(
            Migration { statements: migrations, phase: Phase::Cursor, index: 0, applied: 0 },
            Statement::SelectLatestMigration,
        )
    }
}

impl Migration {
    #[verifier::type_invariant]
    spec fn well_formed(self) -> bool {
        self@.wf()
    }

    /// The number of statements applied and recorded so far in this run.
    pub fn applied(&self) -> (n: usize)
        ensures
            n == self@.applied,
    {
        self.applied
    }

    fn from_index(statements: Vec<String>, index: usize, applied: usize) -> (r: Progress<
        Migration,
        usize,
    >)
        requires
            fits(statements@.len()),
            applied <= index,
        ensures
            r@ == migration_from(texts_view(statements@), index, applied),
            r matches Progress::Next(state, _) ==> state@.wf(),
    {
        if index >= statements.len() {
            Progress::Done(Ok(applied))
        } else {
            let text = statements[index].clone();
            Progress::Next(
                Migration { statements, phase: Phase::Applying, index, applied },
                Statement::Schema { text },
            )
        }
    }

    /// Continues the run with the store's reply. The date of a record is
    /// the time at which the statement's reply is handled, as a timestamp
    /// in UTC; the other steps write no date.
    pub fn resume(self, reply: StoreReply) -> (r: Progress<Migration, usize>)
        ensures
            exists|date: Seq<char>|
                (self@.phase == Phase::Applying ==> is_timestamp(date)) && r@
                    == #[trigger] migration_step(self@, reply@, date),
            r matches Progress::Next(state, _) ==> state@.wf(),
    {
        match self.phase {
            Phase::Applying => {
                let date = utc_now_rfc3339();
                self.resume_at(reply, date)
            },
            _ => {
                let r = self.resume_at(reply, String::new());
                assert(r@ == migration_step(self@, reply@, Seq::<char>::empty()));
                r
            },
        }
    }

    /// Continues the run with the store's reply, dating a record with the
    /// given text.
    pub fn resume_at(self, reply: StoreReply, date: String) -> (r: Progress<Migration, usize>)
        ensures
            r@ == migration_step(self@, reply@, date@),
            r matches Progress::Next(state, _) ==> state@.wf(),
    {
        proof {
            use_type_invariant(&self);
        }
        match self.phase {
            Phase::Cursor => {
                let cursor = get_latest(&reply);
                let shipped = self.statements.len();
                let index = if cursor >= shipped as u64 {
                    shipped
                } else {
                    cursor as usize
                };
                Migration::from_index(self.statements, index, 0)
            },
            Phase::Applying => match reply {
                StoreReply::Rows(_) => {
                    let query = self.statements[self.index].clone();
                    let id = (self.index as u64 + 1) as i64;
                    Progress::Next(
                        Migration {
                            statements: self.statements,
                            phase: Phase::Recording,
                            index: self.index,
                            applied: self.applied,
                        },
                        Statement::InsertMigration { id, date, query },
                    )
                },
                _ => Progress::Done(Err(Errors::MigrationApplyError)),
            },
            Phase::Recording => match reply {
                StoreReply::Rows(_) => {
                    Migration::from_index(self.statements, self.index + 1, self.applied + 1)
                },
                _ => Progress::Done(Err(Errors::MigrationApplyError)),
            },
        }
    }
}

/// The records carry the sequence numbers 1, 2, 3, ... in the order in
/// which they were written.
pub open spec fn recorded_in_order(migrations: Seq<MigrationRecord>) -> bool {
    forall|i: int| 0 <= i < migrations.len() ==> (#[trigger] migrations[i]).id == i + 1
}

/// A store as migration runs leave it: its records are in order, and
/// without the tracking table there are none.
pub open spec fn tracked_in_order(store: StoreModel) -> bool {
    &&& recorded_in_order(store.migrations)
    &&& fits(store.migrations.len())
    &&& !store.tracking ==> store.migrations.len() == 0
}

/// The cursor that a store reports.
pub open spec fn stored_cursor(store: StoreModel) -> u64 {
    latest_in(respond(store, StatementView::SelectLatestMigration).1)
}

/// A run against a model store for at most `rounds` statements, the record
/// written with `rounds` statements left being dated `clock(rounds)`: the
/// store afterwards and the result.
pub open spec fn migration_run(
    store: StoreModel,
    progress: ProgressView<MigrationView, usize>,
    clock: spec_fn(nat) -> Seq<char>,
    rounds: nat,
) -> (StoreModel, Result<usize, Errors>)
    decreases rounds,
{
    match progress {
        ProgressView::Done(result) => (store, result),
        ProgressView::Next(state, statement) => if rounds == 0 {
            (store, Err(Errors::StorageError))
        } else {
            let (after, reply) = respond(store, statement);
            migration_run(
                after,
                migration_step(state, reply, clock(rounds)),
                clock,
                (rounds - 1) as nat,
            )
        },
    }
}

/// A whole run against a model store.
pub open spec fn migration_outcome(
    store: StoreModel,
    statements: Seq<Seq<char>>,
    clock: spec_fn(nat) -> Seq<char>,
) -> (StoreModel, Result<usize, Errors>) {
    migration_run(store, migration_start(statements), clock, (2 * statements.len() + 1) as nat)
}

/// Records in order have their count as the largest sequence number.
pub proof fn lemma_latest_is_count(migrations: Seq<MigrationRecord>)
    requires
        recorded_in_order(migrations),
        fits(migrations.len()),
    ensures
        latest_id(migrations) == migrations.len(),
    decreases migrations.len(),
{
    if migrations.len() > 0 {
        let rest = migrations.drop_last();
        assert forall|i: int| 0 <= i < rest.len() implies (#[trigger] rest[i]).id == i + 1 by {
            assert(rest[i] == migrations[i]);
        }
        lemma_latest_is_count(rest);
        assert(migrations.last() == migrations[migrations.len() - 1]);
    }
}

/// The cursor of a store that migration runs left is the number of its records.
pub proof fn lemma_cursor_is_count(store: StoreModel)
    requires
        tracked_in_order(store),
    ensures
        stored_cursor(store) == store.migrations.len(),
{
    lemma_latest_is_count(store.migrations);
}

/// The loop of a run, from the statement at `index` on: every remaining
/// statement is applied and recorded, in list order.
proof fn lemma_run_from(
    store: StoreModel,
    statements: Seq<Seq<char>>,
    index: usize,
    applied: usize,
    clock: spec_fn(nat) -> Seq<char>,
    rounds: nat,
)
    requires
        fits(statements.len()),
        index <= statements.len(),
        applied <= index,
        rounds >= 2 * (statements.len() - index),
        recorded_in_order(store.migrations),
        store.migrations.len() == index,
        store.tracking || (index == 0 && statements.len() > 0 && creates_tracking(statements[0])),
    ensures
        ({
            let out = migration_run(
                store,
                migration_from(statements, index, applied),
                clock,
                rounds,
            );
            &&& out.1 == Ok::<usize, Errors>((applied + statements.len() - index) as usize)
            &&& tracked_in_order(out.0)
            &&& out.0.migrations.len() == statements.len()
            &&& out.0.tracking || (index == statements.len() && out.0 == store)
            &&& out.0.schema == store.schema + statements.subrange(
                index as int,
                statements.len() as int,
            )
            &&& out.0.users == store.users
            &&& out.0.keys == store.keys
            &&& out.0.migrations.take(index as int) == store.migrations
            &&& forall|i: int|
                index <= i < statements.len() ==> (#[trigger] out.0.migrations[i]).query
                    == statements[i]
        }),
    decreases statements.len() - index,
{
    reveal_with_fuel(migration_run, 3);
    if index >= statements.len() {
        assert(store.schema + statements.subrange(index as int, statements.len() as int)
            =~= store.schema);
        assert(store.migrations.take(index as int) =~= store.migrations);
    } else {
        let text = statements[index as int];
        let applying = MigrationView { statements, phase: Phase::Applying, index, applied };
        let (store1, reply1) = respond(store, StatementView::Schema { text });
        let step1 = migration_step(applying, reply1, clock(rounds));
        let record = migration_record(statements, index, clock(rounds));
        let (store2, reply2) = respond(store1, record);
        assert(store1.tracking);
        assert(!is_recorded(store1.migrations, (index + 1) as i64));
        let next_index = (index + 1) as usize;
        let next_applied = (applied + 1) as usize;
        let new_record = MigrationRecord {
            id: (index + 1) as i64,
            date: clock(rounds),
            query: text,
        };
        assert(store2.migrations == store.migrations.push(new_record));
        assert(recorded_in_order(store2.migrations));
        lemma_run_from(store2, statements, next_index, next_applied, clock, (rounds - 2) as nat);
        let out = migration_run(
            store2,
            migration_from(statements, next_index, next_applied),
            clock,
            (rounds - 2) as nat,
        );
        assert(out == migration_run(
            store,
            migration_from(statements, index, applied),
            clock,
            rounds,
        ));
        assert(store.schema.push(text) + statements.subrange(
            next_index as int,
            statements.len() as int,
        ) =~= store.schema + statements.subrange(index as int, statements.len() as int));
        assert(out.0.migrations.take(index as int) =~= store.migrations) by {
            assert(out.0.migrations.take(next_index as int) == store2.migrations);
            assert forall|i: int| 0 <= i < index implies out.0.migrations[i]
                == store.migrations[i] by {
                assert(out.0.migrations.take(next_index as int)[i] == store2.migrations[i]);
            }
        }
        assert(out.0.migrations[index as int].query == text) by {
            assert(out.0.migrations.take(next_index as int)[index as int]
                == store2.migrations[index as int]);
        }
    }
}

/// What a run does to a store that earlier runs left with `k` records:
/// it applies the statements from index `k` on, in list order, records each
/// right after it under the next sequence number and with the
/// statement's text, and returns their number. The cursor afterwards is
/// the length of the list. Users and keys are untouched. Where the store
/// already holds as many records as the list has statements, or more, the
/// run applies nothing. The cursor never goes back.
///
/// A store without the tracking table is taken to get it from the first
/// statement of the list.
pub proof fn lemma_migration_outcome(
    store: StoreModel,
    statements: Seq<Seq<char>>,
    clock: spec_fn(nat) -> Seq<char>,
)
    requires
        fits(statements.len()),
        tracked_in_order(store),
        !store.tracking && statements.len() > 0 ==> creates_tracking(statements[0]),
    ensures
        ({
            let out = migration_outcome(store, statements, clock);
            let k = store.migrations.len();
            &&& stored_cursor(out.0) >= stored_cursor(store)
            &&& k >= statements.len() ==> out == (store, Ok::<usize, Errors>(0))
            &&& k <= statements.len() ==> {
                &&& out.1 == Ok::<usize, Errors>((statements.len() - k) as usize)
                &&& tracked_in_order(out.0)
                &&& stored_cursor(out.0) == statements.len()
                &&& out.0.schema == store.schema + statements.subrange(
                    k as int,
                    statements.len() as int,
                )
                &&& out.0.migrations.take(k as int) == store.migrations
                &&& forall|i: int|
                    k <= i < statements.len() ==> (#[trigger] out.0.migrations[i]).query
                        == statements[i] && out.0.migrations[i].id == i + 1
                &&& out.0.users == store.users
                &&& out.0.keys == store.keys
            }
        }),
{
    reveal_with_fuel(migration_run, 2);
    lemma_cursor_is_count(store);
    let k = store.migrations.len();
    let shipped = statements.len() as usize;
    let index = start_index(stored_cursor(store), shipped);
    let rounds = (2 * statements.len()) as nat;
    if k >= statements.len() {
        assert(index == shipped);
    } else {
        assert(index == k);
        lemma_run_from(store, statements, index, 0, clock, rounds);
        let out = migration_run(store, migration_from(statements, index, 0), clock, rounds);
        lemma_cursor_is_count(out.0);
    }
}

/// On a fresh store a run applies every statement of the list and the
/// cursor becomes the length of the list; a second run of the same list
/// applies nothing; a run of the list with one more statement at its end
/// applies exactly that one.
pub proof fn lemma_migrate_again_and_extended(
    statements: Seq<Seq<char>>,
    extra: Seq<char>,
    first: spec_fn(nat) -> Seq<char>,
    second: spec_fn(nat) -> Seq<char>,
    third: spec_fn(nat) -> Seq<char>,
)
    requires
        fits(statements.len() + 1),
        creates_tracking(statements.push(extra)[0]),
    ensures
        ({
            let one = migration_outcome(fresh_store(), statements, first);
            let two = migration_outcome(one.0, statements, second);
            let three = migration_outcome(one.0, statements.push(extra), third);
            &&& one.1 == Ok::<usize, Errors>(statements.len() as usize)
            &&& stored_cursor(one.0) == statements.len()
            &&& one.0.schema == statements
            &&& two == (one.0, Ok::<usize, Errors>(0))
            &&& three.1 == Ok::<usize, Errors>(1)
            &&& stored_cursor(three.0) == statements.len() + 1
            &&& three.0.schema == statements.push(extra)
        }),
{
    let longer = statements.push(extra);
    if statements.len() > 0 {
        assert(longer[0] == statements[0]);
    }
    lemma_migration_outcome(fresh_store(), statements, first);
    let one = migration_outcome(fresh_store(), statements, first);
    assert(fresh_store().schema + statements.subrange(0, statements.len() as int)
        =~= statements);
    if statements.len() == 0 {
        reveal_with_fuel(migration_run, 2);
        assert(one.0 == fresh_store());
    } else {
        reveal_with_fuel(migration_run, 4);
        assert(one.0.tracking);
    }
    lemma_migration_outcome(one.0, statements, second);
    lemma_migration_outcome(one.0, longer, third);
    assert(statements + longer.subrange(statements.len() as int, longer.len() as int)
        =~= longer);
}

} // verus!
