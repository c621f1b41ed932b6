//! The boundary to SQLite: the connection type, what is believed of a
//! connection, and one function for each statement that the store issues.
//!
//! The functions that call SQLite are not proved: each says in its comment
//! what it claims. What they claim of rows is claimed only of a connection
//! that stands as [`ready`] says: it holds the exclusive lock on its
//! database, so that nothing else reads or writes the rows; the database
//! keeps its text as UTF-8, so that a string is stored and compared as the
//! bytes that it has in Rust; and the `users` table that [`create_table`]
//! makes is all that the database holds. The store establishes the three
//! when it opens, and none of these functions panics on a connection that it
//! is given.
use vstd::prelude::*;

verus! {

#[verifier::external_type_specification]
#[verifier::external_body]
pub struct ExConnection(rusqlite::Connection);

#[verifier::external_type_specification]
#[verifier::external_body]
pub struct ExSqlError(rusqlite::Error);

/// The rows of the `users` table that a connection reaches, those whose name
/// and email are well-formed text, as a map from each name to its email. It
/// says something only of a connection that holds the lock: without it the
/// rows may change at any time.
///
/// SQLite changes a table through a shared reference. The functions below
/// that change rows take the connection by `&mut`, so that the rows before
/// and after a call can be told apart.
pub uninterp spec fn table_rows(conn: rusqlite::Connection) -> Map<Seq<char>, Seq<char>>;

/// The connection holds the exclusive lock on its database and keeps it for
/// as long as it lives: no other connection reads or writes the database.
pub uninterp spec fn holds_lock(conn: rusqlite::Connection) -> bool;

/// The statement that makes the table has succeeded on the connection.
pub uninterp spec fn table_made(conn: rusqlite::Connection) -> bool;

/// The `users` table has the two text columns `name` and `email`, with
/// `name` as its primary key, and the database holds nothing besides the
/// table and the index of that key: no trigger, no further index, no view
/// and no other table.
pub uninterp spec fn keyed_by_name(conn: rusqlite::Connection) -> bool;

/// The database keeps its text as UTF-8.
pub uninterp spec fn stores_utf8(conn: rusqlite::Connection) -> bool;

/// A path that SQLite may read as a URI: one that begins with `file:`.
pub open spec fn is_uri(path: Seq<char>) -> bool {
    path.len() >= 5 && path.subrange(0, 5) == "file:"@
}

/// A connection on which the statements on rows mean what this file says.
pub open spec fn ready(conn: rusqlite::Connection) -> bool {
    &&& holds_lock(conn)
    &&& table_made(conn)
    &&& stores_utf8(conn)
    &&& keyed_by_name(conn)
    &&& table_rows(conn).dom().finite()
}

/// What is kept of a failed SQLite call: the extended result code, where
/// SQLite itself reported the failure, and the text of the error.
#[derive(Debug, PartialEq, Eq)]
pub struct SqlFailure {
    pub code: Option<i32>,
    pub message: String,
}

/// The extended result code of a violated primary key.
pub const SQLITE_CONSTRAINT_PRIMARYKEY: i32 = 1555;

/// The extended result code of a violated unique index.
pub const SQLITE_CONSTRAINT_UNIQUE: i32 = 2067;

impl SqlFailure {
    /// The failure is a key that was taken.
    pub open spec fn is_key_conflict(&self) -> bool {
        self.code == Some(SQLITE_CONSTRAINT_PRIMARYKEY) || self.code == Some(
            SQLITE_CONSTRAINT_UNIQUE,
        )
    }

    /// Whether SQLite refused the statement because a key was taken.
    pub fn key_conflict(&self) -> (b: bool)
        ensures
            b == self.is_key_conflict(),
    {
        match self.code {
            Some(c) => c == SQLITE_CONSTRAINT_PRIMARYKEY || c == SQLITE_CONSTRAINT_UNIQUE,
            None => false,
        }
    }
}

/// A listing of `rows`: every row once, each with its own email, in any order.
pub open spec fn lists(v: Seq<(Seq<char>, Seq<char>)>, rows: Map<Seq<char>, Seq<char>>) -> bool {
    &&& forall|i: int| 0 <= i < v.len() ==> #[trigger] rows.contains_pair(v[i].0, v[i].1)
    &&& forall|i: int, j: int| 0 <= i < j < v.len() ==> (#[trigger] v[i]).0 != (#[trigger] v[j]).0
    &&& forall|k: Seq<char>| #[trigger]
        rows.contains_key(k) ==> exists|i: int| 0 <= i < v.len() && (#[trigger] v[i]).0 == k
}

/// The plain form of a fetched pair of texts.
pub open spec fn pair_view(p: (String, String)) -> (Seq<char>, Seq<char>) {
    (p.0@, p.1@)
}

/// The plain forms of fetched pairs, in order.
pub open spec fn pair_views(v: Seq<(String, String)>) -> Seq<(Seq<char>, Seq<char>)> {
    v.map_values(|p: (String, String)| pair_view(p))
}

/// The entry that SQLite keeps for the table: its name, and the statement
/// that made it, as SQLite writes it down.
pub open spec fn table_entry() -> (Seq<char>, Seq<char>) {
    (
        "users"@,
        "CREATE TABLE users (\n            name TEXT PRIMARY KEY,\n            email TEXT NOT NULL\n        )"@,
    )
}

/// The entry that SQLite keeps for the index of the primary key, which it
/// makes by itself and for which it keeps no statement.
pub open spec fn key_entry() -> (Seq<char>, Seq<char>) {
    ("sqlite_autoindex_users_1"@, ""@)
}

/// The entries are those of a database that holds the table as this library
/// makes it and nothing else: the table and the index of its key, in either
/// order.
pub open spec fn own_schema(entries: Seq<(Seq<char>, Seq<char>)>) -> bool {
    &&& entries.len() == 2
    &&& ((entries[0] == table_entry() && entries[1] == key_entry()) || (entries[0] == key_entry()
        && entries[1] == table_entry()))
}

/// What SQLite does on the insert: a successful insert adds exactly the given
/// row, and only where the name was free; a name that is taken makes the
/// statement fail, because the name is the primary key; that key is the only
/// key of the table, so a key conflict means that the name was taken; and a
/// failed statement leaves the table as it was.
pub open spec fn insert_effect(
    pre: Map<Seq<char>, Seq<char>>,
    name: Seq<char>,
    email: Seq<char>,
    r: Result<usize, SqlFailure>,
    post: Map<Seq<char>, Seq<char>>,
) -> bool {
    match r {
        Ok(_) => !pre.contains_key(name) && post == pre.insert(name, email),
        Err(f) => post == pre && (f.is_key_conflict() ==> pre.contains_key(name)),
    }
}

/// What SQLite does on the delete: on success the row with that name, if
/// there was one, is gone and no other row is touched, and the count that
/// comes back is the number of rows removed, one or none; a failed statement
/// leaves the table as it was.
pub open spec fn delete_effect(
    pre: Map<Seq<char>, Seq<char>>,
    name: Seq<char>,
    r: Result<usize, SqlFailure>,
    post: Map<Seq<char>, Seq<char>>,
) -> bool {
    match r {
        Ok(n) => post == pre.remove(name) && n == (if pre.contains_key(name) {
            1usize
        } else {
            0usize
        }),
        Err(_) => post == pre,
    }
}

/// What SQLite gives on the lookup: an email that comes back is the one
/// stored under the name, character for character, and `None` comes back
/// only where no row has the name.
pub open spec fn select_email_result(
    rows: Map<Seq<char>, Seq<char>>,
    name: Seq<char>,
    r: Result<Option<String>, SqlFailure>,
) -> bool {
    match r {
        Ok(Some(email)) => rows.contains_pair(name, email@),
        Ok(None) => !rows.contains_key(name),
        Err(_) => true,
    }
}

/// Reads the extended result code and the text out of a `rusqlite::Error`,
/// through `rusqlite::Error::sqlite_extended_error_code` and the error's
/// `Display`. Nothing is claimed of either.
#[verifier::external_body]
pub(crate) fn failure_of(e: rusqlite::Error) -> (f: SqlFailure) {
    SqlFailure { code: e.sqlite_extended_error_code(), message: e.to_string() }
}

/// Opens the database at `path` through `rusqlite::Connection::open`, which
/// creates the file when it is absent, then puts the connection into
/// exclusive locking mode and takes the exclusive lock, through
/// `rusqlite::Connection::execute_batch`.
///
/// A path that begins with `file:` is left out: SQLite may read it as a URI,
/// and a URI can switch locking off or share a database in memory.
///
/// Claimed: a connection that comes back holds the exclusive lock on the
/// database at `path`, and SQLite does not give the lock up before the
/// connection is closed; where another connection is on the database no
/// connection comes back; and a table holds finitely many rows.
#[verifier::external_body]
pub(crate) fn open_locked(path: &str) -> (r: Result<rusqlite::Connection, SqlFailure>)
    requires
        !is_uri(path@),
    ensures
        r is Ok ==> holds_lock(r->Ok_0) && table_rows(r->Ok_0).dom().finite(),
{
    let conn = rusqlite::Connection::open(path).map_err(failure_of)?;
    conn.execute_batch("PRAGMA locking_mode = EXCLUSIVE; BEGIN EXCLUSIVE; COMMIT;").map_err(
        failure_of,
    )?;
    Ok(conn)
}

/// Makes the table where none of that name exists, through
/// `rusqlite::Connection::execute`.
///
/// Claimed: the statement never touches a row, whether it succeeds or fails,
/// and the lock stays.
#[verifier::external_body]
pub(crate) fn create_table(conn: &mut rusqlite::Connection) -> (r: Result<usize, SqlFailure>)
    requires
        holds_lock(*old(conn)),
    ensures
        holds_lock(*final(conn)),
        table_rows(*final(conn)) == table_rows(*old(conn)),
        r is Ok ==> table_made(*final(conn)),
{
    conn.execute(
        "CREATE TABLE IF NOT EXISTS users (\n            name TEXT PRIMARY KEY,\n            email TEXT NOT NULL\n        )",
        [],
    ).map_err(failure_of)
}

/// Reads what SQLite keeps of every object of the database, whatever it
/// belongs to: its name and the statement that made it, or the empty text
/// where SQLite keeps none, through `rusqlite::Connection::prepare` and
/// `rusqlite::Statement::query_map`.
///
/// Claimed: where the entries that come back are those of [`own_schema`],
/// the database is as [`keyed_by_name`] says. A connection that was just
/// opened has no temporary objects of its own.
#[verifier::external_body]
pub(crate) fn select_schema(conn: &rusqlite::Connection) -> (r: Result<
    Vec<(String, String)>,
    SqlFailure,
>)
    requires
        holds_lock(*conn),
    ensures
        r is Ok && own_schema(pair_views(r->Ok_0@)) ==> keyed_by_name(*conn),
{
    let mut stmt = conn.prepare("SELECT name, ifnull(sql, '') FROM sqlite_master").map_err(
        failure_of,
    )?;
    let rows = stmt.query_map([], |row| Ok((row.get(0)?, row.get(1)?))).map_err(failure_of)?;
    rows.collect::<Result<Vec<(String, String)>, rusqlite::Error>>().map_err(failure_of)
}

/// Reads the text encoding of the database, through
/// `rusqlite::Connection::query_row` on `PRAGMA encoding`.
///
/// Claimed: where the answer is `UTF-8`, the database keeps its text as
/// UTF-8. The encoding of a database is fixed once it holds a table.
#[verifier::external_body]
pub(crate) fn select_encoding(conn: &rusqlite::Connection) -> (r: Result<String, SqlFailure>)
    requires
        holds_lock(*conn),
        table_made(*conn),
    ensures
        r is Ok && r->Ok_0@ == "UTF-8"@ ==> stores_utf8(*conn),
{
    conn.query_row("PRAGMA encoding", [], |row| row.get(0)).map_err(failure_of)
}

/// Adds one row through `rusqlite::Connection::execute`, with both strings
/// bound as text.
///
/// Claimed: what [`insert_effect`] says, and the connection stays ready.
#[verifier::external_body]
pub(crate) fn insert_row(conn: &mut rusqlite::Connection, name: &str, email: &str) -> (r: Result<
    usize,
    SqlFailure,
>)
    requires
        ready(*old(conn)),
    ensures
        ready(*final(conn)),
        insert_effect(table_rows(*old(conn)), name@, email@, r, table_rows(*final(conn))),
    no_unwind
{
    conn.execute("INSERT INTO users (name, email) VALUES (?1, ?2)", [name, email]).map_err(
        failure_of,
    )
}

/// Removes the row of one name through `rusqlite::Connection::execute`, with
/// the name bound as text.
///
/// Claimed: what [`delete_effect`] says, and the connection stays ready.
#[verifier::external_body]
pub(crate) fn delete_row(conn: &mut rusqlite::Connection, name: &str) -> (r: Result<
    usize,
    SqlFailure,
>)
    requires
        ready(*old(conn)),
    ensures
        ready(*final(conn)),
        delete_effect(table_rows(*old(conn)), name@, r, table_rows(*final(conn))),
    no_unwind
{
    conn.execute("DELETE FROM users WHERE name = ?1", [name]).map_err(failure_of)
}

/// Reads the email of one name through `rusqlite::Connection::query_row`,
/// with the name bound as text, and turns "no rows" into `None` through
/// `rusqlite::OptionalExtension::optional`.
///
/// Claimed: what [`select_email_result`] says.
#[verifier::external_body]
pub(crate) fn select_email(conn: &rusqlite::Connection, name: &str) -> (r: Result<
    Option<String>,
    SqlFailure,
>)
    requires
        ready(*conn),
    ensures
        select_email_result(table_rows(*conn), name@, r),
{
    rusqlite::OptionalExtension::optional(
        conn.query_row("SELECT email FROM users WHERE name = ?1", [name], |row| row.get(0)),
    ).map_err(failure_of)
}

/// Reads all rows, name and email, through `rusqlite::Connection::prepare`
/// and `rusqlite::Statement::query_map`, and collects them.
///
/// Claimed: what comes back holds every row of the table exactly once, each
/// string as it was stored; SQLite fixes no order.
#[verifier::external_body]
pub(crate) fn select_all(conn: &rusqlite::Connection) -> (r: Result<
    Vec<(String, String)>,
    SqlFailure,
>)
    requires
        ready(*conn),
    ensures
        r is Ok ==> lists(pair_views(r->Ok_0@), table_rows(*conn)),
{
    let mut stmt = conn.prepare("SELECT name, email FROM users").map_err(failure_of)?;
    let rows = stmt.query_map([], |row| Ok((row.get(0)?, row.get(1)?))).map_err(failure_of)?;
    rows.collect::<Result<Vec<(String, String)>, rusqlite::Error>>().map_err(failure_of)
}

} // verus!
