//! The metrics table in its SQLite database, and the statements that the agent
//! runs on it.

use crate::order::text_before;
use crate::text::{cat2, texts};
use rusqlite::Connection;
use vstd::prelude::*;
use vstd::string::StringExecFns;

verus! {

#[verifier::external_type_specification]
#[verifier::external_body]
pub struct ExConnection(rusqlite::Connection);

#[verifier::external_type_specification]
#[verifier::external_body]
pub struct ExSqliteError(rusqlite::Error);

/// Settings for concurrent reads and writes.
pub const PRAGMAS: &'static str = "PRAGMA journal_mode = WAL;
             PRAGMA synchronous  = NORMAL;
             PRAGMA busy_timeout = 5000;
             PRAGMA cache_size   = -2000;";

/// The metrics table: a row has its own growing ID, the time of the sample, the
/// sample as JSON, and whether it was sent.
pub const CREATE_TABLE: &'static str = "CREATE TABLE IF NOT EXISTS metrics (
                id           INTEGER PRIMARY KEY AUTOINCREMENT,
                timestamp    TEXT    NOT NULL,
                metrics_json TEXT    NOT NULL,
                sent         INTEGER NOT NULL DEFAULT 0
            )";

/// Index for fast unsent-row queries.
pub const CREATE_INDEX: &'static str = "CREATE INDEX IF NOT EXISTS idx_metrics_sent ON metrics (sent, id)";

pub const INSERT_ROW: &'static str =
    "INSERT INTO metrics (timestamp, metrics_json, sent) VALUES (?1, ?2, 0)";

pub const SELECT_UNSENT: &'static str =
    "SELECT id, timestamp, metrics_json FROM metrics WHERE sent = 0 ORDER BY id ASC LIMIT ?1";

pub const DELETE_OLD: &'static str = "DELETE FROM metrics WHERE timestamp < ?1";

pub const DELETE_OLD_SENT: &'static str = "DELETE FROM metrics WHERE sent = 1 AND timestamp < ?1";

pub const COUNT_UNSENT: &'static str = "SELECT COUNT(*) FROM metrics WHERE sent = 0";

pub const COUNT_ALL: &'static str = "SELECT COUNT(*) FROM metrics";

// ---------------------------------------------------------------------------
// The table
// ---------------------------------------------------------------------------

/// A row of the metrics table.
pub struct Row {
    pub id: i64,
    pub timestamp: Seq<char>,
    pub json: Seq<char>,
    pub sent: i64,
}

/// The rows of the table `metrics`, by ascending ID, as the last statement of
/// this connection found them, where that is the agent's own table. Where there
/// is no such table yet there are no rows.
///
/// Between two statements of one connection another connection may write to the
/// database, so what a statement finds need not be what the one before it left.
pub uninterp spec fn rows_found(conn: Connection) -> Seq<Row>;

/// The rows of the table `metrics`, by ascending ID, as the last statement of
/// this connection left them, where that is the agent's own table.
pub uninterp spec fn rows_left(conn: Connection) -> Seq<Row>;

/// Whether the last statement of this connection ran on the agent's own table:
/// the database keeps text as UTF-8, its table `metrics` is as `CREATE_TABLE`
/// makes it and has no trigger, or is not there yet, and the rows that the
/// statement found there are rows that `INSERT_ROW` added, some of them since
/// marked by a statement of `mark_statement`.
///
/// A file that another program made or changed may hold something else under the
/// name of the table. Of such a table nothing is said.
pub uninterp spec fn own_table(conn: Connection) -> bool;

/// What is given to a statement for its parameters.
pub enum Given {
    Texts(Seq<Seq<char>>),
    Numbers(Seq<i64>),
}

/// A statement that was handed to a connection: what was given to it, and the
/// message of the error where it failed.
pub struct Call {
    pub sql: Seq<char>,
    pub given: Given,
    pub failure: Option<Seq<char>>,
}

/// The path at which the connection was opened.
pub uninterp spec fn location(conn: Connection) -> Seq<char>;

/// The statements that were handed to the connection since it was opened, in
/// order.
pub uninterp spec fn calls(conn: Connection) -> Seq<Call>;

/// What `to_string` gives for the error.
pub uninterp spec fn sqlite_message(error: rusqlite::Error) -> Seq<char>;

/// The message of the error where a statement failed.
pub open spec fn failure_of<T>(r: Result<T, rusqlite::Error>) -> Option<Seq<char>> {
    match r {
        Ok(_) => None,
        Err(e) => Some(sqlite_message(e)),
    }
}

/// Whether `after` is `before` and then this statement.
pub open spec fn handed(
    before: Seq<Call>,
    after: Seq<Call>,
    sql: Seq<char>,
    given: Given,
    failure: Option<Seq<char>>,
) -> bool {
    after == before.push(Call { sql, given, failure })
}

/// What is given to a statement without parameters.
pub open spec fn nothing() -> Given {
    Given::Texts(Seq::empty())
}

/// Whether the rows stand by ascending ID, each with its own.
pub open spec fn by_id(rows: Seq<Row>) -> bool {
    forall|i: int, j: int|
        0 <= i < j < rows.len() ==> (#[trigger] rows[i]).id < (#[trigger] rows[j]).id
}

/// The rows that were not sent yet.
pub open spec fn unsent(rows: Seq<Row>) -> Seq<Row> {
    rows.filter(|r: Row| r.sent == 0)
}

/// The rows that are not older than `cutoff`.
pub open spec fn not_older(rows: Seq<Row>, cutoff: Seq<char>) -> Seq<Row> {
    rows.filter(|r: Row| !text_before(r.timestamp, cutoff))
}

/// The rows that are not both sent and older than `cutoff`.
pub open spec fn not_older_or_not_sent(rows: Seq<Row>, cutoff: Seq<char>) -> Seq<Row> {
    rows.filter(|r: Row| !(r.sent == 1 && text_before(r.timestamp, cutoff)))
}

/// Whether `after` is `before` with one new unsent row at the end.
pub open spec fn one_added(
    before: Seq<Row>,
    after: Seq<Row>,
    timestamp: Seq<char>,
    json: Seq<char>,
) -> bool {
    &&& after.len() == before.len() + 1
    &&& after.drop_last() == before
    &&& after.last().timestamp == timestamp
    &&& after.last().json == json
    &&& after.last().sent == 0
}

/// The rows with those of the given IDs marked as sent.
pub open spec fn marked(rows: Seq<Row>, ids: Seq<i64>) -> Seq<Row> {
    rows.map_values(
        |r: Row|
            if ids.contains(r.id) {
                Row { sent: 1, ..r }
            } else {
                r
            },
    )
}

/// The first `limit` rows, or all where the limit is negative.
pub open spec fn limited(rows: Seq<Row>, limit: i64) -> Seq<Row> {
    if 0 <= limit < rows.len() {
        rows.take(limit as int)
    } else {
        rows
    }
}

/// `n` question marks with commas between them.
pub open spec fn placeholders(n: nat) -> Seq<char>
    decreases n,
{
    if n == 0 {
        Seq::empty()
    } else if n == 1 {
        "?"@
    } else {
        placeholders((n - 1) as nat) + ",?"@
    }
}

/// The statement that marks `n` rows as sent.
pub open spec fn mark_statement(n: nat) -> Seq<char> {
    "UPDATE metrics SET sent = 1 WHERE id IN ("@ + placeholders(n) + ")"@
}

/// The statement that marks `n` rows as sent.
pub fn mark_sql(n: usize) -> (sql: String)
    ensures
        sql@ == mark_statement(n as nat),
{
    let mut marks = String::new();
    let mut i: usize = 0;
    while i < n
        invariant
            i <= n,
            marks@ == placeholders(i as nat),
        decreases n - i,
    {
        if i == 0 {
            marks = String::from_str("?");
        } else {
            marks = cat2(marks.as_str(), ",?");
        }
        i += 1;
    }
    crate::text::cat3("UPDATE metrics SET sent = 1 WHERE id IN (", marks.as_str(), ")")
}

// ---------------------------------------------------------------------------
// What the statements do
// ---------------------------------------------------------------------------

/// What a statement with text parameters does to the rows, for the statements
/// of this module that have such parameters or none, and how many rows it
/// reports to have changed, where that many can be reported.
pub open spec fn runs(
    sql: Seq<char>,
    params: Seq<Seq<char>>,
    before: Seq<Row>,
    after: Seq<Row>,
    changed: usize,
) -> bool {
    &&& (sql == CREATE_TABLE@ || sql == CREATE_INDEX@) && params.len() == 0 ==> after == before
    &&& sql == INSERT_ROW@ && params.len() == 2 ==> one_added(before, after, params[0], params[1])
        && by_id(after)
    &&& sql == DELETE_OLD@ && params.len() == 1 ==> after == not_older(before, params[0])
        && (before.len() <= usize::MAX ==> changed == before.len() - after.len())
    &&& sql == DELETE_OLD_SENT@ && params.len() == 1 ==> after == not_older_or_not_sent(
        before,
        params[0],
    ) && (before.len() <= usize::MAX ==> changed == before.len() - after.len())
}

/// What a statement with ID parameters does to the rows.
pub open spec fn runs_on_ids(
    sql: Seq<char>,
    ids: Seq<i64>,
    before: Seq<Row>,
    after: Seq<Row>,
) -> bool {
    sql == mark_statement(ids.len()) && ids.len() > 0 ==> after == marked(before, ids)
}

/// Whether a fetched row is the row of the table.
pub open spec fn fetched(got: (i64, String, String), row: Row) -> bool {
    got.0 == row.id && got.1@ == row.timestamp && got.2@ == row.json
}

/// What a query gives for the rows, for the query of this module.
pub open spec fn selects(
    sql: Seq<char>,
    limit: i64,
    rows: Seq<Row>,
    got: Seq<(i64, String, String)>,
) -> bool {
    sql == SELECT_UNSENT@ ==> {
        let wanted = limited(unsent(rows), limit);
        &&& by_id(rows)
        &&& got.len() == wanted.len()
        &&& forall|i: int| 0 <= i < got.len() ==> fetched(#[trigger] got[i], wanted[i])
    }
}

/// What a count gives for the rows, for the counts of this module.
pub open spec fn counts(sql: Seq<char>, rows: Seq<Row>, count: i64) -> bool {
    &&& sql == COUNT_UNSENT@ ==> count == unsent(rows).len()
    &&& sql == COUNT_ALL@ ==> count == rows.len()
}

// ---------------------------------------------------------------------------
// Calls
// ---------------------------------------------------------------------------

/// Calls `rusqlite::Connection::open`: a connection to the database at the path,
/// to which no statement was handed yet. What the database holds, and when it can
/// be opened, is not said.
#[verifier::external_body]
pub(crate) fn open_database(path: &str) -> (r: Result<Connection, rusqlite::Error>)
    ensures
        r matches Ok(conn) ==> location(conn) == path@,
        r matches Ok(conn) ==> calls(conn) =~= seq![],
{
    Connection::open(path)
}

/// Calls `rusqlite::Connection::execute_batch`. The statements of `PRAGMAS`, run to
/// their end, change no row; what other statements do, and when statements fail,
/// is not said.
#[verifier::external_body]
pub(crate) fn execute_batch(conn: &mut Connection, sql: &str) -> (r: Result<(), rusqlite::Error>)
    ensures
        own_table(*final(conn)) && r is Ok && sql@ == PRAGMAS@ ==> rows_left(*final(conn))
            == rows_found(*final(conn)),
        location(*final(conn)) == location(*old(conn)),
        handed(calls(*old(conn)), calls(*final(conn)), sql@, nothing(), failure_of(r)),
{
    conn.execute_batch(sql)
}

/// Calls `rusqlite::Connection::execute` with text parameters. A statement of
/// this module that runs to its end on the agent's own table leaves of the rows
/// that it finds what `runs` says; of other statements, of other tables, and of a
/// statement that fails, nothing is said.
#[verifier::external_body]
pub(crate) fn execute(conn: &mut Connection, sql: &str, params: &Vec<String>) -> (r: Result<
    usize,
    rusqlite::Error,
>)
    ensures
        own_table(*final(conn)) ==> (r matches Ok(changed) ==> runs(
            sql@,
            texts(params@),
            rows_found(*final(conn)),
            rows_left(*final(conn)),
            changed,
        )),
        location(*final(conn)) == location(*old(conn)),
        handed(
            calls(*old(conn)),
            calls(*final(conn)),
            sql@,
            Given::Texts(texts(params@)),
            failure_of(r),
        ),
{
    conn.execute(sql, rusqlite::params_from_iter(params.iter()))
}

/// Calls `rusqlite::Connection::execute` with IDs as parameters. The statement
/// of `mark_statement`, run to its end on the agent's own table, leaves of the rows
/// that it finds what `runs_on_ids` says; of other statements, of other tables,
/// and of a statement that fails, nothing is said.
#[verifier::external_body]
pub(crate) fn execute_on_ids(conn: &mut Connection, sql: &str, ids: &Vec<i64>) -> (r: Result<
    usize,
    rusqlite::Error,
>)
    ensures
        own_table(*final(conn)) && r is Ok ==> runs_on_ids(
            sql@,
            ids@,
            rows_found(*final(conn)),
            rows_left(*final(conn)),
        ),
        location(*final(conn)) == location(*old(conn)),
        handed(
            calls(*old(conn)),
            calls(*final(conn)),
            sql@,
            Given::Numbers(ids@),
            failure_of(r),
        ),
{
    conn.execute(sql, rusqlite::params_from_iter(ids.iter()))
}

/// Calls `rusqlite::Connection::prepare` and `rusqlite::Statement::query_map`,
/// and takes the first three columns of each row. The query of this module, run
/// to its end on the agent's own table, changes no row and gives what `selects`
/// says; of other statements and other tables nothing is said.
#[verifier::external_body]
pub(crate) fn query_rows(conn: &mut Connection, sql: &str, limit: i64) -> (r: Result<
    Vec<(i64, String, String)>,
    rusqlite::Error,
>)
    ensures
        own_table(*final(conn)) ==> (r matches Ok(got) ==> selects(
            sql@,
            limit,
            rows_left(*final(conn)),
            got@,
        )),
        own_table(*final(conn)) && r is Ok && sql@ == SELECT_UNSENT@ ==> rows_left(*final(conn))
            == rows_found(*final(conn)),
        location(*final(conn)) == location(*old(conn)),
        handed(
            calls(*old(conn)),
            calls(*final(conn)),
            sql@,
            Given::Numbers(seq![limit]),
            failure_of(r),
        ),
{
    let mut statement = conn.prepare(sql)?;
    let rows = statement.query_map([limit], |row| Ok((row.get(0)?, row.get(1)?, row.get(2)?)))?;
    rows.collect()
}

/// Calls `rusqlite::Connection::query_row` and takes the first column. A count of
/// this module, run to its end on the agent's own table, changes no row and gives
/// what `counts` says; of other statements and other tables nothing is said.
#[verifier::external_body]
pub(crate) fn query_count(conn: &mut Connection, sql: &str) -> (r: Result<i64, rusqlite::Error>)
    ensures
        own_table(*final(conn)) ==> (r matches Ok(count) ==> counts(
            sql@,
            rows_left(*final(conn)),
            count,
        )),
        own_table(*final(conn)) && r is Ok && (sql@ == COUNT_UNSENT@ || sql@ == COUNT_ALL@)
            ==> rows_left(*final(conn)) == rows_found(*final(conn)),
        location(*final(conn)) == location(*old(conn)),
        handed(calls(*old(conn)), calls(*final(conn)), sql@, nothing(), failure_of(r)),
{
    conn.query_row(sql, [], |row| row.get(0))
}

/// Calls the `to_string` of `rusqlite::Error`. The text depends on the error
/// alone.
#[verifier::external_body]
pub(crate) fn sqlite_error_text(error: &rusqlite::Error) -> (text: String)
    ensures
        text@ == sqlite_message(*error),
{
    error.to_string()
}

} // verus!
