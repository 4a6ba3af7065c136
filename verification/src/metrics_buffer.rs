//! Disk-backed metrics buffer using SQLite.
//!
//! Samples are stored as they are taken, so that no data is lost while the
//! gateway cannot be reached. The push task fetches unsent rows in batches and
//! marks them as sent when they were handed over; after a reconnect the backfill
//! replays what remains.
//!
//! The contracts speak of the rows that a statement finds in the database and of
//! the rows that it leaves there: another process may write to the file between
//! two statements. They speak of them where the table is the agent's own, as it
//! is in a file that no other program made or changed.

use crate::clock::{earlier, in_four_digit_year, ordered_as_time, plain_moment, tells_moment};
use crate::clock::{to_signed, utc_now, utc_rfc3339, within_calendar, Moment};
use crate::order::text_before;
use crate::paths::{parent, parent_of, text_in};
use crate::sqlite;
use crate::sqlite::{marked, not_older, not_older_or_not_sent, one_added, unsent};
use crate::sqlite::{Call, Given, Row};
use crate::text::{cat2, texts};
use rusqlite::Connection;
use vstd::prelude::*;
use vstd::string::StringExecFns;

verus! {

/// Error type for metrics buffer operations.
#[derive(Debug)]
pub struct BufferError(pub String);

/// A single buffered metrics row returned from the database. `M` is the sample:
/// its JSON text as the database holds it, or the metrics that were read from it.
#[derive(Debug, Clone)]
pub struct BufferedMetric<M> {
    pub id: i64,
    pub timestamp: String,
    pub metrics: M,
}

/// The rows whose sample could be read, in order.
pub open spec fn readable<M>(rows: Seq<BufferedMetric<Option<M>>>) -> Seq<BufferedMetric<M>>
    decreases rows.len(),
{
    if rows.len() == 0 {
        Seq::empty()
    } else {
        let before = readable(rows.drop_last());
        let row = rows.last();
        match row.metrics {
            Some(metrics) => before.push(
                BufferedMetric { id: row.id, timestamp: row.timestamp, metrics },
            ),
            None => before,
        }
    }
}

/// The rows whose sample could be read, in order; a corrupt row is left out.
pub fn keep_readable<M>(rows: Vec<BufferedMetric<Option<M>>>) -> (r: Vec<BufferedMetric<M>>)
    ensures
        r@ == readable(rows@),
{
    let ghost all = rows@;
    let mut r: Vec<BufferedMetric<M>> = Vec::new();
    assert(all.take(0) =~= Seq::empty());
    for row in it: rows
        invariant
            all == it.seq(),
            r@ == readable(all.take(it.index() as int)),
    {
        let ghost i = it.index() as int;
        assert(all.take(i + 1).drop_last() =~= all.take(i));
        assert(all.take(i + 1).last() == row);
        match row.metrics {
            Some(metrics) => {
                r.push(BufferedMetric { id: row.id, timestamp: row.timestamp, metrics });
            },
            None => {},
        }
    }
    assert(all.take(all.len() as int) =~= all);
    r
}

/// Disk-backed metrics buffer backed by a SQLite database.
pub struct MetricsBuffer {
    conn: Connection,
}

/// Sent rows are kept for this many seconds.
pub const SENT_RETENTION_SECS: i64 = 300;

/// The most hours of retention for which the cutoff can be told at any time of
/// the clock.
pub const MAX_RETENTION_HOURS: u64 = 2_315_167_008;

/// Whether a fetched metric is a row of the table.
pub open spec fn is_row(metric: BufferedMetric<String>, row: Row) -> bool {
    &&& metric.id == row.id
    &&& metric.timestamp@ == row.timestamp
    &&& metric.metrics@ == row.json
}

/// The IDs of the fetched metrics.
pub open spec fn ids_of<M>(list: Seq<BufferedMetric<M>>) -> Seq<i64> {
    list.map_values(|m: BufferedMetric<M>| m.id)
}

/// The oldest rows that were not sent yet, at most `limit` of them. A limit past
/// the largest `i64` is none.
pub open spec fn oldest_unsent(rows: Seq<Row>, limit: usize) -> Seq<Row> {
    sqlite::limited(unsent(rows), crate::clock::as_signed(limit as u64) as i64)
}

/// Whether `list` is those rows, in order.
pub open spec fn are_rows(list: Seq<BufferedMetric<String>>, rows: Seq<Row>) -> bool {
    &&& list.len() == rows.len()
    &&& forall|i: int| 0 <= i < list.len() ==> is_row(#[trigger] list[i], rows[i])
}

/// The second before which a sample is too old, for a retention in hours whose
/// bits are read as a signed number.
pub open spec fn cutoff_second(now: Moment, retention_hours: u64) -> int {
    now.secs - crate::clock::as_signed(retention_hours) * 3600
}

/// The error of the buffer that carries the message of the database's error.
fn buffer_error(error: rusqlite::Error) -> (r: BufferError)
    ensures
        r.0@ == sqlite::sqlite_message(error),
{
    BufferError(sqlite::sqlite_error_text(&error))
}

/// Whether the text is the message of an error of the database.
pub open spec fn is_sqlite_message(text: Seq<char>) -> bool {
    exists|error: rusqlite::Error| text == #[trigger] sqlite::sqlite_message(error)
}

/// The message of the error where an operation failed.
pub open spec fn failure_in<T>(r: Result<T, BufferError>) -> Option<Seq<char>> {
    match r {
        Ok(_) => None,
        Err(e) => Some(e.0@),
    }
}

/// Whether one statement was handed to the database between `before` and
/// `after`, and the operation succeeded exactly if the statement did; else its
/// error carries the message of the statement's.
pub open spec fn runs_one<T>(
    before: MetricsBuffer,
    after: MetricsBuffer,
    sql: Seq<char>,
    given: Given,
    r: Result<T, BufferError>,
) -> bool {
    &&& after.path() == before.path()
    &&& sqlite::handed(before.calls(), after.calls(), sql, given, failure_in(r))
}

/// The statements that set a database up, in order.
pub open spec fn set_up_statements() -> Seq<Seq<char>> {
    seq![sqlite::PRAGMAS@, sqlite::CREATE_TABLE@, sqlite::CREATE_INDEX@]
}

/// The first `n` statements that set a database up, each without parameters, of
/// which the last failed with this message or did not.
pub open spec fn set_up_calls(n: nat, failure: Option<Seq<char>>) -> Seq<Call> {
    Seq::new(
        n,
        |i: int|
            Call {
                sql: set_up_statements()[i],
                given: sqlite::nothing(),
                failure: if i == n - 1 {
                    failure
                } else {
                    None
                },
            },
    )
}

/// Whether the statements that set a database up were handed to it one after the
/// other, up to and with the first that failed: all of them where none did.
pub open spec fn sets_up(
    before: Seq<Call>,
    after: Seq<Call>,
    failure: Option<Seq<char>>,
) -> bool {
    exists|n: nat|
        {
            &&& 0 < n <= set_up_statements().len()
            &&& failure is None ==> n == set_up_statements().len()
            &&& after == before + #[trigger] set_up_calls(n, failure)
        }
}

/// What a statement found and left, and whether it ran on the agent's own table.
pub struct Stage {
    pub own: bool,
    pub found: Seq<Row>,
    pub left: Seq<Row>,
}

/// What the last statement of a connection found and left.
pub open spec fn stage_of(conn: Connection) -> Stage {
    Stage {
        own: sqlite::own_table(conn),
        found: sqlite::rows_found(conn),
        left: sqlite::rows_left(conn),
    }
}

/// Whether these are the stages of an opening that ends in `last`: one for each
/// statement that sets a database up, none of which changes a row.
pub open spec fn opens(stages: Seq<Stage>, last: Stage) -> bool {
    &&& stages.len() == set_up_statements().len()
    &&& stages.last() == last
    &&& forall|i: int|
        0 <= i < stages.len() ==> ((#[trigger] stages[i]).own ==> stages[i].left
            == stages[i].found)
}

/// Set the database up that a connection was opened to.
fn set_up(conn: &mut Connection) -> (r: Result<(), BufferError>)
    ensures
        sqlite::location(*final(conn)) == sqlite::location(*old(conn)),
        sets_up(sqlite::calls(*old(conn)), sqlite::calls(*final(conn)), failure_in(r)),
        r matches Err(e) ==> is_sqlite_message(e.0@),
        r is Ok ==> exists|stages: Seq<Stage>| #[trigger] opens(stages, stage_of(*final(conn))),
{
    let ghost before = sqlite::calls(*conn);
    if let Err(e) = sqlite::execute_batch(conn, sqlite::PRAGMAS) {
        let error = buffer_error(e);
        assert(sqlite::calls(*conn) =~= before + set_up_calls(1, Some(error.0@)));
        return Err(error);
    }
    let ghost first = stage_of(*conn);
    let none: Vec<String> = Vec::new();
    assert(texts(none@) =~= Seq::empty());
    if let Err(e) = sqlite::execute(conn, sqlite::CREATE_TABLE, &none) {
        let error = buffer_error(e);
        assert(sqlite::calls(*conn) =~= before + set_up_calls(2, Some(error.0@)));
        return Err(error);
    }
    let ghost second = stage_of(*conn);
    if let Err(e) = sqlite::execute(conn, sqlite::CREATE_INDEX, &none) {
        let error = buffer_error(e);
        assert(sqlite::calls(*conn) =~= before + set_up_calls(3, Some(error.0@)));
        return Err(error);
    }
    assert(sqlite::calls(*conn) =~= before + set_up_calls(3, None));
    assert(opens(seq![first, second, stage_of(*conn)], stage_of(*conn)));
    Ok(())
}

impl MetricsBuffer {
    /// The path of the database.
    pub closed spec fn path(&self) -> Seq<char> {
        sqlite::location(self.conn)
    }

    /// The statements that were handed to the database since it was opened.
    pub closed spec fn calls(&self) -> Seq<Call> {
        sqlite::calls(self.conn)
    }

    /// Whether the last statement ran on the agent's own table. A file that
    /// another program made or changed may hold something else.
    pub closed spec fn own_table(&self) -> bool {
        sqlite::own_table(self.conn)
    }

    /// The rows that the last statement found in the database.
    pub closed spec fn found(&self) -> Seq<Row> {
        sqlite::rows_found(self.conn)
    }

    /// The rows that the last statement left in the database.
    pub closed spec fn rows(&self) -> Seq<Row> {
        sqlite::rows_left(self.conn)
    }

    /// What the last statement found and left.
    pub open spec fn stage(&self) -> Stage {
        Stage { own: self.own_table(), found: self.found(), left: self.rows() }
    }

    /// The directory that has to be there for a database at `path`.
    pub fn directory(path: &str) -> (r: Option<String>)
        ensures
            text_in(r) == parent_of(path@),
    {
        parent(path)
    }

    /// The error that the directory of a database could not be created.
    pub fn directory_failed(why: &str) -> (e: BufferError)
        ensures
            e.0@ == "Failed to create directory: "@ + why@,
    {
        BufferError(cat2("Failed to create directory: ", why))
    }

    /// Open (or create) the metrics buffer database at `path`, in a directory
    /// that exists, and set it up. The rows that an existing database holds stay.
    pub fn new(path: &str) -> (r: Result<Self, BufferError>)
        ensures
            match r {
                Ok(buffer) => {
                    &&& buffer.path() == path@
                    &&& buffer.calls() == set_up_calls(set_up_statements().len(), None)
                    &&& exists|stages: Seq<Stage>| #[trigger] opens(stages, buffer.stage())
                },
                Err(e) => is_sqlite_message(e.0@),
            },
    {
        let mut conn = match sqlite::open_database(path) {
            Ok(conn) => conn,
            Err(e) => return Err(buffer_error(e)),
        };
        if let Err(e) = set_up(&mut conn) {
            return Err(e);
        }
        assert(sqlite::calls(conn) =~= set_up_calls(set_up_statements().len(), None));
        let buffer = MetricsBuffer { conn };
        assert(buffer.stage() == stage_of(buffer.conn));
        Ok(buffer)
    }

    /// Whether this is what [`Self::store`] gives.
    pub open spec fn store_gives(
        self,
        after: Self,
        timestamp: &str,
        metrics_json: &str,
        r: Result<(), BufferError>,
    ) -> bool {
        &&& after.own_table() && r is Ok ==> one_added(
            after.found(),
            after.rows(),
            timestamp@,
            metrics_json@,
        ) && sqlite::by_id(after.rows())
        &&& runs_one(
            self,
            after,
            sqlite::INSERT_ROW@,
            Given::Texts(seq![timestamp@, metrics_json@]),
            r,
        )
    }

    /// Insert a new metrics data point (marked as unsent), given as JSON text.
    pub fn store(&mut self, timestamp: &str, metrics_json: &str) -> (r: Result<(), BufferError>)
        ensures
            old(self).store_gives(*final(self), timestamp, metrics_json, r),
            final(self).own_table() && r is Ok ==> one_added(
                final(self).found(),
                final(self).rows(),
                timestamp@,
                metrics_json@,
            ) && sqlite::by_id(final(self).rows()),
            runs_one(
                *old(self),
                *final(self),
                sqlite::INSERT_ROW@,
                Given::Texts(seq![timestamp@, metrics_json@]),
                r,
            ),
    {
        let mut params: Vec<String> = Vec::new();
        params.push(String::from_str(timestamp));
        params.push(String::from_str(metrics_json));
        assert(texts(params@) =~= seq![timestamp@, metrics_json@]);
        match sqlite::execute(&mut self.conn, sqlite::INSERT_ROW, &params) {
            Ok(_) => Ok(()),
            Err(e) => Err(buffer_error(e)),
        }
    }

    /// Whether this is what [`Self::get_unsent`] gives.
    pub open spec fn get_unsent_gives(
        self,
        after: Self,
        limit: usize,
        r: Result<Vec<BufferedMetric<String>>, BufferError>,
    ) -> bool {
        &&& after.own_table() ==> (r matches Ok(list) ==> are_rows(
            list@,
            oldest_unsent(after.rows(), limit),
        ) && after.rows() == after.found() && sqlite::by_id(after.rows()))
        &&& runs_one(
            self,
            after,
            sqlite::SELECT_UNSENT@,
            Given::Numbers(seq![crate::clock::as_signed(limit as u64) as i64]),
            r,
        )
    }

    /// Fetch the oldest unsent rows, up to `limit`.
    pub fn get_unsent(&mut self, limit: usize) -> (r: Result<
        Vec<BufferedMetric<String>>,
        BufferError,
    >)
        ensures
            old(self).get_unsent_gives(*final(self), limit, r),
            final(self).own_table() ==> (r matches Ok(list) ==> are_rows(
                list@,
                oldest_unsent(final(self).rows(), limit),
            ) && final(self).rows() == final(self).found() && sqlite::by_id(final(self).rows())),
            runs_one(
                *old(self),
                *final(self),
                sqlite::SELECT_UNSENT@,
                Given::Numbers(seq![crate::clock::as_signed(limit as u64) as i64]),
                r,
            ),
    {
        let got = match sqlite::query_rows(
            &mut self.conn,
            sqlite::SELECT_UNSENT,
            to_signed(limit as u64),
        ) {
            Ok(got) => got,
            Err(e) => return Err(buffer_error(e)),
        };
        let ghost own = self.own_table();
        let ghost wanted = oldest_unsent(self.rows(), limit);
        let n = got.len();
        let mut list: Vec<BufferedMetric<String>> = Vec::new();
        let mut i: usize = 0;
        while i < n
            invariant
                n == got@.len(),
                own ==> n == wanted.len(),
                i <= n,
                list@.len() == i,
                own ==> forall|j: int|
                    0 <= j < n ==> sqlite::fetched(#[trigger] got@[j], wanted[j]),
                own ==> forall|j: int| 0 <= j < i ==> is_row(#[trigger] list@[j], wanted[j]),
            decreases n - i,
        {
            assert(own ==> sqlite::fetched(got@[i as int], wanted[i as int]));
            let row = &got[i];
            list.push(
                BufferedMetric { id: row.0, timestamp: row.1.clone(), metrics: row.2.clone() },
            );
            i += 1;
        }
        Ok(list)
    }

    /// Whether this is what [`Self::mark_sent`] gives.
    pub open spec fn mark_sent_gives(
        self,
        after: Self,
        ids: Vec<i64>,
        r: Result<(), BufferError>,
    ) -> bool {
        &&& ids@.len() == 0 ==> r is Ok && after == self
        &&& ids@.len() > 0 && after.own_table() && r is Ok ==> after.rows() == marked(
            after.found(),
            ids@,
        )
        &&& ids@.len() > 0 ==> runs_one(
            self,
            after,
            sqlite::mark_statement(ids@.len()),
            Given::Numbers(ids@),
            r,
        )
    }

    /// Mark a set of row IDs as sent.
    pub fn mark_sent(&mut self, ids: &Vec<i64>) -> (r: Result<(), BufferError>)
        ensures
            old(self).mark_sent_gives(*final(self), *ids, r),
            ids@.len() == 0 ==> r is Ok && *final(self) == *old(self),
            ids@.len() > 0 && final(self).own_table() && r is Ok ==> final(self).rows() == marked(
                final(self).found(),
                ids@,
            ),
            ids@.len() > 0 ==> runs_one(
                *old(self),
                *final(self),
                sqlite::mark_statement(ids@.len()),
                Given::Numbers(ids@),
                r,
            ),
    {
        if ids.len() == 0 {
            return Ok(());
        }
        let sql = sqlite::mark_sql(ids.len());
        match sqlite::execute_on_ids(&mut self.conn, sql.as_str(), ids) {
            Ok(_) => Ok(()),
            Err(e) => Err(buffer_error(e)),
        }
    }

    /// Delete rows older than `retention_hours` (both sent and unsent), and tell
    /// how many there were.
    pub fn cleanup(&mut self, retention_hours: u64) -> (r: Result<u64, BufferError>)
        requires
            retention_hours <= MAX_RETENTION_HOURS,
        ensures
            exists|now: Moment|
                told_by_clock(now) && #[trigger] cleans_up(
                    *old(self),
                    *final(self),
                    now,
                    retention_hours,
                    r,
                ),
    {
        let now = utc_now();
        assert(told_by_clock(now));
        self.cleanup_at(now, retention_hours)
    }

    /// Delete rows older than `retention_hours` at the moment `now` (both sent
    /// and unsent), and tell how many there were.
    pub fn cleanup_at(&mut self, now: Moment, retention_hours: u64) -> (r: Result<u64, BufferError>)
        requires
            plain_moment(now),
            within_calendar(cutoff_second(now, retention_hours)),
        ensures
            cleans_up(*old(self), *final(self), now, retention_hours, r),
    {
        let hours = to_signed(retention_hours);
        let secs: i128 = (now.secs as i128) - (hours as i128) * 3600;
        let cutoff = match utc_rfc3339(Moment { secs: secs as i64, nanos: now.nanos }) {
            Some(text) => text,
            None => vstd::pervasive::unreached(),
        };
        let mut params: Vec<String> = Vec::new();
        params.push(cutoff);
        assert(texts(params@) =~= seq![expiry_cutoff(now, retention_hours)]);
        match sqlite::execute(&mut self.conn, sqlite::DELETE_OLD, &params) {
            Ok(deleted) => Ok(deleted as u64),
            Err(e) => Err(buffer_error(e)),
        }
    }

    /// Also cleanup already-sent rows older than 5 minutes to keep the DB lean.
    /// Sent data doesn't need to stick around.
    pub fn cleanup_sent(&mut self) -> (r: Result<u64, BufferError>)
        ensures
            exists|now: Moment|
                told_by_clock(now) && #[trigger] prunes(*old(self), *final(self), now, r),
    {
        let now = utc_now();
        assert(told_by_clock(now));
        self.cleanup_sent_at(now)
    }

    /// Delete the sent rows that are older than 5 minutes at the moment `now`,
    /// and tell how many there were.
    pub fn cleanup_sent_at(&mut self, now: Moment) -> (r: Result<u64, BufferError>)
        requires
            plain_moment(now),
            within_calendar(now.secs - SENT_RETENTION_SECS),
        ensures
            prunes(*old(self), *final(self), now, r),
    {
        let cutoff = match utc_rfc3339(
            Moment { secs: now.secs - SENT_RETENTION_SECS, nanos: now.nanos },
        ) {
            Some(text) => text,
            None => vstd::pervasive::unreached(),
        };
        let mut params: Vec<String> = Vec::new();
        params.push(cutoff);
        assert(texts(params@) =~= seq![sent_cutoff(now)]);
        match sqlite::execute(&mut self.conn, sqlite::DELETE_OLD_SENT, &params) {
            Ok(deleted) => Ok(deleted as u64),
            Err(e) => Err(buffer_error(e)),
        }
    }

    /// Whether this is what [`Self::unsent_count`] gives.
    pub open spec fn unsent_count_gives(self, after: Self, r: Result<usize, BufferError>) -> bool {
        &&& after.own_table() ==> (r matches Ok(count) ==> tells(
            count,
            unsent(after.rows()).len(),
        ) && after.rows() == after.found())
        &&& runs_one(self, after, sqlite::COUNT_UNSENT@, sqlite::nothing(), r)
    }

    /// Count of unsent rows (for diagnostics).
    pub fn unsent_count(&mut self) -> (r: Result<usize, BufferError>)
        ensures
            old(self).unsent_count_gives(*final(self), r),
            final(self).own_table() ==> (r matches Ok(count) ==> tells(
                count,
                unsent(final(self).rows()).len(),
            ) && final(self).rows() == final(self).found()),
            runs_one(*old(self), *final(self), sqlite::COUNT_UNSENT@, sqlite::nothing(), r),
    {
        match sqlite::query_count(&mut self.conn, sqlite::COUNT_UNSENT) {
            Ok(count) => Ok(count as usize),
            Err(e) => Err(buffer_error(e)),
        }
    }

    /// Whether this is what [`Self::total_count`] gives.
    pub open spec fn total_count_gives(self, after: Self, r: Result<usize, BufferError>) -> bool {
        &&& after.own_table() ==> (r matches Ok(count) ==> tells(
            count,
            after.rows().len(),
        ) && after.rows() == after.found())
        &&& runs_one(self, after, sqlite::COUNT_ALL@, sqlite::nothing(), r)
    }

    /// Total row count (for diagnostics).
    pub fn total_count(&mut self) -> (r: Result<usize, BufferError>)
        ensures
            old(self).total_count_gives(*final(self), r),
            final(self).own_table() ==> (r matches Ok(count) ==> tells(
                count,
                final(self).rows().len(),
            ) && final(self).rows() == final(self).found()),
            runs_one(*old(self), *final(self), sqlite::COUNT_ALL@, sqlite::nothing(), r),
    {
        match sqlite::query_count(&mut self.conn, sqlite::COUNT_ALL) {
            Ok(count) => Ok(count as usize),
            Err(e) => Err(buffer_error(e)),
        }
    }
}

/// Whether `count` is the number, where that fits in a `usize`.
pub open spec fn tells(count: usize, number: nat) -> bool {
    number <= usize::MAX ==> count == number
}

/// Whether the clock can tell this moment.
pub open spec fn told_by_clock(now: Moment) -> bool {
    plain_moment(now) && 0 <= now.secs <= crate::clock::LAST_SECOND
}

/// The moment before which a sample is too old for the retention.
pub open spec fn expiry_moment(now: Moment, retention_hours: u64) -> Moment {
    Moment { secs: cutoff_second(now, retention_hours) as i64, nanos: now.nanos }
}

/// The moment before which a sent sample is pruned.
pub open spec fn sent_moment(now: Moment) -> Moment {
    Moment { secs: (now.secs - SENT_RETENTION_SECS) as i64, nanos: now.nanos }
}

/// The moment before which a sample is too old for the retention, as text.
pub open spec fn expiry_cutoff(now: Moment, retention_hours: u64) -> Seq<char> {
    moment_text(expiry_moment(now, retention_hours))
}

/// The moment before which a sent sample is pruned, as text.
pub open spec fn sent_cutoff(now: Moment) -> Seq<char> {
    moment_text(sent_moment(now))
}

/// The moment as text.
pub open spec fn moment_text(m: Moment) -> Seq<char> {
    crate::clock::utc_text(m.secs, m.nanos)
}

/// Whether the rows past the retention at the moment `now` were deleted from the
/// agent's own table, or the statement that deletes them failed.
pub open spec fn cleans_up(
    before: MetricsBuffer,
    after: MetricsBuffer,
    now: Moment,
    retention_hours: u64,
    r: Result<u64, BufferError>,
) -> bool {
    &&& runs_one(
        before,
        after,
        sqlite::DELETE_OLD@,
        Given::Texts(seq![expiry_cutoff(now, retention_hours)]),
        r,
    )
    &&& ordered_as_time(expiry_cutoff(now, retention_hours), expiry_moment(now, retention_hours))
    &&& after.own_table() ==> (r matches Ok(deleted) ==> drops_expired(
        now,
        retention_hours,
        after.found(),
        after.rows(),
        deleted,
    ))
}

/// Whether the sent rows that are old at the moment `now` were deleted from the
/// agent's own table, or the statement that deletes them failed.
pub open spec fn prunes(
    before: MetricsBuffer,
    after: MetricsBuffer,
    now: Moment,
    r: Result<u64, BufferError>,
) -> bool {
    &&& runs_one(
        before,
        after,
        sqlite::DELETE_OLD_SENT@,
        Given::Texts(seq![sent_cutoff(now)]),
        r,
    )
    &&& ordered_as_time(sent_cutoff(now), sent_moment(now))
    &&& after.own_table() ==> (r matches Ok(deleted) ==> drops_sent(
        now,
        after.found(),
        after.rows(),
        deleted,
    ))
}

/// Whether what is left of the rows is those that are not older than the
/// retention at the moment `now`, and `deleted` tells how many went.
pub open spec fn drops_expired(
    now: Moment,
    retention_hours: u64,
    before: Seq<Row>,
    after: Seq<Row>,
    deleted: u64,
) -> bool {
    &&& after == not_older(before, expiry_cutoff(now, retention_hours))
    &&& before.len() <= usize::MAX ==> deleted == before.len() - after.len()
}

/// Whether what is left of the rows is those that are unsent or not older than
/// 5 minutes at the moment `now`, and `deleted` tells how many went.
pub open spec fn drops_sent(now: Moment, before: Seq<Row>, after: Seq<Row>, deleted: u64) -> bool {
    &&& after == not_older_or_not_sent(before, sent_cutoff(now))
    &&& before.len() <= usize::MAX ==> deleted == before.len() - after.len()
}

// ---------------------------------------------------------------------------
// Laws
// ---------------------------------------------------------------------------

/// Filtering from the end.
proof fn lemma_unsent_last(rows: Seq<Row>)
    requires
        rows.len() > 0,
    ensures
        unsent(rows) == if rows.last().sent == 0 {
            unsent(rows.drop_last()).push(rows.last())
        } else {
            unsent(rows.drop_last())
        },
{
    reveal(Seq::filter);
}

/// Whether nobody else wrote to the agent's own table while it was opened: the
/// first statement found these rows, and each of the others what the one before it
/// left.
pub open spec fn undisturbed(rows: Seq<Row>, stages: Seq<Stage>) -> bool {
    &&& forall|i: int| 0 <= i < stages.len() ==> (#[trigger] stages[i]).own
    &&& forall|i: int|
        0 <= i < stages.len() ==> (#[trigger] stages[i]).found == if i == 0 {
            rows
        } else {
            stages[i - 1].left
        }
}

/// Opening keeps every row and its mark: a buffer whose opening found the rows that
/// an earlier buffer left holds just these, so that its counts are those of the
/// earlier one. One whose opening found nothing holds nothing.
pub proof fn law_reopened_buffer_keeps_rows(
    rows: Seq<Row>,
    stages: Seq<Stage>,
    buffer: MetricsBuffer,
    total: usize,
    waiting: usize,
)
    requires
        opens(stages, buffer.stage()),
        undisturbed(rows, stages),
        tells(total, buffer.rows().len()),
        tells(waiting, unsent(buffer.rows()).len()),
    ensures
        buffer.rows() == rows,
        tells(total, rows.len()),
        tells(waiting, unsent(rows).len()),
        rows.len() == 0 ==> total == 0 && waiting == 0,
{
    assert(stages[0].left == rows);
    assert(stages[1].left == rows);
    assert(stages[2].left == rows);
    rows.lemma_filter_len(|r: Row| r.sent == 0);
}

/// A data point that was stored is the newest of the unsent rows, and every row
/// that was unsent before still is.
pub proof fn law_stored_point_is_unsent(
    before: Seq<Row>,
    after: Seq<Row>,
    timestamp: Seq<char>,
    json: Seq<char>,
)
    requires
        one_added(before, after, timestamp, json),
    ensures
        unsent(after) == unsent(before).push(after.last()),
        after.last().timestamp == timestamp,
        after.last().json == json,
{
    lemma_unsent_last(after);
}

/// A data point that was stored is given back as it was stored, last of the
/// unsent rows, by a read that has room for them all.
pub proof fn law_stored_point_is_read_back(
    before: Seq<Row>,
    after: Seq<Row>,
    timestamp: Seq<char>,
    json: Seq<char>,
    limit: usize,
    list: Seq<BufferedMetric<String>>,
)
    requires
        one_added(before, after, timestamp, json),
        are_rows(list, oldest_unsent(after, limit)),
        unsent(after).len() <= limit,
    ensures
        list.len() == unsent(before).len() + 1,
        list.last().timestamp@ == timestamp,
        list.last().metrics@ == json,
{
    law_stored_point_is_unsent(before, after, timestamp, json);
    assert(is_row(list[list.len() - 1], unsent(after)[list.len() - 1]));
}

/// Marking rows as sent drops none and changes nothing but the mark.
pub proof fn law_marking_keeps_rows(rows: Seq<Row>, ids: Seq<i64>)
    ensures
        marked(rows, ids).len() == rows.len(),
        forall|i: int|
            0 <= i < rows.len() ==> {
                let row = #[trigger] marked(rows, ids)[i];
                &&& row.id == rows[i].id
                &&& row.timestamp == rows[i].timestamp
                &&& row.json == rows[i].json
                &&& row.sent == if ids.contains(rows[i].id) {
                    1
                } else {
                    rows[i].sent
                }
            },
{
}

/// After marking, the unsent rows are those that were unsent and are not on the
/// list.
pub proof fn law_marking_removes_from_unsent(rows: Seq<Row>, ids: Seq<i64>)
    ensures
        unsent(marked(rows, ids)) == unsent(rows).filter(|r: Row| !ids.contains(r.id)),
    decreases rows.len(),
{
    let keep = |r: Row| !ids.contains(r.id);
    let after = marked(rows, ids);
    reveal(Seq::filter);
    if rows.len() > 0 {
        let rest = rows.drop_last();
        law_marking_removes_from_unsent(rest, ids);
        assert(after.drop_last() =~= marked(rest, ids));
        lemma_unsent_last(after);
        lemma_unsent_last(rows);
        if rows.last().sent == 0 {
            assert(unsent(rows).drop_last() =~= unsent(rest));
        }
    } else {
        assert(after =~= Seq::empty());
    }
}

/// Unsent rows stand by ascending ID where all rows do.
proof fn lemma_unsent_by_id(rows: Seq<Row>)
    requires
        sqlite::by_id(rows),
    ensures
        sqlite::by_id(unsent(rows)),
        forall|i: int|
            #![trigger unsent(rows)[i]]
            0 <= i < unsent(rows).len() ==> unsent(rows)[i].id <= rows.last().id,
    decreases rows.len(),
{
    reveal(Seq::filter);
    if rows.len() > 0 {
        let rest = rows.drop_last();
        lemma_unsent_by_id(rest);
        lemma_unsent_last(rows);
        assert forall|i: int| 0 <= i < unsent(rest).len() implies (#[trigger] unsent(rest)[i]).id
            < rows.last().id by {
            assert(rest.len() > 0) by {
                rest.lemma_filter_len(|r: Row| r.sent == 0);
            }
            assert(unsent(rest)[i].id <= rest.last().id);
            assert(rest.last() == rows[rows.len() - 2]);
            assert(rows[rows.len() - 2].id < rows[rows.len() - 1].id);
        }
    }
}

/// Fetching a batch and marking it as sent takes exactly the fetched rows off the
/// front of the unsent rows: none is skipped, none is taken unseen, and the
/// others stay in order.
pub proof fn law_sent_batch_leaves_the_rest(
    rows: Seq<Row>,
    limit: usize,
    batch: Seq<BufferedMetric<String>>,
)
    requires
        sqlite::by_id(rows),
        are_rows(batch, oldest_unsent(rows, limit)),
    ensures
        unsent(marked(rows, ids_of(batch))) == unsent(rows).skip(batch.len() as int),
{
    lemma_batch(rows, limit);
    let wanted = oldest_unsent(rows, limit);
    assert forall|i: int| 0 <= i < batch.len() implies ids_of(batch)[i] == (#[trigger] wanted[i]).id by {
        assert(is_row(batch[i], wanted[i]));
    }
    assert(ids_of(batch) =~= wanted.map_values(|r: Row| r.id));
}

proof fn lemma_filter_none<A>(s: Seq<A>, keep: spec_fn(A) -> bool)
    requires
        forall|i: int| 0 <= i < s.len() ==> !keep(#[trigger] s[i]),
    ensures
        s.filter(keep) == Seq::<A>::empty(),
    decreases s.len(),
{
    reveal(Seq::filter);
    if s.len() > 0 {
        assert(!keep(s[s.len() - 1]));
        assert forall|i: int| 0 <= i < s.drop_last().len() implies !keep(
            #[trigger] s.drop_last()[i],
        ) by {
            assert(s.drop_last()[i] == s[i]);
        }
        lemma_filter_none(s.drop_last(), keep);
    }
}

proof fn lemma_filter_all<A>(s: Seq<A>, keep: spec_fn(A) -> bool)
    requires
        forall|i: int| 0 <= i < s.len() ==> keep(#[trigger] s[i]),
    ensures
        s.filter(keep) == s,
    decreases s.len(),
{
    reveal(Seq::filter);
    if s.len() > 0 {
        assert(keep(s[s.len() - 1]));
        assert forall|i: int| 0 <= i < s.drop_last().len() implies keep(
            #[trigger] s.drop_last()[i],
        ) by {
            assert(s.drop_last()[i] == s[i]);
        }
        lemma_filter_all(s.drop_last(), keep);
        assert(s =~= s.drop_last().push(s.last()));
    } else {
        assert(s =~= Seq::empty());
    }
}

/// Pruning sent rows touches no unsent row.
pub proof fn law_pruning_keeps_unsent(rows: Seq<Row>, cutoff: Seq<char>)
    ensures
        unsent(not_older_or_not_sent(rows, cutoff)) == unsent(rows),
    decreases rows.len(),
{
    let keep = |r: Row| !(r.sent == 1 && text_before(r.timestamp, cutoff));
    reveal(Seq::filter);
    if rows.len() > 0 {
        let rest = rows.drop_last();
        law_pruning_keeps_unsent(rest, cutoff);
        let kept = not_older_or_not_sent(rows, cutoff);
        lemma_unsent_last(rows);
        if keep(rows.last()) {
            lemma_unsent_last(kept);
            assert(kept.drop_last() =~= not_older_or_not_sent(rest, cutoff));
        }
    }
}

/// Cleaning up by retention drops a row if and only if it is older than the
/// cutoff, sent or not.
pub proof fn law_cleanup_keeps_what_is_recent(rows: Seq<Row>, cutoff: Seq<char>, row: Row)
    ensures
        not_older(rows, cutoff).contains(row) <==> rows.contains(row)
            && !text_before(row.timestamp, cutoff),
{
    let keep = |r: Row| !text_before(r.timestamp, cutoff);
    if rows.contains(row) && keep(row) {
        let i = choose|i: int| 0 <= i < rows.len() && rows[i] == row;
        rows.lemma_filter_contains(keep, i);
    }
    if rows.filter(keep).contains(row) {
        rows.lemma_filter_contains_rev(keep, row);
        let i = choose|i: int| 0 <= i < rows.filter(keep).len() && rows.filter(keep)[i] == row;
        rows.lemma_filter_pred(keep, i);
    }
}

/// The moment that a text tells.
pub open spec fn moment_of(text: Seq<char>) -> Moment {
    choose|m: Moment| tells_moment(text, m)
}

/// Whether each row was sampled at a moment that its timestamp tells.
pub open spec fn all_timed(rows: Seq<Row>) -> bool {
    forall|i: int|
        0 <= i < rows.len() ==> exists|m: Moment|
            tells_moment((#[trigger] rows[i]).timestamp, m)
}

/// Two tests that agree on all elements keep the same ones.
proof fn lemma_same_filter<A>(s: Seq<A>, p: spec_fn(A) -> bool, q: spec_fn(A) -> bool)
    requires
        forall|i: int| 0 <= i < s.len() ==> p(#[trigger] s[i]) == q(s[i]),
    ensures
        s.filter(p) == s.filter(q),
    decreases s.len(),
{
    reveal(Seq::filter);
    if s.len() > 0 {
        let rest = s.drop_last();
        assert forall|i: int| 0 <= i < rest.len() implies p(#[trigger] rest[i]) == q(rest[i]) by {
            assert(rest[i] == s[i]);
        }
        lemma_same_filter(rest, p, q);
        assert(p(s[s.len() - 1]) == q(s[s.len() - 1]));
    }
}

/// A clean-up by retention that ended well leaves exactly the rows that were
/// sampled no longer ago than the retention, sent or not, in order and unchanged,
/// and tells how many it removed.
pub proof fn law_cleanup_goes_by_time(
    before: MetricsBuffer,
    after: MetricsBuffer,
    now: Moment,
    retention_hours: u64,
    r: Result<u64, BufferError>,
)
    requires
        cleans_up(before, after, now, retention_hours, r),
        r is Ok,
        after.own_table(),
        all_timed(after.found()),
        in_four_digit_year(cutoff_second(now, retention_hours)),
    ensures
        after.rows() == after.found().filter(
            |row: Row|
                !earlier(moment_of(row.timestamp), expiry_moment(now, retention_hours)),
        ),
        after.found().len() <= usize::MAX ==> r->Ok_0 == after.found().len() - after.rows().len(),
{
    let cutoff = expiry_moment(now, retention_hours);
    let text = expiry_cutoff(now, retention_hours);
    let rows = after.found();
    let p = |row: Row| !text_before(row.timestamp, text);
    let q = |row: Row| !earlier(moment_of(row.timestamp), cutoff);
    assert forall|i: int| 0 <= i < rows.len() implies p(#[trigger] rows[i]) == q(rows[i]) by {
        assert(tells_moment(rows[i].timestamp, moment_of(rows[i].timestamp)));
    }
    lemma_same_filter(rows, p, q);
}

/// A pruning that ended well removes exactly the rows that were sent and sampled
/// more than 5 minutes ago, keeps the others in order and unchanged, and tells how
/// many it removed. No unsent row goes, however old.
pub proof fn law_pruning_goes_by_time(
    before: MetricsBuffer,
    after: MetricsBuffer,
    now: Moment,
    r: Result<u64, BufferError>,
)
    requires
        prunes(before, after, now, r),
        r is Ok,
        after.own_table(),
        all_timed(after.found()),
        in_four_digit_year(now.secs - SENT_RETENTION_SECS),
    ensures
        after.rows() == after.found().filter(
            |row: Row|
                !(row.sent == 1 && earlier(moment_of(row.timestamp), sent_moment(now))),
        ),
        unsent(after.rows()) == unsent(after.found()),
        after.found().len() <= usize::MAX ==> r->Ok_0 == after.found().len() - after.rows().len(),
{
    let text = sent_cutoff(now);
    let rows = after.found();
    let p = |row: Row| !(row.sent == 1 && text_before(row.timestamp, text));
    let q = |row: Row| !(row.sent == 1 && earlier(moment_of(row.timestamp), sent_moment(now)));
    assert forall|i: int| 0 <= i < rows.len() implies p(#[trigger] rows[i]) == q(rows[i]) by {
        assert(tells_moment(rows[i].timestamp, moment_of(rows[i].timestamp)));
    }
    lemma_same_filter(rows, p, q);
    law_pruning_keeps_unsent(rows, text);
}

/// A read of the oldest unsent rows gives as many as there are, up to the limit,
/// none skipped, and their IDs grow: the oldest come first.
pub proof fn law_read_gives_the_oldest(
    rows: Seq<Row>,
    limit: usize,
    list: Seq<BufferedMetric<String>>,
)
    requires
        sqlite::by_id(rows),
        are_rows(list, oldest_unsent(rows, limit)),
        limit <= i64::MAX,
    ensures
        list.len() == if limit < unsent(rows).len() {
            limit as int
        } else {
            unsent(rows).len() as int
        },
        forall|i: int| 0 <= i < list.len() ==> is_row(#[trigger] list[i], unsent(rows)[i]),
        forall|i: int, j: int|
            0 <= i < j < list.len() ==> (#[trigger] list[i]).id < (#[trigger] list[j]).id,
{
    lemma_unsent_by_id(rows);
    assert forall|i: int| 0 <= i < list.len() implies is_row(
        #[trigger] list[i],
        unsent(rows)[i],
    ) by {
        assert(is_row(list[i], oldest_unsent(rows, limit)[i]));
    }
    assert forall|i: int, j: int| 0 <= i < j < list.len() implies (#[trigger] list[i]).id < (
    #[trigger] list[j]).id by {
        assert(is_row(list[i], unsent(rows)[i]) && is_row(list[j], unsent(rows)[j]));
        assert(unsent(rows)[i].id < unsent(rows)[j].id);
    }
}

/// Two reads that find the same rows give the same: a read changes none, so that
/// the second does where nobody writes in between.
pub proof fn law_second_read_gives_the_same(
    rows: Seq<Row>,
    limit: usize,
    first: Seq<BufferedMetric<String>>,
    second: Seq<BufferedMetric<String>>,
)
    requires
        are_rows(first, oldest_unsent(rows, limit)),
        are_rows(second, oldest_unsent(rows, limit)),
    ensures
        first.len() == second.len(),
        forall|i: int|
            0 <= i < first.len() ==> {
                &&& (#[trigger] first[i]).id == second[i].id
                &&& first[i].timestamp@ == second[i].timestamp@
                &&& first[i].metrics@ == second[i].metrics@
            },
{
    assert forall|i: int| 0 <= i < first.len() implies {
        &&& (#[trigger] first[i]).id == second[i].id
        &&& first[i].timestamp@ == second[i].timestamp@
        &&& first[i].metrics@ == second[i].metrics@
    } by {
        assert(is_row(first[i], oldest_unsent(rows, limit)[i]));
        assert(is_row(second[i], oldest_unsent(rows, limit)[i]));
    }
}

/// The rows after a batch of at most `limit` unsent rows was fetched and marked
/// as sent.
pub open spec fn after_batch(rows: Seq<Row>, limit: usize) -> Seq<Row> {
    marked(rows, oldest_unsent(rows, limit).map_values(|r: Row| r.id))
}

/// The rows after that many batches.
pub open spec fn after_batches(rows: Seq<Row>, limit: usize, count: nat) -> Seq<Row>
    decreases count,
{
    if count == 0 {
        rows
    } else {
        after_batch(after_batches(rows, limit, (count - 1) as nat), limit)
    }
}

/// A batch takes its rows off the front of the unsent rows.
proof fn lemma_batch(rows: Seq<Row>, limit: usize)
    requires
        sqlite::by_id(rows),
    ensures
        unsent(after_batch(rows, limit)) == unsent(rows).skip(
            oldest_unsent(rows, limit).len() as int,
        ),
        sqlite::by_id(after_batch(rows, limit)),
        after_batch(rows, limit).len() == rows.len(),
{
    let u = unsent(rows);
    let wanted = oldest_unsent(rows, limit);
    let ids = wanted.map_values(|r: Row| r.id);
    let k = wanted.len() as int;
    let keep = |r: Row| !ids.contains(r.id);
    lemma_unsent_by_id(rows);
    law_marking_removes_from_unsent(rows, ids);
    let front = u.take(k);
    let back = u.skip(k);
    assert(u =~= front + back);
    Seq::filter_distributes_over_add(front, back, keep);
    assert forall|i: int| 0 <= i < front.len() implies !keep(#[trigger] front[i]) by {
        assert(ids[i] == front[i].id);
    }
    assert forall|i: int| 0 <= i < back.len() implies keep(#[trigger] back[i]) by {
        assert(back[i] == u[k + i]);
        assert forall|j: int| 0 <= j < ids.len() implies #[trigger] ids[j] != back[i].id by {
            assert(ids[j] == u[j].id);
            assert(u[j].id < u[k + i].id);
        }
    }
    lemma_filter_none(front, keep);
    lemma_filter_all(back, keep);
    assert(front.filter(keep) + back.filter(keep) =~= back);
    assert forall|i: int, j: int| 0 <= i < j < rows.len() implies (#[trigger] after_batch(
        rows,
        limit,
    )[i]).id < (#[trigger] after_batch(rows, limit)[j]).id by {
        assert(rows[i].id < rows[j].id);
    }
}

/// A backfill sends all unsent rows: with batches of at least one row, as many
/// batches as there are unsent rows leave none unsent, and no row is dropped.
pub proof fn law_backfill_drains_everything(rows: Seq<Row>, limit: usize)
    requires
        sqlite::by_id(rows),
        limit >= 1,
    ensures
        unsent(after_batches(rows, limit, unsent(rows).len())).len() == 0,
        after_batches(rows, limit, unsent(rows).len()).len() == rows.len(),
{
    lemma_batches(rows, limit, unsent(rows).len());
}

proof fn lemma_batches(rows: Seq<Row>, limit: usize, count: nat)
    requires
        sqlite::by_id(rows),
        limit >= 1,
    ensures
        sqlite::by_id(after_batches(rows, limit, count)),
        after_batches(rows, limit, count).len() == rows.len(),
        ({
            let left = unsent(after_batches(rows, limit, count)).len();
            left == 0 || left + count <= unsent(rows).len()
        }),
    decreases count,
{
    if count > 0 {
        lemma_batches(rows, limit, (count - 1) as nat);
        lemma_batch(after_batches(rows, limit, (count - 1) as nat), limit);
    }
}

} // verus!
