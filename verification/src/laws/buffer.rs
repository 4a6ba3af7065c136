//! Laws of the metrics buffer and of what is sent from it.

use crate::clock::{utc_text, Moment};
use crate::connection::{
    law_every_tick_stores_one_row, make_batch_gives, sampled, samples, AfterSend, Batch, PushStep,
    Pusher,
};
use crate::metrics::MetricsPayload;
use crate::metrics_buffer::{
    are_rows, cleans_up, ids_of, is_row, oldest_unsent, prunes, readable, runs_one, set_up_calls,
    tells, BufferError, BufferedMetric, MetricsBuffer,
};
use crate::sqlite::{
    by_id, limited, marked, not_older, not_older_or_not_sent, one_added, placeholders, unsent,
    Given, Row,
};
use crate::order::text_before;
use vstd::prelude::*;

verus! {

/// A batch holds one data point for each row, in their order, and each has the sample
/// of its own row and the time at which that row was taken. The IDs are those of the
/// rows. Nothing is sent of no rows.
pub proof fn law_batch_tells_each_row<F>(
    rows: Vec<BufferedMetric<MetricsPayload<F>>>,
    is_backfill: bool,
    r: Option<Batch<F>>,
)
    requires
        make_batch_gives(rows, is_backfill, r),
    ensures
        r is None <==> rows@.len() == 0,
        r matches Some(batch) ==> {
            &&& batch.note.jsonrpc@ == "2.0"@
            &&& batch.note.id is None
            &&& batch.note.method@ == "metrics.batch_push"@
            &&& batch.note.params.server_id@.len() == 0
            &&& batch.note.params.is_backfill == is_backfill
            &&& batch.note.params.data_points@.len() == rows@.len()
            &&& batch.ids@ == ids_of(rows@)
            &&& forall|i: int|
                0 <= i < rows@.len() ==> (#[trigger] batch.note.params.data_points@[i]).metrics
                    == rows@[i].metrics
            &&& forall|i: int|
                0 <= i < rows@.len() ==> (#[trigger] batch.note.params.data_points@[i]).timestamp@
                    == rows@[i].timestamp@
        },
{
    if r is Some {
        let batch = r->0;
        assert(batch.ids@ =~= ids_of(rows@));
    }
}

/// Samples that were taken at different times are sent with different times.
pub proof fn law_batch_keeps_times_apart<F>(
    rows: Vec<BufferedMetric<MetricsPayload<F>>>,
    is_backfill: bool,
    batch: Batch<F>,
    i: int,
    j: int,
)
    requires
        make_batch_gives(rows, is_backfill, Some(batch)),
        0 <= i < rows@.len(),
        0 <= j < rows@.len(),
        rows@[i].timestamp@ != rows@[j].timestamp@,
    ensures
        batch.note.params.data_points@[i].timestamp@ != batch.note.params.data_points@[j].timestamp@,
{
    law_batch_tells_each_row(rows, is_backfill, Some(batch));
}

/// A row whose sample can be read is kept with its ID and its time, in its place; one
/// whose sample cannot be read is left out.
pub proof fn law_readable_rows_are_kept<M>(
    rows: Seq<BufferedMetric<Option<M>>>,
    row: BufferedMetric<Option<M>>,
)
    ensures
        readable(Seq::<BufferedMetric<Option<M>>>::empty()) == Seq::<BufferedMetric<M>>::empty(),
        row.metrics is None ==> readable(rows.push(row)) == readable(rows),
        row.metrics matches Some(sample) ==> {
            &&& readable(rows.push(row)).len() == readable(rows).len() + 1
            &&& readable(rows.push(row)).drop_last() == readable(rows)
            &&& readable(rows.push(row)).last().id == row.id
            &&& readable(rows.push(row)).last().timestamp == row.timestamp
            &&& readable(rows.push(row)).last().metrics == sample
        },
{
    assert(rows.push(row).drop_last() =~= rows);
    if row.metrics is Some {
        assert(readable(rows.push(row)).drop_last() =~= readable(rows));
    }
}

proof fn lemma_all_readable<M>(rows: Seq<BufferedMetric<Option<M>>>)
    requires
        forall|i: int| 0 <= i < rows.len() ==> (#[trigger] rows[i]).metrics is Some,
    ensures
        readable(rows).len() == rows.len(),
        forall|i: int|
            0 <= i < rows.len() ==> (#[trigger] readable(rows)[i]).id == rows[i].id && readable(
                rows,
            )[i].timestamp == rows[i].timestamp && Some(readable(rows)[i].metrics)
                == rows[i].metrics,
    decreases rows.len(),
{
    if rows.len() > 0 {
        let before = rows.drop_last();
        assert forall|i: int| 0 <= i < before.len() implies (#[trigger] before[i]).metrics is Some by {
            assert(before[i] == rows[i]);
        }
        lemma_all_readable(before);
        law_readable_rows_are_kept(before, rows.last());
        assert(before.push(rows.last()) =~= rows);
        assert(rows[rows.len() - 1].metrics is Some);
        assert forall|i: int| 0 <= i < rows.len() implies (#[trigger] readable(rows)[i]).id
            == rows[i].id && readable(rows)[i].timestamp == rows[i].timestamp && Some(
            readable(rows)[i].metrics,
        ) == rows[i].metrics by {
            if i < before.len() {
                assert(readable(rows)[i] == readable(rows).drop_last()[i]);
                assert(readable(before)[i].id == before[i].id);
            }
        }
    }
}

proof fn lemma_all_unsent(rows: Seq<Row>)
    requires
        forall|i: int| 0 <= i < rows.len() ==> (#[trigger] rows[i]).sent == 0,
    ensures
        unsent(rows) == rows,
    decreases rows.len(),
{
    reveal(Seq::filter);
    if rows.len() > 0 {
        let before = rows.drop_last();
        assert forall|i: int| 0 <= i < before.len() implies (#[trigger] before[i]).sent == 0 by {
            assert(before[i] == rows[i]);
        }
        lemma_all_unsent(before);
        assert(rows[rows.len() - 1].sent == 0);
        assert(before.push(rows.last()) =~= rows);
    }
}

/// From the sample to the wire: samples that are stored one after the other, read
/// from the buffer and put into a batch arrive in the order in which they were taken,
/// each with its own sample and the very moment at which it was taken.
pub proof fn law_samples_arrive_with_their_own_times<F>(
    tables: Seq<Seq<Row>>,
    moments: Seq<Moment>,
    jsons: Seq<Seq<char>>,
    limit: usize,
    list: Seq<BufferedMetric<String>>,
    parsed: Seq<BufferedMetric<Option<MetricsPayload<F>>>>,
    rows: Vec<BufferedMetric<MetricsPayload<F>>>,
    is_backfill: bool,
    batch: Batch<F>,
    i: int,
)
    requires
        tables.len() == moments.len() + 1,
        jsons.len() == moments.len(),
        tables[0].len() == 0,
        forall|k: int|
            0 <= k < moments.len() ==> sampled(
                tables[k],
                tables[k + 1],
                #[trigger] moments[k],
                jsons[k],
            ),
        moments.len() <= limit,
        are_rows(list, oldest_unsent(tables.last(), limit)),
        parsed.len() == list.len(),
        forall|k: int|
            0 <= k < list.len() ==> (#[trigger] parsed[k]).id == list[k].id && parsed[k].timestamp@
                == list[k].timestamp@ && parsed[k].metrics is Some,
        rows@ == readable(parsed),
        make_batch_gives(rows, is_backfill, Some(batch)),
        0 <= i < moments.len(),
    ensures
        batch.note.params.data_points@.len() == moments.len(),
        batch.note.params.data_points@[i].timestamp@ == utc_text(moments[i].secs, moments[i].nanos),
        Some(batch.note.params.data_points@[i].metrics) == parsed[i].metrics,
        list[i].metrics@ == jsons[i],
        batch.ids@[i] == list[i].id,
{
    let n = moments.len() as int;
    law_every_tick_stores_one_row(tables, moments, jsons, n);
    let table = tables[n];
    assert(tables.last() == table);
    assert forall|k: int| 0 <= k < table.len() implies (#[trigger] table[k]).sent == 0 by {
        assert(tables[n][tables[0].len() + k].sent == 0) by {
            assert(sampled(tables[k], tables[k + 1], moments[k], jsons[k]));
        }
    }
    lemma_all_unsent(table);
    assert(oldest_unsent(table, limit) == table);
    assert(is_row(list[i], table[i]));
    assert(sampled(tables[i], tables[i + 1], moments[i], jsons[i]));
    assert(table[tables[0].len() + i] == table[i]);
    lemma_all_readable(parsed);
    assert(readable(parsed)[i].timestamp == parsed[i].timestamp);
    law_batch_tells_each_row(rows, is_backfill, Some(batch));
    assert(batch.note.params.data_points@[i].timestamp@ == rows@[i].timestamp@);
    assert(batch.ids@[i] == rows@[i].id);
}

/// A row that is read has the ID, the time and the sample of the row in the table, in
/// the same place.
pub proof fn law_rows_are_read_as_they_stand(
    list: Seq<BufferedMetric<String>>,
    rows: Seq<Row>,
    i: int,
)
    requires
        are_rows(list, rows),
        0 <= i < list.len(),
    ensures
        list.len() == rows.len(),
        list[i].id == rows[i].id,
        list[i].timestamp@ == rows[i].timestamp,
        list[i].metrics@ == rows[i].json,
        ids_of(list)[i] == rows[i].id,
        ids_of(list).len() == list.len(),
{
    assert(is_row(list[i], rows[i]));
}

/// A sample is stored behind all rows, unsent, with its time and its text.
pub proof fn law_sample_is_stored(
    before: Seq<Row>,
    after: Seq<Row>,
    timestamp: Seq<char>,
    json: Seq<char>,
    now: Moment,
)
    ensures
        one_added(before, after, timestamp, json) ==> {
            &&& after == before.push(after.last())
            &&& after.last().timestamp == timestamp
            &&& after.last().json == json
            &&& after.last().sent == 0
        },
        sampled(before, after, now, json) ==> after.last().timestamp == utc_text(
            now.secs,
            now.nanos,
        ) && after.last().json == json && after.last().sent == 0 && after == before.push(
            after.last(),
        ),
{
    if one_added(before, after, timestamp, json) {
        assert(after =~= after.drop_last().push(after.last()));
    }
    if sampled(before, after, now, json) {
        assert(after =~= after.drop_last().push(after.last()));
    }
}

/// What is unsent, not too old, or not both sent and too old, goes row by row.
pub proof fn law_rows_are_chosen_one_by_one(rows: Seq<Row>, row: Row, cutoff: Seq<char>)
    ensures
        unsent(Seq::empty()) == Seq::<Row>::empty(),
        row.sent == 0 ==> unsent(rows.push(row)) == unsent(rows).push(row),
        row.sent != 0 ==> unsent(rows.push(row)) == unsent(rows),
        not_older(Seq::empty(), cutoff) == Seq::<Row>::empty(),
        text_before(row.timestamp, cutoff) ==> not_older(rows.push(row), cutoff) == not_older(
            rows,
            cutoff,
        ),
        !text_before(row.timestamp, cutoff) ==> not_older(rows.push(row), cutoff) == not_older(
            rows,
            cutoff,
        ).push(row),
        not_older_or_not_sent(Seq::empty(), cutoff) == Seq::<Row>::empty(),
        row.sent == 1 && text_before(row.timestamp, cutoff) ==> not_older_or_not_sent(
            rows.push(row),
            cutoff,
        ) == not_older_or_not_sent(rows, cutoff),
        row.sent != 1 || !text_before(row.timestamp, cutoff) ==> not_older_or_not_sent(
            rows.push(row),
            cutoff,
        ) == not_older_or_not_sent(rows, cutoff).push(row),
{
    reveal(Seq::filter);
    let all = rows.push(row);
    assert(all.drop_last() =~= rows);
    assert(all.last() == row);
    let f = |r: Row| r.sent == 0;
    assert(unsent(all) == all.filter(f) && unsent(rows) == rows.filter(f));
    let g = |r: Row| !text_before(r.timestamp, cutoff);
    assert(not_older(all, cutoff) == all.filter(g) && not_older(rows, cutoff) == rows.filter(g));
    let h = |r: Row| !(r.sent == 1 && text_before(r.timestamp, cutoff));
    assert(not_older_or_not_sent(all, cutoff) == all.filter(h) && not_older_or_not_sent(
        rows,
        cutoff,
    ) == rows.filter(h));
}

/// A read gives at most as many rows as it has room for: the first of the unsent
/// ones, or all of them where there is room.
pub proof fn law_read_is_limited(rows: Seq<Row>, limit: usize, i: int)
    requires
        limit <= i64::MAX,
    ensures
        oldest_unsent(rows, limit).len() == if unsent(rows).len() < limit {
            unsent(rows).len() as int
        } else {
            limit as int
        },
        0 <= i < oldest_unsent(rows, limit).len() ==> oldest_unsent(rows, limit)[i] == unsent(
            rows,
        )[i],
        forall|n: i64| n < 0 ==> #[trigger] limited(rows, n) == rows,
{
}

/// A statement is run on the buffer's own database, after those that were run before,
/// with what is given to it, and its failure is told.
pub proof fn law_statement_is_run<T>(
    before: MetricsBuffer,
    after: MetricsBuffer,
    sql: Seq<char>,
    given: Given,
    r: Result<T, BufferError>,
)
    requires
        runs_one(before, after, sql, given, r),
    ensures
        after.path() == before.path(),
        after.calls().len() == before.calls().len() + 1,
        after.calls().drop_last() == before.calls(),
        after.calls().last().sql == sql,
        after.calls().last().given == given,
        r is Ok ==> after.calls().last().failure is None,
        r matches Err(e) ==> after.calls().last().failure == Some(e.0@),
{
    assert(after.calls().drop_last() =~= before.calls());
}

/// Storing a sample hands its time and its text to the database, in that order.
pub proof fn law_store_hands_over_the_sample(
    before: MetricsBuffer,
    after: MetricsBuffer,
    timestamp: &str,
    json: &str,
    r: Result<(), BufferError>,
)
    requires
        before.store_gives(after, timestamp, json, r),
    ensures
        after.calls().last().sql
            == "INSERT INTO metrics (timestamp, metrics_json, sent) VALUES (?1, ?2, 0)"@,
        after.calls().last().given == Given::Texts(seq![timestamp@, json@]),
        after.own_table() && r is Ok ==> one_added(
            after.found(),
            after.rows(),
            timestamp@,
            json@,
        ),
        runs_one(before, after, after.calls().last().sql, after.calls().last().given, r),
        after.own_table() && r is Ok ==> by_id(after.rows()),
{
}

/// A tick stores its sample with its own time.
pub proof fn law_tick_hands_over_the_sample(
    before: MetricsBuffer,
    after: MetricsBuffer,
    now: Moment,
    json: Seq<char>,
    stored: Result<(), BufferError>,
)
    requires
        samples(before, after, now, json, stored),
    ensures
        after.calls().last().sql
            == "INSERT INTO metrics (timestamp, metrics_json, sent) VALUES (?1, ?2, 0)"@,
        after.calls().last().given == Given::Texts(seq![utc_text(now.secs, now.nanos), json]),
        after.own_table() && stored is Ok ==> after.rows() == after.found().push(
            after.rows().last(),
        ) && after.rows().last().timestamp == utc_text(now.secs, now.nanos)
            && after.rows().last().json == json && after.rows().last().sent == 0,
        runs_one(before, after, after.calls().last().sql, after.calls().last().given, stored),
{
    if after.own_table() && stored is Ok {
        law_sample_is_stored(after.found(), after.rows(), Seq::empty(), json, now);
    }
}

/// Reading the buffer asks for the unsent rows, oldest first, and for no more than
/// there is room for. It gives them and leaves the table as it is.
pub proof fn law_read_asks_for_unsent_rows(
    before: MetricsBuffer,
    after: MetricsBuffer,
    limit: usize,
    r: Result<Vec<BufferedMetric<String>>, BufferError>,
)
    requires
        before.get_unsent_gives(after, limit, r),
        limit <= i64::MAX,
    ensures
        after.calls().last().sql
            == "SELECT id, timestamp, metrics_json FROM metrics WHERE sent = 0 ORDER BY id ASC LIMIT ?1"@,
        after.calls().last().given == Given::Numbers(seq![limit as i64]),
        after.own_table() && r is Ok ==> after.rows() == after.found() && are_rows(
            r->Ok_0@,
            oldest_unsent(after.rows(), limit),
        ) && by_id(after.rows()),
        runs_one(before, after, after.calls().last().sql, after.calls().last().given, r),
{
}

/// Marking hands the IDs to the database, with one place for each. Without IDs nothing
/// is done.
pub proof fn law_marking_hands_over_the_ids(
    before: MetricsBuffer,
    after: MetricsBuffer,
    ids: Vec<i64>,
    r: Result<(), BufferError>,
)
    requires
        before.mark_sent_gives(after, ids, r),
    ensures
        ids@.len() == 0 ==> r is Ok && after == before,
        ids@.len() > 0 ==> after.calls().last().given == Given::Numbers(ids@)
            && after.calls().last().sql == "UPDATE metrics SET sent = 1 WHERE id IN ("@
            + placeholders(ids@.len()) + ")"@,
        ids@.len() > 0 && after.own_table() && r is Ok ==> after.rows() == marked(
            after.found(),
            ids@,
        ),
        ids@.len() > 0 ==> runs_one(
            before,
            after,
            after.calls().last().sql,
            after.calls().last().given,
            r,
        ),
{
}

/// There is one place for each ID, with commas between them.
pub proof fn law_places_for_ids(n: nat)
    ensures
        placeholders(0) == Seq::<char>::empty(),
        placeholders(n).len() == if n == 0 {
            0int
        } else {
            2 * n - 1
        },
        forall|i: int|
            0 <= i < placeholders(n).len() ==> #[trigger] placeholders(n)[i] == if i % 2 == 0 {
                '?'
            } else {
                ','
            },
    decreases n,
{
    reveal_strlit("?");
    reveal_strlit(",?");
    if n > 1 {
        law_places_for_ids((n - 1) as nat);
    }
}

/// Counting gives the number of rows, of the unsent ones or of all.
pub proof fn law_rows_are_counted(
    before: MetricsBuffer,
    after: MetricsBuffer,
    count: usize,
    number: nat,
)
    ensures
        tells(count, number) && number <= usize::MAX ==> count == number,
        before.unsent_count_gives(after, Ok(count)) && after.own_table() && unsent(
            after.rows(),
        ).len() <= usize::MAX ==> count == unsent(after.rows()).len(),
        before.total_count_gives(after, Ok(count)) && after.own_table() && after.rows().len()
            <= usize::MAX ==> count == after.rows().len(),
        before.unsent_count_gives(after, Ok(count)) ==> after.calls().last().sql
            == "SELECT COUNT(*) FROM metrics WHERE sent = 0"@,
        before.total_count_gives(after, Ok(count)) ==> after.calls().last().sql
            == "SELECT COUNT(*) FROM metrics"@,
        after.own_table() && (before.unsent_count_gives(after, Ok(count))
            || before.total_count_gives(after, Ok(count))) ==> after.rows() == after.found(),
        before.unsent_count_gives(after, Ok(count)) || before.total_count_gives(after, Ok(count))
            ==> runs_one(
            before,
            after,
            after.calls().last().sql,
            after.calls().last().given,
            Ok::<usize, BufferError>(count),
        ),
{
}

/// A cleanup deletes what is older than so many hours, whether it was sent or not; a
/// pruning deletes what was sent and is older than five minutes. Each tells how many
/// rows went.
pub proof fn law_cleanups_go_back_from_now(
    before: MetricsBuffer,
    after: MetricsBuffer,
    now: Moment,
    hours: u64,
    r: Result<u64, BufferError>,
)
    requires
        hours <= 2_315_167_008,
        now.secs - hours * 3600 >= i64::MIN,
        now.secs - 300 >= i64::MIN,
    ensures
        cleans_up(before, after, now, hours, r) ==> {
            &&& runs_one(before, after, after.calls().last().sql, after.calls().last().given, r)
            &&& after.calls().last().sql == "DELETE FROM metrics WHERE timestamp < ?1"@
            &&& after.calls().last().given == Given::Texts(
                seq![utc_text((now.secs - hours * 3600) as i64, now.nanos)],
            )
            &&& after.own_table() && r is Ok ==> after.rows() == not_older(
                after.found(),
                utc_text((now.secs - hours * 3600) as i64, now.nanos),
            )
            &&& after.own_table() && r is Ok && after.found().len() <= usize::MAX ==> r->Ok_0
                == after.found().len() - after.rows().len()
        },
        prunes(before, after, now, r) ==> {
            &&& runs_one(before, after, after.calls().last().sql, after.calls().last().given, r)
            &&& after.calls().last().sql
                == "DELETE FROM metrics WHERE sent = 1 AND timestamp < ?1"@
            &&& after.calls().last().given == Given::Texts(
                seq![utc_text((now.secs - 300) as i64, now.nanos)],
            )
            &&& after.own_table() && r is Ok ==> after.rows() == not_older_or_not_sent(
                after.found(),
                utc_text((now.secs - 300) as i64, now.nanos),
            )
            &&& after.own_table() && r is Ok && after.found().len() <= usize::MAX ==> r->Ok_0
                == after.found().len() - after.rows().len()
        },
{
}

/// A buffer is set up by its settings, its table and its index, in that order.
pub proof fn law_buffer_is_set_up_in_order()
    ensures
        set_up_calls(3, None).len() == 3,
        set_up_calls(3, None)[0].sql == crate::sqlite::PRAGMAS@,
        set_up_calls(3, None)[1].sql == crate::sqlite::CREATE_TABLE@,
        set_up_calls(3, None)[2].sql == crate::sqlite::CREATE_INDEX@,
        forall|i: int| 0 <= i < 3 ==> (#[trigger] set_up_calls(3, None)[i]).failure is None,
        crate::metrics_buffer::set_up_statements().len() == 3,
{
}

/// Sending goes in chunks while the backlog lasts and in pushes after that: how many
/// rows are read, and what is done with them.
pub proof fn law_rows_are_sent<F>(
    before: Pusher,
    after: Pusher,
    limit: usize,
    rows: Result<Vec<BufferedMetric<MetricsPayload<F>>>, String>,
    step: PushStep<F>,
)
    requires
        before.row_limit_gives(limit),
        before.on_rows_gives(after, rows, step),
    ensures
        before.in_backfill() ==> limit == before.chunk_size(),
        !before.in_backfill() ==> limit == before.push_size(),
        after.chunk_size() == before.chunk_size(),
        after.push_size() == before.push_size(),
        rows is Ok && rows->Ok_0@.len() > 0 <==> step is Send,
        step matches PushStep::Send(batch) ==> {
            &&& after.in_backfill() == before.in_backfill()
            &&& batch.note.method@ == "metrics.batch_push"@
            &&& batch.note.jsonrpc@ == "2.0"@
            &&& batch.note.id is None
            &&& batch.note.params.server_id@.len() == 0
            &&& batch.note.params.is_backfill == before.in_backfill()
            &&& batch.ids@ == ids_of(rows->Ok_0@)
            &&& batch.note.params.data_points@.len() == rows->Ok_0@.len()
            &&& forall|i: int|
                0 <= i < rows->Ok_0@.len() ==> (
                #[trigger] batch.note.params.data_points@[i]).timestamp@
                    == rows->Ok_0@[i].timestamp@ && batch.note.params.data_points@[i].metrics
                    == rows->Ok_0@[i].metrics
        },
        !(step is Send) ==> !after.in_backfill(),
        step is Finished <==> before.in_backfill() && !(step is Send),
        step is Wait <==> !before.in_backfill() && !(step is Send),
{
    if step is Send {
        assert(step->Send_0.ids@ =~= ids_of(rows->Ok_0@));
    }
}

/// What was sent is marked, and nothing else is; a failed send ends the backlog or the
/// pushes.
pub proof fn law_sent_rows_are_marked(
    before: Pusher,
    after: Pusher,
    ids: Vec<i64>,
    sent: bool,
    r: AfterSend,
)
    requires
        before.on_sent_gives(after, ids, sent, r),
    ensures
        sent ==> r == (AfterSend::Mark { ids, pause: before.in_backfill() }) && after.in_backfill()
            == before.in_backfill(),
        !sent ==> !after.in_backfill(),
        r is Finished <==> !sent && before.in_backfill(),
        r is Stop <==> !sent && !before.in_backfill(),
        after.chunk_size() == before.chunk_size(),
        after.push_size() == before.push_size(),
{
}

/// A new sender begins with the backlog. It reads it in chunks of the configured size,
/// and later one row for each second between two pushes, but not fewer than five.
pub proof fn law_sending_begins_with_the_backlog(chunk: u64, interval: u64, pusher: Pusher)
    requires
        Pusher::begins_as(chunk, interval, pusher),
        chunk <= usize::MAX,
        interval <= usize::MAX,
    ensures
        pusher.in_backfill(),
        pusher.chunk_size() == chunk,
        interval <= 5 ==> pusher.push_size() == 5,
        interval > 5 ==> pusher.push_size() == interval,
{
}

} // verus!
