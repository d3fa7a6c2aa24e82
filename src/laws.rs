use vstd::prelude::*;
use crate::progress::{after_report, finished, observed, percent_of, throttled};
use crate::session::{
    chunk_step, complete_step, Command, Outcome, emitted_after, fail_step, initial, known_total, next,
    progress_step, Event, FailureKind,
    Phase, SessionView, SinkKind,
};
use crate::watchdog::stale;

verus! {

/// The state reached by applying `events` in order, starting from `s`.
pub open spec fn run(s: SessionView, events: Seq<Event>) -> SessionView
    decreases events.len(),
{
    if events.len() == 0 {
        s
    } else {
        next(run(s, events.drop_last()), events.last()).0
    }
}

pub open spec fn strictly_increasing(xs: Seq<u64>) -> bool {
    forall|i: int, j: int| 0 <= i < j < xs.len() ==> xs[i] < xs[j]
}

/// The chunk events for `(units, arrival time)` pairs, in order.
pub open spec fn chunk_events(chunks: Seq<(u64, u64)>) -> Seq<Event> {
    chunks.map_values(|c: (u64, u64)| Event::Chunk { units: c.0, now: c.1 })
}

/// Time of the last activity once all `chunks` have arrived.
pub open spec fn last_arrival(opened_at: u64, chunks: Seq<(u64, u64)>) -> u64 {
    if chunks.len() == 0 {
        opened_at
    } else {
        chunks.last().1
    }
}

/// Every chunk arrives within the threshold of the activity before it.
pub open spec fn on_time(threshold: u64, opened_at: u64, chunks: Seq<(u64, u64)>) -> bool {
    forall|i: int|
        0 <= i < chunks.len() ==> !stale(
            #[trigger] last_arrival(opened_at, chunks.take(i)),
            threshold,
            chunks[i].1,
        )
}

pub open spec fn total_units(chunks: Seq<(u64, u64)>) -> nat
    decreases chunks.len(),
{
    if chunks.len() == 0 {
        0
    } else {
        total_units(chunks.drop_last()) + chunks.last().0 as nat
    }
}

/// Start, open with `total` at `opened_at`, then receive `chunks`.
pub open spec fn streaming_events(
    total: Option<u64>,
    opened_at: u64,
    chunks: Seq<(u64, u64)>,
) -> Seq<Event> {
    seq![Event::Start { already_complete: false }, Event::Opened { total, now: opened_at }]
        + chunk_events(chunks)
}

/// What holds of every state that a session can reach.
pub open spec fn reachable_inv(s: SessionView) -> bool {
    &&& strictly_increasing(s.emitted)
    &&& forall|i: int| 0 <= i < s.emitted.len() ==> 0 < #[trigger] s.emitted[i] <= 100
    &&& s.emitted.len() == 0 ==> s.last_percent == 0
    &&& s.emitted.len() > 0 ==> s.emitted.last() == s.last_percent
    &&& !known_total(s.total) ==> s.emitted.len() == 0
    &&& (s.phase is Idle || s.phase is Opening) ==> s.total is None
    &&& (s.phase is Completed && known_total(s.total)) ==> s.emitted.len() > 0
        && s.emitted.last() == 100
    &&& s.phase is Failed ==> !s.dest_present
}

proof fn lemma_report_keeps_inv(s: SessionView, r: Option<u64>)
    requires
        reachable_inv(s),
        known_total(s.total) || r is None,
        r matches Some(p) ==> s.last_percent < p <= 100,
    ensures
        strictly_increasing(emitted_after(s.emitted, r)),
        forall|i: int|
            0 <= i < emitted_after(s.emitted, r).len() ==> 0 < #[trigger] emitted_after(
                s.emitted,
                r,
            )[i] <= 100,
        emitted_after(s.emitted, r).len() == 0 ==> after_report(s.last_percent, r) == 0,
        emitted_after(s.emitted, r).len() > 0 ==> emitted_after(s.emitted, r).last()
            == after_report(s.last_percent, r),
        !known_total(s.total) ==> emitted_after(s.emitted, r).len() == 0,
{
    if let Some(p) = r {
        let e = s.emitted.push(p);
        assert forall|i: int, j: int| 0 <= i < j < e.len() implies e[i] < e[j] by {
            if j == e.len() - 1 {
                if s.emitted.len() > 0 {
                    assert(s.emitted[i] <= s.emitted.last());
                }
            }
        }
    }
}

proof fn lemma_next_keeps_inv(s: SessionView, e: Event)
    requires
        reachable_inv(s),
    ensures
        reachable_inv(next(s, e).0),
{
    match s.phase {
        Phase::Streaming => {
            if let Event::Chunk { units, now } = e {
                if !stale(s.last_activity, s.threshold, now) {
                    let transferred = chunk_step(s, units, now).0.transferred;
                    let r = observed(s.last_percent, transferred, s.total);
                    if let Some(t) = s.total {
                        if t > 0 {
                            assert(percent_of(transferred as nat, t as nat) <= 100);
                        }
                    }
                    lemma_report_keeps_inv(s, r);
                }
            }
            if let Event::Progress { completed, total, now } = e {
                if !stale(s.last_activity, s.threshold, now) {
                    let s2 = progress_step(s, completed, total, now).0;
                    let r = observed(s.last_percent, s2.transferred, s2.total);
                    if let Some(t) = s2.total {
                        if t > 0 {
                            assert(percent_of(s2.transferred as nat, t as nat) <= 100);
                        }
                    }
                    let mid = SessionView { total: s2.total, ..s };
                    lemma_report_keeps_inv(mid, r);
                }
            }
        },
        Phase::Finalizing => {
            if let Event::Flushed = e {
                let r = finished(s.last_percent, s.total);
                if s.emitted.len() > 0 {
                    assert(s.emitted[s.emitted.len() - 1] <= 100);
                }
                lemma_report_keeps_inv(s, r);
            }
        },
        _ => {},
    }
}

proof fn lemma_run_keeps_inv(s: SessionView, events: Seq<Event>)
    requires
        reachable_inv(s),
    ensures
        reachable_inv(run(s, events)),
    decreases events.len(),
{
    if events.len() > 0 {
        lemma_run_keeps_inv(s, events.drop_last());
        lemma_next_keeps_inv(run(s, events.drop_last()), events.last());
    }
}

/// Running `a` then `b` is running their concatenation.
pub proof fn lemma_run_append(s: SessionView, a: Seq<Event>, b: Seq<Event>)
    ensures
        run(s, a + b) == run(run(s, a), b),
    decreases b.len(),
{
    if b.len() == 0 {
        assert(a + b =~= a);
    } else {
        assert((a + b).drop_last() =~= a + b.drop_last());
        lemma_run_append(s, a, b.drop_last());
    }
}

/// Percentages reported over any run are strictly increasing, each in `1..=100`.
pub proof fn lemma_reported_percentages_increase(
    sink: SinkKind,
    threshold: u64,
    events: Seq<Event>,
)
    ensures
        strictly_increasing(run(initial(sink, threshold), events).emitted),
        forall|i: int|
            0 <= i < run(initial(sink, threshold), events).emitted.len() ==> 0 < #[trigger] run(
                initial(sink, threshold),
                events,
            ).emitted[i] <= 100,
{
    lemma_run_keeps_inv(initial(sink, threshold), events);
}

proof fn lemma_total_stays_unknown(s: SessionView, events: Seq<Event>)
    requires
        !known_total(s.total),
        forall|i: int|
            0 <= i < events.len() ==> match #[trigger] events[i] {
                Event::Opened { total, now: _ } => !known_total(total),
                Event::Progress { completed: _, total, now: _ } => !known_total(total),
                _ => true,
            },
    ensures
        !known_total(run(s, events).total),
    decreases events.len(),
{
    if events.len() > 0 {
        lemma_total_stays_unknown(s, events.drop_last());
        assert(events.last() == events[events.len() - 1]);
    }
}

/// A transfer whose total is never known reports no percentage at all,
/// whatever else happens.
pub proof fn lemma_unknown_total_reports_nothing(
    sink: SinkKind,
    threshold: u64,
    events: Seq<Event>,
)
    requires
        forall|i: int|
            0 <= i < events.len() ==> match #[trigger] events[i] {
                Event::Opened { total, now: _ } => !known_total(total),
                Event::Progress { completed: _, total, now: _ } => !known_total(total),
                _ => true,
            },
    ensures
        run(initial(sink, threshold), events).emitted.len() == 0,
{
    lemma_run_keeps_inv(initial(sink, threshold), events);
    lemma_total_stays_unknown(initial(sink, threshold), events);
}

/// A completed transfer with a known total has reported 100 last, and only once.
pub proof fn lemma_completed_reports_hundred_once(
    sink: SinkKind,
    threshold: u64,
    events: Seq<Event>,
)
    ensures
        ({
            let s = run(initial(sink, threshold), events);
            (s.phase is Completed && known_total(s.total)) ==> {
                &&& s.emitted.len() > 0
                &&& s.emitted.last() == 100
                &&& forall|i: int| 0 <= i < s.emitted.len() - 1 ==> #[trigger] s.emitted[i] < 100
            }
        }),
{
    let s = run(initial(sink, threshold), events);
    lemma_run_keeps_inv(initial(sink, threshold), events);
    assert forall|i: int| 0 <= i < s.emitted.len() - 1 implies #[trigger] s.emitted[i]
        < s.emitted.last() by {
        assert(s.emitted.last() == s.emitted[s.emitted.len() - 1]);
    }
}

/// A failed session leaves no destination file that it wrote behind.
pub proof fn lemma_failure_leaves_no_file(sink: SinkKind, threshold: u64, events: Seq<Event>)
    ensures
        run(initial(sink, threshold), events).phase is Failed ==> !run(
            initial(sink, threshold),
            events,
        ).dest_present,
{
    lemma_run_keeps_inv(initial(sink, threshold), events);
}

proof fn lemma_chunks_keep_streaming(s: SessionView, chunks: Seq<(u64, u64)>)
    requires
        s.phase is Streaming,
        on_time(s.threshold, s.last_activity, chunks),
    ensures
        run(s, chunk_events(chunks)).phase is Streaming,
        run(s, chunk_events(chunks)).total == s.total,
        run(s, chunk_events(chunks)).sink == s.sink,
        run(s, chunk_events(chunks)).threshold == s.threshold,
        run(s, chunk_events(chunks)).last_activity == last_arrival(s.last_activity, chunks),
        run(s, chunk_events(chunks)).dest_present == (s.dest_present || (chunks.len() > 0
            && s.sink == SinkKind::File)),
        run(s, chunk_events(chunks)).emitted.len() == 0 <== (s.emitted.len() == 0 && s.total
            is None),
    decreases chunks.len(),
{
    if chunks.len() == 0 {
        assert(chunk_events(chunks) =~= Seq::<Event>::empty());
    } else {
        let pre = chunks.drop_last();
        assert(chunk_events(chunks).drop_last() =~= chunk_events(pre));
        assert forall|i: int| 0 <= i < pre.len() implies !stale(
            #[trigger] last_arrival(s.last_activity, pre.take(i)),
            s.threshold,
            pre[i].1,
        ) by {
            assert(pre.take(i) =~= chunks.take(i));
            assert(last_arrival(s.last_activity, chunks.take(i)) == last_arrival(
                s.last_activity,
                chunks.take(i),
            ));
        }
        lemma_chunks_keep_streaming(s, pre);
        assert(chunks.take(chunks.len() - 1) =~= pre);
        assert(last_arrival(s.last_activity, chunks.take(chunks.len() - 1)) == last_arrival(
            s.last_activity,
            chunks.take(chunks.len() - 1),
        ));
        assert(chunk_events(chunks).last() == Event::Chunk {
            units: chunks.last().0,
            now: chunks.last().1,
        });
    }
}

/// After a start, an opening with `total`, and chunks that each arrive on
/// time, the session is still streaming.
pub proof fn lemma_streaming_after_chunks(
    sink: SinkKind,
    threshold: u64,
    total: Option<u64>,
    opened_at: u64,
    chunks: Seq<(u64, u64)>,
)
    requires
        on_time(threshold, opened_at, chunks),
    ensures
        ({
            let s = run(initial(sink, threshold), streaming_events(total, opened_at, chunks));
            &&& s.phase is Streaming
            &&& s.total == total
            &&& s.sink == sink
            &&& s.threshold == threshold
            &&& s.last_activity == last_arrival(opened_at, chunks)
            &&& s.dest_present == (chunks.len() > 0 && sink == SinkKind::File)
            &&& total is None ==> s.emitted.len() == 0
        }),
{
    let start = seq![Event::Start { already_complete: false }, Event::Opened { total, now: opened_at }];
    assert(start.drop_last() =~= seq![Event::Start { already_complete: false }]);
    assert(start.drop_last().drop_last() =~= Seq::<Event>::empty());
    reveal_with_fuel(run, 3);
    let opened = run(initial(sink, threshold), start);
    assert(opened.phase is Streaming && opened.last_activity == opened_at && opened.total == total);
    lemma_run_append(initial(sink, threshold), start, chunk_events(chunks));
    lemma_chunks_keep_streaming(opened, chunks);
}

/// A transfer whose chunks arrive on time and sum to a known total completes,
/// and its last report is 100, made exactly once.
pub proof fn lemma_full_transfer_reports_hundred_once(
    sink: SinkKind,
    threshold: u64,
    total: u64,
    opened_at: u64,
    chunks: Seq<(u64, u64)>,
)
    requires
        total > 0,
        total_units(chunks) == total,
        on_time(threshold, opened_at, chunks),
    ensures
        ({
            let s = run(
                initial(sink, threshold),
                streaming_events(Some(total), opened_at, chunks).push(Event::StreamEnded).push(
                    Event::Flushed,
                ),
            );
            &&& s.phase is Completed
            &&& s.emitted.len() > 0
            &&& s.emitted.last() == 100
            &&& forall|i: int| 0 <= i < s.emitted.len() - 1 ==> #[trigger] s.emitted[i] < 100
        }),
{
    let pre = streaming_events(Some(total), opened_at, chunks);
    let all = pre.push(Event::StreamEnded).push(Event::Flushed);
    lemma_streaming_after_chunks(sink, threshold, Some(total), opened_at, chunks);
    assert(all.drop_last() =~= pre.push(Event::StreamEnded));
    assert(all.drop_last().drop_last() =~= pre);
    reveal_with_fuel(run, 3);
    lemma_completed_reports_hundred_once(sink, threshold, all);
}

/// A stream error after any number of on-time chunks into a file fails the
/// session with `StreamError`, and no destination file is left.
pub proof fn lemma_stream_error_removes_file(
    threshold: u64,
    total: Option<u64>,
    opened_at: u64,
    chunks: Seq<(u64, u64)>,
)
    requires
        on_time(threshold, opened_at, chunks),
    ensures
        ({
            let before = run(
                initial(SinkKind::File, threshold),
                streaming_events(total, opened_at, chunks),
            );
            let s = run(
                initial(SinkKind::File, threshold),
                streaming_events(total, opened_at, chunks).push(Event::StreamFailed),
            );
            let outcome = Outcome::Failed {
                kind: FailureKind::StreamError,
                cleanup_performed: chunks.len() > 0,
            };
            &&& s.phase == Phase::Failed(FailureKind::StreamError)
            &&& !s.dest_present
            &&& next(before, Event::StreamFailed).1 == if chunks.len() > 0 {
                seq![Command::RemoveDestination, Command::Finish(outcome)]
            } else {
                seq![Command::Finish(outcome)]
            }
        }),
{
    let pre = streaming_events(total, opened_at, chunks);
    lemma_streaming_after_chunks(SinkKind::File, threshold, total, opened_at, chunks);
    assert(pre.push(Event::StreamFailed).drop_last() =~= pre);
}

/// When no chunk arrives within the threshold after the last activity, the
/// session fails with `Timeout`, and no destination file is left.
pub proof fn lemma_stall_times_out(
    sink: SinkKind,
    threshold: u64,
    total: Option<u64>,
    opened_at: u64,
    chunks: Seq<(u64, u64)>,
    now: u64,
)
    requires
        on_time(threshold, opened_at, chunks),
        stale(last_arrival(opened_at, chunks), threshold, now),
    ensures
        ({
            let before = run(initial(sink, threshold), streaming_events(total, opened_at, chunks));
            let s = run(
                initial(sink, threshold),
                streaming_events(total, opened_at, chunks).push(Event::WaitExpired { now }),
            );
            let cleanup = chunks.len() > 0 && sink == SinkKind::File;
            let outcome = Outcome::Failed { kind: FailureKind::Timeout, cleanup_performed: cleanup };
            &&& s.phase == Phase::Failed(FailureKind::Timeout)
            &&& !s.dest_present
            &&& next(before, Event::WaitExpired { now }).1 == if cleanup {
                seq![Command::RemoveDestination, Command::Finish(outcome)]
            } else {
                seq![Command::Finish(outcome)]
            }
        }),
{
    let pre = streaming_events(total, opened_at, chunks);
    lemma_streaming_after_chunks(sink, threshold, total, opened_at, chunks);
    assert(pre.push(Event::WaitExpired { now }).drop_last() =~= pre);
}

/// A transfer whose total is unknown, with chunks that arrive on time and a
/// clean end, completes without reporting any percentage.
pub proof fn lemma_unknown_total_completes_silently(
    sink: SinkKind,
    threshold: u64,
    opened_at: u64,
    chunks: Seq<(u64, u64)>,
)
    requires
        on_time(threshold, opened_at, chunks),
    ensures
        ({
            let s = run(
                initial(sink, threshold),
                streaming_events(None, opened_at, chunks).push(Event::StreamEnded).push(
                    Event::Flushed,
                ),
            );
            s.phase is Completed && s.emitted.len() == 0
        }),
{
    let pre = streaming_events(None, opened_at, chunks);
    let all = pre.push(Event::StreamEnded).push(Event::Flushed);
    lemma_streaming_after_chunks(sink, threshold, None, opened_at, chunks);
    assert(all.drop_last() =~= pre.push(Event::StreamEnded));
    assert(all.drop_last().drop_last() =~= pre);
    reveal_with_fuel(run, 3);
}

} // verus!
