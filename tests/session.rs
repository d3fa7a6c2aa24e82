use devtools_core::session::{
    describe_failure, needs_cleanup, Command, Event, FailureKind, Outcome, Phase, SinkKind,
    TransferSession,
};

fn percents(cmds: &[Command]) -> Vec<u64> {
    cmds.iter()
        .filter_map(|c| match c {
            Command::EmitPercent(p) => Some(*p),
            _ => None,
        })
        .collect()
}

fn drive(session: &mut TransferSession, events: &[Event]) -> Vec<Command> {
    let mut all = Vec::new();
    for e in events {
        all.extend(session.step(*e));
    }
    all
}

fn opened(total: Option<u64>) -> Vec<Event> {
    vec![
        Event::Start { already_complete: false },
        Event::Opened { total, now: 0 },
    ]
}

#[test]
fn thousand_units_in_four_chunks_reports_each_step_once() {
    let mut s = TransferSession::new(SinkKind::File, 30);
    let mut events = opened(Some(1000));
    for (i, units) in [100u64, 150, 250, 500].iter().enumerate() {
        events.push(Event::Chunk { units: *units, now: i as u64 });
    }
    events.push(Event::StreamEnded);
    events.push(Event::Flushed);
    let cmds = drive(&mut s, &events);
    assert_eq!(percents(&cmds), vec![10, 25, 50, 100]);
    assert_eq!(s.phase(), Phase::Completed);
    assert_eq!(cmds.last(), Some(&Command::Finish(Outcome::Completed)));
}

#[test]
fn completed_prior_transfer_short_circuits() {
    let mut s = TransferSession::new(SinkKind::File, 30);
    let cmds = s.step(Event::Start { already_complete: true });
    assert_eq!(cmds, vec![Command::Finish(Outcome::Completed)]);
    assert_eq!(s.phase(), Phase::Completed);
    assert!(!cmds.contains(&Command::Open));
    assert!(percents(&cmds).is_empty());
}

#[test]
fn non_success_status_fails_without_creating_a_file() {
    let mut s = TransferSession::new(SinkKind::File, 30);
    let cmds = drive(&mut s, &[Event::Start { already_complete: false }, Event::OpenFailed]);
    assert_eq!(s.phase(), Phase::Failed(FailureKind::SourceUnavailable));
    assert_eq!(
        cmds,
        vec![
            Command::Open,
            Command::Finish(Outcome::Failed {
                kind: FailureKind::SourceUnavailable,
                cleanup_performed: false
            })
        ]
    );
    assert!(!cmds.contains(&Command::Write));
}

#[test]
fn uneven_chunks_end_with_a_single_hundred() {
    let mut s = TransferSession::new(SinkKind::File, 30);
    let mut events = opened(Some(7));
    for units in [3u64, 3, 1] {
        events.push(Event::Chunk { units, now: 1 });
    }
    events.push(Event::StreamEnded);
    events.push(Event::Flushed);
    let cmds = drive(&mut s, &events);
    assert_eq!(percents(&cmds), vec![42, 85, 100]);
}

#[test]
fn short_transfer_gets_terminal_hundred() {
    let mut s = TransferSession::new(SinkKind::File, 30);
    let mut events = opened(Some(1000));
    events.push(Event::Chunk { units: 500, now: 1 });
    events.push(Event::StreamEnded);
    events.push(Event::Flushed);
    let cmds = drive(&mut s, &events);
    assert_eq!(percents(&cmds), vec![50, 100]);
    assert_eq!(s.phase(), Phase::Completed);
}

#[test]
fn tiny_chunks_report_no_duplicates() {
    let mut s = TransferSession::new(SinkKind::Accumulator, 30);
    let mut events = opened(Some(1000));
    for _ in 0..1000 {
        events.push(Event::Chunk { units: 1, now: 0 });
    }
    let cmds = drive(&mut s, &events);
    let p = percents(&cmds);
    assert_eq!(p.len(), 100);
    assert!(p.windows(2).all(|w| w[0] < w[1]));
    assert_eq!(p[0], 1);
    assert_eq!(*p.last().unwrap(), 100);
}

#[test]
fn unknown_total_reports_no_percentage() {
    let mut s = TransferSession::new(SinkKind::File, 30);
    let mut events = opened(None);
    for _ in 0..50 {
        events.push(Event::Chunk { units: 4096, now: 0 });
    }
    events.push(Event::StreamEnded);
    events.push(Event::Flushed);
    let cmds = drive(&mut s, &events);
    assert!(percents(&cmds).is_empty());
    assert_eq!(s.phase(), Phase::Completed);
    assert_eq!(s.transferred(), 50 * 4096);
}

#[test]
fn zero_total_reports_no_percentage() {
    let mut s = TransferSession::new(SinkKind::File, 30);
    let mut events = opened(Some(0));
    events.push(Event::Chunk { units: 10, now: 0 });
    events.push(Event::StreamEnded);
    events.push(Event::Flushed);
    assert!(percents(&drive(&mut s, &events)).is_empty());
}

#[test]
fn stream_error_after_chunks_removes_the_file() {
    for n in 0..4u64 {
        let mut s = TransferSession::new(SinkKind::File, 30);
        let mut events = opened(Some(100));
        for i in 0..n {
            events.push(Event::Chunk { units: 10, now: i });
        }
        events.push(Event::StreamFailed);
        let cmds = drive(&mut s, &events);
        assert_eq!(s.phase(), Phase::Failed(FailureKind::StreamError));
        let wrote = n > 0;
        assert_eq!(cmds.contains(&Command::RemoveDestination), wrote);
        assert_eq!(
            cmds.last(),
            Some(&Command::Finish(Outcome::Failed {
                kind: FailureKind::StreamError,
                cleanup_performed: wrote
            }))
        );
    }
}

#[test]
fn stall_times_out_and_removes_the_file() {
    let mut s = TransferSession::new(SinkKind::File, 30);
    let mut events = opened(Some(100));
    events.push(Event::Chunk { units: 10, now: 5 });
    events.push(Event::WaitExpired { now: 20 });
    events.push(Event::WaitExpired { now: 36 });
    let cmds = drive(&mut s, &events);
    assert_eq!(s.phase(), Phase::Failed(FailureKind::Timeout));
    assert!(cmds.contains(&Command::RemoveDestination));
    assert_eq!(
        cmds.last(),
        Some(&Command::Finish(Outcome::Failed { kind: FailureKind::Timeout, cleanup_performed: true }))
    );
}

#[test]
fn late_chunk_times_out() {
    let mut s = TransferSession::new(SinkKind::File, 30);
    let mut events = opened(Some(100));
    events.push(Event::Chunk { units: 10, now: 31 });
    drive(&mut s, &events);
    assert_eq!(s.phase(), Phase::Failed(FailureKind::Timeout));
}

#[test]
fn slow_but_steady_never_times_out() {
    let mut s = TransferSession::new(SinkKind::File, 30);
    let mut events = opened(Some(100));
    for i in 1..=10u64 {
        events.push(Event::Chunk { units: 10, now: i * 30 });
    }
    events.push(Event::StreamEnded);
    events.push(Event::Flushed);
    drive(&mut s, &events);
    assert_eq!(s.phase(), Phase::Completed);
}

#[test]
fn wait_within_threshold_keeps_reading() {
    let mut s = TransferSession::new(SinkKind::File, 30);
    drive(&mut s, &opened(Some(100)));
    assert_eq!(s.deadline(), 30);
    assert_eq!(s.step(Event::WaitExpired { now: 30 }), vec![Command::ReadNext]);
    assert_eq!(s.phase(), Phase::Streaming);
}

#[test]
fn sink_failure_while_flushing() {
    let mut s = TransferSession::new(SinkKind::File, 30);
    let mut events = opened(Some(100));
    events.push(Event::Chunk { units: 100, now: 0 });
    events.push(Event::StreamEnded);
    events.push(Event::SinkFailed);
    let cmds = drive(&mut s, &events);
    assert_eq!(s.phase(), Phase::Failed(FailureKind::SinkError));
    assert!(cmds.contains(&Command::RemoveDestination));
}

#[test]
fn accumulator_forwards_deltas_and_never_cleans_up() {
    let mut s = TransferSession::new(SinkKind::Accumulator, 30);
    let mut events = opened(None);
    events.push(Event::Chunk { units: 5, now: 0 });
    events.push(Event::Chunk { units: 0, now: 0 });
    events.push(Event::StreamFailed);
    let cmds = drive(&mut s, &events);
    assert_eq!(cmds.iter().filter(|c| **c == Command::EmitDelta).count(), 1);
    assert!(!cmds.contains(&Command::RemoveDestination));
    assert_eq!(s.phase(), Phase::Failed(FailureKind::StreamError));
}

#[test]
fn cancel_while_streaming_cleans_up() {
    let mut s = TransferSession::new(SinkKind::File, 30);
    let mut events = opened(Some(100));
    events.push(Event::Chunk { units: 1, now: 0 });
    events.push(Event::Cancelled);
    let cmds = drive(&mut s, &events);
    assert_eq!(s.phase(), Phase::Failed(FailureKind::Cancelled));
    assert!(cmds.contains(&Command::RemoveDestination));
}

#[test]
fn terminal_states_ignore_events() {
    let mut s = TransferSession::new(SinkKind::File, 30);
    s.step(Event::Start { already_complete: true });
    assert!(s.is_finished());
    assert!(s.step(Event::Start { already_complete: false }).is_empty());
    assert!(s.step(Event::Cancelled).is_empty());
    assert_eq!(s.phase(), Phase::Completed);
}

#[test]
fn out_of_phase_event_changes_nothing() {
    let mut s = TransferSession::new(SinkKind::File, 30);
    assert!(s.step(Event::Chunk { units: 5, now: 0 }).is_empty());
    assert_eq!(s.phase(), Phase::Idle);
    assert_eq!(s.transferred(), 0);
}

#[test]
fn cumulative_progress_reports() {
    let mut s = TransferSession::new(SinkKind::Accumulator, 60);
    let mut events = opened(None);
    events.push(Event::Progress { completed: 0, total: None, now: 1 });
    events.push(Event::Progress { completed: 30, total: Some(200), now: 2 });
    events.push(Event::Progress { completed: 30, total: Some(200), now: 3 });
    events.push(Event::Progress { completed: 200, total: Some(200), now: 4 });
    events.push(Event::StreamEnded);
    events.push(Event::Flushed);
    let cmds = drive(&mut s, &events);
    assert_eq!(percents(&cmds), vec![15, 100]);
    assert_eq!(s.total(), Some(200));
    assert_eq!(s.last_percent(), 100);
}

#[test]
fn cleanup_policy() {
    assert!(needs_cleanup(SinkKind::File, true));
    assert!(!needs_cleanup(SinkKind::File, false));
    assert!(!needs_cleanup(SinkKind::Accumulator, true));
}

#[test]
fn failure_messages_name_kind_and_cause() {
    assert_eq!(describe_failure(FailureKind::StreamError, "reset"), "Stream error: reset");
    assert_eq!(describe_failure(FailureKind::SourceUnavailable, "404"), "Source unavailable: 404");
    assert_eq!(describe_failure(FailureKind::Timeout, "idle"), "Timed out: idle");
    assert_eq!(describe_failure(FailureKind::SinkError, "disk full"), "Could not write the output: disk full");
    assert_eq!(describe_failure(FailureKind::Cancelled, ""), "Cancelled: ");
}
