use stdf_ingest::pipeline::{
    aggregate_progress, check_file_groups, checkpoint_due, file_name_actions, group_progress,
    is_terminal, next_phase, RunEvent, RunPhase,
};
use stdf_ingest::actions::SinkAction;

#[test]
fn backpressure_holds_records_without_loss() {
    // A bounded queue of capacity 3: a producer that runs ahead of the
    // writer is held back, and nothing is dropped or reordered.
    let (tx, rx) = crossbeam_channel::bounded::<u32>(3);
    tx.try_send(1).unwrap();
    tx.try_send(2).unwrap();
    tx.try_send(3).unwrap();
    // The queue is full: the fourth enqueue does not go through (a
    // blocking send would wait here rather than drop the item).
    assert!(tx.try_send(4).is_err());
    // Draining one item makes room for exactly one more.
    assert_eq!(rx.recv().unwrap(), 1);
    tx.try_send(4).unwrap();
    assert!(tx.try_send(5).is_err());
    drop(tx);
    // Everything sent arrives, in order.
    let rest: Vec<u32> = rx.iter().collect();
    assert_eq!(rest, vec![2, 3, 4]);
}

#[test]
fn closed_queue_stops_producers_normally() {
    // Once the receiver is gone, a producer sees an error rather than
    // blocking forever: draining cannot deadlock.
    let (tx, rx) = crossbeam_channel::bounded::<u32>(2);
    drop(rx);
    assert!(tx.send(1).is_err());
}

#[test]
fn cancellation_reaches_a_terminal_phase() {
    let p = next_phase(RunPhase::Idle, RunEvent::Started);
    assert_eq!(p, RunPhase::Streaming);
    // One observed cancellation ends the run.
    let p = next_phase(p, RunEvent::CancelRequested);
    assert_eq!(p, RunPhase::Cancelled);
    assert!(is_terminal(p));
    // Terminal phases absorb every further event.
    assert_eq!(next_phase(p, RunEvent::Started), RunPhase::Cancelled);
    assert_eq!(next_phase(p, RunEvent::StreamEnded), RunPhase::Cancelled);
}

#[test]
fn normal_and_failing_runs_terminate() {
    let p = next_phase(RunPhase::Idle, RunEvent::Started);
    assert_eq!(next_phase(p, RunEvent::StreamEnded), RunPhase::Completed);
    assert_eq!(next_phase(p, RunEvent::FatalError), RunPhase::Failed);
    assert!(is_terminal(RunPhase::Completed));
    assert!(is_terminal(RunPhase::Failed));
}

#[test]
fn progress_fractions() {
    // Halfway through the first of two files: a quarter of the group.
    assert_eq!(group_progress(50, 100, 0, 2), 2500);
    // At the end of the second file: the full ten thousand.
    assert_eq!(group_progress(100, 100, 1, 2), 10000);
    assert_eq!(group_progress(0, 100, 0, 1), 0);
    // The aggregate is the mean of the groups' fractions.
    assert_eq!(aggregate_progress(&vec![2500, 10000]), 6250);
    assert_eq!(aggregate_progress(&vec![]), 0);
    assert_eq!(aggregate_progress(&vec![10000, 10000]), 10000);
}

#[test]
fn checkpoint_cadence() {
    assert!(!checkpoint_due(0));
    assert!(!checkpoint_due(1000000));
    assert!(checkpoint_due(1000001));
}

#[test]
fn empty_file_group_rejected() {
    let ok = vec![vec![String::from("a.stdf")], vec![String::from("b1"), String::from("b2")]];
    assert!(check_file_groups(&ok).is_ok());
    let bad = vec![vec![String::from("a.stdf")], vec![]];
    let e = check_file_groups(&bad).unwrap_err();
    assert_eq!(e.message(), "Empty STDF file group detected");
}

#[test]
fn file_names_keyed_by_group_and_position() {
    let groups = vec![
        vec![String::from("v1_1"), String::from("v1_2")],
        vec![String::from("v2_1")],
    ];
    let acts = file_name_actions(&groups);
    assert_eq!(
        acts,
        vec![
            SinkAction::InsertFileName { group: 0, sub: 0, path: String::from("v1_1") },
            SinkAction::InsertFileName { group: 0, sub: 1, path: String::from("v1_2") },
            SinkAction::InsertFileName { group: 1, sub: 0, path: String::from("v2_1") },
        ]
    );
}
