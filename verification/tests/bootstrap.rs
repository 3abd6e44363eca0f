use std::sync::Arc;

use site_supervisor::bootstrap::{
    classify, BootstrapTask, Cause, LoadFailure, LoadReport, Loaded, Outcome, Phase, Settlement,
    EXIT_EMPTY_DATASET,
};
use site_supervisor::config::resolve;
use site_supervisor::holder::Holder;
use site_supervisor::snapshot::Snapshot;

fn failure(cause: Cause, message: &str) -> LoadFailure {
    LoadFailure { cause, message: String::from(message) }
}

fn started_task() -> BootstrapTask {
    let config = resolve(None, Some(String::from("y.db")), None);
    let mut task = BootstrapTask::new();
    assert_eq!(task.begin(&config), Some(String::from("y.db")));
    task
}

#[test]
fn first_begin_asks_for_the_loader_with_the_store_location() {
    let config = resolve(Some(String::from("x.db")), None, None);
    let mut task = BootstrapTask::new();
    assert_eq!(task.phase(), Phase::Fresh);
    assert_eq!(task.begin(&config), Some(String::from("x.db")));
    assert_eq!(task.phase(), Phase::Loading);
}

#[test]
fn later_begin_asks_for_nothing() {
    let config = resolve(None, None, None);
    let mut task = BootstrapTask::new();
    assert_eq!(task.begin(&config), Some(String::from("results.db")));
    assert_eq!(task.begin(&config), None);
    assert_eq!(task.phase(), Phase::Loading);
    let holder = Holder::new();
    task.conclude(&holder, Loaded::Built(Arc::new(Snapshot::new(1, 0))));
    assert_eq!(task.begin(&config), None);
    assert_eq!(task.phase(), Phase::Done);
}

#[test]
fn built_snapshot_is_published_and_notified() {
    let mut task = started_task();
    let holder = Holder::new();
    let snapshot = Arc::new(Snapshot::new(40, 2));
    let settlement = task.conclude(&holder, Loaded::Built(snapshot.clone()));
    assert_eq!(
        settlement,
        Settlement::Resolved {
            outcome: Outcome::Published { record_count: 40, artifact_count: 2 },
            notify: Some(Arc::new(Snapshot::new(40, 2))),
        }
    );
    match settlement {
        Settlement::Resolved { notify: Some(handle), .. } => assert!(Arc::ptr_eq(&handle, &snapshot)),
        _ => unreachable!(),
    }
    assert!(Arc::ptr_eq(&holder.read().unwrap(), &snapshot));
    assert_eq!(task.phase(), Phase::Done);
}

#[test]
fn records_alone_or_artifacts_alone_are_enough() {
    let mut task = started_task();
    let plan = task.plan(Loaded::Built(Arc::new(Snapshot::new(0, 5))));
    assert_eq!(plan.publish, Some(Arc::new(Snapshot::new(0, 5))));
    assert_eq!(
        plan.settlement,
        Settlement::Resolved {
            outcome: Outcome::Published { record_count: 0, artifact_count: 5 },
            notify: Some(Arc::new(Snapshot::new(0, 5))),
        }
    );
    let mut task = started_task();
    let plan = task.plan(Loaded::Built(Arc::new(Snapshot::new(usize::MAX, usize::MAX))));
    assert_eq!(
        plan.settlement,
        Settlement::Resolved {
            outcome: Outcome::Published { record_count: usize::MAX, artifact_count: usize::MAX },
            notify: Some(Arc::new(Snapshot::new(usize::MAX, usize::MAX))),
        }
    );
}

#[test]
fn empty_dataset_is_fatal_and_not_notified() {
    let mut task = started_task();
    let holder = Holder::new();
    let settlement = task.conclude(&holder, Loaded::Built(Arc::new(Snapshot::new(0, 0))));
    assert_eq!(settlement, Settlement::Fatal { exit_status: 1 });
    assert_eq!(EXIT_EMPTY_DATASET, 1);
    assert_eq!(holder.read(), Some(Arc::new(Snapshot::new(0, 0))));
}

#[test]
fn ordinary_failure_leaves_the_holder_empty() {
    let mut task = started_task();
    let holder = Holder::new();
    let settlement = task.conclude(&holder, Loaded::Broken(failure(Cause::Ordinary, "disk")));
    assert_eq!(
        settlement,
        Settlement::Resolved {
            outcome: Outcome::Failed(failure(Cause::Ordinary, "disk")),
            notify: None,
        }
    );
    assert_eq!(holder.read(), None);
    assert_eq!(task.phase(), Phase::Done);
}

#[test]
fn irrecoverable_fault_keeps_its_payload_and_notifies_nobody() {
    let mut task = started_task();
    let plan = task.plan(Loaded::Broken(failure(Cause::Irrecoverable, "index out of bounds")));
    assert_eq!(plan.publish, None);
    assert_eq!(
        plan.settlement,
        Settlement::Resolved {
            outcome: Outcome::Failed(failure(Cause::Irrecoverable, "index out of bounds")),
            notify: None,
        }
    );
}

#[test]
fn resolved_task_stays_dormant() {
    let config = resolve(None, None, None);
    let mut task = started_task();
    let holder = Holder::new();
    task.conclude(&holder, Loaded::Built(Arc::new(Snapshot::new(3, 3))));
    for round in 0..5usize {
        assert_eq!(task.begin(&config), None);
        let again = task.conclude(&holder, Loaded::Built(Arc::new(Snapshot::new(round + 10, 1))));
        assert_eq!(again, Settlement::Dormant);
        let again = task.conclude(&holder, Loaded::Broken(failure(Cause::Irrecoverable, "late")));
        assert_eq!(again, Settlement::Dormant);
        assert_eq!(task.phase(), Phase::Done);
        assert_eq!(holder.read(), Some(Arc::new(Snapshot::new(3, 3))));
    }
}

#[test]
fn answer_without_a_start_is_ignored() {
    let mut task = BootstrapTask::new();
    let holder = Holder::new();
    let settlement = task.conclude(&holder, Loaded::Built(Arc::new(Snapshot::new(3, 3))));
    assert_eq!(settlement, Settlement::Dormant);
    assert_eq!(holder.read(), None);
    assert_eq!(task.phase(), Phase::Fresh);
}

#[test]
fn only_a_panic_is_irrecoverable() {
    assert_eq!(
        classify(LoadReport::Built(Arc::new(Snapshot::new(2, 1)))),
        Loaded::Built(Arc::new(Snapshot::new(2, 1)))
    );
    assert_eq!(
        classify(LoadReport::Refused(String::from("no such table"))),
        Loaded::Broken(failure(Cause::Ordinary, "no such table"))
    );
    assert_eq!(
        classify(LoadReport::Abandoned(String::from("cancelled"))),
        Loaded::Broken(failure(Cause::Ordinary, "cancelled"))
    );
    assert_eq!(
        classify(LoadReport::Panicked(String::from("index out of bounds"))),
        Loaded::Broken(failure(Cause::Irrecoverable, "index out of bounds"))
    );
}
