use site_supervisor::bootstrap::{Cause, LoadFailure, Outcome};
use site_supervisor::supervisor::{Directive, Event, Supervisor, SupervisorState, EXIT_GRACEFUL};

fn failed(cause: Cause, message: &str) -> Event {
    Event::BootstrapResolved(Outcome::Failed(LoadFailure { cause, message: String::from(message) }))
}

fn published() -> Event {
    Event::BootstrapResolved(Outcome::Published { record_count: 5, artifact_count: 1 })
}

#[test]
fn supervisor_starts_awaiting_both() {
    let supervisor = Supervisor::new();
    assert_eq!(supervisor.state(), SupervisorState::AwaitingEither);
    assert!(supervisor.awaits_bootstrap());
}

#[test]
fn server_resolution_ends_the_loop_while_bootstrap_is_pending() {
    let mut supervisor = Supervisor::new();
    assert_eq!(supervisor.step(Event::ServerResolved), Directive::Exit { status: 0 });
    assert_eq!(EXIT_GRACEFUL, 0);
    assert_eq!(supervisor.state(), SupervisorState::Terminated);
    assert!(!supervisor.awaits_bootstrap());
}

#[test]
fn server_resolution_ends_the_loop_after_bootstrap_is_done() {
    let mut supervisor = Supervisor::new();
    assert_eq!(supervisor.step(published()), Directive::KeepWaiting);
    assert_eq!(supervisor.state(), SupervisorState::AwaitingEither);
    assert!(!supervisor.awaits_bootstrap());
    assert_eq!(supervisor.step(Event::ServerResolved), Directive::Exit { status: 0 });
    assert_eq!(supervisor.state(), SupervisorState::Terminated);
}

#[test]
fn ordinary_failure_is_reported_and_serving_goes_on() {
    let mut supervisor = Supervisor::new();
    assert_eq!(supervisor.step(failed(Cause::Ordinary, "disk")), Directive::ReportLoadFailure);
    assert_eq!(supervisor.state(), SupervisorState::AwaitingEither);
    assert!(!supervisor.awaits_bootstrap());
}

#[test]
fn irrecoverable_fault_is_raised_again_with_its_payload() {
    let mut supervisor = Supervisor::new();
    assert_eq!(
        supervisor.step(failed(Cause::Irrecoverable, "index out of bounds")),
        Directive::Reraise(String::from("index out of bounds"))
    );
    assert_eq!(supervisor.state(), SupervisorState::Terminated);
}

#[test]
fn second_bootstrap_result_is_ignored() {
    let mut supervisor = Supervisor::new();
    assert_eq!(supervisor.step(published()), Directive::KeepWaiting);
    assert_eq!(supervisor.step(failed(Cause::Irrecoverable, "late")), Directive::KeepWaiting);
    assert_eq!(supervisor.step(failed(Cause::Ordinary, "late")), Directive::KeepWaiting);
    assert_eq!(supervisor.state(), SupervisorState::AwaitingEither);
}

#[test]
fn nothing_is_scheduled_after_termination() {
    let mut supervisor = Supervisor::new();
    supervisor.step(Event::ServerResolved);
    assert_eq!(supervisor.step(published()), Directive::Halted);
    assert_eq!(supervisor.step(failed(Cause::Irrecoverable, "late")), Directive::Halted);
    assert_eq!(supervisor.step(Event::ServerResolved), Directive::Halted);
    assert_eq!(supervisor.state(), SupervisorState::Terminated);
}
