use vstd::prelude::*;

use crate::bootstrap::{
    invokes_notifier, publication_of, settlement_of, Cause, LoadFailure, Loaded, Outcome, Phase,
    Settlement, Stimulus,
};

verus! {

/// The status the process exits with when the supervisor's loop ends because
/// the server returned.
pub const EXIT_GRACEFUL: i32 = 0;

#[derive(Clone, Copy, Debug, PartialEq, Eq, Structural)]
pub enum SupervisorState {
    AwaitingEither,
    Terminated,
}

/// What the race produced: the server returned, for whatever reason, or the
/// bootstrap task resolved.
#[derive(Debug, PartialEq, Eq)]
pub enum Event {
    ServerResolved,
    BootstrapResolved(Outcome),
}

/// What the driver of the race does next.
#[derive(Debug, PartialEq, Eq)]
pub enum Directive {
    /// Go on waiting; nothing is to be reported.
    KeepWaiting,
    /// Report that loading failed, and go on serving what the holder has.
    ReportLoadFailure,
    /// Report that loading failed and raise the fault again, with the payload
    /// it came with.
    Reraise(String),
    /// Report that the server completed unexpectedly and leave the loop; the
    /// process exits with this status.
    Exit { status: i32 },
    /// The loop is over already: schedule nothing.
    Halted,
}

/// The supervisor as a value: its state, and whether the bootstrap task is
/// still an arm of the race.
pub struct Watch {
    pub state: SupervisorState,
    pub bootstrap_pending: bool,
}

pub open spec fn initial_watch() -> Watch {
    Watch { state: SupervisorState::AwaitingEither, bootstrap_pending: true }
}

pub open spec fn directive_of(watch: Watch, event: Event) -> Directive {
    if watch.state == SupervisorState::Terminated {
        Directive::Halted
    } else {
        match event {
            Event::ServerResolved => Directive::Exit { status: EXIT_GRACEFUL },
            Event::BootstrapResolved(outcome) => if !watch.bootstrap_pending {
                Directive::KeepWaiting
            } else {
                match outcome {
                    Outcome::Published { .. } => Directive::KeepWaiting,
                    Outcome::Failed(failure) => match failure.cause {
                        Cause::Ordinary => Directive::ReportLoadFailure,
                        Cause::Irrecoverable => Directive::Reraise(failure.message),
                    },
                }
            },
        }
    }
}

pub open spec fn watch_after(watch: Watch, event: Event) -> Watch {
    if watch.state == SupervisorState::Terminated {
        watch
    } else {
        match event {
            Event::ServerResolved => Watch {
                state: SupervisorState::Terminated,
                bootstrap_pending: watch.bootstrap_pending,
            },
            Event::BootstrapResolved(outcome) => if !watch.bootstrap_pending {
                watch
            } else {
                match outcome {
                    Outcome::Failed(LoadFailure { cause: Cause::Irrecoverable, .. }) => Watch {
                        state: SupervisorState::Terminated,
                        bootstrap_pending: false,
                    },
                    _ => Watch { state: SupervisorState::AwaitingEither, bootstrap_pending: false },
                }
            },
        }
    }
}

/// The supervisor after every event of `events`, in order.
pub open spec fn watch_after_all(watch: Watch, events: Seq<Event>) -> Watch
    decreases events.len(),
{
    if events.len() == 0 {
        watch
    } else {
        watch_after(watch_after_all(watch, events.drop_last()), events.last())
    }
}

/// Races the server against the bootstrap task and decides on each result.
pub struct Supervisor {
    state: SupervisorState,
    bootstrap_pending: bool,
}

impl View for Supervisor {
    type V = Watch;

    closed spec fn view(&self) -> Watch {
        Watch { state: self.state, bootstrap_pending: self.bootstrap_pending }
    }
}

impl Supervisor {
    pub fn new() -> (supervisor: Supervisor)
        ensures
            supervisor@ == initial_watch(),
    {
        Supervisor { state: SupervisorState::AwaitingEither, bootstrap_pending: true }
    }

    pub fn state(&self) -> (state: SupervisorState)
        ensures
            state == self@.state,
    {
        self.state
    }

    /// Whether the bootstrap task is still to be raced. Once its result has
    /// been taken, only the server is waited for.
    pub fn awaits_bootstrap(&self) -> (pending: bool)
        ensures
            pending == (self@.state == SupervisorState::AwaitingEither && self@.bootstrap_pending),
    {
        match self.state {
            SupervisorState::AwaitingEither => self.bootstrap_pending,
            SupervisorState::Terminated => false,
        }
    }

    /// Takes the next result of the race and says what to do about it.
    pub fn step(&mut self, event: Event) -> (directive: Directive)
        ensures
            directive == directive_of(old(self)@, event),
            final(self)@ == watch_after(old(self)@, event),
    {
        match self.state {
            SupervisorState::Terminated => Directive::Halted,
            SupervisorState::AwaitingEither => match event {
                Event::ServerResolved => {
                    self.state = SupervisorState::Terminated;
                    Directive::Exit { status: EXIT_GRACEFUL }
                },
                Event::BootstrapResolved(outcome) => {
                    if !self.bootstrap_pending {
                        return Directive::KeepWaiting;
                    }
                    self.bootstrap_pending = false;
                    match outcome {
                        Outcome::Published { .. } => Directive::KeepWaiting,
                        Outcome::Failed(failure) => match failure.cause {
                            Cause::Ordinary => Directive::ReportLoadFailure,
                            Cause::Irrecoverable => {
                                self.state = SupervisorState::Terminated;
                                Directive::Reraise(failure.message)
                            },
                        },
                    }
                },
            },
        }
    }
}

/// Once the loop has ended it stays ended: no later event changes the
/// supervisor or schedules anything.
pub proof fn lemma_terminated_is_final(watch: Watch, events: Seq<Event>)
    requires
        watch.state == SupervisorState::Terminated,
    ensures
        watch_after_all(watch, events) == watch,
        forall|i: int|
            0 <= i < events.len() ==> directive_of(
                watch_after_all(watch, events.take(i)),
                #[trigger] events[i],
            ) == Directive::Halted,
    decreases events.len(),
{
    if events.len() > 0 {
        let before = events.drop_last();
        lemma_terminated_is_final(watch, before);
        assert forall|i: int| 0 <= i < events.len() implies directive_of(
            watch_after_all(watch, events.take(i)),
            #[trigger] events[i],
        ) == Directive::Halted by {
            if i < before.len() {
                assert(before.take(i) =~= events.take(i));
                assert(before[i] == events[i]);
            } else {
                assert(events.take(i) =~= before);
            }
        }
    }
}

/// Whenever the server returns, with the bootstrap task still pending or
/// already done, the loop ends there and stays ended under everything that
/// follows.
pub proof fn lemma_server_resolution_ends_loop(watch: Watch, events: Seq<Event>, at: int)
    requires
        0 <= at < events.len(),
        events[at] is ServerResolved,
    ensures
        watch_after_all(watch, events).state == SupervisorState::Terminated,
        watch_after_all(watch, events.take(at + 1)).state == SupervisorState::Terminated,
        watch_after_all(watch, events) == watch_after_all(watch, events.take(at + 1)),
    decreases events.len(),
{
    let before = events.drop_last();
    if at == events.len() - 1 {
        assert(events.take(at + 1) =~= events);
    } else {
        lemma_server_resolution_ends_loop(watch, before, at);
        assert(before.take(at + 1) =~= events.take(at + 1));
    }
}

/// The bootstrap task counts once in the race: its first result is taken,
/// and any later one changes nothing and asks for nothing.
pub proof fn lemma_bootstrap_counts_once(watch: Watch, first: Outcome, later: Outcome)
    requires
        watch.state == SupervisorState::AwaitingEither,
    ensures
        !watch_after(watch, Event::BootstrapResolved(first)).bootstrap_pending,
        watch_after(
            watch_after(watch, Event::BootstrapResolved(first)),
            Event::BootstrapResolved(later),
        ) == watch_after(watch, Event::BootstrapResolved(first)),
        directive_of(
            watch_after(watch, Event::BootstrapResolved(first)),
            Event::BootstrapResolved(later),
        ) == Directive::KeepWaiting || directive_of(
            watch_after(watch, Event::BootstrapResolved(first)),
            Event::BootstrapResolved(later),
        ) == Directive::Halted,
{
}

/// A load that fails in the ordinary way leaves the holder as it was and
/// never ends the loop: nothing is published, nobody is notified, and the
/// supervisor reports the failure and goes on waiting for the server.
pub proof fn lemma_ordinary_failure_keeps_serving(watch: Watch, failure: LoadFailure)
    requires
        watch.state == SupervisorState::AwaitingEither,
        watch.bootstrap_pending,
        failure.cause == Cause::Ordinary,
    ensures
        publication_of(Phase::Loading, Loaded::Broken(failure)).is_none(),
        settlement_of(Phase::Loading, Loaded::Broken(failure)) == (Settlement::Resolved {
            outcome: Outcome::Failed(failure),
            notify: None,
        }),
        directive_of(watch, Event::BootstrapResolved(Outcome::Failed(failure)))
            == Directive::ReportLoadFailure,
        watch_after(watch, Event::BootstrapResolved(Outcome::Failed(failure))).state
            == SupervisorState::AwaitingEither,
{
}

/// A load that ends in an irrecoverable fault is raised again with the
/// payload it came with: nothing is published, nobody is notified, and the
/// loop ends.
pub proof fn lemma_fault_is_raised_again(watch: Watch, failure: LoadFailure)
    requires
        watch.state == SupervisorState::AwaitingEither,
        watch.bootstrap_pending,
        failure.cause == Cause::Irrecoverable,
    ensures
        publication_of(Phase::Loading, Loaded::Broken(failure)).is_none(),
        !invokes_notifier(Phase::Loading, Stimulus::Answer(Loaded::Broken(failure))),
        settlement_of(Phase::Loading, Loaded::Broken(failure)) == (Settlement::Resolved {
            outcome: Outcome::Failed(failure),
            notify: None,
        }),
        directive_of(watch, Event::BootstrapResolved(Outcome::Failed(failure)))
            == Directive::Reraise(failure.message),
        watch_after(watch, Event::BootstrapResolved(Outcome::Failed(failure))).state
            == SupervisorState::Terminated,
{
}

} // verus!
