use std::sync::Arc;
use vstd::prelude::*;

use crate::config::Configuration;
use crate::holder::{share, Holder};
use crate::snapshot::Snapshot;

verus! {

/// The status the process exits with when the loaded dataset holds nothing.
pub const EXIT_EMPTY_DATASET: i32 = 1;

/// How a load failed: in a way the service survives, or by a fault that has
/// to end the process under its own signature.
#[derive(Clone, Copy, Debug, PartialEq, Eq, Structural)]
pub enum Cause {
    Ordinary,
    Irrecoverable,
}

/// A failed load: its kind and the message or payload it carried.
#[derive(Debug, PartialEq, Eq)]
pub struct LoadFailure {
    pub cause: Cause,
    pub message: String,
}

/// What the bootstrap task resolved to.
#[derive(Debug, PartialEq, Eq)]
pub enum Outcome {
    Published { record_count: usize, artifact_count: usize },
    Failed(LoadFailure),
}

/// What the loader handed back.
#[derive(Debug, PartialEq, Eq)]
pub enum Loaded {
    Built(Arc<Snapshot>),
    Broken(LoadFailure),
}

/// How the blocking load ended, as the one who ran it saw it.
#[derive(Debug, PartialEq, Eq)]
pub enum LoadReport {
    /// The loader built a snapshot.
    Built(Arc<Snapshot>),
    /// The loader gave up with an error of its own.
    Refused(String),
    /// The load was abandoned before it finished.
    Abandoned(String),
    /// The load panicked; the text is that of its payload.
    Panicked(String),
}

/// The life of the one-shot task: not started, waiting for the loader, over.
#[derive(Clone, Copy, Debug, PartialEq, Eq, Structural)]
pub enum Phase {
    Fresh,
    Loading,
    Done,
}

/// What the driver owes after the loader has answered.
#[derive(Debug, PartialEq, Eq)]
pub enum Settlement {
    /// The task was not waiting for a loader: nothing is to be done.
    Dormant,
    /// The dataset holds nothing: report it and exit with this status,
    /// without notifying anyone.
    Fatal { exit_status: i32 },
    /// The task resolved. The notifier is owed exactly the snapshot in
    /// `notify`, if there is one.
    Resolved { outcome: Outcome, notify: Option<Arc<Snapshot>> },
}

/// The decision taken on a loader's answer: what to put into the holder, if
/// anything, and what the driver owes.
#[derive(Debug, PartialEq, Eq)]
pub struct Plan {
    pub publish: Option<Arc<Snapshot>>,
    pub settlement: Settlement,
}

/// The loader's answer that a report amounts to: only a panic is
/// irrecoverable; an error of the loader and an abandoned load are ordinary
/// failures, and each failure keeps its text.
pub open spec fn loaded_of(report: LoadReport) -> Loaded {
    match report {
        LoadReport::Built(handle) => Loaded::Built(handle),
        LoadReport::Refused(message) => Loaded::Broken(
            LoadFailure { cause: Cause::Ordinary, message },
        ),
        LoadReport::Abandoned(message) => Loaded::Broken(
            LoadFailure { cause: Cause::Ordinary, message },
        ),
        LoadReport::Panicked(message) => Loaded::Broken(
            LoadFailure { cause: Cause::Irrecoverable, message },
        ),
    }
}

/// Sorts the end of a load into what the task and the supervisor tell apart.
pub fn classify(report: LoadReport) -> (loaded: Loaded)
    ensures
        loaded == loaded_of(report),
{
    match report {
        LoadReport::Built(handle) => Loaded::Built(handle),
        LoadReport::Refused(message) => Loaded::Broken(
            LoadFailure { cause: Cause::Ordinary, message },
        ),
        LoadReport::Abandoned(message) => Loaded::Broken(
            LoadFailure { cause: Cause::Ordinary, message },
        ),
        LoadReport::Panicked(message) => Loaded::Broken(
            LoadFailure { cause: Cause::Irrecoverable, message },
        ),
    }
}

/// One thing that can happen to the task: it is started, or a loader's answer
/// is handed to it.
pub enum Stimulus {
    Begin,
    Answer(Loaded),
}

/// The loader is invoked on the first start and never again.
pub open spec fn invokes_loader(phase: Phase, stimulus: Stimulus) -> bool {
    phase == Phase::Fresh && stimulus is Begin
}

pub open spec fn phase_after_begin(phase: Phase) -> Phase {
    if phase == Phase::Fresh {
        Phase::Loading
    } else {
        phase
    }
}

pub open spec fn phase_after_answer(phase: Phase) -> Phase {
    if phase == Phase::Loading {
        Phase::Done
    } else {
        phase
    }
}

pub open spec fn phase_after(phase: Phase, stimulus: Stimulus) -> Phase {
    match stimulus {
        Stimulus::Begin => phase_after_begin(phase),
        Stimulus::Answer(_) => phase_after_answer(phase),
    }
}

/// What is written into the holder: the built snapshot, while the task waits
/// for it; nothing on a failure or at any other time.
pub open spec fn publication_of(phase: Phase, loaded: Loaded) -> Option<Arc<Snapshot>> {
    match loaded {
        Loaded::Built(handle) if phase == Phase::Loading => Some(handle),
        _ => None,
    }
}

pub open spec fn settlement_of(phase: Phase, loaded: Loaded) -> Settlement {
    if phase != Phase::Loading {
        Settlement::Dormant
    } else {
        match loaded {
            Loaded::Built(handle) => if (*handle).is_vacant() {
                Settlement::Fatal { exit_status: EXIT_EMPTY_DATASET }
            } else {
                Settlement::Resolved {
                    outcome: Outcome::Published {
                        record_count: (*handle).record_count,
                        artifact_count: (*handle).artifact_count,
                    },
                    notify: Some(handle),
                }
            },
            Loaded::Broken(failure) => Settlement::Resolved {
                outcome: Outcome::Failed(failure),
                notify: None,
            },
        }
    }
}

pub open spec fn invokes_notifier(phase: Phase, stimulus: Stimulus) -> bool {
    match stimulus {
        Stimulus::Begin => false,
        Stimulus::Answer(loaded) => settlement_of(phase, loaded) matches Settlement::Resolved {
            notify: Some(_),
            ..
        },
    }
}

/// The phase reached from `phase` after every stimulus of `stimuli`, in order.
pub open spec fn phase_after_all(phase: Phase, stimuli: Seq<Stimulus>) -> Phase
    decreases stimuli.len(),
{
    if stimuli.len() == 0 {
        phase
    } else {
        phase_after(phase_after_all(phase, stimuli.drop_last()), stimuli.last())
    }
}

/// How often the loader is invoked while `stimuli` are handed to a task that
/// starts in `phase`.
pub open spec fn loader_calls(phase: Phase, stimuli: Seq<Stimulus>) -> nat
    decreases stimuli.len(),
{
    if stimuli.len() == 0 {
        0
    } else {
        let before = stimuli.drop_last();
        let here: nat = if invokes_loader(phase_after_all(phase, before), stimuli.last()) {
            1
        } else {
            0
        };
        loader_calls(phase, before) + here
    }
}

/// How often the notifier is invoked while `stimuli` are handed to a task that
/// starts in `phase`.
pub open spec fn notifier_calls(phase: Phase, stimuli: Seq<Stimulus>) -> nat
    decreases stimuli.len(),
{
    if stimuli.len() == 0 {
        0
    } else {
        let before = stimuli.drop_last();
        let here: nat = if invokes_notifier(phase_after_all(phase, before), stimuli.last()) {
            1
        } else {
            0
        };
        notifier_calls(phase, before) + here
    }
}

/// The one-shot unit of work that loads and publishes the first snapshot.
pub struct BootstrapTask {
    phase: Phase,
}

impl BootstrapTask {
    pub closed spec fn spec_phase(&self) -> Phase {
        self.phase
    }

    pub fn new() -> (task: BootstrapTask)
        ensures
            task.spec_phase() == Phase::Fresh,
    {
        BootstrapTask { phase: Phase::Fresh }
    }

    pub fn phase(&self) -> (phase: Phase)
        ensures
            phase == self.spec_phase(),
    {
        self.phase
    }

    /// Starts the task. On the first call the result is the store location
    /// that the loader is to be invoked with; on every later call it is
    /// `None` and nothing changes.
    pub fn begin(&mut self, config: &Configuration) -> (store: Option<String>)
        ensures
            final(self).spec_phase() == phase_after_begin(old(self).spec_phase()),
            store.is_some() == invokes_loader(old(self).spec_phase(), Stimulus::Begin),
            store matches Some(location) ==> location@ == config.store_location@,
    {
        match self.phase {
            Phase::Fresh => {
                self.phase = Phase::Loading;
                Some(config.store_location.clone())
            },
            _ => None,
        }
    }

    /// Decides what follows from the loader's answer, and ends the task if it
    /// was waiting for one.
    pub fn plan(&mut self, loaded: Loaded) -> (plan: Plan)
        ensures
            final(self).spec_phase() == phase_after_answer(old(self).spec_phase()),
            plan.publish == publication_of(old(self).spec_phase(), loaded),
            plan.settlement == settlement_of(old(self).spec_phase(), loaded),
    {
        match self.phase {
            Phase::Loading => {
                self.phase = Phase::Done;
                match loaded {
                    Loaded::Built(handle) => {
                        let record_count: usize = handle.record_count();
                        let artifact_count: usize = handle.artifact_count();
                        if record_count == 0 && artifact_count == 0 {
                            Plan {
                                publish: Some(handle),
                                settlement: Settlement::Fatal { exit_status: EXIT_EMPTY_DATASET },
                            }
                        } else {
                            let notify = share(&handle);
                            Plan {
                                publish: Some(handle),
                                settlement: Settlement::Resolved {
                                    outcome: Outcome::Published { record_count, artifact_count },
                                    notify: Some(notify),
                                },
                            }
                        }
                    },
                    Loaded::Broken(failure) => Plan {
                        publish: None,
                        settlement: Settlement::Resolved {
                            outcome: Outcome::Failed(failure),
                            notify: None,
                        },
                    },
                }
            },
            _ => Plan { publish: None, settlement: Settlement::Dormant },
        }
    }

    /// Takes the loader's answer, publishes a built snapshot into `holder`
    /// before anything else is decided on it, and says what the driver owes.
    /// The holder is written exactly when `publication_of` names a snapshot.
    pub fn conclude(&mut self, holder: &Holder, loaded: Loaded) -> (settlement: Settlement)
        ensures
            final(self).spec_phase() == phase_after_answer(old(self).spec_phase()),
            settlement == settlement_of(old(self).spec_phase(), loaded),
    {
        let plan = self.plan(loaded);
        if let Some(handle) = plan.publish {
            holder.publish(handle);
        }
        plan.settlement
    }
}

/// A task that is over stays over: whatever is handed to it afterwards, and
/// however often, it invokes neither the loader nor the notifier.
pub proof fn lemma_done_stays_dormant(stimuli: Seq<Stimulus>)
    ensures
        phase_after_all(Phase::Done, stimuli) == Phase::Done,
        loader_calls(Phase::Done, stimuli) == 0,
        notifier_calls(Phase::Done, stimuli) == 0,
    decreases stimuli.len(),
{
    if stimuli.len() > 0 {
        lemma_done_stays_dormant(stimuli.drop_last());
    }
}

/// From any phase and under any stimuli, the loader and the notifier are each
/// invoked at most once.
pub proof fn lemma_at_most_once(phase: Phase, stimuli: Seq<Stimulus>)
    ensures
        loader_calls(phase, stimuli) <= 1,
        notifier_calls(phase, stimuli) <= 1,
        loader_calls(phase, stimuli) == 1 ==> phase_after_all(phase, stimuli) != Phase::Fresh,
        notifier_calls(phase, stimuli) == 1 ==> phase_after_all(phase, stimuli) == Phase::Done,
        phase != Phase::Fresh ==> phase_after_all(phase, stimuli) != Phase::Fresh,
        phase == Phase::Done ==> phase_after_all(phase, stimuli) == Phase::Done,
    decreases stimuli.len(),
{
    if stimuli.len() > 0 {
        lemma_at_most_once(phase, stimuli.drop_last());
    }
}

/// A dataset without records and without artifacts is fatal: it is published,
/// the process is told to exit with the status for an empty dataset, and the
/// notifier is not invoked. Any other dataset resolves the task and is handed
/// to the notifier.
pub proof fn lemma_empty_dataset_is_fatal(handle: Arc<Snapshot>)
    ensures
        publication_of(Phase::Loading, Loaded::Built(handle)) == Some(handle),
        (*handle).is_vacant() ==> settlement_of(Phase::Loading, Loaded::Built(handle)) == (
        Settlement::Fatal { exit_status: EXIT_EMPTY_DATASET }),
        (*handle).is_vacant() ==> !invokes_notifier(
            Phase::Loading,
            Stimulus::Answer(Loaded::Built(handle)),
        ),
        !(*handle).is_vacant() ==> invokes_notifier(
            Phase::Loading,
            Stimulus::Answer(Loaded::Built(handle)),
        ),
        EXIT_EMPTY_DATASET == 1,
{
}

} // verus!
