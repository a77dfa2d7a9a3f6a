use vstd::prelude::*;

use crate::command::CommandView;
use crate::error::{Outcome, PipelineError};
use crate::mailbox::{after_take, taken_from, Mailbox};
use crate::pipeline::{
    pending_of, start_of, step_of, Action, ActionView, Event, EventView, Pipeline, PipelineView,
};

verus! {

/// Seconds slept between two looks into the mailbox.
pub const POLL_SECS: u64 = 1;

/// What the scheduler is busy with.
pub enum PhaseView {
    /// Sleeping between two looks into the mailbox.
    Resting,
    /// Driving the one run in flight.
    Running { run: PipelineView },
    /// Releasing the probe session of the run that just ended.
    Closing { outcome: Outcome },
}

/// The mathematical value of a [`Scheduler`].
pub struct SchedulerView {
    /// Number of runs that ended in success.
    pub runs: nat,
    /// The error of the latest run that failed.
    pub last_error: Option<PipelineError>,
    pub phase: PhaseView,
}

/// The run counter after one more success. It stops at the largest value the
/// counter can hold.
pub open spec fn bumped(runs: nat) -> nat {
    if runs < u64::MAX {
        runs + 1
    } else {
        runs
    }
}

/// The scheduler after its run ended with `outcome`: a success is counted, a
/// failure is recorded, and the session is to be released.
pub open spec fn settled(scheduler: SchedulerView, outcome: Outcome) -> SchedulerView {
    match outcome {
        Ok(()) => SchedulerView {
            runs: bumped(scheduler.runs),
            last_error: scheduler.last_error,
            phase: PhaseView::Closing { outcome },
        },
        Err(error) => SchedulerView {
            runs: scheduler.runs,
            last_error: Some(error),
            phase: PhaseView::Closing { outcome },
        },
    }
}

/// The scheduler after its run moved to `run`: the run stays in flight
/// until it is over, and is settled at once when it is.
pub open spec fn carrying(scheduler: SchedulerView, run: PipelineView) -> SchedulerView {
    match run.outcome() {
        Some(outcome) => settled(scheduler, outcome),
        None => SchedulerView {
            runs: scheduler.runs,
            last_error: scheduler.last_error,
            phase: PhaseView::Running { run },
        },
    }
}

/// The action that a scheduler waits on.
pub open spec fn asked_by(scheduler: SchedulerView) -> ActionView {
    match scheduler.phase {
        PhaseView::Resting => ActionView::Pause { seconds: POLL_SECS as nat },
        PhaseView::Running { run } => pending_of(run),
        PhaseView::Closing { outcome } => ActionView::Finish { outcome },
    }
}

/// What one step of the scheduler leaves behind: the scheduler, the mailbox
/// slot and the action that is asked of the host.
pub struct Turn {
    pub scheduler: SchedulerView,
    pub slot: Option<CommandView>,
    pub action: ActionView,
}

/// One step of the scheduler on `event`, with `slot` in the mailbox.
///
/// Resting, it drains the mailbox: a command begins a run, an empty mailbox
/// means another rest. Running, it hands the event to its run and leaves the
/// mailbox alone. Closing, it goes to rest.
pub open spec fn turn_of(scheduler: SchedulerView, slot: Option<CommandView>, event: EventView) -> Turn {
    match scheduler.phase {
        PhaseView::Resting => match taken_from(slot) {
            Some(command) => {
                let next = carrying(scheduler, start_of(command));
                Turn { scheduler: next, slot: after_take(slot), action: asked_by(next) }
            },
            None => Turn { scheduler, slot: after_take(slot), action: asked_by(scheduler) },
        },
        PhaseView::Running { run } => {
            let next = carrying(scheduler, step_of(run, event));
            Turn { scheduler: next, slot, action: asked_by(next) }
        },
        PhaseView::Closing { outcome } => {
            let next = SchedulerView {
                runs: scheduler.runs,
                last_error: scheduler.last_error,
                phase: PhaseView::Resting,
            };
            Turn { scheduler: next, slot, action: asked_by(next) }
        },
    }
}

impl SchedulerView {
    /// The counter fits its machine word, a run in flight is well-formed and
    /// not over.
    pub open spec fn wf(self) -> bool {
        &&& self.runs <= u64::MAX
        &&& self.phase matches PhaseView::Running { run } ==> run.wf() && run.outcome() is None
    }

    /// Whether a run is in flight.
    pub open spec fn busy(self) -> bool {
        self.phase is Running
    }
}

enum Phase {
    Resting,
    Running(Pipeline),
    Closing(Outcome),
}

impl View for Phase {
    type V = PhaseView;

    closed spec fn view(&self) -> PhaseView {
        match self {
            Phase::Resting => PhaseView::Resting,
            Phase::Running(run) => PhaseView::Running { run: run@ },
            Phase::Closing(outcome) => PhaseView::Closing { outcome: *outcome },
        }
    }
}

/// The long-lived worker: it drains the mailbox, drives at most one
/// pipeline run at a time, counts the runs that succeed and remembers the
/// latest failure. A failure ends its run and nothing else.
///
/// Like the pipeline it is a machine that the host drives with
/// [`Scheduler::step`]. A new scheduler rests: its first step, on any event,
/// makes the first look into the mailbox.
pub struct Scheduler {
    runs: u64,
    last_error: Option<PipelineError>,
    phase: Phase,
}

impl View for Scheduler {
    type V = SchedulerView;

    closed spec fn view(&self) -> SchedulerView {
        SchedulerView { runs: self.runs as nat, last_error: self.last_error, phase: self.phase@ }
    }
}

impl Scheduler {
    /// A scheduler that has counted nothing, recorded no error and rests.
    pub fn new() -> (scheduler: Scheduler)
        ensures
            scheduler@ == (SchedulerView {
                runs: 0,
                last_error: None,
                phase: PhaseView::Resting,
            }),
            scheduler@.wf(),
    {
        Scheduler { runs: 0, last_error: None, phase: Phase::Resting }
    }

    /// Books the end of a run.
    fn settle(&mut self, outcome: Outcome)
        ensures
            final(self)@ == settled(old(self)@, outcome),
    {
        match outcome {
            Ok(()) => {
                if self.runs < u64::MAX {
                    self.runs = self.runs + 1;
                }
            },
            Err(error) => {
                self.last_error = Some(error);
            },
        }
        self.phase = Phase::Closing(outcome);
    }

    /// Takes over a run that was just begun or stepped.
    fn carry(&mut self, run: Pipeline, action: Action) -> (asked: Action)
        requires
            action@ == pending_of(run@),
        ensures
            final(self)@ == carrying(old(self)@, run@),
            asked@ == asked_by(final(self)@),
    {
        match run.outcome() {
            Some(outcome) => {
                self.settle(outcome);
                Action::Finish { outcome }
            },
            None => {
                self.phase = Phase::Running(run);
                action
            },
        }
    }

    /// Takes the host's answer to the action that was asked last and says
    /// what to do next. The mailbox is looked into, and drained, only while
    /// no run is in flight.
    pub fn step(&mut self, mailbox: &mut Mailbox, event: Event) -> (action: Action)
        ensures
            final(self)@ == turn_of(old(self)@, old(mailbox)@, event@).scheduler,
            final(mailbox)@ == turn_of(old(self)@, old(mailbox)@, event@).slot,
            action@ == turn_of(old(self)@, old(mailbox)@, event@).action,
            old(self)@.wf() ==> final(self)@.wf(),
            old(self)@.busy() ==> final(mailbox)@ == old(mailbox)@,
            final(self)@.runs >= old(self)@.runs,
    {
        let mut phase = Phase::Resting;
        core::mem::swap(&mut self.phase, &mut phase);
        match phase {
            Phase::Resting => match mailbox.take() {
                Some(command) => {
                    let (run, first) = Pipeline::start(command);
                    self.carry(run, first)
                },
                None => Action::Pause { seconds: POLL_SECS },
            },
            Phase::Running(run) => {
                let (run, next) = run.step(event);
                self.carry(run, next)
            },
            Phase::Closing(outcome) => Action::Pause { seconds: POLL_SECS },
        }
    }

    /// The number of runs that ended in success.
    pub fn runs(&self) -> (runs: u64)
        ensures
            runs == self@.runs,
    {
        self.runs
    }

    /// The error of the latest run that failed, if any did.
    pub fn last_error(&self) -> (error: Option<PipelineError>)
        ensures
            error == self@.last_error,
    {
        self.last_error
    }

    /// Whether a run is in flight.
    pub fn is_busy(&self) -> (busy: bool)
        ensures
            busy == self@.busy(),
    {
        match &self.phase {
            Phase::Running(run) => true,
            _ => false,
        }
    }
}

} // verus!
