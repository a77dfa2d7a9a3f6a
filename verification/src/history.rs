use vstd::prelude::*;

use crate::command::CommandView;
use crate::error::PipelineError;
use crate::mailbox::after_submit;
use crate::pipeline::{start_of, step_of, ActionView, EventView, PipelineView};
use crate::scheduler::{bumped, turn_of, PhaseView, SchedulerView, Turn};

verus! {

/// One beat of the host's loop: the commands that producers submitted since
/// the last step, oldest first, and the event that the step is given.
pub struct Tick {
    pub submitted: Seq<CommandView>,
    pub event: EventView,
}

/// The mailbox slot after `submitted` was submitted, oldest first.
pub open spec fn after_submits(slot: Option<CommandView>, submitted: Seq<CommandView>) -> Option<
    CommandView,
>
    decreases submitted.len(),
{
    if submitted.len() == 0 {
        slot
    } else {
        after_submits(after_submit(slot, submitted.first()), submitted.drop_first())
    }
}

/// The scheduler's step in one beat.
pub open spec fn tick_of(scheduler: SchedulerView, slot: Option<CommandView>, tick: Tick) -> Turn {
    turn_of(scheduler, after_submits(slot, tick.submitted), tick.event)
}

/// The scheduler after the beats `ticks`.
pub open spec fn scheduler_after(
    scheduler: SchedulerView,
    slot: Option<CommandView>,
    ticks: Seq<Tick>,
) -> SchedulerView
    decreases ticks.len(),
{
    if ticks.len() == 0 {
        scheduler
    } else {
        let turn = tick_of(scheduler, slot, ticks.first());
        scheduler_after(turn.scheduler, turn.slot, ticks.drop_first())
    }
}

/// The mailbox slot after the beats `ticks`.
pub open spec fn slot_after(
    scheduler: SchedulerView,
    slot: Option<CommandView>,
    ticks: Seq<Tick>,
) -> Option<CommandView>
    decreases ticks.len(),
{
    if ticks.len() == 0 {
        slot
    } else {
        let turn = tick_of(scheduler, slot, ticks.first());
        slot_after(turn.scheduler, turn.slot, ticks.drop_first())
    }
}

/// The actions that the scheduler asks for in the beats `ticks`, one for each.
pub open spec fn asked_over(
    scheduler: SchedulerView,
    slot: Option<CommandView>,
    ticks: Seq<Tick>,
) -> Seq<ActionView>
    decreases ticks.len(),
{
    if ticks.len() == 0 {
        Seq::empty()
    } else {
        let turn = tick_of(scheduler, slot, ticks.first());
        seq![turn.action] + asked_over(turn.scheduler, turn.slot, ticks.drop_first())
    }
}

/// Whether `run` is the run that the command waiting in `slot` begins.
pub open spec fn begun_from(slot: Option<CommandView>, run: PipelineView) -> bool {
    match slot {
        Some(command) => run == start_of(command),
        None => false,
    }
}

/// Whether `action` closes a run that succeeded.
pub open spec fn closes_success(action: ActionView) -> bool {
    match action {
        ActionView::Finish { outcome } => outcome is Ok,
        _ => false,
    }
}

/// The number of runs that end in success during the beats `ticks`.
pub open spec fn successes_over(
    scheduler: SchedulerView,
    slot: Option<CommandView>,
    ticks: Seq<Tick>,
) -> nat
    decreases ticks.len(),
{
    if ticks.len() == 0 {
        0
    } else {
        let turn = tick_of(scheduler, slot, ticks.first());
        let here: nat = if closes_success(turn.action) {
            1
        } else {
            0
        };
        here + successes_over(turn.scheduler, turn.slot, ticks.drop_first())
    }
}

/// Whatever was submitted, oldest first, the slot holds the newest command.
pub proof fn law_newest_submission_waits(slot: Option<CommandView>, submitted: Seq<CommandView>)
    requires
        submitted.len() > 0,
    ensures
        after_submits(slot, submitted) == Some(submitted.last()),
    decreases submitted.len(),
{
    if submitted.len() > 1 {
        law_newest_submission_waits(
            after_submit(slot, submitted.first()),
            submitted.drop_first(),
        );
    } else {
        assert(after_submits(after_submit(slot, submitted.first()), submitted.drop_first())
            == after_submit(slot, submitted.first()));
    }
}

/// At most one run is in flight. While a run is in flight, a step leaves the
/// mailbox as the producers left it, so a command submitted meanwhile waits;
/// and the run in flight after the step, if there is one, is the same run
/// one answer further, never a second one.
pub proof fn law_single_flight(scheduler: SchedulerView, slot: Option<CommandView>, tick: Tick)
    requires
        scheduler.phase is Running,
    ensures
        tick_of(scheduler, slot, tick).slot == after_submits(slot, tick.submitted),
        !(tick_of(scheduler, slot, tick).scheduler.phase is Resting),
        tick_of(scheduler, slot, tick).scheduler.phase matches PhaseView::Running { run } ==> run
            == step_of(scheduler.phase->run, tick.event),
{
}

/// The next run begins only after the current one returned: a step drains
/// the mailbox only at rest, and a run that is in flight after a step was
/// either in flight before it or was begun at rest from the command that
/// waited in the mailbox.
pub proof fn law_run_begins_at_rest(
    scheduler: SchedulerView,
    slot: Option<CommandView>,
    event: EventView,
)
    ensures
        turn_of(scheduler, slot, event).slot != slot ==> scheduler.phase is Resting,
        turn_of(scheduler, slot, event).scheduler.phase matches PhaseView::Running { run }
            ==> scheduler.phase is Running || (scheduler.phase is Resting && begun_from(
            slot,
            run,
        )),
{
}

/// The counter moves on success only: a step that closes a successful run
/// counts it, by exactly one unless the counter is full; every other step
/// leaves the counter as it was; and a step that closes a failed run
/// records its error.
pub proof fn law_counter_moves_on_success_only(
    scheduler: SchedulerView,
    slot: Option<CommandView>,
    event: EventView,
)
    ensures
        turn_of(scheduler, slot, event).scheduler.runs >= scheduler.runs,
        closes_success(turn_of(scheduler, slot, event).action) ==> turn_of(
            scheduler,
            slot,
            event,
        ).scheduler.runs == bumped(scheduler.runs),
        !closes_success(turn_of(scheduler, slot, event).action) ==> turn_of(
            scheduler,
            slot,
            event,
        ).scheduler.runs == scheduler.runs,
        turn_of(scheduler, slot, event).action matches ActionView::Finish { outcome: Err(error) }
            ==> turn_of(scheduler, slot, event).scheduler.last_error == Some(error),
{
}

/// The counter never falls.
pub proof fn law_counter_never_falls(
    scheduler: SchedulerView,
    slot: Option<CommandView>,
    ticks: Seq<Tick>,
)
    ensures
        scheduler_after(scheduler, slot, ticks).runs >= scheduler.runs,
    decreases ticks.len(),
{
    if ticks.len() > 0 {
        let turn = tick_of(scheduler, slot, ticks.first());
        law_counter_never_falls(turn.scheduler, turn.slot, ticks.drop_first());
    }
}

/// The counter counts the successes: over any beats it rises by exactly the
/// number of runs that ended in success, as long as that fits the counter.
pub proof fn law_counter_counts_successes(
    scheduler: SchedulerView,
    slot: Option<CommandView>,
    ticks: Seq<Tick>,
)
    requires
        scheduler.runs + successes_over(scheduler, slot, ticks) <= u64::MAX,
    ensures
        scheduler_after(scheduler, slot, ticks).runs == scheduler.runs + successes_over(
            scheduler,
            slot,
            ticks,
        ),
    decreases ticks.len(),
{
    if ticks.len() > 0 {
        let tick = ticks.first();
        let turn = tick_of(scheduler, slot, tick);
        law_counter_moves_on_success_only(
            scheduler,
            after_submits(slot, tick.submitted),
            tick.event,
        );
        law_counter_counts_successes(turn.scheduler, turn.slot, ticks.drop_first());
    }
}

/// No hidden state is carried between runs: two schedulers in the same
/// phase, given the same mailbox and the same beats, ask for the same
/// actions, end in the same phase with the same mailbox and see the same
/// runs succeed, whatever each had counted and recorded before.
pub proof fn law_runs_ignore_history(
    one: SchedulerView,
    other: SchedulerView,
    slot: Option<CommandView>,
    ticks: Seq<Tick>,
)
    requires
        one.phase == other.phase,
    ensures
        asked_over(one, slot, ticks) == asked_over(other, slot, ticks),
        scheduler_after(one, slot, ticks).phase == scheduler_after(other, slot, ticks).phase,
        slot_after(one, slot, ticks) == slot_after(other, slot, ticks),
        successes_over(one, slot, ticks) == successes_over(other, slot, ticks),
    decreases ticks.len(),
{
    if ticks.len() > 0 {
        let a = tick_of(one, slot, ticks.first());
        let b = tick_of(other, slot, ticks.first());
        assert(a.scheduler.phase == b.scheduler.phase);
        assert(a.slot == b.slot);
        assert(a.action == b.action);
        law_runs_ignore_history(a.scheduler, b.scheduler, a.slot, ticks.drop_first());
    }
}

/// The same request has the same outcome: `Start` for one image, taken up
/// at rest and answered by the same events, leads through the same actions
/// to the same final `Finish`, however many runs went before.
pub proof fn law_same_request_same_outcome(
    one: SchedulerView,
    other: SchedulerView,
    image: Seq<char>,
    ticks: Seq<Tick>,
)
    requires
        one.phase is Resting,
        other.phase is Resting,
    ensures
        asked_over(one, Some(CommandView::Start(image)), ticks) == asked_over(
            other,
            Some(CommandView::Start(image)),
            ticks,
        ),
        successes_over(one, Some(CommandView::Start(image)), ticks) == successes_over(
            other,
            Some(CommandView::Start(image)),
            ticks,
        ),
{
    law_runs_ignore_history(one, other, Some(CommandView::Start(image)), ticks);
}

/// A failed run ends only itself: after it the scheduler closes, rests and
/// looks into the mailbox again.
pub proof fn law_failure_ends_only_the_run(
    scheduler: SchedulerView,
    slot: Option<CommandView>,
    error: PipelineError,
    first: EventView,
    second: EventView,
)
    requires
        scheduler.phase == (PhaseView::Closing { outcome: Err(error) }),
    ensures
        turn_of(scheduler, slot, first).scheduler.phase is Resting,
        turn_of(scheduler, slot, first).slot == slot,
        turn_of(turn_of(scheduler, slot, first).scheduler, slot, second).slot is None,
        slot is Some ==> turn_of(
            turn_of(scheduler, slot, first).scheduler,
            slot,
            second,
        ).scheduler.phase != (PhaseView::Resting),
{
}

} // verus!
