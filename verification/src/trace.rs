use vstd::prelude::*;
use vstd::utf8::valid_utf8;

use crate::command::CommandView;
use crate::error::PipelineError;
use crate::pipeline::{
    pending_of, start_of, step_of, ActionView, EventView, PipelineView, StageView,
    CAPTURE_PAUSE_SECS, CAPTURE_ROUNDS, HALT_TIMEOUT_SECS,
};

verus! {

/// The run after the host answered with `events`, one after the other.
pub open spec fn run_of(pipeline: PipelineView, events: Seq<EventView>) -> PipelineView
    decreases events.len(),
{
    if events.len() == 0 {
        pipeline
    } else {
        run_of(step_of(pipeline, events.first()), events.drop_first())
    }
}

/// The actions that the run asks for while it is answered with `events`: the
/// pending one first, then the one after each answer.
pub open spec fn asked_in(pipeline: PipelineView, events: Seq<EventView>) -> Seq<ActionView>
    decreases events.len(),
{
    if events.len() == 0 {
        seq![pending_of(pipeline)]
    } else {
        seq![pending_of(pipeline)] + asked_in(
            step_of(pipeline, events.first()),
            events.drop_first(),
        )
    }
}

/// The seconds that `action` sleeps.
pub open spec fn pause_secs(action: ActionView) -> nat {
    match action {
        ActionView::Pause { seconds } => seconds,
        _ => 0,
    }
}

/// The seconds slept in the pauses that `events` answer.
pub open spec fn paused_in(pipeline: PipelineView, events: Seq<EventView>) -> nat
    decreases events.len(),
{
    if events.len() == 0 {
        0
    } else {
        pause_secs(pending_of(pipeline)) + paused_in(
            step_of(pipeline, events.first()),
            events.drop_first(),
        )
    }
}

/// The rounds that a capture stage still owes, at least one.
pub open spec fn rounds_owed(rounds_left: nat) -> nat {
    if rounds_left == 0 {
        1
    } else {
        rounds_left
    }
}

/// The most answers a run at `stage` can still take before it is over.
pub open spec fn steps_left(stage: StageView) -> nat {
    match stage {
        StageView::Listing => steps_left_before_capture() + 7,
        StageView::Opening => steps_left_before_capture() + 6,
        StageView::Attaching => steps_left_before_capture() + 5,
        StageView::Flashing => steps_left_before_capture() + 4,
        StageView::OpeningTelemetry => steps_left_before_capture() + 3,
        StageView::Resetting => steps_left_before_capture() + 2,
        StageView::Starting => steps_left_before_capture() + 1,
        StageView::Reading { rounds_left } => 3 * rounds_owed(rounds_left) + 1,
        StageView::Reporting { rounds_left, text } => 3 * rounds_owed(rounds_left),
        StageView::Pausing { rounds_left } => (3 * rounds_owed(rounds_left) - 1) as nat,
        StageView::Halting => 1,
        StageView::Finished { outcome } => 0,
    }
}

/// The most answers the whole capture and the halt can take: three for
/// each round, and one for the halt.
pub open spec fn steps_left_before_capture() -> nat {
    3 * (CAPTURE_ROUNDS as nat) + 1
}

/// The most answers any run takes from its start to its end.
pub open spec fn most_steps() -> nat {
    steps_left(StageView::Listing)
}

/// The seconds of pause that a well-formed run at `stage` can still make.
pub open spec fn pause_budget(stage: StageView) -> nat {
    match stage {
        StageView::Reading { rounds_left } => CAPTURE_PAUSE_SECS as nat * rounds_left,
        StageView::Reporting { rounds_left, text } => CAPTURE_PAUSE_SECS as nat * rounds_left,
        StageView::Pausing { rounds_left } => CAPTURE_PAUSE_SECS as nat * rounds_left,
        StageView::Halting => 0,
        StageView::Finished { outcome } => 0,
        _ => capture_ceiling(),
    }
}

/// The wall-clock ceiling of the capture loop: every round's pause.
pub open spec fn capture_ceiling() -> nat {
    CAPTURE_ROUNDS as nat * CAPTURE_PAUSE_SECS as nat
}

/// Whether `stage` is one of the capture loop.
pub open spec fn capturing(stage: StageView) -> bool {
    stage is Reading || stage is Reporting || stage is Pausing
}

/// An answer to a read that brings no data: the channel is not there, or
/// nothing was waiting in it.
pub open spec fn no_data(event: EventView) -> bool {
    match event {
        EventView::NoChannel => true,
        EventView::Telemetry { bytes } => bytes.len() == 0,
        _ => false,
    }
}

/// Whether every read of the run is answered without data while `events`
/// answer it.
pub open spec fn reads_silent(pipeline: PipelineView, events: Seq<EventView>) -> bool
    decreases events.len(),
{
    if events.len() == 0 {
        true
    } else {
        &&& pipeline.stage is Reading ==> no_data(events.first())
        &&& reads_silent(step_of(pipeline, events.first()), events.drop_first())
    }
}

/// The most answers a capture stage takes until the halt is asked.
pub open spec fn steps_to_halt(stage: StageView) -> nat {
    match stage {
        StageView::Reading { rounds_left } => 3 * rounds_owed(rounds_left),
        StageView::Reporting { rounds_left, text } => (3 * rounds_owed(rounds_left) - 1) as nat,
        StageView::Pausing { rounds_left } => (3 * rounds_owed(rounds_left) - 2) as nat,
        _ => 0,
    }
}

/// The halt request of every run.
pub open spec fn halt_request() -> ActionView {
    ActionView::Halt { timeout_secs: HALT_TIMEOUT_SECS as nat }
}

/// Every answer brings a run that is not over nearer to its end.
pub proof fn law_each_answer_nears_the_end(pipeline: PipelineView, event: EventView)
    requires
        pipeline.outcome() is None,
    ensures
        steps_left(step_of(pipeline, event).stage) < steps_left(pipeline.stage),
{
}

/// A finished run stays as it is, sleeps no more and asks for nothing but
/// its final `Finish`.
pub proof fn law_finished_run_is_inert(pipeline: PipelineView, events: Seq<EventView>)
    requires
        pipeline.outcome() is Some,
    ensures
        run_of(pipeline, events) == pipeline,
        paused_in(pipeline, events) == 0,
        asked_in(pipeline, events).len() == events.len() + 1,
        forall|i: int|
            0 <= i <= events.len() ==> #[trigger] asked_in(pipeline, events)[i] == pending_of(
                pipeline,
            ),
    decreases events.len(),
{
    if events.len() > 0 {
        let next = step_of(pipeline, events.first());
        assert(next == pipeline);
        law_finished_run_is_inert(pipeline, events.drop_first());
    }
}

/// No infinite wait: a run is over once it was answered as often as its
/// stage allows, whatever the answers were.
pub proof fn law_run_ends(pipeline: PipelineView, events: Seq<EventView>)
    requires
        events.len() >= steps_left(pipeline.stage),
    ensures
        run_of(pipeline, events).outcome() is Some,
    decreases events.len(),
{
    if pipeline.outcome() is Some {
        law_finished_run_is_inert(pipeline, events);
    } else {
        law_each_answer_nears_the_end(pipeline, events.first());
        law_run_ends(step_of(pipeline, events.first()), events.drop_first());
    }
}

/// Every run that a command starts is over after at most `most_steps()`
/// answers.
pub proof fn law_started_run_ends(command: CommandView, events: Seq<EventView>)
    requires
        events.len() >= most_steps(),
    ensures
        run_of(start_of(command), events).outcome() is Some,
{
    law_run_ends(start_of(command), events);
}

/// A step keeps a run well-formed.
pub proof fn law_step_keeps_wf(pipeline: PipelineView, event: EventView)
    requires
        pipeline.wf(),
    ensures
        step_of(pipeline, event).wf(),
{
}

/// The pauses that a well-formed run still makes stay within what its stage
/// allows.
proof fn lemma_pauses_within_budget(pipeline: PipelineView, events: Seq<EventView>)
    requires
        pipeline.wf(),
    ensures
        paused_in(pipeline, events) <= pause_budget(pipeline.stage),
    decreases events.len(),
{
    if events.len() > 0 {
        let next = step_of(pipeline, events.first());
        lemma_pauses_within_budget(next, events.drop_first());
        assert(pause_secs(pending_of(pipeline)) + pause_budget(next.stage) <= pause_budget(
            pipeline.stage,
        ));
    }
}

/// The capture loop has a fixed wall-clock ceiling: whatever the answers, a
/// run never sleeps longer than the round count times the pause.
pub proof fn law_pauses_are_bounded(pipeline: PipelineView, events: Seq<EventView>)
    requires
        pipeline.wf(),
    ensures
        paused_in(pipeline, events) <= capture_ceiling(),
{
    lemma_pauses_within_budget(pipeline, events);
}

/// A run that waits for the halt makes no more pauses.
proof fn lemma_no_pause_after_halt(pipeline: PipelineView, events: Seq<EventView>)
    requires
        pipeline.stage is Halting,
    ensures
        paused_in(pipeline, events) == 0,
{
    if events.len() > 0 {
        law_finished_run_is_inert(step_of(pipeline, events.first()), events.drop_first());
    }
}

/// A capture stage that reaches the halt has slept once for every round it
/// still owed.
proof fn lemma_halt_follows_all_rounds(
    pipeline: PipelineView,
    rounds_left: nat,
    events: Seq<EventView>,
)
    requires
        rounds_left >= 1,
        pipeline.stage is Reading && pipeline.stage->Reading_rounds_left == rounds_left
            || pipeline.stage is Reporting && pipeline.stage->Reporting_rounds_left == rounds_left
            || pipeline.stage is Pausing && pipeline.stage->Pausing_rounds_left == rounds_left,
        run_of(pipeline, events).stage is Halting,
    ensures
        paused_in(pipeline, events) == CAPTURE_PAUSE_SECS as nat * rounds_left,
    decreases events.len(),
{
    if events.len() > 0 {
        let next = step_of(pipeline, events.first());
        let rest = events.drop_first();
        match next.stage {
            StageView::Finished { outcome } => {
                law_finished_run_is_inert(next, rest);
            },
            StageView::Halting => {
                lemma_no_pause_after_halt(next, rest);
            },
            StageView::Reading { rounds_left: n } => {
                lemma_halt_follows_all_rounds(next, n, rest);
            },
            StageView::Reporting { rounds_left: n, text } => {
                lemma_halt_follows_all_rounds(next, n, rest);
            },
            StageView::Pausing { rounds_left: n } => {
                lemma_halt_follows_all_rounds(next, n, rest);
            },
            _ => {},
        }
    }
}

/// The capture loop always runs its full number of rounds: a run that has
/// come from the first read to the halt has slept exactly the round count
/// times the pause, whether or not any round brought data.
pub proof fn law_capture_runs_every_round(pipeline: PipelineView, events: Seq<EventView>)
    requires
        pipeline.stage == (StageView::Reading { rounds_left: CAPTURE_ROUNDS as nat }),
        run_of(pipeline, events).stage is Halting,
    ensures
        paused_in(pipeline, events) == capture_ceiling(),
{
    lemma_halt_follows_all_rounds(pipeline, CAPTURE_ROUNDS as nat, events);
}

/// A read without data never ends the run.
proof fn lemma_silent_read_goes_on(pipeline: PipelineView, event: EventView)
    requires
        pipeline.stage is Reading,
        no_data(event),
    ensures
        capturing(step_of(pipeline, event).stage),
{
    match event {
        EventView::Telemetry { bytes } => {
            assert(valid_utf8(bytes));
        },
        _ => {},
    }
}

/// A capture stage whose reads bring no data asks for the halt within the
/// answers that its rounds need.
proof fn lemma_silent_capture_asks_halt(pipeline: PipelineView, events: Seq<EventView>)
    requires
        capturing(pipeline.stage) || pipeline.stage is Halting,
        reads_silent(pipeline, events),
        events.len() >= steps_to_halt(pipeline.stage),
    ensures
        asked_in(pipeline, events).contains(halt_request()),
    decreases events.len(),
{
    let asked = asked_in(pipeline, events);
    if pipeline.stage is Halting {
        assert(asked[0] == halt_request());
    } else {
        let next = step_of(pipeline, events.first());
        let rest = events.drop_first();
        if pipeline.stage is Reading {
            lemma_silent_read_goes_on(pipeline, events.first());
        }
        lemma_silent_capture_asks_halt(next, rest);
        let later = asked_in(next, rest);
        let i = choose|i: int| 0 <= i < later.len() && later[i] == halt_request();
        assert(asked[i + 1] == later[i]);
    }
}

/// A capture stage whose reads bring no data sleeps once for every round it
/// owes, provided it is answered often enough.
proof fn lemma_silent_capture_sleeps_all(pipeline: PipelineView, events: Seq<EventView>)
    requires
        pipeline.wf(),
        capturing(pipeline.stage) || pipeline.stage is Halting,
        reads_silent(pipeline, events),
        events.len() >= steps_to_halt(pipeline.stage),
    ensures
        paused_in(pipeline, events) == pause_budget(pipeline.stage),
    decreases events.len(),
{
    if pipeline.stage is Halting {
        lemma_no_pause_after_halt(pipeline, events);
    } else {
        let next = step_of(pipeline, events.first());
        let rest = events.drop_first();
        if pipeline.stage is Reading {
            lemma_silent_read_goes_on(pipeline, events.first());
        }
        lemma_silent_capture_sleeps_all(next, rest);
    }
}

/// The capture loop ends on a silent channel: when no read of the capture
/// brings data, the run asks for the halt after at most three answers for
/// each round, and by then it has slept exactly the round count times the
/// pause.
pub proof fn law_silent_capture_ends(pipeline: PipelineView, events: Seq<EventView>)
    requires
        pipeline.stage == (StageView::Reading { rounds_left: CAPTURE_ROUNDS as nat }),
        reads_silent(pipeline, events),
        events.len() >= 3 * CAPTURE_ROUNDS,
    ensures
        asked_in(pipeline, events).contains(halt_request()),
        paused_in(pipeline, events) == capture_ceiling(),
{
    lemma_silent_capture_asks_halt(pipeline, events);
    lemma_silent_capture_sleeps_all(pipeline, events);
}

/// Fail fast on discovery: when enumeration finds no probe, the run of a
/// `Start` command is over with `NoProbeFound`, and it never asks for
/// anything but the enumeration and the final `Finish`: no probe is opened,
/// nothing is attached or flashed.
pub proof fn law_fail_fast_on_discovery(image: Seq<char>, events: Seq<EventView>)
    requires
        events.len() >= 1,
        events.first() == (EventView::Probes { count: 0 }),
    ensures
        run_of(start_of(CommandView::Start(image)), events).outcome() == Some(
            Err::<(), PipelineError>(PipelineError::NoProbeFound),
        ),
        asked_in(start_of(CommandView::Start(image)), events).len() == events.len() + 1,
        asked_in(start_of(CommandView::Start(image)), events)[0] == ActionView::ListProbes,
        forall|i: int|
            1 <= i <= events.len() ==> #[trigger] asked_in(
                start_of(CommandView::Start(image)),
                events,
            )[i] == (ActionView::Finish { outcome: Err(PipelineError::NoProbeFound) }),
{
    let begun = start_of(CommandView::Start(image));
    let ended = step_of(begun, events.first());
    let rest = events.drop_first();
    law_finished_run_is_inert(ended, rest);
    let asked = asked_in(begun, events);
    assert forall|i: int| 1 <= i <= events.len() implies #[trigger] asked[i] == (
    ActionView::Finish { outcome: Err(PipelineError::NoProbeFound) }) by {
        assert(asked[i] == asked_in(ended, rest)[i - 1]);
    }
}

} // verus!
