use vstd::prelude::*;

use crate::command::Command;
use crate::pipeline::{
    pending_of, start_of, step_of, Action, ActionView, Event, EventView, Pipeline, PipelineView,
};
use crate::trace::run_of;

verus! {

/// The values of recorded events, in order.
pub open spec fn views_of(events: Seq<Event>) -> Seq<EventView> {
    Seq::new(events.len(), |i: int| events[i]@)
}

/// The values of reported chunks, in order.
pub open spec fn texts_of(chunks: Seq<String>) -> Seq<Seq<char>> {
    Seq::new(chunks.len(), |i: int| chunks[i]@)
}

/// The chunk that `action` asks to report, if it is a report.
pub open spec fn report_of(action: ActionView) -> Seq<Seq<char>> {
    match action {
        ActionView::Report { text } => seq![text],
        _ => Seq::empty(),
    }
}

/// The telemetry chunks that the run asks to report while it is answered
/// with `events`, in order.
pub open spec fn reported_in(pipeline: PipelineView, events: Seq<EventView>) -> Seq<Seq<char>>
    decreases events.len(),
{
    if events.len() == 0 {
        Seq::empty()
    } else {
        let next = step_of(pipeline, events.first());
        report_of(pending_of(next)) + reported_in(next, events.drop_first())
    }
}

/// One more answer at the end of a trace is one more step of its run.
pub proof fn lemma_run_of_push(pipeline: PipelineView, events: Seq<EventView>, event: EventView)
    ensures
        run_of(pipeline, events.push(event)) == step_of(run_of(pipeline, events), event),
    decreases events.len(),
{
    let longer = events.push(event);
    if events.len() == 0 {
        assert(longer.drop_first() =~= events);
        assert(run_of(step_of(pipeline, event), longer.drop_first()) == step_of(pipeline, event));
    } else {
        assert(longer.drop_first() =~= events.drop_first().push(event));
        lemma_run_of_push(step_of(pipeline, events.first()), events.drop_first(), event);
    }
}

/// One more answer at the end of a trace adds what the step after it asks
/// to report.
pub proof fn lemma_reported_in_push(
    pipeline: PipelineView,
    events: Seq<EventView>,
    event: EventView,
)
    ensures
        reported_in(pipeline, events.push(event)) == reported_in(pipeline, events) + report_of(
            pending_of(step_of(run_of(pipeline, events), event)),
        ),
    decreases events.len(),
{
    let longer = events.push(event);
    if events.len() == 0 {
        assert(longer.drop_first() =~= events);
        assert(reported_in(step_of(pipeline, event), longer.drop_first()) =~= Seq::empty());
        assert(reported_in(pipeline, longer) =~= report_of(pending_of(step_of(pipeline, event))));
    } else {
        let next = step_of(pipeline, events.first());
        assert(longer.drop_first() =~= events.drop_first().push(event));
        lemma_reported_in_push(next, events.drop_first(), event);
        assert(reported_in(pipeline, longer) =~= reported_in(pipeline, events) + report_of(
            pending_of(step_of(run_of(pipeline, events), event)),
        ));
    }
}

/// Replays a recorded session without any probe: begins the run that
/// `command` asks for and answers it with `events`, one after the other.
///
/// Hands back the run as it stands after the last event, together with the
/// telemetry chunks that it asked to report, in order. These are all that can
/// be observed of a run: how it ended and what it logged.
pub fn replay(command: Command, events: &Vec<Event>) -> (replayed: (Pipeline, Vec<String>))
    ensures
        replayed.0@ == run_of(start_of(command@), views_of(events@)),
        texts_of(replayed.1@) == reported_in(start_of(command@), views_of(events@)),
{
    let ghost begun = start_of(command@);
    let ghost answers = views_of(events@);
    let (mut pipeline, first) = Pipeline::start(command);
    let mut chunks: Vec<String> = Vec::new();
    let mut i: usize = 0;
    assert(answers.take(0) =~= Seq::empty());
    assert(texts_of(chunks@) =~= Seq::empty());
    while i < events.len()
        invariant
            i <= events.len(),
            answers == views_of(events@),
            pipeline@ == run_of(begun, answers.take(i as int)),
            texts_of(chunks@) == reported_in(begun, answers.take(i as int)),
        decreases events.len() - i,
    {
        let event = events[i].clone();
        let ghost before = answers.take(i as int);
        let ghost texts = texts_of(chunks@);
        let (next, action) = pipeline.step(event);
        proof {
            lemma_run_of_push(begun, before, event@);
            lemma_reported_in_push(begun, before, event@);
            assert(answers.take(i + 1) =~= before.push(event@));
        }
        match action {
            Action::Report { text } => {
                chunks.push(text);
                assert(texts_of(chunks@) =~= texts + seq![text@]);
            },
            _ => {
                assert(texts_of(chunks@) =~= texts + Seq::empty());
            },
        }
        pipeline = next;
        i = i + 1;
    }
    assert(answers.take(i as int) =~= answers);
    (pipeline, chunks)
}

} // verus!
