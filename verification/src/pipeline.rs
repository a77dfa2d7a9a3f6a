use vstd::prelude::*;

use crate::command::{Command, CommandView};
use crate::error::{Outcome, PipelineError};
use crate::telemetry::{decode_chunk, decoded};

verus! {

/// Identifier of the chip every run attaches to.
pub const TARGET_CHIP: &'static str = "rp2040";

/// Which of the enumerated probes a run opens.
pub const PROBE_INDEX: usize = 0;

/// The logical core that is reset, run, read through and halted.
pub const CORE_INDEX: usize = 0;

/// The telemetry up-channel that is read.
pub const TELEMETRY_CHANNEL: usize = 0;

/// Most bytes asked of the telemetry channel in one read.
pub const READ_CAPACITY: usize = 1024;

/// Number of rounds of the telemetry capture loop.
pub const CAPTURE_ROUNDS: u32 = 10;

/// Seconds slept at the end of each capture round.
pub const CAPTURE_PAUSE_SECS: u64 = 5;

/// Seconds the halt request may take.
pub const HALT_TIMEOUT_SECS: u64 = 5;

/// Binary format of a firmware image.
#[derive(Debug, Clone, Copy, PartialEq, Eq, Structural)]
pub enum ImageFormat {
    Elf,
}

/// One operation for the host to carry out against the probe backend. The
/// host answers each action with exactly one [`Event`].
#[derive(Debug, PartialEq, Eq)]
pub enum Action {
    /// Enumerate the connected probes. Answer: `Event::Probes`.
    ListProbes,
    /// Open the enumerated probe at `index`.
    OpenProbe { index: usize },
    /// Attach to the chip named `chip` with the backend's default permissions.
    Attach { chip: &'static str },
    /// Write `image`, a file in `format`, to the target.
    Flash { image: String, format: ImageFormat },
    /// Select core `core` and open the telemetry channel on it.
    OpenTelemetry { core: usize },
    /// Reset the target.
    Reset,
    /// Let the target run.
    Run,
    /// Read at most `capacity` bytes from telemetry up-channel `channel`.
    /// Answer: `Event::Telemetry`, `Event::NoChannel` or `Event::Failed`.
    ReadTelemetry { channel: usize, capacity: usize },
    /// Log `text`, a chunk of decoded telemetry.
    Report { text: String },
    /// Sleep for `seconds`.
    Pause { seconds: u64 },
    /// Halt the core, waiting at most `timeout_secs`. Answer: `Event::Done`,
    /// `Event::TimedOut` or `Event::Failed`.
    Halt { timeout_secs: u64 },
    /// The run is over with `outcome`: release the probe session.
    Finish { outcome: Outcome },
}

/// The mathematical value of an [`Action`].
pub enum ActionView {
    ListProbes,
    OpenProbe { index: nat },
    Attach { chip: Seq<char> },
    Flash { image: Seq<char>, format: ImageFormat },
    OpenTelemetry { core: nat },
    Reset,
    Run,
    ReadTelemetry { channel: nat, capacity: nat },
    Report { text: Seq<char> },
    Pause { seconds: nat },
    Halt { timeout_secs: nat },
    Finish { outcome: Outcome },
}

impl View for Action {
    type V = ActionView;

    open spec fn view(&self) -> ActionView {
        match self {
            Action::ListProbes => ActionView::ListProbes,
            Action::OpenProbe { index } => ActionView::OpenProbe { index: *index as nat },
            Action::Attach { chip } => ActionView::Attach { chip: chip@ },
            Action::Flash { image, format } => ActionView::Flash { image: image@, format: *format },
            Action::OpenTelemetry { core } => ActionView::OpenTelemetry { core: *core as nat },
            Action::Reset => ActionView::Reset,
            Action::Run => ActionView::Run,
            Action::ReadTelemetry { channel, capacity } => ActionView::ReadTelemetry {
                channel: *channel as nat,
                capacity: *capacity as nat,
            },
            Action::Report { text } => ActionView::Report { text: text@ },
            Action::Pause { seconds } => ActionView::Pause { seconds: *seconds as nat },
            Action::Halt { timeout_secs } => ActionView::Halt { timeout_secs: *timeout_secs as nat },
            Action::Finish { outcome } => ActionView::Finish { outcome: *outcome },
        }
    }
}

/// How the host's last action went.
#[derive(Debug, PartialEq, Eq)]
pub enum Event {
    /// Enumeration found `count` probes.
    Probes { count: usize },
    /// The action was carried out.
    Done,
    /// The action failed.
    Failed,
    /// The action did not complete in the time it was given.
    TimedOut,
    /// A telemetry read returned `bytes`; none when nothing was waiting.
    Telemetry { bytes: Vec<u8> },
    /// The target offers no telemetry channel of the number asked for.
    NoChannel,
}

/// The mathematical value of an [`Event`].
pub enum EventView {
    Probes { count: nat },
    Done,
    Failed,
    TimedOut,
    Telemetry { bytes: Seq<u8> },
    NoChannel,
}

impl View for Event {
    type V = EventView;

    open spec fn view(&self) -> EventView {
        match self {
            Event::Probes { count } => EventView::Probes { count: *count as nat },
            Event::Done => EventView::Done,
            Event::Failed => EventView::Failed,
            Event::TimedOut => EventView::TimedOut,
            Event::Telemetry { bytes } => EventView::Telemetry { bytes: bytes@ },
            Event::NoChannel => EventView::NoChannel,
        }
    }
}

impl Clone for Action {
    fn clone(&self) -> (copy: Action)
        ensures
            copy@ == self@,
    {
        match self {
            Action::ListProbes => Action::ListProbes,
            Action::OpenProbe { index } => Action::OpenProbe { index: *index },
            Action::Attach { chip } => Action::Attach { chip: *chip },
            Action::Flash { image, format } => Action::Flash {
                image: image.clone(),
                format: *format,
            },
            Action::OpenTelemetry { core } => Action::OpenTelemetry { core: *core },
            Action::Reset => Action::Reset,
            Action::Run => Action::Run,
            Action::ReadTelemetry { channel, capacity } => Action::ReadTelemetry {
                channel: *channel,
                capacity: *capacity,
            },
            Action::Report { text } => Action::Report { text: text.clone() },
            Action::Pause { seconds } => Action::Pause { seconds: *seconds },
            Action::Halt { timeout_secs } => Action::Halt { timeout_secs: *timeout_secs },
            Action::Finish { outcome } => Action::Finish { outcome: *outcome },
        }
    }
}

impl Clone for Event {
    fn clone(&self) -> (copy: Event)
        ensures
            copy@ == self@,
    {
        match self {
            Event::Probes { count } => Event::Probes { count: *count },
            Event::Done => Event::Done,
            Event::Failed => Event::Failed,
            Event::TimedOut => Event::TimedOut,
            Event::Telemetry { bytes } => {
                let copied = bytes.clone();
                assert(copied@ =~= bytes@);
                Event::Telemetry { bytes: copied }
            },
            Event::NoChannel => Event::NoChannel,
        }
    }
}

/// Where a run stands: each stage waits for the answer to one action.
pub enum StageView {
    Listing,
    Opening,
    Attaching,
    Flashing,
    OpeningTelemetry,
    Resetting,
    Starting,
    /// Reading the channel, with `rounds_left` capture rounds to go, this one
    /// included.
    Reading { rounds_left: nat },
    /// Reporting what this round read.
    Reporting { rounds_left: nat, text: Seq<char> },
    /// Sleeping at the end of this round.
    Pausing { rounds_left: nat },
    Halting,
    Finished { outcome: Outcome },
}

/// The mathematical value of a [`Pipeline`]: its stage and the image it was
/// started for (empty for a run that was started by `Stop`).
pub struct PipelineView {
    pub stage: StageView,
    pub image: Seq<char>,
}

/// The stage after an action that just has to succeed: `next` if it did, the
/// end of the run with `error` on any other answer.
pub open spec fn done_or(event: EventView, next: StageView, error: PipelineError) -> StageView {
    if event is Done {
        next
    } else {
        StageView::Finished { outcome: Err(error) }
    }
}

/// The stage that follows a completed pause: the next round's read, or the
/// halt once no round is left.
pub open spec fn after_pause(rounds_left: nat) -> StageView {
    if rounds_left <= 1 {
        StageView::Halting
    } else {
        StageView::Reading { rounds_left: (rounds_left - 1) as nat }
    }
}

/// The stage that follows `stage` when the host answers with `event`.
///
/// An answer other than the success that a stage waits for ends the run with
/// that stage's error. A halt that times out and a halt that fails are told
/// apart. A report and a pause cannot fail: any answer moves on. A finished
/// run stays finished.
pub open spec fn next_stage(stage: StageView, event: EventView) -> StageView {
    match stage {
        StageView::Listing => match event {
            EventView::Probes { count } => if count > 0 {
                StageView::Opening
            } else {
                StageView::Finished { outcome: Err(PipelineError::NoProbeFound) }
            },
            _ => StageView::Finished { outcome: Err(PipelineError::NoProbeFound) },
        },
        StageView::Opening => done_or(event, StageView::Attaching, PipelineError::ProbeOpenError),
        StageView::Attaching => done_or(event, StageView::Flashing, PipelineError::AttachError),
        StageView::Flashing => done_or(
            event,
            StageView::OpeningTelemetry,
            PipelineError::FlashError,
        ),
        StageView::OpeningTelemetry => done_or(
            event,
            StageView::Resetting,
            PipelineError::TelemetryAttachError,
        ),
        StageView::Resetting => done_or(
            event,
            StageView::Starting,
            PipelineError::TargetControlError,
        ),
        StageView::Starting => done_or(
            event,
            StageView::Reading { rounds_left: CAPTURE_ROUNDS as nat },
            PipelineError::TargetControlError,
        ),
        StageView::Reading { rounds_left } => match event {
            EventView::Telemetry { bytes } => match decoded(bytes) {
                Ok(text) => StageView::Reporting { rounds_left, text },
                Err(error) => StageView::Finished { outcome: Err(error) },
            },
            EventView::NoChannel => StageView::Pausing { rounds_left },
            _ => StageView::Finished { outcome: Err(PipelineError::TelemetryReadError) },
        },
        StageView::Reporting { rounds_left, text } => StageView::Pausing { rounds_left },
        StageView::Pausing { rounds_left } => after_pause(rounds_left),
        StageView::Halting => match event {
            EventView::Done => StageView::Finished { outcome: Ok(()) },
            EventView::TimedOut => StageView::Finished { outcome: Err(PipelineError::HaltTimeout) },
            _ => StageView::Finished { outcome: Err(PipelineError::TargetControlError) },
        },
        StageView::Finished { outcome } => stage,
    }
}

/// The run after the host answered with `event`.
pub open spec fn step_of(pipeline: PipelineView, event: EventView) -> PipelineView {
    PipelineView { stage: next_stage(pipeline.stage, event), image: pipeline.image }
}

/// The run that `command` starts. `Stop` starts a run that is over at once,
/// with success.
pub open spec fn start_of(command: CommandView) -> PipelineView {
    match command {
        CommandView::Start(image) => PipelineView { stage: StageView::Listing, image },
        CommandView::Stop => PipelineView {
            stage: StageView::Finished { outcome: Ok(()) },
            image: Seq::empty(),
        },
    }
}

/// The action that a run waits on.
pub open spec fn pending_of(pipeline: PipelineView) -> ActionView {
    match pipeline.stage {
        StageView::Listing => ActionView::ListProbes,
        StageView::Opening => ActionView::OpenProbe { index: PROBE_INDEX as nat },
        StageView::Attaching => ActionView::Attach { chip: TARGET_CHIP@ },
        StageView::Flashing => ActionView::Flash {
            image: pipeline.image,
            format: ImageFormat::Elf,
        },
        StageView::OpeningTelemetry => ActionView::OpenTelemetry { core: CORE_INDEX as nat },
        StageView::Resetting => ActionView::Reset,
        StageView::Starting => ActionView::Run,
        StageView::Reading { rounds_left } => ActionView::ReadTelemetry {
            channel: TELEMETRY_CHANNEL as nat,
            capacity: READ_CAPACITY as nat,
        },
        StageView::Reporting { rounds_left, text } => ActionView::Report { text },
        StageView::Pausing { rounds_left } => ActionView::Pause {
            seconds: CAPTURE_PAUSE_SECS as nat,
        },
        StageView::Halting => ActionView::Halt { timeout_secs: HALT_TIMEOUT_SECS as nat },
        StageView::Finished { outcome } => ActionView::Finish { outcome },
    }
}

impl PipelineView {
    /// A run in the capture loop has between one round and all rounds to go.
    pub open spec fn wf(self) -> bool {
        match self.stage {
            StageView::Reading { rounds_left } => 1 <= rounds_left <= CAPTURE_ROUNDS,
            StageView::Reporting { rounds_left, text } => 1 <= rounds_left <= CAPTURE_ROUNDS,
            StageView::Pausing { rounds_left } => 1 <= rounds_left <= CAPTURE_ROUNDS,
            _ => true,
        }
    }

    /// How the run ended, if it is over.
    pub open spec fn outcome(self) -> Option<Outcome> {
        match self.stage {
            StageView::Finished { outcome } => Some(outcome),
            _ => None,
        }
    }
}

enum Stage {
    Listing,
    Opening,
    Attaching,
    Flashing,
    OpeningTelemetry,
    Resetting,
    Starting,
    Reading { rounds_left: u32 },
    Reporting { rounds_left: u32, text: String },
    Pausing { rounds_left: u32 },
    Halting,
    Finished { outcome: Outcome },
}

impl View for Stage {
    type V = StageView;

    closed spec fn view(&self) -> StageView {
        match self {
            Stage::Listing => StageView::Listing,
            Stage::Opening => StageView::Opening,
            Stage::Attaching => StageView::Attaching,
            Stage::Flashing => StageView::Flashing,
            Stage::OpeningTelemetry => StageView::OpeningTelemetry,
            Stage::Resetting => StageView::Resetting,
            Stage::Starting => StageView::Starting,
            Stage::Reading { rounds_left } => StageView::Reading {
                rounds_left: *rounds_left as nat,
            },
            Stage::Reporting { rounds_left, text } => StageView::Reporting {
                rounds_left: *rounds_left as nat,
                text: text@,
            },
            Stage::Pausing { rounds_left } => StageView::Pausing {
                rounds_left: *rounds_left as nat,
            },
            Stage::Halting => StageView::Halting,
            Stage::Finished { outcome } => StageView::Finished { outcome: *outcome },
        }
    }
}

/// One flash-and-monitor run, as a machine that the host drives: it asks for
/// one [`Action`] at a time and moves on the [`Event`] that answers it.
///
/// A run goes through enumerate, open, attach, flash, open telemetry, reset
/// and run; then through `CAPTURE_ROUNDS` rounds of read, report and pause;
/// then halts. The first failure ends it. Nothing is retried and nothing is
/// rolled back.
pub struct Pipeline {
    stage: Stage,
    image: String,
}

impl View for Pipeline {
    type V = PipelineView;

    closed spec fn view(&self) -> PipelineView {
        PipelineView { stage: self.stage@, image: self.image@ }
    }
}

/// The exec form of `done_or`.
fn stage_done_or(event: &Event, next: Stage, error: PipelineError) -> (stage: Stage)
    ensures
        stage@ == done_or(event@, next@, error),
{
    match event {
        Event::Done => next,
        _ => Stage::Finished { outcome: Err(error) },
    }
}

impl Pipeline {
    /// Begins the run that `command` asks for and says what to do first.
    pub fn start(command: Command) -> (begun: (Pipeline, Action))
        ensures
            begun.0@ == start_of(command@),
            begun.0@.wf(),
            begun.1@ == pending_of(begun.0@),
    {
        let pipeline = match command {
            Command::Start(image) => Pipeline { stage: Stage::Listing, image },
            Command::Stop => Pipeline {
                stage: Stage::Finished { outcome: Ok(()) },
                image: String::new(),
            },
        };
        let action = pipeline.pending();
        (pipeline, action)
    }

    /// Takes the host's answer to the pending action and says what to do
    /// next.
    pub fn step(self, event: Event) -> (stepped: (Pipeline, Action))
        ensures
            stepped.0@ == step_of(self@, event@),
            self@.wf() ==> stepped.0@.wf(),
            stepped.1@ == pending_of(stepped.0@),
    {
        let Pipeline { stage, image } = self;
        let next = match stage {
            Stage::Listing => match event {
                Event::Probes { count } => if count > 0 {
                    Stage::Opening
                } else {
                    Stage::Finished { outcome: Err(PipelineError::NoProbeFound) }
                },
                _ => Stage::Finished { outcome: Err(PipelineError::NoProbeFound) },
            },
            Stage::Opening => stage_done_or(
                &event,
                Stage::Attaching,
                PipelineError::ProbeOpenError,
            ),
            Stage::Attaching => stage_done_or(&event, Stage::Flashing, PipelineError::AttachError),
            Stage::Flashing => stage_done_or(
                &event,
                Stage::OpeningTelemetry,
                PipelineError::FlashError,
            ),
            Stage::OpeningTelemetry => stage_done_or(
                &event,
                Stage::Resetting,
                PipelineError::TelemetryAttachError,
            ),
            Stage::Resetting => stage_done_or(
                &event,
                Stage::Starting,
                PipelineError::TargetControlError,
            ),
            Stage::Starting => stage_done_or(
                &event,
                Stage::Reading { rounds_left: CAPTURE_ROUNDS },
                PipelineError::TargetControlError,
            ),
            Stage::Reading { rounds_left } => match event {
                Event::Telemetry { bytes } => match decode_chunk(bytes.as_slice()) {
                    Ok(text) => Stage::Reporting { rounds_left, text },
                    Err(error) => Stage::Finished { outcome: Err(error) },
                },
                Event::NoChannel => Stage::Pausing { rounds_left },
                _ => Stage::Finished { outcome: Err(PipelineError::TelemetryReadError) },
            },
            Stage::Reporting { rounds_left, text } => Stage::Pausing { rounds_left },
            Stage::Pausing { rounds_left } => if rounds_left <= 1 {
                Stage::Halting
            } else {
                Stage::Reading { rounds_left: rounds_left - 1 }
            },
            Stage::Halting => match event {
                Event::Done => Stage::Finished { outcome: Ok(()) },
                Event::TimedOut => Stage::Finished { outcome: Err(PipelineError::HaltTimeout) },
                _ => Stage::Finished { outcome: Err(PipelineError::TargetControlError) },
            },
            Stage::Finished { outcome } => Stage::Finished { outcome },
        };
        let pipeline = Pipeline { stage: next, image };
        let action = pipeline.pending();
        (pipeline, action)
    }

    /// The action that the run waits on. For a finished run that is the
    /// final `Finish`.
    pub fn pending(&self) -> (action: Action)
        ensures
            action@ == pending_of(self@),
    {
        match &self.stage {
            Stage::Listing => Action::ListProbes,
            Stage::Opening => Action::OpenProbe { index: PROBE_INDEX },
            Stage::Attaching => Action::Attach { chip: TARGET_CHIP },
            Stage::Flashing => Action::Flash { image: self.image.clone(), format: ImageFormat::Elf },
            Stage::OpeningTelemetry => Action::OpenTelemetry { core: CORE_INDEX },
            Stage::Resetting => Action::Reset,
            Stage::Starting => Action::Run,
            Stage::Reading { rounds_left } => Action::ReadTelemetry {
                channel: TELEMETRY_CHANNEL,
                capacity: READ_CAPACITY,
            },
            Stage::Reporting { rounds_left, text } => Action::Report { text: text.clone() },
            Stage::Pausing { rounds_left } => Action::Pause { seconds: CAPTURE_PAUSE_SECS },
            Stage::Halting => Action::Halt { timeout_secs: HALT_TIMEOUT_SECS },
            Stage::Finished { outcome } => Action::Finish { outcome: *outcome },
        }
    }

    /// How the run ended; nothing while it is still under way.
    pub fn outcome(&self) -> (outcome: Option<Outcome>)
        ensures
            outcome == self@.outcome(),
    {
        match &self.stage {
            Stage::Finished { outcome } => Some(*outcome),
            _ => None,
        }
    }

    /// The image reference that the run was started for.
    pub fn image(&self) -> (image: &str)
        ensures
            image@ == self@.image,
    {
        self.image.as_str()
    }
}

} // verus!
