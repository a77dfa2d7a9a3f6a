use flash_monitor::command::Command;
use flash_monitor::error::PipelineError;
use flash_monitor::pipeline::{
    Action, Event, ImageFormat, Pipeline, CAPTURE_PAUSE_SECS, CAPTURE_ROUNDS, CORE_INDEX,
    HALT_TIMEOUT_SECS, PROBE_INDEX, READ_CAPACITY, TARGET_CHIP, TELEMETRY_CHANNEL,
};

/// Answers the pending action with each event in turn and collects what is
/// asked after each.
fn feed(pipeline: Pipeline, events: Vec<Event>) -> (Pipeline, Vec<Action>) {
    let mut pipeline = pipeline;
    let mut asked = Vec::new();
    for event in events {
        let (next, action) = pipeline.step(event);
        pipeline = next;
        asked.push(action);
    }
    (pipeline, asked)
}

/// A run of `image` that was answered with success up to the first read.
fn at_first_read(image: &str) -> Pipeline {
    let (pipeline, _) = Pipeline::start(Command::start(image));
    let (pipeline, asked) = feed(
        pipeline,
        vec![
            Event::Probes { count: 1 },
            Event::Done,
            Event::Done,
            Event::Done,
            Event::Done,
            Event::Done,
            Event::Done,
        ],
    );
    assert_eq!(asked.last(), Some(&read_request()));
    pipeline
}

fn read_request() -> Action {
    Action::ReadTelemetry { channel: 0, capacity: 1024 }
}

fn failure(error: PipelineError) -> Action {
    Action::Finish { outcome: Err(error) }
}

#[test]
fn fixed_parameters_have_their_values() {
    assert_eq!(TARGET_CHIP, "rp2040");
    assert_eq!(PROBE_INDEX, 0);
    assert_eq!(CORE_INDEX, 0);
    assert_eq!(TELEMETRY_CHANNEL, 0);
    assert_eq!(READ_CAPACITY, 1024);
    assert_eq!(CAPTURE_ROUNDS, 10);
    assert_eq!(CAPTURE_PAUSE_SECS, 5);
    assert_eq!(HALT_TIMEOUT_SECS, 5);
}

#[test]
fn start_asks_for_the_probes_first() {
    let (pipeline, action) = Pipeline::start(Command::start("fw.elf"));
    assert_eq!(action, Action::ListProbes);
    assert_eq!(pipeline.pending(), Action::ListProbes);
    assert_eq!(pipeline.outcome(), None);
    assert_eq!(pipeline.image(), "fw.elf");
}

#[test]
fn stop_is_over_at_once_with_success() {
    let (pipeline, action) = Pipeline::start(Command::Stop);
    assert_eq!(action, Action::Finish { outcome: Ok(()) });
    assert_eq!(pipeline.outcome(), Some(Ok(())));
    assert_eq!(pipeline.image(), "");
}

#[test]
fn stages_before_the_capture_follow_in_order() {
    let (pipeline, _) = Pipeline::start(Command::start("fw.elf"));
    let (pipeline, asked) = feed(
        pipeline,
        vec![
            Event::Probes { count: 1 },
            Event::Done,
            Event::Done,
            Event::Done,
            Event::Done,
            Event::Done,
            Event::Done,
        ],
    );
    assert_eq!(
        asked,
        vec![
            Action::OpenProbe { index: 0 },
            Action::Attach { chip: "rp2040" },
            Action::Flash { image: "fw.elf".to_string(), format: ImageFormat::Elf },
            Action::OpenTelemetry { core: 0 },
            Action::Reset,
            Action::Run,
            Action::ReadTelemetry { channel: 0, capacity: 1024 },
        ]
    );
    assert_eq!(pipeline.outcome(), None);
}

#[test]
fn several_probes_open_the_first() {
    let (pipeline, _) = Pipeline::start(Command::start("fw.elf"));
    let (_, action) = pipeline.step(Event::Probes { count: 3 });
    assert_eq!(action, Action::OpenProbe { index: 0 });
}

#[test]
fn run_with_telemetry_succeeds_after_ten_rounds() {
    let mut pipeline = at_first_read("fw.elf");
    let mut reports = Vec::new();
    let mut pauses = 0;
    for round in 0..10 {
        let text = format!("tick {}\n", round);
        let (next, action) = pipeline.step(Event::Telemetry { bytes: text.clone().into_bytes() });
        assert_eq!(action, Action::Report { text: text.clone() });
        reports.push(text);
        let (next, action) = next.step(Event::Done);
        assert_eq!(action, Action::Pause { seconds: 5 });
        pauses += 1;
        let (next, action) = next.step(Event::Done);
        if round < 9 {
            assert_eq!(action, read_request());
        } else {
            assert_eq!(action, Action::Halt { timeout_secs: 5 });
        }
        pipeline = next;
    }
    assert_eq!(pauses, 10);
    assert_eq!(reports.len(), 10);
    let (pipeline, action) = pipeline.step(Event::Done);
    assert_eq!(action, Action::Finish { outcome: Ok(()) });
    assert_eq!(pipeline.outcome(), Some(Ok(())));
}

#[test]
fn no_probe_fails_fast() {
    let (pipeline, first) = Pipeline::start(Command::start("fw.elf"));
    assert_eq!(first, Action::ListProbes);
    let (pipeline, action) = pipeline.step(Event::Probes { count: 0 });
    assert_eq!(action, failure(PipelineError::NoProbeFound));
    assert_eq!(pipeline.outcome(), Some(Err(PipelineError::NoProbeFound)));
}

#[test]
fn failed_enumeration_finds_no_probe() {
    let (pipeline, _) = Pipeline::start(Command::start("fw.elf"));
    let (_, action) = pipeline.step(Event::Failed);
    assert_eq!(action, failure(PipelineError::NoProbeFound));
}

#[test]
fn probe_that_does_not_open_is_a_probe_open_error() {
    let (pipeline, _) = Pipeline::start(Command::start("fw.elf"));
    let (_, asked) = feed(pipeline, vec![Event::Probes { count: 1 }, Event::Failed]);
    assert_eq!(asked[1], failure(PipelineError::ProbeOpenError));
}

#[test]
fn failed_attach_is_an_attach_error() {
    let (pipeline, _) = Pipeline::start(Command::start("fw.elf"));
    let (pipeline, asked) =
        feed(pipeline, vec![Event::Probes { count: 1 }, Event::Done, Event::Failed]);
    assert_eq!(asked[2], failure(PipelineError::AttachError));
    assert_eq!(pipeline.outcome(), Some(Err(PipelineError::AttachError)));
}

#[test]
fn failed_flash_is_a_flash_error() {
    let (pipeline, _) = Pipeline::start(Command::start("missing.elf"));
    let (_, asked) = feed(
        pipeline,
        vec![Event::Probes { count: 1 }, Event::Done, Event::Done, Event::Failed],
    );
    assert_eq!(
        asked[2],
        Action::Flash { image: "missing.elf".to_string(), format: ImageFormat::Elf }
    );
    assert_eq!(asked[3], failure(PipelineError::FlashError));
}

#[test]
fn missing_telemetry_is_a_telemetry_attach_error() {
    let (pipeline, _) = Pipeline::start(Command::start("fw.elf"));
    let (_, asked) = feed(
        pipeline,
        vec![Event::Probes { count: 1 }, Event::Done, Event::Done, Event::Done, Event::Failed],
    );
    assert_eq!(asked[4], failure(PipelineError::TelemetryAttachError));
}

#[test]
fn failed_reset_is_a_target_control_error() {
    let (pipeline, _) = Pipeline::start(Command::start("fw.elf"));
    let (_, asked) = feed(
        pipeline,
        vec![
            Event::Probes { count: 1 },
            Event::Done,
            Event::Done,
            Event::Done,
            Event::Done,
            Event::Failed,
        ],
    );
    assert_eq!(asked[5], failure(PipelineError::TargetControlError));
}

#[test]
fn failed_run_request_is_a_target_control_error() {
    let (pipeline, _) = Pipeline::start(Command::start("fw.elf"));
    let (_, asked) = feed(
        pipeline,
        vec![
            Event::Probes { count: 1 },
            Event::Done,
            Event::Done,
            Event::Done,
            Event::Done,
            Event::Done,
            Event::Failed,
        ],
    );
    assert_eq!(asked[5], Action::Run);
    assert_eq!(asked[6], failure(PipelineError::TargetControlError));
}

#[test]
fn failed_read_is_a_telemetry_read_error() {
    let pipeline = at_first_read("fw.elf");
    let (pipeline, action) = pipeline.step(Event::Failed);
    assert_eq!(action, failure(PipelineError::TelemetryReadError));
    assert_eq!(pipeline.outcome(), Some(Err(PipelineError::TelemetryReadError)));
}

#[test]
fn bytes_that_are_not_text_are_a_decode_error() {
    let pipeline = at_first_read("fw.elf");
    let (pipeline, action) = pipeline.step(Event::Telemetry { bytes: vec![0x80, 0x81] });
    assert_eq!(action, failure(PipelineError::DecodeError));
    assert_eq!(pipeline.outcome(), Some(Err(PipelineError::DecodeError)));
}

#[test]
fn decode_error_in_a_later_round_ends_the_run() {
    let pipeline = at_first_read("fw.elf");
    let (_, asked) = feed(
        pipeline,
        vec![
            Event::Telemetry { bytes: b"ok".to_vec() },
            Event::Done,
            Event::Done,
            Event::Telemetry { bytes: vec![0xff] },
            Event::Done,
        ],
    );
    assert_eq!(asked[0], Action::Report { text: "ok".to_string() });
    assert_eq!(asked[2], read_request());
    assert_eq!(asked[3], failure(PipelineError::DecodeError));
    assert_eq!(asked[4], failure(PipelineError::DecodeError));
}

#[test]
fn halt_that_does_not_complete_is_a_halt_timeout() {
    let mut pipeline = at_first_read("fw.elf");
    for _ in 0..10 {
        let (next, _) = pipeline.step(Event::NoChannel);
        let (next, _) = next.step(Event::Done);
        pipeline = next;
    }
    assert_eq!(pipeline.pending(), Action::Halt { timeout_secs: 5 });
    let (pipeline, action) = pipeline.step(Event::TimedOut);
    assert_eq!(action, failure(PipelineError::HaltTimeout));
    assert_eq!(pipeline.outcome(), Some(Err(PipelineError::HaltTimeout)));
}

#[test]
fn refused_halt_is_a_target_control_error() {
    let mut pipeline = at_first_read("fw.elf");
    for _ in 0..10 {
        let (next, _) = pipeline.step(Event::NoChannel);
        let (next, _) = next.step(Event::Done);
        pipeline = next;
    }
    let (pipeline, action) = pipeline.step(Event::Failed);
    assert_eq!(action, failure(PipelineError::TargetControlError));
    assert_eq!(pipeline.outcome(), Some(Err(PipelineError::TargetControlError)));
}

#[test]
fn timeout_before_the_halt_is_the_failure_of_its_stage() {
    let (pipeline, _) = Pipeline::start(Command::start("fw.elf"));
    let (_, asked) = feed(
        pipeline,
        vec![Event::Probes { count: 1 }, Event::Done, Event::Done, Event::TimedOut],
    );
    assert_eq!(asked[3], failure(PipelineError::FlashError));
    let pipeline = at_first_read("fw.elf");
    let (_, action) = pipeline.step(Event::TimedOut);
    assert_eq!(action, failure(PipelineError::TelemetryReadError));
}

#[test]
fn silent_channel_still_ends_after_ten_pauses() {
    let mut pipeline = at_first_read("fw.elf");
    let mut slept = 0;
    let mut answers = 0;
    while pipeline.pending() != (Action::Halt { timeout_secs: 5 }) {
        let event = match pipeline.pending() {
            Action::ReadTelemetry { .. } => Event::NoChannel,
            Action::Pause { seconds } => {
                slept += seconds;
                Event::Done
            }
            other => panic!("unexpected action {:?}", other),
        };
        let (next, _) = pipeline.step(event);
        pipeline = next;
        answers += 1;
        assert!(answers <= 30);
    }
    assert_eq!(slept, 50);
    assert_eq!(answers, 20);
}

#[test]
fn empty_reads_are_reported_and_end_after_ten_pauses() {
    let mut pipeline = at_first_read("fw.elf");
    let mut slept = 0;
    let mut reports = 0;
    let mut answers = 0;
    while pipeline.pending() != (Action::Halt { timeout_secs: 5 }) {
        let event = match pipeline.pending() {
            Action::ReadTelemetry { .. } => Event::Telemetry { bytes: Vec::new() },
            Action::Report { text } => {
                assert_eq!(text, "");
                reports += 1;
                Event::Done
            }
            Action::Pause { seconds } => {
                slept += seconds;
                Event::Done
            }
            other => panic!("unexpected action {:?}", other),
        };
        let (next, _) = pipeline.step(event);
        pipeline = next;
        answers += 1;
        assert!(answers <= 30);
    }
    assert_eq!(slept, 50);
    assert_eq!(reports, 10);
    assert_eq!(answers, 30);
}

#[test]
fn data_does_not_end_the_capture_early() {
    let pipeline = at_first_read("fw.elf");
    let (pipeline, asked) = feed(
        pipeline,
        vec![Event::Telemetry { bytes: b"done".to_vec() }, Event::Done, Event::Done],
    );
    assert_eq!(asked[2], read_request());
    assert_eq!(pipeline.outcome(), None);
}

#[test]
fn pause_moves_on_whatever_is_answered() {
    let pipeline = at_first_read("fw.elf");
    let (_, asked) = feed(pipeline, vec![Event::NoChannel, Event::Failed]);
    assert_eq!(asked[0], Action::Pause { seconds: 5 });
    assert_eq!(asked[1], read_request());
}

#[test]
fn finished_run_stays_finished() {
    let (pipeline, _) = Pipeline::start(Command::start("fw.elf"));
    let (pipeline, asked) = feed(
        pipeline,
        vec![
            Event::Probes { count: 0 },
            Event::Done,
            Event::Probes { count: 2 },
            Event::Telemetry { bytes: b"x".to_vec() },
        ],
    );
    for action in asked {
        assert_eq!(action, failure(PipelineError::NoProbeFound));
    }
    assert_eq!(pipeline.outcome(), Some(Err(PipelineError::NoProbeFound)));
}

#[test]
fn every_run_is_over_within_thirty_eight_answers() {
    let scripts: Vec<Event> = vec![
        Event::Done,
        Event::Failed,
        Event::TimedOut,
        Event::NoChannel,
        Event::Probes { count: 1 },
        Event::Telemetry { bytes: b"z".to_vec() },
    ];
    for event in scripts {
        let (mut pipeline, _) = Pipeline::start(Command::start("fw.elf"));
        for _ in 0..38 {
            let (next, _) = pipeline.step(event.clone());
            pipeline = next;
        }
        assert!(pipeline.outcome().is_some());
    }
}

#[test]
fn longest_run_takes_thirty_eight_answers() {
    let mut pipeline = at_first_read("fw.elf");
    let mut answers = 7;
    while pipeline.outcome().is_none() {
        let event = match pipeline.pending() {
            Action::ReadTelemetry { .. } => Event::Telemetry { bytes: b"log".to_vec() },
            _ => Event::Done,
        };
        let (next, _) = pipeline.step(event);
        pipeline = next;
        answers += 1;
    }
    assert_eq!(answers, 38);
    assert_eq!(pipeline.outcome(), Some(Ok(())));
}

#[test]
fn same_image_and_same_answers_give_the_same_run() {
    let events = vec![
        Event::Probes { count: 1 },
        Event::Done,
        Event::Done,
        Event::Done,
        Event::Done,
        Event::Failed,
    ];
    let (first, _) = Pipeline::start(Command::start("fw.elf"));
    let (first, first_asked) = feed(first, events.clone());
    let (second, _) = Pipeline::start(Command::start("fw.elf"));
    let (second, second_asked) = feed(second, events);
    assert_eq!(first_asked, second_asked);
    assert_eq!(first.outcome(), second.outcome());
    assert_eq!(first.outcome(), Some(Err(PipelineError::TargetControlError)));
}
