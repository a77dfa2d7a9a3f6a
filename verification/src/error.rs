use vstd::prelude::*;

verus! {

/// Why a pipeline run was abandoned. Each kind names the stage that failed.
#[derive(Debug, Clone, Copy, PartialEq, Eq, Structural)]
pub enum PipelineError {
    /// Probe enumeration came back empty.
    NoProbeFound,
    /// The first enumerated probe could not be opened.
    ProbeOpenError,
    /// No debug session with the target chip could be established
    /// (permission denied, protocol mismatch).
    AttachError,
    /// Writing or verifying the image failed.
    FlashError,
    /// The telemetry channel could not be established.
    TelemetryAttachError,
    /// The target refused a reset, a run or a halt request.
    TargetControlError,
    /// An established telemetry channel could not be read.
    TelemetryReadError,
    /// The telemetry bytes are not valid text.
    DecodeError,
    /// The core did not acknowledge the halt in time.
    HaltTimeout,
}

/// How a pipeline run ended.
pub type Outcome = Result<(), PipelineError>;

} // verus!
