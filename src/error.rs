use vstd::prelude::*;

verus! {

/// Why a capture or recording session could not be brought up.
#[derive(Debug, Clone, Copy, PartialEq, Eq, Structural)]
pub enum CaptureError {
    /// The element chain could not be built.
    PipelineConstruction,
    /// The engine refused to bring the pipeline to the playing state.
    StateTransition,
    /// The chosen source does not exist or is busy.
    DeviceUnavailable,
    /// No usable format could be agreed on the sink.
    FormatNegotiation,
    /// A recording is already running for this stream.
    AlreadyRecording,
}

} // verus!
