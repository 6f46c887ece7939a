use vstd::prelude::*;

verus! {

/// The stage at which a transcription run failed.
#[derive(Clone, Copy, Debug, PartialEq, Eq, Structural)]
pub enum TranscribeError {
    ModelLoad,
    StateCreation,
    AudioRead,
    Inference,
    SegmentCount,
    SegmentFetch,
}

/// The text reported for each kind of failure.
pub open spec fn error_message(e: TranscribeError) -> Seq<char> {
    match e {
        TranscribeError::ModelLoad => "failed to load model"@,
        TranscribeError::StateCreation => "failed to create state"@,
        TranscribeError::AudioRead => "failed to read audio file"@,
        TranscribeError::Inference => "failed to run model"@,
        TranscribeError::SegmentCount => "failed to get number of segments"@,
        TranscribeError::SegmentFetch => "failed to get segment"@,
    }
}

impl TranscribeError {
    /// A human-readable description of the failed stage.
    pub fn message(&self) -> (r: &'static str)
        ensures
            r@ == error_message(*self),
    {
        match self {
            TranscribeError::ModelLoad => "failed to load model",
            TranscribeError::StateCreation => "failed to create state",
            TranscribeError::AudioRead => "failed to read audio file",
            TranscribeError::Inference => "failed to run model",
            TranscribeError::SegmentCount => "failed to get number of segments",
            TranscribeError::SegmentFetch => "failed to get segment",
        }
    }
}

} // verus!
