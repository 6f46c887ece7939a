use vstd::prelude::*;
use vstd::string::StringExecFns;
use crate::error::TranscribeError;
use crate::pcm::{samples_of, samples_from_bytes};
use crate::transcript::transcript_of;

verus! {

/// What the pipeline is waiting for.
#[derive(Clone, Copy, Debug, PartialEq, Eq, Structural)]
pub enum Stage {
    LoadModel,
    CreateState,
    ReadAudio,
    RunInference,
    CountSegments,
    FetchSegments,
    Done,
}

/// The answer to a request of the pipeline: the outcome of the outside work
/// it asked for.
#[derive(Debug, PartialEq, Eq)]
pub enum Event {
    ModelLoaded(bool),
    StateCreated(bool),
    AudioRead(Option<Vec<u8>>),
    InferenceRan(bool),
    SegmentsCounted(Option<i32>),
    SegmentFetched(Option<String>),
}

/// An answer as a mathematical value.
pub enum EventModel {
    ModelLoaded(bool),
    StateCreated(bool),
    AudioRead(Option<Seq<u8>>),
    InferenceRan(bool),
    SegmentsCounted(Option<int>),
    SegmentFetched(Option<Seq<char>>),
}

impl View for Event {
    type V = EventModel;

    open spec fn view(&self) -> EventModel {
        match self {
            Event::ModelLoaded(ok) => EventModel::ModelLoaded(*ok),
            Event::StateCreated(ok) => EventModel::StateCreated(*ok),
            Event::AudioRead(b) => EventModel::AudioRead(
                match b {
                    Some(v) => Some(v@),
                    None => None,
                },
            ),
            Event::InferenceRan(ok) => EventModel::InferenceRan(*ok),
            Event::SegmentsCounted(n) => EventModel::SegmentsCounted(
                match n {
                    Some(k) => Some(*k as int),
                    None => None,
                },
            ),
            Event::SegmentFetched(t) => EventModel::SegmentFetched(
                match t {
                    Some(s) => Some(s@),
                    None => None,
                },
            ),
        }
    }
}

/// The outside work the pipeline asks for next, or its final result.
#[derive(Debug, PartialEq, Eq)]
pub enum Action {
    LoadModel,
    CreateState,
    ReadAudio,
    RunInference,
    CountSegments,
    FetchSegment(i32),
    Finish(Result<String, TranscribeError>),
}

/// A request as a mathematical value.
pub enum ActionModel {
    LoadModel,
    CreateState,
    ReadAudio,
    RunInference,
    CountSegments,
    FetchSegment(int),
    Finish(Result<Seq<char>, TranscribeError>),
}

impl View for Action {
    type V = ActionModel;

    open spec fn view(&self) -> ActionModel {
        match self {
            Action::LoadModel => ActionModel::LoadModel,
            Action::CreateState => ActionModel::CreateState,
            Action::ReadAudio => ActionModel::ReadAudio,
            Action::RunInference => ActionModel::RunInference,
            Action::CountSegments => ActionModel::CountSegments,
            Action::FetchSegment(i) => ActionModel::FetchSegment(*i as int),
            Action::Finish(r) => ActionModel::Finish(
                match r {
                    Ok(s) => Ok(s@),
                    Err(e) => Err(*e),
                },
            ),
        }
    }
}

/// One transcription run: which stage it is at, the samples it read, how many
/// segments the model reported, the segment texts fetched so far, and the
/// failure that ended it, if any.
pub struct Pipeline {
    stage: Stage,
    samples: Vec<i16>,
    total: i32,
    fetched: i32,
    text: String,
    failure: Option<TranscribeError>,
    segments: Ghost<Seq<Seq<char>>>,
}

/// A run as a mathematical value; the text built so far is always the
/// transcription of `segments`.
pub struct PipelineModel {
    pub stage: Stage,
    pub samples: Seq<i16>,
    pub total: int,
    pub segments: Seq<Seq<char>>,
    pub failure: Option<TranscribeError>,
}

impl View for Pipeline {
    type V = PipelineModel;

    closed spec fn view(&self) -> PipelineModel {
        PipelineModel {
            stage: self.stage,
            samples: self.samples@,
            total: self.total as int,
            segments: self.segments@,
            failure: self.failure,
        }
    }
}

/// The state a run starts in.
pub open spec fn initial_model() -> PipelineModel {
    PipelineModel {
        stage: Stage::LoadModel,
        samples: Seq::empty(),
        total: 0,
        segments: Seq::empty(),
        failure: None,
    }
}

/// The result a finished run reports.
pub open spec fn outcome(s: PipelineModel) -> Result<Seq<char>, TranscribeError> {
    match s.failure {
        Some(e) => Err(e),
        None => Ok(transcript_of(s.segments)),
    }
}

/// The request that a state makes of the outside world.
pub open spec fn pending_spec(s: PipelineModel) -> ActionModel {
    match s.stage {
        Stage::LoadModel => ActionModel::LoadModel,
        Stage::CreateState => ActionModel::CreateState,
        Stage::ReadAudio => ActionModel::ReadAudio,
        Stage::RunInference => ActionModel::RunInference,
        Stage::CountSegments => ActionModel::CountSegments,
        Stage::FetchSegments => ActionModel::FetchSegment(s.segments.len() as int),
        Stage::Done => ActionModel::Finish(outcome(s)),
    }
}

/// The run ends at once, with the given failure.
pub open spec fn failed(s: PipelineModel, e: TranscribeError) -> PipelineModel {
    PipelineModel { stage: Stage::Done, failure: Some(e), ..s }
}

/// The run goes on to the given stage.
pub open spec fn moved(s: PipelineModel, stage: Stage) -> PipelineModel {
    PipelineModel { stage, ..s }
}

/// How an answer changes the state. A run that finds no segment to fetch
/// fails at the counting stage rather than succeed with no text. An answer
/// that does not fit the stage
/// (one to another request, or any answer once the run is done) changes
/// nothing.
pub open spec fn step_spec(s: PipelineModel, e: EventModel) -> PipelineModel {
    match (s.stage, e) {
        (Stage::LoadModel, EventModel::ModelLoaded(ok)) => if ok {
            moved(s, Stage::CreateState)
        } else {
            failed(s, TranscribeError::ModelLoad)
        },
        (Stage::CreateState, EventModel::StateCreated(ok)) => if ok {
            moved(s, Stage::ReadAudio)
        } else {
            failed(s, TranscribeError::StateCreation)
        },
        (Stage::ReadAudio, EventModel::AudioRead(b)) => match b {
            Some(bytes) => PipelineModel {
                stage: Stage::RunInference,
                samples: samples_of(bytes),
                ..s
            },
            None => failed(s, TranscribeError::AudioRead),
        },
        (Stage::RunInference, EventModel::InferenceRan(ok)) => if ok {
            moved(s, Stage::CountSegments)
        } else {
            failed(s, TranscribeError::Inference)
        },
        (Stage::CountSegments, EventModel::SegmentsCounted(n)) => match n {
            Some(k) => if k <= 0 {
                failed(s, TranscribeError::SegmentCount)
            } else {
                PipelineModel { stage: Stage::FetchSegments, total: k, ..s }
            },
            None => failed(s, TranscribeError::SegmentCount),
        },
        (Stage::FetchSegments, EventModel::SegmentFetched(t)) => match t {
            Some(text) => {
                let segs = s.segments.push(text);
                PipelineModel {
                    stage: if segs.len() >= s.total {
                        Stage::Done
                    } else {
                        Stage::FetchSegments
                    },
                    segments: segs,
                    ..s
                }
            },
            None => failed(s, TranscribeError::SegmentFetch),
        },
        _ => s,
    }
}

impl Pipeline {
    pub closed spec fn wf(&self) -> bool {
        &&& self.fetched as int == self.segments@.len()
        &&& self.text@ == transcript_of(self.segments@)
        &&& 0 <= self.total
        &&& self.fetched <= self.total
        &&& self.stage == Stage::FetchSegments ==> self.fetched < self.total
        &&& self.stage != Stage::FetchSegments && self.stage != Stage::Done ==> self.fetched == 0
            && self.total == 0
    }

    /// A run that has not started: it first asks for the model.
    pub fn new() -> (r: Pipeline)
        ensures
            r.wf(),
            r@ == initial_model(),
    {
        Pipeline {
            stage: Stage::LoadModel,
            samples: Vec::new(),
            total: 0,
            fetched: 0,
            text: String::new(),
            failure: None,
            segments: Ghost(Seq::empty()),
        }
    }

    /// The stage the run is at.
    pub fn stage(&self) -> (r: Stage)
        ensures
            r == self@.stage,
    {
        self.stage
    }

    /// The samples read from the audio, which the inference runs over.
    pub fn samples(&self) -> (r: &Vec<i16>)
        ensures
            r@ == self@.samples,
    {
        &self.samples
    }

    /// The request the run makes now.
    pub fn pending(&self) -> (r: Action)
        requires
            self.wf(),
        ensures
            r@ == pending_spec(self@),
    {
        match self.stage {
            Stage::LoadModel => Action::LoadModel,
            Stage::CreateState => Action::CreateState,
            Stage::ReadAudio => Action::ReadAudio,
            Stage::RunInference => Action::RunInference,
            Stage::CountSegments => Action::CountSegments,
            Stage::FetchSegments => Action::FetchSegment(self.fetched),
            Stage::Done => match self.failure {
                Some(e) => Action::Finish(Err(e)),
                None => Action::Finish(Ok(self.text.clone())),
            },
        }
    }

    fn fail(&mut self, e: TranscribeError)
        requires
            old(self).wf(),
        ensures
            final(self).wf(),
            final(self)@ == failed(old(self)@, e),
    {
        self.stage = Stage::Done;
        self.failure = Some(e);
    }

    /// Takes the answer to the last request and returns the next request, or
    /// the run's result once it is done.
    pub fn step(&mut self, event: Event) -> (r: Action)
        requires
            old(self).wf(),
        ensures
            final(self).wf(),
            final(self)@ == step_spec(old(self)@, event@),
            r@ == pending_spec(final(self)@),
    {
        match event {
            Event::ModelLoaded(ok) => {
                if self.stage == Stage::LoadModel {
                    if ok {
                        self.stage = Stage::CreateState;
                    } else {
                        self.fail(TranscribeError::ModelLoad);
                    }
                }
            },
            Event::StateCreated(ok) => {
                if self.stage == Stage::CreateState {
                    if ok {
                        self.stage = Stage::ReadAudio;
                    } else {
                        self.fail(TranscribeError::StateCreation);
                    }
                }
            },
            Event::AudioRead(b) => {
                if self.stage == Stage::ReadAudio {
                    match b {
                        Some(bytes) => {
                            self.samples = samples_from_bytes(&bytes);
                            self.stage = Stage::RunInference;
                        },
                        None => {
                            self.fail(TranscribeError::AudioRead);
                        },
                    }
                }
            },
            Event::InferenceRan(ok) => {
                if self.stage == Stage::RunInference {
                    if ok {
                        self.stage = Stage::CountSegments;
                    } else {
                        self.fail(TranscribeError::Inference);
                    }
                }
            },
            Event::SegmentsCounted(n) => {
                if self.stage == Stage::CountSegments {
                    match n {
                        Some(k) => {
                            if k <= 0 {
                                self.fail(TranscribeError::SegmentCount);
                            } else {
                                self.total = k;
                                self.stage = Stage::FetchSegments;
                            }
                        },
                        None => {
                            self.fail(TranscribeError::SegmentCount);
                        },
                    }
                }
            },
            Event::SegmentFetched(t) => {
                if self.stage == Stage::FetchSegments {
                    match t {
                        Some(s) => {
                            let ghost segs = self.segments@.push(s@);
                            let ghost before = self.text@;
                            self.text.append(s.as_str());
                            self.text.append("\n");
                            proof {
                                reveal_strlit("\n");
                                assert(segs.drop_last() =~= self.segments@);
                                assert("\n"@ =~= seq!['\n']);
                                assert(self.text@ =~= before + s@ + seq!['\n']);
                            }
                            self.segments = Ghost(segs);
                            self.fetched = self.fetched + 1;
                            if self.fetched >= self.total {
                                self.stage = Stage::Done;
                            }
                        },
                        None => {
                            self.fail(TranscribeError::SegmentFetch);
                        },
                    }
                }
            },
        }
        self.pending()
    }
}

} // verus!
