use vstd::prelude::*;
use crate::error::TranscribeError;
use crate::pipeline::{
    initial_model, outcome, pending_spec, step_spec, ActionModel, EventModel, PipelineModel, Stage,
};
use crate::transcript::{lemma_transcript_nonempty, transcript_of};

verus! {

/// The state after taking the answers in `events`, in order.
pub open spec fn run(s: PipelineModel, events: Seq<EventModel>) -> PipelineModel
    decreases events.len(),
{
    if events.len() == 0 {
        s
    } else {
        run(step_spec(s, events[0]), events.drop_first())
    }
}

/// The requests made after each of the answers in `events`.
pub open spec fn requests(s: PipelineModel, events: Seq<EventModel>) -> Seq<ActionModel>
    decreases events.len(),
{
    if events.len() == 0 {
        Seq::empty()
    } else {
        let t = step_spec(s, events[0]);
        seq![pending_spec(t)] + requests(t, events.drop_first())
    }
}

/// The answers that fetching each of `texts` in turn gives.
pub open spec fn fetch_answers(texts: Seq<Seq<char>>) -> Seq<EventModel> {
    texts.map_values(|t: Seq<char>| EventModel::SegmentFetched(Some(t)))
}

/// What holds of every state a run can reach.
pub open spec fn reachable_inv(s: PipelineModel) -> bool {
    &&& s.total >= 0
    &&& s.stage != Stage::FetchSegments && s.stage != Stage::Done ==> s.segments.len() == 0
        && s.total == 0
    &&& s.stage == Stage::FetchSegments ==> s.segments.len() < s.total
    &&& s.stage == Stage::Done && s.failure is None ==> s.segments.len() == s.total && s.total >= 1
}

/// Once a run is done, no answer changes it and every later request is its
/// result again.
pub proof fn lemma_done_is_final(s: PipelineModel, events: Seq<EventModel>)
    requires
        s.stage == Stage::Done,
    ensures
        run(s, events) == s,
        requests(s, events).len() == events.len(),
        forall|i: int| 0 <= i < events.len() ==> #[trigger] requests(s, events)[i] == pending_spec(s),
    decreases events.len(),
{
    if events.len() > 0 {
        lemma_done_is_final(s, events.drop_first());
    }
}

/// When the model cannot be loaded the run fails with that error, and every
/// request it makes from then on is that failure: the audio is never read.
pub proof fn lemma_model_failure_reads_no_audio(rest: Seq<EventModel>)
    ensures
        ({
            let events = seq![EventModel::ModelLoaded(false)] + rest;
            &&& outcome(run(initial_model(), events)) == Err::<Seq<char>, TranscribeError>(
                TranscribeError::ModelLoad,
            )
            &&& requests(initial_model(), events).len() == events.len()
            &&& forall|i: int|
                0 <= i < events.len() ==> #[trigger] requests(initial_model(), events)[i]
                    == ActionModel::Finish(Err(TranscribeError::ModelLoad))
        }),
{
    let events = seq![EventModel::ModelLoaded(false)] + rest;
    let t = step_spec(initial_model(), events[0]);
    assert(events.drop_first() =~= rest);
    lemma_done_is_final(t, rest);
}

/// When the audio cannot be read the run fails with that error, and every
/// request it makes from then on is that failure: inference never runs.
pub proof fn lemma_audio_failure_runs_no_inference(s: PipelineModel, rest: Seq<EventModel>)
    requires
        s.stage == Stage::ReadAudio,
        s.failure is None,
    ensures
        ({
            let events = seq![EventModel::AudioRead(None)] + rest;
            &&& outcome(run(s, events)) == Err::<Seq<char>, TranscribeError>(
                TranscribeError::AudioRead,
            )
            &&& requests(s, events).len() == events.len()
            &&& forall|i: int|
                0 <= i < events.len() ==> #[trigger] requests(s, events)[i] == ActionModel::Finish(
                    Err(TranscribeError::AudioRead),
                )
        }),
{
    let events = seq![EventModel::AudioRead(None)] + rest;
    let t = step_spec(s, events[0]);
    assert(events.drop_first() =~= rest);
    lemma_done_is_final(t, rest);
}

proof fn lemma_fetch_rest(s: PipelineModel, texts: Seq<Seq<char>>)
    requires
        s.stage == Stage::FetchSegments,
        s.failure is None,
        s.segments.len() < s.total,
        s.segments.len() + texts.len() == s.total,
    ensures
        run(s, fetch_answers(texts)).stage == Stage::Done,
        run(s, fetch_answers(texts)).failure is None,
        run(s, fetch_answers(texts)).segments == s.segments + texts,
    decreases texts.len(),
{
    let events = fetch_answers(texts);
    assert(events[0] == EventModel::SegmentFetched(Some(texts[0])));
    let t = step_spec(s, events[0]);
    assert(t.segments == s.segments.push(texts[0]));
    assert(t.failure is None);
    assert(run(s, events) == run(t, events.drop_first()));
    if texts.len() == 1 {
        assert(events.drop_first() =~= Seq::<EventModel>::empty());
        assert(s.segments + texts =~= s.segments.push(texts[0]));
    } else {
        assert(events.drop_first() =~= fetch_answers(texts.drop_first()));
        lemma_fetch_rest(t, texts.drop_first());
        assert(s.segments + texts =~= s.segments.push(texts[0]) + texts.drop_first());
    }
}

/// When the model reports `texts.len()` segments and each is fetched in turn,
/// the run succeeds with those segments' texts in the order reported, each on
/// a line of its own.
pub proof fn lemma_segments_in_order(s: PipelineModel, texts: Seq<Seq<char>>)
    requires
        s.stage == Stage::CountSegments,
        s.failure is None,
        s.segments.len() == 0,
        texts.len() >= 1,
    ensures
        ({
            let events = seq![EventModel::SegmentsCounted(Some(texts.len() as int))] + fetch_answers(
                texts,
            );
            &&& run(s, events).stage == Stage::Done
            &&& outcome(run(s, events)) == Ok::<Seq<char>, TranscribeError>(transcript_of(texts))
        }),
{
    let events = seq![EventModel::SegmentsCounted(Some(texts.len() as int))] + fetch_answers(texts);
    let t = step_spec(s, events[0]);
    assert(events.drop_first() =~= fetch_answers(texts));
    lemma_fetch_rest(t, texts);
    assert(t.segments + texts =~= texts);
}

proof fn lemma_step_keeps_inv(s: PipelineModel, e: EventModel)
    requires
        reachable_inv(s),
    ensures
        reachable_inv(step_spec(s, e)),
{
}

proof fn lemma_run_keeps_inv(s: PipelineModel, events: Seq<EventModel>)
    requires
        reachable_inv(s),
    ensures
        reachable_inv(run(s, events)),
    decreases events.len(),
{
    if events.len() > 0 {
        lemma_step_keeps_inv(s, events[0]);
        lemma_run_keeps_inv(step_spec(s, events[0]), events.drop_first());
    }
}

/// Whatever the answers, a run that ends without a failure has fetched every
/// segment the model reported, at least one, and returns their transcription,
/// which is never empty; any other finished run names the stage that failed.
pub proof fn lemma_success_covers_all_segments(events: Seq<EventModel>)
    ensures
        ({
            let s = run(initial_model(), events);
            &&& s.stage == Stage::Done && s.failure is None ==> {
                &&& s.segments.len() == s.total
                &&& s.total >= 1
                &&& outcome(s) == Ok::<Seq<char>, TranscribeError>(transcript_of(s.segments))
                &&& transcript_of(s.segments).len() > 0
            }
            &&& s.stage == Stage::Done && s.failure is Some ==> outcome(s) == Err::<
                Seq<char>,
                TranscribeError,
            >(s.failure->0)
        }),
{
    lemma_run_keeps_inv(initial_model(), events);
    let s = run(initial_model(), events);
    if s.stage == Stage::Done && s.failure is None {
        lemma_transcript_nonempty(s.segments);
    }
}

} // verus!
