use audio_server::config::InferenceConfig;
use audio_server::error::TranscribeError;
use audio_server::pipeline::{Action, Event, Pipeline, Stage};

fn through_inference(p: &mut Pipeline, bytes: Vec<u8>) {
    assert_eq!(p.pending(), Action::LoadModel);
    assert_eq!(p.step(Event::ModelLoaded(true)), Action::CreateState);
    assert_eq!(p.step(Event::StateCreated(true)), Action::ReadAudio);
    assert_eq!(p.step(Event::AudioRead(Some(bytes))), Action::RunInference);
    assert_eq!(p.step(Event::InferenceRan(true)), Action::CountSegments);
}

fn full_run(texts: &[&str]) -> Action {
    let mut p = Pipeline::new();
    through_inference(&mut p, vec![0, 0, 1, 0]);
    let mut last = p.step(Event::SegmentsCounted(Some(texts.len() as i32)));
    for (i, t) in texts.iter().enumerate() {
        assert_eq!(last, Action::FetchSegment(i as i32));
        last = p.step(Event::SegmentFetched(Some(t.to_string())));
    }
    last
}

#[test]
fn segments_joined_in_order_one_per_line() {
    let r = full_run(&["first", "second", "third"]);
    assert_eq!(r, Action::Finish(Ok("first\nsecond\nthird\n".to_string())));
}

#[test]
fn spoken_words_appear_in_lines() {
    let r = full_run(&[" Hello", " world."]);
    match r {
        Action::Finish(Ok(t)) => {
            let lines: Vec<&str> = t.lines().collect();
            assert_eq!(lines.len(), 2);
            assert!(lines[0].to_lowercase().contains("hello"));
            assert!(lines[1].to_lowercase().contains("world"));
        }
        other => panic!("unexpected {:?}", other),
    }
}

#[test]
fn success_with_segments_is_not_empty() {
    match full_run(&[""]) {
        Action::Finish(Ok(t)) => assert_eq!(t, "\n"),
        other => panic!("unexpected {:?}", other),
    }
}

#[test]
fn zero_segments_fail_at_counting() {
    assert_eq!(full_run(&[]), Action::Finish(Err(TranscribeError::SegmentCount)));
}

#[test]
fn negative_count_fails_at_counting() {
    let mut p = Pipeline::new();
    through_inference(&mut p, vec![0, 0]);
    assert_eq!(p.step(Event::SegmentsCounted(Some(-3))), Action::Finish(Err(TranscribeError::SegmentCount)));
    assert_eq!(p.step(Event::SegmentFetched(Some("x".to_string()))), Action::Finish(Err(TranscribeError::SegmentCount)));
}

#[test]
fn same_answers_same_transcription() {
    let a = full_run(&["one", "two"]);
    let b = full_run(&["one", "two"]);
    assert_eq!(a, b);
}

#[test]
fn model_failure_stops_before_audio() {
    let mut p = Pipeline::new();
    let r = p.step(Event::ModelLoaded(false));
    assert_eq!(r, Action::Finish(Err(TranscribeError::ModelLoad)));
    assert_eq!(p.stage(), Stage::Done);
    assert_eq!(p.step(Event::StateCreated(true)), Action::Finish(Err(TranscribeError::ModelLoad)));
    assert_eq!(
        p.step(Event::AudioRead(Some(vec![1, 2]))),
        Action::Finish(Err(TranscribeError::ModelLoad))
    );
    assert!(p.samples().is_empty());
}

#[test]
fn state_failure_is_reported() {
    let mut p = Pipeline::new();
    p.step(Event::ModelLoaded(true));
    assert_eq!(p.step(Event::StateCreated(false)), Action::Finish(Err(TranscribeError::StateCreation)));
}

#[test]
fn audio_failure_stops_before_inference() {
    let mut p = Pipeline::new();
    p.step(Event::ModelLoaded(true));
    p.step(Event::StateCreated(true));
    assert_eq!(p.step(Event::AudioRead(None)), Action::Finish(Err(TranscribeError::AudioRead)));
    assert_eq!(p.step(Event::InferenceRan(true)), Action::Finish(Err(TranscribeError::AudioRead)));
}

#[test]
fn inference_failure_is_reported() {
    let mut p = Pipeline::new();
    p.step(Event::ModelLoaded(true));
    p.step(Event::StateCreated(true));
    p.step(Event::AudioRead(Some(vec![0, 0])));
    assert_eq!(p.step(Event::InferenceRan(false)), Action::Finish(Err(TranscribeError::Inference)));
}

#[test]
fn segment_count_failure_is_reported() {
    let mut p = Pipeline::new();
    through_inference(&mut p, vec![0, 0]);
    assert_eq!(p.step(Event::SegmentsCounted(None)), Action::Finish(Err(TranscribeError::SegmentCount)));
}

#[test]
fn segment_fetch_failure_is_reported() {
    let mut p = Pipeline::new();
    through_inference(&mut p, vec![0, 0]);
    assert_eq!(p.step(Event::SegmentsCounted(Some(2))), Action::FetchSegment(0));
    assert_eq!(p.step(Event::SegmentFetched(Some("a".to_string()))), Action::FetchSegment(1));
    assert_eq!(p.step(Event::SegmentFetched(None)), Action::Finish(Err(TranscribeError::SegmentFetch)));
}

#[test]
fn audio_bytes_become_samples() {
    let mut p = Pipeline::new();
    through_inference(&mut p, vec![0x02, 0x01, 0xff, 0xff, 0x09]);
    assert_eq!(p.samples(), &vec![0x0102i16, -1]);
}

#[test]
fn answer_to_another_request_is_ignored() {
    let mut p = Pipeline::new();
    assert_eq!(p.step(Event::InferenceRan(true)), Action::LoadModel);
    assert_eq!(p.stage(), Stage::LoadModel);
    p.step(Event::ModelLoaded(true));
    assert_eq!(p.step(Event::SegmentFetched(Some("x".to_string()))), Action::CreateState);
}

#[test]
fn error_messages_name_the_stage() {
    assert_eq!(TranscribeError::ModelLoad.message(), "failed to load model");
    assert_eq!(TranscribeError::StateCreation.message(), "failed to create state");
    assert_eq!(TranscribeError::AudioRead.message(), "failed to read audio file");
    assert_eq!(TranscribeError::Inference.message(), "failed to run model");
    assert_eq!(TranscribeError::SegmentCount.message(), "failed to get number of segments");
    assert_eq!(TranscribeError::SegmentFetch.message(), "failed to get segment");
}

#[test]
fn fixed_config_values() {
    let c = InferenceConfig::fixed();
    assert_eq!(c.n_threads, 1);
    assert_eq!(c.best_of, 1);
    assert!(c.translate);
    assert_eq!(c.language, "en");
    assert!(!c.print_special && !c.print_progress && !c.print_realtime && !c.print_timestamps);
}
