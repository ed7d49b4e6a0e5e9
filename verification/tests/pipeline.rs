use tts_pipeline::global::TTS_TEXT_HELLO;
use tts_pipeline::pipeline::Pipeline;
use tts_pipeline::server::{handle_tts, TtsRequest};
use tts_pipeline::tts::PullOutcome;
use tts_pipeline::volume::VolumeState;

#[test]
fn boot_greeting_reaches_both_channels_exactly_once() {
    let mut p = Pipeline::new();
    p.startup();
    assert_eq!(p.synth_queue.len(), 1);
    assert_eq!(p.display_queue.len(), 1);
    assert_eq!(p.audio_queue.len(), 0);
    assert_eq!(p.synth_queue.try_recv().unwrap(), TTS_TEXT_HELLO);
    assert_eq!(p.display_queue.try_recv().unwrap(), TTS_TEXT_HELLO);
    assert!(p.synth_queue.try_recv().is_none());
    assert!(p.display_queue.try_recv().is_none());
}

#[test]
fn a_request_flows_from_api_to_playback() {
    let mut p = Pipeline::new();
    let req = TtsRequest { text: "say this".to_string() };
    let r = handle_tts(20, Some(req), &mut p.synth_queue, &mut p.display_queue);
    assert_eq!(r.status, 200);

    let pulls = vec![
        PullOutcome { len: 1, data: 1000i16.to_le_bytes().to_vec() },
        PullOutcome { len: 0, data: vec![] },
    ];
    let spoken = p.synthesis_step(true, pulls);
    assert_eq!(spoken.unwrap(), "say this");
    assert_eq!(p.audio_queue.len(), 1);

    let mut vol = VolumeState::new();
    vol.increment();
    let out = p.audio_step(&vol);
    assert_eq!(out.unwrap(), 2000i16.to_le_bytes().to_vec());
    assert!(p.audio_queue.is_empty());

    let shown = p.display_step();
    assert_eq!(shown.unwrap(), "say this");
}

#[test]
fn synthesis_step_with_no_request_changes_nothing() {
    let mut p = Pipeline::new();
    let r = p.synthesis_step(true, vec![]);
    assert!(r.is_none());
    assert!(p.synth_queue.is_empty());
    assert!(p.audio_queue.is_empty());
}

#[test]
fn parse_failure_in_the_pipeline_yields_no_audio() {
    let mut p = Pipeline::new();
    p.submit_text("unpronounceable".to_string());
    let pulls = vec![PullOutcome { len: 2, data: vec![1, 2, 3, 4] }];
    let spoken = p.synthesis_step(false, pulls);
    assert_eq!(spoken.unwrap(), "unpronounceable");
    assert!(p.audio_queue.is_empty());
}

#[test]
fn audio_step_on_empty_queue_is_none() {
    let mut p = Pipeline::new();
    let vol = VolumeState::new();
    assert!(p.audio_step(&vol).is_none());
}
