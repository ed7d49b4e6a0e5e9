use tts_pipeline::channel::Fifo;
use tts_pipeline::pcm::{ChunkError, PcmChunk};
use tts_pipeline::tts::{engine_setup, play, step_pull, synthesize, EngineSetup, PullOutcome};

fn pull(len: i32, data: Vec<u8>) -> PullOutcome {
    PullOutcome { len, data }
}

#[test]
fn zero_length_first_pull_gives_no_chunks() {
    let chunks = synthesize(true, vec![pull(0, vec![])]);
    assert!(chunks.is_empty());
}

#[test]
fn parse_failure_drops_the_request() {
    let chunks = synthesize(false, vec![pull(2, vec![1, 2, 3, 4])]);
    assert!(chunks.is_empty());
}

#[test]
fn chunks_are_produced_until_end_of_stream() {
    let pulls = vec![
        pull(2, vec![1, 2, 3, 4]),
        pull(1, vec![5, 6]),
        pull(0, vec![]),
        pull(3, vec![7, 8, 9, 10, 11, 12]),
    ];
    let chunks = synthesize(true, pulls);
    assert_eq!(chunks.len(), 2);
    assert_eq!(chunks[0].bytes(), &vec![1, 2, 3, 4]);
    assert_eq!(chunks[1].bytes(), &vec![5, 6]);
}

#[test]
fn every_chunk_has_even_length() {
    let pulls = vec![pull(1, vec![1, 2]), pull(3, vec![3, 4, 5, 6, 7, 8]), pull(-1, vec![])];
    let chunks = synthesize(true, pulls);
    assert_eq!(chunks.len(), 2);
    for c in &chunks {
        assert_eq!(c.len() % 2, 0);
    }
}

#[test]
fn negative_pull_ends_the_stream() {
    let r = step_pull(pull(-5, vec![]));
    assert!(r.is_none());
}

#[test]
fn positive_pull_wraps_its_bytes() {
    let r = step_pull(pull(2, vec![9, 9, 9, 9])).unwrap();
    assert_eq!(r.bytes(), &vec![9, 9, 9, 9]);
}

#[test]
fn play_appends_chunks_in_production_order() {
    let mut tx: Fifo<PcmChunk> = Fifo::new();
    play(true, vec![pull(1, vec![1, 2]), pull(1, vec![3, 4]), pull(0, vec![])], &mut tx);
    assert_eq!(tx.len(), 2);
    assert_eq!(tx.try_recv().unwrap().bytes(), &vec![1, 2]);
    assert_eq!(tx.try_recv().unwrap().bytes(), &vec![3, 4]);
}

#[test]
fn odd_buffer_is_rejected_as_a_chunk() {
    let r = PcmChunk::new(vec![1, 2, 3]);
    assert!(matches!(r, Err(ChunkError::OddLength)));
}

#[test]
fn even_buffer_is_accepted_as_a_chunk() {
    let c = PcmChunk::new(vec![1, 2, 3, 4]).unwrap();
    assert_eq!(c.len(), 4);
    assert_eq!(c.into_bytes(), vec![1, 2, 3, 4]);
}

#[test]
fn missing_voice_data_restarts_the_device() {
    assert_eq!(engine_setup(false, false), EngineSetup::Restart);
    assert_eq!(engine_setup(true, false), EngineSetup::Restart);
    assert_eq!(engine_setup(false, true), EngineSetup::Restart);
    assert_eq!(engine_setup(true, true), EngineSetup::Ready);
}
