use echo_voice::audio::resample::{
    plan_resample, ChunkOutcome, ResampleDecision, ResamplePhase, ResamplePlan, ResampleSession,
    ResampleStep, MAX_CHUNK,
};

fn plan(input_len: usize, from: u32, to: u32) -> ResamplePlan {
    match plan_resample(input_len, from, to) {
        ResampleDecision::Resample(p) => p,
        other => panic!("no plan: {:?}", other),
    }
}

#[test]
fn equal_rates_leave_the_buffer_alone() {
    assert_eq!(plan_resample(1000, 16000, 16000), ResampleDecision::Unchanged);
    assert_eq!(plan_resample(0, 0, 0), ResampleDecision::Unchanged);
}

#[test]
fn zero_rates_are_turned_down() {
    assert_eq!(plan_resample(1000, 0, 16000), ResampleDecision::InvalidRate);
    assert_eq!(plan_resample(1000, 16000, 0), ResampleDecision::InvalidRate);
}

#[test]
fn chunk_size_is_bounded() {
    assert_eq!(MAX_CHUNK, 4096);
    assert_eq!(plan(100, 44100, 16000).chunk_size, 100);
    assert_eq!(plan(4096, 44100, 16000).chunk_size, 4096);
    assert_eq!(plan(4097, 44100, 16000).chunk_size, 4096);
    assert_eq!(plan(0, 44100, 16000).chunk_size, 0);
}

#[test]
fn expected_output_is_the_scaled_length_rounded_up() {
    assert_eq!(plan(48000, 48000, 16000).expected_output, 16000);
    assert_eq!(plan(44100, 44100, 16000).expected_output, 16000);
    assert_eq!(plan(10, 48000, 16000).expected_output, 4);
    assert_eq!(plan(16000, 16000, 48000).expected_output, 48000);
    assert_eq!(plan(1, 44100, 16000).expected_output, 1);
    assert_eq!(plan(0, 44100, 16000).expected_output, 0);
    assert_eq!(plan(usize::MAX, 1, 2).expected_output, usize::MAX);
}

#[test]
fn round_trip_keeps_the_length_within_the_ratio() {
    for (n, from, to) in [(48000usize, 48000u32, 16000u32), (44100, 44100, 16000), (12345, 8000, 16000), (7, 48000, 16000)] {
        let there = plan(n, from, to).expected_output;
        let back = plan(there, to, from).expected_output;
        assert!(back >= n);
        assert!(back <= n + (from / to) as usize + 1);
        assert!(back.abs_diff(n) <= MAX_CHUNK);
    }
}

#[test]
fn chunks_tile_the_input_then_the_resampler_is_flushed() {
    let (mut session, first) = ResampleSession::<i16>::begin(plan(10000, 48000, 16000));
    assert_eq!(first, ResampleStep::Feed { start: 0, end: 4096 });
    assert_eq!(
        session.advance(ChunkOutcome::Produced(vec![1, 2])),
        ResampleStep::Feed { start: 4096, end: 8192 }
    );
    assert_eq!(
        session.advance(ChunkOutcome::Produced(vec![])),
        ResampleStep::Feed { start: 8192, end: 10000 }
    );
    assert_eq!(session.advance(ChunkOutcome::Produced(vec![3])), ResampleStep::Flush);
    assert_eq!(session.phase, ResamplePhase::Flushing);
    assert_eq!(session.advance(ChunkOutcome::Produced(vec![4, 5])), ResampleStep::Flush);
    assert_eq!(session.advance(ChunkOutcome::Produced(vec![])), ResampleStep::Done);
    assert_eq!(session.output, vec![1, 2, 3, 4, 5]);
    assert_eq!(session.advance(ChunkOutcome::Produced(vec![9])), ResampleStep::Done);
    assert_eq!(session.output, vec![1, 2, 3, 4, 5]);
}

#[test]
fn a_failed_chunk_ends_the_feeding() {
    let (mut session, first) = ResampleSession::<i16>::begin(plan(10000, 48000, 16000));
    assert_eq!(first, ResampleStep::Feed { start: 0, end: 4096 });
    assert_eq!(session.advance(ChunkOutcome::Failed), ResampleStep::Flush);
    assert_eq!(session.offset, 0);
    assert_eq!(session.advance(ChunkOutcome::Failed), ResampleStep::Done);
    assert!(session.output.is_empty());
}

#[test]
fn empty_input_is_flushed_at_once() {
    let (mut session, first) = ResampleSession::<i16>::begin(plan(0, 48000, 16000));
    assert_eq!(first, ResampleStep::Flush);
    assert_eq!(session.step(), ResampleStep::Flush);
    assert_eq!(session.advance(ChunkOutcome::Produced(vec![])), ResampleStep::Done);
}

#[test]
fn short_input_is_one_chunk() {
    let (mut session, first) = ResampleSession::<i16>::begin(plan(100, 8000, 16000));
    assert_eq!(first, ResampleStep::Feed { start: 0, end: 100 });
    assert_eq!(session.advance(ChunkOutcome::Produced(vec![0; 200])), ResampleStep::Flush);
    assert_eq!(session.output.len(), 200);
}
