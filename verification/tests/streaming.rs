use echo_voice::streaming::{
    StreamingState, MIN_PARTIAL_SAMPLES, MIN_STREAMING_SAMPLES, PARTIAL_INTERVAL_MS,
    TARGET_TRANSCRIPTION_MS,
};

#[test]
fn streaming_constants() {
    assert_eq!(PARTIAL_INTERVAL_MS, 500);
    assert_eq!(MIN_PARTIAL_SAMPLES, 16000);
    assert_eq!(MIN_STREAMING_SAMPLES, 80000);
    assert_eq!(TARGET_TRANSCRIPTION_MS, 800);
}

#[test]
fn chunks_are_appended_and_attempts_are_throttled() {
    let mut state: StreamingState<i16> = StreamingState::new(0);
    assert_eq!(state.handle_streaming_chunk(&vec![1; 20000], 500), None);
    assert_eq!(state.buffer.len(), 20000);
    assert_eq!(state.last_partial_update, 0);
    let window = state.handle_streaming_chunk(&vec![2; 10], 501).expect("window");
    assert_eq!(window.len(), 20010);
    assert_eq!(state.last_partial_update, 501);
    assert!(state.in_progress);
}

#[test]
fn less_than_a_second_of_audio_is_not_transcribed() {
    let mut state: StreamingState<i16> = StreamingState::new(0);
    assert_eq!(state.handle_streaming_chunk(&vec![1; 15999], 1000), None);
    assert_eq!(state.last_partial_update, 1000);
    assert!(!state.in_progress);
    let window = state.handle_streaming_chunk(&vec![1; 1], 1501).expect("window");
    assert_eq!(window.len(), 16000);
}

#[test]
fn a_tick_during_a_running_transcription_is_dropped() {
    let mut state: StreamingState<i16> = StreamingState::new(0);
    assert!(state.handle_streaming_chunk(&vec![1; 16000], 600).is_some());
    assert_eq!(state.handle_streaming_chunk(&vec![1; 16000], 1200), None);
    assert_eq!(state.last_partial_update, 1200);
    assert!(state.in_progress);
    assert_eq!(state.buffer.len(), 32000);
    state.finish_partial(None);
    assert!(!state.in_progress);
    assert!(state.handle_streaming_chunk(&vec![1; 1], 1800).is_some());
}

#[test]
fn window_slides_once_a_limit_is_set() {
    let mut state: StreamingState<u32> = StreamingState::new(0);
    state.adaptive_max_samples = Some(5);
    let chunk: Vec<u32> = (0..16000).collect();
    let window = state.handle_streaming_chunk(&chunk, 501).expect("window");
    assert_eq!(window, vec![15995, 15996, 15997, 15998, 15999]);
    assert_eq!(state.adaptive_max_samples, Some(5));
}

#[test]
fn whole_buffer_is_the_window_within_the_limit() {
    let mut state: StreamingState<u32> = StreamingState::new(0);
    state.adaptive_max_samples = Some(16000);
    let chunk: Vec<u32> = (0..16000).collect();
    assert_eq!(state.handle_streaming_chunk(&chunk, 501), Some(chunk));
}

#[test]
fn first_slow_transcription_sets_the_limit() {
    let mut state: StreamingState<i16> = StreamingState::new(0);
    state.finish_partial(Some((100_000, 800)));
    assert_eq!(state.adaptive_max_samples, None);
    state.finish_partial(Some((100_000, 801)));
    assert_eq!(state.adaptive_max_samples, Some(100_000));
}

#[test]
fn first_limit_is_floored_at_five_seconds() {
    let mut state: StreamingState<i16> = StreamingState::new(0);
    state.finish_partial(Some((20_000, 5000)));
    assert_eq!(state.adaptive_max_samples, Some(80_000));
}

#[test]
fn further_slow_transcriptions_take_a_tenth_off() {
    let mut state: StreamingState<i16> = StreamingState::new(0);
    state.finish_partial(Some((100_000, 900)));
    state.finish_partial(Some((100_000, 900)));
    assert_eq!(state.adaptive_max_samples, Some(90_000));
    state.finish_partial(Some((90_000, 900)));
    assert_eq!(state.adaptive_max_samples, Some(81_000));
    state.finish_partial(Some((81_000, 900)));
    assert_eq!(state.adaptive_max_samples, Some(80_000));
    state.finish_partial(Some((80_000, 900)));
    assert_eq!(state.adaptive_max_samples, Some(80_000));
}

#[test]
fn limit_never_grows_within_a_session_and_is_lifted_by_the_next() {
    let mut state: StreamingState<i16> = StreamingState::new(0);
    let measurements = [
        (200_000usize, 100u64),
        (200_000, 1200),
        (500_000, 3000),
        (10, 900),
        (400_000, 799),
        (400_000, 100_000),
        (1, 801),
    ];
    let mut previous: Option<usize> = None;
    for m in measurements {
        state.finish_partial(Some(m));
        match (previous, state.adaptive_max_samples) {
            (None, _) => {}
            (Some(before), Some(after)) => assert!(after <= before),
            (Some(_), None) => panic!("the limit was lifted within a session"),
        }
        previous = state.adaptive_max_samples;
    }
    assert_eq!(previous, Some(131_220));
    state.start_streaming(77);
    assert_eq!(state.adaptive_max_samples, None);
    assert!(state.buffer.is_empty());
    assert_eq!(state.last_partial_update, 77);
}

#[test]
fn failed_partial_transcription_leaves_the_limit() {
    let mut state: StreamingState<i16> = StreamingState::new(0);
    state.adaptive_max_samples = Some(90_000);
    state.in_progress = true;
    state.finish_partial(None);
    assert_eq!(state.adaptive_max_samples, Some(90_000));
    assert!(!state.in_progress);
}

#[test]
fn a_clock_that_stands_still_triggers_nothing() {
    let mut state: StreamingState<i16> = StreamingState::new(1000);
    assert_eq!(state.handle_streaming_chunk(&vec![0; 20000], 900), None);
    assert_eq!(state.handle_streaming_chunk(&vec![0; 20000], 1000), None);
    assert_eq!(state.last_partial_update, 1000);
}
