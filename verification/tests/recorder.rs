use echo_voice::recorder::AudioRecordingManager;

#[test]
fn second_start_is_refused_and_the_session_is_untouched() {
    let mut manager: AudioRecordingManager<i16> = AudioRecordingManager::new();
    assert!(manager.try_start_recording("transcribe", true));
    manager.capture(&vec![1, 2, 3]);
    assert!(!manager.try_start_recording("other", true));
    assert!(!manager.try_start_recording("transcribe", true));
    assert_eq!(manager.active_binding, Some("transcribe".to_string()));
    assert_eq!(manager.samples, vec![1, 2, 3]);
    assert_eq!(manager.stop_recording("transcribe"), Some(vec![1, 2, 3]));
}

#[test]
fn start_fails_without_a_device() {
    let mut manager: AudioRecordingManager<i16> = AudioRecordingManager::new();
    assert!(!manager.try_start_recording("transcribe", false));
    assert!(!manager.is_recording());
    assert!(manager.try_start_recording("transcribe", true));
    assert!(manager.is_recording());
}

#[test]
fn stop_with_another_binding_is_a_no_op() {
    let mut manager: AudioRecordingManager<i16> = AudioRecordingManager::new();
    assert_eq!(manager.stop_recording("transcribe"), None);
    assert!(manager.try_start_recording("transcribe", true));
    manager.capture(&vec![9]);
    assert_eq!(manager.stop_recording("test"), None);
    assert!(manager.is_recording());
    assert_eq!(manager.samples, vec![9]);
    assert_eq!(manager.stop_recording("transcribe"), Some(vec![9]));
    assert!(!manager.is_recording());
    assert!(manager.samples.is_empty());
    assert_eq!(manager.stop_recording("transcribe"), None);
}

#[test]
fn capture_outside_a_session_is_dropped() {
    let mut manager: AudioRecordingManager<i16> = AudioRecordingManager::new();
    manager.capture(&vec![1, 2]);
    assert!(manager.samples.is_empty());
    assert!(manager.try_start_recording("a", true));
    manager.capture(&vec![3]);
    manager.capture(&vec![4, 5]);
    assert_eq!(manager.samples, vec![3, 4, 5]);
}

#[test]
fn mute_does_not_touch_the_captured_stream() {
    let mut manager: AudioRecordingManager<i16> = AudioRecordingManager::new();
    manager.apply_mute();
    assert!(!manager.muted);
    assert!(manager.try_start_recording("a", true));
    manager.capture(&vec![1]);
    manager.apply_mute();
    assert!(manager.muted);
    manager.capture(&vec![2]);
    manager.remove_mute();
    assert!(!manager.muted);
    manager.capture(&vec![3]);
    assert_eq!(manager.stop_recording("a"), Some(vec![1, 2, 3]));
}

#[test]
fn cancel_discards_what_was_captured() {
    let mut manager: AudioRecordingManager<i16> = AudioRecordingManager::new();
    assert!(manager.try_start_recording("a", true));
    manager.capture(&vec![1, 2, 3]);
    manager.apply_mute();
    manager.cancel_recording();
    assert!(!manager.is_recording());
    assert!(manager.samples.is_empty());
    assert!(!manager.muted);
    assert_eq!(manager.stop_recording("a"), None);
    assert!(manager.try_start_recording("b", true));
    assert!(manager.samples.is_empty());
}

#[test]
fn a_new_session_starts_empty() {
    let mut manager: AudioRecordingManager<i16> = AudioRecordingManager::new();
    assert!(manager.try_start_recording("a", true));
    manager.capture(&vec![1]);
    assert_eq!(manager.stop_recording("a"), Some(vec![1]));
    assert!(manager.try_start_recording("a", true));
    assert_eq!(manager.stop_recording("a"), Some(vec![]));
}
