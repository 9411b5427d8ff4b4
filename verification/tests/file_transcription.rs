use echo_voice::file_transcription::{
    audio_duration_text, check_decoded, check_transcript, completed_file_name, decode_failure,
    elapsed_text, history_title, require_file, FileTranscriptionError, FileTranscriptionProgress, ProgressAmount,
};

#[test]
fn durations_as_text() {
    assert_eq!(audio_duration_text(0), "0s");
    assert_eq!(audio_duration_text(15_999), "0s");
    assert_eq!(audio_duration_text(16_000), "1s");
    assert_eq!(audio_duration_text(16_000 * 59), "59s");
    assert_eq!(audio_duration_text(16_000 * 60), "1m 0s");
    assert_eq!(audio_duration_text(16_000 * 125 + 5), "2m 5s");
    assert_eq!(audio_duration_text(16_000 * 3600), "60m 0s");
    assert_eq!(elapsed_text(5), "5s elapsed");
    assert_eq!(elapsed_text(59), "59s elapsed");
    assert_eq!(elapsed_text(60), "1m 0s elapsed");
    assert_eq!(elapsed_text(754), "12m 34s elapsed");
}

#[test]
fn progress_reports() {
    let name = Some("talk.mp4".to_string());
    assert_eq!(
        FileTranscriptionProgress::decoding(true, &name),
        FileTranscriptionProgress {
            status: "decoding".to_string(),
            progress: ProgressAmount::Percent(0),
            message: "Extracting audio from video...".to_string(),
            file_name: name.clone(),
        }
    );
    assert_eq!(FileTranscriptionProgress::decoding(false, &None).message, "Loading audio file...");
    assert_eq!(
        FileTranscriptionProgress::transcribing(16_000 * 75, None, &name),
        FileTranscriptionProgress {
            status: "transcribing".to_string(),
            progress: ProgressAmount::Indeterminate,
            message: "Transcribing 1m 15s of audio...".to_string(),
            file_name: name.clone(),
        }
    );
    assert_eq!(
        FileTranscriptionProgress::transcribing(16_000 * 75, Some(65), &name).message,
        "Transcribing 1m 15s of audio... (1m 5s elapsed)"
    );
    assert_eq!(
        FileTranscriptionProgress::transcribing(16_000 * 9, Some(5), &name).message,
        "Transcribing 9s of audio... (5s elapsed)"
    );
    assert_eq!(
        FileTranscriptionProgress::saving(&name),
        FileTranscriptionProgress {
            status: "saving".to_string(),
            progress: ProgressAmount::Percent(90),
            message: "Saving to history...".to_string(),
            file_name: name.clone(),
        }
    );
    assert_eq!(
        FileTranscriptionProgress::complete(&name),
        FileTranscriptionProgress {
            status: "complete".to_string(),
            progress: ProgressAmount::Percent(100),
            message: "Transcription complete!".to_string(),
            file_name: name.clone(),
        }
    );
    assert_eq!(
        FileTranscriptionProgress::error("went wrong", &None),
        FileTranscriptionProgress {
            status: "error".to_string(),
            progress: ProgressAmount::Percent(0),
            message: "went wrong".to_string(),
            file_name: None,
        }
    );
}

#[test]
fn file_errors() {
    assert_eq!(
        FileTranscriptionError::FileNotFound("/x.wav".to_string()).message(),
        "File not found: /x.wav"
    );
    assert_eq!(
        decode_failure(true, "no stream".to_string()).message(),
        "Failed to extract audio: no stream. Make sure FFmpeg is installed."
    );
    assert_eq!(
        decode_failure(false, "bad header".to_string()).message(),
        "Failed to decode audio: bad header"
    );
    assert_eq!(
        FileTranscriptionError::NoAudibleContent.message(),
        "Audio file contains no audible content"
    );
    assert_eq!(
        FileTranscriptionError::TranscriptionFailed("oom".to_string()).message(),
        "Transcription failed: oom"
    );
    assert_eq!(FileTranscriptionError::NoSpeech.message(), "No speech detected in the audio");
}

#[test]
fn decoded_audio_and_transcripts_are_checked() {
    assert_eq!(check_decoded(0), Err(FileTranscriptionError::NoAudibleContent));
    assert_eq!(check_decoded(1), Ok(()));
    assert_eq!(check_transcript(Ok("hello".to_string())), Ok("hello".to_string()));
    assert_eq!(check_transcript(Ok(" hi ".to_string())), Ok(" hi ".to_string()));
    assert_eq!(check_transcript(Ok("  \n".to_string())), Err(FileTranscriptionError::NoSpeech));
    assert_eq!(check_transcript(Ok(String::new())), Err(FileTranscriptionError::NoSpeech));
    assert_eq!(
        check_transcript(Err("x".to_string())),
        Err(FileTranscriptionError::TranscriptionFailed("x".to_string()))
    );
}

#[test]
fn titles_and_names() {
    assert_eq!(history_title(Some("talk")), "File: talk");
    assert_eq!(history_title(None), "File: Uploaded File");
    assert_eq!(completed_file_name(&Some("talk.mp4".to_string())), "talk.mp4");
    assert_eq!(completed_file_name(&None), "Unknown file");
}

#[test]
fn a_file_must_be_there() {
    assert_eq!(require_file("/x.mp3", true), Ok(()));
    assert_eq!(
        require_file("/x.mp3", false),
        Err(FileTranscriptionError::FileNotFound("/x.mp3".to_string()))
    );
}
