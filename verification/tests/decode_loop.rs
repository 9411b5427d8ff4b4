use echo_voice::audio::decode::{
    decode_route, open_failure, plan_wav_decode, require_file, select_track, track_parameters, DecodeError, DecodeSession,
    DecodeStep, FrameDecode, PacketRead, TrackParameters, WavDecodePlan, WavSampleKind,
    MAX_CONSECUTIVE_ERRORS, TARGET_SAMPLE_RATE,
};
use echo_voice::audio::format::{AudioFormat, DecodeRoute};
use echo_voice::audio::resample::{ResampleDecision, ResamplePlan};

fn corrupt(session: &mut DecodeSession<i16>, n: usize) -> DecodeStep {
    let mut last = DecodeStep::ReadPacket;
    for _ in 0..n {
        assert_eq!(session.on_packet(PacketRead::Packet), DecodeStep::DecodePacket);
        last = session.on_frame(FrameDecode::Corrupt("bad frame".to_string()));
        if last != DecodeStep::ReadPacket {
            break;
        }
    }
    last
}

#[test]
fn forty_nine_corrupt_frames_then_valid_frames_succeed() {
    let mut session: DecodeSession<i16> = DecodeSession::new();
    assert_eq!(corrupt(&mut session, 49), DecodeStep::ReadPacket);
    assert_eq!(session.consecutive_errors, 49);
    assert_eq!(session.on_packet(PacketRead::Packet), DecodeStep::DecodePacket);
    assert_eq!(session.on_frame(FrameDecode::Decoded(vec![1, 2, 3])), DecodeStep::ReadPacket);
    assert_eq!(session.consecutive_errors, 0);
    assert_eq!(session.on_packet(PacketRead::EndOfStream), DecodeStep::Finish);
    let audio = session
        .finish(TrackParameters { sample_rate: 16000, channels: 1 })
        .expect("audio");
    assert_eq!(audio.samples, vec![1, 2, 3]);
    assert_eq!(audio.skipped_frames, 49);
    assert!(!audio.needs_downmix());
    assert!(!audio.needs_resample());
}

#[test]
fn fifty_corrupt_frames_abort() {
    let mut session: DecodeSession<i16> = DecodeSession::new();
    assert_eq!(
        corrupt(&mut session, 50),
        DecodeStep::Abort(DecodeError::TooManyDecodeErrors("bad frame".to_string()))
    );
}

#[test]
fn limit_of_failures_in_a_row_is_fifty() {
    assert_eq!(MAX_CONSECUTIVE_ERRORS, 50);
    assert_eq!(TARGET_SAMPLE_RATE, 16000);
}

#[test]
fn a_decoded_frame_ends_the_row_of_failures() {
    let mut session: DecodeSession<i16> = DecodeSession::new();
    assert_eq!(corrupt(&mut session, 30), DecodeStep::ReadPacket);
    assert_eq!(session.on_frame(FrameDecode::Decoded(vec![7])), DecodeStep::ReadPacket);
    assert_eq!(corrupt(&mut session, 49), DecodeStep::ReadPacket);
    assert_eq!(session.skipped_frames, 79);
    assert_eq!(session.samples, vec![7]);
}

#[test]
fn reading_a_packet_does_not_end_the_row_of_failures() {
    let mut session: DecodeSession<i16> = DecodeSession::new();
    assert_eq!(corrupt(&mut session, 10), DecodeStep::ReadPacket);
    assert_eq!(session.on_packet(PacketRead::Packet), DecodeStep::DecodePacket);
    assert_eq!(session.consecutive_errors, 10);
}

#[test]
fn fiftieth_failed_read_aborts() {
    let mut session: DecodeSession<u8> = DecodeSession::new();
    for _ in 0..49 {
        assert_eq!(
            session.on_packet(PacketRead::Failed("io".to_string())),
            DecodeStep::ReadPacket
        );
    }
    assert_eq!(
        session.on_packet(PacketRead::Failed("last".to_string())),
        DecodeStep::Abort(DecodeError::TooManyReadErrors("last".to_string()))
    );
}

#[test]
fn failed_reads_and_failed_frames_count_together() {
    let mut session: DecodeSession<u8> = DecodeSession::new();
    for _ in 0..25 {
        assert_eq!(session.on_packet(PacketRead::Failed("r".to_string())), DecodeStep::ReadPacket);
    }
    for _ in 0..24 {
        assert_eq!(session.on_frame(FrameDecode::Failed("f".to_string())), DecodeStep::ReadPacket);
    }
    assert_eq!(session.skipped_frames, 0);
    assert_eq!(
        session.on_frame(FrameDecode::Failed("f".to_string())),
        DecodeStep::Abort(DecodeError::TooManyDecodeErrors("f".to_string()))
    );
}

#[test]
fn reset_requests_are_answered() {
    let mut session: DecodeSession<u8> = DecodeSession::new();
    assert_eq!(session.on_packet(PacketRead::ResetRequired), DecodeStep::ReadPacket);
    assert_eq!(session.on_frame(FrameDecode::ResetRequired), DecodeStep::ResetDecoder);
    assert_eq!(session.consecutive_errors, 0);
}

#[test]
fn unsupported_sample_format_aborts() {
    let mut session: DecodeSession<u8> = DecodeSession::new();
    assert_eq!(
        session.on_frame(FrameDecode::UnsupportedSampleFormat),
        DecodeStep::Abort(DecodeError::UnsupportedSampleFormat)
    );
}

#[test]
fn a_run_without_samples_is_an_error() {
    let mut session: DecodeSession<u8> = DecodeSession::new();
    assert_eq!(session.on_packet(PacketRead::EndOfStream), DecodeStep::Finish);
    let outcome = session.finish(TrackParameters { sample_rate: 44100, channels: 2 });
    assert!(matches!(outcome, Err(DecodeError::NoAudioDecoded)));
}

#[test]
fn finished_audio_keeps_the_track_parameters() {
    let mut session: DecodeSession<u8> = DecodeSession::new();
    session.on_frame(FrameDecode::Decoded(vec![1, 2]));
    session.on_frame(FrameDecode::Decoded(vec![3, 4]));
    let audio = session.finish(TrackParameters { sample_rate: 44100, channels: 2 }).expect("audio");
    assert_eq!(audio.samples, vec![1, 2, 3, 4]);
    assert_eq!(audio.channels, 2);
    assert_eq!(audio.sample_rate, 44100);
    assert!(audio.needs_downmix());
    assert!(audio.needs_resample());
}

#[test]
fn first_track_with_a_codec_is_selected() {
    assert_eq!(select_track(&vec![true, false, false]), Ok(1));
    assert_eq!(select_track(&vec![false]), Ok(0));
    assert_eq!(select_track(&vec![true, true]), Err(DecodeError::NoAudioTrack));
    assert_eq!(select_track(&vec![]), Err(DecodeError::NoAudioTrack));
}

#[test]
fn track_needs_a_sample_rate_and_defaults_to_mono() {
    assert_eq!(
        track_parameters(Some(48000), None),
        Ok(TrackParameters { sample_rate: 48000, channels: 1 })
    );
    assert_eq!(
        track_parameters(Some(8000), Some(6)),
        Ok(TrackParameters { sample_rate: 8000, channels: 6 })
    );
    assert_eq!(track_parameters(None, Some(2)), Err(DecodeError::MissingSampleRate));
}

#[test]
fn formats_go_to_their_decoders() {
    assert_eq!(decode_route(AudioFormat::Wav), Ok(DecodeRoute::Wav));
    assert_eq!(decode_route(AudioFormat::Mp3), Ok(DecodeRoute::Demuxer));
    assert_eq!(decode_route(AudioFormat::M4a), Ok(DecodeRoute::Demuxer));
    assert_eq!(decode_route(AudioFormat::Ogg), Ok(DecodeRoute::Demuxer));
    assert_eq!(decode_route(AudioFormat::Video), Ok(DecodeRoute::Transcoder));
    assert_eq!(decode_route(AudioFormat::Unsupported), Err(DecodeError::UnsupportedFormat));
}

#[test]
fn decode_error_messages() {
    assert_eq!(
        DecodeError::UnsupportedFormat.message(),
        "Unsupported file format. Please provide an audio file (wav, mp3, m4a, ogg) or a video file with an audio track (mp4, mov, mkv, webm)."
    );
    assert_eq!(DecodeError::FileNotFound("/a.wav".to_string()).message(), "File not found: /a.wav");
    assert_eq!(DecodeError::OpenFailed("denied".to_string()).message(), "Failed to open file: denied");
    assert_eq!(DecodeError::NoAudioTrack.message(), "No valid audio track found");
    assert_eq!(DecodeError::MissingSampleRate.message(), "Missing sample rate");
    assert_eq!(
        DecodeError::TooManyReadErrors("x".to_string()).message(),
        "Too many consecutive errors reading packets: x"
    );
    assert_eq!(
        DecodeError::TooManyDecodeErrors("y".to_string()).message(),
        "Too many consecutive decode errors: y"
    );
    assert_eq!(DecodeError::UnsupportedSampleFormat.message(), "Unsupported audio format");
    assert_eq!(
        DecodeError::NoAudioDecoded.message(),
        "No audio could be decoded from file. The file may be corrupted or use an unsupported codec."
    );
    assert_eq!(
        DecodeError::TranscoderNotFound.message(),
        "FFmpeg not found. Please install FFmpeg to process video files.\nOn macOS: brew install ffmpeg\nOn Windows: Download from https://ffmpeg.org/download.html"
    );
    assert_eq!(
        DecodeError::TranscoderFailed("boom".to_string()).message(),
        "FFmpeg failed to extract audio: boom"
    );
    assert!(DecodeError::TranscoderSilent.message().starts_with("FFmpeg produced no audio"));
    assert_eq!(
        DecodeError::ResamplerFailed("Sample rate must be larger than zero".to_string()).message(),
        "Sample rate must be larger than zero"
    );
}

#[test]
fn wav_plan_for_cd_audio() {
    let plan = plan_wav_decode(WavSampleKind::Int, 16, 2, 44100, 88200).expect("plan");
    assert_eq!(
        plan_wav_decode(WavSampleKind::Int, 16, 2, 44100, 5).expect("plan").resample,
        ResampleDecision::Resample(ResamplePlan {
            from_rate: 44100,
            to_rate: 16000,
            input_len: 3,
            chunk_size: 3,
            expected_output: 2,
        })
    );
    assert_eq!(
        plan,
        WavDecodePlan {
            divisor: Some(32768),
            downmix: true,
            resample: ResampleDecision::Resample(ResamplePlan {
                from_rate: 44100,
                to_rate: 16000,
                input_len: 44100,
                chunk_size: 4096,
                expected_output: 16000,
            }),
        }
    );
}

#[test]
fn wav_plan_for_target_format_changes_nothing() {
    let plan = plan_wav_decode(WavSampleKind::Int, 16, 1, 16000, 100).expect("plan");
    assert_eq!(
        plan,
        WavDecodePlan { divisor: Some(32768), downmix: false, resample: ResampleDecision::Unchanged }
    );
    let float = plan_wav_decode(WavSampleKind::Float, 32, 1, 16000, 100).expect("plan");
    assert_eq!(float.divisor, None);
}

#[test]
fn wav_plan_turns_down_odd_headers() {
    let odd = Err(DecodeError::UnsupportedSampleFormat);
    assert_eq!(plan_wav_decode(WavSampleKind::Int, 0, 1, 16000, 1), odd);
    assert_eq!(plan_wav_decode(WavSampleKind::Int, 33, 1, 16000, 1), odd);
    assert_eq!(plan_wav_decode(WavSampleKind::Int, 16, 0, 16000, 1), odd);
    assert_eq!(plan_wav_decode(WavSampleKind::Int, 16, 0, 0, 0), odd);
    assert!(plan_wav_decode(WavSampleKind::Float, 64, 1, 16000, 1).is_ok());
}

#[test]
fn wav_plan_turns_down_a_file_without_a_rate() {
    assert_eq!(
        plan_wav_decode(WavSampleKind::Int, 16, 1, 0, 10),
        Err(DecodeError::MissingSampleRate)
    );
    assert_eq!(
        plan_wav_decode(WavSampleKind::Float, 32, 2, 0, 0),
        Err(DecodeError::MissingSampleRate)
    );
}

#[test]
fn wav_plan_turns_down_a_file_without_samples() {
    assert_eq!(
        plan_wav_decode(WavSampleKind::Int, 16, 1, 16000, 0),
        Err(DecodeError::NoAudioDecoded)
    );
    assert_eq!(
        plan_wav_decode(WavSampleKind::Float, 32, 2, 44100, 0),
        Err(DecodeError::NoAudioDecoded)
    );
    assert!(plan_wav_decode(WavSampleKind::Int, 16, 1, 16000, 1).is_ok());
}

#[test]
fn a_missing_file_is_an_error() {
    assert_eq!(require_file("/a.wav", true), Ok(()));
    assert_eq!(require_file("/a.wav", false), Err(DecodeError::FileNotFound("/a.wav".to_string())));
    assert_eq!(
        open_failure("/a.wav", "permission denied"),
        DecodeError::OpenFailed("/a.wav: permission denied".to_string())
    );
}
