//! Decoding decisions: what a file's format asks for, how the frame loop
//! reacts to each packet and frame, and when decoding is given up.
//!
//! Reading packets and decoding frames is the caller's work; this module
//! decides, after each outcome, what happens next.

use crate::audio::format::{AudioFormat, DecodeRoute};
use crate::buffers::extend_copy;
use crate::audio::pcm::{frame_count, lemma_frame_count, wav_int_divisor};
use crate::audio::resample::{plan_resample, planned_resample, ResampleDecision};
use vstd::arithmetic::power2::pow2;
use crate::text::{concat, copy_str};
use vstd::prelude::*;

verus! {

/// The sample rate that transcription works at.
pub const TARGET_SAMPLE_RATE: u32 = 16000;

/// How many failures in a row end the decoding.
pub const MAX_CONSECUTIVE_ERRORS: u32 = 50;

/// Why a file could not be decoded.
#[derive(Clone, Debug, PartialEq, Eq)]
pub enum DecodeError {
    /// No file at the path given.
    FileNotFound(String),
    /// The extension is none of the supported ones.
    UnsupportedFormat,
    /// The file could not be opened or probed; the text says why.
    OpenFailed(String),
    /// No track with a decodable codec.
    NoAudioTrack,
    /// The track does not state its sample rate.
    MissingSampleRate,
    /// Too many packets in a row could not be read; the text is the last reason.
    TooManyReadErrors(String),
    /// Too many frames in a row could not be decoded; the text is the last reason.
    TooManyDecodeErrors(String),
    /// The decoder handed out samples in an encoding that is not handled.
    UnsupportedSampleFormat,
    /// Decoding ended without a single sample.
    NoAudioDecoded,
    /// The external transcoder is not installed.
    TranscoderNotFound,
    /// The external transcoder could not be run, or failed; the text says why.
    TranscoderFailed(String),
    /// The external transcoder ran and wrote less than one sample.
    TranscoderSilent,
    /// The resampler could not be set up; the text says why.
    ResamplerFailed(String),
}

impl DecodeError {
    /// The text shown for the error.
    pub open spec fn message_text(self) -> Seq<char> {
        match self {
            DecodeError::FileNotFound(path) => "File not found: "@ + path@,
            DecodeError::UnsupportedFormat =>
                "Unsupported file format. Please provide an audio file (wav, mp3, m4a, ogg) or a video file with an audio track (mp4, mov, mkv, webm)."@,
            DecodeError::OpenFailed(why) => "Failed to open file: "@ + why@,
            DecodeError::NoAudioTrack => "No valid audio track found"@,
            DecodeError::MissingSampleRate => "Missing sample rate"@,
            DecodeError::TooManyReadErrors(why) => "Too many consecutive errors reading packets: "@
                + why@,
            DecodeError::TooManyDecodeErrors(why) => "Too many consecutive decode errors: "@
                + why@,
            DecodeError::UnsupportedSampleFormat => "Unsupported audio format"@,
            DecodeError::NoAudioDecoded =>
                "No audio could be decoded from file. The file may be corrupted or use an unsupported codec."@,
            DecodeError::TranscoderNotFound =>
                "FFmpeg not found. Please install FFmpeg to process video files.\nOn macOS: brew install ffmpeg\nOn Windows: Download from https://ffmpeg.org/download.html"@,
            DecodeError::TranscoderFailed(why) => "FFmpeg failed to extract audio: "@ + why@,
            DecodeError::TranscoderSilent =>
                "FFmpeg produced no audio. Make sure the file has an audio track and FFmpeg is installed."@,
            DecodeError::ResamplerFailed(why) => why@,
        }
    }

    /// The text shown for the error.
    pub fn message(&self) -> (r: String)
        ensures
            r@ == self.message_text(),
    {
        match self {
            DecodeError::FileNotFound(path) => concat("File not found: ", path.as_str()),
            DecodeError::UnsupportedFormat => copy_str(
                "Unsupported file format. Please provide an audio file (wav, mp3, m4a, ogg) or a video file with an audio track (mp4, mov, mkv, webm).",
            ),
            DecodeError::OpenFailed(why) => concat("Failed to open file: ", why.as_str()),
            DecodeError::NoAudioTrack => copy_str("No valid audio track found"),
            DecodeError::MissingSampleRate => copy_str("Missing sample rate"),
            DecodeError::TooManyReadErrors(why) => concat(
                "Too many consecutive errors reading packets: ",
                why.as_str(),
            ),
            DecodeError::TooManyDecodeErrors(why) => concat(
                "Too many consecutive decode errors: ",
                why.as_str(),
            ),
            DecodeError::UnsupportedSampleFormat => copy_str("Unsupported audio format"),
            DecodeError::NoAudioDecoded => copy_str(
                "No audio could be decoded from file. The file may be corrupted or use an unsupported codec.",
            ),
            DecodeError::TranscoderNotFound => copy_str(
                "FFmpeg not found. Please install FFmpeg to process video files.\nOn macOS: brew install ffmpeg\nOn Windows: Download from https://ffmpeg.org/download.html",
            ),
            DecodeError::TranscoderFailed(why) => concat(
                "FFmpeg failed to extract audio: ",
                why.as_str(),
            ),
            DecodeError::TranscoderSilent => copy_str(
                "FFmpeg produced no audio. Make sure the file has an audio track and FFmpeg is installed.",
            ),
            DecodeError::ResamplerFailed(why) => copy_str(why.as_str()),
        }
    }
}

/// Checks that there is a file to decode.
pub fn require_file(path: &str, exists: bool) -> (r: Result<(), DecodeError>)
    ensures
        match r {
            Ok(_) => exists,
            Err(DecodeError::FileNotFound(p)) => !exists && p@ == path@,
            Err(_) => false,
        },
{
    if exists {
        Ok(())
    } else {
        Err(DecodeError::FileNotFound(copy_str(path)))
    }
}

/// The error for a file that could not be opened or probed: what was
/// tried, and why it failed.
pub fn open_failure(what: &str, why: &str) -> (r: DecodeError)
    ensures
        r matches DecodeError::OpenFailed(text) && text@ == what@ + ": "@ + why@,
{
    DecodeError::OpenFailed(crate::text::concat3(what, ": ", why))
}

/// The decoder for a format, or the error for an unsupported one.
pub fn decode_route(format: AudioFormat) -> (r: Result<DecodeRoute, DecodeError>)
    ensures
        r == match format {
            AudioFormat::Wav => Ok::<DecodeRoute, DecodeError>(DecodeRoute::Wav),
            AudioFormat::Mp3 | AudioFormat::M4a | AudioFormat::Ogg => Ok(DecodeRoute::Demuxer),
            AudioFormat::Video => Ok(DecodeRoute::Transcoder),
            AudioFormat::Unsupported => Err(DecodeError::UnsupportedFormat),
        },
{
    match format.route() {
        Some(route) => Ok(route),
        None => Err(DecodeError::UnsupportedFormat),
    }
}

/// The first track that has a codec, given for each track whether its codec
/// is the null codec.
pub fn select_track(codec_is_null: &Vec<bool>) -> (r: Result<usize, DecodeError>)
    ensures
        match r {
            Ok(i) => i < codec_is_null.len() && !codec_is_null@[i as int] && forall|j: int|
                0 <= j < i ==> codec_is_null@[j],
            Err(e) => e == DecodeError::NoAudioTrack && forall|j: int|
                0 <= j < codec_is_null.len() ==> codec_is_null@[j],
        },
{
    let mut i: usize = 0;
    while i < codec_is_null.len()
        invariant
            i <= codec_is_null.len(),
            forall|j: int| 0 <= j < i ==> codec_is_null@[j],
        decreases codec_is_null.len() - i,
    {
        if !codec_is_null[i] {
            return Ok(i);
        }
        i += 1;
    }
    Err(DecodeError::NoAudioTrack)
}

/// What is known of a track before decoding starts.
#[derive(Clone, Copy, Debug, PartialEq, Eq, Structural)]
pub struct TrackParameters {
    pub sample_rate: u32,
    pub channels: usize,
}

/// The parameters of a track: its sample rate must be stated; a track that
/// does not state its channels counts as mono.
pub fn track_parameters(sample_rate: Option<u32>, channels: Option<usize>) -> (r: Result<
    TrackParameters,
    DecodeError,
>)
    ensures
        r == match sample_rate {
            Some(rate) => Ok::<TrackParameters, DecodeError>(
                (TrackParameters {
                    sample_rate: rate,
                    channels: match channels {
                        Some(c) => c,
                        None => 1,
                    },
                }),
            ),
            None => Err(DecodeError::MissingSampleRate),
        },
{
    match sample_rate {
        Some(rate) => Ok(
            TrackParameters {
                sample_rate: rate,
                channels: match channels {
                    Some(c) => c,
                    None => 1,
                },
            },
        ),
        None => Err(DecodeError::MissingSampleRate),
    }
}

/// The failures in a row after one more, counted from `count`; `None`
/// where that one is one too many and decoding is given up.
pub open spec fn after_failure(count: nat) -> Option<nat> {
    if count + 1 >= MAX_CONSECUTIVE_ERRORS {
        None
    } else {
        Some(count + 1)
    }
}

/// The failures in a row after `failures` more, counted from `count`;
/// `None` where decoding has been given up on the way.
pub open spec fn after_failures(count: nat, failures: nat) -> Option<nat>
    decreases failures,
{
    if failures == 0 {
        Some(count)
    } else {
        match after_failures(count, (failures - 1) as nat) {
            Some(c) => after_failure(c),
            None => None,
        }
    }
}

/// Decoding survives a row of failures exactly as long as the row, with
/// the failures before it, stays below the limit: after a decoded frame,
/// 49 failures in a row are survived and the fiftieth gives up.
pub proof fn law_failures_in_a_row(count: nat, failures: nat)
    requires
        count < MAX_CONSECUTIVE_ERRORS,
    ensures
        after_failures(count, failures) == if count + failures < MAX_CONSECUTIVE_ERRORS {
            Some(count + failures)
        } else {
            None
        },
    decreases failures,
{
    if failures > 0 {
        law_failures_in_a_row(count, (failures - 1) as nat);
    }
}

/// What reading the next packet gave.
#[derive(Clone, Debug, PartialEq, Eq)]
pub enum PacketRead {
    /// A packet is at hand.
    Packet,
    /// The reader asks to be reset; nothing was read.
    ResetRequired,
    /// The stream has ended, or cannot be read any further.
    EndOfStream,
    /// The packet could not be read; the text says why.
    Failed(String),
}

/// What decoding a packet gave. `T` is the sample type.
#[derive(Clone, Debug, PartialEq, Eq)]
pub enum FrameDecode<T> {
    /// The frame's samples, interleaved by channel.
    Decoded(Vec<T>),
    /// The frame is malformed; the text says why.
    Corrupt(String),
    /// The decoder asks to be reset.
    ResetRequired,
    /// Another failure; the text says why.
    Failed(String),
    /// The samples come in an encoding that is not handled.
    UnsupportedSampleFormat,
}

/// What the caller does next.
#[derive(Clone, Debug, PartialEq, Eq)]
pub enum DecodeStep {
    /// Read the next packet and report with `on_packet`.
    ReadPacket,
    /// Decode the packet at hand and report with `on_frame`.
    DecodePacket,
    /// Reset the decoder, then read the next packet.
    ResetDecoder,
    /// The stream is over: call `finish`.
    Finish,
    /// Give up with this error.
    Abort(DecodeError),
}

/// The state of one decoding run: the samples so far, the failures in a
/// row, and the frames skipped.
pub struct DecodeSession<T> {
    pub samples: Vec<T>,
    pub consecutive_errors: u32,
    pub skipped_frames: u64,
}

/// The audio of a finished run, with what is left to do to it.
pub struct DecodedAudio<T> {
    pub samples: Vec<T>,
    pub channels: usize,
    pub sample_rate: u32,
    pub skipped_frames: u64,
}

impl<T> DecodedAudio<T> {
    /// Whether the samples are still to be mixed down to mono.
    pub fn needs_downmix(&self) -> (r: bool)
        ensures
            r == (self.channels > 1),
    {
        self.channels > 1
    }

    /// Whether the samples are still to be resampled to the target rate.
    pub fn needs_resample(&self) -> (r: bool)
        ensures
            r == (self.sample_rate != TARGET_SAMPLE_RATE),
    {
        self.sample_rate != TARGET_SAMPLE_RATE
    }
}

impl<T: Copy> DecodeSession<T> {
    /// The run is in order: fewer failures in a row than end it.
    pub open spec fn wf(&self) -> bool {
        self.consecutive_errors < MAX_CONSECUTIVE_ERRORS
    }

    /// A run that has seen nothing yet.
    pub fn new() -> (r: Self)
        ensures
            r.wf(),
            r.samples@.len() == 0,
            r.consecutive_errors == 0,
            r.skipped_frames == 0,
    {
        DecodeSession { samples: Vec::new(), consecutive_errors: 0, skipped_frames: 0 }
    }

    /// Counts one more failure and says whether the run goes on.
    fn count_failure(&mut self) -> (go_on: bool)
        ensures
            final(self).samples@ == old(self).samples@,
            final(self).skipped_frames == old(self).skipped_frames,
            go_on == (old(self).consecutive_errors + 1 < MAX_CONSECUTIVE_ERRORS),
            go_on == (after_failure(old(self).consecutive_errors as nat) is Some),
            go_on ==> final(self).consecutive_errors == old(self).consecutive_errors + 1,
            !go_on ==> final(self).consecutive_errors == old(self).consecutive_errors,
            old(self).wf() ==> final(self).wf(),
    {
        if self.consecutive_errors >= MAX_CONSECUTIVE_ERRORS - 1 {
            false
        } else {
            self.consecutive_errors = self.consecutive_errors + 1;
            true
        }
    }

    /// Takes in what reading a packet gave. A packet is decoded next; a reset
    /// request is answered by reading again; the end of the stream ends the
    /// run; a failure counts, and the fiftieth in a row gives up. Reading a
    /// packet does not end a row of failures: only a decoded frame does.
    pub fn on_packet(&mut self, read: PacketRead) -> (step: DecodeStep)
        ensures
            old(self).wf() ==> final(self).wf(),
            read is Failed ==> (step is Abort) == (after_failure(
                old(self).consecutive_errors as nat,
            ) is None),
            final(self).samples@ == old(self).samples@,
            final(self).skipped_frames == old(self).skipped_frames,
            match read {
                PacketRead::Packet => step == DecodeStep::DecodePacket
                    && final(self).consecutive_errors == old(self).consecutive_errors,
                PacketRead::ResetRequired => step == DecodeStep::ReadPacket
                    && final(self).consecutive_errors == old(self).consecutive_errors,
                PacketRead::EndOfStream => step == DecodeStep::Finish
                    && final(self).consecutive_errors == old(self).consecutive_errors,
                PacketRead::Failed(why) => if old(self).consecutive_errors + 1
                    >= MAX_CONSECUTIVE_ERRORS {
                    step == DecodeStep::Abort(DecodeError::TooManyReadErrors(why))
                        && final(self).consecutive_errors == old(self).consecutive_errors
                } else {
                    step == DecodeStep::ReadPacket
                        && final(self).consecutive_errors == old(self).consecutive_errors + 1
                },
            },
    {
        match read {
            PacketRead::Packet => DecodeStep::DecodePacket,
            PacketRead::ResetRequired => DecodeStep::ReadPacket,
            PacketRead::EndOfStream => DecodeStep::Finish,
            PacketRead::Failed(why) => {
                if self.count_failure() {
                    DecodeStep::ReadPacket
                } else {
                    DecodeStep::Abort(DecodeError::TooManyReadErrors(why))
                }
            },
        }
    }

    /// Takes in what decoding a packet gave. Decoded samples are kept and end
    /// the row of failures; a malformed frame is skipped and counted; a reset
    /// request resets the decoder; the fiftieth failure in a row gives up,
    /// and so does an encoding that is not handled.
    pub fn on_frame(&mut self, frame: FrameDecode<T>) -> (step: DecodeStep)
        ensures
            old(self).wf() ==> final(self).wf(),
            frame is Corrupt || frame is Failed ==> (step is Abort) == (after_failure(
                old(self).consecutive_errors as nat,
            ) is None),
            match frame {
                FrameDecode::Decoded(samples) => step == DecodeStep::ReadPacket
                    && final(self).samples@ == old(self).samples@ + samples@
                    && final(self).consecutive_errors == 0
                        && final(self).skipped_frames == old(self).skipped_frames,
                FrameDecode::Corrupt(why) => final(self).samples@ == old(self).samples@
                    && final(self).skipped_frames == if old(self).skipped_frames < u64::MAX {
                    (old(self).skipped_frames + 1) as u64
                } else {
                    u64::MAX
                } && if old(self).consecutive_errors + 1 >= MAX_CONSECUTIVE_ERRORS {
                    step == DecodeStep::Abort(DecodeError::TooManyDecodeErrors(why))
                        && final(self).consecutive_errors == old(self).consecutive_errors
                } else {
                    step == DecodeStep::ReadPacket
                        && final(self).consecutive_errors == old(self).consecutive_errors + 1
                },
                FrameDecode::ResetRequired => step == DecodeStep::ResetDecoder
                    && final(self).samples@ == old(self).samples@
                    && final(self).consecutive_errors == old(self).consecutive_errors
                    && final(self).skipped_frames == old(self).skipped_frames,
                FrameDecode::Failed(why) => final(self).samples@ == old(self).samples@
                    && final(self).skipped_frames == old(self).skipped_frames
                        && if old(self).consecutive_errors + 1 >= MAX_CONSECUTIVE_ERRORS {
                    step == DecodeStep::Abort(DecodeError::TooManyDecodeErrors(why))
                        && final(self).consecutive_errors == old(self).consecutive_errors
                } else {
                    step == DecodeStep::ReadPacket
                        && final(self).consecutive_errors == old(self).consecutive_errors + 1
                },
                FrameDecode::UnsupportedSampleFormat => step == DecodeStep::Abort(
                    DecodeError::UnsupportedSampleFormat,
                ) && final(self).samples@ == old(self).samples@
                    && final(self).consecutive_errors == old(self).consecutive_errors
                    && final(self).skipped_frames == old(self).skipped_frames,
            },
    {
        match frame {
            FrameDecode::Decoded(samples) => {
                extend_copy(&mut self.samples, &samples);
                self.consecutive_errors = 0;
                DecodeStep::ReadPacket
            },
            FrameDecode::Corrupt(why) => {
                if self.skipped_frames < u64::MAX {
                    self.skipped_frames = self.skipped_frames + 1;
                }
                if self.count_failure() {
                    DecodeStep::ReadPacket
                } else {
                    DecodeStep::Abort(DecodeError::TooManyDecodeErrors(why))
                }
            },
            FrameDecode::ResetRequired => DecodeStep::ResetDecoder,
            FrameDecode::Failed(why) => {
                if self.count_failure() {
                    DecodeStep::ReadPacket
                } else {
                    DecodeStep::Abort(DecodeError::TooManyDecodeErrors(why))
                }
            },
            FrameDecode::UnsupportedSampleFormat => DecodeStep::Abort(
                DecodeError::UnsupportedSampleFormat,
            ),
        }
    }

    /// Ends the run: an error where no sample came out, else the audio with
    /// the track's parameters.
    pub fn finish(self, track: TrackParameters) -> (r: Result<DecodedAudio<T>, DecodeError>)
        ensures
            match r {
                Ok(audio) => self.samples@.len() > 0 && audio.samples@ == self.samples@
                    && audio.channels == track.channels && audio.sample_rate
                    == track.sample_rate && audio.skipped_frames == self.skipped_frames,
                Err(e) => self.samples@.len() == 0 && e == DecodeError::NoAudioDecoded,
            },
    {
        if self.samples.len() == 0 {
            Err(DecodeError::NoAudioDecoded)
        } else {
            Ok(
                DecodedAudio {
                    samples: self.samples,
                    channels: track.channels,
                    sample_rate: track.sample_rate,
                    skipped_frames: self.skipped_frames,
                },
            )
        }
    }
}

/// How the samples of a WAV file are stored.
#[derive(Clone, Copy, Debug, PartialEq, Eq, Structural)]
pub enum WavSampleKind {
    /// Integers of the file's bit depth.
    Int,
    /// Floating-point numbers, taken as they are.
    Float,
}

/// What is done to the samples read from a WAV file.
#[derive(Clone, Copy, Debug, PartialEq, Eq, Structural)]
pub struct WavDecodePlan {
    /// What each integer sample is divided by; `None` for float samples.
    pub divisor: Option<i64>,
    /// Whether the samples are mixed down to mono.
    pub downmix: bool,
    /// How the samples are brought to the target rate.
    pub resample: ResampleDecision,
}

/// What the decoding of a WAV file with this header and this many samples
/// comes to. A file without channels, or with integer samples of a depth
/// outside 1..=32, is of no supported format; one that states no sample
/// rate is refused; one without a single sample holds no audio. Else
/// integer samples are divided by two to the power of the depth less one;
/// more than one channel is mixed down; another rate than the target is
/// resampled, on the samples that are left after mixing.
pub open spec fn wav_decode_planned(
    kind: WavSampleKind,
    bits_per_sample: u16,
    channels: u16,
    sample_rate: u32,
    samples: nat,
) -> Result<WavDecodePlan, DecodeError> {
    if channels == 0 || (kind == WavSampleKind::Int && !(1 <= bits_per_sample <= 32)) {
        Err(DecodeError::UnsupportedSampleFormat)
    } else if sample_rate == 0 {
        Err(DecodeError::MissingSampleRate)
    } else if samples == 0 {
        Err(DecodeError::NoAudioDecoded)
    } else {
        Ok(
            WavDecodePlan {
                divisor: match kind {
                    WavSampleKind::Int => Some(pow2((bits_per_sample - 1) as nat) as i64),
                    WavSampleKind::Float => None,
                },
                downmix: channels > 1,
                resample: planned_resample(
                    if channels > 1 {
                        frame_count(samples, channels as nat)
                    } else {
                        samples
                    },
                    sample_rate,
                    TARGET_SAMPLE_RATE,
                ),
            },
        )
    }
}

/// Plans the decoding of a WAV file from its header and the number of
/// samples in it. A planned file has at least one sample, and its plan
/// never holds an invalid rate.
pub fn plan_wav_decode(
    kind: WavSampleKind,
    bits_per_sample: u16,
    channels: u16,
    sample_rate: u32,
    samples: usize,
) -> (r: Result<WavDecodePlan, DecodeError>)
    ensures
        r == wav_decode_planned(kind, bits_per_sample, channels, sample_rate, samples as nat),
        r matches Ok(plan) ==> samples >= 1 && plan.resample != ResampleDecision::InvalidRate,
{
    if channels == 0 {
        return Err(DecodeError::UnsupportedSampleFormat);
    }
    let divisor = match kind {
        WavSampleKind::Int => match wav_int_divisor(bits_per_sample) {
            Some(d) => Some(d),
            None => {
                return Err(DecodeError::UnsupportedSampleFormat);
            },
        },
        WavSampleKind::Float => None,
    };
    if sample_rate == 0 {
        return Err(DecodeError::MissingSampleRate);
    }
    if samples == 0 {
        return Err(DecodeError::NoAudioDecoded);
    }
    let mono_len: usize = if channels > 1 {
        let c = channels as usize;
        proof {
            lemma_frame_count(samples as nat, c as nat);
        }
        let whole = samples / c;
        assert(samples % c != 0 ==> whole < samples) by (nonlinear_arith)
            requires
                c >= 1,
                whole == samples / c,
        ;
        if samples % c == 0 {
            whole
        } else {
            whole + 1
        }
    } else {
        samples
    };
    Ok(
        WavDecodePlan {
            divisor,
            downmix: channels > 1,
            resample: plan_resample(mono_len, sample_rate, TARGET_SAMPLE_RATE),
        },
    )
}

} // verus!
