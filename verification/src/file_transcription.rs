//! Transcribing a file: the stages that are reported, and the texts that go
//! with them.

use crate::audio::decode::TARGET_SAMPLE_RATE;
use crate::numfmt::{decimal, push_decimal};
use crate::post_process::opt_text;
use crate::buffers::extend_copy;
use crate::text::{concat, concat3, copy_str, from_chars, to_chars, trimmed};
use vstd::prelude::*;

verus! {

/// How far a file transcription has got.
#[derive(Clone, Copy, Debug, PartialEq, Eq, Structural)]
pub enum ProgressAmount {
    /// No telling how long it takes.
    Indeterminate,
    /// This many hundredths are done.
    Percent(u8),
}

/// One report on a file transcription.
#[derive(Clone, Debug, PartialEq, Eq)]
pub struct FileTranscriptionProgress {
    pub status: String,
    pub progress: ProgressAmount,
    pub message: String,
    pub file_name: Option<String>,
}

/// A length of time in whole seconds: seconds alone under a minute,
/// minutes and seconds from a minute on.
pub open spec fn duration_text(seconds: nat) -> Seq<char> {
    if seconds / 60 > 0 {
        decimal(seconds / 60) + "m "@ + decimal(seconds % 60) + "s"@
    } else {
        decimal(seconds) + "s"@
    }
}

fn duration_chars(seconds: u64) -> (r: Vec<char>)
    ensures
        r@ == duration_text(seconds as nat),
{
    let mut out: Vec<char> = Vec::new();
    if seconds / 60 > 0 {
        push_decimal(&mut out, seconds / 60);
        let m = to_chars("m ");
        extend_copy(&mut out, &m);
        push_decimal(&mut out, seconds % 60);
        let s = to_chars("s");
        extend_copy(&mut out, &s);
        assert(out@ =~= decimal((seconds / 60) as nat) + "m "@ + decimal((seconds % 60) as nat)
            + "s"@);
    } else {
        push_decimal(&mut out, seconds);
        let s = to_chars("s");
        extend_copy(&mut out, &s);
        assert(out@ =~= decimal(seconds as nat) + "s"@);
    }
    out
}

/// The length of `samples` samples at the target rate, in whole seconds, as
/// text.
pub fn audio_duration_text(samples: usize) -> (r: String)
    ensures
        r@ == duration_text((samples / TARGET_SAMPLE_RATE as usize) as nat),
{
    let seconds: u64 = (samples / TARGET_SAMPLE_RATE as usize) as u64;
    let chars = duration_chars(seconds);
    from_chars(&chars)
}

/// The text for the time spent so far.
pub fn elapsed_text(seconds: u64) -> (r: String)
    ensures
        r@ == duration_text(seconds as nat) + " elapsed"@,
{
    let mut chars = duration_chars(seconds);
    let tail = to_chars(" elapsed");
    extend_copy(&mut chars, &tail);
    from_chars(&chars)
}

fn copy_opt(s: &Option<String>) -> (r: Option<String>)
    ensures
        r == *s,
{
    match s {
        Some(t) => Some(t.clone()),
        None => None,
    }
}

impl FileTranscriptionProgress {
    /// Decoding starts; a video file has its audio extracted first.
    pub fn decoding(is_video: bool, file_name: &Option<String>) -> (r: FileTranscriptionProgress)
        ensures
            r.status@ == "decoding"@,
            r.progress == ProgressAmount::Percent(0),
            r.message@ == if is_video {
                "Extracting audio from video..."@
            } else {
                "Loading audio file..."@
            },
            r.file_name == *file_name,
    {
        FileTranscriptionProgress {
            status: copy_str("decoding"),
            progress: ProgressAmount::Percent(0),
            message: if is_video {
                copy_str("Extracting audio from video...")
            } else {
                copy_str("Loading audio file...")
            },
            file_name: copy_opt(file_name),
        }
    }

    /// Transcribing `samples` samples has started, or goes on after
    /// `elapsed_seconds`.
    pub fn transcribing(samples: usize, elapsed_seconds: Option<u64>, file_name: &Option<String>)
        -> (r: FileTranscriptionProgress)
        ensures
            r.status@ == "transcribing"@,
            r.progress == ProgressAmount::Indeterminate,
            r.message@ == "Transcribing "@ + duration_text(
                (samples / TARGET_SAMPLE_RATE as usize) as nat,
            ) + " of audio..."@ + match elapsed_seconds {
                Some(e) => " ("@ + duration_text(e as nat) + " elapsed)"@,
                None => Seq::<char>::empty(),
            },
            r.file_name == *file_name,
    {
        let length = audio_duration_text(samples);
        let head = concat3("Transcribing ", length.as_str(), " of audio...");
        let message = match elapsed_seconds {
            Some(e) => {
                let spent = elapsed_text(e);
                let note = concat3(" (", spent.as_str(), ")");
                assert(note@ =~= " ("@ + duration_text(e as nat) + " elapsed)"@) by {
                    reveal_strlit(" elapsed");
                    reveal_strlit(")");
                    reveal_strlit(" elapsed)");
                }
                concat(head.as_str(), note.as_str())
            },
            None => {
                assert(head@ =~= head@ + Seq::<char>::empty());
                head
            },
        };
        FileTranscriptionProgress {
            status: copy_str("transcribing"),
            progress: ProgressAmount::Indeterminate,
            message,
            file_name: copy_opt(file_name),
        }
    }

    /// The transcript is being saved.
    pub fn saving(file_name: &Option<String>) -> (r: FileTranscriptionProgress)
        ensures
            r.status@ == "saving"@,
            r.progress == ProgressAmount::Percent(90),
            r.message@ == "Saving to history..."@,
            r.file_name == *file_name,
    {
        FileTranscriptionProgress {
            status: copy_str("saving"),
            progress: ProgressAmount::Percent(90),
            message: copy_str("Saving to history..."),
            file_name: copy_opt(file_name),
        }
    }

    /// All done.
    pub fn complete(file_name: &Option<String>) -> (r: FileTranscriptionProgress)
        ensures
            r.status@ == "complete"@,
            r.progress == ProgressAmount::Percent(100),
            r.message@ == "Transcription complete!"@,
            r.file_name == *file_name,
    {
        FileTranscriptionProgress {
            status: copy_str("complete"),
            progress: ProgressAmount::Percent(100),
            message: copy_str("Transcription complete!"),
            file_name: copy_opt(file_name),
        }
    }

    /// The transcription failed with `message`.
    pub fn error(message: &str, file_name: &Option<String>) -> (r: FileTranscriptionProgress)
        ensures
            r.status@ == "error"@,
            r.progress == ProgressAmount::Percent(0),
            r.message@ == message@,
            r.file_name == *file_name,
    {
        FileTranscriptionProgress {
            status: copy_str("error"),
            progress: ProgressAmount::Percent(0),
            message: copy_str(message),
            file_name: copy_opt(file_name),
        }
    }
}

/// Why a file could not be transcribed.
#[derive(Clone, Debug, PartialEq, Eq)]
pub enum FileTranscriptionError {
    /// No file at the path.
    FileNotFound(String),
    /// The audio of a video file could not be extracted; the text says why.
    ExtractionFailed(String),
    /// The audio file could not be decoded; the text says why.
    DecodingFailed(String),
    /// Decoding gave no samples.
    NoAudibleContent,
    /// The engine failed; the text says why.
    TranscriptionFailed(String),
    /// The transcript is empty.
    NoSpeech,
}

impl FileTranscriptionError {
    /// The text shown for the error.
    pub open spec fn message_text(self) -> Seq<char> {
        match self {
            FileTranscriptionError::FileNotFound(path) => "File not found: "@ + path@,
            FileTranscriptionError::ExtractionFailed(why) => "Failed to extract audio: "@ + why@
                + ". Make sure FFmpeg is installed."@,
            FileTranscriptionError::DecodingFailed(why) => "Failed to decode audio: "@ + why@,
            FileTranscriptionError::NoAudibleContent => "Audio file contains no audible content"@,
            FileTranscriptionError::TranscriptionFailed(why) => "Transcription failed: "@ + why@,
            FileTranscriptionError::NoSpeech => "No speech detected in the audio"@,
        }
    }

    /// The text shown for the error.
    pub fn message(&self) -> (r: String)
        ensures
            r@ == self.message_text(),
    {
        match self {
            FileTranscriptionError::FileNotFound(path) => concat(
                "File not found: ",
                path.as_str(),
            ),
            FileTranscriptionError::ExtractionFailed(why) => concat3(
                "Failed to extract audio: ",
                why.as_str(),
                ". Make sure FFmpeg is installed.",
            ),
            FileTranscriptionError::DecodingFailed(why) => concat(
                "Failed to decode audio: ",
                why.as_str(),
            ),
            FileTranscriptionError::NoAudibleContent => copy_str(
                "Audio file contains no audible content",
            ),
            FileTranscriptionError::TranscriptionFailed(why) => concat(
                "Transcription failed: ",
                why.as_str(),
            ),
            FileTranscriptionError::NoSpeech => copy_str("No speech detected in the audio"),
        }
    }
}

/// Checks that there is a file to transcribe.
pub fn require_file(path: &str, exists: bool) -> (r: Result<(), FileTranscriptionError>)
    ensures
        match r {
            Ok(_) => exists,
            Err(FileTranscriptionError::FileNotFound(p)) => !exists && p@ == path@,
            Err(_) => false,
        },
{
    if exists {
        Ok(())
    } else {
        Err(FileTranscriptionError::FileNotFound(copy_str(path)))
    }
}

/// The error for a file that could not be decoded: extraction for a video
/// file, decoding for an audio file.
pub fn decode_failure(is_video: bool, why: String) -> (r: FileTranscriptionError)
    ensures
        r == if is_video {
            FileTranscriptionError::ExtractionFailed(why)
        } else {
            FileTranscriptionError::DecodingFailed(why)
        },
{
    if is_video {
        FileTranscriptionError::ExtractionFailed(why)
    } else {
        FileTranscriptionError::DecodingFailed(why)
    }
}

/// Checks what decoding gave: audio without a single sample is an error.
pub fn check_decoded(samples: usize) -> (r: Result<(), FileTranscriptionError>)
    ensures
        r == if samples == 0 {
            Err::<(), FileTranscriptionError>(FileTranscriptionError::NoAudibleContent)
        } else {
            Ok(())
        },
{
    if samples == 0 {
        Err(FileTranscriptionError::NoAudibleContent)
    } else {
        Ok(())
    }
}

/// Checks what transcribing gave: a failure of the engine, or a transcript
/// of nothing but white space, is an error; else the transcript stands.
pub fn check_transcript(outcome: Result<String, String>) -> (r: Result<
    String,
    FileTranscriptionError,
>)
    ensures
        r == match outcome {
            Ok(text) => if trimmed(text@).len() == 0 {
                Err::<String, FileTranscriptionError>(FileTranscriptionError::NoSpeech)
            } else {
                Ok(text)
            },
            Err(why) => Err(FileTranscriptionError::TranscriptionFailed(why)),
        },
{
    match outcome {
        Ok(text) => {
            if crate::text::str_is_blank(text.as_str()) {
                Err(FileTranscriptionError::NoSpeech)
            } else {
                Ok(text)
            }
        },
        Err(why) => Err(FileTranscriptionError::TranscriptionFailed(why)),
    }
}

/// The title under which a transcribed file is kept: its name without the
/// extension, or a stand-in where the name is not known.
pub fn history_title(file_stem: Option<&str>) -> (r: String)
    ensures
        r@ == "File: "@ + match file_stem {
            Some(stem) => stem@,
            None => "Uploaded File"@,
        },
{
    match file_stem {
        Some(stem) => concat("File: ", stem),
        None => concat("File: ", "Uploaded File"),
    }
}

/// The name shown for a file when the transcription is complete.
pub fn completed_file_name(file_name: &Option<String>) -> (r: String)
    ensures
        r@ == match opt_text(*file_name) {
            Some(name) => name,
            None => "Unknown file"@,
        },
{
    match file_name {
        Some(name) => name.clone(),
        None => copy_str("Unknown file"),
    }
}

} // verus!
