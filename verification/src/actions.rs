//! What the transcribe shortcut starts and stops: the order of sound, mute
//! and recording at the start, and the way of a transcript at the end.

use crate::post_process::{
    begin_post_process, emit_ai_sdk_post_process_request, first_step_fits,
    frontend_request_fits, frontend_rewrite_due, Delivery, PostProcessRequest, PostProcessStep,
};
use crate::settings::AppSettings;
use crate::text::copy_str;
use vstd::prelude::*;

verus! {

/// The delay between the start of an on-demand recording and the start
/// sound, in milliseconds: time for the microphone stream to come up.
pub const START_FEEDBACK_DELAY_MS: u64 = 100;

/// The order of things when the shortcut starts a recording.
#[derive(Clone, Copy, Debug, PartialEq, Eq, Structural)]
pub enum StartSequence {
    /// The microphone is always on: the start sound plays at once and the
    /// mute follows it, while the recording is started alongside.
    FeedbackThenRecord,
    /// The microphone is opened on demand: the recording starts first; if it
    /// did, the start sound plays after the delay and the mute follows it.
    RecordThenFeedback,
}

/// The order of things at the start, by the microphone mode.
pub fn start_sequence(always_on_microphone: bool) -> (r: StartSequence)
    ensures
        r == if always_on_microphone {
            StartSequence::FeedbackThenRecord
        } else {
            StartSequence::RecordThenFeedback
        },
{
    if always_on_microphone {
        StartSequence::FeedbackThenRecord
    } else {
        StartSequence::RecordThenFeedback
    }
}

/// Whether the start sound plays and the mute is applied after it, given
/// whether the recording started. The mute never comes before the sound
/// has ended.
pub fn feedback_and_mute_follow(sequence: StartSequence, recording_started: bool) -> (r: bool)
    ensures
        r == match sequence {
            StartSequence::FeedbackThenRecord => true,
            StartSequence::RecordThenFeedback => recording_started,
        },
{
    match sequence {
        StartSequence::FeedbackThenRecord => true,
        StartSequence::RecordThenFeedback => recording_started,
    }
}

/// What is kept in the history for a transcript: the raw text always, and
/// what became of it.
#[derive(Clone, Debug, PartialEq, Eq)]
pub struct HistoryRecord {
    pub transcription: String,
    pub post_processed_text: Option<String>,
    pub post_process_prompt: Option<String>,
}

/// What happens once the recording has been stopped and transcribed.
#[derive(Clone, Debug, PartialEq, Eq)]
pub enum StopStep {
    /// Nothing to deliver: hide the overlay and reset the tray.
    ResetUi,
    /// The frontend rewrites and pastes: send it the request and keep the
    /// raw transcript in the history. The overlay stays. Where the request
    /// cannot be sent, the chain starts as it does without the frontend.
    HandToFrontend(PostProcessRequest, HistoryRecord),
    /// The core delivers: go on with this step of the chain.
    PostProcess(PostProcessStep),
}

/// The history record of a delivery: the raw transcript, with the
/// processed text and the prompt of the delivery.
pub fn history_record(transcription: &str, delivery: &Delivery) -> (r: HistoryRecord)
    ensures
        r.transcription@ == transcription@,
        r.post_processed_text == delivery.post_processed_text,
        r.post_process_prompt == delivery.post_process_prompt,
{
    HistoryRecord {
        transcription: copy_str(transcription),
        post_processed_text: match &delivery.post_processed_text {
            Some(t) => Some(t.clone()),
            None => None,
        },
        post_process_prompt: match &delivery.post_process_prompt {
            Some(t) => Some(t.clone()),
            None => None,
        },
    }
}

/// Decides what follows the transcription of a stopped recording.
/// `transcription` is `None` where no samples came back or transcribing
/// failed. Without a text, or with an empty one, only the interface is
/// reset. Else the frontend takes over where its tools are on and set up;
/// else the post-processing chain starts.
pub fn after_transcription(settings: &AppSettings, transcription: Option<&str>) -> (r: StopStep)
    ensures
        match transcription {
            None => r == StopStep::ResetUi,
            Some(text) => if text@.len() == 0 {
                r == StopStep::ResetUi
            } else if frontend_rewrite_due(*settings) {
                &&& r matches StopStep::HandToFrontend(request, record)
                &&& frontend_request_fits(*settings, text@, request)
                &&& record.transcription@ == text@
                &&& record.post_processed_text is None
                &&& record.post_process_prompt is None
            } else {
                r matches StopStep::PostProcess(step) && first_step_fits(*settings, text@, step)
            },
        },
{
    match transcription {
        None => StopStep::ResetUi,
        Some(text) => {
            if text.unicode_len() == 0 {
                return StopStep::ResetUi;
            }
            match emit_ai_sdk_post_process_request(settings, text) {
                Some(request) => {
                    let record = HistoryRecord {
                        transcription: copy_str(text),
                        post_processed_text: None,
                        post_process_prompt: None,
                    };
                    StopStep::HandToFrontend(request, record)
                },
                None => StopStep::PostProcess(begin_post_process(settings, text)),
            }
        },
    }
}

} // verus!
