//! Core logic of a voice-dictation assistant.
//!
//! A shortcut starts a recording; live audio feeds a streaming buffer that
//! hands out windows for a live preview; the finished recording is
//! transcribed by the loaded speech model, converted or rewritten, and
//! delivered. This crate holds the decisions of that pipeline and proves
//! them; devices, files, the network and the speech engine belong to its
//! caller.
//!
//! - [`audio`]: container formats, integer PCM, the frame-decoding loop, the
//!   transcoder for video files and the resampling schedule.
//! - [`recorder`]: the one recording session.
//! - [`streaming`]: the streaming buffer and its adaptive window.
//! - [`transcription`]: the engine slot and the lifecycle of the model.
//! - [`post_process`], [`actions`]: what becomes of a transcript.
//! - [`settings`], [`post_process_settings`], [`general_settings`]: the
//!   settings that are read and the commands that change them.
//! - [`input_tracker`], [`input_entries`]: typed input and its entries.
//! - [`shortcut`], [`shell`], [`startup`], [`overlay`], [`tts`],
//!   [`clamshell`], [`database`], [`file_transcription`], [`logging`]: the
//!   rules of the parts around the pipeline.
//! - [`text`], [`numfmt`], [`buffers`], [`clock`]: helpers.

pub mod actions;
pub mod audio;
pub mod buffers;
pub mod clamshell;
pub mod clock;
pub mod database;
pub mod file_transcription;
pub mod general_settings;
pub mod input_entries;
pub mod input_tracker;
pub mod logging;
pub mod numfmt;
pub mod overlay;
pub mod post_process;
pub mod post_process_settings;
pub mod recorder;
pub mod settings;
pub mod shell;
pub mod shortcut;
pub mod startup;
pub mod streaming;
pub mod text;
pub mod transcription;
pub mod tts;
