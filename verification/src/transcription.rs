//! The speech model's lifecycle and the transcribe operation, as a state
//! machine: unloaded, loading, loaded, and unloaded again.
//!
//! The engine itself, the waiting and the events' delivery are the caller's;
//! this module holds the single engine slot and decides each step.

use crate::post_process::opt_text;
use crate::settings::{AppSettings, ModelUnloadTimeout};
use crate::text::{concat, concat3, copy_str, str_eq, str_trim, trimmed};
use vstd::prelude::*;

verus! {

/// The speech backends.
#[derive(Clone, Copy, Debug, PartialEq, Eq, Structural)]
pub enum EngineKind {
    Whisper,
    Parakeet,
}

/// What the model store knows of a model.
#[derive(Clone, Debug, PartialEq, Eq)]
pub struct ModelInfo {
    pub name: String,
    pub is_downloaded: bool,
    pub engine_type: EngineKind,
}

/// A change of the model's state, for the user interface.
#[derive(Clone, Debug, PartialEq, Eq)]
pub struct ModelStateEvent {
    pub event_type: String,
    pub model_id: Option<String>,
    pub model_name: Option<String>,
    pub error: Option<String>,
}

/// Why a model could not be loaded or used.
#[derive(Clone, Debug, PartialEq, Eq)]
pub enum ModelError {
    /// The store knows no model of this id.
    NotFound(String),
    /// The model's files are not on disk.
    NotDownloaded,
    /// The backend could not load the model: backend, model id, reason.
    LoadFailed(EngineKind, String, String),
    /// No model is loaded.
    NotLoaded,
    /// The backend failed to transcribe: backend, reason.
    TranscriptionFailed(EngineKind, String),
}

impl EngineKind {
    /// The backend's name in lower case.
    pub open spec fn name_text(self) -> Seq<char> {
        match self {
            EngineKind::Whisper => "whisper"@,
            EngineKind::Parakeet => "parakeet"@,
        }
    }

    /// The backend's name with a capital.
    pub open spec fn title_text(self) -> Seq<char> {
        match self {
            EngineKind::Whisper => "Whisper"@,
            EngineKind::Parakeet => "Parakeet"@,
        }
    }
}

/// The text of a failed load: the backend's name, the model's id and the
/// backend's reason.
pub open spec fn load_failure_text(kind: EngineKind, id: Seq<char>, why: Seq<char>) -> Seq<char> {
    "Failed to load "@ + kind.name_text() + " model "@ + id + ": "@ + why
}

impl ModelError {
    /// The text shown for the error.
    pub open spec fn message_text(self) -> Seq<char> {
        match self {
            ModelError::NotFound(id) => "Model not found: "@ + id@,
            ModelError::NotDownloaded => "Model not downloaded"@,
            ModelError::LoadFailed(kind, id, why) => load_failure_text(kind, id@, why@),
            ModelError::NotLoaded => "Model is not loaded for transcription."@,
            ModelError::TranscriptionFailed(kind, why) => kind.title_text()
                + " transcription failed: "@ + why@,
        }
    }

    /// The text shown for the error.
    pub fn message(&self) -> (r: String)
        ensures
            r@ == self.message_text(),
    {
        match self {
            ModelError::NotFound(id) => concat("Model not found: ", id.as_str()),
            ModelError::NotDownloaded => copy_str("Model not downloaded"),
            ModelError::LoadFailed(kind, id, why) => {
                let head = match kind {
                    EngineKind::Whisper => concat3("Failed to load ", "whisper", " model "),
                    EngineKind::Parakeet => concat3("Failed to load ", "parakeet", " model "),
                };
                let with_id = concat3(head.as_str(), id.as_str(), ": ");
                concat(with_id.as_str(), why.as_str())
            },
            ModelError::NotLoaded => copy_str("Model is not loaded for transcription."),
            ModelError::TranscriptionFailed(kind, why) => match kind {
                EngineKind::Whisper => concat3("Whisper", " transcription failed: ", why.as_str()),
                EngineKind::Parakeet => concat3(
                    "Parakeet",
                    " transcription failed: ",
                    why.as_str(),
                ),
            },
        }
    }
}

impl ModelStateEvent {
    /// A model starts loading.
    pub fn loading_started(model_id: &str) -> (r: ModelStateEvent)
        ensures
            r.event_type@ == "loading_started"@,
            opt_text(r.model_id) == Some(model_id@),
            r.model_name is None,
            r.error is None,
    {
        ModelStateEvent {
            event_type: copy_str("loading_started"),
            model_id: Some(copy_str(model_id)),
            model_name: None,
            error: None,
        }
    }

    /// A model has been loaded.
    pub fn loading_completed(model_id: &str, model_name: &str) -> (r: ModelStateEvent)
        ensures
            r.event_type@ == "loading_completed"@,
            opt_text(r.model_id) == Some(model_id@),
            opt_text(r.model_name) == Some(model_name@),
            r.error is None,
    {
        ModelStateEvent {
            event_type: copy_str("loading_completed"),
            model_id: Some(copy_str(model_id)),
            model_name: Some(copy_str(model_name)),
            error: None,
        }
    }

    /// A model could not be loaded. The model's name is there where the
    /// store knows the model.
    pub fn loading_failed(model_id: &str, model_name: Option<&str>, error: &str) -> (r:
        ModelStateEvent)
        ensures
            r.event_type@ == "loading_failed"@,
            opt_text(r.model_id) == Some(model_id@),
            opt_text(r.model_name) == match model_name {
                Some(name) => Some(name@),
                None => None,
            },
            opt_text(r.error) == Some(error@),
    {
        let name = match model_name {
            Some(name) => Some(copy_str(name)),
            None => None,
        };
        ModelStateEvent {
            event_type: copy_str("loading_failed"),
            model_id: Some(copy_str(model_id)),
            model_name: name,
            error: Some(copy_str(error)),
        }
    }

    /// The model has been unloaded.
    pub fn unloaded() -> (r: ModelStateEvent)
        ensures
            r.event_type@ == "unloaded"@,
            r.model_id is None,
            r.model_name is None,
            r.error is None,
    {
        ModelStateEvent {
            event_type: copy_str("unloaded"),
            model_id: None,
            model_name: None,
            error: None,
        }
    }
}

/// Where the model stands.
#[derive(Clone, Copy, Debug, PartialEq, Eq, Structural)]
pub enum ModelLoadState {
    /// No model is loaded and none is being loaded.
    Idle,
    /// A load is under way.
    Loading,
    /// A model is loaded and no load is under way.
    Loaded,
}

/// What the caller does for a `transcribe` call.
#[derive(Clone, Debug, PartialEq, Eq)]
pub enum TranscribeStep {
    /// Return this text; the engine is not asked.
    Done(String),
    /// A load is under way: wait until it is over, then call again.
    WaitForLoad,
    /// Run the loaded engine of this kind on the samples, then report with
    /// `finish_transcribe`.
    Run(EngineKind),
    /// Fail with this error.
    Fail(ModelError),
}

/// What a finished transcription comes to.
#[derive(Clone, Debug, PartialEq, Eq)]
pub struct Transcript {
    /// The text, without white space at its ends.
    pub text: String,
    /// Whether an unloaded-event is to be sent, the model having been
    /// unloaded at once.
    pub unloaded: bool,
}

/// How a load starts.
#[derive(Debug, PartialEq, Eq)]
pub struct LoadStart {
    /// The backend to load the model with, or why there is nothing to load.
    pub backend: Result<EngineKind, ModelError>,
    /// The engine that was resident and is to be released before the
    /// backend is asked.
    pub release: Option<EngineKind>,
    /// The events to send, in order.
    pub events: Vec<ModelStateEvent>,
}

/// Whether `event` reports that the model of this id could not be loaded,
/// with this name and this text.
pub open spec fn is_loading_failed(
    event: ModelStateEvent,
    model_id: Seq<char>,
    model_name: Option<Seq<char>>,
    error: Seq<char>,
) -> bool {
    &&& event.event_type@ == "loading_failed"@
    &&& opt_text(event.model_id) == Some(model_id)
    &&& opt_text(event.model_name) == model_name
    &&& opt_text(event.error) == Some(error)
}

/// The engine slot, the state of loading and the time of the last activity.
pub struct TranscriptionManager {
    pub engine: Option<EngineKind>,
    pub current_model_id: Option<String>,
    pub is_loading: bool,
    /// Milliseconds since the Unix epoch.
    pub last_activity: u64,
}

/// The language handed to the Whisper backend: none for `auto`, `zh` for
/// either Chinese script variant, else the selected language itself.
pub open spec fn whisper_language_text(selected: Seq<char>) -> Option<Seq<char>> {
    if selected == "auto"@ {
        None
    } else if selected == "zh-Hans"@ || selected == "zh-Hant"@ {
        Some("zh"@)
    } else {
        Some(selected)
    }
}

/// The language handed to the Whisper backend.
pub fn whisper_language(selected: &str) -> (r: Option<String>)
    ensures
        opt_text(r) == whisper_language_text(selected@),
{
    if str_eq(selected, "auto") {
        None
    } else if str_eq(selected, "zh-Hans") || str_eq(selected, "zh-Hant") {
        Some(copy_str("zh"))
    } else {
        Some(copy_str(selected))
    }
}

/// Whether the transcript is corrected against the user's list of words
/// before it is handed on: whenever the list holds a word.
pub fn word_correction_due(settings: &AppSettings) -> (r: bool)
    ensures
        r == (settings.custom_words@.len() > 0),
{
    settings.custom_words.len() > 0
}

/// Whether a model that was last active at `last_activity` is unloaded for
/// idleness at `now`: the policy names a time, is not the immediate one, and
/// more than that time has passed.
pub open spec fn idle_unload_due(timeout: ModelUnloadTimeout, last_activity: u64, now: u64) -> bool {
    match timeout {
        ModelUnloadTimeout::AfterSeconds(limit) => now >= last_activity && now - last_activity
            > limit * 1000,
        _ => false,
    }
}

impl TranscriptionManager {
    /// Where the model stands.
    pub open spec fn load_state(&self) -> ModelLoadState {
        if self.is_loading {
            ModelLoadState::Loading
        } else if self.engine is Some {
            ModelLoadState::Loaded
        } else {
            ModelLoadState::Idle
        }
    }

    /// Where the model stands.
    pub fn state(&self) -> (r: ModelLoadState)
        ensures
            r == self.load_state(),
    {
        if self.is_loading {
            ModelLoadState::Loading
        } else if self.engine.is_some() {
            ModelLoadState::Loaded
        } else {
            ModelLoadState::Idle
        }
    }

    /// A manager with an empty slot, last active at `now`.
    pub fn new(now: u64) -> (r: Self)
        ensures
            r.engine is None,
            r.current_model_id is None,
            !r.is_loading,
            r.last_activity == now,
            r.load_state() == ModelLoadState::Idle,
    {
        TranscriptionManager {
            engine: None,
            current_model_id: None,
            is_loading: false,
            last_activity: now,
        }
    }

    /// Whether a model is loaded.
    pub fn is_model_loaded(&self) -> (r: bool)
        ensures
            r == (self.engine is Some),
    {
        self.engine.is_some()
    }

    /// The id of the loaded model.
    pub fn get_current_model(&self) -> (r: Option<String>)
        ensures
            r == self.current_model_id,
    {
        match &self.current_model_id {
            Some(id) => Some(id.clone()),
            None => None,
        }
    }

    /// Asks for the model to be loaded in the background. Returns whether the
    /// caller is to start a load; where one is under way or a model is loaded
    /// nothing changes.
    pub fn initiate_model_load(&mut self) -> (start: bool)
        ensures
            start == (!old(self).is_loading && old(self).engine is None),
            start ==> final(self).is_loading && final(self).engine == old(self).engine
                && final(self).current_model_id == old(self).current_model_id
                && final(self).last_activity == old(self).last_activity,
            !start ==> *final(self) == *old(self),
    {
        if self.is_loading || self.is_model_loaded() {
            false
        } else {
            self.is_loading = true;
            true
        }
    }

    /// The background load is over, however it went: those waiting go on.
    pub fn load_attempt_finished(&mut self)
        ensures
            !final(self).is_loading,
            final(self).engine == old(self).engine,
            final(self).current_model_id == old(self).current_model_id,
            final(self).last_activity == old(self).last_activity,
    {
        self.is_loading = false;
    }

    /// The first part of loading a model. What the store knows of the model
    /// decides whether there is anything to load. A model that the store
    /// does not know, or whose files are not on disk, is an error that is
    /// reported as a failed load, and the slot stays as it is. Else the slot
    /// is emptied, so that no engine is resident while the backend loads:
    /// the engine that was in it is handed out to be released first.
    pub fn begin_load(&mut self, model_id: &str, info: Option<&ModelInfo>) -> (r: LoadStart)
        ensures
            final(self).is_loading == old(self).is_loading,
            final(self).last_activity == old(self).last_activity,
            r.events@.len() >= 1,
            r.events@[0].event_type@ == "loading_started"@,
            opt_text(r.events@[0].model_id) == Some(model_id@),
            r.events@[0].model_name is None && r.events@[0].error is None,
            r.backend is Ok <==> (info matches Some(i) && i.is_downloaded),
            match r.backend {
                Ok(kind) => {
                    &&& info matches Some(i) && kind == i.engine_type
                    &&& r.events@.len() == 1
                    &&& r.release == old(self).engine
                    &&& final(self).engine is None
                    &&& final(self).current_model_id is None
                },
                Err(e) => {
                    &&& r.events@.len() == 2
                    &&& r.release is None
                    &&& final(self).engine == old(self).engine
                    &&& final(self).current_model_id == old(self).current_model_id
                    &&& match info {
                        None => e matches ModelError::NotFound(id) && id@ == model_id@,
                        Some(_) => e == ModelError::NotDownloaded,
                    }
                    &&& is_loading_failed(
                        r.events@[1],
                        model_id@,
                        match info {
                            Some(i) => Some(i.name@),
                            None => None,
                        },
                        e.message_text(),
                    )
                },
            },
    {
        let mut events: Vec<ModelStateEvent> = Vec::new();
        events.push(ModelStateEvent::loading_started(model_id));
        match info {
            None => {
                let error = ModelError::NotFound(copy_str(model_id));
                let message = error.message();
                events.push(ModelStateEvent::loading_failed(model_id, None, message.as_str()));
                LoadStart { backend: Err(error), release: None, events }
            },
            Some(i) => {
                if !i.is_downloaded {
                    let error = ModelError::NotDownloaded;
                    let message = error.message();
                    events.push(
                        ModelStateEvent::loading_failed(
                            model_id,
                            Some(i.name.as_str()),
                            message.as_str(),
                        ),
                    );
                    LoadStart { backend: Err(error), release: None, events }
                } else {
                    let was = self.engine;
                    self.engine = None;
                    self.current_model_id = None;
                    LoadStart { backend: Ok(i.engine_type), release: was, events }
                }
            },
        }
    }

    /// The second part of loading a model: takes in what the backend said.
    /// A loaded model takes the slot and becomes the current one; a failure
    /// leaves the slot as it is found, which after `begin_load` is empty,
    /// and is wrapped with the backend's name and the model's id. Either way
    /// the event to send is handed out.
    pub fn finish_load(
        &mut self,
        model_id: &str,
        info: &ModelInfo,
        outcome: Result<(), String>,
    ) -> (r: (Result<(), ModelError>, ModelStateEvent))
        ensures
            final(self).is_loading == old(self).is_loading,
            final(self).last_activity == old(self).last_activity,
            opt_text(r.1.model_id) == Some(model_id@),
            opt_text(r.1.model_name) == Some(info.name@),
            match outcome {
                Ok(_) => {
                    &&& r.0 is Ok
                    &&& final(self).engine == Some(info.engine_type)
                    &&& opt_text(final(self).current_model_id) == Some(model_id@)
                    &&& r.1.event_type@ == "loading_completed"@
                    &&& r.1.error is None
                },
                Err(why) => {
                    &&& r.0 matches Err(ModelError::LoadFailed(kind, id, reason)) && kind
                        == info.engine_type && id@ == model_id@ && reason@ == why@
                    &&& final(self).engine == old(self).engine
                    &&& final(self).current_model_id == old(self).current_model_id
                    &&& r.1.event_type@ == "loading_failed"@
                    &&& opt_text(r.1.error) == Some(
                        load_failure_text(info.engine_type, model_id@, why@),
                    )
                },
            },
    {
        match outcome {
            Ok(_) => {
                self.engine = Some(info.engine_type);
                self.current_model_id = Some(copy_str(model_id));
                (Ok(()), ModelStateEvent::loading_completed(model_id, info.name.as_str()))
            },
            Err(why) => {
                let error = ModelError::LoadFailed(info.engine_type, copy_str(model_id), why);
                let message = error.message();
                let event = ModelStateEvent::loading_failed(
                    model_id,
                    Some(info.name.as_str()),
                    message.as_str(),
                );
                (Err(error), event)
            },
        }
    }

    /// Empties the slot. Hands out the kind of engine that was in it, for
    /// the caller to release, and the event to send.
    pub fn unload_model(&mut self) -> (r: (Option<EngineKind>, ModelStateEvent))
        ensures
            final(self).engine is None,
            final(self).current_model_id is None,
            final(self).is_loading == old(self).is_loading,
            final(self).last_activity == old(self).last_activity,
            r.0 == old(self).engine,
            r.1.event_type@ == "unloaded"@,
            r.1.model_id is None && r.1.model_name is None && r.1.error is None,
    {
        let was = self.engine;
        self.engine = None;
        self.current_model_id = None;
        (was, ModelStateEvent::unloaded())
    }

    /// One look of the idle watcher at `now`: unloads a loaded model that
    /// has been idle for longer than the policy allows, and hands out what
    /// `unload_model` does. The immediate policy is not the watcher's.
    pub fn unload_if_idle(&mut self, timeout: ModelUnloadTimeout, now: u64) -> (r: Option<
        (Option<EngineKind>, ModelStateEvent),
    >)
        ensures
            r is Some
                == (idle_unload_due(timeout, old(self).last_activity, now) && old(self).engine is Some),
            final(self).is_loading == old(self).is_loading,
            final(self).last_activity == old(self).last_activity,
            match r {
                Some(u) => final(self).engine is None && final(self).current_model_id is None
                    && u.0 == old(self).engine && u.1.event_type@ == "unloaded"@,
                None => final(self).engine == old(self).engine && final(self).current_model_id
                    == old(self).current_model_id,
            },
    {
        match timeout {
            ModelUnloadTimeout::AfterSeconds(limit) => {
                let idle: u64 = if now >= self.last_activity {
                    now - self.last_activity
                } else {
                    0
                };
                let over: bool = match limit.checked_mul(1000) {
                    Some(limit_ms) => idle > limit_ms,
                    None => false,
                };
                if over && self.is_model_loaded() {
                    Some(self.unload_model())
                } else {
                    None
                }
            },
            _ => None,
        }
    }

    /// Starts a transcription of `audio` at `now`. The time of the last
    /// activity is set in every case. Empty audio is answered at once with
    /// the empty text, and nothing else changes. A load under way is waited
    /// for; with no model loaded the call fails; else the loaded engine runs.
    pub fn transcribe<T>(&mut self, audio: &Vec<T>, now: u64) -> (step: TranscribeStep)
        ensures
            final(self).last_activity == now,
            final(self).engine == old(self).engine,
            final(self).current_model_id == old(self).current_model_id,
            final(self).is_loading == old(self).is_loading,
            final(self).load_state() == old(self).load_state(),
            if audio@.len() == 0 {
                step matches TranscribeStep::Done(text) && text@.len() == 0
            } else if old(self).is_loading {
                step == TranscribeStep::WaitForLoad
            } else {
                match old(self).engine {
                    Some(kind) => step == TranscribeStep::Run(kind),
                    None => step == TranscribeStep::Fail(ModelError::NotLoaded),
                }
            },
    {
        self.last_activity = now;
        if audio.len() == 0 {
            return TranscribeStep::Done(String::new());
        }
        if self.is_loading {
            return TranscribeStep::WaitForLoad;
        }
        match self.engine {
            Some(kind) => TranscribeStep::Run(kind),
            None => TranscribeStep::Fail(ModelError::NotLoaded),
        }
    }

    /// Ends a transcription with what the engine of kind `kind` said. A
    /// failure is wrapped with the backend's name. A text is trimmed; under
    /// the immediate policy the model is unloaded at once.
    pub fn finish_transcribe(
        &mut self,
        kind: EngineKind,
        settings: &AppSettings,
        outcome: Result<String, String>,
    ) -> (r: Result<Transcript, ModelError>)
        ensures
            final(self).is_loading == old(self).is_loading,
            final(self).last_activity == old(self).last_activity,
            match outcome {
                Ok(text) => {
                    &&& r matches Ok(t) && t.text@ == trimmed(text@) && t.unloaded == (
                    settings.model_unload_timeout == ModelUnloadTimeout::Immediately)
                    &&& if settings.model_unload_timeout == ModelUnloadTimeout::Immediately {
                        final(self).engine is None && final(self).current_model_id is None
                    } else {
                        final(self).engine == old(self).engine && final(self).current_model_id
                            == old(self).current_model_id
                    }
                },
                Err(why) => {
                    &&& r matches Err(ModelError::TranscriptionFailed(k, reason)) && k == kind
                        && reason@ == why@
                    &&& final(self).engine == old(self).engine
                    &&& final(self).current_model_id == old(self).current_model_id
                },
            },
    {
        match outcome {
            Ok(text) => {
                let unload = match settings.model_unload_timeout {
                    ModelUnloadTimeout::Immediately => true,
                    _ => false,
                };
                if unload {
                    let _ = self.unload_model();
                }
                Ok(Transcript { text: str_trim(text.as_str()), unloaded: unload })
            },
            Err(why) => Err(ModelError::TranscriptionFailed(kind, why)),
        }
    }
}

} // verus!
