//! The recording session: at most one at a time, named by the binding that
//! started it.

use crate::buffers::extend_copy;
use crate::post_process::opt_text;
use crate::text::{copy_str, str_eq};
use vstd::prelude::*;

verus! {

/// The one recording session, if any, with what it has captured. `T` is the
/// sample type.
pub struct AudioRecordingManager<T> {
    /// The binding that started the active session.
    pub active_binding: Option<String>,
    /// The samples captured in the active session.
    pub samples: Vec<T>,
    /// Whether other sound is muted while recording. This bears on what the
    /// user hears, never on what is captured.
    pub muted: bool,
}

impl<T: Copy> AudioRecordingManager<T> {
    /// No session is active and nothing is held.
    pub open spec fn idle(&self) -> bool {
        self.active_binding is None && self.samples@.len() == 0 && !self.muted
    }

    /// Whether a session can be started: none is active, and the input
    /// device could be opened.
    pub open spec fn can_start(&self, device_opened: bool) -> bool {
        self.active_binding is None && device_opened
    }

    /// A manager without a session.
    pub fn new() -> (r: Self)
        ensures
            r.idle(),
    {
        AudioRecordingManager { active_binding: None, samples: Vec::new(), muted: false }
    }

    /// Whether a session is active.
    pub fn is_recording(&self) -> (r: bool)
        ensures
            r == (self.active_binding is Some),
    {
        self.active_binding.is_some()
    }

    /// Starts a session for `binding_id`. `device_opened` says whether the
    /// input device could be opened. Fails, changing nothing, where a session
    /// is active already or the device could not be opened.
    pub fn try_start_recording(&mut self, binding_id: &str, device_opened: bool) -> (started: bool)
        ensures
            started == old(self).can_start(device_opened),
            started ==> opt_text(final(self).active_binding) == Some(binding_id@)
                && final(self).samples@.len() == 0
                && final(self).muted == old(self).muted,
            !started ==> *final(self) == *old(self),
    {
        if self.active_binding.is_some() || !device_opened {
            return false;
        }
        self.active_binding = Some(copy_str(binding_id));
        self.samples.clear();
        true
    }

    /// Takes in a chunk of captured audio: kept while a session is active,
    /// dropped otherwise. Muting does not bear on it.
    pub fn capture(&mut self, chunk: &Vec<T>)
        ensures
            final(self).active_binding == old(self).active_binding,
            final(self).muted == old(self).muted,
            final(self).samples@ == if old(self).active_binding is Some {
                old(self).samples@ + chunk@
            } else {
                old(self).samples@
            },
    {
        if self.active_binding.is_some() {
            extend_copy(&mut self.samples, chunk);
        }
    }

    /// Mutes other sound for the length of the session. Without a session
    /// nothing happens.
    pub fn apply_mute(&mut self)
        ensures
            final(self).active_binding == old(self).active_binding,
            final(self).samples@ == old(self).samples@,
            final(self).muted == (old(self).muted || old(self).active_binding is Some),
    {
        if self.active_binding.is_some() {
            self.muted = true;
        }
    }

    /// Lifts the muting.
    pub fn remove_mute(&mut self)
        ensures
            final(self).active_binding == old(self).active_binding,
            final(self).samples@ == old(self).samples@,
            !final(self).muted,
    {
        self.muted = false;
    }

    /// Ends the session that `binding_id` started and hands out what it
    /// captured. With another binding's session active, or none, nothing
    /// happens and the result is `None`.
    pub fn stop_recording(&mut self, binding_id: &str) -> (r: Option<Vec<T>>)
        ensures
            match r {
                Some(samples) => opt_text(old(self).active_binding) == Some(binding_id@)
                    && samples@ == old(self).samples@ && final(self).idle(),
                None => opt_text(old(self).active_binding) != Some(binding_id@) && *final(self)
                    == *old(self),
            },
    {
        let same = match &self.active_binding {
            Some(active) => str_eq(active.as_str(), binding_id),
            None => false,
        };
        if !same {
            return None;
        }
        let mut samples: Vec<T> = Vec::new();
        extend_copy(&mut samples, &self.samples);
        assert(samples@ =~= self.samples@);
        self.active_binding = None;
        self.samples.clear();
        self.muted = false;
        Some(samples)
    }

    /// Aborts the session, whoever started it: capture ends and what was
    /// captured is thrown away. Nothing is handed out for transcription.
    pub fn cancel_recording(&mut self)
        ensures
            final(self).idle(),
    {
        self.active_binding = None;
        self.samples.clear();
        self.muted = false;
    }
}

/// While a session is active no other can be started, whatever the binding
/// and whether or not the device would open: `try_start_recording` returns
/// `false` and leaves the session, its samples included, as it was.
pub proof fn law_one_session_at_a_time<T: Copy>(
    manager: AudioRecordingManager<T>,
    device_opened: bool,
)
    requires
        manager.active_binding is Some,
    ensures
        !manager.can_start(device_opened),
{
}

} // verus!
