//! The end of the start-up: the splash screen goes once both the frontend
//! and the backend are ready.

use vstd::prelude::*;

verus! {

/// What is known of the start-up.
#[derive(Clone, Copy, Debug, PartialEq, Eq, Structural)]
pub struct StartupState {
    pub frontend_ready: bool,
    pub backend_ready: bool,
    pub start_hidden: bool,
    pub finished: bool,
}

/// What is to be done to the windows.
#[derive(Clone, Copy, Debug, PartialEq, Eq, Structural)]
pub enum StartupAction {
    Nothing,
    /// Close the splash screen; the main window stays hidden.
    CloseSplash,
    /// Close the splash screen and show the main window.
    CloseSplashAndShowMain,
}

impl StartupState {
    /// Whether the start-up ends now: both sides are ready and it has not
    /// ended before.
    pub open spec fn finishes(self) -> bool {
        self.frontend_ready && self.backend_ready && !self.finished
    }

    /// The action that ends the start-up.
    pub open spec fn finishing_action(self) -> StartupAction {
        if !self.finishes() {
            StartupAction::Nothing
        } else if self.start_hidden {
            StartupAction::CloseSplash
        } else {
            StartupAction::CloseSplashAndShowMain
        }
    }

    /// Ends the start-up where it is due, once.
    pub fn finish_startup_if_ready(&mut self) -> (r: StartupAction)
        ensures
            r == old(self).finishing_action(),
            *final(self) == (StartupState {
                finished: old(self).finished || old(self).finishes(),
                ..*old(self)
            }),
    {
        if self.frontend_ready && self.backend_ready && !self.finished {
            self.finished = true;
            if self.start_hidden {
                StartupAction::CloseSplash
            } else {
                StartupAction::CloseSplashAndShowMain
            }
        } else {
            StartupAction::Nothing
        }
    }

    /// The backend is ready.
    pub fn mark_backend_ready(&mut self) -> (r: StartupAction)
        ensures
            r == (StartupState { backend_ready: true, ..*old(self) }).finishing_action(),
            final(self).backend_ready,
            final(self).frontend_ready == old(self).frontend_ready,
            final(self).start_hidden == old(self).start_hidden,
            final(self).finished == (old(self).finished || old(self).frontend_ready),
    {
        self.backend_ready = true;
        self.finish_startup_if_ready()
    }

    /// Sets whether the main window stays hidden when the start-up ends.
    pub fn set_start_hidden(&mut self, start_hidden: bool)
        ensures
            *final(self) == (StartupState { start_hidden, ..*old(self) }),
    {
        self.start_hidden = start_hidden;
    }

    /// The frontend is ready. Said a second time, nothing happens.
    pub fn mark_frontend_ready(&mut self) -> (r: StartupAction)
        ensures
            old(self).frontend_ready ==> r == StartupAction::Nothing && *final(self) == *old(self),
            !old(self).frontend_ready ==> r == (StartupState {
                frontend_ready: true,
                ..*old(self)
            }).finishing_action() && final(self).frontend_ready && final(self).backend_ready
                == old(self).backend_ready && final(self).start_hidden == old(self).start_hidden
                && final(self).finished == (old(self).finished || old(self).backend_ready),
    {
        if self.frontend_ready {
            return StartupAction::Nothing;
        }
        self.frontend_ready = true;
        self.finish_startup_if_ready()
    }
}

impl Default for StartupState {
    fn default() -> (r: StartupState)
        ensures
            r == (StartupState {
                frontend_ready: false,
                backend_ready: false,
                start_hidden: false,
                finished: false,
            }),
    {
        StartupState {
            frontend_ready: false,
            backend_ready: false,
            start_hidden: false,
            finished: false,
        }
    }
}

/// The start-up ends at most once: after it has ended, no marking ends it
/// again.
pub proof fn law_startup_finishes_once(state: StartupState)
    requires
        state.finished,
    ensures
        state.finishing_action() == StartupAction::Nothing,
        (StartupState { backend_ready: true, ..state }).finishing_action()
            == StartupAction::Nothing,
        (StartupState { frontend_ready: true, ..state }).finishing_action()
            == StartupAction::Nothing,
{
}

} // verus!
