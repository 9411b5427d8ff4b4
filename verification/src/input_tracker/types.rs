//! Core types of the input tracker.

use vstd::prelude::*;

verus! {

/// The keys that the tracker tells apart; every other key is `Other`.
#[derive(Clone, Copy, Debug, PartialEq, Eq, Structural)]
pub enum Key {
    ShiftLeft,
    ShiftRight,
    ControlLeft,
    ControlRight,
    Alt,
    AltGr,
    MetaLeft,
    MetaRight,
    LeftArrow,
    RightArrow,
    UpArrow,
    DownArrow,
    Home,
    End,
    PageUp,
    PageDown,
    Return,
    Tab,
    Escape,
    Backspace,
    Delete,
    KeyA,
    KeyC,
    KeyS,
    KeyV,
    KeyX,
    KeyY,
    KeyZ,
    Other,
}

/// The keyboard conventions that the tracker follows.
#[derive(Clone, Copy, Debug, PartialEq, Eq, Structural)]
pub enum Platform {
    /// Option jumps by word, Command by line.
    MacOs,
    /// Control jumps by word; lines are left to Home and End.
    Other,
}

/// A key going down or up, with the text it types, if any.
#[derive(Clone, Debug, PartialEq, Eq)]
pub struct KeystrokeEvent {
    pub key: Key,
    pub unicode: Option<String>,
    pub is_press: bool,
}

/// The application that has the focus.
#[derive(Clone, Debug, PartialEq, Eq)]
pub struct ActiveAppInfo {
    pub name: String,
    pub bundle_id: Option<String>,
    pub pid: Option<i32>,
}

/// What is saved of one stretch of typing.
#[derive(Clone, Debug, PartialEq, Eq)]
pub struct InputEntry {
    pub app_name: String,
    pub app_bundle_id: Option<String>,
    pub app_pid: Option<i32>,
    pub content: String,
    /// Seconds since the Unix epoch.
    pub timestamp: i64,
    pub duration_ms: i64,
}

/// What the tracker is told.
#[derive(Clone, Debug, PartialEq, Eq)]
pub enum InputTrackerEvent {
    /// Another application has the focus.
    AppChanged(ActiveAppInfo),
    /// A key went down or up.
    Keystroke(KeystrokeEvent),
    /// A mouse button went down; with it, the application that has the
    /// focus now.
    Click(ActiveAppInfo),
    /// Time to look whether the typing has paused.
    IdleCheck,
    /// The tracker is shut down.
    Shutdown,
}

/// What two applications have in common where they are the same one.
pub open spec fn same_app(a: ActiveAppInfo, b: ActiveAppInfo) -> bool {
    a.name@ == b.name@ && a.pid == b.pid && match (a.bundle_id, b.bundle_id) {
        (Some(x), Some(y)) => x@ == y@,
        (None, None) => true,
        _ => false,
    }
}

impl ActiveAppInfo {
    /// No application: an empty name and nothing else.
    pub fn empty() -> (r: ActiveAppInfo)
        ensures
            r.name@ == Seq::<char>::empty(),
            r.bundle_id is None,
            r.pid is None,
    {
        ActiveAppInfo { name: String::new(), bundle_id: None, pid: None }
    }

    /// A copy of the value.
    pub fn duplicate(&self) -> (r: ActiveAppInfo)
        ensures
            r == *self,
    {
        ActiveAppInfo {
            name: self.name.clone(),
            bundle_id: match &self.bundle_id {
                Some(b) => Some(b.clone()),
                None => None,
            },
            pid: self.pid,
        }
    }

    /// Whether `other` is the same application: name, bundle and process
    /// all agree.
    pub fn same_as(&self, other: &ActiveAppInfo) -> (r: bool)
        ensures
            r == same_app(*self, *other),
    {
        let names = self.name == other.name;
        let pids = match (self.pid, other.pid) {
            (Some(a), Some(b)) => a == b,
            (None, None) => true,
            _ => false,
        };
        let bundles = match (&self.bundle_id, &other.bundle_id) {
            (Some(a), Some(b)) => *a == *b,
            (None, None) => true,
            _ => false,
        };
        names && pids && bundles
    }
}

impl Default for ActiveAppInfo {
    fn default() -> (r: ActiveAppInfo)
        ensures
            r.name@ == Seq::<char>::empty(),
            r.bundle_id is None,
            r.pid is None,
    {
        ActiveAppInfo::empty()
    }
}

} // verus!
