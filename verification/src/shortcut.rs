//! Shortcut bindings: which strings name a usable shortcut, and what a
//! shortcut going down or up starts and stops.

use crate::post_process::opt_text;
use crate::text::{
    concat, concat3, copy_str, is_text, lowercased, split_char, split_seq, str_eq, to_chars,
    to_lowercase, trim, trimmed, views,
};
use vstd::prelude::*;

verus! {

/// A shortcut and the action it is bound to.
#[derive(Clone, Debug, PartialEq, Eq)]
pub struct ShortcutBinding {
    pub id: String,
    pub name: String,
    pub description: String,
    pub default_binding: String,
    pub current_binding: String,
}

/// The answer to a change of a binding.
#[derive(Clone, Debug, PartialEq, Eq)]
pub struct BindingResponse {
    pub success: bool,
    pub binding: Option<ShortcutBinding>,
    pub error: Option<String>,
}

/// Whether a lower-case key name is that of a modifier.
pub open spec fn is_modifier_name(name: Seq<char>) -> bool {
    name == "ctrl"@ || name == "control"@ || name == "shift"@ || name == "alt"@ || name
        == "option"@ || name == "meta"@ || name == "command"@ || name == "cmd"@ || name
        == "super"@ || name == "win"@ || name == "windows"@
}

/// Whether a part of a shortcut string names a key that is no modifier:
/// white space at its ends and the case of its letters do not count.
pub open spec fn names_non_modifier(part: Seq<char>) -> bool {
    !is_modifier_name(lowercased(trimmed(part)))
}

/// Whether a shortcut string, its keys joined by `+`, names at least one
/// key that is no modifier.
pub open spec fn has_non_modifier(raw: Seq<char>) -> bool {
    exists|i: int|
        0 <= i < split_seq(raw, seq!['+']).len() && names_non_modifier(
            #[trigger] split_seq(raw, seq!['+'])[i],
        )
}

fn modifier_name(name: &Vec<char>) -> (r: bool)
    ensures
        r == is_modifier_name(name@),
{
    is_text(name, "ctrl") || is_text(name, "control") || is_text(name, "shift") || is_text(
        name,
        "alt",
    ) || is_text(name, "option") || is_text(name, "meta") || is_text(name, "command")
        || is_text(name, "cmd") || is_text(name, "super") || is_text(name, "win") || is_text(
        name,
        "windows",
    )
}

/// Accepts a shortcut string that holds at least one key that is no
/// modifier; a single such key will do. A string of modifiers only is
/// turned down.
pub fn validate_shortcut_string(raw: &str) -> (r: Result<(), String>)
    ensures
        match r {
            Ok(_) => has_non_modifier(raw@),
            Err(e) => !has_non_modifier(raw@) && e@
                == "Shortcut must contain at least one non-modifier key"@,
        },
{
    let chars = to_chars(raw);
    let parts = split_char(&chars, '+');
    let ghost pieces = split_seq(raw@, seq!['+']);
    let mut i: usize = 0;
    while i < parts.len()
        invariant
            i <= parts.len(),
            views(parts@) == pieces,
            pieces == split_seq(raw@, seq!['+']),
            forall|j: int| 0 <= j < i ==> !names_non_modifier(#[trigger] pieces[j]),
        decreases parts.len() - i,
    {
        assert(views(parts@)[i as int] == parts@[i as int]@);
        let name = to_lowercase(&trim(&parts[i]));
        if !modifier_name(&name) {
            assert(names_non_modifier(pieces[i as int]));
            return Ok(());
        }
        i += 1;
    }
    assert(pieces.len() == parts@.len());
    Err(copy_str("Shortcut must contain at least one non-modifier key"))
}

/// What happened to a shortcut.
#[derive(Clone, Copy, Debug, PartialEq, Eq, Structural)]
pub enum ShortcutState {
    Pressed,
    Released,
}

/// What is done to the action that a shortcut is bound to.
#[derive(Clone, Copy, Debug, PartialEq, Eq, Structural)]
pub enum ActionCall {
    Start,
    Stop,
    Nothing,
}

/// What a shortcut event does to its action, and whether the action is
/// active afterwards. With push-to-talk, pressing starts and releasing
/// stops. Without, each press toggles and releases do nothing.
pub open spec fn shortcut_effect(push_to_talk: bool, state: ShortcutState, active: bool) -> (
    ActionCall,
    bool,
) {
    if push_to_talk {
        match state {
            ShortcutState::Pressed => (ActionCall::Start, active),
            ShortcutState::Released => (ActionCall::Stop, active),
        }
    } else {
        match state {
            ShortcutState::Pressed => if active {
                (ActionCall::Stop, false)
            } else {
                (ActionCall::Start, true)
            },
            ShortcutState::Released => (ActionCall::Nothing, active),
        }
    }
}

/// What a shortcut event does to its action, and whether the action is
/// active afterwards.
pub fn shortcut_transition(push_to_talk: bool, state: ShortcutState, active: bool) -> (r: (
    ActionCall,
    bool,
))
    ensures
        r == shortcut_effect(push_to_talk, state, active),
{
    if push_to_talk {
        match state {
            ShortcutState::Pressed => (ActionCall::Start, active),
            ShortcutState::Released => (ActionCall::Stop, active),
        }
    } else {
        match state {
            ShortcutState::Pressed => if active {
                (ActionCall::Stop, false)
            } else {
                (ActionCall::Start, true)
            },
            ShortcutState::Released => (ActionCall::Nothing, active),
        }
    }
}

/// Whether the action of one binding is toggled on.
#[derive(Clone, Debug, PartialEq, Eq)]
pub struct ToggleEntry {
    pub binding_id: String,
    pub active: bool,
}

/// Switches every toggle off without stopping its action: what a
/// cancellation does, so that nothing is handed on for transcription.
pub fn reset_toggles(toggles: &mut Vec<ToggleEntry>)
    ensures
        final(toggles)@.len() == old(toggles)@.len(),
        forall|i: int|
            0 <= i < old(toggles)@.len() ==> (#[trigger] final(toggles)@[i]).binding_id == old(toggles)@[i].binding_id
                && !final(toggles)@[i].active,
{
    let n = toggles.len();
    let mut i: usize = 0;
    while i < n
        invariant
            i <= n,
            n == toggles@.len(),
            n == old(toggles)@.len(),
            forall|j: int|
                0 <= j < n ==> (#[trigger] toggles@[j]).binding_id == old(toggles)@[j].binding_id,
            forall|j: int| 0 <= j < i ==> !(#[trigger] toggles@[j]).active,
        decreases n - i,
    {
        let id = toggles[i].binding_id.clone();
        toggles.set(i, ToggleEntry { binding_id: id, active: false });
        i += 1;
    }
}

impl BindingResponse {
    /// No binding has the id asked for.
    pub fn not_found(id: &str) -> (r: BindingResponse)
        ensures
            !r.success,
            r.binding is None,
            opt_text(r.error) == Some("Binding with id '"@ + id@ + "' not found"@),
    {
        let head = concat("Binding with id '", id);
        BindingResponse {
            success: false,
            binding: None,
            error: Some(concat(head.as_str(), "' not found")),
        }
    }

    /// The new shortcut could not be registered; `why` says why.
    pub fn registration_failed(why: &str) -> (r: BindingResponse)
        ensures
            !r.success,
            r.binding is None,
            opt_text(r.error) == Some("Failed to register shortcut: "@ + why@),
    {
        BindingResponse {
            success: false,
            binding: None,
            error: Some(concat("Failed to register shortcut: ", why)),
        }
    }

    /// The binding has been changed to `binding`.
    pub fn changed(binding: ShortcutBinding) -> (r: BindingResponse)
        ensures
            r.success,
            r.binding == Some(binding),
            r.error is None,
    {
        BindingResponse { success: true, binding: Some(binding), error: None }
    }
}

/// Whether an action is defined for a binding id: there is one for
/// transcribing and one for testing.
pub open spec fn is_action_id(id: Seq<char>) -> bool {
    id == "transcribe"@ || id == "test"@
}

/// Whether an action is defined for the binding id.
pub fn has_action(binding_id: &str) -> (r: bool)
    ensures
        r == is_action_id(binding_id@),
{
    str_eq(binding_id, "transcribe") || str_eq(binding_id, "test")
}

/// Why a shortcut could not be registered or unregistered.
#[derive(Clone, Debug, PartialEq, Eq)]
pub enum RegistrationError {
    /// No action is defined for the binding id.
    NoAction(String),
    /// The shortcut holds modifiers only.
    ModifiersOnly,
    /// The shortcut string could not be parsed: the string, and why.
    ParseFailed(String, String),
    /// The shortcut is registered already.
    AlreadyInUse(String),
    /// The system turned the registration down: the string, and why.
    RegisterFailed(String, String),
    /// The shortcut string could not be parsed for unregistering.
    UnregisterParseFailed(String, String),
    /// The system turned the unregistration down: the string, and why.
    UnregisterFailed(String, String),
}

impl RegistrationError {
    /// The text shown for the error.
    pub open spec fn message_text(self) -> Seq<char> {
        match self {
            RegistrationError::NoAction(id) => "No action defined in ACTION_MAP for binding ID '"@
                + id@ + "'"@,
            RegistrationError::ModifiersOnly =>
                "Shortcut must contain at least one non-modifier key"@,
            RegistrationError::ParseFailed(shortcut, why) => "Failed to parse shortcut '"@
                + shortcut@ + "': "@ + why@,
            RegistrationError::AlreadyInUse(shortcut) => "Shortcut '"@ + shortcut@
                + "' is already in use"@,
            RegistrationError::RegisterFailed(shortcut, why) => "Couldn't register shortcut '"@
                + shortcut@ + "': "@ + why@,
            RegistrationError::UnregisterParseFailed(shortcut, why) =>
                "Failed to parse shortcut '"@ + shortcut@ + "' for unregistration: "@ + why@,
            RegistrationError::UnregisterFailed(shortcut, why) =>
                "Failed to unregister shortcut '"@ + shortcut@ + "': "@ + why@,
        }
    }

    /// The text shown for the error.
    pub fn message(&self) -> (r: String)
        ensures
            r@ == self.message_text(),
    {
        match self {
            RegistrationError::NoAction(id) => concat3(
                "No action defined in ACTION_MAP for binding ID '",
                id.as_str(),
                "'",
            ),
            RegistrationError::ModifiersOnly => copy_str(
                "Shortcut must contain at least one non-modifier key",
            ),
            RegistrationError::ParseFailed(shortcut, why) => {
                let head = concat3("Failed to parse shortcut '", shortcut.as_str(), "': ");
                concat(head.as_str(), why.as_str())
            },
            RegistrationError::AlreadyInUse(shortcut) => concat3(
                "Shortcut '",
                shortcut.as_str(),
                "' is already in use",
            ),
            RegistrationError::RegisterFailed(shortcut, why) => {
                let head = concat3("Couldn't register shortcut '", shortcut.as_str(), "': ");
                concat(head.as_str(), why.as_str())
            },
            RegistrationError::UnregisterParseFailed(shortcut, why) => {
                let head = concat3(
                    "Failed to parse shortcut '",
                    shortcut.as_str(),
                    "' for unregistration: ",
                );
                concat(head.as_str(), why.as_str())
            },
            RegistrationError::UnregisterFailed(shortcut, why) => {
                let head = concat3("Failed to unregister shortcut '", shortcut.as_str(), "': ");
                concat(head.as_str(), why.as_str())
            },
        }
    }
}

/// Checks a binding before anything is asked of the system: an action must
/// be defined for it, and its shortcut must hold a key that is no modifier.
pub fn check_registration(binding: &ShortcutBinding) -> (r: Result<(), RegistrationError>)
    ensures
        match r {
            Ok(_) => is_action_id(binding.id@) && has_non_modifier(binding.current_binding@),
            Err(RegistrationError::NoAction(id)) => !is_action_id(binding.id@) && id@
                == binding.id@,
            Err(RegistrationError::ModifiersOnly) => is_action_id(binding.id@)
                && !has_non_modifier(binding.current_binding@),
            Err(_) => false,
        },
{
    if !has_action(binding.id.as_str()) {
        return Err(RegistrationError::NoAction(binding.id.clone()));
    }
    match validate_shortcut_string(binding.current_binding.as_str()) {
        Ok(_) => Ok(()),
        Err(_) => Err(RegistrationError::ModifiersOnly),
    }
}

/// What the system said to registering a shortcut that has passed
/// `check_registration`.
#[derive(Debug, PartialEq, Eq)]
pub struct RegistrationAttempt {
    /// Whether the shortcut string could be parsed; the error says why not.
    pub parsed: Result<(), String>,
    /// Whether the shortcut is registered already.
    pub in_use: bool,
    /// What the registration came to, where it was tried.
    pub registered: Result<(), String>,
}

/// What registering a shortcut comes to: the parsing comes first, then a
/// shortcut that is in use is turned down, then the registration counts.
pub fn registration_outcome(shortcut: &str, attempt: RegistrationAttempt) -> (r: Result<
    (),
    RegistrationError,
>)
    ensures
        match attempt.parsed {
            Err(why) => r matches Err(RegistrationError::ParseFailed(s, w)) && s@ == shortcut@
                && w == why,
            Ok(_) => if attempt.in_use {
                r matches Err(RegistrationError::AlreadyInUse(s)) && s@ == shortcut@
            } else {
                match attempt.registered {
                    Ok(_) => r is Ok,
                    Err(why) => r matches Err(RegistrationError::RegisterFailed(s, w)) && s@
                        == shortcut@ && w == why,
                }
            },
        },
{
    match attempt.parsed {
        Err(why) => Err(RegistrationError::ParseFailed(copy_str(shortcut), why)),
        Ok(_) => {
            if attempt.in_use {
                Err(RegistrationError::AlreadyInUse(copy_str(shortcut)))
            } else {
                match attempt.registered {
                    Ok(_) => Ok(()),
                    Err(why) => Err(RegistrationError::RegisterFailed(copy_str(shortcut), why)),
                }
            }
        },
    }
}

/// What unregistering a shortcut comes to, given whether its string could
/// be parsed and what the system said.
pub fn unregistration_outcome(
    shortcut: &str,
    parsed: Result<(), String>,
    unregistered: Result<(), String>,
) -> (r: Result<(), RegistrationError>)
    ensures
        match parsed {
            Err(why) => r matches Err(RegistrationError::UnregisterParseFailed(s, w)) && s@
                == shortcut@ && w == why,
            Ok(_) => match unregistered {
                Ok(_) => r is Ok,
                Err(why) => r matches Err(RegistrationError::UnregisterFailed(s, w)) && s@
                    == shortcut@ && w == why,
            },
        },
{
    match parsed {
        Err(why) => Err(RegistrationError::UnregisterParseFailed(copy_str(shortcut), why)),
        Ok(_) => match unregistered {
            Ok(_) => Ok(()),
            Err(why) => Err(RegistrationError::UnregisterFailed(copy_str(shortcut), why)),
        },
    }
}

/// The index of the binding of the given id.
pub fn find_binding(bindings: &Vec<ShortcutBinding>, id: &str) -> (r: Option<usize>)
    ensures
        match r {
            Some(i) => i < bindings.len() && bindings@[i as int].id@ == id@ && forall|j: int|
                0 <= j < i ==> bindings@[j].id@ != id@,
            None => forall|j: int| 0 <= j < bindings.len() ==> bindings@[j].id@ != id@,
        },
{
    let mut i: usize = 0;
    while i < bindings.len()
        invariant
            i <= bindings.len(),
            forall|j: int| 0 <= j < i ==> bindings@[j].id@ != id@,
        decreases bindings.len() - i,
    {
        if str_eq(bindings[i].id.as_str(), id) {
            return Some(i);
        }
        i += 1;
    }
    None
}

/// The binding with another shortcut in the place of its current one.
pub fn rebound(binding: &ShortcutBinding, shortcut: String) -> (r: ShortcutBinding)
    ensures
        r == (ShortcutBinding { current_binding: shortcut, ..*binding }),
{
    ShortcutBinding {
        id: binding.id.clone(),
        name: binding.name.clone(),
        description: binding.description.clone(),
        default_binding: binding.default_binding.clone(),
        current_binding: shortcut,
    }
}

} // verus!
