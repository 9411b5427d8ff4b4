use echo_voice::shortcut::{
    check_registration, find_binding, has_action, rebound, registration_outcome, reset_toggles,
    shortcut_transition, unregistration_outcome, validate_shortcut_string, ActionCall,
    BindingResponse, RegistrationAttempt, RegistrationError, ShortcutBinding, ShortcutState,
    ToggleEntry,
};

#[test]
fn shortcuts_need_a_key_that_is_no_modifier() {
    assert_eq!(validate_shortcut_string("ctrl+shift+space"), Ok(()));
    assert_eq!(validate_shortcut_string("f5"), Ok(()));
    assert_eq!(validate_shortcut_string("space"), Ok(()));
    assert_eq!(validate_shortcut_string("Cmd + Option + K"), Ok(()));
    let err = Err("Shortcut must contain at least one non-modifier key".to_string());
    assert_eq!(validate_shortcut_string("ctrl"), err);
    assert_eq!(validate_shortcut_string("ctrl+shift"), err);
    assert_eq!(validate_shortcut_string("CTRL + Shift"), err);
    assert_eq!(
        validate_shortcut_string("control+alt+option+meta+command+cmd+super+win+windows"),
        err
    );
}

#[test]
fn empty_parts_count_as_keys() {
    assert_eq!(validate_shortcut_string(""), Ok(()));
    assert_eq!(validate_shortcut_string("ctrl+"), Ok(()));
    assert_eq!(validate_shortcut_string("ctrl++shift"), Ok(()));
}

#[test]
fn push_to_talk_starts_on_press_and_stops_on_release() {
    assert_eq!(shortcut_transition(true, ShortcutState::Pressed, false), (ActionCall::Start, false));
    assert_eq!(shortcut_transition(true, ShortcutState::Released, false), (ActionCall::Stop, false));
    assert_eq!(shortcut_transition(true, ShortcutState::Pressed, true), (ActionCall::Start, true));
}

#[test]
fn without_push_to_talk_each_press_toggles() {
    assert_eq!(shortcut_transition(false, ShortcutState::Pressed, false), (ActionCall::Start, true));
    assert_eq!(shortcut_transition(false, ShortcutState::Pressed, true), (ActionCall::Stop, false));
    assert_eq!(shortcut_transition(false, ShortcutState::Released, true), (ActionCall::Nothing, true));
    assert_eq!(shortcut_transition(false, ShortcutState::Released, false), (ActionCall::Nothing, false));
}

#[test]
fn cancelling_switches_every_toggle_off() {
    let mut toggles = vec![
        ToggleEntry { binding_id: "transcribe".to_string(), active: true },
        ToggleEntry { binding_id: "test".to_string(), active: false },
        ToggleEntry { binding_id: "other".to_string(), active: true },
    ];
    reset_toggles(&mut toggles);
    assert_eq!(
        toggles,
        vec![
            ToggleEntry { binding_id: "transcribe".to_string(), active: false },
            ToggleEntry { binding_id: "test".to_string(), active: false },
            ToggleEntry { binding_id: "other".to_string(), active: false },
        ]
    );
    let mut none: Vec<ToggleEntry> = vec![];
    reset_toggles(&mut none);
    assert!(none.is_empty());
}

#[test]
fn binding_responses() {
    assert_eq!(
        BindingResponse::not_found("x"),
        BindingResponse {
            success: false,
            binding: None,
            error: Some("Binding with id 'x' not found".to_string()),
        }
    );
    assert_eq!(
        BindingResponse::registration_failed("taken"),
        BindingResponse {
            success: false,
            binding: None,
            error: Some("Failed to register shortcut: taken".to_string()),
        }
    );
    let binding = ShortcutBinding {
        id: "transcribe".to_string(),
        name: "Transcribe".to_string(),
        description: "d".to_string(),
        default_binding: "ctrl+space".to_string(),
        current_binding: "alt+space".to_string(),
    };
    assert_eq!(
        BindingResponse::changed(binding.clone()),
        BindingResponse { success: true, binding: Some(binding), error: None }
    );
}

#[test]
fn bindings_are_checked_before_registration() {
    let mut binding = ShortcutBinding {
        id: "transcribe".to_string(),
        name: "n".to_string(),
        description: "d".to_string(),
        default_binding: "ctrl+space".to_string(),
        current_binding: "ctrl+space".to_string(),
    };
    assert!(has_action("transcribe"));
    assert!(has_action("test"));
    assert!(!has_action("Transcribe"));
    assert_eq!(check_registration(&binding), Ok(()));
    binding.current_binding = "ctrl+shift".to_string();
    assert_eq!(check_registration(&binding), Err(RegistrationError::ModifiersOnly));
    binding.id = "unknown".to_string();
    assert_eq!(check_registration(&binding), Err(RegistrationError::NoAction("unknown".to_string())));
}

#[test]
fn registration_error_messages() {
    assert_eq!(
        RegistrationError::NoAction("x".to_string()).message(),
        "No action defined in ACTION_MAP for binding ID 'x'"
    );
    assert_eq!(
        RegistrationError::ModifiersOnly.message(),
        "Shortcut must contain at least one non-modifier key"
    );
    assert_eq!(
        RegistrationError::ParseFailed("a+b".to_string(), "bad".to_string()).message(),
        "Failed to parse shortcut 'a+b': bad"
    );
    assert_eq!(
        RegistrationError::AlreadyInUse("f5".to_string()).message(),
        "Shortcut 'f5' is already in use"
    );
    assert_eq!(
        RegistrationError::RegisterFailed("f5".to_string(), "no".to_string()).message(),
        "Couldn't register shortcut 'f5': no"
    );
    assert_eq!(
        RegistrationError::UnregisterParseFailed("f5".to_string(), "no".to_string()).message(),
        "Failed to parse shortcut 'f5' for unregistration: no"
    );
    assert_eq!(
        RegistrationError::UnregisterFailed("f5".to_string(), "no".to_string()).message(),
        "Failed to unregister shortcut 'f5': no"
    );
}

#[test]
fn bindings_are_found_and_rebound() {
    let a = ShortcutBinding {
        id: "transcribe".to_string(),
        name: "Transcribe".to_string(),
        description: "d".to_string(),
        default_binding: "ctrl+space".to_string(),
        current_binding: "ctrl+space".to_string(),
    };
    let mut b = a.clone();
    b.id = "test".to_string();
    let bindings = vec![a.clone(), b.clone()];
    assert_eq!(find_binding(&bindings, "test"), Some(1));
    assert_eq!(find_binding(&bindings, "transcribe"), Some(0));
    assert_eq!(find_binding(&bindings, "none"), None);
    let changed = rebound(&a, "alt+space".to_string());
    assert_eq!(changed.current_binding, "alt+space");
    assert_eq!(changed.default_binding, "ctrl+space");
    assert_eq!(changed.id, "transcribe");
}

fn attempt(parsed: Result<(), &str>, in_use: bool, registered: Result<(), &str>) -> RegistrationAttempt {
    RegistrationAttempt {
        parsed: parsed.map_err(|e| e.to_string()),
        in_use,
        registered: registered.map_err(|e| e.to_string()),
    }
}

#[test]
fn registration_outcomes() {
    assert_eq!(registration_outcome("f5", attempt(Ok(()), false, Ok(()))), Ok(()));
    assert_eq!(
        registration_outcome("f55", attempt(Err("no such key"), true, Ok(()))),
        Err(RegistrationError::ParseFailed("f55".to_string(), "no such key".to_string()))
    );
    assert_eq!(
        registration_outcome("f5", attempt(Ok(()), true, Err("ignored"))),
        Err(RegistrationError::AlreadyInUse("f5".to_string()))
    );
    assert_eq!(
        registration_outcome("f5", attempt(Ok(()), false, Err("denied"))),
        Err(RegistrationError::RegisterFailed("f5".to_string(), "denied".to_string()))
    );
    assert_eq!(unregistration_outcome("f5", Ok(()), Ok(())), Ok(()));
    assert_eq!(
        unregistration_outcome("f5", Err("p".to_string()), Ok(())),
        Err(RegistrationError::UnregisterParseFailed("f5".to_string(), "p".to_string()))
    );
    assert_eq!(
        unregistration_outcome("f5", Ok(()), Err("u".to_string())),
        Err(RegistrationError::UnregisterFailed("f5".to_string(), "u".to_string()))
    );
}
