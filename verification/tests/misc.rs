use echo_voice::clamshell::{has_internal_battery, lid_closed, listing_failed};
use echo_voice::general_settings::{
    changed_idle_timeout, initial_idle_timeout, parse_clipboard_handling, parse_overlay_position,
    parse_paste_method, parse_retention_period, ClipboardHandling, OverlayPosition, PasteMethod,
    RecordingRetentionPeriod, DEFAULT_INPUT_IDLE_TIMEOUT_SECS,
};
use echo_voice::input_entries::{
    add_all_new, add_if_new, common_apps, contains_bundle, drop_repeats, entries_query,
    get_apps_impl, list_apps, parse_applescript_lists, running_apps, sort_by_name, AppEntry,
};
use echo_voice::overlay::{
    is_mouse_within_monitor, monitor_with_cursor, overlay_position_name, MonitorArea,
};
use echo_voice::shell::HostSystem;
use echo_voice::tts::{
    detect_language, find_voice_for_language, voice_matches, Language, SpeechPlan, TtsManager,
};

#[test]
fn settings_by_name() {
    assert_eq!(parse_overlay_position("none"), OverlayPosition::Hidden);
    assert_eq!(parse_overlay_position("top"), OverlayPosition::Top);
    assert_eq!(parse_overlay_position("bottom"), OverlayPosition::Bottom);
    assert_eq!(parse_overlay_position("sideways"), OverlayPosition::Bottom);
    assert_eq!(parse_paste_method("ctrl_v", HostSystem::Linux), PasteMethod::CtrlV);
    assert_eq!(parse_paste_method("direct", HostSystem::MacOs), PasteMethod::Direct);
    assert_eq!(parse_paste_method("shift_insert", HostSystem::Linux), PasteMethod::ShiftInsert);
    assert_eq!(parse_paste_method("shift_insert", HostSystem::Windows), PasteMethod::ShiftInsert);
    assert_eq!(parse_paste_method("shift_insert", HostSystem::MacOs), PasteMethod::CtrlV);
    assert_eq!(parse_paste_method("telepathy", HostSystem::Linux), PasteMethod::CtrlV);
    assert_eq!(parse_clipboard_handling("dont_modify"), ClipboardHandling::DontModify);
    assert_eq!(parse_clipboard_handling("copy_to_clipboard"), ClipboardHandling::CopyToClipboard);
    assert_eq!(parse_clipboard_handling("shred"), ClipboardHandling::DontModify);
}

#[test]
fn retention_periods_by_name() {
    assert_eq!(parse_retention_period("never"), Ok(RecordingRetentionPeriod::Never));
    assert_eq!(parse_retention_period("preserve_limit"), Ok(RecordingRetentionPeriod::PreserveLimit));
    assert_eq!(parse_retention_period("days3"), Ok(RecordingRetentionPeriod::Days3));
    assert_eq!(parse_retention_period("weeks2"), Ok(RecordingRetentionPeriod::Weeks2));
    assert_eq!(parse_retention_period("months3"), Ok(RecordingRetentionPeriod::Months3));
    assert_eq!(
        parse_retention_period("forever"),
        Err("Invalid retention period: forever".to_string())
    );
}

#[test]
fn idle_timeouts() {
    assert_eq!(DEFAULT_INPUT_IDLE_TIMEOUT_SECS, 2);
    assert_eq!(initial_idle_timeout(None), 2);
    assert_eq!(initial_idle_timeout(Some(0)), 0);
    assert_eq!(initial_idle_timeout(Some(9)), 9);
    assert_eq!(changed_idle_timeout(None), 0);
    assert_eq!(changed_idle_timeout(Some(9)), 9);
}

#[test]
fn mouse_on_a_monitor() {
    let area = MonitorArea { x: 100, y: -50, width: 1920, height: 1080 };
    assert!(is_mouse_within_monitor((100, -50), &area));
    assert!(is_mouse_within_monitor((2019, 1029), &area));
    assert!(!is_mouse_within_monitor((2020, 0), &area));
    assert!(!is_mouse_within_monitor((150, 1030), &area));
    assert!(!is_mouse_within_monitor((99, 0), &area));
    assert!(!is_mouse_within_monitor((150, -51), &area));
    let huge = MonitorArea { x: i32::MAX, y: i32::MAX, width: u32::MAX, height: u32::MAX };
    assert!(is_mouse_within_monitor((i32::MAX, i32::MAX), &huge));
    let empty = MonitorArea { x: 0, y: 0, width: 0, height: 0 };
    assert!(!is_mouse_within_monitor((0, 0), &empty));
}

#[test]
fn monitor_under_the_cursor() {
    let monitors = vec![
        MonitorArea { x: 0, y: 0, width: 100, height: 100 },
        MonitorArea { x: 100, y: 0, width: 100, height: 100 },
        MonitorArea { x: 50, y: 0, width: 100, height: 100 },
    ];
    assert_eq!(monitor_with_cursor(Some((10, 10)), &monitors), Some(0));
    assert_eq!(monitor_with_cursor(Some((60, 10)), &monitors), Some(0));
    assert_eq!(monitor_with_cursor(Some((120, 10)), &monitors), Some(1));
    assert_eq!(monitor_with_cursor(Some((500, 10)), &monitors), None);
    assert_eq!(monitor_with_cursor(None, &monitors), None);
    assert_eq!(monitor_with_cursor(Some((1, 1)), &vec![]), None);
}

#[test]
fn overlay_places() {
    assert_eq!(overlay_position_name(OverlayPosition::Hidden), None);
    assert_eq!(overlay_position_name(OverlayPosition::Top), Some("top".to_string()));
    assert_eq!(overlay_position_name(OverlayPosition::Bottom), Some("bottom".to_string()));
}

#[test]
fn entries_are_queried_newest_first() {
    assert_eq!(
        entries_query(None),
        "SELECT id, app_name, app_bundle_id, app_pid, window_title, content, timestamp, duration_ms \n         FROM input_entries ORDER BY timestamp DESC"
    );
    assert_eq!(
        entries_query(Some(25)),
        "SELECT id, app_name, app_bundle_id, app_pid, window_title, content, timestamp, duration_ms \n         FROM input_entries ORDER BY timestamp DESC LIMIT 25"
    );
    assert!(entries_query(Some(0)).ends_with(" LIMIT 0"));
}

#[test]
fn lists_of_running_applications() {
    assert_eq!(
        parse_applescript_lists("Finder, Safari, com.apple.finder, com.apple.Safari"),
        Some((
            vec!["Finder".to_string(), "Safari".to_string()],
            vec!["com.apple.finder".to_string(), "com.apple.Safari".to_string()]
        ))
    );
    assert_eq!(
        parse_applescript_lists("Finder, com.apple.finder"),
        Some((vec!["Finder".to_string()], vec!["com.apple.finder".to_string()]))
    );
    assert_eq!(parse_applescript_lists("Finder"), None);
    assert_eq!(parse_applescript_lists(""), None);
    assert_eq!(parse_applescript_lists("a, b, c"), None);
    assert_eq!(parse_applescript_lists("a,b"), None);
}

fn app(name: &str, bundle: &str) -> AppEntry {
    AppEntry { name: name.to_string(), bundle_id: bundle.to_string() }
}

#[test]
fn applications_are_merged_by_bundle_id() {
    let names = vec!["Finder".to_string(), String::new(), "Notes".to_string(), "Extra".to_string()];
    let ids = vec!["com.apple.finder".to_string(), "x".to_string(), String::new()];
    let mut apps = running_apps(&names, &ids);
    assert_eq!(apps, vec![app("Finder", "com.apple.finder")]);
    assert_eq!(
        running_apps(
            &vec!["A".to_string(), "B".to_string(), "C".to_string()],
            &vec!["a".to_string(), "b".to_string(), "c".to_string()]
        ),
        vec![app("A", "a"), app("B", "b"), app("C", "c")]
    );
    assert!(contains_bundle(&apps, "com.apple.finder"));
    assert!(!contains_bundle(&apps, "com.apple.Finder"));
    assert!(!add_if_new(&mut apps, &app("Other Finder", "com.apple.finder")));
    assert!(add_if_new(&mut apps, &app("Terminal", "com.apple.Terminal")));
    assert_eq!(apps, vec![app("Finder", "com.apple.finder"), app("Terminal", "com.apple.Terminal")]);
}

#[test]
fn common_applications() {
    let apps = common_apps();
    assert_eq!(apps.len(), 12);
    assert_eq!(apps[0], app("Visual Studio Code", "com.microsoft.VSCode"));
    assert_eq!(apps[1], app("Cursor", "com.todesktop.230313mzl4w4u92"));
    assert_eq!(apps[7], app("Notion", "notion.id"));
    assert_eq!(apps[11], app("Bitwarden", "com.bitwarden.desktop"));
    assert!(get_apps_impl().is_empty());
}

#[test]
fn languages_are_detected() {
    assert_eq!(detect_language("The quick brown fox jumps over the lazy dog."), Some(Language::English));
    assert_eq!(detect_language("Der schnelle braune Fuchs springt \u{fc}ber den faulen Hund."), Some(Language::German));
    assert_eq!(detect_language("Le renard brun rapide saute par-dessus le chien paresseux."), Some(Language::French));
    assert_eq!(detect_language("\u{4eca}\u{5929}\u{5929}\u{6c14}\u{5f88}\u{597d}\u{ff0c}\u{6211}\u{4eec}\u{53bb}\u{516c}\u{56ed}\u{6563}\u{6b65}\u{5427}\u{3002}"), Some(Language::Mandarin));
    assert_eq!(detect_language(""), Some(Language::English));
}

#[test]
fn language_codes() {
    let codes = [
        (Language::Arabic, "ar"),
        (Language::Mandarin, "zh"),
        (Language::German, "de"),
        (Language::English, "en"),
        (Language::French, "fr"),
        (Language::Hindi, "hi"),
        (Language::Italian, "it"),
        (Language::Japanese, "ja"),
        (Language::Korean, "ko"),
        (Language::Dutch, "nl"),
        (Language::Portuguese, "pt"),
        (Language::Russian, "ru"),
        (Language::Spanish, "es"),
        (Language::Swedish, "sv"),
        (Language::Turkish, "tr"),
        (Language::Vietnamese, "vi"),
    ];
    for (language, code) in codes {
        assert_eq!(language.code(), code);
    }
}

#[test]
fn voices_by_language() {
    assert!(voice_matches("en-US", "en"));
    assert!(voice_matches("EN-gb", "En"));
    assert!(voice_matches("en", "en"));
    assert!(voice_matches("english", "en"));
    assert!(!voice_matches("de-DE", "en"));
    assert!(!voice_matches("e", "en"));
    assert!(voice_matches("zh-CN", "zh"));
    let voices = vec!["de-DE".to_string(), "en-GB".to_string(), "en-US".to_string()];
    assert_eq!(find_voice_for_language(&voices, "en"), Some(1));
    assert_eq!(find_voice_for_language(&voices, "DE"), Some(0));
    assert_eq!(find_voice_for_language(&voices, "fr"), None);
    assert_eq!(find_voice_for_language(&vec![], "fr"), None);
}

#[test]
fn speaking_needs_a_started_engine() {
    let mut manager = TtsManager::new();
    assert!(!manager.is_ready());
    let voices = vec!["de-DE".to_string(), "en-US".to_string()];
    assert_eq!(manager.speak("Hello there", &voices), Err("TTS not initialized".to_string()));
    assert_eq!(
        manager.initialize(Err("no backend".to_string())),
        Err("Failed to initialize TTS engine: no backend".to_string())
    );
    assert!(!manager.is_ready());
    assert_eq!(manager.initialize(Ok(())), Ok(()));
    assert!(manager.is_ready());
    assert_eq!(
        manager.speak("The quick brown fox jumps over the lazy dog.", &voices),
        Ok(SpeechPlan::WithVoice(1))
    );
    assert_eq!(
        manager.speak("Der schnelle braune Fuchs springt \u{fc}ber den faulen Hund.", &voices),
        Ok(SpeechPlan::WithVoice(0))
    );
    assert_eq!(
        manager.speak("Le renard brun rapide saute par-dessus le chien paresseux.", &voices),
        Ok(SpeechPlan::DefaultVoice)
    );
}

#[test]
fn lid_and_battery_are_read_off_the_tools() {
    assert!(lid_closed("  | |   \"AppleClamshellState\" = Yes\n"));
    assert!(!lid_closed("  | |   \"AppleClamshellState\" = No\n"));
    assert!(!lid_closed(""));
    assert!(has_internal_battery(" -InternalBattery-0 (id=1234)\t97%; charging"));
    assert!(!has_internal_battery("Now drawing from 'AC Power'\n"));
    assert_eq!(listing_failed("exit status: 1"), "ioreg command failed with status: exit status: 1");
}

fn sample_apps() -> Vec<AppEntry> {
    vec![
        app("zsh", "z"),
        app("Alpha", "a1"),
        app("alpha", "a2"),
        app("Beta", "b"),
        app("ALPHA", "a3"),
        app("", "empty"),
        app("beta", "b"),
        app("\u{c9}clair", "e"),
        app("Zed", "zed"),
        app("alpha2", "a2"),
    ]
}

#[test]
fn sorting_agrees_with_the_stable_sort_of_std() {
    let apps = sample_apps();
    let mut expected = apps.clone();
    expected.sort_by(|a, b| a.name.to_lowercase().cmp(&b.name.to_lowercase()));
    assert_eq!(sort_by_name(&apps), expected);
    assert_eq!(sort_by_name(&vec![]), Vec::<AppEntry>::new());
}

#[test]
fn sorted_applications_are_in_order_and_all_there() {
    let sorted = sort_by_name(&sample_apps());
    for pair in sorted.windows(2) {
        assert!(pair[0].name.to_lowercase() <= pair[1].name.to_lowercase());
    }
    assert_eq!(sorted.len(), sample_apps().len());
    for a in sample_apps() {
        assert!(sorted.contains(&a));
    }
}

#[test]
fn repeats_are_dropped_as_std_dedups() {
    let apps = vec![app("A", "x"), app("B", "x"), app("C", "y"), app("D", "x"), app("E", "x"), app("F", "x")];
    let mut expected = apps.clone();
    expected.dedup_by(|a, b| a.bundle_id == b.bundle_id);
    assert_eq!(drop_repeats(&apps), expected);
    assert_eq!(drop_repeats(&apps), vec![app("A", "x"), app("C", "y"), app("D", "x")]);
    assert_eq!(drop_repeats(&vec![]), Vec::<AppEntry>::new());
}

#[test]
fn new_applications_are_added_in_turn() {
    let mut apps = vec![app("A", "a")];
    add_all_new(&mut apps, &vec![app("B", "b"), app("A2", "a"), app("B2", "b"), app("C", "c")]);
    assert_eq!(apps, vec![app("A", "a"), app("B", "b"), app("C", "c")]);
}

#[test]
fn applications_on_offer() {
    let running = vec![app("zsh", "z"), app("My Terminal", "com.apple.Terminal")];
    let installed = vec![app("Xcode", "com.apple.dt.Xcode"), app("Shell", "z")];
    let listed = list_apps(running, &installed);
    assert_eq!(listed.len(), 2 + 1 + 11);
    assert_eq!(listed[0], app("1Password", "com.1password.1password"));
    assert!(listed.contains(&app("My Terminal", "com.apple.Terminal")));
    assert!(!listed.contains(&app("Terminal", "com.apple.Terminal")));
    assert!(!listed.contains(&app("Shell", "z")));
    assert!(listed.contains(&app("Xcode", "com.apple.dt.Xcode")));
    assert_eq!(listed.last(), Some(&app("zsh", "z")));
    for pair in listed.windows(2) {
        assert!(pair[0].name.to_lowercase() <= pair[1].name.to_lowercase());
    }
}
