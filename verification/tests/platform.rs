use echo_voice::input_tracker::platform::{
    active_window_id, app_info_from_executable, app_info_from_gnome_reply, app_info_from_parts,
    app_info_from_x11, extract_json_number, extract_json_string, get_active_app_info_fast,
    is_wayland_session, window_class,
};
use echo_voice::input_tracker::types::ActiveAppInfo;

#[test]
fn text_fields_of_flat_json() {
    let json = r#"{"name":"Text Editor","id":"org.gnome.TextEditor.desktop","pid":4242}"#;
    assert_eq!(extract_json_string(json, "name"), Some("Text Editor".to_string()));
    assert_eq!(extract_json_string(json, "id"), Some("org.gnome.TextEditor.desktop".to_string()));
    assert_eq!(extract_json_string(json, "pid"), None);
    assert_eq!(extract_json_string(json, "title"), None);
    assert_eq!(extract_json_string(r#"{"name":"open"#, "name"), None);
    assert_eq!(extract_json_string(r#"{"name":""}"#, "name"), Some(String::new()));
    assert_eq!(extract_json_string(r#"{"name": "spaced"}"#, "name"), None);
}

#[test]
fn number_fields_of_flat_json() {
    let json = r#"{"name":"x","pid":4242,"n":-17}"#;
    assert_eq!(extract_json_number(json, "pid"), Some(4242));
    assert_eq!(extract_json_number(json, "n"), Some(-17));
    assert_eq!(extract_json_number(json, "name"), None);
    assert_eq!(extract_json_number(json, "none"), None);
    assert_eq!(extract_json_number(r#"{"pid":99999999999}"#, "pid"), None);
    assert_eq!(extract_json_number(r#"{"pid":2147483647}"#, "pid"), Some(2147483647));
    assert_eq!(extract_json_number(r#"{"pid":-2147483648}"#, "pid"), Some(-2147483648));
    assert_eq!(extract_json_number(r#"{"pid":1-2}"#, "pid"), None);
    assert_eq!(extract_json_number(r#"{"pid":12"#, "pid"), Some(12));
    assert_eq!(extract_json_number(r#"{"pid":}"#, "pid"), None);
}

#[test]
fn gnome_reply_is_read() {
    let reply = "(true, '{\"name\":\"Files\",\"id\":\"org.gnome.Nautilus.desktop\",\"pid\":812}')\n";
    assert_eq!(
        app_info_from_gnome_reply(reply),
        ActiveAppInfo {
            name: "Files".to_string(),
            bundle_id: Some("org.gnome.Nautilus.desktop".to_string()),
            pid: Some(812),
        }
    );
}

#[test]
fn gnome_reply_without_a_window_is_no_application() {
    assert_eq!(app_info_from_gnome_reply("(true, '{}')"), ActiveAppInfo::default());
    assert_eq!(app_info_from_gnome_reply("(false, '')"), ActiveAppInfo::default());
    assert_eq!(app_info_from_gnome_reply("} nothing {"), ActiveAppInfo::default());
    assert_eq!(app_info_from_gnome_reply("{\"name\":\"\",\"pid\":1}"), ActiveAppInfo::default());
    assert_eq!(app_info_from_gnome_reply(""), ActiveAppInfo::default());
}

#[test]
fn wayland_is_told_in_any_case() {
    assert!(is_wayland_session(Some("wayland")));
    assert!(is_wayland_session(Some("Wayland")));
    assert!(!is_wayland_session(Some("x11")));
    assert!(!is_wayland_session(Some("wayland ")));
    assert!(!is_wayland_session(None));
}

#[test]
fn window_class_is_the_second_quoted_text() {
    assert_eq!(
        window_class("WM_CLASS(STRING) = \"gedit\", \"Gedit\"\n"),
        Some("Gedit".to_string())
    );
    assert_eq!(window_class("WM_CLASS(STRING) = \"gedit\""), None);
    assert_eq!(window_class("WM_CLASS:  not found."), None);
    assert_eq!(window_class("\"a\", \"\""), Some(String::new()));
}

#[test]
fn x11_application_prefers_the_class() {
    assert_eq!(
        app_info_from_x11(
            Some("notes.txt - gedit\n"),
            Some("WM_CLASS(STRING) = \"gedit\", \"Gedit\"\n"),
            Some("3141\n")
        ),
        ActiveAppInfo { name: "Gedit".to_string(), bundle_id: Some("Gedit".to_string()), pid: Some(3141) }
    );
    assert_eq!(
        app_info_from_x11(Some(" Terminal \n"), None, Some("not a number")),
        ActiveAppInfo { name: "Terminal".to_string(), bundle_id: None, pid: None }
    );
    assert_eq!(app_info_from_x11(None, None, Some("1")), ActiveAppInfo::default());
    assert_eq!(
        app_info_from_x11(Some("title"), Some("\"a\", \"\""), Some("1")),
        ActiveAppInfo::default()
    );
}

#[test]
fn window_id_is_trimmed() {
    assert_eq!(active_window_id(Some("41943046\n")), Some("41943046".to_string()));
    assert_eq!(active_window_id(Some(" \n")), None);
    assert_eq!(active_window_id(None), None);
}

#[test]
fn windows_application_from_its_executable() {
    assert_eq!(
        app_info_from_executable("C:\\Apps\\Code.exe".to_string(), Some("Code".to_string()), 77),
        ActiveAppInfo {
            name: "Code".to_string(),
            bundle_id: Some("C:\\Apps\\Code.exe".to_string()),
            pid: Some(77),
        }
    );
    assert_eq!(
        app_info_from_executable(String::new(), Some("Code".to_string()), 77),
        ActiveAppInfo::default()
    );
    assert_eq!(
        app_info_from_executable("C:\\x".to_string(), None, 77),
        ActiveAppInfo::default()
    );
}

#[test]
fn application_without_a_name_is_none() {
    assert_eq!(
        app_info_from_parts(String::new(), Some("b".to_string()), Some(1)),
        ActiveAppInfo::default()
    );
    assert_eq!(
        app_info_from_parts("n".to_string(), None, None),
        ActiveAppInfo { name: "n".to_string(), bundle_id: None, pid: None }
    );
    assert_eq!(get_active_app_info_fast(), ActiveAppInfo::default());
}
