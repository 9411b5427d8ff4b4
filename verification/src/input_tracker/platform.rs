//! Reading what the platform's tools say about the focused application.
//! Asking the tools is the caller's; this module reads their answers.

use crate::input_tracker::types::ActiveAppInfo;
use crate::numfmt::{parse_i32, parsed_i32};
use crate::post_process::opt_text;
use crate::buffers::{copy_range, extend_copy};
use crate::text::{
    find_char, find_from, first_occurrence, from_chars, is_text, last_index_of,
    lemma_first_occurrence, lowercased, rfind_char, split_char, split_seq, to_chars, to_lowercase,
    trim, trimmed, views,
};
use vstd::prelude::*;

verus! {

/// What is known of an application, as plain text.
pub struct AppText {
    pub name: Seq<char>,
    pub bundle_id: Option<Seq<char>>,
    pub pid: Option<i32>,
}

/// The plain text of an application.
pub open spec fn app_text(app: ActiveAppInfo) -> AppText {
    AppText { name: app.name@, bundle_id: opt_text(app.bundle_id), pid: app.pid }
}

/// No application.
pub open spec fn no_app() -> AppText {
    AppText { name: Seq::<char>::empty(), bundle_id: None, pid: None }
}

/// The application of the given parts: none at all where the name is
/// empty.
pub open spec fn named_app(name: Seq<char>, bundle_id: Option<Seq<char>>, pid: Option<i32>)
    -> AppText {
    if name.len() == 0 {
        no_app()
    } else {
        AppText { name, bundle_id, pid }
    }
}

/// The application of the given parts; none at all where the name is empty.
pub fn app_info_from_parts(name: String, bundle_id: Option<String>, pid: Option<i32>) -> (r:
    ActiveAppInfo)
    ensures
        app_text(r) == named_app(name@, opt_text(bundle_id), pid),
{
    if name.as_str().unicode_len() == 0 {
        ActiveAppInfo::empty()
    } else {
        ActiveAppInfo { name, bundle_id, pid }
    }
}



/// The opening of a text field in flat JSON: the key in quotes, a colon,
/// and the quote that opens the value.
pub open spec fn string_field_opening(key: Seq<char>) -> Seq<char> {
    seq!['"'] + key + "\":\""@
}

/// The opening of a number field in flat JSON: the key in quotes and a
/// colon.
pub open spec fn number_field_opening(key: Seq<char>) -> Seq<char> {
    seq!['"'] + key + "\":"@
}

/// The value of the first text field of the given key: what stands between
/// its opening and the next quote. `None` where there is no such field or
/// its value is not closed.
pub open spec fn json_string_field(json: Seq<char>, key: Seq<char>) -> Option<Seq<char>> {
    let opening = string_field_opening(key);
    match first_occurrence(json, opening, 0) {
        Some(start) => match first_occurrence(json, seq!['"'], start + opening.len()) {
            Some(end) => Some(json.subrange(start + opening.len(), end)),
            None => None,
        },
        None => None,
    }
}

/// Where the digits and minus signs that start at `pos` end.
pub open spec fn number_end(s: Seq<char>, pos: int) -> int
    decreases s.len() - pos,
{
    if 0 <= pos < s.len() && (('0' <= s[pos] && s[pos] <= '9') || s[pos] == '-') {
        number_end(s, pos + 1)
    } else {
        pos
    }
}

/// The value of the first number field of the given key: the digits and
/// minus signs behind its opening, read as a 32-bit integer. `None` where
/// there is no such field or what follows is no such number.
pub open spec fn json_number_field(json: Seq<char>, key: Seq<char>) -> Option<i32> {
    let opening = number_field_opening(key);
    match first_occurrence(json, opening, 0) {
        Some(start) => {
            let from = start + opening.len();
            parsed_i32(trimmed(json.subrange(from, number_end(json, from))))
        },
        None => None,
    }
}

fn quoted_key(key: &str) -> (r: Vec<char>)
    ensures
        r@ == seq!['"'] + key@,
{
    let mut out: Vec<char> = Vec::new();
    out.push('"');
    let k = to_chars(key);
    extend_copy(&mut out, &k);
    out
}

/// Reads the text field `key` out of flat JSON.
pub fn extract_json_string(json: &str, key: &str) -> (r: Option<String>)
    ensures
        opt_text(r) == json_string_field(json@, key@),
{
    let text = to_chars(json);
    let mut opening = quoted_key(key);
    let tail = to_chars("\":\"");
    extend_copy(&mut opening, &tail);
    assert(opening@ =~= string_field_opening(key@));
    match find_from(&text, &opening, 0) {
        Some(start) => {
            proof {
                lemma_first_occurrence(text@, opening@, 0);
            }
            let from = start + opening.len();
            let mut quote: Vec<char> = Vec::new();
            quote.push('"');
            assert(quote@ =~= seq!['"']);
            match find_from(&text, &quote, from) {
                Some(end) => {
                    proof {
                        lemma_first_occurrence(text@, quote@, from as int);
                    }
                    Some(from_chars(&copy_range(&text, from, end)))
                },
                None => None,
            }
        },
        None => None,
    }
}

/// Reads the number field `key` out of flat JSON.
pub fn extract_json_number(json: &str, key: &str) -> (r: Option<i32>)
    ensures
        r == json_number_field(json@, key@),
{
    let text = to_chars(json);
    let mut opening = quoted_key(key);
    let tail = to_chars("\":");
    extend_copy(&mut opening, &tail);
    assert(opening@ =~= number_field_opening(key@));
    match find_from(&text, &opening, 0) {
        Some(start) => {
            proof {
                lemma_first_occurrence(text@, opening@, 0);
            }
            let from = start + opening.len();
            let mut end: usize = from;
            while end < text.len() && (('0' <= text[end] && text[end] <= '9') || text[end] == '-')
                invariant
                    from <= end <= text.len(),
                    number_end(text@, from as int) == number_end(text@, end as int),
                decreases text.len() - end,
            {
                end = end + 1;
            }
            let digits = trim(&copy_range(&text, from, end));
            parse_i32(&digits)
        },
        None => None,
    }
}

/// The application in the reply of the GNOME shell: the flat JSON between
/// the first `{` and the last `}` of the reply, with its `name`, `id` and
/// `pid`. No application where the braces are missing or out of order, or
/// the name is missing or empty.
pub open spec fn gnome_reply_app(reply: Seq<char>) -> AppText {
    match (first_occurrence(reply, seq!['{'], 0), last_index_of(reply, '}')) {
        (Some(start), Some(end)) => if start <= end {
            let json = reply.subrange(start, end + 1);
            match json_string_field(json, "name"@) {
                Some(name) => named_app(
                    name,
                    json_string_field(json, "id"@),
                    json_number_field(json, "pid"@),
                ),
                None => no_app(),
            }
        } else {
            no_app()
        },
        _ => no_app(),
    }
}

/// Reads the application out of the reply of the GNOME shell.
pub fn app_info_from_gnome_reply(reply: &str) -> (r: ActiveAppInfo)
    ensures
        app_text(r) == gnome_reply_app(reply@),
{
    let text = to_chars(reply);
    match (find_char(&text, '{'), rfind_char(&text, '}')) {
        (Some(start), Some(end)) => {
            if start <= end {
                let json = from_chars(&copy_range(&text, start, end + 1));
                match extract_json_string(json.as_str(), "name") {
                    Some(name) => {
                        let bundle_id = extract_json_string(json.as_str(), "id");
                        let pid = extract_json_number(json.as_str(), "pid");
                        app_info_from_parts(name, bundle_id, pid)
                    },
                    None => ActiveAppInfo::empty(),
                }
            } else {
                ActiveAppInfo::empty()
            }
        },
        _ => ActiveAppInfo::empty(),
    }
}

/// Whether the session type names Wayland, in any case of letters.
pub fn is_wayland_session(session_type: Option<&str>) -> (r: bool)
    ensures
        r == match session_type {
            Some(s) => lowercased(s@) == "wayland"@,
            None => false,
        },
{
    match session_type {
        Some(s) => {
            let lower = to_lowercase(&to_chars(s));
            is_text(&lower, "wayland")
        },
        None => false,
    }
}

/// The class in the window-class property as `xprop` prints it: the fourth
/// piece when the line is cut at its double quotes.
pub open spec fn window_class_of(output: Seq<char>) -> Option<Seq<char>> {
    if split_seq(output, seq!['"']).len() > 3 {
        Some(split_seq(output, seq!['"'])[3])
    } else {
        None
    }
}

/// Reads the class out of the window-class property.
pub fn window_class(output: &str) -> (r: Option<String>)
    ensures
        opt_text(r) == window_class_of(output@),
{
    let text = to_chars(output);
    let pieces = split_char(&text, '"');
    if pieces.len() > 3 {
        assert(views(pieces@)[3] == pieces@[3]@);
        Some(from_chars(&pieces[3]))
    } else {
        None
    }
}

/// The application that the X11 tools show. Each argument is what a tool
/// printed, where it succeeded. The class is the bundle id and, where there
/// is one, the name as well; else the window's title is the name.
pub open spec fn x11_app(
    window_name: Option<Seq<char>>,
    class_output: Option<Seq<char>>,
    pid_output: Option<Seq<char>>,
) -> AppText {
    let bundle_id = match class_output {
        Some(c) => window_class_of(c),
        None => None,
    };
    let title = match window_name {
        Some(n) => trimmed(n),
        None => Seq::<char>::empty(),
    };
    let pid = match pid_output {
        Some(p) => parsed_i32(trimmed(p)),
        None => None,
    };
    named_app(
        match bundle_id {
            Some(class) => class,
            None => title,
        },
        bundle_id,
        pid,
    )
}

/// Reads the application out of what the X11 tools printed.
pub fn app_info_from_x11(
    window_name: Option<&str>,
    class_output: Option<&str>,
    pid_output: Option<&str>,
) -> (r: ActiveAppInfo)
    ensures
        app_text(r) == x11_app(
            match window_name {
                Some(s) => Some(s@),
                None => None,
            },
            match class_output {
                Some(s) => Some(s@),
                None => None,
            },
            match pid_output {
                Some(s) => Some(s@),
                None => None,
            },
        ),
{
    let bundle_id = match class_output {
        Some(c) => window_class(c),
        None => None,
    };
    let pid = match pid_output {
        Some(p) => parse_i32(&trim(&to_chars(p))),
        None => None,
    };
    let name = match &bundle_id {
        Some(class) => class.clone(),
        None => match window_name {
            Some(n) => from_chars(&trim(&to_chars(n))),
            None => String::new(),
        },
    };
    app_info_from_parts(name, bundle_id, pid)
}

/// The id of the active window as `xdotool` prints it; `None` where the
/// tool failed or printed nothing.
pub fn active_window_id(output: Option<&str>) -> (r: Option<String>)
    ensures
        opt_text(r) == match output {
            Some(o) => if trimmed(o@).len() > 0 {
                Some(trimmed(o@))
            } else {
                None
            },
            None => None,
        },
{
    match output {
        Some(o) => {
            let id = trim(&to_chars(o));
            if id.len() > 0 {
                Some(from_chars(&id))
            } else {
                None
            }
        },
        None => None,
    }
}

/// The application of a process on Windows: the name of its executable
/// without the extension is the name, the path of the executable the
/// bundle id.
pub fn app_info_from_executable(exe_path: String, file_stem: Option<String>, process_id: i32)
    -> (r: ActiveAppInfo)
    ensures
        app_text(r) == if exe_path@.len() == 0 {
            no_app()
        } else {
            named_app(
                match file_stem {
                    Some(stem) => stem@,
                    None => Seq::<char>::empty(),
                },
                Some(exe_path@),
                Some(process_id),
            )
        },
{
    if exe_path.as_str().unicode_len() == 0 {
        return ActiveAppInfo::empty();
    }
    let name = match file_stem {
        Some(stem) => stem,
        None => String::new(),
    };
    app_info_from_parts(name, Some(exe_path), Some(process_id))
}

/// The application that a platform without support reports: none.
pub fn get_active_app_info_fast() -> (r: ActiveAppInfo)
    ensures
        app_text(r) == no_app(),
{
    ActiveAppInfo::empty()
}

} // verus!
