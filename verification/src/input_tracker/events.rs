//! What the tracker does with each event: which keys type, which move the
//! cursor, which clear the buffer and which have it saved.

use crate::clock::elapsed_nanos;
use crate::input_tracker::state::{
    idle_given, is_modifier, word_left, word_right, InputState, ModifierState,
};
use crate::post_process::opt_text;
use crate::input_tracker::types::{
    same_app, ActiveAppInfo, InputEntry, InputTrackerEvent, Key, KeystrokeEvent, Platform,
};
use crate::text::{eq_ignore_ascii_case, eq_ignoring_ascii_case, to_chars};
use vstd::prelude::*;

verus! {

/// What a key that went down does to the typed input.
#[derive(Clone, Copy, Debug, PartialEq, Eq, Structural)]
pub enum KeyAction {
    /// A modifier key: nothing beyond the modifier state.
    Ignore,
    /// The buffer can no longer be followed, or is complete: save it.
    Save,
    CursorToStart,
    CursorToEnd,
    CursorLeft,
    CursorRight,
    CursorWordLeft,
    CursorWordRight,
    /// The buffer is thrown away.
    Clear,
    Backspace,
    Delete,
    /// The key's text is typed.
    Type,
    /// Only the time of the last key is noted.
    Touch,
}

/// Whether the key, with the modifiers held, leaves the buffer behind: a
/// selection, a clipboard operation, undo or redo, a jump by page or to the
/// start or end of the document, a move to another line, a submit key, or
/// the save shortcut.
pub open spec fn saves_buffer(m: ModifierState, key: Key, platform: Platform) -> bool {
    let command = m.meta || m.ctrl;
    let vertical = key == Key::UpArrow || key == Key::DownArrow;
    ||| m.shift && (key == Key::LeftArrow || key == Key::RightArrow || vertical || key
        == Key::Home || key == Key::End)
    ||| command && (key == Key::KeyC || key == Key::KeyX || key == Key::KeyV || key
        == Key::KeyA)
    ||| command && (key == Key::KeyZ || key == Key::KeyY)
    ||| key == Key::PageUp || key == Key::PageDown
    ||| m.spec_is_line_modifier(platform) && vertical
    ||| !m.shift && vertical
    ||| key == Key::Return || key == Key::Tab || key == Key::Escape
    ||| command && key == Key::KeyS
}

/// What a key that went down does, with the modifiers as they are once the
/// key itself has been taken in.
pub open spec fn key_action(m: ModifierState, key: Key, platform: Platform) -> KeyAction {
    if is_modifier(key) {
        KeyAction::Ignore
    } else if saves_buffer(m, key, platform) {
        KeyAction::Save
    } else if key == Key::LeftArrow {
        if m.spec_is_line_modifier(platform) {
            KeyAction::CursorToStart
        } else if m.spec_is_word_modifier(platform) {
            KeyAction::CursorWordLeft
        } else {
            KeyAction::CursorLeft
        }
    } else if key == Key::RightArrow {
        if m.spec_is_line_modifier(platform) {
            KeyAction::CursorToEnd
        } else if m.spec_is_word_modifier(platform) {
            KeyAction::CursorWordRight
        } else {
            KeyAction::CursorRight
        }
    } else if key == Key::Home {
        KeyAction::CursorToStart
    } else if key == Key::End {
        KeyAction::CursorToEnd
    } else if key == Key::Backspace {
        if m.meta || m.ctrl || m.spec_is_word_modifier(platform) {
            KeyAction::Clear
        } else {
            KeyAction::Backspace
        }
    } else if key == Key::Delete {
        if m.meta || m.ctrl || m.spec_is_word_modifier(platform) {
            KeyAction::Clear
        } else {
            KeyAction::Delete
        }
    } else if !(m.ctrl || m.alt || m.meta) {
        KeyAction::Type
    } else {
        KeyAction::Touch
    }
}

fn key_saves_buffer(m: &ModifierState, key: Key, platform: Platform) -> (r: bool)
    ensures
        r == saves_buffer(*m, key, platform),
{
    let command = m.meta || m.ctrl;
    let vertical = match key {
        Key::UpArrow | Key::DownArrow => true,
        _ => false,
    };
    let selection = m.shift && match key {
        Key::LeftArrow | Key::RightArrow | Key::UpArrow | Key::DownArrow | Key::Home | Key::End =>
            true,
        _ => false,
    };
    let clipboard = command && match key {
        Key::KeyC | Key::KeyX | Key::KeyV | Key::KeyA => true,
        _ => false,
    };
    let undo_redo = command && match key {
        Key::KeyZ | Key::KeyY => true,
        _ => false,
    };
    let large_jump = match key {
        Key::PageUp | Key::PageDown => true,
        _ => false,
    } || (m.is_line_modifier(platform) && vertical);
    let vertical_nav = !m.shift && vertical;
    let submit = match key {
        Key::Return | Key::Tab | Key::Escape => true,
        _ => false,
    };
    let save_shortcut = command && match key {
        Key::KeyS => true,
        _ => false,
    };
    selection || clipboard || undo_redo || large_jump || vertical_nav || submit || save_shortcut
}

/// What `key` going down does under the modifiers `m`.
pub fn classify_key(m: &ModifierState, key: Key, platform: Platform) -> (r: KeyAction)
    ensures
        r == key_action(*m, key, platform),
{
    if ModifierState::is_modifier_key(key) {
        return KeyAction::Ignore;
    }
    if key_saves_buffer(m, key, platform) {
        return KeyAction::Save;
    }
    match key {
        Key::LeftArrow => {
            if m.is_line_modifier(platform) {
                KeyAction::CursorToStart
            } else if m.is_word_modifier(platform) {
                KeyAction::CursorWordLeft
            } else {
                KeyAction::CursorLeft
            }
        },
        Key::RightArrow => {
            if m.is_line_modifier(platform) {
                KeyAction::CursorToEnd
            } else if m.is_word_modifier(platform) {
                KeyAction::CursorWordRight
            } else {
                KeyAction::CursorRight
            }
        },
        Key::Home => KeyAction::CursorToStart,
        Key::End => KeyAction::CursorToEnd,
        Key::Backspace => {
            if m.meta || m.ctrl || m.is_word_modifier(platform) {
                KeyAction::Clear
            } else {
                KeyAction::Backspace
            }
        },
        Key::Delete => {
            if m.meta || m.ctrl || m.is_word_modifier(platform) {
                KeyAction::Clear
            } else {
                KeyAction::Delete
            }
        },
        _ => {
            if !m.any_modifier() {
                KeyAction::Type
            } else {
                KeyAction::Touch
            }
        },
    }
}

/// Whether `c` is typed into the buffer: a visible ASCII character, or a
/// space.
pub open spec fn is_typed_char(c: char) -> bool {
    (0x21 <= c as u32 && c as u32 <= 0x7E) || c == ' '
}

/// The characters of `unicode` that are typed into the buffer.
pub open spec fn typed_text(unicode: Seq<char>) -> Seq<char> {
    unicode.filter(|c: char| is_typed_char(c))
}

/// An application is on the list, by its bundle id or by its name, the case
/// of ASCII letters not counting.
pub open spec fn app_excluded(excluded: Seq<String>, app: ActiveAppInfo) -> bool {
    exists|i: int|
        0 <= i < excluded.len() && (eq_ignoring_ascii_case(
            (#[trigger] excluded[i])@,
            app.name@,
        ) || (app.bundle_id is Some && eq_ignoring_ascii_case(
            excluded[i]@,
            app.bundle_id->0@,
        )))
}

/// Whether `app` is on the list of excluded applications.
pub fn is_app_excluded(excluded: &Vec<String>, app: &ActiveAppInfo) -> (r: bool)
    ensures
        r == app_excluded(excluded@, *app),
{
    let name = to_chars(app.name.as_str());
    let bundle = match &app.bundle_id {
        Some(b) => Some(to_chars(b.as_str())),
        None => None,
    };
    let mut i: usize = 0;
    while i < excluded.len()
        invariant
            i <= excluded.len(),
            name@ == app.name@,
            match bundle {
                Some(b) => app.bundle_id is Some && b@ == app.bundle_id->0@,
                None => app.bundle_id is None,
            },
            forall|j: int|
                0 <= j < i ==> !(eq_ignoring_ascii_case((#[trigger] excluded@[j])@, app.name@) || (
                app.bundle_id is Some && eq_ignoring_ascii_case(
                    excluded@[j]@,
                    app.bundle_id->0@,
                ))),
        decreases excluded.len() - i,
    {
        let entry = to_chars(excluded[i].as_str());
        if eq_ignore_ascii_case(&entry, &name) {
            return true;
        }
        match &bundle {
            Some(b) => {
                if eq_ignore_ascii_case(&entry, b) {
                    return true;
                }
            },
            None => {},
        }
        i += 1;
    }
    false
}

/// The text of an optional string slice.
pub open spec fn opt_str_text(s: Option<&str>) -> Option<Seq<char>> {
    match s {
        Some(t) => Some(t@),
        None => None,
    }
}

/// What carrying out `action` does: `before` becomes `after`, and `saved` is
/// handed out. `unicode` is the text that the key types. The times kept in
/// the state are left open where a clock is read.
pub open spec fn key_effect(
    before: InputTracker,
    action: KeyAction,
    unicode: Option<Seq<char>>,
    after: InputTracker,
    saved: Option<InputEntry>,
) -> bool {
    let text = before.state.buffer@;
    let cursor = before.state.cursor_position as int;
    let unchanged = after.state.buffer@ == text;
    &&& after.current_app == before.current_app
    &&& after.platform == before.platform
    &&& after.state.modifiers == before.state.modifiers
    &&& action != KeyAction::Save ==> saved is None
    &&& match action {
        KeyAction::Ignore => unchanged && after.state.cursor_position == cursor
            && after.state.last_keystroke == before.state.last_keystroke,
        KeyAction::Save => buffer_taken(before, after, saved),
        KeyAction::CursorToStart => unchanged && after.state.cursor_position == 0,
        KeyAction::CursorToEnd => unchanged && after.state.cursor_position == text.len(),
        KeyAction::CursorLeft => unchanged && after.state.cursor_position == if cursor > 0 {
            cursor - 1
        } else {
            0
        },
        KeyAction::CursorRight => unchanged && after.state.cursor_position == (if cursor
            + 1 <= text.len() {
            (cursor + 1) as usize
        } else {
            before.state.cursor_position
        }),
        KeyAction::CursorWordLeft => unchanged && after.state.cursor_position == word_left(
            text,
            cursor,
        ),
        KeyAction::CursorWordRight => unchanged && after.state.cursor_position == word_right(
            text,
            cursor,
        ),
        KeyAction::Clear => after.state.buffer@.len() == 0 && after.state.cursor_position == 0,
        KeyAction::Backspace => if cursor > 0 {
            after.state.cursor_position == cursor - 1 && after.state.buffer@ == text.remove(
                cursor - 1,
            )
        } else {
            after.state.cursor_position == 0 && unchanged
        },
        KeyAction::Delete => after.state.cursor_position == cursor && after.state.buffer@ == (
        if cursor + 1 <= text.len() {
            text.remove(cursor)
        } else {
            text
        }),
        KeyAction::Type => {
            let typed = match unicode {
                Some(u) => typed_text(u),
                None => Seq::<char>::empty(),
            };
            &&& after.state.buffer@ == text.subrange(0, cursor) + typed + text.subrange(
                cursor,
                text.len() as int,
            )
            &&& after.state.cursor_position == cursor + typed.len()
        },
        KeyAction::Touch => unchanged && after.state.cursor_position == cursor
            && after.state.last_keystroke is Some,
    }
}

/// The tracker with the modifiers of its state replaced.
pub open spec fn with_modifiers(tracker: InputTracker, modifiers: ModifierState) -> InputTracker {
    InputTracker { state: InputState { modifiers, ..tracker.state }, ..tracker }
}

/// Saving takes the buffer out of `before`: `after` is empty, and `saved` is
/// the entry of what was typed, for the application it was typed into,
/// where the buffer held enough.
pub open spec fn buffer_taken(before: InputTracker, after: InputTracker, saved: Option<InputEntry>)
    -> bool {
    &&& after.state.buffer@.len() == 0
    &&& after.state.cursor_position == 0
    &&& after.state.last_keystroke is None
    &&& after.state.session_start is None
    &&& after.state.modifiers == before.state.modifiers
    &&& after.platform == before.platform
    &&& match saved {
        Some(entry) => {
            &&& before.state.spec_has_content()
            &&& entry.content@ == before.state.buffer@
            &&& entry.app_name == before.current_app.name
            &&& entry.app_bundle_id == before.current_app.bundle_id
            &&& entry.app_pid == before.current_app.pid
            &&& entry.duration_ms >= 0
        },
        None => !before.state.spec_has_content(),
    }
}

/// Nothing of what was typed has changed between `before` and `after`.
pub open spec fn typing_untouched(before: InputTracker, after: InputTracker) -> bool {
    &&& after.state.buffer@ == before.state.buffer@
    &&& after.state.cursor_position == before.state.cursor_position
    &&& after.state.last_keystroke == before.state.last_keystroke
    &&& after.state.session_start == before.state.session_start
    &&& after.state.modifiers == before.state.modifiers
    &&& after.platform == before.platform
}

/// What a keystroke does. Keys typed into an excluded application are not
/// looked at. A key going up only changes the modifiers. A key going down
/// changes the modifiers, then does what `key_action` says under them.
pub open spec fn keystroke_effect(
    before: InputTracker,
    keystroke: KeystrokeEvent,
    excluded: Seq<String>,
    after: InputTracker,
    saved: Option<InputEntry>,
) -> bool {
    let modifiers = before.state.modifiers.updated(keystroke.key, keystroke.is_press);
    if app_excluded(excluded, before.current_app) {
        saved is None && after == before
    } else if keystroke.is_press {
        key_effect(
            with_modifiers(before, modifiers),
            key_action(modifiers, keystroke.key, before.platform),
            opt_text(keystroke.unicode),
            after,
            saved,
        )
    } else {
        saved is None && after == with_modifiers(before, modifiers)
    }
}

/// What a change of the focused application does. With no application
/// known so far, or with the same one as before, nothing is saved and only
/// an unknown application is replaced. Else the buffer is taken and saved,
/// or thrown away where the application left is excluded, and the new
/// application becomes the current one.
pub open spec fn app_change_effect(
    before: InputTracker,
    new_app: ActiveAppInfo,
    excluded: Seq<String>,
    after: InputTracker,
    saved: Option<InputEntry>,
) -> bool {
    if before.current_app.name@.len() == 0 {
        saved is None && after.current_app == new_app && typing_untouched(before, after)
    } else if same_app(new_app, before.current_app) {
        saved is None && after == before
    } else if app_excluded(excluded, before.current_app) {
        saved is None && after.current_app == new_app && after.state.buffer@.len() == 0
            && after.state.cursor_position == 0 && after.state.modifiers
            == before.state.modifiers && after.platform == before.platform
    } else {
        after.current_app == new_app && buffer_taken(before, after, saved)
    }
}

/// What a mouse click does: the buffer is taken and saved, unless the
/// current application is excluded; then the application that has the
/// focus becomes the current one.
pub open spec fn click_effect(
    before: InputTracker,
    focused: ActiveAppInfo,
    excluded: Seq<String>,
    after: InputTracker,
    saved: Option<InputEntry>,
) -> bool {
    &&& after.current_app == if same_app(focused, before.current_app) {
        before.current_app
    } else {
        focused
    }
    &&& if app_excluded(excluded, before.current_app) {
        saved is None && typing_untouched(before, after)
    } else {
        buffer_taken(before, after, saved)
    }
}

/// Whether a look at the idle time has the buffer saved, given the time
/// since the last key in nanoseconds, `None` where no key has been handled:
/// the timeout is on, the application is not excluded, the time has reached
/// the timeout, and the buffer holds enough.
pub open spec fn idle_save_due(
    before: InputTracker,
    idle_timeout_secs: u64,
    excluded: Seq<String>,
    elapsed_nanos: Option<u128>,
) -> bool {
    &&& idle_timeout_secs > 0
    &&& !app_excluded(excluded, before.current_app)
    &&& idle_given(elapsed_nanos, (idle_timeout_secs * 1_000_000_000) as u128)
    &&& before.state.spec_has_content()
}

/// What a look at the idle time does, given the time since the last key:
/// where saving is due the buffer is taken and saved; else nothing changes.
pub open spec fn idle_check_effect_after(
    before: InputTracker,
    idle_timeout_secs: u64,
    excluded: Seq<String>,
    elapsed_nanos: Option<u128>,
    after: InputTracker,
    saved: Option<InputEntry>,
) -> bool {
    if idle_save_due(before, idle_timeout_secs, excluded, elapsed_nanos) {
        saved is Some && after.current_app == before.current_app && buffer_taken(
            before,
            after,
            saved,
        )
    } else {
        saved is None && after == before
    }
}

/// What a look at the idle time does: what `idle_check_effect_after` says
/// for the time since the last key as the clock shows it. There is such a
/// time exactly where a key has been handled; how long it is, is the
/// clock's to say.
pub open spec fn idle_check_effect(
    before: InputTracker,
    idle_timeout_secs: u64,
    excluded: Seq<String>,
    after: InputTracker,
    saved: Option<InputEntry>,
) -> bool {
    exists|elapsed_nanos: Option<u128>|
        (elapsed_nanos is Some <==> before.state.last_keystroke is Some)
            && #[trigger] idle_check_effect_after(
            before,
            idle_timeout_secs,
            excluded,
            elapsed_nanos,
            after,
            saved,
        )
}

/// What handling an event gave.
#[derive(Clone, Debug, PartialEq, Eq)]
pub struct EventOutcome {
    /// The entry to save, if the event completed one.
    pub save: Option<InputEntry>,
    /// Whether the tracker is to stop.
    pub shutdown: bool,
}

/// The tracker: the typed input and the application it goes to.
pub struct InputTracker {
    pub state: InputState,
    pub current_app: ActiveAppInfo,
    pub platform: Platform,
}

impl InputTracker {
    /// The tracker is in order: the cursor lies within the buffer, and the
    /// state knows the current application.
    pub open spec fn wf(&self) -> bool {
        self.state.wf() && self.state.current_app == self.current_app
    }

    /// A tracker that starts with `app` in focus.
    pub fn new(app: ActiveAppInfo, platform: Platform) -> (r: Self)
        ensures
            r.wf(),
            r.current_app == app,
            r.platform == platform,
            r.state.buffer@.len() == 0,
            r.state.cursor_position == 0,
    {
        let mut state = InputState::default();
        state.set_current_app(app.duplicate());
        InputTracker { state, current_app: app, platform }
    }

    /// Types the characters of `unicode` that count, one after the other, at
    /// the cursor.
    pub fn type_text(&mut self, unicode: &str)
        requires
            old(self).wf(),
        ensures
            final(self).wf(),
            final(self).current_app == old(self).current_app,
            final(self).platform == old(self).platform,
            final(self).state.modifiers == old(self).state.modifiers,
            final(self).state.buffer@ == old(self).state.buffer@.subrange(
                0,
                old(self).state.cursor_position as int,
            ) + typed_text(unicode@) + old(self).state.buffer@.subrange(
                old(self).state.cursor_position as int,
                old(self).state.buffer@.len() as int,
            ),
            final(self).state.cursor_position == old(self).state.cursor_position + typed_text(
                unicode@,
            ).len(),
    {
        let chars = to_chars(unicode);
        let ghost before = self.state.buffer@;
        let ghost cursor = self.state.cursor_position as int;
        let ghost pred = |c: char| is_typed_char(c);
        let mut i: usize = 0;
        assert(chars@.subrange(0, 0).filter(pred) =~= Seq::<char>::empty()) by {
            assert(chars@.subrange(0, 0) =~= Seq::<char>::empty());
            reveal(Seq::filter);
        }
        assert(self.state.buffer@ =~= before.subrange(0, cursor) + Seq::<char>::empty()
            + before.subrange(cursor, before.len() as int));
        while i < chars.len()
            invariant
                i <= chars.len(),
                pred == (|c: char| is_typed_char(c)),
                0 <= cursor <= before.len(),
                self.wf(),
                self.current_app == old(self).current_app,
                self.platform == old(self).platform,
                self.state.modifiers == old(self).state.modifiers,
                self.state.buffer@ == before.subrange(0, cursor) + chars@.subrange(
                    0,
                    i as int,
                ).filter(pred) + before.subrange(cursor, before.len() as int),
                self.state.cursor_position == cursor + chars@.subrange(0, i as int).filter(
                    pred,
                ).len(),
            decreases chars.len() - i,
        {
            let c = chars[i];
            let ghost done = chars@.subrange(0, i as int);
            proof {
                assert(chars@.subrange(0, i + 1) =~= done.push(c));
                assert(chars@.subrange(0, i + 1).drop_last() =~= done);
                reveal(Seq::filter);
            }
            let code: u32 = c as u32;
            if (0x21 <= code && code <= 0x7E) || c == ' ' {
                self.state.append_char(c);
                assert(self.state.buffer@ =~= before.subrange(0, cursor) + done.filter(pred).push(
                    c,
                ) + before.subrange(cursor, before.len() as int));
            }
            i += 1;
        }
        assert(chars@.subrange(0, chars.len() as int) =~= chars@);
    }

    /// Carries out what a key does. `unicode` is the text that the key
    /// types. Saving hands out the buffer, where it holds enough, and clears
    /// it.
    pub fn apply_key_action(&mut self, action: KeyAction, unicode: Option<&str>) -> (r: Option<
        InputEntry,
    >)
        requires
            old(self).wf(),
        ensures
            final(self).wf(),
            key_effect(*old(self), action, opt_str_text(unicode), *final(self), r),
    {
        match action {
            KeyAction::Ignore => None,
            KeyAction::Save => self.state.take_entry(),
            KeyAction::CursorToStart => {
                self.state.move_cursor_to_start();
                None
            },
            KeyAction::CursorToEnd => {
                self.state.move_cursor_to_end();
                None
            },
            KeyAction::CursorLeft => {
                self.state.move_cursor_left();
                None
            },
            KeyAction::CursorRight => {
                self.state.move_cursor_right();
                None
            },
            KeyAction::CursorWordLeft => {
                self.state.move_cursor_word_left();
                None
            },
            KeyAction::CursorWordRight => {
                self.state.move_cursor_word_right();
                None
            },
            KeyAction::Clear => {
                self.state.clear();
                None
            },
            KeyAction::Backspace => {
                self.state.handle_backspace();
                None
            },
            KeyAction::Delete => {
                self.state.handle_delete();
                None
            },
            KeyAction::Type => {
                match unicode {
                    Some(u) => {
                        self.type_text(u);
                    },
                    None => {
                        let ghost b = self.state.buffer@;
                        let ghost c = self.state.cursor_position as int;
                        assert(b =~= b.subrange(0, c) + Seq::<char>::empty() + b.subrange(
                            c,
                            b.len() as int,
                        ));
                    },
                }
                None
            },
            KeyAction::Touch => {
                self.state.touch();
                None
            },
        }
    }

    /// Takes in a keystroke. Keys typed into an excluded application are
    /// not looked at. A key going up only changes the modifiers. A key going
    /// down changes the modifiers, then does what `key_action` says under
    /// them.
    pub fn on_keystroke(&mut self, keystroke: &KeystrokeEvent, excluded: &Vec<String>) -> (r:
        Option<InputEntry>)
        requires
            old(self).wf(),
        ensures
            final(self).wf(),
            keystroke_effect(*old(self), *keystroke, excluded@, *final(self), r),
    {
        if is_app_excluded(excluded, &self.current_app) {
            return None;
        }
        if keystroke.is_press {
            self.state.modifiers.update(keystroke.key, true);
            let action = classify_key(&self.state.modifiers, keystroke.key, self.platform);
            let unicode = match &keystroke.unicode {
                Some(u) => Some(u.as_str()),
                None => None,
            };
            self.apply_key_action(action, unicode)
        } else {
            self.state.modifiers.update(keystroke.key, false);
            None
        }
    }

    /// Takes in that `new_app` has the focus. Coming from a known
    /// application to another one, the buffer is saved, or thrown away where
    /// the application left is excluded. With no application known so far,
    /// `new_app` simply becomes the current one.
    pub fn on_app_changed(&mut self, new_app: ActiveAppInfo, excluded: &Vec<String>) -> (r: Option<
        InputEntry,
    >)
        requires
            old(self).wf(),
        ensures
            final(self).wf(),
            app_change_effect(*old(self), new_app, excluded@, *final(self), r),
    {
        let known = self.current_app.name.as_str().unicode_len() > 0;
        if known && !new_app.same_as(&self.current_app) {
            let saved = if !is_app_excluded(excluded, &self.current_app) {
                self.state.take_entry()
            } else {
                self.state.clear();
                None
            };
            self.state.set_current_app(new_app.duplicate());
            self.current_app = new_app;
            saved
        } else if !known {
            self.state.set_current_app(new_app.duplicate());
            self.current_app = new_app;
            None
        } else {
            None
        }
    }

    /// Takes in a mouse click, with the application that has the focus
    /// after it. The buffer is saved, unless the current application is
    /// excluded; then the focused application becomes the current one.
    pub fn on_click(&mut self, focused: ActiveAppInfo, excluded: &Vec<String>) -> (r: Option<
        InputEntry,
    >)
        requires
            old(self).wf(),
        ensures
            final(self).wf(),
            click_effect(*old(self), focused, excluded@, *final(self), r),
    {
        let saved = if !is_app_excluded(excluded, &self.current_app) {
            self.state.take_entry()
        } else {
            None
        };
        if !focused.same_as(&self.current_app) {
            self.state.set_current_app(focused.duplicate());
            self.current_app = focused;
        }
        saved
    }

    /// Looks whether the typing has paused for `idle_timeout_secs` seconds,
    /// given the time since the last key in nanoseconds, `None` where no key
    /// has been handled. Where the time has reached the timeout and the
    /// buffer holds enough, the buffer is taken and saved. A timeout of 0
    /// switches this off; an excluded application is left alone.
    pub fn on_idle_check_after(
        &mut self,
        idle_timeout_secs: u64,
        excluded: &Vec<String>,
        elapsed_nanos: Option<u128>,
    ) -> (r: Option<InputEntry>)
        requires
            old(self).wf(),
        ensures
            final(self).wf(),
            idle_check_effect_after(
                *old(self),
                idle_timeout_secs,
                excluded@,
                elapsed_nanos,
                *final(self),
                r,
            ),
    {
        if idle_timeout_secs == 0 {
            return None;
        }
        if is_app_excluded(excluded, &self.current_app) {
            return None;
        }
        let timeout_nanos: u128 = (idle_timeout_secs as u128) * 1_000_000_000;
        if InputState::idle_after(elapsed_nanos, timeout_nanos) && self.state.has_content() {
            self.state.take_entry()
        } else {
            None
        }
    }

    /// Looks whether the typing has paused for `idle_timeout_secs` seconds;
    /// if so, and the buffer holds enough, it is saved. A timeout of 0
    /// switches this off; an excluded application is left alone. The time
    /// since the last key is read off the clock.
    pub fn on_idle_check(&mut self, idle_timeout_secs: u64, excluded: &Vec<String>) -> (r: Option<
        InputEntry,
    >)
        requires
            old(self).wf(),
        ensures
            final(self).wf(),
            idle_check_effect(*old(self), idle_timeout_secs, excluded@, *final(self), r),
    {
        let elapsed = match &self.state.last_keystroke {
            Some(t) => Some(elapsed_nanos(t)),
            None => None,
        };
        self.on_idle_check_after(idle_timeout_secs, excluded, elapsed)
    }

    /// Takes in an event and says what is to be saved and whether the
    /// tracker stops. Shutting down saves what the buffer holds.
    pub fn handle_event(
        &mut self,
        event: InputTrackerEvent,
        excluded: &Vec<String>,
        idle_timeout_secs: u64,
    ) -> (r: EventOutcome)
        requires
            old(self).wf(),
        ensures
            final(self).wf(),
            r.shutdown == (event is Shutdown),
            match event {
                InputTrackerEvent::AppChanged(new_app) => app_change_effect(
                    *old(self),
                    new_app,
                    excluded@,
                    *final(self),
                    r.save,
                ),
                InputTrackerEvent::Keystroke(keystroke) => keystroke_effect(
                    *old(self),
                    keystroke,
                    excluded@,
                    *final(self),
                    r.save,
                ),
                InputTrackerEvent::Click(focused) => click_effect(
                    *old(self),
                    focused,
                    excluded@,
                    *final(self),
                    r.save,
                ),
                InputTrackerEvent::IdleCheck => idle_check_effect(
                    *old(self),
                    idle_timeout_secs,
                    excluded@,
                    *final(self),
                    r.save,
                ),
                InputTrackerEvent::Shutdown => final(self).current_app == old(self).current_app
                    && buffer_taken(*old(self), *final(self), r.save),
            },
    {
        match event {
            InputTrackerEvent::AppChanged(new_app) => {
                let save = self.on_app_changed(new_app, excluded);
                EventOutcome { save, shutdown: false }
            },
            InputTrackerEvent::Keystroke(keystroke) => {
                let save = self.on_keystroke(&keystroke, excluded);
                EventOutcome { save, shutdown: false }
            },
            InputTrackerEvent::Click(focused) => {
                let save = self.on_click(focused, excluded);
                EventOutcome { save, shutdown: false }
            },
            InputTrackerEvent::IdleCheck => {
                let save = self.on_idle_check(idle_timeout_secs, excluded);
                EventOutcome { save, shutdown: false }
            },
            InputTrackerEvent::Shutdown => {
                let save = self.state.take_entry();
                EventOutcome { save, shutdown: true }
            },
        }
    }
}

} // verus!
