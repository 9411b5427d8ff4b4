//! The state of the typed input: the buffer, the cursor in it, and the
//! modifier keys that are held down.

use crate::clock::{clock_now, elapsed_nanos, utc_now_seconds};
use crate::input_tracker::types::{ActiveAppInfo, InputEntry, Key, Platform};
use crate::text::{
    from_chars, is_whitespace, is_whitespace_char, trim, trimmed, utf8_len, utf8_len_at_least,
};
use vstd::prelude::*;

verus! {

/// The least number of bytes of typed text worth saving.
pub const MIN_CHARS_FOR_SAVE: usize = 3;

/// Which modifier keys are held down.
#[derive(Clone, Copy, Debug, PartialEq, Eq, Structural)]
pub struct ModifierState {
    pub shift: bool,
    pub ctrl: bool,
    pub alt: bool,
    /// Command on macOS, the Windows key elsewhere.
    pub meta: bool,
}

/// Whether `key` is a modifier key.
pub open spec fn is_modifier(key: Key) -> bool {
    key == Key::ShiftLeft || key == Key::ShiftRight || key == Key::ControlLeft || key
        == Key::ControlRight || key == Key::Alt || key == Key::AltGr || key == Key::MetaLeft
        || key == Key::MetaRight
}

impl ModifierState {
    /// No modifier is held down.
    pub fn none() -> (r: ModifierState)
        ensures
            r == (ModifierState { shift: false, ctrl: false, alt: false, meta: false }),
    {
        ModifierState { shift: false, ctrl: false, alt: false, meta: false }
    }

    /// Whether any modifier but shift is held down.
    pub fn any_modifier(&self) -> (r: bool)
        ensures
            r == (self.ctrl || self.alt || self.meta),
    {
        self.ctrl || self.alt || self.meta
    }

    /// Whether the modifier for jumping by word is held down, alone among
    /// control, alt and meta: alt on macOS, control elsewhere.
    pub open spec fn spec_is_word_modifier(&self, platform: Platform) -> bool {
        match platform {
            Platform::MacOs => self.alt && !self.ctrl && !self.meta,
            Platform::Other => self.ctrl && !self.alt && !self.meta,
        }
    }

    /// Whether the modifier for jumping by line is held down, alone among
    /// control, alt and meta: meta on macOS; elsewhere there is none.
    pub open spec fn spec_is_line_modifier(&self, platform: Platform) -> bool {
        match platform {
            Platform::MacOs => self.meta && !self.ctrl && !self.alt,
            Platform::Other => false,
        }
    }

    /// Whether the modifier for jumping by word is held down.
    pub fn is_word_modifier(&self, platform: Platform) -> (r: bool)
        ensures
            r == self.spec_is_word_modifier(platform),
    {
        match platform {
            Platform::MacOs => self.alt && !self.ctrl && !self.meta,
            Platform::Other => self.ctrl && !self.alt && !self.meta,
        }
    }

    /// Whether the modifier for jumping by line is held down.
    pub fn is_line_modifier(&self, platform: Platform) -> (r: bool)
        ensures
            r == self.spec_is_line_modifier(platform),
    {
        match platform {
            Platform::MacOs => self.meta && !self.ctrl && !self.alt,
            Platform::Other => false,
        }
    }

    /// The state after `key` went down (`pressed`) or up.
    pub open spec fn updated(self, key: Key, pressed: bool) -> ModifierState {
        match key {
            Key::ShiftLeft | Key::ShiftRight => ModifierState { shift: pressed, ..self },
            Key::ControlLeft | Key::ControlRight => ModifierState { ctrl: pressed, ..self },
            Key::Alt | Key::AltGr => ModifierState { alt: pressed, ..self },
            Key::MetaLeft | Key::MetaRight => ModifierState { meta: pressed, ..self },
            _ => self,
        }
    }

    /// Takes in that `key` went down (`pressed`) or up.
    pub fn update(&mut self, key: Key, pressed: bool)
        ensures
            *final(self) == old(self).updated(key, pressed),
    {
        match key {
            Key::ShiftLeft | Key::ShiftRight => {
                self.shift = pressed;
            },
            Key::ControlLeft | Key::ControlRight => {
                self.ctrl = pressed;
            },
            Key::Alt | Key::AltGr => {
                self.alt = pressed;
            },
            Key::MetaLeft | Key::MetaRight => {
                self.meta = pressed;
            },
            _ => {},
        }
    }

    /// Whether `key` is a modifier key.
    pub fn is_modifier_key(key: Key) -> (r: bool)
        ensures
            r == is_modifier(key),
    {
        match key {
            Key::ShiftLeft
            | Key::ShiftRight
            | Key::ControlLeft
            | Key::ControlRight
            | Key::Alt
            | Key::AltGr
            | Key::MetaLeft
            | Key::MetaRight => true,
            _ => false,
        }
    }
}

impl Default for ModifierState {
    fn default() -> (r: ModifierState)
        ensures
            r == (ModifierState { shift: false, ctrl: false, alt: false, meta: false }),
    {
        ModifierState::none()
    }
}

/// Whether `c` ends a word: white space, or one of the usual punctuation
/// marks.
pub open spec fn is_word_boundary_char(c: char) -> bool {
    is_whitespace_char(c) || c == '.' || c == ',' || c == ';' || c == ':' || c == '!' || c == '?'
        || c == '\'' || c == '"' || c == '(' || c == ')' || c == '[' || c == ']' || c == '{' || c
        == '}' || c == '-' || c == '_' || c == '/' || c == '\\' || c == '@' || c == '#' || c
        == '$' || c == '%' || c == '^' || c == '&' || c == '*' || c == '+' || c == '=' || c == '<'
        || c == '>' || c == '|' || c == '~' || c == '`'
}

/// Moving left from `pos` past every character that is (`boundary`) or is
/// not a word boundary.
pub open spec fn skip_left(s: Seq<char>, pos: int, boundary: bool) -> int
    decreases pos,
{
    if 0 < pos <= s.len() && is_word_boundary_char(s[pos - 1]) == boundary {
        skip_left(s, pos - 1, boundary)
    } else {
        pos
    }
}

/// Moving right from `pos` past every character that is (`boundary`) or is
/// not a word boundary.
pub open spec fn skip_right(s: Seq<char>, pos: int, boundary: bool) -> int
    decreases s.len() - pos,
{
    if 0 <= pos < s.len() && is_word_boundary_char(s[pos]) == boundary {
        skip_right(s, pos + 1, boundary)
    } else {
        pos
    }
}

/// The start of the word before `pos`: past the boundaries right before
/// `pos`, then past the word.
pub open spec fn word_left(s: Seq<char>, pos: int) -> int {
    skip_left(s, skip_left(s, pos, true), false)
}

/// The end of the word at `pos`, with what separates it from the next: past
/// the word, then past the boundaries behind it.
pub open spec fn word_right(s: Seq<char>, pos: int) -> int {
    skip_right(s, skip_right(s, pos, false), true)
}

/// Whether the time since a key has reached the timeout, both in
/// nanoseconds: with no key, no time has passed since one.
pub open spec fn idle_given(elapsed_nanos: Option<u128>, timeout_nanos: u128) -> bool {
    match elapsed_nanos {
        Some(e) => e >= timeout_nanos,
        None => false,
    }
}

/// What has been typed, and where the cursor is in it.
pub struct InputState {
    /// The typed text.
    pub buffer: Vec<char>,
    /// The cursor, counted in characters: 0 is the start, the length of the
    /// buffer the end.
    pub cursor_position: usize,
    /// When the last key was handled.
    pub last_keystroke: Option<std::time::Instant>,
    /// When the first character of the buffer was typed.
    pub session_start: Option<std::time::Instant>,
    /// The application that is typed into.
    pub current_app: ActiveAppInfo,
    pub modifiers: ModifierState,
}

impl Default for InputState {
    fn default() -> (r: InputState)
        ensures
            r.wf(),
            r.buffer@.len() == 0,
            r.cursor_position == 0,
            r.last_keystroke is None,
            r.session_start is None,
            r.current_app.name@.len() == 0 && r.current_app.bundle_id is None
                && r.current_app.pid is None,
            r.modifiers == (ModifierState { shift: false, ctrl: false, alt: false, meta: false }),
    {
        InputState {
            buffer: Vec::new(),
            cursor_position: 0,
            last_keystroke: None,
            session_start: None,
            current_app: ActiveAppInfo::empty(),
            modifiers: ModifierState::none(),
        }
    }
}

impl InputState {
    /// The cursor lies within the buffer.
    pub open spec fn wf(&self) -> bool {
        self.cursor_position <= self.buffer@.len()
    }

    /// Everything but the buffer, the cursor and the time of the last key
    /// is as in `other`.
    pub open spec fn same_context(&self, other: &InputState) -> bool {
        self.session_start == other.session_start && self.current_app == other.current_app
            && self.modifiers == other.modifiers
    }

    /// Whether the buffer holds enough to be worth saving: at least three
    /// bytes, white space at the ends not counted.
    pub open spec fn spec_has_content(&self) -> bool {
        utf8_len(trimmed(self.buffer@)) >= MIN_CHARS_FOR_SAVE
    }

    /// Types `c` at the cursor, which moves behind it. The first character
    /// of a buffer starts the clock of the session.
    pub fn append_char(&mut self, c: char)
        requires
            old(self).wf(),
        ensures
            final(self).wf(),
            final(self).buffer@ == old(self).buffer@.insert(old(self).cursor_position as int, c),
            final(self).cursor_position == old(self).cursor_position + 1,
            final(self).last_keystroke is Some,
            final(self).session_start is Some,
            old(self).session_start is Some ==> final(self).session_start
                == old(self).session_start,
            final(self).current_app == old(self).current_app,
            final(self).modifiers == old(self).modifiers,
    {
        if self.session_start.is_none() {
            self.session_start = Some(clock_now());
        }
        self.buffer.insert(self.cursor_position, c);
        let len = self.buffer.len();
        self.cursor_position = self.cursor_position + 1;
        self.last_keystroke = Some(clock_now());
    }

    /// Removes the character before the cursor, which moves onto its place.
    /// At the start of the buffer nothing is removed.
    pub fn handle_backspace(&mut self)
        requires
            old(self).wf(),
        ensures
            final(self).wf(),
            final(self).same_context(old(self)),
            final(self).last_keystroke is Some,
            if old(self).cursor_position > 0 {
                final(self).cursor_position == old(self).cursor_position - 1
                    && final(self).buffer@ == old(self).buffer@.remove(old(self).cursor_position - 1)
            } else {
                final(self).cursor_position == 0 && final(self).buffer@ == old(self).buffer@
            },
    {
        if self.cursor_position > 0 {
            self.cursor_position = self.cursor_position - 1;
            let _ = self.buffer.remove(self.cursor_position);
        }
        self.last_keystroke = Some(clock_now());
    }

    /// Removes the character at the cursor. At the end of the buffer nothing
    /// is removed.
    pub fn handle_delete(&mut self)
        requires
            old(self).wf(),
        ensures
            final(self).wf(),
            final(self).same_context(old(self)),
            final(self).last_keystroke is Some,
            final(self).cursor_position == old(self).cursor_position,
            final(self).buffer@ == if old(self).cursor_position < old(self).buffer@.len() {
                old(self).buffer@.remove(old(self).cursor_position as int)
            } else {
                old(self).buffer@
            },
    {
        if self.cursor_position < self.buffer.len() {
            let _ = self.buffer.remove(self.cursor_position);
        }
        self.last_keystroke = Some(clock_now());
    }

    /// Empties the buffer and forgets the times.
    pub fn clear(&mut self)
        ensures
            final(self).wf(),
            final(self).buffer@.len() == 0,
            final(self).cursor_position == 0,
            final(self).last_keystroke is None,
            final(self).session_start is None,
            final(self).current_app == old(self).current_app,
            final(self).modifiers == old(self).modifiers,
    {
        self.buffer.clear();
        self.cursor_position = 0;
        self.last_keystroke = None;
        self.session_start = None;
    }

    /// Whether the time since a key, if there was one, has reached the
    /// timeout: both in nanoseconds.
    pub fn idle_after(elapsed_nanos: Option<u128>, timeout_nanos: u128) -> (r: bool)
        ensures
            r == idle_given(elapsed_nanos, timeout_nanos),
    {
        match elapsed_nanos {
            Some(e) => e >= timeout_nanos,
            None => false,
        }
    }

    /// Whether no key has been handled for at least `timeout_nanos`
    /// nanoseconds: what `idle_after` says for the time since the last key as
    /// the clock shows it. Without any key since the buffer was cleared the
    /// answer is no; with a timeout of 0 a key that has been handled is
    /// enough.
    pub fn is_idle(&self, timeout_nanos: u128) -> (r: bool)
        ensures
            exists|elapsed_nanos: Option<u128>|
                (elapsed_nanos is Some <==> self.last_keystroke is Some) && r
                    == #[trigger] idle_given(elapsed_nanos, timeout_nanos),
    {
        let elapsed = match &self.last_keystroke {
            Some(t) => Some(elapsed_nanos(t)),
            None => None,
        };
        let r = InputState::idle_after(elapsed, timeout_nanos);
        assert((elapsed is Some <==> self.last_keystroke is Some) && r == idle_given(
            elapsed,
            timeout_nanos,
        ));
        r
    }

    /// Whether the buffer holds enough to be worth saving.
    pub fn has_content(&self) -> (r: bool)
        ensures
            r == self.spec_has_content(),
    {
        let t = trim(&self.buffer);
        utf8_len_at_least(&t, MIN_CHARS_FOR_SAVE)
    }

    /// The entry for the buffer as it stands, typed into the current
    /// application, at `timestamp`, over `duration_ms`.
    pub fn entry_at(&self, timestamp: i64, duration_ms: i64) -> (r: InputEntry)
        ensures
            r.app_name == self.current_app.name,
            r.app_bundle_id == self.current_app.bundle_id,
            r.app_pid == self.current_app.pid,
            r.content@ == self.buffer@,
            r.timestamp == timestamp,
            r.duration_ms == duration_ms,
    {
        let app = self.current_app.duplicate();
        InputEntry {
            app_name: app.name,
            app_bundle_id: app.bundle_id,
            app_pid: app.pid,
            content: from_chars(&self.buffer),
            timestamp,
            duration_ms,
        }
    }

    /// Takes the buffer out for saving and clears the state. Where the
    /// buffer does not hold enough, nothing is handed out. The entry is
    /// stamped with the wall clock and with the time since the session
    /// started, 0 where no start is known.
    pub fn take_entry(&mut self) -> (r: Option<InputEntry>)
        ensures
            final(self).wf(),
            final(self).buffer@.len() == 0,
            final(self).cursor_position == 0,
            final(self).last_keystroke is None,
            final(self).session_start is None,
            final(self).current_app == old(self).current_app,
            final(self).modifiers == old(self).modifiers,
            match r {
                Some(entry) => {
                    &&& old(self).spec_has_content()
                    &&& entry.content@ == old(self).buffer@
                    &&& entry.app_name == old(self).current_app.name
                    &&& entry.app_bundle_id == old(self).current_app.bundle_id
                    &&& entry.app_pid == old(self).current_app.pid
                    &&& old(self).session_start is None ==> entry.duration_ms == 0
                    &&& entry.duration_ms >= 0
                },
                None => !old(self).spec_has_content(),
            },
    {
        if !self.has_content() {
            self.clear();
            return None;
        }
        let duration_ms: i64 = match &self.session_start {
            Some(start) => {
                let nanos = elapsed_nanos(start);
                let millis = nanos / 1_000_000;
                if millis > i64::MAX as u128 {
                    i64::MAX
                } else {
                    millis as i64
                }
            },
            None => 0,
        };
        let entry = self.entry_at(utc_now_seconds(), duration_ms);
        self.clear();
        Some(entry)
    }

    /// Sets the application that is typed into.
    pub fn set_current_app(&mut self, app: ActiveAppInfo)
        ensures
            final(self).current_app == app,
            final(self).buffer == old(self).buffer,
            final(self).cursor_position == old(self).cursor_position,
            final(self).last_keystroke == old(self).last_keystroke,
            final(self).session_start == old(self).session_start,
            final(self).modifiers == old(self).modifiers,
    {
        self.current_app = app;
    }

    /// Notes that a key was handled now.
    pub fn touch(&mut self)
        ensures
            final(self).last_keystroke is Some,
            final(self).buffer == old(self).buffer,
            final(self).cursor_position == old(self).cursor_position,
            final(self).same_context(old(self)),
    {
        self.last_keystroke = Some(clock_now());
    }

    /// Moves the cursor one character to the left, if it is not at the start.
    pub fn move_cursor_left(&mut self)
        ensures
            final(self).buffer == old(self).buffer,
            final(self).same_context(old(self)),
            final(self).last_keystroke is Some,
            final(self).cursor_position == if old(self).cursor_position > 0 {
                (old(self).cursor_position - 1) as usize
            } else {
                0
            },
            old(self).wf() ==> final(self).wf(),
    {
        if self.cursor_position > 0 {
            self.cursor_position = self.cursor_position - 1;
        }
        self.last_keystroke = Some(clock_now());
    }

    /// Moves the cursor one character to the right, if it is not at the end.
    pub fn move_cursor_right(&mut self)
        ensures
            final(self).buffer == old(self).buffer,
            final(self).same_context(old(self)),
            final(self).last_keystroke is Some,
            final(self).cursor_position == if old(self).cursor_position < old(self).buffer@.len() {
                (old(self).cursor_position + 1) as usize
            } else {
                old(self).cursor_position
            },
            old(self).wf() ==> final(self).wf(),
    {
        if self.cursor_position < self.buffer.len() {
            self.cursor_position = self.cursor_position + 1;
        }
        self.last_keystroke = Some(clock_now());
    }

    /// Moves the cursor to the start of the buffer.
    pub fn move_cursor_to_start(&mut self)
        ensures
            final(self).buffer == old(self).buffer,
            final(self).same_context(old(self)),
            final(self).last_keystroke is Some,
            final(self).cursor_position == 0,
            final(self).wf(),
    {
        self.cursor_position = 0;
        self.last_keystroke = Some(clock_now());
    }

    /// Moves the cursor to the end of the buffer.
    pub fn move_cursor_to_end(&mut self)
        ensures
            final(self).buffer == old(self).buffer,
            final(self).same_context(old(self)),
            final(self).last_keystroke is Some,
            final(self).cursor_position == old(self).buffer@.len(),
            final(self).wf(),
    {
        self.cursor_position = self.buffer.len();
        self.last_keystroke = Some(clock_now());
    }

    /// Moves the cursor to the start of the word before it. At the start of
    /// the buffer nothing happens, and no key counts as handled.
    pub fn move_cursor_word_left(&mut self)
        requires
            old(self).wf(),
        ensures
            final(self).wf(),
            final(self).buffer == old(self).buffer,
            final(self).same_context(old(self)),
            final(self).cursor_position == word_left(
                old(self).buffer@,
                old(self).cursor_position as int,
            ),
            if old(self).cursor_position == 0 {
                final(self).last_keystroke == old(self).last_keystroke
            } else {
                final(self).last_keystroke is Some
            },
    {
        if self.cursor_position == 0 {
            return ;
        }
        let mut pos: usize = self.cursor_position;
        while pos > 0 && InputState::is_word_boundary(self.buffer[pos - 1])
            invariant
                pos <= self.cursor_position <= self.buffer@.len(),
                skip_left(self.buffer@, self.cursor_position as int, true) == skip_left(
                    self.buffer@,
                    pos as int,
                    true,
                ),
            decreases pos,
        {
            pos = pos - 1;
        }
        let ghost mid = pos;
        while pos > 0 && !InputState::is_word_boundary(self.buffer[pos - 1])
            invariant
                pos <= mid <= self.buffer@.len(),
                skip_left(self.buffer@, mid as int, false) == skip_left(
                    self.buffer@,
                    pos as int,
                    false,
                ),
            decreases pos,
        {
            pos = pos - 1;
        }
        self.cursor_position = pos;
        self.last_keystroke = Some(clock_now());
    }

    /// Moves the cursor behind the word at it and what separates that word
    /// from the next. At the end of the buffer nothing happens, and no key
    /// counts as handled.
    pub fn move_cursor_word_right(&mut self)
        requires
            old(self).wf(),
        ensures
            final(self).wf(),
            final(self).buffer == old(self).buffer,
            final(self).same_context(old(self)),
            final(self).cursor_position == word_right(
                old(self).buffer@,
                old(self).cursor_position as int,
            ),
            if old(self).cursor_position >= old(self).buffer@.len() {
                final(self).last_keystroke == old(self).last_keystroke
            } else {
                final(self).last_keystroke is Some
            },
    {
        let len = self.buffer.len();
        if self.cursor_position >= len {
            return ;
        }
        let mut pos: usize = self.cursor_position;
        while pos < len && !InputState::is_word_boundary(self.buffer[pos])
            invariant
                self.cursor_position <= pos <= len,
                len == self.buffer@.len(),
                skip_right(self.buffer@, self.cursor_position as int, false) == skip_right(
                    self.buffer@,
                    pos as int,
                    false,
                ),
            decreases len - pos,
        {
            pos = pos + 1;
        }
        let ghost mid = pos;
        while pos < len && InputState::is_word_boundary(self.buffer[pos])
            invariant
                mid <= pos <= len,
                len == self.buffer@.len(),
                skip_right(self.buffer@, mid as int, true) == skip_right(
                    self.buffer@,
                    pos as int,
                    true,
                ),
            decreases len - pos,
        {
            pos = pos + 1;
        }
        self.cursor_position = pos;
        self.last_keystroke = Some(clock_now());
    }

    /// Whether `c` ends a word.
    pub fn is_word_boundary(c: char) -> (r: bool)
        ensures
            r == is_word_boundary_char(c),
    {
        is_whitespace(c) || c == '.' || c == ',' || c == ';' || c == ':' || c == '!' || c == '?'
            || c == '\'' || c == '"' || c == '(' || c == ')' || c == '[' || c == ']' || c == '{'
            || c == '}' || c == '-' || c == '_' || c == '/' || c == '\\' || c == '@' || c == '#'
            || c == '$' || c == '%' || c == '^' || c == '&' || c == '*' || c == '+' || c == '='
            || c == '<' || c == '>' || c == '|' || c == '~' || c == '`'
    }
}

} // verus!
