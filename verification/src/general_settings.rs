//! The settings that are chosen by name: what each name stands for, and
//! what stands in for a name that is not known.

use crate::shell::HostSystem;
use crate::text::{concat, str_eq};
use vstd::prelude::*;

verus! {

/// Where the overlay is shown.
#[derive(Clone, Copy, Debug, PartialEq, Eq, Structural)]
pub enum OverlayPosition {
    /// The overlay is not shown.
    Hidden,
    Top,
    Bottom,
}

/// How the text is pasted.
#[derive(Clone, Copy, Debug, PartialEq, Eq, Structural)]
pub enum PasteMethod {
    CtrlV,
    Direct,
    ShiftInsert,
}

/// What is done to the clipboard.
#[derive(Clone, Copy, Debug, PartialEq, Eq, Structural)]
pub enum ClipboardHandling {
    DontModify,
    CopyToClipboard,
}

/// How long recordings are kept.
#[derive(Clone, Copy, Debug, PartialEq, Eq, Structural)]
pub enum RecordingRetentionPeriod {
    Never,
    PreserveLimit,
    Days3,
    Weeks2,
    Months3,
}

/// The idle timeout of the input tracker where none is set, in seconds.
pub const DEFAULT_INPUT_IDLE_TIMEOUT_SECS: u64 = 2;

/// The overlay position of a name; the bottom for a name that is not known.
pub fn parse_overlay_position(position: &str) -> (r: OverlayPosition)
    ensures
        r == if position@ == "none"@ {
            OverlayPosition::Hidden
        } else if position@ == "top"@ {
            OverlayPosition::Top
        } else {
            OverlayPosition::Bottom
        },
{
    if str_eq(position, "none") {
        OverlayPosition::Hidden
    } else if str_eq(position, "top") {
        OverlayPosition::Top
    } else {
        OverlayPosition::Bottom
    }
}

/// The paste method of a name; control-V for a name that is not known.
/// Shift-insert is not on offer on macOS.
pub fn parse_paste_method(method: &str, host: HostSystem) -> (r: PasteMethod)
    ensures
        r == if method@ == "ctrl_v"@ {
            PasteMethod::CtrlV
        } else if method@ == "direct"@ {
            PasteMethod::Direct
        } else if method@ == "shift_insert"@ && host != HostSystem::MacOs {
            PasteMethod::ShiftInsert
        } else {
            PasteMethod::CtrlV
        },
{
    if str_eq(method, "ctrl_v") {
        PasteMethod::CtrlV
    } else if str_eq(method, "direct") {
        PasteMethod::Direct
    } else if str_eq(method, "shift_insert") {
        match host {
            HostSystem::MacOs => PasteMethod::CtrlV,
            _ => PasteMethod::ShiftInsert,
        }
    } else {
        PasteMethod::CtrlV
    }
}

/// The clipboard handling of a name; leaving the clipboard alone for a name
/// that is not known.
pub fn parse_clipboard_handling(handling: &str) -> (r: ClipboardHandling)
    ensures
        r == if handling@ == "copy_to_clipboard"@ {
            ClipboardHandling::CopyToClipboard
        } else {
            ClipboardHandling::DontModify
        },
{
    if str_eq(handling, "copy_to_clipboard") {
        ClipboardHandling::CopyToClipboard
    } else {
        ClipboardHandling::DontModify
    }
}

/// The retention period of a name, where the name is known.
pub open spec fn retention_period_of(period: Seq<char>) -> Option<RecordingRetentionPeriod> {
    if period == "never"@ {
        Some(RecordingRetentionPeriod::Never)
    } else if period == "preserve_limit"@ {
        Some(RecordingRetentionPeriod::PreserveLimit)
    } else if period == "days3"@ {
        Some(RecordingRetentionPeriod::Days3)
    } else if period == "weeks2"@ {
        Some(RecordingRetentionPeriod::Weeks2)
    } else if period == "months3"@ {
        Some(RecordingRetentionPeriod::Months3)
    } else {
        None
    }
}

/// The retention period of a name; a name that is not known is turned down.
pub fn parse_retention_period(period: &str) -> (r: Result<RecordingRetentionPeriod, String>)
    ensures
        match r {
            Ok(p) => retention_period_of(period@) == Some(p),
            Err(e) => retention_period_of(period@) is None && e@ == "Invalid retention period: "@
                + period@,
        },
{
    if str_eq(period, "never") {
        Ok(RecordingRetentionPeriod::Never)
    } else if str_eq(period, "preserve_limit") {
        Ok(RecordingRetentionPeriod::PreserveLimit)
    } else if str_eq(period, "days3") {
        Ok(RecordingRetentionPeriod::Days3)
    } else if str_eq(period, "weeks2") {
        Ok(RecordingRetentionPeriod::Weeks2)
    } else if str_eq(period, "months3") {
        Ok(RecordingRetentionPeriod::Months3)
    } else {
        Err(concat("Invalid retention period: ", period))
    }
}

/// The idle timeout that the tracker starts with: the one set, or the
/// default.
pub fn initial_idle_timeout(configured: Option<u64>) -> (r: u64)
    ensures
        r == match configured {
            Some(t) => t,
            None => DEFAULT_INPUT_IDLE_TIMEOUT_SECS,
        },
{
    match configured {
        Some(t) => t,
        None => DEFAULT_INPUT_IDLE_TIMEOUT_SECS,
    }
}

/// The idle timeout that a change of the setting hands to the tracker:
/// without a value the timeout is switched off.
pub fn changed_idle_timeout(configured: Option<u64>) -> (r: u64)
    ensures
        r == match configured {
            Some(t) => t,
            None => 0,
        },
{
    match configured {
        Some(t) => t,
        None => 0,
    }
}

} // verus!
