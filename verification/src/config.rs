//! The configuration, result and error types of the task dialog interface,
//! and the flag constants the native facility understands.
//!
//! Window and module handles are carried as plain machine words (`usize`),
//! with `0` standing for the null handle; a platform front end converts
//! them to and from its own handle types. Flag words are forwarded
//! verbatim: this layer assigns them no semantics of its own.

use vstd::prelude::*;

verus! {

// Standard-button selection flags of the native facility.
pub const TDCBF_OK_BUTTON: u32 = 0x0001;

pub const TDCBF_YES_BUTTON: u32 = 0x0002;

pub const TDCBF_NO_BUTTON: u32 = 0x0004;

pub const TDCBF_CANCEL_BUTTON: u32 = 0x0008;

pub const TDCBF_RETRY_BUTTON: u32 = 0x0010;

pub const TDCBF_CLOSE_BUTTON: u32 = 0x0020;

// Behavior flags of the native facility.
pub const TDF_ENABLE_HYPERLINKS: u32 = 0x0001;

pub const TDF_USE_HICON_MAIN: u32 = 0x0002;

pub const TDF_USE_HICON_FOOTER: u32 = 0x0004;

pub const TDF_ALLOW_DIALOG_CANCELLATION: u32 = 0x0008;

pub const TDF_USE_COMMAND_LINKS: u32 = 0x0010;

pub const TDF_USE_COMMAND_LINKS_NO_ICON: u32 = 0x0020;

pub const TDF_EXPAND_FOOTER_AREA: u32 = 0x0040;

pub const TDF_EXPANDED_BY_DEFAULT: u32 = 0x0080;

pub const TDF_VERIFICATION_FLAG_CHECKED: u32 = 0x0100;

pub const TDF_SHOW_PROGRESS_BAR: u32 = 0x0200;

pub const TDF_SHOW_MARQUEE_PROGRESS_BAR: u32 = 0x0400;

pub const TDF_CALLBACK_TIMER: u32 = 0x0800;

pub const TDF_POSITION_RELATIVE_TO_WINDOW: u32 = 0x1000;

pub const TDF_RTL_LAYOUT: u32 = 0x2000;

pub const TDF_NO_DEFAULT_RADIO_BUTTON: u32 = 0x4000;

pub const TDF_CAN_BE_MINIMIZED: u32 = 0x8000;

pub const TDF_NO_SET_FOREGROUND: u32 = 0x00010000;

pub const TDF_SIZE_TO_CONTENT: u32 = 0x01000000;

/// A custom button or radio button: a caller-chosen identifier and a label.
/// Identifiers should be unique within their list; the native facility's
/// behavior is undefined otherwise, and this layer does not validate it.
pub struct TaskDialogButton {
    pub id: i32,
    pub text: String,
}

/// The immutable description of one dialog invocation.
///
/// `parent` is the owning window's handle and `instance` the module handle
/// used to resolve resources; either may be `0` (null). An absent
/// `instance` is replaced by the current process's module handle at
/// invocation time. Every text field may be empty; an empty field is
/// still encoded and passed, never replaced by a null pointer.
pub struct TaskDialogConfig {
    pub parent: usize,
    pub instance: usize,
    pub flags: u32,
    pub common_buttons: u32,
    pub window_title: String,
    pub main_instruction: String,
    pub content: String,
    pub verification_text: String,
    pub expanded_information: String,
    pub expanded_control_text: String,
    pub collapsed_control_text: String,
    pub footer: String,
    pub buttons: Vec<TaskDialogButton>,
    pub default_button: i32,
    pub radio_buttons: Vec<TaskDialogButton>,
    pub default_radio_buttons: i32,
}

/// What the user chose: the activated button, the selected radio button
/// (`0` if none), and whether the verification checkbox was checked.
#[derive(Clone, Copy, PartialEq, Eq, Structural, Debug)]
pub struct TaskDialogResult {
    pub button_id: i32,
    pub radio_button_id: i32,
    pub checked: bool,
}

/// Why no result was produced: the native call failed with the platform's
/// last captured error code, or the running platform has no task dialog
/// facility at all.
#[derive(Clone, Copy, PartialEq, Eq, Structural, Debug)]
pub enum TaskDialogError {
    NativeFailure { code: u32 },
    UnsupportedPlatform,
}

} // verus!
