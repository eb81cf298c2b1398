//! A structured interface to the operating system's task dialog facility.
//!
//! The library turns an owned [`config::TaskDialogConfig`] into the
//! plain-value image of the native descriptor record: null-terminated
//! wide-character encodings of every text field and label, and parallel
//! (identifier, encoded label) arrays for buttons and radio buttons.
//! A platform front end passes that image to the native call and hands
//! the raw outcome back to [`dialog::translate_outcome`].

use vstd::prelude::*;

pub mod config;
pub mod descriptor;
pub mod dialog;
pub mod wide;

pub use config::{TaskDialogButton, TaskDialogConfig, TaskDialogError, TaskDialogResult};
pub use config::{
    TDCBF_CANCEL_BUTTON, TDCBF_CLOSE_BUTTON, TDCBF_NO_BUTTON, TDCBF_OK_BUTTON, TDCBF_RETRY_BUTTON,
    TDCBF_YES_BUTTON, TDF_ALLOW_DIALOG_CANCELLATION, TDF_CALLBACK_TIMER, TDF_CAN_BE_MINIMIZED,
    TDF_ENABLE_HYPERLINKS, TDF_EXPANDED_BY_DEFAULT, TDF_EXPAND_FOOTER_AREA,
    TDF_NO_DEFAULT_RADIO_BUTTON, TDF_NO_SET_FOREGROUND, TDF_POSITION_RELATIVE_TO_WINDOW,
    TDF_RTL_LAYOUT, TDF_SHOW_MARQUEE_PROGRESS_BAR, TDF_SHOW_PROGRESS_BAR, TDF_SIZE_TO_CONTENT,
    TDF_USE_COMMAND_LINKS, TDF_USE_COMMAND_LINKS_NO_ICON, TDF_USE_HICON_FOOTER, TDF_USE_HICON_MAIN,
    TDF_VERIFICATION_FLAG_CHECKED,
};
pub use descriptor::{build_descriptor, resolve_instance, DescriptorButton, NativeDescriptor};
pub use dialog::{show_task_dialog, translate_outcome, ShowTaskDialog};

verus! {

} // verus!
