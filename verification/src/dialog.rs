//! Invocation outcome handling and the platform-independent entry point.
//!
//! A platform front end that owns the native facility performs the call
//! itself: it builds the descriptor image with
//! [`crate::descriptor::build_descriptor`], makes the one native call, and
//! hands the raw outcome — the returned status, the last captured error
//! code, and the three out-parameters — to [`translate_outcome`]. On a
//! platform without the facility, [`show_task_dialog`] is the whole
//! operation: it performs no native call and deterministically fails.

use vstd::prelude::*;
use crate::config::{TaskDialogConfig, TaskDialogError, TaskDialogResult};

verus! {

/// The result built from the native call's three out-parameters: the
/// button and radio-button identifiers verbatim, and the verification
/// flag read as "checked exactly when nonzero".
pub open spec fn spec_dialog_result(
    button_id: i32,
    radio_button_id: i32,
    verify: i32,
) -> TaskDialogResult {
    TaskDialogResult { button_id, radio_button_id, checked: verify != 0 }
}

/// The outcome of one native call: a zero status yields the result read
/// from the out-parameters; a nonzero status yields the error carrying
/// the platform's last captured error code. Nothing in between.
pub open spec fn spec_outcome(
    status: i32,
    last_error: u32,
    button_id: i32,
    radio_button_id: i32,
    verify: i32,
) -> Result<TaskDialogResult, TaskDialogError> {
    if status == 0 {
        Ok(spec_dialog_result(button_id, radio_button_id, verify))
    } else {
        Err(TaskDialogError::NativeFailure { code: last_error })
    }
}

/// Translates what the native call produced into the typed result or the
/// typed error: `status` is the call's returned status word, `last_error`
/// the error code the platform captured for a failing call, and the last
/// three arguments are the call's out-parameters.
pub fn translate_outcome(
    status: i32,
    last_error: u32,
    button_id: i32,
    radio_button_id: i32,
    verify: i32,
) -> (r: Result<TaskDialogResult, TaskDialogError>)
    ensures
        r == spec_outcome(status, last_error, button_id, radio_button_id, verify),
{
    if status == 0 {
        Ok(TaskDialogResult { button_id, radio_button_id, checked: verify != 0 })
    } else {
        Err(TaskDialogError::NativeFailure { code: last_error })
    }
}

/// A failing native status never yields a result: whenever the captured
/// error code is nonzero, the outcome is exactly the native-failure error
/// carrying that nonzero code, and no dialog result is constructed.
pub proof fn lemma_failure_yields_error(
    status: i32,
    last_error: u32,
    button_id: i32,
    radio_button_id: i32,
    verify: i32,
)
    requires
        status != 0,
        last_error != 0,
    ensures
        spec_outcome(status, last_error, button_id, radio_button_id, verify) == Result::<
            TaskDialogResult,
            TaskDialogError,
        >::Err(TaskDialogError::NativeFailure { code: last_error }),
        !(spec_outcome(status, last_error, button_id, radio_button_id, verify) is Ok),
{
}

/// The `checked` field round-trips the native verification out-parameter:
/// it is true exactly when that out-parameter is nonzero; in particular
/// `0` maps to `false` and `1` maps to `true`.
pub proof fn lemma_checked_round_trip(button_id: i32, radio_button_id: i32, verify: i32)
    ensures
        spec_dialog_result(button_id, radio_button_id, verify).checked <==> verify != 0,
        spec_dialog_result(button_id, radio_button_id, 0).checked == false,
        spec_dialog_result(button_id, radio_button_id, 1).checked == true,
{
}

/// Shows a task dialog described by `conf`.
///
/// This build of the library runs where the native task dialog facility
/// does not exist, so the operation keeps its interface but fails
/// deterministically for every configuration: it reads nothing from
/// `conf`, presents no dialog, performs no native call, and returns the
/// unsupported-platform error at once. A platform front end that owns
/// the facility replaces this entry point with the real invocation,
/// assembled from this library's verified marshalling pieces.
pub fn show_task_dialog(conf: &TaskDialogConfig) -> (r: Result<
    TaskDialogResult,
    TaskDialogError,
>)
    ensures
        r == Result::<TaskDialogResult, TaskDialogError>::Err(
            TaskDialogError::UnsupportedPlatform,
        ),
{
    Err(TaskDialogError::UnsupportedPlatform)
}

/// The same operation under the name the facility itself uses.
#[allow(non_snake_case)]
pub fn ShowTaskDialog(conf: &TaskDialogConfig) -> (r: Result<TaskDialogResult, TaskDialogError>)
    ensures
        r == Result::<TaskDialogResult, TaskDialogError>::Err(
            TaskDialogError::UnsupportedPlatform,
        ),
{
    show_task_dialog(conf)
}

} // verus!
