//! Assembly of the native descriptor's plain-value image.
//!
//! [`build_descriptor`] performs the marshalling steps of one invocation:
//! it resolves the module handle, encodes every text field and every
//! button label as an owned null-terminated wide buffer, and lays the
//! buttons and radio buttons out in parallel (identifier, label) arrays
//! in input order. Everything the result holds is owned by the result
//! itself and determined by the given configuration alone, so the buffers
//! live exactly as long as the descriptor image and can never alias an
//! earlier invocation's memory.

use vstd::prelude::*;
use crate::config::{TaskDialogButton, TaskDialogConfig};
use crate::wide::{encode_wide_nul, wide_nul_of};

verus! {

/// One entry of a native button array: the caller's identifier beside
/// the owned, null-terminated wide encoding of its label.
pub struct DescriptorButton {
    pub id: i32,
    pub text: Vec<u16>,
}

/// The plain-value image of the fixed-layout record the native facility
/// takes: every pointer field of that record is represented here by the
/// owned buffer it would point at. Fields this layer does not expose
/// (icons, callback, fixed width) are zeroed by the platform front end.
pub struct NativeDescriptor {
    pub parent: usize,
    pub instance: usize,
    pub flags: u32,
    pub common_buttons: u32,
    pub window_title: Vec<u16>,
    pub main_instruction: Vec<u16>,
    pub content: Vec<u16>,
    pub verification_text: Vec<u16>,
    pub expanded_information: Vec<u16>,
    pub expanded_control_text: Vec<u16>,
    pub collapsed_control_text: Vec<u16>,
    pub footer: Vec<u16>,
    pub buttons: Vec<DescriptorButton>,
    pub default_button: i32,
    pub radio_buttons: Vec<DescriptorButton>,
    pub default_radio_button: i32,
}

/// The destination array lists exactly the source buttons: same count,
/// same order, same identifiers, each label encoded with its terminator.
pub open spec fn buttons_match(src: Seq<TaskDialogButton>, dst: Seq<DescriptorButton>) -> bool {
    &&& dst.len() == src.len()
    &&& forall|i: int|
        0 <= i < src.len() ==> (#[trigger] dst[i]).id == src[i].id && dst[i].text@ == wide_nul_of(
            src[i].text@,
        )
}

/// What a correctly assembled descriptor image holds, field by field,
/// for a given configuration and current-process module handle.
pub open spec fn descriptor_matches(
    conf: TaskDialogConfig,
    current_module: usize,
    d: NativeDescriptor,
) -> bool {
    &&& d.parent == conf.parent
    &&& d.instance == resolved_instance(conf.instance, current_module)
    &&& d.flags == conf.flags
    &&& d.common_buttons == conf.common_buttons
    &&& d.window_title@ == wide_nul_of(conf.window_title@)
    &&& d.main_instruction@ == wide_nul_of(conf.main_instruction@)
    &&& d.content@ == wide_nul_of(conf.content@)
    &&& d.verification_text@ == wide_nul_of(conf.verification_text@)
    &&& d.expanded_information@ == wide_nul_of(conf.expanded_information@)
    &&& d.expanded_control_text@ == wide_nul_of(conf.expanded_control_text@)
    &&& d.collapsed_control_text@ == wide_nul_of(conf.collapsed_control_text@)
    &&& d.footer@ == wide_nul_of(conf.footer@)
    &&& buttons_match(conf.buttons@, d.buttons@)
    &&& d.default_button == conf.default_button
    &&& buttons_match(conf.radio_buttons@, d.radio_buttons@)
    &&& d.default_radio_button == conf.default_radio_buttons
}

/// The module handle the descriptor carries: the caller's handle when one
/// was supplied, else the current process's.
pub open spec fn resolved_instance(instance: usize, current_module: usize) -> usize {
    if instance == 0 {
        current_module
    } else {
        instance
    }
}

/// Replaces an absent (`0`) module handle by the current process's module
/// handle; a supplied handle is forwarded unchanged.
pub fn resolve_instance(instance: usize, current_module: usize) -> (r: usize)
    ensures
        r == resolved_instance(instance, current_module),
{
    if instance == 0 {
        current_module
    } else {
        instance
    }
}

/// Encodes one button list into its native array image, keeping count,
/// order and identifiers, and encoding each label with its terminator.
fn encode_buttons(src: &Vec<TaskDialogButton>) -> (dst: Vec<DescriptorButton>)
    ensures
        buttons_match(src@, dst@),
{
    let mut dst: Vec<DescriptorButton> = Vec::new();
    let mut i: usize = 0;
    while i < src.len()
        invariant
            i <= src@.len(),
            buttons_match(src@.take(i as int), dst@),
        decreases src@.len() - i,
    {
        let b = &src[i];
        dst.push(DescriptorButton { id: b.id, text: encode_wide_nul(b.text.as_str()) });
        proof {
            assert(src@.take(i + 1 as int) =~= src@.take(i as int).push(src@[i as int]));
        }
        i = i + 1;
    }
    proof {
        assert(src@.take(src@.len() as int) =~= src@);
    }
    dst
}

/// Assembles the descriptor image of one invocation: resolves the module
/// handle, encodes the eight text fields, and builds the button and radio
/// button arrays in input order. The configuration is only read; every
/// buffer of the result is freshly owned by the result.
pub fn build_descriptor(conf: &TaskDialogConfig, current_module: usize) -> (d: NativeDescriptor)
    ensures
        descriptor_matches(*conf, current_module, d),
{
    NativeDescriptor {
        parent: conf.parent,
        instance: resolve_instance(conf.instance, current_module),
        flags: conf.flags,
        common_buttons: conf.common_buttons,
        window_title: encode_wide_nul(conf.window_title.as_str()),
        main_instruction: encode_wide_nul(conf.main_instruction.as_str()),
        content: encode_wide_nul(conf.content.as_str()),
        verification_text: encode_wide_nul(conf.verification_text.as_str()),
        expanded_information: encode_wide_nul(conf.expanded_information.as_str()),
        expanded_control_text: encode_wide_nul(conf.expanded_control_text.as_str()),
        collapsed_control_text: encode_wide_nul(conf.collapsed_control_text.as_str()),
        footer: encode_wide_nul(conf.footer.as_str()),
        buttons: encode_buttons(&conf.buttons),
        default_button: conf.default_button,
        radio_buttons: encode_buttons(&conf.radio_buttons),
        default_radio_button: conf.default_radio_buttons,
    }
}

} // verus!
