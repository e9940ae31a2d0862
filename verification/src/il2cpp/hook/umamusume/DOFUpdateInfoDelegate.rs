//! The hook on `Gallop.Live.Cutt.DOFUpdateInfoDelegate.Invoke`.
use vstd::prelude::*;

use super::PostEffectUpdateInfo_DOF::{disable_if_dof, DofFields};
use crate::il2cpp::hook::{hooks, Detour, MethodHook};

verus! {

/// Whether the hook turns off depth of field in `update_info` before the
/// game's `Invoke` runs: when the free camera removes camera effects and
/// the info is a DOF update.
pub fn DOFUpdateInfoDelegate_Invoke(
    remove_camera_effects: bool,
    fields: &DofFields,
    update_info: usize,
    update_info_class: usize,
) -> (r: bool)
    ensures
        r == (remove_camera_effects && update_info != 0 && fields.class != 0
            && fields.is_enable_dof_field != 0 && update_info_class == fields.class),
{
    remove_camera_effects && disable_if_dof(fields, update_info, update_info_class)
}

/// The hooks to install: `DOFUpdateInfoDelegate_Invoke` on `Invoke` (one
/// argument) of `Gallop.Live.Cutt.DOFUpdateInfoDelegate`, when the class
/// was found.
pub fn init(dof_update_info_delegate: Option<usize>) -> (r: Vec<MethodHook>)
    ensures
        dof_update_info_delegate is None ==> r@.len() == 0,
        dof_update_info_delegate matches Some(c) ==> r@.len() == 1 && hooks(
            r@[0],
            c,
            "Invoke"@,
            1,
            Detour::DofUpdateInfoDelegateInvoke,
        ),
{
    let mut r: Vec<MethodHook> = Vec::new();
    if let Some(class) = dof_update_info_delegate {
        r.push(
            MethodHook {
                class,
                method: "Invoke",
                args: 1,
                detour: Detour::DofUpdateInfoDelegateInvoke,
            },
        );
    }
    r
}

} // verus!
