//! Turning off depth of field in a live's post-effect update.
use vstd::prelude::*;

verus! {

/// What `init` found of `PostEffectUpdateInfo_DOF` (zero where not found).
#[derive(Clone, Copy, Debug, PartialEq, Eq, Structural)]
pub struct DofFields {
    /// The class `Gallop.Live.Cutt.PostEffectUpdateInfo_DOF`.
    pub class: usize,
    /// Its field `IsEnableDOF`.
    pub is_enable_dof_field: usize,
}

/// Whether `IsEnableDOF` of the update info at `update_info`, whose class is
/// `update_info_class`, is to be set to false: when the info exists, the
/// class and field were found, and the info is a DOF update.
pub fn disable_if_dof(fields: &DofFields, update_info: usize, update_info_class: usize) -> (r: bool)
    ensures
        r == (update_info != 0 && fields.class != 0 && fields.is_enable_dof_field != 0
            && update_info_class == fields.class),
{
    if update_info == 0 {
        return false;
    }
    fields.class != 0 && fields.is_enable_dof_field != 0 && update_info_class == fields.class
}

/// What `init` records: the class `Gallop.Live.Cutt.PostEffectUpdateInfo_DOF`
/// and its field `IsEnableDOF` (looked up, and possibly null, only when the
/// class was found; `is_enable_dof_field` is ignored otherwise). Without the
/// class nothing is recorded.
pub fn init(post_effect_dof: Option<usize>, is_enable_dof_field: usize) -> (r: DofFields)
    ensures
        post_effect_dof is None ==> r == (DofFields { class: 0, is_enable_dof_field: 0 }),
        post_effect_dof matches Some(c) ==> r == (DofFields { class: c, is_enable_dof_field }),
{
    match post_effect_dof {
        Some(class) => DofFields { class, is_enable_dof_field },
        None => DofFields { class: 0, is_enable_dof_field: 0 },
    }
}

} // verus!
