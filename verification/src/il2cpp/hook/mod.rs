use vstd::prelude::*;

pub mod Cute_Core_Assembly;
pub mod UnityEngine_ImageConversionModule;
pub mod umamusume;

verus! {

/// The replacement that a hook installs in place of a game method.
#[derive(Clone, Copy, Debug, PartialEq, Eq, Structural)]
pub enum Detour {
    /// `DOFUpdateInfoDelegate_Invoke`, on `DOFUpdateInfoDelegate.Invoke`.
    DofUpdateInfoDelegateInvoke,
    /// `GetCameraPos`, on `LiveTimelineKeyCameraPositionData.GetValue` (one argument).
    GetCameraPos,
    /// `GetCameraPos2`, on `LiveTimelineKeyCameraPositionData.GetValue` (two arguments).
    GetCameraPos2,
    /// `HomeDirector_AlterUpdate`, on `HomeDirector.AlterUpdate`.
    HomeDirectorAlterUpdate,
    /// `HomeDirector_OnDestroy`, on `HomeDirector.OnDestroy`.
    HomeDirectorOnDestroy,
    /// `HomeCameraSwitcher_AlterUpdate`, on `HomeCameraSwitcher.AlterUpdate`.
    HomeCameraSwitcherAlterUpdate,
}

/// A hook to install: `detour` in place of the method `method`, taking
/// `args` arguments, of the class at `class`.
#[derive(Clone, Copy, Debug, PartialEq, Eq)]
pub struct MethodHook {
    pub class: usize,
    pub method: &'static str,
    pub args: u32,
    pub detour: Detour,
}

/// `h` installs `detour` on the method `method` with `args` arguments of `class`.
pub open spec fn hooks(h: MethodHook, class: usize, method: Seq<char>, args: u32, detour: Detour) -> bool {
    h.class == class && h.method@ == method && h.args == args && h.detour == detour
}

} // verus!
