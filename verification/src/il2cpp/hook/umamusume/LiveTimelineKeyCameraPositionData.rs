//! The hooks on `Gallop.Live.Cutt.LiveTimelineKeyCameraPositionData.GetValue`.
use vstd::prelude::*;

use crate::il2cpp::hook::{hooks, Detour, MethodHook};

verus! {

/// Whether `GetValue` sets the key's `setType` to 1 before the game's
/// method runs: when the free camera is on in the live, in selfie-stick mode, and
/// the field was found.
pub fn sets_selfie_stick_type(live_enabled: bool, selfie_stick: bool, set_type_field: usize) -> (r:
    bool)
    ensures
        r == (live_enabled && selfie_stick && set_type_field != 0),
{
    live_enabled && selfie_stick && set_type_field != 0
}

/// Whether the position that the game's `GetValue` returned at `result`
/// is replaced by the free camera's: when the free camera is on in the live
/// and a position was returned.
pub fn replaces_position(live_enabled: bool, result: usize) -> (r: bool)
    ensures
        r == (live_enabled && result != 0),
{
    live_enabled && result != 0
}

/// The hooks to install, when the class
/// `Gallop.Live.Cutt.LiveTimelineKeyCameraPositionData` was found:
/// `GetCameraPos` on `GetValue` with one argument, and `GetCameraPos2` on
/// `GetValue` with two.
pub fn init(camera_pos_data: Option<usize>) -> (r: Vec<MethodHook>)
    ensures
        camera_pos_data is None ==> r@.len() == 0,
        camera_pos_data matches Some(c) ==> r@.len() == 2 && hooks(
            r@[0],
            c,
            "GetValue"@,
            1,
            Detour::GetCameraPos,
        ) && hooks(r@[1], c, "GetValue"@, 2, Detour::GetCameraPos2),
{
    let mut r: Vec<MethodHook> = Vec::new();
    if let Some(class) = camera_pos_data {
        r.push(MethodHook { class, method: "GetValue", args: 1, detour: Detour::GetCameraPos });
        r.push(MethodHook { class, method: "GetValue", args: 2, detour: Detour::GetCameraPos2 });
    }
    r
}

} // verus!
