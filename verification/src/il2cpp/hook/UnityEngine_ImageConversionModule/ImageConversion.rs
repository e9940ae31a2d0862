//! `UnityEngine.ImageConversion.LoadImage`, which the Chinese edition lacks.
use vstd::prelude::*;

verus! {

/// What a call of `LoadImage` does.
#[derive(Clone, Copy, Debug, PartialEq, Eq, Structural)]
pub enum LoadImageCall {
    /// Call the game's `LoadImage` at this address and return its result.
    Call(usize),
    /// Return `false` without calling anything.
    ReturnFalse,
}

/// `LoadImage` calls the game's method at `load_image_addr` when its address
/// was found (non-zero), and otherwise returns `false`.
pub fn LoadImage(load_image_addr: usize) -> (r: LoadImageCall)
    ensures
        r == (if load_image_addr == 0 {
            LoadImageCall::ReturnFalse
        } else {
            LoadImageCall::Call(load_image_addr)
        }),
{
    if load_image_addr == 0 {
        LoadImageCall::ReturnFalse
    } else {
        LoadImageCall::Call(load_image_addr)
    }
}

} // verus!
