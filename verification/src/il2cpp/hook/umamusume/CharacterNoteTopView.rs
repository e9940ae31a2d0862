//! `Gallop.CharacterNoteTopView.get_ButtonTalkGallery`, which some
//! versions of the game lack.
use vstd::prelude::*;

verus! {

/// What a call of `get_ButtonTalkGallery` does.
#[derive(Clone, Copy, Debug, PartialEq, Eq, Structural)]
pub enum ButtonTalkGalleryCall {
    /// Call the game's getter at this address and return its result.
    Call(usize),
    /// Return a null object without calling anything.
    ReturnNull,
}

/// `get_ButtonTalkGallery` calls the game's getter at `getter_addr` when it
/// was found (non-zero), and otherwise returns null.
pub fn get_ButtonTalkGallery(getter_addr: usize) -> (r: ButtonTalkGalleryCall)
    ensures
        r == (if getter_addr == 0 {
            ButtonTalkGalleryCall::ReturnNull
        } else {
            ButtonTalkGalleryCall::Call(getter_addr)
        }),
{
    if getter_addr == 0 {
        ButtonTalkGalleryCall::ReturnNull
    } else {
        ButtonTalkGalleryCall::Call(getter_addr)
    }
}

} // verus!
