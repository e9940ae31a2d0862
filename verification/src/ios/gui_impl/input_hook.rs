//! Routing of the touch events that UIWindow sends.
use vstd::prelude::*;

verus! {

/// Where a touch event goes.
#[derive(Clone, Copy, Debug, PartialEq, Eq, Structural)]
pub enum SendEventRoute {
    /// The event goes on to the game, through the window's own `sendEvent:`.
    PassToGame,
    /// The gui is taking input, so the event is its; no conversion of
    /// touches into gui input exists yet, so nothing is done with it.
    ToGui,
}

/// The route of the event `event_ptr` sent to the window `window_ptr`:
/// to the gui while it consumes input, otherwise on to the game.
pub fn on_send_event(gui_consuming_input: bool, window_ptr: usize, event_ptr: usize) -> (r:
    SendEventRoute)
    ensures
        r == (if gui_consuming_input {
            SendEventRoute::ToGui
        } else {
            SendEventRoute::PassToGame
        }),
{
    if !gui_consuming_input {
        return SendEventRoute::PassToGame;
    }
    SendEventRoute::ToGui
}

} // verus!
