//! Opening the game's external links in an in-game web view.
pub mod open_url;
pub mod webview;

pub use open_url::{add_gacha_url, il2cppstring_as_string, open};
pub use webview::process_massage;
