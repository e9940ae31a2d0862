//! The window messages by which the game thread drives the web view.
use vstd::prelude::*;

verus! {

/// First message number that Win32 leaves to applications (`WM_USER`).
pub const WM_USER: u32 = 0x0400;

/// Asks the window thread to open a web view on a link.
pub const WM_OPEN_WEBVIEW: u32 = WM_USER + 500;

/// Asks the window thread to close the web view.
pub const WM_CLOSE_WEBVIEW: u32 = WM_USER + 501;

/// Asks the window thread to move the web view to the dialog's area.
pub const WM_SET_WEBVIEW_POSITION: u32 = WM_USER + 502;

/// Asks the web view to go back in its history.
pub const WM_WEBVIEW_GOBACK: u32 = WM_USER + 503;

/// What a web view message asks for.
#[derive(Clone, Copy, Debug, PartialEq, Eq, Structural)]
pub enum WebviewMessage {
    Open,
    Close,
    SetPosition,
    GoBack,
}

/// The request carried by message number `umsg`, if it is one of ours.
pub open spec fn webview_message(umsg: u32) -> Option<WebviewMessage> {
    if umsg == WM_OPEN_WEBVIEW {
        Some(WebviewMessage::Open)
    } else if umsg == WM_SET_WEBVIEW_POSITION {
        Some(WebviewMessage::SetPosition)
    } else if umsg == WM_CLOSE_WEBVIEW {
        Some(WebviewMessage::Close)
    } else if umsg == WM_WEBVIEW_GOBACK {
        Some(WebviewMessage::GoBack)
    } else {
        None
    }
}

/// Tells which web view request, if any, the window message `umsg` carries;
/// every other message is left alone.
pub fn process_massage(umsg: u32) -> (r: Option<WebviewMessage>)
    ensures
        r == webview_message(umsg),
{
    if umsg == WM_OPEN_WEBVIEW {
        Some(WebviewMessage::Open)
    } else if umsg == WM_SET_WEBVIEW_POSITION {
        Some(WebviewMessage::SetPosition)
    } else if umsg == WM_CLOSE_WEBVIEW {
        Some(WebviewMessage::Close)
    } else if umsg == WM_WEBVIEW_GOBACK {
        Some(WebviewMessage::GoBack)
    } else {
        None
    }
}

/// The dialog's web view: the in-game address it shows, when one is open.
#[derive(Clone, Debug, PartialEq, Eq)]
pub struct DialogWebView {
    pub webview: Option<String>,
}

/// What follows an attempt to build a web view for a link.
#[derive(Clone, Debug, PartialEq, Eq)]
pub enum OpenOutcome {
    /// The web view was built: it replaces any previous one, and the dialog
    /// around it is shown under `title`, offering to open `orig_url`.
    ShowDialog { title: String, orig_url: String },
    /// It could not be built: this link (the one the game opened, not the
    /// in-game address) opens in the system's browser.
    OpenInBrowser(String),
}

impl DialogWebView {
    /// No web view yet.
    pub fn new() -> (r: Self)
        ensures
            r.webview is None,
    {
        DialogWebView { webview: None }
    }

    /// Whether the web view is moved to a new area: only when one is open.
    pub fn set_position(&self) -> (r: bool)
        ensures
            r == self.webview is Some,
    {
        self.webview.is_some()
    }

    /// Whether the web view goes back in its history: only when one is open.
    pub fn back(&self) -> (r: bool)
        ensures
            r == self.webview is Some,
    {
        self.webview.is_some()
    }

    /// The web view is closed (and the window redrawn).
    pub fn close(&mut self)
        ensures
            final(self).webview is None,
    {
        self.webview = None;
    }

    /// A web view on `url` (the in-game address) was built, when `built`,
    /// for the link `orig_url`, to be shown under `title`: it becomes the
    /// open one and the dialog is shown. Otherwise any open web view stays
    /// and `orig_url` opens in the browser.
    pub fn open(&mut self, url: &String, title: &String, orig_url: &String, built: bool) -> (r:
        OpenOutcome)
        ensures
            built ==> (final(self).webview matches Some(u) && u@ == url@),
            built ==> (r matches OpenOutcome::ShowDialog { title: t, orig_url: o } && t@ == title@
                && o@ == orig_url@),
            !built ==> final(self).webview == old(self).webview,
            !built ==> (r matches OpenOutcome::OpenInBrowser(o) && o@ == orig_url@),
    {
        if built {
            self.webview = Some(url.clone());
            OpenOutcome::ShowDialog { title: title.clone(), orig_url: orig_url.clone() }
        } else {
            OpenOutcome::OpenInBrowser(orig_url.clone())
        }
    }
}

} // verus!
