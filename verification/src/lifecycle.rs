use vstd::prelude::*;
use crate::text::text_equals;

verus! {

/// Whether the application is on its way out. Once marked it stays so;
/// while it is not, closing the main window only hides it.
pub struct AppLifecycleState {
    quitting: bool,
}

impl View for AppLifecycleState {
    type V = bool;

    closed spec fn view(&self) -> bool {
        self.quitting
    }
}

impl Default for AppLifecycleState {
    fn default() -> (s: Self)
        ensures
            !s@,
    {
        AppLifecycleState::new()
    }
}

impl AppLifecycleState {
    /// An application that is not quitting.
    pub fn new() -> (s: Self)
        ensures
            !s@,
    {
        AppLifecycleState { quitting: false }
    }

    /// Marks the application as quitting.
    pub fn mark_quitting(&mut self)
        ensures
            final(self)@,
    {
        self.quitting = true;
    }

    /// Whether the application was marked as quitting.
    pub fn is_quitting(&self) -> (r: bool)
        ensures
            r == self@,
    {
        self.quitting
    }
}

/// The label of the application's main window.
pub const MAIN_WINDOW_LABEL: &'static str = "main";

/// What to do when a window is asked to close.
#[derive(Clone, Copy, Debug, PartialEq, Eq, Structural)]
pub enum CloseAction {
    /// Let it close.
    Close,
    /// Keep it open but hide it, so the application lives on in the tray.
    Hide,
}

/// The main window is hidden rather than closed unless the application is
/// quitting; any other window closes.
pub open spec fn close_action_spec(window_label: Seq<char>, quitting: bool) -> CloseAction {
    if window_label == MAIN_WINDOW_LABEL@ && !quitting {
        CloseAction::Hide
    } else {
        CloseAction::Close
    }
}

/// Decides what a request to close the window labelled `window_label` leads to.
pub fn on_close_requested(window_label: &str, lifecycle: &AppLifecycleState) -> (a: CloseAction)
    ensures
        a == close_action_spec(window_label@, lifecycle@),
{
    if !text_equals(window_label, MAIN_WINDOW_LABEL) {
        return CloseAction::Close;
    }
    if lifecycle.is_quitting() {
        return CloseAction::Close;
    }
    CloseAction::Hide
}

} // verus!
