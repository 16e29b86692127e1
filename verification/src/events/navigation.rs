//! Moving between the screens of the application.

use vstd::prelude::*;

verus! {

/// The screens that the application can show.
#[derive(Debug, Clone, Copy, PartialEq, Eq, Structural)]
pub enum Screen {
    Timer,
    Settings,
}

/// A request to show a screen, sent by the screen that is shown now.
#[derive(Debug, Clone, Copy)]
pub struct NavigationEvent {
    pub screen: Screen,
}

impl Default for Screen {
    /// The screen shown when the application opens.
    fn default() -> (screen: Self)
        ensures
            screen == Screen::Timer,
    {
        Screen::Timer
    }
}

impl Screen {
    /// The screen shown after the event: the one that the event names,
    /// whichever was shown before.
    pub fn navigate(self, event: NavigationEvent) -> (next: Screen)
        ensures
            next == event.screen,
    {
        event.screen
    }
}

} // verus!
