use vstd::prelude::*;

verus! {

/// A keyboard combination: the modifier keys held and the key pressed,
/// named by its upper-case letter or digit.
#[derive(Clone, Copy, Debug, PartialEq, Eq, Structural)]
pub struct Shortcut {
    pub control: bool,
    pub shift: bool,
    pub alt: bool,
    pub meta: bool,
    pub key: char,
}

/// Whether a key went down or came up.
#[derive(Clone, Copy, Debug, PartialEq, Eq, Structural)]
pub enum KeyState {
    Pressed,
    Released,
}

/// Ctrl+Shift+A, the combination that shows and hides the main window.
pub open spec fn toggle_combination() -> Shortcut {
    Shortcut { control: true, shift: true, alt: false, meta: false, key: 'A' }
}

/// Whether a shortcut event toggles the main window.
pub open spec fn toggles(pressed: Shortcut, state: KeyState) -> bool {
    pressed == toggle_combination() && state == KeyState::Pressed
}

/// The global shortcut that toggles the main window.
pub fn toggle_shortcut() -> (r: Shortcut)
    ensures
        r == toggle_combination(),
{
    Shortcut { control: true, shift: true, alt: false, meta: false, key: 'A' }
}

/// Whether a shortcut event asks to toggle the main window: the toggle
/// combination, on the press and not on the release.
pub fn shortcut_toggles(pressed: Shortcut, state: KeyState) -> (r: bool)
    ensures
        r == toggles(pressed, state),
{
    pressed == toggle_shortcut() && state == KeyState::Pressed
}

} // verus!
