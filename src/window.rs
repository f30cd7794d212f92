use vstd::prelude::*;

verus! {

/// An operation on the main window.
#[derive(Clone, Copy, Debug, PartialEq, Eq, Structural)]
pub enum WindowCommand {
    Show,
    Hide,
    Unminimize,
    SetFocus,
}

/// The label under which the host framework knows the main window.
pub fn main_window_label() -> (r: &'static str)
    ensures
        r@ == "main"@,
{
    "main"
}

/// Bringing the window forward: show it, restore it if minimized, focus it.
pub open spec fn reveal_commands() -> Seq<WindowCommand> {
    seq![WindowCommand::Show, WindowCommand::Unminimize, WindowCommand::SetFocus]
}

/// What toggling does, given whether the window is visible (`None` when the
/// window is missing or its visibility could not be read).
pub open spec fn toggle_commands(visible: Option<bool>) -> Seq<WindowCommand> {
    match visible {
        None => Seq::empty(),
        Some(true) => seq![WindowCommand::Hide],
        Some(false) => reveal_commands(),
    }
}

/// The commands that show the main window and give it the focus.
pub fn show_window() -> (r: Vec<WindowCommand>)
    ensures
        r@ == reveal_commands(),
{
    let r = vec![WindowCommand::Show, WindowCommand::Unminimize, WindowCommand::SetFocus];
    assert(r@ =~= reveal_commands());
    r
}

/// Hides a visible window and brings a hidden one forward; does nothing
/// when the visibility is unknown.
pub fn toggle_window_visibility(visible: Option<bool>) -> (r: Vec<WindowCommand>)
    ensures
        r@ == toggle_commands(visible),
{
    match visible {
        None => {
            let r: Vec<WindowCommand> = Vec::new();
            assert(r@ =~= toggle_commands(visible));
            r
        },
        Some(true) => {
            let r = vec![WindowCommand::Hide];
            assert(r@ =~= toggle_commands(visible));
            r
        },
        Some(false) => show_window(),
    }
}

} // verus!
