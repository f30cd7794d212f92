use vstd::prelude::*;
use vstd::string::StringExecFns;
use crate::effects::{signals, window_effects, Effect, FrontendEvent, Signal};
use crate::shortcut::{shortcut_toggles, toggles, KeyState, Shortcut};
use crate::tray::{item_with_id, ButtonState, MouseButton, TrayMenuItem, TrayPointerEvent};
use crate::window::{reveal_commands, show_window, toggle_commands, toggle_window_visibility, WindowCommand};

verus! {

/// Window commands as effects.
pub open spec fn as_signals(commands: Seq<WindowCommand>) -> Seq<Signal> {
    commands.map_values(|c: WindowCommand| Signal::Window(c))
}

/// Showing the window, as effects.
pub open spec fn reveal_signals() -> Seq<Signal> {
    as_signals(reveal_commands())
}

/// Showing the window, then asking the frontend for a view.
pub open spec fn navigate_signals(view: Seq<char>) -> Seq<Signal> {
    reveal_signals().push(Signal::NavigateToView(view))
}

/// What a click on an entry of the tray menu does.
pub open spec fn menu_signals(item: Option<TrayMenuItem>) -> Seq<Signal> {
    match item {
        None => Seq::empty(),
        Some(TrayMenuItem::Show) => reveal_signals(),
        Some(TrayMenuItem::Timer) => navigate_signals("timer"@),
        Some(TrayMenuItem::Quit) => reveal_signals().push(Signal::QuitRequested),
    }
}

/// Whether the pointer event is a left click, counted when the button comes up.
pub open spec fn is_left_click(event: TrayPointerEvent) -> bool {
    event == TrayPointerEvent::Click { button: MouseButton::Left, state: ButtonState::Up }
}

/// Shows the window and asks the frontend to switch to `view`.
pub fn navigate_to_view(view: &str) -> (r: Vec<Effect>)
    ensures
        signals(r@) == navigate_signals(view@),
{
    let mut r = window_effects(show_window());
    r.push(Effect::Emit(FrontendEvent::NavigateToView(String::from_str(view))));
    assert(signals(r@) =~= navigate_signals(view@));
    r
}

/// What a click on the tray menu entry with identifier `id` does: "show"
/// shows the window; "timer" shows it and asks for the timer view; "quit"
/// shows it and asks the frontend to quit; any other identifier does nothing.
pub fn on_menu_event(id: &str) -> (r: Vec<Effect>)
    ensures
        signals(r@) == menu_signals(item_with_id(id@)),
{
    match TrayMenuItem::from_id(id) {
        None => {
            let r: Vec<Effect> = Vec::new();
            assert(signals(r@) =~= menu_signals(item_with_id(id@)));
            r
        },
        Some(TrayMenuItem::Show) => window_effects(show_window()),
        Some(TrayMenuItem::Timer) => navigate_to_view("timer"),
        Some(TrayMenuItem::Quit) => {
            let mut r = window_effects(show_window());
            r.push(Effect::Emit(FrontendEvent::QuitRequested));
            assert(signals(r@) =~= menu_signals(item_with_id(id@)));
            r
        },
    }
}

/// What the pointer on the tray icon does: a left click shows the window;
/// anything else, the right click that opens the menu included, does nothing
/// here.
pub fn on_tray_icon_event(event: TrayPointerEvent) -> (r: Vec<Effect>)
    ensures
        is_left_click(event) ==> signals(r@) == reveal_signals(),
        !is_left_click(event) ==> r@.len() == 0,
{
    match event {
        TrayPointerEvent::Click { button: MouseButton::Left, state: ButtonState::Up } => {
            window_effects(show_window())
        },
        _ => Vec::new(),
    }
}

/// What a global shortcut event does: the toggle combination, on the press,
/// toggles the main window (see `toggle_window_visibility`); anything else
/// does nothing. `visible` is the window's visibility, `None` when unknown.
pub fn on_shortcut(pressed: Shortcut, state: KeyState, visible: Option<bool>) -> (r: Vec<Effect>)
    ensures
        toggles(pressed, state) ==> signals(r@) == as_signals(toggle_commands(visible)),
        !toggles(pressed, state) ==> r@.len() == 0,
{
    if shortcut_toggles(pressed, state) {
        window_effects(toggle_window_visibility(visible))
    } else {
        Vec::new()
    }
}

/// Ends the application with exit code 0; the frontend calls this once the
/// user has confirmed.
pub fn quit_app() -> (r: Effect)
    ensures
        r@ == Signal::Exit(0),
{
    Effect::Exit(0)
}

} // verus!
