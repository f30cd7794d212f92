use vstd::prelude::*;
use crate::window::WindowCommand;

verus! {

/// An event sent to the webview frontend.
#[derive(Debug)]
pub enum FrontendEvent {
    /// Asks the frontend to switch to the named view; the name is the payload.
    NavigateToView(String),
    /// Asks the frontend to quit, after a confirmation if it wants one; no payload.
    QuitRequested,
}

/// Something the host framework is asked to do.
#[derive(Debug)]
pub enum Effect {
    Window(WindowCommand),
    Emit(FrontendEvent),
    /// Ends the process with this exit code.
    Exit(i32),
}

/// The mathematical value of an effect, with text as a sequence of characters.
pub enum Signal {
    Window(WindowCommand),
    NavigateToView(Seq<char>),
    QuitRequested,
    Exit(int),
}

impl View for Effect {
    type V = Signal;

    open spec fn view(&self) -> Signal {
        match self {
            Effect::Window(c) => Signal::Window(*c),
            Effect::Emit(FrontendEvent::NavigateToView(v)) => Signal::NavigateToView(v@),
            Effect::Emit(FrontendEvent::QuitRequested) => Signal::QuitRequested,
            Effect::Exit(code) => Signal::Exit(*code as int),
        }
    }
}

/// The values of a sequence of effects.
pub open spec fn signals(s: Seq<Effect>) -> Seq<Signal> {
    s.map_values(|e: Effect| e@)
}

/// The name under which the frontend listens for an event.
pub open spec fn event_name(e: FrontendEvent) -> Seq<char> {
    match e {
        FrontendEvent::NavigateToView(_) => "navigate-to-view"@,
        FrontendEvent::QuitRequested => "quit-requested"@,
    }
}

impl FrontendEvent {
    /// The event's name on the frontend side.
    pub fn name(&self) -> (r: &'static str)
        ensures
            r@ == event_name(*self),
    {
        match self {
            FrontendEvent::NavigateToView(_) => "navigate-to-view",
            FrontendEvent::QuitRequested => "quit-requested",
        }
    }
}

/// The window commands as effects, in the same order.
pub fn window_effects(commands: Vec<WindowCommand>) -> (r: Vec<Effect>)
    ensures
        signals(r@) == commands@.map_values(|c: WindowCommand| Signal::Window(c)),
{
    let mut r: Vec<Effect> = Vec::new();
    let mut i: usize = 0;
    while i < commands.len()
        invariant
            i <= commands@.len(),
            r@.len() == i,
            forall|j: int| 0 <= j < i ==> #[trigger] r@[j]@ == Signal::Window(commands@[j]),
        decreases commands@.len() - i,
    {
        r.push(Effect::Window(commands[i]));
        i = i + 1;
    }
    assert(signals(r@) =~= commands@.map_values(|c: WindowCommand| Signal::Window(c)));
    r
}

} // verus!
