use vstd::prelude::*;
use vstd::string::StringExecFns;
use crate::text::same_text;

verus! {

/// The entries of the tray icon's menu.
#[derive(Clone, Copy, Debug, PartialEq, Eq, Structural)]
pub enum TrayMenuItem {
    Show,
    Timer,
    Quit,
}

/// The identifier by which a menu click names the entry.
pub open spec fn item_id(item: TrayMenuItem) -> Seq<char> {
    match item {
        TrayMenuItem::Show => "show"@,
        TrayMenuItem::Timer => "timer"@,
        TrayMenuItem::Quit => "quit"@,
    }
}

/// The text that the menu shows for the entry.
pub open spec fn item_label(item: TrayMenuItem) -> Seq<char> {
    match item {
        TrayMenuItem::Show => "Show"@,
        TrayMenuItem::Timer => "Timer"@,
        TrayMenuItem::Quit => "Quit"@,
    }
}

/// The entry that an identifier names, if any.
pub open spec fn item_with_id(id: Seq<char>) -> Option<TrayMenuItem> {
    if id == "show"@ {
        Some(TrayMenuItem::Show)
    } else if id == "timer"@ {
        Some(TrayMenuItem::Timer)
    } else if id == "quit"@ {
        Some(TrayMenuItem::Quit)
    } else {
        None
    }
}

impl TrayMenuItem {
    /// The identifier of the entry.
    pub fn id(&self) -> (r: &'static str)
        ensures
            r@ == item_id(*self),
    {
        match self {
            TrayMenuItem::Show => "show",
            TrayMenuItem::Timer => "timer",
            TrayMenuItem::Quit => "quit",
        }
    }

    /// The label of the entry.
    pub fn label(&self) -> (r: &'static str)
        ensures
            r@ == item_label(*self),
    {
        match self {
            TrayMenuItem::Show => "Show",
            TrayMenuItem::Timer => "Timer",
            TrayMenuItem::Quit => "Quit",
        }
    }

    /// The entry with this identifier, or `None` for an identifier that no
    /// entry has.
    pub fn from_id(id: &str) -> (r: Option<TrayMenuItem>)
        ensures
            r == item_with_id(id@),
    {
        if same_text(id, "show") {
            Some(TrayMenuItem::Show)
        } else if same_text(id, "timer") {
            Some(TrayMenuItem::Timer)
        } else if same_text(id, "quit") {
            Some(TrayMenuItem::Quit)
        } else {
            None
        }
    }
}

/// An entry's identifier leads back to the entry.
pub proof fn lemma_item_id_round_trip(item: TrayMenuItem)
    ensures
        item_with_id(item_id(item)) == Some(item),
{
    reveal_strlit("show");
    reveal_strlit("timer");
    reveal_strlit("quit");
    match item {
        TrayMenuItem::Show => {},
        TrayMenuItem::Timer => {
            assert("timer"@ != "show"@) by {
                assert("timer"@.len() != "show"@.len());
            }
        },
        TrayMenuItem::Quit => {
            assert("quit"@ != "show"@) by {
                assert("quit"@[0] != "show"@[0]);
            }
            assert("quit"@ != "timer"@) by {
                assert("quit"@.len() != "timer"@.len());
            }
        },
    }
}

/// The tray menu, top to bottom: Show, Timer, Quit.
pub open spec fn menu_layout() -> Seq<TrayMenuItem> {
    seq![TrayMenuItem::Show, TrayMenuItem::Timer, TrayMenuItem::Quit]
}

/// How the tray icon is set up.
pub struct TrayConfig {
    /// The menu's entries, top to bottom; all of them enabled.
    pub items: Vec<TrayMenuItem>,
    /// The text shown when the pointer rests on the icon.
    pub tooltip: String,
    /// Whether a left click opens the menu. It does not: a left click shows
    /// the window, and the menu opens on a right click.
    pub show_menu_on_left_click: bool,
}

/// The tray icon's menu, tooltip and click behaviour.
pub fn tray_config() -> (r: TrayConfig)
    ensures
        r.items@ == menu_layout(),
        r.tooltip@ == "ARISE"@,
        !r.show_menu_on_left_click,
{
    let items = vec![TrayMenuItem::Show, TrayMenuItem::Timer, TrayMenuItem::Quit];
    assert(items@ =~= menu_layout());
    TrayConfig { items, tooltip: String::from_str("ARISE"), show_menu_on_left_click: false }
}

/// A mouse button.
#[derive(Clone, Copy, Debug, PartialEq, Eq, Structural)]
pub enum MouseButton {
    Left,
    Right,
    Middle,
}

/// Whether a mouse button went down or came up.
#[derive(Clone, Copy, Debug, PartialEq, Eq, Structural)]
pub enum ButtonState {
    Down,
    Up,
}

/// What the pointer did on the tray icon.
#[derive(Clone, Copy, Debug, PartialEq, Eq, Structural)]
pub enum TrayPointerEvent {
    Click { button: MouseButton, state: ButtonState },
    DoubleClick { button: MouseButton },
    Enter,
    Move,
    Leave,
}

} // verus!
