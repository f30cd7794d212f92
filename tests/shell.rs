use arise::effects::{Effect, FrontendEvent};
use arise::handlers::{navigate_to_view, on_menu_event, on_shortcut, on_tray_icon_event, quit_app};
use arise::setup::{on_step_failure, setup_steps, startup_plugins, LogLevel, OnFailure, Plugin, SetupStep};
use arise::shortcut::{shortcut_toggles, toggle_shortcut, KeyState, Shortcut};
use arise::text::same_text;
use arise::tray::{tray_config, ButtonState, MouseButton, TrayMenuItem, TrayPointerEvent};
use arise::window::{main_window_label, show_window, toggle_window_visibility, WindowCommand};

fn window_commands(effects: &[Effect]) -> Vec<WindowCommand> {
    effects
        .iter()
        .filter_map(|e| match e {
            Effect::Window(c) => Some(*c),
            _ => None,
        })
        .collect()
}

const REVEAL: [WindowCommand; 3] =
    [WindowCommand::Show, WindowCommand::Unminimize, WindowCommand::SetFocus];

#[test]
fn same_text_compares_characters() {
    assert!(same_text("timer", "timer"));
    assert!(!same_text("timer", "Timer"));
    assert!(!same_text("time", "timer"));
    assert!(same_text("", ""));
    assert!(same_text("héllo", "héllo"));
    assert!(!same_text("héllo", "hello"));
}

#[test]
fn show_window_reveals_and_focuses() {
    assert_eq!(show_window(), REVEAL.to_vec());
    assert_eq!(main_window_label(), "main");
}

#[test]
fn toggle_hides_visible_window() {
    assert_eq!(toggle_window_visibility(Some(true)), vec![WindowCommand::Hide]);
}

#[test]
fn toggle_shows_hidden_window() {
    assert_eq!(toggle_window_visibility(Some(false)), REVEAL.to_vec());
}

#[test]
fn toggle_without_window_does_nothing() {
    assert!(toggle_window_visibility(None).is_empty());
}

#[test]
fn toggle_shortcut_is_ctrl_shift_a() {
    let s = toggle_shortcut();
    assert_eq!(s, Shortcut { control: true, shift: true, alt: false, meta: false, key: 'A' });
}

#[test]
fn shortcut_toggles_only_on_press_of_ctrl_shift_a() {
    let s = toggle_shortcut();
    assert!(shortcut_toggles(s, KeyState::Pressed));
    assert!(!shortcut_toggles(s, KeyState::Released));
    let other = Shortcut { key: 'B', ..s };
    assert!(!shortcut_toggles(other, KeyState::Pressed));
    let no_shift = Shortcut { shift: false, ..s };
    assert!(!shortcut_toggles(no_shift, KeyState::Pressed));
}

#[test]
fn shortcut_event_toggles_window() {
    let s = toggle_shortcut();
    let r = on_shortcut(s, KeyState::Pressed, Some(true));
    assert_eq!(window_commands(&r), vec![WindowCommand::Hide]);
    assert_eq!(r.len(), 1);
    let r = on_shortcut(s, KeyState::Pressed, Some(false));
    assert_eq!(window_commands(&r), REVEAL.to_vec());
    assert!(on_shortcut(s, KeyState::Pressed, None).is_empty());
    assert!(on_shortcut(s, KeyState::Released, Some(true)).is_empty());
}

#[test]
fn menu_show_shows_window() {
    let r = on_menu_event("show");
    assert_eq!(r.len(), 3);
    assert_eq!(window_commands(&r), REVEAL.to_vec());
}

#[test]
fn menu_timer_navigates_to_timer_view() {
    let r = on_menu_event("timer");
    assert_eq!(r.len(), 4);
    assert_eq!(window_commands(&r[..3]), REVEAL.to_vec());
    match &r[3] {
        Effect::Emit(e @ FrontendEvent::NavigateToView(view)) => {
            assert_eq!(view, "timer");
            assert_eq!(e.name(), "navigate-to-view");
        }
        other => panic!("unexpected effect {:?}", other),
    }
}

#[test]
fn menu_quit_requests_quit() {
    let r = on_menu_event("quit");
    assert_eq!(r.len(), 4);
    assert_eq!(window_commands(&r[..3]), REVEAL.to_vec());
    match &r[3] {
        Effect::Emit(e @ FrontendEvent::QuitRequested) => {
            assert_eq!(e.name(), "quit-requested");
        }
        other => panic!("unexpected effect {:?}", other),
    }
}

#[test]
fn menu_unknown_id_does_nothing() {
    assert!(on_menu_event("settings").is_empty());
    assert!(on_menu_event("").is_empty());
    assert!(on_menu_event("Show").is_empty());
}

#[test]
fn navigate_carries_view_name() {
    let r = navigate_to_view("stats");
    assert_eq!(r.len(), 4);
    assert_eq!(window_commands(&r[..3]), REVEAL.to_vec());
    assert!(matches!(&r[3], Effect::Emit(FrontendEvent::NavigateToView(v)) if v == "stats"));
}

#[test]
fn tray_left_click_up_shows_window() {
    let r = on_tray_icon_event(TrayPointerEvent::Click {
        button: MouseButton::Left,
        state: ButtonState::Up,
    });
    assert_eq!(window_commands(&r), REVEAL.to_vec());
    assert_eq!(r.len(), 3);
}

#[test]
fn tray_other_pointer_events_do_nothing() {
    let events = [
        TrayPointerEvent::Click { button: MouseButton::Left, state: ButtonState::Down },
        TrayPointerEvent::Click { button: MouseButton::Right, state: ButtonState::Up },
        TrayPointerEvent::Click { button: MouseButton::Middle, state: ButtonState::Up },
        TrayPointerEvent::DoubleClick { button: MouseButton::Left },
        TrayPointerEvent::Enter,
        TrayPointerEvent::Move,
        TrayPointerEvent::Leave,
    ];
    for e in events {
        assert!(on_tray_icon_event(e).is_empty());
    }
}

#[test]
fn quit_app_exits_with_zero() {
    assert!(matches!(quit_app(), Effect::Exit(0)));
}

#[test]
fn tray_menu_has_three_entries() {
    let c = tray_config();
    assert_eq!(c.items, vec![TrayMenuItem::Show, TrayMenuItem::Timer, TrayMenuItem::Quit]);
    let ids: Vec<&str> = c.items.iter().map(|i| i.id()).collect();
    assert_eq!(ids, vec!["show", "timer", "quit"]);
    let labels: Vec<&str> = c.items.iter().map(|i| i.label()).collect();
    assert_eq!(labels, vec!["Show", "Timer", "Quit"]);
    assert_eq!(c.tooltip, "ARISE");
    assert!(!c.show_menu_on_left_click);
}

#[test]
fn menu_ids_round_trip() {
    for item in [TrayMenuItem::Show, TrayMenuItem::Timer, TrayMenuItem::Quit] {
        assert_eq!(TrayMenuItem::from_id(item.id()), Some(item));
    }
    assert_eq!(TrayMenuItem::from_id("exit"), None);
}

#[test]
fn plugins_registered_in_order() {
    assert_eq!(
        startup_plugins(),
        vec![Plugin::Sql, Plugin::Notification, Plugin::Shell, Plugin::GlobalShortcut]
    );
}

#[test]
fn setup_release_build_off_windows() {
    assert_eq!(
        setup_steps(false, false),
        vec![
            SetupStep::UnregisterAllShortcuts,
            SetupStep::RegisterShortcut(toggle_shortcut()),
            SetupStep::LocateMainWindow,
            SetupStep::BuildTray,
        ]
    );
}

#[test]
fn setup_debug_build_on_windows() {
    assert_eq!(
        setup_steps(true, true),
        vec![
            SetupStep::UnregisterAllShortcuts,
            SetupStep::RegisterShortcut(toggle_shortcut()),
            SetupStep::AttachLogger(LogLevel::Info),
            SetupStep::LocateMainWindow,
            SetupStep::ApplyAcrylic,
            SetupStep::BuildTray,
        ]
    );
}

#[test]
fn setup_failure_policies() {
    assert_eq!(on_step_failure(SetupStep::UnregisterAllShortcuts), OnFailure::Ignore);
    assert_eq!(on_step_failure(SetupStep::RegisterShortcut(toggle_shortcut())), OnFailure::Warn);
    assert_eq!(on_step_failure(SetupStep::AttachLogger(LogLevel::Info)), OnFailure::Abort);
    assert_eq!(on_step_failure(SetupStep::LocateMainWindow), OnFailure::Abort);
    assert_eq!(on_step_failure(SetupStep::ApplyAcrylic), OnFailure::Abort);
    assert_eq!(on_step_failure(SetupStep::BuildTray), OnFailure::Abort);
}
