use vstd::prelude::*;
use crate::shortcut::{toggle_combination, toggle_shortcut, Shortcut};

verus! {

/// The least severe log records that a logger keeps.
#[derive(Clone, Copy, Debug, PartialEq, Eq, Structural)]
pub enum LogLevel {
    Error,
    Warn,
    Info,
    Debug,
    Trace,
}

/// A plugin of the host framework that the application registers when it starts.
#[derive(Clone, Copy, Debug, PartialEq, Eq, Structural)]
pub enum Plugin {
    /// SQL storage.
    Sql,
    /// Desktop notifications.
    Notification,
    /// Access to the shell.
    Shell,
    /// Global keyboard shortcuts, with the handler of `on_shortcut`.
    GlobalShortcut,
}

/// The plugins registered at start-up, in order.
pub open spec fn plugin_order() -> Seq<Plugin> {
    seq![Plugin::Sql, Plugin::Notification, Plugin::Shell, Plugin::GlobalShortcut]
}

/// The plugins to register when the application starts, in order.
pub fn startup_plugins() -> (r: Vec<Plugin>)
    ensures
        r@ == plugin_order(),
{
    let r = vec![Plugin::Sql, Plugin::Notification, Plugin::Shell, Plugin::GlobalShortcut];
    assert(r@ =~= plugin_order());
    r
}

/// A step of the setup hook, which runs once the plugins are registered.
#[derive(Clone, Copy, Debug, PartialEq, Eq, Structural)]
pub enum SetupStep {
    /// Drops every global shortcut left registered by an earlier run.
    UnregisterAllShortcuts,
    /// Registers a global shortcut.
    RegisterShortcut(Shortcut),
    /// Attaches a logger that keeps records from this level up.
    AttachLogger(LogLevel),
    /// Looks up the main window.
    LocateMainWindow,
    /// Gives the main window its translucent acrylic backdrop.
    ApplyAcrylic,
    /// Builds the tray icon with its menu (see `tray_config`).
    BuildTray,
}

/// What becomes of the setup when a step fails.
#[derive(Clone, Copy, Debug, PartialEq, Eq, Structural)]
pub enum OnFailure {
    /// The failure is ignored.
    Ignore,
    /// The failure is logged as a warning and the setup goes on.
    Warn,
    /// The application does not start.
    Abort,
}

/// The setup steps, in order: the logger only in a debug build, the acrylic
/// backdrop only on Windows.
pub open spec fn setup_order(debug_build: bool, on_windows: bool) -> Seq<SetupStep> {
    seq![SetupStep::UnregisterAllShortcuts, SetupStep::RegisterShortcut(toggle_combination())]
        + (if debug_build { seq![SetupStep::AttachLogger(LogLevel::Info)] } else { Seq::empty() })
        + seq![SetupStep::LocateMainWindow]
        + (if on_windows { seq![SetupStep::ApplyAcrylic] } else { Seq::empty() })
        + seq![SetupStep::BuildTray]
}

/// The failure policy of each step: clearing old shortcuts is best effort,
/// a shortcut that cannot be registered is reported and skipped, and every
/// other failure stops the application.
pub open spec fn failure_policy(step: SetupStep) -> OnFailure {
    match step {
        SetupStep::UnregisterAllShortcuts => OnFailure::Ignore,
        SetupStep::RegisterShortcut(_) => OnFailure::Warn,
        _ => OnFailure::Abort,
    }
}

/// The steps of the setup hook, for a debug build or not, on Windows or not.
pub fn setup_steps(debug_build: bool, on_windows: bool) -> (r: Vec<SetupStep>)
    ensures
        r@ == setup_order(debug_build, on_windows),
{
    let mut r: Vec<SetupStep> = Vec::new();
    r.push(SetupStep::UnregisterAllShortcuts);
    r.push(SetupStep::RegisterShortcut(toggle_shortcut()));
    if debug_build {
        r.push(SetupStep::AttachLogger(LogLevel::Info));
    }
    r.push(SetupStep::LocateMainWindow);
    if on_windows {
        r.push(SetupStep::ApplyAcrylic);
    }
    r.push(SetupStep::BuildTray);
    assert(r@ =~= setup_order(debug_build, on_windows));
    r
}

/// What becomes of the setup when `step` fails.
pub fn on_step_failure(step: SetupStep) -> (r: OnFailure)
    ensures
        r == failure_policy(step),
{
    match step {
        SetupStep::UnregisterAllShortcuts => OnFailure::Ignore,
        SetupStep::RegisterShortcut(_) => OnFailure::Warn,
        _ => OnFailure::Abort,
    }
}

} // verus!
