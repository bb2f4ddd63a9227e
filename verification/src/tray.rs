//! The tray icon and the window's life cycle: the two shared flags ("show the
//! window", "stop everything") and how menu messages, timer ticks and window
//! events change them.
use vstd::prelude::*;

verus! {

/// The entries of the tray menu.
#[derive(Clone, Copy, Debug, PartialEq, Eq, Structural)]
pub enum TrayMessages {
    /// Show or hide the configuration window.
    Toggle,
    /// Quit the application.
    Quit,
}

/// The flags shared by the tray, the window and the daemon link.
#[derive(Clone, Copy, Debug, PartialEq, Eq, Structural)]
pub struct LifecycleFlags {
    /// Whether the configuration window should be shown.
    pub ui_on: bool,
    /// Whether the application is stopping.
    pub stop: bool,
}

/// What the tray does after a menu message or a timer tick.
#[derive(Clone, Copy, Debug, PartialEq, Eq, Structural)]
pub struct TrayStep {
    pub flags: LifecycleFlags,
    /// Ask an open window to close.
    pub close_window: bool,
    /// Leave the tray loop and shut the tray down.
    pub exit: bool,
}

/// The tray's reaction to a menu message: "toggle" flips whether the window
/// is shown; "quit" sets the stop flag, closes the window and ends the tray.
pub open spec fn tray_next(flags: LifecycleFlags, msg: TrayMessages) -> TrayStep {
    match msg {
        TrayMessages::Toggle => TrayStep {
            flags: LifecycleFlags { ui_on: !flags.ui_on, stop: flags.stop },
            close_window: false,
            exit: false,
        },
        TrayMessages::Quit => TrayStep {
            flags: LifecycleFlags { ui_on: flags.ui_on, stop: true },
            close_window: true,
            exit: true,
        },
    }
}

/// Applies `tray_next`.
pub fn tray_message(flags: LifecycleFlags, msg: TrayMessages) -> (r: TrayStep)
    ensures
        r == tray_next(flags, msg),
{
    match msg {
        TrayMessages::Toggle => TrayStep {
            flags: LifecycleFlags { ui_on: !flags.ui_on, stop: flags.stop },
            close_window: false,
            exit: false,
        },
        TrayMessages::Quit => TrayStep {
            flags: LifecycleFlags { ui_on: flags.ui_on, stop: true },
            close_window: true,
            exit: true,
        },
    }
}

/// The tray's reaction to a timer tick: it ends once the stop flag is set.
pub fn tray_tick(flags: LifecycleFlags) -> (r: TrayStep)
    ensures
        r == (TrayStep { flags, close_window: false, exit: flags.stop }),
{
    TrayStep { flags, close_window: false, exit: flags.stop }
}

/// What the window does on one frame.
#[derive(Clone, Copy, Debug, PartialEq, Eq, Structural)]
pub struct WindowStep {
    pub flags: LifecycleFlags,
    /// Close the window's viewport.
    pub close: bool,
}

/// The window's reaction on a frame: it closes when the application stops or
/// the window was hidden; a close request from the user hides it.
pub fn window_frame(flags: LifecycleFlags, close_requested: bool) -> (r: WindowStep)
    ensures
        r == (WindowStep {
            flags: LifecycleFlags { ui_on: flags.ui_on && !close_requested, stop: flags.stop },
            close: flags.stop || !flags.ui_on,
        }),
{
    let close = flags.stop || !flags.ui_on;
    let ui_on = if close_requested {
        false
    } else {
        flags.ui_on
    };
    WindowStep { flags: LifecycleFlags { ui_on, stop: flags.stop }, close }
}

/// What the main loop does next.
#[derive(Clone, Copy, Debug, PartialEq, Eq, Structural)]
pub enum UiLoopAction {
    /// Leave the loop: the application is stopping.
    Exit,
    /// Open the window and run it until it closes.
    ShowWindow,
    /// Sleep a little and look again.
    Wait,
}

/// The main loop's decision: stop first, then show the window if asked,
/// otherwise wait.
pub open spec fn ui_loop_next(flags: LifecycleFlags) -> UiLoopAction {
    if flags.stop {
        UiLoopAction::Exit
    } else if flags.ui_on {
        UiLoopAction::ShowWindow
    } else {
        UiLoopAction::Wait
    }
}

/// Applies `ui_loop_next`.
pub fn ui_loop_action(flags: LifecycleFlags) -> (r: UiLoopAction)
    ensures
        r == ui_loop_next(flags),
{
    if flags.stop {
        UiLoopAction::Exit
    } else if flags.ui_on {
        UiLoopAction::ShowWindow
    } else {
        UiLoopAction::Wait
    }
}

/// Toggling twice from the tray menu brings the flags back to where they
/// were.
pub proof fn lemma_toggle_twice(flags: LifecycleFlags)
    ensures
        tray_next(tray_next(flags, TrayMessages::Toggle).flags, TrayMessages::Toggle).flags == flags,
{
}

/// Quitting is final: after "quit", the main loop exits and so does every
/// later tray tick, whatever is toggled in between.
pub proof fn lemma_quit_is_final(flags: LifecycleFlags, later: TrayMessages)
    ensures
        tray_next(flags, TrayMessages::Quit).flags.stop,
        tray_next(tray_next(flags, TrayMessages::Quit).flags, later).flags.stop,
        ui_loop_next(tray_next(flags, TrayMessages::Quit).flags) == UiLoopAction::Exit,
{
}

} // verus!
