//! The tray controller's decision logic: dispatch of menu events on the
//! closed identifier set {show, hide, quit}, and the visibility toggle for
//! clicks on the tray icon.
//!
//! The main window itself is owned by the host framework; what the logic
//! reads and changes of it is modelled by [`WindowState`]. Every
//! window-manipulation call a directive stands for is best-effort: the
//! unverified layer discards its outcome.

use vstd::prelude::*;
use crate::text::str_eq;

verus! {

/// A menu event, decoded from the fixed identifier set. Identifiers outside
/// the set are kept as `Unknown` and ignored, so new menu entries stay
/// forward-compatible.
#[derive(PartialEq, Eq, Structural, Clone, Copy, Debug)]
pub enum MenuEvent {
    Show,
    Hide,
    Quit,
    Unknown,
}

/// The menu event a raw identifier stands for.
pub open spec fn menu_event_of(id: Seq<char>) -> MenuEvent {
    if id == "tray_show"@ {
        MenuEvent::Show
    } else if id == "tray_hide"@ {
        MenuEvent::Hide
    } else if id == "tray_quit"@ {
        MenuEvent::Quit
    } else {
        MenuEvent::Unknown
    }
}

/// Decode a menu-item identifier into the closed event set.
pub fn parse_menu_id(id: &str) -> (e: MenuEvent)
    ensures
        e == menu_event_of(id@),
{
    if str_eq(id, "tray_show") {
        MenuEvent::Show
    } else if str_eq(id, "tray_hide") {
        MenuEvent::Hide
    } else if str_eq(id, "tray_quit") {
        MenuEvent::Quit
    } else {
        MenuEvent::Unknown
    }
}

/// What the tray logic reads and changes of the main window: whether it is
/// visible, whether it is minimized, and whether it has been asked to take
/// keyboard focus.
#[derive(PartialEq, Eq, Structural, Clone, Copy, Debug)]
pub struct WindowState {
    pub visible: bool,
    pub minimized: bool,
    pub focus_requested: bool,
}

/// What the tray controller decides to do in response to one event.
#[derive(PartialEq, Eq, Structural, Clone, Copy, Debug)]
pub enum TrayDirective {
    /// Show the main window, un-minimize it, and request focus for it.
    ShowWindow,
    /// Hide the main window.
    HideWindow,
    /// Terminate the process with the given exit code.
    Quit { code: i32 },
    /// Do nothing.
    Ignore,
}

/// The directive for a menu event. Show and hide act only when the main
/// window exists; quit terminates the process either way, with exit code 0.
pub open spec fn menu_directive_spec(e: MenuEvent, window_present: bool) -> TrayDirective {
    match e {
        MenuEvent::Show => if window_present {
            TrayDirective::ShowWindow
        } else {
            TrayDirective::Ignore
        },
        MenuEvent::Hide => if window_present {
            TrayDirective::HideWindow
        } else {
            TrayDirective::Ignore
        },
        MenuEvent::Quit => TrayDirective::Quit { code: 0 },
        MenuEvent::Unknown => TrayDirective::Ignore,
    }
}

/// Decide what a menu event does, given whether the main window exists.
pub fn menu_directive(e: MenuEvent, window_present: bool) -> (d: TrayDirective)
    ensures
        d == menu_directive_spec(e, window_present),
{
    match e {
        MenuEvent::Show => if window_present {
            TrayDirective::ShowWindow
        } else {
            TrayDirective::Ignore
        },
        MenuEvent::Hide => if window_present {
            TrayDirective::HideWindow
        } else {
            TrayDirective::Ignore
        },
        MenuEvent::Quit => TrayDirective::Quit { code: 0 },
        MenuEvent::Unknown => TrayDirective::Ignore,
    }
}

/// The window state a directive leaves behind. A quit directive never
/// touches the window: the process ends instead.
pub open spec fn apply_directive_spec(d: TrayDirective, w: WindowState) -> WindowState {
    match d {
        TrayDirective::ShowWindow => WindowState {
            visible: true,
            minimized: false,
            focus_requested: true,
        },
        TrayDirective::HideWindow => WindowState { visible: false, ..w },
        TrayDirective::Quit { .. } => w,
        TrayDirective::Ignore => w,
    }
}

/// Carry a directive out on the window-state model. The unverified layer
/// makes the matching framework calls and discards their outcomes.
pub fn apply_directive(d: TrayDirective, w: &mut WindowState)
    ensures
        *final(w) == apply_directive_spec(d, *old(w)),
{
    match d {
        TrayDirective::ShowWindow => {
            w.visible = true;
            w.minimized = false;
            w.focus_requested = true;
        },
        TrayDirective::HideWindow => {
            w.visible = false;
        },
        TrayDirective::Quit { .. } => {},
        TrayDirective::Ignore => {},
    }
}

/// A mouse button of a tray-icon click.
#[derive(PartialEq, Eq, Structural, Clone, Copy, Debug)]
pub enum MouseButton {
    Left,
    Right,
    Middle,
}

/// Whether the button was pressed or released.
#[derive(PartialEq, Eq, Structural, Clone, Copy, Debug)]
pub enum MouseButtonState {
    Up,
    Down,
}

/// Only a left-button release toggles the main window; every other
/// button/state combination is ignored.
pub open spec fn click_toggles(button: MouseButton, state: MouseButtonState) -> bool {
    button == MouseButton::Left && state == MouseButtonState::Up
}

/// The directive for a click on the tray icon, given the window's current
/// true visibility (queried fresh for each event, never cached).
pub open spec fn click_directive_spec(
    button: MouseButton,
    state: MouseButtonState,
    visible: bool,
    window_present: bool,
) -> TrayDirective {
    if !click_toggles(button, state) || !window_present {
        TrayDirective::Ignore
    } else if visible {
        TrayDirective::HideWindow
    } else {
        TrayDirective::ShowWindow
    }
}

/// Decide what a tray-icon click does: a left-button release toggles the
/// main window between hidden and shown-unminimized-focused.
pub fn click_directive(
    button: MouseButton,
    state: MouseButtonState,
    visible: bool,
    window_present: bool,
) -> (d: TrayDirective)
    ensures
        d == click_directive_spec(button, state, visible, window_present),
{
    let is_toggle = match (button, state) {
        (MouseButton::Left, MouseButtonState::Up) => true,
        _ => false,
    };
    if !is_toggle || !window_present {
        TrayDirective::Ignore
    } else if visible {
        TrayDirective::HideWindow
    } else {
        TrayDirective::ShowWindow
    }
}

/// The show directive always leaves the window visible, un-minimized and
/// with focus requested, whatever state it was in before.
pub proof fn lemma_show_shows(w: WindowState)
    ensures
        apply_directive_spec(TrayDirective::ShowWindow, w).visible,
        !apply_directive_spec(TrayDirective::ShowWindow, w).minimized,
        apply_directive_spec(TrayDirective::ShowWindow, w).focus_requested,
{
}

/// The hide directive always leaves the window invisible, whatever state it
/// was in before.
pub proof fn lemma_hide_hides(w: WindowState)
    ensures
        !apply_directive_spec(TrayDirective::HideWindow, w).visible,
{
}

/// A left-button release toggles visibility exactly once; any other click,
/// and any click while no main window exists, changes nothing.
pub proof fn lemma_click_toggles_exactly_once(
    button: MouseButton,
    state: MouseButtonState,
    w: WindowState,
)
    ensures
        click_toggles(button, state) ==> apply_directive_spec(
            click_directive_spec(button, state, w.visible, true),
            w,
        ).visible == !w.visible,
        !click_toggles(button, state) ==> apply_directive_spec(
            click_directive_spec(button, state, w.visible, true),
            w,
        ) == w,
        apply_directive_spec(click_directive_spec(button, state, w.visible, false), w) == w,
{
}

/// A quit menu event always terminates the process with exit code 0,
/// whether or not the main window exists.
pub proof fn lemma_quit_exits_zero(window_present: bool)
    ensures
        menu_directive_spec(MenuEvent::Quit, window_present) == (TrayDirective::Quit { code: 0 }),
{
}

} // verus!
