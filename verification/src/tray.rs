//! The tray side of the controller: which tray and menu events ask for
//! what, and the two flags through which the polling thread hands those
//! requests to the UI thread.
//!
//! A flag is a level, not a count: raising a raised flag changes nothing, so
//! any number of equal requests between two polls is one request.

use vstd::prelude::*;
use vstd::string::StringExecFns;

verus! {

/// Identifier of the menu item that brings the controller window back.
pub const MENU_SHOW_ID: &'static str = "show";

/// Identifier of the menu item that ends the controller.
pub const MENU_QUIT_ID: &'static str = "quit";

/// Label of the menu item that brings the controller window back.
pub const MENU_SHOW_LABEL: &'static str = "Show Panel";

/// Label of the menu item that ends the controller.
pub const MENU_QUIT_LABEL: &'static str = "Quit";

/// Tooltip of the tray icon.
pub const TRAY_TOOLTIP: &'static str = "AIMX - Right-click for menu";

/// What a tray or menu event asks of the controller.
#[derive(Clone, Copy, Debug, PartialEq, Eq, Structural)]
pub enum TraySignal {
    Restore,
    Quit,
}

/// A button of the pointer.
#[derive(Clone, Copy, Debug, PartialEq, Eq, Structural)]
pub enum MouseButton {
    Left,
    Right,
    Middle,
}

/// Whether a button went down or came up.
#[derive(Clone, Copy, Debug, PartialEq, Eq, Structural)]
pub enum MouseButtonState {
    Up,
    Down,
}

/// A pointer event on the tray icon, reduced to what the controller reads
/// of it.
#[derive(Clone, Copy, Debug, PartialEq, Eq, Structural)]
pub enum TrayIconEvent {
    Click { button: MouseButton, button_state: MouseButtonState },
    DoubleClick { button: MouseButton },
    Enter,
    Move,
    Leave,
}

/// The request behind a menu item: `"show"` restores, `"quit"` quits, and
/// any other item asks for nothing.
pub open spec fn menu_signal_of(id: Seq<char>) -> Option<TraySignal> {
    if id == "show"@ {
        Some(TraySignal::Restore)
    } else if id == "quit"@ {
        Some(TraySignal::Quit)
    } else {
        None
    }
}

/// The request behind a pointer event: a released left click and a left
/// double click restore; every other event asks for nothing.
pub open spec fn icon_signal_of(event: TrayIconEvent) -> Option<TraySignal> {
    match event {
        TrayIconEvent::Click { button: MouseButton::Left, button_state: MouseButtonState::Up } => {
            Some(TraySignal::Restore)
        },
        TrayIconEvent::DoubleClick { button: MouseButton::Left } => Some(TraySignal::Restore),
        _ => None,
    }
}

/// Reads the request of an activated menu item from its identifier.
pub fn menu_signal(id: &str) -> (signal: Option<TraySignal>)
    ensures
        signal == menu_signal_of(id@),
{
    let given = String::from_str(id);
    let show = String::from_str(MENU_SHOW_ID);
    let quit = String::from_str(MENU_QUIT_ID);
    if given == show {
        Some(TraySignal::Restore)
    } else if given == quit {
        Some(TraySignal::Quit)
    } else {
        None
    }
}

/// Reads the request of a pointer event on the tray icon.
pub fn icon_signal(event: TrayIconEvent) -> (signal: Option<TraySignal>)
    ensures
        signal == icon_signal_of(event),
{
    match event {
        TrayIconEvent::Click { button, button_state } => {
            match (button, button_state) {
                (MouseButton::Left, MouseButtonState::Up) => Some(TraySignal::Restore),
                _ => None,
            }
        },
        TrayIconEvent::DoubleClick { button } => {
            match button {
                MouseButton::Left => Some(TraySignal::Restore),
                _ => None,
            }
        },
        _ => None,
    }
}

/// The two requests that wait for the UI thread. The polling thread raises
/// them; the UI thread reads and clears them.
#[derive(Clone, Copy, Debug, PartialEq, Eq, Structural)]
pub struct TrayFlags {
    pub restore_requested: bool,
    pub quit_requested: bool,
}

impl TrayFlags {
    /// No request waits.
    pub open spec fn cleared() -> TrayFlags {
        TrayFlags { restore_requested: false, quit_requested: false }
    }

    /// These flags with the flag of `signal` raised.
    pub open spec fn raised(self, signal: TraySignal) -> TrayFlags {
        match signal {
            TraySignal::Restore => TrayFlags { restore_requested: true, ..self },
            TraySignal::Quit => TrayFlags { quit_requested: true, ..self },
        }
    }

    /// These flags after an event that asks for `signal`, or for nothing.
    pub open spec fn after(self, signal: Option<TraySignal>) -> TrayFlags {
        match signal {
            Some(asked) => self.raised(asked),
            None => self,
        }
    }

    /// Flags with no request.
    pub fn new() -> (flags: TrayFlags)
        ensures
            flags == TrayFlags::cleared(),
    {
        TrayFlags { restore_requested: false, quit_requested: false }
    }

    /// Raises the flag of `signal` and leaves the other as it is.
    pub fn raise(&mut self, signal: TraySignal)
        ensures
            *final(self) == old(self).raised(signal),
    {
        match signal {
            TraySignal::Restore => {
                self.restore_requested = true;
            },
            TraySignal::Quit => {
                self.quit_requested = true;
            },
        }
    }

    /// Drops both requests.
    pub fn clear(&mut self)
        ensures
            *final(self) == TrayFlags::cleared(),
    {
        self.restore_requested = false;
        self.quit_requested = false;
    }

    /// One round of the polling thread for a menu event. Raises the flag
    /// that the item asks for. Returns true when a flag was raised: the
    /// controller window is then to be forced onto the screen and the UI
    /// thread woken.
    pub fn on_menu_event(&mut self, id: &str) -> (wake: bool)
        ensures
            *final(self) == old(self).after(menu_signal_of(id@)),
            wake == menu_signal_of(id@).is_some(),
    {
        match menu_signal(id) {
            Some(signal) => {
                self.raise(signal);
                true
            },
            None => false,
        }
    }

    /// One round of the polling thread for a pointer event on the icon.
    /// Raises the flag that the event asks for. Returns true when a flag
    /// was raised: the controller window is then to be forced onto the
    /// screen and the UI thread woken.
    pub fn on_icon_event(&mut self, event: TrayIconEvent) -> (wake: bool)
        ensures
            *final(self) == old(self).after(icon_signal_of(event)),
            wake == icon_signal_of(event).is_some(),
    {
        match icon_signal(event) {
            Some(signal) => {
                self.raise(signal);
                true
            },
            None => false,
        }
    }
}

/// The tray icon of the controller: whether it is in the tray, and whether
/// the polling thread was ever started. The thread is started with the
/// first icon and lives on while there is none; its flags are dropped
/// whenever the icon comes or goes, so what it raised without an icon is
/// never acted on.
#[derive(Clone, Copy, Debug, PartialEq, Eq, Structural)]
pub struct TrayController {
    pub active: bool,
    pub poller_started: bool,
}

impl TrayController {
    /// The controller with its icon in the tray.
    pub open spec fn activated(self) -> TrayController {
        TrayController { active: true, poller_started: true }
    }

    /// The controller with its icon taken out of the tray.
    pub open spec fn deactivated(self) -> TrayController {
        TrayController { active: false, ..self }
    }

    /// A controller without an icon and without a polling thread.
    pub fn new() -> (tray: TrayController)
        ensures
            tray == (TrayController { active: false, poller_started: false }),
    {
        TrayController { active: false, poller_started: false }
    }

    /// Puts the icon into the tray and drops both flags. Returns true when
    /// the polling thread is to be started: on the first activation only.
    pub fn activate(&mut self, flags: &mut TrayFlags) -> (spawn_poller: bool)
        ensures
            *final(self) == old(self).activated(),
            *final(flags) == TrayFlags::cleared(),
            spawn_poller == !old(self).poller_started,
    {
        flags.clear();
        let first = !self.poller_started;
        self.active = true;
        self.poller_started = true;
        first
    }

    /// Takes the icon out of the tray and drops both flags. The polling
    /// thread is not stopped.
    pub fn deactivate(&mut self, flags: &mut TrayFlags)
        ensures
            *final(self) == old(self).deactivated(),
            *final(flags) == TrayFlags::cleared(),
    {
        self.active = false;
        flags.clear();
    }
}

/// Requests coalesce: a second equal request before the flags are read
/// leaves them as the first did.
pub proof fn lemma_requests_coalesce(flags: TrayFlags, signal: TraySignal)
    ensures
        flags.raised(signal).raised(signal) == flags.raised(signal),
{
}

/// Requests of different kinds do not disturb each other, in either order.
pub proof fn lemma_requests_commute(flags: TrayFlags, first: TraySignal, second: TraySignal)
    ensures
        flags.raised(first).raised(second) == flags.raised(second).raised(first),
{
}

/// The two menu identifiers are different, so no item asks for both.
pub proof fn lemma_menu_ids_differ()
    ensures
        "show"@ != "quit"@,
        menu_signal_of("show"@) == Some(TraySignal::Restore),
        menu_signal_of("quit"@) == Some(TraySignal::Quit),
{
    reveal_strlit("show");
    reveal_strlit("quit");
    assert("show"@[0] != "quit"@[0]);
}

} // verus!
