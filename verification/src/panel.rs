//! The controller: its lifecycle, the close policy, the tray, and the
//! supervision of the overlay, as one state machine.
//!
//! Each frame of the controller window runs through the same stations: the
//! tray flags are polled, a close request is decided, the close dialog is
//! answered, the action of the settings panel is carried out, and the
//! configuration is sent. Each station is a function from the state and what
//! was observed to the next state and the commands to carry out, in order.

use vstd::prelude::*;
use crate::channel::{optional_bytes, send_step, NEWLINE};
use crate::config::{CloseAction, Config};
use crate::ipc::{send_config, write_finished, ChildProcessHandle};
use crate::platform::JobObject;
use crate::tray::{TrayController, TrayFlags, TraySignal};

verus! {

/// Where the controller stands between start and exit.
#[derive(Clone, Copy, Debug, PartialEq, Eq, Structural)]
pub enum Lifecycle {
    /// The window is open and in use.
    Running,
    /// A close was asked for and the dialog waits for an answer.
    ClosePending,
    /// The window is hidden and the tray icon stands for it.
    Minimized,
    /// The close goes ahead.
    Closing,
}

/// What the user asked for in the settings panel during one frame.
#[derive(Clone, Copy, Debug, PartialEq, Eq, Structural)]
pub enum PanelAction {
    Idle,
    Save,
    Reset,
    ShowOverlay,
    HideOverlay,
}

/// The answer given in the close dialog.
#[derive(Clone, Copy, Debug, PartialEq, Eq, Structural)]
pub enum DialogChoice {
    Quit,
    Minimize,
}

/// One thing for the caller to carry out on the window system, the tray, the
/// settings file or the overlay process.
#[derive(Clone, Copy, Debug, PartialEq, Eq, Structural)]
pub enum Command {
    /// Refuse the close that the window system asked for.
    CancelClose,
    /// Close the controller window.
    Close,
    /// Hide the controller window.
    HideWindow,
    /// Make the controller window visible.
    ShowWindow,
    /// Give the controller window the input focus.
    FocusWindow,
    /// Put the icon and its menu into the tray.
    CreateTrayIcon,
    /// Take the icon out of the tray.
    DestroyTrayIcon,
    /// Start the thread that polls tray and menu events.
    SpawnTrayPoller,
    /// Write the configuration to the settings file.
    SaveConfig,
    /// Start the overlay process.
    SpawnOverlay,
    /// Kill this overlay process.
    KillOverlay(ChildProcessHandle),
}

/// The action of a frame of the settings panel, from the buttons that were
/// clicked. The overlay button hides a running overlay and shows a missing
/// one; save goes before it, and reset before save.
pub open spec fn action_of_clicks(
    overlay_alive: bool,
    overlay_clicked: bool,
    save_clicked: bool,
    reset_clicked: bool,
) -> PanelAction {
    if reset_clicked {
        PanelAction::Reset
    } else if save_clicked {
        PanelAction::Save
    } else if overlay_clicked {
        if overlay_alive {
            PanelAction::HideOverlay
        } else {
            PanelAction::ShowOverlay
        }
    } else {
        PanelAction::Idle
    }
}

impl PanelAction {
    /// Reads the action of a frame from the clicks on the overlay button,
    /// on save and on reset.
    pub fn from_clicks(
        overlay_alive: bool,
        overlay_clicked: bool,
        save_clicked: bool,
        reset_clicked: bool,
    ) -> (action: PanelAction)
        ensures
            action == action_of_clicks(overlay_alive, overlay_clicked, save_clicked, reset_clicked),
    {
        let mut action = PanelAction::Idle;
        if overlay_clicked {
            action = if overlay_alive {
                PanelAction::HideOverlay
            } else {
                PanelAction::ShowOverlay
            };
        }
        if save_clicked {
            action = PanelAction::Save;
        }
        if reset_clicked {
            action = PanelAction::Reset;
        }
        action
    }
}

/// The state of the controller as contracts speak of it.
pub struct PanelState {
    pub config: Config,
    pub prev_config: Option<Seq<u8>>,
    pub child: Option<ChildProcessHandle>,
    pub job: Option<JobObject>,
    pub lifecycle: Lifecycle,
    pub remember_choice: bool,
    pub tray: TrayController,
}

/// The outcome of one station: the next state, the tray flags as they are
/// left, and the commands to carry out, first to last.
pub struct Step {
    pub state: PanelState,
    pub flags: TrayFlags,
    pub commands: Seq<Command>,
}

/// The commands that hide the controller behind a tray icon. The polling
/// thread is started with the first icon only.
pub open spec fn minimize_commands(poller_started: bool) -> Seq<Command> {
    if poller_started {
        seq![Command::CreateTrayIcon, Command::HideWindow]
    } else {
        seq![Command::CreateTrayIcon, Command::SpawnTrayPoller, Command::HideWindow]
    }
}

/// The commands that bring the controller back from the tray.
pub open spec fn restore_commands() -> Seq<Command> {
    seq![Command::DestroyTrayIcon, Command::ShowWindow, Command::FocusWindow]
}

/// The command that stores the configuration, if the choice is to be
/// remembered.
pub open spec fn remember_commands(remember: bool) -> Seq<Command> {
    if remember {
        seq![Command::SaveConfig]
    } else {
        Seq::empty()
    }
}

/// The edges of the lifecycle: a station leaves the lifecycle as it is or
/// follows one of these.
pub open spec fn lifecycle_edge(from: Lifecycle, to: Lifecycle) -> bool {
    from == to || match (from, to) {
        (Lifecycle::Running, Lifecycle::ClosePending) => true,
        (Lifecycle::Running, Lifecycle::Minimized) => true,
        (Lifecycle::Running, Lifecycle::Closing) => true,
        (Lifecycle::ClosePending, Lifecycle::Minimized) => true,
        (Lifecycle::ClosePending, Lifecycle::Closing) => true,
        (Lifecycle::Minimized, Lifecycle::Running) => true,
        (Lifecycle::Minimized, Lifecycle::Closing) => true,
        _ => false,
    }
}

impl PanelState {
    /// The icon is in the tray exactly while the controller is minimized.
    pub open spec fn consistent(self) -> bool {
        self.tray.active == (self.lifecycle == Lifecycle::Minimized)
    }

    /// A station that decides nothing.
    pub open spec fn idle(self, flags: TrayFlags) -> Step {
        Step { state: self, flags, commands: Seq::empty() }
    }

    /// The configuration with the close policy replaced, if the choice is
    /// to be remembered.
    pub open spec fn remembering(self, remember: bool, action: CloseAction) -> PanelState {
        PanelState {
            remember_choice: remember,
            config: if remember {
                Config { close_action: action, ..self.config }
            } else {
                self.config
            },
            ..self
        }
    }

    /// Into the tray: both flags are dropped, the icon is created, the
    /// polling thread is started if it never was, and the window is hidden.
    pub open spec fn minimized(self) -> Step {
        Step {
            state: PanelState {
                lifecycle: Lifecycle::Minimized,
                tray: self.tray.activated(),
                ..self
            },
            flags: TrayFlags::cleared(),
            commands: minimize_commands(self.tray.poller_started),
        }
    }

    /// Out of the tray: the icon is destroyed, both flags are dropped, and
    /// the window is shown and focused.
    pub open spec fn restored(self) -> Step {
        Step {
            state: PanelState {
                lifecycle: Lifecycle::Running,
                tray: self.tray.deactivated(),
                ..self
            },
            flags: TrayFlags::cleared(),
            commands: restore_commands(),
        }
    }

    /// The tray station. Only a minimized controller reads the flags. A
    /// quit request restores first and then closes, whatever the close
    /// policy; a restore request restores; the flags are dropped in both
    /// cases.
    pub open spec fn polled(self, flags: TrayFlags) -> Step {
        if self.lifecycle != Lifecycle::Minimized {
            self.idle(flags)
        } else if flags.quit_requested {
            Step {
                state: PanelState {
                    lifecycle: Lifecycle::Closing,
                    tray: self.tray.deactivated(),
                    ..self
                },
                flags: TrayFlags::cleared(),
                commands: restore_commands().push(Command::Close),
            }
        } else if flags.restore_requested {
            self.restored()
        } else {
            self.idle(flags)
        }
    }

    /// The close station, for a close asked of the open window. The policy
    /// decides: quit lets the close go ahead, minimize refuses it and goes
    /// into the tray, ask refuses it and opens the dialog. A controller
    /// that is closing already, or is minimized, decides nothing.
    pub open spec fn close_asked(self, flags: TrayFlags) -> Step {
        match self.lifecycle {
            Lifecycle::Closing => self.idle(flags),
            Lifecycle::Minimized => self.idle(flags),
            _ => match self.config.close_action {
                CloseAction::Quit => Step {
                    state: PanelState { lifecycle: Lifecycle::Closing, ..self },
                    flags,
                    commands: Seq::empty(),
                },
                CloseAction::Minimize => {
                    let step = self.minimized();
                    Step { commands: seq![Command::CancelClose] + step.commands, ..step }
                },
                CloseAction::Ask => Step {
                    state: PanelState { lifecycle: Lifecycle::ClosePending, ..self },
                    flags,
                    commands: seq![Command::CancelClose],
                },
            },
        }
    }

    /// The opening of a frame: the tray station and, where the frame goes
    /// on and the window system asked to close the window, the close
    /// station. A frame that began minimized ends with the tray station,
    /// whatever was asked of the window.
    pub open spec fn updated(self, flags: TrayFlags, close_requested: bool) -> Step {
        if self.lifecycle == Lifecycle::Minimized || !close_requested {
            self.polled(flags)
        } else {
            self.close_asked(flags)
        }
    }

    /// The dialog station. While the dialog is open, the state of its
    /// checkbox is kept. An answer closes the dialog: with the checkbox set
    /// it becomes the close policy and the configuration is saved; then
    /// quit closes the window, and minimize goes into the tray.
    pub open spec fn dialog_answered(
        self,
        remember: bool,
        choice: Option<DialogChoice>,
        flags: TrayFlags,
    ) -> Step {
        if self.lifecycle != Lifecycle::ClosePending {
            self.idle(flags)
        } else {
            match choice {
                None => PanelState { remember_choice: remember, ..self }.idle(flags),
                Some(DialogChoice::Quit) => Step {
                    state: PanelState {
                        lifecycle: Lifecycle::Closing,
                        ..self.remembering(remember, CloseAction::Quit)
                    },
                    flags,
                    commands: remember_commands(remember).push(Command::Close),
                },
                Some(DialogChoice::Minimize) => {
                    let step = self.remembering(remember, CloseAction::Minimize).minimized();
                    Step { commands: remember_commands(remember) + step.commands, ..step }
                },
            }
        }
    }

    /// The panel station: save stores the configuration, reset puts the
    /// built-in configuration in force, show asks for an overlay if none
    /// runs, and hide gives the running overlay up and kills it.
    pub open spec fn acted(self, action: PanelAction) -> (PanelState, Seq<Command>) {
        match action {
            PanelAction::Idle => (self, Seq::empty()),
            PanelAction::Save => (self, seq![Command::SaveConfig]),
            PanelAction::Reset => (
                PanelState { config: Config::initial(), ..self },
                Seq::empty(),
            ),
            PanelAction::ShowOverlay => if self.child.is_some() {
                (self, Seq::empty())
            } else {
                (self, seq![Command::SpawnOverlay])
            },
            PanelAction::HideOverlay => match self.child {
                Some(child) => (PanelState { child: None, ..self }, seq![Command::KillOverlay(child)]),
                None => (self, Seq::empty()),
            },
        }
    }

    /// After a spawn attempt: the overlay that started, if any, is
    /// supervised, and the next send writes whatever the configuration is.
    pub open spec fn overlay_spawned(self, child: Option<ChildProcessHandle>) -> PanelState {
        PanelState { child, prev_config: None, ..self }
    }

    /// The send station: the state after the serialized configuration was
    /// sent, and the line that was written, if one was.
    pub open spec fn sent(self, encoded: Seq<u8>) -> (PanelState, Option<Seq<u8>>) {
        let (remembered, changed) = send_step(self.prev_config, encoded);
        (
            PanelState { prev_config: remembered, ..self },
            if changed && self.child.is_some() {
                Some(encoded.push(NEWLINE))
            } else {
                None
            },
        )
    }

    /// After a write to the overlay: a failed write gives the overlay up.
    pub open spec fn written(self, succeeded: bool) -> PanelState {
        if succeeded {
            self
        } else {
            PanelState { child: None, ..self }
        }
    }

    /// At exit: the overlay is given up and killed.
    pub open spec fn exited(self) -> (PanelState, Seq<Command>) {
        match self.child {
            Some(child) => (PanelState { child: None, ..self }, seq![Command::KillOverlay(child)]),
            None => (self, Seq::empty()),
        }
    }
}

/// The controller.
#[derive(Debug, PartialEq, Eq)]
pub struct PanelApp {
    pub config: Config,
    pub prev_config: Option<Vec<u8>>,
    pub child: Option<ChildProcessHandle>,
    pub job: Option<JobObject>,
    pub lifecycle: Lifecycle,
    pub remember_choice: bool,
    pub tray: TrayController,
}

impl View for PanelApp {
    type V = PanelState;

    open spec fn view(&self) -> PanelState {
        PanelState {
            config: self.config,
            prev_config: optional_bytes(self.prev_config),
            child: self.child,
            job: self.job,
            lifecycle: self.lifecycle,
            remember_choice: self.remember_choice,
            tray: self.tray,
        }
    }
}

/// What the tray station hands back: the commands, and whether the frame
/// goes on to the window's own stations. A frame that began minimized ends
/// with the tray station.
#[derive(Debug, PartialEq, Eq)]
pub struct Polled {
    pub commands: Vec<Command>,
    pub draw: bool,
}

impl PanelApp {
    /// A running controller with the given configuration, kill group and
    /// overlay. Nothing has been sent to the overlay yet.
    pub fn new(config: Config, job: Option<JobObject>, child: Option<ChildProcessHandle>) -> (app:
        PanelApp)
        ensures
            app@ == (PanelState {
                config,
                prev_config: None,
                child,
                job,
                lifecycle: Lifecycle::Running,
                remember_choice: false,
                tray: TrayController { active: false, poller_started: false },
            }),
            app@.consistent(),
    {
        PanelApp {
            config,
            prev_config: None,
            child,
            job,
            lifecycle: Lifecycle::Running,
            remember_choice: false,
            tray: TrayController::new(),
        }
    }

    /// True while an overlay is supervised.
    pub fn overlay_alive(&self) -> (alive: bool)
        ensures
            alive == self@.child.is_some(),
    {
        self.child.is_some()
    }

    /// True while the close dialog is open.
    pub fn show_close_dialog(&self) -> (open: bool)
        ensures
            open == (self@.lifecycle == Lifecycle::ClosePending),
    {
        self.lifecycle == Lifecycle::ClosePending
    }

    /// True while the controller sits in the tray.
    pub fn minimized(&self) -> (hidden: bool)
        ensures
            hidden == (self@.lifecycle == Lifecycle::Minimized),
    {
        self.lifecycle == Lifecycle::Minimized
    }

    /// Takes the configuration as the settings panel left it.
    pub fn set_config(&mut self, config: Config)
        ensures
            final(self)@ == (PanelState { config, ..old(self)@ }),
    {
        self.config = config;
    }

    /// Hides the controller behind a tray icon.
    pub fn minimize_to_tray(&mut self, flags: &mut TrayFlags) -> (commands: Vec<Command>)
        ensures
            final(self)@ == old(self)@.minimized().state,
            *final(flags) == old(self)@.minimized().flags,
            commands@ == old(self)@.minimized().commands,
    {
        let spawn_poller = self.tray.activate(flags);
        let mut commands: Vec<Command> = Vec::new();
        commands.push(Command::CreateTrayIcon);
        if spawn_poller {
            commands.push(Command::SpawnTrayPoller);
        }
        self.lifecycle = Lifecycle::Minimized;
        commands.push(Command::HideWindow);
        assert(commands@ =~= old(self)@.minimized().commands);
        commands
    }

    /// Brings the controller back from the tray.
    pub fn restore_from_tray(&mut self, flags: &mut TrayFlags) -> (commands: Vec<Command>)
        ensures
            final(self)@ == old(self)@.restored().state,
            *final(flags) == old(self)@.restored().flags,
            commands@ == old(self)@.restored().commands,
    {
        self.tray.deactivate(flags);
        self.lifecycle = Lifecycle::Running;
        let mut commands: Vec<Command> = Vec::new();
        commands.push(Command::DestroyTrayIcon);
        commands.push(Command::ShowWindow);
        commands.push(Command::FocusWindow);
        assert(commands@ =~= restore_commands());
        commands
    }

    /// The tray station of a frame: reads and clears the tray flags while
    /// minimized, and says whether the frame goes on.
    pub fn poll_tray(&mut self, flags: &mut TrayFlags) -> (polled: Polled)
        ensures
            final(self)@ == old(self)@.polled(*old(flags)).state,
            *final(flags) == old(self)@.polled(*old(flags)).flags,
            polled.commands@ == old(self)@.polled(*old(flags)).commands,
            polled.draw == (old(self)@.lifecycle != Lifecycle::Minimized),
    {
        if self.lifecycle != Lifecycle::Minimized {
            return Polled { commands: Vec::new(), draw: true };
        }
        if flags.quit_requested {
            let mut commands = self.restore_from_tray(flags);
            self.lifecycle = Lifecycle::Closing;
            commands.push(Command::Close);
            return Polled { commands, draw: false };
        }
        if flags.restore_requested {
            let commands = self.restore_from_tray(flags);
            return Polled { commands, draw: false };
        }
        Polled { commands: Vec::new(), draw: false }
    }

    /// The opening of a frame of the controller window, before anything is
    /// drawn: polls the tray and, unless the frame began minimized, decides
    /// a close that the window system asked for. Returns the commands to
    /// carry out, and whether the frame goes on to draw the window.
    pub fn update(&mut self, flags: &mut TrayFlags, close_requested: bool) -> (polled: Polled)
        ensures
            final(self)@ == old(self)@.updated(*old(flags), close_requested).state,
            *final(flags) == old(self)@.updated(*old(flags), close_requested).flags,
            polled.commands@ == old(self)@.updated(*old(flags), close_requested).commands,
            polled.draw == (old(self)@.lifecycle != Lifecycle::Minimized),
    {
        let polled = self.poll_tray(flags);
        if polled.draw && close_requested {
            let commands = self.close_requested(flags);
            Polled { commands, draw: true }
        } else {
            polled
        }
    }

    /// The close station of a frame in which the window system asked to
    /// close the window.
    pub fn close_requested(&mut self, flags: &mut TrayFlags) -> (commands: Vec<Command>)
        ensures
            final(self)@ == old(self)@.close_asked(*old(flags)).state,
            *final(flags) == old(self)@.close_asked(*old(flags)).flags,
            commands@ == old(self)@.close_asked(*old(flags)).commands,
    {
        match self.lifecycle {
            Lifecycle::Closing => Vec::new(),
            Lifecycle::Minimized => Vec::new(),
            _ => {
                match self.config.close_action {
                    CloseAction::Quit => {
                        self.lifecycle = Lifecycle::Closing;
                        Vec::new()
                    },
                    CloseAction::Minimize => {
                        let mut commands: Vec<Command> = Vec::new();
                        commands.push(Command::CancelClose);
                        let mut hiding = self.minimize_to_tray(flags);
                        let ghost head = commands@;
                        let ghost rest = hiding@;
                        commands.append(&mut hiding);
                        assert(commands@ =~= head + rest);
                        commands
                    },
                    CloseAction::Ask => {
                        self.lifecycle = Lifecycle::ClosePending;
                        let mut commands: Vec<Command> = Vec::new();
                        commands.push(Command::CancelClose);
                        assert(commands@ =~= seq![Command::CancelClose]);
                        commands
                    },
                }
            },
        }
    }

    /// The dialog station of a frame: takes the state of the checkbox and
    /// the button that was clicked, if one was.
    pub fn close_dialog(
        &mut self,
        remember: bool,
        choice: Option<DialogChoice>,
        flags: &mut TrayFlags,
    ) -> (commands: Vec<Command>)
        ensures
            final(self)@ == old(self)@.dialog_answered(remember, choice, *old(flags)).state,
            *final(flags) == old(self)@.dialog_answered(remember, choice, *old(flags)).flags,
            commands@ == old(self)@.dialog_answered(remember, choice, *old(flags)).commands,
    {
        if self.lifecycle != Lifecycle::ClosePending {
            return Vec::new();
        }
        self.remember_choice = remember;
        match choice {
            None => Vec::new(),
            Some(DialogChoice::Quit) => {
                let mut commands: Vec<Command> = Vec::new();
                if remember {
                    self.config.close_action = CloseAction::Quit;
                    commands.push(Command::SaveConfig);
                }
                self.lifecycle = Lifecycle::Closing;
                commands.push(Command::Close);
                assert(commands@ =~= remember_commands(remember).push(Command::Close));
                commands
            },
            Some(DialogChoice::Minimize) => {
                let mut commands: Vec<Command> = Vec::new();
                if remember {
                    self.config.close_action = CloseAction::Minimize;
                    commands.push(Command::SaveConfig);
                }
                assert(commands@ =~= remember_commands(remember));
                assert(self@ == old(self)@.remembering(remember, CloseAction::Minimize));
                let mut hiding = self.minimize_to_tray(flags);
                let ghost head = commands@;
                let ghost rest = hiding@;
                commands.append(&mut hiding);
                assert(commands@ =~= head + rest);
                commands
            },
        }
    }

    /// The panel station of a frame: carries out the action of the
    /// settings panel.
    pub fn panel_action(&mut self, action: PanelAction) -> (commands: Vec<Command>)
        ensures
            final(self)@ == old(self)@.acted(action).0,
            commands@ == old(self)@.acted(action).1,
    {
        let mut commands: Vec<Command> = Vec::new();
        match action {
            PanelAction::Idle => {},
            PanelAction::Save => {
                commands.push(Command::SaveConfig);
            },
            PanelAction::Reset => {
                self.config = Config::default();
            },
            PanelAction::ShowOverlay => {
                if self.child.is_none() {
                    commands.push(Command::SpawnOverlay);
                }
            },
            PanelAction::HideOverlay => {
                match self.child {
                    Some(child) => {
                        self.child = None;
                        commands.push(Command::KillOverlay(child));
                    },
                    None => {},
                }
            },
        }
        assert(commands@ =~= old(self)@.acted(action).1);
        commands
    }

    /// Takes the outcome of a spawn attempt that `SpawnOverlay` asked for.
    pub fn overlay_spawned(&mut self, child: Option<ChildProcessHandle>)
        ensures
            final(self)@ == old(self)@.overlay_spawned(child),
    {
        self.child = child;
        self.prev_config = None;
    }

    /// The send station of a frame: takes the serialized configuration and
    /// returns the line to write to the overlay, if the configuration
    /// changed since the last send and an overlay runs.
    pub fn send_config(&mut self, encoded: &[u8]) -> (line: Option<Vec<u8>>)
        ensures
            final(self)@ == old(self)@.sent(encoded@).0,
            optional_bytes(line) == old(self)@.sent(encoded@).1,
    {
        send_config(&self.child, encoded, &mut self.prev_config)
    }

    /// Takes the outcome of writing a line to the overlay.
    pub fn write_finished(&mut self, succeeded: bool)
        ensures
            final(self)@ == old(self)@.written(succeeded),
    {
        write_finished(&mut self.child, succeeded);
    }

    /// The last station: the controller exits, and its overlay with it.
    pub fn on_exit(&mut self) -> (commands: Vec<Command>)
        ensures
            final(self)@ == old(self)@.exited().0,
            commands@ == old(self)@.exited().1,
    {
        let mut commands: Vec<Command> = Vec::new();
        match self.child {
            Some(child) => {
                self.child = None;
                commands.push(Command::KillOverlay(child));
            },
            None => {},
        }
        assert(commands@ =~= old(self)@.exited().1);
        commands
    }
}

/// Every station keeps to the edges of the lifecycle.
pub proof fn lemma_stations_follow_lifecycle(
    state: PanelState,
    flags: TrayFlags,
    remember: bool,
    choice: Option<DialogChoice>,
    action: PanelAction,
    child: Option<ChildProcessHandle>,
    encoded: Seq<u8>,
    succeeded: bool,
)
    ensures
        lifecycle_edge(state.lifecycle, state.polled(flags).state.lifecycle),
        lifecycle_edge(state.lifecycle, state.close_asked(flags).state.lifecycle),
        lifecycle_edge(
            state.lifecycle,
            state.dialog_answered(remember, choice, flags).state.lifecycle,
        ),
        state.acted(action).0.lifecycle == state.lifecycle,
        state.overlay_spawned(child).lifecycle == state.lifecycle,
        state.sent(encoded).0.lifecycle == state.lifecycle,
        state.written(succeeded).lifecycle == state.lifecycle,
        state.exited().0.lifecycle == state.lifecycle,
{
}

/// The tray icon and the lifecycle stay in step: a state in which the icon
/// is in the tray exactly while the controller is minimized is followed by
/// such a state, whatever the station and whatever it observed.
pub proof fn lemma_stations_keep_tray_in_step(
    state: PanelState,
    flags: TrayFlags,
    remember: bool,
    choice: Option<DialogChoice>,
    action: PanelAction,
    child: Option<ChildProcessHandle>,
    encoded: Seq<u8>,
    succeeded: bool,
)
    requires
        state.consistent(),
    ensures
        state.polled(flags).state.consistent(),
        state.close_asked(flags).state.consistent(),
        state.dialog_answered(remember, choice, flags).state.consistent(),
        state.acted(action).0.consistent(),
        state.overlay_spawned(child).consistent(),
        state.sent(encoded).0.consistent(),
        state.written(succeeded).consistent(),
        state.exited().0.consistent(),
{
}

/// The tray icon is created exactly by the stations that enter the tray and
/// destroyed exactly by those that leave it.
pub proof fn lemma_icon_follows_lifecycle(
    state: PanelState,
    flags: TrayFlags,
    remember: bool,
    choice: Option<DialogChoice>,
)
    requires
        state.consistent(),
    ensures
        state.polled(flags).commands.contains(Command::DestroyTrayIcon) == (state.lifecycle
            == Lifecycle::Minimized && state.polled(flags).state.lifecycle
            != Lifecycle::Minimized),
        !state.polled(flags).commands.contains(Command::CreateTrayIcon),
        state.close_asked(flags).commands.contains(Command::CreateTrayIcon) == (state.lifecycle
            != Lifecycle::Minimized && state.close_asked(flags).state.lifecycle
            == Lifecycle::Minimized),
        !state.close_asked(flags).commands.contains(Command::DestroyTrayIcon),
        state.dialog_answered(remember, choice, flags).commands.contains(Command::CreateTrayIcon)
            == (state.lifecycle != Lifecycle::Minimized && state.dialog_answered(
            remember,
            choice,
            flags,
        ).state.lifecycle == Lifecycle::Minimized),
        !state.dialog_answered(remember, choice, flags).commands.contains(
            Command::DestroyTrayIcon,
        ),
{
    let polled = state.polled(flags).commands;
    if polled.len() > 0 {
        assert(polled[0] == Command::DestroyTrayIcon);
    }
    let asked = state.close_asked(flags).commands;
    if asked.len() > 1 {
        assert(asked[1] == Command::CreateTrayIcon);
    }
    let answered = state.dialog_answered(remember, choice, flags).commands;
    if state.lifecycle == Lifecycle::ClosePending && choice == Some(DialogChoice::Minimize) {
        if remember {
            assert(answered[1] == Command::CreateTrayIcon);
        } else {
            assert(answered[0] == Command::CreateTrayIcon);
        }
    }
}

/// Once the close goes ahead, no station takes it back.
pub proof fn lemma_closing_is_final(
    state: PanelState,
    flags: TrayFlags,
    remember: bool,
    choice: Option<DialogChoice>,
)
    requires
        state.lifecycle == Lifecycle::Closing,
    ensures
        state.polled(flags) == state.idle(flags),
        state.close_asked(flags) == state.idle(flags),
        state.dialog_answered(remember, choice, flags) == state.idle(flags),
{
}

/// Restore requests coalesce: after any number of them, one or two, the
/// first poll restores the controller once, and the next poll finds nothing
/// to do.
pub proof fn lemma_restore_happens_once(state: PanelState, flags: TrayFlags)
    requires
        state.lifecycle == Lifecycle::Minimized,
        !flags.quit_requested,
    ensures
        flags.raised(TraySignal::Restore).raised(TraySignal::Restore) == flags.raised(
            TraySignal::Restore,
        ),
        ({
            let twice = flags.raised(TraySignal::Restore).raised(TraySignal::Restore);
            let first = state.polled(twice);
            let second = first.state.polled(first.flags);
            &&& first.state.lifecycle == Lifecycle::Running
            &&& first.commands == restore_commands()
            &&& first.flags == TrayFlags::cleared()
            &&& second == first.state.idle(first.flags)
        }),
{
}

/// The same of whole frames: with two restore requests raised before it, a
/// frame that begins minimized restores the controller once, whatever was
/// asked of the window: the icon leaves the tray, both flags are dropped, and
/// the window is shown and focused once each. The frame after it, with
/// nothing new asked, does nothing.
pub proof fn lemma_frame_restores_once(state: PanelState, flags: TrayFlags, close_requested: bool)
    requires
        state.lifecycle == Lifecycle::Minimized,
        !flags.quit_requested,
    ensures
        ({
            let twice = flags.raised(TraySignal::Restore).raised(TraySignal::Restore);
            let first = state.updated(twice, close_requested);
            let second = first.state.updated(first.flags, false);
            &&& first.state.lifecycle == Lifecycle::Running
            &&& !first.state.tray.active
            &&& first.flags == TrayFlags::cleared()
            &&& first.commands == seq![
                Command::DestroyTrayIcon,
                Command::ShowWindow,
                Command::FocusWindow,
            ]
            &&& second == first.state.idle(first.flags)
        }),
{
}

/// Every opening of a frame keeps to the edges of the lifecycle and keeps
/// the tray icon in step with it.
pub proof fn lemma_frames_follow_lifecycle(
    state: PanelState,
    flags: TrayFlags,
    close_requested: bool,
)
    ensures
        lifecycle_edge(state.lifecycle, state.updated(flags, close_requested).state.lifecycle),
        state.consistent() ==> state.updated(flags, close_requested).state.consistent(),
{
}

/// A quit request from the tray goes before a restore request, takes the
/// icon out of the tray before it closes the window, and closes whatever
/// the close policy is.
pub proof fn lemma_tray_quit_restores_then_closes(state: PanelState, flags: TrayFlags)
    requires
        state.lifecycle == Lifecycle::Minimized,
        flags.quit_requested,
    ensures
        state.polled(flags).state.lifecycle == Lifecycle::Closing,
        state.polled(flags).flags == TrayFlags::cleared(),
        state.polled(flags).commands == seq![
            Command::DestroyTrayIcon,
            Command::ShowWindow,
            Command::FocusWindow,
            Command::Close,
        ],
        state.polled(flags).state.close_asked(TrayFlags::cleared()).commands == Seq::<
            Command,
        >::empty(),
{
    assert(restore_commands().push(Command::Close) =~= seq![
        Command::DestroyTrayIcon,
        Command::ShowWindow,
        Command::FocusWindow,
        Command::Close,
    ]);
}

/// The polling thread is started once: the first time the controller goes
/// into the tray, and never again.
pub proof fn lemma_poller_starts_once(state: PanelState)
    ensures
        state.minimized().commands.contains(Command::SpawnTrayPoller)
            == !state.tray.poller_started,
        state.minimized().state.tray.poller_started,
        state.minimized().state.restored().state.tray.poller_started,
        !state.minimized().state.minimized().commands.contains(Command::SpawnTrayPoller),
{
    let first = minimize_commands(state.tray.poller_started);
    if state.tray.poller_started {
        assert(first[0] == Command::CreateTrayIcon);
        assert(first[1] == Command::HideWindow);
    } else {
        assert(first[1] == Command::SpawnTrayPoller);
    }
    let again = minimize_commands(true);
    assert(again[0] == Command::CreateTrayIcon);
    assert(again[1] == Command::HideWindow);
}

/// The overlay does not outlive the controller: at exit the supervised
/// overlay, and no other process, is killed, and none is supervised
/// afterwards. The same holds when the overlay is hidden.
pub proof fn lemma_overlay_is_killed(state: PanelState)
    ensures
        state.exited().0.child.is_none(),
        state.acted(PanelAction::HideOverlay).0.child.is_none(),
        state.child matches Some(child) ==> state.exited().1 == seq![Command::KillOverlay(child)]
            && state.acted(PanelAction::HideOverlay).1 == seq![Command::KillOverlay(child)],
        state.child.is_none() ==> state.exited().1 == Seq::<Command>::empty(),
{
}

/// Sending one configuration twice in a row to a running overlay writes one
/// line.
pub proof fn lemma_second_send_is_silent(state: PanelState, encoded: Seq<u8>)
    ensures
        state.sent(encoded).0.sent(encoded).1.is_none(),
        state.sent(encoded).0.sent(encoded).0 == state.sent(encoded).0,
        state.child.is_some() && state.prev_config != Some(encoded) ==> state.sent(encoded).1
            == Some(encoded.push(NEWLINE)),
{
}

/// A new overlay is told the configuration even if it did not change: the
/// first send after a spawn writes a line.
pub proof fn lemma_new_overlay_is_told(
    state: PanelState,
    child: ChildProcessHandle,
    encoded: Seq<u8>,
)
    ensures
        state.overlay_spawned(Some(child)).sent(encoded).1 == Some(encoded.push(NEWLINE)),
{
}

} // verus!
