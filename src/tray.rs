use vstd::prelude::*;

verus! {

/// A selection from the tray menu.
#[derive(Clone, Copy, PartialEq, Eq, Debug, Structural)]
pub enum TrayCommand {
    ShowWindow,
    HideWindow,
    Exit,
}

/// Identifier of the tray entry for each command.
pub open spec fn menu_id_spec(cmd: TrayCommand) -> Seq<char> {
    match cmd {
        TrayCommand::ShowWindow => "show_window"@,
        TrayCommand::HideWindow => "hide_window"@,
        TrayCommand::Exit => "exit"@,
    }
}

/// Label shown on the tray entry for each command.
pub open spec fn label_spec(cmd: TrayCommand) -> Seq<char> {
    match cmd {
        TrayCommand::ShowWindow => "Show Window"@,
        TrayCommand::HideWindow => "Hide Window"@,
        TrayCommand::Exit => "Exit"@,
    }
}

/// The command that a tray entry identifier stands for, if any.
pub open spec fn command_of_id(id: Seq<char>) -> Option<TrayCommand> {
    if id == menu_id_spec(TrayCommand::ShowWindow) {
        Some(TrayCommand::ShowWindow)
    } else if id == menu_id_spec(TrayCommand::HideWindow) {
        Some(TrayCommand::HideWindow)
    } else if id == menu_id_spec(TrayCommand::Exit) {
        Some(TrayCommand::Exit)
    } else {
        None
    }
}

impl TrayCommand {
    /// The tray entry identifier of this command.
    pub fn menu_id(&self) -> (r: &'static str)
        ensures
            r@ == menu_id_spec(*self),
    {
        match self {
            TrayCommand::ShowWindow => "show_window",
            TrayCommand::HideWindow => "hide_window",
            TrayCommand::Exit => "exit",
        }
    }

    /// The label of this command's tray entry.
    pub fn label(&self) -> (r: &'static str)
        ensures
            r@ == label_spec(*self),
    {
        match self {
            TrayCommand::ShowWindow => "Show Window",
            TrayCommand::HideWindow => "Hide Window",
            TrayCommand::Exit => "Exit",
        }
    }

    /// The command for a tray entry identifier; `None` for any other entry.
    pub fn from_menu_id(id: &str) -> (r: Option<TrayCommand>)
        ensures
            r == command_of_id(id@),
    {
        let id = id.to_owned();
        if id == "show_window".to_owned() {
            Some(TrayCommand::ShowWindow)
        } else if id == "hide_window".to_owned() {
            Some(TrayCommand::HideWindow)
        } else if id == "exit".to_owned() {
            Some(TrayCommand::Exit)
        } else {
            None
        }
    }
}

/// Every command's entry identifier reads back as that command.
pub proof fn lemma_menu_id_round_trip(cmd: TrayCommand)
    ensures
        command_of_id(menu_id_spec(cmd)) == Some(cmd),
{
    reveal_strlit("show_window");
    reveal_strlit("hide_window");
    reveal_strlit("exit");
    assert("show_window"@[0] != "hide_window"@[0]);
    assert("show_window"@.len() != "exit"@.len());
    assert("hide_window"@.len() != "exit"@.len());
}

/// State of the lifecycle controller.
#[derive(Clone, Copy, PartialEq, Eq, Debug, Structural)]
pub enum LifecycleState {
    WindowVisible,
    WindowHidden,
    /// The process is terminating; no command leaves this state.
    Exited,
}

/// The operation that the runner performs on the window or the process.
#[derive(Clone, Copy, PartialEq, Eq, Debug, Structural)]
pub enum WindowOp {
    Show,
    Hide,
    /// End the process at once, without flushing pending deliveries.
    Terminate,
}

/// The window handle no longer names a live window.
#[derive(Clone, Copy, PartialEq, Eq, Debug, Structural)]
pub struct StaleHandleError;

/// The controller's transition on a command, given whether the window
/// still exists: `Exit` terminates from any state; showing or hiding a
/// window that is gone fails and changes nothing.
pub open spec fn transition(
    s: LifecycleState,
    cmd: TrayCommand,
    window_present: bool,
) -> (LifecycleState, Result<WindowOp, StaleHandleError>) {
    if s == LifecycleState::Exited || cmd == TrayCommand::Exit {
        (LifecycleState::Exited, Ok(WindowOp::Terminate))
    } else if !window_present {
        (s, Err(StaleHandleError))
    } else if cmd == TrayCommand::ShowWindow {
        (LifecycleState::WindowVisible, Ok(WindowOp::Show))
    } else {
        (LifecycleState::WindowHidden, Ok(WindowOp::Hide))
    }
}

/// Maps tray commands to window visibility changes or process termination.
pub struct LifecycleController {
    state: LifecycleState,
}

impl LifecycleController {
    /// The controller's abstract state.
    pub closed spec fn state_spec(&self) -> LifecycleState {
        self.state
    }

    /// A controller for a window that starts visible or hidden.
    pub fn new(visible: bool) -> (r: LifecycleController)
        ensures
            r.state_spec() == (if visible {
                LifecycleState::WindowVisible
            } else {
                LifecycleState::WindowHidden
            }),
    {
        if visible {
            LifecycleController { state: LifecycleState::WindowVisible }
        } else {
            LifecycleController { state: LifecycleState::WindowHidden }
        }
    }

    /// The current state.
    pub fn state(&self) -> (r: LifecycleState)
        ensures
            r == self.state_spec(),
    {
        self.state
    }

    /// Handles one tray command; `window_present` says whether the window
    /// handle still names a live window.
    pub fn handle(&mut self, cmd: TrayCommand, window_present: bool) -> (r: Result<
        WindowOp,
        StaleHandleError,
    >)
        ensures
            (final(self).state_spec(), r) == transition(old(self).state_spec(), cmd, window_present),
    {
        if self.state == LifecycleState::Exited || cmd == TrayCommand::Exit {
            self.state = LifecycleState::Exited;
            Ok(WindowOp::Terminate)
        } else if !window_present {
            Err(StaleHandleError)
        } else if cmd == TrayCommand::ShowWindow {
            self.state = LifecycleState::WindowVisible;
            Ok(WindowOp::Show)
        } else {
            self.state = LifecycleState::WindowHidden;
            Ok(WindowOp::Hide)
        }
    }
}

/// Showing twice in a row leaves the window visible, with no error either
/// time; hiding twice leaves it hidden, likewise.
pub proof fn lemma_show_hide_idempotent(s: LifecycleState)
    requires
        s != LifecycleState::Exited,
    ensures
        ({
            let (s1, r1) = transition(s, TrayCommand::ShowWindow, true);
            let (s2, r2) = transition(s1, TrayCommand::ShowWindow, true);
            &&& r1 == Ok::<WindowOp, StaleHandleError>(WindowOp::Show)
            &&& r2 == Ok::<WindowOp, StaleHandleError>(WindowOp::Show)
            &&& s1 == LifecycleState::WindowVisible
            &&& s2 == LifecycleState::WindowVisible
        }),
        ({
            let (s1, r1) = transition(s, TrayCommand::HideWindow, true);
            let (s2, r2) = transition(s1, TrayCommand::HideWindow, true);
            &&& r1 == Ok::<WindowOp, StaleHandleError>(WindowOp::Hide)
            &&& r2 == Ok::<WindowOp, StaleHandleError>(WindowOp::Hide)
            &&& s1 == LifecycleState::WindowHidden
            &&& s2 == LifecycleState::WindowHidden
        }),
{
}

/// `Exit` terminates from every state, whether or not the window is still
/// there, and nothing leaves the exited state.
pub proof fn lemma_exit_terminates(s: LifecycleState, cmd: TrayCommand, window_present: bool)
    ensures
        transition(s, TrayCommand::Exit, window_present) == (
            LifecycleState::Exited,
            Ok::<WindowOp, StaleHandleError>(WindowOp::Terminate),
        ),
        transition(LifecycleState::Exited, cmd, window_present).0 == LifecycleState::Exited,
{
}

} // verus!
