//! What the shell decides on each event, before anything is done: the
//! dispatch from event shape or menu identifier to a response, and the window
//! operations that each response stands for.

use vstd::prelude::*;
use crate::event::{TrayEvent, WindowEvent};
use crate::names::{same_text, EXIT_ID, HIDE_ID};
use crate::window::WindowOp;

verus! {

/// The shell's answer to one event. The host carries it out; every window
/// operation in it is best effort, and a window that cannot be found is
/// passed over in silence.
#[derive(Clone, Copy, Debug, PartialEq, Eq, Structural)]
pub enum Response {
    /// Bring the main window back on screen and give it focus.
    RestoreMain,
    /// Hide the main window; the process keeps running.
    HideMain,
    /// Cancel the close that the event's window was asked for, and hide that
    /// window instead.
    HideInsteadOfClose,
    /// Give the main window focus.
    FocusMain,
    /// End the process with [`crate::names::EXIT_CODE`].
    Exit,
    /// The event is none that the shell acts on: it is noted and ignored.
    Unhandled,
}

/// What a response is aimed at.
#[derive(Clone, Copy, Debug, PartialEq, Eq, Structural)]
pub enum Target {
    /// The process itself.
    Process,
    /// The main window, if there is one.
    MainWindow,
    /// The window that the event came from.
    EventWindow,
    /// Nothing at all.
    Nothing,
}

impl Response {
    /// The response to a tray event: a left click raised on release restores
    /// the main window, and nothing else is acted on.
    pub open spec fn for_tray(event: TrayEvent) -> Response {
        if event.is_left_release() {
            Response::RestoreMain
        } else {
            Response::Unhandled
        }
    }

    /// The response to the activation of the menu entry `id`.
    pub open spec fn for_menu(id: Seq<char>) -> Response {
        if id == HIDE_ID@ {
            Response::HideMain
        } else if id == EXIT_ID@ {
            Response::Exit
        } else {
            Response::Unhandled
        }
    }

    /// The response to a window event: a close request is turned into a
    /// hide, and nothing else is acted on.
    pub open spec fn for_window(event: WindowEvent) -> Response {
        if event == WindowEvent::CloseRequested {
            Response::HideInsteadOfClose
        } else {
            Response::Unhandled
        }
    }

    /// The response of a running instance to the launch of a second one.
    pub open spec fn for_second_instance() -> Response {
        Response::FocusMain
    }

    /// What this response is aimed at.
    pub open spec fn aimed_at(self) -> Target {
        match self {
            Response::RestoreMain => Target::MainWindow,
            Response::HideMain => Target::MainWindow,
            Response::FocusMain => Target::MainWindow,
            Response::HideInsteadOfClose => Target::EventWindow,
            Response::Exit => Target::Process,
            Response::Unhandled => Target::Nothing,
        }
    }

    /// The window operations that this response stands for, in the order in
    /// which they are carried out, on a window that is minimized or not.
    pub open spec fn window_ops(self, minimized: bool) -> Seq<WindowOp> {
        match self {
            Response::RestoreMain => if minimized {
                seq![WindowOp::Unminimize, WindowOp::Show, WindowOp::SetFocus]
            } else {
                seq![WindowOp::Show, WindowOp::SetFocus]
            },
            Response::HideMain => seq![WindowOp::Hide],
            Response::HideInsteadOfClose => seq![WindowOp::Hide],
            Response::FocusMain => seq![WindowOp::SetFocus],
            Response::Exit => Seq::empty(),
            Response::Unhandled => Seq::empty(),
        }
    }

    /// Whether the operations of this response depend on the window being
    /// minimized, so that the host has to ask the window first.
    pub open spec fn reads_minimized(self) -> bool {
        self == Response::RestoreMain
    }

    /// Whether the host must cancel the window's default close action.
    pub open spec fn cancels_close(self) -> bool {
        self == Response::HideInsteadOfClose
    }

    /// Whether this response ends the process.
    pub open spec fn ends_process(self) -> bool {
        self == Response::Exit
    }
}

/// Decides what to do about a tray event.
pub fn respond_to_tray(event: &TrayEvent) -> (r: Response)
    ensures
        r == Response::for_tray(*event),
{
    if event.left_release() {
        Response::RestoreMain
    } else {
        Response::Unhandled
    }
}

/// Decides what to do about the activation of the menu entry `id`.
pub fn respond_to_menu(id: &str) -> (r: Response)
    ensures
        r == Response::for_menu(id@),
{
    if same_text(id, HIDE_ID) {
        Response::HideMain
    } else if same_text(id, EXIT_ID) {
        Response::Exit
    } else {
        Response::Unhandled
    }
}

/// Decides what to do about a window event.
pub fn respond_to_window(event: &WindowEvent) -> (r: Response)
    ensures
        r == Response::for_window(*event),
{
    if event.close_requested() {
        Response::HideInsteadOfClose
    } else {
        Response::Unhandled
    }
}

/// Decides what a running instance does when a second one is launched. The
/// arguments and working directory of that launch play no part.
pub fn respond_to_second_instance() -> (r: Response)
    ensures
        r == Response::for_second_instance(),
{
    Response::FocusMain
}

/// Lists the window operations that `response` stands for, in order, for a
/// window that is minimized or not.
pub fn window_ops(response: Response, minimized: bool) -> (ops: Vec<WindowOp>)
    ensures
        ops@ == response.window_ops(minimized),
{
    let mut ops: Vec<WindowOp> = Vec::new();
    match response {
        Response::RestoreMain => {
            if minimized {
                ops.push(WindowOp::Unminimize);
            }
            ops.push(WindowOp::Show);
            ops.push(WindowOp::SetFocus);
        },
        Response::HideMain => {
            ops.push(WindowOp::Hide);
        },
        Response::HideInsteadOfClose => {
            ops.push(WindowOp::Hide);
        },
        Response::FocusMain => {
            ops.push(WindowOp::SetFocus);
        },
        Response::Exit => {},
        Response::Unhandled => {},
    }
    assert(ops@ =~= response.window_ops(minimized));
    ops
}

/// Lists the window operations that `response` stands for once the host has
/// asked the window whether it is minimized. `answer` is what the window said;
/// it is `None` where the window was not asked or gave no answer, and the
/// window then counts as not minimized.
pub fn window_ops_after_query(response: Response, answer: Option<bool>) -> (ops: Vec<WindowOp>)
    ensures
        ops@ == response.window_ops(answer == Some(true)),
{
    let minimized = match answer {
        Some(m) => m,
        None => false,
    };
    window_ops(response, minimized)
}

/// Says what `response` is aimed at: the process, the main window, the window
/// that the event came from, or nothing.
pub fn target(response: Response) -> (t: Target)
    ensures
        t == response.aimed_at(),
{
    match response {
        Response::RestoreMain => Target::MainWindow,
        Response::HideMain => Target::MainWindow,
        Response::FocusMain => Target::MainWindow,
        Response::HideInsteadOfClose => Target::EventWindow,
        Response::Exit => Target::Process,
        Response::Unhandled => Target::Nothing,
    }
}

/// Whether the host has to ask the window if it is minimized before it lists
/// the operations of `response`.
pub fn reads_minimized(response: Response) -> (b: bool)
    ensures
        b == response.reads_minimized(),
        !b ==> response.window_ops(true) == response.window_ops(false),
{
    match response {
        Response::RestoreMain => true,
        _ => false,
    }
}

/// Whether the host must cancel the default close action of the event's
/// window before anything else.
pub fn cancels_close(response: Response) -> (b: bool)
    ensures
        b == response.cancels_close(),
{
    match response {
        Response::HideInsteadOfClose => true,
        _ => false,
    }
}

} // verus!
