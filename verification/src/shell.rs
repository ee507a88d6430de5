//! The shell itself: one context object that stands for the running process
//! and its main window, and that every event handler is given. The handlers
//! follow the window as it is when each operation asked of it takes effect;
//! [`Shell::attempt`] follows it where the host reports that some did not.

use vstd::prelude::*;
use crate::event::{TrayEvent, WindowEvent};
use crate::names::{is_main_window, EXIT_CODE, MAIN_WINDOW};
use crate::response::{
    respond_to_menu, respond_to_second_instance, respond_to_tray, respond_to_window, target,
    window_ops_after_query, Response, Target,
};
use crate::window::{Visibility, Window};

verus! {

/// The process and its main window. While the process runs it has at most one
/// main window, which the shell hides and shows but never destroys; once the
/// process has ended nothing is left of either.
#[derive(Clone, Copy, Debug, PartialEq, Eq, Structural)]
pub enum Shell {
    Running { window: Option<Window> },
    Exited,
}

/// One event from one of the three streams that the host delivers.
#[derive(Clone, Debug, PartialEq, Eq)]
pub enum Event {
    /// Something happened to the tray icon.
    Tray(TrayEvent),
    /// The menu entry with this identifier was activated.
    Menu(String),
    /// Something happened to the window with this label.
    Window(String, WindowEvent),
}

impl Shell {
    /// The main window, if the process runs and has one.
    pub open spec fn main_window(self) -> Option<Window> {
        match self {
            Shell::Running { window } => window,
            Shell::Exited => None,
        }
    }

    /// The code with which the process has ended, if it has.
    pub open spec fn exit_code(self) -> Option<i32> {
        match self {
            Shell::Running { .. } => None,
            Shell::Exited => Some(EXIT_CODE),
        }
    }

    /// The shell after the window operations of `response` have been carried
    /// out on the main window; without a main window nothing changes.
    pub open spec fn with_main_after(self, response: Response) -> Shell {
        match self {
            Shell::Running { window: Some(w) } => Shell::Running {
                window: Some(
                    w.after_all(response.window_ops(w.visibility == Visibility::Minimized)),
                ),
            },
            _ => self,
        }
    }

    /// The shell after `response` has been carried out. `event_on_main` says
    /// whether the window that the event came from is the main window; it
    /// counts only for a response aimed at that window.
    pub open spec fn carried_out(self, response: Response, event_on_main: bool) -> Shell {
        match response.aimed_at() {
            Target::Process => Shell::Exited,
            Target::MainWindow => self.with_main_after(response),
            Target::EventWindow => if event_on_main {
                self.with_main_after(response)
            } else {
                self
            },
            Target::Nothing => self,
        }
    }

    /// The shell after `response` has been attempted and the host has said
    /// how it went: `answer` is what the window said on being asked whether
    /// it is minimized (`None` where it was not asked or gave no answer), and
    /// `took_effect` says of each window operation whether it took effect.
    /// Nothing that fails is passed on: the shell goes on from whatever
    /// became of the window.
    pub open spec fn attempted(
        self,
        response: Response,
        event_on_main: bool,
        answer: Option<bool>,
        took_effect: Seq<bool>,
    ) -> Shell {
        let reaches_main = match response.aimed_at() {
            Target::MainWindow => true,
            Target::EventWindow => event_on_main,
            _ => false,
        };
        if response.aimed_at() == Target::Process {
            Shell::Exited
        } else {
            match self {
                Shell::Running { window: Some(w) } if reaches_main => Shell::Running {
                    window: Some(
                        w.after_attempts(response.window_ops(answer == Some(true)), took_effect),
                    ),
                },
                _ => self,
            }
        }
    }

    /// The shell after a tray event.
    pub open spec fn after_tray(self, event: TrayEvent) -> Shell {
        self.carried_out(Response::for_tray(event), false)
    }

    /// The shell after the activation of the menu entry `id`.
    pub open spec fn after_menu(self, id: Seq<char>) -> Shell {
        self.carried_out(Response::for_menu(id), false)
    }

    /// The shell after an event of the window named `label`.
    pub open spec fn after_window(self, label: Seq<char>, event: WindowEvent) -> Shell {
        self.carried_out(Response::for_window(event), label == MAIN_WINDOW@)
    }

    /// The shell after the launch of a second instance.
    pub open spec fn after_second_instance(self) -> Shell {
        self.carried_out(Response::for_second_instance(), false)
    }

    /// The response to `event`; it does not depend on the shell's state.
    pub open spec fn response_to(event: Event) -> Response {
        match event {
            Event::Tray(e) => Response::for_tray(e),
            Event::Menu(id) => Response::for_menu(id@),
            Event::Window(_, e) => Response::for_window(e),
        }
    }

    /// The shell after `event`.
    pub open spec fn after(self, event: Event) -> Shell {
        match event {
            Event::Tray(e) => self.after_tray(e),
            Event::Menu(id) => self.after_menu(id@),
            Event::Window(label, e) => self.after_window(label@, e),
        }
    }

    /// The shell after the events of `events`, first to last.
    pub open spec fn after_all(self, events: Seq<Event>) -> Shell
        decreases events.len(),
    {
        if events.len() == 0 {
            self
        } else {
            self.after(events[0]).after_all(events.skip(1))
        }
    }

    /// The responses to the events of `events`, one for each, in order.
    pub open spec fn responses_to(events: Seq<Event>) -> Seq<Response> {
        Seq::new(events.len(), |i: int| Shell::response_to(events[i]))
    }

    /// A running process with the given main window, or with none.
    pub fn new(window: Option<Window>) -> (shell: Shell)
        ensures
            shell == (Shell::Running { window }),
    {
        Shell::Running { window }
    }

    /// The main window, if the process runs and has one.
    pub fn window(&self) -> (w: Option<Window>)
        ensures
            w == self.main_window(),
    {
        match self {
            Shell::Running { window } => *window,
            Shell::Exited => None,
        }
    }

    /// Whether the process still runs.
    pub fn is_running(&self) -> (b: bool)
        ensures
            b == (self.exit_code() is None),
            b == (*self is Running),
    {
        match self {
            Shell::Running { .. } => true,
            Shell::Exited => false,
        }
    }

    /// The code with which the process has ended, if it has.
    pub fn exited_with(&self) -> (code: Option<i32>)
        ensures
            code == self.exit_code(),
    {
        match self {
            Shell::Running { .. } => None,
            Shell::Exited => Some(EXIT_CODE),
        }
    }

    /// Carries out `response`. `event_on_main` says whether the window that the
    /// event came from is the main window. A response aimed at another
    /// window, or at a main window that does not exist, changes nothing.
    pub fn carry_out(&mut self, response: Response, event_on_main: bool)
        ensures
            *final(self) == old(self).carried_out(response, event_on_main),
    {
        let reaches_main = match target(response) {
            Target::Process => {
                *self = Shell::Exited;
                false
            },
            Target::MainWindow => true,
            Target::EventWindow => event_on_main,
            Target::Nothing => false,
        };
        if reaches_main {
            match self.window() {
                Some(w) => {
                    let mut w = w;
                    let ops = window_ops_after_query(response, Some(w.is_minimized()));
                    w.apply_all(&ops);
                    *self = Shell::Running { window: Some(w) };
                },
                None => {},
            }
        }
    }

    /// Attempts `response` as the host reports it: with the window's answer
    /// to the question whether it is minimized, if it gave one, and with the
    /// outcome of each window operation. A failure is dropped, and the
    /// process runs on unless the response itself ends it.
    pub fn attempt(
        &mut self,
        response: Response,
        event_on_main: bool,
        answer: Option<bool>,
        took_effect: &Vec<bool>,
    )
        ensures
            *final(self) == old(self).attempted(response, event_on_main, answer, took_effect@),
    {
        let reaches_main = match target(response) {
            Target::Process => {
                *self = Shell::Exited;
                false
            },
            Target::MainWindow => true,
            Target::EventWindow => event_on_main,
            Target::Nothing => false,
        };
        if reaches_main {
            match self.window() {
                Some(w) => {
                    let mut w = w;
                    let ops = window_ops_after_query(response, answer);
                    w.attempt_all(&ops, took_effect);
                    *self = Shell::Running { window: Some(w) };
                },
                None => {},
            }
        }
    }

    /// Handles a tray event: a left click raised on release brings the main
    /// window back (out of the minimized state if need be), shows it and
    /// gives it focus; any other tray event changes nothing.
    pub fn on_tray_event(&mut self, event: &TrayEvent) -> (r: Response)
        ensures
            r == Response::for_tray(*event),
            *final(self) == old(self).after_tray(*event),
    {
        let r = respond_to_tray(event);
        self.carry_out(r, false);
        r
    }

    /// Handles the activation of a menu entry: `hide` hides the main window if
    /// there is one, `exit` ends the process, any other identifier changes
    /// nothing.
    pub fn on_menu_event(&mut self, id: &str) -> (r: Response)
        ensures
            r == Response::for_menu(id@),
            *final(self) == old(self).after_menu(id@),
    {
        let r = respond_to_menu(id);
        self.carry_out(r, false);
        r
    }

    /// Handles an event of the window named `label`: a close request is
    /// cancelled and the window hidden instead; any other window event
    /// changes nothing.
    pub fn on_window_event(&mut self, label: &str, event: &WindowEvent) -> (r: Response)
        ensures
            r == Response::for_window(*event),
            *final(self) == old(self).after_window(label@, *event),
    {
        let r = respond_to_window(event);
        let on_main = is_main_window(label);
        self.carry_out(r, on_main);
        r
    }

    /// Handles the launch of a second instance: the main window of this one
    /// takes focus, and no window is created. Without a main window nothing
    /// changes.
    pub fn on_second_instance(&mut self) -> (r: Response)
        ensures
            r == Response::for_second_instance(),
            *final(self) == old(self).after_second_instance(),
    {
        let r = respond_to_second_instance();
        self.carry_out(r, false);
        r
    }

    /// Hands `event` to the handler of its stream.
    pub fn handle(&mut self, event: &Event) -> (r: Response)
        ensures
            r == Shell::response_to(*event),
            *final(self) == old(self).after(*event),
    {
        match event {
            Event::Tray(e) => self.on_tray_event(e),
            Event::Menu(id) => self.on_menu_event(id.as_str()),
            Event::Window(label, e) => self.on_window_event(label.as_str(), e),
        }
    }

    /// Handles the events in order, one at a time and each to completion, and
    /// returns the response to each.
    pub fn handle_all(&mut self, events: &Vec<Event>) -> (responses: Vec<Response>)
        ensures
            responses@ == Shell::responses_to(events@),
            *final(self) == old(self).after_all(events@),
    {
        let mut responses: Vec<Response> = Vec::new();
        let mut i: usize = 0;
        assert(events@.skip(0) =~= events@);
        while i < events.len()
            invariant
                i <= events.len(),
                responses@.len() == i,
                forall|k: int| 0 <= k < i ==> responses@[k] == Shell::response_to(events@[k]),
                self.after_all(events@.skip(i as int)) == old(self).after_all(events@),
            decreases events.len() - i,
        {
            proof {
                let rest = events@.skip(i as int);
                assert(rest[0] == events@[i as int]);
                assert(rest.skip(1) =~= events@.skip(i as int + 1));
            }
            let r = self.handle(&events[i]);
            responses.push(r);
            i = i + 1;
        }
        assert(responses@ =~= Shell::responses_to(events@));
        responses
    }
}

} // verus!
