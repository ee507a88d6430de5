//! What holds of the shell whatever its state and whatever the host sends.

use vstd::prelude::*;
use crate::event::{MouseButton, MouseButtonState, TrayEvent, WindowEvent};
use crate::menu::is_tray_menu;
use crate::menu::MenuEntry;
use crate::names::{EXIT_CODE, EXIT_ID, HIDE_ID, MAIN_WINDOW};
use crate::response::{Response, Target};
use crate::shell::{Event, Shell};
use crate::startup::{SetupStep, Startup};
use crate::window::{Visibility, Window, WindowOp};

verus! {

/// A left click on the tray icon, raised when the button is let go.
pub open spec fn left_click() -> TrayEvent {
    TrayEvent::Click { button: MouseButton::Left, button_state: MouseButtonState::Up }
}

/// Whether `event` is a close request for the main window.
pub open spec fn is_close_request_on_main(event: Event) -> bool {
    event matches Event::Window(label, e) && label@ == MAIN_WINDOW@ && e
        == WindowEvent::CloseRequested
}

/// Whether every event of `events` is a close request for the main window.
pub open spec fn all_close_requests_on_main(events: Seq<Event>) -> bool {
    forall|i: int| 0 <= i < events.len() ==> is_close_request_on_main(#[trigger] events[i])
}

/// The two menu identifiers are different texts.
pub proof fn lemma_menu_ids_differ()
    ensures
        HIDE_ID@ != EXIT_ID@,
{
    reveal_strlit("hide");
    reveal_strlit("exit");
    assert(HIDE_ID@[0] == 'h');
    assert(EXIT_ID@[0] == 'e');
}

/// Restoring a window leaves it visible and focused, whatever it was before.
pub proof fn lemma_restore_makes_visible(w: Window)
    ensures
        w.after_all(Response::RestoreMain.window_ops(w.visibility == Visibility::Minimized)) == (
        Window { visibility: Visibility::Visible, focused: true }),
{
    let ops = Response::RestoreMain.window_ops(w.visibility == Visibility::Minimized);
    if w.visibility == Visibility::Minimized {
        assert(ops.skip(1) =~= seq![WindowOp::Show, WindowOp::SetFocus]);
        assert(ops.skip(1).skip(1) =~= seq![WindowOp::SetFocus]);
        assert(ops.skip(1).skip(1).skip(1) =~= Seq::<WindowOp>::empty());
        reveal_with_fuel(Window::after_all, 4);
    } else {
        assert(ops.skip(1) =~= seq![WindowOp::SetFocus]);
        assert(ops.skip(1).skip(1) =~= Seq::<WindowOp>::empty());
        reveal_with_fuel(Window::after_all, 3);
    }
}

/// Carrying out a single operation through a list is carrying it out.
pub proof fn lemma_single_op(w: Window, op: WindowOp)
    ensures
        w.after_all(seq![op]) == w.after(op),
{
    assert(seq![op].skip(1) =~= Seq::<WindowOp>::empty());
    reveal_with_fuel(Window::after_all, 2);
}

/// Carrying out a list of operations is carrying out all but the last and
/// then the last.
pub proof fn lemma_after_all_ends_with_last(w: Window, ops: Seq<WindowOp>)
    requires
        ops.len() > 0,
    ensures
        w.after_all(ops) == w.after_all(ops.drop_last()).after(ops.last()),
    decreases ops.len(),
{
    if ops.len() == 1 {
        assert(ops.skip(1) =~= Seq::<WindowOp>::empty());
        assert(ops.drop_last() =~= Seq::<WindowOp>::empty());
        reveal_with_fuel(Window::after_all, 2);
    } else {
        let rest = ops.skip(1);
        lemma_after_all_ends_with_last(w.after(ops[0]), rest);
        assert(rest.drop_last() =~= ops.drop_last().skip(1));
        assert(ops.drop_last()[0] == ops[0]);
    }
}

/// Attempts that all take effect are the operations carried out.
pub proof fn lemma_attempts_that_take_effect(w: Window, ops: Seq<WindowOp>, took_effect: Seq<bool>)
    requires
        took_effect.len() >= ops.len(),
        forall|i: int| 0 <= i < ops.len() ==> took_effect[i],
    ensures
        w.after_attempts(ops, took_effect) == w.after_all(ops),
    decreases ops.len(),
{
    if ops.len() > 0 {
        lemma_attempts_that_take_effect(w, ops.drop_last(), took_effect);
        lemma_after_all_ends_with_last(w, ops);
    }
}

/// Attempts that all fail leave the window as it was.
pub proof fn lemma_attempts_that_fail(w: Window, ops: Seq<WindowOp>, took_effect: Seq<bool>)
    requires
        forall|i: int| 0 <= i < ops.len() && i < took_effect.len() ==> !took_effect[i],
    ensures
        w.after_attempts(ops, took_effect) == w,
    decreases ops.len(),
{
    if ops.len() > 0 {
        lemma_attempts_that_fail(w, ops.drop_last(), took_effect);
    }
}

/// Where the window answers truly and every operation takes effect, a
/// response attempted is the response carried out. No response holds more
/// than three operations, so three outcomes cover each.
pub proof fn lemma_attempt_that_succeeds(
    shell: Shell,
    response: Response,
    event_on_main: bool,
    took_effect: Seq<bool>,
)
    requires
        forall|i: int| 0 <= i < took_effect.len() ==> took_effect[i],
        took_effect.len() >= 3,
    ensures
        shell.main_window() matches Some(w) ==> shell.attempted(
            response,
            event_on_main,
            Some(w.visibility == Visibility::Minimized),
            took_effect,
        ) == shell.carried_out(response, event_on_main),
        forall|answer: Option<bool>|
            shell.main_window() is None ==> #[trigger] shell.attempted(
                response,
                event_on_main,
                answer,
                took_effect,
            ) == shell.carried_out(response, event_on_main),
{
    if let Some(w) = shell.main_window() {
        let minimized = w.visibility == Visibility::Minimized;
        lemma_attempts_that_take_effect(w, response.window_ops(minimized), took_effect);
    }
}

/// Failures are swallowed. Whatever the window answers, or if it gives no
/// answer, and whichever operations fail, a response that does not end the
/// process leaves it running, with a main window exactly if it had one; and
/// where every operation fails the shell is as it was.
pub proof fn lemma_failures_are_swallowed(
    shell: Shell,
    response: Response,
    event_on_main: bool,
    answer: Option<bool>,
    took_effect: Seq<bool>,
)
    requires
        shell is Running,
        response != Response::Exit,
    ensures
        shell.attempted(response, event_on_main, answer, took_effect) is Running,
        shell.attempted(response, event_on_main, answer, took_effect).exit_code() is None,
        shell.attempted(response, event_on_main, answer, took_effect).main_window() is Some
            <==> shell.main_window() is Some,
        (forall|i: int| 0 <= i < took_effect.len() ==> !took_effect[i]) ==> shell.attempted(
            response,
            event_on_main,
            answer,
            took_effect,
        ) == shell,
{
    if let Some(w) = shell.main_window() {
        if forall|i: int| 0 <= i < took_effect.len() ==> !took_effect[i] {
            lemma_attempts_that_fail(w, response.window_ops(answer == Some(true)), took_effect);
        }
    }
}

/// A left click whose question to the window fails still shows and focuses
/// the window if its operations take effect: a window that counts as not
/// minimized is shown and focused, and one that was minimized stays so.
pub proof fn lemma_restore_without_answer(w: Window)
    ensures
        w.after_all(Response::RestoreMain.window_ops(false)) == (Window {
            visibility: if w.visibility == Visibility::Minimized {
                Visibility::Minimized
            } else {
                Visibility::Visible
            },
            focused: true,
        }),
{
    let ops = Response::RestoreMain.window_ops(false);
    assert(ops.skip(1) =~= seq![WindowOp::SetFocus]);
    assert(ops.skip(1).skip(1) =~= Seq::<WindowOp>::empty());
    reveal_with_fuel(Window::after_all, 3);
}

/// Only the response `Exit` is aimed at the process, and only `Unhandled` at
/// nothing; the operations of a response do not depend on the window being
/// minimized unless the response restores it.
pub proof fn lemma_response_targets(response: Response)
    ensures
        response.aimed_at() == Target::Process <==> response == Response::Exit,
        response.aimed_at() == Target::Nothing <==> response == Response::Unhandled,
        response.aimed_at() == Target::EventWindow <==> response.cancels_close(),
        response.aimed_at() == Target::Process || response.aimed_at() == Target::Nothing
            ==> response.window_ops(true).len() == 0 && response.window_ops(false).len() == 0,
        !response.reads_minimized() ==> response.window_ops(true) == response.window_ops(false),
{
}

/// A left click on the tray icon leaves the main window visible and focused,
/// whether it was visible, hidden or minimized before, and the process
/// running; without a main window it changes nothing.
pub proof fn lemma_left_click_restores(shell: Shell)
    ensures
        shell.main_window() is Some ==> shell.after_tray(left_click()) == (Shell::Running {
            window: Some(Window { visibility: Visibility::Visible, focused: true }),
        }),
        shell.main_window() is None ==> shell.after_tray(left_click()) == shell,
{
    if shell.main_window() is Some {
        lemma_restore_makes_visible(shell.main_window().unwrap());
    }
}

/// A close request for the main window leaves that window hidden and without
/// focus, and the process running.
pub proof fn lemma_close_request_hides(shell: Shell)
    requires
        shell.main_window() is Some,
    ensures
        shell.after_window(MAIN_WINDOW@, WindowEvent::CloseRequested) == (Shell::Running {
            window: Some(Window { visibility: Visibility::Hidden, focused: false }),
        }),
        Response::for_window(WindowEvent::CloseRequested).cancels_close(),
{
    lemma_single_op(shell.main_window().unwrap(), WindowOp::Hide);
}

/// After any sequence of close requests for the main window, of whatever
/// length, the process still runs; and if there was at least one request and
/// a main window, that window is hidden.
pub proof fn lemma_close_requests_keep_hidden(shell: Shell, events: Seq<Event>)
    requires
        shell is Running,
        all_close_requests_on_main(events),
    ensures
        forall|i: int|
            0 <= i < events.len() ==> #[trigger] Shell::responses_to(events)[i]
                == Response::HideInsteadOfClose,
        shell.after_all(events) is Running,
        shell.after_all(events).exit_code() is None,
        shell.after_all(events).main_window() is Some <==> shell.main_window() is Some,
        events.len() > 0 && shell.main_window() is Some ==> shell.after_all(events).main_window()
            == Some(Window { visibility: Visibility::Hidden, focused: false }),
    decreases events.len(),
{
    if events.len() > 0 {
        let first = events[0];
        let rest = events.skip(1);
        assert(is_close_request_on_main(first));
        assert forall|i: int| 0 <= i < rest.len() implies is_close_request_on_main(
            #[trigger] rest[i],
        ) by {
            assert(rest[i] == events[i + 1]);
        }
        let next = shell.after(first);
        if shell.main_window() is Some {
            lemma_close_request_hides(shell);
        }
        lemma_close_requests_keep_hidden(next, rest);
        if rest.len() == 0 {
            assert(next.after_all(rest) == next);
        }
    }
}

/// The same, said of every moment on the way: after each request of the
/// sequence the process runs and the main window is hidden.
pub proof fn lemma_close_requests_always_hidden(shell: Shell, events: Seq<Event>, n: int)
    requires
        shell.main_window() is Some,
        all_close_requests_on_main(events),
        0 < n <= events.len(),
    ensures
        shell.after_all(events.take(n)).exit_code() is None,
        shell.after_all(events.take(n)).main_window() == Some(
            Window { visibility: Visibility::Hidden, focused: false },
        ),
{
    lemma_close_requests_keep_hidden(shell, events.take(n));
}

/// A close request for the main window followed by a left click on the tray
/// icon leaves the main window visible and focused.
pub proof fn lemma_close_then_left_click(shell: Shell)
    requires
        shell.main_window() is Some,
    ensures
        shell.after_window(MAIN_WINDOW@, WindowEvent::CloseRequested).after_tray(left_click())
            == (Shell::Running {
            window: Some(Window { visibility: Visibility::Visible, focused: true }),
        }),
{
    lemma_close_request_hides(shell);
    lemma_left_click_restores(shell.after_window(MAIN_WINDOW@, WindowEvent::CloseRequested));
}

/// Activating the menu entry `exit` ends the process with code 0, whatever the
/// state of the shell and of its window.
pub proof fn lemma_exit_ends_process(shell: Shell)
    ensures
        Response::for_menu(EXIT_ID@) == Response::Exit,
        shell.after_menu(EXIT_ID@) == Shell::Exited,
        shell.after_menu(EXIT_ID@).exit_code() == Some(0i32),
{
    lemma_menu_ids_differ();
}

/// Activating the menu entry `hide` leaves the main window hidden if there is
/// one, and changes nothing if there is none; the process runs on.
pub proof fn lemma_hide_entry(shell: Shell)
    ensures
        Response::for_menu(HIDE_ID@) == Response::HideMain,
        shell.main_window() is Some ==> shell.after_menu(HIDE_ID@) == (Shell::Running {
            window: Some(Window { visibility: Visibility::Hidden, focused: false }),
        }),
        shell.main_window() is None ==> shell.after_menu(HIDE_ID@) == shell,
{
    if shell.main_window() is Some {
        lemma_single_op(shell.main_window().unwrap(), WindowOp::Hide);
    }
}

/// The launch of a second instance creates no window: the main window that
/// exists stays as it is presented and takes focus, and where there is none
/// nothing changes. The process runs on if it ran.
pub proof fn lemma_second_instance_focuses(shell: Shell)
    ensures
        shell.main_window() is Some ==> shell.after_second_instance() == (Shell::Running {
            window: Some(
                Window { visibility: shell.main_window().unwrap().visibility, focused: true },
            ),
        }),
        shell.main_window() is None ==> shell.after_second_instance() == shell,
{
    if shell.main_window() is Some {
        lemma_single_op(shell.main_window().unwrap(), WindowOp::SetFocus);
    }
}

/// A tray event other than a left click raised on release, a window event
/// other than a close request, and a menu identifier other than `hide` and
/// `exit` are all unhandled and change nothing.
pub proof fn lemma_unhandled_changes_nothing(
    shell: Shell,
    tray: TrayEvent,
    id: Seq<char>,
    label: Seq<char>,
    window: WindowEvent,
)
    ensures
        !tray.is_left_release() ==> Response::for_tray(tray) == Response::Unhandled
            && shell.after_tray(tray) == shell,
        window != WindowEvent::CloseRequested ==> Response::for_window(window)
            == Response::Unhandled && shell.after_window(label, window) == shell,
        id != HIDE_ID@ && id != EXIT_ID@ ==> Response::for_menu(id) == Response::Unhandled
            && shell.after_menu(id) == shell,
{
}

/// An event for a window other than the main window leaves the shell as it
/// was, whatever the event.
pub proof fn lemma_other_windows_are_not_tracked(shell: Shell, label: Seq<char>, e: WindowEvent)
    requires
        label != MAIN_WINDOW@,
    ensures
        shell.after_window(label, e) == shell,
{
}

/// No event destroys or creates the main window: as long as the process runs
/// it has a main window after an event exactly if it had one before.
pub proof fn lemma_window_is_never_destroyed(shell: Shell, event: Event)
    ensures
        shell.after(event) is Running ==> (shell.after(event).main_window() is Some
            <==> shell.main_window() is Some),
{
}

/// The only event that ends a running process is the activation of the menu
/// entry `exit`; and a process that has ended stays so.
pub proof fn lemma_only_exit_ends_process(shell: Shell, event: Event)
    ensures
        shell is Running && shell.after(event) is Exited ==> (event matches Event::Menu(id)
            && id@ == EXIT_ID@),
        shell is Exited ==> shell.after(event) == Shell::Exited,
{
}

/// Each entry of the tray menu is one that the shell acts on: the first hides
/// the main window, the second ends the process.
pub proof fn lemma_menu_entries_are_handled(menu: Seq<MenuEntry>)
    requires
        is_tray_menu(menu),
    ensures
        Response::for_menu(menu[0].id@) == Response::HideMain,
        Response::for_menu(menu[1].id@) == Response::Exit,
{
    lemma_menu_ids_differ();
}

/// Startup that has come to an end, in whichever way, stays as it is: no step
/// is taken after a failure, after a hand-over or once the shell is ready.
pub proof fn lemma_settled_startup_stays(s: Startup, outcomes: Seq<bool>)
    requires
        !(s is Pending),
    ensures
        s.advanced_all(outcomes) == s,
    decreases outcomes.len(),
{
    if outcomes.len() > 0 {
        lemma_settled_startup_stays(s, outcomes.skip(1));
    }
}

/// Where another instance runs already, the launch is handed over and no
/// step of startup is taken, whatever would have become of the steps.
pub proof fn lemma_second_launch_takes_no_step(outcomes: Seq<bool>)
    ensures
        Startup::begun(true).advanced_all(outcomes) == Startup::HandedOver,
{
    lemma_settled_startup_stays(Startup::HandedOver, outcomes);
}

/// Startup fails fast: if the step pending now and the `k` steps after it are
/// reported in `outcomes`, the first `k` as succeeded and the next as failed,
/// startup is given up at that step, whatever is reported after it.
pub proof fn lemma_startup_fails_fast(step: SetupStep, outcomes: Seq<bool>, k: int)
    requires
        0 <= k < outcomes.len(),
        step.position() + k <= 3,
        forall|i: int| 0 <= i < k ==> outcomes[i],
        !outcomes[k],
    ensures
        Startup::Pending(step).advanced_all(outcomes) matches Startup::Aborted(failed)
            && failed.position() == step.position() + k,
    decreases k,
{
    let rest = outcomes.skip(1);
    if k == 0 {
        lemma_settled_startup_stays(Startup::Aborted(step), rest);
    } else {
        assert(outcomes[0]);
        let next = step.following().unwrap();
        assert forall|i: int| 0 <= i < k - 1 implies rest[i] by {
            assert(rest[i] == outcomes[i + 1]);
        }
        lemma_startup_fails_fast(next, rest, k - 1);
    }
}

/// Startup makes the shell ready exactly if no other instance runs and each
/// of the four steps succeeds.
pub proof fn lemma_ready_iff_every_step_succeeds(another_instance_runs: bool, outcomes: Seq<bool>)
    requires
        outcomes.len() == 4,
    ensures
        Startup::begun(another_instance_runs).advanced_all(outcomes) == Startup::Ready <==> (
        !another_instance_runs && forall|i: int| 0 <= i < 4 ==> outcomes[i]),
{
    if another_instance_runs {
        lemma_second_launch_takes_no_step(outcomes);
    } else if exists|k: int| 0 <= k < 4 && !outcomes[k] {
        let k = choose|k: int|
            0 <= k < 4 && !outcomes[k] && forall|i: int| 0 <= i < k ==> outcomes[i];
        lemma_startup_fails_fast(SetupStep::RegisterServices, outcomes, k);
    } else {
        let s1 = outcomes.skip(1);
        let s2 = s1.skip(1);
        let s3 = s2.skip(1);
        let s4 = s3.skip(1);
        assert(outcomes[0] && s1[0] && s2[0] && s3[0]);
        assert(s4.len() == 0);
        reveal_with_fuel(Startup::advanced_all, 5);
    }
}

} // verus!
