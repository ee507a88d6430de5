use shell_controller::window::{Visibility, Window, WindowOp};

fn window(visibility: Visibility, focused: bool) -> Window {
    Window::new(visibility, focused)
}

#[test]
fn new_window_keeps_what_it_is_given() {
    let w = Window::new(Visibility::Minimized, true);
    assert_eq!(w.visibility, Visibility::Minimized);
    assert!(w.focused);
    assert_eq!(w, Window { visibility: Visibility::Minimized, focused: true });
}

#[test]
fn only_a_minimized_window_is_minimized() {
    assert!(window(Visibility::Minimized, false).is_minimized());
    assert!(!window(Visibility::Visible, false).is_minimized());
    assert!(!window(Visibility::Hidden, true).is_minimized());
}

#[test]
fn unminimize_brings_back_a_minimized_window_only() {
    let mut w = window(Visibility::Minimized, false);
    w.apply(WindowOp::Unminimize);
    assert_eq!(w, window(Visibility::Visible, false));

    let mut w = window(Visibility::Hidden, false);
    w.apply(WindowOp::Unminimize);
    assert_eq!(w, window(Visibility::Hidden, false));

    let mut w = window(Visibility::Visible, true);
    w.apply(WindowOp::Unminimize);
    assert_eq!(w, window(Visibility::Visible, true));
}

#[test]
fn show_puts_a_hidden_window_on_screen_only() {
    let mut w = window(Visibility::Hidden, false);
    w.apply(WindowOp::Show);
    assert_eq!(w, window(Visibility::Visible, false));

    let mut w = window(Visibility::Minimized, false);
    w.apply(WindowOp::Show);
    assert_eq!(w, window(Visibility::Minimized, false));

    let mut w = window(Visibility::Visible, true);
    w.apply(WindowOp::Show);
    assert_eq!(w, window(Visibility::Visible, true));
}

#[test]
fn set_focus_changes_focus_alone() {
    for visibility in [Visibility::Visible, Visibility::Hidden, Visibility::Minimized] {
        let mut w = window(visibility, false);
        w.apply(WindowOp::SetFocus);
        assert_eq!(w, window(visibility, true));
    }
}

#[test]
fn hide_takes_window_and_focus_away() {
    for visibility in [Visibility::Visible, Visibility::Hidden, Visibility::Minimized] {
        for focused in [false, true] {
            let mut w = window(visibility, focused);
            w.apply(WindowOp::Hide);
            assert_eq!(w, window(Visibility::Hidden, false));
        }
    }
}

#[test]
fn apply_all_runs_in_order() {
    let mut w = window(Visibility::Visible, true);
    w.apply_all(&vec![WindowOp::Hide, WindowOp::Show]);
    assert_eq!(w, window(Visibility::Visible, false));

    let mut w = window(Visibility::Visible, true);
    w.apply_all(&vec![WindowOp::Show, WindowOp::Hide]);
    assert_eq!(w, window(Visibility::Hidden, false));
}

#[test]
fn apply_all_of_nothing_changes_nothing() {
    let mut w = window(Visibility::Minimized, true);
    w.apply_all(&Vec::new());
    assert_eq!(w, window(Visibility::Minimized, true));
}

#[test]
fn apply_all_agrees_with_apply_one_by_one() {
    let ops = vec![
        WindowOp::Unminimize,
        WindowOp::Show,
        WindowOp::SetFocus,
        WindowOp::Hide,
        WindowOp::SetFocus,
        WindowOp::Show,
    ];
    for visibility in [Visibility::Visible, Visibility::Hidden, Visibility::Minimized] {
        let mut all = window(visibility, false);
        all.apply_all(&ops);
        let mut one = window(visibility, false);
        for op in &ops {
            one.apply(*op);
        }
        assert_eq!(all, one);
        assert_eq!(all, window(Visibility::Visible, true));
    }
}

#[test]
fn attempt_changes_the_window_only_if_it_took_effect() {
    let mut w = window(Visibility::Visible, true);
    w.attempt(WindowOp::Hide, false);
    assert_eq!(w, window(Visibility::Visible, true));
    w.attempt(WindowOp::Hide, true);
    assert_eq!(w, window(Visibility::Hidden, false));
}

#[test]
fn attempt_all_goes_on_after_a_failure() {
    let ops = vec![WindowOp::Unminimize, WindowOp::Show, WindowOp::SetFocus];

    let mut w = window(Visibility::Minimized, false);
    w.attempt_all(&ops, &vec![false, true, true]);
    assert_eq!(w, window(Visibility::Minimized, true));

    let mut w = window(Visibility::Minimized, false);
    w.attempt_all(&ops, &vec![true, false, false]);
    assert_eq!(w, window(Visibility::Visible, false));

    let mut w = window(Visibility::Hidden, false);
    w.attempt_all(&ops, &vec![true, true, false]);
    assert_eq!(w, window(Visibility::Visible, false));
}

#[test]
fn attempt_all_counts_a_missing_outcome_as_failure() {
    let ops = vec![WindowOp::Show, WindowOp::SetFocus];
    let mut w = window(Visibility::Hidden, false);
    w.attempt_all(&ops, &vec![true]);
    assert_eq!(w, window(Visibility::Visible, false));

    let mut w = window(Visibility::Hidden, false);
    w.attempt_all(&ops, &Vec::new());
    assert_eq!(w, window(Visibility::Hidden, false));

    let mut w = window(Visibility::Hidden, false);
    w.attempt_all(&ops, &vec![true, true, true, false]);
    assert_eq!(w, window(Visibility::Visible, true));
}

#[test]
fn attempt_all_with_every_effect_is_apply_all() {
    let ops = vec![WindowOp::Unminimize, WindowOp::Hide, WindowOp::Show, WindowOp::SetFocus];
    for visibility in [Visibility::Visible, Visibility::Hidden, Visibility::Minimized] {
        for focused in [false, true] {
            let mut attempted = window(visibility, focused);
            attempted.attempt_all(&ops, &vec![true; 4]);
            let mut applied = window(visibility, focused);
            applied.apply_all(&ops);
            assert_eq!(attempted, applied);
        }
    }
}
