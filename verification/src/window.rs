//! The main window as the shell observes it: visible, hidden or minimized, and
//! whether it holds input focus.

use vstd::prelude::*;

verus! {

/// How a window is presented on screen.
#[derive(Clone, Copy, Debug, PartialEq, Eq, Structural)]
pub enum Visibility {
    Visible,
    Hidden,
    Minimized,
}

/// One request that the shell makes of a window. The host carries each out on
/// a best-effort basis: one that fails is dropped, and the next is made all
/// the same.
#[derive(Clone, Copy, Debug, PartialEq, Eq, Structural)]
pub enum WindowOp {
    /// Bring a minimized window back; nothing happens to any other window.
    Unminimize,
    /// Put a hidden window on screen; nothing happens to any other window.
    Show,
    /// Hand the window input focus.
    SetFocus,
    /// Take the window off screen without destroying it.
    Hide,
}

/// A window: its presentation and whether it has input focus.
#[derive(Clone, Copy, Debug, PartialEq, Eq, Structural)]
pub struct Window {
    pub visibility: Visibility,
    pub focused: bool,
}

impl Window {
    /// The window that results from carrying out `op` on this one.
    pub open spec fn after(self, op: WindowOp) -> Window {
        match op {
            WindowOp::Unminimize => Window {
                visibility: if self.visibility == Visibility::Minimized {
                    Visibility::Visible
                } else {
                    self.visibility
                },
                focused: self.focused,
            },
            WindowOp::Show => Window {
                visibility: if self.visibility == Visibility::Hidden {
                    Visibility::Visible
                } else {
                    self.visibility
                },
                focused: self.focused,
            },
            WindowOp::SetFocus => Window { visibility: self.visibility, focused: true },
            WindowOp::Hide => Window { visibility: Visibility::Hidden, focused: false },
        }
    }

    /// The window that results from carrying out `ops` one after another,
    /// first to last.
    pub open spec fn after_all(self, ops: Seq<WindowOp>) -> Window
        decreases ops.len(),
    {
        if ops.len() == 0 {
            self
        } else {
            self.after(ops[0]).after_all(ops.skip(1))
        }
    }

    /// The window after `op` has been attempted: as after the operation where
    /// it took effect, and as before where it failed.
    pub open spec fn after_attempt(self, op: WindowOp, took_effect: bool) -> Window {
        if took_effect {
            self.after(op)
        } else {
            self
        }
    }

    /// The window after `ops` have been attempted one after another, first to
    /// last, each whether or not the one before it took effect.
    /// `took_effect[i]` says whether the operation at `i` took effect; one
    /// that has no entry counts as failed.
    pub open spec fn after_attempts(self, ops: Seq<WindowOp>, took_effect: Seq<bool>) -> Window
        decreases ops.len(),
    {
        if ops.len() == 0 {
            self
        } else {
            let last = ops.len() - 1;
            self.after_attempts(ops.drop_last(), took_effect).after_attempt(
                ops[last],
                last < took_effect.len() && took_effect[last],
            )
        }
    }

    /// A window with the given presentation and focus.
    pub fn new(visibility: Visibility, focused: bool) -> (w: Window)
        ensures
            w.visibility == visibility,
            w.focused == focused,
    {
        Window { visibility, focused }
    }

    /// Whether the window is minimized.
    pub fn is_minimized(&self) -> (m: bool)
        ensures
            m == (self.visibility == Visibility::Minimized),
    {
        match self.visibility {
            Visibility::Minimized => true,
            _ => false,
        }
    }

    /// Carries out one operation on the window.
    pub fn apply(&mut self, op: WindowOp)
        ensures
            *final(self) == old(self).after(op),
    {
        match op {
            WindowOp::Unminimize => {
                if self.is_minimized() {
                    self.visibility = Visibility::Visible;
                }
            },
            WindowOp::Show => {
                match self.visibility {
                    Visibility::Hidden => {
                        self.visibility = Visibility::Visible;
                    },
                    _ => {},
                }
            },
            WindowOp::SetFocus => {
                self.focused = true;
            },
            WindowOp::Hide => {
                self.visibility = Visibility::Hidden;
                self.focused = false;
            },
        }
    }

    /// Attempts one operation on the window: it changes the window only if it
    /// took effect.
    pub fn attempt(&mut self, op: WindowOp, took_effect: bool)
        ensures
            *final(self) == old(self).after_attempt(op, took_effect),
    {
        if took_effect {
            self.apply(op);
        }
    }

    /// Attempts the operations in order, first to last, going on after one
    /// that failed. `took_effect` says of each whether it took effect; an
    /// operation without an entry counts as failed.
    pub fn attempt_all(&mut self, ops: &Vec<WindowOp>, took_effect: &Vec<bool>)
        ensures
            *final(self) == old(self).after_attempts(ops@, took_effect@),
    {
        let mut i: usize = 0;
        while i < ops.len()
            invariant
                i <= ops.len(),
                *self == old(self).after_attempts(ops@.take(i as int), took_effect@),
            decreases ops.len() - i,
        {
            proof {
                let upto = ops@.take(i as int + 1);
                assert(upto.drop_last() =~= ops@.take(i as int));
                assert(upto[i as int] == ops@[i as int]);
            }
            let effect = i < took_effect.len() && took_effect[i];
            self.attempt(ops[i], effect);
            i = i + 1;
        }
        assert(ops@.take(ops@.len() as int) =~= ops@);
    }

    /// Carries out the operations in order, first to last.
    pub fn apply_all(&mut self, ops: &Vec<WindowOp>)
        ensures
            *final(self) == old(self).after_all(ops@),
    {
        let mut i: usize = 0;
        assert(ops@.skip(0) =~= ops@);
        while i < ops.len()
            invariant
                i <= ops.len(),
                self.after_all(ops@.skip(i as int)) == old(self).after_all(ops@),
            decreases ops.len() - i,
        {
            proof {
                let rest = ops@.skip(i as int);
                assert(rest[0] == ops@[i as int]);
                assert(rest.skip(1) =~= ops@.skip(i as int + 1));
            }
            self.apply(ops[i]);
            i = i + 1;
        }
    }
}

} // verus!
