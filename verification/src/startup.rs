//! Startup: the steps that bring the shell up, taken once and in a fixed
//! order, and given up at the first one that fails.

use vstd::prelude::*;

verus! {

/// A step of startup that can fail. The steps are taken in the order in which
/// they are listed.
#[derive(Clone, Copy, Debug, PartialEq, Eq, Structural)]
pub enum SetupStep {
    /// Make window-position keeping, link opening and notifications available.
    RegisterServices,
    /// Build the tray menu.
    BuildMenu,
    /// Create the tray icon and attach the menu to it.
    CreateTray,
    /// Register the tray icon's handlers for clicks and for menu activations.
    RegisterHandlers,
}

/// How far startup has come.
#[derive(Clone, Copy, Debug, PartialEq, Eq, Structural)]
pub enum Startup {
    /// The given step is the next to take; those before it succeeded.
    Pending(SetupStep),
    /// Every step succeeded: events can be handled.
    Ready,
    /// Another instance runs already: the launch was handed to it, and this
    /// process leaves without taking any step.
    HandedOver,
    /// The given step failed: startup is given up, and no later step is taken.
    Aborted(SetupStep),
}

impl SetupStep {
    /// The step taken after this one, if any.
    pub open spec fn following(self) -> Option<SetupStep> {
        match self {
            SetupStep::RegisterServices => Some(SetupStep::BuildMenu),
            SetupStep::BuildMenu => Some(SetupStep::CreateTray),
            SetupStep::CreateTray => Some(SetupStep::RegisterHandlers),
            SetupStep::RegisterHandlers => None,
        }
    }

    /// The place of this step in the order, counted from 0.
    pub open spec fn position(self) -> nat {
        match self {
            SetupStep::RegisterServices => 0,
            SetupStep::BuildMenu => 1,
            SetupStep::CreateTray => 2,
            SetupStep::RegisterHandlers => 3,
        }
    }

    /// The step taken after this one, if any.
    pub fn next(&self) -> (n: Option<SetupStep>)
        ensures
            n == self.following(),
    {
        match self {
            SetupStep::RegisterServices => Some(SetupStep::BuildMenu),
            SetupStep::BuildMenu => Some(SetupStep::CreateTray),
            SetupStep::CreateTray => Some(SetupStep::RegisterHandlers),
            SetupStep::RegisterHandlers => None,
        }
    }
}

impl Startup {
    /// Startup as the single-instance guard leaves it: handed over if another
    /// instance runs, else with the first step pending.
    pub open spec fn begun(another_instance_runs: bool) -> Startup {
        if another_instance_runs {
            Startup::HandedOver
        } else {
            Startup::Pending(SetupStep::RegisterServices)
        }
    }

    /// Startup after the pending step has succeeded or failed. Where no step
    /// is pending nothing changes.
    pub open spec fn advanced(self, succeeded: bool) -> Startup {
        match self {
            Startup::Pending(step) => if !succeeded {
                Startup::Aborted(step)
            } else {
                match step.following() {
                    Some(next) => Startup::Pending(next),
                    None => Startup::Ready,
                }
            },
            _ => self,
        }
    }

    /// Startup after the pending steps have succeeded or failed as `outcomes`
    /// says, first to last.
    pub open spec fn advanced_all(self, outcomes: Seq<bool>) -> Startup
        decreases outcomes.len(),
    {
        if outcomes.len() == 0 {
            self
        } else {
            self.advanced(outcomes[0]).advanced_all(outcomes.skip(1))
        }
    }

    /// Applies the single-instance guard, the first thing that startup does.
    pub fn begin(another_instance_runs: bool) -> (s: Startup)
        ensures
            s == Startup::begun(another_instance_runs),
    {
        if another_instance_runs {
            Startup::HandedOver
        } else {
            Startup::Pending(SetupStep::RegisterServices)
        }
    }

    /// The step to take next, if startup is still under way.
    pub fn pending(&self) -> (step: Option<SetupStep>)
        ensures
            step == (match *self {
                Startup::Pending(s) => Some(s),
                _ => None,
            }),
    {
        match self {
            Startup::Pending(s) => Some(*s),
            _ => None,
        }
    }

    /// Records whether the pending step succeeded.
    pub fn advance(&mut self, succeeded: bool)
        ensures
            *final(self) == old(self).advanced(succeeded),
    {
        match *self {
            Startup::Pending(step) => {
                if !succeeded {
                    *self = Startup::Aborted(step);
                } else {
                    match step.next() {
                        Some(next) => {
                            *self = Startup::Pending(next);
                        },
                        None => {
                            *self = Startup::Ready;
                        },
                    }
                }
            },
            _ => {},
        }
    }

    /// Records the outcomes of the pending steps in order.
    pub fn advance_all(&mut self, outcomes: &Vec<bool>)
        ensures
            *final(self) == old(self).advanced_all(outcomes@),
    {
        let mut i: usize = 0;
        assert(outcomes@.skip(0) =~= outcomes@);
        while i < outcomes.len()
            invariant
                i <= outcomes.len(),
                self.advanced_all(outcomes@.skip(i as int)) == old(self).advanced_all(outcomes@),
            decreases outcomes.len() - i,
        {
            proof {
                let rest = outcomes@.skip(i as int);
                assert(rest[0] == outcomes@[i as int]);
                assert(rest.skip(1) =~= outcomes@.skip(i as int + 1));
            }
            self.advance(outcomes[i]);
            i = i + 1;
        }
    }
}

} // verus!
