//! The applet controller: the single owner of the run state, and the state
//! machine that a toggle event drives. The controller decides which shell
//! operation a toggle must run; the caller performs it and hands the
//! success flag back, and the controller applies the transition and says
//! what the view must now show.

use vstd::prelude::*;
use crate::view::{spec_view_for, view_for, IconId, ViewModel};

verus! {

/// The shell operation a toggle event must run.
#[derive(Clone, Copy, PartialEq, Eq, Structural, Debug)]
pub enum ToggleAction {
    Start,
    Stop,
}

/// The run state after a toggle whose shell operation reported `success`.
pub open spec fn spec_toggle_result(running: bool, success: bool) -> bool {
    if success {
        !running
    } else {
        running
    }
}

/// The view shown while a start or stop is in flight: the neutral icon,
/// with the label and visibility of the state the toggle set out from.
pub open spec fn spec_transitional_view(running: bool) -> ViewModel {
    ViewModel { icon: IconId::Status, ..spec_view_for(running) }
}

/// Owns the process-wide run state. Its only mutator is `apply_toggle_result`.
pub struct Controller {
    running: bool,
}

impl Controller {
    /// Whether the controller currently takes the cluster to be running.
    pub closed spec fn running_state(&self) -> bool {
        self.running
    }

    /// Store the liveness reported at cold start.
    pub fn new(initially_running: bool) -> (c: Controller)
        ensures
            c.running_state() == initially_running,
    {
        Controller { running: initially_running }
    }

    /// The stored run state, as the handlers read it.
    pub fn is_running(&self) -> (r: bool)
        ensures
            r == self.running_state(),
    {
        self.running
    }

    /// The view to render for the current settled state.
    pub fn current_view(&self) -> (v: ViewModel)
        ensures
            v == spec_view_for(self.running_state()),
    {
        view_for(self.running)
    }

    /// The view to render while the toggled shell operation is in flight.
    pub fn transitional_view(&self) -> (v: ViewModel)
        ensures
            v == spec_transitional_view(self.running_state()),
    {
        let settled = view_for(self.running);
        ViewModel { icon: IconId::Status, ..settled }
    }

    /// Which shell operation a toggle event must run from the current state.
    pub fn toggle_action(&self) -> (a: ToggleAction)
        ensures
            a == (if self.running_state() {
                ToggleAction::Stop
            } else {
                ToggleAction::Start
            }),
    {
        if self.running {
            ToggleAction::Stop
        } else {
            ToggleAction::Start
        }
    }

    /// Apply the outcome of the toggled shell operation: on success the run
    /// state flips, on failure it stays; the returned view matches the new
    /// state (on failure this reverts the transitional icon).
    pub fn apply_toggle_result(&mut self, success: bool) -> (v: ViewModel)
        ensures
            final(self).running_state() == spec_toggle_result(old(self).running_state(), success),
            v == spec_view_for(final(self).running_state()),
    {
        if success {
            self.running = !self.running;
        }
        view_for(self.running)
    }
}

/// A single toggle event changes the run state at most once, and only when
/// the shell operation reported success; on failure the state is unchanged.
pub proof fn lemma_toggle_changes_only_on_success(running: bool, success: bool)
    ensures
        spec_toggle_result(running, success) != running ==> success,
        success ==> spec_toggle_result(running, success) == !running,
        !success ==> spec_toggle_result(running, success) == running,
{
}

} // verus!
