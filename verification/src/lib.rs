//! Core logic of a small screen-based role-playing game prototype.
//!
//! The library owns everything that can be stated and proved about the game
//! loop: the application state machine with its transition protocol, the
//! per-state entity ledger with bulk cleanup, the proximity interaction
//! protocol for overworld interactables, the HUD area-label animation, and
//! the key-binding configuration with its on-disk text format. Rendering,
//! asset loading and file I/O are left to a thin shell around the library.

use vstd::prelude::*;

pub mod battle;
pub mod dialog;
pub mod game;
pub mod geom;
pub mod hud_area_label;
pub mod menu;
pub mod overworld;
pub mod timer;
pub mod user_config;
pub mod world;

verus! {

/// The closed set of top-level screens the application can be in.
///
/// Exactly one is current at any time; a pending requested value may differ
/// from the current one between a transition request and the next tick.
#[derive(Debug, Clone, Copy, PartialEq, Eq, Structural, Hash)]
pub enum AppState {
    MainMenu,
    SettingsMenu,
    Overworld,
    Battle,
    Dialog,
}

/// Owner of the current and requested [`AppState`] values.
///
/// Transition requests only record an intent; [`crate::game::Game::tick`]
/// applies the pending request at the next tick boundary. Requests coalesce:
/// only the latest request before a tick is honored (last write wins), and a
/// request for the state that is already current is a no-op success.
#[derive(Debug, Clone, Copy, PartialEq, Eq, Structural)]
pub struct StateMachine {
    pub current: AppState,
    pub requested: AppState,
}

impl StateMachine {
    /// A machine that starts in `initial` with no transition pending.
    pub fn new(initial: AppState) -> (r: StateMachine)
        ensures
            r == (StateMachine { current: initial, requested: initial }),
    {
        StateMachine { current: initial, requested: initial }
    }

    /// Whether a transition is pending for the next tick boundary.
    pub open spec fn spec_pending(self) -> bool {
        self.requested != self.current
    }

    /// Whether a transition is pending for the next tick boundary.
    pub fn pending(&self) -> (r: bool)
        ensures
            r == self.spec_pending(),
    {
        self.requested != self.current
    }

    /// The machine after one `request_transition(target)` call.
    pub open spec fn spec_request(self, target: AppState) -> StateMachine {
        StateMachine { current: self.current, requested: target }
    }

    /// Records an intended state change, to be applied at the next tick
    /// boundary. Overwrites any earlier pending request; requesting the
    /// current state cancels a pending request (a no-op success).
    pub fn request_transition(&mut self, target: AppState)
        ensures
            *final(self) == old(self).spec_request(target),
    {
        self.requested = target;
    }

    /// The machine after a sequence of `request_transition` calls, oldest
    /// first.
    pub open spec fn spec_request_all(self, targets: Seq<AppState>) -> StateMachine
        decreases targets.len(),
    {
        if targets.len() == 0 {
            self
        } else {
            self.spec_request(targets[0]).spec_request_all(targets.drop_first())
        }
    }
}

/// Law: of all `request_transition` calls made within one tick, only the last
/// call's target is honored at the next tick boundary; the current state is
/// untouched by requests.
pub proof fn lemma_last_request_wins(m: StateMachine, targets: Seq<AppState>)
    requires
        targets.len() > 0,
    ensures
        m.spec_request_all(targets).requested == targets.last(),
        m.spec_request_all(targets).current == m.current,
    decreases targets.len(),
{
    if targets.len() == 1 {
        assert(m.spec_request_all(targets) == m.spec_request(targets[0]));
    } else {
        lemma_last_request_wins(m.spec_request(targets[0]), targets.drop_first());
        assert(targets.drop_first().last() == targets.last());
    }
}

} // verus!
