//! Positioned interactables, and the early proximity check that sends the
//! player straight to battle on contact.

use crate::geom::{spec_within_radius, within_radius, Pos3};
use crate::world::{InteractablePayload, PayloadModel};
use crate::{AppState, StateMachine};
use vstd::prelude::*;

verus! {

/// A payload attached to a world position: created at overworld setup,
/// read-only during overworld lifetime, destroyed with its owning entity on
/// overworld exit.
#[derive(Debug)]
pub struct Interactable {
    pub pos: Pos3,
    pub payload: InteractablePayload,
}

/// The abstract value of an [`Interactable`].
pub struct InteractableModel {
    pub pos: Pos3,
    pub payload: PayloadModel,
}

impl View for Interactable {
    type V = InteractableModel;

    open spec fn view(&self) -> InteractableModel {
        InteractableModel { pos: self.pos, payload: self.payload@ }
    }
}

/// The interactables' abstract values, in iteration order.
pub open spec fn inters_model(s: Seq<Interactable>) -> Seq<InteractableModel> {
    s.map_values(|i: Interactable| i@)
}

/// Whether some player stands within activation radius of some
/// interactable.
pub open spec fn any_in_range(players: Seq<Pos3>, items: Seq<InteractableModel>) -> bool {
    exists|i: int, j: int|
        0 <= i < players.len() && 0 <= j < items.len() && spec_within_radius(
            players[i],
            items[j].pos,
        )
}

/// Requests a battle as soon as any player stands within activation radius
/// of any interactable, whatever its payload. This is the blunt early form
/// of the interaction protocol: no interact key, no payload delivery.
pub fn interact_with_interactables(
    players: &Vec<Pos3>,
    interactables: &Vec<Interactable>,
    state: &mut StateMachine,
)
    requires
        forall|i: int| 0 <= i < players@.len() ==> (#[trigger] players@[i]).wf(),
        forall|j: int| 0 <= j < interactables@.len() ==> (#[trigger] interactables@[j]).pos.wf(),
    ensures
        *final(state) == if any_in_range(players@, inters_model(interactables@)) {
            old(state).spec_request(AppState::Battle)
        } else {
            *old(state)
        },
{
    let mut i: usize = 0;
    while i < players.len()
        invariant
            i <= players@.len(),
            *state == *old(state),
            forall|a: int| 0 <= a < players@.len() ==> (#[trigger] players@[a]).wf(),
            forall|b: int| 0 <= b < interactables@.len() ==> (#[trigger] interactables@[b]).pos.wf(),
            forall|a: int, b: int|
                0 <= a < i && 0 <= b < interactables@.len() ==> !(#[trigger] spec_within_radius(
                    players@[a],
                    inters_model(interactables@)[b].pos,
                )),
        decreases players@.len() - i,
    {
        let mut j: usize = 0;
        while j < interactables.len()
            invariant
                i < players@.len(),
                j <= interactables@.len(),
                *state == *old(state),
                forall|a: int| 0 <= a < players@.len() ==> (#[trigger] players@[a]).wf(),
                forall|b: int|
                    0 <= b < interactables@.len() ==> (#[trigger] interactables@[b]).pos.wf(),
                forall|b: int|
                    0 <= b < j ==> !(#[trigger] spec_within_radius(
                        players@[i as int],
                        inters_model(interactables@)[b].pos,
                    )),
            decreases interactables@.len() - j,
        {
            if within_radius(&players[i], &interactables[j].pos) {
                state.request_transition(AppState::Battle);
                proof {
                    assert(spec_within_radius(
                        players@[i as int],
                        inters_model(interactables@)[j as int].pos,
                    ));
                    assert(any_in_range(players@, inters_model(interactables@)));
                }
                return ;
            }
            j = j + 1;
        }
        i = i + 1;
    }
    proof {
        assert(!any_in_range(players@, inters_model(interactables@)));
    }
}

} // verus!
