//! The menu screens and their buttons.
//!
//! A button is a UI entity carrying one logical action; the renderer
//! reports each button's interaction state once per tick, and
//! [`button_interact`] condenses those reports into a single "was clicked"
//! answer that the per-action handlers consume.

use vstd::prelude::*;

pub mod main_menu;
pub mod settings;

verus! {

/// The interaction state of one UI button, as the renderer reports it.
#[derive(Debug, Clone, Copy, PartialEq, Eq, Structural)]
pub enum Interaction {
    Clicked,
    Hovered,
    Idle,
}

/// Whether any of the reported interaction states is a click.
pub fn button_interact(interactions: &Vec<Interaction>) -> (clicked: bool)
    ensures
        clicked == exists|i: int|
            0 <= i < interactions@.len() && interactions@[i] == Interaction::Clicked,
{
    let mut i: usize = 0;
    while i < interactions.len()
        invariant
            i <= interactions@.len(),
            forall|j: int| 0 <= j < i ==> interactions@[j] != Interaction::Clicked,
        decreases interactions@.len() - i,
    {
        if interactions[i] == Interaction::Clicked {
            return true;
        }
        i = i + 1;
    }
    false
}

} // verus!
