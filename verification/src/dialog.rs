//! The dialog screen: a full-screen conversation with one NPC.
//!
//! The dialog-starting handler stages a [`DialogResource`] at the moment of
//! the transition; the dialog enter hook reads it and builds the dialog UI
//! carrying the NPC's name. The resource is replaced on each new dialog
//! trigger and cleared when the dialog exits.

use crate::world::{ents_model, Entity, EntityModel, StateCleanup};
use crate::{AppState, StateMachine};
use vstd::prelude::*;

verus! {

/// The payload a dialog transition carries: which NPC the player talked to,
/// and a renderer-side handle to the NPC portrait.
#[derive(Debug)]
pub struct DialogResource {
    pub npc_name: String,
    pub sprite: u64,
}

/// The abstract value of a [`DialogResource`].
pub struct DialogModel {
    pub npc_name: Seq<char>,
    pub sprite: u64,
}

impl View for DialogResource {
    type V = DialogModel;

    open spec fn view(&self) -> DialogModel {
        DialogModel { npc_name: self.npc_name@, sprite: self.sprite }
    }
}

/// The hardcoded line every NPC says for now.
pub open spec fn dialog_message() -> Seq<char> {
    "Hello there!"@
}

/// The entities the dialog enter hook creates: the dialog UI root showing
/// the NPC's name (empty when no dialog payload was staged), and the
/// message box.
pub open spec fn dialog_entities(dialog: Option<DialogModel>) -> Seq<EntityModel> {
    seq![
        EntityModel {
            cleanup: Some(AppState::Dialog),
            pos: None,
            player: None,
            payload: None,
            button: None,
            hud_node: false,
            camera_root: false,
            camera_object: false,
            ui_text: match dialog {
                Some(d) => Some(d.npc_name),
                None => None,
            },
        },
        EntityModel {
            cleanup: Some(AppState::Dialog),
            pos: None,
            player: None,
            payload: None,
            button: None,
            hud_node: false,
            camera_root: false,
            camera_object: false,
            ui_text: Some(dialog_message()),
        },
    ]
}

/// Builds the dialog UI, exactly as [`dialog_entities`] states it: the name
/// box shows the staged NPC name, the message box the hardcoded line. With
/// no staged payload the name box stays empty rather than failing, so a
/// direct transition into the dialog screen is harmless.
pub fn setup_dialog(entities: &mut Vec<Entity>, dialog: &Option<DialogResource>)
    ensures
        ents_model(final(entities)@) == ents_model(old(entities)@) + dialog_entities(
            match dialog {
                Some(d) => Some(d@),
                None => None,
            },
        ),
{
    let mut root = Entity::bare();
    root.cleanup = Some(StateCleanup { owner: AppState::Dialog });
    root.ui_text = match dialog {
        Some(d) => Some(d.npc_name.clone()),
        None => None,
    };
    entities.push(root);
    let mut message = Entity::bare();
    message.cleanup = Some(StateCleanup { owner: AppState::Dialog });
    message.ui_text = Some("Hello there!".to_owned());
    entities.push(message);
    proof {
        assert(ents_model(entities@) =~= ents_model(old(entities)@) + dialog_entities(
            match dialog {
                Some(d) => Some(d@),
                None => None,
            },
        ));
    }
}

/// Leaves the dialog for the overworld when the escape key was freshly
/// pressed this tick.
pub fn back_to_overworld(escape_just_pressed: bool, state: &mut StateMachine)
    ensures
        *final(state) == if escape_just_pressed {
            old(state).spec_request(AppState::Overworld)
        } else {
            *old(state)
        },
{
    if escape_just_pressed {
        state.request_transition(AppState::Overworld);
    }
}

} // verus!
