//! The settings menu screen: a placeholder panel with a Back button.

use crate::world::{
    em_button, em_ui_text, ents_model, ButtonAction, Entity, EntityModel, StateCleanup,
};
use crate::{AppState, StateMachine};
use vstd::prelude::*;

verus! {

/// The entities the settings-menu enter hook creates.
pub open spec fn settings_entities() -> Seq<EntityModel> {
    seq![
        em_ui_text(AppState::SettingsMenu, "Settings"@),
        em_button(AppState::SettingsMenu, ButtonAction::ExitSettingsMenu),
    ]
}

/// Builds the settings menu UI, exactly as [`settings_entities`] states it.
pub fn setup(entities: &mut Vec<Entity>)
    ensures
        ents_model(final(entities)@) == ents_model(old(entities)@) + settings_entities(),
{
    let mut title = Entity::bare();
    title.cleanup = Some(StateCleanup { owner: AppState::SettingsMenu });
    title.ui_text = Some("Settings".to_owned());
    entities.push(title);
    let mut back = Entity::bare();
    back.cleanup = Some(StateCleanup { owner: AppState::SettingsMenu });
    back.button = Some(ButtonAction::ExitSettingsMenu);
    entities.push(back);
    proof {
        assert(ents_model(entities@) =~= ents_model(old(entities)@) + settings_entities());
    }
}

/// Consumes the Back button's click: returns to the main menu.
pub fn button_exit_settings_menu(clicked: bool, state: &mut StateMachine)
    ensures
        *final(state) == if clicked {
            old(state).spec_request(AppState::MainMenu)
        } else {
            *old(state)
        },
{
    if clicked {
        state.request_transition(AppState::MainMenu);
    }
}

} // verus!
