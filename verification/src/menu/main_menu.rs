//! The main menu screen: title texts and the Play / Settings / Quit
//! buttons.

use crate::world::{
    em_button, em_ui_text, ents_model, ButtonAction, Entity, EntityModel, StateCleanup,
};
use crate::{AppState, StateMachine};
use vstd::prelude::*;

verus! {

/// The entities the main-menu enter hook creates: the title texts and one
/// button per action, all owned by the main-menu state.
pub open spec fn main_menu_entities() -> Seq<EntityModel> {
    seq![
        em_ui_text(AppState::MainMenu, "SOTORA"@),
        em_ui_text(AppState::MainMenu, "a bevy community game"@),
        em_button(AppState::MainMenu, ButtonAction::EnterGame),
        em_button(AppState::MainMenu, ButtonAction::OpenSettingsMenu),
        em_button(AppState::MainMenu, ButtonAction::ExitApp),
    ]
}

/// Builds the main menu UI, exactly as [`main_menu_entities`] states it.
pub fn setup(entities: &mut Vec<Entity>)
    ensures
        ents_model(final(entities)@) == ents_model(old(entities)@) + main_menu_entities(),
{
    let mut title = Entity::bare();
    title.cleanup = Some(StateCleanup { owner: AppState::MainMenu });
    title.ui_text = Some("SOTORA".to_owned());
    entities.push(title);
    let mut subtitle = Entity::bare();
    subtitle.cleanup = Some(StateCleanup { owner: AppState::MainMenu });
    subtitle.ui_text = Some("a bevy community game".to_owned());
    entities.push(subtitle);
    let mut play = Entity::bare();
    play.cleanup = Some(StateCleanup { owner: AppState::MainMenu });
    play.button = Some(ButtonAction::EnterGame);
    entities.push(play);
    let mut settings_button = Entity::bare();
    settings_button.cleanup = Some(StateCleanup { owner: AppState::MainMenu });
    settings_button.button = Some(ButtonAction::OpenSettingsMenu);
    entities.push(settings_button);
    let mut quit = Entity::bare();
    quit.cleanup = Some(StateCleanup { owner: AppState::MainMenu });
    quit.button = Some(ButtonAction::ExitApp);
    entities.push(quit);
    proof {
        assert(ents_model(entities@) =~= ents_model(old(entities)@) + main_menu_entities());
    }
}

/// Consumes the Quit button's click: asks the shell to leave the
/// application. The flag stays set once raised.
pub fn button_exit_app(clicked: bool, exit_requested: &mut bool)
    ensures
        *final(exit_requested) == (*old(exit_requested) || clicked),
{
    if clicked {
        *exit_requested = true;
    }
}

/// Consumes the Play button's click: requests the overworld.
pub fn button_enter_game(clicked: bool, state: &mut StateMachine)
    ensures
        *final(state) == if clicked {
            old(state).spec_request(AppState::Overworld)
        } else {
            *old(state)
        },
{
    if clicked {
        state.request_transition(AppState::Overworld);
    }
}

/// Consumes the Settings button's click: requests the settings menu.
pub fn button_open_settings_menu(clicked: bool, state: &mut StateMachine)
    ensures
        *final(state) == if clicked {
            old(state).spec_request(AppState::SettingsMenu)
        } else {
            *old(state)
        },
{
    if clicked {
        state.request_transition(AppState::SettingsMenu);
    }
}

} // verus!
