use sotora::game::{Game, TickInput};
use sotora::geom::Pos3;
use sotora::user_config::{KeyBinds, KeyCode};
use sotora::AppState;

fn idle_input() -> TickInput {
    TickInput {
        delta_ms: 16,
        pressed: Vec::new(),
        just_pressed: Vec::new(),
        clicked_exit_app: false,
        clicked_enter_game: false,
        clicked_open_settings: false,
        clicked_exit_settings: false,
    }
}

fn interact_input() -> TickInput {
    TickInput {
        just_pressed: vec![KeyCode::E],
        ..idle_input()
    }
}

fn escape_input() -> TickInput {
    TickInput {
        just_pressed: vec![KeyCode::Escape],
        ..idle_input()
    }
}

/// A game standing in the overworld, entered through the Play button.
fn game_in_overworld() -> Game {
    let mut game = Game::new(KeyBinds::default());
    let play = TickInput {
        clicked_enter_game: true,
        ..idle_input()
    };
    game.tick(&play);
    game.tick(&idle_input());
    assert_eq!(game.machine.current, AppState::Overworld);
    game
}

/// Moves the player body to the given position.
fn place_player(game: &mut Game, x: i64, y: i64, z: i64) {
    for e in game.entities.iter_mut() {
        if e.player.is_some() {
            e.pos = Some(Pos3 { x, y, z });
            return;
        }
    }
    panic!("no player body in the ledger");
}

fn count_tagged(game: &Game, state: AppState) -> usize {
    game.entities
        .iter()
        .filter(|e| match &e.cleanup {
            Some(c) => c.owner == state,
            None => false,
        })
        .count()
}

#[test]
fn starts_in_main_menu() {
    let game = Game::new(KeyBinds::default());
    assert_eq!(game.machine.current, AppState::MainMenu);
    assert!(count_tagged(&game, AppState::MainMenu) > 0);
    assert!(!game.exit_requested);
}

#[test]
fn last_transition_request_wins() {
    let mut game = game_in_overworld();
    game.request_transition(AppState::Battle);
    game.request_transition(AppState::SettingsMenu);
    game.request_transition(AppState::Dialog);
    game.tick(&idle_input());
    assert_eq!(game.machine.current, AppState::Dialog);
}

#[test]
fn requesting_current_state_is_a_no_op() {
    let mut game = game_in_overworld();
    game.request_transition(AppState::Battle);
    game.request_transition(AppState::Overworld);
    game.tick(&idle_input());
    assert_eq!(game.machine.current, AppState::Overworld);
}

#[test]
fn play_button_enters_overworld_and_clears_menu() {
    let game = game_in_overworld();
    assert_eq!(count_tagged(&game, AppState::MainMenu), 0);
    assert!(count_tagged(&game, AppState::Overworld) > 0);
}

#[test]
fn quit_button_raises_exit_flag() {
    let mut game = Game::new(KeyBinds::default());
    let quit = TickInput {
        clicked_exit_app: true,
        ..idle_input()
    };
    game.tick(&quit);
    assert!(game.exit_requested);
    game.tick(&idle_input());
    assert!(game.exit_requested);
}

#[test]
fn settings_round_trip() {
    let mut game = Game::new(KeyBinds::default());
    let open = TickInput {
        clicked_open_settings: true,
        ..idle_input()
    };
    game.tick(&open);
    game.tick(&idle_input());
    assert_eq!(game.machine.current, AppState::SettingsMenu);
    let back = TickInput {
        clicked_exit_settings: true,
        ..idle_input()
    };
    game.tick(&back);
    game.tick(&idle_input());
    assert_eq!(game.machine.current, AppState::MainMenu);
}

#[test]
fn interact_near_battle_starter_enters_battle() {
    let mut game = game_in_overworld();
    // The battle starter stands at (5, 1, 5); put the player half a world
    // unit away from it.
    place_player(&mut game, 5_000, 1_000, 4_500);
    game.tick(&interact_input());
    game.tick(&idle_input());
    assert_eq!(game.machine.current, AppState::Battle);
    assert_eq!(count_tagged(&game, AppState::Overworld), 0);
    assert!(count_tagged(&game, AppState::Battle) > 0);
}

#[test]
fn interact_outside_radius_does_nothing() {
    let mut game = game_in_overworld();
    // Two world units away from the battle starter: outside the radius.
    place_player(&mut game, 5_000, 1_000, 3_000);
    game.tick(&interact_input());
    game.tick(&idle_input());
    assert_eq!(game.machine.current, AppState::Overworld);
}

#[test]
fn proximity_without_interact_key_does_nothing() {
    let mut game = game_in_overworld();
    place_player(&mut game, 5_000, 1_000, 4_500);
    game.tick(&idle_input());
    game.tick(&idle_input());
    assert_eq!(game.machine.current, AppState::Overworld);
}

#[test]
fn dialog_starter_carries_npc_name() {
    let mut game = game_in_overworld();
    // Ferris stands at (-5, 1, 5).
    place_player(&mut game, -5_000, 1_000, 4_500);
    game.tick(&interact_input());
    let staged = game.dialog.as_ref().expect("dialog payload staged");
    assert_eq!(staged.npc_name, "Ferris");
    game.tick(&idle_input());
    assert_eq!(game.machine.current, AppState::Dialog);
    // The dialog enter hook read the staged payload into its UI.
    let shows_name = game
        .entities
        .iter()
        .any(|e| e.ui_text.as_deref() == Some("Ferris"));
    assert!(shows_name);
}

#[test]
fn dialog_payload_cleared_on_dialog_exit() {
    let mut game = game_in_overworld();
    place_player(&mut game, -5_000, 1_000, 4_500);
    game.tick(&interact_input());
    game.tick(&idle_input());
    assert_eq!(game.machine.current, AppState::Dialog);
    game.tick(&escape_input());
    game.tick(&idle_input());
    assert_eq!(game.machine.current, AppState::Overworld);
    assert!(game.dialog.is_none());
}

#[test]
fn escape_leaves_overworld_for_menu() {
    let mut game = game_in_overworld();
    game.tick(&escape_input());
    game.tick(&idle_input());
    assert_eq!(game.machine.current, AppState::MainMenu);
    assert_eq!(count_tagged(&game, AppState::Overworld), 0);
}

#[test]
fn escape_leaves_battle_for_overworld() {
    let mut game = game_in_overworld();
    place_player(&mut game, 5_000, 1_000, 4_500);
    game.tick(&interact_input());
    game.tick(&idle_input());
    assert_eq!(game.machine.current, AppState::Battle);
    game.tick(&escape_input());
    game.tick(&idle_input());
    assert_eq!(game.machine.current, AppState::Overworld);
    assert_eq!(count_tagged(&game, AppState::Battle), 0);
}

#[test]
fn holding_forward_moves_the_player() {
    let mut game = game_in_overworld();
    let walk = TickInput {
        delta_ms: 1_000,
        pressed: vec![KeyCode::W],
        ..idle_input()
    };
    game.tick(&walk);
    let body = game
        .entities
        .iter()
        .find(|e| e.player.is_some())
        .expect("player body");
    // Ten world units per second, forward is negative z.
    assert_eq!(body.pos, Some(Pos3 { x: 0, y: 1_000, z: -10_000 }));
}

#[test]
fn opposite_movement_keys_cancel() {
    let mut game = game_in_overworld();
    let conflicted = TickInput {
        delta_ms: 1_000,
        pressed: vec![KeyCode::W, KeyCode::S, KeyCode::A, KeyCode::D],
        ..idle_input()
    };
    game.tick(&conflicted);
    let body = game
        .entities
        .iter()
        .find(|e| e.player.is_some())
        .expect("player body");
    assert_eq!(body.pos, Some(Pos3 { x: 0, y: 1_000, z: 0 }));
}

#[test]
fn entering_overworld_announces_area_title() {
    let mut game = Game::new(KeyBinds::default());
    let play = TickInput {
        clicked_enter_game: true,
        ..idle_input()
    };
    game.tick(&play);
    game.tick(&idle_input());
    assert_eq!(game.hud.display_text, "OVERWORLD");
}
