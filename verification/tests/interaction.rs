use sotora::geom::Pos3;
use sotora::menu::{button_interact, Interaction};
use sotora::overworld::interactable::{interact_with_interactables, Interactable};
use sotora::overworld::interactables::{interactable_interact, PayloadKind};
use sotora::timer::Timer;
use sotora::world::{BattleStarter, DialogStarter, InteractablePayload};
use sotora::{AppState, StateMachine};

fn battle_block(x: i64, y: i64, z: i64) -> Interactable {
    Interactable {
        pos: Pos3 { x, y, z },
        payload: InteractablePayload::Battle(BattleStarter),
    }
}

fn npc(name: &str, x: i64, y: i64, z: i64) -> Interactable {
    Interactable {
        pos: Pos3 { x, y, z },
        payload: InteractablePayload::Dialog(DialogStarter {
            npc_name: name.to_owned(),
            sprite: 1,
        }),
    }
}

#[test]
fn no_interact_key_no_payload() {
    let players = vec![Pos3 { x: 0, y: 0, z: 0 }];
    let items = vec![battle_block(0, 0, 500)];
    let hit = interactable_interact(&players, &items, false, PayloadKind::Battle);
    assert!(hit.is_none());
}

#[test]
fn in_range_interact_yields_payload() {
    let players = vec![Pos3 { x: 0, y: 0, z: 0 }];
    let items = vec![battle_block(0, 0, 500)];
    let hit = interactable_interact(&players, &items, true, PayloadKind::Battle);
    assert!(matches!(hit, Some(InteractablePayload::Battle(_))));
}

#[test]
fn out_of_range_interact_yields_nothing() {
    let players = vec![Pos3 { x: 0, y: 0, z: 0 }];
    let items = vec![battle_block(0, 0, 2_000)];
    let hit = interactable_interact(&players, &items, true, PayloadKind::Battle);
    assert!(hit.is_none());
}

#[test]
fn boundary_distance_is_outside_radius() {
    // Exactly 1.0 world units away: strictly-within means no hit.
    let players = vec![Pos3 { x: 0, y: 0, z: 0 }];
    let items = vec![battle_block(0, 0, 1_000)];
    let hit = interactable_interact(&players, &items, true, PayloadKind::Battle);
    assert!(hit.is_none());
}

#[test]
fn kind_filter_ignores_other_payloads() {
    let players = vec![Pos3 { x: 0, y: 0, z: 0 }];
    let items = vec![npc("Ferris", 0, 0, 500)];
    let hit = interactable_interact(&players, &items, true, PayloadKind::Battle);
    assert!(hit.is_none());
    let hit = interactable_interact(&players, &items, true, PayloadKind::Dialog);
    match hit {
        Some(InteractablePayload::Dialog(d)) => assert_eq!(d.npc_name, "Ferris"),
        _ => panic!("expected the dialog payload"),
    }
}

#[test]
fn first_in_iteration_order_wins() {
    let players = vec![Pos3 { x: 0, y: 0, z: 0 }];
    let items = vec![npc("First", 0, 0, 500), npc("Second", 0, 0, 400)];
    let hit = interactable_interact(&players, &items, true, PayloadKind::Dialog);
    match hit {
        Some(InteractablePayload::Dialog(d)) => assert_eq!(d.npc_name, "First"),
        _ => panic!("expected a dialog payload"),
    }
}

#[test]
fn contact_check_requests_battle() {
    let players = vec![Pos3 { x: 0, y: 0, z: 0 }];
    let items = vec![battle_block(0, 0, 500)];
    let mut machine = StateMachine::new(AppState::Overworld);
    interact_with_interactables(&players, &items, &mut machine);
    assert_eq!(machine.requested, AppState::Battle);
    assert_eq!(machine.current, AppState::Overworld);
}

#[test]
fn contact_check_ignores_distant_interactables() {
    let players = vec![Pos3 { x: 0, y: 0, z: 0 }];
    let items = vec![battle_block(0, 0, 5_000)];
    let mut machine = StateMachine::new(AppState::Overworld);
    interact_with_interactables(&players, &items, &mut machine);
    assert_eq!(machine.requested, AppState::Overworld);
}

#[test]
fn button_interact_reports_clicks() {
    assert!(!button_interact(&vec![]));
    assert!(!button_interact(&vec![Interaction::Idle, Interaction::Hovered]));
    assert!(button_interact(&vec![Interaction::Idle, Interaction::Clicked]));
}

#[test]
fn one_shot_timer_fires_once() {
    let mut t = Timer::new(100, false);
    t.tick(60);
    assert!(!t.just_finished);
    t.tick(60);
    assert!(t.just_finished);
    assert!(t.finished);
    t.tick(60);
    assert!(!t.just_finished);
    assert!(t.finished);
}

#[test]
fn repeating_timer_keeps_remainder() {
    let mut t = Timer::new(80, true);
    t.tick(100);
    assert!(t.just_finished);
    assert_eq!(t.elapsed_ms, 20);
    t.tick(59);
    assert!(!t.just_finished);
    t.tick(1);
    assert!(t.just_finished);
    assert_eq!(t.elapsed_ms, 0);
}
