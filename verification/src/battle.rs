//! The battle screen: a stub board with its own camera rig and light.

use crate::geom::Pos3;
use crate::hud_area_label::HudAreaLabel;
use crate::world::{
    em_camera_object, em_camera_root, em_decor, ents_model, CameraObject, CameraRoot, Entity,
    EntityModel, StateCleanup,
};
use crate::{AppState, StateMachine};
use vstd::prelude::*;

verus! {

/// The entities the battle enter hook creates: the hex board, the camera
/// rig, and a point light, all owned by the battle state.
pub open spec fn battle_entities() -> Seq<EntityModel> {
    seq![
        em_decor(AppState::Battle, Pos3 { x: 0, y: 0, z: 0 }),
        em_camera_root(AppState::Battle, Pos3 { x: 0, y: 0, z: 0 }),
        em_camera_object(AppState::Battle, Pos3 { x: 0, y: 15_000, z: -15_000i64 }),
        em_decor(AppState::Battle, Pos3 { x: 5_000, y: 10_000, z: 5_000 }),
    ]
}

/// Spawns the hex board at the origin.
pub fn spawn_board(entities: &mut Vec<Entity>)
    ensures
        ents_model(final(entities)@) == ents_model(old(entities)@).push(
            em_decor(AppState::Battle, Pos3 { x: 0, y: 0, z: 0 }),
        ),
{
    let mut board = Entity::bare();
    board.cleanup = Some(StateCleanup { owner: AppState::Battle });
    board.pos = Some(Pos3 { x: 0, y: 0, z: 0 });
    entities.push(board);
    proof {
        assert(ents_model(entities@) =~= ents_model(old(entities)@).push(
            em_decor(AppState::Battle, Pos3 { x: 0, y: 0, z: 0 }),
        ));
    }
}

/// Spawns the camera rig: a pivot at the origin and the camera looking at
/// the board from above and behind.
pub fn spawn_camera(entities: &mut Vec<Entity>)
    ensures
        ents_model(final(entities)@) == ents_model(old(entities)@).push(
            em_camera_root(AppState::Battle, Pos3 { x: 0, y: 0, z: 0 }),
        ).push(em_camera_object(AppState::Battle, Pos3 { x: 0, y: 15_000, z: -15_000i64 })),
{
    let mut root = Entity::bare();
    root.cleanup = Some(StateCleanup { owner: AppState::Battle });
    root.pos = Some(Pos3 { x: 0, y: 0, z: 0 });
    root.camera_root = Some(CameraRoot);
    entities.push(root);
    let mut camera = Entity::bare();
    camera.cleanup = Some(StateCleanup { owner: AppState::Battle });
    camera.pos = Some(Pos3 { x: 0, y: 15_000, z: -15_000i64 });
    camera.camera_object = Some(CameraObject);
    entities.push(camera);
    proof {
        assert(ents_model(entities@) =~= ents_model(old(entities)@).push(
            em_camera_root(AppState::Battle, Pos3 { x: 0, y: 0, z: 0 }),
        ).push(em_camera_object(AppState::Battle, Pos3 { x: 0, y: 15_000, z: -15_000i64 })));
    }
}

/// Builds the battle scene, exactly as [`battle_entities`] states it.
pub fn setup_battle(entities: &mut Vec<Entity>)
    ensures
        ents_model(final(entities)@) == ents_model(old(entities)@) + battle_entities(),
{
    spawn_board(entities);
    let ghost m1 = ents_model(entities@);
    spawn_camera(entities);
    let ghost m2 = ents_model(entities@);
    let mut light = Entity::bare();
    light.cleanup = Some(StateCleanup { owner: AppState::Battle });
    light.pos = Some(Pos3 { x: 5_000, y: 10_000, z: 5_000 });
    entities.push(light);
    proof {
        assert(ents_model(entities@) =~= m2.push(
            em_decor(AppState::Battle, Pos3 { x: 5_000, y: 10_000, z: 5_000 }),
        ));
        assert(ents_model(entities@) =~= ents_model(old(entities)@) + battle_entities());
    }
}

/// Announces the battle screen on the HUD area label.
pub fn show_area_title(hud: &mut HudAreaLabel)
    ensures
        final(hud)@ == old(hud)@.spec_show("The battle of Bevytown"@),
{
    hud.show_area_title("The battle of Bevytown");
}

/// Leaves the battle for the overworld when the escape key was freshly
/// pressed this tick.
pub fn back_to_overworld(escape_just_pressed: bool, state: &mut StateMachine)
    ensures
        *final(state) == if escape_just_pressed {
            old(state).spec_request(AppState::Overworld)
        } else {
            *old(state)
        },
{
    if escape_just_pressed {
        state.request_transition(AppState::Overworld);
    }
}

} // verus!
