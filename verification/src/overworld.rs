//! The overworld screen: the explorable world with the player body, the
//! camera rig, and the proximity-triggered interactables.

use crate::geom::Pos3;
use crate::hud_area_label::HudAreaLabel;
use crate::world::{
    em_camera_object, em_camera_root, em_decor, em_interactable, em_player, ents_model, ents_wf,
    BattleStarter, CameraObject, CameraRoot, DialogStarter, Entity, EntityModel,
    InteractablePayload, PayloadModel, Player, StateCleanup,
};
use crate::{AppState, StateMachine};
use vstd::prelude::*;

pub mod interactable;
pub mod interactables;
pub mod player;

use self::interactable::{inters_model, Interactable, InteractableModel};

verus! {

/// The player walks ten world units per second.
pub const PLAYER_SPEED: i64 = 10_000;

/// Renderer-side handle of the Ferris portrait sprite.
pub const FERRIS_SPRITE: u64 = 1;

/// The entities the overworld enter hook creates, in spawn order: the
/// ground plane, the player body, the camera rig, the two interactables,
/// and a point light, all owned by the overworld state.
pub open spec fn overworld_entities() -> Seq<EntityModel> {
    seq![
        em_decor(AppState::Overworld, Pos3 { x: 0, y: 0, z: 0 }),
        em_player(AppState::Overworld, Pos3 { x: 0, y: 1_000, z: 0 }, PLAYER_SPEED),
        em_camera_root(AppState::Overworld, Pos3 { x: 0, y: 0, z: 0 }),
        em_camera_object(AppState::Overworld, Pos3 { x: 0, y: 15_000, z: -15_000i64 }),
        em_interactable(
            AppState::Overworld,
            Pos3 { x: 5_000, y: 1_000, z: 5_000 },
            PayloadModel::Battle,
        ),
        em_interactable(
            AppState::Overworld,
            Pos3 { x: -5_000i64, y: 1_000, z: 5_000 },
            PayloadModel::Dialog { npc_name: "Ferris"@, sprite: FERRIS_SPRITE },
        ),
        em_decor(AppState::Overworld, Pos3 { x: 5_000, y: 10_000, z: 5_000 }),
    ]
}

/// Spawns the ground plane and the player body standing on it.
pub fn spawn_player(entities: &mut Vec<Entity>)
    ensures
        ents_model(final(entities)@) == ents_model(old(entities)@).push(
            em_decor(AppState::Overworld, Pos3 { x: 0, y: 0, z: 0 }),
        ).push(em_player(AppState::Overworld, Pos3 { x: 0, y: 1_000, z: 0 }, PLAYER_SPEED)),
{
    let mut ground = Entity::bare();
    ground.cleanup = Some(StateCleanup { owner: AppState::Overworld });
    ground.pos = Some(Pos3 { x: 0, y: 0, z: 0 });
    entities.push(ground);
    let mut body = Entity::bare();
    body.cleanup = Some(StateCleanup { owner: AppState::Overworld });
    body.pos = Some(Pos3 { x: 0, y: 1_000, z: 0 });
    body.player = Some(Player { speed: PLAYER_SPEED });
    entities.push(body);
    proof {
        assert(ents_model(entities@) =~= ents_model(old(entities)@).push(
            em_decor(AppState::Overworld, Pos3 { x: 0, y: 0, z: 0 }),
        ).push(em_player(AppState::Overworld, Pos3 { x: 0, y: 1_000, z: 0 }, PLAYER_SPEED)));
    }
}

/// Spawns the camera rig: a pivot at the origin (to be rotated by the
/// mouse) and the camera looking at the player from above and behind.
pub fn spawn_camera(entities: &mut Vec<Entity>)
    ensures
        ents_model(final(entities)@) == ents_model(old(entities)@).push(
            em_camera_root(AppState::Overworld, Pos3 { x: 0, y: 0, z: 0 }),
        ).push(em_camera_object(AppState::Overworld, Pos3 { x: 0, y: 15_000, z: -15_000i64 })),
{
    let mut root = Entity::bare();
    root.cleanup = Some(StateCleanup { owner: AppState::Overworld });
    root.pos = Some(Pos3 { x: 0, y: 0, z: 0 });
    root.camera_root = Some(CameraRoot);
    entities.push(root);
    let mut camera = Entity::bare();
    camera.cleanup = Some(StateCleanup { owner: AppState::Overworld });
    camera.pos = Some(Pos3 { x: 0, y: 15_000, z: -15_000i64 });
    camera.camera_object = Some(CameraObject);
    entities.push(camera);
    proof {
        assert(ents_model(entities@) =~= ents_model(old(entities)@).push(
            em_camera_root(AppState::Overworld, Pos3 { x: 0, y: 0, z: 0 }),
        ).push(em_camera_object(AppState::Overworld, Pos3 { x: 0, y: 15_000, z: -15_000i64 })));
    }
}

/// Spawns the two interactables: the battle-starting block and Ferris, the
/// dialog-starting NPC.
pub fn spawn_interactables(entities: &mut Vec<Entity>)
    ensures
        ents_model(final(entities)@) == ents_model(old(entities)@).push(
            em_interactable(
                AppState::Overworld,
                Pos3 { x: 5_000, y: 1_000, z: 5_000 },
                PayloadModel::Battle,
            ),
        ).push(
            em_interactable(
                AppState::Overworld,
                Pos3 { x: -5_000i64, y: 1_000, z: 5_000 },
                PayloadModel::Dialog { npc_name: "Ferris"@, sprite: FERRIS_SPRITE },
            ),
        ),
{
    let mut block = Entity::bare();
    block.cleanup = Some(StateCleanup { owner: AppState::Overworld });
    block.pos = Some(Pos3 { x: 5_000, y: 1_000, z: 5_000 });
    block.payload = Some(InteractablePayload::Battle(BattleStarter));
    entities.push(block);
    let mut ferris = Entity::bare();
    ferris.cleanup = Some(StateCleanup { owner: AppState::Overworld });
    ferris.pos = Some(Pos3 { x: -5_000i64, y: 1_000, z: 5_000 });
    ferris.payload = Some(
        InteractablePayload::Dialog(
            DialogStarter { npc_name: "Ferris".to_owned(), sprite: FERRIS_SPRITE },
        ),
    );
    entities.push(ferris);
    proof {
        assert(ents_model(entities@) =~= ents_model(old(entities)@).push(
            em_interactable(
                AppState::Overworld,
                Pos3 { x: 5_000, y: 1_000, z: 5_000 },
                PayloadModel::Battle,
            ),
        ).push(
            em_interactable(
                AppState::Overworld,
                Pos3 { x: -5_000i64, y: 1_000, z: 5_000 },
                PayloadModel::Dialog { npc_name: "Ferris"@, sprite: FERRIS_SPRITE },
            ),
        ));
    }
}

/// Builds the overworld scene, exactly as [`overworld_entities`] states it.
pub fn setup_overworld(entities: &mut Vec<Entity>)
    ensures
        ents_model(final(entities)@) == ents_model(old(entities)@) + overworld_entities(),
{
    spawn_player(entities);
    let ghost m1 = ents_model(entities@);
    spawn_camera(entities);
    let ghost m2 = ents_model(entities@);
    spawn_interactables(entities);
    let ghost m3 = ents_model(entities@);
    let mut light = Entity::bare();
    light.cleanup = Some(StateCleanup { owner: AppState::Overworld });
    light.pos = Some(Pos3 { x: 5_000, y: 10_000, z: 5_000 });
    entities.push(light);
    proof {
        assert(ents_model(entities@) =~= m3.push(
            em_decor(AppState::Overworld, Pos3 { x: 5_000, y: 10_000, z: 5_000 }),
        ));
        assert(ents_model(entities@) =~= ents_model(old(entities)@) + overworld_entities());
    }
}

/// Announces the overworld on the HUD area label.
pub fn show_area_title(hud: &mut HudAreaLabel)
    ensures
        final(hud)@ == old(hud)@.spec_show("Overworld"@),
{
    hud.show_area_title("Overworld");
}

/// Leaves the overworld for the main menu when the escape key was freshly
/// pressed this tick.
pub fn back_to_menu(escape_just_pressed: bool, state: &mut StateMachine)
    ensures
        *final(state) == if escape_just_pressed {
            old(state).spec_request(AppState::MainMenu)
        } else {
            *old(state)
        },
{
    if escape_just_pressed {
        state.request_transition(AppState::MainMenu);
    }
}

/// The positions of the player bodies in a ledger, in iteration order.
pub open spec fn players_of(s: Seq<EntityModel>) -> Seq<Pos3>
    decreases s.len(),
{
    if s.len() == 0 {
        Seq::empty()
    } else {
        let rest = players_of(s.drop_last());
        if s.last().player is Some && s.last().pos is Some {
            rest.push(s.last().pos->0)
        } else {
            rest
        }
    }
}

/// The positioned interactables in a ledger, in iteration order.
pub open spec fn interactables_of(s: Seq<EntityModel>) -> Seq<InteractableModel>
    decreases s.len(),
{
    if s.len() == 0 {
        Seq::empty()
    } else {
        let rest = interactables_of(s.drop_last());
        if s.last().payload is Some && s.last().pos is Some {
            rest.push(InteractableModel { pos: s.last().pos->0, payload: s.last().payload->0 })
        } else {
            rest
        }
    }
}

/// Collects the player positions from the ledger, exactly as [`players_of`]
/// states them.
pub fn collect_players(entities: &Vec<Entity>) -> (r: Vec<Pos3>)
    requires
        ents_wf(ents_model(entities@)),
    ensures
        r@ == players_of(ents_model(entities@)),
        forall|i: int| 0 <= i < r@.len() ==> (#[trigger] r@[i]).wf(),
{
    let mut out: Vec<Pos3> = Vec::new();
    let mut i: usize = 0;
    proof {
        assert(ents_model(entities@.take(0)).len() == 0);
    }
    while i < entities.len()
        invariant
            i <= entities@.len(),
            ents_wf(ents_model(entities@)),
            out@ == players_of(ents_model(entities@.take(i as int))),
            forall|k: int| 0 <= k < out@.len() ==> (#[trigger] out@[k]).wf(),
        decreases entities@.len() - i,
    {
        let ghost t = ents_model(entities@.take(i + 1));
        proof {
            assert(t.drop_last() =~= ents_model(entities@.take(i as int)));
            assert(t.last() == entities@[i as int]@);
            assert(ents_model(entities@)[i as int] == entities@[i as int]@);
            assert(ents_model(entities@)[i as int].wf());
        }
        let has = match (&entities[i].player, &entities[i].pos) {
            (Some(_), Some(_)) => true,
            _ => false,
        };
        if has {
            let p = match &entities[i].pos {
                Some(p) => *p,
                None => Pos3 { x: 0, y: 0, z: 0 },
            };
            out.push(p);
        }
        proof {
            assert(out@ =~= players_of(t));
        }
        i = i + 1;
    }
    proof {
        assert(entities@.take(entities@.len() as int) =~= entities@);
    }
    out
}

/// Collects the positioned interactables from the ledger, exactly as
/// [`interactables_of`] states them.
pub fn collect_interactables(entities: &Vec<Entity>) -> (r: Vec<Interactable>)
    requires
        ents_wf(ents_model(entities@)),
    ensures
        inters_model(r@) == interactables_of(ents_model(entities@)),
        forall|i: int| 0 <= i < r@.len() ==> (#[trigger] r@[i]).pos.wf(),
{
    let mut out: Vec<Interactable> = Vec::new();
    let mut i: usize = 0;
    proof {
        assert(ents_model(entities@.take(0)).len() == 0);
        assert(inters_model(out@) =~= interactables_of(ents_model(entities@.take(0))));
    }
    while i < entities.len()
        invariant
            i <= entities@.len(),
            ents_wf(ents_model(entities@)),
            inters_model(out@) == interactables_of(ents_model(entities@.take(i as int))),
            forall|k: int| 0 <= k < out@.len() ==> (#[trigger] out@[k]).pos.wf(),
        decreases entities@.len() - i,
    {
        let ghost t = ents_model(entities@.take(i + 1));
        proof {
            assert(t.drop_last() =~= ents_model(entities@.take(i as int)));
            assert(t.last() == entities@[i as int]@);
            assert(ents_model(entities@)[i as int] == entities@[i as int]@);
            assert(ents_model(entities@)[i as int].wf());
        }
        let has = match (&entities[i].payload, &entities[i].pos) {
            (Some(_), Some(_)) => true,
            _ => false,
        };
        if has {
            let p = match &entities[i].pos {
                Some(p) => *p,
                None => Pos3 { x: 0, y: 0, z: 0 },
            };
            let payload = match &entities[i].payload {
                Some(q) => crate::world::copy_payload(q),
                None => InteractablePayload::Battle(BattleStarter),
            };
            out.push(Interactable { pos: p, payload });
        }
        proof {
            assert(inters_model(out@) =~= interactables_of(t));
        }
        i = i + 1;
    }
    proof {
        assert(entities@.take(entities@.len() as int) =~= entities@);
    }
    out
}

} // verus!
