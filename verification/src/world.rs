//! The entity ledger: a per-state owned collection of the objects the game
//! has spawned, in spawn order.
//!
//! Every entity spawned by a state's enter or update hooks carries a
//! [`StateCleanup`] tag naming its owning state, so that leaving the state
//! removes exactly what the state created; a few global objects (the UI
//! camera, the HUD label nodes) carry no tag and outlive every state. An
//! entity is a bag of optional components, mirroring how the scene graph
//! attaches markers and data to spawned objects.

use crate::geom::Pos3;
use crate::AppState;
use vstd::prelude::*;

verus! {

/// Tags a spawned entity as belonging to one application state; the tagged
/// entity is removed in bulk when that state exits.
#[derive(Debug, Clone, Copy, PartialEq, Eq, Structural)]
pub struct StateCleanup {
    pub owner: AppState,
}

/// The player-controlled body. Speed is in milli-units per second.
#[derive(Debug, Clone, Copy, PartialEq, Eq, Structural)]
pub struct Player {
    pub speed: i64,
}

/// Marks the rotation pivot of the camera rig.
#[derive(Debug, Clone, Copy, PartialEq, Eq, Structural)]
pub struct CameraRoot;

/// Marks the camera itself, hung under the rig pivot.
#[derive(Debug, Clone, Copy, PartialEq, Eq, Structural)]
pub struct CameraObject;

/// Marks the UI nodes (two border images and the text) that render the HUD
/// area label.
#[derive(Debug, Clone, Copy, PartialEq, Eq, Structural)]
pub struct HudAreaLabelNode;

/// An interactable payload that starts a battle when triggered.
#[derive(Debug, Clone, Copy, PartialEq, Eq, Structural)]
pub struct BattleStarter;

/// An interactable payload that starts a dialog with an NPC when triggered.
/// `sprite` is a renderer-side handle to the NPC portrait.
#[derive(Debug, Clone)]
pub struct DialogStarter {
    pub npc_name: String,
    pub sprite: u64,
}

/// The closed set of interactable payload kinds.
#[derive(Debug, Clone)]
pub enum InteractablePayload {
    Battle(BattleStarter),
    Dialog(DialogStarter),
}

/// The logical actions for which the menus have a UI button.
#[derive(Debug, Clone, Copy, PartialEq, Eq, Structural)]
pub enum ButtonAction {
    EnterGame,
    ExitApp,
    OpenSettingsMenu,
    ExitSettingsMenu,
}

/// The abstract value of an [`InteractablePayload`], with text as a
/// character sequence.
pub enum PayloadModel {
    Battle,
    Dialog { npc_name: Seq<char>, sprite: u64 },
}

impl View for InteractablePayload {
    type V = PayloadModel;

    open spec fn view(&self) -> PayloadModel {
        match self {
            InteractablePayload::Battle(_) => PayloadModel::Battle,
            InteractablePayload::Dialog(d) => PayloadModel::Dialog {
                npc_name: d.npc_name@,
                sprite: d.sprite,
            },
        }
    }
}

/// A spawned object: a bag of optional components.
#[derive(Debug)]
pub struct Entity {
    pub cleanup: Option<StateCleanup>,
    pub pos: Option<Pos3>,
    pub player: Option<Player>,
    pub payload: Option<InteractablePayload>,
    pub button: Option<ButtonAction>,
    pub hud_node: Option<HudAreaLabelNode>,
    pub camera_root: Option<CameraRoot>,
    pub camera_object: Option<CameraObject>,
    /// Text shown by a UI entity (a menu title, the dialog NPC name).
    pub ui_text: Option<String>,
}

/// The abstract value of an [`Entity`].
pub struct EntityModel {
    pub cleanup: Option<AppState>,
    pub pos: Option<Pos3>,
    pub player: Option<Player>,
    pub payload: Option<PayloadModel>,
    pub button: Option<ButtonAction>,
    pub hud_node: bool,
    pub camera_root: bool,
    pub camera_object: bool,
    pub ui_text: Option<Seq<char>>,
}

impl View for Entity {
    type V = EntityModel;

    open spec fn view(&self) -> EntityModel {
        EntityModel {
            cleanup: match self.cleanup {
                Some(c) => Some(c.owner),
                None => None,
            },
            pos: self.pos,
            player: self.player,
            payload: match self.payload {
                Some(p) => Some(p@),
                None => None,
            },
            button: self.button,
            hud_node: self.hud_node is Some,
            camera_root: self.camera_root is Some,
            camera_object: self.camera_object is Some,
            ui_text: match self.ui_text {
                Some(t) => Some(t@),
                None => None,
            },
        }
    }
}

impl EntityModel {
    /// Any held position is inside the world bounds, and any player body
    /// has a sane nonnegative speed.
    pub open spec fn wf(self) -> bool {
        (self.pos matches Some(p) ==> p.wf()) && (self.player matches Some(pl) ==> 0 <= pl.speed
            <= 1_000_000)
    }
}

impl Entity {
    /// An entity with no components.
    pub fn bare() -> (r: Entity)
        ensures
            r@ == (EntityModel {
                cleanup: None,
                pos: None,
                player: None,
                payload: None,
                button: None,
                hud_node: false,
                camera_root: false,
                camera_object: false,
                ui_text: None,
            }),
    {
        Entity {
            cleanup: None,
            pos: None,
            player: None,
            payload: None,
            button: None,
            hud_node: None,
            camera_root: None,
            camera_object: None,
            ui_text: None,
        }
    }
}

/// The abstract value of a whole ledger: each entity's model, in spawn order.
pub open spec fn ents_model(s: Seq<Entity>) -> Seq<EntityModel> {
    s.map_values(|e: Entity| e@)
}

/// All positions in a ledger inside the world bounds.
pub open spec fn ents_wf(s: Seq<EntityModel>) -> bool {
    forall|i: int| 0 <= i < s.len() ==> (#[trigger] s[i]).wf()
}

/// Keeps an entity when leaving `state`: everything not tagged as owned by
/// `state`.
pub open spec fn survives(em: EntityModel, state: AppState) -> bool {
    em.cleanup != Some(state)
}

/// The ledger after the bulk cleanup that runs when `state` exits: the
/// entities not owned by `state`, in their old order.
pub open spec fn despawn_model(s: Seq<EntityModel>, state: AppState) -> Seq<EntityModel>
    decreases s.len(),
{
    if s.len() == 0 {
        Seq::empty()
    } else {
        let rest = despawn_model(s.drop_last(), state);
        if survives(s.last(), state) {
            rest.push(s.last())
        } else {
            rest
        }
    }
}

/// Despawn all entities tagged as owned by `state`.
///
/// This is the bulk cleanup run when `state` exits: afterwards the ledger
/// holds exactly the entities that did not belong to `state`, in their old
/// order.
pub fn despawn_all(entities: &mut Vec<Entity>, state: AppState)
    ensures
        ents_model(final(entities)@) == despawn_model(ents_model(old(entities)@), state),
{
    let mut kept: Vec<Entity> = Vec::new();
    let mut i: usize = 0;
    proof {
        assert(despawn_model(ents_model(old(entities)@.take(0)), state) =~= ents_model(kept@));
    }
    while i < entities.len()
        invariant
            i <= entities.len(),
            *entities == *old(entities),
            ents_model(kept@) == despawn_model(ents_model(entities@.take(i as int)), state),
        decreases entities.len() - i,
    {
        let ghost prefix = ents_model(entities@.take(i as int));
        let ghost t = ents_model(entities@.take(i + 1));
        let e = &entities[i];
        let keep = match &e.cleanup {
            Some(c) => !(c.owner == state),
            None => true,
        };
        proof {
            assert(t.drop_last() =~= prefix);
            assert(t.last() == entities@[i as int]@);
            assert(keep == survives(e@, state));
        }
        if keep {
            let ghost kept0 = kept@;
            let copied = copy_entity(e);
            kept.push(copied);
            proof {
                assert(ents_model(kept@) =~= ents_model(kept0).push(copied@));
                assert(ents_model(kept@) == despawn_model(t, state));
            }
        } else {
            proof {
                assert(ents_model(kept@) == despawn_model(t, state));
            }
        }
        i = i + 1;
    }
    proof {
        assert(entities@.take(entities@.len() as int) =~= entities@);
    }
    *entities = kept;
}

/// A field-for-field copy of an entity (entities hold a string, so they are
/// not `Copy`).
pub fn copy_entity(e: &Entity) -> (r: Entity)
    ensures
        r@ == e@,
{
    Entity {
        cleanup: e.cleanup,
        pos: e.pos,
        player: e.player,
        payload: match &e.payload {
            Some(p) => Some(copy_payload(p)),
            None => None,
        },
        button: e.button,
        hud_node: e.hud_node,
        camera_root: e.camera_root,
        camera_object: e.camera_object,
        ui_text: match &e.ui_text {
            Some(t) => Some(t.clone()),
            None => None,
        },
    }
}

/// A field-for-field copy of a payload.
pub fn copy_payload(p: &InteractablePayload) -> (r: InteractablePayload)
    ensures
        r@ == p@,
{
    match p {
        InteractablePayload::Battle(_) => InteractablePayload::Battle(BattleStarter),
        InteractablePayload::Dialog(d) => InteractablePayload::Dialog(
            DialogStarter { npc_name: d.npc_name.clone(), sprite: d.sprite },
        ),
    }
}


/// A bare model with no components.
pub open spec fn em_bare() -> EntityModel {
    EntityModel {
        cleanup: None,
        pos: None,
        player: None,
        payload: None,
        button: None,
        hud_node: false,
        camera_root: false,
        camera_object: false,
        ui_text: None,
    }
}

/// A decorative object (scenery, a light, a board) owned by `owner`.
pub open spec fn em_decor(owner: AppState, pos: Pos3) -> EntityModel {
    EntityModel { cleanup: Some(owner), pos: Some(pos), ..em_bare() }
}

/// The player body.
pub open spec fn em_player(owner: AppState, pos: Pos3, speed: i64) -> EntityModel {
    EntityModel { cleanup: Some(owner), pos: Some(pos), player: Some(Player { speed }), ..em_bare() }
}

/// The camera rig pivot.
pub open spec fn em_camera_root(owner: AppState, pos: Pos3) -> EntityModel {
    EntityModel { cleanup: Some(owner), pos: Some(pos), camera_root: true, ..em_bare() }
}

/// The camera hung under the rig pivot.
pub open spec fn em_camera_object(owner: AppState, pos: Pos3) -> EntityModel {
    EntityModel { cleanup: Some(owner), pos: Some(pos), camera_object: true, ..em_bare() }
}

/// A positioned interactable.
pub open spec fn em_interactable(owner: AppState, pos: Pos3, payload: PayloadModel) -> EntityModel {
    EntityModel { cleanup: Some(owner), pos: Some(pos), payload: Some(payload), ..em_bare() }
}

/// A UI button for one menu action.
pub open spec fn em_button(owner: AppState, action: ButtonAction) -> EntityModel {
    EntityModel { cleanup: Some(owner), button: Some(action), ..em_bare() }
}

/// A UI node showing a fixed text.
pub open spec fn em_ui_text(owner: AppState, text: Seq<char>) -> EntityModel {
    EntityModel { cleanup: Some(owner), ui_text: Some(text), ..em_bare() }
}

} // verus!
