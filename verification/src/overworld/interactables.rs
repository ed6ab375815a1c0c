//! The proximity interaction protocol.
//!
//! Each payload kind has a detection pass and a dedicated handler. The
//! detection pass yields a payload (cloned, by value) only on a tick where
//! the interact key was freshly pressed and the player stands within
//! activation radius of an entity carrying a payload of the requested kind;
//! ties go to the first match in iteration order (players outer,
//! interactables inner). The handler may stage transition data and request
//! the state change; on `None` it does nothing.

use crate::dialog::DialogResource;
use crate::geom::{spec_within_radius, within_radius, Pos3};
use crate::overworld::interactable::{inters_model, Interactable, InteractableModel};
use crate::world::{copy_payload, BattleStarter, DialogStarter, InteractablePayload, PayloadModel};
use crate::{AppState, StateMachine};
use vstd::prelude::*;

verus! {

/// The closed set of interactable payload kinds, as a detection filter.
#[derive(Debug, Clone, Copy, PartialEq, Eq, Structural)]
pub enum PayloadKind {
    Battle,
    Dialog,
}

/// The kind a payload value belongs to.
pub open spec fn kind_of(p: PayloadModel) -> PayloadKind {
    match p {
        PayloadModel::Battle => PayloadKind::Battle,
        PayloadModel::Dialog { .. } => PayloadKind::Dialog,
    }
}

/// The first interactable of the requested kind within activation radius of
/// the player at `p`, in iteration order.
pub open spec fn first_hit_row(p: Pos3, items: Seq<InteractableModel>, kind: PayloadKind) -> Option<
    PayloadModel,
>
    decreases items.len(),
{
    if items.len() == 0 {
        None
    } else if kind_of(items[0].payload) == kind && spec_within_radius(p, items[0].pos) {
        Some(items[0].payload)
    } else {
        first_hit_row(p, items.drop_first(), kind)
    }
}

/// The payload yielded by the whole scan: players in iteration order, and
/// for each player the interactables in iteration order.
pub open spec fn first_hit(
    players: Seq<Pos3>,
    items: Seq<InteractableModel>,
    kind: PayloadKind,
) -> Option<PayloadModel>
    decreases players.len(),
{
    if players.len() == 0 {
        None
    } else {
        match first_hit_row(players[0], items, kind) {
            Some(p) => Some(p),
            None => first_hit(players.drop_first(), items, kind),
        }
    }
}

/// A yielded payload is of the requested kind.
pub proof fn lemma_first_hit_kind(players: Seq<Pos3>, items: Seq<InteractableModel>, kind: PayloadKind)
    ensures
        first_hit(players, items, kind) matches Some(p) ==> kind_of(p) == kind,
    decreases players.len(),
{
    if players.len() > 0 {
        lemma_first_hit_row_kind(players[0], items, kind);
        lemma_first_hit_kind(players.drop_first(), items, kind);
    }
}

proof fn lemma_first_hit_row_kind(p: Pos3, items: Seq<InteractableModel>, kind: PayloadKind)
    ensures
        first_hit_row(p, items, kind) matches Some(q) ==> kind_of(q) == kind,
    decreases items.len(),
{
    if items.len() > 0 {
        lemma_first_hit_row_kind(p, items.drop_first(), kind);
    }
}

/// Scans one player row, exactly as [`first_hit_row`] states it.
fn interact_row(p: &Pos3, interactables: &Vec<Interactable>, kind: PayloadKind) -> (r: Option<
    InteractablePayload,
>)
    requires
        p.wf(),
        forall|j: int| 0 <= j < interactables@.len() ==> (#[trigger] interactables@[j]).pos.wf(),
    ensures
        match r {
            Some(q) => first_hit_row(*p, inters_model(interactables@), kind) == Some(q@),
            None => first_hit_row(*p, inters_model(interactables@), kind) is None,
        },
{
    let ghost items = inters_model(interactables@);
    proof {
        assert(items.skip(0) =~= items);
    }
    let mut j: usize = 0;
    while j < interactables.len()
        invariant
            j <= interactables@.len(),
            items == inters_model(interactables@),
            p.wf(),
            forall|b: int| 0 <= b < interactables@.len() ==> (#[trigger] interactables@[b]).pos.wf(),
            first_hit_row(*p, items, kind) == first_hit_row(*p, items.skip(j as int), kind),
        decreases interactables@.len() - j,
    {
        let ghost rest = items.skip(j as int);
        proof {
            assert(rest[0] == items[j as int]);
            assert(rest.drop_first() =~= items.skip(j + 1));
        }
        let it = &interactables[j];
        let kind_matches = match (&it.payload, kind) {
            (InteractablePayload::Battle(_), PayloadKind::Battle) => true,
            (InteractablePayload::Dialog(_), PayloadKind::Dialog) => true,
            _ => false,
        };
        if kind_matches && within_radius(p, &it.pos) {
            return Some(copy_payload(&it.payload));
        }
        j = j + 1;
    }
    proof {
        assert(items.skip(items.len() as int).len() == 0);
    }
    None
}

/// Detects a proximity interaction for one payload kind.
///
/// Yields the payload of the first interactable of that kind (players in
/// iteration order, then interactables in iteration order) standing within
/// activation radius of a player — and only on a tick where the interact
/// key was freshly pressed. Yields `None` otherwise, exactly as
/// [`first_hit`] states it.
pub fn interactable_interact(
    players: &Vec<Pos3>,
    interactables: &Vec<Interactable>,
    interact_just_pressed: bool,
    kind: PayloadKind,
) -> (r: Option<InteractablePayload>)
    requires
        forall|i: int| 0 <= i < players@.len() ==> (#[trigger] players@[i]).wf(),
        forall|j: int| 0 <= j < interactables@.len() ==> (#[trigger] interactables@[j]).pos.wf(),
    ensures
        !interact_just_pressed ==> r is None,
        interact_just_pressed ==> match r {
            Some(q) => first_hit(players@, inters_model(interactables@), kind) == Some(q@),
            None => first_hit(players@, inters_model(interactables@), kind) is None,
        },
{
    if !interact_just_pressed {
        return None;
    }
    proof {
        assert(players@.skip(0) =~= players@);
    }
    let mut i: usize = 0;
    while i < players.len()
        invariant
            interact_just_pressed,
            i <= players@.len(),
            forall|a: int| 0 <= a < players@.len() ==> (#[trigger] players@[a]).wf(),
            forall|b: int| 0 <= b < interactables@.len() ==> (#[trigger] interactables@[b]).pos.wf(),
            first_hit(players@, inters_model(interactables@), kind) == first_hit(
                players@.skip(i as int),
                inters_model(interactables@),
                kind,
            ),
        decreases players@.len() - i,
    {
        let ghost rest = players@.skip(i as int);
        proof {
            assert(rest[0] == players@[i as int]);
            assert(rest.drop_first() =~= players@.skip(i + 1));
        }
        match interact_row(&players[i], interactables, kind) {
            Some(q) => {
                return Some(q);
            },
            None => {},
        }
        i = i + 1;
    }
    proof {
        assert(players@.skip(players@.len() as int).len() == 0);
    }
    None
}

/// Narrows a detected payload to a battle starter.
pub fn as_battle_starter(p: Option<InteractablePayload>) -> (r: Option<BattleStarter>)
    ensures
        r is Some <==> (p matches Some(q) && q@ is Battle),
{
    match p {
        Some(InteractablePayload::Battle(b)) => Some(b),
        _ => None,
    }
}

/// Narrows a detected payload to a dialog starter, keeping its data.
pub fn as_dialog_starter(p: Option<InteractablePayload>) -> (r: Option<DialogStarter>)
    ensures
        match r {
            Some(d) => (p matches Some(q) && q@ == (PayloadModel::Dialog {
                npc_name: d.npc_name@,
                sprite: d.sprite,
            })),
            None => !(p matches Some(q) && q@ is Dialog),
        },
{
    match p {
        Some(InteractablePayload::Dialog(d)) => Some(d),
        _ => None,
    }
}

/// Consumes a detected battle starter: on `Some`, requests the transition
/// to the battle screen; on `None`, does nothing.
pub fn interactable_start_battle(interactable: Option<BattleStarter>, state: &mut StateMachine)
    ensures
        *final(state) == if interactable is Some {
            old(state).spec_request(AppState::Battle)
        } else {
            *old(state)
        },
{
    if interactable.is_some() {
        state.request_transition(AppState::Battle);
    }
}

/// Consumes a detected dialog starter: on `Some`, stages the dialog payload
/// (replacing any earlier one) and requests the transition to the dialog
/// screen; on `None`, does nothing.
pub fn interactable_start_dialog(
    interactable: Option<DialogStarter>,
    dialog: &mut Option<DialogResource>,
    state: &mut StateMachine,
)
    ensures
        match interactable {
            Some(d) => *final(dialog) == Some(
                DialogResource { npc_name: d.npc_name, sprite: d.sprite },
            ) && *final(state) == old(state).spec_request(AppState::Dialog),
            None => *final(dialog) == *old(dialog) && *final(state) == *old(state),
        },
{
    if let Some(d) = interactable {
        *dialog = Some(DialogResource { npc_name: d.npc_name, sprite: d.sprite });
        state.request_transition(AppState::Dialog);
    }
}

} // verus!
