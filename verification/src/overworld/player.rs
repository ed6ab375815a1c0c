//! Player movement over the entity ledger.
//!
//! The player body moves in the ground plane while the matching movement
//! keys are held: forward decreases `z`, backward increases it, left
//! decreases `x`, right increases it (the body never rotates). The distance
//! covered in one tick is `speed` milli-units per second over the tick's
//! delta, and positions are clamped to the world bounds.

use crate::geom::{Pos3, POS_LIMIT};
use crate::user_config::{KeyBinds, KeyCode};
use crate::world::{ents_model, ents_wf, Entity, EntityModel};
use vstd::prelude::*;

verus! {

/// A displacement larger than the whole coordinate range moves an entity to
/// the world edge just the same, so one tick's displacement saturates here.
pub const DISP_CAP: i64 = 2_000_000_000;

/// The distance covered in one tick, in milli-units: `speed` milli-units
/// per second over `delta` milliseconds.
pub open spec fn spec_disp(speed: i64, delta: u64) -> int {
    speed * delta / 1000
}

/// A coordinate clamped to the world bounds.
pub open spec fn clamp_coord(v: int) -> i64 {
    if v < -POS_LIMIT {
        (-POS_LIMIT) as i64
    } else if v > POS_LIMIT {
        POS_LIMIT
    } else {
        v as i64
    }
}

/// Where one tick of held movement keys takes a body standing at `p`.
/// Opposite keys cancel; the height is untouched.
pub open spec fn moved_pos(p: Pos3, speed: i64, pressed: Seq<KeyCode>, kb: KeyBinds, delta: u64) -> Pos3 {
    let d = spec_disp(speed, delta);
    let dx = (if pressed.contains(kb.move_right) {
        d
    } else {
        0
    }) - (if pressed.contains(kb.move_left) {
        d
    } else {
        0
    });
    let dz = (if pressed.contains(kb.move_backward) {
        d
    } else {
        0
    }) - (if pressed.contains(kb.move_forward) {
        d
    } else {
        0
    });
    Pos3 { x: clamp_coord(p.x + dx), y: p.y, z: clamp_coord(p.z + dz) }
}

/// One entity after a movement tick: positioned player bodies move, all
/// other entities stand still.
pub open spec fn move_one(em: EntityModel, pressed: Seq<KeyCode>, kb: KeyBinds, delta: u64) -> EntityModel {
    if em.player is Some && em.pos is Some {
        EntityModel {
            pos: Some(moved_pos(em.pos->0, em.player->0.speed, pressed, kb, delta)),
            ..em
        }
    } else {
        em
    }
}

/// The whole ledger after a movement tick.
pub open spec fn move_all(s: Seq<EntityModel>, pressed: Seq<KeyCode>, kb: KeyBinds, delta: u64) -> Seq<EntityModel> {
    Seq::new(s.len(), |j: int| move_one(s[j], pressed, kb, delta))
}

/// Whether `k` is among the pressed keys.
pub fn key_pressed(keys: &Vec<KeyCode>, k: KeyCode) -> (r: bool)
    ensures
        r == keys@.contains(k),
{
    let mut i: usize = 0;
    while i < keys.len()
        invariant
            i <= keys@.len(),
            forall|j: int| 0 <= j < i ==> keys@[j] != k,
        decreases keys@.len() - i,
    {
        if keys[i] == k {
            return true;
        }
        i = i + 1;
    }
    false
}

/// The saturated displacement for one tick, exactly [`spec_disp`] capped at
/// [`DISP_CAP`].
fn disp_exec(speed: i64, delta: u64) -> (r: i64)
    requires
        0 <= speed <= 1_000_000,
    ensures
        r == if spec_disp(speed, delta) > DISP_CAP {
            DISP_CAP as int
        } else {
            spec_disp(speed, delta)
        },
        0 <= r <= DISP_CAP,
{
    proof {
        assert(speed * delta <= 0x10000000000000000000000000int) by (nonlinear_arith)
            requires
                0 <= speed <= 1_000_000,
                0 <= delta <= 0xffff_ffff_ffff_ffffu64,
        ;
    }
    let prod: u128 = (speed as u128) * (delta as u128);
    let dd: u128 = prod / 1000;
    if dd > 2_000_000_000u128 {
        DISP_CAP
    } else {
        dd as i64
    }
}

/// Clamps a coordinate to the world bounds, exactly as [`clamp_coord`]
/// states it.
fn clamp_exec(v: i64) -> (r: i64)
    ensures
        r == clamp_coord(v as int),
{
    if v < -POS_LIMIT {
        -POS_LIMIT
    } else if v > POS_LIMIT {
        POS_LIMIT
    } else {
        v
    }
}

/// Applying a capped displacement moves a bounded coordinate to the same
/// clamped place as the full displacement.
proof fn lemma_clamp_cap(c: int, dfull: int, dcap: int, positive: bool)
    requires
        -POS_LIMIT <= c <= POS_LIMIT,
        0 <= dcap <= dfull,
        dfull > DISP_CAP ==> dcap == DISP_CAP,
        dfull <= DISP_CAP ==> dcap == dfull,
    ensures
        positive ==> clamp_coord(c + dcap) == clamp_coord(c + dfull),
        !positive ==> clamp_coord(c - dcap) == clamp_coord(c - dfull),
{
}

/// Moves every positioned player body by one tick of the held movement
/// keys, exactly as [`move_all`] states it.
pub fn move_player(entities: &mut Vec<Entity>, pressed: &Vec<KeyCode>, keybinds: &KeyBinds, delta_ms: u64)
    requires
        ents_wf(ents_model(old(entities)@)),
        forall|j: int|
            0 <= j < old(entities)@.len() ==> (match (#[trigger] old(entities)@[j]@).player {
                Some(pl) => 0 <= pl.speed <= 1_000_000,
                None => true,
            }),
    ensures
        ents_model(final(entities)@) == move_all(
            ents_model(old(entities)@),
            pressed@,
            *keybinds,
            delta_ms,
        ),
        final(entities)@.len() == old(entities)@.len(),
        ents_wf(ents_model(final(entities)@)),
{
    let fwd = key_pressed(pressed, keybinds.move_forward);
    let back = key_pressed(pressed, keybinds.move_backward);
    let left = key_pressed(pressed, keybinds.move_left);
    let right = key_pressed(pressed, keybinds.move_right);
    let n = entities.len();
    let mut i: usize = 0;
    while i < n
        invariant
            n == entities@.len() == old(entities)@.len(),
            i <= n,
            fwd == pressed@.contains(keybinds.move_forward),
            back == pressed@.contains(keybinds.move_backward),
            left == pressed@.contains(keybinds.move_left),
            right == pressed@.contains(keybinds.move_right),
            forall|j: int|
                0 <= j < old(entities)@.len() ==> (match (#[trigger] old(entities)@[j]@).player {
                    Some(pl) => 0 <= pl.speed <= 1_000_000,
                    None => true,
                }),
            ents_wf(ents_model(old(entities)@)),
            forall|j: int|
                i <= j < n ==> #[trigger] entities@[j]@ == old(entities)@[j]@,
            forall|j: int|
                0 <= j < i ==> #[trigger] entities@[j]@ == move_one(
                    old(entities)@[j]@,
                    pressed@,
                    *keybinds,
                    delta_ms,
                ),
        decreases n - i,
    {
        proof {
            assert(ents_model(old(entities)@)[i as int] == old(entities)@[i as int]@);
            assert(ents_model(old(entities)@)[i as int].wf());
        }
        let speed_opt: Option<i64> = match (&entities[i].player, &entities[i].pos) {
            (Some(pl), Some(_)) => Some(pl.speed),
            _ => None,
        };
        if let Some(speed) = speed_opt {
            let p = match &entities[i].pos {
                Some(p) => *p,
                None => Pos3 { x: 0, y: 0, z: 0 },
            };
            let d = disp_exec(speed, delta_ms);
            let ghost dfull = spec_disp(speed, delta_ms);
            proof {
                assert(dfull >= 0) by (nonlinear_arith)
                    requires
                        dfull == speed * delta_ms / 1000,
                        speed >= 0,
                        delta_ms >= 0,
                ;
            }
            let mut x = p.x;
            let mut z = p.z;
            if right && !left {
                x = clamp_exec(x + d);
                proof {
                    lemma_clamp_cap(p.x as int, dfull, d as int, true);
                }
            }
            if left && !right {
                x = clamp_exec(x - d);
                proof {
                    lemma_clamp_cap(p.x as int, dfull, d as int, false);
                }
            }
            if back && !fwd {
                z = clamp_exec(z + d);
                proof {
                    lemma_clamp_cap(p.z as int, dfull, d as int, true);
                }
            }
            if fwd && !back {
                z = clamp_exec(z - d);
                proof {
                    lemma_clamp_cap(p.z as int, dfull, d as int, false);
                }
            }
            let np = Pos3 { x, y: p.y, z };
            proof {
                assert(np == moved_pos(p, speed, pressed@, *keybinds, delta_ms));
            }
            entities[i].pos = Some(np);
            proof {
                assert(entities@[i as int]@ == move_one(
                    old(entities)@[i as int]@,
                    pressed@,
                    *keybinds,
                    delta_ms,
                ));
            }
        } else {
            proof {
                assert(entities@[i as int]@ == move_one(
                    old(entities)@[i as int]@,
                    pressed@,
                    *keybinds,
                    delta_ms,
                ));
            }
        }
        i = i + 1;
    }
    proof {
        assert(ents_model(entities@) =~= move_all(
            ents_model(old(entities)@),
            pressed@,
            *keybinds,
            delta_ms,
        ));
        assert forall|j: int| 0 <= j < ents_model(entities@).len() implies (
        #[trigger] ents_model(entities@)[j]).wf() by {
            assert(ents_model(old(entities)@)[j].wf());
        }
    }
}

} // verus!
