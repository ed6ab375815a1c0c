//! The frame scheduler: one `Game` value owns the whole core state, and one
//! `tick` call advances it by one frame.
//!
//! A tick first applies a pending state transition (the leaving state's
//! exit hook despawns everything it owns, then the entered state's enter
//! hooks build its scene), then runs the current state's update hooks in
//! their registration order, and finally advances the HUD area label. The
//! whole step is stated by [`GameModel::spec_tick`], and every law about
//! the game loop is proved over that one function.

use crate::battle;
use crate::dialog;
use crate::dialog::{DialogModel, DialogResource};
use crate::hud_area_label::{
    hud_label_entities, setup_hud_area_label, update_hud_area_label, HudAreaLabel, HudModel,
};
use crate::menu::main_menu;
use crate::menu::settings;
use crate::overworld;
use crate::overworld::interactables::{
    as_battle_starter, as_dialog_starter, first_hit, interactable_interact,
    interactable_start_battle, interactable_start_dialog, lemma_first_hit_kind, PayloadKind,
};
use crate::overworld::player::{key_pressed, move_all, move_one, move_player};
use crate::overworld::{
    collect_interactables, collect_players, interactables_of, players_of, setup_overworld,
};
use crate::user_config::{KeyBinds, KeyCode};
use crate::world::{
    despawn_model, em_bare, ents_model, ents_wf, Entity, EntityModel, PayloadModel,
};
use crate::{AppState, StateMachine};
use vstd::prelude::*;

verus! {

/// The per-tick snapshot the shell hands the core: the elapsed time, the
/// raw key states (the core itself maps them through the configured key
/// bindings), and the menu buttons' click reports.
#[derive(Debug)]
pub struct TickInput {
    pub delta_ms: u64,
    /// Keys held down during this tick.
    pub pressed: Vec<KeyCode>,
    /// Keys freshly pressed on this tick (edge, not held).
    pub just_pressed: Vec<KeyCode>,
    pub clicked_exit_app: bool,
    pub clicked_enter_game: bool,
    pub clicked_open_settings: bool,
    pub clicked_exit_settings: bool,
}

/// The abstract value of a [`TickInput`].
pub struct TickModel {
    pub delta_ms: u64,
    pub pressed: Seq<KeyCode>,
    pub just_pressed: Seq<KeyCode>,
    pub clicked_exit_app: bool,
    pub clicked_enter_game: bool,
    pub clicked_open_settings: bool,
    pub clicked_exit_settings: bool,
}

impl View for TickInput {
    type V = TickModel;

    open spec fn view(&self) -> TickModel {
        TickModel {
            delta_ms: self.delta_ms,
            pressed: self.pressed@,
            just_pressed: self.just_pressed@,
            clicked_exit_app: self.clicked_exit_app,
            clicked_enter_game: self.clicked_enter_game,
            clicked_open_settings: self.clicked_open_settings,
            clicked_exit_settings: self.clicked_exit_settings,
        }
    }
}

/// The whole core state of the game.
#[derive(Debug)]
pub struct Game {
    pub machine: StateMachine,
    pub entities: Vec<Entity>,
    pub hud: HudAreaLabel,
    pub dialog: Option<DialogResource>,
    pub keybinds: KeyBinds,
    pub exit_requested: bool,
}

/// The abstract value of a [`Game`].
pub struct GameModel {
    pub machine: StateMachine,
    pub entities: Seq<EntityModel>,
    pub hud: HudModel,
    pub dialog: Option<DialogModel>,
    pub keybinds: KeyBinds,
    pub exit_requested: bool,
}

impl View for Game {
    type V = GameModel;

    open spec fn view(&self) -> GameModel {
        GameModel {
            machine: self.machine,
            entities: ents_model(self.entities@),
            hud: self.hud@,
            dialog: match self.dialog {
                Some(d) => Some(d@),
                None => None,
            },
            keybinds: self.keybinds,
            exit_requested: self.exit_requested,
        }
    }
}

/// The entities a state's enter hooks create.
pub open spec fn enter_spawn(state: AppState, dialog: Option<DialogModel>) -> Seq<EntityModel> {
    match state {
        AppState::MainMenu => main_menu::main_menu_entities(),
        AppState::SettingsMenu => settings::settings_entities(),
        AppState::Overworld => overworld::overworld_entities(),
        AppState::Battle => battle::battle_entities(),
        AppState::Dialog => dialog::dialog_entities(dialog),
    }
}

/// What a state's enter hooks do to the HUD area label: the overworld and
/// the battle announce themselves, the other screens leave it alone.
pub open spec fn enter_hud(state: AppState, hud: HudModel) -> HudModel {
    match state {
        AppState::Overworld => hud.spec_show("Overworld"@),
        AppState::Battle => hud.spec_show("The battle of Bevytown"@),
        _ => hud,
    }
}

impl GameModel {
    /// All positions in bounds, player speeds sane, and the HUD timers well
    /// formed.
    pub open spec fn wf(self) -> bool {
        ents_wf(self.entities) && self.hud.wf()
    }

    /// Every tagged entity belongs to the current state. This is the
    /// resource-lifecycle invariant behind bulk cleanup: holding between
    /// ticks, it means an exit hook removes exactly what its state created.
    pub open spec fn clean(self) -> bool {
        forall|i: int|
            0 <= i < self.entities.len() ==> ((#[trigger] self.entities[i]).cleanup matches Some(st)
                ==> st == self.machine.current)
    }

    /// The transition phase of one tick: while a transition is pending, the
    /// leaving state's exit hook despawns everything it owns (leaving the
    /// dialog screen also drops the staged dialog payload), the machine
    /// moves to the requested state, and that state's enter hooks build its
    /// scene. Without a pending transition nothing happens.
    pub open spec fn spec_transition(self) -> GameModel {
        if self.machine.spec_pending() {
            let survivors = despawn_model(self.entities, self.machine.current);
            let dialog = if self.machine.current == AppState::Dialog {
                None
            } else {
                self.dialog
            };
            let st = self.machine.requested;
            GameModel {
                machine: StateMachine { current: st, requested: st },
                entities: survivors + enter_spawn(st, dialog),
                hud: enter_hud(st, self.hud),
                dialog,
                ..self
            }
        } else {
            self
        }
    }

    /// The main menu's update hooks: the Quit, Play and Settings button
    /// handlers, in registration order.
    pub open spec fn spec_update_main_menu(self, input: TickModel) -> GameModel {
        let m1 = if input.clicked_enter_game {
            self.machine.spec_request(AppState::Overworld)
        } else {
            self.machine
        };
        let m2 = if input.clicked_open_settings {
            m1.spec_request(AppState::SettingsMenu)
        } else {
            m1
        };
        GameModel {
            machine: m2,
            exit_requested: self.exit_requested || input.clicked_exit_app,
            ..self
        }
    }

    /// The settings menu's update hooks: the Back button handler.
    pub open spec fn spec_update_settings(self, input: TickModel) -> GameModel {
        GameModel {
            machine: if input.clicked_exit_settings {
                self.machine.spec_request(AppState::MainMenu)
            } else {
                self.machine
            },
            ..self
        }
    }

    /// The overworld's update hooks, in registration order: player
    /// movement, the battle-starter interaction chain, the dialog-starter
    /// interaction chain, and the escape key back to the menu.
    pub open spec fn spec_update_overworld(self, input: TickModel) -> GameModel {
        let ents = move_all(self.entities, input.pressed, self.keybinds, input.delta_ms);
        let interact = input.just_pressed.contains(self.keybinds.interact);
        let players = players_of(ents);
        let items = interactables_of(ents);
        let hit_battle = if interact {
            first_hit(players, items, PayloadKind::Battle)
        } else {
            None
        };
        let m1 = if hit_battle is Some {
            self.machine.spec_request(AppState::Battle)
        } else {
            self.machine
        };
        let hit_dialog = if interact {
            first_hit(players, items, PayloadKind::Dialog)
        } else {
            None
        };
        let dialog = match hit_dialog {
            Some(PayloadModel::Dialog { npc_name, sprite }) => Some(
                DialogModel { npc_name, sprite },
            ),
            _ => self.dialog,
        };
        let m2 = match hit_dialog {
            Some(PayloadModel::Dialog { .. }) => m1.spec_request(AppState::Dialog),
            _ => m1,
        };
        let m3 = if input.just_pressed.contains(KeyCode::Escape) {
            m2.spec_request(AppState::MainMenu)
        } else {
            m2
        };
        GameModel { machine: m3, entities: ents, dialog, ..self }
    }

    /// The battle's update hooks: the escape key back to the overworld.
    pub open spec fn spec_update_battle(self, input: TickModel) -> GameModel {
        GameModel {
            machine: if input.just_pressed.contains(KeyCode::Escape) {
                self.machine.spec_request(AppState::Overworld)
            } else {
                self.machine
            },
            ..self
        }
    }

    /// The dialog's update hooks: the escape key back to the overworld.
    pub open spec fn spec_update_dialog(self, input: TickModel) -> GameModel {
        GameModel {
            machine: if input.just_pressed.contains(KeyCode::Escape) {
                self.machine.spec_request(AppState::Overworld)
            } else {
                self.machine
            },
            ..self
        }
    }

    /// The update phase of one tick: the current state's update hooks.
    pub open spec fn spec_updates(self, input: TickModel) -> GameModel {
        match self.machine.current {
            AppState::MainMenu => self.spec_update_main_menu(input),
            AppState::SettingsMenu => self.spec_update_settings(input),
            AppState::Overworld => self.spec_update_overworld(input),
            AppState::Battle => self.spec_update_battle(input),
            AppState::Dialog => self.spec_update_dialog(input),
        }
    }

    /// One whole tick: the transition phase, the entered (or unchanged)
    /// state's update hooks, and the HUD area label's own update, in that
    /// order.
    pub open spec fn spec_tick(self, input: TickModel) -> GameModel {
        let g1 = self.spec_transition();
        let g2 = g1.spec_updates(input);
        GameModel { hud: g2.hud.spec_update(input.delta_ms), ..g2 }
    }

    /// The model after a whole sequence of ticks, oldest input first.
    pub open spec fn spec_run(self, inputs: Seq<TickModel>) -> GameModel
        decreases inputs.len(),
    {
        if inputs.len() == 0 {
            self
        } else {
            self.spec_tick(inputs[0]).spec_run(inputs.drop_first())
        }
    }

    /// The freshly started game: the global UI camera and HUD label nodes,
    /// the main menu built by its enter hook, an idle HUD label, no staged
    /// dialog, and no pending transition away from the main menu.
    pub open spec fn spec_init(keybinds: KeyBinds) -> GameModel {
        GameModel {
            machine: StateMachine { current: AppState::MainMenu, requested: AppState::MainMenu },
            entities: seq![em_bare()] + hud_label_entities()
                + main_menu::main_menu_entities(),
            hud: HudModel {
                new_label: None,
                animation: None,
                hide_timer: None,
                display_text: Seq::<char>::empty(),
                display_frame: 0,
                shown: false,
            },
            dialog: None,
            keybinds,
            exit_requested: false,
        }
    }
}

/// Spawns the global UI camera, which no state owns.
pub fn global_setup(entities: &mut Vec<Entity>)
    ensures
        ents_model(final(entities)@) == ents_model(old(entities)@).push(em_bare()),
{
    entities.push(Entity::bare());
    proof {
        assert(ents_model(entities@) =~= ents_model(old(entities)@).push(em_bare()));
    }
}

impl Game {
    /// Starts the game: global setup, the HUD label nodes, and the main
    /// menu (the initial state's enter hook), exactly as
    /// [`GameModel::spec_init`] states it.
    pub fn new(keybinds: KeyBinds) -> (r: Game)
        ensures
            r@ == GameModel::spec_init(keybinds),
            r@.wf(),
            r@.clean(),
    {
        let mut entities: Vec<Entity> = Vec::new();
        global_setup(&mut entities);
        setup_hud_area_label(&mut entities);
        main_menu::setup(&mut entities);
        let game = Game {
            machine: StateMachine::new(AppState::MainMenu),
            entities,
            hud: HudAreaLabel::default(),
            dialog: None,
            keybinds,
            exit_requested: false,
        };
        proof {
            assert(game@.entities =~= GameModel::spec_init(keybinds).entities);
            assert(game@ == GameModel::spec_init(keybinds));
            assert forall|i: int| 0 <= i < game@.entities.len() implies (
            #[trigger] game@.entities[i]).wf() by {}
            assert forall|i: int|
                0 <= i < game@.entities.len() implies ((#[trigger] game@.entities[i]).cleanup
                matches Some(st) ==> st == game@.machine.current) by {}
        }
        game
    }

    /// Records an intended state change, honored at the next tick boundary.
    /// Later requests within the same tick overwrite earlier ones.
    pub fn request_transition(&mut self, target: AppState)
        ensures
            final(self)@ == (GameModel { machine: old(self)@.machine.spec_request(target), ..old(self)@ }),
    {
        self.machine.request_transition(target);
    }

    /// Advances the game by one frame, exactly as [`GameModel::spec_tick`]
    /// states it.
    pub fn tick(&mut self, input: &TickInput)
        requires
            old(self)@.wf(),
        ensures
            final(self)@ == old(self)@.spec_tick(input@),
            final(self)@.wf(),
    {
        let ghost g0 = self@;
        if self.machine.pending() {
            let leaving = self.machine.current;
            crate::world::despawn_all(&mut self.entities, leaving);
            if leaving == AppState::Dialog {
                self.dialog = None;
            }
            let st = self.machine.requested;
            self.machine.current = st;
            match st {
                AppState::MainMenu => main_menu::setup(&mut self.entities),
                AppState::SettingsMenu => settings::setup(&mut self.entities),
                AppState::Overworld => {
                    setup_overworld(&mut self.entities);
                    overworld::show_area_title(&mut self.hud);
                },
                AppState::Battle => {
                    battle::setup_battle(&mut self.entities);
                    battle::show_area_title(&mut self.hud);
                },
                AppState::Dialog => dialog::setup_dialog(&mut self.entities, &self.dialog),
            }
        }
        let ghost g1 = g0.spec_transition();
        proof {
            assert(self@ == g1);
            lemma_despawn_wf(g0.entities, g0.machine.current);
            lemma_enter_spawn_wf(g1.machine.current, g1.dialog);
            assert forall|i: int| 0 <= i < g1.entities.len() implies (
            #[trigger] g1.entities[i]).wf() by {
                if g0.machine.spec_pending() {
                    let survivors = despawn_model(g0.entities, g0.machine.current);
                    if i < survivors.len() {
                        assert(survivors[i].wf());
                    } else {
                        assert(enter_spawn(g1.machine.current, g1.dialog)[i - survivors.len()].wf());
                    }
                }
            }
        }
        match self.machine.current {
            AppState::MainMenu => {
                main_menu::button_exit_app(input.clicked_exit_app, &mut self.exit_requested);
                main_menu::button_enter_game(input.clicked_enter_game, &mut self.machine);
                main_menu::button_open_settings_menu(
                    input.clicked_open_settings,
                    &mut self.machine,
                );
            },
            AppState::SettingsMenu => {
                settings::button_exit_settings_menu(input.clicked_exit_settings, &mut self.machine);
            },
            AppState::Overworld => {
                proof {
                    assert forall|j: int| 0 <= j < self.entities@.len() implies (match (
                    #[trigger] self.entities@[j]@).player {
                        Some(pl) => 0 <= pl.speed <= 1_000_000,
                        None => true,
                    }) by {
                        assert(ents_model(self.entities@)[j].wf());
                    }
                }
                move_player(&mut self.entities, &input.pressed, &self.keybinds, input.delta_ms);
                let interact = key_pressed(&input.just_pressed, self.keybinds.interact);
                let players = collect_players(&self.entities);
                let items = collect_interactables(&self.entities);
                proof {
                    lemma_first_hit_kind(players@, crate::overworld::interactable::inters_model(items@), PayloadKind::Battle);
                    lemma_first_hit_kind(players@, crate::overworld::interactable::inters_model(items@), PayloadKind::Dialog);
                }
                let hit_battle = interactable_interact(&players, &items, interact, PayloadKind::Battle);
                let battle_starter = as_battle_starter(hit_battle);
                interactable_start_battle(battle_starter, &mut self.machine);
                let hit_dialog = interactable_interact(&players, &items, interact, PayloadKind::Dialog);
                let dialog_starter = as_dialog_starter(hit_dialog);
                interactable_start_dialog(dialog_starter, &mut self.dialog, &mut self.machine);
                let escape = key_pressed(&input.just_pressed, KeyCode::Escape);
                overworld::back_to_menu(escape, &mut self.machine);
            },
            AppState::Battle => {
                let escape = key_pressed(&input.just_pressed, KeyCode::Escape);
                battle::back_to_overworld(escape, &mut self.machine);
            },
            AppState::Dialog => {
                let escape = key_pressed(&input.just_pressed, KeyCode::Escape);
                dialog::back_to_overworld(escape, &mut self.machine);
            },
        }
        let ghost g2 = g1.spec_updates(input@);
        proof {
            assert(self@.machine == g2.machine);
            assert(self@.entities == g2.entities);
            assert(self@.dialog == g2.dialog);
            assert(self@.exit_requested == g2.exit_requested);
            assert(self@.hud == g2.hud);
            assert(self@ == g2);
        }
        update_hud_area_label(&mut self.hud, input.delta_ms);
        proof {
            assert(self@ == g0.spec_tick(input@));
        }
    }
}

/// The exit-hook survivors of a well-formed ledger are well formed.
proof fn lemma_despawn_wf(s: Seq<EntityModel>, st: AppState)
    requires
        ents_wf(s),
    ensures
        ents_wf(despawn_model(s, st)),
    decreases s.len(),
{
    if s.len() > 0 {
        assert(ents_wf(s.drop_last())) by {
            assert(forall|i: int|
                0 <= i < s.drop_last().len() ==> #[trigger] s.drop_last()[i] == s[i]);
        }
        lemma_despawn_wf(s.drop_last(), st);
        let r = despawn_model(s, st);
        let rest = despawn_model(s.drop_last(), st);
        assert forall|i: int| 0 <= i < r.len() implies (#[trigger] r[i]).wf() by {
            if i < rest.len() {
                assert(rest[i].wf());
            } else {
                assert(s.last().wf());
            }
        }
    }
}

/// Every entity a state's enter hooks create is well formed.
proof fn lemma_enter_spawn_wf(st: AppState, dialog: Option<DialogModel>)
    ensures
        ents_wf(enter_spawn(st, dialog)),
{
}

/// No entity tagged with the leaving state survives its exit hook.
proof fn lemma_despawn_no_tag(s: Seq<EntityModel>, st: AppState)
    ensures
        forall|k: int|
            0 <= k < despawn_model(s, st).len() ==> (#[trigger] despawn_model(s, st)[k]).cleanup
                != Some(st),
    decreases s.len(),
{
    if s.len() > 0 {
        lemma_despawn_no_tag(s.drop_last(), st);
        let r = despawn_model(s, st);
        let rest = despawn_model(s.drop_last(), st);
        assert forall|k: int| 0 <= k < r.len() implies (#[trigger] r[k]).cleanup != Some(st) by {
            if k < rest.len() {
                assert(rest[k].cleanup != Some(st));
            }
        }
    }
}

/// Where every tagged entity belongs to the leaving state, only untagged
/// entities survive its exit hook.
proof fn lemma_despawn_clean(s: Seq<EntityModel>, st: AppState)
    requires
        forall|i: int|
            0 <= i < s.len() ==> ((#[trigger] s[i]).cleanup matches Some(o) ==> o == st),
    ensures
        forall|k: int|
            0 <= k < despawn_model(s, st).len() ==> (#[trigger] despawn_model(s, st)[k]).cleanup
                is None,
    decreases s.len(),
{
    if s.len() > 0 {
        assert(forall|i: int|
            0 <= i < s.drop_last().len() ==> ((#[trigger] s.drop_last()[i]).cleanup matches Some(o)
                ==> o == st)) by {
            assert(forall|i: int|
                0 <= i < s.drop_last().len() ==> #[trigger] s.drop_last()[i] == s[i]);
        }
        lemma_despawn_clean(s.drop_last(), st);
        let r = despawn_model(s, st);
        let rest = despawn_model(s.drop_last(), st);
        assert forall|k: int| 0 <= k < r.len() implies (#[trigger] r[k]).cleanup is None by {
            if k < rest.len() {
                assert(rest[k].cleanup is None);
            } else {
                assert(s.last().cleanup matches Some(o) ==> o == st);
            }
        }
    }
}

/// Every tagged entity a state's enter hooks create is tagged with that
/// state.
proof fn lemma_enter_spawn_clean(st: AppState, dialog: Option<DialogModel>)
    ensures
        forall|k: int|
            0 <= k < enter_spawn(st, dialog).len() ==> ((#[trigger] enter_spawn(st, dialog)[k]).cleanup
                matches Some(o) ==> o == st),
{
}

/// Law: the state-cleanup ledger never leaks. Where every tagged entity
/// belongs to the current state, one tick keeps it so: a transition's exit
/// hook removes every entity its state created (exactly as many as were
/// tagged), the enter hooks tag all of their entities with the new state,
/// and no update hook spawns or retags. By induction the balance holds
/// across any number of enter/exit cycles.
pub proof fn lemma_tick_cleanup(g: GameModel, input: TickModel)
    requires
        g.clean(),
    ensures
        g.spec_tick(input).clean(),
        g.machine.spec_pending() ==> forall|k: int|
            0 <= k < g.spec_tick(input).entities.len() ==> (
            #[trigger] g.spec_tick(input).entities[k]).cleanup != Some(g.machine.current),
{
    let g1 = g.spec_transition();
    if g.machine.spec_pending() {
        let cur = g.machine.current;
        let survivors = despawn_model(g.entities, cur);
        lemma_despawn_clean(g.entities, cur);
        lemma_enter_spawn_clean(g1.machine.current, g1.dialog);
        assert forall|k: int| 0 <= k < g1.entities.len() implies ((
        #[trigger] g1.entities[k]).cleanup matches Some(o) ==> o == g1.machine.current) by {
            if k < survivors.len() {
                assert(survivors[k].cleanup is None);
            } else {
                assert(enter_spawn(g1.machine.current, g1.dialog)[k - survivors.len()].cleanup
                    matches Some(o) ==> o == g1.machine.current);
            }
        }
        assert(g1.clean());
    }
    let g2 = g1.spec_updates(input);
    assert(g2.machine.current == g1.machine.current);
    if g1.machine.current == AppState::Overworld {
        let moved = move_all(g1.entities, input.pressed, g1.keybinds, input.delta_ms);
        assert forall|k: int| 0 <= k < moved.len() implies (#[trigger] moved[k]).cleanup
            == g1.entities[k].cleanup by {
            assert(moved[k] == move_one(g1.entities[k], input.pressed, g1.keybinds, input.delta_ms));
        }
    }
    assert(g2.clean());
    let r = g.spec_tick(input);
    assert(r.entities == g2.entities && r.machine == g2.machine);
    assert(r.clean());
    if g.machine.spec_pending() {
        assert forall|k: int| 0 <= k < r.entities.len() implies (
        #[trigger] r.entities[k]).cleanup != Some(g.machine.current) by {
            assert(r.entities[k].cleanup matches Some(o) ==> o == r.machine.current);
            assert(r.machine.current != g.machine.current);
        }
    }
}

/// The cleanup balance of [`lemma_tick_cleanup`], carried over any number
/// of ticks.
pub proof fn lemma_run_cleanup(g: GameModel, inputs: Seq<TickModel>)
    requires
        g.clean(),
    ensures
        g.spec_run(inputs).clean(),
    decreases inputs.len(),
{
    if inputs.len() > 0 {
        lemma_tick_cleanup(g, inputs[0]);
        lemma_run_cleanup(g.spec_tick(inputs[0]), inputs.drop_first());
    }
}

} // verus!
