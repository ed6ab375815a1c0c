//! The HUD area label: a decorative title that pops up at the top of the
//! screen when the player enters a new area, independent of the application
//! state.
//!
//! The label runs a discrete open/close animation over
//! [`BORDER_ANIMATION_FRAMES`] border images plus an automatic hide-after-
//! delay timer. Each tick advances the per-frame timer by the elapsed time;
//! on expiry the frame index moves one step in the animation's direction,
//! and the animation object disappears once it passes its terminal frame.
//! Whether an idle label (no animation object) is fully visible or fully
//! hidden is recorded in an explicit `shown` sentinel rather than inferred
//! from the absence of an animation.

use crate::timer::Timer;
use crate::world::{em_bare, ents_model, Entity, EntityModel, HudAreaLabelNode};
use vstd::arithmetic::div_mod::lemma_mod_self_0;
use vstd::prelude::*;

verus! {

/// How many animation frames there are for the open/close animation of the
/// decorative border images.
pub const BORDER_ANIMATION_FRAMES: usize = 10;

/// How long a title stays visible before it hides itself, in milliseconds.
pub const TITLE_DISPLAY_TIME_MS: u64 = 2_500;

/// How long one animation frame lasts, in milliseconds: the whole show/hide
/// animation takes 800 milliseconds over the ten frames.
pub const FRAME_TIME_MS: u64 = 80;

/// What str::to_uppercase returns for a given character sequence.
pub uninterp spec fn upper_of(s: Seq<char>) -> Seq<char>;

/// Relies on str::to_uppercase: the uppercase mapping of the text, a
/// function of the characters alone.
#[verifier::external_body]
fn to_upper(s: &str) -> (r: String)
    ensures
        r@ == upper_of(s@),
{
    s.to_uppercase()
}

/// In-progress animation state: a frame index walking up (opening) or down
/// (closing) one step per expiry of a repeating frame timer.
#[derive(Debug, Clone, Copy, PartialEq, Eq, Structural)]
pub struct Animation {
    pub opening: bool,
    pub frame_index: usize,
    pub timer: Timer,
}

impl Animation {
    /// Frame index in range and a well-formed repeating frame timer.
    pub open spec fn wf(self) -> bool {
        self.frame_index < BORDER_ANIMATION_FRAMES && self.timer.wf() && self.timer.repeating
            && self.timer.duration_ms == FRAME_TIME_MS
    }

    /// The opening animation as it starts: first frame, fresh timer.
    pub open spec fn spec_new_opening() -> Animation {
        Animation {
            opening: true,
            frame_index: 0,
            timer: Timer {
                duration_ms: FRAME_TIME_MS,
                elapsed_ms: 0,
                repeating: true,
                finished: false,
                just_finished: false,
            },
        }
    }

    /// The closing animation as it starts: last frame, fresh timer.
    pub open spec fn spec_new_closing() -> Animation {
        Animation {
            opening: false,
            frame_index: (BORDER_ANIMATION_FRAMES - 1) as usize,
            timer: Timer {
                duration_ms: FRAME_TIME_MS,
                elapsed_ms: 0,
                repeating: true,
                finished: false,
                just_finished: false,
            },
        }
    }

    pub fn new_opening() -> (r: Animation)
        ensures
            r == Animation::spec_new_opening(),
    {
        Animation { opening: true, frame_index: 0, timer: Timer::new(FRAME_TIME_MS, true) }
    }

    pub fn new_closing() -> (r: Animation)
        ensures
            r == Animation::spec_new_closing(),
    {
        Animation {
            opening: false,
            frame_index: BORDER_ANIMATION_FRAMES - 1,
            timer: Timer::new(FRAME_TIME_MS, true),
        }
    }

    /// The animation after one tick: advance the frame timer; on expiry step
    /// the frame index, or end the animation (`None`) when the terminal
    /// frame in the current direction had already been reached.
    pub open spec fn spec_anim_tick(self, delta: u64) -> Option<Animation> {
        let t = self.timer.spec_tick(delta);
        if t.just_finished {
            if (self.opening && self.frame_index >= BORDER_ANIMATION_FRAMES - 1) || (!self.opening
                && self.frame_index == 0) {
                None
            } else if self.opening {
                Some(Animation { frame_index: (self.frame_index + 1) as usize, timer: t, ..self })
            } else {
                Some(Animation { frame_index: (self.frame_index - 1) as usize, timer: t, ..self })
            }
        } else {
            Some(Animation { timer: t, ..self })
        }
    }

    /// Advances the animation by `delta_ms`, exactly as
    /// [`Animation::spec_anim_tick`] states it.
    pub fn tick(self, delta_ms: u64) -> (r: Option<Animation>)
        requires
            self.wf(),
        ensures
            r == self.spec_anim_tick(delta_ms),
            r matches Some(a) ==> a.wf(),
    {
        let mut timer = self.timer;
        timer.tick(delta_ms);

        if timer.just_finished {
            if (self.opening && self.frame_index >= BORDER_ANIMATION_FRAMES - 1) || (!self.opening
                && self.frame_index == 0) {
                None
            } else {
                if self.opening {
                    Some(
                        Animation {
                            opening: self.opening,
                            frame_index: self.frame_index + 1,
                            timer,
                        },
                    )
                } else {
                    Some(
                        Animation {
                            opening: self.opening,
                            frame_index: self.frame_index - 1,
                            timer,
                        },
                    )
                }
            }
        } else {
            Some(Animation { opening: self.opening, frame_index: self.frame_index, timer })
        }
    }
}

/// The abstract value of a [`HudAreaLabel`]: the same fields with text as
/// character sequences.
pub struct HudModel {
    pub new_label: Option<Seq<char>>,
    pub animation: Option<Animation>,
    pub hide_timer: Option<Timer>,
    pub display_text: Seq<char>,
    pub display_frame: usize,
    pub shown: bool,
}

impl HudModel {
    pub open spec fn wf(self) -> bool {
        (self.animation matches Some(a) ==> a.wf()) && (self.hide_timer matches Some(t) ==> t.wf()
            && !t.repeating && t.duration_ms == TITLE_DISPLAY_TIME_MS) && self.display_frame
            < BORDER_ANIMATION_FRAMES
    }

    /// The model after `show_area_title(text)`: pending label set to the
    /// uppercase text, opening animation restarted from its first frame,
    /// hide timer restarted from zero. An explicit interrupt/restart: any
    /// animation or timer already running is discarded.
    pub open spec fn spec_show(self, text: Seq<char>) -> HudModel {
        HudModel {
            new_label: Some(upper_of(text)),
            animation: Some(Animation::spec_new_opening()),
            hide_timer: Some(
                Timer {
                    duration_ms: TITLE_DISPLAY_TIME_MS,
                    elapsed_ms: 0,
                    repeating: false,
                    finished: false,
                    just_finished: false,
                },
            ),
            ..self
        }
    }

    /// The model after one tick of `delta` milliseconds: the pending label
    /// is taken over as display text; the animation advances, pinning the
    /// display to its terminal frame and settling the `shown` sentinel when
    /// it completes; then the hide timer advances, and on its single expiry
    /// starts the closing animation.
    pub open spec fn spec_update(self, delta: u64) -> HudModel {
        let m1 = match self.new_label {
            Some(t) => HudModel { new_label: None, display_text: t, ..self },
            None => self,
        };
        let m2 = match m1.animation {
            Some(a) => match a.spec_anim_tick(delta) {
                Some(a2) => HudModel {
                    animation: Some(a2),
                    display_frame: a2.frame_index,
                    ..m1
                },
                None => HudModel {
                    animation: None,
                    shown: a.opening,
                    display_frame: if a.opening {
                        (BORDER_ANIMATION_FRAMES - 1) as usize
                    } else {
                        0
                    },
                    ..m1
                },
            },
            None => m1,
        };
        match m2.hide_timer {
            Some(t) => {
                let t2 = t.spec_tick(delta);
                if t2.just_finished {
                    HudModel {
                        hide_timer: Some(t2),
                        animation: Some(Animation::spec_new_closing()),
                        ..m2
                    }
                } else {
                    HudModel { hide_timer: Some(t2), ..m2 }
                }
            },
            None => m2,
        }
    }

    /// The model after `n` ticks of `delta` milliseconds each.
    pub open spec fn spec_update_n(self, delta: u64, n: nat) -> HudModel
        decreases n,
    {
        if n == 0 {
            self
        } else {
            self.spec_update(delta).spec_update_n(delta, (n - 1) as nat)
        }
    }
}

/// Displays a temporary area label on top of the screen.
///
/// Owns the pending label text (write-once-read-once), the current animation
/// if one runs, the hide countdown timer, and what the renderer currently
/// shows: the display text, the border frame index, and whether an idle
/// label is fully visible (`shown`) or fully hidden.
#[derive(Debug)]
pub struct HudAreaLabel {
    pub new_label: Option<String>,
    pub animation: Option<Animation>,
    pub hide_timer: Option<Timer>,
    pub display_text: String,
    pub display_frame: usize,
    pub shown: bool,
}

impl View for HudAreaLabel {
    type V = HudModel;

    open spec fn view(&self) -> HudModel {
        HudModel {
            new_label: match self.new_label {
                Some(s) => Some(s@),
                None => None,
            },
            animation: self.animation,
            hide_timer: self.hide_timer,
            display_text: self.display_text@,
            display_frame: self.display_frame,
            shown: self.shown,
        }
    }
}

impl Default for HudAreaLabel {
    /// An idle, fully hidden label with no text.
    fn default() -> (r: HudAreaLabel)
        ensures
            r@ == (HudModel {
                new_label: None,
                animation: None,
                hide_timer: None,
                display_text: Seq::<char>::empty(),
                display_frame: 0,
                shown: false,
            }),
            r@.wf(),
    {
        HudAreaLabel {
            new_label: None,
            animation: None,
            hide_timer: None,
            display_text: String::new(),
            display_frame: 0,
            shown: false,
        }
    }
}

impl HudAreaLabel {
    /// Whether the label is idle and fully open: the opening animation has
    /// completed and the closing one has not started. This is an explicit
    /// sentinel; an idle label can equally be fully hidden.
    pub fn is_fully_visible(&self) -> (r: bool)
        ensures
            r == (self@.animation is None && self@.shown),
    {
        self.animation.is_none() && self.shown
    }

    /// Schedules a new area title to be displayed: the text (in uppercase)
    /// becomes the pending label, the opening animation restarts from its
    /// first frame and the hide timer restarts from zero, whatever was
    /// running before.
    pub fn show_area_title(&mut self, label: &str)
        ensures
            final(self)@ == old(self)@.spec_show(label@),
            old(self)@.wf() ==> final(self)@.wf(),
    {
        self.new_label = Some(to_upper(label));
        self.animation = Some(Animation::new_opening());
        self.hide_timer = Some(Timer::new(TITLE_DISPLAY_TIME_MS, false));
    }
}

/// Advances the HUD area label by one tick of `delta_ms` milliseconds,
/// exactly as [`HudModel::spec_update`] states it.
pub fn update_hud_area_label(hud: &mut HudAreaLabel, delta_ms: u64)
    requires
        old(hud)@.wf(),
    ensures
        final(hud)@ == old(hud)@.spec_update(delta_ms),
        final(hud)@.wf(),
{
    if let Some(new_text) = hud.new_label.take() {
        hud.display_text = new_text;
    }

    if let Some(animation) = hud.animation.take() {
        hud.animation = animation.tick(delta_ms);

        match &hud.animation {
            Some(a) => {
                hud.display_frame = a.frame_index;
            },
            None => {
                hud.shown = animation.opening;
                hud.display_frame = if animation.opening {
                    BORDER_ANIMATION_FRAMES - 1
                } else {
                    0
                };
            },
        }
    }

    if let Some(hide_timer) = &mut hud.hide_timer {
        hide_timer.tick(delta_ms);

        if hide_timer.just_finished {
            hud.animation = Some(Animation::new_closing());
        }
    }
}

/// The UI nodes the HUD label startup hook creates: the two decorative
/// border images and the (initially empty) title text between them. They
/// are global: no state owns them, and they outlive every transition.
pub open spec fn hud_label_entities() -> Seq<EntityModel> {
    seq![
        EntityModel { hud_node: true, ..em_bare() },
        EntityModel { hud_node: true, ui_text: Some(Seq::<char>::empty()), ..em_bare() },
        EntityModel { hud_node: true, ..em_bare() },
    ]
}

/// Sets up the UI nodes for the HUD area label, exactly as
/// [`hud_label_entities`] states them.
pub fn setup_hud_area_label(entities: &mut Vec<Entity>)
    ensures
        ents_model(final(entities)@) == ents_model(old(entities)@) + hud_label_entities(),
{
    let mut left_border = Entity::bare();
    left_border.hud_node = Some(HudAreaLabelNode);
    entities.push(left_border);
    let mut text = Entity::bare();
    text.hud_node = Some(HudAreaLabelNode);
    text.ui_text = Some(String::new());
    entities.push(text);
    let mut right_border = Entity::bare();
    right_border.hud_node = Some(HudAreaLabelNode);
    entities.push(right_border);
    proof {
        assert(ents_model(entities@) =~= ents_model(old(entities)@) + hud_label_entities());
    }
}

/// Ticking is a left fold: one more tick at the end is one update of the
/// state after `n` ticks.
proof fn lemma_update_n_snoc(m: HudModel, delta: u64, n: nat)
    ensures
        m.spec_update_n(delta, n).spec_update(delta) == m.spec_update_n(delta, n + 1),
    decreases n,
{
    if n == 0 {
        assert(m.spec_update_n(delta, 0) == m);
        assert(m.spec_update_n(delta, 1) == m.spec_update(delta).spec_update_n(delta, 0));
    } else {
        lemma_update_n_snoc(m.spec_update(delta), delta, (n - 1) as nat);
        assert(m.spec_update_n(delta, n + 1) == m.spec_update(delta).spec_update_n(delta, n));
    }
}

/// The label mid-opening: after `k` frame-length ticks the pending text has
/// become the display text, the opening animation stands at frame `k` with
/// its timer freshly wrapped, and the hide timer has seen `k` frame lengths.
spec fn opening_state(m: HudModel, text: Seq<char>, k: int) -> HudModel {
    HudModel {
        new_label: None,
        animation: Some(
            Animation {
                opening: true,
                frame_index: k as usize,
                timer: Timer {
                    duration_ms: FRAME_TIME_MS,
                    elapsed_ms: 0,
                    repeating: true,
                    finished: true,
                    just_finished: true,
                },
            },
        ),
        hide_timer: Some(
            Timer {
                duration_ms: TITLE_DISPLAY_TIME_MS,
                elapsed_ms: (k * FRAME_TIME_MS) as u64,
                repeating: false,
                finished: false,
                just_finished: false,
            },
        ),
        display_text: upper_of(text),
        display_frame: k as usize,
        shown: m.shown,
    }
}

proof fn lemma_opening_progress(m: HudModel, text: Seq<char>, k: int)
    requires
        1 <= k < BORDER_ANIMATION_FRAMES,
    ensures
        m.spec_show(text).spec_update_n(FRAME_TIME_MS, k as nat) == opening_state(m, text, k),
    decreases k,
{
    lemma_mod_self_0(FRAME_TIME_MS as int);
    if k == 1 {
        assert(m.spec_show(text).spec_update_n(FRAME_TIME_MS, 1) == m.spec_show(text).spec_update(
            FRAME_TIME_MS,
        ).spec_update_n(FRAME_TIME_MS, 0));
        assert(m.spec_show(text).spec_update(FRAME_TIME_MS) == opening_state(m, text, 1));
    } else {
        lemma_opening_progress(m, text, k - 1);
        lemma_update_n_snoc(m.spec_show(text), FRAME_TIME_MS, (k - 1) as nat);
        assert(opening_state(m, text, k - 1).spec_update(FRAME_TIME_MS) == opening_state(
            m,
            text,
            k,
        ));
    }
}

/// Law: starting `show_area_title(text)` and then ticking by exactly one
/// frame length, [`BORDER_ANIMATION_FRAMES`] times, leaves no animation
/// object, the display pinned to the last frame, the label fully visible,
/// and the uppercase text on display.
pub proof fn lemma_open_animation_completes(m: HudModel, text: Seq<char>)
    ensures
        ({
            let r = m.spec_show(text).spec_update_n(
                FRAME_TIME_MS,
                BORDER_ANIMATION_FRAMES as nat,
            );
            &&& r.animation is None
            &&& r.display_frame == BORDER_ANIMATION_FRAMES - 1
            &&& r.shown
            &&& r.display_text == upper_of(text)
        }),
{
    lemma_mod_self_0(FRAME_TIME_MS as int);
    lemma_opening_progress(m, text, BORDER_ANIMATION_FRAMES - 1);
    lemma_update_n_snoc(m.spec_show(text), FRAME_TIME_MS, (BORDER_ANIMATION_FRAMES - 1) as nat);
}

/// The label mid-closing after the hide timer has fired: the closing
/// animation has walked `k` frames down from the last one, and the hide
/// timer stays expired.
spec fn closing_state(m: HudModel, text: Seq<char>, k: int) -> HudModel {
    HudModel {
        new_label: None,
        animation: Some(
            Animation {
                opening: false,
                frame_index: (BORDER_ANIMATION_FRAMES - 1 - k) as usize,
                timer: Timer {
                    duration_ms: FRAME_TIME_MS,
                    elapsed_ms: 0,
                    repeating: true,
                    finished: true,
                    just_finished: true,
                },
            },
        ),
        hide_timer: Some(
            Timer {
                duration_ms: TITLE_DISPLAY_TIME_MS,
                elapsed_ms: TITLE_DISPLAY_TIME_MS,
                repeating: false,
                finished: true,
                just_finished: false,
            },
        ),
        display_text: upper_of(text),
        display_frame: (BORDER_ANIMATION_FRAMES - 1 - k) as usize,
        shown: m.shown,
    }
}

proof fn lemma_closing_progress(m: HudModel, text: Seq<char>, k: int)
    requires
        1 <= k < BORDER_ANIMATION_FRAMES,
    ensures
        m.spec_show(text).spec_update(TITLE_DISPLAY_TIME_MS).spec_update_n(
            FRAME_TIME_MS,
            k as nat,
        ) == closing_state(m, text, k),
    decreases k,
{
    let b = m.spec_show(text).spec_update(TITLE_DISPLAY_TIME_MS);
    lemma_mod_self_0(FRAME_TIME_MS as int);
    vstd::arithmetic::div_mod::lemma_fundamental_div_mod_converse(
        TITLE_DISPLAY_TIME_MS as int,
        FRAME_TIME_MS as int,
        31,
        20,
    );
    if k == 1 {
        assert(b.spec_update_n(FRAME_TIME_MS, 1) == b.spec_update(FRAME_TIME_MS).spec_update_n(
            FRAME_TIME_MS,
            0,
        ));
        assert(b.spec_update(FRAME_TIME_MS) == closing_state(m, text, 1));
    } else {
        lemma_closing_progress(m, text, k - 1);
        lemma_update_n_snoc(b, FRAME_TIME_MS, (k - 1) as nat);
        assert(closing_state(m, text, k - 1).spec_update(FRAME_TIME_MS) == closing_state(
            m,
            text,
            k,
        ));
    }
}

/// Law: starting `show_area_title(text)`, ticking once by the whole display
/// duration (so the hide timer expires and the closing animation starts),
/// and then ticking by one frame length [`BORDER_ANIMATION_FRAMES`] more
/// times fully closes the label: no animation object, display pinned to the
/// first frame, not visible.
pub proof fn lemma_hide_animation_closes(m: HudModel, text: Seq<char>)
    ensures
        ({
            let r = m.spec_show(text).spec_update(TITLE_DISPLAY_TIME_MS).spec_update_n(
                FRAME_TIME_MS,
                BORDER_ANIMATION_FRAMES as nat,
            );
            &&& r.animation is None
            &&& r.display_frame == 0
            &&& !r.shown
            &&& r.display_text == upper_of(text)
        }),
{
    let b = m.spec_show(text).spec_update(TITLE_DISPLAY_TIME_MS);
    lemma_mod_self_0(FRAME_TIME_MS as int);
    lemma_closing_progress(m, text, BORDER_ANIMATION_FRAMES - 1);
    lemma_update_n_snoc(b, FRAME_TIME_MS, (BORDER_ANIMATION_FRAMES - 1) as nat);
}

} // verus!
