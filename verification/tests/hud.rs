use sotora::hud_area_label::{update_hud_area_label, HudAreaLabel, BORDER_ANIMATION_FRAMES};

#[test]
fn labels_are_uppercased() {
    let mut hud = HudAreaLabel::default();
    hud.show_area_title("Overworld");
    update_hud_area_label(&mut hud, 1);
    assert_eq!(hud.display_text, "OVERWORLD");
}

#[test]
fn opening_completes_after_all_frames() {
    let mut hud = HudAreaLabel::default();
    hud.show_area_title("x");
    for _ in 0..BORDER_ANIMATION_FRAMES {
        update_hud_area_label(&mut hud, 80);
    }
    assert!(hud.animation.is_none());
    assert!(hud.is_fully_visible());
    assert_eq!(hud.display_frame, BORDER_ANIMATION_FRAMES - 1);
    assert_eq!(hud.display_text, "X");
}

#[test]
fn opening_walks_one_frame_per_frame_duration() {
    let mut hud = HudAreaLabel::default();
    hud.show_area_title("x");
    update_hud_area_label(&mut hud, 80);
    assert_eq!(hud.display_frame, 1);
    update_hud_area_label(&mut hud, 80);
    assert_eq!(hud.display_frame, 2);
    assert!(!hud.is_fully_visible());
}

#[test]
fn hide_timer_closes_the_label() {
    let mut hud = HudAreaLabel::default();
    hud.show_area_title("x");
    // One tick of the whole display duration expires the hide timer and
    // starts the closing animation...
    update_hud_area_label(&mut hud, 2_500);
    assert!(hud.animation.is_some());
    // ...and one frame duration per remaining frame fully closes it.
    for _ in 0..BORDER_ANIMATION_FRAMES {
        update_hud_area_label(&mut hud, 80);
    }
    assert!(hud.animation.is_none());
    assert!(!hud.is_fully_visible());
    assert_eq!(hud.display_frame, 0);
}

#[test]
fn hide_timer_fires_only_once() {
    let mut hud = HudAreaLabel::default();
    hud.show_area_title("x");
    update_hud_area_label(&mut hud, 2_500);
    for _ in 0..BORDER_ANIMATION_FRAMES {
        update_hud_area_label(&mut hud, 80);
    }
    // Long after everything finished, the label stays closed: the one-shot
    // hide timer does not restart the closing animation.
    update_hud_area_label(&mut hud, 10_000);
    assert!(hud.animation.is_none());
    assert!(!hud.is_fully_visible());
}

#[test]
fn retrigger_restarts_animation_and_text() {
    let mut hud = HudAreaLabel::default();
    hud.show_area_title("first");
    for _ in 0..5 {
        update_hud_area_label(&mut hud, 80);
    }
    hud.show_area_title("second");
    update_hud_area_label(&mut hud, 80);
    assert_eq!(hud.display_text, "SECOND");
    assert_eq!(hud.display_frame, 1);
}
