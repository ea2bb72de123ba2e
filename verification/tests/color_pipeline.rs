//! Behavior of the palette store, the blender, and the sync decision.

use rps_automaton::blend::ColorBlender;
use rps_automaton::color::{pack_channels, Color, BLEND_STEP, COLOR_SCALE, TARGET_RADIUS};
use rps_automaton::palette::{ColorModes, PALETTE_COUNT};

fn rgb(r: u32, g: u32, b: u32) -> Color {
    Color::new(r, g, b)
}

#[test]
fn palette_cycle_round_trips_from_every_index() {
    for start in 0..PALETTE_COUNT {
        let mut m = ColorModes::new();
        for _ in 0..start {
            m.next();
        }
        assert_eq!(m.mode, start);
        m.next();
        m.prev();
        assert_eq!(m.mode, start);
        m.prev();
        m.next();
        assert_eq!(m.mode, start);
    }
}

#[test]
fn palette_cycling_wraps_at_both_ends() {
    let mut m = ColorModes::new();
    m.prev();
    assert_eq!(m.mode, PALETTE_COUNT - 1);
    m.next();
    assert_eq!(m.mode, 0);
    m.next();
    m.next();
    m.next();
    assert_eq!(m.mode, PALETTE_COUNT - 1);
    m.next();
    assert_eq!(m.mode, 0);
}

#[test]
fn palette_tables_hold_the_fixed_colors() {
    let mut m = ColorModes::new();
    // Standard RGB.
    assert_eq!(m.colors(), (rgb(1000, 0, 0), rgb(0, 1000, 0), rgb(0, 0, 1000)));
    m.next();
    // Complementary CMY.
    assert_eq!(m.colors(), (rgb(0, 1000, 1000), rgb(1000, 0, 1000), rgb(1000, 1000, 0)));
    m.next();
    // Darkened RGB.
    assert_eq!(m.colors(), (rgb(800, 0, 0), rgb(0, 800, 0), rgb(0, 0, 800)));
    m.next();
    // Grayscale.
    assert_eq!(m.colors(), (rgb(0, 0, 0), rgb(500, 500, 500), rgb(1000, 1000, 1000)));
}

#[test]
fn static_palette_syncs_once_and_never_again() {
    let mut m = ColorModes::new();
    // Mode entry: the initial palette push is owed.
    let first = m.sync();
    assert_eq!(first, Some((rgb(1000, 0, 0), rgb(0, 1000, 0), rgb(0, 0, 1000))));
    // A static palette across many ticks never owes another device write.
    for _ in 0..100 {
        m.tick();
        assert_eq!(m.sync(), None);
    }
}

#[test]
fn cycling_makes_exactly_one_push_pending() {
    let mut m = ColorModes::new();
    m.sync();
    m.next();
    let pushed = m.sync();
    assert_eq!(pushed, Some((rgb(0, 1000, 1000), rgb(1000, 0, 1000), rgb(1000, 1000, 0))));
    assert_eq!(m.sync(), None);
    m.tick();
    assert_eq!(m.sync(), None);
}

#[test]
fn enabling_the_blender_hands_off_seamlessly() {
    let mut m = ColorModes::new();
    m.next();
    m.next();
    m.sync();
    m.toggle_blender();
    // The blender starts from exactly the active (darkened RGB) palette.
    assert_eq!(m.colors(), (rgb(800, 0, 0), rgb(0, 800, 0), rgb(0, 0, 800)));
}

#[test]
fn blender_mode_is_dirty_every_tick() {
    let mut m = ColorModes::new();
    m.sync();
    m.toggle_blender();
    for _ in 0..10 {
        m.tick();
        assert!(m.sync().is_some());
        assert_eq!(m.sync(), None);
    }
}

#[test]
fn disabling_the_blender_restores_the_palette() {
    let mut m = ColorModes::new();
    m.sync();
    m.toggle_blender();
    for _ in 0..5 {
        m.tick();
    }
    m.sync();
    m.toggle_blender();
    // Returning to palette mode owes one push of the palette colors.
    assert_eq!(m.sync(), Some((rgb(1000, 0, 0), rgb(0, 1000, 0), rgb(0, 0, 1000))));
    assert_eq!(m.sync(), None);
}

#[test]
fn blend_steps_are_exact() {
    let mut c = rgb(0, 0, 0);
    let t = rgb(25, 40, 5);
    c.blend_to_target(&t, 10);
    assert_eq!(c, rgb(10, 10, 5));
    c.blend_to_target(&t, 10);
    assert_eq!(c, rgb(20, 20, 5));
    c.blend_to_target(&t, 10);
    assert_eq!(c, rgb(25, 30, 5));
    c.blend_to_target(&t, 10);
    assert_eq!(c, rgb(25, 40, 5));
}

#[test]
fn blend_reaches_the_target_within_the_step_bound() {
    let start = rgb(0, 930, 17);
    let target = rgb(1000, 0, 500);
    let mut c = start;
    let distance = c.dist(&target);
    let bound = (distance + BLEND_STEP - 1) / BLEND_STEP;
    let mut previous = distance;
    let mut steps = 0;
    while c != target {
        c.blend_to_target(&target, BLEND_STEP);
        let d = c.dist(&target);
        // Never overshoot: the distance is monotonically non-increasing.
        assert!(d <= previous);
        previous = d;
        steps += 1;
        assert!(steps <= bound);
    }
    assert_eq!(c, target);
}

#[test]
fn blender_step_moves_toward_a_kept_target() {
    let mut b = ColorBlender::new(BLEND_STEP);
    b.rock = rgb(0, 0, 0);
    b.rock_target = rgb(500, 0, 0);
    b.step();
    // The rock color was far from its target, so the target is kept and
    // the color moves one exact step.
    assert_eq!(b.rock_target, rgb(500, 0, 0));
    assert_eq!(b.rock, rgb(10, 0, 0));
    assert!(b.dirty);
    assert!(b.has_done_step);
}

#[test]
fn blender_retargets_within_the_clamped_radius() {
    let mut b = ColorBlender::new(BLEND_STEP);
    // Every role sits exactly on its target, so every role retargets.
    b.step();
    // Old rock target was full red: each channel stays inside the clamped
    // radius around it, and inside the valid range.
    let t = b.rock_target;
    assert!(t.r >= COLOR_SCALE - TARGET_RADIUS && t.r <= COLOR_SCALE);
    assert!(t.g <= TARGET_RADIUS);
    assert!(t.b <= TARGET_RADIUS);
}

#[test]
fn zero_radius_perturbation_returns_the_same_color() {
    let c = rgb(123, 456, 789);
    assert_eq!(c.rand_within(0), c);
}

#[test]
fn perturbation_respects_the_clamped_interval() {
    let c = rgb(100, 950, 0);
    for _ in 0..50 {
        let p = c.rand_within(TARGET_RADIUS);
        assert!(p.r <= 600);
        assert!(p.g >= 450 && p.g <= 1000);
        assert!(p.b <= 500);
    }
}

#[test]
fn distance_is_the_sum_of_channel_differences() {
    let a = rgb(100, 200, 300);
    let b = rgb(150, 180, 300);
    assert_eq!(a.dist(&b), 70);
    assert_eq!(b.dist(&a), 70);
    assert_eq!(a.dist(&a), 0);
}

#[test]
fn packed_channels_follow_the_device_layout() {
    let v = pack_channels((rgb(1, 2, 3), rgb(4, 5, 6), rgb(7, 8, 9)));
    assert_eq!(v, vec![1, 2, 3, 4, 5, 6, 7, 8, 9]);
}

#[test]
fn blender_reset_is_silent_until_the_walk_has_moved() {
    let mut b = ColorBlender::new(BLEND_STEP);
    b.reset(rgb(1, 2, 3), rgb(4, 5, 6), rgb(7, 8, 9));
    // No step had happened, so nothing became stale.
    assert!(!b.dirty);
    assert_eq!(b.rock, rgb(1, 2, 3));
    assert_eq!(b.rock_target, rgb(1, 2, 3));
    b.step();
    b.reset(rgb(1, 2, 3), rgb(4, 5, 6), rgb(7, 8, 9));
    // The walk had moved: the reset colors are stale until pushed.
    assert!(b.dirty);
    assert!(!b.has_done_step);
}
