//! Whole-tick behavior: ordering, scoring, events, respawn, exit.

use game_of_squares::color::SpriteColor;
use game_of_squares::geometry::Pos;
use game_of_squares::input::{InputSnapshot, KeyInput, StickInput};
use game_of_squares::state::{SimState, Target};
use game_of_squares::tick::{check_the_hit, create_new_target, spawn_new_target, tick};

fn idle_keys() -> KeyInput {
    KeyInput { left: false, right: false, up: false, down: false, quit: false }
}

fn no_input() -> InputSnapshot {
    InputSnapshot { keys: idle_keys(), pads: Vec::new() }
}

fn far_target(id: u64) -> Target {
    Target { pos: Pos { x: 200_000, y: 200_000 }, color: SpriteColor::Gold, id }
}

#[test]
fn new_state_is_centered_green_and_scoreless() {
    let s = SimState::new();
    assert_eq!(s.player.pos, Pos { x: 0, y: 0 });
    assert_eq!(s.player.color, SpriteColor::Green);
    assert!(s.target.is_none());
    assert_eq!(s.score, 0);
    assert_eq!(s.next_target_id, 0);
}

#[test]
fn create_new_target_spawns_exactly_one_live_target() {
    let mut st = SimState::new();
    create_new_target(&mut st);
    let t = st.target.expect("a target must be live after the startup spawn");
    assert_eq!(t.id, 0);
    assert_ne!(t.color, SpriteColor::Green);
    assert_eq!(st.next_target_id, 1);
    assert_eq!(st.score, 0);
}

#[test]
fn idle_input_leaves_player_in_place_for_any_number_of_ticks() {
    let mut st = SimState::new();
    st.target = Some(far_target(0));
    st.next_target_id = 1;
    for _ in 0..200 {
        let out = tick(&mut st, &no_input(), 16);
        assert_eq!(st.player.pos, Pos { x: 0, y: 0 });
        assert!(out.hit.is_none());
        assert!(!out.play_sound);
        assert_eq!(st.score, 0);
    }
}

#[test]
fn scenario_drive_up_until_the_target_is_hit() {
    // Player at the center in green; target forced straight above at 300
    // pixels; the player drives up at full speed until the boxes overlap.
    let mut st = SimState::new();
    st.target = Some(Target { pos: Pos { x: 0, y: 300_000 }, color: SpriteColor::Gold, id: 7 });
    st.next_target_id = 8;
    let up = InputSnapshot {
        keys: KeyInput { left: false, right: false, up: true, down: false, quit: false },
        pads: Vec::new(),
    };
    let mut hits = 0;
    let mut hit_tick = 0;
    for n in 1..=15 {
        let out = tick(&mut st, &up, 100);
        assert_eq!(out.play_sound, out.hit.is_some());
        if out.hit.is_some() {
            hits += 1;
            hit_tick = n;
        }
    }
    // 30 pixels per tick: ticks 1..=9 leave a gap of at least 30 >= 29
    // pixels, the tenth reaches dead center.
    assert_eq!(hits, 1);
    assert_eq!(hit_tick, 10);
    assert_eq!(st.score, 1);
    assert_ne!(st.player.color, SpriteColor::Green);
    let fresh = st.target.expect("a new target must be live after the hit");
    assert_ne!(fresh.id, 7);
    assert_eq!(fresh.id, 8);
    assert_ne!(fresh.color, st.player.color);
}

#[test]
fn hit_tick_replaces_target_scores_and_recolors() {
    let mut st = SimState::new();
    // Force a target overlapping the player right away.
    st.target = Some(Target { pos: Pos { x: 10_000, y: 0 }, color: SpriteColor::Blue, id: 3 });
    st.next_target_id = 4;
    let out = tick(&mut st, &no_input(), 16);
    assert!(out.hit.is_some());
    assert!(out.play_sound);
    assert_eq!(st.score, 1);
    assert_eq!(out.score_digits, b"1".to_vec());
    assert_ne!(st.player.color, SpriteColor::Green);
    let fresh = st.target.expect("the reaction phase must respawn a target");
    assert_eq!(fresh.id, 4);
    assert_eq!(st.next_target_id, 5);
    assert_ne!(fresh.color, st.player.color);
}

#[test]
fn missed_tick_changes_nothing_but_the_position() {
    let mut st = SimState::new();
    st.target = Some(far_target(2));
    st.next_target_id = 3;
    let right = InputSnapshot {
        keys: KeyInput { left: false, right: true, up: false, down: false, quit: false },
        pads: Vec::new(),
    };
    let out = tick(&mut st, &right, 100);
    assert_eq!(st.player.pos, Pos { x: 30_000, y: 0 });
    assert!(out.hit.is_none());
    assert!(!out.play_sound);
    assert_eq!(out.rumble_pads, 0);
    assert_eq!(st.score, 0);
    assert_eq!(out.score_digits, b"0".to_vec());
    assert_eq!(st.player.color, SpriteColor::Green);
    assert_eq!(st.target.unwrap().id, 2);
    assert_eq!(st.next_target_id, 3);
}

#[test]
fn quit_key_requests_exit_whatever_else_is_pressed() {
    let mut st = SimState::new();
    st.target = Some(far_target(0));
    st.next_target_id = 1;
    let quit_and_move = InputSnapshot {
        keys: KeyInput { left: false, right: true, up: true, down: false, quit: true },
        pads: Vec::new(),
    };
    let out = tick(&mut st, &quit_and_move, 100);
    assert!(out.exit);
    // The tick itself still ran: movement was applied as usual.
    assert_eq!(st.player.pos, Pos { x: 21_210, y: 21_210 });
    let calm = tick(&mut st, &no_input(), 100);
    assert!(!calm.exit);
}

#[test]
fn rumble_goes_to_every_connected_pad_on_a_hit() {
    let mut st = SimState::new();
    st.target = Some(Target { pos: Pos { x: 0, y: 10_000 }, color: SpriteColor::Red, id: 0 });
    st.next_target_id = 1;
    // Two pads, both resting inside the dead zone.
    let pads = InputSnapshot {
        keys: idle_keys(),
        pads: vec![StickInput { x: 0, y: 0 }, StickInput { x: 100, y: -100 }],
    };
    let out = tick(&mut st, &pads, 16);
    assert!(out.hit.is_some());
    assert_eq!(out.rumble_pads, 2);
    let next = tick(&mut st, &pads, 16);
    assert!(next.hit.is_none());
    assert_eq!(next.rumble_pads, 0);
}

#[test]
fn gamepad_stick_drives_the_player_through_a_tick() {
    let mut st = SimState::new();
    st.target = Some(far_target(0));
    st.next_target_id = 1;
    let pad = InputSnapshot {
        keys: idle_keys(),
        pads: vec![StickInput { x: -1000, y: 0 }],
    };
    tick(&mut st, &pad, 100);
    assert_eq!(st.player.pos, Pos { x: -30_000, y: 0 });
}

#[test]
fn collision_phase_alone_consumes_the_target() {
    let mut st = SimState::new();
    st.target = Some(Target { pos: Pos { x: -20_000, y: 5_000 }, color: SpriteColor::Pink, id: 11 });
    st.next_target_id = 12;
    let hit = check_the_hit(&mut st);
    assert!(hit.is_some());
    assert!(st.target.is_none());
    assert_eq!(st.score, 1);
    assert_ne!(st.player.color, SpriteColor::Green);
    spawn_new_target(&mut st, &hit);
    assert!(st.target.is_some());
    assert_eq!(st.next_target_id, 13);
}

#[test]
fn collision_phase_without_overlap_changes_nothing() {
    let mut st = SimState::new();
    st.target = Some(far_target(5));
    st.next_target_id = 6;
    let hit = check_the_hit(&mut st);
    assert!(hit.is_none());
    assert_eq!(st.score, 0);
    assert_eq!(st.player.color, SpriteColor::Green);
    assert_eq!(st.target.unwrap().id, 5);
    spawn_new_target(&mut st, &hit);
    assert_eq!(st.next_target_id, 6);
}

#[test]
fn score_keeps_counting_across_many_hits() {
    let mut st = SimState::new();
    st.target = Some(Target { pos: Pos { x: 0, y: 0 }, color: SpriteColor::Gold, id: 0 });
    st.next_target_id = 1;
    let mut hits: u64 = 0;
    for _ in 0..50 {
        let out = tick(&mut st, &no_input(), 16);
        if out.hit.is_some() {
            hits += 1;
        }
        assert_eq!(st.score, hits);
        assert!(st.target.is_some());
    }
    // The first tick always hits; later ones only if a fresh target landed on
    // the centered player, which the clearance test rules out.
    assert_eq!(hits, 1);
}
