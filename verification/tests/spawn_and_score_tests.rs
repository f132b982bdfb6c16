//! Spawner placement and color rules, and the score display.

use game_of_squares::color::SpriteColor;
use game_of_squares::geometry::Pos;
use game_of_squares::score::score_digits;
use game_of_squares::spawn::spawn_target;

fn all_colors() -> Vec<SpriteColor> {
    vec![
        SpriteColor::Green,
        SpriteColor::Gold,
        SpriteColor::Crimson,
        SpriteColor::Purple,
        SpriteColor::Red,
        SpriteColor::OrangeRed,
        SpriteColor::Orange,
        SpriteColor::Pink,
        SpriteColor::Salmon,
        SpriteColor::Tomato,
        SpriteColor::LimeGreen,
        SpriteColor::Blue,
        SpriteColor::Yellow,
    ]
}

#[test]
fn spawned_color_never_matches_player_color() {
    for player_color in all_colors() {
        for _ in 0..30 {
            let t = spawn_target(Pos { x: 0, y: 0 }, player_color, 0);
            assert_ne!(t.color, player_color);
            assert_ne!(t.color, SpriteColor::Green);
        }
    }
}

#[test]
fn spawned_target_stays_in_spawn_region() {
    for i in 0..100u64 {
        let t = spawn_target(Pos { x: 100_000, y: -50_000 }, SpriteColor::Green, i);
        assert!(-306_000 <= t.pos.x && t.pos.x <= 306_000);
        assert!(-274_000 <= t.pos.y && t.pos.y <= 306_000);
        assert_eq!(t.id, i);
    }
}

#[test]
fn spawned_target_clears_player_on_at_least_one_axis() {
    let pp = Pos { x: 0, y: 0 };
    for _ in 0..100 {
        let t = spawn_target(pp, SpriteColor::Green, 0);
        let clear_x = t.pos.x + 14_000 < pp.x - 15_000;
        let clear_y = t.pos.y + 14_000 < pp.y - 15_000;
        assert!(clear_x || clear_y);
    }
}

#[test]
fn spawn_with_cornered_player_still_returns_a_target_in_bounds() {
    // In the bottom-left corner no candidate passes the asymmetric acceptance
    // test, so the sampler falls back to the region corner.
    let pp = Pos { x: -305_000, y: -273_000 };
    let t = spawn_target(pp, SpriteColor::Blue, 9);
    assert!(-306_000 <= t.pos.x && t.pos.x <= 306_000);
    assert!(-274_000 <= t.pos.y && t.pos.y <= 306_000);
    assert_ne!(t.color, SpriteColor::Blue);
}

#[test]
fn spawned_colors_vary_across_draws() {
    // 100 palette draws agree only with vanishing probability.
    let first = spawn_target(Pos { x: 0, y: 0 }, SpriteColor::Green, 0).color;
    let varied = (0..100)
        .any(|_| spawn_target(Pos { x: 0, y: 0 }, SpriteColor::Green, 0).color != first);
    assert!(varied);
}

#[test]
fn spawned_positions_vary_across_draws() {
    let first = spawn_target(Pos { x: 0, y: 0 }, SpriteColor::Green, 0).pos;
    let varied = (0..100)
        .any(|_| spawn_target(Pos { x: 0, y: 0 }, SpriteColor::Green, 0).pos != first);
    assert!(varied);
}

#[test]
fn score_display_renders_decimal_digits() {
    assert_eq!(score_digits(0), b"0".to_vec());
    assert_eq!(score_digits(7), b"7".to_vec());
    assert_eq!(score_digits(42), b"42".to_vec());
    assert_eq!(score_digits(1000), b"1000".to_vec());
    assert_eq!(score_digits(u64::MAX), b"18446744073709551615".to_vec());
}

#[test]
fn score_display_is_idempotent_for_unchanged_score() {
    for score in [0u64, 1, 9, 10, 99, 12345] {
        let first = score_digits(score);
        for _ in 0..5 {
            assert_eq!(score_digits(score), first);
        }
    }
}
