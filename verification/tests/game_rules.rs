use pong3d::game::{Game, Serve, Title, Winner, RAND_RESOLUTION, RNG_SEED, WIN_MARGIN, WIN_SCORE};
use pong3d::rng::{xorshift32, XorShift32};

fn at_score(player: u32, ai: u32) -> Game {
    Game { player_score: player, ai_score: ai, winner: None, ..Game::new() }
}

#[test]
fn constants_match_the_rules() {
    assert_eq!(WIN_SCORE, 11);
    assert_eq!(WIN_MARGIN, 2);
    assert_eq!(RAND_RESOLUTION, 10_000);
    assert_eq!(RNG_SEED, 0x9E37_79B9);
}

#[test]
fn xorshift_known_values() {
    assert_eq!(xorshift32(1), 270369);
    assert_eq!(xorshift32(0), 0);
    assert_eq!(xorshift32(RNG_SEED), 1359758873);
    assert_eq!(xorshift32(1359758873), 3761132862);
}

#[test]
fn generator_never_yields_zero() {
    let mut g = XorShift32::new(1);
    for _ in 0..1000 {
        assert_ne!(g.next(), 0);
    }
}

#[test]
fn new_match_starts_level_with_first_serve() {
    let g = Game::new();
    assert_eq!(g.player_score, 0);
    assert_eq!(g.ai_score, 0);
    assert_eq!(g.winner, None);
    assert!(!g.move_left && !g.move_right && !g.move_up && !g.move_down);
    assert_eq!(g.serve, Serve { toward_ai: true, rx_sample: 8873, ry_sample: 2862 });
}

#[test]
fn next_rand_continues_the_sequence() {
    let mut g = Game::new();
    assert_eq!(g.next_rand(), 8394);
    assert_eq!(g.next_rand(), 5621);
    let serve = g.serve;
    let mut h = Game::new();
    for _ in 0..200 {
        assert!(h.next_rand() < RAND_RESOLUTION);
    }
    assert_eq!(g.serve, serve);
}

#[test]
fn point_adds_one_and_serves_toward_trailing_side() {
    let mut g = Game::new();
    assert!(g.award_point(Winner::Player));
    assert_eq!((g.player_score, g.ai_score), (1, 0));
    assert!(g.serve.toward_ai);
    assert_eq!(g.serve.rx_sample, 8394);
    assert_eq!(g.serve.ry_sample, 5621);
    assert!(g.award_point(Winner::Ai));
    assert_eq!((g.player_score, g.ai_score), (1, 1));
    assert!(!g.serve.toward_ai);
    assert!(g.award_point(Winner::Ai));
    assert!(!g.serve.toward_ai);
}

#[test]
fn eleven_nine_wins() {
    let mut g = at_score(10, 9);
    assert!(!g.award_point(Winner::Player));
    assert_eq!(g.winner, Some(Winner::Player));
    assert_eq!((g.player_score, g.ai_score), (11, 9));
}

#[test]
fn eleven_ten_goes_on() {
    let mut g = at_score(10, 10);
    assert!(g.award_point(Winner::Player));
    assert_eq!(g.winner, None);
    assert!(g.award_point(Winner::Ai));
    assert_eq!(g.winner, None);
    assert!(g.award_point(Winner::Ai));
    assert!(!g.award_point(Winner::Ai));
    assert_eq!(g.winner, Some(Winner::Ai));
    assert_eq!((g.player_score, g.ai_score), (11, 13));
}

#[test]
fn ai_shutout() {
    let mut g = Game::new();
    for _ in 0..10 {
        assert!(g.award_point(Winner::Ai));
    }
    assert!(!g.award_point(Winner::Ai));
    assert_eq!(g.winner, Some(Winner::Ai));
    assert_eq!((g.player_score, g.ai_score), (0, 11));
}

#[test]
fn finished_match_ignores_points() {
    let mut g = at_score(10, 3);
    assert!(!g.award_point(Winner::Player));
    let serve = g.serve;
    assert!(!g.award_point(Winner::Ai));
    assert!(!g.award_point(Winner::Player));
    assert_eq!((g.player_score, g.ai_score), (11, 3));
    assert_eq!(g.winner, Some(Winner::Player));
    assert_eq!(g.serve, serve);
}

#[test]
fn restart_resets_scores_and_keeps_keys() {
    let mut g = at_score(10, 3);
    g.award_point(Winner::Player);
    g.move_up = true;
    g.restart();
    assert_eq!((g.player_score, g.ai_score), (0, 0));
    assert_eq!(g.winner, None);
    assert!(g.move_up);
    assert!(g.serve.toward_ai);
    assert!(g.serve.rx_sample < RAND_RESOLUTION && g.serve.ry_sample < RAND_RESOLUTION);
}

#[test]
fn steering_axes() {
    let mut g = Game::new();
    assert_eq!(g.move_direction(), (0, 0));
    g.move_left = true;
    assert_eq!(g.move_direction(), (-1, 0));
    g.move_right = true;
    assert_eq!(g.move_direction(), (0, 0));
    g.move_left = false;
    g.move_up = true;
    assert_eq!(g.move_direction(), (1, 1));
    g.move_down = true;
    assert_eq!(g.move_direction(), (1, 0));
    g.move_up = false;
    assert_eq!(g.move_direction(), (1, -1));
}

#[test]
fn titles_follow_the_match() {
    let mut g = at_score(4, 7);
    assert_eq!(g.title(), Title::Playing { player: 4, ai: 7 });
    let mut p = at_score(10, 2);
    p.award_point(Winner::Player);
    assert_eq!(p.title(), Title::PlayerWon { player: 11, ai: 2 });
    g = at_score(5, 10);
    g.award_point(Winner::Ai);
    assert_eq!(g.title(), Title::AiWon { ai: 11, player: 5 });
}
