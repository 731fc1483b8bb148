//! Match rules: scores, the win condition, serves and the steering input.
use vstd::prelude::*;
use crate::rng::{XorShift32, xorshift32_spec};

verus! {

/// Points a side needs before it can win.
pub const WIN_SCORE: u32 = 11;

/// Lead a side needs over the other to win.
pub const WIN_MARGIN: u32 = 2;

/// Seed of the serve generator of a new match.
pub const RNG_SEED: u32 = 0x9E37_79B9;

/// Random serve samples are whole numbers below this bound; a sample `s`
/// stands for the fraction `s / RAND_RESOLUTION` of the unit interval.
pub const RAND_RESOLUTION: u32 = 10_000;

/// The side that won a finished match.
#[derive(Clone, Copy, PartialEq, Eq, Debug, Structural)]
pub enum Winner {
    Player,
    Ai,
}

/// What a serve hands to the physics: the direction of travel along the
/// table and the two random samples that tilt the ball sideways and
/// vertically.
#[derive(Clone, Copy, PartialEq, Eq, Debug, Structural)]
pub struct Serve {
    /// The ball travels toward the AI's end (away from the player).
    pub toward_ai: bool,
    /// Sample in `0..RAND_RESOLUTION` for the sideways tilt.
    pub rx_sample: u32,
    /// Sample in `0..RAND_RESOLUTION` for the vertical tilt.
    pub ry_sample: u32,
}

/// Distance between two scores.
pub open spec fn score_gap(p: int, a: int) -> int {
    if p >= a {
        p - a
    } else {
        a - p
    }
}

/// The winner that a score line decides, if any: a side wins once either
/// side has reached `WIN_SCORE` and the scores are `WIN_MARGIN` apart; the
/// winner is then the side ahead.
pub open spec fn match_winner(player: u32, ai: u32) -> Option<Winner> {
    if (player >= WIN_SCORE || ai >= WIN_SCORE) && score_gap(player as int, ai as int)
        >= WIN_MARGIN {
        Some(
            if player > ai {
                Winner::Player
            } else {
                Winner::Ai
            },
        )
    } else {
        None
    }
}

/// Random sample that the generator state `state` yields.
pub open spec fn rand_sample(state: u32) -> u32 {
    state % RAND_RESOLUTION
}

/// The serve drawn from generator state `state`: two steps of the generator,
/// one sample each.
pub open spec fn serve_draw(state: u32, toward_ai: bool) -> Serve {
    Serve {
        toward_ai,
        rx_sample: rand_sample(xorshift32_spec(state)),
        ry_sample: rand_sample(xorshift32_spec(xorshift32_spec(state))),
    }
}

/// Generator state after a serve drawn from `state`.
pub open spec fn after_serve(state: u32) -> u32 {
    xorshift32_spec(xorshift32_spec(state))
}

/// Steering along one axis from the two keys that push it: -1, 0 or 1.
pub open spec fn axis(negative: bool, positive: bool) -> int {
    (if positive {
        1int
    } else {
        0int
    }) - (if negative {
        1int
    } else {
        0int
    })
}

/// The discrete state of a match: scores, the winner once there is one, the
/// held steering keys, the current serve and the serve generator.
pub struct Game {
    pub player_score: u32,
    pub ai_score: u32,
    pub winner: Option<Winner>,
    pub move_left: bool,
    pub move_right: bool,
    pub move_up: bool,
    pub move_down: bool,
    /// The most recent serve; a new one is drawn at the start of the match,
    /// on restart and after every point that does not end the match.
    pub serve: Serve,
    /// The serve generator.
    pub rng: XorShift32,
}

/// Text that the window title shows for a match state.
#[derive(Clone, Copy, PartialEq, Eq, Debug, Structural)]
pub enum Title {
    /// The match goes on; the current score line.
    Playing { player: u32, ai: u32 },
    /// The player won with this score line.
    PlayerWon { player: u32, ai: u32 },
    /// The AI won with this score line.
    AiWon { ai: u32, player: u32 },
}

impl Game {
    /// Current state of the serve generator.
    pub open spec fn rng(self) -> u32 {
        self.rng.state()
    }

    /// The match invariant: the winner is exactly what the score line
    /// decides.
    pub open spec fn wf(self) -> bool {
        self.winner == match_winner(self.player_score, self.ai_score)
    }

    /// The held steering keys of `self` and `other` agree.
    pub open spec fn same_keys(self, other: Game) -> bool {
        &&& self.move_left == other.move_left
        &&& self.move_right == other.move_right
        &&& self.move_up == other.move_up
        &&& self.move_down == other.move_down
    }

    /// `self` is `old` started over: scores zero, no winner, the same held
    /// keys, and a new serve toward the AI.
    pub open spec fn restarted_from(self, old: Game) -> bool {
        &&& self.player_score == 0
        &&& self.ai_score == 0
        &&& self.winner is None
        &&& self.same_keys(old)
        &&& self.serve == serve_draw(old.rng(), true)
        &&& self.rng() == after_serve(old.rng())
    }

    /// Score of the side `side`.
    pub open spec fn score_of(self, side: Winner) -> u32 {
        match side {
            Winner::Player => self.player_score,
            Winner::Ai => self.ai_score,
        }
    }

    /// A fresh match: no points, no winner, no key held, and the first serve
    /// drawn from `RNG_SEED`, toward the AI.
    pub fn new() -> (g: Game)
        ensures
            g.player_score == 0,
            g.ai_score == 0,
            g.winner is None,
            !g.move_left && !g.move_right && !g.move_up && !g.move_down,
            g.serve == serve_draw(RNG_SEED, true),
            g.rng() == after_serve(RNG_SEED),
            g.wf(),
    {
        let mut g = Game {
            player_score: 0,
            ai_score: 0,
            winner: None,
            move_left: false,
            move_right: false,
            move_up: false,
            move_down: false,
            serve: Serve { toward_ai: true, rx_sample: 0, ry_sample: 0 },
            rng: XorShift32::new(RNG_SEED),
        };
        g.serve(true);
        g
    }

    /// Steps the generator and returns its new sample, a whole number below
    /// `RAND_RESOLUTION`.
    pub fn next_rand(&mut self) -> (r: u32)
        ensures
            final(self).rng() == xorshift32_spec(old(self).rng()),
            r == rand_sample(final(self).rng()),
            r < RAND_RESOLUTION,
            final(self).player_score == old(self).player_score,
            final(self).ai_score == old(self).ai_score,
            final(self).winner == old(self).winner,
            final(self).serve == old(self).serve,
            final(self).same_keys(*old(self)),
    {
        let x = self.rng.next();
        x % RAND_RESOLUTION
    }

    /// Draws a new serve in direction `toward_ai`.
    fn serve(&mut self, toward_ai: bool)
        ensures
            final(self).serve == serve_draw(old(self).rng(), toward_ai),
            final(self).rng() == after_serve(old(self).rng()),
            final(self).player_score == old(self).player_score,
            final(self).ai_score == old(self).ai_score,
            final(self).winner == old(self).winner,
            final(self).same_keys(*old(self)),
    {
        let rx = self.next_rand();
        let ry = self.next_rand();
        self.serve = Serve { toward_ai, rx_sample: rx, ry_sample: ry };
    }

    /// Starts the match over: scores back to zero, no winner, and a new
    /// serve toward the AI. Held keys stay as they are.
    pub fn restart(&mut self)
        ensures
            final(self).restarted_from(*old(self)),
            final(self).wf(),
    {
        self.player_score = 0;
        self.ai_score = 0;
        self.winner = None;
        self.serve(true);
    }

    /// After a point: ends the match if the score line decides it, else
    /// serves again, toward the AI exactly when the player leads. Returns
    /// whether a serve was drawn.
    fn after_point(&mut self) -> (served: bool)
        ensures
            final(self).player_score == old(self).player_score,
            final(self).ai_score == old(self).ai_score,
            final(self).same_keys(*old(self)),
            final(self).winner == (if served {
                old(self).winner
            } else {
                match_winner(old(self).player_score, old(self).ai_score)
            }),
            served == (match_winner(old(self).player_score, old(self).ai_score) is None),
            served ==> final(self).serve == serve_draw(
                old(self).rng(),
                old(self).player_score > old(self).ai_score,
            ),
            served ==> final(self).rng() == after_serve(old(self).rng()),
            !served ==> final(self).serve == old(self).serve,
            !served ==> final(self).rng() == old(self).rng(),
    {
        let leader_serves_next = self.player_score > self.ai_score;
        let gap = if self.player_score >= self.ai_score {
            self.player_score - self.ai_score
        } else {
            self.ai_score - self.player_score
        };
        if (self.player_score >= WIN_SCORE || self.ai_score >= WIN_SCORE) && gap >= WIN_MARGIN {
            self.winner = Some(
                if self.player_score > self.ai_score {
                    Winner::Player
                } else {
                    Winner::Ai
                },
            );
            return false;
        }
        self.serve(leader_serves_next);
        true
    }

    /// Credits a point to `scorer`, as a ball that leaves the table through
    /// a goal plane does. A finished match ignores it. Otherwise the scorer's
    /// score grows by one, the match ends if the new score line decides it,
    /// and else a new serve is drawn, toward the AI exactly when the player
    /// leads. Returns whether a new serve was drawn.
    pub fn award_point(&mut self, scorer: Winner) -> (served: bool)
        requires
            old(self).winner is None ==> old(self).score_of(scorer) < u32::MAX,
        ensures
            old(self).winner is Some ==> *final(self) == *old(self) && !served,
            old(self).winner is None ==> {
                &&& final(self).score_of(scorer) == old(self).score_of(scorer) + 1
                &&& scorer is Player ==> final(self).ai_score == old(self).ai_score
                &&& scorer is Ai ==> final(self).player_score == old(self).player_score
                &&& final(self).winner == match_winner(
                    final(self).player_score,
                    final(self).ai_score,
                )
                &&& served == (final(self).winner is None)
                &&& served ==> final(self).serve == serve_draw(
                    old(self).rng(),
                    final(self).player_score > final(self).ai_score,
                )
                &&& served ==> final(self).rng() == after_serve(old(self).rng())
                &&& !served ==> final(self).serve == old(self).serve
                &&& !served ==> final(self).rng() == old(self).rng()
            },
            final(self).same_keys(*old(self)),
            old(self).wf() ==> final(self).wf(),
    {
        if self.winner.is_some() {
            return false;
        }
        match scorer {
            Winner::Player => {
                self.player_score = self.player_score + 1;
            },
            Winner::Ai => {
                self.ai_score = self.ai_score + 1;
            },
        }
        self.after_point()
    }

    /// Steering from the held keys: (sideways, vertical), each -1, 0 or 1;
    /// right and up count positive, opposite keys cancel.
    pub fn move_direction(&self) -> (d: (i8, i8))
        ensures
            d.0 as int == axis(self.move_left, self.move_right),
            d.1 as int == axis(self.move_down, self.move_up),
    {
        let mut dx: i8 = 0;
        let mut dy: i8 = 0;
        if self.move_left {
            dx = dx - 1;
        }
        if self.move_right {
            dx = dx + 1;
        }
        if self.move_up {
            dy = dy + 1;
        }
        if self.move_down {
            dy = dy - 1;
        }
        (dx, dy)
    }

    /// The window title for the current state.
    pub fn title(&self) -> (t: Title)
        ensures
            t == (match self.winner {
                None => Title::Playing { player: self.player_score, ai: self.ai_score },
                Some(Winner::Player) => Title::PlayerWon {
                    player: self.player_score,
                    ai: self.ai_score,
                },
                Some(Winner::Ai) => Title::AiWon { ai: self.ai_score, player: self.player_score },
            }),
    {
        match self.winner {
            None => Title::Playing { player: self.player_score, ai: self.ai_score },
            Some(Winner::Player) => Title::PlayerWon {
                player: self.player_score,
                ai: self.ai_score,
            },
            Some(Winner::Ai) => Title::AiWon { ai: self.ai_score, player: self.player_score },
        }
    }
}

} // verus!

verus! {

/// Score line after `scorer` wins a point at `player`:`ai`.
pub open spec fn scores_after_point(player: u32, ai: u32, scorer: Winner) -> (int, int) {
    match scorer {
        Winner::Player => (player + 1, ai as int),
        Winner::Ai => (player as int, ai + 1),
    }
}

/// A decided match has a winner with at least `WIN_SCORE` points and a lead
/// of at least `WIN_MARGIN`.
pub proof fn lemma_winner_has_won(player: u32, ai: u32)
    ensures
        match_winner(player, ai) == Some(Winner::Player) ==> player >= WIN_SCORE && player
            >= ai + WIN_MARGIN,
        match_winner(player, ai) == Some(Winner::Ai) ==> ai >= WIN_SCORE && ai >= player
            + WIN_MARGIN,
{
}

/// The win rule, both ways: the player has won exactly when the player has
/// at least `WIN_SCORE` points and leads by at least `WIN_MARGIN`; the AI
/// likewise; in every other score line the match goes on.
pub proof fn lemma_win_rule(player: u32, ai: u32)
    ensures
        match_winner(player, ai) == Some(Winner::Player) <==> (player >= WIN_SCORE && player
            >= ai + WIN_MARGIN),
        match_winner(player, ai) == Some(Winner::Ai) <==> (ai >= WIN_SCORE && ai >= player
            + WIN_MARGIN),
        match_winner(player, ai) is None <==> !(player >= WIN_SCORE && player >= ai
            + WIN_MARGIN) && !(ai >= WIN_SCORE && ai >= player + WIN_MARGIN),
{
}

/// A serve travels in the direction it was drawn for, whatever the state of
/// the generator; its samples are the generator's next two outputs, each
/// below `RAND_RESOLUTION`.
pub proof fn lemma_serve_direction(state: u32, toward_ai: bool)
    ensures
        serve_draw(state, toward_ai).toward_ai == toward_ai,
        serve_draw(state, toward_ai).rx_sample < RAND_RESOLUTION,
        serve_draw(state, toward_ai).ry_sample < RAND_RESOLUTION,
        serve_draw(state, toward_ai).rx_sample == xorshift32_spec(state) % 10_000,
        serve_draw(state, toward_ai).ry_sample == xorshift32_spec(xorshift32_spec(state))
            % 10_000,
{
}

/// Steering along an axis: -1 with only the negative key held, 1 with only
/// the positive one, 0 with both or neither.
pub proof fn lemma_axis_values()
    ensures
        axis(false, false) == 0,
        axis(true, false) == -1,
        axis(false, true) == 1,
        axis(true, true) == 0,
{
}

/// A serve consumes exactly two generator steps, and a random sample is the
/// state's remainder modulo `RAND_RESOLUTION`.
pub proof fn lemma_generator_use(state: u32)
    ensures
        after_serve(state) == xorshift32_spec(xorshift32_spec(state)),
        rand_sample(state) == state % 10_000,
        rand_sample(state) < RAND_RESOLUTION,
{
}

/// A new or restarted match serves toward the AI; after a point that leaves
/// the match undecided the serve goes toward the AI exactly when the player
/// leads, and toward the player otherwise.
pub proof fn lemma_serve_goes_to_trailing_side(g: Game, scorer: Winner)
    requires
        g.winner is None,
        g.score_of(scorer) < u32::MAX,
    ensures
        serve_draw(g.rng(), true).toward_ai,
        ({
            let (p, a) = scores_after_point(g.player_score, g.ai_score, scorer);
            match_winner(p as u32, a as u32) is None ==> serve_draw(g.rng(), p > a).toward_ai
                == (p > a)
        }),
{
}

/// The point that decides an undecided match is won by the winner, and it
/// leaves the winner with exactly `WIN_SCORE` points or exactly `WIN_MARGIN`
/// more than the loser, whichever is more.
pub proof fn lemma_deciding_point(player: u32, ai: u32, scorer: Winner)
    requires
        match_winner(player, ai) is None,
        scorer is Player ==> player < u32::MAX,
        scorer is Ai ==> ai < u32::MAX,
    ensures
        ({
            let (p, a) = scores_after_point(player, ai, scorer);
            match match_winner(p as u32, a as u32) {
                Some(w) => {
                    &&& w == scorer
                    &&& w is Player ==> p == (if a + WIN_MARGIN > WIN_SCORE {
                        a + WIN_MARGIN
                    } else {
                        WIN_SCORE as int
                    })
                    &&& w is Ai ==> a == (if p + WIN_MARGIN > WIN_SCORE {
                        p + WIN_MARGIN
                    } else {
                        WIN_SCORE as int
                    })
                },
                None => true,
            }
        }),
{
}

} // verus!
