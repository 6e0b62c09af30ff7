//! Goal detection, score bookkeeping and the ball reset.
use vstd::prelude::*;
use crate::arena::{arena_center, center_spec, Player, Point, ARENA_WIDTH, UNIT};

verus! {

/// Speed of the ball after a reset, in millionths of a simulation unit per second.
pub const RESET_SPEED: i64 = 20_000_000;

/// Number of micro-radians in a full turn, rounded up: reset directions are drawn below it.
pub const FULL_TURN: u64 = 6_283_186;

/// Goals of each player; each count only grows during a session.
#[derive(Debug, Clone, Copy, PartialEq, Eq, Structural)]
pub struct Score {
    pub left: u32,
    pub right: u32,
}

impl Score {
    /// No goals yet.
    pub fn new() -> (r: Score)
        ensures
            r.left == 0 && r.right == 0,
    {
        Score { left: 0, right: 0 }
    }

    /// The count of one player.
    pub fn of(&self, player: Player) -> (r: u32)
        ensures
            r == self.spec_of(player),
    {
        match player {
            Player::Left => self.left,
            Player::Right => self.right,
        }
    }

    pub open spec fn spec_of(&self, player: Player) -> u32 {
        match player {
            Player::Left => self.left,
            Player::Right => self.right,
        }
    }
}

impl Default for Score {
    fn default() -> (r: Score)
        ensures
            r.left == 0 && r.right == 0,
    {
        Score::new()
    }
}

/// Where the ball goes after a goal and how it is launched again.
#[derive(Debug, Clone, Copy, PartialEq, Eq, Structural)]
pub struct BallReset {
    /// The arena center, in millionths of a simulation unit.
    pub position: Point,
    /// Direction of the new velocity, in micro-radians counter-clockwise from +x.
    pub direction: u64,
    /// Magnitude of the new velocity, in millionths of a simulation unit per second.
    pub speed: i64,
}

/// Who scores when the ball is at display position `x` (millionths of a pixel):
/// the right player when it is left of the arena, the left player when it is
/// right of it; the left edge is tested first.
pub open spec fn scorer_spec(x: int) -> Option<Player> {
    if x < 0 {
        Some(Player::Right)
    } else if x > ARENA_WIDTH * UNIT {
        Some(Player::Left)
    } else {
        None
    }
}

/// The player who scores with the ball at display position `x`, if any.
pub fn goal_scorer(x: i64) -> (r: Option<Player>)
    ensures
        r == scorer_spec(x as int),
{
    if x < 0 {
        Some(Player::Right)
    } else if x > (ARENA_WIDTH as i64) * UNIT {
        Some(Player::Left)
    } else {
        None
    }
}

/// `s` with one more goal for `player`.
pub open spec fn awarded(s: Score, player: Player) -> Score {
    match player {
        Player::Left => Score { left: (s.left + 1) as u32, ..s },
        Player::Right => Score { right: (s.right + 1) as u32, ..s },
    }
}

/// The score after the goal check with the ball at `x`.
pub open spec fn score_after(s: Score, x: int) -> Score {
    match scorer_spec(x) {
        Some(p) => awarded(s, p),
        None => s,
    }
}

/// The score can take the goal that the ball at `x` brings without overflow.
pub open spec fn can_score(s: Score, x: int) -> bool {
    match scorer_spec(x) {
        Some(p) => s.spec_of(p) < u32::MAX,
        None => true,
    }
}

/// A ball left of the arena gives the right player exactly one goal, a ball
/// right of it gives the left player exactly one, and a ball within the
/// arena's width changes nothing.
pub proof fn lemma_goal_scoring(s: Score, x: int)
    requires
        can_score(s, x),
    ensures
        x < 0 ==> score_after(s, x).right == s.right + 1 && score_after(s, x).left == s.left,
        x > ARENA_WIDTH * UNIT ==> score_after(s, x).left == s.left + 1 && score_after(s, x).right
            == s.right,
        0 <= x <= ARENA_WIDTH * UNIT ==> score_after(s, x) == s,
{
}

impl Score {
    /// Adds one goal for `player`.
    pub fn award(&mut self, player: Player)
        requires
            old(self).spec_of(player) < u32::MAX,
        ensures
            *final(self) == awarded(*old(self), player),
    {
        match player {
            Player::Left => self.left = self.left + 1,
            Player::Right => self.right = self.right + 1,
        }
    }
}

/// The goal check of one frame with the reset direction already drawn: scores
/// the goal, if the ball at display position `x` is past a side, and says how
/// to reset the ball.
pub fn apply_goal(score: &mut Score, x: i64, scale: u32, direction: u64) -> (r: Option<BallReset>)
    requires
        scale > 0,
        can_score(*old(score), x as int),
    ensures
        *final(score) == score_after(*old(score), x as int),
        scorer_spec(x as int) is None ==> r is None,
        scorer_spec(x as int) is Some ==> r == Some(
            BallReset { position: center_spec(scale as int), direction, speed: RESET_SPEED },
        ),
{
    match goal_scorer(x) {
        None => None,
        Some(p) => {
            score.award(p);
            Some(BallReset { position: arena_center(scale), direction, speed: RESET_SPEED })
        },
    }
}

/// Relies on fastrand::u64: a value drawn uniformly from the given range, which
/// must not be empty.
#[verifier::external_body]
fn random_below(bound: u64) -> (r: u64)
    requires
        bound > 0,
    ensures
        r < bound,
{
    fastrand::u64(0..bound)
}

/// The goal check of one frame: scores the goal, if any, and resets the ball
/// to the arena center with speed [`RESET_SPEED`] in a direction drawn at random.
pub fn ball_goal(score: &mut Score, x: i64, scale: u32) -> (r: Option<BallReset>)
    requires
        scale > 0,
        can_score(*old(score), x as int),
    ensures
        *final(score) == score_after(*old(score), x as int),
        scorer_spec(x as int) is None ==> r is None,
        scorer_spec(x as int) is Some ==> (r matches Some(b) && b.position == center_spec(
            scale as int,
        ) && b.speed == RESET_SPEED && b.direction < FULL_TURN),
{
    if goal_scorer(x).is_some() {
        let direction = random_below(FULL_TURN);
        apply_goal(score, x, scale, direction)
    } else {
        apply_goal(score, x, scale, 0)
    }
}

} // verus!
