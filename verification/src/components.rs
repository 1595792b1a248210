//! The entities of the game: the player's dinosaur and the trees it has to
//! jump over.

use vstd::prelude::*;
use crate::geometry::Body;

verus! {

/// Nanoseconds in a millisecond.
pub const NANOS_PER_MILLI: u64 = 1_000_000;

/// Where the dinosaur stands in a round.
#[derive(Clone, Copy, PartialEq, Eq, Structural, Debug, Hash)]
pub enum GameState {
    /// Waiting for the round to start.
    Ready,
    /// Running.
    Playing,
    /// It has touched a tree.
    Over,
}

impl Default for GameState {
    fn default() -> (state: GameState)
        ensures
            state == GameState::Ready,
    {
        GameState::Ready
    }
}

/// Which text on the screen an entity shows.
#[derive(Clone, Copy, PartialEq, Eq, Structural, Debug, Hash)]
pub enum GameControl {
    /// The frame rate.
    FPS,
    /// The score.
    Score,
    /// The hint on how to start.
    Tip,
}

/// What a request to jump led to.
#[derive(Clone, Copy, PartialEq, Eq, Structural, Debug)]
pub enum JumpOutcome {
    /// The dinosaur was on the ground and has taken off.
    Started,
    /// A jump is already in flight; the request changed nothing.
    Ignored,
}

/// What one frame of a jump does to the dinosaur's height.
#[derive(Clone, Copy, PartialEq, Eq, Structural, Debug)]
pub enum JumpFrame {
    /// No jump is in flight: the height stays as it is.
    Unchanged,
    /// The jump is `elapsed_ms` milliseconds old, which is at most its
    /// duration. The height is that of the arc at this age.
    Airborne {
        /// Whole milliseconds of virtual time since take-off.
        elapsed_ms: u64,
    },
    /// The jump is older than its duration: it has ended and the dinosaur
    /// is back at its rest height.
    Landed,
}

/// The frame of a jump that started at `start` (none if the dinosaur is on
/// the ground), seen at virtual time `now`. Both are in nanoseconds.
///
/// The frame depends on the age of the jump alone, not on how many ticks
/// it has been through.
pub open spec fn jump_frame(start: Option<u64>, now: u64, jump_duration_ms: u64) -> JumpFrame {
    match start {
        None => JumpFrame::Unchanged,
        Some(start) => {
            let elapsed_ms = (now - start) / (NANOS_PER_MILLI as int);
            if elapsed_ms > jump_duration_ms {
                JumpFrame::Landed
            } else {
                JumpFrame::Airborne { elapsed_ms: elapsed_ms as u64 }
            }
        },
    }
}

/// The player's dinosaur.
#[derive(Clone, Copy, PartialEq, Eq, Structural, Debug)]
pub struct Dino {
    /// Position and size.
    pub body: Body,
    /// The height of the centre while the dinosaur stands on the ground.
    pub rest_y: i64,
    /// Virtual time of take-off in nanoseconds; `Some` exactly while a jump
    /// is in flight.
    pub in_air_start_time: Option<u64>,
    /// Where the dinosaur stands in the round.
    pub state: GameState,
}

impl Dino {
    /// A dinosaur that stands ready on the ground at the height of `body`.
    pub fn new(body: Body) -> (dino: Dino)
        ensures
            dino == (Dino {
                body,
                rest_y: body.y,
                in_air_start_time: None,
                state: GameState::Ready,
            }),
    {
        Dino { body, rest_y: body.y, in_air_start_time: None, state: GameState::Ready }
    }

    /// Puts the dinosaur back to waiting.
    pub fn ready(&mut self)
        ensures
            *final(self) == (Dino { state: GameState::Ready, ..*old(self) }),
    {
        self.state = GameState::Ready;
    }

    /// Marks the dinosaur as running.
    pub fn start(&mut self)
        ensures
            *final(self) == (Dino { state: GameState::Playing, ..*old(self) }),
    {
        self.state = GameState::Playing;
    }

    /// Marks the dinosaur as having touched a tree.
    pub fn over(&mut self)
        ensures
            *final(self) == (Dino { state: GameState::Over, ..*old(self) }),
    {
        self.state = GameState::Over;
    }

    /// Whether the dinosaur is waiting.
    pub fn is_ready(&self) -> (ready: bool)
        ensures
            ready == (self.state == GameState::Ready),
    {
        self.state == GameState::Ready
    }

    /// Whether the dinosaur is running.
    pub fn is_playing(&self) -> (playing: bool)
        ensures
            playing == (self.state == GameState::Playing),
    {
        self.state == GameState::Playing
    }

    /// Whether the dinosaur has touched a tree.
    pub fn is_over(&self) -> (over: bool)
        ensures
            over == (self.state == GameState::Over),
    {
        self.state == GameState::Over
    }

    /// Whether a jump is in flight.
    pub open spec fn in_flight(self) -> bool {
        self.in_air_start_time is Some
    }

    /// Whether the take-off, if there is one, lies at or before `now`.
    pub open spec fn took_off_by(self, now: u64) -> bool {
        self.in_air_start_time matches Some(start) ==> start <= now
    }

    /// The dinosaur after a request to jump at virtual time `now`: on the
    /// ground it takes off, in the air it stays as it is.
    pub open spec fn jumped(self, now: u64) -> Dino {
        if self.in_flight() {
            self
        } else {
            Dino { in_air_start_time: Some(now), ..self }
        }
    }

    /// The dinosaur after its jump has been brought up to virtual time
    /// `now`: a jump that has landed is cleared and the dinosaur stands at
    /// its rest height; otherwise nothing changes.
    pub open spec fn followed(self, now: u64, jump_duration_ms: u64) -> Dino {
        if jump_frame(self.in_air_start_time, now, jump_duration_ms) == JumpFrame::Landed {
            Dino {
                body: Body { y: self.rest_y, ..self.body },
                in_air_start_time: None,
                ..self
            }
        } else {
            self
        }
    }

    /// Asks for a jump at virtual time `now`. On the ground the dinosaur
    /// takes off; in the air the request is ignored, so that at most one
    /// jump is in flight.
    pub fn try_jump(&mut self, now: u64) -> (outcome: JumpOutcome)
        ensures
            outcome == (if old(self).in_flight() {
                JumpOutcome::Ignored
            } else {
                JumpOutcome::Started
            }),
            *final(self) == old(self).jumped(now),
    {
        match self.in_air_start_time {
            Some(_) => JumpOutcome::Ignored,
            None => {
                self.in_air_start_time = Some(now);
                JumpOutcome::Started
            },
        }
    }

    /// Brings the jump up to virtual time `now` and says what that does to
    /// the height.
    ///
    /// A jump older than `jump_duration_ms` ends: the take-off time is
    /// cleared and the dinosaur is put back at its rest height. A younger one
    /// stays in flight, and the caller places the dinosaur on the arc at the
    /// age reported. Without a jump nothing changes.
    pub fn update_position(&mut self, now: u64, jump_duration_ms: u64) -> (frame: JumpFrame)
        requires
            old(self).took_off_by(now),
        ensures
            frame == jump_frame(old(self).in_air_start_time, now, jump_duration_ms),
            *final(self) == old(self).followed(now, jump_duration_ms),
    {
        match self.in_air_start_time {
            None => JumpFrame::Unchanged,
            Some(start) => {
                let elapsed_ms: u64 = (now - start) / NANOS_PER_MILLI;
                if elapsed_ms > jump_duration_ms {
                    self.in_air_start_time = None;
                    self.body.y = self.rest_y;
                    JumpFrame::Landed
                } else {
                    JumpFrame::Airborne { elapsed_ms }
                }
            },
        }
    }

    /// Puts the centre of the dinosaur at height `y`, where the arc of its
    /// jump has it.
    pub fn set_height(&mut self, y: i64)
        ensures
            *final(self) == (Dino { body: Body { y, ..old(self).body }, ..*old(self) }),
    {
        self.body.y = y;
    }
}

/// A tree that scrolls towards the dinosaur.
#[derive(Clone, Copy, PartialEq, Eq, Structural, Debug)]
pub struct Tree {
    /// Position and size.
    pub body: Body,
    /// How often the dinosaur has cleared this tree in the running round.
    pub succeeded: usize,
    /// The score shown for the round.
    pub score: u64,
}

impl Tree {
    /// A tree at the place and of the size of `body`, not yet passed.
    pub fn new(body: Body) -> (tree: Tree)
        ensures
            tree == (Tree { body, succeeded: 0, score: 0 }),
    {
        Tree { body, succeeded: 0, score: 0 }
    }

    /// Counts one more jump over this tree.
    pub fn dino_passed(&mut self)
        requires
            old(self).succeeded < usize::MAX,
        ensures
            *final(self) == (Tree { succeeded: (old(self).succeeded + 1) as usize, ..*old(self) }),
    {
        self.succeeded = self.succeeded + 1;
    }

    /// The score shown for the round.
    pub fn score(&self) -> (score: u64)
        ensures
            score == self.score,
    {
        self.score
    }

    /// Ends the round for this tree: the count of jumps starts over, the
    /// score stays on show.
    pub fn over(&mut self)
        ensures
            *final(self) == (Tree { succeeded: 0, ..*old(self) }),
    {
        self.succeeded = 0;
    }

    /// Starts a round: the count of jumps and the score start over.
    pub fn start(&mut self)
        ensures
            *final(self) == (Tree { succeeded: 0, score: 0, ..*old(self) }),
    {
        self.succeeded = 0;
        self.score = 0;
    }

    /// Replaces the score.
    pub fn update_score(&mut self, new_score: u64)
        ensures
            *final(self) == (Tree { score: new_score, ..*old(self) }),
    {
        self.score = new_score;
    }
}

/// While a jump is in flight further requests change nothing: two
/// requests in a row leave the dinosaur as the first one did, with the
/// take-off time of the first.
pub proof fn lemma_one_jump_in_flight(dino: Dino, first: u64, second: u64)
    ensures
        dino.jumped(first).in_flight(),
        dino.jumped(first).jumped(second) == dino.jumped(first),
        dino.in_flight() ==> dino.jumped(first) == dino,
{
}

/// After a landing no jump is in flight and the dinosaur stands at its rest
/// height; bringing it up to the same time again changes nothing.
pub proof fn lemma_landing_clears_jump(dino: Dino, now: u64, jump_duration_ms: u64)
    ensures
        jump_frame(dino.in_air_start_time, now, jump_duration_ms) == JumpFrame::Landed ==> {
            &&& !dino.followed(now, jump_duration_ms).in_flight()
            &&& dino.followed(now, jump_duration_ms).body.y == dino.rest_y
        },
        dino.followed(now, jump_duration_ms).followed(now, jump_duration_ms) == dino.followed(
            now,
            jump_duration_ms,
        ),
{
}

/// A jump of `jump_duration_ms` that took off at `start` is in flight with
/// age zero at take-off, at half its duration half-way through, and still
/// in flight at full age when exactly its duration has passed; one
/// millisecond later it has landed.
pub proof fn lemma_jump_frames_at_marks(start: u64, jump_duration_ms: u64)
    requires
        start + (jump_duration_ms + 1) * NANOS_PER_MILLI <= u64::MAX,
    ensures
        jump_frame(Some(start), start, jump_duration_ms) == (JumpFrame::Airborne { elapsed_ms: 0 }),
        jump_frame(
            Some(start),
            (start + (jump_duration_ms / 2) * NANOS_PER_MILLI) as u64,
            jump_duration_ms,
        ) == (JumpFrame::Airborne { elapsed_ms: jump_duration_ms / 2 }),
        jump_frame(
            Some(start),
            (start + jump_duration_ms * NANOS_PER_MILLI) as u64,
            jump_duration_ms,
        ) == (JumpFrame::Airborne { elapsed_ms: jump_duration_ms }),
        jump_frame(
            Some(start),
            (start + (jump_duration_ms + 1) * NANOS_PER_MILLI) as u64,
            jump_duration_ms,
        ) == JumpFrame::Landed,
{
    let half = (jump_duration_ms / 2) as int;
    let full = jump_duration_ms as int;
    let unit = NANOS_PER_MILLI as int;
    assert(half * unit <= full * unit) by (nonlinear_arith)
        requires
            0 <= half <= full,
            unit > 0,
    ;
    assert(full * unit <= (full + 1) * unit) by (nonlinear_arith)
        requires
            0 <= full,
            unit > 0,
    ;
    vstd::arithmetic::div_mod::lemma_div_multiples_vanish(half, unit);
    vstd::arithmetic::div_mod::lemma_div_multiples_vanish(full, unit);
    vstd::arithmetic::div_mod::lemma_div_multiples_vanish(full + 1, unit);
    assert(half * unit == unit * half) by (nonlinear_arith);
    assert(full * unit == unit * full) by (nonlinear_arith);
    assert((full + 1) * unit == unit * (full + 1)) by (nonlinear_arith);
}

/// A jump in flight lands exactly when more than its duration, in whole
/// milliseconds, has passed since take-off; until then its age never
/// exceeds the duration.
pub proof fn lemma_jump_lands_after_duration(start: u64, now: u64, jump_duration_ms: u64)
    requires
        start <= now,
    ensures
        jump_frame(Some(start), now, jump_duration_ms) == JumpFrame::Landed <==> now - start >= (
        jump_duration_ms + 1) * NANOS_PER_MILLI,
        jump_frame(Some(start), now, jump_duration_ms) matches JumpFrame::Airborne { elapsed_ms }
            ==> elapsed_ms <= jump_duration_ms && elapsed_ms * NANOS_PER_MILLI <= now - start,
        jump_frame(Some(start), now, jump_duration_ms) != JumpFrame::Unchanged,
{
    let age = (now - start) as int;
    let unit = NANOS_PER_MILLI as int;
    let limit = jump_duration_ms as int + 1;
    vstd::arithmetic::div_mod::lemma_fundamental_div_mod(age, unit);
    vstd::arithmetic::div_mod::lemma_mod_bound(age, unit);
    let whole = age / unit;
    assert(age == unit * whole + age % unit);
    if whole >= limit {
        assert(unit * whole >= unit * limit) by (nonlinear_arith)
            requires
                whole >= limit,
                unit > 0,
        ;
    } else {
        assert(unit * whole + unit <= unit * limit) by (nonlinear_arith)
            requires
                whole + 1 <= limit,
                unit > 0,
        ;
    }
    assert(unit * limit == limit * unit) by (nonlinear_arith);
    assert(unit * whole == whole * unit) by (nonlinear_arith);
}

} // verus!
