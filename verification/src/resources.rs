//! The records that the systems share: the running status of a round and
//! the parameters of its difficulty curve.

use vstd::prelude::*;
use vstd::arithmetic::power2::{lemma2_to64, lemma2_to64_rest, lemma_pow2_strictly_increases, lemma_pow2_unfold, pow2};

verus! {

/// The speed that a round starts with; positive, so that its logarithm
/// exists.
pub const INITIAL_SPEED: u64 = 5;

/// What the first recycled tree of a round adds to the speed.
pub const INITIAL_SPEED_INCREMENT: u64 = 100;

/// The ceiling of the speed at the start of a round.
pub const INITIAL_MAX_GAME_SPEED: u64 = u64::MAX;

/// How long a jump lasts by default, in milliseconds.
pub const JUMP_DURATION_MS: u64 = 500;

/// After how many recycled trees the default difficulty is settled.
pub const DEFAULT_SETTLED_AFTER: u64 = 56;

/// The tunable parameters of the game. Lengths are in world units and
/// durations in milliseconds.
#[derive(Clone, Copy, PartialEq, Eq, Structural, Debug)]
pub struct GameConfig {
    /// Width of the dinosaur.
    pub dino_width: u32,
    /// Height of the dinosaur.
    pub dino_height: u32,
    /// How far above its rest height the peak of a jump lies.
    pub jump_height: u32,
    /// How far the dinosaur's left edge is from the window's left edge, in
    /// thousandths of the window's width.
    pub dino_offset_permille: u32,
    /// Width of a tree.
    pub tree_width: u32,
    /// Height of a tree.
    pub tree_height: u32,
    /// The height of the ground, on which dinosaur and trees stand.
    pub ground_y: i32,
    /// How long a jump lasts.
    pub jump_duration_ms: u64,
    /// How long the animation between two screens lasts.
    pub transition_ms: u64,
    /// The speed that a round starts with.
    pub speed: u64,
    /// What the first recycled tree of a round adds to the speed.
    pub speed_increment: u64,
    /// The ceiling of the speed at the start of a round.
    pub max_game_speed: u64,
}

impl GameConfig {
    /// The default parameters, with a thousand world units to the pixel: a
    /// dinosaur of 50 by 80.906 pixels that jumps 194.175 pixels high and
    /// stands a fifth of the window from its left edge, trees of 30 by
    /// 48.544 pixels, the ground at height zero, jumps of half a second, no
    /// animation, and the default difficulty.
    pub open spec fn standard() -> GameConfig {
        GameConfig {
            dino_width: 50_000,
            dino_height: 80_906,
            jump_height: 194_175,
            dino_offset_permille: 200,
            tree_width: 30_000,
            tree_height: 48_544,
            ground_y: 0,
            jump_duration_ms: JUMP_DURATION_MS,
            transition_ms: 0,
            speed: INITIAL_SPEED,
            speed_increment: INITIAL_SPEED_INCREMENT,
            max_game_speed: INITIAL_MAX_GAME_SPEED,
        }
    }

    /// The height at which the centre of something `height` high stands on
    /// the ground.
    pub open spec fn standing(self, height: u32) -> int {
        self.ground_y + height / 2
    }
}

impl Default for GameConfig {
    fn default() -> (config: GameConfig)
        ensures
            config == GameConfig::standard(),
    {
        GameConfig {
            dino_width: 50_000,
            dino_height: 80_906,
            jump_height: 194_175,
            dino_offset_permille: 200,
            tree_width: 30_000,
            tree_height: 48_544,
            ground_y: 0,
            jump_duration_ms: JUMP_DURATION_MS,
            transition_ms: 0,
            speed: INITIAL_SPEED,
            speed_increment: INITIAL_SPEED_INCREMENT,
            max_game_speed: INITIAL_MAX_GAME_SPEED,
        }
    }
}

/// Score, scroll speed and window size of the running round.
#[derive(Clone, Copy, PartialEq, Eq, Structural, Debug)]
pub struct GameStatus {
    /// Frames counted while the round was running.
    pub score: u64,
    /// The difficulty counter from which the scroll speed is derived.
    pub speed: u64,
    /// Window width in world units.
    pub window_width: u32,
    /// Window height in world units.
    pub window_height: u32,
}

impl GameStatus {
    /// The number shown as the score: an eighth of the frames counted.
    pub open spec fn shown(self) -> u64 {
        self.score / 8
    }

    /// The number to show as the score.
    pub fn shown_score(&self) -> (shown: u64)
        ensures
            shown == self.shown(),
    {
        self.score / 8
    }
}

/// How fast the difficulty grows and where it stops.
#[derive(Clone, Copy, PartialEq, Eq, Structural, Debug)]
pub struct SpeedControlInfo {
    /// What the next recycled obstacle adds to the speed.
    pub speed_increment: u64,
    /// The ceiling that the speed never passes.
    pub max_game_speed: u64,
}

/// Mathematical state of the difficulty curve: the speed of a
/// [`GameStatus`] together with a [`SpeedControlInfo`].
pub struct DifficultyState {
    /// The difficulty counter.
    pub speed: nat,
    /// What the next escalation adds to the speed.
    pub speed_increment: nat,
    /// The ceiling that the speed never passes.
    pub speed_ceiling: nat,
}

/// `a + b`, clamped to the largest `u64`.
pub open spec fn saturating_sum(a: nat, b: nat) -> nat {
    if a + b > u64::MAX {
        u64::MAX as nat
    } else {
        a + b
    }
}

/// `a - b`, clamped to zero.
pub open spec fn saturating_difference(a: nat, b: nat) -> nat {
    if a < b {
        0
    } else {
        (a - b) as nat
    }
}

impl DifficultyState {
    /// The difficulty that `status` and `info` hold between them.
    pub open spec fn of(status: GameStatus, info: SpeedControlInfo) -> DifficultyState {
        DifficultyState {
            speed: status.speed as nat,
            speed_increment: info.speed_increment as nat,
            speed_ceiling: info.max_game_speed as nat,
        }
    }

    /// Whether every counter fits a `u64`.
    pub open spec fn in_range(self) -> bool {
        &&& self.speed <= u64::MAX
        &&& self.speed_increment <= u64::MAX
        &&& self.speed_ceiling <= u64::MAX
    }

    /// The difficulty after one obstacle has been recycled.
    ///
    /// Below the ceiling the increment doubles, the ceiling drops by the
    /// doubled increment, and the speed grows by the old increment but not
    /// past the new ceiling. Sums stop at the largest `u64` and differences
    /// at zero. At or above the ceiling nothing changes any more.
    pub open spec fn escalate(self) -> DifficultyState {
        if self.speed < self.speed_ceiling {
            let increment = saturating_sum(self.speed_increment, self.speed_increment);
            let ceiling = saturating_difference(self.speed_ceiling, increment);
            let raised = saturating_sum(self.speed, self.speed_increment);
            DifficultyState {
                speed: if raised >= ceiling { ceiling } else { raised },
                speed_increment: increment,
                speed_ceiling: ceiling,
            }
        } else {
            self
        }
    }

    /// The difficulty after `recycles` obstacles have been recycled.
    pub open spec fn escalate_times(self, recycles: nat) -> DifficultyState
        decreases recycles,
    {
        if recycles == 0 {
            self
        } else {
            self.escalate_times((recycles - 1) as nat).escalate()
        }
    }
}

/// One escalation keeps the speed at or below the ceiling, keeps every
/// counter inside `u64`, never raises the ceiling and never lowers the
/// increment.
pub proof fn lemma_escalate_stays_bounded(difficulty: DifficultyState)
    requires
        difficulty.in_range(),
        difficulty.speed <= difficulty.speed_ceiling,
    ensures
        difficulty.escalate().in_range(),
        difficulty.escalate().speed <= difficulty.escalate().speed_ceiling,
        difficulty.escalate().speed_ceiling <= difficulty.speed_ceiling,
        difficulty.escalate().speed_increment >= difficulty.speed_increment,
{
}

/// However many obstacles are recycled, the speed stays at or below the
/// ceiling and no counter leaves `u64`.
pub proof fn lemma_speed_never_passes_ceiling(difficulty: DifficultyState, recycles: nat)
    requires
        difficulty.in_range(),
        difficulty.speed <= difficulty.speed_ceiling,
    ensures
        difficulty.escalate_times(recycles).in_range(),
        difficulty.escalate_times(recycles).speed <= difficulty.escalate_times(
            recycles,
        ).speed_ceiling,
        difficulty.escalate_times(recycles).speed_ceiling <= difficulty.speed_ceiling,
        difficulty.escalate_times(recycles).speed_increment >= difficulty.speed_increment,
    decreases recycles,
{
    if recycles > 0 {
        let before = difficulty.escalate_times((recycles - 1) as nat);
        lemma_speed_never_passes_ceiling(difficulty, (recycles - 1) as nat);
        lemma_escalate_stays_bounded(before);
    }
}

/// The speed does not drop in an escalation whose new ceiling is still at
/// or above the old speed, and a positive speed then stays positive.
pub proof fn lemma_speed_grows_under_ceiling(difficulty: DifficultyState)
    requires
        difficulty.in_range(),
        difficulty.speed <= difficulty.escalate().speed_ceiling,
    ensures
        difficulty.escalate().speed >= difficulty.speed,
        difficulty.speed >= 1 ==> difficulty.escalate().speed >= 1,
{
}

/// Once the speed has reached the ceiling the difficulty is settled:
/// further recycled obstacles change nothing.
pub proof fn lemma_difficulty_settles(difficulty: DifficultyState, recycles: nat)
    requires
        difficulty.speed >= difficulty.speed_ceiling,
    ensures
        difficulty.escalate_times(recycles) == difficulty,
    decreases recycles,
{
    if recycles > 0 {
        lemma_difficulty_settles(difficulty, (recycles - 1) as nat);
    }
}

/// Escalating `first + then` times is escalating `first` times and then
/// `then` times more.
pub proof fn lemma_escalate_times_adds(difficulty: DifficultyState, first: nat, then: nat)
    ensures
        difficulty.escalate_times(first + then) == difficulty.escalate_times(first).escalate_times(
            then,
        ),
    decreases then,
{
    if then > 0 {
        lemma_escalate_times_adds(difficulty, first, (then - 1) as nat);
        assert(first + then - 1 == first + (then - 1));
    }
}

impl DifficultyState {
    /// The difficulty that a round starts with by default.
    pub open spec fn initial() -> DifficultyState {
        DifficultyState {
            speed: INITIAL_SPEED as nat,
            speed_increment: INITIAL_SPEED_INCREMENT as nat,
            speed_ceiling: INITIAL_MAX_GAME_SPEED as nat,
        }
    }

    /// The default difficulty after `recycles` recycled trees, while the
    /// speed is still below the ceiling: the increment has doubled with
    /// every tree, the speed has grown by all the increments before, and
    /// the ceiling has dropped by all the increments after the first.
    pub open spec fn default_curve(recycles: nat) -> DifficultyState {
        DifficultyState {
            speed: (100 * pow2(recycles) - 95) as nat,
            speed_increment: 100 * pow2(recycles),
            speed_ceiling: (u64::MAX + 200 - 200 * pow2(recycles)) as nat,
        }
    }
}

/// Powers of two up to the one at which the default difficulty settles.
proof fn lemma_pow2_up_to_settling(exponent: nat)
    requires
        exponent <= 56,
    ensures
        1 <= pow2(exponent) <= 0x100000000000000,
        exponent <= 55 ==> pow2(exponent) <= 0x80000000000000,
        exponent > 0 ==> pow2(exponent) == 2 * pow2((exponent - 1) as nat),
        pow2(0) == 1,
        pow2(55) == 0x80000000000000,
        pow2(56) == 0x100000000000000,
{
    lemma2_to64();
    lemma2_to64_rest();
    if exponent < 55 {
        lemma_pow2_strictly_increases(exponent, 55);
    }
    if exponent < 56 {
        lemma_pow2_strictly_increases(exponent, 56);
    }
    if exponent > 0 {
        lemma_pow2_unfold(exponent);
    }
    vstd::arithmetic::power2::lemma_pow2_pos(exponent);
}

/// For its first 55 recycled trees the default difficulty follows the
/// default curve.
pub proof fn lemma_default_difficulty_follows_curve(recycles: nat)
    requires
        recycles <= 55,
    ensures
        DifficultyState::initial().escalate_times(recycles) == DifficultyState::default_curve(
            recycles,
        ),
    decreases recycles,
{
    lemma_pow2_up_to_settling(recycles);
    if recycles > 0 {
        let before = (recycles - 1) as nat;
        lemma_default_difficulty_follows_curve(before);
        lemma_pow2_up_to_settling(before);
    }
}

/// With the 56th recycled tree the default speed meets the ceiling, and
/// from then on the default difficulty stays as it is.
pub proof fn lemma_default_difficulty_settles(recycles: nat)
    requires
        recycles >= DEFAULT_SETTLED_AFTER,
    ensures
        DifficultyState::initial().escalate_times(recycles) == (DifficultyState {
            speed: (u64::MAX + 200 - 200 * pow2(56)) as nat,
            speed_increment: 100 * pow2(56),
            speed_ceiling: (u64::MAX + 200 - 200 * pow2(56)) as nat,
        }),
{
    lemma_default_difficulty_follows_curve(55);
    lemma_pow2_up_to_settling(55);
    lemma_pow2_up_to_settling(56);
    let settled = DifficultyState::initial().escalate_times(56);
    assert(settled == DifficultyState::default_curve(55).escalate());
    lemma_difficulty_settles(settled, (recycles - 56) as nat);
    lemma_escalate_times_adds(DifficultyState::initial(), 56, (recycles - 56) as nat);
}

/// From the default start the speed never drops and never falls below
/// its first value, however many trees are recycled: the logarithm that the
/// scroll speed takes of it always exists.
pub proof fn lemma_default_speed_never_drops(recycles: nat)
    ensures
        DifficultyState::initial().escalate_times(recycles + 1).speed
            >= DifficultyState::initial().escalate_times(recycles).speed,
        DifficultyState::initial().escalate_times(recycles).speed >= INITIAL_SPEED,
{
    if recycles >= 56 {
        lemma_default_difficulty_settles(recycles);
        lemma_default_difficulty_settles(recycles + 1);
        lemma_pow2_up_to_settling(56);
    } else if recycles == 55 {
        lemma_default_difficulty_follows_curve(55);
        lemma_default_difficulty_settles(56);
        lemma_pow2_up_to_settling(55);
        lemma_pow2_up_to_settling(56);
    } else {
        lemma_default_difficulty_follows_curve(recycles);
        lemma_default_difficulty_follows_curve(recycles + 1);
        lemma_pow2_up_to_settling(recycles);
        lemma_pow2_up_to_settling(recycles + 1);
    }
}

} // verus!
