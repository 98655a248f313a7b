//! Running counters of the game, the health derived from them, and the
//! smoothed health bar.
use vstd::prelude::*;

verus! {

/// How long the board stays over after the active piece was lost, in
/// microseconds, before it restarts by itself.
pub const GRACE_MICROS: u64 = 3_000_000;

/// Per-mille scale of a full health bar.
pub const PER_MILLE: u64 = 1000;

/// The smoothing divisor of the health bar: each tick it moves a tenth of
/// the way towards the true health.
pub const SMOOTHING_DIVISOR: u64 = 10;

/// Counters of generated, cleared and lost blocks, and the time since the
/// active piece was lost, if it was.
#[derive(Clone, Copy, Debug, PartialEq, Eq, Structural)]
pub struct Stats {
    pub generated_blocks: u64,
    pub cleared_blocks: u64,
    pub lost_blocks: u64,
    pub game_over_duration: Option<u64>,
}

/// A health value as the fraction `num / den`.
#[derive(Clone, Copy, Debug, PartialEq, Eq, Structural)]
pub struct Health {
    pub num: u64,
    pub den: u64,
}

/// The stats of a fresh game, before any piece.
pub open spec fn initial_stats() -> Stats {
    Stats { generated_blocks: 0, cleared_blocks: 0, lost_blocks: 0, game_over_duration: None }
}

/// Health as a fraction in `[0, 1]`: zero once the game is over or when
/// blocks were lost before any was cleared; one when nothing was lost and
/// nothing cleared; otherwise one minus the ratio of lost to cleared
/// blocks, clamped at zero.
pub open spec fn health_of(s: Stats) -> Health {
    if s.game_over_duration.is_some() {
        Health { num: 0, den: 1 }
    } else if s.cleared_blocks == 0 {
        if s.lost_blocks > 0 {
            Health { num: 0, den: 1 }
        } else {
            Health { num: 1, den: 1 }
        }
    } else if s.lost_blocks >= s.cleared_blocks {
        Health { num: 0, den: s.cleared_blocks }
    } else {
        Health { num: (s.cleared_blocks - s.lost_blocks) as u64, den: s.cleared_blocks }
    }
}

impl Stats {
    /// Stats the game can hold: the game-over timer never runs past the
    /// grace period, since the board restarts as soon as it does.
    pub open spec fn wf(&self) -> bool {
        self.game_over_duration matches Some(d) ==> d <= GRACE_MICROS
    }

    /// All counters at zero, and the game not over.
    pub fn new() -> (r: Stats)
        ensures
            r == initial_stats(),
    {
        Stats { generated_blocks: 0, cleared_blocks: 0, lost_blocks: 0, game_over_duration: None }
    }

    /// Whether the active piece was lost.
    pub fn is_game_over(&self) -> (r: bool)
        ensures
            r == self.game_over_duration.is_some(),
    {
        self.game_over_duration.is_some()
    }

    /// The current health.
    pub fn health(&self) -> (r: Health)
        ensures
            r == health_of(*self),
            r.den > 0,
            r.num <= r.den,
    {
        if self.game_over_duration.is_some() {
            Health { num: 0, den: 1 }
        } else if self.cleared_blocks == 0 {
            if self.lost_blocks > 0 {
                Health { num: 0, den: 1 }
            } else {
                Health { num: 1, den: 1 }
            }
        } else if self.lost_blocks >= self.cleared_blocks {
            Health { num: 0, den: self.cleared_blocks }
        } else {
            Health { num: self.cleared_blocks - self.lost_blocks, den: self.cleared_blocks }
        }
    }
}

impl Health {
    /// A fraction in `[0, 1]`.
    pub open spec fn wf(&self) -> bool {
        self.den > 0 && self.num <= self.den
    }

    /// The value rounded down to thousandths.
    pub open spec fn per_mille_spec(&self) -> int {
        (self.num * PER_MILLE) as int / self.den as int
    }

    /// Whether the health is above zero.
    pub fn is_positive(&self) -> (r: bool)
        ensures
            r == (self.num > 0),
    {
        self.num > 0
    }

    /// The value rounded down to thousandths.
    pub fn per_mille(&self) -> (r: u64)
        requires
            self.wf(),
        ensures
            r == self.per_mille_spec(),
            r <= PER_MILLE,
    {
        let p: u128 = (self.num as u128) * (PER_MILLE as u128);
        let q: u128 = p / (self.den as u128);
        assert(q <= PER_MILLE) by (nonlinear_arith)
            requires
                p == self.num * PER_MILLE,
                q == p as int / (self.den as int),
                self.den > 0,
                self.num <= self.den,
        {
            assert(p <= self.den * PER_MILLE);
        }
        q as u64
    }
}

/// One smoothing step from `value` towards `target`: a tenth of the gap,
/// rounded towards `value`.
pub open spec fn smoothed(value: u64, target: u64) -> u64 {
    if target >= value {
        (value + (target - value) / (SMOOTHING_DIVISOR as int)) as u64
    } else {
        (value - (value - target) / (SMOOTHING_DIVISOR as int)) as u64
    }
}

/// The displayed health, in thousandths, which trails the true health.
#[derive(Clone, Copy, Debug, PartialEq, Eq, Structural)]
pub struct HealthBar {
    pub value: u64,
}

impl HealthBar {
    /// A bar whose value lies on the per-mille scale.
    pub open spec fn wf(&self) -> bool {
        self.value <= PER_MILLE
    }

    /// An empty bar.
    pub fn new() -> (r: HealthBar)
        ensures
            r.value == 0,
    {
        HealthBar { value: 0 }
    }

    /// Moves the displayed value a tenth of the way towards `target`.
    pub fn update(&mut self, target: u64)
        requires
            old(self).wf(),
            target <= PER_MILLE,
        ensures
            final(self).value == smoothed(old(self).value, target),
            final(self).wf(),
    {
        if target >= self.value {
            self.value = self.value + (target - self.value) / SMOOTHING_DIVISOR;
        } else {
            self.value = self.value - (self.value - target) / SMOOTHING_DIVISOR;
        }
    }

    /// Where the bar's centre goes and how far it is stretched, in
    /// thousandths of its full width: a bar at value `v` is scaled to `v`
    /// and centred at the wall offset plus `v` of half its full width.
    pub fn placement(&self, board: &crate::board::Board) -> (r: (i64, u64))
        requires
            self.wf(),
            board.wf(),
        ensures
            r.0 == board.left_wall_x_spec() + crate::board::UNIT
                + ((board.n_lanes - 2) * self.value) / 2,
            r.1 == self.value,
    {
        let span: u64 = board.n_lanes - 2;
        assert(span * self.value <= crate::board::MAX_DIM * PER_MILLE) by (nonlinear_arith)
            requires
                span <= crate::board::MAX_DIM,
                self.value <= PER_MILLE,
        ;
        let offset: u64 = span * self.value / 2;
        let x = board.left_wall_x() + crate::board::UNIT + offset as i64;
        (x, self.value)
    }
}

} // verus!
