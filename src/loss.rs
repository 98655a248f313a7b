//! Blocks that fall out of view, the game-over state that losing the active
//! piece brings, and the restart after the grace period.
use vstd::prelude::*;
use crate::board::UNIT;
use crate::game::{Game, PieceSpawn, spawned_into, stats_after_spawn, BLOCKS_PER_PIECE};
use crate::settle::BlockObs;
use crate::shape::TetrominoKind;
use crate::stats::{Stats, GRACE_MICROS, initial_stats, health_of};

verus! {

/// How far below the bottom of the view a block may sink before it counts
/// as lost, in world units.
pub const LOSS_MARGIN: i64 = 2000;

/// The height under which a block is lost, for a view whose visible area
/// ends at `view_bottom`.
pub open spec fn loss_limit(view_bottom: i64) -> int {
    view_bottom - LOSS_MARGIN
}

/// A report of a block whose centre is under the loss limit.
pub open spec fn is_lost(o: BlockObs, view_bottom: i64) -> bool {
    o.y < loss_limit(view_bottom)
}

/// The handles, in report order, of the lost blocks.
pub open spec fn lost_ids(obs: Seq<BlockObs>, view_bottom: i64) -> Seq<u64>
    decreases obs.len(),
{
    if obs.len() == 0 {
        Seq::empty()
    } else {
        let rest = lost_ids(obs.drop_last(), view_bottom);
        if is_lost(obs.last(), view_bottom) {
            rest.push(obs.last().id)
        } else {
            rest
        }
    }
}

/// Whether a block of the active piece is among the lost ones.
pub open spec fn active_lost(active: Seq<u64>, obs: Seq<BlockObs>, view_bottom: i64) -> bool {
    exists|m: int| 0 <= m < obs.len() && is_lost(obs[m], view_bottom) && active.contains(#[trigger] obs[m].id)
}

/// The counters after the losses of one tick: every lost block is counted,
/// and losing a block of the active piece starts the game-over timer unless
/// it runs already.
pub open spec fn stats_after_loss(s: Stats, active: Seq<u64>, obs: Seq<BlockObs>, view_bottom: i64) -> Stats {
    Stats {
        lost_blocks: (s.lost_blocks + lost_ids(obs, view_bottom).len()) as u64,
        game_over_duration: if s.game_over_duration.is_some() {
            s.game_over_duration
        } else if active_lost(active, obs, view_bottom) {
            Some(0u64)
        } else {
            None
        },
        ..s
    }
}

/// Whether `elapsed` more microseconds take a game that is over past the
/// grace period.
pub open spec fn restarts(s: Stats, elapsed: u64) -> bool {
    s.game_over_duration matches Some(d) && d + elapsed > GRACE_MICROS
}

/// The counters after `elapsed` microseconds that do not restart the game.
pub open spec fn stats_after_wait(s: Stats, elapsed: u64) -> Stats {
    match s.game_over_duration {
        Some(d) => Stats { game_over_duration: Some((d + elapsed) as u64), ..s },
        None => s,
    }
}

proof fn lemma_lost_ids_bounded(obs: Seq<BlockObs>, view_bottom: i64)
    ensures
        lost_ids(obs, view_bottom).len() <= obs.len(),
    decreases obs.len(),
{
    if obs.len() > 0 {
        lemma_lost_ids_bounded(obs.drop_last(), view_bottom);
    }
}

/// A handle is among the lost ones exactly when some report of it is lost.
pub proof fn lemma_lost_ids_members(obs: Seq<BlockObs>, view_bottom: i64, id: u64)
    ensures
        lost_ids(obs, view_bottom).contains(id)
            <==> exists|m: int| 0 <= m < obs.len() && obs[m].id == id && is_lost(obs[m], view_bottom),
    decreases obs.len(),
{
    if obs.len() > 0 {
        let init = obs.drop_last();
        let li = lost_ids(init, view_bottom);
        let l = lost_ids(obs, view_bottom);
        lemma_lost_ids_members(init, view_bottom, id);
        assert(forall|m: int| 0 <= m < init.len() ==> init[m] == obs[m]);
        if is_lost(obs.last(), view_bottom) {
            assert(l == li.push(obs.last().id));
            if l.contains(id) {
                let x = choose|x: int| 0 <= x < l.len() && l[x] == id;
                if x < li.len() {
                    assert(li[x] == id);
                    assert(li.contains(id));
                } else {
                    assert(obs[obs.len() - 1] == obs.last());
                }
            }
            if exists|m: int| 0 <= m < obs.len() && obs[m].id == id && is_lost(obs[m], view_bottom) {
                let m = choose|m: int| 0 <= m < obs.len() && obs[m].id == id && is_lost(obs[m], view_bottom);
                if m < obs.len() - 1 {
                    assert(init[m] == obs[m]);
                    let x = choose|x: int| 0 <= x < li.len() && li[x] == id;
                    assert(l[x] == id);
                } else {
                    assert(l[li.len() as int] == id);
                }
            }
        } else {
            assert(l == li);
            if exists|m: int| 0 <= m < obs.len() && obs[m].id == id && is_lost(obs[m], view_bottom) {
                let m = choose|m: int| 0 <= m < obs.len() && obs[m].id == id && is_lost(obs[m], view_bottom);
                assert(m != obs.len() - 1);
                assert(init[m] == obs[m]);
            }
        }
    }
}

/// A block whose centre is at or above the loss limit is never removed;
/// one a block side below the limit always is.
pub proof fn lemma_loss_boundary(obs: Seq<BlockObs>, view_bottom: i64, k: int)
    requires
        0 <= k < obs.len(),
        crate::settle::distinct_ids(obs),
    ensures
        obs[k].y >= loss_limit(view_bottom) ==> !lost_ids(obs, view_bottom).contains(obs[k].id),
        obs[k].y == loss_limit(view_bottom) - UNIT ==> lost_ids(obs, view_bottom).contains(obs[k].id),
{
    lemma_lost_ids_members(obs, view_bottom, obs[k].id);
    if obs[k].y >= loss_limit(view_bottom) {
        assert forall|m: int| 0 <= m < obs.len() && obs[m].id == obs[k].id implies !is_lost(obs[m], view_bottom) by {
            if m != k {
                if m < k {
                    assert(obs[m].id != obs[k].id);
                } else {
                    assert(obs[k].id != obs[m].id);
                }
            }
        }
    }
}

/// Losing a block of the active piece ends the game with zero health, and
/// once more than the grace period has passed the board restarts with fresh
/// counters and one new piece, so that four blocks are generated.
pub proof fn lemma_losing_active_piece_restarts(
    s: Stats,
    active: Seq<u64>,
    obs: Seq<BlockObs>,
    view_bottom: i64,
    elapsed: u64,
)
    requires
        s.wf(),
        active_lost(active, obs, view_bottom),
        elapsed > GRACE_MICROS,
    ensures
        stats_after_loss(s, active, obs, view_bottom).game_over_duration.is_some(),
        health_of(stats_after_loss(s, active, obs, view_bottom)).num == 0,
        restarts(stats_after_loss(s, active, obs, view_bottom), elapsed),
        stats_after_spawn(initial_stats()) == (Stats {
            generated_blocks: BLOCKS_PER_PIECE,
            cleared_blocks: 0,
            lost_blocks: 0,
            game_over_duration: None,
        }),
{
}

impl Game {
    /// Whether the lost-block counter has room for `n` more.
    pub fn has_loss_room(&self, n: usize) -> (r: bool)
        ensures
            r == (self.stats.lost_blocks + n <= u64::MAX),
    {
        self.stats.lost_blocks <= u64::MAX - n as u64
    }

    /// Removes every reported block whose centre sank under the loss limit
    /// and counts it as lost; losing a block of the active piece starts the
    /// game-over timer. Returns the handles of the lost blocks, in report
    /// order.
    pub fn detect_lost_blocks(&mut self, obs: &Vec<BlockObs>, view_bottom: i64) -> (r: Vec<u64>)
        requires
            old(self).wf(),
            old(self).stats.lost_blocks + obs.len() <= u64::MAX,
        ensures
            final(self).wf(),
            r@ == lost_ids(obs@, view_bottom),
            final(self).stats == stats_after_loss(old(self).stats, old(self).active_blocks@, obs@, view_bottom),
            final(self).board == old(self).board,
            final(self).active_blocks == old(self).active_blocks,
            final(self).active_joints == old(self).active_joints,
            final(self).next_id == old(self).next_id,
    {
        let limit: i128 = view_bottom as i128 - LOSS_MARGIN as i128;
        let mut lost: Vec<u64> = Vec::new();
        let mut hit_active = false;
        let mut i: usize = 0;
        while i < obs.len()
            invariant
                0 <= i <= obs.len(),
                limit == loss_limit(view_bottom),
                lost@ == lost_ids(obs@.take(i as int), view_bottom),
                hit_active == exists|m: int|
                    0 <= m < i && is_lost(obs@[m], view_bottom)
                        && self.active_blocks@.contains(#[trigger] obs@[m].id),
            decreases obs.len() - i,
        {
            let o = obs[i];
            proof {
                assert(obs@.take(i as int + 1).drop_last() =~= obs@.take(i as int));
            }
            if (o.y as i128) < limit {
                lost.push(o.id);
                let mut k: usize = 0;
                let mut member = false;
                while k < self.active_blocks.len()
                    invariant
                        0 <= k <= self.active_blocks.len(),
                        member == exists|a: int| 0 <= a < k && self.active_blocks@[a] == o.id,
                    decreases self.active_blocks.len() - k,
                {
                    if self.active_blocks[k] == o.id {
                        member = true;
                    }
                    k = k + 1;
                }
                assert(member == self.active_blocks@.contains(o.id));
                if member {
                    hit_active = true;
                }
            }
            i = i + 1;
        }
        assert(obs@.take(obs.len() as int) =~= obs@);
        proof {
            lemma_lost_ids_bounded(obs@, view_bottom);
        }
        if hit_active && self.stats.game_over_duration.is_none() {
            self.stats.game_over_duration = Some(0);
        }
        self.stats.lost_blocks = self.stats.lost_blocks + lost.len() as u64;
        lost
    }

    /// Advances the game-over timer by `elapsed` microseconds and picks the
    /// next piece's kind as `next`. Once the timer passes the grace period
    /// the board restarts: every block is to be destroyed, the counters are
    /// reset, and the returned piece is spawned. Without a game over nothing
    /// changes.
    pub fn advance_game_over_with_kind(&mut self, elapsed: u64, next: TetrominoKind) -> (r: Option<PieceSpawn>)
        requires
            old(self).wf(),
            old(self).spawn_room(),
        ensures
            final(self).wf(),
            r.is_some() == restarts(old(self).stats, elapsed),
            match r {
                Some(p) => spawned_into(*final(self), old(self).board, initial_stats(), old(self).next_id, next, p),
                None => {
                    &&& final(self).stats == stats_after_wait(old(self).stats, elapsed)
                    &&& final(self).board == old(self).board
                    &&& final(self).active_blocks == old(self).active_blocks
                    &&& final(self).active_joints == old(self).active_joints
                    &&& final(self).next_id == old(self).next_id
                },
            },
    {
        match self.stats.game_over_duration {
            None => None,
            Some(d) => {
                if elapsed > GRACE_MICROS - d {
                    self.stats = Stats::new();
                    self.active_blocks = Vec::new();
                    self.active_joints = Vec::new();
                    Some(self.spawn_piece(next))
                } else {
                    self.stats.game_over_duration = Some(d + elapsed);
                    None
                }
            },
        }
    }

    /// Advances the game-over timer, drawing the kind of the piece that a
    /// restart spawns at random.
    pub fn advance_game_over(&mut self, elapsed: u64) -> (r: Option<PieceSpawn>)
        requires
            old(self).wf(),
            old(self).spawn_room(),
        ensures
            final(self).wf(),
            r.is_some() == restarts(old(self).stats, elapsed),
            match r {
                Some(p) => spawned_into(*final(self), old(self).board, initial_stats(), old(self).next_id, p.kind, p),
                None => {
                    &&& final(self).stats == stats_after_wait(old(self).stats, elapsed)
                    &&& final(self).board == old(self).board
                    &&& final(self).active_blocks == old(self).active_blocks
                    &&& final(self).active_joints == old(self).active_joints
                    &&& final(self).next_id == old(self).next_id
                },
            },
    {
        let next = TetrominoKind::random();
        self.advance_game_over_with_kind(elapsed, next)
    }
}

} // verus!
