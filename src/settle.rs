//! Settle detection and row clearing, over what the engine reports of each
//! block in this tick.
use vstd::prelude::*;
use crate::board::Board;
use crate::game::{Game, PieceSpawn, spawned_into};
use crate::shape::TetrominoKind;
use crate::stats::{Stats, health_of};

verus! {

/// What the engine reports of one block: its handle, the height of its
/// centre, and whether it is at rest.
#[derive(Clone, Copy, Debug, PartialEq, Eq, Structural)]
pub struct BlockObs {
    pub id: u64,
    pub y: i64,
    pub resting: bool,
}

/// What a settle check decided: whether the piece settled, the joints to
/// destroy, the blocks to destroy as cleared, and the next piece, if any.
pub struct SettleOutcome {
    pub settled: bool,
    pub removed_joints: Vec<u64>,
    pub cleared_blocks: Vec<u64>,
    pub spawned: Option<PieceSpawn>,
}

/// No two reports name the same block.
pub open spec fn distinct_ids(obs: Seq<BlockObs>) -> bool {
    forall|a: int, b: int| 0 <= a < b < obs.len() ==> obs[a].id != obs[b].id
}

/// A report of a block at rest in `row`.
pub open spec fn in_row(board: Board, o: BlockObs, row: int) -> bool {
    o.resting && board.row_index(o.y as int) == row
}

/// The number of reports of blocks at rest in `row`.
pub open spec fn row_count(board: Board, obs: Seq<BlockObs>, row: int) -> nat
    decreases obs.len(),
{
    if obs.len() == 0 {
        0
    } else {
        row_count(board, obs.drop_last(), row) + if in_row(board, obs.last(), row) {
            1nat
        } else {
            0nat
        }
    }
}

/// A row of the board whose count of resting reports equals the lane count.
pub open spec fn row_full(board: Board, obs: Seq<BlockObs>, row: int) -> bool {
    board.row_in_range(row) && row_count(board, obs, row) == board.n_lanes
}

/// A report of a resting block in a full row.
pub open spec fn is_cleared(board: Board, obs: Seq<BlockObs>, o: BlockObs) -> bool {
    o.resting && row_full(board, obs, board.row_index(o.y as int))
}

/// The handles, in report order, of the blocks among `part` that lie in a
/// full row of `obs`.
pub open spec fn cleared_ids(board: Board, obs: Seq<BlockObs>, part: Seq<BlockObs>) -> Seq<u64>
    decreases part.len(),
{
    if part.len() == 0 {
        Seq::empty()
    } else {
        let rest = cleared_ids(board, obs, part.drop_last());
        if is_cleared(board, obs, part.last()) {
            rest.push(part.last().id)
        } else {
            rest
        }
    }
}

/// Whether `id` is reported at rest.
pub open spec fn reported_resting(obs: Seq<BlockObs>, id: u64) -> bool {
    exists|m: int| 0 <= m < obs.len() && obs[m].id == id && obs[m].resting
}

/// A live piece every block of which is reported at rest; a block that is
/// not reported counts as moving.
pub open spec fn settles(active: Seq<u64>, obs: Seq<BlockObs>) -> bool {
    active.len() > 0 && forall|k: int| 0 <= k < active.len() ==> reported_resting(obs, #[trigger] active[k])
}

/// The counters after clearing `n` blocks.
pub open spec fn stats_after_clear(s: Stats, n: nat) -> Stats {
    Stats { cleared_blocks: (s.cleared_blocks + n) as u64, ..s }
}

proof fn lemma_row_count_bounded(board: Board, obs: Seq<BlockObs>, row: int)
    ensures
        row_count(board, obs, row) <= obs.len(),
    decreases obs.len(),
{
    if obs.len() > 0 {
        lemma_row_count_bounded(board, obs.drop_last(), row);
    }
}

proof fn lemma_cleared_ids_bounded(board: Board, obs: Seq<BlockObs>, part: Seq<BlockObs>)
    ensures
        cleared_ids(board, obs, part).len() <= part.len(),
    decreases part.len(),
{
    if part.len() > 0 {
        lemma_cleared_ids_bounded(board, obs, part.drop_last());
    }
}

/// The distinct handles of the blocks reported at rest in `row`.
pub open spec fn row_ids(board: Board, obs: Seq<BlockObs>, row: int) -> Set<u64> {
    Set::new(|id: u64| exists|m: int| 0 <= m < obs.len() && obs[m].id == id && in_row(board, obs[m], row))
}

/// With one report per block, the reports at rest in a row count the
/// distinct blocks there.
pub proof fn lemma_row_count_distinct(board: Board, obs: Seq<BlockObs>, row: int)
    requires
        distinct_ids(obs),
    ensures
        row_ids(board, obs, row).finite(),
        row_ids(board, obs, row).len() == row_count(board, obs, row),
    decreases obs.len(),
{
    if obs.len() == 0 {
        assert(row_ids(board, obs, row) =~= Set::empty());
    } else {
        let init = obs.drop_last();
        let last = obs.last();
        assert(forall|m: int| 0 <= m < init.len() ==> init[m] == obs[m]);
        assert(distinct_ids(init));
        lemma_row_count_distinct(board, init, row);
        assert(obs[obs.len() - 1] == last);
        if in_row(board, last, row) {
            assert(row_ids(board, obs, row) =~= row_ids(board, init, row).insert(last.id));
            assert(!row_ids(board, init, row).contains(last.id)) by {
                if row_ids(board, init, row).contains(last.id) {
                    let m = choose|m: int| 0 <= m < init.len() && init[m].id == last.id && in_row(board, init[m], row);
                    assert(obs[m].id != obs[obs.len() - 1].id);
                }
            }
        } else {
            assert(row_ids(board, obs, row) =~= row_ids(board, init, row));
        }
    }
}

proof fn lemma_cleared_ids_single_row(board: Board, obs: Seq<BlockObs>, part: Seq<BlockObs>, row: int)
    requires
        forall|o: BlockObs| is_cleared(board, obs, o) <==> in_row(board, o, row),
    ensures
        cleared_ids(board, obs, part).len() == row_count(board, part, row),
    decreases part.len(),
{
    if part.len() > 0 {
        lemma_cleared_ids_single_row(board, obs, part.drop_last(), row);
    }
}

/// A row is cleared exactly when the number of distinct blocks at rest in
/// it equals the lane count, so one block fewer leaves it standing; and when
/// it is the only full row, exactly one lane count of blocks is cleared.
pub proof fn lemma_row_clear_threshold(board: Board, obs: Seq<BlockObs>, row: int)
    requires
        board.wf(),
        distinct_ids(obs),
        board.row_in_range(row),
    ensures
        row_ids(board, obs, row).len() == row_count(board, obs, row),
        forall|m: int|
            0 <= m < obs.len() && in_row(board, obs[m], row) ==> (is_cleared(board, obs, #[trigger] obs[m])
                <==> row_ids(board, obs, row).len() == board.n_lanes),
        row_ids(board, obs, row).len() + 1 == board.n_lanes ==> forall|m: int|
            0 <= m < obs.len() && in_row(board, obs[m], row) ==> !is_cleared(board, obs, #[trigger] obs[m]),
        (row_full(board, obs, row) && forall|other: int| other != row ==> !row_full(board, obs, other))
            ==> cleared_ids(board, obs, obs).len() == board.n_lanes,
{
    lemma_row_count_distinct(board, obs, row);
    if row_full(board, obs, row) && forall|other: int| other != row ==> !row_full(board, obs, other) {
        assert forall|o: BlockObs| is_cleared(board, obs, o) <==> in_row(board, o, row) by {
            if o.resting && board.row_index(o.y as int) != row {
                assert(!row_full(board, obs, board.row_index(o.y as int)));
            }
        }
        lemma_cleared_ids_single_row(board, obs, obs, row);
    }
}

/// A piece with one block that is not reported at rest does not settle.
pub proof fn lemma_moving_block_blocks_settle(active: Seq<u64>, obs: Seq<BlockObs>, k: int)
    requires
        0 <= k < active.len(),
        forall|m: int| 0 <= m < obs.len() && obs[m].id == active[k] ==> !obs[m].resting,
    ensures
        !settles(active, obs),
{
    assert(!reported_resting(obs, active[k]));
}

impl Game {
    /// Room in the counters for clearing `n` blocks and spawning a piece.
    pub open spec fn settle_room(&self, n: nat) -> bool {
        &&& self.spawn_room()
        &&& self.stats.cleared_blocks + n <= u64::MAX
    }

    /// Whether the counters have room to settle over `n` reports.
    pub fn has_settle_room(&self, n: usize) -> (r: bool)
        ensures
            r == self.settle_room(n as nat),
    {
        self.has_spawn_room() && self.stats.cleared_blocks <= u64::MAX - n as u64
    }

    /// Clears every full row: a row of the board in which the number of
    /// blocks reported at rest equals the lane count. Returns the handles of
    /// the cleared blocks in report order, and counts them as cleared. Rows
    /// are judged independently and nothing is shifted.
    pub fn clear_filled_rows(&mut self, obs: &Vec<BlockObs>) -> (r: Vec<u64>)
        requires
            old(self).wf(),
            old(self).stats.cleared_blocks + obs.len() <= u64::MAX,
        ensures
            r@ == cleared_ids(old(self).board, obs@, obs@),
            final(self).stats == stats_after_clear(old(self).stats, r@.len()),
            final(self).board == old(self).board,
            final(self).active_blocks == old(self).active_blocks,
            final(self).active_joints == old(self).active_joints,
            final(self).next_id == old(self).next_id,
            final(self).wf(),
    {
        let board = self.board;
        let n_rows = board.n_rows as usize;
        let mut counts: Vec<u64> = Vec::new();
        let mut row: usize = 0;
        while row < n_rows
            invariant
                0 <= row <= n_rows,
                n_rows == board.n_rows,
                counts.len() == row,
                forall|m: int| 0 <= m < row ==> #[trigger] counts[m] == 0,
            decreases n_rows - row,
        {
            counts.push(0);
            row = row + 1;
        }
        let mut i: usize = 0;
        while i < obs.len()
            invariant
                0 <= i <= obs.len(),
                board.wf(),
                n_rows == board.n_rows,
                counts.len() == n_rows,
                forall|m: int|
                    0 <= m < n_rows ==> #[trigger] counts[m] == row_count(board, obs@.take(i as int), m),
            decreases obs.len() - i,
        {
            let o = obs[i];
            proof {
                assert(obs@.take(i as int + 1).drop_last() =~= obs@.take(i as int));
                assert forall|m: int| 0 <= m < n_rows implies row_count(board, obs@.take(i as int), m) <= i by {
                    lemma_row_count_bounded(board, obs@.take(i as int), m);
                }
            }
            if o.resting {
                match board.row_of(o.y) {
                    Some(r) => {
                        let c = counts[r as usize];
                        counts.set(r as usize, c + 1);
                    },
                    None => {},
                }
            }
            i = i + 1;
        }
        assert(obs@.take(obs.len() as int) =~= obs@);
        let mut cleared: Vec<u64> = Vec::new();
        let mut j: usize = 0;
        while j < obs.len()
            invariant
                0 <= j <= obs.len(),
                board.wf(),
                board == old(self).board,
                n_rows == board.n_rows,
                counts.len() == n_rows,
                forall|m: int| 0 <= m < n_rows ==> #[trigger] counts[m] == row_count(board, obs@, m),
                cleared@ == cleared_ids(board, obs@, obs@.take(j as int)),
            decreases obs.len() - j,
        {
            let o = obs[j];
            proof {
                assert(obs@.take(j as int + 1).drop_last() =~= obs@.take(j as int));
            }
            if o.resting {
                match board.row_of(o.y) {
                    Some(r) => {
                        if counts[r as usize] == board.n_lanes {
                            cleared.push(o.id);
                        }
                    },
                    None => {},
                }
            }
            j = j + 1;
        }
        assert(obs@.take(obs.len() as int) =~= obs@);
        proof {
            lemma_cleared_ids_bounded(board, obs@, obs@);
        }
        self.stats.cleared_blocks = self.stats.cleared_blocks + cleared.len() as u64;
        cleared
    }

    /// Whether every block of the active piece is reported at rest.
    pub fn piece_at_rest(&self, obs: &Vec<BlockObs>) -> (r: bool)
        ensures
            r == settles(self.active_blocks@, obs@),
    {
        if self.active_blocks.len() == 0 {
            return false;
        }
        let mut k: usize = 0;
        while k < self.active_blocks.len()
            invariant
                0 <= k <= self.active_blocks.len(),
                forall|a: int| 0 <= a < k ==> reported_resting(obs@, #[trigger] self.active_blocks@[a]),
            decreases self.active_blocks.len() - k,
        {
            let id = self.active_blocks[k];
            let mut m: usize = 0;
            let mut found = false;
            while m < obs.len()
                invariant
                    0 <= m <= obs.len(),
                    found ==> reported_resting(obs@, id),
                    !found ==> forall|b: int| 0 <= b < m ==> !(obs@[b].id == id && obs@[b].resting),
                decreases obs.len() - m,
            {
                if obs[m].id == id && obs[m].resting {
                    found = true;
                }
                m = m + 1;
            }
            if !found {
                assert(!reported_resting(obs@, id));
                return false;
            }
            k = k + 1;
        }
        true
    }

    /// One settle check. When every block of the active piece is at rest,
    /// the piece is placed: its joints are destroyed, full rows are cleared,
    /// and a piece of `next` is spawned if health is still above zero;
    /// otherwise nothing changes.
    pub fn settle_with_kind(&mut self, obs: &Vec<BlockObs>, next: TetrominoKind) -> (r: SettleOutcome)
        requires
            old(self).wf(),
            settles(old(self).active_blocks@, obs@) ==> old(self).settle_room(obs@.len()),
        ensures
            final(self).wf(),
            r.settled == settles(old(self).active_blocks@, obs@),
            !r.settled ==> {
                &&& *final(self) == *old(self)
                &&& r.removed_joints@.len() == 0
                &&& r.cleared_blocks@.len() == 0
                &&& r.spawned.is_none()
            },
            r.settled ==> {
                let cleared = cleared_ids(old(self).board, obs@, obs@);
                let placed = stats_after_clear(old(self).stats, cleared.len());
                &&& r.removed_joints@ == old(self).active_joints@
                &&& r.cleared_blocks@ == cleared
                &&& r.spawned.is_some() == (health_of(placed).num > 0)
                &&& match r.spawned {
                    Some(p) => spawned_into(*final(self), old(self).board, placed, old(self).next_id, next, p),
                    None => {
                        &&& final(self).board == old(self).board
                        &&& final(self).stats == placed
                        &&& final(self).active_blocks@.len() == 0
                        &&& final(self).active_joints@.len() == 0
                        &&& final(self).next_id == old(self).next_id
                    },
                }
            },
    {
        if !self.piece_at_rest(obs) {
            return SettleOutcome {
                settled: false,
                removed_joints: Vec::new(),
                cleared_blocks: Vec::new(),
                spawned: None,
            };
        }
        let mut removed_joints: Vec<u64> = Vec::new();
        std::mem::swap(&mut removed_joints, &mut self.active_joints);
        self.active_blocks = Vec::new();
        let cleared_blocks = self.clear_filled_rows(obs);
        let spawned = if self.stats.health().is_positive() {
            Some(self.spawn_piece(next))
        } else {
            None
        };
        SettleOutcome { settled: true, removed_joints, cleared_blocks, spawned }
    }

    /// One settle check that draws the next piece's kind at random.
    pub fn settle(&mut self, obs: &Vec<BlockObs>) -> (r: SettleOutcome)
        requires
            old(self).wf(),
            settles(old(self).active_blocks@, obs@) ==> old(self).settle_room(obs@.len()),
        ensures
            final(self).wf(),
            r.settled == settles(old(self).active_blocks@, obs@),
            !r.settled ==> {
                &&& *final(self) == *old(self)
                &&& r.removed_joints@.len() == 0
                &&& r.cleared_blocks@.len() == 0
                &&& r.spawned.is_none()
            },
            r.settled ==> {
                let cleared = cleared_ids(old(self).board, obs@, obs@);
                let placed = stats_after_clear(old(self).stats, cleared.len());
                &&& r.removed_joints@ == old(self).active_joints@
                &&& r.cleared_blocks@ == cleared
                &&& r.spawned.is_some() == (health_of(placed).num > 0)
                &&& match r.spawned {
                    Some(p) => spawned_into(*final(self), old(self).board, placed, old(self).next_id, p.kind, p),
                    None => {
                        &&& final(self).board == old(self).board
                        &&& final(self).stats == placed
                        &&& final(self).active_blocks@.len() == 0
                        &&& final(self).active_joints@.len() == 0
                        &&& final(self).next_id == old(self).next_id
                    },
                }
            },
    {
        let next = TetrominoKind::random();
        self.settle_with_kind(obs, next)
    }
}

} // verus!
