//! The game context: the board, the counters, and the handles of the active
//! piece; spawning a piece and the forces the player applies to it.
use vstd::prelude::*;
use crate::board::{Board, HALF};
use crate::shape::{
    TetrominoKind, cell_offsets, coords_view, joint_pairs, lemma_layout_well_formed,
    lemma_offsets_bounded,
};
use crate::stats::{Stats, Health, health_of};

verus! {

/// Horizontal force on each block of the active piece while a side key is
/// held.
pub const MOVEMENT_FORCE: i64 = 80;

/// Torque on each block of the active piece while a rotation key is held.
pub const TORQUE: i64 = 110;

/// Blocks in every piece.
pub const BLOCKS_PER_PIECE: u64 = 4;

/// The most handles one spawn takes: four blocks and at most four joints.
pub const MAX_IDS_PER_PIECE: u64 = 8;

/// The four controls, as pressed or not in this tick.
#[derive(Clone, Copy, Debug, PartialEq, Eq, Structural)]
pub struct Controls {
    pub left: bool,
    pub right: bool,
    pub rotate_ccw: bool,
    pub rotate_cw: bool,
}

/// The force and torque to set on one block.
#[derive(Clone, Copy, Debug, PartialEq, Eq, Structural)]
pub struct BlockForce {
    pub block: u64,
    pub force_x: i64,
    pub torque: i64,
}

/// A block to create: its handle, kind, grid cell and world centre.
#[derive(Clone, Copy, Debug, PartialEq, Eq, Structural)]
pub struct BlockSpawn {
    pub id: u64,
    pub kind: TetrominoKind,
    pub lane: i64,
    pub row: i64,
    pub x: i64,
    pub y: i64,
}

/// A rigid joint to create between two blocks. It is anchored at
/// (`anchor_x`, `anchor_y`) from the centre of `first` and at the opposite
/// offset from the centre of `second`: the midpoint of their shared edge.
#[derive(Clone, Copy, Debug, PartialEq, Eq, Structural)]
pub struct JointSpawn {
    pub id: u64,
    pub first: u64,
    pub second: u64,
    pub anchor_x: i64,
    pub anchor_y: i64,
}

/// Everything to create for a new piece.
pub struct PieceSpawn {
    pub kind: TetrominoKind,
    pub blocks: Vec<BlockSpawn>,
    pub joints: Vec<JointSpawn>,
}

/// The game context. Blocks and joints are named by handles that the game
/// hands out in increasing order; the engine keeps the bodies behind them.
pub struct Game {
    pub board: Board,
    pub stats: Stats,
    pub active_blocks: Vec<u64>,
    pub active_joints: Vec<u64>,
    pub next_id: u64,
}

/// The lane a cell offset spawns in: centred horizontally.
pub open spec fn spawn_lane(board: Board, off: (int, int)) -> int {
    (board.n_lanes / 2) as int - 1 + off.0
}

/// The row a cell offset spawns in: at the top of the board.
pub open spec fn spawn_row(board: Board, off: (int, int)) -> int {
    board.n_rows - 1 + off.1
}

/// Block `i` of a piece of `kind` whose handles start at `first_id`.
pub open spec fn block_planned(
    board: Board,
    first_id: u64,
    kind: TetrominoKind,
    i: int,
    b: BlockSpawn,
) -> bool {
    let off = cell_offsets(kind)[i];
    &&& b.id == first_id + i
    &&& b.kind == kind
    &&& b.lane == spawn_lane(board, off)
    &&& b.row == spawn_row(board, off)
    &&& b.x == board.lane_center(b.lane as int)
    &&& b.y == board.row_center(b.row as int)
}

/// Joint `k` of a piece of `kind` whose handles start at `first_id`.
pub open spec fn joint_planned(first_id: u64, kind: TetrominoKind, k: int, j: JointSpawn) -> bool {
    let pair = joint_pairs(kind)[k];
    let ca = cell_offsets(kind)[pair.0 as int];
    let cb = cell_offsets(kind)[pair.1 as int];
    &&& j.id == first_id + BLOCKS_PER_PIECE + k
    &&& j.first == first_id + pair.0
    &&& j.second == first_id + pair.1
    &&& j.anchor_x == (cb.0 - ca.0) * HALF
    &&& j.anchor_y == (cb.1 - ca.1) * HALF
}

/// The piece of `kind` spawned on `board` with handles from `first_id`: one
/// block per cell and one joint per jointed pair of the catalog.
pub open spec fn piece_planned(board: Board, first_id: u64, kind: TetrominoKind, p: PieceSpawn) -> bool {
    &&& p.kind == kind
    &&& p.blocks.len() == BLOCKS_PER_PIECE
    &&& forall|i: int| 0 <= i < BLOCKS_PER_PIECE ==> block_planned(board, first_id, kind, i, #[trigger] p.blocks[i])
    &&& p.joints.len() == joint_pairs(kind).len()
    &&& forall|k: int| 0 <= k < p.joints.len() ==> joint_planned(first_id, kind, k, #[trigger] p.joints[k])
}

/// The handles of a piece's blocks.
pub open spec fn block_ids(p: PieceSpawn) -> Seq<u64> {
    p.blocks@.map_values(|b: BlockSpawn| b.id)
}

/// The handles of a piece's joints.
pub open spec fn joint_ids(p: PieceSpawn) -> Seq<u64> {
    p.joints@.map_values(|j: JointSpawn| j.id)
}

/// The handles one piece of `kind` takes.
pub open spec fn ids_taken(kind: TetrominoKind) -> nat {
    (BLOCKS_PER_PIECE + joint_pairs(kind).len()) as nat
}

/// The counters after a spawn: four more generated blocks.
pub open spec fn stats_after_spawn(s: Stats) -> Stats {
    Stats { generated_blocks: (s.generated_blocks + BLOCKS_PER_PIECE) as u64, ..s }
}

/// `post` is the game after spawning `p`, of `kind`, into a game with this
/// board, these counters and this next handle.
pub open spec fn spawned_into(
    post: Game,
    board: Board,
    stats: Stats,
    first_id: u64,
    kind: TetrominoKind,
    p: PieceSpawn,
) -> bool {
    &&& piece_planned(board, first_id, kind, p)
    &&& post.board == board
    &&& post.stats == stats_after_spawn(stats)
    &&& post.active_blocks@ == block_ids(p)
    &&& post.active_joints@ == joint_ids(p)
    &&& post.next_id == first_id + ids_taken(kind)
}

/// The side input: `1` for right, `-1` for left, `0` for both or neither.
pub open spec fn lateral(c: Controls) -> int {
    (if c.right { 1int } else { 0int }) - (if c.left { 1int } else { 0int })
}

/// The spin input: `1` for counter-clockwise, `-1` for clockwise.
pub open spec fn spin(c: Controls) -> int {
    (if c.rotate_ccw { 1int } else { 0int }) - (if c.rotate_cw { 1int } else { 0int })
}

/// A joint that links block `id` to a block with a smaller handle.
pub open spec fn links_to_earlier(j: JointSpawn, id: u64) -> bool {
    (j.first == id && j.second < id) || (j.second == id && j.first < id)
}

/// The joint of `kind` that links cell `i` to an earlier cell.
pub open spec fn earlier_link(kind: TetrominoKind, i: int) -> int {
    if kind == TetrominoKind::T && i == 3 {
        2
    } else {
        i - 1
    }
}

/// A spawned piece has four distinct, fresh block handles, its joint
/// handles are fresh and distinct from them, and every joint links two
/// different blocks of the piece; the joints connect all four blocks.
pub proof fn lemma_spawn_structure(board: Board, first_id: u64, kind: TetrominoKind, p: PieceSpawn)
    requires
        piece_planned(board, first_id, kind, p),
    ensures
        block_ids(p).len() == BLOCKS_PER_PIECE,
        forall|a: int, b: int| 0 <= a < b < BLOCKS_PER_PIECE ==> block_ids(p)[a] != block_ids(p)[b],
        forall|a: int| 0 <= a < BLOCKS_PER_PIECE ==> first_id <= #[trigger] block_ids(p)[a],
        forall|k: int|
            0 <= k < p.joints.len() ==> {
                &&& first_id + BLOCKS_PER_PIECE <= (#[trigger] p.joints[k]).id
                &&& block_ids(p).contains(p.joints[k].first)
                &&& block_ids(p).contains(p.joints[k].second)
                &&& p.joints[k].first != p.joints[k].second
            },
        forall|a: int, b: int| 0 <= a < b < p.joints.len() ==> p.joints[a].id != p.joints[b].id,
        forall|i: int|
            0 < i < BLOCKS_PER_PIECE ==> 0 <= #[trigger] earlier_link(kind, i) < p.joints.len()
                && links_to_earlier(p.joints[earlier_link(kind, i)], block_ids(p)[i]),
{
    lemma_layout_well_formed(kind);
    assert forall|k: int| 0 <= k < p.joints.len() implies {
        &&& block_ids(p).contains((#[trigger] p.joints[k]).first)
        &&& block_ids(p).contains(p.joints[k].second)
    } by {
        assert(joint_planned(first_id, kind, k, p.joints[k]));
        let pair = joint_pairs(kind)[k];
        assert(block_ids(p)[pair.0 as int] == p.joints[k].first);
        assert(block_ids(p)[pair.1 as int] == p.joints[k].second);
    }
    assert forall|i: int| 0 < i < BLOCKS_PER_PIECE implies 0 <= #[trigger] earlier_link(kind, i) < p.joints.len()
        && links_to_earlier(p.joints[earlier_link(kind, i)], block_ids(p)[i]) by {
        let k = earlier_link(kind, i);
        assert(joint_planned(first_id, kind, k, p.joints[k]));
        assert(block_planned(board, first_id, kind, i, p.blocks[i]));
        assert(block_ids(p)[i] == first_id + i);
    }
}

impl Game {
    /// A live piece has four blocks, every handle held was handed out
    /// already and is held once, and the board and counters are well formed.
    pub open spec fn wf(&self) -> bool {
        &&& self.board.wf()
        &&& self.stats.wf()
        &&& (self.active_blocks.len() == 0 || self.active_blocks.len() == BLOCKS_PER_PIECE)
        &&& self.active_joints.len() <= 4
        &&& forall|i: int| 0 <= i < self.active_blocks.len() ==> #[trigger] self.active_blocks[i] < self.next_id
        &&& forall|i: int| 0 <= i < self.active_joints.len() ==> #[trigger] self.active_joints[i] < self.next_id
        &&& forall|i: int, j: int|
            0 <= i < j < self.active_blocks.len() ==> self.active_blocks[i] != self.active_blocks[j]
        &&& forall|i: int, j: int|
            0 <= i < j < self.active_joints.len() ==> self.active_joints[i] != self.active_joints[j]
    }

    /// Room in the counters and handles for one more piece.
    pub open spec fn spawn_room(&self) -> bool {
        &&& self.next_id + MAX_IDS_PER_PIECE <= u64::MAX
        &&& self.stats.generated_blocks + BLOCKS_PER_PIECE <= u64::MAX
    }

    /// Whether a piece is falling under the player's control.
    pub open spec fn has_active_piece(&self) -> bool {
        self.active_blocks.len() > 0
    }

    /// A new game on `board`, with no piece yet.
    pub fn with_board(board: Board) -> (r: Game)
        requires
            board.wf(),
        ensures
            r.wf(),
            r.board == board,
            r.stats == crate::stats::initial_stats(),
            r.active_blocks@.len() == 0,
            r.active_joints@.len() == 0,
            r.next_id == 0,
    {
        Game {
            board,
            stats: Stats::new(),
            active_blocks: Vec::new(),
            active_joints: Vec::new(),
            next_id: 0,
        }
    }

    /// A new game on the standard board, with no piece yet.
    pub fn new() -> (r: Game)
        ensures
            r.wf(),
            r.board.n_lanes == 10,
            r.board.n_rows == 20,
            r.stats == crate::stats::initial_stats(),
            r.active_blocks@.len() == 0,
            r.active_joints@.len() == 0,
            r.next_id == 0,
    {
        Game::with_board(Board::standard())
    }

    /// Whether the handles and counters have room for one more piece.
    pub fn has_spawn_room(&self) -> (r: bool)
        ensures
            r == self.spawn_room(),
    {
        self.next_id <= u64::MAX - MAX_IDS_PER_PIECE
            && self.stats.generated_blocks <= u64::MAX - BLOCKS_PER_PIECE
    }

    /// The current health.
    pub fn health(&self) -> (r: Health)
        ensures
            r == health_of(self.stats),
    {
        self.stats.health()
    }

    /// Spawns a piece of `kind` at the top centre of the board: four blocks
    /// and the joints of the catalog, which become the active piece in place
    /// of any earlier one.
    pub fn spawn_piece(&mut self, kind: TetrominoKind) -> (r: PieceSpawn)
        requires
            old(self).wf(),
            old(self).spawn_room(),
        ensures
            final(self).wf(),
            spawned_into(*final(self), old(self).board, old(self).stats, old(self).next_id, kind, r),
    {
        let layout = kind.layout();
        proof {
            lemma_layout_well_formed(kind);
            lemma_offsets_bounded(kind);
        }
        let first = self.next_id;
        let board = self.board;
        let mut blocks: Vec<BlockSpawn> = Vec::new();
        let mut ids: Vec<u64> = Vec::new();
        let mut i: usize = 0;
        while i < 4
            invariant
                0 <= i <= 4,
                board == old(self).board,
                board.wf(),
                first == old(self).next_id,
                first + MAX_IDS_PER_PIECE <= u64::MAX,
                coords_view(layout.coords) == cell_offsets(kind),
                cell_offsets(kind).len() == 4,
                forall|m: int|
                    #![trigger cell_offsets(kind)[m]]
                    0 <= m < 4 ==> {
                        &&& 0 <= cell_offsets(kind)[m].0 <= 2
                        &&& -2 <= cell_offsets(kind)[m].1 <= 1
                    },
                blocks.len() == i,
                ids@ == blocks@.map_values(|b: BlockSpawn| b.id),
                forall|m: int| 0 <= m < i ==> block_planned(board, first, kind, m, #[trigger] blocks@[m]),
            decreases 4 - i,
        {
            let cell = layout.coords[i];
            assert(cell.0 as int == cell_offsets(kind)[i as int].0);
            assert(cell.1 as int == cell_offsets(kind)[i as int].1);
            let lane: i64 = (board.n_lanes / 2) as i64 - 1 + cell.0 as i64;
            let row: i64 = board.n_rows as i64 - 1 + cell.1 as i64;
            let center = board.cell_center(lane, row);
            let b = BlockSpawn { id: first + i as u64, kind, lane, row, x: center.0, y: center.1 };
            blocks.push(b);
            ids.push(b.id);
            assert(ids@ =~= blocks@.map_values(|b: BlockSpawn| b.id));
            i = i + 1;
        }
        let n_joints = layout.joints.len();
        let mut joints: Vec<JointSpawn> = Vec::new();
        let mut joint_handles: Vec<u64> = Vec::new();
        let mut k: usize = 0;
        while k < n_joints
            invariant
                0 <= k <= n_joints,
                n_joints == joint_pairs(kind).len(),
                n_joints <= 4,
                layout.joints@ == joint_pairs(kind),
                first == old(self).next_id,
                first + MAX_IDS_PER_PIECE <= u64::MAX,
                coords_view(layout.coords) == cell_offsets(kind),
                cell_offsets(kind).len() == 4,
                forall|m: int|
                    #![trigger cell_offsets(kind)[m]]
                    0 <= m < 4 ==> {
                        &&& 0 <= cell_offsets(kind)[m].0 <= 2
                        &&& -2 <= cell_offsets(kind)[m].1 <= 1
                    },
                forall|m: int|
                    #![trigger joint_pairs(kind)[m]]
                    0 <= m < joint_pairs(kind).len() ==> {
                        &&& joint_pairs(kind)[m].0 < 4
                        &&& joint_pairs(kind)[m].1 < 4
                    },
                joints.len() == k,
                joint_handles@ == joints@.map_values(|j: JointSpawn| j.id),
                forall|m: int| 0 <= m < k ==> joint_planned(first, kind, m, #[trigger] joints@[m]),
            decreases n_joints - k,
        {
            let pair = layout.joints[k];
            assert(pair == joint_pairs(kind)[k as int]);
            let ca = layout.coords[pair.0];
            let cb = layout.coords[pair.1];
            assert(ca.0 as int == cell_offsets(kind)[pair.0 as int].0);
            assert(ca.1 as int == cell_offsets(kind)[pair.0 as int].1);
            assert(cb.0 as int == cell_offsets(kind)[pair.1 as int].0);
            assert(cb.1 as int == cell_offsets(kind)[pair.1 as int].1);
            let j = JointSpawn {
                id: first + BLOCKS_PER_PIECE + k as u64,
                first: first + pair.0 as u64,
                second: first + pair.1 as u64,
                anchor_x: (cb.0 as i64 - ca.0 as i64) * HALF,
                anchor_y: (cb.1 as i64 - ca.1 as i64) * HALF,
            };
            joints.push(j);
            joint_handles.push(j.id);
            assert(joint_handles@ =~= joints@.map_values(|j: JointSpawn| j.id));
            k = k + 1;
        }
        self.stats.generated_blocks = self.stats.generated_blocks + BLOCKS_PER_PIECE;
        self.active_blocks = ids;
        self.active_joints = joint_handles;
        self.next_id = first + BLOCKS_PER_PIECE + n_joints as u64;
        let r = PieceSpawn { kind, blocks, joints };
        assert(self.active_blocks@ == block_ids(r));
        assert(self.active_joints@ == joint_ids(r));
        r
    }

    /// Spawns a piece of a kind drawn uniformly at random.
    pub fn spawn_tetromino(&mut self) -> (r: PieceSpawn)
        requires
            old(self).wf(),
            old(self).spawn_room(),
        ensures
            final(self).wf(),
            spawned_into(*final(self), old(self).board, old(self).stats, old(self).next_id, r.kind, r),
    {
        let kind = TetrominoKind::random();
        self.spawn_piece(kind)
    }

    /// The force and torque for every block of the active piece under these
    /// controls: the same for all of them, and nothing without a piece.
    pub fn movement_forces(&self, controls: Controls) -> (r: Vec<BlockForce>)
        ensures
            r.len() == self.active_blocks.len(),
            forall|i: int|
                0 <= i < r.len() ==> #[trigger] r[i] == (BlockForce {
                    block: self.active_blocks[i],
                    force_x: (lateral(controls) * MOVEMENT_FORCE) as i64,
                    torque: (spin(controls) * TORQUE) as i64,
                }),
    {
        let movement: i64 = (if controls.right { 1i64 } else { 0i64 }) - (if controls.left { 1i64 } else { 0i64 });
        let turn: i64 = (if controls.rotate_ccw { 1i64 } else { 0i64 }) - (if controls.rotate_cw { 1i64 } else { 0i64 });
        let force_x = movement * MOVEMENT_FORCE;
        let torque = turn * TORQUE;
        let mut r: Vec<BlockForce> = Vec::new();
        let mut i: usize = 0;
        while i < self.active_blocks.len()
            invariant
                0 <= i <= self.active_blocks.len(),
                r.len() == i,
                force_x == lateral(controls) * MOVEMENT_FORCE,
                torque == spin(controls) * TORQUE,
                forall|m: int|
                    0 <= m < i ==> #[trigger] r[m] == (BlockForce {
                        block: self.active_blocks[m],
                        force_x,
                        torque,
                    }),
            decreases self.active_blocks.len() - i,
        {
            r.push(BlockForce { block: self.active_blocks[i], force_x, torque });
            i = i + 1;
        }
        r
    }
}

} // verus!
