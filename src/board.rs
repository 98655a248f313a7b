//! Board geometry in fixed-point world units: `UNIT` units per block side,
//! with the world origin at the centre of the board.
use vstd::prelude::*;

verus! {

/// World units per block side.
pub const UNIT: i64 = 1000;

/// Half a block side in world units.
pub const HALF: i64 = 500;

/// The largest lane or row count a board may have.
pub const MAX_DIM: u64 = 1_000_000;

/// Height of the floor slab, in world units.
pub const FLOOR_HEIGHT: i64 = 2000;

/// Height of the health bar, in world units.
pub const HEALTH_BAR_HEIGHT: i64 = 500;

/// Rows of margin that the view shows beyond the board.
pub const VIEW_MARGIN_ROWS: u64 = 7;

/// The lane and row counts of a board.
#[derive(Clone, Copy, Debug, PartialEq, Eq, Structural)]
pub struct Board {
    pub n_lanes: u64,
    pub n_rows: u64,
}

/// An axis-aligned rectangle: its centre and its size, in world units.
#[derive(Clone, Copy, Debug, PartialEq, Eq, Structural)]
pub struct Rect {
    pub center_x: i64,
    pub center_y: i64,
    pub width: i64,
    pub height: i64,
}

impl Board {
    /// Lane and row counts that the geometry can handle.
    pub open spec fn wf(&self) -> bool {
        2 <= self.n_lanes <= MAX_DIM && 1 <= self.n_rows <= MAX_DIM
    }

    /// Height of the floor line: the top of the floor slab and the bottom of
    /// row 0.
    pub open spec fn floor_y_spec(&self) -> int {
        -(self.n_rows * HALF)
    }

    /// Position of the left wall.
    pub open spec fn left_wall_x_spec(&self) -> int {
        -(self.n_lanes * HALF)
    }

    /// Horizontal centre of a block in `lane`.
    pub open spec fn lane_center(&self, lane: int) -> int {
        self.left_wall_x_spec() + lane * UNIT + HALF
    }

    /// Vertical centre of a block in `row`.
    pub open spec fn row_center(&self, row: int) -> int {
        self.floor_y_spec() + row * UNIT + HALF
    }

    /// The row whose band holds a block centred at height `y`: the height of
    /// the centre over the floor line, in block sides, rounded down.
    pub open spec fn row_index(&self, y: int) -> int {
        (y - self.floor_y_spec()) / (UNIT as int)
    }

    /// A row index that lies on the board.
    pub open spec fn row_in_range(&self, row: int) -> bool {
        0 <= row < self.n_rows
    }

    /// A board of `n_lanes` lanes and `n_rows` rows.
    pub fn new(n_lanes: u64, n_rows: u64) -> (r: Board)
        requires
            2 <= n_lanes <= MAX_DIM,
            1 <= n_rows <= MAX_DIM,
        ensures
            r.n_lanes == n_lanes,
            r.n_rows == n_rows,
            r.wf(),
    {
        Board { n_lanes, n_rows }
    }

    /// The standard board: ten lanes, twenty rows.
    pub fn standard() -> (r: Board)
        ensures
            r.n_lanes == 10,
            r.n_rows == 20,
            r.wf(),
    {
        Board { n_lanes: 10, n_rows: 20 }
    }

    /// Height of the floor line.
    pub fn floor_y(&self) -> (r: i64)
        requires
            self.wf(),
        ensures
            r == self.floor_y_spec(),
    {
        -((self.n_rows as i64) * HALF)
    }

    /// Position of the left wall.
    pub fn left_wall_x(&self) -> (r: i64)
        requires
            self.wf(),
        ensures
            r == self.left_wall_x_spec(),
    {
        -((self.n_lanes as i64) * HALF)
    }

    /// Centre of the block at grid cell (`lane`, `row`).
    pub fn cell_center(&self, lane: i64, row: i64) -> (r: (i64, i64))
        requires
            self.wf(),
            -(MAX_DIM as int) <= lane <= 2 * MAX_DIM,
            -(MAX_DIM as int) <= row <= 2 * MAX_DIM,
        ensures
            r.0 == self.lane_center(lane as int),
            r.1 == self.row_center(row as int),
    {
        let x = self.left_wall_x() + lane * UNIT + HALF;
        let y = self.floor_y() + row * UNIT + HALF;
        (x, y)
    }

    /// The row of a block centred at height `y`, or `None` where that row
    /// lies outside the board.
    pub fn row_of(&self, y: i64) -> (r: Option<u64>)
        requires
            self.wf(),
        ensures
            r.is_some() <==> self.row_in_range(self.row_index(y as int)),
            r.is_some() ==> r.unwrap() == self.row_index(y as int),
    {
        let lift: i128 = (self.n_rows as i128) * (HALF as i128);
        assert(lift <= MAX_DIM * HALF) by (nonlinear_arith)
            requires
                lift == self.n_rows * HALF,
                self.n_rows <= MAX_DIM,
        ;
        let v: i128 = y as i128 + lift;
        assert(v == y - self.floor_y_spec());
        if v < 0 {
            assert(self.row_index(y as int) < 0) by {
                assert(v / 1000 < 0) by (nonlinear_arith)
                    requires v < 0;
            }
            return None;
        }
        let w: u128 = (v as u128) / (UNIT as u128);
        assert(w == self.row_index(y as int));
        if w >= self.n_rows as u128 {
            None
        } else {
            Some(w as u64)
        }
    }

    /// Height of the view: the board's rows plus a margin.
    pub fn view_height(&self) -> (r: u64)
        requires
            self.wf(),
        ensures
            r == self.n_rows + VIEW_MARGIN_ROWS,
    {
        self.n_rows + VIEW_MARGIN_ROWS
    }

    /// The static floor slab: as wide as the board, `FLOOR_HEIGHT` high, with
    /// its top on the floor line, so that a block resting on it is centred
    /// in row 0.
    pub fn floor_slab(&self) -> (r: Rect)
        requires
            self.wf(),
        ensures
            r.center_x == 0,
            r.center_y == self.floor_y_spec() - FLOOR_HEIGHT / 2,
            r.width == self.n_lanes * UNIT,
            r.height == FLOOR_HEIGHT,
    {
        Rect {
            center_x: 0,
            center_y: self.floor_y() - FLOOR_HEIGHT / 2,
            width: (self.n_lanes as i64) * UNIT,
            height: FLOOR_HEIGHT,
        }
    }

    /// The frame of the health bar at full health: it starts one block in
    /// from the left wall, spans all lanes but two, and sits at the middle
    /// height of the floor slab.
    pub fn health_bar_frame(&self) -> (r: Rect)
        requires
            self.wf(),
        ensures
            r.center_x == self.left_wall_x_spec() + UNIT,
            r.center_y == self.floor_y_spec() - FLOOR_HEIGHT / 2,
            r.width == (self.n_lanes - 2) * UNIT,
            r.height == HEALTH_BAR_HEIGHT,
    {
        Rect {
            center_x: self.left_wall_x() + UNIT,
            center_y: self.floor_y() - FLOOR_HEIGHT / 2,
            width: ((self.n_lanes - 2) as i64) * UNIT,
            height: HEALTH_BAR_HEIGHT,
        }
    }
}

} // verus!
