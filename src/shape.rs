//! The shape catalog: the seven piece kinds, their cells and their joints.
use rand::Rng;
use vstd::prelude::*;

verus! {

/// One of the seven canonical piece kinds.
#[derive(Clone, Copy, Debug, PartialEq, Eq, Structural)]
pub enum TetrominoKind {
    I,
    O,
    T,
    J,
    L,
    S,
    Z,
}

/// The cells of a piece, relative to its spawn origin, and the pairs of
/// cells (by index into `coords`) that are held together by a joint.
pub struct TetrominoLayout {
    pub coords: [(i32, i32); 4],
    pub joints: Vec<(usize, usize)>,
}

/// A colour as red, green and blue bytes.
#[derive(Clone, Copy, Debug, PartialEq, Eq, Structural)]
pub struct Rgb {
    pub r: u8,
    pub g: u8,
    pub b: u8,
}

/// The number of piece kinds.
pub const KIND_COUNT: u64 = 7;

/// The kind drawn for index `i` of a uniform draw over `0..KIND_COUNT`;
/// every index past the last kind maps to `Z`.
pub open spec fn kind_at(i: u64) -> TetrominoKind {
    if i == 0 {
        TetrominoKind::I
    } else if i == 1 {
        TetrominoKind::O
    } else if i == 2 {
        TetrominoKind::T
    } else if i == 3 {
        TetrominoKind::J
    } else if i == 4 {
        TetrominoKind::L
    } else if i == 5 {
        TetrominoKind::S
    } else {
        TetrominoKind::Z
    }
}

/// The four cell offsets of each kind.
pub open spec fn cell_offsets(kind: TetrominoKind) -> Seq<(int, int)> {
    match kind {
        TetrominoKind::I => seq![(1, 1), (1, 0), (1, -1), (1, -2)],
        TetrominoKind::O => seq![(0, 0), (1, 0), (1, -1), (0, -1)],
        TetrominoKind::T => seq![(0, 0), (1, 0), (2, 0), (1, -1)],
        TetrominoKind::J => seq![(1, 0), (1, -1), (1, -2), (0, -2)],
        TetrominoKind::L => seq![(1, 0), (1, -1), (1, -2), (2, -2)],
        TetrominoKind::S => seq![(0, -1), (1, -1), (1, 0), (2, 0)],
        TetrominoKind::Z => seq![(0, 0), (1, 0), (1, -1), (2, -1)],
    }
}

/// The jointed cell pairs of each kind.
pub open spec fn joint_pairs(kind: TetrominoKind) -> Seq<(usize, usize)> {
    match kind {
        TetrominoKind::O => seq![(0, 1), (1, 2), (2, 3), (1, 0)],
        TetrominoKind::T => seq![(0, 1), (1, 2), (1, 3)],
        _ => seq![(0, 1), (1, 2), (2, 3)],
    }
}

/// The display colour of each kind.
pub open spec fn color_of(kind: TetrominoKind) -> Rgb {
    match kind {
        TetrominoKind::I => Rgb { r: 0, g: 244, b: 243 },
        TetrominoKind::O => Rgb { r: 238, g: 243, b: 0 },
        TetrominoKind::T => Rgb { r: 177, g: 0, b: 254 },
        TetrominoKind::J => Rgb { r: 27, g: 0, b: 250 },
        TetrominoKind::L => Rgb { r: 252, g: 157, b: 0 },
        TetrominoKind::S => Rgb { r: 0, g: 247, b: 0 },
        TetrominoKind::Z => Rgb { r: 255, g: 0, b: 0 },
    }
}

/// The cells of a layout as integer pairs.
pub open spec fn coords_view(coords: [(i32, i32); 4]) -> Seq<(int, int)> {
    coords@.map_values(|c: (i32, i32)| (c.0 as int, c.1 as int))
}

/// Two cells that share an edge.
pub open spec fn edge_adjacent(a: (int, int), b: (int, int)) -> bool {
    (a.0 == b.0 && (a.1 - b.1 == 1 || b.1 - a.1 == 1))
    || (a.1 == b.1 && (a.0 - b.0 == 1 || b.0 - a.0 == 1))
}

/// Every layout has four distinct cells, and every joint links two distinct
/// valid cell indices whose cells share an edge.
pub proof fn lemma_layout_well_formed(kind: TetrominoKind)
    ensures
        cell_offsets(kind).len() == 4,
        forall|a: int, b: int|
            0 <= a < b < 4 ==> cell_offsets(kind)[a] != cell_offsets(kind)[b],
        forall|k: int|
            #![trigger joint_pairs(kind)[k]]
            0 <= k < joint_pairs(kind).len() ==> {
                let (i, j) = joint_pairs(kind)[k];
                &&& i < 4
                &&& j < 4
                &&& i != j
                &&& edge_adjacent(cell_offsets(kind)[i as int], cell_offsets(kind)[j as int])
            },
{
}

/// Every cell offset lies within `0..=2` across and `-2..=1` down.
pub proof fn lemma_offsets_bounded(kind: TetrominoKind)
    ensures
        cell_offsets(kind).len() == 4,
        forall|i: int|
            #![trigger cell_offsets(kind)[i]]
            0 <= i < 4 ==> {
                &&& 0 <= cell_offsets(kind)[i].0 <= 2
                &&& -2 <= cell_offsets(kind)[i].1 <= 1
            },
{
}

/// Relies on rand's `thread_rng().gen_range(0..n)`: a value in `0..n`,
/// which is not empty when `n > 0`.
#[verifier::external_body]
fn random_below(n: u64) -> (r: u64)
    requires
        n > 0,
    ensures
        r < n,
{
    rand::thread_rng().gen_range(0..n)
}

impl TetrominoKind {
    /// The kind for index `i` of a draw over `0..KIND_COUNT`.
    pub fn from_index(i: u64) -> (r: TetrominoKind)
        ensures
            r == kind_at(i),
    {
        match i {
            0 => TetrominoKind::I,
            1 => TetrominoKind::O,
            2 => TetrominoKind::T,
            3 => TetrominoKind::J,
            4 => TetrominoKind::L,
            5 => TetrominoKind::S,
            _ => TetrominoKind::Z,
        }
    }

    /// A kind drawn uniformly at random over the seven shapes.
    pub fn random() -> (r: TetrominoKind)
        ensures
            exists|i: u64| i < KIND_COUNT && r == kind_at(i),
    {
        let i = random_below(KIND_COUNT);
        TetrominoKind::from_index(i)
    }

    /// The cells and joints of this kind.
    pub fn layout(&self) -> (r: TetrominoLayout)
        ensures
            coords_view(r.coords) == cell_offsets(*self),
            r.joints@ == joint_pairs(*self),
    {
        let r = match self {
            TetrominoKind::I => TetrominoLayout {
                coords: [(1, 1), (1, 0), (1, -1), (1, -2)],
                joints: vec![(0, 1), (1, 2), (2, 3)],
            },
            TetrominoKind::O => TetrominoLayout {
                coords: [(0, 0), (1, 0), (1, -1), (0, -1)],
                joints: vec![(0, 1), (1, 2), (2, 3), (1, 0)],
            },
            TetrominoKind::T => TetrominoLayout {
                coords: [(0, 0), (1, 0), (2, 0), (1, -1)],
                joints: vec![(0, 1), (1, 2), (1, 3)],
            },
            TetrominoKind::J => TetrominoLayout {
                coords: [(1, 0), (1, -1), (1, -2), (0, -2)],
                joints: vec![(0, 1), (1, 2), (2, 3)],
            },
            TetrominoKind::L => TetrominoLayout {
                coords: [(1, 0), (1, -1), (1, -2), (2, -2)],
                joints: vec![(0, 1), (1, 2), (2, 3)],
            },
            TetrominoKind::S => TetrominoLayout {
                coords: [(0, -1), (1, -1), (1, 0), (2, 0)],
                joints: vec![(0, 1), (1, 2), (2, 3)],
            },
            TetrominoKind::Z => TetrominoLayout {
                coords: [(0, 0), (1, 0), (1, -1), (2, -1)],
                joints: vec![(0, 1), (1, 2), (2, 3)],
            },
        };
        assert(coords_view(r.coords) =~= cell_offsets(*self));
        assert(r.joints@ =~= joint_pairs(*self));
        r
    }

    /// The display colour of this kind.
    pub fn color(&self) -> (r: Rgb)
        ensures
            r == color_of(*self),
    {
        match self {
            TetrominoKind::I => Rgb { r: 0, g: 244, b: 243 },
            TetrominoKind::O => Rgb { r: 238, g: 243, b: 0 },
            TetrominoKind::T => Rgb { r: 177, g: 0, b: 254 },
            TetrominoKind::J => Rgb { r: 27, g: 0, b: 250 },
            TetrominoKind::L => Rgb { r: 252, g: 157, b: 0 },
            TetrominoKind::S => Rgb { r: 0, g: 247, b: 0 },
            TetrominoKind::Z => Rgb { r: 255, g: 0, b: 0 },
        }
    }
}

} // verus!
