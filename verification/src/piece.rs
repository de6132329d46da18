//! Piece geometry: the seven piece kinds, the four orientations, and the
//! cells a piece covers.
//!
//! The board's bottom slants upper right to lower left, so the S and L have
//! obtuse angles while the Z and J have acute angles.
//!
//! ```text
//! I
//! I OO  SS ZZ  LLL JJJ TTT
//! I OO SS   ZZ L     J  T
//! I
//! ```
use vstd::prelude::*;

verus! {

/// The kind of a piece. It fixes the shape and the colour.
#[derive(Debug, Clone, Copy, PartialEq, Eq, Structural)]
pub enum Tetrhombino {
    I,
    O,
    S,
    Z,
    L,
    J,
    T,
}

/// One of the four orientation labels. Turning right walks
/// `Start`, `Right`, `Both`, `Left` and back to `Start`; turning left walks
/// the same cycle backwards.
#[derive(Debug, Clone, Copy, PartialEq, Eq, Structural)]
pub enum Orientation {
    Start,
    Right,
    Both,
    Left,
}

/// The two silhouettes of a piece that looks the same after half a turn.
#[derive(Debug, Clone, Copy, PartialEq, Eq, Structural)]
pub enum ReducedOrientation {
    Start,
    Flipped,
}

/// A column and a row, relative to the board's lower left cell.
pub type Position = (i8, i8);

impl Orientation {
    /// The orientation one quarter turn to the right of `self`.
    pub open spec fn right(self) -> Orientation {
        match self {
            Orientation::Start => Orientation::Right,
            Orientation::Right => Orientation::Both,
            Orientation::Both => Orientation::Left,
            Orientation::Left => Orientation::Start,
        }
    }

    /// The orientation one quarter turn to the left of `self`.
    pub open spec fn left(self) -> Orientation {
        match self {
            Orientation::Start => Orientation::Left,
            Orientation::Left => Orientation::Both,
            Orientation::Both => Orientation::Right,
            Orientation::Right => Orientation::Start,
        }
    }

    /// The silhouette that `self` stands for on a piece with two of them.
    pub open spec fn reduced(self) -> ReducedOrientation {
        match self {
            Orientation::Start | Orientation::Both => ReducedOrientation::Start,
            Orientation::Left | Orientation::Right => ReducedOrientation::Flipped,
        }
    }

    /// Turns one quarter to the right.
    pub fn rotate_right(&mut self)
        ensures
            *final(self) == old(self).right(),
    {
        *self = match *self {
            Orientation::Start => Orientation::Right,
            Orientation::Right => Orientation::Both,
            Orientation::Both => Orientation::Left,
            Orientation::Left => Orientation::Start,
        }
    }

    /// Turns one quarter to the left.
    pub fn rotate_left(&mut self)
        ensures
            *final(self) == old(self).left(),
    {
        *self = match *self {
            Orientation::Start => Orientation::Left,
            Orientation::Left => Orientation::Both,
            Orientation::Both => Orientation::Right,
            Orientation::Right => Orientation::Start,
        }
    }
}

/// Collapses `Start` and `Both` to `Start`, `Left` and `Right` to `Flipped`.
pub fn reduce_orientation(or: Orientation) -> (reduced: ReducedOrientation)
    ensures
        reduced == or.reduced(),
{
    match or {
        Orientation::Start => ReducedOrientation::Start,
        Orientation::Both => ReducedOrientation::Start,
        Orientation::Left => ReducedOrientation::Flipped,
        Orientation::Right => ReducedOrientation::Flipped,
    }
}

// The 'O' piece has one orientation. Its bounding box has no center; its
// location is defined by the '*', in the upper-left hand corner.
//
//   *O
//   OO
//
// The 'I', 'S', and 'Z' pieces have two orientations: one for Start/Both, one
// for Left/Right. The 'I' piece's bounding box has no center; its location is
// again defined by the '*', even when it is outside the piece.
//
//   ....  ..I.
//   I*II  .*I.
//   ....  ..I.
//   ....  ..I.
//
//   ...  ..S
//   .SS  .SS
//   SS.  .S.
//
//   ...  Z..
//   ZZ.  ZZ.
//   .ZZ  .Z.
//
// The 'L', 'J', and 'T' pieces have four orientations, ordered here as Start,
// Right, Both, Left.
//
//   ...  .L.  ...  .LL
//   LLL  .L.  ..L  .L.
//   L..  LL.  LLL  .L.
//
//   ...  JJ.  ...  .J.
//   JJJ  .J.  J..  .J.
//   ..J  .J.  JJJ  .JJ
//
//   ...  .T.  ...  .T.
//   TTT  TT.  .T.  .TT
//   .T.  .T.  TTT  .T.
/// The four cells of a piece, relative to its anchor, as (column, row) pairs.
pub open spec fn offsets(kind: Tetrhombino, orientation: Orientation) -> Seq<(int, int)> {
    match kind {
        Tetrhombino::O => seq![(0, 0), (1, 0), (0, -1), (1, -1)],
        Tetrhombino::I => match orientation.reduced() {
            ReducedOrientation::Start => seq![(2, 0), (1, 0), (0, 0), (-1, 0)],
            ReducedOrientation::Flipped => seq![(1, 1), (1, 0), (1, -1), (1, -2)],
        },
        Tetrhombino::S => match orientation.reduced() {
            ReducedOrientation::Start => seq![(1, 0), (0, 0), (0, -1), (-1, -1)],
            ReducedOrientation::Flipped => seq![(0, -1), (0, 0), (1, 0), (1, 1)],
        },
        Tetrhombino::Z => match orientation.reduced() {
            ReducedOrientation::Start => seq![(-1, 0), (0, 0), (0, -1), (1, -1)],
            ReducedOrientation::Flipped => seq![(0, -1), (0, 0), (-1, 0), (-1, 1)],
        },
        Tetrhombino::T => match orientation {
            Orientation::Start => seq![(0, 0), (-1, 0), (1, 0), (0, -1)],
            Orientation::Right => seq![(0, 0), (0, 1), (0, -1), (-1, 0)],
            Orientation::Left => seq![(0, 0), (0, 1), (0, -1), (1, 0)],
            Orientation::Both => seq![(0, 0), (-1, -1), (0, -1), (1, -1)],
        },
        Tetrhombino::L => match orientation {
            Orientation::Start => seq![(0, 0), (1, 0), (-1, 0), (-1, -1)],
            Orientation::Right => seq![(0, 0), (0, 1), (0, -1), (-1, -1)],
            Orientation::Left => seq![(0, 0), (0, -1), (0, 1), (1, 1)],
            Orientation::Both => seq![(1, 0), (1, -1), (0, -1), (-1, -1)],
        },
        Tetrhombino::J => match orientation {
            Orientation::Start => seq![(0, 0), (-1, 0), (1, 0), (1, -1)],
            Orientation::Right => seq![(0, 0), (0, -1), (0, 1), (-1, 1)],
            Orientation::Left => seq![(0, 0), (0, 1), (0, -1), (1, -1)],
            Orientation::Both => seq![(-1, 0), (-1, -1), (0, -1), (1, -1)],
        },
    }
}

/// Every piece has four cells, no two of them the same, and none further
/// from the anchor than two columns or two rows.
pub proof fn lemma_offsets_distinct(kind: Tetrhombino, orientation: Orientation)
    ensures
        offsets(kind, orientation).len() == 4,
        forall|i: int, j: int|
            0 <= i < j < 4 ==> offsets(kind, orientation)[i] != offsets(kind, orientation)[j],
        forall|i: int|
            0 <= i < 4 ==> -1 <= (#[trigger] offsets(kind, orientation)[i]).0 <= 2 && -2
                <= offsets(kind, orientation)[i].1 <= 1,
{
}

/// The cell of an array of positions, as a pair of mathematical integers.
pub open spec fn cell_of(places: [Position; 4], i: int) -> (int, int) {
    (places[i].0 as int, places[i].1 as int)
}

/// Looks up the four cells of a piece relative to its anchor.
pub fn occupied_offsets(kind: Tetrhombino, orientation: Orientation) -> (places: [Position; 4])
    ensures
        forall|i: int|
            #![trigger cell_of(places, i)]
            #![trigger places[i]]
            0 <= i < 4 ==> cell_of(places, i) == offsets(kind, orientation)[i],
        forall|i: int, j: int| 0 <= i < j < 4 ==> places[i] != places[j],
{
    let places: [Position; 4] = match kind {
        Tetrhombino::O => [(0, 0), (1, 0), (0, -1), (1, -1)],
        Tetrhombino::I => match reduce_orientation(orientation) {
            ReducedOrientation::Start => [(2, 0), (1, 0), (0, 0), (-1, 0)],
            ReducedOrientation::Flipped => [(1, 1), (1, 0), (1, -1), (1, -2)],
        },
        Tetrhombino::S => match reduce_orientation(orientation) {
            ReducedOrientation::Start => [(1, 0), (0, 0), (0, -1), (-1, -1)],
            ReducedOrientation::Flipped => [(0, -1), (0, 0), (1, 0), (1, 1)],
        },
        Tetrhombino::Z => match reduce_orientation(orientation) {
            ReducedOrientation::Start => [(-1, 0), (0, 0), (0, -1), (1, -1)],
            ReducedOrientation::Flipped => [(0, -1), (0, 0), (-1, 0), (-1, 1)],
        },
        Tetrhombino::T => match orientation {
            Orientation::Start => [(0, 0), (-1, 0), (1, 0), (0, -1)],
            Orientation::Right => [(0, 0), (0, 1), (0, -1), (-1, 0)],
            Orientation::Left => [(0, 0), (0, 1), (0, -1), (1, 0)],
            Orientation::Both => [(0, 0), (-1, -1), (0, -1), (1, -1)],
        },
        Tetrhombino::L => match orientation {
            Orientation::Start => [(0, 0), (1, 0), (-1, 0), (-1, -1)],
            Orientation::Right => [(0, 0), (0, 1), (0, -1), (-1, -1)],
            Orientation::Left => [(0, 0), (0, -1), (0, 1), (1, 1)],
            Orientation::Both => [(1, 0), (1, -1), (0, -1), (-1, -1)],
        },
        Tetrhombino::J => match orientation {
            Orientation::Start => [(0, 0), (-1, 0), (1, 0), (1, -1)],
            Orientation::Right => [(0, 0), (0, -1), (0, 1), (-1, 1)],
            Orientation::Left => [(0, 0), (0, 1), (0, -1), (1, -1)],
            Orientation::Both => [(-1, 0), (-1, -1), (0, -1), (1, -1)],
        },
    };
    places
}

/// A piece as the contracts see it: its kind, its orientation, and the column
/// and row of its anchor as unbounded integers.
pub struct PieceModel {
    pub kind: Tetrhombino,
    pub orientation: Orientation,
    pub col: int,
    pub row: int,
}

impl PieceModel {
    /// The four cells that the piece covers.
    pub open spec fn cells(self) -> Seq<(int, int)> {
        Seq::new(
            4,
            |i: int|
                (
                    self.col + offsets(self.kind, self.orientation)[i].0,
                    self.row + offsets(self.kind, self.orientation)[i].1,
                ),
        )
    }

    /// Whether the piece covers the cell in column `x` and row `y`.
    pub open spec fn covers(self, x: int, y: int) -> bool {
        exists|i: int| 0 <= i < 4 && #[trigger] self.cells()[i] == (x, y)
    }

    /// The piece moved by `dx` columns and `dy` rows.
    pub open spec fn moved(self, dx: int, dy: int) -> PieceModel {
        PieceModel { col: self.col + dx, row: self.row + dy, ..self }
    }

    /// The piece turned one quarter to the right, in place.
    pub open spec fn turned_right(self) -> PieceModel {
        PieceModel { orientation: self.orientation.right(), ..self }
    }

    /// The piece turned one quarter to the left, in place.
    pub open spec fn turned_left(self) -> PieceModel {
        PieceModel { orientation: self.orientation.left(), ..self }
    }

    /// Whether every covered cell has coordinates that an `i8` can hold.
    pub open spec fn representable(self) -> bool {
        forall|i: int|
            0 <= i < 4 ==> i8::MIN <= (#[trigger] self.cells()[i]).0 <= i8::MAX && i8::MIN
                <= self.cells()[i].1 <= i8::MAX
    }
}

/// The piece in play: what it is, how it is turned, and where its anchor is.
/// The anchor need not be one of the covered cells.
#[derive(Debug, Clone, Copy, PartialEq, Eq)]
pub struct TetrhombinoState {
    pub tetrhombino: Tetrhombino,
    pub orientation: Orientation,
    pub position: Position,
}

impl View for TetrhombinoState {
    type V = PieceModel;

    open spec fn view(&self) -> PieceModel {
        PieceModel {
            kind: self.tetrhombino,
            orientation: self.orientation,
            col: self.position.0 as int,
            row: self.position.1 as int,
        }
    }
}

impl TetrhombinoState {
    /// Whether the coordinates of all four cells under the piece fit the
    /// position type, so that `occupied_places` can give them.
    pub fn has_places(&self) -> (fits: bool)
        ensures
            fits == self@.representable(),
    {
        let offs = occupied_offsets(self.tetrhombino, self.orientation);
        let (x, y) = self.position;
        let ghost piece = self@;
        let mut i: usize = 0;
        while i < 4
            invariant
                i <= 4,
                piece == self@,
                (x, y) == self.position,
                forall|k: int|
                    0 <= k < 4 ==> cell_of(offs, k) == offsets(piece.kind, piece.orientation)[k],
                forall|k: int|
                    0 <= k < i ==> i8::MIN <= (#[trigger] piece.cells()[k]).0 <= i8::MAX && i8::MIN
                        <= piece.cells()[k].1 <= i8::MAX,
            decreases 4 - i,
        {
            assert(cell_of(offs, i as int) == offsets(piece.kind, piece.orientation)[i as int]);
            if x.checked_add(offs[i].0).is_none() || y.checked_add(offs[i].1).is_none() {
                assert(!(i8::MIN <= piece.cells()[i as int].0 <= i8::MAX && i8::MIN
                    <= piece.cells()[i as int].1 <= i8::MAX));
                return false;
            }
            i += 1;
        }
        true
    }

    /// The four cells that the piece covers on the board. The piece must lie
    /// where all of them have coordinates that fit the position type.
    pub fn occupied_places(&self) -> (places: [Position; 4])
        requires
            self@.representable(),
        ensures
            forall|i: int|
                #![trigger cell_of(places, i)]
                #![trigger places[i]]
                0 <= i < 4 ==> cell_of(places, i) == self@.cells()[i],
            forall|i: int, j: int| 0 <= i < j < 4 ==> places[i] != places[j],
    {
        let offs = occupied_offsets(self.tetrhombino, self.orientation);
        let (x, y) = self.position;
        proof {
            let cells = self@.cells();
            assert(cells[0].0 == x + offs[0].0 && cells[1].0 == x + offs[1].0);
            assert(cells[2].0 == x + offs[2].0 && cells[3].0 == x + offs[3].0);
        }
        [
            (offs[0].0 + x, offs[0].1 + y),
            (offs[1].0 + x, offs[1].1 + y),
            (offs[2].0 + x, offs[2].1 + y),
            (offs[3].0 + x, offs[3].1 + y),
        ]
    }
}

} // verus!
