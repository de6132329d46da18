//! The board: a grid of locked cells and the piece in play, with collision
//! tests, shifts, falls, rotations with wall kicks, locking and row clearing.
use crate::piece::{
    cell_of, lemma_offsets_distinct, occupied_offsets, offsets, reduce_orientation, Orientation,
    PieceModel, Position, ReducedOrientation, Tetrhombino, TetrhombinoState,
};
use vstd::prelude::*;

verus! {

/// Number of columns of the board.
pub const BOARD_WIDTH: usize = 10;

/// Number of rows of the board: twenty that show, and two above them.
pub const BOARD_HEIGHT: usize = 22;

/// The grid of locked cells, indexed by column and then by row.
pub type Board = [[Option<Tetrhombino>; 22]; 10];

/// One row of the grid, from the left column to the right one.
pub type Row = Seq<Option<Tetrhombino>>;

/// Whether every cell of a row holds a locked piece.
pub open spec fn row_full(row: Row) -> bool {
    forall|x: int| 0 <= x < row.len() ==> (#[trigger] row[x]) is Some
}

/// A row of the board's width without any locked cell.
pub open spec fn empty_row() -> Row {
    Seq::new(BOARD_WIDTH as nat, |x: int| None)
}

/// The rows that stay when the full ones are taken out, in their old order.
pub open spec fn surviving(rows: Seq<Row>) -> Seq<Row> {
    rows.filter(|row: Row| !row_full(row))
}

/// Row `y` of a grid, from the left column to the right one.
pub open spec fn grid_row(board: Board, y: int) -> Row {
    Seq::new(BOARD_WIDTH as nat, |x: int| board[x][y])
}

/// The rows of a grid, from the bottom row to the top one.
pub open spec fn grid_rows(board: Board) -> Seq<Row> {
    Seq::new(BOARD_HEIGHT as nat, |y: int| grid_row(board, y))
}

/// The board as the contracts see it: the rows of locked cells from the
/// bottom up, and the piece in play.
#[verifier::ext_equal]
pub struct BoardModel {
    pub rows: Seq<Row>,
    pub current: PieceModel,
}

impl BoardModel {
    /// A board without locked cells, with an I waiting far off the board.
    pub open spec fn empty() -> BoardModel {
        BoardModel {
            rows: Seq::new(BOARD_HEIGHT as nat, |y: int| empty_row()),
            current: PieceModel {
                kind: Tetrhombino::I,
                orientation: Orientation::Start,
                col: 100,
                row: 100,
            },
        }
    }

    /// Whether the grid has the board's height and every row its width.
    pub open spec fn well_formed(self) -> bool {
        &&& self.rows.len() == BOARD_HEIGHT
        &&& forall|y: int| 0 <= y < BOARD_HEIGHT ==> (#[trigger] self.rows[y]).len() == BOARD_WIDTH
    }

    /// Whether column `x`, row `y` lies on the board.
    pub open spec fn on_board(x: int, y: int) -> bool {
        0 <= x < BOARD_WIDTH && 0 <= y < BOARD_HEIGHT
    }

    /// Whether a piece cannot enter the cell in column `x` and row `y`: the
    /// cell lies off the board, or it holds a locked piece.
    pub open spec fn occupied(self, x: int, y: int) -> bool {
        !Self::on_board(x, y) || self.rows[y][x] is Some
    }

    /// The same grid with `piece` in play.
    pub open spec fn with_piece(self, piece: PieceModel) -> BoardModel {
        BoardModel { current: piece, ..self }
    }

    /// Whether `piece` would cover a cell that it cannot enter.
    pub open spec fn blocks(self, piece: PieceModel) -> bool {
        exists|i: int|
            0 <= i < 4 && self.occupied(#[trigger] piece.cells()[i].0, piece.cells()[i].1)
    }

    /// Whether the piece in play covers a cell that it cannot enter.
    pub open spec fn conflicts(self) -> bool {
        self.blocks(self.current)
    }

    /// The board after an attempt to move the piece by `dx` columns and `dy`
    /// rows: the move is made unless the moved piece would conflict.
    pub open spec fn nudged(self, dx: int, dy: int) -> BoardModel {
        if self.blocks(self.current.moved(dx, dy)) {
            self
        } else {
            self.with_piece(self.current.moved(dx, dy))
        }
    }

    /// The board after an attempt to shift the piece one column left.
    pub open spec fn shifted_left(self) -> BoardModel {
        self.nudged(-1, 0)
    }

    /// The board after an attempt to shift the piece one column right.
    pub open spec fn shifted_right(self) -> BoardModel {
        self.nudged(1, 0)
    }

    /// The board after an attempt to drop the piece by one row.
    pub open spec fn fallen(self) -> BoardModel {
        self.nudged(0, -1)
    }

    /// Whether the piece rests: one row further down it would conflict.
    pub open spec fn stuck(self) -> bool {
        self.blocks(self.current.moved(0, -1))
    }

    /// The board after the piece has fallen as far as it can.
    pub open spec fn dropped(self) -> BoardModel
        decreases self.current.row + 2,
    {
        if self.stuck() {
            self
        } else {
            proof {
                lemma_free_piece_on_board(self, self.current.moved(0, -1));
            }
            self.fallen().dropped()
        }
    }

    /// Whether one of the three cells below, at and above the anchor cannot
    /// be entered.
    pub open spec fn center_column_conflicts(self) -> bool {
        let p = self.current;
        self.occupied(p.col, p.row - 1) || self.occupied(p.col, p.row) || self.occupied(
            p.col,
            p.row + 1,
        )
    }

    /// Whether a blocked rotation into the current orientation may be saved
    /// by a sideways shift.
    pub open spec fn kick_allowed(self) -> bool {
        let p = self.current;
        match p.kind {
            Tetrhombino::O => false,
            Tetrhombino::I => false,
            Tetrhombino::S => true,
            Tetrhombino::Z => true,
            Tetrhombino::T => match p.orientation.reduced() {
                ReducedOrientation::Start => true,
                ReducedOrientation::Flipped => !self.center_column_conflicts(),
            },
            Tetrhombino::L => match p.orientation {
                Orientation::Start => true,
                Orientation::Both => true,
                Orientation::Right => self.occupied(p.col - 1, p.row - 1),
                Orientation::Left => self.occupied(p.col + 1, p.row + 1),
            },
            Tetrhombino::J => match p.orientation {
                Orientation::Start => true,
                Orientation::Both => true,
                Orientation::Right => self.occupied(p.col - 1, p.row + 1),
                Orientation::Left => self.occupied(p.col + 1, p.row - 1),
            },
        }
    }

    /// Where a piece that was just turned comes to rest: in place if it fits
    /// there, else, where a kick is allowed, one column to the right, else one
    /// column to the left. `None` if the turn cannot stand.
    pub open spec fn settled(self) -> Option<BoardModel> {
        if !self.conflicts() {
            Some(self)
        } else if !self.kick_allowed() {
            None
        } else if !self.blocks(self.current.moved(1, 0)) {
            Some(self.with_piece(self.current.moved(1, 0)))
        } else if !self.blocks(self.current.moved(-1, 0)) {
            Some(self.with_piece(self.current.moved(-1, 0)))
        } else {
            None
        }
    }

    /// The board after an attempt to turn the piece to the right.
    pub open spec fn rotated_right(self) -> BoardModel {
        match self.with_piece(self.current.turned_right()).settled() {
            Some(board) => board,
            None => self,
        }
    }

    /// The board after an attempt to turn the piece to the left.
    pub open spec fn rotated_left(self) -> BoardModel {
        match self.with_piece(self.current.turned_left()).settled() {
            Some(board) => board,
            None => self,
        }
    }

    /// The board with the cells under the piece locked in the piece's kind.
    /// Cells of the piece that lie off the board are left out.
    pub open spec fn locked(self) -> BoardModel {
        BoardModel {
            rows: Seq::new(
                BOARD_HEIGHT as nat,
                |y: int|
                    Seq::new(
                        BOARD_WIDTH as nat,
                        |x: int|
                            if self.current.covers(x, y) {
                                Some(self.current.kind)
                            } else {
                                self.rows[y][x]
                            },
                    ),
            ),
            ..self
        }
    }

    /// How many rows of the grid are full.
    pub open spec fn full_rows(self) -> nat {
        (self.rows.len() - surviving(self.rows).len()) as nat
    }

    /// The board with the full rows taken out: the rows above them come
    /// down, in their old order, and empty rows fill the top.
    pub open spec fn cleared(self) -> BoardModel {
        BoardModel {
            rows: surviving(self.rows) + Seq::new(self.full_rows(), |y: int| empty_row()),
            ..self
        }
    }
}

/// A piece that the board does not block lies on the board, so its anchor
/// is at most two cells outside of it.
pub proof fn lemma_free_piece_on_board(board: BoardModel, piece: PieceModel)
    requires
        !board.blocks(piece),
    ensures
        forall|i: int|
            0 <= i < 4 ==> BoardModel::on_board(#[trigger] piece.cells()[i].0, piece.cells()[i].1),
        -2 <= piece.col <= BOARD_WIDTH,
        -1 <= piece.row <= BOARD_HEIGHT + 1,
{
    lemma_offsets_distinct(piece.kind, piece.orientation);
    assert(!board.occupied(piece.cells()[0].0, piece.cells()[0].1));
}

/// Whether one of the first `n` cells of `piece` is the cell in column `x`
/// and row `y`.
spec fn covered_by_first(piece: PieceModel, n: int, x: int, y: int) -> bool {
    exists|k: int| 0 <= k < n && #[trigger] piece.cells()[k] == (x, y)
}

/// No row survives of no rows.
proof fn lemma_surviving_none(rows: Seq<Row>)
    requires
        rows.len() == 0,
    ensures
        surviving(rows).len() == 0,
{
    reveal(Seq::filter);
}

/// The rows that survive among the first `n + 1` are those that survive
/// among the first `n`, followed by row `n` unless it is full.
proof fn lemma_surviving_step(rows: Seq<Row>, n: int)
    requires
        0 <= n < rows.len(),
    ensures
        surviving(rows.take(n + 1)) == if row_full(rows[n]) {
            surviving(rows.take(n))
        } else {
            surviving(rows.take(n)).push(rows[n])
        },
{
    reveal(Seq::filter);
    assert(rows.take(n + 1).drop_last() =~= rows.take(n));
}

/// The grid of locked cells together with the piece in play.
#[derive(Debug, Clone, Copy)]
pub struct BoardState {
    pub board: Board,
    pub current: TetrhombinoState,
}

impl View for BoardState {
    type V = BoardModel;

    open spec fn view(&self) -> BoardModel {
        BoardModel { rows: grid_rows(self.board), current: self.current@ }
    }
}

impl BoardState {
    /// Whether a piece cannot enter `pos`: it lies off the board or holds a
    /// locked piece.
    pub fn occupied(&self, pos: Position) -> (blocked: bool)
        ensures
            blocked == self@.occupied(pos.0 as int, pos.1 as int),
    {
        let (x, y) = pos;
        if x < 0 || x >= 10 {
            true
        } else if y < 0 || y >= 22 {
            true
        } else {
            self.board[x as usize][y as usize].is_some()
        }
    }

    /// Whether a piece cannot enter the cell `dx` columns and `dy` rows from
    /// `pos`. A cell whose coordinates leave the position type lies off the
    /// board.
    fn occupied_from(&self, pos: Position, dx: i8, dy: i8) -> (blocked: bool)
        ensures
            blocked == self@.occupied(pos.0 + dx, pos.1 + dy),
    {
        match (pos.0.checked_add(dx), pos.1.checked_add(dy)) {
            (Some(x), Some(y)) => self.occupied((x, y)),
            _ => true,
        }
    }

    /// Whether one of the three cells below, at and above the anchor of the
    /// piece in play cannot be entered.
    pub fn center_column_conflicts(&self) -> (blocked: bool)
        ensures
            blocked == self@.center_column_conflicts(),
    {
        let pos = self.current.position;
        self.occupied_from(pos, 0, -1) || self.occupied(pos) || self.occupied_from(pos, 0, 1)
    }

    /// The four cells under the piece in play. The piece must lie where all
    /// of them have coordinates that fit the position type.
    pub fn occupied_places(&self) -> (places: [Position; 4])
        requires
            self@.current.representable(),
        ensures
            forall|i: int|
                #![trigger cell_of(places, i)]
                #![trigger places[i]]
                0 <= i < 4 ==> cell_of(places, i) == self@.current.cells()[i],
            forall|i: int, j: int| 0 <= i < j < 4 ==> places[i] != places[j],
    {
        self.current.occupied_places()
    }

    /// Whether the piece in play covers a cell that it cannot enter.
    pub fn current_piece_conflicts(&self) -> (conflict: bool)
        ensures
            conflict == self@.conflicts(),
    {
        let offs = occupied_offsets(self.current.tetrhombino, self.current.orientation);
        let pos = self.current.position;
        let ghost piece = self.current@;
        let mut i: usize = 0;
        while i < 4
            invariant
                i <= 4,
                pos == self.current.position,
                piece == self.current@,
                forall|k: int|
                    0 <= k < 4 ==> cell_of(offs, k) == offsets(piece.kind, piece.orientation)[k],
                forall|k: int|
                    0 <= k < i ==> !self@.occupied(
                        #[trigger] piece.cells()[k].0,
                        piece.cells()[k].1,
                    ),
            decreases 4 - i,
        {
            assert(cell_of(offs, i as int) == offsets(piece.kind, piece.orientation)[i as int]);
            if self.occupied_from(pos, offs[i].0, offs[i].1) {
                assert(self@.occupied(piece.cells()[i as int].0, piece.cells()[i as int].1));
                return true;
            }
            i += 1;
        }
        false
    }

    /// A board without locked cells. The piece in play waits off the board.
    pub fn new() -> (fresh: Self)
        ensures
            fresh@ == BoardModel::empty(),
    {
        let fresh = BoardState {
            current: TetrhombinoState {
                tetrhombino: Tetrhombino::I,
                orientation: Orientation::Start,
                position: (100, 100),
            },
            board: [[None; 22]; 10],
        };
        assert(fresh@.rows =~~= BoardModel::empty().rows);
        fresh
    }

    /// Tries to move the piece in play by `dx` columns and `dy` rows, each
    /// of them -1, 0 or 1.
    fn nudge(&mut self, dx: i8, dy: i8) -> (moved: bool)
        requires
            -1 <= dx <= 1,
            -1 <= dy <= 1,
        ensures
            moved == !old(self)@.blocks(old(self)@.current.moved(dx as int, dy as int)),
            final(self)@ == old(self)@.nudged(dx as int, dy as int),
            final(self).board == old(self).board,
            !moved ==> *final(self) == *old(self),
    {
        let (x, y) = self.current.position;
        let ghost target = self@.current.moved(dx as int, dy as int);
        match (x.checked_add(dx), y.checked_add(dy)) {
            (Some(nx), Some(ny)) => {
                self.current.position = (nx, ny);
                if self.current_piece_conflicts() {
                    self.current.position = (x, y);
                    false
                } else {
                    true
                }
            },
            _ => {
                proof {
                    lemma_offsets_distinct(target.kind, target.orientation);
                    assert(self@.occupied(target.cells()[0].0, target.cells()[0].1));
                }
                false
            },
        }
    }

    /// Whether the piece in play rests on something: it could not fall one
    /// row. The board is left as it was.
    pub fn stuck(&mut self) -> (resting: bool)
        ensures
            resting == old(self)@.stuck(),
            *final(self) == *old(self),
    {
        let before = self.current.position;
        let fell = self.nudge(0, -1);
        self.current.position = before;
        !fell
    }

    /// Tries to drop the piece in play by one row.
    pub fn fall(&mut self) -> (moved: bool)
        ensures
            moved == !old(self)@.stuck(),
            final(self)@ == old(self)@.fallen(),
            final(self).board == old(self).board,
            !moved ==> *final(self) == *old(self),
    {
        self.nudge(0, -1)
    }

    /// Tries to shift the piece in play one column to the left.
    pub fn shift_left(&mut self) -> (moved: bool)
        ensures
            moved == !old(self)@.blocks(old(self)@.current.moved(-1, 0)),
            final(self)@ == old(self)@.shifted_left(),
            final(self).board == old(self).board,
            !moved ==> *final(self) == *old(self),
    {
        self.nudge(-1, 0)
    }

    /// Tries to shift the piece in play one column to the right.
    pub fn shift_right(&mut self) -> (moved: bool)
        ensures
            moved == !old(self)@.blocks(old(self)@.current.moved(1, 0)),
            final(self)@ == old(self)@.shifted_right(),
            final(self).board == old(self).board,
            !moved ==> *final(self) == *old(self),
    {
        self.nudge(1, 0)
    }

    /// Whether a blocked rotation into the current orientation may be saved
    /// by a sideways shift. O and I never kick, S and Z always do; T kicks
    /// unless it stands upright with its center column blocked; L and J kick
    /// freely when they lie flat, and upright only off one diagonal neighbour.
    pub fn kick_allowed(&self) -> (allowed: bool)
        ensures
            allowed == self@.kick_allowed(),
    {
        let pos = self.current.position;
        match self.current.tetrhombino {
            Tetrhombino::O => false,
            Tetrhombino::I => false,
            Tetrhombino::S => true,
            Tetrhombino::Z => true,
            Tetrhombino::T => match reduce_orientation(self.current.orientation) {
                ReducedOrientation::Start => true,
                ReducedOrientation::Flipped => !self.center_column_conflicts(),
            },
            Tetrhombino::L => match self.current.orientation {
                Orientation::Start => true,
                Orientation::Both => true,
                Orientation::Right => self.occupied_from(pos, -1, -1),
                Orientation::Left => self.occupied_from(pos, 1, 1),
            },
            Tetrhombino::J => match self.current.orientation {
                Orientation::Start => true,
                Orientation::Both => true,
                Orientation::Right => self.occupied_from(pos, -1, 1),
                Orientation::Left => self.occupied_from(pos, 1, -1),
            },
        }
    }

    /// Brings a piece that was just turned to rest: in place if it fits, else
    /// by a kick to the right, else by a kick to the left. Reports whether the
    /// turn stands; if it does not, the board is left as it was.
    pub fn finish_rotate(&mut self) -> (stands: bool)
        ensures
            stands == old(self)@.settled() is Some,
            stands ==> final(self)@ == old(self)@.settled()->0,
            !stands ==> *final(self) == *old(self),
            final(self).board == old(self).board,
    {
        if !self.current_piece_conflicts() {
            return true;
        }
        if !self.kick_allowed() {
            return false;
        }
        if self.shift_right() {
            return true;
        }
        if self.shift_left() {
            return true;
        }
        false
    }

    /// Tries to turn the piece in play one quarter to the right.
    pub fn rotate_right(&mut self) -> (turned: bool)
        ensures
            turned == old(self)@.with_piece(old(self)@.current.turned_right()).settled() is Some,
            final(self)@ == old(self)@.rotated_right(),
            final(self).board == old(self).board,
            !turned ==> *final(self) == *old(self),
    {
        self.current.orientation.rotate_right();
        if !self.finish_rotate() {
            self.current.orientation.rotate_left();
            return false;
        }
        true
    }

    /// Tries to turn the piece in play one quarter to the left.
    pub fn rotate_left(&mut self) -> (turned: bool)
        ensures
            turned == old(self)@.with_piece(old(self)@.current.turned_left()).settled() is Some,
            final(self)@ == old(self)@.rotated_left(),
            final(self).board == old(self).board,
            !turned ==> *final(self) == *old(self),
    {
        self.current.orientation.rotate_left();
        if !self.finish_rotate() {
            self.current.orientation.rotate_right();
            return false;
        }
        true
    }

    /// Locks the piece in play into the grid: each cell under it that lies on
    /// the board takes the piece's kind. The piece itself stays as it is.
    pub fn lock(&mut self)
        ensures
            final(self)@ == old(self)@.locked(),
            final(self).current == old(self).current,
    {
        let offs = occupied_offsets(self.current.tetrhombino, self.current.orientation);
        let pos = self.current.position;
        let kind = self.current.tetrhombino;
        let ghost piece = self.current@;
        let mut i: usize = 0;
        while i < 4
            invariant
                i <= 4,
                self.current == old(self).current,
                pos == self.current.position,
                kind == self.current.tetrhombino,
                piece == self.current@,
                forall|k: int|
                    0 <= k < 4 ==> cell_of(offs, k) == offsets(piece.kind, piece.orientation)[k],
                forall|x: int, y: int|
                    0 <= x < BOARD_WIDTH && 0 <= y < BOARD_HEIGHT ==> #[trigger] self.board[x][y]
                        == if covered_by_first(piece, i as int, x, y) {
                        Some(kind)
                    } else {
                        old(self).board[x][y]
                    },
            decreases 4 - i,
        {
            assert(cell_of(offs, i as int) == offsets(piece.kind, piece.orientation)[i as int]);
            match (pos.0.checked_add(offs[i].0), pos.1.checked_add(offs[i].1)) {
                (Some(x), Some(y)) => {
                    if 0 <= x && x < 10 && 0 <= y && y < 22 {
                        self.board[x as usize][y as usize] = Some(kind);
                    }
                },
                _ => {},
            }
            assert forall|x: int, y: int|
                0 <= x < BOARD_WIDTH && 0 <= y < BOARD_HEIGHT implies #[trigger] self.board[x][y]
                == if covered_by_first(piece, i + 1, x, y) {
                Some(kind)
            } else {
                old(self).board[x][y]
            } by {
                assert(covered_by_first(piece, i + 1, x, y) == (covered_by_first(
                    piece,
                    i as int,
                    x,
                    y,
                ) || piece.cells()[i as int] == (x, y)));
            }
            i += 1;
        }
        assert(self@.rows =~~= old(self)@.locked().rows);
    }

    /// Whether every cell of row `y` holds a locked piece.
    fn row_is_full(&self, y: usize) -> (full: bool)
        requires
            y < BOARD_HEIGHT,
        ensures
            full == row_full(grid_row(self.board, y as int)),
    {
        let mut x: usize = 0;
        while x < BOARD_WIDTH
            invariant
                x <= BOARD_WIDTH,
                y < BOARD_HEIGHT,
                forall|k: int|
                    0 <= k < x ==> (#[trigger] grid_row(self.board, y as int)[k]) is Some,
            decreases BOARD_WIDTH - x,
        {
            if self.board[x][y].is_none() {
                assert(grid_row(self.board, y as int)[x as int] is None);
                return false;
            }
            x += 1;
        }
        true
    }

    /// Copies row `from` over row `to`.
    fn copy_row(&mut self, from: usize, to: usize)
        requires
            from < BOARD_HEIGHT,
            to <= from,
        ensures
            final(self).current == old(self).current,
            grid_row(final(self).board, to as int) == grid_row(old(self).board, from as int),
            forall|y: int|
                0 <= y < BOARD_HEIGHT && y != to ==> grid_row(final(self).board, y) == grid_row(
                    old(self).board,
                    y,
                ),
    {
        let mut x: usize = 0;
        while x < BOARD_WIDTH
            invariant
                x <= BOARD_WIDTH,
                from < BOARD_HEIGHT,
                to <= from,
                self.current == old(self).current,
                forall|k: int, y: int|
                    0 <= k < BOARD_WIDTH && 0 <= y < BOARD_HEIGHT ==> #[trigger] self.board[k][y]
                        == if k < x && y == to {
                        old(self).board[k][from as int]
                    } else {
                        old(self).board[k][y]
                    },
            decreases BOARD_WIDTH - x,
        {
            self.board[x][to] = self.board[x][from];
            x += 1;
        }
    }

    /// Empties every cell of row `y`.
    fn empty_out_row(&mut self, y: usize)
        requires
            y < BOARD_HEIGHT,
        ensures
            final(self).current == old(self).current,
            grid_row(final(self).board, y as int) == empty_row(),
            forall|other: int|
                0 <= other < BOARD_HEIGHT && other != y ==> grid_row(final(self).board, other)
                    == grid_row(old(self).board, other),
    {
        let mut x: usize = 0;
        while x < BOARD_WIDTH
            invariant
                x <= BOARD_WIDTH,
                y < BOARD_HEIGHT,
                self.current == old(self).current,
                forall|k: int, other: int|
                    0 <= k < BOARD_WIDTH && 0 <= other < BOARD_HEIGHT
                        ==> #[trigger] self.board[k][other] == if k < x && other == y {
                        None
                    } else {
                        old(self).board[k][other]
                    },
            decreases BOARD_WIDTH - x,
        {
            self.board[x][y] = None;
            x += 1;
        }
    }

    /// Takes every full row out of the grid and reports how many there were.
    /// The rows above a removed row come down, keeping their order, and the
    /// rows that open up at the top are empty.
    pub fn clear(&mut self) -> (removed: usize)
        ensures
            removed == old(self)@.full_rows(),
            removed <= BOARD_HEIGHT,
            final(self)@ == old(self)@.cleared(),
            final(self).current == old(self).current,
    {
        let ghost rows = self@.rows;
        let mut cursor: usize = 0;
        let mut removed: usize = 0;
        let mut read: usize = 0;
        proof {
            lemma_surviving_none(rows.take(0));
        }
        while read < BOARD_HEIGHT
            invariant
                read <= BOARD_HEIGHT,
                cursor + removed == read,
                self.current == old(self).current,
                rows == old(self)@.rows,
                cursor == surviving(rows.take(read as int)).len(),
                forall|y: int|
                    0 <= y < cursor ==> grid_row(self.board, y) == #[trigger] surviving(
                        rows.take(read as int),
                    )[y],
                forall|y: int| read <= y < BOARD_HEIGHT ==> grid_row(self.board, y) == rows[y],
            decreases BOARD_HEIGHT - read,
        {
            proof {
                lemma_surviving_step(rows, read as int);
            }
            if self.row_is_full(read) {
                removed += 1;
            } else {
                self.copy_row(read, cursor);
                cursor += 1;
            }
            read += 1;
        }
        assert(rows.take(BOARD_HEIGHT as int) =~= rows);
        let ghost kept = surviving(rows);
        let mut write: usize = cursor;
        while write < BOARD_HEIGHT
            invariant
                cursor <= write <= BOARD_HEIGHT,
                self.current == old(self).current,
                forall|y: int| 0 <= y < cursor ==> grid_row(self.board, y) == #[trigger] kept[y],
                forall|y: int| cursor <= y < write ==> grid_row(self.board, y) == empty_row(),
            decreases BOARD_HEIGHT - write,
        {
            self.empty_out_row(write);
            write += 1;
        }
        removed
    }

    /// Drops the piece in play as far as it can fall, without locking it.
    pub fn sonic_drop(&mut self)
        ensures
            final(self)@ == old(self)@.dropped(),
            final(self).board == old(self).board,
    {
        loop
            invariant
                self.board == old(self).board,
                self@.dropped() == old(self)@.dropped(),
            ensures
                self@.stuck(),
            decreases self.current.position.1 + 128,
        {
            if !self.fall() {
                break ;
            }
        }
    }

    /// Puts `new_piece` in play in place of the current one. Nothing is
    /// tested: the caller asks afterwards whether the piece conflicts.
    pub fn spawn(&mut self, new_piece: TetrhombinoState)
        ensures
            final(self).current == new_piece,
            final(self).board == old(self).board,
            final(self)@ == old(self)@.with_piece(new_piece@),
    {
        self.current = new_piece;
    }
}

/// Rows of which none is full all survive.
pub proof fn lemma_surviving_all(rows: Seq<Row>)
    requires
        forall|y: int| 0 <= y < rows.len() ==> !row_full(#[trigger] rows[y]),
    ensures
        surviving(rows) == rows,
    decreases rows.len(),
{
    reveal(Seq::filter);
    if rows.len() > 0 {
        lemma_surviving_all(rows.drop_last());
    }
}

/// What survives of two runs of rows is what survives of the first followed
/// by what survives of the second.
pub proof fn lemma_surviving_concat(below: Seq<Row>, above: Seq<Row>)
    ensures
        surviving(below + above) == surviving(below) + surviving(above),
    decreases above.len(),
{
    reveal(Seq::filter);
    if above.len() == 0 {
        assert(below + above =~= below);
    } else {
        lemma_surviving_concat(below, above.drop_last());
        assert((below + above).drop_last() =~= below + above.drop_last());
    }
}

/// Clearing a board without a full row removes nothing and leaves the grid
/// as it was.
pub proof fn lemma_clear_without_full_rows(board: BoardModel)
    requires
        forall|y: int| 0 <= y < board.rows.len() ==> !row_full(#[trigger] board.rows[y]),
    ensures
        board.full_rows() == 0,
        board.cleared() == board,
{
    lemma_surviving_all(board.rows);
}

/// Clearing a board whose only full row is row `full` removes that row: the
/// rows below it stay, each row above it comes down by one, and the top row
/// is empty.
pub proof fn lemma_clear_one_full_row(board: BoardModel, full: int)
    requires
        board.well_formed(),
        0 <= full < BOARD_HEIGHT,
        row_full(board.rows[full]),
        forall|y: int|
            0 <= y < BOARD_HEIGHT && y != full ==> !row_full(#[trigger] board.rows[y]),
    ensures
        board.full_rows() == 1,
        board.cleared().well_formed(),
        board.cleared().current == board.current,
        forall|y: int| 0 <= y < full ==> #[trigger] board.cleared().rows[y] == board.rows[y],
        forall|y: int|
            full <= y < BOARD_HEIGHT - 1 ==> #[trigger] board.cleared().rows[y] == board.rows[y
                + 1],
        board.cleared().rows[BOARD_HEIGHT - 1] == empty_row(),
{
    let below = board.rows.take(full);
    let middle = seq![board.rows[full]];
    let above = board.rows.skip(full + 1);
    assert(board.rows =~= below + middle + above);
    lemma_surviving_concat(below + middle, above);
    lemma_surviving_concat(below, middle);
    lemma_surviving_all(below);
    lemma_surviving_all(above);
    assert(surviving(middle) =~= Seq::<Row>::empty()) by {
        reveal(Seq::filter);
        lemma_surviving_none(middle.drop_last());
    }
}

/// On a board where the piece in play fits where it is and one column to
/// the right, a shift right followed by a shift left brings it back.
pub proof fn lemma_shift_right_then_left(board: BoardModel)
    requires
        !board.conflicts(),
        !board.blocks(board.current.moved(1, 0)),
    ensures
        board.shifted_right() == board.with_piece(board.current.moved(1, 0)),
        board.shifted_right().shifted_left() == board,
{
}

/// On a board where the piece in play fits where it is and one column to
/// the left, a shift left followed by a shift right brings it back.
pub proof fn lemma_shift_left_then_right(board: BoardModel)
    requires
        !board.conflicts(),
        !board.blocks(board.current.moved(-1, 0)),
    ensures
        board.shifted_left() == board.with_piece(board.current.moved(-1, 0)),
        board.shifted_left().shifted_right() == board,
{
}

/// The piece in play in another orientation, at the same place.
pub open spec fn turned_to(piece: PieceModel, orientation: Orientation) -> PieceModel {
    PieceModel { orientation, ..piece }
}

/// Four quarter turns to one side bring an orientation back, and a turn to
/// the right undoes a turn to the left.
pub proof fn lemma_turns_cycle(orientation: Orientation)
    ensures
        orientation.right().right().right().right() == orientation,
        orientation.left().left().left().left() == orientation,
        orientation.right().left() == orientation,
        orientation.left().right() == orientation,
{
}

/// On a board where the piece in play fits in each of its four
/// orientations, every turn is made in place: four turns to the right bring
/// the board back, so do four turns to the left, and a turn to one side
/// undoes a turn to the other.
pub proof fn lemma_four_turns_return(board: BoardModel)
    requires
        !board.blocks(turned_to(board.current, Orientation::Start)),
        !board.blocks(turned_to(board.current, Orientation::Right)),
        !board.blocks(turned_to(board.current, Orientation::Both)),
        !board.blocks(turned_to(board.current, Orientation::Left)),
    ensures
        board.rotated_right() == board.with_piece(board.current.turned_right()),
        board.rotated_left() == board.with_piece(board.current.turned_left()),
        board.rotated_right().rotated_right().rotated_right().rotated_right() == board,
        board.rotated_left().rotated_left().rotated_left().rotated_left() == board,
        board.rotated_right().rotated_left() == board,
        board.rotated_left().rotated_right() == board,
{
    let piece = board.current;
    let right = board.rotated_right();
    let left = board.rotated_left();
    assert(right == board.with_piece(turned_to(piece, piece.orientation.right())));
    assert(left == board.with_piece(turned_to(piece, piece.orientation.left())));
    assert(right.rotated_right() == left.rotated_left());
}

/// The cell that decides whether an L or a J that stands upright may kick
/// is the cell of its hook, the one cell beside its column of three.
pub proof fn lemma_kick_looks_at_the_hook()
    ensures
        offsets(Tetrhombino::L, Orientation::Right).contains((-1, -1)),
        offsets(Tetrhombino::L, Orientation::Left).contains((1, 1)),
        offsets(Tetrhombino::J, Orientation::Right).contains((-1, 1)),
        offsets(Tetrhombino::J, Orientation::Left).contains((1, -1)),
{
    assert(offsets(Tetrhombino::L, Orientation::Right)[3] == (-1int, -1int));
    assert(offsets(Tetrhombino::L, Orientation::Left)[3] == (1int, 1int));
    assert(offsets(Tetrhombino::J, Orientation::Right)[3] == (-1int, 1int));
    assert(offsets(Tetrhombino::J, Orientation::Left)[3] == (1int, -1int));
}

/// An S or a Z that is blocked after a turn to the right, and fits one
/// column to the right of where it turned, comes to rest there: the kick to
/// the right is tried before the kick to the left.
pub proof fn lemma_kick_prefers_right(board: BoardModel)
    requires
        board.current.kind == Tetrhombino::S || board.current.kind == Tetrhombino::Z,
        board.blocks(board.current.turned_right()),
        !board.blocks(board.current.turned_right().moved(1, 0)),
    ensures
        board.rotated_right() == board.with_piece(board.current.turned_right().moved(1, 0)),
{
}

} // verus!
