//! The game controller: one call of `update` per tick moves the game through
//! its life cycle of spawning, falling, locking and clearing, until it is
//! lost or won.
use crate::board::{
    lemma_clear_one_full_row, row_full, BoardModel, BoardState, BOARD_HEIGHT, BOARD_WIDTH,
};
use crate::difficulty::{
    normal_gravity, DifficultyCurve, NormalDifficulty, GRAVITY_ONE_ROW, NORMAL_ARE_FRAMES,
    NORMAL_CLEAR_FRAMES, NORMAL_GOAL, NORMAL_LOCK_FRAMES,
};
use crate::keys::{Button, KeyState, KeysModel};
use crate::piece::{Orientation, PieceModel, Tetrhombino, TetrhombinoState};
use crate::randomizer::{Randomizer, RandomizerModel, TGMRandomizer};
use vstd::prelude::*;

verus! {

/// The column in which the anchor of a new piece is placed.
pub const START_COLUMN: i8 = 4;

/// The row in which the anchor of a new piece is placed.
pub const START_ROW: i8 = 20;

/// Where the game stands in its life cycle. The number in `Are` and in
/// `Clear` counts the ticks spent there. `Loss` and `Victory` are final.
#[derive(PartialEq, Eq, Debug, Clone, Copy, Structural)]
pub enum State {
    Start,
    Falling,
    Are(usize),
    Clear(usize),
    Loss,
    Victory,
}

/// The life cycle as the contracts see it, with unbounded tick counts.
pub enum Phase {
    Start,
    Falling,
    Are(nat),
    Clear(nat),
    Loss,
    Victory,
}

impl View for State {
    type V = Phase;

    open spec fn view(&self) -> Phase {
        match *self {
            State::Start => Phase::Start,
            State::Falling => Phase::Falling,
            State::Are(n) => Phase::Are(n as nat),
            State::Clear(n) => Phase::Clear(n as nat),
            State::Loss => Phase::Loss,
            State::Victory => Phase::Victory,
        }
    }
}

/// The game as the contracts see it. Every counter is unbounded.
#[verifier::ext_equal]
pub struct GameModel {
    pub board: BoardModel,
    pub rand: RandomizerModel,
    pub keys: KeysModel,
    pub state: Phase,
    pub stuck_frames: nat,
    pub gravity_count: nat,
    pub next: Tetrhombino,
    pub lines_cleared: nat,
    pub stage_lines: nat,
}

/// The board after gravity has taken its due: one row of fall for every
/// `GRAVITY_ONE_ROW` units in `count`, as far as the piece can fall, and the
/// units that are left over.
pub open spec fn pulled(board: BoardModel, count: nat) -> (BoardModel, nat)
    decreases count,
{
    if count < GRAVITY_ONE_ROW {
        (board, count)
    } else {
        pulled(board.fallen(), (count - GRAVITY_ONE_ROW) as nat)
    }
}

impl GameModel {
    /// A game that has not begun: an empty board, idle channels, a fresh
    /// randomizer and no line cleared.
    pub open spec fn fresh() -> GameModel {
        GameModel {
            board: BoardModel::empty(),
            rand: RandomizerModel::fresh(),
            keys: KeysModel::idle(),
            state: Phase::Start,
            stuck_frames: 0,
            gravity_count: 0,
            next: Tetrhombino::I,
            lines_cleared: 0,
            stage_lines: 0,
        }
    }

    /// The piece that enters next, at the place where pieces enter.
    pub open spec fn entering(self) -> PieceModel {
        PieceModel {
            kind: self.next,
            orientation: Orientation::Start,
            col: START_COLUMN as int,
            row: START_ROW as int,
        }
    }

    /// The game after the next piece was put in play. If the piece has no
    /// room the game is lost. Else it starts to fall, and `drawn`, the piece
    /// that the randomizer gave, becomes the next one.
    pub open spec fn spawned(self, drawn: Tetrhombino) -> GameModel {
        let board = self.board.with_piece(self.entering());
        if board.conflicts() {
            GameModel { board, state: Phase::Loss, ..self }
        } else {
            GameModel {
                board,
                rand: self.rand.recorded(drawn),
                next: drawn,
                state: Phase::Falling,
                stuck_frames: 0,
                gravity_count: 0,
                ..self
            }
        }
    }

    /// The game after the piece in play was locked and the full rows were
    /// cleared. The cleared rows are counted. The game is won once the
    /// curve's goal is reached; else the cleared rows are shown if there are
    /// any, and the pause before the next piece starts if there are none.
    pub open spec fn locked_and_cleared(self) -> GameModel {
        let locked = self.board.locked();
        let cleared = locked.full_rows();
        GameModel {
            board: locked.cleared(),
            lines_cleared: self.lines_cleared + cleared,
            stage_lines: self.stage_lines + cleared,
            state: if self.stage_lines + cleared >= NORMAL_GOAL {
                Phase::Victory
            } else if cleared > 0 {
                Phase::Clear(0)
            } else {
                Phase::Are(0)
            },
            ..self
        }
    }

    /// The first step of a tick: a game that has not begun draws its first
    /// next piece and enters the pause before a piece.
    pub open spec fn begun(self, drawn: Tetrhombino) -> GameModel {
        match self.state {
            Phase::Start => GameModel {
                state: Phase::Are(0),
                next: drawn,
                rand: self.rand.recorded(drawn),
                ..self
            },
            _ => self,
        }
    }

    /// The second step of a tick: the show of cleared rows goes on for one
    /// more tick, or ends in the pause before a piece.
    pub open spec fn clear_counted(self) -> GameModel {
        match self.state {
            Phase::Clear(n) => GameModel {
                state: if n >= NORMAL_CLEAR_FRAMES {
                    Phase::Are(0)
                } else {
                    Phase::Clear(n + 1)
                },
                ..self
            },
            _ => self,
        }
    }

    /// The third step of a tick: the pause before a piece goes on for one
    /// more tick, or ends with the next piece put in play.
    pub open spec fn are_counted(self, drawn: Tetrhombino) -> GameModel {
        match self.state {
            Phase::Are(n) => if n >= NORMAL_ARE_FRAMES {
                self.spawned(drawn)
            } else {
                GameModel { state: Phase::Are(n + 1), ..self }
            },
            _ => self,
        }
    }

    /// Whether this tick asks the randomizer for a piece: at the very
    /// start, and when a piece is put in play and has room.
    pub open spec fn draws(self) -> bool {
        match self.state {
            Phase::Start => true,
            Phase::Are(n) => n >= NORMAL_ARE_FRAMES && !self.board.with_piece(
                self.entering(),
            ).conflicts(),
            _ => false,
        }
    }

    /// A tick without a piece in play: the shift channels are serviced, so
    /// that a held key goes on charging, and nothing moves.
    pub open spec fn idled(self) -> GameModel {
        GameModel {
            keys: KeysModel {
                left: self.keys.left.after_service(),
                right: self.keys.right.after_service(),
                ..self.keys
            },
            ..self
        }
    }

    /// The game after the left shift channel was serviced: the piece shifts
    /// left if the channel fires.
    pub open spec fn left_serviced(self) -> GameModel {
        GameModel {
            board: if self.keys.left.fires() {
                self.board.shifted_left()
            } else {
                self.board
            },
            keys: KeysModel { left: self.keys.left.after_service(), ..self.keys },
            ..self
        }
    }

    /// The game after the right shift channel was serviced: the piece
    /// shifts right if the channel fires.
    pub open spec fn right_serviced(self) -> GameModel {
        GameModel {
            board: if self.keys.right.fires() {
                self.board.shifted_right()
            } else {
                self.board
            },
            keys: KeysModel { right: self.keys.right.after_service(), ..self.keys },
            ..self
        }
    }

    /// The game after the channel of the left turn was serviced: the piece
    /// turns left if the channel fires.
    pub open spec fn left_turn_serviced(self) -> GameModel {
        GameModel {
            board: if self.keys.r_left.fires() {
                self.board.rotated_left()
            } else {
                self.board
            },
            keys: KeysModel { r_left: self.keys.r_left.after_service(), ..self.keys },
            ..self
        }
    }

    /// The game after the channel of the right turn was serviced: the piece
    /// turns right if the channel fires.
    pub open spec fn right_turn_serviced(self) -> GameModel {
        GameModel {
            board: if self.keys.r_right.fires() {
                self.board.rotated_right()
            } else {
                self.board
            },
            keys: KeysModel { r_right: self.keys.r_right.after_service(), ..self.keys },
            ..self
        }
    }

    /// The game after the sonic drop channel was serviced: the piece drops
    /// as far as it can fall if the channel fires.
    pub open spec fn sonic_drop_serviced(self) -> GameModel {
        GameModel {
            board: if self.keys.sonic_drop.fires() {
                self.board.dropped()
            } else {
                self.board
            },
            keys: KeysModel { sonic_drop: self.keys.sonic_drop.after_service(), ..self.keys },
            ..self
        }
    }

    /// The game after the shift, rotation and sonic drop channels were
    /// serviced, in this order: shift left, shift right, turn left, turn
    /// right, drop as far as the piece falls.
    pub open spec fn steered(self) -> GameModel {
        self.left_serviced().right_serviced().left_turn_serviced().right_turn_serviced()
            .sonic_drop_serviced()
    }

    /// The game after gravity and the lock delay had their turn. A piece
    /// that can fall gathers gravity and falls one row for each
    /// `GRAVITY_ONE_ROW` units gathered; one that rests has a tick of rest
    /// counted. A piece that rests after that loses the gravity it gathered,
    /// and is locked once it has rested for as long as the curve allows.
    pub open spec fn settled(self) -> GameModel {
        let moved = if !self.board.stuck() {
            let (board, left_over) = pulled(
                self.board,
                self.gravity_count + normal_gravity(self.stage_lines),
            );
            GameModel { stuck_frames: 0, board, gravity_count: left_over, ..self }
        } else {
            GameModel { stuck_frames: self.stuck_frames + 1, ..self }
        };
        if moved.board.stuck() {
            let resting = GameModel { gravity_count: 0, ..moved };
            if resting.stuck_frames >= NORMAL_LOCK_FRAMES {
                resting.locked_and_cleared()
            } else {
                resting
            }
        } else {
            moved
        }
    }

    /// A tick with a piece in play: the piece is steered, then the fast
    /// drop has its turn, then gravity. A fast drop moves the piece down by
    /// one row, or locks it at once if it rests.
    pub open spec fn played(self) -> GameModel {
        let steered = self.steered();
        if steered.keys.fast_drop.pressed {
            if steered.board.stuck() {
                steered.locked_and_cleared()
            } else {
                GameModel { board: steered.board.fallen(), ..steered }.settled()
            }
        } else {
            steered.settled()
        }
    }

    /// The game one tick later, where `drawn` is the piece that the
    /// randomizer gave if it was asked for one. A game that is lost or won
    /// stays as it is.
    pub open spec fn ticked(self, drawn: Tetrhombino) -> GameModel {
        if self.state is Loss || self.state is Victory {
            self
        } else {
            let ready = self.begun(drawn).clear_counted().are_counted(drawn);
            if ready.state is Falling {
                ready.played()
            } else {
                ready.idled()
            }
        }
    }
}

/// What gravity leaves over is less than what moves a piece by one row,
/// and gravity changes nothing but the place of the piece.
pub proof fn lemma_pulled_spends_whole_rows(board: BoardModel, count: nat)
    ensures
        pulled(board, count).1 < GRAVITY_ONE_ROW,
        pulled(board, count).0.rows == board.rows,
    decreases count,
{
    if count >= GRAVITY_ONE_ROW {
        lemma_pulled_spends_whole_rows(board.fallen(), (count - GRAVITY_ONE_ROW) as nat);
    }
}

impl GameModel {
    /// What holds of a game from its first tick on: both counts of cleared
    /// lines agree, the game is won exactly when the goal is reached, the
    /// gravity gathered is less than what moves a piece by one row, and a
    /// piece has not rested for longer than it may, nor for as long while it
    /// still falls.
    pub open spec fn consistent(self) -> bool {
        &&& self.lines_cleared == self.stage_lines
        &&& self.state is Victory <==> self.stage_lines >= NORMAL_GOAL
        &&& self.gravity_count < GRAVITY_ONE_ROW
        &&& self.stuck_frames <= NORMAL_LOCK_FRAMES
        &&& self.state is Falling ==> self.stuck_frames < NORMAL_LOCK_FRAMES
    }
}

/// A new game is consistent, and a tick keeps a game consistent, whatever
/// piece the randomizer gives.
pub proof fn lemma_tick_keeps_consistent(game: GameModel, drawn: Tetrhombino)
    requires
        game.consistent(),
    ensures
        GameModel::fresh().consistent(),
        game.ticked(drawn).consistent(),
{
    if !(game.state is Loss || game.state is Victory) {
        let ready = game.begun(drawn).clear_counted().are_counted(drawn);
        if ready.state is Falling {
            let steered = ready.steered();
            let dropped = GameModel { board: steered.board.fallen(), ..steered };
            lemma_settled_keeps_consistent(steered);
            lemma_settled_keeps_consistent(dropped);
        }
    }
}

/// Gravity and the lock delay keep a game with a falling piece consistent.
proof fn lemma_settled_keeps_consistent(game: GameModel)
    requires
        game.consistent(),
        game.state is Falling,
    ensures
        game.settled().consistent(),
{
    lemma_pulled_spends_whole_rows(
        game.board,
        game.gravity_count + normal_gravity(game.stage_lines),
    );
}

/// A game that is lost or won stays as it is, tick after tick.
pub proof fn lemma_lost_and_won_games_stay(game: GameModel, drawn: Tetrhombino)
    requires
        game.state is Loss || game.state is Victory,
    ensures
        game.ticked(drawn) == game,
{
}

/// When the pause before a piece is over and the next piece has no room
/// where it enters, the tick ends in the loss of the game: the piece is put
/// in play where it conflicts, no piece is drawn, and of the keys only the
/// shift channels are serviced.
pub proof fn lemma_piece_without_room_loses(game: GameModel, drawn: Tetrhombino, waited: nat)
    requires
        game.state == Phase::Are(waited),
        waited >= NORMAL_ARE_FRAMES,
        game.board.blocks(game.entering()),
    ensures
        game.ticked(drawn) == (GameModel {
            board: game.board.with_piece(game.entering()),
            state: Phase::Loss,
            ..game
        }).idled(),
        game.ticked(drawn).state is Loss,
        game.ticked(drawn).board.conflicts(),
        game.ticked(drawn).board.rows == game.board.rows,
{
}

/// Where the bottom row is full but for one cell, and the piece in play
/// covers that cell and completes no other row, locking the piece clears
/// one row: one line is counted and, short of the goal, the show of cleared
/// rows starts.
pub proof fn lemma_filling_the_gap_clears_the_row(game: GameModel, gap: int)
    requires
        0 <= gap < BOARD_WIDTH,
        forall|x: int|
            0 <= x < BOARD_WIDTH && x != gap ==> (#[trigger] game.board.rows[0][x]) is Some,
        game.board.current.covers(gap, 0),
        forall|y: int| 1 <= y < BOARD_HEIGHT ==> !row_full(#[trigger] game.board.locked().rows[y]),
        game.stage_lines + 1 < NORMAL_GOAL,
    ensures
        game.board.locked().full_rows() == 1,
        game.locked_and_cleared().state == Phase::Clear(0),
        game.locked_and_cleared().lines_cleared == game.lines_cleared + 1,
        game.locked_and_cleared().board == game.board.locked().cleared(),
{
    let locked = game.board.locked();
    assert(row_full(locked.rows[0]));
    lemma_clear_one_full_row(locked, 0);
}

/// On the empty board an I that lies flat in the column where pieces enter
/// conflicts in no row from the floor up to the row where pieces enter. It
/// falls by one row from every row above the floor, and rests on the floor.
pub proof fn lemma_i_falls_to_the_floor(row: int)
    requires
        0 <= row <= START_ROW,
    ensures
        !BoardModel::empty().blocks(flat_i(row)),
        row > 0 ==> BoardModel::empty().with_piece(flat_i(row)).fallen()
            == BoardModel::empty().with_piece(flat_i(row - 1)),
        row == 0 ==> BoardModel::empty().with_piece(flat_i(row)).stuck(),
{
    let board = BoardModel::empty();
    assert forall|r: int| 0 <= r <= START_ROW implies !board.blocks(flat_i(r)) by {
        let piece = flat_i(r);
        assert(forall|i: int| 0 <= i < 4 ==> (#[trigger] piece.cells()[i]).1 == r);
    }
    if row == 0 {
        let below = flat_i(-1);
        assert(board.occupied(below.cells()[0].0, below.cells()[0].1));
    }
}

/// An I that lies flat with its anchor in `row` of the column where pieces
/// enter.
pub open spec fn flat_i(row: int) -> PieceModel {
    PieceModel {
        kind: Tetrhombino::I,
        orientation: Orientation::Start,
        col: START_COLUMN as int,
        row,
    }
}

/// What follows the states between pieces in a tick, with or without a
/// piece in play, leaves the next piece and the randomizer as they are.
pub proof fn lemma_rest_of_tick_keeps_next(game: GameModel)
    ensures
        game.played().next == game.next,
        game.played().rand == game.rand,
        game.idled().next == game.next,
        game.idled().rand == game.rand,
{
}

/// The whole game: board, randomizer, input channels, difficulty curve and
/// the place in the life cycle.
#[derive(Debug, Clone, Copy)]
pub struct Game {
    pub board: BoardState,
    pub rand: TGMRandomizer,
    pub keys: KeyState,
    pub state: State,
    pub stuck_frames: usize,
    pub gravity_count: usize,
    pub next: Tetrhombino,
    pub lines_cleared: usize,
    pub stage: NormalDifficulty,
}

impl View for Game {
    type V = GameModel;

    open spec fn view(&self) -> GameModel {
        GameModel {
            board: self.board@,
            rand: self.rand@,
            keys: self.keys@,
            state: self.state@,
            stuck_frames: self.stuck_frames as nat,
            gravity_count: self.gravity_count as nat,
            next: self.next,
            lines_cleared: self.lines_cleared as nat,
            stage_lines: self.stage.lines_cleared as nat,
        }
    }
}

impl Game {
    /// Whether the two counts of cleared lines have room for the rows of one
    /// more board.
    pub open spec fn lines_have_headroom(&self) -> bool {
        &&& self.lines_cleared + BOARD_HEIGHT <= usize::MAX
        &&& self.stage.lines_cleared + BOARD_HEIGHT <= usize::MAX
    }

    /// Whether every counter that a tick with a piece in play can raise has
    /// room for what the tick can add to it.
    pub open spec fn has_room_to_play(&self) -> bool {
        &&& self.lines_have_headroom()
        &&& self.keys.left.hold_frames < usize::MAX
        &&& self.keys.right.hold_frames < usize::MAX
        &&& self.keys.sonic_drop.hold_frames < usize::MAX
        &&& self.stuck_frames < usize::MAX
        &&& self.gravity_count + GRAVITY_ONE_ROW <= usize::MAX
    }

    /// Whether every counter has room for what one tick can add to it.
    pub open spec fn has_headroom(&self) -> bool {
        &&& self.has_room_to_play()
        &&& self.rand.pieces_given < usize::MAX
    }

    /// Whether `update` can be called: the game is lost or won, so that a
    /// tick changes nothing, or every counter has room for one more tick.
    pub fn can_update(&self) -> (ready: bool)
        ensures
            ready == (self.state == State::Loss || self.state == State::Victory
                || self.has_headroom()),
    {
        if self.state == State::Loss || self.state == State::Victory {
            return true;
        }
        let lines = self.lines_cleared <= usize::MAX - BOARD_HEIGHT && self.stage.lines_cleared
            <= usize::MAX - BOARD_HEIGHT;
        let keys = self.keys.left.hold_frames < usize::MAX && self.keys.right.hold_frames
            < usize::MAX && self.keys.sonic_drop.hold_frames < usize::MAX;
        let piece = self.stuck_frames < usize::MAX && self.gravity_count <= usize::MAX
            - GRAVITY_ONE_ROW;
        lines && keys && piece && self.rand.pieces_given < usize::MAX
    }

    /// The piece in play, while there is one to show: when a piece falls,
    /// and when the game is lost, where it is the piece that had no room.
    pub fn active_piece(&self) -> (piece: Option<TetrhombinoState>)
        ensures
            piece == if self.state == State::Falling || self.state == State::Loss {
                Some(self.board.current)
            } else {
                None
            },
    {
        if self.state == State::Falling || self.state == State::Loss {
            Some(self.board.current)
        } else {
            None
        }
    }

    /// The piece that comes next, unless the game is lost.
    pub fn next_piece(&self) -> (piece: Option<Tetrhombino>)
        ensures
            piece == if self.state == State::Loss {
                None
            } else {
                Some(self.next)
            },
    {
        if self.state == State::Loss {
            None
        } else {
            Some(self.next)
        }
    }

    /// A game that has not begun, on an empty board.
    pub fn new() -> (game: Game)
        ensures
            game@ == GameModel::fresh(),
            game.has_headroom(),
    {
        Game {
            board: BoardState::new(),
            rand: TGMRandomizer::new(),
            keys: KeyState::new(),
            state: State::Start,
            stuck_frames: 0,
            gravity_count: 0,
            next: Tetrhombino::I,
            lines_cleared: 0,
            stage: NormalDifficulty::new(),
        }
    }

    /// Puts the next piece in play at the place where pieces enter. If it
    /// has no room there the game is lost. Else the piece starts to fall and
    /// the randomizer gives the piece after it.
    pub fn spawn(&mut self)
        requires
            old(self).rand.can_give(),
        ensures
            final(self)@ == old(self)@.spawned(final(self).next),
            final(self).state != State::Loss ==> old(self)@.rand.pool().contains(final(self).next),
            final(self).state == State::Loss ==> final(self).next == old(self).next,
            old(self).has_room_to_play() ==> final(self).has_room_to_play(),
    {
        self.board.spawn(
            TetrhombinoState {
                tetrhombino: self.next,
                orientation: Orientation::Start,
                position: (START_COLUMN, START_ROW),
            },
        );
        if self.board.current_piece_conflicts() {
            self.state = State::Loss;
            return ;
        }
        self.next = self.rand.get_piece();
        self.state = State::Falling;
        self.stuck_frames = 0;
        self.gravity_count = 0;
    }

    /// Locks the piece in play, clears the full rows and counts them. The
    /// game is won once the curve is done; else it shows the cleared rows if
    /// there are any, and waits for the next piece if there are none.
    pub fn lock(&mut self)
        requires
            old(self).lines_have_headroom(),
        ensures
            final(self)@ == old(self)@.locked_and_cleared(),
    {
        self.board.lock();
        let cleared = self.board.clear();
        if cleared > 0 {
            self.lines_cleared += cleared;
            self.stage.clear_lines(cleared);
            self.state = State::Clear(0);
        } else {
            self.state = State::Are(0);
        }
        if self.stage.done() {
            self.state = State::Victory;
        }
    }

    /// Lets gravity and the lock delay have their turn on the piece in play.
    fn settle(&mut self)
        requires
            old(self).lines_have_headroom(),
            old(self).stuck_frames < usize::MAX,
            old(self).gravity_count + GRAVITY_ONE_ROW <= usize::MAX,
        ensures
            final(self)@ == old(self)@.settled(),
    {
        if !self.board.stuck() {
            self.stuck_frames = 0;
            let gravity = self.stage.get_gravity();
            proof {
                crate::difficulty::lemma_normal_gravity_bounds(self.stage.lines_cleared as nat);
            }
            self.gravity_count += gravity;
            let ghost start = self@;
            while self.gravity_count >= GRAVITY_ONE_ROW
                invariant
                    self@ == (GameModel {
                        board: self.board@,
                        gravity_count: self.gravity_count as nat,
                        ..start
                    }),
                    pulled(self.board@, self.gravity_count as nat) == pulled(
                        start.board,
                        start.gravity_count,
                    ),
                decreases self.gravity_count,
            {
                self.board.fall();
                self.gravity_count -= GRAVITY_ONE_ROW;
            }
        } else {
            self.stuck_frames += 1;
        }
        if self.board.stuck() {
            self.gravity_count = 0;
            if self.stuck_frames >= self.stage.get_lock_frames() {
                self.lock();
            }
        }
    }

    /// Takes the game through the states between pieces: the start, the show
    /// of cleared rows and the pause before a piece, in this order, so that
    /// pauses of no ticks work correctly.
    fn advance(&mut self)
        requires
            old(self).rand.can_give(),
        ensures
            final(self)@ == old(self)@.begun(final(self).next).clear_counted().are_counted(
                final(self).next,
            ),
            old(self)@.draws() ==> old(self)@.rand.pool().contains(final(self).next),
            !old(self)@.draws() ==> final(self).next == old(self).next,
            old(self).has_room_to_play() ==> final(self).has_room_to_play(),
    {
        if self.state == State::Start {
            self.state = State::Are(0);
            self.next = self.rand.get_piece();
        }
        if let State::Clear(n) = self.state {
            if n >= self.stage.get_clear_frames() {
                self.state = State::Are(0);
            } else {
                self.state = State::Clear(n + 1);
            }
        }
        if let State::Are(n) = self.state {
            if n >= self.stage.get_are_frames() {
                self.spawn();
            } else {
                self.state = State::Are(n + 1);
            }
        }
    }

    /// Services the left shift channel and shifts the piece if it fires.
    fn service_left(&mut self)
        requires
            old(self).keys.left.hold_frames < usize::MAX,
        ensures
            final(self)@ == old(self)@.left_serviced(),
    {
        if self.keys.left.service() {
            self.board.shift_left();
        }
    }

    /// Services the right shift channel and shifts the piece if it fires.
    fn service_right(&mut self)
        requires
            old(self).keys.right.hold_frames < usize::MAX,
        ensures
            final(self)@ == old(self)@.right_serviced(),
    {
        if self.keys.right.service() {
            self.board.shift_right();
        }
    }

    /// Services the channel of the left turn and turns the piece if it
    /// fires.
    fn service_left_turn(&mut self)
        ensures
            final(self)@ == old(self)@.left_turn_serviced(),
    {
        if self.keys.r_left.service() {
            self.board.rotate_left();
        }
    }

    /// Services the channel of the right turn and turns the piece if it
    /// fires.
    fn service_right_turn(&mut self)
        ensures
            final(self)@ == old(self)@.right_turn_serviced(),
    {
        if self.keys.r_right.service() {
            self.board.rotate_right();
        }
    }

    /// Services the sonic drop channel and drops the piece if it fires.
    fn service_sonic_drop(&mut self)
        requires
            old(self).keys.sonic_drop.hold_frames < usize::MAX,
        ensures
            final(self)@ == old(self)@.sonic_drop_serviced(),
    {
        if self.keys.sonic_drop.service() {
            self.board.sonic_drop();
        }
    }

    /// Services the shift, rotation and sonic drop channels, in this order,
    /// and moves the piece in play as they say.
    fn steer(&mut self)
        requires
            old(self).keys.left.hold_frames < usize::MAX,
            old(self).keys.right.hold_frames < usize::MAX,
            old(self).keys.sonic_drop.hold_frames < usize::MAX,
        ensures
            final(self)@ == old(self)@.steered(),
    {
        self.service_left();
        self.service_right();
        self.service_left_turn();
        self.service_right_turn();
        self.service_sonic_drop();
    }

    /// Lets a tick pass for the piece in play: the keys steer it, the fast
    /// drop moves it down a row or locks it where it rests, and gravity and
    /// the lock delay have their turn unless the fast drop locked it.
    fn play(&mut self)
        requires
            old(self).has_room_to_play(),
        ensures
            final(self)@ == old(self)@.played(),
    {
        self.steer();
        if self.keys.fast_drop.service() {
            if !self.board.fall() {
                self.lock();
                return ;
            }
        }
        self.settle();
    }

    /// Lets a tick pass without a piece in play: the shift channels are
    /// serviced, so that a held key goes on charging.
    fn idle(&mut self)
        requires
            old(self).keys.left.hold_frames < usize::MAX,
            old(self).keys.right.hold_frames < usize::MAX,
        ensures
            final(self)@ == old(self)@.idled(),
    {
        self.keys.left.service();
        self.keys.right.service();
    }

    /// Moves the game on by one tick.
    ///
    /// A game that has not begun draws its first piece. The pauses count
    /// their ticks, and the pause before a piece ends with the piece put in
    /// play, or with the loss of the game if it has no room. While a piece
    /// falls the keys steer it, the fast drop and gravity pull it down, and
    /// it locks when it has rested long enough. Between pieces only the
    /// shift channels are serviced. A game that is lost or won stays as it
    /// is. In a game that goes on, no counter may stand at the limit of its
    /// type.
    pub fn update(&mut self)
        requires
            old(self).state == State::Loss || old(self).state == State::Victory
                || old(self).has_headroom(),
        ensures
            final(self)@ == old(self)@.ticked(final(self).next),
            old(self)@.draws() ==> old(self)@.rand.pool().contains(final(self).next),
            !old(self)@.draws() ==> final(self).next == old(self).next,
            old(self).state == State::Loss || old(self).state == State::Victory ==> *final(self)
                == *old(self),
    {
        if self.state == State::Loss || self.state == State::Victory {
            return ;
        }
        self.advance();
        proof {
            lemma_rest_of_tick_keeps_next(self@);
        }
        if self.state != State::Falling {
            self.idle();
            return ;
        }
        self.play();
    }

    /// Moves the game on by one tick if it can be: if it is lost or won, so
    /// that the tick changes nothing, or if every counter has room for one
    /// more tick. Says whether it did. A game that cannot be moved on is left
    /// as it is.
    pub fn try_update(&mut self) -> (ticked: bool)
        ensures
            ticked == (old(self).state == State::Loss || old(self).state == State::Victory
                || old(self).has_headroom()),
            ticked ==> final(self)@ == old(self)@.ticked(final(self).next),
            ticked && old(self)@.draws() ==> old(self)@.rand.pool().contains(final(self).next),
            !(ticked && old(self)@.draws()) ==> final(self).next == old(self).next,
            !ticked ==> *final(self) == *old(self),
    {
        if self.can_update() {
            self.update();
            true
        } else {
            false
        }
    }

    /// Hands a press (`press`) or a release edge of `button` to the channel
    /// that listens to it. Left and right shift, up is the sonic drop, down
    /// the fast drop; a button that the game does not know is ignored.
    pub fn input(&mut self, button: Button, press: bool)
        ensures
            final(self)@ == (GameModel {
                keys: old(self)@.keys.after_trigger(button, press),
                ..old(self)@
            }),
    {
        match button {
            Button::Left => self.keys.left.trigger(press),
            Button::Right => self.keys.right.trigger(press),
            Button::Up => self.keys.sonic_drop.trigger(press),
            Button::Down => self.keys.fast_drop.trigger(press),
            Button::RotateLeft => self.keys.r_left.trigger(press),
            Button::RotateRight => self.keys.r_right.trigger(press),
            Button::Other => {},
        }
    }
}

} // verus!
