//! Randomizers: where the next piece comes from.
//!
//! The one randomizer here remembers the last four pieces it gave and draws
//! again, a bounded number of times, when a draw repeats one of them.
use crate::piece::Tetrhombino;
use rand::Rng;
use vstd::prelude::*;

verus! {

/// How many pieces the randomizer remembers.
pub const HISTORY_LEN: usize = 4;

/// How often a draw that repeats a remembered piece is drawn again. The
/// draw after the last of these is given out whatever it is.
pub const MAX_REDRAWS: usize = 6;

/// What the game asks of a randomizer.
pub trait Randomizer {
    /// Whether one more piece can be given.
    spec fn can_give(&self) -> bool;

    /// Gives the next piece.
    fn get_piece(&mut self) -> Tetrhombino
        requires
            old(self).can_give(),
    ;
}

/// The kinds a piece is drawn from: I, T, L and J for the very first piece,
/// all seven kinds after it.
pub open spec fn pool(first: bool) -> Seq<Tetrhombino> {
    if first {
        seq![Tetrhombino::I, Tetrhombino::T, Tetrhombino::L, Tetrhombino::J]
    } else {
        seq![
            Tetrhombino::O,
            Tetrhombino::I,
            Tetrhombino::S,
            Tetrhombino::Z,
            Tetrhombino::T,
            Tetrhombino::L,
            Tetrhombino::J,
        ]
    }
}

/// The randomizer as the contracts see it: the remembered pieces, slot by
/// slot, and the unbounded count of the pieces given.
pub struct RandomizerModel {
    pub history: Seq<Tetrhombino>,
    pub pieces_given: nat,
}

impl RandomizerModel {
    /// A randomizer that has given no piece. It remembers two Z and two S.
    pub open spec fn fresh() -> RandomizerModel {
        RandomizerModel {
            history: seq![Tetrhombino::Z, Tetrhombino::Z, Tetrhombino::S, Tetrhombino::S],
            pieces_given: 0,
        }
    }

    /// The kinds the next piece is drawn from.
    pub open spec fn pool(self) -> Seq<Tetrhombino> {
        pool(self.pieces_given == 0)
    }

    /// Whether `piece` is one of the remembered pieces.
    pub open spec fn recent(self, piece: Tetrhombino) -> bool {
        self.history.contains(piece)
    }

    /// Whether a draw of `piece` stands after `redraws` earlier draws were
    /// thrown away.
    pub open spec fn accepts(self, piece: Tetrhombino, redraws: nat) -> bool {
        !self.recent(piece) || redraws >= MAX_REDRAWS
    }

    /// Which of the draws `draws[from]`, `draws[from + 1]`, ... made in a
    /// row is given out: the first that stands, where `draws[k]` is judged
    /// after `k` draws were thrown away.
    pub open spec fn first_standing(self, draws: Seq<Tetrhombino>, from: nat) -> nat
        decreases MAX_REDRAWS - from,
    {
        if from >= MAX_REDRAWS || self.accepts(draws[from as int], from) {
            from
        } else {
            self.first_standing(draws, from + 1)
        }
    }

    /// The piece that is given out of the draws `draws`, made in a row.
    pub open spec fn chosen(self, draws: Seq<Tetrhombino>) -> Tetrhombino {
        draws[self.first_standing(draws, 0) as int]
    }

    /// The randomizer after `piece` was given: it takes the slot of the
    /// oldest remembered piece, and the count goes up by one.
    pub open spec fn recorded(self, piece: Tetrhombino) -> RandomizerModel {
        RandomizerModel {
            history: self.history.update(self.pieces_given as int % HISTORY_LEN as int, piece),
            pieces_given: self.pieces_given + 1,
        }
    }
}

/// The draw that is given out is the first that stands: it stands, every
/// draw before it was thrown away, and it is at the latest the draw after
/// `MAX_REDRAWS` thrown away ones.
pub proof fn lemma_first_standing(model: RandomizerModel, draws: Seq<Tetrhombino>, from: nat)
    requires
        from <= MAX_REDRAWS,
    ensures
        from <= model.first_standing(draws, from) <= MAX_REDRAWS,
        model.accepts(
            draws[model.first_standing(draws, from) as int],
            model.first_standing(draws, from),
        ),
        forall|i: int|
            from <= i < model.first_standing(draws, from) ==> !model.accepts(
                #[trigger] draws[i],
                i as nat,
            ),
    decreases MAX_REDRAWS - from,
{
    if from < MAX_REDRAWS && !model.accepts(draws[from as int], from) {
        lemma_first_standing(model, draws, from + 1);
    }
}

/// A randomizer that avoids the last four pieces it gave.
#[derive(Debug, Clone, Copy, PartialEq, Eq)]
pub struct TGMRandomizer {
    pub history: [Tetrhombino; 4],
    pub pieces_given: usize,
}

impl View for TGMRandomizer {
    type V = RandomizerModel;

    open spec fn view(&self) -> RandomizerModel {
        RandomizerModel { history: self.history@, pieces_given: self.pieces_given as nat }
    }
}

/// Draws a number from the generator of the running thread: the call is
/// `gen_range(0, bound)` of `rand::Rng`, on what `rand::thread_rng()`
/// returns. All that is claimed of the number is what that method documents
/// of every draw: it is less than `bound`. The method panics on an empty
/// range, so `bound` must be positive.
#[verifier::external_body]
fn random_below(bound: usize) -> (index: usize)
    requires
        bound > 0,
    ensures
        index < bound,
{
    rand::thread_rng().gen_range(0, bound)
}

impl TGMRandomizer {
    /// A randomizer that has given no piece yet. It starts out remembering
    /// two Z and two S, so that these are unlikely early on.
    pub fn new() -> (fresh: Self)
        ensures
            fresh@ == RandomizerModel::fresh(),
    {
        TGMRandomizer {
            history: [Tetrhombino::Z, Tetrhombino::Z, Tetrhombino::S, Tetrhombino::S],
            pieces_given: 0,
        }
    }

    /// How many kinds the next piece is drawn from.
    pub fn pool_size(&self) -> (size: usize)
        ensures
            size == self@.pool().len(),
            size > 0,
    {
        if self.pieces_given == 0 {
            4
        } else {
            7
        }
    }

    /// The kind that stands at `index` among the kinds the next piece is
    /// drawn from.
    pub fn candidate(&self, index: usize) -> (piece: Tetrhombino)
        requires
            index < self@.pool().len(),
        ensures
            piece == self@.pool()[index as int],
    {
        if self.pieces_given == 0 {
            let first: [Tetrhombino; 4] = [
                Tetrhombino::I,
                Tetrhombino::T,
                Tetrhombino::L,
                Tetrhombino::J,
            ];
            first[index]
        } else {
            let all: [Tetrhombino; 7] = [
                Tetrhombino::O,
                Tetrhombino::I,
                Tetrhombino::S,
                Tetrhombino::Z,
                Tetrhombino::T,
                Tetrhombino::L,
                Tetrhombino::J,
            ];
            all[index]
        }
    }

    /// Draws one kind at random from the kinds the next piece is drawn from.
    pub fn helper(&self) -> (piece: Tetrhombino)
        ensures
            self@.pool().contains(piece),
    {
        let index = random_below(self.pool_size());
        self.candidate(index)
    }

    /// Whether `piece` is one of the remembered pieces.
    pub fn recent(&self, piece: Tetrhombino) -> (found: bool)
        ensures
            found == self@.recent(piece),
    {
        let mut i: usize = 0;
        while i < HISTORY_LEN
            invariant
                i <= HISTORY_LEN,
                forall|k: int| 0 <= k < i ==> self.history@[k] != piece,
            decreases HISTORY_LEN - i,
        {
            if self.history[i] == piece {
                return true;
            }
            i += 1;
        }
        false
    }

    /// Whether a draw of `piece` stands after `redraws` earlier draws were
    /// thrown away: it does if the piece is not remembered, and in any case
    /// once `MAX_REDRAWS` draws were thrown away.
    pub fn accepts(&self, piece: Tetrhombino, redraws: usize) -> (stands: bool)
        ensures
            stands == self@.accepts(piece, redraws as nat),
    {
        redraws >= MAX_REDRAWS || !self.recent(piece)
    }

    /// The piece that is given out when `draws` are the draws made in a row:
    /// the first of them that stands. A draw that repeats a remembered piece
    /// is thrown away, and the draw after `MAX_REDRAWS` thrown away ones is
    /// given out whatever it is.
    pub fn choose_from(&self, draws: &[Tetrhombino; 7]) -> (piece: Tetrhombino)
        ensures
            piece == self@.chosen(draws@),
            exists|k: int|
                0 <= k <= MAX_REDRAWS && piece == draws[k] && self@.accepts(draws[k], k as nat)
                    && forall|i: int| 0 <= i < k ==> !self@.accepts(#[trigger] draws[i], i as nat),
    {
        let mut redraws: usize = 0;
        proof {
            lemma_first_standing(self@, draws@, 0);
        }
        while !self.accepts(draws[redraws], redraws)
            invariant
                redraws <= MAX_REDRAWS,
                self@.first_standing(draws@, redraws as nat) == self@.first_standing(draws@, 0),
            decreases MAX_REDRAWS - redraws,
        {
            redraws += 1;
        }
        assert(redraws == self@.first_standing(draws@, 0));
        draws[redraws]
    }

    /// Remembers `piece` as given, in place of the oldest remembered piece.
    /// The count of pieces given must have room for one more.
    pub fn record(&mut self, piece: Tetrhombino)
        requires
            old(self).pieces_given < usize::MAX,
        ensures
            final(self)@ == old(self)@.recorded(piece),
    {
        self.history[self.pieces_given % HISTORY_LEN] = piece;
        self.pieces_given += 1;
    }
}

impl Randomizer for TGMRandomizer {
    open spec fn can_give(&self) -> bool {
        self.pieces_given < usize::MAX
    }

    /// Draws until a draw stands, and remembers and gives that piece. The
    /// very first piece is an I, T, L or J.
    fn get_piece(&mut self) -> (piece: Tetrhombino)
        ensures
            old(self)@.pool().contains(piece),
            final(self)@ == old(self)@.recorded(piece),
    {
        let mut piece = self.helper();
        let mut redraws: usize = 0;
        while !self.accepts(piece, redraws)
            invariant
                redraws <= MAX_REDRAWS,
                *self == *old(self),
                self@.pool().contains(piece),
            decreases MAX_REDRAWS - redraws,
        {
            piece = self.helper();
            redraws += 1;
        }
        self.record(piece);
        piece
    }
}

} // verus!
