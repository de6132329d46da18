//! Difficulty curves: how fast pieces fall and how long the pauses between
//! them last, as a function of the lines cleared so far.
use vstd::prelude::*;

verus! {

/// Gravity that moves a piece by one whole row per tick.
pub const GRAVITY_ONE_ROW: usize = 256;

/// Lines after which the normal curve is done.
pub const NORMAL_GOAL: usize = 150;

/// Ticks between a lock, or the end of a clear, and the next piece.
pub const NORMAL_ARE_FRAMES: usize = 25;

/// Ticks for which cleared rows are shown before the next piece is due.
pub const NORMAL_CLEAR_FRAMES: usize = 40;

/// Ticks for which a piece may rest before it locks.
pub const NORMAL_LOCK_FRAMES: usize = 30;

/// What the game asks of a difficulty curve.
pub trait DifficultyCurve {
    /// The lines recorded so far.
    spec fn lines(&self) -> nat;

    /// Gravity, in 256ths of a row per tick.
    fn get_gravity(&self) -> usize;

    /// Ticks between a lock, or the end of a clear, and the next piece.
    fn get_are_frames(&self) -> usize;

    /// Ticks for which cleared rows are shown.
    fn get_clear_frames(&self) -> usize;

    /// Ticks for which a piece may rest before it locks.
    fn get_lock_frames(&self) -> usize;

    /// Records `lines` more cleared lines. The new total must fit the
    /// counter.
    fn clear_lines(&mut self, lines: usize)
        requires
            old(self).lines() + lines <= usize::MAX,
        ensures
            final(self).lines() == old(self).lines() + lines,
    ;

    /// Whether the curve has run its course.
    fn done(&self) -> bool;
}

/// The gravity steps of the normal curve, one for every ten lines.
pub open spec fn normal_speed_table() -> Seq<nat> {
    seq![4, 8, 12, 16, 20, 24, 28, 32, 48, 64, 80, 96, 112, 128, 256]
}

/// Gravity of the normal curve after `lines` cleared lines: the step for
/// `lines / 10`, and the last step from 140 lines on.
pub open spec fn normal_gravity(lines: nat) -> nat {
    if lines / 10 < 15 {
        normal_speed_table()[lines as int / 10]
    } else {
        normal_speed_table()[14]
    }
}

/// The gravity of the normal curve never moves a piece by more than one row
/// per tick, and never lets it hang.
pub proof fn lemma_normal_gravity_bounds(lines: nat)
    ensures
        0 < normal_gravity(lines) <= GRAVITY_ONE_ROW,
{
}

/// The normal curve.
#[derive(Debug, Clone, Copy, PartialEq, Eq)]
pub struct NormalDifficulty {
    pub lines_cleared: usize,
}

impl NormalDifficulty {
    /// The normal curve with no line cleared.
    pub fn new() -> (curve: Self)
        ensures
            curve.lines_cleared == 0,
    {
        NormalDifficulty { lines_cleared: 0 }
    }
}

impl DifficultyCurve for NormalDifficulty {
    open spec fn lines(&self) -> nat {
        self.lines_cleared as nat
    }

    fn get_gravity(&self) -> (gravity: usize)
        ensures
            gravity == normal_gravity(self.lines()),
    {
        let table: [usize; 15] = [4, 8, 12, 16, 20, 24, 28, 32, 48, 64, 80, 96, 112, 128, 256];
        let level: usize = self.lines_cleared / 10;
        if level < 15 {
            table[level]
        } else {
            table[14]
        }
    }

    fn get_are_frames(&self) -> (frames: usize)
        ensures
            frames == NORMAL_ARE_FRAMES,
    {
        NORMAL_ARE_FRAMES
    }

    fn get_clear_frames(&self) -> (frames: usize)
        ensures
            frames == NORMAL_CLEAR_FRAMES,
    {
        NORMAL_CLEAR_FRAMES
    }

    fn get_lock_frames(&self) -> (frames: usize)
        ensures
            frames == NORMAL_LOCK_FRAMES,
    {
        NORMAL_LOCK_FRAMES
    }

    fn clear_lines(&mut self, lines: usize)
        ensures
            final(self).lines_cleared == old(self).lines_cleared + lines,
    {
        self.lines_cleared += lines;
    }

    fn done(&self) -> (finished: bool)
        ensures
            finished == (self.lines() >= NORMAL_GOAL),
    {
        self.lines_cleared >= NORMAL_GOAL
    }
}

} // verus!
