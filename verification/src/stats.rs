//! A tally of the matches played.

use crate::resource::fits_i32;
use vstd::prelude::*;

verus! {

/// The quotient of `a` by a positive `b`, rounded towards zero.
pub open spec fn quotient(a: int, b: int) -> int {
    if a >= 0 {
        a / b
    } else {
        -((-a) / b)
    }
}

/// A tally of the matches played, as unbounded integers.
pub struct StatsModel {
    pub started_games: int,
    pub won_games: int,
    pub losed_games: int,
    pub average_moves: int,
}

impl StatsModel {
    /// No count is negative.
    pub open spec fn wf(self) -> bool {
        self.started_games >= 0 && self.won_games >= 0 && self.losed_games >= 0
    }

    /// Every number can be held in an `i32`.
    pub open spec fn representable(self) -> bool {
        &&& fits_i32(self.started_games)
        &&& fits_i32(self.won_games)
        &&& fits_i32(self.losed_games)
        &&& fits_i32(self.average_moves)
        &&& fits_i32(self.ended_games())
    }

    /// The matches that were played to the end.
    pub open spec fn ended_games(self) -> int {
        self.won_games + self.losed_games
    }

    /// One more match was started.
    pub open spec fn game_started(self) -> StatsModel {
        StatsModel { started_games: self.started_games + 1, ..self }
    }

    /// One more match was played to the end, in the given number of moves:
    /// it is counted as won or lost, and the moves are averaged in.
    pub open spec fn game_ended(self, won: bool, moves: int) -> StatsModel {
        let counted = if won {
            StatsModel { won_games: self.won_games + 1, ..self }
        } else {
            StatsModel { losed_games: self.losed_games + 1, ..self }
        };
        StatsModel {
            average_moves: quotient(self.average_moves + moves, counted.ended_games()),
            ..counted
        }
    }
}

/// A tally of the matches played.
#[derive(PartialEq, Eq, Copy, Debug, Clone, Structural)]
pub struct Stats {
    pub started_games: i32,
    pub won_games: i32,
    pub losed_games: i32,
    pub average_moves: i32,
}

impl View for Stats {
    type V = StatsModel;

    open spec fn view(&self) -> StatsModel {
        StatsModel {
            started_games: self.started_games as int,
            won_games: self.won_games as int,
            losed_games: self.losed_games as int,
            average_moves: self.average_moves as int,
        }
    }
}

impl Stats {
    /// A tally of no matches.
    pub fn new() -> (stats: Stats)
        ensures
            stats@ == (StatsModel { started_games: 0, won_games: 0, losed_games: 0, average_moves: 0 }),
            stats@.wf(),
    {
        Stats { started_games: 0, won_games: 0, losed_games: 0, average_moves: 0 }
    }

    /// Whether no count is negative and the matches played to the end can
    /// be counted in an `i32`.
    pub fn is_well_formed(&self) -> (ok: bool)
        ensures
            ok == (self@.wf() && self@.representable()),
    {
        self.started_games >= 0 && self.won_games >= 0 && self.losed_games >= 0
            && self.won_games as i64 + self.losed_games as i64 <= i32::MAX as i64
    }

    /// The matches that were played to the end.
    pub fn ended_games(&self) -> (ended: i32)
        requires
            fits_i32(self@.ended_games()),
        ensures
            ended == self@.ended_games(),
    {
        self.won_games + self.losed_games
    }

    /// Counts one more match as started.
    pub fn game_started(&mut self)
        requires
            old(self).started_games < i32::MAX,
        ensures
            final(self)@ == old(self)@.game_started(),
    {
        self.started_games = self.started_games + 1;
    }

    /// Whether `game_ended(won, moves)` can be called.
    pub fn can_end_game(&self, won: bool, moves: i32) -> (ok: bool)
        ensures
            ok == (self@.wf() && self@.game_ended(won, moves as int).representable()),
    {
        if !(self.started_games >= 0 && self.won_games >= 0 && self.losed_games >= 0) {
            return false;
        }
        let ended: i64 = self.won_games as i64 + self.losed_games as i64 + 1;
        if ended > i32::MAX as i64 {
            return false;
        }
        let sum: i64 = self.average_moves as i64 + moves as i64;
        let average: i64 = if sum >= 0 {
            sum / ended
        } else {
            -((-sum) / ended)
        };
        i32::MIN as i64 <= average && average <= i32::MAX as i64
    }

    /// Counts one more match as played to the end, in the given number of
    /// moves: as won or as lost, with the moves averaged in.
    pub fn game_ended(&mut self, won: bool, moves: i32)
        requires
            old(self)@.wf(),
            old(self)@.game_ended(won, moves as int).representable(),
        ensures
            final(self)@ == old(self)@.game_ended(won, moves as int),
    {
        if won {
            self.won_games = self.won_games + 1;
        } else {
            self.losed_games = self.losed_games + 1;
        }
        let ended: i64 = self.ended_games() as i64;
        let sum: i64 = self.average_moves as i64 + moves as i64;
        let average: i64 = if sum >= 0 {
            sum / ended
        } else {
            -((-sum) / ended)
        };
        self.average_moves = average as i32;
    }
}

} // verus!
