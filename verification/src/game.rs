//! The board data, the placement rule, the win-detection scan, and the
//! terminal-state policy.
//!
//! A board of size `N` is `N` columns, ordered left to right, each a bounded
//! stack of at most `N` tiles ordered bottom to top (index 0 is the bottom,
//! matching gravity). The mathematical model of a board is a
//! `Seq<Seq<BoardTile>>` of the columns; all contracts are stated over it.

use vstd::prelude::*;

use crate::tile::BoardTile;
use crate::tile::Day12AppError;
use crate::tile::team_tile;

verus! {

/// A column stack `c` of a board with `n` columns is well-formed when it
/// never outgrows the square board and holds playable tiles only.
pub open spec fn column_wf(col: Seq<BoardTile>, n: int) -> bool {
    &&& col.len() <= n
    &&& forall|r: int| 0 <= r < col.len() ==> (#[trigger] col[r]).is_playable()
}

/// The board invariant: a square of `N >= 1` columns, each a stack of at
/// most `N` playable tiles.
pub open spec fn board_wf(b: Seq<Seq<BoardTile>>) -> bool {
    &&& b.len() >= 1
    &&& forall|c: int| 0 <= c < b.len() ==> column_wf(#[trigger] b[c], b.len() as int)
}

/// Column `c` is entirely filled with tile kind `t`.
pub open spec fn col_filled_with(b: Seq<Seq<BoardTile>>, c: int, t: BoardTile) -> bool {
    &&& b[c].len() == b.len()
    &&& forall|r: int| 0 <= r < b[c].len() ==> #[trigger] b[c][r] == t
}

/// Some column is a completed line of tile kind `t`.
pub open spec fn col_win(b: Seq<Seq<BoardTile>>, t: BoardTile) -> bool {
    exists|c: int| 0 <= c < b.len() && col_filled_with(b, c, t)
}

/// Row `r` is fully populated across every column and every tile in it is
/// of kind `t`. A row with any column shorter than `r + 1` never counts,
/// even if all existing tiles match.
pub open spec fn row_win_at(b: Seq<Seq<BoardTile>>, r: int, t: BoardTile) -> bool {
    forall|c: int| 0 <= c < b.len() ==> (#[trigger] b[c]).len() > r && b[c][r] == t
}

/// Some row is a completed line of tile kind `t`.
pub open spec fn row_win(b: Seq<Seq<BoardTile>>, t: BoardTile) -> bool {
    exists|r: int| 0 <= r < b.len() && row_win_at(b, r, t)
}

/// The single diagonal from column 0 / height 0 to column N-1 / height N-1
/// is fully populated with tile kind `t`.
pub open spec fn diag_win(b: Seq<Seq<BoardTile>>, t: BoardTile) -> bool {
    forall|i: int| 0 <= i < b.len() ==> (#[trigger] b[i]).len() > i && b[i][i] == t
}

/// The single anti-diagonal from column 0 / height N-1 to column N-1 /
/// height 0 is fully populated with tile kind `t`.
pub open spec fn anti_diag_win(b: Seq<Seq<BoardTile>>, t: BoardTile) -> bool {
    forall|i: int| 0 <= i < b.len()
        ==> (#[trigger] b[i]).len() > b.len() - 1 - i && b[i][b.len() - 1 - i] == t
}

/// Tile kind `t` has completed a line: a column, a row, or one of the two
/// fixed diagonals. Only these lines are checked; shorter or off-center
/// diagonals never win.
pub open spec fn wins(b: Seq<Seq<BoardTile>>, t: BoardTile) -> bool {
    ||| col_win(b, t)
    ||| row_win(b, t)
    ||| diag_win(b, t)
    ||| anti_diag_win(b, t)
}

/// The reported winner: the kinds are evaluated in a fixed order, `Cookie`
/// before `Milk`, and the first kind with a completed line wins the report.
pub open spec fn winner(b: Seq<Seq<BoardTile>>) -> Option<BoardTile> {
    if wins(b, BoardTile::Cookie) {
        Some(BoardTile::Cookie)
    } else if wins(b, BoardTile::Milk) {
        Some(BoardTile::Milk)
    } else {
        None
    }
}

/// Every column is at its height cap: the board is physically full.
pub open spec fn board_full(b: Seq<Seq<BoardTile>>) -> bool {
    forall|c: int| 0 <= c < b.len() ==> (#[trigger] b[c]).len() == b.len()
}

/// The status that a placement request `(team, column)` receives on board
/// `b`, checked in this order: unknown team, column outside `[1, N]`, a
/// line already complete, target column full; otherwise the tile lands.
/// Fullness alone, without a line, does not end the game.
pub open spec fn place_status(b: Seq<Seq<BoardTile>>, team: Seq<char>, column: int) -> Result<
    (),
    Day12AppError,
> {
    match team_tile(team) {
        None => Err(Day12AppError::InvalidTeam),
        Some(t) => if !(1 <= column <= b.len()) {
            Err(Day12AppError::InvalidColumn)
        } else if winner(b) is Some {
            Err(Day12AppError::GameAlreadyOver)
        } else if b[column - 1].len() == b.len() {
            Err(Day12AppError::ColumnFull)
        } else {
            Ok(())
        },
    }
}

/// The board after a placement request: on success the team's tile is
/// appended to the top of the target column; every rejection leaves the
/// board exactly as it was.
pub open spec fn place_next(b: Seq<Seq<BoardTile>>, team: Seq<char>, column: int) -> Seq<
    Seq<BoardTile>,
> {
    if place_status(b, team, column) is Ok {
        b.update(column - 1, b[column - 1].push(team_tile(team).unwrap()))
    } else {
        b
    }
}

/// The game state: a square board of fixed size `N`, chosen at construction
/// and immutable for the board's lifetime.
pub struct MilkCookieGame {
    pub(crate) board_state: Vec<Vec<BoardTile>>,
    pub(crate) size: usize,
}

impl View for MilkCookieGame {
    type V = Seq<Seq<BoardTile>>;

    open(crate) spec fn view(&self) -> Seq<Seq<BoardTile>> {
        Seq::new(self.board_state@.len(), |c: int| self.board_state@[c]@)
    }
}

impl MilkCookieGame {
    /// The type invariant: the configured size matches the number of
    /// columns, the size leaves room for the rendered border, and the board
    /// itself is well-formed.
    pub open(crate) spec fn wf(self) -> bool {
        &&& self.size == self@.len()
        &&& 1 <= self.size <= usize::MAX - 2
        &&& board_wf(self@)
    }

    /// Creates an empty board of `size` columns.
    pub fn new(size: usize) -> (game: MilkCookieGame)
        requires
            1 <= size <= usize::MAX - 2,
        ensures
            game.wf(),
            game@.len() == size,
            forall|c: int| 0 <= c < game@.len() ==> (#[trigger] game@[c]).len() == 0,
    {
        let mut board_state: Vec<Vec<BoardTile>> = Vec::new();
        while board_state.len() < size
            invariant
                board_state@.len() <= size,
                forall|c: int|
                    0 <= c < board_state@.len() ==> (#[trigger] board_state@[c])@.len() == 0,
            decreases size - board_state.len(),
        {
            board_state.push(Vec::new());
        }
        MilkCookieGame { board_state, size }
    }

    /// Replaces the board with a fresh empty board of the same size. Always
    /// succeeds; the size configuration is untouched.
    pub fn reset(&mut self)
        requires
            old(self).wf(),
        ensures
            final(self).wf(),
            final(self)@.len() == old(self)@.len(),
            forall|c: int| 0 <= c < final(self)@.len() ==> (#[trigger] final(self)@[c]).len() == 0,
    {
        let size = self.size;
        *self = MilkCookieGame::new(size);
    }

    /// Drops `tile` into the 1-indexed `column`. Rejects a column outside
    /// `[1, N]` and a column already holding `N` tiles; on success the tile
    /// lands on top of the column's stack and nothing else changes. Whether
    /// the game is already decided is the caller's concern, not this
    /// function's.
    pub fn place(&mut self, tile: BoardTile, column: usize) -> (r: Result<(), Day12AppError>)
        requires
            old(self).wf(),
            tile.is_playable(),
        ensures
            final(self).wf(),
            final(self)@.len() == old(self)@.len(),
            match r {
                Ok(()) => {
                    &&& 1 <= column <= old(self)@.len()
                    &&& old(self)@[column - 1].len() < old(self)@.len()
                    &&& final(self)@ == old(self)@.update(
                        column - 1,
                        old(self)@[column - 1].push(tile),
                    )
                },
                Err(Day12AppError::InvalidColumn) => {
                    &&& !(1 <= column <= old(self)@.len())
                    &&& final(self)@ == old(self)@
                },
                Err(Day12AppError::ColumnFull) => {
                    &&& 1 <= column <= old(self)@.len()
                    &&& old(self)@[column - 1].len() == old(self)@.len()
                    &&& final(self)@ == old(self)@
                },
                Err(_) => false,
            },
    {
        let n = self.board_state.len();
        if column < 1 || column > n {
            return Err(Day12AppError::InvalidColumn);
        }
        let idx = column - 1;
        if self.board_state[idx].len() == n {
            return Err(Day12AppError::ColumnFull);
        }
        self.board_state[idx].push(tile);
        proof {
            assert(self@ =~= old(self)@.update(idx as int, old(self)@[idx as int].push(tile)));
        }
        Ok(())
    }

    /// Whether column `c` holds `N` tiles, every one of kind `tile`.
    fn column_filled_with(&self, c: usize, tile: BoardTile) -> (b: bool)
        requires
            self.wf(),
            c < self@.len(),
        ensures
            b == col_filled_with(self@, c as int, tile),
    {
        let n = self.board_state.len();
        if self.board_state[c].len() != n {
            return false;
        }
        let mut r: usize = 0;
        while r < n
            invariant
                self.wf(),
                c < self@.len(),
                n == self@.len(),
                self@[c as int].len() == n,
                r <= n,
                forall|k: int| 0 <= k < r ==> #[trigger] self@[c as int][k] == tile,
            decreases n - r,
        {
            if self.board_state[c][r] != tile {
                return false;
            }
            r += 1;
        }
        true
    }

    /// The column check: some column is at full height and entirely of
    /// kind `tile`.
    pub fn check_columns(&self, tile: BoardTile) -> (b: bool)
        requires
            self.wf(),
        ensures
            b == col_win(self@, tile),
    {
        let n = self.board_state.len();
        let mut c: usize = 0;
        while c < n
            invariant
                self.wf(),
                n == self@.len(),
                c <= n,
                forall|i: int| 0 <= i < c ==> !col_filled_with(self@, i, tile),
            decreases n - c,
        {
            if self.column_filled_with(c, tile) {
                return true;
            }
            c += 1;
        }
        false
    }

    /// The row check: some height `r` is populated in every column and
    /// every tile at that height is of kind `tile`. A row with any column
    /// shorter than `r + 1` never counts.
    pub fn check_rows(&self, tile: BoardTile) -> (b: bool)
        requires
            self.wf(),
        ensures
            b == row_win(self@, tile),
    {
        let n = self.board_state.len();
        let mut r: usize = 0;
        while r < n
            invariant
                self.wf(),
                n == self@.len(),
                r <= n,
                forall|k: int| 0 <= k < r ==> !row_win_at(self@, k, tile),
            decreases n - r,
        {
            if self.row_filled_with(r, tile) {
                return true;
            }
            r += 1;
        }
        false
    }

    /// Whether height `r` is populated in every column with kind `tile`.
    fn row_filled_with(&self, r: usize, tile: BoardTile) -> (b: bool)
        requires
            self.wf(),
            r < self@.len(),
        ensures
            b == row_win_at(self@, r as int, tile),
    {
        let n = self.board_state.len();
        let mut c: usize = 0;
        while c < n
            invariant
                self.wf(),
                n == self@.len(),
                r < n,
                c <= n,
                forall|i: int|
                    0 <= i < c ==> (#[trigger] self@[i]).len() > r && self@[i][r as int] == tile,
            decreases n - c,
        {
            proof {
                assert(self@[c as int] == self.board_state@[c as int]@);
            }
            if self.board_state[c].len() <= r {
                assert(!row_win_at(self@, r as int, tile));
                return false;
            }
            if self.board_state[c][r] != tile {
                assert(!row_win_at(self@, r as int, tile));
                return false;
            }
            c += 1;
        }
        true
    }

    /// The two fixed diagonal checks: the bottom-left-to-top-right diagonal
    /// and the top-left-to-bottom-right anti-diagonal, each a win only when
    /// all `N` of its cells are present and of kind `tile`.
    pub fn check_diagonals(&self, tile: BoardTile) -> (b: bool)
        requires
            self.wf(),
        ensures
            b == (diag_win(self@, tile) || anti_diag_win(self@, tile)),
    {
        let n = self.board_state.len();
        let mut primary = true;
        let mut i: usize = 0;
        while i < n
            invariant
                self.wf(),
                n == self@.len(),
                i <= n,
                primary == (forall|k: int|
                    0 <= k < i ==> (#[trigger] self@[k]).len() > k && self@[k][k] == tile),
            decreases n - i,
        {
            proof {
                assert(self@[i as int] == self.board_state@[i as int]@);
            }
            if self.board_state[i].len() <= i || self.board_state[i][i] != tile {
                primary = false;
            }
            i += 1;
        }
        if primary {
            return true;
        }
        let mut anti = true;
        let mut i: usize = 0;
        while i < n
            invariant
                self.wf(),
                n == self@.len(),
                i <= n,
                anti == (forall|k: int|
                    0 <= k < i ==> (#[trigger] self@[k]).len() > n - 1 - k && self@[k][n - 1
                        - k] == tile),
            decreases n - i,
        {
            let h = n - 1 - i;
            proof {
                assert(self@[i as int] == self.board_state@[i as int]@);
            }
            if self.board_state[i].len() <= h || self.board_state[i][h] != tile {
                anti = false;
            }
            i += 1;
        }
        anti
    }

    /// True iff every column's height equals `N`: the board is physically
    /// full, independent of whether a line exists.
    pub fn is_game_over(&self) -> (b: bool)
        requires
            self.wf(),
        ensures
            b == board_full(self@),
    {
        let n = self.board_state.len();
        let mut c: usize = 0;
        while c < n
            invariant
                self.wf(),
                n == self@.len(),
                c <= n,
                forall|i: int| 0 <= i < c ==> (#[trigger] self@[i]).len() == n,
            decreases n - c,
        {
            proof {
                assert(self@[c as int] == self.board_state@[c as int]@);
            }
            if self.board_state[c].len() != n {
                assert(!board_full(self@));
                return false;
            }
            c += 1;
        }
        true
    }

    /// Evaluates both tile kinds in a fixed order, `Cookie` before `Milk`,
    /// and returns the first kind with a completed line, or `None` if
    /// neither has one.
    pub fn get_winner(&self) -> (w: Option<BoardTile>)
        requires
            self.wf(),
        ensures
            w == winner(self@),
    {
        if self.check_columns(BoardTile::Cookie) || self.check_rows(BoardTile::Cookie)
            || self.check_diagonals(BoardTile::Cookie) {
            return Some(BoardTile::Cookie);
        }
        if self.check_columns(BoardTile::Milk) || self.check_rows(BoardTile::Milk)
            || self.check_diagonals(BoardTile::Milk) {
            return Some(BoardTile::Milk);
        }
        None
    }

    /// True iff no line is complete yet. Fullness alone does not end play:
    /// a full board without a line still reports `true` here, and the
    /// column-fullness checks are what block further tiles.
    pub fn can_play(&self) -> (b: bool)
        requires
            self.wf(),
        ensures
            b == (winner(self@) is None),
    {
        self.get_winner().is_none()
    }

    /// Handles one external placement request: maps the team token to its
    /// tile kind, consults the terminal status, and delegates to the
    /// placement rule. The status and the new board are exactly
    /// [`place_status`] and [`place_next`] of the request.
    pub fn place_for(&mut self, team: &str, column: usize) -> (r: Result<(), Day12AppError>)
        requires
            old(self).wf(),
        ensures
            final(self).wf(),
            match r {
                Ok(()) => place_status(old(self)@, team@, column as int) is Ok,
                Err(e) => place_status(old(self)@, team@, column as int) == Err::<
                    (),
                    Day12AppError,
                >(e),
            },
            final(self)@ == place_next(old(self)@, team@, column as int),
    {
        let tile = match crate::tile::parse_team(team) {
            None => {
                return Err(Day12AppError::InvalidTeam);
            },
            Some(t) => t,
        };
        if column < 1 || column > self.board_state.len() {
            return Err(Day12AppError::InvalidColumn);
        }
        if !self.can_play() {
            return Err(Day12AppError::GameAlreadyOver);
        }
        self.place(tile, column)
    }
}

} // verus!
