//! General laws of the engine, stated over the board model and proved once
//! and for all. Each law holds for every board size `N >= 1` and every
//! board reachable through the engine's operations.

use vstd::prelude::*;

use crate::game::anti_diag_win;
use crate::game::board_full;
use crate::game::board_wf;
use crate::game::col_filled_with;
use crate::game::col_win;
use crate::game::diag_win;
use crate::game::place_next;
use crate::game::place_status;
use crate::game::row_win;
use crate::game::row_win_at;
use crate::game::winner;
use crate::game::wins;
use crate::tile::BoardTile;
use crate::tile::Day12AppError;
use crate::tile::team_tile;

verus! {

/// On a board whose columns are all empty, no tile kind has a completed
/// line of any of the four forms.
proof fn lemma_empty_cols_no_win(b: Seq<Seq<BoardTile>>, t: BoardTile)
    requires
        b.len() >= 1,
        forall|c: int| 0 <= c < b.len() ==> (#[trigger] b[c]).len() == 0,
    ensures
        !wins(b, t),
{
    assert forall|c: int| 0 <= c < b.len() implies !col_filled_with(b, c, t) by {
        assert(b[c].len() == 0);
    }
    assert(!col_win(b, t));
    assert forall|r: int| 0 <= r < b.len() implies !row_win_at(b, r, t) by {
        assert(b[0].len() == 0);
    }
    assert(!row_win(b, t));
    assert(b[0].len() == 0);
    assert(!diag_win(b, t));
    assert(b[b.len() - 1].len() == 0);
    assert(!anti_diag_win(b, t));
}

/// A freshly constructed or freshly reset board — every column at height
/// 0 — is well-formed, is not physically full, and has no winner, so play
/// is open.
pub proof fn lemma_fresh_board(b: Seq<Seq<BoardTile>>)
    requires
        b.len() >= 1,
        forall|c: int| 0 <= c < b.len() ==> (#[trigger] b[c]).len() == 0,
    ensures
        board_wf(b),
        !board_full(b),
        winner(b) is None,
{
    lemma_empty_cols_no_win(b, BoardTile::Cookie);
    lemma_empty_cols_no_win(b, BoardTile::Milk);
    assert(b[0].len() == 0);
}

/// A lone column being filled with one tile kind decides the game the
/// instant its `N`-th tile lands and not before: while every other column
/// is empty and column `c` holds only tiles of kind `t`, the winner is
/// `t` exactly when the column reaches full height.
pub proof fn lemma_single_column_run(b: Seq<Seq<BoardTile>>, c: int, t: BoardTile)
    requires
        board_wf(b),
        t.is_playable(),
        0 <= c < b.len(),
        forall|r: int| 0 <= r < b[c].len() ==> #[trigger] b[c][r] == t,
        forall|j: int| 0 <= j < b.len() && j != c ==> (#[trigger] b[j]).len() == 0,
    ensures
        winner(b) == if b[c].len() == b.len() {
            Some(t)
        } else {
            None::<BoardTile>
        },
{
    let n = b.len() as int;
    let u = if t is Cookie {
        BoardTile::Milk
    } else {
        BoardTile::Cookie
    };
    // The other kind has no tile on the board at all, so it cannot win.
    assert forall|j: int| 0 <= j < n implies !col_filled_with(b, j, u) by {
        if j == c {
            if b[c].len() == n {
                assert(b[c][0] == t);
            }
        } else {
            assert(b[j].len() == 0);
        }
    }
    assert(!col_win(b, u));
    assert forall|r: int| 0 <= r < n implies !row_win_at(b, r, u) by {
        if b[c].len() > r {
            assert(b[c][r] == t);
        }
    }
    assert(!row_win(b, u));
    assert(!diag_win(b, u)) by {
        if b[c].len() > c {
            assert(b[c][c] == t);
        }
    }
    assert(!anti_diag_win(b, u)) by {
        if b[c].len() > n - 1 - c {
            assert(b[c][n - 1 - c] == t);
        }
    }
    if b[c].len() == n {
        assert(col_filled_with(b, c, t));
        assert(col_win(b, t));
    } else {
        // The run is still short, so kind `t` has no completed line
        // either: its column is short and every other line crosses an
        // empty column (or, on a one-column board, the short column).
        assert forall|j: int| 0 <= j < n implies !col_filled_with(b, j, t) by {
            if j != c {
                assert(b[j].len() == 0);
            }
        }
        assert(!col_win(b, t));
        assert forall|r: int| 0 <= r < n implies !row_win_at(b, r, t) by {
            if n >= 2 {
                let j: int = if c == 0 {
                    1
                } else {
                    0
                };
                assert(b[j].len() == 0);
            } else {
                assert(b[c].len() == 0);
            }
        }
        assert(!row_win(b, t));
        assert(!diag_win(b, t)) by {
            if n >= 2 {
                let j: int = if c == 0 {
                    1
                } else {
                    0
                };
                assert(b[j].len() == 0);
            } else {
                assert(b[0].len() == 0);
            }
        }
        assert(!anti_diag_win(b, t)) by {
            if n >= 2 {
                let j: int = if c == 0 {
                    1
                } else {
                    0
                };
                assert(b[j].len() == 0);
            } else {
                assert(b[0].len() == 0);
            }
        }
    }
}

/// Once every column has reached height `r + 1` with tile kind `t` at
/// height `r`, the row is a completed line and the game is decided,
/// however the row was built up.
pub proof fn lemma_full_row_wins(b: Seq<Seq<BoardTile>>, r: int, t: BoardTile)
    requires
        board_wf(b),
        0 <= r < b.len(),
        forall|c: int| 0 <= c < b.len() ==> (#[trigger] b[c]).len() > r && b[c][r] == t,
    ensures
        row_win_at(b, r, t),
        wins(b, t),
        winner(b) is Some,
{
    assert(row_win_at(b, r, t));
    assert(row_win(b, t));
}

/// A row with one column short of height `r + 1` never reports a win,
/// even if every tile that does exist in the row matches.
pub proof fn lemma_short_column_blocks_row(b: Seq<Seq<BoardTile>>, r: int, t: BoardTile, c: int)
    requires
        0 <= c < b.len(),
        b[c].len() <= r,
    ensures
        !row_win_at(b, r, t),
{
}

/// Filling the bottom-left-to-top-right diagonal with one tile kind
/// completes a line and decides the game.
pub proof fn lemma_main_diagonal_wins(b: Seq<Seq<BoardTile>>, t: BoardTile)
    requires
        board_wf(b),
        forall|i: int| 0 <= i < b.len() ==> (#[trigger] b[i]).len() > i && b[i][i] == t,
    ensures
        diag_win(b, t),
        wins(b, t),
        winner(b) is Some,
{
}

/// Filling the top-left-to-bottom-right anti-diagonal with one tile kind
/// completes a line and decides the game.
pub proof fn lemma_anti_diagonal_wins(b: Seq<Seq<BoardTile>>, t: BoardTile)
    requires
        board_wf(b),
        forall|i: int|
            0 <= i < b.len() ==> (#[trigger] b[i]).len() > b.len() - 1 - i && b[i][b.len() - 1
                - i] == t,
    ensures
        anti_diag_win(b, t),
        wins(b, t),
        winner(b) is Some,
{
}

/// Once a line is complete, every further placement request — however
/// valid its team and column — is rejected as game-over and leaves the
/// board unchanged; only a reset reopens play.
pub proof fn lemma_game_over_blocks_placement(b: Seq<Seq<BoardTile>>, team: Seq<char>, column: int)
    requires
        winner(b) is Some,
        team_tile(team) is Some,
        1 <= column <= b.len(),
    ensures
        place_status(b, team, column) == Err::<(), Day12AppError>(Day12AppError::GameAlreadyOver),
        place_next(b, team, column) == b,
{
}

} // verus!
