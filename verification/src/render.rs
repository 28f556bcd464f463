//! The deterministic textual rendering of a board.
//!
//! For each row from the top height `N-1` down to 0: a border glyph, then
//! for each column the tile at that height if present or the blank glyph,
//! then a border glyph and a newline. A full-width border line follows, and
//! then a winner announcement if a winner exists, a no-winner line if the
//! board is full without a winner, or nothing while play is ongoing.

use vstd::prelude::*;

use crate::game::MilkCookieGame;
use crate::game::board_full;
use crate::game::winner;
use crate::tile::BoardTile;

verus! {

/// The glyph shown at column `c`, height `h`: the tile there if the column
/// reaches that height, else the blank glyph.
pub open spec fn cell_glyph(b: Seq<Seq<BoardTile>>, c: int, h: int) -> char {
    if h < b[c].len() {
        b[c][h].glyph()
    } else {
        BoardTile::Blank.glyph()
    }
}

/// One rendered board line: border, the cells of height `h` left to right,
/// border, newline.
pub open spec fn row_chars(b: Seq<Seq<BoardTile>>, h: int) -> Seq<char> {
    seq![BoardTile::Wall.glyph()] + Seq::new(b.len(), |c: int| cell_glyph(b, c, h)) + seq![
        BoardTile::Wall.glyph(),
        '\n',
    ]
}

/// The rendered board lines for heights `h` down to 0, top line first.
pub open spec fn rows_chars_down(b: Seq<Seq<BoardTile>>, h: int) -> Seq<char>
    decreases h + 1,
{
    if h < 0 {
        Seq::empty()
    } else {
        row_chars(b, h) + rows_chars_down(b, h - 1)
    }
}

/// The closing full-width border line: `n + 2` border glyphs and a newline.
pub open spec fn border_chars(n: int) -> Seq<char> {
    Seq::new((n + 2) as nat, |i: int| BoardTile::Wall.glyph()) + seq!['\n']
}

/// The outcome annotation: the winner's glyph and an announcement if a
/// winner exists, a no-winner line if the board is full without one, and
/// nothing while play is still ongoing.
pub open spec fn outcome_chars(b: Seq<Seq<BoardTile>>) -> Seq<char> {
    match winner(b) {
        Some(t) => seq![t.glyph()] + " wins!\n"@,
        None => if board_full(b) {
            "No winner.\n"@
        } else {
            Seq::empty()
        },
    }
}

/// The complete rendering of a board: its lines from the top down, the
/// closing border, and the outcome annotation.
pub open spec fn render(b: Seq<Seq<BoardTile>>) -> Seq<char> {
    rows_chars_down(b, b.len() - 1) + border_chars(b.len() as int) + outcome_chars(b)
}

impl MilkCookieGame {
    /// Renders the board exactly as [`render`] describes it.
    pub fn to_string(&self) -> (s: String)
        requires
            self.wf(),
        ensures
            s@ == render(self@),
    {
        let n = self.board_state.len();
        let mut board = String::new();
        let mut row: usize = 0;
        while row < n
            invariant
                self.wf(),
                n == self@.len(),
                row <= n,
                board@ + rows_chars_down(self@, n - 1 - row) =~= rows_chars_down(self@, n - 1),
            decreases n - row,
        {
            let h = n - 1 - row;
            let ghost line_start: Seq<char> = board@;
            board.append(BoardTile::Wall.glyph_str());
            let ghost cells_start: Seq<char> = board@;
            let mut c: usize = 0;
            while c < n
                invariant
                    self.wf(),
                    n == self@.len(),
                    h < n,
                    c <= n,
                    board@ =~= cells_start + Seq::new(
                        c as nat,
                        |i: int| cell_glyph(self@, i, h as int),
                    ),
                decreases n - c,
            {
                proof {
                    assert(self@[c as int] == self.board_state@[c as int]@);
                }
                if self.board_state[c].len() > h {
                    let cell = self.board_state[c][h];
                    board.append(cell.glyph_str());
                } else {
                    board.append(BoardTile::Blank.glyph_str());
                }
                proof {
                    assert(Seq::new((c + 1) as nat, |i: int| cell_glyph(self@, i, h as int))
                        =~= Seq::new(c as nat, |i: int| cell_glyph(self@, i, h as int)) + seq![
                        cell_glyph(self@, c as int, h as int),
                    ]);
                }
                c += 1;
            }
            board.append(BoardTile::Wall.glyph_str());
            board.append("\n");
            proof {
                reveal_strlit("\n");
                assert(board@ =~= line_start + row_chars(self@, h as int));
                assert(rows_chars_down(self@, h as int) == row_chars(self@, h as int)
                    + rows_chars_down(self@, h - 1));
                assert(board@ + rows_chars_down(self@, h - 1) =~= rows_chars_down(
                    self@,
                    n - 1,
                ));
            }
            row += 1;
        }
        let ghost body_end: Seq<char> = board@;
        proof {
            assert(body_end =~= rows_chars_down(self@, n - 1));
        }
        let mut i: usize = 0;
        while i < n + 2
            invariant
                self.wf(),
                n == self@.len(),
                i <= n + 2,
                board@ =~= body_end + Seq::new(i as nat, |k: int| BoardTile::Wall.glyph()),
            decreases n + 2 - i,
        {
            board.append(BoardTile::Wall.glyph_str());
            proof {
                assert(Seq::new((i + 1) as nat, |k: int| BoardTile::Wall.glyph()) =~= Seq::new(
                    i as nat,
                    |k: int| BoardTile::Wall.glyph(),
                ) + seq![BoardTile::Wall.glyph()]);
            }
            i += 1;
        }
        board.append("\n");
        proof {
            reveal_strlit("\n");
            assert(board@ =~= body_end + border_chars(n as int));
        }
        match self.get_winner() {
            Some(t) => {
                board.append(t.glyph_str());
                board.append(" wins!\n");
            },
            None => {
                if self.is_game_over() {
                    board.append("No winner.\n");
                }
            },
        }
        proof {
            assert(board@ =~= render(self@));
        }
        board
    }
}

} // verus!
