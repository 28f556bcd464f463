//! The tile alphabet of the board and the request-local error taxonomy.

use vstd::prelude::*;

verus! {

/// One symbol of the rendered board. `Cookie` and `Milk` are the two
/// playable tile kinds; `Wall` and `Blank` exist only for rendering the
/// border and the empty cells, and are never stored in a column.
#[derive(Clone, Copy, Debug, PartialEq, Eq, Structural)]
pub enum BoardTile {
    Wall,
    Blank,
    Cookie,
    Milk,
}

/// Why a placement request was rejected. Every rejection is deterministic
/// and request-local; none of them mutates the board.
#[derive(Clone, Copy, Debug, PartialEq, Eq, Structural)]
pub enum Day12AppError {
    /// The team token was neither `"cookie"` nor `"milk"`.
    InvalidTeam,
    /// The 1-indexed column was outside `[1, N]`.
    InvalidColumn,
    /// The target column already holds N tiles.
    ColumnFull,
    /// A line is already complete, so no further tile may land.
    GameAlreadyOver,
}

impl BoardTile {
    /// A tile kind that a player can drop: `Cookie` or `Milk`.
    pub open spec fn is_playable(self) -> bool {
        self is Cookie || self is Milk
    }

    /// The glyph that stands for this symbol in the rendered board.
    pub open spec fn glyph(self) -> char {
        match self {
            BoardTile::Wall => '\u{2b1c}',
            BoardTile::Blank => '\u{2b1b}',
            BoardTile::Cookie => '\u{1f36a}',
            BoardTile::Milk => '\u{1f95b}',
        }
    }

    /// The exhaustive symbol-to-glyph table, one string of one character
    /// per symbol.
    pub fn glyph_str(self) -> (s: &'static str)
        ensures
            s@ == seq![self.glyph()],
    {
        proof {
            reveal_strlit("\u{2b1c}");
            reveal_strlit("\u{2b1b}");
            reveal_strlit("\u{1f36a}");
            reveal_strlit("\u{1f95b}");
        }
        let s = match self {
            BoardTile::Wall => "\u{2b1c}",
            BoardTile::Blank => "\u{2b1b}",
            BoardTile::Cookie => "\u{1f36a}",
            BoardTile::Milk => "\u{1f95b}",
        };
        proof {
            assert(s@ =~= seq![self.glyph()]);
        }
        s
    }
}

/// The tile kind that an external team token names: `"cookie"` and `"milk"`
/// map to their tiles, case-sensitively and exactly; every other token is
/// unknown.
pub open spec fn team_tile(team: Seq<char>) -> Option<BoardTile> {
    if team == "cookie"@ {
        Some(BoardTile::Cookie)
    } else if team == "milk"@ {
        Some(BoardTile::Milk)
    } else {
        None
    }
}

/// Maps a team token to its tile kind, or reports an unknown team.
pub fn parse_team(team: &str) -> (t: Option<BoardTile>)
    ensures
        t == team_tile(team@),
{
    proof {
        reveal_strlit("cookie");
        reveal_strlit("milk");
    }
    let n = team.unicode_len();
    if n == 6 && team.get_char(0) == 'c' && team.get_char(1) == 'o' && team.get_char(2) == 'o'
        && team.get_char(3) == 'k' && team.get_char(4) == 'i' && team.get_char(5) == 'e' {
        proof {
            assert(team@ =~= "cookie"@);
        }
        Some(BoardTile::Cookie)
    } else if n == 4 && team.get_char(0) == 'm' && team.get_char(1) == 'i'
        && team.get_char(2) == 'l' && team.get_char(3) == 'k' {
        proof {
            assert(team@ =~= "milk"@);
        }
        Some(BoardTile::Milk)
    } else {
        proof {
            // A token equal to either literal would have passed the
            // character checks above.
            if team@ == "cookie"@ {
                assert(team@.len() == 6);
                assert(team@[0] == 'c' && team@[1] == 'o' && team@[2] == 'o' && team@[3] == 'k'
                    && team@[4] == 'i' && team@[5] == 'e');
            }
            if team@ == "milk"@ {
                assert(team@.len() == 4);
                assert(team@[0] == 'm' && team@[1] == 'i' && team@[2] == 'l' && team@[3] == 'k');
            }
        }
        None
    }
}

} // verus!
