//! The access discipline around one shared board.
//!
//! All callers go through a reader-writer lock whose invariant carries the
//! board's well-formedness: queries acquire shared access, while a
//! placement or a reset holds exclusive access for its whole
//! mutate-and-rerender step, so no caller ever observes a board with a tile
//! appended but the outcome not yet recomputed.

use vstd::prelude::*;
use vstd::rwlock::RwLock;
use vstd::rwlock::RwLockPredicate;

use crate::game::MilkCookieGame;
use crate::game::board_wf;
use crate::game::place_next;
use crate::game::place_status;
use crate::render::render;
use crate::tile::BoardTile;
use crate::tile::Day12AppError;

verus! {

/// The empty board of `n` columns.
pub open spec fn empty_board(n: int) -> Seq<Seq<BoardTile>> {
    Seq::new(n as nat, |c: int| Seq::empty())
}

/// The lock invariant: every board stored in the shared slot is
/// well-formed and of the configured size.
pub struct GameInv {
    pub size: int,
}

impl RwLockPredicate<MilkCookieGame> for GameInv {
    open spec fn inv(self, game: MilkCookieGame) -> bool {
        &&& game.wf()
        &&& game@.len() == self.size
    }
}

/// One shared game instance behind a blocking reader-writer lock.
pub struct ConcurrencyGuard {
    lock: RwLock<MilkCookieGame, GameInv>,
}

impl ConcurrencyGuard {
    /// The board size that every state behind this guard has.
    pub closed spec fn size(self) -> int {
        self.lock.pred().size
    }

    /// Creates a guard around a fresh empty board of `size` columns.
    pub fn new(size: usize) -> (guard: ConcurrencyGuard)
        requires
            1 <= size <= usize::MAX - 2,
        ensures
            guard.size() == size,
    {
        let game = MilkCookieGame::new(size);
        ConcurrencyGuard { lock: RwLock::new(game, Ghost(GameInv { size: size as int })) }
    }

    /// Renders the current board under shared access. The text is the
    /// rendering of some well-formed board of the configured size: the one
    /// held while the read lock was held.
    pub fn query_state(&self) -> (r: String)
        ensures
            exists|b: Seq<Seq<BoardTile>>|
                {
                    &&& #[trigger] board_wf(b)
                    &&& b.len() == self.size()
                    &&& r@ == render(b)
                },
    {
        let read_handle = self.lock.acquire_read();
        let r = read_handle.borrow().to_string();
        proof {
            let b = read_handle.view()@;
            assert(board_wf(b) && b.len() == self.size() && r@ == render(b));
        }
        read_handle.release_read();
        r
    }

    /// Replaces the board with a fresh empty one of the same size under
    /// exclusive access and returns the rendering of that empty board.
    pub fn reset_state(&self) -> (r: String)
        ensures
            r@ == render(empty_board(self.size())),
    {
        let (mut game, write_handle) = self.lock.acquire_write();
        game.reset();
        let r = game.to_string();
        proof {
            assert(game@ =~~= empty_board(self.size()));
        }
        write_handle.release_write(game);
        r
    }

    /// Handles one placement request under exclusive access: decides the
    /// request against the board held at acquisition, exactly as
    /// [`place_status`] says, and returns the rendering of the board that
    /// [`place_next`] leaves behind.
    pub fn place(&self, team: &str, column: usize) -> (r: (Result<(), Day12AppError>, String))
        ensures
            exists|b: Seq<Seq<BoardTile>>|
                {
                    &&& #[trigger] board_wf(b)
                    &&& b.len() == self.size()
                    &&& match r.0 {
                        Ok(()) => place_status(b, team@, column as int) is Ok,
                        Err(e) => place_status(b, team@, column as int) == Err::<
                            (),
                            Day12AppError,
                        >(e),
                    }
                    &&& r.1@ == render(place_next(b, team@, column as int))
                },
    {
        let (mut game, write_handle) = self.lock.acquire_write();
        let ghost b0: Seq<Seq<BoardTile>> = game@;
        let status = game.place_for(team, column);
        let rendered = game.to_string();
        proof {
            assert(board_wf(b0) && b0.len() == self.size() && rendered@ == render(
                place_next(b0, team@, column as int),
            ));
        }
        write_handle.release_write(game);
        (status, rendered)
    }
}

} // verus!
