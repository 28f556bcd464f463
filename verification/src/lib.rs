//! A gravity-drop grid game engine: two players drop tiles into the columns
//! of a square board, and the first completed line (column, row, or one of
//! the two main diagonals) wins.

pub mod game;
pub mod guard;
pub mod laws;
pub mod octets;
pub mod render;
pub mod tile;

pub use game::MilkCookieGame;
pub use guard::ConcurrencyGuard;
pub use octets::EgregiousEncryptionDestinationPacket;
pub use octets::EgregiousEncryptionKeyPacket;
pub use tile::BoardTile;
pub use tile::Day12AppError;
