//! Core rules of a chess move generator: board geometry, move encoding,
//! pseudo-legal move generation, check detection, a reversible make/unmake
//! protocol, and a perft node counter that exercises the whole pipeline.

pub mod board;
pub mod check;
pub mod iter;
pub mod laws;
pub mod movegen;
pub mod moves;
pub mod perft;
pub mod piece;
pub mod setup;
pub mod square;

pub use board::Board;
pub use board::CastleRights;
pub use board::MakeMoveModification;
pub use board::Side;
pub use iter::SquareIterator;
pub use moves::Flags;
pub use moves::Move;
pub use piece::Color;
pub use piece::Kind;
pub use piece::Piece;
pub use setup::default_setup;
pub use square::Direction;
pub use square::Square;
