//! Move encoding: a move is a (from, to, flags) triple whose 4-bit flags
//! field selects one of 16 move categories.
//!
//! The four bits are promotion, capture and two "special" bits; the 16
//! canonical combinations below cover quiet moves, captures, the two castle
//! sides, the pawn double push, the en-passant capture, and the four
//! promotion pieces both plain and as captures.

use vstd::prelude::*;

use crate::square::Square;

verus! {

/// Flag bit marking a promotion.
pub const PROMOTION: u8 = 0b1000;

/// Flag bit marking a capture.
pub const CAPTURE: u8 = 0b0100;

/// First special flag bit.
pub const SPECIAL1: u8 = 0b0010;

/// Second special flag bit.
pub const SPECIAL2: u8 = 0b0001;

/// A quiet move: no flag bit set.
pub const QUIET: u8 = 0b0000;

/// A pawn double push: `SPECIAL2` alone. A pawn double push is
/// recognized by exact equality, never by a bit test.
pub const PAWN_SPRINT: u8 = 0b0001;

/// A kingside castle: `SPECIAL1` alone.
pub const CASTLE_KING: u8 = 0b0010;

/// A queenside castle: `SPECIAL1 | SPECIAL2`.
pub const CASTLE_QUEEN: u8 = 0b0011;

/// An en-passant capture: `CAPTURE | SPECIAL1`.
pub const EP_CAPTURE: u8 = 0b0110;

/// A promotion to a knight: `PROMOTION` alone.
pub const PROMOTION_KNIGHT: u8 = 0b1000;

/// A promotion to a bishop: `PROMOTION | SPECIAL2`.
pub const PROMOTION_BISHOP: u8 = 0b1001;

/// A promotion to a rook: `PROMOTION | SPECIAL1`.
pub const PROMOTION_ROOK: u8 = 0b1010;

/// A promotion to a queen: `PROMOTION | SPECIAL1 | SPECIAL2`.
pub const PROMOTION_QUEEN: u8 = 0b1011;

/// Combining two values of the 4-bit tag space stays in the tag space.
pub proof fn lemma_flag_or_in_tag_space(x: u8, y: u8)
    requires
        x < 16,
        y < 16,
    ensures
        (x | y) < 16,
{
    assert((x | y) < 16) by (bit_vector)
        requires
            x < 16 && y < 16,
    ;
}

/// The 4-bit flags field of a move.
#[derive(Clone, Copy, PartialEq, Eq, Structural, Debug)]
pub struct Flags {
    pub bits: u8,
}

impl Flags {
    /// The flags fit in the 4-bit tag space.
    pub open spec fn wf(self) -> bool {
        self.bits < 16
    }

    /// The capture bit is set.
    pub open spec fn is_capture_spec(self) -> bool {
        self.bits & CAPTURE == CAPTURE
    }

    /// The flags are exactly the en-passant capture: the capture bit and the
    /// first special bit, and nothing else.
    pub open spec fn is_en_passant_spec(self) -> bool {
        self.bits == EP_CAPTURE
    }

    /// The promotion bit is set.
    pub open spec fn is_promotion_spec(self) -> bool {
        self.bits & PROMOTION == PROMOTION
    }

    /// The flags are exactly the pawn double push: a plain single push must
    /// never be confused with a double push, so this is an exact match.
    pub open spec fn is_pawn_sprint_spec(self) -> bool {
        self.bits == PAWN_SPRINT
    }

    /// Builds a flags value from its 4 bits.
    pub fn new(bits: u8) -> (r: Flags)
        requires
            bits < 16,
        ensures
            r == (Flags { bits }),
            r.wf(),
    {
        Flags { bits }
    }
}

/// A move: origin square, destination square, and the 4-bit category flags.
/// Equality is structural.
#[derive(Clone, Copy, PartialEq, Eq, Structural, Debug)]
pub struct Move {
    pub from: Square,
    pub to: Square,
    pub flags: Flags,
}

impl Move {
    /// Both squares lie on the board and the flags fit the tag space.
    pub open spec fn wf(self) -> bool {
        self.from.wf() && self.to.wf() && self.flags.wf()
    }

    /// Builds a move from origin, destination and flags.
    pub fn new(from: Square, to: Square, flags: Flags) -> (r: Move)
        ensures
            r == (Move { from, to, flags }),
    {
        Move { from, to, flags }
    }

    /// The move captures: its capture bit is set.
    pub fn is_capture(&self) -> (r: bool)
        ensures
            r == self.flags.is_capture_spec(),
    {
        self.flags.bits & CAPTURE == CAPTURE
    }

    /// The move is an en-passant capture: exactly the capture bit and the
    /// first special bit.
    pub fn is_en_passant(&self) -> (r: bool)
        ensures
            r == self.flags.is_en_passant_spec(),
    {
        self.flags.bits == EP_CAPTURE
    }

    /// The move promotes: its promotion bit is set.
    pub fn is_promotion(&self) -> (r: bool)
        ensures
            r == self.flags.is_promotion_spec(),
    {
        self.flags.bits & PROMOTION == PROMOTION
    }

    /// The move is a pawn double push: exactly the pawn-sprint flags.
    pub fn is_pawn_sprint(&self) -> (r: bool)
        ensures
            r == self.flags.is_pawn_sprint_spec(),
    {
        self.flags.bits == PAWN_SPRINT
    }

    /// The origin square.
    pub fn from(&self) -> (r: Square)
        ensures
            r == self.from,
    {
        self.from
    }

    /// The destination square.
    pub fn to(&self) -> (r: Square)
        ensures
            r == self.to,
    {
        self.to
    }
}

} // verus!
