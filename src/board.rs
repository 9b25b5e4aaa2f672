use vstd::prelude::*;

verus! {

/// The two sides of a chess game.
#[derive(Clone, Copy, PartialEq, Eq, Structural, Debug)]
pub enum Side {
    White,
    Black,
}

/// The kind of a chess piece.
#[derive(Clone, Copy, PartialEq, Eq, Structural, Debug)]
pub enum Role {
    Pawn,
    Knight,
    Bishop,
    Rook,
    Queen,
    King,
}

/// A piece of one side standing on the board.
#[derive(Clone, Copy, PartialEq, Eq, Structural, Debug)]
pub struct Piece {
    pub side: Side,
    pub role: Role,
}

/// Direction of a promoting pawn, seen from the side that moves it.
#[derive(Clone, Copy, PartialEq, Eq, Structural, Debug)]
pub enum Direction {
    Left,
    Center,
    Right,
}

/// A fully specified move, ready to be played on a position.
/// Squares are indices 0..64, rank-major from a1.
#[derive(Clone, Copy, PartialEq, Eq, Structural, Debug)]
pub enum MoveDescriptor {
    Normal { role: Role, from: u8, to: u8, capture: Option<Role>, promotion: Option<Role> },
    Castle { king: u8, rook: u8 },
    EnPassant { from: u8, to: u8 },
}

/// Everything that can go wrong while decoding a move stream.
#[derive(Clone, Copy, PartialEq, Eq, Structural, Debug)]
pub enum DecodeError {
    /// A character outside both token alphabets.
    UnknownToken,
    /// One token is left over where a ply needs two.
    OddTokenStream,
    /// The source square of a ply holds no piece.
    EmptySourceSquare,
    /// The starting position could not be read as FEN.
    InvalidStartingPosition,
    /// The clock list does not have one entry per ply.
    TimestampCountMismatch,
    /// The clock list is not a comma-separated list of integers.
    InvalidTimestamp,
    /// The rules engine refuses the decoded move.
    IllegalMove,
}

pub open spec fn file_of(sq: int) -> int {
    sq % 8
}

pub open spec fn rank_of(sq: int) -> int {
    sq / 8
}

/// The number the rules engine gives each role (pawn 1 up to king 6).
pub open spec fn role_code(r: Role) -> u8 {
    match r {
        Role::Pawn => 1,
        Role::Knight => 2,
        Role::Bishop => 3,
        Role::Rook => 4,
        Role::Queen => 5,
        Role::King => 6,
    }
}

/// The role that carries a given engine number.
pub open spec fn role_of_code(c: u8) -> Role {
    if c == 1 {
        Role::Pawn
    } else if c == 2 {
        Role::Knight
    } else if c == 3 {
        Role::Bishop
    } else if c == 4 {
        Role::Rook
    } else if c == 5 {
        Role::Queen
    } else {
        Role::King
    }
}

impl Role {
    pub fn code(self) -> (r: u8)
        ensures
            r == role_code(self),
            1 <= r <= 6,
            role_of_code(r) == self,
    {
        match self {
            Role::Pawn => 1,
            Role::Knight => 2,
            Role::Bishop => 3,
            Role::Rook => 4,
            Role::Queen => 5,
            Role::King => 6,
        }
    }

    pub fn from_code(c: u8) -> (r: Role)
        requires
            1 <= c <= 6,
        ensures
            r == role_of_code(c),
            role_code(r) == c,
    {
        if c == 1 {
            Role::Pawn
        } else if c == 2 {
            Role::Knight
        } else if c == 3 {
            Role::Bishop
        } else if c == 4 {
            Role::Rook
        } else if c == 5 {
            Role::Queen
        } else {
            Role::King
        }
    }
}

} // verus!
