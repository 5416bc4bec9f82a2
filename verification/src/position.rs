//! Player positions and their one-byte codes.
use vstd::prelude::*;

verus! {

/// A player's position; the code of each is its place in this list, from 0.
#[derive(Clone, Copy, Debug, PartialEq, Eq, Structural)]
pub enum Position {
    Uninitialized,
    QB,
    RB,
    WR,
    TE,
    K,
    D,
    LB,
    DL,
    DB,
    OL,
    P,
}

/// The byte code of a position.
pub open spec fn position_code(p: Position) -> u8 {
    match p {
        Position::Uninitialized => 0,
        Position::QB => 1,
        Position::RB => 2,
        Position::WR => 3,
        Position::TE => 4,
        Position::K => 5,
        Position::D => 6,
        Position::LB => 7,
        Position::DL => 8,
        Position::DB => 9,
        Position::OL => 10,
        Position::P => 11,
    }
}

impl Position {
    /// The position with this code, if the code is below `NUM_POSITIONS`.
    pub fn try_from_primitive(code: u8) -> (r: Option<Position>)
        ensures
            r is Some <==> code < 12,
            r matches Some(p) ==> position_code(p) == code,
            code == 0 ==> r == Some(Position::Uninitialized),
            code == 1 ==> r == Some(Position::QB),
            code == 2 ==> r == Some(Position::RB),
            code == 3 ==> r == Some(Position::WR),
            code == 4 ==> r == Some(Position::TE),
            code == 5 ==> r == Some(Position::K),
            code == 6 ==> r == Some(Position::D),
            code == 7 ==> r == Some(Position::LB),
            code == 8 ==> r == Some(Position::DL),
            code == 9 ==> r == Some(Position::DB),
            code == 10 ==> r == Some(Position::OL),
            code == 11 ==> r == Some(Position::P),
    {
        match code {
            0 => Some(Position::Uninitialized),
            1 => Some(Position::QB),
            2 => Some(Position::RB),
            3 => Some(Position::WR),
            4 => Some(Position::TE),
            5 => Some(Position::K),
            6 => Some(Position::D),
            7 => Some(Position::LB),
            8 => Some(Position::DL),
            9 => Some(Position::DB),
            10 => Some(Position::OL),
            11 => Some(Position::P),
            _ => None,
        }
    }

    /// The code of the position.
    pub fn to_primitive(&self) -> (code: u8)
        ensures
            code == position_code(*self),
            code < 12,
    {
        match self {
            Position::Uninitialized => 0,
            Position::QB => 1,
            Position::RB => 2,
            Position::WR => 3,
            Position::TE => 4,
            Position::K => 5,
            Position::D => 6,
            Position::LB => 7,
            Position::DL => 8,
            Position::DB => 9,
            Position::OL => 10,
            Position::P => 11,
        }
    }
}

/// Codes and positions correspond one to one: a position's code decodes back to it, and
/// the codes are exactly the numbers below `NUM_POSITIONS`.
/// Each position's code is its place in the declaration, counting from 0: Uninitialized 0,
/// QB 1, RB 2, WR 3, TE 4, K 5, D 6, LB 7, DL 8, DB 9, OL 10, P 11.
pub proof fn lemma_position_code_is_declaration_index()
    ensures
        position_code(Position::Uninitialized) == 0,
        position_code(Position::QB) == 1,
        position_code(Position::RB) == 2,
        position_code(Position::WR) == 3,
        position_code(Position::TE) == 4,
        position_code(Position::K) == 5,
        position_code(Position::D) == 6,
        position_code(Position::LB) == 7,
        position_code(Position::DL) == 8,
        position_code(Position::DB) == 9,
        position_code(Position::OL) == 10,
        position_code(Position::P) == 11,
{
}

pub proof fn lemma_position_code_bijective(p: Position, q: Position)
    ensures
        position_code(p) < crate::consts::NUM_POSITIONS,
        position_code(p) == position_code(q) ==> p == q,
{
}

} // verus!
