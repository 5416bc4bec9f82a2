//! A player stored in account data: a little-endian id and a position code.
use vstd::prelude::*;
use crate::bytes::{u16_le_at, copied_range, read_u16_le, copy_range};
use crate::position::{Position, position_code};

verus! {

/// A view of the player stored at `offset` of some account data: bytes `offset..offset + 2`
/// hold the id (little-endian), byte `offset + 2` the position code.
#[derive(Clone, Copy, Debug, PartialEq, Eq)]
pub struct Player {
    pub offset: usize,
}

impl Player {
    /// Bytes of a stored player.
    pub const LEN: usize = 3;

    /// The player's id.
    pub fn get_id(&self, data: &[u8]) -> (id: u16)
        requires
            self.offset + 3 <= data.len(),
        ensures
            id == u16_le_at(data@, self.offset as int),
            id as int == data@[self.offset as int] as int + 256 * (data@[self.offset + 1] as int),
    {
        read_u16_le(data, self.offset)
    }

    /// The player's position; the stored code must be a valid one.
    pub fn get_position(&self, data: &[u8]) -> (p: Position)
        requires
            self.offset + 3 <= data.len(),
            data@[self.offset + 2] < 12,
        ensures
            position_code(p) == data@[self.offset + 2],
    {
        match Position::try_from_primitive(data[self.offset + 2]) {
            Some(p) => p,
            None => Position::Uninitialized,
        }
    }

    /// Copies the player's bytes from `src` into `dst` at this player's own offset; `to`
    /// only names the destination view and its offset is not used.
    pub fn copy_to(&self, src: &[u8], to: &Player, dst: &mut [u8])
        requires
            self.offset + 3 <= src.len(),
            self.offset + 3 <= old(dst).len(),
        ensures
            copied_range(old(dst)@, final(dst)@, src@, self.offset as int, 3),
    {
        copy_range(src, dst, self.offset, 3);
    }
}

} // verus!
