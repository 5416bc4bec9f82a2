//! A swap proposal stored in account data: two little-endian player ids and a flag.
use vstd::prelude::*;
use crate::bytes::{
    u16_le_at, put_u16_le, copied_range, read_u16_le, write_u16_le, copy_range,
    unpack_is_initialized, lemma_u16_le_roundtrip,
};

verus! {

/// The fields of a swap proposal as stored: the player offered, the player wanted, and the
/// raw initialization flag.
#[derive(Clone, Copy, Debug, PartialEq, Eq)]
pub struct SwapProposalValue {
    pub give_player_id: u16,
    pub want_player_id: u16,
    pub is_initialized: u8,
}

/// The proposal stored at `at`: bytes `at..at + 2` the player offered, `at + 2..at + 4` the
/// player wanted (both little-endian), `at + 4` the initialization flag.
pub open spec fn proposal_at(data: Seq<u8>, at: int) -> SwapProposalValue {
    SwapProposalValue {
        give_player_id: u16_le_at(data, at),
        want_player_id: u16_le_at(data, at + 2),
        is_initialized: data[at + 4],
    }
}

/// `after` and `before` have the same length and agree outside `at..at + len`.
pub open spec fn same_outside(before: Seq<u8>, after: Seq<u8>, at: int, len: int) -> bool {
    &&& after.len() == before.len()
    &&& forall|k: int| 0 <= k < before.len() && !(at <= k < at + len) ==> after[k] == before[k]
}

/// The byte that stores a flag.
pub open spec fn flag_byte(value: bool) -> u8 {
    if value {
        1
    } else {
        0
    }
}

/// The stored flag reads back as the value written: it is 0 or 1, and 1 exactly for `true`.
pub proof fn lemma_flag_byte_roundtrip(value: bool)
    ensures
        flag_byte(value) <= 1,
        (flag_byte(value) == 1) == value,
{
}

/// A view of the swap proposal stored at `offset` of some account data.
#[derive(Clone, Copy, Debug, PartialEq, Eq)]
pub struct SwapProposal {
    pub offset: usize,
}

impl SwapProposal {
    /// Bytes of a stored proposal.
    pub const LEN: usize = 5;

    /// The proposal lies inside `data`.
    pub open spec fn fits(&self, data: Seq<u8>) -> bool {
        self.offset + 5 <= data.len()
    }

    /// The fields stored for this proposal in `data`.
    pub open spec fn value(&self, data: Seq<u8>) -> SwapProposalValue {
        proposal_at(data, self.offset as int)
    }

    /// The player offered.
    pub fn get_give_player_id(&self, data: &[u8]) -> (id: u16)
        requires
            self.offset + 5 <= data.len(),
        ensures
            id == self.value(data@).give_player_id,
            id as int == data@[self.offset as int] as int + 256 * (data@[self.offset + 1] as int),
    {
        read_u16_le(data, self.offset)
    }

    /// Stores the player offered; the other fields and the rest of `data` are unchanged.
    pub fn set_give_player_id(&self, data: &mut [u8], value: u16)
        requires
            self.offset + 5 <= old(data).len(),
        ensures
            final(data)@ == put_u16_le(old(data)@, self.offset as int, value),
            final(data)@[self.offset as int] as int == value as int % 256,
            final(data)@[self.offset + 1] as int == value as int / 256,
            self.value(final(data)@) == (SwapProposalValue {
                give_player_id: value,
                ..self.value(old(data)@)
            }),
            same_outside(old(data)@, final(data)@, self.offset as int, 2),
    {
        write_u16_le(data, self.offset, value);
        proof {
            lemma_u16_le_roundtrip(old(data)@, self.offset as int, value);
        }
    }

    /// The player wanted.
    pub fn get_want_player_id(&self, data: &[u8]) -> (id: u16)
        requires
            self.offset + 5 <= data.len(),
        ensures
            id == self.value(data@).want_player_id,
            id as int == data@[self.offset + 2] as int + 256 * (data@[self.offset + 3] as int),
    {
        read_u16_le(data, self.offset + 2)
    }

    /// Stores the player wanted; the other fields and the rest of `data` are unchanged.
    pub fn set_want_player_id(&self, data: &mut [u8], value: u16)
        requires
            self.offset + 5 <= old(data).len(),
        ensures
            final(data)@ == put_u16_le(old(data)@, self.offset + 2, value),
            final(data)@[self.offset + 2] as int == value as int % 256,
            final(data)@[self.offset + 3] as int == value as int / 256,
            self.value(final(data)@) == (SwapProposalValue {
                want_player_id: value,
                ..self.value(old(data)@)
            }),
            same_outside(old(data)@, final(data)@, self.offset + 2, 2),
    {
        write_u16_le(data, self.offset + 2, value);
        proof {
            lemma_u16_le_roundtrip(old(data)@, self.offset + 2, value);
        }
    }

    /// Whether the proposal is initialized; the flag must be 0 or 1.
    pub fn get_is_initialized(&self, data: &[u8]) -> (flag: bool)
        requires
            self.offset + 5 <= data.len(),
            self.value(data@).is_initialized <= 1,
        ensures
            flag == (self.value(data@).is_initialized == 1),
    {
        match unpack_is_initialized(data[self.offset + 4]) {
            Ok(flag) => flag,
            Err(_) => false,
        }
    }

    /// Stores the initialization flag as 0 or 1; the rest of `data` is unchanged.
    pub fn set_is_initialized(&self, data: &mut [u8], value: bool)
        requires
            self.offset + 5 <= old(data).len(),
        ensures
            final(data)@ == old(data)@.update(self.offset + 4, flag_byte(value)),
            self.value(final(data)@) == (SwapProposalValue {
                is_initialized: flag_byte(value),
                ..self.value(old(data)@)
            }),
            same_outside(old(data)@, final(data)@, self.offset + 4, 1),
    {
        let byte: u8 = if value {
            1
        } else {
            0
        };
        data[self.offset + 4] = byte;
    }

    /// Copies the proposal's bytes from `src` into `dst` at this proposal's own offset;
    /// `to` only names the destination view and its offset is not used.
    pub fn copy_to(&self, src: &[u8], to: &SwapProposal, dst: &mut [u8])
        requires
            self.offset + 5 <= src.len(),
            self.offset + 5 <= old(dst).len(),
        ensures
            copied_range(old(dst)@, final(dst)@, src@, self.offset as int, 5),
            self.value(final(dst)@) == self.value(src@),
    {
        copy_range(src, dst, self.offset, 5);
    }
}

} // verus!
