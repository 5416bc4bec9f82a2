//! The root account: the oracle authority's key, the player table, the league table and an
//! initialization flag, one after the other.
use vstd::prelude::*;
use crate::bytes::{copied_range, copy_range, unpack_is_initialized};
use crate::consts::PUB_KEY_LEN;
use crate::lists::{PlayerList, LeagueList};
use crate::pubkey::{Pubkey, read_pubkey, write_pubkey};
use crate::swap_proposal::{same_outside, flag_byte};

verus! {

/// A view of the root stored at `offset` of some account data.
#[derive(Clone, Copy, Debug, PartialEq, Eq)]
pub struct Root {
    pub offset: usize,
}

impl Root {
    /// Bytes of the root.
    pub const LEN: usize = PUB_KEY_LEN + PlayerList::LEN + LeagueList::LEN + 1;

    /// Where the player table starts.
    pub open spec fn players_offset(&self) -> int {
        self.offset + 32
    }

    /// Where the league table starts.
    pub open spec fn leagues_offset(&self) -> int {
        self.offset + 32 + 301
    }

    /// Where the initialization flag is.
    pub open spec fn flag_offset(&self) -> int {
        self.offset + 32 + 301 + 31571
    }

    /// The key of the oracle authority, stored in the first 32 bytes.
    pub fn get_oracle_authority(&self, data: &[u8]) -> (key: Pubkey)
        requires
            self.offset + Root::LEN <= data.len(),
        ensures
            key.0@ == data@.subrange(self.offset as int, self.offset + 32),
    {
        read_pubkey(data, self.offset)
    }

    /// Stores the key of the oracle authority; the rest of `data` is unchanged.
    pub fn set_oracle_authority(&self, data: &mut [u8], value: Pubkey)
        requires
            self.offset + Root::LEN <= old(data).len(),
        ensures
            final(data)@.subrange(self.offset as int, self.offset + 32) == value.0@,
            same_outside(old(data)@, final(data)@, self.offset as int, 32),
    {
        write_pubkey(data, self.offset, &value);
    }

    /// The player table, right after the key.
    pub fn get_players(&self) -> (players: PlayerList)
        requires
            self.offset + 32 <= usize::MAX,
        ensures
            players.offset == self.players_offset(),
    {
        PlayerList { offset: self.offset + PUB_KEY_LEN }
    }

    /// The league table, right after the player table.
    pub fn get_leagues(&self) -> (leagues: LeagueList)
        requires
            self.offset + 32 + 301 <= usize::MAX,
        ensures
            leagues.offset == self.leagues_offset(),
    {
        LeagueList { offset: self.offset + PUB_KEY_LEN + PlayerList::LEN }
    }

    /// Whether the root is initialized; the flag, the last byte of the root, must be 0 or 1.
    pub fn get_is_initialized(&self, data: &[u8]) -> (flag: bool)
        requires
            self.offset + Root::LEN <= data.len(),
            data@[self.flag_offset()] <= 1,
        ensures
            flag == (data@[self.flag_offset()] == 1),
    {
        match unpack_is_initialized(data[self.offset + PUB_KEY_LEN + PlayerList::LEN + LeagueList::LEN]) {
            Ok(flag) => flag,
            Err(_) => false,
        }
    }

    /// Stores the initialization flag as 0 or 1; the rest of `data` is unchanged.
    pub fn set_is_initialized(&self, data: &mut [u8], value: bool)
        requires
            self.offset + Root::LEN <= old(data).len(),
        ensures
            final(data)@ == old(data)@.update(self.flag_offset(), flag_byte(value)),
    {
        let byte: u8 = if value {
            1
        } else {
            0
        };
        data[self.offset + PUB_KEY_LEN + PlayerList::LEN + LeagueList::LEN] = byte;
    }

    /// Copies the whole root's bytes from `src` into `dst` at this root's own offset; `to`
    /// only names the destination view and its offset is not used.
    pub fn copy_to(&self, src: &[u8], to: &Root, dst: &mut [u8])
        requires
            self.offset + Root::LEN <= src.len(),
            self.offset + Root::LEN <= old(dst).len(),
        ensures
            copied_range(old(dst)@, final(dst)@, src@, self.offset as int, Root::LEN as int),
    {
        copy_range(src, dst, self.offset, Root::LEN);
    }
}

/// The root's parts lie one after the other and fill it: key, player table, league table,
/// flag.
pub proof fn lemma_root_layout(root: Root)
    ensures
        root.players_offset() == root.offset + PUB_KEY_LEN,
        root.leagues_offset() == root.players_offset() + PlayerList::LEN,
        root.flag_offset() == root.leagues_offset() + LeagueList::LEN,
        root.flag_offset() + 1 == root.offset + Root::LEN,
        Root::LEN == 31905,
{
}

} // verus!
