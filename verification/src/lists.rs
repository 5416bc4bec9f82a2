//! Layouts of the player and league tables of the root account.
use vstd::prelude::*;
use crate::consts::{PUB_KEY_LEN, TEAM_NAME_LEN, LEAGUE_NAME_LEN};

verus! {

/// Bytes of a user's state in a league: key, team name and initialization flag.
pub const USER_STATE_LEN: usize = PUB_KEY_LEN + TEAM_NAME_LEN + 1;

/// Bytes of a league's user table: a count byte and `LEAGUE_USERS_CAPACITY` user states.
pub const USER_STATES_LIST_LEN: usize = 1 + USER_STATE_LEN * 10;

/// Bytes of a league: name, bid (`u64`), users limit, user table and initialization flag.
pub const LEAGUE_LEN: usize = LEAGUE_NAME_LEN + 8 + 1 + USER_STATES_LIST_LEN + 1;

/// A view of the player table stored at `offset`: a count byte, then `PLAYERS_CAPACITY`
/// players.
#[derive(Clone, Copy, Debug, PartialEq, Eq)]
pub struct PlayerList {
    pub offset: usize,
}

impl PlayerList {
    /// Bytes of one player.
    pub const ITEM_SIZE: usize = 3;

    /// Number of player slots.
    pub const ITEM_CAPACITY: usize = 100;

    /// Bytes of the table.
    pub const LEN: usize = 1 + 3 * 100;
}

/// A view of the league table stored at `offset`: a count byte, then `LEAGUES_CAPACITY`
/// leagues.
#[derive(Clone, Copy, Debug, PartialEq, Eq)]
pub struct LeagueList {
    pub offset: usize,
}

impl LeagueList {
    /// Bytes of one league.
    pub const ITEM_SIZE: usize = LEAGUE_LEN;

    /// Number of league slots.
    pub const ITEM_CAPACITY: usize = 10;

    /// Bytes of the table.
    pub const LEN: usize = 1 + LEAGUE_LEN * 10;
}

/// The sizes that the layouts add up to.
pub proof fn lemma_table_sizes()
    ensures
        USER_STATE_LEN == 289,
        USER_STATES_LIST_LEN == 2891,
        LEAGUE_LEN == 3157,
        PlayerList::LEN == 301,
        LeagueList::LEN == 31571,
{
}

} // verus!
