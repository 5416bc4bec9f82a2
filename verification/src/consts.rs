use vstd::prelude::*;

verus! {

/// Largest number of players a single instruction may carry.
pub const MAX_PLAYERS_PER_INSTRUCTION: u16 = 255;

/// Number of players the root account can hold.
pub const PLAYERS_CAPACITY: u16 = 100;

/// Number of games in a season.
pub const GAMES_COUNT: u8 = 17;

/// Active players of a team (set within the league by its creator).
pub const ACTIVE_PLAYERS_COUNT: u8 = 3;

/// Bench players of a team (set within the league by its creator).
pub const BENCH_PLAYERS_COUNT: u8 = 3;

/// Players of a team: active and bench together.
pub const TEAM_PLAYERS_COUNT: u8 = ACTIVE_PLAYERS_COUNT + BENCH_PLAYERS_COUNT;

/// Number of leagues the root account can hold.
pub const LEAGUES_CAPACITY: u16 = 10;

/// Users of one league: `PLAYERS_CAPACITY / TEAM_PLAYERS_CAPACITY`.
pub const LEAGUE_USERS_CAPACITY: u8 = 10;

/// Swap proposals one list can hold.
pub const SWAP_PROPOSALS_CAPACITY: u8 = 20;

/// Player slots of a team; the active and bench split varies between leagues.
pub const TEAM_PLAYERS_CAPACITY: u8 = 10;

/// Number of possible positions, the uninitialized one included.
pub const NUM_POSITIONS: u8 = 12;

/// Bytes of a league name.
pub const LEAGUE_NAME_LEN: usize = 256;

/// Bytes of a team name.
pub const TEAM_NAME_LEN: usize = 256;

/// Bytes of a public key.
pub const PUB_KEY_LEN: usize = 32;

pub const MAX_QB: usize = 4;
pub const MAX_RB: usize = 8;
pub const MAX_WR: usize = 8;
pub const MAX_TE: usize = 3;
pub const MAX_K: usize = 3;
pub const MAX_D: usize = 3;

/// The users capacity of a league is the players capacity shared out in teams.
pub proof fn lemma_league_users_capacity()
    ensures
        LEAGUE_USERS_CAPACITY as int == PLAYERS_CAPACITY as int / TEAM_PLAYERS_CAPACITY as int,
        TEAM_PLAYERS_COUNT == 6,
{
}

} // verus!
