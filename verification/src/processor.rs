//! The decisions of the create-league and join-league instructions. Transfers and account
//! access happen around them; these functions say whether the instruction may go on.
use vstd::prelude::*;
use crate::consts::GAMES_COUNT;
use crate::error::SfsError;

verus! {

/// The stage of the season stored in the root.
#[derive(Clone, Copy, Debug, PartialEq, Eq, Structural)]
pub enum Stage {
    Uninitialized,
    Join,
    SeasonOpen,
    SeasonComplete,
}

/// Whether a league can be created: only while users join, else `InvalidStage`.
pub fn check_create_league(stage: Stage) -> (r: Result<(), SfsError>)
    ensures
        r is Ok <==> stage == Stage::Join,
        r matches Err(e) ==> e == SfsError::InvalidStage,
{
    if stage != Stage::Join {
        return Err(SfsError::InvalidStage);
    }
    Ok(())
}

/// Whether a user can join a league: only while the season is open (else `InvalidStage`)
/// and before its last game week has passed (else `InvalidState`).
pub fn check_join_league(stage: Stage, current_week: u8) -> (r: Result<(), SfsError>)
    ensures
        r is Ok <==> stage == Stage::SeasonOpen && current_week < GAMES_COUNT,
        stage != Stage::SeasonOpen ==> r == Err::<(), SfsError>(SfsError::InvalidStage),
        stage == Stage::SeasonOpen && current_week >= GAMES_COUNT ==> r == Err::<(), SfsError>(
            SfsError::InvalidState,
        ),
{
    if stage != Stage::SeasonOpen {
        return Err(SfsError::InvalidStage);
    }
    if current_week >= GAMES_COUNT {
        return Err(SfsError::InvalidState);
    }
    Ok(())
}

/// Whether a league has room for another user: `OutOfCapacity` once its user count has
/// reached its users limit.
pub fn check_league_capacity(user_count: u8, users_limit: u8) -> (r: Result<(), SfsError>)
    ensures
        r is Ok <==> user_count != users_limit,
        r matches Err(e) ==> e == SfsError::OutOfCapacity,
{
    if user_count == users_limit {
        return Err(SfsError::OutOfCapacity);
    }
    Ok(())
}

} // verus!
