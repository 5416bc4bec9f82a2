use solana_fantasy_sports::bytes::unpack_is_initialized;
use solana_fantasy_sports::consts::{GAMES_COUNT, NUM_POSITIONS, SWAP_PROPOSALS_CAPACITY};
use solana_fantasy_sports::error::SfsError;
use solana_fantasy_sports::lists::{LeagueList, PlayerList};
use solana_fantasy_sports::player::Player;
use solana_fantasy_sports::position::Position;
use solana_fantasy_sports::processor::{check_create_league, check_join_league, check_league_capacity, Stage};
use solana_fantasy_sports::pubkey::Pubkey;
use solana_fantasy_sports::root::Root;
use solana_fantasy_sports::swap_proposal::SwapProposal;
use solana_fantasy_sports::swap_proposals_list::SwapProposalsList;

#[test]
fn swap_proposal_fields_are_little_endian() {
    let mut data = vec![0xAAu8; 12];
    let p = SwapProposal { offset: 3 };
    p.set_give_player_id(&mut data, 0x1234);
    p.set_want_player_id(&mut data, 0xBEEF);
    p.set_is_initialized(&mut data, true);
    assert_eq!(data, vec![0xAA, 0xAA, 0xAA, 0x34, 0x12, 0xEF, 0xBE, 1, 0xAA, 0xAA, 0xAA, 0xAA]);
    assert_eq!(p.get_give_player_id(&data), 0x1234);
    assert_eq!(p.get_want_player_id(&data), 0xBEEF);
    assert!(p.get_is_initialized(&data));
    p.set_is_initialized(&mut data, false);
    assert_eq!(data[7], 0);
    assert!(!p.get_is_initialized(&data));
    assert_eq!(SwapProposal::LEN, 5);
}

#[test]
fn swap_proposal_setters_leave_other_fields() {
    let mut data = vec![0u8; 5];
    let p = SwapProposal { offset: 0 };
    p.set_want_player_id(&mut data, 7);
    p.set_give_player_id(&mut data, 65535);
    assert_eq!(p.get_want_player_id(&data), 7);
    assert_eq!(p.get_give_player_id(&data), 65535);
    assert!(!p.get_is_initialized(&data));
}

#[test]
fn swap_proposal_copy_to_uses_own_offset() {
    let src = vec![9u8, 1, 2, 3, 4, 1, 9];
    let mut dst = vec![0u8; 7];
    let from = SwapProposal { offset: 1 };
    from.copy_to(&src, &SwapProposal { offset: 0 }, &mut dst);
    assert_eq!(dst, vec![0u8, 1, 2, 3, 4, 1, 0]);
    assert_eq!(from.get_give_player_id(&dst), 0x0201);
}

#[test]
fn swap_proposals_list_add_and_get() {
    let mut data = vec![0u8; SwapProposalsList::LEN + 2];
    let list = SwapProposalsList { offset: 2 };
    assert_eq!(list.get_count(&data), 0);
    list.add(&mut data, 11, 12);
    list.add(&mut data, 21, 22);
    assert_eq!(list.get_count(&data), 2);
    let first = list.get(&data, 0);
    let second = list.get(&data, 1);
    assert_eq!(first.offset, 3);
    assert_eq!(second.offset, 8);
    assert_eq!((first.get_give_player_id(&data), first.get_want_player_id(&data)), (11, 12));
    assert_eq!((second.get_give_player_id(&data), second.get_want_player_id(&data)), (21, 22));
    assert!(second.get_is_initialized(&data));
    assert_eq!(data[0..13].to_vec(), vec![0u8, 0, 2, 11, 0, 12, 0, 1, 21, 0, 22, 0, 1]);
}

#[test]
fn swap_proposals_list_fills_to_capacity() {
    let mut data = vec![0u8; SwapProposalsList::LEN];
    let list = SwapProposalsList { offset: 0 };
    for k in 0..SWAP_PROPOSALS_CAPACITY as u16 {
        list.add(&mut data, k, k + 100);
    }
    assert_eq!(list.get_count(&data) as usize, SwapProposalsList::ITEM_CAPACITY);
    let last = list.get(&data, 19);
    assert_eq!(last.offset + SwapProposal::LEN, SwapProposalsList::LEN);
    assert_eq!(last.get_want_player_id(&data), 119);
}

#[test]
fn swap_proposals_list_remove_last_clears_slot() {
    let mut data = vec![0u8; SwapProposalsList::LEN];
    let list = SwapProposalsList { offset: 0 };
    list.add(&mut data, 1, 2);
    let before = data.clone();
    list.add(&mut data, 3, 4);
    list.remove(&mut data, 1);
    assert_eq!(list.get_count(&data), 1);
    assert_eq!(data, before);
    list.remove(&mut data, 0);
    assert_eq!(data, vec![0u8; SwapProposalsList::LEN]);
}

#[test]
fn swap_proposals_list_copy_to() {
    let mut src = vec![0u8; SwapProposalsList::LEN];
    let list = SwapProposalsList { offset: 0 };
    list.add(&mut src, 5, 6);
    let mut dst = vec![7u8; SwapProposalsList::LEN + 1];
    list.copy_to(&src, &list, &mut dst);
    assert_eq!(dst[..SwapProposalsList::LEN].to_vec(), src);
    assert_eq!(dst[SwapProposalsList::LEN], 7);
}

#[test]
fn root_layout_and_fields() {
    assert_eq!(Root::LEN, 32 + PlayerList::LEN + LeagueList::LEN + 1);
    assert_eq!(PlayerList::LEN, 301);
    let root = Root { offset: 4 };
    assert_eq!(root.get_players().offset, 36);
    assert_eq!(root.get_leagues().offset, 36 + PlayerList::LEN);
    let mut data = vec![0u8; Root::LEN + 4];
    let key = Pubkey::new_from_array([9u8; 32]);
    root.set_oracle_authority(&mut data, key);
    assert_eq!(root.get_oracle_authority(&data), key);
    assert_eq!(data[0..4].to_vec(), vec![0u8; 4]);
    assert_eq!(data[4..36].to_vec(), vec![9u8; 32]);
    assert!(!root.get_is_initialized(&data));
    root.set_is_initialized(&mut data, true);
    assert_eq!(data[Root::LEN + 3], 1);
    assert!(root.get_is_initialized(&data));
    let mut other = vec![0u8; Root::LEN + 4];
    root.copy_to(&data, &Root { offset: 0 }, &mut other);
    assert_eq!(other, data);
}

#[test]
fn player_fields() {
    let data = vec![0u8, 0x2C, 0x01, 7];
    let player = Player { offset: 1 };
    assert_eq!(player.get_id(&data), 300);
    assert_eq!(player.get_position(&data), Position::LB);
    let mut dst = vec![5u8; 4];
    player.copy_to(&data, &Player { offset: 0 }, &mut dst);
    assert_eq!(dst, vec![5u8, 0x2C, 0x01, 7]);
    assert_eq!(Player::LEN, 3);
}

#[test]
fn position_codes() {
    for code in 0..NUM_POSITIONS {
        let p = Position::try_from_primitive(code).unwrap();
        assert_eq!(p.to_primitive(), code);
    }
    assert_eq!(Position::try_from_primitive(0), Some(Position::Uninitialized));
    assert_eq!(Position::try_from_primitive(1), Some(Position::QB));
    assert_eq!(Position::try_from_primitive(NUM_POSITIONS), None);
    assert_eq!(Position::try_from_primitive(255), None);
}

#[test]
fn is_initialized_flag() {
    assert_eq!(unpack_is_initialized(0), Ok(false));
    assert_eq!(unpack_is_initialized(1), Ok(true));
    assert_eq!(unpack_is_initialized(2), Err(SfsError::InvalidAccountData));
}

#[test]
fn create_league_needs_join_stage() {
    assert_eq!(check_create_league(Stage::Join), Ok(()));
    assert_eq!(check_create_league(Stage::SeasonOpen), Err(SfsError::InvalidStage));
    assert_eq!(check_create_league(Stage::Uninitialized), Err(SfsError::InvalidStage));
}

#[test]
fn join_league_checks() {
    assert_eq!(check_join_league(Stage::SeasonOpen, 0), Ok(()));
    assert_eq!(check_join_league(Stage::SeasonOpen, GAMES_COUNT - 1), Ok(()));
    assert_eq!(check_join_league(Stage::SeasonOpen, GAMES_COUNT), Err(SfsError::InvalidState));
    assert_eq!(check_join_league(Stage::Join, 0), Err(SfsError::InvalidStage));
    assert_eq!(check_join_league(Stage::SeasonComplete, 40), Err(SfsError::InvalidStage));
    assert_eq!(check_league_capacity(3, 4), Ok(()));
    assert_eq!(check_league_capacity(4, 4), Err(SfsError::OutOfCapacity));
}
