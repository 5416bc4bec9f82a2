use solana_fantasy_sports::error::SfsError;
use solana_fantasy_sports::instruction::{initialize_root, test_mutate, AccountMeta, SfsInstruction};
use solana_fantasy_sports::pubkey::Pubkey;

const RENT_SYSVAR: [u8; 32] = [
    6, 167, 213, 23, 25, 44, 92, 81, 33, 140, 201, 76, 61, 74, 241, 127, 88, 218, 238, 8, 155,
    161, 253, 68, 227, 219, 217, 138, 0, 0, 0, 0,
];

#[test]
fn test_instruction_packing() {
    let check = SfsInstruction::InitializeRoot {
        oracle_authority: Some(Pubkey::new(&[3u8; 32])),
    };
    let packed = check.pack();
    let mut expect = vec![0u8, 1];
    expect.extend_from_slice(&[3u8; 32]);
    assert_eq!(packed, expect);
    let unpacked = SfsInstruction::unpack(&expect).unwrap();
    assert_eq!(unpacked, check);

    let check = SfsInstruction::TestMutate;
    let packed = check.pack();
    let expect = Vec::from([1u8]);
    assert_eq!(packed, expect);
    let unpacked = SfsInstruction::unpack(&expect).unwrap();
    assert_eq!(unpacked, check);
}

#[test]
fn pack_without_oracle_authority() {
    let check = SfsInstruction::InitializeRoot { oracle_authority: None };
    assert_eq!(check.pack(), vec![0u8, 0]);
    assert_eq!(SfsInstruction::unpack(&[0u8, 0]), Ok(check));
}

#[test]
fn unpack_ignores_trailing_bytes() {
    assert_eq!(SfsInstruction::unpack(&[1u8, 9, 9]), Ok(SfsInstruction::TestMutate));
    assert_eq!(
        SfsInstruction::unpack(&[0u8, 0, 5]),
        Ok(SfsInstruction::InitializeRoot { oracle_authority: None })
    );
    let mut bytes = vec![0u8, 1];
    let key: Vec<u8> = (0u8..32).collect();
    bytes.extend_from_slice(&key);
    bytes.push(77);
    let expected = SfsInstruction::InitializeRoot {
        oracle_authority: Some(Pubkey::new(&key)),
    };
    assert_eq!(SfsInstruction::unpack(&bytes), Ok(expected));
}

#[test]
fn unpack_rejects_invalid_instructions() {
    let err = Err(SfsError::InvalidInstruction);
    assert_eq!(SfsInstruction::unpack(&[]), err);
    assert_eq!(SfsInstruction::unpack(&[2u8]), err);
    assert_eq!(SfsInstruction::unpack(&[255u8, 0]), err);
    assert_eq!(SfsInstruction::unpack(&[0u8]), err);
    assert_eq!(SfsInstruction::unpack(&[0u8, 2]), err);
    let mut short = vec![0u8, 1];
    short.extend_from_slice(&[7u8; 31]);
    assert_eq!(SfsInstruction::unpack(&short), err);
}

#[test]
fn pack_then_unpack_roundtrip() {
    let values = vec![
        SfsInstruction::TestMutate,
        SfsInstruction::InitializeRoot { oracle_authority: None },
        SfsInstruction::InitializeRoot { oracle_authority: Some(Pubkey::new_from_array([200u8; 32])) },
    ];
    for v in values {
        assert_eq!(SfsInstruction::unpack(&v.pack()), Ok(v.clone()));
    }
}

#[test]
fn initialize_root_builds_the_instruction() {
    let program = Pubkey::new_from_array([1u8; 32]);
    let root = Pubkey::new_from_array([2u8; 32]);
    let oracle = Pubkey::new_from_array([4u8; 32]);
    let ix = initialize_root(&program, &root, Some(&oracle)).unwrap();
    assert_eq!(ix.program_id, program);
    let mut data = vec![0u8, 1];
    data.extend_from_slice(&[4u8; 32]);
    assert_eq!(ix.data, data);
    assert_eq!(
        ix.accounts,
        vec![
            AccountMeta { pubkey: root, is_signer: false, is_writable: true },
            AccountMeta {
                pubkey: Pubkey::new_from_array(RENT_SYSVAR),
                is_signer: false,
                is_writable: false
            },
        ]
    );
    let ix = initialize_root(&program, &root, None).unwrap();
    assert_eq!(ix.data, vec![0u8, 0]);
}

#[test]
fn rent_sysvar_matches_solana() {
    assert_eq!(solana_program::sysvar::rent::id().to_bytes(), RENT_SYSVAR);
}

#[test]
fn test_mutate_builds_the_instruction() {
    let program = Pubkey::new_from_array([1u8; 32]);
    let account = Pubkey::new_from_array([5u8; 32]);
    let mint = Pubkey::new_from_array([6u8; 32]);
    let owner = Pubkey::new_from_array([7u8; 32]);
    let ix = test_mutate(&program, &account, &mint, &owner).unwrap();
    assert_eq!(ix.program_id, program);
    assert_eq!(ix.data, vec![1u8]);
    assert_eq!(
        ix.accounts,
        vec![
            AccountMeta::new(account, false),
            AccountMeta::new_readonly(mint, false),
            AccountMeta::new_readonly(owner, false),
            AccountMeta::new_readonly(Pubkey::new_from_array(RENT_SYSVAR), false),
        ]
    );
    assert!(ix.accounts[0].is_writable && !ix.accounts[1].is_writable);
}

#[test]
fn pubkey_bytes() {
    let bytes: Vec<u8> = (10u8..42).collect();
    let key = Pubkey::new(&bytes);
    assert_eq!(key.to_bytes().to_vec(), bytes);
    assert_eq!(Pubkey::new_from_array(key.to_bytes()), key);
}
