//! Instructions of the program and their byte encoding.
use vstd::prelude::*;
use crate::error::SfsError;
use crate::pubkey::{Pubkey, read_pubkey, rent_sysvar_id, rent_sysvar_bytes};

verus! {

/// Instructions supported by the program.
#[derive(Clone, Debug, PartialEq)]
pub enum SfsInstruction {
    /// Initializes a new root.
    ///
    /// Requires no signers and must be part of the transaction whose `CreateInstruction`
    /// creates the account being initialized, else another party can take the
    /// uninitialized account.
    ///
    /// Accounts: 0. `[writable]` the root to initialize; 1. `[]` the rent sysvar.
    InitializeRoot {
        /// The authority that supplies game scores.
        oracle_authority: Option<Pubkey>,
    },
    /// Test.
    TestMutate,
}

/// Encoding of an optional key: 0 for none, 1 and the 32 key bytes for a key.
pub open spec fn packed_pubkey_option(value: Option<Pubkey>) -> Seq<u8> {
    match value {
        Some(key) => seq![1u8] + key.0@,
        None => seq![0u8],
    }
}

/// Encoding of an instruction: a tag byte (0 initialize root, 1 test mutate), then the
/// instruction's fields.
pub open spec fn packed(ins: SfsInstruction) -> Seq<u8> {
    match ins {
        SfsInstruction::InitializeRoot { oracle_authority } => seq![0u8] + packed_pubkey_option(
            oracle_authority,
        ),
        SfsInstruction::TestMutate => seq![1u8],
    }
}

/// The bytes start with the encoding of some instruction (what follows it is ignored).
pub open spec fn decodable(input: Seq<u8>) -> bool {
    &&& input.len() >= 1
    &&& (input[0] == 1 || (input[0] == 0 && input.len() >= 2 && (input[1] == 0 || (input[1] == 1
        && input.len() >= 34))))
}

/// The bytes at `at` hold the encoding of an optional key.
pub open spec fn pubkey_option_decodable(input: Seq<u8>, at: int) -> bool {
    &&& at < input.len()
    &&& (input[at] == 0 || (input[at] == 1 && at + 33 <= input.len()))
}

/// Every packed instruction is decodable.
pub proof fn lemma_packed_decodable(ins: SfsInstruction)
    ensures
        decodable(packed(ins)),
{
    match ins {
        SfsInstruction::InitializeRoot { oracle_authority } => {
            match oracle_authority {
                Some(key) => {
                    assert(key.0@.len() == 32);
                },
                None => {},
            }
        },
        SfsInstruction::TestMutate => {},
    }
}

/// The encoding is prefix-free: no two instructions have encodings that both start the
/// same bytes, so the bytes determine the instruction.
pub proof fn lemma_packed_prefix_unique(a: SfsInstruction, b: SfsInstruction, input: Seq<u8>)
    requires
        packed(a).is_prefix_of(input),
        packed(b).is_prefix_of(input),
    ensures
        a == b,
{
    let pa = packed(a);
    let pb = packed(b);
    assert(pa[0] == input[0]);
    assert(pb[0] == input[0]);
    match a {
        SfsInstruction::InitializeRoot { oracle_authority: oa } => {
            match b {
                SfsInstruction::InitializeRoot { oracle_authority: ob } => {
                    assert(pa[1] == input[1]);
                    assert(pb[1] == input[1]);
                    match oa {
                        Some(ka) => {
                            match ob {
                                Some(kb) => {
                                    assert forall|i: int| 0 <= i < 32 implies ka.0[i] == kb.0[i] by {
                                        assert(pa[2 + i] == input[2 + i]);
                                        assert(pb[2 + i] == input[2 + i]);
                                        assert(ka.0@[i] == pa[2 + i]);
                                        assert(kb.0@[i] == pb[2 + i]);
                                    }
                                    assert(ka.0 =~= kb.0);
                                },
                                None => {},
                            }
                        },
                        None => {},
                    }
                },
                SfsInstruction::TestMutate => {},
            }
        },
        SfsInstruction::TestMutate => {},
    }
}

/// The encodings byte by byte: `InitializeRoot` is tag 0, then 0 for no oracle authority or
/// 1 followed by the key's 32 bytes in order; `TestMutate` is the single byte 1.
pub proof fn lemma_packed_bytes(key: Pubkey)
    ensures
        packed(SfsInstruction::InitializeRoot { oracle_authority: Some(key) }).len() == 34,
        packed(SfsInstruction::InitializeRoot { oracle_authority: Some(key) })[0] == 0,
        packed(SfsInstruction::InitializeRoot { oracle_authority: Some(key) })[1] == 1,
        forall|i: int|
            0 <= i < 32 ==> #[trigger] packed(
                SfsInstruction::InitializeRoot { oracle_authority: Some(key) },
            )[2 + i] == key.0@[i],
        packed(SfsInstruction::InitializeRoot { oracle_authority: None }) == seq![0u8, 0u8],
        packed(SfsInstruction::TestMutate) == seq![1u8],
{
    assert(key.0@.len() == 32);
    assert(packed(SfsInstruction::InitializeRoot { oracle_authority: None }) =~= seq![0u8, 0u8]);
}

/// What unpacking reads: tag 1 is `TestMutate`; tag 0 then 0 is `InitializeRoot` without an
/// oracle authority; tag 0 then 1 is `InitializeRoot` whose key is the 32 bytes after the
/// flag, in order.
pub proof fn lemma_unpacked_bytes(input: Seq<u8>, key: Pubkey)
    ensures
        input.len() >= 1 && input[0] == 1 ==> unpacked(input) == Ok::<SfsInstruction, SfsError>(
            SfsInstruction::TestMutate,
        ),
        input.len() >= 2 && input[0] == 0 && input[1] == 0 ==> unpacked(input) == Ok::<
            SfsInstruction,
            SfsError,
        >(SfsInstruction::InitializeRoot { oracle_authority: None }),
        input.len() >= 34 && input[0] == 0 && input[1] == 1 && key.0@ == input.subrange(2, 34)
            ==> unpacked(input) == Ok::<SfsInstruction, SfsError>(
            SfsInstruction::InitializeRoot { oracle_authority: Some(key) },
        ),
{
    if input.len() >= 1 && input[0] == 1 {
        assert(packed(SfsInstruction::TestMutate) =~= input.subrange(0, 1));
        lemma_unpacked_of_prefix(SfsInstruction::TestMutate, input);
    }
    if input.len() >= 2 && input[0] == 0 && input[1] == 0 {
        let ins = SfsInstruction::InitializeRoot { oracle_authority: None };
        assert(packed(ins) =~= input.subrange(0, 2));
        lemma_unpacked_of_prefix(ins, input);
    }
    if input.len() >= 34 && input[0] == 0 && input[1] == 1 && key.0@ == input.subrange(2, 34) {
        let ins = SfsInstruction::InitializeRoot { oracle_authority: Some(key) };
        assert(packed(ins) =~= input.subrange(0, 34));
        lemma_unpacked_of_prefix(ins, input);
    }
}

/// What a byte buffer unpacks to: the instruction whose encoding starts the buffer, if
/// there is one (there is at most one), else `InvalidInstruction`.
pub open spec fn unpacked(input: Seq<u8>) -> Result<SfsInstruction, SfsError> {
    if decodable(input) {
        Ok(choose|ins: SfsInstruction| packed(ins).is_prefix_of(input))
    } else {
        Err(SfsError::InvalidInstruction)
    }
}

/// A buffer that starts with the encoding of `ins` unpacks to `ins`, whatever follows.
pub proof fn lemma_unpacked_of_prefix(ins: SfsInstruction, input: Seq<u8>)
    requires
        packed(ins).is_prefix_of(input),
    ensures
        decodable(input),
        unpacked(input) == Ok::<SfsInstruction, SfsError>(ins),
{
    lemma_packed_decodable(ins);
    assert(input.subrange(0, packed(ins).len() as int)[0] == input[0]);
    if packed(ins).len() >= 2 {
        assert(input.subrange(0, packed(ins).len() as int)[1] == input[1]);
    }
    let c = choose|x: SfsInstruction| packed(x).is_prefix_of(input);
    lemma_packed_prefix_unique(c, ins, input);
}

/// Unpacking what `pack` produced gives back the instruction.
pub proof fn lemma_pack_unpack_roundtrip(ins: SfsInstruction)
    ensures
        unpacked(packed(ins)) == Ok::<SfsInstruction, SfsError>(ins),
{
    let bytes = packed(ins);
    assert(bytes =~= bytes.subrange(0, bytes.len() as int));
    lemma_unpacked_of_prefix(ins, bytes);
}

impl SfsInstruction {
    /// Unpacks a byte buffer into an instruction.
    ///
    /// Succeeds exactly when the bytes start with the encoding of an instruction, and then
    /// returns that instruction; bytes after it are ignored.
    pub fn unpack(input: &[u8]) -> (r: Result<SfsInstruction, SfsError>)
        ensures
            r == unpacked(input@),
            r is Ok <==> decodable(input@),
            input@.len() >= 34 && input@[0] == 0 && input@[1] == 1 ==> (r matches Ok(
                SfsInstruction::InitializeRoot { oracle_authority: Some(k) },
            ) && k.0@ == input@.subrange(2, 34)),
            input@.len() >= 2 && input@[0] == 0 && input@[1] == 0 ==> r == Ok::<
                SfsInstruction,
                SfsError,
            >(SfsInstruction::InitializeRoot { oracle_authority: None }),
            input@.len() >= 1 && input@[0] == 1 ==> r == Ok::<SfsInstruction, SfsError>(
                SfsInstruction::TestMutate,
            ),
            r matches Ok(ins) ==> packed(ins).is_prefix_of(input@),
            r matches Err(e) ==> e == SfsError::InvalidInstruction,
    {
        if input.len() == 0 {
            return Err(SfsError::InvalidInstruction);
        }
        let tag = input[0];
        if tag == 0 {
            let (oracle_authority, _rest) = Self::unpack_pubkey_option(input, 1)?;
            let ins = SfsInstruction::InitializeRoot { oracle_authority };
            assert(packed(ins) =~= input@.subrange(0, packed(ins).len() as int));
            proof {
                match oracle_authority {
                    Some(k) => {
                        let enc = seq![1u8] + k.0@;
                        assert(input@.subrange(1, 34) =~= enc);
                        assert forall|i: int| 0 <= i < 32 implies k.0@[i] == input@[2 + i] by {
                            assert(enc[i + 1] == k.0@[i]);
                            assert(input@.subrange(1, 34)[i + 1] == input@[2 + i]);
                        }
                        assert(k.0@ =~= input@.subrange(2, 34));
                        assert(input@.subrange(1, 34)[0] == input@[1]);
                        assert(input@[1] == 1);
                    },
                    None => {
                        assert(input@.subrange(1, 2) =~= seq![0u8]);
                        assert(input@.subrange(1, 2)[0] == input@[1]);
                        assert(input@[1] == 0);
                    },
                }
            }
            proof {
                lemma_unpacked_of_prefix(ins, input@);
            }
            Ok(ins)
        } else if tag == 1 {
            let ins = SfsInstruction::TestMutate;
            assert(packed(ins) =~= input@.subrange(0, 1));
            proof {
                lemma_unpacked_of_prefix(ins, input@);
            }
            Ok(ins)
        } else {
            Err(SfsError::InvalidInstruction)
        }
    }

    /// Packs an instruction into a byte buffer.
    pub fn pack(&self) -> (buf: Vec<u8>)
        ensures
            buf@ == packed(*self),
            self matches SfsInstruction::InitializeRoot { oracle_authority: Some(k) } ==> buf@.len()
                == 34 && buf@[0] == 0 && buf@[1] == 1 && buf@.subrange(2, 34) == k.0@,
            self matches SfsInstruction::InitializeRoot { oracle_authority: None } ==> buf@ == seq![
                0u8,
                0u8,
            ],
            *self is TestMutate ==> buf@ == seq![1u8],
    {
        let mut buf: Vec<u8> = Vec::new();
        match self {
            SfsInstruction::InitializeRoot { oracle_authority } => {
                buf.push(0);
                Self::pack_pubkey_option(oracle_authority, &mut buf);
            },
            SfsInstruction::TestMutate => {
                buf.push(1);
            },
        }
        assert(buf@ =~= packed(*self));
        proof {
            match self {
                SfsInstruction::InitializeRoot { oracle_authority: Some(k) } => {
                    assert(k.0@.len() == 32);
                    assert(buf@.subrange(2, 34) =~= k.0@);
                },
                _ => {},
            }
        }
        buf
    }

    /// Reads the key stored in the 32 bytes at `at`; returns it with the position after it.
    fn unpack_pubkey(input: &[u8], at: usize) -> (r: Result<(Pubkey, usize), SfsError>)
        requires
            at <= input.len(),
        ensures
            r is Ok <==> at + 32 <= input.len(),
            r matches Ok((key, rest)) ==> key.0@ == input@.subrange(at as int, at + 32) && rest
                == at + 32,
            r matches Err(e) ==> e == SfsError::InvalidInstruction,
    {
        if input.len() - at >= 32 {
            let key = read_pubkey(input, at);
            Ok((key, at + 32))
        } else {
            Err(SfsError::InvalidInstruction)
        }
    }

    /// Reads the optional key encoded at `at`; returns it with the position after it.
    fn unpack_pubkey_option(input: &[u8], at: usize) -> (r: Result<(Option<Pubkey>, usize), SfsError>)
        requires
            at <= input.len(),
        ensures
            r is Ok <==> pubkey_option_decodable(input@, at as int),
            r matches Ok((value, rest)) ==> {
                &&& rest == at + packed_pubkey_option(value).len()
                &&& rest <= input.len()
                &&& input@.subrange(at as int, rest as int) == packed_pubkey_option(value)
            },
            r matches Err(e) ==> e == SfsError::InvalidInstruction,
    {
        if at < input.len() && input[at] == 0 {
            assert(input@.subrange(at as int, at + 1) =~= packed_pubkey_option(None));
            Ok((None, at + 1))
        } else if at < input.len() && input[at] == 1 && input.len() - at - 1 >= 32 {
            let key = read_pubkey(input, at + 1);
            assert(input@.subrange(at as int, at + 33) =~= packed_pubkey_option(Some(key)));
            Ok((Some(key), at + 33))
        } else {
            Err(SfsError::InvalidInstruction)
        }
    }

    /// Appends the encoding of an optional key to `buf`.
    fn pack_pubkey_option(value: &Option<Pubkey>, buf: &mut Vec<u8>)
        ensures
            final(buf)@ == old(buf)@ + packed_pubkey_option(*value),
    {
        match value {
            Some(key) => {
                buf.push(1);
                let bytes = key.to_bytes();
                let mut j: usize = 0;
                while j < 32
                    invariant
                        j <= 32,
                        bytes@.len() == 32,
                        buf@ == old(buf)@ + seq![1u8] + bytes@.subrange(0, j as int),
                    decreases 32 - j,
                {
                    buf.push(bytes[j]);
                    assert(bytes@.subrange(0, j + 1) =~= bytes@.subrange(0, j as int).push(
                        bytes@[j as int],
                    ));
                    j = j + 1;
                }
                assert(bytes@.subrange(0, 32) =~= bytes@);
                assert(buf@ =~= old(buf)@ + packed_pubkey_option(*value));
            },
            None => {
                buf.push(0);
                assert(buf@ =~= old(buf)@ + packed_pubkey_option(*value));
            },
        }
    }
}

/// An account that an instruction reads or writes.
#[derive(Clone, Copy, Debug, PartialEq, Eq)]
pub struct AccountMeta {
    /// The account's key.
    pub pubkey: Pubkey,
    /// Whether the instruction needs the account's signature.
    pub is_signer: bool,
    /// Whether the instruction may write the account.
    pub is_writable: bool,
}

impl AccountMeta {
    /// A writable account.
    pub fn new(pubkey: Pubkey, is_signer: bool) -> (meta: AccountMeta)
        ensures
            meta == (AccountMeta { pubkey, is_signer, is_writable: true }),
    {
        AccountMeta { pubkey, is_signer, is_writable: true }
    }

    /// A read-only account.
    pub fn new_readonly(pubkey: Pubkey, is_signer: bool) -> (meta: AccountMeta)
        ensures
            meta == (AccountMeta { pubkey, is_signer, is_writable: false }),
    {
        AccountMeta { pubkey, is_signer, is_writable: false }
    }
}

/// An instruction addressed to a program: its accounts and its data.
#[derive(Clone, Debug, PartialEq)]
pub struct Instruction {
    /// The program that executes the instruction.
    pub program_id: Pubkey,
    /// The accounts it reads or writes.
    pub accounts: Vec<AccountMeta>,
    /// The packed instruction.
    pub data: Vec<u8>,
}

/// Creates an `InitializeRoot` instruction.
///
/// Its data packs `InitializeRoot` with the given oracle authority; its accounts are the
/// root (writable) and the rent sysvar (read-only), neither signing.
pub fn initialize_root(
    sfs_program_id: &Pubkey,
    root_pubkey: &Pubkey,
    oracle_authority_pubkey: Option<&Pubkey>,
) -> (r: Result<Instruction, SfsError>)
    ensures
        r matches Ok(ix) && {
            &&& ix.program_id == *sfs_program_id
            &&& ix.data@ == packed(
                SfsInstruction::InitializeRoot {
                    oracle_authority: match oracle_authority_pubkey {
                        Some(k) => Some(*k),
                        None => None,
                    },
                },
            )
            &&& ix.accounts@.len() == 2
            &&& ix.accounts@[0] == (AccountMeta {
                pubkey: *root_pubkey,
                is_signer: false,
                is_writable: true,
            })
            &&& ix.accounts@[1].pubkey.0@ == rent_sysvar_bytes()
            &&& !ix.accounts@[1].is_signer
            &&& !ix.accounts@[1].is_writable
        },
{
    let oracle_authority = match oracle_authority_pubkey {
        Some(k) => Some(*k),
        None => None,
    };
    let data = SfsInstruction::InitializeRoot { oracle_authority }.pack();
    let accounts = vec![
        AccountMeta::new(*root_pubkey, false),
        AccountMeta::new_readonly(rent_sysvar_id(), false),
    ];
    Ok(Instruction { program_id: *sfs_program_id, accounts, data })
}

/// Creates a `TestMutate` instruction.
///
/// Its data packs `TestMutate`; its accounts are the account (writable), the mint, the
/// owner and the rent sysvar (all read-only), none signing.
pub fn test_mutate(
    sfs_program_id: &Pubkey,
    account_pubkey: &Pubkey,
    mint_pubkey: &Pubkey,
    owner_pubkey: &Pubkey,
) -> (r: Result<Instruction, SfsError>)
    ensures
        r matches Ok(ix) && {
            &&& ix.program_id == *sfs_program_id
            &&& ix.data@ == packed(SfsInstruction::TestMutate)
            &&& ix.accounts@.len() == 4
            &&& ix.accounts@[0] == (AccountMeta {
                pubkey: *account_pubkey,
                is_signer: false,
                is_writable: true,
            })
            &&& ix.accounts@[1] == (AccountMeta {
                pubkey: *mint_pubkey,
                is_signer: false,
                is_writable: false,
            })
            &&& ix.accounts@[2] == (AccountMeta {
                pubkey: *owner_pubkey,
                is_signer: false,
                is_writable: false,
            })
            &&& ix.accounts@[3].pubkey.0@ == rent_sysvar_bytes()
            &&& !ix.accounts@[3].is_signer
            &&& !ix.accounts@[3].is_writable
        },
{
    let data = SfsInstruction::TestMutate.pack();
    let accounts = vec![
        AccountMeta::new(*account_pubkey, false),
        AccountMeta::new_readonly(*mint_pubkey, false),
        AccountMeta::new_readonly(*owner_pubkey, false),
        AccountMeta::new_readonly(rent_sysvar_id(), false),
    ];
    Ok(Instruction { program_id: *sfs_program_id, accounts, data })
}

} // verus!
