use vstd::prelude::*;

verus! {

/// A 32-byte public key.
#[derive(Clone, Copy, Debug, PartialEq, Eq)]
pub struct Pubkey(pub [u8; 32]);

impl Pubkey {
    /// The key made of 32 bytes.
    pub fn new(bytes: &[u8]) -> (key: Pubkey)
        requires
            bytes.len() == 32,
        ensures
            key.0@ == bytes@,
    {
        let key = read_pubkey(bytes, 0);
        assert(bytes@.subrange(0, 32) =~= bytes@);
        key
    }

    /// The key made of these bytes.
    pub fn new_from_array(bytes: [u8; 32]) -> (key: Pubkey)
        ensures
            key.0@ == bytes@,
    {
        Pubkey(bytes)
    }

    /// The bytes of the key.
    pub fn to_bytes(&self) -> (bytes: [u8; 32])
        ensures
            bytes@ == self.0@,
    {
        self.0
    }
}

/// Reads the key stored in `data[at..at + 32]`.
pub fn read_pubkey(data: &[u8], at: usize) -> (key: Pubkey)
    requires
        at + 32 <= data.len(),
    ensures
        key.0@ == data@.subrange(at as int, at + 32),
{
    let mut bytes: [u8; 32] = [0u8; 32];
    let mut j: usize = 0;
    while j < 32
        invariant
            j <= 32,
            at + 32 <= data.len(),
            bytes@.len() == 32,
            forall|k: int| 0 <= k < j ==> bytes@[k] == data@[at + k],
        decreases 32 - j,
    {
        let k: usize = at + j;
        bytes[j] = data[k];
        j = j + 1;
    }
    assert(bytes@ =~= data@.subrange(at as int, at + 32));
    Pubkey(bytes)
}

/// Stores `key` in `data[at..at + 32]`, leaving the other bytes alone.
pub fn write_pubkey(data: &mut [u8], at: usize, key: &Pubkey)
    requires
        at + 32 <= old(data).len(),
    ensures
        final(data)@.len() == old(data)@.len(),
        final(data)@.subrange(at as int, at + 32) == key.0@,
        forall|k: int|
            0 <= k < old(data)@.len() && !(at <= k < at + 32) ==> final(data)@[k] == old(data)@[k],
{
    let mut j: usize = 0;
    while j < 32
        invariant
            j <= 32,
            at + 32 <= data.len(),
            data@.len() == old(data)@.len(),
            key.0@.len() == 32,
            forall|k: int| 0 <= k < j ==> data@[at + k] == key.0@[k],
            forall|k: int|
                0 <= k < old(data)@.len() && !(at <= k < at + j) ==> data@[k] == old(data)@[k],
        decreases 32 - j,
    {
        let k: usize = at + j;
        data[k] = key.0[j];
        j = j + 1;
    }
    assert(data@.subrange(at as int, at + 32) =~= key.0@);
}

/// The bytes of the rent sysvar's address, `SysvarRent111111111111111111111111111111111`.
pub open spec fn rent_sysvar_bytes() -> Seq<u8> {
    seq![
        6u8, 167, 213, 23, 25, 44, 92, 81, 33, 140, 201, 76, 61, 74, 241, 127,
        88, 218, 238, 8, 155, 161, 253, 68, 227, 219, 217, 138, 0, 0, 0, 0,
    ]
}

/// The address of the rent sysvar, from `solana_program::sysvar::rent::id()`.
///
/// The solana crate declares that address as the constant
/// `SysvarRent111111111111111111111111111111111`; the contract claims that the key holds
/// the 32 bytes that this base-58 text decodes to.
#[verifier::external_body]
pub(crate) fn rent_sysvar_id() -> (key: Pubkey)
    ensures
        key.0@ == rent_sysvar_bytes(),
{
    Pubkey(solana_program::sysvar::rent::id().to_bytes())
}

} // verus!
