use vstd::prelude::*;
use byteorder::{ByteOrder, LittleEndian};
use crate::error::SfsError;

verus! {

/// The little-endian `u16` stored in `data[at]` and `data[at + 1]`.
pub open spec fn u16_le_at(data: Seq<u8>, at: int) -> u16 {
    (data[at] as int + 256 * (data[at + 1] as int)) as u16
}

/// The two bytes that store `value` little-endian, written at `at`.
pub open spec fn put_u16_le(data: Seq<u8>, at: int, value: u16) -> Seq<u8> {
    data.update(at, (value % 256) as u8).update(at + 1, (value / 256) as u8)
}

/// `after` is `before` with `len` bytes at `at` taken from `src` at the same place.
pub open spec fn copied_range(before: Seq<u8>, after: Seq<u8>, src: Seq<u8>, at: int, len: int) -> bool {
    &&& after.len() == before.len()
    &&& forall|k: int| 0 <= k < after.len() && !(at <= k < at + len) ==> after[k] == before[k]
    &&& forall|k: int| at <= k < at + len ==> after[k] == src[k]
}

/// The `u16` at `at` is little-endian: the byte at `at` is its low byte, the byte at
/// `at + 1` its high byte.
pub proof fn lemma_u16_le_at_value(data: Seq<u8>, at: int)
    ensures
        u16_le_at(data, at) as int == data[at] as int + 256 * (data[at + 1] as int),
{
}

/// Storing `value` little-endian puts its low byte at `at` and its high byte at `at + 1`,
/// and changes no other byte.
pub proof fn lemma_put_u16_le_bytes(data: Seq<u8>, at: int, value: u16)
    requires
        0 <= at,
        at + 2 <= data.len(),
    ensures
        put_u16_le(data, at, value).len() == data.len(),
        put_u16_le(data, at, value)[at] as int == value as int % 256,
        put_u16_le(data, at, value)[at + 1] as int == value as int / 256,
        forall|k: int|
            0 <= k < data.len() && k != at && k != at + 1 ==> put_u16_le(data, at, value)[k]
                == data[k],
{
}

/// Reading back what `put_u16_le` stored gives the value.
pub proof fn lemma_u16_le_roundtrip(data: Seq<u8>, at: int, value: u16)
    requires
        0 <= at,
        at + 2 <= data.len(),
    ensures
        u16_le_at(put_u16_le(data, at, value), at) == value,
        put_u16_le(data, at, value).len() == data.len(),
        forall|k: int|
            0 <= k < data.len() && k != at && k != at + 1 ==> put_u16_le(data, at, value)[k]
                == data[k],
{
}

/// Reads the little-endian `u16` at `at` with `byteorder`.
///
/// `LittleEndian::read_u16` reads the first two bytes of its buffer, low byte first, and
/// panics on a buffer shorter than two bytes; the contract claims exactly that.
#[verifier::external_body]
pub(crate) fn read_u16_le(data: &[u8], at: usize) -> (value: u16)
    requires
        at + 2 <= data@.len(),
    ensures
        value == u16_le_at(data@, at as int),
{
    LittleEndian::read_u16(&data[at..])
}

/// Writes `value` little-endian at `at` with `byteorder`.
///
/// `LittleEndian::write_u16` writes the low byte, then the high byte, into the first two
/// bytes of its buffer and leaves the rest alone; it panics on a buffer shorter than two
/// bytes. The contract claims exactly that.
#[verifier::external_body]
pub(crate) fn write_u16_le(data: &mut [u8], at: usize, value: u16)
    requires
        at + 2 <= old(data)@.len(),
    ensures
        final(data)@ == put_u16_le(old(data)@, at as int, value),
{
    LittleEndian::write_u16(&mut data[at..], value)
}

/// Copies `len` bytes at `at` of `src` to the same place in `dst`.
pub fn copy_range(src: &[u8], dst: &mut [u8], at: usize, len: usize)
    requires
        at + len <= src.len(),
        at + len <= old(dst).len(),
    ensures
        copied_range(old(dst)@, final(dst)@, src@, at as int, len as int),
{
    let mut j: usize = 0;
    while j < len
        invariant
            j <= len,
            at + len <= src.len(),
            at + len <= dst.len(),
            copied_range(old(dst)@, dst@, src@, at as int, j as int),
        decreases len - j,
    {
        let k: usize = at + j;
        dst[k] = src[k];
        j = j + 1;
    }
}

/// Decodes an initialization flag: 0 is `false`, 1 is `true`, anything else is invalid
/// account data.
pub fn unpack_is_initialized(flag: u8) -> (r: Result<bool, SfsError>)
    ensures
        flag == 0 ==> r == Ok::<bool, SfsError>(false),
        flag == 1 ==> r == Ok::<bool, SfsError>(true),
        flag > 1 ==> r == Err::<bool, SfsError>(SfsError::InvalidAccountData),
{
    if flag == 0 {
        Ok(false)
    } else if flag == 1 {
        Ok(true)
    } else {
        Err(SfsError::InvalidAccountData)
    }
}

} // verus!
